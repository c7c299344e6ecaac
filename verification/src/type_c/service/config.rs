//! Configuration of the Type-C service.

use crate::type_c::ucsi::lpm::ConnectorCapability;
use crate::type_c::ucsi::Capabilities;
use vstd::prelude::*;

verus! {

/// Type-C service configuration
#[derive(Copy, Clone, Debug, PartialEq, Eq, Structural)]
pub struct Config {
    /// Capability descriptor reported to the host; the number of connectors
    /// is filled in when the host asks
    pub ucsi_capabilities: Capabilities,
    /// Connector capability reported for every port in place of the
    /// controller's answer
    pub ucsi_port_capabilities: Option<ConnectorCapability>,
}

} // verus!
