//! Commands for a port's local policy manager.

use crate::type_c::GlobalPortId;
use vstd::prelude::*;

verus! {

/// Connector reset types
#[derive(Copy, Clone, Debug, PartialEq, Eq, Structural)]
pub enum ResetType {
    /// Hard reset
    Hard,
    /// Data reset
    Data,
}

/// LPM command data
#[derive(Copy, Clone, Debug, PartialEq, Eq, Structural)]
pub enum CommandData {
    /// Reset the connector
    ConnectorReset(ResetType),
    /// Get the connector's capability
    GetConnectorCapability,
    /// Get the connector's status
    GetConnectorStatus,
}

/// LPM commands
#[derive(Copy, Clone, Debug, PartialEq, Eq, Structural)]
pub struct Command {
    /// Port that the command is for
    pub port: GlobalPortId,
    /// What to do
    pub operation: CommandData,
}

impl Command {
    /// What the command asks for
    pub fn operation(&self) -> (operation: CommandData)
        ensures
            operation == self.operation,
    {
        self.operation
    }
}

/// Capability of a connector, as its raw descriptor.
#[derive(Copy, Clone, Debug, PartialEq, Eq, Structural)]
pub struct ConnectorCapability(pub u32);

/// Status of a connector, as reported to the host.
#[derive(Copy, Clone, Debug, PartialEq, Eq, Structural)]
pub struct ConnectorStatus {
    /// A partner is connected
    pub connect_status: bool,
    /// The port sources power
    pub power_direction_source: bool,
    /// Negotiated voltage in mV
    pub voltage_mv: u16,
    /// Negotiated current in mA
    pub current_ma: u16,
}

/// LPM response data
#[derive(Copy, Clone, Debug, PartialEq, Eq, Structural)]
pub enum ResponseData {
    /// The command completed without data
    Complete,
    /// Capability of the connector
    GetConnectorCapability(ConnectorCapability),
    /// Status of the connector
    GetConnectorStatus(ConnectorStatus),
}

} // verus!
