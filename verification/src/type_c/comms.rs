//! Messages that the Type-C service broadcasts to other parts of the system.

use crate::type_c::GlobalPortId;
use vstd::prelude::*;

verus! {

/// A debug accessory was connected or disconnected.
#[derive(Copy, Clone, Debug, PartialEq, Eq, Structural)]
pub struct DebugAccessoryMessage {
    /// Port of the accessory
    pub port: GlobalPortId,
    /// Connected or disconnected
    pub connected: bool,
}

/// The connector signaled to the host has changed.
#[derive(Copy, Clone, Debug, PartialEq, Eq, Structural)]
pub struct UcsiCiMessage {
    /// Port that is now signaled
    pub port: GlobalPortId,
    /// Whether the host is to be notified on top of the indicator
    pub notify_opm: bool,
}

/// Message broadcast by the Type-C service.
#[derive(Copy, Clone, Debug, PartialEq, Eq, Structural)]
pub enum CommsMessage {
    /// Debug accessory connected or disconnected
    DebugAccessory(DebugAccessoryMessage),
    /// Connector change indication
    UcsiCci(UcsiCiMessage),
}

} // verus!
