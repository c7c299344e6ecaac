//! Commands that reach the Type-C service from outside the subsystem, and
//! the responses to them.

use crate::type_c::controller::{ControllerStatus, PortCommand, PortResponseData};
use crate::type_c::service::ucsi::UcsiResponse;
use crate::type_c::ucsi::GlobalCommand;
use crate::type_c::{ControllerId, PdError};
use vstd::prelude::*;

verus! {

/// Data of a command for a controller.
#[derive(Copy, Clone, Debug, PartialEq, Eq, Structural)]
pub enum ControllerCommandData {
    /// Get the controller's status
    ControllerStatus,
    /// Bring the wrapper's state in line with the controller
    SyncState,
    /// Reset the controller
    Reset,
}

/// Command for a controller.
#[derive(Copy, Clone, Debug, PartialEq, Eq, Structural)]
pub struct ControllerCommand {
    /// Controller that the command is for
    pub id: ControllerId,
    /// What to do
    pub data: ControllerCommandData,
}

/// Data of a response from a controller.
#[derive(Copy, Clone, Debug, PartialEq, Eq, Structural)]
pub enum ControllerResponseData {
    /// The command completed without data
    Complete,
    /// Status of the controller
    ControllerStatus(ControllerStatus),
}

/// Command from outside the subsystem.
#[derive(Copy, Clone, Debug, PartialEq, Eq, Structural)]
pub enum Command {
    /// Command for a controller
    Controller(ControllerCommand),
    /// Command for a port
    Port(PortCommand),
    /// UCSI command
    Ucsi(GlobalCommand),
}

/// Response to a command from outside the subsystem.
#[derive(Copy, Clone, Debug, PartialEq, Eq)]
pub enum Response {
    /// Response of a controller
    Controller(Result<ControllerResponseData, PdError>),
    /// Response of a port
    Port(Result<PortResponseData, PdError>),
    /// Response to a UCSI command
    Ucsi(UcsiResponse),
}

} // verus!
