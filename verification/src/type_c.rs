//! Type-C port management: port identifiers, the error taxonomy, and the
//! controller, event, UCSI, wrapper and service layers built on them.

use vstd::prelude::*;

pub mod controller;
pub mod comms;
pub mod event;
pub mod external;
pub mod service;
pub mod ucsi;
pub mod wrapper;

verus! {

/// Number of ports that a pending-port bitmap can hold.
pub const MAX_PORTS: usize = 32;

/// System-wide port identifier, unique across controllers.
#[derive(Copy, Clone, Debug, PartialEq, Eq, Structural)]
pub struct GlobalPortId(pub u8);

/// Port identifier local to one controller, counted from zero.
#[derive(Copy, Clone, Debug, PartialEq, Eq, Structural)]
pub struct LocalPortId(pub u8);

/// Controller identifier.
#[derive(Copy, Clone, Debug, PartialEq, Eq, Structural)]
pub struct ControllerId(pub u8);

/// Whether a status request may be answered from a cache.
#[derive(Copy, Clone, Debug, PartialEq, Eq, Structural)]
pub struct Cached(pub bool);

/// Protocol-level errors.
#[derive(Copy, Clone, Debug, PartialEq, Eq, Structural)]
pub enum PdError {
    /// The port does not exist
    InvalidPort,
    /// The controller does not exist
    InvalidController,
    /// The operation is not valid in the current mode
    InvalidMode,
    /// The response does not fit the request
    InvalidResponse,
    /// The parameters are not valid
    InvalidParams,
    /// The operation failed
    Failed,
    /// The device is busy
    Busy,
    /// The operation timed out
    Timeout,
}

/// Error of a controller driver call: a bus fault or a protocol error.
#[derive(Copy, Clone, Debug, PartialEq, Eq)]
pub enum Error<BE> {
    /// Low-level bus failure
    Bus(BE),
    /// Protocol-level error
    Pd(PdError),
}

/// The protocol error that a failed driver call is reported as: a bus fault
/// becomes `Failed`, a protocol error is passed on.
pub open spec fn response_error<BE>(error: Error<BE>) -> PdError {
    match error {
        Error::Bus(_) => PdError::Failed,
        Error::Pd(e) => e,
    }
}

/// Convert a driver error into the protocol error sent back to the requester.
pub fn to_response_error<BE>(error: Error<BE>) -> (e: PdError)
    ensures
        e == response_error(error),
{
    match error {
        Error::Bus(_) => PdError::Failed,
        Error::Pd(e) => e,
    }
}

} // verus!
