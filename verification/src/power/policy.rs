//! Power policy: the currency exchanged between ports and the policy engine.

use vstd::prelude::*;

pub mod flags;

verus! {

/// Amount of power that a device can consume or provide.
#[derive(Copy, Clone, Debug, PartialEq, Eq, Structural)]
pub struct PowerCapability {
    /// Available voltage in mV
    pub voltage_mv: u16,
    /// Maximum available current in mA
    pub current_ma: u16,
}

impl PowerCapability {
    /// Maximum power in mW, as a mathematical integer.
    pub open spec fn spec_max_power_mw(&self) -> int {
        self.voltage_mv as int * self.current_ma as int / 1000
    }

    /// Calculate maximum power in mW
    pub fn max_power_mw(&self) -> (power: u32)
        ensures
            power == self.spec_max_power_mw(),
    {
        let voltage: u32 = self.voltage_mv as u32;
        let current: u32 = self.current_ma as u32;
        assert(voltage * current <= 0xffff * 0xffff) by (nonlinear_arith)
            requires
                voltage <= 0xffff,
                current <= 0xffff,
        ;
        voltage * current / 1000
    }
}

/// Errors of the power policy.
#[derive(Copy, Clone, Debug, PartialEq, Eq, Structural)]
pub enum Error {
    /// The requested device does not exist
    InvalidDevice,
    /// The device is not in the state that the operation needs
    InvalidState,
    /// The response does not fit the request
    InvalidResponse,
    /// The operation failed
    Failed,
    /// The operation timed out
    Timeout,
}

/// Kind of state that a power policy device is in.
#[derive(Copy, Clone, Debug, PartialEq, Eq, Structural)]
pub enum StateKind {
    /// No device attached
    Detached,
    /// Device attached, no contract in use
    Idle,
    /// Consuming power from the device
    ConnectedConsumer,
    /// Providing power to the device
    ConnectedProvider,
}

/// Request from the power policy to a device.
#[derive(Copy, Clone, Debug, PartialEq, Eq, Structural)]
pub enum RequestData {
    /// Start consuming on this device
    ConnectConsumer(PowerCapability),
    /// Start providing on this device
    ConnectProvider(PowerCapability),
    /// Stop providing or consuming on this device
    Disconnect,
}

/// Data of a response to the power policy.
#[derive(Copy, Clone, Debug, PartialEq, Eq, Structural)]
pub enum ResponseData {
    /// The request was carried out
    Complete,
}

/// Whether the system draws unconstrained power, and from how many sources it could.
#[derive(Copy, Clone, Debug, PartialEq, Eq, Structural)]
pub struct UnconstrainedState {
    /// Unconstrained power is available
    pub unconstrained: bool,
    /// Number of available unconstrained sources
    pub available: usize,
}

/// Power policy device identifier.
#[derive(Copy, Clone, Debug, PartialEq, Eq, Structural)]
pub struct DeviceId(pub u8);

/// Data of a broadcast of the power policy.
#[derive(Copy, Clone, Debug, PartialEq, Eq, Structural)]
pub enum CommsData {
    /// A consumer was disconnected
    ConsumerDisconnected(DeviceId),
    /// A consumer was connected
    ConsumerConnected(DeviceId, PowerCapability),
    /// The unconstrained state changed
    Unconstrained(UnconstrainedState),
}

/// What a subscriber of the power policy's broadcasts finds next.
#[derive(Copy, Clone, Debug, PartialEq, Eq, Structural)]
pub enum WaitResult {
    /// This many broadcasts were missed
    Lagged(u64),
    /// A broadcast
    Message(CommsData),
}

} // verus!
