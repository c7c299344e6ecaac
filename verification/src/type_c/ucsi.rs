//! UCSI vocabulary: the command/connector-change indicator, notification
//! masks, connector status changes, commands and responses, and the inputs and
//! outputs of the platform policy manager.

use crate::type_c::PdError;
use vstd::prelude::*;

pub mod lpm;

verus! {

/// Command/connector-change indicator, the status header of every response
/// and notification.
#[derive(Copy, Clone, Debug, PartialEq, Eq, Structural)]
pub struct Cci {
    /// One-based number of the connector signaled as changed, zero for none
    pub connector_change: u8,
    /// The reset has completed
    pub reset_complete: bool,
    /// The policy manager is busy
    pub busy: bool,
    /// A command acknowledgement was received
    pub ack_command: bool,
    /// The command failed
    pub error: bool,
    /// The command has completed
    pub cmd_complete: bool,
}

impl Cci {
    /// The indicator with every flag clear and no connector signaled.
    pub open spec fn spec_default() -> Self {
        Cci {
            connector_change: 0,
            reset_complete: false,
            busy: false,
            ack_command: false,
            error: false,
            cmd_complete: false,
        }
    }

    /// Create an indicator with every flag clear
    pub fn new() -> (cci: Self)
        ensures
            cci == Self::spec_default(),
    {
        Cci {
            connector_change: 0,
            reset_complete: false,
            busy: false,
            ack_command: false,
            error: false,
            cmd_complete: false,
        }
    }

    /// Create an indicator that reports an error
    pub fn new_error() -> (cci: Self)
        ensures
            cci == (Cci { error: true, ..Self::spec_default() }),
    {
        let mut cci = Self::new();
        cci.error = true;
        cci
    }

    /// Create an indicator that reports a completed reset
    pub fn new_reset_complete() -> (cci: Self)
        ensures
            cci == (Cci { reset_complete: true, ..Self::spec_default() }),
    {
        let mut cci = Self::new();
        cci.reset_complete = true;
        cci
    }
}

impl Default for Cci {
    fn default() -> (cci: Self)
        ensures
            cci == Cci::spec_default(),
    {
        Cci::new()
    }
}

/// Event categories that the host wants to be notified about.
#[derive(Copy, Clone, Debug, PartialEq, Eq, Structural)]
pub struct NotificationEnable {
    /// Command completed
    pub cmd_complete: bool,
    /// External supply changed
    pub external_supply_change: bool,
    /// Power operation mode changed
    pub power_op_mode_change: bool,
    /// Negotiated power level changed
    pub negotiated_power_level_change: bool,
    /// PD reset completed
    pub pd_reset_complete: bool,
    /// Battery charging status changed
    pub battery_charging_status_change: bool,
    /// Connector partner changed
    pub connector_partner_change: bool,
    /// Power direction changed
    pub power_direction_change: bool,
    /// Connected or disconnected
    pub connect_change: bool,
}

impl NotificationEnable {
    /// The mask with every category disabled.
    pub open spec fn spec_default() -> Self {
        NotificationEnable {
            cmd_complete: false,
            external_supply_change: false,
            power_op_mode_change: false,
            negotiated_power_level_change: false,
            pd_reset_complete: false,
            battery_charging_status_change: false,
            connector_partner_change: false,
            power_direction_change: false,
            connect_change: false,
        }
    }

    /// No category is enabled.
    pub open spec fn spec_is_empty(&self) -> bool {
        *self == Self::spec_default()
    }

    /// Create a mask with every category disabled
    pub fn new() -> (mask: Self)
        ensures
            mask == Self::spec_default(),
    {
        NotificationEnable {
            cmd_complete: false,
            external_supply_change: false,
            power_op_mode_change: false,
            negotiated_power_level_change: false,
            pd_reset_complete: false,
            battery_charging_status_change: false,
            connector_partner_change: false,
            power_direction_change: false,
            connect_change: false,
        }
    }

    /// Returns true if no category is enabled
    pub fn is_empty(&self) -> (empty: bool)
        ensures
            empty == self.spec_is_empty(),
    {
        !(self.cmd_complete || self.external_supply_change || self.power_op_mode_change
            || self.negotiated_power_level_change || self.pd_reset_complete
            || self.battery_charging_status_change || self.connector_partner_change
            || self.power_direction_change || self.connect_change)
    }

    /// Whether command completion is notified
    pub fn cmd_complete(&self) -> (enabled: bool)
        ensures
            enabled == self.cmd_complete,
    {
        self.cmd_complete
    }

    /// Whether connects and disconnects are notified
    pub fn connect_change(&self) -> (enabled: bool)
        ensures
            enabled == self.connect_change,
    {
        self.connect_change
    }
}

impl Default for NotificationEnable {
    fn default() -> (mask: Self)
        ensures
            mask == NotificationEnable::spec_default(),
    {
        NotificationEnable::new()
    }
}

/// Event categories delivered with a connector-change notification.
#[derive(Copy, Clone, Debug, PartialEq, Eq, Structural)]
pub struct ConnectorStatusChange {
    /// External supply changed
    pub external_supply_change: bool,
    /// Power operation mode changed
    pub power_op_mode_change: bool,
    /// Negotiated power level changed
    pub negotiated_power_level_change: bool,
    /// PD reset completed
    pub pd_reset_complete: bool,
    /// Battery charging status changed
    pub battery_charging_status_change: bool,
    /// Connector partner changed
    pub connector_partner_changed: bool,
    /// Power direction changed
    pub power_direction_changed: bool,
    /// Connected or disconnected
    pub connect_change: bool,
}

impl ConnectorStatusChange {
    /// The change with no category set.
    pub open spec fn spec_default() -> Self {
        ConnectorStatusChange {
            external_supply_change: false,
            power_op_mode_change: false,
            negotiated_power_level_change: false,
            pd_reset_complete: false,
            battery_charging_status_change: false,
            connector_partner_changed: false,
            power_direction_changed: false,
            connect_change: false,
        }
    }

    /// No category is set.
    pub open spec fn spec_is_none(&self) -> bool {
        *self == Self::spec_default()
    }

    /// The categories of the change that the mask enables.
    pub open spec fn spec_filter_enabled(&self, enabled: NotificationEnable) -> Self {
        ConnectorStatusChange {
            external_supply_change: self.external_supply_change && enabled.external_supply_change,
            power_op_mode_change: self.power_op_mode_change && enabled.power_op_mode_change,
            negotiated_power_level_change: self.negotiated_power_level_change
                && enabled.negotiated_power_level_change,
            pd_reset_complete: self.pd_reset_complete && enabled.pd_reset_complete,
            battery_charging_status_change: self.battery_charging_status_change
                && enabled.battery_charging_status_change,
            connector_partner_changed: self.connector_partner_changed
                && enabled.connector_partner_change,
            power_direction_changed: self.power_direction_changed
                && enabled.power_direction_change,
            connect_change: self.connect_change && enabled.connect_change,
        }
    }

    /// Create a change with no category set
    pub fn new() -> (change: Self)
        ensures
            change == Self::spec_default(),
    {
        ConnectorStatusChange {
            external_supply_change: false,
            power_op_mode_change: false,
            negotiated_power_level_change: false,
            pd_reset_complete: false,
            battery_charging_status_change: false,
            connector_partner_changed: false,
            power_direction_changed: false,
            connect_change: false,
        }
    }

    /// Returns true if no category is set
    pub fn is_none(&self) -> (none: bool)
        ensures
            none == self.spec_is_none(),
    {
        !(self.external_supply_change || self.power_op_mode_change
            || self.negotiated_power_level_change || self.pd_reset_complete
            || self.battery_charging_status_change || self.connector_partner_changed
            || self.power_direction_changed || self.connect_change)
    }

    /// Keep the categories that the mask enables
    pub fn filter_enabled(&self, enabled: NotificationEnable) -> (kept: Self)
        ensures
            kept == self.spec_filter_enabled(enabled),
    {
        ConnectorStatusChange {
            external_supply_change: self.external_supply_change && enabled.external_supply_change,
            power_op_mode_change: self.power_op_mode_change && enabled.power_op_mode_change,
            negotiated_power_level_change: self.negotiated_power_level_change
                && enabled.negotiated_power_level_change,
            pd_reset_complete: self.pd_reset_complete && enabled.pd_reset_complete,
            battery_charging_status_change: self.battery_charging_status_change
                && enabled.battery_charging_status_change,
            connector_partner_changed: self.connector_partner_changed
                && enabled.connector_partner_change,
            power_direction_changed: self.power_direction_changed
                && enabled.power_direction_change,
            connect_change: self.connect_change && enabled.connect_change,
        }
    }
}

impl Default for ConnectorStatusChange {
    fn default() -> (change: Self)
        ensures
            change == ConnectorStatusChange::spec_default(),
    {
        ConnectorStatusChange::new()
    }
}

/// What the host acknowledges with `AckCcCi`.
#[derive(Copy, Clone, Debug, PartialEq, Eq, Structural)]
pub struct Ack {
    /// Acknowledges the connector change
    pub connector_change: bool,
    /// Acknowledges the command completion
    pub command_complete: bool,
}

/// Capability descriptor of the policy manager.
#[derive(Copy, Clone, Debug, PartialEq, Eq, Structural)]
pub struct Capabilities {
    /// Attribute flags
    pub attributes: u32,
    /// Number of connectors
    pub num_connectors: u8,
    /// Optional feature flags
    pub optional_features: u32,
    /// Number of alternate modes
    pub num_alt_modes: u8,
    /// Battery charging specification release
    pub bcd_bc_version: u16,
    /// Power delivery specification release
    pub bcd_pd_version: u16,
    /// Type-C specification release
    pub bcd_usb_type_c_version: u16,
}

/// Commands handled by the policy manager itself.
#[derive(Copy, Clone, Debug, PartialEq, Eq, Structural)]
pub enum PpmCommand {
    /// Reset the policy manager
    PpmReset,
    /// Cancel the current command
    Cancel,
    /// Acknowledge a command completion or a connector change
    AckCcCi(Ack),
    /// Choose the notifications to receive
    SetNotificationEnable(NotificationEnable),
    /// Get the capability descriptor
    GetCapability,
}

/// Response data of the policy manager's own commands.
#[derive(Copy, Clone, Debug, PartialEq, Eq, Structural)]
pub enum PpmResponseData {
    /// Capability descriptor
    GetCapability(Capabilities),
}

/// A UCSI command: for the policy manager or for a port.
#[derive(Copy, Clone, Debug, PartialEq, Eq, Structural)]
pub enum GlobalCommand {
    /// Command for the policy manager
    PpmCommand(PpmCommand),
    /// Command for a port
    LpmCommand(lpm::Command),
}

/// Response data of a UCSI command.
#[derive(Copy, Clone, Debug, PartialEq, Eq, Structural)]
pub enum ResponseData {
    /// Data from the policy manager
    Ppm(PpmResponseData),
    /// Data from a port
    Lpm(lpm::ResponseData),
}

/// Input to the policy manager's state machine.
#[derive(Copy, Clone, Debug, PartialEq, Eq, Structural)]
pub enum PpmInput {
    /// A command from the host
    Command(GlobalCommand),
    /// The command in execution has completed
    CommandComplete,
}

/// Output of the policy manager's state machine.
#[derive(Copy, Clone, Debug, PartialEq, Eq, Structural)]
pub enum PpmOutput {
    /// Execute the command
    ExecuteCommand(GlobalCommand),
    /// Tell the host that the command has completed
    OpmNotifyCommandComplete,
    /// The host's acknowledgement was accepted
    AckComplete(Ack),
    /// The reset has completed
    ResetComplete,
    /// Tell the host that the policy manager is busy
    OpmNotifyBusy,
}

/// The state machine refused an input in its current state.
#[derive(Copy, Clone, Debug, PartialEq, Eq, Structural)]
pub struct InvalidTransition;

/// Result of feeding one input to the state machine.
pub type PpmResult = Result<Option<PpmOutput>, InvalidTransition>;

/// Data of a finished command, or the reason it failed.
pub type CommandResult = Result<Option<ResponseData>, PdError>;

} // verus!
