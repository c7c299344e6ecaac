//! UCSI front end of the Type-C service: queuing of connector changes with
//! round-robin delivery, and the two-phase execution of host commands.

use crate::type_c::comms::UcsiCiMessage;
use crate::type_c::event::{
    PortPending, PortPendingIter, PortStatusChanged, ALT_MODE_ENTERED, DATA_SWAP_COMPLETED,
    NEW_POWER_CONTRACT_AS_CONSUMER, NEW_POWER_CONTRACT_AS_PROVIDER, PD_HARD_RESET,
    PLUG_INSERTED_OR_REMOVED, POWER_SWAP_COMPLETED,
};
use crate::type_c::service::config::Config;
use crate::type_c::ucsi::lpm;
use crate::type_c::ucsi::{
    Ack, Capabilities, Cci, CommandResult, ConnectorStatusChange, GlobalCommand,
    NotificationEnable, PpmCommand, PpmInput, PpmOutput, PpmResponseData, PpmResult, ResponseData,
};
use crate::type_c::{GlobalPortId, PdError, MAX_PORTS};
use vstd::prelude::*;

verus! {

/// The UCSI categories that a port status change stands for.
///
/// A new power contract, in either role, sets the whole bundle of power
/// categories, the power direction among them.
pub open spec fn connector_status_change_of(event: PortStatusChanged) -> ConnectorStatusChange {
    let contract = event.has(NEW_POWER_CONTRACT_AS_CONSUMER) || event.has(
        NEW_POWER_CONTRACT_AS_PROVIDER,
    );
    ConnectorStatusChange {
        external_supply_change: contract,
        power_op_mode_change: contract,
        negotiated_power_level_change: contract,
        pd_reset_complete: event.has(PD_HARD_RESET),
        battery_charging_status_change: contract,
        connector_partner_changed: event.has(DATA_SWAP_COMPLETED) || event.has(ALT_MODE_ENTERED),
        power_direction_changed: event.has(POWER_SWAP_COMPLETED) || contract,
        connect_change: event.has(PLUG_INSERTED_OR_REMOVED),
    }
}

/// Translate a port status change into UCSI categories.
pub fn connector_status_change(event: PortStatusChanged) -> (change: ConnectorStatusChange)
    ensures
        change == connector_status_change_of(event),
{
    let mut change = ConnectorStatusChange::new();
    change.connect_change = event.plug_inserted_or_removed();
    change.power_direction_changed = event.power_swap_completed();
    change.pd_reset_complete = event.pd_hard_reset();
    if event.data_swap_completed() || event.alt_mode_entered() {
        change.connector_partner_changed = true;
    }
    if event.new_power_contract_as_consumer() || event.new_power_contract_as_provider() {
        change.negotiated_power_level_change = true;
        change.power_op_mode_change = true;
        change.external_supply_change = true;
        change.power_direction_changed = true;
        change.battery_charging_status_change = true;
    }
    change
}

/// Response to a UCSI command.
#[derive(Copy, Clone, Debug, PartialEq, Eq)]
pub struct UcsiResponse {
    /// Whether the host is to be notified of the response
    pub notify_opm: bool,
    /// Status header
    pub cci: Cci,
    /// Data of the command, or the reason it failed
    pub data: CommandResult,
}

impl UcsiResponse {
    /// The response that a command starts from: no notification, a clear
    /// indicator, no data.
    pub open spec fn spec_new() -> Self {
        UcsiResponse { notify_opm: false, cci: Cci::spec_default(), data: Ok(None) }
    }

    /// The response to a command that could not be processed.
    pub open spec fn spec_error(error: PdError) -> Self {
        UcsiResponse {
            notify_opm: true,
            cci: Cci { error: true, ..Cci::spec_default() },
            data: Err(error),
        }
    }

    /// Create the response that a command starts from
    pub fn new() -> (response: Self)
        ensures
            response == Self::spec_new(),
    {
        UcsiResponse { notify_opm: false, cci: Cci::new(), data: Ok(None) }
    }

    /// Create the response to a command that could not be processed
    pub fn new_error(error: PdError) -> (response: Self)
        ensures
            response == Self::spec_error(error),
    {
        UcsiResponse { notify_opm: true, cci: Cci::new_error(), data: Err(error) }
    }
}

/// What is to happen next with a UCSI command in execution.
#[derive(Copy, Clone, Debug, PartialEq, Eq, Structural)]
pub enum UcsiStep {
    /// Feed the input to the policy manager's state machine and process its output
    Consume(PpmInput),
    /// Send the command to the port's controller and hand its result to `lpm_command_done`
    ExecuteLpm(lpm::Command),
    /// The command is finished: broadcast the message, if any, and send the response
    Respond(Option<UcsiCiMessage>),
}

/// What a port command is answered with.
#[derive(Copy, Clone, Debug, PartialEq, Eq, Structural)]
pub enum LpmDecision {
    /// Answer from the configuration
    Respond(lpm::ResponseData),
    /// Ask the port's controller
    Delegate(lpm::Command),
}

/// The answer to a port command: the configured connector capability where
/// one is configured and asked for, the controller's answer otherwise.
pub open spec fn lpm_decision(config: Config, command: lpm::Command) -> LpmDecision {
    if command.operation == lpm::CommandData::GetConnectorCapability
        && config.ucsi_port_capabilities is Some {
        LpmDecision::Respond(
            lpm::ResponseData::GetConnectorCapability(config.ucsi_port_capabilities->0),
        )
    } else {
        LpmDecision::Delegate(command)
    }
}

/// Decide how a port command is answered
pub fn process_lpm_command(config: &Config, command: &lpm::Command) -> (decision: LpmDecision)
    ensures
        decision == lpm_decision(*config, *command),
{
    match command.operation() {
        lpm::CommandData::GetConnectorCapability => {
            // Override the capabilities if present in the config
            match config.ucsi_port_capabilities {
                Some(capabilities) => LpmDecision::Respond(
                    lpm::ResponseData::GetConnectorCapability(capabilities),
                ),
                None => LpmDecision::Delegate(*command),
            }
        },
        _ => LpmDecision::Delegate(*command),
    }
}

/// The data that a command of the policy manager returns.
pub open spec fn ppm_response(config: Config, command: PpmCommand, num_ports: usize) -> Option<
    PpmResponseData,
> {
    match command {
        PpmCommand::GetCapability => Some(
            PpmResponseData::GetCapability(
                Capabilities {
                    num_connectors: (num_ports % 256) as u8,
                    ..config.ucsi_capabilities
                },
            ),
        ),
        _ => None,
    }
}

/// The notification mask after a command of the policy manager.
pub open spec fn ppm_notifications(before: NotificationEnable, command: PpmCommand) -> NotificationEnable {
    match command {
        PpmCommand::PpmReset => NotificationEnable::spec_default(),
        PpmCommand::SetNotificationEnable(enable) => enable,
        _ => before,
    }
}

/// The data of a port command's result, as data of a UCSI command.
pub open spec fn lpm_result(result: Result<Option<lpm::ResponseData>, PdError>) -> CommandResult {
    match result {
        Ok(Some(data)) => Ok(Some(ResponseData::Lpm(data))),
        Ok(None) => Ok(None),
        Err(e) => Err(e),
    }
}

/// Record the result of a port command that its controller has executed
///
/// Execution is complete from the state machine's point of view, so the
/// next step feeds it the completion.
pub fn lpm_command_done(
    response: &mut UcsiResponse,
    result: Result<Option<lpm::ResponseData>, PdError>,
) -> (step: UcsiStep)
    ensures
        *final(response) == (UcsiResponse { data: lpm_result(result), ..*old(response) }),
        step == UcsiStep::Consume(PpmInput::CommandComplete),
{
    response.data =
    match result {
        Ok(Some(data)) => Ok(Some(ResponseData::Lpm(data))),
        Ok(None) => Ok(None),
        Err(e) => Err(e),
    };
    UcsiStep::Consume(PpmInput::CommandComplete)
}

/// UCSI state: the notification mask and the connector changes that the host
/// has not acknowledged.
///
/// Unacknowledged ports are delivered in passes. A pass walks a snapshot of
/// the ports in ascending order; ports that turn up meanwhile wait for the
/// next pass.
#[derive(Copy, Clone, Debug)]
pub struct State {
    /// Currently enabled notifications
    notifications_enabled: NotificationEnable,
    /// Connector changes waiting for the next pass
    pending_ports: PortPending,
    /// Cursor of the running pass
    pending_ports_iter: Option<PortPendingIter>,
}

impl State {
    /// Currently enabled notifications.
    pub closed spec fn spec_notifications_enabled(&self) -> NotificationEnable {
        self.notifications_enabled
    }

    /// A pass is running.
    pub closed spec fn active(&self) -> bool {
        self.pending_ports_iter is Some
    }

    /// `port` has yet to be delivered in the running pass.
    pub closed spec fn in_pass(&self, port: int) -> bool {
        self.pending_ports_iter matches Some(iter) && iter.remaining(port)
    }

    /// `port` waits for the next pass.
    pub closed spec fn queued(&self, port: int) -> bool {
        self.pending_ports.contains(port)
    }

    /// `port` has a connector change that the host has not acknowledged.
    pub open spec fn pending(&self, port: int) -> bool {
        self.in_pass(port) || self.queued(port)
    }

    /// No port has an unacknowledged connector change.
    pub open spec fn nothing_pending(&self) -> bool {
        forall|port: int| !self.pending(port)
    }

    /// `port` is the one currently signaled to the host: the lowest of the running pass.
    pub open spec fn indicated(&self, port: int) -> bool {
        self.in_pass(port) && forall|other: int| #[trigger] self.in_pass(other) ==> port <= other
    }

    /// The cursor exists exactly while something is pending: a running pass
    /// has a port left, and without a pass nothing waits.
    pub open spec fn wf(&self) -> bool {
        &&& self.active() ==> exists|port: int| self.in_pass(port)
        &&& !self.active() ==> forall|port: int| !self.queued(port)
    }

    /// The connector number that an indicator built now carries: one more
    /// than the signaled port, zero when none is signaled.
    pub open spec fn spec_connector_change(&self) -> int {
        if exists|port: int| self.indicated(port) {
            (choose|port: int| self.indicated(port)) + 1
        } else {
            0
        }
    }

    /// Pending ports are below the bitmap's size.
    pub proof fn lemma_pending_bounded(&self, port: int)
        requires
            self.pending(port),
        ensures
            0 <= port < MAX_PORTS,
    {
        if self.in_pass(port) {
            self.pending_ports_iter->0.lemma_remaining_bounded(port);
        }
    }

    /// At most one port is signaled, and the connector number names it.
    pub proof fn lemma_indicated_unique(&self, port: int)
        requires
            self.indicated(port),
        ensures
            self.spec_connector_change() == port + 1,
            1 <= self.spec_connector_change() <= MAX_PORTS,
    {
        self.lemma_pending_bounded(port);
    }

    /// A pass that has a port left signals one of them.
    pub proof fn lemma_first_exists(&self, port: int) -> (first: int)
        requires
            self.in_pass(port),
        ensures
            self.indicated(first),
            first <= port,
        decreases port,
    {
        self.lemma_pending_bounded(port);
        if exists|lower: int| lower < port && self.in_pass(lower) {
            let lower = choose|lower: int| lower < port && self.in_pass(lower);
            self.lemma_pending_bounded(lower);
            self.lemma_first_exists(lower)
        } else {
            port
        }
    }

    /// In a valid state the connector number is non-zero exactly when a port is pending.
    pub proof fn lemma_connector_change_iff_pending(&self)
        requires
            self.wf(),
        ensures
            self.spec_connector_change() != 0 <==> !self.nothing_pending(),
            0 <= self.spec_connector_change() <= MAX_PORTS,
    {
        if exists|port: int| self.indicated(port) {
            let port = choose|port: int| self.indicated(port);
            self.lemma_indicated_unique(port);
            assert(self.pending(port));
        } else {
            if !self.nothing_pending() {
                if self.active() {
                    let some = choose|p: int| self.in_pass(p);
                    let first = self.lemma_first_exists(some);
                    assert(false);
                } else {
                    assert(false);
                }
            }
        }
    }

    /// Create the state of a service that has just started: no notification
    /// enabled, nothing pending
    pub fn new() -> (state: Self)
        ensures
            state.wf(),
            state.spec_notifications_enabled() == NotificationEnable::spec_default(),
            state.nothing_pending(),
            !state.active(),
    {
        State {
            notifications_enabled: NotificationEnable::new(),
            pending_ports: PortPending::none(),
            pending_ports_iter: None,
        }
    }

    /// Currently enabled notifications
    pub fn notifications_enabled(&self) -> (enabled: NotificationEnable)
        ensures
            enabled == self.spec_notifications_enabled(),
    {
        self.notifications_enabled
    }

    /// Whether `port` has an unacknowledged connector change
    pub fn is_pending(&self, port: usize) -> (pending: bool)
        ensures
            pending == self.pending(port as int),
    {
        let in_pass = match self.pending_ports_iter {
            Some(iter) => iter.is_remaining(port),
            None => false,
        };
        in_pass || self.pending_ports.is_pending(port)
    }

    /// The port currently signaled to the host, if any
    pub fn current_port(&self) -> (current: Option<usize>)
        ensures
            match current {
                Some(port) => self.indicated(port as int),
                None => forall|port: int| !self.in_pass(port),
            },
    {
        match self.pending_ports_iter {
            Some(iter) => iter.peek(),
            None => None,
        }
    }

    /// PPM reset implementation: no notification stays enabled
    pub fn process_ppm_reset(&mut self)
        ensures
            final(self).spec_notifications_enabled() == NotificationEnable::spec_default(),
            final(self).same_queue(*old(self)),
            old(self).wf() ==> final(self).wf(),
    {
        self.notifications_enabled = NotificationEnable::new();
        proof {
            self.lemma_same_queue(*old(self));
        }
    }

    /// Set notification enable implementation
    pub fn process_set_notification_enable(&mut self, enable: NotificationEnable)
        ensures
            final(self).spec_notifications_enabled() == enable,
            final(self).same_queue(*old(self)),
            old(self).wf() ==> final(self).wf(),
    {
        self.notifications_enabled = enable;
        proof {
            self.lemma_same_queue(*old(self));
        }
    }

    /// The two states hold the same pass and the same waiting ports.
    pub open spec fn same_queue(&self, other: Self) -> bool {
        &&& self.active() == other.active()
        &&& forall|port: int| #[trigger] self.in_pass(port) == other.in_pass(port)
        &&& forall|port: int| #[trigger] self.queued(port) == other.queued(port)
    }

    /// States with the same queue are valid together and carry the same connector number.
    pub proof fn lemma_same_queue(&self, other: Self)
        requires
            self.same_queue(other),
        ensures
            self.wf() == other.wf(),
            self.spec_connector_change() == other.spec_connector_change(),
            forall|port: int| #[trigger] self.indicated(port) == other.indicated(port),
            forall|port: int| #[trigger] self.pending(port) == other.pending(port),
    {
        self.lemma_same_pass(other);
        if self.active() {
            if exists|port: int| other.in_pass(port) {
                let port = choose|port: int| other.in_pass(port);
                assert(self.in_pass(port));
            }
        } else {
            if forall|port: int| !self.queued(port) {
                assert forall|port: int| !other.queued(port) by {
                    assert(!self.queued(port));
                }
            }
        }
    }

    /// Update the CCI connector change field based on the current pending port
    pub fn set_cci_connector_change(&self, cci: &mut Cci)
        ensures
            *final(cci) == (Cci {
                connector_change: self.spec_connector_change() as u8,
                ..*old(cci)
            }),
            0 <= self.spec_connector_change() <= MAX_PORTS,
            self.wf() ==> (final(cci).connector_change != 0 <==> !self.nothing_pending()),
    {
        proof {
            if self.wf() {
                self.lemma_connector_change_iff_pending();
            }
        }
        match self.current_port() {
            Some(current_port) => {
                // UCSI connector numbers are 1-based
                cci.connector_change = (current_port + 1) as u8;
            },
            None => {
                cci.connector_change = 0;
            },
        }
    }

    /// `self` is `before` after a new pass was started: the waiting ports
    /// became the pass, and nothing waits any more.
    pub open spec fn started_from(&self, before: Self) -> bool {
        &&& self.spec_notifications_enabled() == before.spec_notifications_enabled()
        &&& self.active()
        &&& forall|port: int| #[trigger] self.in_pass(port) == before.queued(port)
        &&& forall|port: int| !self.queued(port)
    }

    /// `self` is `before` after the host acknowledged the signaled port `current`.
    ///
    /// The port leaves both the pass and the waiting ports. If the pass has
    /// ports left it goes on; if not and ports wait, they become a new pass;
    /// otherwise the round robin ends.
    pub open spec fn acked_from(&self, before: Self, current: int) -> bool {
        &&& self.spec_notifications_enabled() == before.spec_notifications_enabled()
        &&& if exists|port: int| before.in_pass(port) && port != current {
            &&& self.active()
            &&& forall|port: int| #[trigger]
                self.in_pass(port) == (before.in_pass(port) && port != current)
            &&& forall|port: int| #[trigger]
                self.queued(port) == (before.queued(port) && port != current)
        } else if exists|port: int| before.queued(port) && port != current {
            &&& self.active()
            &&& forall|port: int| #[trigger]
                self.in_pass(port) == (before.queued(port) && port != current)
            &&& forall|port: int| !self.queued(port)
        } else {
            &&& !self.active()
            &&& forall|port: int| !self.pending(port)
        }
    }

    /// Whether a status change is to be queued for the host: some category of
    /// it is enabled.
    pub open spec fn wants(&self, event: PortStatusChanged) -> bool {
        !connector_status_change_of(event).spec_filter_enabled(
            self.spec_notifications_enabled(),
        ).spec_is_none()
    }

    /// `self` is `before` after a status change of `port` was processed.
    ///
    /// The port waits if the host wants the change. If no pass was running
    /// and a port waits now, a pass starts.
    pub open spec fn queued_from(&self, before: Self, port: int, event: PortStatusChanged) -> bool {
        &&& self.spec_notifications_enabled() == before.spec_notifications_enabled()
        &&& if !before.active() && (before.wants(event) || exists|other: int| before.queued(other)) {
            &&& self.active()
            &&& forall|other: int| #[trigger]
                self.in_pass(other) == (before.queued(other) || (before.wants(event) && other
                    == port))
            &&& forall|other: int| !self.queued(other)
        } else {
            &&& self.active() == before.active()
            &&& forall|other: int| #[trigger] self.in_pass(other) == before.in_pass(other)
            &&& forall|other: int| #[trigger]
                self.queued(other) == (before.queued(other) || (before.wants(event) && other
                    == port))
        }
    }

    /// Start a new round robin over pending ports
    ///
    /// Returns the message to broadcast: the first port of the pass, with
    /// `notify_opm` as given. Without a waiting port there is no message.
    fn start_connector_changed_notify(&mut self, notify_opm: bool) -> (message: Option<
        UcsiCiMessage,
    >)
        ensures
            final(self).started_from(*old(self)),
            match message {
                Some(m) => final(self).indicated(m.port.0 as int) && m.notify_opm == notify_opm,
                None => forall|port: int| !old(self).queued(port),
            },
    {
        let pending = self.pending_ports;
        self.pending_ports = PortPending::none();
        let iter = pending.into_iter();
        self.pending_ports_iter = Some(iter);
        match iter.peek() {
            Some(port_id) => {
                let message = UcsiCiMessage { port: GlobalPortId(port_id as u8), notify_opm };
                Some(message)
            },
            None => {
                assert forall|port: int| !old(self).queued(port) by {
                    assert(!iter.remaining(port));
                }
                None
            },
        }
    }

    /// Acknowledge the current connector change and move to the next if present
    ///
    /// Returns the message to broadcast when another port is signaled. The
    /// host learns of it through the indicator, so the message never asks
    /// for a separate notification. An acknowledgement without a signaled
    /// port ends the round robin and is no error.
    pub fn ack_connector_change(&mut self, cci: &mut Cci) -> (message: Option<UcsiCiMessage>)
        ensures
            forall|current: int|
                old(self).indicated(current) ==> final(self).acked_from(*old(self), current),
            (forall|current: int| !old(self).indicated(current)) ==> {
                &&& !final(self).active()
                &&& final(self).spec_notifications_enabled() == old(self).spec_notifications_enabled()
                &&& forall|port: int| #[trigger] final(self).queued(port) == old(self).queued(port)
            },
            match message {
                Some(m) => final(self).indicated(m.port.0 as int) && !m.notify_opm,
                None => !final(self).active(),
            },
            old(self).wf() ==> final(self).wf(),
            *final(cci) == (Cci {
                connector_change: final(self).spec_connector_change() as u8,
                ..*old(cci)
            }),
            0 <= final(self).spec_connector_change() <= MAX_PORTS,
            old(self).wf() ==> (final(cci).connector_change != 0 <==> !final(self).nothing_pending()),
    {
        let mut message: Option<UcsiCiMessage> = None;
        let ghost before = *self;
        let current = match self.pending_ports_iter {
            Some(iter) => {
                let mut cursor = iter;
                let current = cursor.next();
                if current.is_some() {
                    self.pending_ports_iter = Some(cursor);
                }
                current
            },
            None => None,
        };
        match current {
            Some(current_port) => {
                proof {
                    before.lemma_indicated_unique(current_port as int);
                }
                self.pending_ports.clear_port(current_port);
                let next = match self.pending_ports_iter {
                    Some(iter) => iter.peek(),
                    None => None,
                };
                match next {
                    Some(next_port) => {
                        // More pending ports
                        proof {
                            self.lemma_pending_bounded(next_port as int);
                            assert(before.in_pass(next_port as int) && next_port != current_port);
                        }
                        message =
                        Some(
                            UcsiCiMessage { port: GlobalPortId(next_port as u8), notify_opm: false },
                        );
                    },
                    None => {
                        assert forall|port: int|
                            !(#[trigger] before.in_pass(port) && port != current_port) by {
                            assert(!self.in_pass(port));
                        }
                        if !self.pending_ports.is_none() {
                            // More pending ports, restart the round robin
                            proof {
                                let port = choose|port: int| self.pending_ports.contains(port);
                                assert(before.queued(port) && port != current_port);
                            }
                            message = self.start_connector_changed_notify(false);
                            proof {
                                let port = choose|port: int|
                                    before.queued(port) && port != current_port;
                                assert(self.in_pass(port));
                            }
                        } else {
                            // No more pending ports, end the round robin
                            self.pending_ports_iter = None;
                            assert forall|port: int|
                                !(#[trigger] before.queued(port) && port != current_port) by {
                                assert(!self.pending_ports.contains(port));
                            }
                        }
                    },
                }
                assert forall|c: int| before.indicated(c) implies self.acked_from(before, c) by {
                    before.lemma_indicated_unique(c);
                }
            },
            None => {
                // An acknowledgement with no pending connector change: end the round robin
                self.pending_ports_iter = None;
                assert forall|c: int| !before.indicated(c) by {}
            },
        }
        self.set_cci_connector_change(cci);
        message
    }

    /// Queue the connector change that a port status change stands for
    ///
    /// The port is marked pending if the host has enabled some category of
    /// the change. If no pass is running and a port is pending, a pass
    /// starts: the message to broadcast names its first port and asks for a
    /// notification of the host if connect changes are enabled. While a pass
    /// runs there is no message: later ports surface when the current one
    /// is acknowledged.
    pub fn process_ucsi_event(&mut self, port_id: GlobalPortId, port_event: PortStatusChanged) -> (message:
        Option<UcsiCiMessage>)
        requires
            port_id.0 < MAX_PORTS,
        ensures
            final(self).queued_from(*old(self), port_id.0 as int, port_event),
            match message {
                Some(m) => !old(self).active() && final(self).indicated(m.port.0 as int)
                    && m.notify_opm == old(self).spec_notifications_enabled().connect_change,
                None => final(self).active() == old(self).active(),
            },
            old(self).wf() ==> final(self).wf(),
    {
        let ghost before = *self;
        let ucsi_event = connector_status_change(port_event);
        if !ucsi_event.filter_enabled(self.notifications_enabled).is_none() {
            self.pending_ports.pend_port(port_id.0 as usize);
        }
        let mut message: Option<UcsiCiMessage> = None;
        if self.pending_ports_iter.is_none() && !self.pending_ports.is_none() {
            // Start a new round robin pass and broadcast the initial event
            // Subsequent events will be broadcast when ACK_CC_CI is processed
            let ghost queued = *self;
            let notify_opm = self.notifications_enabled.connect_change();
            message = self.start_connector_changed_notify(notify_opm);
            proof {
                let port = choose|port: int| queued.pending_ports.contains(port);
                assert(self.in_pass(port));
            }
        } else {
            proof {
                if !before.active() {
                    assert(!before.wants(port_event)) by {
                        if before.wants(port_event) {
                            assert(self.pending_ports.contains(port_id.0 as int));
                        }
                    }
                }
            }
        }
        proof {
            if before.wf() {
                if self.active() {
                    if before.active() {
                        let port = choose|port: int| before.in_pass(port);
                        assert(self.in_pass(port));
                    }
                }
            }
        }
        message
    }

    /// Upper bound on the acknowledgements that the host gives before `port`
    /// is signaled: zero for the signaled port, the distance to it for a port
    /// of the running pass, and for a waiting port the rest of the pass and
    /// its place in the next.
    pub open spec fn turns_until(&self, port: int) -> int {
        let first = self.spec_connector_change() - 1;
        if self.in_pass(port) {
            port - first
        } else {
            (MAX_PORTS - first) + port + 1
        }
    }

    /// Round robin: acknowledging the signaled port signals the next port of
    /// the pass or, when the pass is over while ports wait, restarts with
    /// those. No pending port is skipped: every other pending port stays
    /// pending and comes strictly closer to its turn, which it has when the
    /// bound reaches zero. The port signaled next was pending before.
    pub proof fn lemma_ack_round_robin(before: Self, after: Self, current: int, port: int)
        requires
            before.wf(),
            before.indicated(current),
            after.acked_from(before, current),
            before.pending(port),
            port != current,
        ensures
            after.wf(),
            !after.pending(current),
            after.pending(port),
            0 <= after.turns_until(port) < before.turns_until(port),
            after.turns_until(port) == 0 <==> after.indicated(port),
            forall|next: int| after.indicated(next) ==> before.pending(next) && next != current,
    {
        before.lemma_indicated_unique(current);
        before.lemma_pending_bounded(port);
        if exists|p: int| before.in_pass(p) && p != current {
            let other = choose|p: int| before.in_pass(p) && p != current;
            let first = after.lemma_first_exists(other);
            after.lemma_indicated_unique(first);
        } else if exists|p: int| before.queued(p) && p != current {
            let other = choose|p: int| before.queued(p) && p != current;
            let first = after.lemma_first_exists(other);
            after.lemma_indicated_unique(first);
        } else {
            assert(false);
        }
    }

    /// A status change never delays a port that was pending already: it stays
    /// pending, with the same bound on its turn while a pass is running.
    pub proof fn lemma_event_keeps_pending(
        before: Self,
        after: Self,
        port: int,
        event: PortStatusChanged,
        other: int,
    )
        requires
            before.wf(),
            after.queued_from(before, port, event),
            before.pending(other),
        ensures
            after.pending(other),
            after.turns_until(other) == before.turns_until(other),
    {
        after.lemma_same_pass(before);
    }

    /// The two states run the same pass.
    pub open spec fn same_pass(&self, other: Self) -> bool {
        &&& self.active() == other.active()
        &&& forall|port: int| #[trigger] self.in_pass(port) == other.in_pass(port)
    }

    /// States that run the same pass signal the same port.
    pub proof fn lemma_same_pass(&self, other: Self)
        requires
            self.same_pass(other),
        ensures
            self.spec_connector_change() == other.spec_connector_change(),
            forall|port: int| #[trigger] self.indicated(port) == other.indicated(port),
    {
        assert forall|port: int| #[trigger] self.indicated(port) == other.indicated(port) by {
            if self.indicated(port) {
                assert forall|o: int| #[trigger] other.in_pass(o) implies port <= o by {
                    assert(self.in_pass(o));
                }
            }
        }
        if exists|port: int| self.indicated(port) {
            let port = choose|port: int| self.indicated(port);
            self.lemma_indicated_unique(port);
            other.lemma_indicated_unique(port);
        } else if exists|port: int| other.indicated(port) {
            let port = choose|port: int| other.indicated(port);
            assert(self.indicated(port));
        }
    }

    /// PPM get capabilities implementation: the configured descriptor with
    /// the number of connectors taken from the registered ports
    pub fn process_get_capabilities(config: &Config, num_ports: usize) -> (data: PpmResponseData)
        ensures
            Some(data) == ppm_response(*config, PpmCommand::GetCapability, num_ports),
    {
        let mut capabilities = config.ucsi_capabilities;
        capabilities.num_connectors = (num_ports % 256) as u8;
        PpmResponseData::GetCapability(capabilities)
    }

    /// Execute a command of the policy manager itself
    ///
    /// A reset clears the notification mask, `SetNotificationEnable` stores
    /// it, `GetCapability` returns the descriptor. The other commands change
    /// nothing and return no data. None of them fails.
    pub fn process_ppm_command(&mut self, config: &Config, command: &PpmCommand, num_ports: usize) -> (r:
        Result<Option<PpmResponseData>, PdError>)
        ensures
            r == Ok::<Option<PpmResponseData>, PdError>(ppm_response(*config, *command, num_ports)),
            final(self).spec_notifications_enabled() == ppm_notifications(
                old(self).spec_notifications_enabled(),
                *command,
            ),
            final(self).same_queue(*old(self)),
            old(self).wf() ==> final(self).wf(),
    {
        match command {
            PpmCommand::PpmReset => {
                self.process_ppm_reset();
                Ok(None)
            },
            PpmCommand::SetNotificationEnable(enable) => {
                self.process_set_notification_enable(*enable);
                Ok(None)
            },
            PpmCommand::GetCapability => Ok(Some(Self::process_get_capabilities(config, num_ports))),
            _ => Ok(None),  // Other commands are currently no-ops
        }
    }

    /// The response when the host is told that its command has completed.
    ///
    /// The completion and error flags are set whatever the notification
    /// mask says; the mask only decides whether the host is notified.
    pub open spec fn command_complete_response(&self, response: UcsiResponse) -> UcsiResponse {
        UcsiResponse {
            notify_opm: self.spec_notifications_enabled().cmd_complete,
            cci: Cci {
                cmd_complete: true,
                error: response.data is Err,
                connector_change: self.spec_connector_change() as u8,
                ..response.cci
            },
            data: response.data,
        }
    }

    /// The response when the host is told that the policy manager is busy.
    pub open spec fn busy_response(&self, response: UcsiResponse) -> UcsiResponse {
        UcsiResponse {
            notify_opm: !self.spec_notifications_enabled().spec_is_empty(),
            cci: Cci {
                busy: true,
                connector_change: self.spec_connector_change() as u8,
                ..response.cci
            },
            data: response.data,
        }
    }

    /// The response to a completed reset: the host polls for it and is not notified.
    pub open spec fn reset_response(&self, response: UcsiResponse) -> UcsiResponse {
        UcsiResponse {
            notify_opm: false,
            cci: Cci {
                reset_complete: true,
                connector_change: self.spec_connector_change() as u8,
                ..Cci::spec_default()
            },
            data: response.data,
        }
    }

    /// The response when the state machine had nothing to say.
    pub open spec fn idle_response(&self) -> UcsiResponse {
        UcsiResponse {
            notify_opm: false,
            cci: Cci {
                connector_change: self.spec_connector_change() as u8,
                ..Cci::spec_default()
            },
            data: Ok(None),
        }
    }

    /// The response to an accepted acknowledgement, `self` being the state after it.
    pub open spec fn ack_response(&self, response: UcsiResponse, ack: Ack) -> UcsiResponse {
        UcsiResponse {
            notify_opm: self.spec_notifications_enabled().cmd_complete,
            cci: Cci {
                ack_command: response.cci.ack_command || ack.command_complete,
                connector_change: if ack.connector_change {
                    self.spec_connector_change() as u8
                } else {
                    response.cci.connector_change
                },
                ..response.cci
            },
            data: response.data,
        }
    }

    /// Whether the response to an output of the state machine carries the
    /// connector number: every output does but an invalid transition, whose
    /// error response names no connector, and an acknowledgement that does
    /// not acknowledge a connector change, which leaves the number alone.
    pub open spec fn reports_connector_change(output: PpmResult) -> bool {
        match output {
            Err(_) => false,
            Ok(Some(PpmOutput::AckComplete(ack))) => ack.connector_change,
            Ok(_) => true,
        }
    }

    /// The connector number in the indicator of a finished command is
    /// non-zero if and only if a connector change is pending after the
    /// command, for every output whose response carries the number.
    pub proof fn lemma_connector_change_iff_pending_after_command(
        before: Self,
        after: Self,
        config: Config,
        num_ports: usize,
        output: PpmResult,
        start: UcsiResponse,
        response: UcsiResponse,
        step: UcsiStep,
    )
        requires
            before.wf(),
            Self::command_processed(
                before,
                after,
                config,
                num_ports,
                output,
                start,
                response,
                step,
            ),
            step is Respond,
            Self::reports_connector_change(output),
        ensures
            after.wf(),
            response.cci.connector_change != 0 <==> !after.nothing_pending(),
    {
    }

    /// What processing one output of the state machine does: `after` and
    /// `response` are the state and the response that `before` and `start`
    /// become, and `step` is what happens next.
    pub open spec fn command_processed(
        before: Self,
        after: Self,
        config: Config,
        num_ports: usize,
        output: PpmResult,
        start: UcsiResponse,
        response: UcsiResponse,
        step: UcsiStep,
    ) -> bool {
        &&& (before.wf() ==> after.wf())
        &&& match output {
            Err(_) => {
                &&& after == before
                &&& response == UcsiResponse::spec_error(PdError::Failed)
                &&& step == UcsiStep::Respond(None)
            },
            Ok(None) => {
                &&& after == before
                &&& response == before.idle_response()
                &&& step == UcsiStep::Respond(None)
            },
            Ok(Some(PpmOutput::ExecuteCommand(GlobalCommand::PpmCommand(command)))) => {
                &&& after.spec_notifications_enabled() == ppm_notifications(
                    before.spec_notifications_enabled(),
                    command,
                )
                &&& after.same_queue(before)
                &&& response == (UcsiResponse {
                    data: match ppm_response(config, command, num_ports) {
                        Some(data) => Ok(Some(ResponseData::Ppm(data))),
                        None => Ok(None),
                    },
                    ..start
                })
                &&& step == UcsiStep::Consume(PpmInput::CommandComplete)
            },
            Ok(Some(PpmOutput::ExecuteCommand(GlobalCommand::LpmCommand(command)))) => {
                &&& after == before
                &&& match lpm_decision(config, command) {
                    LpmDecision::Respond(data) => {
                        &&& response == (UcsiResponse {
                            data: Ok(Some(ResponseData::Lpm(data))),
                            ..start
                        })
                        &&& step == UcsiStep::Consume(PpmInput::CommandComplete)
                    },
                    LpmDecision::Delegate(command) => {
                        &&& response == start
                        &&& step == UcsiStep::ExecuteLpm(command)
                    },
                }
            },
            Ok(Some(PpmOutput::OpmNotifyCommandComplete)) => {
                &&& after == before
                &&& response == before.command_complete_response(start)
                &&& step == UcsiStep::Respond(None)
            },
            Ok(Some(PpmOutput::AckComplete(ack))) => {
                &&& if ack.connector_change {
                    &&& forall|current: int|
                        before.indicated(current) ==> after.acked_from(
                            before,
                            current,
                        )
                    &&& (forall|current: int| !before.indicated(current)) ==> {
                        &&& !after.active()
                        &&& after.spec_notifications_enabled() == before.spec_notifications_enabled()
                        &&& forall|port: int| #[trigger]
                            after.queued(port) == before.queued(port)
                    }
                    &&& match step {
                        UcsiStep::Respond(Some(m)) => after.indicated(m.port.0 as int)
                            && !m.notify_opm,
                        UcsiStep::Respond(None) => !after.active(),
                        _ => false,
                    }
                } else {
                    &&& after == before
                    &&& step == UcsiStep::Respond(None)
                }
                &&& response == after.ack_response(start, ack)
            },
            Ok(Some(PpmOutput::ResetComplete)) => {
                &&& after.spec_notifications_enabled()
                    == NotificationEnable::spec_default()
                &&& after.same_queue(before)
                &&& response == after.reset_response(start)
                &&& step == UcsiStep::Respond(None)
            },
            Ok(Some(PpmOutput::OpmNotifyBusy)) => {
                &&& after == before
                &&& response == before.busy_response(start)
                &&& step == UcsiStep::Respond(None)
            },
        }
        &&& before.wf() && step is Respond && Self::reports_connector_change(output) ==> (
        response.cci.connector_change != 0 <==> !after.nothing_pending())
    }

    /// Process one output of the policy manager's state machine for the UCSI
    /// command in execution
    ///
    /// A command starts with `UcsiStep::Consume(PpmInput::Command(..))` and a
    /// response from `UcsiResponse::new`. Each output of the state machine
    /// goes through this function, which says what happens next:
    /// - an invalid transition ends the command with an error response and
    ///   changes nothing;
    /// - `ExecuteCommand` runs the command, or asks for a port command to be
    ///   sent to its controller, and then has the state machine told that
    ///   execution is complete;
    /// - every other output, and no output, finishes the response.
    pub fn process_ucsi_command(
        &mut self,
        config: &Config,
        num_ports: usize,
        output: PpmResult,
        response: &mut UcsiResponse,
    ) -> (step: UcsiStep)
        ensures
            old(self).wf() ==> final(self).wf(),
            Self::command_processed(
                *old(self),
                *final(self),
                *config,
                num_ports,
                output,
                *old(response),
                *final(response),
                step,
            ),
    {
        let output = match output {
            Ok(output) => output,
            Err(_) => {
                *response = UcsiResponse::new_error(PdError::Failed);
                return UcsiStep::Respond(None);
            },
        };
        match output {
            Some(ppm_output) => match ppm_output {
                PpmOutput::ExecuteCommand(command) => {
                    // Queue up the next input to complete the command execution flow
                    match command {
                        GlobalCommand::PpmCommand(ppm_command) => {
                            let data = self.process_ppm_command(config, &ppm_command, num_ports);
                            response.data =
                            match data {
                                Ok(Some(inner)) => Ok(Some(ResponseData::Ppm(inner))),
                                Ok(None) => Ok(None),
                                Err(e) => Err(e),
                            };
                            UcsiStep::Consume(PpmInput::CommandComplete)
                        },
                        GlobalCommand::LpmCommand(lpm_command) => {
                            match process_lpm_command(config, &lpm_command) {
                                LpmDecision::Respond(data) => {
                                    response.data = Ok(Some(ResponseData::Lpm(data)));
                                    UcsiStep::Consume(PpmInput::CommandComplete)
                                },
                                LpmDecision::Delegate(command) => UcsiStep::ExecuteLpm(command),
                            }
                        },
                    }
                    // Don't finish yet, the state machine has to learn that the command is complete

                },
                PpmOutput::OpmNotifyCommandComplete => {
                    response.notify_opm = self.notifications_enabled.cmd_complete();
                    response.cci.cmd_complete = true;
                    response.cci.error = response.data.is_err();
                    let mut cci = response.cci;
                    self.set_cci_connector_change(&mut cci);
                    response.cci = cci;
                    UcsiStep::Respond(None)
                },
                PpmOutput::AckComplete(ack) => {
                    response.notify_opm = self.notifications_enabled.cmd_complete();
                    if ack.command_complete {
                        response.cci.ack_command = true;
                    }
                    let mut message: Option<UcsiCiMessage> = None;
                    if ack.connector_change {
                        let mut cci = response.cci;
                        message = self.ack_connector_change(&mut cci);
                        response.cci = cci;
                    }
                    UcsiStep::Respond(message)
                },
                PpmOutput::ResetComplete => {
                    // Resets don't follow the normal command execution flow
                    // So do any reset processing here
                    self.process_ppm_reset();
                    // Don't notify OPM because it'll poll
                    response.notify_opm = false;
                    let mut cci = Cci::new_reset_complete();
                    self.set_cci_connector_change(&mut cci);
                    response.cci = cci;
                    UcsiStep::Respond(None)
                },
                PpmOutput::OpmNotifyBusy => {
                    // Notify if notifications are enabled in general
                    response.notify_opm = !self.notifications_enabled.is_empty();
                    response.cci.busy = true;
                    let mut cci = response.cci;
                    self.set_cci_connector_change(&mut cci);
                    response.cci = cci;
                    UcsiStep::Respond(None)
                },
            },
            None => {
                // No output from PPM state machine, nothing specific to send back
                response.notify_opm = false;
                let mut cci = Cci::new();
                self.set_cci_connector_change(&mut cci);
                response.cci = cci;
                response.data = Ok(None);
                UcsiStep::Respond(None)
            },
        }
    }
}

} // verus!
