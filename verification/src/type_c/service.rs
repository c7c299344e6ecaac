//! The Type-C service: the aggregation point across controllers, owner of the
//! port status cache and of the UCSI front end.

use crate::power::policy::{CommsData, UnconstrainedState, WaitResult};
use crate::type_c::comms::{DebugAccessoryMessage, UcsiCiMessage};
use crate::type_c::controller::{
    ControllerStatus, InternalCommandData, PortCommand, PortCommandData, PortResponseData,
    PortStatus,
};
use crate::type_c::event::{
    PortEventKind, PortNotification, PortPending, PortPendingIter, PortStatusChanged,
};
use crate::type_c::external;
use crate::type_c::ucsi::{PpmInput, PpmResult};
use crate::type_c::{Cached, ControllerId, GlobalPortId, PdError, MAX_PORTS};
use vstd::prelude::*;

pub mod config;
pub mod ucsi;

verus! {

/// Number of ports that the service keeps a status for.
pub const MAX_SUPPORTED_PORTS: usize = 4;

/// A port event as the service hands it out: a status change, which comes
/// with a fresh port status, or a notification, which leaves the status alone.
#[derive(Copy, Clone, Debug, PartialEq, Eq, Structural)]
pub enum PortEventVariant {
    /// The port status changed
    StatusChanged(PortStatusChanged),
    /// The controller notified of something that happened
    Notification(PortNotification),
}

/// What the stream of port events needs or gives next.
#[derive(Copy, Clone, Debug, PartialEq, Eq, Structural)]
pub enum StreamStep {
    /// Get the accumulated event of this port and hand it to `fetched`
    Fetch(GlobalPortId),
    /// An event of this port
    Yield(GlobalPortId, PortEventVariant),
    /// No port is pending any more
    Finished,
}

/// Round-robin stream over the events of the pending ports.
///
/// Ports are visited in ascending order. A port whose event holds both status
/// changes and notifications gives the status change first and the
/// notification at the next step.
#[derive(Copy, Clone, Debug, PartialEq, Eq)]
pub struct PortEventStreamer {
    iter: PortPendingIter,
    notification: Option<(GlobalPortId, PortNotification)>,
}

impl PortEventStreamer {
    /// Whether `port` has yet to be visited.
    pub closed spec fn remaining(&self, port: int) -> bool {
        self.iter.remaining(port)
    }

    /// The notification held back for the next step.
    pub closed spec fn held(&self) -> Option<(GlobalPortId, PortNotification)> {
        self.notification
    }

    /// `port` is the lowest port that has yet to be visited.
    pub open spec fn is_first(&self, port: int) -> bool {
        self.remaining(port) && forall|other: int| #[trigger]
            self.remaining(other) ==> port <= other
    }

    /// Create a stream over the given ports
    pub fn new(iter: PortPendingIter) -> (stream: Self)
        ensures
            stream.held() is None,
            forall|port: int| #[trigger] stream.remaining(port) == iter.remaining(port),
    {
        PortEventStreamer { iter, notification: None }
    }

    /// Advance the stream
    ///
    /// A notification that was held back comes first. Otherwise the lowest
    /// port left is to be fetched; when none is left the stream is finished.
    pub fn next(&mut self) -> (step: StreamStep)
        ensures
            final(self).held() is None,
            match old(self).held() {
                Some((port, notification)) => {
                    &&& step == StreamStep::Yield(port, PortEventVariant::Notification(notification))
                    &&& forall|other: int| #[trigger]
                        final(self).remaining(other) == old(self).remaining(other)
                },
                None => match step {
                    StreamStep::Fetch(port) => {
                        &&& port.0 < MAX_PORTS
                        &&& old(self).is_first(port.0 as int)
                        &&& forall|other: int| #[trigger]
                            final(self).remaining(other) == (old(self).remaining(other) && other
                                != port.0)
                    },
                    StreamStep::Finished => {
                        &&& forall|other: int| !old(self).remaining(other)
                        &&& forall|other: int| !final(self).remaining(other)
                    },
                    StreamStep::Yield(_, _) => false,
                },
            },
    {
        match self.notification {
            Some((port, notification)) => {
                self.notification = None;
                StreamStep::Yield(port, PortEventVariant::Notification(notification))
            },
            None => {
                let mut iter = self.iter;
                let first = iter.next();
                self.iter = iter;
                match first {
                    Some(port) => {
                        proof {
                            old(self).iter.lemma_remaining_bounded(port as int);
                        }
                        StreamStep::Fetch(GlobalPortId(port as u8))
                    },
                    None => {
                        StreamStep::Finished
                    },
                }
            },
        }
    }

    /// Classify the accumulated event of a port that was fetched
    ///
    /// Status changes come first; notifications of the same event are held
    /// back for the next step. An event without any condition gives nothing.
    pub fn fetched(&mut self, port: GlobalPortId, event: PortEventKind) -> (variant: Option<
        PortEventVariant,
    >)
        ensures
            forall|other: int| #[trigger] final(self).remaining(other) == old(self).remaining(other),
            event.0 & crate::type_c::event::STATUS_MASK != 0 ==> {
                &&& variant == Some(
                    PortEventVariant::StatusChanged(
                        PortEventKind(event.0 & crate::type_c::event::STATUS_MASK),
                    ),
                )
                &&& final(self).held() == (if event.0 & crate::type_c::event::NOTIFICATION_MASK
                    != 0 {
                    Some((port, PortEventKind(event.0 & crate::type_c::event::NOTIFICATION_MASK)))
                } else {
                    old(self).held()
                })
            },
            event.0 & crate::type_c::event::STATUS_MASK == 0 ==> {
                &&& final(self).held() == old(self).held()
                &&& variant == (if event.0 & crate::type_c::event::NOTIFICATION_MASK != 0 {
                    Some(
                        PortEventVariant::Notification(
                            PortEventKind(event.0 & crate::type_c::event::NOTIFICATION_MASK),
                        ),
                    )
                } else {
                    None
                })
            },
    {
        let status = event.status_changed();
        let notification = event.notification();
        if !status.is_none() {
            if !notification.is_none() {
                self.notification = Some((port, notification));
            }
            Some(PortEventVariant::StatusChanged(status))
        } else if !notification.is_none() {
            Some(PortEventVariant::Notification(notification))
        } else {
            None
        }
    }
}

/// Power policy events
#[derive(Copy, Clone, Debug, PartialEq, Eq, Structural)]
pub enum PowerPolicyEvent {
    /// Unconstrained state changed
    Unconstrained(UnconstrainedState),
}

/// Type-C service events
#[derive(Copy, Clone, Debug, PartialEq, Eq, Structural)]
pub enum Event {
    /// Port event
    PortStatusChanged(GlobalPortId, PortStatusChanged, PortStatus),
    /// A controller notified of an event that occurred.
    PortNotification(GlobalPortId, PortNotification),
    /// External command
    ExternalCommand(external::Command),
    /// Power policy event
    PowerPolicy(PowerPolicyEvent),
}

/// Messages to broadcast after a port status change was processed.
#[derive(Copy, Clone, Debug, PartialEq, Eq, Structural)]
pub struct PortEventOutcome {
    /// A debug accessory was connected or disconnected
    pub debug_accessory: Option<DebugAccessoryMessage>,
    /// A connector change is signaled to the host
    pub ucsi: Option<UcsiCiMessage>,
}

/// What is to be done for a command from outside.
#[derive(Copy, Clone, Debug, PartialEq, Eq)]
pub enum ExternalAction {
    /// Send the response as it is
    Respond(external::Response),
    /// Send the command to the controller and answer with `external_controller_response`
    Controller(ControllerId, InternalCommandData),
    /// Send the command to the port's controller and answer with its result
    Port(PortCommand),
    /// Start the UCSI command by feeding the input to the policy manager's state machine
    Ucsi(PpmInput),
}

/// What is to be done after an event was processed.
#[derive(Clone, Debug, PartialEq, Eq)]
pub enum EventAction {
    /// Broadcast the messages
    Broadcast(PortEventOutcome),
    /// Nothing is to be done
    Nothing,
    /// Carry out the command and send the response on the request's own slot
    External(ExternalAction),
    /// Tell the ports, in ascending order from port zero, whether power is
    /// unconstrained, and stop at the first that fails
    SetUnconstrained(Vec<bool>),
}

/// The message that a change of port status calls for: a connectedness
/// transition where the old or the new status shows a debug accessory.
pub open spec fn debug_accessory_message(
    port: GlobalPortId,
    old_status: PortStatus,
    status: PortStatus,
) -> Option<DebugAccessoryMessage> {
    if status.connection_present != old_status.connection_present && (status.debug_connection
        || old_status.debug_connection) {
        Some(DebugAccessoryMessage { port, connected: status.connection_present })
    } else {
        None
    }
}

/// A port that draws from an unconstrained source: it has a sink contract
/// available and its partner offers unconstrained power.
pub open spec fn is_unconstrained_consumer(status: PortStatus) -> bool {
    status.available_sink_contract is Some && status.unconstrained_power
}

/// `index` is the first of the service's own ports, among the first
/// `num_ports`, that draws from an unconstrained source.
pub open spec fn is_unconstrained_port(cache: Seq<PortStatus>, num_ports: int, index: int) -> bool {
    &&& 0 <= index < num_ports
    &&& index < cache.len()
    &&& is_unconstrained_consumer(cache[index])
    &&& forall|other: int| 0 <= other < index ==> !is_unconstrained_consumer(#[trigger] cache[other])
}

/// Whether port `port` is told that power is unconstrained after a change of
/// the system's unconstrained state.
///
/// Without unconstrained power every port is constrained. With several
/// unconstrained sources every port is unconstrained. With one source that
/// is one of the service's own ports, that port is constrained, since it
/// could start sourcing itself, and all others are unconstrained. With one
/// source elsewhere every port is unconstrained.
pub open spec fn port_unconstrained(
    cache: Seq<PortStatus>,
    state: UnconstrainedState,
    num_ports: int,
    port: int,
) -> bool {
    state.unconstrained && (state.available > 1 || !is_unconstrained_port(cache, num_ports, port))
}

/// The cache after the status changes `events`, each a port and its fetched
/// status, were processed in order. A change of a port without an entry is refused.
pub open spec fn cache_after(cache: Seq<PortStatus>, events: Seq<(int, PortStatus)>) -> Seq<
    PortStatus,
>
    decreases events.len(),
{
    if events.len() == 0 {
        cache
    } else {
        let (port, status) = events.last();
        let before = cache_after(cache, events.drop_last());
        if 0 <= port < before.len() {
            before.update(port, status)
        } else {
            before
        }
    }
}

/// The status fetched last for `port` in `events`, if the port occurs.
pub open spec fn latest_status(events: Seq<(int, PortStatus)>, port: int) -> Option<PortStatus>
    decreases events.len(),
{
    if events.len() == 0 {
        None
    } else if events.last().0 == port {
        Some(events.last().1)
    } else {
        latest_status(events.drop_last(), port)
    }
}

/// For every sequence of status changes, the cached status of a port is the
/// status fetched last for it; a port without a change keeps its entry.
pub proof fn lemma_cache_holds_latest(
    cache: Seq<PortStatus>,
    events: Seq<(int, PortStatus)>,
    port: int,
)
    requires
        0 <= port < cache.len(),
    ensures
        cache_after(cache, events).len() == cache.len(),
        cache_after(cache, events)[port] == (match latest_status(events, port) {
            Some(status) => status,
            None => cache[port],
        }),
    decreases events.len(),
{
    if events.len() > 0 {
        lemma_cache_holds_latest(cache, events.drop_last(), port);
    }
}

/// The flags of `ports` after each of the first ports was told the flag that
/// `plan` holds for it.
pub open spec fn apply_unconstrained(ports: Seq<bool>, plan: Seq<bool>) -> Seq<bool> {
    Seq::new(
        ports.len(),
        |i: int|
            if i < plan.len() {
                plan[i]
            } else {
                ports[i]
            },
    )
}

/// The plan that tells each of `num_ports` ports the same flag.
pub open spec fn uniform_plan(num_ports: int, unconstrained: bool) -> Seq<bool> {
    Seq::new(num_ports as nat, |i: int| unconstrained)
}

/// Telling all ports the same flag twice in a row leaves them as telling it
/// once does: every port that the plan reaches holds the flag.
pub proof fn lemma_set_unconstrained_all_idempotent(
    ports: Seq<bool>,
    num_ports: int,
    unconstrained: bool,
)
    requires
        0 <= num_ports,
    ensures
        apply_unconstrained(
            apply_unconstrained(ports, uniform_plan(num_ports, unconstrained)),
            uniform_plan(num_ports, unconstrained),
        ) == apply_unconstrained(ports, uniform_plan(num_ports, unconstrained)),
        forall|i: int|
            0 <= i < ports.len() && i < num_ports ==> apply_unconstrained(
                apply_unconstrained(ports, uniform_plan(num_ports, unconstrained)),
                uniform_plan(num_ports, unconstrained),
            )[i] == unconstrained,
{
    let once = apply_unconstrained(ports, uniform_plan(num_ports, unconstrained));
    let twice = apply_unconstrained(once, uniform_plan(num_ports, unconstrained));
}

/// The event that a broadcast of the power policy comes to, if any.
///
/// Missed broadcasts are not made up for, and only a change of the
/// unconstrained state is an event for the service.
pub open spec fn power_policy_event(result: WaitResult) -> Option<Event> {
    match result {
        WaitResult::Message(CommsData::Unconstrained(state)) => Some(
            Event::PowerPolicy(PowerPolicyEvent::Unconstrained(state)),
        ),
        _ => None,
    }
}

/// Wait for a power policy event: take what the subscription gave
///
/// With `None` the wait goes on.
pub fn wait_power_policy_event(result: WaitResult) -> (event: Option<Event>)
    ensures
        event == power_policy_event(result),
{
    match result {
        WaitResult::Lagged(_lagged) => {
            // Missed some messages, nothing can be done about it
            None
        },
        WaitResult::Message(message) => match message {
            CommsData::Unconstrained(state) => Some(
                Event::PowerPolicy(PowerPolicyEvent::Unconstrained(state)),
            ),
            _ => {
                // No other events currently implemented
                None
            },
        },
    }
}

/// Process external controller status command: answer with what the controller said
pub fn process_external_controller_status(status: Result<ControllerStatus, PdError>) -> (response:
    external::Response)
    ensures
        response == external::Response::Controller(
            match status {
                Ok(status) => Ok(external::ControllerResponseData::ControllerStatus(status)),
                Err(e) => Err(e),
            },
        ),
{
    external::Response::Controller(
        match status {
            Ok(status) => Ok(external::ControllerResponseData::ControllerStatus(status)),
            Err(e) => Err(e),
        },
    )
}

/// Process external controller sync state command: answer with what the controller said
pub fn process_external_controller_sync_state(status: Result<(), PdError>) -> (response:
    external::Response)
    ensures
        response == external::Response::Controller(
            match status {
                Ok(_) => Ok(external::ControllerResponseData::Complete),
                Err(e) => Err(e),
            },
        ),
{
    external::Response::Controller(
        match status {
            Ok(_) => Ok(external::ControllerResponseData::Complete),
            Err(e) => Err(e),
        },
    )
}

/// Process external controller reset command: answer with what the controller said
pub fn process_external_controller_reset(status: Result<(), PdError>) -> (response:
    external::Response)
    ensures
        response == external::Response::Controller(
            match status {
                Ok(_) => Ok(external::ControllerResponseData::Complete),
                Err(e) => Err(e),
            },
        ),
{
    external::Response::Controller(
        match status {
            Ok(_) => Ok(external::ControllerResponseData::Complete),
            Err(e) => Err(e),
        },
    )
}

/// Type-C service
#[derive(Clone, Debug)]
pub struct Service {
    /// Config
    config: config::Config,
    /// Current port status
    port_status: Vec<PortStatus>,
    /// Cursor of the round robin over ports with pending events
    port_event_streaming_state: Option<PortEventStreamer>,
    /// UCSI state
    ucsi: ucsi::State,
}

impl Service {
    /// The cached status of each port.
    pub closed spec fn spec_port_status(&self) -> Seq<PortStatus> {
        self.port_status@
    }

    /// The UCSI state.
    pub closed spec fn spec_ucsi(&self) -> ucsi::State {
        self.ucsi
    }

    /// The configuration.
    pub closed spec fn spec_config(&self) -> config::Config {
        self.config
    }

    /// The stream of port events in progress, if any.
    pub closed spec fn spec_stream(&self) -> Option<PortEventStreamer> {
        self.port_event_streaming_state
    }

    /// The cache has an entry for every supported port and the UCSI state is valid.
    pub open spec fn wf(&self) -> bool {
        &&& self.spec_port_status().len() == MAX_SUPPORTED_PORTS
        &&& self.spec_ucsi().wf()
    }

    /// Create a new service with the given configuration
    pub fn create(config: config::Config) -> (service: Self)
        ensures
            service.wf(),
            service.spec_config() == config,
            service.spec_stream() is None,
            forall|port: int|
                0 <= port < MAX_SUPPORTED_PORTS ==> service.spec_port_status()[port]
                    == PortStatus::spec_default(),
            service.spec_ucsi().nothing_pending(),
            service.spec_ucsi().spec_notifications_enabled()
                == crate::type_c::ucsi::NotificationEnable::spec_default(),
    {
        let mut port_status: Vec<PortStatus> = Vec::new();
        let mut i: usize = 0;
        while i < MAX_SUPPORTED_PORTS
            invariant
                i <= MAX_SUPPORTED_PORTS,
                port_status@.len() == i,
                forall|port: int| 0 <= port < i ==> port_status@[port] == PortStatus::spec_default(),
            decreases MAX_SUPPORTED_PORTS - i,
        {
            port_status.push(PortStatus::new());
            i += 1;
        }
        Service {
            config,
            port_status,
            port_event_streaming_state: None,
            ucsi: ucsi::State::new(),
        }
    }

    /// The service's configuration
    pub fn config(&self) -> (config: config::Config)
        ensures
            config == self.spec_config(),
    {
        self.config
    }

    /// The UCSI state
    pub fn ucsi(&self) -> (state: ucsi::State)
        ensures
            state == self.spec_ucsi(),
    {
        self.ucsi
    }

    /// Get the cached port status
    pub fn get_cached_port_status(&self, port_id: GlobalPortId) -> (r: Result<PortStatus, PdError>)
        requires
            self.wf(),
        ensures
            r == (if port_id.0 < MAX_SUPPORTED_PORTS {
                Ok::<PortStatus, PdError>(self.spec_port_status()[port_id.0 as int])
            } else {
                Err::<PortStatus, PdError>(PdError::InvalidPort)
            }),
    {
        if port_id.0 as usize >= MAX_SUPPORTED_PORTS {
            return Err(PdError::InvalidPort);
        }
        Ok(self.port_status[port_id.0 as usize])
    }

    /// Set the cached port status
    pub fn set_cached_port_status(&mut self, port_id: GlobalPortId, status: PortStatus) -> (r:
        Result<(), PdError>)
        requires
            old(self).wf(),
        ensures
            final(self).wf(),
            final(self).spec_ucsi() == old(self).spec_ucsi(),
            final(self).spec_config() == old(self).spec_config(),
            final(self).spec_stream() == old(self).spec_stream(),
            port_id.0 < MAX_SUPPORTED_PORTS ==> r is Ok && final(self).spec_port_status() == old(self).spec_port_status().update(port_id.0 as int, status),
            port_id.0 >= MAX_SUPPORTED_PORTS ==> r == Err::<(), PdError>(PdError::InvalidPort)
                && final(self).spec_port_status() == old(self).spec_port_status(),
    {
        if port_id.0 as usize >= MAX_SUPPORTED_PORTS {
            return Err(PdError::InvalidPort);
        }
        self.port_status.set(port_id.0 as usize, status);
        Ok(())
    }

    /// Process events for a specific port
    ///
    /// The cache takes the fetched status, whatever it held. A debug
    /// accessory that was connected or disconnected is reported, and the
    /// status change is queued for the host as the UCSI state decides. A port
    /// beyond the supported ports is refused and nothing changes.
    pub fn process_port_event(
        &mut self,
        port_id: GlobalPortId,
        event: PortStatusChanged,
        status: PortStatus,
    ) -> (r: Result<PortEventOutcome, PdError>)
        requires
            old(self).wf(),
        ensures
            final(self).wf(),
            final(self).spec_config() == old(self).spec_config(),
            final(self).spec_stream() == old(self).spec_stream(),
            port_id.0 >= MAX_SUPPORTED_PORTS ==> r == Err::<PortEventOutcome, PdError>(
                PdError::InvalidPort,
            ) && final(self).spec_port_status() == old(self).spec_port_status() && final(self).spec_ucsi() == old(self).spec_ucsi(),
            port_id.0 < MAX_SUPPORTED_PORTS ==> {
                &&& r is Ok
                &&& final(self).spec_port_status() == old(self).spec_port_status().update(
                    port_id.0 as int,
                    status,
                )
                &&& final(self).spec_port_status()[port_id.0 as int] == status
                &&& r->Ok_0.debug_accessory == debug_accessory_message(
                    port_id,
                    old(self).spec_port_status()[port_id.0 as int],
                    status,
                )
                &&& final(self).spec_ucsi().queued_from(
                    old(self).spec_ucsi(),
                    port_id.0 as int,
                    event,
                )
                &&& match r->Ok_0.ucsi {
                    Some(m) => !old(self).spec_ucsi().active() && final(self).spec_ucsi().indicated(m.port.0 as int) && m.notify_opm == old(self).spec_ucsi().spec_notifications_enabled().connect_change,
                    None => final(self).spec_ucsi().active() == old(self).spec_ucsi().active(),
                }
            },
    {
        let old_status = match self.get_cached_port_status(port_id) {
            Ok(status) => status,
            Err(e) => {
                return Err(e);
            },
        };
        let connection_changed = status.is_connected() != old_status.is_connected();
        let debug_accessory = if connection_changed && (status.is_debug_accessory()
            || old_status.is_debug_accessory()) {
            // Notify that a debug connection has connected/disconnected
            Some(DebugAccessoryMessage { port: port_id, connected: status.is_connected() })
        } else {
            None
        };
        let _ = self.set_cached_port_status(port_id, status);
        let ucsi = self.ucsi.process_ucsi_event(port_id, event);
        Ok(PortEventOutcome { debug_accessory, ucsi })
    }

    /// Set the unconstrained state for all ports
    ///
    /// Returns the flag to tell each of the `num_ports` ports.
    pub fn set_unconstrained_all(unconstrained: bool, num_ports: usize) -> (plan: Vec<bool>)
        ensures
            plan@ == uniform_plan(num_ports as int, unconstrained),
    {
        let mut plan: Vec<bool> = Vec::new();
        let mut port_index: usize = 0;
        while port_index < num_ports
            invariant
                port_index <= num_ports,
                plan@.len() == port_index,
                forall|i: int| 0 <= i < port_index ==> plan@[i] == unconstrained,
            decreases num_ports - port_index,
        {
            plan.push(unconstrained);
            port_index += 1;
        }
        plan
    }

    /// Process an unconstrained state change
    ///
    /// Returns the flag to tell each of the `num_ports` registered ports.
    pub fn process_unconstrained_state_change(
        &self,
        unconstrained_state: &UnconstrainedState,
        num_ports: usize,
    ) -> (plan: Vec<bool>)
        requires
            self.wf(),
        ensures
            plan@.len() == num_ports,
            forall|port: int|
                0 <= port < num_ports ==> plan@[port] == port_unconstrained(
                    self.spec_port_status(),
                    *unconstrained_state,
                    num_ports as int,
                    port,
                ),
    {
        if unconstrained_state.unconstrained {
            if unconstrained_state.available > 1 {
                // There are multiple available unconstrained consumers, set all ports to unconstrained
                Self::set_unconstrained_all(true, num_ports)
            } else {
                // Only one unconstrained device is present, see if that's one of our ports
                let mut unconstrained_port: Option<usize> = None;
                let mut i: usize = 0;
                while i < self.port_status.len() && i < num_ports && unconstrained_port.is_none()
                    invariant
                        i <= self.port_status@.len(),
                        i <= num_ports,
                        match unconstrained_port {
                            Some(index) => is_unconstrained_port(
                                self.port_status@,
                                num_ports as int,
                                index as int,
                            ),
                            None => forall|other: int|
                                0 <= other < i ==> !is_unconstrained_consumer(
                                    #[trigger] self.port_status@[other],
                                ),
                        },
                    decreases self.port_status@.len() - i + (if unconstrained_port is None {
                        1int
                    } else {
                        0int
                    }),
                {
                    let status = &self.port_status[i];
                    if status.available_sink_contract.is_some() && status.unconstrained_power {
                        unconstrained_port = Some(i);
                    } else {
                        i += 1;
                    }
                }
                match unconstrained_port {
                    Some(unconstrained_index) => {
                        // One of our ports is the unconstrained consumer
                        // If it switches to sourcing then the system will no longer be unconstrained
                        // So set that port to constrained and unconstrain all others
                        let mut plan: Vec<bool> = Vec::new();
                        let mut port_index: usize = 0;
                        while port_index < num_ports
                            invariant
                                port_index <= num_ports,
                                plan@.len() == port_index,
                                forall|p: int|
                                    0 <= p < port_index ==> plan@[p] == (p != unconstrained_index),
                            decreases num_ports - port_index,
                        {
                            plan.push(port_index != unconstrained_index);
                            port_index += 1;
                        }
                        plan
                    },
                    None => {
                        // The system is unconstrained, but not by one of our ports
                        // So we can set all ports to unconstrained
                        Self::set_unconstrained_all(true, num_ports)
                    },
                }
            }
        } else {
            // No longer drawing from an unconstrained source, set all ports to constrained
            Self::set_unconstrained_all(false, num_ports)
        }
    }

    /// Process power policy events
    pub fn process_power_policy_event(&self, message: &PowerPolicyEvent, num_ports: usize) -> (plan:
        Vec<bool>)
        requires
            self.wf(),
        ensures
            plan@.len() == num_ports,
            forall|port: int|
                0 <= port < num_ports ==> plan@[port] == port_unconstrained(
                    self.spec_port_status(),
                    message->Unconstrained_0,
                    num_ports as int,
                    port,
                ),
    {
        match message {
            PowerPolicyEvent::Unconstrained(state) => self.process_unconstrained_state_change(
                state,
                num_ports,
            ),
        }
    }

    /// Whether a round robin over ports with pending events is in progress
    pub fn streaming(&self) -> (in_progress: bool)
        ensures
            in_progress == self.spec_stream() is Some,
    {
        self.port_event_streaming_state.is_some()
    }

    /// The stream of port events to go on with: the one in progress, or a
    /// new one over the ports that the controllers have signaled
    pub fn wait_port_flags(&self, unhandled: PortPending) -> (stream: PortEventStreamer)
        ensures
            match self.spec_stream() {
                Some(in_progress) => stream == in_progress,
                None => stream.held() is None && forall|port: int| #[trigger]
                    stream.remaining(port) == unhandled.contains(port),
            },
    {
        match self.port_event_streaming_state {
            Some(streamer) => streamer,
            None => PortEventStreamer::new(unhandled.into_iter()),
        }
    }

    /// Keep the stream for the next event, or end the round robin with `None`
    pub fn set_port_event_stream(&mut self, stream: Option<PortEventStreamer>)
        ensures
            final(self).spec_stream() == stream,
            final(self).spec_port_status() == old(self).spec_port_status(),
            final(self).spec_ucsi() == old(self).spec_ucsi(),
            final(self).spec_config() == old(self).spec_config(),
    {
        self.port_event_streaming_state = stream;
    }

    /// Wait for the next event: the part that follows an answer
    ///
    /// `stream` is the stream from `wait_port_flags`, and `step` what its
    /// `next` or, after a fetch, its `fetched` has given, `None` standing for
    /// a fetched event without any condition.
    /// - A status change is handed on with the port status to ask for, which
    ///   may come from a cache; the cursor is kept.
    /// - A notification is an event by itself; the cursor is kept.
    /// - A finished stream clears the cursor: there is nothing until the
    ///   controllers signal again.
    /// - A port to fetch, or an empty event, leaves the cursor as it is: the
    ///   stream has to be advanced further.
    pub fn wait_next(&mut self, stream: PortEventStreamer, step: Option<StreamStep>) -> (next: WaitStep)
        ensures
            final(self).spec_port_status() == old(self).spec_port_status(),
            final(self).spec_ucsi() == old(self).spec_ucsi(),
            final(self).spec_config() == old(self).spec_config(),
            match step {
                Some(StreamStep::Yield(port, PortEventVariant::StatusChanged(status_event))) => {
                    &&& next == WaitStep::GetPortStatus(port, status_event, Cached(true))
                    &&& final(self).spec_stream() == Some(stream)
                },
                Some(StreamStep::Yield(port, PortEventVariant::Notification(notification))) => {
                    &&& next == WaitStep::Ready(Event::PortNotification(port, notification))
                    &&& final(self).spec_stream() == Some(stream)
                },
                Some(StreamStep::Finished) => {
                    &&& next == WaitStep::Wait
                    &&& final(self).spec_stream() is None
                },
                Some(StreamStep::Fetch(port)) => {
                    &&& next == WaitStep::GetPortEvent(port)
                    &&& final(self).spec_stream() == old(self).spec_stream()
                },
                None => {
                    &&& next == WaitStep::Advance
                    &&& final(self).spec_stream() == old(self).spec_stream()
                },
            },
    {
        match step {
            Some(StreamStep::Yield(port_id, variant)) => {
                self.port_event_streaming_state = Some(stream);
                match variant {
                    PortEventVariant::StatusChanged(status_event) => {
                        // Return a port status changed event
                        WaitStep::GetPortStatus(port_id, status_event, Cached(true))
                    },
                    PortEventVariant::Notification(notification) => {
                        // Other notifications
                        WaitStep::Ready(Event::PortNotification(port_id, notification))
                    },
                }
            },
            Some(StreamStep::Finished) => {
                self.port_event_streaming_state = None;
                WaitStep::Wait
            },
            Some(StreamStep::Fetch(port_id)) => WaitStep::GetPortEvent(port_id),
            None => WaitStep::Advance,
        }
    }

    /// Process external commands
    ///
    /// A controller command and a port command go to their controller; a
    /// port status that may come from the cache is answered from it; a UCSI
    /// command starts its two-phase execution.
    pub fn process_external_command(&self, command: &external::Command) -> (action: ExternalAction)
        requires
            self.wf(),
        ensures
            action == external_action(self.spec_port_status(), *command),
    {
        match command {
            external::Command::Controller(command) => self.process_external_controller_command(
                command,
            ),
            external::Command::Port(command) => self.process_external_port_command(command),
            external::Command::Ucsi(command) => ExternalAction::Ucsi(PpmInput::Command(*command)),
        }
    }

    /// Process external controller commands
    pub fn process_external_controller_command(&self, command: &external::ControllerCommand) -> (action:
        ExternalAction)
        ensures
            action == ExternalAction::Controller(command.id, controller_command_data(command.data)),
    {
        match command.data {
            external::ControllerCommandData::ControllerStatus => ExternalAction::Controller(
                command.id,
                InternalCommandData::Status,
            ),
            external::ControllerCommandData::SyncState => ExternalAction::Controller(
                command.id,
                InternalCommandData::SyncState,
            ),
            external::ControllerCommandData::Reset => ExternalAction::Controller(
                command.id,
                InternalCommandData::Reset,
            ),
        }
    }

    /// Process external port commands
    pub fn process_external_port_command(&self, command: &PortCommand) -> (action: ExternalAction)
        requires
            self.wf(),
        ensures
            action == external_action(self.spec_port_status(), external::Command::Port(*command)),
    {
        match command.data {
            PortCommandData::PortStatus(cached) => {
                if cached.0 {
                    let response = match self.get_cached_port_status(command.port) {
                        Ok(status) => Ok(PortResponseData::PortStatus(status)),
                        Err(e) => Err(e),
                    };
                    ExternalAction::Respond(external::Response::Port(response))
                } else {
                    ExternalAction::Port(*command)
                }
            },
            _ => ExternalAction::Port(*command),
        }
    }

    /// Process the next output of the policy manager's state machine for
    /// the UCSI command in execution, with the service's configuration
    pub fn process_ucsi_command(&mut self, num_ports: usize, output: PpmResult, response: &mut ucsi::UcsiResponse) -> (step:
        ucsi::UcsiStep)
        requires
            old(self).wf(),
        ensures
            final(self).wf(),
            final(self).spec_port_status() == old(self).spec_port_status(),
            final(self).spec_config() == old(self).spec_config(),
            final(self).spec_stream() == old(self).spec_stream(),
            ucsi::State::command_processed(
                old(self).spec_ucsi(),
                final(self).spec_ucsi(),
                old(self).spec_config(),
                num_ports,
                output,
                *old(response),
                *final(response),
                step,
            ),
    {
        let mut state = self.ucsi;
        let step = state.process_ucsi_command(&self.config, num_ports, output, response);
        self.ucsi = state;
        step
    }

    /// Process the given event
    ///
    /// A status change updates the cache and gives the messages to
    /// broadcast. A notification changes nothing. A command from outside
    /// gives what is to be done for it; the response is always sent. A change
    /// of the unconstrained state gives the flags to tell the ports.
    pub fn process_event(&mut self, event: Event, num_ports: usize) -> (r: Result<
        EventAction,
        PdError,
    >)
        requires
            old(self).wf(),
        ensures
            final(self).wf(),
            final(self).spec_config() == old(self).spec_config(),
            final(self).spec_stream() == old(self).spec_stream(),
            match event {
                Event::PortStatusChanged(port, event_kind, status) => {
                    &&& final(self).spec_port_status() == cache_after(
                        old(self).spec_port_status(),
                        seq![(port.0 as int, status)],
                    )
                    &&& port.0 >= MAX_SUPPORTED_PORTS ==> r == Err::<EventAction, PdError>(
                        PdError::InvalidPort,
                    ) && final(self).spec_ucsi() == old(self).spec_ucsi()
                    &&& port.0 < MAX_SUPPORTED_PORTS ==> {
                        &&& r matches Ok(EventAction::Broadcast(outcome))
                        &&& outcome.debug_accessory == debug_accessory_message(
                            port,
                            old(self).spec_port_status()[port.0 as int],
                            status,
                        )
                        &&& final(self).spec_ucsi().queued_from(
                            old(self).spec_ucsi(),
                            port.0 as int,
                            event_kind,
                        )
                        &&& match outcome.ucsi {
                            Some(m) => !old(self).spec_ucsi().active() && final(self).spec_ucsi().indicated(m.port.0 as int) && m.notify_opm == old(self).spec_ucsi().spec_notifications_enabled().connect_change,
                            None => final(self).spec_ucsi().active() == old(self).spec_ucsi().active(),
                        }
                    }
                },
                Event::PortNotification(_, _) => {
                    &&& r == Ok::<EventAction, PdError>(EventAction::Nothing)
                    &&& final(self).spec_port_status() == old(self).spec_port_status()
                    &&& final(self).spec_ucsi() == old(self).spec_ucsi()
                },
                Event::ExternalCommand(command) => {
                    &&& r == Ok::<EventAction, PdError>(
                        EventAction::External(
                            external_action(old(self).spec_port_status(), command),
                        ),
                    )
                    &&& final(self).spec_port_status() == old(self).spec_port_status()
                    &&& final(self).spec_ucsi() == old(self).spec_ucsi()
                },
                Event::PowerPolicy(PowerPolicyEvent::Unconstrained(state)) => {
                    &&& r matches Ok(EventAction::SetUnconstrained(plan))
                    &&& plan@.len() == num_ports
                    &&& forall|port: int|
                        0 <= port < num_ports ==> plan@[port] == port_unconstrained(
                            old(self).spec_port_status(),
                            state,
                            num_ports as int,
                            port,
                        )
                    &&& final(self).spec_port_status() == old(self).spec_port_status()
                    &&& final(self).spec_ucsi() == old(self).spec_ucsi()
                },
            },
    {
        match event {
            Event::PortStatusChanged(port, event_kind, status) => {
                proof {
                    let events = seq![(port.0 as int, status)];
                    assert(cache_after(self.spec_port_status(), events.drop_last())
                        == self.spec_port_status());
                }
                match self.process_port_event(port, event_kind, status) {
                    Ok(outcome) => Ok(EventAction::Broadcast(outcome)),
                    Err(e) => Err(e),
                }
            },
            Event::PortNotification(_port, _notification) => {
                // Other port notifications
                Ok(EventAction::Nothing)
            },
            Event::ExternalCommand(command) => {
                Ok(EventAction::External(self.process_external_command(&command)))
            },
            Event::PowerPolicy(event) => {
                Ok(EventAction::SetUnconstrained(self.process_power_policy_event(&event, num_ports)))
            },
        }
    }
}

/// What waiting for the next event comes to.
#[derive(Copy, Clone, Debug, PartialEq, Eq, Structural)]
pub enum WaitStep {
    /// The event to process
    Ready(Event),
    /// Get the status of the port, then the event is the status change with it
    GetPortStatus(GlobalPortId, PortStatusChanged, Cached),
    /// Get the accumulated event of the port and hand it to the stream's `fetched`
    GetPortEvent(GlobalPortId),
    /// Advance the stream once more
    Advance,
    /// Nothing is ready: wait on all sources again
    Wait,
}

/// The command for a controller that an external controller command stands for.
pub open spec fn controller_command_data(data: external::ControllerCommandData) -> InternalCommandData {
    match data {
        external::ControllerCommandData::ControllerStatus => InternalCommandData::Status,
        external::ControllerCommandData::SyncState => InternalCommandData::SyncState,
        external::ControllerCommandData::Reset => InternalCommandData::Reset,
    }
}

/// What is to be done for a command from outside, given the status cache.
pub open spec fn external_action(cache: Seq<PortStatus>, command: external::Command) -> ExternalAction {
    match command {
        external::Command::Controller(command) => ExternalAction::Controller(
            command.id,
            controller_command_data(command.data),
        ),
        external::Command::Port(command) => if command.data == PortCommandData::PortStatus(
            Cached(true),
        ) {
            ExternalAction::Respond(
                external::Response::Port(
                    if command.port.0 < MAX_SUPPORTED_PORTS {
                        Ok(PortResponseData::PortStatus(cache[command.port.0 as int]))
                    } else {
                        Err(PdError::InvalidPort)
                    },
                ),
            )
        } else {
            ExternalAction::Port(command)
        },
        external::Command::Ucsi(command) => ExternalAction::Ucsi(PpmInput::Command(command)),
    }
}

} // verus!
