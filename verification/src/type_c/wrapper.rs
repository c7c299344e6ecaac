//! The controller wrapper: the bridge between one PD controller with its
//! ports, the power policy and the commands of the Type-C service.
//!
//! The wrapper decides; it does not wait. Whatever needs the controller
//! driver or a power policy device is returned as an action, and the result
//! of the action is handed back.

use crate::power::policy;
use crate::power::policy::{PowerCapability, StateKind};
use crate::type_c::controller::{
    Command, Contract, Device, InternalCommandData, InternalResponseData, PortCommand,
    PortCommandData, PortResponseData, PortStatus, Response, UcsiPassthrough,
};
use crate::type_c::event::{
    PortEventKind, PortPending, VdmNotification, CUSTOM_MODE_ATTENTION_RECEIVED,
    CUSTOM_MODE_ENTERED, CUSTOM_MODE_EXITED, CUSTOM_MODE_OTHER_VDM_RECEIVED,
    DISCOVER_MODE_COMPLETED, NEW_POWER_CONTRACT_AS_CONSUMER, PLUG_INSERTED_OR_REMOVED,
};
use crate::type_c::ucsi::Cci;
use crate::type_c::{
    response_error, to_response_error, Error, GlobalPortId, LocalPortId, PdError, MAX_PORTS,
};
use vstd::prelude::*;

pub mod config;

verus! {

/// Transition or notification of a power policy device.
#[derive(Copy, Clone, Debug, PartialEq, Eq, Structural)]
pub enum PowerAction {
    /// Go to the detached state from any state
    Detach,
    /// Go from the detached to the idle state
    Attach,
    /// Tell the device which power it can consume
    NotifyConsumerPowerCapability(PowerCapability),
}

/// Actions on one power policy device, to be carried out in order; a failed
/// action is logged and ends the plan.
#[derive(Copy, Clone, Debug, PartialEq, Eq, Structural)]
pub struct PowerPlan {
    /// Action to start with
    pub first: Option<PowerAction>,
    /// Action to go on with after `first`; there is none without a first
    pub second: Option<PowerAction>,
}

impl PowerPlan {
    /// The actions of the plan in order.
    pub open spec fn view(&self) -> Seq<PowerAction> {
        match (self.first, self.second) {
            (Some(first), Some(second)) => seq![first, second],
            (Some(first), None) => seq![first],
            (None, _) => Seq::empty(),
        }
    }

    /// The plan without any action
    pub fn none() -> (plan: Self)
        ensures
            plan@ == Seq::<PowerAction>::empty(),
            plan.first is None,
            plan.second is None,
    {
        PowerPlan { first: None, second: None }
    }

    /// The plan of one action
    pub fn one(action: PowerAction) -> (plan: Self)
        ensures
            plan@ == seq![action],
            plan.first == Some(action),
            plan.second is None,
    {
        PowerPlan { first: Some(action), second: None }
    }

    /// The plan of two actions
    pub fn two(first: PowerAction, second: PowerAction) -> (plan: Self)
        ensures
            plan@ == seq![first, second],
            plan.first == Some(first),
            plan.second == Some(second),
    {
        PowerPlan { first: Some(first), second: Some(second) }
    }

    /// What is left of the plan after its first action was carried out
    ///
    /// A failed action ends the plan; after a success the second action is
    /// left, if there is one.
    pub fn after(self, succeeded: bool) -> (rest: Self)
        ensures
            rest@ == (if succeeded && self@.len() > 0 {
                self@.subrange(1, self@.len() as int)
            } else {
                Seq::<PowerAction>::empty()
            }),
            rest.second is None,
    {
        if !succeeded {
            return Self::none();
        }
        match (self.first, self.second) {
            (Some(_), Some(second)) => {
                assert(seq![self.first->0, second].subrange(1, 2) =~= seq![second]);
                Self::one(second)
            },
            (Some(_), None) => {
                assert(self@.subrange(1, 1) =~= Seq::<PowerAction>::empty());
                Self::none()
            },
            (None, _) => Self::none(),
        }
    }

    /// Returns true if the plan holds no action
    pub fn is_empty(&self) -> (empty: bool)
        ensures
            empty == (self@.len() == 0),
    {
        self.first.is_none()
    }
}

/// The kind of state that a power policy device is in after an action succeeded.
pub open spec fn kind_after(kind: StateKind, action: PowerAction) -> StateKind {
    match action {
        PowerAction::Detach => StateKind::Detached,
        PowerAction::Attach => StateKind::Idle,
        PowerAction::NotifyConsumerPowerCapability(_) => kind,
    }
}

/// Whether a power policy device in a state of kind `kind` accepts the action.
pub open spec fn action_allowed(kind: StateKind, action: PowerAction) -> bool {
    match action {
        PowerAction::Detach => true,
        PowerAction::Attach => kind == StateKind::Detached,
        PowerAction::NotifyConsumerPowerCapability(_) => kind == StateKind::Idle || kind
            == StateKind::ConnectedConsumer,
    }
}

/// Every action of the plan is allowed when its turn comes, provided the
/// actions before it succeeded.
pub open spec fn plan_allowed(kind: StateKind, plan: Seq<PowerAction>) -> bool
    decreases plan.len(),
{
    plan.len() == 0 || (action_allowed(kind, plan[0]) && plan_allowed(
        kind_after(kind, plan[0]),
        plan.subrange(1, plan.len() as int),
    ))
}

/// The kind of state after every action of the plan succeeded.
pub open spec fn kind_after_plan(kind: StateKind, plan: Seq<PowerAction>) -> StateKind
    decreases plan.len(),
{
    if plan.len() == 0 {
        kind
    } else {
        kind_after_plan(kind_after(kind, plan[0]), plan.subrange(1, plan.len() as int))
    }
}

/// The plan for a plug event.
///
/// With a connection present the device is brought to the detached state,
/// if it is not there, and then attached; without one it is detached.
pub open spec fn plug_event_plan(kind: StateKind, status: PortStatus) -> Seq<PowerAction> {
    if status.connection_present {
        if kind != StateKind::Detached {
            seq![PowerAction::Detach, PowerAction::Attach]
        } else {
            seq![PowerAction::Attach]
        }
    } else {
        seq![PowerAction::Detach]
    }
}

/// The plan for a new contract as consumer.
///
/// Nothing is done without a sink contract, nor while the device provides
/// power. A detached device is attached first. The device then learns of
/// the capability of the contract.
pub open spec fn new_consumer_contract_plan(kind: StateKind, status: PortStatus) -> Seq<
    PowerAction,
> {
    match status.contract {
        Some(Contract::Sink(capability)) => {
            if kind == StateKind::ConnectedProvider {
                Seq::empty()
            } else if kind == StateKind::Detached {
                seq![PowerAction::Attach, PowerAction::NotifyConsumerPowerCapability(capability)]
            } else {
                seq![PowerAction::NotifyConsumerPowerCapability(capability)]
            }
        },
        _ => Seq::empty(),
    }
}

/// The plans for plug events and new consumer contracts only hold actions
/// that the device accepts in its turn. A plug event with a connection
/// leaves the device idle, one without leaves it detached; a new consumer
/// contract never leaves it detached.
pub proof fn lemma_plans_allowed(kind: StateKind, status: PortStatus)
    ensures
        plan_allowed(kind, plug_event_plan(kind, status)),
        plan_allowed(kind, new_consumer_contract_plan(kind, status)),
        kind_after_plan(kind, plug_event_plan(kind, status)) == (if status.connection_present {
            StateKind::Idle
        } else {
            StateKind::Detached
        }),
        new_consumer_contract_plan(kind, status).len() > 0 ==> kind_after_plan(
            kind,
            new_consumer_contract_plan(kind, status),
        ) != StateKind::Detached,
{
    reveal_with_fuel(plan_allowed, 3);
    reveal_with_fuel(kind_after_plan, 3);
}

/// Handle a plug event
pub fn process_plug_event(kind: StateKind, status: &PortStatus) -> (plan: PowerPlan)
    ensures
        plan@ == plug_event_plan(kind, *status),
{
    if status.connection_present {
        // Recover if we're not in the correct state
        match kind {
            StateKind::Detached => PowerPlan::one(PowerAction::Attach),
            _ => PowerPlan::two(PowerAction::Detach, PowerAction::Attach),
        }
    } else {
        PowerPlan::one(PowerAction::Detach)
    }
}

/// Handle a new consumer contract
pub fn process_new_consumer_contract(kind: StateKind, status: &PortStatus) -> (plan: PowerPlan)
    ensures
        plan@ == new_consumer_contract_plan(kind, *status),
{
    let capability = match status.contract {
        Some(Contract::Sink(capability)) => capability,
        _ => {
            return PowerPlan::none();
        },
    };
    match kind {
        // Don't update the available consumer contract if we're providing power
        StateKind::ConnectedProvider => PowerPlan::none(),
        // Recover if we're not in the correct state
        StateKind::Detached => PowerPlan::two(
            PowerAction::Attach,
            PowerAction::NotifyConsumerPowerCapability(capability),
        ),
        StateKind::Idle | StateKind::ConnectedConsumer => PowerPlan::one(
            PowerAction::NotifyConsumerPowerCapability(capability),
        ),
    }
}

/// What a request of the power policy asks of the controller: the state of
/// the sink path to set, if any.
pub open spec fn sink_path_for(command: policy::RequestData) -> Option<bool> {
    match command {
        policy::RequestData::ConnectConsumer(_) => Some(true),
        policy::RequestData::Disconnect => Some(false),
        _ => None,
    }
}

/// Process a power command: decide what the controller is to do
///
/// To connect a consumer the sink path is enabled, to disconnect it is
/// disabled. Other requests need nothing of the controller.
pub fn process_power_command(command: &policy::RequestData) -> (sink_path: Option<bool>)
    ensures
        sink_path == sink_path_for(*command),
{
    match command {
        policy::RequestData::ConnectConsumer(_capability) => Some(true),
        policy::RequestData::Disconnect => Some(false),
        _ => None,
    }
}

/// The response to a power command, given what the controller said to the
/// change of the sink path, if one was asked for.
pub open spec fn power_response<BE>(driver: Option<Result<(), Error<BE>>>) -> Result<
    policy::ResponseData,
    policy::Error,
> {
    match driver {
        Some(Err(_)) => Err(policy::Error::Failed),
        _ => Ok(policy::ResponseData::Complete),
    }
}

/// Answer a power command: every request gets exactly one response
pub fn power_command_response<BE>(driver: Option<Result<(), Error<BE>>>) -> (response: Result<
    policy::ResponseData,
    policy::Error,
>)
    ensures
        response == power_response(driver),
{
    match driver {
        Some(Err(_)) => Err(policy::Error::Failed),
        _ => Ok(policy::ResponseData::Complete),
    }
}

/// The vendor defined message that is to be read for a notification.
#[derive(Copy, Clone, Debug, PartialEq, Eq, Structural)]
pub enum VdmFetch {
    /// The message that is not an attention message
    Other,
    /// The attention message
    Attention,
}

/// The condition of a port event that a VDM notification is kept as.
pub open spec fn vdm_condition(kind: VdmNotification) -> usize {
    match kind {
        VdmNotification::Entered => CUSTOM_MODE_ENTERED,
        VdmNotification::Exited => CUSTOM_MODE_EXITED,
        VdmNotification::OtherReceived => CUSTOM_MODE_OTHER_VDM_RECEIVED,
        VdmNotification::AttentionReceived => CUSTOM_MODE_ATTENTION_RECEIVED,
    }
}

/// Process a VDM event: decide which message is to be read from the controller
pub fn process_vdm_event(event: VdmNotification) -> (fetch: VdmFetch)
    ensures
        fetch == (if event == VdmNotification::AttentionReceived {
            VdmFetch::Attention
        } else {
            VdmFetch::Other
        }),
{
    match event {
        VdmNotification::Entered => VdmFetch::Other,
        VdmNotification::Exited => VdmFetch::Other,
        VdmNotification::OtherReceived => VdmFetch::Other,
        VdmNotification::AttentionReceived => VdmFetch::Attention,
    }
}

/// Where a pass over the ports of a controller stands after the controller
/// reported port events.
#[derive(Copy, Clone, Debug, PartialEq, Eq, Structural)]
pub enum EventStage {
    /// No pass is running
    Idle,
    /// The events of this local port were asked for
    Events(usize),
    /// The status of this local port was asked for, after these events
    Status(usize, PortEventKind),
    /// The plan for the plug event of this port is carried out
    Plug(usize, PortEventKind, PortStatus),
    /// The plan for the new consumer contract of this port is carried out
    Contract(usize, PortEventKind),
}

/// What happened since the last action of a pass.
#[derive(Copy, Clone, Debug, PartialEq, Eq, Structural)]
pub enum EventInput {
    /// The controller reported port events: a pass begins
    Begin,
    /// The events that were cleared and read, `None` if the driver failed
    PortEvents(Option<PortEventKind>),
    /// The status that was read, `None` if the driver failed, and the kind of
    /// state that the port's power policy device is in
    PortStatus(Option<PortStatus>, StateKind),
    /// The plan was carried out as far as it went: the kind of state that the
    /// port's power policy device is in now, and whether every action succeeded
    PowerDone(StateKind, bool),
}

/// What a pass asks for next.
#[derive(Copy, Clone, Debug, PartialEq, Eq, Structural)]
pub enum EventAction {
    /// Clear and read the events of the port
    ClearPortEvents(LocalPortId),
    /// Read the status of the port
    GetPortStatus(LocalPortId),
    /// Carry out the plan on the port's power policy device
    Power(LocalPortId, PowerPlan),
    /// The pass is over: tell the service once which ports have events
    NotifyPorts(PortPending),
    /// The input does not answer the last action; nothing was changed
    Unexpected,
}

/// Call of the controller driver that a port command comes to.
#[derive(Copy, Clone, Debug, PartialEq, Eq, Structural)]
pub enum DriverCall {
    /// Read the port status
    GetPortStatus(LocalPortId),
    /// Set the maximum sink voltage, or lift the limit
    SetMaxSinkVoltage(LocalPortId, Option<u16>),
    /// Tell the port whether power is unconstrained
    SetUnconstrainedPower(LocalPortId, bool),
    /// Put the retimer into firmware update state
    SetRtFwUpdateState(LocalPortId),
    /// Take the retimer out of firmware update state
    ClearRtFwUpdateState(LocalPortId),
    /// Put the retimer into compliance mode
    SetRtCompliance(LocalPortId),
    /// Reconfigure the retimer
    ReconfigureRetimer(LocalPortId),
    /// Clear the dead battery flag
    ClearDeadBatteryFlag(LocalPortId),
    /// Execute a data reset
    ExecuteDrst(LocalPortId),
}

/// What is to be done for a port command.
#[derive(Copy, Clone, Debug, PartialEq, Eq)]
pub enum PortCommandStep {
    /// Send the response
    Respond(Result<PortResponseData, PdError>),
    /// Call the driver and answer with what `process_get_port_status`, for a
    /// status, or `port_action_response` makes of its result
    Call(DriverCall),
}

/// What is to be done for a command to the controller.
#[derive(Copy, Clone, Debug, PartialEq, Eq)]
pub enum PdCommandStep {
    /// Send the response
    Respond(Response),
    /// Call the driver for a port command
    Port(DriverCall),
    /// Carry out the controller command and answer with what
    /// `process_controller_command` makes of its result
    Controller(InternalCommandData),
}

/// The driver call that a port command comes to on local port `port`;
/// `None` for the command that the wrapper answers itself.
pub open spec fn driver_call(port: LocalPortId, data: PortCommandData) -> Option<DriverCall> {
    match data {
        PortCommandData::PortStatus(_) => Some(DriverCall::GetPortStatus(port)),
        PortCommandData::GetEvent => None,
        PortCommandData::SetMaxSinkVoltage(voltage_mv) => Some(
            DriverCall::SetMaxSinkVoltage(port, voltage_mv),
        ),
        PortCommandData::SetUnconstrainedPower(unconstrained) => Some(
            DriverCall::SetUnconstrainedPower(port, unconstrained),
        ),
        PortCommandData::RetimerFwUpdateSetState => Some(DriverCall::SetRtFwUpdateState(port)),
        PortCommandData::RetimerFwUpdateClearState => Some(DriverCall::ClearRtFwUpdateState(port)),
        PortCommandData::SetRetimerCompliance => Some(DriverCall::SetRtCompliance(port)),
        PortCommandData::ReconfigureRetimer => Some(DriverCall::ReconfigureRetimer(port)),
        PortCommandData::ClearDeadBatteryFlag => Some(DriverCall::ClearDeadBatteryFlag(port)),
        PortCommandData::ExecuteDrst => Some(DriverCall::ExecuteDrst(port)),
    }
}

/// The response to a status request, given what the driver read.
pub open spec fn port_status_response<BE>(result: Result<PortStatus, Error<BE>>) -> Result<
    PortResponseData,
    PdError,
> {
    match result {
        Ok(status) => Ok(PortResponseData::PortStatus(status)),
        Err(e) => Err(response_error(e)),
    }
}

/// The response to a port action without data, given what the driver said.
pub open spec fn port_complete_response<BE>(result: Result<(), Error<BE>>) -> Result<
    PortResponseData,
    PdError,
> {
    match result {
        Ok(()) => Ok(PortResponseData::Complete),
        Err(e) => Err(response_error(e)),
    }
}

/// Answer a status request with what the driver read
///
/// The status is a live read. A failure of the bus is reported as `Failed`,
/// a protocol error as it is.
pub fn process_get_port_status<BE>(result: Result<PortStatus, Error<BE>>) -> (response: Result<
    PortResponseData,
    PdError,
>)
    ensures
        response == port_status_response(result),
{
    match result {
        Ok(status) => Ok(PortResponseData::PortStatus(status)),
        Err(e) => Err(to_response_error(e)),
    }
}

/// Answer a port action that returns no data with what the driver said
pub fn port_action_response<BE>(result: Result<(), Error<BE>>) -> (response: Result<
    PortResponseData,
    PdError,
>)
    ensures
        response == port_complete_response(result),
{
    match result {
        Ok(()) => Ok(PortResponseData::Complete),
        Err(e) => Err(to_response_error(e)),
    }
}

/// Answer a controller command with what the driver said: any failure is
/// reported as `Failed`
pub fn process_controller_command<BE>(result: Result<InternalResponseData, Error<BE>>) -> (response:
    Result<InternalResponseData, PdError>)
    ensures
        response == (match result {
            Ok(data) => Ok::<InternalResponseData, PdError>(data),
            Err(_) => Err::<InternalResponseData, PdError>(PdError::Failed),
        }),
{
    match result {
        Ok(data) => Ok(data),
        Err(_) => Err(PdError::Failed),
    }
}

/// Whether a consumer is to be disconnected before the maximum sink voltage
/// is set: a connected consumer whose capability lies above the new limit
/// would renegotiate.
pub open spec fn disconnect_before_limit(
    kind: StateKind,
    consumer_capability: Option<PowerCapability>,
    voltage_mv: Option<u16>,
) -> bool {
    &&& kind == StateKind::ConnectedConsumer
    &&& voltage_mv matches Some(limit)
    &&& consumer_capability matches Some(capability)
    &&& limit < capability.voltage_mv
}

/// Process a request to set the maximum sink voltage for a port: decide
/// whether the consumer is disconnected first
pub fn process_set_max_sink_voltage(
    kind: StateKind,
    consumer_capability: Option<PowerCapability>,
    voltage_mv: Option<u16>,
) -> (disconnect: bool)
    ensures
        disconnect == disconnect_before_limit(kind, consumer_capability, voltage_mv),
{
    match kind {
        StateKind::ConnectedConsumer => match (voltage_mv, consumer_capability) {
            // New max voltage is lower than current consumer capability which will trigger a renegotiation
            // So disconnect first
            (Some(limit), Some(capability)) => limit < capability.voltage_mv,
            _ => false,
        },
        _ => false,
    }
}

/// The deadline of a port after the sink-ready check.
///
/// A new contract whose source is not ready yet starts the timeout, with
/// the time of the power range in use. A running timeout is cleared when
/// the port is disconnected, has no sink contract available, or the source
/// is ready. Otherwise the deadline stays.
pub open spec fn deadline_after(
    deadline: Option<u64>,
    timeouts: config::SinkReadyTimeouts,
    status: PortStatus,
    new_contract: bool,
    sink_ready: bool,
    now_ms: u64,
) -> Option<u64> {
    if new_contract && !sink_ready {
        Some(
            (now_ms + (if status.epr {
                timeouts.epr_ms
            } else {
                timeouts.spr_ms
            })) as u64,
        )
    } else if deadline is Some && (!status.connection_present || status.available_sink_contract
        is None || sink_ready) {
        None
    } else {
        deadline
    }
}

/// Whether the deadline of `port` has come at `now_ms`.
pub open spec fn deadline_reached(deadlines: Seq<Option<u64>>, port: int, now_ms: u64) -> bool {
    &&& 0 <= port < deadlines.len()
    &&& deadlines[port] matches Some(deadline)
    &&& deadline <= now_ms
}

/// Takes the table of a PD controller and keeps the book on its ports: the
/// events that the service has not fetched yet, the sink-ready deadlines,
/// and the pass over the ports that follows a report of port events.
#[derive(Clone, Debug)]
pub struct ControllerWrapper {
    /// PD controller to interface with PD service
    pd_controller: Device,
    /// Configuration
    config: config::Config,
    /// Events of each port that the service has not fetched
    active_events: Vec<PortEventKind>,
    /// Deadline in ms for each port's source to get ready
    sink_ready_deadline: Vec<Option<u64>>,
    /// Where the pass over the ports stands
    stage: EventStage,
    /// Ports with events in the running pass
    port_events: PortPending,
}

impl ControllerWrapper {
    /// The table from local to global ports.
    pub closed spec fn spec_ports(&self) -> Seq<GlobalPortId> {
        self.pd_controller.spec_ports()
    }

    /// The configuration.
    pub closed spec fn spec_config(&self) -> config::Config {
        self.config
    }

    /// Events of each local port that the service has not fetched.
    pub closed spec fn spec_active_events(&self) -> Seq<PortEventKind> {
        self.active_events@
    }

    /// Deadline of each local port's source to get ready.
    pub closed spec fn spec_deadlines(&self) -> Seq<Option<u64>> {
        self.sink_ready_deadline@
    }

    /// Where the pass over the ports stands.
    pub closed spec fn spec_stage(&self) -> EventStage {
        self.stage
    }

    /// Ports with events in the running pass.
    pub closed spec fn spec_port_events(&self) -> PortPending {
        self.port_events
    }

    /// Number of ports of the controller.
    pub open spec fn spec_num_ports(&self) -> int {
        self.spec_ports().len() as int
    }

    /// The local port that the stage works on lies in the table.
    pub open spec fn stage_in_range(stage: EventStage, num_ports: int) -> bool {
        match stage {
            EventStage::Idle => true,
            EventStage::Events(port) => port < num_ports,
            EventStage::Status(port, _) => port < num_ports,
            EventStage::Plug(port, _, _) => port < num_ports,
            EventStage::Contract(port, _) => port < num_ports,
        }
    }

    /// Every port has its books, every global port fits the bitmap of
    /// pending ports, and the pass works on a port of the table.
    pub open spec fn wf(&self) -> bool {
        &&& self.spec_num_ports() <= 255
        &&& self.spec_active_events().len() == self.spec_num_ports()
        &&& self.spec_deadlines().len() == self.spec_num_ports()
        &&& forall|port: int|
            0 <= port < self.spec_num_ports() ==> (#[trigger] self.spec_ports()[port]).0 < MAX_PORTS
        &&& Self::stage_in_range(self.spec_stage(), self.spec_num_ports())
    }

    /// Create a new controller wrapper
    ///
    /// A table with a global port beyond the bitmap of pending ports is refused.
    pub fn new(pd_controller: Device, config: config::Config) -> (r: Result<Self, PdError>)
        requires
            pd_controller.wf(),
        ensures
            r is Ok <==> forall|port: int|
                0 <= port < pd_controller.spec_ports().len() ==> (
                #[trigger] pd_controller.spec_ports()[port]).0 < MAX_PORTS,
            r matches Err(e) ==> e == PdError::InvalidPort,
            r matches Ok(wrapper) ==> {
                &&& wrapper.wf()
                &&& wrapper.spec_ports() == pd_controller.spec_ports()
                &&& wrapper.spec_config() == config
                &&& wrapper.spec_stage() == EventStage::Idle
                &&& forall|port: int|
                    0 <= port < wrapper.spec_num_ports() ==> (
                    #[trigger] wrapper.spec_active_events()[port]).0 == 0
                &&& forall|port: int|
                    0 <= port < wrapper.spec_num_ports() ==> (
                    #[trigger] wrapper.spec_deadlines()[port]) is None
            },
    {
        let num_ports = pd_controller.num_ports();
        let mut active_events: Vec<PortEventKind> = Vec::new();
        let mut sink_ready_deadline: Vec<Option<u64>> = Vec::new();
        let mut port: usize = 0;
        while port < num_ports
            invariant
                port <= num_ports,
                num_ports == pd_controller.spec_ports().len(),
                num_ports == crate::type_c::controller::MAX_CONTROLLER_PORTS,
                active_events@.len() == port,
                sink_ready_deadline@.len() == port,
                forall|p: int| 0 <= p < port ==> (#[trigger] active_events@[p]).0 == 0,
                forall|p: int| 0 <= p < port ==> (#[trigger] sink_ready_deadline@[p]) is None,
                forall|p: int|
                    0 <= p < port ==> (#[trigger] pd_controller.spec_ports()[p]).0 < MAX_PORTS,
            decreases num_ports - port,
        {
            match pd_controller.lookup_global_port(LocalPortId(port as u8)) {
                Ok(global) => {
                    if global.0 as usize >= MAX_PORTS {
                        return Err(PdError::InvalidPort);
                    }
                },
                Err(_) => {
                    return Err(PdError::InvalidPort);
                },
            }
            active_events.push(PortEventKind::none());
            sink_ready_deadline.push(None);
            port += 1;
        }
        Ok(
            ControllerWrapper {
                pd_controller,
                config,
                active_events,
                sink_ready_deadline,
                stage: EventStage::Idle,
                port_events: PortPending::none(),
            },
        )
    }

    /// Number of ports of the controller
    pub fn num_ports(&self) -> (n: usize)
        ensures
            n == self.spec_num_ports(),
    {
        self.pd_controller.num_ports()
    }

    /// The events of a local port that the service has not fetched
    pub fn active_events(&self, port: LocalPortId) -> (events: Option<PortEventKind>)
        requires
            self.wf(),
        ensures
            events == (if (port.0 as int) < self.spec_num_ports() {
                Some(self.spec_active_events()[port.0 as int])
            } else {
                None
            }),
    {
        if (port.0 as usize) < self.active_events.len() {
            Some(self.active_events[port.0 as usize])
        } else {
            None
        }
    }

    /// The deadline of a local port's source to get ready
    pub fn sink_ready_deadline(&self, port: LocalPortId) -> (deadline: Option<u64>)
        requires
            self.wf(),
        ensures
            deadline == (if (port.0 as int) < self.spec_num_ports() {
                self.spec_deadlines()[port.0 as int]
            } else {
                None
            }),
    {
        if (port.0 as usize) < self.sink_ready_deadline.len() {
            self.sink_ready_deadline[port.0 as usize]
        } else {
            None
        }
    }

    /// Where a pass goes on with local port `next`: with its events, or,
    /// past the last port, with the one notification of the service.
    pub open spec fn advance(num_ports: int, next: int, port_events: PortPending) -> (
        EventStage,
        EventAction,
    ) {
        if next < num_ports {
            (
                EventStage::Events(next as usize),
                EventAction::ClearPortEvents(LocalPortId(next as u8)),
            )
        } else {
            (EventStage::Idle, EventAction::NotifyPorts(port_events))
        }
    }

    /// `self` is `before` after the pass went on to local port `next`, the
    /// books being `active_events` and `port_events`.
    pub open spec fn advanced_from(
        &self,
        before: Self,
        next: int,
        active_events: Seq<PortEventKind>,
        action: EventAction,
    ) -> bool {
        &&& self.spec_active_events() == active_events
        &&& self.spec_port_events() == before.spec_port_events()
        &&& (self.spec_stage(), action) == Self::advance(
            before.spec_num_ports(),
            next,
            before.spec_port_events(),
        )
    }

    /// What one step of a pass does. Ports are worked on in ascending order.
    /// - `Begin` starts a pass with no port marked.
    /// - Events that could not be read, or that are empty, let the pass go
    ///   on with the next port. Other events mark the port's global port,
    ///   and the status is read.
    /// - A status that could not be read lets the pass go on; the port's
    ///   events are then not kept. With the status, a plug event comes
    ///   first, then a new consumer contract, each with its plan. After a
    ///   plug event whose plan failed the contract is left alone: nothing is
    ///   tried again before the next event.
    /// - After the plans the events are kept as the port's active events,
    ///   and the pass goes on.
    /// - An input that does not answer the last action changes nothing.
    pub open spec fn event_processed(&self, before: Self, input: EventInput, action: EventAction) -> bool {
        &&& self.spec_ports() == before.spec_ports()
        &&& self.spec_config() == before.spec_config()
        &&& self.spec_deadlines() == before.spec_deadlines()
        &&& match (before.spec_stage(), input) {
            (_, EventInput::Begin) => {
                &&& self.spec_active_events() == before.spec_active_events()
                &&& self.spec_port_events().0 == 0
                &&& (self.spec_stage(), action) == Self::advance(
                    before.spec_num_ports(),
                    0,
                    PortPending(0),
                )
            },
            (EventStage::Events(port), EventInput::PortEvents(Some(event))) => if event.0 == 0 {
                self.advanced_from(before, port + 1, before.spec_active_events(), action)
            } else {
                &&& self.spec_active_events() == before.spec_active_events()
                &&& forall|other: int| #[trigger]
                    self.spec_port_events().contains(other) == (other
                        == before.spec_ports()[port as int].0 || before.spec_port_events().contains(
                        other,
                    ))
                &&& self.spec_stage() == EventStage::Status(port, event)
                &&& action == EventAction::GetPortStatus(LocalPortId(port as u8))
            },
            (EventStage::Events(port), EventInput::PortEvents(None)) => self.advanced_from(
                before,
                port + 1,
                before.spec_active_events(),
                action,
            ),
            (EventStage::Status(port, event), EventInput::PortStatus(None, _)) => self.advanced_from(
                before,
                port + 1,
                before.spec_active_events(),
                action,
            ),
            (EventStage::Status(port, event), EventInput::PortStatus(Some(status), kind)) => if event.has(
                PLUG_INSERTED_OR_REMOVED,
            ) {
                &&& self.spec_active_events() == before.spec_active_events()
                &&& self.spec_port_events() == before.spec_port_events()
                &&& self.spec_stage() == EventStage::Plug(port, event, status)
                &&& action matches EventAction::Power(local, plan)
                &&& local == LocalPortId(port as u8)
                &&& plan@ == plug_event_plan(kind, status)
            } else if event.has(NEW_POWER_CONTRACT_AS_CONSUMER) {
                &&& self.spec_active_events() == before.spec_active_events()
                &&& self.spec_port_events() == before.spec_port_events()
                &&& self.spec_stage() == EventStage::Contract(port, event)
                &&& action matches EventAction::Power(local, plan)
                &&& local == LocalPortId(port as u8)
                &&& plan@ == new_consumer_contract_plan(kind, status)
            } else {
                self.advanced_from(
                    before,
                    port + 1,
                    before.spec_active_events().update(port as int, event),
                    action,
                )
            },
            (
                EventStage::Plug(port, event, status),
                EventInput::PowerDone(kind, succeeded),
            ) => if succeeded && event.has(NEW_POWER_CONTRACT_AS_CONSUMER) {
                &&& self.spec_active_events() == before.spec_active_events()
                &&& self.spec_port_events() == before.spec_port_events()
                &&& self.spec_stage() == EventStage::Contract(port, event)
                &&& action matches EventAction::Power(local, plan)
                &&& local == LocalPortId(port as u8)
                &&& plan@ == new_consumer_contract_plan(kind, status)
            } else {
                self.advanced_from(
                    before,
                    port + 1,
                    before.spec_active_events().update(port as int, event),
                    action,
                )
            },
            (EventStage::Contract(port, event), EventInput::PowerDone(_, _)) => self.advanced_from(
                before,
                port + 1,
                before.spec_active_events().update(port as int, event),
                action,
            ),
            _ => {
                &&& self.spec_active_events() == before.spec_active_events()
                &&& self.spec_port_events() == before.spec_port_events()
                &&& self.spec_stage() == before.spec_stage()
                &&& action == EventAction::Unexpected
            },
        }
    }

    /// Go on with local port `next`, or end the pass
    fn next_port(&mut self, next: usize) -> (action: EventAction)
        requires
            old(self).wf(),
            next <= old(self).spec_num_ports(),
        ensures
            final(self).wf(),
            final(self).spec_ports() == old(self).spec_ports(),
            final(self).spec_config() == old(self).spec_config(),
            final(self).spec_deadlines() == old(self).spec_deadlines(),
            final(self).advanced_from(*old(self), next as int, old(self).spec_active_events(), action),
    {
        if next < self.pd_controller.num_ports() {
            self.stage = EventStage::Events(next);
            EventAction::ClearPortEvents(LocalPortId(next as u8))
        } else {
            self.stage = EventStage::Idle;
            EventAction::NotifyPorts(self.port_events)
        }
    }

    /// Keep the events of a port as its active events and go on with the next port
    fn finish_port(&mut self, port: usize, event: PortEventKind) -> (action: EventAction)
        requires
            old(self).wf(),
            port < old(self).spec_num_ports(),
        ensures
            final(self).wf(),
            final(self).spec_ports() == old(self).spec_ports(),
            final(self).spec_config() == old(self).spec_config(),
            final(self).spec_deadlines() == old(self).spec_deadlines(),
            final(self).advanced_from(
                *old(self),
                port + 1,
                old(self).spec_active_events().update(port as int, event),
                action,
            ),
    {
        self.active_events.set(port, event);
        let action = self.next_port(port + 1);
        action
    }

    /// Process port events: one step of the pass over the ports
    ///
    /// None of the steps fails: a port whose driver or power policy device
    /// fails is left behind and the pass goes on with the next port.
    pub fn process_event(&mut self, input: EventInput) -> (action: EventAction)
        requires
            old(self).wf(),
        ensures
            final(self).wf(),
            final(self).event_processed(*old(self), input, action),
    {
        match (self.stage, input) {
            (_, EventInput::Begin) => {
                self.port_events = PortPending::none();
                self.next_port(0)
            },
            (EventStage::Events(port), EventInput::PortEvents(Some(event))) => {
                if event.is_none() {
                    self.next_port(port + 1)
                } else {
                    match self.pd_controller.lookup_global_port(LocalPortId(port as u8)) {
                        Ok(global_port_id) => {
                            let mut port_events = self.port_events;
                            port_events.pend_port(global_port_id.0 as usize);
                            self.port_events = port_events;
                            self.stage = EventStage::Status(port, event);
                            EventAction::GetPortStatus(LocalPortId(port as u8))
                        },
                        Err(_) => {
                            assert(false);
                            EventAction::Unexpected
                        },
                    }
                }
            },
            (EventStage::Events(port), EventInput::PortEvents(None)) => self.next_port(port + 1),
            (EventStage::Status(port, _event), EventInput::PortStatus(None, _)) => self.next_port(
                port + 1,
            ),
            (EventStage::Status(port, event), EventInput::PortStatus(Some(status), kind)) => {
                if event.plug_inserted_or_removed() {
                    self.stage = EventStage::Plug(port, event, status);
                    EventAction::Power(LocalPortId(port as u8), process_plug_event(kind, &status))
                } else if event.new_power_contract_as_consumer() {
                    self.stage = EventStage::Contract(port, event);
                    EventAction::Power(
                        LocalPortId(port as u8),
                        process_new_consumer_contract(kind, &status),
                    )
                } else {
                    self.finish_port(port, event)
                }
            },
            (EventStage::Plug(port, event, status), EventInput::PowerDone(kind, succeeded)) => {
                if succeeded && event.new_power_contract_as_consumer() {
                    self.stage = EventStage::Contract(port, event);
                    EventAction::Power(
                        LocalPortId(port as u8),
                        process_new_consumer_contract(kind, &status),
                    )
                } else {
                    self.finish_port(port, event)
                }
            },
            (EventStage::Contract(port, event), EventInput::PowerDone(_, _)) => self.finish_port(
                port,
                event,
            ),
            _ => EventAction::Unexpected,
        }
    }

    /// `self` is `before` after a port command was handled with `step`.
    ///
    /// A port that is not the controller's is refused with `InvalidPort`.
    /// Otherwise the command goes to the first local port that maps to the
    /// global port: `GetEvent` is answered with the port's active events,
    /// which are cleared; every other command comes to a call of the driver.
    pub open spec fn port_command_processed(
        &self,
        before: Self,
        command: PortCommand,
        step: PortCommandStep,
    ) -> bool {
        &&& self.spec_ports() == before.spec_ports()
        &&& self.spec_config() == before.spec_config()
        &&& self.spec_deadlines() == before.spec_deadlines()
        &&& self.spec_stage() == before.spec_stage()
        &&& self.spec_port_events() == before.spec_port_events()
        &&& if before.spec_ports().contains(command.port) {
            exists|local: int|
                {
                    &&& 0 <= local < before.spec_num_ports()
                    &&& #[trigger] before.spec_ports()[local] == command.port
                    &&& forall|lower: int|
                        0 <= lower < local ==> before.spec_ports()[lower] != command.port
                    &&& match driver_call(LocalPortId(local as u8), command.data) {
                        Some(call) => {
                            &&& step == PortCommandStep::Call(call)
                            &&& self.spec_active_events() == before.spec_active_events()
                        },
                        None => {
                            &&& step == PortCommandStep::Respond(
                                Ok(PortResponseData::Event(before.spec_active_events()[local])),
                            )
                            &&& self.spec_active_events() == before.spec_active_events().update(
                                local,
                                PortEventKind(0),
                            )
                        },
                    }
                }
        } else {
            &&& step == PortCommandStep::Respond(Err(PdError::InvalidPort))
            &&& self.spec_active_events() == before.spec_active_events()
        }
    }

    /// Handle a port command
    pub fn process_port_command(&mut self, command: &PortCommand) -> (step: PortCommandStep)
        requires
            old(self).wf(),
        ensures
            final(self).wf(),
            final(self).port_command_processed(*old(self), *command, step),
    {
        let local_port = match self.pd_controller.lookup_local_port(command.port) {
            Ok(local_port) => local_port,
            Err(_) => {
                return PortCommandStep::Respond(Err(PdError::InvalidPort));
            },
        };
        let step = match command.data {
            PortCommandData::PortStatus(_cached) => PortCommandStep::Call(
                DriverCall::GetPortStatus(local_port),
            ),
            PortCommandData::GetEvent => {
                let port_index = local_port.0 as usize;
                let event = self.active_events[port_index];
                self.active_events.set(port_index, PortEventKind::none());
                PortCommandStep::Respond(Ok(PortResponseData::Event(event)))
            },
            PortCommandData::SetMaxSinkVoltage(voltage_mv) => PortCommandStep::Call(
                DriverCall::SetMaxSinkVoltage(local_port, voltage_mv),
            ),
            PortCommandData::SetUnconstrainedPower(unconstrained) => PortCommandStep::Call(
                DriverCall::SetUnconstrainedPower(local_port, unconstrained),
            ),
            PortCommandData::RetimerFwUpdateSetState => PortCommandStep::Call(
                DriverCall::SetRtFwUpdateState(local_port),
            ),
            PortCommandData::RetimerFwUpdateClearState => PortCommandStep::Call(
                DriverCall::ClearRtFwUpdateState(local_port),
            ),
            PortCommandData::SetRetimerCompliance => PortCommandStep::Call(
                DriverCall::SetRtCompliance(local_port),
            ),
            PortCommandData::ReconfigureRetimer => PortCommandStep::Call(
                DriverCall::ReconfigureRetimer(local_port),
            ),
            PortCommandData::ClearDeadBatteryFlag => PortCommandStep::Call(
                DriverCall::ClearDeadBatteryFlag(local_port),
            ),
            PortCommandData::ExecuteDrst => PortCommandStep::Call(
                DriverCall::ExecuteDrst(local_port),
            ),
        };
        step
    }

    /// The step for a command to the controller that handling its port
    /// command with `step` comes to.
    pub open spec fn pd_step(step: PortCommandStep) -> PdCommandStep {
        match step {
            PortCommandStep::Respond(response) => PdCommandStep::Respond(Response::Port(response)),
            PortCommandStep::Call(call) => PdCommandStep::Port(call),
        }
    }

    /// Handle a PD controller command
    ///
    /// A port command is handled as `process_port_command` says, a controller
    /// command is carried out by the driver, and a UCSI command that was
    /// passed through is answered with an error indicator.
    pub fn process_pd_command(&mut self, command: &Command) -> (step: PdCommandStep)
        requires
            old(self).wf(),
        ensures
            final(self).wf(),
            match *command {
                Command::Controller(data) => step == PdCommandStep::Controller(data) && *final(self) == *old(self),
                Command::Lpm(_) => step == PdCommandStep::Respond(
                    Response::Ucsi(
                        UcsiPassthrough {
                            cci: Cci { error: true, ..Cci::spec_default() },
                            data: None,
                        },
                    ),
                ) && *final(self) == *old(self),
                Command::Port(port_command) => exists|port_step: PortCommandStep|
                    #[trigger] final(self).port_command_processed(
                        *old(self),
                        port_command,
                        port_step,
                    ) && step == Self::pd_step(port_step),
            },
    {
        match command {
            Command::Port(command) => match self.process_port_command(command) {
                PortCommandStep::Respond(response) => PdCommandStep::Respond(
                    Response::Port(response),
                ),
                PortCommandStep::Call(call) => PdCommandStep::Port(call),
            },
            Command::Controller(command) => PdCommandStep::Controller(*command),
            Command::Lpm(_) => PdCommandStep::Respond(
                Response::Ucsi(UcsiPassthrough { cci: Cci::new_error(), data: None }),
            ),
        }
    }

    /// Check the sink ready timeout
    ///
    /// After accepting a sink contract (new contract as consumer), the PD
    /// spec guarantees that the source will be available to provide power
    /// after a fixed time. This allows handling transitions even for
    /// controllers that do not always report that the sink is ready.
    pub fn check_sink_ready_timeout(
        &mut self,
        status: &PortStatus,
        port: LocalPortId,
        new_contract: bool,
        sink_ready: bool,
        now_ms: u64,
    ) -> (r: Result<(), PdError>)
        requires
            old(self).wf(),
            now_ms + 0xffff <= u64::MAX,
        ensures
            final(self).wf(),
            final(self).spec_ports() == old(self).spec_ports(),
            final(self).spec_config() == old(self).spec_config(),
            final(self).spec_active_events() == old(self).spec_active_events(),
            final(self).spec_stage() == old(self).spec_stage(),
            final(self).spec_port_events() == old(self).spec_port_events(),
            port.0 >= old(self).spec_num_ports() ==> r == Err::<(), PdError>(PdError::InvalidPort)
                && final(self).spec_deadlines() == old(self).spec_deadlines(),
            port.0 < old(self).spec_num_ports() ==> r is Ok && final(self).spec_deadlines() == old(self).spec_deadlines().update(
                port.0 as int,
                deadline_after(
                    old(self).spec_deadlines()[port.0 as int],
                    old(self).spec_config().sink_ready,
                    *status,
                    new_contract,
                    sink_ready,
                    now_ms,
                ),
            ),
    {
        if port.0 as usize >= self.sink_ready_deadline.len() {
            return Err(PdError::InvalidPort);
        }
        let deadline = self.sink_ready_deadline[port.0 as usize];
        if new_contract && !sink_ready {
            // Start the timeout
            let timeout_ms = if status.epr {
                self.config.sink_ready.epr_ms
            } else {
                self.config.sink_ready.spr_ms
            };
            self.sink_ready_deadline.set(port.0 as usize, Some(now_ms + timeout_ms as u64));
        } else if deadline.is_some() && (!status.is_connected()
            || status.available_sink_contract.is_none() || sink_ready) {
            // Clear the timeout
            self.sink_ready_deadline.set(port.0 as usize, None);
        }
        Ok(())
    }

    /// The sink ready timeout that is reached first
    ///
    /// Returns the port with the earliest deadline, the lowest such port
    /// if several share it, and the deadline; `None` if no timeout runs.
    pub fn wait_sink_ready_timeout(&self) -> (first: Option<(LocalPortId, u64)>)
        requires
            self.wf(),
        ensures
            match first {
                Some((port, deadline)) => {
                    &&& (port.0 as int) < self.spec_num_ports()
                    &&& self.spec_deadlines()[port.0 as int] == Some(deadline)
                    &&& forall|other: int|
                        0 <= other < self.spec_num_ports() ==> match (
                        #[trigger] self.spec_deadlines()[other]) {
                            Some(d) => deadline < d || (deadline == d && port.0 <= other),
                            None => true,
                        }
                },
                None => forall|other: int|
                    0 <= other < self.spec_num_ports() ==> (
                    #[trigger] self.spec_deadlines()[other]) is None,
            },
    {
        let mut first: Option<(LocalPortId, u64)> = None;
        let mut i: usize = 0;
        while i < self.sink_ready_deadline.len()
            invariant
                i <= self.sink_ready_deadline@.len(),
                self.sink_ready_deadline@.len() <= 255,
                match first {
                    Some((port, deadline)) => {
                        &&& (port.0 as int) < i
                        &&& self.sink_ready_deadline@[port.0 as int] == Some(deadline)
                        &&& forall|other: int|
                            0 <= other < i ==> match (#[trigger] self.sink_ready_deadline@[other]) {
                                Some(d) => deadline < d || (deadline == d && port.0 <= other),
                                None => true,
                            }
                    },
                    None => forall|other: int|
                        0 <= other < i ==> (#[trigger] self.sink_ready_deadline@[other]) is None,
                },
            decreases self.sink_ready_deadline@.len() - i,
        {
            match self.sink_ready_deadline[i] {
                Some(deadline) => {
                    let earlier = match first {
                        Some((_, best)) => deadline < best,
                        None => true,
                    };
                    if earlier {
                        first = Some((LocalPortId(i as u8), deadline));
                    }
                },
                None => {},
            }
            i += 1;
        }
        first
    }

    /// Note that the sink ready timeout of a port was reached
    ///
    /// If the port's deadline has come at `now_ms`, the timeout is cleared
    /// and `true` returned. Reaching the timeout is no error: it tells
    /// whoever waits for the source that the wait is over.
    pub fn sink_ready_timeout_reached(&mut self, port: LocalPortId, now_ms: u64) -> (reached: bool)
        requires
            old(self).wf(),
        ensures
            final(self).wf(),
            final(self).spec_ports() == old(self).spec_ports(),
            final(self).spec_config() == old(self).spec_config(),
            final(self).spec_active_events() == old(self).spec_active_events(),
            final(self).spec_stage() == old(self).spec_stage(),
            final(self).spec_port_events() == old(self).spec_port_events(),
            reached == deadline_reached(old(self).spec_deadlines(), port.0 as int, now_ms),
            reached ==> final(self).spec_deadlines() == old(self).spec_deadlines().update(
                port.0 as int,
                None,
            ),
            !reached ==> final(self).spec_deadlines() == old(self).spec_deadlines(),
    {
        if port.0 as usize >= self.sink_ready_deadline.len() {
            return false;
        }
        match self.sink_ready_deadline[port.0 as usize] {
            Some(deadline) => {
                if deadline <= now_ms {
                    self.sink_ready_deadline.set(port.0 as usize, None);
                    true
                } else {
                    false
                }
            },
            None => false,
        }
    }

    /// Keep a condition for a local port and give the ports to signal to the service
    fn pend_condition(&mut self, port: LocalPortId, condition: usize, refused: PdError) -> (r:
        Result<PortPending, PdError>)
        requires
            old(self).wf(),
            condition < 32,
        ensures
            final(self).condition_kept(*old(self), port, condition, refused, r),
    {
        let global_port_id = match self.pd_controller.lookup_global_port(port) {
            Ok(global) => global,
            Err(_) => {
                return Err(refused);
            },
        };
        let port_index = port.0 as usize;
        let mut events = self.active_events[port_index];
        events.set(condition, true);
        self.active_events.set(port_index, events);
        let mut pending = PortPending::none();
        pending.pend_port(global_port_id.0 as usize);
        Ok(pending)
    }

    /// `self` is `before` after `condition` was kept for local port `port`;
    /// `r` holds the one port to signal to the service. A port that is not
    /// the controller's is refused with `refused` and nothing changes.
    pub open spec fn condition_kept(
        &self,
        before: Self,
        port: LocalPortId,
        condition: usize,
        refused: PdError,
        r: Result<PortPending, PdError>,
    ) -> bool {
        &&& self.wf()
        &&& self.spec_ports() == before.spec_ports()
        &&& self.spec_config() == before.spec_config()
        &&& self.spec_deadlines() == before.spec_deadlines()
        &&& self.spec_stage() == before.spec_stage()
        &&& self.spec_port_events() == before.spec_port_events()
        &&& if (port.0 as int) < before.spec_num_ports() {
            &&& r matches Ok(pending)
            &&& forall|other: int| #[trigger]
                pending.contains(other) == (other == before.spec_ports()[port.0 as int].0)
            &&& self.spec_active_events().len() == before.spec_active_events().len()
            &&& forall|local: int|
                0 <= local < before.spec_num_ports() && local != port.0
                    ==> #[trigger] self.spec_active_events()[local]
                    == before.spec_active_events()[local]
            &&& forall|bit: usize|
                bit < 32 ==> #[trigger] self.spec_active_events()[port.0 as int].has(bit) == (bit
                    == condition || before.spec_active_events()[port.0 as int].has(bit))
        } else {
            &&& r == Err::<PortPending, PdError>(refused)
            &&& self.spec_active_events() == before.spec_active_events()
        }
    }

    /// Finalize a VDM output by notifying the service
    ///
    /// The notification joins the events of the port that the service has
    /// not fetched, and the port's global port is to be signaled.
    pub fn finalize_vdm(&mut self, port: LocalPortId, kind: VdmNotification) -> (r: Result<
        PortPending,
        PdError,
    >)
        requires
            old(self).wf(),
        ensures
            final(self).condition_kept(
                *old(self),
                port,
                vdm_condition(kind),
                PdError::InvalidParams,
                r,
            ),
    {
        let condition = match kind {
            VdmNotification::Entered => CUSTOM_MODE_ENTERED,
            VdmNotification::Exited => CUSTOM_MODE_EXITED,
            VdmNotification::OtherReceived => CUSTOM_MODE_OTHER_VDM_RECEIVED,
            VdmNotification::AttentionReceived => CUSTOM_MODE_ATTENTION_RECEIVED,
        };
        self.pend_condition(port, condition, PdError::InvalidParams)
    }

    /// Finalize a Discover Mode output by notifying the service
    pub fn finalize_disc_mode_completed(&mut self, port: LocalPortId) -> (r: Result<
        PortPending,
        PdError,
    >)
        requires
            old(self).wf(),
        ensures
            final(self).condition_kept(
                *old(self),
                port,
                DISCOVER_MODE_COMPLETED,
                PdError::InvalidPort,
                r,
            ),
    {
        self.pend_condition(port, DISCOVER_MODE_COMPLETED, PdError::InvalidPort)
    }
}

} // verus!
