use embedded_services::power::policy;
use embedded_services::power::policy::{PowerCapability, StateKind};
use embedded_services::type_c::controller::{
    Command, Contract, Device, InternalCommandData, InternalResponseData, PortCommand,
    PortCommandData, PortResponseData, PortStatus, Response, UcsiPassthrough,
};
use embedded_services::type_c::event::{
    PortEventKind, PortPending, VdmNotification, CUSTOM_MODE_ATTENTION_RECEIVED,
    CUSTOM_MODE_ENTERED, DISCOVER_MODE_COMPLETED, NEW_POWER_CONTRACT_AS_CONSUMER,
    PLUG_INSERTED_OR_REMOVED, SINK_READY,
};
use embedded_services::type_c::ucsi::lpm;
use embedded_services::type_c::ucsi::Cci;
use embedded_services::type_c::wrapper::config::{Config, SinkReadyTimeouts, UnconstrainedSink};
use embedded_services::type_c::wrapper::{
    port_action_response, power_command_response, process_controller_command,
    process_get_port_status, process_new_consumer_contract, process_plug_event,
    process_power_command, process_set_max_sink_voltage, process_vdm_event, ControllerWrapper,
    DriverCall, EventAction, EventInput, PdCommandStep, PortCommandStep, PowerAction, PowerPlan,
    VdmFetch,
};
use embedded_services::type_c::{
    to_response_error, Cached, ControllerId, Error, GlobalPortId, LocalPortId, PdError,
};

const SPR_MS: u16 = 35;
const EPR_MS: u16 = 950;

fn wrapper_config() -> Config {
    Config::with_timeouts(SinkReadyTimeouts { spr_ms: SPR_MS, epr_ms: EPR_MS })
}

fn wrapper(ports: [u8; 2]) -> ControllerWrapper {
    let device = Device::new(ControllerId(0), &[GlobalPortId(ports[0]), GlobalPortId(ports[1])]).unwrap();
    ControllerWrapper::new(device, wrapper_config()).unwrap()
}

fn event(bits: &[usize]) -> PortEventKind {
    let mut event = PortEventKind::none();
    for bit in bits {
        event.set(*bit, true);
    }
    event
}

fn sink(voltage_mv: u16, current_ma: u16) -> PortStatus {
    PortStatus {
        contract: Some(Contract::Sink(PowerCapability { voltage_mv, current_ma })),
        connection_present: true,
        available_sink_contract: Some(PowerCapability { voltage_mv, current_ma }),
        ..PortStatus::new()
    }
}

#[test]
fn plug_event_plans() {
    let connected = PortStatus { connection_present: true, ..PortStatus::new() };
    let disconnected = PortStatus::new();
    assert_eq!(process_plug_event(StateKind::Detached, &connected), PowerPlan::one(PowerAction::Attach));
    for kind in [StateKind::Idle, StateKind::ConnectedConsumer, StateKind::ConnectedProvider] {
        assert_eq!(
            process_plug_event(kind, &connected),
            PowerPlan::two(PowerAction::Detach, PowerAction::Attach)
        );
    }
    for kind in
        [StateKind::Detached, StateKind::Idle, StateKind::ConnectedConsumer, StateKind::ConnectedProvider]
    {
        assert_eq!(process_plug_event(kind, &disconnected), PowerPlan::one(PowerAction::Detach));
    }
}

#[test]
fn new_consumer_contract_plans() {
    let capability = PowerCapability { voltage_mv: 20000, current_ma: 5000 };
    let status = sink(20000, 5000);
    let notify = PowerAction::NotifyConsumerPowerCapability(capability);
    assert_eq!(
        process_new_consumer_contract(StateKind::Detached, &status),
        PowerPlan::two(PowerAction::Attach, notify)
    );
    assert_eq!(process_new_consumer_contract(StateKind::Idle, &status), PowerPlan::one(notify));
    assert_eq!(process_new_consumer_contract(StateKind::ConnectedConsumer, &status), PowerPlan::one(notify));
    // Providing power: nothing is changed
    assert_eq!(process_new_consumer_contract(StateKind::ConnectedProvider, &status), PowerPlan::none());
    assert!(process_new_consumer_contract(StateKind::ConnectedProvider, &status).is_empty());
    // No contract, or a source contract
    assert_eq!(process_new_consumer_contract(StateKind::Idle, &PortStatus::new()), PowerPlan::none());
    let source = PortStatus { contract: Some(Contract::Source(capability)), ..PortStatus::new() };
    assert_eq!(process_new_consumer_contract(StateKind::Idle, &source), PowerPlan::none());
    assert_eq!(capability.max_power_mw(), 100_000);
    assert_eq!(PowerCapability { voltage_mv: 65535, current_ma: 65535 }.max_power_mw(), 4_294_836);
    assert_eq!(Contract::Sink(capability).capability(), capability);
}

#[test]
fn failed_action_ends_plan() {
    let plan = PowerPlan::two(PowerAction::Detach, PowerAction::Attach);
    assert_eq!(plan.after(true), PowerPlan::one(PowerAction::Attach));
    assert_eq!(plan.after(false), PowerPlan::none());
    assert_eq!(PowerPlan::one(PowerAction::Attach).after(true), PowerPlan::none());
    assert_eq!(PowerPlan::one(PowerAction::Attach).after(false), PowerPlan::none());
    assert_eq!(PowerPlan::none().after(true), PowerPlan::none());
    assert!(!plan.is_empty());
    assert!(plan.after(true).after(true).is_empty());
}

#[test]
fn power_commands_get_exactly_one_response() {
    let capability = PowerCapability { voltage_mv: 5000, current_ma: 3000 };
    assert_eq!(process_power_command(&policy::RequestData::ConnectConsumer(capability)), Some(true));
    assert_eq!(process_power_command(&policy::RequestData::Disconnect), Some(false));
    assert_eq!(process_power_command(&policy::RequestData::ConnectProvider(capability)), None);

    assert_eq!(power_command_response::<u8>(None), Ok(policy::ResponseData::Complete));
    assert_eq!(power_command_response::<u8>(Some(Ok(()))), Ok(policy::ResponseData::Complete));
    assert_eq!(power_command_response(Some(Err(Error::Bus(3u8)))), Err(policy::Error::Failed));
    assert_eq!(
        power_command_response::<u8>(Some(Err(Error::Pd(PdError::Busy)))),
        Err(policy::Error::Failed)
    );
}

#[test]
fn driver_errors_become_response_errors() {
    assert_eq!(to_response_error(Error::Bus(1u8)), PdError::Failed);
    assert_eq!(to_response_error::<u8>(Error::Pd(PdError::Timeout)), PdError::Timeout);
    let status = sink(9000, 2000);
    assert_eq!(process_get_port_status::<u8>(Ok(status)), Ok(PortResponseData::PortStatus(status)));
    assert_eq!(process_get_port_status(Err(Error::Bus(1u8))), Err(PdError::Failed));
    assert_eq!(process_get_port_status::<u8>(Err(Error::Pd(PdError::InvalidMode))), Err(PdError::InvalidMode));
    assert_eq!(port_action_response::<u8>(Ok(())), Ok(PortResponseData::Complete));
    assert_eq!(port_action_response(Err(Error::Bus(1u8))), Err(PdError::Failed));
    assert_eq!(port_action_response::<u8>(Err(Error::Pd(PdError::Busy))), Err(PdError::Busy));
    assert_eq!(
        process_controller_command::<u8>(Ok(InternalResponseData::Complete)),
        Ok(InternalResponseData::Complete)
    );
    assert_eq!(process_controller_command::<u8>(Err(Error::Pd(PdError::Busy))), Err(PdError::Failed));
    assert_eq!(PortResponseData::Complete.complete_or_err(), Ok(()));
    assert_eq!(PortResponseData::PortStatus(status).complete_or_err(), Err(PdError::InvalidResponse));
}

#[test]
fn new_wrapper_refuses_ports_beyond_bitmap() {
    let device = Device::new(ControllerId(0), &[GlobalPortId(31), GlobalPortId(32)]).unwrap();
    assert!(matches!(ControllerWrapper::new(device, wrapper_config()), Err(PdError::InvalidPort)));
    let wrapper = wrapper([30, 31]);
    assert_eq!(wrapper.num_ports(), 2);
    assert_eq!(wrapper.active_events(LocalPortId(0)), Some(PortEventKind::none()));
    assert_eq!(wrapper.active_events(LocalPortId(2)), None);
    assert_eq!(wrapper.sink_ready_deadline(LocalPortId(1)), None);
    assert_eq!(wrapper_config().unconstrained_sink, UnconstrainedSink::Auto);
}

#[test]
fn event_pass_processes_ports_in_ascending_order() {
    let mut wrapper = wrapper([4, 9]);
    let both = event(&[PLUG_INSERTED_OR_REMOVED, NEW_POWER_CONTRACT_AS_CONSUMER]);
    let status = sink(20000, 5000);
    let capability = PowerCapability { voltage_mv: 20000, current_ma: 5000 };

    assert_eq!(wrapper.process_event(EventInput::Begin), EventAction::ClearPortEvents(LocalPortId(0)));
    assert_eq!(
        wrapper.process_event(EventInput::PortEvents(Some(both))),
        EventAction::GetPortStatus(LocalPortId(0))
    );
    // The plug event comes first
    assert_eq!(
        wrapper.process_event(EventInput::PortStatus(Some(status), StateKind::ConnectedProvider)),
        EventAction::Power(LocalPortId(0), PowerPlan::two(PowerAction::Detach, PowerAction::Attach))
    );
    // The events are kept only when the port is done
    assert_eq!(wrapper.active_events(LocalPortId(0)), Some(PortEventKind::none()));
    // Then the contract, from the state that the plug event left
    assert_eq!(
        wrapper.process_event(EventInput::PowerDone(StateKind::Idle, true)),
        EventAction::Power(
            LocalPortId(0),
            PowerPlan::one(PowerAction::NotifyConsumerPowerCapability(capability))
        )
    );
    assert_eq!(
        wrapper.process_event(EventInput::PowerDone(StateKind::Idle, true)),
        EventAction::ClearPortEvents(LocalPortId(1))
    );
    assert_eq!(wrapper.active_events(LocalPortId(0)), Some(both));

    // Second port: an event without plug or contract
    let ready = event(&[SINK_READY]);
    assert_eq!(
        wrapper.process_event(EventInput::PortEvents(Some(ready))),
        EventAction::GetPortStatus(LocalPortId(1))
    );
    assert_eq!(
        wrapper.process_event(EventInput::PortStatus(Some(status), StateKind::Idle)),
        EventAction::NotifyPorts(PortPending(1 << 4 | 1 << 9))
    );
    assert_eq!(wrapper.active_events(LocalPortId(1)), Some(ready));
}

#[test]
fn event_pass_skips_ports_without_events_or_with_failures() {
    let mut wrapper = wrapper([0, 1]);
    assert_eq!(wrapper.process_event(EventInput::Begin), EventAction::ClearPortEvents(LocalPortId(0)));
    // The driver failed to read the events
    assert_eq!(wrapper.process_event(EventInput::PortEvents(None)), EventAction::ClearPortEvents(LocalPortId(1)));
    // No event
    assert_eq!(
        wrapper.process_event(EventInput::PortEvents(Some(PortEventKind::none()))),
        EventAction::NotifyPorts(PortPending::none())
    );

    // The status could not be read: the port is signaled, its events are not kept
    let plug = event(&[PLUG_INSERTED_OR_REMOVED]);
    assert_eq!(wrapper.process_event(EventInput::Begin), EventAction::ClearPortEvents(LocalPortId(0)));
    assert_eq!(wrapper.process_event(EventInput::PortEvents(Some(plug))), EventAction::GetPortStatus(LocalPortId(0)));
    assert_eq!(
        wrapper.process_event(EventInput::PortStatus(None, StateKind::Detached)),
        EventAction::ClearPortEvents(LocalPortId(1))
    );
    assert_eq!(wrapper.process_event(EventInput::PortEvents(None)), EventAction::NotifyPorts(PortPending(1)));
    assert_eq!(wrapper.active_events(LocalPortId(0)), Some(PortEventKind::none()));
}

#[test]
fn event_pass_handles_contract_without_plug_and_unexpected_input() {
    let mut wrapper = wrapper([0, 1]);
    let contract = event(&[NEW_POWER_CONTRACT_AS_CONSUMER]);
    let capability = PowerCapability { voltage_mv: 9000, current_ma: 3000 };
    // Nothing is running
    assert_eq!(wrapper.process_event(EventInput::PowerDone(StateKind::Idle, true)), EventAction::Unexpected);
    assert_eq!(wrapper.process_event(EventInput::PortEvents(Some(contract))), EventAction::Unexpected);

    wrapper.process_event(EventInput::Begin);
    assert_eq!(
        wrapper.process_event(EventInput::PortStatus(Some(sink(9000, 3000)), StateKind::Idle)),
        EventAction::Unexpected
    );
    wrapper.process_event(EventInput::PortEvents(Some(contract)));
    assert_eq!(
        wrapper.process_event(EventInput::PortStatus(Some(sink(9000, 3000)), StateKind::Detached)),
        EventAction::Power(
            LocalPortId(0),
            PowerPlan::two(PowerAction::Attach, PowerAction::NotifyConsumerPowerCapability(capability))
        )
    );
    assert_eq!(
        wrapper.process_event(EventInput::PowerDone(StateKind::Idle, true)),
        EventAction::ClearPortEvents(LocalPortId(1))
    );
    // A new batch may begin at any time and starts over
    assert_eq!(wrapper.process_event(EventInput::Begin), EventAction::ClearPortEvents(LocalPortId(0)));
    assert_eq!(wrapper.process_event(EventInput::PortEvents(None)), EventAction::ClearPortEvents(LocalPortId(1)));
    assert_eq!(wrapper.process_event(EventInput::PortEvents(None)), EventAction::NotifyPorts(PortPending::none()));
}

#[test]
fn failed_plug_plan_leaves_contract_alone() {
    let mut wrapper = wrapper([0, 1]);
    let both = event(&[PLUG_INSERTED_OR_REMOVED, NEW_POWER_CONTRACT_AS_CONSUMER]);
    wrapper.process_event(EventInput::Begin);
    wrapper.process_event(EventInput::PortEvents(Some(both)));
    assert_eq!(
        wrapper.process_event(EventInput::PortStatus(Some(sink(5000, 3000)), StateKind::Detached)),
        EventAction::Power(LocalPortId(0), PowerPlan::one(PowerAction::Attach))
    );
    // The attach failed: the port is done for this pass, its events are kept
    assert_eq!(
        wrapper.process_event(EventInput::PowerDone(StateKind::Detached, false)),
        EventAction::ClearPortEvents(LocalPortId(1))
    );
    assert_eq!(wrapper.active_events(LocalPortId(0)), Some(both));
}

#[test]
fn plug_event_only_finishes_after_its_plan() {
    let mut wrapper = wrapper([2, 3]);
    let plug = event(&[PLUG_INSERTED_OR_REMOVED]);
    wrapper.process_event(EventInput::Begin);
    wrapper.process_event(EventInput::PortEvents(Some(plug)));
    assert_eq!(
        wrapper.process_event(EventInput::PortStatus(Some(PortStatus::new()), StateKind::ConnectedConsumer)),
        EventAction::Power(LocalPortId(0), PowerPlan::one(PowerAction::Detach))
    );
    assert_eq!(
        wrapper.process_event(EventInput::PowerDone(StateKind::Detached, true)),
        EventAction::ClearPortEvents(LocalPortId(1))
    );
    assert_eq!(wrapper.active_events(LocalPortId(0)), Some(plug));
}

#[test]
fn get_event_returns_and_clears_active_events() {
    let mut wrapper = wrapper([4, 9]);
    let ready = event(&[SINK_READY]);
    wrapper.process_event(EventInput::Begin);
    wrapper.process_event(EventInput::PortEvents(None));
    wrapper.process_event(EventInput::PortEvents(Some(ready)));
    wrapper.process_event(EventInput::PortStatus(Some(PortStatus::new()), StateKind::Idle));

    let get_event = PortCommand { port: GlobalPortId(9), data: PortCommandData::GetEvent };
    assert_eq!(
        wrapper.process_port_command(&get_event),
        PortCommandStep::Respond(Ok(PortResponseData::Event(ready)))
    );
    assert_eq!(
        wrapper.process_port_command(&get_event),
        PortCommandStep::Respond(Ok(PortResponseData::Event(PortEventKind::none())))
    );
    let unknown = PortCommand { port: GlobalPortId(5), data: PortCommandData::GetEvent };
    assert_eq!(wrapper.process_port_command(&unknown), PortCommandStep::Respond(Err(PdError::InvalidPort)));
}

#[test]
fn port_commands_come_to_driver_calls() {
    let mut wrapper = wrapper([4, 9]);
    let local = LocalPortId(1);
    let cases = [
        (PortCommandData::PortStatus(Cached(false)), DriverCall::GetPortStatus(local)),
        (PortCommandData::PortStatus(Cached(true)), DriverCall::GetPortStatus(local)),
        (PortCommandData::SetMaxSinkVoltage(Some(9000)), DriverCall::SetMaxSinkVoltage(local, Some(9000))),
        (PortCommandData::SetMaxSinkVoltage(None), DriverCall::SetMaxSinkVoltage(local, None)),
        (PortCommandData::SetUnconstrainedPower(true), DriverCall::SetUnconstrainedPower(local, true)),
        (PortCommandData::RetimerFwUpdateSetState, DriverCall::SetRtFwUpdateState(local)),
        (PortCommandData::RetimerFwUpdateClearState, DriverCall::ClearRtFwUpdateState(local)),
        (PortCommandData::SetRetimerCompliance, DriverCall::SetRtCompliance(local)),
        (PortCommandData::ReconfigureRetimer, DriverCall::ReconfigureRetimer(local)),
        (PortCommandData::ClearDeadBatteryFlag, DriverCall::ClearDeadBatteryFlag(local)),
        (PortCommandData::ExecuteDrst, DriverCall::ExecuteDrst(local)),
    ];
    for (data, call) in cases {
        let command = PortCommand { port: GlobalPortId(9), data };
        assert_eq!(wrapper.process_port_command(&command), PortCommandStep::Call(call));
        assert_eq!(wrapper.process_pd_command(&Command::Port(command)), PdCommandStep::Port(call));
        let unknown = PortCommand { port: GlobalPortId(0), data };
        assert_eq!(
            wrapper.process_pd_command(&Command::Port(unknown)),
            PdCommandStep::Respond(Response::Port(Err(PdError::InvalidPort)))
        );
    }
}

#[test]
fn pd_commands_are_dispatched() {
    let mut wrapper = wrapper([0, 1]);
    for data in [InternalCommandData::Reset, InternalCommandData::Status, InternalCommandData::SyncState] {
        assert_eq!(wrapper.process_pd_command(&Command::Controller(data)), PdCommandStep::Controller(data));
    }
    let lpm = lpm::Command { port: GlobalPortId(0), operation: lpm::CommandData::GetConnectorStatus };
    assert_eq!(
        wrapper.process_pd_command(&Command::Lpm(lpm)),
        PdCommandStep::Respond(Response::Ucsi(UcsiPassthrough { cci: Cci::new_error(), data: None }))
    );
}

#[test]
fn max_sink_voltage_disconnects_consumer_above_limit() {
    let capability = Some(PowerCapability { voltage_mv: 15000, current_ma: 3000 });
    assert!(process_set_max_sink_voltage(StateKind::ConnectedConsumer, capability, Some(9000)));
    assert!(process_set_max_sink_voltage(StateKind::ConnectedConsumer, capability, Some(14999)));
    assert!(!process_set_max_sink_voltage(StateKind::ConnectedConsumer, capability, Some(15000)));
    assert!(!process_set_max_sink_voltage(StateKind::ConnectedConsumer, capability, Some(20000)));
    assert!(!process_set_max_sink_voltage(StateKind::ConnectedConsumer, capability, None));
    assert!(!process_set_max_sink_voltage(StateKind::ConnectedConsumer, None, Some(9000)));
    assert!(!process_set_max_sink_voltage(StateKind::Idle, capability, Some(9000)));
    assert!(!process_set_max_sink_voltage(StateKind::ConnectedProvider, capability, Some(9000)));
    assert!(!process_set_max_sink_voltage(StateKind::Detached, capability, Some(9000)));
}

#[test]
fn sink_ready_timeout_fires_without_error() {
    let mut wrapper = wrapper([0, 1]);
    let status = sink(20000, 5000);
    let now = 1_000;
    // A consumer contract is accepted, the controller does not report sink ready
    assert_eq!(wrapper.check_sink_ready_timeout(&status, LocalPortId(1), true, false, now), Ok(()));
    let deadline = now + SPR_MS as u64;
    assert_eq!(wrapper.sink_ready_deadline(LocalPortId(1)), Some(deadline));
    assert_eq!(wrapper.sink_ready_deadline(LocalPortId(0)), None);
    assert_eq!(wrapper.wait_sink_ready_timeout(), Some((LocalPortId(1), deadline)));

    // Events without news leave the deadline alone
    assert_eq!(wrapper.check_sink_ready_timeout(&status, LocalPortId(1), false, false, now + 10), Ok(()));
    assert_eq!(wrapper.sink_ready_deadline(LocalPortId(1)), Some(deadline));

    // Before the deadline nothing fires
    assert!(!wrapper.sink_ready_timeout_reached(LocalPortId(1), deadline - 1));
    assert_eq!(wrapper.sink_ready_deadline(LocalPortId(1)), Some(deadline));
    assert!(!wrapper.sink_ready_timeout_reached(LocalPortId(0), deadline));
    assert!(!wrapper.sink_ready_timeout_reached(LocalPortId(2), deadline));
    // At the deadline it fires once and is cleared
    assert!(wrapper.sink_ready_timeout_reached(LocalPortId(1), deadline));
    assert_eq!(wrapper.sink_ready_deadline(LocalPortId(1)), None);
    assert!(!wrapper.sink_ready_timeout_reached(LocalPortId(1), deadline + 1));
    assert_eq!(wrapper.wait_sink_ready_timeout(), None);
}

#[test]
fn sink_ready_timeout_uses_epr_time_and_is_cleared() {
    let mut wrapper = wrapper([0, 1]);
    let epr = PortStatus { epr: true, ..sink(28000, 5000) };
    assert_eq!(wrapper.check_sink_ready_timeout(&epr, LocalPortId(0), true, false, 50), Ok(()));
    assert_eq!(wrapper.sink_ready_deadline(LocalPortId(0)), Some(50 + EPR_MS as u64));
    // Sink ready clears it
    assert_eq!(wrapper.check_sink_ready_timeout(&epr, LocalPortId(0), false, true, 60), Ok(()));
    assert_eq!(wrapper.sink_ready_deadline(LocalPortId(0)), None);

    // A new contract with sink ready at once starts nothing
    assert_eq!(wrapper.check_sink_ready_timeout(&epr, LocalPortId(0), true, true, 70), Ok(()));
    assert_eq!(wrapper.sink_ready_deadline(LocalPortId(0)), None);

    // Disconnection clears it
    wrapper.check_sink_ready_timeout(&epr, LocalPortId(0), true, false, 100).unwrap();
    assert_eq!(wrapper.check_sink_ready_timeout(&PortStatus::new(), LocalPortId(0), false, false, 110), Ok(()));
    assert_eq!(wrapper.sink_ready_deadline(LocalPortId(0)), None);

    // Losing the sink contract clears it
    wrapper.check_sink_ready_timeout(&epr, LocalPortId(0), true, false, 100).unwrap();
    let no_contract = PortStatus { available_sink_contract: None, ..epr };
    assert_eq!(wrapper.check_sink_ready_timeout(&no_contract, LocalPortId(0), false, false, 110), Ok(()));
    assert_eq!(wrapper.sink_ready_deadline(LocalPortId(0)), None);

    assert_eq!(
        wrapper.check_sink_ready_timeout(&epr, LocalPortId(2), true, false, 0),
        Err(PdError::InvalidPort)
    );
}

#[test]
fn earliest_sink_ready_deadline_is_waited_for() {
    let mut wrapper = wrapper([0, 1]);
    let status = sink(5000, 3000);
    wrapper.check_sink_ready_timeout(&status, LocalPortId(0), true, false, 500).unwrap();
    wrapper.check_sink_ready_timeout(&status, LocalPortId(1), true, false, 100).unwrap();
    assert_eq!(wrapper.wait_sink_ready_timeout(), Some((LocalPortId(1), 100 + SPR_MS as u64)));
    wrapper.check_sink_ready_timeout(&status, LocalPortId(1), true, false, 500).unwrap();
    // Equal deadlines: the lower port
    assert_eq!(wrapper.wait_sink_ready_timeout(), Some((LocalPortId(0), 500 + SPR_MS as u64)));
}

#[test]
fn vdm_notifications_are_kept_and_signaled() {
    assert_eq!(process_vdm_event(VdmNotification::Entered), VdmFetch::Other);
    assert_eq!(process_vdm_event(VdmNotification::Exited), VdmFetch::Other);
    assert_eq!(process_vdm_event(VdmNotification::OtherReceived), VdmFetch::Other);
    assert_eq!(process_vdm_event(VdmNotification::AttentionReceived), VdmFetch::Attention);

    let mut wrapper = wrapper([6, 2]);
    assert_eq!(wrapper.finalize_vdm(LocalPortId(0), VdmNotification::Entered), Ok(PortPending(1 << 6)));
    assert_eq!(
        wrapper.finalize_vdm(LocalPortId(0), VdmNotification::AttentionReceived),
        Ok(PortPending(1 << 6))
    );
    assert_eq!(
        wrapper.active_events(LocalPortId(0)),
        Some(event(&[CUSTOM_MODE_ENTERED, CUSTOM_MODE_ATTENTION_RECEIVED]))
    );
    assert_eq!(wrapper.finalize_disc_mode_completed(LocalPortId(1)), Ok(PortPending(1 << 2)));
    assert_eq!(wrapper.active_events(LocalPortId(1)), Some(event(&[DISCOVER_MODE_COMPLETED])));
    assert_eq!(wrapper.finalize_vdm(LocalPortId(2), VdmNotification::Exited), Err(PdError::InvalidParams));
    assert_eq!(wrapper.finalize_disc_mode_completed(LocalPortId(9)), Err(PdError::InvalidPort));
}
