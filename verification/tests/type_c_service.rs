use embedded_services::power::policy::{
    CommsData, DeviceId, PowerCapability, UnconstrainedState, WaitResult,
};
use embedded_services::type_c::comms::{DebugAccessoryMessage, UcsiCiMessage};
use embedded_services::type_c::controller::{
    Contract, ControllerStatus, InternalCommandData, PortCommand, PortCommandData,
    PortResponseData, PortStatus,
};
use embedded_services::type_c::event::{
    PortEventKind, PortPending, ALERT, CUSTOM_MODE_ENTERED, PLUG_INSERTED_OR_REMOVED,
};
use embedded_services::type_c::external;
use embedded_services::type_c::service::config::Config;
use embedded_services::type_c::service::ucsi::{UcsiResponse, UcsiStep};
use embedded_services::type_c::service::{
    process_external_controller_reset, process_external_controller_status,
    process_external_controller_sync_state, wait_power_policy_event, Event, EventAction, ExternalAction, PortEventOutcome, PortEventStreamer, PortEventVariant,
    PowerPolicyEvent, Service, StreamStep, WaitStep, MAX_SUPPORTED_PORTS,
};
use embedded_services::type_c::ucsi::{
    Capabilities, GlobalCommand, NotificationEnable, PpmCommand, PpmInput, PpmOutput,
};
use embedded_services::type_c::{Cached, ControllerId, GlobalPortId, PdError};

fn config() -> Config {
    Config {
        ucsi_capabilities: Capabilities {
            attributes: 0,
            num_connectors: 0,
            optional_features: 0,
            num_alt_modes: 0,
            bcd_bc_version: 0,
            bcd_pd_version: 0,
            bcd_usb_type_c_version: 0,
        },
        ucsi_port_capabilities: None,
    }
}

fn plug() -> PortEventKind {
    let mut event = PortEventKind::none();
    event.set(PLUG_INSERTED_OR_REMOVED, true);
    event
}

fn connected(debug: bool) -> PortStatus {
    PortStatus { connection_present: true, debug_connection: debug, ..PortStatus::new() }
}

fn unconstrained_consumer() -> PortStatus {
    PortStatus {
        connection_present: true,
        available_sink_contract: Some(PowerCapability { voltage_mv: 20000, current_ma: 3000 }),
        unconstrained_power: true,
        ..PortStatus::new()
    }
}

fn enable_connect_change(service: &mut Service) {
    let mut enable = NotificationEnable::new();
    enable.connect_change = true;
    let mut response = UcsiResponse::new();
    let step = service.process_ucsi_command(
        2,
        Ok(Some(PpmOutput::ExecuteCommand(GlobalCommand::PpmCommand(
            PpmCommand::SetNotificationEnable(enable),
        )))),
        &mut response,
    );
    assert_eq!(step, UcsiStep::Consume(PpmInput::CommandComplete));
}

#[test]
fn new_service_caches_default_status() {
    let service = Service::create(config());
    assert_eq!(service.config(), config());
    assert!(!service.streaming());
    for port in 0..MAX_SUPPORTED_PORTS {
        assert_eq!(service.get_cached_port_status(GlobalPortId(port as u8)), Ok(PortStatus::default()));
    }
    assert_eq!(service.get_cached_port_status(GlobalPortId(4)), Err(PdError::InvalidPort));
    assert_eq!(service.get_cached_port_status(GlobalPortId(255)), Err(PdError::InvalidPort));
}

#[test]
fn cache_holds_most_recent_status_of_each_port() {
    let mut service = Service::create(config());
    let first = connected(false);
    let second = PortStatus {
        contract: Some(Contract::Source(PowerCapability { voltage_mv: 5000, current_ma: 900 })),
        ..connected(false)
    };
    let third = PortStatus::new();
    assert!(service.process_port_event(GlobalPortId(1), plug(), first).is_ok());
    assert!(service.process_port_event(GlobalPortId(2), plug(), second).is_ok());
    assert!(service.process_port_event(GlobalPortId(1), plug(), second).is_ok());
    assert!(service.process_port_event(GlobalPortId(1), plug(), third).is_ok());
    assert_eq!(service.get_cached_port_status(GlobalPortId(0)), Ok(PortStatus::default()));
    assert_eq!(service.get_cached_port_status(GlobalPortId(1)), Ok(third));
    assert_eq!(service.get_cached_port_status(GlobalPortId(2)), Ok(second));
    assert_eq!(service.get_cached_port_status(GlobalPortId(3)), Ok(PortStatus::default()));
}

#[test]
fn status_change_of_unsupported_port_is_refused() {
    let mut service = Service::create(config());
    enable_connect_change(&mut service);
    let r = service.process_port_event(GlobalPortId(4), plug(), connected(true));
    assert_eq!(r, Err(PdError::InvalidPort));
    assert_eq!(service.set_cached_port_status(GlobalPortId(4), connected(true)), Err(PdError::InvalidPort));
    for port in 0..4u8 {
        assert_eq!(service.get_cached_port_status(GlobalPortId(port)), Ok(PortStatus::default()));
    }
    assert!(!service.ucsi().is_pending(4));
    assert_eq!(
        service.process_event(Event::PortStatusChanged(GlobalPortId(9), plug(), connected(true)), 2),
        Err(PdError::InvalidPort)
    );
}

#[test]
fn debug_accessory_is_reported_on_connectedness_transition_only() {
    let mut service = Service::create(config());
    // Connects as debug accessory
    let outcome = service.process_port_event(GlobalPortId(0), plug(), connected(true)).unwrap();
    assert_eq!(
        outcome.debug_accessory,
        Some(DebugAccessoryMessage { port: GlobalPortId(0), connected: true })
    );
    // Stays connected: no message
    let outcome = service.process_port_event(GlobalPortId(0), plug(), connected(true)).unwrap();
    assert_eq!(outcome.debug_accessory, None);
    // Disconnects: the old status shows the accessory
    let outcome = service.process_port_event(GlobalPortId(0), plug(), PortStatus::new()).unwrap();
    assert_eq!(
        outcome.debug_accessory,
        Some(DebugAccessoryMessage { port: GlobalPortId(0), connected: false })
    );
    // An ordinary partner connects: no message
    let outcome = service.process_port_event(GlobalPortId(0), plug(), connected(false)).unwrap();
    assert_eq!(outcome, PortEventOutcome { debug_accessory: None, ucsi: None });
}

#[test]
fn status_change_feeds_ucsi() {
    let mut service = Service::create(config());
    enable_connect_change(&mut service);
    let action = service.process_event(Event::PortStatusChanged(GlobalPortId(3), plug(), connected(false)), 4);
    assert_eq!(
        action,
        Ok(EventAction::Broadcast(PortEventOutcome {
            debug_accessory: None,
            ucsi: Some(UcsiCiMessage { port: GlobalPortId(3), notify_opm: true }),
        }))
    );
    assert!(service.ucsi().is_pending(3));
    assert_eq!(service.get_cached_port_status(GlobalPortId(3)), Ok(connected(false)));
}

#[test]
fn notification_leaves_cache_alone() {
    let mut service = Service::create(config());
    service.set_cached_port_status(GlobalPortId(1), connected(false)).unwrap();
    let mut notification = PortEventKind::none();
    notification.set(ALERT, true);
    let action = service.process_event(Event::PortNotification(GlobalPortId(1), notification), 4);
    assert_eq!(action, Ok(EventAction::Nothing));
    assert_eq!(service.get_cached_port_status(GlobalPortId(1)), Ok(connected(false)));
}

#[test]
fn set_unconstrained_all_is_idempotent() {
    let once = Service::set_unconstrained_all(true, 3);
    let twice = Service::set_unconstrained_all(true, 3);
    assert_eq!(once, vec![true, true, true]);
    assert_eq!(once, twice);
    // Applying the plan twice leaves every port unconstrained
    let mut ports = vec![false, true, false];
    for plan in [&once, &twice] {
        for (port, flag) in plan.iter().enumerate() {
            ports[port] = *flag;
        }
        assert_eq!(ports, vec![true, true, true]);
    }
    assert_eq!(Service::set_unconstrained_all(false, 2), vec![false, false]);
    assert_eq!(Service::set_unconstrained_all(true, 0), Vec::<bool>::new());
}

#[test]
fn unconstrained_lost_constrains_all_ports() {
    let mut service = Service::create(config());
    service.set_cached_port_status(GlobalPortId(0), unconstrained_consumer()).unwrap();
    let state = UnconstrainedState { unconstrained: false, available: 3 };
    assert_eq!(service.process_unconstrained_state_change(&state, 4), vec![false; 4]);
}

#[test]
fn several_unconstrained_sources_unconstrain_all_ports() {
    let mut service = Service::create(config());
    service.set_cached_port_status(GlobalPortId(1), unconstrained_consumer()).unwrap();
    let state = UnconstrainedState { unconstrained: true, available: 2 };
    assert_eq!(service.process_unconstrained_state_change(&state, 4), vec![true; 4]);
}

#[test]
fn own_port_as_only_source_stays_constrained() {
    let mut service = Service::create(config());
    service.set_cached_port_status(GlobalPortId(2), unconstrained_consumer()).unwrap();
    let state = UnconstrainedState { unconstrained: true, available: 1 };
    assert_eq!(service.process_unconstrained_state_change(&state, 4), vec![true, true, false, true]);
    // The first such port is taken
    service.set_cached_port_status(GlobalPortId(1), unconstrained_consumer()).unwrap();
    assert_eq!(service.process_unconstrained_state_change(&state, 4), vec![true, false, true, true]);
    // A port beyond the registered ports does not count
    assert_eq!(service.process_unconstrained_state_change(&state, 1), vec![true]);
    // More registered ports than cached ones
    assert_eq!(
        service.process_unconstrained_state_change(&state, 6),
        vec![true, false, true, true, true, true]
    );
    let state = UnconstrainedState { unconstrained: true, available: 0 };
    assert_eq!(service.process_unconstrained_state_change(&state, 2), vec![true, false]);
}

#[test]
fn only_source_elsewhere_unconstrains_all_ports() {
    let mut service = Service::create(config());
    // Unconstrained partner without a sink contract available
    let status = PortStatus { unconstrained_power: true, ..connected(false) };
    service.set_cached_port_status(GlobalPortId(0), status).unwrap();
    let state = UnconstrainedState { unconstrained: true, available: 1 };
    assert_eq!(service.process_unconstrained_state_change(&state, 2), vec![true, true]);
    let action = service.process_event(Event::PowerPolicy(PowerPolicyEvent::Unconstrained(state)), 2);
    assert_eq!(action, Ok(EventAction::SetUnconstrained(vec![true, true])));
    assert_eq!(
        service.process_power_policy_event(&PowerPolicyEvent::Unconstrained(state), 3),
        vec![true, true, true]
    );
}

#[test]
fn external_commands_are_dispatched() {
    let mut service = Service::create(config());
    service.set_cached_port_status(GlobalPortId(1), connected(true)).unwrap();

    for (data, internal) in [
        (external::ControllerCommandData::ControllerStatus, InternalCommandData::Status),
        (external::ControllerCommandData::SyncState, InternalCommandData::SyncState),
        (external::ControllerCommandData::Reset, InternalCommandData::Reset),
    ] {
        let command = external::Command::Controller(external::ControllerCommand { id: ControllerId(7), data });
        assert_eq!(
            service.process_external_command(&command),
            ExternalAction::Controller(ControllerId(7), internal)
        );
    }

    // Status from the cache
    let cached = PortCommand { port: GlobalPortId(1), data: PortCommandData::PortStatus(Cached(true)) };
    assert_eq!(
        service.process_external_command(&external::Command::Port(cached)),
        ExternalAction::Respond(external::Response::Port(Ok(PortResponseData::PortStatus(connected(true)))))
    );
    let cached = PortCommand { port: GlobalPortId(4), data: PortCommandData::PortStatus(Cached(true)) };
    assert_eq!(
        service.process_external_port_command(&cached),
        ExternalAction::Respond(external::Response::Port(Err(PdError::InvalidPort)))
    );
    // Fresh status and other port commands go to the controller
    let fresh = PortCommand { port: GlobalPortId(1), data: PortCommandData::PortStatus(Cached(false)) };
    assert_eq!(service.process_external_port_command(&fresh), ExternalAction::Port(fresh));
    let limit = PortCommand { port: GlobalPortId(9), data: PortCommandData::SetMaxSinkVoltage(Some(9000)) };
    assert_eq!(service.process_external_port_command(&limit), ExternalAction::Port(limit));

    let ucsi = GlobalCommand::PpmCommand(PpmCommand::GetCapability);
    let action = service.process_event(Event::ExternalCommand(external::Command::Ucsi(ucsi)), 2);
    assert_eq!(action, Ok(EventAction::External(ExternalAction::Ucsi(PpmInput::Command(ucsi)))));
}

#[test]
fn stream_visits_pending_ports_in_order() {
    let mut stream = PortEventStreamer::new(PortPending(0b1010).into_iter());
    assert_eq!(stream.next(), StreamStep::Fetch(GlobalPortId(1)));
    let mut both = plug();
    both.set(CUSTOM_MODE_ENTERED, true);
    let mut notification = PortEventKind::none();
    notification.set(CUSTOM_MODE_ENTERED, true);
    // Status change first, the notification of the same port next
    assert_eq!(stream.fetched(GlobalPortId(1), both), Some(PortEventVariant::StatusChanged(plug())));
    assert_eq!(
        stream.next(),
        StreamStep::Yield(GlobalPortId(1), PortEventVariant::Notification(notification))
    );
    assert_eq!(stream.next(), StreamStep::Fetch(GlobalPortId(3)));
    assert_eq!(stream.fetched(GlobalPortId(3), PortEventKind::none()), None);
    assert_eq!(stream.next(), StreamStep::Finished);
    assert_eq!(stream.next(), StreamStep::Finished);

    let mut stream = PortEventStreamer::new(PortPending(0b1).into_iter());
    assert_eq!(stream.next(), StreamStep::Fetch(GlobalPortId(0)));
    assert_eq!(
        stream.fetched(GlobalPortId(0), notification),
        Some(PortEventVariant::Notification(notification))
    );
    assert_eq!(stream.next(), StreamStep::Finished);
}

#[test]
fn wait_next_keeps_and_clears_cursor() {
    let mut service = Service::create(config());
    let mut stream = service.wait_port_flags(PortPending(0b101));
    let step = stream.next();
    assert_eq!(step, StreamStep::Fetch(GlobalPortId(0)));
    assert_eq!(service.wait_next(stream, Some(step)), WaitStep::GetPortEvent(GlobalPortId(0)));
    assert!(!service.streaming());

    let variant = stream.fetched(GlobalPortId(0), plug()).unwrap();
    let next = service.wait_next(stream, Some(StreamStep::Yield(GlobalPortId(0), variant)));
    assert_eq!(next, WaitStep::GetPortStatus(GlobalPortId(0), plug(), Cached(true)));
    assert!(service.streaming());

    // The stream in progress goes on, whatever was signaled meanwhile
    let mut stream = service.wait_port_flags(PortPending(0b10));
    assert_eq!(stream.next(), StreamStep::Fetch(GlobalPortId(2)));
    assert_eq!(stream.fetched(GlobalPortId(2), PortEventKind::none()), None);
    assert_eq!(service.wait_next(stream, None), WaitStep::Advance);
    let step = stream.next();
    assert_eq!(step, StreamStep::Finished);
    assert_eq!(service.wait_next(stream, Some(step)), WaitStep::Wait);
    assert!(!service.streaming());

    let mut notification = PortEventKind::none();
    notification.set(ALERT, true);
    let next = service.wait_next(
        stream,
        Some(StreamStep::Yield(GlobalPortId(1), PortEventVariant::Notification(notification))),
    );
    assert_eq!(next, WaitStep::Ready(Event::PortNotification(GlobalPortId(1), notification)));
    assert!(service.streaming());
    service.set_port_event_stream(None);
    assert!(!service.streaming());
}

#[test]
fn only_unconstrained_broadcasts_are_events() {
    let state = UnconstrainedState { unconstrained: true, available: 2 };
    assert_eq!(
        wait_power_policy_event(WaitResult::Message(CommsData::Unconstrained(state))),
        Some(Event::PowerPolicy(PowerPolicyEvent::Unconstrained(state)))
    );
    assert_eq!(wait_power_policy_event(WaitResult::Lagged(3)), None);
    assert_eq!(wait_power_policy_event(WaitResult::Message(CommsData::ConsumerDisconnected(DeviceId(1)))), None);
    let capability = PowerCapability { voltage_mv: 5000, current_ma: 500 };
    assert_eq!(
        wait_power_policy_event(WaitResult::Message(CommsData::ConsumerConnected(DeviceId(1), capability))),
        None
    );
}

#[test]
fn controller_answers_are_passed_on() {
    let status = ControllerStatus { fw_version0: 1, fw_version1: 2 };
    assert_eq!(
        process_external_controller_status(Ok(status)),
        external::Response::Controller(Ok(external::ControllerResponseData::ControllerStatus(status)))
    );
    assert_eq!(
        process_external_controller_status(Err(PdError::Timeout)),
        external::Response::Controller(Err(PdError::Timeout))
    );
    assert_eq!(
        process_external_controller_sync_state(Ok(())),
        external::Response::Controller(Ok(external::ControllerResponseData::Complete))
    );
    assert_eq!(
        process_external_controller_sync_state(Err(PdError::Failed)),
        external::Response::Controller(Err(PdError::Failed))
    );
    assert_eq!(
        process_external_controller_reset(Ok(())),
        external::Response::Controller(Ok(external::ControllerResponseData::Complete))
    );
    assert_eq!(
        process_external_controller_reset(Err(PdError::InvalidController)),
        external::Response::Controller(Err(PdError::InvalidController))
    );
}
