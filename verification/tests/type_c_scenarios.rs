use embedded_services::power::policy::{PowerCapability, StateKind};
use embedded_services::type_c::comms::UcsiCiMessage;
use embedded_services::type_c::controller::{
    Context, ContextToken, Contract, Device, PortCommand, PortCommandData, PortResponseData,
    PortStatus, Response,
};
use embedded_services::type_c::event::{
    PortEventKind, PortPending, NEW_POWER_CONTRACT_AS_CONSUMER, PLUG_INSERTED_OR_REMOVED,
};
use embedded_services::type_c::service::config::Config;
use embedded_services::type_c::service::ucsi::{lpm_command_done, UcsiResponse, UcsiStep};
use embedded_services::type_c::service::{
    Event, EventAction, PortEventVariant, Service, StreamStep, WaitStep,
};
use embedded_services::type_c::ucsi::lpm;
use embedded_services::type_c::ucsi::{
    Capabilities, GlobalCommand, NotificationEnable, PpmCommand, PpmInput, PpmOutput, ResponseData,
};
use embedded_services::type_c::wrapper::config::SinkReadyTimeouts;
use embedded_services::type_c::wrapper::{
    ControllerWrapper, EventAction as PassAction, EventInput, PortCommandStep, PowerAction, PowerPlan,
};
use embedded_services::type_c::wrapper::config::Config as WrapperConfig;
use embedded_services::type_c::{Cached, ControllerId, GlobalPortId, LocalPortId};

fn service_config() -> Config {
    Config {
        ucsi_capabilities: Capabilities {
            attributes: 0,
            num_connectors: 0,
            optional_features: 0,
            num_alt_modes: 0,
            bcd_bc_version: 0,
            bcd_pd_version: 0,
            bcd_usb_type_c_version: 0,
        },
        ucsi_port_capabilities: None,
    }
}

/// A sink contract at 20 V and 5 A connects on the first port of a controller
/// and reaches the host as a connector change.
#[test]
fn sink_contract_connects_and_reaches_host() {
    let capability = PowerCapability { voltage_mv: 20000, current_ma: 5000 };
    let status = PortStatus {
        contract: Some(Contract::Sink(capability)),
        connection_present: true,
        available_sink_contract: Some(capability),
        ..PortStatus::new()
    };
    let mut context = Context::new();
    let token = ContextToken::create(&mut context).unwrap();
    let device = Device::new(ControllerId(0), &[GlobalPortId(0), GlobalPortId(1)]).unwrap();
    context.register_controller(device.clone()).unwrap();
    let num_ports = context.get_num_ports();
    assert_eq!(num_ports, 2);
    let mut wrapper = ControllerWrapper::new(
        device,
        WrapperConfig::with_timeouts(SinkReadyTimeouts { spr_ms: 35, epr_ms: 950 }),
    )
    .unwrap();
    let mut service = Service::create(service_config());

    // The host enables connect change notifications
    let mut enable = NotificationEnable::new();
    enable.connect_change = true;
    let mut response = UcsiResponse::new();
    let step = service.process_ucsi_command(
        num_ports,
        Ok(Some(PpmOutput::ExecuteCommand(GlobalCommand::PpmCommand(
            PpmCommand::SetNotificationEnable(enable),
        )))),
        &mut response,
    );
    assert_eq!(step, UcsiStep::Consume(PpmInput::CommandComplete));
    let step = service.process_ucsi_command(num_ports, Ok(Some(PpmOutput::OpmNotifyCommandComplete)), &mut response);
    assert_eq!(step, UcsiStep::Respond(None));
    assert_eq!(response.cci.connector_change, 0);

    // The wrapper sees plug inserted and a new consumer contract
    let mut hardware = PortEventKind::none();
    hardware.set(PLUG_INSERTED_OR_REMOVED, true);
    hardware.set(NEW_POWER_CONTRACT_AS_CONSUMER, true);
    let mut kind = StateKind::Detached;
    assert_eq!(wrapper.process_event(EventInput::Begin), PassAction::ClearPortEvents(LocalPortId(0)));
    assert_eq!(
        wrapper.process_event(EventInput::PortEvents(Some(hardware))),
        PassAction::GetPortStatus(LocalPortId(0))
    );
    // Detached to attached
    let action = wrapper.process_event(EventInput::PortStatus(Some(status), kind));
    assert_eq!(action, PassAction::Power(LocalPortId(0), PowerPlan::one(PowerAction::Attach)));
    kind = StateKind::Idle;
    // The capability is notified
    let action = wrapper.process_event(EventInput::PowerDone(kind, true));
    assert_eq!(
        action,
        PassAction::Power(
            LocalPortId(0),
            PowerPlan::one(PowerAction::NotifyConsumerPowerCapability(capability))
        )
    );
    assert_eq!(wrapper.process_event(EventInput::PowerDone(kind, true)), PassAction::ClearPortEvents(LocalPortId(1)));
    let action = wrapper.process_event(EventInput::PortEvents(Some(PortEventKind::none())));
    assert_eq!(action, PassAction::NotifyPorts(PortPending(0b1)));
    context.notify_ports(PortPending(0b1));

    // The service streams the event of the pending port
    let unhandled = context.get_unhandled_events().unwrap();
    assert_eq!(context.get_unhandled_events(), None);
    let mut stream = service.wait_port_flags(unhandled);
    let step = stream.next();
    assert_eq!(service.wait_next(stream, Some(step)), WaitStep::GetPortEvent(GlobalPortId(0)));
    assert_eq!(context.find_node_by_port(GlobalPortId(0)), Ok(0));
    let get_event = PortCommand { port: GlobalPortId(0), data: PortCommandData::GetEvent };
    let answer = match wrapper.process_port_command(&get_event) {
        PortCommandStep::Respond(answer) => answer,
        PortCommandStep::Call(_) => panic!("the wrapper answers GetEvent itself"),
    };
    let fetched = token.get_port_event(Some(Response::Port(answer))).unwrap();
    assert_eq!(fetched, hardware);
    let variant = stream.fetched(GlobalPortId(0), fetched).unwrap();
    assert_eq!(variant, PortEventVariant::StatusChanged(hardware));
    let next = service.wait_next(stream, Some(StreamStep::Yield(GlobalPortId(0), variant)));
    assert_eq!(next, WaitStep::GetPortStatus(GlobalPortId(0), hardware, Cached(true)));
    let read = token
        .get_port_status(Some(Response::Port(Ok(PortResponseData::PortStatus(status)))))
        .unwrap();

    // The service caches the status and queues the connector change
    let action = service.process_event(Event::PortStatusChanged(GlobalPortId(0), hardware, read), num_ports);
    match action {
        Ok(EventAction::Broadcast(outcome)) => {
            assert_eq!(outcome.debug_accessory, None);
            assert_eq!(outcome.ucsi, Some(UcsiCiMessage { port: GlobalPortId(0), notify_opm: true }));
        }
        other => panic!("unexpected action {:?}", other),
    }
    let cached = service.get_cached_port_status(GlobalPortId(0)).unwrap();
    assert_eq!(cached.contract, Some(Contract::Sink(PowerCapability { voltage_mv: 20000, current_ma: 5000 })));
    assert!(cached.connection_present);
    assert_eq!(cached, status);

    // The host asks for the connector status
    let command = lpm::Command { port: GlobalPortId(0), operation: lpm::CommandData::GetConnectorStatus };
    let mut response = UcsiResponse::new();
    let step = service.process_ucsi_command(
        num_ports,
        Ok(Some(PpmOutput::ExecuteCommand(GlobalCommand::LpmCommand(command)))),
        &mut response,
    );
    assert_eq!(step, UcsiStep::ExecuteLpm(command));
    let connector_status = lpm::ConnectorStatus {
        connect_status: cached.connection_present,
        power_direction_source: false,
        voltage_mv: 20000,
        current_ma: 5000,
    };
    let step = lpm_command_done(
        &mut response,
        Ok(Some(lpm::ResponseData::GetConnectorStatus(connector_status))),
    );
    assert_eq!(step, UcsiStep::Consume(PpmInput::CommandComplete));
    let step = service.process_ucsi_command(num_ports, Ok(Some(PpmOutput::OpmNotifyCommandComplete)), &mut response);
    assert_eq!(step, UcsiStep::Respond(None));
    assert_eq!(
        response.data,
        Ok(Some(ResponseData::Lpm(lpm::ResponseData::GetConnectorStatus(connector_status))))
    );
    assert!(response.cci.cmd_complete);
    assert!(!response.cci.error);
    // The port's one-based number
    assert_eq!(response.cci.connector_change, 1);
}
