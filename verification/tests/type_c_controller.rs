use embedded_services::type_c::controller::{
    Context, ContextToken, ControllerStatus, Device, InternalResponseData, PortResponseData,
    PortStatus, Response, UcsiPassthrough, MAX_CONTROLLERS,
};
use embedded_services::type_c::event::{PortEventKind, PortPending};
use embedded_services::type_c::ucsi::Cci;
use embedded_services::type_c::{ControllerId, GlobalPortId, LocalPortId, PdError};

fn device(id: u8, ports: [u8; 2]) -> Device {
    Device::new(ControllerId(id), &[GlobalPortId(ports[0]), GlobalPortId(ports[1])]).unwrap()
}

#[test]
fn device_needs_a_full_port_table() {
    assert!(matches!(Device::new(ControllerId(0), &[]), Err(PdError::InvalidParams)));
    assert!(matches!(Device::new(ControllerId(0), &[GlobalPortId(0)]), Err(PdError::InvalidParams)));
    assert!(matches!(
        Device::new(ControllerId(0), &[GlobalPortId(0), GlobalPortId(1), GlobalPortId(2)]),
        Err(PdError::InvalidParams)
    ));
    let table = device(3, [7, 5]);
    assert_eq!(table.id(), ControllerId(3));
    assert_eq!(table.num_ports(), 2);
}

#[test]
fn device_maps_local_and_global_ports() {
    let table = device(0, [7, 5]);
    assert!(table.has_port(GlobalPortId(7)));
    assert!(table.has_port(GlobalPortId(5)));
    assert!(!table.has_port(GlobalPortId(0)));
    assert_eq!(table.lookup_global_port(LocalPortId(0)), Ok(GlobalPortId(7)));
    assert_eq!(table.lookup_global_port(LocalPortId(1)), Ok(GlobalPortId(5)));
    assert_eq!(table.lookup_global_port(LocalPortId(2)), Err(PdError::InvalidParams));
    assert_eq!(table.lookup_local_port(GlobalPortId(5)), Ok(LocalPortId(1)));
    assert_eq!(table.lookup_local_port(GlobalPortId(7)), Ok(LocalPortId(0)));
    assert_eq!(table.lookup_local_port(GlobalPortId(6)), Err(PdError::InvalidParams));
    // The first local port wins
    let twice = device(0, [4, 4]);
    assert_eq!(twice.lookup_local_port(GlobalPortId(4)), Ok(LocalPortId(0)));
}

#[test]
fn context_token_is_handed_out_once() {
    let mut context = Context::new();
    assert!(ContextToken::create(&mut context).is_some());
    assert!(ContextToken::create(&mut context).is_none());
    assert!(ContextToken::create(&mut context).is_none());
    let mut other = Context::new();
    assert!(ContextToken::create(&mut other).is_some());
}

#[test]
fn context_finds_controllers() {
    let mut context = Context::new();
    assert_eq!(context.get_num_ports(), 0);
    assert_eq!(context.find_node_by_port(GlobalPortId(0)), Err(PdError::InvalidPort));
    assert_eq!(context.find_controller(ControllerId(0)), Err(PdError::InvalidController));
    context.register_controller(device(10, [0, 1])).unwrap();
    context.register_controller(device(11, [2, 3])).unwrap();
    context.register_controller(device(11, [3, 4])).unwrap();
    assert_eq!(context.get_num_ports(), 6);
    assert_eq!(context.find_node_by_port(GlobalPortId(1)), Ok(0));
    assert_eq!(context.find_node_by_port(GlobalPortId(3)), Ok(1));
    assert_eq!(context.find_node_by_port(GlobalPortId(4)), Ok(2));
    assert_eq!(context.find_node_by_port(GlobalPortId(5)), Err(PdError::InvalidPort));
    assert_eq!(context.find_controller(ControllerId(10)), Ok(0));
    assert_eq!(context.find_controller(ControllerId(11)), Ok(1));
    assert_eq!(context.find_controller(ControllerId(12)), Err(PdError::InvalidController));
    assert_eq!(context.controller(1).map(|d| d.id()), Some(ControllerId(11)));
    assert!(context.controller(3).is_none());
}

#[test]
fn context_takes_a_bounded_number_of_controllers() {
    let mut context = Context::new();
    for id in 0..MAX_CONTROLLERS {
        assert_eq!(context.register_controller(device(id as u8, [0, 1])), Ok(()));
    }
    assert_eq!(context.register_controller(device(99, [0, 1])), Err(PdError::InvalidParams));
    assert_eq!(context.get_num_ports(), 32);
    assert_eq!(context.find_controller(ControllerId(99)), Err(PdError::InvalidController));
}

#[test]
fn port_events_accumulate_until_taken() {
    let mut context = Context::new();
    assert_eq!(context.get_unhandled_events(), None);
    context.notify_ports(PortPending::none());
    assert_eq!(context.get_unhandled_events(), None);
    context.notify_ports(PortPending(0b0100));
    context.notify_ports(PortPending::none());
    context.notify_ports(PortPending(0b0011));
    assert_eq!(context.get_unhandled_events(), Some(PortPending(0b0111)));
    assert_eq!(context.get_unhandled_events(), None);
}

#[test]
fn responses_are_classified() {
    let mut context = Context::new();
    let token = ContextToken::create(&mut context).unwrap();
    let controller = Response::Controller(Ok(InternalResponseData::Complete));
    let port = Response::Port(Ok(PortResponseData::Complete));
    let passthrough = UcsiPassthrough { cci: Cci::new(), data: None };
    let ucsi = Response::Ucsi(passthrough);

    assert_eq!(token.send_controller_command(Some(controller)), Ok(InternalResponseData::Complete));
    assert_eq!(
        token.send_controller_command(Some(Response::Controller(Err(PdError::Busy)))),
        Err(PdError::Busy)
    );
    assert_eq!(token.send_controller_command(Some(port)), Err(PdError::InvalidResponse));
    assert_eq!(token.send_controller_command(None), Err(PdError::Timeout));
    assert_eq!(token.reset_controller(Some(controller)), Ok(()));
    assert_eq!(token.reset_controller(None), Err(PdError::Timeout));
    assert_eq!(token.reset_controller(Some(ucsi)), Err(PdError::InvalidResponse));

    let status = ControllerStatus { fw_version0: 7, fw_version1: 8 };
    assert_eq!(
        token.get_controller_status(Some(Response::Controller(Ok(InternalResponseData::Status(status))))),
        Ok(status)
    );
    assert_eq!(token.get_controller_status(Some(controller)), Err(PdError::InvalidResponse));
    assert_eq!(token.get_controller_status(None), Err(PdError::Timeout));

    assert_eq!(token.send_port_command(Some(port)), Ok(PortResponseData::Complete));
    assert_eq!(token.send_port_command(Some(controller)), Err(PdError::InvalidResponse));
    assert_eq!(token.send_port_command(None), Err(PdError::Timeout));

    assert_eq!(token.send_port_command_ucsi(Some(ucsi)), Ok(passthrough));
    assert_eq!(token.send_port_command_ucsi(Some(port)), Err(PdError::InvalidResponse));
    assert_eq!(token.send_port_command_ucsi(None), Err(PdError::Timeout));

    let event = PortEventKind(0x5);
    assert_eq!(token.get_port_event(Some(Response::Port(Ok(PortResponseData::Event(event))))), Ok(event));
    assert_eq!(token.get_port_event(Some(port)), Err(PdError::InvalidResponse));
    assert_eq!(token.get_port_event(Some(Response::Port(Err(PdError::InvalidPort)))), Err(PdError::InvalidPort));
    assert_eq!(token.get_port_event(None), Err(PdError::Timeout));

    let status = PortStatus { connection_present: true, ..PortStatus::new() };
    assert_eq!(
        token.get_port_status(Some(Response::Port(Ok(PortResponseData::PortStatus(status))))),
        Ok(status)
    );
    assert_eq!(
        token.get_port_status(Some(Response::Port(Ok(PortResponseData::Event(event))))),
        Err(PdError::InvalidResponse)
    );
    assert_eq!(token.get_port_status(Some(controller)), Err(PdError::InvalidResponse));
    assert_eq!(token.get_port_status(None), Err(PdError::Timeout));
}
