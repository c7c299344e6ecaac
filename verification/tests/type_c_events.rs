use embedded_services::type_c::event::{
    PortEventKind, PortPending, ALERT, CUSTOM_MODE_ENTERED, NEW_POWER_CONTRACT_AS_CONSUMER,
    NOTIFICATION_MASK, PLUG_INSERTED_OR_REMOVED, SINK_READY, STATUS_MASK,
};

#[test]
fn port_event_bits_are_independent() {
    let mut event = PortEventKind::none();
    assert!(event.is_none());
    event.set(PLUG_INSERTED_OR_REMOVED, true);
    assert_eq!(event.0, 0x1);
    assert!(event.plug_inserted_or_removed());
    assert!(!event.new_power_contract_as_consumer());
    event.set(NEW_POWER_CONTRACT_AS_CONSUMER, true);
    assert_eq!(event.0, 0x5);
    assert!(event.new_power_contract_as_consumer());
    event.set(PLUG_INSERTED_OR_REMOVED, false);
    assert_eq!(event.0, 0x4);
    assert!(!event.plug_inserted_or_removed());
    assert!(!event.is_none());
    event.set(31, true);
    assert_eq!(event.0, 0x8000_0004);
    assert!(event.get(31));
    assert!(!event.get(30));
}

#[test]
fn port_event_named_conditions() {
    let mut event = PortEventKind::none();
    event.set(SINK_READY, true);
    assert!(event.sink_ready());
    assert!(!event.pd_hard_reset());
    assert!(!event.power_swap_completed());
    assert!(!event.data_swap_completed());
    assert!(!event.alt_mode_entered());
    assert!(!event.new_power_contract_as_provider());
    assert_eq!(event.0, 0x80);
}

#[test]
fn port_event_union_and_split() {
    let mut a = PortEventKind::none();
    a.set(PLUG_INSERTED_OR_REMOVED, true);
    let mut b = PortEventKind::none();
    b.set(CUSTOM_MODE_ENTERED, true);
    b.set(ALERT, true);
    let both = a.union(b);
    assert_eq!(both.0, 0x2101);
    assert_eq!(both.status_changed(), a);
    assert_eq!(both.notification(), b);
    assert_eq!(STATUS_MASK & NOTIFICATION_MASK, 0);
    assert_eq!(PortEventKind(0xffff_ffff).status_changed().0, 0xff);
    assert_eq!(PortEventKind(0xffff_ffff).notification().0, 0x3f00);
}

#[test]
fn pending_ports_set_and_clear() {
    let mut pending = PortPending::none();
    assert!(pending.is_none());
    assert_eq!(pending.len(), 32);
    pending.pend_port(3);
    pending.pend_port(0);
    pending.pend_port(31);
    assert_eq!(pending.0, 0x8000_0009);
    assert!(pending.is_pending(3));
    assert!(!pending.is_pending(4));
    assert!(!pending.is_pending(32));
    assert!(!pending.is_pending(usize::MAX));
    pending.clear_port(3);
    assert_eq!(pending.0, 0x8000_0001);
    pending.clear_port(3);
    assert_eq!(pending.0, 0x8000_0001);
    pending.clear_port(40);
    assert_eq!(pending.0, 0x8000_0001);
    assert!(!pending.is_none());
    let other = PortPending(0x6);
    assert_eq!(pending.union(other).0, 0x8000_0007);
}

#[test]
fn pending_iter_is_ascending_and_peek_does_not_advance() {
    let pending = PortPending(0x8000_0112);
    let mut iter = pending.into_iter();
    assert!(iter.is_remaining(1));
    assert!(!iter.is_remaining(0));
    assert_eq!(iter.peek(), Some(1));
    assert_eq!(iter.peek(), Some(1));
    assert_eq!(iter.next(), Some(1));
    assert!(!iter.is_remaining(1));
    assert_eq!(iter.next(), Some(4));
    assert_eq!(iter.next(), Some(8));
    assert_eq!(iter.peek(), Some(31));
    assert_eq!(iter.next(), Some(31));
    assert_eq!(iter.next(), None);
    assert_eq!(iter.peek(), None);
    assert_eq!(iter.next(), None);

    let mut empty = PortPending::none().into_iter();
    assert_eq!(empty.next(), None);
}
