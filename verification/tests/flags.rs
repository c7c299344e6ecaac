use embedded_services::power::policy::flags::{Consumer, Provider, PsuType};

#[test]
fn test_from_psu_type() {
    assert_eq!(PsuType::from(1), PsuType::TypeC);
    assert_eq!(PsuType::from(2), PsuType::DcJack);
    assert_eq!(PsuType::from(12), PsuType::Custom0);
    assert_eq!(PsuType::from(13), PsuType::Custom1);
    assert_eq!(PsuType::from(14), PsuType::Custom2);
    assert_eq!(PsuType::from(15), PsuType::Custom3);
    assert_eq!(PsuType::from(0), PsuType::Unknown);
    assert_eq!(PsuType::from(3), PsuType::Unknown);
}

#[test]
fn test_consumer_unconstrained() {
    let mut consumer = Consumer::none().with_unconstrained_power();
    assert_eq!(consumer.0.0, 0x1);
    consumer.set_unconstrained_power(false);
    assert_eq!(consumer.0.0, 0x0);
}

#[test]
fn test_consumer_psu_type() {
    let mut consumer = Consumer::none().with_psu_type(PsuType::TypeC);
    assert_eq!(consumer.0.0, 0x100);
    consumer.set_psu_type(PsuType::Unknown);
    assert_eq!(consumer.0.0, 0x0);
}

#[test]
fn test_provider_psu_type() {
    let mut provider = Provider::none().with_psu_type(PsuType::TypeC);
    assert_eq!(provider.0.0, 0x100);
    provider.set_psu_type(PsuType::Unknown);
    assert_eq!(provider.0.0, 0x0);
}

#[test]
fn psu_type_codes_round_trip() {
    let all = [
        PsuType::Unknown,
        PsuType::TypeC,
        PsuType::DcJack,
        PsuType::Custom0,
        PsuType::Custom1,
        PsuType::Custom2,
        PsuType::Custom3,
    ];
    for psu in all {
        assert_eq!(PsuType::from(u8::from(psu)), psu);
        assert_eq!(Consumer::none().with_psu_type(psu).psu_type(), psu);
        assert_eq!(Provider::none().with_psu_type(psu).psu_type(), psu);
    }
    assert_eq!(u8::from(PsuType::Custom0), 12);
    assert_eq!(u8::from(PsuType::Custom3), 15);
}

#[test]
fn consumer_fields_are_independent() {
    let mut consumer = Consumer::none().with_psu_type(PsuType::Custom3).with_unconstrained_power();
    assert_eq!(consumer.0.0, 0xf01);
    assert!(consumer.unconstrained_power());
    assert_eq!(consumer.psu_type(), PsuType::Custom3);
    consumer.set_psu_type(PsuType::DcJack);
    assert_eq!(consumer.0.0, 0x201);
    assert!(consumer.unconstrained_power());
    consumer.set_unconstrained_power(false);
    assert_eq!(consumer.0.0, 0x200);
    assert!(!consumer.unconstrained_power());
    assert_eq!(consumer.psu_type(), PsuType::DcJack);
}
