use embedded_hal::digital::InputPin;
use embedded_hal_mock::eh1::digital::{Mock, State, Transaction as PinTransaction};
use embedded_services::power_button::debounce::{ActiveState, Debouncer};

#[test]
fn test_single_update_active_low_press() {
    let mut d = Debouncer::default();

    let gpio_expectations = [PinTransaction::get(State::Low)];
    let mut gpio = Mock::new(&gpio_expectations);

    d.update(gpio.is_low().ok());

    assert_eq!(d.integrator, 1);
    assert!(!d.pressed);

    gpio.done();
}

#[test]
fn test_single_update_active_high_press() {
    let mut d = Debouncer::default();
    d.active_state = ActiveState::ActiveHigh;

    let gpio_expectations = [PinTransaction::get(State::High)];
    let mut gpio = Mock::new(&gpio_expectations);

    d.update(gpio.is_low().ok());

    assert_eq!(d.integrator, 1);
    assert!(!d.pressed);

    gpio.done();
}

#[test]
fn test_last_update_state_change() {
    // Press, active high
    let mut d = Debouncer::default();
    d.integrator = d.threshold - 1;

    let gpio_expectations = [PinTransaction::get(State::Low)];
    let mut gpio = Mock::new(&gpio_expectations);

    d.update(gpio.is_low().ok());

    assert_eq!(d.integrator, d.threshold);
    assert!(d.pressed);

    gpio.done();

    // Release, active high
    d.integrator = 1;

    let gpio_expectations = [PinTransaction::get(State::High)];
    let mut gpio = Mock::new(&gpio_expectations);

    d.update(gpio.is_low().ok());

    assert_eq!(d.integrator, 0);
    assert!(!d.pressed);

    gpio.done();

    // Press, active low
    d.integrator = d.threshold - 1;
    d.active_state = ActiveState::ActiveLow;

    let gpio_expectations = [PinTransaction::get(State::Low)];
    let mut gpio = Mock::new(&gpio_expectations);

    d.update(gpio.is_low().ok());

    assert_eq!(d.integrator, d.threshold);
    assert!(d.pressed);

    gpio.done();

    // Release, active low
    d.integrator = 1;
    d.active_state = ActiveState::ActiveLow;

    let gpio_expectations = [PinTransaction::get(State::High)];
    let mut gpio = Mock::new(&gpio_expectations);

    d.update(gpio.is_low().ok());

    assert_eq!(d.integrator, 0);
    assert!(!d.pressed);

    gpio.done();
}

#[test]
fn new_debouncer_starts_released() {
    let d = Debouncer::new(5, 20, ActiveState::ActiveHigh);
    assert_eq!(
        d,
        Debouncer { integrator: 0, threshold: 5, sample_interval: 20, active_state: ActiveState::ActiveHigh, pressed: false }
    );
    assert_eq!(Debouncer::default(), Debouncer::new(3, 10, ActiveState::ActiveLow));
}

#[test]
fn stable_press_is_reported_at_threshold() {
    let mut d = Debouncer::default();
    assert_eq!(d.debounce(false, Some(true)), None);
    assert_eq!(d.debounce(false, Some(true)), None);
    assert_eq!(d.debounce(false, Some(true)), Some(true));
    // The integrator stays at the threshold
    d.update(Some(true));
    assert_eq!(d.integrator, 3);
    // Released only when the integrator is back at zero
    assert_eq!(d.debounce(true, Some(false)), None);
    assert_eq!(d.debounce(true, Some(false)), None);
    assert_eq!(d.debounce(true, Some(false)), Some(false));
    d.update(Some(false));
    assert_eq!(d.integrator, 0);
}

#[test]
fn bounces_settle() {
    let mut d = Debouncer::default();
    let samples = [true, false, true, true, false, true, true];
    let mut changes = Vec::new();
    for low in samples {
        changes.push(d.debounce(false, Some(low)));
    }
    assert_eq!(changes, [None, None, None, None, None, None, Some(true)]);
}

#[test]
fn unreadable_pin_counts_as_released() {
    let mut d = Debouncer::default();
    d.integrator = 2;
    d.update(None);
    assert_eq!(d.integrator, 1);
    let mut high = Debouncer::new(3, 10, ActiveState::ActiveHigh);
    high.integrator = 2;
    high.update(None);
    assert_eq!(high.integrator, 1);
}

#[test]
fn zero_threshold_presses_at_once() {
    let mut d = Debouncer::new(0, 10, ActiveState::ActiveLow);
    assert_eq!(d.debounce(false, Some(false)), Some(true));
    assert_eq!(d.integrator, 0);
}
