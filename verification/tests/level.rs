use embedded_hal::digital::PinState;
use power_sequencer::level::DigitalLevel;

#[test]
fn true_is_high_and_false_is_low() {
    assert_eq!(DigitalLevel::from(true), DigitalLevel::High);
    assert_eq!(DigitalLevel::from(false), DigitalLevel::Low);
}

#[test]
fn is_high_reads_the_level_back() {
    assert!(DigitalLevel::High.is_high());
    assert!(!DigitalLevel::Low.is_high());
    for reading in [false, true] {
        assert_eq!(DigitalLevel::from(reading).is_high(), reading);
    }
}

#[test]
fn levels_follow_the_pin_states_of_the_hal() {
    for reading in [false, true] {
        let pin = PinState::from(reading);
        let level = DigitalLevel::from(reading);
        assert_eq!(level.is_high(), bool::from(pin));
        assert_eq!(level == DigitalLevel::High, pin == PinState::High);
        assert_eq!(level == DigitalLevel::Low, pin == PinState::Low);
    }
}
