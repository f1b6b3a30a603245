use power_sequencer::millis::{TimeSpan, Timer};
use power_sequencer::state::{PowerState, FLAG_BUSY, FLAG_CLEAN, FLAG_OFFSET};

fn all_states(timer: Timer) -> [PowerState; 6] {
    [
        PowerState::Off,
        PowerState::EnableSubwoofers(timer),
        PowerState::On,
        PowerState::DisableMixer(timer),
        PowerState::RpiShutdown(timer),
        PowerState::PowerSignalLow,
    ]
}

#[test]
fn equality_looks_at_the_phase_only() {
    let early = Timer::new(TimeSpan::Milliseconds(500), 0);
    let late = Timer::new(TimeSpan::Seconds(9), 77_000);
    let first = all_states(early);
    let second = all_states(late);
    for i in 0..6 {
        for j in 0..6 {
            assert_eq!(first[i] == second[j], i == j);
            assert_eq!(first[i] != second[j], i != j);
        }
    }
}

#[test]
fn every_phase_has_its_own_name() {
    let timer = Timer::new(TimeSpan::Milliseconds(1), 0);
    let names: Vec<&str> = all_states(timer).iter().map(|state| state.name()).collect();
    assert_eq!(
        names,
        vec!["Off", "EnableSubwoofers", "On", "DisableMixer", "RpiShutdown", "PowerSignalLow"]
    );
}

#[test]
fn a_clean_flag_boots_into_off() {
    assert_eq!(FLAG_CLEAN, 0);
    assert!(matches!(PowerState::boot(Some(0)), PowerState::Off));
}

#[test]
fn a_set_flag_boots_into_recovery() {
    assert_eq!(FLAG_BUSY, 1);
    assert!(matches!(PowerState::boot(Some(1)), PowerState::PowerSignalLow));
    assert!(matches!(PowerState::boot(Some(3)), PowerState::PowerSignalLow));
    assert!(matches!(PowerState::boot(Some(255)), PowerState::PowerSignalLow));
    for flag in 1..=255u8 {
        assert!(matches!(PowerState::boot(Some(flag)), PowerState::PowerSignalLow));
    }
}

#[test]
fn a_failed_read_boots_into_recovery() {
    assert!(matches!(PowerState::boot(None), PowerState::PowerSignalLow));
}

#[test]
fn the_flag_lives_at_its_fixed_offset() {
    assert_eq!(FLAG_OFFSET, 150);
}
