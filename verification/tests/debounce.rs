use power_sequencer::debounce::{Debounce, DEFAULT_SETTLE_DELAY};
use power_sequencer::level::DigitalLevel;
use power_sequencer::level::DigitalLevel::{High, Low};

/// Feeds the readings to the filter and counts how often the accepted level
/// moves.
fn run(filter: &mut Debounce, samples: &[(DigitalLevel, u64)]) -> usize {
    let mut changes = 0;
    for &(level, at) in samples {
        let before = filter.state();
        filter.tick(level, at);
        if filter.state() != before {
            changes += 1;
        }
    }
    changes
}

#[test]
fn the_first_reading_is_trusted() {
    let mut high = Debounce::new(High, None);
    assert_eq!(high.state(), High);
    assert_eq!(high.changed(), None);
    let mut low = Debounce::new(Low, Some(100));
    assert_eq!(low.state(), Low);
    assert_eq!(low.changed(), None);
}

#[test]
fn the_default_settle_delay_is_ten_milliseconds() {
    assert_eq!(DEFAULT_SETTLE_DELAY, 10);
    let mut filter = Debounce::new(High, None);
    assert_eq!(run(&mut filter, &[(Low, 0), (Low, 9)]), 0);
    assert_eq!(filter.state(), High);
    assert_eq!(run(&mut filter, &[(Low, 10)]), 1);
    assert_eq!(filter.state(), Low);
}

#[test]
fn a_given_settle_delay_is_kept() {
    let mut filter = Debounce::new(High, Some(100));
    assert_eq!(run(&mut filter, &[(Low, 1_000), (Low, 1_010), (Low, 1_099)]), 0);
    assert_eq!(filter.changed(), None);
    assert_eq!(run(&mut filter, &[(Low, 1_100)]), 1);
    assert_eq!(filter.changed(), Some(Low));
}

#[test]
fn a_short_bounce_reports_nothing() {
    let mut filter = Debounce::new(High, Some(10));
    let changes = run(&mut filter, &[(Low, 100), (Low, 103), (Low, 109), (High, 109)]);
    assert_eq!(changes, 0);
    assert_eq!(filter.state(), High);
    assert_eq!(filter.changed(), None);
}

#[test]
fn a_bounce_cancels_the_pending_deadline() {
    let mut filter = Debounce::new(High, Some(10));
    run(&mut filter, &[(Low, 100), (High, 105)]);
    // The deadline of the first bounce is gone: a second one waits in full.
    assert_eq!(run(&mut filter, &[(Low, 108), (Low, 117)]), 0);
    assert_eq!(filter.state(), High);
    assert_eq!(run(&mut filter, &[(Low, 118)]), 1);
    assert_eq!(filter.state(), Low);
    assert_eq!(filter.changed(), Some(Low));
}

#[test]
fn a_held_level_is_reported_once() {
    let mut filter = Debounce::new(High, Some(10));
    let changes = run(
        &mut filter,
        &[(Low, 100), (Low, 104), (Low, 110), (Low, 111), (Low, 150), (Low, 10_000)],
    );
    assert_eq!(changes, 1);
    assert_eq!(filter.state(), Low);
    assert_eq!(filter.changed(), Some(Low));
}

#[test]
fn the_change_stays_until_it_is_cleared() {
    let mut filter = Debounce::new(Low, Some(10));
    run(&mut filter, &[(High, 0), (High, 10)]);
    assert_eq!(filter.changed(), Some(High));
    assert_eq!(filter.changed(), Some(High));
    run(&mut filter, &[(High, 20), (High, 30), (Low, 31), (High, 32)]);
    assert_eq!(filter.changed(), Some(High));
    filter.clear();
    assert_eq!(filter.changed(), None);
    assert_eq!(filter.state(), High);
    run(&mut filter, &[(High, 40)]);
    assert_eq!(filter.changed(), None);
}

#[test]
fn the_first_disagreeing_reading_only_starts_the_wait() {
    let mut filter = Debounce::new(High, Some(0));
    assert_eq!(run(&mut filter, &[(Low, 50)]), 0);
    assert_eq!(filter.state(), High);
    assert_eq!(filter.changed(), None);
    assert_eq!(run(&mut filter, &[(Low, 50)]), 1);
    assert_eq!(filter.state(), Low);
    assert_eq!(filter.changed(), Some(Low));
}

#[test]
fn an_input_that_keeps_bouncing_never_settles() {
    let mut filter = Debounce::new(High, Some(10));
    let mut at = 0;
    for _ in 0..500 {
        filter.tick(Low, at);
        assert_eq!(filter.state(), High);
        filter.tick(Low, at + 6);
        assert_eq!(filter.state(), High);
        filter.tick(High, at + 9);
        assert_eq!(filter.state(), High);
        at += 12;
    }
    assert_eq!(filter.changed(), None);
}

#[test]
fn the_last_settled_change_wins() {
    let mut filter = Debounce::new(High, Some(10));
    run(&mut filter, &[(Low, 0), (Low, 10)]);
    assert_eq!(filter.changed(), Some(Low));
    // Not cleared; the input goes back and settles again.
    assert_eq!(run(&mut filter, &[(High, 20), (High, 25), (High, 30)]), 1);
    assert_eq!(filter.state(), High);
    assert_eq!(filter.changed(), Some(High));
}

#[test]
fn state_does_not_show_a_pending_level() {
    let mut filter = Debounce::new(Low, Some(100));
    for at in 0..100u64 {
        filter.tick(High, at);
        assert_eq!(filter.state(), Low);
        assert_eq!(filter.changed(), None);
    }
    filter.tick(High, 100);
    assert_eq!(filter.state(), High);
}

#[test]
fn clear_keeps_the_accepted_level_and_the_pending_deadline() {
    let mut filter = Debounce::new(High, Some(10));
    run(&mut filter, &[(Low, 0), (Low, 10), (High, 20)]);
    filter.clear();
    assert_eq!(filter.state(), Low);
    // The deadline that started at 20 is still running.
    assert_eq!(run(&mut filter, &[(High, 29)]), 0);
    assert_eq!(run(&mut filter, &[(High, 30)]), 1);
    assert_eq!(filter.changed(), Some(High));
}

#[test]
fn a_filter_settles_across_the_wrap_of_the_counter() {
    let mut filter = Debounce::new(High, Some(10));
    assert_eq!(run(&mut filter, &[(Low, u64::MAX - 4), (Low, u64::MAX), (Low, 4)]), 0);
    assert_eq!(run(&mut filter, &[(Low, 5)]), 1);
    assert_eq!(filter.state(), Low);
}
