use power_sequencer::millis::{
    clock_select, has_elapsed, init, milliseconds, now, ClockSelect, Duration, Millis, TimeSpan,
    Timer, CYCLES_PER_MILLI, MILLIS_INCREMENT, PRESCALER, TIMER_COUNTS,
};

#[test]
fn milliseconds_are_unchanged() {
    assert_eq!(milliseconds(TimeSpan::Milliseconds(0)), 0);
    assert_eq!(milliseconds(TimeSpan::Milliseconds(250)), 250);
    assert_eq!(milliseconds(TimeSpan::Milliseconds(u16::MAX)), 65_535);
}

#[test]
fn seconds_are_a_thousand_milliseconds() {
    assert_eq!(milliseconds(TimeSpan::Seconds(0)), 0);
    assert_eq!(milliseconds(TimeSpan::Seconds(1)), 1_000);
    assert_eq!(milliseconds(TimeSpan::Seconds(5)), 5_000);
    assert_eq!(milliseconds(TimeSpan::Seconds(u16::MAX)), 65_535_000);
}

#[test]
fn minutes_are_sixty_thousand_milliseconds() {
    assert_eq!(milliseconds(TimeSpan::Minutes(1)), 60_000);
    assert_eq!(milliseconds(TimeSpan::Minutes(90)), 5_400_000);
    assert_eq!(milliseconds(TimeSpan::Minutes(u16::MAX)), 3_932_100_000);
}

#[test]
fn hours_are_3_600_000_milliseconds() {
    assert_eq!(milliseconds(TimeSpan::Hours(1)), 3_600_000);
    assert_eq!(milliseconds(TimeSpan::Hours(u8::MAX)), 918_000_000);
}

#[test]
fn a_bare_number_is_a_count_of_milliseconds() {
    assert_eq!(TimeSpan::from(7u8), TimeSpan::Milliseconds(7));
    assert_eq!(TimeSpan::from(250u16), TimeSpan::Milliseconds(250));
    let span: TimeSpan = 250u16.into();
    assert_eq!(milliseconds(span), 250);
}

#[test]
fn one_second_ends_at_the_thousandth_millisecond() {
    let timer = Timer::new(TimeSpan::Seconds(1), 40);
    assert!(!timer.has_elapsed(40));
    assert!(!timer.has_elapsed(1_039));
    assert!(timer.has_elapsed(1_040));
    assert!(timer.has_elapsed(1_041));
}

#[test]
fn one_minute_ends_at_the_sixty_thousandth_millisecond() {
    let timer = Timer::new(TimeSpan::Minutes(1), 0);
    assert!(!timer.has_elapsed(59_999));
    assert!(timer.has_elapsed(60_000));
}

#[test]
fn one_hour_ends_on_time() {
    let timer = Timer::new(TimeSpan::Hours(1), 1_000);
    assert!(!timer.has_elapsed(3_600_999));
    assert!(timer.has_elapsed(3_601_000));
}

#[test]
fn a_deadline_of_no_length_has_passed_at_once() {
    let timer = Timer::new(TimeSpan::Milliseconds(0), 77);
    assert!(timer.has_elapsed(77));
}

#[test]
fn new_keeps_start_and_length() {
    let timer = Timer::new(TimeSpan::Seconds(5), 123);
    assert_eq!(timer.start, 123);
    assert_eq!(timer.duration, Duration::NoRef(5_000));
}

#[test]
fn a_passed_deadline_stays_passed() {
    let timer = Timer::new(TimeSpan::Milliseconds(500), 10);
    let mut seen = false;
    for instant in (10..2_000u64).step_by(7) {
        let elapsed = timer.has_elapsed(instant);
        assert!(elapsed || !seen);
        seen = elapsed;
        assert_eq!(elapsed, instant - 10 >= 500);
    }
    assert!(seen);
}

#[test]
fn reset_starts_again_with_the_same_length() {
    let mut timer = Timer::new(TimeSpan::Milliseconds(500), 0);
    assert!(timer.has_elapsed(500));
    timer.reset(500);
    assert_eq!(timer.start, 500);
    assert_eq!(timer.duration, Duration::NoRef(500));
    assert!(!timer.has_elapsed(500));
    assert!(!timer.has_elapsed(999));
    assert!(timer.has_elapsed(1_000));
}

#[test]
fn has_elapsed_measures_up_to_now() {
    assert!(!has_elapsed(100, Duration::NoRef(50), 149));
    assert!(has_elapsed(100, Duration::NoRef(50), 150));
    assert!(has_elapsed(100, Duration::NoRef(0), 100));
}

#[test]
fn a_fixed_end_does_not_look_at_now() {
    let short = Duration::Ref { end: 149, duration: 50 };
    let exact = Duration::Ref { end: 150, duration: 50 };
    for instant in [0u64, 100, 150, 1_000_000] {
        assert!(!has_elapsed(100, short, instant));
        assert!(has_elapsed(100, exact, instant));
    }
}

#[test]
fn a_deadline_runs_across_the_wrap_of_the_counter() {
    let start: Millis = u64::MAX - 3;
    let timer = Timer::new(TimeSpan::Milliseconds(10), start);
    assert!(!timer.has_elapsed(u64::MAX));
    assert!(!timer.has_elapsed(0));
    assert!(!timer.has_elapsed(5));
    assert!(timer.has_elapsed(6));
    assert!(timer.has_elapsed(7));
}

#[test]
fn the_step_is_what_the_timer_is_set_up_for() {
    assert_eq!(PRESCALER, 1024);
    assert_eq!(TIMER_COUNTS, 125);
    assert_eq!(MILLIS_INCREMENT, PRESCALER * TIMER_COUNTS as u64 / CYCLES_PER_MILLI);
    assert_eq!(MILLIS_INCREMENT, 8);
}

#[test]
fn every_supported_prescaler_has_its_setting() {
    assert_eq!(clock_select(8), Some(ClockSelect::Prescale8));
    assert_eq!(clock_select(64), Some(ClockSelect::Prescale64));
    assert_eq!(clock_select(256), Some(ClockSelect::Prescale256));
    assert_eq!(clock_select(1024), Some(ClockSelect::Prescale1024));
}

#[test]
fn an_unsupported_prescaler_has_none() {
    for prescaler in [0u64, 1, 7, 9, 32, 128, 512, 1023, 1025, 2048, u64::MAX] {
        assert_eq!(clock_select(prescaler), None);
    }
}

#[test]
fn init_starts_at_zero_with_the_configured_setup() {
    let (setup, clock) = init();
    assert_eq!(setup.select, ClockSelect::Prescale1024);
    assert_eq!(setup.compare, 125);
    assert_eq!(now(&clock), 0);
}

#[test]
fn each_interrupt_adds_one_step() {
    let (_, mut clock) = init();
    let mut earlier = now(&clock);
    for ticks in 1..=1_000u64 {
        clock.tick();
        let later = now(&clock);
        assert!(later >= earlier);
        assert_eq!(later, ticks * MILLIS_INCREMENT);
        earlier = later;
    }
}

#[test]
fn reading_the_clock_does_not_move_it() {
    let (_, mut clock) = init();
    clock.tick();
    assert_eq!(now(&clock), 8);
    assert_eq!(now(&clock), 8);
}
