//! A millisecond clock driven by a periodic timer interrupt, and deadlines
//! measured against it.
//!
//! The clock is a counter that the timer interrupt advances by a fixed step.
//! It is a plain value here: whoever owns it guards it against the interrupt
//! and hands the instants it reads to the functions below.

use vstd::prelude::*;

verus! {

/// An instant or a span, in milliseconds.
pub type Millis = u64;

/// The divisor between the CPU clock and the timer.
pub const PRESCALER: u64 = 1024;

/// The number of timer counts between two interrupts.
pub const TIMER_COUNTS: u8 = 125;

/// CPU cycles in one millisecond, at 16 MHz.
pub const CYCLES_PER_MILLI: u64 = 16000;

/// The milliseconds that pass between two interrupts.
pub const MILLIS_INCREMENT: u64 = 8;

/// The number of values a `Millis` can take: the counter wraps at this.
pub open spec fn millis_range() -> nat {
    0x1_0000_0000_0000_0000
}

/// The step of the clock is what the prescaler and the compare value give.
pub proof fn lemma_increment_matches_configuration()
    ensures
        MILLIS_INCREMENT == PRESCALER * TIMER_COUNTS / (CYCLES_PER_MILLI as int),
        MILLIS_INCREMENT > 0,
{
}

/// The clock-select setting of the timer, one for each supported prescaler.
#[derive(Clone, Copy, PartialEq, Eq, Structural, Debug)]
pub enum ClockSelect {
    /// CPU clock divided by 8.
    Prescale8,
    /// CPU clock divided by 64.
    Prescale64,
    /// CPU clock divided by 256.
    Prescale256,
    /// CPU clock divided by 1024.
    Prescale1024,
}

/// The setting for a prescaler, where the timer supports it.
pub open spec fn spec_clock_select(prescaler: u64) -> Option<ClockSelect> {
    if prescaler == 8 {
        Some(ClockSelect::Prescale8)
    } else if prescaler == 64 {
        Some(ClockSelect::Prescale64)
    } else if prescaler == 256 {
        Some(ClockSelect::Prescale256)
    } else if prescaler == 1024 {
        Some(ClockSelect::Prescale1024)
    } else {
        None
    }
}

/// Picks the clock-select setting for `prescaler`.
///
/// Returns `None` for a divisor that the timer does not offer; a clock must
/// not be started with one.
pub fn clock_select(prescaler: u64) -> (select: Option<ClockSelect>)
    ensures
        select == spec_clock_select(prescaler),
        select is Some <==> (prescaler == 8 || prescaler == 64 || prescaler == 256 || prescaler
            == 1024),
{
    if prescaler == 8 {
        Some(ClockSelect::Prescale8)
    } else if prescaler == 64 {
        Some(ClockSelect::Prescale64)
    } else if prescaler == 256 {
        Some(ClockSelect::Prescale256)
    } else if prescaler == 1024 {
        Some(ClockSelect::Prescale1024)
    } else {
        None
    }
}

/// What has to be programmed into the timer so that it interrupts once every
/// `MILLIS_INCREMENT` milliseconds.
#[derive(Clone, Copy, PartialEq, Eq, Structural, Debug)]
pub struct TimerSetup {
    /// The compare value at which the timer clears and interrupts.
    pub compare: u8,
    /// The clock-select setting.
    pub select: ClockSelect,
}

/// The counter behind the clock.
///
/// It starts at zero and moves only when `tick` is called, by
/// `MILLIS_INCREMENT` each time.
#[derive(Clone, Copy, Debug)]
pub struct Clock {
    counter: Millis,
}

impl View for Clock {
    type V = nat;

    /// The milliseconds counted so far.
    closed spec fn view(&self) -> nat {
        self.counter as nat
    }
}

/// The count after one more interrupt: one step further, wrapping at the
/// width of the counter.
pub open spec fn ticked(count: nat) -> nat {
    (count + MILLIS_INCREMENT as nat) % millis_range()
}

/// The count after `n` more interrupts.
pub open spec fn ticked_times(count: nat, n: nat) -> nat
    decreases n,
{
    if n == 0 {
        count
    } else {
        ticked(ticked_times(count, (n - 1) as nat))
    }
}

impl Clock {
    /// Advances the clock by one step.  The timer interrupt calls this, and
    /// nothing else does.
    pub fn tick(&mut self)
        ensures
            final(self)@ == ticked(old(self)@),
            old(self)@ + MILLIS_INCREMENT < millis_range() ==> final(self)@ == old(self)@
                + MILLIS_INCREMENT,
    {
        self.counter = self.counter.wrapping_add(MILLIS_INCREMENT);
    }
}

/// Starts the clock: returns what to program into the timer, and a clock at
/// zero.
///
/// The prescaler is fixed when the crate is built, and that it is one the
/// timer supports is proved here rather than tested on the target.
pub fn init() -> (started: (TimerSetup, Clock))
    ensures
        Some(started.0.select) == spec_clock_select(PRESCALER),
        started.0.compare == TIMER_COUNTS,
        started.1@ == 0,
{
    let select = match clock_select(PRESCALER) {
        Some(select) => select,
        None => vstd::pervasive::unreached(),
    };
    (TimerSetup { compare: TIMER_COUNTS, select }, Clock { counter: 0 })
}

/// The current instant of `clock`.
pub fn now(clock: &Clock) -> (instant: Millis)
    ensures
        instant as nat == clock@,
{
    clock.counter
}

/// While the counter does not wrap, `n` interrupts move the clock forward by
/// `n` steps: an instant read later is never less than one read earlier.
pub proof fn lemma_clock_never_goes_back(count: nat, n: nat)
    requires
        count + n * MILLIS_INCREMENT < millis_range(),
    ensures
        ticked_times(count, n) == count + n * MILLIS_INCREMENT,
        ticked_times(count, n) >= count,
    decreases n,
{
    if n > 0 {
        let m = (n - 1) as nat;
        assert(n * MILLIS_INCREMENT == m * MILLIS_INCREMENT + MILLIS_INCREMENT) by (nonlinear_arith)
            requires
                n == m + 1,
        ;
        lemma_clock_never_goes_back(count, m);
    }
}

/// The length of a deadline.
#[derive(Clone, Copy, PartialEq, Eq, Structural, Debug)]
pub enum Duration {
    /// A span that is measured up to the fixed instant `end`.
    Ref { end: Millis, duration: Millis },
    /// A span that is measured up to the current instant.
    NoRef(Millis),
}

/// The milliseconds from `start` to `end` on a counter that wraps: the
/// difference of the two, taken modulo the counter's range.
pub open spec fn elapsed_between(start: Millis, end: Millis) -> nat {
    if end >= start {
        (end - start) as nat
    } else {
        (end - start + millis_range()) as nat
    }
}

/// Whether `duration` has passed since `start`, at the instant `now`.
pub open spec fn spec_has_elapsed(start: Millis, duration: Duration, now: Millis) -> bool {
    match duration {
        Duration::Ref { end, duration } => elapsed_between(start, end) >= duration,
        Duration::NoRef(duration) => elapsed_between(start, now) >= duration,
    }
}

/// Tells whether `duration` has passed since `start`.
///
/// A `NoRef` span is measured up to `now`, a `Ref` span up to its own `end`,
/// whatever `now` is.  The subtraction wraps as the counter does, so a
/// deadline that was started shortly before the counter wrapped still ends on
/// time.
pub fn has_elapsed(start: Millis, duration: Duration, now: Millis) -> (elapsed: bool)
    ensures
        elapsed == spec_has_elapsed(start, duration, now),
        duration matches Duration::NoRef(span) ==> (start <= now ==> (elapsed <==> now - start
            >= span)),
        duration matches Duration::Ref { end, duration: span } ==> (start <= end ==> (elapsed <==> end
            - start >= span)),
{
    match duration {
        Duration::Ref { end, duration } => end.wrapping_sub(start) >= duration,
        Duration::NoRef(duration) => now.wrapping_sub(start) >= duration,
    }
}

/// A span of time in one of four units.
#[derive(Clone, Copy, PartialEq, Eq, Structural, Debug)]
pub enum TimeSpan {
    Milliseconds(u16),
    Seconds(u16),
    Minutes(u16),
    Hours(u8),
}

/// The length of a span in milliseconds.
pub open spec fn spec_milliseconds(ts: TimeSpan) -> nat {
    match ts {
        TimeSpan::Milliseconds(m) => m as nat,
        TimeSpan::Seconds(s) => s as nat * 1000,
        TimeSpan::Minutes(m) => m as nat * 60000,
        TimeSpan::Hours(h) => h as nat * 3600000,
    }
}

/// Converts a span to milliseconds.  No span is too long for the result.
pub fn milliseconds(ts: TimeSpan) -> (ms: u32)
    ensures
        ms == spec_milliseconds(ts),
{
    match ts {
        TimeSpan::Milliseconds(m) => m as u32,
        TimeSpan::Seconds(s) => s as u32 * 1000,
        TimeSpan::Minutes(m) => m as u32 * 60 * 1000,
        TimeSpan::Hours(h) => h as u32 * 60 * 60 * 1000,
    }
}

impl From<u8> for TimeSpan {
    /// A bare number is a count of milliseconds.
    fn from(value: u8) -> (ts: TimeSpan) {
        TimeSpan::Milliseconds(value as u16)
    }
}

impl vstd::std_specs::convert::FromSpecImpl<u8> for TimeSpan {
    open spec fn obeys_from_spec() -> bool {
        true
    }

    open spec fn from_spec(value: u8) -> TimeSpan {
        TimeSpan::Milliseconds(value as u16)
    }
}

impl From<u16> for TimeSpan {
    /// A bare number is a count of milliseconds.
    fn from(value: u16) -> (ts: TimeSpan) {
        TimeSpan::Milliseconds(value)
    }
}

impl vstd::std_specs::convert::FromSpecImpl<u16> for TimeSpan {
    open spec fn obeys_from_spec() -> bool {
        true
    }

    open spec fn from_spec(value: u16) -> TimeSpan {
        TimeSpan::Milliseconds(value)
    }
}

/// A deadline: the instant it was started at, and how long it runs.
///
/// Nothing but `reset` moves the start, and nothing changes the length.
#[derive(Clone, Copy, PartialEq, Eq, Structural, Debug)]
pub struct Timer {
    /// The instant from which the deadline is measured.
    pub start: Millis,
    /// How long the deadline runs.
    pub duration: Duration,
}

impl Timer {
    /// The deadline of length `timespan` that starts at `now`.
    pub open spec fn spec_new(timespan: TimeSpan, now: Millis) -> Timer {
        Timer { start: now, duration: Duration::NoRef(spec_milliseconds(timespan) as Millis) }
    }

    /// Whether the deadline has passed at the instant `now`.
    pub open spec fn spec_has_elapsed(self, now: Millis) -> bool {
        spec_has_elapsed(self.start, self.duration, now)
    }

    /// Starts a deadline of length `timespan` at the instant `now`.
    pub fn new(timespan: TimeSpan, now: Millis) -> (timer: Timer)
        ensures
            timer == Timer::spec_new(timespan, now),
            timer.start == now,
            timer.duration == Duration::NoRef(spec_milliseconds(timespan) as Millis),
    {
        Timer { start: now, duration: Duration::NoRef(milliseconds(timespan) as u64) }
    }

    /// Starts the deadline again at the instant `now`, with the length it had.
    pub fn reset(&mut self, now: Millis)
        ensures
            final(self).start == now,
            final(self).duration == old(self).duration,
    {
        self.start = now;
    }

    /// Tells whether the deadline has passed at the instant `now`.
    pub fn has_elapsed(&self, now: Millis) -> (elapsed: bool)
        ensures
            elapsed == self.spec_has_elapsed(now),
            self.duration matches Duration::NoRef(span) ==> (self.start <= now ==> (elapsed <==> now
                - self.start >= span)),
    {
        has_elapsed(self.start, self.duration, now)
    }
}

/// A deadline of a given span, started at `start`, has passed at `now`
/// exactly when at least that many milliseconds lie between the two.
pub proof fn lemma_elapsed_at_boundary(timespan: TimeSpan, start: Millis, now: Millis)
    requires
        start <= now,
    ensures
        Timer::spec_new(timespan, start).spec_has_elapsed(now) <==> now - start
            >= spec_milliseconds(timespan),
{
}

/// Once a deadline has passed it stays passed, as long as the clock moves
/// forward and the deadline is not reset.
pub proof fn lemma_elapsed_stays(timer: Timer, earlier: Millis, later: Millis)
    requires
        timer.start <= earlier <= later,
        timer.spec_has_elapsed(earlier),
    ensures
        timer.spec_has_elapsed(later),
{
}

/// Resetting a deadline at `now` makes it run its whole length again: it has
/// passed at a later instant exactly when its length lies between the two.
pub proof fn lemma_reset_runs_full_length(timer: Timer, now: Millis, later: Millis)
    requires
        timer.duration is NoRef,
        now <= later,
    ensures
        ({
            let restarted = Timer { start: now, duration: timer.duration };
            restarted.spec_has_elapsed(later) <==> later - now >= timer.duration->NoRef_0
        }),
{
}

} // verus!
