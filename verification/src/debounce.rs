//! A debounce filter for a noisy digital input.
//!
//! The filter is advanced once per loop iteration with the level that was
//! just read and the instant it was read at.  It accepts a new level only
//! after the input has disagreed with the accepted one for a whole settle
//! delay, and then reports the change once.

use vstd::prelude::*;
use crate::level::DigitalLevel;
use crate::millis::{Duration, Millis, TimeSpan, Timer};

verus! {

/// The settle delay of a filter that is built without one, in milliseconds.
pub const DEFAULT_SETTLE_DELAY: u16 = 10;

/// One reading of the input: the level, and the instant it was read at.
pub struct Sample {
    pub level: DigitalLevel,
    pub at: Millis,
}

/// What a filter holds.
pub struct DebounceView {
    /// How long the input has to disagree before a new level is accepted.
    pub settle_delay: u16,
    /// The level that was accepted last.
    pub stable: DigitalLevel,
    /// The deadline that runs while the input disagrees with `stable`.
    pub candidate: Option<Timer>,
    /// The change that was accepted last and not yet cleared.
    pub event: Option<DigitalLevel>,
}

impl DebounceView {
    /// A deadline that is pending runs for the settle delay of the filter.
    pub open spec fn wf(self) -> bool {
        self.candidate matches Some(timer) ==> timer.duration == Duration::NoRef(
            self.settle_delay as Millis,
        )
    }

    /// The filter as it is built: `first` is accepted unfiltered, nothing is
    /// pending and nothing has changed.
    pub open spec fn initial(first: DigitalLevel, settle_delay: Option<u16>) -> DebounceView {
        DebounceView {
            settle_delay: match settle_delay {
                Some(delay) => delay,
                None => DEFAULT_SETTLE_DELAY,
            },
            stable: first,
            candidate: None,
            event: None,
        }
    }

    /// Whether the reading `raw` at `now` makes the filter accept a new
    /// level: the input disagrees, and the pending deadline has passed.
    pub open spec fn settles(self, raw: DigitalLevel, now: Millis) -> bool {
        &&& raw != self.stable
        &&& self.candidate matches Some(timer)
        &&& timer.spec_has_elapsed(now)
    }

    /// The filter after the reading `raw` at `now`.
    pub open spec fn tick(self, raw: DigitalLevel, now: Millis) -> DebounceView {
        if raw == self.stable {
            DebounceView { candidate: None, ..self }
        } else if self.candidate is None {
            DebounceView {
                candidate: Some(
                    Timer::spec_new(TimeSpan::Milliseconds(self.settle_delay), now),
                ),
                ..self
            }
        } else if self.settles(raw, now) {
            DebounceView { stable: raw, candidate: None, event: Some(raw), ..self }
        } else {
            self
        }
    }

    /// The filter after `clear`.
    pub open spec fn cleared(self) -> DebounceView {
        DebounceView { event: None, ..self }
    }

    /// The filter after the readings `samples`, first to last.
    pub open spec fn run(self, samples: Seq<Sample>) -> DebounceView
        decreases samples.len(),
    {
        if samples.len() == 0 {
            self
        } else {
            self.run(samples.drop_last()).tick(samples.last().level, samples.last().at)
        }
    }

    /// How many times the filter accepts a new level over the readings
    /// `samples`.
    pub open spec fn changes(self, samples: Seq<Sample>) -> nat
        decreases samples.len(),
    {
        if samples.len() == 0 {
            0
        } else {
            let before = self.run(samples.drop_last());
            let earlier = self.changes(samples.drop_last());
            if before.settles(samples.last().level, samples.last().at) {
                earlier + 1
            } else {
                earlier
            }
        }
    }
}

/// The readings were taken on a clock that does not go back.
pub open spec fn in_time_order(samples: Seq<Sample>) -> bool {
    forall|i: int, j: int| 0 <= i <= j < samples.len() ==> samples[i].at <= samples[j].at
}

/// Every reading was taken less than `span` milliseconds after the first.
pub open spec fn all_within(samples: Seq<Sample>, span: u16) -> bool {
    forall|i: int| 0 <= i < samples.len() ==> (#[trigger] samples[i]).at - samples[0].at < span
}

/// No reading is at `level`.
pub open spec fn all_differ_from(samples: Seq<Sample>, level: DigitalLevel) -> bool {
    forall|i: int| 0 <= i < samples.len() ==> (#[trigger] samples[i]).level != level
}

/// A debounce filter.
#[derive(Clone, Copy, Debug)]
pub struct Debounce {
    settle_delay: u16,
    state: DigitalLevel,
    last_change: Option<Timer>,
    change: Option<DigitalLevel>,
}

impl View for Debounce {
    type V = DebounceView;

    closed spec fn view(&self) -> DebounceView {
        DebounceView {
            settle_delay: self.settle_delay,
            stable: self.state,
            candidate: self.last_change,
            event: self.change,
        }
    }
}

impl Debounce {
    /// Builds a filter from the first reading of the input, which is trusted
    /// as it is.  Without a `settle_delay` the filter waits for
    /// `DEFAULT_SETTLE_DELAY` milliseconds.
    pub fn new(first: DigitalLevel, settle_delay: Option<u16>) -> (filter: Debounce)
        ensures
            filter@ == DebounceView::initial(first, settle_delay),
            filter@.wf(),
    {
        let settle_delay = match settle_delay {
            Some(delay) => delay,
            None => DEFAULT_SETTLE_DELAY,
        };
        Debounce { settle_delay, state: first, last_change: None, change: None }
    }

    /// Advances the filter by the reading `raw`, taken at the instant `now`.
    ///
    /// A reading that agrees with the accepted level drops whatever was
    /// pending.  One that disagrees starts a deadline of the settle delay if
    /// none is pending; if one is pending and has passed, the new level is
    /// accepted and reported as a change, replacing a change that was not
    /// cleared; otherwise nothing happens.
    pub fn tick(&mut self, raw: DigitalLevel, now: Millis)
        ensures
            final(self)@ == old(self)@.tick(raw, now),
            old(self)@.wf() ==> final(self)@.wf(),
            final(self)@.candidate is Some ==> raw != final(self)@.stable,
            final(self)@.stable != old(self)@.stable ==> final(self)@.event == Some(raw)
                && final(self)@.stable == raw,
    {
        if raw == self.state {
            self.last_change = None;
            return ;
        }
        match self.last_change {
            None => {
                self.last_change = Some(Timer::new(TimeSpan::from(self.settle_delay), now));
            },
            Some(timer) => {
                if timer.has_elapsed(now) {
                    self.change = Some(raw);
                    self.state = raw;
                    self.last_change = None;
                }
            },
        }
    }

    /// The level that was accepted last, whatever is pending.
    pub fn state(&self) -> (level: DigitalLevel)
        ensures
            level == self@.stable,
    {
        self.state
    }

    /// The change that was accepted last, if it has not been cleared.  The
    /// call leaves it in place.
    pub fn changed(&mut self) -> (event: Option<DigitalLevel>)
        ensures
            event == old(self)@.event,
            *final(self) == *old(self),
    {
        self.change
    }

    /// Discards the change that `changed` reports.
    pub fn clear(&mut self)
        ensures
            final(self)@ == old(self)@.cleared(),
    {
        self.change = None;
    }
}

/// Ticking never loses what the filter is built on: the settle delay stays,
/// a well-formed filter stays well-formed, the accepted level and the
/// reported change move only when a new level is accepted, and a change that
/// was reported stays reported.
pub proof fn lemma_run_keeps(filter: DebounceView, samples: Seq<Sample>)
    ensures
        filter.run(samples).settle_delay == filter.settle_delay,
        filter.wf() ==> filter.run(samples).wf(),
        filter.changes(samples) == 0 ==> filter.run(samples).stable == filter.stable
            && filter.run(samples).event == filter.event,
        filter.event is Some ==> filter.run(samples).event is Some,
    decreases samples.len(),
{
    if samples.len() > 0 {
        lemma_run_keeps(filter, samples.drop_last());
    }
}

/// While less than the settle delay has passed since the first reading,
/// nothing is accepted: the accepted level and the reported change are what
/// they were, whatever the input did.
pub proof fn lemma_nothing_settles_early(filter: DebounceView, samples: Seq<Sample>)
    requires
        filter.wf(),
        filter.candidate is None,
        in_time_order(samples),
        all_within(samples, filter.settle_delay),
    ensures
        filter.changes(samples) == 0,
        filter.run(samples).stable == filter.stable,
        filter.run(samples).event == filter.event,
        filter.run(samples).settle_delay == filter.settle_delay,
        filter.run(samples).candidate matches Some(timer) ==> {
            &&& samples.len() > 0
            &&& timer.duration == Duration::NoRef(filter.settle_delay as Millis)
            &&& samples[0].at <= timer.start <= samples.last().at
        },
    decreases samples.len(),
{
    if samples.len() > 0 {
        let earlier = samples.drop_last();
        assert(in_time_order(earlier)) by {
            assert forall|i: int, j: int| 0 <= i <= j < earlier.len() implies earlier[i].at
                <= earlier[j].at by {
                assert(samples[i].at <= samples[j].at);
            }
        }
        assert forall|i: int| 0 <= i < earlier.len() implies (#[trigger] earlier[i]).at
            - earlier[0].at < filter.settle_delay by {
            assert(samples[i].at - samples[0].at < filter.settle_delay);
        }
        lemma_nothing_settles_early(filter, earlier);
        let last = samples.len() - 1;
        assert(samples[last].at - samples[0].at < filter.settle_delay);
        if earlier.len() > 0 {
            assert(samples[0].at <= samples[last - 1].at <= samples[last].at);
        }
    }
}

/// A bounce that is over before the settle delay has passed leaves no trace:
/// if every reading is taken less than the settle delay after the first, and
/// the last one is back at the accepted level, then no change is reported
/// and the filter is as it was before.
pub proof fn lemma_short_bounce_is_ignored(filter: DebounceView, samples: Seq<Sample>)
    requires
        filter.wf(),
        filter.candidate is None,
        samples.len() > 0,
        in_time_order(samples),
        all_within(samples, filter.settle_delay),
        samples.last().level == filter.stable,
    ensures
        filter.changes(samples) == 0,
        filter.run(samples) == filter,
{
    lemma_nothing_settles_early(filter, samples);
}

/// What a filter has done after readings that all disagree with the level
/// it had accepted: either less than the settle delay lies between the first
/// and the last of them and the deadline that the first one started is still
/// pending, or the new level has been accepted, exactly once.
pub proof fn lemma_steady_input(filter: DebounceView, samples: Seq<Sample>)
    requires
        filter.wf(),
        filter.candidate is None,
        samples.len() > 0,
        in_time_order(samples),
        all_differ_from(samples, filter.stable),
    ensures
        filter.run(samples).settle_delay == filter.settle_delay,
        samples.len() >= 2 && samples.last().at - samples[0].at >= filter.settle_delay ==> {
            &&& filter.changes(samples) == 1
            &&& filter.run(samples).stable == samples[0].level
            &&& filter.run(samples).event == Some(samples[0].level)
            &&& filter.run(samples).candidate is None
        },
        !(samples.len() >= 2 && samples.last().at - samples[0].at >= filter.settle_delay) ==> {
            &&& filter.changes(samples) == 0
            &&& filter.run(samples).stable == filter.stable
            &&& filter.run(samples).event == filter.event
            &&& filter.run(samples).candidate == Some(
                Timer::spec_new(TimeSpan::Milliseconds(filter.settle_delay), samples[0].at),
            )
        },
    decreases samples.len(),
{
    let earlier = samples.drop_last();
    let last = samples.len() - 1;
    if earlier.len() == 0 {
        assert(filter.run(earlier) == filter);
        assert(filter.changes(earlier) == 0);
    } else {
        assert(in_time_order(earlier)) by {
            assert forall|i: int, j: int| 0 <= i <= j < earlier.len() implies earlier[i].at
                <= earlier[j].at by {
                assert(samples[i].at <= samples[j].at);
            }
        }
        assert forall|i: int| 0 <= i < earlier.len() implies (#[trigger] earlier[i]).level
            != filter.stable by {
            assert(samples[i].level != filter.stable);
        }
        lemma_steady_input(filter, earlier);
        assert(earlier[0] == samples[0]);
        assert(earlier.last() == samples[last - 1]);
        assert(samples[0].at <= samples[last - 1].at <= samples[last].at);
        assert(samples[last].level != filter.stable);
        assert(samples[0].level != filter.stable);
    }
}

/// An input that holds a new level for the settle delay is reported once:
/// if every reading disagrees with the accepted level, and at least the
/// settle delay lies between the first reading and a later one, then the
/// filter accepts the new level exactly once, holds it as its state, and
/// reports it as the change.
pub proof fn lemma_held_level_is_reported_once(filter: DebounceView, samples: Seq<Sample>)
    requires
        filter.wf(),
        filter.candidate is None,
        samples.len() >= 2,
        in_time_order(samples),
        all_differ_from(samples, filter.stable),
        samples.last().at - samples[0].at >= filter.settle_delay,
    ensures
        filter.changes(samples) == 1,
        filter.run(samples).stable == samples[0].level,
        filter.run(samples).stable != filter.stable,
        filter.run(samples).event == Some(samples[0].level),
        filter.run(samples).candidate is None,
{
    lemma_steady_input(filter, samples);
}

/// A change that was reported stays reported through any further readings,
/// and only `clear` discards it.
pub proof fn lemma_change_stays_until_cleared(filter: DebounceView, samples: Seq<Sample>)
    requires
        filter.event is Some,
    ensures
        filter.run(samples).event is Some,
        filter.changes(samples) == 0 ==> filter.run(samples).event == filter.event,
        filter.run(samples).cleared().event is None,
{
    lemma_run_keeps(filter, samples);
}

} // verus!
