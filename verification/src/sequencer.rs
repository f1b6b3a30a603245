//! The power sequencer: what to do next, given the state, the debounced
//! inputs and the time.
//!
//! The sequencer does not touch hardware.  `Sequencer::step` takes the two
//! raw readings of one loop iteration and the instant they were taken at,
//! and returns the row of the transition table that it took.  The row names
//! the commands to carry out, in order, and none of this needs a heap.

use vstd::prelude::*;
use crate::debounce::{Debounce, DebounceView};
use crate::level::DigitalLevel;
use crate::millis::{Millis, TimeSpan, Timer};
use crate::state::{PowerState, FLAG_BUSY, FLAG_CLEAN};

verus! {

/// The settled level of the power switch that asks for power.
pub const SWITCH_ENGAGED: DigitalLevel = DigitalLevel::Low;

/// The settled level of the power switch in its off position.
pub const SWITCH_RELEASED: DigitalLevel = DigitalLevel::High;

/// The settled level of the companion's line once it has shut down.
pub const COMPANION_ACKNOWLEDGED: DigitalLevel = DigitalLevel::High;

/// The settle delay of the power switch, in milliseconds.
pub const SWITCH_SETTLE_DELAY: u16 = 100;

/// How long the mixer runs before the subwoofers are enabled, in seconds.
pub const SUBWOOFER_DELAY_SECONDS: u16 = 5;

/// How long the subwoofers are off before the mixer is disabled, in
/// milliseconds.
pub const MIXER_DELAY_MILLIS: u16 = 250;

/// How long the sequencer waits for the companion before it repeats the
/// shutdown request, in milliseconds.
pub const RETRY_INTERVAL_MILLIS: u16 = 500;

/// The lines that the sequencer drives.
#[derive(Clone, Copy, PartialEq, Eq, Structural, Debug)]
pub enum Output {
    /// The main power rail.
    PowerRail,
    /// The relay that enables the mixer.
    MixerEnable,
    /// The relay that enables the subwoofers.
    SubwooferEnable,
    /// The request line to the companion.  It is asserted while the
    /// companion should run; an edge on it asks the companion to shut down.
    CompanionRequest,
    /// The power supply of the companion.
    CompanionPower,
}

/// One thing for the caller to carry out.
#[derive(Clone, Copy, PartialEq, Eq, Structural, Debug)]
pub enum Command {
    /// Store this value as the recovery flag.
    PersistFlag(u8),
    /// Erase the recovery flag, which sets it back to `FLAG_CLEAN`.
    EraseFlag,
    /// Drive the line to its active level.
    Assert(Output),
    /// Drive the line to its inactive level.
    Deassert(Output),
    /// Drive the line to the level it is not at.
    Toggle(Output),
}

/// What the sequencer looks at, besides its state and the time.
#[derive(Clone, Copy, Debug)]
pub struct Signals {
    /// The change of the power switch that is reported and not yet cleared.
    pub switch_event: Option<DigitalLevel>,
    /// The settled level of the power switch.
    pub switch_level: DigitalLevel,
    /// The settled level of the companion's acknowledge line.
    pub ack_level: DigitalLevel,
}

/// The rows of the transition table.
#[derive(Clone, Copy, PartialEq, Eq, Structural, Debug)]
pub enum Transition {
    /// No guard holds: the state stays and nothing is done.
    Stay,
    /// `Off`, and the switch was engaged.
    PowerUp,
    /// `EnableSubwoofers`, and its deadline has passed.
    SubwoofersOn,
    /// `On`, and the switch was released.
    PowerDown,
    /// `DisableMixer`, and its deadline has passed.
    MixerOff,
    /// `RpiShutdown`, and its deadline has passed.
    RetryRequest,
    /// `RpiShutdown`, and the companion has acknowledged.
    CompanionOff,
    /// `PowerSignalLow`, and the switch is in its off position.
    Recovered,
}

/// The row that applies.  In each state the guards are tried in the order of
/// the table, so in `RpiShutdown` a deadline that has passed goes before an
/// acknowledgement.
pub open spec fn spec_decide(state: PowerState, signals: Signals, now: Millis) -> Transition {
    match state {
        PowerState::Off => if signals.switch_event == Some(SWITCH_ENGAGED) {
            Transition::PowerUp
        } else {
            Transition::Stay
        },
        PowerState::EnableSubwoofers(timer) => if timer.spec_has_elapsed(now) {
            Transition::SubwoofersOn
        } else {
            Transition::Stay
        },
        PowerState::On => if signals.switch_event == Some(SWITCH_RELEASED) {
            Transition::PowerDown
        } else {
            Transition::Stay
        },
        PowerState::DisableMixer(timer) => if timer.spec_has_elapsed(now) {
            Transition::MixerOff
        } else {
            Transition::Stay
        },
        PowerState::RpiShutdown(timer) => if timer.spec_has_elapsed(now) {
            Transition::RetryRequest
        } else if signals.ack_level == COMPANION_ACKNOWLEDGED {
            Transition::CompanionOff
        } else {
            Transition::Stay
        },
        PowerState::PowerSignalLow => if signals.switch_level == SWITCH_RELEASED {
            Transition::Recovered
        } else {
            Transition::Stay
        },
    }
}

impl Transition {
    /// The state that the transition leads to, taken from `state` at `now`.
    pub open spec fn spec_target(self, state: PowerState, now: Millis) -> PowerState {
        match self {
            Transition::Stay => state,
            Transition::PowerUp => PowerState::EnableSubwoofers(
                Timer::spec_new(TimeSpan::Seconds(SUBWOOFER_DELAY_SECONDS), now),
            ),
            Transition::SubwoofersOn => PowerState::On,
            Transition::PowerDown => PowerState::DisableMixer(
                Timer::spec_new(TimeSpan::Milliseconds(MIXER_DELAY_MILLIS), now),
            ),
            Transition::MixerOff => PowerState::RpiShutdown(
                Timer::spec_new(TimeSpan::Milliseconds(RETRY_INTERVAL_MILLIS), now),
            ),
            Transition::RetryRequest => PowerState::RpiShutdown(
                Timer::spec_new(TimeSpan::Milliseconds(RETRY_INTERVAL_MILLIS), now),
            ),
            Transition::CompanionOff => PowerState::Off,
            Transition::Recovered => PowerState::Off,
        }
    }

    /// What the transition does to the outputs and to the recovery flag, in
    /// the order in which it is to be done.
    pub open spec fn spec_commands(self) -> Seq<Command> {
        match self {
            Transition::Stay => seq![],
            Transition::PowerUp => seq![
                Command::PersistFlag(FLAG_BUSY),
                Command::Assert(Output::PowerRail),
                Command::Assert(Output::MixerEnable),
                Command::Assert(Output::CompanionRequest),
                Command::Assert(Output::CompanionPower),
            ],
            Transition::SubwoofersOn => seq![Command::Assert(Output::SubwooferEnable)],
            Transition::PowerDown => seq![
                Command::Deassert(Output::SubwooferEnable),
                Command::Deassert(Output::CompanionRequest),
            ],
            Transition::MixerOff => seq![Command::Deassert(Output::MixerEnable)],
            Transition::RetryRequest => seq![Command::Toggle(Output::CompanionRequest)],
            Transition::CompanionOff => seq![
                Command::Deassert(Output::CompanionPower),
                Command::EraseFlag,
                Command::Deassert(Output::PowerRail),
            ],
            Transition::Recovered => seq![
                Command::EraseFlag,
                Command::Deassert(Output::PowerRail),
            ],
        }
    }

    /// Whether the transition uses up the change that the switch reported.
    pub open spec fn spec_clears_switch(self) -> bool {
        self == Transition::PowerUp || self == Transition::PowerDown
    }

    /// Whether the transition uses up the change that the acknowledge line
    /// reported.
    pub open spec fn spec_clears_ack(self) -> bool {
        self == Transition::CompanionOff
    }

    /// The state that the transition leads to.  A deadline of the new state
    /// starts at `now`.
    pub fn target(self, state: PowerState, now: Millis) -> (next: PowerState)
        ensures
            next == self.spec_target(state, now),
            self == Transition::Stay ==> next == state,
    {
        match self {
            Transition::Stay => state,
            Transition::PowerUp => PowerState::EnableSubwoofers(
                Timer::new(TimeSpan::Seconds(SUBWOOFER_DELAY_SECONDS), now),
            ),
            Transition::SubwoofersOn => PowerState::On,
            Transition::PowerDown => PowerState::DisableMixer(
                Timer::new(TimeSpan::from(MIXER_DELAY_MILLIS), now),
            ),
            Transition::MixerOff => PowerState::RpiShutdown(
                Timer::new(TimeSpan::Milliseconds(RETRY_INTERVAL_MILLIS), now),
            ),
            Transition::RetryRequest => PowerState::RpiShutdown(
                Timer::new(TimeSpan::Milliseconds(RETRY_INTERVAL_MILLIS), now),
            ),
            Transition::CompanionOff => PowerState::Off,
            Transition::Recovered => PowerState::Off,
        }
    }

    /// The command of the transition at the place `index`, counted from
    /// zero in the order in which the commands are to be carried out, or
    /// `None` past the last one.
    pub fn command(self, index: usize) -> (command: Option<Command>)
        ensures
            index < self.spec_commands().len() ==> command == Some(
                self.spec_commands()[index as int],
            ),
            index >= self.spec_commands().len() ==> command is None,
    {
        match self {
            Transition::Stay => None,
            Transition::PowerUp => match index {
                0 => Some(Command::PersistFlag(FLAG_BUSY)),
                1 => Some(Command::Assert(Output::PowerRail)),
                2 => Some(Command::Assert(Output::MixerEnable)),
                3 => Some(Command::Assert(Output::CompanionRequest)),
                4 => Some(Command::Assert(Output::CompanionPower)),
                _ => None,
            },
            Transition::SubwoofersOn => match index {
                0 => Some(Command::Assert(Output::SubwooferEnable)),
                _ => None,
            },
            Transition::PowerDown => match index {
                0 => Some(Command::Deassert(Output::SubwooferEnable)),
                1 => Some(Command::Deassert(Output::CompanionRequest)),
                _ => None,
            },
            Transition::MixerOff => match index {
                0 => Some(Command::Deassert(Output::MixerEnable)),
                _ => None,
            },
            Transition::RetryRequest => match index {
                0 => Some(Command::Toggle(Output::CompanionRequest)),
                _ => None,
            },
            Transition::CompanionOff => match index {
                0 => Some(Command::Deassert(Output::CompanionPower)),
                1 => Some(Command::EraseFlag),
                2 => Some(Command::Deassert(Output::PowerRail)),
                _ => None,
            },
            Transition::Recovered => match index {
                0 => Some(Command::EraseFlag),
                1 => Some(Command::Deassert(Output::PowerRail)),
                _ => None,
            },
        }
    }

    /// Whether the transition uses up the change that the switch reported.
    pub fn clears_switch(self) -> (clears: bool)
        ensures
            clears == self.spec_clears_switch(),
    {
        match self {
            Transition::PowerUp => true,
            Transition::PowerDown => true,
            _ => false,
        }
    }

    /// Whether the transition uses up the change that the acknowledge line
    /// reported.
    pub fn clears_ack(self) -> (clears: bool)
        ensures
            clears == self.spec_clears_ack(),
    {
        match self {
            Transition::CompanionOff => true,
            _ => false,
        }
    }
}

/// Picks the row of the transition table that applies to `state`, given the
/// debounced inputs and the instant `now`.
///
/// Every combination of state and inputs that the table does not list gives
/// `Stay`.
pub fn decide(state: PowerState, signals: Signals, now: Millis) -> (transition: Transition)
    ensures
        transition == spec_decide(state, signals, now),
{
    match state {
        PowerState::Off => {
            match signals.switch_event {
                Some(level) => {
                    if level == SWITCH_ENGAGED {
                        Transition::PowerUp
                    } else {
                        Transition::Stay
                    }
                },
                None => Transition::Stay,
            }
        },
        PowerState::EnableSubwoofers(timer) => {
            if timer.has_elapsed(now) {
                Transition::SubwoofersOn
            } else {
                Transition::Stay
            }
        },
        PowerState::On => {
            match signals.switch_event {
                Some(level) => {
                    if level == SWITCH_RELEASED {
                        Transition::PowerDown
                    } else {
                        Transition::Stay
                    }
                },
                None => Transition::Stay,
            }
        },
        PowerState::DisableMixer(timer) => {
            if timer.has_elapsed(now) {
                Transition::MixerOff
            } else {
                Transition::Stay
            }
        },
        PowerState::RpiShutdown(timer) => {
            if timer.has_elapsed(now) {
                Transition::RetryRequest
            } else if signals.ack_level == COMPANION_ACKNOWLEDGED {
                Transition::CompanionOff
            } else {
                Transition::Stay
            }
        },
        PowerState::PowerSignalLow => {
            if signals.switch_level == SWITCH_RELEASED {
                Transition::Recovered
            } else {
                Transition::Stay
            }
        },
    }
}

/// What one step of the sequencer did.
#[derive(Clone, Copy, Debug)]
pub struct Step {
    /// The row of the table that was taken.  Its commands are to be carried
    /// out.
    pub transition: Transition,
    /// The state before the step.
    pub from: PowerState,
    /// The state after the step.
    pub to: PowerState,
}

impl Step {
    /// Whether the step has changed the phase.
    pub open spec fn spec_phase_changed(self) -> bool {
        !self.from.same_phase(self.to)
    }

    /// Tells whether the step has changed the phase, going by the phases and
    /// not by the deadlines.  If it has, a line is to be written to the log
    /// that gives the time and the names of `from` and `to`.
    pub fn phase_changed(&self) -> (changed: bool)
        ensures
            changed == self.spec_phase_changed(),
    {
        self.from != self.to
    }
}

/// What a sequencer holds.
pub struct SequencerView {
    /// The filter on the power switch.
    pub switch: DebounceView,
    /// The filter on the companion's acknowledge line.
    pub ack: DebounceView,
    /// The current state.
    pub state: PowerState,
}

impl SequencerView {
    /// Both filters are well-formed.
    pub open spec fn wf(self) -> bool {
        self.switch.wf() && self.ack.wf()
    }

    /// The sequencer as it is built.
    pub open spec fn initial(
        switch_first: DigitalLevel,
        ack_first: DigitalLevel,
        persisted: Option<u8>,
    ) -> SequencerView {
        SequencerView {
            switch: DebounceView::initial(switch_first, Some(SWITCH_SETTLE_DELAY)),
            ack: DebounceView::initial(ack_first, None),
            state: PowerState::spec_boot(persisted),
        }
    }

    /// The sequencer after both filters have taken their reading.
    pub open spec fn sampled(
        self,
        switch_raw: DigitalLevel,
        ack_raw: DigitalLevel,
        now: Millis,
    ) -> SequencerView {
        SequencerView {
            switch: self.switch.tick(switch_raw, now),
            ack: self.ack.tick(ack_raw, now),
            state: self.state,
        }
    }

    /// What the transition table is given to look at.
    pub open spec fn signals(self) -> Signals {
        Signals {
            switch_event: self.switch.event,
            switch_level: self.switch.stable,
            ack_level: self.ack.stable,
        }
    }

    /// The row of the table that one step takes.
    pub open spec fn transition(
        self,
        switch_raw: DigitalLevel,
        ack_raw: DigitalLevel,
        now: Millis,
    ) -> Transition {
        let sampled = self.sampled(switch_raw, ack_raw, now);
        spec_decide(sampled.state, sampled.signals(), now)
    }

    /// What one step reports.
    pub open spec fn outcome(
        self,
        switch_raw: DigitalLevel,
        ack_raw: DigitalLevel,
        now: Millis,
    ) -> Step {
        let transition = self.transition(switch_raw, ack_raw, now);
        Step { transition, from: self.state, to: transition.spec_target(self.state, now) }
    }

    /// The sequencer after one step.
    pub open spec fn step(
        self,
        switch_raw: DigitalLevel,
        ack_raw: DigitalLevel,
        now: Millis,
    ) -> SequencerView {
        let sampled = self.sampled(switch_raw, ack_raw, now);
        let transition = self.transition(switch_raw, ack_raw, now);
        SequencerView {
            switch: if transition.spec_clears_switch() {
                sampled.switch.cleared()
            } else {
                sampled.switch
            },
            ack: if transition.spec_clears_ack() {
                sampled.ack.cleared()
            } else {
                sampled.ack
            },
            state: transition.spec_target(self.state, now),
        }
    }
}

/// The power sequencer: the two debounce filters and the current state.
#[derive(Clone, Copy, Debug)]
pub struct Sequencer {
    power_signal: Debounce,
    rpi_signal: Debounce,
    power_state: PowerState,
}

impl View for Sequencer {
    type V = SequencerView;

    closed spec fn view(&self) -> SequencerView {
        SequencerView {
            switch: self.power_signal@,
            ack: self.rpi_signal@,
            state: self.power_state,
        }
    }
}

impl Sequencer {
    /// Builds the sequencer from the first readings of the power switch and
    /// of the acknowledge line, and from the recovery flag as it was read
    /// from the store (`None` if the read failed).
    ///
    /// The sequencer starts in `Off` only if the flag is clean.  Otherwise it
    /// starts in `PowerSignalLow`, whatever the switch reads.
    pub fn new(
        switch_first: DigitalLevel,
        ack_first: DigitalLevel,
        persisted: Option<u8>,
    ) -> (sequencer: Sequencer)
        ensures
            sequencer@ == SequencerView::initial(switch_first, ack_first, persisted),
            sequencer@.wf(),
    {
        Sequencer {
            power_signal: Debounce::new(switch_first, Some(SWITCH_SETTLE_DELAY)),
            rpi_signal: Debounce::new(ack_first, None),
            power_state: PowerState::boot(persisted),
        }
    }

    /// The current state.
    pub fn state(&self) -> (state: PowerState)
        ensures
            state == self@.state,
    {
        self.power_state
    }

    /// The filter on the power switch.
    pub fn power_signal(&self) -> (filter: &Debounce)
        ensures
            filter@ == self@.switch,
    {
        &self.power_signal
    }

    /// The filter on the companion's acknowledge line.
    pub fn rpi_signal(&self) -> (filter: &Debounce)
        ensures
            filter@ == self@.ack,
    {
        &self.rpi_signal
    }

    /// Runs one iteration: advances both filters by the readings
    /// `switch_raw` and `ack_raw`, taken at the instant `now`, and takes the
    /// row of the transition table that applies.
    ///
    /// The result names the row, whose commands the caller carries out in
    /// order, and the states before and after.  A change that a filter
    /// reported is used up by the transition that acts on it, and by no
    /// other.
    pub fn step(
        &mut self,
        switch_raw: DigitalLevel,
        ack_raw: DigitalLevel,
        now: Millis,
    ) -> (outcome: Step)
        ensures
            final(self)@ == old(self)@.step(switch_raw, ack_raw, now),
            outcome == old(self)@.outcome(switch_raw, ack_raw, now),
            old(self)@.wf() ==> final(self)@.wf(),
    {
        self.power_signal.tick(switch_raw, now);
        self.rpi_signal.tick(ack_raw, now);
        let signals = Signals {
            switch_event: self.power_signal.changed(),
            switch_level: self.power_signal.state(),
            ack_level: self.rpi_signal.state(),
        };
        let from = self.power_state;
        let transition = decide(from, signals, now);
        if transition.clears_switch() {
            self.power_signal.clear();
        }
        if transition.clears_ack() {
            self.rpi_signal.clear();
        }
        let to = transition.target(from, now);
        self.power_state = to;
        Step { transition, from, to }
    }
}

/// The recovery flag after `commands` have been carried out on a store that
/// held `flag`: a stored value replaces it, an erase makes it clean, and
/// nothing else touches it.
pub open spec fn flag_after(flag: u8, commands: Seq<Command>) -> u8
    decreases commands.len(),
{
    if commands.len() == 0 {
        flag
    } else {
        match commands.last() {
            Command::PersistFlag(value) => value,
            Command::EraseFlag => FLAG_CLEAN,
            _ => flag_after(flag, commands.drop_last()),
        }
    }
}

/// A row whose guard does not hold changes nothing: the state stays as it
/// is, deadline included, nothing is to be carried out, and no change that
/// a filter reported is used up.
pub proof fn lemma_stay_changes_nothing(
    sequencer: SequencerView,
    switch_raw: DigitalLevel,
    ack_raw: DigitalLevel,
    now: Millis,
)
    requires
        sequencer.transition(switch_raw, ack_raw, now) == Transition::Stay,
    ensures
        sequencer.step(switch_raw, ack_raw, now) == sequencer.sampled(switch_raw, ack_raw, now),
        sequencer.step(switch_raw, ack_raw, now).state == sequencer.state,
        sequencer.outcome(switch_raw, ack_raw, now).transition.spec_commands().len() == 0,
        !sequencer.outcome(switch_raw, ack_raw, now).spec_phase_changed(),
{
}

/// The recovery flag is clean exactly while the sequencer is `Off`, and
/// every transition keeps it so: the flag is stored when a power cycle
/// begins and erased when the sequencer comes back to `Off`, along the
/// shutdown or from the recovery state, and at no other time.
pub proof fn lemma_flag_is_clean_only_when_off(
    flag: u8,
    state: PowerState,
    signals: Signals,
    now: Millis,
)
    requires
        flag == FLAG_CLEAN <==> state is Off,
    ensures
        ({
            let transition = spec_decide(state, signals, now);
            let stored = flag_after(flag, transition.spec_commands());
            &&& stored == FLAG_CLEAN <==> transition.spec_target(state, now) is Off
            &&& transition == Transition::PowerUp ==> stored == FLAG_BUSY
            &&& transition != Transition::PowerUp && transition != Transition::CompanionOff
                && transition != Transition::Recovered ==> stored == flag
        }),
{
    let transition = spec_decide(state, signals, now);
    let commands = transition.spec_commands();
    reveal_with_fuel(flag_after, 6);
    match transition {
        Transition::PowerUp => {
            let first = commands.drop_last().drop_last().drop_last().drop_last();
            assert(first.last() == Command::PersistFlag(FLAG_BUSY));
        },
        Transition::CompanionOff => {
            assert(commands.drop_last().last() == Command::EraseFlag);
        },
        Transition::Recovered => {
            assert(commands.drop_last().last() == Command::EraseFlag);
        },
        _ => {},
    }
}

/// The same for a whole step of the sequencer, filters included.
pub proof fn lemma_step_keeps_flag_in_line(
    flag: u8,
    sequencer: SequencerView,
    switch_raw: DigitalLevel,
    ack_raw: DigitalLevel,
    now: Millis,
)
    requires
        flag == FLAG_CLEAN <==> sequencer.state is Off,
    ensures
        flag_after(flag, sequencer.outcome(switch_raw, ack_raw, now).transition.spec_commands())
            == FLAG_CLEAN <==> sequencer.step(switch_raw, ack_raw, now).state is Off,
{
    let sampled = sequencer.sampled(switch_raw, ack_raw, now);
    lemma_flag_is_clean_only_when_off(flag, sequencer.state, sampled.signals(), now);
}

/// The readings of one loop iteration: the raw level of the power switch and
/// of the acknowledge line, and the instant they were taken at.
pub struct Reading {
    pub switch: DigitalLevel,
    pub ack: DigitalLevel,
    pub at: Millis,
}

impl SequencerView {
    /// The sequencer after one step for each of `readings`, first to last.
    pub open spec fn run(self, readings: Seq<Reading>) -> SequencerView
        decreases readings.len(),
    {
        if readings.len() == 0 {
            self
        } else {
            let last = readings.last();
            self.run(readings.drop_last()).step(last.switch, last.ack, last.at)
        }
    }

    /// The recovery flag after the commands of all those steps have been
    /// carried out on a store that held `flag`.
    pub open spec fn flag_through(self, flag: u8, readings: Seq<Reading>) -> u8
        decreases readings.len(),
    {
        if readings.len() == 0 {
            flag
        } else {
            let last = readings.last();
            let before = self.run(readings.drop_last());
            flag_after(
                self.flag_through(flag, readings.drop_last()),
                before.outcome(last.switch, last.ack, last.at).transition.spec_commands(),
            )
        }
    }
}

/// However long the sequencer runs and whatever it reads, the recovery flag
/// tells whether it is in the middle of a power cycle: if the flag was clean
/// exactly when the sequencer was `Off` to begin with, it is so after every
/// step.
pub proof fn lemma_flag_follows_every_run(
    flag: u8,
    sequencer: SequencerView,
    readings: Seq<Reading>,
)
    requires
        flag == FLAG_CLEAN <==> sequencer.state is Off,
    ensures
        sequencer.flag_through(flag, readings) == FLAG_CLEAN <==> sequencer.run(readings).state
            is Off,
    decreases readings.len(),
{
    if readings.len() > 0 {
        let last = readings.last();
        lemma_flag_follows_every_run(flag, sequencer, readings.drop_last());
        lemma_step_keeps_flag_in_line(
            sequencer.flag_through(flag, readings.drop_last()),
            sequencer.run(readings.drop_last()),
            last.switch,
            last.ack,
            last.at,
        );
    }
}

/// A step changes the phase exactly when it takes a row other than `Stay`
/// and `RetryRequest`: a repeated shutdown request starts a new deadline but
/// stays in its phase, so it is not logged.
pub proof fn lemma_phase_changes_with_the_row(state: PowerState, signals: Signals, now: Millis)
    ensures
        ({
            let transition = spec_decide(state, signals, now);
            let step = Step { transition, from: state, to: transition.spec_target(state, now) };
            step.spec_phase_changed() <==> transition != Transition::Stay && transition
                != Transition::RetryRequest
        }),
{
}

/// After power-up the subwoofers wait for the whole delay: from the state
/// that `PowerUp` leads to at `entered`, a step at a later instant enables
/// them exactly when at least five seconds have passed, and stays otherwise.
pub proof fn lemma_subwoofers_wait_full_delay(entered: Millis, signals: Signals, now: Millis)
    requires
        entered <= now,
    ensures
        ({
            let waiting = Transition::PowerUp.spec_target(PowerState::Off, entered);
            let transition = spec_decide(waiting, signals, now);
            &&& waiting is EnableSubwoofers
            &&& now - entered >= 5000 ==> transition == Transition::SubwoofersOn
                && transition.spec_target(waiting, now) is On
            &&& now - entered < 5000 ==> transition == Transition::Stay && transition.spec_target(
                waiting,
                now,
            ) == waiting
        }),
{
}

/// The shutdown keeps its times.  From `On` a released switch leads to
/// `DisableMixer`; the mixer goes off exactly when 250 ms have passed since,
/// which leads to `RpiShutdown`.  There, each time 500 ms have passed the
/// request line is toggled and the wait starts again; before that an
/// acknowledgement leads to `Off`, and without one nothing happens.
pub proof fn lemma_shutdown_keeps_its_times(entered: Millis, signals: Signals, now: Millis)
    requires
        entered <= now,
    ensures
        ({
            let draining = Transition::PowerDown.spec_target(PowerState::On, entered);
            let transition = spec_decide(draining, signals, now);
            &&& draining is DisableMixer
            &&& transition == if now - entered >= 250 {
                Transition::MixerOff
            } else {
                Transition::Stay
            }
        }),
        ({
            let asking = Transition::MixerOff.spec_target(PowerState::On, entered);
            let again = Transition::RetryRequest.spec_target(asking, entered);
            let transition = spec_decide(asking, signals, now);
            &&& asking is RpiShutdown
            &&& again == asking
            &&& transition == if now - entered >= 500 {
                Transition::RetryRequest
            } else if signals.ack_level == COMPANION_ACKNOWLEDGED {
                Transition::CompanionOff
            } else {
                Transition::Stay
            }
            &&& Transition::RetryRequest.spec_commands() == seq![
                Command::Toggle(Output::CompanionRequest),
            ]
            &&& Transition::CompanionOff.spec_target(asking, now) is Off
        }),
{
}

/// After a boot with a flag that is not clean, or that could not be read,
/// the sequencer drives nothing until the switch has settled in its off
/// position: the raw reading of the switch does not count, only the level
/// that its filter has accepted.
pub proof fn lemma_recovery_waits_for_released_switch(
    persisted: Option<u8>,
    sequencer: SequencerView,
    switch_raw: DigitalLevel,
    ack_raw: DigitalLevel,
    now: Millis,
)
    requires
        persisted != Some(FLAG_CLEAN),
        sequencer.state == PowerState::spec_boot(persisted),
    ensures
        sequencer.state is PowerSignalLow,
        ({
            let settled = sequencer.switch.tick(switch_raw, now).stable;
            let after = sequencer.step(switch_raw, ack_raw, now);
            let outcome = sequencer.outcome(switch_raw, ack_raw, now);
            &&& settled == SWITCH_RELEASED ==> after.state is Off && outcome.transition
                == Transition::Recovered
            &&& settled != SWITCH_RELEASED ==> after.state is PowerSignalLow && outcome.transition
                == Transition::Stay
        }),
{
}

} // verus!
