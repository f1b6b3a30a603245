//! The phases of the power sequence.

use vstd::prelude::*;
use crate::millis::Timer;

verus! {

/// The value of the recovery flag while the sequencer is cleanly off.
pub const FLAG_CLEAN: u8 = 0;

/// The value that is stored when a power cycle begins.  Any value but
/// `FLAG_CLEAN` says that power was lost in the middle of a cycle.
pub const FLAG_BUSY: u8 = 1;

/// Where the recovery flag lives in the non-volatile store.
pub const FLAG_OFFSET: u16 = 150;

/// The phase the sequencer is in, with the deadline that the phase waits
/// for where it has one.  The variants are listed in the order of a power
/// cycle.
#[derive(Clone, Copy, Debug)]
pub enum PowerState {
    /// Everything is off.
    Off,
    /// Power is up and the mixer is enabled; the subwoofers follow when the
    /// deadline has passed.
    EnableSubwoofers(Timer),
    /// Everything is on.
    On,
    /// The subwoofers are disabled; the mixer follows when the deadline has
    /// passed.
    DisableMixer(Timer),
    /// The companion has been asked to shut down.  The request is repeated
    /// each time the deadline passes, until the companion acknowledges.
    RpiShutdown(Timer),
    /// Power was lost in the middle of a cycle.  Nothing is driven until the
    /// switch is back in its off position.
    PowerSignalLow,
}

impl PowerState {
    /// Whether two states are in the same phase, whatever their deadlines.
    pub open spec fn same_phase(self, other: PowerState) -> bool {
        match (self, other) {
            (PowerState::Off, PowerState::Off) => true,
            (PowerState::EnableSubwoofers(_), PowerState::EnableSubwoofers(_)) => true,
            (PowerState::On, PowerState::On) => true,
            (PowerState::DisableMixer(_), PowerState::DisableMixer(_)) => true,
            (PowerState::RpiShutdown(_), PowerState::RpiShutdown(_)) => true,
            (PowerState::PowerSignalLow, PowerState::PowerSignalLow) => true,
            (_, _) => false,
        }
    }

    /// The name of the phase.
    pub open spec fn spec_name(self) -> Seq<char> {
        match self {
            PowerState::Off => "Off"@,
            PowerState::EnableSubwoofers(_) => "EnableSubwoofers"@,
            PowerState::On => "On"@,
            PowerState::DisableMixer(_) => "DisableMixer"@,
            PowerState::RpiShutdown(_) => "RpiShutdown"@,
            PowerState::PowerSignalLow => "PowerSignalLow"@,
        }
    }

    /// The name of the phase, as it is written to the log.
    pub fn name(&self) -> (name: &'static str)
        ensures
            name@ == self.spec_name(),
    {
        match self {
            PowerState::Off => "Off",
            PowerState::EnableSubwoofers(_) => "EnableSubwoofers",
            PowerState::On => "On",
            PowerState::DisableMixer(_) => "DisableMixer",
            PowerState::RpiShutdown(_) => "RpiShutdown",
            PowerState::PowerSignalLow => "PowerSignalLow",
        }
    }

    /// The state to start in, given what was read of the recovery flag:
    /// `Off` if the flag is clean, `PowerSignalLow` if it is not or could not
    /// be read.
    pub open spec fn spec_boot(persisted: Option<u8>) -> PowerState {
        if persisted == Some(FLAG_CLEAN) {
            PowerState::Off
        } else {
            PowerState::PowerSignalLow
        }
    }

    /// Chooses the state to start in.  `persisted` is the recovery flag as it
    /// was read from the store, or `None` if the read failed.
    ///
    /// Only a clean flag starts the sequencer in `Off`.  A failed read counts
    /// as a flag that is set.
    pub fn boot(persisted: Option<u8>) -> (state: PowerState)
        ensures
            state == PowerState::spec_boot(persisted),
            state is Off <==> persisted == Some(FLAG_CLEAN),
            state is Off || state is PowerSignalLow,
    {
        match persisted {
            Some(flag) => {
                if flag == FLAG_CLEAN {
                    PowerState::Off
                } else {
                    PowerState::PowerSignalLow
                }
            },
            None => PowerState::PowerSignalLow,
        }
    }
}

impl PartialEq for PowerState {
    /// Two states are equal when they are in the same phase.  The deadlines
    /// are not compared: equality tells whether the phase has changed, and
    /// nothing about timing.
    fn eq(&self, other: &PowerState) -> (equal: bool) {
        match (self, other) {
            (PowerState::Off, PowerState::Off) => true,
            (PowerState::EnableSubwoofers(_), PowerState::EnableSubwoofers(_)) => true,
            (PowerState::On, PowerState::On) => true,
            (PowerState::DisableMixer(_), PowerState::DisableMixer(_)) => true,
            (PowerState::RpiShutdown(_), PowerState::RpiShutdown(_)) => true,
            (PowerState::PowerSignalLow, PowerState::PowerSignalLow) => true,
            (_, _) => false,
        }
    }
}

impl vstd::std_specs::cmp::PartialEqSpecImpl for PowerState {
    open spec fn obeys_eq_spec() -> bool {
        true
    }

    open spec fn eq_spec(&self, other: &PowerState) -> bool {
        self.same_phase(*other)
    }
}

/// Being in the same phase is an equivalence, and it does not look at the
/// deadlines.
pub proof fn lemma_same_phase_is_equivalence(a: PowerState, b: PowerState, c: PowerState)
    ensures
        a.same_phase(a),
        a.same_phase(b) == b.same_phase(a),
        a.same_phase(b) && b.same_phase(c) ==> a.same_phase(c),
        a == b ==> a.same_phase(b),
{
}

/// Two states of one phase are equal whatever their deadlines are, and
/// states of different phases are not.
pub proof fn lemma_same_phase_ignores_deadline(first: Timer, second: Timer)
    ensures
        PowerState::EnableSubwoofers(first).same_phase(PowerState::EnableSubwoofers(second)),
        PowerState::DisableMixer(first).same_phase(PowerState::DisableMixer(second)),
        PowerState::RpiShutdown(first).same_phase(PowerState::RpiShutdown(second)),
        !PowerState::EnableSubwoofers(first).same_phase(PowerState::DisableMixer(first)),
        !PowerState::DisableMixer(first).same_phase(PowerState::RpiShutdown(first)),
        !PowerState::RpiShutdown(first).same_phase(PowerState::EnableSubwoofers(first)),
{
}

/// Two states are in the same phase exactly when they have the same name.
pub proof fn lemma_name_tells_phase(a: PowerState, b: PowerState)
    ensures
        a.same_phase(b) <==> a.spec_name() == b.spec_name(),
{
    reveal_strlit("Off");
    reveal_strlit("EnableSubwoofers");
    reveal_strlit("On");
    reveal_strlit("DisableMixer");
    reveal_strlit("RpiShutdown");
    reveal_strlit("PowerSignalLow");
    if !a.same_phase(b) {
        assert(a.spec_name().len() != b.spec_name().len() || a.spec_name()[0] != b.spec_name()[0]);
    }
}

} // verus!
