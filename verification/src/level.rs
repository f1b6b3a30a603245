//! A binary signal level.

use vstd::prelude::*;

verus! {

/// The level of a digital line.
///
/// The value says what the line reads, not what that reading means: whether
/// `Low` or `High` is the active level of a given line is decided where the
/// line is used.
#[derive(Clone, Copy, PartialEq, Eq, Structural, Debug)]
pub enum DigitalLevel {
    /// The line reads low.
    Low,
    /// The line reads high.
    High,
}

impl DigitalLevel {
    /// The level as the answer to "is the line high?".
    pub open spec fn spec_is_high(self) -> bool {
        self == DigitalLevel::High
    }

    /// Whether the line reads high.
    pub fn is_high(self) -> (high: bool)
        ensures
            high == self.spec_is_high(),
    {
        match self {
            DigitalLevel::Low => false,
            DigitalLevel::High => true,
        }
    }

    /// The level that stands for a boolean reading: `true` is `High`,
    /// `false` is `Low`.
    pub open spec fn of(high: bool) -> DigitalLevel {
        if high {
            DigitalLevel::High
        } else {
            DigitalLevel::Low
        }
    }
}

impl From<bool> for DigitalLevel {
    /// `true` is `High`, `false` is `Low`.
    fn from(high: bool) -> (level: DigitalLevel) {
        if high {
            DigitalLevel::High
        } else {
            DigitalLevel::Low
        }
    }
}

impl vstd::std_specs::convert::FromSpecImpl<bool> for DigitalLevel {
    open spec fn obeys_from_spec() -> bool {
        true
    }

    open spec fn from_spec(high: bool) -> DigitalLevel {
        DigitalLevel::of(high)
    }
}

/// Reading a level back as a boolean undoes the conversion from one, and the
/// other way round.
pub proof fn lemma_level_round_trip(high: bool, level: DigitalLevel)
    ensures
        DigitalLevel::of(high).spec_is_high() == high,
        DigitalLevel::of(level.spec_is_high()) == level,
{
}

} // verus!
