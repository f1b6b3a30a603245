//! Power sequencing for an audio amplifier chassis and its companion computer.
//!
//! The crate holds the decision logic only: a debounce filter for noisy
//! digital inputs, a millisecond clock with deadlines, and the sequencer that
//! drives relays and enable lines in a safe order.  Every function takes the
//! sampled inputs and the current time as plain values and returns what is to
//! be done, so that the same logic runs on the target and on a simulated
//! clock.  Each item carries a contract that Verus proves.

pub mod level;
pub mod millis;
pub mod debounce;
pub mod state;
pub mod sequencer;
