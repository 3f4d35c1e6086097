//! Pitch-shifting modes.  The shifters themselves process samples with the
//! host.

use vstd::prelude::*;

verus! {

/// The two pitch-shifting algorithms: granular overlap-add (fast) and a
/// phase vocoder (high quality).
#[derive(Debug, Clone, Copy, PartialEq, Eq, Structural)]
pub enum ShiftMode {
    PsoLa,
    PhaseVocoder,
}

} // verus!
