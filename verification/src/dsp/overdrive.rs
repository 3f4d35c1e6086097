//! The overdrive slot.  It keeps no state between blocks; its waveshaping
//! runs with the host's sample processing.

use vstd::prelude::*;

verus! {

/// Stateless overdrive effect.
#[derive(Debug, Clone, Copy, PartialEq, Eq, Structural)]
pub struct Overdrive;

impl Overdrive {
    /// A new overdrive.
    pub fn new() -> (r: Self)
        ensures
            r == Overdrive,
    {
        Self
    }

    /// Clears the effect's state; an overdrive has none, so it is unchanged.
    pub fn reset(&mut self)
        ensures
            *final(self) == *old(self),
    {
    }
}

} // verus!
