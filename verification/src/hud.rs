//! The state of the heads-up overlay: whether it is showing, and a
//! generation counter that lets a follower thread notice that a newer
//! activation has superseded it.  Window positioning is platform work and
//! happens outside the library.

use vstd::prelude::*;

verus! {

/// The overlay's shared state.
#[derive(Clone, Copy, Debug, PartialEq, Eq, Structural)]
pub struct HudState {
    pub active: bool,
    pub generation: u64,
}

impl HudState {
    /// A fresh, hidden overlay.
    pub fn new() -> (r: HudState)
        ensures
            !r.active,
            r.generation == 0,
    {
        HudState { active: false, generation: 0 }
    }

    /// Marks the overlay shown and steps the generation, so that any
    /// follower of an earlier activation stands down.
    pub fn activate(&mut self)
        ensures
            final(self).active,
            final(self).generation == if old(self).generation == u64::MAX {
                0u64
            } else {
                (old(self).generation + 1) as u64
            },
    {
        self.active = true;
        self.generation = if self.generation == u64::MAX {
            0
        } else {
            self.generation + 1
        };
    }

    /// Marks the overlay hidden; the generation stays.
    pub fn deactivate(&mut self)
        ensures
            !final(self).active,
            final(self).generation == old(self).generation,
    {
        self.active = false;
    }
}

/// Whether the overlay is currently showing.
pub fn is_active(state: &HudState) -> (r: bool)
    ensures
        r == state.active,
{
    state.active
}

} // verus!
