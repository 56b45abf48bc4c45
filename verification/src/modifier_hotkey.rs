//! The modifier-only hotkey data model.  Listening for bare modifier
//! presses needs platform event taps and lives outside the library.

use vstd::prelude::*;

verus! {

/// A modifier key that may act as a hotkey on its own.
#[derive(Clone, Copy, Debug, PartialEq, Eq, Structural)]
pub enum ModifierKey {
    Cmd,
    Option,
    Shift,
    Ctrl,
    Win,
}

} // verus!
