//! The scene's action history (a placeholder: it records nothing yet).
use vstd::prelude::*;

verus! {

/// Stores applied scene actions so that they can be undone and applied again.
/// Actions are not recorded yet: both operations leave it unchanged.
pub struct ActionStack {
    done: u8,
    undone: u8,
}

impl ActionStack {
    /// Records an applied action (not implemented yet: nothing is recorded).
    pub fn push(&self, action: u8) {
    }

    /// Undoes the last action (not implemented yet: nothing happens).
    pub fn undo(&self) {
    }
}

} // verus!
