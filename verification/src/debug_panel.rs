//! A placeholder panel that handles no input.
use crate::action::Action;
use crate::keys::Key;
use vstd::prelude::*;

verus! {

/// A titled panel with no behaviour of its own.
pub struct DebugPanel {
    pub title: String,
}

impl DebugPanel {
    /// Every key is left unhandled.
    pub fn handle_input(&mut self, key: Key) -> (r: Option<Action>)
        ensures
            *final(self) == *old(self),
            r is None,
    {
        Option::None
    }
}

} // verus!
