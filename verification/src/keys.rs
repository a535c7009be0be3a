//! The key presses that the engine distinguishes.
use vstd::prelude::*;

verus! {

/// A key press as the panels and modals see it.  Terminal input events are
/// reduced to this form at the boundary: printable characters keep their
/// character, the three special keys the engine reacts to are named, and
/// every other key is `Other`.
#[derive(Clone, Copy, Debug, PartialEq, Eq, Structural)]
pub enum Key {
    Char(char),
    Backspace,
    Enter,
    Esc,
    Other,
}

} // verus!
