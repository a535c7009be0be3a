//! Event engine for a terminal attendance tracker.
//!
//! The library holds the verified core of the application: the focus and
//! modal-overlay state machine, the action-dispatch protocol, the panels'
//! input handling, and the text-field editor that the modals wrap.  Terminal
//! rendering, the async runtime and the persistence engine live outside the
//! library and talk to it through plain values.
use vstd::prelude::*;

pub mod action;
pub mod calendar_panel;
pub mod dates;
pub mod debug_panel;
pub mod dispatch;
pub mod keys;
pub mod laws;
pub mod list_picker;
pub mod location_modal;
pub mod location_panel;
pub mod modal;
pub mod models;
pub mod record_modal;
pub mod text;
pub mod textfield_component;

verus! {

/// Top-level panes of the interface; `Status` is reserved for future use.
pub enum Pane {
    Status,
    Location,
    Calendar,
}

} // verus!
