//! The modal overlay: at most one, drawn above the panels.
//!
//! While a modal is active it owns the input exclusively; the dispatcher
//! alone opens and closes it.
use crate::location_modal::AddLocationModal;
use crate::record_modal::AddRecordModal;
use vstd::prelude::*;

verus! {

/// The overlay state: no overlay, or exactly one of the two modals.
pub enum ActiveModal {
    Closed,
    AddLocation(AddLocationModal),
    AddRecord(AddRecordModal),
}

impl ActiveModal {
    /// Whatever modal is open is well formed.
    pub open spec fn wf(&self) -> bool {
        match *self {
            ActiveModal::Closed => true,
            ActiveModal::AddLocation(m) => m.wf(),
            ActiveModal::AddRecord(m) => m.wf(),
        }
    }

    /// Whether an overlay is open and owns the input.
    pub open spec fn is_active(&self) -> bool {
        !(*self is Closed)
    }
}

} // verus!
