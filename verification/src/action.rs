//! The intents that flow through the single dispatch point.
//!
//! Panels, modals and background completions all speak in these values;
//! the dispatcher consumes each exactly once.
use crate::location_modal::LocationModalState;
use crate::models::Location;
use crate::models::Record;
use crate::record_modal::RecordModalData;
use vstd::prelude::*;

verus! {

/// A unit of user or system intent.  `Nothing`, `Processing` and
/// `Skipped` ask for no state change; the rest drive the modal state
/// machine, the panel caches, or background persistence work.
#[derive(Clone, Debug, PartialEq, Eq)]
pub enum Action {
    Nothing,
    CancelModal,
    AddLocation(LocationModalState),
    ConfirmAddLocation(String),
    DeleteLocation(String),
    AddLocationDbSuccess(Vec<Location>),
    StartNavigateDate(i32),
    LoadNavigateDateSuccess(Vec<Record>),
    AddRecord(RecordModalData),
    Processing,
    Skipped,
}

} // verus!
