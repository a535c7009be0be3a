//! The data the panels cache: locations and attendance records.
//!
//! Rows of both kinds are owned by the persistence layer outside the
//! library; the panels hold cached copies that actions refresh.
use vstd::prelude::*;

verus! {

/// A named place where attendance can be recorded.
#[derive(Debug, PartialEq, Eq)]
pub struct Location {
    pub id: i64,
    pub name: String,
    pub tag: String,
}

impl Clone for Location {
    fn clone(&self) -> (res: Self)
        ensures
            res == *self,
    {
        Location { id: self.id, name: self.name.clone(), tag: self.tag.clone() }
    }
}

/// One attendance entry: a location, a calendar day (as a Julian day
/// number, see `dates`) and a log type.
#[derive(Clone, Debug, PartialEq, Eq)]
pub struct Record {
    pub id: i64,
    pub location_id: i64,
    pub date: i32,
    pub log_type: LogType,
}

/// The category of a record.
#[derive(Clone, Debug, PartialEq, Eq, Structural)]
pub enum LogType {
    Unknown,
    Work,
    Holiday,
    Vacation,
    Sick,
}

} // verus!
