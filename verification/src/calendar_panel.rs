//! The panel that shows a month and a selected day.
//!
//! Day navigation moves the selection locally, without clamping at month
//! boundaries.  Month navigation is asynchronous: it only emits an intent
//! to reload, and the cached records are replaced when the completion
//! arrives.
use crate::action::Action;
use crate::dates::bound_date_offset;
use crate::dates::current_day;
use crate::dates::spec_bound_date_offset;
use crate::dates::valid_day;
use crate::keys::Key;
use crate::models::Record;
use crate::record_modal::RecordModalData;
use vstd::prelude::*;

verus! {

/// The calendar panel: cached records and the selected day.
pub struct CalendarPanel {
    pub label: String,
    pub tag: String,
    pub records: Vec<Record>,
    pub selected: i32,
}

impl CalendarPanel {
    /// The selected day is always a representable date.
    pub open spec fn wf(&self) -> bool {
        valid_day(self.selected as int)
    }

    /// A panel caching `records` (none, where none are given yet), with
    /// today selected.
    pub fn new(records: Option<Vec<Record>>) -> (r: Self)
        ensures
            r.records@ == match records {
                Option::Some(v) => v@,
                Option::None => Seq::<Record>::empty(),
            },
            r.label@ == "Calendar"@,
            r.wf(),
    {
        let cached = match records {
            Option::Some(v) => v,
            Option::None => Vec::new(),
        };
        CalendarPanel {
            label: "Calendar".to_owned(),
            tag: " #2".to_owned(),
            records: cached,
            selected: current_day(),
        }
    }

    /// Apply one keystroke.  `h`/`l` move the selection by a day and
    /// `j`/`k` by a week, locally; `H`/`L` ask for the month a saturated
    /// 31 days away, changing nothing locally; `t` jumps to today; `A`
    /// asks for the add-record modal seeded with the selection; any other
    /// key is not handled.
    pub fn handle_input(&mut self, key_event: Key) -> (r: Option<Action>)
        requires
            old(self).wf(),
        ensures
            final(self).wf(),
            final(self).label == old(self).label,
            final(self).tag == old(self).tag,
            final(self).records == old(self).records,
            match key_event {
                Key::Char(c) => {
                    if c == 'j' || c == 'k' || c == 'h' || c == 'l' {
                        &&& final(self).selected as int == spec_bound_date_offset(
                            old(self).selected as int,
                            if c == 'j' {
                                7int
                            } else if c == 'k' {
                                -7int
                            } else if c == 'h' {
                                -1int
                            } else {
                                1int
                            },
                        )
                        &&& r == Option::Some(Action::Processing)
                    } else if c == 'H' || c == 'L' {
                        &&& final(self).selected == old(self).selected
                        &&& r == Option::Some(
                            Action::StartNavigateDate(
                                spec_bound_date_offset(
                                    old(self).selected as int,
                                    if c == 'H' {
                                        -31int
                                    } else {
                                        31int
                                    },
                                ) as i32,
                            ),
                        )
                    } else if c == 't' {
                        &&& valid_day(final(self).selected as int)
                        &&& r == Option::Some(Action::Processing)
                    } else if c == 'D' {
                        &&& final(self).selected == old(self).selected
                        &&& r == Option::Some(Action::Processing)
                    } else if c == 'A' {
                        &&& final(self).selected == old(self).selected
                        &&& (r matches Option::Some(Action::AddRecord(data)) && data.date == old(
                            self,
                        ).selected && data.location@ == Seq::<char>::empty() && data.log_type
                            is Work)
                    } else {
                        *final(self) == *old(self) && r is None
                    }
                },
                _ => *final(self) == *old(self) && r is None,
            },
    {
        match key_event {
            Key::Char(c) => {
                if c == 'j' {
                    self.selected = bound_date_offset(self.selected, 7);
                    Option::Some(Action::Processing)
                } else if c == 'k' {
                    self.selected = bound_date_offset(self.selected, -7);
                    Option::Some(Action::Processing)
                } else if c == 'h' {
                    self.selected = bound_date_offset(self.selected, -1);
                    Option::Some(Action::Processing)
                } else if c == 'l' {
                    self.selected = bound_date_offset(self.selected, 1);
                    Option::Some(Action::Processing)
                } else if c == 'H' {
                    let prev_month = bound_date_offset(self.selected, -31);
                    Option::Some(Action::StartNavigateDate(prev_month))
                } else if c == 'L' {
                    let next_month = bound_date_offset(self.selected, 31);
                    Option::Some(Action::StartNavigateDate(next_month))
                } else if c == 't' {
                    self.selected = current_day();
                    Option::Some(Action::Processing)
                } else if c == 'D' {
                    Option::Some(Action::Processing)
                } else if c == 'A' {
                    Option::Some(
                        Action::AddRecord(
                            RecordModalData {
                                date: self.selected,
                                location: String::new(),
                                log_type: crate::models::LogType::Work,
                            },
                        ),
                    )
                } else {
                    Option::None
                }
            },
            _ => Option::None,
        }
    }

    /// Apply a forwarded action: a completed record reload replaces the
    /// cache wholesale; every other action is ignored.
    pub fn update(&mut self, action: Action)
        requires
            old(self).wf(),
        ensures
            final(self).wf(),
            final(self).label == old(self).label,
            final(self).tag == old(self).tag,
            final(self).selected == old(self).selected,
            match action {
                Action::LoadNavigateDateSuccess(records) => final(self).records == records,
                _ => *final(self) == *old(self),
            },
    {
        match action {
            Action::LoadNavigateDateSuccess(records) => {
                self.records = records;
            },
            _ => {},
        }
    }
}

} // verus!
