//! The overlay that assembles a new attendance record.
//!
//! The modal shows the chosen day, a location and a log type.  `l` opens a
//! chooser over the known location names; `q` or Esc cancels the modal.
use crate::dates::day_chars;
use crate::dates::day_text;
use crate::dates::valid_day;
use crate::keys::Key;
use crate::list_picker::SimpleListPicker;
use crate::list_picker::SimpleListPickerResult;
use crate::models::Location;
use crate::models::LogType;
use crate::textfield_component::TextField;
use vstd::prelude::*;

verus! {

/// The value the modal assembles and would hand out on confirmation.
#[derive(Clone, Debug, PartialEq, Eq)]
pub struct RecordModalData {
    pub date: i32,
    pub location: String,
    pub log_type: LogType,
}

/// What a keystroke did to the modal.
#[derive(Debug, PartialEq, Eq)]
pub enum RecordModalResult {
    Confirmed(RecordModalData),
    Cancelled,
}

/// The chooser the modal may have opened on top of itself.
pub enum Dialog {
    Closed,
    PickLocation(SimpleListPicker),
}

/// The add-record overlay.
pub struct AddRecordModal {
    pub state: RecordModalData,
    pub date_field: TextField,
    pub locations: Vec<Location>,
    pub active_dialog: Dialog,
    pub locations_widget_cursor: usize,
}

/// The names of `locs`, in order.
pub open spec fn location_names_of(locs: Seq<Location>) -> Seq<String> {
    locs.map_values(|l: Location| l.name)
}

/// The names of the cached locations, in order, as owned strings.
fn location_names(locations: &Vec<Location>) -> (v: Vec<String>)
    ensures
        v@ == location_names_of(locations@),
{
    let mut v: Vec<String> = Vec::new();
    let mut i: usize = 0;
    while i < locations.len()
        invariant
            i <= locations@.len(),
            v@ == location_names_of(locations@.subrange(0, i as int)),
        decreases locations@.len() - i,
    {
        v.push(locations[i].name.clone());
        proof {
            assert(locations@.subrange(0, i + 1).map_values(|l: Location| l.name) =~= locations@.subrange(
                0,
                i as int,
            ).map_values(|l: Location| l.name).push(locations@[i as int].name));
        }
        i = i + 1;
    }
    proof {
        assert(locations@.subrange(0, locations@.len() as int) =~= locations@);
    }
    v
}

impl AddRecordModal {
    /// The field and any open chooser are well formed and the shown day
    /// is representable.
    pub open spec fn wf(&self) -> bool {
        &&& self.date_field.wf()
        &&& valid_day(self.state.date as int)
        &&& match self.active_dialog {
            Dialog::Closed => true,
            Dialog::PickLocation(p) => p.wf(),
        }
    }

    /// A modal for a record on `date`, choosing among `locations`.
    pub fn new(date: i32, locations: Vec<Location>) -> (r: Self)
        requires
            valid_day(date as int),
        ensures
            r.state.date == date,
            r.state.location@ == Seq::<char>::empty(),
            r.state.log_type is Work,
            r.date_field.state.value@ == day_text(date as int),
            r.locations == locations,
            r.active_dialog is Closed,
            r.locations_widget_cursor == 0,
            r.wf(),
    {
        let shown = day_chars(date);
        AddRecordModal {
            state: RecordModalData {
                date,
                location: String::new(),
                log_type: LogType::Work,
            },
            date_field: TextField::new("Record Date".to_owned(), Option::Some(shown)),
            locations,
            active_dialog: Dialog::Closed,
            locations_widget_cursor: 0,
        }
    }

    /// Apply one keystroke.  While the location chooser is open it owns
    /// the input: its confirmation writes the chosen name into the draft
    /// record, cancelling it only closes it.  Otherwise `l` opens the
    /// chooser (when any location is known), `q` or Esc cancels the
    /// modal, and everything else is ignored.
    pub fn handle_input(&mut self, key_event: Key) -> (r: Option<RecordModalResult>)
        requires
            old(self).wf(),
        ensures
            final(self).wf(),
            final(self).locations == old(self).locations,
            final(self).state.date == old(self).state.date,
            final(self).state.log_type == old(self).state.log_type,
            final(self).date_field == old(self).date_field,
            match old(self).active_dialog {
                Dialog::PickLocation(p) => {
                    &&& r is None
                    &&& (match key_event {
                        Key::Esc => final(self).active_dialog is Closed && final(self).state.location
                            == old(self).state.location,
                        Key::Enter => final(self).active_dialog is Closed && final(self).state.location == p.selected,
                        Key::Char(c) => {
                            if c == 'q' {
                                final(self).active_dialog is Closed && final(self).state.location
                                    == old(self).state.location
                            } else {
                                final(self).state.location == old(self).state.location && (final(self).active_dialog matches Dialog::PickLocation(q) && q.values
                                    == p.values && q.selected == p.selected)
                            }
                        },
                        _ => final(self).state.location == old(self).state.location && final(self).active_dialog == old(self).active_dialog,
                    })
                },
                Dialog::Closed => {
                    &&& final(self).state.location == old(self).state.location
                    &&& (match key_event {
                        Key::Char(c) => {
                            if c == 'l' {
                                &&& r is None
                                &&& (old(self).locations@.len() > 0 ==> (final(self).active_dialog matches Dialog::PickLocation(p) && p.values@
                                    == location_names_of(old(self).locations@) && p.selected == old(self).locations@[0].name && p.cursor == 0))
                                &&& (old(self).locations@.len() == 0 ==> final(self).active_dialog
                                    is Closed)
                            } else if c == 'q' {
                                r == Option::Some(RecordModalResult::Cancelled) && final(self).active_dialog is Closed
                            } else {
                                r is None && final(self).active_dialog is Closed
                            }
                        },
                        Key::Esc => r == Option::Some(RecordModalResult::Cancelled) && final(self).active_dialog is Closed,
                        _ => r is None && final(self).active_dialog is Closed,
                    })
                },
            },
    {
        match &mut self.active_dialog {
            Dialog::PickLocation(picker) => {
                let list_res = picker.handle_input(key_event);
                match list_res {
                    SimpleListPickerResult::Cancelled => {
                        self.active_dialog = Dialog::Closed;
                    },
                    SimpleListPickerResult::Editting => {},
                    SimpleListPickerResult::Confirmed(choice) => {
                        self.state.location = choice;
                        self.active_dialog = Dialog::Closed;
                    },
                }
                Option::None
            },
            Dialog::Closed => {
                match key_event {
                    Key::Char(c) => {
                        if c == 'l' {
                            if self.locations.len() > 0 {
                                let names = location_names(&self.locations);
                                let mut picker = SimpleListPicker::new(names, Option::None);
                                picker.select_default();
                                self.active_dialog = Dialog::PickLocation(picker);
                            }
                            Option::None
                        } else if c == 'q' {
                            Option::Some(RecordModalResult::Cancelled)
                        } else {
                            Option::None
                        }
                    },
                    Key::Esc => Option::Some(RecordModalResult::Cancelled),
                    _ => Option::None,
                }
            },
        }
    }
}

} // verus!
