//! The panel that lists the known locations.
//!
//! The panel caches a copy of the location rows; the cache is replaced
//! wholesale when a reload completion arrives.  Cursor movement is local;
//! adding and deleting are expressed as returned actions.
use crate::action::Action;
use crate::keys::Key;
use crate::location_modal::LocationModalState;
use crate::models::Location;
use vstd::prelude::*;

verus! {

/// The keys of the panel registry.
#[derive(Clone, Copy, Debug, PartialEq, Eq, Hash, Structural)]
pub enum PanelType {
    Calendar,
    Status,
    Locations,
}

/// The locations panel: a cached list and a cursor into it.
pub struct LocationsPanel {
    pub label: String,
    pub locations: Vec<Location>,
    pub tag: String,
    pub cursor: usize,
}

impl LocationsPanel {
    /// The cursor sits on a cached entry whenever there is one.
    pub open spec fn wf(&self) -> bool {
        if self.locations@.len() == 0 {
            self.cursor == 0
        } else {
            self.cursor < self.locations@.len()
        }
    }

    /// A panel caching `locations`, with the first entry selected.
    pub fn new(locations: Vec<Location>) -> (r: Self)
        ensures
            r.locations == locations,
            r.cursor == 0,
            r.label@ == "Locations"@,
            r.wf(),
    {
        LocationsPanel {
            label: "Locations".to_owned(),
            locations,
            tag: " #1".to_owned(),
            cursor: 0,
        }
    }

    /// Apply one keystroke in normal mode.  `j`/`k` move the cursor
    /// inside the cache; `a`/`A` ask for the add-location modal; `d`/`D`
    /// remove the selected entry locally and ask for its deletion; any
    /// other key is not handled.
    pub fn handle_input(&mut self, key_event: Key) -> (r: Option<Action>)
        requires
            old(self).wf(),
        ensures
            final(self).wf(),
            final(self).label == old(self).label,
            final(self).tag == old(self).tag,
            match key_event {
                Key::Char(c) => {
                    if c == 'j' {
                        &&& final(self).locations == old(self).locations
                        &&& final(self).cursor == (if old(self).cursor + 1 < old(
                            self,
                        ).locations@.len() {
                            old(self).cursor + 1
                        } else {
                            old(self).cursor as int
                        })
                        &&& r == Option::Some(Action::Processing)
                    } else if c == 'k' {
                        &&& final(self).locations == old(self).locations
                        &&& final(self).cursor == (if old(self).cursor > 0 {
                            old(self).cursor - 1
                        } else {
                            0int
                        })
                        &&& r == Option::Some(Action::Processing)
                    } else if c == 'a' || c == 'A' {
                        &&& final(self).locations == old(self).locations
                        &&& final(self).cursor == old(self).cursor
                        &&& (r matches Option::Some(Action::AddLocation(seed)) && seed.text@
                            == Seq::<char>::empty())
                    } else if c == 'd' || c == 'D' {
                        if old(self).locations@.len() == 0 {
                            *final(self) == *old(self) && r is None
                        } else {
                            &&& final(self).locations@ == old(self).locations@.remove(
                                old(self).cursor as int,
                            )
                            &&& final(self).cursor == (if old(self).locations@.len() == 1 {
                                0int
                            } else if old(self).cursor >= old(self).locations@.len() - 1 {
                                old(self).locations@.len() - 2
                            } else {
                                old(self).cursor as int
                            })
                            &&& r == Option::Some(
                                Action::DeleteLocation(
                                    old(self).locations@[old(self).cursor as int].name,
                                ),
                            )
                        }
                    } else {
                        *final(self) == *old(self) && r is None
                    }
                },
                _ => *final(self) == *old(self) && r is None,
            },
    {
        match key_event {
            Key::Char(c) => {
                if c == 'j' {
                    let n = self.locations.len();
                    if self.cursor + 1 < n {
                        self.cursor = self.cursor + 1;
                    }
                    Option::Some(Action::Processing)
                } else if c == 'k' {
                    if self.cursor > 0 {
                        self.cursor = self.cursor - 1;
                    }
                    Option::Some(Action::Processing)
                } else if c == 'a' || c == 'A' {
                    Option::Some(Action::AddLocation(LocationModalState::default()))
                } else if c == 'd' || c == 'D' {
                    if self.locations.len() == 0 {
                        Option::None
                    } else {
                        let element = self.locations.remove(self.cursor);
                        let n = self.locations.len();
                        if self.cursor >= n && self.cursor > 0 {
                            self.cursor = n - 1;
                        }
                        if n == 0 {
                            self.cursor = 0;
                        }
                        Option::Some(Action::DeleteLocation(element.name))
                    }
                } else {
                    Option::None
                }
            },
            _ => Option::None,
        }
    }

    /// Apply a forwarded action: a completed location reload replaces the
    /// cache wholesale, whatever it held before; every other action is
    /// ignored.
    pub fn update(&mut self, action: Action)
        requires
            old(self).wf(),
        ensures
            final(self).wf(),
            final(self).label == old(self).label,
            final(self).tag == old(self).tag,
            match action {
                Action::AddLocationDbSuccess(list) => final(self).locations == list && final(self).cursor == (if list@.len() == 0 {
                    0int
                } else if old(self).cursor >= list@.len() {
                    list@.len() - 1
                } else {
                    old(self).cursor as int
                }),
                _ => *final(self) == *old(self),
            },
    {
        match action {
            Action::AddLocationDbSuccess(list) => {
                self.locations = list;
                let n = self.locations.len();
                if n == 0 {
                    self.cursor = 0;
                } else if self.cursor >= n {
                    self.cursor = n - 1;
                }
            },
            _ => {},
        }
    }
}

} // verus!
