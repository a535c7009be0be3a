//! The dispatcher: the single authority over shared interface state.
//!
//! Every intent — from a keystroke or from a background completion — runs
//! through `Context::process_action`, which mutates the panels and the
//! modal overlay and, where persistence work is implied, hands back a
//! `StoreCommand` for the caller to run outside the library.  Keystrokes
//! are first routed by `Context::route_key`: an active modal owns the
//! input exclusively; otherwise the global keys act and the rest goes to
//! the focused panel.
//!
//! The two spec relations `key_transition` and `action_transition` state
//! the whole protocol; the corresponding methods are proved against them.
use crate::action::Action;
use crate::calendar_panel::CalendarPanel;
use crate::dates::day_text;
use crate::dates::spec_bound_date_offset;
use crate::dates::valid_day;
use crate::dates::DAY_MAX;
use crate::dates::DAY_MIN;
use crate::keys::Key;
use crate::location_modal::AddLocationModal;
use crate::location_modal::InputModalResult;
use crate::location_panel::LocationsPanel;
use crate::location_panel::PanelType;
use crate::modal::ActiveModal;
use crate::models::Location;
use crate::models::Record;
use crate::record_modal::location_names_of;
use crate::record_modal::AddRecordModal;
use crate::record_modal::Dialog;
use crate::record_modal::RecordModalResult;
use vstd::prelude::*;

verus! {

/// Persistence work the dispatcher asks its caller to run.  The caller
/// performs it outside the library and feeds the completion back in as
/// an action: `AddLocationAndReload` completes as
/// `AddLocationDbSuccess` with the reloaded list,
/// `LoadMonthRecords` as `LoadNavigateDateSuccess` with the records of
/// the month around the given day.
#[derive(Clone, Debug, PartialEq, Eq)]
pub enum StoreCommand {
    AddLocationAndReload(String),
    LoadMonthRecords(i32),
}

/// Where a keystroke went: it quits the loop, it became an intent for
/// the dispatcher, or it was absorbed.
#[derive(Debug, PartialEq, Eq)]
pub enum KeyRouting {
    Quit,
    Act(Action),
    Ignored,
}

/// The panels the registry holds; `Status` is reserved and never
/// registered.
pub open spec fn in_registry(p: PanelType) -> bool {
    p is Locations || p is Calendar
}

/// The shared interface state: the two registered panels, the focus
/// pointer, and the modal overlay.
pub struct Context {
    pub locations_panel: LocationsPanel,
    pub calendar_panel: CalendarPanel,
    pub focussed: PanelType,
    pub active_modal: ActiveModal,
}

impl Context {
    /// The focus names a registered panel and every part is well formed.
    pub open spec fn wf(&self) -> bool {
        &&& in_registry(self.focussed)
        &&& self.locations_panel.wf()
        &&& self.calendar_panel.wf()
        &&& self.active_modal.wf()
    }

    /// A fresh context: locations cached, no records yet, the Locations
    /// panel focused, no modal.
    pub fn new(locations: Vec<Location>) -> (r: Self)
        ensures
            r.wf(),
            r.locations_panel.locations == locations,
            r.locations_panel.cursor == 0,
            r.calendar_panel.records@ == Seq::<Record>::empty(),
            r.focussed is Locations,
            r.active_modal is Closed,
    {
        Context {
            locations_panel: LocationsPanel::new(locations),
            calendar_panel: CalendarPanel::new(Option::None),
            focussed: PanelType::Locations,
            active_modal: ActiveModal::Closed,
        }
    }

    /// Route one keystroke as `key_transition` states.
    pub fn route_key(&mut self, key: Key) -> (r: KeyRouting)
        requires
            old(self).wf(),
        ensures
            final(self).wf(),
            key_transition(*old(self), key, *final(self), r),
    {
        if let ActiveModal::AddLocation(m) = &mut self.active_modal {
            return (match m.handle_input(key) {
                Option::Some(InputModalResult::Editting) => KeyRouting::Ignored,
                Option::Some(InputModalResult::Cancelled) => KeyRouting::Act(Action::CancelModal),
                Option::Some(InputModalResult::Confirmed(t)) => KeyRouting::Act(
                    Action::ConfirmAddLocation(t),
                ),
                Option::None => KeyRouting::Ignored,
            });
        }
        if let ActiveModal::AddRecord(m) = &mut self.active_modal {
            return (match m.handle_input(key) {
                Option::Some(RecordModalResult::Cancelled) => KeyRouting::Act(Action::CancelModal),
                Option::Some(RecordModalResult::Confirmed(_)) => KeyRouting::Ignored,
                Option::None => KeyRouting::Ignored,
            });
        }
        // No modal: global keys first, then the focused panel.
        match key {
            Key::Char(c) => {
                if c == 'q' {
                    KeyRouting::Quit
                } else if c == '1' {
                    self.focussed = PanelType::Locations;
                    KeyRouting::Ignored
                } else if c == '2' {
                    self.focussed = PanelType::Calendar;
                    KeyRouting::Ignored
                } else {
                    self.route_to_panel(key)
                }
            },
            _ => self.route_to_panel(key),
        }
    }

    /// Hand the key to the focused panel and wrap what it returned.
    fn route_to_panel(&mut self, key: Key) -> (r: KeyRouting)
        requires
            old(self).wf(),
            old(self).active_modal is Closed,
        ensures
            final(self).wf(),
            final(self).focussed == old(self).focussed,
            final(self).active_modal == old(self).active_modal,
            match old(self).focussed {
                PanelType::Locations => final(self).calendar_panel == old(self).calendar_panel
                    && locations_routing(
                    old(self).locations_panel,
                    key,
                    final(self).locations_panel,
                    r,
                ),
                PanelType::Calendar => final(self).locations_panel == old(self).locations_panel
                    && calendar_routing(
                    old(self).calendar_panel,
                    key,
                    final(self).calendar_panel,
                    r,
                ),
                PanelType::Status => *final(self) == *old(self) && r is Ignored,
            },
    {
        match self.focussed {
            PanelType::Locations => {
                match self.locations_panel.handle_input(key) {
                    Option::Some(a) => KeyRouting::Act(a),
                    Option::None => KeyRouting::Ignored,
                }
            },
            PanelType::Calendar => {
                match self.calendar_panel.handle_input(key) {
                    Option::Some(a) => KeyRouting::Act(a),
                    Option::None => KeyRouting::Ignored,
                }
            },
            PanelType::Status => KeyRouting::Ignored,
        }
    }

    /// Apply one action as `action_transition` states: the dispatch
    /// table of the engine.
    pub fn process_action(&mut self, action: Action) -> (cmd: Option<StoreCommand>)
        requires
            old(self).wf(),
        ensures
            final(self).wf(),
            action_transition(*old(self), action, *final(self), cmd),
    {
        match action {
            Action::Nothing => Option::None,
            Action::Processing => Option::None,
            Action::Skipped => Option::None,
            Action::CancelModal => {
                self.active_modal = ActiveModal::Closed;
                Option::None
            },
            Action::AddLocation(seed) => {
                self.active_modal = ActiveModal::AddLocation(AddLocationModal::from_seed(seed));
                Option::None
            },
            Action::ConfirmAddLocation(name) => {
                self.active_modal = ActiveModal::Closed;
                Option::Some(StoreCommand::AddLocationAndReload(name))
            },
            Action::AddLocationDbSuccess(list) => {
                self.locations_panel.update(Action::AddLocationDbSuccess(list));
                Option::None
            },
            Action::DeleteLocation(_name) => {
                // Reserved: deletion against the store is not wired up yet.
                Option::None
            },
            Action::StartNavigateDate(d) => Option::Some(StoreCommand::LoadMonthRecords(d)),
            Action::LoadNavigateDateSuccess(records) => {
                self.calendar_panel.update(Action::LoadNavigateDateSuccess(records));
                Option::None
            },
            Action::AddRecord(data) => {
                if DAY_MIN <= data.date && data.date <= DAY_MAX {
                    let locs = clone_locations(&self.locations_panel.locations);
                    self.active_modal = ActiveModal::AddRecord(
                        AddRecordModal::new(data.date, locs),
                    );
                }
                Option::None
            },
        }
    }
}

/// A copy of the cached location rows.
fn clone_locations(v: &Vec<Location>) -> (r: Vec<Location>)
    ensures
        r@ == v@,
{
    let mut r: Vec<Location> = Vec::new();
    let mut i: usize = 0;
    while i < v.len()
        invariant
            i <= v@.len(),
            r@ == v@.subrange(0, i as int),
        decreases v@.len() - i,
    {
        r.push(v[i].clone());
        proof {
            assert(r@ =~= v@.subrange(0, i + 1));
        }
        i = i + 1;
    }
    proof {
        assert(r@ =~= v@);
    }
    r
}

/// How one keystroke moves the context: the routing protocol.  An active
/// modal owns the input — the panels and the focus are untouched and the
/// loop cannot quit; with no modal, `q` quits, `1` and `2` move the
/// focus, and everything else goes to the focused panel alone.
pub open spec fn key_transition(pre: Context, key: Key, post: Context, r: KeyRouting) -> bool {
    match pre.active_modal {
        ActiveModal::AddLocation(m) => {
            &&& post.locations_panel == pre.locations_panel
            &&& post.calendar_panel == pre.calendar_panel
            &&& post.focussed == pre.focussed
            &&& !(r is Quit)
            &&& location_modal_routing(m, key, post.active_modal, r)
        },
        ActiveModal::AddRecord(m) => {
            &&& post.locations_panel == pre.locations_panel
            &&& post.calendar_panel == pre.calendar_panel
            &&& post.focussed == pre.focussed
            &&& !(r is Quit)
            &&& record_modal_routing(m, key, post.active_modal, r)
        },
        ActiveModal::Closed => {
            match key {
                Key::Char(c) => {
                    if c == 'q' {
                        post == pre && r is Quit
                    } else if c == '1' {
                        post == (Context { focussed: PanelType::Locations, ..pre }) && r is Ignored
                    } else if c == '2' {
                        post == (Context { focussed: PanelType::Calendar, ..pre }) && r is Ignored
                    } else {
                        panel_routing(pre, key, post, r)
                    }
                },
                _ => panel_routing(pre, key, post, r),
            }
        },
    }
}

/// With no modal, a non-global key reaches the focused panel and only
/// it.
pub open spec fn panel_routing(pre: Context, key: Key, post: Context, r: KeyRouting) -> bool {
    &&& post.focussed == pre.focussed
    &&& post.active_modal == pre.active_modal
    &&& match pre.focussed {
        PanelType::Locations => post.calendar_panel == pre.calendar_panel && locations_routing(
            pre.locations_panel,
            key,
            post.locations_panel,
            r,
        ),
        PanelType::Calendar => post.locations_panel == pre.locations_panel && calendar_routing(
            pre.calendar_panel,
            key,
            post.calendar_panel,
            r,
        ),
        PanelType::Status => post == pre && r is Ignored,
    }
}

/// What the add-location modal does with a key it owns, seen at the
/// routing level: edits are absorbed, Esc asks to cancel, Enter with a
/// non-empty draft asks to confirm it.
pub open spec fn location_modal_routing(
    m: AddLocationModal,
    key: Key,
    post_modal: ActiveModal,
    r: KeyRouting,
) -> bool {
    &&& post_modal matches ActiveModal::AddLocation(m2) && {
        match key {
            Key::Char(c) => {
                &&& m2.draft() == m.draft().insert(m.location_field.cursor(), c)
                &&& m2.location_field.cursor() == m.location_field.cursor() + 1
                &&& r is Ignored
            },
            Key::Backspace => {
                &&& (m.location_field.cursor() == 0 ==> m2.draft() == m.draft()
                    && m2.location_field.cursor() == 0)
                &&& (m.location_field.cursor() > 0 ==> m2.draft() == m.draft().remove(
                    m.location_field.cursor() - 1,
                ) && m2.location_field.cursor() == m.location_field.cursor() - 1)
                &&& r is Ignored
            },
            Key::Esc => m2 == m && r == KeyRouting::Act(Action::CancelModal),
            Key::Enter => {
                &&& m2.draft() == m.draft()
                &&& m2.location_field == m.location_field
                &&& (m.draft().len() == 0 ==> r is Ignored)
                &&& (m.draft().len() > 0 ==> (r matches KeyRouting::Act(a) && (
                a matches Action::ConfirmAddLocation(t) && t@ == m.draft())))
            },
            Key::Other => {
                &&& m2.draft() == m.draft()
                &&& m2.location_field == m.location_field
                &&& r is Ignored
            },
        }
    }
}

/// What the add-record modal does with a key it owns, seen at the
/// routing level: only a cancel escapes it as an intent; everything else
/// is absorbed, moving its inner chooser.
pub open spec fn record_modal_routing(
    m: AddRecordModal,
    key: Key,
    post_modal: ActiveModal,
    r: KeyRouting,
) -> bool {
    &&& post_modal matches ActiveModal::AddRecord(m2) && {
        &&& m2.locations == m.locations
        &&& m2.state.date == m.state.date
        &&& m2.state.log_type == m.state.log_type
        &&& m2.date_field == m.date_field
        &&& match m.active_dialog {
            Dialog::PickLocation(p) => {
                &&& r is Ignored
                &&& match key {
                    Key::Esc => m2.active_dialog is Closed && m2.state.location
                        == m.state.location,
                    Key::Enter => m2.active_dialog is Closed && m2.state.location == p.selected,
                    Key::Char(c) => {
                        if c == 'q' {
                            m2.active_dialog is Closed && m2.state.location == m.state.location
                        } else {
                            m2.state.location == m.state.location && (
                            m2.active_dialog matches Dialog::PickLocation(p2) && p2.values
                                == p.values && p2.selected == p.selected)
                        }
                    },
                    _ => m2.state.location == m.state.location && m2.active_dialog
                        == m.active_dialog,
                }
            },
            Dialog::Closed => {
                &&& m2.state.location == m.state.location
                &&& match key {
                    Key::Char(c) => {
                        if c == 'l' {
                            &&& r is Ignored
                            &&& (m.locations@.len() > 0 ==> (
                            m2.active_dialog matches Dialog::PickLocation(p2) && p2.values@
                                == location_names_of(m.locations@) && p2.selected
                                == m.locations@[0].name && p2.cursor == 0))
                            &&& (m.locations@.len() == 0 ==> m2.active_dialog is Closed)
                        } else if c == 'q' {
                            r == KeyRouting::Act(Action::CancelModal) && m2.active_dialog
                                is Closed
                        } else {
                            r is Ignored && m2.active_dialog is Closed
                        }
                    },
                    Key::Esc => r == KeyRouting::Act(Action::CancelModal) && m2.active_dialog
                        is Closed,
                    _ => r is Ignored && m2.active_dialog is Closed,
                }
            },
        }
    }
}

/// What one key does to the locations panel, seen at the routing level.
pub open spec fn locations_routing(
    p: LocationsPanel,
    key: Key,
    p2: LocationsPanel,
    r: KeyRouting,
) -> bool {
    &&& p2.label == p.label
    &&& p2.tag == p.tag
    &&& match key {
        Key::Char(c) => {
            if c == 'j' {
                &&& p2.locations == p.locations
                &&& p2.cursor == (if p.cursor + 1 < p.locations@.len() {
                    p.cursor + 1
                } else {
                    p.cursor as int
                })
                &&& r == KeyRouting::Act(Action::Processing)
            } else if c == 'k' {
                &&& p2.locations == p.locations
                &&& p2.cursor == (if p.cursor > 0 {
                    p.cursor - 1
                } else {
                    0int
                })
                &&& r == KeyRouting::Act(Action::Processing)
            } else if c == 'a' || c == 'A' {
                &&& p2 == p
                &&& (r matches KeyRouting::Act(a) && (a matches Action::AddLocation(seed)
                    && seed.text@ == Seq::<char>::empty()))
            } else if c == 'd' || c == 'D' {
                if p.locations@.len() == 0 {
                    p2 == p && r is Ignored
                } else {
                    &&& p2.locations@ == p.locations@.remove(p.cursor as int)
                    &&& p2.cursor == (if p.locations@.len() == 1 {
                        0int
                    } else if p.cursor >= p.locations@.len() - 1 {
                        p.locations@.len() - 2
                    } else {
                        p.cursor as int
                    })
                    &&& r == KeyRouting::Act(
                        Action::DeleteLocation(p.locations@[p.cursor as int].name),
                    )
                }
            } else {
                p2 == p && r is Ignored
            }
        },
        _ => p2 == p && r is Ignored,
    }
}

/// What one key does to the calendar panel, seen at the routing level.
pub open spec fn calendar_routing(
    p: CalendarPanel,
    key: Key,
    p2: CalendarPanel,
    r: KeyRouting,
) -> bool {
    &&& p2.label == p.label
    &&& p2.tag == p.tag
    &&& p2.records == p.records
    &&& match key {
        Key::Char(c) => {
            if c == 'j' || c == 'k' || c == 'h' || c == 'l' {
                &&& p2.selected as int == spec_bound_date_offset(
                    p.selected as int,
                    if c == 'j' {
                        7int
                    } else if c == 'k' {
                        -7int
                    } else if c == 'h' {
                        -1int
                    } else {
                        1int
                    },
                )
                &&& r == KeyRouting::Act(Action::Processing)
            } else if c == 'H' || c == 'L' {
                &&& p2.selected == p.selected
                &&& r == KeyRouting::Act(
                    Action::StartNavigateDate(
                        spec_bound_date_offset(
                            p.selected as int,
                            if c == 'H' {
                                -31int
                            } else {
                                31int
                            },
                        ) as i32,
                    ),
                )
            } else if c == 't' {
                &&& valid_day(p2.selected as int)
                &&& r == KeyRouting::Act(Action::Processing)
            } else if c == 'D' {
                &&& p2.selected == p.selected
                &&& r == KeyRouting::Act(Action::Processing)
            } else if c == 'A' {
                &&& p2.selected == p.selected
                &&& (r matches KeyRouting::Act(a) && (a matches Action::AddRecord(data)
                    && data.date == p.selected && data.location@ == Seq::<char>::empty()
                    && data.log_type is Work))
            } else {
                p2 == p && r is Ignored
            }
        },
        _ => p2 == p && r is Ignored,
    }
}

/// How one action moves the context: the dispatch table.  Idle actions
/// change nothing; the modal actions drive the overlay state machine;
/// the two completions replace exactly one panel cache; confirming a
/// location and navigating a month are the only actions that ask for
/// persistence work.
pub open spec fn action_transition(
    pre: Context,
    action: Action,
    post: Context,
    cmd: Option<StoreCommand>,
) -> bool {
    match action {
        Action::Nothing => post == pre && cmd is None,
        Action::Processing => post == pre && cmd is None,
        Action::Skipped => post == pre && cmd is None,
        Action::CancelModal => post == (Context { active_modal: ActiveModal::Closed, ..pre })
            && cmd is None,
        Action::AddLocation(seed) => {
            &&& post.locations_panel == pre.locations_panel
            &&& post.calendar_panel == pre.calendar_panel
            &&& post.focussed == pre.focussed
            &&& (post.active_modal matches ActiveModal::AddLocation(m) && m.seeded_with(
                seed.text@,
            ))
            &&& cmd is None
        },
        Action::ConfirmAddLocation(name) => {
            &&& post == (Context { active_modal: ActiveModal::Closed, ..pre })
            &&& cmd == Option::Some(StoreCommand::AddLocationAndReload(name))
        },
        Action::AddLocationDbSuccess(list) => {
            &&& post.calendar_panel == pre.calendar_panel
            &&& post.focussed == pre.focussed
            &&& post.active_modal == pre.active_modal
            &&& post.locations_panel.locations == list
            &&& post.locations_panel.cursor == (if list@.len() == 0 {
                0int
            } else if pre.locations_panel.cursor >= list@.len() {
                list@.len() - 1
            } else {
                pre.locations_panel.cursor as int
            })
            &&& post.locations_panel.label == pre.locations_panel.label
            &&& post.locations_panel.tag == pre.locations_panel.tag
            &&& cmd is None
        },
        Action::DeleteLocation(_) => post == pre && cmd is None,
        Action::StartNavigateDate(d) => post == pre && cmd == Option::Some(
            StoreCommand::LoadMonthRecords(d),
        ),
        Action::LoadNavigateDateSuccess(records) => {
            &&& post.locations_panel == pre.locations_panel
            &&& post.focussed == pre.focussed
            &&& post.active_modal == pre.active_modal
            &&& post.calendar_panel.records == records
            &&& post.calendar_panel.label == pre.calendar_panel.label
            &&& post.calendar_panel.tag == pre.calendar_panel.tag
            &&& post.calendar_panel.selected == pre.calendar_panel.selected
            &&& cmd is None
        },
        Action::AddRecord(data) => {
            &&& post.locations_panel == pre.locations_panel
            &&& post.calendar_panel == pre.calendar_panel
            &&& post.focussed == pre.focussed
            &&& (valid_day(data.date as int) ==> (post.active_modal matches ActiveModal::AddRecord(
                m,
            ) && {
                &&& m.state.date == data.date
                &&& m.state.location@ == Seq::<char>::empty()
                &&& m.state.log_type is Work
                &&& m.locations@ == pre.locations_panel.locations@
                &&& m.active_dialog is Closed
                &&& m.date_field.state.value@ == day_text(data.date as int)
            }))
            &&& (!valid_day(data.date as int) ==> post.active_modal == pre.active_modal)
            &&& cmd is None
        },
    }
}

} // verus!
