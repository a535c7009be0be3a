//! A small chooser over a fixed list of names.
use crate::keys::Key;
use vstd::prelude::*;

verus! {

/// The chooser: the names offered, the name currently chosen, and the
/// highlighted row.
pub struct SimpleListPicker {
    pub values: Vec<String>,
    pub selected: String,
    pub cursor: usize,
}

/// What a keystroke did to the picker.
#[derive(Debug, PartialEq, Eq)]
pub enum SimpleListPickerResult {
    Editting,
    Confirmed(String),
    Cancelled,
}

impl SimpleListPicker {
    /// The list is never empty and the highlight stays on a row.
    pub open spec fn wf(&self) -> bool {
        &&& self.values@.len() > 0
        &&& self.cursor < self.values@.len()
    }

    /// A picker over `values`, choosing `selected` where one is given and
    /// the first entry otherwise.
    pub fn new(values: Vec<String>, selected: Option<String>) -> (r: Self)
        requires
            values@.len() > 0,
        ensures
            r.values@ == values@,
            r.selected == match selected {
                Option::Some(s) => s,
                Option::None => values@[0],
            },
            r.cursor == 0,
            r.wf(),
    {
        let first_value = values[0].clone();
        let chosen = match selected {
            Option::Some(s) => s,
            Option::None => first_value,
        };
        SimpleListPicker { values, selected: chosen, cursor: 0 }
    }

    /// Put the highlight on the default (first) row.
    pub fn select_default(&mut self)
        ensures
            final(self).cursor == 0,
            final(self).values == old(self).values,
            final(self).selected == old(self).selected,
    {
        self.cursor = 0;
    }

    /// Apply one keystroke: `j`/`k` move the highlight inside the list,
    /// Enter confirms the chosen name, Esc or `q` cancels, and every
    /// other key changes nothing.
    pub fn handle_input(&mut self, key_event: Key) -> (r: SimpleListPickerResult)
        requires
            old(self).wf(),
        ensures
            final(self).wf(),
            final(self).values == old(self).values,
            final(self).selected == old(self).selected,
            match key_event {
                Key::Esc => r is Cancelled && final(self).cursor == old(self).cursor,
                Key::Enter => (r matches SimpleListPickerResult::Confirmed(s) && s == old(self).selected) && final(self).cursor == old(self).cursor,
                Key::Char(c) => {
                    if c == 'q' {
                        r is Cancelled && final(self).cursor == old(self).cursor
                    } else if c == 'k' {
                        r is Editting && final(self).cursor == (if old(self).cursor > 0 {
                            old(self).cursor - 1
                        } else {
                            0int
                        })
                    } else if c == 'j' {
                        r is Editting && final(self).cursor == (if old(self).cursor + 1 < old(self).values@.len() {
                            old(self).cursor + 1
                        } else {
                            old(self).values@.len() - 1
                        })
                    } else {
                        r is Editting && final(self).cursor == old(self).cursor
                    }
                },
                _ => r is Editting && final(self).cursor == old(self).cursor,
            },
    {
        match key_event {
            Key::Esc => SimpleListPickerResult::Cancelled,
            Key::Enter => SimpleListPickerResult::Confirmed(self.selected.clone()),
            Key::Char(c) => {
                if c == 'q' {
                    SimpleListPickerResult::Cancelled
                } else if c == 'k' {
                    if self.cursor > 0 {
                        self.cursor = self.cursor - 1;
                    }
                    SimpleListPickerResult::Editting
                } else if c == 'j' {
                    let n = self.values.len();
                    if self.cursor + 1 < n {
                        self.cursor = self.cursor + 1;
                    }
                    SimpleListPickerResult::Editting
                } else {
                    SimpleListPickerResult::Editting
                }
            },
            _ => SimpleListPickerResult::Editting,
        }
    }
}

} // verus!
