//! The overlay that asks for a new location's name.
//!
//! The modal wraps a text field.  Keystrokes edit the draft name; Esc
//! cancels; Enter confirms — but only a non-empty name: an empty draft is
//! rejected locally and never turned into a confirmation.
use crate::keys::Key;
use crate::text::chars_to_string;
use crate::text::string_to_chars;
use crate::textfield_component::TextField;
use crate::textfield_component::TextFieldResult;
use vstd::prelude::*;

verus! {

/// The value the modal edits and, on confirmation, hands out.
#[derive(Clone, Debug, PartialEq, Eq)]
pub struct LocationModalState {
    pub text: String,
}

impl Default for LocationModalState {
    fn default() -> (r: Self)
        ensures
            r.text@ == Seq::<char>::empty(),
    {
        LocationModalState { text: String::new() }
    }
}

/// What a keystroke did to the modal.
#[derive(Debug, PartialEq, Eq)]
pub enum InputModalResult {
    Editting,
    Cancelled,
    Confirmed(String),
}

/// The add-location overlay: a draft value and the field that edits it.
pub struct AddLocationModal {
    pub state: LocationModalState,
    pub location_field: TextField,
}

impl AddLocationModal {
    /// The draft mirrors the field and the field is well formed.
    pub open spec fn wf(&self) -> bool {
        &&& self.location_field.wf()
        &&& self.state.text@ == self.location_field.state.value@
    }

    /// The draft the modal holds.
    pub open spec fn draft(&self) -> Seq<char> {
        self.state.text@
    }

    /// A modal whose draft is `text` with the cursor at its start.
    pub open spec fn seeded_with(&self, text: Seq<char>) -> bool {
        &&& self.wf()
        &&& self.draft() == text
        &&& self.location_field.cursor() == 0
    }

    /// An empty draft, as a freshly opened modal has.
    pub open spec fn is_fresh(&self) -> bool {
        self.seeded_with(Seq::<char>::empty())
    }

    pub fn new() -> (r: Self)
        ensures
            r.is_fresh(),
    {
        Self::from_seed(LocationModalState::default())
    }

    /// A modal whose draft starts out as the seed's text.
    pub fn from_seed(seed: LocationModalState) -> (r: Self)
        ensures
            r.seeded_with(seed.text@),
    {
        let initial = string_to_chars(seed.text.as_str());
        AddLocationModal {
            state: seed,
            location_field: TextField::new("Add Location".to_owned(), Option::Some(initial)),
        }
    }

    /// Empty the draft.
    pub fn clear(&mut self)
        ensures
            final(self).is_fresh(),
    {
        self.location_field.clear();
        self.state.text = String::new();
    }

    /// Apply one keystroke.  Characters and Backspace edit the draft, Esc
    /// cancels, Enter confirms the draft — unless it is empty, in which
    /// case the modal stays in editing and nothing is confirmed.
    pub fn handle_input(&mut self, key_event: Key) -> (r: Option<InputModalResult>)
        requires
            old(self).wf(),
        ensures
            final(self).wf(),
            match key_event {
                Key::Char(c) => {
                    &&& final(self).draft() == old(self).draft().insert(
                        old(self).location_field.cursor(),
                        c,
                    )
                    &&& final(self).location_field.cursor() == old(self).location_field.cursor()
                        + 1
                    &&& r matches Option::Some(InputModalResult::Editting)
                },
                Key::Backspace => {
                    &&& (old(self).location_field.cursor() == 0 ==> final(self).draft() == old(self).draft()
                        && final(self).location_field.cursor() == 0)
                    &&& (old(self).location_field.cursor() > 0 ==> final(self).draft() == old(self).draft().remove(old(self).location_field.cursor() - 1)
                        && final(self).location_field.cursor() == old(self).location_field.cursor()
                        - 1)
                    &&& r matches Option::Some(InputModalResult::Editting)
                },
                Key::Esc => {
                    &&& *final(self) == *old(self)
                    &&& r matches Option::Some(InputModalResult::Cancelled)
                },
                Key::Enter => {
                    &&& final(self).draft() == old(self).draft()
                    &&& final(self).location_field == old(self).location_field
                    &&& (old(self).draft().len() == 0 ==> r matches Option::Some(
                        InputModalResult::Editting,
                    ))
                    &&& (old(self).draft().len() > 0 ==> (r matches Option::Some(
                        InputModalResult::Confirmed(t),
                    ) && t@ == old(self).draft()))
                },
                Key::Other => {
                    &&& final(self).draft() == old(self).draft()
                    &&& final(self).location_field == old(self).location_field
                    &&& r matches Option::Some(InputModalResult::Editting)
                },
            },
    {
        match self.location_field.handle_input(key_event) {
            TextFieldResult::Editting => {
                self.state.text = chars_to_string(&self.location_field.state.value);
                Option::Some(InputModalResult::Editting)
            },
            TextFieldResult::Cancelled => Option::Some(InputModalResult::Cancelled),
            TextFieldResult::Confirm(st) => {
                if st.value.len() == 0 {
                    // An empty name is rejected here, never confirmed.
                    Option::Some(InputModalResult::Editting)
                } else {
                    self.state.text = chars_to_string(&st.value);
                    Option::Some(InputModalResult::Confirmed(self.state.text.clone()))
                }
            },
        }
    }
}

} // verus!
