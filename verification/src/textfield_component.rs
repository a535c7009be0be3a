//! A one-line text editor with a character cursor.
//!
//! The draft value is a sequence of characters; the cursor is a character
//! position inside it, never past its end.  Keystrokes edit the draft in
//! place; Enter hands a copy of it out, Esc abandons it.
use crate::keys::Key;
use vstd::prelude::*;

verus! {

/// The draft text a field holds.
pub struct TextFieldState {
    pub value: Vec<char>,
}

impl TextFieldState {
    pub fn new(initial_value: Option<Vec<char>>) -> (r: Self)
        ensures
            r.value@ == match initial_value {
                Option::Some(v) => v@,
                Option::None => Seq::<char>::empty(),
            },
    {
        match initial_value {
            Option::Some(v) => TextFieldState { value: v },
            Option::None => TextFieldState { value: Vec::new() },
        }
    }

    /// A copy of the draft holding the same characters.
    pub fn duplicate(&self) -> (r: Self)
        ensures
            r.value@ == self.value@,
    {
        let copy = self.value.clone();
        proof {
            assert(copy@ =~= self.value@);
        }
        TextFieldState { value: copy }
    }
}

impl Default for TextFieldState {
    fn default() -> (r: Self)
        ensures
            r.value@ == Seq::<char>::empty(),
    {
        TextFieldState { value: Vec::new() }
    }
}

/// What a keystroke did to the field.
pub enum TextFieldResult {
    Confirm(TextFieldState),
    Cancelled,
    Editting,
}

/// The editor: a draft value, a cursor, and a label for display.
pub struct TextField {
    pub state: TextFieldState,
    pub character_index: usize,
    pub label: String,
}

/// The number of bytes the UTF-8 encoding of `c` takes, as the Rust
/// documentation of `char::len_utf8` states it.
pub open spec fn utf8_len(c: char) -> int {
    if (c as u32) < 0x80 {
        1
    } else if (c as u32) < 0x800 {
        2
    } else if (c as u32) < 0x10000 {
        3
    } else {
        4
    }
}

/// The number of bytes the first `n` characters of `s` take when encoded
/// as UTF-8.
pub open spec fn utf8_len_prefix(s: Seq<char>, n: int) -> int
    decreases n,
{
    if n <= 0 {
        0
    } else {
        utf8_len_prefix(s, n - 1) + utf8_len(s[n - 1])
    }
}

proof fn lemma_utf8_len_prefix_bound(s: Seq<char>, n: int)
    requires
        0 <= n,
    ensures
        0 <= utf8_len_prefix(s, n) <= 4 * n,
    decreases n,
{
    if n > 0 {
        lemma_utf8_len_prefix_bound(s, n - 1);
    }
}

impl TextField {
    /// The cursor as a character position.
    pub open spec fn cursor(&self) -> int {
        self.character_index as int
    }

    /// The label shown beside the field.
    pub open spec fn spec_label(&self) -> Seq<char> {
        self.label@
    }

    /// The cursor never points past the end of the draft.
    pub open spec fn wf(&self) -> bool {
        self.cursor() <= self.state.value@.len()
    }

    pub fn new(label: String, initial_value: Option<Vec<char>>) -> (r: Self)
        ensures
            r.state.value@ == match initial_value {
                Option::Some(v) => v@,
                Option::None => Seq::<char>::empty(),
            },
            r.cursor() == 0,
            r.spec_label() == label@,
            r.wf(),
    {
        TextField { state: TextFieldState::new(initial_value), character_index: 0, label }
    }

    /// The label, for display.
    pub fn label(&self) -> (l: &String)
        ensures
            l@ == self.spec_label(),
    {
        &self.label
    }

    /// Empty the draft and put the cursor where a fresh field has it.
    pub fn clear(&mut self)
        ensures
            final(self).state.value@ == Seq::<char>::empty(),
            final(self).cursor() == 0,
            final(self).spec_label() == old(self).spec_label(),
            final(self).wf(),
    {
        self.state = TextFieldState::default();
        self.character_index = 0;
    }

    pub fn move_cursor_left(&mut self)
        ensures
            final(self).cursor() == (if old(self).cursor() > 0 {
                spec_clamped(old(self).cursor() - 1, old(self).state.value@.len() as int)
            } else {
                0int
            }),
            final(self).state == old(self).state,
            final(self).spec_label() == old(self).spec_label(),
            old(self).wf() ==> final(self).wf(),
    {
        let cursor_moved_left = if self.character_index > 0 {
            self.character_index - 1
        } else {
            0
        };
        self.character_index = self.clamp_cursor(cursor_moved_left);
    }

    pub fn move_cursor_right(&mut self)
        ensures
            final(self).cursor() == spec_clamped(
                old(self).cursor() + 1,
                old(self).state.value@.len() as int,
            ),
            final(self).state == old(self).state,
            final(self).spec_label() == old(self).spec_label(),
            final(self).wf(),
    {
        let n = self.state.value.len();
        let cursor_moved_right = if self.character_index < n {
            self.character_index + 1
        } else {
            n
        };
        self.character_index = self.clamp_cursor(cursor_moved_right);
    }

    /// Insert `new_char` at the cursor and step the cursor past it.
    pub fn enter_char(&mut self, new_char: char)
        requires
            old(self).wf(),
        ensures
            final(self).state.value@ == old(self).state.value@.insert(
                old(self).cursor(),
                new_char,
            ),
            final(self).cursor() == old(self).cursor() + 1,
            final(self).spec_label() == old(self).spec_label(),
            final(self).wf(),
    {
        let index = self.character_index;
        self.state.value.insert(index, new_char);
        self.move_cursor_right();
    }

    /// The byte offset of the cursor inside the UTF-8 encoding of the
    /// draft.  The length bound is a machine limit: the encoding must fit
    /// in a `usize` count of bytes.
    pub fn byte_index(&self) -> (r: usize)
        requires
            self.wf(),
            4 * self.state.value@.len() <= usize::MAX,
        ensures
            r == utf8_len_prefix(self.state.value@, self.cursor()),
    {
        let mut i: usize = 0;
        let mut acc: usize = 0;
        while i < self.character_index
            invariant
                self.wf(),
                4 * self.state.value@.len() <= usize::MAX,
                i <= self.character_index,
                acc == utf8_len_prefix(self.state.value@, i as int),
                acc <= 4 * i,
            decreases self.character_index - i,
        {
            let c = self.state.value[i];
            let step: usize = char_utf8_len(c);
            proof {
                lemma_utf8_len_prefix_bound(self.state.value@, i as int);
            }
            acc = acc + step;
            i = i + 1;
        }
        acc
    }

    /// Remove the character before the cursor, if any, and step the
    /// cursor back onto the gap.
    pub fn delete_char(&mut self)
        requires
            old(self).wf(),
        ensures
            old(self).cursor() == 0 ==> *final(self) == *old(self),
            old(self).cursor() > 0 ==> {
                &&& final(self).state.value@ == old(self).state.value@.remove(
                    old(self).cursor() - 1,
                )
                &&& final(self).cursor() == old(self).cursor() - 1
            },
            final(self).spec_label() == old(self).spec_label(),
            final(self).wf(),
    {
        let is_not_cursor_leftmost = self.character_index != 0;
        if is_not_cursor_leftmost {
            let current_index = self.character_index;
            let from_left_to_current_index = current_index - 1;
            self.state.value.remove(from_left_to_current_index);
            self.move_cursor_left();
        }
    }

    fn clamp_cursor(&self, new_cursor_pos: usize) -> (r: usize)
        ensures
            r as int == spec_clamped(new_cursor_pos as int, self.state.value@.len() as int),
    {
        if new_cursor_pos > self.state.value.len() {
            self.state.value.len()
        } else {
            new_cursor_pos
        }
    }

    /// Apply one keystroke: characters and Backspace edit the draft, Esc
    /// cancels, Enter confirms with a copy of the draft, and every other
    /// key leaves the field as it is.
    pub fn handle_input(&mut self, key_event: Key) -> (r: TextFieldResult)
        requires
            old(self).wf(),
        ensures
            final(self).wf(),
            final(self).spec_label() == old(self).spec_label(),
            match key_event {
                Key::Char(c) => {
                    &&& final(self).state.value@ == old(self).state.value@.insert(
                        old(self).cursor(),
                        c,
                    )
                    &&& final(self).cursor() == old(self).cursor() + 1
                    &&& r is Editting
                },
                Key::Backspace => {
                    &&& (old(self).cursor() == 0 ==> *final(self) == *old(self))
                    &&& (old(self).cursor() > 0 ==> final(self).state.value@ == old(self).state.value@.remove(old(self).cursor() - 1) && final(self).cursor() == old(self).cursor() - 1)
                    &&& r is Editting
                },
                Key::Esc => *final(self) == *old(self) && r is Cancelled,
                Key::Enter => *final(self) == *old(self) && (r matches TextFieldResult::Confirm(
                    st,
                ) && st.value@ == old(self).state.value@),
                Key::Other => *final(self) == *old(self) && r is Editting,
            },
    {
        match key_event {
            Key::Char(c) => {
                self.enter_char(c);
                TextFieldResult::Editting
            },
            Key::Backspace => {
                self.delete_char();
                TextFieldResult::Editting
            },
            Key::Esc => TextFieldResult::Cancelled,
            Key::Enter => TextFieldResult::Confirm(self.state.duplicate()),
            Key::Other => TextFieldResult::Editting,
        }
    }
}

/// `pos` held back to at most `len`.
pub open spec fn spec_clamped(pos: int, len: int) -> int {
    if pos > len {
        len
    } else {
        pos
    }
}

/// The number of bytes the UTF-8 encoding of `c` takes, computed as the
/// Rust documentation of `char::len_utf8` states it.
pub fn char_utf8_len(c: char) -> (n: usize)
    ensures
        n == utf8_len(c),
        1 <= n <= 4,
{
    let u = c as u32;
    if u < 0x80 {
        1
    } else if u < 0x800 {
        2
    } else if u < 0x10000 {
        3
    } else {
        4
    }
}

} // verus!
