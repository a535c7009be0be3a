use locwork::dates::bound_date_offset;
use locwork::dates::current_day;
use locwork::dates::day_chars;
use locwork::dates::DAY_MAX;
use locwork::dates::DAY_MIN;
use locwork::keys::Key;
use locwork::list_picker::SimpleListPicker;
use locwork::list_picker::SimpleListPickerResult;
use locwork::location_modal::AddLocationModal;
use locwork::location_modal::InputModalResult;
use locwork::text::chars_to_string;
use locwork::text::string_to_chars;
use locwork::textfield_component::TextField;
use locwork::textfield_component::TextFieldResult;

fn field() -> TextField {
    TextField::new("Name".to_string(), None)
}

fn value_of(f: &TextField) -> String {
    f.state.value.iter().collect()
}

#[test]
fn textfield_types_at_cursor() {
    let mut f = field();
    f.enter_char('a');
    f.enter_char('c');
    f.move_cursor_left();
    f.enter_char('b');
    assert_eq!(value_of(&f), "abc");
}

#[test]
fn textfield_backspace_deletes_before_cursor() {
    let mut f = field();
    f.enter_char('a');
    f.enter_char('b');
    f.enter_char('c');
    f.move_cursor_left();
    f.delete_char();
    assert_eq!(value_of(&f), "ac");
    // At the left edge nothing is deleted.
    f.move_cursor_left();
    f.move_cursor_left();
    f.delete_char();
    assert_eq!(value_of(&f), "ac");
}

#[test]
fn textfield_clear_resets_draft_and_cursor() {
    let mut f = field();
    f.enter_char('a');
    f.enter_char('b');
    f.clear();
    assert_eq!(value_of(&f), "");
    f.enter_char('z');
    assert_eq!(value_of(&f), "z");
}

#[test]
fn textfield_handle_input_protocol() {
    let mut f = field();
    assert!(matches!(f.handle_input(Key::Char('h')), TextFieldResult::Editting));
    assert!(matches!(f.handle_input(Key::Char('i')), TextFieldResult::Editting));
    assert!(matches!(f.handle_input(Key::Other), TextFieldResult::Editting));
    assert!(matches!(f.handle_input(Key::Esc), TextFieldResult::Cancelled));
    match f.handle_input(Key::Enter) {
        TextFieldResult::Confirm(st) => {
            let s: String = st.value.iter().collect();
            assert_eq!(s, "hi");
        }
        _ => panic!("Enter must confirm"),
    }
    assert!(matches!(f.handle_input(Key::Backspace), TextFieldResult::Editting));
    assert_eq!(value_of(&f), "h");
}

#[test]
fn byte_index_counts_utf8_bytes() {
    let mut f = field();
    f.enter_char('é'); // two bytes
    f.enter_char('b'); // one byte
    f.enter_char('€'); // three bytes
    // Cursor sits after all three characters.
    assert_eq!(f.byte_index(), 6);
    f.move_cursor_left();
    assert_eq!(f.byte_index(), 3);
    f.move_cursor_left();
    assert_eq!(f.byte_index(), 2);
    f.move_cursor_left();
    assert_eq!(f.byte_index(), 0);
}

#[test]
fn add_location_modal_edits_and_confirms() {
    let mut m = AddLocationModal::new();
    assert_eq!(m.handle_input(Key::Char('g')), Some(InputModalResult::Editting));
    assert_eq!(m.handle_input(Key::Char('o')), Some(InputModalResult::Editting));
    assert_eq!(m.state.text, "go");
    assert_eq!(
        m.handle_input(Key::Enter),
        Some(InputModalResult::Confirmed("go".to_string()))
    );
    assert_eq!(m.handle_input(Key::Esc), Some(InputModalResult::Cancelled));
    m.clear();
    assert_eq!(m.state.text, "");
    // An empty draft is never confirmed.
    assert_eq!(m.handle_input(Key::Enter), Some(InputModalResult::Editting));
}

#[test]
fn picker_moves_within_bounds_and_confirms() {
    let values = vec!["home".to_string(), "office".to_string()];
    let mut p = SimpleListPicker::new(values, None);
    assert_eq!(p.selected, "home");
    assert!(matches!(p.handle_input(Key::Char('k')), SimpleListPickerResult::Editting));
    assert_eq!(p.cursor, 0);
    assert!(matches!(p.handle_input(Key::Char('j')), SimpleListPickerResult::Editting));
    assert_eq!(p.cursor, 1);
    assert!(matches!(p.handle_input(Key::Char('j')), SimpleListPickerResult::Editting));
    assert_eq!(p.cursor, 1);
    p.select_default();
    assert_eq!(p.cursor, 0);
    match p.handle_input(Key::Enter) {
        SimpleListPickerResult::Confirmed(s) => assert_eq!(s, "home"),
        _ => panic!("Enter must confirm"),
    }
    assert!(matches!(p.handle_input(Key::Esc), SimpleListPickerResult::Cancelled));
    assert!(matches!(p.handle_input(Key::Char('q')), SimpleListPickerResult::Cancelled));
}

#[test]
fn picker_with_preset_selection() {
    let values = vec!["home".to_string(), "office".to_string()];
    let p = SimpleListPicker::new(values, Some("office".to_string()));
    assert_eq!(p.selected, "office");
}

#[test]
fn day_offsets_saturate_at_the_representable_range() {
    assert_eq!(bound_date_offset(0, 10), 10);
    assert_eq!(bound_date_offset(0, -10), -10);
    assert_eq!(bound_date_offset(DAY_MAX, 1), DAY_MAX);
    assert_eq!(bound_date_offset(DAY_MIN, -1), DAY_MIN);
    assert_eq!(bound_date_offset(DAY_MAX - 5, 31), DAY_MAX);
    assert_eq!(bound_date_offset(DAY_MIN + 5, -31), DAY_MIN);
    assert_eq!(bound_date_offset(0, i64::MAX), DAY_MAX);
    assert_eq!(bound_date_offset(0, i64::MIN), DAY_MIN);
}

#[test]
fn day_bounds_match_the_date_library() {
    assert_eq!(time::Date::MIN.to_julian_day(), DAY_MIN);
    assert_eq!(time::Date::MAX.to_julian_day(), DAY_MAX);
    let today = current_day();
    assert!(DAY_MIN <= today && today <= DAY_MAX);
}

#[test]
fn day_chars_prints_as_the_date_library_does() {
    let day = time::Date::from_calendar_date(1999, time::Month::December, 31)
        .unwrap()
        .to_julian_day();
    let shown: String = day_chars(day).into_iter().collect();
    assert_eq!(shown, "1999-12-31");
    let epoch: String = day_chars(2_451_545).into_iter().collect();
    assert_eq!(epoch, "2000-01-01");
}

#[test]
fn string_chars_round_trip() {
    let s = "héllo wörld";
    let v = string_to_chars(s);
    assert_eq!(v.len(), 11);
    let back = chars_to_string(&v);
    assert_eq!(back, s);
    assert_eq!(string_to_chars("").len(), 0);
    assert_eq!(chars_to_string(&Vec::new()), "");
}
