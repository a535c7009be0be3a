use locwork::action::Action;
use locwork::dispatch::Context;
use locwork::dispatch::KeyRouting;
use locwork::dispatch::StoreCommand;
use locwork::keys::Key;
use locwork::location_panel::PanelType;
use locwork::modal::ActiveModal;
use locwork::models::Location;
use locwork::models::LogType;
use locwork::models::Record;

fn loc(id: i64, name: &str) -> Location {
    Location { id, name: name.to_string(), tag: String::new() }
}

fn ctx_with(names: &[(i64, &str)]) -> Context {
    let locations: Vec<Location> = names.iter().map(|(i, n)| loc(*i, n)).collect();
    Context::new(locations)
}

#[test]
fn focus_starts_on_locations_and_keys_move_it() {
    let mut ctx = ctx_with(&[(1, "home")]);
    assert_eq!(ctx.focussed, PanelType::Locations);
    let r = ctx.route_key(Key::Char('2'));
    assert_eq!(r, KeyRouting::Ignored);
    assert_eq!(ctx.focussed, PanelType::Calendar);
    let r = ctx.route_key(Key::Char('1'));
    assert_eq!(r, KeyRouting::Ignored);
    assert_eq!(ctx.focussed, PanelType::Locations);
}

#[test]
fn quit_key_quits_only_without_modal() {
    let mut ctx = ctx_with(&[(1, "home")]);
    assert_eq!(ctx.route_key(Key::Char('q')), KeyRouting::Quit);
    // Open the add-location modal, then the same key must not quit.
    let mut ctx = ctx_with(&[(1, "home")]);
    let r = ctx.route_key(Key::Char('a'));
    let act = match r {
        KeyRouting::Act(a) => a,
        _ => panic!("expected an intent"),
    };
    assert_eq!(ctx.process_action(act), None);
    assert!(matches!(ctx.active_modal, ActiveModal::AddLocation(_)));
    let r = ctx.route_key(Key::Char('q'));
    assert!(r != KeyRouting::Quit);
    assert!(matches!(ctx.active_modal, ActiveModal::AddLocation(_)));
}

#[test]
fn modal_owns_input_exclusively() {
    let mut ctx = ctx_with(&[(1, "home"), (2, "office")]);
    let act = match ctx.route_key(Key::Char('a')) {
        KeyRouting::Act(a) => a,
        _ => panic!("expected an intent"),
    };
    ctx.process_action(act);
    // Global focus keys and panel hotkeys all go to the modal now.
    ctx.route_key(Key::Char('1'));
    ctx.route_key(Key::Char('2'));
    ctx.route_key(Key::Char('j'));
    assert_eq!(ctx.focussed, PanelType::Locations);
    assert_eq!(ctx.locations_panel.cursor, 0);
    assert_eq!(ctx.locations_panel.locations.len(), 2);
    // The modal received those characters as edits instead.
    match &ctx.active_modal {
        ActiveModal::AddLocation(m) => assert_eq!(m.state.text, "12j"),
        _ => panic!("modal must still be open"),
    }
}

#[test]
fn add_location_round_trip_updates_cache() {
    // Locations cache = [home, office]; press `a`, type "gym", press
    // Enter: the modal closes at once; after the background completion
    // arrives the cache is [home, office, gym].
    let mut ctx = ctx_with(&[(1, "home"), (2, "office")]);
    let act = match ctx.route_key(Key::Char('a')) {
        KeyRouting::Act(a) => a,
        _ => panic!("expected an intent"),
    };
    assert_eq!(ctx.process_action(act), None);
    ctx.route_key(Key::Char('g'));
    ctx.route_key(Key::Char('y'));
    ctx.route_key(Key::Char('m'));
    let confirm = match ctx.route_key(Key::Enter) {
        KeyRouting::Act(a) => a,
        _ => panic!("expected a confirmation"),
    };
    assert_eq!(confirm, Action::ConfirmAddLocation("gym".to_string()));
    let cmd = ctx.process_action(confirm);
    assert!(matches!(ctx.active_modal, ActiveModal::Closed));
    assert_eq!(cmd, Some(StoreCommand::AddLocationAndReload("gym".to_string())));
    // The background task completes with the reloaded list.
    let list = vec![loc(1, "home"), loc(2, "office"), loc(3, "gym")];
    assert_eq!(ctx.process_action(Action::AddLocationDbSuccess(list)), None);
    let names: Vec<&str> =
        ctx.locations_panel.locations.iter().map(|l| l.name.as_str()).collect();
    assert_eq!(names, vec!["home", "office", "gym"]);
}

#[test]
fn empty_name_is_rejected_locally() {
    let mut ctx = ctx_with(&[(1, "home")]);
    let act = match ctx.route_key(Key::Char('a')) {
        KeyRouting::Act(a) => a,
        _ => panic!("expected an intent"),
    };
    ctx.process_action(act);
    // Enter on an empty draft confirms nothing and keeps the modal open.
    assert_eq!(ctx.route_key(Key::Enter), KeyRouting::Ignored);
    assert!(matches!(ctx.active_modal, ActiveModal::AddLocation(_)));
}

#[test]
fn reload_completion_replaces_cache_wholesale() {
    let mut ctx = ctx_with(&[(1, "stale"), (2, "older")]);
    let list = vec![loc(7, "fresh")];
    assert_eq!(ctx.process_action(Action::AddLocationDbSuccess(list)), None);
    assert_eq!(ctx.locations_panel.locations.len(), 1);
    assert_eq!(ctx.locations_panel.locations[0].name, "fresh");
    assert_eq!(ctx.locations_panel.locations[0].id, 7);
}

#[test]
fn delete_removes_selected_entry_and_calls_no_store() {
    let mut ctx = ctx_with(&[(1, "home"), (2, "office")]);
    let act = match ctx.route_key(Key::Char('d')) {
        KeyRouting::Act(a) => a,
        _ => panic!("expected an intent"),
    };
    assert_eq!(act, Action::DeleteLocation("home".to_string()));
    let names: Vec<&str> =
        ctx.locations_panel.locations.iter().map(|l| l.name.as_str()).collect();
    assert_eq!(names, vec!["office"]);
    // Dispatching the delete intent is reserved: no store work, no change.
    assert_eq!(ctx.process_action(act), None);
    assert_eq!(ctx.locations_panel.locations.len(), 1);
}

#[test]
fn delete_on_empty_cache_is_skipped() {
    let mut ctx = ctx_with(&[]);
    assert_eq!(ctx.route_key(Key::Char('d')), KeyRouting::Ignored);
    assert_eq!(ctx.locations_panel.locations.len(), 0);
}

#[test]
fn month_navigation_emits_intent_and_defers_state() {
    // Calendar selected = 2025-06-15; `H` emits StartNavigateDate 31
    // days earlier and changes nothing locally until the completion
    // arrives, which replaces the records wholesale.
    let mut ctx = ctx_with(&[(1, "home")]);
    ctx.route_key(Key::Char('2'));
    let day = time::Date::from_calendar_date(2025, time::Month::June, 15)
        .unwrap()
        .to_julian_day();
    ctx.calendar_panel.selected = day;
    let earlier = time::Date::from_calendar_date(2025, time::Month::May, 15)
        .unwrap()
        .to_julian_day();
    let act = match ctx.route_key(Key::Char('H')) {
        KeyRouting::Act(a) => a,
        _ => panic!("expected an intent"),
    };
    assert_eq!(act, Action::StartNavigateDate(earlier));
    assert_eq!(ctx.calendar_panel.selected, day);
    assert_eq!(ctx.calendar_panel.records.len(), 0);
    let cmd = ctx.process_action(act);
    assert_eq!(cmd, Some(StoreCommand::LoadMonthRecords(earlier)));
    assert_eq!(ctx.calendar_panel.selected, day);
    let records = vec![Record { id: 1, location_id: 1, date: earlier, log_type: LogType::Work }];
    assert_eq!(ctx.process_action(Action::LoadNavigateDateSuccess(records)), None);
    assert_eq!(ctx.calendar_panel.records.len(), 1);
    assert_eq!(ctx.calendar_panel.records[0].date, earlier);
}

#[test]
fn day_navigation_moves_selection_locally() {
    let mut ctx = ctx_with(&[]);
    ctx.route_key(Key::Char('2'));
    let day = time::Date::from_calendar_date(2025, time::Month::June, 15)
        .unwrap()
        .to_julian_day();
    ctx.calendar_panel.selected = day;
    assert_eq!(ctx.route_key(Key::Char('l')), KeyRouting::Act(Action::Processing));
    assert_eq!(ctx.calendar_panel.selected, day + 1);
    assert_eq!(ctx.route_key(Key::Char('j')), KeyRouting::Act(Action::Processing));
    assert_eq!(ctx.calendar_panel.selected, day + 8);
    assert_eq!(ctx.route_key(Key::Char('h')), KeyRouting::Act(Action::Processing));
    assert_eq!(ctx.route_key(Key::Char('k')), KeyRouting::Act(Action::Processing));
    assert_eq!(ctx.calendar_panel.selected, day);
}

#[test]
fn unrecognized_keys_are_skipped_on_both_panels() {
    let mut ctx = ctx_with(&[(1, "home")]);
    assert_eq!(ctx.route_key(Key::Char('x')), KeyRouting::Ignored);
    assert_eq!(ctx.route_key(Key::Other), KeyRouting::Ignored);
    assert_eq!(ctx.locations_panel.locations.len(), 1);
    assert_eq!(ctx.locations_panel.cursor, 0);
    ctx.route_key(Key::Char('2'));
    let day = ctx.calendar_panel.selected;
    assert_eq!(ctx.route_key(Key::Char('x')), KeyRouting::Ignored);
    assert_eq!(ctx.calendar_panel.selected, day);
    assert!(matches!(ctx.active_modal, ActiveModal::Closed));
}

#[test]
fn add_record_intent_opens_seeded_modal() {
    let mut ctx = ctx_with(&[(1, "home"), (2, "office")]);
    ctx.route_key(Key::Char('2'));
    let day = time::Date::from_calendar_date(2025, time::Month::June, 15)
        .unwrap()
        .to_julian_day();
    ctx.calendar_panel.selected = day;
    let act = match ctx.route_key(Key::Char('A')) {
        KeyRouting::Act(a) => a,
        _ => panic!("expected an intent"),
    };
    assert_eq!(ctx.process_action(act), None);
    match &ctx.active_modal {
        ActiveModal::AddRecord(m) => {
            assert_eq!(m.state.date, day);
            assert_eq!(m.state.location, "");
            assert_eq!(m.state.log_type, LogType::Work);
            assert_eq!(m.locations.len(), 2);
            // The date field shows the day as the date library prints it.
            let shown: String = m.date_field.state.value.iter().collect();
            assert_eq!(shown, "2025-06-15");
        }
        _ => panic!("expected the add-record modal"),
    }
    // Esc cancels; dispatching the intent closes the overlay.
    let act = match ctx.route_key(Key::Esc) {
        KeyRouting::Act(a) => a,
        _ => panic!("expected a cancel intent"),
    };
    assert_eq!(act, Action::CancelModal);
    ctx.process_action(act);
    assert!(matches!(ctx.active_modal, ActiveModal::Closed));
}

#[test]
fn record_modal_picker_chooses_location() {
    let mut ctx = ctx_with(&[(1, "home"), (2, "office")]);
    ctx.route_key(Key::Char('2'));
    let act = match ctx.route_key(Key::Char('A')) {
        KeyRouting::Act(a) => a,
        _ => panic!("expected an intent"),
    };
    ctx.process_action(act);
    // Open the chooser, move down once, confirm: "office" is chosen...
    assert_eq!(ctx.route_key(Key::Char('l')), KeyRouting::Ignored);
    assert_eq!(ctx.route_key(Key::Char('j')), KeyRouting::Ignored);
    assert_eq!(ctx.route_key(Key::Enter), KeyRouting::Ignored);
    match &ctx.active_modal {
        ActiveModal::AddRecord(m) => {
            // ...the chooser hands back the name it was created with.
            assert_eq!(m.state.location, "home");
        }
        _ => panic!("expected the add-record modal"),
    }
}

#[test]
fn confirm_then_matching_reload_has_name_once() {
    let mut ctx = ctx_with(&[(1, "home")]);
    let cmd = ctx.process_action(Action::ConfirmAddLocation("gym".to_string()));
    assert_eq!(cmd, Some(StoreCommand::AddLocationAndReload("gym".to_string())));
    assert!(matches!(ctx.active_modal, ActiveModal::Closed));
    let list = vec![loc(1, "home"), loc(2, "gym")];
    ctx.process_action(Action::AddLocationDbSuccess(list));
    let count = ctx
        .locations_panel
        .locations
        .iter()
        .filter(|l| l.name == "gym")
        .count();
    assert_eq!(count, 1);
}

#[test]
fn idle_actions_change_nothing() {
    let mut ctx = ctx_with(&[(1, "home")]);
    assert_eq!(ctx.process_action(Action::Nothing), None);
    assert_eq!(ctx.process_action(Action::Processing), None);
    assert_eq!(ctx.process_action(Action::Skipped), None);
    assert_eq!(ctx.locations_panel.locations.len(), 1);
    assert_eq!(ctx.focussed, PanelType::Locations);
    assert!(matches!(ctx.active_modal, ActiveModal::Closed));
}
