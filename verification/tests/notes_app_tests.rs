use term_notes::Action;
use term_notes::App;
use term_notes::CurrentScreen;
use term_notes::InputMode;
use term_notes::JsonNote;
use term_notes::Key;
use term_notes::KeyPress;
use term_notes::NotesRepository;
use term_notes::StoreError;

const NOW: &str = "2024-06-01";

fn record(title: &str, body: &str, date: &str) -> JsonNote {
    JsonNote { title: title.to_string(), body: body.to_string(), date_created: date.to_string() }
}

fn app_with(records: Vec<JsonNote>) -> App {
    App::new(records, NotesRepository::new("notes.json"))
}

fn three_notes() -> App {
    app_with(vec![record("A", "a1\na2", "d1"), record("B", "b", "d2"), record("C", "", "d3")])
}

fn press(app: &mut App, key: Key) -> Action {
    app.handle_key_events(KeyPress::plain(key), NOW)
}

fn type_text(app: &mut App, text: &str) {
    for c in text.chars() {
        assert_eq!(press(app, Key::Char(c)), Action::Idle);
    }
}

fn cursor(app: &App, index: usize) -> (usize, usize) {
    app.notes()[index].body().cursor()
}

#[test]
fn app_starts_on_the_list() {
    let app = three_notes();
    assert_eq!(app.screen(), CurrentScreen::List);
    assert_eq!(app.input_mode(), InputMode::Normal);
    assert!(!app.should_exit());
    assert_eq!(app.notes().len(), 3);
    assert_eq!(app.selected(), Some(0));
    assert_eq!(app.current_note(), Some(0));
    assert_eq!(app.draft(), "");
    assert_eq!(*app.status(), None);
    assert_eq!(app.repo().path, "notes.json");
}

#[test]
fn app_over_no_notes_selects_nothing() {
    let app = app_with(Vec::new());
    assert_eq!(app.notes().len(), 0);
    assert_eq!(app.selected(), None);
    assert_eq!(app.current_note(), None);
    assert!(app.records().is_empty());
}

#[test]
fn records_of_a_fresh_app_are_the_records_given() {
    let stored = vec![
        record("A", "line1\nline2", "2024-01-01"),
        record("B", "", "2024-01-02"),
        record("C", "\n\nx\n", ""),
    ];
    assert_eq!(app_with(stored.clone()).records(), stored);
}

#[test]
fn loaded_note_is_edited_and_stored() {
    let mut app = app_with(vec![record("A", "line1\nline2", "2024-01-01")]);
    assert_eq!(app.notes().len(), 1);
    assert_eq!(app.notes()[0].body().lines(), vec!["line1".to_string(), "line2".to_string()]);
    press(&mut app, Key::Tab);
    assert_eq!(app.screen(), CurrentScreen::Edit);
    press(&mut app, Key::Char('i'));
    assert_eq!(app.input_mode(), InputMode::Insert);
    press(&mut app, Key::Char('X'));
    press(&mut app, Key::Esc);
    assert_eq!(app.input_mode(), InputMode::Normal);
    press(&mut app, Key::Tab);
    assert_eq!(app.screen(), CurrentScreen::List);
    assert_eq!(app.records(), vec![record("A", "Xline1\nline2", "2024-01-01")]);
}

#[test]
fn empty_store_tab_and_short_title_and_first_note() {
    let mut app = app_with(Vec::new());
    assert_eq!(press(&mut app, Key::Tab), Action::Idle);
    assert_eq!(app.screen(), CurrentScreen::List);

    press(&mut app, Key::Char('a'));
    assert_eq!(app.screen(), CurrentScreen::New);
    assert_eq!(app.input_mode(), InputMode::Normal);
    press(&mut app, Key::Char('i'));
    assert_eq!(app.input_mode(), InputMode::Insert);
    type_text(&mut app, "Hi");
    assert_eq!(press(&mut app, Key::Enter), Action::Idle);
    assert_eq!(app.notes().len(), 0);
    assert_eq!(app.screen(), CurrentScreen::New);
    assert_eq!(app.input_mode(), InputMode::Insert);
    assert_eq!(app.draft(), "Hi");

    type_text(&mut app, "!");
    assert_eq!(app.draft(), "Hi!");
    assert_eq!(press(&mut app, Key::Enter), Action::Save);
    assert_eq!(app.notes().len(), 1);
    assert_eq!(app.notes()[0].title(), "Hi!");
    assert_eq!(app.notes()[0].body().lines(), vec![String::new()]);
    assert_eq!(app.notes()[0].date_created(), NOW);
    assert_eq!(app.records(), vec![record("Hi!", "", NOW)]);
    assert_eq!(app.screen(), CurrentScreen::List);
    assert_eq!(app.draft(), "");
    assert_eq!(app.selected(), Some(0));
}

#[test]
fn list_q_asks_to_leave() {
    let mut app = three_notes();
    assert_eq!(press(&mut app, Key::Char('q')), Action::Idle);
    assert!(app.should_exit());
    assert_eq!(app.screen(), CurrentScreen::List);
}

#[test]
fn list_j_and_k_move_the_selection() {
    let mut app = three_notes();
    press(&mut app, Key::Char('j'));
    assert_eq!(app.selected(), Some(1));
    press(&mut app, Key::Char('j'));
    assert_eq!(app.selected(), Some(2));
    press(&mut app, Key::Char('j'));
    assert_eq!(app.selected(), Some(0));
    press(&mut app, Key::Char('k'));
    assert_eq!(app.selected(), Some(0));
    press(&mut app, Key::Char('j'));
    press(&mut app, Key::Char('j'));
    press(&mut app, Key::Char('k'));
    assert_eq!(app.selected(), Some(1));
    assert_eq!(app.screen(), CurrentScreen::List);
}

#[test]
fn list_j_on_a_single_note_stays() {
    let mut app = app_with(vec![record("A", "", "")]);
    press(&mut app, Key::Char('j'));
    assert_eq!(app.selected(), Some(0));
    press(&mut app, Key::Char('k'));
    assert_eq!(app.selected(), Some(0));
}

#[test]
fn list_j_and_k_on_no_notes_select_nothing() {
    let mut app = app_with(Vec::new());
    press(&mut app, Key::Char('j'));
    assert_eq!(app.selected(), None);
    press(&mut app, Key::Char('k'));
    assert_eq!(app.selected(), None);
}

#[test]
fn list_tab_opens_the_selected_note() {
    let mut app = three_notes();
    press(&mut app, Key::Char('j'));
    press(&mut app, Key::Tab);
    assert_eq!(app.screen(), CurrentScreen::Edit);
    assert_eq!(app.input_mode(), InputMode::Normal);
    assert_eq!(app.current_note(), Some(1));
}

#[test]
fn list_question_mark_shows_help_and_comes_back_to_the_list() {
    let mut app = three_notes();
    press(&mut app, Key::Char('?'));
    assert_eq!(app.screen(), CurrentScreen::Help);
    assert_eq!(app.help_return(), CurrentScreen::List);
    press(&mut app, Key::Char('j'));
    assert_eq!(app.screen(), CurrentScreen::Help);
    assert_eq!(app.selected(), Some(0));
    press(&mut app, Key::Char('q'));
    assert!(!app.should_exit());
    press(&mut app, Key::Char('?'));
    assert_eq!(app.screen(), CurrentScreen::List);
}

#[test]
fn edit_question_mark_shows_help_and_comes_back_to_the_note() {
    let mut app = three_notes();
    press(&mut app, Key::Tab);
    press(&mut app, Key::Char('?'));
    assert_eq!(app.screen(), CurrentScreen::Help);
    assert_eq!(app.help_return(), CurrentScreen::Edit);
    press(&mut app, Key::Char('?'));
    assert_eq!(app.screen(), CurrentScreen::Edit);
    assert_eq!(app.input_mode(), InputMode::Normal);
}

#[test]
fn list_ignores_other_keys() {
    let mut app = three_notes();
    let before = app.records();
    for key in [Key::Esc, Key::Enter, Key::Backspace, Key::Other, Key::Char('x'), Key::Char('i')] {
        assert_eq!(press(&mut app, key), Action::Idle);
    }
    assert_eq!(app.screen(), CurrentScreen::List);
    assert_eq!(app.selected(), Some(0));
    assert!(!app.should_exit());
    assert_eq!(app.records(), before);
}

#[test]
fn edit_normal_moves_the_cursor() {
    let mut app = three_notes();
    press(&mut app, Key::Tab);
    press(&mut app, Key::Char('l'));
    assert_eq!(cursor(&app, 0), (0, 1));
    press(&mut app, Key::Char('j'));
    assert_eq!(cursor(&app, 0), (1, 1));
    press(&mut app, Key::Char('h'));
    assert_eq!(cursor(&app, 0), (1, 0));
    press(&mut app, Key::Char('k'));
    assert_eq!(cursor(&app, 0), (0, 0));
    assert_eq!(app.records()[0], record("A", "a1\na2", "d1"));
}

#[test]
fn edit_normal_cursor_stops_at_the_bounds() {
    let mut app = three_notes();
    press(&mut app, Key::Tab);
    press(&mut app, Key::Char('h'));
    press(&mut app, Key::Char('k'));
    assert_eq!(cursor(&app, 0), (0, 0));
    for _ in 0..5 {
        press(&mut app, Key::Char('l'));
    }
    assert_eq!(cursor(&app, 0), (0, 2));
    for _ in 0..5 {
        press(&mut app, Key::Char('j'));
    }
    assert_eq!(cursor(&app, 0), (1, 2));
    press(&mut app, Key::Char('l'));
    assert_eq!(cursor(&app, 0), (1, 2));
}

#[test]
fn edit_normal_does_not_type() {
    let mut app = three_notes();
    press(&mut app, Key::Tab);
    type_text(&mut app, "xyz");
    press(&mut app, Key::Enter);
    press(&mut app, Key::Backspace);
    assert_eq!(app.records()[0], record("A", "a1\na2", "d1"));
    assert_eq!(app.screen(), CurrentScreen::Edit);
}

#[test]
fn edit_normal_q_asks_to_leave() {
    let mut app = three_notes();
    press(&mut app, Key::Tab);
    press(&mut app, Key::Char('q'));
    assert!(app.should_exit());
}

#[test]
fn edit_normal_tab_goes_back_to_the_list() {
    let mut app = three_notes();
    press(&mut app, Key::Tab);
    press(&mut app, Key::Tab);
    assert_eq!(app.screen(), CurrentScreen::List);
}

#[test]
fn edit_insert_types_into_the_selected_note() {
    let mut app = three_notes();
    press(&mut app, Key::Char('j'));
    press(&mut app, Key::Tab);
    press(&mut app, Key::Char('i'));
    type_text(&mut app, "qj?");
    assert_eq!(app.screen(), CurrentScreen::Edit);
    assert_eq!(app.input_mode(), InputMode::Insert);
    assert!(!app.should_exit());
    press(&mut app, Key::Enter);
    type_text(&mut app, "z");
    press(&mut app, Key::Backspace);
    press(&mut app, Key::Backspace);
    press(&mut app, Key::Backspace);
    assert_eq!(
        app.records(),
        vec![record("A", "a1\na2", "d1"), record("B", "qjb", "d2"), record("C", "", "d3")]
    );
    assert_eq!(cursor(&app, 1), (0, 2));
}

#[test]
fn edit_insert_ignores_keys_that_type_nothing() {
    let mut app = three_notes();
    press(&mut app, Key::Tab);
    press(&mut app, Key::Char('i'));
    press(&mut app, Key::Tab);
    press(&mut app, Key::Other);
    app.handle_key_events(KeyPress { key: Key::Char('x'), ctrl: true, alt: false }, NOW);
    app.handle_key_events(KeyPress { key: Key::Char('x'), ctrl: false, alt: true }, NOW);
    assert_eq!(app.screen(), CurrentScreen::Edit);
    assert_eq!(app.input_mode(), InputMode::Insert);
    assert_eq!(app.records()[0], record("A", "a1\na2", "d1"));
    assert_eq!(cursor(&app, 0), (0, 0));
}

#[test]
fn edit_insert_esc_goes_back_to_normal() {
    let mut app = three_notes();
    press(&mut app, Key::Tab);
    press(&mut app, Key::Char('i'));
    press(&mut app, Key::Esc);
    assert_eq!(app.screen(), CurrentScreen::Edit);
    assert_eq!(app.input_mode(), InputMode::Normal);
}

#[test]
fn entering_edit_again_starts_in_normal_mode() {
    let mut app = three_notes();
    press(&mut app, Key::Tab);
    press(&mut app, Key::Char('i'));
    press(&mut app, Key::Esc);
    press(&mut app, Key::Tab);
    press(&mut app, Key::Tab);
    assert_eq!(app.screen(), CurrentScreen::Edit);
    assert_eq!(app.input_mode(), InputMode::Normal);
}

#[test]
fn new_starts_in_normal_mode_with_an_empty_draft() {
    let mut app = three_notes();
    press(&mut app, Key::Char('a'));
    press(&mut app, Key::Char('i'));
    type_text(&mut app, "abc");
    press(&mut app, Key::Esc);
    assert_eq!(app.input_mode(), InputMode::Normal);
    assert_eq!(app.draft(), "abc");
    press(&mut app, Key::Esc);
    assert_eq!(app.screen(), CurrentScreen::List);
    assert_eq!(app.draft(), "");
    press(&mut app, Key::Char('a'));
    assert_eq!(app.screen(), CurrentScreen::New);
    assert_eq!(app.input_mode(), InputMode::Normal);
    assert_eq!(app.draft(), "");
    assert_eq!(app.notes().len(), 3);
}

#[test]
fn new_normal_does_not_type() {
    let mut app = three_notes();
    press(&mut app, Key::Char('a'));
    type_text(&mut app, "xyz");
    press(&mut app, Key::Enter);
    assert_eq!(app.draft(), "");
    assert_eq!(app.screen(), CurrentScreen::New);
    assert_eq!(app.notes().len(), 3);
}

#[test]
fn new_normal_q_asks_to_leave() {
    let mut app = three_notes();
    press(&mut app, Key::Char('a'));
    press(&mut app, Key::Char('q'));
    assert!(app.should_exit());
}

#[test]
fn new_insert_backspace_removes_the_last_character() {
    let mut app = three_notes();
    press(&mut app, Key::Char('a'));
    press(&mut app, Key::Char('i'));
    press(&mut app, Key::Backspace);
    assert_eq!(app.draft(), "");
    type_text(&mut app, "abq");
    press(&mut app, Key::Backspace);
    assert_eq!(app.draft(), "ab");
    assert!(!app.should_exit());
}

#[test]
fn new_insert_draft_never_grows_beyond_eighty() {
    let mut app = three_notes();
    press(&mut app, Key::Char('a'));
    press(&mut app, Key::Char('i'));
    for n in 1..=200 {
        press(&mut app, Key::Char('x'));
        assert!(app.draft().chars().count() <= 80);
        assert_eq!(app.draft().chars().count(), if n < 80 { n } else { 80 });
    }
    assert_eq!(press(&mut app, Key::Enter), Action::Save);
    assert_eq!(app.notes()[3].title(), "x".repeat(80).as_str());
}

#[test]
fn commit_of_two_characters_changes_nothing() {
    let mut app = three_notes();
    let before = app.records();
    press(&mut app, Key::Char('a'));
    press(&mut app, Key::Char('i'));
    type_text(&mut app, "ab");
    assert_eq!(press(&mut app, Key::Enter), Action::Idle);
    assert_eq!(app.records(), before);
    assert_eq!(app.screen(), CurrentScreen::New);
}

#[test]
fn commit_of_three_characters_adds_one_note_at_the_end() {
    let mut app = three_notes();
    let mut expected = app.records();
    press(&mut app, Key::Char('j'));
    press(&mut app, Key::Char('a'));
    press(&mut app, Key::Char('i'));
    type_text(&mut app, "abc");
    assert_eq!(press(&mut app, Key::Enter), Action::Save);
    expected.push(record("abc", "", NOW));
    assert_eq!(app.records(), expected);
    assert_eq!(app.notes().len(), 4);
    assert_eq!(app.screen(), CurrentScreen::List);
    assert_eq!(app.input_mode(), InputMode::Normal);
    assert_eq!(app.draft(), "");
    assert_eq!(app.selected(), Some(1));
}

#[test]
fn new_note_can_be_reached_and_edited() {
    let mut app = app_with(Vec::new());
    press(&mut app, Key::Char('a'));
    press(&mut app, Key::Char('i'));
    type_text(&mut app, "Day");
    press(&mut app, Key::Enter);
    press(&mut app, Key::Tab);
    assert_eq!(app.screen(), CurrentScreen::Edit);
    press(&mut app, Key::Char('i'));
    type_text(&mut app, "ab");
    press(&mut app, Key::Enter);
    type_text(&mut app, "c");
    assert_eq!(app.records(), vec![record("Day", "ab\nc", NOW)]);
}

#[test]
fn failed_save_is_kept_until_the_next_key() {
    let mut app = three_notes();
    let before = app.records();
    app.save_finished(Err(StoreError::Io("disk full".to_string())));
    assert_eq!(*app.status(), Some(StoreError::Io("disk full".to_string())));
    assert_eq!(app.records(), before);
    assert_eq!(app.screen(), CurrentScreen::List);
    assert!(!app.should_exit());
    press(&mut app, Key::Other);
    assert_eq!(*app.status(), None);
    assert_eq!(app.records(), before);
}

#[test]
fn good_save_takes_the_report_down() {
    let mut app = three_notes();
    app.save_finished(Err(StoreError::Serialize("bad".to_string())));
    app.save_finished(Ok(()));
    assert_eq!(*app.status(), None);
}

fn parse(text: &str) -> Vec<JsonNote> {
    let value: serde_json::Value = serde_json::from_str(text).unwrap();
    value
        .as_array()
        .unwrap()
        .iter()
        .map(|note| {
            record(
                note["title"].as_str().unwrap(),
                note["body"].as_str().unwrap(),
                note["date_created"].as_str().unwrap(),
            )
        })
        .collect()
}

fn print(records: &[JsonNote]) -> String {
    let notes: Vec<serde_json::Value> = records
        .iter()
        .map(|note| {
            let mut fields = serde_json::Map::new();
            fields.insert("title".to_string(), serde_json::Value::String(note.title.clone()));
            fields.insert("body".to_string(), serde_json::Value::String(note.body.clone()));
            fields.insert(
                "date_created".to_string(),
                serde_json::Value::String(note.date_created.clone()),
            );
            serde_json::Value::Object(fields)
        })
        .collect();
    serde_json::to_string_pretty(&serde_json::Value::Array(notes)).unwrap()
}

#[test]
fn file_is_loaded_edited_and_written() {
    let file = r#"[{"title":"A","body":"line1\nline2","date_created":"2024-01-01"}]"#;
    let mut app = app_with(parse(file));
    assert_eq!(app.notes().len(), 1);
    assert_eq!(app.notes()[0].body().lines(), vec!["line1".to_string(), "line2".to_string()]);
    for key in [Key::Tab, Key::Char('i'), Key::Char('X'), Key::Esc, Key::Tab] {
        press(&mut app, key);
    }
    let written = print(&app.records());
    let read_again = parse(&written);
    assert_eq!(read_again, vec![record("A", "Xline1\nline2", "2024-01-01")]);
    assert_eq!(read_again[0].body, "Xline1\nline2");
}

#[test]
fn file_that_is_loaded_and_written_twice_is_written_the_same() {
    let file = r#"[
        {"title":"A","body":"line1\nline2","date_created":"2024-01-01"},
        {"title":"B","body":"","date_created":"2024-01-02"},
        {"title":"C","body":"one\n\nthree\n","date_created":""}
    ]"#;
    let first = print(&app_with(parse(file)).records());
    let second = print(&app_with(parse(&first)).records());
    assert_eq!(first, second);
    assert_eq!(parse(&first), parse(file));
}
