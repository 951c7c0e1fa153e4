use grep_tui::app::App;
use grep_tui::grep::{grep, GrepError};
use grep_tui::key::Key;
use grep_tui::layout::Rect;

const CONTENTS: &str = "Hello\nworld\nHELLO there\n";

fn type_text(app: &mut App, s: &str) {
    for c in s.chars() {
        app.handle_key(Key::Char(c));
    }
}

#[test]
fn results_key_focuses_results_and_cancel_unfocuses() {
    let mut app = App::new();
    assert_eq!(app.focused_index, None);
    app.handle_key(Key::Char('r'));
    assert_eq!(app.focused_index, Some(2));
    app.search(Ok(String::from(CONTENTS)));
    app.handle_key(Key::Down);
    assert_eq!(app.results().selected(), Some(0));
    app.handle_key(Key::Esc);
    assert_eq!(app.focused_index, None);
    assert_eq!(app.results().selected(), None);
}

#[test]
fn activation_keys_pick_their_element() {
    let mut app = App::new();
    app.handle_key(Key::Char('/'));
    assert_eq!(app.focused_index, Some(0));
    app.handle_key(Key::Esc);
    app.handle_key(Key::Char('f'));
    assert_eq!(app.focused_index, Some(1));
    app.handle_key(Key::Esc);
    app.handle_key(Key::Char('x'));
    assert_eq!(app.focused_index, None);
    assert!(!app.do_search);
}

#[test]
fn typing_into_query_recomputes_results_in_same_event() {
    let mut app = App::new();
    app.handle_key(Key::Char('/'));
    type_text(&mut app, "hell");
    app.search(Ok(String::from(CONTENTS)));
    app.handle_key(Key::Char('o'));
    assert!(app.do_search);
    app.search(Ok(String::from(CONTENTS)));
    assert!(!app.do_search);
    assert_eq!(
        app.results().items(),
        &grep(String::from(CONTENTS), String::from("hello"))
    );
    assert_eq!(app.results().items().len(), 2);
}

#[test]
fn focused_key_is_text_not_activation() {
    let mut app = App::new();
    app.handle_key(Key::Char('f'));
    type_text(&mut app, "r/");
    assert_eq!(app.focused_index, Some(1));
    assert_eq!(app.path_text(), "r/");
}

#[test]
fn no_match_marks_query() {
    let mut app = App::new();
    app.handle_key(Key::Char('/'));
    type_text(&mut app, "zzz");
    app.search(Ok(String::from(CONTENTS)));
    assert!(app.query().has_error());
    assert!(app.results().items().is_empty());
    type_text(&mut app, "z");
    assert!(!app.query().has_error());
}

#[test]
fn path_errors_mark_path_and_keep_results() {
    let mut app = App::new();
    app.search(Ok(String::from(CONTENTS)));
    assert_eq!(app.results().items().len(), 3);
    app.search(Err(GrepError::FileNotFound));
    assert!(app.path().has_error());
    assert_eq!(app.results().items().len(), 3);
    let mut app = App::new();
    app.search(Err(GrepError::PathIsNotFile));
    assert!(app.path().has_error());
    assert!(!app.do_search);
}

#[test]
fn other_file_errors_change_nothing() {
    let mut app = App::new();
    app.handle_key(Key::Char('f'));
    app.handle_key(Key::Char('a'));
    app.search(Err(GrepError::FileSystemIssue(std::io::Error::new(
        std::io::ErrorKind::PermissionDenied,
        "denied",
    ))));
    assert!(!app.path().has_error());
    assert!(!app.query().has_error());
    assert!(!app.do_search);
}

#[test]
fn areas_stack_the_elements() {
    let mut app = App::new();
    let full = Rect::new(0, 0, 80, 24);
    assert_eq!(app.area(full, Key::Char('/')), Rect::new(0, 0, 80, 3));
    assert_eq!(app.area(full, Key::Char('f')), Rect::new(0, 3, 80, 3));
    assert_eq!(app.area(full, Key::Char('r')), Rect::new(0, 6, 80, 18));
    assert_eq!(app.area(Rect::new(0, 0, 5, 4), Key::Char('r')), Rect::new(0, 6, 5, 4));
    assert_eq!(app.area(full, Key::Up), full);
}

#[test]
fn minimum_size_covers_all_elements() {
    let app = App::new();
    assert!(app.fits(0, 6));
    assert!(!app.fits(80, 5));
}
