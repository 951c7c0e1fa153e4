use grep_tui::component::file_display::FileDisplay;
use grep_tui::component::text_input::TextInput;
use grep_tui::key::Key;

fn items(n: u32) -> Vec<(u32, String)> {
    (1..=n).map(|i| (i, format!("line {i}"))).collect()
}

#[test]
fn next_wraps_to_first() {
    let mut d = FileDisplay::new(String::from("Results"), Key::Char('r'));
    d.set_items(items(3));
    assert_eq!(d.selected(), None);
    d.next();
    assert_eq!(d.selected(), Some(0));
    d.next();
    d.next();
    assert_eq!(d.selected(), Some(2));
    d.next();
    assert_eq!(d.selected(), Some(0));
}

#[test]
fn prev_from_nothing_selects_last() {
    let mut d = FileDisplay::new(String::from("Results"), Key::Char('r'));
    d.set_items(items(4));
    d.prev();
    assert_eq!(d.selected(), Some(3));
    d.prev();
    assert_eq!(d.selected(), Some(2));
}

#[test]
fn next_then_as_many_prev_as_items_cycles_back() {
    let n = 5;
    let mut d = FileDisplay::new(String::from("Results"), Key::Char('r'));
    d.set_items(items(n));
    d.next();
    let mut seen = Vec::new();
    for _ in 0..n {
        d.prev();
        let i = d.selected().unwrap();
        assert!(i < n as usize);
        seen.push(i);
    }
    assert_eq!(seen, vec![4, 3, 2, 1, 0]);
    assert_eq!(d.selected(), Some(0));
}

#[test]
fn navigation_on_empty_list_does_nothing() {
    let mut d = FileDisplay::new(String::from("Results"), Key::Char('r'));
    d.next();
    assert_eq!(d.selected(), None);
    d.prev();
    assert_eq!(d.selected(), None);
}

#[test]
fn new_items_clear_selection() {
    let mut d = FileDisplay::new(String::from("Results"), Key::Char('r'));
    d.set_items(items(2));
    d.next();
    d.set_items(items(3));
    assert_eq!(d.selected(), None);
    assert_eq!(d.items().len(), 3);
}

#[test]
fn list_keys_navigate() {
    let mut d = FileDisplay::new(String::from("Results"), Key::Char('r'));
    d.set_items(items(3));
    assert!(!d.handle_key(Key::Down));
    assert_eq!(d.selected(), Some(0));
    assert!(!d.handle_key(Key::Char('j')));
    assert_eq!(d.selected(), Some(1));
    assert!(!d.handle_key(Key::Char('k')));
    assert!(!d.handle_key(Key::Up));
    assert_eq!(d.selected(), Some(2));
    assert!(!d.handle_key(Key::Char('x')));
    assert_eq!(d.selected(), Some(2));
    assert!(!d.handle_key(Key::Esc));
    assert_eq!(d.selected(), None);
}

#[test]
fn typing_appends_and_asks_for_search() {
    let mut t = TextInput::new(String::from("Search"), String::from("Foo"), Key::Char('/'));
    assert!(t.handle_key(Key::Char('a')));
    assert!(t.handle_key(Key::Char('b')));
    assert_eq!(t.text(), "ab");
}

#[test]
fn backspace_removes_last_character() {
    let mut t = TextInput::new(String::from("Search"), String::from("Foo"), Key::Char('/'));
    t.handle_key(Key::Char('a'));
    t.handle_key(Key::Char('b'));
    assert!(t.handle_key(Key::Backspace));
    assert_eq!(t.text(), "a");
    assert!(t.handle_key(Key::Backspace));
    assert!(t.handle_key(Key::Backspace));
    assert_eq!(t.text(), "");
}

#[test]
fn edit_clears_error_and_other_keys_do_not() {
    let mut t = TextInput::new(String::from("File"), String::from("x"), Key::Char('f'));
    t.error(true);
    assert!(!t.handle_key(Key::Up));
    assert!(t.has_error());
    assert!(t.handle_key(Key::Char('z')));
    assert!(!t.has_error());
}
