use grep_tui::grep::{check_path, grep, line_count, line_matches, GrepError};

fn owned(v: &[(u32, &str)]) -> Vec<(u32, String)> {
    v.iter().map(|(n, s)| (*n, s.to_string())).collect()
}

#[test]
fn lowercase_query_ignores_case() {
    let r = grep(String::from("Hello\nworld\nHELLO there\n"), String::from("hello"));
    assert_eq!(r, owned(&[(1, "Hello"), (3, "HELLO there")]));
}

#[test]
fn uppercase_query_is_case_sensitive() {
    let r = grep(String::from("Hello\nworld\nHELLO there\n"), String::from("Hello"));
    assert_eq!(r, owned(&[(1, "Hello")]));
}

#[test]
fn uppercase_query_returns_only_literal_matches() {
    let r = grep(String::from("aBc\nabc\nABC\nxaBcx"), String::from("aBc"));
    assert_eq!(r, owned(&[(1, "aBc"), (4, "xaBcx")]));
    for (_, line) in &r {
        assert!(line.contains("aBc"));
    }
}

#[test]
fn lowercase_query_finds_uppercase_lines() {
    let r = grep(String::from("ABC\nxyz\nzAbCz"), String::from("abc"));
    assert_eq!(r, owned(&[(1, "ABC"), (3, "zAbCz")]));
}

#[test]
fn empty_query_returns_every_line() {
    let r = grep(String::from("one\n\nthree\nfour"), String::new());
    assert_eq!(r, owned(&[(1, "one"), (2, ""), (3, "three"), (4, "four")]));
}

#[test]
fn empty_contents_give_no_match() {
    assert_eq!(grep(String::new(), String::new()), Vec::new());
    assert_eq!(grep(String::new(), String::from("a")), Vec::new());
}

#[test]
fn carriage_returns_are_dropped_before_line_feeds() {
    let r = grep(String::from("foo\r\nbar\n\nbaz\r"), String::new());
    assert_eq!(r, owned(&[(1, "foo"), (2, "bar"), (3, ""), (4, "baz\r")]));
}

#[test]
fn line_numbers_count_lines_that_do_not_match() {
    let r = grep(String::from("a\nb\nc\nb\n"), String::from("b"));
    assert_eq!(r, owned(&[(2, "b"), (4, "b")]));
}

#[test]
fn query_longer_than_every_line_matches_nothing() {
    let r = grep(String::from("ab\ncd"), String::from("abcdef"));
    assert!(r.is_empty());
}

#[test]
fn line_matches_literal_when_lowering_changes_query() {
    assert!(line_matches("Hello there", "Hello", "hello there", "hello"));
    assert!(!line_matches("HELLO there", "Hello", "hello there", "hello"));
}

#[test]
fn line_matches_lowered_when_query_is_lowercase() {
    assert!(line_matches("HELLO there", "hello", "hello there", "hello"));
    assert!(!line_matches("world", "hello", "world", "hello"));
}

#[test]
fn line_count_follows_line_splitting() {
    assert_eq!(line_count(""), 0);
    assert_eq!(line_count("a"), 1);
    assert_eq!(line_count("a\n"), 1);
    assert_eq!(line_count("a\n\n"), 2);
    assert_eq!(line_count("a\r\nb"), 2);
}

#[test]
fn missing_path_is_not_found() {
    assert!(matches!(check_path(false, false), Err(GrepError::FileNotFound)));
}

#[test]
fn directory_is_not_a_file() {
    assert!(matches!(check_path(true, false), Err(GrepError::PathIsNotFile)));
}

#[test]
fn regular_file_is_accepted() {
    assert!(check_path(true, true).is_ok());
}
