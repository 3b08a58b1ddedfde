use clipboard_pipeline::contains_ci;
use clipboard_pipeline::contains_sub;
use clipboard_pipeline::eq_ci;
use clipboard_pipeline::lines_text;
use clipboard_pipeline::split_text;
use clipboard_pipeline::trim_text;

#[test]
fn trim_removes_surrounding_white_space_only() {
    assert_eq!(trim_text("  hello world \t\n"), "hello world");
    assert_eq!(trim_text("no-trim"), "no-trim");
    assert_eq!(trim_text("   \n  "), "");
    assert_eq!(trim_text(""), "");
}

#[test]
fn substring_search_finds_inner_matches() {
    assert!(contains_sub("my password is x", "password"));
    assert!(!contains_sub("my password is x", "PASSWORD"));
    assert!(contains_sub("abc", ""));
    assert!(!contains_sub("ab", "abc"));
}

#[test]
fn case_insensitive_search_folds_both_sides() {
    assert!(contains_ci("my PASSWORD is x", "password"));
    assert!(contains_ci("my password is x", "PASSWORD"));
    assert!(!contains_ci("my passwd is x", "password"));
}

#[test]
fn case_insensitive_equality_is_not_containment() {
    assert!(eq_ci("Terminal", "terminal"));
    assert!(!eq_ci("Terminal", "Term"));
    assert!(eq_ci("", ""));
}

#[test]
fn split_keeps_empty_parts() {
    assert_eq!(split_text("ru,en", ','), vec!["ru", "en"]);
    assert_eq!(split_text("", ','), vec![""]);
    assert_eq!(split_text(",a,", ','), vec!["", "a", ""]);
}

#[test]
fn lines_drop_the_final_terminator_and_carriage_returns() {
    assert_eq!(lines_text("a\nb"), vec!["a", "b"]);
    assert_eq!(lines_text("a\nb\n"), vec!["a", "b"]);
    assert_eq!(lines_text("a\r\nb\r\n"), vec!["a", "b"]);
    assert_eq!(lines_text("a\n\nb"), vec!["a", "", "b"]);
    assert!(lines_text("").is_empty());
    assert_eq!(lines_text("tail\r"), vec!["tail\r"]);
}
