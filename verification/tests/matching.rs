//! Title matching: the exact console-title test and the case-insensitive
//! application-title test, plus the snapshot scans built on them.

use houdini_guard::scan::{console_window_index, is_app_title, is_console_title, is_target_running};
use houdini_guard::text::{chars_match_ci, contains_pattern_ci, str_eq_exact};

#[test]
fn console_title_exact_match() {
    assert!(is_console_title("Houdini Console"));
}

#[test]
fn console_title_is_case_sensitive() {
    assert!(!is_console_title("houdini console"));
    assert!(!is_console_title("HOUDINI CONSOLE"));
}

#[test]
fn console_title_rejects_near_misses() {
    assert!(!is_console_title("Houdini Console "));
    assert!(!is_console_title(" Houdini Console"));
    assert!(!is_console_title("Houdini"));
    assert!(!is_console_title(""));
}

#[test]
fn app_title_needs_both_substrings() {
    assert!(is_app_title("Houdini Indie — untitled.hip"));
    assert!(!is_app_title("My Houdini Notes"));
    assert!(!is_app_title("Indie Game Dev"));
}

#[test]
fn app_title_matching_ignores_case() {
    assert!(is_app_title("HOUDINI INDIE"));
    assert!(is_app_title("houdini indie"));
    assert!(is_app_title("hOuDiNi InDiE"));
    assert!(is_app_title("Houdini Indie"));
}

#[test]
fn app_title_rejects_empty_and_partial() {
    assert!(!is_app_title(""));
    assert!(!is_app_title("indie"));
    assert!(!is_app_title("houdini"));
    assert!(is_app_title("indie houdini"));
}

#[test]
fn char_matching_folds_ascii_case_only() {
    assert!(chars_match_ci('a', 'A'));
    assert!(chars_match_ci('Z', 'z'));
    assert!(chars_match_ci('7', '7'));
    assert!(!chars_match_ci('a', 'b'));
    assert!(!chars_match_ci('[', '{'));
}

#[test]
fn substring_search_finds_and_misses() {
    assert!(contains_pattern_ci("The Houdini Indie launcher", "indie"));
    assert!(contains_pattern_ci("INDIE", "indie"));
    assert!(!contains_pattern_ci("indi", "indie"));
    assert!(!contains_pattern_ci("", "indie"));
    assert!(contains_pattern_ci("anything", ""));
}

#[test]
fn exact_string_equality() {
    assert!(str_eq_exact("", ""));
    assert!(str_eq_exact("abc", "abc"));
    assert!(!str_eq_exact("abc", "abd"));
    assert!(!str_eq_exact("abc", "abcd"));
    assert!(!str_eq_exact("abc", "ABC"));
}

#[test]
fn console_index_picks_first_exact_title() {
    let titles = vec![
        String::from("Houdini Indie"),
        String::from("Houdini Console"),
        String::from("Houdini Console"),
    ];
    assert_eq!(console_window_index(&titles), Some(1));
}

#[test]
fn console_index_none_without_exact_title() {
    let titles = vec![
        String::from("houdini console"),
        String::from(""),
        String::from("Notepad"),
    ];
    assert_eq!(console_window_index(&titles), None);
    assert_eq!(console_window_index(&Vec::new()), None);
}

#[test]
fn liveness_over_snapshot() {
    let alive = vec![
        String::from(""),
        String::from("Notepad"),
        String::from("Houdini Indie — untitled.hip"),
    ];
    assert!(is_target_running(&alive));

    let dead = vec![
        String::from("My Houdini Notes"),
        String::from("Indie Game Dev"),
        String::from(""),
    ];
    assert!(!is_target_running(&dead));
    assert!(!is_target_running(&Vec::new()));
}
