use cat_games_launcher::text::{contains, decimal_text, ends_with, replace, text_eq};

#[test]
fn replace_every_occurrence() {
    assert_eq!(replace("a-b-c", "-", "+"), "a+b+c");
}

#[test]
fn replace_without_overlap_from_the_left() {
    assert_eq!(replace("aaa", "aa", "b"), "ba");
    assert_eq!(replace("aaaa", "aa", "b"), "bb");
}

#[test]
fn replace_empty_pattern_interleaves() {
    assert_eq!(replace("abc", "", "X"), "XaXbXcX");
    assert_eq!(replace("", "", "X"), "X");
}

#[test]
fn replace_absent_pattern_keeps_text() {
    assert_eq!(replace("hello", "$HOME", "/home/u"), "hello");
}

#[test]
fn replace_with_pattern_longer_than_text() {
    assert_eq!(replace("ab", "abc", "x"), "ab");
    assert_eq!(replace("xab", "ab", "Z"), "xZ");
}

#[test]
fn contains_and_ends_with() {
    assert!(contains("cat_game12", "cat_game"));
    assert!(!contains("game12", "cat_game"));
    assert!(contains("abc", ""));
    assert!(ends_with("setup.exe", ".exe"));
    assert!(!ends_with("exe", ".exe"));
    assert!(ends_with("x", ""));
}

#[test]
fn text_equality() {
    assert!(text_eq("edit", "edit"));
    assert!(!text_eq("edit", "edi"));
    assert!(!text_eq("edit", "exit"));
}

#[test]
fn decimal_numbers() {
    assert_eq!(decimal_text(0), "0");
    assert_eq!(decimal_text(7), "7");
    assert_eq!(decimal_text(120), "120");
    assert_eq!(decimal_text(18446744073709551616), "18446744073709551616");
}
