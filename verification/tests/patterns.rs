use logspan::error::ScanError;
use logspan::files::check_file;
use logspan::pattern::{check_arg, check_str, forbid};
use logspan::text::{contains, split_before, to_chars};

#[test]
fn a_pattern_is_found_anywhere_in_a_line() {
    assert!(contains("2021-01-01 10:00:00> START", "START"));
    assert!(contains("2021-01-01 10:00:00> START", "2021"));
    assert!(contains("2021-01-01 10:00:00> START", "> S"));
    assert!(contains("abc", "abc"));
    assert!(!contains("abc", "abcd"));
    assert!(!contains("2021-01-01 10:00:00> START", "start"));
    assert!(!contains("", "a"));
}

#[test]
fn the_empty_pattern_is_found_in_every_line() {
    assert!(contains("abc", ""));
    assert!(contains("", ""));
}

#[test]
fn a_pattern_beyond_ascii_is_compared_by_characters() {
    assert!(contains("d\u{e9}but \u{2013} fin", "\u{2013} f"));
    assert!(!contains("d\u{e9}but", "de"));
    assert_eq!(to_chars("d\u{e9}b"), vec!['d', '\u{e9}', 'b']);
}

#[test]
fn the_field_ends_at_the_first_delimiter() {
    assert_eq!(split_before("2021-01-01 10:00:00> a > b", '>'), Some("2021-01-01 10:00:00"));
    assert_eq!(split_before(">x", '>'), Some(""));
    assert_eq!(split_before("\u{e9}\u{e9}>x", '>'), Some("\u{e9}\u{e9}"));
    assert_eq!(split_before("no delimiter", '>'), None);
    assert_eq!(split_before("", '>'), None);
}

#[test]
fn an_argument_of_letters_digits_and_a_few_signs_is_accepted() {
    assert_eq!(check_arg("trace-2021_01.log"), Ok(()));
    assert_eq!(check_arg(""), Ok(()));
    assert_eq!(check_arg("\u{e9}t\u{e9}"), Ok(()));
}

#[test]
fn an_argument_with_another_character_is_refused() {
    for text in ["a b", "a/b", "x>y", "semi;colon"] {
        assert_eq!(
            check_arg(text),
            Err(ScanError::Forbidden { pattern: "[^\\w\\d_\\.-]".to_string() })
        );
    }
}

#[test]
fn a_text_is_checked_against_any_pattern() {
    assert_eq!(check_str("abc", "[0-9]"), Ok(()));
    assert_eq!(check_str("abc1", "[0-9]"), Err(ScanError::Forbidden { pattern: "[0-9]".to_string() }));
    assert!(matches!(
        check_str("abc", "("),
        Err(ScanError::InvalidPattern { pattern, .. }) if pattern == "("
    ));
}

#[test]
fn a_found_pattern_is_forbidden() {
    assert_eq!(forbid(false, "x"), Ok(()));
    assert_eq!(forbid(true, "x"), Err(ScanError::Forbidden { pattern: "x".to_string() }));
}

#[test]
fn a_path_is_accepted_where_a_regular_file_is_there() {
    assert_eq!(check_file("trace.log", true, true), Ok("trace.log".to_string()));
    assert_eq!(
        check_file("trace.log", false, false),
        Err(ScanError::NoSuchFile { path: "trace.log".to_string() })
    );
    assert_eq!(
        check_file("trace.log", false, true),
        Err(ScanError::NoSuchFile { path: "trace.log".to_string() })
    );
    assert_eq!(
        check_file("logs", true, false),
        Err(ScanError::NotAFile { path: "logs".to_string() })
    );
}
