use data_forge_rs::text::{
    chars_of, contains_text, find_last, render_decimal, same_text, starts_with,
};

#[test]
fn numbers_are_rendered_in_decimal() {
    assert_eq!(render_decimal(0), "0");
    assert_eq!(render_decimal(7), "7");
    assert_eq!(render_decimal(10), "10");
    assert_eq!(render_decimal(25), "25");
    assert_eq!(render_decimal(100), "100");
    assert_eq!(render_decimal(255), "255");
    assert_eq!(render_decimal(9_876_543_210), "9876543210");
    assert_eq!(render_decimal(usize::MAX), usize::MAX.to_string());
}

#[test]
fn substring_is_found_wherever_it_stands() {
    assert!(contains_text("abcdef", "abc"));
    assert!(contains_text("abcdef", "cde"));
    assert!(contains_text("abcdef", "f"));
    assert!(contains_text("abcdef", "abcdef"));
    assert!(contains_text("abcdef", ""));
    assert!(contains_text("", ""));
    assert!(contains_text("aaab", "aab"));
    assert!(contains_text("naïve café", "é"));
}

#[test]
fn substring_that_is_not_there_is_not_found() {
    assert!(!contains_text("abcdef", "abd"));
    assert!(!contains_text("abcdef", "abcdefg"));
    assert!(!contains_text("abcdef", "fa"));
    assert!(!contains_text("", "a"));
    assert!(!contains_text("ab", "ba"));
}

#[test]
fn prefixes_and_equal_texts() {
    assert!(starts_with("postgresql://db", "postgresql://"));
    assert!(starts_with("abc", ""));
    assert!(starts_with("abc", "abc"));
    assert!(!starts_with("abc", "abcd"));
    assert!(!starts_with("xpostgresql://", "postgresql://"));
    assert!(same_text("csv", "csv"));
    assert!(same_text("", ""));
    assert!(!same_text("csv", "csvx"));
    assert!(!same_text("csv", "cs"));
    assert!(!same_text("csv", "csw"));
}

#[test]
fn last_position_of_a_character() {
    let text = chars_of("a.b.c");
    assert_eq!(text, vec!['a', '.', 'b', '.', 'c']);
    assert_eq!(find_last(&text, 5, '.'), Some(3));
    assert_eq!(find_last(&text, 3, '.'), Some(1));
    assert_eq!(find_last(&text, 1, '.'), None);
    assert_eq!(find_last(&text, 0, '.'), None);
    assert_eq!(find_last(&text, 5, 'c'), Some(4));
    assert_eq!(find_last(&text, 5, 'x'), None);
}
