use pynthora_terminal::text::{
    append_escaped, is_blank_str, str_contains, str_eq, str_starts_with, trim_str,
    u64_to_string, usize_to_string,
};

#[test]
fn decimal_rendering() {
    assert_eq!(usize_to_string(0), "0");
    assert_eq!(usize_to_string(7), "7");
    assert_eq!(usize_to_string(42), "42");
    assert_eq!(usize_to_string(1000), "1000");
    assert_eq!(u64_to_string(18446744073709551615), "18446744073709551615");
}

#[test]
fn blankness_follows_trim() {
    assert!(is_blank_str(""));
    assert!(is_blank_str(" \t\r\n"));
    assert!(is_blank_str("\u{00a0}\u{3000}"));
    assert!(!is_blank_str(" x "));
}

#[test]
fn comparison_and_search() {
    assert!(str_eq("abc", "abc"));
    assert!(!str_eq("abc", "abd"));
    assert!(!str_eq("abc", "ab"));
    assert!(str_starts_with("https://h", "https://"));
    assert!(!str_starts_with("http://h", "https://"));
    assert!(str_contains("connection timeout", "timeout"));
    assert!(str_contains("x", ""));
    assert!(!str_contains("timeout", "timeouts"));
}

#[test]
fn escaping_matches_json_string_literals() {
    let mut out = String::new();
    append_escaped(&mut out, "plain");
    assert_eq!(out, "plain");
    let mut out = String::new();
    append_escaped(&mut out, "a\"b\\c\nd\te\u{1}");
    assert_eq!(out, "a\\\"b\\\\c\\nd\\te\\u0001");
}

#[test]
fn trimming_follows_the_standard_rule() {
    assert_eq!(trim_str(""), "");
    assert_eq!(trim_str("   "), "");
    assert_eq!(trim_str("  x  "), "x");
    assert_eq!(trim_str("\t a b \n"), "a b");
    assert_eq!(trim_str("plain"), "plain");
    assert_eq!(trim_str("  plain"), "plain".trim());
}
