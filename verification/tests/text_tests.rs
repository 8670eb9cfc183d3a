use actix_demo::text::{ascii_lowercase, decimal_string, push_debug_string, push_json_string, text_contains};

#[test]
fn decimal_of_zero_and_small_numbers() {
    assert_eq!(decimal_string(0), "0");
    assert_eq!(decimal_string(7), "7");
    assert_eq!(decimal_string(10), "10");
    assert_eq!(decimal_string(1200), "1200");
    assert_eq!(decimal_string(-1), "-1");
}

#[test]
fn decimal_of_extreme_numbers() {
    assert_eq!(decimal_string(i64::MIN), "-9223372036854775808");
    assert_eq!(decimal_string(i64::MAX), "9223372036854775807");
    assert_eq!(decimal_string(i32::MIN as i64), "-2147483648");
}

#[test]
fn decimal_matches_display() {
    for i in [-1001i64, -99, -10, -9, 0, 9, 10, 99, 100, 65535, 1 << 40] {
        assert_eq!(decimal_string(i), i.to_string());
    }
}

#[test]
fn lower_casing_touches_ascii_letters_only() {
    assert_eq!(ascii_lowercase("Application/JSON; Charset=UTF-8"), "application/json; charset=utf-8");
    assert_eq!(ascii_lowercase(""), "");
    assert_eq!(ascii_lowercase("@[`{"), "@[`{");
}

#[test]
fn contains_finds_substrings() {
    assert!(text_contains("application/json", "json"));
    assert!(text_contains("application/json", "application/json"));
    assert!(text_contains("abc", ""));
    assert!(text_contains("", ""));
    assert!(!text_contains("", "a"));
    assert!(!text_contains("json", "application/json"));
    assert!(!text_contains("aab", "abb"));
    assert!(text_contains("aaab", "aab"));
    assert!(text_contains("王wang五", "wang"));
}

#[test]
fn json_string_escapes_quotes_and_controls() {
    let mut s = String::new();
    push_json_string(&mut s, "a\"b\\c\nd");
    assert_eq!(s, "\"a\\\"b\\\\c\\nd\"");
    let mut t = String::from("x=");
    push_json_string(&mut t, "中文");
    assert_eq!(t, "x=\"中文\"");
}

#[test]
fn debug_string_is_quoted_and_escaped() {
    let mut s = String::new();
    push_debug_string(&mut s, "a\"b\n");
    assert_eq!(s, "\"a\\\"b\\n\"");
}

#[test]
fn json_string_escapes_every_control_character() {
    let mut s = String::new();
    push_json_string(&mut s, "\u{8}\t\n\u{c}\r\u{1}\u{1f}\u{7f}/é");
    assert_eq!(s, "\"\\b\\t\\n\\f\\r\\u0001\\u001f\u{7f}/é\"");
}
