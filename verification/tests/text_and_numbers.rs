use vertex::json::{field, item, Json};
use vertex::reminders::calendar_events;
use vertex::decimal::{i64_to_decimal, parse_i64, u64_to_decimal};
use vertex::text::{concat_strings, contains, join_strings, text_eq, trim, is_whitespace};

#[test]
fn contains_cases() {
    assert!(contains("abcabd", "abd"));
    assert!(contains("abc", ""));
    assert!(!contains("ab", "abc"));
    assert!(!contains("You are logged", "You are logged in as"));
    assert!(contains("é You are logged in as x", "You are logged in as"));
}

#[test]
fn trim_cases() {
    assert_eq!(trim("  \n Monday, 1 January\t "), "Monday, 1 January");
    assert_eq!(trim("\u{3000}x\u{a0}"), "x");
    assert_eq!(trim("   "), "");
    assert_eq!(trim("a b"), "a b");
    assert!(is_whitespace('\u{2028}'));
    assert!(!is_whitespace('\u{200b}'));
}

#[test]
fn join_and_concat() {
    let parts = vec!["a".to_string(), "b".to_string(), "c".to_string()];
    assert_eq!(join_strings(&parts, " "), "a b c");
    assert_eq!(concat_strings(&parts), "abc");
    assert_eq!(join_strings(&Vec::new(), " "), "");
    assert!(text_eq("quit", "quit"));
    assert!(!text_eq("quit", "quiT"));
}

#[test]
fn decimal_writing() {
    assert_eq!(u64_to_decimal(0), "0");
    assert_eq!(u64_to_decimal(1717000000), "1717000000");
    assert_eq!(u64_to_decimal(u64::MAX), "18446744073709551615");
    assert_eq!(i64_to_decimal(-42), "-42");
    assert_eq!(i64_to_decimal(i64::MIN), "-9223372036854775808");
}

#[test]
fn decimal_reading() {
    assert_eq!(parse_i64("123"), Some(123));
    assert_eq!(parse_i64("+5"), Some(5));
    assert_eq!(parse_i64("-0"), Some(0));
    assert_eq!(parse_i64("007"), Some(7));
    assert_eq!(parse_i64(""), None);
    assert_eq!(parse_i64("-"), None);
    assert_eq!(parse_i64("+"), None);
    assert_eq!(parse_i64("12a"), None);
    assert_eq!(parse_i64("٣"), None);
    assert_eq!(parse_i64("9223372036854775807"), Some(i64::MAX));
    assert_eq!(parse_i64("9223372036854775808"), None);
    assert_eq!(parse_i64("-9223372036854775808"), Some(i64::MIN));
    assert_eq!(parse_i64("-9223372036854775809"), None);
    assert_eq!(parse_i64("99999999999999999999999"), None);
}

#[test]
fn decimal_round_trip_examples() {
    for n in [0i64, 1, -1, 9, 10, -10, 1234567, i64::MAX, i64::MIN] {
        assert_eq!(parse_i64(&i64_to_decimal(n)), Some(n));
        assert_eq!(i64_to_decimal(n), n.to_string());
    }
}

#[test]
fn json_top_level() {
    let parsed: Result<Json, String> = Ok(Json::Object(vec![
        ("a".to_string(), "[1,2]".to_string()),
        ("b".to_string(), "\"x\"".to_string()),
    ]));
    assert_eq!(field(&parsed, "a"), Some("[1,2]".to_string()));
    assert_eq!(field(&parsed, "c"), None);
    assert_eq!(item(&parsed, 0), None);
    assert!(calendar_events("[1, 2").is_err());
    assert!(calendar_events("{\"a\": 1}").unwrap().is_none());
}
