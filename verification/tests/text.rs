use spur_api::text::{contains_text, i32_text, i64_text, parse_i32};

#[test]
fn renders_integers_like_to_string() {
    for i in [0, 7, -7, 10, 99, 100, -100, 825, i32::MAX, i32::MIN] {
        assert_eq!(i32_text(i), i.to_string());
    }
    for i in [0i64, -1, 1_000_000_000_000, i64::MAX, i64::MIN] {
        assert_eq!(i64_text(i), i.to_string());
    }
}

#[test]
fn parses_integers_like_str_parse() {
    let cases = [
        "0", "42", "+42", "-42", "-0", "007", "2147483647", "2147483648", "-2147483648", "-2147483649",
        "", "+", "-", " 1", "1 ", "1a", "99999999999999999999", "--1", "+-1", "٣",
    ];
    for s in cases {
        assert_eq!(parse_i32(s), s.parse::<i32>().ok(), "{s:?}");
    }
}

#[test]
fn finds_substrings_like_contains() {
    let cases = [
        ("users_email_unique", "email"),
        ("users_username_unique", "email"),
        ("users_username_unique", "username"),
        ("", ""),
        ("abc", ""),
        ("ab", "abc"),
        ("aaab", "aab"),
        ("日本語の文字", "語の"),
    ];
    for (hay, needle) in cases {
        assert_eq!(contains_text(hay, needle), hay.contains(needle), "{hay:?} {needle:?}");
    }
}
