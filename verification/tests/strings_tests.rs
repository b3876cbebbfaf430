use eventmap::chars::{chars_of, contains_str, replace_str, same_text, split_chars, string_of, trim_chars};
use eventmap::numbers::{decimal_chars, parse_i32, strip_commas};

fn v(s: &str) -> Vec<char> {
    s.chars().collect()
}

#[test]
fn chars_round_trip() {
    assert_eq!(chars_of("a\u{b7}b"), vec!['a', '\u{b7}', 'b']);
    assert_eq!(string_of(&['x', 'y']), "xy");
}

#[test]
fn contains_and_same_text() {
    assert!(contains_str("hello world", "lo w"));
    assert!(contains_str("abc", ""));
    assert!(!contains_str("ab", "abc"));
    assert!(same_text("Website", "Website"));
    assert!(!same_text("Website", "website"));
}

#[test]
fn replace_is_left_to_right_and_non_overlapping() {
    assert_eq!(replace_str("aaaa", "aa", "b"), "bb");
    assert_eq!(replace_str("aaa", "aa", "b"), "ba");
    assert_eq!(replace_str("x", "y", "z"), "x");
    assert_eq!(replace_str("a.b.c", ".", ""), "abc");
}

#[test]
fn trim_uses_unicode_white_space() {
    assert_eq!(trim_chars(&v(" \t 47.6 \n")), v("47.6"));
    assert_eq!(trim_chars(&v("\u{3000}x\u{a0}")), v("x"));
    assert_eq!(trim_chars(&v("   ")), v(""));
    assert_eq!(trim_chars(&v("a b")), v("a b"));
}

#[test]
fn split_keeps_empty_pieces() {
    assert_eq!(split_chars(&v("a,b"), ','), vec![v("a"), v("b")]);
    assert_eq!(split_chars(&v(""), ','), vec![v("")]);
    assert_eq!(split_chars(&v(",,"), ','), vec![v(""), v(""), v("")]);
}

#[test]
fn parse_i32_follows_std() {
    for s in ["0", "123", "-5", "+7", "-2147483648", "2147483647", "", "-", "+", "2147483648", "12a", " 1", "007"] {
        assert_eq!(parse_i32(&v(s)), s.parse::<i32>().ok(), "input {:?}", s);
    }
}

#[test]
fn strip_commas_and_decimal_chars() {
    assert_eq!(strip_commas(&v("1,234,567")), v("1234567"));
    assert_eq!(decimal_chars(0), v("0"));
    assert_eq!(decimal_chars(4294967295), v("4294967295"));
}
