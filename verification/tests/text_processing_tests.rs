use eventmap::display::format_thousands;
use eventmap::text_processing::{
    extract_number, extract_url_from_field, get_predefined_attendance_provider_b,
    number_from_match, unescape_field, NO_NUMBER,
};

#[test]
fn test_extract_number() {
    let raw_attendance: &str = "5,208 for all markets";
    let processed_attendance = extract_number(raw_attendance);
    assert_eq!(5208, processed_attendance);
}

#[test]
fn test_extract_url_from_field() {
    let raw_url: &str = "\u{003Ca} href=\"https://redacted.invalid/\"\n\t\t\t\ttarget=\"_blank\"rel=\"noopener\"\u{003E}www.slumarket.com\u{003C}/a\u{003E}";
    let expected_result: Option<String> = Some(String::from("https://redacted.invalid/"));
    let processed_url = extract_url_from_field(raw_url);
    println!("{:?}", processed_url);
    assert_eq!(expected_result, processed_url);
}

#[test]
fn extract_number_takes_the_first_run() {
    assert_eq!(extract_number("between 1,000 and 2,000 people"), 1000);
    assert_eq!(extract_number("about 12345 visitors"), 123);
    assert_eq!(extract_number("seats: 70"), 70);
}

#[test]
fn extract_number_without_digits_gives_the_sentinel() {
    assert_eq!(extract_number("not announced"), NO_NUMBER);
    assert_eq!(extract_number(""), i32::MAX);
}

#[test]
fn extract_number_that_does_not_fit_gives_the_sentinel() {
    assert_eq!(extract_number("99,999,999,999 fans"), NO_NUMBER);
    assert_eq!(extract_number("2,147,483,647"), 2147483647);
}

#[test]
fn extract_number_non_ascii_digits_do_not_parse() {
    // The pattern's \d matches any Unicode decimal digit; i32 parsing only takes ASCII.
    assert_eq!(extract_number("\u{0663}\u{0664}"), NO_NUMBER);
}

#[test]
fn number_from_match_reads_grouped_text() {
    assert_eq!(number_from_match(Some("12,345")), 12345);
    assert_eq!(number_from_match(Some("0")), 0);
    assert_eq!(number_from_match(None), NO_NUMBER);
    assert_eq!(number_from_match(Some("3,000,000,000")), NO_NUMBER);
}

#[test]
fn grouped_attendance_reads_back_as_the_same_number() {
    for n in [0, 7, 999, 1000, 68740, 1_234_567, i32::MAX] {
        let text = format_thousands(n);
        assert_eq!(number_from_match(Some(text.as_str())), n);
        assert_eq!(extract_number(text.as_str()), n);
    }
}

#[test]
fn unescape_field_writes_out_escapes() {
    assert_eq!(unescape_field("\\u003Cb\\u003E more&#8230;"), "<b> more\u{2026}");
    assert_eq!(unescape_field("plain text"), "plain text");
}

#[test]
fn extract_url_from_escaped_field() {
    let field = "\\u003Ca href=\"https://example.invalid/x\"\\u003Elink\\u003C/a\\u003E";
    assert_eq!(extract_url_from_field(field), Some("https://example.invalid/x".to_string()));
}

#[test]
fn extract_url_without_link_is_none() {
    assert_eq!(extract_url_from_field("www.example.invalid"), None);
    assert_eq!(extract_url_from_field("href=\"\""), None);
}

#[test]
fn predefined_attendance_of_known_venues() {
    assert_eq!(get_predefined_attendance_provider_b("800 Occidental Ave S, Seattle"), Some(68740));
    assert_eq!(get_predefined_attendance_provider_b("1250 1st Ave S"), Some(47929));
    assert_eq!(get_predefined_attendance_provider_b("334 1st Ave N, Seattle, WA"), Some(18300));
    assert_eq!(get_predefined_attendance_provider_b("Husky Stadium, University of Washington"), Some(70138));
    assert_eq!(get_predefined_attendance_provider_b("Unknown Venue"), Some(0));
    assert_eq!(get_predefined_attendance_provider_b(""), Some(0));
}

#[test]
fn predefined_attendance_takes_the_first_listed_match() {
    assert_eq!(
        get_predefined_attendance_provider_b("334 1st Ave N near 800 Occidental Ave S"),
        Some(68740)
    );
}
