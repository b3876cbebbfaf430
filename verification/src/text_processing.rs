use crate::chars::{chars_of, contains_seq, contains_str, occurs_at, replace_str, replaced};
use crate::datetime::opt_view;
use crate::numbers::{
    grouped_decimal, lemma_grouped_number_reads_back, parse_i32, parsed_i32, strip_commas,
    without_commas,
};
use vstd::prelude::*;

verus! {

/// A run of digits with optional thousands groups, such as "1,000" or "12,345".
pub const NUMBER_PATTERN: &'static str = "\\d{1,3}(?:,\\d{3})*";

/// The target of an HTML link, captured in the first group.
pub const HREF_PATTERN: &'static str = "href=\"([^\"]+)\"";

/// Escaped `<` as it appears in provider A's field texts.
pub const ESCAPED_LT: &'static str = "\\u003C";

/// Escaped `>` as it appears in provider A's field texts.
pub const ESCAPED_GT: &'static str = "\\u003E";

/// The HTML entity for an ellipsis.
pub const ELLIPSIS_ENTITY: &'static str = "&#8230;";

/// What `extract_number` gives when no number can be read.
pub const NO_NUMBER: i32 = 2147483647;

/// The first match of the regular expression `pattern` in `haystack`, as
/// the `regex` crate finds it (leftmost-first); `None` also for a pattern
/// that does not compile.
pub uninterp spec fn spec_regex_find(pattern: Seq<char>, haystack: Seq<char>) -> Option<Seq<char>>;

/// The text of capture group `group` in the first match of `pattern` in
/// `haystack`, as the `regex` crate finds it; `None` when there is no match,
/// the group took no part in it, or the pattern does not compile.
pub uninterp spec fn spec_regex_capture(pattern: Seq<char>, haystack: Seq<char>, group: nat) -> Option<Seq<char>>;

/// What `html_escape::decode_html_entities` gives.
pub uninterp spec fn spec_decode_html_entities(s: Seq<char>) -> Seq<char>;

/// `regex::Regex::new` then `Regex::find`, the match's text. Claims that the
/// result is a function of the pattern and the haystack alone.
#[verifier::external_body]
fn regex_find(pattern: &str, haystack: &str) -> (r: Option<String>)
    ensures
        opt_view(r) == spec_regex_find(pattern@, haystack@),
{
    let re = regex::Regex::new(pattern).ok()?;
    Some(re.find(haystack)?.as_str().to_string())
}

/// `regex::Regex::new` then `Regex::captures`, the text of one group.
/// Claims that the result is a function of the pattern, the haystack and the group alone.
#[verifier::external_body]
fn regex_capture(pattern: &str, haystack: &str, group: usize) -> (r: Option<String>)
    ensures
        opt_view(r) == spec_regex_capture(pattern@, haystack@, group as nat),
{
    let re = regex::Regex::new(pattern).ok()?;
    Some(re.captures(haystack)?.get(group)?.as_str().to_string())
}

/// `html_escape::decode_html_entities`. Claims that the result is a function
/// of the text alone, and (as its source shows: it looks for `&` first) that
/// a text without `&` comes back unchanged.
#[verifier::external_body]
pub(crate) fn decode_html_entities(s: &str) -> (r: String)
    ensures
        r@ == spec_decode_html_entities(s@),
        !s@.contains('&') ==> r@ == s@,
{
    html_escape::decode_html_entities(s).into_owned()
}

/// The number a matched digit run stands for: its commas dropped and the
/// rest read as an `i32`, or `NO_NUMBER` when there is no match or it does not fit.
pub open spec fn number_of_match(m: Option<Seq<char>>) -> i32 {
    match m {
        Some(text) => match parsed_i32(without_commas(text)) {
            Some(n) => n,
            None => NO_NUMBER,
        },
        None => NO_NUMBER,
    }
}

/// The number that `extract_number` reads from `s`.
pub open spec fn extracted_number(s: Seq<char>) -> i32 {
    number_of_match(spec_regex_find(NUMBER_PATTERN@, s))
}

/// Reads the number in a matched digit run such as "5,208".
pub fn number_from_match(m: Option<&str>) -> (n: i32)
    ensures
        n == number_of_match(match m {
            Some(t) => Some(t@),
            None => None,
        }),
{
    match m {
        Some(text) => {
            let digits = strip_commas(chars_of(text).as_slice());
            match parse_i32(digits.as_slice()) {
                Some(n) => n,
                None => NO_NUMBER,
            }
        },
        None => NO_NUMBER,
    }
}

/// The first run of one to three digits in `s` followed by any number of
/// comma-and-three-digit groups, read as a number ("5,208 for all markets"
/// gives 5208, "12345" gives 123); `NO_NUMBER` when there is no such run or
/// it does not fit in an `i32`.
pub fn extract_number(s: &str) -> (n: i32)
    ensures
        n == extracted_number(s@),
{
    let m = regex_find(NUMBER_PATTERN, s);
    match m {
        Some(text) => number_from_match(Some(text.as_str())),
        None => number_from_match(None),
    }
}

/// Provider A's field text with its escaped angle brackets and ellipsis
/// entities written out.
pub open spec fn unescaped_field(value: Seq<char>) -> Seq<char> {
    replaced(
        replaced(replaced(value, ESCAPED_LT@, "<"@), ESCAPED_GT@, ">"@),
        ELLIPSIS_ENTITY@,
        "\u{2026}"@,
    )
}

/// The link target that `extract_url_from_field` finds in `value`.
pub open spec fn extracted_url(value: Seq<char>) -> Option<Seq<char>> {
    spec_regex_capture(HREF_PATTERN@, unescaped_field(value), 1)
}

/// Writes out the escaped angle brackets and ellipsis entities of a field text.
pub fn unescape_field(value: &str) -> (r: String)
    ensures
        r@ == unescaped_field(value@),
{
    proof {
        reveal_strlit("\\u003C");
        reveal_strlit("\\u003E");
        reveal_strlit("&#8230;");
    }
    let lt = replace_str(value, ESCAPED_LT, "<");
    let gt = replace_str(lt.as_str(), ESCAPED_GT, ">");
    replace_str(gt.as_str(), ELLIPSIS_ENTITY, "\u{2026}")
}

/// The target of the first HTML link in a field text, after its escapes are
/// written out; `None` when there is no link.
pub fn extract_url_from_field(value: &str) -> (r: Option<String>)
    ensures
        opt_view(r) == extracted_url(value@),
{
    let decoded = unescape_field(value);
    regex_capture(HREF_PATTERN, decoded.as_str(), 1)
}

/// Seating of the stadiums and arenas that provider B's events are held in,
/// picked by the first address fragment that the venue's address holds.
pub open spec fn predefined_attendance(venue_address: Seq<char>) -> i32 {
    if contains_seq(venue_address, "800 Occidental Ave S"@) {
        68740
    } else if contains_seq(venue_address, "1250 1st Ave S"@) {
        47929
    } else if contains_seq(venue_address, "334 1st Ave N"@) {
        18300
    } else if contains_seq(venue_address, "University of Washington"@) {
        70138
    } else {
        0
    }
}

/// The known attendance of a provider B venue, 0 for a venue not on the list.
pub fn get_predefined_attendance_provider_b(venue_address: &str) -> (r: Option<i32>)
    ensures
        r == Some(predefined_attendance(venue_address@)),
{
    if contains_str(venue_address, "800 Occidental Ave S") {
        Some(68740)
    } else if contains_str(venue_address, "1250 1st Ave S") {
        Some(47929)
    } else if contains_str(venue_address, "334 1st Ave N") {
        Some(18300)
    } else if contains_str(venue_address, "University of Washington") {
        Some(70138)
    } else {
        Some(0)
    }
}

/// An attendance figure as the map server writes it ("68,740") is read back
/// by the number reader as the same figure, for every non-negative `i32`.
pub proof fn lemma_grouped_attendance_reads_back(n: i32)
    requires
        n >= 0,
    ensures
        number_of_match(Some(grouped_decimal(n as int))) == n,
{
    lemma_grouped_number_reads_back(n);
}

/// A fragment occurs in any text that holds it between other text.
proof fn lemma_fragment_occurs(p: Seq<char>, frag: Seq<char>, q: Seq<char>)
    ensures
        contains_seq(p + frag + q, frag),
{
    assert((p + frag + q).subrange(p.len() as int, (p.len() + frag.len()) as int) =~= frag);
    assert(occurs_at(p + frag + q, frag, p.len() as int));
}

/// The venue table goes by which listed address fragment the venue's
/// address holds, whatever text stands before or after it (a city, a ZIP
/// code); the first listed fragment found decides, and an address with none
/// of them gets 0.
pub proof fn lemma_attendance_by_fragment(p: Seq<char>, q: Seq<char>, address: Seq<char>)
    ensures
        predefined_attendance(p + "800 Occidental Ave S"@ + q) == 68740,
        !contains_seq(p + "1250 1st Ave S"@ + q, "800 Occidental Ave S"@)
            ==> predefined_attendance(p + "1250 1st Ave S"@ + q) == 47929,
        !contains_seq(p + "334 1st Ave N"@ + q, "800 Occidental Ave S"@)
            && !contains_seq(p + "334 1st Ave N"@ + q, "1250 1st Ave S"@)
            ==> predefined_attendance(p + "334 1st Ave N"@ + q) == 18300,
        !contains_seq(p + "University of Washington"@ + q, "800 Occidental Ave S"@)
            && !contains_seq(p + "University of Washington"@ + q, "1250 1st Ave S"@)
            && !contains_seq(p + "University of Washington"@ + q, "334 1st Ave N"@)
            ==> predefined_attendance(p + "University of Washington"@ + q) == 70138,
        !contains_seq(address, "800 Occidental Ave S"@)
            && !contains_seq(address, "1250 1st Ave S"@)
            && !contains_seq(address, "334 1st Ave N"@)
            && !contains_seq(address, "University of Washington"@)
            ==> predefined_attendance(address) == 0,
{
    lemma_fragment_occurs(p, "800 Occidental Ave S"@, q);
    lemma_fragment_occurs(p, "1250 1st Ave S"@, q);
    lemma_fragment_occurs(p, "334 1st Ave N"@, q);
    lemma_fragment_occurs(p, "University of Washington"@, q);
}

/// Replacing a pattern whose first character does not occur in `s` leaves `s` as it is.
proof fn lemma_replaced_absent(s: Seq<char>, from: Seq<char>, to: Seq<char>)
    requires
        from.len() > 0,
        !s.contains(from[0]),
    ensures
        replaced(s, from, to) == s,
    decreases s.len(),
{
    if s.len() > 0 {
        assert(s[0] != from[0]);
        assert(!occurs_at(s, from, 0)) by {
            if occurs_at(s, from, 0) {
                assert(s.subrange(0, from.len() as int)[0] == s[0]);
            }
        }
        let rest = s.skip(1);
        assert(!rest.contains(from[0])) by {
            if rest.contains(from[0]) {
                let k = choose|k: int| 0 <= k < rest.len() && rest[k] == from[0];
                assert(s[k + 1] == from[0]);
            }
        }
        lemma_replaced_absent(rest, from, to);
        assert(seq![s[0]] + rest =~= s);
    }
}

/// A field text with no backslash and no `&` has no escapes to write out,
/// and its link is the first capture group of `href="([^"]+)"` taken of
/// the text as it stands: the target is everything between the quotes,
/// with no character but the quote kept out of the group.
pub proof fn lemma_link_read_from_plain_field(value: Seq<char>)
    requires
        !value.contains('\\'),
        !value.contains('&'),
    ensures
        unescaped_field(value) == value,
        extracted_url(value) == spec_regex_capture("href=\"([^\"]+)\""@, value, 1),
{
    reveal_strlit("\\u003C");
    reveal_strlit("\\u003E");
    reveal_strlit("&#8230;");
    reveal_strlit("href=\"([^\"]+)\"");
    lemma_replaced_absent(value, ESCAPED_LT@, "<"@);
    lemma_replaced_absent(value, ESCAPED_GT@, ">"@);
    lemma_replaced_absent(value, ELLIPSIS_ENTITY@, "\u{2026}"@);
}

/// The number in a text is read from the first match of
/// `\d{1,3}(?:,\d{3})*`: one to three digits, then any number of groups of
/// a comma and three digits.
pub proof fn lemma_number_read_by_pattern(s: Seq<char>)
    ensures
        extracted_number(s) == number_of_match(spec_regex_find("\\d{1,3}(?:,\\d{3})*"@, s)),
{
}

} // verus!
