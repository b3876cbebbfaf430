use chrono::{Datelike, Days, NaiveDate, NaiveDateTime, TimeZone, Timelike, Utc};
use std::fmt::Write;
use vstd::prelude::*;

verus! {

/// An instant: whole seconds since the Unix epoch (UTC) and the nanoseconds
/// past that second.
#[derive(Clone, Copy, Debug, PartialEq, Eq, Structural)]
pub struct UtcTimestamp {
    pub secs: i64,
    pub nanos: u32,
}

/// A calendar date (proleptic Gregorian).
#[derive(Clone, Copy, Debug, PartialEq, Eq, Structural)]
pub struct CivilDate {
    pub year: i32,
    pub month: u32,
    pub day: u32,
}

/// A wall-clock date and time with no time zone attached.
#[derive(Clone, Copy, Debug, PartialEq, Eq, Structural)]
pub struct CivilDateTime {
    pub year: i32,
    pub month: u32,
    pub day: u32,
    pub hour: u32,
    pub minute: u32,
    pub second: u32,
    pub nanosecond: u32,
}

/// The time zones the collector and the map server work in.
#[derive(Clone, Copy, Debug, PartialEq, Eq, Structural)]
pub enum Zone {
    Utc,
    UsPacific,
}

#[verifier::external_type_specification]
#[verifier::external_body]
pub struct ExChronoParseError(chrono::format::ParseError);

/// A date or time string that could not be read, with chrono's account of why.
#[derive(Clone, Copy, Debug, PartialEq, Eq)]
pub struct DateParseError(pub chrono::format::ParseError);

/// How provider A writes its local (Pacific) start and end times.
pub const LOCAL_DATETIME_FORMAT: &'static str = "%Y-%m-%dT%H:%M:%S";

/// The compact date form provider A takes in its query string.
pub const COMPACT_DATE_FORMAT: &'static str = "%Y%m%d";

/// The UTC form provider B takes in its query string.
pub const ISO8601_UTC_FORMAT: &'static str = "%Y-%m-%dT%H:%M:%SZ";

/// Seconds in the one-week window that the collector asks the providers for.
pub const ONE_WEEK_SECS: i64 = 604800;

/// What `chrono::NaiveDateTime::parse_from_str(s, fmt)` gives, as a civil date and time.
pub uninterp spec fn spec_parse_local_datetime(s: Seq<char>, fmt: Seq<char>) -> Option<CivilDateTime>;

/// What chrono gives for the wall-clock time `local` in `zone` when that
/// wall-clock time names exactly one instant (`from_local_datetime(..).single()`).
pub uninterp spec fn spec_local_to_utc(local: CivilDateTime, zone: Zone) -> Option<UtcTimestamp>;

/// What `s.parse::<chrono::DateTime<Utc>>()` gives when it succeeds.
pub uninterp spec fn spec_parse_utc(s: Seq<char>) -> Option<UtcTimestamp>;

/// What `chrono::NaiveDate::checked_add_days` gives.
pub uninterp spec fn spec_date_add_days(d: CivilDate, days: nat) -> Option<CivilDate>;

/// What chrono writes for the date `d` with the format string `fmt`.
pub uninterp spec fn spec_format_date(d: CivilDate, fmt: Seq<char>) -> Option<Seq<char>>;

/// What chrono writes for the instant `t`, seen in `zone`, with the format string `fmt`.
pub uninterp spec fn spec_format_timestamp(t: UtcTimestamp, zone: Zone, fmt: Seq<char>) -> Option<Seq<char>>;

/// `chrono::NaiveDateTime::parse_from_str`. Claims that the result is a
/// function of the text and the format alone, `None` when chrono reports an error.
#[verifier::external_body]
fn parse_local_datetime(s: &str, fmt: &str) -> (r: Option<CivilDateTime>)
    ensures
        r == spec_parse_local_datetime(s@, fmt@),
{
    match NaiveDateTime::parse_from_str(s, fmt) {
        Ok(n) => Some(CivilDateTime {
            year: n.year(), month: n.month(), day: n.day(), hour: n.hour(),
            minute: n.minute(), second: n.second(), nanosecond: n.nanosecond(),
        }),
        Err(_) => None,
    }
}

/// `chrono::TimeZone::from_local_datetime` followed by `single()` and a
/// conversion to UTC. Claims that the result is a function of the wall-clock
/// time and the zone alone: `None` when the civil fields name no valid
/// date and time, or when the wall-clock time is skipped or repeated in the zone.
#[verifier::external_body]
fn local_to_utc(local: CivilDateTime, zone: Zone) -> (r: Option<UtcTimestamp>)
    ensures
        r == spec_local_to_utc(local, zone),
{
    let naive = NaiveDate::from_ymd_opt(local.year, local.month, local.day)?
        .and_hms_nano_opt(local.hour, local.minute, local.second, local.nanosecond)?;
    let utc = match zone {
        Zone::Utc => Utc.from_local_datetime(&naive).single()?,
        Zone::UsPacific => chrono_tz::US::Pacific.from_local_datetime(&naive).single()?.with_timezone(&Utc),
    };
    Some(UtcTimestamp { secs: utc.timestamp(), nanos: utc.timestamp_subsec_nanos() })
}

/// `<chrono::DateTime<Utc> as FromStr>::from_str` (a relaxed RFC 3339 reader).
/// Claims that success and the instant read are a function of the text alone.
#[verifier::external_body]
fn parse_utc(s: &str) -> (r: Result<UtcTimestamp, chrono::format::ParseError>)
    ensures
        r is Ok <==> spec_parse_utc(s@) is Some,
        r matches Ok(t) ==> spec_parse_utc(s@) == Some(t),
{
    match s.parse::<chrono::DateTime<Utc>>() {
        Ok(d) => Ok(UtcTimestamp { secs: d.timestamp(), nanos: d.timestamp_subsec_nanos() }),
        Err(e) => Err(e),
    }
}

/// `chrono::NaiveDate::checked_add_days`. Claims that the result is a
/// function of the date and the day count alone (`None` for an invalid date or on overflow).
#[verifier::external_body]
fn date_add_days(d: CivilDate, days: u64) -> (r: Option<CivilDate>)
    ensures
        r == spec_date_add_days(d, days as nat),
{
    let later = NaiveDate::from_ymd_opt(d.year, d.month, d.day)?.checked_add_days(Days::new(days))?;
    Some(CivilDate { year: later.year(), month: later.month(), day: later.day() })
}

/// `chrono::NaiveDate::format` written out. Claims that the text is a
/// function of the date and the format alone (`None` for an invalid date or format).
#[verifier::external_body]
fn format_date(d: CivilDate, fmt: &str) -> (r: Option<String>)
    ensures
        r matches Some(s) ==> spec_format_date(d, fmt@) == Some(s@),
        r is None ==> spec_format_date(d, fmt@) is None,
{
    let date = NaiveDate::from_ymd_opt(d.year, d.month, d.day)?;
    let mut out = String::new();
    write!(out, "{}", date.format(fmt)).ok()?;
    Some(out)
}

/// `chrono::DateTime::format` written out, in UTC or converted to the
/// zone first (`with_timezone`). Claims that the text is a function of the
/// instant, the zone and the format alone (`None` for an instant chrono cannot hold
/// or an invalid format).
#[verifier::external_body]
pub(crate) fn format_timestamp(t: UtcTimestamp, zone: Zone, fmt: &str) -> (r: Option<String>)
    ensures
        r matches Some(s) ==> spec_format_timestamp(t, zone, fmt@) == Some(s@),
        r is None ==> spec_format_timestamp(t, zone, fmt@) is None,
{
    let d = chrono::DateTime::from_timestamp(t.secs, t.nanos)?;
    let mut out = String::new();
    let written = match zone {
        Zone::Utc => write!(out, "{}", d.format(fmt)),
        Zone::UsPacific => write!(out, "{}", d.with_timezone(&chrono_tz::US::Pacific).format(fmt)),
    };
    written.ok()?;
    Some(out)
}

/// The instant that provider A's local time text `s` names in US Pacific time.
pub open spec fn pacific_instant(s: Seq<char>) -> Option<UtcTimestamp> {
    match spec_parse_local_datetime(s, LOCAL_DATETIME_FORMAT@) {
        Some(local) => spec_local_to_utc(local, Zone::UsPacific),
        None => None,
    }
}

/// Reads `s` as a Pacific wall-clock time in provider A's layout and gives the
/// instant it names, or `None` when it does not parse or names no single instant.
pub fn try_datetime_str_to_utc(s: &str) -> (r: Option<UtcTimestamp>)
    ensures
        r == pacific_instant(s@),
{
    match parse_local_datetime(s, LOCAL_DATETIME_FORMAT) {
        Some(local) => local_to_utc(local, Zone::UsPacific),
        None => None,
    }
}

/// Reads `s` as a Pacific wall-clock time in provider A's layout and gives the
/// instant it names. Only for text that names exactly one instant.
pub fn datetime_str_to_utc(s: &str) -> (r: UtcTimestamp)
    requires
        pacific_instant(s@) is Some,
    ensures
        pacific_instant(s@) == Some(r),
{
    match try_datetime_str_to_utc(s) {
        Some(t) => t,
        None => {
            proof {
                assert(false);
            }
            UtcTimestamp { secs: 0, nanos: 0 }
        },
    }
}

/// What `parse_date` reads from an optional date text: `Some` of the
/// optional instant when it reads, `None` when the text is there and does not read.
pub open spec fn parsed_optional_date(date: Option<Seq<char>>) -> Option<Option<UtcTimestamp>> {
    match date {
        None => Some(None),
        Some(s) => match spec_parse_utc(s) {
            Some(t) => Some(Some(t)),
            None => None,
        },
    }
}

/// The view of an optional string.
pub open spec fn opt_view(s: Option<String>) -> Option<Seq<char>> {
    match s {
        Some(x) => Some(x@),
        None => None,
    }
}

/// Reads an optional RFC 3339 date text: no text gives no date, text that does
/// not read is an error carrying chrono's reason.
pub fn parse_date(date_opt: &Option<String>) -> (r: Result<Option<UtcTimestamp>, DateParseError>)
    ensures
        r is Err <==> parsed_optional_date(opt_view(*date_opt)) is None,
        r matches Ok(v) ==> parsed_optional_date(opt_view(*date_opt)) == Some(v),
{
    match date_opt {
        Some(date_str) => match parse_utc(date_str.as_str()) {
            Ok(t) => Ok(Some(t)),
            Err(e) => Err(DateParseError(e)),
        },
        None => Ok(None),
    }
}

/// The pair of texts for a date window starting on `today` and ending a week later,
/// both in the compact `YYYYMMDD` form.
pub open spec fn one_week_window(today: CivilDate) -> Option<(Seq<char>, Seq<char>)> {
    match spec_date_add_days(today, 7) {
        Some(later) => match (spec_format_date(today, COMPACT_DATE_FORMAT@), spec_format_date(later, COMPACT_DATE_FORMAT@)) {
            (Some(a), Some(b)) => Some((a, b)),
            _ => None,
        },
        None => None,
    }
}

/// The view of an optional pair of strings.
pub open spec fn opt_pair_view(p: Option<(String, String)>) -> Option<(Seq<char>, Seq<char>)> {
    match p {
        Some((a, b)) => Some((a@, b@)),
        None => None,
    }
}

/// The compact texts of `today` and of the day a week later; `None` when the
/// later date is past the calendar's end or the date cannot be written.
pub fn one_week_dates(today: CivilDate) -> (r: Option<(String, String)>)
    ensures
        opt_pair_view(r) == one_week_window(today),
{
    let later = match date_add_days(today, 7) {
        Some(d) => d,
        None => return None,
    };
    let a = match format_date(today, COMPACT_DATE_FORMAT) {
        Some(s) => s,
        None => return None,
    };
    match format_date(later, COMPACT_DATE_FORMAT) {
        Some(b) => Some((a, b)),
        None => None,
    }
}

/// The instant a week after `now`, when it fits in an `i64` second count.
pub open spec fn week_later(now: UtcTimestamp) -> Option<UtcTimestamp> {
    if now.secs + ONE_WEEK_SECS <= i64::MAX {
        Some(UtcTimestamp { secs: (now.secs + ONE_WEEK_SECS) as i64, nanos: now.nanos })
    } else {
        None
    }
}

/// The pair of UTC texts for the window from `now` to a week later.
pub open spec fn one_week_window_iso8601(now: UtcTimestamp) -> Option<(Seq<char>, Seq<char>)> {
    match week_later(now) {
        Some(later) => match (
            spec_format_timestamp(now, Zone::Utc, ISO8601_UTC_FORMAT@),
            spec_format_timestamp(later, Zone::Utc, ISO8601_UTC_FORMAT@),
        ) {
            (Some(a), Some(b)) => Some((a, b)),
            _ => None,
        },
        None => None,
    }
}

/// The UTC texts of `now` and of the instant a week later; `None` when the
/// later instant cannot be held or written.
pub fn one_week_timestamps_iso8601(now: UtcTimestamp) -> (r: Option<(String, String)>)
    ensures
        opt_pair_view(r) == one_week_window_iso8601(now),
{
    if now.secs > i64::MAX - ONE_WEEK_SECS {
        return None;
    }
    let later = UtcTimestamp { secs: now.secs + ONE_WEEK_SECS, nanos: now.nanos };
    let a = match format_timestamp(now, Zone::Utc, ISO8601_UTC_FORMAT) {
        Some(s) => s,
        None => return None,
    };
    match format_timestamp(later, Zone::Utc, ISO8601_UTC_FORMAT) {
        Some(b) => Some((a, b)),
        None => None,
    }
}

/// Provider A's times are read in the layout "%Y-%m-%dT%H:%M:%S" as US
/// Pacific wall-clock times; the query window runs from a day to the day
/// seven days later, both written "%Y%m%d"; the UTC window runs from an
/// instant to the instant 7 * 24 * 3600 seconds later, both written
/// "%Y-%m-%dT%H:%M:%SZ".
pub proof fn lemma_windows_and_layouts(s: Seq<char>, today: CivilDate, now: UtcTimestamp)
    ensures
        pacific_instant(s) == match spec_parse_local_datetime(s, "%Y-%m-%dT%H:%M:%S"@) {
            Some(local) => spec_local_to_utc(local, Zone::UsPacific),
            None => None,
        },
        one_week_window(today) == match spec_date_add_days(today, 7) {
            Some(later) => match (spec_format_date(today, "%Y%m%d"@), spec_format_date(later, "%Y%m%d"@)) {
                (Some(a), Some(b)) => Some((a, b)),
                _ => None,
            },
            None => None,
        },
        now.secs + 7 * 24 * 3600 <= i64::MAX ==> week_later(now) == Some(
            UtcTimestamp { secs: (now.secs + 7 * 24 * 3600) as i64, nanos: now.nanos },
        ),
        now.secs + 7 * 24 * 3600 > i64::MAX ==> week_later(now) is None,
        week_later(now) matches Some(later) ==> one_week_window_iso8601(now) == match (
            spec_format_timestamp(now, Zone::Utc, "%Y-%m-%dT%H:%M:%SZ"@),
            spec_format_timestamp(later, Zone::Utc, "%Y-%m-%dT%H:%M:%SZ"@),
        ) {
            (Some(a), Some(b)) => Some((a, b)),
            _ => None,
        },
{
}

} // verus!
