use chrono::Datelike;
use eventmap::datetime::{
    datetime_str_to_utc, one_week_dates,
    one_week_timestamps_iso8601, parse_date, try_datetime_str_to_utc, CivilDate, DateParseError,
    UtcTimestamp,
};

fn ts(secs: i64) -> UtcTimestamp {
    UtcTimestamp { secs, nanos: 0 }
}

#[test]
fn pacific_summer_time_is_seven_hours_behind() {
    assert_eq!(datetime_str_to_utc("2024-07-04T12:00:00"), ts(1720119600));
}

#[test]
fn pacific_winter_time_is_eight_hours_behind() {
    assert_eq!(try_datetime_str_to_utc("2024-01-15T10:30:00"), Some(ts(1705343400)));
}

#[test]
fn unreadable_or_ambiguous_local_times_give_none() {
    assert_eq!(try_datetime_str_to_utc("July 4th"), None);
    assert_eq!(try_datetime_str_to_utc("2024-02-30T10:00:00"), None);
    // Skipped by the spring change and repeated by the autumn change.
    assert_eq!(try_datetime_str_to_utc("2024-03-10T02:30:00"), None);
    assert_eq!(try_datetime_str_to_utc("2024-11-03T01:30:00"), None);
}

#[test]
fn parse_date_cases() {
    assert_eq!(parse_date(&None), Ok(None));
    assert_eq!(parse_date(&Some("2024-07-04T19:00:00Z".to_string())), Ok(Some(ts(1720119600))));
    assert_eq!(parse_date(&Some("2024-07-04T12:00:00-07:00".to_string())), Ok(Some(ts(1720119600))));
    let chrono_error = "not a date".parse::<chrono::DateTime<chrono::Utc>>().unwrap_err();
    assert_eq!(parse_date(&Some("not a date".to_string())), Err(DateParseError(chrono_error)));
    let e = parse_date(&Some("2024-07-04T19:00:00Z trailing".to_string())).unwrap_err();
    assert_eq!(e.0.to_string(), "trailing input");
}

#[test]
fn one_week_dates_crosses_month_end() {
    let today = CivilDate { year: 2024, month: 2, day: 26 };
    assert_eq!(one_week_dates(today), Some(("20240226".to_string(), "20240304".to_string())));
}

#[test]
fn one_week_dates_of_invalid_date() {
    assert_eq!(one_week_dates(CivilDate { year: 2023, month: 2, day: 29 }), None);
}

#[test]
fn one_week_iso8601_window() {
    assert_eq!(
        one_week_timestamps_iso8601(ts(1720119600)),
        Some(("2024-07-04T19:00:00Z".to_string(), "2024-07-11T19:00:00Z".to_string()))
    );
    assert_eq!(one_week_timestamps_iso8601(ts(i64::MAX)), None);
}

#[test]
fn current_windows_have_the_expected_shape() {
    let today = chrono::Local::now().date_naive();
    let today = CivilDate { year: today.year(), month: today.month(), day: today.day() };
    let (a, b) = one_week_dates(today).expect("today has a date a week later");
    assert_eq!(a.len(), 8);
    assert_eq!(b.len(), 8);
    assert!(a < b);
    let now = chrono::Utc::now();
    let now = UtcTimestamp { secs: now.timestamp(), nanos: now.timestamp_subsec_nanos() };
    let (c, d) = one_week_timestamps_iso8601(now).expect("now has an instant a week later");
    assert_eq!(c.len(), 20);
    assert!(c.ends_with('Z') && d.ends_with('Z'));
    assert!(c < d);
}
