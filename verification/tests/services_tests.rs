use eventmap::collector::count_successes;
use eventmap::database::DataSource;
use eventmap::datetime::UtcTimestamp;
use eventmap::display::{attendance_label, describe_event, event_time_label, format_thousands, EventRow};
use eventmap::geocoding::{CoordinateError, GeocodingService, SYSTEM_INSTRUCTION};
use eventmap::models::{OutputBlock, OutputContent, ResponseBody};

#[test]
fn data_source_names() {
    assert_eq!(DataSource::ProviderB.as_str(), "provider_b");
    assert_eq!(DataSource::ProviderA.as_str(), "provider_a");
    assert_ne!(DataSource::ProviderA.as_str(), DataSource::ProviderB.as_str());
}

#[test]
fn request_messages_are_instruction_then_event() {
    let m = GeocodingService::request_messages("Concert at Lumen Field");
    assert_eq!(m.len(), 2);
    assert_eq!(m[0].role, "system");
    assert_eq!(m[0].content, SYSTEM_INSTRUCTION);
    assert_eq!(m[1].role, "user");
    assert_eq!(m[1].content, "Concert at Lumen Field");
}

fn text(s: &str) -> OutputContent {
    OutputContent::OutputText { text: s.to_string() }
}

#[test]
fn first_output_text_skips_empty_blocks() {
    let body = ResponseBody {
        output: vec![
            OutputBlock { content: None },
            OutputBlock { content: Some(vec![]) },
            OutputBlock { content: Some(vec![text("47.6, -122.3"), text("other")]) },
            OutputBlock { content: Some(vec![text("later")]) },
        ],
    };
    assert_eq!(GeocodingService::first_output_text(&body), "47.6, -122.3");
    assert_eq!(GeocodingService::first_output_text(&ResponseBody { output: vec![] }), "");
}

#[test]
fn split_coordinates_cases() {
    assert_eq!(
        GeocodingService::split_coordinates(" 47.6 ,\t-122.3 "),
        Ok(("47.6".to_string(), "-122.3".to_string()))
    );
    assert_eq!(GeocodingService::split_coordinates("47.6"), Err(CoordinateError::WrongValueCount));
    assert_eq!(GeocodingService::split_coordinates("1,2,3"), Err(CoordinateError::WrongValueCount));
    assert_eq!(GeocodingService::split_coordinates(""), Err(CoordinateError::WrongValueCount));
    assert_eq!(GeocodingService::split_coordinates(","), Ok((String::new(), String::new())));
}

#[test]
fn joined_coordinates_split_back() {
    for (lat, lon) in [("47.6", "-122.3"), (" 0", "0 "), ("abc", "")] {
        let joined = format!("{},{}", lat, lon);
        assert_eq!(
            GeocodingService::split_coordinates(&joined),
            Ok((lat.trim().to_string(), lon.trim().to_string()))
        );
    }
}

#[test]
fn coordinate_error_messages() {
    assert_eq!(CoordinateError::WrongValueCount.message(), "Expected two values separated by a comma");
    assert_eq!(CoordinateError::BadLatitude.message(), "Failed to parse latitude");
    assert_eq!(CoordinateError::BadLongitude.message(), "Failed to parse longitude");
}

#[test]
fn attendance_labels() {
    assert_eq!(attendance_label(0), "not specified");
    assert_eq!(attendance_label(68740), "68,740 (estimated)");
    assert_eq!(attendance_label(999), "999 (estimated)");
    assert_eq!(attendance_label(-1234567), "-1,234,567 (estimated)");
    assert_eq!(format_thousands(i32::MIN), "-2,147,483,648");
    assert_eq!(format_thousands(1000), "1,000");
}

#[test]
fn event_times_are_shown_in_pacific_time() {
    let t = UtcTimestamp { secs: 1720119600, nanos: 0 };
    assert_eq!(event_time_label(t), Some("2024-07-04 \u{b7} 12:00 PM".to_string()));
    assert_eq!(event_time_label(UtcTimestamp { secs: i64::MAX, nanos: 0 }), None);
}

#[test]
fn describe_event_row() {
    let row = EventRow {
        event_name: "Match".to_string(),
        start_time: Some(UtcTimestamp { secs: 1705343400, nanos: 0 }),
        end_time: None,
        attendance: 47929,
        website: "https://t.invalid".to_string(),
    };
    let l = describe_event(row);
    assert_eq!(l.start_time, Some("2024-01-15 \u{b7} 10:30 AM".to_string()));
    assert_eq!(l.end_time, None);
    assert_eq!(l.label, Some("Match".to_string()));
    assert_eq!(l.attendance, Some("47,929 (estimated)".to_string()));
    assert_eq!(l.website, Some("https://t.invalid".to_string()));
}

#[test]
fn count_successes_counts_ok_outcomes() {
    let results: Vec<Result<u64, String>> = vec![Ok(1), Err("x".to_string()), Ok(1)];
    assert_eq!(count_successes(&results), 2);
    let none: Vec<Result<u64, String>> = vec![];
    assert_eq!(count_successes(&none), 0);
}
