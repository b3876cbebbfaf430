use eventmap::datetime::{DateParseError, UtcTimestamp};

fn chrono_error(s: &str) -> DateParseError {
    DateParseError(s.parse::<chrono::DateTime<chrono::Utc>>().unwrap_err())
}
use eventmap::etl::{
    next_page, PageStep, provider_a_events_url, provider_b_events_url, venue_address_of, ProviderAIngestEvent,
    ProviderBIngestEvent, ETL,
};
use eventmap::event_fetcher::EventFetcher;
use eventmap::models::{
    Address, ApiResponse, CustomField, DateTimeInfo, Dates, Embedded, EventEmbedded, EventTemplate,
    GpsLocation, Page, ProviderBEvent, RawEvent, Venue,
};

fn field(label: &str, value: &str) -> CustomField {
    CustomField { label: label.to_string(), value: value.to_string() }
}

fn raw(name: &str, start: &str, fields: Vec<CustomField>) -> RawEvent {
    RawEvent {
        event_name: name.to_string(),
        venue_address: "Pike Place &amp; 1st Ave".to_string(),
        start_time: start.to_string(),
        end_time: "2024-07-04T18:00:00".to_string(),
        custom_fields: fields,
    }
}

#[test]
fn provider_a_transform_normalises_each_event() {
    let events = vec![
        raw(
            "Fun &amp; Games",
            "2024-07-04T12:00:00",
            vec![
                field("Participants", "1,500 expected"),
                field("Website", "\\u003Ca href=\"https://site.invalid/\"\\u003Esite\\u003C/a\\u003E"),
            ],
        ),
        raw("Quiet Evening", "2024-07-04T17:00:00", vec![]),
    ];
    let out = ProviderAIngestEvent.transform(events).unwrap();
    assert_eq!(out.len(), 2);
    assert_eq!(out[0].event_name, "Fun & Games");
    assert_eq!(out[0].venue_address, "Pike Place & 1st Ave");
    assert_eq!(out[0].start_time, UtcTimestamp { secs: 1720119600, nanos: 0 });
    assert_eq!(out[0].end_time, UtcTimestamp { secs: 1720141200, nanos: 0 });
    assert_eq!(out[0].attendance, 1500);
    assert_eq!(out[0].website, Some("https://site.invalid/".to_string()));
    assert_eq!(out[1].event_name, "Quiet Evening");
    assert_eq!(out[1].attendance, 0);
    assert_eq!(out[1].website, Some(String::new()));
}

#[test]
fn provider_a_uses_the_first_matching_field() {
    let events = vec![raw(
        "E",
        "2024-07-04T12:00:00",
        vec![field("Participants", "TBD"), field("Participants", "40"), field("Website", "none")],
    )];
    let out = ProviderAIngestEvent.transform(events).unwrap();
    assert_eq!(out[0].attendance, i32::MAX);
    assert_eq!(out[0].website, Some(String::new()));
}

#[test]
fn provider_a_try_transform_refuses_unreadable_times() {
    let bad = vec![raw("E", "tomorrow", vec![])];
    assert_eq!(ProviderAIngestEvent.try_transform(bad), None);
    let good = vec![raw("E", "2024-07-04T12:00:00", vec![])];
    assert_eq!(ProviderAIngestEvent.try_transform(good).map(|v| v.len()), Some(1));
}

#[test]
fn plain_names_pass_through_unchanged() {
    let out = ProviderAIngestEvent.try_transform(vec![raw("Jazz at 8 <live>", "2024-07-04T12:00:00", vec![])]).unwrap();
    assert_eq!(out[0].event_name, "Jazz at 8 <live>");
}

fn b_event(name: &str, start: Option<&str>, venue: Option<Venue>, url: Option<&str>) -> ProviderBEvent {
    ProviderBEvent {
        name: name.to_string(),
        embedded: venue.map(|v| EventEmbedded { venues: vec![v] }),
        dates: Dates {
            start: Some(DateTimeInfo { date_time: start.map(|s| s.to_string()) }),
            end: None,
        },
        url: url.map(|s| s.to_string()),
    }
}

fn stadium() -> Venue {
    Venue {
        address: Some(Address { line1: "800 Occidental Ave S".to_string() }),
        location: Some(GpsLocation { latitude: "47.5952".to_string(), longitude: "-122.3316".to_string() }),
    }
}

#[test]
fn provider_b_transform_reads_venue_and_times() {
    let ev = b_event("Match", Some("2024-07-04T19:00:00Z"), Some(stadium()), Some("https://t.invalid/e"));
    let t = ProviderBIngestEvent.transform(ev).unwrap();
    assert_eq!(
        t,
        EventTemplate {
            event_name: "Match".to_string(),
            venue_address: "800 Occidental Ave S".to_string(),
            start_time: Some(UtcTimestamp { secs: 1720119600, nanos: 0 }),
            end_time: None,
            attendance: Some(68740),
            location: Some(GpsLocation { latitude: "47.5952".to_string(), longitude: "-122.3316".to_string() }),
            event_url: Some("https://t.invalid/e".to_string()),
        }
    );
}

#[test]
fn provider_b_without_venue_or_url() {
    let ev = b_event("Online talk", None, None, None);
    let t = ProviderBIngestEvent.transform(ev).unwrap();
    assert_eq!(t.venue_address, "Unknown Venue");
    assert_eq!(t.start_time, None);
    assert_eq!(t.attendance, Some(0));
    assert_eq!(t.location, None);
    assert_eq!(t.event_url, Some(String::new()));
    let no_address = b_event("x", None, Some(Venue { address: None, location: None }), None);
    assert_eq!(venue_address_of(&no_address), "Unknown Venue");
}

#[test]
fn provider_b_unreadable_time_is_an_error() {
    let ev = b_event("Match", Some("soon"), None, None);
    assert_eq!(ProviderBIngestEvent.transform(ev), Err(chrono_error("soon")));
}

#[test]
fn fetcher_reads_events_without_attendance() {
    let ev = b_event("Match", Some("2024-07-04T19:00:00Z"), Some(stadium()), None);
    let t = EventFetcher::extract_event_info(&ev).unwrap();
    assert_eq!(t.attendance, Some(0));
    assert_eq!(t.venue_address, "800 Occidental Ave S");
    let page = vec![ev, b_event("Bad", Some("??"), None, None)];
    assert_eq!(EventFetcher::extract_page(&page), Err(chrono_error("??")));
    assert_eq!(EventFetcher::try_extract_page(&page), Err(chrono_error("??")));
    assert_eq!(EventFetcher::parse_date(&None), Ok(None));
}

#[test]
fn absorb_page_collects_and_walks_every_page_once() {
    let mut collected = Vec::new();
    let mut visited = Vec::new();
    let mut page_num = 0;
    loop {
        visited.push(page_num);
        let page = ApiResponse {
            embedded: Embedded { events: vec![b_event("E", None, None, None)] },
            page: Page { total_pages: 3 },
        };
        match ProviderBIngestEvent.absorb_page(&mut collected, page_num, &page).unwrap() {
            Some(next) => page_num = next,
            None => break,
        }
    }
    assert_eq!(visited, vec![0, 1, 2]);
    assert_eq!(collected.len(), 3);
}

#[test]
fn absorb_page_keeps_collected_on_error() {
    let mut collected = vec![];
    let page = ApiResponse {
        embedded: Embedded { events: vec![b_event("E", None, None, None), b_event("Bad", Some("x"), None, None)] },
        page: Page { total_pages: 1 },
    };
    assert_eq!(ProviderBIngestEvent.absorb_page(&mut collected, 0, &page), Err(chrono_error("x")));
    assert!(collected.is_empty());
}

#[test]
fn next_page_stops_at_the_last_page() {
    assert_eq!(next_page(0, 1), None);
    assert_eq!(next_page(0, 2), Some(1));
    assert_eq!(next_page(1, 2), None);
    assert_eq!(next_page(5, 2), None);
}

#[test]
fn query_addresses() {
    assert_eq!(
        provider_a_events_url("20240704", "20240711"),
        "https://redacted.invalid/api/events?startdate=20240704&enddate=20240711"
    );
    assert_eq!(
        provider_b_events_url("KEY", "2024-07-04T19:00:00Z", "2024-07-11T19:00:00Z", 12),
        "https://redacted.invalid/api/events?apikey=KEY&scope=[REDACTED]&startDateTime=2024-07-04T19:00:00Z&endDateTime=2024-07-11T19:00:00Z&page=12"
    );
}

fn no_start(name: &str) -> ProviderBEvent {
    ProviderBEvent {
        name: name.to_string(),
        embedded: None,
        dates: Dates { start: None, end: None },
        url: None,
    }
}

fn page_of(events: Vec<ProviderBEvent>, total_pages: u32) -> ApiResponse {
    ApiResponse { embedded: Embedded { events }, page: Page { total_pages } }
}

#[test]
fn try_absorb_page_stops_at_a_start_less_event_reached_first() {
    let mut collected = Vec::new();
    let page = page_of(vec![b_event("E", None, None, None), no_start("N"), b_event("Bad", Some("x"), None, None)], 2);
    assert_eq!(ProviderBIngestEvent.try_absorb_page(&mut collected, 0, &page), Ok(PageStep::StartMissing));
    assert!(collected.is_empty());
}

#[test]
fn try_absorb_page_reports_an_unreadable_date_reached_first() {
    let mut collected = Vec::new();
    let page = page_of(vec![b_event("Bad", Some("x"), None, None), no_start("N")], 2);
    assert_eq!(ProviderBIngestEvent.try_absorb_page(&mut collected, 0, &page), Err(chrono_error("x")));
    // An unreadable date also comes before the page count is looked at.
    let zero = page_of(vec![b_event("Bad", Some("x"), None, None)], 0);
    assert_eq!(ProviderBIngestEvent.try_absorb_page(&mut collected, 0, &zero), Err(chrono_error("x")));
    assert!(collected.is_empty());
}

#[test]
fn try_absorb_page_with_no_pages() {
    let mut collected = Vec::new();
    let page = page_of(vec![b_event("E", None, None, None)], 0);
    assert_eq!(ProviderBIngestEvent.try_absorb_page(&mut collected, 0, &page), Ok(PageStep::NoPages));
    assert!(collected.is_empty());
}

#[test]
fn try_absorb_page_steps_through_pages() {
    let mut collected = Vec::new();
    let first = page_of(vec![b_event("A", None, None, None), b_event("B", None, None, None)], 2);
    assert_eq!(ProviderBIngestEvent.try_absorb_page(&mut collected, 0, &first), Ok(PageStep::Next(1)));
    let second = page_of(vec![b_event("C", None, None, None)], 2);
    assert_eq!(ProviderBIngestEvent.try_absorb_page(&mut collected, 1, &second), Ok(PageStep::Last));
    let names: Vec<&str> = collected.iter().map(|t| t.event_name.as_str()).collect();
    assert_eq!(names, vec!["A", "B", "C"]);
}

#[test]
fn try_extract_page_cases() {
    assert_eq!(EventFetcher::try_extract_page(&vec![no_start("N")]), Ok(None));
    let read = EventFetcher::try_extract_page(&vec![b_event("E", None, Some(stadium()), None)]).unwrap().unwrap();
    assert_eq!(read[0].attendance, Some(0));
}

#[test]
fn fetcher_try_absorb_page_cases() {
    let mut collected = Vec::new();
    let zero = page_of(vec![b_event("E", None, Some(stadium()), None)], 0);
    assert_eq!(EventFetcher::try_absorb_page(&mut collected, 0, &zero), Ok(PageStep::NoPages));
    let missing = page_of(vec![no_start("N")], 3);
    assert_eq!(EventFetcher::try_absorb_page(&mut collected, 0, &missing), Ok(PageStep::StartMissing));
    assert!(collected.is_empty());
    let page = page_of(vec![b_event("E", None, Some(stadium()), None)], 3);
    assert_eq!(EventFetcher::try_absorb_page(&mut collected, 1, &page), Ok(PageStep::Next(2)));
    assert_eq!(EventFetcher::try_absorb_page(&mut collected, 2, &page), Ok(PageStep::Last));
    assert_eq!(collected.len(), 2);
    assert_eq!(collected[0].attendance, Some(0));
    let mut more = Vec::new();
    assert_eq!(EventFetcher::absorb_page(&mut more, 0, &page), Ok(Some(1)));
    assert_eq!(more.len(), 1);
}
