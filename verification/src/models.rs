use crate::datetime::UtcTimestamp;
use vstd::prelude::*;

verus! {

/// An event from provider A, normalised and ready to be geocoded and stored.
#[derive(Debug, PartialEq)]
pub struct Event {
    pub event_name: String,
    pub venue_address: String,
    pub start_time: UtcTimestamp,
    pub end_time: UtcTimestamp,
    pub attendance: i32,
    pub website: Option<String>,
}

/// A labelled free-text field attached to a provider A event.
#[derive(Debug, PartialEq)]
pub struct CustomField {
    pub label: String,
    pub value: String,
}

/// An event as provider A's feed gives it.
#[derive(Debug, PartialEq)]
pub struct RawEvent {
    pub event_name: String,
    pub venue_address: String,
    pub start_time: String,
    pub end_time: String,
    pub custom_fields: Vec<CustomField>,
}

/// One page of provider B's event search.
#[derive(Debug, PartialEq)]
pub struct ApiResponse {
    pub embedded: Embedded,
    pub page: Page,
}

/// The events on a page of provider B's search.
#[derive(Debug, PartialEq)]
pub struct Embedded {
    pub events: Vec<ProviderBEvent>,
}

/// An event as provider B's feed gives it.
#[derive(Debug, PartialEq)]
pub struct ProviderBEvent {
    pub name: String,
    pub embedded: Option<EventEmbedded>,
    pub dates: Dates,
    pub url: Option<String>,
}

/// The venues attached to a provider B event.
#[derive(Debug, PartialEq)]
pub struct EventEmbedded {
    pub venues: Vec<Venue>,
}

/// A venue of a provider B event.
#[derive(Debug, PartialEq)]
pub struct Venue {
    pub address: Option<Address>,
    pub location: Option<GpsLocation>,
}

/// The street address of a venue.
#[derive(Debug, PartialEq)]
pub struct Address {
    pub line1: String,
}

/// A venue's coordinates, as the decimal texts the feed gives.
#[derive(Debug, PartialEq)]
pub struct GpsLocation {
    pub latitude: String,
    pub longitude: String,
}

/// The start and end of a provider B event.
#[derive(Debug, PartialEq)]
pub struct Dates {
    pub start: Option<DateTimeInfo>,
    pub end: Option<DateTimeInfo>,
}

/// A point in time as provider B gives it: RFC 3339 text, when known.
#[derive(Debug, PartialEq)]
pub struct DateTimeInfo {
    pub date_time: Option<String>,
}

/// Paging information of provider B's search.
#[derive(Debug, PartialEq)]
pub struct Page {
    pub total_pages: u32,
}

/// A provider B event, normalised and ready to be stored. The venue's
/// coordinates are kept as the feed's texts; reading them as numbers
/// (missing or unreadable ones as 0.0) happens where they are stored.
#[derive(Debug, PartialEq)]
pub struct EventTemplate {
    pub event_name: String,
    pub venue_address: String,
    pub start_time: Option<UtcTimestamp>,
    pub end_time: Option<UtcTimestamp>,
    pub attendance: Option<i32>,
    pub location: Option<GpsLocation>,
    pub event_url: Option<String>,
}

/// One message of a request to the geocoding model.
#[derive(Debug, PartialEq)]
pub struct Message {
    pub role: String,
    pub content: String,
}

/// The geocoding model's answer.
#[derive(Debug, PartialEq)]
pub struct ResponseBody {
    pub output: Vec<OutputBlock>,
}

/// One block of the geocoding model's answer.
#[derive(Debug, PartialEq)]
pub struct OutputBlock {
    pub content: Option<Vec<OutputContent>>,
}

/// A piece of content in an answer block.
#[derive(Debug, PartialEq)]
pub enum OutputContent {
    OutputText { text: String },
}

} // verus!
