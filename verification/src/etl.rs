use crate::chars::{same_text, string_of};
use crate::datetime::{
    datetime_str_to_utc, opt_view, pacific_instant, parse_date, parsed_optional_date,
    spec_parse_utc, try_datetime_str_to_utc, DateParseError, UtcTimestamp,
};
use crate::models::{
    ApiResponse, CustomField, Event, EventTemplate, GpsLocation, ProviderBEvent, RawEvent, Venue,
};
use crate::numbers::{decimal_chars, decimal_digits};
use crate::text_processing::{
    decode_html_entities, extract_number, extract_url_from_field, extracted_number, extracted_url,
    get_predefined_attendance_provider_b, predefined_attendance, spec_decode_html_entities,
};
use vstd::prelude::*;

verus! {

/// A feed that is extracted from a provider and then transformed into the
/// collector's own event records. Extraction talks to the network and lives
/// with the program; the transformation is here.
pub trait ETL {
    /// What one transformation takes.
    type OriginalEvent;

    /// What one transformation gives.
    type ProcessedEvent;

    /// How a transformation fails.
    type TransformError;

    /// The inputs the transformation is defined for.
    spec fn accepts(&self, input: &Self::OriginalEvent) -> bool;

    /// Normalises provider data into the collector's records.
    fn transform(&self, input: Self::OriginalEvent) -> Result<Self::ProcessedEvent, Self::TransformError>
        requires
            self.accepts(&input),
    ;
}

/// The feed of provider A: a list of local-time events with labelled fields.
pub struct ProviderAIngestEvent;

/// The feed of provider B: paged events with RFC 3339 times and venues.
pub struct ProviderBIngestEvent;

/// The error type of provider A's transformation, which never fails.
#[derive(Debug, Clone, Copy, PartialEq, Eq, Structural)]
pub struct NoTransformError;

// ---------------------------------------------------------------- provider A

/// The value of the first field labelled `label`.
pub open spec fn first_field_value(fields: Seq<CustomField>, label: Seq<char>) -> Option<Seq<char>>
    decreases fields.len(),
{
    if fields.len() == 0 {
        None
    } else if fields[0].label@ == label {
        Some(fields[0].value@)
    } else {
        first_field_value(fields.skip(1), label)
    }
}

/// The text that provider A's attendance is read from: the first
/// "Participants" field, or "0" when there is none.
pub open spec fn participants_text(fields: Seq<CustomField>) -> Seq<char> {
    match first_field_value(fields, "Participants"@) {
        Some(v) => v,
        None => "0"@,
    }
}

/// The website of a provider A event: the link in its first "Website"
/// field, or the empty text when there is no such field or no link in it.
pub open spec fn website_text(fields: Seq<CustomField>) -> Seq<char> {
    match first_field_value(fields, "Website"@) {
        Some(v) => match extracted_url(v) {
            Some(u) => u,
            None => Seq::<char>::empty(),
        },
        None => Seq::<char>::empty(),
    }
}

/// Both times of a provider A event name exactly one Pacific instant.
pub open spec fn raw_times_readable(raw: RawEvent) -> bool {
    &&& pacific_instant(raw.start_time@) is Some
    &&& pacific_instant(raw.end_time@) is Some
}

/// `e` is what provider A's raw event `raw` normalises to.
pub open spec fn event_from_raw(e: Event, raw: RawEvent) -> bool {
    &&& e.event_name@ == spec_decode_html_entities(raw.event_name@)
    &&& e.venue_address@ == spec_decode_html_entities(raw.venue_address@)
    &&& pacific_instant(raw.start_time@) == Some(e.start_time)
    &&& pacific_instant(raw.end_time@) == Some(e.end_time)
    &&& e.attendance == extracted_number(participants_text(raw.custom_fields@))
    &&& opt_view(e.website) == Some(website_text(raw.custom_fields@))
}

/// The position of the first field labelled `label`.
fn find_field(fields: &Vec<CustomField>, label: &str) -> (r: Option<usize>)
    ensures
        match r {
            Some(i) => i < fields@.len() && first_field_value(fields@, label@) == Some(
                fields@[i as int].value@,
            ),
            None => first_field_value(fields@, label@) is None,
        },
{
    let mut i: usize = 0;
    assert(fields@.skip(0) =~= fields@);
    while i < fields.len()
        invariant
            i <= fields@.len(),
            first_field_value(fields@, label@) == first_field_value(fields@.skip(i as int), label@),
        decreases fields.len() - i,
    {
        let ghost rest = fields@.skip(i as int);
        assert(rest[0] == fields@[i as int]);
        if same_text(fields[i].label.as_str(), label) {
            return Some(i);
        }
        assert(rest.skip(1) =~= fields@.skip(i + 1));
        i = i + 1;
    }
    None
}

impl ProviderAIngestEvent {
    /// Normalises one provider A event.
    pub fn transform_event(&self, raw: &RawEvent) -> (e: Event)
        requires
            raw_times_readable(*raw),
        ensures
            event_from_raw(e, *raw),
            !raw.event_name@.contains('&') ==> e.event_name@ == raw.event_name@,
            !raw.venue_address@.contains('&') ==> e.venue_address@ == raw.venue_address@,
    {
        let attendance = match find_field(&raw.custom_fields, "Participants") {
            Some(i) => raw.custom_fields[i].value.clone(),
            None => "0".to_string(),
        };
        let website = match find_field(&raw.custom_fields, "Website") {
            Some(i) => match extract_url_from_field(raw.custom_fields[i].value.as_str()) {
                Some(u) => u,
                None => String::new(),
            },
            None => String::new(),
        };
        Event {
            event_name: decode_html_entities(raw.event_name.as_str()),
            venue_address: decode_html_entities(raw.venue_address.as_str()),
            start_time: datetime_str_to_utc(raw.start_time.as_str()),
            end_time: datetime_str_to_utc(raw.end_time.as_str()),
            attendance: extract_number(attendance.as_str()),
            website: Some(website),
        }
    }

    /// Normalises a provider A feed when every event's times can be read,
    /// and gives `None` otherwise.
    pub fn try_transform(&self, raw_events: Vec<RawEvent>) -> (r: Option<Vec<Event>>)
        ensures
            r is Some <==> forall|i: int|
                0 <= i < raw_events@.len() ==> raw_times_readable(#[trigger] raw_events@[i]),
            r matches Some(events) ==> events@.len() == raw_events@.len() && forall|i: int|
                0 <= i < raw_events@.len() ==> event_from_raw(#[trigger] events@[i], raw_events@[i]),
    {
        let mut i: usize = 0;
        while i < raw_events.len()
            invariant
                i <= raw_events@.len(),
                forall|j: int| 0 <= j < i ==> raw_times_readable(#[trigger] raw_events@[j]),
            decreases raw_events.len() - i,
        {
            let start = try_datetime_str_to_utc(raw_events[i].start_time.as_str());
            let end = try_datetime_str_to_utc(raw_events[i].end_time.as_str());
            if start.is_none() || end.is_none() {
                assert(!raw_times_readable(raw_events@[i as int]));
                return None;
            }
            i = i + 1;
        }
        match self.transform(raw_events) {
            Ok(events) => Some(events),
            Err(_) => None,
        }
    }
}

impl ETL for ProviderAIngestEvent {
    type OriginalEvent = Vec<RawEvent>;

    type ProcessedEvent = Vec<Event>;

    type TransformError = NoTransformError;

    open spec fn accepts(&self, input: &Vec<RawEvent>) -> bool {
        forall|i: int| 0 <= i < input@.len() ==> raw_times_readable(#[trigger] input@[i])
    }

    /// Normalises every event of a provider A feed, in order.
    fn transform(&self, raw_events: Vec<RawEvent>) -> (r: Result<Vec<Event>, NoTransformError>)
        ensures
            r is Ok,
            r matches Ok(events) ==> events@.len() == raw_events@.len() && forall|i: int|
                0 <= i < raw_events@.len() ==> event_from_raw(#[trigger] events@[i], raw_events@[i]),
    {
        let mut events: Vec<Event> = Vec::new();
        for i in 0..raw_events.len()
            invariant
                self.accepts(&raw_events),
                events@.len() == i,
                forall|j: int| 0 <= j < i ==> event_from_raw(#[trigger] events@[j], raw_events@[j]),
        {
            assert(raw_times_readable(raw_events@[i as int]));
            let e = self.transform_event(&raw_events[i]);
            events.push(e);
        }
        Ok(events)
    }
}

// ---------------------------------------------------------------- provider B

/// The start time text of a provider B event.
pub open spec fn start_text(ev: ProviderBEvent) -> Option<Seq<char>> {
    match ev.dates.start {
        Some(info) => opt_view(info.date_time),
        None => None,
    }
}

/// The end time text of a provider B event.
pub open spec fn end_text(ev: ProviderBEvent) -> Option<Seq<char>> {
    match ev.dates.end {
        Some(info) => opt_view(info.date_time),
        None => None,
    }
}

/// The first venue of a provider B event.
pub open spec fn first_venue(ev: ProviderBEvent) -> Option<Venue> {
    match ev.embedded {
        Some(e) => if e.venues@.len() > 0 {
            Some(e.venues@[0])
        } else {
            None
        },
        None => None,
    }
}

/// The venue text of a provider B event: the first line of its first
/// venue's address, or "Unknown Venue".
pub open spec fn venue_address_text(ev: ProviderBEvent) -> Seq<char> {
    match first_venue(ev) {
        Some(v) => match v.address {
            Some(a) => a.line1@,
            None => "Unknown Venue"@,
        },
        None => "Unknown Venue"@,
    }
}

/// The coordinates of a provider B event's first venue.
pub open spec fn venue_location(ev: ProviderBEvent) -> Option<GpsLocation> {
    match first_venue(ev) {
        Some(v) => v.location,
        None => None,
    }
}

/// The link of a provider B event, or the empty text.
pub open spec fn event_url_text(ev: ProviderBEvent) -> Seq<char> {
    match ev.url {
        Some(u) => u@,
        None => Seq::<char>::empty(),
    }
}

/// The start and end instants of a provider B event, or `None` when either
/// of its times is there and does not read.
pub open spec fn event_dates(ev: ProviderBEvent) -> Option<(Option<UtcTimestamp>, Option<UtcTimestamp>)> {
    match parsed_optional_date(start_text(ev)) {
        None => None,
        Some(s) => match parsed_optional_date(end_text(ev)) {
            None => None,
            Some(t) => Some((s, t)),
        },
    }
}

/// `t` is what provider B's event `ev` normalises to, with the given attendance.
pub open spec fn template_from(t: EventTemplate, ev: ProviderBEvent, attendance: Option<i32>) -> bool {
    &&& t.event_name@ == ev.name@
    &&& t.venue_address@ == venue_address_text(ev)
    &&& event_dates(ev) == Some((t.start_time, t.end_time))
    &&& t.attendance == attendance
    &&& t.location == venue_location(ev)
    &&& opt_view(t.event_url) == Some(event_url_text(ev))
}

/// The attendance provider B's transformation gives an event: the seating
/// of its venue.
pub open spec fn venue_attendance(ev: ProviderBEvent) -> Option<i32> {
    Some(predefined_attendance(venue_address_text(ev)))
}

/// The first venue of a provider B event.
fn first_venue_of(ev: &ProviderBEvent) -> (r: Option<&Venue>)
    ensures
        match r {
            Some(v) => first_venue(*ev) == Some(*v),
            None => first_venue(*ev) is None,
        },
{
    match &ev.embedded {
        Some(e) => if e.venues.len() > 0 {
            Some(&e.venues[0])
        } else {
            None
        },
        None => None,
    }
}

/// The venue text of a provider B event.
pub fn venue_address_of(ev: &ProviderBEvent) -> (r: String)
    ensures
        r@ == venue_address_text(*ev),
{
    match first_venue_of(ev) {
        Some(v) => match &v.address {
            Some(a) => a.line1.clone(),
            None => "Unknown Venue".to_string(),
        },
        None => "Unknown Venue".to_string(),
    }
}

/// The coordinates of a provider B event's first venue.
pub fn venue_location_of(ev: &ProviderBEvent) -> (r: Option<GpsLocation>)
    ensures
        r == venue_location(*ev),
{
    match first_venue_of(ev) {
        Some(v) => match &v.location {
            Some(loc) => Some(
                GpsLocation { latitude: loc.latitude.clone(), longitude: loc.longitude.clone() },
            ),
            None => None,
        },
        None => None,
    }
}

/// The link of a provider B event, or the empty text.
pub fn event_url_of(ev: &ProviderBEvent) -> (r: String)
    ensures
        r@ == event_url_text(*ev),
{
    match &ev.url {
        Some(u) => u.clone(),
        None => String::new(),
    }
}

/// Reads the start and end times of a provider B event that has a start
/// entry; the error is that of the first time that does not read.
pub fn event_dates_of(ev: &ProviderBEvent) -> (r: Result<
    (Option<UtcTimestamp>, Option<UtcTimestamp>),
    DateParseError,
>)
    requires
        ev.dates.start is Some,
    ensures
        r is Err <==> event_dates(*ev) is None,
        r matches Ok(d) ==> event_dates(*ev) == Some(d),
{
    let start = match &ev.dates.start {
        Some(info) => parse_date(&info.date_time),
        None => {
            proof {
                assert(false);
            }
            Ok(None)
        },
    };
    let start = match start {
        Ok(s) => s,
        Err(e) => return Err(e),
    };
    let end_text: Option<String> = match &ev.dates.end {
        Some(info) => match &info.date_time {
            Some(s) => Some(s.clone()),
            None => None,
        },
        None => None,
    };
    match parse_date(&end_text) {
        Ok(end) => Ok((start, end)),
        Err(e) => Err(e),
    }
}

/// Normalises a provider B event with the given attendance.
pub fn template_with_attendance(ev: &ProviderBEvent, attendance: Option<i32>) -> (r: Result<
    EventTemplate,
    DateParseError,
>)
    requires
        ev.dates.start is Some,
    ensures
        r is Ok <==> event_dates(*ev) is Some,
        r matches Ok(t) ==> template_from(t, *ev, attendance),
{
    let (start_time, end_time) = match event_dates_of(ev) {
        Ok(d) => d,
        Err(e) => return Err(e),
    };
    let venue_address = venue_address_of(ev);
    let location = venue_location_of(ev);
    let event_url = event_url_of(ev);
    Ok(
        EventTemplate {
            event_name: ev.name.clone(),
            venue_address,
            start_time,
            end_time,
            attendance,
            location,
            event_url: Some(event_url),
        },
    )
}

/// Reading a page's events in order reaches an event without a start entry
/// before any event whose times do not read. Reading stops there for good:
/// the event's start cannot be taken.
pub open spec fn start_missing_first(events: Seq<ProviderBEvent>) -> bool
    decreases events.len(),
{
    if events.len() == 0 {
        false
    } else if events[0].dates.start is None {
        true
    } else if event_dates(events[0]) is None {
        false
    } else {
        start_missing_first(events.skip(1))
    }
}

/// Every event on a page reads.
pub open spec fn page_readable(events: Seq<ProviderBEvent>) -> bool {
    forall|i: int| 0 <= i < events.len() ==> (#[trigger] event_dates(events[i])) is Some
}

/// The attendance a page reader gives an event: its venue's seating, or 0.
pub open spec fn page_attendance(ev: ProviderBEvent, venue_based: bool) -> Option<i32> {
    if venue_based {
        venue_attendance(ev)
    } else {
        Some(0i32)
    }
}

/// `ts` is the page `events` read in order, with the given kind of attendance.
pub open spec fn page_read_as(ts: Seq<EventTemplate>, events: Seq<ProviderBEvent>, venue_based: bool) -> bool {
    &&& ts.len() == events.len()
    &&& forall|i: int|
        0 <= i < events.len() ==> template_from(#[trigger] ts[i], events[i], page_attendance(events[i], venue_based))
}

/// `ts` is the page `events` normalised in order by provider B's transformation.
pub open spec fn page_from(ts: Seq<EventTemplate>, events: Seq<ProviderBEvent>) -> bool {
    page_read_as(ts, events, true)
}

/// Reads a page's events in order, each with its venue's seating as
/// attendance or with 0. Gives `Ok(None)` when an event without a start entry
/// is reached, the error of the first event that does not read when that
/// comes first, and otherwise every event read.
pub fn scan_events(events: &Vec<ProviderBEvent>, venue_based: bool) -> (r: Result<
    Option<Vec<EventTemplate>>,
    DateParseError,
>)
    ensures
        r matches Ok(None) <==> start_missing_first(events@),
        r is Err <==> !start_missing_first(events@) && !page_readable(events@),
        r matches Ok(Some(ts)) ==> page_read_as(ts@, events@, venue_based),
{
    let mut ts: Vec<EventTemplate> = Vec::new();
    let mut i: usize = 0;
    assert(events@.skip(0) =~= events@);
    while i < events.len()
        invariant
            i <= events@.len(),
            start_missing_first(events@) == start_missing_first(events@.skip(i as int)),
            ts@.len() == i,
            forall|j: int| 0 <= j < i ==> (#[trigger] event_dates(events@[j])) is Some,
            forall|j: int|
                0 <= j < i ==> template_from(
                    #[trigger] ts@[j],
                    events@[j],
                    page_attendance(events@[j], venue_based),
                ),
        decreases events.len() - i,
    {
        let ghost rest = events@.skip(i as int);
        assert(rest[0] == events@[i as int]);
        assert(rest.skip(1) =~= events@.skip(i + 1));
        if events[i].dates.start.is_none() {
            return Ok(None);
        }
        let read = if venue_based {
            let venue_address = venue_address_of(&events[i]);
            let attendance = get_predefined_attendance_provider_b(venue_address.as_str());
            template_with_attendance(&events[i], attendance)
        } else {
            template_with_attendance(&events[i], Some(0))
        };
        match read {
            Ok(t) => ts.push(t),
            Err(e) => {
                assert(!page_readable(events@)) by {
                    assert(event_dates(events@[i as int]) is None);
                }
                return Err(e);
            },
        }
        i = i + 1;
    }
    assert(events@.skip(i as int).len() == 0);
    Ok(Some(ts))
}

/// What `try_absorb_page` makes of a page of provider B's search.
#[derive(Debug, Clone, Copy, PartialEq, Eq, Structural)]
pub enum PageStep {
    /// The page was taken in; this page is to be fetched next.
    Next(u32),
    /// The page was taken in and was the last one.
    Last,
    /// An event without a start entry was reached; the search cannot go on.
    StartMissing,
    /// Every event read but the search reported no pages at all.
    NoPages,
}

/// The page after `page_num`, or `None` when `page_num` is the last of `total_pages`.
pub open spec fn next_page_number(page_num: u32, total_pages: u32) -> Option<u32> {
    if page_num >= total_pages - 1 {
        None
    } else {
        Some((page_num + 1) as u32)
    }
}

/// The page to fetch after `page_num`, or `None` when it was the last one.
pub fn next_page(page_num: u32, total_pages: u32) -> (r: Option<u32>)
    requires
        total_pages >= 1,
    ensures
        r == next_page_number(page_num, total_pages),
{
    if page_num >= total_pages - 1 {
        None
    } else {
        Some(page_num + 1)
    }
}

/// The query that asks provider A for the events between two compact dates.
pub open spec fn provider_a_query(today: Seq<char>, later: Seq<char>) -> Seq<char> {
    "https://redacted.invalid/api/events?startdate="@ + today + "&enddate="@ + later
}

/// The query that asks provider B for one page of the events between two UTC times.
pub open spec fn provider_b_query(api_key: Seq<char>, today: Seq<char>, later: Seq<char>, page_num: u32) -> Seq<char> {
    "https://redacted.invalid/api/events?apikey="@ + api_key + "&scope=[REDACTED]&startDateTime="@
        + today + "&endDateTime="@ + later + "&page="@ + decimal_digits(page_num as nat)
}

/// The address of provider A's event list for a date window.
pub fn provider_a_events_url(today: &str, later: &str) -> (r: String)
    ensures
        r@ == provider_a_query(today@, later@),
{
    let mut url = String::new();
    url.append("https://redacted.invalid/api/events?startdate=");
    url.append(today);
    url.append("&enddate=");
    url.append(later);
    assert(url@ =~= provider_a_query(today@, later@));
    url
}

/// The address of one page of provider B's event search for a time window.
pub fn provider_b_events_url(api_key: &str, today: &str, later: &str, page_num: u32) -> (r: String)
    ensures
        r@ == provider_b_query(api_key@, today@, later@, page_num),
{
    let page = string_of(decimal_chars(page_num).as_slice());
    let mut url = String::new();
    url.append("https://redacted.invalid/api/events?apikey=");
    url.append(api_key);
    url.append("&scope=[REDACTED]&startDateTime=");
    url.append(today);
    url.append("&endDateTime=");
    url.append(later);
    url.append("&page=");
    url.append(page.as_str());
    assert(url@ =~= provider_b_query(api_key@, today@, later@, page_num));
    url
}

impl ProviderBIngestEvent {
    /// Normalises one provider B event without taking it.
    pub fn transform_event(&self, ev: &ProviderBEvent) -> (r: Result<EventTemplate, DateParseError>)
        requires
            ev.dates.start is Some,
        ensures
            r is Ok <==> event_dates(*ev) is Some,
            r matches Ok(t) ==> template_from(t, *ev, venue_attendance(*ev)),
    {
        let venue_address = venue_address_of(ev);
        let attendance = get_predefined_attendance_provider_b(venue_address.as_str());
        template_with_attendance(ev, attendance)
    }

    /// Normalises every event of a page, in order; the first event that does
    /// not read makes the whole page fail. Only for pages where no event
    /// without a start entry is reached.
    pub fn transform_page(&self, events: &Vec<ProviderBEvent>) -> (r: Result<Vec<EventTemplate>, DateParseError>)
        requires
            !start_missing_first(events@),
        ensures
            r is Ok <==> page_readable(events@),
            r matches Ok(ts) ==> page_from(ts@, events@),
    {
        match scan_events(events, true) {
            Ok(Some(ts)) => Ok(ts),
            Ok(None) => {
                proof {
                    assert(false);
                }
                Ok(Vec::new())
            },
            Err(e) => Err(e),
        }
    }

    /// Takes in one page of provider B's search: its events are normalised
    /// and added to `collected`, and the page to fetch next is given, or `None`
    /// when this was the last. When an event does not read, nothing is added.
    /// Only for pages where no event without a start entry is reached, and
    /// that report at least one page when every event reads.
    pub fn absorb_page(
        &self,
        collected: &mut Vec<EventTemplate>,
        page_num: u32,
        page: &ApiResponse,
    ) -> (r: Result<Option<u32>, DateParseError>)
        requires
            !start_missing_first(page.embedded.events@),
            page_readable(page.embedded.events@) ==> page.page.total_pages >= 1,
        ensures
            page_taken_in(*old(collected), *final(collected), page_num, *page, true, r),
    {
        absorb_page_read_as(collected, page_num, page, true)
    }

    /// Takes in one page of provider B's search, for any page: a page where
    /// an event without a start entry is reached, or where every event reads
    /// but no pages are reported, is refused as such; in those cases and on an
    /// error, nothing is added.
    pub fn try_absorb_page(
        &self,
        collected: &mut Vec<EventTemplate>,
        page_num: u32,
        page: &ApiResponse,
    ) -> (r: Result<PageStep, DateParseError>)
        ensures
            page_step_taken(*old(collected), *final(collected), page_num, *page, true, r),
    {
        try_absorb_page_read_as(collected, page_num, page, true)
    }
}

/// `after` is `before` with the page `page` taken in as `r` reports,
/// its events read with the given kind of attendance.
pub open spec fn page_taken_in(
    before: Vec<EventTemplate>,
    after: Vec<EventTemplate>,
    page_num: u32,
    page: ApiResponse,
    venue_based: bool,
    r: Result<Option<u32>, DateParseError>,
) -> bool {
    &&& r is Ok <==> page_readable(page.embedded.events@)
    &&& r matches Ok(next) ==> next == next_page_number(page_num, page.page.total_pages)
        && appended_page(before@, after@, page.embedded.events@, venue_based)
    &&& r is Err ==> after@ == before@
}

/// `after` is `before` followed by the page `events` read in order.
pub open spec fn appended_page(
    before: Seq<EventTemplate>,
    after: Seq<EventTemplate>,
    events: Seq<ProviderBEvent>,
    venue_based: bool,
) -> bool {
    &&& after.len() == before.len() + events.len()
    &&& after.subrange(0, before.len() as int) == before
    &&& page_read_as(after.subrange(before.len() as int, after.len() as int), events, venue_based)
}

/// `after` is `before` with the page `page` handled as the step `r` reports.
pub open spec fn page_step_taken(
    before: Vec<EventTemplate>,
    after: Vec<EventTemplate>,
    page_num: u32,
    page: ApiResponse,
    venue_based: bool,
    r: Result<PageStep, DateParseError>,
) -> bool {
    let events = page.embedded.events@;
    &&& r == Ok::<_, DateParseError>(PageStep::StartMissing) <==> start_missing_first(events)
    &&& r == Ok::<_, DateParseError>(PageStep::NoPages) <==> !start_missing_first(events)
        && page_readable(events) && page.page.total_pages == 0
    &&& r is Err <==> !start_missing_first(events) && !page_readable(events)
    &&& match r {
        Ok(PageStep::Next(n)) => next_page_number(page_num, page.page.total_pages) == Some(n)
            && appended_page(before@, after@, events, venue_based),
        Ok(PageStep::Last) => next_page_number(page_num, page.page.total_pages) is None
            && appended_page(before@, after@, events, venue_based),
        _ => after@ == before@,
    }
}

/// Reads one page of provider B's search, with the given kind of
/// attendance, and adds its events to `collected`; gives the page to fetch
/// next, or `None` after the last. When an event does not read, nothing is
/// added. Only for pages where no event without a start entry is reached,
/// and that report at least one page when every event reads.
pub fn absorb_page_read_as(
    collected: &mut Vec<EventTemplate>,
    page_num: u32,
    page: &ApiResponse,
    venue_based: bool,
) -> (r: Result<Option<u32>, DateParseError>)
    requires
        !start_missing_first(page.embedded.events@),
        page_readable(page.embedded.events@) ==> page.page.total_pages >= 1,
    ensures
        page_taken_in(*old(collected), *final(collected), page_num, *page, venue_based, r),
{
    let read = if venue_based {
        ProviderBIngestEvent.transform_page(&page.embedded.events)
    } else {
        crate::event_fetcher::EventFetcher::extract_page(&page.embedded.events)
    };
    let mut ts = match read {
        Ok(ts) => ts,
        Err(e) => return Err(e),
    };
    let next = next_page(page_num, page.page.total_pages);
    let ghost added = ts@;
    collected.append(&mut ts);
    assert(collected@.subrange(0, old(collected)@.len() as int) =~= old(collected)@);
    assert(collected@.subrange(old(collected)@.len() as int, collected@.len() as int) =~= added);
    Ok(next)
}

/// Reads one page of provider B's search, for any page: first sees whether
/// it can be taken in, then takes it in with `absorb_page_read_as`. A page
/// where an event without a start entry is reached, or where every event
/// reads but no pages are reported, is refused as such; in those cases and on
/// an error, nothing is added.
pub fn try_absorb_page_read_as(
    collected: &mut Vec<EventTemplate>,
    page_num: u32,
    page: &ApiResponse,
    venue_based: bool,
) -> (r: Result<PageStep, DateParseError>)
    ensures
        page_step_taken(*old(collected), *final(collected), page_num, *page, venue_based, r),
{
    match scan_events(&page.embedded.events, venue_based) {
        Ok(None) => return Ok(PageStep::StartMissing),
        Err(e) => return Err(e),
        Ok(Some(_)) => {},
    }
    if page.page.total_pages == 0 {
        return Ok(PageStep::NoPages);
    }
    match absorb_page_read_as(collected, page_num, page, venue_based) {
        Ok(Some(n)) => Ok(PageStep::Next(n)),
        Ok(None) => Ok(PageStep::Last),
        Err(e) => Err(e),
    }
}

impl ETL for ProviderBIngestEvent {
    type OriginalEvent = ProviderBEvent;

    type ProcessedEvent = EventTemplate;

    type TransformError = DateParseError;

    open spec fn accepts(&self, input: &ProviderBEvent) -> bool {
        input.dates.start is Some
    }

    /// Normalises one provider B event: its times read, its first venue's
    /// address and coordinates, the venue's known attendance and its link.
    fn transform(&self, event: ProviderBEvent) -> (r: Result<EventTemplate, DateParseError>)
        ensures
            r is Ok <==> event_dates(event) is Some,
            r matches Ok(t) ==> template_from(t, event, venue_attendance(event)),
    {
        self.transform_event(&event)
    }
}

/// The pages visited when starting at `start` and following `next_page`.
pub open spec fn page_walk(start: u32, total_pages: u32) -> Seq<u32>
    decreases total_pages - start,
{
    match next_page_number(start, total_pages) {
        Some(n) => if n > start {
            seq![start] + page_walk(n, total_pages)
        } else {
            seq![start]
        },
        None => seq![start],
    }
}

proof fn lemma_page_walk_from(start: u32, total_pages: u32)
    requires
        start < total_pages,
    ensures
        page_walk(start, total_pages) =~= Seq::new(
            (total_pages - start) as nat,
            |i: int| (start + i) as u32,
        ),
    decreases total_pages - start,
{
    if start < total_pages - 1 {
        lemma_page_walk_from((start + 1) as u32, total_pages);
    }
}

/// Starting at page 0 and following `next_page` until it gives `None`
/// fetches every page of provider B's search exactly once, in order.
pub proof fn lemma_every_page_fetched_once(total_pages: u32)
    requires
        total_pages >= 1,
    ensures
        page_walk(0, total_pages) == Seq::new(total_pages as nat, |i: int| i as u32),
{
    lemma_page_walk_from(0, total_pages);
    assert(Seq::new((total_pages - 0) as nat, |i: int| (0 + i) as u32) =~= Seq::new(
        total_pages as nat,
        |i: int| i as u32,
    ));
}

/// The value found for a label is that of the first field carrying the
/// label, wherever in the list that field stands.
pub proof fn lemma_first_field_found(fields: Seq<CustomField>, label: Seq<char>, k: int)
    requires
        0 <= k < fields.len(),
        fields[k].label@ == label,
        forall|j: int| 0 <= j < k ==> fields[j].label@ != label,
    ensures
        first_field_value(fields, label) == Some(fields[k].value@),
    decreases k,
{
    if k > 0 {
        assert(fields[0].label@ != label);
        let rest = fields.skip(1);
        assert forall|j: int| 0 <= j < k - 1 implies rest[j].label@ != label by {
            assert(rest[j] == fields[j + 1]);
        }
        assert(rest[k - 1] == fields[k]);
        lemma_first_field_found(rest, label, k - 1);
    }
}

/// No value is found for a label that no field carries.
pub proof fn lemma_no_field_found(fields: Seq<CustomField>, label: Seq<char>)
    requires
        forall|j: int| 0 <= j < fields.len() ==> fields[j].label@ != label,
    ensures
        first_field_value(fields, label) is None,
    decreases fields.len(),
{
    if fields.len() > 0 {
        let rest = fields.skip(1);
        assert forall|j: int| 0 <= j < rest.len() implies rest[j].label@ != label by {
            assert(rest[j] == fields[j + 1]);
        }
        lemma_no_field_found(rest, label);
    }
}

/// A provider A event's attendance is the number read from its first
/// "Participants" field, wherever that field stands among the others.
pub proof fn lemma_attendance_from_first_participants_field(e: Event, raw: RawEvent, k: int)
    requires
        event_from_raw(e, raw),
        0 <= k < raw.custom_fields@.len(),
        raw.custom_fields@[k].label@ == "Participants"@,
        forall|j: int| 0 <= j < k ==> raw.custom_fields@[j].label@ != "Participants"@,
    ensures
        e.attendance == extracted_number(raw.custom_fields@[k].value@),
{
    lemma_first_field_found(raw.custom_fields@, "Participants"@, k);
}

/// A provider A event's website is the link in its first "Website" field,
/// wherever that field stands, or the empty text when that field holds no link.
pub proof fn lemma_website_from_first_website_field(e: Event, raw: RawEvent, k: int)
    requires
        event_from_raw(e, raw),
        0 <= k < raw.custom_fields@.len(),
        raw.custom_fields@[k].label@ == "Website"@,
        forall|j: int| 0 <= j < k ==> raw.custom_fields@[j].label@ != "Website"@,
    ensures
        opt_view(e.website) == Some(
            match extracted_url(raw.custom_fields@[k].value@) {
                Some(u) => u,
                None => Seq::<char>::empty(),
            },
        ),
{
    lemma_first_field_found(raw.custom_fields@, "Website"@, k);
}

/// Without any "Participants" field the attendance is the number read from
/// "0"; without any "Website" field the website is the empty text.
pub proof fn lemma_missing_fields(e: Event, raw: RawEvent)
    requires
        event_from_raw(e, raw),
    ensures
        (forall|j: int| 0 <= j < raw.custom_fields@.len() ==> raw.custom_fields@[j].label@ != "Participants"@)
            ==> e.attendance == extracted_number("0"@),
        (forall|j: int| 0 <= j < raw.custom_fields@.len() ==> raw.custom_fields@[j].label@ != "Website"@)
            ==> opt_view(e.website) == Some(Seq::<char>::empty()),
{
    if forall|j: int| 0 <= j < raw.custom_fields@.len() ==> raw.custom_fields@[j].label@ != "Participants"@ {
        lemma_no_field_found(raw.custom_fields@, "Participants"@);
    }
    if forall|j: int| 0 <= j < raw.custom_fields@.len() ==> raw.custom_fields@[j].label@ != "Website"@ {
        lemma_no_field_found(raw.custom_fields@, "Website"@);
    }
}

/// A normalised provider B event's start and end are the instants its own
/// start and end texts read as: a present text gives the instant it reads
/// as, an absent one gives no time.
pub proof fn lemma_template_times_are_the_read_texts(tpl: EventTemplate, ev: ProviderBEvent, attendance: Option<i32>)
    requires
        template_from(tpl, ev, attendance),
    ensures
        match ev.dates.start {
            Some(info) => match info.date_time {
                Some(s) => tpl.start_time is Some && tpl.start_time == spec_parse_utc(s@),
                None => tpl.start_time is None,
            },
            None => tpl.start_time is None,
        },
        match ev.dates.end {
            Some(info) => match info.date_time {
                Some(s) => tpl.end_time is Some && tpl.end_time == spec_parse_utc(s@),
                None => tpl.end_time is None,
            },
            None => tpl.end_time is None,
        },
{
}

/// A provider B event's times read exactly when each of its start and end
/// texts, where present, reads; the instants read are those of the texts.
pub proof fn lemma_event_dates_read_both_texts(ev: ProviderBEvent)
    ensures
        event_dates(ev) is Some <==> ({
            &&& match ev.dates.start {
                Some(info) => match info.date_time {
                    Some(s) => spec_parse_utc(s@) is Some,
                    None => true,
                },
                None => true,
            }
            &&& match ev.dates.end {
                Some(info) => match info.date_time {
                    Some(s) => spec_parse_utc(s@) is Some,
                    None => true,
                },
                None => true,
            }
        }),
        event_dates(ev) is Some ==> match ev.dates.start {
            Some(info) => match info.date_time {
                Some(s) => event_dates(ev).unwrap().0 == spec_parse_utc(s@),
                None => event_dates(ev).unwrap().0 is None,
            },
            None => event_dates(ev).unwrap().0 is None,
        },
        event_dates(ev) is Some ==> match ev.dates.end {
            Some(info) => match info.date_time {
                Some(s) => event_dates(ev).unwrap().1 == spec_parse_utc(s@),
                None => event_dates(ev).unwrap().1 is None,
            },
            None => event_dates(ev).unwrap().1 is None,
        },
{
}

/// A normalised provider B event keeps its name, takes its address line and
/// coordinates from the first of its venues ("Unknown Venue" and no
/// coordinates when it lists none, the same text when that venue has no
/// address), keeps its link (the empty text without one), and, read with
/// the venue table, gets the seating of that address line.
pub proof fn lemma_template_from_first_venue(tpl: EventTemplate, ev: ProviderBEvent, attendance: Option<i32>)
    requires
        template_from(tpl, ev, attendance),
    ensures
        tpl.event_name@ == ev.name@,
        match ev.embedded {
            Some(e) => if e.venues@.len() > 0 {
                &&& tpl.location == e.venues@[0].location
                &&& tpl.venue_address@ == match e.venues@[0].address {
                    Some(a) => a.line1@,
                    None => "Unknown Venue"@,
                }
            } else {
                tpl.location is None && tpl.venue_address@ == "Unknown Venue"@
            },
            None => tpl.location is None && tpl.venue_address@ == "Unknown Venue"@,
        },
        opt_view(tpl.event_url) == Some(match ev.url {
            Some(u) => u@,
            None => Seq::<char>::empty(),
        }),
        attendance == venue_attendance(ev) ==> tpl.attendance == Some(predefined_attendance(tpl.venue_address@)),
{
}

} // verus!
