use crate::datetime::{opt_view, parsed_optional_date, DateParseError, UtcTimestamp};
use crate::etl::{
    absorb_page_read_as, event_dates, page_read_as, page_readable, page_step_taken, page_taken_in,
    scan_events, start_missing_first, template_from, template_with_attendance,
    try_absorb_page_read_as, PageStep,
};
use crate::models::{ApiResponse, EventTemplate, ProviderBEvent};
use vstd::prelude::*;

verus! {

/// Reads provider B's pages into event records that carry no attendance
/// estimate (attendance 0).
pub struct EventFetcher;

/// `ts` is the page `events` read by the fetcher, in order.
pub open spec fn fetched_page(ts: Seq<EventTemplate>, events: Seq<ProviderBEvent>) -> bool {
    page_read_as(ts, events, false)
}

impl EventFetcher {
    /// Reads one provider B event, with attendance 0 since the provider gives none.
    pub fn extract_event_info(event: &ProviderBEvent) -> (r: Result<EventTemplate, DateParseError>)
        requires
            event.dates.start is Some,
        ensures
            r is Ok <==> event_dates(*event) is Some,
            r matches Ok(t) ==> template_from(t, *event, Some(0i32)),
    {
        template_with_attendance(event, Some(0))
    }

    /// Reads an optional RFC 3339 date text.
    pub fn parse_date(date_opt: &Option<String>) -> (r: Result<Option<UtcTimestamp>, DateParseError>)
        ensures
            r is Err <==> parsed_optional_date(opt_view(*date_opt)) is None,
            r matches Ok(v) ==> parsed_optional_date(opt_view(*date_opt)) == Some(v),
    {
        crate::datetime::parse_date(date_opt)
    }

    /// Reads every event of a page, in order; the first event that does not
    /// read makes the whole page fail. Only for pages where no event without a
    /// start entry is reached.
    pub fn extract_page(events: &Vec<ProviderBEvent>) -> (r: Result<Vec<EventTemplate>, DateParseError>)
        requires
            !start_missing_first(events@),
        ensures
            r is Ok <==> page_readable(events@),
            r matches Ok(ts) ==> fetched_page(ts@, events@),
    {
        match scan_events(events, false) {
            Ok(Some(ts)) => Ok(ts),
            Ok(None) => {
                proof {
                    assert(false);
                }
                Ok(Vec::new())
            },
            Err(e) => Err(e),
        }
    }

    /// Reads a page for any page: first sees whether an event without a start
    /// entry is reached (`Ok(None)`), and otherwise reads it with `extract_page`.
    pub fn try_extract_page(events: &Vec<ProviderBEvent>) -> (r: Result<Option<Vec<EventTemplate>>, DateParseError>)
        ensures
            r matches Ok(None) <==> start_missing_first(events@),
            r is Err <==> !start_missing_first(events@) && !page_readable(events@),
            r matches Ok(Some(ts)) ==> fetched_page(ts@, events@),
    {
        match scan_events(events, false) {
            Ok(None) => return Ok(None),
            Err(e) => return Err(e),
            Ok(Some(_)) => {},
        }
        match Self::extract_page(events) {
            Ok(ts) => Ok(Some(ts)),
            Err(e) => Err(e),
        }
    }

    /// Reads one page of provider B's search and adds its events to
    /// `collected`; gives the page to fetch next, or `None` after the last.
    /// When an event does not read, nothing is added. Only for pages where no
    /// event without a start entry is reached, and that report at least one
    /// page when every event reads.
    pub fn absorb_page(
        collected: &mut Vec<EventTemplate>,
        page_num: u32,
        page: &ApiResponse,
    ) -> (r: Result<Option<u32>, DateParseError>)
        requires
            !start_missing_first(page.embedded.events@),
            page_readable(page.embedded.events@) ==> page.page.total_pages >= 1,
        ensures
            page_taken_in(*old(collected), *final(collected), page_num, *page, false, r),
    {
        absorb_page_read_as(collected, page_num, page, false)
    }

    /// Reads one page of provider B's search, for any page: a page where an
    /// event without a start entry is reached, or where every event reads but
    /// no pages are reported, is refused as such; in those cases and on an
    /// error, nothing is added.
    pub fn try_absorb_page(
        collected: &mut Vec<EventTemplate>,
        page_num: u32,
        page: &ApiResponse,
    ) -> (r: Result<PageStep, DateParseError>)
        ensures
            page_step_taken(*old(collected), *final(collected), page_num, *page, false, r),
    {
        try_absorb_page_read_as(collected, page_num, page, false)
    }
}

} // verus!
