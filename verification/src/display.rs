use crate::datetime::{format_timestamp, spec_format_timestamp, UtcTimestamp, Zone};
use crate::numbers::grouped_decimal;
use num_format::{Locale, ToFormattedString};
use vstd::prelude::*;

verus! {

/// How the map shows an event's start and end, in Pacific time.
pub const EVENT_TIME_FORMAT: &'static str = "%Y-%m-%d \u{b7} %I:%M %p";

/// A stored event as the map server reads it, before it is shown.
#[derive(Debug, PartialEq)]
pub struct EventRow {
    pub event_name: String,
    pub start_time: Option<UtcTimestamp>,
    pub end_time: Option<UtcTimestamp>,
    pub attendance: i32,
    pub website: String,
}

/// The texts the map shows for an event (its coordinates go alongside).
#[derive(Debug, PartialEq)]
pub struct EventLabels {
    pub start_time: Option<String>,
    pub end_time: Option<String>,
    pub label: Option<String>,
    pub attendance: Option<String>,
    pub website: Option<String>,
}

/// `ToFormattedString::to_formatted_string(&n, &Locale::en)`. The contract
/// states what num_format's source does for `Locale::en`: a `-` for negative
/// numbers, then the magnitude in groups of three digits separated by commas.
#[verifier::external_body]
fn format_en_grouped(n: i32) -> (r: String)
    ensures
        r@ == grouped_decimal(n as int),
{
    n.to_formatted_string(&Locale::en)
}

/// An integer with its thousands separated by commas, as "68,740".
pub fn format_thousands(n: i32) -> (r: String)
    ensures
        r@ == grouped_decimal(n as int),
{
    format_en_grouped(n)
}

/// What the map shows for an attendance figure.
pub open spec fn attendance_text(attendance: i32) -> Seq<char> {
    if attendance == 0 {
        "not specified"@
    } else {
        grouped_decimal(attendance as int) + " (estimated)"@
    }
}

/// What the map shows for an attendance figure: "not specified" for 0,
/// otherwise the number with its thousands grouped and marked as an estimate.
pub fn attendance_label(attendance: i32) -> (r: String)
    ensures
        r@ == attendance_text(attendance),
{
    if attendance == 0 {
        "not specified".to_string()
    } else {
        let mut s = format_en_grouped(attendance);
        s.append(" (estimated)");
        s
    }
}

/// What the map shows for an instant: its Pacific date and 12-hour time.
pub open spec fn event_time_text(t: UtcTimestamp) -> Option<Seq<char>> {
    spec_format_timestamp(t, Zone::UsPacific, EVENT_TIME_FORMAT@)
}

/// The Pacific date and 12-hour time of an instant, as the map shows it;
/// `None` for an instant that cannot be written.
pub fn event_time_label(t: UtcTimestamp) -> (r: Option<String>)
    ensures
        crate::datetime::opt_view(r) == event_time_text(t),
{
    format_timestamp(t, Zone::UsPacific, EVENT_TIME_FORMAT)
}

/// What the map shows for an optional instant.
pub open spec fn optional_time_text(t: Option<UtcTimestamp>) -> Option<Seq<char>> {
    match t {
        Some(x) => event_time_text(x),
        None => None,
    }
}

/// `labels` are what the map shows for `row`.
pub open spec fn labels_of(labels: EventLabels, row: EventRow) -> bool {
    &&& crate::datetime::opt_view(labels.start_time) == optional_time_text(row.start_time)
    &&& crate::datetime::opt_view(labels.end_time) == optional_time_text(row.end_time)
    &&& crate::datetime::opt_view(labels.label) == Some(row.event_name@)
    &&& crate::datetime::opt_view(labels.attendance) == Some(attendance_text(row.attendance))
    &&& crate::datetime::opt_view(labels.website) == Some(row.website@)
}

/// The texts the map shows for a stored event.
pub fn describe_event(row: EventRow) -> (r: EventLabels)
    ensures
        labels_of(r, row),
{
    let start_time = match row.start_time {
        Some(t) => event_time_label(t),
        None => None,
    };
    let end_time = match row.end_time {
        Some(t) => event_time_label(t),
        None => None,
    };
    let attendance = attendance_label(row.attendance);
    EventLabels {
        start_time,
        end_time,
        label: Some(row.event_name),
        attendance: Some(attendance),
        website: Some(row.website),
    }
}

/// An event's time label is the instant turned into US Pacific time and
/// written whole with "%Y-%m-%d \u{b7} %I:%M %p": date and 12-hour time come
/// from the same Pacific wall-clock moment, and the map's start and end
/// labels are exactly these labels of the stored start and end.
pub proof fn lemma_time_labels_are_pacific(labels: EventLabels, row: EventRow, t: UtcTimestamp)
    ensures
        event_time_text(t) == spec_format_timestamp(t, Zone::UsPacific, "%Y-%m-%d \u{b7} %I:%M %p"@),
        labels_of(labels, row) ==> crate::datetime::opt_view(labels.start_time) == match row.start_time {
            Some(s) => spec_format_timestamp(s, Zone::UsPacific, "%Y-%m-%d \u{b7} %I:%M %p"@),
            None => None,
        },
        labels_of(labels, row) ==> crate::datetime::opt_view(labels.end_time) == match row.end_time {
            Some(s) => spec_format_timestamp(s, Zone::UsPacific, "%Y-%m-%d \u{b7} %I:%M %p"@),
            None => None,
        },
{
}

} // verus!
