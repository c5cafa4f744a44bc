//! The wall clock and the calendar, both read through `chrono`.

use vstd::prelude::*;

verus! {

/// The calendar date (UTC) of the instant `now`, written as year, month and
/// day with hyphens between them; `None` for an instant outside the
/// calendar's range.
pub uninterp spec fn utc_date_text(now: i64) -> Option<Seq<char>>;

/// The view of an optional string.
pub open spec fn text_view(text: Option<String>) -> Option<Seq<char>> {
    match text {
        Some(t) => Some(t@),
        None => None,
    }
}

/// `chrono::Utc::now().timestamp()`: the seconds since the Unix epoch, as
/// the system clock has them. Nothing is claimed of the value.
#[verifier::external_body]
pub(crate) fn unix_time_now() -> i64 {
    chrono::Utc::now().timestamp()
}

/// `chrono::DateTime::from_timestamp(now, 0)`, formatted with `%Y-%m-%d`.
/// The result depends on `now` alone; it is what `utc_date_text` names.
#[verifier::external_body]
pub(crate) fn utc_date(now: i64) -> (r: Option<String>)
    ensures
        text_view(r) == utc_date_text(now),
{
    match chrono::DateTime::from_timestamp(now, 0) {
        Some(instant) => Some(instant.format("%Y-%m-%d").to_string()),
        None => None,
    }
}

} // verus!
