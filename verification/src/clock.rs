//! The wall clock and the calendar.

use vstd::prelude::*;

verus! {

/// The current time in whole seconds since the Unix epoch, read through
/// `chrono::Utc::now` and `DateTime::timestamp`. Nothing is claimed of the
/// value: it depends on the machine's clock. `Utc::now` does not return on a
/// machine whose clock stands before the epoch.
#[verifier::external_body]
pub(crate) fn unix_now() -> i64 {
    chrono::Utc::now().timestamp()
}

/// The date and time in UTC that `chrono` prints for the moment `timestamp`
/// seconds after the Unix epoch, or `None` where `chrono` has no date for it.
pub uninterp spec fn utc_date_text(timestamp: int) -> Option<Seq<char>>;

/// Asks `chrono::TimeZone::timestamp_opt` of `Utc` for the moment `timestamp`
/// seconds after the Unix epoch and prints it with `DateTime`'s `Display`, as
/// in `2015-05-15 00:00:00 UTC`. The text depends on `timestamp` alone; `None`
/// stands for a number of seconds that is out of `chrono`'s range.
#[verifier::external_body]
pub(crate) fn utc_date(timestamp: i64) -> (date: Option<String>)
    ensures
        date.deep_view() == utc_date_text(timestamp as int),
{
    match chrono::TimeZone::timestamp_opt(&chrono::Utc, timestamp, 0) {
        chrono::LocalResult::Single(moment) => Some(moment.to_string()),
        _ => None,
    }
}

} // verus!
