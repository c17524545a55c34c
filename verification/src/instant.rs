//! Instants and the days they fall on.
use time::OffsetDateTime;
use vstd::prelude::*;

verus! {

/// The length of a day in seconds.
pub const SECONDS_PER_DAY: i64 = 86_400;

/// `time::OffsetDateTime`: a date and a time of day with an offset from UTC.
/// Verified code carries its values and reads nothing inside them.
#[verifier::external_type_specification]
#[verifier::external_body]
pub struct ExOffsetDateTime(time::OffsetDateTime);

/// What `OffsetDateTime::unix_timestamp` returns for an instant: its Unix
/// timestamp, the whole seconds from 1970-01-01 00:00:00 UTC to it, negative
/// before that moment.
pub uninterp spec fn unix_seconds(instant: OffsetDateTime) -> i64;

/// `OffsetDateTime::unix_timestamp` computes the Unix timestamp from the stored
/// date, time of day and offset alone; it neither fails nor reads a clock. The
/// contract claims no more than that: the same instant has the same
/// timestamp.
pub assume_specification[ OffsetDateTime::unix_timestamp ](instant: OffsetDateTime) -> (seconds:
    i64)
    ensures
        seconds == unix_seconds(instant),
;

/// The number of the UTC day that a Unix timestamp falls on: day 0 is
/// 1970-01-01, day -1 the day before.
pub open spec fn day_of(seconds: int) -> int {
    seconds / (SECONDS_PER_DAY as int)
}

/// The number of the UTC day that a Unix timestamp falls on.
pub fn day_number(seconds: i64) -> (day: i64)
    ensures
        day == day_of(seconds as int),
{
    if seconds >= 0 {
        seconds / SECONDS_PER_DAY
    } else {
        -((-(seconds + 1)) / SECONDS_PER_DAY) - 1
    }
}

} // verus!
