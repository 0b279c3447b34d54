//! Calendar range of the timestamps that a bump record can carry.

use chrono::DateTime;
use vstd::prelude::*;

verus! {

/// The first second that the store's timestamp type can hold: midnight of
/// 1 January of the year -262143, in seconds since the Unix epoch. This is
/// the timestamp of chrono's `DateTime::<Utc>::MIN_UTC`.
pub const MIN_STORABLE_SECONDS: i64 = -8_334_601_228_800;

/// The last second that the store's timestamp type can hold: 23:59:59 on
/// 31 December of the year 262142, in seconds since the Unix epoch. This is
/// the timestamp of chrono's `DateTime::<Utc>::MAX_UTC`.
pub const MAX_STORABLE_SECONDS: i64 = 8_210_266_876_799;

/// Whether a count of epoch seconds names an instant that the store can hold.
pub open spec fn timestamp_storable(secs: int) -> bool {
    MIN_STORABLE_SECONDS <= secs <= MAX_STORABLE_SECONDS
}

/// `chrono::DateTime::from_timestamp` with no sub-second part, followed by the
/// reading that the store's consumers make of the result
/// (`naive_utc().and_utc().timestamp()`).
///
/// Trusted: chrono builds a date-time exactly for the seconds between the
/// first instant of its `NaiveDate::MIN` and the last of its `NaiveDate::MAX`,
/// and the seconds read back from it are the seconds it was built from.
#[verifier::external_body]
pub(crate) fn utc_round_trip(secs: i64) -> (stored: Option<i64>)
    ensures
        stored is Some <==> timestamp_storable(secs as int),
        stored matches Some(t) ==> t == secs,
{
    match DateTime::from_timestamp(secs, 0) {
        Some(instant) => Some(instant.naive_utc().and_utc().timestamp()),
        None => None,
    }
}

} // verus!
