//! Points in time and the spans between them.
//!
//! Both types belong to the calendar library. Nothing in this file is
//! proved: each contract states what the documentation of the underlying
//! function gives.

use chrono::{NaiveDateTime, TimeDelta};
use vstd::prelude::*;

verus! {

#[verifier::external_type_specification]
#[verifier::external_body]
pub struct ExNaiveDateTime(NaiveDateTime);

#[verifier::external_type_specification]
#[verifier::external_body]
pub struct ExTimeDelta(TimeDelta);

/// What `NaiveDateTime::from_timestamp_opt` returns for `secs` whole seconds
/// after the Unix epoch and no nanoseconds.
pub uninterp spec fn time_at(secs: int) -> Option<NaiveDateTime>;

/// What `NaiveDateTime::timestamp` returns: the whole seconds from the Unix
/// epoch to `at`, both taken as UTC.
pub uninterp spec fn unix_seconds(at: NaiveDateTime) -> int;

/// What `NaiveDateTime::signed_duration_since` returns: the span from
/// `earlier` to `later`, negative where `later` comes first.
pub uninterp spec fn time_between(later: NaiveDateTime, earlier: NaiveDateTime) -> TimeDelta;

/// Calls `NaiveDateTime::from_timestamp_opt` with no nanoseconds. The
/// library documents that the result is absent only for a number of seconds
/// far outside the common era (about 262,000 years), which no unsigned
/// 32-bit number of seconds is, and that `timestamp` gives back the seconds a
/// time was made from.
#[verifier::external_body]
#[allow(deprecated)]
pub(crate) fn from_unix_seconds(secs: i64) -> (at: Option<NaiveDateTime>)
    ensures
        at == time_at(secs as int),
        0 <= secs <= u32::MAX ==> at is Some,
        at matches Some(t) ==> unix_seconds(t) == secs,
{
    NaiveDateTime::from_timestamp_opt(secs, 0)
}

/// Calls `NaiveDateTime::timestamp`.
#[verifier::external_body]
#[allow(deprecated)]
pub(crate) fn unix_seconds_of(at: &NaiveDateTime) -> (secs: i64)
    ensures
        secs == unix_seconds(*at),
{
    at.timestamp()
}

/// Calls `NaiveDateTime::signed_duration_since`, which the library
/// documents as never out of range.
#[verifier::external_body]
pub(crate) fn span_between(later: &NaiveDateTime, earlier: &NaiveDateTime) -> (span: TimeDelta)
    ensures
        span == time_between(*later, *earlier),
{
    later.signed_duration_since(*earlier)
}

} // verus!
