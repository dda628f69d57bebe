//! The rate-limit counters that the service reports with each response.

use crate::clock::{from_unix_seconds, span_between, time_at, time_between, unix_seconds, unix_seconds_of};
use crate::decimal::{decimal_u32, parse_u32};
use crate::headers::{text_of, text_under};
use chrono::{NaiveDateTime, TimeDelta};
use reqwest::header::HeaderMap;
use vstd::prelude::*;

verus! {

/// A snapshot of the caller's allowance, as one response reported it.
#[derive(Debug, Clone, Copy)]
pub struct Ratelimit {
    /// The maximum number of weighted calls for this time period.
    limit: u32,
    /// The remaining number of weighted calls for this time period.
    remaining: u32,
    /// The time, in UTC, at which the period ends and the count starts anew.
    reset: NaiveDateTime,
}

/// What a `Ratelimit` holds.
pub struct RatelimitView {
    pub limit: u32,
    pub remaining: u32,
    pub reset: NaiveDateTime,
}

impl View for Ratelimit {
    type V = RatelimitView;

    closed spec fn view(&self) -> RatelimitView {
        RatelimitView { limit: self.limit, remaining: self.remaining, reset: self.reset }
    }
}

/// The number written in a header, where the header is there and is text.
pub open spec fn number_in(text: Option<Seq<char>>) -> Option<u32> {
    match text {
        Some(s) => decimal_u32(s),
        None => None,
    }
}

/// The snapshot that three header texts give: there is one where each of
/// the three is present and is a decimal number of 32 bits and the reset
/// time exists; it holds the three numbers, the last as seconds after the
/// Unix epoch.
pub open spec fn snapshot_of(
    limit: Option<Seq<char>>,
    remaining: Option<Seq<char>>,
    reset: Option<Seq<char>>,
) -> Option<RatelimitView> {
    match (number_in(limit), number_in(remaining), number_in(reset)) {
        (Some(l), Some(r), Some(t)) => match time_at(t as int) {
            Some(at) => Some(RatelimitView { limit: l, remaining: r, reset: at }),
            None => None,
        },
        _ => None,
    }
}

/// The characters of a piece of text that may be missing.
pub open spec fn chars_of(text: Option<&str>) -> Option<Seq<char>> {
    match text {
        Some(t) => Some(t@),
        None => None,
    }
}

/// What a snapshot that may be missing holds.
pub open spec fn held(snapshot: Option<Ratelimit>) -> Option<RatelimitView> {
    match snapshot {
        Some(s) => Some(s@),
        None => None,
    }
}

/// The name of the header that carries the limit.
pub open spec fn limit_header() -> Seq<char> {
    "x-ratelimit-limit"@
}

/// The name of the header that carries the remaining calls.
pub open spec fn remaining_header() -> Seq<char> {
    "x-ratelimit-remaining"@
}

/// The name of the header that carries the reset time.
pub open spec fn reset_header() -> Seq<char> {
    "x-ratelimit-reset"@
}

impl Ratelimit {
    /// Reads the snapshot from the headers of a response.
    ///
    /// A header that is missing, is not text or is not a number leaves the
    /// response without a snapshot; it is never an error.
    pub fn from_headers(headers: &HeaderMap) -> (snapshot: Option<Ratelimit>)
        ensures
            held(snapshot) == snapshot_of(
                text_under(*headers, limit_header()),
                text_under(*headers, remaining_header()),
                text_under(*headers, reset_header()),
            ),
            snapshot is Some <==> number_in(text_under(*headers, limit_header())) is Some
                && number_in(text_under(*headers, remaining_header())) is Some && number_in(
                text_under(*headers, reset_header()),
            ) is Some,
    {
        let limit = text_of(headers, "x-ratelimit-limit");
        let remaining = text_of(headers, "x-ratelimit-remaining");
        let reset = text_of(headers, "x-ratelimit-reset");
        Ratelimit::from_header_values(limit, remaining, reset)
    }

    /// Builds the snapshot from the texts of the three headers.
    ///
    /// There is a snapshot exactly where all three texts are present and
    /// each is a decimal number of 32 bits.
    pub fn from_header_values(
        limit: Option<&str>,
        remaining: Option<&str>,
        reset: Option<&str>,
    ) -> (snapshot: Option<Ratelimit>)
        ensures
            held(snapshot) == snapshot_of(chars_of(limit), chars_of(remaining), chars_of(reset)),
            snapshot is Some <==> number_in(chars_of(limit)) is Some && number_in(
                chars_of(remaining),
            ) is Some && number_in(chars_of(reset)) is Some,
            snapshot matches Some(s) ==> {
                &&& Some(s@.limit) == number_in(chars_of(limit))
                &&& Some(s@.remaining) == number_in(chars_of(remaining))
                &&& Some(unix_seconds(s@.reset)) == match number_in(chars_of(reset)) {
                    Some(t) => Some(t as int),
                    None => None,
                }
            },
    {
        let maybe_limit = match limit {
            Some(text) => parse_u32(text),
            None => None,
        };
        let maybe_remaining = match remaining {
            Some(text) => parse_u32(text),
            None => None,
        };
        let maybe_reset = match reset {
            Some(text) => match parse_u32(text) {
                Some(timestamp) => from_unix_seconds(timestamp as i64),
                None => None,
            },
            None => None,
        };
        match (maybe_limit, maybe_remaining, maybe_reset) {
            (Some(limit), Some(remaining), Some(reset)) => Some(
                Ratelimit { limit, remaining, reset },
            ),
            _ => None,
        }
    }

    /// The maximum number of weighted calls for this time period.
    pub fn limit(&self) -> (limit: u32)
        ensures
            limit == self@.limit,
    {
        self.limit
    }

    /// The remaining number of weighted calls for this time period.
    pub fn remaining(&self) -> (remaining: u32)
        ensures
            remaining == self@.remaining,
    {
        self.remaining
    }

    /// The time, in UTC, at which the period ends.
    pub fn reset(&self) -> (reset: NaiveDateTime)
        ensures
            reset == self@.reset,
    {
        self.reset
    }

    /// The reset time as whole seconds after the Unix epoch.
    pub fn reset_timestamp(&self) -> (secs: i64)
        ensures
            secs == unix_seconds(self@.reset),
    {
        unix_seconds_of(&self.reset)
    }

    /// The time left until the period ends, seen from `now` (UTC); negative
    /// where the reset time has passed.
    pub fn till_reset(&self, now: NaiveDateTime) -> (left: TimeDelta)
        ensures
            left == time_between(self@.reset, now),
    {
        span_between(&self.reset, &now)
    }
}

} // verus!
