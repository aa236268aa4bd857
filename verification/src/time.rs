//! Instants of time as plain integers, and the calendar work that is left to
//! `chrono`.

use chrono::{DateTime, Datelike, NaiveDate, Utc};
use std::fmt::Write;
use vstd::prelude::*;

verus! {

/// Seconds in a day.
pub const SECONDS_PER_DAY: i64 = 86_400;

/// The day number of 1970-01-01, counting 0001-01-01 as day 1.
pub const UNIX_EPOCH_DAY: i64 = 719_163;

/// A UTC instant: whole seconds since 1970-01-01T00:00:00Z and the
/// nanoseconds past that second.
#[derive(Clone, Copy, Debug, PartialEq, Eq, Structural)]
pub struct Timestamp {
    pub secs: i64,
    pub nanos: u32,
}

impl Timestamp {
    /// Chronological order: by seconds, then by nanoseconds.
    pub open spec fn precedes(self, other: Timestamp) -> bool {
        self.secs < other.secs || (self.secs == other.secs && self.nanos < other.nanos)
    }

    /// `self` is not later than `other`.
    pub open spec fn at_or_before(self, other: Timestamp) -> bool {
        self.precedes(other) || self == other
    }

    pub fn is_before(&self, other: &Timestamp) -> (r: bool)
        ensures
            r == self.precedes(*other),
    {
        self.secs < other.secs || (self.secs == other.secs && self.nanos < other.nanos)
    }

    /// The instant `seconds_into_day` seconds after midnight UTC of the day
    /// numbered `day` (0001-01-01 is day 1).
    pub open spec fn on_day(day: int, seconds_into_day: int) -> Timestamp {
        Timestamp {
            secs: ((day - UNIX_EPOCH_DAY) * SECONDS_PER_DAY + seconds_into_day) as i64,
            nanos: 0,
        }
    }

    pub fn at_day(day: i32, seconds_into_day: u32) -> (r: Timestamp)
        ensures
            r == Timestamp::on_day(day as int, seconds_into_day as int),
            r.secs == (day - UNIX_EPOCH_DAY) * SECONDS_PER_DAY + seconds_into_day,
    {
        let days: i64 = day as i64 - UNIX_EPOCH_DAY;
        assert(-3_000_000_000 <= days <= 3_000_000_000);
        let secs: i64 = days * SECONDS_PER_DAY + seconds_into_day as i64;
        Timestamp { secs, nanos: 0 }
    }
}

/// The instant that an RFC 3339 date-time denotes, as `chrono` reads it;
/// `None` for text that is no such date-time.
pub uninterp spec fn rfc3339_instant(text: Seq<char>) -> Option<Timestamp>;

/// The day number (0001-01-01 is day 1) of the calendar date that `text`
/// holds under the strftime pattern `format`, as `chrono` reads it; `None`
/// where the text does not match or names no date.
pub uninterp spec fn calendar_day(text: Seq<char>, format: Seq<char>) -> Option<i32>;

/// The instant `(secs, nanos)` written under the strftime pattern `format`,
/// as `chrono` writes it; `None` where `chrono` cannot hold the instant or
/// cannot apply the pattern.
pub uninterp spec fn formatted_instant(secs: int, nanos: int, format: Seq<char>) -> Option<Seq<char>>;

/// Calls `chrono::DateTime::parse_from_rfc3339` and reports the parsed
/// instant by `timestamp()` and `timestamp_subsec_nanos()`. The result is
/// named, not described: it is whatever `chrono` makes of the text.
#[verifier::external_body]
pub(crate) fn parse_rfc3339(text: &str) -> (r: Option<Timestamp>)
    ensures
        r == rfc3339_instant(text@),
{
    match DateTime::parse_from_rfc3339(text) {
        Ok(parsed) => Some(Timestamp {
            secs: parsed.timestamp(),
            nanos: parsed.timestamp_subsec_nanos(),
        }),
        Err(_) => None,
    }
}

/// Calls `chrono::NaiveDate::parse_from_str` and reports the date by
/// `Datelike::num_days_from_ce`. The result is named, not described.
#[verifier::external_body]
pub(crate) fn parse_calendar_day(text: &str, format: &str) -> (r: Option<i32>)
    ensures
        r == calendar_day(text@, format@),
{
    match NaiveDate::parse_from_str(text, format) {
        Ok(date) => Some(date.num_days_from_ce()),
        Err(_) => None,
    }
}

/// Builds the instant with `chrono::DateTime::from_timestamp` and writes it
/// with `DateTime::format`. The result is named, not described; it is `None`
/// where `from_timestamp` refuses the instant or the formatter reports an
/// error.
#[verifier::external_body]
pub(crate) fn format_instant(secs: i64, nanos: u32, format: &str) -> (r: Option<String>)
    ensures
        r matches Some(text) ==> formatted_instant(secs as int, nanos as int, format@) == Some(text@),
        r is None ==> formatted_instant(secs as int, nanos as int, format@) is None,
{
    let instant = DateTime::from_timestamp(secs, nanos)?;
    let mut text = String::new();
    match write!(text, "{}", instant.format(format)) {
        Ok(()) => Some(text),
        Err(_) => None,
    }
}

/// Calls `chrono::Utc::now`. Nothing is promised of the reading.
#[verifier::external_body]
pub(crate) fn current_time() -> (r: Timestamp)
{
    let now = Utc::now();
    Timestamp { secs: now.timestamp(), nanos: now.timestamp_subsec_nanos() }
}

} // verus!
