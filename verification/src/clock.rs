//! Instants and calendar dates.
//!
//! The supervisor compares instants and never reads a clock: the caller
//! hands it the time. An instant is held as plain integers; `chrono` is
//! asked only to read a date that the container engine wrote and to tell
//! the calendar day of an instant. Verus does not read `chrono`: what the
//! two functions marked `external_body` say of it is believed.

use chrono::{DateTime, Datelike};
use vstd::prelude::*;

verus! {

/// The last second that is evaluated against a schedule: the end of the
/// year 9999.
pub const LAST_SECOND: i64 = 253_402_300_799;

/// An instant in UTC: whole seconds since the start of 1970, and the
/// nanoseconds into that second. The engine's clock may report a leap second
/// as a count of nanoseconds of a thousand million or more.
#[derive(Debug, Clone, Copy, PartialEq, Eq, Structural)]
pub struct Timestamp {
    pub secs: i64,
    pub nanos: u32,
}

/// A moment as a calendar shows it, in UTC.
#[derive(Debug, Clone, Copy, PartialEq, Eq, Structural)]
pub struct CalendarTime {
    pub year: i32,
    pub month: u32,
    pub day: u32,
    pub hour: u32,
    pub minute: u32,
    pub second: u32,
}

impl Timestamp {
    /// Whether this instant comes strictly before the other.
    pub open spec fn before(self, other: Timestamp) -> bool {
        self.secs < other.secs || (self.secs == other.secs && self.nanos < other.nanos)
    }

    /// Whether this instant comes strictly before the other.
    pub fn is_before(&self, other: &Timestamp) -> (earlier: bool)
        ensures
            earlier == self.before(*other),
    {
        self.secs < other.secs || (self.secs == other.secs && self.nanos < other.nanos)
    }
}

/// The instant that a text in the notation of RFC 3339 denotes, as seconds
/// and nanoseconds, where `chrono` accepts the text.
pub uninterp spec fn rfc3339_instant(text: Seq<char>) -> Option<(i64, u32)>;

/// The year, month and day, in UTC, of the second that lies `secs` seconds
/// after the start of 1970, where `chrono` can hold that date.
pub uninterp spec fn utc_date(secs: i64) -> Option<(i32, u32, u32)>;

/// The instant that a pair of seconds and nanoseconds stands for.
pub open spec fn instant_of(pair: Option<(i64, u32)>) -> Option<Timestamp> {
    match pair {
        Some((secs, nanos)) => Some(Timestamp { secs, nanos }),
        None => None,
    }
}

/// `DateTime::parse_from_rfc3339`, then `timestamp` and
/// `timestamp_subsec_nanos`: reads a date and time with its offset and
/// gives the instant, or nothing where the text is not in that notation.
#[verifier::external_body]
pub(crate) fn parse_rfc3339(text: &str) -> (instant: Option<Timestamp>)
    ensures
        instant == instant_of(rfc3339_instant(text@)),
{
    let time = DateTime::parse_from_rfc3339(text).ok()?;
    Some(Timestamp { secs: time.timestamp(), nanos: time.timestamp_subsec_nanos() })
}

/// `DateTime::from_timestamp`, then `year`, `month` and `day`: the calendar
/// day of an instant, or nothing where the instant lies outside the years
/// that `chrono` can hold.
#[verifier::external_body]
pub(crate) fn date_of(secs: i64) -> (date: Option<(i32, u32, u32)>)
    ensures
        date == utc_date(secs),
{
    let time = DateTime::from_timestamp(secs, 0)?;
    Some((time.year(), time.month(), time.day()))
}

} // verus!
