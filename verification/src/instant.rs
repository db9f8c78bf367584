//! Naive points in time (no time zone attached), as plain numbers.
//!
//! Calendar arithmetic is left to `chrono`: the functions at the end of this
//! file parse text with it and take the result apart into the three numbers
//! that the rest of the crate reasons about.

use chrono::{Datelike, NaiveDate, NaiveDateTime, Timelike};
use vstd::prelude::*;

verus! {

/// Day number of 1970-01-01, counting 0001-01-01 as day 1.
pub const UNIX_EPOCH_DAY: i64 = 719_163;

/// Milliseconds in 24 hours.
pub const ONE_DAY_MILLIS: i64 = 86_400_000;

/// Seconds in a day.
pub const SECONDS_PER_DAY: u32 = 86_400;

/// A date and a time of day without a time zone.
///
/// Two instants are ordered by day, then by second, then by nanosecond,
/// which is the order of the moments they denote.
#[derive(Clone, Copy, Debug, PartialEq, Eq, Structural)]
pub struct NaiveInstant {
    /// Days since 0000-12-31 in the proleptic Gregorian calendar, so that
    /// 0001-01-01 is day 1.
    pub days: i32,
    /// Seconds since midnight.
    pub secs: u32,
    /// Nanoseconds since the last full second; one thousand million or more
    /// inside a leap second.
    pub nanos: u32,
}

impl NaiveInstant {
    /// `self` is not later than `other`.
    pub open spec fn at_or_before(self, other: NaiveInstant) -> bool {
        self.days < other.days || (self.days == other.days && (self.secs < other.secs || (
        self.secs == other.secs && self.nanos <= other.nanos)))
    }

    /// The time of day is exactly 00:00:00.
    pub open spec fn is_midnight_spec(self) -> bool {
        self.secs == 0 && self.nanos == 0
    }

    /// Milliseconds since 1970-01-01T00:00:00, reading the instant as UTC.
    pub open spec fn epoch_millis_spec(self) -> int {
        ((self.days - UNIX_EPOCH_DAY) * 86_400 + self.secs) * 1000 + self.nanos / 1_000_000
    }

    /// The first instant of the given day.
    pub open spec fn start_of_day_spec(days: i32) -> NaiveInstant {
        NaiveInstant { days, secs: 0, nanos: 0 }
    }

    /// The last full second of the given day, 23:59:59.
    pub open spec fn end_of_day_spec(days: i32) -> NaiveInstant {
        NaiveInstant { days, secs: 86_399, nanos: 0 }
    }

    /// Midnight at the start of the given day.
    pub fn start_of_day(days: i32) -> (t: NaiveInstant)
        ensures
            t == Self::start_of_day_spec(days),
    {
        NaiveInstant { days, secs: 0, nanos: 0 }
    }

    /// 23:59:59 on the given day.
    pub fn end_of_day(days: i32) -> (t: NaiveInstant)
        ensures
            t == Self::end_of_day_spec(days),
    {
        NaiveInstant { days, secs: SECONDS_PER_DAY - 1, nanos: 0 }
    }

    /// Whether `self` is not later than `other`.
    pub fn is_at_or_before(&self, other: &NaiveInstant) -> (b: bool)
        ensures
            b == self.at_or_before(*other),
    {
        if self.days != other.days {
            self.days < other.days
        } else if self.secs != other.secs {
            self.secs < other.secs
        } else {
            self.nanos <= other.nanos
        }
    }

    /// Whether the time of day is exactly midnight.
    pub fn is_midnight(&self) -> (b: bool)
        ensures
            b == self.is_midnight_spec(),
    {
        self.secs == 0 && self.nanos == 0
    }

    /// Milliseconds since the Unix epoch, reading the instant as UTC. Inside
    /// a leap second the millisecond part runs from 1000 to 1999.
    pub fn epoch_millis(&self) -> (ms: i64)
        ensures
            ms == self.epoch_millis_spec(),
    {
        let day: i64 = self.days as i64 - UNIX_EPOCH_DAY;
        let secs: i64 = day * 86_400 + self.secs as i64;
        secs * 1000 + (self.nanos / 1_000_000) as i64
    }
}

/// The instant, if any, that `chrono::NaiveDateTime::parse_from_str` reads
/// out of `text` under the format `format`.
pub uninterp spec fn chrono_datetime_from_str(text: Seq<char>, format: Seq<char>) -> Option<
    NaiveInstant,
>;

/// The day number, if any, of the date that `chrono::NaiveDate::parse_from_str`
/// reads out of `text` under the format `format`.
pub uninterp spec fn chrono_date_from_str(text: Seq<char>, format: Seq<char>) -> Option<i32>;

/// Calls `chrono::NaiveDateTime::parse_from_str` and takes the result apart
/// with `num_days_from_ce`, `num_seconds_from_midnight` and `nanosecond`.
/// Trusted: the result is a function of the two texts, which
/// [`chrono_datetime_from_str`] names; a parse failure is `None`.
#[verifier::external_body]
pub(crate) fn datetime_from_str(text: &str, format: &str) -> (parsed: Option<NaiveInstant>)
    ensures
        parsed == chrono_datetime_from_str(text@, format@),
{
    match NaiveDateTime::parse_from_str(text, format) {
        Ok(t) => Some(
            NaiveInstant {
                days: t.num_days_from_ce(),
                secs: t.num_seconds_from_midnight(),
                nanos: t.nanosecond(),
            },
        ),
        Err(_) => None,
    }
}

/// Calls `chrono::NaiveDate::parse_from_str` and gives the date's
/// `num_days_from_ce`. Trusted: the result is a function of the two texts,
/// which [`chrono_date_from_str`] names; a parse failure is `None`.
#[verifier::external_body]
pub(crate) fn date_from_str(text: &str, format: &str) -> (parsed: Option<i32>)
    ensures
        parsed == chrono_date_from_str(text@, format@),
{
    match NaiveDate::parse_from_str(text, format) {
        Ok(date) => Some(date.num_days_from_ce()),
        Err(_) => None,
    }
}

} // verus!
