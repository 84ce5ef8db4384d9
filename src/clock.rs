//! Dates, times of day and readings of the local wall clock.
use vstd::prelude::*;
use chrono::{Datelike, TimeZone, Timelike};

verus! {

/// The largest span, in seconds, that a span may hold either way
/// (chrono's `TimeDelta` holds no more whole seconds).
pub const MAX_SECS: i64 = 9_223_372_036_854_775;

/// A signed span of time, in whole seconds.
#[derive(Clone, Copy, Debug, PartialEq, Eq, Structural)]
pub struct Span {
    pub secs: i64,
}

impl Span {
    pub open spec fn wf(&self) -> bool {
        -MAX_SECS <= self.secs <= MAX_SECS
    }
}

/// A time of day on the local wall clock, to the second.
#[derive(Clone, Copy, Debug, PartialEq, Eq, Structural)]
pub struct Clock {
    pub hour: u32,
    pub minute: u32,
    pub second: u32,
}

impl Clock {
    pub open spec fn wf(&self) -> bool {
        self.hour < 24 && self.minute < 60 && self.second < 60
    }

    /// Seconds since midnight.
    pub open spec fn secs(&self) -> int {
        self.hour * 3600 + self.minute * 60 + self.second
    }
}

/// A calendar date (proleptic Gregorian).
#[derive(Clone, Copy, Debug, PartialEq, Eq, Structural)]
pub struct Date {
    pub year: i32,
    pub month: u32,
    pub day: u32,
}

pub open spec fn is_leap_year(y: int) -> bool {
    y % 4 == 0 && (y % 100 != 0 || y % 400 == 0)
}

pub open spec fn days_in_month(y: int, m: int) -> int {
    if m == 2 {
        if is_leap_year(y) { 29 } else { 28 }
    } else if m == 4 || m == 6 || m == 9 || m == 11 {
        30
    } else {
        31
    }
}

/// The first and last years of chrono's calendar.
pub const FIRST_YEAR: i32 = -262143;
pub const LAST_YEAR: i32 = 262142;

impl Date {
    pub open spec fn wf(&self) -> bool {
        &&& FIRST_YEAR <= self.year <= LAST_YEAR
        &&& 1 <= self.month <= 12
        &&& 1 <= self.day <= days_in_month(self.year as int, self.month as int)
    }

    /// The last date of chrono's calendar, which has no next day.
    pub open spec fn is_last(&self) -> bool {
        self.year == LAST_YEAR && self.month == 12 && self.day == 31
    }
}

/// The calendar day after `d`.
pub open spec fn day_after(d: Date) -> Date {
    if d.day < days_in_month(d.year as int, d.month as int) {
        Date { day: (d.day + 1) as u32, ..d }
    } else if d.month < 12 {
        Date { year: d.year, month: (d.month + 1) as u32, day: 1 }
    } else {
        Date { year: (d.year + 1) as i32, month: 1, day: 1 }
    }
}

/// A reading of the local wall clock: the local date and time of day, and
/// the same instant as seconds since the Unix epoch.
#[derive(Clone, Copy, Debug, PartialEq, Eq, Structural)]
pub struct Moment {
    pub date: Date,
    pub clock: Clock,
    pub stamp: i64,
}

impl Moment {
    pub open spec fn wf(&self) -> bool {
        self.date.wf() && self.clock.wf()
    }
}

/// What chrono reads from a `HH:MM:SS` time of day: hour, minute, second.
pub uninterp spec fn hms_of(s: Seq<char>) -> Option<(u32, u32, u32)>;

/// Relies on chrono's `NaiveTime::parse_from_str` with the format
/// `%H:%M:%S`, and on `Timelike`'s accessors, whose ranges chrono documents
/// (hour below 24, minute and second below 60).
#[verifier::external_body]
pub(crate) fn parse_hms(s: &str) -> (r: Option<(u32, u32, u32)>)
    ensures
        r == hms_of(s@),
        r matches Some((h, m, sec)) ==> h < 24 && m < 60 && sec < 60,
{
    match chrono::NaiveTime::parse_from_str(s, "%H:%M:%S") {
        Ok(t) => Some((t.hour(), t.minute(), t.second())),
        Err(_) => None,
    }
}

/// Relies on chrono's `NaiveDate::succ_opt`: the next calendar day, or none
/// after the last date of chrono's calendar.
#[verifier::external_body]
pub(crate) fn next_day(d: &Date) -> (r: Option<Date>)
    requires
        d.wf(),
    ensures
        r == (if d.is_last() { None } else { Some(day_after(*d)) }),
{
    match chrono::NaiveDate::from_ymd_opt(d.year, d.month, d.day).unwrap().succ_opt() {
        Some(n) => Some(Date { year: n.year(), month: n.month(), day: n.day() }),
        None => None,
    }
}

/// Relies on chrono's `Local::now`: the local date and time of day, which
/// chrono keeps within its calendar, and the Unix timestamp.
#[verifier::external_body]
pub(crate) fn local_now() -> (r: Moment)
    ensures
        r.wf(),
{
    let n = chrono::Local::now();
    Moment {
        date: Date { year: n.year(), month: n.month(), day: n.day() },
        clock: Clock { hour: n.hour(), minute: n.minute(), second: n.second() },
        stamp: n.timestamp(),
    }
}

/// Relies on chrono's `TimeZone::from_local_datetime` for `Local`, and
/// `LocalResult::single`: the instant at which the local clock shows this
/// date and time, if there is exactly one (none in a gap, none in a fold).
#[verifier::external_body]
pub(crate) fn local_instant(d: &Date, c: &Clock) -> (r: Option<i64>)
    requires
        d.wf(),
        c.wf(),
{
    let day = chrono::NaiveDate::from_ymd_opt(d.year, d.month, d.day).unwrap();
    let t = day.and_hms_opt(c.hour, c.minute, c.second).unwrap();
    match chrono::Local.from_local_datetime(&t).single() {
        Some(x) => Some(x.timestamp()),
        None => None,
    }
}

/// The local date, time of day and timestamp now.
pub fn now() -> (r: Moment)
    ensures
        r.wf(),
{
    local_now()
}

} // verus!
