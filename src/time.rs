use chrono::{Datelike, NaiveDate, NaiveDateTime, Timelike};
use vstd::prelude::*;

use crate::query::digit_char;

verus! {

/// A point in time on the UTC calendar, field by field.
pub struct CivilTime {
    pub year: int,
    pub month: int,
    pub day: int,
    pub hour: int,
    pub minute: int,
    pub second: int,
    pub nanosecond: int,
}

pub open spec fn is_leap_year(year: int) -> bool {
    (year % 4 == 0 && year % 100 != 0) || year % 400 == 0
}

pub open spec fn days_in_month(year: int, month: int) -> int {
    if month == 2 {
        if is_leap_year(year) {
            29
        } else {
            28
        }
    } else if month == 4 || month == 6 || month == 9 || month == 11 {
        30
    } else {
        31
    }
}

/// A valid time of a four-digit year of the Gregorian calendar.
pub open spec fn valid_time(t: CivilTime) -> bool {
    &&& 0 <= t.year <= 9999
    &&& 1 <= t.month <= 12
    &&& 1 <= t.day <= days_in_month(t.year, t.month)
    &&& 0 <= t.hour < 24
    &&& 0 <= t.minute < 60
    &&& 0 <= t.second < 60
    &&& 0 <= t.nanosecond < 1_000_000_000
}

pub open spec fn civil(
    year: i32,
    month: u32,
    day: u32,
    hour: u32,
    minute: u32,
    second: u32,
    nanosecond: u32,
) -> CivilTime {
    CivilTime {
        year: year as int,
        month: month as int,
        day: day as int,
        hour: hour as int,
        minute: minute as int,
        second: second as int,
        nanosecond: nanosecond as int,
    }
}

/// The fields of a parsed time, in the order year, month, day, hour,
/// minute, second, nanosecond.
pub type TimeFields = (i32, u32, u32, u32, u32, u32, u32);

pub open spec fn fields_time(f: TimeFields) -> CivilTime {
    civil(f.0, f.1, f.2, f.3, f.4, f.5, f.6)
}

pub open spec fn two_digits(n: int) -> Seq<char> {
    seq![digit_char(n / 10), digit_char(n % 10)]
}

pub open spec fn four_digits(n: int) -> Seq<char> {
    seq![digit_char(n / 1000), digit_char((n / 100) % 10), digit_char((n / 10) % 10), digit_char(n % 10)]
}

/// `YYYY-MM-DDTHH:MM:SS`, each field zero-padded, without fraction or offset.
pub open spec fn seconds_text(t: CivilTime) -> Seq<char> {
    four_digits(t.year) + seq!['-'] + two_digits(t.month) + seq!['-'] + two_digits(t.day)
        + seq!['T'] + two_digits(t.hour) + seq![':'] + two_digits(t.minute) + seq![':']
        + two_digits(t.second)
}

/// The pattern of timestamps on the wire: an ISO-8601 date and time without
/// offset, with an optional fraction of a second, read as UTC.
pub const WIRE_TIME_PATTERN: &'static str = "%Y-%m-%dT%H:%M:%S%.f";

/// The pattern of timestamps in query parameters: to the second, without
/// fraction or offset.
pub const QUERY_TIME_PATTERN: &'static str = "%Y-%m-%dT%H:%M:%S";

/// The calendar fields that chrono reads from `text` under the strftime
/// `pattern`, or `None` where the text does not follow it.
pub uninterp spec fn parsed_time(text: Seq<char>, pattern: Seq<char>) -> Option<TimeFields>;

/// Relies on chrono's `NaiveDateTime::parse_from_str`: the fields of the
/// date and time that `text` spells under `pattern`, or `None` where it does
/// not parse. The result depends on the two strings alone.
#[verifier::external_body]
fn parse_time_fields(text: &str, pattern: &str) -> (r: Option<TimeFields>)
    ensures
        r == parsed_time(text@, pattern@),
{
    match NaiveDateTime::parse_from_str(text, pattern) {
        Ok(t) => Some((t.year(), t.month(), t.day(), t.hour(), t.minute(), t.second(), t.nanosecond())),
        Err(_) => None,
    }
}

/// Relies on chrono's `NaiveDateTime::format` under the pattern
/// `%Y-%m-%dT%H:%M:%S`: a year of 0..=9999 as four digits, the other fields
/// as two, all zero-padded, and the separators as written. chrono builds the
/// date and time from the fields, which are valid here.
#[verifier::external_body]
fn format_time(
    year: i32,
    month: u32,
    day: u32,
    hour: u32,
    minute: u32,
    second: u32,
    pattern: &str,
) -> (r: String)
    requires
        valid_time(civil(year, month, day, hour, minute, second, 0)),
        pattern@ == QUERY_TIME_PATTERN@,
    ensures
        r@ == seconds_text(civil(year, month, day, hour, minute, second, 0)),
{
    match NaiveDate::from_ymd_opt(year, month, day) {
        Some(date) => match date.and_hms_opt(hour, minute, second) {
            Some(t) => t.format(pattern).to_string(),
            None => String::new(),
        },
        None => String::new(),
    }
}

/// A valid UTC time of a four-digit year, to the nanosecond.
#[derive(Debug, Clone, Copy, PartialEq, Eq, Structural, Hash)]
pub struct Timestamp {
    year: i32,
    month: u32,
    day: u32,
    hour: u32,
    minute: u32,
    second: u32,
    nanosecond: u32,
}

impl View for Timestamp {
    type V = CivilTime;

    closed spec fn view(&self) -> CivilTime {
        civil(self.year, self.month, self.day, self.hour, self.minute, self.second, self.nanosecond)
    }
}

fn month_length(year: i32, month: u32) -> (r: u32)
    requires
        0 <= year <= 9999,
        1 <= month <= 12,
    ensures
        r == days_in_month(year as int, month as int),
{
    if month == 2 {
        if (year % 4 == 0 && year % 100 != 0) || year % 400 == 0 {
            29
        } else {
            28
        }
    } else if month == 4 || month == 6 || month == 9 || month == 11 {
        30
    } else {
        31
    }
}

impl Timestamp {
    #[verifier::type_invariant]
    spec fn well_formed(self) -> bool {
        valid_time(self@)
    }

    /// The time with the given fields, or `None` where they do not form a
    /// valid time of a four-digit year.
    pub fn new(
        year: i32,
        month: u32,
        day: u32,
        hour: u32,
        minute: u32,
        second: u32,
        nanosecond: u32,
    ) -> (r: Option<Self>)
        ensures
            r is Some <==> valid_time(civil(year, month, day, hour, minute, second, nanosecond)),
            r is Some ==> r->0@ == civil(year, month, day, hour, minute, second, nanosecond),
    {
        if year < 0 || year > 9999 || month < 1 || month > 12 {
            return None;
        }
        if day < 1 || day > month_length(year, month) {
            return None;
        }
        if hour >= 24 || minute >= 60 || second >= 60 || nanosecond >= 1_000_000_000 {
            return None;
        }
        Some(Timestamp { year, month, day, hour, minute, second, nanosecond })
    }

    /// The time at the start of the given second.
    pub fn from_ymd_hms(year: i32, month: u32, day: u32, hour: u32, minute: u32, second: u32) -> (r:
        Option<Self>)
        ensures
            r is Some <==> valid_time(civil(year, month, day, hour, minute, second, 0)),
            r is Some ==> r->0@ == civil(year, month, day, hour, minute, second, 0),
    {
        Self::new(year, month, day, hour, minute, second, 0)
    }

    /// The time that a timestamp of the wire format spells, or `None` where
    /// the text does not parse or names no time of a four-digit year.
    pub fn parse(text: &str) -> (r: Option<Self>)
        ensures
            r is Some <==> (parsed_time(text@, WIRE_TIME_PATTERN@) is Some && valid_time(
                fields_time(parsed_time(text@, WIRE_TIME_PATTERN@)->0),
            )),
            r is Some ==> r->0@ == fields_time(parsed_time(text@, WIRE_TIME_PATTERN@)->0),
    {
        match parse_time_fields(text, WIRE_TIME_PATTERN) {
            Some(f) => Self::new(f.0, f.1, f.2, f.3, f.4, f.5, f.6),
            None => None,
        }
    }

    /// The time to the second, as query parameters give it:
    /// `YYYY-MM-DDTHH:MM:SS`.
    pub fn to_query_text(&self) -> (r: String)
        ensures
            r@ == seconds_text(self@),
    {
        proof {
            use_type_invariant(self);
        }
        format_time(
            self.year,
            self.month,
            self.day,
            self.hour,
            self.minute,
            self.second,
            QUERY_TIME_PATTERN,
        )
    }

    pub fn year(&self) -> (r: i32)
        ensures
            r == self@.year,
    {
        self.year
    }

    pub fn month(&self) -> (r: u32)
        ensures
            r == self@.month,
    {
        self.month
    }

    pub fn day(&self) -> (r: u32)
        ensures
            r == self@.day,
    {
        self.day
    }

    pub fn hour(&self) -> (r: u32)
        ensures
            r == self@.hour,
    {
        self.hour
    }

    pub fn minute(&self) -> (r: u32)
        ensures
            r == self@.minute,
    {
        self.minute
    }

    pub fn second(&self) -> (r: u32)
        ensures
            r == self@.second,
    {
        self.second
    }

    pub fn nanosecond(&self) -> (r: u32)
        ensures
            r == self@.nanosecond,
    {
        self.nanosecond
    }
}

} // verus!
