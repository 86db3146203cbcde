//! Calendar dates, and the questions that are put to chrono about them.

use vstd::prelude::*;
use chrono::Datelike;
use chrono::NaiveDate;

verus! {

/// First year for which chrono has dates.
pub const MIN_YEAR: i32 = -262143;

/// Last year for which chrono has dates.
pub const MAX_YEAR: i32 = 262142;

/// Whether `year` is a leap year of the Gregorian calendar.
pub open spec fn is_leap_year(year: int) -> bool {
    year % 4 == 0 && (year % 100 != 0 || year % 400 == 0)
}

/// Length of a month in the Gregorian calendar.
pub open spec fn gregorian_month_length(year: int, month: int) -> int
    recommends
        1 <= month <= 12,
{
    if month == 2 {
        if is_leap_year(year) {
            29
        } else {
            28
        }
    } else if month == 4 || month == 6 || month == 9 || month == 11 {
        30
    } else {
        31
    }
}

/// Whether `year`, `month`, `day` name a day of the proleptic Gregorian
/// calendar in a year that chrono can represent.
pub open spec fn is_calendar_date(year: int, month: int, day: int) -> bool {
    &&& MIN_YEAR <= year <= MAX_YEAR
    &&& 1 <= month <= 12
    &&& 1 <= day <= gregorian_month_length(year, month)
}

/// The day of the week on which a calendar date falls, as chrono numbers
/// it: 0 for Monday up to 6 for Sunday.
pub uninterp spec fn weekday_number(year: int, month: int, day: int) -> int;

/// Looks a date up with chrono's `NaiveDate::from_ymd_opt` and, where chrono
/// has the date, asks for its `Datelike::weekday`, numbered by
/// `Weekday::num_days_from_monday`.
///
/// Trusted, not proved: chrono has exactly the days of the proleptic
/// Gregorian calendar in the years `MIN_YEAR` to `MAX_YEAR`; the weekday of
/// a date depends on the date alone; and its number lies in 0 to 6.
#[verifier::external_body]
pub(crate) fn lookup_weekday(year: i32, month: u32, day: u32) -> (weekday: Option<u32>)
    ensures
        weekday.is_some() <==> is_calendar_date(year as int, month as int, day as int),
        weekday matches Some(n) ==> n == weekday_number(year as int, month as int, day as int)
            && n <= 6,
{
    match NaiveDate::from_ymd_opt(year, month, day) {
        Some(date) => Some(date.weekday().num_days_from_monday()),
        None => None,
    }
}

/// A day of the proleptic Gregorian calendar, by its three numbers.
#[derive(Clone, Copy, Debug, PartialEq, Eq, Structural)]
pub struct Date {
    /// The year, where 0 is 1 BCE.
    pub year: i32,
    /// The month, from 1.
    pub month: u32,
    /// The day of the month, from 1.
    pub day: u32,
}

impl Date {
    /// Whether the calendar has this day. Every `Date` that this library
    /// hands out is valid.
    pub open spec fn is_valid(&self) -> bool {
        is_calendar_date(self.year as int, self.month as int, self.day as int)
    }

    /// The date with the given numbers, if there is such a day.
    pub open spec fn spec_from_ymd(year: int, month: int, day: int) -> Option<Date> {
        if is_calendar_date(year, month, day) {
            Some(Date { year: year as i32, month: month as u32, day: day as u32 })
        } else {
            None
        }
    }

    /// Makes the date from its numbers, or `None` where the calendar has no
    /// such day or the year is out of range.
    pub fn from_ymd_opt(year: i32, month: u32, day: u32) -> (date: Option<Date>)
        ensures
            date == Self::spec_from_ymd(year as int, month as int, day as int),
            date matches Some(d) ==> d.is_valid() && d.year == year && d.month == month && d.day
                == day,
            date is Some <==> is_calendar_date(year as int, month as int, day as int),
    {
        match lookup_weekday(year, month, day) {
            Some(_) => Some(Date { year, month, day }),
            None => None,
        }
    }
}

} // verus!
