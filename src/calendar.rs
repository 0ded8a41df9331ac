//! Calendar timestamps as the device reports them.
use vstd::prelude::*;

verus! {

pub open spec fn is_leap_year(year: int) -> bool {
    year % 4 == 0 && (year % 100 != 0 || year % 400 == 0)
}

pub open spec fn days_in_month(year: int, month: int) -> int {
    if month == 2 {
        if is_leap_year(year) { 29 } else { 28 }
    } else if month == 4 || month == 6 || month == 9 || month == 11 {
        30
    } else {
        31
    }
}

/// A date of the proleptic Gregorian calendar within years -9999 ..= 9999.
pub open spec fn is_calendar_date(year: i32, month: u8, day: u8) -> bool {
    &&& -9999 <= year <= 9999
    &&& 1 <= month <= 12
    &&& 1 <= day <= days_in_month(year as int, month as int)
}

pub open spec fn is_clock_time(hour: u8, minute: u8, second: u8) -> bool {
    hour < 24 && minute < 60 && second < 60
}

/// Relies on `time::Month::try_from` and `time::Date::from_calendar_date`:
/// a date is accepted exactly when the year lies within -9999 ..= 9999, the
/// month within 1 ..= 12 and the day within the month, leap years going by
/// the Gregorian rule.
#[verifier::external_body]
fn calendar_date_ok(year: i32, month: u8, day: u8) -> (r: bool)
    ensures
        r == is_calendar_date(year, month, day),
{
    match time::Month::try_from(month) {
        Ok(m) => time::Date::from_calendar_date(year, m, day).is_ok(),
        Err(_) => false,
    }
}

/// Relies on `time::Time::from_hms`: accepted exactly when hour, minute and
/// second are below 24, 60 and 60.
#[verifier::external_body]
fn clock_time_ok(hour: u8, minute: u8, second: u8) -> (r: bool)
    ensures
        r == is_clock_time(hour, minute, second),
{
    time::Time::from_hms(hour, minute, second).is_ok()
}

/// A date and a time of day, in UTC.
#[derive(Debug, PartialEq, Eq, Hash, Clone, Copy, Structural)]
pub struct Timestamp {
    pub year: i32,
    pub month: u8,
    pub day: u8,
    pub hour: u8,
    pub minute: u8,
    pub second: u8,
}

impl Timestamp {
    pub open spec fn wf(&self) -> bool {
        is_calendar_date(self.year, self.month, self.day) && is_clock_time(self.hour, self.minute, self.second)
    }

    /// The timestamp of the given fields, if they name a real date and time.
    pub fn new(year: i32, month: u8, day: u8, hour: u8, minute: u8, second: u8) -> (r: Option<Self>)
        ensures
            r == (if is_calendar_date(year, month, day) && is_clock_time(hour, minute, second) {
                Some(Timestamp { year, month, day, hour, minute, second })
            } else {
                None::<Timestamp>
            }),
    {
        if calendar_date_ok(year, month, day) && clock_time_ok(hour, minute, second) {
            Some(Timestamp { year, month, day, hour, minute, second })
        } else {
            None
        }
    }
}

} // verus!
