//! The values that the recognizers produce: a calendar date, a time of day,
//! and the two together with an offset from UTC.

use vstd::prelude::*;

verus! {

/// A day of the proleptic Gregorian calendar.
#[derive(Clone, Copy, Debug, PartialEq, Eq, Structural)]
pub struct Date {
    pub year: i32,
    /// 1 for January up to 12 for December.
    pub month: u32,
    /// Day of the month, counted from 1.
    pub day: u32,
}

/// A time of day.
#[derive(Clone, Copy, Debug, PartialEq, Eq, Structural)]
pub struct Time {
    pub hour: u32,
    pub minute: u32,
    pub second: u32,
    /// Nanoseconds since the whole second. A value of 1_000_000_000 or more
    /// marks a leap second.
    pub nanosecond: u32,
}

/// A date and time of day as a wall clock shows them at `offset` seconds
/// east of UTC.
#[derive(Clone, Copy, Debug, PartialEq, Eq, Structural)]
pub struct Timestamp {
    pub date: Date,
    pub time: Time,
    /// Seconds east of UTC; zero is UTC itself.
    pub offset: i32,
}

/// Whether `year` has a 29th of February. Years are counted as astronomers
/// do: the year before year 1 is year 0.
pub open spec fn is_leap_year(year: int) -> bool {
    year % 4 == 0 && (year % 100 != 0 || year % 400 == 0)
}

/// The number of days of month `month` in `year`.
pub open spec fn days_in_month(year: int, month: int) -> int {
    if month == 2 {
        if is_leap_year(year) {
            29
        } else {
            28
        }
    } else if month == 4 || month == 6 || month == 9 || month == 11 {
        30
    } else {
        31
    }
}

impl Date {
    /// The day exists: the month is one of the twelve and has that day in
    /// that year.
    pub open spec fn well_formed(self) -> bool {
        &&& 1 <= self.month <= 12
        &&& 1 <= self.day <= days_in_month(self.year as int, self.month as int)
    }
}

impl Time {
    /// Each field lies in the range of a clock.
    pub open spec fn well_formed(self) -> bool {
        &&& self.hour < 24
        &&& self.minute < 60
        &&& self.second < 60
        &&& self.nanosecond < 2_000_000_000
    }

    /// 00:00:00.
    pub open spec fn midnight_spec() -> Time {
        Time { hour: 0, minute: 0, second: 0, nanosecond: 0 }
    }

    /// The first instant of a day.
    pub fn midnight() -> (t: Time)
        ensures
            t == Time::midnight_spec(),
            t.well_formed(),
    {
        Time { hour: 0, minute: 0, second: 0, nanosecond: 0 }
    }
}

impl Timestamp {
    /// Date and time are well formed and the offset is less than a day.
    pub open spec fn well_formed(self) -> bool {
        &&& self.date.well_formed()
        &&& self.time.well_formed()
        &&& -86_400 < self.offset < 86_400
    }

    /// `date` and `time` read as UTC.
    pub open spec fn utc_spec(date: Date, time: Time) -> Timestamp {
        Timestamp { date, time, offset: 0 }
    }

    /// Takes `date` and `time` to be UTC already: the result carries them
    /// unchanged, with offset zero.
    pub fn utc(date: Date, time: Time) -> (t: Timestamp)
        ensures
            t == Timestamp::utc_spec(date, time),
            date.well_formed() && time.well_formed() ==> t.well_formed(),
    {
        Timestamp { date, time, offset: 0 }
    }
}

} // verus!
