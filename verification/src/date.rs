//! The calendar-date value the arithmetic works on, and the shared
//! Gregorian helpers: leap years and month lengths.

use vstd::prelude::*;

verus! {

/// A Gregorian calendar date: a signed year, a month in 1..=12 and a
/// day in 1..=31 (at most the length of the month).  Sub-day fields of
/// a full timestamp (time of day, zone) play no part in the arithmetic
/// and are kept by the caller.
#[derive(Clone, Copy, Debug, PartialEq, Eq, Structural)]
pub struct CalendarDate {
    pub year: i32,
    pub month: u32,
    pub day: u32,
}

/// The Gregorian leap-year rule: divisible by 4, and if divisible by
/// 100 then also divisible by 400.
pub open spec fn is_leap_year(year: int) -> bool {
    year % 4 == 0 && (year % 100 != 0 || year % 400 == 0)
}

/// How many days the given month has in the given year.
pub open spec fn days_in_month(year: int, month: int) -> int {
    if month == 2 {
        if is_leap_year(year) {
            29
        } else {
            28
        }
    } else if month == 4 || month == 6 || month == 9 || month == 11 {
        30
    } else {
        31
    }
}

/// The day `day` clamped from above to the length of the given month
/// of the given year.
pub open spec fn clamped_day(year: int, month: int, day: int) -> int {
    if day <= days_in_month(year, month) {
        day
    } else {
        days_in_month(year, month)
    }
}

impl CalendarDate {
    /// A date is well formed when its month is a real month and its
    /// day exists in that month of that year.
    pub open spec fn wf(self) -> bool {
        &&& 1 <= self.month <= 12
        &&& 1 <= self.day <= days_in_month(self.year as int, self.month as int)
    }

    /// Builds the date `year-month-day`.
    pub fn new(year: i32, month: u32, day: u32) -> (d: Self)
        requires
            1 <= month <= 12,
            1 <= day <= days_in_month(year as int, month as int),
        ensures
            d == (CalendarDate { year, month, day }),
            d.wf(),
    {
        CalendarDate { year, month, day }
    }

    /// The year field.
    pub fn year(&self) -> (y: i32)
        ensures
            y == self.year,
    {
        self.year
    }

    /// The month field, 1-based.
    pub fn month(&self) -> (m: u32)
        ensures
            m == self.month,
    {
        self.month
    }

    /// The day-of-month field, 1-based.
    pub fn day(&self) -> (d: u32)
        ensures
            d == self.day,
    {
        self.day
    }
}

/// Decides the leap-year rule for any year, negative years included.
pub fn leap_year(year: i32) -> (r: bool)
    ensures
        r == is_leap_year(year as int),
{
    let r4 = year.checked_rem_euclid(4).unwrap();
    let r100 = year.checked_rem_euclid(100).unwrap();
    let r400 = year.checked_rem_euclid(400).unwrap();
    r4 == 0 && (r100 != 0 || r400 == 0)
}

/// Returns the number of days in the given month of the given year.
pub fn month_length(year: i32, month: u32) -> (d: u32)
    requires
        1 <= month <= 12,
    ensures
        d == days_in_month(year as int, month as int),
{
    if month == 2 {
        if leap_year(year) {
            29
        } else {
            28
        }
    } else if month == 4 || month == 6 || month == 9 || month == 11 {
        30
    } else {
        31
    }
}

} // verus!
