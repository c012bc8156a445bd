//! Shifting a date by a signed number of months, clamping the day of
//! the month to the length of the destination month.

use vstd::prelude::*;
use vstd::arithmetic::div_mod::{
    lemma_fundamental_div_mod,
    lemma_fundamental_div_mod_converse,
    lemma_mod_bound,
};

use crate::date::{CalendarDate, clamped_day, days_in_month, is_leap_year, month_length};

verus! {

impl CalendarDate {
    /// The year reached by moving `num_months` months away: the raw
    /// zero-based month `month - 1 + num_months` carries whole dozens
    /// into the year, rounding toward negative infinity.
    pub open spec fn shifted_year(self, num_months: int) -> int {
        self.year + (self.month - 1 + num_months) / 12
    }

    /// The month reached by moving `num_months` months away, 1-based.
    pub open spec fn shifted_month(self, num_months: int) -> int {
        (self.month - 1 + num_months) % 12 + 1
    }

    /// The day after the shift: the input date's day, clamped to the
    /// length of the destination month in the destination year.
    pub open spec fn shifted_day(self, num_months: int) -> int {
        clamped_day(self.shifted_year(num_months), self.shifted_month(num_months), self.day as int)
    }

    /// The date `num_months` months away from `self`.
    pub open spec fn months_added(self, num_months: int) -> CalendarDate {
        CalendarDate {
            year: self.shifted_year(num_months) as i32,
            month: self.shifted_month(num_months) as u32,
            day: self.shifted_day(num_months) as u32,
        }
    }

    /// Whether the destination year stays representable.
    pub open spec fn shift_fits(self, num_months: int) -> bool {
        i32::MIN <= self.shifted_year(num_months) <= i32::MAX
    }
}

/// By-month calculations on a calendar value: implementors return a
/// new instance of themselves with the transformation applied.
pub trait MonthCalculations: Sized {
    /// The inputs `add_months` accepts.
    spec fn add_months_req(&self, num_months: i32) -> bool;

    /// What `add_months` returns.
    spec fn add_months_ens(&self, num_months: i32, r: Self) -> bool;

    /// The inputs `with_closest_day` accepts.
    spec fn with_closest_day_req(&self, day: u32) -> bool;

    /// What `with_closest_day` returns.
    spec fn with_closest_day_ens(&self, day: u32, r: Self) -> bool;

    /// Add a positive or negative number of months to self and return
    /// a new instance of self with the transformation applied.
    fn add_months(&self, num_months: i32) -> (r: Self)
        requires
            self.add_months_req(num_months),
        ensures
            self.add_months_ens(num_months, r),
    ;

    /// Set the day of the month and return the result.  If there is no
    /// such day in the month, the day is set to the last day of the
    /// month instead (for example, asking for day 30 of a February
    /// gives February 28, or February 29 in a leap year).
    fn with_closest_day(&self, day: u32) -> (r: Self)
        requires
            self.with_closest_day_req(day),
        ensures
            self.with_closest_day_ens(day, r),
    ;
}

impl MonthCalculations for CalendarDate {
    /// The date must be well formed and the destination year must fit.
    open spec fn add_months_req(&self, num_months: i32) -> bool {
        self.wf() && self.shift_fits(num_months as int)
    }

    /// The result is exactly the shifted date, and is well formed.
    open spec fn add_months_ens(&self, num_months: i32, r: Self) -> bool {
        r == self.months_added(num_months as int) && r.wf()
    }

    /// The date must be well formed and the day at least 1.
    open spec fn with_closest_day_req(&self, day: u32) -> bool {
        self.wf() && day >= 1
    }

    /// Year and month are kept; the day is clamped to this month.
    open spec fn with_closest_day_ens(&self, day: u32, r: Self) -> bool {
        &&& r.year == self.year
        &&& r.month == self.month
        &&& r.day == clamped_day(self.year as int, self.month as int, day as int)
        &&& r.wf()
    }

    fn add_months(&self, num_months: i32) -> (r: Self) {
        let raw: i64 = self.month as i64 - 1 + num_months as i64;
        proof {
            lemma_fundamental_div_mod(raw as int, 12);
            lemma_mod_bound(raw as int, 12);
        }
        let years_change: i64 = raw.checked_div_euclid(12).unwrap();
        let new_month0: i64 = raw.checked_rem_euclid(12).unwrap();
        let new_year: i32 = (self.year as i64 + years_change) as i32;
        let new_month: u32 = (new_month0 + 1) as u32;
        let first_of_month = CalendarDate { year: new_year, month: new_month, day: 1 };
        first_of_month.with_closest_day(self.day)
    }

    fn with_closest_day(&self, day: u32) -> (r: Self) {
        let check_day = if day > 31 { 31 } else { day };
        let limit = month_length(self.year, self.month);
        let actual_day = if check_day > limit { limit } else { check_day };
        CalendarDate { year: self.year, month: self.month, day: actual_day }
    }
}

/// Shifting a date by zero months returns it unchanged.
pub proof fn lemma_add_months_zero(t: CalendarDate)
    requires
        t.wf(),
    ensures
        t.months_added(0) == t,
{
    lemma_fundamental_div_mod_converse(t.month - 1, 12, 0, t.month - 1);
}

/// Shifting by `n` months and then by `-n` months restores the year
/// and the month.  The day may stay clamped, so the whole date need
/// not come back; it does whenever the first shift did not clamp it.
pub proof fn lemma_add_months_round_trip(t: CalendarDate, n: int)
    requires
        t.wf(),
        t.shift_fits(n),
    ensures
        t.months_added(n).months_added(-n).year == t.year,
        t.months_added(n).months_added(-n).month == t.month,
        t.day <= days_in_month(t.shifted_year(n), t.shifted_month(n))
            ==> t.months_added(n).months_added(-n) == t,
{
    let m0 = t.month - 1;
    let yd = (m0 + n) / 12;
    let m0p = (m0 + n) % 12;
    lemma_fundamental_div_mod(m0 + n, 12);
    lemma_mod_bound(m0 + n, 12);
    assert(m0p - n == (-yd) * 12 + m0);
    lemma_fundamental_div_mod_converse(m0p - n, 12, -yd, m0);
}

/// Shifting into a month with 31 days never clamps the day.
pub proof fn lemma_shift_into_long_month_keeps_day(t: CalendarDate, n: int)
    requires
        t.wf(),
        t.shifted_month(n) == 1 || t.shifted_month(n) == 3 || t.shifted_month(n) == 5
            || t.shifted_month(n) == 7 || t.shifted_month(n) == 8 || t.shifted_month(n) == 10
            || t.shifted_month(n) == 12,
    ensures
        t.months_added(n).day == t.day,
{
}

/// Shifting day 31 into a month with 30 days clamps it down to 30.
pub proof fn lemma_shift_into_short_month_clamps(t: CalendarDate, n: int)
    requires
        t.wf(),
        t.day == 31,
        t.shifted_month(n) == 4 || t.shifted_month(n) == 6 || t.shifted_month(n) == 9
            || t.shifted_month(n) == 11,
    ensures
        t.months_added(n).day == 30,
{
}

/// Shifting into February clamps a day of 30 or more down to 29 when
/// the destination year is a leap year, and a day of 29 or more down
/// to 28 otherwise.
pub proof fn lemma_shift_into_february_clamps(t: CalendarDate, n: int)
    requires
        t.wf(),
        t.shifted_month(n) == 2,
    ensures
        is_leap_year(t.shifted_year(n)) && t.day >= 30 ==> t.months_added(n).day == 29,
        !is_leap_year(t.shifted_year(n)) && t.day >= 29 ==> t.months_added(n).day == 28,
        t.day < 29 ==> t.months_added(n).day == t.day,
{
}

} // verus!
