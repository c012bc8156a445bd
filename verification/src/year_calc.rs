//! Counting the signed whole years between two dates.  Both dates are
//! expected in one common reference frame; converting a timestamp from
//! its own zone into such a frame is the caller's business.

use vstd::prelude::*;

use crate::date::CalendarDate;

verus! {

/// Whether `a`'s month/day position falls strictly earlier in the
/// calendar than `b`'s: a smaller month, or the same month with a
/// strictly smaller day.  Day equality counts as reached.
pub open spec fn month_day_before(a: CalendarDate, b: CalendarDate) -> bool {
    a.month < b.month || (a.month == b.month && a.day < b.day)
}

/// The signed whole years from `b` to `a`: the year difference,
/// lowered in magnitude by one when `a`'s month/day has not yet
/// reached `b`'s anniversary in the comparison direction.  Two dates
/// in the same year always give 0, whatever their month/day order.
pub open spec fn spec_years_since(a: CalendarDate, b: CalendarDate) -> int {
    let base = a.year - b.year;
    if base == 0 {
        0
    } else if base > 0 {
        if month_day_before(a, b) {
            base - 1
        } else {
            base
        }
    } else {
        if month_day_before(a, b) {
            base + 1
        } else {
            base
        }
    }
}

/// -1 when `a`'s month/day is strictly before `b`'s, 0 otherwise.
fn cmp_month_day(a: &CalendarDate, b: &CalendarDate) -> (r: i32)
    ensures
        r == if month_day_before(*a, *b) { -1int } else { 0int },
{
    if a.month < b.month {
        -1
    } else if a.month > b.month {
        0
    } else if a.day < b.day {
        -1
    } else {
        0
    }
}

/// Year calculations between two dates.  The standard duration types
/// cannot express whole calendar years (month lengths and leap years
/// get in the way), so the count is made from the date fields.
pub trait YearCalculations: Sized {
    /// The inputs `years_since` accepts.
    spec fn years_since_req(&self, b: &Self) -> bool;

    /// What `years_since` returns.
    spec fn years_since_ens(&self, b: &Self, r: i32) -> bool;

    /// Returns the number of whole years between `self` and `b` as a
    /// signed integer: positive when `self` is later, negative when
    /// earlier, 0 for two dates of the same year.
    fn years_since(&self, b: &Self) -> (r: i32)
        requires
            self.years_since_req(b),
        ensures
            self.years_since_ens(b, r),
    ;
}

impl YearCalculations for CalendarDate {
    /// The year difference must fit the result type.
    open spec fn years_since_req(&self, b: &Self) -> bool {
        i32::MIN <= self.year - b.year <= i32::MAX
    }

    /// The result is exactly the signed whole-year count.
    open spec fn years_since_ens(&self, b: &Self, r: i32) -> bool {
        r == spec_years_since(*self, *b)
    }

    fn years_since(&self, b: &Self) -> (r: i32) {
        let base_years: i64 = self.year as i64 - b.year as i64;
        if base_years == 0 {
            0
        } else if base_years > 0 {
            base_years as i32 + cmp_month_day(self, b)
        } else {
            base_years as i32 - cmp_month_day(self, b)
        }
    }
}

/// The year count from a date to itself is 0.
pub proof fn lemma_years_since_self(t: CalendarDate)
    ensures
        spec_years_since(t, t) == 0,
{
}

} // verus!
