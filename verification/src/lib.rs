//! Calendar arithmetic on Gregorian dates: shifting a date by a signed
//! number of months with day-of-month clamping, and counting the whole
//! years between two dates.

pub mod date;
pub mod month_calc;
pub mod year_calc;

pub use date::CalendarDate;
pub use month_calc::MonthCalculations;
pub use year_calc::YearCalculations;
