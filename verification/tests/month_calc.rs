use date_calculations::date::CalendarDate;
use date_calculations::month_calc::MonthCalculations;

#[test]
fn test_day31() {
    let test_date = CalendarDate::new(2017, 3, 31);
    let new_date = test_date.add_months(1);
    assert_eq!(new_date.month(), 4);
    assert_eq!(new_date.day(), 30);
    assert_eq!(new_date.year(), 2017);
}

#[test]
fn test_day29() {
    let test_date = CalendarDate::new(2017, 1, 31);
    let new_date = test_date.add_months(1);
    assert_eq!(new_date.month(), 2);
    assert_eq!(new_date.day(), 28);
    assert_eq!(new_date.year(), 2017);
}

#[test]
fn test_day29_with_leapyear() {
    let test_date = CalendarDate::new(2016, 1, 31);
    let new_date = test_date.add_months(1);
    assert_eq!(new_date.month(), 2);
    assert_eq!(new_date.day(), 29);
    assert_eq!(new_date.year(), 2016);
}

#[test]
fn test_advance_months_within_year_under_12() {
    let test_date = CalendarDate::new(2018, 3, 15);
    let new_date = test_date.add_months(3);
    assert_eq!(new_date.month(), 6);
    assert_eq!(new_date.year(), 2018);
}

#[test]
fn test_advance_months_forward_year_under_12() {
    let test_date = CalendarDate::new(2018, 3, 15);
    let new_date = test_date.add_months(11);
    assert_eq!(new_date.month(), 2);
    assert_eq!(new_date.year(), 2019);
}

#[test]
fn test_advance_months_over_12() {
    let test_date = CalendarDate::new(2018, 3, 15);
    let new_date = test_date.add_months(23);
    assert_eq!(new_date.month(), 2);
    assert_eq!(new_date.year(), 2020);
}

#[test]
fn test_regress_months_within_year_under_12() {
    let test_date = CalendarDate::new(2018, 3, 15);
    let new_date = test_date.add_months(-2);
    assert_eq!(new_date.month(), 1);
    assert_eq!(new_date.year(), 2018);
}

#[test]
fn test_regress_months_rollback_year_under_12() {
    let test_date = CalendarDate::new(2018, 3, 15);
    let new_date = test_date.add_months(-7);
    assert_eq!(new_date.month(), 8);
    assert_eq!(new_date.year(), 2017);
}

#[test]
fn test_regress_months_over_12() {
    let test_date = CalendarDate::new(2018, 3, 15);
    let new_date = test_date.add_months(-23);
    assert_eq!(new_date.month(), 4);
    assert_eq!(new_date.year(), 2016);
}

#[test]
fn test_zero() {
    let test_date = CalendarDate::new(2018, 3, 15);
    let new_date = test_date.add_months(0);
    assert_eq!(new_date.month(), 3);
    assert_eq!(new_date.year(), 2018);
}

#[test]
fn test_zero_keeps_day() {
    let test_date = CalendarDate::new(2018, 3, 15);
    let new_date = test_date.add_months(0);
    assert_eq!(new_date, test_date);
}

#[test]
fn test_advance_months_over_12_keeps_day() {
    let test_date = CalendarDate::new(2018, 3, 15);
    let new_date = test_date.add_months(23);
    assert_eq!(new_date, CalendarDate::new(2020, 2, 15));
}

#[test]
fn test_regress_months_over_12_keeps_day() {
    let test_date = CalendarDate::new(2018, 3, 15);
    let new_date = test_date.add_months(-23);
    assert_eq!(new_date, CalendarDate::new(2016, 4, 15));
}

#[test]
fn test_round_trip_restores_month_and_year() {
    let test_date = CalendarDate::new(2018, 5, 20);
    let new_date = test_date.add_months(7).add_months(-7);
    assert_eq!(new_date, test_date);
}

#[test]
fn test_round_trip_day_stays_clamped() {
    let test_date = CalendarDate::new(2017, 3, 31);
    let new_date = test_date.add_months(1).add_months(-1);
    assert_eq!(new_date, CalendarDate::new(2017, 3, 30));
}

#[test]
fn test_shift_day31_into_long_month_keeps_day() {
    let test_date = CalendarDate::new(2018, 1, 31);
    let new_date = test_date.add_months(2);
    assert_eq!(new_date, CalendarDate::new(2018, 3, 31));
}

#[test]
fn test_shift_day31_into_short_month_clamps() {
    let test_date = CalendarDate::new(2018, 1, 31);
    let new_date = test_date.add_months(3);
    assert_eq!(new_date, CalendarDate::new(2018, 4, 30));
}

#[test]
fn test_century_year_is_not_leap() {
    let test_date = CalendarDate::new(1900, 1, 31);
    let new_date = test_date.add_months(1);
    assert_eq!(new_date, CalendarDate::new(1900, 2, 28));
}

#[test]
fn test_four_century_year_is_leap() {
    let test_date = CalendarDate::new(2000, 1, 31);
    let new_date = test_date.add_months(1);
    assert_eq!(new_date, CalendarDate::new(2000, 2, 29));
}

#[test]
fn test_regress_into_negative_year() {
    let test_date = CalendarDate::new(0, 1, 15);
    let new_date = test_date.add_months(-1);
    assert_eq!(new_date, CalendarDate::new(-1, 12, 15));
}

#[test]
fn test_year_zero_is_leap() {
    let test_date = CalendarDate::new(0, 1, 31);
    let new_date = test_date.add_months(1);
    assert_eq!(new_date, CalendarDate::new(0, 2, 29));
}

#[test]
fn test_with_closest_day_in_range() {
    let test_date = CalendarDate::new(2018, 3, 15);
    let new_date = test_date.with_closest_day(28);
    assert_eq!(new_date, CalendarDate::new(2018, 3, 28));
}

#[test]
fn test_with_closest_day_clamps_february() {
    let test_date = CalendarDate::new(2017, 2, 10);
    let new_date = test_date.with_closest_day(30);
    assert_eq!(new_date, CalendarDate::new(2017, 2, 28));
}

#[test]
fn test_with_closest_day_clamps_february_leapyear() {
    let test_date = CalendarDate::new(2016, 2, 10);
    let new_date = test_date.with_closest_day(30);
    assert_eq!(new_date, CalendarDate::new(2016, 2, 29));
}

#[test]
fn test_with_closest_day_caps_oversized_day() {
    let test_date = CalendarDate::new(2018, 7, 4);
    let new_date = test_date.with_closest_day(99);
    assert_eq!(new_date, CalendarDate::new(2018, 7, 31));
}
