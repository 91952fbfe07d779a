//! The day-of-month and month-of-year helper conversions and their
//! round trips.

use coe::{
    from_day_of_month, from_month_of_year, to_day_of_month, to_month_of_year, AnalogueCOEValue,
    FromDayOfMonthError, FromMonthOfYearError,
};

#[test]
fn day_of_month_values() {
    assert_eq!(to_day_of_month(17, 6), Some(AnalogueCOEValue::DayOfMonth(171)));
    assert_eq!(to_day_of_month(58, 6), None);
    assert_eq!(to_day_of_month(9, 14), None);
    assert_eq!(to_day_of_month(0, 5), None);
    assert_eq!(to_day_of_month(5, 0), None);
}

#[test]
fn day_of_month_inverse() {
    assert_eq!(from_day_of_month(AnalogueCOEValue::DayOfMonth(173)), Ok((19, 6)));
    assert_eq!(
        from_day_of_month(AnalogueCOEValue::DayOfMonth(-1234)),
        Err(FromDayOfMonthError::ValueOutOfBounds(-1234))
    );
    assert_eq!(
        from_day_of_month(AnalogueCOEValue::DayOfMonth(31 * 12)),
        Err(FromDayOfMonthError::ValueOutOfBounds(31 * 12))
    );
    assert_eq!(
        from_day_of_month(AnalogueCOEValue::DegreeKelvin_Tens(123)),
        Err(FromDayOfMonthError::NotDayOfMonth)
    );
}

#[test]
fn day_of_month_roundtrip() {
    assert_eq!(from_day_of_month(to_day_of_month(9, 12).unwrap()), Ok((9, 12)));
    assert_eq!(from_day_of_month(to_day_of_month(1, 1).unwrap()), Ok((1, 1)));
    assert_eq!(from_day_of_month(to_day_of_month(31, 12).unwrap()), Ok((31, 12)));
}

#[test]
fn month_of_year_values() {
    assert_eq!(to_month_of_year(8, 1852), Some(AnalogueCOEValue::MonthOfYear(22231)));
    assert_eq!(to_month_of_year(58, 6), None);
    assert_eq!(to_month_of_year(0, 6), None);
}

#[test]
fn month_of_year_inverse() {
    assert_eq!(from_month_of_year(AnalogueCOEValue::MonthOfYear(22231)), Ok((8, 1852)));
    assert_eq!(
        from_month_of_year(AnalogueCOEValue::MonthOfYear(13 * u16::MAX as i32)),
        Err(FromMonthOfYearError::ValueOutOfBounds(13 * u16::MAX as i32))
    );
    assert_eq!(
        from_month_of_year(AnalogueCOEValue::MonthOfYear(-1)),
        Err(FromMonthOfYearError::ValueOutOfBounds(-1))
    );
    assert_eq!(
        from_month_of_year(AnalogueCOEValue::DegreeKelvin_Tens(123)),
        Err(FromMonthOfYearError::NotMonthOfYear)
    );
}

#[test]
fn month_of_year_roundtrip() {
    assert_eq!(from_month_of_year(to_month_of_year(5, 325).unwrap()), Ok((5, 325)));
    assert_eq!(from_month_of_year(to_month_of_year(1, 0).unwrap()), Ok((1, 0)));
    assert_eq!(from_month_of_year(to_month_of_year(12, 65535).unwrap()), Ok((12, 65535)));
}
