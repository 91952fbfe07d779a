//! Helper conversions between calendar fields and the packed integers that
//! the `DayOfMonth` and `MonthOfYear` values carry on the wire.
//!
//! These are free functions rather than methods on the value union, so that
//! the conversions are only offered where they make sense.

use crate::values::AnalogueCOEValue;
use vstd::arithmetic::div_mod::lemma_fundamental_div_mod_converse;
use vstd::prelude::*;

verus! {

/// The packed day-of-month representation: `day - 1 + 31 * (month - 1)`.
pub open spec fn spec_day_of_month_raw(day: u8, month: u8) -> int {
    (day - 1) + 31 * (month - 1)
}

/// The largest packed day-of-month value: the 31st day of the 12th month.
pub open spec fn day_of_month_max() -> int {
    (30 + 31 * 11) as int
}

/// The packed month-of-year representation: `month - 1 + 12 * year`.
pub open spec fn spec_month_of_year_raw(month: u8, year: u16) -> int {
    (month - 1) + 12 * year
}

/// The largest packed month-of-year value: the 12th month of year 65535.
pub open spec fn month_of_year_max() -> int {
    (11 + 12 * 0xffff) as int
}

/// Convert a day and month into the packed format used in CoE.
///
/// This does not check whether the month actually has that day (the 30th of
/// February is accepted). A day outside `1..=31` or a month outside `1..=12`
/// yields no value.
pub fn to_day_of_month(day: u8, month: u8) -> (r: Option<AnalogueCOEValue>)
    ensures
        1 <= day <= 31 && 1 <= month <= 12 ==> r == Some(
            AnalogueCOEValue::DayOfMonth(spec_day_of_month_raw(day, month) as i32),
        ),
        !(1 <= day <= 31 && 1 <= month <= 12) ==> r is None,
{
    if day < 1 || day > 31 {
        return None;
    }
    if month < 1 || month > 12 {
        return None;
    }
    Some(AnalogueCOEValue::DayOfMonth((day - 1) as i32 + (month - 1) as i32 * 31))
}

/// The errors that can occur when unpacking a day-of-month value.
#[derive(Hash, Debug, PartialEq, Eq, Structural, Clone, Copy)]
pub enum FromDayOfMonthError {
    /// The supplied value was not a `DayOfMonth`.
    NotDayOfMonth,
    /// The packed integer is out of bounds for a day and month pair.
    ValueOutOfBounds(i32),
}

/// Unpack a `DayOfMonth` value into the day and month it encodes.
///
/// Only packed values in `0..=30 + 31 * 11` unpack; anything else is out of
/// bounds, and a value of any other variant is a type mismatch.
pub fn from_day_of_month(value: AnalogueCOEValue) -> (r: Result<(u8, u8), FromDayOfMonthError>)
    ensures
        value matches AnalogueCOEValue::DayOfMonth(x) ==> {
            &&& 0 <= x <= day_of_month_max() ==> r == Ok::<(u8, u8), FromDayOfMonthError>(
                ((1 + x % 31) as u8, (1 + x / 31) as u8),
            )
            &&& !(0 <= x <= day_of_month_max()) ==> r == Err::<(u8, u8), FromDayOfMonthError>(
                FromDayOfMonthError::ValueOutOfBounds(x),
            )
        },
        !(value is DayOfMonth) ==> r == Err::<(u8, u8), FromDayOfMonthError>(
            FromDayOfMonthError::NotDayOfMonth,
        ),
{
    match value {
        AnalogueCOEValue::DayOfMonth(x) => {
            if x < 0 || x > 30 + 31 * 11 {
                Err(FromDayOfMonthError::ValueOutOfBounds(x))
            } else {
                Ok(((1 + x % 31) as u8, (1 + x / 31) as u8))
            }
        },
        _ => Err(FromDayOfMonthError::NotDayOfMonth),
    }
}

/// Packing a valid day and month and unpacking the result yields the day
/// and month back: the packed value is in bounds, its remainder by 31
/// recovers the day and its quotient recovers the month.
pub proof fn lemma_day_of_month_roundtrip(day: u8, month: u8)
    requires
        1 <= day <= 31,
        1 <= month <= 12,
    ensures
        0 <= spec_day_of_month_raw(day, month) <= day_of_month_max(),
        1 + spec_day_of_month_raw(day, month) % 31 == day,
        1 + spec_day_of_month_raw(day, month) / 31 == month,
{
    lemma_fundamental_div_mod_converse(
        spec_day_of_month_raw(day, month),
        31,
        month - 1,
        day - 1,
    );
}

/// Convert a month and year into the packed format used in CoE.
///
/// A month outside `1..=12` yields no value; every year fits.
pub fn to_month_of_year(month: u8, year: u16) -> (r: Option<AnalogueCOEValue>)
    ensures
        1 <= month <= 12 ==> r == Some(
            AnalogueCOEValue::MonthOfYear(spec_month_of_year_raw(month, year) as i32),
        ),
        !(1 <= month <= 12) ==> r is None,
{
    if month < 1 || month > 12 {
        return None;
    }
    Some(AnalogueCOEValue::MonthOfYear((month - 1) as i32 + (year as i32) * 12))
}

/// The errors that can occur when unpacking a month-of-year value.
#[derive(Hash, Debug, PartialEq, Eq, Structural, Clone, Copy)]
pub enum FromMonthOfYearError {
    /// The supplied value was not a `MonthOfYear`.
    NotMonthOfYear,
    /// The packed integer is out of bounds for a month and year pair.
    ValueOutOfBounds(i32),
}

/// Unpack a `MonthOfYear` value into the month and year it encodes.
///
/// Only packed values in `0..=11 + 12 * 65535` unpack; anything else is out
/// of bounds, and a value of any other variant is a type mismatch.
pub fn from_month_of_year(value: AnalogueCOEValue) -> (r: Result<
    (u8, u16),
    FromMonthOfYearError,
>)
    ensures
        value matches AnalogueCOEValue::MonthOfYear(x) ==> {
            &&& 0 <= x <= month_of_year_max() ==> r == Ok::<(u8, u16), FromMonthOfYearError>(
                ((1 + x % 12) as u8, (x / 12) as u16),
            )
            &&& !(0 <= x <= month_of_year_max()) ==> r == Err::<(u8, u16), FromMonthOfYearError>(
                FromMonthOfYearError::ValueOutOfBounds(x),
            )
        },
        !(value is MonthOfYear) ==> r == Err::<(u8, u16), FromMonthOfYearError>(
            FromMonthOfYearError::NotMonthOfYear,
        ),
{
    match value {
        AnalogueCOEValue::MonthOfYear(x) => {
            if x < 0 || x > 11 + 12 * 0xffff {
                Err(FromMonthOfYearError::ValueOutOfBounds(x))
            } else {
                Ok(((1 + x % 12) as u8, (x / 12) as u16))
            }
        },
        _ => Err(FromMonthOfYearError::NotMonthOfYear),
    }
}

/// Packing a valid month and year and unpacking the result yields the month
/// and year back: the packed value is in bounds, its remainder by 12
/// recovers the month and its quotient recovers the year.
pub proof fn lemma_month_of_year_roundtrip(month: u8, year: u16)
    requires
        1 <= month <= 12,
    ensures
        0 <= spec_month_of_year_raw(month, year) <= month_of_year_max(),
        1 + spec_month_of_year_raw(month, year) % 12 == month,
        spec_month_of_year_raw(month, year) / 12 == year,
{
    lemma_fundamental_div_mod_converse(
        spec_month_of_year_raw(month, year),
        12,
        year as int,
        month - 1,
    );
}

} // verus!
