//! Calendar checks for the record's met and egg dates.
//!
//! A date is valid when it names an actual Gregorian calendar day with a
//! year in (0, 9999]. The epoch for in-game event times is the first day
//! of 2000.

use vstd::prelude::*;

verus! {

/// Seconds in one day.
pub const SECONDS_PER_DAY: i64 = 86400;

/// A Gregorian leap year: divisible by four, except centuries not
/// divisible by four hundred.
pub open spec fn spec_is_leap_year(year: int) -> bool {
    (year % 4 == 0 && year % 100 != 0) || year % 400 == 0
}

/// Days of the month in the given year.
pub open spec fn spec_days_in_month(year: int, month: int) -> int {
    if month == 2 {
        if spec_is_leap_year(year) {
            29
        } else {
            28
        }
    } else if month == 4 || month == 6 || month == 9 || month == 11 {
        30
    } else {
        31
    }
}

/// A date that names an actual calendar day, with the year in (0, 9999].
pub open spec fn spec_is_date_valid(year: int, month: int, day: int) -> bool {
    &&& 1 <= year <= 9999
    &&& 1 <= month <= 12
    &&& 1 <= day <= spec_days_in_month(year, month)
}

/// Returns whether the given date combination names an actual calendar
/// day, with the year in (0, 9999].
pub fn is_date_valid(year: u32, month: u32, day: u32) -> (r: bool)
    ensures
        r == spec_is_date_valid(year as int, month as int, day as int),
{
    if year < 1 || year > 9999 || month < 1 || month > 12 || day < 1 {
        return false;
    }
    let leap = (year % 4 == 0 && year % 100 != 0) || year % 400 == 0;
    let days: u32 = if month == 2 {
        if leap {
            29
        } else {
            28
        }
    } else if month == 4 || month == 6 || month == 9 || month == 11 {
        30
    } else {
        31
    };
    day <= days
}

/// Days from the first day of year one to the first day of the given
/// year, in the proleptic Gregorian calendar.
pub open spec fn spec_days_before_year(year: int) -> int {
    365 * (year - 1) + (year - 1) / 4 - (year - 1) / 100 + (year - 1) / 400
}

/// Days from the first day of the year to the first day of the given
/// month.
pub open spec fn spec_days_before_month(year: int, month: int) -> int
    decreases month,
{
    if month <= 1 {
        0
    } else {
        spec_days_before_month(year, month - 1) + spec_days_in_month(year, month - 1)
    }
}

/// The day number of a date, counted from the first day of year one.
pub open spec fn spec_day_number(year: int, month: int, day: int) -> int {
    spec_days_before_year(year) + spec_days_before_month(year, month) + (day - 1)
}

/// No month adds more than 31 days to the month offset.
proof fn lemma_days_before_month_bound(year: int, month: int)
    requires
        1 <= month <= 13,
    ensures
        0 <= spec_days_before_month(year, month) <= 31 * (month - 1),
    decreases month,
{
    if month > 1 {
        lemma_days_before_month_bound(year, month - 1);
    }
}

/// Computes the day number of a valid date, counted from the first day of
/// year one.
fn day_number(year: u32, month: u32, day: u32) -> (r: i64)
    requires
        spec_is_date_valid(year as int, month as int, day as int),
    ensures
        r == spec_day_number(year as int, month as int, day as int),
        0 <= r <= 3652100,
{
    let y: i64 = (year - 1) as i64;
    let before_year: i64 = 365 * y + y / 4 - y / 100 + y / 400;
    let mut before_month: i64 = 0;
    let mut m: u32 = 1;
    while m < month
        invariant
            1 <= m <= month <= 12,
            before_month == spec_days_before_month(year as int, m as int),
            0 <= before_month <= 31 * (m - 1),
        decreases month - m,
    {
        let leap = (year % 4 == 0 && year % 100 != 0) || year % 400 == 0;
        let days: i64 = if m == 2 {
            if leap {
                29
            } else {
                28
            }
        } else if m == 4 || m == 6 || m == 9 || m == 11 {
            30
        } else {
            31
        };
        before_month = before_month + days;
        m = m + 1;
        proof {
            lemma_days_before_month_bound(year as int, m as int);
        }
    }
    before_year + before_month + ((day - 1) as i64)
}

/// Returns the difference in seconds between midnight of the given date
/// and midnight of the first day of 2000, the lowest valid date for
/// in-game events; negative for earlier dates.
pub fn get_seconds_since2000(year: u32, month: u32, day: u32) -> (r: i64)
    requires
        spec_is_date_valid(year as int, month as int, day as int),
    ensures
        r == (spec_day_number(year as int, month as int, day as int) - spec_day_number(2000, 1, 1))
            * 86400,
{
    let d = day_number(year, month, day);
    let epoch = day_number(2000, 1, 1);
    proof {
        assert(spec_is_date_valid(2000, 1, 1));
    }
    (d - epoch) * SECONDS_PER_DAY
}

} // verus!
