//! Gregorian calendar arithmetic and the bridge to astronomical day numbers.
//!
//! Validating a (year, month, day) triple and turning it into a continuous
//! day count is delegated to chrono, the external calendar utility; the
//! trusted wrapper below states that conversion exactly, over the spec
//! functions of this module.
use vstd::prelude::*;

use crate::QrekiError;

verus! {

/// Whether `y` is a leap year of the proleptic Gregorian calendar.
pub open spec fn is_leap_year(y: int) -> bool {
    (y % 4 == 0 && y % 100 != 0) || y % 400 == 0
}

/// Number of days of month `m` of year `y`.
pub open spec fn days_in_month(y: int, m: int) -> int {
    if m == 2 {
        if is_leap_year(y) {
            29
        } else {
            28
        }
    } else if m == 4 || m == 6 || m == 9 || m == 11 {
        30
    } else {
        31
    }
}

/// chrono's `NaiveDate` stores the year in 19 bits; dates outside this range
/// are rejected as invalid.
pub open spec fn in_supported_year_range(y: int) -> bool {
    -262143 <= y <= 262142
}

/// Whether (y, m, d) is a real proleptic-Gregorian date that the external
/// calendar utility accepts.
pub open spec fn is_valid_gregorian(y: int, m: int, d: int) -> bool {
    &&& in_supported_year_range(y)
    &&& 1 <= m <= 12
    &&& 1 <= d <= days_in_month(y, m)
}

/// Days of year `y` that precede month `m`.
pub open spec fn days_before_month(y: int, m: int) -> int {
    let leap: int = if is_leap_year(y) {
        1
    } else {
        0
    };
    if m == 1 {
        0
    } else if m == 2 {
        31
    } else if m == 3 {
        59 + leap
    } else if m == 4 {
        90 + leap
    } else if m == 5 {
        120 + leap
    } else if m == 6 {
        151 + leap
    } else if m == 7 {
        181 + leap
    } else if m == 8 {
        212 + leap
    } else if m == 9 {
        243 + leap
    } else if m == 10 {
        273 + leap
    } else if m == 11 {
        304 + leap
    } else {
        334 + leap
    }
}

/// Day count of the proleptic Gregorian calendar, with 0001-01-01 as day 1.
pub open spec fn days_from_ce(y: int, m: int, d: int) -> int {
    365 * (y - 1) + (y - 1) / 4 - (y - 1) / 100 + (y - 1) / 400 + days_before_month(y, m) + d
}

/// Offset that turns the day count since 0001-01-01 into the astronomical
/// day number the ephemeris works with (a Julian-day-like count).
pub const ASTRO_EPOCH_OFFSET: i64 = 1721424;

/// Relies on chrono::NaiveDate::from_ymd_opt, which returns Some exactly for
/// the real proleptic-Gregorian dates within chrono's supported year range,
/// and on chrono::Datelike::num_days_from_ce, which counts days with
/// 0001-01-01 as day 1 (365 per year plus the proleptic leap-day count).
#[verifier::external_body]
fn ymd_to_days_from_ce(y: i32, m: u32, d: u32) -> (r: Option<i32>)
    ensures
        r is Some <==> is_valid_gregorian(y as int, m as int, d as int),
        r matches Some(n) ==> n == days_from_ce(y as int, m as int, d as int),
{
    match chrono::NaiveDate::from_ymd_opt(y, m, d) {
        Some(date) => Some(chrono::Datelike::num_days_from_ce(&date)),
        None => None,
    }
}

/// The astronomical day number of noon of Gregorian date (y, m, d), or
/// `InvalidDate` when the triple is not a real date.
pub fn gregorian_to_astro_day(y: i32, m: u32, d: u32) -> (r: Result<i64, QrekiError>)
    ensures
        r is Ok <==> is_valid_gregorian(y as int, m as int, d as int),
        r matches Ok(t) ==> t == days_from_ce(y as int, m as int, d as int) + ASTRO_EPOCH_OFFSET,
        r matches Err(e) ==> e == QrekiError::InvalidDate,
{
    match ymd_to_days_from_ce(y, m, d) {
        Some(n) => Ok(n as i64 + ASTRO_EPOCH_OFFSET),
        None => Err(QrekiError::InvalidDate),
    }
}

} // verus!
