//! The calendar side of the matcher: the current date, day-offset arithmetic
//! (done by chrono) and the rendering of the two date keys.

use vstd::prelude::*;
use chrono::{Datelike, TimeZone};
use crate::config::CsvSettings;
use crate::datekey::{date_key_seq, get_date_str};

verus! {

/// A leap year of the proleptic Gregorian calendar.
pub open spec fn is_leap_year(y: int) -> bool {
    (y % 4 == 0 && y % 100 != 0) || y % 400 == 0
}

/// How many days the given month of the given year has.
pub open spec fn days_in_month(y: int, m: int) -> int {
    if m == 2 {
        if is_leap_year(y) {
            29
        } else {
            28
        }
    } else if m == 4 || m == 6 || m == 9 || m == 11 {
        30
    } else {
        31
    }
}

/// A real calendar date: month in range and day within the month.
pub open spec fn valid_ymd(y: int, m: int, d: int) -> bool {
    1 <= m <= 12 && 1 <= d <= days_in_month(y, m)
}

/// Years accepted by the day-offset arithmetic: positive and far enough from
/// the edge of chrono's representable range that adding up to 255 days cannot
/// leave it.
pub open spec fn year_in_range(y: int) -> bool {
    1 <= y <= 262000
}

/// Decides `year_in_range` and `valid_ymd` for a candidate date.
pub fn is_valid_ymd(y: i32, m: u8, d: u8) -> (r: bool)
    ensures
        r == (year_in_range(y as int) && valid_ymd(y as int, m as int, d as int)),
{
    if y < 1 || y > 262000 {
        return false;
    }
    if m < 1 || m > 12 {
        return false;
    }
    let leap = (y % 4 == 0 && y % 100 != 0) || y % 400 == 0;
    let dim: u8 = if m == 2 {
        if leap {
            29
        } else {
            28
        }
    } else if m == 4 || m == 6 || m == 9 || m == 11 {
        30
    } else {
        31
    };
    1 <= d && d <= dim
}

/// The month and day of the date that lies `n` days after the date
/// `(y, m, d)`, written as chrono computes it.
pub uninterp spec fn plus_days_md(y: int, m: int, d: int, n: int) -> (int, int);

/// Relies on `chrono::Utc::now` and the `Datelike` accessors: the current UTC
/// instant has a real calendar date, with the month in 1..=12 and the day in
/// 1..=31, as their documentation states.
#[verifier::external_body]
pub fn today_utc() -> (r: (i32, u8, u8))
    ensures
        valid_ymd(r.0 as int, r.1 as int, r.2 as int),
{
    let now = chrono::Utc::now();
    (now.year(), now.month() as u8, now.day() as u8)
}

/// Relies on `TimeZone::with_ymd_and_hms`, `TimeDelta::days` and chrono's
/// checked `DateTime` addition: adding a day count to a valid UTC date yields
/// the calendar date that many days later, with the month in 1..=12 and the
/// day in 1..=31. The year bound keeps the sum inside chrono's representable
/// range, so neither the construction nor the addition panics.
#[verifier::external_body]
pub fn date_plus_days(y: i32, m: u8, d: u8, n: u8) -> (r: (u8, u8))
    requires
        valid_ymd(y as int, m as int, d as int),
        year_in_range(y as int),
    ensures
        (r.0 as int, r.1 as int) == plus_days_md(y as int, m as int, d as int, n as int),
        1 <= r.0 <= 12,
        1 <= r.1 <= 31,
{
    let dt = chrono::Utc.with_ymd_and_hms(y, m as u32, d as u32, 0, 0, 0).unwrap()
        + chrono::Duration::days(n as i64);
    (dt.month() as u8, dt.day() as u8)
}

/// Renders today's key and the warning-day key: today's month and day, and
/// the month and day `warning_days` later, each under the configured
/// separator and component order.
pub fn compute_keys(y: i32, m: u8, d: u8, warning_days: u8, cfg: &CsvSettings) -> (r: (
    String,
    String,
))
    requires
        valid_ymd(y as int, m as int, d as int),
        year_in_range(y as int),
    ensures
        r.0@ == date_key_seq(m as int, d as int, cfg.date_separator, cfg.date_format),
        ({
            let wmd = plus_days_md(y as int, m as int, d as int, warning_days as int);
            r.1@ == date_key_seq(wmd.0, wmd.1, cfg.date_separator, cfg.date_format)
        }),
{
    let today = get_date_str(m, d, cfg);
    let (wm, wd) = date_plus_days(y, m, d, warning_days);
    let warning = get_date_str(wm, wd, cfg);
    (today, warning)
}

} // verus!
