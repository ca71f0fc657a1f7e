//! Calendar facts for the week line: the current local date and the
//! ISO-8601 week of a date, both obtained from the `chrono` crate.
use vstd::prelude::*;
use vstd::arithmetic::div_mod::lemma_mod_multiples_vanish;
use chrono::Datelike;

verus! {

/// A leap year of the proleptic Gregorian calendar.
pub open spec fn is_leap_year(y: int) -> bool {
    y % 400 == 0 || (y % 4 == 0 && y % 100 != 0)
}

/// Days in a month of the proleptic Gregorian calendar.
pub open spec fn days_in_month(y: int, m: int) -> int {
    if m == 2 {
        if is_leap_year(y) {
            29
        } else {
            28
        }
    } else if m == 4 || m == 6 || m == 9 || m == 11 {
        30
    } else {
        31
    }
}

/// A calendar date the library accepts: a real day of the proleptic
/// Gregorian calendar, with the year in the range the calendar backend
/// supports.
pub open spec fn valid_ymd(y: int, m: int, d: int) -> bool {
    -262143 <= y <= 262142 && 1 <= m <= 12 && 1 <= d <= days_in_month(y, m)
}

/// Leap-year test, computed on a year shifted into the non-negative
/// range so that machine remainders coincide with the mathematical ones.
fn is_leap_year_exec(y: i32) -> (b: bool)
    requires
        -262143 <= y <= 262142,
    ensures
        b == is_leap_year(y as int),
{
    let yy: u64 = ((y as i64) + 262400000) as u64;
    proof {
        lemma_mod_multiples_vanish(656000, y as int, 400);
        lemma_mod_multiples_vanish(2624000, y as int, 100);
        lemma_mod_multiples_vanish(65600000, y as int, 4);
        assert(yy as int == y as int + 262400000);
    }
    yy % 400 == 0 || (yy % 4 == 0 && yy % 100 != 0)
}

/// Number of days in a month.
fn days_in_month_exec(y: i32, m: u32) -> (n: u32)
    requires
        -262143 <= y <= 262142,
        1 <= m <= 12,
    ensures
        n as int == days_in_month(y as int, m as int),
{
    if m == 2 {
        if is_leap_year_exec(y) {
            29
        } else {
            28
        }
    } else if m == 4 || m == 6 || m == 9 || m == 11 {
        30
    } else {
        31
    }
}

/// Check that a year, month and day name a real calendar date.
pub fn check_ymd(y: i32, m: u32, d: u32) -> (b: bool)
    ensures
        b == valid_ymd(y as int, m as int, d as int),
{
    if y < -262143 || y > 262142 {
        return false;
    }
    if m < 1 || m > 12 {
        return false;
    }
    1 <= d && d <= days_in_month_exec(y, m)
}

/// The ISO-8601 week number of a calendar date. Determined by the date
/// alone: week 1 is the week containing the year's first Thursday, and
/// weeks start on Monday.
pub uninterp spec fn iso_week_of(y: int, m: int, d: int) -> int;

/// The ISO-8601 week-based year of a calendar date; near the turn of a
/// year it can differ from the calendar year by one.
pub uninterp spec fn iso_week_year_of(y: int, m: int, d: int) -> int;

/// Relies on chrono's `NaiveDate::from_ymd_opt` and `Datelike::iso_week`:
/// `from_ymd_opt` returns a date exactly for month 1-12, day 1 through the
/// month's length, and year within chrono's range, and `iso_week` computes
/// the ISO-8601 week (numbered 1 through 53) and week-based year from the
/// date alone.
#[verifier::external_body]
fn chrono_iso_week(y: i32, m: u32, d: u32) -> (r: Option<(u32, i32)>)
    ensures
        r.is_some() == valid_ymd(y as int, m as int, d as int),
        match r {
            Some(wy) => {
                &&& wy.0 as int == iso_week_of(y as int, m as int, d as int)
                &&& 1 <= wy.0 <= 53
                &&& wy.1 as int == iso_week_year_of(y as int, m as int, d as int)
            },
            None => true,
        },
{
    match chrono::NaiveDate::from_ymd_opt(y, m, d) {
        Some(date) => {
            let w = date.iso_week();
            Some((w.week(), w.year()))
        },
        None => None,
    }
}

/// Relies on chrono's `Local::now` and the `Datelike` accessors: the
/// current local calendar date, which is always a real date within
/// chrono's year range. What date comes back depends on the clock and the
/// configured time zone.
#[verifier::external_body]
fn chrono_local_date() -> (r: (i32, u32, u32))
    ensures
        valid_ymd(r.0 as int, r.1 as int, r.2 as int),
{
    let d = chrono::Local::now().date_naive();
    (d.year(), d.month(), d.day())
}

/// The ISO-8601 week number and week-based year of the given date, or
/// `None` exactly when the numbers do not name a real calendar date.
pub fn iso_week_for_date(y: i32, m: u32, d: u32) -> (r: Option<(u32, i32)>)
    ensures
        r.is_some() == valid_ymd(y as int, m as int, d as int),
        match r {
            Some(wy) => {
                &&& wy.0 as int == iso_week_of(y as int, m as int, d as int)
                &&& 1 <= wy.0 <= 53
                &&& wy.1 as int == iso_week_year_of(y as int, m as int, d as int)
            },
            None => true,
        },
{
    chrono_iso_week(y, m, d)
}

/// The ISO-8601 week number and week-based year of today's local date.
pub fn current_iso_week() -> (r: (u32, i32))
    ensures
        1 <= r.0 <= 53,
{
    let (y, m, d) = chrono_local_date();
    match chrono_iso_week(y, m, d) {
        Some(wy) => wy,
        None => (1, y),
    }
}

} // verus!
