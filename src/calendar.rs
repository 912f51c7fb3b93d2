//! The proleptic Gregorian calendar as mathematics: day numbers and the
//! year / month / day triples they stand for.
use vstd::prelude::*;

verus! {

/// The first representable year.
pub const MIN_YEAR: i32 = -262144;

/// The last representable year.
pub const MAX_YEAR: i32 = 262143;

pub open spec fn is_leap_year(y: int) -> bool {
    y % 4 == 0 && (y % 100 != 0 || y % 400 == 0)
}

pub open spec fn days_in_year(y: int) -> int {
    if is_leap_year(y) {
        366
    } else {
        365
    }
}

/// Number of days from 0001-01-01 to January 1st of year `y` (negative before it).
pub open spec fn days_before_year(y: int) -> int {
    365 * (y - 1) + (y - 1) / 4 - (y - 1) / 100 + (y - 1) / 400
}

pub open spec fn days_in_month(y: int, m: int) -> int {
    if m == 2 {
        if is_leap_year(y) {
            29
        } else {
            28
        }
    } else if m == 4 || m == 6 || m == 9 || m == 11 {
        30
    } else {
        31
    }
}

/// Number of days of year `y` that come before the first of month `m`.
pub open spec fn days_before_month(y: int, m: int) -> int {
    let common: int = if m <= 1 {
        0
    } else if m == 2 {
        31
    } else if m == 3 {
        59
    } else if m == 4 {
        90
    } else if m == 5 {
        120
    } else if m == 6 {
        151
    } else if m == 7 {
        181
    } else if m == 8 {
        212
    } else if m == 9 {
        243
    } else if m == 10 {
        273
    } else if m == 11 {
        304
    } else {
        334
    };
    if m > 2 && is_leap_year(y) {
        common + 1
    } else {
        common
    }
}

pub open spec fn valid_ymd(y: int, m: int, d: int) -> bool {
    &&& MIN_YEAR <= y <= MAX_YEAR
    &&& 1 <= m <= 12
    &&& 1 <= d <= days_in_month(y, m)
}

/// The day number of a date: days since 0001-01-01.
pub open spec fn day_number(y: int, m: int, d: int) -> int {
    days_before_year(y) + days_before_month(y, m) + d - 1
}

pub open spec fn min_day() -> int {
    days_before_year(MIN_YEAR as int)
}

pub open spec fn max_day() -> int {
    days_before_year(MAX_YEAR + 1) - 1
}

pub open spec fn day_in_range(n: int) -> bool {
    min_day() <= n <= max_day()
}

/// The (year, month, day) of day number `n`.
pub open spec fn ymd_of(n: int) -> (int, int, int) {
    choose|t: (int, int, int)| valid_ymd(t.0, t.1, t.2) && day_number(t.0, t.1, t.2) == n
}

/// The day of the year, counted from 1.
pub open spec fn ordinal_of(n: int) -> int {
    n - days_before_year(ymd_of(n).0) + 1
}

/// Days since Monday: 0001-01-01 was a Monday.
pub open spec fn weekday_index(n: int) -> int {
    n % 7
}

pub proof fn lemma_year_step(y: int)
    ensures
        days_before_year(y + 1) == days_before_year(y) + days_in_year(y),
{
}

pub proof fn lemma_years_monotone(a: int, b: int)
    requires
        a <= b,
    ensures
        days_before_year(a) <= days_before_year(b),
    decreases b - a,
{
    if a < b {
        lemma_year_step(b - 1);
        lemma_years_monotone(a, b - 1);
    }
}

pub proof fn lemma_month_table(y: int, m: int)
    requires
        1 <= m <= 12,
    ensures
        days_before_month(y, m) + days_in_month(y, m) == if m == 12 {
            days_in_year(y)
        } else {
            days_before_month(y, m + 1)
        },
        0 <= days_before_month(y, m),
{
}

pub proof fn lemma_months_monotone(y: int, a: int, b: int)
    requires
        1 <= a <= b <= 12,
    ensures
        days_before_month(y, a) <= days_before_month(y, b),
{
}

/// A valid date lies within its own year.
pub proof fn lemma_day_number_in_year(y: int, m: int, d: int)
    requires
        valid_ymd(y, m, d),
    ensures
        days_before_year(y) <= day_number(y, m, d) < days_before_year(y + 1),
        day_in_range(day_number(y, m, d)),
{
    lemma_month_table(y, m);
    if m < 12 {
        lemma_months_monotone(y, m + 1, 12);
        lemma_month_table(y, 12);
    }
    lemma_year_step(y);
    lemma_years_monotone(MIN_YEAR as int, y);
    lemma_years_monotone(y + 1, MAX_YEAR + 1);
}

/// Distinct valid dates have distinct day numbers.
pub proof fn lemma_day_number_injective(y1: int, m1: int, d1: int, y2: int, m2: int, d2: int)
    requires
        valid_ymd(y1, m1, d1),
        valid_ymd(y2, m2, d2),
        day_number(y1, m1, d1) == day_number(y2, m2, d2),
    ensures
        y1 == y2 && m1 == m2 && d1 == d2,
{
    lemma_day_number_in_year(y1, m1, d1);
    lemma_day_number_in_year(y2, m2, d2);
    if y1 < y2 {
        lemma_years_monotone(y1 + 1, y2);
    } else if y2 < y1 {
        lemma_years_monotone(y2 + 1, y1);
    }
    assert(y1 == y2);
    lemma_month_table(y1, m1);
    lemma_month_table(y1, m2);
    if m1 < m2 {
        lemma_months_monotone(y1, m1 + 1, m2);
    } else if m2 < m1 {
        lemma_months_monotone(y1, m2 + 1, m1);
    }
}

/// A valid triple is the one that `ymd_of` picks for its day number.
pub proof fn lemma_ymd_of(y: int, m: int, d: int)
    requires
        valid_ymd(y, m, d),
    ensures
        ymd_of(day_number(y, m, d)) == (y, m, d),
{
    let n = day_number(y, m, d);
    let w = (y, m, d);
    assert(valid_ymd(w.0, w.1, w.2) && day_number(w.0, w.1, w.2) == n);
    let t = ymd_of(n);
    lemma_day_number_injective(t.0, t.1, t.2, y, m, d);
}

} // verus!
