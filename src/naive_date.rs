//! Calendar dates without a time zone, kept as a day number.
use vstd::prelude::*;
use crate::calendar::{
    day_in_range, day_number, days_before_month, days_before_year, days_in_month, days_in_year,
    is_leap_year, lemma_day_number_in_year, lemma_month_table, lemma_year_step,
    lemma_years_monotone, lemma_ymd_of, max_day, min_day, ordinal_of, valid_ymd, weekday_index,
    ymd_of, MAX_YEAR, MIN_YEAR,
};
use crate::duration::{trunc_days, Duration};
use vstd::arithmetic::div_mod::lemma_mod_multiples_vanish;

verus! {

/// The day of the week.
#[derive(Clone, Copy, Debug, PartialEq, Eq, Structural)]
pub enum Weekday {
    Mon,
    Tue,
    Wed,
    Thu,
    Fri,
    Sat,
    Sun,
}

pub open spec fn weekday_of_index(i: int) -> Weekday {
    if i == 0 {
        Weekday::Mon
    } else if i == 1 {
        Weekday::Tue
    } else if i == 2 {
        Weekday::Wed
    } else if i == 3 {
        Weekday::Thu
    } else if i == 4 {
        Weekday::Fri
    } else if i == 5 {
        Weekday::Sat
    } else {
        Weekday::Sun
    }
}

impl Weekday {
    pub open spec fn index(self) -> int {
        match self {
            Weekday::Mon => 0,
            Weekday::Tue => 1,
            Weekday::Wed => 2,
            Weekday::Thu => 3,
            Weekday::Fri => 4,
            Weekday::Sat => 5,
            Weekday::Sun => 6,
        }
    }

    /// Days since Monday (0 to 6).
    pub fn num_days_from_monday(&self) -> (r: u32)
        ensures
            r == self.index(),
    {
        match self {
            Weekday::Mon => 0,
            Weekday::Tue => 1,
            Weekday::Wed => 2,
            Weekday::Thu => 3,
            Weekday::Fri => 4,
            Weekday::Sat => 5,
            Weekday::Sun => 6,
        }
    }
}

/// A date of the proleptic Gregorian calendar, with no time zone.
#[derive(Clone, Copy, Debug, PartialEq, Eq, Structural)]
pub struct NaiveDate {
    days: i32,
}

impl View for NaiveDate {
    type V = int;

    /// The day number: days since 0001-01-01.
    closed spec fn view(&self) -> int {
        self.days as int
    }
}

fn is_leap_exec(y: i32) -> (r: bool)
    ensures
        r == is_leap_year(y as int),
{
    let a: i64 = y as i64 + 400000;
    proof {
        lemma_mod_multiples_vanish(100000, y as int, 4);
        lemma_mod_multiples_vanish(4000, y as int, 100);
        lemma_mod_multiples_vanish(1000, y as int, 400);
    }
    a % 4 == 0 && (a % 100 != 0 || a % 400 == 0)
}

fn days_before_year_exec(y: i32) -> (r: i64)
    requires
        MIN_YEAR - 1 <= y <= MAX_YEAR + 1,
    ensures
        r == days_before_year(y as int),
{
    let a: i64 = y as i64 - 1 + 400000;
    assert(a / 4 - 100000 == (y - 1) / 4);
    assert(a / 100 - 4000 == (y - 1) / 100);
    assert(a / 400 - 1000 == (y - 1) / 400);
    365 * (y as i64 - 1) + (a / 4 - 100000) - (a / 100 - 4000) + (a / 400 - 1000)
}

fn days_before_month_exec(y: i32, m: u32) -> (r: i64)
    requires
        1 <= m <= 12,
    ensures
        r == days_before_month(y as int, m as int),
{
    let common: i64 = if m == 1 {
        0
    } else if m == 2 {
        31
    } else if m == 3 {
        59
    } else if m == 4 {
        90
    } else if m == 5 {
        120
    } else if m == 6 {
        151
    } else if m == 7 {
        181
    } else if m == 8 {
        212
    } else if m == 9 {
        243
    } else if m == 10 {
        273
    } else if m == 11 {
        304
    } else {
        334
    };
    if m > 2 && is_leap_exec(y) {
        common + 1
    } else {
        common
    }
}

fn days_in_month_exec(y: i32, m: u32) -> (r: u32)
    ensures
        r == days_in_month(y as int, m as int),
{
    if m == 2 {
        if is_leap_exec(y) {
            29
        } else {
            28
        }
    } else if m == 4 || m == 6 || m == 9 || m == 11 {
        30
    } else {
        31
    }
}

/// The day number of a triple, or `None` where the triple is no date.
fn day_number_opt(y: i32, m: u32, d: u32) -> (r: Option<i32>)
    ensures
        r.is_some() == valid_ymd(y as int, m as int, d as int),
        r.is_some() ==> r.unwrap() == day_number(y as int, m as int, d as int) && day_in_range(
            r.unwrap() as int,
        ),
{
    if y < MIN_YEAR || y > MAX_YEAR || m < 1 || m > 12 || d < 1 || d > days_in_month_exec(y, m) {
        return None;
    }
    proof {
        lemma_day_number_in_year(y as int, m as int, d as int);
        lemma_years_monotone(MIN_YEAR as int, MAX_YEAR + 1);
    }
    assert(min_day() > i32::MIN && max_day() < i32::MAX);
    let n = days_before_year_exec(y) + days_before_month_exec(y, m) + d as i64 - 1;
    Some(n as i32)
}

/// Weekday index (0 for Monday) of January 1st of year `y`.
pub open spec fn jan1_weekday(y: int) -> int {
    weekday_index(days_before_year(y))
}

/// Number of ISO weeks in year `y`: 53 where it starts on a Thursday, or on a
/// Wednesday in a leap year; 52 otherwise.
pub open spec fn iso_weeks_in_year(y: int) -> int {
    if jan1_weekday(y) == 3 || (is_leap_year(y) && jan1_weekday(y) == 2) {
        53
    } else {
        52
    }
}

/// The ISO 8601 week date (week-based year, week) of day number `n`; the
/// weekday is that of `n`.
pub open spec fn iso_week_of(n: int) -> (int, int) {
    let y = ymd_of(n).0;
    let w = (ordinal_of(n) - weekday_index(n) + 9) / 7;
    if w < 1 {
        (y - 1, iso_weeks_in_year(y - 1))
    } else if w > iso_weeks_in_year(y) {
        (y + 1, 1)
    } else {
        (y, w)
    }
}

fn weekday_of_day(n: i64) -> (r: i64)
    requires
        -800_000_000 <= n <= 800_000_000,
    ensures
        r == weekday_index(n as int),
        0 <= r < 7,
{
    proof {
        lemma_mod_multiples_vanish(200_000_000, n as int, 7);
    }
    (n + 1_400_000_000) % 7
}

fn iso_weeks_in_year_exec(y: i32) -> (r: u32)
    requires
        MIN_YEAR - 1 <= y <= MAX_YEAR,
    ensures
        r == iso_weeks_in_year(y as int),
{
    proof {
        lemma_years_monotone(MIN_YEAR - 1, y as int);
        lemma_years_monotone(y as int, MAX_YEAR + 1);
        lemma_years_monotone(MIN_YEAR - 1, MAX_YEAR + 1);
    }
    let j = weekday_of_day(days_before_year_exec(y));
    if j == 3 || (is_leap_exec(y) && j == 2) {
        53
    } else {
        52
    }
}

/// `r` is the date `y`-`m`-`d` where that triple is a date, and `None` where it is not.
pub open spec fn is_date_of(r: Option<NaiveDate>, y: int, m: int, d: int) -> bool {
    match r {
        Some(x) => valid_ymd(y, m, d) && x@ == day_number(y, m, d),
        None => !valid_ymd(y, m, d),
    }
}

/// `r` is day `o` (counted from 1) of year `y` where the year has such a day, else `None`.
pub open spec fn is_ordinal_of(r: Option<NaiveDate>, y: int, o: int) -> bool {
    match r {
        Some(x) => 1 <= o <= days_in_year(y) && x@ == days_before_year(y) + o - 1,
        None => !(1 <= o <= days_in_year(y)),
    }
}

impl NaiveDate {
    /// A date is determined by its day number.
    pub proof fn lemma_view_determines(a: NaiveDate, b: NaiveDate)
        requires
            a@ == b@,
        ensures
            a == b,
    {
    }

    #[verifier::type_invariant]
    pub closed spec fn inv(self) -> bool {
        day_in_range(self.days as int)
    }

    /// Every date has a day number within the representable range.
    pub fn day_number(&self) -> (r: i32)
        ensures
            r == self@,
            day_in_range(r as int),
    {
        proof {
            use_type_invariant(self);
        }
        self.days
    }

    /// The date of day number `n`, or `None` outside the representable range.
    pub fn from_day_number_opt(n: i64) -> (r: Option<NaiveDate>)
        ensures
            r.is_some() == day_in_range(n as int),
            r.is_some() ==> r.unwrap()@ == n,
    {
        proof {
            lemma_years_monotone(MIN_YEAR as int, MAX_YEAR + 1);
        }
        let lo = days_before_year_exec(MIN_YEAR);
        let hi = days_before_year_exec(MAX_YEAR + 1) - 1;
        if n < lo || n > hi {
            None
        } else {
            Some(NaiveDate { days: n as i32 })
        }
    }

    /// The date of the given year, month and day, or `None` where they name no date.
    pub fn from_ymd_opt(year: i32, month: u32, day: u32) -> (r: Option<NaiveDate>)
        ensures
            r.is_some() == valid_ymd(year as int, month as int, day as int),
            r.is_some() ==> r.unwrap()@ == day_number(year as int, month as int, day as int),
    {
        match day_number_opt(year, month, day) {
            Some(n) => Some(NaiveDate { days: n }),
            None => None,
        }
    }

    /// The year, month and day of this date.
    pub fn ymd(&self) -> (r: (i32, u32, u32))
        ensures
            valid_ymd(r.0 as int, r.1 as int, r.2 as int),
            day_number(r.0 as int, r.1 as int, r.2 as int) == self@,
            (r.0 as int, r.1 as int, r.2 as int) == ymd_of(self@),
    {
        proof {
            use_type_invariant(self);
        }
        let n = self.days as i64;
        let mut lo: i32 = MIN_YEAR;
        let mut hi: i32 = MAX_YEAR + 1;
        while hi - lo > 1
            invariant
                MIN_YEAR <= lo < hi <= MAX_YEAR + 1,
                days_before_year(lo as int) <= n < days_before_year(hi as int),
            decreases hi - lo,
        {
            let mid = lo + (hi - lo) / 2;
            if days_before_year_exec(mid) <= n {
                lo = mid;
            } else {
                hi = mid;
            }
        }
        let y = lo;
        proof {
            lemma_year_step(y as int);
        }
        let off = n - days_before_year_exec(y);
        let mut m: u32 = 1;
        while m < 12 && days_before_month_exec(y, m + 1) <= off
            invariant
                1 <= m <= 12,
                days_before_month(y as int, m as int) <= off,
                0 <= off < days_in_year(y as int),
            decreases 12 - m,
        {
            m = m + 1;
        }
        proof {
            lemma_month_table(y as int, m as int);
        }
        let d = (off - days_before_month_exec(y, m) + 1) as u32;
        proof {
            lemma_ymd_of(y as int, m as int, d as int);
        }
        (y, m, d)
    }

    pub fn year(&self) -> (r: i32)
        ensures
            r == ymd_of(self@).0,
    {
        self.ymd().0
    }

    pub fn month(&self) -> (r: u32)
        ensures
            r == ymd_of(self@).1,
            1 <= r <= 12,
    {
        self.ymd().1
    }

    pub fn month0(&self) -> (r: u32)
        ensures
            r == ymd_of(self@).1 - 1,
    {
        self.ymd().1 - 1
    }

    pub fn day(&self) -> (r: u32)
        ensures
            r == ymd_of(self@).2,
            1 <= r <= 31,
    {
        self.ymd().2
    }

    pub fn day0(&self) -> (r: u32)
        ensures
            r == ymd_of(self@).2 - 1,
    {
        self.ymd().2 - 1
    }

    pub fn ordinal(&self) -> (r: u32)
        ensures
            r == ordinal_of(self@),
            1 <= r <= 366,
    {
        let (y, m, d) = self.ymd();
        proof {
            lemma_day_number_in_year(y as int, m as int, d as int);
        }
        (self.days as i64 - days_before_year_exec(y) + 1) as u32
    }

    pub fn ordinal0(&self) -> (r: u32)
        ensures
            r == ordinal_of(self@) - 1,
    {
        self.ordinal() - 1
    }

    pub fn weekday(&self) -> (r: Weekday)
        ensures
            r == weekday_of_index(weekday_index(self@)),
    {
        proof {
            use_type_invariant(self);
            lemma_years_monotone(MIN_YEAR as int, MAX_YEAR + 1);
        }
        let i: i64 = (self.days as i64 + 700_000_000) % 7;
        assert(i == weekday_index(self@));
        if i == 0 {
            Weekday::Mon
        } else if i == 1 {
            Weekday::Tue
        } else if i == 2 {
            Weekday::Wed
        } else if i == 3 {
            Weekday::Thu
        } else if i == 4 {
            Weekday::Fri
        } else if i == 5 {
            Weekday::Sat
        } else {
            Weekday::Sun
        }
    }

    /// The ISO 8601 week date: week-based year, week (1 to 53) and weekday.
    pub fn isoweekdate(&self) -> (r: (i32, u32, Weekday))
        ensures
            (r.0 as int, r.1 as int) == iso_week_of(self@),
            r.2 == weekday_of_index(weekday_index(self@)),
    {
        let (y, _, _) = self.ymd();
        let ord = self.ordinal();
        let wd = self.weekday();
        let wi = wd.num_days_from_monday();
        proof {
            use_type_invariant(self);
            lemma_years_monotone(MIN_YEAR as int, MAX_YEAR + 1);
        }
        let i = weekday_of_day(self.days as i64);
        assert(wi == i) by {
            assert(weekday_of_index(i as int).index() == i);
        }
        let w: i64 = (ord as i64 - wi as i64 + 9) / 7;
        if w < 1 {
            (y - 1, iso_weeks_in_year_exec(y - 1), wd)
        } else if w > iso_weeks_in_year_exec(y) as i64 {
            (y + 1, 1, wd)
        } else {
            (y, w as u32, wd)
        }
    }

    /// The next day, or `None` on the last representable day.
    pub fn succ_opt(&self) -> (r: Option<NaiveDate>)
        ensures
            r.is_some() == day_in_range(self@ + 1),
            r.is_some() ==> r.unwrap()@ == self@ + 1,
    {
        NaiveDate::from_day_number_opt(self.day_number() as i64 + 1)
    }

    /// The previous day, or `None` on the first representable day.
    pub fn pred_opt(&self) -> (r: Option<NaiveDate>)
        ensures
            r.is_some() == day_in_range(self@ - 1),
            r.is_some() ==> r.unwrap()@ == self@ - 1,
    {
        NaiveDate::from_day_number_opt(self.day_number() as i64 - 1)
    }

    /// Adds the whole days of `rhs` (truncated toward zero), or `None` out of range.
    pub fn checked_add(&self, rhs: &Duration) -> (r: Option<NaiveDate>)
        ensures
            r.is_some() == day_in_range(self@ + trunc_days(rhs@)),
            r.is_some() ==> r.unwrap()@ == self@ + trunc_days(rhs@),
    {
        let days = rhs.num_days();
        let n = self.day_number() as i64;
        NaiveDate::from_day_number_opt(n + days)
    }

    /// The span from `rhs` to `self`, in whole days.
    pub fn signed_duration_since(&self, rhs: &NaiveDate) -> (r: Duration)
        ensures
            r@ == (self@ - rhs@) * 86400,
    {
        proof {
            lemma_years_monotone(MIN_YEAR as int, MAX_YEAR + 1);
        }
        let a = self.day_number() as i64;
        let b = rhs.day_number() as i64;
        Duration::days(a - b)
    }

    /// The same month and day in another year.
    pub fn with_year(&self, year: i32) -> (r: Option<NaiveDate>)
        ensures
            is_date_of(r, year as int, ymd_of(self@).1, ymd_of(self@).2),
    {
        let (_, m, d) = self.ymd();
        NaiveDate::from_ymd_opt(year, m, d)
    }

    /// The same year and day in another month (counted from 1).
    pub fn with_month(&self, month: u32) -> (r: Option<NaiveDate>)
        ensures
            is_date_of(r, ymd_of(self@).0, month as int, ymd_of(self@).2),
    {
        let (y, _, d) = self.ymd();
        NaiveDate::from_ymd_opt(y, month, d)
    }

    /// The same year and day in another month (counted from 0).
    pub fn with_month0(&self, month0: u32) -> (r: Option<NaiveDate>)
        ensures
            is_date_of(r, ymd_of(self@).0, month0 + 1, ymd_of(self@).2),
    {
        if month0 >= 12 {
            return None;
        }
        self.with_month(month0 + 1)
    }

    /// The same year and month on another day (counted from 1).
    pub fn with_day(&self, day: u32) -> (r: Option<NaiveDate>)
        ensures
            is_date_of(r, ymd_of(self@).0, ymd_of(self@).1, day as int),
    {
        let (y, m, _) = self.ymd();
        NaiveDate::from_ymd_opt(y, m, day)
    }

    /// The same year and month on another day (counted from 0).
    pub fn with_day0(&self, day0: u32) -> (r: Option<NaiveDate>)
        ensures
            is_date_of(r, ymd_of(self@).0, ymd_of(self@).1, day0 + 1),
    {
        if day0 >= 31 {
            return None;
        }
        self.with_day(day0 + 1)
    }

    /// Another day of the same year (counted from 1).
    pub fn with_ordinal(&self, ordinal: u32) -> (r: Option<NaiveDate>)
        ensures
            is_ordinal_of(r, ymd_of(self@).0, ordinal as int),
    {
        let (y, _, _) = self.ymd();
        proof {
            lemma_year_step(y as int);
            lemma_years_monotone(MIN_YEAR as int, y as int);
            lemma_years_monotone(y + 1, MAX_YEAR + 1);
        }
        let len: u32 = if is_leap_exec(y) {
            366
        } else {
            365
        };
        if ordinal < 1 || ordinal > len {
            return None;
        }
        NaiveDate::from_day_number_opt(days_before_year_exec(y) + ordinal as i64 - 1)
    }

    /// Another day of the same year (counted from 0).
    pub fn with_ordinal0(&self, ordinal0: u32) -> (r: Option<NaiveDate>)
        ensures
            is_ordinal_of(r, ymd_of(self@).0, ordinal0 + 1),
    {
        if ordinal0 >= 366 {
            return None;
        }
        self.with_ordinal(ordinal0 + 1)
    }

    /// The first representable date.
    pub fn min_value() -> (r: NaiveDate)
        ensures
            r@ == min_day(),
    {
        proof {
            lemma_years_monotone(MIN_YEAR as int, MAX_YEAR + 1);
        }
        NaiveDate { days: days_before_year_exec(MIN_YEAR) as i32 }
    }

    /// The last representable date.
    pub fn max_value() -> (r: NaiveDate)
        ensures
            r@ == max_day(),
    {
        proof {
            lemma_years_monotone(MIN_YEAR as int, MAX_YEAR + 1);
        }
        NaiveDate { days: (days_before_year_exec(MAX_YEAR + 1) - 1) as i32 }
    }
}

} // verus!
