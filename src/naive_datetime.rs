//! Date and time of day together, without a time zone.
use vstd::prelude::*;
use crate::calendar::{day_in_range, lemma_years_monotone, MAX_YEAR, MIN_YEAR};
use crate::duration::Duration;
use crate::naive_date::NaiveDate;
use crate::naive_time::NaiveTime;
use vstd::arithmetic::div_mod::{lemma_div_multiples_vanish_fancy, lemma_mod_multiples_vanish};

verus! {

/// A date and a time of day, with no time zone.
#[derive(Clone, Copy, Debug, PartialEq, Eq, Structural)]
pub struct NaiveDateTime {
    date: NaiveDate,
    time: NaiveTime,
}

/// Seconds since 0001-01-01T00:00:00 of a day number and a second of that day.
pub open spec fn timestamp(day: int, secs: int) -> int {
    day * 86400 + secs
}

impl View for NaiveDateTime {
    type V = (int, int);

    /// (seconds since 0001-01-01T00:00:00, nanoseconds)
    closed spec fn view(&self) -> (int, int) {
        (timestamp(self.date@, self.time@.0), self.time@.1)
    }
}

impl NaiveDateTime {
    /// The date part.
    pub closed spec fn date_part(self) -> NaiveDate {
        self.date
    }

    /// The time-of-day part.
    pub closed spec fn time_part(self) -> NaiveTime {
        self.time
    }

    /// The day number of the date part, which is the instant's seconds divided by a day.
    pub fn day_number(&self) -> (r: i32)
        ensures
            r == self@.0 / 86400,
            r == self.date_part()@,
            day_in_range(r as int),
            self@.0 % 86400 == self.time_part()@.0,
    {
        let n = self.date.day_number();
        let s = self.time.num_seconds_from_midnight();
        proof {
            lemma_div_multiples_vanish_fancy(n as int, s as int, 86400);
            lemma_mod_multiples_vanish(n as int, s as int, 86400);
        }
        n
    }

    pub fn new(date: NaiveDate, time: NaiveTime) -> (r: NaiveDateTime)
        ensures
            r.date_part() == date,
            r.time_part() == time,
            r@ == (timestamp(date@, time@.0), time@.1),
    {
        NaiveDateTime { date, time }
    }

    pub fn date(&self) -> (r: NaiveDate)
        ensures
            r == self.date_part(),
    {
        self.date
    }

    pub fn time(&self) -> (r: NaiveTime)
        ensures
            r == self.time_part(),
    {
        self.time
    }

    /// Moves the instant by `rhs`, or `None` where the day falls out of range.
    /// The nanosecond fraction is kept.
    pub fn checked_add_signed(&self, rhs: &Duration) -> (r: Option<NaiveDateTime>)
        ensures
            r.is_some() == day_in_range((self@.0 + rhs@) / 86400),
            r.is_some() ==> r.unwrap()@ == (self@.0 + rhs@, self@.1),
    {
        let day = self.date.day_number() as i64;
        let secs = self.time.num_seconds_from_midnight() as i64;
        let frac = self.time.nanosecond();
        let delta = rhs.num_seconds();
        proof {
            lemma_years_monotone(MIN_YEAR as int, MAX_YEAR + 1);
        }
        let t: i64 = day * 86400 + secs + delta;
        let shifted: i64 = t + 86400 * 200_000_000_000;
        proof {
            let q = t as int / 86400;
            let m = t as int % 86400;
            assert(t == 86400 * q + m);
            lemma_div_multiples_vanish_fancy(q + 200_000_000_000, m, 86400);
            lemma_mod_multiples_vanish(q + 200_000_000_000, m, 86400);
            assert(shifted == 86400 * (q + 200_000_000_000) + m);
        }
        let new_day = shifted / 86400 - 200_000_000_000;
        let new_secs = (shifted % 86400) as u32;
        match NaiveDate::from_day_number_opt(new_day) {
            Some(date) => {
                let time = NaiveTime::from_num_seconds_from_midnight(new_secs, frac);
                Some(NaiveDateTime { date, time })
            },
            None => None,
        }
    }
}

} // verus!
