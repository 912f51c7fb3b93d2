//! A calendar date anchored at UTC, paired with the offset state in force there.
use vstd::prelude::*;
use core::cmp::Ordering;
use crate::calendar::{
    day_in_range, day_number, days_before_year, days_in_year, max_day, min_day, ordinal_of,
    valid_ymd, weekday_index, ymd_of,
};
use crate::datetime::{from_local_datetime, DateTime};
use crate::duration::{trunc_days, Duration};
use crate::naive_date::{iso_week_of, weekday_of_index, NaiveDate, Weekday};
use crate::naive_datetime::{timestamp, NaiveDateTime};
use crate::naive_time::{valid_hms, NaiveTime};
use crate::fixed::{FixedOffset, Utc};
use crate::offset::{LocalResult, Offset, OffsetState};

verus! {

/// A calendar date kept as its UTC day, with the offset state that gives its local day.
pub struct Date<Off: Offset> {
    date: NaiveDate,
    offset: Off::State,
}

/// The local day behind UTC day `utc` under state `s`.
pub open spec fn local_day_of<S: OffsetState>(utc: int, s: S) -> int {
    utc + trunc_days(s.offset_secs())
}

impl<Off: Offset> Date<Off> {
    /// The UTC day number.
    pub closed spec fn utc_day(self) -> int {
        self.date@
    }

    /// The offset state kept with the date.
    pub closed spec fn state(self) -> Off::State {
        self.offset
    }

    /// The time zone that the offset state belongs to.
    pub open spec fn zone(self) -> Off {
        Off::spec_from_state(self.state())
    }

    /// The local day number: the UTC day moved by the offset's whole days.
    pub open spec fn local_day(self) -> int {
        local_day_of(self.utc_day(), self.state())
    }

    #[verifier::type_invariant]
    pub closed spec fn inv(self) -> bool {
        day_in_range(local_day_of(self.date@, self.offset))
    }

    /// `r` is this date moved to local day `target` where `valid` holds and the
    /// zone maps that day to exactly one UTC day; it is `None` otherwise.
    pub open spec fn moved_to(self, r: Option<Date<Off>>, valid: bool, target: int) -> bool {
        match (r, self.zone().local_date_result(target)) {
            (Some(d), LocalResult::Single(s)) => valid && d.state() == s && d.local_day() == target,
            (Some(_), _) => false,
            (None, LocalResult::Single(_)) => !valid,
            (None, _) => true,
        }
    }

    /// The local instant (seconds, nanoseconds) of this local date at time of day `t`.
    pub open spec fn local_instant(self, t: (int, int)) -> (int, int) {
        (timestamp(self.local_day(), t.0), t.1)
    }

    /// The zone maps this local date at time of day `t` to exactly one UTC instant.
    pub open spec fn single_at(self, t: (int, int)) -> bool {
        self.zone().local_datetime_result(self.local_instant(t)).single_spec().is_some()
    }

    /// `r` is this local date at time of day `t` where the zone maps that
    /// instant to exactly one UTC instant; it is `None` on a gap or an overlap.
    pub open spec fn composed(self, r: Option<DateTime<Off>>, t: (int, int)) -> bool {
        match (r, self.zone().local_datetime_result(self.local_instant(t))) {
            (Some(d), LocalResult::Single(s)) => d.state() == s && d.local() == self.local_instant(t),
            (Some(_), _) => false,
            (None, LocalResult::Single(_)) => false,
            (None, _) => true,
        }
    }

    /// Both the UTC day and the local day are in range: true of every date.
    pub open spec fn valid(self) -> bool {
        day_in_range(self.utc_day()) && day_in_range(self.local_day())
    }

    /// A date is determined by its UTC day and its offset state.
    pub proof fn lemma_parts_determine(a: Date<Off>, b: Date<Off>)
        requires
            a.utc_day() == b.utc_day(),
            a.state() == b.state(),
        ensures
            a == b,
    {
        NaiveDate::lemma_view_determines(a.date, b.date);
    }

    /// A date from its UTC day and an offset state; the local day must be in range.
    pub fn from_utc(date: NaiveDate, offset: Off::State) -> (r: Date<Off>)
        requires
            day_in_range(local_day_of(date@, offset)),
        ensures
            r.utc_day() == date@,
            r.state() == offset,
    {
        Date { date, offset }
    }

    /// The UTC date.
    pub fn naive_utc(&self) -> (r: NaiveDate)
        ensures
            r@ == self.utc_day(),
            self.valid(),
    {
        proof {
            use_type_invariant(self);
        }
        let _ = self.date.day_number();
        self.date
    }

    /// The local date: the UTC date moved by the offset's whole days.
    pub fn naive_local(&self) -> (r: NaiveDate)
        ensures
            r@ == self.local_day(),
    {
        proof {
            use_type_invariant(self);
        }
        self.date.checked_add(&self.offset.local_minus_utc()).unwrap()
    }

    pub fn offset(&self) -> (r: &Off::State)
        ensures
            *r == self.state(),
    {
        &self.offset
    }

    /// The time zone, rebuilt from the offset state.
    pub fn timezone(&self) -> (r: Off)
        ensures
            r == self.zone(),
    {
        Off::from_state(&self.offset)
    }

    /// The same UTC day under another time zone, with the state that zone has in force there.
    pub fn with_timezone<Off2: Offset>(&self, tz: &Off2) -> (r: Date<Off2>)
        requires
            day_in_range(local_day_of(self.utc_day(), tz.utc_date_state(self.utc_day()))),
        ensures
            r.utc_day() == self.utc_day(),
            r.state() == tz.utc_date_state(self.utc_day()),
    {
        from_utc_date(tz, &self.date)
    }

    /// The next UTC day with the same offset state, or `None` where it or
    /// its local day is out of range.
    pub fn succ_opt(&self) -> (r: Option<Date<Off>>)
        ensures
            r.is_some() == (day_in_range(self.utc_day() + 1) && day_in_range(self.local_day() + 1)),
            r.is_some() ==> r.unwrap().utc_day() == self.utc_day() + 1 && r.unwrap().state()
                == self.state(),
    {
        let local = self.naive_local();
        match (self.date.succ_opt(), local.succ_opt()) {
            (Some(date), Some(_)) => Some(Date { date, offset: self.offset }),
            _ => None,
        }
    }

    /// The next UTC day with the same offset state.
    pub fn succ(&self) -> (r: Date<Off>)
        requires
            day_in_range(self.utc_day() + 1),
            day_in_range(self.local_day() + 1),
        ensures
            r.utc_day() == self.utc_day() + 1,
            r.state() == self.state(),
    {
        self.succ_opt().unwrap()
    }

    /// The previous UTC day with the same offset state, or `None` where it or
    /// its local day is out of range.
    pub fn pred_opt(&self) -> (r: Option<Date<Off>>)
        ensures
            r.is_some() == (day_in_range(self.utc_day() - 1) && day_in_range(self.local_day() - 1)),
            r.is_some() ==> r.unwrap().utc_day() == self.utc_day() - 1 && r.unwrap().state()
                == self.state(),
    {
        let local = self.naive_local();
        match (self.date.pred_opt(), local.pred_opt()) {
            (Some(date), Some(_)) => Some(Date { date, offset: self.offset }),
            _ => None,
        }
    }

    /// The previous UTC day with the same offset state.
    pub fn pred(&self) -> (r: Date<Off>)
        requires
            day_in_range(self.utc_day() - 1),
            day_in_range(self.local_day() - 1),
        ensures
            r.utc_day() == self.utc_day() - 1,
            r.state() == self.state(),
    {
        self.pred_opt().unwrap()
    }
}

impl<Off: Offset> Date<Off> {
    /// The local year.
    pub fn year(&self) -> (r: i32)
        ensures
            r == ymd_of(self.local_day()).0,
    {
        self.naive_local().year()
    }

    /// The local month, from 1.
    pub fn month(&self) -> (r: u32)
        ensures
            r == ymd_of(self.local_day()).1,
    {
        self.naive_local().month()
    }

    /// The local month, from 0.
    pub fn month0(&self) -> (r: u32)
        ensures
            r == ymd_of(self.local_day()).1 - 1,
    {
        self.naive_local().month0()
    }

    /// The local day of the month, from 1.
    pub fn day(&self) -> (r: u32)
        ensures
            r == ymd_of(self.local_day()).2,
    {
        self.naive_local().day()
    }

    /// The local day of the month, from 0.
    pub fn day0(&self) -> (r: u32)
        ensures
            r == ymd_of(self.local_day()).2 - 1,
    {
        self.naive_local().day0()
    }

    /// The local day of the year, from 1.
    pub fn ordinal(&self) -> (r: u32)
        ensures
            r == ordinal_of(self.local_day()),
    {
        self.naive_local().ordinal()
    }

    /// The local day of the year, from 0.
    pub fn ordinal0(&self) -> (r: u32)
        ensures
            r == ordinal_of(self.local_day()) - 1,
    {
        self.naive_local().ordinal0()
    }

    /// The local day of the week.
    pub fn weekday(&self) -> (r: Weekday)
        ensures
            r == weekday_of_index(weekday_index(self.local_day())),
    {
        self.naive_local().weekday()
    }

    /// The local ISO 8601 week date: week-based year, week and weekday.
    pub fn isoweekdate(&self) -> (r: (i32, u32, Weekday))
        ensures
            (r.0 as int, r.1 as int) == iso_week_of(self.local_day()),
            r.2 == weekday_of_index(weekday_index(self.local_day())),
    {
        self.naive_local().isoweekdate()
    }

    /// The local date moved to another year, resolved through the time zone.
    pub fn with_year(&self, year: i32) -> (r: Option<Date<Off>>)
        ensures
            ({
                let (_, m, d) = ymd_of(self.local_day());
                self.moved_to(r, valid_ymd(year as int, m, d), day_number(year as int, m, d))
            }),
    {
        map_local(self, self.naive_local().with_year(year))
    }

    /// The local date moved to another month (from 1), resolved through the time zone.
    pub fn with_month(&self, month: u32) -> (r: Option<Date<Off>>)
        ensures
            ({
                let (y, _, d) = ymd_of(self.local_day());
                self.moved_to(r, valid_ymd(y, month as int, d), day_number(y, month as int, d))
            }),
            month > 12 ==> r.is_none(),
    {
        map_local(self, self.naive_local().with_month(month))
    }

    /// The local date moved to another month (from 0), resolved through the time zone.
    pub fn with_month0(&self, month0: u32) -> (r: Option<Date<Off>>)
        ensures
            ({
                let (y, _, d) = ymd_of(self.local_day());
                self.moved_to(r, valid_ymd(y, month0 + 1, d), day_number(y, month0 + 1, d))
            }),
    {
        map_local(self, self.naive_local().with_month0(month0))
    }

    /// The local date moved to another day of the month (from 1), resolved through the time zone.
    pub fn with_day(&self, day: u32) -> (r: Option<Date<Off>>)
        ensures
            ({
                let (y, m, _) = ymd_of(self.local_day());
                self.moved_to(r, valid_ymd(y, m, day as int), day_number(y, m, day as int))
            }),
    {
        map_local(self, self.naive_local().with_day(day))
    }

    /// The local date moved to another day of the month (from 0), resolved through the time zone.
    pub fn with_day0(&self, day0: u32) -> (r: Option<Date<Off>>)
        ensures
            ({
                let (y, m, _) = ymd_of(self.local_day());
                self.moved_to(r, valid_ymd(y, m, day0 + 1), day_number(y, m, day0 + 1))
            }),
    {
        map_local(self, self.naive_local().with_day0(day0))
    }

    /// The local date moved to another day of the year (from 1), resolved through the time zone.
    pub fn with_ordinal(&self, ordinal: u32) -> (r: Option<Date<Off>>)
        ensures
            ({
                let y = ymd_of(self.local_day()).0;
                self.moved_to(
                    r,
                    1 <= ordinal <= days_in_year(y),
                    days_before_year(y) + ordinal - 1,
                )
            }),
    {
        map_local(self, self.naive_local().with_ordinal(ordinal))
    }

    /// The local date moved to another day of the year (from 0), resolved through the time zone.
    pub fn with_ordinal0(&self, ordinal0: u32) -> (r: Option<Date<Off>>)
        ensures
            ({
                let y = ymd_of(self.local_day()).0;
                self.moved_to(r, ordinal0 + 1 <= days_in_year(y), days_before_year(y) + ordinal0)
            }),
    {
        map_local(self, self.naive_local().with_ordinal0(ordinal0))
    }

    /// Two dates are equal when their UTC days are, whatever their offsets.
    pub fn eq<Off2: Offset>(&self, other: &Date<Off2>) -> (r: bool)
        ensures
            r == (self.utc_day() == other.utc_day()),
    {
        self.date.day_number() == other.date.day_number()
    }

    /// Orders by UTC day alone.
    pub fn cmp(&self, other: &Date<Off>) -> (r: Ordering)
        ensures
            (r == Ordering::Less) == (self.utc_day() < other.utc_day()),
            (r == Ordering::Equal) == (self.utc_day() == other.utc_day()),
            (r == Ordering::Greater) == (self.utc_day() > other.utc_day()),
    {
        let a = self.date.day_number();
        let b = other.date.day_number();
        if a < b {
            Ordering::Less
        } else if a == b {
            Ordering::Equal
        } else {
            Ordering::Greater
        }
    }

    /// Orders by UTC day alone; dates are always comparable.
    pub fn partial_cmp(&self, other: &Date<Off>) -> (r: Option<Ordering>)
        ensures
            r.is_some(),
            (r == Some(Ordering::Less)) == (self.utc_day() < other.utc_day()),
            (r == Some(Ordering::Equal)) == (self.utc_day() == other.utc_day()),
            (r == Some(Ordering::Greater)) == (self.utc_day() > other.utc_day()),
    {
        Some(self.cmp(other))
    }

    /// Moves the UTC day by the whole days of `rhs` (truncated toward zero);
    /// the offset state is kept as it is.
    pub fn add(self, rhs: Duration) -> (r: Date<Off>)
        requires
            day_in_range(self.utc_day() + trunc_days(rhs@)),
            day_in_range(self.local_day() + trunc_days(rhs@)),
        ensures
            r.utc_day() == self.utc_day() + trunc_days(rhs@),
            r.state() == self.state(),
    {
        let date = self.date.checked_add(&rhs).unwrap();
        Date { date, offset: self.offset }
    }

    /// Moves the UTC day back by the whole days of `rhs`; the same as adding `-rhs`.
    pub fn sub(self, rhs: Duration) -> (r: Date<Off>)
        requires
            day_in_range(self.utc_day() - trunc_days(rhs@)),
            day_in_range(self.local_day() - trunc_days(rhs@)),
        ensures
            r.utc_day() == self.utc_day() - trunc_days(rhs@),
            r.state() == self.state(),
    {
        self.add(rhs.neg())
    }

    /// The span between the UTC days of two dates, whatever their offsets.
    pub fn sub_date<Off2: Offset>(self, rhs: Date<Off2>) -> (r: Duration)
        ensures
            r@ == (self.utc_day() - rhs.utc_day()) * 86400,
    {
        self.date.signed_duration_since(&rhs.date)
    }

    /// The local date at `time`, resolved through the time zone: a value only
    /// where the zone maps that local instant to exactly one UTC instant.
    pub fn and_time(&self, time: NaiveTime) -> (r: Option<DateTime<Off>>)
        ensures
            self.composed(r, time@),
            !self.single_at(time@) ==> r.is_none(),
    {
        let local = NaiveDateTime::new(self.naive_local(), time);
        from_local_datetime(&self.timezone(), &local).single()
    }

    /// The local date at `hour`:`min`:`sec`, resolved through the time zone;
    /// `None` on an invalid time, a gap or an overlap.
    pub fn and_hms_opt(&self, hour: u32, min: u32, sec: u32) -> (r: Option<DateTime<Off>>)
        ensures
            valid_hms(hour as int, min as int, sec as int) ==> self.composed(
                r,
                (hour * 3600 + min * 60 + sec, 0int),
            ),
            !valid_hms(hour as int, min as int, sec as int) ==> r.is_none(),
    {
        match NaiveTime::from_hms_opt(hour, min, sec) {
            Some(time) => self.and_time(time),
            None => None,
        }
    }

    /// `and_hms_opt` where the time is valid and resolves to exactly one instant.
    pub fn and_hms(&self, hour: u32, min: u32, sec: u32) -> (r: DateTime<Off>)
        requires
            valid_hms(hour as int, min as int, sec as int),
            self.single_at((hour * 3600 + min * 60 + sec, 0int)),
        ensures
            self.composed(Some(r), (hour * 3600 + min * 60 + sec, 0int)),
    {
        self.and_hms_opt(hour, min, sec).unwrap()
    }

    /// As `and_hms_opt`, with milliseconds (up to 1999 for a leap second).
    pub fn and_hms_milli_opt(&self, hour: u32, min: u32, sec: u32, milli: u32) -> (r: Option<
        DateTime<Off>,
    >)
        ensures
            valid_hms(hour as int, min as int, sec as int) && milli < 2_000 ==> self.composed(
                r,
                (hour * 3600 + min * 60 + sec, milli * 1_000_000),
            ),
            !(valid_hms(hour as int, min as int, sec as int) && milli < 2_000) ==> r.is_none(),
    {
        match NaiveTime::from_hms_milli_opt(hour, min, sec, milli) {
            Some(time) => self.and_time(time),
            None => None,
        }
    }

    /// `and_hms_milli_opt` where the time is valid and resolves to exactly one instant.
    pub fn and_hms_milli(&self, hour: u32, min: u32, sec: u32, milli: u32) -> (r: DateTime<Off>)
        requires
            valid_hms(hour as int, min as int, sec as int) && milli < 2_000,
            self.single_at((hour * 3600 + min * 60 + sec, milli * 1_000_000)),
        ensures
            self.composed(Some(r), (hour * 3600 + min * 60 + sec, milli * 1_000_000)),
    {
        self.and_hms_milli_opt(hour, min, sec, milli).unwrap()
    }

    /// As `and_hms_opt`, with microseconds (up to 1999999 for a leap second).
    pub fn and_hms_micro_opt(&self, hour: u32, min: u32, sec: u32, micro: u32) -> (r: Option<
        DateTime<Off>,
    >)
        ensures
            valid_hms(hour as int, min as int, sec as int) && micro < 2_000_000 ==> self.composed(
                r,
                (hour * 3600 + min * 60 + sec, micro * 1_000),
            ),
            !(valid_hms(hour as int, min as int, sec as int) && micro < 2_000_000) ==> r.is_none(),
    {
        match NaiveTime::from_hms_micro_opt(hour, min, sec, micro) {
            Some(time) => self.and_time(time),
            None => None,
        }
    }

    /// `and_hms_micro_opt` where the time is valid and resolves to exactly one instant.
    pub fn and_hms_micro(&self, hour: u32, min: u32, sec: u32, micro: u32) -> (r: DateTime<Off>)
        requires
            valid_hms(hour as int, min as int, sec as int) && micro < 2_000_000,
            self.single_at((hour * 3600 + min * 60 + sec, micro * 1_000)),
        ensures
            self.composed(Some(r), (hour * 3600 + min * 60 + sec, micro * 1_000)),
    {
        self.and_hms_micro_opt(hour, min, sec, micro).unwrap()
    }

    /// As `and_hms_opt`, with nanoseconds (up to 1999999999 for a leap second).
    pub fn and_hms_nano_opt(&self, hour: u32, min: u32, sec: u32, nano: u32) -> (r: Option<
        DateTime<Off>,
    >)
        ensures
            valid_hms(hour as int, min as int, sec as int) && nano < 2_000_000_000
                ==> self.composed(r, (hour * 3600 + min * 60 + sec, nano as int)),
            !(valid_hms(hour as int, min as int, sec as int) && nano < 2_000_000_000)
                ==> r.is_none(),
    {
        match NaiveTime::from_hms_nano_opt(hour, min, sec, nano) {
            Some(time) => self.and_time(time),
            None => None,
        }
    }

    /// `and_hms_nano_opt` where the time is valid and resolves to exactly one instant.
    pub fn and_hms_nano(&self, hour: u32, min: u32, sec: u32, nano: u32) -> (r: DateTime<Off>)
        requires
            valid_hms(hour as int, min as int, sec as int) && nano < 2_000_000_000,
            self.single_at((hour * 3600 + min * 60 + sec, nano as int)),
        ensures
            self.composed(Some(r), (hour * 3600 + min * 60 + sec, nano as int)),
    {
        self.and_hms_nano_opt(hour, min, sec, nano).unwrap()
    }
}

impl Date<Utc> {
    /// The first representable date.
    pub fn min_value() -> (r: Date<Utc>)
        ensures
            r.utc_day() == min_day(),
    {
        Date { date: NaiveDate::min_value(), offset: Utc }
    }

    /// The last representable date.
    pub fn max_value() -> (r: Date<Utc>)
        ensures
            r.utc_day() == max_day(),
    {
        Date { date: NaiveDate::max_value(), offset: Utc }
    }
}

/// Resolves `local` through the zone of `d`: a value only where the zone
/// maps that local day to exactly one UTC day.
fn map_local<Off: Offset>(d: &Date<Off>, local: Option<NaiveDate>) -> (r: Option<Date<Off>>)
    ensures
        match local {
            Some(l) => d.moved_to(r, true, l@),
            None => r.is_none(),
        },
{
    match local {
        Some(l) => from_local_date(&d.timezone(), &l).single(),
        None => None,
    }
}

/// `d` is the date at local day `local` with state `s`.
pub open spec fn placed_date<Off: Offset>(d: Date<Off>, local: int, s: Off::State) -> bool {
    d.state() == s && d.local_day() == local
}

/// `r` holds, case for case, the dates that the states of `res` give at local day `local`.
pub open spec fn resolved_date_as<Off: Offset>(
    res: LocalResult<Off::State>,
    r: LocalResult<Date<Off>>,
    local: int,
) -> bool {
    match (res, r) {
        (LocalResult::Nonexistent, LocalResult::Nonexistent) => true,
        (LocalResult::Single(s), LocalResult::Single(d)) => placed_date(d, local, s),
        (LocalResult::Ambiguous(s, t), LocalResult::Ambiguous(d, e)) => placed_date(d, local, s)
            && placed_date(e, local, t),
        _ => false,
    }
}

fn place_date<Off: Offset>(tz: &Off, local: &NaiveDate, s: Off::State) -> (r: Date<Off>)
    requires
        day_in_range(local@ - trunc_days(s.offset_secs())),
        tz.utc_date_state(local@ - trunc_days(s.offset_secs())) == s,
    ensures
        placed_date(r, local@, s),
{
    let _ = local.day_number();
    let utc = local.checked_add(&s.local_minus_utc().neg()).unwrap();
    Date { date: utc, offset: s }
}

/// Resolves a local date through the time zone's local-direction query:
/// no date on a gap, one date, or two dates (earliest first) on an overlap.
pub fn from_local_date<Off: Offset>(tz: &Off, local: &NaiveDate) -> (r: LocalResult<Date<Off>>)
    ensures
        resolved_date_as(tz.local_date_result(local@), r, local@),
{
    match tz.state_from_local_date(local) {
        LocalResult::Nonexistent => LocalResult::Nonexistent,
        LocalResult::Single(s) => LocalResult::Single(place_date(tz, local, s)),
        LocalResult::Ambiguous(s, t) => LocalResult::Ambiguous(
            place_date(tz, local, s),
            place_date(tz, local, t),
        ),
    }
}

/// The date at UTC day `utc`, with the state that the time zone has in force there.
pub fn from_utc_date<Off: Offset>(tz: &Off, utc: &NaiveDate) -> (r: Date<Off>)
    requires
        day_in_range(local_day_of(utc@, tz.utc_date_state(utc@))),
    ensures
        r.utc_day() == utc@,
        r.state() == tz.utc_date_state(utc@),
{
    let s = tz.state_from_utc_date(utc);
    Date { date: *utc, offset: s }
}

/// The local date `year`-`month`-`day` in time zone `tz`, resolved as `from_local_date` does;
/// no date where the triple names no date.
pub fn ymd_opt<Off: Offset>(tz: &Off, year: i32, month: u32, day: u32) -> (r: LocalResult<
    Date<Off>,
>)
    ensures
        valid_ymd(year as int, month as int, day as int) ==> resolved_date_as(
            tz.local_date_result(day_number(year as int, month as int, day as int)),
            r,
            day_number(year as int, month as int, day as int),
        ),
        !valid_ymd(year as int, month as int, day as int) ==> r == LocalResult::<
            Date<Off>,
        >::Nonexistent,
{
    match NaiveDate::from_ymd_opt(year, month, day) {
        Some(d) => from_local_date(tz, &d),
        None => LocalResult::Nonexistent,
    }
}

/// Re-expressing a date in another zone and back keeps its UTC day; where
/// the zone it comes back to is the fixed offset it had, the date is unchanged.
pub proof fn lemma_with_timezone_round_trip(
    d: Date<FixedOffset>,
    tz2: FixedOffset,
    there: Date<FixedOffset>,
    back: Date<FixedOffset>,
)
    requires
        there.utc_day() == d.utc_day(),
        there.state() == tz2.utc_date_state(d.utc_day()),
        back.utc_day() == there.utc_day(),
        back.state() == d.zone().utc_date_state(there.utc_day()),
    ensures
        back == d,
{
    Date::lemma_parts_determine(back, d);
}

/// Whatever the zones, the way there and back keeps the UTC day, so the
/// result is equal to the date it started from.
pub proof fn lemma_with_timezone_keeps_day<Off: Offset, Off2: Offset>(
    d: Date<Off>,
    tz1: Off,
    tz2: Off2,
    there: Date<Off2>,
    back: Date<Off>,
)
    requires
        there.utc_day() == d.utc_day(),
        there.state() == tz2.utc_date_state(d.utc_day()),
        back.utc_day() == there.utc_day(),
        back.state() == tz1.utc_date_state(there.utc_day()),
    ensures
        back.utc_day() == d.utc_day(),
{
}

/// Dates on one UTC day are equal whatever their offsets; their local days
/// differ exactly where the offsets' whole days differ.
pub proof fn lemma_equality_ignores_offset<Off: Offset, Off2: Offset>(a: Date<Off>, b: Date<Off2>)
    requires
        a.utc_day() == b.utc_day(),
    ensures
        (a.local_day() == b.local_day()) == (trunc_days(a.state().offset_secs()) == trunc_days(
            b.state().offset_secs(),
        )),
{
}

/// The day after, then the day before, is the date itself; `pred` may always
/// be taken of what `succ` gave.
pub proof fn lemma_succ_then_pred<Off: Offset>(d: Date<Off>, next: Date<Off>, back: Date<Off>)
    requires
        d.valid(),
        next.utc_day() == d.utc_day() + 1,
        next.state() == d.state(),
        back.utc_day() == next.utc_day() - 1,
        back.state() == next.state(),
    ensures
        day_in_range(next.utc_day() - 1),
        day_in_range(next.local_day() - 1),
        back == d,
{
    Date::lemma_parts_determine(back, d);
}

/// The day before, then the day after, is the date itself; `succ` may always
/// be taken of what `pred` gave.
pub proof fn lemma_pred_then_succ<Off: Offset>(d: Date<Off>, prev: Date<Off>, back: Date<Off>)
    requires
        d.valid(),
        prev.utc_day() == d.utc_day() - 1,
        prev.state() == d.state(),
        back.utc_day() == prev.utc_day() + 1,
        back.state() == prev.state(),
    ensures
        day_in_range(prev.utc_day() + 1),
        day_in_range(prev.local_day() + 1),
        back == d,
{
    Date::lemma_parts_determine(back, d);
}

/// Adding a duration and then subtracting it gives the date back; subtracting
/// may always be done on what adding gave.
pub proof fn lemma_add_then_sub<Off: Offset>(d: Date<Off>, k: Duration, sum: Date<Off>, back: Date<Off>)
    requires
        d.valid(),
        sum.utc_day() == d.utc_day() + trunc_days(k@),
        sum.state() == d.state(),
        back.utc_day() == sum.utc_day() - trunc_days(k@),
        back.state() == sum.state(),
    ensures
        day_in_range(sum.utc_day() - trunc_days(k@)),
        day_in_range(sum.local_day() - trunc_days(k@)),
        back == d,
{
    Date::lemma_parts_determine(back, d);
}

/// The span from a date to the date plus a whole number of days is that duration.
pub proof fn lemma_add_then_difference<Off: Offset>(d: Date<Off>, k: Duration, sum: Date<Off>, span: Duration)
    requires
        k@ % 86400 == 0,
        sum.utc_day() == d.utc_day() + trunc_days(k@),
        span@ == (sum.utc_day() - d.utc_day()) * 86400,
    ensures
        span@ == k@,
{
}

/// Relies on std's `Hash` for `i32`, which feeds the integer to the hasher;
/// nothing is claimed of the hasher's state.
pub assume_specification<H: core::hash::Hasher>[ <i32 as core::hash::Hash>::hash::<H> ](
    data: &i32,
    state: &mut H,
);

/// Hashes the UTC day alone, as equality compares it alone.
impl<Off: Offset> core::hash::Hash for Date<Off> {
    fn hash<H: core::hash::Hasher>(&self, state: &mut H) {
        self.date.day_number().hash(state);
    }
}

impl<Off: Offset> Clone for Date<Off> {
    fn clone(&self) -> (r: Self)
        ensures
            r == *self,
    {
        proof {
            use_type_invariant(self);
        }
        Date { date: self.date, offset: self.offset }
    }
}

} // verus!
