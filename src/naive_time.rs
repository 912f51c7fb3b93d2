//! Times of day without a time zone.
use vstd::prelude::*;

verus! {

pub open spec fn valid_hms(h: int, m: int, s: int) -> bool {
    0 <= h < 24 && 0 <= m < 60 && 0 <= s < 60
}

/// A time of day: whole seconds since midnight and a fraction in nanoseconds.
/// The fraction may reach past one second to represent a leap second.
#[derive(Clone, Copy, Debug, PartialEq, Eq, Structural)]
pub struct NaiveTime {
    secs: u32,
    frac: u32,
}

impl View for NaiveTime {
    type V = (int, int);

    /// (seconds since midnight, nanoseconds)
    closed spec fn view(&self) -> (int, int) {
        (self.secs as int, self.frac as int)
    }
}

impl NaiveTime {
    #[verifier::type_invariant]
    pub closed spec fn inv(self) -> bool {
        self.secs < 86400 && self.frac < 2_000_000_000
    }

    /// The time `h`:`m`:`s` with `nano` nanoseconds, or `None` where a field is out of range.
    pub fn from_hms_nano_opt(hour: u32, min: u32, sec: u32, nano: u32) -> (r: Option<NaiveTime>)
        ensures
            r.is_some() == (valid_hms(hour as int, min as int, sec as int) && nano
                < 2_000_000_000),
            r.is_some() ==> r.unwrap()@ == (hour * 3600 + min * 60 + sec, nano as int),
    {
        if hour >= 24 || min >= 60 || sec >= 60 || nano >= 2_000_000_000 {
            return None;
        }
        Some(NaiveTime { secs: hour * 3600 + min * 60 + sec, frac: nano })
    }

    pub fn from_hms_opt(hour: u32, min: u32, sec: u32) -> (r: Option<NaiveTime>)
        ensures
            r.is_some() == valid_hms(hour as int, min as int, sec as int),
            r.is_some() ==> r.unwrap()@ == (hour * 3600 + min * 60 + sec, 0int),
    {
        NaiveTime::from_hms_nano_opt(hour, min, sec, 0)
    }

    pub fn from_hms_milli_opt(hour: u32, min: u32, sec: u32, milli: u32) -> (r: Option<
        NaiveTime,
    >)
        ensures
            r.is_some() == (valid_hms(hour as int, min as int, sec as int) && milli < 2_000),
            r.is_some() ==> r.unwrap()@ == (hour * 3600 + min * 60 + sec, milli * 1_000_000),
    {
        if milli >= 2_000 {
            return None;
        }
        NaiveTime::from_hms_nano_opt(hour, min, sec, milli * 1_000_000)
    }

    pub fn from_hms_micro_opt(hour: u32, min: u32, sec: u32, micro: u32) -> (r: Option<
        NaiveTime,
    >)
        ensures
            r.is_some() == (valid_hms(hour as int, min as int, sec as int) && micro
                < 2_000_000),
            r.is_some() ==> r.unwrap()@ == (hour * 3600 + min * 60 + sec, micro * 1_000),
    {
        if micro >= 2_000_000 {
            return None;
        }
        NaiveTime::from_hms_nano_opt(hour, min, sec, micro * 1_000)
    }

    /// The time from seconds since midnight and nanoseconds.
    pub fn from_num_seconds_from_midnight(secs: u32, nano: u32) -> (r: NaiveTime)
        requires
            secs < 86400,
            nano < 2_000_000_000,
        ensures
            r@ == (secs as int, nano as int),
    {
        NaiveTime { secs, frac: nano }
    }

    pub fn num_seconds_from_midnight(&self) -> (r: u32)
        ensures
            r == self@.0,
            r < 86400,
    {
        proof {
            use_type_invariant(self);
        }
        self.secs
    }

    pub fn nanosecond(&self) -> (r: u32)
        ensures
            r == self@.1,
            r < 2_000_000_000,
    {
        proof {
            use_type_invariant(self);
        }
        self.frac
    }

    pub fn hour(&self) -> (r: u32)
        ensures
            r == self@.0 / 3600,
    {
        self.num_seconds_from_midnight() / 3600
    }

    pub fn minute(&self) -> (r: u32)
        ensures
            r == self@.0 / 60 % 60,
    {
        self.num_seconds_from_midnight() / 60 % 60
    }

    pub fn second(&self) -> (r: u32)
        ensures
            r == self@.0 % 60,
    {
        self.num_seconds_from_midnight() % 60
    }
}

} // verus!
