//! A signed span of whole seconds.
use vstd::prelude::*;

verus! {

/// The largest magnitude of a `Duration`, in seconds.
pub const MAX_SECS: i64 = 9_223_372_036_854_775;

pub const SECS_PER_DAY: i64 = 86400;

/// Whole days of a span of seconds, truncated toward zero.
pub open spec fn trunc_days(secs: int) -> int {
    if secs >= 0 {
        secs / 86400
    } else {
        -((-secs) / 86400)
    }
}

/// A signed span of time, kept in whole seconds.
#[derive(Clone, Copy, Debug, PartialEq, Eq, Structural)]
pub struct Duration {
    secs: i64,
}

impl View for Duration {
    type V = int;

    closed spec fn view(&self) -> int {
        self.secs as int
    }
}

impl Duration {
    #[verifier::type_invariant]
    pub closed spec fn inv(self) -> bool {
        -MAX_SECS <= self.secs <= MAX_SECS
    }

    pub open spec fn in_bounds(secs: int) -> bool {
        -MAX_SECS <= secs <= MAX_SECS
    }

    /// A duration of `secs` seconds.
    pub fn seconds(secs: i64) -> (r: Duration)
        requires
            Self::in_bounds(secs as int),
        ensures
            r@ == secs,
    {
        Duration { secs }
    }

    /// A duration of `hours` hours.
    pub fn hours(hours: i64) -> (r: Duration)
        requires
            Self::in_bounds(hours * 3600),
        ensures
            r@ == hours * 3600,
    {
        Duration { secs: hours * 3600 }
    }

    /// A duration of `days` days.
    pub fn days(days: i64) -> (r: Duration)
        requires
            Self::in_bounds(days * 86400),
        ensures
            r@ == days * 86400,
    {
        Duration { secs: days * SECS_PER_DAY }
    }

    pub fn zero() -> (r: Duration)
        ensures
            r@ == 0,
    {
        Duration { secs: 0 }
    }

    pub fn num_seconds(&self) -> (r: i64)
        ensures
            r == self@,
            Self::in_bounds(r as int),
    {
        proof {
            use_type_invariant(self);
        }
        self.secs
    }

    /// Whole days, truncated toward zero.
    pub fn num_days(&self) -> (r: i64)
        ensures
            r == trunc_days(self@),
            -106_751_991_167 <= r <= 106_751_991_167,
    {
        proof {
            use_type_invariant(self);
        }
        if self.secs >= 0 {
            self.secs / SECS_PER_DAY
        } else {
            -((-self.secs) / SECS_PER_DAY)
        }
    }

    pub fn neg(&self) -> (r: Duration)
        ensures
            r@ == -self@,
    {
        proof {
            use_type_invariant(self);
        }
        Duration { secs: -self.secs }
    }
}

} // verus!
