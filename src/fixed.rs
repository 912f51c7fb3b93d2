//! Time zones with one offset for all instants: UTC and fixed offsets.
use vstd::prelude::*;
use crate::calendar::day_in_range;
use crate::duration::{trunc_days, Duration};
use crate::naive_date::NaiveDate;
use crate::naive_datetime::NaiveDateTime;
use crate::offset::{LocalResult, Offset, OffsetState};

verus! {

/// Coordinated Universal Time: local time equals UTC.
#[derive(Clone, Copy, Debug, PartialEq, Eq, Structural)]
pub struct Utc;

impl OffsetState for Utc {
    open spec fn offset_secs(&self) -> int {
        0
    }

    fn local_minus_utc(&self) -> (r: Duration) {
        Duration::zero()
    }
}

impl Offset for Utc {
    type State = Utc;

    open spec fn spec_from_state(state: Utc) -> Utc {
        Utc
    }

    open spec fn utc_date_state(&self, utc: int) -> Utc {
        Utc
    }

    open spec fn local_date_result(&self, local: int) -> LocalResult<Utc> {
        LocalResult::Single(Utc)
    }

    open spec fn utc_datetime_state(&self, utc: (int, int)) -> Utc {
        Utc
    }

    open spec fn local_datetime_result(&self, local: (int, int)) -> LocalResult<Utc> {
        LocalResult::Single(Utc)
    }

    fn from_state(state: &Utc) -> (r: Utc) {
        Utc
    }

    fn state_from_utc_date(&self, utc: &NaiveDate) -> (r: Utc) {
        Utc
    }

    fn state_from_local_date(&self, local: &NaiveDate) -> (r: LocalResult<Utc>) {
        let _ = local.day_number();
        LocalResult::Single(Utc)
    }

    fn state_from_utc_datetime(&self, utc: &NaiveDateTime) -> (r: Utc) {
        Utc
    }

    fn state_from_local_datetime(&self, local: &NaiveDateTime) -> (r: LocalResult<Utc>) {
        let _ = local.day_number();
        LocalResult::Single(Utc)
    }
}

/// The largest magnitude of a fixed offset, in seconds: just under one day.
pub const MAX_FIXED_OFFSET: i32 = 86_399;

/// A time zone whose local time is always UTC plus a fixed number of seconds.
#[derive(Clone, Copy, Debug, PartialEq, Eq, Structural)]
pub struct FixedOffset {
    local_minus_utc: i32,
}

impl FixedOffset {
    /// The offset in seconds east of UTC.
    pub closed spec fn secs(self) -> int {
        self.local_minus_utc as int
    }

    #[verifier::type_invariant]
    pub closed spec fn inv(self) -> bool {
        -MAX_FIXED_OFFSET <= self.local_minus_utc <= MAX_FIXED_OFFSET
    }

    /// The zone `secs` seconds east of UTC, or `None` where `secs` is a day or more.
    pub fn east_opt(secs: i32) -> (r: Option<FixedOffset>)
        ensures
            r.is_some() == (-MAX_FIXED_OFFSET <= secs <= MAX_FIXED_OFFSET),
            r.is_some() ==> r.unwrap().secs() == secs,
    {
        if secs < -MAX_FIXED_OFFSET || secs > MAX_FIXED_OFFSET {
            None
        } else {
            Some(FixedOffset { local_minus_utc: secs })
        }
    }

    /// The zone `secs` seconds west of UTC, or `None` where `secs` is a day or more.
    pub fn west_opt(secs: i32) -> (r: Option<FixedOffset>)
        ensures
            r.is_some() == (-MAX_FIXED_OFFSET <= secs <= MAX_FIXED_OFFSET),
            r.is_some() ==> r.unwrap().secs() == -secs,
    {
        if secs < -MAX_FIXED_OFFSET || secs > MAX_FIXED_OFFSET {
            None
        } else {
            Some(FixedOffset { local_minus_utc: -secs })
        }
    }

    pub fn local_minus_utc_secs(&self) -> (r: i32)
        ensures
            r == self.secs(),
            -MAX_FIXED_OFFSET <= r <= MAX_FIXED_OFFSET,
    {
        proof {
            use_type_invariant(self);
        }
        self.local_minus_utc
    }
}

impl OffsetState for FixedOffset {
    open spec fn offset_secs(&self) -> int {
        self.secs()
    }

    fn local_minus_utc(&self) -> (r: Duration) {
        Duration::seconds(self.local_minus_utc_secs() as i64)
    }
}

impl Offset for FixedOffset {
    type State = FixedOffset;

    open spec fn spec_from_state(state: FixedOffset) -> FixedOffset {
        state
    }

    open spec fn utc_date_state(&self, utc: int) -> FixedOffset {
        *self
    }

    /// A single match where the UTC day behind `local` is in range, else none.
    open spec fn local_date_result(&self, local: int) -> LocalResult<FixedOffset> {
        if day_in_range(local - trunc_days(self.secs())) {
            LocalResult::Single(*self)
        } else {
            LocalResult::Nonexistent
        }
    }

    open spec fn utc_datetime_state(&self, utc: (int, int)) -> FixedOffset {
        *self
    }

    /// A single match where the UTC instant behind `local` is in range, else none.
    open spec fn local_datetime_result(&self, local: (int, int)) -> LocalResult<FixedOffset> {
        if day_in_range((local.0 - self.secs()) / 86400) {
            LocalResult::Single(*self)
        } else {
            LocalResult::Nonexistent
        }
    }

    fn from_state(state: &FixedOffset) -> (r: FixedOffset) {
        *state
    }

    fn state_from_utc_date(&self, utc: &NaiveDate) -> (r: FixedOffset) {
        *self
    }

    fn state_from_local_date(&self, local: &NaiveDate) -> (r: LocalResult<FixedOffset>) {
        let back = self.local_minus_utc().neg();
        match local.checked_add(&back) {
            Some(_) => LocalResult::Single(*self),
            None => LocalResult::Nonexistent,
        }
    }

    fn state_from_utc_datetime(&self, utc: &NaiveDateTime) -> (r: FixedOffset) {
        *self
    }

    fn state_from_local_datetime(&self, local: &NaiveDateTime) -> (r: LocalResult<FixedOffset>) {
        let back = self.local_minus_utc().neg();
        match local.checked_add_signed(&back) {
            Some(_) => LocalResult::Single(*self),
            None => LocalResult::Nonexistent,
        }
    }
}

} // verus!
