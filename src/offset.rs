//! Time zones as a capability: the UTC-direction query is total, the
//! local-direction query tells apart no match, one match and two matches.
use vstd::prelude::*;
use crate::calendar::day_in_range;
use crate::duration::{trunc_days, Duration};
use crate::naive_date::NaiveDate;
use crate::naive_datetime::NaiveDateTime;

verus! {

/// The outcome of mapping a local date or time back to UTC.
#[derive(Clone, Copy, Debug, PartialEq, Eq)]
pub enum LocalResult<T> {
    /// The local value falls in a gap: no UTC instant maps to it.
    Nonexistent,
    /// Exactly one UTC instant maps to it.
    Single(T),
    /// Two UTC instants map to it, the earliest first.
    Ambiguous(T, T),
}

impl<T> LocalResult<T> {
    /// Every state that the result holds satisfies `p`.
    pub open spec fn all(self, p: spec_fn(T) -> bool) -> bool {
        match self {
            LocalResult::Nonexistent => true,
            LocalResult::Single(t) => p(t),
            LocalResult::Ambiguous(a, b) => p(a) && p(b),
        }
    }

    pub open spec fn single_spec(self) -> Option<T> {
        match self {
            LocalResult::Single(t) => Some(t),
            _ => None,
        }
    }

    /// The single state, or `None` on a gap or an overlap.
    pub fn single(self) -> (r: Option<T>)
        ensures
            r == self.single_spec(),
    {
        match self {
            LocalResult::Single(t) => Some(t),
            _ => None,
        }
    }

    /// The earliest state, `None` on a gap.
    pub fn earliest(self) -> (r: Option<T>)
        ensures
            r == match self {
                LocalResult::Nonexistent => None,
                LocalResult::Single(t) => Some(t),
                LocalResult::Ambiguous(a, _) => Some(a),
            },
    {
        match self {
            LocalResult::Nonexistent => None,
            LocalResult::Single(t) => Some(t),
            LocalResult::Ambiguous(a, _) => Some(a),
        }
    }

    /// The latest state, `None` on a gap.
    pub fn latest(self) -> (r: Option<T>)
        ensures
            r == match self {
                LocalResult::Nonexistent => None,
                LocalResult::Single(t) => Some(t),
                LocalResult::Ambiguous(_, b) => Some(b),
            },
    {
        match self {
            LocalResult::Nonexistent => None,
            LocalResult::Single(t) => Some(t),
            LocalResult::Ambiguous(_, b) => Some(b),
        }
    }
}

/// A resolved, fixed adjustment from UTC to local time.
pub trait OffsetState: Copy + Sized {
    /// Local time minus UTC, in seconds. Left unspecified by an impl that
    /// does not define it; nothing about such an impl is then proved.
    closed spec fn offset_secs(&self) -> int {
        arbitrary()
    }

    fn local_minus_utc(&self) -> (r: Duration)
        ensures
            r@ == self.offset_secs(),
    ;
}

/// A time zone: hands out the offset state in force at a UTC instant, and
/// classifies a local value as a gap, a single instant or an overlap.
///
/// The spec functions are left unspecified by an impl that does not define
/// them; the impls of this crate define each one.
pub trait Offset: Sized {
    type State: OffsetState;

    closed spec fn spec_from_state(state: Self::State) -> Self {
        arbitrary()
    }

    /// The state in force on the UTC day with day number `utc`.
    closed spec fn utc_date_state(&self, utc: int) -> Self::State {
        arbitrary()
    }

    /// How the local day with day number `local` maps back to UTC.
    closed spec fn local_date_result(&self, local: int) -> LocalResult<Self::State> {
        arbitrary()
    }

    /// The state in force at the UTC instant `utc` (seconds, nanoseconds).
    closed spec fn utc_datetime_state(&self, utc: (int, int)) -> Self::State {
        arbitrary()
    }

    /// How the local instant `local` (seconds, nanoseconds) maps back to UTC.
    closed spec fn local_datetime_result(&self, local: (int, int)) -> LocalResult<Self::State> {
        arbitrary()
    }

    /// Rebuilds the time zone from a state that it handed out.
    fn from_state(state: &Self::State) -> (r: Self)
        ensures
            r == Self::spec_from_state(*state),
    ;

    fn state_from_utc_date(&self, utc: &NaiveDate) -> (r: Self::State)
        ensures
            r == self.utc_date_state(utc@),
    ;

    /// Each state handed out belongs to a UTC day that is in range and
    /// that the state itself maps onto `local`.
    fn state_from_local_date(&self, local: &NaiveDate) -> (r: LocalResult<Self::State>)
        ensures
            r == self.local_date_result(local@),
            r.all(
                |s: Self::State|
                    day_in_range(local@ - trunc_days(s.offset_secs())) && self.utc_date_state(
                        local@ - trunc_days(s.offset_secs()),
                    ) == s,
            ),
    ;

    fn state_from_utc_datetime(&self, utc: &NaiveDateTime) -> (r: Self::State)
        ensures
            r == self.utc_datetime_state(utc@),
    ;

    /// Each state handed out belongs to a UTC instant that is in range and
    /// that the state itself maps onto `local`.
    fn state_from_local_datetime(&self, local: &NaiveDateTime) -> (r: LocalResult<Self::State>)
        ensures
            r == self.local_datetime_result(local@),
            r.all(
                |s: Self::State|
                    day_in_range((local@.0 - s.offset_secs()) / 86400) && self.utc_datetime_state(
                        (local@.0 - s.offset_secs(), local@.1),
                    ) == s,
            ),
    ;
}

} // verus!
