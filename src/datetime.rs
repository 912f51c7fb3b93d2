//! An instant anchored at UTC, paired with the offset state in force there.
use vstd::prelude::*;
use crate::calendar::day_in_range;
use crate::naive_datetime::NaiveDateTime;
use crate::offset::{LocalResult, Offset, OffsetState};

verus! {

/// A date and time of day kept in UTC, with the offset state that turns it into local time.
pub struct DateTime<Off: Offset> {
    datetime: NaiveDateTime,
    offset: Off::State,
}

impl<Off: Offset> DateTime<Off> {
    /// The UTC instant (seconds since 0001-01-01T00:00:00, nanoseconds).
    pub closed spec fn utc(self) -> (int, int) {
        self.datetime@
    }

    /// The offset state kept with the instant.
    pub closed spec fn state(self) -> Off::State {
        self.offset
    }

    /// The local instant: the UTC instant moved by the offset.
    pub open spec fn local(self) -> (int, int) {
        (self.utc().0 + self.state().offset_secs(), self.utc().1)
    }

    #[verifier::type_invariant]
    pub closed spec fn inv(self) -> bool {
        day_in_range((self.datetime@.0 + self.offset.offset_secs()) / 86400)
    }

    /// A value from its UTC date and time and an offset state; the local instant must be in range.
    pub fn from_utc(datetime: NaiveDateTime, offset: Off::State) -> (r: DateTime<Off>)
        requires
            day_in_range((datetime@.0 + offset.offset_secs()) / 86400),
        ensures
            r.utc() == datetime@,
            r.state() == offset,
    {
        DateTime { datetime, offset }
    }

    pub fn naive_utc(&self) -> (r: NaiveDateTime)
        ensures
            r@ == self.utc(),
    {
        self.datetime
    }

    pub fn naive_local(&self) -> (r: NaiveDateTime)
        ensures
            r@ == self.local(),
    {
        proof {
            use_type_invariant(self);
        }
        self.datetime.checked_add_signed(&self.offset.local_minus_utc()).unwrap()
    }

    pub fn offset(&self) -> (r: &Off::State)
        ensures
            *r == self.state(),
    {
        &self.offset
    }

    /// The time zone, rebuilt from the offset state.
    pub fn timezone(&self) -> (r: Off)
        ensures
            r == Off::spec_from_state(self.state()),
    {
        Off::from_state(&self.offset)
    }
}

/// `d` is the value at local instant `local` with state `s`.
pub open spec fn placed<Off: Offset>(d: DateTime<Off>, local: (int, int), s: Off::State) -> bool {
    d.state() == s && d.local() == local
}

/// `r` holds, case for case, the values that the states of `res` give at `local`.
pub open spec fn resolved_as<Off: Offset>(
    res: LocalResult<Off::State>,
    r: LocalResult<DateTime<Off>>,
    local: (int, int),
) -> bool {
    match (res, r) {
        (LocalResult::Nonexistent, LocalResult::Nonexistent) => true,
        (LocalResult::Single(s), LocalResult::Single(d)) => placed(d, local, s),
        (LocalResult::Ambiguous(s, t), LocalResult::Ambiguous(d, e)) => placed(d, local, s)
            && placed(e, local, t),
        _ => false,
    }
}

fn place<Off: Offset>(tz: &Off, local: &NaiveDateTime, s: Off::State) -> (r: DateTime<Off>)
    requires
        day_in_range((local@.0 - s.offset_secs()) / 86400),
        tz.utc_datetime_state((local@.0 - s.offset_secs(), local@.1)) == s,
    ensures
        placed(r, local@, s),
{
    let _ = local.day_number();
    let utc = local.checked_add_signed(&s.local_minus_utc().neg()).unwrap();
    DateTime { datetime: utc, offset: s }
}

/// Resolves a local date and time through the time zone's local-direction query:
/// no value on a gap, one value, or two values (earliest first) on an overlap.
pub fn from_local_datetime<Off: Offset>(tz: &Off, local: &NaiveDateTime) -> (r: LocalResult<
    DateTime<Off>,
>)
    ensures
        resolved_as(tz.local_datetime_result(local@), r, local@),
{
    match tz.state_from_local_datetime(local) {
        LocalResult::Nonexistent => LocalResult::Nonexistent,
        LocalResult::Single(s) => LocalResult::Single(place(tz, local, s)),
        LocalResult::Ambiguous(s, t) => LocalResult::Ambiguous(
            place(tz, local, s),
            place(tz, local, t),
        ),
    }
}

/// The value at UTC instant `utc`, with the state that the time zone has in force there.
pub fn from_utc_datetime<Off: Offset>(tz: &Off, utc: &NaiveDateTime) -> (r: DateTime<Off>)
    requires
        day_in_range((utc@.0 + tz.utc_datetime_state(utc@).offset_secs()) / 86400),
    ensures
        r.utc() == utc@,
        r.state() == tz.utc_datetime_state(utc@),
{
    let s = tz.state_from_utc_datetime(utc);
    DateTime { datetime: *utc, offset: s }
}

impl<Off: Offset> Clone for DateTime<Off> {
    fn clone(&self) -> (r: Self)
        ensures
            r == *self,
    {
        proof {
            use_type_invariant(self);
        }
        DateTime { datetime: self.datetime, offset: self.offset }
    }
}

} // verus!
