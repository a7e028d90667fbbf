//! Session time: signed nanoseconds since the start of a recording session.
use vstd::prelude::*;

verus! {

/// One instant of a session, in nanoseconds.
#[derive(Clone, Copy, Debug, PartialEq, Eq, PartialOrd, Ord, Hash, Structural)]
pub struct SessionTime {
    pub ns: i64,
}

/// The signed distance between two instants of a session, in nanoseconds.
#[derive(Clone, Copy, Debug, PartialEq, Eq, PartialOrd, Ord, Hash, Structural)]
pub struct SessionDuration {
    pub ns: i64,
}

impl SessionTime {
    pub fn from_ns(ns: i64) -> (time: Self)
        ensures
            time == (SessionTime { ns }),
    {
        SessionTime { ns }
    }

    pub fn as_ns(self) -> (ns: i64)
        ensures
            ns == self.ns,
    {
        self.ns
    }

    /// The start of the session.
    pub fn zero() -> (time: Self)
        ensures
            time == (SessionTime { ns: 0 }),
    {
        SessionTime { ns: 0 }
    }

    /// `self - earlier`, or `None` where the difference does not fit.
    pub fn checked_duration_since(self, earlier: Self) -> (duration: Option<SessionDuration>)
        ensures
            duration is Some <==> i64::MIN <= self.ns - earlier.ns <= i64::MAX,
            duration is Some ==> duration->0.ns == self.ns - earlier.ns,
    {
        match self.ns.checked_sub(earlier.ns) {
            Some(ns) => Some(SessionDuration { ns }),
            None => None,
        }
    }
}

impl SessionDuration {
    pub fn as_ns(self) -> (ns: i64)
        ensures
            ns == self.ns,
    {
        self.ns
    }
}

/// A duration leads from the earlier instant to the later one; it is missing exactly
/// where it cannot be counted.
pub proof fn durations_lead_from_instant_to_instant(
    earlier: SessionTime,
    later: SessionTime,
    duration: Option<SessionDuration>,
)
    requires
        call_ensures(SessionTime::checked_duration_since, (later, earlier), duration),
    ensures
        duration matches Some(elapsed) ==> earlier.ns + elapsed.ns == later.ns,
        duration is None <==> later.ns - earlier.ns > i64::MAX || later.ns - earlier.ns < i64::MIN,
{
}

/// An instant is its nanoseconds, and a session starts at zero.
pub proof fn instants_are_their_nanoseconds(ns: i64, time: SessionTime, back: i64, start: SessionTime)
    requires
        call_ensures(SessionTime::from_ns, (ns,), time),
        call_ensures(SessionTime::as_ns, (time,), back),
        call_ensures(SessionTime::zero, (), start),
    ensures
        back == ns,
        start.ns == 0,
{
}

} // verus!
