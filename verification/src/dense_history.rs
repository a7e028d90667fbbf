//! Rolling dense output: contiguous segments with unique ownership of every
//! instant that they cover.
use vstd::prelude::*;

use crate::error::{DenseHistoryError, ReanchorError};
use crate::payload::Payload;
use crate::ring::FixedRing;
use crate::time::SessionTime;

verus! {

/// The solution at one end of a segment.
#[derive(Clone, Copy, Debug, PartialEq)]
pub struct DenseEndpoint<P: Payload> {
    pub time: SessionTime,
    pub estimate: P::Estimate,
    pub specific_force_b: P::Vector,
    pub covariance: P::EndpointCovariance,
}

/// A piece of the solution between two endpoints.
#[derive(Clone, Copy, Debug, PartialEq)]
pub struct DenseSegment<P: Payload> {
    pub id: u64,
    pub start: DenseEndpoint<P>,
    pub end: DenseEndpoint<P>,
    pub attitude_delta: P::Vector,
    pub degraded: bool,
    pub degraded_input: bool,
}

/// Whether `before` became `after` in another navigation frame.
pub open spec fn endpoint_mapped<
    P: Payload,
    F: Fn(P::Estimate, P::EndpointCovariance) -> Result<
        (P::Estimate, P::EndpointCovariance),
        ReanchorError,
    >,
>(map: F, before: DenseEndpoint<P>, after: DenseEndpoint<P>) -> bool {
    &&& after.time == before.time
    &&& after.specific_force_b == before.specific_force_b
    &&& call_ensures(
        map,
        (before.estimate, before.covariance),
        Ok((after.estimate, after.covariance)),
    )
}

/// Whether `map` may refuse `endpoint` with `error`.
pub open spec fn endpoint_refused<
    P: Payload,
    F: Fn(P::Estimate, P::EndpointCovariance) -> Result<
        (P::Estimate, P::EndpointCovariance),
        ReanchorError,
    >,
>(map: F, endpoint: DenseEndpoint<P>, error: ReanchorError) -> bool {
    call_ensures(map, (endpoint.estimate, endpoint.covariance), Err(error))
}

/// Whether `map` may be called on everything.
pub open spec fn maps_endpoints<
    P: Payload,
    F: Fn(P::Estimate, P::EndpointCovariance) -> Result<
        (P::Estimate, P::EndpointCovariance),
        ReanchorError,
    >,
>(map: F) -> bool {
    forall|estimate: P::Estimate, covariance: P::EndpointCovariance| #[trigger]
        call_requires(map, (estimate, covariance))
}

impl<P: Payload> DenseEndpoint<P> {
    /// The endpoint in another navigation frame. Its time and its body-frame
    /// force do not change.
    pub fn mapped_reanchor<
        F: Fn(P::Estimate, P::EndpointCovariance) -> Result<
            (P::Estimate, P::EndpointCovariance),
            ReanchorError,
        >,
    >(self, map: &F) -> (r: Result<Self, ReanchorError>)
        requires
            maps_endpoints::<P, F>(*map),
        ensures
            r matches Ok(mapped) ==> endpoint_mapped(*map, self, mapped),
            r matches Err(error) ==> endpoint_refused(*map, self, error),
    {
        match map(self.estimate, self.covariance) {
            Ok(mapped) => Ok(
                DenseEndpoint {
                    time: self.time,
                    estimate: mapped.0,
                    specific_force_b: self.specific_force_b,
                    covariance: mapped.1,
                },
            ),
            Err(error) => Err(error),
        }
    }
}

impl<P: Payload> DenseSegment<P> {
    /// A segment takes time, and no more than can be counted.
    pub open spec fn wf(self) -> bool {
        self.start.time.ns < self.end.time.ns && self.end.time.ns - self.start.time.ns <= i64::MAX
    }

    /// Why two endpoints do not make a segment, if they do not.
    pub open spec fn segment_verdict(
        start: SessionTime,
        end: SessionTime,
        values_are_valid: bool,
    ) -> Result<(), DenseHistoryError> {
        if !(i64::MIN <= end.ns - start.ns <= i64::MAX) {
            Err(DenseHistoryError::TimeOverflow)
        } else if end.ns <= start.ns || !values_are_valid {
            Err(DenseHistoryError::InvalidSegment)
        } else {
            Ok(())
        }
    }

    /// A segment whose attitude follows the integrated inertial increment.
    /// `values_are_valid` is the verdict on the endpoint values: all finite,
    /// and the attitude correction below half a turn.
    pub fn new_imu_conditioned(
        id: u64,
        start: DenseEndpoint<P>,
        end: DenseEndpoint<P>,
        attitude_delta: P::Vector,
        degraded: bool,
        degraded_input: bool,
        values_are_valid: bool,
    ) -> (r: Result<Self, DenseHistoryError>)
        ensures
            match Self::segment_verdict(start.time, end.time, values_are_valid) {
                Err(error) => r == Err::<Self, DenseHistoryError>(error),
                Ok(_) => r == Ok::<Self, DenseHistoryError>(
                    DenseSegment { id, start, end, attitude_delta, degraded, degraded_input },
                ),
            },
            r is Ok ==> r->Ok_0.wf(),
    {
        let duration_ns: i64 = match end.time.ns.checked_sub(start.time.ns) {
            Some(ns) => ns,
            None => {
                return Err(DenseHistoryError::TimeOverflow);
            },
        };
        if duration_ns <= 0 || !values_are_valid {
            return Err(DenseHistoryError::InvalidSegment);
        }
        Ok(DenseSegment { id, start, end, attitude_delta, degraded, degraded_input })
    }

    pub fn start_time(&self) -> (time: SessionTime)
        ensures
            time == self.start.time,
    {
        self.start.time
    }

    pub fn end_time(&self) -> (time: SessionTime)
        ensures
            time == self.end.time,
    {
        self.end.time
    }

    pub fn integrated_attitude_delta(&self) -> (delta: P::Vector)
        ensures
            delta == self.attitude_delta,
    {
        self.attitude_delta
    }

    /// How far into the segment `time` lies, in nanoseconds.
    pub fn elapsed_ns(&self, time: SessionTime) -> (r: Result<i64, DenseHistoryError>)
        ensures
            r == (if time.ns < self.start.time.ns || time.ns > self.end.time.ns {
                Err::<i64, DenseHistoryError>(DenseHistoryError::OutsideSpan)
            } else if time.ns - self.start.time.ns > i64::MAX {
                Err(DenseHistoryError::TimeOverflow)
            } else {
                Ok((time.ns - self.start.time.ns) as i64)
            }),
    {
        if time.ns < self.start.time.ns || time.ns > self.end.time.ns {
            return Err(DenseHistoryError::OutsideSpan);
        }
        match time.ns.checked_sub(self.start.time.ns) {
            Some(ns) => Ok(ns),
            None => Err(DenseHistoryError::TimeOverflow),
        }
    }

    pub open spec fn mapped_by<
        F: Fn(P::Estimate, P::EndpointCovariance) -> Result<
            (P::Estimate, P::EndpointCovariance),
            ReanchorError,
        >,
    >(self, map: F, after: Self) -> bool {
        &&& after == DenseSegment { start: after.start, end: after.end, ..self }
        &&& endpoint_mapped(map, self.start, after.start)
        &&& endpoint_mapped(map, self.end, after.end)
    }

    pub open spec fn refused_by<
        F: Fn(P::Estimate, P::EndpointCovariance) -> Result<
            (P::Estimate, P::EndpointCovariance),
            ReanchorError,
        >,
    >(self, map: F, error: ReanchorError) -> bool {
        endpoint_refused(map, self.start, error) || endpoint_refused(map, self.end, error)
    }

    /// The segment in another navigation frame.
    pub fn mapped_reanchor<
        F: Fn(P::Estimate, P::EndpointCovariance) -> Result<
            (P::Estimate, P::EndpointCovariance),
            ReanchorError,
        >,
    >(self, map: &F) -> (r: Result<Self, ReanchorError>)
        requires
            maps_endpoints::<P, F>(*map),
        ensures
            r matches Ok(mapped) ==> self.mapped_by(*map, mapped),
            r matches Err(error) ==> self.refused_by(*map, error),
    {
        match self.start.mapped_reanchor(map) {
            Err(error) => Err(error),
            Ok(start) => match self.end.mapped_reanchor(map) {
                Err(error) => Err(error),
                Ok(end) => {
                    let mut mapped = self;
                    mapped.start = start;
                    mapped.end = end;
                    Ok(mapped)
                },
            },
        }
    }
}

/// Segments follow each other without holes, with increasing identifiers.
pub open spec fn contiguous<P: Payload>(segments: Seq<DenseSegment<P>>) -> bool {
    &&& forall|i: int| 0 <= i < segments.len() ==> (#[trigger] segments[i]).wf()
    &&& forall|i: int, j: int|
        #![trigger segments[i], segments[j]]
        0 <= i && j == i + 1 && j < segments.len() ==> segments[i].end.time
            == segments[j].start.time && segments[i].id < segments[j].id
}

/// Half-open ownership: a shared endpoint belongs to the segment on its right;
/// only the last segment owns its end.
pub open spec fn owns<P: Payload>(
    segments: Seq<DenseSegment<P>>,
    index: int,
    time: SessionTime,
) -> bool {
    &&& 0 <= index < segments.len()
    &&& segments[index].start.time.ns <= time.ns
    &&& time.ns < segments[index].end.time.ns || (index + 1 == segments.len() && time.ns
        == segments[index].end.time.ns)
}

/// Segments in order also stand in order of time.
pub proof fn contiguous_is_ordered<P: Payload>(segments: Seq<DenseSegment<P>>, i: int, j: int)
    requires
        contiguous(segments),
        0 <= i < j < segments.len(),
    ensures
        segments[i].end.time.ns <= segments[j].start.time.ns,
        segments[i].id < segments[j].id,
    decreases j - i,
{
    if i + 1 < j {
        contiguous_is_ordered(segments, i, j - 1);
        assert(segments[j - 1].wf());
        assert(segments[j - 1].end.time == segments[j].start.time);
    }
}

/// Every instant from the start of the first segment to the end of the last
/// one has exactly one owner; no other instant has any.
pub proof fn ownership_is_unique<P: Payload>(segments: Seq<DenseSegment<P>>, time: SessionTime)
    requires
        contiguous(segments),
        segments.len() > 0,
    ensures
        (exists|i: int| owns(segments, i, time)) <==> segments[0].start.time.ns <= time.ns
            <= segments.last().end.time.ns,
        forall|i: int, j: int| owns(segments, i, time) && owns(segments, j, time) ==> i == j,
{
    let last = segments.len() - 1;
    assert forall|i: int, j: int|
        owns(segments, i, time) && owns(segments, j, time) implies i == j by {
        if i < j {
            contiguous_is_ordered(segments, i, j);
            assert(segments[j].wf());
        } else if j < i {
            contiguous_is_ordered(segments, j, i);
            assert(segments[i].wf());
        }
    }
    if exists|i: int| owns(segments, i, time) {
        let i = choose|i: int| owns(segments, i, time);
        assert(segments[0].wf() && segments[i].wf() && segments[last].wf());
        if 0 < i {
            contiguous_is_ordered(segments, 0, i);
        }
        if i < last {
            contiguous_is_ordered(segments, i, last);
        }
    }
    if segments[0].start.time.ns <= time.ns <= segments.last().end.time.ns {
        owner_exists(segments, time, last);
    }
}

proof fn owner_exists<P: Payload>(segments: Seq<DenseSegment<P>>, time: SessionTime, upto: int)
    requires
        contiguous(segments),
        0 <= upto < segments.len(),
        segments[0].start.time.ns <= time.ns,
        time.ns < segments[upto].end.time.ns || (upto + 1 == segments.len() && time.ns
            == segments[upto].end.time.ns),
    ensures
        exists|i: int| owns(segments, i, time),
    decreases upto,
{
    if segments[upto].start.time.ns <= time.ns {
        assert(owns(segments, upto, time));
    } else {
        assert(segments[upto - 1].end.time == segments[upto].start.time);
        owner_exists(segments, time, upto - 1);
    }
}

/// At most `N` contiguous segments, oldest first.
#[derive(Clone, Copy, Debug, PartialEq)]
pub struct DenseHistory<P: Payload, const N: usize> {
    segments: FixedRing<DenseSegment<P>, N>,
}

/// Why `segment` cannot follow `segments`, if it cannot.
pub open spec fn append_verdict<P: Payload>(
    segments: Seq<DenseSegment<P>>,
    capacity: nat,
    segment: DenseSegment<P>,
) -> Result<(), DenseHistoryError> {
    if segments.len() == capacity {
        Err(DenseHistoryError::Capacity)
    } else if segments.len() > 0 && (segments.last().end.time != segment.start.time
        || segments.last().id >= segment.id) {
        Err(DenseHistoryError::Discontinuous)
    } else {
        Ok(())
    }
}

impl<P: Payload, const N: usize> View for DenseHistory<P, N> {
    type V = Seq<DenseSegment<P>>;

    closed spec fn view(&self) -> Seq<DenseSegment<P>> {
        self.segments@
    }
}

impl<P: Payload, const N: usize> DenseHistory<P, N> {
    pub closed spec fn wf(self) -> bool {
        &&& self.segments.wf()
        &&& contiguous(self.segments@)
    }

    /// What every history holds: at most `N` contiguous segments.
    pub proof fn wf_facts(self)
        requires
            self.wf(),
        ensures
            self@.len() <= N,
            contiguous(self@),
    {
        self.segments.wf_facts();
    }

    pub fn new() -> (history: Self)
        ensures
            history.wf(),
            history@ == Seq::<DenseSegment<P>>::empty(),
    {
        DenseHistory { segments: FixedRing::new() }
    }

    pub fn push(&mut self, segment: DenseSegment<P>) -> (r: Result<(), DenseHistoryError>)
        requires
            old(self).wf(),
            segment.wf(),
        ensures
            final(self).wf(),
            r == append_verdict(old(self)@, N as nat, segment),
            r is Ok ==> final(self)@ == old(self)@.push(segment),
            r is Err ==> *final(self) == *old(self),
    {
        proof {
            self.wf_facts();
        }
        if N == 0 || self.segments.len() == N {
            return Err(DenseHistoryError::Capacity);
        }
        if let Some(latest) = self.latest() {
            if latest.end.time != segment.start.time || latest.id >= segment.id {
                return Err(DenseHistoryError::Discontinuous);
            }
        }
        let ghost before = self.segments@;
        match self.segments.push_back(segment) {
            Ok(_) => {
                assert(contiguous(self.segments@)) by {
                    let after = before.push(segment);
                    assert forall|i: int, j: int|
                        #![trigger after[i], after[j]]
                        0 <= i && j == i + 1 && j < after.len() implies after[i].end.time
                        == after[j].start.time && after[i].id < after[j].id by {
                        if j < before.len() {
                            assert(after[i] == before[i] && after[j] == before[j]);
                        }
                    }
                }
                Ok(())
            },
            Err(_) => Err(DenseHistoryError::Capacity),
        }
    }

    pub fn oldest(&self) -> (segment: Option<&DenseSegment<P>>)
        requires
            self.wf(),
        ensures
            segment == (if self@.len() == 0 {
                None
            } else {
                Some(&self@[0])
            }),
    {
        self.segments.get(0)
    }

    pub fn latest(&self) -> (segment: Option<&DenseSegment<P>>)
        requires
            self.wf(),
        ensures
            segment == (if self@.len() == 0 {
                None
            } else {
                Some(&self@.last())
            }),
    {
        let len: usize = self.segments.len();
        if len == 0 {
            None
        } else {
            self.segments.get(len - 1)
        }
    }

    pub fn pop_oldest(&mut self) -> (segment: Option<DenseSegment<P>>)
        requires
            old(self).wf(),
        ensures
            final(self).wf(),
            old(self)@.len() == 0 ==> segment is None && *final(self) == *old(self),
            old(self)@.len() > 0 ==> segment == Some(old(self)@[0]) && final(self)@ == old(
                self,
            )@.subrange(1, old(self)@.len() as int),
    {
        let ghost before = self.segments@;
        let segment = self.segments.pop_front();
        proof {
            if before.len() > 0 {
                suffix_is_contiguous(before, 1);
            }
        }
        segment
    }

    /// Drops every segment that ends at or before `time`.
    pub fn discard_ending_at_or_before(&mut self, time: SessionTime) -> (discarded: usize)
        requires
            old(self).wf(),
        ensures
            final(self).wf(),
            discarded <= old(self)@.len(),
            final(self)@ == old(self)@.subrange(discarded as int, old(self)@.len() as int),
            forall|i: int|
                0 <= i < discarded ==> (#[trigger] old(self)@[i]).end.time.ns <= time.ns,
            forall|i: int|
                discarded <= i < old(self)@.len() ==> (#[trigger] old(self)@[i]).end.time.ns
                    > time.ns,
    {
        let ghost before = self@;
        let mut discarded: usize = 0;
        assert(before.subrange(0, before.len() as int) =~= before);
        proof {
            self.wf_facts();
        }
        loop
            invariant
                self.wf(),
                before == old(self)@,
                before.len() <= N,
                contiguous(before),
                discarded <= before.len(),
                self@ == before.subrange(discarded as int, before.len() as int),
                forall|i: int| 0 <= i < discarded ==> (#[trigger] before[i]).end.time.ns <= time.ns,
            ensures
                self.wf(),
                discarded <= before.len(),
                self@ == before.subrange(discarded as int, before.len() as int),
                forall|i: int| 0 <= i < discarded ==> (#[trigger] before[i]).end.time.ns <= time.ns,
                discarded < before.len() ==> before[discarded as int].end.time.ns > time.ns,
            decreases before.len() - discarded,
        {
            match self.oldest() {
                None => {
                    break;
                },
                Some(segment) => {
                    if segment.end.time.ns > time.ns {
                        break;
                    }
                },
            }
            let ghost current = self@;
            let popped = self.pop_oldest();
            discarded = discarded + 1;
            assert(current.subrange(1, current.len() as int) =~= before.subrange(
                discarded as int,
                before.len() as int,
            ));
        }
        proof {
            assert forall|i: int| discarded <= i < before.len() implies (
            #[trigger] before[i]).end.time.ns > time.ns by {
                if discarded < i {
                    contiguous_is_ordered(before, discarded as int, i);
                    assert(before[i].wf());
                }
            }
        }
        discarded
    }

    /// The segment that owns `time`.
    pub fn locate(&self, time: SessionTime) -> (r: Result<DenseSegment<P>, DenseHistoryError>)
        requires
            self.wf(),
        ensures
            r matches Ok(segment) ==> exists|i: int| #[trigger]
                owns(self@, i, time) && self@[i] == segment,
            r is Ok <==> self@.len() > 0 && self@[0].start.time.ns <= time.ns
                <= self@.last().end.time.ns,
            r is Err ==> r->Err_0 == DenseHistoryError::OutsideSpan,
    {
        proof {
            self.wf_facts();
            if self@.len() > 0 {
                ownership_is_unique(self@, time);
            }
        }
        let len: usize = self.segments.len();
        let mut offset: usize = 0;
        while offset < len
            invariant
                offset <= len,
                len == self@.len(),
                self.wf(),
                self@ == self.segments@,
                forall|i: int| 0 <= i < offset ==> !owns(self@, i, time),
                len > 0 ==> ((exists|i: int| owns(self@, i, time)) <==> self@[0].start.time.ns
                    <= time.ns <= self@.last().end.time.ns),
            decreases len - offset,
        {
            match self.segments.get(offset) {
                None => {
                    return Err(DenseHistoryError::OutsideSpan);
                },
                Some(segment) => {
                    let final_segment = offset + 1 == len;
                    if time.ns >= segment.start.time.ns && (time.ns < segment.end.time.ns || (
                    final_segment && time.ns == segment.end.time.ns)) {
                        assert(owns(self@, offset as int, time));
                        return Ok(*segment);
                    }
                    assert(!owns(self@, offset as int, time));
                },
            }
            offset = offset + 1;
        }
        Err(DenseHistoryError::OutsideSpan)
    }

    pub fn len(&self) -> (len: usize)
        requires
            self.wf(),
        ensures
            len == self@.len(),
            len <= N,
    {
        self.segments.len()
    }

    pub fn available(&self) -> (available: usize)
        requires
            self.wf(),
        ensures
            available == N - self@.len(),
    {
        self.segments.available()
    }

    /// The whole history in another navigation frame, or the first refusal.
    pub fn mapped_reanchor<
        F: Fn(P::Estimate, P::EndpointCovariance) -> Result<
            (P::Estimate, P::EndpointCovariance),
            ReanchorError,
        >,
    >(&self, map: &F) -> (r: Result<Self, DenseHistoryError>)
        requires
            self.wf(),
            maps_endpoints::<P, F>(*map),
        ensures
            r matches Ok(mapped) ==> mapped.wf() && mapped@.len() == self@.len() && forall|i: int|
                0 <= i < self@.len() ==> self@[i].mapped_by(*map, #[trigger] mapped@[i]),
            r matches Err(error) ==> error is Reanchor && exists|i: int|
                0 <= i < self@.len() && (#[trigger] self@[i]).refused_by(*map, error->Reanchor_0),
    {
        let mut mapped = *self;
        let len: usize = self.segments.len();
        let mut offset: usize = 0;
        while offset < len
            invariant
                offset <= len,
                len == self@.len(),
                self.wf(),
                mapped.segments.wf(),
                mapped.segments@.len() == len,
                maps_endpoints::<P, F>(*map),
                forall|i: int|
                    0 <= i < offset ==> self@[i].mapped_by(*map, #[trigger] mapped.segments@[i]),
                forall|i: int| offset <= i < len ==> (#[trigger] mapped.segments@[i]) == self@[i],
            decreases len - offset,
        {
            if let Some(segment) = self.segments.get(offset) {
                match segment.mapped_reanchor(map) {
                    Err(cause) => {
                        assert(*segment == self@[offset as int]);
                        return Err(DenseHistoryError::Reanchor(cause));
                    },
                    Ok(after) => {
                        mapped.segments.set(offset, after);
                    },
                }
            }
            offset = offset + 1;
        }
        proof {
            let before = self@;
            let after = mapped.segments@;
            assert forall|i: int| 0 <= i < after.len() implies (#[trigger] after[i]).wf() by {
                assert(before[i].wf());
                assert(before[i].mapped_by(*map, after[i]));
            }
            assert forall|i: int, j: int|
                #![trigger after[i], after[j]]
                0 <= i && j == i + 1 && j < after.len() implies after[i].end.time
                == after[j].start.time && after[i].id < after[j].id by {
                assert(before[i].mapped_by(*map, after[i]));
                assert(before[j].mapped_by(*map, after[j]));
                assert(before[i].end.time == before[j].start.time);
            }
        }
        Ok(mapped)
    }
}

proof fn suffix_is_contiguous<P: Payload>(segments: Seq<DenseSegment<P>>, from: int)
    requires
        contiguous(segments),
        0 <= from <= segments.len(),
    ensures
        contiguous(segments.subrange(from, segments.len() as int)),
{
    let rest = segments.subrange(from, segments.len() as int);
    assert forall|i: int| 0 <= i < rest.len() implies (#[trigger] rest[i]).wf() by {
        assert(rest[i] == segments[i + from]);
    }
    assert forall|i: int, j: int|
        #![trigger rest[i], rest[j]]
        0 <= i && j == i + 1 && j < rest.len() implies rest[i].end.time == rest[j].start.time
        && rest[i].id < rest[j].id by {
        assert(rest[i] == segments[i + from] && rest[j] == segments[j + from]);
    }
}

/// A segment is made of exactly what it was given, where that takes time and is
/// valid; otherwise the first thing that is wrong is named.
pub proof fn segments_hold_what_they_were_given<P: Payload>(
    given: DenseSegment<P>,
    values_are_valid: bool,
    made: Result<DenseSegment<P>, DenseHistoryError>,
)
    requires
        call_ensures(
            DenseSegment::<P>::new_imu_conditioned,
            (
                given.id,
                given.start,
                given.end,
                given.attitude_delta,
                given.degraded,
                given.degraded_input,
                values_are_valid,
            ),
            made,
        ),
    ensures
        made is Ok ==> made->Ok_0 == given,
        made is Ok <==> values_are_valid && 0 < given.end.time.ns - given.start.time.ns <= i64::MAX,
        made == Err::<DenseSegment<P>, DenseHistoryError>(DenseHistoryError::TimeOverflow) <==> (
        given.end.time.ns - given.start.time.ns > i64::MAX || given.end.time.ns
            - given.start.time.ns < i64::MIN),
        made is Err && made->Err_0 != DenseHistoryError::TimeOverflow ==> made->Err_0
            == DenseHistoryError::InvalidSegment,
{
}

/// A history takes a segment exactly if there is room and it goes on where the last
/// one ended, under a later identifier. What was there stays, and a refused segment
/// leaves no trace.
pub proof fn histories_grow_without_holes<P: Payload, const N: usize>(
    history: &mut DenseHistory<P, N>,
    segment: DenseSegment<P>,
    taken: Result<(), DenseHistoryError>,
)
    requires
        old(history).wf(),
        call_ensures(DenseHistory::<P, N>::push, (history, segment), taken),
    ensures
        ({
            let before = old(history)@;
            let after = final(history)@;
            let follows = before.len() > 0 ==> before[before.len() - 1].end.time
                == segment.start.time && before[before.len() - 1].id < segment.id;
            &&& taken is Ok <==> before.len() < N && follows
            &&& taken is Ok ==> after.len() == before.len() + 1 && after[after.len() - 1] == segment
            &&& taken is Ok ==> forall|i: int|
                0 <= i < before.len() ==> #[trigger] after[i] == before[i]
            &&& taken is Err ==> after == before
            &&& before.len() >= N ==> taken == Err::<(), DenseHistoryError>(
                DenseHistoryError::Capacity,
            )
            &&& before.len() < N && !follows ==> taken == Err::<(), DenseHistoryError>(
                DenseHistoryError::Discontinuous,
            )
        }),
{
    old(history).wf_facts();
}

/// Segments leave a history in the order in which they came, and unchanged.
pub proof fn oldest_segment_leaves_first<P: Payload, const N: usize>(
    history: &mut DenseHistory<P, N>,
    left: Option<DenseSegment<P>>,
)
    requires
        call_ensures(DenseHistory::<P, N>::pop_oldest, (history,), left),
    ensures
        left is None <==> old(history)@.len() == 0,
        left matches Some(segment) ==> old(history)@ == seq![segment] + final(history)@,
        left is None ==> final(history)@ == old(history)@,
{
    let before = old(history)@;
    if before.len() > 0 {
        assert(before =~= seq![before[0]] + final(history)@);
    }
}

/// Discarding removes exactly the segments that have ended by then, and keeps the
/// order of the others.
pub proof fn discarding_keeps_what_is_open<P: Payload, const N: usize>(
    history: &mut DenseHistory<P, N>,
    time: SessionTime,
    discarded: usize,
    segment: DenseSegment<P>,
)
    requires
        call_ensures(
            DenseHistory::<P, N>::discard_ending_at_or_before,
            (history, time),
            discarded,
        ),
    ensures
        final(history)@.contains(segment) <==> old(history)@.contains(segment)
            && segment.end.time.ns > time.ns,
        final(history)@.len() + discarded == old(history)@.len(),
        old(history)@.skip(discarded as int) == final(history)@,
{
    let before = old(history)@;
    let after = final(history)@;
    assert(before.skip(discarded as int) =~= after);
    if before.contains(segment) && segment.end.time.ns > time.ns {
        let i = choose|i: int| 0 <= i < before.len() && before[i] == segment;
        assert(after[i - discarded] == segment);
    }
    if after.contains(segment) {
        let i = choose|i: int| 0 <= i < after.len() && after[i] == segment;
        assert(before[i + discarded] == segment);
    }
}

/// An instant inside the history is found in the segment that it lies in; at a shared
/// boundary that is the later one. An instant outside has none.
pub proof fn instants_are_located_once<P: Payload, const N: usize>(
    history: DenseHistory<P, N>,
    time: SessionTime,
    found: Result<DenseSegment<P>, DenseHistoryError>,
)
    requires
        history.wf(),
        call_ensures(DenseHistory::<P, N>::locate, (&history, time), found),
    ensures
        found matches Ok(segment) ==> {
            &&& history@.contains(segment)
            &&& segment.start.time.ns <= time.ns <= segment.end.time.ns
            &&& time.ns == segment.end.time.ns ==> segment == history@.last()
        },
        found is Ok <==> exists|i: int|
            0 <= i < history@.len() && (#[trigger] history@[i]).start.time.ns <= time.ns
                <= history@[i].end.time.ns,
        found is Err ==> found->Err_0 == DenseHistoryError::OutsideSpan,
{
    history.wf_facts();
    let segments = history@;
    if exists|i: int|
        0 <= i < segments.len() && (#[trigger] segments[i]).start.time.ns <= time.ns
            <= segments[i].end.time.ns {
        let i = choose|i: int|
            0 <= i < segments.len() && (#[trigger] segments[i]).start.time.ns <= time.ns
                <= segments[i].end.time.ns;
        let last = segments.len() - 1;
        assert(segments[0].wf() && segments[i].wf() && segments[last].wf());
        if 0 < i {
            contiguous_is_ordered(segments, 0, i);
        }
        if i < last {
            contiguous_is_ordered(segments, i, last);
        }
    }
}

/// How far an instant lies into a segment: nothing at its start, the whole duration at
/// its end, and nothing is said of instants outside.
pub proof fn elapsed_time_is_measured_from_the_start<P: Payload>(
    segment: DenseSegment<P>,
    time: SessionTime,
    elapsed: Result<i64, DenseHistoryError>,
)
    requires
        call_ensures(DenseSegment::<P>::elapsed_ns, (&segment, time), elapsed),
    ensures
        elapsed matches Ok(ns) ==> segment.start.time.ns + ns == time.ns && 0 <= ns && time.ns
            <= segment.end.time.ns,
        segment.wf() && segment.start.time.ns <= time.ns <= segment.end.time.ns ==> elapsed is Ok,
        segment.start.time.ns > time.ns || time.ns > segment.end.time.ns ==> elapsed == Err::<
            i64,
            DenseHistoryError,
        >(DenseHistoryError::OutsideSpan),
{
}

/// Another navigation frame changes the values of a segment's ends and nothing else.
pub proof fn frames_keep_segments<
    P: Payload,
    F: Fn(P::Estimate, P::EndpointCovariance) -> Result<
        (P::Estimate, P::EndpointCovariance),
        ReanchorError,
    >,
    const N: usize,
>(
    history: DenseHistory<P, N>,
    map: F,
    mapped: Result<DenseHistory<P, N>, DenseHistoryError>,
    i: int,
)
    requires
        call_ensures(DenseHistory::<P, N>::mapped_reanchor::<F>, (&history, &map), mapped),
        0 <= i < history@.len(),
    ensures
        mapped matches Ok(after) ==> {
            let before = history@[i];
            &&& after@.len() == history@.len()
            &&& after@[i].id == before.id
            &&& after@[i].attitude_delta == before.attitude_delta
            &&& after@[i].degraded == before.degraded
            &&& after@[i].degraded_input == before.degraded_input
            &&& after@[i].start.time == before.start.time
            &&& after@[i].end.time == before.end.time
            &&& after@[i].start.specific_force_b == before.start.specific_force_b
            &&& after@[i].end.specific_force_b == before.end.specific_force_b
            &&& call_ensures(
                map,
                (before.start.estimate, before.start.covariance),
                Ok::<(P::Estimate, P::EndpointCovariance), ReanchorError>(
                    (after@[i].start.estimate, after@[i].start.covariance),
                ),
            )
            &&& call_ensures(
                map,
                (before.end.estimate, before.end.covariance),
                Ok::<(P::Estimate, P::EndpointCovariance), ReanchorError>(
                    (after@[i].end.estimate, after@[i].end.covariance),
                ),
            )
        },
{
    if let Ok(after) = mapped {
        assert(history@[i].mapped_by(map, after@[i]));
    }
}

/// The oldest and the latest segment are the first and the last one, and room is what is
/// not taken.
pub proof fn histories_tell_what_they_hold<P: Payload, const N: usize>(
    history: DenseHistory<P, N>,
    oldest: Option<&DenseSegment<P>>,
    latest: Option<&DenseSegment<P>>,
    len: usize,
    room: usize,
)
    requires
        call_ensures(DenseHistory::<P, N>::oldest, (&history,), oldest),
        call_ensures(DenseHistory::<P, N>::latest, (&history,), latest),
        call_ensures(DenseHistory::<P, N>::len, (&history,), len),
        call_ensures(DenseHistory::<P, N>::available, (&history,), room),
    ensures
        len == history@.len(),
        len + room == N,
        oldest is Some <==> len > 0,
        latest is Some <==> len > 0,
        len > 0 ==> *oldest->0 == history@[0] && *latest->0 == history@[len - 1],
{
}

/// An endpoint in another frame keeps its time and its force and has the values that the
/// map gives.
pub proof fn frames_keep_endpoints<
    P: Payload,
    F: Fn(P::Estimate, P::EndpointCovariance) -> Result<
        (P::Estimate, P::EndpointCovariance),
        ReanchorError,
    >,
>(endpoint: DenseEndpoint<P>, map: F, mapped: Result<DenseEndpoint<P>, ReanchorError>)
    requires
        call_ensures(DenseEndpoint::<P>::mapped_reanchor::<F>, (endpoint, &map), mapped),
    ensures
        mapped matches Ok(after) ==> after.time == endpoint.time && after.specific_force_b
            == endpoint.specific_force_b && call_ensures(
            map,
            (endpoint.estimate, endpoint.covariance),
            Ok::<(P::Estimate, P::EndpointCovariance), ReanchorError>(
                (after.estimate, after.covariance),
            ),
        ),
        mapped matches Err(error) ==> call_ensures(
            map,
            (endpoint.estimate, endpoint.covariance),
            Err::<(P::Estimate, P::EndpointCovariance), ReanchorError>(error),
        ),
{
}

} // verus!
