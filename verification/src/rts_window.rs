//! Fixed-lag smoothing window: which nodes are retained, how far the backward
//! pass has come, and what may be published.
use vstd::prelude::*;

use crate::dense_history::{DenseEndpoint, DenseSegment};
use crate::dense_history::{endpoint_mapped, endpoint_refused, maps_endpoints};
use crate::error::{DenseHistoryError, ReanchorError};
use crate::gnss::GnssQualityUpdate;
use crate::payload::Payload;
use crate::ring::FixedRing;
use crate::time::SessionTime;

verus! {

/// Longest accepted smoothing lag.
pub const MAX_SMOOTHING_LAG_NS: i64 = 100_000_000;

/// Most nodes that a window retains.
pub const RTS_NODE_CAPACITY: usize = 64;

/// Price of one backward step.
pub const RTS_STEP_CREDITS: u16 = 64;

/// One retained epoch of the forward filter.
#[derive(Clone, Copy, Debug, PartialEq)]
pub struct RtsNode<P: Payload> {
    pub time: SessionTime,
    /// The filtered segment that ends at this node, once it is complete.
    pub incoming: Option<DenseSegment<P>>,
    pub endpoint: DenseEndpoint<P>,
    pub quality: Option<GnssQualityUpdate<P>>,
}

/// The next backward work.
#[derive(Clone, Copy, Debug, PartialEq, Eq, Structural)]
pub enum SmoothingWork {
    /// Every endpoint is as smooth as the retained evidence allows.
    Complete,
    /// Smooth the node at `slot` from its successor at `next_slot`. Where
    /// `terminal_slot` is set, the pass begins with that node's filtered
    /// values.
    Step { slot: usize, next_slot: usize, terminal_slot: Option<usize> },
}

/// What a window holds, as plain values.
#[verifier::ext_equal]
pub struct RtsWindowModel<P: Payload> {
    pub nodes: Seq<RtsNode<P>>,
    /// Whether an accepted observation has not been smoothed backwards yet.
    pub dirty: bool,
    /// The node that the running backward pass handles next.
    pub cursor: Option<int>,
    /// The end of what was published last; it never moves again.
    pub frozen_start: Option<DenseEndpoint<P>>,
}

/// A duration, within the range of durations.
pub open spec fn saturated(ns: int) -> int {
    if ns > i64::MAX {
        i64::MAX as int
    } else if ns < i64::MIN {
        i64::MIN as int
    } else {
        ns
    }
}

impl<P: Payload> RtsWindowModel<P> {
    pub open spec fn empty() -> Self {
        RtsWindowModel { nodes: Seq::empty(), dirty: false, cursor: None, frozen_start: None }
    }

    /// Node times increase, endpoints and segments lie on them, the frozen
    /// start is the first node, and a running pass has a node to smooth.
    pub open spec fn valid(self) -> bool {
        &&& self.nodes.len() <= RTS_NODE_CAPACITY
        &&& forall|i: int|
            0 <= i < self.nodes.len() ==> (#[trigger] self.nodes[i]).endpoint.time
                == self.nodes[i].time
        &&& forall|i: int, j: int|
            #![trigger self.nodes[i], self.nodes[j]]
            0 <= i && j == i + 1 && j < self.nodes.len() ==> {
                &&& self.nodes[i].time.ns < self.nodes[j].time.ns
                &&& self.nodes[j].incoming is Some ==> self.nodes[j].incoming->0.start.time
                    == self.nodes[i].time && self.nodes[j].incoming->0.end.time
                    == self.nodes[j].time
            }
        &&& self.frozen_start is Some ==> self.nodes.len() > 0 && self.frozen_start->0.time
            == self.nodes[0].time
        &&& self.cursor is Some ==> self.dirty && 0 <= self.cursor->0 < self.nodes.len() - 1
    }

    /// Whether backward work or publication is due at filter time `at`. A
    /// running pass is always due, so nothing else can interleave with it.
    pub open spec fn ready(self, at: SessionTime, lag_ns: int, flush: bool) -> bool {
        &&& self.nodes.len() >= 2
        &&& flush || self.cursor is Some || saturated(at.ns - self.nodes[1].time.ns) >= lag_ns
    }

    /// Where the published part ends.
    pub open spec fn publication_start(self) -> DenseEndpoint<P> {
        match self.frozen_start {
            Some(endpoint) => endpoint,
            None => self.nodes[0].endpoint,
        }
    }

    /// The next segment to publish.
    pub open spec fn publication(self) -> DenseSegment<P> {
        DenseSegment {
            start: self.publication_start(),
            end: self.nodes[1].endpoint,
            ..self.nodes[1].incoming->0
        }
    }

    /// The window after its first segment was published.
    pub open spec fn published(self) -> Self {
        RtsWindowModel {
            nodes: self.nodes.subrange(1, self.nodes.len() as int),
            frozen_start: Some(self.nodes[1].endpoint),
            ..self
        }
    }
}

#[derive(Clone, Copy, Debug, PartialEq)]
pub struct RtsWindow<P: Payload> {
    nodes: FixedRing<RtsNode<P>, RTS_NODE_CAPACITY>,
    dirty: bool,
    cursor: Option<usize>,
    frozen_start: Option<DenseEndpoint<P>>,
}

impl<P: Payload> View for RtsWindow<P> {
    type V = RtsWindowModel<P>;

    closed spec fn view(&self) -> RtsWindowModel<P> {
        RtsWindowModel {
            nodes: self.nodes@,
            dirty: self.dirty,
            cursor: match self.cursor {
                Some(offset) => Some(offset as int),
                None => None,
            },
            frozen_start: self.frozen_start,
        }
    }
}

impl<P: Payload> RtsWindow<P> {
    pub closed spec fn wf(self) -> bool {
        &&& self.nodes.wf()
        &&& self@.valid()
    }

    pub proof fn wf_facts(self)
        requires
            self.wf(),
        ensures
            self@.valid(),
    {
    }

    pub fn new() -> (window: Self)
        ensures
            window.wf(),
            window@ == RtsWindowModel::<P>::empty(),
    {
        RtsWindow { nodes: FixedRing::new(), dirty: false, cursor: None, frozen_start: None }
    }

    pub fn is_empty(&self) -> (empty: bool)
        requires
            self.wf(),
        ensures
            empty == (self@.nodes.len() == 0),
    {
        self.nodes.len() == 0
    }

    /// Whether anything is retained beyond the published boundary.
    pub fn has_tail(&self) -> (tail: bool)
        requires
            self.wf(),
        ensures
            tail == (self@.nodes.len() > 1),
    {
        self.nodes.len() > 1
    }

    /// Whether a backward pass is running.
    pub fn is_busy(&self) -> (busy: bool)
        ensures
            busy == (self@.cursor is Some),
    {
        self.cursor.is_some()
    }

    pub fn is_full(&self) -> (full: bool)
        requires
            self.wf(),
        ensures
            full == (self@.nodes.len() == RTS_NODE_CAPACITY),
    {
        self.nodes.len() == RTS_NODE_CAPACITY
    }

    pub fn len(&self) -> (len: usize)
        requires
            self.wf(),
        ensures
            len == self@.nodes.len(),
            len <= RTS_NODE_CAPACITY,
    {
        self.nodes.len()
    }

    pub fn clear(&mut self)
        ensures
            final(self).wf(),
            final(self)@ == RtsWindowModel::<P>::empty(),
    {
        self.nodes = FixedRing::new();
        self.dirty = false;
        self.cursor = None;
        self.frozen_start = None;
    }

    /// The storage slot of the node at `offset`.
    pub closed spec fn slot(self, offset: int) -> int {
        self.nodes.spec_slot_of(offset)
    }

    /// Whether every node of `after` is where `self` has its node of the same
    /// age.
    pub open spec fn keeps_slots(self, after: Self) -> bool {
        forall|i: int| #[trigger] after.slot(i) == self.slot(i)
    }

    /// Whether `after` has released its oldest slot and left the other nodes
    /// where they were.
    pub open spec fn releases_first_slot(self, after: Self) -> bool {
        &&& forall|i: int|
            0 <= i < RTS_NODE_CAPACITY - 1 ==> #[trigger] after.slot(i) == self.slot(i + 1)
        &&& after.slot(RTS_NODE_CAPACITY - 1) == self.slot(0)
    }

    /// The storage slot of the node at `offset`, counted from the oldest one.
    pub fn slot_at(&self, offset: usize) -> (slot: Option<usize>)
        requires
            self.wf(),
        ensures
            slot is Some <==> offset < self@.nodes.len(),
            slot is Some ==> slot->0 == self.slot(offset as int) && slot->0 < RTS_NODE_CAPACITY,
    {
        if offset < self.nodes.len() {
            Some(self.nodes.slot_of(offset))
        } else {
            None
        }
    }

    /// The storage slot of the newest node.
    pub fn newest_slot(&self) -> (slot: Option<usize>)
        requires
            self.wf(),
        ensures
            slot is Some <==> self@.nodes.len() > 0,
            slot is Some ==> slot->0 == self.slot(self@.nodes.len() - 1) && slot->0
                < RTS_NODE_CAPACITY,
    {
        let len: usize = self.nodes.len();
        if len == 0 {
            None
        } else {
            self.slot_at(len - 1)
        }
    }

    /// Begins a window with the committed filter at `endpoint`.
    pub fn seed(&mut self, endpoint: DenseEndpoint<P>, quality: Option<GnssQualityUpdate<P>>)
        requires
            old(self).wf(),
            old(self)@.nodes.len() == 0,
        ensures
            final(self).wf(),
            final(self)@ == (RtsWindowModel {
                nodes: seq![RtsNode { time: endpoint.time, incoming: None, endpoint, quality }],
                ..old(self)@
            }),
            old(self).keeps_slots(*final(self)),
    {
        let node = RtsNode { time: endpoint.time, incoming: None, endpoint, quality };
        let pushed = self.nodes.push_back(node);
        assert(self.nodes@ =~= seq![node]);
    }

    /// Appends a node at which the filter has only been propagated.
    pub fn push_prediction(
        &mut self,
        endpoint: DenseEndpoint<P>,
        quality: Option<GnssQualityUpdate<P>>,
    )
        requires
            old(self).wf(),
            0 < old(self)@.nodes.len() < RTS_NODE_CAPACITY,
            old(self)@.cursor is None,
            old(self)@.nodes.last().time.ns < endpoint.time.ns,
        ensures
            final(self).wf(),
            final(self)@ == (RtsWindowModel {
                nodes: old(self)@.nodes.push(
                    RtsNode { time: endpoint.time, incoming: None, endpoint, quality },
                ),
                ..old(self)@
            }),
            old(self).keeps_slots(*final(self)),
    {
        let pushed = self.nodes.push_back(
            RtsNode { time: endpoint.time, incoming: None, endpoint, quality },
        );
        assert(self@.valid()) by {
            let before = old(self)@.nodes;
            let after = self@.nodes;
            assert forall|i: int, j: int|
                #![trigger after[i], after[j]]
                0 <= i && j == i + 1 && j < after.len() implies {
                &&& after[i].time.ns < after[j].time.ns
                &&& after[j].incoming is Some ==> after[j].incoming->0.start.time == after[i].time
                    && after[j].incoming->0.end.time == after[j].time
            } by {
                if j < before.len() {
                    assert(after[i] == before[i] && after[j] == before[j]);
                }
            }
        }
    }

    /// Completes the newest node with the filtered segment that ends there.
    pub fn finish_node(
        &mut self,
        incoming: DenseSegment<P>,
        quality: Option<GnssQualityUpdate<P>>,
    )
        requires
            old(self).wf(),
            old(self)@.nodes.len() > 0,
            old(self)@.nodes.last().time == incoming.end.time,
            old(self)@.nodes.len() > 1 ==> old(self)@.nodes[old(self)@.nodes.len() - 2].time
                == incoming.start.time,
        ensures
            final(self).wf(),
            final(self)@ == (RtsWindowModel {
                nodes: old(self)@.nodes.update(
                    old(self)@.nodes.len() - 1,
                    RtsNode {
                        time: incoming.end.time,
                        incoming: Some(incoming),
                        endpoint: incoming.end,
                        quality,
                    },
                ),
                ..old(self)@
            }),
            old(self).keeps_slots(*final(self)),
    {
        let len: usize = self.nodes.len();
        self.nodes.set(
            len - 1,
            RtsNode {
                time: incoming.end.time,
                incoming: Some(incoming),
                endpoint: incoming.end,
                quality,
            },
        );
        assert(self@.valid()) by {
            let before = old(self)@.nodes;
            let after = self@.nodes;
            assert forall|i: int, j: int|
                #![trigger after[i], after[j]]
                0 <= i && j == i + 1 && j < after.len() implies {
                &&& after[i].time.ns < after[j].time.ns
                &&& after[j].incoming is Some ==> after[j].incoming->0.start.time == after[i].time
                    && after[j].incoming->0.end.time == after[j].time
            } by {
                assert(after[i] == before[i]);
                assert(before[i].time.ns < before[j].time.ns);
            }
        }
    }

    /// New evidence makes the retained endpoints improvable.
    pub fn observation_accepted(&mut self)
        requires
            old(self).wf(),
        ensures
            final(self).wf(),
            final(self)@ == (RtsWindowModel { dirty: true, ..old(self)@ }),
            old(self).keeps_slots(*final(self)),
    {
        self.dirty = true;
    }

    pub fn ready(&self, at: SessionTime, lag_ns: i64, flush: bool) -> (ready: bool)
        requires
            self.wf(),
        ensures
            ready == self@.ready(at, lag_ns as int, flush),
    {
        match self.nodes.get(1) {
            None => false,
            Some(node) => flush || self.cursor.is_some() || lag_ns == i64::MIN || at.ns as i128
                - node.time.ns as i128 >= lag_ns as i128,
        }
    }

    /// The next backward work. Beginning a pass fixes the node it starts from.
    pub fn begin_step(&mut self) -> (work: SmoothingWork)
        requires
            old(self).wf(),
            old(self)@.dirty ==> old(self)@.nodes.len() > 0,
        ensures
            final(self).wf(),
            ({
                let before = old(self)@;
                let last = before.nodes.len() - 1;
                if !before.dirty || (before.cursor is None && before.nodes.len() < 2) {
                    &&& work == SmoothingWork::Complete
                    &&& final(self)@ == (RtsWindowModel { dirty: false, ..before })
                } else {
                    let offset = match before.cursor {
                        Some(offset) => offset,
                        None => last - 1,
                    };
                    &&& work is Step
                    &&& work->slot == old(self).slot(offset)
                    &&& work->next_slot == old(self).slot(offset + 1)
                    &&& work->terminal_slot is Some <==> before.cursor is None
                    &&& work->terminal_slot is Some ==> work->terminal_slot->0 == old(self).slot(
                        last,
                    )
                    &&& work->slot < RTS_NODE_CAPACITY && work->next_slot < RTS_NODE_CAPACITY
                    &&& final(self)@ == (RtsWindowModel { cursor: Some(offset), ..before })
                }
            }),
            old(self).keeps_slots(*final(self)),
    {
        if !self.dirty {
            return SmoothingWork::Complete;
        }
        let len: usize = self.nodes.len();
        let mut terminal_slot: Option<usize> = None;
        let offset: usize = match self.cursor {
            Some(offset) => offset,
            None => {
                if len < 2 {
                    self.dirty = false;
                    return SmoothingWork::Complete;
                }
                terminal_slot = Some(self.nodes.slot_of(len - 1));
                self.cursor = Some(len - 2);
                len - 2
            },
        };
        SmoothingWork::Step {
            slot: self.nodes.slot_of(offset),
            next_slot: self.nodes.slot_of(offset + 1),
            terminal_slot,
        }
    }

    /// Takes over the smoothed values of the node that `begin_step` named.
    /// Returns whether the pass is complete.
    pub fn commit_step(&mut self, estimate: P::Estimate, covariance: P::EndpointCovariance) -> (done:
        bool)
        requires
            old(self).wf(),
            old(self)@.cursor is Some,
        ensures
            final(self).wf(),
            done == (old(self)@.cursor->0 == 0),
            ({
                let before = old(self)@;
                let offset = before.cursor->0;
                let node = before.nodes[offset];
                final(self)@ == (RtsWindowModel {
                    nodes: before.nodes.update(
                        offset,
                        RtsNode {
                            endpoint: DenseEndpoint { estimate, covariance, ..node.endpoint },
                            ..node
                        },
                    ),
                    dirty: !done,
                    cursor: if done {
                        None
                    } else {
                        Some(offset - 1)
                    },
                    ..before
                })
            }),
            old(self).keeps_slots(*final(self)),
    {
        let offset: usize = match self.cursor {
            Some(offset) => offset,
            None => {
                return true;
            },
        };
        if let Some(current) = self.nodes.get(offset) {
            let mut node = *current;
            node.endpoint.estimate = estimate;
            node.endpoint.covariance = covariance;
            self.nodes.set(offset, node);
        }
        if offset == 0 {
            self.cursor = None;
            self.dirty = false;
        } else {
            self.cursor = Some(offset - 1);
        }
        assert(self@.valid()) by {
            let before = old(self)@.nodes;
            let after = self@.nodes;
            assert forall|i: int| 0 <= i < after.len() implies (#[trigger] after[i]).endpoint.time
                == after[i].time by {
                assert(before[i].endpoint.time == before[i].time);
            }
            assert forall|i: int, j: int|
                #![trigger after[i], after[j]]
                0 <= i && j == i + 1 && j < after.len() implies {
                &&& after[i].time.ns < after[j].time.ns
                &&& after[j].incoming is Some ==> after[j].incoming->0.start.time == after[i].time
                    && after[j].incoming->0.end.time == after[j].time
            } by {
                assert(before[i].time.ns < before[j].time.ns);
            }
        }
        offset == 0
    }

    /// The segment that would be published next.
    pub fn publication(&self) -> (r: Option<DenseSegment<P>>)
        requires
            self.wf(),
        ensures
            r is Some <==> self@.nodes.len() >= 2 && self@.nodes[1].incoming is Some,
            r is Some ==> r->0 == self@.publication(),
    {
        match (self.nodes.get(0), self.nodes.get(1)) {
            (Some(first), Some(next)) => match next.incoming {
                None => None,
                Some(incoming) => {
                    let mut segment = incoming;
                    segment.start =
                    match self.frozen_start {
                        Some(endpoint) => endpoint,
                        None => first.endpoint,
                    };
                    segment.end = next.endpoint;
                    Some(segment)
                },
            },
            _ => None,
        }
    }

    /// Publishes the first segment and freezes its end. `values_are_valid` is
    /// the verdict on the values of that segment.
    pub fn publish_one(&mut self, values_are_valid: bool) -> (r: Result<
        (DenseSegment<P>, Option<GnssQualityUpdate<P>>, Option<GnssQualityUpdate<P>>),
        DenseHistoryError,
    >)
        requires
            old(self).wf(),
            old(self)@.nodes.len() >= 2,
            !old(self)@.dirty,
        ensures
            final(self).wf(),
            ({
                let before = old(self)@;
                let segment = before.publication();
                if before.nodes[1].incoming is None {
                    &&& r is Err && r->Err_0 == DenseHistoryError::Corrupt
                    &&& *final(self) == *old(self)
                } else if DenseSegment::<P>::segment_verdict(
                    segment.start.time,
                    segment.end.time,
                    values_are_valid,
                ) is Err {
                    &&& r is Err && r->Err_0 == DenseSegment::<P>::segment_verdict(
                        segment.start.time,
                        segment.end.time,
                        values_are_valid,
                    )->Err_0
                    &&& *final(self) == *old(self)
                } else {
                    &&& r is Ok && r->Ok_0.0 == segment && r->Ok_0.1 == before.nodes[0].quality
                        && r->Ok_0.2 == before.nodes[1].quality
                    &&& segment.wf()
                    &&& final(self)@ == before.published()
                    &&& old(self).releases_first_slot(*final(self))
                }
            }),
    {
        let segment = match self.publication() {
            None => {
                return Err(DenseHistoryError::Corrupt);
            },
            Some(segment) => segment,
        };
        let checked = match DenseSegment::new_imu_conditioned(
            segment.id,
            segment.start,
            segment.end,
            segment.attitude_delta,
            segment.degraded,
            segment.degraded_input,
            values_are_valid,
        ) {
            Err(error) => {
                return Err(error);
            },
            Ok(checked) => checked,
        };
        let next_quality = match self.nodes.get(1) {
            Some(next) => next.quality,
            None => None,
        };
        let first = self.nodes.pop_front();
        self.frozen_start = Some(checked.end);
        assert(self@.valid()) by {
            let before = old(self)@.nodes;
            let after = self@.nodes;
            assert forall|i: int| 0 <= i < after.len() implies (#[trigger] after[i]).endpoint.time
                == after[i].time by {
                assert(after[i] == before[i + 1]);
            }
            assert forall|i: int, j: int|
                #![trigger after[i], after[j]]
                0 <= i && j == i + 1 && j < after.len() implies {
                &&& after[i].time.ns < after[j].time.ns
                &&& after[j].incoming is Some ==> after[j].incoming->0.start.time == after[i].time
                    && after[j].incoming->0.end.time == after[j].time
            } by {
                assert(after[i] == before[i + 1] && after[j] == before[j + 1]);
            }
        }
        match first {
            Some(node) => Ok((checked, node.quality, next_quality)),
            None => Err(DenseHistoryError::Corrupt),
        }
    }

    /// Whether `after` is `self` in another navigation frame.
    pub open spec fn mapped_by<
        F: Fn(P::Estimate, P::EndpointCovariance) -> Result<
            (P::Estimate, P::EndpointCovariance),
            ReanchorError,
        >,
    >(self, map: F, after: Self) -> bool {
        &&& self.keeps_slots(after)
        &&& after@.dirty == self@.dirty
        &&& after@.cursor == self@.cursor
        &&& after@.nodes.len() == self@.nodes.len()
        &&& forall|i: int|
            0 <= i < self@.nodes.len() ==> node_mapped(map, self@.nodes[i], #[trigger] after@.nodes[i])
        &&& match (self@.frozen_start, after@.frozen_start) {
            (None, None) => true,
            (Some(before), Some(after)) => endpoint_mapped(map, before, after),
            _ => false,
        }
    }

    /// The window in another navigation frame. A running pass refuses, since
    /// half of it would stay in the old frame.
    pub fn mapped_reanchor<
        F: Fn(P::Estimate, P::EndpointCovariance) -> Result<
            (P::Estimate, P::EndpointCovariance),
            ReanchorError,
        >,
    >(&self, map: &F) -> (r: Result<Self, ReanchorError>)
        requires
            self.wf(),
            maps_endpoints::<P, F>(*map),
        ensures
            self@.cursor is Some ==> r == Err::<Self, ReanchorError>(ReanchorError::NonFinite),
            r matches Ok(after) ==> after.wf() && self.mapped_by(*map, after),
            r matches Err(error) ==> self@.cursor is Some || (self@.frozen_start is Some
                && endpoint_refused(*map, self@.frozen_start->0, error)) || exists|i: int|
                0 <= i < self@.nodes.len() && node_refused(*map, #[trigger] self@.nodes[i], error),
    {
        if self.cursor.is_some() {
            return Err(ReanchorError::NonFinite);
        }
        let mut after = *self;
        let len: usize = self.nodes.len();
        let mut offset: usize = 0;
        while offset < len
            invariant
                offset <= len,
                len == self@.nodes.len(),
                self.wf(),
                after.nodes.wf(),
                after.nodes@.len() == len,
                after.dirty == self.dirty,
                self.cursor is None,
                after.cursor is None,
                after.frozen_start == self.frozen_start,
                maps_endpoints::<P, F>(*map),
                forall|i: int|
                    0 <= i < offset ==> node_mapped(*map, self@.nodes[i], #[trigger] after.nodes@[i]),
                forall|i: int| offset <= i < len ==> (#[trigger] after.nodes@[i]) == self@.nodes[i],
                forall|i: int|
                    #[trigger] after.nodes.spec_slot_of(i) == self.nodes.spec_slot_of(i),
            decreases len - offset,
        {
            if let Some(current) = self.nodes.get(offset) {
                let mut node = *current;
                assert(node == self@.nodes[offset as int]);
                node.endpoint =
                match node.endpoint.mapped_reanchor(map) {
                    Err(error) => {
                        return Err(error);
                    },
                    Ok(endpoint) => endpoint,
                };
                if let Some(incoming) = node.incoming {
                    node.incoming =
                    match incoming.mapped_reanchor(map) {
                        Err(error) => {
                            return Err(error);
                        },
                        Ok(segment) => Some(segment),
                    };
                }
                after.nodes.set(offset, node);
            }
            offset = offset + 1;
        }
        if let Some(endpoint) = self.frozen_start {
            after.frozen_start =
            match endpoint.mapped_reanchor(map) {
                Err(error) => {
                    return Err(error);
                },
                Ok(endpoint) => Some(endpoint),
            };
        }
        assert(after@.valid()) by {
            let old_nodes = self@.nodes;
            let new_nodes = after@.nodes;
            assert forall|i: int| 0 <= i < new_nodes.len() implies (
            #[trigger] new_nodes[i]).endpoint.time == new_nodes[i].time by {
                assert(node_mapped(*map, old_nodes[i], new_nodes[i]));
                assert(old_nodes[i].endpoint.time == old_nodes[i].time);
            }
            assert forall|i: int, j: int|
                #![trigger new_nodes[i], new_nodes[j]]
                0 <= i && j == i + 1 && j < new_nodes.len() implies {
                &&& new_nodes[i].time.ns < new_nodes[j].time.ns
                &&& new_nodes[j].incoming is Some ==> new_nodes[j].incoming->0.start.time
                    == new_nodes[i].time && new_nodes[j].incoming->0.end.time == new_nodes[j].time
            } by {
                assert(node_mapped(*map, old_nodes[i], new_nodes[i]));
                assert(node_mapped(*map, old_nodes[j], new_nodes[j]));
                assert(old_nodes[i].time.ns < old_nodes[j].time.ns);
            }
            if len > 0 {
                assert(node_mapped(*map, old_nodes[0], new_nodes[0]));
            }
        }
        Ok(after)
    }
}

pub open spec fn node_mapped<
    P: Payload,
    F: Fn(P::Estimate, P::EndpointCovariance) -> Result<
        (P::Estimate, P::EndpointCovariance),
        ReanchorError,
    >,
>(map: F, before: RtsNode<P>, after: RtsNode<P>) -> bool {
    &&& after.time == before.time
    &&& after.quality == before.quality
    &&& endpoint_mapped(map, before.endpoint, after.endpoint)
    &&& match (before.incoming, after.incoming) {
        (None, None) => true,
        (Some(before), Some(after)) => before.mapped_by(map, after),
        _ => false,
    }
}

pub open spec fn node_refused<
    P: Payload,
    F: Fn(P::Estimate, P::EndpointCovariance) -> Result<
        (P::Estimate, P::EndpointCovariance),
        ReanchorError,
    >,
>(map: F, node: RtsNode<P>, error: ReanchorError) -> bool {
    endpoint_refused(map, node.endpoint, error) || (node.incoming is Some
        && node.incoming->0.refused_by(map, error))
}

/// Published boundaries never move: each publication starts at the very
/// endpoint, values included, at which the one before it ended.
pub proof fn publications_are_contiguous<P: Payload>(window: RtsWindowModel<P>)
    requires
        window.valid(),
        window.nodes.len() >= 2,
        window.nodes[1].incoming is Some,
    ensures
        window.published().publication_start() == window.publication().end,
        window.publication().end.time == window.nodes[1].time,
        window.publication().start.time == window.nodes[0].time,
        window.publication().start.time.ns < window.publication().end.time.ns,
{
    assert(window.nodes[0].endpoint.time == window.nodes[0].time);
    assert(window.nodes[1].endpoint.time == window.nodes[1].time);
    assert(window.nodes[0].time.ns < window.nodes[1].time.ns);
}

/// What is published is the filtered segment that ends at the first open node, with
/// smoothed ends. Its identity, its attitude increment and both of its degradation
/// flags are those of the filtered segment: what covers a gap stays degraded.
pub proof fn publication_smooths_only_the_ends<P: Payload>(
    window: RtsWindow<P>,
    next: Option<DenseSegment<P>>,
)
    requires
        call_ensures(RtsWindow::<P>::publication, (&window,), next),
    ensures
        next is None <==> window@.nodes.len() < 2 || window@.nodes[1].incoming is None,
        next matches Some(segment) ==> {
            let filtered = window@.nodes[1].incoming->0;
            &&& segment.id == filtered.id
            &&& segment.attitude_delta == filtered.attitude_delta
            &&& segment.degraded == filtered.degraded
            &&& segment.degraded_input == filtered.degraded_input
            &&& segment.end == window@.nodes[1].endpoint
            &&& window@.frozen_start is Some ==> segment.start == window@.frozen_start->0
            &&& window@.frozen_start is None ==> segment.start == window@.nodes[0].endpoint
        },
{
}

/// Publishing hands out what was announced, with the quality at both of its ends. The
/// first node leaves the window, the end of the segment is frozen, and everything
/// later stays as it is. A refusal changes nothing.
pub proof fn publishing_hands_out_what_was_announced<P: Payload>(
    window: &mut RtsWindow<P>,
    values_are_valid: bool,
    announced: Option<DenseSegment<P>>,
    published: Result<
        (DenseSegment<P>, Option<GnssQualityUpdate<P>>, Option<GnssQualityUpdate<P>>),
        DenseHistoryError,
    >,
)
    requires
        old(window)@.nodes.len() >= 2,
        call_ensures(RtsWindow::<P>::publication, (&*old(window),), announced),
        call_ensures(RtsWindow::<P>::publish_one, (window, values_are_valid), published),
    ensures
        published matches Ok((segment, start_quality, end_quality)) ==> {
            let nodes = old(window)@.nodes;
            let after = final(window)@;
            &&& announced == Some(segment)
            &&& values_are_valid
            &&& segment.start.time.ns < segment.end.time.ns
            &&& start_quality == nodes[0].quality
            &&& end_quality == nodes[1].quality
            &&& after.frozen_start == Some(segment.end)
            &&& after.nodes.len() == nodes.len() - 1
            &&& forall|i: int| 0 <= i < after.nodes.len() ==> #[trigger] after.nodes[i] == nodes[i + 1]
            &&& after.cursor == old(window)@.cursor
            &&& after.dirty == old(window)@.dirty
        },
        published is Err ==> *final(window) == *old(window),
        announced is None ==> published matches Err(DenseHistoryError::Corrupt),
        announced is Some && !values_are_valid ==> published is Err,
        announced matches Some(segment) && values_are_valid && 0 < segment.end.time.ns
            - segment.start.time.ns <= i64::MAX ==> published is Ok,
{
}

/// Two publications in a row meet: the second one begins with the very values with
/// which the first one ended.
pub proof fn consecutive_publications_meet<P: Payload>(
    window: &mut RtsWindow<P>,
    first_is_valid: bool,
    first: (DenseSegment<P>, Option<GnssQualityUpdate<P>>, Option<GnssQualityUpdate<P>>),
    second: Option<DenseSegment<P>>,
)
    requires
        old(window)@.nodes.len() >= 2,
        call_ensures(
            RtsWindow::<P>::publish_one,
            (window, first_is_valid),
            Ok::<
                (DenseSegment<P>, Option<GnssQualityUpdate<P>>, Option<GnssQualityUpdate<P>>),
                DenseHistoryError,
            >(first),
        ),
        call_ensures(RtsWindow::<P>::publication, (&*final(window),), second),
    ensures
        second matches Some(segment) ==> segment.start == first.0.end && segment.end
            == old(window)@.nodes[2].endpoint && segment.id == old(window)@.nodes[2].incoming->0.id,
{
}

/// A backward step gives the node at the cursor new values and nothing else: times,
/// forces, qualities, filtered segments and all other nodes stay. The cursor moves
/// one node towards the oldest one, and the pass ends there.
pub proof fn backward_step_touches_one_node<P: Payload>(
    window: &mut RtsWindow<P>,
    estimate: P::Estimate,
    covariance: P::EndpointCovariance,
    done: bool,
)
    requires
        old(window).wf(),
        old(window)@.cursor is Some,
        call_ensures(RtsWindow::<P>::commit_step, (window, estimate, covariance), done),
    ensures
        ({
            let before = old(window)@;
            let after = final(window)@;
            let at = before.cursor->0;
            &&& after.nodes.len() == before.nodes.len()
            &&& after.nodes[at].endpoint.estimate == estimate
            &&& after.nodes[at].endpoint.covariance == covariance
            &&& after.nodes[at].endpoint.time == before.nodes[at].endpoint.time
            &&& after.nodes[at].endpoint.specific_force_b
                == before.nodes[at].endpoint.specific_force_b
            &&& after.nodes[at].time == before.nodes[at].time
            &&& after.nodes[at].incoming == before.nodes[at].incoming
            &&& after.nodes[at].quality == before.nodes[at].quality
            &&& forall|i: int|
                0 <= i < before.nodes.len() && i != at ==> #[trigger] after.nodes[i]
                    == before.nodes[i]
            &&& after.frozen_start == before.frozen_start
            &&& at > 0 ==> !done && after.dirty && after.cursor == Some(at - 1)
            &&& at == 0 ==> done && !after.dirty && after.cursor is None
        }),
{
    old(window).wf_facts();
}

/// A pass begins at the last node but one, from the values of the newest node, and
/// goes on where it stands. Nothing is smoothed without new evidence, and nothing but
/// the cursor moves when a step begins.
pub proof fn passes_run_backwards_from_the_newest_node<P: Payload>(
    window: &mut RtsWindow<P>,
    work: SmoothingWork,
)
    requires
        old(window).wf(),
        old(window)@.dirty ==> old(window)@.nodes.len() > 0,
        call_ensures(RtsWindow::<P>::begin_step, (window,), work),
    ensures
        ({
            let before = old(window)@;
            let after = final(window)@;
            let len = before.nodes.len();
            &&& work is Complete <==> !before.dirty || len < 2
            &&& work is Complete ==> !after.dirty && after.cursor is None
            &&& work matches SmoothingWork::Step { slot, next_slot, terminal_slot } ==> {
                &&& after.dirty
                &&& after.cursor is Some
                &&& slot == old(window).slot(after.cursor->0)
                &&& next_slot == old(window).slot(after.cursor->0 + 1)
                &&& before.cursor is Some ==> after.cursor == before.cursor && terminal_slot is None
                &&& before.cursor is None ==> after.cursor->0 + 2 == len && terminal_slot == Some(
                    next_slot,
                )
            }
            &&& after.nodes == before.nodes
            &&& after.frozen_start == before.frozen_start
        }),
{
    old(window).wf_facts();
}

/// Work is due as soon as the second node is a lag behind, at once when the rest is
/// flushed, and in any case while a pass is running. Raising the lag never makes
/// anything due earlier.
pub proof fn lag_delays_publication<P: Payload>(
    window: RtsWindow<P>,
    at: SessionTime,
    lag_ns: i64,
    flush: bool,
    due: bool,
)
    requires
        0 <= lag_ns,
        call_ensures(RtsWindow::<P>::ready, (&window, at, lag_ns, flush), due),
    ensures
        window@.nodes.len() < 2 ==> !due,
        window@.nodes.len() >= 2 && (flush || window@.cursor is Some) ==> due,
        window@.nodes.len() >= 2 && !flush && window@.cursor is None ==> due == (
        window@.nodes[1].time.ns + lag_ns <= at.ns),
{
}

/// Growing the window changes neither what it held nor what it published. A new node
/// has the values it was given, and no segment yet.
pub proof fn windows_grow_at_their_end<P: Payload>(
    seeded: &mut RtsWindow<P>,
    grown: &mut RtsWindow<P>,
    endpoint: DenseEndpoint<P>,
    quality: Option<GnssQualityUpdate<P>>,
)
    requires
        old(seeded)@.nodes.len() == 0,
        call_ensures(RtsWindow::<P>::seed, (seeded, endpoint, quality), ()),
        call_ensures(RtsWindow::<P>::push_prediction, (grown, endpoint, quality), ()),
    ensures
        final(seeded)@.nodes.len() == 1,
        final(grown)@.nodes.len() == old(grown)@.nodes.len() + 1,
        forall|i: int|
            0 <= i < old(grown)@.nodes.len() ==> #[trigger] final(grown)@.nodes[i] == old(
                grown,
            )@.nodes[i],
        forall|node: RtsNode<P>|
            (node == final(seeded)@.nodes[0] || node == final(grown)@.nodes.last()) ==> {
                &&& (#[trigger] node.endpoint) == endpoint
                &&& node.time == endpoint.time
                &&& node.incoming is None
                &&& node.quality == quality
            },
        final(grown)@.dirty == old(grown)@.dirty && final(grown)@.cursor == old(grown)@.cursor
            && final(grown)@.frozen_start == old(grown)@.frozen_start,
        final(seeded)@.dirty == old(seeded)@.dirty && final(seeded)@.cursor == old(seeded)@.cursor
            && final(seeded)@.frozen_start == old(seeded)@.frozen_start,
{
}

/// Completing the newest node gives it the filtered segment, with everything in it,
/// the segment's end as its values, and the quality there. Older nodes stay.
pub proof fn completed_node_keeps_its_segment<P: Payload>(
    window: &mut RtsWindow<P>,
    incoming: DenseSegment<P>,
    quality: Option<GnssQualityUpdate<P>>,
)
    requires
        old(window)@.nodes.len() > 0,
        call_ensures(RtsWindow::<P>::finish_node, (window, incoming, quality), ()),
    ensures
        ({
            let before = old(window)@;
            let after = final(window)@;
            &&& after.nodes.len() == before.nodes.len()
            &&& after.nodes.last().incoming == Some(incoming)
            &&& after.nodes.last().endpoint == incoming.end
            &&& after.nodes.last().time == incoming.end.time
            &&& after.nodes.last().quality == quality
            &&& forall|i: int|
                0 <= i < before.nodes.len() - 1 ==> #[trigger] after.nodes[i] == before.nodes[i]
            &&& after.dirty == before.dirty && after.cursor == before.cursor && after.frozen_start
                == before.frozen_start
        }),
{
}

/// Accepted evidence asks for a new pass and changes nothing else; a cleared window
/// asks for nothing and holds nothing.
pub proof fn evidence_asks_for_a_pass<P: Payload>(
    window: &mut RtsWindow<P>,
    cleared: &mut RtsWindow<P>,
)
    requires
        call_ensures(RtsWindow::<P>::observation_accepted, (window,), ()),
        call_ensures(RtsWindow::<P>::clear, (cleared,), ()),
    ensures
        final(window)@.dirty,
        final(window)@.nodes == old(window)@.nodes,
        final(window)@.cursor == old(window)@.cursor,
        final(window)@.frozen_start == old(window)@.frozen_start,
        final(cleared)@.nodes.len() == 0,
        !final(cleared)@.dirty,
        final(cleared)@.cursor is None,
        final(cleared)@.frozen_start is None,
{
}

/// Another navigation frame changes the values of the endpoints alone. Which nodes
/// there are, when they are, which segments end there with which identity and flags,
/// their qualities and the state of the pass are as before.
pub proof fn frames_change_values_only<
    P: Payload,
    F: Fn(P::Estimate, P::EndpointCovariance) -> Result<
        (P::Estimate, P::EndpointCovariance),
        ReanchorError,
    >,
>(window: RtsWindow<P>, map: F, mapped: Result<RtsWindow<P>, ReanchorError>, i: int)
    requires
        call_ensures(RtsWindow::<P>::mapped_reanchor::<F>, (&window, &map), mapped),
        0 <= i < window@.nodes.len(),
    ensures
        window@.cursor is Some ==> mapped is Err,
        mapped matches Ok(after) ==> {
            let old_node = window@.nodes[i];
            let new_node = after@.nodes[i];
            &&& after@.nodes.len() == window@.nodes.len()
            &&& after@.dirty == window@.dirty && after@.cursor == window@.cursor
            &&& (after@.frozen_start is Some) == (window@.frozen_start is Some)
            &&& new_node.time == old_node.time && new_node.quality == old_node.quality
            &&& new_node.endpoint.time == old_node.endpoint.time
            &&& new_node.endpoint.specific_force_b == old_node.endpoint.specific_force_b
            &&& (new_node.incoming is Some) == (old_node.incoming is Some)
            &&& old_node.incoming is Some ==> {
                let filtered = old_node.incoming->0;
                let moved = new_node.incoming->0;
                &&& moved.id == filtered.id
                &&& moved.attitude_delta == filtered.attitude_delta
                &&& moved.degraded == filtered.degraded
                &&& moved.degraded_input == filtered.degraded_input
                &&& moved.start.time == filtered.start.time
                &&& moved.end.time == filtered.end.time
            }
        },
{
    if let Ok(after) = mapped {
        assert(node_mapped(map, window@.nodes[i], after@.nodes[i]));
    }
}

/// What a window tells of itself: empty without nodes, with a tail from two nodes on, full
/// at sixty-four, and busy while a pass is running.
pub proof fn windows_tell_what_they_hold<P: Payload>(
    window: RtsWindow<P>,
    empty: bool,
    tail: bool,
    full: bool,
    busy: bool,
    len: usize,
)
    requires
        call_ensures(RtsWindow::<P>::is_empty, (&window,), empty),
        call_ensures(RtsWindow::<P>::has_tail, (&window,), tail),
        call_ensures(RtsWindow::<P>::is_full, (&window,), full),
        call_ensures(RtsWindow::<P>::is_busy, (&window,), busy),
        call_ensures(RtsWindow::<P>::len, (&window,), len),
    ensures
        len == window@.nodes.len(),
        empty <==> len == 0,
        tail <==> len >= 2,
        full <==> len == 64,
        busy <==> window@.cursor is Some,
{
}

/// The newest node's slot is the slot of the last one, and no slot is shared by two nodes.
pub proof fn nodes_have_slots_of_their_own<P: Payload>(
    window: RtsWindow<P>,
    first: usize,
    second: usize,
    first_slot: Option<usize>,
    second_slot: Option<usize>,
    newest: Option<usize>,
)
    requires
        window.wf(),
        first < second,
        call_ensures(RtsWindow::<P>::slot_at, (&window, first), first_slot),
        call_ensures(RtsWindow::<P>::slot_at, (&window, second), second_slot),
        call_ensures(RtsWindow::<P>::newest_slot, (&window,), newest),
    ensures
        first_slot is Some <==> first < window@.nodes.len(),
        second_slot is Some ==> first_slot is Some && first_slot->0 != second_slot->0,
        newest is Some <==> window@.nodes.len() > 0,
        second + 1 == window@.nodes.len() ==> newest == second_slot,
        newest is Some ==> newest->0 < 64,
{
    window.wf_facts();
    if second_slot is Some {
        window.nodes.slots_are_distinct(first as int, second as int);
    }
}

/// A node keeps its slot while nodes are added, smoothed or completed; publishing moves the
/// others up by one and leaves them where they are stored.
pub proof fn nodes_stay_where_they_are_stored<P: Payload>(
    grown: &mut RtsWindow<P>,
    completed: &mut RtsWindow<P>,
    smoothed: &mut RtsWindow<P>,
    published: &mut RtsWindow<P>,
    endpoint: DenseEndpoint<P>,
    quality: Option<GnssQualityUpdate<P>>,
    incoming: DenseSegment<P>,
    estimate: P::Estimate,
    covariance: P::EndpointCovariance,
    done: bool,
    handed_out: (DenseSegment<P>, Option<GnssQualityUpdate<P>>, Option<GnssQualityUpdate<P>>),
    i: int,
)
    requires
        call_ensures(RtsWindow::<P>::push_prediction, (grown, endpoint, quality), ()),
        call_ensures(RtsWindow::<P>::finish_node, (completed, incoming, quality), ()),
        call_ensures(RtsWindow::<P>::commit_step, (smoothed, estimate, covariance), done),
        call_ensures(
            RtsWindow::<P>::publish_one,
            (published, true),
            Ok::<
                (DenseSegment<P>, Option<GnssQualityUpdate<P>>, Option<GnssQualityUpdate<P>>),
                DenseHistoryError,
            >(handed_out),
        ),
        0 <= i < 63,
    ensures
        final(grown).slot(i) == old(grown).slot(i),
        final(completed).slot(i) == old(completed).slot(i),
        final(smoothed).slot(i) == old(smoothed).slot(i),
        final(published).slot(i) == old(published).slot(i + 1),
{
}

/// Another navigation frame moves everything that the window retains: the values of every
/// node, those of both ends of the segment that ends there, and those of the frozen start.
pub proof fn frames_reach_every_value<
    P: Payload,
    F: Fn(P::Estimate, P::EndpointCovariance) -> Result<
        (P::Estimate, P::EndpointCovariance),
        ReanchorError,
    >,
>(window: RtsWindow<P>, map: F, after: RtsWindow<P>, i: int)
    requires
        call_ensures(
            RtsWindow::<P>::mapped_reanchor::<F>,
            (&window, &map),
            Ok::<RtsWindow<P>, ReanchorError>(after),
        ),
        0 <= i < window@.nodes.len(),
    ensures
        ({
            let moved = |old_end: DenseEndpoint<P>, new_end: DenseEndpoint<P>|
                new_end.time == old_end.time && new_end.specific_force_b
                    == old_end.specific_force_b && call_ensures(
                    map,
                    (old_end.estimate, old_end.covariance),
                    Ok::<(P::Estimate, P::EndpointCovariance), ReanchorError>(
                        (new_end.estimate, new_end.covariance),
                    ),
                );
            let old_node = window@.nodes[i];
            let new_node = after@.nodes[i];
            &&& moved(old_node.endpoint, new_node.endpoint)
            &&& old_node.incoming is Some ==> moved(
                old_node.incoming->0.start,
                new_node.incoming->0.start,
            ) && moved(old_node.incoming->0.end, new_node.incoming->0.end)
            &&& window@.frozen_start is Some ==> moved(
                window@.frozen_start->0,
                after@.frozen_start->0,
            )
            &&& after.slot(i) == window.slot(i)
        }),
{
    assert(node_mapped(map, window@.nodes[i], after@.nodes[i]));
}

} // verus!
