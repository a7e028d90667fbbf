//! Moving everything that is expressed in navigation coordinates to another
//! frame, all at once.
use vstd::prelude::*;

use crate::dense_history::DenseSegment;
use crate::dense_history::{endpoint_mapped, endpoint_refused, maps_endpoints};
use crate::error::{DenseHistoryError, EskfError, LiveCoreError, ReanchorError};
use crate::gnss::GnssObservation;
use crate::live_core::state::{LiveCore, LiveCoreHistory, LiveCoreState};
use crate::live_core::state::evidence;
use crate::live_core::work::{FilterValues, PendingCorrectedSegment, Work};
use crate::payload::Payload;
use crate::queue::Scheduled;
use crate::rts_window::{node_mapped, node_refused};
use crate::scheduler::SchedulerModel;

verus! {

/// The numbers of one change of frame.
#[derive(Clone, Copy, Debug, PartialEq)]
pub struct ReanchorNumbers<P: Payload> {
    /// Why the two anchors do not define a change, or why the filter, the
    /// predictor or the local gravity could not follow it.
    pub error: Option<ReanchorError>,
    pub filter_values: FilterValues<P>,
    pub predictor_estimate: P::Estimate,
    /// Whether the mapped correlation of the active sample is finite.
    pub correlation_is_finite: bool,
}

/// Whether every segment became its image in another frame.
pub open spec fn segments_mapped<
    P: Payload,
    F: Fn(P::Estimate, P::EndpointCovariance) -> Result<
        (P::Estimate, P::EndpointCovariance),
        ReanchorError,
    >,
>(map: F, before: Seq<DenseSegment<P>>, after: Seq<DenseSegment<P>>) -> bool {
    &&& after.len() == before.len()
    &&& forall|i: int| 0 <= i < before.len() ==> before[i].mapped_by(map, #[trigger] after[i])
}

pub open spec fn segments_refused<
    P: Payload,
    F: Fn(P::Estimate, P::EndpointCovariance) -> Result<
        (P::Estimate, P::EndpointCovariance),
        ReanchorError,
    >,
>(map: F, segments: Seq<DenseSegment<P>>, error: ReanchorError) -> bool {
    exists|i: int| 0 <= i < segments.len() && (#[trigger] segments[i]).refused_by(map, error)
}

/// Whether every queued observation became its valid image, under its old key.
pub open spec fn queue_mapped<P: Payload, G: Fn(GnssObservation<P>) -> GnssObservation<P>>(
    map: G,
    before: Seq<Scheduled<GnssObservation<P>>>,
    after: Seq<Scheduled<GnssObservation<P>>>,
) -> bool {
    &&& after.len() == before.len()
    &&& forall|i: int|
        0 <= i < before.len() ==> {
            &&& (#[trigger] after[i]).key == before[i].key
            &&& call_ensures(map, (before[i].value,), after[i].value)
            &&& after[i].value.verdict() is Ok
        }
}

pub open spec fn queue_refused<P: Payload, G: Fn(GnssObservation<P>) -> GnssObservation<P>>(
    map: G,
    queue: Seq<Scheduled<GnssObservation<P>>>,
    error: EskfError,
) -> bool {
    exists|i: int, image: GnssObservation<P>|
        0 <= i < queue.len() && #[trigger] call_ensures(map, (queue[i].value,), image)
            && image.verdict() == Err::<(), EskfError>(error)
}

/// Whether `after` is the state and history in another frame. Times, keys,
/// numbers of segments and all body-frame evidence stay as they are.
pub open spec fn is_reanchored<
    P: Payload,
    F: Fn(P::Estimate, P::EndpointCovariance) -> Result<
        (P::Estimate, P::EndpointCovariance),
        ReanchorError,
    >,
    G: Fn(GnssObservation<P>) -> GnssObservation<P>,
>(
    state: LiveCoreState<P>,
    history: LiveCoreHistory<P>,
    numbers: ReanchorNumbers<P>,
    map: F,
    map_observation: G,
    after: LiveCore<P>,
) -> bool {
    &&& after.state.scheduler@ == (SchedulerModel {
        queue: after.state.queue(),
        ..state.scheduler@
    })
    &&& queue_mapped(map_observation, state.queue(), after.state.queue())
    &&& endpoint_mapped(map, state.corrected_endpoint, after.state.corrected_endpoint)
    &&& endpoint_mapped(map, state.predictor_endpoint, after.state.predictor_endpoint)
    &&& after.state == (LiveCoreState {
        scheduler: after.state.scheduler,
        filter_values: numbers.filter_values,
        predictor_estimate: numbers.predictor_estimate,
        corrected_endpoint: after.state.corrected_endpoint,
        predictor_endpoint: after.state.predictor_endpoint,
        pending_corrected_segment: match state.pending_corrected_segment {
            None => None,
            Some(pending) => Some(
                PendingCorrectedSegment { start: after.state.corrected_endpoint, ..pending },
            ),
        },
        ..state
    })
    &&& segments_mapped(map, history.corrected@, after.history.corrected@)
    &&& segments_mapped(map, history.predicted@, after.history.predicted@)
    &&& history.smoothing.mapped_by(map, after.history.smoothing)
    &&& after.history == (LiveCoreHistory {
        corrected: after.history.corrected,
        predicted: after.history.predicted,
        smoothing: after.history.smoothing,
        ..history
    })
    &&& after.work == Work::<P>::Idle
}

/// Whether some retained value has no valid image in the new frame.
pub open spec fn is_refused<
    P: Payload,
    F: Fn(P::Estimate, P::EndpointCovariance) -> Result<
        (P::Estimate, P::EndpointCovariance),
        ReanchorError,
    >,
    G: Fn(GnssObservation<P>) -> GnssObservation<P>,
>(
    state: LiveCoreState<P>,
    history: LiveCoreHistory<P>,
    numbers: ReanchorNumbers<P>,
    map: F,
    map_observation: G,
    error: LiveCoreError,
) -> bool {
    let window = history.smoothing@;
    match error {
        LiveCoreError::Reanchor(cause) => {
            ||| endpoint_refused(map, state.corrected_endpoint, cause)
            ||| endpoint_refused(map, state.predictor_endpoint, cause)
            ||| window.frozen_start is Some && endpoint_refused(map, window.frozen_start->0, cause)
            ||| exists|i: int|
                0 <= i < window.nodes.len() && node_refused(map, #[trigger] window.nodes[i], cause)
            ||| !numbers.correlation_is_finite && cause == ReanchorError::NonFinite
        },
        LiveCoreError::DenseHistory(DenseHistoryError::Reanchor(cause)) => segments_refused(
            map,
            history.corrected@,
            cause,
        ) || segments_refused(map, history.predicted@, cause),
        LiveCoreError::Eskf(cause) => queue_refused(map_observation, state.queue(), cause),
        _ => false,
    }
}

impl<P: Payload> LiveCore<P> {
    /// Changes the navigation frame. Either every retained value is moved, or
    /// none is. Inertial evidence is in body coordinates and does not move.
    pub fn reanchor<
        F: Fn(P::Estimate, P::EndpointCovariance) -> Result<
            (P::Estimate, P::EndpointCovariance),
            ReanchorError,
        >,
        G: Fn(GnssObservation<P>) -> GnssObservation<P>,
    >(&mut self, numbers: ReanchorNumbers<P>, map: &F, map_observation: G) -> (r: Result<
        (),
        LiveCoreError,
    >)
        requires
            old(self).wf(),
            maps_endpoints::<P, F>(*map),
            forall|observation: GnssObservation<P>| #[trigger]
                call_requires(map_observation, (observation,)),
        ensures
            final(self).wf(),
            r is Err ==> *final(self) == old(self).with_work(Work::Idle),
            if numbers.error is Some {
                r == Err::<(), LiveCoreError>(LiveCoreError::Reanchor(numbers.error->0))
            } else if old(self).history.smoothing@.cursor is Some {
                r == Err::<(), LiveCoreError>(LiveCoreError::Reanchor(ReanchorError::NonFinite))
            } else {
                match r {
                    Ok(_) => numbers.correlation_is_finite && is_reanchored(
                        old(self).state,
                        old(self).history,
                        numbers,
                        *map,
                        map_observation,
                        *final(self),
                    ),
                    Err(error) => is_refused(
                        old(self).state,
                        old(self).history,
                        numbers,
                        *map,
                        map_observation,
                        error,
                    ),
                }
            },
    {
        let abandoned = self.take_work();
        let ghost before = *self;
        proof {
            before.wf_is_settled();
        }
        if let Some(error) = numbers.error {
            return Err(LiveCoreError::Reanchor(error));
        }
        if self.history.smoothing.is_busy() {
            return Err(LiveCoreError::Reanchor(ReanchorError::NonFinite));
        }
        let corrected_endpoint = match self.state.corrected_endpoint.mapped_reanchor(map) {
            Err(error) => {
                return Err(LiveCoreError::Reanchor(error));
            },
            Ok(endpoint) => endpoint,
        };
        let predictor_endpoint = match self.state.predictor_endpoint.mapped_reanchor(map) {
            Err(error) => {
                return Err(LiveCoreError::Reanchor(error));
            },
            Ok(endpoint) => endpoint,
        };
        let corrected = match self.history.corrected.mapped_reanchor(map) {
            Err(error) => {
                return Err(LiveCoreError::DenseHistory(error));
            },
            Ok(corrected) => corrected,
        };
        let predicted = match self.history.predicted.mapped_reanchor(map) {
            Err(error) => {
                return Err(LiveCoreError::DenseHistory(error));
            },
            Ok(predicted) => predicted,
        };
        let smoothing = match self.history.smoothing.mapped_reanchor(map) {
            Err(error) => {
                return Err(LiveCoreError::Reanchor(error));
            },
            Ok(smoothing) => smoothing,
        };
        let mut scheduler = self.state.scheduler;
        scheduler.for_each_measurement_mut(map_observation);
        let check = |scheduled: &Scheduled<GnssObservation<P>>| -> (r: Result<(), EskfError>)
            ensures
                r == scheduled.value.verdict(),
            { scheduled.value.validate() };
        match scheduler.try_for_each_measurement(check) {
            Err(error) => {
                proof {
                    let k = choose|k: int|
                        0 <= k < scheduler@.queue.len() && call_ensures(
                            check,
                            (&#[trigger] scheduler@.queue[k],),
                            Err(error),
                        );
                    assert(call_ensures(
                        map_observation,
                        (before.state.queue()[k].value,),
                        scheduler@.queue[k].value,
                    ));
                }
                return Err(LiveCoreError::Eskf(error));
            },
            Ok(_) => {},
        }
        if !numbers.correlation_is_finite {
            return Err(LiveCoreError::Reanchor(ReanchorError::NonFinite));
        }
        self.state.scheduler = scheduler;
        self.state.filter_values = numbers.filter_values;
        self.state.predictor_estimate = numbers.predictor_estimate;
        self.state.corrected_endpoint = corrected_endpoint;
        self.state.predictor_endpoint = predictor_endpoint;
        if let Some(pending) = self.state.pending_corrected_segment {
            let mut moved = pending;
            moved.start = corrected_endpoint;
            self.state.pending_corrected_segment = Some(moved);
        }
        self.history.corrected = corrected;
        self.history.predicted = predicted;
        self.history.smoothing = smoothing;
        proof {
            assert(self.state.queue() == scheduler@.queue);
            assert(queue_mapped(map_observation, before.state.queue(), self.state.queue()));
            reanchoring_keeps_settled(before, numbers, *map, map_observation, *self);
            self.idle_is_wf();
        }
        Ok(())
    }
}

proof fn reanchoring_keeps_settled<
    P: Payload,
    F: Fn(P::Estimate, P::EndpointCovariance) -> Result<
        (P::Estimate, P::EndpointCovariance),
        ReanchorError,
    >,
    G: Fn(GnssObservation<P>) -> GnssObservation<P>,
>(
    before: LiveCore<P>,
    numbers: ReanchorNumbers<P>,
    map: F,
    map_observation: G,
    after: LiveCore<P>,
)
    requires
        before.settled(),
        after.state.scheduler.wf(),
        after.history.wf(),
        is_reanchored(before.state, before.history, numbers, map, map_observation, after),
    ensures
        after.settled(),
{
    before.state.scheduler.wf_facts();
    let old_queue = before.state.queue();
    let new_queue = after.state.queue();
    let old_nodes = before.history.smoothing@.nodes;
    let new_nodes = after.history.smoothing@.nodes;
    let old_corrected = before.history.corrected@;
    let new_corrected = after.history.corrected@;
    let old_predicted = before.history.predicted@;
    let new_predicted = after.history.predicted@;
    assert(evidence(after.state, after.history) == evidence(before.state, before.history));
    assert(after.state.scheduler@.target() == before.state.scheduler@.target());
    assert(after.state.frontier() == before.state.frontier());
    assert forall|i: int| 0 <= i < new_queue.len() implies (#[trigger] new_queue[i]).key
        == old_queue[i].key by {}
    assert(after.state.frontier_ok()) by {
        assert forall|i: int| 0 <= i < new_queue.len() implies {
            &&& (#[trigger] new_queue[i]).key.time.ns >= after.state.filter.time.ns
            &&& after.state.frontier() is Some && after.state.pending_corrected_segment is None
                ==> new_queue[i].key.time.ns > after.state.filter.time.ns
        } by {
            assert(old_queue[i].key.time.ns >= before.state.filter.time.ns);
        }
    }
    assert forall|i: int| 0 <= i < new_nodes.len() implies (#[trigger] new_nodes[i]).time
        == old_nodes[i].time && (new_nodes[i].incoming is Some <==> old_nodes[i].incoming is Some)
        && (new_nodes[i].incoming is Some ==> new_nodes[i].incoming->0.id
        == old_nodes[i].incoming->0.id) by {
        assert(node_mapped(map, old_nodes[i], new_nodes[i]));
    }
    if old_corrected.len() > 0 {
        assert(old_corrected[old_corrected.len() - 1].mapped_by(
            map,
            new_corrected[old_corrected.len() - 1],
        ));
    }
    if old_predicted.len() > 0 {
        assert(old_predicted[0].mapped_by(map, new_predicted[0]));
        assert(old_predicted[old_predicted.len() - 1].mapped_by(
            map,
            new_predicted[old_predicted.len() - 1],
        ));
    }
}

/// Another frame moves values only. Times, epochs, identifiers, degradation flags, keys,
/// the evidence and the state of the smoothing pass are as before; the filter and the
/// predictor have the values that were computed for the new frame.
pub proof fn frames_move_values_only<
    P: Payload,
    F: Fn(P::Estimate, P::EndpointCovariance) -> Result<
        (P::Estimate, P::EndpointCovariance),
        ReanchorError,
    >,
    G: Fn(GnssObservation<P>) -> GnssObservation<P>,
>(core: &mut LiveCore<P>, numbers: ReanchorNumbers<P>, map: F, map_observation: G, i: int)
    requires
        call_ensures(
            LiveCore::<P>::reanchor::<F, G>,
            (core, numbers, &map, map_observation),
            Ok::<(), LiveCoreError>(()),
        ),
    ensures
        numbers.error is None && numbers.correlation_is_finite,
        old(core).history.smoothing@.cursor is None,
        ({
            let before = *old(core);
            let after = *final(core);
            &&& after.state.filter == before.state.filter
            &&& after.state.filter_values == numbers.filter_values
            &&& after.state.predictor == before.state.predictor
            &&& after.state.predictor_estimate == numbers.predictor_estimate
            &&& after.state.predictor_batch == before.state.predictor_batch
            &&& after.state.frontier() == before.state.frontier()
            &&& after.state.evidence_end() == before.state.evidence_end()
            &&& after.state.scheduler@.finishing == before.state.scheduler@.finishing
            &&& after.state.next_corrected_deadline == before.state.next_corrected_deadline
            &&& after.state.next_corrected_segment_id == before.state.next_corrected_segment_id
            &&& after.state.next_predictor_segment_id == before.state.next_predictor_segment_id
            &&& after.state.corrected_endpoint.time == before.state.corrected_endpoint.time
            &&& after.state.corrected_endpoint.specific_force_b
                == before.state.corrected_endpoint.specific_force_b
            &&& after.state.predictor_endpoint.time == before.state.predictor_endpoint.time
            &&& after.history.imu == before.history.imu
            &&& after.history.active_imu_sample == before.history.active_imu_sample
            &&& after.history.current_quality == before.history.current_quality
            &&& after.history.corrected_quality == before.history.corrected_quality
            &&& after.history.published_frontier == before.history.published_frontier
            &&& (after.state.pending_corrected_segment is Some) == (
            before.state.pending_corrected_segment is Some)
            &&& before.state.pending_corrected_segment is Some ==> {
                let old_pending = before.state.pending_corrected_segment->0;
                let new_pending = after.state.pending_corrected_segment->0;
                &&& new_pending.start == after.state.corrected_endpoint
                &&& new_pending.attitude_delta == old_pending.attitude_delta
                &&& new_pending.end_specific_force_b == old_pending.end_specific_force_b
                &&& new_pending.degraded == old_pending.degraded
                &&& new_pending.degraded_input == old_pending.degraded_input
            }
            &&& after.state.queue().len() == before.state.queue().len()
            &&& 0 <= i < before.state.queue().len() ==> after.state.queue()[i].key
                == before.state.queue()[i].key && call_ensures(
                map_observation,
                (before.state.queue()[i].value,),
                after.state.queue()[i].value,
            )
            &&& after.history.corrected@.len() == before.history.corrected@.len()
            &&& 0 <= i < before.history.corrected@.len() ==> {
                let old_segment = before.history.corrected@[i];
                let new_segment = after.history.corrected@[i];
                &&& new_segment.id == old_segment.id
                &&& new_segment.attitude_delta == old_segment.attitude_delta
                &&& new_segment.degraded == old_segment.degraded
                &&& new_segment.degraded_input == old_segment.degraded_input
                &&& new_segment.start.time == old_segment.start.time
                &&& new_segment.end.time == old_segment.end.time
            }
            &&& after.history.predicted@.len() == before.history.predicted@.len()
            &&& 0 <= i < before.history.predicted@.len() ==> {
                let old_segment = before.history.predicted@[i];
                let new_segment = after.history.predicted@[i];
                &&& new_segment.id == old_segment.id
                &&& new_segment.degraded == old_segment.degraded
                &&& new_segment.degraded_input == old_segment.degraded_input
                &&& new_segment.start.time == old_segment.start.time
                &&& new_segment.end.time == old_segment.end.time
            }
            &&& after.history.smoothing@.nodes.len() == before.history.smoothing@.nodes.len()
            &&& 0 <= i < before.history.smoothing@.nodes.len() ==> {
                let old_node = before.history.smoothing@.nodes[i];
                let new_node = after.history.smoothing@.nodes[i];
                &&& new_node.time == old_node.time
                &&& new_node.quality == old_node.quality
                &&& (new_node.incoming is Some) == (old_node.incoming is Some)
                &&& old_node.incoming is Some ==> new_node.incoming->0.degraded
                    == old_node.incoming->0.degraded && new_node.incoming->0.id
                    == old_node.incoming->0.id
            }
            &&& after.history.smoothing@.dirty == before.history.smoothing@.dirty
            &&& after.work is Idle
        }),
{
    let before = *old(core);
    let after = *final(core);
    if 0 <= i < before.state.queue().len() {
        assert(after.state.queue()[i].key == before.state.queue()[i].key);
    }
    if 0 <= i < before.history.corrected@.len() {
        assert(before.history.corrected@[i].mapped_by(map, after.history.corrected@[i]));
    }
    if 0 <= i < before.history.predicted@.len() {
        assert(before.history.predicted@[i].mapped_by(map, after.history.predicted@[i]));
    }
    if 0 <= i < before.history.smoothing@.nodes.len() {
        assert(node_mapped(map, before.history.smoothing@.nodes[i], after.history.smoothing@.nodes[i]));
    }
}

/// A refused change of frame moves nothing. It is refused where the anchors do not define
/// one, while a pass is running, and where something that is retained has no image.
pub proof fn refused_frames_move_nothing<
    P: Payload,
    F: Fn(P::Estimate, P::EndpointCovariance) -> Result<
        (P::Estimate, P::EndpointCovariance),
        ReanchorError,
    >,
    G: Fn(GnssObservation<P>) -> GnssObservation<P>,
>(
    core: &mut LiveCore<P>,
    numbers: ReanchorNumbers<P>,
    map: F,
    map_observation: G,
    answer: Result<(), LiveCoreError>,
)
    requires
        call_ensures(
            LiveCore::<P>::reanchor::<F, G>,
            (core, numbers, &map, map_observation),
            answer,
        ),
    ensures
        answer is Err ==> final(core).state == old(core).state && final(core).history == old(core).history && final(core).work is Idle,
        numbers.error is Some ==> answer == Err::<(), LiveCoreError>(
            LiveCoreError::Reanchor(numbers.error->0),
        ),
        numbers.error is None && old(core).history.smoothing@.cursor is Some ==> answer is Err,
        numbers.error is None && !numbers.correlation_is_finite ==> answer is Err,
{
}

/// Another frame reaches everything that is expressed in one: both endpoints, every
/// published and every predicted segment, and all that the smoothing window retains.
pub proof fn frames_reach_all_that_is_retained<
    P: Payload,
    F: Fn(P::Estimate, P::EndpointCovariance) -> Result<
        (P::Estimate, P::EndpointCovariance),
        ReanchorError,
    >,
    G: Fn(GnssObservation<P>) -> GnssObservation<P>,
>(core: &mut LiveCore<P>, numbers: ReanchorNumbers<P>, map: F, map_observation: G, i: int)
    requires
        call_ensures(
            LiveCore::<P>::reanchor::<F, G>,
            (core, numbers, &map, map_observation),
            Ok::<(), LiveCoreError>(()),
        ),
    ensures
        ({
            let before = *old(core);
            let after = *final(core);
            let moved = |
                old_end: crate::dense_history::DenseEndpoint<P>,
                new_end: crate::dense_history::DenseEndpoint<P>,
            |
                call_ensures(
                    map,
                    (old_end.estimate, old_end.covariance),
                    Ok::<(P::Estimate, P::EndpointCovariance), ReanchorError>(
                        (new_end.estimate, new_end.covariance),
                    ),
                );
            let old_corrected = before.history.corrected@;
            let new_corrected = after.history.corrected@;
            let old_predicted = before.history.predicted@;
            let new_predicted = after.history.predicted@;
            let old_window = before.history.smoothing@;
            let new_window = after.history.smoothing@;
            &&& moved(before.state.corrected_endpoint, after.state.corrected_endpoint)
            &&& moved(before.state.predictor_endpoint, after.state.predictor_endpoint)
            &&& 0 <= i < old_corrected.len() ==> moved(
                old_corrected[i].start,
                new_corrected[i].start,
            ) && moved(old_corrected[i].end, new_corrected[i].end)
            &&& 0 <= i < old_predicted.len() ==> moved(
                old_predicted[i].start,
                new_predicted[i].start,
            ) && moved(old_predicted[i].end, new_predicted[i].end)
            &&& 0 <= i < old_window.nodes.len() ==> moved(
                old_window.nodes[i].endpoint,
                new_window.nodes[i].endpoint,
            )
            &&& 0 <= i < old_window.nodes.len() && old_window.nodes[i].incoming is Some ==> moved(
                old_window.nodes[i].incoming->0.start,
                new_window.nodes[i].incoming->0.start,
            ) && moved(
                old_window.nodes[i].incoming->0.end,
                new_window.nodes[i].incoming->0.end,
            )
            &&& old_window.frozen_start is Some ==> new_window.frozen_start is Some && moved(
                old_window.frozen_start->0,
                new_window.frozen_start->0,
            )
            &&& 0 <= i < after.state.queue().len() ==> after.state.queue()[i].value.verdict() is Ok
        }),
{
    let before = *old(core);
    let after = *final(core);
    if 0 <= i < before.history.corrected@.len() {
        assert(before.history.corrected@[i].mapped_by(map, after.history.corrected@[i]));
    }
    if 0 <= i < before.history.predicted@.len() {
        assert(before.history.predicted@[i].mapped_by(map, after.history.predicted@[i]));
    }
    if 0 <= i < before.history.smoothing@.nodes.len() {
        assert(node_mapped(map, before.history.smoothing@.nodes[i], after.history.smoothing@.nodes[i]));
    }
    if 0 <= i < after.state.queue().len() {
        assert(after.state.queue()[i].key == before.state.queue()[i].key);
    }
}

} // verus!
