//! Quota-driven work at the corrected frontier.
use vstd::prelude::*;

use crate::capacity::DENSE_HISTORY_CAPACITY;
use crate::dense_history::{DenseEndpoint, DenseSegment};
use crate::dense_history::owns;
use crate::error::LiveCoreError;
use crate::live_core::kinematics::{filter_epoch_is_supported, kinematics_of};
use crate::live_core::propagation::propagation_ok;
use crate::live_core::state::{LiveCore, LiveCoreHistory, LiveCoreState};
use crate::live_core::state::{evidence, settled};
use crate::live_core::work::{EpochKinematics, FinalizationWork, FusionWork, PropagationPlan, Work};
use crate::payload::Payload;
use crate::rts_window::SmoothingWork;
use crate::scheduler::SchedulerModel;

verus! {

/// What the caller has to do next.
#[derive(Clone, Copy, Debug, PartialEq)]
pub enum DrainAction<P: Payload> {
    /// Stop; the report says why.
    Yield,
    /// Ask again.
    Continue,
    /// Update the filter with an observation.
    Fuse(FusionWork<P>),
    /// Check a corrected segment and carry its correction to the predictor.
    Finalize(FinalizationWork<P>),
    /// Check the kinematics with which the smoothing window begins.
    Seed(EpochKinematics<P>),
    /// Propagate the filter.
    Propagate(PropagationPlan<P>),
    /// Smooth one node.
    Smooth(SmoothingWork),
    /// Check a segment before it is published.
    Publish(DenseSegment<P>),
}

/// The corrected segment that ends at the filter's epoch.
pub open spec fn corrected_segment<P: Payload>(state: LiveCoreState<P>) -> DenseSegment<P> {
    let pending = state.pending_corrected_segment->0;
    DenseSegment {
        id: state.next_corrected_segment_id,
        start: pending.start,
        end: DenseEndpoint {
            time: state.filter.time,
            estimate: state.filter_values.estimate,
            specific_force_b: pending.end_specific_force_b,
            covariance: state.filter_values.covariance,
        },
        attitude_delta: pending.attitude_delta,
        degraded: pending.degraded,
        degraded_input: pending.degraded_input,
    }
}

/// Whether `work` is the fusion that is due.
pub open spec fn fusion_ok<P: Payload>(state: LiveCoreState<P>, work: FusionWork<P>) -> bool {
    &&& state.scheduler@.target() is Ok
    &&& state.due(state.scheduler@.target()->Ok_0) == Some(state.filter.time)
    &&& work.scheduled == state.queue()[0]
    &&& work.kinematics.sample.support_start.ns <= state.filter.time.ns
}

/// Whether `work` is the finalization that is due.
pub open spec fn finalization_ok<P: Payload>(
    state: LiveCoreState<P>,
    history: LiveCoreHistory<P>,
    work: FinalizationWork<P>,
) -> bool {
    &&& state.pending_corrected_segment is Some
    &&& state.scheduler@.target() is Ok
    &&& state.due(state.scheduler@.target()->Ok_0) != Some(state.filter.time)
    &&& history.corrected@.len() < DENSE_HISTORY_CAPACITY
    &&& work.segment == corrected_segment(state)
    &&& exists|i: int| #[trigger]
        owns(history.predicted@, i, state.filter.time) && history.predicted@[i] == work.predicted
    &&& work.elapsed_ns == state.filter.time.ns - work.predicted.start.time.ns
    &&& state.filter.time.ns <= state.predictor.time.ns
    &&& work.lag_ns is Some <==> state.predictor.time.ns - state.filter.time.ns <= i64::MAX
    &&& work.lag_ns is Some ==> work.lag_ns->0 == state.predictor.time.ns - state.filter.time.ns
}

/// Whether the smoothing window has a segment to publish.
pub open spec fn publication_ok<P: Payload>(
    state: LiveCoreState<P>,
    history: LiveCoreHistory<P>,
) -> bool {
    &&& state.pending_corrected_segment is None
    &&& history.smoothing@.nodes.len() >= 2
    &&& !history.smoothing@.dirty
    &&& history.corrected@.len() < DENSE_HISTORY_CAPACITY
}

/// Whether a kinematics choice is that of the filter's epoch, at the start of a
/// smoothing window.
pub open spec fn seed_ok<P: Payload>(
    state: LiveCoreState<P>,
    history: LiveCoreHistory<P>,
    kinematics: EpochKinematics<P>,
) -> bool {
    &&& state.smoothing_lag_ns != 0
    &&& history.smoothing@.nodes.len() == 0
    &&& state.frontier() == Some(state.filter.time)
    &&& state.pending_corrected_segment is None
    &&& kinematics.sample.support_start.ns <= state.filter.time.ns
}

impl<P: Payload> LiveCore<P> {
    /// Whether the work under way fits the state of the core.
    pub open spec fn work_ok(self) -> bool {
        match self.work {
            Work::Idle => true,
            Work::Ingest(stage) => crate::live_core::staging::stage_ok(
                self.state,
                self.history,
                stage,
            ),
            Work::Fuse(work) => fusion_ok(self.state, work),
            Work::Finalize(work) => finalization_ok(self.state, self.history, work),
            Work::Seed(kinematics) => seed_ok(self.state, self.history, kinematics),
            Work::Propagate(plan) => propagation_ok(self.state, self.history, plan),
            Work::Capture(work) => self.state.smoothing_lag_ns != 0
                && self.history.smoothing@.nodes.len() > 0
                && work.kinematics.sample.support_start.ns <= self.state.filter.time.ns,
            Work::Smooth => self.history.smoothing@.cursor is Some && self.history.corrected@.len()
                < DENSE_HISTORY_CAPACITY,
            Work::Publish => publication_ok(self.state, self.history),
        }
    }

    /// What holds between any two calls.
    #[verifier::opaque]
    pub open spec fn wf(self) -> bool {
        self.settled() && self.work_ok()
    }

    /// Takes back the work under way; the core is idle afterwards.
    pub fn take_work(&mut self) -> (work: Work<P>)
        requires
            old(self).wf(),
        ensures
            work == old(self).work,
            *final(self) == old(self).with_work(Work::Idle),
            final(self).wf(),
    {
        reveal(LiveCore::wf);
        let work = self.work;
        self.work = Work::Idle;
        work
    }

    /// What a well-formed core is made of.
    pub proof fn wf_is_settled(self)
        requires
            self.wf(),
        ensures
            self.settled(),
            self.work_ok(),
    {
        reveal(LiveCore::wf);
    }

    /// A settled core with work that fits is well formed.
    pub proof fn work_is_wf(self)
        requires
            self.settled(),
            self.work_ok(),
        ensures
            self.wf(),
    {
        reveal(LiveCore::wf);
    }

    /// A settled core without work is well formed.
    pub proof fn idle_is_wf(self)
        requires
            self.settled(),
            self.work is Idle,
        ensures
            self.wf(),
    {
        reveal(LiveCore::wf);
    }

    /// Hands out the observation that is due.
    pub(crate) fn begin_fusion(&mut self) -> (r: Result<FusionWork<P>, LiveCoreError>)
        requires
            old(self).settled(),
            old(self).state.scheduler@.target() is Ok,
            old(self).state.due(old(self).state.scheduler@.target()->Ok_0) == Some(
                old(self).state.filter.time,
            ),
        ensures
            match kinematics_of(
                old(self).state,
                old(self).history.imu@,
                old(self).state.filter.time,
            ) {
                Err(error) => r == Err::<FusionWork<P>, LiveCoreError>(error) && *final(self)
                    == old(self).with_work(Work::Idle),
                Ok(kinematics) => {
                    let work = FusionWork {
                        scheduled: old(self).state.queue()[0],
                        kinematics,
                        continues_sample: old(self).history.active_imu_sample is Some
                            && kinematics.sample.shares_latent(
                            old(self).history.active_imu_sample->0,
                        ),
                    };
                    &&& r == Ok::<FusionWork<P>, LiveCoreError>(work)
                    &&& *final(self) == old(self).with_work(Work::Fuse(work))
                    &&& fusion_ok(old(self).state, work)
                },
            },
    {
        self.work = Work::Idle;
        let scheduled = match self.state.scheduler.next_measurement() {
            Err(error) => {
                return Err(LiveCoreError::Scheduler(error));
            },
            Ok(None) => {
                return Err(LiveCoreError::InternalInvariant);
            },
            Ok(Some(scheduled)) => *scheduled,
        };
        proof {
            filter_epoch_is_supported(self.state, self.history);
        }
        let kinematics = match self.corrected_kinematics_at(self.state.filter.time) {
            Err(error) => {
                return Err(error);
            },
            Ok(kinematics) => kinematics,
        };
        let continues_sample = match self.history.active_imu_sample {
            Some(active) => kinematics.sample.same_latent_as(active),
            None => false,
        };
        let work = FusionWork { scheduled, kinematics, continues_sample };
        self.work = Work::Fuse(work);
        Ok(work)
    }

    /// Hands out the corrected segment that is to become immutable.
    pub(crate) fn begin_finalization(&mut self) -> (r: Result<FinalizationWork<P>, LiveCoreError>)
        requires
            old(self).settled(),
            old(self).state.pending_corrected_segment is Some,
            old(self).state.due(old(self).state.scheduler@.target()->Ok_0) != Some(
                old(self).state.filter.time,
            ),
            old(self).history.corrected@.len() < DENSE_HISTORY_CAPACITY,
        ensures
            r is Ok,
            *final(self) == old(self).with_work(Work::Finalize(r->Ok_0)),
            finalization_ok(old(self).state, old(self).history, r->Ok_0),
    {
        self.work = Work::Idle;
        let now = self.state.filter.time;
        proof {
            predictor_covers_frontier(self.state, self.history);
        }
        let predicted = match self.history.predicted.locate(now) {
            Err(_) => {
                return Err(LiveCoreError::PredictorHistoryUnavailable);
            },
            Ok(predicted) => predicted,
        };
        proof {
            let i = choose|i: int| #[trigger]
                owns(self.history.predicted@, i, now) && self.history.predicted@[i] == predicted;
            self.history.predicted.wf_facts();
            assert(self.history.predicted@[i].wf());
        }
        let elapsed_ns: i64 = match predicted.elapsed_ns(now) {
            Err(_) => {
                return Err(LiveCoreError::PredictorHistoryUnavailable);
            },
            Ok(elapsed_ns) => elapsed_ns,
        };
        let lag_ns: Option<i64> = match self.state.predictor.frontier_lag_ns(now, now) {
            Err(_) => None,
            Ok(lag_ns) => Some(lag_ns),
        };
        match self.state.pending_corrected_segment {
            None => Err(LiveCoreError::InternalInvariant),
            Some(pending) => {
                let segment = DenseSegment {
                    id: self.state.next_corrected_segment_id,
                    start: pending.start,
                    end: DenseEndpoint {
                        time: now,
                        estimate: self.state.filter_values.estimate,
                        specific_force_b: pending.end_specific_force_b,
                        covariance: self.state.filter_values.covariance,
                    },
                    attitude_delta: pending.attitude_delta,
                    degraded: pending.degraded,
                    degraded_input: pending.degraded_input,
                };
                let work = FinalizationWork { segment, predicted, elapsed_ns, lag_ns };
                self.work = Work::Finalize(work);
                Ok(work)
            },
        }
    }

    /// Commits the frontier for the first time, at the initial epoch.
    pub(crate) fn commit_first_frontier(&mut self) -> (r: Result<(), LiveCoreError>)
        requires
            old(self).settled(),
            old(self).state.frontier() is None,
            old(self).state.scheduler@.target() is Ok,
            old(self).state.filter.time.ns <= old(self).state.scheduler@.target()->Ok_0.ns,
            old(self).state.due(old(self).state.scheduler@.target()->Ok_0) != Some(
                old(self).state.filter.time,
            ),
        ensures
            r is Ok,
            final(self).settled(),
            is_first_commit(*old(self), *final(self)),
    {
        self.work = Work::Idle;
        let ghost before = *self;
        let now = self.state.filter.time;
        self.state.corrected_endpoint.time = now;
        self.state.corrected_endpoint.estimate = self.state.filter_values.estimate;
        self.state.corrected_endpoint.covariance = self.state.filter_values.covariance;
        match self.state.scheduler.commit_frontier(now) {
            Err(error) => {
                return Err(LiveCoreError::Scheduler(error));
            },
            Ok(_) => {},
        }
        if self.history.published_frontier.is_none() {
            self.history.published_frontier = Some(now);
        }
        proof {
            first_commit_keeps_settled(before, *self);
        }
        Ok(())
    }
}

/// Whether `after` is `before` with its first frontier committed.
pub open spec fn is_first_commit<P: Payload>(before: LiveCore<P>, after: LiveCore<P>) -> bool {
    let now = before.state.filter.time;
    &&& after.state.scheduler@ == (SchedulerModel {
        processed_frontier: Some(now),
        ..before.state.scheduler@
    })
    &&& after.state == (LiveCoreState {
        scheduler: after.state.scheduler,
        corrected_endpoint: DenseEndpoint {
            time: now,
            estimate: before.state.filter_values.estimate,
            covariance: before.state.filter_values.covariance,
            ..before.state.corrected_endpoint
        },
        ..before.state
    })
    &&& after.history == (LiveCoreHistory {
        published_frontier: if before.history.published_frontier is None {
            Some(now)
        } else {
            before.history.published_frontier
        },
        ..before.history
    })
    &&& after.work == Work::<P>::Idle
}

proof fn first_commit_keeps_settled<P: Payload>(before: LiveCore<P>, after: LiveCore<P>)
    requires
        before.settled(),
        before.state.frontier() is None,
        before.state.scheduler@.target() is Ok,
        before.state.filter.time.ns <= before.state.scheduler@.target()->Ok_0.ns,
        before.state.due(before.state.scheduler@.target()->Ok_0) != Some(before.state.filter.time),
        after.state.scheduler.wf(),
        is_first_commit(before, after),
    ensures
        after.settled(),
{
    before.state.scheduler.wf_facts();
    assert(after.state.queue() == before.state.queue());
    assert forall|i: int| 0 <= i < after.state.queue().len() implies (
    #[trigger] after.state.queue()[i]).key.time.ns > after.state.filter.time.ns by {
        assert(before.state.queue()[i].key.time.ns >= before.state.filter.time.ns);
        assert(before.state.queue()[0].key.time.ns >= before.state.filter.time.ns);
        if i > 0 {
            assert(crate::order::key_lt(before.state.queue()[0].key, before.state.queue()[i].key));
        }
    }
    assert(evidence(after.state, after.history) == evidence(before.state, before.history));
}

/// The predictor is never behind the frontier, and its history always covers
/// the epoch of a pending segment.
pub proof fn predictor_covers_frontier<P: Payload>(
    state: LiveCoreState<P>,
    history: LiveCoreHistory<P>,
)
    requires
        settled(state, history),
        state.pending_corrected_segment is Some,
    ensures
        state.filter.time.ns <= state.predictor.time.ns,
        history.predicted@.len() > 0,
        history.predicted@[0].start.time.ns <= state.filter.time.ns
            <= history.predicted@.last().end.time.ns,
{
    state.scheduler.wf_facts();
}

/// Work under way is given up as a whole; the core itself does not change with it.
pub proof fn work_is_given_up_as_a_whole<P: Payload>(core: &mut LiveCore<P>, work: Work<P>)
    requires
        call_ensures(LiveCore::<P>::take_work, (core,), work),
    ensures
        work == old(core).work,
        final(core).work is Idle,
        final(core).state == old(core).state,
        final(core).history == old(core).history,
{
}

} // verus!
