//! Taking over the result of one propagation.
use vstd::prelude::*;
use vstd::std_specs::cmp::PartialEqSpec;

use crate::capacity::IMU_HISTORY_CAPACITY;
use crate::dense_history::DenseEndpoint;
use crate::error::{EskfError, LiveCoreError, PreintegrationError};
use crate::eskf::{BatchNumbers, FilterStep};
use crate::imu::ImuInterval;
use crate::imu::comparable;
use crate::live_core::config::{checked_time_add, FILTER_PROPAGATION_CREDITS};
use crate::live_core::config::time_sum;
use crate::live_core::kinematics::{filter_epoch_is_supported, kinematics_of};
use crate::live_core::planning::{plan_ok, rest_after};
use crate::live_core::report::{saturating_count, DrainReport};
use crate::live_core::report::{counted, DrainCounters};
use crate::live_core::state::{LiveCore, LiveCoreHistory, LiveCoreState};
use crate::live_core::state::evidence;
use crate::live_core::work::{
    CaptureWork, EpochKinematics, FilterValues, PendingCorrectedSegment, PropagationPlan, Work,
};
use crate::payload::Payload;
use crate::preintegration::BatchShape;
use crate::ring::FixedRing;
use crate::rts_window::{RtsNode, RTS_NODE_CAPACITY};
use crate::rts_window::RtsWindowModel;
use crate::scheduler::WorkQuota;
use crate::time::SessionTime;

verus! {

/// The numbers of one propagation.
#[derive(Clone, Copy, Debug, PartialEq)]
pub struct PropagationNumbers<P: Payload> {
    /// Whether the integrals of the batch are finite.
    pub integrals_are_finite: bool,
    /// Verdicts on the batch as the filter sees it.
    pub batch: BatchNumbers,
    /// Why the filter could not be propagated.
    pub filter_error: Option<EskfError>,
    /// The filter after the propagation.
    pub values: FilterValues<P>,
    /// The rotation between both ends of the segment.
    pub attitude_delta: P::Vector,
}

/// Why the integrals of a plan cannot be used, if they cannot.
pub open spec fn batch_verdict<P: Payload>(
    plan: PropagationPlan<P>,
    integrals_are_finite: bool,
) -> Result<BatchShape<P>, LiveCoreError> {
    if plan.ledger.sample_count == 0 {
        Err(LiveCoreError::Preintegration(PreintegrationError::EmptyBatch))
    } else if plan.ledger.poisoned || !integrals_are_finite {
        Err(LiveCoreError::Preintegration(PreintegrationError::NonFinite))
    } else {
        Ok(plan.ledger.shape())
    }
}

/// Why the filter cannot follow a batch, if it cannot. A sample that the batch
/// continues has to be the active one.
pub open spec fn filter_verdict<P: Payload>(
    state: LiveCoreState<P>,
    history: LiveCoreHistory<P>,
    plan: PropagationPlan<P>,
    numbers: PropagationNumbers<P>,
) -> Result<(), LiveCoreError> {
    let shape = plan.ledger.shape();
    let active = history.active_imu_sample;
    if shape.leading_sample is Some && (active is None
        || !shape.leading_sample->0.covariance.eq_spec(&active->0.sample_covariance)) {
        Err(LiveCoreError::Eskf(EskfError::ImuSampleLatentMismatch))
    } else {
        match state.filter.propagation_verdict(shape, shape.leading_sample is Some, numbers.batch) {
            Err(error) => Err(LiveCoreError::Eskf(error)),
            Ok(_) => if numbers.filter_error is Some {
                Err(LiveCoreError::Eskf(numbers.filter_error->0))
            } else if plan.stop == state.next_corrected_deadline && time_sum(
                plan.stop,
                state.navigation_period_ns,
            ) is Err {
                Err(LiveCoreError::TimeOverflow)
            } else {
                Ok(())
            },
        }
    }
}

/// The deadline once the filter has reached `stop`.
pub open spec fn deadline_after<P: Payload>(
    state: LiveCoreState<P>,
    stop: SessionTime,
) -> SessionTime {
    if stop == state.next_corrected_deadline {
        SessionTime { ns: (stop.ns + state.navigation_period_ns) as i64 }
    } else {
        state.next_corrected_deadline
    }
}

/// The node that a propagation adds to the smoothing window.
pub open spec fn predicted_node<P: Payload>(
    state: LiveCoreState<P>,
    history: LiveCoreHistory<P>,
    stop: SessionTime,
    values: FilterValues<P>,
) -> RtsNode<P> {
    RtsNode {
        time: stop,
        incoming: None,
        endpoint: DenseEndpoint {
            time: stop,
            estimate: values.estimate,
            specific_force_b: state.blank.endpoint.specific_force_b,
            covariance: values.covariance,
        },
        quality: history.current_quality,
    }
}

/// Whether `after` is the state and history with the plan carried out: exactly
/// its evidence is used up, and the segment that it covers is pending.
pub open spec fn is_propagated<P: Payload>(
    state: LiveCoreState<P>,
    history: LiveCoreHistory<P>,
    plan: PropagationPlan<P>,
    numbers: PropagationNumbers<P>,
    after_state: LiveCoreState<P>,
    after_history: LiveCoreHistory<P>,
) -> bool {
    let shape = plan.ledger.shape();
    &&& after_state == (LiveCoreState {
        filter: state.filter.propagated(shape),
        filter_values: numbers.values,
        corrected_pending_interval: plan.remainder,
        previous_corrected_kinematics: plan.previous_sample,
        corrected_epoch_kinematics: Some(plan.last_sample),
        pending_corrected_segment: Some(
            PendingCorrectedSegment {
                start: state.corrected_endpoint,
                attitude_delta: numbers.attitude_delta,
                end_specific_force_b: plan.last_piece.specific_force_b,
                degraded: shape.degraded,
                degraded_input: shape.degraded_input,
            },
        ),
        next_corrected_deadline: deadline_after(state, plan.stop),
        ..state
    })
    &&& after_history.imu@ == history.imu@.subrange(
        plan.ring_entries as int,
        history.imu@.len() as int,
    )
    &&& after_history.smoothing@ == (if state.smoothing_lag_ns == 0 {
        history.smoothing@
    } else {
        RtsWindowModel {
            nodes: history.smoothing@.nodes.push(
                predicted_node(state, history, plan.stop, numbers.values),
            ),
            ..history.smoothing@
        }
    })
    &&& history.smoothing.keeps_slots(after_history.smoothing)
    &&& after_history == (LiveCoreHistory {
        imu: after_history.imu,
        smoothing: after_history.smoothing,
        active_imu_sample: Some(plan.last_sample),
        ..history
    })
}

/// Removes the `count` oldest intervals.
fn drop_oldest<P: Payload>(
    imu: &mut FixedRing<ImuInterval<P>, IMU_HISTORY_CAPACITY>,
    count: usize,
)
    requires
        old(imu).wf(),
        count <= old(imu)@.len(),
    ensures
        final(imu).wf(),
        final(imu)@ == old(imu)@.subrange(count as int, old(imu)@.len() as int),
{
    let ghost before = imu@;
    let mut dropped: usize = 0;
    assert(before.subrange(0, before.len() as int) =~= before);
    while dropped < count
        invariant
            imu.wf(),
            dropped <= count <= before.len(),
            imu@ == before.subrange(dropped as int, before.len() as int),
        decreases count - dropped,
    {
        let ghost current = imu@;
        let oldest = imu.pop_front();
        dropped = dropped + 1;
        assert(current.subrange(1, current.len() as int) =~= before.subrange(
            dropped as int,
            before.len() as int,
        ));
    }
}

fn decide_filter<P: Payload>(
    core: &LiveCore<P>,
    plan: &PropagationPlan<P>,
    shape: &BatchShape<P>,
    numbers: &PropagationNumbers<P>,
) -> (r: Result<(FilterStep<P>, SessionTime), LiveCoreError>)
    requires
        comparable::<P>(),
        *shape == plan.ledger.shape(),
    ensures
        match filter_verdict(core.state, core.history, *plan, *numbers) {
            Err(error) => r == Err::<(FilterStep<P>, SessionTime), LiveCoreError>(error),
            Ok(_) => {
                &&& r is Ok
                &&& r->Ok_0.0 == core.state.filter.propagation_step(*shape)
                &&& r->Ok_0.1 == deadline_after(core.state, plan.stop)
                &&& plan.stop == core.state.next_corrected_deadline ==> r->Ok_0.1.ns == plan.stop.ns
                    + core.state.navigation_period_ns
            },
        },
{
    if let Some(leading) = shape.leading_sample {
        match core.history.active_imu_sample {
            None => {
                return Err(LiveCoreError::Eskf(EskfError::ImuSampleLatentMismatch));
            },
            Some(active) => {
                if !(leading.covariance == active.sample_covariance) {
                    return Err(LiveCoreError::Eskf(EskfError::ImuSampleLatentMismatch));
                }
            },
        }
    }
    let step = match core.state.filter.plan_propagation(
        shape,
        shape.leading_sample.is_some(),
        numbers.batch,
    ) {
        Err(error) => {
            return Err(LiveCoreError::Eskf(error));
        },
        Ok(step) => step,
    };
    if let Some(error) = numbers.filter_error {
        return Err(LiveCoreError::Eskf(error));
    }
    let mut deadline = core.state.next_corrected_deadline;
    if plan.stop == deadline {
        deadline =
        match checked_time_add(deadline, core.state.navigation_period_ns) {
            Err(error) => {
                return Err(error);
            },
            Ok(next) => next,
        };
    }
    Ok((step, deadline))
}

impl<P: Payload> LiveCore<P> {
    /// Carries out a plan whose numbers are known.
    fn commit_propagation(
        &mut self,
        plan: &PropagationPlan<P>,
        shape: &BatchShape<P>,
        step: FilterStep<P>,
        deadline: SessionTime,
        numbers: &PropagationNumbers<P>,
    )
        requires
            old(self).wf(),
            old(self).work is Idle,
            propagation_ok(old(self).state, old(self).history, *plan),
            *shape == plan.ledger.shape(),
            step == old(self).state.filter.propagation_step(*shape),
            deadline == deadline_after(old(self).state, plan.stop),
            plan.stop == old(self).state.next_corrected_deadline ==> deadline.ns == plan.stop.ns
                + old(self).state.navigation_period_ns,
        ensures
            final(self).wf(),
            final(self).work is Idle,
            is_propagated(
                old(self).state,
                old(self).history,
                *plan,
                *numbers,
                final(self).state,
                final(self).history,
            ),
    {
        reveal(LiveCore::wf);
        let ghost before = *self;
        drop_oldest(&mut self.history.imu, plan.ring_entries);
        self.state.corrected_pending_interval = plan.remainder;
        self.state.filter.commit_propagation(shape, step);
        self.state.filter_values = numbers.values;
        self.state.previous_corrected_kinematics = plan.previous_sample;
        self.state.corrected_epoch_kinematics = Some(plan.last_sample);
        self.state.pending_corrected_segment =
        Some(
            PendingCorrectedSegment {
                start: self.state.corrected_endpoint,
                attitude_delta: numbers.attitude_delta,
                end_specific_force_b: plan.last_piece.specific_force_b,
                degraded: shape.degraded,
                degraded_input: shape.degraded_input,
            },
        );
        self.state.next_corrected_deadline = deadline;
        self.history.active_imu_sample = Some(plan.last_sample);
        if self.state.smoothing_lag_ns != 0 {
            self.history.smoothing.push_prediction(
                DenseEndpoint {
                    time: plan.stop,
                    estimate: numbers.values.estimate,
                    specific_force_b: self.state.blank.endpoint.specific_force_b,
                    covariance: numbers.values.covariance,
                },
                self.history.current_quality,
            );
        }
        proof {
            propagating_keeps_settled(before, *plan, *numbers, *self);
        }
    }
}

/// The counting of one propagation.
pub open spec fn propagation_counted(counters: DrainCounters, slices: u16) -> DrainCounters {
    DrainCounters {
        imu_slices: counted(counters.imu_slices, slices as int),
        filter_propagations: counted(counters.filter_propagations, 1),
        ..counters
    }
}

impl DrainCounters {
    pub fn note_propagation(&mut self, slices: u16)
        ensures
            *final(self) == propagation_counted(*old(self), slices),
    {
        self.imu_slices = saturating_count(self.imu_slices, slices);
        self.filter_propagations = saturating_count(self.filter_propagations, 1);
    }
}

/// What follows a propagation that has been carried out: without smoothing it
/// is complete, and with it the kinematics of the new epoch are to be checked.
pub open spec fn is_followed_up<P: Payload>(
    slices: u16,
    report: DrainReport<P>,
    answer: Result<Option<EpochKinematics<P>>, LiveCoreError>,
    after_report: DrainReport<P>,
    after: LiveCore<P>,
) -> bool {
    if after.state.smoothing_lag_ns == 0 {
        &&& answer == Ok::<Option<EpochKinematics<P>>, LiveCoreError>(None)
        &&& after.work is Idle
        &&& after_report == (DrainReport {
            counters: propagation_counted(report.counters, slices),
            ..report
        })
    } else {
        &&& after_report == report
        &&& match kinematics_of(after.state, after.history.imu@, after.state.filter.time) {
            Err(error) => {
                &&& answer == Err::<Option<EpochKinematics<P>>, LiveCoreError>(error)
                &&& after.work is Idle
            },
            Ok(kinematics) => {
                &&& answer == Ok::<Option<EpochKinematics<P>>, LiveCoreError>(Some(kinematics))
                &&& after.work == Work::Capture(CaptureWork { kinematics, slices })
            },
        }
    }
}

/// Whether `answer`, the credits, `after_report` and `after` are what became of a
/// propagation under way.
pub open spec fn is_propagation_completed<P: Payload>(
    before: LiveCore<P>,
    numbers: PropagationNumbers<P>,
    credits: int,
    report: DrainReport<P>,
    answer: Result<Option<EpochKinematics<P>>, LiveCoreError>,
    after_credits: int,
    after_report: DrainReport<P>,
    after: LiveCore<P>,
) -> bool {
    match before.work {
        Work::Propagate(plan) => {
            let batch = batch_verdict(plan, numbers.integrals_are_finite);
            let verdict = filter_verdict(before.state, before.history, plan, numbers);
            let refused = if batch is Err {
                Some(batch->Err_0)
            } else if credits < FILTER_PROPAGATION_CREDITS {
                Some(LiveCoreError::InternalInvariant)
            } else if verdict is Err {
                Some(verdict->Err_0)
            } else {
                None
            };
            &&& after_credits == (if batch is Err || credits < FILTER_PROPAGATION_CREDITS {
                credits
            } else {
                credits - FILTER_PROPAGATION_CREDITS
            })
            &&& match refused {
                Some(error) => {
                    &&& answer == Err::<Option<EpochKinematics<P>>, LiveCoreError>(error)
                    &&& after == before.with_work(Work::Idle)
                    &&& after_report == report
                },
                None => {
                    &&& is_propagated(
                        before.state,
                        before.history,
                        plan,
                        numbers,
                        after.state,
                        after.history,
                    )
                    &&& is_followed_up(
                        plan.ledger.sample_count,
                        report,
                        answer,
                        after_report,
                        after,
                    )
                },
            }
        },
        _ => {
            &&& answer == Err::<Option<EpochKinematics<P>>, LiveCoreError>(
                LiveCoreError::InternalInvariant,
            )
            &&& after == before.with_work(Work::Idle)
            &&& after_credits == credits
            &&& after_report == report
        },
    }
}

impl<P: Payload> LiveCore<P> {
    /// Completes a propagation. A refused one leaves filter and evidence as
    /// they were. With smoothing, the kinematics of the new epoch come back to
    /// be checked.
    pub fn complete_propagation(
        &mut self,
        numbers: PropagationNumbers<P>,
        quota: &mut WorkQuota,
        report: &mut DrainReport<P>,
    ) -> (r: Result<Option<EpochKinematics<P>>, LiveCoreError>)
        requires
            old(self).wf(),
        ensures
            final(self).wf(),
            is_propagation_completed(
                *old(self),
                numbers,
                old(quota).remaining as int,
                *old(report),
                r,
                final(quota).remaining as int,
                *final(report),
                *final(self),
            ),
    {
        let plan = match self.take_work() {
            Work::Propagate(plan) => plan,
            _ => {
                return Err(LiveCoreError::InternalInvariant);
            },
        };
        let shape = match plan.ledger.batch(numbers.integrals_are_finite) {
            Err(error) => {
                return Err(LiveCoreError::Preintegration(error));
            },
            Ok(shape) => shape,
        };
        if !quota.take(FILTER_PROPAGATION_CREDITS) {
            return Err(LiveCoreError::InternalInvariant);
        }
        proof {
            propagation_under_way(*old(self), plan);
        }
        let (step, deadline) = match decide_filter(&*self, &plan, &shape, &numbers) {
            Err(error) => {
                return Err(error);
            },
            Ok(decided) => decided,
        };
        self.commit_propagation(&plan, &shape, step, deadline, &numbers);
        self.follow_up(shape.sample_count, report)
    }

    fn follow_up(&mut self, slices: u16, report: &mut DrainReport<P>) -> (r: Result<
        Option<EpochKinematics<P>>,
        LiveCoreError,
    >)
        requires
            old(self).wf(),
            old(self).work is Idle,
            old(self).state.smoothing_lag_ns != 0 ==> old(self).history.smoothing@.nodes.len() > 0,
        ensures
            final(self).wf(),
            final(self).state == old(self).state,
            final(self).history == old(self).history,
            is_followed_up(slices, *old(report), r, *final(report), *final(self)),
    {
        if self.state.smoothing_lag_ns == 0 {
            report.counters.note_propagation(slices);
            return Ok(None);
        }
        reveal(LiveCore::wf);
        proof {
            filter_epoch_is_supported(self.state, self.history);
        }
        match self.corrected_kinematics_at(self.state.filter.time) {
            Err(error) => Err(error),
            Ok(kinematics) => {
                self.work = Work::Capture(CaptureWork { kinematics, slices });
                Ok(Some(kinematics))
            },
        }
    }
}

proof fn propagation_under_way<P: Payload>(core: LiveCore<P>, plan: PropagationPlan<P>)
    requires
        core.wf(),
        core.work == Work::Propagate(plan),
    ensures
        comparable::<P>(),
        propagation_ok(core.state, core.history, plan),
{
    reveal(LiveCore::wf);
}

/// Whether a plan may be carried out.
pub open spec fn propagation_ok<P: Payload>(
    state: LiveCoreState<P>,
    history: LiveCoreHistory<P>,
    plan: PropagationPlan<P>,
) -> bool {
    &&& plan_ok(state, history, plan)
    &&& state.frontier() == Some(state.filter.time)
    &&& state.pending_corrected_segment is None
    &&& state.smoothing_lag_ns != 0 ==> 0 < history.smoothing@.nodes.len() < RTS_NODE_CAPACITY
        && history.smoothing@.cursor is None
}

proof fn propagating_keeps_settled<P: Payload>(
    before: LiveCore<P>,
    plan: PropagationPlan<P>,
    numbers: PropagationNumbers<P>,
    after: LiveCore<P>,
)
    requires
        before.settled(),
        propagation_ok(before.state, before.history, plan),
        after.history.wf(),
        plan.stop == before.state.next_corrected_deadline
            ==> after.state.next_corrected_deadline.ns == plan.stop.ns
            + before.state.navigation_period_ns,
        is_propagated(
            before.state,
            before.history,
            plan,
            numbers,
            after.state,
            after.history,
        ),
    ensures
        after.settled(),
{
    before.state.scheduler.wf_facts();
    before.history.smoothing.wf_facts();
    assert(after.state.filter.time == plan.stop);
    assert(evidence(after.state, after.history) =~= rest_after(before.history.imu@, plan));
    assert(after.state.queue() == before.state.queue());
}

/// A completed propagation moves the filter to the stop of its plan with the values that
/// were computed, and leaves a pending segment from the corrected endpoint to there. The
/// segment is degraded exactly if the batch is, so if any of it bridges a gap, and it ends
/// with the force of the last piece.
#[verifier::spinoff_prover]
#[verifier::rlimit(50)]
pub proof fn propagated_segment_is_pending<P: Payload>(
    core: &mut LiveCore<P>,
    plan: PropagationPlan<P>,
    numbers: PropagationNumbers<P>,
    quota: &mut WorkQuota,
    report: &mut DrainReport<P>,
    next: Option<EpochKinematics<P>>,
)
    requires
        old(core).wf(),
        old(core).work == Work::Propagate(plan),
        call_ensures(
            LiveCore::<P>::complete_propagation,
            (core, numbers, quota, report),
            Ok::<Option<EpochKinematics<P>>, LiveCoreError>(next),
        ),
    ensures
        final(core).state.filter.time == plan.stop,
        final(core).state.filter.active_consider == old(core).state.filter.active_consider,
        final(core).state.filter_values == numbers.values,
        final(core).state.pending_corrected_segment is Some,
        ({
            let pending = final(core).state.pending_corrected_segment->0;
            &&& pending.start == old(core).state.corrected_endpoint
            &&& pending.attitude_delta == numbers.attitude_delta
            &&& pending.end_specific_force_b == plan.last_piece.specific_force_b
            &&& pending.degraded == plan.ledger.degraded
            &&& pending.degraded_input == plan.ledger.degraded_input
        }),
        plan.ledger.gap is Some && plan.ledger.gap_active_at_end ==> final(core).state.filter.gap
            == plan.ledger.gap,
        plan.ledger.gap is None || !plan.ledger.gap_active_at_end
            ==> final(core).state.filter.gap is None,
        final(core).state.corrected_endpoint == old(core).state.corrected_endpoint,
        final(core).state.queue() == old(core).state.queue(),
        final(core).state.frontier() == old(core).state.frontier(),
        final(core).state.predictor == old(core).state.predictor,
        final(core).state.next_corrected_segment_id == old(core).state.next_corrected_segment_id,
{
    propagation_under_way(*old(core), plan);
}

/// The evidence that the plan used is gone, what it cut off remains, and the rest is
/// untouched. The sample of the last slice is held and remembered with the one before it.
#[verifier::spinoff_prover]
#[verifier::rlimit(50)]
pub proof fn propagation_uses_up_its_evidence<P: Payload>(
    core: &mut LiveCore<P>,
    plan: PropagationPlan<P>,
    numbers: PropagationNumbers<P>,
    quota: &mut WorkQuota,
    report: &mut DrainReport<P>,
    next: Option<EpochKinematics<P>>,
)
    requires
        old(core).wf(),
        old(core).work == Work::Propagate(plan),
        call_ensures(
            LiveCore::<P>::complete_propagation,
            (core, numbers, quota, report),
            Ok::<Option<EpochKinematics<P>>, LiveCoreError>(next),
        ),
    ensures
        old(core).history.imu@ == old(core).history.imu@.take(plan.ring_entries as int)
            + final(core).history.imu@,
        final(core).state.corrected_pending_interval == plan.remainder,
        final(core).history.active_imu_sample == Some(plan.last_sample),
        final(core).state.corrected_epoch_kinematics == Some(plan.last_sample),
        final(core).state.previous_corrected_kinematics == plan.previous_sample,
        plan.stop == old(core).state.next_corrected_deadline ==> final(core).state.next_corrected_deadline.ns == plan.stop.ns + old(core).state.navigation_period_ns,
        plan.stop != old(core).state.next_corrected_deadline ==> final(core).state.next_corrected_deadline == old(core).state.next_corrected_deadline,
        final(core).history.corrected == old(core).history.corrected,
        final(core).history.predicted == old(core).history.predicted,
        final(core).history.current_quality == old(core).history.current_quality,
        final(core).history.endpoint_quality == old(core).history.endpoint_quality,
        final(core).history.published_frontier == old(core).history.published_frontier,
        old(quota).remaining - final(quota).remaining == 8,
{
    propagation_under_way(*old(core), plan);
    let before = old(core).history.imu@;
    assert(before =~= before.take(plan.ring_entries as int) + final(core).history.imu@);
}

/// With smoothing the window gets one more node, at the stop, with the propagated values
/// and the current quality, and the kinematics there are to be checked; without it nothing
/// more is to be done and the propagation is counted.
#[verifier::spinoff_prover]
#[verifier::rlimit(50)]
pub proof fn propagation_adds_one_node<P: Payload>(
    core: &mut LiveCore<P>,
    plan: PropagationPlan<P>,
    numbers: PropagationNumbers<P>,
    quota: &mut WorkQuota,
    report: &mut DrainReport<P>,
    next: Option<EpochKinematics<P>>,
)
    requires
        old(core).wf(),
        old(core).work == Work::Propagate(plan),
        call_ensures(
            LiveCore::<P>::complete_propagation,
            (core, numbers, quota, report),
            Ok::<Option<EpochKinematics<P>>, LiveCoreError>(next),
        ),
    ensures
        ({
            let before = old(core).history.smoothing@;
            let after = final(core).history.smoothing@;
            if old(core).state.smoothing_lag_ns == 0 {
                &&& after == before
                &&& next is None
                &&& final(core).work is Idle
                &&& old(report).counters.filter_propagations < u16::MAX
                    ==> final(report).counters.filter_propagations
                    == old(report).counters.filter_propagations + 1
                &&& old(report).counters.imu_slices + plan.ledger.sample_count <= u16::MAX
                    ==> final(report).counters.imu_slices == old(report).counters.imu_slices
                    + plan.ledger.sample_count
            } else {
                &&& after.nodes.len() == before.nodes.len() + 1
                &&& forall|i: int|
                    0 <= i < before.nodes.len() ==> #[trigger] after.nodes[i] == before.nodes[i]
                &&& after.nodes.last().time == plan.stop
                &&& after.nodes.last().endpoint.time == plan.stop
                &&& after.nodes.last().endpoint.estimate == numbers.values.estimate
                &&& after.nodes.last().endpoint.covariance == numbers.values.covariance
                &&& after.nodes.last().incoming is None
                &&& after.nodes.last().quality == old(core).history.current_quality
                &&& after.dirty == before.dirty && after.cursor == before.cursor
                    && after.frozen_start == before.frozen_start
                &&& next is Some
                &&& final(core).work is Capture
                &&& final(core).work->Capture_0.kinematics == next->0
                &&& final(core).work->Capture_0.slices == plan.ledger.sample_count
                &&& *final(report) == *old(report)
            }
        }),
{
    propagation_under_way(*old(core), plan);
}

/// A propagation is refused for a batch that cannot be used, for a held sample that is not
/// the one that the batch goes on with, or for what the filter says. A refused one leaves
/// filter and evidence as they were.
#[verifier::spinoff_prover]
#[verifier::rlimit(50)]
pub proof fn refused_propagation_changes_nothing<P: Payload>(
    core: &mut LiveCore<P>,
    plan: PropagationPlan<P>,
    numbers: PropagationNumbers<P>,
    quota: &mut WorkQuota,
    report: &mut DrainReport<P>,
    answer: Result<Option<EpochKinematics<P>>, LiveCoreError>,
)
    requires
        old(core).wf(),
        old(core).work == Work::Propagate(plan),
        call_ensures(
            LiveCore::<P>::complete_propagation,
            (core, numbers, quota, report),
            answer,
        ),
    ensures
        answer is Err && old(core).state.smoothing_lag_ns == 0 ==> final(core).state == old(core).state && final(core).history == old(core).history && final(core).work is Idle
            && *final(report) == *old(report),
        !numbers.integrals_are_finite ==> answer == Err::<
            Option<EpochKinematics<P>>,
            LiveCoreError,
        >(LiveCoreError::Preintegration(PreintegrationError::NonFinite)) && final(core).state
            == old(core).state && final(quota).remaining == old(quota).remaining,
        numbers.integrals_are_finite && old(quota).remaining >= 8 && plan.ledger.open_sample is Some
            && plan.ledger.open_sample->0.from_before_batch && (old(core).history.active_imu_sample is None || !plan.ledger.open_sample->0.covariance.eq_spec(
            &old(core).history.active_imu_sample->0.sample_covariance,
        )) ==> answer == Err::<Option<EpochKinematics<P>>, LiveCoreError>(
            LiveCoreError::Eskf(EskfError::ImuSampleLatentMismatch),
        ),
        numbers.filter_error is Some ==> final(core).state == old(core).state
            && final(core).history == old(core).history && answer is Err,
{
    propagation_under_way(*old(core), plan);
}

/// Why a propagation fails: for a batch without finite integrals, for want of eight credits,
/// for what the filter says, or for a deadline that cannot be counted. One for which nothing
/// of this holds is carried out.
#[verifier::spinoff_prover]
#[verifier::rlimit(50)]
pub proof fn propagations_fail_for_a_reason<P: Payload>(
    core: &mut LiveCore<P>,
    plan: PropagationPlan<P>,
    numbers: PropagationNumbers<P>,
    quota: &mut WorkQuota,
    report: &mut DrainReport<P>,
    batch: Result<BatchShape<P>, PreintegrationError>,
    planned: Result<FilterStep<P>, EskfError>,
    answer: Result<Option<EpochKinematics<P>>, LiveCoreError>,
)
    requires
        old(core).work == Work::Propagate(plan),
        old(core).state.smoothing_lag_ns == 0,
        call_ensures(
            LiveCore::<P>::complete_propagation,
            (core, numbers, quota, report),
            answer,
        ),
        call_ensures(
            crate::preintegration::BatchLedger::<P>::batch,
            (&plan.ledger, numbers.integrals_are_finite),
            batch,
        ),
        batch is Ok ==> call_ensures(
            crate::eskf::FilterLedger::<P>::plan_propagation,
            (
                &old(core).state.filter,
                &batch->Ok_0,
                batch->Ok_0.leading_sample is Some,
                numbers.batch,
            ),
            planned,
        ),
        batch is Ok ==> batch->Ok_0.leading_sample is None,
    ensures
        ({
            let paid = old(quota).remaining >= 8;
            let next = plan.stop.ns + old(core).state.navigation_period_ns;
            let counted_on = plan.stop == old(core).state.next_corrected_deadline ==> i64::MIN
                <= next <= i64::MAX;
            &&& batch is Err ==> answer == Err::<Option<EpochKinematics<P>>, LiveCoreError>(
                LiveCoreError::Preintegration(batch->Err_0),
            )
            &&& batch is Ok && !paid ==> answer == Err::<Option<EpochKinematics<P>>, LiveCoreError>(
                LiveCoreError::InternalInvariant,
            )
            &&& batch is Ok && paid && planned is Err ==> answer == Err::<
                Option<EpochKinematics<P>>,
                LiveCoreError,
            >(LiveCoreError::Eskf(planned->Err_0))
            &&& batch is Ok && paid && planned is Ok && numbers.filter_error is Some ==> answer
                == Err::<Option<EpochKinematics<P>>, LiveCoreError>(
                LiveCoreError::Eskf(numbers.filter_error->0),
            )
            &&& batch is Ok && paid && planned is Ok && numbers.filter_error is None && !counted_on
                ==> answer == Err::<Option<EpochKinematics<P>>, LiveCoreError>(
                LiveCoreError::TimeOverflow,
            )
            &&& batch is Ok && paid && planned is Ok && numbers.filter_error is None && counted_on
                ==> answer is Ok
            &&& batch is Ok && paid ==> final(quota).remaining == old(quota).remaining - 8
            &&& batch is Err || !paid ==> final(quota).remaining == old(quota).remaining
        }),
{
}

} // verus!
