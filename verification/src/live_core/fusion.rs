//! Taking over the result of one GNSS fusion.
use vstd::prelude::*;

use crate::capacity::MEASUREMENT_QUEUE_CAPACITY;
use crate::error::{EskfError, LiveCoreError};
use crate::gnss::{
    accepted_gnss_quality_update, GnssObservation, GnssQualityUpdate, GnssUpdateOutcome, UpdateDecision,
};
use crate::gnss::quality_of;
use crate::live_core::frontier::fusion_ok;
use crate::live_core::report::DrainReport;
use crate::live_core::report::count_outcome;
use crate::live_core::state::{LiveCore, LiveCoreHistory, LiveCoreState};
use crate::live_core::state::evidence;
use crate::live_core::work::{FilterValues, FusionWork, Work};
use crate::payload::Payload;
use crate::rts_window::RtsWindowModel;
use crate::scheduler::SchedulerModel;

verus! {

/// The numbers of one fusion.
#[derive(Clone, Copy, Debug, PartialEq)]
pub struct FusionNumbers<P: Payload> {
    /// Why the angular acceleration at the epoch could not be computed.
    pub kinematics_error: Option<LiveCoreError>,
    /// Verdicts on the observation with the kinematics of its epoch.
    pub values_are_finite: bool,
    pub angular_covariance_is_valid: bool,
    /// Verdicts on the innovation gate and on the held sample.
    pub gate_is_valid: bool,
    pub sample_is_valid: bool,
    /// Why one of the planned updates failed.
    pub update_error: Option<EskfError>,
    /// The decisions of the planned updates.
    pub joint: Option<UpdateDecision<P>>,
    pub position: Option<UpdateDecision<P>>,
    pub velocity: Option<UpdateDecision<P>>,
    /// The filter after the updates.
    pub values: FilterValues<P>,
}

/// The observation with the kinematics of its epoch.
pub open spec fn aligned_observation<P: Payload>(
    work: FusionWork<P>,
    numbers: FusionNumbers<P>,
) -> GnssObservation<P> {
    GnssObservation {
        has_angular_acceleration: work.kinematics.rate_pair is Some,
        values_are_finite: numbers.values_are_finite,
        angular_covariance_is_valid: numbers.angular_covariance_is_valid,
        ..work.scheduled.value
    }
}

/// The outcome of a fusion, or why there is none.
#[verifier::opaque]
pub open spec fn fusion_outcome<P: Payload>(
    state: LiveCoreState<P>,
    work: FusionWork<P>,
    numbers: FusionNumbers<P>,
) -> Result<GnssUpdateOutcome<P>, LiveCoreError> {
    let plan = aligned_observation(work, numbers).fusion(
        state.filter.time,
        state.filter.active_consider as int,
        numbers.gate_is_valid,
        numbers.sample_is_valid,
    );
    if numbers.kinematics_error is Some {
        Err(numbers.kinematics_error->0)
    } else {
        match plan {
            Err(error) => Err(LiveCoreError::Eskf(error)),
            Ok(plan) => {
                let updates = plan.joint || plan.position || plan.velocity;
                if updates && numbers.update_error is Some {
                    Err(LiveCoreError::Eskf(numbers.update_error->0))
                } else if (plan.joint && numbers.joint is None) || (plan.position
                    && numbers.position is None) || (plan.velocity && numbers.velocity is None) {
                    Err(LiveCoreError::Eskf(EskfError::InvalidMeasurement))
                } else {
                    Ok(
                        plan.outcome_of(
                            numbers.joint->0,
                            numbers.position->0,
                            numbers.velocity->0,
                        ),
                    )
                }
            },
        }
    }
}

/// Whether `after` is the state and history with one observation fused. Only a contributing
/// observation changes the filter and the quality.
pub open spec fn is_fused<P: Payload>(
    state: LiveCoreState<P>,
    history: LiveCoreHistory<P>,
    work: FusionWork<P>,
    numbers: FusionNumbers<P>,
    outcome: GnssUpdateOutcome<P>,
    after: LiveCore<P>,
) -> bool {
    let quality = quality_of(aligned_observation(work, numbers), outcome);
    let queue = state.queue();
    &&& after.state.scheduler@ == (SchedulerModel {
        queue: queue.subrange(1, queue.len() as int),
        ..state.scheduler@
    })
    &&& after.state == (LiveCoreState {
        scheduler: after.state.scheduler,
        filter_values: if quality is Some {
            numbers.values
        } else {
            state.filter_values
        },
        ..state
    })
    &&& after.history.smoothing@ == (RtsWindowModel {
        dirty: history.smoothing@.dirty || quality is Some,
        ..history.smoothing@
    })
    &&& history.smoothing.keeps_slots(after.history.smoothing)
    &&& after.history == (LiveCoreHistory {
        active_imu_sample: Some(work.kinematics.sample),
        smoothing: after.history.smoothing,
        current_quality: if quality is Some {
            quality
        } else {
            history.current_quality
        },
        endpoint_quality: if quality is Some && state.pending_corrected_segment is None {
            quality
        } else {
            history.endpoint_quality
        },
        ..history
    })
    &&& after.work == Work::<P>::Idle
}

/// Whether `answer`, `after_report` and `after` are what became of a fusion under
/// way. A failure leaves everything as it was.
pub open spec fn is_fusion_completed<P: Payload>(
    before: LiveCore<P>,
    numbers: FusionNumbers<P>,
    report: DrainReport<P>,
    answer: Result<GnssUpdateOutcome<P>, LiveCoreError>,
    after_report: DrainReport<P>,
    after: LiveCore<P>,
) -> bool {
    &&& answer is Err ==> after == before.with_work(Work::Idle) && after_report == report
    &&& match before.work {
        Work::Fuse(work) => {
            let outcome = fusion_outcome(before.state, work, numbers);
            let quality = quality_of(aligned_observation(work, numbers), outcome->Ok_0);
            if outcome is Err {
                answer == outcome
            } else if quality is Some && report.updates().len() == MEASUREMENT_QUEUE_CAPACITY {
                answer == Err::<GnssUpdateOutcome<P>, LiveCoreError>(
                    LiveCoreError::InternalInvariant,
                )
            } else {
                &&& answer == outcome
                &&& is_fused(before.state, before.history, work, numbers, outcome->Ok_0, after)
                &&& after_report.counters == count_outcome(report.counters, outcome->Ok_0)
                &&& after_report.updates() == (match quality {
                    Some(update) => report.updates().push(update),
                    None => report.updates(),
                })
                &&& after_report.last_gnss_outcome == Some(outcome->Ok_0)
                &&& after_report.last_gnss_key == Some(work.scheduled.key)
                &&& after_report.blocked_on == report.blocked_on
            }
        },
        _ => answer == Err::<GnssUpdateOutcome<P>, LiveCoreError>(
            LiveCoreError::InternalInvariant,
        ),
    }
}

fn decide_outcome<P: Payload>(
    state: &LiveCoreState<P>,
    observation: &GnssObservation<P>,
    work: &FusionWork<P>,
    numbers: &FusionNumbers<P>,
) -> (r: Result<GnssUpdateOutcome<P>, LiveCoreError>)
    requires
        *observation == aligned_observation(*work, *numbers),
    ensures
        r == fusion_outcome(*state, *work, *numbers),
{
    reveal(fusion_outcome);
    if let Some(error) = numbers.kinematics_error {
        return Err(error);
    }
    let plan = match observation.plan_fusion(
        state.filter.time,
        state.filter.active_consider,
        numbers.gate_is_valid,
        numbers.sample_is_valid,
    ) {
        Err(error) => {
            return Err(LiveCoreError::Eskf(error));
        },
        Ok(plan) => plan,
    };
    if plan.joint || plan.position || plan.velocity {
        if let Some(error) = numbers.update_error {
            return Err(LiveCoreError::Eskf(error));
        }
    }
    match plan.outcome(numbers.joint, numbers.position, numbers.velocity) {
        Err(error) => Err(LiveCoreError::Eskf(error)),
        Ok(outcome) => Ok(outcome),
    }
}

impl<P: Payload> LiveCore<P> {
    /// Completes a fusion. A failure leaves the core as it was.
    pub fn complete_fusion(
        &mut self,
        numbers: FusionNumbers<P>,
        report: &mut DrainReport<P>,
    ) -> (r: Result<GnssUpdateOutcome<P>, LiveCoreError>)
        requires
            old(self).wf(),
            old(report).wf(),
        ensures
            final(self).wf(),
            final(report).wf(),
            is_fusion_completed(
                *old(self),
                numbers,
                *old(report),
                r,
                *final(report),
                *final(self),
            ),
    {
        let work = match self.take_work() {
            Work::Fuse(work) => work,
            _ => {
                return Err(LiveCoreError::InternalInvariant);
            },
        };
        let mut observation = work.scheduled.value;
        observation.has_angular_acceleration = work.kinematics.rate_pair.is_some();
        observation.values_are_finite = numbers.values_are_finite;
        observation.angular_covariance_is_valid = numbers.angular_covariance_is_valid;
        let outcome = match decide_outcome(&self.state, &observation, &work, &numbers) {
            Err(error) => {
                return Err(error);
            },
            Ok(outcome) => outcome,
        };
        let quality = accepted_gnss_quality_update(&observation, outcome);
        if quality.is_some() && !report.has_room() {
            proof {
                report.wf_facts();
            }
            return Err(LiveCoreError::InternalInvariant);
        }
        proof {
            fusion_under_way(*old(self), work);
        }
        match self.commit_fusion(&work, &numbers, outcome, quality) {
            Err(error) => {
                return Err(error);
            },
            Ok(_) => {},
        }
        proof {
            report.wf_facts();
        }
        report.note_fusion(work.scheduled.key, outcome, quality);
        Ok(outcome)
    }

    /// Takes the observation off the queue and adopts what it contributed.
    fn commit_fusion(
        &mut self,
        work: &FusionWork<P>,
        numbers: &FusionNumbers<P>,
        outcome: GnssUpdateOutcome<P>,
        quality: Option<GnssQualityUpdate<P>>,
    ) -> (r: Result<(), LiveCoreError>)
        requires
            old(self).wf(),
            old(self).work is Idle,
            fusion_ok(old(self).state, *work),
            quality == quality_of(aligned_observation(*work, *numbers), outcome),
        ensures
            r is Ok,
            final(self).wf(),
            is_fused(old(self).state, old(self).history, *work, *numbers, outcome, *final(self)),
    {
        let ghost before = *self;
        proof {
            reveal(LiveCore::wf);
            self.state.scheduler.wf_facts();
        }
        match self.state.scheduler.pop_next_measurement() {
            Err(error) => {
                return Err(LiveCoreError::Scheduler(error));
            },
            Ok(None) => {
                return Err(LiveCoreError::InternalInvariant);
            },
            Ok(Some(popped)) => {
                if popped.key != work.scheduled.key {
                    return Err(LiveCoreError::InternalInvariant);
                }
            },
        }
        self.history.active_imu_sample = Some(work.kinematics.sample);
        if quality.is_some() {
            self.state.filter_values = numbers.values;
            self.history.current_quality = quality;
            if self.state.pending_corrected_segment.is_none() {
                self.history.endpoint_quality = quality;
            }
            self.history.smoothing.observation_accepted();
        }
        proof {
            fusing_keeps_settled(before, *work, *numbers, outcome, *self);
        }
        Ok(())
    }
}

proof fn fusion_under_way<P: Payload>(core: LiveCore<P>, work: FusionWork<P>)
    requires
        core.wf(),
        core.work == Work::Fuse(work),
    ensures
        fusion_ok(core.state, work),
{
    reveal(LiveCore::wf);
}

proof fn fusing_keeps_settled<P: Payload>(
    before: LiveCore<P>,
    work: FusionWork<P>,
    numbers: FusionNumbers<P>,
    outcome: GnssUpdateOutcome<P>,
    after: LiveCore<P>,
)
    requires
        before.settled(),
        fusion_ok(before.state, work),
        after.state.scheduler.wf(),
        after.history.smoothing.wf(),
        is_fused(before.state, before.history, work, numbers, outcome, after),
    ensures
        after.settled(),
{
    let queue = before.state.queue();
    assert forall|i: int| 0 <= i < after.state.queue().len() implies {
        &&& (#[trigger] after.state.queue()[i]).key.time.ns >= after.state.filter.time.ns
        &&& after.state.frontier() is Some && after.state.pending_corrected_segment is None
            ==> after.state.queue()[i].key.time.ns > after.state.filter.time.ns
    } by {
        assert(after.state.queue()[i] == queue[i + 1]);
    }
    assert(evidence(after.state, after.history) == evidence(before.state, before.history));
    assert(after.state.scheduler@.target() == before.state.scheduler@.target());
}

/// A fusion that contributes nothing leaves the filter, the quality and the
/// smoothing window as they were.
pub proof fn rejected_fusion_changes_nothing_published<P: Payload>(
    before: LiveCore<P>,
    work: FusionWork<P>,
    numbers: FusionNumbers<P>,
    outcome: GnssUpdateOutcome<P>,
    after: LiveCore<P>,
)
    requires
        is_fused(before.state, before.history, work, numbers, outcome, after),
        !outcome.contributes(),
    ensures
        after.state.filter_values == before.state.filter_values,
        after.history.current_quality == before.history.current_quality,
        after.history.endpoint_quality == before.history.endpoint_quality,
        after.history.smoothing@ == before.history.smoothing@,
{
}

/// Whether a part of an outcome was accepted, with its full weight or with less.
pub open spec fn is_accepted<P: Payload>(part: Option<UpdateDecision<P>>) -> bool {
    match part {
        Some(UpdateDecision::Fused { .. }) => true,
        Some(UpdateDecision::Downweighted { .. }) => true,
        _ => false,
    }
}

/// One accepted part is enough, be it the position, the velocity or both together:
/// the filter then takes over the values that were computed, the observation's
/// quality counts from its epoch on and is reported, and the retained past can be
/// smoothed anew.
pub proof fn accepted_part_is_adopted<P: Payload>(
    core: &mut LiveCore<P>,
    numbers: FusionNumbers<P>,
    report: &mut DrainReport<P>,
    outcome: GnssUpdateOutcome<P>,
)
    requires
        call_ensures(
            LiveCore::<P>::complete_fusion,
            (core, numbers, report),
            Ok::<GnssUpdateOutcome<P>, LiveCoreError>(outcome),
        ),
        is_accepted(outcome.position) || is_accepted(outcome.velocity) || is_accepted(
            outcome.joint,
        ),
    ensures
        old(core).work is Fuse,
        final(core).state.filter_values == numbers.values,
        final(core).history.smoothing@.dirty,
        final(core).history.current_quality is Some,
        ({
            let observation = old(core).work->Fuse_0.scheduled.value;
            let quality = final(core).history.current_quality->0;
            &&& quality.epoch == observation.time
            &&& quality.label == observation.label
            &&& quality.downweighted <==> (outcome.position matches Some(
                UpdateDecision::Downweighted { .. },
            )) || (outcome.velocity matches Some(UpdateDecision::Downweighted { .. })) || (
            outcome.joint matches Some(UpdateDecision::Downweighted { .. }))
            &&& final(report).updates() == old(report).updates().push(quality)
            &&& old(core).state.pending_corrected_segment is None
                ==> final(core).history.endpoint_quality == Some(quality)
            &&& old(core).state.pending_corrected_segment is Some
                ==> final(core).history.endpoint_quality == old(core).history.endpoint_quality
        }),
{
}

/// Without an accepted part the filter, the quality and the smoothing window stay as
/// they were, and no quality is reported. The observation is used up all the same.
pub proof fn rejected_observation_is_only_used_up<P: Payload>(
    core: &mut LiveCore<P>,
    numbers: FusionNumbers<P>,
    report: &mut DrainReport<P>,
    outcome: GnssUpdateOutcome<P>,
)
    requires
        old(core).wf(),
        call_ensures(
            LiveCore::<P>::complete_fusion,
            (core, numbers, report),
            Ok::<GnssUpdateOutcome<P>, LiveCoreError>(outcome),
        ),
        !is_accepted(outcome.position) && !is_accepted(outcome.velocity) && !is_accepted(
            outcome.joint,
        ),
    ensures
        final(core).state.filter_values == old(core).state.filter_values,
        final(core).history.smoothing@ == old(core).history.smoothing@,
        final(core).history.current_quality == old(core).history.current_quality,
        final(core).history.endpoint_quality == old(core).history.endpoint_quality,
        final(report).updates() == old(report).updates(),
        final(core).state.queue().len() == old(core).state.queue().len() - 1,
{
    fusion_under_way(*old(core), old(core).work->Fuse_0);
}

/// Every fusion uses up the first waiting observation and no other, leaves the held
/// sample of its epoch behind, reports its outcome under its key, and moves neither
/// the filter's epoch nor anything that belongs to the predictor or to the output.
pub proof fn fusion_uses_up_its_observation<P: Payload>(
    core: &mut LiveCore<P>,
    numbers: FusionNumbers<P>,
    report: &mut DrainReport<P>,
    outcome: GnssUpdateOutcome<P>,
)
    requires
        old(core).wf(),
        call_ensures(
            LiveCore::<P>::complete_fusion,
            (core, numbers, report),
            Ok::<GnssUpdateOutcome<P>, LiveCoreError>(outcome),
        ),
    ensures
        old(core).work is Fuse,
        ({
            let work = old(core).work->Fuse_0;
            let before = old(core).state.queue();
            let after = final(core).state.queue();
            &&& after.len() == before.len() - 1
            &&& forall|i: int| 0 <= i < after.len() ==> #[trigger] after[i] == before[i + 1]
            &&& final(core).history.active_imu_sample == Some(work.kinematics.sample)
            &&& final(report).last_gnss_key == Some(work.scheduled.key)
            &&& final(report).last_gnss_outcome == Some(outcome)
            &&& final(report).blocked_on == old(report).blocked_on
        }),
        final(core).work is Idle,
        final(core).state.filter == old(core).state.filter,
        final(core).state.predictor == old(core).state.predictor,
        final(core).state.predictor_estimate == old(core).state.predictor_estimate,
        final(core).state.predictor_endpoint == old(core).state.predictor_endpoint,
        final(core).state.corrected_endpoint == old(core).state.corrected_endpoint,
        final(core).state.pending_corrected_segment == old(core).state.pending_corrected_segment,
        final(core).history.imu == old(core).history.imu,
        final(core).history.corrected == old(core).history.corrected,
        final(core).history.corrected_quality == old(core).history.corrected_quality,
        final(core).history.predicted == old(core).history.predicted,
        final(core).history.published_frontier == old(core).history.published_frontier,
        final(core).history.smoothing@.nodes == old(core).history.smoothing@.nodes,
{
    fusion_under_way(*old(core), old(core).work->Fuse_0);
}

/// A failed fusion can be tried again: nothing of it shows, neither in the core nor in
/// the report.
pub proof fn failed_fusion_leaves_no_trace<P: Payload>(
    core: &mut LiveCore<P>,
    numbers: FusionNumbers<P>,
    report: &mut DrainReport<P>,
    error: LiveCoreError,
)
    requires
        call_ensures(
            LiveCore::<P>::complete_fusion,
            (core, numbers, report),
            Err::<GnssUpdateOutcome<P>, LiveCoreError>(error),
        ),
    ensures
        final(core).state == old(core).state,
        final(core).history == old(core).history,
        final(core).work is Idle,
        *final(report) == *old(report),
        old(core).work !is Fuse ==> error == LiveCoreError::InternalInvariant,
        old(core).work is Fuse && numbers.kinematics_error is Some ==> error
            == numbers.kinematics_error->0,
{
    reveal(fusion_outcome);
}

/// A sound observation of a healthy receiver, with everything it needs, is fused: each
/// part that it has gets the decision that its update made, and no part is invented.
pub proof fn sound_observation_is_decided<P: Payload>(
    core: &mut LiveCore<P>,
    work: FusionWork<P>,
    numbers: FusionNumbers<P>,
    report: &mut DrainReport<P>,
    answer: Result<GnssUpdateOutcome<P>, LiveCoreError>,
)
    requires
        call_ensures(LiveCore::<P>::complete_fusion, (core, numbers, report), answer),
        old(core).work == Work::Fuse(work),
        old(report).updates().len() < MEASUREMENT_QUEUE_CAPACITY,
        numbers.kinematics_error is None,
        numbers.update_error is None,
        numbers.joint is Some && numbers.position is Some && numbers.velocity is Some,
        numbers.gate_is_valid && numbers.sample_is_valid,
        ({
            let observation = work.scheduled.value;
            &&& observation.receiver_healthy
            &&& observation.time == old(core).state.filter.time
            &&& observation.lever_arm_is_nonzero ==> work.kinematics.rate_pair is Some
            &&& aligned_observation(work, numbers).verdict() is Ok
            &&& observation.blocks_are_active(old(core).state.filter.active_consider as int)
        }),
    ensures
        answer matches Ok(outcome) && {
            let observation = work.scheduled.value;
            let together = observation.has_position && observation.has_velocity
                && observation.has_cross_covariance;
            &&& together ==> outcome.joint == numbers.joint && outcome.position is None
                && outcome.velocity is None
            &&& !together ==> outcome.joint is None
            &&& !together && observation.has_position ==> outcome.position == numbers.position
            &&& !together && observation.has_velocity ==> outcome.velocity == numbers.velocity
            &&& !observation.has_position ==> outcome.position is None
            &&& !observation.has_velocity ==> outcome.velocity is None
        },
{
    reveal(fusion_outcome);
}

/// A fusion fails for its kinematics first, then for what the filter says of the
/// observation, then for an update that failed; an update without a decision and a report
/// without room fail it too. Everything else is fused.
#[verifier::spinoff_prover]
#[verifier::rlimit(50)]
pub proof fn fusions_fail_for_a_reason<P: Payload>(
    core: &mut LiveCore<P>,
    work: FusionWork<P>,
    numbers: FusionNumbers<P>,
    report: &mut DrainReport<P>,
    planned: Result<crate::gnss::FusionPlan<P>, EskfError>,
    answer: Result<GnssUpdateOutcome<P>, LiveCoreError>,
)
    requires
        old(core).work == Work::Fuse(work),
        call_ensures(LiveCore::<P>::complete_fusion, (core, numbers, report), answer),
        call_ensures(
            GnssObservation::<P>::plan_fusion,
            (
                &GnssObservation {
                    has_angular_acceleration: work.kinematics.rate_pair is Some,
                    values_are_finite: numbers.values_are_finite,
                    angular_covariance_is_valid: numbers.angular_covariance_is_valid,
                    ..work.scheduled.value
                },
                old(core).state.filter.time,
                old(core).state.filter.active_consider,
                numbers.gate_is_valid,
                numbers.sample_is_valid,
            ),
            planned,
        ),
    ensures
        ({
            let runs = planned is Ok && (planned->Ok_0.joint || planned->Ok_0.position
                || planned->Ok_0.velocity);
            let undecided = planned is Ok && (planned->Ok_0.joint && numbers.joint is None
                || planned->Ok_0.position && numbers.position is None || planned->Ok_0.velocity
                && numbers.velocity is None);
            let kinematics_are_valid = numbers.kinematics_error is None;
            &&& !kinematics_are_valid ==> answer == Err::<GnssUpdateOutcome<P>, LiveCoreError>(
                numbers.kinematics_error->0,
            )
            &&& kinematics_are_valid && planned is Err ==> answer == Err::<
                GnssUpdateOutcome<P>,
                LiveCoreError,
            >(LiveCoreError::Eskf(planned->Err_0))
            &&& kinematics_are_valid && runs && numbers.update_error is Some ==> answer == Err::<
                GnssUpdateOutcome<P>,
                LiveCoreError,
            >(LiveCoreError::Eskf(numbers.update_error->0))
            &&& kinematics_are_valid && undecided && numbers.update_error is None ==> answer
                == Err::<GnssUpdateOutcome<P>, LiveCoreError>(
                LiveCoreError::Eskf(EskfError::InvalidMeasurement),
            )
            &&& kinematics_are_valid && planned is Ok && !undecided && (runs
                ==> numbers.update_error is None) && old(report).updates().len()
                != MEASUREMENT_QUEUE_CAPACITY ==> answer is Ok
            &&& answer is Ok ==> {
                let plan = planned->Ok_0;
                let outcome = answer->Ok_0;
                &&& planned is Ok
                &&& plan.joint ==> outcome.joint == numbers.joint
                &&& plan.position ==> outcome.position == numbers.position
                &&& plan.velocity ==> outcome.velocity == numbers.velocity
                &&& !plan.joint ==> outcome.joint == plan.preset.joint
                &&& !plan.position ==> outcome.position == plan.preset.position
                &&& !plan.velocity ==> outcome.velocity == plan.preset.velocity
            }
        }),
{
    let plan = aligned_observation(work, numbers).fusion(
        old(core).state.filter.time,
        old(core).state.filter.active_consider as int,
        numbers.gate_is_valid,
        numbers.sample_is_valid,
    );
    assert(planned == plan);
    let outcome = fusion_outcome(old(core).state, work, numbers);
    assert(answer is Ok ==> answer == outcome);
    assert(outcome is Err ==> answer == outcome);
    reveal(fusion_outcome);
}

} // verus!
