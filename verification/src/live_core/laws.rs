//! What the operations of the live core promise together.
use vstd::prelude::*;

use crate::capacity::DENSE_HISTORY_CAPACITY;
use crate::dense_history::DenseSegment;
use crate::error::LiveCoreError;
use crate::gnss::{GnssObservation, GnssUpdateOutcome};
use crate::gnss::quality_of;
use crate::imu::ImuInterval;
use crate::live_core::agreement::{
    ran_out, same_answer, same_buffers, same_core, step_keeps_agreement,
};
use crate::live_core::decision::DrainDecision;
use crate::live_core::decision::{decision, decision_never_contradicts, drained};
use crate::live_core::drain::{is_step, StepResult};
use crate::live_core::finalization::{
    is_finalized, FinalizationNumbers, PredictorCorrection,
};
use crate::live_core::frontier::DrainAction;
use crate::live_core::frontier::corrected_segment;
use crate::live_core::fusion::FusionNumbers;
use crate::live_core::fusion::{aligned_observation, fusion_outcome, is_fusion_completed};
use crate::live_core::kinematics::{kinematics_of, right_owner};
use crate::live_core::propagation::{is_propagated, PropagationNumbers};
use crate::live_core::report::DrainReport;
use crate::live_core::state::{LiveCore, LiveCoreHistory, LiveCoreState};
use crate::live_core::state::{evidence, linked, settled};
use crate::live_core::work::{
    EpochKinematics, FinalizationWork, FusionWork, PropagationPlan, Work,
};
use crate::payload::Payload;
use crate::scheduler::{SchedulerModel, WorkQuota};
use crate::time::SessionTime;

verus! {

/// A step that stops for want of credits leaves the core as it was: nothing is
/// consumed, and asking again with more credits asks the same question.
pub proof fn exhausted_step_consumes_nothing<P: Payload>(
    state: LiveCoreState<P>,
    history: LiveCoreHistory<P>,
    boundary: Option<SessionTime>,
    credits: int,
    report: DrainReport<P>,
    result: StepResult<P>,
    after: LiveCore<P>,
)
    requires
        is_step(state, history, boundary, credits, report, result, after),
        ran_out(result),
    ensures
        after.state == state,
        after.history == history,
{
}

/// How the credits are divided among calls never changes what is done: any two
/// steps from one state that do not run out of credits give the same answer,
/// charge the same price and leave the core at the same point.
pub proof fn quota_never_changes_the_outcome<P: Payload>(
    state: LiveCoreState<P>,
    history: LiveCoreHistory<P>,
    boundary: Option<SessionTime>,
    first_credits: int,
    first_report: DrainReport<P>,
    first: StepResult<P>,
    first_after: LiveCore<P>,
    second_credits: int,
    second_report: DrainReport<P>,
    second: StepResult<P>,
    second_after: LiveCore<P>,
)
    requires
        settled(state, history),
        is_step(state, history, boundary, first_credits, first_report, first, first_after),
        is_step(state, history, boundary, second_credits, second_report, second, second_after),
        !ran_out(first),
        !ran_out(second),
    ensures
        same_answer(first.answer, second.answer),
        first_credits - first.credits == second_credits - second.credits,
        same_core(first_after, second_after),
        first_after.history.corrected@ == second_after.history.corrected@,
{
    let core = LiveCore { state, history, work: Work::Idle };
    step_keeps_agreement(
        core,
        core,
        boundary,
        first_credits,
        first_report,
        first,
        first_after,
        second_credits,
        second_report,
        second,
        second_after,
    );
}

/// Whether two observations differ in nothing but the packet that brought them:
/// the values that it carried, and what those say about rate, force and angular
/// acceleration.
pub open spec fn differ_in_packet<P: Payload>(
    first: GnssObservation<P>,
    second: GnssObservation<P>,
) -> bool {
    second == (GnssObservation {
        fix: second.fix,
        has_angular_acceleration: second.has_angular_acceleration,
        values_are_finite: second.values_are_finite,
        angular_covariance_is_valid: second.angular_covariance_is_valid,
        ..first
    })
}

/// Whether two cores differ in nothing but the packet of the next observation.
pub open spec fn differ_in_next_packet<P: Payload>(
    first: LiveCore<P>,
    second: LiveCore<P>,
) -> bool {
    let queue = first.state.queue();
    let other = second.state.queue();
    &&& queue.len() > 0
    &&& other.len() == queue.len()
    &&& other[0].key == queue[0].key
    &&& differ_in_packet(queue[0].value, other[0].value)
    &&& other.subrange(1, other.len() as int) == queue.subrange(1, queue.len() as int)
    &&& second.state.scheduler@ == (SchedulerModel { queue: other, ..first.state.scheduler@ })
    &&& second.state == (LiveCoreState { scheduler: second.state.scheduler, ..first.state })
    &&& same_buffers(first.history, second.history)
}

/// Whether two reports say the same.
pub open spec fn same_report<P: Payload>(first: DrainReport<P>, second: DrainReport<P>) -> bool {
    &&& first.updates() == second.updates()
    &&& first == (DrainReport { quality_updates: first.quality_updates, ..second })
}

/// A fusion goes by the inertial evidence of its own epoch, never by what the
/// packet carried: two cores that differ in nothing but the packet of the
/// observation that is due hand out the same sample, with the same neighbour and
/// the same correlation. That sample is the retained interval that begins at the
/// epoch, where there is one. The same numbers then give the same answer, the same
/// report and the same core.
pub proof fn fusion_ignores_the_packet<P: Payload>(
    first: LiveCore<P>,
    second: LiveCore<P>,
    boundary: Option<SessionTime>,
    credits: int,
    report: DrainReport<P>,
    first_step: StepResult<P>,
    first_begun: LiveCore<P>,
    second_step: StepResult<P>,
    second_begun: LiveCore<P>,
    numbers: FusionNumbers<P>,
    first_answer: Result<GnssUpdateOutcome<P>, LiveCoreError>,
    first_report: DrainReport<P>,
    first_after: LiveCore<P>,
    second_answer: Result<GnssUpdateOutcome<P>, LiveCoreError>,
    second_report: DrainReport<P>,
    second_after: LiveCore<P>,
)
    requires
        first.settled(),
        second.settled(),
        differ_in_next_packet(first, second),
        decision(first.state, first.history, boundary) == Ok::<DrainDecision, LiveCoreError>(
            DrainDecision::Fuse,
        ),
        is_step(
            first.state,
            first.history,
            boundary,
            credits,
            report,
            first_step,
            first_begun,
        ),
        is_step(
            second.state,
            second.history,
            boundary,
            credits,
            report,
            second_step,
            second_begun,
        ),
        is_fusion_completed(
            first_begun,
            numbers,
            first_step.report,
            first_answer,
            first_report,
            first_after,
        ),
        is_fusion_completed(
            second_begun,
            numbers,
            second_step.report,
            second_answer,
            second_report,
            second_after,
        ),
    ensures
        first_step.credits == second_step.credits,
        first_step.report == second_step.report,
        match (first_step.answer, second_step.answer) {
            (Ok(DrainAction::Fuse(a)), Ok(DrainAction::Fuse(b))) => {
                let now = first.state.filter.time;
                let owner = right_owner(first.history.imu@, now);
                &&& a.kinematics == b.kinematics
                &&& a.continues_sample == b.continues_sample
                &&& a.scheduled.key == b.scheduled.key
                &&& a.scheduled.key.time == now
                &&& Ok::<EpochKinematics<P>, LiveCoreError>(a.kinematics) == kinematics_of(
                    first.state,
                    first.history.imu@,
                    now,
                )
                &&& owner is Some ==> a.kinematics.sample == owner->0.spec_sample_from(now)
            },
            (a, b) => a == b,
        },
        first_answer == second_answer,
        same_report(first_report, second_report),
        first_answer is Ok ==> same_core(first_after, second_after),
        first_answer is Err ==> first_after == (LiveCore { work: Work::Idle, ..first })
            && second_after == (LiveCore { work: Work::Idle, ..second }),
{
    step_ignores_the_packet(
        first,
        second,
        boundary,
        credits,
        report,
        first_step,
        first_begun,
        second_step,
        second_begun,
    );
    if first_step.answer is Ok && first_begun.work is Fuse {
        outcome_ignores_the_packet(
            first_begun.state,
            second_begun.state,
            first_begun.work->Fuse_0,
            second_begun.work->Fuse_0,
            numbers,
        );
    }
}

/// What two cores that differ in nothing but the next packet hand out.
spec fn hands_out_alike<P: Payload>(
    first: LiveCore<P>,
    second: LiveCore<P>,
    first_step: StepResult<P>,
    first_begun: LiveCore<P>,
    second_step: StepResult<P>,
    second_begun: LiveCore<P>,
) -> bool {
    let idle = LiveCore { work: Work::Idle, ..first };
    let other = LiveCore { work: Work::Idle, ..second };
    let now = first.state.filter.time;
    let kinematics = kinematics_of(first.state, first.history.imu@, now);
    match (first_step.answer, second_step.answer) {
        (Ok(DrainAction::Fuse(a)), Ok(DrainAction::Fuse(b))) => {
            &&& kinematics == Ok::<EpochKinematics<P>, LiveCoreError>(a.kinematics)
            &&& a.kinematics == b.kinematics
            &&& a.continues_sample == b.continues_sample
            &&& a.scheduled == first.state.queue()[0]
            &&& b.scheduled == second.state.queue()[0]
            &&& a.scheduled.key.time == now
            &&& first_begun == idle.with_work(Work::Fuse(a))
            &&& second_begun == other.with_work(Work::Fuse(b))
        },
        (a, b) => a == b && first_begun == idle && second_begun == other,
    }
}

proof fn step_ignores_the_packet<P: Payload>(
    first: LiveCore<P>,
    second: LiveCore<P>,
    boundary: Option<SessionTime>,
    credits: int,
    report: DrainReport<P>,
    first_step: StepResult<P>,
    first_begun: LiveCore<P>,
    second_step: StepResult<P>,
    second_begun: LiveCore<P>,
)
    requires
        differ_in_next_packet(first, second),
        decision(first.state, first.history, boundary) == Ok::<DrainDecision, LiveCoreError>(
            DrainDecision::Fuse,
        ),
        is_step(
            first.state,
            first.history,
            boundary,
            credits,
            report,
            first_step,
            first_begun,
        ),
        is_step(
            second.state,
            second.history,
            boundary,
            credits,
            report,
            second_step,
            second_begun,
        ),
    ensures
        first_step.credits == second_step.credits,
        first_step.report == second_step.report,
        hands_out_alike(first, second, first_step, first_begun, second_step, second_begun),
{
    assert(decision(second.state, second.history, boundary) == Ok::<DrainDecision, LiveCoreError>(
        DrainDecision::Fuse,
    ));
    assert(kinematics_of(first.state, first.history.imu@, first.state.filter.time)
        == kinematics_of(second.state, second.history.imu@, second.state.filter.time));
}

proof fn outcome_ignores_the_packet<P: Payload>(
    first: LiveCoreState<P>,
    second: LiveCoreState<P>,
    first_work: FusionWork<P>,
    second_work: FusionWork<P>,
    numbers: FusionNumbers<P>,
)
    requires
        first.filter == second.filter,
        first_work.kinematics == second_work.kinematics,
        differ_in_packet(first_work.scheduled.value, second_work.scheduled.value),
    ensures
        fusion_outcome(first, first_work, numbers) == fusion_outcome(second, second_work, numbers),
        forall|outcome: GnssUpdateOutcome<P>|
            #![auto]
            quality_of(aligned_observation(first_work, numbers), outcome) == quality_of(
                aligned_observation(second_work, numbers),
                outcome,
            ),
{
    reveal(fusion_outcome);
    let a = aligned_observation(first_work, numbers);
    let b = aligned_observation(second_work, numbers);
    assert(b == GnssObservation { fix: b.fix, ..a });
}

/// Nothing that is queued belongs to the committed part, and the committed part
/// never reaches beyond the evidence.
pub proof fn committed_frontier_is_final<P: Payload>(
    state: LiveCoreState<P>,
    history: LiveCoreHistory<P>,
)
    requires
        settled(state, history),
        state.frontier() is Some,
    ensures
        state.frontier()->0.ns <= state.filter.time.ns,
        state.filter.time.ns <= state.evidence_end().ns,
        forall|i: int|
            0 <= i < state.queue().len() ==> (#[trigger] state.queue()[i]).key.time.ns
                > state.frontier()->0.ns,
{
    evidence_is_not_behind(state, history);
}

/// The filter never overtakes the evidence.
pub proof fn evidence_is_not_behind<P: Payload>(state: LiveCoreState<P>, history: LiveCoreHistory<P>)
    requires
        settled(state, history),
    ensures
        state.filter.time.ns <= state.evidence_end().ns,
        state.filter.time == state.evidence_end() ==> evidence(state, history).len() == 0,
{
    let chain = evidence(state, history);
    if chain.len() > 0 {
        chain_moves_forward(chain, chain.len() - 1);
    }
}

proof fn chain_moves_forward<P: Payload>(chain: Seq<ImuInterval<P>>, upto: int)
    requires
        linked(chain),
        0 <= upto < chain.len(),
    ensures
        chain[0].start.ns < chain[upto].end.ns,
    decreases upto,
{
    assert(chain[upto].verdict() is Ok);
    if upto > 0 {
        chain_moves_forward(chain, upto - 1);
        assert(chain[upto - 1].end == chain[upto].start);
    }
}

/// An observation at the epoch of a segment is fused before the segment becomes
/// immutable, and none is passed over by a commit or a propagation.
pub proof fn no_observation_is_passed_over<P: Payload>(
    state: LiveCoreState<P>,
    history: LiveCoreHistory<P>,
    boundary: Option<SessionTime>,
)
    requires
        settled(state, history),
    ensures
        match decision(state, history, boundary) {
            Ok(DrainDecision::Finalize) | Ok(DrainDecision::CommitFrontier) => forall|i: int|
                0 <= i < state.queue().len() ==> (#[trigger] state.queue()[i]).key.time.ns
                    > state.filter.time.ns,
            Ok(DrainDecision::Propagate(stop)) => forall|i: int|
                0 <= i < state.queue().len() ==> (#[trigger] state.queue()[i]).key.time.ns
                    >= stop.ns,
            _ => true,
        },
{
    decision_never_contradicts(state, history, boundary);
    state.scheduler.wf_facts();
    if state.scheduler@.target() is Ok && state.queue().len() > 0 {
        let queue = state.queue();
        assert(queue[0].key.time.ns >= state.filter.time.ns);
        if decision(state, history, boundary) matches Ok(DrainDecision::Finalize) || decision(
            state,
            history,
            boundary,
        ) matches Ok(DrainDecision::CommitFrontier) {
            assert forall|i: int| 0 <= i < queue.len() implies (#[trigger] queue[i]).key.time.ns
                > state.filter.time.ns by {
                if i > 0 {
                    assert(crate::order::key_lt(queue[0].key, queue[i].key));
                }
            }
        }
    }
}

/// While a backward pass is running nothing but the pass goes on, so that no
/// division of the credits can interleave other work with it.
pub proof fn backward_pass_is_not_interrupted<P: Payload>(
    state: LiveCoreState<P>,
    history: LiveCoreHistory<P>,
    boundary: Option<SessionTime>,
)
    requires
        settled(state, history),
        history.smoothing@.cursor is Some,
        state.scheduler@.target() is Ok,
    ensures
        decision(state, history, boundary) == Ok::<DrainDecision, LiveCoreError>(
            if history.corrected@.len() == DENSE_HISTORY_CAPACITY {
                DrainDecision::CorrectedFull
            } else {
                DrainDecision::Smooth
            },
        ),
{
    history.smoothing.wf_facts();
    if state.queue().len() > 0 {
        assert(state.queue()[0].key.time.ns > state.filter.time.ns);
    }
}

/// A drained core has used all of its evidence and published everything up to
/// the last trusted instant.
pub proof fn drained_core_has_published_everything<P: Payload>(
    state: LiveCoreState<P>,
    history: LiveCoreHistory<P>,
)
    requires
        settled(state, history),
        drained(state, history),
        state.frontier() is Some,
        history.corrected_quality@.len() < DENSE_HISTORY_CAPACITY,
    ensures
        evidence(state, history).len() == 0,
        history.published_frontier == state.scheduler@.latest_trusted_imu,
        history.corrected@.len() > 0 ==> Some(history.corrected@.last().end.time)
            == state.scheduler@.latest_trusted_imu,
        forall|i: int|
            0 <= i < state.queue().len() ==> (#[trigger] state.queue()[i]).key.time.ns
                > state.scheduler@.latest_trusted_imu->0.ns,
{
    evidence_is_not_behind(state, history);
    if history.smoothing@.nodes.len() == 1 {
        assert(history.smoothing@.nodes.last() == history.smoothing@.nodes[0]);
    }
}

/// Each finalization moves the frontier strictly forward, to the epoch of the
/// filter.
pub proof fn frontier_advances<P: Payload>(
    state: LiveCoreState<P>,
    history: LiveCoreHistory<P>,
    segment: DenseSegment<P>,
    correction: PredictorCorrection<P>,
    after: LiveCore<P>,
)
    requires
        settled(state, history),
        state.pending_corrected_segment is Some,
        is_finalized(state, history, segment, correction, after),
    ensures
        state.frontier() is Some,
        after.state.frontier() == Some(state.filter.time),
        state.frontier()->0.ns < after.state.frontier()->0.ns,
{
}

/// Boundaries are never revised: the segment after a finalized one begins with
/// the very endpoint, values included, at which that one ended.
pub proof fn corrected_segments_join<P: Payload>(
    state: LiveCoreState<P>,
    history: LiveCoreHistory<P>,
    segment: DenseSegment<P>,
    correction: PredictorCorrection<P>,
    finalized: LiveCore<P>,
    plan: PropagationPlan<P>,
    numbers: PropagationNumbers<P>,
    after: LiveCore<P>,
)
    requires
        state.next_corrected_segment_id < u64::MAX,
        segment == corrected_segment(state),
        is_finalized(state, history, segment, correction, finalized),
        is_propagated(
            finalized.state,
            finalized.history,
            plan,
            numbers,
            after.state,
            after.history,
        ),
    ensures
        corrected_segment(after.state).start == segment.end,
        corrected_segment(after.state).id == segment.id + 1,
{
}

/// What covers any part of a bridged gap is degraded to the end: the propagation through it
/// leaves a degraded segment pending, which is handed out, finished and published, or
/// retained to be smoothed, as degraded. The same holds of degraded input.
#[verifier::spinoff_prover]
#[verifier::rlimit(50)]
pub proof fn bridged_stretches_stay_degraded<P: Payload>(
    propagated: &mut LiveCore<P>,
    plan: PropagationPlan<P>,
    propagation_numbers: PropagationNumbers<P>,
    propagation_quota: &mut WorkQuota,
    propagation_report: &mut DrainReport<P>,
    next: Option<EpochKinematics<P>>,
    stepped: &mut LiveCore<P>,
    boundary: Option<SessionTime>,
    quota: &mut WorkQuota,
    report: &mut DrainReport<P>,
    work: FinalizationWork<P>,
    finished: &mut LiveCore<P>,
    numbers: FinalizationNumbers<P>,
    final_report: &mut DrainReport<P>,
)
    requires
        old(propagated).wf(),
        old(propagated).work == Work::Propagate(plan),
        call_ensures(
            LiveCore::<P>::complete_propagation,
            (propagated, propagation_numbers, propagation_quota, propagation_report),
            Ok::<Option<EpochKinematics<P>>, LiveCoreError>(next),
        ),
        old(stepped).state.pending_corrected_segment
            == final(propagated).state.pending_corrected_segment,
        call_ensures(
            LiveCore::<P>::drain_step,
            (stepped, boundary, quota, report),
            Ok::<DrainAction<P>, LiveCoreError>(DrainAction::Finalize(work)),
        ),
        old(finished).work == Work::Finalize(work),
        old(finished).state.smoothing_lag_ns != 0 ==> old(finished).history.smoothing@.nodes.len() > 0,
        call_ensures(
            LiveCore::<P>::complete_finalization,
            (finished, numbers, final_report),
            Ok::<(), LiveCoreError>(()),
        ),
    ensures
        work.segment.degraded == plan.ledger.degraded,
        work.segment.degraded_input == plan.ledger.degraded_input,
        old(finished).state.smoothing_lag_ns == 0 ==> {
            let published = final(finished).history.corrected@.last();
            &&& published.degraded == plan.ledger.degraded
            &&& published.degraded_input == plan.ledger.degraded_input
        },
        old(finished).state.smoothing_lag_ns != 0 ==> {
            let retained = final(finished).history.smoothing@.nodes.last().incoming;
            &&& retained is Some
            &&& retained->0.degraded == plan.ledger.degraded
            &&& retained->0.degraded_input == plan.ledger.degraded_input
        },
{
}

} // verus!
