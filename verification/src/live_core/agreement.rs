//! When two cores stand at the same point, and why the same work then leads both
//! to the same next point.
use vstd::prelude::*;

use crate::capacity::{DENSE_HISTORY_CAPACITY, MEASUREMENT_QUEUE_CAPACITY};
use crate::dense_history::DenseSegment;
use crate::dense_history::{owns, ownership_is_unique};
use crate::error::{LiveCoreError, SmoothingError};
use crate::gnss::GnssUpdateOutcome;
use crate::live_core::config::FILTER_PROPAGATION_CREDITS;
use crate::live_core::decision::DrainDecision;
use crate::live_core::decision::decision;
use crate::live_core::drain::{is_step, StepResult};
use crate::live_core::finalization::FinalizationNumbers;
use crate::live_core::finalization::{
    finalization_verdict, is_finalization_completed, is_remainder, publication_verdict,
};
use crate::live_core::frontier::DrainAction;
use crate::live_core::frontier::finalization_ok;
use crate::live_core::fusion::FusionNumbers;
use crate::live_core::fusion::is_fusion_completed;
use crate::live_core::kinematics::kinematics_of;
use crate::live_core::output::OpenBatch;
use crate::live_core::output::{finish_verdict, is_finished};
use crate::live_core::planning::planning;
use crate::live_core::planning::planning_is_independent_of_credits;
use crate::live_core::propagation::PropagationNumbers;
use crate::live_core::propagation::{batch_verdict, filter_verdict, is_propagation_completed};
use crate::live_core::report::{DrainBlock, DrainReport};
use crate::live_core::smoothing::{
    is_capture_completed, is_publication_completed, is_seed_completed, is_smoothing_completed,
};
use crate::live_core::state::{LiveCore, LiveCoreHistory, LiveCoreState};
use crate::live_core::state::settled;
use crate::live_core::work::{EpochKinematics, FilterValues, Work};
use crate::payload::Payload;
use crate::rts_window::RTS_NODE_CAPACITY;
use crate::rts_window::publications_are_contiguous;
use crate::time::SessionTime;

verus! {

/// Whether two states hold the same.
pub open spec fn same_state<P: Payload>(
    first: LiveCoreState<P>,
    second: LiveCoreState<P>,
) -> bool {
    &&& first.scheduler@ == second.scheduler@
    &&& first == (LiveCoreState { scheduler: first.scheduler, ..second })
}

/// Whether two histories hold the same, apart from published segments, which may
/// have been taken at different times.
pub open spec fn same_buffers<P: Payload>(
    first: LiveCoreHistory<P>,
    second: LiveCoreHistory<P>,
) -> bool {
    &&& first.imu@ == second.imu@
    &&& first.predicted@ == second.predicted@
    &&& first.smoothing@ == second.smoothing@
    &&& forall|i: int|
        0 <= i < RTS_NODE_CAPACITY ==> #[trigger] first.smoothing.slot(i)
            == second.smoothing.slot(i)
    &&& first.corrected_quality@ == second.corrected_quality@
    &&& first == (LiveCoreHistory {
        imu: first.imu,
        corrected: first.corrected,
        predicted: first.predicted,
        smoothing: first.smoothing,
        corrected_quality: first.corrected_quality,
        ..second
    })
}

/// Whether two cores have been handed the same work.
pub open spec fn same_work<P: Payload>(first: Work<P>, second: Work<P>) -> bool {
    match (first, second) {
        (Work::Propagate(a), Work::Propagate(b)) => a@ == b@,
        _ => first == second,
    }
}

/// Whether two cores stand at the same point, apart from published segments that
/// have been taken.
pub open spec fn same_core<P: Payload>(first: LiveCore<P>, second: LiveCore<P>) -> bool {
    &&& same_state(first.state, second.state)
    &&& same_buffers(first.history, second.history)
    &&& same_work(first.work, second.work)
}

/// Whether two answers ask for the same work.
pub open spec fn same_answer<P: Payload>(
    first: Result<DrainAction<P>, LiveCoreError>,
    second: Result<DrainAction<P>, LiveCoreError>,
) -> bool {
    match (first, second) {
        (Ok(DrainAction::Propagate(a)), Ok(DrainAction::Propagate(b))) => a@ == b@,
        _ => first == second,
    }
}

/// Whether a step stopped for want of credits.
pub open spec fn ran_out<P: Payload>(result: StepResult<P>) -> bool {
    &&& result.answer matches Ok(DrainAction::Yield)
    &&& result.report.blocked_on == DrainBlock::QuotaExhausted
}

/// Published segments that nobody has taken can hold the work up. Apart from that
/// they have no part in what is due.
pub proof fn taking_never_changes_what_is_due<P: Payload>(
    first: LiveCore<P>,
    second: LiveCore<P>,
    boundary: Option<SessionTime>,
)
    requires
        same_state(first.state, second.state),
        same_buffers(first.history, second.history),
    ensures
        ({
            let a = decision(first.state, first.history, boundary);
            let b = decision(second.state, second.history, boundary);
            ||| a == b
            ||| a == Ok::<DrainDecision, LiveCoreError>(DrainDecision::CorrectedFull) && (b matches Ok(
                DrainDecision::Finalize,
            ) || b matches Ok(DrainDecision::Smooth))
            ||| b == Ok::<DrainDecision, LiveCoreError>(DrainDecision::CorrectedFull) && (a matches Ok(
                DrainDecision::Finalize,
            ) || a matches Ok(DrainDecision::Smooth))
        }),
{
}

proof fn finalization_work_is_unique<P: Payload>(
    first: LiveCore<P>,
    second: LiveCore<P>,
    first_answer: Result<DrainAction<P>, LiveCoreError>,
    second_answer: Result<DrainAction<P>, LiveCoreError>,
)
    requires
        settled(first.state, first.history),
        same_state(first.state, second.state),
        same_buffers(first.history, second.history),
        first_answer matches Ok(DrainAction::Finalize(work)) && finalization_ok(
            first.state,
            first.history,
            work,
        ),
        second_answer matches Ok(DrainAction::Finalize(work)) && finalization_ok(
            second.state,
            second.history,
            work,
        ),
    ensures
        first_answer == second_answer,
{
    let now = first.state.filter.time;
    let predicted = first.history.predicted@;
    first.history.predicted.wf_facts();
    let a = first_answer->Ok_0->Finalize_0;
    let b = second_answer->Ok_0->Finalize_0;
    let i = choose|i: int| #[trigger] owns(predicted, i, now) && predicted[i] == a.predicted;
    let j = choose|j: int| #[trigger] owns(predicted, j, now) && predicted[j] == b.predicted;
    ownership_is_unique(predicted, now);
    assert(i == j);
}

proof fn same_kinematics<P: Payload>(first: LiveCore<P>, second: LiveCore<P>, time: SessionTime)
    requires
        same_state(first.state, second.state),
        same_buffers(first.history, second.history),
    ensures
        kinematics_of(first.state, first.history.imu@, time) == kinematics_of(
            second.state,
            second.history.imu@,
            time,
        ),
{
}

proof fn same_planning<P: Payload>(
    first: LiveCore<P>,
    second: LiveCore<P>,
    stop: SessionTime,
    credits: int,
)
    requires
        same_state(first.state, second.state),
        same_buffers(first.history, second.history),
    ensures
        planning(first.state, first.history, stop, credits) == planning(
            second.state,
            second.history,
            stop,
            credits,
        ),
{
}

/// Two cores at the same point answer the same, at the same price, and stand at
/// the same point afterwards, whatever their credits and reports were. Left out
/// are steps that find no credits, or no room for a published segment.
pub proof fn step_keeps_agreement<P: Payload>(
    first: LiveCore<P>,
    second: LiveCore<P>,
    boundary: Option<SessionTime>,
    first_credits: int,
    first_report: DrainReport<P>,
    first_result: StepResult<P>,
    first_after: LiveCore<P>,
    second_credits: int,
    second_report: DrainReport<P>,
    second_result: StepResult<P>,
    second_after: LiveCore<P>,
)
    requires
        first.settled(),
        second.settled(),
        same_state(first.state, second.state),
        same_buffers(first.history, second.history),
        is_step(
            first.state,
            first.history,
            boundary,
            first_credits,
            first_report,
            first_result,
            first_after,
        ),
        is_step(
            second.state,
            second.history,
            boundary,
            second_credits,
            second_report,
            second_result,
            second_after,
        ),
        !ran_out(first_result),
        !ran_out(second_result),
        decision(first.state, first.history, boundary) == decision(
            second.state,
            second.history,
            boundary,
        ),
    ensures
        same_answer(first_result.answer, second_result.answer),
        first_credits - first_result.credits == second_credits - second_result.credits,
        same_core(first_after, second_after),
        first_after.history.corrected == first.history.corrected,
        second_after.history.corrected == second.history.corrected,
{
    same_kinematics(first, second, first.state.filter.time);
    first.history.smoothing.wf_facts();
    if let Ok(due) = decision(first.state, first.history, boundary) {
        match due {
            DrainDecision::Propagate(stop) => {
                let nodes = first.history.smoothing@.nodes.len();
                if first.state.smoothing_lag_ns == 0 || 0 < nodes < RTS_NODE_CAPACITY {
                    same_planning(first, second, stop, second_credits);
                    planning_is_independent_of_credits(
                        first.state,
                        first.history,
                        stop,
                        first_credits,
                        second_credits,
                    );
                }
            },
            DrainDecision::Finalize => {
                finalization_work_is_unique(
                    first,
                    second,
                    first_result.answer,
                    second_result.answer,
                );
            },
            _ => {},
        }
    }
}

/// Whether two lists grew by the same segment, or neither grew.
pub open spec fn grew_alike<P: Payload>(
    first: Seq<DenseSegment<P>>,
    first_after: Seq<DenseSegment<P>>,
    second: Seq<DenseSegment<P>>,
    second_after: Seq<DenseSegment<P>>,
) -> bool {
    ||| first_after == first && second_after == second
    ||| first_after.len() > 0 && first_after == first.push(first_after.last()) && second_after
        == second.push(first_after.last())
}

/// The same numbers of a fusion lead both cores to the same point.
pub proof fn fusion_keeps_agreement<P: Payload>(
    first: LiveCore<P>,
    second: LiveCore<P>,
    numbers: FusionNumbers<P>,
    first_report: DrainReport<P>,
    first_answer: Result<GnssUpdateOutcome<P>, LiveCoreError>,
    first_after_report: DrainReport<P>,
    first_after: LiveCore<P>,
    second_report: DrainReport<P>,
    second_answer: Result<GnssUpdateOutcome<P>, LiveCoreError>,
    second_after_report: DrainReport<P>,
    second_after: LiveCore<P>,
)
    requires
        same_core(first, second),
        first_report.updates().len() < MEASUREMENT_QUEUE_CAPACITY,
        second_report.updates().len() < MEASUREMENT_QUEUE_CAPACITY,
        is_fusion_completed(
            first,
            numbers,
            first_report,
            first_answer,
            first_after_report,
            first_after,
        ),
        is_fusion_completed(
            second,
            numbers,
            second_report,
            second_answer,
            second_after_report,
            second_after,
        ),
    ensures
        first_answer == second_answer,
        same_core(first_after, second_after),
        first_after.history.corrected == first.history.corrected,
        second_after.history.corrected == second.history.corrected,
{
    reveal(crate::live_core::fusion::fusion_outcome);
}

/// The same numbers of a finalization lead both cores to the same point, as long
/// as there is room for the quality of what they publish.
pub proof fn finalization_keeps_agreement<P: Payload>(
    first: LiveCore<P>,
    second: LiveCore<P>,
    numbers: FinalizationNumbers<P>,
    first_report: DrainReport<P>,
    first_answer: Result<(), LiveCoreError>,
    first_after_report: DrainReport<P>,
    first_after: LiveCore<P>,
    second_report: DrainReport<P>,
    second_answer: Result<(), LiveCoreError>,
    second_after_report: DrainReport<P>,
    second_after: LiveCore<P>,
)
    requires
        first.wf(),
        second.wf(),
        first.work is Finalize,
        same_core(first, second),
        first.state.smoothing_lag_ns == 0 ==> first.history.corrected_quality@.len()
            < DENSE_HISTORY_CAPACITY,
        is_finalization_completed(
            first,
            numbers,
            first_report,
            first_answer,
            first_after_report,
            first_after,
        ),
        is_finalization_completed(
            second,
            numbers,
            second_report,
            second_answer,
            second_after_report,
            second_after,
        ),
    ensures
        first_answer == second_answer,
        same_core(first_after, second_after),
        grew_alike(
            first.history.corrected@,
            first_after.history.corrected@,
            second.history.corrected@,
            second_after.history.corrected@,
        ),
{
    first.wf_is_settled();
    second.wf_is_settled();
    let work = first.work->Finalize_0;
    if finalization_verdict(first.state, work, numbers) is Ok {
        if first.state.smoothing_lag_ns == 0 {
            assert(publication_verdict(first.history, work.segment) is Ok);
            assert(publication_verdict(second.history, work.segment) is Ok);
        }
        let now = first.state.filter.time;
        remainder_is_unique(
            first.history.predicted@,
            now,
            first_after.history.predicted@,
            second_after.history.predicted@,
        );
    }
}

proof fn remainder_is_unique<P: Payload>(
    before: Seq<DenseSegment<P>>,
    time: SessionTime,
    first: Seq<DenseSegment<P>>,
    second: Seq<DenseSegment<P>>,
)
    requires
        is_remainder(before, time, first),
        is_remainder(before, time, second),
    ensures
        first == second,
{
    let i = choose|k: int|
        0 <= k <= before.len() && first == #[trigger] before.subrange(k, before.len() as int) && (
        forall|i: int| 0 <= i < k ==> (#[trigger] before[i]).end.time.ns <= time.ns) && (forall|
            i: int,
        |
            k <= i < before.len() ==> (#[trigger] before[i]).end.time.ns > time.ns);
    let j = choose|k: int|
        0 <= k <= before.len() && second == #[trigger] before.subrange(k, before.len() as int) && (
        forall|i: int| 0 <= i < k ==> (#[trigger] before[i]).end.time.ns <= time.ns) && (forall|
            i: int,
        |
            k <= i < before.len() ==> (#[trigger] before[i]).end.time.ns > time.ns);
    if i < j {
        assert(before[i].end.time.ns <= time.ns);
    } else if j < i {
        assert(before[j].end.time.ns <= time.ns);
    }
}

/// The same verdict on the first kinematics leads both cores to the same point.
pub proof fn seed_keeps_agreement<P: Payload>(
    first: LiveCore<P>,
    second: LiveCore<P>,
    error: Option<LiveCoreError>,
    first_answer: Result<bool, LiveCoreError>,
    first_after: LiveCore<P>,
    second_answer: Result<bool, LiveCoreError>,
    second_after: LiveCore<P>,
)
    requires
        same_core(first, second),
        is_seed_completed(first, error, first_answer, first_after),
        is_seed_completed(second, error, second_answer, second_after),
    ensures
        first_answer == second_answer,
        same_core(first_after, second_after),
        first_after.history.corrected == first.history.corrected,
        second_after.history.corrected == second.history.corrected,
{
}

/// The same numbers of a propagation lead both cores to the same point.
pub proof fn propagation_keeps_agreement<P: Payload>(
    first: LiveCore<P>,
    second: LiveCore<P>,
    numbers: PropagationNumbers<P>,
    first_credits: int,
    first_report: DrainReport<P>,
    first_answer: Result<Option<EpochKinematics<P>>, LiveCoreError>,
    first_credits_left: int,
    first_after_report: DrainReport<P>,
    first_after: LiveCore<P>,
    second_credits: int,
    second_report: DrainReport<P>,
    second_answer: Result<Option<EpochKinematics<P>>, LiveCoreError>,
    second_credits_left: int,
    second_after_report: DrainReport<P>,
    second_after: LiveCore<P>,
)
    requires
        same_core(first, second),
        first.work is Propagate,
        first_credits >= FILTER_PROPAGATION_CREDITS,
        second_credits >= FILTER_PROPAGATION_CREDITS,
        is_propagation_completed(
            first,
            numbers,
            first_credits,
            first_report,
            first_answer,
            first_credits_left,
            first_after_report,
            first_after,
        ),
        is_propagation_completed(
            second,
            numbers,
            second_credits,
            second_report,
            second_answer,
            second_credits_left,
            second_after_report,
            second_after,
        ),
    ensures
        first_answer == second_answer,
        same_core(first_after, second_after),
        first_after.history.corrected == first.history.corrected,
        second_after.history.corrected == second.history.corrected,
        first_credits - first_credits_left == second_credits - second_credits_left,
{
    let a = first.work->Propagate_0;
    let b = second.work->Propagate_0;
    assert(second.work is Propagate);
    assert(a.ledger == b.ledger && a.stop == b.stop);
    assert(batch_verdict(a, numbers.integrals_are_finite) == batch_verdict(
        b,
        numbers.integrals_are_finite,
    ));
    assert(filter_verdict(first.state, first.history, a, numbers) == filter_verdict(
        second.state,
        second.history,
        b,
        numbers,
    ));
    if batch_verdict(a, numbers.integrals_are_finite) is Ok && filter_verdict(
        first.state,
        first.history,
        a,
        numbers,
    ) is Ok {
        assert(same_state(first_after.state, second_after.state));
        assert(same_buffers(first_after.history, second_after.history));
        same_kinematics(first_after, second_after, first_after.state.filter.time);
    }
}

/// The same verdict on the kinematics of the new epoch leads both cores to the
/// same point.
pub proof fn capture_keeps_agreement<P: Payload>(
    first: LiveCore<P>,
    second: LiveCore<P>,
    error: Option<LiveCoreError>,
    first_report: DrainReport<P>,
    first_answer: Result<bool, LiveCoreError>,
    first_after_report: DrainReport<P>,
    first_after: LiveCore<P>,
    second_report: DrainReport<P>,
    second_answer: Result<bool, LiveCoreError>,
    second_after_report: DrainReport<P>,
    second_after: LiveCore<P>,
)
    requires
        same_core(first, second),
        is_capture_completed(
            first,
            error,
            first_report,
            first_answer,
            first_after_report,
            first_after,
        ),
        is_capture_completed(
            second,
            error,
            second_report,
            second_answer,
            second_after_report,
            second_after,
        ),
    ensures
        first_answer == second_answer,
        same_core(first_after, second_after),
        first_after.history.corrected == first.history.corrected,
        second_after.history.corrected == second.history.corrected,
{
}

/// The same outcome of a backward step leads both cores to the same point.
pub proof fn smoothing_keeps_agreement<P: Payload>(
    first: LiveCore<P>,
    second: LiveCore<P>,
    outcome: Result<FilterValues<P>, SmoothingError>,
    first_answer: Result<Option<DenseSegment<P>>, LiveCoreError>,
    first_after: LiveCore<P>,
    second_answer: Result<Option<DenseSegment<P>>, LiveCoreError>,
    second_after: LiveCore<P>,
)
    requires
        same_core(first, second),
        is_smoothing_completed(first, outcome, first_answer, first_after),
        is_smoothing_completed(second, outcome, second_answer, second_after),
    ensures
        first_answer == second_answer,
        same_core(first_after, second_after),
        first_after.history.corrected == first.history.corrected,
        second_after.history.corrected == second.history.corrected,
{
}

/// The same verdict on a segment publishes it, or keeps it, in both cores, as long
/// as there is room for the quality of what they publish.
pub proof fn publication_keeps_agreement<P: Payload>(
    first: LiveCore<P>,
    second: LiveCore<P>,
    segment_is_valid: bool,
    first_report: DrainReport<P>,
    first_answer: Result<(), LiveCoreError>,
    first_after_report: DrainReport<P>,
    first_after: LiveCore<P>,
    second_report: DrainReport<P>,
    second_answer: Result<(), LiveCoreError>,
    second_after_report: DrainReport<P>,
    second_after: LiveCore<P>,
)
    requires
        first.wf(),
        second.wf(),
        first.work is Publish,
        same_core(first, second),
        first.history.corrected_quality@.len() < DENSE_HISTORY_CAPACITY,
        is_publication_completed(
            first,
            segment_is_valid,
            first_report,
            first_answer,
            first_after_report,
            first_after,
        ),
        is_publication_completed(
            second,
            segment_is_valid,
            second_report,
            second_answer,
            second_after_report,
            second_after,
        ),
    ensures
        first_answer == second_answer,
        same_core(first_after, second_after),
        grew_alike(
            first.history.corrected@,
            first_after.history.corrected@,
            second.history.corrected@,
            second_after.history.corrected@,
        ),
{
    first.wf_is_settled();
    second.wf_is_settled();
    first.history.smoothing.wf_facts();
    let window = first.history.smoothing@;
    let segment = window.publication();
    publications_are_contiguous(window);
    assert(window.nodes[1].incoming is Some);
    assert(publication_verdict(first.history, segment) is Ok);
    assert(publication_verdict(second.history, segment) is Ok);
}

/// Ending the input leads both cores to the same point.
pub proof fn finishing_keeps_agreement<P: Payload>(
    first: LiveCore<P>,
    second: LiveCore<P>,
    open: Option<OpenBatch<P>>,
    first_after: LiveCore<P>,
    second_after: LiveCore<P>,
)
    requires
        same_state(first.state, second.state),
        same_buffers(first.history, second.history),
        is_finished(first.state, first.history, open, first_after),
        is_finished(second.state, second.history, open, second_after),
    ensures
        finish_verdict(first.state, first.history, open) == finish_verdict(
            second.state,
            second.history,
            open,
        ),
        same_core(first_after, second_after),
        first_after.history.corrected == first.history.corrected,
        second_after.history.corrected == second.history.corrected,
{
}

} // verus!
