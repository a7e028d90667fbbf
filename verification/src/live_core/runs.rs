//! Whole runs of the drain: calls with any credits, steps, completed work, and
//! segments that are taken in between.
use vstd::prelude::*;

use crate::capacity::{DENSE_HISTORY_CAPACITY, MEASUREMENT_QUEUE_CAPACITY};
use crate::dense_history::{DenseEndpoint, DenseSegment};
use crate::error::{LiveCoreError, SmoothingError};
use crate::gnss::GnssUpdateOutcome;
use crate::live_core::agreement::{
    capture_keeps_agreement, finalization_keeps_agreement, finishing_keeps_agreement,
    fusion_keeps_agreement, grew_alike, propagation_keeps_agreement, publication_keeps_agreement,
    same_buffers, same_core, same_state, seed_keeps_agreement, smoothing_keeps_agreement,
    step_keeps_agreement, taking_never_changes_what_is_due,
};
use crate::live_core::config::FILTER_PROPAGATION_CREDITS;
use crate::live_core::decision::DrainDecision;
use crate::live_core::decision::{decision, decision_never_contradicts};
use crate::live_core::drain::{is_step, StepResult};
use crate::live_core::finalization::FinalizationNumbers;
use crate::live_core::finalization::{finalization_verdict, is_finalization_completed};
use crate::live_core::frontier::DrainAction;
use crate::live_core::fusion::FusionNumbers;
use crate::live_core::fusion::is_fusion_completed;
use crate::live_core::output::OpenBatch;
use crate::live_core::output::{is_finished, is_taken};
use crate::live_core::planning::planning_is_never_starved;
use crate::live_core::progress::{
    backlog, backlog_falls, backlog_is_a_number, finalization_makes_progress,
    first_commit_makes_progress, flag, fusion_makes_progress, propagation_makes_progress,
    publication_makes_progress, seeding_makes_progress, smoothing_makes_progress,
};
use crate::live_core::propagation::PropagationNumbers;
use crate::live_core::propagation::is_propagation_completed;
use crate::live_core::report::DrainReport;
use crate::live_core::smoothing::{
    is_capture_completed, is_publication_completed, is_seed_completed, is_smoothing_completed,
};
use crate::live_core::state::LiveCore;
use crate::live_core::work::{
    EpochKinematics, FilterValues, FinalizationWork, FusionWork, PlanModel, Work,
};
use crate::payload::Payload;
use crate::rts_window::{SmoothingWork, RTS_STEP_CREDITS};
use crate::time::SessionTime;

verus! {

/// Something that has to be computed outside of the core.
pub enum Task<P: Payload> {
    Fuse(FusionWork<P>),
    Finalize(FinalizationWork<P>),
    Seed(EpochKinematics<P>),
    Propagate(PlanModel<P>),
    Capture(EpochKinematics<P>),
    Smooth(SmoothingWork),
    Publish(DenseSegment<P>),
}

/// How the numbers are computed. They depend on the task at hand, the last one of
/// the list, and on all tasks before it.
#[verifier::reject_recursive_types(P)]
pub struct Arithmetic<P: Payload> {
    pub fusion: spec_fn(Seq<Task<P>>) -> FusionNumbers<P>,
    pub finalization: spec_fn(Seq<Task<P>>) -> FinalizationNumbers<P>,
    pub seed: spec_fn(Seq<Task<P>>) -> Option<LiveCoreError>,
    pub propagation: spec_fn(Seq<Task<P>>) -> PropagationNumbers<P>,
    pub capture: spec_fn(Seq<Task<P>>) -> Option<LiveCoreError>,
    pub smoothing: spec_fn(Seq<Task<P>>) -> Result<FilterValues<P>, SmoothingError>,
    pub publication: spec_fn(Seq<Task<P>>) -> bool,
}

/// Where a run stands.
pub struct Point<P: Payload> {
    pub core: LiveCore<P>,
    /// What is left of the credits of the current call.
    pub credits: int,
    /// The report of the current call.
    pub report: DrainReport<P>,
    /// Everything that has been computed.
    pub tasks: Seq<Task<P>>,
    /// The published segments that have been taken.
    pub taken: Seq<DenseSegment<P>>,
}

impl<P: Payload> Point<P> {
    /// Every segment that has been published, taken or not.
    pub open spec fn trajectory(self) -> Seq<DenseSegment<P>> {
        self.taken + self.core.history.corrected@
    }

    pub open spec fn wf(self) -> bool {
        &&& self.core.wf()
        &&& self.report.wf()
    }

    /// Whether there is room for the quality of a published segment.
    pub open spec fn has_room(self) -> bool {
        self.core.history.corrected_quality@.len() < DENSE_HISTORY_CAPACITY
    }

    /// Whether nothing is left to do before more input arrives.
    pub open spec fn at_rest(self, boundary: Option<SessionTime>) -> bool {
        let due = decision(self.core.state, self.core.history, boundary);
        due matches Ok(DrainDecision::Await) || due matches Ok(DrainDecision::Finished)
    }

    /// Whether published segments have to be taken first.
    pub open spec fn is_held_up(self, boundary: Option<SessionTime>) -> bool {
        decision(self.core.state, self.core.history, boundary) matches Ok(
            DrainDecision::CorrectedFull,
        )
    }
}

/// One step with the work that it asked for.
pub struct Turn<P: Payload> {
    pub step: StepResult<P>,
    /// The core once the work has been handed out.
    pub begun: LiveCore<P>,
    /// The core and the report between the two halves of work that has two.
    pub middle: LiveCore<P>,
    pub middle_report: DrainReport<P>,
    /// Whether no error came back.
    pub succeeds: bool,
}

/// What a caller may do.
pub enum Move<P: Payload> {
    /// Begin a call with fresh credits and a fresh report.
    Call(int),
    /// Perform one step and the work that it asks for.
    Turn(Turn<P>),
    /// Take the oldest published segment.
    Take,
}

impl<P: Payload> Move<P> {
    /// Whether work was begun. The other moves leave the core where it was.
    pub open spec fn is_work(self) -> bool {
        &&& self matches Move::Turn(turn)
        &&& turn.step.answer is Ok
        &&& !(turn.step.answer->Ok_0 is Yield)
    }

    /// Whether a segment is published, where it is valid.
    pub open spec fn publishes(self, from: Point<P>) -> bool {
        &&& self matches Move::Turn(turn)
        &&& match turn.step.answer {
            Ok(DrainAction::Finalize(_)) => from.core.state.smoothing_lag_ns == 0,
            Ok(DrainAction::Smooth(_)) => turn.begun.history.smoothing@.cursor == Some(0int),
            Ok(DrainAction::Publish(_)) => true,
            _ => false,
        }
    }
}

/// Whether `to` is reached from `from` by publishing `segment`, or by failing to.
pub open spec fn is_publishing<P: Payload>(
    arithmetic: Arithmetic<P>,
    tasks: Seq<Task<P>>,
    segment: DenseSegment<P>,
    core: LiveCore<P>,
    report: DrainReport<P>,
    succeeds: bool,
    to: Point<P>,
) -> bool {
    let published = tasks.push(Task::Publish(segment));
    &&& to.tasks == published
    &&& exists|answer: Result<(), LiveCoreError>| #[trigger]
        is_publication_completed(
            core,
            (arithmetic.publication)(published),
            report,
            answer,
            to.report,
            to.core,
        ) && succeeds == (answer is Ok)
}

/// The second half of a propagation with smoothing.
pub open spec fn is_capturing<P: Payload>(
    arithmetic: Arithmetic<P>,
    tasks: Seq<Task<P>>,
    kinematics: EpochKinematics<P>,
    turn: Turn<P>,
    to: Point<P>,
) -> bool {
    let captured = tasks.push(Task::Capture(kinematics));
    &&& to.tasks == captured
    &&& exists|answer: Result<bool, LiveCoreError>| #[trigger]
        is_capture_completed(
            turn.middle,
            (arithmetic.capture)(captured),
            turn.middle_report,
            answer,
            to.report,
            to.core,
        ) && turn.succeeds == (answer is Ok)
}

/// Both halves of a propagation; the second one only follows with smoothing.
pub open spec fn is_propagating<P: Payload>(
    arithmetic: Arithmetic<P>,
    tasks: Seq<Task<P>>,
    answer: Result<Option<EpochKinematics<P>>, LiveCoreError>,
    turn: Turn<P>,
    to: Point<P>,
) -> bool {
    &&& is_propagation_completed(
        turn.begun,
        (arithmetic.propagation)(tasks),
        turn.step.credits,
        turn.step.report,
        answer,
        to.credits,
        turn.middle_report,
        turn.middle,
    )
    &&& match answer {
        Ok(Some(kinematics)) => is_capturing(arithmetic, tasks, kinematics, turn, to),
        _ => {
            &&& to.tasks == tasks
            &&& to.core == turn.middle
            &&& to.report == turn.middle_report
            &&& turn.succeeds == (answer is Ok)
        },
    }
}

/// Both halves of a backward step; the second one only follows the last step of a
/// pass.
pub open spec fn is_smoothing<P: Payload>(
    arithmetic: Arithmetic<P>,
    tasks: Seq<Task<P>>,
    answer: Result<Option<DenseSegment<P>>, LiveCoreError>,
    turn: Turn<P>,
    to: Point<P>,
) -> bool {
    &&& is_smoothing_completed(turn.begun, (arithmetic.smoothing)(tasks), answer, turn.middle)
    &&& match answer {
        Ok(Some(segment)) => is_publishing(
            arithmetic,
            tasks,
            segment,
            turn.middle,
            turn.step.report,
            turn.succeeds,
            to,
        ),
        _ => {
            &&& to.tasks == tasks
            &&& to.core == turn.middle
            &&& to.report == turn.step.report
            &&& turn.succeeds == (answer is Ok)
        },
    }
}

/// Whether `turn` leads from one point to the next.
pub open spec fn is_turn<P: Payload>(
    arithmetic: Arithmetic<P>,
    boundary: Option<SessionTime>,
    from: Point<P>,
    turn: Turn<P>,
    to: Point<P>,
) -> bool {
    let step = turn.step;
    let begun = turn.begun;
    &&& is_step(
        from.core.state,
        from.core.history,
        boundary,
        from.credits,
        from.report,
        step,
        begun,
    )
    &&& begun.wf()
    &&& to.wf()
    &&& to.taken == from.taken
    &&& match step.answer {
        Ok(DrainAction::Fuse(work)) => {
            let tasks = from.tasks.push(Task::Fuse(work));
            &&& to.tasks == tasks
            &&& to.credits == step.credits
            &&& exists|answer: Result<GnssUpdateOutcome<P>, LiveCoreError>| #[trigger]
                is_fusion_completed(
                    begun,
                    (arithmetic.fusion)(tasks),
                    step.report,
                    answer,
                    to.report,
                    to.core,
                ) && turn.succeeds == (answer is Ok)
        },
        Ok(DrainAction::Finalize(work)) => {
            let tasks = from.tasks.push(Task::Finalize(work));
            &&& to.tasks == tasks
            &&& to.credits == step.credits
            &&& exists|answer: Result<(), LiveCoreError>| #[trigger]
                is_finalization_completed(
                    begun,
                    (arithmetic.finalization)(tasks),
                    step.report,
                    answer,
                    to.report,
                    to.core,
                ) && turn.succeeds == (answer is Ok)
        },
        Ok(DrainAction::Seed(kinematics)) => {
            let tasks = from.tasks.push(Task::Seed(kinematics));
            &&& to.tasks == tasks
            &&& to.credits == step.credits
            &&& to.report == step.report
            &&& exists|answer: Result<bool, LiveCoreError>| #[trigger]
                is_seed_completed(begun, (arithmetic.seed)(tasks), answer, to.core)
                    && turn.succeeds == (answer is Ok)
        },
        Ok(DrainAction::Propagate(plan)) => {
            let tasks = from.tasks.push(Task::Propagate(plan@));
            &&& turn.middle.wf()
            &&& exists|answer: Result<Option<EpochKinematics<P>>, LiveCoreError>| #[trigger]
                is_propagating(arithmetic, tasks, answer, turn, to)
        },
        Ok(DrainAction::Smooth(work)) => {
            let tasks = from.tasks.push(Task::Smooth(work));
            &&& turn.middle.wf()
            &&& to.credits == step.credits
            &&& exists|answer: Result<Option<DenseSegment<P>>, LiveCoreError>| #[trigger]
                is_smoothing(arithmetic, tasks, answer, turn, to)
        },
        Ok(DrainAction::Publish(segment)) => {
            &&& to.credits == step.credits
            &&& is_publishing(
                arithmetic,
                from.tasks,
                segment,
                begun,
                step.report,
                turn.succeeds,
                to,
            )
        },
        _ => {
            &&& to.core == begun
            &&& to.credits == step.credits
            &&& to.report == step.report
            &&& to.tasks == from.tasks
            &&& turn.succeeds == (step.answer is Ok)
        },
    }
}

/// Whether `chosen` leads from one point to the next.
pub open spec fn is_move<P: Payload>(
    arithmetic: Arithmetic<P>,
    boundary: Option<SessionTime>,
    from: Point<P>,
    chosen: Move<P>,
    to: Point<P>,
) -> bool {
    match chosen {
        Move::Call(credits) => {
            &&& to == (Point { credits, report: to.report, ..from })
            &&& to.report.wf()
            &&& to.report.updates().len() == 0
        },
        Move::Turn(turn) => is_turn(arithmetic, boundary, from, turn, to),
        Move::Take => {
            &&& to.core.wf()
            &&& to == (Point { core: to.core, taken: to.taken, ..from })
            &&& exists|segment: Option<DenseSegment<P>>| #[trigger]
                is_taken(from.core, segment, to.core) && to.taken == (match segment {
                    Some(segment) => from.taken.push(segment),
                    None => from.taken,
                })
        },
    }
}

/// A sequence of moves, with the points before, between and after them.
pub struct Run<P: Payload> {
    pub points: Seq<Point<P>>,
    pub moves: Seq<Move<P>>,
}

impl<P: Payload> Run<P> {
    pub open spec fn start(self) -> Point<P> {
        self.points[0]
    }

    pub open spec fn end(self) -> Point<P> {
        self.points.last()
    }

    /// Whether every move leads to the next point. A run begins with a fresh
    /// report.
    pub open spec fn valid(self, arithmetic: Arithmetic<P>, boundary: Option<SessionTime>) -> bool {
        &&& self.points.len() == self.moves.len() + 1
        &&& self.start().wf()
        &&& self.start().report.updates().len() == 0
        &&& forall|i: int|
            0 <= i < self.moves.len() ==> is_move(
                arithmetic,
                boundary,
                self.points[i],
                #[trigger] self.moves[i],
                self.points[i + 1],
            )
    }

    /// Whether the quality of every published segment found room.
    pub open spec fn has_room(self) -> bool {
        forall|i: int|
            0 <= i < self.moves.len() && (#[trigger] self.moves[i]).publishes(self.points[i])
                ==> self.points[i].has_room()
    }

    /// Whether no error came back.
    pub open spec fn succeeds(self) -> bool {
        forall|i: int|
            0 <= i < self.moves.len() ==> ((#[trigger] self.moves[i]) matches Move::Turn(turn)
                ==> turn.succeeds)
    }

    /// Whether every call has enough credits for any single piece of work, and is
    /// made while there is something to do.
    pub open spec fn is_nourished(self, boundary: Option<SessionTime>) -> bool {
        forall|i: int|
            0 <= i < self.moves.len() && (#[trigger] self.moves[i]) is Call ==> {
                &&& self.moves[i]->Call_0 >= RTS_STEP_CREDITS
                &&& i + 1 < self.moves.len() && self.moves[i + 1] is Turn
                &&& !self.points[i].at_rest(boundary)
                &&& !self.points[i].is_held_up(boundary)
            }
    }

    /// How many of the first `count` moves were calls.
    pub open spec fn calls(self, count: int) -> nat
        decreases count,
    {
        if count <= 0 {
            0
        } else if self.moves[count - 1] is Call {
            self.calls(count - 1) + 1
        } else {
            self.calls(count - 1)
        }
    }

    /// How many of the first `count` moves began work.
    pub open spec fn work_done(self, count: int) -> nat
        decreases count,
    {
        if count <= 0 {
            0
        } else if self.moves[count - 1].is_work() {
            self.work_done(count - 1) + 1
        } else {
            self.work_done(count - 1)
        }
    }
}

/// Whether two runs stand at the same point: everything that has been computed,
/// the whole published trajectory, and the core that is left are the same.
pub open spec fn agree<P: Payload>(first: Point<P>, second: Point<P>) -> bool {
    &&& same_state(first.core.state, second.core.state)
    &&& same_buffers(first.core.history, second.core.history)
    &&& first.tasks == second.tasks
    &&& first.trajectory() == second.trajectory()
}

/// Moves without work change nothing that counts.
proof fn idle_move_changes_nothing<P: Payload>(
    arithmetic: Arithmetic<P>,
    boundary: Option<SessionTime>,
    from: Point<P>,
    chosen: Move<P>,
    to: Point<P>,
)
    requires
        is_move(arithmetic, boundary, from, chosen, to),
        !chosen.is_work(),
    ensures
        agree(to, from),
{
    match chosen {
        Move::Take => {
            assert(to.trajectory() =~= from.trajectory());
        },
        _ => {},
    }
}

/// The room for quality transitions in the report of a call lasts for every
/// observation that is still queued.
proof fn report_has_room<P: Payload>(
    run: Run<P>,
    arithmetic: Arithmetic<P>,
    boundary: Option<SessionTime>,
    i: int,
)
    requires
        run.valid(arithmetic, boundary),
        0 <= i < run.points.len(),
    ensures
        run.points[i].wf(),
        run.points[i].report.updates().len() + run.points[i].core.state.queue().len()
            <= MEASUREMENT_QUEUE_CAPACITY,
    decreases i,
{
    if i == 0 {
        run.start().core.wf_is_settled();
        run.start().core.state.scheduler.wf_facts();
    } else {
        report_has_room(run, arithmetic, boundary, i - 1);
        let from = run.points[i - 1];
        let to = run.points[i];
        let chosen = run.moves[i - 1];
        assert(is_move(arithmetic, boundary, from, chosen, to));
        from.core.wf_is_settled();
        from.core.state.scheduler.wf_facts();
        turn_keeps_report_room(arithmetic, boundary, from, chosen, to);
    }
}

proof fn turn_keeps_report_room<P: Payload>(
    arithmetic: Arithmetic<P>,
    boundary: Option<SessionTime>,
    from: Point<P>,
    chosen: Move<P>,
    to: Point<P>,
)
    requires
        is_move(arithmetic, boundary, from, chosen, to),
        from.wf(),
        from.core.state.queue().len() <= MEASUREMENT_QUEUE_CAPACITY,
        from.report.updates().len() + from.core.state.queue().len() <= MEASUREMENT_QUEUE_CAPACITY,
    ensures
        to.wf(),
        to.report.updates().len() + to.core.state.queue().len() <= MEASUREMENT_QUEUE_CAPACITY,
{
}

proof fn trajectories_grow_alike<P: Payload>(
    first: Point<P>,
    first_after: Point<P>,
    second: Point<P>,
    second_after: Point<P>,
)
    requires
        first.trajectory() == second.trajectory(),
        first_after.taken == first.taken,
        second_after.taken == second.taken,
        grew_alike(
            first.core.history.corrected@,
            first_after.core.history.corrected@,
            second.core.history.corrected@,
            second_after.core.history.corrected@,
        ),
    ensures
        first_after.trajectory() == second_after.trajectory(),
{
    let added = first_after.core.history.corrected@.last();
    if !(first_after.core.history.corrected@ == first.core.history.corrected@
        && second_after.core.history.corrected@ == second.core.history.corrected@) {
        assert(first_after.trajectory() =~= first.trajectory().push(added));
        assert(second_after.trajectory() =~= second.trajectory().push(added));
    }
}

proof fn publishing_keeps_agreement<P: Payload>(
    arithmetic: Arithmetic<P>,
    tasks: Seq<Task<P>>,
    segment: DenseSegment<P>,
    first: LiveCore<P>,
    first_report: DrainReport<P>,
    first_succeeds: bool,
    first_to: Point<P>,
    second: LiveCore<P>,
    second_report: DrainReport<P>,
    second_succeeds: bool,
    second_to: Point<P>,
)
    requires
        first.wf(),
        second.wf(),
        first.work is Publish,
        same_core(first, second),
        first.history.corrected_quality@.len() < DENSE_HISTORY_CAPACITY,
        is_publishing(
            arithmetic,
            tasks,
            segment,
            first,
            first_report,
            first_succeeds,
            first_to,
        ),
        is_publishing(
            arithmetic,
            tasks,
            segment,
            second,
            second_report,
            second_succeeds,
            second_to,
        ),
    ensures
        same_core(first_to.core, second_to.core),
        first_to.tasks == second_to.tasks,
        grew_alike(
            first.history.corrected@,
            first_to.core.history.corrected@,
            second.history.corrected@,
            second_to.core.history.corrected@,
        ),
{
    let valid = (arithmetic.publication)(tasks.push(Task::Publish(segment)));
    let a = choose|answer: Result<(), LiveCoreError>| #[trigger]
        is_publication_completed(
            first,
            valid,
            first_report,
            answer,
            first_to.report,
            first_to.core,
        ) && first_succeeds == (answer is Ok);
    let b = choose|answer: Result<(), LiveCoreError>| #[trigger]
        is_publication_completed(
            second,
            valid,
            second_report,
            answer,
            second_to.report,
            second_to.core,
        ) && second_succeeds == (answer is Ok);
    publication_keeps_agreement(
        first,
        second,
        valid,
        first_report,
        a,
        first_to.report,
        first_to.core,
        second_report,
        b,
        second_to.report,
        second_to.core,
    );
}

/// What is known of two turns that begin at the same point and both do work.
spec fn turns_alike<P: Payload>(
    arithmetic: Arithmetic<P>,
    boundary: Option<SessionTime>,
    first: Point<P>,
    first_turn: Turn<P>,
    first_to: Point<P>,
    second: Point<P>,
    second_turn: Turn<P>,
    second_to: Point<P>,
) -> bool {
    &&& agree(first, second)
    &&& Move::Turn(first_turn).publishes(first) ==> first.has_room()
    &&& is_turn(arithmetic, boundary, first, first_turn, first_to)
    &&& is_turn(arithmetic, boundary, second, second_turn, second_to)
    &&& same_core(first_turn.begun, second_turn.begun)
    &&& first_turn.begun.history.corrected == first.core.history.corrected
    &&& second_turn.begun.history.corrected == second.core.history.corrected
}

proof fn fusions_keep_agreement<P: Payload>(
    arithmetic: Arithmetic<P>,
    boundary: Option<SessionTime>,
    first: Point<P>,
    first_turn: Turn<P>,
    first_to: Point<P>,
    second: Point<P>,
    second_turn: Turn<P>,
    second_to: Point<P>,
    work: FusionWork<P>,
)
    requires
        turns_alike(
            arithmetic,
            boundary,
            first,
            first_turn,
            first_to,
            second,
            second_turn,
            second_to,
        ),
        first_turn.step.answer == Ok::<DrainAction<P>, LiveCoreError>(DrainAction::Fuse(work)),
        second_turn.step.answer == Ok::<DrainAction<P>, LiveCoreError>(DrainAction::Fuse(work)),
        first_turn.step.report.updates().len() < MEASUREMENT_QUEUE_CAPACITY,
        second_turn.step.report.updates().len() < MEASUREMENT_QUEUE_CAPACITY,
    ensures
        agree(first_to, second_to),
{
    let numbers = (arithmetic.fusion)(first.tasks.push(Task::Fuse(work)));
    let a = choose|answer: Result<GnssUpdateOutcome<P>, LiveCoreError>| #[trigger]
        is_fusion_completed(
            first_turn.begun,
            numbers,
            first_turn.step.report,
            answer,
            first_to.report,
            first_to.core,
        ) && first_turn.succeeds == (answer is Ok);
    let b = choose|answer: Result<GnssUpdateOutcome<P>, LiveCoreError>| #[trigger]
        is_fusion_completed(
            second_turn.begun,
            numbers,
            second_turn.step.report,
            answer,
            second_to.report,
            second_to.core,
        ) && second_turn.succeeds == (answer is Ok);
    fusion_keeps_agreement(
        first_turn.begun,
        second_turn.begun,
        numbers,
        first_turn.step.report,
        a,
        first_to.report,
        first_to.core,
        second_turn.step.report,
        b,
        second_to.report,
        second_to.core,
    );
    trajectories_grow_alike(first, first_to, second, second_to);
}

proof fn finalizations_keep_agreement<P: Payload>(
    arithmetic: Arithmetic<P>,
    boundary: Option<SessionTime>,
    first: Point<P>,
    first_turn: Turn<P>,
    first_to: Point<P>,
    second: Point<P>,
    second_turn: Turn<P>,
    second_to: Point<P>,
    work: FinalizationWork<P>,
)
    requires
        turns_alike(
            arithmetic,
            boundary,
            first,
            first_turn,
            first_to,
            second,
            second_turn,
            second_to,
        ),
        first_turn.step.answer == Ok::<DrainAction<P>, LiveCoreError>(
            DrainAction::Finalize(work),
        ),
        second_turn.step.answer == Ok::<DrainAction<P>, LiveCoreError>(
            DrainAction::Finalize(work),
        ),
        first_turn.begun.work is Finalize,
        first_turn.begun.state.smoothing_lag_ns == first.core.state.smoothing_lag_ns,
        first_turn.begun.history.corrected_quality@ == first.core.history.corrected_quality@,
    ensures
        agree(first_to, second_to),
{
    let numbers = (arithmetic.finalization)(first.tasks.push(Task::Finalize(work)));
    let a = choose|answer: Result<(), LiveCoreError>| #[trigger]
        is_finalization_completed(
            first_turn.begun,
            numbers,
            first_turn.step.report,
            answer,
            first_to.report,
            first_to.core,
        ) && first_turn.succeeds == (answer is Ok);
    let b = choose|answer: Result<(), LiveCoreError>| #[trigger]
        is_finalization_completed(
            second_turn.begun,
            numbers,
            second_turn.step.report,
            answer,
            second_to.report,
            second_to.core,
        ) && second_turn.succeeds == (answer is Ok);
    finalization_keeps_agreement(
        first_turn.begun,
        second_turn.begun,
        numbers,
        first_turn.step.report,
        a,
        first_to.report,
        first_to.core,
        second_turn.step.report,
        b,
        second_to.report,
        second_to.core,
    );
    trajectories_grow_alike(first, first_to, second, second_to);
}

proof fn seedings_keep_agreement<P: Payload>(
    arithmetic: Arithmetic<P>,
    boundary: Option<SessionTime>,
    first: Point<P>,
    first_turn: Turn<P>,
    first_to: Point<P>,
    second: Point<P>,
    second_turn: Turn<P>,
    second_to: Point<P>,
    kinematics: EpochKinematics<P>,
)
    requires
        turns_alike(
            arithmetic,
            boundary,
            first,
            first_turn,
            first_to,
            second,
            second_turn,
            second_to,
        ),
        first_turn.step.answer == Ok::<DrainAction<P>, LiveCoreError>(
            DrainAction::Seed(kinematics),
        ),
        second_turn.step.answer == Ok::<DrainAction<P>, LiveCoreError>(
            DrainAction::Seed(kinematics),
        ),
    ensures
        agree(first_to, second_to),
{
    let error = (arithmetic.seed)(first.tasks.push(Task::Seed(kinematics)));
    let a = choose|answer: Result<bool, LiveCoreError>| #[trigger]
        is_seed_completed(first_turn.begun, error, answer, first_to.core) && first_turn.succeeds
            == (answer is Ok);
    let b = choose|answer: Result<bool, LiveCoreError>| #[trigger]
        is_seed_completed(second_turn.begun, error, answer, second_to.core)
            && second_turn.succeeds == (answer is Ok);
    seed_keeps_agreement(
        first_turn.begun,
        second_turn.begun,
        error,
        a,
        first_to.core,
        b,
        second_to.core,
    );
    trajectories_grow_alike(first, first_to, second, second_to);
}

proof fn propagations_keep_agreement<P: Payload>(
    arithmetic: Arithmetic<P>,
    boundary: Option<SessionTime>,
    first: Point<P>,
    first_turn: Turn<P>,
    first_to: Point<P>,
    second: Point<P>,
    second_turn: Turn<P>,
    second_to: Point<P>,
    plan: PlanModel<P>,
)
    requires
        turns_alike(
            arithmetic,
            boundary,
            first,
            first_turn,
            first_to,
            second,
            second_turn,
            second_to,
        ),
        first_turn.step.answer matches Ok(DrainAction::Propagate(begun)) && begun@ == plan,
        second_turn.step.answer matches Ok(DrainAction::Propagate(begun)) && begun@ == plan,
        first_turn.begun.work is Propagate,
        first_turn.step.credits >= FILTER_PROPAGATION_CREDITS,
        second_turn.step.credits >= FILTER_PROPAGATION_CREDITS,
    ensures
        agree(first_to, second_to),
{
    let tasks = first.tasks.push(Task::Propagate(plan));
    let numbers = (arithmetic.propagation)(tasks);
    let a = choose|answer: Result<Option<EpochKinematics<P>>, LiveCoreError>| #[trigger]
        is_propagating(arithmetic, tasks, answer, first_turn, first_to);
    let b = choose|answer: Result<Option<EpochKinematics<P>>, LiveCoreError>| #[trigger]
        is_propagating(arithmetic, tasks, answer, second_turn, second_to);
    propagation_keeps_agreement(
        first_turn.begun,
        second_turn.begun,
        numbers,
        first_turn.step.credits,
        first_turn.step.report,
        a,
        first_to.credits,
        first_turn.middle_report,
        first_turn.middle,
        second_turn.step.credits,
        second_turn.step.report,
        b,
        second_to.credits,
        second_turn.middle_report,
        second_turn.middle,
    );
    if let Ok(Some(kinematics)) = a {
        let error = (arithmetic.capture)(tasks.push(Task::Capture(kinematics)));
        let c = choose|answer: Result<bool, LiveCoreError>| #[trigger]
            is_capture_completed(
                first_turn.middle,
                error,
                first_turn.middle_report,
                answer,
                first_to.report,
                first_to.core,
            ) && first_turn.succeeds == (answer is Ok);
        let d = choose|answer: Result<bool, LiveCoreError>| #[trigger]
            is_capture_completed(
                second_turn.middle,
                error,
                second_turn.middle_report,
                answer,
                second_to.report,
                second_to.core,
            ) && second_turn.succeeds == (answer is Ok);
        capture_keeps_agreement(
            first_turn.middle,
            second_turn.middle,
            error,
            first_turn.middle_report,
            c,
            first_to.report,
            first_to.core,
            second_turn.middle_report,
            d,
            second_to.report,
            second_to.core,
        );
    }
    trajectories_grow_alike(first, first_to, second, second_to);
}

proof fn smoothings_keep_agreement<P: Payload>(
    arithmetic: Arithmetic<P>,
    boundary: Option<SessionTime>,
    first: Point<P>,
    first_turn: Turn<P>,
    first_to: Point<P>,
    second: Point<P>,
    second_turn: Turn<P>,
    second_to: Point<P>,
    work: SmoothingWork,
)
    requires
        turns_alike(
            arithmetic,
            boundary,
            first,
            first_turn,
            first_to,
            second,
            second_turn,
            second_to,
        ),
        first_turn.step.answer == Ok::<DrainAction<P>, LiveCoreError>(DrainAction::Smooth(work)),
        second_turn.step.answer == Ok::<DrainAction<P>, LiveCoreError>(DrainAction::Smooth(work)),
        first_turn.begun.work is Smooth,
        first_turn.begun.history.corrected_quality@ == first.core.history.corrected_quality@,
    ensures
        agree(first_to, second_to),
{
    let tasks = first.tasks.push(Task::Smooth(work));
    let outcome = (arithmetic.smoothing)(tasks);
    let a = choose|answer: Result<Option<DenseSegment<P>>, LiveCoreError>| #[trigger]
        is_smoothing(arithmetic, tasks, answer, first_turn, first_to);
    let b = choose|answer: Result<Option<DenseSegment<P>>, LiveCoreError>| #[trigger]
        is_smoothing(arithmetic, tasks, answer, second_turn, second_to);
    smoothing_keeps_agreement(
        first_turn.begun,
        second_turn.begun,
        outcome,
        a,
        first_turn.middle,
        b,
        second_turn.middle,
    );
    if let Ok(Some(segment)) = a {
        publishing_keeps_agreement(
            arithmetic,
            tasks,
            segment,
            first_turn.middle,
            first_turn.step.report,
            first_turn.succeeds,
            first_to,
            second_turn.middle,
            second_turn.step.report,
            second_turn.succeeds,
            second_to,
        );
    }
    trajectories_grow_alike(first, first_to, second, second_to);
}

/// Two turns that begin at the same point and both do work end at the same point.
proof fn turns_keep_agreement<P: Payload>(
    arithmetic: Arithmetic<P>,
    boundary: Option<SessionTime>,
    first: Point<P>,
    first_turn: Turn<P>,
    first_to: Point<P>,
    second: Point<P>,
    second_turn: Turn<P>,
    second_to: Point<P>,
)
    requires
        first.wf(),
        second.wf(),
        agree(first, second),
        Move::Turn(first_turn).publishes(first) ==> first.has_room(),
        first.report.updates().len() + first.core.state.queue().len()
            <= MEASUREMENT_QUEUE_CAPACITY,
        second.report.updates().len() + second.core.state.queue().len()
            <= MEASUREMENT_QUEUE_CAPACITY,
        is_turn(arithmetic, boundary, first, first_turn, first_to),
        is_turn(arithmetic, boundary, second, second_turn, second_to),
        Move::Turn(first_turn).is_work(),
        Move::Turn(second_turn).is_work(),
    ensures
        agree(first_to, second_to),
{
    first.core.wf_is_settled();
    second.core.wf_is_settled();
    first.core.history.smoothing.wf_facts();
    taking_never_changes_what_is_due(first.core, second.core, boundary);
    step_keeps_agreement(
        first.core,
        second.core,
        boundary,
        first.credits,
        first.report,
        first_turn.step,
        first_turn.begun,
        second.credits,
        second.report,
        second_turn.step,
        second_turn.begun,
    );
    match first_turn.step.answer->Ok_0 {
        DrainAction::Fuse(work) => {
            fusions_keep_agreement(
                arithmetic,
                boundary,
                first,
                first_turn,
                first_to,
                second,
                second_turn,
                second_to,
                work,
            );
        },
        DrainAction::Finalize(work) => {
            finalizations_keep_agreement(
                arithmetic,
                boundary,
                first,
                first_turn,
                first_to,
                second,
                second_turn,
                second_to,
                work,
            );
        },
        DrainAction::Seed(kinematics) => {
            seedings_keep_agreement(
                arithmetic,
                boundary,
                first,
                first_turn,
                first_to,
                second,
                second_turn,
                second_to,
                kinematics,
            );
        },
        DrainAction::Propagate(plan) => {
            propagations_keep_agreement(
                arithmetic,
                boundary,
                first,
                first_turn,
                first_to,
                second,
                second_turn,
                second_to,
                plan@,
            );
        },
        DrainAction::Smooth(work) => {
            smoothings_keep_agreement(
                arithmetic,
                boundary,
                first,
                first_turn,
                first_to,
                second,
                second_turn,
                second_to,
                work,
            );
        },
        DrainAction::Publish(segment) => {
            publishing_keeps_agreement(
                arithmetic,
                first.tasks,
                segment,
                first_turn.begun,
                first_turn.step.report,
                first_turn.succeeds,
                first_to,
                second_turn.begun,
                second_turn.step.report,
                second_turn.succeeds,
                second_to,
            );
            trajectories_grow_alike(first, first_to, second, second_to);
        },
        _ => {
            trajectories_grow_alike(first, first_to, second, second_to);
        },
    }
}

/// What a run has come to depends on how often it did work, and on nothing else:
/// not on how the credits were divided among calls, and not on when published
/// segments were taken.
pub proof fn amount_of_work_decides<P: Payload>(
    arithmetic: Arithmetic<P>,
    boundary: Option<SessionTime>,
    first: Run<P>,
    i: int,
    second: Run<P>,
    j: int,
)
    requires
        first.valid(arithmetic, boundary),
        second.valid(arithmetic, boundary),
        first.has_room(),
        agree(first.start(), second.start()),
        0 <= i < first.points.len(),
        0 <= j < second.points.len(),
        first.work_done(i) == second.work_done(j),
    ensures
        agree(first.points[i], second.points[j]),
    decreases i + j,
{
    if i > 0 && !first.moves[i - 1].is_work() {
        amount_of_work_decides(arithmetic, boundary, first, i - 1, second, j);
        idle_move_changes_nothing(
            arithmetic,
            boundary,
            first.points[i - 1],
            first.moves[i - 1],
            first.points[i],
        );
    } else if j > 0 && !second.moves[j - 1].is_work() {
        amount_of_work_decides(arithmetic, boundary, first, i, second, j - 1);
        idle_move_changes_nothing(
            arithmetic,
            boundary,
            second.points[j - 1],
            second.moves[j - 1],
            second.points[j],
        );
    } else if i > 0 && j > 0 {
        amount_of_work_decides(arithmetic, boundary, first, i - 1, second, j - 1);
        report_has_room(first, arithmetic, boundary, i - 1);
        report_has_room(second, arithmetic, boundary, j - 1);
        turns_keep_agreement(
            arithmetic,
            boundary,
            first.points[i - 1],
            first.moves[i - 1]->Turn_0,
            first.points[i],
            second.points[j - 1],
            second.moves[j - 1]->Turn_0,
            second.points[j],
        );
    }
}

/// The point at which a run does work for the next time after `amount` times.
proof fn point_of_next_work<P: Payload>(run: Run<P>, count: int, amount: nat) -> (i: int)
    requires
        0 <= count,
        run.work_done(count) > amount,
    ensures
        0 <= i < count,
        run.work_done(i) == amount,
        run.moves[i].is_work(),
    decreases count,
{
    if run.moves[count - 1].is_work() && run.work_done(count - 1) == amount {
        count - 1
    } else {
        point_of_next_work(run, count - 1, amount)
    }
}

/// A core at rest does no work, and neither does one at the same point.
proof fn rest_is_shared<P: Payload>(
    arithmetic: Arithmetic<P>,
    boundary: Option<SessionTime>,
    resting: Point<P>,
    from: Point<P>,
    chosen: Move<P>,
    to: Point<P>,
)
    requires
        agree(resting, from),
        resting.at_rest(boundary),
        is_move(arithmetic, boundary, from, chosen, to),
    ensures
        !chosen.is_work(),
{
    taking_never_changes_what_is_due(resting.core, from.core, boundary);
}

/// How the credits are divided among calls, and when published segments are
/// taken, never changes the trajectory: two runs from the same point that both
/// come to rest have done the same work, published the same segments and left the
/// core at the same point.
pub proof fn quota_partition_never_changes_the_trajectory<P: Payload>(
    arithmetic: Arithmetic<P>,
    boundary: Option<SessionTime>,
    first: Run<P>,
    second: Run<P>,
)
    requires
        first.valid(arithmetic, boundary),
        second.valid(arithmetic, boundary),
        first.has_room(),
        agree(first.start(), second.start()),
        first.end().at_rest(boundary),
        second.end().at_rest(boundary),
    ensures
        first.work_done(first.moves.len() as int) == second.work_done(second.moves.len() as int),
        agree(first.end(), second.end()),
        first.end().trajectory() == second.end().trajectory(),
        first.end().core.state.filter == second.end().core.state.filter,
        first.end().core.state.filter_values == second.end().core.state.filter_values,
{
    let m = first.moves.len() as int;
    let n = second.moves.len() as int;
    if first.work_done(m) < second.work_done(n) {
        let j = point_of_next_work(second, n, first.work_done(m));
        amount_of_work_decides(arithmetic, boundary, first, m, second, j);
        rest_is_shared(
            arithmetic,
            boundary,
            first.end(),
            second.points[j],
            second.moves[j],
            second.points[j + 1],
        );
    } else if first.work_done(m) > second.work_done(n) {
        let i = point_of_next_work(first, m, second.work_done(n));
        amount_of_work_decides(arithmetic, boundary, first, i, second, n);
        rest_is_shared(
            arithmetic,
            boundary,
            second.end(),
            first.points[i],
            first.moves[i],
            first.points[i + 1],
        );
    }
    amount_of_work_decides(arithmetic, boundary, first, m, second, n);
}

/// Whether `to` is where a run stands after the end of the input.
pub open spec fn is_ended<P: Payload>(
    from: Point<P>,
    open: Option<OpenBatch<P>>,
    to: Point<P>,
) -> bool {
    &&& is_finished(from.core.state, from.core.history, open, to.core)
    &&& to.tasks == from.tasks
    &&& to.taken == from.taken
}

/// Nor does it change a session that is drained, ended and drained to its end:
/// the whole published trajectory and the final state are the same.
pub proof fn quota_partition_never_changes_the_session<P: Payload>(
    arithmetic: Arithmetic<P>,
    boundary: Option<SessionTime>,
    first: Run<P>,
    second: Run<P>,
    open: Option<OpenBatch<P>>,
    first_tail: Run<P>,
    second_tail: Run<P>,
)
    requires
        first.valid(arithmetic, boundary),
        second.valid(arithmetic, boundary),
        first.has_room(),
        agree(first.start(), second.start()),
        first.end().at_rest(boundary),
        second.end().at_rest(boundary),
        is_ended(first.end(), open, first_tail.start()),
        is_ended(second.end(), open, second_tail.start()),
        first_tail.valid(arithmetic, boundary),
        second_tail.valid(arithmetic, boundary),
        first_tail.has_room(),
        first_tail.end().at_rest(boundary),
        second_tail.end().at_rest(boundary),
    ensures
        agree(first_tail.end(), second_tail.end()),
        first_tail.end().trajectory() == second_tail.end().trajectory(),
        first_tail.end().core.state.filter == second_tail.end().core.state.filter,
        first_tail.end().core.state.filter_values == second_tail.end().core.state.filter_values,
{
    quota_partition_never_changes_the_trajectory(arithmetic, boundary, first, second);
    finishing_keeps_agreement(
        first.end().core,
        second.end().core,
        open,
        first_tail.start().core,
        second_tail.start().core,
    );
    quota_partition_never_changes_the_trajectory(arithmetic, boundary, first_tail, second_tail);
}

/// Whether less is left to do at `to` than at `from`.
spec fn advances<P: Payload>(from: LiveCore<P>, to: LiveCore<P>) -> bool {
    backlog(to.state, to.history) < backlog(from.state, from.history)
}

proof fn falling_advances<P: Payload>(from: LiveCore<P>, to: LiveCore<P>)
    requires
        from.settled(),
        to.settled(),
        backlog_falls(from.state, from.history, to.state, to.history),
    ensures
        advances(from, to),
{
    backlog_is_a_number(from.state, from.history, to.state, to.history);
}

proof fn publishing_advances<P: Payload>(
    arithmetic: Arithmetic<P>,
    tasks: Seq<Task<P>>,
    segment: DenseSegment<P>,
    core: LiveCore<P>,
    report: DrainReport<P>,
    to: Point<P>,
)
    requires
        core.wf(),
        core.work is Publish,
        to.wf(),
        is_publishing(arithmetic, tasks, segment, core, report, true, to),
    ensures
        advances(core, to.core),
{
    core.wf_is_settled();
    to.core.wf_is_settled();
    publication_makes_progress(core.state, core.history, to.core.history);
    falling_advances(core, to.core);
}

proof fn propagating_advances<P: Payload>(
    arithmetic: Arithmetic<P>,
    boundary: Option<SessionTime>,
    from: Point<P>,
    turn: Turn<P>,
    to: Point<P>,
)
    requires
        from.wf(),
        is_turn(arithmetic, boundary, from, turn, to),
        turn.step.answer matches Ok(DrainAction::Propagate(_)),
        turn.succeeds,
    ensures
        advances(from.core, to.core),
{
    from.core.wf_is_settled();
    turn.begun.wf_is_settled();
    turn.middle.wf_is_settled();
    let plan = turn.step.answer->Ok_0->Propagate_0;
    let tasks = from.tasks.push(Task::Propagate(plan@));
    let numbers = (arithmetic.propagation)(tasks);
    let answer = choose|answer: Result<Option<EpochKinematics<P>>, LiveCoreError>| #[trigger]
        is_propagating(arithmetic, tasks, answer, turn, to);
    assert(turn.begun.work == Work::Propagate(plan));
    assert(answer is Ok);
    propagation_makes_progress(
        turn.begun.state,
        turn.begun.history,
        plan,
        numbers,
        turn.middle.state,
        turn.middle.history,
    );
    falling_advances(turn.begun, turn.middle);
}

proof fn smoothing_advances<P: Payload>(
    arithmetic: Arithmetic<P>,
    boundary: Option<SessionTime>,
    from: Point<P>,
    turn: Turn<P>,
    to: Point<P>,
)
    requires
        from.wf(),
        is_turn(arithmetic, boundary, from, turn, to),
        turn.step.answer matches Ok(DrainAction::Smooth(_)),
        turn.succeeds,
    ensures
        advances(from.core, to.core),
{
    from.core.wf_is_settled();
    turn.begun.wf_is_settled();
    turn.middle.wf_is_settled();
    from.core.history.smoothing.wf_facts();
    let work = turn.step.answer->Ok_0->Smooth_0;
    let tasks = from.tasks.push(Task::Smooth(work));
    let outcome = (arithmetic.smoothing)(tasks);
    let answer = choose|answer: Result<Option<DenseSegment<P>>, LiveCoreError>| #[trigger]
        is_smoothing(arithmetic, tasks, answer, turn, to);
    assert(turn.begun.work is Smooth);
    assert(answer is Ok);
    assert(backlog(turn.begun.state, turn.begun.history) <= backlog(
        from.core.state,
        from.core.history,
    ));
    smoothing_makes_progress(
        turn.begun.state,
        turn.begun.history,
        outcome->Ok_0,
        turn.middle.history,
    );
    falling_advances(turn.begun, turn.middle);
    if let Ok(Some(segment)) = answer {
        publishing_advances(arithmetic, tasks, segment, turn.middle, turn.step.report, to);
    }
}

/// Every turn that does work without an error leaves less to do.
pub proof fn work_lowers_the_backlog<P: Payload>(
    arithmetic: Arithmetic<P>,
    boundary: Option<SessionTime>,
    from: Point<P>,
    turn: Turn<P>,
    to: Point<P>,
)
    requires
        from.wf(),
        is_turn(arithmetic, boundary, from, turn, to),
        Move::Turn(turn).is_work(),
        turn.succeeds,
    ensures
        backlog(to.core.state, to.core.history) < backlog(from.core.state, from.core.history),
{
    from.core.wf_is_settled();
    turn.begun.wf_is_settled();
    to.core.wf_is_settled();
    from.core.history.smoothing.wf_facts();
    decision_never_contradicts(from.core.state, from.core.history, boundary);
    let state = from.core.state;
    let history = from.core.history;
    match turn.step.answer->Ok_0 {
        DrainAction::Fuse(work) => {
            let numbers = (arithmetic.fusion)(from.tasks.push(Task::Fuse(work)));
            let answer = choose|answer: Result<GnssUpdateOutcome<P>, LiveCoreError>| #[trigger]
                is_fusion_completed(
                    turn.begun,
                    numbers,
                    turn.step.report,
                    answer,
                    to.report,
                    to.core,
                ) && turn.succeeds == (answer is Ok);
            fusion_makes_progress(state, history, work, numbers, answer->Ok_0, to.core);
            falling_advances(from.core, to.core);
        },
        DrainAction::Finalize(work) => {
            let numbers = (arithmetic.finalization)(from.tasks.push(Task::Finalize(work)));
            finalization_makes_progress(
                state,
                history,
                work.segment,
                finalization_verdict(state, work, numbers)->Ok_0,
                to.core,
            );
            falling_advances(from.core, to.core);
        },
        DrainAction::Seed(kinematics) => {
            seeding_makes_progress(state, history, kinematics, to.core.history);
            falling_advances(from.core, to.core);
        },
        DrainAction::Propagate(_) => {
            propagating_advances(arithmetic, boundary, from, turn, to);
        },
        DrainAction::Smooth(_) => {
            smoothing_advances(arithmetic, boundary, from, turn, to);
        },
        DrainAction::Publish(segment) => {
            publishing_advances(
                arithmetic,
                from.tasks,
                segment,
                turn.begun,
                turn.step.report,
                to,
            );
        },
        _ => {
            first_commit_makes_progress(from.core.with_work(Work::Idle), to.core);
            falling_advances(from.core, to.core);
        },
    }
}

/// The price of one backward step is enough for any single piece of work: a turn
/// with as many credits does work, unless there is nothing to do, published
/// segments have to be taken first, or an error comes back.
pub proof fn sufficient_credits_always_work<P: Payload>(
    arithmetic: Arithmetic<P>,
    boundary: Option<SessionTime>,
    from: Point<P>,
    turn: Turn<P>,
    to: Point<P>,
)
    requires
        from.wf(),
        is_turn(arithmetic, boundary, from, turn, to),
        from.credits >= RTS_STEP_CREDITS,
        !from.at_rest(boundary),
        !from.is_held_up(boundary),
        turn.step.answer is Ok,
    ensures
        Move::Turn(turn).is_work(),
{
    if let Ok(DrainDecision::Propagate(stop)) = decision(
        from.core.state,
        from.core.history,
        boundary,
    ) {
        planning_is_never_starved(from.core.state, from.core.history, stop, from.credits);
    }
}

/// Draining ends: no run without errors does work more often than its backlog
/// counts at the start.
pub proof fn work_is_bounded<P: Payload>(
    arithmetic: Arithmetic<P>,
    boundary: Option<SessionTime>,
    run: Run<P>,
    i: int,
)
    requires
        run.valid(arithmetic, boundary),
        run.succeeds(),
        0 <= i < run.points.len(),
    ensures
        run.work_done(i) + backlog(run.points[i].core.state, run.points[i].core.history) <= backlog(
            run.start().core.state,
            run.start().core.history,
        ),
        backlog(run.points[i].core.state, run.points[i].core.history) >= 0,
    decreases i,
{
    report_has_room(run, arithmetic, boundary, i);
    let to = run.points[i];
    to.core.wf_is_settled();
    backlog_is_a_number(to.core.state, to.core.history, to.core.state, to.core.history);
    if i > 0 {
        work_is_bounded(arithmetic, boundary, run, i - 1);
        report_has_room(run, arithmetic, boundary, i - 1);
        let from = run.points[i - 1];
        let chosen = run.moves[i - 1];
        assert(is_move(arithmetic, boundary, from, chosen, to));
        if chosen.is_work() {
            work_lowers_the_backlog(arithmetic, boundary, from, chosen->Turn_0, to);
        } else {
            idle_move_changes_nothing(arithmetic, boundary, from, chosen, to);
        }
    }
}

/// Small quotas finish too: calls that each have the credits of one backward step
/// come to rest after no more calls than the backlog counts at the start, as long
/// as no error comes back and published segments are taken in time.
pub proof fn small_quotas_still_finish<P: Payload>(
    arithmetic: Arithmetic<P>,
    boundary: Option<SessionTime>,
    run: Run<P>,
)
    requires
        run.valid(arithmetic, boundary),
        run.succeeds(),
        run.is_nourished(boundary),
    ensures
        run.calls(run.moves.len() as int) <= backlog(
            run.start().core.state,
            run.start().core.history,
        ),
{
    let count = run.moves.len() as int;
    every_call_works(arithmetic, boundary, run, count);
    work_is_bounded(arithmetic, boundary, run, count);
}

proof fn every_call_works<P: Payload>(
    arithmetic: Arithmetic<P>,
    boundary: Option<SessionTime>,
    run: Run<P>,
    count: int,
)
    requires
        run.valid(arithmetic, boundary),
        run.succeeds(),
        run.is_nourished(boundary),
        0 <= count <= run.moves.len(),
    ensures
        run.calls(count) <= run.work_done(count) + flag(count > 0 && run.moves[count - 1] is Call),
    decreases count,
{
    if count > 0 {
        every_call_works(arithmetic, boundary, run, count - 1);
        let chosen = run.moves[count - 1];
        let from = run.points[count - 1];
        assert(is_move(arithmetic, boundary, from, chosen, run.points[count]));
        if count > 1 && run.moves[count - 2] is Call {
            let call = run.moves[count - 2];
            report_has_room(run, arithmetic, boundary, count - 1);
            assert(is_move(arithmetic, boundary, run.points[count - 2], call, from));
            assert(chosen is Turn);
            sufficient_credits_always_work(
                arithmetic,
                boundary,
                from,
                chosen->Turn_0,
                run.points[count],
            );
        }
    }
}

/// Whether every segment begins with the very endpoint, values included, at which
/// the one before it ends.
pub open spec fn joined<P: Payload>(segments: Seq<DenseSegment<P>>) -> bool {
    forall|i: int, j: int|
        #![trigger segments[i], segments[j]]
        0 <= i && j == i + 1 && j < segments.len() ==> segments[i].end == segments[j].start
}

impl<P: Payload> Point<P> {
    /// The endpoint with which the next published segment has to begin.
    pub open spec fn boundary_endpoint(self) -> Option<DenseEndpoint<P>> {
        if self.core.state.smoothing_lag_ns == 0 {
            Some(self.core.state.corrected_endpoint)
        } else {
            self.core.history.smoothing@.frozen_start
        }
    }

    /// Whether the published trajectory is joined up to the endpoint with which
    /// it goes on. Nothing is published before the first commit.
    pub open spec fn is_joined(self) -> bool {
        let trajectory = self.trajectory();
        &&& joined(trajectory)
        &&& trajectory.len() > 0 ==> {
            &&& self.boundary_endpoint() == Some(trajectory.last().end)
            &&& self.core.state.frontier() is Some
        }
    }
}

/// Publishing a segment that begins where the trajectory goes on keeps it joined.
proof fn appending_keeps_joined<P: Payload>(from: Point<P>, segment: DenseSegment<P>, to: Point<P>)
    requires
        from.is_joined(),
        from.trajectory().len() > 0 ==> from.boundary_endpoint() == Some(segment.start),
        to.taken == from.taken,
        to.core.history.corrected@ == from.core.history.corrected@.push(segment),
        to.boundary_endpoint() == Some(segment.end),
        to.core.state.frontier() is Some,
    ensures
        to.is_joined(),
{
    let before = from.trajectory();
    let after = to.trajectory();
    assert(after =~= before.push(segment));
    assert forall|i: int, j: int|
        #![trigger after[i], after[j]]
        0 <= i && j == i + 1 && j < after.len() implies after[i].end == after[j].start by {
        if j < before.len() {
            assert(before[i].end == before[j].start);
        }
    }
}

/// What publishes nothing leaves the trajectory as it was.
spec fn publishes_nothing<P: Payload>(from: LiveCore<P>, to: LiveCore<P>) -> bool {
    &&& to.history.corrected@ == from.history.corrected@
    &&& to.history.smoothing@.frozen_start == from.history.smoothing@.frozen_start
    &&& to.state.corrected_endpoint == from.state.corrected_endpoint || to.state.smoothing_lag_ns
        != 0
    &&& to.state.smoothing_lag_ns == from.state.smoothing_lag_ns
    &&& from.state.frontier() is Some ==> to.state.frontier() is Some
}

proof fn publishing_keeps_joined<P: Payload>(
    arithmetic: Arithmetic<P>,
    tasks: Seq<Task<P>>,
    segment: DenseSegment<P>,
    from: Point<P>,
    core: LiveCore<P>,
    report: DrainReport<P>,
    to: Point<P>,
)
    requires
        from.is_joined(),
        publishes_nothing(from.core, core),
        core.wf(),
        core.work is Publish,
        to.taken == from.taken,
        is_publishing(arithmetic, tasks, segment, core, report, true, to),
    ensures
        to.is_joined(),
{
    core.wf_is_settled();
    appending_keeps_joined(from, core.history.smoothing@.publication(), to);
}

proof fn turn_keeps_joined<P: Payload>(
    arithmetic: Arithmetic<P>,
    boundary: Option<SessionTime>,
    from: Point<P>,
    turn: Turn<P>,
    to: Point<P>,
)
    requires
        from.wf(),
        from.is_joined(),
        is_turn(arithmetic, boundary, from, turn, to),
        turn.succeeds,
    ensures
        to.is_joined(),
{
    from.core.wf_is_settled();
    turn.begun.wf_is_settled();
    match turn.step.answer {
        Ok(DrainAction::Finalize(work)) => {
            if from.core.state.smoothing_lag_ns == 0 {
                appending_keeps_joined(from, work.segment, to);
            } else {
                assert(publishes_nothing(from.core, to.core));
            }
        },
        Ok(DrainAction::Propagate(plan)) => {
            let tasks = from.tasks.push(Task::Propagate(plan@));
            let answer = choose|
                answer: Result<Option<EpochKinematics<P>>, LiveCoreError>,
            | #[trigger]
                is_propagating(arithmetic, tasks, answer, turn, to);
            assert(publishes_nothing(from.core, turn.middle));
            assert(publishes_nothing(from.core, to.core));
        },
        Ok(DrainAction::Smooth(work)) => {
            let tasks = from.tasks.push(Task::Smooth(work));
            let answer = choose|answer: Result<Option<DenseSegment<P>>, LiveCoreError>| #[trigger]
                is_smoothing(arithmetic, tasks, answer, turn, to);
            assert(publishes_nothing(from.core, turn.begun));
            assert(publishes_nothing(from.core, turn.middle));
            if let Ok(Some(segment)) = answer {
                publishing_keeps_joined(
                    arithmetic,
                    tasks,
                    segment,
                    from,
                    turn.middle,
                    turn.step.report,
                    to,
                );
            }
        },
        Ok(DrainAction::Publish(segment)) => {
            publishing_keeps_joined(
                arithmetic,
                from.tasks,
                segment,
                from,
                turn.begun,
                turn.step.report,
                to,
            );
        },
        Ok(DrainAction::Continue) => {
            assert(from.core.state.frontier() is None);
            assert(to.trajectory() == from.trajectory());
        },
        _ => {
            assert(publishes_nothing(from.core, to.core));
        },
    }
}

/// Published segments join end to end, values included, whatever the credits were
/// and whenever segments were taken: a run without errors that starts with a
/// joined trajectory ends with one.
pub proof fn published_segments_join<P: Payload>(
    arithmetic: Arithmetic<P>,
    boundary: Option<SessionTime>,
    run: Run<P>,
    i: int,
)
    requires
        run.valid(arithmetic, boundary),
        run.succeeds(),
        run.start().is_joined(),
        0 <= i < run.points.len(),
    ensures
        run.points[i].is_joined(),
        joined(run.points[i].trajectory()),
    decreases i,
{
    if i > 0 {
        published_segments_join(arithmetic, boundary, run, i - 1);
        report_has_room(run, arithmetic, boundary, i - 1);
        let from = run.points[i - 1];
        let to = run.points[i];
        let chosen = run.moves[i - 1];
        assert(is_move(arithmetic, boundary, from, chosen, to));
        match chosen {
            Move::Turn(turn) => {
                turn_keeps_joined(arithmetic, boundary, from, turn, to);
            },
            _ => {
                idle_move_changes_nothing(arithmetic, boundary, from, chosen, to);
            },
        }
    }
}

/// The end of the input leaves a joined trajectory joined, so that what is
/// published afterwards joins it too.
pub proof fn ending_keeps_segments_joined<P: Payload>(
    from: Point<P>,
    open: Option<OpenBatch<P>>,
    to: Point<P>,
)
    requires
        from.is_joined(),
        is_ended(from, open, to),
    ensures
        to.is_joined(),
{
    assert(to.trajectory() == from.trajectory());
}

} // verus!
