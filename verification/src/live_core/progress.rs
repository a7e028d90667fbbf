//! Why draining ends: every completed piece of work lowers the backlog.
use vstd::prelude::*;

use crate::capacity::MEASUREMENT_QUEUE_CAPACITY;
use crate::dense_history::DenseSegment;
use crate::gnss::GnssUpdateOutcome;
use crate::live_core::finalization::{is_finalized, PredictorCorrection};
use crate::live_core::frontier::{fusion_ok, is_first_commit, seed_ok};
use crate::live_core::fusion::{is_fused, FusionNumbers};
use crate::live_core::laws::evidence_is_not_behind;
use crate::live_core::propagation::{is_propagated, propagation_ok, PropagationNumbers};
use crate::live_core::smoothing::{is_seeded, smoothed};
use crate::live_core::state::{LiveCore, LiveCoreHistory, LiveCoreState};
use crate::live_core::state::settled;
use crate::live_core::work::{EpochKinematics, FilterValues, FusionWork, PropagationPlan};
use crate::payload::Payload;
use crate::rts_window::{RtsWindowModel, RTS_NODE_CAPACITY};

verus! {

/// Evidence that the filter has not followed yet, in nanoseconds.
pub open spec fn time_left<P: Payload>(state: LiveCoreState<P>) -> int {
    state.evidence_end().ns - state.filter.time.ns
}

/// Backward steps until the running or the next pass is complete.
pub open spec fn steps_left<P: Payload>(window: RtsWindowModel<P>) -> int {
    if !window.dirty {
        0
    } else {
        match window.cursor {
            Some(offset) => offset + 1,
            None => window.nodes.len() as int + 1,
        }
    }
}

pub open spec fn flag(holds: bool) -> int {
    if holds {
        1
    } else {
        0
    }
}

/// Whether less is left to do afterwards. What counts first is time, then
/// queued observations, the first commit, the pending segment, the window that
/// has not begun, unpublished nodes, and backward steps.
pub open spec fn backlog_falls<P: Payload>(
    state: LiveCoreState<P>,
    history: LiveCoreHistory<P>,
    after_state: LiveCoreState<P>,
    after_history: LiveCoreHistory<P>,
) -> bool {
    decreases_to!(
        time_left(state),
        state.queue().len(),
        flag(state.frontier() is None),
        flag(state.pending_corrected_segment is Some),
        flag(history.smoothing@.nodes.len() == 0),
        history.smoothing@.nodes.len(),
        steps_left(history.smoothing@)
        =>
        time_left(after_state),
        after_state.queue().len(),
        flag(after_state.frontier() is None),
        flag(after_state.pending_corrected_segment is Some),
        flag(after_history.smoothing@.nodes.len() == 0),
        after_history.smoothing@.nodes.len(),
        steps_left(after_history.smoothing@)
    )
}

/// How much is left to do, as one number.
pub open spec fn backlog<P: Payload>(state: LiveCoreState<P>, history: LiveCoreHistory<P>) -> int {
    let window = history.smoothing@;
    let observations = time_left(state) * (MEASUREMENT_QUEUE_CAPACITY + 1) + state.queue().len();
    let commits = observations * 2 + flag(state.frontier() is None);
    let segments = commits * 2 + flag(state.pending_corrected_segment is Some);
    let windows = segments * 2 + flag(window.nodes.len() == 0);
    let nodes = windows * (RTS_NODE_CAPACITY + 1) + window.nodes.len();
    nodes * (RTS_NODE_CAPACITY + 2) + steps_left(window)
}

/// The backlog is never negative, and a backlog that falls is a smaller number.
pub proof fn backlog_is_a_number<P: Payload>(
    state: LiveCoreState<P>,
    history: LiveCoreHistory<P>,
    after_state: LiveCoreState<P>,
    after_history: LiveCoreHistory<P>,
)
    requires
        settled(state, history),
        settled(after_state, after_history),
    ensures
        backlog(state, history) >= 0,
        backlog_falls(state, history, after_state, after_history) ==> backlog(
            after_state,
            after_history,
        ) < backlog(state, history),
{
    parts_are_bounded(state, history);
    parts_are_bounded(after_state, after_history);
}

proof fn parts_are_bounded<P: Payload>(state: LiveCoreState<P>, history: LiveCoreHistory<P>)
    requires
        settled(state, history),
    ensures
        0 <= time_left(state),
        state.queue().len() <= MEASUREMENT_QUEUE_CAPACITY,
        history.smoothing@.nodes.len() <= RTS_NODE_CAPACITY,
        0 <= steps_left(history.smoothing@) <= RTS_NODE_CAPACITY + 1,
{
    state.scheduler.wf_facts();
    history.smoothing.wf_facts();
    evidence_is_not_behind(state, history);
}

/// A fusion leaves one observation less.
pub proof fn fusion_makes_progress<P: Payload>(
    state: LiveCoreState<P>,
    history: LiveCoreHistory<P>,
    work: FusionWork<P>,
    numbers: FusionNumbers<P>,
    outcome: GnssUpdateOutcome<P>,
    after: LiveCore<P>,
)
    requires
        settled(state, history),
        fusion_ok(state, work),
        is_fused(state, history, work, numbers, outcome, after),
    ensures
        backlog_falls(state, history, after.state, after.history),
{
    assert(time_left(after.state) == time_left(state));
    assert(after.state.queue().len() == state.queue().len() - 1);
}

/// The first commit happens once.
pub proof fn first_commit_makes_progress<P: Payload>(before: LiveCore<P>, after: LiveCore<P>)
    requires
        before.state.frontier() is None,
        is_first_commit(before, after),
    ensures
        backlog_falls(before.state, before.history, after.state, after.history),
{
    assert(time_left(after.state) == time_left(before.state));
    assert(after.state.queue() == before.state.queue());
}

/// A finalization leaves nothing pending.
pub proof fn finalization_makes_progress<P: Payload>(
    state: LiveCoreState<P>,
    history: LiveCoreHistory<P>,
    segment: DenseSegment<P>,
    correction: PredictorCorrection<P>,
    after: LiveCore<P>,
)
    requires
        settled(state, history),
        state.pending_corrected_segment is Some,
        is_finalized(state, history, segment, correction, after),
    ensures
        backlog_falls(state, history, after.state, after.history),
{
    assert(time_left(after.state) == time_left(state));
    assert(after.state.queue() == state.queue());
}

/// A window begins once.
pub proof fn seeding_makes_progress<P: Payload>(
    state: LiveCoreState<P>,
    history: LiveCoreHistory<P>,
    kinematics: EpochKinematics<P>,
    after: LiveCoreHistory<P>,
)
    requires
        seed_ok(state, history, kinematics),
        is_seeded(state, history, kinematics.sample, after),
    ensures
        backlog_falls(state, history, state, after),
{
    assert(after.smoothing@.nodes.len() == 1);
}

/// A propagation leaves less time.
pub proof fn propagation_makes_progress<P: Payload>(
    state: LiveCoreState<P>,
    history: LiveCoreHistory<P>,
    plan: PropagationPlan<P>,
    numbers: PropagationNumbers<P>,
    after_state: LiveCoreState<P>,
    after_history: LiveCoreHistory<P>,
)
    requires
        settled(state, history),
        propagation_ok(state, history, plan),
        is_propagated(state, history, plan, numbers, after_state, after_history),
    ensures
        backlog_falls(state, history, after_state, after_history),
{
    state.scheduler.wf_facts();
    assert(after_state.filter.time == plan.stop);
    assert(after_state.evidence_end() == state.evidence_end());
    assert(time_left(after_state) < time_left(state));
    assert(0 <= time_left(after_state));
}

/// A backward step leaves fewer of them.
pub proof fn smoothing_makes_progress<P: Payload>(
    state: LiveCoreState<P>,
    history: LiveCoreHistory<P>,
    values: FilterValues<P>,
    after: LiveCoreHistory<P>,
)
    requires
        history.smoothing.wf(),
        history.smoothing@.cursor is Some,
        after.smoothing@ == smoothed(history.smoothing@, values),
    ensures
        backlog_falls(state, history, state, after),
{
    history.smoothing.wf_facts();
}

/// A publication leaves fewer nodes.
pub proof fn publication_makes_progress<P: Payload>(
    state: LiveCoreState<P>,
    history: LiveCoreHistory<P>,
    after: LiveCoreHistory<P>,
)
    requires
        history.smoothing@.nodes.len() >= 2,
        after.smoothing@ == history.smoothing@.published(),
    ensures
        backlog_falls(state, history, state, after),
{
}

} // verus!
