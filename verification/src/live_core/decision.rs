//! What is due next at the corrected frontier. The answer depends on the state
//! alone, never on the credits at hand.
use vstd::prelude::*;

use crate::capacity::DENSE_HISTORY_CAPACITY;
use crate::error::LiveCoreError;
use crate::live_core::state::{LiveCore, LiveCoreHistory, LiveCoreState};
use crate::live_core::state::settled;
use crate::payload::Payload;
use crate::scheduler::SchedulerError;
use crate::time::SessionTime;

verus! {

#[derive(Clone, Copy, Debug, PartialEq, Eq, Structural)]
pub enum DrainDecision {
    /// Nothing can be done before more evidence arrives.
    Await,
    /// Everything through the terminal instant is done.
    Finished,
    /// Published segments have to be taken first.
    CorrectedFull,
    Fuse,
    Finalize,
    Smooth,
    CommitFrontier,
    Propagate(SessionTime),
}

impl<P: Payload> LiveCoreState<P> {
    /// The time of the earliest observation, if it may be fused at `target`.
    pub open spec fn due(self, target: SessionTime) -> Option<SessionTime> {
        if self.queue().len() > 0 && self.queue()[0].key.time.ns <= target.ns {
            Some(self.queue()[0].key.time)
        } else {
            None
        }
    }

    /// Where the next propagation ends: at the deadline, at an observation, or
    /// at an exact limit, whichever is first and within the limit.
    pub open spec fn propagation_stop(
        self,
        target: SessionTime,
        limit: SessionTime,
        exact: bool,
    ) -> Result<Option<SessionTime>, LiveCoreError> {
        let now = self.filter.time;
        let deadline = self.next_corrected_deadline;
        let due = self.due(target);
        let observed = if due is Some && due->0.ns < deadline.ns {
            due->0
        } else {
            deadline
        };
        let stop = if exact && limit.ns < observed.ns {
            limit
        } else {
            observed
        };
        if limit.ns <= now.ns {
            Ok(None)
        } else if stop.ns <= now.ns {
            Err(LiveCoreError::InternalInvariant)
        } else if stop.ns > limit.ns {
            Ok(None)
        } else {
            Ok(Some(stop))
        }
    }
}

/// Whether every observation and every epoch through the end has been
/// processed and published.
pub open spec fn drained<P: Payload>(
    state: LiveCoreState<P>,
    history: LiveCoreHistory<P>,
) -> bool {
    &&& state.scheduler@.finishing
    &&& state.pending_corrected_segment is None
    &&& state.scheduler@.target() is Ok
    &&& state.filter.time == state.scheduler@.target()->Ok_0
    &&& state.due(state.scheduler@.target()->Ok_0) is None
    &&& history.smoothing@.nodes.len() <= 1
}

/// The earlier of the target and an optional boundary.
pub open spec fn limit_of(target: SessionTime, boundary: Option<SessionTime>) -> SessionTime {
    if boundary is Some && boundary->0.ns < target.ns {
        boundary->0
    } else {
        target
    }
}

pub open spec fn boundary_reachable(target: SessionTime, boundary: Option<SessionTime>) -> bool {
    boundary is Some && boundary->0.ns <= target.ns
}

/// Whether the smoothing window has to be emptied: at an exact boundary and at
/// the end.
pub open spec fn flush_due<P: Payload>(
    state: LiveCoreState<P>,
    target: SessionTime,
    boundary: Option<SessionTime>,
) -> bool {
    ||| boundary_reachable(target, boundary) && state.filter.time == limit_of(target, boundary)
    ||| state.scheduler@.finishing && state.filter.time == target
}

/// What is due at a known target.
pub open spec fn decision_at<P: Payload>(
    state: LiveCoreState<P>,
    history: LiveCoreHistory<P>,
    target: SessionTime,
    boundary: Option<SessionTime>,
) -> Result<DrainDecision, LiveCoreError> {
    let now = state.filter.time;
    let due = state.due(target);
    let limit = limit_of(target, boundary);
    let full = history.corrected@.len() == DENSE_HISTORY_CAPACITY;
    if state.pending_corrected_segment is Some {
        if due == Some(now) {
            Ok(DrainDecision::Fuse)
        } else if full {
            Ok(DrainDecision::CorrectedFull)
        } else {
            Ok(DrainDecision::Finalize)
        }
    } else if due is Some && due->0.ns < now.ns {
        Err(LiveCoreError::InternalInvariant)
    } else if due == Some(now) {
        Ok(DrainDecision::Fuse)
    } else if state.smoothing_lag_ns != 0 && history.smoothing@.ready(
        now,
        state.smoothing_lag_ns as int,
        flush_due(state, target, boundary),
    ) {
        if full {
            Ok(DrainDecision::CorrectedFull)
        } else {
            Ok(DrainDecision::Smooth)
        }
    } else if state.frontier() is None && now.ns <= limit.ns {
        Ok(DrainDecision::CommitFrontier)
    } else {
        match state.propagation_stop(
            target,
            limit,
            state.scheduler@.finishing || boundary_reachable(target, boundary),
        ) {
            Err(error) => Err(error),
            Ok(Some(stop)) => Ok(DrainDecision::Propagate(stop)),
            Ok(None) => if drained(state, history) {
                Ok(DrainDecision::Finished)
            } else {
                Ok(DrainDecision::Await)
            },
        }
    }
}

/// What is due next, within an optional exact boundary.
pub open spec fn decision<P: Payload>(
    state: LiveCoreState<P>,
    history: LiveCoreHistory<P>,
    boundary: Option<SessionTime>,
) -> Result<DrainDecision, LiveCoreError> {
    match state.scheduler@.target() {
        Err(SchedulerError::NoTrustedImu) => Ok(DrainDecision::Await),
        Err(error) => Err(LiveCoreError::Scheduler(error)),
        Ok(target) => decision_at(state, history, target, boundary),
    }
}

impl<P: Payload> LiveCore<P> {
    /// The time of the earliest observation that may be fused now.
    pub fn next_measurement_time(&self) -> (r: Result<Option<SessionTime>, LiveCoreError>)
        requires
            self.state.scheduler.wf(),
        ensures
            match self.state.scheduler@.target() {
                Err(error) => r == Err::<Option<SessionTime>, LiveCoreError>(
                    LiveCoreError::Scheduler(error),
                ),
                Ok(target) => r == Ok::<Option<SessionTime>, LiveCoreError>(
                    self.state.due(target),
                ),
            },
    {
        match self.state.scheduler.next_measurement() {
            Err(error) => Err(LiveCoreError::Scheduler(error)),
            Ok(None) => Ok(None),
            Ok(Some(scheduled)) => Ok(Some(scheduled.key.time)),
        }
    }

    /// Where the next propagation ends, within `limit`.
    pub fn next_propagation_stop(&self, limit: SessionTime, exact: bool) -> (r: Result<
        Option<SessionTime>,
        LiveCoreError,
    >)
        requires
            self.state.scheduler.wf(),
        ensures
            match self.state.scheduler@.target() {
                Err(error) => r == (if limit.ns <= self.state.filter.time.ns {
                    Ok::<Option<SessionTime>, LiveCoreError>(None)
                } else {
                    Err(LiveCoreError::Scheduler(error))
                }),
                Ok(target) => r == self.state.propagation_stop(
                    target,
                    limit,
                    self.state.scheduler@.finishing || exact,
                ),
            },
    {
        let now = self.state.filter.time;
        if limit.ns <= now.ns {
            return Ok(None);
        }
        let mut stop = self.state.next_corrected_deadline;
        match self.next_measurement_time() {
            Err(error) => {
                return Err(error);
            },
            Ok(None) => {},
            Ok(Some(measurement_time)) => {
                if measurement_time.ns < stop.ns {
                    stop = measurement_time;
                }
            },
        }
        if (self.state.scheduler.is_finishing() || exact) && limit.ns < stop.ns {
            stop = limit;
        }
        if stop.ns <= now.ns {
            return Err(LiveCoreError::InternalInvariant);
        }
        if stop.ns > limit.ns {
            Ok(None)
        } else {
            Ok(Some(stop))
        }
    }

    /// Whether the run has been processed and published to its end.
    pub fn is_drained(&self) -> (r: Result<bool, LiveCoreError>)
        requires
            self.settled(),
        ensures
            if self.state.scheduler@.finishing && self.state.pending_corrected_segment is None
                && self.state.scheduler@.target() is Err {
                r == Err::<bool, LiveCoreError>(
                    LiveCoreError::Scheduler(self.state.scheduler@.target()->Err_0),
                )
            } else {
                r == Ok::<bool, LiveCoreError>(drained(self.state, self.history))
            },
    {
        if !self.state.scheduler.is_finishing() || self.state.pending_corrected_segment.is_some() {
            return Ok(false);
        }
        let target = match self.state.scheduler.target() {
            Err(error) => {
                return Err(LiveCoreError::Scheduler(error));
            },
            Ok(target) => target,
        };
        match self.next_measurement_time() {
            Err(error) => Err(error),
            Ok(due) => Ok(
                self.state.filter.time == target && due.is_none()
                    && !self.history.smoothing.has_tail(),
            ),
        }
    }

    /// What is due next, within an optional exact boundary.
    pub fn decide(&self, boundary: Option<SessionTime>) -> (r: Result<DrainDecision, LiveCoreError>)
        requires
            self.settled(),
        ensures
            r == decision(self.state, self.history, boundary),
    {
        let target = match self.state.scheduler.target() {
            Err(SchedulerError::NoTrustedImu) => {
                return Ok(DrainDecision::Await);
            },
            Err(error) => {
                return Err(LiveCoreError::Scheduler(error));
            },
            Ok(target) => target,
        };
        let mut reachable = false;
        let mut limit = target;
        if let Some(at) = boundary {
            reachable = at.ns <= target.ns;
            if at.ns < target.ns {
                limit = at;
            }
        }
        let now = self.state.filter.time;
        let due = match self.next_measurement_time() {
            Err(error) => {
                return Err(error);
            },
            Ok(due) => due,
        };
        let due_now = match due {
            Some(time) => time.ns == now.ns,
            None => false,
        };
        let full = self.history.corrected.available() == 0;
        if self.state.pending_corrected_segment.is_some() {
            return if due_now {
                Ok(DrainDecision::Fuse)
            } else if full {
                Ok(DrainDecision::CorrectedFull)
            } else {
                Ok(DrainDecision::Finalize)
            };
        }
        if let Some(time) = due {
            if time.ns < now.ns {
                return Err(LiveCoreError::InternalInvariant);
            }
        }
        if due_now {
            return Ok(DrainDecision::Fuse);
        }
        let finishing = self.state.scheduler.is_finishing();
        let flush = (reachable && now == limit) || (finishing && now == target);
        if self.state.smoothing_lag_ns != 0 && self.history.smoothing.ready(
            now,
            self.state.smoothing_lag_ns,
            flush,
        ) {
            return if full {
                Ok(DrainDecision::CorrectedFull)
            } else {
                Ok(DrainDecision::Smooth)
            };
        }
        if self.state.scheduler.processed_frontier().is_none() && now.ns <= limit.ns {
            return Ok(DrainDecision::CommitFrontier);
        }
        match self.next_propagation_stop(limit, reachable) {
            Err(error) => Err(error),
            Ok(Some(stop)) => Ok(DrainDecision::Propagate(stop)),
            Ok(None) => match self.is_drained() {
                Err(error) => Err(error),
                Ok(true) => Ok(DrainDecision::Finished),
                Ok(false) => Ok(DrainDecision::Await),
            },
        }
    }
}

/// A settled core never contradicts itself: the only way to find no decision is
/// a target that does not fit.
pub proof fn decision_never_contradicts<P: Payload>(
    state: LiveCoreState<P>,
    history: LiveCoreHistory<P>,
    boundary: Option<SessionTime>,
)
    requires
        settled(state, history),
    ensures
        decision(state, history, boundary) matches Err(error) ==> error == LiveCoreError::Scheduler(
            SchedulerError::TimeOverflow,
        ),
        decision(state, history, boundary) matches Ok(DrainDecision::Propagate(stop)) ==> {
            &&& state.scheduler@.target() is Ok
            &&& state.filter.time.ns < stop.ns <= state.scheduler@.target()->Ok_0.ns
            &&& stop.ns <= state.next_corrected_deadline.ns
            &&& boundary is Some ==> stop.ns <= boundary->0.ns
            &&& state.frontier() == Some(state.filter.time)
            &&& state.pending_corrected_segment is None
            &&& forall|i: int|
                0 <= i < state.queue().len() ==> (#[trigger] state.queue()[i]).key.time.ns
                    >= stop.ns
        },
{
    state.scheduler.wf_facts();
    if let Ok(target) = state.scheduler@.target() {
        if state.queue().len() > 0 {
            assert(state.queue()[0].key.time.ns >= state.filter.time.ns);
        }
        if let Ok(DrainDecision::Propagate(stop)) = decision(state, history, boundary) {
            assert forall|i: int| 0 <= i < state.queue().len() implies (
            #[trigger] state.queue()[i]).key.time.ns >= stop.ns by {
                if i > 0 {
                    assert(crate::order::key_lt(state.queue()[0].key, state.queue()[i].key));
                }
            }
        }
    }
}

/// The order of what is due. An observation at the filter's epoch comes first, then the
/// segment that ends there, then smoothing that is due, then the first commit, then a
/// propagation. Only where none of them applies does the drain wait, or end.
pub proof fn due_work_comes_in_order<P: Payload>(
    core: LiveCore<P>,
    boundary: Option<SessionTime>,
    target: SessionTime,
    answer: Result<DrainDecision, LiveCoreError>,
)
    requires
        core.settled(),
        core.state.scheduler@.target() == Ok::<SessionTime, SchedulerError>(target),
        call_ensures(LiveCore::<P>::decide, (&core, boundary), answer),
    ensures
        ({
            let now = core.state.filter.time;
            let queue = core.state.queue();
            let nodes = core.history.smoothing@.nodes;
            let lag_ns = core.state.smoothing_lag_ns;
            let observed_now = queue.len() > 0 && queue[0].key.time == now && now.ns <= target.ns;
            let pending = core.state.pending_corrected_segment is Some;
            let full = core.history.corrected@.len() >= 208;
            let limit = if boundary is Some && boundary->0.ns < target.ns {
                boundary->0.ns
            } else {
                target.ns
            };
            let exact = boundary is Some && boundary->0.ns <= target.ns;
            let flush = now.ns == limit && exact || now == target && core.state.scheduler@.finishing;
            let smoothing = lag_ns != 0 && nodes.len() >= 2 && (flush
                || core.history.smoothing@.cursor is Some || now.ns - nodes[1].time.ns >= lag_ns);
            let first = core.state.scheduler@.processed_frontier is None && now.ns <= limit;
            &&& answer is Ok
            &&& answer->Ok_0 == DrainDecision::Fuse <==> observed_now
            &&& answer->Ok_0 == DrainDecision::Finalize <==> !observed_now && pending && !full
            &&& answer->Ok_0 == DrainDecision::Smooth <==> !observed_now && !pending && smoothing
                && !full
            &&& answer->Ok_0 == DrainDecision::CorrectedFull <==> !observed_now && (pending
                || smoothing) && full
            &&& answer->Ok_0 == DrainDecision::CommitFrontier <==> !observed_now && !pending
                && !smoothing && first
            &&& answer->Ok_0 is Propagate || answer->Ok_0 == DrainDecision::Await || answer->Ok_0
                == DrainDecision::Finished <==> !observed_now && !pending && !smoothing && !first
        }),
{
    decision_never_contradicts(core.state, core.history, boundary);
    core.history.corrected.wf_facts();
    core.history.smoothing.wf_facts();
}

/// Where a propagation ends: at the next deadline, at an observation that may be fused, at
/// the boundary or at the end of a finishing run, whichever comes first. It is begun
/// exactly if it does not lead beyond the target or the boundary.
pub proof fn propagations_end_where_something_is_due<P: Payload>(
    core: LiveCore<P>,
    boundary: Option<SessionTime>,
    target: SessionTime,
    answer: Result<DrainDecision, LiveCoreError>,
)
    requires
        core.settled(),
        core.state.scheduler@.target() == Ok::<SessionTime, SchedulerError>(target),
        call_ensures(LiveCore::<P>::decide, (&core, boundary), answer),
        answer is Ok,
        answer->Ok_0 is Propagate || answer->Ok_0 == DrainDecision::Await || answer->Ok_0
            == DrainDecision::Finished,
    ensures
        ({
            let now = core.state.filter.time.ns;
            let queue = core.state.queue();
            let deadline = core.state.next_corrected_deadline.ns;
            let limit = if boundary is Some && boundary->0.ns < target.ns {
                boundary->0.ns
            } else {
                target.ns
            };
            let exact = core.state.scheduler@.finishing || boundary is Some && boundary->0.ns
                <= target.ns;
            let observed = queue.len() > 0 && queue[0].key.time.ns <= target.ns;
            &&& answer->Ok_0 matches DrainDecision::Propagate(stop) ==> {
                &&& now < stop.ns <= limit
                &&& stop.ns <= deadline
                &&& observed ==> stop.ns <= queue[0].key.time.ns
                &&& stop.ns == deadline || observed && stop.ns == queue[0].key.time.ns || exact
                    && stop.ns == limit
            }
            &&& answer->Ok_0 !is Propagate ==> limit <= now || (!exact && limit < deadline && (
            observed ==> limit < queue[0].key.time.ns))
        }),
{
    decision_never_contradicts(core.state, core.history, boundary);
}

/// A drain is finished exactly if the run is finishing, the filter has reached the last
/// evidence, nothing waits and nothing is left to publish. Everything else waits.
pub proof fn drains_finish_with_nothing_left<P: Payload>(
    core: LiveCore<P>,
    boundary: Option<SessionTime>,
    target: SessionTime,
    answer: Result<DrainDecision, LiveCoreError>,
    drained_now: Result<bool, LiveCoreError>,
)
    requires
        core.settled(),
        core.state.scheduler@.target() == Ok::<SessionTime, SchedulerError>(target),
        call_ensures(LiveCore::<P>::decide, (&core, boundary), answer),
        call_ensures(LiveCore::<P>::is_drained, (&core,), drained_now),
    ensures
        ({
            let queue = core.state.queue();
            let observed = queue.len() > 0 && queue[0].key.time.ns <= target.ns;
            let done = core.state.scheduler@.finishing && core.state.filter.time == target
                && !observed && core.state.pending_corrected_segment is None
                && core.history.smoothing@.nodes.len() <= 1;
            &&& answer == Ok::<DrainDecision, LiveCoreError>(DrainDecision::Finished) ==> done
            &&& answer == Ok::<DrainDecision, LiveCoreError>(DrainDecision::Await) ==> !done
            &&& drained_now == Ok::<bool, LiveCoreError>(done)
        }),
{
}

/// Without any evidence the drain waits.
pub proof fn drains_wait_for_evidence<P: Payload>(
    core: LiveCore<P>,
    boundary: Option<SessionTime>,
    answer: Result<DrainDecision, LiveCoreError>,
)
    requires
        core.state.scheduler@.latest_trusted_imu is None,
        call_ensures(LiveCore::<P>::decide, (&core, boundary), answer),
    ensures
        answer == Ok::<DrainDecision, LiveCoreError>(DrainDecision::Await),
{
}

/// The next observation is the first one that waits, once the target has reached it.
pub proof fn next_observation_is_the_first<P: Payload>(
    core: LiveCore<P>,
    target: SessionTime,
    next: Result<Option<SessionTime>, LiveCoreError>,
)
    requires
        core.state.scheduler@.target() == Ok::<SessionTime, SchedulerError>(target),
        call_ensures(LiveCore::<P>::next_measurement_time, (&core,), next),
    ensures
        ({
            let queue = core.state.queue();
            let due = queue.len() > 0 && queue[0].key.time.ns <= target.ns;
            &&& next is Ok
            &&& next->Ok_0 is Some <==> due
            &&& due ==> next->Ok_0->0 == queue[0].key.time
        }),
{
}

/// A propagation within a limit ends at the deadline or at the first observation that may
/// be fused, whichever comes first, or at an exact limit before both. Without an exact
/// limit it is not begun where it would lead beyond.
pub proof fn propagation_stops_come_first<P: Payload>(
    core: LiveCore<P>,
    target: SessionTime,
    limit: SessionTime,
    exact: bool,
    answer: Result<Option<SessionTime>, LiveCoreError>,
)
    requires
        core.state.scheduler@.target() == Ok::<SessionTime, SchedulerError>(target),
        call_ensures(LiveCore::<P>::next_propagation_stop, (&core, limit, exact), answer),
    ensures
        ({
            let now = core.state.filter.time.ns;
            let deadline = core.state.next_corrected_deadline.ns;
            let queue = core.state.queue();
            let due = queue.len() > 0 && queue[0].key.time.ns <= target.ns;
            let cut = exact || core.state.scheduler@.finishing;
            &&& limit.ns <= now ==> answer == Ok::<Option<SessionTime>, LiveCoreError>(None)
            &&& answer matches Ok(Some(stop)) ==> {
                &&& now < stop.ns <= limit.ns
                &&& stop.ns <= deadline
                &&& due ==> stop.ns <= queue[0].key.time.ns
                &&& stop.ns == deadline || due && stop.ns == queue[0].key.time.ns || cut && stop
                    == limit
            }
            &&& cut && now < limit.ns && now < deadline && (due ==> now < queue[0].key.time.ns)
                ==> answer is Ok && answer->Ok_0 is Some
            &&& now < limit.ns && now < deadline <= limit.ns && (due ==> now
                < queue[0].key.time.ns) ==> answer is Ok && answer->Ok_0 is Some
        }),
{
}

/// A target that cannot be counted is the only thing that keeps a drain from deciding.
pub proof fn uncountable_targets_are_reported<P: Payload>(
    core: LiveCore<P>,
    boundary: Option<SessionTime>,
    error: SchedulerError,
    answer: Result<DrainDecision, LiveCoreError>,
)
    requires
        core.state.scheduler@.target() == Err::<SessionTime, SchedulerError>(error),
        call_ensures(LiveCore::<P>::decide, (&core, boundary), answer),
    ensures
        error != SchedulerError::NoTrustedImu ==> answer == Err::<DrainDecision, LiveCoreError>(
            LiveCoreError::Scheduler(error),
        ),
        error == SchedulerError::NoTrustedImu ==> answer == Ok::<DrainDecision, LiveCoreError>(
            DrainDecision::Await,
        ),
{
}

} // verus!
