//! One step of the drain: what is due is decided, paid for and handed out.
use vstd::prelude::*;

use crate::error::LiveCoreError;
use crate::live_core::config::{
    FILTER_PROPAGATION_CREDITS, FRONTIER_COMMIT_CREDITS, GNSS_UPDATE_CREDITS,
    SEGMENT_FINALIZATION_CREDITS,
};
use crate::live_core::decision::DrainDecision;
use crate::live_core::decision::{decision, decision_never_contradicts};
use crate::live_core::frontier::DrainAction;
use crate::live_core::frontier::{finalization_ok, is_first_commit};
use crate::live_core::kinematics::{filter_epoch_is_supported, kinematics_of};
use crate::live_core::planning::{is_planned, planning, stop_is_due};
use crate::live_core::report::{saturating_count, DrainBlock, DrainReport};
use crate::live_core::report::{counted, DrainCounters};
use crate::live_core::state::{LiveCore, LiveCoreHistory, LiveCoreState};
use crate::live_core::state::{evidence, settled};
use crate::live_core::work::{FusionWork, Work};
use crate::payload::Payload;
use crate::rts_window::{SmoothingWork, RTS_NODE_CAPACITY, RTS_STEP_CREDITS};
use crate::rts_window::RtsWindowModel;
use crate::scheduler::WorkQuota;
use crate::time::SessionTime;

verus! {

/// Whether `after` has been handed the next backward work of its window, or the
/// segment to publish where the backward pass is complete.
pub open spec fn is_smoothing_begun<P: Payload>(
    state: LiveCoreState<P>,
    history: LiveCoreHistory<P>,
    action: DrainAction<P>,
    after: LiveCore<P>,
) -> bool {
    let window = history.smoothing@;
    &&& after.state == state
    &&& after.history == (LiveCoreHistory { smoothing: after.history.smoothing, ..history })
    &&& history.smoothing.keeps_slots(after.history.smoothing)
    &&& if window.dirty {
        let last = window.nodes.len() - 1;
        let offset = match window.cursor {
            Some(offset) => offset,
            None => last - 1,
        };
        &&& action matches DrainAction::Smooth(step)
        &&& step is Step
        &&& step->slot == history.smoothing.slot(offset)
        &&& step->next_slot == history.smoothing.slot(offset + 1)
        &&& step->terminal_slot is Some <==> window.cursor is None
        &&& step->terminal_slot is Some ==> step->terminal_slot->0 == history.smoothing.slot(last)
        &&& after.history.smoothing@ == (RtsWindowModel { cursor: Some(offset), ..window })
        &&& after.work == Work::<P>::Smooth
    } else {
        &&& action == DrainAction::Publish(window.publication())
        &&& after.history.smoothing@ == window
        &&& after.work == Work::<P>::Publish
    }
}

/// Whether a propagation to `stop` was begun: a new window is seeded first, a
/// full one refuses, and otherwise the plan is handed out once its slices are
/// paid for. Enough is left for the propagation itself.
pub open spec fn is_propagation_begun<P: Payload>(
    state: LiveCoreState<P>,
    history: LiveCoreHistory<P>,
    stop: SessionTime,
    credits: int,
    outcome: Result<DrainAction<P>, LiveCoreError>,
    credits_left: int,
    after: LiveCore<P>,
) -> bool {
    let nodes = history.smoothing@.nodes;
    let smoothing = state.smoothing_lag_ns != 0;
    let run = planning(state, history, stop, credits);
    &&& after.state == state && after.history == history
    &&& if smoothing && nodes.len() == 0 {
        &&& credits_left == credits
        &&& match kinematics_of(state, history.imu@, state.filter.time) {
            Err(error) => {
                &&& outcome == Err::<DrainAction<P>, LiveCoreError>(error)
                &&& after.work is Idle
            },
            Ok(kinematics) => {
                &&& outcome == Ok::<DrainAction<P>, LiveCoreError>(DrainAction::Seed(kinematics))
                &&& after.work == Work::Seed(kinematics)
            },
        }
    } else if smoothing && nodes.len() == RTS_NODE_CAPACITY {
        &&& credits_left == credits
        &&& outcome == Err::<DrainAction<P>, LiveCoreError>(LiveCoreError::SmoothingHistoryFull)
        &&& after.work is Idle
    } else {
        match run.outcome {
            Err(error) => {
                &&& credits_left == run.credits
                &&& outcome == (if error == LiveCoreError::PlanningQuotaExhausted {
                    Ok::<DrainAction<P>, LiveCoreError>(DrainAction::Yield)
                } else {
                    Err(error)
                })
                &&& after.work is Idle
            },
            Ok((cursor, pieces)) => {
                &&& credits_left == run.credits
                &&& credits_left >= FILTER_PROPAGATION_CREDITS
                &&& outcome matches Ok(DrainAction::Propagate(plan)) && is_planned(
                    plan,
                    stop,
                    cursor,
                    pieces,
                ) && after.work == Work::Propagate(plan)
            },
        }
    }
}

impl<P: Payload> LiveCore<P> {
    /// Begins the next piece of backward work.
    fn begin_smoothing(&mut self) -> (r: Result<DrainAction<P>, LiveCoreError>)
        requires
            old(self).wf(),
            old(self).work is Idle,
            old(self).state.pending_corrected_segment is None,
            old(self).history.smoothing@.nodes.len() >= 2,
            old(self).history.corrected@.len() < crate::capacity::DENSE_HISTORY_CAPACITY,
        ensures
            final(self).wf(),
            r is Ok,
            is_smoothing_begun(old(self).state, old(self).history, r->Ok_0, *final(self)),
    {
        reveal(LiveCore::wf);
        let ghost before = *self;
        proof {
            self.history.smoothing.wf_facts();
        }
        match self.history.smoothing.begin_step() {
            SmoothingWork::Complete => match self.history.smoothing.publication() {
                None => Err(LiveCoreError::InternalInvariant),
                Some(segment) => {
                    self.work = Work::Publish;
                    proof {
                        window_work_keeps_settled(before, *self);
                    }
                    Ok(DrainAction::Publish(segment))
                },
            },
            SmoothingWork::Step { slot, next_slot, terminal_slot } => {
                self.work = Work::Smooth;
                proof {
                    window_work_keeps_settled(before, *self);
                }
                Ok(DrainAction::Smooth(SmoothingWork::Step { slot, next_slot, terminal_slot }))
            },
        }
    }
}

impl<P: Payload> LiveCore<P> {
    /// Begins a propagation to `stop`.
    fn begin_propagation(&mut self, stop: SessionTime, quota: &mut WorkQuota) -> (r: Result<
        DrainAction<P>,
        LiveCoreError,
    >)
        requires
            old(self).wf(),
            old(self).work is Idle,
            propagation_due(old(self).state, old(self).history, stop),
        ensures
            final(self).wf(),
            is_propagation_begun(
                old(self).state,
                old(self).history,
                stop,
                old(quota).remaining as int,
                r,
                final(quota).remaining as int,
                *final(self),
            ),
    {
        reveal(LiveCore::wf);
        if self.state.smoothing_lag_ns != 0 {
            if self.history.smoothing.is_empty() {
                proof {
                    filter_epoch_is_supported(self.state, self.history);
                }
                return match self.corrected_kinematics_at(self.state.filter.time) {
                    Err(error) => Err(error),
                    Ok(kinematics) => {
                        self.work = Work::Seed(kinematics);
                        Ok(DrainAction::Seed(kinematics))
                    },
                };
            }
            if self.history.smoothing.is_full() {
                return Err(LiveCoreError::SmoothingHistoryFull);
            }
        }
        proof {
            self.history.smoothing.wf_facts();
        }
        match self.plan_propagation(stop, quota) {
            Err(LiveCoreError::PlanningQuotaExhausted) => Ok(DrainAction::Yield),
            Err(error) => Err(error),
            Ok(plan) => {
                self.work = Work::Propagate(plan);
                Ok(DrainAction::Propagate(plan))
            },
        }
    }
}

/// Whether a propagation to `stop` may begin.
pub open spec fn propagation_due<P: Payload>(
    state: LiveCoreState<P>,
    history: LiveCoreHistory<P>,
    stop: SessionTime,
) -> bool {
    &&& stop_is_due(state, stop)
    &&& state.frontier() == Some(state.filter.time)
    &&& state.pending_corrected_segment is None
    &&& history.smoothing@.cursor is None
}

/// What a decision costs before it is carried out. A propagation is paid for
/// slice by slice instead.
pub open spec fn price(decision: DrainDecision) -> u16 {
    match decision {
        DrainDecision::Fuse => GNSS_UPDATE_CREDITS,
        DrainDecision::Finalize => SEGMENT_FINALIZATION_CREDITS,
        DrainDecision::Smooth => RTS_STEP_CREDITS,
        DrainDecision::CommitFrontier => FRONTIER_COMMIT_CREDITS,
        _ => 0,
    }
}

/// A step as seen from outside: its answer, the credits that are left, and the
/// report.
pub struct StepResult<P: Payload> {
    pub answer: Result<DrainAction<P>, LiveCoreError>,
    pub credits: int,
    pub report: DrainReport<P>,
}

/// A step that stops without touching anything.
pub open spec fn yielded<P: Payload>(
    credits: int,
    report: DrainReport<P>,
    block: DrainBlock,
) -> StepResult<P> {
    StepResult {
        answer: Ok(DrainAction::Yield),
        credits,
        report: DrainReport { blocked_on: block, ..report },
    }
}

/// Whether `after` and `result` are one step from the state and history.
pub open spec fn is_step<P: Payload>(
    state: LiveCoreState<P>,
    history: LiveCoreHistory<P>,
    boundary: Option<SessionTime>,
    credits: int,
    report: DrainReport<P>,
    result: StepResult<P>,
    after: LiveCore<P>,
) -> bool {
    let idle = LiveCore { state, history, work: Work::Idle };
    match decision(state, history, boundary) {
        Err(error) => {
            &&& result == (StepResult { answer: Err(error), credits, report })
            &&& after == idle
        },
        Ok(due) => if price(due) > credits {
            result == yielded(credits, report, DrainBlock::QuotaExhausted) && after == idle
        } else {
            match due {
                DrainDecision::Await => result == yielded(
                    credits,
                    report,
                    DrainBlock::AwaitingDelayedFrontier,
                ) && after == idle,
                DrainDecision::Finished => result == yielded(credits, report, DrainBlock::Finished)
                    && after == idle,
                DrainDecision::CorrectedFull => result == yielded(
                    credits,
                    report,
                    DrainBlock::CorrectedHistoryFull,
                ) && after == idle,
                DrainDecision::Fuse => {
                    &&& result.credits == credits - GNSS_UPDATE_CREDITS
                    &&& result.report == report
                    &&& match kinematics_of(state, history.imu@, state.filter.time) {
                        Err(error) => {
                            &&& result.answer == Err::<DrainAction<P>, LiveCoreError>(error)
                            &&& after == idle
                        },
                        Ok(kinematics) => {
                            let work = FusionWork {
                                scheduled: state.queue()[0],
                                kinematics,
                                continues_sample: history.active_imu_sample is Some
                                    && kinematics.sample.shares_latent(history.active_imu_sample->0),
                            };
                            &&& result.answer == Ok::<DrainAction<P>, LiveCoreError>(
                                DrainAction::Fuse(work),
                            )
                            &&& after == idle.with_work(Work::Fuse(work))
                        },
                    }
                },
                DrainDecision::Finalize => {
                    &&& result.credits == credits - SEGMENT_FINALIZATION_CREDITS
                    &&& result.report == report
                    &&& result.answer matches Ok(DrainAction::Finalize(work)) && finalization_ok(
                        state,
                        history,
                        work,
                    ) && after == idle.with_work(Work::Finalize(work))
                },
                DrainDecision::Smooth => {
                    &&& result.credits == credits - RTS_STEP_CREDITS
                    &&& result.report == (DrainReport {
                        counters: DrainCounters {
                            smoothing_steps: counted(report.counters.smoothing_steps, 1),
                            ..report.counters
                        },
                        ..report
                    })
                    &&& result.answer is Ok
                    &&& is_smoothing_begun(state, history, result.answer->Ok_0, after)
                },
                DrainDecision::CommitFrontier => {
                    &&& result.credits == credits - FRONTIER_COMMIT_CREDITS
                    &&& result.report == (DrainReport {
                        counters: DrainCounters {
                            frontier_commits: counted(report.counters.frontier_commits, 1),
                            ..report.counters
                        },
                        ..report
                    })
                    &&& result.answer == Ok::<DrainAction<P>, LiveCoreError>(DrainAction::Continue)
                    &&& is_first_commit(idle, after)
                },
                DrainDecision::Propagate(stop) => {
                    &&& is_propagation_begun(
                        state,
                        history,
                        stop,
                        credits,
                        result.answer,
                        result.credits,
                        after,
                    )
                    &&& result.report == (if result.answer matches Ok(DrainAction::Yield) {
                        DrainReport { blocked_on: DrainBlock::QuotaExhausted, ..report }
                    } else {
                        report
                    })
                },
            }
        },
    }
}

impl<P: Payload> LiveCore<P> {
    /// Performs one step of the drain, without crossing an optional exact
    /// boundary. Work under way is abandoned first.
    pub fn drain_step(
        &mut self,
        boundary: Option<SessionTime>,
        quota: &mut WorkQuota,
        report: &mut DrainReport<P>,
    ) -> (r: Result<DrainAction<P>, LiveCoreError>)
        requires
            old(self).wf(),
        ensures
            final(self).wf(),
            is_step(
                old(self).state,
                old(self).history,
                boundary,
                old(quota).remaining as int,
                *old(report),
                (StepResult {
                    answer: r,
                    credits: final(quota).remaining as int,
                    report: *final(report),
                }),
                *final(self),
            ),
    {
        let abandoned = self.take_work();
        proof {
            self.wf_is_settled();
            decision_never_contradicts(self.state, self.history, boundary);
            self.history.corrected.wf_facts();
            self.history.smoothing.wf_facts();
        }
        let due = match self.decide(boundary) {
            Err(error) => {
                return Err(error);
            },
            Ok(due) => due,
        };
        let block = match due {
            DrainDecision::Await => DrainBlock::AwaitingDelayedFrontier,
            DrainDecision::Finished => DrainBlock::Finished,
            DrainDecision::CorrectedFull => DrainBlock::CorrectedHistoryFull,
            _ => DrainBlock::QuotaExhausted,
        };
        match due {
            DrainDecision::Fuse => {
                if quota.take(GNSS_UPDATE_CREDITS) {
                    return match self.begin_fusion() {
                        Err(error) => {
                            proof {
                                self.idle_is_wf();
                            }
                            Err(error)
                        },
                        Ok(work) => {
                            proof {
                                self.work_is_wf();
                            }
                            Ok(DrainAction::Fuse(work))
                        },
                    };
                }
            },
            DrainDecision::Finalize => {
                if quota.take(SEGMENT_FINALIZATION_CREDITS) {
                    return match self.begin_finalization() {
                        Err(error) => Err(error),
                        Ok(work) => {
                            proof {
                                self.work_is_wf();
                            }
                            Ok(DrainAction::Finalize(work))
                        },
                    };
                }
            },
            DrainDecision::Smooth => {
                if quota.take(RTS_STEP_CREDITS) {
                    report.counters.smoothing_steps =
                    saturating_count(report.counters.smoothing_steps, 1);
                    return self.begin_smoothing();
                }
            },
            DrainDecision::CommitFrontier => {
                if quota.take(FRONTIER_COMMIT_CREDITS) {
                    return match self.commit_first_frontier() {
                        Err(error) => Err(error),
                        Ok(_) => {
                            report.counters.frontier_commits =
                            saturating_count(report.counters.frontier_commits, 1);
                            proof {
                                self.idle_is_wf();
                            }
                            Ok(DrainAction::Continue)
                        },
                    };
                }
            },
            DrainDecision::Propagate(stop) => {
                let answer = self.begin_propagation(stop, quota);
                if let Ok(DrainAction::Yield) = answer {
                    report.blocked_on = DrainBlock::QuotaExhausted;
                }
                return answer;
            },
            _ => {},
        }
        report.blocked_on = block;
        Ok(DrainAction::Yield)
    }
}

/// Beginning backward work changes nothing but the cursor of the pass.
proof fn window_work_keeps_settled<P: Payload>(before: LiveCore<P>, after: LiveCore<P>)
    requires
        before.settled(),
        before.state.pending_corrected_segment is None,
        after.state == before.state,
        after.history.smoothing.wf(),
        after.history.smoothing@.nodes == before.history.smoothing@.nodes,
        after.history == (LiveCoreHistory {
            smoothing: after.history.smoothing,
            ..before.history
        }),
    ensures
        after.settled(),
{
    assert(evidence(after.state, after.history) == evidence(before.state, before.history));
}

/// What a step hands out for fusion: the first waiting observation, with the kinematics of
/// the filter's epoch. It costs twelve credits and changes nothing else.
pub proof fn steps_hand_out_the_first_observation<P: Payload>(
    core: &mut LiveCore<P>,
    boundary: Option<SessionTime>,
    quota: &mut WorkQuota,
    report: &mut DrainReport<P>,
    work: FusionWork<P>,
)
    requires
        call_ensures(
            LiveCore::<P>::drain_step,
            (core, boundary, quota, report),
            Ok::<DrainAction<P>, LiveCoreError>(DrainAction::Fuse(work)),
        ),
    ensures
        work.scheduled == old(core).state.queue()[0],
        old(core).history.active_imu_sample is None ==> !work.continues_sample,
        old(core).history.active_imu_sample matches Some(active) ==> work.continues_sample
            == work.kinematics.sample.shares_latent(active),
        old(quota).remaining - final(quota).remaining == 12,
        final(core).state == old(core).state,
        final(core).history == old(core).history,
        final(core).work == Work::Fuse(work),
        *final(report) == *old(report),
{
}

/// What a step hands out to be finished: the segment from the pending start to the filter's
/// epoch, under the next identifier, with the filter's values at its end and with the
/// attitude increment and the degradation flags of the pending one. The predicted segment
/// that covers the same epoch comes with it. It costs one credit.
pub proof fn steps_hand_out_the_pending_segment<P: Payload>(
    core: &mut LiveCore<P>,
    boundary: Option<SessionTime>,
    quota: &mut WorkQuota,
    report: &mut DrainReport<P>,
    work: crate::live_core::work::FinalizationWork<P>,
)
    requires
        call_ensures(
            LiveCore::<P>::drain_step,
            (core, boundary, quota, report),
            Ok::<DrainAction<P>, LiveCoreError>(DrainAction::Finalize(work)),
        ),
    ensures
        old(core).state.pending_corrected_segment is Some,
        ({
            let pending = old(core).state.pending_corrected_segment->0;
            let now = old(core).state.filter.time;
            &&& work.segment.id == old(core).state.next_corrected_segment_id
            &&& work.segment.start == pending.start
            &&& work.segment.end.time == now
            &&& work.segment.end.estimate == old(core).state.filter_values.estimate
            &&& work.segment.end.covariance == old(core).state.filter_values.covariance
            &&& work.segment.end.specific_force_b == pending.end_specific_force_b
            &&& work.segment.attitude_delta == pending.attitude_delta
            &&& work.segment.degraded == pending.degraded
            &&& work.segment.degraded_input == pending.degraded_input
            &&& old(core).history.predicted@.contains(work.predicted)
            &&& work.predicted.start.time.ns <= now.ns <= work.predicted.end.time.ns
            &&& work.predicted.start.time.ns + work.elapsed_ns == now.ns
            &&& work.lag_ns matches Some(lag_ns) ==> now.ns + lag_ns
                == old(core).state.predictor.time.ns
        }),
        old(quota).remaining - final(quota).remaining == 1,
        final(core).state == old(core).state,
        final(core).history == old(core).history,
        final(core).work == Work::Finalize(work),
{
}

/// What a step hands out to be published has the identity, the attitude increment and the
/// degradation flags of the filtered segment that ends at the first open node. It costs the
/// sixty-four credits of a backward step and is counted as one.
pub proof fn steps_hand_out_the_smoothed_segment<P: Payload>(
    core: &mut LiveCore<P>,
    boundary: Option<SessionTime>,
    quota: &mut WorkQuota,
    report: &mut DrainReport<P>,
    segment: crate::dense_history::DenseSegment<P>,
)
    requires
        call_ensures(
            LiveCore::<P>::drain_step,
            (core, boundary, quota, report),
            Ok::<DrainAction<P>, LiveCoreError>(DrainAction::Publish(segment)),
        ),
    ensures
        ({
            let window = old(core).history.smoothing@;
            let filtered = window.nodes[1].incoming->0;
            &&& !window.dirty
            &&& segment.id == filtered.id
            &&& segment.attitude_delta == filtered.attitude_delta
            &&& segment.degraded == filtered.degraded
            &&& segment.degraded_input == filtered.degraded_input
            &&& segment.end == window.nodes[1].endpoint
            &&& window.frozen_start is Some ==> segment.start == window.frozen_start->0
            &&& window.frozen_start is None ==> segment.start == window.nodes[0].endpoint
            &&& final(core).history.smoothing@ == window
        }),
        old(quota).remaining - final(quota).remaining == 64,
        old(report).counters.smoothing_steps < u16::MAX
            ==> final(report).counters.smoothing_steps == old(report).counters.smoothing_steps + 1,
        final(core).state == old(core).state,
        final(core).history.corrected == old(core).history.corrected,
        final(core).work is Publish,
{
}

/// A backward step is handed out for the node at the cursor, or for the last node but one
/// where a pass begins; the node after it comes with it.
pub proof fn steps_hand_out_backward_work<P: Payload>(
    core: &mut LiveCore<P>,
    boundary: Option<SessionTime>,
    quota: &mut WorkQuota,
    report: &mut DrainReport<P>,
    step: SmoothingWork,
)
    requires
        call_ensures(
            LiveCore::<P>::drain_step,
            (core, boundary, quota, report),
            Ok::<DrainAction<P>, LiveCoreError>(DrainAction::Smooth(step)),
        ),
    ensures
        ({
            let before = old(core).history.smoothing@;
            let after = final(core).history.smoothing@;
            let window = old(core).history.smoothing;
            &&& before.dirty
            &&& step is Step && after.cursor is Some
            &&& step->slot == window.slot(after.cursor->0)
            &&& step->next_slot == window.slot(after.cursor->0 + 1)
            &&& before.cursor is Some ==> after.cursor == before.cursor
                && step->terminal_slot is None
            &&& before.cursor is None ==> after.cursor->0 == before.nodes.len() - 2
                && step->terminal_slot is Some && step->terminal_slot->0 == step->next_slot
            &&& after.nodes == before.nodes
            &&& after.frozen_start == before.frozen_start
        }),
        old(quota).remaining - final(quota).remaining == 64,
        final(core).state == old(core).state,
        final(core).history.corrected == old(core).history.corrected,
        final(core).work is Smooth,
{
}

/// The first commit makes the filter's epoch the frontier and the filter's values those of
/// the corrected endpoint. It costs one credit.
pub proof fn first_commit_takes_over_the_filter<P: Payload>(
    core: &mut LiveCore<P>,
    boundary: Option<SessionTime>,
    quota: &mut WorkQuota,
    report: &mut DrainReport<P>,
)
    requires
        call_ensures(
            LiveCore::<P>::drain_step,
            (core, boundary, quota, report),
            Ok::<DrainAction<P>, LiveCoreError>(DrainAction::Continue),
        ),
    ensures
        old(core).state.frontier() is None,
        final(core).state.frontier() == Some(old(core).state.filter.time),
        final(core).state.corrected_endpoint.time == old(core).state.filter.time,
        final(core).state.corrected_endpoint.estimate == old(core).state.filter_values.estimate,
        final(core).state.corrected_endpoint.covariance == old(core).state.filter_values.covariance,
        final(core).state.corrected_endpoint.specific_force_b
            == old(core).state.corrected_endpoint.specific_force_b,
        old(core).history.published_frontier is None ==> final(core).history.published_frontier
            == Some(old(core).state.filter.time),
        final(core).state.filter == old(core).state.filter,
        final(core).state.queue() == old(core).state.queue(),
        final(core).history.corrected == old(core).history.corrected,
        old(quota).remaining - final(quota).remaining == 1,
        old(report).counters.frontier_commits < u16::MAX
            ==> final(report).counters.frontier_commits == old(report).counters.frontier_commits
            + 1,
        final(core).work is Idle,
{
}

/// A step that yields has changed nothing. It says that the drain waits, is finished or is
/// held up by published segments exactly where that is so, and otherwise that credits are
/// missing.
pub proof fn yielding_steps_say_why<P: Payload>(
    core: &mut LiveCore<P>,
    boundary: Option<SessionTime>,
    quota: &mut WorkQuota,
    report: &mut DrainReport<P>,
    due: DrainDecision,
)
    requires
        call_ensures(
            LiveCore::<P>::decide,
            (&*old(core), boundary),
            Ok::<DrainDecision, LiveCoreError>(due),
        ),
        call_ensures(
            LiveCore::<P>::drain_step,
            (core, boundary, quota, report),
            Ok::<DrainAction<P>, LiveCoreError>(DrainAction::Yield),
        ),
    ensures
        final(core).state == old(core).state,
        final(core).history == old(core).history,
        final(core).work is Idle,
        final(report).counters == old(report).counters,
        final(report).updates() == old(report).updates(),
        final(report).blocked_on == (match due {
            DrainDecision::Await => DrainBlock::AwaitingDelayedFrontier,
            DrainDecision::Finished => DrainBlock::Finished,
            DrainDecision::CorrectedFull => DrainBlock::CorrectedHistoryFull,
            _ => DrainBlock::QuotaExhausted,
        }),
        due == DrainDecision::Fuse ==> old(quota).remaining < 12,
        due == DrainDecision::Finalize || due == DrainDecision::CommitFrontier
            ==> old(quota).remaining < 1,
        due == DrainDecision::Smooth ==> old(quota).remaining < 64,
        due !is Propagate ==> final(quota).remaining == old(quota).remaining,
{
}

/// A step hands out what was decided and nothing else, given enough credits.
pub proof fn steps_do_what_is_due<P: Payload>(
    core: &mut LiveCore<P>,
    boundary: Option<SessionTime>,
    quota: &mut WorkQuota,
    report: &mut DrainReport<P>,
    due: DrainDecision,
    action: DrainAction<P>,
)
    requires
        old(quota).remaining >= 64,
        call_ensures(
            LiveCore::<P>::decide,
            (&*old(core), boundary),
            Ok::<DrainDecision, LiveCoreError>(due),
        ),
        call_ensures(
            LiveCore::<P>::drain_step,
            (core, boundary, quota, report),
            Ok::<DrainAction<P>, LiveCoreError>(action),
        ),
    ensures
        due == DrainDecision::Fuse <==> action is Fuse,
        due == DrainDecision::Finalize <==> action is Finalize,
        due == DrainDecision::CommitFrontier <==> action is Continue,
        due == DrainDecision::Smooth <==> action is Smooth || action is Publish,
        action is Propagate || action is Seed ==> due is Propagate,
        action matches DrainAction::Propagate(plan) ==> due == DrainDecision::Propagate(plan.stop)
            && final(core).work == Work::Propagate(plan),
        action is Seed ==> old(core).state.smoothing_lag_ns != 0
            && old(core).history.smoothing@.nodes.len() == 0 && final(core).work == Work::Seed(
            action->Seed_0,
        ),
        action is Seed || action is Propagate ==> final(core).state == old(core).state
            && final(core).history == old(core).history,
{
}

} // verus!
