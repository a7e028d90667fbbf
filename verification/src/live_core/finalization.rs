//! Making a corrected segment immutable.
use vstd::prelude::*;

use crate::capacity::DENSE_HISTORY_CAPACITY;
use crate::dense_history::DenseSegment;
use crate::dense_history::append_verdict;
use crate::error::{LiveCoreError, PredictorError};
use crate::gnss::GnssQualityUpdate;
use crate::live_core::frontier::finalization_ok;
use crate::live_core::report::{saturating_count, DrainReport};
use crate::live_core::report::{counted, DrainCounters};
use crate::live_core::state::{LiveCore, LiveCoreHistory, LiveCoreState, SegmentQuality};
use crate::live_core::state::evidence;
use crate::live_core::work::{FinalizationWork, Work};
use crate::payload::Payload;
use crate::queue::QueueError;
use crate::rts_window::RtsNode;
use crate::rts_window::RtsWindowModel;
use crate::scheduler::SchedulerModel;
use crate::time::SessionTime;

verus! {

/// A correction that the predictor takes over.
#[derive(Clone, Copy, Debug, PartialEq)]
pub struct PredictorCorrection<P: Payload> {
    pub estimate: P::Estimate,
    /// Whether the correction crossed a reset threshold.
    pub hard_reset: bool,
}

/// The numbers of one finalization.
#[derive(Clone, Copy, Debug, PartialEq)]
pub struct FinalizationNumbers<P: Payload> {
    /// The verdict on the values of the segment.
    pub segment_is_valid: bool,
    /// Whether the predicted state at the epoch could be computed.
    pub prediction_is_available: bool,
    /// Why the predictor refused the correction.
    pub correction_error: Option<PredictorError>,
    pub correction: PredictorCorrection<P>,
}

/// The correction that comes with the segment, or why it stays pending.
pub open spec fn finalization_verdict<P: Payload>(
    state: LiveCoreState<P>,
    work: FinalizationWork<P>,
    numbers: FinalizationNumbers<P>,
) -> Result<PredictorCorrection<P>, LiveCoreError> {
    match DenseSegment::<P>::segment_verdict(
        work.segment.start.time,
        work.segment.end.time,
        numbers.segment_is_valid,
    ) {
        Err(error) => Err(LiveCoreError::DenseHistory(error)),
        Ok(_) => if !numbers.prediction_is_available {
            Err(LiveCoreError::PredictorHistoryUnavailable)
        } else if work.lag_ns is None {
            Err(LiveCoreError::Predictor(PredictorError::TimeOverflow))
        } else if numbers.correction_error is Some {
            Err(LiveCoreError::Predictor(numbers.correction_error->0))
        } else if state.next_corrected_segment_id == u64::MAX {
            Err(LiveCoreError::SegmentIdOverflow)
        } else {
            Ok(numbers.correction)
        },
    }
}

/// Whether `after` is what of `before` ends after `time`.
pub open spec fn is_remainder<P: Payload>(
    before: Seq<DenseSegment<P>>,
    time: SessionTime,
    after: Seq<DenseSegment<P>>,
) -> bool {
    exists|k: int|
        0 <= k <= before.len() && after == #[trigger] before.subrange(k, before.len() as int) && (
        forall|i: int| 0 <= i < k ==> (#[trigger] before[i]).end.time.ns <= time.ns) && (forall|
            i: int,
        |
            k <= i < before.len() ==> (#[trigger] before[i]).end.time.ns > time.ns)
}

/// Whether `after` is `history` with one more published segment.
pub open spec fn is_published<P: Payload>(
    history: LiveCoreHistory<P>,
    segment: DenseSegment<P>,
    quality: SegmentQuality<P>,
    after: LiveCoreHistory<P>,
) -> bool {
    &&& after.corrected@ == history.corrected@.push(segment)
    &&& after.corrected_quality@ == history.corrected_quality@.push(quality)
    &&& after == (LiveCoreHistory {
        corrected: after.corrected,
        corrected_quality: after.corrected_quality,
        published_frontier: Some(segment.end.time),
        ..history
    })
}

/// Why a segment cannot be published, if it cannot. Where only its quality
/// finds no room, the segment itself has been stored.
pub open spec fn publication_verdict<P: Payload>(
    history: LiveCoreHistory<P>,
    segment: DenseSegment<P>,
) -> Result<(), LiveCoreError> {
    match append_verdict(history.corrected@, DENSE_HISTORY_CAPACITY as nat, segment) {
        Err(error) => Err(LiveCoreError::DenseHistory(error)),
        Ok(_) => if history.corrected_quality@.len() == DENSE_HISTORY_CAPACITY {
            Err(LiveCoreError::Queue(QueueError::Capacity))
        } else {
            Ok(())
        },
    }
}

/// What a failed publication leaves behind.
pub open spec fn is_unpublished<P: Payload>(
    history: LiveCoreHistory<P>,
    segment: DenseSegment<P>,
    after: LiveCoreHistory<P>,
) -> bool {
    if append_verdict(history.corrected@, DENSE_HISTORY_CAPACITY as nat, segment) is Err {
        after == history
    } else {
        &&& after.corrected@ == history.corrected@.push(segment)
        &&& after == (LiveCoreHistory { corrected: after.corrected, ..history })
    }
}

impl<P: Payload> LiveCoreHistory<P> {
    /// Publishes a segment with the quality at its ends.
    pub fn publish_segment(
        &mut self,
        segment: DenseSegment<P>,
        start_quality: Option<GnssQualityUpdate<P>>,
        end_quality: Option<GnssQualityUpdate<P>>,
    ) -> (r: Result<(), LiveCoreError>)
        requires
            old(self).wf(),
            segment.wf(),
        ensures
            final(self).wf(),
            r == publication_verdict(*old(self), segment),
            r is Ok ==> is_published(
                *old(self),
                segment,
                (SegmentQuality { start: start_quality, end: end_quality }),
                *final(self),
            ),
            r is Err ==> is_unpublished(*old(self), segment, *final(self)),
    {
        match self.corrected.push(segment) {
            Err(error) => {
                return Err(LiveCoreError::DenseHistory(error));
            },
            Ok(_) => {},
        }
        match self.corrected_quality.push_back(
            SegmentQuality { start: start_quality, end: end_quality },
        ) {
            Err(error) => {
                return Err(LiveCoreError::Queue(error));
            },
            Ok(_) => {},
        }
        self.published_frontier = Some(segment.end.time);
        Ok(())
    }
}

/// Whether `after` holds a finished segment: published at once without
/// smoothing, and retained in the smoothing window otherwise.
pub open spec fn is_retained_or_published<P: Payload>(
    history: LiveCoreHistory<P>,
    lag_ns: i64,
    segment: DenseSegment<P>,
    after: LiveCoreHistory<P>,
) -> bool {
    let nodes = history.smoothing@.nodes;
    &&& after.endpoint_quality == history.current_quality
    &&& if lag_ns == 0 {
        is_published(
            history,
            segment,
            SegmentQuality { start: history.endpoint_quality, end: history.current_quality },
            LiveCoreHistory { endpoint_quality: history.endpoint_quality, ..after },
        )
    } else {
        &&& after.smoothing@ == (RtsWindowModel {
            nodes: nodes.update(
                nodes.len() - 1,
                RtsNode {
                    time: segment.end.time,
                    incoming: Some(segment),
                    endpoint: segment.end,
                    quality: history.current_quality,
                },
            ),
            ..history.smoothing@
        })
        &&& history.smoothing.keeps_slots(after.smoothing)
        &&& after == (LiveCoreHistory {
            smoothing: after.smoothing,
            endpoint_quality: history.current_quality,
            ..history
        })
    }
}

/// Whether `after` is the state and history with the pending segment finished,
/// the frontier committed at its end and the correction handed on.
pub open spec fn is_finalized<P: Payload>(
    state: LiveCoreState<P>,
    history: LiveCoreHistory<P>,
    segment: DenseSegment<P>,
    correction: PredictorCorrection<P>,
    after: LiveCore<P>,
) -> bool {
    let now = state.filter.time;
    let gap_end = state.unreconciled_predictor_gap_end;
    &&& after.state.scheduler@ == (SchedulerModel {
        processed_frontier: Some(now),
        ..state.scheduler@
    })
    &&& after.state == (LiveCoreState {
        scheduler: after.state.scheduler,
        predictor: state.predictor.corrected(correction.hard_reset),
        predictor_estimate: correction.estimate,
        corrected_endpoint: segment.end,
        pending_corrected_segment: None,
        unreconciled_predictor_gap_end: if gap_end is Some && now.ns >= gap_end->0.ns {
            None
        } else {
            gap_end
        },
        next_corrected_segment_id: (state.next_corrected_segment_id + 1) as u64,
        ..state
    })
    &&& is_remainder(history.predicted@, now, after.history.predicted@)
    &&& is_retained_or_published(
        history,
        state.smoothing_lag_ns,
        segment,
        LiveCoreHistory { predicted: history.predicted, ..after.history },
    )
    &&& after.work == Work::<P>::Idle
}

fn decide_finalization<P: Payload>(
    state: &LiveCoreState<P>,
    work: &FinalizationWork<P>,
    numbers: &FinalizationNumbers<P>,
) -> (r: Result<PredictorCorrection<P>, LiveCoreError>)
    ensures
        r == finalization_verdict(*state, *work, *numbers),
{
    match DenseSegment::new_imu_conditioned(
        work.segment.id,
        work.segment.start,
        work.segment.end,
        work.segment.attitude_delta,
        work.segment.degraded,
        work.segment.degraded_input,
        numbers.segment_is_valid,
    ) {
        Err(error) => {
            return Err(LiveCoreError::DenseHistory(error));
        },
        Ok(_) => {},
    }
    if !numbers.prediction_is_available {
        return Err(LiveCoreError::PredictorHistoryUnavailable);
    }
    if work.lag_ns.is_none() {
        return Err(LiveCoreError::Predictor(PredictorError::TimeOverflow));
    }
    if let Some(error) = numbers.correction_error {
        return Err(LiveCoreError::Predictor(error));
    }
    if state.next_corrected_segment_id == u64::MAX {
        return Err(LiveCoreError::SegmentIdOverflow);
    }
    Ok(numbers.correction)
}

impl<P: Payload> LiveCore<P> {
    fn retain_or_publish_segment(&mut self, segment: DenseSegment<P>) -> (r: Result<
        (),
        LiveCoreError,
    >)
        requires
            old(self).settled(),
            old(self).state.pending_corrected_segment is Some,
            segment.wf(),
            segment.start.time == old(self).state.pending_corrected_segment->0.start.time,
            segment.end.time == old(self).state.filter.time,
        ensures
            final(self).state == old(self).state,
            final(self).work == old(self).work,
            final(self).history.wf(),
            r == (if old(self).state.smoothing_lag_ns == 0 {
                publication_verdict(old(self).history, segment)
            } else {
                Ok(())
            }),
            r is Ok ==> is_retained_or_published(
                old(self).history,
                old(self).state.smoothing_lag_ns,
                segment,
                final(self).history,
            ),
            r is Err ==> is_unpublished(old(self).history, segment, final(self).history),
    {
        if self.state.smoothing_lag_ns == 0 {
            match self.history.publish_segment(
                segment,
                self.history.endpoint_quality,
                self.history.current_quality,
            ) {
                Err(error) => {
                    return Err(error);
                },
                Ok(_) => {},
            }
        } else {
            self.history.smoothing.finish_node(segment, self.history.current_quality);
        }
        self.history.endpoint_quality = self.history.current_quality;
        Ok(())
    }

    fn commit_finalization(
        &mut self,
        work: &FinalizationWork<P>,
        correction: PredictorCorrection<P>,
    ) -> (r: Result<(), LiveCoreError>)
        requires
            old(self).wf(),
            old(self).work is Idle,
            finalization_ok(old(self).state, old(self).history, *work),
            work.segment.wf(),
            old(self).state.next_corrected_segment_id < u64::MAX,
        ensures
            final(self).wf(),
            final(self).work is Idle,
            r == (if old(self).state.smoothing_lag_ns == 0 {
                publication_verdict(old(self).history, work.segment)
            } else {
                Ok(())
            }),
            r is Ok ==> is_finalized(
                old(self).state,
                old(self).history,
                work.segment,
                correction,
                *final(self),
            ),
            r is Err ==> final(self).state == old(self).state && is_unpublished(
                old(self).history,
                work.segment,
                final(self).history,
            ),
    {
        reveal(LiveCore::wf);
        let ghost before = *self;
        match self.retain_or_publish_segment(work.segment) {
            Err(error) => {
                proof {
                    failing_keeps_settled(before, work.segment, *self);
                }
                return Err(error);
            },
            Ok(_) => {},
        }
        let ghost retained = self.history;
        let now = self.state.filter.time;
        proof {
            before.state.scheduler.wf_facts();
        }
        match self.state.scheduler.commit_frontier(now) {
            Err(error) => {
                return Err(LiveCoreError::Scheduler(error));
            },
            Ok(_) => {},
        }
        if let Some(gap_end) = self.state.unreconciled_predictor_gap_end {
            if now.ns >= gap_end.ns {
                self.state.unreconciled_predictor_gap_end = None;
            }
        }
        let discarded: usize = self.history.predicted.discard_ending_at_or_before(now);
        assert(is_remainder(before.history.predicted@, now, self.history.predicted@)) by {
            let old_segments = before.history.predicted@;
            assert(self.history.predicted@ == old_segments.subrange(
                discarded as int,
                old_segments.len() as int,
            ));
        }
        self.state.predictor.note_correction(correction.hard_reset);
        self.state.predictor_estimate = correction.estimate;
        self.state.corrected_endpoint = work.segment.end;
        self.state.pending_corrected_segment = None;
        self.state.next_corrected_segment_id = self.state.next_corrected_segment_id + 1;
        proof {
            assert(LiveCoreHistory { predicted: before.history.predicted, ..self.history }
                == retained);
            finalizing_keeps_settled(before, *work, correction, *self);
        }
        Ok(())
    }
}

impl<P: Payload> LiveCore<P> {
    /// Completes a finalization. A refused segment stays pending.
    pub fn complete_finalization(
        &mut self,
        numbers: FinalizationNumbers<P>,
        report: &mut DrainReport<P>,
    ) -> (r: Result<(), LiveCoreError>)
        requires
            old(self).wf(),
        ensures
            final(self).wf(),
            is_finalization_completed(
                *old(self),
                numbers,
                *old(report),
                r,
                *final(report),
                *final(self),
            ),
    {
        let work = match self.take_work() {
            Work::Finalize(work) => work,
            _ => {
                return Err(LiveCoreError::InternalInvariant);
            },
        };
        let correction = match decide_finalization(&self.state, &work, &numbers) {
            Err(error) => {
                return Err(error);
            },
            Ok(correction) => correction,
        };
        proof {
            finalization_under_way(*old(self), work);
        }
        match self.commit_finalization(&work, correction) {
            Err(error) => {
                return Err(error);
            },
            Ok(_) => {},
        }
        if self.state.smoothing_lag_ns == 0 {
            report.counters.finalized_segments =
            saturating_count(report.counters.finalized_segments, 1);
        }
        report.counters.frontier_commits = saturating_count(report.counters.frontier_commits, 1);
        Ok(())
    }
}

/// Whether `answer`, `after_report` and `after` are what became of a finalization
/// under way.
pub open spec fn is_finalization_completed<P: Payload>(
    before: LiveCore<P>,
    numbers: FinalizationNumbers<P>,
    report: DrainReport<P>,
    answer: Result<(), LiveCoreError>,
    after_report: DrainReport<P>,
    after: LiveCore<P>,
) -> bool {
    &&& after.work is Idle
    &&& answer is Err ==> after.state == before.state && after_report == report
    &&& match before.work {
        Work::Finalize(work) => match finalization_verdict(before.state, work, numbers) {
            Err(error) => {
                &&& answer == Err::<(), LiveCoreError>(error)
                &&& after.history == before.history
            },
            Ok(correction) => {
                &&& answer == (if before.state.smoothing_lag_ns == 0 {
                    publication_verdict(before.history, work.segment)
                } else {
                    Ok(())
                })
                &&& answer is Err ==> is_unpublished(before.history, work.segment, after.history)
                &&& answer is Ok ==> is_finalized(
                    before.state,
                    before.history,
                    work.segment,
                    correction,
                    after,
                )
                &&& answer is Ok ==> after_report == (DrainReport {
                    counters: finalization_counted(
                        report.counters,
                        before.state.smoothing_lag_ns,
                    ),
                    ..report
                })
            },
        },
        _ => {
            &&& answer == Err::<(), LiveCoreError>(LiveCoreError::InternalInvariant)
            &&& after.history == before.history
        },
    }
}

/// The counting of one finalization. With smoothing, a segment counts when it
/// is published.
pub open spec fn finalization_counted(counters: DrainCounters, lag_ns: i64) -> DrainCounters {
    DrainCounters {
        finalized_segments: if lag_ns == 0 {
            counted(counters.finalized_segments, 1)
        } else {
            counters.finalized_segments
        },
        frontier_commits: counted(counters.frontier_commits, 1),
        ..counters
    }
}

proof fn finalization_under_way<P: Payload>(core: LiveCore<P>, work: FinalizationWork<P>)
    requires
        core.wf(),
        core.work == Work::Finalize(work),
    ensures
        finalization_ok(core.state, core.history, work),
{
    reveal(LiveCore::wf);
}

proof fn failing_keeps_settled<P: Payload>(
    before: LiveCore<P>,
    segment: DenseSegment<P>,
    after: LiveCore<P>,
)
    requires
        before.settled(),
        after.history.wf(),
        after.state == before.state,
        publication_verdict(before.history, segment) is Err,
        is_unpublished(before.history, segment, after.history),
    ensures
        after.settled(),
{
    assert(evidence(after.state, after.history) == evidence(before.state, before.history));
}

proof fn finalizing_keeps_settled<P: Payload>(
    before: LiveCore<P>,
    work: FinalizationWork<P>,
    correction: PredictorCorrection<P>,
    after: LiveCore<P>,
)
    requires
        before.settled(),
        finalization_ok(before.state, before.history, work),
        before.state.next_corrected_segment_id < u64::MAX,
        after.state.scheduler.wf(),
        after.history.wf(),
        before.state.smoothing_lag_ns == 0 ==> publication_verdict(
            before.history,
            work.segment,
        ) is Ok,
        is_finalized(before.state, before.history, work.segment, correction, after),
    ensures
        after.settled(),
{
    let now = before.state.filter.time;
    before.state.scheduler.wf_facts();
    before.history.predicted.wf_facts();
    before.history.smoothing.wf_facts();
    before.history.corrected_quality.wf_facts();
    assert(after.state.queue() == before.state.queue());
    assert forall|i: int| 0 <= i < after.state.queue().len() implies (
    #[trigger] after.state.queue()[i]).key.time.ns > now.ns by {
        assert(before.state.queue()[i].key.time.ns >= now.ns);
        assert(before.state.queue()[0].key.time.ns >= now.ns);
        if i > 0 {
            assert(crate::order::key_lt(before.state.queue()[0].key, before.state.queue()[i].key));
        }
    }
    assert(evidence(after.state, after.history) == evidence(before.state, before.history));
    assert(crate::live_core::state::predicted_ok(after.state, after.history.predicted@)) by {
        let old_segments = before.history.predicted@;
        let new_segments = after.history.predicted@;
        let k = choose|k: int|
            0 <= k <= old_segments.len() && new_segments == #[trigger] old_segments.subrange(
                k,
                old_segments.len() as int,
            ) && (forall|i: int|
                0 <= i < k ==> (#[trigger] old_segments[i]).end.time.ns <= now.ns) && (forall|
                i: int,
            |
                k <= i < old_segments.len() ==> (#[trigger] old_segments[i]).end.time.ns > now.ns);
        if new_segments.len() > 0 {
            assert(new_segments[0] == old_segments[k]);
            assert(new_segments.last() == old_segments.last());
            if k > 0 {
                assert(old_segments[k - 1].end.time == old_segments[k].start.time);
            }
        } else if old_segments.len() > 0 {
            assert(old_segments[old_segments.len() - 1].end.time.ns <= now.ns);
        }
    }
}

/// A finished segment is kept whole: published at once without smoothing, and in the
/// newest node of the window otherwise. Identity, ends, attitude increment and
/// degradation flags are those of the work that was handed out.
pub proof fn finished_segment_is_kept_whole<P: Payload>(
    core: &mut LiveCore<P>,
    work: FinalizationWork<P>,
    numbers: FinalizationNumbers<P>,
    report: &mut DrainReport<P>,
)
    requires
        call_ensures(
            LiveCore::<P>::complete_finalization,
            (core, numbers, report),
            Ok::<(), LiveCoreError>(()),
        ),
        old(core).work == Work::Finalize(work),
        old(core).state.smoothing_lag_ns != 0 ==> old(core).history.smoothing@.nodes.len() > 0,
    ensures
        ({
            let before = old(core).history;
            let after = final(core).history;
            if old(core).state.smoothing_lag_ns == 0 {
                &&& after.corrected@.len() == before.corrected@.len() + 1
                &&& after.corrected@.last() == work.segment
                &&& forall|i: int|
                    0 <= i < before.corrected@.len() ==> #[trigger] after.corrected@[i]
                        == before.corrected@[i]
                &&& after.corrected_quality@.last().start == before.endpoint_quality
                &&& after.corrected_quality@.last().end == before.current_quality
                &&& after.published_frontier == Some(work.segment.end.time)
                &&& after.smoothing == before.smoothing
            } else {
                let nodes = after.smoothing@.nodes;
                &&& nodes.len() == before.smoothing@.nodes.len()
                &&& nodes.last().incoming == Some(work.segment)
                &&& nodes.last().endpoint == work.segment.end
                &&& nodes.last().quality == before.current_quality
                &&& forall|i: int|
                    0 <= i < nodes.len() - 1 ==> #[trigger] nodes[i] == before.smoothing@.nodes[i]
                &&& after.corrected == before.corrected
                &&& after.published_frontier == before.published_frontier
            }
        }),
        final(core).history.endpoint_quality == old(core).history.current_quality,
        final(core).history.current_quality == old(core).history.current_quality,
{
}

/// With a finished segment the corrected endpoint and the processed frontier move to
/// the filter's epoch, the predictor takes over the correction, the identifier is
/// used up, and nothing is pending any more. Predicted segments that have ended by
/// then are gone, and later ones stay.
pub proof fn finalization_moves_the_frontier<P: Payload>(
    core: &mut LiveCore<P>,
    work: FinalizationWork<P>,
    numbers: FinalizationNumbers<P>,
    report: &mut DrainReport<P>,
    predicted: DenseSegment<P>,
)
    requires
        call_ensures(
            LiveCore::<P>::complete_finalization,
            (core, numbers, report),
            Ok::<(), LiveCoreError>(()),
        ),
        old(core).work == Work::Finalize(work),
    ensures
        final(core).state.frontier() == Some(old(core).state.filter.time),
        final(core).state.corrected_endpoint == work.segment.end,
        final(core).state.pending_corrected_segment is None,
        final(core).state.next_corrected_segment_id == old(core).state.next_corrected_segment_id
            + 1,
        final(core).state.predictor_estimate == numbers.correction.estimate,
        final(core).state.filter == old(core).state.filter,
        final(core).state.filter_values == old(core).state.filter_values,
        final(core).state.queue() == old(core).state.queue(),
        final(core).history.predicted@.contains(predicted) <==> old(
            core,
        ).history.predicted@.contains(predicted) && predicted.end.time.ns
            > old(core).state.filter.time.ns,
        match old(core).state.unreconciled_predictor_gap_end {
            None => final(core).state.unreconciled_predictor_gap_end is None,
            Some(end) => final(core).state.unreconciled_predictor_gap_end == (if end.ns > old(
                core,
            ).state.filter.time.ns {
                Some(end)
            } else {
                None
            }),
        },
        old(report).counters.frontier_commits < u16::MAX ==> final(report).counters.frontier_commits
            == old(report).counters.frontier_commits + 1,
        old(report).counters.finalized_segments < u16::MAX && old(core).state.smoothing_lag_ns == 0
            ==> final(report).counters.finalized_segments == old(report).counters.finalized_segments
            + 1,
        old(core).state.smoothing_lag_ns != 0 ==> final(report).counters.finalized_segments
            == old(report).counters.finalized_segments,
        numbers.segment_is_valid && numbers.prediction_is_available,
        numbers.correction_error is None && work.lag_ns is Some,
{
    let before = old(core).history.predicted@;
    let after = final(core).history.predicted@;
    let now = old(core).state.filter.time;
    let k = choose|k: int|
        0 <= k <= before.len() && after == #[trigger] before.subrange(k, before.len() as int) && (
        forall|i: int| 0 <= i < k ==> (#[trigger] before[i]).end.time.ns <= now.ns) && (forall|
            i: int,
        |
            k <= i < before.len() ==> (#[trigger] before[i]).end.time.ns > now.ns);
    if before.contains(predicted) && predicted.end.time.ns > now.ns {
        let i = choose|i: int| 0 <= i < before.len() && before[i] == predicted;
        assert(after[i - k] == predicted);
    }
    if after.contains(predicted) {
        let i = choose|i: int| 0 <= i < after.len() && after[i] == predicted;
        assert(before[i + k] == predicted);
    }
}

/// A refused finalization can be tried again: the segment stays pending, and the
/// frontier, the filter and the predictor stay where they were.
pub proof fn refused_finalization_stays_pending<P: Payload>(
    core: &mut LiveCore<P>,
    numbers: FinalizationNumbers<P>,
    report: &mut DrainReport<P>,
    error: LiveCoreError,
)
    requires
        call_ensures(
            LiveCore::<P>::complete_finalization,
            (core, numbers, report),
            Err::<(), LiveCoreError>(error),
        ),
    ensures
        final(core).state == old(core).state,
        final(core).work is Idle,
        *final(report) == *old(report),
        final(core).history.predicted == old(core).history.predicted,
        final(core).history.smoothing == old(core).history.smoothing,
        final(core).history.published_frontier == old(core).history.published_frontier,
        old(core).work matches Work::Finalize(work) && work.segment.wf()
            && numbers.segment_is_valid && !numbers.prediction_is_available ==> error
            == LiveCoreError::PredictorHistoryUnavailable,
        old(core).work matches Work::Finalize(work) && work.segment.wf()
            && numbers.segment_is_valid && numbers.prediction_is_available && work.lag_ns is Some
            && numbers.correction_error is Some ==> error == LiveCoreError::Predictor(
            numbers.correction_error->0,
        ),
        old(core).work is Finalize && numbers.segment_is_valid && numbers.prediction_is_available
            && numbers.correction_error is None && old(core).work->Finalize_0.lag_ns is Some
            && old(core).work->Finalize_0.segment.wf() && old(core).state.next_corrected_segment_id
            < u64::MAX ==> old(core).state.smoothing_lag_ns == 0,
{
}

/// A segment that is published joins the output with the quality at both of its ends, and
/// its end is then the published frontier. One that finds no place changes nothing; one
/// whose quality finds none is stored without moving the frontier.
pub proof fn publishing_joins_the_output<P: Payload>(
    history: &mut LiveCoreHistory<P>,
    segment: DenseSegment<P>,
    start_quality: Option<GnssQualityUpdate<P>>,
    end_quality: Option<GnssQualityUpdate<P>>,
    answer: Result<(), LiveCoreError>,
)
    requires
        old(history).wf(),
        call_ensures(
            LiveCoreHistory::<P>::publish_segment,
            (history, segment, start_quality, end_quality),
            answer,
        ),
    ensures
        ({
            let before = old(history).corrected@;
            let after = final(history).corrected@;
            let qualities = final(history).corrected_quality@;
            let follows = before.len() > 0 ==> before.last().end.time == segment.start.time
                && before.last().id < segment.id;
            let fits = before.len() < 208 && follows;
            &&& answer is Ok <==> fits && old(history).corrected_quality@.len() < 208
            &&& fits ==> after.len() == before.len() + 1 && after.last() == segment
            &&& !fits ==> *final(history) == *old(history)
            &&& answer is Ok ==> qualities.len() == old(history).corrected_quality@.len() + 1
                && qualities.last().start == start_quality && qualities.last().end == end_quality
            &&& answer is Ok ==> final(history).published_frontier == Some(segment.end.time)
            &&& answer is Err ==> final(history).published_frontier
                == old(history).published_frontier
            &&& final(history).predicted == old(history).predicted && final(history).imu
                == old(history).imu && final(history).smoothing == old(history).smoothing
                && final(history).current_quality == old(history).current_quality
        }),
{
    old(history).corrected.wf_facts();
    old(history).corrected_quality.wf_facts();
}

/// The predictor is told of every correction: it stands where it stood, and counts a reset
/// where one was needed.
pub proof fn finalization_corrects_the_predictor<P: Payload>(
    core: &mut LiveCore<P>,
    numbers: FinalizationNumbers<P>,
    report: &mut DrainReport<P>,
)
    requires
        old(core).work is Finalize,
        call_ensures(
            LiveCore::<P>::complete_finalization,
            (core, numbers, report),
            Ok::<(), LiveCoreError>(()),
        ),
    ensures
        final(core).state.predictor.time == old(core).state.predictor.time,
        final(core).state.predictor.degraded_input == old(core).state.predictor.degraded_input,
        final(core).state.predictor.tracking_degraded == numbers.correction.hard_reset,
        numbers.correction.hard_reset && old(core).state.predictor.hard_resets < u32::MAX ==> final(core).state.predictor.hard_resets == old(core).state.predictor.hard_resets + 1,
        !numbers.correction.hard_reset ==> final(core).state.predictor.hard_resets
            == old(core).state.predictor.hard_resets,
        final(core).state.predictor_endpoint == old(core).state.predictor_endpoint,
        final(core).state.predictor_batch == old(core).state.predictor_batch,
        final(core).history.imu == old(core).history.imu,
        final(core).history.active_imu_sample == old(core).history.active_imu_sample,
{
}

/// A segment stays pending for its values first, then for want of a prediction, then for a
/// lag out of range, then for what the predictor says, then for want of identifiers.
pub proof fn finalizations_fail_for_a_reason<P: Payload>(
    core: &mut LiveCore<P>,
    work: FinalizationWork<P>,
    numbers: FinalizationNumbers<P>,
    report: &mut DrainReport<P>,
    answer: Result<(), LiveCoreError>,
)
    requires
        old(core).work == Work::Finalize(work),
        call_ensures(LiveCore::<P>::complete_finalization, (core, numbers, report), answer),
    ensures
        ({
            let duration = work.segment.end.time.ns - work.segment.start.time.ns;
            let valid = numbers.segment_is_valid && 0 < duration <= i64::MAX;
            let predicted = valid && numbers.prediction_is_available;
            let timed = predicted && work.lag_ns is Some;
            let corrected = timed && numbers.correction_error is None;
            let numbered = old(core).state.next_corrected_segment_id < u64::MAX;
            &&& !valid ==> answer is Err && answer->Err_0 is DenseHistory
            &&& valid && !predicted ==> answer == Err::<(), LiveCoreError>(
                LiveCoreError::PredictorHistoryUnavailable,
            )
            &&& predicted && !timed ==> answer == Err::<(), LiveCoreError>(
                LiveCoreError::Predictor(PredictorError::TimeOverflow),
            )
            &&& timed && !corrected ==> answer == Err::<(), LiveCoreError>(
                LiveCoreError::Predictor(numbers.correction_error->0),
            )
            &&& corrected && !numbered ==> answer == Err::<(), LiveCoreError>(
                LiveCoreError::SegmentIdOverflow,
            )
            &&& corrected && numbered && old(core).state.smoothing_lag_ns != 0 ==> answer is Ok
        }),
{
}

} // verus!
