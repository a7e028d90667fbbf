//! Finishing the stream, and what the core shows of itself.
use vstd::prelude::*;

use crate::capacity::{DENSE_HISTORY_CAPACITY, IMU_HISTORY_CAPACITY, MEASUREMENT_QUEUE_CAPACITY};
use crate::dense_history::{DenseEndpoint, DenseHistory, DenseSegment};
use crate::dense_history::owns;
use crate::error::{DenseHistoryError, LiveCoreError, PreintegrationError};
use crate::gnss::GnssObservation;
use crate::imu::ImuInterval;
use crate::live_core::decision::drained;
use crate::live_core::report::FinishReport;
use crate::live_core::state::{LiveCore, LiveCoreHistory, LiveCoreState};
use crate::live_core::state::evidence;
use crate::live_core::work::Work;
use crate::payload::Payload;
use crate::predictor::{PredictorLedger, PredictorNumbers};
use crate::preintegration::BatchLedger;
use crate::ring::FixedRing;
use crate::scheduler::{FrontierScheduler, SchedulerError};
use crate::scheduler::SchedulerModel;
use crate::time::SessionTime;

verus! {

/// The numbers of the predictor batch that is open when the input ends.
#[derive(Clone, Copy, Debug, PartialEq)]
pub struct OpenBatch<P: Payload> {
    pub batch_is_finite: bool,
    pub predictor: PredictorNumbers,
    /// The predictor after the batch.
    pub estimate: P::Estimate,
    pub mean_specific_force_b: P::Vector,
    pub attitude_delta: P::Vector,
    /// The verdict on the values of the last segment.
    pub segment_is_valid: bool,
    pub biases_are_valid: bool,
}

/// Why the predictor cannot be carried through the open batch, if it cannot.
pub open spec fn open_batch_verdict<P: Payload>(
    state: LiveCoreState<P>,
    open: OpenBatch<P>,
) -> Result<(), LiveCoreError> {
    let batch = state.predictor_batch;
    if batch.poisoned || !open.batch_is_finite {
        Err(LiveCoreError::Preintegration(PreintegrationError::NonFinite))
    } else {
        match state.predictor.propagation_verdict(batch.shape(), open.predictor) {
            Err(error) => Err(LiveCoreError::Predictor(error)),
            Ok(_) => Ok(()),
        }
    }
}

/// The last predicted segment.
pub open spec fn last_segment<P: Payload>(
    state: LiveCoreState<P>,
    open: OpenBatch<P>,
) -> DenseSegment<P> {
    DenseSegment {
        id: state.next_predictor_segment_id,
        start: state.predictor_endpoint,
        end: DenseEndpoint {
            time: state.predictor_batch.end,
            estimate: open.estimate,
            specific_force_b: open.mean_specific_force_b,
            covariance: state.predictor_endpoint.covariance,
        },
        attitude_delta: open.attitude_delta,
        degraded: state.predictor_batch.degraded,
        degraded_input: state.predictor_batch.degraded_input,
    }
}

/// Why the input cannot end, if it cannot. An open batch has to come with its
/// numbers.
pub open spec fn finish_verdict<P: Payload>(
    state: LiveCoreState<P>,
    history: LiveCoreHistory<P>,
    open: Option<OpenBatch<P>>,
) -> Result<(), LiveCoreError> {
    if state.scheduler@.finishing {
        Err(LiveCoreError::InputClosed)
    } else if state.scheduler@.latest_trusted_imu is None {
        Err(LiveCoreError::Scheduler(SchedulerError::NoTrustedImu))
    } else if state.predictor_batch.sample_count == 0 {
        Ok(())
    } else if open is None {
        Err(LiveCoreError::InternalInvariant)
    } else if open_batch_verdict(state, open->0) is Err {
        open_batch_verdict(state, open->0)
    } else {
        let segment = last_segment(state, open->0);
        match DenseSegment::<P>::segment_verdict(
            segment.start.time,
            segment.end.time,
            open->0.segment_is_valid,
        ) {
            Err(error) => Err(LiveCoreError::DenseHistory(error)),
            Ok(_) => if state.next_predictor_segment_id == u64::MAX {
                Err(LiveCoreError::SegmentIdOverflow)
            } else if history.predicted@.len() == DENSE_HISTORY_CAPACITY {
                Err(LiveCoreError::PredictorHistoryFull)
            } else if !open->0.biases_are_valid {
                Err(LiveCoreError::Preintegration(PreintegrationError::NonFinite))
            } else {
                Ok(())
            },
        }
    }
}

/// Whether `after` is the state and history after the end of the input.
pub open spec fn is_finished<P: Payload>(
    state: LiveCoreState<P>,
    history: LiveCoreHistory<P>,
    open: Option<OpenBatch<P>>,
    after: LiveCore<P>,
) -> bool {
    let terminal = state.scheduler@.latest_trusted_imu->0;
    &&& after.state.scheduler@ == (SchedulerModel { finishing: true, ..state.scheduler@ })
    &&& after.work == Work::<P>::Idle
    &&& if state.predictor_batch.sample_count == 0 {
        &&& after.state == (LiveCoreState { scheduler: after.state.scheduler, ..state })
        &&& after.history == history
    } else {
        let segment = last_segment(state, open->0);
        &&& after.state == (LiveCoreState {
            scheduler: after.state.scheduler,
            predictor: PredictorLedger {
                time: terminal,
                degraded_input: state.predictor_batch.degraded_input,
                ..state.predictor
            },
            predictor_estimate: open->0.estimate,
            predictor_endpoint: segment.end,
            next_predictor_segment_id: (state.next_predictor_segment_id + 1) as u64,
            predictor_batch: BatchLedger::empty_at(terminal),
            ..state
        })
        &&& after.history.predicted@ == history.predicted@.push(segment)
        &&& after.history == (LiveCoreHistory { predicted: after.history.predicted, ..history })
    }
}

impl<P: Payload> LiveCore<P> {
    /// Ends the input. A partial predictor batch becomes the last predicted
    /// segment; nothing is extrapolated beyond the last trusted instant.
    pub fn finish(&mut self, open: Option<OpenBatch<P>>) -> (r: Result<FinishReport, LiveCoreError>)
        requires
            old(self).wf(),
        ensures
            final(self).wf(),
            match finish_verdict(old(self).state, old(self).history, open) {
                Err(error) => {
                    &&& r == Err::<FinishReport, LiveCoreError>(error)
                    &&& *final(self) == old(self).with_work(Work::Idle)
                },
                Ok(_) => {
                    &&& r == Ok::<FinishReport, LiveCoreError>(
                        FinishReport {
                            terminal_time: old(self).state.scheduler@.latest_trusted_imu->0,
                            predictor_segment_flushed: old(self).state.predictor_batch.sample_count
                                != 0,
                        },
                    )
                    &&& is_finished(old(self).state, old(self).history, open, *final(self))
                },
            },
    {
        let abandoned = self.take_work();
        let ghost before = *self;
        proof {
            before.wf_is_settled();
        }
        if self.state.scheduler.is_finishing() {
            return Err(LiveCoreError::InputClosed);
        }
        let terminal_time = match self.state.scheduler.latest_trusted_imu() {
            None => {
                return Err(LiveCoreError::Scheduler(SchedulerError::NoTrustedImu));
            },
            Some(latest) => latest,
        };
        let flushed = !self.state.predictor_batch.is_empty();
        if flushed {
            match self.flush_predictor(terminal_time, open) {
                Err(error) => {
                    return Err(error);
                },
                Ok(_) => {},
            }
        }
        match self.state.scheduler.finish() {
            Err(error) => {
                return Err(LiveCoreError::Scheduler(error));
            },
            Ok(_) => {},
        }
        proof {
            finishing_keeps_settled(before, open, *self);
            self.idle_is_wf();
        }
        Ok(FinishReport { terminal_time, predictor_segment_flushed: flushed })
    }

    fn flush_predictor(&mut self, terminal_time: SessionTime, open: Option<OpenBatch<P>>) -> (r:
        Result<(), LiveCoreError>)
        requires
            old(self).settled(),
            old(self).work is Idle,
            old(self).state.predictor_batch.sample_count != 0,
            !old(self).state.scheduler@.finishing,
            old(self).state.scheduler@.latest_trusted_imu == Some(terminal_time),
        ensures
            r == finish_verdict(old(self).state, old(self).history, open),
            r is Err ==> *final(self) == *old(self),
            r is Ok ==> ({
                let state = old(self).state;
                let segment = last_segment(state, open->0);
                &&& final(self).state == (LiveCoreState {
                    predictor: PredictorLedger {
                        time: terminal_time,
                        degraded_input: state.predictor_batch.degraded_input,
                        ..state.predictor
                    },
                    predictor_estimate: open->0.estimate,
                    predictor_endpoint: segment.end,
                    next_predictor_segment_id: (state.next_predictor_segment_id + 1) as u64,
                    predictor_batch: BatchLedger::empty_at(terminal_time),
                    ..state
                })
                &&& final(self).history.predicted.wf()
                &&& final(self).history.predicted@ == old(self).history.predicted@.push(segment)
                &&& final(self).history == (LiveCoreHistory {
                    predicted: final(self).history.predicted,
                    ..old(self).history
                })
                &&& final(self).work is Idle
            }),
    {
        let open = match open {
            None => {
                return Err(LiveCoreError::InternalInvariant);
            },
            Some(open) => open,
        };
        let shape = match self.state.predictor_batch.batch(open.batch_is_finite) {
            Err(error) => {
                return Err(LiveCoreError::Preintegration(error));
            },
            Ok(shape) => shape,
        };
        let mut predictor = self.state.predictor;
        match predictor.propagate(&shape, open.predictor) {
            Err(error) => {
                return Err(LiveCoreError::Predictor(error));
            },
            Ok(_) => {},
        }
        let end = DenseEndpoint {
            time: shape.end,
            estimate: open.estimate,
            specific_force_b: open.mean_specific_force_b,
            covariance: self.state.predictor_endpoint.covariance,
        };
        let segment = match DenseSegment::new_imu_conditioned(
            self.state.next_predictor_segment_id,
            self.state.predictor_endpoint,
            end,
            open.attitude_delta,
            shape.degraded,
            shape.degraded_input,
            open.segment_is_valid,
        ) {
            Err(error) => {
                return Err(LiveCoreError::DenseHistory(error));
            },
            Ok(segment) => segment,
        };
        if self.state.next_predictor_segment_id == u64::MAX {
            return Err(LiveCoreError::SegmentIdOverflow);
        }
        if self.history.predicted.available() == 0 {
            return Err(LiveCoreError::PredictorHistoryFull);
        }
        let batch = match BatchLedger::new(terminal_time, open.biases_are_valid) {
            Err(error) => {
                return Err(LiveCoreError::Preintegration(error));
            },
            Ok(batch) => batch,
        };
        match self.history.predicted.push(segment) {
            Err(error) => {
                return Err(LiveCoreError::DenseHistory(error));
            },
            Ok(_) => {},
        }
        self.state.predictor = predictor;
        self.state.predictor_estimate = open.estimate;
        self.state.predictor_endpoint = end;
        self.state.next_predictor_segment_id = self.state.next_predictor_segment_id + 1;
        self.state.predictor_batch = batch;
        Ok(())
    }
}

proof fn finishing_keeps_settled<P: Payload>(
    before: LiveCore<P>,
    open: Option<OpenBatch<P>>,
    after: LiveCore<P>,
)
    requires
        before.settled(),
        finish_verdict(before.state, before.history, open) is Ok,
        after.state.scheduler.wf(),
        after.history.wf(),
        is_finished(before.state, before.history, open, after),
    ensures
        after.settled(),
{
    before.state.scheduler.wf_facts();
    before.history.predicted.wf_facts();
    assert(after.state.queue() == before.state.queue());
    assert(evidence(after.state, after.history) == evidence(before.state, before.history));
    assert(after.state.evidence_end() == before.state.evidence_end());
}

/// Whether `after` is `before` without its oldest published segment, which is
/// `segment`.
pub open spec fn is_taken<P: Payload>(
    before: LiveCore<P>,
    segment: Option<DenseSegment<P>>,
    after: LiveCore<P>,
) -> bool {
    let unread = before.history.corrected@;
    &&& after.work is Idle
    &&& after.state == before.state
    &&& after.history == (LiveCoreHistory { corrected: after.history.corrected, ..before.history })
    &&& if unread.len() == 0 {
        segment is None && after.history.corrected@ == unread
    } else {
        &&& segment == Some(unread[0])
        &&& after.history.corrected@ == unread.subrange(1, unread.len() as int)
    }
}

/// How much room the core takes.
#[derive(Clone, Copy, Debug, PartialEq, Eq, Structural)]
pub struct LiveCoreSizes {
    pub core_bytes: usize,
    pub core_alignment: usize,
    pub history_bytes: usize,
    pub history_alignment: usize,
    pub queued_measurement_bytes: usize,
    pub imu_history_bytes: usize,
    pub dense_history_bytes_each: usize,
}

impl LiveCoreSizes {
    /// The sizes with the values of `P`.
    pub fn compiled<P: Payload>() -> (sizes: Self)
        ensures
            sizes.core_bytes == vstd::layout::size_of::<LiveCoreState<P>>(),
            sizes.core_alignment == vstd::layout::align_of::<LiveCoreState<P>>(),
            sizes.history_bytes == vstd::layout::size_of::<LiveCoreHistory<P>>(),
            sizes.history_alignment == vstd::layout::align_of::<LiveCoreHistory<P>>(),
            sizes.queued_measurement_bytes == vstd::layout::size_of::<
                FrontierScheduler<GnssObservation<P>, MEASUREMENT_QUEUE_CAPACITY>,
            >(),
            sizes.imu_history_bytes == vstd::layout::size_of::<
                FixedRing<ImuInterval<P>, IMU_HISTORY_CAPACITY>,
            >(),
            sizes.dense_history_bytes_each == vstd::layout::size_of::<
                DenseHistory<P, DENSE_HISTORY_CAPACITY>,
            >(),
    {
        LiveCoreSizes {
            core_bytes: core::mem::size_of::<LiveCoreState<P>>(),
            core_alignment: core::mem::align_of::<LiveCoreState<P>>(),
            history_bytes: core::mem::size_of::<LiveCoreHistory<P>>(),
            history_alignment: core::mem::align_of::<LiveCoreHistory<P>>(),
            queued_measurement_bytes: core::mem::size_of::<
                FrontierScheduler<GnssObservation<P>, MEASUREMENT_QUEUE_CAPACITY>,
            >(),
            imu_history_bytes: core::mem::size_of::<
                FixedRing<ImuInterval<P>, IMU_HISTORY_CAPACITY>,
            >(),
            dense_history_bytes_each: core::mem::size_of::<
                DenseHistory<P, DENSE_HISTORY_CAPACITY>,
            >(),
        }
    }
}

/// A summary of the core.
#[derive(Clone, Copy, Debug, PartialEq, Eq, Structural)]
pub struct LiveCoreStatus {
    /// Through which all observations have been processed.
    pub corrected_frontier: Option<SessionTime>,
    /// Through which corrected segments are immutable.
    pub published_frontier: Option<SessionTime>,
    pub corrected_state_time: SessionTime,
    pub present_input_time: Option<SessionTime>,
    pub queued_measurements: usize,
    pub retained_imu_intervals: usize,
    pub retained_corrected_segments: usize,
    pub retained_predictor_segments: usize,
    pub finishing: bool,
    pub drained: bool,
    pub predictor_tracking_degraded: bool,
    pub predictor_gap: bool,
    pub predictor_degraded_input: bool,
}

impl<P: Payload> LiveCore<P> {
    pub fn status(&self) -> (r: Result<LiveCoreStatus, LiveCoreError>)
        requires
            self.wf(),
        ensures
            ({
                let scheduler = self.state.scheduler@;
                if scheduler.finishing && self.state.pending_corrected_segment is None
                    && scheduler.target() is Err {
                    r == Err::<LiveCoreStatus, LiveCoreError>(
                        LiveCoreError::Scheduler(scheduler.target()->Err_0),
                    )
                } else {
                    &&& r is Ok
                    &&& r->Ok_0.corrected_frontier == scheduler.processed_frontier
                    &&& r->Ok_0.published_frontier == self.history.published_frontier
                    &&& r->Ok_0.corrected_state_time == self.state.filter.time
                    &&& r->Ok_0.present_input_time == scheduler.latest_trusted_imu
                    &&& r->Ok_0.queued_measurements == scheduler.queue.len()
                    &&& r->Ok_0.retained_imu_intervals == evidence(
                        self.state,
                        self.history,
                    ).len()
                    &&& r->Ok_0.retained_corrected_segments == self.history.corrected@.len()
                    &&& r->Ok_0.retained_predictor_segments == self.history.predicted@.len()
                    &&& r->Ok_0.finishing == scheduler.finishing
                    &&& r->Ok_0.drained == drained(self.state, self.history)
                    &&& r->Ok_0.predictor_tracking_degraded
                        == self.state.predictor.tracking_degraded
                    &&& r->Ok_0.predictor_gap == self.state.unreconciled_predictor_gap_end is Some
                    &&& r->Ok_0.predictor_degraded_input == self.state.predictor.degraded_input
                }
            }),
    {
        proof {
            self.wf_is_settled();
            self.history.imu.wf_facts();
        }
        let drained = match self.is_drained() {
            Err(error) => {
                return Err(error);
            },
            Ok(drained) => drained,
        };
        let cut: usize = if self.state.corrected_pending_interval.is_some() {
            1
        } else {
            0
        };
        Ok(
            LiveCoreStatus {
                corrected_frontier: self.state.scheduler.processed_frontier(),
                published_frontier: self.history.published_frontier,
                corrected_state_time: self.state.filter.time,
                present_input_time: self.state.scheduler.latest_trusted_imu(),
                queued_measurements: self.state.scheduler.queued_measurements(),
                retained_imu_intervals: self.history.imu.len() + cut,
                retained_corrected_segments: self.history.corrected.len(),
                retained_predictor_segments: self.history.predicted.len(),
                finishing: self.state.scheduler.is_finishing(),
                drained,
                predictor_tracking_degraded: self.state.predictor.tracking_degraded,
                predictor_gap: self.state.unreconciled_predictor_gap_end.is_some(),
                predictor_degraded_input: self.state.predictor.degraded_input,
            },
        )
    }

    /// The corrected state at the filter's epoch.
    pub fn corrected_state(&self) -> (state: (SessionTime, P::Estimate))
        ensures
            state == (self.state.filter.time, self.state.filter_values.estimate),
    {
        (self.state.filter.time, self.state.filter_values.estimate)
    }

    /// The uncorrected state at the newest trusted instant. `open` holds the
    /// numbers of the open predictor batch, if there is one.
    pub fn present_state(&self, open: Option<OpenBatch<P>>) -> (r: Result<
        (SessionTime, P::Estimate),
        LiveCoreError,
    >)
        ensures
            ({
                let batch = self.state.predictor_batch;
                if batch.sample_count == 0 {
                    r == Ok::<(SessionTime, P::Estimate), LiveCoreError>(
                        (self.state.predictor.time, self.state.predictor_estimate),
                    )
                } else if open is None {
                    r == Err::<(SessionTime, P::Estimate), LiveCoreError>(
                        LiveCoreError::InternalInvariant,
                    )
                } else {
                    match open_batch_verdict(self.state, open->0) {
                        Err(error) => r == Err::<(SessionTime, P::Estimate), LiveCoreError>(error),
                        Ok(_) => r == Ok::<(SessionTime, P::Estimate), LiveCoreError>(
                            (batch.end, open->0.estimate),
                        ),
                    }
                }
            }),
    {
        if self.state.predictor_batch.is_empty() {
            return Ok((self.state.predictor.time, self.state.predictor_estimate));
        }
        let open = match open {
            None => {
                return Err(LiveCoreError::InternalInvariant);
            },
            Some(open) => open,
        };
        let shape = match self.state.predictor_batch.batch(open.batch_is_finite) {
            Err(error) => {
                return Err(LiveCoreError::Preintegration(error));
            },
            Ok(shape) => shape,
        };
        let mut staged = self.state.predictor;
        match staged.propagate(&shape, open.predictor) {
            Err(error) => Err(LiveCoreError::Predictor(error)),
            Ok(_) => Ok((staged.time, open.estimate)),
        }
    }

    /// Takes the oldest published segment.
    pub fn pop_corrected_segment(&mut self) -> (segment: Option<DenseSegment<P>>)
        requires
            old(self).wf(),
        ensures
            final(self).wf(),
            is_taken(*old(self), segment, *final(self)),
    {
        let abandoned = self.take_work();
        let ghost before = *self;
        proof {
            before.wf_is_settled();
        }
        let segment = self.history.corrected.pop_oldest();
        proof {
            assert(evidence(self.state, self.history) == evidence(before.state, before.history));
            self.idle_is_wf();
        }
        segment
    }

    /// The published segment that owns `time`.
    pub fn corrected_segment_at(&self, time: SessionTime) -> (r: Result<
        DenseSegment<P>,
        LiveCoreError,
    >)
        requires
            self.wf(),
        ensures
            is_located(self.history.corrected@, time, r),
    {
        proof {
            self.wf_is_settled();
        }
        match self.history.corrected.locate(time) {
            Err(error) => Err(LiveCoreError::DenseHistory(error)),
            Ok(segment) => Ok(segment),
        }
    }

    /// The predicted segment that owns `time`.
    pub fn predictor_segment_at(&self, time: SessionTime) -> (r: Result<
        DenseSegment<P>,
        LiveCoreError,
    >)
        requires
            self.wf(),
        ensures
            is_located(self.history.predicted@, time, r),
    {
        proof {
            self.wf_is_settled();
        }
        match self.history.predicted.locate(time) {
            Err(error) => Err(LiveCoreError::DenseHistory(error)),
            Ok(segment) => Ok(segment),
        }
    }
}

/// Whether `answer` is the segment that owns `time`, or says that none does.
pub open spec fn is_located<P: Payload>(
    segments: Seq<DenseSegment<P>>,
    time: SessionTime,
    answer: Result<DenseSegment<P>, LiveCoreError>,
) -> bool {
    if segments.len() > 0 && segments[0].start.time.ns <= time.ns
        <= segments.last().end.time.ns {
        &&& answer is Ok
        &&& exists|i: int| #[trigger] owns(segments, i, time) && segments[i] == answer->Ok_0
    } else {
        answer == Err::<DenseSegment<P>, LiveCoreError>(
            LiveCoreError::DenseHistory(DenseHistoryError::OutsideSpan),
        )
    }
}

/// The input ends once, at the newest trusted instant. An open predictor batch becomes the
/// last predicted segment, which reaches exactly there; without one nothing is added. What
/// waits and what is published stays.
pub proof fn inputs_end_at_the_last_evidence<P: Payload>(
    core: &mut LiveCore<P>,
    open: Option<OpenBatch<P>>,
    report: FinishReport,
)
    requires
        old(core).wf(),
        call_ensures(LiveCore::<P>::finish, (core, open), Ok::<FinishReport, LiveCoreError>(report)),
    ensures
        !old(core).state.scheduler@.finishing,
        final(core).state.scheduler@.finishing,
        old(core).state.scheduler@.latest_trusted_imu == Some(report.terminal_time),
        final(core).state.scheduler@.latest_trusted_imu
            == old(core).state.scheduler@.latest_trusted_imu,
        final(core).state.queue() == old(core).state.queue(),
        final(core).state.frontier() == old(core).state.frontier(),
        final(core).state.filter == old(core).state.filter,
        final(core).history.corrected == old(core).history.corrected,
        final(core).history.smoothing == old(core).history.smoothing,
        final(core).history.imu == old(core).history.imu,
        report.predictor_segment_flushed <==> old(core).state.predictor_batch.sample_count > 0,
        !report.predictor_segment_flushed ==> final(core).history == old(core).history
            && final(core).state.predictor == old(core).state.predictor,
        report.predictor_segment_flushed ==> {
            let before = old(core).history.predicted@;
            let after = final(core).history.predicted@;
            let segment = after[before.len() as int];
            let batch = old(core).state.predictor_batch;
            &&& open is Some
            &&& after.len() == before.len() + 1
            &&& forall|i: int| 0 <= i < before.len() ==> #[trigger] after[i] == before[i]
            &&& segment.id == old(core).state.next_predictor_segment_id
            &&& segment.start == old(core).state.predictor_endpoint
            &&& segment.end.time == report.terminal_time
            &&& segment.end.estimate == open->0.estimate
            &&& segment.end.specific_force_b == open->0.mean_specific_force_b
            &&& segment.attitude_delta == open->0.attitude_delta
            &&& segment.degraded == batch.degraded
            &&& segment.degraded_input == batch.degraded_input
            &&& final(core).state.predictor.time == report.terminal_time
            &&& final(core).state.predictor.degraded_input == batch.degraded_input
            &&& final(core).state.predictor_estimate == open->0.estimate
            &&& final(core).state.predictor_endpoint == segment.end
            &&& final(core).state.predictor_batch.sample_count == 0
            &&& final(core).state.next_predictor_segment_id
                == old(core).state.next_predictor_segment_id + 1
        },
        final(core).work is Idle,
{
    old(core).wf_is_settled();
}

/// The end of the input is refused where it has ended already, where there is no evidence,
/// or where the open batch cannot be used; the core is then as it was.
pub proof fn refused_ends_change_nothing<P: Payload>(
    core: &mut LiveCore<P>,
    open: Option<OpenBatch<P>>,
    answer: Result<FinishReport, LiveCoreError>,
)
    requires
        call_ensures(LiveCore::<P>::finish, (core, open), answer),
    ensures
        answer is Err ==> final(core).state == old(core).state && final(core).history == old(core).history && final(core).work is Idle,
        old(core).state.scheduler@.finishing ==> answer == Err::<FinishReport, LiveCoreError>(
            LiveCoreError::InputClosed,
        ),
        !old(core).state.scheduler@.finishing
            && old(core).state.scheduler@.latest_trusted_imu is None ==> answer == Err::<
            FinishReport,
            LiveCoreError,
        >(LiveCoreError::Scheduler(SchedulerError::NoTrustedImu)),
        !old(core).state.scheduler@.finishing
            && old(core).state.scheduler@.latest_trusted_imu is Some
            && old(core).state.predictor_batch.sample_count == 0 ==> answer is Ok,
        !old(core).state.scheduler@.finishing
            && old(core).state.scheduler@.latest_trusted_imu is Some
            && old(core).state.predictor_batch.sample_count > 0 && open is None ==> answer == Err::<
            FinishReport,
            LiveCoreError,
        >(LiveCoreError::InternalInvariant),
        !old(core).state.scheduler@.finishing
            && old(core).state.scheduler@.latest_trusted_imu is Some
            && old(core).state.predictor_batch.sample_count > 0 && open is Some && (
        !open->0.batch_is_finite || old(core).state.predictor_batch.poisoned) ==> answer == Err::<
            FinishReport,
            LiveCoreError,
        >(LiveCoreError::Preintegration(PreintegrationError::NonFinite)),
        answer is Ok && old(core).state.predictor_batch.sample_count > 0
            ==> open->0.segment_is_valid && open->0.biases_are_valid && open->0.batch_is_finite
            && old(core).history.predicted@.len() != 208,
{
}

/// Published segments are taken oldest first, each once and as it was published.
pub proof fn segments_are_taken_in_order<P: Payload>(
    core: &mut LiveCore<P>,
    segment: Option<DenseSegment<P>>,
)
    requires
        call_ensures(LiveCore::<P>::pop_corrected_segment, (core,), segment),
    ensures
        segment is None <==> old(core).history.corrected@.len() == 0,
        segment matches Some(taken) ==> old(core).history.corrected@ == seq![taken] + final(core).history.corrected@,
        segment is None ==> final(core).history.corrected@ == old(core).history.corrected@,
        final(core).state == old(core).state,
        final(core).history.predicted == old(core).history.predicted,
        final(core).history.smoothing == old(core).history.smoothing,
        final(core).history.corrected_quality == old(core).history.corrected_quality,
        final(core).history.published_frontier == old(core).history.published_frontier,
        final(core).work is Idle,
{
    let unread = old(core).history.corrected@;
    if unread.len() > 0 {
        assert(unread =~= seq![unread[0]] + final(core).history.corrected@);
    }
}

/// The corrected state is the filter's own. The present state is the predictor's, carried
/// through the open batch to the end of the evidence.
pub proof fn states_are_those_of_filter_and_predictor<P: Payload>(
    core: LiveCore<P>,
    open: Option<OpenBatch<P>>,
    corrected: (SessionTime, P::Estimate),
    present: Result<(SessionTime, P::Estimate), LiveCoreError>,
)
    requires
        core.wf(),
        call_ensures(LiveCore::<P>::corrected_state, (&core,), corrected),
        call_ensures(LiveCore::<P>::present_state, (&core, open), present),
    ensures
        corrected.0 == core.state.filter.time,
        corrected.1 == core.state.filter_values.estimate,
        present is Ok ==> present->Ok_0.0 == core.state.evidence_end(),
        present is Ok && core.state.predictor_batch.sample_count == 0 ==> present->Ok_0.1
            == core.state.predictor_estimate,
        present is Ok && core.state.predictor_batch.sample_count > 0 ==> open is Some
            && present->Ok_0.1 == open->0.estimate,
        core.state.predictor_batch.sample_count == 0 ==> present is Ok,
        core.state.predictor_batch.sample_count > 0 && open is None ==> present == Err::<
            (SessionTime, P::Estimate),
            LiveCoreError,
        >(LiveCoreError::InternalInvariant),
{
    core.wf_is_settled();
}

/// The summary says of each part of the core what that part holds.
pub proof fn summaries_agree_with_the_core<P: Payload>(core: LiveCore<P>, status: LiveCoreStatus)
    requires
        call_ensures(
            LiveCore::<P>::status,
            (&core,),
            Ok::<LiveCoreStatus, LiveCoreError>(status),
        ),
    ensures
        status.corrected_frontier == core.state.scheduler@.processed_frontier,
        status.published_frontier == core.history.published_frontier,
        status.corrected_state_time == core.state.filter.time,
        status.present_input_time == core.state.scheduler@.latest_trusted_imu,
        status.queued_measurements == core.state.scheduler@.queue.len(),
        status.retained_imu_intervals == core.history.imu@.len() + (
        if core.state.corrected_pending_interval is Some {
            1int
        } else {
            0
        }),
        status.retained_corrected_segments == core.history.corrected@.len(),
        status.retained_predictor_segments == core.history.predicted@.len(),
        status.finishing == core.state.scheduler@.finishing,
        status.drained ==> status.finishing && core.state.pending_corrected_segment is None
            && core.history.smoothing@.nodes.len() <= 1,
        status.predictor_tracking_degraded == core.state.predictor.tracking_degraded,
        status.predictor_gap <==> core.state.unreconciled_predictor_gap_end is Some,
        status.predictor_degraded_input == core.state.predictor.degraded_input,
{
}

/// An instant is looked up among published and among predicted segments alike: the segment
/// found covers it, and at a shared boundary it is the later one.
pub proof fn segments_are_found_by_time<P: Payload>(
    core: LiveCore<P>,
    time: SessionTime,
    corrected: Result<DenseSegment<P>, LiveCoreError>,
    predicted: Result<DenseSegment<P>, LiveCoreError>,
)
    requires
        call_ensures(LiveCore::<P>::corrected_segment_at, (&core, time), corrected),
        call_ensures(LiveCore::<P>::predictor_segment_at, (&core, time), predicted),
    ensures
        corrected matches Ok(segment) ==> core.history.corrected@.contains(segment)
            && segment.start.time.ns <= time.ns <= segment.end.time.ns && (time.ns
            == segment.end.time.ns ==> segment == core.history.corrected@.last()),
        predicted matches Ok(segment) ==> core.history.predicted@.contains(segment)
            && segment.start.time.ns <= time.ns <= segment.end.time.ns && (time.ns
            == segment.end.time.ns ==> segment == core.history.predicted@.last()),
        corrected is Err ==> corrected->Err_0 == LiveCoreError::DenseHistory(
            DenseHistoryError::OutsideSpan,
        ),
        corrected is Err && core.history.corrected@.len() > 0 ==> time.ns
            < core.history.corrected@[0].start.time.ns || time.ns
            > core.history.corrected@.last().end.time.ns,
        predicted is Err && core.history.predicted@.len() > 0 ==> time.ns
            < core.history.predicted@[0].start.time.ns || time.ns
            > core.history.predicted@.last().end.time.ns,
{
}

} // verus!
