//! Inertial intervals on their way into the core. An interval is cut at the
//! predictor's deadlines, and becomes visible as one transaction.
use vstd::prelude::*;

use crate::capacity::{DENSE_HISTORY_CAPACITY, IMU_HISTORY_CAPACITY};
use crate::dense_history::{DenseEndpoint, DenseHistory, DenseSegment};
use crate::dense_history::{append_verdict, contiguous};
use crate::error::{LiveCoreError, PreintegrationError};
use crate::imu::{split_interval, GapModel, ImuInterval};
use crate::imu::split_verdict;
use crate::live_core::config::{
    checked_time_add, MAX_IMU_INTERVAL_NS, MAX_PREDICTOR_SEGMENTS_PER_INGEST,
};
use crate::live_core::config::time_sum;
use crate::live_core::report::IngestDisposition;
use crate::live_core::state::{LiveCore, LiveCoreHistory, LiveCoreState};
use crate::live_core::state::{evidence, settled, supports};
use crate::live_core::work::{IngestStage, Work};
use crate::payload::Payload;
use crate::predictor::{PredictorLedger, PredictorNumbers};
use crate::preintegration::{BatchLedger, PieceLinks, PieceStep};
use crate::preintegration::{accepted_piece_extends_batch, MAX_BATCH_SAMPLES};
use crate::ring::FixedRing;
use crate::scheduler::SchedulerModel;
use crate::time::SessionTime;

verus! {

/// One staged piece and what the integrals have to do for it.
#[derive(Clone, Copy, Debug, PartialEq)]
pub struct StagedPiece<P: Payload> {
    pub piece: ImuInterval<P>,
    pub step: PieceStep,
    /// Whether the piece reaches a deadline, so that the batch has to be
    /// closed.
    pub closes_segment: bool,
}

/// The numbers of one closed predictor batch.
#[derive(Clone, Copy, Debug, PartialEq)]
pub struct ClosedBatch<P: Payload> {
    /// Whether the covariance of the batch is finite.
    pub batch_is_finite: bool,
    pub predictor: PredictorNumbers,
    /// The predictor after the batch.
    pub estimate: P::Estimate,
    pub attitude_delta: P::Vector,
    /// The verdict on the values of the new segment.
    pub segment_is_valid: bool,
    /// Whether the biases can linearize the next batch.
    pub biases_are_valid: bool,
}

impl<P: Payload> IngestStage<P> {
    /// Where the next piece ends: at the deadline or at the end of the part.
    pub open spec fn cut(self) -> SessionTime {
        if self.deadline.ns < self.remaining->0.end.ns {
            self.deadline
        } else {
            self.remaining->0.end
        }
    }

    pub open spec fn split(self) -> Result<
        (ImuInterval<P>, Option<ImuInterval<P>>),
        LiveCoreError,
    > {
        split_verdict(self.remaining->0, self.cut())
    }

    pub open spec fn model_for(self, piece: ImuInterval<P>) -> Option<GapModel<P>> {
        if piece.is_gap() {
            Some(self.gap_model)
        } else {
            None
        }
    }

    /// Only a gap is continued over a cut.
    pub open spec fn links_for(piece: ImuInterval<P>, tail: Option<ImuInterval<P>>) -> PieceLinks {
        PieceLinks {
            continues_previous_sample: piece.gap_elapsed_ns_plus_one > 1,
            gap_active_after_piece: piece.is_gap() && tail is Some,
            sample_active_after_piece: piece.is_gap() && tail is Some,
        }
    }

    pub open spec fn piece_verdict(self, piece: ImuInterval<P>) -> Result<
        (),
        PreintegrationError,
    > {
        if piece.is_gap() {
            self.batch.gap_piece_verdict(piece, true, self.gap_model)
        } else {
            self.batch.piece_verdict(piece, true, None)
        }
    }

    /// Why no further piece can be staged, if none can.
    pub open spec fn piece_error(self) -> Option<LiveCoreError> {
        if self.remaining is None || self.closing is Some {
            Some(LiveCoreError::InternalInvariant)
        } else {
            match self.split() {
                Err(error) => Some(error),
                Ok((piece, tail)) => match self.piece_verdict(piece) {
                    Err(error) => Some(LiveCoreError::Preintegration(error)),
                    Ok(_) => if self.cut() == self.deadline && self.segments@.len()
                        == MAX_PREDICTOR_SEGMENTS_PER_INGEST {
                        Some(LiveCoreError::PredictorWorkBoundExceeded)
                    } else {
                        None
                    },
                },
            }
        }
    }

    /// The stage after its next piece.
    pub open spec fn with_piece(self) -> Self {
        let piece = self.split()->Ok_0.0;
        let tail = self.split()->Ok_0.1;
        IngestStage {
            remaining: if tail is Some {
                tail
            } else if self.interval_follows {
                Some(self.interval)
            } else {
                None
            },
            interval_follows: self.interval_follows && tail is Some,
            closing: if self.cut() == self.deadline {
                Some(piece)
            } else {
                None
            },
            batch: self.batch.with_piece(
                piece,
                self.model_for(piece),
                Self::links_for(piece, tail),
            ),
            ..self
        }
    }

    pub open spec fn staged_piece(self) -> StagedPiece<P> {
        let piece = self.split()->Ok_0.0;
        let tail = self.split()->Ok_0.1;
        StagedPiece {
            piece,
            step: self.batch.piece_step(piece, self.model_for(piece), Self::links_for(piece, tail)),
            closes_segment: self.cut() == self.deadline,
        }
    }

    /// The segment that a closed batch makes.
    pub open spec fn closed_segment(self, closed: ClosedBatch<P>) -> DenseSegment<P> {
        DenseSegment {
            id: self.next_segment_id,
            start: self.endpoint,
            end: DenseEndpoint {
                time: self.batch.end,
                estimate: closed.estimate,
                specific_force_b: self.closing->0.specific_force_b,
                covariance: self.endpoint.covariance,
            },
            attitude_delta: closed.attitude_delta,
            degraded: self.batch.degraded,
            degraded_input: self.batch.degraded_input,
        }
    }

    /// Why a batch cannot be closed, if it cannot.
    pub open spec fn close_error(self, closed: ClosedBatch<P>) -> Option<LiveCoreError> {
        let segment = self.closed_segment(closed);
        if self.closing is None {
            Some(LiveCoreError::InternalInvariant)
        } else if self.batch.sample_count == 0 {
            Some(LiveCoreError::Preintegration(PreintegrationError::EmptyBatch))
        } else if self.batch.poisoned || !closed.batch_is_finite {
            Some(LiveCoreError::Preintegration(PreintegrationError::NonFinite))
        } else if self.predictor.propagation_verdict(
            self.batch.shape(),
            closed.predictor,
        ) is Err {
            Some(
                LiveCoreError::Predictor(
                    self.predictor.propagation_verdict(
                        self.batch.shape(),
                        closed.predictor,
                    )->Err_0,
                ),
            )
        } else if DenseSegment::<P>::segment_verdict(
            segment.start.time,
            segment.end.time,
            closed.segment_is_valid,
        ) is Err {
            Some(
                LiveCoreError::DenseHistory(
                    DenseSegment::<P>::segment_verdict(
                        segment.start.time,
                        segment.end.time,
                        closed.segment_is_valid,
                    )->Err_0,
                ),
            )
        } else if self.next_segment_id == u64::MAX {
            Some(LiveCoreError::SegmentIdOverflow)
        } else if !closed.biases_are_valid {
            Some(LiveCoreError::Preintegration(PreintegrationError::NonFinite))
        } else if time_sum(self.deadline, self.navigation_period_ns) is Err {
            Some(LiveCoreError::TimeOverflow)
        } else {
            None
        }
    }

    /// Whether `after` is the stage after a batch was closed.
    pub open spec fn is_closed_as(self, closed: ClosedBatch<P>, after: Self) -> bool {
        let segment = self.closed_segment(closed);
        &&& after.segments@ == self.segments@.push(segment)
        &&& after == (IngestStage {
            closing: None,
            predictor: PredictorLedger {
                time: self.batch.end,
                degraded_input: self.batch.degraded_input,
                ..self.predictor
            },
            predictor_estimate: closed.estimate,
            batch: BatchLedger::empty_at(self.batch.end),
            endpoint: segment.end,
            deadline: time_sum(self.deadline, self.navigation_period_ns)->Ok_0,
            next_segment_id: (self.next_segment_id + 1) as u64,
            segments: after.segments,
            ..self
        })
    }

    /// Whether everything has been staged.
    pub open spec fn complete(self) -> bool {
        self.remaining is None && self.closing is None
    }

    /// Stages the next piece.
    fn advance(&mut self) -> (r: Result<StagedPiece<P>, LiveCoreError>)
        requires
            crate::imu::comparable::<P>(),
            old(self).batch.sample_count <= MAX_BATCH_SAMPLES,
            old(self).segments.wf(),
        ensures
            match old(self).piece_error() {
                Some(error) => r == Err::<StagedPiece<P>, LiveCoreError>(error),
                None => r == Ok::<StagedPiece<P>, LiveCoreError>(old(self).staged_piece())
                    && *final(self) == old(self).with_piece(),
            },
    {
        let remaining = match (self.remaining, self.closing) {
            (Some(remaining), None) => remaining,
            _ => {
                return Err(LiveCoreError::InternalInvariant);
            },
        };
        let cut = if self.deadline.ns < remaining.end.ns {
            self.deadline
        } else {
            remaining.end
        };
        let (piece, tail) = match split_interval(remaining, cut) {
            Err(error) => {
                return Err(error);
            },
            Ok(parts) => parts,
        };
        let pushed = if piece.is_gap() {
            self.batch.push_gap(piece, true, self.gap_model, tail.is_some())
        } else {
            self.batch.push(piece, true)
        };
        let step = match pushed {
            Err(error) => {
                return Err(LiveCoreError::Preintegration(error));
            },
            Ok(step) => step,
        };
        let closes_segment = cut == self.deadline;
        if closes_segment {
            if self.segments.len() == MAX_PREDICTOR_SEGMENTS_PER_INGEST {
                return Err(LiveCoreError::PredictorWorkBoundExceeded);
            }
            self.closing = Some(piece);
        }
        match tail {
            Some(_) => {
                self.remaining = tail;
            },
            None => {
                if self.interval_follows {
                    self.interval_follows = false;
                    self.remaining = Some(self.interval);
                } else {
                    self.remaining = None;
                }
            },
        }
        Ok(StagedPiece { piece, step, closes_segment })
    }

    /// Closes the batch that has reached its deadline.
    fn close(&mut self, closed: ClosedBatch<P>) -> (r: Result<(), LiveCoreError>)
        requires
            old(self).segments.wf(),
            old(self).segments@.len() < MAX_PREDICTOR_SEGMENTS_PER_INGEST,
            old(self).closing is Some ==> old(self).batch.end == old(self).deadline,
        ensures
            match old(self).close_error(closed) {
                Some(error) => r == Err::<(), LiveCoreError>(error),
                None => r is Ok && old(self).is_closed_as(closed, *final(self))
                    && final(self).segments.wf(),
            },
    {
        let piece = match self.closing {
            None => {
                return Err(LiveCoreError::InternalInvariant);
            },
            Some(piece) => piece,
        };
        let shape = match self.batch.batch(closed.batch_is_finite) {
            Err(error) => {
                return Err(LiveCoreError::Preintegration(error));
            },
            Ok(shape) => shape,
        };
        match self.predictor.propagate(&shape, closed.predictor) {
            Err(error) => {
                return Err(LiveCoreError::Predictor(error));
            },
            Ok(_) => {},
        }
        let end = DenseEndpoint {
            time: shape.end,
            estimate: closed.estimate,
            specific_force_b: piece.specific_force_b,
            covariance: self.endpoint.covariance,
        };
        let segment = match DenseSegment::new_imu_conditioned(
            self.next_segment_id,
            self.endpoint,
            end,
            closed.attitude_delta,
            shape.degraded,
            shape.degraded_input,
            closed.segment_is_valid,
        ) {
            Err(error) => {
                return Err(LiveCoreError::DenseHistory(error));
            },
            Ok(segment) => segment,
        };
        if self.next_segment_id == u64::MAX {
            return Err(LiveCoreError::SegmentIdOverflow);
        }
        let batch = match BatchLedger::new(self.deadline, closed.biases_are_valid) {
            Err(error) => {
                return Err(LiveCoreError::Preintegration(error));
            },
            Ok(batch) => batch,
        };
        let deadline = match checked_time_add(self.deadline, self.navigation_period_ns) {
            Err(error) => {
                return Err(error);
            },
            Ok(deadline) => deadline,
        };
        let pushed = self.segments.push_back(segment);
        self.next_segment_id = self.next_segment_id + 1;
        self.predictor_estimate = closed.estimate;
        self.endpoint = end;
        self.batch = batch;
        self.deadline = deadline;
        self.closing = None;
        Ok(())
    }
}

/// Why an inertial interval cannot be ingested, or the bridge that it needs.
pub open spec fn ingest_verdict<P: Payload>(
    state: LiveCoreState<P>,
    history: LiveCoreHistory<P>,
    interval: ImuInterval<P>,
) -> Result<Option<ImuInterval<P>>, LiveCoreError> {
    let expected = match state.last_ingested_interval {
        Some(last) => last.end,
        None => state.predictor_batch.end,
    };
    let bridged = interval.start.ns > expected.ns;
    if state.scheduler@.finishing {
        Err(LiveCoreError::InputClosed)
    } else if interval.verdict() is Err {
        Err(LiveCoreError::Preintegration(interval.verdict()->Err_0))
    } else if interval.end.ns - interval.start.ns > MAX_IMU_INTERVAL_NS {
        Err(LiveCoreError::ImuIntervalTooLong)
    } else if interval.start.ns < expected.ns {
        Err(LiveCoreError::ImuOverlapOrRegression)
    } else if bridged && state.last_ingested_interval is None {
        Err(LiveCoreError::MissingInitialImuSupport)
    } else if bridged && ImuInterval::bridge_verdict(
        state.last_ingested_interval->0,
        interval.start,
        state.gap_model,
    ) is Err {
        Err(
            LiveCoreError::Preintegration(
                ImuInterval::bridge_verdict(
                    state.last_ingested_interval->0,
                    interval.start,
                    state.gap_model,
                )->Err_0,
            ),
        )
    } else if history.imu@.len() + (if bridged {
        2int
    } else {
        1
    }) > IMU_HISTORY_CAPACITY {
        Err(LiveCoreError::RawImuHistoryFull)
    } else if bridged {
        Ok(Some(ImuInterval::bridge(state.last_ingested_interval->0, interval.start)))
    } else {
        Ok(None)
    }
}

/// The first interval of a session also supplies the force at its start.
pub open spec fn with_first_force<P: Payload>(
    endpoint: DenseEndpoint<P>,
    state: LiveCoreState<P>,
    interval: ImuInterval<P>,
) -> DenseEndpoint<P> {
    if state.last_ingested_interval is None {
        DenseEndpoint { specific_force_b: interval.specific_force_b, ..endpoint }
    } else {
        endpoint
    }
}

/// Whether `stage` is the beginning of ingesting `interval`.
pub open spec fn is_begun<P: Payload>(
    stage: IngestStage<P>,
    state: LiveCoreState<P>,
    interval: ImuInterval<P>,
    bridge: Option<ImuInterval<P>>,
) -> bool {
    &&& stage.segments.wf()
    &&& stage.segments@ == Seq::<DenseSegment<P>>::empty()
    &&& stage == (IngestStage {
        interval,
        bridge,
        remaining: Some(
            if bridge is Some {
                bridge->0
            } else {
                interval
            },
        ),
        interval_follows: bridge is Some,
        closing: None,
        predictor: state.predictor,
        predictor_estimate: state.predictor_estimate,
        batch: state.predictor_batch,
        endpoint: with_first_force(state.predictor_endpoint, state, interval),
        corrected_endpoint: with_first_force(state.corrected_endpoint, state, interval),
        deadline: state.next_predictor_deadline,
        next_segment_id: state.next_predictor_segment_id,
        segments: stage.segments,
        gap_model: state.gap_model,
        navigation_period_ns: state.navigation_period_ns,
    })
}

/// What holds of a stage between its pieces.
pub open spec fn stage_ok<P: Payload>(
    state: LiveCoreState<P>,
    history: LiveCoreHistory<P>,
    stage: IngestStage<P>,
) -> bool {
    let segments = stage.segments@;
    &&& !state.scheduler@.finishing
    &&& stage.interval.verdict() is Ok
    &&& stage.gap_model == state.gap_model
    &&& stage.navigation_period_ns == state.navigation_period_ns
    &&& match stage.bridge {
        Some(bridge) => {
            &&& bridge.verdict() is Ok
            &&& bridge.start == state.evidence_end()
            &&& bridge.end == stage.interval.start
            &&& history.imu@.len() + 2 <= IMU_HISTORY_CAPACITY
        },
        None => {
            &&& stage.interval.start == state.evidence_end()
            &&& history.imu@.len() + 1 <= IMU_HISTORY_CAPACITY
        },
    }
    &&& stage.batch.sample_count <= MAX_BATCH_SAMPLES
    &&& stage.batch.start == stage.predictor.time
    &&& stage.batch.start == stage.endpoint.time
    &&& stage.batch.start.ns <= stage.batch.end.ns
    &&& stage.batch.sample_count == 0 <==> stage.batch.start == stage.batch.end
    &&& stage.deadline.ns <= stage.batch.start.ns + stage.navigation_period_ns
    &&& match stage.closing {
        Some(piece) => {
            &&& stage.batch.end == stage.deadline
            &&& stage.batch.sample_count > 0
            &&& segments.len() < MAX_PREDICTOR_SEGMENTS_PER_INGEST
        },
        None => stage.batch.end.ns < stage.deadline.ns,
    }
    &&& match stage.remaining {
        Some(part) => {
            &&& part.verdict() is Ok
            &&& part.start == stage.batch.end
            &&& part.end == (if stage.interval_follows {
                stage.interval.start
            } else {
                stage.interval.end
            })
        },
        None => stage.batch.end == stage.interval.end && !stage.interval_follows,
    }
    &&& stage.segments.wf()
    &&& contiguous(segments)
    &&& if segments.len() == 0 {
        &&& stage.endpoint.time == state.predictor_endpoint.time
        &&& stage.next_segment_id == state.next_predictor_segment_id
    } else {
        &&& segments[0].start.time == state.predictor_endpoint.time
        &&& segments[0].id >= state.next_predictor_segment_id
        &&& segments.last().end.time == stage.endpoint.time
        &&& segments.last().id < stage.next_segment_id
    }
    &&& stage.corrected_endpoint == with_first_force(
        state.corrected_endpoint,
        state,
        stage.interval,
    )
}

/// The work of a core, if it is ingesting.
pub open spec fn stage_of<P: Payload>(work: Work<P>) -> Option<IngestStage<P>> {
    match work {
        Work::Ingest(stage) => Some(stage),
        _ => None,
    }
}

impl<P: Payload> LiveCore<P> {
    /// The core with other work, or none.
    pub open spec fn with_work(self, work: Work<P>) -> Self {
        LiveCore { state: self.state, history: self.history, work }
    }

    /// Begins to ingest one inertial interval. A gap before it is bridged, if
    /// it is short enough.
    pub fn begin_ingest(&mut self, interval: ImuInterval<P>) -> (r: Result<(), LiveCoreError>)
        requires
            old(self).wf(),
        ensures
            final(self).wf(),
            match ingest_verdict(old(self).state, old(self).history, interval) {
                Err(error) => r == Err::<(), LiveCoreError>(error) && *final(self) == old(
                    self,
                ).with_work(Work::Idle),
                Ok(bridge) => {
                    let stage = stage_of(final(self).work)->0;
                    &&& r is Ok
                    &&& *final(self) == old(self).with_work(Work::Ingest(stage))
                    &&& is_begun(stage, old(self).state, interval, bridge)
                },
            },
    {
        reveal(LiveCore::wf);
        self.work = Work::Idle;
        if self.state.scheduler.is_finishing() {
            return Err(LiveCoreError::InputClosed);
        }
        match interval.validate() {
            Err(error) => {
                return Err(LiveCoreError::Preintegration(error));
            },
            Ok(_) => {},
        }
        let duration_ns: i64 = match interval.end.ns.checked_sub(interval.start.ns) {
            Some(ns) => ns,
            None => {
                return Err(LiveCoreError::TimeOverflow);
            },
        };
        if duration_ns > MAX_IMU_INTERVAL_NS {
            return Err(LiveCoreError::ImuIntervalTooLong);
        }
        let expected_start = match self.state.last_ingested_interval {
            Some(previous) => previous.end,
            None => self.state.predictor_batch.end(),
        };
        if interval.start.ns < expected_start.ns {
            return Err(LiveCoreError::ImuOverlapOrRegression);
        }
        let mut bridge: Option<ImuInterval<P>> = None;
        if interval.start.ns > expected_start.ns {
            match self.state.last_ingested_interval {
                None => {
                    return Err(LiveCoreError::MissingInitialImuSupport);
                },
                Some(previous) => match ImuInterval::bridge_after(
                    previous,
                    interval.start,
                    self.state.gap_model,
                ) {
                    Err(error) => {
                        return Err(LiveCoreError::Preintegration(error));
                    },
                    Ok(gap) => {
                        bridge = Some(gap);
                    },
                },
            }
        }
        let raw_needed: usize = if bridge.is_some() {
            2
        } else {
            1
        };
        if self.history.imu.available() < raw_needed {
            return Err(LiveCoreError::RawImuHistoryFull);
        }
        let mut endpoint = self.state.predictor_endpoint;
        let mut corrected_endpoint = self.state.corrected_endpoint;
        if self.state.last_ingested_interval.is_none() {
            endpoint.specific_force_b = interval.specific_force_b;
            corrected_endpoint.specific_force_b = interval.specific_force_b;
        }
        let stage = IngestStage {
            interval,
            bridge,
            remaining: match bridge {
                Some(gap) => Some(gap),
                None => Some(interval),
            },
            interval_follows: bridge.is_some(),
            closing: None,
            predictor: self.state.predictor,
            predictor_estimate: self.state.predictor_estimate,
            batch: self.state.predictor_batch,
            endpoint,
            corrected_endpoint,
            deadline: self.state.next_predictor_deadline,
            next_segment_id: self.state.next_predictor_segment_id,
            segments: FixedRing::new(),
            gap_model: self.state.gap_model,
            navigation_period_ns: self.state.navigation_period_ns,
        };
        self.work = Work::Ingest(stage);
        Ok(())
    }

    /// Stages the next piece of the interval. A failure abandons the whole
    /// interval and leaves the core as it was.
    pub fn next_ingest_piece(&mut self) -> (r: Result<StagedPiece<P>, LiveCoreError>)
        requires
            old(self).wf(),
        ensures
            final(self).wf(),
            match stage_of(old(self).work) {
                None => r == Err::<StagedPiece<P>, LiveCoreError>(LiveCoreError::InternalInvariant)
                    && *final(self) == old(self).with_work(Work::Idle),
                Some(stage) => match stage.piece_error() {
                    Some(error) => r == Err::<StagedPiece<P>, LiveCoreError>(error)
                        && *final(self) == old(self).with_work(Work::Idle),
                    None => {
                        &&& r == Ok::<StagedPiece<P>, LiveCoreError>(stage.staged_piece())
                        &&& *final(self) == old(self).with_work(Work::Ingest(stage.with_piece()))
                    },
                },
            },
    {
        reveal(LiveCore::wf);
        let mut stage = match self.work {
            Work::Ingest(stage) => stage,
            _ => {
                self.work = Work::Idle;
                return Err(LiveCoreError::InternalInvariant);
            },
        };
        let ghost before = stage;
        self.work = Work::Idle;
        let staged = match stage.advance() {
            Err(error) => {
                return Err(error);
            },
            Ok(staged) => staged,
        };
        proof {
            advancing_keeps_stage_ok(self.state, self.history, before);
        }
        self.work = Work::Ingest(stage);
        Ok(staged)
    }

    /// Whether the interval under way is staged to its end.
    pub fn ingest_is_staged(&self) -> (staged: bool)
        ensures
            staged == (stage_of(self.work) is Some && stage_of(self.work)->0.complete()),
    {
        match self.work {
            Work::Ingest(stage) => stage.remaining.is_none() && stage.closing.is_none(),
            _ => false,
        }
    }

    /// Closes the predictor batch at a deadline. A failure abandons the whole
    /// interval and leaves the core as it was.
    pub fn close_ingest_segment(&mut self, closed: ClosedBatch<P>) -> (r: Result<(), LiveCoreError>)
        requires
            old(self).wf(),
        ensures
            final(self).wf(),
            match stage_of(old(self).work) {
                None => r == Err::<(), LiveCoreError>(LiveCoreError::InternalInvariant)
                    && *final(self) == old(self).with_work(Work::Idle),
                Some(stage) => match stage.close_error(closed) {
                    Some(error) => r == Err::<(), LiveCoreError>(error) && *final(self) == old(
                        self,
                    ).with_work(Work::Idle),
                    None => {
                        let after = stage_of(final(self).work)->0;
                        &&& r is Ok
                        &&& *final(self) == old(self).with_work(Work::Ingest(after))
                        &&& stage.is_closed_as(closed, after)
                    },
                },
            },
    {
        reveal(LiveCore::wf);
        let mut stage = match self.work {
            Work::Ingest(stage) => stage,
            _ => {
                self.work = Work::Idle;
                return Err(LiveCoreError::InternalInvariant);
            },
        };
        let ghost before = stage;
        self.work = Work::Idle;
        if stage.closing.is_none() {
            return Err(LiveCoreError::InternalInvariant);
        }
        match stage.close(closed) {
            Err(error) => {
                return Err(error);
            },
            Ok(_) => {},
        }
        proof {
            closing_keeps_stage_ok(self.state, self.history, before, closed, stage);
        }
        self.work = Work::Ingest(stage);
        Ok(())
    }
}

/// The later of an optional instant and `time`.
pub open spec fn later_of(earlier: Option<SessionTime>, time: SessionTime) -> SessionTime {
    if earlier is Some && earlier->0.ns > time.ns {
        earlier->0
    } else {
        time
    }
}

/// The retained inertial intervals with a staged one.
pub open spec fn imu_with<P: Payload>(
    imu: Seq<ImuInterval<P>>,
    stage: IngestStage<P>,
) -> Seq<ImuInterval<P>> {
    match stage.bridge {
        Some(bridge) => imu.push(bridge).push(stage.interval),
        None => imu.push(stage.interval),
    }
}

/// Whether a completely staged interval has become part of the core.
pub open spec fn is_ingested<P: Payload>(
    before: LiveCore<P>,
    stage: IngestStage<P>,
    after: LiveCore<P>,
) -> bool {
    &&& after.history.imu@ == imu_with(before.history.imu@, stage)
    &&& after.history.predicted@ == before.history.predicted@ + stage.segments@
    &&& after.history == (LiveCoreHistory {
        imu: after.history.imu,
        predicted: after.history.predicted,
        ..before.history
    })
    &&& after.state.scheduler@ == (SchedulerModel {
        latest_trusted_imu: Some(stage.interval.end),
        ..before.state.scheduler@
    })
    &&& after.state == (LiveCoreState {
        scheduler: after.state.scheduler,
        predictor: stage.predictor,
        predictor_estimate: stage.predictor_estimate,
        predictor_batch: stage.batch,
        predictor_endpoint: stage.endpoint,
        corrected_endpoint: stage.corrected_endpoint,
        next_predictor_deadline: stage.deadline,
        next_predictor_segment_id: stage.next_segment_id,
        last_ingested_interval: Some(stage.interval),
        unreconciled_predictor_gap_end: match stage.bridge {
            Some(bridge) => Some(
                later_of(before.state.unreconciled_predictor_gap_end, bridge.end),
            ),
            None => before.state.unreconciled_predictor_gap_end,
        },
        ..before.state
    })
    &&& after.work == Work::<P>::Idle
}

impl<P: Payload> LiveCore<P> {
    /// Makes a completely staged interval visible, all at once.
    pub fn commit_ingest(&mut self) -> (r: Result<IngestDisposition, LiveCoreError>)
        requires
            old(self).wf(),
        ensures
            final(self).wf(),
            match stage_of(old(self).work) {
                None => r == Err::<IngestDisposition, LiveCoreError>(
                    LiveCoreError::InternalInvariant,
                ) && *final(self) == old(self).with_work(Work::Idle),
                Some(stage) => if !stage.complete() {
                    r == Err::<IngestDisposition, LiveCoreError>(LiveCoreError::InternalInvariant)
                        && *final(self) == old(self).with_work(Work::Idle)
                } else if old(self).history.predicted@.len() + stage.segments@.len()
                    > DENSE_HISTORY_CAPACITY {
                    r == Err::<IngestDisposition, LiveCoreError>(
                        LiveCoreError::PredictorHistoryFull,
                    ) && *final(self) == old(self).with_work(Work::Idle)
                } else {
                    &&& r == Ok::<IngestDisposition, LiveCoreError>(
                        IngestDisposition::ImuAccepted {
                            stored_intervals: if stage.bridge is Some {
                                2
                            } else {
                                1
                            },
                            predictor_segments: stage.segments@.len() as u8,
                            gap_bridged: stage.bridge is Some,
                        },
                    )
                    &&& is_ingested(*old(self), stage, *final(self))
                },
            },
    {
        reveal(LiveCore::wf);
        let stage = match self.work {
            Work::Ingest(stage) => stage,
            _ => {
                self.work = Work::Idle;
                return Err(LiveCoreError::InternalInvariant);
            },
        };
        self.work = Work::Idle;
        if stage.remaining.is_some() || stage.closing.is_some() {
            return Err(LiveCoreError::InternalInvariant);
        }
        proof {
            stage.segments.wf_facts();
            self.history.predicted.wf_facts();
            self.history.imu.wf_facts();
        }
        let segment_count: usize = stage.segments.len();
        if self.history.predicted.available() < segment_count {
            return Err(LiveCoreError::PredictorHistoryFull);
        }
        let ghost before = *self;
        match self.state.scheduler.observe_trusted_imu(stage.interval.end) {
            Err(error) => {
                return Err(LiveCoreError::Scheduler(error));
            },
            Ok(_) => {},
        }
        if let Some(bridge) = stage.bridge {
            match self.history.imu.push_back(bridge) {
                Err(error) => {
                    return Err(LiveCoreError::Queue(error));
                },
                Ok(_) => {},
            }
        }
        match self.history.imu.push_back(stage.interval) {
            Err(error) => {
                return Err(LiveCoreError::Queue(error));
            },
            Ok(_) => {},
        }
        append_segments(&mut self.history.predicted, &stage.segments);
        self.state.predictor = stage.predictor;
        self.state.predictor_estimate = stage.predictor_estimate;
        self.state.predictor_batch = stage.batch;
        self.state.predictor_endpoint = stage.endpoint;
        self.state.corrected_endpoint = stage.corrected_endpoint;
        self.state.next_predictor_deadline = stage.deadline;
        self.state.next_predictor_segment_id = stage.next_segment_id;
        self.state.last_ingested_interval = Some(stage.interval);
        if let Some(bridge) = stage.bridge {
            self.state.unreconciled_predictor_gap_end =
            match self.state.unreconciled_predictor_gap_end {
                Some(previous) => if previous.ns > bridge.end.ns {
                    Some(previous)
                } else {
                    Some(bridge.end)
                },
                None => Some(bridge.end),
            };
        }
        proof {
            ingesting_keeps_settled(before, stage, *self);
        }
        Ok(
            IngestDisposition::ImuAccepted {
                stored_intervals: if stage.bridge.is_some() {
                    2
                } else {
                    1
                },
                predictor_segments: segment_count as u8,
                gap_bridged: stage.bridge.is_some(),
            },
        )
    }
}

/// Appends contiguous segments to a history that they continue.
fn append_segments<P: Payload>(
    history: &mut DenseHistory<P, DENSE_HISTORY_CAPACITY>,
    segments: &FixedRing<DenseSegment<P>, MAX_PREDICTOR_SEGMENTS_PER_INGEST>,
)
    requires
        old(history).wf(),
        segments.wf(),
        contiguous(segments@),
        old(history)@.len() + segments@.len() <= DENSE_HISTORY_CAPACITY,
        old(history)@.len() > 0 && segments@.len() > 0 ==> old(history)@.last().end.time
            == segments@[0].start.time && old(history)@.last().id < segments@[0].id,
    ensures
        final(history).wf(),
        final(history)@ == old(history)@ + segments@,
{
    let ghost before = history@;
    let len: usize = segments.len();
    let mut index: usize = 0;
    assert(before + segments@.subrange(0, 0) =~= before);
    while index < len
        invariant
            index <= len,
            len == segments@.len(),
            segments.wf(),
            contiguous(segments@),
            history.wf(),
            before.len() + segments@.len() <= DENSE_HISTORY_CAPACITY,
            history@ == before + segments@.subrange(0, index as int),
            before.len() > 0 && segments@.len() > 0 ==> before.last().end.time
                == segments@[0].start.time && before.last().id < segments@[0].id,
        decreases len - index,
    {
        if let Some(segment) = segments.get(index) {
            proof {
                assert(segments@[index as int].wf());
                if index > 0 {
                    assert(history@.last() == segments@[index - 1]);
                    assert(segments@[index - 1].end.time == segments@[index as int].start.time);
                } else if before.len() > 0 {
                    assert(history@.last() == before.last());
                }
                assert(append_verdict(
                    history@,
                    DENSE_HISTORY_CAPACITY as nat,
                    segments@[index as int],
                ) is Ok);
            }
            let pushed = history.push(*segment);
        }
        index = index + 1;
        assert(history@ =~= before + segments@.subrange(0, index as int));
    }
    assert(segments@.subrange(0, len as int) =~= segments@);
}

proof fn ingesting_keeps_settled<P: Payload>(
    before: LiveCore<P>,
    stage: IngestStage<P>,
    after: LiveCore<P>,
)
    requires
        before.settled(),
        stage_ok(before.state, before.history, stage),
        stage.complete(),
        after.state.scheduler.wf(),
        after.history.wf(),
        is_ingested(before, stage, after),
    ensures
        after.settled(),
{
    let old_chain = evidence(before.state, before.history);
    let new_chain = evidence(after.state, after.history);
    let tail = match stage.bridge {
        Some(bridge) => seq![bridge, stage.interval],
        None => seq![stage.interval],
    };
    assert(new_chain =~= old_chain + tail);
    joining_support(
        old_chain,
        tail,
        before.state.filter.time,
        before.state.evidence_end(),
        stage.interval.end,
    );
    assert(after.state.queue() == before.state.queue());
    assert(after.state.frontier_ok()) by {
        assert forall|i: int| 0 <= i < after.state.queue().len() implies {
            &&& (#[trigger] after.state.queue()[i]).key.time.ns >= after.state.filter.time.ns
            &&& after.state.frontier() is Some && after.state.pending_corrected_segment is None
                ==> after.state.queue()[i].key.time.ns > after.state.filter.time.ns
        } by {
            assert(before.state.queue()[i] == after.state.queue()[i]);
        }
        before.state.scheduler.wf_facts();
    }
    let old_predicted = before.history.predicted@;
    let segments = stage.segments@;
    if segments.len() > 0 && old_predicted.len() > 0 {
        assert((old_predicted + segments).last() == segments.last());
        assert((old_predicted + segments)[0] == old_predicted[0]);
    } else if segments.len() > 0 {
        assert((old_predicted + segments) =~= segments);
    } else {
        assert((old_predicted + segments) =~= old_predicted);
    }
}

/// Adjacent supports join.
pub proof fn joining_support<P: Payload>(
    first: Seq<ImuInterval<P>>,
    second: Seq<ImuInterval<P>>,
    start: SessionTime,
    middle: SessionTime,
    end: SessionTime,
)
    requires
        supports(first, start, middle),
        supports(second, middle, end),
    ensures
        supports(first + second, start, end),
{
    let joined = first + second;
    assert forall|i: int| 0 <= i < joined.len() implies (#[trigger] joined[i]).verdict() is Ok by {
        if i < first.len() {
            assert(joined[i] == first[i]);
        } else {
            assert(joined[i] == second[i - first.len()]);
        }
    }
    assert forall|i: int, j: int|
        #![trigger joined[i], joined[j]]
        0 <= i && j == i + 1 && j < joined.len() implies joined[i].end == joined[j].start by {
        if j < first.len() {
            assert(joined[i] == first[i] && joined[j] == first[j]);
        } else if i >= first.len() {
            assert(joined[i] == second[i - first.len()] && joined[j] == second[j - first.len()]);
        } else {
            assert(joined[i] == first.last() && joined[j] == second[0]);
        }
    }
    if second.len() > 0 {
        assert(joined.last() == second.last());
    }
    if first.len() > 0 {
        assert(joined[0] == first[0]);
    } else {
        assert(joined =~= second);
    }
    if second.len() == 0 {
        assert(joined =~= first);
    }
}

proof fn advancing_keeps_stage_ok<P: Payload>(
    state: LiveCoreState<P>,
    history: LiveCoreHistory<P>,
    stage: IngestStage<P>,
)
    requires
        settled(state, history),
        stage_ok(state, history, stage),
        stage.piece_error() is None,
    ensures
        stage_ok(state, history, stage.with_piece()),
{
    let piece = stage.split()->Ok_0.0;
    let tail = stage.split()->Ok_0.1;
    stage.segments.wf_facts();
    accepted_piece_extends_batch(
        stage.batch,
        piece,
        true,
        stage.model_for(piece),
        IngestStage::links_for(piece, tail),
    );
}

proof fn closing_keeps_stage_ok<P: Payload>(
    state: LiveCoreState<P>,
    history: LiveCoreHistory<P>,
    stage: IngestStage<P>,
    closed: ClosedBatch<P>,
    after: IngestStage<P>,
)
    requires
        settled(state, history),
        stage_ok(state, history, stage),
        stage.close_error(closed) is None,
        stage.is_closed_as(closed, after),
        after.segments.wf(),
    ensures
        stage_ok(state, history, after),
{
    let segment = stage.closed_segment(closed);
    let before = stage.segments@;
    let now = after.segments@;
    assert(segment.wf());
    assert forall|i: int, j: int|
        #![trigger now[i], now[j]]
        0 <= i && j == i + 1 && j < now.len() implies now[i].end.time == now[j].start.time
        && now[i].id < now[j].id by {
        if j < before.len() {
            assert(now[i] == before[i] && now[j] == before[j]);
        } else {
            assert(now[i] == before.last());
        }
    }
    if before.len() > 0 {
        assert(now[0] == before[0]);
    }
}

/// An inertial interval is taken exactly if the input is open, it is usable and not too
/// long, it does not reach back, there is room for it, and what lies between it and the
/// last one, if anything, can be bridged. A bridge counts for a place of its own. The first
/// thing that is wrong names the error, and then nothing is under way.
pub proof fn intervals_continue_the_evidence<P: Payload>(
    core: &mut LiveCore<P>,
    interval: ImuInterval<P>,
    answer: Result<(), LiveCoreError>,
)
    requires
        call_ensures(LiveCore::<P>::begin_ingest, (core, interval), answer),
    ensures
        ({
            let state = old(core).state;
            let last = state.last_ingested_interval;
            let expected = if last is Some {
                last->0.end.ns
            } else {
                state.predictor_batch.end.ns
            };
            let gap_ns = interval.start.ns - expected;
            let open = !state.scheduler@.finishing;
            let usable = 0 < interval.end.ns - interval.start.ns <= i64::MAX
                && interval.values_are_valid;
            let short = interval.end.ns - interval.start.ns <= 10_000_000;
            let bridgeable = last is Some && 0 < last->0.end.ns - last->0.start.ns <= i64::MAX
                && last->0.values_are_valid && 0 < state.gap_model.maximum_gap_ns <= 10_000_000
                && state.gap_model.sigmas_are_valid && gap_ns <= state.gap_model.maximum_gap_ns;
            let places = if gap_ns > 0 {
                2int
            } else {
                1
            };
            let room = old(core).history.imu@.len() + places <= 1_024;
            &&& answer is Ok <==> open && usable && short && gap_ns >= 0 && (gap_ns > 0
                ==> bridgeable) && room
            &&& !open ==> answer == Err::<(), LiveCoreError>(LiveCoreError::InputClosed)
            &&& open && usable && !short ==> answer == Err::<(), LiveCoreError>(
                LiveCoreError::ImuIntervalTooLong,
            )
            &&& open && usable && short && gap_ns < 0 ==> answer == Err::<(), LiveCoreError>(
                LiveCoreError::ImuOverlapOrRegression,
            )
            &&& open && usable && short && gap_ns > 0 && last is None ==> answer == Err::<
                (),
                LiveCoreError,
            >(LiveCoreError::MissingInitialImuSupport)
            &&& open && usable && short && gap_ns >= 0 && (gap_ns > 0 ==> bridgeable) && !room
                ==> answer == Err::<(), LiveCoreError>(LiveCoreError::RawImuHistoryFull)
            &&& final(core).state == old(core).state && final(core).history == old(core).history
            &&& answer is Err ==> final(core).work is Idle
            &&& answer is Ok ==> final(core).work is Ingest
        }),
{
}

/// What is staged begins with the bridge where there is a gap, and with the interval where
/// there is none. The bridge holds the last interval over the gap. The predictor is staged
/// from where it stands, and the very first interval supplies the force at its start.
pub proof fn stages_begin_with_the_bridge<P: Payload>(
    core: &mut LiveCore<P>,
    interval: ImuInterval<P>,
)
    requires
        call_ensures(LiveCore::<P>::begin_ingest, (core, interval), Ok::<(), LiveCoreError>(())),
    ensures
        final(core).work is Ingest,
        ({
            let state = old(core).state;
            let stage = final(core).work->Ingest_0;
            let last = state.last_ingested_interval;
            let expected = if last is Some {
                last->0.end
            } else {
                state.predictor_batch.end
            };
            &&& stage.interval == interval
            &&& stage.bridge is Some <==> interval.start.ns > expected.ns
            &&& stage.bridge is Some ==> {
                let bridge = stage.bridge->0;
                &&& bridge.start == expected && bridge.end == interval.start
                &&& bridge.gap_elapsed_ns_plus_one == 1
                &&& bridge.omega_ib_b == last->0.omega_ib_b
                &&& bridge.specific_force_b == last->0.specific_force_b
                &&& bridge.sample_covariance == last->0.sample_covariance
                &&& bridge.degraded_input == last->0.degraded_input
                &&& bridge.calibration_consider_start == last->0.calibration_consider_start
                &&& stage.remaining == Some(bridge)
                &&& stage.interval_follows
            }
            &&& stage.bridge is None ==> stage.remaining == Some(interval)
                && !stage.interval_follows
            &&& stage.closing is None
            &&& stage.segments@.len() == 0
            &&& stage.predictor == state.predictor
            &&& stage.predictor_estimate == state.predictor_estimate
            &&& stage.batch == state.predictor_batch
            &&& stage.deadline == state.next_predictor_deadline
            &&& stage.next_segment_id == state.next_predictor_segment_id
            &&& stage.endpoint.time == state.predictor_endpoint.time
            &&& stage.endpoint.estimate == state.predictor_endpoint.estimate
            &&& stage.endpoint.covariance == state.predictor_endpoint.covariance
            &&& last is Some ==> stage.endpoint == state.predictor_endpoint
                && stage.corrected_endpoint == state.corrected_endpoint
            &&& last is None ==> stage.endpoint.specific_force_b == interval.specific_force_b
                && stage.corrected_endpoint.specific_force_b == interval.specific_force_b
                && stage.corrected_endpoint.estimate == state.corrected_endpoint.estimate
            &&& stage.gap_model == state.gap_model
            &&& stage.navigation_period_ns == state.navigation_period_ns
        }),
{
}

/// A staged piece begins where the last one ended and reaches to the deadline or to the end
/// of its part, whichever is first. Reaching the deadline asks for the segment to be closed.
/// The rest of the part comes next, then the interval behind its bridge, then nothing. The
/// batch is degraded by a piece of a gap and by no other.
pub proof fn staged_pieces_follow_each_other<P: Payload>(
    core: &mut LiveCore<P>,
    stage: IngestStage<P>,
    staged: StagedPiece<P>,
)
    requires
        old(core).wf(),
        old(core).work == Work::Ingest(stage),
        call_ensures(
            LiveCore::<P>::next_ingest_piece,
            (core,),
            Ok::<StagedPiece<P>, LiveCoreError>(staged),
        ),
    ensures
        stage.remaining is Some && stage.closing is None,
        final(core).work is Ingest,
        ({
            let part = stage.remaining->0;
            let after = final(core).work->Ingest_0;
            let piece = staged.piece;
            let gap = part.gap_elapsed_ns_plus_one > 0;
            &&& piece.start == part.start
            &&& piece.end.ns <= part.end.ns && piece.end.ns <= stage.deadline.ns
            &&& piece.end == part.end || piece.end == stage.deadline
            &&& piece.omega_ib_b == part.omega_ib_b && piece.specific_force_b
                == part.specific_force_b && piece.sample_covariance == part.sample_covariance
                && piece.degraded_input == part.degraded_input
            &&& staged.closes_segment <==> piece.end == stage.deadline
            &&& after.closing is Some <==> staged.closes_segment
            &&& after.closing is Some ==> after.closing->0 == piece
            &&& piece.end.ns < part.end.ns ==> after.remaining is Some && after.remaining->0.start
                == piece.end && after.remaining->0.end == part.end && after.interval_follows
                == stage.interval_follows
            &&& piece.end == part.end && stage.interval_follows ==> after.remaining == Some(
                stage.interval,
            ) && !after.interval_follows
            &&& piece.end == part.end && !stage.interval_follows ==> after.remaining is None
            &&& after.batch.end == piece.end
            &&& after.batch.start == stage.batch.start
            &&& after.batch.sample_count == stage.batch.sample_count + 1
            &&& after.batch.degraded == (stage.batch.degraded || gap)
            &&& after.batch.degraded_input == (stage.batch.degraded_input || part.degraded_input)
            &&& after.batch.gap_active_at_end == (gap && piece.end.ns < part.end.ns)
            &&& after.segments == stage.segments && after.predictor == stage.predictor
                && after.endpoint == stage.endpoint && after.deadline == stage.deadline
                && after.next_segment_id == stage.next_segment_id
        }),
        final(core).state == old(core).state,
        final(core).history == old(core).history,
{
    reveal(LiveCore::wf);
}

/// A closed batch becomes one predicted segment: from where the last one ended to the
/// deadline, under the next identifier, with the computed values and the last force at its
/// end, and degraded as the batch is. The predictor stands at its end, a new batch begins
/// there, and the next deadline is one period later.
pub proof fn closed_batches_become_segments<P: Payload>(
    core: &mut LiveCore<P>,
    stage: IngestStage<P>,
    closed: ClosedBatch<P>,
)
    requires
        old(core).wf(),
        old(core).work == Work::Ingest(stage),
        call_ensures(
            LiveCore::<P>::close_ingest_segment,
            (core, closed),
            Ok::<(), LiveCoreError>(()),
        ),
    ensures
        stage.closing is Some,
        final(core).work is Ingest,
        ({
            let after = final(core).work->Ingest_0;
            let count = stage.segments@.len();
            let segment = after.segments@[count as int];
            &&& after.segments@.len() == count + 1
            &&& forall|i: int|
                0 <= i < count ==> #[trigger] after.segments@[i] == stage.segments@[i]
            &&& segment.id == stage.next_segment_id
            &&& segment.start == stage.endpoint
            &&& segment.end.time == stage.deadline
            &&& segment.end.estimate == closed.estimate
            &&& segment.end.specific_force_b == stage.closing->0.specific_force_b
            &&& segment.end.covariance == stage.endpoint.covariance
            &&& segment.attitude_delta == closed.attitude_delta
            &&& segment.degraded == stage.batch.degraded
            &&& segment.degraded_input == stage.batch.degraded_input
            &&& after.endpoint == segment.end
            &&& after.predictor.time == stage.deadline
            &&& after.predictor.degraded_input == stage.batch.degraded_input
            &&& after.predictor.hard_resets == stage.predictor.hard_resets
            &&& after.predictor.tracking_degraded == stage.predictor.tracking_degraded
            &&& after.predictor_estimate == closed.estimate
            &&& after.next_segment_id == stage.next_segment_id + 1
            &&& after.deadline.ns == stage.deadline.ns + stage.navigation_period_ns
            &&& after.batch.start == stage.deadline && after.batch.end == stage.deadline
                && after.batch.sample_count == 0 && !after.batch.degraded
            &&& after.closing is None
            &&& after.remaining == stage.remaining && after.interval_follows
                == stage.interval_follows && after.bridge == stage.bridge
        }),
        closed.segment_is_valid && closed.batch_is_finite && closed.biases_are_valid,
        final(core).state == old(core).state,
        final(core).history == old(core).history,
{
    reveal(LiveCore::wf);
}

/// A staged interval becomes visible as a whole: it and its bridge join the evidence, its
/// segments join the predicted ones, the predictor stands where it was staged to, and the
/// end of the interval is trusted. What is not staged to its end does not become visible.
pub proof fn staged_intervals_become_visible<P: Payload>(
    core: &mut LiveCore<P>,
    stage: IngestStage<P>,
    answer: Result<IngestDisposition, LiveCoreError>,
)
    requires
        old(core).wf(),
        old(core).work == Work::Ingest(stage),
        call_ensures(LiveCore::<P>::commit_ingest, (core,), answer),
    ensures
        ({
            let before = old(core).history;
            let after = final(core).history;
            let staged = stage.remaining is None && stage.closing is None;
            let room = before.predicted@.len() + stage.segments@.len() <= 208;
            &&& answer is Ok <==> staged && room
            &&& !staged ==> answer == Err::<IngestDisposition, LiveCoreError>(
                LiveCoreError::InternalInvariant,
            )
            &&& staged && !room ==> answer == Err::<IngestDisposition, LiveCoreError>(
                LiveCoreError::PredictorHistoryFull,
            )
            &&& answer is Err ==> final(core).state == old(core).state && after == before
            &&& final(core).work is Idle
            &&& answer is Ok ==> {
                &&& stage.bridge is Some ==> after.imu@ == before.imu@ + seq![
                    stage.bridge->0,
                    stage.interval,
                ]
                &&& stage.bridge is None ==> after.imu@ == before.imu@ + seq![stage.interval]
                &&& after.predicted@ == before.predicted@ + stage.segments@
                &&& after.corrected == before.corrected && after.smoothing == before.smoothing
                    && after.active_imu_sample == before.active_imu_sample
                    && after.current_quality == before.current_quality
                &&& final(core).state.scheduler@.latest_trusted_imu == Some(stage.interval.end)
                &&& final(core).state.queue() == old(core).state.queue()
                &&& final(core).state.frontier() == old(core).state.frontier()
                &&& final(core).state.filter == old(core).state.filter
                &&& final(core).state.filter_values == old(core).state.filter_values
                &&& final(core).state.predictor == stage.predictor
                &&& final(core).state.predictor_estimate == stage.predictor_estimate
                &&& final(core).state.predictor_batch == stage.batch
                &&& final(core).state.predictor_endpoint == stage.endpoint
                &&& final(core).state.corrected_endpoint == stage.corrected_endpoint
                &&& final(core).state.next_predictor_deadline == stage.deadline
                &&& final(core).state.next_predictor_segment_id == stage.next_segment_id
                &&& final(core).state.last_ingested_interval == Some(stage.interval)
                &&& stage.bridge is None ==> final(core).state.unreconciled_predictor_gap_end
                    == old(core).state.unreconciled_predictor_gap_end
                &&& stage.bridge is Some ==> {
                    let end = final(core).state.unreconciled_predictor_gap_end;
                    let earlier = old(core).state.unreconciled_predictor_gap_end;
                    &&& end is Some && end->0.ns >= stage.bridge->0.end.ns
                    &&& earlier is Some ==> end->0.ns >= earlier->0.ns
                    &&& end->0 == stage.bridge->0.end || earlier is Some && end->0 == earlier->0
                }
                &&& answer->Ok_0 matches IngestDisposition::ImuAccepted {
                    stored_intervals,
                    predictor_segments,
                    gap_bridged,
                } && {
                    &&& gap_bridged <==> stage.bridge is Some
                    &&& stored_intervals == after.imu@.len() - before.imu@.len()
                    &&& predictor_segments == stage.segments@.len()
                }
            }
        }),
{
    reveal(LiveCore::wf);
    stage.segments.wf_facts();
    if let Ok(_) = answer {
        let before = old(core).history.imu@;
        match stage.bridge {
            Some(bridge) => {
                assert(before.push(bridge).push(stage.interval) =~= before + seq![
                    bridge,
                    stage.interval,
                ]);
            },
            None => {
                assert(before.push(stage.interval) =~= before + seq![stage.interval]);
            },
        }
    }
}

/// An interval counts as staged exactly if nothing of it remains and no segment waits to
/// be closed.
pub proof fn staging_ends_with_nothing_open<P: Payload>(core: LiveCore<P>, staged: bool)
    requires
        call_ensures(LiveCore::<P>::ingest_is_staged, (&core,), staged),
    ensures
        staged <==> core.work is Ingest && core.work->Ingest_0.remaining is None
            && core.work->Ingest_0.closing is None,
{
}

/// Only a gap goes on over a cut: its first piece opens a sample of its own and every later
/// one goes on with it. A measured piece always opens its own, and leaves none open.
pub proof fn only_gaps_go_on_over_a_cut<P: Payload>(
    core: &mut LiveCore<P>,
    stage: IngestStage<P>,
    staged: StagedPiece<P>,
)
    requires
        old(core).wf(),
        old(core).work == Work::Ingest(stage),
        call_ensures(
            LiveCore::<P>::next_ingest_piece,
            (core,),
            Ok::<StagedPiece<P>, LiveCoreError>(staged),
        ),
        !staged.step.poisoned,
    ensures
        ({
            let part = stage.remaining->0;
            let after = final(core).work->Ingest_0.batch;
            let later_piece = part.gap_elapsed_ns_plus_one > 1;
            &&& after.open_sample is Some
            &&& !later_piece ==> staged.step.opens_sample
                && !after.open_sample->0.from_before_batch
            &&& later_piece && stage.batch.open_sample is Some ==> !staged.step.opens_sample
            &&& later_piece && stage.batch.open_sample is None ==> staged.step.opens_sample
                && after.open_sample->0.from_before_batch
            &&& after.open_sample->0.active_after_piece == (part.gap_elapsed_ns_plus_one > 0
                && staged.piece.end.ns < part.end.ns)
            &&& staged.step.starts_gap == (part.gap_elapsed_ns_plus_one > 0
                && stage.batch.gap is None)
        }),
{
    reveal(LiveCore::wf);
}

/// Nothing is staged before a segment that waits is closed, nor beyond the end, and one
/// interval completes no more than ten segments. A failure abandons the interval.
pub proof fn staging_is_bounded<P: Payload>(
    core: &mut LiveCore<P>,
    stage: IngestStage<P>,
    answer: Result<StagedPiece<P>, LiveCoreError>,
)
    requires
        old(core).work == Work::Ingest(stage),
        call_ensures(LiveCore::<P>::next_ingest_piece, (core,), answer),
    ensures
        stage.remaining is None || stage.closing is Some ==> answer == Err::<
            StagedPiece<P>,
            LiveCoreError,
        >(LiveCoreError::InternalInvariant),
        answer matches Ok(staged) && staged.closes_segment ==> stage.segments@.len() != 10,
        answer == Err::<StagedPiece<P>, LiveCoreError>(LiveCoreError::PredictorWorkBoundExceeded)
            ==> stage.segments@.len() == 10,
        answer is Err ==> final(core).work is Idle,
        final(core).state == old(core).state && final(core).history == old(core).history,
{
}

/// Why a segment cannot be closed: none waits, the batch cannot be used, the predictor
/// refuses it, its values are not valid, or identifiers, biases or time run out. A failure
/// abandons the interval.
pub proof fn closings_fail_for_a_reason<P: Payload>(
    core: &mut LiveCore<P>,
    stage: IngestStage<P>,
    closed: ClosedBatch<P>,
    answer: Result<(), LiveCoreError>,
)
    requires
        old(core).wf(),
        old(core).work == Work::Ingest(stage),
        call_ensures(LiveCore::<P>::close_ingest_segment, (core, closed), answer),
    ensures
        ({
            let predicted = closed.predictor.bias_correction_is_valid
                && !closed.predictor.duration_is_too_long && closed.predictor.state_is_finite
                && closed.predictor.correction_is_finite;
            let duration = stage.batch.end.ns - stage.batch.start.ns;
            &&& answer is Ok <==> stage.closing is Some && !stage.batch.poisoned
                && closed.batch_is_finite && predicted && 0 < duration <= i64::MAX
                && closed.segment_is_valid && stage.next_segment_id < u64::MAX
                && closed.biases_are_valid && stage.deadline.ns + stage.navigation_period_ns
                <= i64::MAX
            &&& stage.closing is None ==> answer == Err::<(), LiveCoreError>(
                LiveCoreError::InternalInvariant,
            )
            &&& stage.closing is Some && (stage.batch.poisoned || !closed.batch_is_finite)
                ==> answer == Err::<(), LiveCoreError>(
                LiveCoreError::Preintegration(PreintegrationError::NonFinite),
            )
            &&& stage.closing is Some && !stage.batch.poisoned && closed.batch_is_finite
                && !predicted ==> answer is Err && answer->Err_0 is Predictor
            &&& answer is Err ==> final(core).work is Idle
            &&& final(core).state == old(core).state && final(core).history == old(core).history
        }),
{
    reveal(LiveCore::wf);
}

} // verus!
