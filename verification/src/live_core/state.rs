//! The state of the live core and what always holds of it.
use vstd::prelude::*;

use crate::capacity::{DENSE_HISTORY_CAPACITY, IMU_HISTORY_CAPACITY, MEASUREMENT_QUEUE_CAPACITY};
use crate::dense_history::{DenseEndpoint, DenseHistory, DenseSegment};
use crate::error::{EskfError, LiveCoreError, PredictorError, PreintegrationError};
use crate::eskf::FilterLedger;
use crate::gnss::{GnssObservation, GnssQualityUpdate};
use crate::imu::{CorrectedImuSample, GapModel, ImuInterval};
use crate::imu::comparable;
use crate::live_core::config::{LiveCoreConfig, checked_time_add};
use crate::live_core::config::{
    time_sum, MAX_NAVIGATION_PERIOD_NS, MIN_NAVIGATION_PERIOD_NS,
};
use crate::live_core::work::{FilterValues, PendingCorrectedSegment, Work};
use crate::payload::Payload;
use crate::predictor::PredictorLedger;
use crate::preintegration::BatchLedger;
use crate::preintegration::MAX_BATCH_SAMPLES;
use crate::queue::Scheduled;
use crate::ring::FixedRing;
use crate::rts_window::{RtsWindow, MAX_SMOOTHING_LAG_NS};
use crate::rts_window::RtsWindowModel;
use crate::scheduler::FrontierScheduler;
use crate::scheduler::SchedulerModel;
use crate::time::SessionTime;

verus! {

/// Values that stand in idle storage.
#[derive(Clone, Copy, Debug, PartialEq)]
pub struct Blank<P: Payload> {
    pub endpoint: DenseEndpoint<P>,
    pub gap_model: GapModel<P>,
}

/// Quality at both ends of a published segment.
#[derive(Clone, Copy, Debug, PartialEq)]
pub struct SegmentQuality<P: Payload> {
    pub start: Option<GnssQualityUpdate<P>>,
    pub end: Option<GnssQualityUpdate<P>>,
}

/// Large, rarely touched buffers.
#[derive(Clone, Copy, Debug, PartialEq)]
pub struct LiveCoreHistory<P: Payload> {
    pub imu: FixedRing<ImuInterval<P>, IMU_HISTORY_CAPACITY>,
    pub corrected: DenseHistory<P, DENSE_HISTORY_CAPACITY>,
    pub predicted: DenseHistory<P, DENSE_HISTORY_CAPACITY>,
    /// The sample whose support owns the corrected frontier.
    pub active_imu_sample: Option<CorrectedImuSample<P>>,
    pub smoothing: RtsWindow<P>,
    pub corrected_quality: FixedRing<SegmentQuality<P>, DENSE_HISTORY_CAPACITY>,
    pub current_quality: Option<GnssQualityUpdate<P>>,
    pub endpoint_quality: Option<GnssQualityUpdate<P>>,
    pub published_frontier: Option<SessionTime>,
}

/// Hot persistent state.
#[derive(Clone, Copy, Debug, PartialEq)]
pub struct LiveCoreState<P: Payload> {
    pub scheduler: FrontierScheduler<GnssObservation<P>, MEASUREMENT_QUEUE_CAPACITY>,
    pub filter: FilterLedger<P>,
    pub filter_values: FilterValues<P>,
    pub predictor: PredictorLedger,
    pub predictor_estimate: P::Estimate,
    pub predictor_batch: BatchLedger<P>,
    pub gap_model: GapModel<P>,
    pub navigation_period_ns: i64,
    pub smoothing_lag_ns: i64,
    pub next_corrected_deadline: SessionTime,
    pub next_predictor_deadline: SessionTime,
    pub corrected_pending_interval: Option<ImuInterval<P>>,
    pub pending_corrected_segment: Option<PendingCorrectedSegment<P>>,
    pub previous_corrected_kinematics: Option<CorrectedImuSample<P>>,
    pub corrected_epoch_kinematics: Option<CorrectedImuSample<P>>,
    pub corrected_endpoint: DenseEndpoint<P>,
    pub predictor_endpoint: DenseEndpoint<P>,
    pub last_ingested_interval: Option<ImuInterval<P>>,
    pub unreconciled_predictor_gap_end: Option<SessionTime>,
    pub next_corrected_segment_id: u64,
    pub next_predictor_segment_id: u64,
    pub active: bool,
    pub blank: Blank<P>,
}

/// What a session starts from.
#[derive(Clone, Copy, Debug, PartialEq)]
pub struct LiveCoreSeed<P: Payload> {
    pub endpoint: DenseEndpoint<P>,
    /// The covariance of the filter. Conditioning may set it apart from that of
    /// the endpoint.
    pub filter_covariance: P::EndpointCovariance,
    pub active_consider: usize,
    /// The verdict on the initial filter numbers.
    pub filter_error: Option<EskfError>,
    pub state_is_finite: bool,
    pub biases_are_valid: bool,
}

impl<P: Payload> LiveCoreHistory<P> {
    pub open spec fn wf(self) -> bool {
        &&& self.imu.wf()
        &&& self.corrected.wf()
        &&& self.predicted.wf()
        &&& self.smoothing.wf()
        &&& self.corrected_quality.wf()
    }

    /// Whether nothing of an earlier session is left.
    pub open spec fn is_blank(self) -> bool {
        &&& self.wf()
        &&& self.imu@.len() == 0
        &&& self.corrected@.len() == 0
        &&& self.predicted@.len() == 0
        &&& self.active_imu_sample is None
        &&& self.smoothing@ == RtsWindowModel::<P>::empty()
        &&& self.corrected_quality@.len() == 0
        &&& self.current_quality is None
        &&& self.endpoint_quality is None
        &&& self.published_frontier is None
    }

    pub fn new() -> (history: Self)
        ensures
            history.is_blank(),
    {
        LiveCoreHistory {
            imu: FixedRing::new(),
            corrected: DenseHistory::new(),
            predicted: DenseHistory::new(),
            active_imu_sample: None,
            smoothing: RtsWindow::new(),
            corrected_quality: FixedRing::new(),
            current_quality: None,
            endpoint_quality: None,
            published_frontier: None,
        }
    }

    /// Whether a session may start on this history.
    pub fn is_empty(&self) -> (empty: bool)
        requires
            self.wf(),
        ensures
            empty == (self.imu@.len() == 0 && self.corrected@.len() == 0 && self.predicted@.len()
                == 0 && self.active_imu_sample is None && self.smoothing@.nodes.len() == 0),
    {
        self.imu.len() == 0 && self.corrected.len() == 0 && self.predicted.len() == 0
            && self.active_imu_sample.is_none() && self.smoothing.is_empty()
    }

    pub fn raw_imu_len(&self) -> (len: usize)
        requires
            self.wf(),
        ensures
            len == self.imu@.len(),
    {
        self.imu.len()
    }

    /// Releases the buffers for a later session.
    pub fn clear(&mut self)
        ensures
            final(self).is_blank(),
    {
        self.imu = FixedRing::new();
        self.corrected = DenseHistory::new();
        self.predicted = DenseHistory::new();
        self.active_imu_sample = None;
        self.smoothing.clear();
        self.corrected_quality = FixedRing::new();
        self.current_quality = None;
        self.endpoint_quality = None;
        self.published_frontier = None;
    }
}

impl<P: Payload> LiveCoreState<P> {
    /// The idle state that carries `blank`.
    pub open spec fn is_idle(self, blank: Blank<P>) -> bool {
        &&& self.scheduler.wf()
        &&& self.scheduler@ == SchedulerModel::<GnssObservation<P>>::idle()
        &&& self.filter == FilterLedger::<P>::spec_placeholder()
        &&& self.filter_values == (FilterValues::<P> {
            estimate: blank.endpoint.estimate,
            covariance: blank.endpoint.covariance,
        })
        &&& self.predictor == PredictorLedger::at(SessionTime { ns: 0 })
        &&& self.predictor_estimate == blank.endpoint.estimate
        &&& self.predictor_batch == BatchLedger::<P>::empty_at(SessionTime { ns: 0 })
        &&& self.gap_model == blank.gap_model
        &&& self.navigation_period_ns == 0
        &&& self.smoothing_lag_ns == 0
        &&& self.next_corrected_deadline == (SessionTime { ns: 0 })
        &&& self.next_predictor_deadline == (SessionTime { ns: 0 })
        &&& self.corrected_pending_interval is None
        &&& self.pending_corrected_segment is None
        &&& self.previous_corrected_kinematics is None
        &&& self.corrected_epoch_kinematics is None
        &&& self.corrected_endpoint == blank.endpoint
        &&& self.predictor_endpoint == blank.endpoint
        &&& self.last_ingested_interval is None
        &&& self.unreconciled_predictor_gap_end is None
        &&& self.next_corrected_segment_id == 0
        &&& self.next_predictor_segment_id == 0
        &&& !self.active
        &&& self.blank == blank
    }

    /// Idle state, ready to be initialized in place.
    pub fn placeholder(blank: Blank<P>) -> (state: Self)
        ensures
            state.is_idle(blank),
    {
        LiveCoreState {
            scheduler: FrontierScheduler::placeholder(),
            filter: FilterLedger::placeholder(),
            filter_values: FilterValues {
                estimate: blank.endpoint.estimate,
                covariance: blank.endpoint.covariance,
            },
            predictor: PredictorLedger::placeholder(),
            predictor_estimate: blank.endpoint.estimate,
            predictor_batch: BatchLedger::placeholder(),
            gap_model: blank.gap_model,
            navigation_period_ns: 0,
            smoothing_lag_ns: 0,
            next_corrected_deadline: SessionTime::zero(),
            next_predictor_deadline: SessionTime::zero(),
            corrected_pending_interval: None,
            pending_corrected_segment: None,
            previous_corrected_kinematics: None,
            corrected_epoch_kinematics: None,
            corrected_endpoint: blank.endpoint,
            predictor_endpoint: blank.endpoint,
            last_ingested_interval: None,
            unreconciled_predictor_gap_end: None,
            next_corrected_segment_id: 0,
            next_predictor_segment_id: 0,
            active: false,
            blank,
        }
    }

    /// Whether initialization completed successfully.
    pub fn is_active(&self) -> (active: bool)
        ensures
            active == self.active,
    {
        self.active
    }

    /// Back to the idle state.
    pub fn reset(&mut self)
        ensures
            final(self).is_idle(old(self).blank),
    {
        *self = LiveCoreState::placeholder(self.blank);
    }

    /// Why a session cannot start, if it cannot.
    pub open spec fn seed_verdict(
        config: LiveCoreConfig<P>,
        seed: LiveCoreSeed<P>,
        history: LiveCoreHistory<P>,
    ) -> Result<(), LiveCoreError> {
        if config.verdict() is Err {
            config.verdict()
        } else if seed.active_consider > P::MAX_CONSIDER || !(history.imu@.len() == 0
            && history.corrected@.len() == 0 && history.predicted@.len() == 0
            && history.active_imu_sample is None && history.smoothing@.nodes.len() == 0) {
            Err(LiveCoreError::HistoryNotEmptyOrInvalidSeed)
        } else if time_sum(seed.endpoint.time, config.navigation_period_ns) is Err {
            Err(LiveCoreError::TimeOverflow)
        } else if seed.filter_error is Some {
            Err(LiveCoreError::Eskf(seed.filter_error->0))
        } else if !seed.state_is_finite {
            Err(LiveCoreError::Predictor(PredictorError::NonFinite))
        } else if !seed.biases_are_valid {
            Err(LiveCoreError::Preintegration(PreintegrationError::NonFinite))
        } else {
            Ok(())
        }
    }

    /// The state of a session that has just started.
    pub open spec fn is_started(
        self,
        config: LiveCoreConfig<P>,
        seed: LiveCoreSeed<P>,
        blank: Blank<P>,
    ) -> bool {
        let start = seed.endpoint.time;
        let deadline = SessionTime { ns: (start.ns + config.navigation_period_ns) as i64 };
        &&& self.scheduler.wf()
        &&& self.scheduler@ == (SchedulerModel {
            fusion_delay_ns: config.fusion_delay_ns as int,
            ..SchedulerModel::<GnssObservation<P>>::idle()
        })
        &&& self.filter == (FilterLedger::<P> {
            time: start,
            active_consider: seed.active_consider,
            gap: None,
        })
        &&& self.filter_values == (FilterValues::<P> {
            estimate: seed.endpoint.estimate,
            covariance: seed.filter_covariance,
        })
        &&& self.predictor == PredictorLedger::at(start)
        &&& self.predictor_estimate == seed.endpoint.estimate
        &&& self.predictor_batch == BatchLedger::<P>::empty_at(start)
        &&& self.gap_model == config.gap
        &&& self.navigation_period_ns == config.navigation_period_ns
        &&& self.smoothing_lag_ns == config.smoothing_lag_ns
        &&& self.next_corrected_deadline == deadline
        &&& self.next_predictor_deadline == deadline
        &&& self.corrected_pending_interval is None
        &&& self.pending_corrected_segment is None
        &&& self.previous_corrected_kinematics is None
        &&& self.corrected_epoch_kinematics is None
        &&& self.corrected_endpoint == seed.endpoint
        &&& self.predictor_endpoint == seed.endpoint
        &&& self.last_ingested_interval is None
        &&& self.unreconciled_predictor_gap_end is None
        &&& self.next_corrected_segment_id == 1
        &&& self.next_predictor_segment_id == 1
        &&& self.active
        &&& self.blank == blank
    }

    /// Starts a session in place. On every error the state is idle and the
    /// history is as it was.
    pub fn initialize(
        &mut self,
        config: &LiveCoreConfig<P>,
        seed: &LiveCoreSeed<P>,
        history: &LiveCoreHistory<P>,
    ) -> (r: Result<(), LiveCoreError>)
        requires
            history.wf(),
        ensures
            r == Self::seed_verdict(*config, *seed, *history),
            r is Ok ==> final(self).is_started(*config, *seed, old(self).blank),
            r is Err ==> final(self).is_idle(old(self).blank),
    {
        self.reset();
        let result = self.initialize_inner(config, seed, history);
        if result.is_err() {
            self.reset();
        }
        result
    }

    fn initialize_inner(
        &mut self,
        config: &LiveCoreConfig<P>,
        seed: &LiveCoreSeed<P>,
        history: &LiveCoreHistory<P>,
    ) -> (r: Result<(), LiveCoreError>)
        requires
            history.wf(),
            old(self).is_idle(old(self).blank),
        ensures
            r == Self::seed_verdict(*config, *seed, *history),
            r is Ok ==> final(self).is_started(*config, *seed, old(self).blank),
            final(self).blank == old(self).blank,
    {
        match config.validate() {
            Err(error) => {
                return Err(error);
            },
            Ok(_) => {},
        }
        if seed.active_consider > P::MAX_CONSIDER || !history.is_empty() {
            return Err(LiveCoreError::HistoryNotEmptyOrInvalidSeed);
        }
        let first_deadline = match checked_time_add(
            seed.endpoint.time,
            config.navigation_period_ns,
        ) {
            Err(error) => {
                return Err(error);
            },
            Ok(deadline) => deadline,
        };
        match self.scheduler.initialize(config.fusion_delay_ns) {
            Err(error) => {
                return Err(LiveCoreError::Scheduler(error));
            },
            Ok(_) => {},
        }
        if let Some(error) = seed.filter_error {
            return Err(LiveCoreError::Eskf(error));
        }
        if !seed.state_is_finite {
            return Err(LiveCoreError::Predictor(PredictorError::NonFinite));
        }
        match self.predictor_batch.initialize(seed.endpoint.time, seed.biases_are_valid) {
            Err(error) => {
                return Err(LiveCoreError::Preintegration(error));
            },
            Ok(_) => {},
        }
        self.filter =
        FilterLedger { time: seed.endpoint.time, active_consider: seed.active_consider, gap: None };
        self.filter_values =
        FilterValues { estimate: seed.endpoint.estimate, covariance: seed.filter_covariance };
        self.predictor = PredictorLedger::start_at(seed.endpoint.time);
        self.predictor_estimate = seed.endpoint.estimate;
        self.gap_model = config.gap;
        self.navigation_period_ns = config.navigation_period_ns;
        self.smoothing_lag_ns = config.smoothing_lag_ns;
        self.next_corrected_deadline = first_deadline;
        self.next_predictor_deadline = first_deadline;
        self.corrected_endpoint = seed.endpoint;
        self.predictor_endpoint = seed.endpoint;
        self.next_corrected_segment_id = 1;
        self.next_predictor_segment_id = 1;
        self.active = true;
        Ok(())
    }

    pub fn new(
        blank: Blank<P>,
        config: &LiveCoreConfig<P>,
        seed: &LiveCoreSeed<P>,
        history: &LiveCoreHistory<P>,
    ) -> (r: Result<Self, LiveCoreError>)
        requires
            history.wf(),
        ensures
            match Self::seed_verdict(*config, *seed, *history) {
                Err(error) => r == Err::<Self, LiveCoreError>(error),
                Ok(_) => r is Ok && r->Ok_0.is_started(*config, *seed, blank),
            },
    {
        let mut result = Self::placeholder(blank);
        match result.initialize(config, seed, history) {
            Err(error) => Err(error),
            Ok(_) => Ok(result),
        }
    }
}

/// Whether intervals follow each other without holes.
pub open spec fn linked<P: Payload>(chain: Seq<ImuInterval<P>>) -> bool {
    &&& forall|i: int| 0 <= i < chain.len() ==> (#[trigger] chain[i]).verdict() is Ok
    &&& forall|i: int, j: int|
        #![trigger chain[i], chain[j]]
        0 <= i && j == i + 1 && j < chain.len() ==> chain[i].end == chain[j].start
}

/// Whether `chain` supports exactly the time from `start` to `end`.
pub open spec fn supports<P: Payload>(
    chain: Seq<ImuInterval<P>>,
    start: SessionTime,
    end: SessionTime,
) -> bool {
    &&& linked(chain)
    &&& if chain.len() == 0 {
        start == end
    } else {
        chain[0].start == start && chain.last().end == end
    }
}

/// The live core: hot state, buffers, and the work that is under way.
#[derive(Clone, Copy, Debug, PartialEq)]
pub struct LiveCore<P: Payload> {
    pub state: LiveCoreState<P>,
    pub history: LiveCoreHistory<P>,
    pub work: Work<P>,
}

impl<P: Payload> LiveCoreState<P> {
    /// The end of the inertial evidence.
    pub open spec fn evidence_end(self) -> SessionTime {
        match self.scheduler@.latest_trusted_imu {
            Some(latest) => latest,
            None => self.filter.time,
        }
    }

    pub open spec fn queue(self) -> Seq<Scheduled<GnssObservation<P>>> {
        self.scheduler@.queue
    }

    pub open spec fn frontier(self) -> Option<SessionTime> {
        self.scheduler@.processed_frontier
    }

    /// The scheduler and the tuning are valid.
    pub open spec fn tuning_ok(self) -> bool {
        &&& comparable::<P>()
        &&& self.active
        &&& self.scheduler.wf()
        &&& MIN_NAVIGATION_PERIOD_NS <= self.navigation_period_ns <= MAX_NAVIGATION_PERIOD_NS
        &&& self.navigation_period_ns <= self.scheduler@.fusion_delay_ns
        &&& 0 <= self.smoothing_lag_ns <= MAX_SMOOTHING_LAG_NS
        &&& self.gap_model.valid()
    }

    /// What was ingested last is what is trusted last. Before the first
    /// interval nothing has moved.
    pub open spec fn ingestion_ok(self) -> bool {
        match self.last_ingested_interval {
            Some(last) => last.verdict() is Ok && self.scheduler@.latest_trusted_imu == Some(
                last.end,
            ),
            None => self.scheduler@.latest_trusted_imu is None && self.pending_corrected_segment
                is None && self.frontier() is None,
        }
    }

    /// The frontier, the pending segment and the queue agree: nothing that is
    /// queued is older than the filter, and nothing at the committed frontier
    /// is still waiting.
    pub open spec fn frontier_ok(self) -> bool {
        let now = self.filter.time;
        &&& now.ns < self.next_corrected_deadline.ns
        &&& match self.pending_corrected_segment {
            Some(pending) => {
                &&& pending.start == self.corrected_endpoint
                &&& pending.start.time.ns < now.ns
                &&& self.frontier() == Some(pending.start.time)
                &&& self.scheduler@.target() is Ok
                &&& now.ns <= self.scheduler@.target()->Ok_0.ns
            },
            None => {
                &&& self.corrected_endpoint.time == now
                &&& self.frontier() is None || self.frontier() == Some(now)
            },
        }
        &&& forall|i: int|
            0 <= i < self.queue().len() ==> {
                &&& (#[trigger] self.queue()[i]).key.time.ns >= now.ns
                &&& self.frontier() is Some && self.pending_corrected_segment is None
                    ==> self.queue()[i].key.time.ns > now.ns
            }
    }

    /// The sample of the last propagation supports the filter's epoch. Before
    /// the first one, evidence lies ahead as soon as there is any.
    pub open spec fn kinematics_ok(self) -> bool {
        match self.corrected_epoch_kinematics {
            Some(sample) => sample.support_start.ns <= self.filter.time.ns
                <= sample.support_end.ns,
            None => self.scheduler@.latest_trusted_imu is Some ==> self.filter.time.ns
                < self.scheduler@.latest_trusted_imu->0.ns,
        }
    }

    /// The predictor has consumed all of the evidence.
    pub open spec fn predictor_ok(self) -> bool {
        let batch = self.predictor_batch;
        &&& batch.sample_count <= MAX_BATCH_SAMPLES
        &&& batch.start == self.predictor.time
        &&& batch.start == self.predictor_endpoint.time
        &&& batch.start.ns <= batch.end.ns
        &&& batch.sample_count == 0 <==> batch.start == batch.end
        &&& batch.end == self.evidence_end()
        &&& batch.end.ns < self.next_predictor_deadline.ns
        &&& self.next_predictor_deadline.ns <= batch.start.ns + self.navigation_period_ns
        &&& self.scheduler@.finishing ==> batch.sample_count == 0
    }
}

/// Inertial evidence that the filter has not used yet, oldest first.
pub open spec fn evidence<P: Payload>(
    state: LiveCoreState<P>,
    history: LiveCoreHistory<P>,
) -> Seq<ImuInterval<P>> {
    match state.corrected_pending_interval {
        Some(interval) => seq![interval] + history.imu@,
        None => history.imu@,
    }
}

/// The retained evidence reaches without a hole from the filter's epoch to the
/// newest trusted instant.
pub open spec fn evidence_ok<P: Payload>(
    state: LiveCoreState<P>,
    history: LiveCoreHistory<P>,
) -> bool {
    supports(evidence(state, history), state.filter.time, state.evidence_end())
}

/// The predicted segments reach from the corrected endpoint, or before it, to
/// the predictor.
pub open spec fn predicted_ok<P: Payload>(
    state: LiveCoreState<P>,
    predicted: Seq<DenseSegment<P>>,
) -> bool {
    if predicted.len() == 0 {
        state.predictor_endpoint.time.ns <= state.corrected_endpoint.time.ns
    } else {
        &&& predicted[0].start.time.ns <= state.corrected_endpoint.time.ns
        &&& predicted.last().end.time == state.predictor_endpoint.time
        &&& predicted.last().id < state.next_predictor_segment_id
    }
}

/// The smoothing window ends at the filter's epoch and holds complete segments,
/// except for the pending one.
pub open spec fn window_ok<P: Payload>(
    state: LiveCoreState<P>,
    window: RtsWindowModel<P>,
) -> bool {
    let nodes = window.nodes;
    &&& state.smoothing_lag_ns == 0 ==> nodes.len() == 0
    &&& window.cursor is Some ==> state.pending_corrected_segment is None
    &&& nodes.len() > 0 ==> {
        &&& state.frontier() is Some
        &&& nodes.last().time == state.filter.time
        &&& match state.pending_corrected_segment {
            Some(pending) => {
                &&& nodes.len() >= 2
                &&& nodes[nodes.len() - 2].time == pending.start.time
                &&& forall|i: int|
                    0 < i < nodes.len() - 1 ==> (#[trigger] nodes[i]).incoming is Some
            },
            None => forall|i: int| 0 < i < nodes.len() ==> (#[trigger] nodes[i]).incoming is Some,
        }
    }
    &&& nodes.len() == 0 && state.smoothing_lag_ns != 0 ==> state.pending_corrected_segment is None
}

/// Where the published part ends.
pub open spec fn published_boundary<P: Payload>(
    state: LiveCoreState<P>,
    window: RtsWindowModel<P>,
) -> SessionTime {
    if window.nodes.len() > 0 {
        window.nodes[0].time
    } else {
        state.corrected_endpoint.time
    }
}

/// Published segments join what has not been published yet, in time and in
/// number.
pub open spec fn published_ok<P: Payload>(
    state: LiveCoreState<P>,
    window: RtsWindowModel<P>,
    corrected: Seq<DenseSegment<P>>,
    published_frontier: Option<SessionTime>,
) -> bool {
    let nodes = window.nodes;
    &&& corrected.len() > 0 ==> {
        &&& corrected.last().end.time == published_boundary(state, window)
        &&& corrected.last().id < state.next_corrected_segment_id
        &&& forall|i: int|
            0 < i < nodes.len() && (#[trigger] nodes[i]).incoming is Some ==> corrected.last().id
                < nodes[i].incoming->0.id
    }
    &&& forall|i: int|
        0 < i < nodes.len() && (#[trigger] nodes[i]).incoming is Some ==> nodes[i].incoming->0.id
            < state.next_corrected_segment_id
    &&& forall|i: int, j: int|
        #![trigger nodes[i], nodes[j]]
        0 < i < j < nodes.len() && nodes[i].incoming is Some && nodes[j].incoming is Some
            ==> nodes[i].incoming->0.id < nodes[j].incoming->0.id
    &&& published_frontier == (if state.frontier() is Some {
        Some(published_boundary(state, window))
    } else {
        None
    })
}

/// What holds between any two operations. Publication stays in order for as
/// long as the quality of every published segment could be stored.
pub open spec fn settled<P: Payload>(
    state: LiveCoreState<P>,
    history: LiveCoreHistory<P>,
) -> bool {
    &&& state.tuning_ok()
    &&& state.ingestion_ok()
    &&& state.frontier_ok()
    &&& state.kinematics_ok()
    &&& state.predictor_ok()
    &&& history.wf()
    &&& history.active_imu_sample is Some ==> history.active_imu_sample->0.support_start.ns
        <= state.filter.time.ns
    &&& state.pending_corrected_segment is Some ==> history.active_imu_sample is Some
    &&& evidence_ok(state, history)
    &&& predicted_ok(state, history.predicted@)
    &&& window_ok(state, history.smoothing@)
    &&& history.corrected_quality@.len() < DENSE_HISTORY_CAPACITY ==> published_ok(
        state,
        history.smoothing@,
        history.corrected@,
        history.published_frontier,
    )
}

impl<P: Payload> LiveCore<P> {
    /// Whether the core is between two operations, or within a piece of work
    /// that has not changed it yet.
    pub open spec fn settled(self) -> bool {
        settled(self.state, self.history)
    }

    /// Joins a state and its buffers for a sequence of operations.
    pub fn attach(state: LiveCoreState<P>, history: LiveCoreHistory<P>) -> (core: Self)
        ensures
            core == (LiveCore { state, history, work: Work::Idle }),
            settled(state, history) ==> core.wf(),
    {
        let core = LiveCore { state, history, work: Work::Idle };
        proof {
            if settled(state, history) {
                core.idle_is_wf();
            }
        }
        core
    }

    /// Releases the state and its buffers. Work under way is abandoned.
    pub fn detach(self) -> (parts: (LiveCoreState<P>, LiveCoreHistory<P>))
        ensures
            parts.0 == self.state,
            parts.1 == self.history,
    {
        (self.state, self.history)
    }
}

/// A session that has just started on blank buffers is settled, and any
/// operation may follow.
pub proof fn started_core_is_settled<P: Payload>(
    config: LiveCoreConfig<P>,
    seed: LiveCoreSeed<P>,
    blank: Blank<P>,
    core: LiveCore<P>,
)
    requires
        comparable::<P>(),
        LiveCoreState::seed_verdict(config, seed, core.history) is Ok,
        core.state.is_started(config, seed, blank),
        core.history.is_blank(),
    ensures
        core.settled(),
        core.work is Idle ==> core.wf(),
{
    if core.work is Idle {
        core.idle_is_wf();
    }
}

/// A session starts exactly on a valid configuration, valid numbers and empty buffers. It
/// starts at the seed: filter and predictor stand there with its values, both first
/// deadlines are one period later, numbering begins at one, and nothing waits.
pub proof fn sessions_start_at_their_seed<P: Payload>(
    state: &mut LiveCoreState<P>,
    config: LiveCoreConfig<P>,
    seed: LiveCoreSeed<P>,
    history: LiveCoreHistory<P>,
    checked: Result<(), LiveCoreError>,
    answer: Result<(), LiveCoreError>,
)
    requires
        call_ensures(LiveCoreConfig::<P>::validate, (&config,), checked),
        call_ensures(
            LiveCoreState::<P>::initialize,
            (state, &config, &seed, &history),
            answer,
        ),
    ensures
        ({
            let after = *final(state);
            let start = seed.endpoint.time;
            let empty = history.imu@.len() == 0 && history.corrected@.len() == 0
                && history.predicted@.len() == 0 && history.active_imu_sample is None
                && history.smoothing@.nodes.len() == 0;
            let fits = empty && seed.active_consider <= P::MAX_CONSIDER;
            let ahead = start.ns + config.navigation_period_ns;
            &&& answer is Ok <==> checked is Ok && fits && i64::MIN <= ahead <= i64::MAX
                && seed.filter_error is None && seed.state_is_finite && seed.biases_are_valid
            &&& checked is Err ==> answer == checked
            &&& checked is Ok && !fits ==> answer == Err::<(), LiveCoreError>(
                LiveCoreError::HistoryNotEmptyOrInvalidSeed,
            )
            &&& checked is Ok && fits && i64::MIN <= ahead <= i64::MAX && seed.filter_error is Some
                ==> answer == Err::<(), LiveCoreError>(LiveCoreError::Eskf(seed.filter_error->0))
            &&& after.active == (answer is Ok)
            &&& after.blank == old(state).blank
            &&& after.queue().len() == 0 && after.frontier() is None
            &&& after.scheduler@.latest_trusted_imu is None && !after.scheduler@.finishing
            &&& after.pending_corrected_segment is None && after.corrected_pending_interval is None
                && after.last_ingested_interval is None
                && after.unreconciled_predictor_gap_end is None
                && after.corrected_epoch_kinematics is None
                && after.previous_corrected_kinematics is None
            &&& answer is Ok ==> {
                &&& after.filter.time == start && after.filter.gap is None
                &&& after.filter.active_consider == seed.active_consider
                &&& after.filter_values.estimate == seed.endpoint.estimate
                &&& after.filter_values.covariance == seed.filter_covariance
                &&& after.predictor.time == start && after.predictor.hard_resets == 0
                    && !after.predictor.degraded_input && !after.predictor.tracking_degraded
                &&& after.predictor_estimate == seed.endpoint.estimate
                &&& after.predictor_batch.start == start && after.predictor_batch.end == start
                    && after.predictor_batch.sample_count == 0
                &&& after.corrected_endpoint == seed.endpoint && after.predictor_endpoint
                    == seed.endpoint
                &&& after.next_corrected_deadline.ns == ahead && after.next_predictor_deadline.ns
                    == ahead
                &&& after.next_corrected_segment_id == 1 && after.next_predictor_segment_id == 1
                &&& after.gap_model == config.gap
                &&& after.navigation_period_ns == config.navigation_period_ns
                &&& after.smoothing_lag_ns == config.smoothing_lag_ns
                &&& after.scheduler@.fusion_delay_ns == config.fusion_delay_ns
            }
        }),
{
}

/// Cleared buffers are as good as new, and a session may start on them; buffers that hold
/// anything of an earlier one are not empty.
pub proof fn cleared_buffers_are_empty<P: Payload>(
    history: &mut LiveCoreHistory<P>,
    was_empty: bool,
    is_empty: bool,
)
    requires
        call_ensures(LiveCoreHistory::<P>::is_empty, (&*old(history),), was_empty),
        call_ensures(LiveCoreHistory::<P>::clear, (history,), ()),
        call_ensures(LiveCoreHistory::<P>::is_empty, (&*final(history),), is_empty),
    ensures
        is_empty,
        was_empty ==> old(history).imu@.len() == 0 && old(history).corrected@.len() == 0 && old(history).predicted@.len() == 0 && old(history).active_imu_sample is None && old(history).smoothing@.nodes.len() == 0,
        !was_empty ==> old(history).imu@.len() > 0 || old(history).corrected@.len() > 0 || old(history).predicted@.len() > 0 || old(history).active_imu_sample is Some || old(history).smoothing@.nodes.len() > 0,
        final(history).corrected_quality@.len() == 0,
        final(history).current_quality is None && final(history).endpoint_quality is None,
        final(history).published_frontier is None,
        final(history).smoothing@.frozen_start is None && !final(history).smoothing@.dirty,
{
}

/// A reset state is inactive and keeps nothing of its session.
pub proof fn reset_states_are_inactive<P: Payload>(state: &mut LiveCoreState<P>, active: bool)
    requires
        call_ensures(LiveCoreState::<P>::reset, (state,), ()),
        call_ensures(LiveCoreState::<P>::is_active, (&*final(state),), active),
    ensures
        !active,
        final(state).queue().len() == 0,
        final(state).pending_corrected_segment is None,
        final(state).last_ingested_interval is None,
        final(state).next_corrected_segment_id == 0 && final(state).next_predictor_segment_id == 0,
        final(state).corrected_endpoint == old(state).blank.endpoint,
        final(state).predictor_endpoint == old(state).blank.endpoint,
        final(state).blank == old(state).blank,
{
}

/// Attaching and detaching give back what was put together.
pub proof fn attached_parts_come_back<P: Payload>(
    state: LiveCoreState<P>,
    history: LiveCoreHistory<P>,
    core: LiveCore<P>,
    parts: (LiveCoreState<P>, LiveCoreHistory<P>),
)
    requires
        call_ensures(LiveCore::<P>::attach, (state, history), core),
        call_ensures(LiveCore::<P>::detach, (core,), parts),
    ensures
        core.work is Idle,
        parts == (state, history),
{
}

} // verus!
