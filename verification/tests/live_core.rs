use traj::dense_history::{DenseEndpoint, DenseSegment};
use traj::error::{
    DenseHistoryError, EskfError, LiveCoreError, PredictorError, PreintegrationError,
    ReanchorError, SmoothingError,
};
use traj::eskf::BatchNumbers;
use traj::gnss::{GnssObservation, GnssQualityUpdate, UpdateDecision};
use traj::imu::{GapModel, ImuInterval};
use traj::live_core::config::{
    LiveCoreConfig, FILTER_PROPAGATION_CREDITS, FRONTIER_COMMIT_CREDITS, IMU_SLICE_CREDITS,
};
use traj::live_core::finalization::{FinalizationNumbers, PredictorCorrection};
use traj::live_core::frontier::DrainAction;
use traj::live_core::fusion::FusionNumbers;
use traj::live_core::lifecycle::ClockTransition;
use traj::live_core::output::{LiveCoreSizes, OpenBatch};
use traj::live_core::propagation::PropagationNumbers;
use traj::live_core::reanchoring::ReanchorNumbers;
use traj::live_core::report::{DrainBlock, DrainReport, FinishReport, IngestDisposition};
use traj::live_core::staging::ClosedBatch;
use traj::live_core::state::{Blank, LiveCore, LiveCoreHistory, LiveCoreSeed, LiveCoreState};
use traj::live_core::work::{FilterValues, FusionWork, PropagationPlan, Work};
use traj::order::OrderKey;
use traj::payload::Payload;
use traj::predictor::PredictorNumbers;
use traj::queue::{QueueError, Scheduled};
use traj::rts_window::{RtsWindow, SmoothingWork, RTS_NODE_CAPACITY, RTS_STEP_CREDITS};
use traj::scheduler::{EnqueueDisposition, SchedulerError, WorkQuota};
use traj::time::SessionTime;

/// Navigation along one axis, with a position, a velocity and their covariance.
#[derive(Clone, Copy, Debug, PartialEq)]
struct Rail;

#[derive(Clone, Copy, Debug, PartialEq)]
struct Motion {
    position: f64,
    velocity: f64,
}

type Covariance = [[f64; 2]; 2];

/// A measured position, with the rate and the force of the packet it came in.
#[derive(Clone, Copy, Debug, PartialEq)]
struct Fix {
    position: f64,
    omega: f64,
    force: f64,
    timing_sigma_s: f64,
}

impl Payload for Rail {
    const MAX_CONSIDER: usize = 8;
    type Vector = f64;
    type SampleCovariance = f64;
    type Mounting = u8;
    type GapDerivative = f64;
    type Estimate = Motion;
    type EndpointCovariance = Covariance;
    type Fix = Fix;
    type Score = u8;
    type Label = &'static str;
}

const GRAVITY: f64 = 9.806_65;

fn at(ns: i64) -> SessionTime {
    SessionTime::from_ns(ns)
}

fn propagated(motion: Motion, force: f64, seconds: f64) -> Motion {
    let acceleration = force - GRAVITY;
    Motion {
        position: motion.position
            + motion.velocity * seconds
            + 0.5 * acceleration * seconds * seconds,
        velocity: motion.velocity + acceleration * seconds,
    }
}

fn product(a: Covariance, b: Covariance) -> Covariance {
    let mut result = [[0.0; 2]; 2];
    for row in 0..2 {
        for column in 0..2 {
            result[row][column] = a[row][0] * b[0][column] + a[row][1] * b[1][column];
        }
    }
    result
}

fn transposed(a: Covariance) -> Covariance {
    [[a[0][0], a[1][0]], [a[0][1], a[1][1]]]
}

fn inverse(a: Covariance) -> Covariance {
    let determinant = a[0][0] * a[1][1] - a[0][1] * a[1][0];
    [
        [a[1][1] / determinant, -a[0][1] / determinant],
        [-a[1][0] / determinant, a[0][0] / determinant],
    ]
}

fn seconds(start: SessionTime, end: SessionTime) -> f64 {
    (end.ns - start.ns) as f64 * 1.0e-9
}

/// What the backward pass needs of one node.
#[derive(Clone, Copy)]
struct Slot {
    predicted: (Motion, Covariance),
    filtered: (Motion, Covariance),
    smoothed: (Motion, Covariance),
    transition: Covariance,
}

const EMPTY: (Motion, Covariance) = (Motion { position: 0.0, velocity: 0.0 }, [[0.0; 2]; 2]);

fn blank() -> Blank<Rail> {
    Blank {
        endpoint: DenseEndpoint {
            time: SessionTime::zero(),
            estimate: Motion { position: 0.0, velocity: 0.0 },
            specific_force_b: 0.0,
            covariance: [[0.0; 2]; 2],
        },
        gap_model: GapModel {
            maximum_gap_ns: 0,
            sigmas_are_valid: true,
            derivative_covariance: 0.0,
        },
    }
}

fn config() -> LiveCoreConfig<Rail> {
    LiveCoreConfig {
        fusion_delay_ns: 10_000_000,
        smoothing_lag_ns: 0,
        navigation_period_ns: 2_500_000,
        tuning_is_valid: true,
        nis_gate_is_valid: true,
        predictor_is_valid: true,
        gap: GapModel {
            maximum_gap_ns: 10_000_000,
            sigmas_are_valid: true,
            derivative_covariance: 1.0,
        },
    }
}

fn smoothing_config() -> LiveCoreConfig<Rail> {
    LiveCoreConfig { smoothing_lag_ns: 100_000_000, ..config() }
}

fn seed() -> LiveCoreSeed<Rail> {
    LiveCoreSeed {
        endpoint: DenseEndpoint {
            time: SessionTime::zero(),
            estimate: Motion { position: 0.0, velocity: 0.0 },
            specific_force_b: 0.0,
            covariance: [[1.0, 0.0], [0.0, 1.0]],
        },
        filter_covariance: [[1.0, 0.0], [0.0, 1.0]],
        active_consider: 0,
        filter_error: None,
        state_is_finite: true,
        biases_are_valid: true,
    }
}

fn imu(start_ns: i64, end_ns: i64) -> ImuInterval<Rail> {
    ImuInterval {
        start: at(start_ns),
        end: at(end_ns),
        omega_ib_b: 5.0e-5,
        specific_force_b: GRAVITY,
        sample_covariance: 0.0,
        body_from_sensor: 0,
        values_are_valid: true,
        degraded_input: false,
        gap_elapsed_ns_plus_one: 0,
        calibration_consider_start: None,
    }
}

fn gnss(time_ns: i64, sequence: u64, x: f64) -> Scheduled<GnssObservation<Rail>> {
    let time = at(time_ns);
    Scheduled {
        key: OrderKey { time, class: 3, source: 1, sequence },
        value: GnssObservation {
            time,
            fix: Fix { position: x, omega: 0.0, force: 0.0, timing_sigma_s: 0.0 },
            has_position: true,
            has_velocity: false,
            has_cross_covariance: false,
            has_angular_acceleration: false,
            lever_arm_is_nonzero: false,
            velocity_epoch_is_uncertain: false,
            position_is_finite: true,
            velocity_is_finite: true,
            values_are_finite: true,
            position_covariance_is_psd: true,
            velocity_covariance_is_psd: true,
            angular_covariance_is_valid: true,
            joint_covariance_is_valid: true,
            sensitivity_extent: 0,
            clock_consider_start: None,
            clock_reference_time: SessionTime::zero(),
            lever_arm_consider_start: None,
            receiver_healthy: true,
            label: "pps",
        },
    }
}

fn predictor_numbers() -> PredictorNumbers {
    PredictorNumbers {
        bias_correction_is_valid: true,
        duration_is_too_long: false,
        state_is_finite: true,
        correction_is_finite: true,
    }
}

fn batch_numbers() -> BatchNumbers {
    BatchNumbers {
        has_installation_sensitivity: false,
        installation_sensitivity_is_finite: true,
        samples_are_finite: true,
        bias_correction_is_valid: true,
        duration_is_too_long: false,
        gap_is_finite: true,
    }
}

/// Runs the core with the numbers of the rail.
struct Driver {
    core: Box<LiveCore<Rail>>,
    /// The open predictor batch.
    present: Motion,
    slots: Vec<Slot>,
    /// The transition of the propagation that was carried out last.
    transition: Covariance,
}

impl Driver {
    fn start(config: LiveCoreConfig<Rail>, seed: LiveCoreSeed<Rail>) -> Self {
        let history = LiveCoreHistory::new();
        let state = LiveCoreState::new(blank(), &config, &seed, &history).unwrap();
        Driver {
            core: Box::new(LiveCore::attach(state, history)),
            present: seed.endpoint.estimate,
            slots: vec![
                Slot {
                    predicted: EMPTY,
                    filtered: EMPTY,
                    smoothed: EMPTY,
                    transition: [[0.0; 2]; 2],
                };
                RTS_NODE_CAPACITY
            ],
            transition: [[1.0, 0.0], [0.0, 1.0]],
        }
    }

    fn ingest_imu(&mut self, interval: ImuInterval<Rail>) -> Result<IngestDisposition, LiveCoreError> {
        self.core.begin_ingest(interval)?;
        let mut present = self.present;
        while !self.core.ingest_is_staged() {
            let staged = self.core.next_ingest_piece()?;
            present = propagated(
                present,
                staged.piece.specific_force_b,
                seconds(staged.piece.start, staged.piece.end),
            );
            if staged.closes_segment {
                self.core.close_ingest_segment(ClosedBatch {
                    batch_is_finite: true,
                    predictor: predictor_numbers(),
                    estimate: present,
                    attitude_delta: 0.0,
                    segment_is_valid: true,
                    biases_are_valid: true,
                })?;
            }
        }
        let disposition = self.core.commit_ingest()?;
        self.present = present;
        Ok(disposition)
    }

    fn ingest_gnss(
        &mut self,
        observation: Scheduled<GnssObservation<Rail>>,
    ) -> Result<EnqueueDisposition, LiveCoreError> {
        self.core.ingest_gnss(observation)
    }

    fn open_batch(&self) -> Option<OpenBatch<Rail>> {
        Some(OpenBatch {
            batch_is_finite: true,
            predictor: predictor_numbers(),
            estimate: self.present,
            mean_specific_force_b: GRAVITY,
            attitude_delta: 0.0,
            segment_is_valid: true,
            biases_are_valid: true,
        })
    }

    fn finish(&mut self) -> Result<FinishReport, LiveCoreError> {
        let open = self.open_batch();
        self.core.finish(open)
    }

    fn filter(&self) -> (Motion, Covariance) {
        let values = self.core.state.filter_values;
        (values.estimate, values.covariance)
    }

    fn newest_slot(&self) -> usize {
        self.core.history.smoothing.newest_slot().unwrap()
    }

    fn fusion_numbers(&self, work: &FusionWork<Rail>) -> FusionNumbers<Rail> {
        let (motion, covariance) = self.filter();
        // Rate and force are those of the epoch, not those of the packet.
        let fix = Fix {
            omega: work.kinematics.sample.omega_ib_b,
            force: work.kinematics.sample.specific_force_b,
            ..work.scheduled.value.fix
        };
        let innovation = fix.position - motion.position;
        let timing = fix.timing_sigma_s * (fix.omega + fix.force);
        let variance = covariance[0][0] + 1.0 + timing * timing;
        let gain = [covariance[0][0] / variance, covariance[1][0] / variance];
        let estimate = Motion {
            position: motion.position + gain[0] * innovation,
            velocity: motion.velocity + gain[1] * innovation,
        };
        let mut updated = covariance;
        for row in 0..2 {
            for column in 0..2 {
                updated[row][column] -= gain[row] * covariance[0][column];
            }
        }
        let score = innovation * innovation / variance;
        let decision = if score > 25.0 {
            UpdateDecision::RejectedInnovation { score: 2 }
        } else if score > 8.0 {
            UpdateDecision::Downweighted { score: 1 }
        } else {
            UpdateDecision::Fused { score: 0 }
        };
        FusionNumbers {
            kinematics_error: None,
            values_are_finite: true,
            angular_covariance_is_valid: true,
            gate_is_valid: true,
            sample_is_valid: true,
            update_error: None,
            joint: Some(decision),
            position: Some(decision),
            velocity: Some(decision),
            values: FilterValues { estimate, covariance: updated },
        }
    }

    fn finalization_numbers(&self) -> FinalizationNumbers<Rail> {
        FinalizationNumbers {
            segment_is_valid: true,
            prediction_is_available: true,
            correction_error: None,
            correction: PredictorCorrection {
                estimate: self.core.state.predictor_estimate,
                hard_reset: false,
            },
        }
    }

    fn propagation_numbers(
        &mut self,
        plan: &PropagationPlan<Rail>,
    ) -> PropagationNumbers<Rail> {
        let (mut motion, covariance) = self.filter();
        let mut duration = 0.0;
        for index in 0..plan.pieces.len() {
            let piece = plan.pieces.get(index).unwrap().piece;
            let piece_seconds = seconds(piece.start, piece.end);
            motion = propagated(motion, piece.specific_force_b, piece_seconds);
            duration += piece_seconds;
        }
        self.transition = [[1.0, duration], [0.0, 1.0]];
        let mut covariance =
            product(product(self.transition, covariance), transposed(self.transition));
        covariance[1][1] += 1.0e-6 * duration;
        PropagationNumbers {
            integrals_are_finite: true,
            batch: batch_numbers(),
            filter_error: None,
            values: FilterValues { estimate: motion, covariance },
            attitude_delta: 0.0,
        }
    }

    fn note_prediction(&mut self) {
        let slot = self.newest_slot();
        let filter = self.filter();
        self.slots[slot] = Slot {
            predicted: filter,
            filtered: filter,
            smoothed: filter,
            transition: self.transition,
        };
    }

    fn smoothed_values(
        &mut self,
        slot: usize,
        next_slot: usize,
        terminal_slot: Option<usize>,
    ) -> FilterValues<Rail> {
        if let Some(terminal) = terminal_slot {
            self.slots[terminal].smoothed = self.slots[terminal].filtered;
        }
        let next = self.slots[next_slot];
        let (motion, covariance) = self.slots[slot].filtered;
        let gain = product(
            product(covariance, transposed(next.transition)),
            inverse(next.predicted.1),
        );
        let ahead = next.smoothed.0;
        let expected = next.predicted.0;
        let change = [ahead.position - expected.position, ahead.velocity - expected.velocity];
        let estimate = Motion {
            position: motion.position + gain[0][0] * change[0] + gain[0][1] * change[1],
            velocity: motion.velocity + gain[1][0] * change[0] + gain[1][1] * change[1],
        };
        let mut difference = next.smoothed.1;
        for row in 0..2 {
            for column in 0..2 {
                difference[row][column] -= next.predicted.1[row][column];
            }
        }
        let reduction = product(product(gain, difference), transposed(gain));
        let mut smoothed = covariance;
        for row in 0..2 {
            for column in 0..2 {
                smoothed[row][column] += reduction[row][column];
            }
        }
        self.slots[slot].smoothed = (estimate, smoothed);
        FilterValues { estimate, covariance: smoothed }
    }

    /// Carries out one action. Returns whether to go on.
    fn perform(
        &mut self,
        action: DrainAction<Rail>,
        quota: &mut WorkQuota,
        report: &mut DrainReport<Rail>,
    ) -> Result<bool, LiveCoreError> {
        match action {
            DrainAction::Yield => return Ok(false),
            DrainAction::Continue => {}
            DrainAction::Fuse(work) => {
                let numbers = self.fusion_numbers(&work);
                self.core.complete_fusion(numbers, report)?;
            }
            DrainAction::Finalize(_) => {
                if !self.core.history.smoothing.is_empty() {
                    let slot = self.newest_slot();
                    self.slots[slot].filtered = self.filter();
                    self.slots[slot].smoothed = self.filter();
                }
                let numbers = self.finalization_numbers();
                self.core.complete_finalization(numbers, report)?;
            }
            DrainAction::Seed(_) => {
                self.core.complete_seed(None)?;
                self.note_prediction();
            }
            DrainAction::Propagate(plan) => {
                let numbers = self.propagation_numbers(&plan);
                if self.core.complete_propagation(numbers, quota, report)?.is_some() {
                    self.note_prediction();
                    self.core.complete_capture(None, report)?;
                }
            }
            DrainAction::Smooth(SmoothingWork::Complete) => unreachable!(),
            DrainAction::Smooth(SmoothingWork::Step { slot, next_slot, terminal_slot }) => {
                let values = self.smoothed_values(slot, next_slot, terminal_slot);
                if self.core.complete_smoothing(Ok(values))?.is_some() {
                    self.core.complete_publication(true, report)?;
                }
            }
            DrainAction::Publish(_) => {
                self.core.complete_publication(true, report)?;
            }
        }
        Ok(true)
    }

    fn drain_through(
        &mut self,
        quota: &mut WorkQuota,
        boundary: Option<SessionTime>,
    ) -> Result<DrainReport<Rail>, LiveCoreError> {
        let mut report = DrainReport::new();
        loop {
            let action = self.core.drain_step(boundary, quota, &mut report)?;
            if !self.perform(action, quota, &mut report)? {
                return Ok(report);
            }
        }
    }

    fn drain(&mut self, quota: &mut WorkQuota) -> Result<DrainReport<Rail>, LiveCoreError> {
        self.drain_through(quota, None)
    }

    /// Goes on until an action of the wanted kind has been handed out.
    fn drain_until(&mut self, wanted: fn(&DrainAction<Rail>) -> bool) -> DrainAction<Rail> {
        let mut report = DrainReport::new();
        let mut quota = WorkQuota::new(u16::MAX);
        loop {
            let action = self.core.drain_step(None, &mut quota, &mut report).unwrap();
            if wanted(&action) {
                return action;
            }
            assert!(self.perform(action, &mut quota, &mut report).unwrap());
        }
    }

    fn segments(&mut self) -> Vec<DenseSegment<Rail>> {
        let mut segments = Vec::new();
        while let Some(segment) = self.core.pop_corrected_segment() {
            segments.push(segment);
        }
        segments
    }
}

fn five_intervals() -> Driver {
    let mut driver = Driver::start(config(), seed());
    for index in 0..5 {
        let start = index * 2_500_000;
        driver.ingest_imu(imu(start, start + 2_500_000)).unwrap();
    }
    driver
}

fn smoothed_run(credits: u16, with_gnss: bool) -> (Vec<DenseSegment<Rail>>, Motion) {
    let mut driver = Driver::start(smoothing_config(), seed());
    if with_gnss {
        driver.ingest_gnss(gnss(100_000_000, 1, 1.0)).unwrap();
        driver.ingest_gnss(gnss(170_000_000, 2, 1.2)).unwrap();
    }
    for millisecond in 0..250 {
        driver.ingest_imu(imu(millisecond * 1_000_000, (millisecond + 1) * 1_000_000)).unwrap();
    }
    let mut segments = Vec::new();
    let mut calls = 0;
    loop {
        let report = driver.drain(&mut WorkQuota::new(credits)).unwrap();
        segments.extend(driver.segments());
        calls += 1;
        assert!(calls < 10_000, "smoothing did not make bounded progress");
        if report.blocked_on == DrainBlock::AwaitingDelayedFrontier {
            break;
        }
    }
    let status = driver.core.status().unwrap();
    assert_eq!(status.corrected_frontier, Some(at(240_000_000)));
    assert_eq!(status.published_frontier, Some(at(140_000_000)));
    assert_eq!(driver.core.present_state(driver.open_batch()).unwrap().0, at(250_000_000));
    driver.finish().unwrap();
    loop {
        let report = driver.drain(&mut WorkQuota::new(credits)).unwrap();
        segments.extend(driver.segments());
        calls += 1;
        assert!(calls < 10_000, "smoother tail did not finish");
        if report.blocked_on == DrainBlock::Finished {
            break;
        }
    }
    assert!(driver.core.status().unwrap().drained);
    assert_eq!(driver.core.status().unwrap().published_frontier, Some(at(250_000_000)));
    let filtered = driver.core.corrected_state().1;
    (segments, filtered)
}

#[test]
fn rts_later_gnss_corrects_history_and_preserves_final_endpoint_and_boundaries() {
    let (segments, filtered) = smoothed_run(u16::MAX, true);
    assert_eq!(segments.len(), 100);
    assert!(segments[0].start.estimate.position > 0.1);
    assert!(segments[0].start.covariance[0][0] < 1.0);
    assert_eq!(segments.last().unwrap().end.estimate, filtered);
    for pair in segments.windows(2) {
        assert_eq!(pair[0].end, pair[1].start, "published boundary was revised");
    }
}

#[test]
fn rts_quota_partition_does_not_change_published_trajectory() {
    let (whole, whole_end) = smoothed_run(u16::MAX, true);
    let (chunked, chunked_end) = smoothed_run(96, true);
    assert_eq!(whole_end, chunked_end);
    assert_eq!(whole, chunked);
}

#[test]
fn the_price_of_one_backward_step_is_quota_enough() {
    let (whole, whole_end) = smoothed_run(u16::MAX, true);
    let (smallest, smallest_end) = smoothed_run(RTS_STEP_CREDITS, true);
    assert_eq!(whole_end, smallest_end);
    assert_eq!(whole, smallest);
}

#[test]
fn taking_segments_late_does_not_change_the_trajectory() {
    let mut driver = Driver::start(smoothing_config(), seed());
    driver.ingest_gnss(gnss(100_000_000, 1, 1.0)).unwrap();
    driver.ingest_gnss(gnss(170_000_000, 2, 1.2)).unwrap();
    for millisecond in 0..250 {
        driver.ingest_imu(imu(millisecond * 1_000_000, (millisecond + 1) * 1_000_000)).unwrap();
    }
    for credits in [96, 200, 1_000].into_iter().cycle() {
        let report = driver.drain(&mut WorkQuota::new(credits)).unwrap();
        if report.blocked_on == DrainBlock::AwaitingDelayedFrontier {
            break;
        }
    }
    driver.finish().unwrap();
    while driver.drain(&mut WorkQuota::new(300)).unwrap().blocked_on != DrainBlock::Finished {}
    let end = driver.core.corrected_state().1;
    let (eager, eager_end) = smoothed_run(96, true);
    assert_eq!(driver.segments(), eager);
    assert_eq!(end, eager_end);
}

#[test]
fn rts_no_gnss_does_not_invent_a_correction() {
    let (segments, _) = smoothed_run(96, false);
    for segment in segments {
        assert!(segment.end.estimate.position.abs() < 1.0e-6);
        assert!(segment.end.estimate.velocity.abs() < 1.0e-5);
    }
}

#[test]
fn construction_reports_static_memory_and_rejects_dirty_history() {
    let sizes = LiveCoreSizes::compiled::<Rail>();
    assert!(sizes.core_bytes > std::mem::size_of::<FilterValues<Rail>>());
    assert_eq!(sizes.history_bytes, std::mem::size_of::<LiveCoreHistory<Rail>>());
    assert_eq!(sizes.core_bytes, std::mem::size_of::<LiveCoreState<Rail>>());
    assert!(sizes.history_bytes > sizes.imu_history_bytes + 2 * sizes.dense_history_bytes_each);
    let mut history = LiveCoreHistory::new();
    history.imu.push_back(imu(0, 1)).unwrap();
    let mut state = LiveCoreState::placeholder(blank());
    assert_eq!(
        state.initialize(&config(), &seed(), &history),
        Err(LiveCoreError::HistoryNotEmptyOrInvalidSeed)
    );
    assert!(!state.is_active());
    assert_eq!(history.raw_imu_len(), 1);
}

#[test]
fn in_place_initialization_matches_constructor_and_failure_resets() {
    let history = LiveCoreHistory::new();
    let constructed = LiveCoreState::new(blank(), &config(), &seed(), &history).unwrap();
    let mut in_place = LiveCoreState::placeholder(blank());
    in_place.initialize(&config(), &seed(), &history).unwrap();
    assert_eq!(in_place, constructed);
    assert!(in_place.is_active());

    let mut invalid = config();
    invalid.navigation_period_ns = 0;
    assert_eq!(
        in_place.initialize(&invalid, &seed(), &history),
        Err(LiveCoreError::InvalidConfiguration)
    );
    assert!(!in_place.is_active());
    assert_eq!(in_place, LiveCoreState::placeholder(blank()));
    assert!(history.is_empty());
}

#[test]
fn delayed_frontier_and_present_predictor_are_distinct() {
    let mut driver = five_intervals();
    assert_eq!(driver.core.present_state(driver.open_batch()).unwrap().0, at(12_500_000));
    let mut quota = WorkQuota::new(100);
    let report = driver.drain(&mut quota).unwrap();
    assert_eq!(report.counters.finalized_segments, 1);
    assert_eq!(driver.core.corrected_state().0, at(2_500_000));
    assert_eq!(driver.core.status().unwrap().corrected_frontier, Some(at(2_500_000)));
}

#[test]
fn same_epoch_gnss_is_applied_before_segment_becomes_immutable() {
    let mut driver = Driver::start(config(), seed());
    assert_eq!(driver.ingest_gnss(gnss(2_500_000, 1, 1.0)).unwrap(), EnqueueDisposition::Queued);
    for index in 0..5 {
        let start = index * 2_500_000;
        driver.ingest_imu(imu(start, start + 2_500_000)).unwrap();
    }
    let mut quota = WorkQuota::new(200);
    let report = driver.drain(&mut quota).unwrap();
    assert_eq!(report.counters.gnss_updates, 1);
    let terminal = driver.core.corrected_segment_at(at(2_500_000)).unwrap();
    assert!(terminal.end.estimate.position > 0.0);
    assert_eq!(
        driver.ingest_gnss(gnss(2_500_000, 2, 0.0)).unwrap(),
        EnqueueDisposition::TooLateForLive
    );
}

#[test]
fn gnss_pair_duplicate_rejection_leaves_live_queue_unchanged() {
    let mut driver = Driver::start(config(), seed());
    let duplicate = gnss(2_500_000, 1, 1.0);
    assert_eq!(
        driver.core.ingest_gnss_pair([Some(duplicate), Some(duplicate)]),
        Err(LiveCoreError::MeasurementQueueRejected(EnqueueDisposition::Duplicate))
    );
    assert_eq!(driver.core.state.scheduler.queued_measurements(), 0);
    assert_eq!(driver.ingest_gnss(gnss(2_500_000, 2, 2.0)).unwrap(), EnqueueDisposition::Queued);
    assert_eq!(driver.core.state.scheduler.queued_measurements(), 1);
}

#[test]
fn one_drain_preserves_all_accepted_gnss_quality_transitions_in_order() {
    let mut driver = Driver::start(config(), seed());
    let first = gnss(2_500_000, 1, 0.0);
    let mut second = gnss(5_000_000, 2, 0.0);
    second.value.label = "modeled";
    assert_eq!(driver.ingest_gnss(first).unwrap(), EnqueueDisposition::Queued);
    assert_eq!(driver.ingest_gnss(second).unwrap(), EnqueueDisposition::Queued);
    for index in 0..6 {
        let start = index * 2_500_000;
        driver.ingest_imu(imu(start, start + 2_500_000)).unwrap();
    }
    let mut quota = WorkQuota::new(1_000);
    let report = driver.drain(&mut quota).unwrap();
    assert_eq!(
        report.gnss_quality_updates(),
        vec![
            GnssQualityUpdate { epoch: at(2_500_000), label: "pps", downweighted: false },
            GnssQualityUpdate { epoch: at(5_000_000), label: "modeled", downweighted: false },
        ]
    );
}

fn identity_transition() -> ClockTransition {
    ClockTransition {
        active_consider: 2,
        extent: 2,
        mapping_is_valid: true,
        covariance_error: None,
    }
}

#[test]
fn queued_previous_segment_measurement_blocks_clock_relabel_transactionally() {
    let mut driver = Driver::start(config(), LiveCoreSeed { active_consider: 2, ..seed() });
    driver.ingest_gnss(gnss(2_500_000, 1, 1.0)).unwrap();
    let before = driver.core.state;
    assert_eq!(
        driver.core.transition_clock_consider(identity_transition()),
        Err(LiveCoreError::ClockTransitionRequiresReinitialization)
    );
    assert_eq!(driver.core.state, before);
    assert_eq!(driver.core.state.scheduler.queued_measurements(), 1);
}

#[test]
fn short_gap_is_materialized_and_marks_corrected_output_degraded() {
    let mut driver = Driver::start(config(), seed());
    driver.ingest_imu(imu(0, 2_500_000)).unwrap();
    let disposition = driver.ingest_imu(imu(5_000_000, 7_500_000)).unwrap();
    assert_eq!(
        disposition,
        IngestDisposition::ImuAccepted {
            stored_intervals: 2,
            predictor_segments: 2,
            gap_bridged: true,
        }
    );
    assert!(driver.core.status().unwrap().predictor_gap);
    driver.finish().unwrap();
    let mut quota = WorkQuota::new(1_000);
    driver.drain(&mut quota).unwrap();
    assert!(driver.core.corrected_segment_at(at(4_000_000)).unwrap().degraded);
    assert!(!driver.core.corrected_segment_at(at(1_000_000)).unwrap().degraded);
    assert!(!driver.core.status().unwrap().predictor_gap);
}

#[test]
fn finish_flushes_partial_predictor_and_drains_exactly_to_last_imu() {
    let mut driver = Driver::start(config(), seed());
    driver.ingest_imu(imu(0, 1_000_000)).unwrap();
    let finish = driver.finish().unwrap();
    assert!(finish.predictor_segment_flushed);
    assert_eq!(finish.terminal_time, at(1_000_000));
    let mut quota = WorkQuota::new(1_000);
    let report = driver.drain(&mut quota).unwrap();
    assert_eq!(report.blocked_on, DrainBlock::Finished);
    assert_eq!(driver.core.corrected_state().0, at(1_000_000));
    assert!(driver.core.status().unwrap().drained);
}

#[test]
fn an_insufficient_quota_does_not_consume_raw_evidence() {
    let mut driver = five_intervals();
    let before = driver.core.status().unwrap().retained_imu_intervals;
    let mut quota = WorkQuota::new(FILTER_PROPAGATION_CREDITS);
    let report = driver.drain(&mut quota).unwrap();
    assert_eq!(report.blocked_on, DrainBlock::QuotaExhausted);
    assert_eq!(quota.remaining(), FILTER_PROPAGATION_CREDITS - 1);
    assert_eq!(driver.core.status().unwrap().retained_imu_intervals, before);
    assert_eq!(driver.core.corrected_state().0, SessionTime::zero());
}

#[test]
fn partial_propagation_planning_is_charged_without_committing_evidence() {
    let mut driver = Driver::start(config(), seed());
    for index in 0..10 {
        let start = index * 1_250_000;
        driver.ingest_imu(imu(start, start + 1_250_000)).unwrap();
    }
    let retained_before = driver.core.status().unwrap().retained_imu_intervals;
    // One credit commits the initial frontier. Of the remaining nine, one is
    // spent planning the first of the two required slices; eight stay reserved
    // for a propagation that cannot yet run.
    let mut partial = WorkQuota::new(
        FRONTIER_COMMIT_CREDITS + IMU_SLICE_CREDITS + FILTER_PROPAGATION_CREDITS,
    );
    let report = driver.drain(&mut partial).unwrap();
    assert_eq!(report.blocked_on, DrainBlock::QuotaExhausted);
    assert_eq!(report.counters.frontier_commits, 1);
    assert_eq!(report.counters.imu_slices, 0);
    assert_eq!(report.counters.filter_propagations, 0);
    assert_eq!(partial.remaining(), FILTER_PROPAGATION_CREDITS);
    assert_eq!(driver.core.status().unwrap().retained_imu_intervals, retained_before);
    assert_eq!(driver.core.corrected_state().0, SessionTime::zero());

    let mut complete = WorkQuota::new(2 * IMU_SLICE_CREDITS + FILTER_PROPAGATION_CREDITS);
    let report = driver.drain(&mut complete).unwrap();
    assert_eq!(report.blocked_on, DrainBlock::QuotaExhausted);
    assert_eq!(report.counters.imu_slices, 2);
    assert_eq!(report.counters.filter_propagations, 1);
    assert_eq!(complete.remaining(), 0);
    assert_eq!(driver.core.corrected_state().0, at(2_500_000));
    assert_eq!(driver.core.status().unwrap().retained_imu_intervals, retained_before - 2);
}

#[test]
fn exact_clock_boundary_flushes_rts_tail_before_consider_transition() {
    let mut driver =
        Driver::start(smoothing_config(), LiveCoreSeed { active_consider: 2, ..seed() });
    for millisecond in 0..40 {
        driver.ingest_imu(imu(millisecond * 1_000_000, (millisecond + 1) * 1_000_000)).unwrap();
    }
    driver.drain(&mut WorkQuota::new(20)).unwrap();
    assert!(driver.core.history.smoothing.has_tail());
    assert_eq!(
        driver.core.transition_clock_consider(identity_transition()),
        Err(LiveCoreError::ClockTransitionRequiresReinitialization)
    );
    let boundary = at(25_000_000);
    driver.drain_through(&mut WorkQuota::new(u16::MAX), Some(boundary)).unwrap();
    let status = driver.core.status().unwrap();
    assert_eq!(status.corrected_frontier, Some(boundary));
    assert_eq!(status.published_frontier, Some(boundary));
    assert!(!driver.core.history.smoothing.has_tail());
    driver.core.transition_clock_consider(identity_transition()).unwrap();
    assert!(driver.core.history.smoothing.is_empty());
    let mut previous = None;
    for segment in driver.segments() {
        if let Some(end) = previous {
            assert_eq!(segment.start, end);
        }
        previous = Some(segment.end);
    }
    assert_eq!(previous.unwrap().time, boundary);
}

#[test]
fn reset_clears_rts_tail_quality_and_capture_before_workspace_reuse() {
    let mut driver = Driver::start(smoothing_config(), seed());
    for millisecond in 0..30 {
        driver.ingest_imu(imu(millisecond * 1_000_000, (millisecond + 1) * 1_000_000)).unwrap();
    }
    driver.drain(&mut WorkQuota::new(u16::MAX)).unwrap();
    assert!(driver.core.history.smoothing.has_tail());
    let (mut state, mut history) = driver.core.detach();
    state.reset();
    history.clear();
    assert!(history.is_empty());
    assert_eq!(history.current_quality, None);
    assert_eq!(history.endpoint_quality, None);
    assert_eq!(history.published_frontier, None);
    state.initialize(&smoothing_config(), &seed(), &history).unwrap();
    assert!(state.is_active());
}

#[test]
fn excessive_distinct_epoch_burst_reports_rts_capacity_without_publishing_early() {
    let mut driver = Driver::start(smoothing_config(), seed());
    for millisecond in 1..=100 {
        let mut observation = gnss(millisecond * 1_000_000, millisecond as u64, 0.0);
        observation.value.receiver_healthy = false;
        driver.ingest_gnss(observation).unwrap();
    }
    for millisecond in 0..120 {
        driver.ingest_imu(imu(millisecond * 1_000_000, (millisecond + 1) * 1_000_000)).unwrap();
    }
    assert_eq!(
        driver.drain(&mut WorkQuota::new(u16::MAX)),
        Err(LiveCoreError::SmoothingHistoryFull)
    );
    assert_eq!(driver.core.history.corrected.len(), 0);
    assert_eq!(driver.core.history.published_frontier, Some(SessionTime::zero()));
    assert!(driver.core.history.smoothing.is_full());
}

#[test]
fn gnss_fusion_uses_measurement_epoch_imu_not_packet_arrival_values() {
    fn run(omega: f64, force: f64) -> ((Motion, Covariance), DrainReport<Rail>) {
        let mut driver = Driver::start(config(), seed());
        let mut observation = gnss(2_500_000, 1, 0.1);
        observation.value.has_velocity = true;
        observation.value.lever_arm_is_nonzero = true;
        observation.value.fix.omega = omega;
        observation.value.fix.force = force;
        observation.value.has_angular_acceleration = true;
        observation.value.fix.timing_sigma_s = 0.01;
        observation.value.velocity_epoch_is_uncertain = true;
        driver.ingest_gnss(observation).unwrap();
        for index in 0..5 {
            let start = index * 2_500_000;
            driver.ingest_imu(imu(start, start + 2_500_000)).unwrap();
        }
        let report = driver.drain(&mut WorkQuota::new(200)).unwrap();
        (driver.filter(), report)
    }

    let normal = run(0.0, 0.0);
    let delayed_packet = run(40.0, 500.0);
    assert_eq!(normal, delayed_packet);
    assert_eq!(normal.1.counters.gnss_updates, 1);
}

#[test]
fn fusion_is_handed_the_interval_that_begins_at_its_epoch() {
    let mut driver = Driver::start(config(), seed());
    let mut observation = gnss(2_500_000, 1, 0.1);
    observation.value.fix.omega = 40.0;
    observation.value.fix.force = 500.0;
    driver.ingest_gnss(observation).unwrap();
    for index in 0..5 {
        let start = index * 2_500_000;
        let mut interval = imu(start, start + 2_500_000);
        interval.omega_ib_b = index as f64;
        driver.ingest_imu(interval).unwrap();
    }
    let action = driver.drain_until(|action| matches!(action, DrainAction::Fuse(_)));
    let DrainAction::Fuse(work) = action else { unreachable!() };
    assert_eq!(work.kinematics.sample.omega_ib_b, 1.0);
    assert_eq!(work.kinematics.sample.specific_force_b, GRAVITY);
    assert_eq!(work.scheduled, observation);
}

#[test]
fn conditioning_the_filter_leaves_the_first_endpoints_alone() {
    let own = [[1.0, 0.5], [0.5, 1.0]];
    let conditioned = [[1.25, 0.5], [0.5, 1.25]];
    let mut start = seed();
    start.endpoint.covariance = own;
    start.filter_covariance = conditioned;
    let mut driver = Driver::start(config(), start);
    assert_eq!(driver.core.state.filter_values.covariance, conditioned);
    assert_eq!(driver.core.state.corrected_endpoint.covariance, own);
    assert_eq!(driver.core.state.predictor_endpoint.covariance, own);
    // The first commit takes the corrected endpoint over from the filter.
    for index in 0..5 {
        let begin = index * 2_500_000;
        driver.ingest_imu(imu(begin, begin + 2_500_000)).unwrap();
    }
    driver.drain(&mut WorkQuota::new(FRONTIER_COMMIT_CREDITS)).unwrap();
    assert_eq!(driver.core.state.corrected_endpoint.covariance, conditioned);
}

#[test]
fn retained_nodes_keep_their_slots() {
    let endpoint = |ns: i64| DenseEndpoint { time: at(ns), ..seed().endpoint };
    let segment = |id: u64, start: i64, end: i64| DenseSegment {
        id,
        start: endpoint(start),
        end: endpoint(end),
        attitude_delta: 0.0,
        degraded: false,
        degraded_input: false,
    };
    let slots = |window: &RtsWindow<Rail>| {
        (0..window.len()).map(|offset| window.slot_at(offset).unwrap()).collect::<Vec<_>>()
    };
    let mut window = RtsWindow::<Rail>::new();
    assert_eq!(window.slot_at(0), None);
    window.seed(endpoint(0), None);
    let mut held = slots(&window);
    // Three times around the storage.
    for index in 0..3 * RTS_NODE_CAPACITY as i64 {
        window.push_prediction(endpoint(index + 1), None);
        assert_eq!(slots(&window)[..held.len()], held[..]);
        held = slots(&window);
        assert_eq!(window.newest_slot(), held.last().copied());
        window.finish_node(segment(index as u64 + 1, index, index + 1), None);
        window.observation_accepted();
        assert_eq!(slots(&window), held);
        let SmoothingWork::Step { slot, next_slot, terminal_slot } = window.begin_step() else {
            unreachable!()
        };
        let newest = held[held.len() - 1];
        assert_eq!((slot, next_slot), (held[held.len() - 2], newest));
        assert_eq!(terminal_slot, Some(newest));
        let values = seed().endpoint;
        while !window.commit_step(values.estimate, values.covariance) {
            window.begin_step();
        }
        assert_eq!(slots(&window), held);
        if window.len() > 10 {
            window.publish_one(true).unwrap();
            assert_eq!(slots(&window), held[1..]);
            held = slots(&window);
        }
    }
    assert_eq!(window.slot_at(window.len()), None);
}

#[test]
fn observation_epoch_chooses_first_and_right_owned_samples() {
    for epoch in [0, 4_999_999, 5_000_000, 5_000_001] {
        let mut driver = Driver::start(config(), seed());
        let mut first = imu(0, 5_000_000);
        first.omega_ib_b = 0.1;
        first.sample_covariance = 0.2;
        let mut second = imu(5_000_000, 10_000_000);
        second.omega_ib_b = -0.2;
        second.sample_covariance = 0.4;
        driver.ingest_imu(first).unwrap();
        driver.ingest_imu(second).unwrap();
        driver.ingest_gnss(gnss(epoch, 1, 0.0)).unwrap();
        driver.finish().unwrap();
        let action = driver.drain_until(|action| matches!(action, DrainAction::Fuse(_)));
        let DrainAction::Fuse(work) = action else { unreachable!() };
        assert_eq!(driver.core.corrected_state().0, at(epoch));
        let owner = if epoch < 5_000_000 { first } else { second };
        assert_eq!(work.kinematics.sample.omega_ib_b, owner.omega_ib_b);
        assert_eq!(work.kinematics.sample.sample_covariance, owner.sample_covariance);
        // Only a sample that has already contributed keeps its correlation.
        assert_eq!(work.continues_sample, epoch == 4_999_999 || epoch == 5_000_001, "epoch {epoch}");
        let mut report = DrainReport::new();
        let mut quota = WorkQuota::new(1_000);
        driver.perform(action, &mut quota, &mut report).unwrap();
        assert_eq!(driver.core.history.active_imu_sample, Some(work.kinematics.sample));
        // The newly fused sample is also retained by the next propagation,
        // including an epoch at its left endpoint.
        let action = driver.drain_until(|action| matches!(action, DrainAction::Propagate(_)));
        let DrainAction::Propagate(plan) = action else { unreachable!() };
        let leading = plan.ledger.batch(true).unwrap().leading_sample.unwrap();
        assert_eq!(leading.covariance, owner.sample_covariance);
        assert!(driver.perform(action, &mut quota, &mut report).unwrap());
    }
}

#[test]
fn observation_at_gap_start_keeps_the_held_sample() {
    let mut driver = Driver::start(config(), seed());
    let mut sample = imu(0, 5_000_000);
    sample.sample_covariance = 9.0;
    driver.ingest_imu(sample).unwrap();
    let mut next = sample;
    next.start = at(7_500_000);
    next.end = at(10_000_000);
    driver.ingest_imu(next).unwrap();
    let mut observation = gnss(5_000_000, 1, 0.0);
    observation.value.receiver_healthy = false;
    driver.ingest_gnss(observation).unwrap();
    driver.finish().unwrap();
    let action = driver.drain_until(|action| matches!(action, DrainAction::Fuse(_)));
    let DrainAction::Fuse(work) = action else { unreachable!() };
    assert!(work.continues_sample);
    assert!(work.kinematics.sample.gap);
    let mut report = DrainReport::new();
    driver.perform(action, &mut WorkQuota::new(100), &mut report).unwrap();
    assert_eq!(
        report.last_gnss_outcome.unwrap().position,
        Some(UpdateDecision::RejectedHealth)
    );
    assert_eq!(report.counters.gnss_rejected, 1);
}

#[test]
fn configuration_and_seed_faults_are_named() {
    let start = |config: LiveCoreConfig<Rail>, seed: LiveCoreSeed<Rail>| {
        LiveCoreState::new(blank(), &config, &seed, &LiveCoreHistory::new()).err()
    };
    assert_eq!(
        start(LiveCoreConfig { tuning_is_valid: false, ..config() }, seed()),
        Some(LiveCoreError::InvalidConfiguration)
    );
    assert_eq!(
        start(LiveCoreConfig { smoothing_lag_ns: 100_000_001, ..config() }, seed()),
        Some(LiveCoreError::InvalidConfiguration)
    );
    assert_eq!(
        start(LiveCoreConfig { fusion_delay_ns: 2_499_999, ..config() }, seed()),
        Some(LiveCoreError::InvalidConfiguration)
    );
    assert_eq!(
        start(LiveCoreConfig { nis_gate_is_valid: false, ..config() }, seed()),
        Some(LiveCoreError::Eskf(EskfError::InvalidConfiguration))
    );
    assert_eq!(
        start(LiveCoreConfig { predictor_is_valid: false, ..config() }, seed()),
        Some(LiveCoreError::Predictor(PredictorError::InvalidConfiguration))
    );
    let mut long_gap = config();
    long_gap.gap.maximum_gap_ns = 10_000_001;
    assert_eq!(
        start(long_gap, seed()),
        Some(LiveCoreError::Preintegration(PreintegrationError::InvalidGapModel))
    );
    assert_eq!(
        start(config(), LiveCoreSeed { active_consider: 9, ..seed() }),
        Some(LiveCoreError::HistoryNotEmptyOrInvalidSeed)
    );
    let mut late = seed();
    late.endpoint.time = at(i64::MAX);
    assert_eq!(start(config(), late), Some(LiveCoreError::TimeOverflow));
    assert_eq!(
        start(config(), LiveCoreSeed { filter_error: Some(EskfError::InvalidCovariance), ..seed() }),
        Some(LiveCoreError::Eskf(EskfError::InvalidCovariance))
    );
    assert_eq!(
        start(config(), LiveCoreSeed { state_is_finite: false, ..seed() }),
        Some(LiveCoreError::Predictor(PredictorError::NonFinite))
    );
    assert_eq!(
        start(config(), LiveCoreSeed { biases_are_valid: false, ..seed() }),
        Some(LiveCoreError::Preintegration(PreintegrationError::NonFinite))
    );
}

#[test]
fn inertial_faults_are_named_and_change_nothing() {
    let mut driver = Driver::start(config(), seed());
    assert_eq!(
        driver.ingest_imu(imu(1_000_000, 2_000_000)),
        Err(LiveCoreError::MissingInitialImuSupport)
    );
    driver.ingest_imu(imu(0, 1_000_000)).unwrap();
    let before = *driver.core;
    assert_eq!(
        driver.ingest_imu(imu(500_000, 1_500_000)),
        Err(LiveCoreError::ImuOverlapOrRegression)
    );
    assert_eq!(
        driver.ingest_imu(imu(1_000_000, 11_000_001)),
        Err(LiveCoreError::ImuIntervalTooLong)
    );
    assert_eq!(
        driver.ingest_imu(imu(2_000_000, 2_000_000)),
        Err(LiveCoreError::Preintegration(PreintegrationError::InvalidDuration))
    );
    let mut invalid = imu(1_000_000, 2_000_000);
    invalid.values_are_valid = false;
    assert_eq!(
        driver.ingest_imu(invalid),
        Err(LiveCoreError::Preintegration(PreintegrationError::NonFinite))
    );
    assert_eq!(
        driver.ingest_imu(imu(11_000_001, 12_000_000)),
        Err(LiveCoreError::Preintegration(PreintegrationError::GapTooLong))
    );
    assert_eq!(
        driver.ingest_imu(imu(i64::MIN, i64::MAX)),
        Err(LiveCoreError::Preintegration(PreintegrationError::TimeOverflow))
    );
    assert_eq!(*driver.core, before);
}

#[test]
fn a_failed_predictor_batch_abandons_the_whole_interval() {
    let mut driver = Driver::start(config(), seed());
    driver.ingest_imu(imu(0, 2_000_000)).unwrap();
    let before = *driver.core;
    driver.core.begin_ingest(imu(2_000_000, 8_000_000)).unwrap();
    assert!(!driver.core.ingest_is_staged());
    let staged = driver.core.next_ingest_piece().unwrap();
    assert!(staged.closes_segment);
    assert_eq!(staged.piece.end, at(2_500_000));
    let closed = ClosedBatch {
        batch_is_finite: true,
        predictor: PredictorNumbers { state_is_finite: false, ..predictor_numbers() },
        estimate: Motion { position: 0.0, velocity: 0.0 },
        attitude_delta: 0.0,
        segment_is_valid: true,
        biases_are_valid: true,
    };
    assert_eq!(
        driver.core.close_ingest_segment(closed),
        Err(LiveCoreError::Predictor(PredictorError::Eskf(EskfError::NumericalFailure)))
    );
    assert_eq!(*driver.core, before);
    // Nothing is under way any more.
    assert_eq!(driver.core.next_ingest_piece().err(), Some(LiveCoreError::InternalInvariant));
    assert_eq!(driver.core.commit_ingest(), Err(LiveCoreError::InternalInvariant));
    assert_eq!(*driver.core, before);
    let disposition = driver.ingest_imu(imu(2_000_000, 8_000_000)).unwrap();
    assert_eq!(
        disposition,
        IngestDisposition::ImuAccepted {
            stored_intervals: 1,
            predictor_segments: 3,
            gap_bridged: false,
        }
    );
}

#[test]
fn full_histories_refuse_input_explicitly() {
    let mut driver = Driver::start(config(), seed());
    for index in 0..32 {
        driver.ingest_imu(imu(index * 1_000, (index + 1) * 1_000)).unwrap();
    }
    assert_eq!(
        driver.ingest_imu(imu(32_000, 33_000)),
        Err(LiveCoreError::Preintegration(PreintegrationError::BatchCapacity))
    );

    let mut driver = Driver::start(config(), seed());
    let mut start = 0;
    loop {
        match driver.ingest_imu(imu(start, start + 2_500_000)) {
            Ok(_) => start += 2_500_000,
            Err(error) => {
                assert_eq!(error, LiveCoreError::PredictorHistoryFull);
                break;
            }
        }
    }
    assert_eq!(driver.core.status().unwrap().retained_predictor_segments, 208);
    assert_eq!(start, 208 * 2_500_000);

    let mut driver = Driver::start(config(), seed());
    for index in 0..1_024 {
        driver.ingest_imu(imu(index * 250_000, (index + 1) * 250_000)).unwrap();
    }
    assert_eq!(
        driver.ingest_imu(imu(256_000_000, 256_250_000)),
        Err(LiveCoreError::RawImuHistoryFull)
    );
}

#[test]
fn closed_input_refuses_everything() {
    let mut driver = Driver::start(config(), seed());
    assert_eq!(
        driver.finish(),
        Err(LiveCoreError::Scheduler(SchedulerError::NoTrustedImu))
    );
    driver.ingest_imu(imu(0, 1_000_000)).unwrap();
    assert_eq!(driver.core.finish(None), Err(LiveCoreError::InternalInvariant));
    driver.finish().unwrap();
    assert_eq!(driver.finish(), Err(LiveCoreError::InputClosed));
    assert_eq!(driver.ingest_imu(imu(1_000_000, 2_000_000)), Err(LiveCoreError::InputClosed));
    assert_eq!(driver.ingest_gnss(gnss(500_000, 1, 0.0)), Err(LiveCoreError::InputClosed));
    assert_eq!(
        driver.core.ingest_gnss_pair([None, Some(gnss(500_000, 1, 0.0))]),
        Err(LiveCoreError::InputClosed)
    );
}

#[test]
fn invalid_observations_are_refused_before_they_are_queued() {
    let mut driver = Driver::start(config(), seed());
    let mut shifted = gnss(2_000_000, 1, 0.0);
    shifted.key.time = at(2_000_001);
    assert_eq!(driver.ingest_gnss(shifted), Err(LiveCoreError::MeasurementTimeMismatch));
    let mut empty = gnss(2_000_000, 1, 0.0);
    empty.value.has_position = false;
    assert_eq!(
        driver.ingest_gnss(empty),
        Err(LiveCoreError::Eskf(EskfError::InvalidMeasurement))
    );
    assert_eq!(
        driver.core.ingest_gnss_pair([Some(gnss(2_000_000, 1, 0.0)), Some(empty)]),
        Err(LiveCoreError::Eskf(EskfError::InvalidMeasurement))
    );
    assert_eq!(driver.core.state.scheduler.queued_measurements(), 0);
    assert_eq!(
        driver.core.ingest_gnss_pair([Some(gnss(2_000_000, 1, 0.0)), Some(gnss(-1, 2, 0.0))]),
        Ok([Some(EnqueueDisposition::Queued), Some(EnqueueDisposition::TooLateForLive)])
    );
}

#[test]
fn a_rejected_innovation_changes_neither_filter_nor_quality() {
    let mut driver = five_intervals();
    driver.ingest_gnss(gnss(2_500_000, 1, 1_000.0)).unwrap();
    let report = driver.drain(&mut WorkQuota::new(200)).unwrap();
    assert_eq!(report.counters.gnss_updates, 1);
    assert_eq!(report.counters.gnss_rejected, 1);
    assert!(report.gnss_quality_updates().is_empty());
    assert_eq!(driver.core.history.current_quality, None);
    assert_eq!(driver.core.corrected_state().1, Motion { position: 0.0, velocity: 0.0 });
    assert!(driver.core.history.active_imu_sample.is_some());
}

#[test]
fn a_downweighted_observation_marks_the_quality() {
    let mut driver = five_intervals();
    driver.ingest_gnss(gnss(2_500_000, 1, 5.0)).unwrap();
    let report = driver.drain(&mut WorkQuota::new(200)).unwrap();
    assert_eq!(report.counters.gnss_downweighted, 1);
    assert_eq!(
        report.gnss_quality_updates(),
        vec![GnssQualityUpdate { epoch: at(2_500_000), label: "pps", downweighted: true }]
    );
    assert_eq!(
        driver.core.history.current_quality,
        Some(GnssQualityUpdate { epoch: at(2_500_000), label: "pps", downweighted: true })
    );
}

#[test]
fn a_failed_fusion_keeps_the_observation() {
    let mut driver = five_intervals();
    driver.ingest_gnss(gnss(2_500_000, 1, 1.0)).unwrap();
    let mut report = DrainReport::new();
    let action = driver.drain_until(|action| matches!(action, DrainAction::Fuse(_)));
    let DrainAction::Fuse(work) = action else { unreachable!() };
    let numbers = FusionNumbers {
        update_error: Some(EskfError::NumericalFailure),
        ..driver.fusion_numbers(&work)
    };
    let before = driver.core.state;
    assert_eq!(
        driver.core.complete_fusion(numbers, &mut report),
        Err(LiveCoreError::Eskf(EskfError::NumericalFailure))
    );
    assert_eq!(driver.core.state, before);
    assert_eq!(driver.core.work, Work::Idle);
    let numbers = driver.fusion_numbers(&work);
    assert_eq!(
        driver.core.complete_fusion(numbers, &mut report),
        Err(LiveCoreError::InternalInvariant)
    );
    driver.drain(&mut WorkQuota::new(200)).unwrap();
    assert_eq!(driver.core.state.scheduler.queued_measurements(), 0);
    assert!(driver.core.corrected_state().1.position > 0.0);
}

#[test]
fn fusion_faults_are_named() {
    let mut driver = five_intervals();
    driver.ingest_gnss(gnss(2_500_000, 1, 1.0)).unwrap();
    let action = driver.drain_until(|action| matches!(action, DrainAction::Fuse(_)));
    let DrainAction::Fuse(work) = action else { unreachable!() };
    let numbers = driver.fusion_numbers(&work);
    let faults = [
        (
            FusionNumbers { kinematics_error: Some(LiveCoreError::TimeOverflow), ..numbers },
            LiveCoreError::TimeOverflow,
        ),
        (
            FusionNumbers { sample_is_valid: false, ..numbers },
            LiveCoreError::Eskf(EskfError::InvalidCovariance),
        ),
        (
            FusionNumbers { gate_is_valid: false, ..numbers },
            LiveCoreError::Eskf(EskfError::InvalidConfiguration),
        ),
        (
            FusionNumbers { values_are_finite: false, ..numbers },
            LiveCoreError::Eskf(EskfError::InvalidMeasurement),
        ),
        (
            FusionNumbers { angular_covariance_is_valid: false, ..numbers },
            LiveCoreError::Eskf(EskfError::InvalidMeasurementCovariance),
        ),
        (
            FusionNumbers { position: None, ..numbers },
            LiveCoreError::Eskf(EskfError::InvalidMeasurement),
        ),
    ];
    for (numbers, error) in faults {
        let mut report = DrainReport::new();
        let mut copy = Box::new(*driver.core);
        assert_eq!(copy.complete_fusion(numbers, &mut report), Err(error));
        assert_eq!(copy.state, driver.core.state);
        assert_eq!(report, DrainReport::new());
    }
}

#[test]
fn a_refused_finalization_leaves_the_segment_pending() {
    let mut driver = five_intervals();
    driver.drain_until(|action| matches!(action, DrainAction::Finalize(_)));
    let numbers = driver.finalization_numbers();
    let faults = [
        (
            FinalizationNumbers { segment_is_valid: false, ..numbers },
            LiveCoreError::DenseHistory(DenseHistoryError::InvalidSegment),
        ),
        (
            FinalizationNumbers { prediction_is_available: false, ..numbers },
            LiveCoreError::PredictorHistoryUnavailable,
        ),
        (
            FinalizationNumbers { correction_error: Some(PredictorError::NonFinite), ..numbers },
            LiveCoreError::Predictor(PredictorError::NonFinite),
        ),
    ];
    for (numbers, error) in faults {
        let mut report = DrainReport::new();
        let mut copy = Box::new(*driver.core);
        assert_eq!(copy.complete_finalization(numbers, &mut report), Err(error));
        assert_eq!(copy.state, driver.core.state);
        assert_eq!(copy.history, driver.core.history);
    }
    let mut report = DrainReport::new();
    driver.core.complete_finalization(numbers, &mut report).unwrap();
    assert!(driver.core.state.pending_corrected_segment.is_none());
    assert_eq!(report.counters.finalized_segments, 1);
    assert_eq!(report.counters.frontier_commits, 1);
    assert_eq!(driver.core.state.next_corrected_segment_id, 2);
}

#[test]
fn identifiers_and_deadlines_that_overflow_change_nothing() {
    let mut driver = five_intervals();
    driver.drain_until(|action| matches!(action, DrainAction::Finalize(_)));
    driver.core.state.next_corrected_segment_id = u64::MAX;
    let mut report = DrainReport::new();
    let action = driver.core.drain_step(None, &mut WorkQuota::new(1), &mut report).unwrap();
    assert!(matches!(action, DrainAction::Finalize(_)));
    let before = *driver.core;
    let numbers = driver.finalization_numbers();
    assert_eq!(
        driver.core.complete_finalization(numbers, &mut report),
        Err(LiveCoreError::SegmentIdOverflow)
    );
    assert_eq!(driver.core.state, before.state);
    assert_eq!(driver.core.history, before.history);
}

#[test]
fn propagation_faults_are_named_and_consume_nothing() {
    let mut driver = five_intervals();
    let action = driver.drain_until(|action| matches!(action, DrainAction::Propagate(_)));
    let DrainAction::Propagate(plan) = action else { unreachable!() };
    assert_eq!(plan.stop, at(2_500_000));
    assert_eq!(plan.pieces.len(), 1);
    let numbers = driver.propagation_numbers(&plan);
    let faults = [
        (
            PropagationNumbers { integrals_are_finite: false, ..numbers },
            LiveCoreError::Preintegration(PreintegrationError::NonFinite),
        ),
        (
            PropagationNumbers { filter_error: Some(EskfError::NumericalFailure), ..numbers },
            LiveCoreError::Eskf(EskfError::NumericalFailure),
        ),
        (
            PropagationNumbers {
                batch: BatchNumbers { duration_is_too_long: true, ..batch_numbers() },
                ..numbers
            },
            LiveCoreError::Eskf(EskfError::PropagationIntervalTooLong),
        ),
        (
            PropagationNumbers {
                batch: BatchNumbers { samples_are_finite: false, ..batch_numbers() },
                ..numbers
            },
            LiveCoreError::Eskf(EskfError::ImuSampleLatentMismatch),
        ),
        (
            PropagationNumbers {
                batch: BatchNumbers { has_installation_sensitivity: true, ..batch_numbers() },
                ..numbers
            },
            LiveCoreError::Eskf(EskfError::InvalidConsiderBlock),
        ),
        (
            PropagationNumbers {
                batch: BatchNumbers { bias_correction_is_valid: false, ..batch_numbers() },
                ..numbers
            },
            LiveCoreError::Eskf(EskfError::Preintegration(
                PreintegrationError::BiasCorrectionOutsideValidity,
            )),
        ),
    ];
    for (numbers, error) in faults {
        let mut report = DrainReport::new();
        let mut copy = Box::new(*driver.core);
        let mut quota = WorkQuota::new(100);
        assert_eq!(copy.complete_propagation(numbers, &mut quota, &mut report), Err(error));
        assert_eq!(copy.state, driver.core.state);
        assert_eq!(copy.history, driver.core.history);
    }
    let mut report = DrainReport::new();
    let mut copy = Box::new(*driver.core);
    assert_eq!(
        copy.complete_propagation(numbers, &mut WorkQuota::new(7), &mut report),
        Err(LiveCoreError::InternalInvariant)
    );
}

#[test]
fn a_published_history_that_is_full_holds_the_drain() {
    let mut driver = Driver::start(config(), seed());
    let mut start = 0;
    while driver.core.history.corrected.len() < 208 {
        driver.ingest_imu(imu(start, start + 2_500_000)).unwrap();
        start += 2_500_000;
        driver.drain(&mut WorkQuota::new(u16::MAX)).unwrap();
    }
    driver.ingest_imu(imu(start, start + 2_500_000)).unwrap();
    let report = driver.drain(&mut WorkQuota::new(u16::MAX)).unwrap();
    assert_eq!(report.blocked_on, DrainBlock::CorrectedHistoryFull);
    assert_eq!(driver.segments().len(), 208);
    // The quality of published segments is kept for the whole session, and its
    // room is the same as that of the segments.
    assert_eq!(
        driver.drain(&mut WorkQuota::new(u16::MAX)),
        Err(LiveCoreError::Queue(QueueError::Capacity))
    );
}

#[test]
fn smoothing_faults_are_named_and_can_be_retried() {
    let mut driver = Driver::start(smoothing_config(), seed());
    driver.ingest_gnss(gnss(5_000_000, 1, 1.0)).unwrap();
    for millisecond in 0..130 {
        driver.ingest_imu(imu(millisecond * 1_000_000, (millisecond + 1) * 1_000_000)).unwrap();
    }
    let action = driver.drain_until(|action| matches!(action, DrainAction::Smooth(_)));
    let DrainAction::Smooth(SmoothingWork::Step { slot, next_slot, terminal_slot }) = action else {
        unreachable!()
    };
    assert!(terminal_slot.is_some());
    assert!(!driver.core.reanchor_ready());
    assert_eq!(
        driver.core.complete_smoothing(Err(SmoothingError::NumericalFailure)),
        Err(LiveCoreError::Smoothing(SmoothingError::NumericalFailure))
    );
    driver.smoothed_values(slot, next_slot, terminal_slot);
    let mut report = DrainReport::new();
    let mut quota = WorkQuota::new(u16::MAX);
    let again = driver.core.drain_step(None, &mut quota, &mut report).unwrap();
    assert_eq!(
        again,
        DrainAction::Smooth(SmoothingWork::Step { slot, next_slot, terminal_slot: None })
    );
    // A running pass holds everything else.
    let identity = |motion: Motion, covariance: Covariance| Ok((motion, covariance));
    let numbers = ReanchorNumbers {
        error: None,
        filter_values: driver.core.state.filter_values,
        predictor_estimate: driver.core.state.predictor_estimate,
        correlation_is_finite: true,
    };
    assert_eq!(
        driver.core.reanchor(numbers, &identity, |observation| observation),
        Err(LiveCoreError::Reanchor(ReanchorError::NonFinite))
    );
    driver.drain(&mut WorkQuota::new(u16::MAX)).unwrap();
    assert!(driver.core.reanchor_ready());
    assert!(driver.core.history.corrected.len() > 0);
}

#[test]
fn an_unusable_segment_is_not_published() {
    let mut driver = Driver::start(smoothing_config(), seed());
    for millisecond in 0..130 {
        driver.ingest_imu(imu(millisecond * 1_000_000, (millisecond + 1) * 1_000_000)).unwrap();
    }
    let action = driver.drain_until(|action| matches!(action, DrainAction::Publish(_)));
    let DrainAction::Publish(segment) = action else { unreachable!() };
    assert_eq!(segment.end.time, at(2_500_000));
    let mut report = DrainReport::new();
    assert_eq!(
        driver.core.complete_publication(false, &mut report),
        Err(LiveCoreError::DenseHistory(DenseHistoryError::InvalidSegment))
    );
    assert_eq!(driver.core.history.corrected.len(), 0);
    assert_eq!(
        driver.core.complete_publication(true, &mut report),
        Err(LiveCoreError::InternalInvariant)
    );
    driver.drain(&mut WorkQuota::new(u16::MAX)).unwrap();
    assert_eq!(driver.segments()[0], segment);
}

#[test]
fn the_first_sample_is_retained_once() {
    let mut driver = Driver::start(config(), seed());
    let sample = imu(0, 5_000_000);
    driver.ingest_imu(sample).unwrap();
    assert_eq!(
        driver.core.seed_initial_imu_sample(imu(1, 5_000_000), true),
        Err(LiveCoreError::InternalInvariant)
    );
    assert_eq!(
        driver.core.seed_initial_imu_sample(sample, false),
        Err(LiveCoreError::Eskf(EskfError::NumericalFailure))
    );
    driver.core.seed_initial_imu_sample(sample, true).unwrap();
    let active = driver.core.history.active_imu_sample.unwrap();
    assert_eq!((active.support_start, active.support_end), (at(0), at(5_000_000)));
    assert_eq!(
        driver.core.seed_initial_imu_sample(sample, true),
        Err(LiveCoreError::InternalInvariant)
    );
    // The first propagation continues that sample.
    driver.finish().unwrap();
    let action = driver.drain_until(|action| matches!(action, DrainAction::Propagate(_)));
    let DrainAction::Propagate(plan) = action else { unreachable!() };
    assert!(plan.ledger.batch(true).unwrap().leading_sample.is_some());
    assert_eq!(plan.last_sample, active);
}

#[test]
fn clock_changes_need_room_in_the_shared_parameters() {
    let mut driver = Driver::start(config(), LiveCoreSeed { active_consider: 3, ..seed() });
    for (transition, error) in [
        (ClockTransition { active_consider: 2, ..identity_transition() }, EskfError::InvalidConsiderBlock),
        (
            ClockTransition { active_consider: 3, extent: 4, ..identity_transition() },
            EskfError::InvalidConsiderBlock,
        ),
        (
            ClockTransition { active_consider: 3, mapping_is_valid: false, ..identity_transition() },
            EskfError::InvalidConsiderBlock,
        ),
        (
            ClockTransition {
                active_consider: 3,
                covariance_error: Some(EskfError::InvalidCovariance),
                ..identity_transition()
            },
            EskfError::InvalidCovariance,
        ),
    ] {
        assert_eq!(
            driver.core.transition_clock_consider(transition),
            Err(LiveCoreError::Eskf(error))
        );
    }
    driver
        .core
        .transition_clock_consider(ClockTransition { active_consider: 3, ..identity_transition() })
        .unwrap();
}

#[test]
fn a_clock_boundary_may_only_be_set_after_queued_observations() {
    let mut driver = Driver::start(config(), seed());
    assert!(driver.core.can_schedule_clock_transition_at(at(0)));
    assert!(!driver.core.can_schedule_clock_transition_at(at(-1)));
    driver.ingest_gnss(gnss(2_000_000, 1, 0.0)).unwrap();
    assert!(!driver.core.can_schedule_clock_transition_at(at(2_000_000)));
    assert!(driver.core.can_schedule_clock_transition_at(at(2_000_001)));
}

#[test]
fn reanchoring_moves_everything_or_nothing() {
    let mut driver = Driver::start(smoothing_config(), seed());
    driver.ingest_gnss(gnss(125_000_000, 7, 18.0)).unwrap();
    for millisecond in 0..130 {
        driver.ingest_imu(imu(millisecond * 1_000_000, (millisecond + 1) * 1_000_000)).unwrap();
    }
    driver.drain_until(|action| {
        matches!(action, DrainAction::Finalize(work) if work.segment.end.time.ns > 110_000_000)
    });
    assert!(driver.core.history.corrected.len() > 0);
    let before = Box::new(*driver.core);
    let shift = |motion: Motion, covariance: Covariance| {
        Ok((Motion { position: motion.position + 100.0, ..motion }, covariance))
    };
    let shift_fix = |observation: GnssObservation<Rail>| GnssObservation {
        fix: Fix { position: observation.fix.position + 100.0, ..observation.fix },
        ..observation
    };
    let moved = |motion: Motion| Motion { position: motion.position + 100.0, ..motion };
    let numbers = ReanchorNumbers {
        error: None,
        filter_values: FilterValues {
            estimate: moved(before.state.filter_values.estimate),
            covariance: before.state.filter_values.covariance,
        },
        predictor_estimate: moved(before.state.predictor_estimate),
        correlation_is_finite: true,
    };

    let refuse = |_: Motion, _: Covariance| Err(ReanchorError::NonFinite);
    assert_eq!(
        driver.core.reanchor(numbers, &refuse, shift_fix),
        Err(LiveCoreError::Reanchor(ReanchorError::NonFinite))
    );
    assert_eq!(
        driver.core.reanchor(
            ReanchorNumbers { error: Some(ReanchorError::GenerationNotIncreasing), ..numbers },
            &shift,
            shift_fix
        ),
        Err(LiveCoreError::Reanchor(ReanchorError::GenerationNotIncreasing))
    );
    let spoil = |observation: GnssObservation<Rail>| GnssObservation {
        position_is_finite: false,
        ..observation
    };
    assert_eq!(
        driver.core.reanchor(numbers, &shift, spoil),
        Err(LiveCoreError::Eskf(EskfError::InvalidMeasurement))
    );
    assert_eq!(
        driver.core.reanchor(
            ReanchorNumbers { correlation_is_finite: false, ..numbers },
            &shift,
            shift_fix
        ),
        Err(LiveCoreError::Reanchor(ReanchorError::NonFinite))
    );
    assert_eq!(driver.core.state, before.state);
    assert_eq!(driver.core.history, before.history);

    driver.core.reanchor(numbers, &shift, shift_fix).unwrap();
    let state = driver.core.state;
    assert_eq!(state.filter.time, before.state.filter.time);
    assert_eq!(state.filter_values.estimate.position, before.state.filter_values.estimate.position + 100.0);
    assert_eq!(state.corrected_endpoint.estimate, moved(before.state.corrected_endpoint.estimate));
    assert_eq!(
        state.pending_corrected_segment.unwrap().start.estimate,
        moved(before.state.pending_corrected_segment.unwrap().start.estimate)
    );
    let queued = state.scheduler.try_for_each_measurement(|entry| {
        if entry.value.fix.position == 118.0 && entry.key.sequence == 7 {
            Ok(())
        } else {
            Err(())
        }
    });
    assert_eq!(queued, Ok(()));
    assert_eq!(driver.core.history.imu, before.history.imu);
    assert!(driver.core.history.smoothing.has_tail());
    let time = at(1_000_000);
    let old = before.corrected_segment_at(time).unwrap();
    let new = driver.core.corrected_segment_at(time).unwrap();
    assert_eq!(new.start.estimate, moved(old.start.estimate));
    assert_eq!(new.id, old.id);
    assert_eq!(
        driver.core.predictor_segment_at(at(125_000_000)).unwrap().end.estimate,
        moved(before.predictor_segment_at(at(125_000_000)).unwrap().end.estimate)
    );
    assert_eq!(
        driver.core.corrected_segment_at(at(129_000_000)),
        Err(LiveCoreError::DenseHistory(DenseHistoryError::OutsideSpan))
    );
}

#[test]
fn an_exact_boundary_is_a_propagation_stop() {
    let mut driver = five_intervals();
    let boundary = at(1_234_567);
    let report = driver.drain_through(&mut WorkQuota::new(100), Some(boundary)).unwrap();
    assert_eq!(report.blocked_on, DrainBlock::AwaitingDelayedFrontier);
    assert_eq!(driver.core.corrected_state().0, boundary);
    assert_eq!(driver.core.status().unwrap().retained_imu_intervals, 5);
    driver.drain(&mut WorkQuota::new(100)).unwrap();
    assert_eq!(driver.core.corrected_state().0, at(2_500_000));
    let segments = driver.segments();
    assert_eq!(segments.len(), 2);
    assert_eq!(segments[0].end, segments[1].start);
    assert_eq!((segments[0].id, segments[1].id), (1, 2));
}

#[test]
fn planning_is_paid_slice_by_slice_and_cuts_at_the_stop() {
    let mut driver = Driver::start(config(), seed());
    for index in 0..200 {
        driver.ingest_imu(imu(index * 100_000, (index + 1) * 100_000)).unwrap();
    }
    driver.drain(&mut WorkQuota::new(1)).unwrap();
    let mut quota = WorkQuota::new(20);
    assert_eq!(
        driver.core.plan_propagation(at(2_000_000), &mut quota).err(),
        Some(LiveCoreError::PlanningQuotaExhausted)
    );
    assert_eq!(quota.remaining(), 8);
    let mut quota = WorkQuota::new(1_000);
    let plan = driver.core.plan_propagation(at(2_030_000), &mut quota).unwrap();
    assert_eq!(plan.pieces.len(), 21);
    assert_eq!(plan.ring_entries, 21);
    assert_eq!(plan.remainder.unwrap().start, at(2_030_000));
    assert_eq!(quota.remaining(), 1_000 - 21);
}

#[test]
fn planning_reaches_any_stop_that_has_evidence() {
    let mut driver = Driver::start(config(), seed());
    driver.ingest_imu(imu(0, 5_000_000)).unwrap();
    driver.ingest_imu(imu(5_000_000, 10_000_000)).unwrap();
    driver.ingest_gnss(gnss(1_000_000, 1, 0.0)).unwrap();
    // Neither the deadline nor a queued observation holds a plan up.
    assert_eq!(driver.core.state.next_corrected_deadline, at(2_500_000));
    for (stop, slices) in [(4_999_999, 1), (5_000_000, 1), (5_000_001, 2), (10_000_000, 2)] {
        let mut quota = WorkQuota::new(50);
        let plan = driver.core.plan_propagation(at(stop), &mut quota).unwrap();
        assert_eq!(plan.stop, at(stop));
        assert_eq!(plan.pieces.len(), slices);
        assert_eq!(plan.remainder.is_some(), stop % 5_000_000 != 0);
        assert_eq!(quota.remaining(), 50 - slices as u16);
    }
    let before = *driver.core;
    // Beyond the evidence every slice that was looked for has been paid for.
    let mut quota = WorkQuota::new(50);
    assert_eq!(
        driver.core.plan_propagation(at(10_000_001), &mut quota).err(),
        Some(LiveCoreError::MissingImuSupport)
    );
    assert_eq!(quota.remaining(), 47);
    // There is no evidence behind the filter, and nothing is charged for it.
    for stop in [0, -1] {
        let mut quota = WorkQuota::new(50);
        assert_eq!(
            driver.core.plan_propagation(at(stop), &mut quota).err(),
            Some(LiveCoreError::MissingImuSupport)
        );
        assert_eq!(quota.remaining(), 50);
    }
    for (credits, left) in [(0, 0), (7, 7), (8, 8), (9, 8)] {
        let mut quota = WorkQuota::new(credits);
        assert_eq!(
            driver.core.plan_propagation(at(10_000_000), &mut quota).err(),
            Some(LiveCoreError::PlanningQuotaExhausted)
        );
        assert_eq!(quota.remaining(), left);
    }
    assert_eq!(*driver.core, before);
}

#[test]
fn a_propagation_stop_hands_on_a_missing_target() {
    let driver = Driver::start(config(), seed());
    assert_eq!(driver.core.next_propagation_stop(at(0), false), Ok(None));
    assert_eq!(
        driver.core.next_propagation_stop(at(1), false),
        Err(LiveCoreError::Scheduler(SchedulerError::NoTrustedImu))
    );
    let driver = five_intervals();
    assert_eq!(driver.core.next_propagation_stop(at(2_500_000), false), Ok(Some(at(2_500_000))));
    assert_eq!(driver.core.next_propagation_stop(at(2_000_000), false), Ok(None));
    assert_eq!(driver.core.next_propagation_stop(at(2_000_000), true), Ok(Some(at(2_000_000))));
}

#[test]
fn a_window_is_ready_once_its_lag_has_passed() {
    let endpoint = |ns: i64| DenseEndpoint { time: at(ns), ..seed().endpoint };
    let mut window = RtsWindow::<Rail>::new();
    assert_eq!(window.begin_step(), SmoothingWork::Complete);
    assert!(!window.ready(at(i64::MAX), 0, true));
    window.seed(endpoint(0), None);
    assert!(!window.ready(at(i64::MAX), 0, true));
    window.push_prediction(endpoint(10), None);
    assert!(window.ready(at(10), 5, true));
    assert!(!window.ready(at(14), 5, false));
    assert!(window.ready(at(15), 5, false));
    // The elapsed time stays within the range of durations.
    assert!(window.ready(at(i64::MIN), i64::MIN, false));
    assert!(!window.ready(at(i64::MIN), i64::MIN + 1, false));
}

#[test]
fn every_published_boundary_is_shared_by_its_segments() {
    for (lag, credits) in [(0, 40), (100_000_000, 64)] {
        let mut driver =
            Driver::start(LiveCoreConfig { smoothing_lag_ns: lag, ..config() }, seed());
        driver.ingest_gnss(gnss(100_000_000, 1, 1.0)).unwrap();
        for millisecond in 0..250 {
            driver.ingest_imu(imu(millisecond * 1_000_000, (millisecond + 1) * 1_000_000)).unwrap();
        }
        driver.finish().unwrap();
        let mut segments = Vec::new();
        loop {
            let report = driver.drain(&mut WorkQuota::new(credits)).unwrap();
            segments.extend(driver.segments());
            if report.blocked_on == DrainBlock::Finished {
                break;
            }
        }
        assert_eq!(segments.first().unwrap().start.time, at(0));
        assert_eq!(segments.last().unwrap().end.time, at(250_000_000));
        for pair in segments.windows(2) {
            assert_eq!(pair[0].end, pair[1].start);
        }
    }
}
