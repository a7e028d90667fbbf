use traj::augmented::{classify_axis, inactive_consider, is_retained, joint_block, Axis, JointBlock};
use traj::error::{EskfError, PredictorError, PreintegrationError, ReanchorError, StateError};
use traj::eskf::{BatchNumbers, FilterLedger};
use traj::gnss::{accepted_gnss_quality_update, GnssObservation, GnssUpdateOutcome, UpdateDecision};
use traj::innovation::{gate_innovation, GateBand, GateVerdict};
use traj::payload::Payload;
use traj::predictor::{PredictorLedger, PredictorNumbers};
use traj::preintegration::{BatchGap, BatchSample, BatchShape};
use traj::reanchor::{validate_anchor_change, AnchorDistance, ReanchorMonitor};
use traj::time::SessionTime;

#[derive(Clone, Copy, Debug, PartialEq)]
struct Plain;

impl Payload for Plain {
    const MAX_CONSIDER: usize = 8;
    type Vector = f32;
    type SampleCovariance = f32;
    type Mounting = u8;
    type GapDerivative = f32;
    type Estimate = u8;
    type EndpointCovariance = u8;
    type Fix = f32;
    type Score = u8;
    type Label = &'static str;
}

fn at(ns: i64) -> SessionTime {
    SessionTime::from_ns(ns)
}

fn position_observation() -> GnssObservation<Plain> {
    GnssObservation {
        time: at(0),
        fix: 0.0,
        has_position: true,
        has_velocity: false,
        has_cross_covariance: false,
        has_angular_acceleration: false,
        lever_arm_is_nonzero: false,
        velocity_epoch_is_uncertain: false,
        position_is_finite: true,
        velocity_is_finite: true,
        values_are_finite: true,
        position_covariance_is_psd: true,
        velocity_covariance_is_psd: true,
        angular_covariance_is_valid: true,
        joint_covariance_is_valid: true,
        sensitivity_extent: 0,
        clock_consider_start: None,
        clock_reference_time: at(0),
        lever_arm_consider_start: None,
        receiver_healthy: true,
        label: "pps",
    }
}

fn batch() -> BatchShape<Plain> {
    BatchShape {
        start: at(0),
        end: at(2_500_000),
        sample_count: 1,
        degraded: false,
        degraded_input: false,
        calibration_consider_start: None,
        leading_sample: None,
        trailing_sample: None,
        gap: None,
        gap_active_at_end: false,
    }
}

fn filter() -> FilterLedger<Plain> {
    FilterLedger { time: at(0), active_consider: 0, gap: None }
}

fn numbers() -> BatchNumbers {
    BatchNumbers {
        has_installation_sensitivity: false,
        installation_sensitivity_is_finite: true,
        samples_are_finite: true,
        bias_correction_is_valid: true,
        duration_is_too_long: false,
        gap_is_finite: true,
    }
}

#[test]
fn lever_arm_velocity_timing_fails_closed_without_angular_acceleration() {
    let mut observation = position_observation();
    observation.has_position = false;
    observation.has_velocity = true;
    observation.lever_arm_is_nonzero = true;
    observation.velocity_epoch_is_uncertain = true;
    assert_eq!(
        observation.plan_update(at(0), 0, true, true).err(),
        Some(EskfError::MissingAngularAccelerationForTiming)
    );
    // The core turns the same lack into a rejected velocity.
    let plan = observation.plan_fusion(at(0), 0, true, true).unwrap();
    assert!(!plan.velocity);
    assert_eq!(plan.preset.velocity, Some(UpdateDecision::RejectedInsufficientKinematics));
    observation.has_angular_acceleration = true;
    assert!(observation.plan_update(at(0), 0, true, true).unwrap().velocity);
}

#[test]
fn unhealthy_receiver_is_rejected_without_numerical_use() {
    let mut observation = position_observation();
    observation.receiver_healthy = false;
    let plan = observation.plan_fusion(at(0), 0, true, true).unwrap();
    assert!(!plan.position && !plan.velocity && !plan.joint);
    let outcome = plan.outcome(None, None, None).unwrap();
    assert_eq!(outcome.position, Some(UpdateDecision::RejectedHealth));
    assert_eq!(accepted_gnss_quality_update(&observation, outcome), None);
}

#[test]
fn gnss_consider_block_bounds_are_transactional() {
    let mut observation = position_observation();
    observation.clock_consider_start = Some(1);
    assert_eq!(
        observation.plan_update(at(0), 2, true, true).err(),
        Some(EskfError::InvalidConsiderBlock)
    );
    assert!(observation.plan_update(at(0), 3, true, true).is_ok());
    observation.clock_consider_start = None;
    observation.lever_arm_consider_start = Some(6);
    assert_eq!(observation.validate(), Err(EskfError::InvalidConsiderBlock));
    observation.lever_arm_consider_start = None;
    observation.sensitivity_extent = 4;
    assert_eq!(
        observation.plan_update(at(0), 3, true, true).err(),
        Some(EskfError::InvalidConsiderBlock)
    );
}

#[test]
fn process_consider_block_bounds_are_checked_before_state_mutation() {
    let mut filter = filter();
    filter.active_consider = 3;
    let before = filter;
    let mut batch = batch();
    batch.calibration_consider_start = Some(1);
    let sensitive = BatchNumbers { has_installation_sensitivity: true, ..numbers() };
    assert_eq!(
        filter.plan_propagation(&batch, false, sensitive).err(),
        Some(EskfError::InvalidConsiderBlock)
    );
    assert_eq!(filter, before);
    batch.calibration_consider_start = Some(0);
    assert!(filter.plan_propagation(&batch, false, sensitive).is_ok());
    batch.calibration_consider_start = None;
    assert_eq!(
        filter.plan_propagation(&batch, false, sensitive).err(),
        Some(EskfError::InvalidConsiderBlock)
    );
}

#[test]
fn hysteresis_prevents_reanchor_chatter() {
    let band = |distance: f32| {
        if distance >= 1_000.0 {
            AnchorDistance::Far
        } else if distance <= 100.0 {
            AnchorDistance::Near
        } else {
            AnchorDistance::Between
        }
    };
    let mut monitor = ReanchorMonitor::new(true).unwrap();
    assert!(monitor.observe(band(1_001.0)));
    assert!(!monitor.observe(band(1_100.0)));
    assert!(!monitor.observe(band(50.0)));
    assert!(monitor.observe(band(1_001.0)));
    assert!(!monitor.observe(band(500.0)));
    assert!(!monitor.observe(AnchorDistance::NotFinite));
    assert!(!monitor.observe(band(1_001.0)));
    assert_eq!(ReanchorMonitor::new(false).err(), Some(ReanchorError::InvalidPolicy));
}

#[test]
fn an_anchor_change_needs_valid_anchors_and_a_later_generation() {
    assert_eq!(validate_anchor_change(Ok(()), Ok(()), 1, 2), Ok(()));
    assert_eq!(
        validate_anchor_change(Ok(()), Ok(()), 2, 2),
        Err(ReanchorError::GenerationNotIncreasing)
    );
    assert_eq!(
        validate_anchor_change(Err(ReanchorError::InvalidRotation), Err(ReanchorError::NonFinite), 3, 2),
        Err(ReanchorError::InvalidRotation)
    );
    assert_eq!(
        validate_anchor_change(Ok(()), Err(ReanchorError::UndefinedTangentFrame), 3, 2),
        Err(ReanchorError::UndefinedTangentFrame)
    );
}

#[test]
fn observations_are_validated_field_by_field() {
    let valid = position_observation();
    assert_eq!(valid.validate(), Ok(()));
    let cases = [
        (GnssObservation { has_position: false, ..valid }, EskfError::InvalidMeasurement),
        (GnssObservation { position_is_finite: false, ..valid }, EskfError::InvalidMeasurement),
        (GnssObservation { values_are_finite: false, ..valid }, EskfError::InvalidMeasurement),
        (GnssObservation { clock_consider_start: Some(7), ..valid }, EskfError::InvalidConsiderBlock),
        (
            GnssObservation {
                clock_consider_start: Some(0),
                time: at(i64::MAX),
                clock_reference_time: at(i64::MIN),
                ..valid
            },
            EskfError::InvalidConsiderBlock,
        ),
        (
            GnssObservation { position_covariance_is_psd: false, ..valid },
            EskfError::InvalidMeasurementCovariance,
        ),
        (
            GnssObservation { has_velocity: true, velocity_covariance_is_psd: false, ..valid },
            EskfError::InvalidMeasurementCovariance,
        ),
        (
            GnssObservation { angular_covariance_is_valid: false, ..valid },
            EskfError::InvalidMeasurementCovariance,
        ),
        (
            GnssObservation { has_cross_covariance: true, joint_covariance_is_valid: false, ..valid },
            EskfError::InvalidMeasurementCovariance,
        ),
    ];
    for (observation, error) in cases {
        assert_eq!(observation.validate(), Err(error));
    }
    assert_eq!(valid.plan_update(at(1), 0, true, true).err(), Some(EskfError::TimeMismatch));
    assert_eq!(valid.plan_update(at(0), 0, false, true).err(), Some(EskfError::InvalidConfiguration));
    assert_eq!(valid.plan_update(at(0), 0, true, false).err(), Some(EskfError::InvalidCovariance));
}

#[test]
fn correlated_parts_are_updated_jointly() {
    let mut observation = position_observation();
    observation.has_velocity = true;
    let plan = observation.plan_fusion(at(0), 0, true, true).unwrap();
    assert!(plan.position && plan.velocity && !plan.joint);
    observation.has_cross_covariance = true;
    let plan = observation.plan_fusion(at(0), 0, true, true).unwrap();
    assert!(plan.joint && !plan.position && !plan.velocity);
    assert_eq!(plan.outcome(None, None, None).err(), Some(EskfError::InvalidMeasurement));
    let fused = UpdateDecision::Fused { score: 3 };
    let outcome = plan.outcome(Some(fused), None, None).unwrap();
    assert_eq!(
        outcome,
        GnssUpdateOutcome { joint: Some(fused), position: None, velocity: None }
    );
    let quality = accepted_gnss_quality_update(&observation, outcome).unwrap();
    assert_eq!((quality.epoch, quality.label, quality.downweighted), (at(0), "pps", false));
    observation.lever_arm_is_nonzero = true;
    observation.clock_consider_start = Some(0);
    let plan = observation.plan_fusion(at(0), 0, true, true).unwrap();
    assert_eq!(plan.preset.joint, Some(UpdateDecision::RejectedInsufficientKinematics));
}

#[test]
fn gates_reject_inflate_or_accept() {
    assert_eq!(gate_innovation(3, true, GateBand::Inside, true), Ok(GateVerdict::Accept));
    assert_eq!(gate_innovation(3, true, GateBand::Between, true), Ok(GateVerdict::Inflate));
    assert_eq!(gate_innovation(3, true, GateBand::Between, false), Ok(GateVerdict::Accept));
    assert_eq!(gate_innovation(6, true, GateBand::Beyond, true), Ok(GateVerdict::Reject));
    assert_eq!(gate_innovation(0, true, GateBand::Inside, true), Err(EskfError::InvalidMeasurement));
    assert_eq!(gate_innovation(7, true, GateBand::Inside, true), Err(EskfError::InvalidMeasurement));
    assert_eq!(
        gate_innovation(3, false, GateBand::Inside, true),
        Err(EskfError::InvalidInnovationCovariance)
    );
    assert_eq!(gate_innovation(3, true, GateBand::Unusable, true), Err(EskfError::NumericalFailure));
    assert_eq!(
        GateVerdict::Reject.decision::<Plain>(9),
        UpdateDecision::RejectedInnovation { score: 9 }
    );
    assert_eq!(GateVerdict::Accept.decision::<Plain>(1), UpdateDecision::Fused { score: 1 });
    assert_eq!(GateVerdict::Inflate.decision::<Plain>(2), UpdateDecision::Downweighted { score: 2 });
}

#[test]
fn propagation_rules_name_every_refusal() {
    let ledger = filter();
    let refused = |batch: BatchShape<Plain>, present: bool, numbers: BatchNumbers| {
        filter().plan_propagation(&batch, present, numbers).err()
    };
    assert_eq!(
        refused(BatchShape { start: at(1), ..batch() }, false, numbers()),
        Some(EskfError::TimeMismatch)
    );
    assert_eq!(
        refused(BatchShape { end: at(0), ..batch() }, false, numbers()),
        Some(EskfError::Preintegration(PreintegrationError::InvalidDuration))
    );
    assert_eq!(
        refused(batch(), false, BatchNumbers { duration_is_too_long: true, ..numbers() }),
        Some(EskfError::PropagationIntervalTooLong)
    );
    let leading = BatchSample { covariance: 1.0, active_at_end: true };
    let continued = BatchShape { leading_sample: Some(leading), ..batch() };
    assert_eq!(refused(continued, false, numbers()), Some(EskfError::ImuSampleLatentMismatch));
    let step = ledger.plan_propagation(&continued, true, numbers()).unwrap();
    assert!(step.retain_sample && !step.continues_gap && step.next_gap.is_none());
    let both = BatchShape { trailing_sample: Some(leading), ..continued };
    assert_eq!(refused(both, true, numbers()), Some(EskfError::ImuSampleLatentMismatch));
}

#[test]
fn a_carried_gap_must_go_on() {
    let gap = BatchGap { origin: at(1_000_000), derivative_covariance: 4.0 };
    let first = BatchShape { gap: Some(gap), gap_active_at_end: true, ..batch() };
    let mut ledger = filter();
    let step = ledger.plan_propagation(&first, false, numbers()).unwrap();
    assert!(!step.continues_gap && !step.retain_gap);
    ledger.commit_propagation(&first, step);
    assert_eq!(ledger.gap, Some(gap));
    let next = BatchShape { start: at(2_500_000), end: at(5_000_000), ..batch() };
    assert_eq!(
        ledger.plan_propagation(&next, false, numbers()).err(),
        Some(EskfError::GapLatentMismatch)
    );
    let other = BatchGap { derivative_covariance: 5.0, ..gap };
    assert_eq!(
        ledger
            .plan_propagation(&BatchShape { gap: Some(other), ..next }, false, numbers())
            .err(),
        Some(EskfError::GapLatentMismatch)
    );
    let last = BatchShape { gap: Some(gap), gap_active_at_end: false, ..next };
    let step = ledger.plan_propagation(&last, false, numbers()).unwrap();
    assert!(step.continues_gap && !step.retain_gap);
    ledger.commit_propagation(&last, step);
    assert_eq!((ledger.gap, ledger.time), (None, at(5_000_000)));
}

#[test]
fn the_predictor_follows_batches_and_counts_resets() {
    let good = PredictorNumbers {
        bias_correction_is_valid: true,
        duration_is_too_long: false,
        state_is_finite: true,
        correction_is_finite: true,
    };
    let mut ledger = PredictorLedger::start_at(at(0));
    assert_eq!(
        ledger.propagate(&batch(), PredictorNumbers { bias_correction_is_valid: false, ..good }),
        Err(PredictorError::Preintegration(PreintegrationError::BiasCorrectionOutsideValidity))
    );
    assert_eq!(
        ledger.propagate(&batch(), PredictorNumbers { state_is_finite: false, ..good }),
        Err(PredictorError::Eskf(EskfError::NumericalFailure))
    );
    assert_eq!(
        ledger.propagate(&batch(), PredictorNumbers { correction_is_finite: false, ..good }),
        Err(PredictorError::State(StateError::NonFinite))
    );
    assert_eq!(
        ledger.propagate(&BatchShape { start: at(1), ..batch() }, good),
        Err(PredictorError::Eskf(EskfError::TimeMismatch))
    );
    ledger.propagate(&BatchShape { degraded_input: true, ..batch() }, good).unwrap();
    assert_eq!(ledger.time, at(2_500_000));
    assert!(ledger.degraded_input);
    assert_eq!(ledger.frontier_lag_ns(at(1_000_000), at(1_000_000)), Ok(1_500_000));
    assert_eq!(
        ledger.frontier_lag_ns(at(1_000_000), at(2_000_000)),
        Err(PredictorError::TimeMismatch)
    );
    assert_eq!(
        ledger.frontier_lag_ns(at(3_000_000), at(3_000_000)),
        Err(PredictorError::TimeMismatch)
    );
    assert_eq!(
        ledger.frontier_lag_ns(at(i64::MIN), at(i64::MIN)),
        Err(PredictorError::TimeOverflow)
    );
    ledger.note_correction(true);
    assert_eq!((ledger.hard_resets, ledger.tracking_degraded), (1, true));
    ledger.note_correction(false);
    assert_eq!((ledger.hard_resets, ledger.tracking_degraded), (1, false));
}

#[test]
fn augmented_coordinates_fall_into_groups() {
    assert_eq!(classify_axis::<Plain>(0), Axis::Navigation(0));
    assert_eq!(classify_axis::<Plain>(14), Axis::Navigation(14));
    assert_eq!(classify_axis::<Plain>(15), Axis::Consider(0));
    assert_eq!(classify_axis::<Plain>(22), Axis::Consider(7));
    assert_eq!(classify_axis::<Plain>(23), Axis::Sample(0));
    assert_eq!(classify_axis::<Plain>(29), Axis::Gap(0));
    assert_eq!(classify_axis::<Plain>(35), Axis::Outside);
    assert!(!inactive_consider::<Plain>(16, 2));
    assert!(inactive_consider::<Plain>(17, 2));
    assert!(!inactive_consider::<Plain>(23, 2));
    assert_eq!(joint_block::<Plain>(16, 3), joint_block::<Plain>(3, 16));
    assert_eq!(joint_block::<Plain>(20, 25), JointBlock::Independent);
    assert!(is_retained::<Plain>(15, false, false));
    assert!(!is_retained::<Plain>(23, false, true));
    assert!(is_retained::<Plain>(29, false, true));
    assert!(!is_retained::<Plain>(0, true, true));
}
