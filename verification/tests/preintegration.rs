use traj::error::{LiveCoreError, PreintegrationError};
use traj::imu::{split_interval, CorrectedImuSample, GapModel, ImuInterval};
use traj::payload::Payload;
use traj::preintegration::{BatchLedger, SampleFold, MAX_BATCH_SAMPLES};
use traj::time::SessionTime;

#[derive(Clone, Copy, Debug, PartialEq)]
struct Plain;

impl Payload for Plain {
    const MAX_CONSIDER: usize = 8;
    type Vector = f32;
    type SampleCovariance = f32;
    type Mounting = u8;
    type GapDerivative = f32;
    type Estimate = u8;
    type EndpointCovariance = u8;
    type Fix = u8;
    type Score = u8;
    type Label = u8;
}

fn at(ns: i64) -> SessionTime {
    SessionTime::from_ns(ns)
}

fn interval(start: i64, end: i64) -> ImuInterval<Plain> {
    ImuInterval {
        start: at(start),
        end: at(end),
        omega_ib_b: 0.0,
        specific_force_b: 0.0,
        sample_covariance: 0.5,
        body_from_sensor: 0,
        values_are_valid: true,
        degraded_input: false,
        gap_elapsed_ns_plus_one: 0,
        calibration_consider_start: None,
    }
}

fn model() -> GapModel<Plain> {
    GapModel { maximum_gap_ns: 10_000_000, sigmas_are_valid: true, derivative_covariance: 2.0 }
}

fn ledger(start: i64) -> BatchLedger<Plain> {
    BatchLedger::new(at(start), true).unwrap()
}

#[test]
fn discontinuity_is_never_silently_integrated() {
    let mut batch = ledger(0);
    let error = batch.push(interval(1, 1_000_001), true).unwrap_err();
    assert!(matches!(error, PreintegrationError::Discontinuous { .. }));
    assert_eq!(
        error,
        PreintegrationError::Discontinuous { expected: at(0), received: at(1) }
    );
    assert!(batch.is_empty());
}

#[test]
fn gap_bridge_is_bounded_and_degraded() {
    let mut batch = ledger(0);
    batch.push(interval(0, 1_000_000), true).unwrap();
    batch.bridge_gap(at(11_000_000), true, model()).unwrap();
    assert!(batch.batch(true).unwrap().degraded);
    assert_eq!(
        batch.bridge_gap(at(21_000_001), true, model()).err(),
        Some(PreintegrationError::GapTooLong)
    );
}

#[test]
fn synthetic_gap_cannot_omit_its_derivative_model() {
    let previous = interval(0, 1_000_000);
    let gap = ImuInterval::bridge_after(previous, at(11_000_000), model()).unwrap();
    let mut batch = ledger(1_000_000);
    assert_eq!(batch.push(gap, true).err(), Some(PreintegrationError::InvalidGapModel));
}

#[test]
fn a_batch_names_every_refusal() {
    assert_eq!(
        BatchLedger::<Plain>::new(at(0), false).err(),
        Some(PreintegrationError::NonFinite)
    );
    let mut batch = ledger(0);
    assert_eq!(batch.batch(true).err(), Some(PreintegrationError::EmptyBatch));
    assert_eq!(
        batch.bridge_gap(at(5), true, model()).err(),
        Some(PreintegrationError::NoBridgeSource)
    );
    assert_eq!(
        batch.push(interval(0, 1), false).err(),
        Some(PreintegrationError::NonFinite)
    );
    for index in 0..i64::from(MAX_BATCH_SAMPLES) {
        batch.push(interval(index, index + 1), true).unwrap();
    }
    assert_eq!(batch.push(interval(32, 33), true).err(), Some(PreintegrationError::BatchCapacity));
    assert_eq!(batch.batch(true).unwrap().sample_count, MAX_BATCH_SAMPLES);
    assert_eq!(batch.batch(false).err(), Some(PreintegrationError::NonFinite));
    let mut batch = ledger(0);
    batch.push(interval(0, 1), true).unwrap();
    let mut calibrated = interval(1, 2);
    calibrated.calibration_consider_start = Some(3);
    assert_eq!(
        batch.push(calibrated, true).err(),
        Some(PreintegrationError::CalibrationModelChanged)
    );
}

#[test]
fn a_batch_holds_at_most_one_gap() {
    let mut batch = ledger(0);
    batch.push(interval(0, 1_000), true).unwrap();
    let first = ImuInterval::bridge_after(interval(0, 1_000), at(2_000), model()).unwrap();
    batch.push_gap(first, true, model(), false).unwrap();
    batch.push(interval(2_000, 3_000), true).unwrap();
    let second = ImuInterval::bridge_after(interval(2_000, 3_000), at(4_000), model()).unwrap();
    assert_eq!(
        batch.push_gap(second, true, model(), false).err(),
        Some(PreintegrationError::MultipleGapLatents)
    );
    let shape = batch.batch(true).unwrap();
    assert_eq!(shape.gap.unwrap().origin, at(1_000));
    assert!(!shape.gap_active_at_end);
    assert!(shape.degraded);
}

#[test]
fn samples_that_cross_the_ends_are_kept_apart() {
    let mut batch = ledger(0);
    let leading = batch.push_piece(interval(0, 1_000), true, true, false).unwrap();
    assert!(leading.opens_sample);
    let inner = batch.push_piece(interval(1_000, 2_000), true, false, false).unwrap();
    assert_eq!(inner.fold, SampleFold::IntoLeading);
    let last = batch.push_piece(interval(2_000, 2_500), true, false, true).unwrap();
    assert_eq!(last.fold, SampleFold::IntoCovariance);
    let shape = batch.batch(true).unwrap();
    assert!(!shape.leading_sample.unwrap().active_at_end);
    assert!(shape.trailing_sample.unwrap().active_at_end);
    assert_eq!((shape.start, shape.end), (at(0), at(2_500)));
}

#[test]
fn splitting_partitions_an_interval_and_counts_through_a_gap() {
    let (left, right) = split_interval(interval(0, 10), at(4)).unwrap();
    let right = right.unwrap();
    assert_eq!((left.start, left.end, right.start, right.end), (at(0), at(4), at(4), at(10)));
    assert!(split_interval(interval(0, 10), at(10)).unwrap().1.is_none());
    assert_eq!(split_interval(interval(0, 10), at(0)).err(), Some(LiveCoreError::InternalInvariant));
    assert_eq!(split_interval(interval(0, 10), at(11)).err(), Some(LiveCoreError::InternalInvariant));
    let gap = ImuInterval::bridge_after(interval(0, 1_000), at(5_000), model()).unwrap();
    assert!(gap.is_gap());
    assert_eq!(gap.gap_elapsed_ns_plus_one, 1);
    let (first, rest) = split_interval(gap, at(2_500)).unwrap();
    let rest = rest.unwrap();
    assert_eq!(first.gap_elapsed_ns_plus_one, 1);
    assert_eq!(rest.gap_elapsed_ns_plus_one, 1_501);
    assert_eq!(rest.gap_origin(), Ok(Some(at(1_000))));
}

#[test]
fn bridges_are_bounded() {
    let previous = interval(0, 1_000_000);
    assert_eq!(
        ImuInterval::bridge_after(previous, at(11_000_001), model()).err(),
        Some(PreintegrationError::GapTooLong)
    );
    assert_eq!(
        ImuInterval::bridge_after(previous, at(1_000_000), model()).err(),
        Some(PreintegrationError::InvalidDuration)
    );
    let invalid = GapModel { sigmas_are_valid: false, ..model() };
    assert_eq!(
        ImuInterval::bridge_after(previous, at(2_000_000), invalid).err(),
        Some(PreintegrationError::InvalidGapModel)
    );
    assert_eq!(
        GapModel { maximum_gap_ns: 10_000_001, ..model() }.validate(),
        Err(PreintegrationError::InvalidGapModel)
    );
}

#[test]
fn one_latent_is_shared_by_the_same_support_and_by_its_bridge() {
    let sample = |start, end, gap| CorrectedImuSample::<Plain> {
        support_start: at(start),
        support_end: at(end),
        omega_ib_b: 1.0,
        specific_force_b: 2.0,
        sample_covariance: 3.0,
        gap,
    };
    let measured = sample(0, 10, false);
    assert!(measured.same_latent_as(measured));
    assert!(sample(10, 20, true).same_latent_as(measured));
    assert!(!sample(10, 20, false).same_latent_as(measured));
    let other = CorrectedImuSample { omega_ib_b: 9.0, ..sample(10, 20, true) };
    assert!(!other.same_latent_as(measured));
}
