use traj::error::InitializationError;
use traj::initializer::{
    evidence_is_fresh, AlignmentConfig, AlignmentNumbers, GyrocompassVerdict, InitialHeadingSource,
    InitializationPhase, Initializer, MomentsAction, StationaryClassifier,
    STATIONARY_WINDOW_CAPACITY,
};
use traj::time::SessionTime;

fn at(ns: i64) -> SessionTime {
    SessionTime::from_ns(ns)
}

fn config() -> AlignmentConfig {
    AlignmentConfig {
        minimum_window_samples: 2,
        minimum_coarse_samples: 4,
        minimum_gyrocompass_samples: 8,
        gyrocompassing_qualified: false,
        values_are_valid: true,
    }
}

fn numbers() -> AlignmentNumbers {
    AlignmentNumbers {
        variances_are_acceptable: true,
        gravity_is_usable: true,
        gyrocompass: GyrocompassVerdict::Observable,
        dynamic_heading_is_qualified: true,
        covariance_is_finite: true,
    }
}

/// The probability that a mean score of motion leaves for standing still.
fn probability(mean_score: f64) -> f64 {
    1.0 / (1.0 + mean_score)
}

fn observe(classifier: &mut StationaryClassifier<f64>, time: i64, maximum_age: u64, score: f64, sum: &mut f64) {
    let step = classifier.observe_score(at(time), maximum_age, score);
    *sum += score - step.evicted.unwrap_or(0.0);
    let mean = (*sum + step.receiver_score.unwrap_or(0.0)) / step.len as f64;
    classifier.settle(probability(mean) >= 0.6, probability(mean) < 0.2);
}

fn aligned(count: usize, config: AlignmentConfig) -> Initializer<f32, f64> {
    let mut initializer = Initializer::new(config).unwrap();
    initializer.observe_gnss(at(10), 1.0, Some(0.0), true).unwrap();
    for index in 0..count {
        initializer.observe_score(at(10 + index as i64), 1_000, 0.0);
        initializer.settle(true, false);
    }
    initializer
}

#[test]
fn classifier_hysteresis_rejects_large_motion_score() {
    let mut classifier = StationaryClassifier::new(2);
    let mut sum = 0.0;
    classifier.observe_gnss_zero_velocity(at(0), Some(0.0));
    observe(&mut classifier, 0, 1_000, 0.0, &mut sum);
    observe(&mut classifier, 1, 1_000, 0.0, &mut sum);
    assert!(classifier.stationary());
    for index in 0..STATIONARY_WINDOW_CAPACITY {
        observe(&mut classifier, 2 + index as i64, 1_000, 700.0, &mut sum);
    }
    assert!(!classifier.stationary());
}

#[test]
fn missing_gnss_nis_is_not_perfect_stationary_evidence() {
    let mut missing = StationaryClassifier::new(2);
    let mut sum = 0.0;
    for time in 0..4 {
        observe(&mut missing, time, 10, 0.0, &mut sum);
    }
    assert!(!missing.stationary());

    let mut measured = StationaryClassifier::new(2);
    let mut sum = 0.0;
    measured.observe_gnss_zero_velocity(at(0), Some(0.0));
    for time in 0..4 {
        observe(&mut measured, time, 10, 0.0, &mut sum);
    }
    assert!(measured.stationary());
}

#[test]
fn stale_gnss_evidence_unlatches_and_cannot_seed_alignment() {
    let mut initializer: Initializer<f32, f64> = Initializer::new(config()).unwrap();
    initializer.observe_gnss(at(10), 1.0, Some(0.0), true).unwrap();
    for time in [10, 11] {
        initializer.observe_score(at(time), 5, 0.0);
        initializer.settle(true, false);
    }
    assert!(initializer.classifier.stationary());

    initializer.observe_score(at(16), 5, 0.0);
    assert_eq!(initializer.settle(true, false), MomentsAction::Discard);
    assert!(!initializer.classifier.stationary());
    assert!(initializer.latest_fix.is_none());
    assert_eq!(initializer.phase, InitializationPhase::Uninitialized);
}

#[test]
fn unqualified_profile_never_emits_a_gyrocompass_heading() {
    let mut initializer = aligned(8, config());
    assert_eq!(initializer.try_initialize(numbers()), Ok(Some(InitialHeadingSource::Absent)));
    assert_eq!(initializer.phase, InitializationPhase::Navigating);
}

#[test]
fn supplied_heading_completes_alignment() {
    let mut initializer = aligned(4, config());
    initializer.provide_heading(true).unwrap();
    assert_eq!(initializer.try_initialize(numbers()), Ok(Some(InitialHeadingSource::Supplied)));
    assert_eq!(initializer.phase, InitializationPhase::Navigating);
}

#[test]
fn invalid_dynamic_constraint_does_not_block_tilt_only_initialization() {
    let mut initializer = aligned(4, config());
    initializer.provide_dynamic_yaw(true, false).unwrap();
    assert_eq!(initializer.try_initialize(numbers()), Ok(Some(InitialHeadingSource::Absent)));
}

#[test]
fn unobservable_gyrocompass_geometry_falls_back_to_tilt_only_initialization() {
    let qualified = AlignmentConfig { gyrocompassing_qualified: true, ..config() };
    let mut initializer = aligned(8, qualified);
    let unobservable =
        AlignmentNumbers { gyrocompass: GyrocompassVerdict::Unobservable, ..numbers() };
    assert_eq!(
        initializer.try_initialize(unobservable),
        Ok(Some(InitialHeadingSource::Absent))
    );
}

#[test]
fn headings_are_taken_best_first() {
    let qualified = AlignmentConfig { gyrocompassing_qualified: true, ..config() };
    let mut initializer = aligned(8, qualified);
    initializer.provide_dynamic_yaw(true, true).unwrap();
    let mut copy = initializer;
    assert_eq!(copy.try_initialize(numbers()), Ok(Some(InitialHeadingSource::Gyrocompass)));
    let mut copy = initializer;
    let unobservable =
        AlignmentNumbers { gyrocompass: GyrocompassVerdict::Unobservable, ..numbers() };
    assert_eq!(
        copy.try_initialize(unobservable),
        Ok(Some(InitialHeadingSource::DynamicConstraint))
    );
    let mut few = aligned(4, qualified);
    assert_eq!(few.try_initialize(numbers()), Ok(Some(InitialHeadingSource::Absent)));
    initializer.provide_heading(true).unwrap();
    assert_eq!(initializer.try_initialize(numbers()), Ok(Some(InitialHeadingSource::Supplied)));
}

#[test]
fn alignment_attempts_name_what_is_missing() {
    let mut initializer = aligned(3, config());
    assert_eq!(initializer.phase, InitializationPhase::CoarseAligning);
    assert_eq!(initializer.try_initialize(numbers()), Ok(None));
    let mut initializer = aligned(8, AlignmentConfig { gyrocompassing_qualified: true, ..config() });
    assert_eq!(initializer.phase, InitializationPhase::FineAligning);
    for (numbers, result) in [
        (AlignmentNumbers { variances_are_acceptable: false, ..numbers() }, Ok(None)),
        (
            AlignmentNumbers { gravity_is_usable: false, ..numbers() },
            Err(InitializationError::DegenerateAlignment),
        ),
        (
            AlignmentNumbers { gyrocompass: GyrocompassVerdict::Degenerate, ..numbers() },
            Err(InitializationError::DegenerateAlignment),
        ),
        (
            AlignmentNumbers { covariance_is_finite: false, ..numbers() },
            Err(InitializationError::DegenerateAlignment),
        ),
    ] {
        let mut copy = initializer;
        assert_eq!(copy.try_initialize(numbers), result);
        assert_eq!(copy, initializer);
    }
    initializer.latest_fix = None;
    assert_eq!(initializer.try_initialize(numbers()), Err(InitializationError::MissingGnss));
    assert_eq!(initializer.provide_heading(false), Err(InitializationError::NonFinite));
    assert_eq!(initializer.provide_dynamic_yaw(false, true), Err(InitializationError::NonFinite));
    assert_eq!(
        initializer.observe_gnss(at(0), 1.0, None, false),
        Err(InitializationError::NonFinite)
    );
}

#[test]
fn motion_discards_the_running_means() {
    let mut initializer = aligned(5, config());
    assert_eq!(initializer.sample_count, 5);
    initializer.observe_score(at(20), 1_000, 900.0);
    assert_eq!(initializer.settle(false, true), MomentsAction::Discard);
    assert_eq!((initializer.sample_count, initializer.phase), (0, InitializationPhase::Uninitialized));
}

#[test]
fn invalid_configurations_are_refused() {
    for config in [
        AlignmentConfig { minimum_window_samples: 0, ..config() },
        AlignmentConfig { minimum_window_samples: 513, ..config() },
        AlignmentConfig { minimum_coarse_samples: 0, ..config() },
        AlignmentConfig { minimum_gyrocompass_samples: 3, ..config() },
        AlignmentConfig { values_are_valid: false, ..config() },
    ] {
        assert_eq!(
            Initializer::<f32, f64>::new(config).err(),
            Some(InitializationError::InvalidConfiguration)
        );
    }
}

#[test]
fn an_unusable_reading_only_ages_the_fix() {
    let mut initializer: Initializer<f32, f64> = Initializer::new(config()).unwrap();
    initializer.observe_gnss(at(10), 1.0, Some(0.0), true).unwrap();
    initializer.observe_score(at(11), 5, 0.0);
    let before = initializer;
    assert_eq!(initializer.reject_reading(at(15), 5), Err(InitializationError::NonFinite));
    assert_eq!(initializer, before);
    assert_eq!(initializer.reject_reading(at(16), 5), Err(InitializationError::NonFinite));
    assert!(initializer.latest_fix.is_none());
    initializer.latest_fix = before.latest_fix;
    assert_eq!(initializer, before);
}

#[test]
fn evidence_ages_exactly() {
    assert!(evidence_is_fresh(at(10), at(5), 5));
    assert!(!evidence_is_fresh(at(11), at(5), 5));
    assert!(!evidence_is_fresh(at(4), at(5), 5));
    assert!(!evidence_is_fresh(at(i64::MAX), at(i64::MIN), u64::MAX));
}
