use traj::order::OrderKey;
use traj::queue::{QueueError, Scheduled};
use traj::ring::FixedRing;
use traj::scheduler::{
    EnqueueDisposition, FrontierScheduler, MetricWatermark, SchedulerError, WorkQuota,
};
use traj::time::SessionTime;

fn entry(time: i64, sequence: u64, value: u8) -> Scheduled<u8> {
    Scheduled {
        key: OrderKey {
            time: SessionTime::from_ns(time),
            class: 3,
            source: 1,
            sequence,
        },
        value,
    }
}

#[test]
fn arbitrary_arrival_order_is_drained_chronologically() {
    let mut scheduler = FrontierScheduler::<u8, 8>::new(100).unwrap();
    scheduler
        .observe_trusted_imu(SessionTime::from_ns(1_000))
        .unwrap();
    assert_eq!(
        scheduler.enqueue(entry(850, 3, 3)),
        EnqueueDisposition::Queued
    );
    assert_eq!(
        scheduler.enqueue(entry(700, 1, 1)),
        EnqueueDisposition::Queued
    );
    assert_eq!(
        scheduler.enqueue(entry(800, 2, 2)),
        EnqueueDisposition::Queued
    );
    assert_eq!(scheduler.pop_next_measurement().unwrap().unwrap().value, 1);
    assert_eq!(scheduler.pop_next_measurement().unwrap().unwrap().value, 2);
    assert_eq!(scheduler.pop_next_measurement().unwrap().unwrap().value, 3);
}

#[test]
fn observation_at_committed_frontier_is_too_late() {
    let mut scheduler = FrontierScheduler::<u8, 4>::new(100).unwrap();
    scheduler
        .observe_trusted_imu(SessionTime::from_ns(1_000))
        .unwrap();
    scheduler
        .commit_frontier(SessionTime::from_ns(900))
        .unwrap();
    assert_eq!(
        scheduler.enqueue(entry(900, 1, 1)),
        EnqueueDisposition::TooLateForLive
    );
    assert_eq!(
        scheduler.enqueue(entry(901, 2, 2)),
        EnqueueDisposition::Queued
    );
}

#[test]
fn finish_advances_target_to_last_trusted_imu_without_extrapolation() {
    let mut scheduler = FrontierScheduler::<u8, 4>::new(100).unwrap();
    scheduler
        .observe_trusted_imu(SessionTime::from_ns(1_000))
        .unwrap();
    assert_eq!(scheduler.target().unwrap(), SessionTime::from_ns(900));
    assert_eq!(scheduler.finish().unwrap(), SessionTime::from_ns(1_000));
    assert_eq!(scheduler.target().unwrap(), SessionTime::from_ns(1_000));
}

#[test]
fn capacity_overflow_is_explicit_and_does_not_overwrite() {
    let mut scheduler = FrontierScheduler::<u8, 2>::new(0).unwrap();
    scheduler
        .observe_trusted_imu(SessionTime::from_ns(10))
        .unwrap();
    assert_eq!(
        scheduler.enqueue(entry(1, 1, 1)),
        EnqueueDisposition::Queued
    );
    assert_eq!(
        scheduler.enqueue(entry(2, 2, 2)),
        EnqueueDisposition::Queued
    );
    assert_eq!(
        scheduler.enqueue(entry(3, 3, 3)),
        EnqueueDisposition::CapacityExceeded
    );
    assert_eq!(scheduler.queued_measurements(), 2);
}

#[test]
fn pair_capacity_failure_is_atomic_without_copying_the_queue() {
    let mut scheduler = FrontierScheduler::<u8, 2>::new(0).unwrap();
    scheduler
        .observe_trusted_imu(SessionTime::from_ns(10))
        .unwrap();
    scheduler.enqueue(entry(1, 1, 1));
    assert_eq!(
        scheduler.enqueue_pair_atomic(&[Some(entry(2, 2, 2)), Some(entry(3, 3, 3))]),
        Err(EnqueueDisposition::CapacityExceeded)
    );
    assert_eq!(scheduler.queued_measurements(), 1);
    assert_eq!(scheduler.pop_next_measurement().unwrap().unwrap().value, 1);
}

#[test]
fn pair_duplicate_failure_is_atomic_for_existing_and_intra_pair_keys() {
    let mut scheduler = FrontierScheduler::<u8, 4>::new(0).unwrap();
    scheduler
        .observe_trusted_imu(SessionTime::from_ns(10))
        .unwrap();
    let duplicate = entry(2, 2, 2);
    assert_eq!(
        scheduler.enqueue_pair_atomic(&[Some(duplicate), Some(duplicate)]),
        Err(EnqueueDisposition::Duplicate)
    );
    assert_eq!(scheduler.queued_measurements(), 0);

    scheduler.enqueue(entry(1, 1, 1));
    assert_eq!(
        scheduler.enqueue_pair_atomic(&[Some(entry(3, 3, 3)), Some(entry(1, 1, 9))]),
        Err(EnqueueDisposition::Duplicate)
    );
    assert_eq!(scheduler.queued_measurements(), 1);
    assert_eq!(scheduler.pop_next_measurement().unwrap().unwrap().value, 1);
}

#[test]
fn work_quota_never_underflows() {
    let mut quota = WorkQuota::new(5);
    assert!(quota.take(3));
    assert!(!quota.take(3));
    assert_eq!(quota.remaining(), 2);
}

#[test]
fn metric_watermark_is_distinct_from_navigation_frontier() {
    let watermark = MetricWatermark {
        consumed_through: SessionTime::from_ns(5_000),
        maximum_future_support_ns: 2_000,
    };
    assert_eq!(
        watermark.finalized_through().unwrap(),
        SessionTime::from_ns(3_000)
    );
}

#[test]
fn fixed_ring_wraps_without_reordering_or_overwrite() {
    let mut ring = FixedRing::<u8, 3>::new();
    ring.push_back(1).unwrap();
    ring.push_back(2).unwrap();
    assert_eq!(ring.pop_front(), Some(1));
    ring.push_back(3).unwrap();
    ring.push_back(4).unwrap();
    assert_eq!(ring.push_back(5), Err(QueueError::Capacity));
    assert_eq!(ring.pop_front(), Some(2));
    assert_eq!(ring.pop_front(), Some(3));
    assert_eq!(ring.pop_front(), Some(4));
}

fn at(ns: i64) -> SessionTime {
    SessionTime::from_ns(ns)
}

#[test]
fn equal_times_are_ordered_by_class_source_and_sequence() {
    let mut scheduler = FrontierScheduler::<u8, 8>::new(0).unwrap();
    scheduler.observe_trusted_imu(at(10)).unwrap();
    let key = |class: u8, source: u32, sequence: u64| OrderKey { time: at(5), class, source, sequence };
    for (key, value) in [
        (key(2, 0, 0), 4),
        (key(1, 2, 0), 3),
        (key(1, 1, 9), 2),
        (key(1, 1, 3), 1),
    ] {
        assert_eq!(scheduler.enqueue(Scheduled { key, value }), EnqueueDisposition::Queued);
    }
    for expected in 1..=4 {
        assert_eq!(scheduler.pop_next_measurement().unwrap().unwrap().value, expected);
    }
    assert!(scheduler.pop_next_measurement().unwrap().is_none());
}

#[test]
fn observations_beyond_the_target_wait() {
    let mut scheduler = FrontierScheduler::<u8, 4>::new(100).unwrap();
    scheduler.enqueue(entry(950, 1, 7));
    assert!(matches!(scheduler.target(), Err(SchedulerError::NoTrustedImu)));
    assert!(matches!(scheduler.next_measurement(), Err(SchedulerError::NoTrustedImu)));
    scheduler.observe_trusted_imu(at(1_000)).unwrap();
    assert!(scheduler.next_measurement().unwrap().is_none());
    assert!(scheduler.pop_next_measurement().unwrap().is_none());
    scheduler.observe_trusted_imu(at(1_050)).unwrap();
    assert_eq!(scheduler.next_measurement().unwrap().unwrap().value, 7);
    assert_eq!(scheduler.queued_measurements(), 1);
}

#[test]
fn frontier_moves_forward_within_the_target() {
    let mut scheduler = FrontierScheduler::<u8, 4>::new(100).unwrap();
    assert_eq!(scheduler.commit_frontier(at(0)), Err(SchedulerError::NoTrustedImu));
    scheduler.observe_trusted_imu(at(1_000)).unwrap();
    assert_eq!(scheduler.commit_frontier(at(901)), Err(SchedulerError::FrontierBeyondTarget));
    assert_eq!(scheduler.processed_frontier(), None);
    scheduler.commit_frontier(at(500)).unwrap();
    scheduler.commit_frontier(at(500)).unwrap();
    assert_eq!(scheduler.commit_frontier(at(499)), Err(SchedulerError::FrontierRegression));
    assert_eq!(scheduler.processed_frontier(), Some(at(500)));
}

#[test]
fn trusted_instants_never_regress() {
    let mut scheduler = FrontierScheduler::<u8, 4>::new(0).unwrap();
    scheduler.observe_trusted_imu(at(10)).unwrap();
    assert_eq!(scheduler.observe_trusted_imu(at(9)), Err(SchedulerError::ImuTimeNotIncreasing));
    assert_eq!(scheduler.latest_trusted_imu(), Some(at(10)));
}

#[test]
fn a_target_that_does_not_fit_is_an_error() {
    let mut scheduler = FrontierScheduler::<u8, 4>::new(100).unwrap();
    scheduler.observe_trusted_imu(at(i64::MIN + 99)).unwrap();
    assert_eq!(scheduler.target(), Err(SchedulerError::TimeOverflow));
    assert!(matches!(FrontierScheduler::<u8, 4>::new(-1), Err(SchedulerError::InvalidFusionDelay)));
}

#[test]
fn finishing_twice_is_refused_and_closes_the_queue() {
    let mut scheduler = FrontierScheduler::<u8, 4>::new(100).unwrap();
    scheduler.observe_trusted_imu(at(1_000)).unwrap();
    scheduler.finish().unwrap();
    assert_eq!(scheduler.finish(), Err(SchedulerError::AlreadyFinishing));
    assert!(scheduler.is_finishing());
}

#[test]
fn a_pair_is_queued_whole_or_late_parts_are_dropped() {
    let mut scheduler = FrontierScheduler::<u8, 4>::new(0).unwrap();
    scheduler.observe_trusted_imu(at(10)).unwrap();
    scheduler.commit_frontier(at(5)).unwrap();
    let result = scheduler
        .enqueue_pair_atomic(&[Some(entry(5, 1, 1)), Some(entry(6, 2, 2))])
        .unwrap();
    assert_eq!(
        result,
        [Some(EnqueueDisposition::TooLateForLive), Some(EnqueueDisposition::Queued)]
    );
    assert_eq!(scheduler.enqueue_pair_atomic(&[None, None]), Ok([None, None]));
    assert_eq!(scheduler.queued_measurements(), 1);
}

#[test]
fn queued_values_are_visited_and_replaced_in_order() {
    let mut scheduler = FrontierScheduler::<u8, 4>::new(0).unwrap();
    scheduler.observe_trusted_imu(at(10)).unwrap();
    scheduler.enqueue(entry(3, 3, 30));
    scheduler.enqueue(entry(1, 1, 10));
    assert_eq!(
        scheduler.try_for_each_measurement(|entry| if entry.value > 20 { Err(entry.value) } else { Ok(()) }),
        Err(30)
    );
    scheduler.for_each_measurement_mut(|value| value + 1);
    assert_eq!(scheduler.pop_next_measurement().unwrap().unwrap().value, 11);
    assert_eq!(scheduler.pop_next_measurement().unwrap().unwrap().value, 31);
}

#[test]
fn a_watermark_that_does_not_fit_is_an_error() {
    let watermark = MetricWatermark { consumed_through: at(i64::MIN), maximum_future_support_ns: 1 };
    assert_eq!(watermark.finalized_through(), Err(SchedulerError::TimeOverflow));
}

#[test]
fn an_empty_ring_and_a_ring_without_room_answer_plainly() {
    let mut ring = FixedRing::<u8, 2>::new();
    assert_eq!(ring.pop_front(), None);
    assert_eq!(ring.front(), None);
    assert_eq!(ring.available(), 2);
    ring.push_back(8).unwrap();
    ring.push_back(9).unwrap();
    assert_eq!((ring.len(), ring.available()), (2, 0));
    ring.set(1, 7);
    assert_eq!(ring.get(1), Some(&7));
    assert_eq!(ring.get(2), None);
    let mut none = FixedRing::<u8, 0>::new();
    assert_eq!(none.push_back(1), Err(QueueError::Capacity));
}
