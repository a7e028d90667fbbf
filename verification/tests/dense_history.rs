use traj::dense_history::{DenseEndpoint, DenseHistory, DenseSegment};
use traj::error::{DenseHistoryError, ReanchorError};
use traj::payload::Payload;
use traj::rts_window::{RtsWindow, SmoothingWork, RTS_NODE_CAPACITY};
use traj::time::SessionTime;

#[derive(Clone, Copy, Debug, PartialEq)]
struct Plain;

impl Payload for Plain {
    const MAX_CONSIDER: usize = 8;
    type Vector = f32;
    type SampleCovariance = f32;
    type Mounting = u8;
    type GapDerivative = f32;
    type Estimate = (f32, f32);
    type EndpointCovariance = f32;
    type Fix = f32;
    type Score = u8;
    type Label = u8;
}

fn at(ns: i64) -> SessionTime {
    SessionTime::from_ns(ns)
}

fn endpoint(time_ns: i64, position_x: f32, velocity_x: f32) -> DenseEndpoint<Plain> {
    DenseEndpoint {
        time: at(time_ns),
        estimate: (position_x, velocity_x),
        specific_force_b: 0.0,
        covariance: 1.0,
    }
}

fn segment(
    id: u64,
    start: DenseEndpoint<Plain>,
    end: DenseEndpoint<Plain>,
) -> Result<DenseSegment<Plain>, DenseHistoryError> {
    DenseSegment::new_imu_conditioned(id, start, end, 0.0, false, false, true)
}

#[test]
fn shared_endpoint_is_owned_by_right_segment() {
    let left = segment(1, endpoint(0, 0.0, 0.0), endpoint(10, 1.0, 0.0)).unwrap();
    let mut right_start = endpoint(10, 2.0, 0.0);
    right_start.specific_force_b = 7.0;
    let right = segment(2, right_start, endpoint(20, 3.0, 0.0)).unwrap();
    let mut history = DenseHistory::<Plain, 2>::new();
    history.push(left).unwrap();
    history.push(right).unwrap();
    let at_boundary = history.locate(at(10)).unwrap();
    assert_eq!(at_boundary.elapsed_ns(at(10)), Ok(0));
    assert!((at_boundary.start.estimate.0 - 2.0).abs() < 1.0e-6);
    assert!((at_boundary.start.specific_force_b - 7.0).abs() < 1.0e-6);
    assert_eq!(history.locate(at(9)).unwrap().id, 1);
    assert_eq!(history.locate(at(20)).unwrap().id, 2);
    assert_eq!(history.locate(at(21)).err(), Some(DenseHistoryError::OutsideSpan));
    assert_eq!(history.locate(at(-1)).err(), Some(DenseHistoryError::OutsideSpan));
}

#[test]
fn full_history_never_silently_overwrites() {
    let one = segment(1, endpoint(0, 0.0, 0.0), endpoint(10, 0.0, 0.0)).unwrap();
    let two = segment(2, endpoint(10, 0.0, 0.0), endpoint(20, 0.0, 0.0)).unwrap();
    let mut history = DenseHistory::<Plain, 1>::new();
    history.push(one).unwrap();
    assert_eq!(history.push(two), Err(DenseHistoryError::Capacity));
    assert_eq!(history.latest().unwrap().id, 1);
}

#[test]
fn discard_releases_only_consumed_segments() {
    let one = segment(1, endpoint(0, 0.0, 0.0), endpoint(10, 0.0, 0.0)).unwrap();
    let two = segment(2, endpoint(10, 0.0, 0.0), endpoint(20, 0.0, 0.0)).unwrap();
    let mut history = DenseHistory::<Plain, 2>::new();
    history.push(one).unwrap();
    history.push(two).unwrap();
    assert_eq!(history.discard_ending_at_or_before(at(10)), 1);
    assert_eq!(history.oldest().unwrap().id, 2);
}

#[test]
fn segments_must_move_forward_and_join() {
    assert_eq!(
        segment(1, endpoint(10, 0.0, 0.0), endpoint(10, 0.0, 0.0)).err(),
        Some(DenseHistoryError::InvalidSegment)
    );
    assert_eq!(
        segment(1, endpoint(i64::MIN, 0.0, 0.0), endpoint(i64::MAX, 0.0, 0.0)).err(),
        Some(DenseHistoryError::TimeOverflow)
    );
    assert_eq!(
        DenseSegment::<Plain>::new_imu_conditioned(
            1,
            endpoint(0, 0.0, 0.0),
            endpoint(10, 0.0, 0.0),
            0.0,
            false,
            false,
            false
        )
        .err(),
        Some(DenseHistoryError::InvalidSegment)
    );
    let mut history = DenseHistory::<Plain, 4>::new();
    history.push(segment(5, endpoint(0, 0.0, 0.0), endpoint(10, 0.0, 0.0)).unwrap()).unwrap();
    let hole = segment(6, endpoint(11, 0.0, 0.0), endpoint(20, 0.0, 0.0)).unwrap();
    assert_eq!(history.push(hole), Err(DenseHistoryError::Discontinuous));
    let repeated = segment(5, endpoint(10, 0.0, 0.0), endpoint(20, 0.0, 0.0)).unwrap();
    assert_eq!(history.push(repeated), Err(DenseHistoryError::Discontinuous));
    assert_eq!((history.len(), history.available()), (1, 3));
    assert_eq!(history.pop_oldest().unwrap().id, 5);
    assert_eq!(history.pop_oldest(), None);
}

#[test]
fn a_history_changes_its_frame_whole() {
    let mut history = DenseHistory::<Plain, 4>::new();
    history.push(segment(1, endpoint(0, 0.0, 0.0), endpoint(10, 1.0, 0.0)).unwrap()).unwrap();
    history.push(segment(2, endpoint(10, 1.0, 0.0), endpoint(20, 2.0, 0.0)).unwrap()).unwrap();
    let shift = |(x, v): (f32, f32), covariance: f32| Ok(((x + 5.0, v), covariance));
    let moved = history.mapped_reanchor(&shift).unwrap();
    assert_eq!(moved.locate(at(10)).unwrap().start.estimate, (6.0, 0.0));
    assert_eq!(moved.latest().unwrap().end.estimate, (7.0, 0.0));
    let refuse = |(x, v): (f32, f32), covariance: f32| {
        if x > 1.5 {
            Err(ReanchorError::NonFinite)
        } else {
            Ok(((x, v), covariance))
        }
    };
    assert_eq!(
        history.mapped_reanchor(&refuse).err(),
        Some(DenseHistoryError::Reanchor(ReanchorError::NonFinite))
    );
}

fn window_of(nodes: i64) -> RtsWindow<Plain> {
    let mut window = RtsWindow::new();
    window.seed(endpoint(0, 0.0, 0.0), None);
    for index in 1..nodes {
        window.push_prediction(endpoint(index * 10, index as f32, 0.0), None);
        let start = endpoint((index - 1) * 10, index as f32 - 1.0, 0.0);
        let end = endpoint(index * 10, index as f32, 0.0);
        window.finish_node(segment(index as u64, start, end).unwrap(), None);
    }
    window
}

#[test]
fn a_window_publishes_from_a_frozen_start() {
    let mut window = window_of(3);
    assert!(window.has_tail());
    assert_eq!(window.len(), 3);
    assert!(!window.ready(at(20), 11, false));
    assert!(window.ready(at(20), 10, false));
    assert!(window.ready(at(20), 1_000, true));
    let first = window.publication().unwrap();
    assert_eq!(window.publish_one(true).unwrap().0, first);
    // New evidence may improve what is left, but never the published end.
    window.observation_accepted();
    let step = window.begin_step();
    assert!(matches!(step, SmoothingWork::Step { terminal_slot: Some(_), .. }));
    assert!(window.is_busy());
    assert!(window.commit_step((100.0, 0.0), 0.5));
    assert!(!window.is_busy());
    let second = window.publication().unwrap();
    assert_eq!(second.start, first.end);
    assert_eq!(window.publish_one(false).err(), Some(DenseHistoryError::InvalidSegment));
    window.publish_one(true).unwrap();
    assert!(!window.has_tail());
    assert!(!window.is_empty());
    assert_eq!(window.publication(), None);
}

#[test]
fn a_backward_pass_visits_every_node_once() {
    let mut window = window_of(5);
    window.observation_accepted();
    let mut visited = Vec::new();
    loop {
        match window.begin_step() {
            SmoothingWork::Complete => break,
            SmoothingWork::Step { slot, next_slot, terminal_slot } => {
                assert_eq!(terminal_slot.is_some(), visited.is_empty());
                visited.push((slot, next_slot));
                if window.commit_step((slot as f32 + 0.5, 0.0), 0.25) {
                    break;
                }
            }
        }
    }
    assert_eq!(visited, vec![(3, 4), (2, 3), (1, 2), (0, 1)]);
    assert_eq!(window.begin_step(), SmoothingWork::Complete);
    assert_eq!(window.publication().unwrap().start.estimate, (0.5, 0.0));
    assert_eq!(window.publication().unwrap().end.estimate, (1.5, 0.0));
}

#[test]
fn a_running_pass_refuses_another_frame() {
    let mut window = window_of(3);
    let shift = |(x, v): (f32, f32), covariance: f32| Ok(((x + 5.0, v), covariance));
    assert_eq!(window.mapped_reanchor(&shift).unwrap().publication().unwrap().end.estimate, (6.0, 0.0));
    window.observation_accepted();
    window.begin_step();
    assert_eq!(window.mapped_reanchor(&shift).err(), Some(ReanchorError::NonFinite));
    window.clear();
    assert!(window.is_empty());
    let full = window_of(RTS_NODE_CAPACITY as i64);
    assert!(full.is_full());
    assert_eq!(full.newest_slot(), Some(RTS_NODE_CAPACITY - 1));
}
