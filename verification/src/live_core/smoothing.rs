//! Taking over the results of work on the smoothing window.
use vstd::prelude::*;

use crate::capacity::DENSE_HISTORY_CAPACITY;
use crate::dense_history::DenseSegment;
use crate::error::{LiveCoreError, SmoothingError};
use crate::imu::CorrectedImuSample;
use crate::imu::comparable;
use crate::live_core::finalization::{is_published, is_unpublished, publication_verdict};
use crate::live_core::frontier::{publication_ok, seed_ok};
use crate::live_core::propagation::propagation_counted;
use crate::live_core::report::{saturating_count, DrainReport};
use crate::live_core::report::{counted, DrainCounters};
use crate::live_core::state::{LiveCore, LiveCoreHistory, LiveCoreState, SegmentQuality};
use crate::live_core::state::evidence;
use crate::live_core::work::{EpochKinematics, FilterValues, Work};
use crate::payload::Payload;
use crate::rts_window::RtsNode;
use crate::rts_window::RtsWindowModel;

verus! {

/// Whether `sample` is another measurement than the active one.
pub open spec fn replaces_sample<P: Payload>(
    history: LiveCoreHistory<P>,
    sample: CorrectedImuSample<P>,
) -> bool {
    !(history.active_imu_sample is Some && sample.shares_latent(history.active_imu_sample->0))
}

/// The history once the right-owned sample of an epoch is the active one, even
/// though no observation arrived there.
pub open spec fn aligned<P: Payload>(
    history: LiveCoreHistory<P>,
    sample: CorrectedImuSample<P>,
) -> LiveCoreHistory<P> {
    LiveCoreHistory {
        active_imu_sample: if replaces_sample(history, sample) {
            Some(sample)
        } else {
            history.active_imu_sample
        },
        ..history
    }
}

/// Whether `after` is `history` with a window that begins at the corrected
/// endpoint.
pub open spec fn is_seeded<P: Payload>(
    state: LiveCoreState<P>,
    history: LiveCoreHistory<P>,
    sample: CorrectedImuSample<P>,
    after: LiveCoreHistory<P>,
) -> bool {
    &&& after.smoothing@ == (RtsWindowModel {
        nodes: seq![
            RtsNode {
                time: state.corrected_endpoint.time,
                incoming: None,
                endpoint: state.corrected_endpoint,
                quality: history.endpoint_quality,
            },
        ],
        ..history.smoothing@
    })
    &&& history.smoothing.keeps_slots(after.smoothing)
    &&& after == (LiveCoreHistory { smoothing: after.smoothing, ..aligned(history, sample) })
}

impl<P: Payload> LiveCoreHistory<P> {
    /// Makes `sample` the active one unless it already is. Returns whether it
    /// was replaced.
    fn align_sample(&mut self, sample: CorrectedImuSample<P>) -> (changed: bool)
        requires
            comparable::<P>(),
        ensures
            changed == replaces_sample(*old(self), sample),
            *final(self) == aligned(*old(self), sample),
    {
        let changed = match self.active_imu_sample {
            Some(active) => !sample.same_latent_as(active),
            None => true,
        };
        if changed {
            self.active_imu_sample = Some(sample);
        }
        changed
    }
}

/// Whether `answer` and `after` are what became of a seeding under way.
pub open spec fn is_seed_completed<P: Payload>(
    before: LiveCore<P>,
    kinematics_error: Option<LiveCoreError>,
    answer: Result<bool, LiveCoreError>,
    after: LiveCore<P>,
) -> bool {
    &&& after.work is Idle
    &&& after.state == before.state
    &&& match (before.work, kinematics_error) {
        (Work::Seed(kinematics), None) => {
            &&& answer == Ok::<bool, LiveCoreError>(
                replaces_sample(before.history, kinematics.sample),
            )
            &&& is_seeded(before.state, before.history, kinematics.sample, after.history)
        },
        (Work::Seed(_), Some(error)) => {
            &&& answer == Err::<bool, LiveCoreError>(error)
            &&& after.history == before.history
        },
        _ => {
            &&& answer == Err::<bool, LiveCoreError>(LiveCoreError::InternalInvariant)
            &&& after.history == before.history
        },
    }
}

/// Whether `answer`, `after_report` and `after` are what became of a capture under
/// way.
pub open spec fn is_capture_completed<P: Payload>(
    before: LiveCore<P>,
    kinematics_error: Option<LiveCoreError>,
    report: DrainReport<P>,
    answer: Result<bool, LiveCoreError>,
    after_report: DrainReport<P>,
    after: LiveCore<P>,
) -> bool {
    &&& after.work is Idle
    &&& after.state == before.state
    &&& answer is Err ==> after.history == before.history && after_report == report
    &&& match (before.work, kinematics_error) {
        (Work::Capture(work), None) => {
            &&& answer == Ok::<bool, LiveCoreError>(
                replaces_sample(before.history, work.kinematics.sample),
            )
            &&& after.history == aligned(before.history, work.kinematics.sample)
            &&& after_report == (DrainReport {
                counters: propagation_counted(report.counters, work.slices),
                ..report
            })
        },
        (Work::Capture(_), Some(error)) => answer == Err::<bool, LiveCoreError>(error),
        _ => answer == Err::<bool, LiveCoreError>(LiveCoreError::InternalInvariant),
    }
}

impl<P: Payload> LiveCore<P> {
    /// Begins the smoothing window once its first kinematics are checked.
    /// Returns whether the active sample was replaced.
    pub fn complete_seed(&mut self, kinematics_error: Option<LiveCoreError>) -> (r: Result<
        bool,
        LiveCoreError,
    >)
        requires
            old(self).wf(),
        ensures
            final(self).wf(),
            is_seed_completed(*old(self), kinematics_error, r, *final(self)),
    {
        let kinematics = match self.take_work() {
            Work::Seed(kinematics) => kinematics,
            _ => {
                return Err(LiveCoreError::InternalInvariant);
            },
        };
        if let Some(error) = kinematics_error {
            return Err(error);
        }
        let ghost before = *self;
        proof {
            old(self).wf_is_settled();
        }
        let changed = self.history.align_sample(kinematics.sample);
        self.history.smoothing.seed(self.state.corrected_endpoint, self.history.endpoint_quality);
        proof {
            seeding_keeps_settled(before, kinematics, *self);
            self.idle_is_wf();
        }
        Ok(changed)
    }

    /// Completes a propagation in the smoothing window. Returns whether the
    /// active sample was replaced at the new epoch.
    pub fn complete_capture(
        &mut self,
        kinematics_error: Option<LiveCoreError>,
        report: &mut DrainReport<P>,
    ) -> (r: Result<bool, LiveCoreError>)
        requires
            old(self).wf(),
        ensures
            final(self).wf(),
            is_capture_completed(
                *old(self),
                kinematics_error,
                *old(report),
                r,
                *final(report),
                *final(self),
            ),
    {
        let work = match self.take_work() {
            Work::Capture(work) => work,
            _ => {
                return Err(LiveCoreError::InternalInvariant);
            },
        };
        if let Some(error) = kinematics_error {
            return Err(error);
        }
        let ghost before = *self;
        proof {
            old(self).wf_is_settled();
        }
        let changed = self.history.align_sample(work.kinematics.sample);
        report.counters.note_propagation(work.slices);
        proof {
            assert(evidence(self.state, self.history) == evidence(before.state, before.history));
            self.idle_is_wf();
        }
        Ok(changed)
    }
}

proof fn seeding_keeps_settled<P: Payload>(
    before: LiveCore<P>,
    kinematics: EpochKinematics<P>,
    after: LiveCore<P>,
)
    requires
        before.settled(),
        seed_ok(before.state, before.history, kinematics),
        after.state == before.state,
        after.history.smoothing.wf(),
        is_seeded(before.state, before.history, kinematics.sample, after.history),
    ensures
        after.settled(),
{
    before.history.smoothing.wf_facts();
    assert(evidence(after.state, after.history) == evidence(before.state, before.history));
}

/// The window after one node was smoothed.
pub open spec fn smoothed<P: Payload>(
    window: RtsWindowModel<P>,
    values: FilterValues<P>,
) -> RtsWindowModel<P> {
    let offset = window.cursor->0;
    let node = window.nodes[offset];
    RtsWindowModel {
        nodes: window.nodes.update(
            offset,
            RtsNode {
                endpoint: crate::dense_history::DenseEndpoint {
                    estimate: values.estimate,
                    covariance: values.covariance,
                    ..node.endpoint
                },
                ..node
            },
        ),
        dirty: offset != 0,
        cursor: if offset == 0 {
            None
        } else {
            Some(offset - 1)
        },
        ..window
    }
}

/// Why the first segment of a window cannot leave it, if it cannot.
pub open spec fn release_verdict<P: Payload>(
    window: RtsWindowModel<P>,
    segment_is_valid: bool,
) -> Result<(), LiveCoreError> {
    let segment = window.publication();
    match DenseSegment::<P>::segment_verdict(
        segment.start.time,
        segment.end.time,
        segment_is_valid,
    ) {
        Err(error) => Err(LiveCoreError::DenseHistory(error)),
        Ok(_) => Ok(()),
    }
}

/// Whether `answer` and `after` are what became of a backward step under way.
pub open spec fn is_smoothing_completed<P: Payload>(
    before: LiveCore<P>,
    outcome: Result<FilterValues<P>, SmoothingError>,
    answer: Result<Option<DenseSegment<P>>, LiveCoreError>,
    after: LiveCore<P>,
) -> bool {
    &&& after.state == before.state
    &&& after.history == (LiveCoreHistory { smoothing: after.history.smoothing, ..before.history })
    &&& match (before.work, outcome) {
        (Work::Smooth, Ok(values)) => {
            let window = before.history.smoothing@;
            &&& after.history.smoothing@ == smoothed(window, values)
            &&& before.history.smoothing.keeps_slots(after.history.smoothing)
            &&& if window.cursor->0 == 0 {
                &&& answer == Ok::<Option<DenseSegment<P>>, LiveCoreError>(
                    Some(after.history.smoothing@.publication()),
                )
                &&& after.work == Work::<P>::Publish
            } else {
                &&& answer == Ok::<Option<DenseSegment<P>>, LiveCoreError>(None)
                &&& after.work == Work::<P>::Idle
            }
        },
        (Work::Smooth, Err(error)) => {
            &&& answer == Err::<Option<DenseSegment<P>>, LiveCoreError>(
                LiveCoreError::Smoothing(error),
            )
            &&& after == before.with_work(Work::Idle)
        },
        _ => {
            &&& answer == Err::<Option<DenseSegment<P>>, LiveCoreError>(
                LiveCoreError::InternalInvariant,
            )
            &&& after == before.with_work(Work::Idle)
        },
    }
}

/// Whether `answer`, `after_report` and `after` are what became of a publication
/// under way.
pub open spec fn is_publication_completed<P: Payload>(
    before: LiveCore<P>,
    segment_is_valid: bool,
    report: DrainReport<P>,
    answer: Result<(), LiveCoreError>,
    after_report: DrainReport<P>,
    after: LiveCore<P>,
) -> bool {
    &&& after.work is Idle
    &&& after.state == before.state
    &&& answer is Err ==> after_report == report
    &&& if before.work is Publish {
        let window = before.history.smoothing@;
        let segment = window.publication();
        let released = LiveCoreHistory { smoothing: after.history.smoothing, ..before.history };
        if release_verdict(window, segment_is_valid) is Err {
            &&& answer == release_verdict(window, segment_is_valid)
            &&& after.history == before.history
        } else {
            &&& after.history.smoothing@ == window.published()
            &&& before.history.smoothing.releases_first_slot(after.history.smoothing)
            &&& answer == publication_verdict(before.history, segment)
            &&& answer is Err ==> is_unpublished(released, segment, after.history)
            &&& answer is Ok ==> is_published(
                released,
                segment,
                SegmentQuality { start: window.nodes[0].quality, end: window.nodes[1].quality },
                after.history,
            )
            &&& answer is Ok ==> after_report == (DrainReport {
                counters: DrainCounters {
                    finalized_segments: counted(report.counters.finalized_segments, 1),
                    ..report.counters
                },
                ..report
            })
        }
    } else {
        &&& answer == Err::<(), LiveCoreError>(LiveCoreError::InternalInvariant)
        &&& after.history == before.history
    }
}

impl<P: Payload> LiveCore<P> {
    /// Completes one backward step. Where the pass is complete, the segment to
    /// publish comes back to be checked. A failed step may be tried again.
    pub fn complete_smoothing(&mut self, outcome: Result<FilterValues<P>, SmoothingError>) -> (r:
        Result<Option<DenseSegment<P>>, LiveCoreError>)
        requires
            old(self).wf(),
        ensures
            final(self).wf(),
            is_smoothing_completed(*old(self), outcome, r, *final(self)),
    {
        match self.take_work() {
            Work::Smooth => {},
            _ => {
                return Err(LiveCoreError::InternalInvariant);
            },
        }
        let values = match outcome {
            Err(error) => {
                return Err(LiveCoreError::Smoothing(error));
            },
            Ok(values) => values,
        };
        proof {
            old(self).wf_is_settled();
            self.history.smoothing.wf_facts();
        }
        let done = self.history.smoothing.commit_step(values.estimate, values.covariance);
        proof {
            smoothing_keeps_settled(*old(self), values, *self);
        }
        if !done {
            proof {
                self.idle_is_wf();
            }
            return Ok(None);
        }
        match self.history.smoothing.publication() {
            None => Err(LiveCoreError::InternalInvariant),
            Some(segment) => {
                self.work = Work::Publish;
                proof {
                    self.work_is_wf();
                }
                Ok(Some(segment))
            },
        }
    }

    /// Publishes the first segment of the smoothing window.
    pub fn complete_publication(
        &mut self,
        segment_is_valid: bool,
        report: &mut DrainReport<P>,
    ) -> (r: Result<(), LiveCoreError>)
        requires
            old(self).wf(),
        ensures
            final(self).wf(),
            is_publication_completed(
                *old(self),
                segment_is_valid,
                *old(report),
                r,
                *final(report),
                *final(self),
            ),
    {
        match self.take_work() {
            Work::Publish => {},
            _ => {
                return Err(LiveCoreError::InternalInvariant);
            },
        }
        proof {
            old(self).wf_is_settled();
            self.history.smoothing.wf_facts();
        }
        let (segment, start_quality, end_quality) = match self.history.smoothing.publish_one(
            segment_is_valid,
        ) {
            Err(error) => {
                return Err(LiveCoreError::DenseHistory(error));
            },
            Ok(published) => published,
        };
        let result = self.history.publish_segment(segment, start_quality, end_quality);
        proof {
            publishing_keeps_settled(*old(self), *self);
            self.idle_is_wf();
        }
        match result {
            Err(error) => Err(error),
            Ok(_) => {
                report.counters.finalized_segments =
                saturating_count(report.counters.finalized_segments, 1);
                Ok(())
            },
        }
    }
}

proof fn smoothing_keeps_settled<P: Payload>(
    before: LiveCore<P>,
    values: FilterValues<P>,
    after: LiveCore<P>,
)
    requires
        before.settled(),
        before.history.smoothing@.cursor is Some,
        after.state == before.state,
        after.history.smoothing.wf(),
        after.history.smoothing@ == smoothed(before.history.smoothing@, values),
        after.history == (LiveCoreHistory { smoothing: after.history.smoothing, ..before.history }),
    ensures
        after.settled(),
{
    before.history.smoothing.wf_facts();
    assert(evidence(after.state, after.history) == evidence(before.state, before.history));
    let old_nodes = before.history.smoothing@.nodes;
    let new_nodes = after.history.smoothing@.nodes;
    assert forall|i: int| 0 <= i < old_nodes.len() implies (#[trigger] new_nodes[i]).time
        == old_nodes[i].time && new_nodes[i].incoming == old_nodes[i].incoming by {}
}

/// Publishing keeps the core settled, whether or not the segment and its
/// quality found room.
proof fn publishing_keeps_settled<P: Payload>(before: LiveCore<P>, after: LiveCore<P>)
    requires
        before.settled(),
        publication_ok(before.state, before.history),
        after.state == before.state,
        after.history.wf(),
        after.history.smoothing@ == before.history.smoothing@.published(),
        ({
            let segment = before.history.smoothing@.publication();
            let released = LiveCoreHistory {
                smoothing: after.history.smoothing,
                ..before.history
            };
            if publication_verdict(before.history, segment) is Err {
                is_unpublished(released, segment, after.history)
            } else {
                exists|quality: SegmentQuality<P>|
                    is_published(released, segment, quality, after.history)
            }
        }),
    ensures
        after.settled(),
{
    let window = before.history.smoothing@;
    let segment = window.publication();
    before.history.smoothing.wf_facts();
    before.history.corrected_quality.wf_facts();
    crate::rts_window::publications_are_contiguous(window);
    assert(evidence(after.state, after.history) == evidence(before.state, before.history));
    let old_nodes = window.nodes;
    let new_nodes = after.history.smoothing@.nodes;
    assert forall|i: int| 0 <= i < new_nodes.len() implies #[trigger] new_nodes[i] == old_nodes[i
        + 1] by {}
    assert(new_nodes.last() == old_nodes.last());
    if before.history.corrected_quality@.len() < DENSE_HISTORY_CAPACITY {
        assert(publication_verdict(before.history, segment) is Ok);
        assert(after.history.corrected@.last() == segment);
        assert(old_nodes[1].incoming is Some);
        assert forall|i: int| 0 < i < new_nodes.len() && (
        #[trigger] new_nodes[i]).incoming is Some implies segment.id < new_nodes[i].incoming->0.id
            && new_nodes[i].incoming->0.id < after.state.next_corrected_segment_id by {
            assert(new_nodes[i] == old_nodes[i + 1]);
            assert(old_nodes[1].incoming->0.id < old_nodes[i + 1].incoming->0.id);
        }
        assert forall|i: int, j: int|
            #![trigger new_nodes[i], new_nodes[j]]
            0 < i < j < new_nodes.len() && new_nodes[i].incoming is Some
                && new_nodes[j].incoming is Some implies new_nodes[i].incoming->0.id
            < new_nodes[j].incoming->0.id by {
            assert(old_nodes[i + 1].incoming->0.id < old_nodes[j + 1].incoming->0.id);
        }
    }
}

/// When the pass is complete, the segment that comes back to be checked is the
/// filtered one that ends at the first open node, with smoothed ends: its identity,
/// its attitude increment and its degradation flags are those of the filter.
pub proof fn smoothed_segment_keeps_its_flags<P: Payload>(
    core: &mut LiveCore<P>,
    values: FilterValues<P>,
    segment: DenseSegment<P>,
)
    requires
        call_ensures(
            LiveCore::<P>::complete_smoothing,
            (core, Ok::<FilterValues<P>, SmoothingError>(values)),
            Ok::<Option<DenseSegment<P>>, LiveCoreError>(Some(segment)),
        ),
        old(core).history.smoothing.wf(),
        old(core).history.smoothing@.cursor is Some,
    ensures
        ({
            let nodes = old(core).history.smoothing@.nodes;
            let filtered = nodes[1].incoming->0;
            &&& segment.id == filtered.id
            &&& segment.attitude_delta == filtered.attitude_delta
            &&& segment.degraded == filtered.degraded
            &&& segment.degraded_input == filtered.degraded_input
            &&& segment.end == nodes[1].endpoint
            &&& old(core).history.smoothing@.frozen_start is Some ==> segment.start
                == old(core).history.smoothing@.frozen_start->0
            &&& old(core).history.smoothing@.frozen_start is None ==> segment.start.estimate
                == values.estimate && segment.start.covariance == values.covariance
                && segment.start.time == nodes[0].endpoint.time
        }),
        old(core).history.smoothing@.cursor == Some(0int),
        final(core).work is Publish,
{
    old(core).history.smoothing.wf_facts();
}

/// A backward step that is not the last one goes on to the node before; a failed one
/// can be tried again. Neither publishes anything.
pub proof fn backward_steps_go_on<P: Payload>(
    core: &mut LiveCore<P>,
    outcome: Result<FilterValues<P>, SmoothingError>,
    answer: Result<Option<DenseSegment<P>>, LiveCoreError>,
)
    requires
        call_ensures(LiveCore::<P>::complete_smoothing, (core, outcome), answer),
        old(core).work is Smooth,
        old(core).history.smoothing.wf(),
        old(core).history.smoothing@.cursor is Some,
    ensures
        final(core).state == old(core).state,
        final(core).history.corrected == old(core).history.corrected,
        final(core).history.predicted == old(core).history.predicted,
        final(core).history.published_frontier == old(core).history.published_frontier,
        outcome matches Err(error) ==> final(core).history == old(core).history && final(core).work is Idle && answer == Err::<Option<DenseSegment<P>>, LiveCoreError>(
            LiveCoreError::Smoothing(error),
        ),
        outcome matches Ok(values) ==> {
            let before = old(core).history.smoothing@;
            let after = final(core).history.smoothing@;
            let at = before.cursor->0;
            &&& answer is Ok
            &&& answer->Ok_0 is Some <==> at == 0
            &&& at > 0 ==> after.cursor == Some(at - 1) && after.dirty && final(core).work is Idle
            &&& at == 0 ==> after.cursor is None && !after.dirty
            &&& after.nodes[at].endpoint.estimate == values.estimate
            &&& after.nodes[at].endpoint.covariance == values.covariance
            &&& after.nodes[at].endpoint.time == before.nodes[at].endpoint.time
            &&& after.nodes[at].incoming == before.nodes[at].incoming
            &&& forall|i: int|
                0 <= i < before.nodes.len() && i != at ==> #[trigger] after.nodes[i]
                    == before.nodes[i]
            &&& after.frozen_start == before.frozen_start
        },
{
    old(core).history.smoothing.wf_facts();
}

/// What is published is appended to the output as it was smoothed: the filtered
/// segment that ends at the first open node, degraded if that one is. Its end becomes
/// the published frontier and the fixed start of what follows, and the quality at both
/// ends goes with it.
pub proof fn published_segment_keeps_its_flags<P: Payload>(
    core: &mut LiveCore<P>,
    segment_is_valid: bool,
    report: &mut DrainReport<P>,
)
    requires
        call_ensures(
            LiveCore::<P>::complete_publication,
            (core, segment_is_valid, report),
            Ok::<(), LiveCoreError>(()),
        ),
        old(core).history.smoothing@.nodes.len() >= 2,
    ensures
        old(core).work is Publish,
        segment_is_valid,
        ({
            let window = old(core).history.smoothing@;
            let filtered = window.nodes[1].incoming->0;
            let before = old(core).history.corrected@;
            let after = final(core).history.corrected@;
            let published = after[before.len() as int];
            let qualities = final(core).history.corrected_quality@;
            &&& after.len() == before.len() + 1
            &&& forall|i: int| 0 <= i < before.len() ==> #[trigger] after[i] == before[i]
            &&& published.id == filtered.id
            &&& published.attitude_delta == filtered.attitude_delta
            &&& published.degraded == filtered.degraded
            &&& published.degraded_input == filtered.degraded_input
            &&& published.end == window.nodes[1].endpoint
            &&& window.frozen_start is Some ==> published.start == window.frozen_start->0
            &&& window.frozen_start is None ==> published.start == window.nodes[0].endpoint
            &&& final(core).history.published_frontier == Some(published.end.time)
            &&& final(core).history.smoothing@.frozen_start == Some(published.end)
            &&& final(core).history.smoothing@.nodes == window.nodes.skip(1)
            &&& qualities.len() == old(core).history.corrected_quality@.len() + 1
            &&& qualities.last().start == window.nodes[0].quality
            &&& qualities.last().end == window.nodes[1].quality
        }),
        final(core).state == old(core).state,
        final(core).history.predicted == old(core).history.predicted,
        final(core).history.imu == old(core).history.imu,
        final(core).work is Idle,
        final(report).counters.finalized_segments >= old(report).counters.finalized_segments,
        old(report).counters.finalized_segments < u16::MAX
            ==> final(report).counters.finalized_segments == old(report).counters.finalized_segments
            + 1,
        final(report).updates() == old(report).updates(),
{
    let window = old(core).history.smoothing@;
    assert(window.nodes.subrange(1, window.nodes.len() as int) =~= window.nodes.skip(1));
}

/// A window begins with the corrected endpoint, its values and its quality.
pub proof fn windows_begin_at_the_corrected_endpoint<P: Payload>(
    core: &mut LiveCore<P>,
    kinematics_error: Option<LiveCoreError>,
    answer: Result<bool, LiveCoreError>,
)
    requires
        call_ensures(LiveCore::<P>::complete_seed, (core, kinematics_error), answer),
    ensures
        answer is Ok <==> old(core).work is Seed && kinematics_error is None,
        answer is Ok ==> {
            let window = final(core).history.smoothing@;
            &&& window.nodes.len() == 1
            &&& window.nodes[0].endpoint == old(core).state.corrected_endpoint
            &&& window.nodes[0].time == old(core).state.corrected_endpoint.time
            &&& window.nodes[0].incoming is None
            &&& window.nodes[0].quality == old(core).history.endpoint_quality
            &&& window.frozen_start == old(core).history.smoothing@.frozen_start
            &&& final(core).history.active_imu_sample is Some
            &&& final(core).history.corrected == old(core).history.corrected
            &&& final(core).history.imu == old(core).history.imu
        },
        answer is Err ==> final(core).history == old(core).history,
        old(core).work is Seed && kinematics_error is Some ==> answer == Err::<bool, LiveCoreError>(
            kinematics_error->0,
        ),
        old(core).work !is Seed ==> answer == Err::<bool, LiveCoreError>(
            LiveCoreError::InternalInvariant,
        ),
        final(core).state == old(core).state,
        final(core).work is Idle,
{
}

/// The sample at the new epoch becomes the held one unless it is the same measurement
/// already, and the answer says which.
pub proof fn captured_sample_is_held<P: Payload>(
    core: &mut LiveCore<P>,
    report: &mut DrainReport<P>,
    changed: bool,
)
    requires
        call_ensures(
            LiveCore::<P>::complete_capture,
            (core, None::<LiveCoreError>, report),
            Ok::<bool, LiveCoreError>(changed),
        ),
    ensures
        old(core).work is Capture,
        ({
            let work = old(core).work->Capture_0;
            let held = old(core).history.active_imu_sample;
            &&& changed ==> final(core).history.active_imu_sample == Some(work.kinematics.sample)
            &&& !changed ==> final(core).history.active_imu_sample == held && held is Some
                && work.kinematics.sample.shares_latent(held->0)
            &&& held is None ==> changed
            &&& old(report).counters.filter_propagations < u16::MAX
                ==> final(report).counters.filter_propagations
                == old(report).counters.filter_propagations + 1
            &&& old(report).counters.imu_slices + work.slices <= u16::MAX
                ==> final(report).counters.imu_slices == old(report).counters.imu_slices
                + work.slices
        }),
        final(core).state == old(core).state,
        final(core).history.smoothing == old(core).history.smoothing,
        final(core).history.corrected == old(core).history.corrected,
        final(core).work is Idle,
{
}

/// Beginning a window makes the sample of its epoch the held one unless it is the same
/// measurement already, and the answer says which.
pub proof fn seeded_sample_is_held<P: Payload>(core: &mut LiveCore<P>, changed: bool)
    requires
        call_ensures(
            LiveCore::<P>::complete_seed,
            (core, None::<LiveCoreError>),
            Ok::<bool, LiveCoreError>(changed),
        ),
    ensures
        old(core).work is Seed,
        ({
            let sample = old(core).work->Seed_0.sample;
            let held = old(core).history.active_imu_sample;
            &&& changed ==> final(core).history.active_imu_sample == Some(sample)
            &&& !changed ==> final(core).history.active_imu_sample == held && held is Some
                && sample.shares_latent(held->0)
            &&& held is None ==> changed
            &&& held is Some && !sample.shares_latent(held->0) ==> changed
        }),
{
}

/// A publication that fails publishes nothing and is not counted. One whose values are not
/// valid leaves the window as it is.
pub proof fn failed_publication_is_not_counted<P: Payload>(
    core: &mut LiveCore<P>,
    segment_is_valid: bool,
    report: &mut DrainReport<P>,
    error: LiveCoreError,
)
    requires
        call_ensures(
            LiveCore::<P>::complete_publication,
            (core, segment_is_valid, report),
            Err::<(), LiveCoreError>(error),
        ),
    ensures
        *final(report) == *old(report),
        final(core).state == old(core).state,
        final(core).work is Idle,
        old(core).work !is Publish ==> error == LiveCoreError::InternalInvariant
            && final(core).history == old(core).history,
        old(core).work is Publish && !segment_is_valid ==> final(core).history == old(core).history && error is DenseHistory,
        final(core).history.published_frontier == old(core).history.published_frontier,
        final(core).history.corrected_quality == old(core).history.corrected_quality,
{
}

} // verus!
