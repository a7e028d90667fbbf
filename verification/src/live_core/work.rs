//! Pieces of work that the core hands out.
use vstd::prelude::*;

use crate::dense_history::{DenseEndpoint, DenseSegment};
use crate::gnss::GnssObservation;
use crate::imu::{CorrectedImuSample, GapModel, ImuInterval};
use crate::live_core::config::{MAX_PREDICTOR_SEGMENTS_PER_INGEST, MAX_PROPAGATION_SLICES};
use crate::payload::Payload;
use crate::predictor::PredictorLedger;
use crate::preintegration::{BatchLedger, PieceStep};
use crate::queue::Scheduled;
use crate::ring::FixedRing;
use crate::time::SessionTime;

verus! {

/// The numbers of the filter that the core carries.
#[derive(Clone, Copy, Debug, PartialEq)]
pub struct FilterValues<P: Payload> {
    pub estimate: P::Estimate,
    pub covariance: P::EndpointCovariance,
}

/// A corrected segment whose end may still receive observations.
#[derive(Clone, Copy, Debug, PartialEq)]
pub struct PendingCorrectedSegment<P: Payload> {
    pub start: DenseEndpoint<P>,
    pub attitude_delta: P::Vector,
    pub end_specific_force_b: P::Vector,
    pub degraded: bool,
    pub degraded_input: bool,
}

/// Two adjacent measured samples from which an angular acceleration follows.
#[derive(Clone, Copy, Debug, PartialEq)]
pub struct RatePair<P: Payload> {
    pub previous: CorrectedImuSample<P>,
    pub current_ns: i64,
    pub previous_ns: i64,
}

/// The inertial evidence at one instant.
#[derive(Clone, Copy, Debug, PartialEq)]
pub struct EpochKinematics<P: Payload> {
    pub sample: CorrectedImuSample<P>,
    pub rate_pair: Option<RatePair<P>>,
}

/// One slice of a propagation and what the integrals have to do for it.
#[derive(Clone, Copy, Debug, PartialEq)]
pub struct PlannedPiece<P: Payload> {
    pub piece: ImuInterval<P>,
    pub step: PieceStep,
}

/// A complete plan to propagate the filter to `stop`.
#[derive(Clone, Copy, Debug, PartialEq)]
pub struct PropagationPlan<P: Payload> {
    pub stop: SessionTime,
    pub pieces: FixedRing<PlannedPiece<P>, MAX_PROPAGATION_SLICES>,
    /// Retained intervals that the plan uses up, wholly or in part.
    pub ring_entries: usize,
    /// What is left of an interval that `stop` cuts.
    pub remainder: Option<ImuInterval<P>>,
    pub last_piece: ImuInterval<P>,
    pub last_sample: CorrectedImuSample<P>,
    pub previous_sample: Option<CorrectedImuSample<P>>,
    pub ledger: BatchLedger<P>,
}

/// What a plan says, as plain values.
#[verifier::ext_equal]
pub struct PlanModel<P: Payload> {
    pub stop: SessionTime,
    pub pieces: Seq<PlannedPiece<P>>,
    pub ring_entries: usize,
    pub remainder: Option<ImuInterval<P>>,
    pub last_piece: ImuInterval<P>,
    pub last_sample: CorrectedImuSample<P>,
    pub previous_sample: Option<CorrectedImuSample<P>>,
    pub ledger: BatchLedger<P>,
}

impl<P: Payload> View for PropagationPlan<P> {
    type V = PlanModel<P>;

    open spec fn view(&self) -> PlanModel<P> {
        PlanModel {
            stop: self.stop,
            pieces: self.pieces@,
            ring_entries: self.ring_entries,
            remainder: self.remainder,
            last_piece: self.last_piece,
            last_sample: self.last_sample,
            previous_sample: self.previous_sample,
            ledger: self.ledger,
        }
    }
}

/// An inertial observation on its way into the core. Nothing of it is visible
/// until all of it has been staged.
#[derive(Clone, Copy, Debug, PartialEq)]
pub struct IngestStage<P: Payload> {
    pub interval: ImuInterval<P>,
    pub bridge: Option<ImuInterval<P>>,
    /// What remains of the part that is being staged.
    pub remaining: Option<ImuInterval<P>>,
    /// Whether the interval itself still has to follow its bridge.
    pub interval_follows: bool,
    /// The piece that has reached a navigation deadline.
    pub closing: Option<ImuInterval<P>>,
    pub predictor: PredictorLedger,
    pub predictor_estimate: P::Estimate,
    pub batch: BatchLedger<P>,
    pub endpoint: DenseEndpoint<P>,
    pub corrected_endpoint: DenseEndpoint<P>,
    pub deadline: SessionTime,
    pub next_segment_id: u64,
    pub segments: FixedRing<DenseSegment<P>, MAX_PREDICTOR_SEGMENTS_PER_INGEST>,
    pub gap_model: GapModel<P>,
    pub navigation_period_ns: i64,
}

/// An observation at the filter's epoch.
#[derive(Clone, Copy, Debug, PartialEq)]
pub struct FusionWork<P: Payload> {
    pub scheduled: Scheduled<GnssObservation<P>>,
    pub kinematics: EpochKinematics<P>,
    /// Whether the correlation with the active sample still applies.
    pub continues_sample: bool,
}

/// A corrected segment that is to become immutable.
#[derive(Clone, Copy, Debug, PartialEq)]
pub struct FinalizationWork<P: Payload> {
    pub segment: DenseSegment<P>,
    /// The predicted segment that owns the same epoch.
    pub predicted: DenseSegment<P>,
    /// How far into the predicted segment the epoch lies.
    pub elapsed_ns: i64,
    /// How far the predictor is ahead of the epoch; absent where that exceeds
    /// the range.
    pub lag_ns: Option<i64>,
}

/// A propagation that the smoothing window has to take note of.
#[derive(Clone, Copy, Debug, PartialEq)]
pub struct CaptureWork<P: Payload> {
    pub kinematics: EpochKinematics<P>,
    pub slices: u16,
}

/// The work that the caller has been given and has not returned yet.
#[derive(Clone, Copy, Debug, PartialEq)]
pub enum Work<P: Payload> {
    Idle,
    Ingest(IngestStage<P>),
    Fuse(FusionWork<P>),
    Finalize(FinalizationWork<P>),
    Seed(EpochKinematics<P>),
    Propagate(PropagationPlan<P>),
    Capture(CaptureWork<P>),
    Smooth,
    Publish,
}

} // verus!
