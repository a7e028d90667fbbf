//! Every failure that the live core can report.
use vstd::prelude::*;

use crate::queue::QueueError;
use crate::scheduler::{EnqueueDisposition, SchedulerError};
use crate::time::SessionTime;

verus! {

#[derive(Clone, Copy, Debug, PartialEq, Eq, Structural)]
pub enum PreintegrationError {
    NonFinite,
    InvalidDuration,
    TimeOverflow,
    Discontinuous { expected: SessionTime, received: SessionTime },
    BatchCapacity,
    EmptyBatch,
    InvalidGapModel,
    InvalidSampleCovariance,
    MultipleGapLatents,
    GapTooLong,
    NoBridgeSource,
    CalibrationModelChanged,
    BiasCorrectionOutsideValidity,
}

#[derive(Clone, Copy, Debug, PartialEq, Eq, Structural)]
pub enum StateError {
    NonFinite,
}

#[derive(Clone, Copy, Debug, PartialEq, Eq, Structural)]
pub enum EskfError {
    InvalidConfiguration,
    InvalidCovariance,
    CovarianceNotPositiveSemidefinite,
    InvalidMeasurement,
    InvalidMeasurementCovariance,
    InvalidConsiderBlock,
    InvalidInnovationCovariance,
    TimeMismatch,
    PropagationIntervalTooLong,
    NumericalFailure,
    DiscretizationBoundExceeded,
    GapLatentMismatch,
    ImuSampleLatentMismatch,
    MissingAngularAccelerationForTiming,
    Preintegration(PreintegrationError),
    State(StateError),
}

#[derive(Clone, Copy, Debug, PartialEq, Eq, Structural)]
pub enum PredictorError {
    InvalidConfiguration,
    NonFinite,
    TimeMismatch,
    TimeOverflow,
    Preintegration(PreintegrationError),
    Eskf(EskfError),
    State(StateError),
}

#[derive(Clone, Copy, Debug, PartialEq, Eq, Structural)]
pub enum ReanchorError {
    NonFinite,
    UndefinedTangentFrame,
    InvalidRotation,
    InvalidPolicy,
    GenerationNotIncreasing,
}

#[derive(Clone, Copy, Debug, PartialEq, Eq, Structural)]
pub enum DenseHistoryError {
    InvalidSegment,
    TimeOverflow,
    OutsideSpan,
    Capacity,
    Discontinuous,
    Corrupt,
    Reanchor(ReanchorError),
}

#[derive(Clone, Copy, Debug, PartialEq, Eq, Structural)]
pub enum SmoothingError {
    InvalidCovariance,
    NumericalFailure,
    InvalidState,
}

#[derive(Clone, Copy, Debug, PartialEq, Eq, Structural)]
pub enum InitializationError {
    InvalidConfiguration,
    NonFinite,
    MissingGnss,
    DegenerateAlignment,
    YawUnobservable,
}

#[derive(Clone, Copy, Debug, PartialEq, Eq, Structural)]
pub enum LiveCoreError {
    InvalidConfiguration,
    HistoryNotEmptyOrInvalidSeed,
    InputClosed,
    TimeOverflow,
    SegmentIdOverflow,
    /// Stops planning when the credits of a turn run out. Callers of the live
    /// core see a blocked drain instead.
    PlanningQuotaExhausted,
    MeasurementTimeMismatch,
    ImuOverlapOrRegression,
    MissingInitialImuSupport,
    ImuIntervalTooLong,
    MissingImuSupport,
    RawImuHistoryFull,
    PredictorHistoryFull,
    PredictorHistoryUnavailable,
    PredictorWorkBoundExceeded,
    MeasurementQueueRejected(EnqueueDisposition),
    ClockTransitionRequiresReinitialization,
    InternalInvariant,
    Preintegration(PreintegrationError),
    Eskf(EskfError),
    Predictor(PredictorError),
    Scheduler(SchedulerError),
    DenseHistory(DenseHistoryError),
    Queue(QueueError),
    Reanchor(ReanchorError),
    Smoothing(SmoothingError),
    SmoothingHistoryFull,
}

} // verus!
