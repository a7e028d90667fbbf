//! Control rules of the low-latency output predictor.
use vstd::prelude::*;

use crate::error::{EskfError, PredictorError, PreintegrationError, StateError};
use crate::payload::Payload;
use crate::preintegration::BatchShape;
use crate::time::SessionTime;

verus! {

/// Control state of the predictor. It is not an estimator: it only follows the
/// inertial input and takes over corrections of the delayed filter.
#[derive(Clone, Copy, Debug, PartialEq, Eq, Structural)]
pub struct PredictorLedger {
    pub time: SessionTime,
    pub degraded_input: bool,
    pub hard_resets: u32,
    /// Whether the last discrepancy crossed a reset threshold.
    pub tracking_degraded: bool,
}

/// Verdicts on the numbers of one predictor step.
#[derive(Clone, Copy, Debug, PartialEq, Eq, Structural)]
pub struct PredictorNumbers {
    pub bias_correction_is_valid: bool,
    pub duration_is_too_long: bool,
    /// Whether the propagated state is finite.
    pub state_is_finite: bool,
    /// Whether the state with its complementary correction is finite.
    pub correction_is_finite: bool,
}

impl PredictorLedger {
    pub open spec fn at(time: SessionTime) -> Self {
        PredictorLedger { time, degraded_input: false, hard_resets: 0, tracking_degraded: false }
    }

    pub fn placeholder() -> (ledger: Self)
        ensures
            ledger == Self::at(SessionTime { ns: 0 }),
    {
        Self::start_at(SessionTime::zero())
    }

    pub fn start_at(time: SessionTime) -> (ledger: Self)
        ensures
            ledger == Self::at(time),
    {
        PredictorLedger { time, degraded_input: false, hard_resets: 0, tracking_degraded: false }
    }

    /// Why a batch cannot be predicted through, if it cannot.
    pub open spec fn propagation_verdict<P: Payload>(
        self,
        batch: BatchShape<P>,
        numbers: PredictorNumbers,
    ) -> Result<(), PredictorError> {
        if !numbers.bias_correction_is_valid {
            Err(PredictorError::Preintegration(PreintegrationError::BiasCorrectionOutsideValidity))
        } else if !(i64::MIN <= batch.end.ns - batch.start.ns <= i64::MAX) {
            Err(PredictorError::Preintegration(PreintegrationError::TimeOverflow))
        } else if batch.end.ns <= batch.start.ns {
            Err(PredictorError::Preintegration(PreintegrationError::InvalidDuration))
        } else if batch.start != self.time {
            Err(PredictorError::Eskf(EskfError::TimeMismatch))
        } else if numbers.duration_is_too_long {
            Err(PredictorError::Eskf(EskfError::PropagationIntervalTooLong))
        } else if !numbers.state_is_finite {
            Err(PredictorError::Eskf(EskfError::NumericalFailure))
        } else if !numbers.correction_is_finite {
            Err(PredictorError::State(StateError::NonFinite))
        } else {
            Ok(())
        }
    }

    /// Follows one batch, or stays where it is.
    pub fn propagate<P: Payload>(&mut self, batch: &BatchShape<P>, numbers: PredictorNumbers) -> (r:
        Result<(), PredictorError>)
        ensures
            r == old(self).propagation_verdict(*batch, numbers),
            *final(self) == (if r is Ok {
                PredictorLedger {
                    time: batch.end,
                    degraded_input: batch.degraded_input,
                    ..*old(self)
                }
            } else {
                *old(self)
            }),
    {
        if !numbers.bias_correction_is_valid {
            return Err(
                PredictorError::Preintegration(PreintegrationError::BiasCorrectionOutsideValidity),
            );
        }
        match batch.end.ns.checked_sub(batch.start.ns) {
            None => {
                return Err(PredictorError::Preintegration(PreintegrationError::TimeOverflow));
            },
            Some(ns) => {
                if ns <= 0 {
                    return Err(
                        PredictorError::Preintegration(PreintegrationError::InvalidDuration),
                    );
                }
            },
        }
        if batch.start != self.time {
            return Err(PredictorError::Eskf(EskfError::TimeMismatch));
        }
        if numbers.duration_is_too_long {
            return Err(PredictorError::Eskf(EskfError::PropagationIntervalTooLong));
        }
        if !numbers.state_is_finite {
            return Err(PredictorError::Eskf(EskfError::NumericalFailure));
        }
        if !numbers.correction_is_finite {
            return Err(PredictorError::State(StateError::NonFinite));
        }
        self.time = batch.end;
        self.degraded_input = batch.degraded_input;
        Ok(())
    }

    /// How far the predictor is ahead of a matched historical epoch, in
    /// nanoseconds.
    pub fn frontier_lag_ns(&self, corrected: SessionTime, predicted: SessionTime) -> (r: Result<
        i64,
        PredictorError,
    >)
        ensures
            r == (if corrected != predicted || predicted.ns > self.time.ns {
                Err::<i64, PredictorError>(PredictorError::TimeMismatch)
            } else if self.time.ns - predicted.ns > i64::MAX {
                Err(PredictorError::TimeOverflow)
            } else {
                Ok((self.time.ns - predicted.ns) as i64)
            }),
    {
        if corrected != predicted || predicted.ns > self.time.ns {
            return Err(PredictorError::TimeMismatch);
        }
        match self.time.ns.checked_sub(predicted.ns) {
            Some(ns) => Ok(ns),
            None => Err(PredictorError::TimeOverflow),
        }
    }

    /// The ledger after one correction of the delayed filter. `hard_reset`
    /// tells whether a threshold was crossed.
    pub open spec fn corrected(self, hard_reset: bool) -> Self {
        PredictorLedger {
            tracking_degraded: hard_reset,
            hard_resets: (if hard_reset && self.hard_resets < u32::MAX {
                self.hard_resets + 1
            } else {
                self.hard_resets as int
            }) as u32,
            ..self
        }
    }

    /// Takes over one correction.
    pub fn note_correction(&mut self, hard_reset: bool)
        ensures
            *final(self) == old(self).corrected(hard_reset),
    {
        self.tracking_degraded = hard_reset;
        if hard_reset && self.hard_resets < u32::MAX {
            self.hard_resets = self.hard_resets + 1;
        }
    }
}

/// The predictor follows a batch exactly if it goes on from where the predictor stands,
/// takes time, and nothing is wrong with its numbers. Then it stands at the end of the
/// batch and says whether the input was degraded; otherwise it stays where it is.
/// Either way corrections are not forgotten.
pub proof fn predictor_follows_its_input<P: Payload>(
    predictor: &mut PredictorLedger,
    batch: BatchShape<P>,
    numbers: PredictorNumbers,
    followed: Result<(), PredictorError>,
)
    requires
        call_ensures(PredictorLedger::propagate::<P>, (predictor, &batch, numbers), followed),
    ensures
        followed is Ok <==> batch.start == old(predictor).time && 0 < batch.end.ns - batch.start.ns
            <= i64::MAX && numbers.bias_correction_is_valid && !numbers.duration_is_too_long
            && numbers.state_is_finite && numbers.correction_is_finite,
        followed is Ok ==> final(predictor).time == batch.end && final(predictor).degraded_input
            == batch.degraded_input,
        followed is Err ==> *final(predictor) == *old(predictor),
        final(predictor).hard_resets == old(predictor).hard_resets,
        final(predictor).tracking_degraded == old(predictor).tracking_degraded,
        numbers.bias_correction_is_valid && 0 < batch.end.ns - batch.start.ns <= i64::MAX
            && batch.start != old(predictor).time ==> followed == Err::<(), PredictorError>(
            PredictorError::Eskf(EskfError::TimeMismatch),
        ),
{
}

/// A correction leaves the predictor where it stands. A large one counts as a reset
/// and marks the tracking as degraded until a small one comes.
pub proof fn corrections_are_graded(
    predictor: &mut PredictorLedger,
    hard_reset: bool,
)
    requires
        call_ensures(PredictorLedger::note_correction, (predictor, hard_reset), ()),
    ensures
        final(predictor).time == old(predictor).time,
        final(predictor).degraded_input == old(predictor).degraded_input,
        final(predictor).tracking_degraded == hard_reset,
        hard_reset && old(predictor).hard_resets < u32::MAX ==> final(predictor).hard_resets == old(predictor).hard_resets + 1,
        !hard_reset || old(predictor).hard_resets == u32::MAX ==> final(predictor).hard_resets
            == old(predictor).hard_resets,
{
}

/// The lag is how far the predictor is ahead of one and the same epoch of both
/// solutions; an epoch that they do not share, or that lies ahead, has none.
pub proof fn lag_is_the_lead_of_the_predictor(
    predictor: PredictorLedger,
    corrected: SessionTime,
    predicted: SessionTime,
    lag: Result<i64, PredictorError>,
)
    requires
        call_ensures(PredictorLedger::frontier_lag_ns, (&predictor, corrected, predicted), lag),
    ensures
        lag matches Ok(ns) ==> ns >= 0 && corrected.ns + ns == predictor.time.ns && corrected
            == predicted,
        lag is Ok <==> corrected == predicted && 0 <= predictor.time.ns - corrected.ns <= i64::MAX,
        corrected != predicted || corrected.ns > predictor.time.ns ==> lag == Err::<
            i64,
            PredictorError,
        >(PredictorError::TimeMismatch),
{
}

/// A predictor starts without a history of its own.
pub proof fn predictors_start_clean(time: SessionTime, started: PredictorLedger)
    requires
        call_ensures(PredictorLedger::start_at, (time,), started),
    ensures
        started.time == time,
        started.hard_resets == 0,
        !started.degraded_input && !started.tracking_degraded,
{
}

/// Why the predictor does not follow: biases first, then a duration that is none, then
/// another start, then what became of the numbers.
pub proof fn refused_batches_say_why<P: Payload>(
    predictor: &mut PredictorLedger,
    batch: BatchShape<P>,
    numbers: PredictorNumbers,
    followed: Result<(), PredictorError>,
)
    requires
        call_ensures(PredictorLedger::propagate::<P>, (predictor, &batch, numbers), followed),
    ensures
        ({
            let duration = batch.end.ns - batch.start.ns;
            let takes_time = 0 < duration <= i64::MAX;
            let here = batch.start == old(predictor).time;
            let bias = numbers.bias_correction_is_valid;
            &&& !bias ==> followed == Err::<(), PredictorError>(
                PredictorError::Preintegration(PreintegrationError::BiasCorrectionOutsideValidity),
            )
            &&& bias && i64::MIN <= duration <= 0 ==> followed == Err::<(), PredictorError>(
                PredictorError::Preintegration(PreintegrationError::InvalidDuration),
            )
            &&& bias && !(i64::MIN <= duration <= i64::MAX) ==> followed == Err::<
                (),
                PredictorError,
            >(PredictorError::Preintegration(PreintegrationError::TimeOverflow))
            &&& bias && takes_time && here && numbers.duration_is_too_long ==> followed == Err::<
                (),
                PredictorError,
            >(PredictorError::Eskf(EskfError::PropagationIntervalTooLong))
            &&& bias && takes_time && here && !numbers.duration_is_too_long
                && !numbers.state_is_finite ==> followed == Err::<(), PredictorError>(
                PredictorError::Eskf(EskfError::NumericalFailure),
            )
            &&& bias && takes_time && here && !numbers.duration_is_too_long
                && numbers.state_is_finite && !numbers.correction_is_finite ==> followed == Err::<
                (),
                PredictorError,
            >(PredictorError::State(StateError::NonFinite))
        }),
{
}

} // verus!
