//! Control rules of the error-state filter: which batches it accepts, which
//! latents it keeps across a propagation, and which shared blocks are active.
use vstd::prelude::*;
use vstd::std_specs::cmp::PartialEqSpec;

use crate::error::{EskfError, PreintegrationError};
use crate::imu::comparable;
use crate::payload::Payload;
use crate::preintegration::{BatchGap, BatchShape};
use crate::time::SessionTime;

verus! {

/// Shared parameters of one sensor installation.
pub const INSTALLATION_DIM: usize = 3;

/// Control state of the filter: its epoch, how many shared parameters are
/// active, and the gap whose correlation it still carries.
#[derive(Clone, Copy, Debug, PartialEq)]
pub struct FilterLedger<P: Payload> {
    pub time: SessionTime,
    pub active_consider: usize,
    pub gap: Option<BatchGap<P>>,
}

/// Verdicts on the numbers of one batch, made by whoever integrated it.
#[derive(Clone, Copy, Debug, PartialEq, Eq, Structural)]
pub struct BatchNumbers {
    /// Whether any installation sensitivity is nonzero.
    pub has_installation_sensitivity: bool,
    pub installation_sensitivity_is_finite: bool,
    pub samples_are_finite: bool,
    pub bias_correction_is_valid: bool,
    pub duration_is_too_long: bool,
    pub gap_is_finite: bool,
}

/// What the filter does with its latents in one propagation.
#[derive(Clone, Copy, Debug, PartialEq)]
pub struct FilterStep<P: Payload> {
    /// The gap of the batch continues one that the filter already carries.
    pub continues_gap: bool,
    pub retain_gap: bool,
    pub retain_sample: bool,
    pub next_gap: Option<BatchGap<P>>,
}

/// Whether the installation block of a batch is usable.
pub open spec fn installation_block_is_valid<P: Payload>(
    start: Option<u8>,
    active_consider: int,
    has_sensitivity: bool,
    sensitivity_is_finite: bool,
) -> bool {
    &&& active_consider <= P::MAX_CONSIDER
    &&& sensitivity_is_finite
    &&& match start {
        Some(start) => start + 3 <= active_consider,
        None => !has_sensitivity,
    }
}

pub fn validate_process_consider_block<P: Payload>(
    start: Option<u8>,
    active_consider: usize,
    has_sensitivity: bool,
    sensitivity_is_finite: bool,
) -> (r: Result<(), EskfError>)
    ensures
        r == (if installation_block_is_valid::<P>(
            start,
            active_consider as int,
            has_sensitivity,
            sensitivity_is_finite,
        ) {
            Ok::<(), EskfError>(())
        } else {
            Err(EskfError::InvalidConsiderBlock)
        }),
{
    if active_consider > P::MAX_CONSIDER {
        return Err(EskfError::InvalidConsiderBlock);
    }
    if !sensitivity_is_finite {
        return Err(EskfError::InvalidConsiderBlock);
    }
    match start {
        Some(start) => if start as usize + INSTALLATION_DIM <= active_consider {
            Ok(())
        } else {
            Err(EskfError::InvalidConsiderBlock)
        },
        None => if has_sensitivity {
            Err(EskfError::InvalidConsiderBlock)
        } else {
            Ok(())
        },
    }
}

/// A carried gap must go on in the next batch; a new gap must begin in it.
pub open spec fn gap_transition_is_valid<P: Payload>(
    carried: Option<BatchGap<P>>,
    batch: BatchShape<P>,
    gap_is_finite: bool,
) -> bool {
    match (carried, batch.gap) {
        (Some(carried), Some(gap)) => carried.origin == gap.origin
            && carried.derivative_covariance.eq_spec(&gap.derivative_covariance) && gap_is_finite,
        (None, Some(gap)) => gap.origin.ns >= batch.start.ns && gap_is_finite,
        (None, None) => true,
        (Some(_), None) => false,
    }
}

pub fn validate_gap_transition<P: Payload>(
    carried: Option<BatchGap<P>>,
    batch: &BatchShape<P>,
    gap_is_finite: bool,
) -> (r: Result<(), EskfError>)
    requires
        comparable::<P>(),
    ensures
        r == (if gap_transition_is_valid(carried, *batch, gap_is_finite) {
            Ok::<(), EskfError>(())
        } else {
            Err(EskfError::GapLatentMismatch)
        }),
{
    match (carried, batch.gap) {
        (Some(carried), Some(gap)) => {
            if carried.origin != gap.origin || !(carried.derivative_covariance
                == gap.derivative_covariance) {
                return Err(EskfError::GapLatentMismatch);
            }
        },
        (None, Some(gap)) => {
            if gap.origin.ns < batch.start.ns {
                return Err(EskfError::GapLatentMismatch);
            }
        },
        (None, None) => {},
        (Some(_), None) => {
            return Err(EskfError::GapLatentMismatch);
        },
    }
    if batch.gap.is_some() && !gap_is_finite {
        return Err(EskfError::GapLatentMismatch);
    }
    Ok(())
}

pub fn validate_imu_sample_transition<P: Payload>(
    batch: &BatchShape<P>,
    prior_sample_is_present: bool,
    samples_are_finite: bool,
) -> (r: Result<(), EskfError>)
    ensures
        r == (if (batch.leading_sample is Some ==> prior_sample_is_present) && samples_are_finite {
            Ok::<(), EskfError>(())
        } else {
            Err(EskfError::ImuSampleLatentMismatch)
        }),
{
    if batch.leading_sample.is_some() && !prior_sample_is_present {
        return Err(EskfError::ImuSampleLatentMismatch);
    }
    if !samples_are_finite {
        return Err(EskfError::ImuSampleLatentMismatch);
    }
    Ok(())
}

impl<P: Payload> FilterLedger<P> {
    pub open spec fn spec_placeholder() -> Self {
        FilterLedger { time: SessionTime { ns: 0 }, active_consider: 0, gap: None }
    }

    pub fn placeholder() -> (ledger: Self)
        ensures
            ledger == Self::spec_placeholder(),
    {
        FilterLedger { time: SessionTime::zero(), active_consider: 0, gap: None }
    }

    /// Why a batch cannot be propagated through, if it cannot.
    pub open spec fn propagation_verdict(
        self,
        batch: BatchShape<P>,
        prior_sample_is_present: bool,
        numbers: BatchNumbers,
    ) -> Result<(), EskfError> {
        if batch.start != self.time {
            Err(EskfError::TimeMismatch)
        } else if !installation_block_is_valid::<P>(
            batch.calibration_consider_start,
            self.active_consider as int,
            numbers.has_installation_sensitivity,
            numbers.installation_sensitivity_is_finite,
        ) {
            Err(EskfError::InvalidConsiderBlock)
        } else if (batch.leading_sample is Some && !prior_sample_is_present)
            || !numbers.samples_are_finite {
            Err(EskfError::ImuSampleLatentMismatch)
        } else if !numbers.bias_correction_is_valid {
            Err(EskfError::Preintegration(PreintegrationError::BiasCorrectionOutsideValidity))
        } else if !(i64::MIN <= batch.end.ns - batch.start.ns <= i64::MAX) {
            Err(EskfError::Preintegration(PreintegrationError::TimeOverflow))
        } else if batch.end.ns <= batch.start.ns {
            Err(EskfError::Preintegration(PreintegrationError::InvalidDuration))
        } else if numbers.duration_is_too_long {
            Err(EskfError::PropagationIntervalTooLong)
        } else if !gap_transition_is_valid(self.gap, batch, numbers.gap_is_finite) {
            Err(EskfError::GapLatentMismatch)
        } else if batch.trailing_sample is Some && batch.leading_sample is Some
            && batch.leading_sample->0.active_at_end {
            Err(EskfError::ImuSampleLatentMismatch)
        } else {
            Ok(())
        }
    }

    /// What an accepted propagation keeps.
    pub open spec fn propagation_step(self, batch: BatchShape<P>) -> FilterStep<P> {
        let continues_gap = self.gap is Some && batch.gap is Some && self.gap->0.origin
            == batch.gap->0.origin;
        FilterStep {
            continues_gap,
            retain_gap: continues_gap && batch.gap_active_at_end,
            retain_sample: batch.leading_sample is Some && batch.leading_sample->0.active_at_end,
            next_gap: if batch.gap is Some && batch.gap_active_at_end {
                batch.gap
            } else {
                None
            },
        }
    }

    /// The filter after a propagation.
    pub open spec fn propagated(self, batch: BatchShape<P>) -> Self {
        FilterLedger {
            time: batch.end,
            active_consider: self.active_consider,
            gap: self.propagation_step(batch).next_gap,
        }
    }

    /// Decides on one batch without changing the filter.
    pub fn plan_propagation(
        &self,
        batch: &BatchShape<P>,
        prior_sample_is_present: bool,
        numbers: BatchNumbers,
    ) -> (r: Result<FilterStep<P>, EskfError>)
        requires
            comparable::<P>(),
        ensures
            match self.propagation_verdict(*batch, prior_sample_is_present, numbers) {
                Err(error) => r == Err::<FilterStep<P>, EskfError>(error),
                Ok(_) => r == Ok::<FilterStep<P>, EskfError>(self.propagation_step(*batch)),
            },
    {
        if batch.start != self.time {
            return Err(EskfError::TimeMismatch);
        }
        match validate_process_consider_block::<P>(
            batch.calibration_consider_start,
            self.active_consider,
            numbers.has_installation_sensitivity,
            numbers.installation_sensitivity_is_finite,
        ) {
            Err(error) => {
                return Err(error);
            },
            Ok(_) => {},
        }
        match validate_imu_sample_transition(
            batch,
            prior_sample_is_present,
            numbers.samples_are_finite,
        ) {
            Err(error) => {
                return Err(error);
            },
            Ok(_) => {},
        }
        if !numbers.bias_correction_is_valid {
            return Err(
                EskfError::Preintegration(PreintegrationError::BiasCorrectionOutsideValidity),
            );
        }
        match batch.end.ns.checked_sub(batch.start.ns) {
            None => {
                return Err(EskfError::Preintegration(PreintegrationError::TimeOverflow));
            },
            Some(ns) => {
                if ns <= 0 {
                    return Err(EskfError::Preintegration(PreintegrationError::InvalidDuration));
                }
            },
        }
        if numbers.duration_is_too_long {
            return Err(EskfError::PropagationIntervalTooLong);
        }
        match validate_gap_transition(self.gap, batch, numbers.gap_is_finite) {
            Err(error) => {
                return Err(error);
            },
            Ok(_) => {},
        }
        let mut step = FilterStep {
            continues_gap: false,
            retain_gap: false,
            retain_sample: false,
            next_gap: None,
        };
        if let Some(gap) = batch.gap {
            if let Some(carried) = self.gap {
                step.continues_gap = carried.origin == gap.origin;
                step.retain_gap = step.continues_gap && batch.gap_active_at_end;
            }
            if batch.gap_active_at_end {
                step.next_gap = Some(gap);
            }
        }
        if let Some(leading) = batch.leading_sample {
            step.retain_sample = leading.active_at_end;
        }
        if batch.trailing_sample.is_some() && step.retain_sample {
            return Err(EskfError::ImuSampleLatentMismatch);
        }
        Ok(step)
    }

    /// Takes over a propagation whose numbers have been committed.
    pub fn commit_propagation(&mut self, batch: &BatchShape<P>, step: FilterStep<P>)
        requires
            step == old(self).propagation_step(*batch),
        ensures
            *final(self) == old(self).propagated(*batch),
    {
        self.time = batch.end;
        self.gap = step.next_gap;
    }

    /// Whether the first two shared parameters may be replaced by those of the
    /// next clock segment. `extent` is one past the last previous parameter
    /// that the new clock depends on.
    pub fn validate_clock_transition(
        &self,
        active_consider: usize,
        extent: usize,
        numbers_are_valid: bool,
    ) -> (r: Result<(), EskfError>)
        ensures
            r == (if active_consider == self.active_consider && 2 <= active_consider
                <= P::MAX_CONSIDER && extent <= active_consider && numbers_are_valid {
                Ok::<(), EskfError>(())
            } else {
                Err(EskfError::InvalidConsiderBlock)
            }),
    {
        if active_consider != self.active_consider {
            return Err(EskfError::InvalidConsiderBlock);
        }
        if active_consider < 2 || active_consider > P::MAX_CONSIDER || extent > active_consider
            || !numbers_are_valid {
            return Err(EskfError::InvalidConsiderBlock);
        }
        Ok(())
    }
}

/// A gap is carried from one propagation to the next exactly while it lasts,
/// and its successor batch must then continue it.
pub proof fn carried_gap_must_continue<P: Payload>(
    filter: FilterLedger<P>,
    first: BatchShape<P>,
    second: BatchShape<P>,
    prior_sample_is_present: bool,
    numbers: BatchNumbers,
)
    requires
        first.gap is Some,
        first.gap_active_at_end,
        filter.propagated(first).propagation_verdict(
            second,
            prior_sample_is_present,
            numbers,
        ) is Ok,
    ensures
        second.start == first.end,
        second.gap is Some,
        second.gap->0.origin == first.gap->0.origin,
        filter.propagated(first).propagation_step(second).continues_gap,
{
}

/// The error of a gap that goes on from one batch to the next is retained exactly
/// as long as the gap lasts; a gap that begins in the batch has nothing to retain.
pub proof fn continued_gap_is_retained_while_it_lasts<P: Payload>(
    filter: FilterLedger<P>,
    batch: BatchShape<P>,
    prior_sample_is_present: bool,
    numbers: BatchNumbers,
    planned: Result<FilterStep<P>, EskfError>,
)
    requires
        call_ensures(
            FilterLedger::<P>::plan_propagation,
            (&filter, &batch, prior_sample_is_present, numbers),
            planned,
        ),
    ensures
        planned matches Ok(step) ==> {
            &&& filter.gap is Some ==> batch.gap is Some && step.continues_gap && step.retain_gap
                == batch.gap_active_at_end
            &&& filter.gap is None ==> !step.continues_gap && !step.retain_gap
        },
{
}

/// A gap is handed to the next batch exactly while it is active at the end of this
/// one, whether or not it began here.
pub proof fn active_gap_is_carried_on<P: Payload>(
    filter: &mut FilterLedger<P>,
    batch: BatchShape<P>,
    prior_sample_is_present: bool,
    numbers: BatchNumbers,
    step: FilterStep<P>,
)
    requires
        call_ensures(
            FilterLedger::<P>::plan_propagation,
            (&*old(filter), &batch, prior_sample_is_present, numbers),
            Ok::<FilterStep<P>, EskfError>(step),
        ),
        call_ensures(FilterLedger::<P>::commit_propagation, (filter, &batch, step), ()),
    ensures
        final(filter).time == batch.end,
        final(filter).time.ns > old(filter).time.ns,
        final(filter).active_consider == old(filter).active_consider,
        batch.gap is Some && batch.gap_active_at_end ==> final(filter).gap == batch.gap,
        batch.gap is None || !batch.gap_active_at_end ==> final(filter).gap is None,
        step.next_gap == final(filter).gap,
{
}

/// The error of a sample that was open before the batch is retained exactly if it
/// is still open after it; then no other sample may be.
pub proof fn open_sample_is_retained<P: Payload>(
    filter: FilterLedger<P>,
    batch: BatchShape<P>,
    prior_sample_is_present: bool,
    numbers: BatchNumbers,
    planned: Result<FilterStep<P>, EskfError>,
)
    requires
        call_ensures(
            FilterLedger::<P>::plan_propagation,
            (&filter, &batch, prior_sample_is_present, numbers),
            planned,
        ),
    ensures
        planned matches Ok(step) ==> {
            &&& batch.leading_sample matches Some(sample) ==> prior_sample_is_present
                && step.retain_sample == sample.active_at_end
            &&& batch.leading_sample is None ==> !step.retain_sample
            &&& step.retain_sample ==> batch.trailing_sample is None
        },
{
}

/// What an accepted batch is: it begins where the filter stands, takes time, uses
/// only active parameters, and agrees with the gap that the filter carries. The
/// first thing that is wrong names the error.
pub proof fn accepted_batch_fits_the_filter<P: Payload>(
    filter: FilterLedger<P>,
    batch: BatchShape<P>,
    prior_sample_is_present: bool,
    numbers: BatchNumbers,
    planned: Result<FilterStep<P>, EskfError>,
)
    requires
        call_ensures(
            FilterLedger::<P>::plan_propagation,
            (&filter, &batch, prior_sample_is_present, numbers),
            planned,
        ),
    ensures
        ({
            let starts_here = batch.start == filter.time;
            let block_is_active = filter.active_consider <= P::MAX_CONSIDER
                && numbers.installation_sensitivity_is_finite && (
            batch.calibration_consider_start is None ==> !numbers.has_installation_sensitivity) && (
            forall|axis: int|
                #![trigger in_installation_block(batch, axis)]
                in_installation_block(batch, axis) ==> axis < filter.active_consider);
            let samples_fit = numbers.samples_are_finite && (batch.leading_sample is Some
                ==> prior_sample_is_present);
            let takes_time = 0 < batch.end.ns - batch.start.ns <= i64::MAX;
            let gap_fits = match (filter.gap, batch.gap) {
                (Some(carried), Some(gap)) => carried.origin == gap.origin
                    && carried.derivative_covariance.eq_spec(&gap.derivative_covariance)
                    && numbers.gap_is_finite,
                (Some(_), None) => false,
                (None, Some(gap)) => batch.start.ns <= gap.origin.ns && numbers.gap_is_finite,
                (None, None) => true,
            };
            let one_open_sample = !(batch.trailing_sample is Some && batch.leading_sample is Some
                && batch.leading_sample->0.active_at_end);
            &&& planned is Ok <==> starts_here && block_is_active && samples_fit && takes_time
                && gap_fits && one_open_sample && numbers.bias_correction_is_valid
                && !numbers.duration_is_too_long
            &&& !starts_here ==> planned == Err::<FilterStep<P>, EskfError>(EskfError::TimeMismatch)
            &&& starts_here && !block_is_active ==> planned == Err::<FilterStep<P>, EskfError>(
                EskfError::InvalidConsiderBlock,
            )
            &&& starts_here && block_is_active && !samples_fit ==> planned == Err::<
                FilterStep<P>,
                EskfError,
            >(EskfError::ImuSampleLatentMismatch)
            &&& starts_here && block_is_active && samples_fit && takes_time
                && numbers.bias_correction_is_valid && numbers.duration_is_too_long ==> planned
                == Err::<FilterStep<P>, EskfError>(EskfError::PropagationIntervalTooLong)
            &&& starts_here && block_is_active && samples_fit && takes_time
                && numbers.bias_correction_is_valid && !numbers.duration_is_too_long && !gap_fits
                ==> planned == Err::<FilterStep<P>, EskfError>(EskfError::GapLatentMismatch)
        }),
{
    if let Some(start) = batch.calibration_consider_start {
        assert(in_installation_block(batch, start + 2));
    }
}

/// Whether the shared parameter `axis` is one of the three of the batch's sensor
/// installation.
pub open spec fn in_installation_block<P: Payload>(batch: BatchShape<P>, axis: int) -> bool {
    batch.calibration_consider_start is Some && (axis == batch.calibration_consider_start->0
        || axis == batch.calibration_consider_start->0 + 1 || axis
        == batch.calibration_consider_start->0 + 2)
}

/// A clock may change only as a whole: both of its parameters are active, as many
/// are active as before, and nothing beyond them is referred to.
pub proof fn clock_changes_within_active_parameters<P: Payload>(
    filter: FilterLedger<P>,
    active_consider: usize,
    extent: usize,
    numbers_are_valid: bool,
    checked: Result<(), EskfError>,
)
    requires
        call_ensures(
            FilterLedger::<P>::validate_clock_transition,
            (&filter, active_consider, extent, numbers_are_valid),
            checked,
        ),
    ensures
        checked is Ok <==> filter.active_consider == active_consider && 1 < active_consider
            && active_consider <= P::MAX_CONSIDER && extent <= active_consider && numbers_are_valid,
        checked is Err ==> checked->Err_0 == EskfError::InvalidConsiderBlock,
{
}

/// A carried gap has to go on, under the same model; a gap that begins may not begin before
/// its batch; and no gap needs no numbers.
pub proof fn gaps_go_on_or_begin<P: Payload>(
    carried: Option<BatchGap<P>>,
    batch: BatchShape<P>,
    gap_is_finite: bool,
    checked: Result<(), EskfError>,
)
    requires
        call_ensures(validate_gap_transition::<P>, (carried, &batch, gap_is_finite), checked),
    ensures
        carried is None && batch.gap is None ==> checked is Ok,
        carried is Some && batch.gap is None ==> checked is Err,
        batch.gap is Some && !gap_is_finite ==> checked is Err,
        carried is None && batch.gap is Some && gap_is_finite ==> (checked is Ok
            <==> batch.gap->0.origin.ns >= batch.start.ns),
        carried is Some && batch.gap is Some && gap_is_finite ==> (checked is Ok
            <==> carried->0.origin == batch.gap->0.origin
            && carried->0.derivative_covariance.eq_spec(&batch.gap->0.derivative_covariance)),
        checked is Err ==> checked->Err_0 == EskfError::GapLatentMismatch,
{
}

/// A batch that goes on with a sample needs that sample, and finite numbers in any case.
pub proof fn leading_samples_need_a_predecessor<P: Payload>(
    batch: BatchShape<P>,
    prior_sample_is_present: bool,
    samples_are_finite: bool,
    checked: Result<(), EskfError>,
)
    requires
        call_ensures(
            validate_imu_sample_transition::<P>,
            (&batch, prior_sample_is_present, samples_are_finite),
            checked,
        ),
    ensures
        checked is Ok <==> samples_are_finite && (prior_sample_is_present
            || batch.leading_sample is None),
        checked is Err ==> checked->Err_0 == EskfError::ImuSampleLatentMismatch,
{
}

/// The three installation parameters have to be active; without them there must be no
/// sensitivity to any.
pub proof fn installation_parameters_are_active<P: Payload>(
    start: Option<u8>,
    active_consider: usize,
    has_sensitivity: bool,
    sensitivity_is_finite: bool,
    checked: Result<(), EskfError>,
)
    requires
        call_ensures(
            validate_process_consider_block::<P>,
            (start, active_consider, has_sensitivity, sensitivity_is_finite),
            checked,
        ),
    ensures
        active_consider > P::MAX_CONSIDER || !sensitivity_is_finite ==> checked is Err,
        active_consider <= P::MAX_CONSIDER && sensitivity_is_finite && start is None ==> (
        checked is Ok <==> !has_sensitivity),
        active_consider <= P::MAX_CONSIDER && sensitivity_is_finite && start is Some ==> (
        checked is Ok <==> start->0 + 2 < active_consider),
        checked is Err ==> checked->Err_0 == EskfError::InvalidConsiderBlock,
{
}

} // verus!
