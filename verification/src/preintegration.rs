//! Bookkeeping of one preintegration batch: continuity, capacity, which sample
//! errors stay open across its ends, and the one gap that it may contain.
use vstd::prelude::*;
use vstd::std_specs::cmp::PartialEqSpec;

use crate::error::PreintegrationError;
use crate::imu::{GapModel, ImuInterval};
use crate::imu::comparable;
use crate::payload::Payload;
use crate::time::SessionTime;

verus! {

/// Most pieces that one batch may hold.
pub const MAX_BATCH_SAMPLES: u16 = 32;

/// The sample whose error is still accumulating.
#[derive(Clone, Copy, Debug, PartialEq)]
pub struct OpenSample<P: Payload> {
    pub covariance: P::SampleCovariance,
    pub from_before_batch: bool,
    pub active_after_piece: bool,
}

/// The gap that a batch contains.
#[derive(Clone, Copy, Debug, PartialEq)]
pub struct BatchGap<P: Payload> {
    pub origin: SessionTime,
    pub derivative_covariance: P::GapDerivative,
}

/// Control state of one preintegration batch. The integrals themselves are
/// kept beside it by the caller.
#[derive(Clone, Copy, Debug, PartialEq)]
pub struct BatchLedger<P: Payload> {
    pub start: SessionTime,
    pub end: SessionTime,
    pub sample_count: u16,
    pub degraded: bool,
    pub degraded_input: bool,
    pub calibration_consider_start: Option<u8>,
    pub open_sample: Option<OpenSample<P>>,
    pub leading_sample: Option<P::SampleCovariance>,
    pub gap: Option<BatchGap<P>>,
    pub gap_active_at_end: bool,
    pub last_interval: Option<ImuInterval<P>>,
    /// Set when the sample bookkeeping was contradictory; such a batch is
    /// reported as not finite.
    pub poisoned: bool,
}

/// What happens to the sample that was open before a piece.
#[derive(Clone, Copy, Debug, PartialEq, Eq, Structural)]
pub enum SampleFold {
    /// It stays open, or there was none.
    Keep,
    /// It was open when the batch began and is now complete.
    IntoLeading,
    /// It began and ended inside the batch.
    IntoCovariance,
}

/// What the integrals have to do for one piece.
#[derive(Clone, Copy, Debug, PartialEq, Eq, Structural)]
pub struct PieceStep {
    pub fold: SampleFold,
    pub opens_sample: bool,
    pub starts_gap: bool,
    pub poisoned: bool,
}

/// One sample error that crosses an end of the batch.
#[derive(Clone, Copy, Debug, PartialEq)]
pub struct BatchSample<P: Payload> {
    pub covariance: P::SampleCovariance,
    pub active_at_end: bool,
}

/// A complete batch, without its integrals.
#[derive(Clone, Copy, Debug, PartialEq)]
pub struct BatchShape<P: Payload> {
    pub start: SessionTime,
    pub end: SessionTime,
    pub sample_count: u16,
    pub degraded: bool,
    pub degraded_input: bool,
    pub calibration_consider_start: Option<u8>,
    pub leading_sample: Option<BatchSample<P>>,
    pub trailing_sample: Option<BatchSample<P>>,
    pub gap: Option<BatchGap<P>>,
    pub gap_active_at_end: bool,
}

/// How one piece is attached to what came before and what comes after it.
#[derive(Clone, Copy, Debug, PartialEq, Eq, Structural)]
pub struct PieceLinks {
    pub continues_previous_sample: bool,
    pub gap_active_after_piece: bool,
    pub sample_active_after_piece: bool,
}

impl<P: Payload> BatchLedger<P> {
    /// An empty batch that begins at `start`.
    pub open spec fn empty_at(start: SessionTime) -> Self {
        BatchLedger {
            start,
            end: start,
            sample_count: 0,
            degraded: false,
            degraded_input: false,
            calibration_consider_start: None,
            open_sample: None,
            leading_sample: None,
            gap: None,
            gap_active_at_end: false,
            last_interval: None,
            poisoned: false,
        }
    }

    /// Whether the batch can take `interval`, declared as a gap or not.
    pub open spec fn piece_verdict(
        self,
        interval: ImuInterval<P>,
        noise_is_valid: bool,
        gap_model: Option<GapModel<P>>,
    ) -> Result<(), PreintegrationError> {
        if interval.verdict() is Err {
            interval.verdict()
        } else if !noise_is_valid {
            Err(PreintegrationError::NonFinite)
        } else if interval.start != self.end {
            Err(PreintegrationError::Discontinuous { expected: self.end, received: interval.start })
        } else if self.sample_count == MAX_BATCH_SAMPLES {
            Err(PreintegrationError::BatchCapacity)
        } else if self.sample_count > 0 && self.calibration_consider_start
            != interval.calibration_consider_start {
            Err(PreintegrationError::CalibrationModelChanged)
        } else if interval.spec_gap_origin() is Err {
            Err(interval.spec_gap_origin()->Err_0)
        } else if gap_model is Some != interval.is_gap() {
            Err(PreintegrationError::InvalidGapModel)
        } else if gap_model is Some && self.gap is Some && !(self.gap->0.origin
            == interval.spec_gap_origin()->Ok_0->0 && self.gap->0.derivative_covariance.eq_spec(
            &gap_model->0.derivative_covariance,
        )) {
            Err(PreintegrationError::MultipleGapLatents)
        } else {
            Ok(())
        }
    }

    /// Whether the sample bookkeeping contradicts itself: a second sample from
    /// before the batch, or a continued sample with another covariance.
    pub open spec fn contradicts(self, interval: ImuInterval<P>, links: PieceLinks) -> bool {
        match self.open_sample {
            None => false,
            Some(open) => if links.continues_previous_sample {
                !open.covariance.eq_spec(&interval.sample_covariance)
            } else {
                open.from_before_batch && self.leading_sample is Some
            },
        }
    }

    /// What the integrals have to do for an accepted piece.
    pub open spec fn piece_step(
        self,
        interval: ImuInterval<P>,
        gap_model: Option<GapModel<P>>,
        links: PieceLinks,
    ) -> PieceStep {
        let poisoned = self.contradicts(interval, links);
        PieceStep {
            fold: if poisoned || links.continues_previous_sample || self.open_sample is None {
                SampleFold::Keep
            } else if self.open_sample->0.from_before_batch {
                SampleFold::IntoLeading
            } else {
                SampleFold::IntoCovariance
            },
            opens_sample: !poisoned && (!links.continues_previous_sample || self.open_sample
                is None),
            starts_gap: gap_model is Some && self.gap is None,
            poisoned,
        }
    }

    /// The ledger after an accepted piece.
    pub open spec fn with_piece(
        self,
        interval: ImuInterval<P>,
        gap_model: Option<GapModel<P>>,
        links: PieceLinks,
    ) -> Self {
        let step = self.piece_step(interval, gap_model, links);
        BatchLedger {
            start: self.start,
            end: interval.end,
            sample_count: (self.sample_count + 1) as u16,
            degraded: self.degraded || interval.is_gap(),
            degraded_input: self.degraded_input || interval.degraded_input,
            calibration_consider_start: interval.calibration_consider_start,
            open_sample: if step.poisoned {
                self.open_sample
            } else if step.opens_sample {
                Some(
                    OpenSample {
                        covariance: interval.sample_covariance,
                        from_before_batch: links.continues_previous_sample,
                        active_after_piece: links.sample_active_after_piece,
                    },
                )
            } else {
                Some(
                    OpenSample {
                        active_after_piece: links.sample_active_after_piece,
                        ..self.open_sample->0
                    },
                )
            },
            leading_sample: if step.fold == SampleFold::IntoLeading {
                Some(self.open_sample->0.covariance)
            } else {
                self.leading_sample
            },
            gap: if step.starts_gap {
                Some(
                    BatchGap {
                        origin: interval.spec_gap_origin()->Ok_0->0,
                        derivative_covariance: gap_model->0.derivative_covariance,
                    },
                )
            } else {
                self.gap
            },
            gap_active_at_end: gap_model is Some && links.gap_active_after_piece,
            last_interval: Some(interval),
            poisoned: self.poisoned || step.poisoned,
        }
    }

    pub fn placeholder() -> (ledger: Self)
        ensures
            ledger == Self::empty_at(SessionTime { ns: 0 }),
    {
        Self::begin(SessionTime::zero())
    }

    fn begin(start: SessionTime) -> (ledger: Self)
        ensures
            ledger == Self::empty_at(start),
    {
        BatchLedger {
            start,
            end: start,
            sample_count: 0,
            degraded: false,
            degraded_input: false,
            calibration_consider_start: None,
            open_sample: None,
            leading_sample: None,
            gap: None,
            gap_active_at_end: false,
            last_interval: None,
            poisoned: false,
        }
    }

    pub fn reset(&mut self)
        ensures
            *final(self) == Self::empty_at(SessionTime { ns: 0 }),
    {
        *self = Self::placeholder();
    }

    /// Begins an empty batch at `start`. Linearization values that are not
    /// valid leave the ledger reset.
    pub fn initialize(&mut self, start: SessionTime, linearization_is_valid: bool) -> (r: Result<
        (),
        PreintegrationError,
    >)
        ensures
            r == (if linearization_is_valid {
                Ok::<(), PreintegrationError>(())
            } else {
                Err(PreintegrationError::NonFinite)
            }),
            *final(self) == Self::empty_at(
                if linearization_is_valid {
                    start
                } else {
                    SessionTime { ns: 0 }
                },
            ),
    {
        self.reset();
        if !linearization_is_valid {
            return Err(PreintegrationError::NonFinite);
        }
        self.start = start;
        self.end = start;
        Ok(())
    }

    pub fn new(start: SessionTime, linearization_is_valid: bool) -> (r: Result<
        Self,
        PreintegrationError,
    >)
        ensures
            r == (if linearization_is_valid {
                Ok::<Self, PreintegrationError>(Self::empty_at(start))
            } else {
                Err(PreintegrationError::NonFinite)
            }),
    {
        let mut result = Self::placeholder();
        match result.initialize(start, linearization_is_valid) {
            Ok(_) => Ok(result),
            Err(error) => Err(error),
        }
    }

    pub fn end(&self) -> (end: SessionTime)
        ensures
            end == self.end,
    {
        self.end
    }

    pub fn is_empty(&self) -> (empty: bool)
        ensures
            empty == (self.sample_count == 0),
    {
        self.sample_count == 0
    }

    /// Appends one measured interval that shares no sample with its
    /// neighbours.
    pub fn push(&mut self, interval: ImuInterval<P>, noise_is_valid: bool) -> (r: Result<
        PieceStep,
        PreintegrationError,
    >)
        requires
            comparable::<P>(),
            old(self).sample_count <= MAX_BATCH_SAMPLES,
        ensures
            ({
                let links = PieceLinks {
                    continues_previous_sample: false,
                    gap_active_after_piece: false,
                    sample_active_after_piece: false,
                };
                let verdict = if interval.is_gap() {
                    Err(PreintegrationError::InvalidGapModel)
                } else {
                    old(self).piece_verdict(interval, noise_is_valid, None)
                };
                Self::appended(*old(self), *final(self), r, verdict, interval, None, links)
            }),
    {
        self.push_piece(interval, noise_is_valid, false, false)
    }

    /// One append as a relation: refused without a trace, or accepted.
    pub open spec fn appended(
        before: Self,
        after: Self,
        outcome: Result<PieceStep, PreintegrationError>,
        verdict: Result<(), PreintegrationError>,
        interval: ImuInterval<P>,
        gap_model: Option<GapModel<P>>,
        links: PieceLinks,
    ) -> bool {
        match verdict {
            Err(error) => outcome == Err::<PieceStep, PreintegrationError>(error) && after
                == before,
            Ok(_) => outcome == Ok::<PieceStep, PreintegrationError>(
                before.piece_step(interval, gap_model, links),
            ) && after == before.with_piece(interval, gap_model, links),
        }
    }

    /// Appends one measured piece.
    pub fn push_piece(
        &mut self,
        interval: ImuInterval<P>,
        noise_is_valid: bool,
        continues_previous_sample: bool,
        sample_active_after_piece: bool,
    ) -> (r: Result<PieceStep, PreintegrationError>)
        requires
            comparable::<P>(),
            old(self).sample_count <= MAX_BATCH_SAMPLES,
        ensures
            ({
                let links = PieceLinks {
                    continues_previous_sample,
                    gap_active_after_piece: false,
                    sample_active_after_piece,
                };
                let verdict = if interval.is_gap() {
                    Err(PreintegrationError::InvalidGapModel)
                } else {
                    old(self).piece_verdict(interval, noise_is_valid, None)
                };
                Self::appended(*old(self), *final(self), r, verdict, interval, None, links)
            }),
    {
        if interval.is_gap() {
            return Err(PreintegrationError::InvalidGapModel);
        }
        self.push_internal(
            interval,
            noise_is_valid,
            None,
            PieceLinks {
                continues_previous_sample,
                gap_active_after_piece: false,
                sample_active_after_piece,
            },
        )
    }

    /// Appends one piece of a declared gap. Only the first piece of a gap
    /// begins a new sample; `continues_after_piece` tells whether the gap
    /// outlasts the piece.
    pub fn push_gap(
        &mut self,
        interval: ImuInterval<P>,
        noise_is_valid: bool,
        model: GapModel<P>,
        continues_after_piece: bool,
    ) -> (r: Result<PieceStep, PreintegrationError>)
        requires
            comparable::<P>(),
            old(self).sample_count <= MAX_BATCH_SAMPLES,
        ensures
            ({
                let links = PieceLinks {
                    continues_previous_sample: interval.gap_elapsed_ns_plus_one > 1,
                    gap_active_after_piece: continues_after_piece,
                    sample_active_after_piece: continues_after_piece,
                };
                Self::appended(
                    *old(self),
                    *final(self),
                    r,
                    old(self).gap_piece_verdict(interval, noise_is_valid, model),
                    interval,
                    Some(model),
                    links,
                )
            }),
    {
        self.push_gap_piece(
            interval,
            noise_is_valid,
            model,
            interval.gap_elapsed_ns_plus_one > 1,
            continues_after_piece,
            continues_after_piece,
        )
    }

    pub open spec fn gap_piece_verdict(
        self,
        interval: ImuInterval<P>,
        noise_is_valid: bool,
        model: GapModel<P>,
    ) -> Result<(), PreintegrationError> {
        if !model.valid() || !interval.is_gap() {
            Err(PreintegrationError::InvalidGapModel)
        } else {
            self.piece_verdict(interval, noise_is_valid, Some(model))
        }
    }

    pub fn push_gap_piece(
        &mut self,
        interval: ImuInterval<P>,
        noise_is_valid: bool,
        model: GapModel<P>,
        continues_previous_sample: bool,
        gap_active_after_piece: bool,
        sample_active_after_piece: bool,
    ) -> (r: Result<PieceStep, PreintegrationError>)
        requires
            comparable::<P>(),
            old(self).sample_count <= MAX_BATCH_SAMPLES,
        ensures
            ({
                let links = PieceLinks {
                    continues_previous_sample,
                    gap_active_after_piece,
                    sample_active_after_piece,
                };
                Self::appended(
                    *old(self),
                    *final(self),
                    r,
                    old(self).gap_piece_verdict(interval, noise_is_valid, model),
                    interval,
                    Some(model),
                    links,
                )
            }),
    {
        match model.validate() {
            Err(error) => {
                return Err(error);
            },
            Ok(_) => {},
        }
        if !interval.is_gap() {
            return Err(PreintegrationError::InvalidGapModel);
        }
        self.push_internal(
            interval,
            noise_is_valid,
            Some(model),
            PieceLinks {
                continues_previous_sample,
                gap_active_after_piece,
                sample_active_after_piece,
            },
        )
    }

    fn push_internal(
        &mut self,
        interval: ImuInterval<P>,
        noise_is_valid: bool,
        gap_model: Option<GapModel<P>>,
        links: PieceLinks,
    ) -> (r: Result<PieceStep, PreintegrationError>)
        requires
            comparable::<P>(),
            old(self).sample_count <= MAX_BATCH_SAMPLES,
        ensures
            Self::appended(
                *old(self),
                *final(self),
                r,
                old(self).piece_verdict(interval, noise_is_valid, gap_model),
                interval,
                gap_model,
                links,
            ),
    {
        match interval.validate() {
            Err(error) => {
                return Err(error);
            },
            Ok(_) => {},
        }
        if !noise_is_valid {
            return Err(PreintegrationError::NonFinite);
        }
        if interval.start != self.end {
            return Err(
                PreintegrationError::Discontinuous { expected: self.end, received: interval.start },
            );
        }
        if self.sample_count == MAX_BATCH_SAMPLES {
            return Err(PreintegrationError::BatchCapacity);
        }
        if self.sample_count > 0 && self.calibration_consider_start
            != interval.calibration_consider_start {
            return Err(PreintegrationError::CalibrationModelChanged);
        }
        let origin = match interval.gap_origin() {
            Err(error) => {
                return Err(error);
            },
            Ok(origin) => origin,
        };
        let mut starts_gap = false;
        let mut gap = self.gap;
        match (gap_model, origin) {
            (Some(model), Some(origin)) => {
                match self.gap {
                    Some(existing) => {
                        if existing.origin != origin || !(existing.derivative_covariance
                            == model.derivative_covariance) {
                            return Err(PreintegrationError::MultipleGapLatents);
                        }
                    },
                    None => {
                        gap =
                        Some(
                            BatchGap { origin, derivative_covariance: model.derivative_covariance },
                        );
                        starts_gap = true;
                    },
                }
            },
            (None, None) => {},
            _ => {
                return Err(PreintegrationError::InvalidGapModel);
            },
        }
        let step = self.open_piece(interval, links);
        self.gap = gap;
        self.gap_active_at_end = gap_model.is_some() && links.gap_active_after_piece;
        self.calibration_consider_start = interval.calibration_consider_start;
        self.sample_count = self.sample_count + 1;
        self.end = interval.end;
        self.degraded = self.degraded || interval.is_gap();
        self.degraded_input = self.degraded_input || interval.degraded_input;
        self.last_interval = Some(interval);
        Ok(
            PieceStep {
                fold: step.fold,
                opens_sample: step.opens_sample,
                starts_gap,
                poisoned: step.poisoned,
            },
        )
    }

    /// Moves the open and leading samples across one piece.
    fn open_piece(&mut self, interval: ImuInterval<P>, links: PieceLinks) -> (step: PieceStep)
        requires
            comparable::<P>(),
        ensures
            step == (PieceStep {
                starts_gap: false,
                ..old(self).piece_step(interval, None, links)
            }),
            *final(self) == (BatchLedger {
                open_sample: old(self).with_piece(interval, None, links).open_sample,
                leading_sample: old(self).with_piece(interval, None, links).leading_sample,
                poisoned: old(self).with_piece(interval, None, links).poisoned,
                ..*old(self)
            }),
    {
        let mut step = PieceStep {
            fold: SampleFold::Keep,
            opens_sample: false,
            starts_gap: false,
            poisoned: false,
        };
        let fresh = OpenSample {
            covariance: interval.sample_covariance,
            from_before_batch: links.continues_previous_sample,
            active_after_piece: links.sample_active_after_piece,
        };
        match self.open_sample {
            None => {
                step.opens_sample = true;
                self.open_sample = Some(fresh);
            },
            Some(open) => {
                if !links.continues_previous_sample {
                    if open.from_before_batch {
                        if self.leading_sample.is_some() {
                            self.poisoned = true;
                            step.poisoned = true;
                            return step;
                        }
                        self.leading_sample = Some(open.covariance);
                        step.fold = SampleFold::IntoLeading;
                    } else {
                        step.fold = SampleFold::IntoCovariance;
                    }
                    step.opens_sample = true;
                    self.open_sample = Some(fresh);
                } else if !(open.covariance == interval.sample_covariance) {
                    self.poisoned = true;
                    step.poisoned = true;
                } else {
                    let mut kept = open;
                    kept.active_after_piece = links.sample_active_after_piece;
                    self.open_sample = Some(kept);
                }
            },
        }
        step
    }

    /// Extends the batch to `target` by holding its last interval.
    pub fn bridge_gap(
        &mut self,
        target: SessionTime,
        noise_is_valid: bool,
        model: GapModel<P>,
    ) -> (r: Result<PieceStep, PreintegrationError>)
        requires
            comparable::<P>(),
            old(self).sample_count <= MAX_BATCH_SAMPLES,
        ensures
            match old(self).last_interval {
                None => r == Err::<PieceStep, PreintegrationError>(
                    PreintegrationError::NoBridgeSource,
                ) && *final(self) == *old(self),
                Some(previous) => {
                    let bridge = ImuInterval::bridge(previous, target);
                    let verdict = if ImuInterval::bridge_verdict(previous, target, model) is Err {
                        ImuInterval::bridge_verdict(previous, target, model)
                    } else {
                        old(self).gap_piece_verdict(bridge, noise_is_valid, model)
                    };
                    let links = PieceLinks {
                        continues_previous_sample: true,
                        gap_active_after_piece: false,
                        sample_active_after_piece: false,
                    };
                    Self::appended(
                        *old(self),
                        *final(self),
                        r,
                        verdict,
                        bridge,
                        Some(model),
                        links,
                    )
                },
            },
    {
        match self.last_interval {
            None => Err(PreintegrationError::NoBridgeSource),
            Some(previous) => match ImuInterval::bridge_after(previous, target, model) {
                Err(error) => Err(error),
                Ok(bridge) => self.push_gap_piece(
                    bridge,
                    noise_is_valid,
                    model,
                    true,
                    false,
                    false,
                ),
            },
        }
    }

    /// The sample that was open when the batch began.
    pub open spec fn leading(self) -> Option<BatchSample<P>> {
        if self.open_sample is Some && self.open_sample->0.from_before_batch {
            Some(
                BatchSample {
                    covariance: self.open_sample->0.covariance,
                    active_at_end: self.open_sample->0.active_after_piece,
                },
            )
        } else {
            match self.leading_sample {
                Some(covariance) => Some(BatchSample { covariance, active_at_end: false }),
                None => None,
            }
        }
    }

    /// The sample that begins in the batch and outlasts it.
    pub open spec fn trailing(self) -> Option<BatchSample<P>> {
        if self.open_sample is Some && !self.open_sample->0.from_before_batch
            && self.open_sample->0.active_after_piece {
            Some(
                BatchSample { covariance: self.open_sample->0.covariance, active_at_end: true },
            )
        } else {
            None
        }
    }

    pub open spec fn shape(self) -> BatchShape<P> {
        BatchShape {
            start: self.start,
            end: self.end,
            sample_count: self.sample_count,
            degraded: self.degraded,
            degraded_input: self.degraded_input,
            calibration_consider_start: self.calibration_consider_start,
            leading_sample: self.leading(),
            trailing_sample: self.trailing(),
            gap: self.gap,
            gap_active_at_end: self.gap is Some && self.gap_active_at_end,
        }
    }

    /// The complete batch. `covariance_is_finite` is the verdict on the
    /// integrals that the caller kept.
    pub fn batch(&self, covariance_is_finite: bool) -> (r: Result<BatchShape<P>, PreintegrationError>)
        ensures
            r == (if self.sample_count == 0 {
                Err::<BatchShape<P>, PreintegrationError>(PreintegrationError::EmptyBatch)
            } else if self.poisoned || !covariance_is_finite {
                Err(PreintegrationError::NonFinite)
            } else {
                Ok(self.shape())
            }),
    {
        if self.sample_count == 0 {
            return Err(PreintegrationError::EmptyBatch);
        }
        let mut leading_sample = match self.leading_sample {
            Some(covariance) => Some(BatchSample { covariance, active_at_end: false }),
            None => None,
        };
        let mut trailing_sample: Option<BatchSample<P>> = None;
        if let Some(open) = self.open_sample {
            let contribution = BatchSample {
                covariance: open.covariance,
                active_at_end: open.active_after_piece,
            };
            if open.from_before_batch {
                leading_sample = Some(contribution);
            } else if open.active_after_piece {
                trailing_sample = Some(contribution);
            }
        }
        if self.poisoned || !covariance_is_finite {
            return Err(PreintegrationError::NonFinite);
        }
        Ok(
            BatchShape {
                start: self.start,
                end: self.end,
                sample_count: self.sample_count,
                degraded: self.degraded,
                degraded_input: self.degraded_input,
                calibration_consider_start: self.calibration_consider_start,
                leading_sample,
                trailing_sample,
                gap: self.gap,
                gap_active_at_end: self.gap.is_some() && self.gap_active_at_end,
            },
        )
    }
}

/// Accepted pieces of one batch join without holes: the batch grows exactly by
/// the piece, never beyond its capacity, and its flags only ever rise.
pub proof fn accepted_piece_extends_batch<P: Payload>(
    ledger: BatchLedger<P>,
    interval: ImuInterval<P>,
    noise_is_valid: bool,
    gap_model: Option<GapModel<P>>,
    links: PieceLinks,
)
    requires
        ledger.sample_count <= MAX_BATCH_SAMPLES,
        ledger.piece_verdict(interval, noise_is_valid, gap_model) is Ok,
    ensures
        ({
            let after = ledger.with_piece(interval, gap_model, links);
            &&& ledger.end == interval.start
            &&& after.start == ledger.start
            &&& after.end == interval.end
            &&& after.end.ns > ledger.end.ns
            &&& after.sample_count == ledger.sample_count + 1 <= MAX_BATCH_SAMPLES
            &&& ledger.degraded ==> after.degraded
            &&& ledger.degraded_input ==> after.degraded_input
            &&& ledger.gap is Some ==> after.gap == ledger.gap
            &&& ledger.poisoned ==> after.poisoned
        }),
{
}

/// A gap is one latent: two cuts of the same gap are accepted into one batch,
/// pieces of two different gaps never are.
pub proof fn one_gap_per_batch<P: Payload>(
    ledger: BatchLedger<P>,
    interval: ImuInterval<P>,
    noise_is_valid: bool,
    model: GapModel<P>,
)
    requires
        ledger.gap is Some,
        interval.is_gap(),
        interval.spec_gap_origin() is Ok,
        ledger.gap->0.origin != interval.spec_gap_origin()->Ok_0->0,
    ensures
        ledger.piece_verdict(interval, noise_is_valid, Some(model)) is Err,
{
}

/// A batch that takes a piece of a gap is degraded from then on, whatever else it
/// holds. It remembers the beginning of the gap and its model, and whether the gap goes
/// on after the piece.
pub proof fn gap_pieces_degrade_the_batch<P: Payload>(
    ledger: &mut BatchLedger<P>,
    interval: ImuInterval<P>,
    noise_is_valid: bool,
    model: GapModel<P>,
    links: PieceLinks,
    step: PieceStep,
)
    requires
        old(ledger).sample_count <= MAX_BATCH_SAMPLES,
        call_ensures(
            BatchLedger::<P>::push_gap_piece,
            (
                ledger,
                interval,
                noise_is_valid,
                model,
                links.continues_previous_sample,
                links.gap_active_after_piece,
                links.sample_active_after_piece,
            ),
            Ok::<PieceStep, PreintegrationError>(step),
        ),
    ensures
        final(ledger).degraded,
        final(ledger).gap is Some,
        final(ledger).gap_active_at_end == links.gap_active_after_piece,
        step.starts_gap == (old(ledger).gap is None),
        old(ledger).gap is None ==> {
            let gap = final(ledger).gap->0;
            &&& gap.origin.ns + interval.gap_elapsed_ns_plus_one == interval.start.ns + 1
            &&& gap.derivative_covariance == model.derivative_covariance
        },
        old(ledger).gap is Some ==> final(ledger).gap == old(ledger).gap,
        joins_batch(*old(ledger), interval, *final(ledger)),
        sample_moves_on(*old(ledger), interval, links, step, *final(ledger)),
{
}

/// A measured piece neither degrades a batch nor brings a gap into it; it ends the gap
/// that was going on.
pub proof fn measured_pieces_do_not_degrade_the_batch<P: Payload>(
    ledger: &mut BatchLedger<P>,
    interval: ImuInterval<P>,
    noise_is_valid: bool,
    links: PieceLinks,
    step: PieceStep,
)
    requires
        old(ledger).sample_count <= MAX_BATCH_SAMPLES,
        call_ensures(
            BatchLedger::<P>::push_piece,
            (
                ledger,
                interval,
                noise_is_valid,
                links.continues_previous_sample,
                links.sample_active_after_piece,
            ),
            Ok::<PieceStep, PreintegrationError>(step),
        ),
    ensures
        final(ledger).degraded == old(ledger).degraded,
        final(ledger).gap == old(ledger).gap,
        !final(ledger).gap_active_at_end,
        !step.starts_gap,
        interval.gap_elapsed_ns_plus_one == 0,
        joins_batch(*old(ledger), interval, *final(ledger)),
        sample_moves_on(*old(ledger), interval, links, step, *final(ledger)),
{
}

/// Whether `after` is `before` extended by exactly `interval`: it goes on where the
/// batch ended, takes one more place, and degraded input is remembered.
pub open spec fn joins_batch<P: Payload>(
    before: BatchLedger<P>,
    interval: ImuInterval<P>,
    after: BatchLedger<P>,
) -> bool {
    &&& interval.start == before.end
    &&& after.start == before.start
    &&& after.end == interval.end
    &&& before.end.ns < after.end.ns
    &&& after.sample_count == before.sample_count + 1
    &&& after.sample_count <= 32
    &&& after.degraded_input == (before.degraded_input || interval.degraded_input)
    &&& after.calibration_consider_start == interval.calibration_consider_start
    &&& before.sample_count > 0 ==> before.calibration_consider_start
        == interval.calibration_consider_start
    &&& after.last_interval == Some(interval)
}

/// Whether the open sample moved on as it should: continued where the piece continues
/// it, and otherwise closed and replaced by the piece's own. One that was open before
/// the batch closes into the leading sample, of which there is only one. What cannot be
/// is remembered.
pub open spec fn sample_moves_on<P: Payload>(
    before: BatchLedger<P>,
    interval: ImuInterval<P>,
    links: PieceLinks,
    step: PieceStep,
    after: BatchLedger<P>,
) -> bool {
    &&& after.poisoned == (before.poisoned || step.poisoned)
    &&& step.poisoned ==> after.open_sample == before.open_sample && after.leading_sample
        == before.leading_sample && !step.opens_sample && step.fold == SampleFold::Keep
    &&& !step.poisoned ==> after.open_sample is Some
        && after.open_sample->0.active_after_piece == links.sample_active_after_piece
    &&& step.opens_sample ==> after.open_sample->0.covariance == interval.sample_covariance
        && after.open_sample->0.from_before_batch == links.continues_previous_sample
    &&& step.fold != SampleFold::IntoLeading ==> after.leading_sample == before.leading_sample
    &&& match before.open_sample {
        None => step.opens_sample && step.fold == SampleFold::Keep && !step.poisoned,
        Some(open) => if links.continues_previous_sample {
            &&& step.poisoned == !open.covariance.eq_spec(&interval.sample_covariance)
            &&& !step.opens_sample && step.fold == SampleFold::Keep
            &&& after.open_sample->0.covariance == open.covariance
            &&& after.open_sample->0.from_before_batch == open.from_before_batch
        } else if !open.from_before_batch {
            &&& !step.poisoned && step.opens_sample
            &&& step.fold == SampleFold::IntoCovariance
        } else if before.leading_sample is Some {
            step.poisoned
        } else {
            &&& !step.poisoned && step.opens_sample
            &&& step.fold == SampleFold::IntoLeading
            &&& after.leading_sample == Some(open.covariance)
        },
    }
}

/// Which pieces a batch takes, and what it answers to the others. A refused piece leaves
/// no trace.
pub proof fn batches_take_what_continues_them<P: Payload>(
    measured: &mut BatchLedger<P>,
    bridged: &mut BatchLedger<P>,
    interval: ImuInterval<P>,
    noise_is_valid: bool,
    model: GapModel<P>,
    links: PieceLinks,
    taken: Result<PieceStep, PreintegrationError>,
    taken_as_gap: Result<PieceStep, PreintegrationError>,
)
    requires
        *old(measured) == *old(bridged),
        call_ensures(
            BatchLedger::<P>::push_piece,
            (
                measured,
                interval,
                noise_is_valid,
                links.continues_previous_sample,
                links.sample_active_after_piece,
            ),
            taken,
        ),
        call_ensures(
            BatchLedger::<P>::push_gap_piece,
            (
                bridged,
                interval,
                noise_is_valid,
                model,
                links.continues_previous_sample,
                links.gap_active_after_piece,
                links.sample_active_after_piece,
            ),
            taken_as_gap,
        ),
    ensures
        ({
            let before = *old(measured);
            let usable = 0 < interval.end.ns - interval.start.ns <= i64::MAX
                && interval.values_are_valid && noise_is_valid;
            let follows = interval.start == before.end && before.sample_count != 32 && (
            before.sample_count > 0 ==> before.calibration_consider_start
                == interval.calibration_consider_start);
            let is_gap = interval.gap_elapsed_ns_plus_one > 0;
            let origin = interval.start.ns - (interval.gap_elapsed_ns_plus_one - 1);
            let same_gap = before.gap matches Some(gap) ==> gap.origin.ns == origin
                && gap.derivative_covariance.eq_spec(&model.derivative_covariance);
            let model_is_valid = 0 < model.maximum_gap_ns <= 10_000_000 && model.sigmas_are_valid;
            &&& taken is Ok <==> !is_gap && usable && follows
            &&& taken_as_gap is Ok <==> is_gap && model_is_valid && usable && follows && origin
                >= i64::MIN && same_gap
            &&& taken is Err ==> *final(measured) == before
            &&& taken_as_gap is Err ==> *final(bridged) == before
            &&& is_gap ==> taken == Err::<PieceStep, PreintegrationError>(
                PreintegrationError::InvalidGapModel,
            )
            &&& !is_gap || !model_is_valid ==> taken_as_gap == Err::<PieceStep, PreintegrationError>(
                PreintegrationError::InvalidGapModel,
            )
            &&& usable && !is_gap && interval.start != before.end ==> taken == Err::<
                PieceStep,
                PreintegrationError,
            >(PreintegrationError::Discontinuous { expected: before.end, received: interval.start })
            &&& usable && !is_gap && interval.start == before.end && before.sample_count == 32
                ==> taken == Err::<PieceStep, PreintegrationError>(
                PreintegrationError::BatchCapacity,
            )
            &&& usable && follows && is_gap && model_is_valid && origin >= i64::MIN && !same_gap
                ==> taken_as_gap == Err::<PieceStep, PreintegrationError>(
                PreintegrationError::MultipleGapLatents,
            )
            &&& usable && !is_gap && interval.start == before.end && 0 < before.sample_count < 32
                && before.calibration_consider_start != interval.calibration_consider_start
                ==> taken == Err::<PieceStep, PreintegrationError>(
                PreintegrationError::CalibrationModelChanged,
            )
        }),
{
}

/// Plain pushing is pushing a piece that shares its sample with no neighbour; pushing a
/// gap continues the held sample from its second piece on, and holds it as long as the
/// gap lasts.
pub proof fn plain_pushes_are_pieces<P: Payload>(
    plain: &mut BatchLedger<P>,
    piece: &mut BatchLedger<P>,
    gap: &mut BatchLedger<P>,
    gap_piece: &mut BatchLedger<P>,
    interval: ImuInterval<P>,
    noise_is_valid: bool,
    model: GapModel<P>,
    continues_after_piece: bool,
    first: Result<PieceStep, PreintegrationError>,
    second: Result<PieceStep, PreintegrationError>,
    third: Result<PieceStep, PreintegrationError>,
    fourth: Result<PieceStep, PreintegrationError>,
)
    requires
        *old(piece) == *old(plain),
        *old(gap_piece) == *old(gap),
        call_ensures(BatchLedger::<P>::push, (plain, interval, noise_is_valid), first),
        call_ensures(
            BatchLedger::<P>::push_piece,
            (piece, interval, noise_is_valid, false, false),
            second,
        ),
        call_ensures(
            BatchLedger::<P>::push_gap,
            (gap, interval, noise_is_valid, model, continues_after_piece),
            third,
        ),
        call_ensures(
            BatchLedger::<P>::push_gap_piece,
            (
                gap_piece,
                interval,
                noise_is_valid,
                model,
                interval.gap_elapsed_ns_plus_one > 1,
                continues_after_piece,
                continues_after_piece,
            ),
            fourth,
        ),
    ensures
        first == second,
        *final(plain) == *final(piece),
        third == fourth,
        *final(gap) == *final(gap_piece),
{
}

/// Bridging a batch extends it to the target with the values of its last interval, as a
/// gap that is over by then. There has to be an interval to hold.
pub proof fn bridged_batches_reach_the_target<P: Payload>(
    ledger: &mut BatchLedger<P>,
    target: SessionTime,
    noise_is_valid: bool,
    model: GapModel<P>,
    bridged: Result<PieceStep, PreintegrationError>,
)
    requires
        old(ledger).sample_count <= MAX_BATCH_SAMPLES,
        call_ensures(
            BatchLedger::<P>::bridge_gap,
            (ledger, target, noise_is_valid, model),
            bridged,
        ),
    ensures
        old(ledger).last_interval is None ==> bridged == Err::<PieceStep, PreintegrationError>(
            PreintegrationError::NoBridgeSource,
        ),
        bridged is Err ==> *final(ledger) == *old(ledger),
        bridged matches Ok(step) ==> {
            let previous = old(ledger).last_interval->0;
            let held = final(ledger).last_interval->0;
            &&& final(ledger).end == target
            &&& final(ledger).degraded
            &&& !final(ledger).gap_active_at_end
            &&& final(ledger).gap is Some
            &&& old(ledger).gap is None ==> final(ledger).gap->0.origin == previous.end
            &&& 0 < target.ns - previous.end.ns <= model.maximum_gap_ns
            &&& held.omega_ib_b == previous.omega_ib_b && held.specific_force_b
                == previous.specific_force_b && held.sample_covariance == previous.sample_covariance
            &&& final(ledger).sample_count == old(ledger).sample_count + 1
            &&& !step.poisoned ==> !final(ledger).open_sample->0.active_after_piece
        },
{
}

/// A complete batch says what its pieces said. The sample that was open before it leads,
/// and is still open at its end only if its last piece continued it; one that began in
/// it trails exactly if it outlasts the batch.
pub proof fn batches_say_what_their_pieces_said<P: Payload>(
    ledger: BatchLedger<P>,
    covariance_is_finite: bool,
    made: Result<BatchShape<P>, PreintegrationError>,
)
    requires
        call_ensures(BatchLedger::<P>::batch, (&ledger, covariance_is_finite), made),
    ensures
        made is Ok <==> ledger.sample_count > 0 && !ledger.poisoned && covariance_is_finite,
        ledger.sample_count == 0 ==> made == Err::<BatchShape<P>, PreintegrationError>(
            PreintegrationError::EmptyBatch,
        ),
        ledger.sample_count > 0 && made is Err ==> made->Err_0 == PreintegrationError::NonFinite,
        made matches Ok(batch) ==> {
            &&& batch.start == ledger.start && batch.end == ledger.end
            &&& batch.sample_count == ledger.sample_count
            &&& batch.degraded == ledger.degraded
            &&& batch.degraded_input == ledger.degraded_input
            &&& batch.calibration_consider_start == ledger.calibration_consider_start
            &&& batch.gap == ledger.gap
            &&& batch.gap_active_at_end ==> batch.gap is Some
            &&& batch.gap is Some ==> batch.gap_active_at_end == ledger.gap_active_at_end
            &&& match ledger.open_sample {
                Some(open) if open.from_before_batch => {
                    &&& batch.leading_sample is Some
                    &&& batch.leading_sample->0.covariance == open.covariance
                    &&& batch.leading_sample->0.active_at_end == open.active_after_piece
                    &&& batch.trailing_sample is None
                },
                Some(open) => {
                    &&& batch.trailing_sample is Some <==> open.active_after_piece
                    &&& batch.trailing_sample is Some ==> batch.trailing_sample->0.covariance
                        == open.covariance && batch.trailing_sample->0.active_at_end
                    &&& (batch.leading_sample is Some) == (ledger.leading_sample is Some)
                    &&& batch.leading_sample is Some ==> batch.leading_sample->0.covariance
                        == ledger.leading_sample->0 && !batch.leading_sample->0.active_at_end
                },
                None => batch.trailing_sample is None,
            }
        },
{
}

/// An empty batch begins and ends at its start and holds nothing.
pub proof fn batches_begin_empty<P: Payload>(
    ledger: &mut BatchLedger<P>,
    start: SessionTime,
    linearization_is_valid: bool,
    begun: Result<(), PreintegrationError>,
    made: Result<BatchLedger<P>, PreintegrationError>,
)
    requires
        call_ensures(
            BatchLedger::<P>::initialize,
            (ledger, start, linearization_is_valid),
            begun,
        ),
        call_ensures(BatchLedger::<P>::new, (start, linearization_is_valid), made),
    ensures
        begun is Ok == linearization_is_valid,
        made is Ok == linearization_is_valid,
        made is Ok ==> made->Ok_0 == *final(ledger),
        begun is Ok ==> final(ledger).start == start && final(ledger).end == start,
        ({
            let after = *final(ledger);
            &&& after.start == after.end
            &&& after.sample_count == 0
            &&& !after.degraded && !after.degraded_input && !after.poisoned
            &&& after.open_sample is None && after.leading_sample is None
            &&& after.gap is None && !after.gap_active_at_end
            &&& after.last_interval is None
        }),
{
}

/// Where a measured interval is cut does not matter: its two pieces leave the batch as
/// the whole one would, but for the places that they take.
pub proof fn cuts_do_not_matter<P: Payload>(
    whole: &mut BatchLedger<P>,
    first: &mut BatchLedger<P>,
    second: &mut BatchLedger<P>,
    interval: ImuInterval<P>,
    cut: SessionTime,
    noise_is_valid: bool,
    continues_previous_sample: bool,
    sample_active_after_piece: bool,
    whole_step: PieceStep,
    first_step: PieceStep,
    second_step: PieceStep,
)
    requires
        *old(first) == *old(whole),
        *old(second) == *final(first),
        old(whole).sample_count <= MAX_BATCH_SAMPLES,
        interval.sample_covariance.eq_spec(&interval.sample_covariance),
        !whole_step.poisoned && !first_step.poisoned && !second_step.poisoned,
        continues_previous_sample && old(whole).open_sample is Some ==> old(whole).open_sample->0.covariance == interval.sample_covariance,
        call_ensures(
            BatchLedger::<P>::push_piece,
            (
                whole,
                interval,
                noise_is_valid,
                continues_previous_sample,
                sample_active_after_piece,
            ),
            Ok::<PieceStep, PreintegrationError>(whole_step),
        ),
        call_ensures(
            BatchLedger::<P>::push_piece,
            (
                first,
                ImuInterval { end: cut, ..interval },
                noise_is_valid,
                continues_previous_sample,
                true,
            ),
            Ok::<PieceStep, PreintegrationError>(first_step),
        ),
        call_ensures(
            BatchLedger::<P>::push_piece,
            (
                second,
                ImuInterval { start: cut, ..interval },
                noise_is_valid,
                true,
                sample_active_after_piece,
            ),
            Ok::<PieceStep, PreintegrationError>(second_step),
        ),
    ensures
        final(second).start == final(whole).start && final(second).end == final(whole).end,
        final(second).degraded == final(whole).degraded,
        final(second).degraded_input == final(whole).degraded_input,
        final(second).open_sample == final(whole).open_sample,
        final(second).leading_sample == final(whole).leading_sample,
        final(second).gap == final(whole).gap,
        final(second).gap_active_at_end == final(whole).gap_active_at_end,
        first_step.fold == whole_step.fold && second_step.fold == SampleFold::Keep,
        first_step.opens_sample == whole_step.opens_sample && !second_step.opens_sample,
{
}

} // verus!
