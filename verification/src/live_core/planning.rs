//! Planning a propagation: which evidence it uses, cut where it must be, and
//! paid for slice by slice before any of it is consumed.
use vstd::prelude::*;
use vstd::std_specs::cmp::PartialEqSpec;

use crate::capacity::IMU_HISTORY_CAPACITY;
use crate::error::{LiveCoreError, PreintegrationError};
use crate::imu::{split_interval, CorrectedImuSample, GapModel, ImuInterval};
use crate::imu::{comparable, same_values, split_verdict};
use crate::live_core::config::{
    FILTER_PROPAGATION_CREDITS, IMU_SLICE_CREDITS, MAX_PROPAGATION_SLICES, MIN_PROPAGATION_CREDITS,
};
use crate::live_core::state::{LiveCore, LiveCoreHistory, LiveCoreState};
use crate::live_core::state::{evidence, settled, supports};
use crate::live_core::work::{PlannedPiece, PropagationPlan};
use crate::payload::Payload;
use crate::preintegration::{BatchLedger, PieceLinks};
use crate::preintegration::{accepted_piece_extends_batch, MAX_BATCH_SAMPLES};
use crate::ring::FixedRing;
use crate::scheduler::WorkQuota;
use crate::time::SessionTime;

verus! {

/// How far a plan has come.
#[derive(Clone, Copy, Debug, PartialEq)]
pub struct PlanCursor<P: Payload> {
    pub cursor: SessionTime,
    pub piece_count: usize,
    pub ring_entries: usize,
    /// The cut interval that the last propagation left, until it is used.
    pub pending: Option<ImuInterval<P>>,
    pub remainder: Option<ImuInterval<P>>,
    pub last_piece: Option<ImuInterval<P>>,
    pub current_sample: Option<CorrectedImuSample<P>>,
    pub previous_sample: Option<CorrectedImuSample<P>>,
    pub ledger: BatchLedger<P>,
}

/// Whether `source` goes on with the measurement of `sample`: the rest of a cut
/// interval, a gap that holds it, or the very interval it came from.
pub open spec fn continues_sample<P: Payload>(
    sample: CorrectedImuSample<P>,
    source: ImuInterval<P>,
    from_ring: bool,
) -> bool {
    &&& same_values::<P>(
        sample.omega_ib_b,
        sample.specific_force_b,
        sample.sample_covariance,
        source.omega_ib_b,
        source.specific_force_b,
        source.sample_covariance,
    )
    &&& {
        ||| !from_ring && sample.support_end == source.end && sample.gap == source.is_gap()
        ||| from_ring && source.is_gap() && sample.support_end == source.start
        ||| from_ring && sample.support_start == source.start && sample.support_end == source.end
            && sample.gap == source.is_gap()
    }
}

fn check_continues<P: Payload>(
    sample: CorrectedImuSample<P>,
    source: &ImuInterval<P>,
    from_ring: bool,
) -> (continues: bool)
    requires
        comparable::<P>(),
    ensures
        continues == continues_sample(sample, *source, from_ring),
{
    sample.omega_ib_b == source.omega_ib_b && sample.specific_force_b == source.specific_force_b
        && sample.sample_covariance == source.sample_covariance && ((!from_ring
        && sample.support_end == source.end && sample.gap == source.is_gap()) || (from_ring
        && source.is_gap() && sample.support_end == source.start) || (from_ring
        && sample.support_start == source.start && sample.support_end == source.end && sample.gap
        == source.is_gap()))
}

impl<P: Payload> PlanCursor<P> {
    /// The next interval of evidence.
    pub open spec fn source(self, imu: Seq<ImuInterval<P>>) -> Option<ImuInterval<P>> {
        if self.pending is Some {
            self.pending
        } else if self.ring_entries < imu.len() {
            Some(imu[self.ring_entries as int])
        } else {
            None
        }
    }

    pub open spec fn continues(self, imu: Seq<ImuInterval<P>>) -> bool {
        self.current_sample is Some && continues_sample(
            self.current_sample->0,
            self.source(imu)->0,
            self.pending is None,
        )
    }

    pub open spec fn cut(self, imu: Seq<ImuInterval<P>>, stop: SessionTime) -> SessionTime {
        if self.source(imu)->0.end.ns < stop.ns {
            self.source(imu)->0.end
        } else {
            stop
        }
    }

    pub open spec fn split(self, imu: Seq<ImuInterval<P>>, stop: SessionTime) -> Result<
        (ImuInterval<P>, Option<ImuInterval<P>>),
        LiveCoreError,
    > {
        split_verdict(self.source(imu)->0, self.cut(imu, stop))
    }

    pub open spec fn links(self, imu: Seq<ImuInterval<P>>, stop: SessionTime) -> PieceLinks {
        let piece = self.split(imu, stop)->Ok_0.0;
        let tail = self.split(imu, stop)->Ok_0.1;
        PieceLinks {
            continues_previous_sample: self.continues(imu),
            gap_active_after_piece: piece.is_gap() && tail is Some,
            sample_active_after_piece: self.cut(imu, stop) == stop,
        }
    }

    /// Why the next slice cannot be paid for, if it cannot.
    pub open spec fn payment_error(self, credits: int) -> Option<LiveCoreError> {
        if self.piece_count == MAX_PROPAGATION_SLICES {
            Some(LiveCoreError::Preintegration(PreintegrationError::BatchCapacity))
        } else if credits < MIN_PROPAGATION_CREDITS {
            Some(LiveCoreError::PlanningQuotaExhausted)
        } else {
            None
        }
    }

    /// Why the next slice cannot be used, if it cannot.
    pub open spec fn slice_error(
        self,
        imu: Seq<ImuInterval<P>>,
        stop: SessionTime,
        gap_model: GapModel<P>,
    ) -> Option<LiveCoreError> {
        if self.source(imu) is None || self.source(imu)->0.start != self.cursor {
            Some(LiveCoreError::MissingImuSupport)
        } else {
            match self.split(imu, stop) {
                Err(error) => Some(error),
                Ok((piece, tail)) => {
                    let verdict = if piece.is_gap() {
                        self.ledger.gap_piece_verdict(piece, true, gap_model)
                    } else {
                        self.ledger.piece_verdict(piece, true, None)
                    };
                    match verdict {
                        Err(error) => Some(LiveCoreError::Preintegration(error)),
                        Ok(_) => None,
                    }
                },
            }
        }
    }

    pub open spec fn model_for(piece: ImuInterval<P>, gap_model: GapModel<P>) -> Option<
        GapModel<P>,
    > {
        if piece.is_gap() {
            Some(gap_model)
        } else {
            None
        }
    }

    /// The next slice.
    pub open spec fn slice(
        self,
        imu: Seq<ImuInterval<P>>,
        stop: SessionTime,
        gap_model: GapModel<P>,
    ) -> PlannedPiece<P> {
        let piece = self.split(imu, stop)->Ok_0.0;
        PlannedPiece {
            piece,
            step: self.ledger.piece_step(
                piece,
                Self::model_for(piece, gap_model),
                self.links(imu, stop),
            ),
        }
    }

    /// The plan after its next slice.
    pub open spec fn advanced(
        self,
        imu: Seq<ImuInterval<P>>,
        stop: SessionTime,
        gap_model: GapModel<P>,
    ) -> Self {
        let source = self.source(imu)->0;
        let piece = self.split(imu, stop)->Ok_0.0;
        let tail = self.split(imu, stop)->Ok_0.1;
        PlanCursor {
            cursor: self.cut(imu, stop),
            piece_count: (self.piece_count + 1) as usize,
            ring_entries: (if self.pending is Some {
                self.ring_entries as int
            } else {
                self.ring_entries + 1
            }) as usize,
            pending: None,
            remainder: if tail is Some {
                tail
            } else {
                self.remainder
            },
            last_piece: Some(piece),
            current_sample: Some(
                source.spec_sample_from(
                    if self.continues(imu) {
                        self.current_sample->0.support_start
                    } else {
                        source.start
                    },
                ),
            ),
            previous_sample: if self.continues(imu) {
                self.previous_sample
            } else {
                self.current_sample
            },
            ledger: self.ledger.with_piece(
                piece,
                Self::model_for(piece, gap_model),
                self.links(imu, stop),
            ),
        }
    }

    /// Uses the next slice.
    fn take_slice(
        &mut self,
        imu: &FixedRing<ImuInterval<P>, IMU_HISTORY_CAPACITY>,
        stop: SessionTime,
        gap_model: GapModel<P>,
    ) -> (r: Result<PlannedPiece<P>, LiveCoreError>)
        requires
            comparable::<P>(),
            imu.wf(),
            old(self).ring_entries <= imu@.len() <= IMU_HISTORY_CAPACITY,
            old(self).piece_count < MAX_PROPAGATION_SLICES,
            old(self).ledger.sample_count <= MAX_BATCH_SAMPLES,
        ensures
            match old(self).slice_error(imu@, stop, gap_model) {
                Some(error) => r == Err::<PlannedPiece<P>, LiveCoreError>(error),
                None => r == Ok::<PlannedPiece<P>, LiveCoreError>(
                    old(self).slice(imu@, stop, gap_model),
                ) && *final(self) == old(self).advanced(imu@, stop, gap_model),
            },
    {
        let from_ring = self.pending.is_none();
        let source = match self.pending {
            Some(interval) => interval,
            None => match imu.get(self.ring_entries) {
                None => {
                    return Err(LiveCoreError::MissingImuSupport);
                },
                Some(interval) => *interval,
            },
        };
        if source.start != self.cursor {
            return Err(LiveCoreError::MissingImuSupport);
        }
        let mut continues = false;
        let mut sample_start = source.start;
        if let Some(sample) = self.current_sample {
            if check_continues(sample, &source, from_ring) {
                continues = true;
                sample_start = sample.support_start;
            }
        }
        let cut = if source.end.ns < stop.ns {
            source.end
        } else {
            stop
        };
        let (piece, tail) = match split_interval(source, cut) {
            Err(error) => {
                return Err(error);
            },
            Ok(parts) => parts,
        };
        let pushed = if piece.is_gap() {
            self.ledger.push_gap_piece(
                piece,
                true,
                gap_model,
                continues,
                tail.is_some(),
                cut == stop,
            )
        } else {
            self.ledger.push_piece(piece, true, continues, cut == stop)
        };
        let step = match pushed {
            Err(error) => {
                return Err(LiveCoreError::Preintegration(error));
            },
            Ok(step) => step,
        };
        if from_ring {
            self.ring_entries = self.ring_entries + 1;
        }
        self.pending = None;
        if !continues {
            self.previous_sample = self.current_sample;
        }
        self.current_sample = Some(source.sample_from(sample_start));
        self.last_piece = Some(piece);
        self.piece_count = self.piece_count + 1;
        self.cursor = cut;
        if tail.is_some() {
            self.remainder = tail;
        }
        Ok(PlannedPiece { piece, step })
    }

    /// Evidence that the plan has not used.
    pub open spec fn rest(self, imu: Seq<ImuInterval<P>>) -> Seq<ImuInterval<P>> {
        let ahead = imu.subrange(self.ring_entries as int, imu.len() as int);
        if self.pending is Some {
            seq![self.pending->0] + ahead
        } else if self.remainder is Some {
            seq![self.remainder->0] + ahead
        } else {
            ahead
        }
    }
}

/// The outcome of planning, and the credits that are left.
#[verifier::ext_equal]
pub struct PlanRun<P: Payload> {
    pub outcome: Result<(PlanCursor<P>, Seq<PlannedPiece<P>>), LiveCoreError>,
    pub credits: int,
}

/// Plans slice after slice until `stop`. A slice is paid for before its
/// evidence is looked at, and only while the price of the filter propagation
/// remains in reserve.
pub open spec fn plan_run<P: Payload>(
    cursor: PlanCursor<P>,
    pieces: Seq<PlannedPiece<P>>,
    imu: Seq<ImuInterval<P>>,
    stop: SessionTime,
    gap_model: GapModel<P>,
    credits: int,
) -> PlanRun<P>
    decreases MAX_PROPAGATION_SLICES - cursor.piece_count,
{
    if cursor.cursor.ns >= stop.ns {
        PlanRun { outcome: Ok((cursor, pieces)), credits }
    } else if cursor.payment_error(credits) is Some {
        PlanRun { outcome: Err(cursor.payment_error(credits)->0), credits }
    } else if cursor.slice_error(imu, stop, gap_model) is Some {
        PlanRun {
            outcome: Err(cursor.slice_error(imu, stop, gap_model)->0),
            credits: credits - 1,
        }
    } else if cursor.piece_count >= MAX_PROPAGATION_SLICES {
        PlanRun { outcome: Ok((cursor, pieces)), credits }
    } else {
        plan_run(
            cursor.advanced(imu, stop, gap_model),
            pieces.push(cursor.slice(imu, stop, gap_model)),
            imu,
            stop,
            gap_model,
            credits - 1,
        )
    }
}

/// The sample before the active one, at the start of a plan.
pub open spec fn initial_previous<P: Payload>(
    state: LiveCoreState<P>,
    active: Option<CorrectedImuSample<P>>,
) -> Option<CorrectedImuSample<P>> {
    let last = state.corrected_epoch_kinematics;
    if last is Some && active is Some && last->0.support_end == active->0.support_start
        && !active->0.shares_latent(last->0) {
        last
    } else {
        state.previous_corrected_kinematics
    }
}

/// Where planning starts.
pub open spec fn initial_cursor<P: Payload>(
    state: LiveCoreState<P>,
    active: Option<CorrectedImuSample<P>>,
) -> PlanCursor<P> {
    PlanCursor {
        cursor: state.filter.time,
        piece_count: 0,
        ring_entries: 0,
        pending: state.corrected_pending_interval,
        remainder: None,
        last_piece: None,
        current_sample: active,
        previous_sample: initial_previous(state, active),
        ledger: BatchLedger::empty_at(state.filter.time),
    }
}

/// The complete planning of a propagation to `stop`. A stop that is not ahead of
/// the filter has no evidence.
pub open spec fn planning<P: Payload>(
    state: LiveCoreState<P>,
    history: LiveCoreHistory<P>,
    stop: SessionTime,
    credits: int,
) -> PlanRun<P> {
    if credits < MIN_PROPAGATION_CREDITS {
        PlanRun { outcome: Err(LiveCoreError::PlanningQuotaExhausted), credits }
    } else if stop.ns <= state.filter.time.ns {
        PlanRun { outcome: Err(LiveCoreError::MissingImuSupport), credits }
    } else {
        let run = plan_run(
            initial_cursor(state, history.active_imu_sample),
            Seq::empty(),
            history.imu@,
            stop,
            state.gap_model,
            credits,
        );
        if run.outcome is Ok && run.outcome->Ok_0.0.ledger.poisoned {
            PlanRun {
                outcome: Err(LiveCoreError::Preintegration(PreintegrationError::NonFinite)),
                credits: run.credits,
            }
        } else {
            run
        }
    }
}

/// Whether `plan` is what planning came to.
pub open spec fn is_planned<P: Payload>(
    plan: PropagationPlan<P>,
    stop: SessionTime,
    cursor: PlanCursor<P>,
    pieces: Seq<PlannedPiece<P>>,
) -> bool {
    &&& plan.stop == stop
    &&& plan.pieces.wf()
    &&& plan.pieces@ == pieces
    &&& plan.ring_entries == cursor.ring_entries
    &&& plan.remainder == cursor.remainder
    &&& cursor.last_piece == Some(plan.last_piece)
    &&& cursor.current_sample == Some(plan.last_sample)
    &&& plan.previous_sample == cursor.previous_sample
    &&& plan.ledger == cursor.ledger
}

/// What the rest of the evidence looks like once a plan has been carried out.
pub open spec fn rest_after<P: Payload>(
    imu: Seq<ImuInterval<P>>,
    plan: PropagationPlan<P>,
) -> Seq<ImuInterval<P>> {
    let ahead = imu.subrange(plan.ring_entries as int, imu.len() as int);
    match plan.remainder {
        Some(remainder) => seq![remainder] + ahead,
        None => ahead,
    }
}

/// Whether the filter may be propagated to `stop` now: ahead of it, and past no
/// deadline, target or observation.
pub open spec fn stop_is_due<P: Payload>(state: LiveCoreState<P>, stop: SessionTime) -> bool {
    &&& state.filter.time.ns < stop.ns <= state.next_corrected_deadline.ns
    &&& state.scheduler@.target() is Ok
    &&& stop.ns <= state.scheduler@.target()->Ok_0.ns
    &&& forall|i: int|
        0 <= i < state.queue().len() ==> (#[trigger] state.queue()[i]).key.time.ns >= stop.ns
}

/// What holds of a complete plan: it uses exactly the evidence up to its stop
/// and leaves the rest without a hole.
pub open spec fn plan_ok<P: Payload>(
    state: LiveCoreState<P>,
    history: LiveCoreHistory<P>,
    plan: PropagationPlan<P>,
) -> bool {
    &&& stop_is_due(state, plan.stop)
    &&& plan.ring_entries <= history.imu@.len()
    &&& supports(rest_after(history.imu@, plan), plan.stop, state.evidence_end())
    &&& plan.pieces.wf()
    &&& 0 < plan.pieces@.len() <= MAX_PROPAGATION_SLICES
    &&& plan.ledger.sample_count == plan.pieces@.len()
    &&& plan.ledger.start == state.filter.time
    &&& plan.ledger.end == plan.stop
    &&& !plan.ledger.poisoned
    &&& plan.last_sample.support_start.ns <= plan.stop.ns <= plan.last_sample.support_end.ns
}

/// What holds in the middle of planning.
spec fn cursor_ok<P: Payload>(
    cursor: PlanCursor<P>,
    imu: Seq<ImuInterval<P>>,
    start: SessionTime,
    stop: SessionTime,
    end: SessionTime,
) -> bool {
    &&& cursor.ring_entries <= imu.len() <= IMU_HISTORY_CAPACITY
    &&& start.ns <= cursor.cursor.ns <= stop.ns <= end.ns
    &&& cursor.cursor.ns < stop.ns ==> cursor.remainder is None
    &&& cursor.pending is Some ==> cursor.remainder is None
    &&& supports(cursor.rest(imu), cursor.cursor, end)
    &&& cursor.current_sample is Some ==> cursor.current_sample->0.support_start.ns
        <= cursor.cursor.ns
    &&& cursor.piece_count <= MAX_PROPAGATION_SLICES
    &&& cursor.ledger.sample_count == cursor.piece_count
    &&& cursor.ledger.start == start
    &&& cursor.ledger.end == cursor.cursor
    &&& if cursor.piece_count == 0 {
        cursor.cursor == start
    } else {
        &&& cursor.pending is None
        &&& cursor.last_piece is Some
        &&& cursor.current_sample is Some
        &&& cursor.cursor.ns <= cursor.current_sample->0.support_end.ns
    }
}

/// What holds in the middle of planning to any stop.
spec fn cursor_fits<P: Payload>(
    cursor: PlanCursor<P>,
    imu: Seq<ImuInterval<P>>,
    start: SessionTime,
) -> bool {
    &&& cursor.ring_entries <= imu.len() <= IMU_HISTORY_CAPACITY
    &&& cursor.piece_count <= MAX_PROPAGATION_SLICES
    &&& cursor.ledger.sample_count == cursor.piece_count
    &&& if cursor.piece_count == 0 {
        cursor.cursor == start
    } else {
        cursor.last_piece is Some && cursor.current_sample is Some
    }
}

/// A slice that can be used keeps the plan within its bounds.
proof fn slice_keeps_cursor_fitting<P: Payload>(
    cursor: PlanCursor<P>,
    imu: Seq<ImuInterval<P>>,
    start: SessionTime,
    stop: SessionTime,
    gap_model: GapModel<P>,
)
    requires
        cursor_fits(cursor, imu, start),
        cursor.piece_count < MAX_PROPAGATION_SLICES,
        cursor.slice_error(imu, stop, gap_model) is None,
    ensures
        cursor_fits(cursor.advanced(imu, stop, gap_model), imu, start),
{
    let piece = cursor.split(imu, stop)->Ok_0.0;
    accepted_piece_extends_batch(
        cursor.ledger,
        piece,
        true,
        PlanCursor::model_for(piece, gap_model),
        cursor.links(imu, stop),
    );
}

/// A slice that can be used keeps the plan in order, and evidence is never
/// missing.
proof fn slice_keeps_cursor_ok<P: Payload>(
    cursor: PlanCursor<P>,
    imu: Seq<ImuInterval<P>>,
    start: SessionTime,
    stop: SessionTime,
    end: SessionTime,
    gap_model: GapModel<P>,
)
    requires
        cursor_ok(cursor, imu, start, stop, end),
        cursor.cursor.ns < stop.ns,
        cursor.piece_count < MAX_PROPAGATION_SLICES,
    ensures
        cursor.source(imu) is Some,
        cursor.source(imu)->0.start == cursor.cursor,
        cursor.slice_error(imu, stop, gap_model) is None ==> cursor_ok(
            cursor.advanced(imu, stop, gap_model),
            imu,
            start,
            stop,
            end,
        ),
{
    let rest = cursor.rest(imu);
    assert(rest.len() > 0);
    let source = rest[0];
    assert(source.verdict() is Ok);
    if cursor.pending is None {
        assert(source == imu[cursor.ring_entries as int]);
    }
    assert(cursor.source(imu) == Some(source));
    if cursor.slice_error(imu, stop, gap_model) is None {
        let next = cursor.advanced(imu, stop, gap_model);
        let piece = cursor.split(imu, stop)->Ok_0.0;
        let tail = cursor.split(imu, stop)->Ok_0.1;
        let ahead = rest.subrange(1, rest.len() as int);
        accepted_piece_extends_batch(
            cursor.ledger,
            piece,
            true,
            PlanCursor::model_for(piece, gap_model),
            cursor.links(imu, stop),
        );
        dropping_first_keeps_support(rest, cursor.cursor, end);
        assert(ahead =~= imu.subrange(next.ring_entries as int, imu.len() as int));
        if tail is Some {
            crate::imu::split_partitions_support(source, stop);
            let single = seq![tail->0];
            assert(supports(single, stop, source.end));
            crate::live_core::staging::joining_support(single, ahead, stop, source.end, end);
            assert(next.rest(imu) =~= single + ahead);
        } else {
            assert(next.rest(imu) =~= ahead);
        }
    }
}

proof fn dropping_first_keeps_support<P: Payload>(
    chain: Seq<ImuInterval<P>>,
    start: SessionTime,
    end: SessionTime,
)
    requires
        supports(chain, start, end),
        chain.len() > 0,
    ensures
        supports(chain.subrange(1, chain.len() as int), chain[0].end, end),
{
    let rest = chain.subrange(1, chain.len() as int);
    assert forall|i: int| 0 <= i < rest.len() implies (#[trigger] rest[i]).verdict() is Ok by {
        assert(rest[i] == chain[i + 1]);
    }
    assert forall|i: int, j: int|
        #![trigger rest[i], rest[j]]
        0 <= i && j == i + 1 && j < rest.len() implies rest[i].end == rest[j].start by {
        assert(rest[i] == chain[i + 1] && rest[j] == chain[j + 1]);
    }
    if rest.len() > 0 {
        assert(chain[0].end == chain[1].start);
    }
}

impl<P: Payload> LiveCore<P> {
    /// Plans a propagation to any `stop` without changing the core. Only the
    /// credits of the slices that were looked at are spent, and the price of
    /// the propagation itself stays in reserve.
    pub fn plan_propagation(&self, stop: SessionTime, quota: &mut WorkQuota) -> (r: Result<
        PropagationPlan<P>,
        LiveCoreError,
    >)
        requires
            self.settled(),
        ensures
            final(quota).remaining == planning(
                self.state,
                self.history,
                stop,
                old(quota).remaining as int,
            ).credits,
            match planning(self.state, self.history, stop, old(quota).remaining as int).outcome {
                Err(error) => r == Err::<PropagationPlan<P>, LiveCoreError>(error),
                Ok((cursor, pieces)) => {
                    &&& r is Ok
                    &&& is_planned(r->Ok_0, stop, cursor, pieces)
                    &&& stop_is_due(self.state, stop) ==> plan_ok(
                        self.state,
                        self.history,
                        r->Ok_0,
                    )
                },
            },
            r matches Ok(plan) ==> final(quota).remaining == old(quota).remaining
                - plan.pieces@.len() && final(quota).remaining >= FILTER_PROPAGATION_CREDITS,
            r == Err::<PropagationPlan<P>, LiveCoreError>(LiveCoreError::PlanningQuotaExhausted)
                ==> final(quota).remaining == (if old(quota).remaining
                < FILTER_PROPAGATION_CREDITS {
                old(quota).remaining
            } else {
                FILTER_PROPAGATION_CREDITS
            }),
    {
        if quota.remaining() < MIN_PROPAGATION_CREDITS {
            return Err(LiveCoreError::PlanningQuotaExhausted);
        }
        if stop.ns <= self.state.filter.time.ns {
            return Err(LiveCoreError::MissingImuSupport);
        }
        let mut previous_sample = self.state.previous_corrected_kinematics;
        if let (Some(last), Some(active)) = (
            self.state.corrected_epoch_kinematics,
            self.history.active_imu_sample,
        ) {
            if last.support_end == active.support_start && !active.same_latent_as(last) {
                previous_sample = Some(last);
            }
        }
        let ledger = match BatchLedger::new(self.state.filter.time, true) {
            Err(error) => {
                return Err(LiveCoreError::Preintegration(error));
            },
            Ok(ledger) => ledger,
        };
        let mut cursor = PlanCursor {
            cursor: self.state.filter.time,
            piece_count: 0,
            ring_entries: 0,
            pending: self.state.corrected_pending_interval,
            remainder: None,
            last_piece: None,
            current_sample: self.history.active_imu_sample,
            previous_sample,
            ledger,
        };
        let mut pieces: FixedRing<PlannedPiece<P>, MAX_PROPAGATION_SLICES> = FixedRing::new();
        let ghost start = self.state.filter.time;
        let ghost end = self.state.evidence_end();
        let ghost imu = self.history.imu@;
        let ghost run = plan_run(
            cursor,
            Seq::empty(),
            imu,
            stop,
            self.state.gap_model,
            quota.remaining as int,
        );
        proof {
            self.state.scheduler.wf_facts();
            self.history.imu.wf_facts();
            assert(imu.subrange(0, imu.len() as int) =~= imu);
            assert(cursor.rest(imu) =~= evidence(self.state, self.history));
            assert(stop_is_due(self.state, stop) ==> cursor_ok(cursor, imu, start, stop, end));
        }
        while cursor.cursor.ns < stop.ns
            invariant
                self.settled(),
                imu == self.history.imu@,
                imu.len() <= IMU_HISTORY_CAPACITY,
                start == self.state.filter.time,
                end == self.state.evidence_end(),
                start.ns < stop.ns,
                cursor_fits(cursor, imu, start),
                stop_is_due(self.state, stop) ==> cursor_ok(cursor, imu, start, stop, end),
                pieces.wf(),
                pieces@.len() == cursor.piece_count,
                quota.remaining == old(quota).remaining - cursor.piece_count,
                run == plan_run(
                    cursor,
                    pieces@,
                    imu,
                    stop,
                    self.state.gap_model,
                    quota.remaining as int,
                ),
                quota.remaining >= 8,
                planning(self.state, self.history, stop, old(quota).remaining as int) == (
                if run.outcome is Ok && run.outcome->Ok_0.0.ledger.poisoned {
                    PlanRun {
                        outcome: Err(LiveCoreError::Preintegration(PreintegrationError::NonFinite)),
                        credits: run.credits,
                    }
                } else {
                    run
                }),
            decreases MAX_PROPAGATION_SLICES - cursor.piece_count,
        {
            if cursor.piece_count == MAX_PROPAGATION_SLICES {
                return Err(LiveCoreError::Preintegration(PreintegrationError::BatchCapacity));
            }
            if quota.remaining() < MIN_PROPAGATION_CREDITS {
                return Err(LiveCoreError::PlanningQuotaExhausted);
            }
            if !quota.take(IMU_SLICE_CREDITS) {
                return Err(LiveCoreError::InternalInvariant);
            }
            proof {
                if stop_is_due(self.state, stop) {
                    slice_keeps_cursor_ok(cursor, imu, start, stop, end, self.state.gap_model);
                }
                if cursor.slice_error(imu, stop, self.state.gap_model) is None {
                    slice_keeps_cursor_fitting(cursor, imu, start, stop, self.state.gap_model);
                }
            }
            match cursor.take_slice(&self.history.imu, stop, self.state.gap_model) {
                Err(error) => {
                    return Err(error);
                },
                Ok(slice) => {
                    let recorded = pieces.push_back(slice);
                },
            }
        }
        if cursor.ledger.poisoned {
            return Err(LiveCoreError::Preintegration(PreintegrationError::NonFinite));
        }
        match (cursor.last_piece, cursor.current_sample) {
            (Some(last_piece), Some(last_sample)) => {
                let plan = PropagationPlan {
                    stop,
                    pieces,
                    ring_entries: cursor.ring_entries,
                    remainder: cursor.remainder,
                    last_piece,
                    last_sample,
                    previous_sample: cursor.previous_sample,
                    ledger: cursor.ledger,
                };
                assert(stop_is_due(self.state, stop) ==> rest_after(imu, plan) =~= cursor.rest(
                    imu,
                ));
                Ok(plan)
            },
            _ => Err(LiveCoreError::MissingImuSupport),
        }
    }
}

/// Planning that is not cut short comes to the same plan, at the same price,
/// however many credits there were.
pub proof fn planning_is_independent_of_credits<P: Payload>(
    state: LiveCoreState<P>,
    history: LiveCoreHistory<P>,
    stop: SessionTime,
    first: int,
    second: int,
)
    requires
        !(planning(state, history, stop, first).outcome matches Err(
            LiveCoreError::PlanningQuotaExhausted,
        )),
        !(planning(state, history, stop, second).outcome matches Err(
            LiveCoreError::PlanningQuotaExhausted,
        )),
    ensures
        planning(state, history, stop, first).outcome == planning(
            state,
            history,
            stop,
            second,
        ).outcome,
        first - planning(state, history, stop, first).credits == second - planning(
            state,
            history,
            stop,
            second,
        ).credits,
{
    run_is_independent_of_credits(
        initial_cursor(state, history.active_imu_sample),
        Seq::empty(),
        history.imu@,
        stop,
        state.gap_model,
        first,
        second,
    );
}

/// Planning is never cut short where every slice of the longest plan can be paid
/// for.
pub proof fn planning_is_never_starved<P: Payload>(
    state: LiveCoreState<P>,
    history: LiveCoreHistory<P>,
    stop: SessionTime,
    credits: int,
)
    requires
        credits >= MAX_PROPAGATION_SLICES + FILTER_PROPAGATION_CREDITS,
    ensures
        !(planning(state, history, stop, credits).outcome matches Err(
            LiveCoreError::PlanningQuotaExhausted,
        )),
{
    run_is_never_starved(
        initial_cursor(state, history.active_imu_sample),
        Seq::empty(),
        history.imu@,
        stop,
        state.gap_model,
        credits,
    );
}

proof fn run_is_never_starved<P: Payload>(
    cursor: PlanCursor<P>,
    pieces: Seq<PlannedPiece<P>>,
    imu: Seq<ImuInterval<P>>,
    stop: SessionTime,
    gap_model: GapModel<P>,
    credits: int,
)
    requires
        cursor.piece_count <= MAX_PROPAGATION_SLICES,
        credits + cursor.piece_count >= MAX_PROPAGATION_SLICES + FILTER_PROPAGATION_CREDITS,
    ensures
        !(plan_run(cursor, pieces, imu, stop, gap_model, credits).outcome matches Err(
            LiveCoreError::PlanningQuotaExhausted,
        )),
    decreases MAX_PROPAGATION_SLICES - cursor.piece_count,
{
    if cursor.cursor.ns < stop.ns && cursor.payment_error(credits) is None && cursor.slice_error(
        imu,
        stop,
        gap_model,
    ) is None && cursor.piece_count < MAX_PROPAGATION_SLICES {
        run_is_never_starved(
            cursor.advanced(imu, stop, gap_model),
            pieces.push(cursor.slice(imu, stop, gap_model)),
            imu,
            stop,
            gap_model,
            credits - 1,
        );
    }
}

proof fn run_is_independent_of_credits<P: Payload>(
    cursor: PlanCursor<P>,
    pieces: Seq<PlannedPiece<P>>,
    imu: Seq<ImuInterval<P>>,
    stop: SessionTime,
    gap_model: GapModel<P>,
    first: int,
    second: int,
)
    requires
        !(plan_run(cursor, pieces, imu, stop, gap_model, first).outcome matches Err(
            LiveCoreError::PlanningQuotaExhausted,
        )),
        !(plan_run(cursor, pieces, imu, stop, gap_model, second).outcome matches Err(
            LiveCoreError::PlanningQuotaExhausted,
        )),
    ensures
        plan_run(cursor, pieces, imu, stop, gap_model, first).outcome == plan_run(
            cursor,
            pieces,
            imu,
            stop,
            gap_model,
            second,
        ).outcome,
        first - plan_run(cursor, pieces, imu, stop, gap_model, first).credits == second - plan_run(
            cursor,
            pieces,
            imu,
            stop,
            gap_model,
            second,
        ).credits,
    decreases MAX_PROPAGATION_SLICES - cursor.piece_count,
{
    if cursor.cursor.ns < stop.ns && cursor.payment_error(first) is None && cursor.payment_error(
        second,
    ) is None && cursor.slice_error(imu, stop, gap_model) is None && cursor.piece_count
        < MAX_PROPAGATION_SLICES {
        run_is_independent_of_credits(
            cursor.advanced(imu, stop, gap_model),
            pieces.push(cursor.slice(imu, stop, gap_model)),
            imu,
            stop,
            gap_model,
            first - 1,
            second - 1,
        );
    }
}

/// Planning within the evidence never finds any missing.
pub proof fn evidence_is_never_missing<P: Payload>(
    state: LiveCoreState<P>,
    history: LiveCoreHistory<P>,
    stop: SessionTime,
    credits: int,
)
    requires
        settled(state, history),
        state.scheduler@.target() is Ok,
        state.filter.time.ns < stop.ns <= state.scheduler@.target()->Ok_0.ns,
    ensures
        !(planning(state, history, stop, credits).outcome matches Err(
            LiveCoreError::MissingImuSupport,
        )),
{
    let imu = history.imu@;
    let cursor = initial_cursor(state, history.active_imu_sample);
    state.scheduler.wf_facts();
    history.imu.wf_facts();
    assert(imu.subrange(0, imu.len() as int) =~= imu);
    assert(cursor.rest(imu) =~= evidence(state, history));
    run_never_misses_evidence(
        cursor,
        Seq::empty(),
        imu,
        state.filter.time,
        stop,
        state.evidence_end(),
        state.gap_model,
        credits,
    );
}

proof fn run_never_misses_evidence<P: Payload>(
    cursor: PlanCursor<P>,
    pieces: Seq<PlannedPiece<P>>,
    imu: Seq<ImuInterval<P>>,
    start: SessionTime,
    stop: SessionTime,
    end: SessionTime,
    gap_model: GapModel<P>,
    credits: int,
)
    requires
        cursor_ok(cursor, imu, start, stop, end),
    ensures
        !(plan_run(cursor, pieces, imu, stop, gap_model, credits).outcome matches Err(
            LiveCoreError::MissingImuSupport,
        )),
    decreases MAX_PROPAGATION_SLICES - cursor.piece_count,
{
    if cursor.cursor.ns < stop.ns && cursor.piece_count < MAX_PROPAGATION_SLICES {
        slice_keeps_cursor_ok(cursor, imu, start, stop, end, gap_model);
        if cursor.slice_error(imu, stop, gap_model) is None {
            run_never_misses_evidence(
                cursor.advanced(imu, stop, gap_model),
                pieces.push(cursor.slice(imu, stop, gap_model)),
                imu,
                start,
                stop,
                end,
                gap_model,
                credits - 1,
            );
        }
    }
}

/// Whether `piece` is `whole` between two instants of it: the same measurement, the same
/// installation, the same gap.
pub open spec fn is_cut_from<P: Payload>(piece: ImuInterval<P>, whole: ImuInterval<P>) -> bool {
    &&& whole.start.ns <= piece.start.ns < piece.end.ns <= whole.end.ns
    &&& piece.omega_ib_b == whole.omega_ib_b
    &&& piece.specific_force_b == whole.specific_force_b
    &&& piece.sample_covariance == whole.sample_covariance
    &&& piece.body_from_sensor == whole.body_from_sensor
    &&& piece.degraded_input == whole.degraded_input
    &&& piece.calibration_consider_start == whole.calibration_consider_start
    &&& (piece.gap_elapsed_ns_plus_one > 0) == (whole.gap_elapsed_ns_plus_one > 0)
}

/// Whether some of the pieces bridge a gap.
pub open spec fn bridges_gap<P: Payload>(pieces: Seq<PlannedPiece<P>>) -> bool {
    exists|i: int| 0 <= i < pieces.len() && (#[trigger] pieces[i]).piece.gap_elapsed_ns_plus_one > 0
}

/// Whether some of the pieces come from degraded input.
pub open spec fn has_degraded_input<P: Payload>(pieces: Seq<PlannedPiece<P>>) -> bool {
    exists|i: int| 0 <= i < pieces.len() && (#[trigger] pieces[i]).piece.degraded_input
}

/// Whether the pieces lead from `start` to `end` without a hole.
pub open spec fn leads<P: Payload>(
    pieces: Seq<PlannedPiece<P>>,
    start: SessionTime,
    end: SessionTime,
) -> bool {
    &&& pieces.len() == 0 ==> start == end
    &&& pieces.len() > 0 ==> pieces[0].piece.start == start && pieces.last().piece.end == end
    &&& forall|i: int, j: int|
        #![trigger pieces[i], pieces[j]]
        0 <= i && j == i + 1 && j < pieces.len() ==> pieces[i].piece.end == pieces[j].piece.start
}

/// Whether every piece is cut from the evidence.
pub open spec fn comes_from<P: Payload>(
    pieces: Seq<PlannedPiece<P>>,
    imu: Seq<ImuInterval<P>>,
    cut: Option<ImuInterval<P>>,
) -> bool {
    forall|i: int|
        0 <= i < pieces.len() ==> (cut is Some && is_cut_from(
            (#[trigger] pieces[i]).piece,
            cut->0,
        )) || exists|k: int|
            0 <= k < imu.len() && is_cut_from(pieces[i].piece, #[trigger] imu[k])
}

/// A plan covers exactly the time from the filter's epoch to its stop, piece after piece,
/// and each piece is cut from the retained evidence. It is degraded exactly if one of its
/// pieces bridges a gap, and its input is degraded exactly if that of a piece is. Each
/// piece costs one credit, and eight are left for the filter.
pub proof fn plans_cover_the_time_to_their_stop<P: Payload>(
    core: LiveCore<P>,
    stop: SessionTime,
    quota: &mut WorkQuota,
    plan: PropagationPlan<P>,
)
    requires
        call_ensures(
            LiveCore::<P>::plan_propagation,
            (&core, stop, quota),
            Ok::<PropagationPlan<P>, LiveCoreError>(plan),
        ),
    ensures
        plan.stop == stop,
        plan.pieces@.len() > 0,
        leads(plan.pieces@, core.state.filter.time, stop),
        comes_from(plan.pieces@, core.history.imu@, core.state.corrected_pending_interval),
        plan.last_piece == plan.pieces@.last().piece,
        plan.ledger.degraded == bridges_gap(plan.pieces@),
        plan.ledger.degraded_input == has_degraded_input(plan.pieces@),
        old(quota).remaining - final(quota).remaining == plan.pieces@.len(),
        final(quota).remaining >= 8,
{
    let cursor = initial_cursor(core.state, core.history.active_imu_sample);
    run_keeps_pieces(
        cursor,
        Seq::empty(),
        core.history.imu@,
        core.state.corrected_pending_interval,
        core.state.filter.time,
        stop,
        core.state.gap_model,
        old(quota).remaining as int,
    );
}

spec fn pieces_fit<P: Payload>(
    cursor: PlanCursor<P>,
    pieces: Seq<PlannedPiece<P>>,
    imu: Seq<ImuInterval<P>>,
    cut: Option<ImuInterval<P>>,
    start: SessionTime,
    stop: SessionTime,
) -> bool {
    &&& leads(pieces, start, cursor.cursor)
    &&& comes_from(pieces, imu, cut)
    &&& cursor.ledger.degraded == bridges_gap(pieces)
    &&& cursor.ledger.degraded_input == has_degraded_input(pieces)
    &&& pieces.len() > 0 ==> cursor.last_piece == Some(pieces.last().piece)
    &&& cursor.cursor.ns <= stop.ns
    &&& cursor.pending is Some ==> cursor.pending == cut
    &&& cursor.piece_count <= MAX_PROPAGATION_SLICES
}

proof fn run_keeps_pieces<P: Payload>(
    cursor: PlanCursor<P>,
    pieces: Seq<PlannedPiece<P>>,
    imu: Seq<ImuInterval<P>>,
    cut: Option<ImuInterval<P>>,
    start: SessionTime,
    stop: SessionTime,
    gap_model: GapModel<P>,
    credits: int,
)
    requires
        pieces_fit(cursor, pieces, imu, cut, start, stop),
    ensures
        plan_run(cursor, pieces, imu, stop, gap_model, credits).outcome matches Ok((end, planned))
            ==> pieces_fit(end, planned, imu, cut, start, stop) && end.cursor == stop,
    decreases MAX_PROPAGATION_SLICES - cursor.piece_count,
{
    if cursor.cursor.ns < stop.ns && cursor.payment_error(credits) is None && cursor.slice_error(
        imu,
        stop,
        gap_model,
    ) is None {
        let slice = cursor.slice(imu, stop, gap_model);
        let next = cursor.advanced(imu, stop, gap_model);
        let grown = pieces.push(slice);
        let source = cursor.source(imu)->0;
        assert(is_cut_from(slice.piece, source));
        assert(comes_from(grown, imu, cut)) by {
            assert forall|i: int| 0 <= i < grown.len() implies (cut is Some && is_cut_from(
                (#[trigger] grown[i]).piece,
                cut->0,
            )) || exists|k: int|
                0 <= k < imu.len() && is_cut_from(grown[i].piece, #[trigger] imu[k]) by {
                if i < pieces.len() {
                    assert(grown[i] == pieces[i]);
                } else if cursor.pending is None {
                    assert(imu[cursor.ring_entries as int] == source);
                }
            }
        }
        assert(leads(grown, start, next.cursor)) by {
            assert forall|i: int, j: int|
                #![trigger grown[i], grown[j]]
                0 <= i && j == i + 1 && j < grown.len() implies grown[i].piece.end
                == grown[j].piece.start by {
                if j < pieces.len() {
                    assert(grown[i] == pieces[i] && grown[j] == pieces[j]);
                } else {
                    assert(pieces.last() == pieces[i]);
                }
            }
        }
        assert(next.ledger.degraded == bridges_gap(grown)) by {
            assert(grown[pieces.len() as int] == slice);
            if bridges_gap(pieces) {
                let i = choose|i: int|
                    0 <= i < pieces.len() && (
                    #[trigger] pieces[i]).piece.gap_elapsed_ns_plus_one > 0;
                assert(grown[i] == pieces[i]);
            }
            if bridges_gap(grown) {
                let i = choose|i: int|
                    0 <= i < grown.len() && (#[trigger] grown[i]).piece.gap_elapsed_ns_plus_one > 0;
                if i < pieces.len() {
                    assert(grown[i] == pieces[i]);
                }
            }
        }
        assert(next.ledger.degraded_input == has_degraded_input(grown)) by {
            assert(grown[pieces.len() as int] == slice);
            if has_degraded_input(pieces) {
                let i = choose|i: int|
                    0 <= i < pieces.len() && (#[trigger] pieces[i]).piece.degraded_input;
                assert(grown[i] == pieces[i]);
            }
            if has_degraded_input(grown) {
                let i = choose|i: int|
                    0 <= i < grown.len() && (#[trigger] grown[i]).piece.degraded_input;
                if i < pieces.len() {
                    assert(grown[i] == pieces[i]);
                }
            }
        }
        run_keeps_pieces(next, grown, imu, cut, start, stop, gap_model, credits - 1);
    }
}

/// A measurement goes on only where its values do. What is left of a cut interval goes on
/// with the sample that ends where it ends; a retained interval goes on with the sample
/// before it only by bridging a gap, or by being the very interval of that sample.
pub proof fn measurements_go_on_with_their_values<P: Payload>(
    sample: CorrectedImuSample<P>,
    source: ImuInterval<P>,
)
    ensures
        ({
            let equal = sample.omega_ib_b.eq_spec(&source.omega_ib_b)
                && sample.specific_force_b.eq_spec(&source.specific_force_b)
                && sample.sample_covariance.eq_spec(&source.sample_covariance);
            let gap = source.gap_elapsed_ns_plus_one > 0;
            let cut = continues_sample(sample, source, false);
            let retained = continues_sample(sample, source, true);
            &&& !equal ==> !cut && !retained
            &&& equal ==> cut == (sample.support_end == source.end && sample.gap == gap)
            &&& equal && gap && sample.support_end == source.start ==> retained
            &&& equal && sample.support_start == source.start && sample.support_end == source.end
                && sample.gap == gap ==> retained
            &&& retained && !gap ==> sample.support_start == source.start && sample.support_end
                == source.end
            &&& retained ==> sample.support_end == source.start || sample.support_end == source.end
        }),
{
}

/// A slice begins where the plan stands and ends with its source or at the stop, whichever
/// is first. The source is what the last propagation left, and the oldest unused interval
/// after that. What the stop cuts off remains. The slice's sample stays open where the
/// plan ends, its gap stays active where some of it remains, and the sample before it is
/// the one that it does not go on with.
pub proof fn slices_use_the_oldest_evidence<P: Payload>(
    cursor: PlanCursor<P>,
    imu: Seq<ImuInterval<P>>,
    stop: SessionTime,
    gap_model: GapModel<P>,
)
    requires
        cursor.cursor.ns < stop.ns,
        cursor.piece_count < MAX_PROPAGATION_SLICES,
        cursor.ring_entries < usize::MAX,
        cursor.slice_error(imu, stop, gap_model) is None,
    ensures
        ({
            let slice = cursor.slice(imu, stop, gap_model);
            let after = cursor.advanced(imu, stop, gap_model);
            let links = cursor.links(imu, stop);
            let source = if cursor.pending is Some {
                cursor.pending->0
            } else {
                imu[cursor.ring_entries as int]
            };
            let goes_on = cursor.current_sample is Some && continues_sample(
                cursor.current_sample->0,
                source,
                cursor.pending is None,
            );
            &&& source.start == cursor.cursor
            &&& slice.piece.start == cursor.cursor
            &&& slice.piece.end == after.cursor
            &&& after.cursor.ns <= stop.ns && after.cursor.ns <= source.end.ns
            &&& after.cursor == stop || after.cursor == source.end
            &&& source.end.ns > stop.ns ==> after.remainder is Some && after.remainder->0.start
                == stop && after.remainder->0.end == source.end && is_cut_from(
                after.remainder->0,
                source,
            )
            &&& source.end.ns <= stop.ns ==> after.remainder == cursor.remainder
            &&& after.pending is None
            &&& after.ring_entries - cursor.ring_entries == (if cursor.pending is Some {
                0int
            } else {
                1
            })
            &&& after.piece_count == cursor.piece_count + 1
            &&& links.continues_previous_sample == goes_on
            &&& links.sample_active_after_piece == (after.cursor == stop)
            &&& links.gap_active_after_piece == (source.gap_elapsed_ns_plus_one > 0
                && source.end.ns > stop.ns)
            &&& after.last_piece == Some(slice.piece)
            &&& after.current_sample is Some && after.current_sample->0.support_end == source.end
            &&& after.current_sample->0.omega_ib_b == source.omega_ib_b
            &&& after.current_sample->0.gap == (source.gap_elapsed_ns_plus_one > 0)
            &&& goes_on ==> after.current_sample->0.support_start
                == cursor.current_sample->0.support_start && after.previous_sample
                == cursor.previous_sample
            &&& !goes_on ==> after.current_sample->0.support_start == source.start
                && after.previous_sample == cursor.current_sample
        }),
{
}

/// Planning begins at the filter's epoch with an empty batch, the rest of a cut interval
/// and the held sample. The sample before that one is the last propagation's, where that
/// is another measurement and ends where the held one begins.
pub proof fn planning_begins_at_the_filter<P: Payload>(
    state: LiveCoreState<P>,
    active: Option<CorrectedImuSample<P>>,
)
    ensures
        ({
            let cursor = initial_cursor(state, active);
            let last = state.corrected_epoch_kinematics;
            &&& cursor.cursor == state.filter.time
            &&& cursor.piece_count == 0 && cursor.ring_entries == 0
            &&& cursor.pending == state.corrected_pending_interval
            &&& cursor.remainder is None
            &&& cursor.current_sample == active
            &&& cursor.ledger.start == state.filter.time && cursor.ledger.sample_count == 0
            &&& last is Some && active is Some && last->0.support_end == active->0.support_start
                && !active->0.shares_latent(last->0) ==> cursor.previous_sample == last
            &&& last is None || active is None || last->0.support_end != active->0.support_start
                || active->0.shares_latent(last->0) ==> cursor.previous_sample
                == state.previous_corrected_kinematics
        }),
{
}

/// With credits for the filter and all slices, a plan fails only for what is wrong with
/// the evidence; with too few it asks for more and leaves the reserve alone. A stop that is
/// not ahead has no evidence.
pub proof fn plans_fail_for_a_reason<P: Payload>(
    core: LiveCore<P>,
    stop: SessionTime,
    quota: &mut WorkQuota,
    answer: Result<PropagationPlan<P>, LiveCoreError>,
)
    requires
        call_ensures(LiveCore::<P>::plan_propagation, (&core, stop, quota), answer),
    ensures
        old(quota).remaining < 9 ==> answer == Err::<PropagationPlan<P>, LiveCoreError>(
            LiveCoreError::PlanningQuotaExhausted,
        ) && final(quota).remaining == old(quota).remaining,
        old(quota).remaining >= 9 && stop.ns <= core.state.filter.time.ns ==> answer == Err::<
            PropagationPlan<P>,
            LiveCoreError,
        >(LiveCoreError::MissingImuSupport),
        answer == Err::<PropagationPlan<P>, LiveCoreError>(LiveCoreError::PlanningQuotaExhausted)
            && old(quota).remaining >= 9 ==> final(quota).remaining == 8,
{
}

} // verus!
