//! What the live core tells its caller.
use vstd::prelude::*;

use crate::capacity::MEASUREMENT_QUEUE_CAPACITY;
use crate::gnss::{GnssQualityUpdate, GnssUpdateOutcome, UpdateDecision};
use crate::order::OrderKey;
use crate::payload::Payload;
use crate::ring::FixedRing;
use crate::time::SessionTime;

verus! {

#[derive(Clone, Copy, Debug, PartialEq, Eq, Structural)]
pub enum IngestDisposition {
    ImuAccepted { stored_intervals: u8, predictor_segments: u8, gap_bridged: bool },
}

/// Why a drain stopped.
#[derive(Clone, Copy, Debug, PartialEq, Eq, Structural)]
pub enum DrainBlock {
    QuotaExhausted,
    AwaitingDelayedFrontier,
    CorrectedHistoryFull,
    Finished,
}

#[derive(Clone, Copy, Debug, PartialEq, Eq, Structural)]
pub struct FinishReport {
    pub terminal_time: SessionTime,
    pub predictor_segment_flushed: bool,
}

/// Numbers of operations in one drain. Each stops counting at its maximum.
#[derive(Clone, Copy, Debug, PartialEq, Eq, Structural)]
pub struct DrainCounters {
    pub imu_slices: u16,
    pub filter_propagations: u16,
    pub gnss_updates: u16,
    pub gnss_fused: u16,
    pub gnss_rejected: u16,
    pub gnss_downweighted: u16,
    pub finalized_segments: u16,
    pub frontier_commits: u16,
    pub smoothing_steps: u16,
}

#[derive(Clone, Copy, Debug, PartialEq)]
pub struct DrainReport<P: Payload> {
    pub counters: DrainCounters,
    pub quality_updates: FixedRing<GnssQualityUpdate<P>, MEASUREMENT_QUEUE_CAPACITY>,
    pub last_gnss_outcome: Option<GnssUpdateOutcome<P>>,
    pub last_gnss_key: Option<OrderKey>,
    pub blocked_on: DrainBlock,
}

/// `count + more`, stopping at the maximum.
pub open spec fn counted(count: u16, more: int) -> u16 {
    if count + more > u16::MAX {
        u16::MAX
    } else {
        (count + more) as u16
    }
}

pub fn saturating_count(count: u16, more: u16) -> (sum: u16)
    ensures
        sum == counted(count, more as int),
{
    match count.checked_add(more) {
        Some(sum) => sum,
        None => u16::MAX,
    }
}

/// One decision's worth of counting.
pub open spec fn count_decision<P: Payload>(
    counters: DrainCounters,
    decision: Option<UpdateDecision<P>>,
) -> DrainCounters {
    match decision {
        None => counters,
        Some(UpdateDecision::Fused { .. }) => DrainCounters {
            gnss_fused: counted(counters.gnss_fused, 1),
            ..counters
        },
        Some(UpdateDecision::Downweighted { .. }) => DrainCounters {
            gnss_downweighted: counted(counters.gnss_downweighted, 1),
            ..counters
        },
        Some(_) => DrainCounters { gnss_rejected: counted(counters.gnss_rejected, 1), ..counters },
    }
}

/// The counting of a whole outcome.
pub open spec fn count_outcome<P: Payload>(
    counters: DrainCounters,
    outcome: GnssUpdateOutcome<P>,
) -> DrainCounters {
    count_decision(
        count_decision(
            count_decision(
                DrainCounters { gnss_updates: counted(counters.gnss_updates, 1), ..counters },
                outcome.position,
            ),
            outcome.velocity,
        ),
        outcome.joint,
    )
}

impl DrainCounters {
    pub open spec fn zero() -> Self {
        DrainCounters {
            imu_slices: 0,
            filter_propagations: 0,
            gnss_updates: 0,
            gnss_fused: 0,
            gnss_rejected: 0,
            gnss_downweighted: 0,
            finalized_segments: 0,
            frontier_commits: 0,
            smoothing_steps: 0,
        }
    }

    fn note_decision<P: Payload>(&mut self, decision: Option<UpdateDecision<P>>)
        ensures
            *final(self) == count_decision(*old(self), decision),
    {
        match decision {
            None => {},
            Some(UpdateDecision::Fused { .. }) => {
                self.gnss_fused = saturating_count(self.gnss_fused, 1);
            },
            Some(UpdateDecision::Downweighted { .. }) => {
                self.gnss_downweighted = saturating_count(self.gnss_downweighted, 1);
            },
            Some(_) => {
                self.gnss_rejected = saturating_count(self.gnss_rejected, 1);
            },
        }
    }

    pub fn note_outcome<P: Payload>(&mut self, outcome: GnssUpdateOutcome<P>)
        ensures
            *final(self) == count_outcome(*old(self), outcome),
    {
        self.gnss_updates = saturating_count(self.gnss_updates, 1);
        self.note_decision(outcome.position);
        self.note_decision(outcome.velocity);
        self.note_decision(outcome.joint);
    }
}

impl<P: Payload> DrainReport<P> {
    /// The accepted quality transitions, in the order of fusion.
    pub open spec fn updates(self) -> Seq<GnssQualityUpdate<P>> {
        self.quality_updates@
    }

    pub open spec fn wf(self) -> bool {
        self.quality_updates.wf()
    }

    pub proof fn wf_facts(self)
        requires
            self.wf(),
        ensures
            self.updates().len() <= MEASUREMENT_QUEUE_CAPACITY,
    {
        self.quality_updates.wf_facts();
    }

    pub fn new() -> (report: Self)
        ensures
            report.wf(),
            report.counters == DrainCounters::zero(),
            report.updates() == Seq::<GnssQualityUpdate<P>>::empty(),
            report.last_gnss_outcome is None,
            report.last_gnss_key is None,
            report.blocked_on == DrainBlock::AwaitingDelayedFrontier,
    {
        DrainReport {
            counters: DrainCounters {
                imu_slices: 0,
                filter_propagations: 0,
                gnss_updates: 0,
                gnss_fused: 0,
                gnss_rejected: 0,
                gnss_downweighted: 0,
                finalized_segments: 0,
                frontier_commits: 0,
                smoothing_steps: 0,
            },
            quality_updates: FixedRing::new(),
            last_gnss_outcome: None,
            last_gnss_key: None,
            blocked_on: DrainBlock::AwaitingDelayedFrontier,
        }
    }

    /// Whether one more quality transition fits.
    pub fn has_room(&self) -> (room: bool)
        requires
            self.wf(),
        ensures
            room == (self.updates().len() < MEASUREMENT_QUEUE_CAPACITY),
    {
        self.quality_updates.available() > 0
    }

    /// Takes over one fused observation.
    pub fn note_fusion(
        &mut self,
        key: OrderKey,
        outcome: GnssUpdateOutcome<P>,
        quality: Option<GnssQualityUpdate<P>>,
    )
        requires
            old(self).wf(),
            quality is Some ==> old(self).updates().len() < MEASUREMENT_QUEUE_CAPACITY,
        ensures
            final(self).wf(),
            final(self).counters == count_outcome(old(self).counters, outcome),
            final(self).updates() == (match quality {
                Some(update) => old(self).updates().push(update),
                None => old(self).updates(),
            }),
            final(self).last_gnss_outcome == Some(outcome),
            final(self).last_gnss_key == Some(key),
            final(self).blocked_on == old(self).blocked_on,
    {
        self.counters.note_outcome(outcome);
        if let Some(update) = quality {
            let pushed = self.quality_updates.push_back(update);
        }
        self.last_gnss_outcome = Some(outcome);
        self.last_gnss_key = Some(key);
    }

    /// The accepted quality transitions, in the order of fusion.
    pub fn gnss_quality_updates(&self) -> (updates: Vec<GnssQualityUpdate<P>>)
        requires
            self.wf(),
        ensures
            updates@ == self.updates(),
    {
        let mut updates: Vec<GnssQualityUpdate<P>> = Vec::new();
        let len: usize = self.quality_updates.len();
        let mut index: usize = 0;
        while index < len
            invariant
                index <= len,
                len == self.quality_updates@.len(),
                self.quality_updates.wf(),
                updates@ == self.quality_updates@.subrange(0, index as int),
            decreases len - index,
        {
            if let Some(update) = self.quality_updates.get(index) {
                updates.push(*update);
            }
            index = index + 1;
            assert(updates@ =~= self.quality_updates@.subrange(0, index as int));
        }
        assert(updates@ =~= self.updates());
        updates
    }
}

/// Every part of an outcome is counted once, where it belongs: accepted, accepted with
/// less weight, or turned away. A part that is missing is not counted.
pub proof fn parts_are_counted_once<P: Payload>(
    counters: &mut DrainCounters,
    outcome: GnssUpdateOutcome<P>,
)
    requires
        call_ensures(DrainCounters::note_outcome::<P>, (counters, outcome), ()),
        old(counters).gnss_updates < u16::MAX,
        old(counters).gnss_fused <= u16::MAX - 3,
        old(counters).gnss_rejected <= u16::MAX - 3,
        old(counters).gnss_downweighted <= u16::MAX - 3,
    ensures
        ({
            let before = *old(counters);
            let after = *final(counters);
            let fused = |part: Option<UpdateDecision<P>>|
                if part matches Some(UpdateDecision::Fused { .. }) {
                    1int
                } else {
                    0
                };
            let downweighted = |part: Option<UpdateDecision<P>>|
                if part matches Some(UpdateDecision::Downweighted { .. }) {
                    1int
                } else {
                    0
                };
            let present = |part: Option<UpdateDecision<P>>|
                if part is Some {
                    1int
                } else {
                    0
                };
            let now_fused = after.gnss_fused - before.gnss_fused;
            let now_downweighted = after.gnss_downweighted - before.gnss_downweighted;
            let now_rejected = after.gnss_rejected - before.gnss_rejected;
            &&& after.gnss_updates == before.gnss_updates + 1
            &&& now_fused == fused(outcome.position) + fused(outcome.velocity) + fused(outcome.joint)
            &&& now_downweighted == downweighted(outcome.position) + downweighted(outcome.velocity)
                + downweighted(outcome.joint)
            &&& now_fused + now_downweighted + now_rejected == present(outcome.position) + present(
                outcome.velocity,
            ) + present(outcome.joint)
            &&& after.imu_slices == before.imu_slices && after.filter_propagations
                == before.filter_propagations && after.finalized_segments
                == before.finalized_segments && after.frontier_commits == before.frontier_commits
                && after.smoothing_steps == before.smoothing_steps
        }),
{
}

/// A counter adds up as long as it can, and then stays at its maximum.
pub proof fn counters_stay_at_their_maximum(count: u16, more: u16, sum: u16)
    requires
        call_ensures(saturating_count, (count, more), sum),
    ensures
        sum >= count && sum >= more,
        count + more <= u16::MAX ==> sum == count + more,
        count + more > u16::MAX ==> sum == u16::MAX,
{
}

/// A report begins empty, and tells of the last observation that it was told of.
pub proof fn reports_tell_of_the_last_observation<P: Payload>(
    fresh: DrainReport<P>,
    report: &mut DrainReport<P>,
    key: OrderKey,
    outcome: GnssUpdateOutcome<P>,
    quality: Option<GnssQualityUpdate<P>>,
)
    requires
        call_ensures(DrainReport::<P>::new, (), fresh),
        call_ensures(DrainReport::<P>::note_fusion, (report, key, outcome, quality), ()),
    ensures
        fresh.updates().len() == 0 && fresh.last_gnss_outcome is None && fresh.last_gnss_key is None,
        fresh.counters.gnss_updates == 0 && fresh.counters.imu_slices == 0
            && fresh.counters.filter_propagations == 0 && fresh.counters.finalized_segments == 0
            && fresh.counters.frontier_commits == 0 && fresh.counters.smoothing_steps == 0
            && fresh.counters.gnss_fused == 0 && fresh.counters.gnss_rejected == 0
            && fresh.counters.gnss_downweighted == 0,
        final(report).last_gnss_outcome == Some(outcome),
        final(report).last_gnss_key == Some(key),
        final(report).blocked_on == old(report).blocked_on,
        quality is None ==> final(report).updates() == old(report).updates(),
        quality matches Some(update) ==> final(report).updates() == old(report).updates()
            + seq![update],
{
    if let Some(update) = quality {
        assert(old(report).updates().push(update) =~= old(report).updates() + seq![update]);
    }
}

/// A report has room exactly while it holds fewer transitions than can wait, and gives them
/// out in the order in which it was told of them.
pub proof fn reports_give_out_what_they_hold<P: Payload>(
    report: DrainReport<P>,
    room: bool,
    updates: Vec<GnssQualityUpdate<P>>,
)
    requires
        call_ensures(DrainReport::<P>::has_room, (&report,), room),
        call_ensures(DrainReport::<P>::gnss_quality_updates, (&report,), updates),
    ensures
        updates@ == report.updates(),
        room <==> report.updates().len() < 128,
{
}

} // verus!
