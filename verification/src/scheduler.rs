//! Chronological scheduling for the single delayed-fusion frontier.
use vstd::prelude::*;

use crate::order::OrderKey;
use crate::queue::{ChronologicalQueue, QueueError, Scheduled};
use crate::queue::{chronological, has_key, inserted, push_verdict};
use crate::time::SessionTime;

verus! {

/// Longest accepted delay between the newest inertial evidence and the fused
/// frontier.
pub const MAX_LIVE_HORIZON_NS: i64 = 500_000_000;

#[derive(Clone, Copy, Debug, PartialEq, Eq, Structural)]
pub enum EnqueueDisposition {
    Queued,
    TooLateForLive,
    CapacityExceeded,
    Duplicate,
}

#[derive(Clone, Copy, Debug, PartialEq, Eq, Structural)]
pub enum SchedulerError {
    InvalidFusionDelay,
    ImuTimeNotIncreasing,
    FrontierRegression,
    FrontierBeyondTarget,
    TimeOverflow,
    AlreadyFinishing,
    NoTrustedImu,
}

/// What a scheduler holds, as plain values.
#[verifier::ext_equal]
pub struct SchedulerModel<T: Copy> {
    pub fusion_delay_ns: int,
    pub queue: Seq<Scheduled<T>>,
    pub latest_trusted_imu: Option<SessionTime>,
    pub processed_frontier: Option<SessionTime>,
    pub finishing: bool,
}

impl<T: Copy> SchedulerModel<T> {
    /// An inactive scheduler.
    pub open spec fn idle() -> Self {
        SchedulerModel {
            fusion_delay_ns: 0,
            queue: Seq::empty(),
            latest_trusted_imu: None,
            processed_frontier: None,
            finishing: false,
        }
    }

    /// The latest instant that may be fused now.
    pub open spec fn target(self) -> Result<SessionTime, SchedulerError> {
        match self.latest_trusted_imu {
            None => Err(SchedulerError::NoTrustedImu),
            Some(latest) => if self.finishing {
                Ok(latest)
            } else if latest.ns - self.fusion_delay_ns < i64::MIN {
                Err(SchedulerError::TimeOverflow)
            } else {
                Ok(SessionTime { ns: (latest.ns - self.fusion_delay_ns) as i64 })
            },
        }
    }

    /// The verdict on one more observation.
    pub open spec fn classify(self, capacity: nat, key: OrderKey) -> EnqueueDisposition {
        if self.processed_frontier is Some && key.time.ns <= self.processed_frontier->0.ns {
            EnqueueDisposition::TooLateForLive
        } else {
            match push_verdict(self.queue, capacity, key) {
                Ok(_) => EnqueueDisposition::Queued,
                Err(QueueError::Capacity) => EnqueueDisposition::CapacityExceeded,
                Err(QueueError::DuplicateKey) => EnqueueDisposition::Duplicate,
            }
        }
    }

    pub open spec fn classify_optional(
        self,
        capacity: nat,
        entry: Option<Scheduled<T>>,
    ) -> Option<EnqueueDisposition> {
        match entry {
            None => None,
            Some(entry) => Some(self.classify(capacity, entry.key)),
        }
    }

    /// The verdict on a pair that is accepted as a whole or not at all.
    pub open spec fn classify_pair(
        self,
        capacity: nat,
        first: Option<Scheduled<T>>,
        second: Option<Scheduled<T>>,
    ) -> Result<(Option<EnqueueDisposition>, Option<EnqueueDisposition>), EnqueueDisposition> {
        let a = self.classify_optional(capacity, first);
        let b = self.classify_optional(capacity, second);
        let both_queued = a == Some(EnqueueDisposition::Queued) && b == Some(
            EnqueueDisposition::Queued,
        );
        if a == Some(EnqueueDisposition::CapacityExceeded) || a == Some(
            EnqueueDisposition::Duplicate,
        ) {
            Err(a->0)
        } else if b == Some(EnqueueDisposition::CapacityExceeded) || b == Some(
            EnqueueDisposition::Duplicate,
        ) {
            Err(b->0)
        } else if both_queued && first->0.key == second->0.key {
            Err(EnqueueDisposition::Duplicate)
        } else if both_queued && self.queue.len() + 1 == capacity {
            Err(EnqueueDisposition::CapacityExceeded)
        } else {
            Ok((a, b))
        }
    }

    /// The queue with `entry` in it if its verdict is `Queued`.
    pub open spec fn with_accepted(
        self,
        entry: Option<Scheduled<T>>,
        disposition: Option<EnqueueDisposition>,
    ) -> Self {
        if disposition == Some(EnqueueDisposition::Queued) {
            SchedulerModel { queue: inserted(self.queue, entry->0), ..self }
        } else {
            self
        }
    }
}

#[derive(Clone, Copy, Debug, PartialEq)]
pub struct FrontierScheduler<T: Copy, const N: usize> {
    fusion_delay_ns: i64,
    measurements: ChronologicalQueue<T, N>,
    latest_trusted_imu: Option<SessionTime>,
    processed_frontier: Option<SessionTime>,
    finishing: bool,
}

impl<T: Copy, const N: usize> View for FrontierScheduler<T, N> {
    type V = SchedulerModel<T>;

    closed spec fn view(&self) -> SchedulerModel<T> {
        SchedulerModel {
            fusion_delay_ns: self.fusion_delay_ns as int,
            queue: self.measurements@,
            latest_trusted_imu: self.latest_trusted_imu,
            processed_frontier: self.processed_frontier,
            finishing: self.finishing,
        }
    }
}

impl<T: Copy, const N: usize> FrontierScheduler<T, N> {
    pub closed spec fn wf(self) -> bool {
        &&& self.measurements.wf()
        &&& 0 <= self.fusion_delay_ns <= MAX_LIVE_HORIZON_NS
        &&& self.processed_frontier is Some ==> {
            &&& self.latest_trusted_imu is Some
            &&& self.processed_frontier->0.ns <= self.latest_trusted_imu->0.ns - (
            if self.finishing {
                0
            } else {
                self.fusion_delay_ns as int
            })
        }
    }

    /// What holds of every scheduler: the queue is bounded and chronological,
    /// the delay is within its limit, and the frontier has not passed the
    /// target.
    pub proof fn wf_facts(self)
        requires
            self.wf(),
        ensures
            self@.queue.len() <= N,
            chronological(self@.queue),
            0 <= self@.fusion_delay_ns <= MAX_LIVE_HORIZON_NS,
            self@.processed_frontier is Some ==> self@.target() is Ok
                && self@.processed_frontier->0.ns <= self@.target()->Ok_0.ns
                <= self@.latest_trusted_imu->0.ns,
    {
        self.measurements.wf_facts();
    }

    /// Inactive scheduler, ready to be initialized in place.
    pub fn placeholder() -> (scheduler: Self)
        ensures
            scheduler.wf(),
            scheduler@ == SchedulerModel::<T>::idle(),
    {
        Self {
            fusion_delay_ns: 0,
            measurements: ChronologicalQueue::new(),
            latest_trusted_imu: None,
            processed_frontier: None,
            finishing: false,
        }
    }

    pub fn validate_fusion_delay(fusion_delay_ns: i64) -> (r: Result<(), SchedulerError>)
        ensures
            r == (if 0 <= fusion_delay_ns <= MAX_LIVE_HORIZON_NS {
                Ok::<(), SchedulerError>(())
            } else {
                Err(SchedulerError::InvalidFusionDelay)
            }),
    {
        if fusion_delay_ns < 0 || fusion_delay_ns > MAX_LIVE_HORIZON_NS {
            Err(SchedulerError::InvalidFusionDelay)
        } else {
            Ok(())
        }
    }

    /// Initializes an existing scheduler in place. Failure leaves it empty.
    pub fn initialize(&mut self, fusion_delay_ns: i64) -> (r: Result<(), SchedulerError>)
        requires
            old(self).wf(),
        ensures
            final(self).wf(),
            r == (if 0 <= fusion_delay_ns <= MAX_LIVE_HORIZON_NS {
                Ok::<(), SchedulerError>(())
            } else {
                Err(SchedulerError::InvalidFusionDelay)
            }),
            r is Ok ==> final(self)@ == (SchedulerModel {
                fusion_delay_ns: fusion_delay_ns as int,
                ..SchedulerModel::<T>::idle()
            }),
            r is Err ==> final(self)@ == SchedulerModel::<T>::idle(),
    {
        self.reset();
        match Self::validate_fusion_delay(fusion_delay_ns) {
            Err(error) => Err(error),
            Ok(_) => {
                self.fusion_delay_ns = fusion_delay_ns;
                Ok(())
            },
        }
    }

    pub fn reset(&mut self)
        requires
            old(self).wf(),
        ensures
            final(self).wf(),
            final(self)@ == SchedulerModel::<T>::idle(),
    {
        self.fusion_delay_ns = 0;
        self.measurements.clear();
        self.latest_trusted_imu = None;
        self.processed_frontier = None;
        self.finishing = false;
    }

    pub fn new(fusion_delay_ns: i64) -> (r: Result<Self, SchedulerError>)
        ensures
            r is Ok <==> 0 <= fusion_delay_ns <= MAX_LIVE_HORIZON_NS,
            r is Ok ==> r->Ok_0.wf() && r->Ok_0@ == (SchedulerModel {
                fusion_delay_ns: fusion_delay_ns as int,
                ..SchedulerModel::<T>::idle()
            }),
            r is Err ==> r->Err_0 == SchedulerError::InvalidFusionDelay,
    {
        let mut result = Self::placeholder();
        match result.initialize(fusion_delay_ns) {
            Err(error) => Err(error),
            Ok(_) => Ok(result),
        }
    }

    /// Records the end of the newest complete trusted inertial interval.
    pub fn observe_trusted_imu(&mut self, time: SessionTime) -> (r: Result<(), SchedulerError>)
        requires
            old(self).wf(),
        ensures
            final(self).wf(),
            r == (if old(self)@.finishing {
                Err::<(), SchedulerError>(SchedulerError::AlreadyFinishing)
            } else if old(self)@.latest_trusted_imu is Some && time.ns <= old(
                self,
            )@.latest_trusted_imu->0.ns {
                Err(SchedulerError::ImuTimeNotIncreasing)
            } else {
                Ok(())
            }),
            r is Ok ==> final(self)@ == (SchedulerModel {
                latest_trusted_imu: Some(time),
                ..old(self)@
            }),
            r is Err ==> *final(self) == *old(self),
    {
        if self.finishing {
            return Err(SchedulerError::AlreadyFinishing);
        }
        if let Some(previous) = self.latest_trusted_imu {
            if time.ns <= previous.ns {
                return Err(SchedulerError::ImuTimeNotIncreasing);
            }
        }
        self.latest_trusted_imu = Some(time);
        Ok(())
    }

    pub fn enqueue(&mut self, entry: Scheduled<T>) -> (disposition: EnqueueDisposition)
        requires
            old(self).wf(),
        ensures
            final(self).wf(),
            disposition == old(self)@.classify(N as nat, entry.key),
            final(self)@ == old(self)@.with_accepted(Some(entry), Some(disposition)),
    {
        let disposition = self.classify_enqueue(&entry);
        if disposition != EnqueueDisposition::Queued {
            return disposition;
        }
        self.measurements.push_prevalidated(entry);
        EnqueueDisposition::Queued
    }

    /// The verdict on one more observation, without changing anything.
    pub fn classify_enqueue(&self, entry: &Scheduled<T>) -> (disposition: EnqueueDisposition)
        requires
            self.wf(),
        ensures
            disposition == self@.classify(N as nat, entry.key),
    {
        if let Some(frontier) = self.processed_frontier {
            if entry.key.time.ns <= frontier.ns {
                return EnqueueDisposition::TooLateForLive;
            }
        }
        match self.measurements.preflight_push(entry) {
            Ok(_) => EnqueueDisposition::Queued,
            Err(QueueError::Capacity) => EnqueueDisposition::CapacityExceeded,
            Err(QueueError::DuplicateKey) => EnqueueDisposition::Duplicate,
        }
    }

    /// Enqueues up to two observations as one transaction: nothing is queued
    /// until all capacity and duplicate checks have passed.
    pub fn enqueue_pair_atomic(&mut self, entries: &[Option<Scheduled<T>>; 2]) -> (r: Result<
        [Option<EnqueueDisposition>; 2],
        EnqueueDisposition,
    >)
        requires
            old(self).wf(),
        ensures
            final(self).wf(),
            match old(self)@.classify_pair(N as nat, entries@[0], entries@[1]) {
                Ok((first, second)) => {
                    &&& r is Ok
                    &&& r->Ok_0@ == seq![first, second]
                    &&& final(self)@ == old(self)@.with_accepted(entries@[0], first).with_accepted(
                        entries@[1],
                        second,
                    )
                },
                Err(disposition) => {
                    &&& r == Err::<[Option<EnqueueDisposition>; 2], EnqueueDisposition>(disposition)
                    &&& *final(self) == *old(self)
                },
            },
    {
        let mut dispositions: [Option<EnqueueDisposition>; 2] = [None, None];
        let mut queued: usize = 0;
        let mut index: usize = 0;
        while index < 2
            invariant
                index <= 2,
                *self == *old(self),
                self.wf(),
                queued <= index,
                queued == (if index > 0 && dispositions@[0] == Some(EnqueueDisposition::Queued) {
                    1int
                } else {
                    0
                }) + (if index > 1 && dispositions@[1] == Some(EnqueueDisposition::Queued) {
                    1int
                } else {
                    0
                }),
                forall|i: int|
                    #![trigger dispositions@[i]]
                    0 <= i < index ==> dispositions@[i] == self@.classify_optional(
                        N as nat,
                        entries@[i],
                    ) && dispositions@[i] != Some(EnqueueDisposition::CapacityExceeded)
                        && dispositions@[i] != Some(EnqueueDisposition::Duplicate),
                forall|i: int| index <= i < 2 ==> (#[trigger] dispositions@[i]) is None,
                index == 2 && dispositions@[0] == Some(EnqueueDisposition::Queued)
                    && dispositions@[1] == Some(EnqueueDisposition::Queued) ==> entries@[0]->0.key
                    != entries@[1]->0.key,
            decreases 2 - index,
        {
            if let Some(entry) = entries[index] {
                let disposition = self.classify_enqueue(&entry);
                match disposition {
                    EnqueueDisposition::Queued => {
                        if index == 1 {
                            if let (Some(previous), Some(EnqueueDisposition::Queued)) = (
                                entries[0],
                                dispositions[0],
                            ) {
                                if previous.key == entry.key {
                                    return Err(EnqueueDisposition::Duplicate);
                                }
                            }
                        }
                        queued = queued + 1;
                    },
                    EnqueueDisposition::TooLateForLive => {},
                    EnqueueDisposition::CapacityExceeded => {
                        return Err(disposition);
                    },
                    EnqueueDisposition::Duplicate => {
                        return Err(disposition);
                    },
                }
                dispositions[index] = Some(disposition);
            }
            index = index + 1;
        }
        if queued > self.measurements.capacity() - self.measurements.len() {
            return Err(EnqueueDisposition::CapacityExceeded);
        }
        let ghost before = self@;
        if let (Some(entry), Some(EnqueueDisposition::Queued)) = (entries[0], dispositions[0]) {
            self.measurements.push_prevalidated(entry);
        }
        let ghost middle = self@;
        assert(middle == before.with_accepted(entries@[0], dispositions@[0]));
        if let (Some(entry), Some(EnqueueDisposition::Queued)) = (entries[1], dispositions[1]) {
            proof {
                if dispositions@[0] == Some(EnqueueDisposition::Queued) {
                    old(self).wf_facts();
                    crate::queue::insertion_keeps_order(before.queue, entries@[0]->0);
                    assert(!has_key(middle.queue, entry.key)) by {
                        let r = crate::queue::rank(before.queue, entries@[0]->0.key) as int;
                        assert forall|i: int| 0 <= i < middle.queue.len() implies (
                        #[trigger] middle.queue[i]).key != entry.key by {
                            if i < r {
                                assert(middle.queue[i] == before.queue[i]);
                            } else if i > r {
                                assert(middle.queue[i] == before.queue[i - 1]);
                            }
                        }
                    }
                }
            }
            self.measurements.push_prevalidated(entry);
        }
        assert(dispositions@ =~= seq![dispositions@[0], dispositions@[1]]);
        Ok(dispositions)
    }

    /// The latest instant that may be fused now.
    pub fn target(&self) -> (r: Result<SessionTime, SchedulerError>)
        requires
            self.wf(),
        ensures
            r == self@.target(),
    {
        match self.latest_trusted_imu {
            None => Err(SchedulerError::NoTrustedImu),
            Some(latest) => {
                if self.finishing {
                    return Ok(latest);
                }
                match latest.ns.checked_sub(self.fusion_delay_ns) {
                    None => Err(SchedulerError::TimeOverflow),
                    Some(ns) => Ok(SessionTime::from_ns(ns)),
                }
            },
        }
    }

    /// The earliest observation, if it may be fused now.
    pub fn next_measurement(&self) -> (r: Result<Option<&Scheduled<T>>, SchedulerError>)
        requires
            self.wf(),
        ensures
            match self@.target() {
                Err(error) => r == Err::<Option<&Scheduled<T>>, SchedulerError>(error),
                Ok(target) => r == Ok::<Option<&Scheduled<T>>, SchedulerError>(
                    if self@.queue.len() > 0 && self@.queue[0].key.time.ns <= target.ns {
                        Some(&self@.queue[0])
                    } else {
                        None
                    },
                ),
            },
    {
        match self.target() {
            Err(error) => Err(error),
            Ok(target) => match self.measurements.first() {
                None => Ok(None),
                Some(entry) => if entry.key.time.ns <= target.ns {
                    Ok(Some(entry))
                } else {
                    Ok(None)
                },
            },
        }
    }

    /// Removes the earliest observation, if it may be fused now.
    pub fn pop_next_measurement(&mut self) -> (r: Result<Option<Scheduled<T>>, SchedulerError>)
        requires
            old(self).wf(),
        ensures
            final(self).wf(),
            match old(self)@.target() {
                Err(error) => r == Err::<Option<Scheduled<T>>, SchedulerError>(error)
                    && *final(self) == *old(self),
                Ok(target) => if old(self)@.queue.len() > 0 && old(self)@.queue[0].key.time.ns
                    <= target.ns {
                    &&& r == Ok::<Option<Scheduled<T>>, SchedulerError>(Some(old(self)@.queue[0]))
                    &&& final(self)@ == (SchedulerModel {
                        queue: old(self)@.queue.subrange(1, old(self)@.queue.len() as int),
                        ..old(self)@
                    })
                } else {
                    &&& r == Ok::<Option<Scheduled<T>>, SchedulerError>(None)
                    &&& *final(self) == *old(self)
                },
            },
    {
        match self.next_measurement() {
            Err(error) => {
                return Err(error);
            },
            Ok(None) => {
                return Ok(None);
            },
            Ok(Some(_)) => {},
        }
        Ok(self.measurements.pop_first())
    }

    /// Advances the frontier once all work through `new_frontier` is done.
    pub fn commit_frontier(&mut self, new_frontier: SessionTime) -> (r: Result<(), SchedulerError>)
        requires
            old(self).wf(),
        ensures
            final(self).wf(),
            r == (if old(self)@.processed_frontier is Some && new_frontier.ns < old(
                self,
            )@.processed_frontier->0.ns {
                Err::<(), SchedulerError>(SchedulerError::FrontierRegression)
            } else {
                match old(self)@.target() {
                    Err(error) => Err(error),
                    Ok(target) => if new_frontier.ns > target.ns {
                        Err(SchedulerError::FrontierBeyondTarget)
                    } else {
                        Ok(())
                    },
                }
            }),
            r is Ok ==> final(self)@ == (SchedulerModel {
                processed_frontier: Some(new_frontier),
                ..old(self)@
            }),
            r is Err ==> *final(self) == *old(self),
    {
        if let Some(previous) = self.processed_frontier {
            if new_frontier.ns < previous.ns {
                return Err(SchedulerError::FrontierRegression);
            }
        }
        match self.target() {
            Err(error) => Err(error),
            Ok(target) => {
                if new_frontier.ns > target.ns {
                    return Err(SchedulerError::FrontierBeyondTarget);
                }
                self.processed_frontier = Some(new_frontier);
                Ok(())
            },
        }
    }

    pub fn processed_frontier(&self) -> (frontier: Option<SessionTime>)
        ensures
            frontier == self@.processed_frontier,
    {
        self.processed_frontier
    }

    pub fn latest_trusted_imu(&self) -> (latest: Option<SessionTime>)
        ensures
            latest == self@.latest_trusted_imu,
    {
        self.latest_trusted_imu
    }

    pub fn queued_measurements(&self) -> (queued: usize)
        requires
            self.wf(),
        ensures
            queued == self@.queue.len(),
            queued <= N,
    {
        self.measurements.len()
    }

    /// Visits the queued observations in fusion order until one visit fails.
    pub fn try_for_each_measurement<E, F: Fn(&Scheduled<T>) -> Result<(), E>>(&self, visit: F) -> (r:
        Result<(), E>)
        requires
            self.wf(),
            forall|i: int|
                0 <= i < self@.queue.len() ==> call_requires(visit, (&#[trigger] self@.queue[i],)),
        ensures
            r is Ok ==> forall|i: int|
                0 <= i < self@.queue.len() ==> call_ensures(
                    visit,
                    (&#[trigger] self@.queue[i],),
                    Ok(()),
                ),
            r matches Err(e) ==> exists|k: int|
                0 <= k < self@.queue.len() && call_ensures(
                    visit,
                    (&#[trigger] self@.queue[k],),
                    Err(e),
                ) && forall|i: int|
                    0 <= i < k ==> call_ensures(visit, (&#[trigger] self@.queue[i],), Ok(())),
    {
        assert(self@.queue == self.measurements@);
        self.measurements.try_for_each(visit)
    }

    /// Replaces every queued observation by what `visit` makes of it, keeping
    /// the keys.
    pub fn for_each_measurement_mut<F: Fn(T) -> T>(&mut self, visit: F)
        requires
            old(self).wf(),
            forall|i: int|
                0 <= i < old(self)@.queue.len() ==> call_requires(
                    visit,
                    ((#[trigger] old(self)@.queue[i]).value,),
                ),
        ensures
            final(self).wf(),
            final(self)@ == (SchedulerModel { queue: final(self)@.queue, ..old(self)@ }),
            final(self)@.queue.len() == old(self)@.queue.len(),
            forall|i: int|
                #![trigger final(self)@.queue[i]]
                0 <= i < old(self)@.queue.len() ==> final(self)@.queue[i].key == old(
                    self,
                )@.queue[i].key && call_ensures(
                    visit,
                    (old(self)@.queue[i].value,),
                    final(self)@.queue[i].value,
                ),
    {
        assert(self@.queue == self.measurements@);
        self.measurements.for_each_mut(visit);
    }

    /// Irrevocably removes the normal delay. The terminal target is the last
    /// complete trusted inertial epoch and is never extrapolated.
    pub fn finish(&mut self) -> (r: Result<SessionTime, SchedulerError>)
        requires
            old(self).wf(),
        ensures
            final(self).wf(),
            old(self)@.finishing ==> r == Err::<SessionTime, SchedulerError>(
                SchedulerError::AlreadyFinishing,
            ) && *final(self) == *old(self),
            !old(self)@.finishing ==> r == (match old(self)@.latest_trusted_imu {
                Some(latest) => Ok::<SessionTime, SchedulerError>(latest),
                None => Err(SchedulerError::NoTrustedImu),
            }) && final(self)@ == (SchedulerModel { finishing: true, ..old(self)@ }),
    {
        if self.finishing {
            return Err(SchedulerError::AlreadyFinishing);
        }
        self.finishing = true;
        match self.latest_trusted_imu {
            Some(latest) => Ok(latest),
            None => Err(SchedulerError::NoTrustedImu),
        }
    }

    pub fn is_finishing(&self) -> (finishing: bool)
        ensures
            finishing == self@.finishing,
    {
        self.finishing
    }
}

/// While inertial evidence keeps arriving, and when the run is finished, the
/// target never moves back.
pub proof fn target_never_regresses<T: Copy>(model: SchedulerModel<T>, newer: SessionTime)
    requires
        0 <= model.fusion_delay_ns <= MAX_LIVE_HORIZON_NS,
        model.target() is Ok,
        newer.ns > model.latest_trusted_imu->0.ns,
    ensures
        ({
            let observed = SchedulerModel { latest_trusted_imu: Some(newer), ..model };
            observed.target() is Ok && observed.target()->Ok_0.ns >= model.target()->Ok_0.ns
        }),
        ({
            let finished = SchedulerModel { finishing: true, ..model };
            finished.target() is Ok && finished.target()->Ok_0.ns >= model.target()->Ok_0.ns
        }),
{
}

/// Finishing fuses exactly through the last trusted inertial epoch: nothing
/// beyond it is ever a target.
pub proof fn finish_never_extrapolates<T: Copy>(model: SchedulerModel<T>)
    requires
        0 <= model.fusion_delay_ns <= MAX_LIVE_HORIZON_NS,
    ensures
        model.target() is Ok ==> model.latest_trusted_imu is Some && model.target()->Ok_0.ns
            <= model.latest_trusted_imu->0.ns,
        model.latest_trusted_imu is Some ==> (SchedulerModel { finishing: true, ..model }).target()
            == Ok::<SessionTime, SchedulerError>(model.latest_trusted_imu->0),
{
}

/// An observation at or before the committed frontier is too late, whatever
/// else is queued; one after it never is.
pub proof fn lateness_is_decided_by_frontier<T: Copy>(
    model: SchedulerModel<T>,
    capacity: nat,
    key: OrderKey,
)
    requires
        model.processed_frontier is Some,
    ensures
        model.classify(capacity, key) == EnqueueDisposition::TooLateForLive <==> key.time.ns
            <= model.processed_frontier->0.ns,
{
}

/// Successive removals come out in strictly increasing key order, so also in
/// non-decreasing time order.
pub proof fn removal_is_chronological<T: Copy>(queue: Seq<Scheduled<T>>)
    requires
        chronological(queue),
    ensures
        forall|i: int|
            0 < i < queue.len() ==> crate::order::key_lt(queue[0].key, (#[trigger] queue[i]).key)
                && queue[0].key.time.ns <= queue[i].key.time.ns,
        queue.len() > 0 ==> chronological(queue.subrange(1, queue.len() as int)),
{
    if queue.len() > 0 {
        let rest = queue.subrange(1, queue.len() as int);
        assert forall|i: int, j: int|
            #![trigger rest[i], rest[j]]
            0 <= i < j < rest.len() implies crate::order::key_lt(rest[i].key, rest[j].key) by {
            assert(rest[i] == queue[i + 1] && rest[j] == queue[j + 1]);
        }
    }
}

/// A refused pair leaves no trace, and an accepted one adds exactly the
/// observations that were not too late.
pub proof fn pair_is_all_or_nothing<T: Copy>(
    model: SchedulerModel<T>,
    capacity: nat,
    first: Option<Scheduled<T>>,
    second: Option<Scheduled<T>>,
)
    requires
        chronological(model.queue),
        model.queue.len() <= capacity,
    ensures
        model.classify_pair(capacity, first, second) matches Ok((a, b)) ==> {
            let after = model.with_accepted(first, a).with_accepted(second, b);
            &&& chronological(after.queue)
            &&& after.queue.len() <= capacity
            &&& after.queue.len() == model.queue.len() + (if a == Some(
                EnqueueDisposition::Queued,
            ) {
                1int
            } else {
                0
            }) + (if b == Some(EnqueueDisposition::Queued) {
                1int
            } else {
                0
            })
        },
{
    if let Ok((a, b)) = model.classify_pair(capacity, first, second) {
        let middle = model.with_accepted(first, a);
        if a == Some(EnqueueDisposition::Queued) {
            crate::queue::insertion_keeps_order(model.queue, first->0);
        }
        if b == Some(EnqueueDisposition::Queued) {
            assert(!has_key(middle.queue, second->0.key)) by {
                if a == Some(EnqueueDisposition::Queued) {
                    let r = crate::queue::rank(model.queue, first->0.key) as int;
                    assert forall|i: int| 0 <= i < middle.queue.len() implies (
                    #[trigger] middle.queue[i]).key != second->0.key by {
                        if i < r {
                            assert(middle.queue[i] == model.queue[i]);
                        } else if i > r {
                            assert(middle.queue[i] == model.queue[i - 1]);
                        }
                    }
                }
            }
            crate::queue::insertion_keeps_order(middle.queue, second->0);
        }
    }
}

/// Operation credits for one turn of frontier work. The length of a turn
/// depends only on these credits and on fixed capacities, never on a clock.
#[derive(Clone, Copy, Debug, PartialEq, Eq, Structural)]
pub struct WorkQuota {
    pub remaining: u16,
}

impl WorkQuota {
    pub fn new(credits: u16) -> (quota: Self)
        ensures
            quota.remaining == credits,
    {
        Self { remaining: credits }
    }

    /// Spends `cost` credits, or spends none where fewer are left.
    pub fn take(&mut self, cost: u16) -> (taken: bool)
        ensures
            taken == (cost <= old(self).remaining),
            final(self).remaining == (if taken {
                old(self).remaining - cost
            } else {
                old(self).remaining as int
            }),
    {
        if cost > self.remaining {
            return false;
        }
        self.remaining = self.remaining - cost;
        true
    }

    pub fn remaining(self) -> (credits: u16)
        ensures
            credits == self.remaining,
    {
        self.remaining
    }
}

/// How far a derived metric has been computed, and how much later evidence it
/// still needs.
#[derive(Clone, Copy, Debug, PartialEq, Eq, Structural)]
pub struct MetricWatermark {
    pub consumed_through: SessionTime,
    pub maximum_future_support_ns: i64,
}

impl MetricWatermark {
    /// The instant through which the metric can no longer change.
    pub fn finalized_through(self) -> (r: Result<SessionTime, SchedulerError>)
        ensures
            r is Ok <==> self.maximum_future_support_ns >= 0 && self.consumed_through.ns
                - self.maximum_future_support_ns >= i64::MIN,
            r is Ok ==> r->Ok_0.ns == self.consumed_through.ns - self.maximum_future_support_ns,
            r is Err ==> r->Err_0 == SchedulerError::TimeOverflow,
    {
        if self.maximum_future_support_ns < 0 {
            return Err(SchedulerError::TimeOverflow);
        }
        match self.consumed_through.ns.checked_sub(self.maximum_future_support_ns) {
            Some(ns) => Ok(SessionTime::from_ns(ns)),
            None => Err(SchedulerError::TimeOverflow),
        }
    }
}

/// An observation at or before the frontier is too late. Any other one is queued exactly
/// if there is room and its key is new; otherwise the answer says which is missing.
pub proof fn observations_are_classified<T: Copy, const N: usize>(
    scheduler: FrontierScheduler<T, N>,
    entry: Scheduled<T>,
    answer: EnqueueDisposition,
)
    requires
        scheduler.wf(),
        call_ensures(
            FrontierScheduler::<T, N>::classify_enqueue,
            (&scheduler, &entry),
            answer,
        ),
    ensures
        ({
            let queue = scheduler@.queue;
            let late = scheduler@.processed_frontier matches Some(frontier) && entry.key.time.ns
                <= frontier.ns;
            let taken = exists|i: int| 0 <= i < queue.len() && (#[trigger] queue[i]).key == entry.key;
            &&& answer == EnqueueDisposition::TooLateForLive <==> late
            &&& answer == EnqueueDisposition::CapacityExceeded <==> !late && queue.len() == N
            &&& answer == EnqueueDisposition::Duplicate <==> !late && queue.len() < N && taken
            &&& answer == EnqueueDisposition::Queued <==> !late && queue.len() < N && !taken
        }),
{
    scheduler.wf_facts();
}

/// A queued observation is in the queue afterwards, besides all the others and in its
/// place; a refused one leaves the queue as it was. Nothing else changes either way.
pub proof fn queued_observations_are_kept<T: Copy, const N: usize>(
    scheduler: &mut FrontierScheduler<T, N>,
    entry: Scheduled<T>,
    announced: EnqueueDisposition,
    answer: EnqueueDisposition,
    other: Scheduled<T>,
)
    requires
        old(scheduler).wf(),
        call_ensures(
            FrontierScheduler::<T, N>::classify_enqueue,
            (&*old(scheduler), &entry),
            announced,
        ),
        call_ensures(FrontierScheduler::<T, N>::enqueue, (scheduler, entry), answer),
    ensures
        ({
            let before = old(scheduler)@;
            let after = final(scheduler)@;
            &&& answer == announced
            &&& answer == EnqueueDisposition::Queued ==> after.queue.len() == before.queue.len() + 1
                && (after.queue.contains(other) <==> before.queue.contains(other) || other == entry)
            &&& answer != EnqueueDisposition::Queued ==> after.queue == before.queue
            &&& forall|i: int, j: int|
                #![trigger after.queue[i], after.queue[j]]
                0 <= i < j < after.queue.len() ==> after.queue[i].key.time.ns
                    <= after.queue[j].key.time.ns
            &&& after.fusion_delay_ns == before.fusion_delay_ns
            &&& after.latest_trusted_imu == before.latest_trusted_imu
            &&& after.processed_frontier == before.processed_frontier
            &&& after.finishing == before.finishing
        }),
{
    old(scheduler).wf_facts();
    let before = old(scheduler)@.queue;
    let after = final(scheduler)@.queue;
    if answer == EnqueueDisposition::Queued {
        crate::queue::insertion_keeps_order(before, entry);
        contents_after_insertion(before, entry, other);
    }
    assert forall|i: int, j: int|
        #![trigger after[i], after[j]]
        0 <= i < j < after.len() implies after[i].key.time.ns <= after[j].key.time.ns by {
        assert(crate::order::key_lt(after[i].key, after[j].key));
    }
}

proof fn contents_after_insertion<T: Copy>(
    before: Seq<Scheduled<T>>,
    entry: Scheduled<T>,
    other: Scheduled<T>,
)
    requires
        chronological(before),
        !has_key(before, entry.key),
    ensures
        inserted(before, entry).contains(other) <==> before.contains(other) || other == entry,
{
    crate::queue::insertion_keeps_order(before, entry);
    let after = inserted(before, entry);
    let r = crate::queue::rank(before, entry.key) as int;
    assert(after[r] == entry);
    if before.contains(other) {
        let i = choose|i: int| 0 <= i < before.len() && before[i] == other;
        if i < r {
            assert(after[i] == other);
        } else {
            assert(after[i + 1] == other);
        }
    }
    if after.contains(other) {
        let i = choose|i: int| 0 <= i < after.len() && after[i] == other;
        if i < r {
            assert(before[i] == other);
        } else if i > r {
            assert(before[i - 1] == other);
        }
    }
}

/// A pair is accepted as a whole or not at all. Accepted, each observation has the
/// answer it would have had alone, and exactly the queued ones are in the queue
/// afterwards. Refused, nothing has changed, and one of the two could not be queued
/// together with the other.
pub proof fn pairs_are_queued_together<T: Copy, const N: usize>(
    scheduler: &mut FrontierScheduler<T, N>,
    first: Scheduled<T>,
    second: Scheduled<T>,
    first_alone: EnqueueDisposition,
    second_alone: EnqueueDisposition,
    entries: [Option<Scheduled<T>>; 2],
    answer: Result<[Option<EnqueueDisposition>; 2], EnqueueDisposition>,
    other: Scheduled<T>,
)
    requires
        old(scheduler).wf(),
        entries@ == seq![Some(first), Some(second)],
        call_ensures(
            FrontierScheduler::<T, N>::classify_enqueue,
            (&*old(scheduler), &first),
            first_alone,
        ),
        call_ensures(
            FrontierScheduler::<T, N>::classify_enqueue,
            (&*old(scheduler), &second),
            second_alone,
        ),
        call_ensures(
            FrontierScheduler::<T, N>::enqueue_pair_atomic,
            (scheduler, &entries),
            answer,
        ),
    ensures
        ({
            let before = old(scheduler)@;
            let after = final(scheduler)@;
            let queued = EnqueueDisposition::Queued;
            let late = EnqueueDisposition::TooLateForLive;
            let first_fits = first_alone == queued || first_alone == late;
            let second_fits = second_alone == queued || second_alone == late;
            let both = first_alone == queued && second_alone == queued;
            &&& answer is Ok <==> first_fits && second_fits && !(both && (first.key == second.key
                || before.queue.len() + 2 > N))
            &&& answer is Ok ==> answer->Ok_0@ == seq![Some(first_alone), Some(second_alone)]
            &&& answer is Ok ==> (after.queue.contains(other) <==> before.queue.contains(other) || (
            first_alone == queued && other == first) || (second_alone == queued && other
                == second))
            &&& answer is Err ==> after == before
            &&& !first_fits ==> answer == Err::<
                [Option<EnqueueDisposition>; 2],
                EnqueueDisposition,
            >(first_alone)
            &&& first_fits && !second_fits ==> answer == Err::<
                [Option<EnqueueDisposition>; 2],
                EnqueueDisposition,
            >(second_alone)
            &&& both && first.key == second.key ==> answer == Err::<
                [Option<EnqueueDisposition>; 2],
                EnqueueDisposition,
            >(EnqueueDisposition::Duplicate)
            &&& both && first.key != second.key && before.queue.len() + 2 > N ==> answer == Err::<
                [Option<EnqueueDisposition>; 2],
                EnqueueDisposition,
            >(EnqueueDisposition::CapacityExceeded)
            &&& after.processed_frontier == before.processed_frontier && after.latest_trusted_imu
                == before.latest_trusted_imu && after.finishing == before.finishing
                && after.fusion_delay_ns == before.fusion_delay_ns
        }),
{
    old(scheduler).wf_facts();
    let before = old(scheduler)@;
    if let Ok(_) = answer {
        let middle = before.with_accepted(Some(first), Some(first_alone));
        if first_alone == EnqueueDisposition::Queued {
            crate::queue::insertion_keeps_order(before.queue, first);
            contents_after_insertion(before.queue, first, other);
        }
        if second_alone == EnqueueDisposition::Queued {
            assert(!has_key(middle.queue, second.key)) by {
                if first_alone == EnqueueDisposition::Queued {
                    assert forall|i: int| 0 <= i < middle.queue.len() implies (
                    #[trigger] middle.queue[i]).key != second.key by {
                        contents_after_insertion(before.queue, first, middle.queue[i]);
                        assert(middle.queue.contains(middle.queue[i]));
                    }
                }
            }
            contents_after_insertion(middle.queue, second, other);
        }
    }
}

/// The target is the newest inertial evidence less the delay, and that evidence itself
/// once the run is finishing. Without evidence there is none.
pub proof fn targets_trail_the_evidence<T: Copy, const N: usize>(
    scheduler: FrontierScheduler<T, N>,
    target: Result<SessionTime, SchedulerError>,
)
    requires
        call_ensures(FrontierScheduler::<T, N>::target, (&scheduler,), target),
    ensures
        scheduler@.latest_trusted_imu is None ==> target == Err::<SessionTime, SchedulerError>(
            SchedulerError::NoTrustedImu,
        ),
        scheduler@.latest_trusted_imu matches Some(latest) ==> {
            &&& scheduler@.finishing ==> target == Ok::<SessionTime, SchedulerError>(latest)
            &&& !scheduler@.finishing && latest.ns - scheduler@.fusion_delay_ns >= i64::MIN
                && scheduler@.fusion_delay_ns >= 0 ==> target is Ok && target->Ok_0.ns
                + scheduler@.fusion_delay_ns == latest.ns
            &&& !scheduler@.finishing && latest.ns - scheduler@.fusion_delay_ns < i64::MIN
                ==> target == Err::<SessionTime, SchedulerError>(SchedulerError::TimeOverflow)
        },
{
}

/// What is offered is what is then taken: the first observation, once the target has
/// reached it. Later ones move up, and where none is due nothing changes.
pub proof fn due_observations_come_out_in_order<T: Copy, const N: usize>(
    scheduler: &mut FrontierScheduler<T, N>,
    target: SessionTime,
    offered: Result<Option<&Scheduled<T>>, SchedulerError>,
    taken: Result<Option<Scheduled<T>>, SchedulerError>,
)
    requires
        call_ensures(
            FrontierScheduler::<T, N>::target,
            (&*old(scheduler),),
            Ok::<SessionTime, SchedulerError>(target),
        ),
        call_ensures(FrontierScheduler::<T, N>::next_measurement, (&*old(scheduler),), offered),
        call_ensures(FrontierScheduler::<T, N>::pop_next_measurement, (scheduler,), taken),
    ensures
        ({
            let before = old(scheduler)@;
            let after = final(scheduler)@;
            let due = before.queue.len() > 0 && before.queue[0].key.time.ns <= target.ns;
            &&& offered is Ok && taken is Ok
            &&& taken->Ok_0 is Some <==> due
            &&& (offered->Ok_0 is Some) == (taken->Ok_0 is Some)
            &&& due ==> *offered->Ok_0->0 == taken->Ok_0->0 && before.queue
                == seq![taken->Ok_0->0] + after.queue
            &&& !due ==> after.queue == before.queue
            &&& after.fusion_delay_ns == before.fusion_delay_ns && after.finishing
                == before.finishing && after.latest_trusted_imu == before.latest_trusted_imu
                && after.processed_frontier == before.processed_frontier
        }),
{
    let before = old(scheduler)@.queue;
    if before.len() > 0 {
        assert(before =~= seq![before[0]] + before.subrange(1, before.len() as int));
    }
}

/// The frontier moves forward, at most to the target, and never back. Nothing else
/// changes with it, and a refused move changes nothing.
pub proof fn frontiers_move_forward<T: Copy, const N: usize>(
    scheduler: &mut FrontierScheduler<T, N>,
    new_frontier: SessionTime,
    target: Result<SessionTime, SchedulerError>,
    moved: Result<(), SchedulerError>,
)
    requires
        call_ensures(FrontierScheduler::<T, N>::target, (&*old(scheduler),), target),
        call_ensures(
            FrontierScheduler::<T, N>::commit_frontier,
            (scheduler, new_frontier),
            moved,
        ),
    ensures
        ({
            let before = old(scheduler)@;
            let after = final(scheduler)@;
            let back = before.processed_frontier is Some && new_frontier.ns
                < before.processed_frontier->0.ns;
            &&& moved is Ok <==> !back && target is Ok && new_frontier.ns <= target->Ok_0.ns
            &&& moved is Ok ==> after.processed_frontier == Some(new_frontier)
            &&& moved is Err ==> after.processed_frontier == before.processed_frontier
            &&& back ==> moved == Err::<(), SchedulerError>(SchedulerError::FrontierRegression)
            &&& !back && target is Ok && new_frontier.ns > target->Ok_0.ns ==> moved == Err::<
                (),
                SchedulerError,
            >(SchedulerError::FrontierBeyondTarget)
            &&& !back && target is Err ==> moved == Err::<(), SchedulerError>(target->Err_0)
            &&& after.queue == before.queue && after.latest_trusted_imu == before.latest_trusted_imu
                && after.finishing == before.finishing && after.fusion_delay_ns
                == before.fusion_delay_ns
        }),
{
}

/// Inertial evidence only ever grows, and none is taken any more once the run is
/// finishing.
pub proof fn evidence_only_grows<T: Copy, const N: usize>(
    scheduler: &mut FrontierScheduler<T, N>,
    time: SessionTime,
    taken: Result<(), SchedulerError>,
)
    requires
        call_ensures(
            FrontierScheduler::<T, N>::observe_trusted_imu,
            (scheduler, time),
            taken,
        ),
    ensures
        ({
            let before = old(scheduler)@;
            let after = final(scheduler)@;
            let newer = before.latest_trusted_imu is None || before.latest_trusted_imu->0.ns
                < time.ns;
            &&& taken is Ok <==> !before.finishing && newer
            &&& taken is Ok ==> after.latest_trusted_imu == Some(time)
            &&& taken is Err ==> after == before
            &&& before.finishing ==> taken == Err::<(), SchedulerError>(
                SchedulerError::AlreadyFinishing,
            )
            &&& !before.finishing && !newer ==> taken == Err::<(), SchedulerError>(
                SchedulerError::ImuTimeNotIncreasing,
            )
            &&& after.queue == before.queue && after.processed_frontier == before.processed_frontier
                && after.finishing == before.finishing && after.fusion_delay_ns
                == before.fusion_delay_ns
        }),
{
}

/// A run is finished once. Its last target is the newest evidence, and nothing that
/// waits is given up.
pub proof fn runs_finish_once<T: Copy, const N: usize>(
    first: &mut FrontierScheduler<T, N>,
    second: &mut FrontierScheduler<T, N>,
    terminal: Result<SessionTime, SchedulerError>,
    again: Result<SessionTime, SchedulerError>,
    target: Result<SessionTime, SchedulerError>,
)
    requires
        *old(second) == *final(first),
        !old(first)@.finishing,
        call_ensures(FrontierScheduler::<T, N>::finish, (first,), terminal),
        call_ensures(FrontierScheduler::<T, N>::finish, (second,), again),
        call_ensures(FrontierScheduler::<T, N>::target, (&*final(first),), target),
    ensures
        terminal is Ok <==> old(first)@.latest_trusted_imu is Some,
        terminal is Ok ==> old(first)@.latest_trusted_imu == Some(terminal->Ok_0),
        terminal is Err ==> terminal->Err_0 == SchedulerError::NoTrustedImu,
        target == terminal,
        final(first)@.finishing,
        final(first)@.queue == old(first)@.queue,
        final(first)@.processed_frontier == old(first)@.processed_frontier,
        final(first)@.latest_trusted_imu == old(first)@.latest_trusted_imu,
        again == Err::<SessionTime, SchedulerError>(SchedulerError::AlreadyFinishing),
        final(second)@ == final(first)@,
{
}

/// A scheduler starts empty, with a delay of at most half a second.
pub proof fn schedulers_start_empty<T: Copy, const N: usize>(
    scheduler: &mut FrontierScheduler<T, N>,
    fusion_delay_ns: i64,
    started: Result<(), SchedulerError>,
    made: Result<FrontierScheduler<T, N>, SchedulerError>,
)
    requires
        call_ensures(
            FrontierScheduler::<T, N>::initialize,
            (scheduler, fusion_delay_ns),
            started,
        ),
        call_ensures(FrontierScheduler::<T, N>::new, (fusion_delay_ns,), made),
    ensures
        started is Ok <==> 0 <= fusion_delay_ns <= 500_000_000,
        made is Ok <==> started is Ok,
        started is Ok ==> made->Ok_0@ == final(scheduler)@,
        started is Ok ==> final(scheduler)@.fusion_delay_ns == fusion_delay_ns,
        started is Err ==> started->Err_0 == SchedulerError::InvalidFusionDelay
            && final(scheduler)@.fusion_delay_ns == 0,
        final(scheduler)@.queue.len() == 0,
        final(scheduler)@.latest_trusted_imu is None,
        final(scheduler)@.processed_frontier is None,
        !final(scheduler)@.finishing,
{
}

/// Credits are spent in full or not at all, and never more than there are.
pub proof fn credits_are_spent_in_full(quota: &mut WorkQuota, cost: u16, taken: bool)
    requires
        call_ensures(WorkQuota::take, (quota, cost), taken),
    ensures
        taken ==> final(quota).remaining + cost == old(quota).remaining,
        !taken ==> final(quota).remaining == old(quota).remaining && old(quota).remaining < cost,
{
}

/// What is final of a metric is what no later evidence can reach back to.
pub proof fn watermarks_trail_their_support(
    watermark: MetricWatermark,
    through: Result<SessionTime, SchedulerError>,
)
    requires
        call_ensures(MetricWatermark::finalized_through, (watermark,), through),
    ensures
        through matches Ok(time) ==> time.ns + watermark.maximum_future_support_ns
            == watermark.consumed_through.ns && time.ns <= watermark.consumed_through.ns,
        watermark.maximum_future_support_ns < 0 ==> through is Err,
        0 <= watermark.maximum_future_support_ns && watermark.consumed_through.ns
            - watermark.maximum_future_support_ns >= i64::MIN ==> through is Ok,
        through is Err ==> through->Err_0 == SchedulerError::TimeOverflow,
{
}

/// What a scheduler tells of itself is what it holds.
pub proof fn schedulers_tell_what_they_hold<T: Copy, const N: usize>(
    scheduler: FrontierScheduler<T, N>,
    frontier: Option<SessionTime>,
    latest: Option<SessionTime>,
    queued: usize,
    finishing: bool,
)
    requires
        call_ensures(FrontierScheduler::<T, N>::processed_frontier, (&scheduler,), frontier),
        call_ensures(FrontierScheduler::<T, N>::latest_trusted_imu, (&scheduler,), latest),
        call_ensures(FrontierScheduler::<T, N>::queued_measurements, (&scheduler,), queued),
        call_ensures(FrontierScheduler::<T, N>::is_finishing, (&scheduler,), finishing),
    ensures
        frontier == scheduler@.processed_frontier,
        latest == scheduler@.latest_trusted_imu,
        queued == scheduler@.queue.len(),
        finishing == scheduler@.finishing,
{
}

/// Replacing the values of waiting observations keeps their keys, their order and
/// everything else.
pub proof fn observations_change_under_their_keys<T: Copy, F: Fn(T) -> T, const N: usize>(
    scheduler: &mut FrontierScheduler<T, N>,
    visit: F,
    i: int,
)
    requires
        call_ensures(
            FrontierScheduler::<T, N>::for_each_measurement_mut::<F>,
            (scheduler, visit),
            (),
        ),
        0 <= i < old(scheduler)@.queue.len(),
    ensures
        final(scheduler)@.queue.len() == old(scheduler)@.queue.len(),
        final(scheduler)@.queue[i].key == old(scheduler)@.queue[i].key,
        call_ensures(visit, (old(scheduler)@.queue[i].value,), final(scheduler)@.queue[i].value),
        final(scheduler)@.processed_frontier == old(scheduler)@.processed_frontier,
        final(scheduler)@.latest_trusted_imu == old(scheduler)@.latest_trusted_imu,
        final(scheduler)@.finishing == old(scheduler)@.finishing,
        final(scheduler)@.fusion_delay_ns == old(scheduler)@.fusion_delay_ns,
{
}

} // verus!
