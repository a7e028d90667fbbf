//! Bounded ingestion of GNSS observations and inertial intervals.
use vstd::prelude::*;

use crate::capacity::MEASUREMENT_QUEUE_CAPACITY;
use crate::error::LiveCoreError;
use crate::gnss::GnssObservation;
use crate::live_core::state::{LiveCore, LiveCoreState};
use crate::live_core::state::evidence;
use crate::live_core::work::Work;
use crate::payload::Payload;
use crate::queue::Scheduled;
use crate::queue::{inserted, insertion_keeps_property};
use crate::scheduler::EnqueueDisposition;
use crate::scheduler::SchedulerModel;
use crate::time::SessionTime;

verus! {

/// Why an observation cannot be queued at all, if it cannot.
pub open spec fn observation_verdict<P: Payload>(
    observation: Scheduled<GnssObservation<P>>,
) -> Result<(), LiveCoreError> {
    if observation.key.time != observation.value.time {
        Err(LiveCoreError::MeasurementTimeMismatch)
    } else {
        match observation.value.verdict() {
            Err(error) => Err(LiveCoreError::Eskf(error)),
            Ok(_) => Ok(()),
        }
    }
}

pub open spec fn optional_verdict<P: Payload>(
    observation: Option<Scheduled<GnssObservation<P>>>,
) -> Result<(), LiveCoreError> {
    match observation {
        None => Ok(()),
        Some(observation) => observation_verdict(observation),
    }
}

/// The observation, unless the filter has already passed its epoch.
pub open spec fn still_current<P: Payload>(
    observation: Option<Scheduled<GnssObservation<P>>>,
    filter_time: SessionTime,
) -> Option<Scheduled<GnssObservation<P>>> {
    if observation is Some && observation->0.key.time.ns < filter_time.ns {
        None
    } else {
        observation
    }
}

/// The disposition that the caller sees: late, or the queue's own.
pub open spec fn visible_disposition<P: Payload>(
    observation: Option<Scheduled<GnssObservation<P>>>,
    filter_time: SessionTime,
    queued: Option<EnqueueDisposition>,
) -> Option<EnqueueDisposition> {
    if observation is Some && observation->0.key.time.ns < filter_time.ns {
        Some(EnqueueDisposition::TooLateForLive)
    } else {
        queued
    }
}

fn check_observation<P: Payload>(observation: &Scheduled<GnssObservation<P>>) -> (r: Result<
    (),
    LiveCoreError,
>)
    ensures
        r == observation_verdict(*observation),
{
    if observation.key.time != observation.value.time {
        return Err(LiveCoreError::MeasurementTimeMismatch);
    }
    match observation.value.validate() {
        Err(error) => Err(LiveCoreError::Eskf(error)),
        Ok(_) => Ok(()),
    }
}

impl<P: Payload> LiveCore<P> {
    /// The core with another scheduler and no work under way.
    pub open spec fn with_queue(self, model: SchedulerModel<GnssObservation<P>>, after: Self) -> bool {
        &&& after.state.scheduler@ == model
        &&& after == (LiveCore {
            state: LiveCoreState { scheduler: after.state.scheduler, ..self.state },
            history: self.history,
            work: Work::Idle,
        })
    }

    /// Queues one observation.
    pub fn ingest_gnss(&mut self, observation: Scheduled<GnssObservation<P>>) -> (r: Result<
        EnqueueDisposition,
        LiveCoreError,
    >)
        requires
            old(self).wf(),
        ensures
            final(self).wf(),
            ({
                let scheduler = old(self).state.scheduler@;
                let late = observation.key.time.ns < old(self).state.filter.time.ns;
                let disposition = if late {
                    EnqueueDisposition::TooLateForLive
                } else {
                    scheduler.classify(MEASUREMENT_QUEUE_CAPACITY as nat, observation.key)
                };
                if scheduler.finishing {
                    r == Err::<EnqueueDisposition, LiveCoreError>(LiveCoreError::InputClosed)
                        && old(self).with_queue(scheduler, *final(self))
                } else if observation_verdict(observation) is Err {
                    r == Err::<EnqueueDisposition, LiveCoreError>(
                        observation_verdict(observation)->Err_0,
                    ) && old(self).with_queue(scheduler, *final(self))
                } else {
                    r == Ok::<EnqueueDisposition, LiveCoreError>(disposition) && old(
                        self,
                    ).with_queue(
                        scheduler.with_accepted(Some(observation), Some(disposition)),
                        *final(self),
                    )
                }
            }),
    {
        reveal(LiveCore::wf);
        self.work = Work::Idle;
        if self.state.scheduler.is_finishing() {
            return Err(LiveCoreError::InputClosed);
        }
        match check_observation(&observation) {
            Err(error) => {
                return Err(error);
            },
            Ok(_) => {},
        }
        if observation.key.time.ns < self.state.filter.time.ns {
            return Ok(EnqueueDisposition::TooLateForLive);
        }
        let ghost before = *self;
        let disposition = self.state.scheduler.enqueue(observation);
        proof {
            queueing_keeps_settled(before, *self, Some(observation), Some(disposition));
        }
        Ok(disposition)
    }

    /// Queues the position and the velocity of one receiver observation as one
    /// transaction. A capacity or duplicate fault leaves the queue unchanged.
    pub fn ingest_gnss_pair(
        &mut self,
        observations: [Option<Scheduled<GnssObservation<P>>>; 2],
    ) -> (r: Result<[Option<EnqueueDisposition>; 2], LiveCoreError>)
        requires
            old(self).wf(),
        ensures
            final(self).wf(),
            ({
                let scheduler = old(self).state.scheduler@;
                let now = old(self).state.filter.time;
                let first = still_current(observations@[0], now);
                let second = still_current(observations@[1], now);
                if scheduler.finishing {
                    r is Err && r->Err_0 == LiveCoreError::InputClosed && old(self).with_queue(
                        scheduler,
                        *final(self),
                    )
                } else if optional_verdict(observations@[0]) is Err {
                    r is Err && r->Err_0 == optional_verdict(observations@[0])->Err_0 && old(
                        self,
                    ).with_queue(scheduler, *final(self))
                } else if optional_verdict(observations@[1]) is Err {
                    r is Err && r->Err_0 == optional_verdict(observations@[1])->Err_0 && old(
                        self,
                    ).with_queue(scheduler, *final(self))
                } else {
                    match scheduler.classify_pair(
                        MEASUREMENT_QUEUE_CAPACITY as nat,
                        first,
                        second,
                    ) {
                        Err(disposition) => r is Err && r->Err_0
                            == LiveCoreError::MeasurementQueueRejected(disposition) && old(
                            self,
                        ).with_queue(scheduler, *final(self)),
                        Ok((a, b)) => r is Ok && r->Ok_0@ == seq![
                            visible_disposition(observations@[0], now, a),
                            visible_disposition(observations@[1], now, b),
                        ] && old(self).with_queue(
                            scheduler.with_accepted(first, a).with_accepted(second, b),
                            *final(self),
                        ),
                    }
                }
            }),
    {
        reveal(LiveCore::wf);
        self.work = Work::Idle;
        if self.state.scheduler.is_finishing() {
            return Err(LiveCoreError::InputClosed);
        }
        if let Some(observation) = observations[0] {
            match check_observation(&observation) {
                Err(error) => {
                    return Err(error);
                },
                Ok(_) => {},
            }
        }
        if let Some(observation) = observations[1] {
            match check_observation(&observation) {
                Err(error) => {
                    return Err(error);
                },
                Ok(_) => {},
            }
        }
        let mut candidates = observations;
        let mut dispositions: [Option<EnqueueDisposition>; 2] = [None, None];
        let mut index: usize = 0;
        let now = self.state.filter.time;
        while index < 2
            invariant
                index <= 2,
                forall|i: int|
                    0 <= i < index ==> (#[trigger] candidates@[i]) == still_current(
                        observations@[i],
                        now,
                    ),
                forall|i: int|
                    0 <= i < index ==> (#[trigger] dispositions@[i]) == visible_disposition(
                        observations@[i],
                        now,
                        None,
                    ),
                forall|i: int|
                    index <= i < 2 ==> (#[trigger] candidates@[i]) == observations@[i],
                forall|i: int| index <= i < 2 ==> (#[trigger] dispositions@[i]) is None,
            decreases 2 - index,
        {
            if let Some(observation) = candidates[index] {
                if observation.key.time.ns < now.ns {
                    dispositions[index] = Some(EnqueueDisposition::TooLateForLive);
                    candidates[index] = None;
                }
            }
            index = index + 1;
        }
        let ghost before = *self;
        let accepted = match self.state.scheduler.enqueue_pair_atomic(&candidates) {
            Err(disposition) => {
                return Err(LiveCoreError::MeasurementQueueRejected(disposition));
            },
            Ok(accepted) => accepted,
        };
        proof {
            let model = before.state.scheduler@;
            let a = model.classify_optional(MEASUREMENT_QUEUE_CAPACITY as nat, candidates@[0]);
            let b = model.classify_optional(MEASUREMENT_QUEUE_CAPACITY as nat, candidates@[1]);
            pair_queueing_keeps_settled(before, *self, candidates@[0], a, candidates@[1], b);
        }
        if accepted[0].is_some() {
            dispositions[0] = accepted[0];
        }
        if accepted[1].is_some() {
            dispositions[1] = accepted[1];
        }
        assert(dispositions@ =~= seq![dispositions@[0], dispositions@[1]]);
        Ok(dispositions)
    }
}

/// A new observation that is not behind the filter keeps the core settled.
proof fn queueing_keeps_settled<P: Payload>(
    before: LiveCore<P>,
    after: LiveCore<P>,
    entry: Option<Scheduled<GnssObservation<P>>>,
    disposition: Option<EnqueueDisposition>,
)
    requires
        before.settled(),
        after.state.scheduler.wf(),
        before.with_queue(before.state.scheduler@.with_accepted(entry, disposition), after),
        disposition == Some(EnqueueDisposition::Queued) ==> {
            &&& entry is Some
            &&& entry->0.key.time.ns >= before.state.filter.time.ns
            &&& before.state.frontier() is Some ==> entry->0.key.time.ns > before.state.frontier()->0.ns
        },
    ensures
        after.settled(),
{
    if disposition == Some(EnqueueDisposition::Queued) {
        let now = before.state.filter.time;
        let strict = before.state.frontier() is Some && before.state.pending_corrected_segment is None;
        let property = |e: Scheduled<GnssObservation<P>>|
            e.key.time.ns >= now.ns && (strict ==> e.key.time.ns > now.ns);
        assert forall|i: int| 0 <= i < before.state.queue().len() implies property(
            #[trigger] before.state.queue()[i],
        ) by {}
        insertion_keeps_property(before.state.queue(), entry->0, property);
        assert forall|i: int| 0 <= i < after.state.queue().len() implies {
            &&& (#[trigger] after.state.queue()[i]).key.time.ns >= now.ns
            &&& strict ==> after.state.queue()[i].key.time.ns > now.ns
        } by {
            assert(property(inserted(before.state.queue(), entry->0)[i]));
        }
    } else {
        assert(after.state.queue() == before.state.queue());
        assert forall|i: int| 0 <= i < after.state.queue().len() implies {
            &&& (#[trigger] after.state.queue()[i]).key.time.ns >= before.state.filter.time.ns
            &&& before.state.frontier() is Some && before.state.pending_corrected_segment is None
                ==> after.state.queue()[i].key.time.ns > before.state.filter.time.ns
        } by {
            assert(before.state.queue()[i] == after.state.queue()[i]);
        }
    }
    assert(evidence(after.state, after.history) == evidence(before.state, before.history));
    assert(after.state.scheduler@.target() == before.state.scheduler@.target());
}

proof fn pair_queueing_keeps_settled<P: Payload>(
    before: LiveCore<P>,
    after: LiveCore<P>,
    first: Option<Scheduled<GnssObservation<P>>>,
    a: Option<EnqueueDisposition>,
    second: Option<Scheduled<GnssObservation<P>>>,
    b: Option<EnqueueDisposition>,
)
    requires
        before.settled(),
        after.state.scheduler.wf(),
        a == before.state.scheduler@.classify_optional(MEASUREMENT_QUEUE_CAPACITY as nat, first),
        b == before.state.scheduler@.classify_optional(MEASUREMENT_QUEUE_CAPACITY as nat, second),
        first is Some ==> first->0.key.time.ns >= before.state.filter.time.ns,
        second is Some ==> second->0.key.time.ns >= before.state.filter.time.ns,
        before.with_queue(
            before.state.scheduler@.with_accepted(first, a).with_accepted(second, b),
            after,
        ),
    ensures
        after.settled(),
{
    let now = before.state.filter.time;
    let strict = before.state.frontier() is Some && before.state.pending_corrected_segment is None;
    let property = |e: Scheduled<GnssObservation<P>>|
        e.key.time.ns >= now.ns && (strict ==> e.key.time.ns > now.ns);
    assert forall|i: int| 0 <= i < before.state.queue().len() implies property(
        #[trigger] before.state.queue()[i],
    ) by {}
    let middle = before.state.scheduler@.with_accepted(first, a).queue;
    if a == Some(EnqueueDisposition::Queued) {
        insertion_keeps_property(before.state.queue(), first->0, property);
    }
    assert forall|i: int| 0 <= i < middle.len() implies property(#[trigger] middle[i]) by {
        if a != Some(EnqueueDisposition::Queued) {
            assert(middle[i] == before.state.queue()[i]);
        }
    }
    if b == Some(EnqueueDisposition::Queued) {
        insertion_keeps_property(middle, second->0, property);
    }
    assert forall|i: int| 0 <= i < after.state.queue().len() implies {
        &&& (#[trigger] after.state.queue()[i]).key.time.ns >= now.ns
        &&& strict ==> after.state.queue()[i].key.time.ns > now.ns
    } by {
        if b != Some(EnqueueDisposition::Queued) {
            assert(after.state.queue()[i] == middle[i]);
        }
        assert(property(after.state.queue()[i]));
    }
    assert(evidence(after.state, after.history) == evidence(before.state, before.history));
    assert(after.state.scheduler@.target() == before.state.scheduler@.target());
}

/// An observation is taken exactly if the input is open, its key has its time, and it is
/// sound. What is taken and late, behind the filter or at or before the frontier, is
/// answered as late; what is taken, not late, new and has room is queued; nothing else of
/// the core changes.
pub proof fn sound_observations_are_queued<P: Payload>(
    core: &mut LiveCore<P>,
    observation: Scheduled<GnssObservation<P>>,
    sound: Result<(), crate::error::EskfError>,
    answer: Result<EnqueueDisposition, LiveCoreError>,
)
    requires
        old(core).wf(),
        call_ensures(GnssObservation::<P>::validate, (&observation.value,), sound),
        call_ensures(LiveCore::<P>::ingest_gnss, (core, observation), answer),
    ensures
        ({
            let before = old(core).state.queue();
            let after = final(core).state.queue();
            let frontier = old(core).state.frontier();
            let open = !old(core).state.scheduler@.finishing;
            let matched = observation.key.time == observation.value.time;
            let late = observation.key.time.ns < old(core).state.filter.time.ns || frontier is Some
                && observation.key.time.ns <= frontier->0.ns;
            let known = exists|i: int|
                0 <= i < before.len() && (#[trigger] before[i]).key == observation.key;
            &&& answer is Ok <==> open && matched && sound is Ok
            &&& !open ==> answer == Err::<EnqueueDisposition, LiveCoreError>(
                LiveCoreError::InputClosed,
            )
            &&& open && !matched ==> answer == Err::<EnqueueDisposition, LiveCoreError>(
                LiveCoreError::MeasurementTimeMismatch,
            )
            &&& open && matched && sound is Err ==> answer == Err::<
                EnqueueDisposition,
                LiveCoreError,
            >(LiveCoreError::Eskf(sound->Err_0))
            &&& answer is Ok ==> (answer->Ok_0 == EnqueueDisposition::TooLateForLive <==> late)
            &&& answer is Ok && !late ==> (answer->Ok_0 == EnqueueDisposition::CapacityExceeded
                <==> before.len() == 128)
            &&& answer is Ok && !late && before.len() < 128 ==> (answer->Ok_0
                == EnqueueDisposition::Duplicate <==> known)
            &&& answer is Ok && !late && before.len() < 128 && !known ==> answer->Ok_0
                == EnqueueDisposition::Queued
            &&& answer == Ok::<EnqueueDisposition, LiveCoreError>(EnqueueDisposition::Queued)
                ==> after.contains(observation) && after.len() == before.len() + 1
            &&& answer != Ok::<EnqueueDisposition, LiveCoreError>(EnqueueDisposition::Queued)
                ==> after == before
            &&& final(core).state.filter == old(core).state.filter
            &&& final(core).state.filter_values == old(core).state.filter_values
            &&& final(core).state.frontier() == frontier
            &&& final(core).state.evidence_end() == old(core).state.evidence_end()
            &&& final(core).history == old(core).history
            &&& final(core).work is Idle
        }),
{
    reveal(LiveCore::wf);
    old(core).state.scheduler.wf_facts();
    if answer == Ok::<EnqueueDisposition, LiveCoreError>(EnqueueDisposition::Queued) {
        let before = old(core).state.queue();
        crate::queue::insertion_keeps_order(before, observation);
        let r = crate::queue::rank(before, observation.key) as int;
        assert(final(core).state.queue()[r] == observation);
    }
}

/// Position and velocity of one receiver observation enter together: where either cannot
/// be taken or does not fit, the queue stays as it was and the error says why. One that is
/// behind the filter is answered as late and does not keep the other out.
pub proof fn receiver_pairs_enter_together<P: Payload>(
    core: &mut LiveCore<P>,
    first: Scheduled<GnssObservation<P>>,
    second: Scheduled<GnssObservation<P>>,
    observations: [Option<Scheduled<GnssObservation<P>>>; 2],
    answer: Result<[Option<EnqueueDisposition>; 2], LiveCoreError>,
)
    requires
        old(core).wf(),
        observations@ == seq![Some(first), Some(second)],
        call_ensures(LiveCore::<P>::ingest_gnss_pair, (core, observations), answer),
    ensures
        ({
            let before = old(core).state.queue();
            let after = final(core).state.queue();
            let now = old(core).state.filter.time.ns;
            let first_late = first.key.time.ns < now;
            let second_late = second.key.time.ns < now;
            &&& answer is Err ==> after == before
            &&& old(core).state.scheduler@.finishing ==> answer is Err && answer->Err_0
                == LiveCoreError::InputClosed
            &&& answer is Ok ==> !old(core).state.scheduler@.finishing && first.key.time
                == first.value.time && second.key.time == second.value.time
            &&& answer is Ok && first_late ==> answer->Ok_0@[0] == Some(
                EnqueueDisposition::TooLateForLive,
            )
            &&& answer is Ok && second_late ==> answer->Ok_0@[1] == Some(
                EnqueueDisposition::TooLateForLive,
            )
            &&& answer is Ok && first_late && second_late ==> after == before
            &&& answer is Ok && answer->Ok_0@[0] == Some(EnqueueDisposition::Queued)
                && answer->Ok_0@[1] == Some(EnqueueDisposition::Queued) ==> after.len()
                == before.len() + 2 && first.key != second.key
            &&& answer is Ok && answer->Ok_0@[0] == Some(EnqueueDisposition::Queued)
                && answer->Ok_0@[1] != Some(EnqueueDisposition::Queued) ==> after.len()
                == before.len() + 1 && after.contains(first)
            &&& answer is Ok && answer->Ok_0@[1] == Some(EnqueueDisposition::Queued)
                && answer->Ok_0@[0] != Some(EnqueueDisposition::Queued) ==> after.len()
                == before.len() + 1 && after.contains(second)
            &&& answer is Ok ==> answer->Ok_0@[0] is Some && answer->Ok_0@[1] is Some
            &&& answer is Ok ==> answer->Ok_0@[0] == Some(EnqueueDisposition::Queued)
                || answer->Ok_0@[0] == Some(EnqueueDisposition::TooLateForLive)
            &&& answer is Ok ==> answer->Ok_0@[1] == Some(EnqueueDisposition::Queued)
                || answer->Ok_0@[1] == Some(EnqueueDisposition::TooLateForLive)
            &&& final(core).history == old(core).history
            &&& final(core).state.filter == old(core).state.filter
            &&& final(core).state.frontier() == old(core).state.frontier()
        }),
{
    reveal(LiveCore::wf);
    let model = old(core).state.scheduler@;
    let now = old(core).state.filter.time;
    old(core).state.scheduler.wf_facts();
    let a = still_current(Some(first), now);
    let b = still_current(Some(second), now);
    crate::scheduler::pair_is_all_or_nothing(model, MEASUREMENT_QUEUE_CAPACITY as nat, a, b);
    if let Ok(dispositions) = answer {
        let queued = Some(EnqueueDisposition::Queued);
        if dispositions@[0] == queued && dispositions@[1] != queued {
            crate::queue::insertion_keeps_order(model.queue, first);
            let r = crate::queue::rank(model.queue, first.key) as int;
            assert(final(core).state.queue()[r] == first);
        }
        if dispositions@[1] == queued && dispositions@[0] != queued {
            crate::queue::insertion_keeps_order(model.queue, second);
            let r = crate::queue::rank(model.queue, second.key) as int;
            assert(final(core).state.queue()[r] == second);
        }
    }
}

} // verus!
