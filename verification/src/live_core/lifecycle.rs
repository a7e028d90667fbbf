//! Seeding the first sample, and changes of the clock and of the navigation
//! frame.
use vstd::prelude::*;

use crate::error::{EskfError, LiveCoreError};
use crate::gnss::GnssObservation;
use crate::imu::ImuInterval;
use crate::live_core::state::{LiveCore, LiveCoreHistory, LiveCoreState};
use crate::live_core::state::evidence;
use crate::live_core::work::Work;
use crate::payload::Payload;
use crate::queue::Scheduled;
use crate::rts_window::RtsWindowModel;
use crate::time::SessionTime;

verus! {

/// Why the first sample cannot be retained, if it cannot.
pub open spec fn first_sample_verdict<P: Payload>(
    state: LiveCoreState<P>,
    history: LiveCoreHistory<P>,
    interval: ImuInterval<P>,
    correlation_is_finite: bool,
) -> Result<(), LiveCoreError> {
    if interval.start != state.filter.time || history.active_imu_sample is Some {
        Err(LiveCoreError::InternalInvariant)
    } else {
        match interval.verdict() {
            Err(error) => Err(LiveCoreError::Preintegration(error)),
            Ok(_) => if !correlation_is_finite {
                Err(LiveCoreError::Eskf(EskfError::NumericalFailure))
            } else {
                Ok(())
            },
        }
    }
}

/// A change of the clock's shared parameters, as far as it was computed.
#[derive(Clone, Copy, Debug, PartialEq)]
pub struct ClockTransition {
    pub active_consider: usize,
    /// One past the last previous parameter that the new clock depends on.
    pub extent: usize,
    /// Whether the mapping and its innovation are usable.
    pub mapping_is_valid: bool,
    /// Why the transformed covariance is not.
    pub covariance_error: Option<EskfError>,
}

/// Why the clock cannot change now, if it cannot: observations in the queue and
/// epochs in the smoothing window still refer to the previous segment.
pub open spec fn clock_verdict<P: Payload>(
    state: LiveCoreState<P>,
    history: LiveCoreHistory<P>,
    transition: ClockTransition,
) -> Result<(), LiveCoreError> {
    let active = transition.active_consider;
    if state.queue().len() != 0 || history.smoothing@.nodes.len() > 1 {
        Err(LiveCoreError::ClockTransitionRequiresReinitialization)
    } else if !(active == state.filter.active_consider && 2 <= active <= P::MAX_CONSIDER
        && transition.extent <= active && transition.mapping_is_valid) {
        Err(LiveCoreError::Eskf(EskfError::InvalidConsiderBlock))
    } else if transition.covariance_error is Some {
        Err(LiveCoreError::Eskf(transition.covariance_error->0))
    } else {
        Ok(())
    }
}

impl<P: Payload> LiveCore<P> {
    /// Retains the sample with which the initial velocity was transformed.
    pub fn seed_initial_imu_sample(
        &mut self,
        interval: ImuInterval<P>,
        correlation_is_finite: bool,
    ) -> (r: Result<(), LiveCoreError>)
        requires
            old(self).wf(),
        ensures
            final(self).wf(),
            r == first_sample_verdict(
                old(self).state,
                old(self).history,
                interval,
                correlation_is_finite,
            ),
            r is Err ==> *final(self) == old(self).with_work(Work::Idle),
            r is Ok ==> ({
                let sample = interval.spec_sample_from(interval.start);
                *final(self) == (LiveCore {
                    state: LiveCoreState {
                        corrected_epoch_kinematics: Some(sample),
                        ..old(self).state
                    },
                    history: LiveCoreHistory {
                        active_imu_sample: Some(sample),
                        ..old(self).history
                    },
                    work: Work::Idle,
                })
            }),
    {
        let abandoned = self.take_work();
        if interval.start != self.state.filter.time || self.history.active_imu_sample.is_some() {
            return Err(LiveCoreError::InternalInvariant);
        }
        match interval.validate() {
            Err(error) => {
                return Err(LiveCoreError::Preintegration(error));
            },
            Ok(_) => {},
        }
        if !correlation_is_finite {
            return Err(LiveCoreError::Eskf(EskfError::NumericalFailure));
        }
        let ghost before = *self;
        proof {
            before.wf_is_settled();
        }
        let sample = interval.sample_from(interval.start);
        self.history.active_imu_sample = Some(sample);
        self.state.corrected_epoch_kinematics = Some(sample);
        proof {
            assert(self.state.queue() == before.state.queue());
            assert(evidence(self.state, self.history) == evidence(before.state, before.history));
            self.idle_is_wf();
        }
        Ok(())
    }

    /// Changes the clock once nothing refers to the previous segment any more.
    /// Smoothing begins anew afterwards.
    pub fn transition_clock_consider(&mut self, transition: ClockTransition) -> (r: Result<
        (),
        LiveCoreError,
    >)
        requires
            old(self).wf(),
        ensures
            final(self).wf(),
            r == clock_verdict(old(self).state, old(self).history, transition),
            r is Err ==> *final(self) == old(self).with_work(Work::Idle),
            r is Ok ==> {
                &&& final(self).state == old(self).state
                &&& final(self).history == (LiveCoreHistory {
                    smoothing: final(self).history.smoothing,
                    ..old(self).history
                })
                &&& final(self).history.smoothing@ == RtsWindowModel::<P>::empty()
                &&& final(self).work is Idle
            },
    {
        let abandoned = self.take_work();
        let ghost before = *self;
        proof {
            before.wf_is_settled();
        }
        if self.state.scheduler.queued_measurements() != 0 || self.history.smoothing.has_tail() {
            return Err(LiveCoreError::ClockTransitionRequiresReinitialization);
        }
        match self.state.filter.validate_clock_transition(
            transition.active_consider,
            transition.extent,
            transition.mapping_is_valid,
        ) {
            Err(error) => {
                return Err(LiveCoreError::Eskf(error));
            },
            Ok(_) => {},
        }
        if let Some(error) = transition.covariance_error {
            return Err(LiveCoreError::Eskf(error));
        }
        self.history.smoothing.clear();
        proof {
            assert(evidence(self.state, self.history) == evidence(before.state, before.history));
            self.idle_is_wf();
        }
        Ok(())
    }

    /// Whether every queued observation precedes a future clock boundary.
    pub fn can_schedule_clock_transition_at(&self, at: SessionTime) -> (safe: bool)
        requires
            self.wf(),
        ensures
            safe == (self.state.filter.time.ns <= at.ns && forall|i: int|
                0 <= i < self.state.queue().len() ==> (#[trigger] self.state.queue()[i]).key.time.ns
                    < at.ns),
    {
        proof {
            self.wf_is_settled();
        }
        if self.state.filter.time.ns > at.ns {
            return false;
        }
        let precedes = |measurement: &Scheduled<GnssObservation<P>>| -> (r: Result<(), ()>)
            ensures
                r is Ok <==> measurement.key.time.ns < at.ns,
            {
                if measurement.key.time.ns < at.ns {
                    Ok(())
                } else {
                    Err(())
                }
            };
        let all = self.state.scheduler.try_for_each_measurement(precedes);
        assert(self.state.queue() == self.state.scheduler@.queue);
        all.is_ok()
    }

    /// Whether the navigation frame may change: no backward pass is running.
    pub fn reanchor_ready(&self) -> (ready: bool)
        ensures
            ready == (self.history.smoothing@.cursor is None),
    {
        !self.history.smoothing.is_busy()
    }
}

/// The first sample is retained exactly if it begins at the filter's epoch, no sample is
/// held yet, it is usable and its correlation is finite. It is then held as it was
/// measured, over its own support.
pub proof fn first_sample_is_held<P: Payload>(
    core: &mut LiveCore<P>,
    interval: ImuInterval<P>,
    correlation_is_finite: bool,
    answer: Result<(), LiveCoreError>,
)
    requires
        call_ensures(
            LiveCore::<P>::seed_initial_imu_sample,
            (core, interval, correlation_is_finite),
            answer,
        ),
    ensures
        ({
            let usable = 0 < interval.end.ns - interval.start.ns <= i64::MAX
                && interval.values_are_valid;
            let fits = interval.start == old(core).state.filter.time
                && old(core).history.active_imu_sample is None;
            let held = final(core).history.active_imu_sample;
            &&& answer is Ok <==> fits && usable && correlation_is_finite
            &&& !fits ==> answer == Err::<(), LiveCoreError>(LiveCoreError::InternalInvariant)
            &&& fits && usable && !correlation_is_finite ==> answer == Err::<(), LiveCoreError>(
                LiveCoreError::Eskf(EskfError::NumericalFailure),
            )
            &&& answer is Ok ==> held is Some && held->0.support_start == interval.start
                && held->0.support_end == interval.end && held->0.omega_ib_b == interval.omega_ib_b
                && held->0.specific_force_b == interval.specific_force_b
                && held->0.sample_covariance == interval.sample_covariance
            &&& answer is Ok ==> final(core).state.corrected_epoch_kinematics == held
            &&& answer is Err ==> final(core).state == old(core).state && final(core).history
                == old(core).history
            &&& final(core).state.filter == old(core).state.filter
            &&& final(core).history.imu == old(core).history.imu
            &&& final(core).state.scheduler == old(core).state.scheduler
            &&& final(core).work is Idle
        }),
{
}

/// A clock changes only when nothing waits and nothing is left to smooth, and only within
/// the parameters that are active. Smoothing then begins anew and nothing else changes; a
/// refused change changes nothing.
pub proof fn clocks_change_when_nothing_refers_to_them<P: Payload>(
    core: &mut LiveCore<P>,
    transition: ClockTransition,
    answer: Result<(), LiveCoreError>,
)
    requires
        call_ensures(LiveCore::<P>::transition_clock_consider, (core, transition), answer),
    ensures
        ({
            let referred = old(core).state.queue().len() > 0
                || old(core).history.smoothing@.nodes.len() > 1;
            let fits = transition.active_consider == old(core).state.filter.active_consider
                && transition.active_consider >= 2 && transition.active_consider <= P::MAX_CONSIDER
                && transition.extent <= transition.active_consider && transition.mapping_is_valid;
            &&& answer is Ok <==> !referred && fits && transition.covariance_error is None
            &&& referred ==> answer == Err::<(), LiveCoreError>(
                LiveCoreError::ClockTransitionRequiresReinitialization,
            )
            &&& !referred && !fits ==> answer == Err::<(), LiveCoreError>(
                LiveCoreError::Eskf(EskfError::InvalidConsiderBlock),
            )
            &&& !referred && fits && transition.covariance_error is Some ==> answer == Err::<
                (),
                LiveCoreError,
            >(LiveCoreError::Eskf(transition.covariance_error->0))
            &&& answer is Ok ==> final(core).history.smoothing@.nodes.len() == 0
                && final(core).history.smoothing@.frozen_start is None
                && !final(core).history.smoothing@.dirty
            &&& answer is Err ==> final(core).history == old(core).history
            &&& final(core).state == old(core).state
            &&& final(core).history.corrected == old(core).history.corrected
            &&& final(core).history.active_imu_sample == old(core).history.active_imu_sample
            &&& final(core).work is Idle
        }),
{
}

/// A clock change may be scheduled exactly where neither the filter nor any waiting
/// observation is later.
pub proof fn clock_changes_are_scheduled_ahead<P: Payload>(
    core: LiveCore<P>,
    at: SessionTime,
    safe: bool,
    i: int,
)
    requires
        call_ensures(LiveCore::<P>::can_schedule_clock_transition_at, (&core, at), safe),
    ensures
        safe ==> core.state.filter.time.ns <= at.ns,
        safe && 0 <= i < core.state.queue().len() ==> core.state.queue()[i].key.time.ns < at.ns,
        !safe ==> at.ns < core.state.filter.time.ns || exists|k: int|
            0 <= k < core.state.queue().len() && at.ns <= (
            #[trigger] core.state.queue()[k]).key.time.ns,
{
}

/// A frame may change exactly while no pass is running.
pub proof fn frames_wait_for_the_pass<P: Payload>(core: LiveCore<P>, ready: bool)
    requires
        call_ensures(LiveCore::<P>::reanchor_ready, (&core,), ready),
    ensures
        ready <==> core.history.smoothing@.cursor is None,
{
}

} // verus!
