//! Which inertial sample supports an instant of the corrected solution.
use vstd::prelude::*;

use crate::capacity::IMU_HISTORY_CAPACITY;
use crate::error::LiveCoreError;
use crate::imu::{CorrectedImuSample, ImuInterval};
use crate::live_core::state::{LiveCore, LiveCoreHistory, LiveCoreState};
use crate::live_core::state::{evidence, settled};
use crate::live_core::work::{EpochKinematics, RatePair};
use crate::payload::Payload;
use crate::ring::FixedRing;
use crate::time::SessionTime;

verus! {

/// The first item from `from` on that satisfies `wanted`.
pub open spec fn first_match<A>(items: Seq<A>, wanted: spec_fn(A) -> bool, from: int) -> Option<A>
    decreases items.len() - from,
{
    if from < 0 || from >= items.len() {
        None
    } else if wanted(items[from]) {
        Some(items[from])
    } else {
        first_match(items, wanted, from + 1)
    }
}

/// The retained interval that begins at `time`: at a shared boundary the
/// interval on the right owns the instant.
pub open spec fn right_owner<P: Payload>(
    imu: Seq<ImuInterval<P>>,
    time: SessionTime,
) -> Option<ImuInterval<P>> {
    first_match(imu, |interval: ImuInterval<P>| interval.start == time, 0)
}

/// The first retained interval that touches `time`.
pub open spec fn any_owner<P: Payload>(
    imu: Seq<ImuInterval<P>>,
    time: SessionTime,
) -> Option<ImuInterval<P>> {
    first_match(
        imu,
        |interval: ImuInterval<P>| interval.start.ns <= time.ns <= interval.end.ns,
        0,
    )
}

/// The sample that supports `time`: the interval that begins there, the sample
/// of the last propagation, what is left of a cut interval, or any retained
/// interval, in this order.
pub open spec fn supporting_sample<P: Payload>(
    state: LiveCoreState<P>,
    imu: Seq<ImuInterval<P>>,
    time: SessionTime,
) -> Option<CorrectedImuSample<P>> {
    let last = state.corrected_epoch_kinematics;
    let cut = state.corrected_pending_interval;
    if right_owner(imu, time) is Some {
        Some(right_owner(imu, time)->0.spec_sample_from(time))
    } else if last is Some && last->0.support_start.ns <= time.ns <= last->0.support_end.ns {
        last
    } else if cut is Some && cut->0.start.ns <= time.ns <= cut->0.end.ns {
        Some(cut->0.spec_sample_from(cut->0.start))
    } else {
        match any_owner(imu, time) {
            Some(interval) => Some(interval.spec_sample_from(interval.start)),
            None => None,
        }
    }
}

/// The sample before `current`, as far as the last propagation knows it.
pub open spec fn preceding_sample<P: Payload>(
    state: LiveCoreState<P>,
    current: CorrectedImuSample<P>,
) -> Option<CorrectedImuSample<P>> {
    let last = state.corrected_epoch_kinematics;
    if last is Some && last->0.support_end == current.support_start {
        last
    } else {
        state.previous_corrected_kinematics
    }
}

/// Two adjacent measured samples, if there are two. A gap has no derivative.
pub open spec fn rate_pair_of<P: Payload>(
    state: LiveCoreState<P>,
    current: CorrectedImuSample<P>,
) -> Result<Option<RatePair<P>>, LiveCoreError> {
    match preceding_sample(state, current) {
        None => Ok(None),
        Some(previous) => {
            let current_ns = current.support_end.ns - current.support_start.ns;
            let previous_ns = previous.support_end.ns - previous.support_start.ns;
            if current.gap || previous.gap || previous.support_end != current.support_start {
                Ok(None)
            } else if !(i64::MIN <= current_ns <= i64::MAX) || !(i64::MIN <= previous_ns
                <= i64::MAX) {
                Err(LiveCoreError::TimeOverflow)
            } else if current_ns <= 0 || previous_ns <= 0 {
                Err(LiveCoreError::InternalInvariant)
            } else {
                Ok(
                    Some(
                        RatePair {
                            previous,
                            current_ns: current_ns as i64,
                            previous_ns: previous_ns as i64,
                        },
                    ),
                )
            }
        },
    }
}

/// The inertial evidence at `time`.
pub open spec fn kinematics_of<P: Payload>(
    state: LiveCoreState<P>,
    imu: Seq<ImuInterval<P>>,
    time: SessionTime,
) -> Result<EpochKinematics<P>, LiveCoreError> {
    match supporting_sample(state, imu, time) {
        None => Err(LiveCoreError::MissingImuSupport),
        Some(sample) => match rate_pair_of(state, sample) {
            Err(error) => Err(error),
            Ok(rate_pair) => Ok(EpochKinematics { sample, rate_pair }),
        },
    }
}

fn find_starting_at<P: Payload>(
    imu: &FixedRing<ImuInterval<P>, IMU_HISTORY_CAPACITY>,
    time: SessionTime,
) -> (found: Option<ImuInterval<P>>)
    requires
        imu.wf(),
    ensures
        found == right_owner(imu@, time),
{
    let ghost wanted = |interval: ImuInterval<P>| interval.start == time;
    let len: usize = imu.len();
    let mut offset: usize = 0;
    while offset < len
        invariant
            offset <= len,
            len == imu@.len(),
            imu.wf(),
            wanted == (|interval: ImuInterval<P>| interval.start == time),
            right_owner(imu@, time) == first_match(imu@, wanted, offset as int),
        decreases len - offset,
    {
        if let Some(interval) = imu.get(offset) {
            if interval.start == time {
                return Some(*interval);
            }
        }
        offset = offset + 1;
    }
    None
}

fn find_touching<P: Payload>(
    imu: &FixedRing<ImuInterval<P>, IMU_HISTORY_CAPACITY>,
    time: SessionTime,
) -> (found: Option<ImuInterval<P>>)
    requires
        imu.wf(),
    ensures
        found == any_owner(imu@, time),
{
    let ghost wanted = |interval: ImuInterval<P>| interval.start.ns <= time.ns <= interval.end.ns;
    let len: usize = imu.len();
    let mut offset: usize = 0;
    while offset < len
        invariant
            offset <= len,
            len == imu@.len(),
            imu.wf(),
            wanted == (|interval: ImuInterval<P>| interval.start.ns <= time.ns
                <= interval.end.ns),
            any_owner(imu@, time) == first_match(imu@, wanted, offset as int),
        decreases len - offset,
    {
        if let Some(interval) = imu.get(offset) {
            if interval.start.ns <= time.ns && time.ns <= interval.end.ns {
                return Some(*interval);
            }
        }
        offset = offset + 1;
    }
    None
}

impl<P: Payload> LiveCore<P> {
    /// The sample that supports `time` and the one before it.
    pub fn corrected_kinematics_at(&self, time: SessionTime) -> (r: Result<
        EpochKinematics<P>,
        LiveCoreError,
    >)
        requires
            self.history.imu.wf(),
        ensures
            r == kinematics_of(self.state, self.history.imu@, time),
    {
        let mut base: Option<CorrectedImuSample<P>> = match find_starting_at(
            &self.history.imu,
            time,
        ) {
            Some(interval) => Some(interval.sample_from(interval.start)),
            None => None,
        };
        proof {
            if right_owner(self.history.imu@, time) is Some {
                first_match_satisfies(
                    self.history.imu@,
                    |interval: ImuInterval<P>| interval.start == time,
                    0,
                );
            }
        }
        if base.is_none() {
            if let Some(last) = self.state.corrected_epoch_kinematics {
                if last.support_start.ns <= time.ns && time.ns <= last.support_end.ns {
                    base = Some(last);
                }
            }
        }
        if base.is_none() {
            if let Some(interval) = self.state.corrected_pending_interval {
                if interval.start.ns <= time.ns && time.ns <= interval.end.ns {
                    base = Some(interval.sample_from(interval.start));
                }
            }
        }
        if base.is_none() {
            if let Some(interval) = find_touching(&self.history.imu, time) {
                base = Some(interval.sample_from(interval.start));
            }
        }
        match base {
            None => Err(LiveCoreError::MissingImuSupport),
            Some(sample) => match self.rate_pair(sample) {
                Err(error) => Err(error),
                Ok(rate_pair) => Ok(EpochKinematics { sample, rate_pair }),
            },
        }
    }

    /// The two adjacent measured samples that end with `current`.
    fn rate_pair(&self, current: CorrectedImuSample<P>) -> (r: Result<
        Option<RatePair<P>>,
        LiveCoreError,
    >)
        ensures
            r == rate_pair_of(self.state, current),
    {
        let mut candidate = self.state.previous_corrected_kinematics;
        if let Some(last) = self.state.corrected_epoch_kinematics {
            if last.support_end == current.support_start {
                candidate = Some(last);
            }
        }
        let previous = match candidate {
            None => {
                return Ok(None);
            },
            Some(previous) => previous,
        };
        if current.gap || previous.gap || previous.support_end != current.support_start {
            return Ok(None);
        }
        let current_ns: i64 = match current.support_end.ns.checked_sub(current.support_start.ns) {
            Some(ns) => ns,
            None => {
                return Err(LiveCoreError::TimeOverflow);
            },
        };
        let previous_ns: i64 = match previous.support_end.ns.checked_sub(
            previous.support_start.ns,
        ) {
            Some(ns) => ns,
            None => {
                return Err(LiveCoreError::TimeOverflow);
            },
        };
        if current_ns <= 0 || previous_ns <= 0 {
            return Err(LiveCoreError::InternalInvariant);
        }
        Ok(Some(RatePair { previous, current_ns, previous_ns }))
    }
}

proof fn first_match_satisfies<A>(items: Seq<A>, wanted: spec_fn(A) -> bool, from: int)
    requires
        0 <= from,
    ensures
        first_match(items, wanted, from) matches Some(item) ==> wanted(item) && items.contains(
            item,
        ),
    decreases items.len() - from,
{
    if from < items.len() && !wanted(items[from]) {
        first_match_satisfies(items, wanted, from + 1);
    }
}

/// Once there is trusted evidence, the filter's own epoch is always supported,
/// by a sample whose support touches it.
pub proof fn filter_epoch_is_supported<P: Payload>(
    state: LiveCoreState<P>,
    history: LiveCoreHistory<P>,
)
    requires
        settled(state, history),
        state.scheduler@.latest_trusted_imu is Some,
    ensures
        ({
            let sample = supporting_sample(state, history.imu@, state.filter.time);
            &&& sample is Some
            &&& sample->0.support_start.ns <= state.filter.time.ns <= sample->0.support_end.ns
        }),
{
    let now = state.filter.time;
    let imu = history.imu@;
    let chain = evidence(state, history);
    first_match_satisfies(imu, |interval: ImuInterval<P>| interval.start == now, 0);
    if let Some(interval) = right_owner(imu, now) {
        let k = choose|k: int| 0 <= k < imu.len() && imu[k] == interval;
        assert(interval.verdict() is Ok) by {
            if state.corrected_pending_interval is Some {
                assert(chain[k + 1] == imu[k]);
            } else {
                assert(chain[k] == imu[k]);
            }
        }
    } else if state.corrected_epoch_kinematics is None {
        assert(chain.len() > 0);
        assert(chain[0].verdict() is Ok);
        if state.corrected_pending_interval is Some {
            assert(chain[0] == state.corrected_pending_interval->0);
        } else {
            assert(chain[0] == imu[0]);
        }
    }
}

/// The sample at an instant is one that touches it. A retained interval that begins there
/// owns the instant before anything else does, then the sample of the last propagation,
/// then the rest of a cut interval. Only an instant that nothing touches is unsupported.
pub proof fn instants_are_owned_from_the_right<P: Payload>(
    core: LiveCore<P>,
    time: SessionTime,
    answer: Result<EpochKinematics<P>, LiveCoreError>,
    i: int,
)
    requires
        call_ensures(LiveCore::<P>::corrected_kinematics_at, (&core, time), answer),
        forall|k: int|
            0 <= k < core.history.imu@.len() ==> (#[trigger] core.history.imu@[k]).start.ns
                <= core.history.imu@[k].end.ns,
    ensures
        ({
            let imu = core.history.imu@;
            let last = core.state.corrected_epoch_kinematics;
            let cut = core.state.corrected_pending_interval;
            let begins = exists|k: int| 0 <= k < imu.len() && (#[trigger] imu[k]).start == time;
            let last_touches = last is Some && last->0.support_start.ns <= time.ns
                <= last->0.support_end.ns;
            let cut_touches = cut is Some && cut->0.start.ns <= time.ns <= cut->0.end.ns;
            let kinematics = answer->Ok_0;
            &&& answer is Ok ==> kinematics.sample.support_start.ns <= time.ns
                <= kinematics.sample.support_end.ns
            &&& answer is Ok && begins ==> kinematics.sample.support_start == time
                && exists|k: int|
                0 <= k < imu.len() && (#[trigger] imu[k]).start == time && imu[k].end
                    == kinematics.sample.support_end && imu[k].omega_ib_b
                    == kinematics.sample.omega_ib_b && imu[k].specific_force_b
                    == kinematics.sample.specific_force_b && imu[k].sample_covariance
                    == kinematics.sample.sample_covariance && (imu[k].gap_elapsed_ns_plus_one > 0)
                    == kinematics.sample.gap
            &&& answer is Ok && !begins && last_touches ==> kinematics.sample
                == last->0
            &&& answer is Ok && !begins && !last_touches && cut_touches
                ==> kinematics.sample.support_start == cut->0.start && kinematics.sample.support_end
                == cut->0.end && kinematics.sample.omega_ib_b == cut->0.omega_ib_b
                && kinematics.sample.specific_force_b == cut->0.specific_force_b
                && kinematics.sample.gap == (cut->0.gap_elapsed_ns_plus_one > 0)
            &&& begins || last_touches || cut_touches || (0 <= i < imu.len() && imu[i].start.ns
                <= time.ns <= imu[i].end.ns) ==> answer != Err::<EpochKinematics<P>, LiveCoreError>(
                LiveCoreError::MissingImuSupport,
            )
        }),
{
    let imu = core.history.imu@;
    let begins = |interval: ImuInterval<P>| interval.start == time;
    let touches = |interval: ImuInterval<P>| interval.start.ns <= time.ns <= interval.end.ns;
    first_match_satisfies(imu, begins, 0);
    first_match_satisfies(imu, touches, 0);
    if exists|k: int| 0 <= k < imu.len() && (#[trigger] imu[k]).start == time {
        let k = choose|k: int| 0 <= k < imu.len() && (#[trigger] imu[k]).start == time;
        first_match_is_found(imu, begins, 0, k);
        let found = right_owner(imu, time)->0;
        let j = choose|j: int| 0 <= j < imu.len() && imu[j] == found;
        assert(imu[j].start == time);
    }
    if 0 <= i < imu.len() && imu[i].start.ns <= time.ns <= imu[i].end.ns {
        first_match_is_found(imu, touches, 0, i);
    }
}

proof fn first_match_is_found<A>(items: Seq<A>, wanted: spec_fn(A) -> bool, from: int, at: int)
    requires
        0 <= from <= at < items.len(),
        wanted(items[at]),
    ensures
        first_match(items, wanted, from) is Some,
    decreases at - from,
{
    if !wanted(items[from]) {
        first_match_is_found(items, wanted, from + 1, at);
    }
}

/// An angular acceleration follows only from two measured samples of which one ends where
/// the other begins; neither of them may bridge a gap. Their durations come with them.
pub proof fn rates_come_from_adjacent_measurements<P: Payload>(
    core: LiveCore<P>,
    time: SessionTime,
    kinematics: EpochKinematics<P>,
)
    requires
        call_ensures(
            LiveCore::<P>::corrected_kinematics_at,
            (&core, time),
            Ok::<EpochKinematics<P>, LiveCoreError>(kinematics),
        ),
    ensures
        kinematics.rate_pair matches Some(pair) ==> {
            let current = kinematics.sample;
            &&& !current.gap && !pair.previous.gap
            &&& pair.previous.support_end == current.support_start
            &&& pair.current_ns > 0 && current.support_start.ns + pair.current_ns
                == current.support_end.ns
            &&& pair.previous_ns > 0 && pair.previous.support_start.ns + pair.previous_ns
                == pair.previous.support_end.ns
            &&& core.state.corrected_epoch_kinematics == Some(pair.previous)
                || core.state.previous_corrected_kinematics == Some(pair.previous)
        },
        ({
            let current = kinematics.sample;
            let last = core.state.corrected_epoch_kinematics;
            let before = core.state.previous_corrected_kinematics;
            &&& last is Some && !last->0.gap && !current.gap && last->0.support_end
                == current.support_start ==> kinematics.rate_pair is Some
                && kinematics.rate_pair->0.previous == last->0
            &&& before is Some && !before->0.gap && !current.gap && before->0.support_end
                == current.support_start && (last is None || last->0.support_end
                != current.support_start) ==> kinematics.rate_pair is Some
                && kinematics.rate_pair->0.previous == before->0
        }),
{
}

/// Where nothing else supports an instant, the retained interval that touches it does, over
/// its own support.
pub proof fn retained_intervals_support_last<P: Payload>(
    core: LiveCore<P>,
    time: SessionTime,
    kinematics: EpochKinematics<P>,
)
    requires
        call_ensures(
            LiveCore::<P>::corrected_kinematics_at,
            (&core, time),
            Ok::<EpochKinematics<P>, LiveCoreError>(kinematics),
        ),
        core.state.corrected_epoch_kinematics is None,
        core.state.corrected_pending_interval is None,
    ensures
        exists|k: int|
            0 <= k < core.history.imu@.len() && (#[trigger] core.history.imu@[k]).start
                == kinematics.sample.support_start && core.history.imu@[k].end
                == kinematics.sample.support_end && core.history.imu@[k].omega_ib_b
                == kinematics.sample.omega_ib_b && core.history.imu@[k].specific_force_b
                == kinematics.sample.specific_force_b && (
            core.history.imu@[k].gap_elapsed_ns_plus_one > 0) == kinematics.sample.gap,
{
    let imu = core.history.imu@;
    let begins = |interval: ImuInterval<P>| interval.start == time;
    let touches = |interval: ImuInterval<P>| interval.start.ns <= time.ns <= interval.end.ns;
    first_match_satisfies(imu, begins, 0);
    first_match_satisfies(imu, touches, 0);
    if let Some(found) = right_owner(imu, time) {
        let j = choose|j: int| 0 <= j < imu.len() && imu[j] == found;
        assert(imu[j].start == kinematics.sample.support_start);
    } else {
        let found = any_owner(imu, time)->0;
        let j = choose|j: int| 0 <= j < imu.len() && imu[j] == found;
        assert(imu[j].start == kinematics.sample.support_start);
    }
}

} // verus!
