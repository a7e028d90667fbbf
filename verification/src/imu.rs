//! Inertial intervals, their splitting, and bridges over short gaps.
use vstd::prelude::*;
use vstd::std_specs::cmp::PartialEqSpec;

use crate::error::{LiveCoreError, PreintegrationError};
use crate::payload::Payload;
use crate::time::SessionTime;

verus! {

/// Longest gap that any profile may bridge.
pub const V2_MINI_MAXIMUM_GAP_NS: i64 = 10_000_000;

/// One complete, calibrated and support-aligned inertial interval. The rate
/// and the force are averages over the interval.
#[derive(Clone, Copy, Debug, PartialEq)]
pub struct ImuInterval<P: Payload> {
    pub start: SessionTime,
    pub end: SessionTime,
    pub omega_ib_b: P::Vector,
    pub specific_force_b: P::Vector,
    pub sample_covariance: P::SampleCovariance,
    pub body_from_sensor: P::Mounting,
    /// Whether the vectors and the mounting are finite and the sample
    /// covariance is a covariance.
    pub values_are_valid: bool,
    pub degraded_input: bool,
    /// Zero for measured support. A held-vector gap stores one plus the
    /// nanoseconds from the beginning of the whole gap to this piece's start.
    pub gap_elapsed_ns_plus_one: u32,
    /// First coordinate of the installation block in the consider vector, when
    /// the profile propagates it.
    pub calibration_consider_start: Option<u8>,
}

/// How gaps are bridged.
#[derive(Clone, Copy, Debug, PartialEq)]
pub struct GapModel<P: Payload> {
    pub maximum_gap_ns: i64,
    /// Whether the configured sigmas are finite and not negative.
    pub sigmas_are_valid: bool,
    pub derivative_covariance: P::GapDerivative,
}

/// The inertial sample that supports one instant of the corrected solution.
#[derive(Clone, Copy, Debug, PartialEq)]
pub struct CorrectedImuSample<P: Payload> {
    pub support_start: SessionTime,
    pub support_end: SessionTime,
    pub omega_ib_b: P::Vector,
    pub specific_force_b: P::Vector,
    pub sample_covariance: P::SampleCovariance,
    pub gap: bool,
}

/// Whether `==` on the carried inertial values is a function of the values.
pub open spec fn comparable<P: Payload>() -> bool {
    <P::Vector as PartialEqSpec>::obeys_eq_spec() && <P::SampleCovariance as PartialEqSpec>::obeys_eq_spec()
        && <P::GapDerivative as PartialEqSpec>::obeys_eq_spec()
}

/// Whether two samples hold the same measured values.
pub open spec fn same_values<P: Payload>(
    a_rate: P::Vector,
    a_force: P::Vector,
    a_covariance: P::SampleCovariance,
    b_rate: P::Vector,
    b_force: P::Vector,
    b_covariance: P::SampleCovariance,
) -> bool {
    &&& a_rate.eq_spec(&b_rate)
    &&& a_force.eq_spec(&b_force)
    &&& a_covariance.eq_spec(&b_covariance)
}

impl<P: Payload> ImuInterval<P> {
    pub open spec fn spec_is_gap(&self) -> bool {
        self.gap_elapsed_ns_plus_one != 0
    }

    #[verifier::when_used_as_spec(spec_is_gap)]
    pub fn is_gap(&self) -> (gap: bool)
        ensures
            gap == self.spec_is_gap(),
    {
        self.gap_elapsed_ns_plus_one != 0
    }

    /// The verdict on one interval.
    pub open spec fn verdict(self) -> Result<(), PreintegrationError> {
        if !(i64::MIN <= self.end.ns - self.start.ns <= i64::MAX) {
            Err(PreintegrationError::TimeOverflow)
        } else if self.end.ns <= self.start.ns {
            Err(PreintegrationError::InvalidDuration)
        } else if !self.values_are_valid {
            Err(PreintegrationError::NonFinite)
        } else {
            Ok(())
        }
    }

    /// Start of the whole gap that this piece belongs to.
    pub open spec fn spec_gap_origin(self) -> Result<Option<SessionTime>, PreintegrationError> {
        if !self.is_gap() {
            Ok(None)
        } else if self.start.ns - (self.gap_elapsed_ns_plus_one - 1) < i64::MIN {
            Err(PreintegrationError::TimeOverflow)
        } else {
            Ok(Some(SessionTime { ns: (self.start.ns - (self.gap_elapsed_ns_plus_one - 1)) as i64 }))
        }
    }

    pub fn gap_origin(&self) -> (r: Result<Option<SessionTime>, PreintegrationError>)
        ensures
            r == self.spec_gap_origin(),
    {
        if self.gap_elapsed_ns_plus_one == 0 {
            return Ok(None);
        }
        let elapsed_ns: i64 = (self.gap_elapsed_ns_plus_one - 1) as i64;
        match self.start.ns.checked_sub(elapsed_ns) {
            Some(ns) => Ok(Some(SessionTime::from_ns(ns))),
            None => Err(PreintegrationError::TimeOverflow),
        }
    }

    /// The length of the interval in nanoseconds.
    pub fn duration_ns(&self) -> (r: Result<i64, PreintegrationError>)
        ensures
            r == (if !(i64::MIN <= self.end.ns - self.start.ns <= i64::MAX) {
                Err::<i64, PreintegrationError>(PreintegrationError::TimeOverflow)
            } else if self.end.ns <= self.start.ns {
                Err(PreintegrationError::InvalidDuration)
            } else {
                Ok((self.end.ns - self.start.ns) as i64)
            }),
    {
        match self.end.ns.checked_sub(self.start.ns) {
            None => Err(PreintegrationError::TimeOverflow),
            Some(ns) => if ns <= 0 {
                Err(PreintegrationError::InvalidDuration)
            } else {
                Ok(ns)
            },
        }
    }

    pub fn validate(&self) -> (r: Result<(), PreintegrationError>)
        ensures
            r == self.verdict(),
    {
        match self.duration_ns() {
            Err(error) => Err(error),
            Ok(_) => if !self.values_are_valid {
                Err(PreintegrationError::NonFinite)
            } else {
                Ok(())
            },
        }
    }

    /// The verdict on bridging from `previous` to `target`.
    pub open spec fn bridge_verdict(
        previous: Self,
        target: SessionTime,
        model: GapModel<P>,
    ) -> Result<(), PreintegrationError> {
        if !model.valid() {
            Err(PreintegrationError::InvalidGapModel)
        } else if previous.verdict() is Err {
            previous.verdict()
        } else if !(i64::MIN <= target.ns - previous.end.ns <= i64::MAX) {
            Err(PreintegrationError::TimeOverflow)
        } else if target.ns <= previous.end.ns {
            Err(PreintegrationError::InvalidDuration)
        } else if target.ns - previous.end.ns > model.maximum_gap_ns {
            Err(PreintegrationError::GapTooLong)
        } else {
            Ok(())
        }
    }

    /// The interval that holds `previous` until `target`.
    pub open spec fn bridge(previous: Self, target: SessionTime) -> Self {
        ImuInterval {
            start: previous.end,
            end: target,
            gap_elapsed_ns_plus_one: 1,
            ..previous
        }
    }

    /// Bridges a short, declared loss of inertial support by holding the last
    /// qualified vectors.
    pub fn bridge_after(previous: Self, target: SessionTime, model: GapModel<P>) -> (r: Result<
        Self,
        PreintegrationError,
    >)
        ensures
            match Self::bridge_verdict(previous, target, model) {
                Err(error) => r == Err::<Self, PreintegrationError>(error),
                Ok(_) => r == Ok::<Self, PreintegrationError>(Self::bridge(previous, target)),
            },
    {
        match model.validate() {
            Err(error) => {
                return Err(error);
            },
            Ok(_) => {},
        }
        match previous.validate() {
            Err(error) => {
                return Err(error);
            },
            Ok(_) => {},
        }
        let gap_ns: i64 = match target.ns.checked_sub(previous.end.ns) {
            Some(ns) => ns,
            None => {
                return Err(PreintegrationError::TimeOverflow);
            },
        };
        if gap_ns <= 0 {
            return Err(PreintegrationError::InvalidDuration);
        }
        if gap_ns > model.maximum_gap_ns {
            return Err(PreintegrationError::GapTooLong);
        }
        let mut bridge = previous;
        bridge.start = previous.end;
        bridge.end = target;
        bridge.gap_elapsed_ns_plus_one = 1;
        Ok(bridge)
    }

    /// The interval's sample as support from `support_start` on.
    pub open spec fn spec_sample_from(self, support_start: SessionTime) -> CorrectedImuSample<P> {
        CorrectedImuSample {
            support_start,
            support_end: self.end,
            omega_ib_b: self.omega_ib_b,
            specific_force_b: self.specific_force_b,
            sample_covariance: self.sample_covariance,
            gap: self.is_gap(),
        }
    }

    pub fn sample_from(&self, support_start: SessionTime) -> (sample: CorrectedImuSample<P>)
        ensures
            sample == self.spec_sample_from(support_start),
    {
        CorrectedImuSample {
            support_start,
            support_end: self.end,
            omega_ib_b: self.omega_ib_b,
            specific_force_b: self.specific_force_b,
            sample_covariance: self.sample_covariance,
            gap: self.is_gap(),
        }
    }

    /// The part of a split before `cut`.
    pub open spec fn prefix(self, cut: SessionTime) -> Self {
        ImuInterval { end: cut, ..self }
    }

    /// The part of a split from `cut` on. A gap remembers how long it has
    /// lasted.
    pub open spec fn suffix(self, cut: SessionTime) -> Self {
        ImuInterval {
            start: cut,
            gap_elapsed_ns_plus_one: (if self.is_gap() {
                self.gap_elapsed_ns_plus_one + (cut.ns - self.start.ns)
            } else {
                0
            }) as u32,
            ..self
        }
    }
}

impl<P: Payload> GapModel<P> {
    pub open spec fn valid(self) -> bool {
        0 < self.maximum_gap_ns <= V2_MINI_MAXIMUM_GAP_NS && self.sigmas_are_valid
    }

    pub fn validate(&self) -> (r: Result<(), PreintegrationError>)
        ensures
            r == (if self.valid() {
                Ok::<(), PreintegrationError>(())
            } else {
                Err(PreintegrationError::InvalidGapModel)
            }),
    {
        if self.maximum_gap_ns <= 0 || self.maximum_gap_ns > V2_MINI_MAXIMUM_GAP_NS
            || !self.sigmas_are_valid {
            Err(PreintegrationError::InvalidGapModel)
        } else {
            Ok(())
        }
    }
}

impl<P: Payload> CorrectedImuSample<P> {
    /// Whether both samples carry the error of one and the same measurement: a
    /// gap keeps the measurement that it holds.
    pub open spec fn shares_latent(self, previous: Self) -> bool {
        &&& same_values::<P>(
            self.omega_ib_b,
            self.specific_force_b,
            self.sample_covariance,
            previous.omega_ib_b,
            previous.specific_force_b,
            previous.sample_covariance,
        )
        &&& (self.support_start == previous.support_start && self.support_end
            == previous.support_end && self.gap == previous.gap) || (self.gap && self.support_start
            == previous.support_end)
    }

    pub fn same_latent_as(self, previous: Self) -> (same: bool)
        requires
            comparable::<P>(),
        ensures
            same == self.shares_latent(previous),
    {
        self.omega_ib_b == previous.omega_ib_b && self.specific_force_b == previous.specific_force_b
            && self.sample_covariance == previous.sample_covariance && ((self.support_start
            == previous.support_start && self.support_end == previous.support_end && self.gap
            == previous.gap) || (self.gap && self.support_start == previous.support_end))
    }
}

/// Cuts `interval` at `cut`. A cut at the end leaves no second part.
pub open spec fn split_verdict<P: Payload>(
    interval: ImuInterval<P>,
    cut: SessionTime,
) -> Result<(ImuInterval<P>, Option<ImuInterval<P>>), LiveCoreError> {
    if cut.ns <= interval.start.ns || cut.ns > interval.end.ns {
        Err(LiveCoreError::InternalInvariant)
    } else if cut.ns == interval.end.ns {
        Ok((interval, None))
    } else if interval.is_gap() && interval.gap_elapsed_ns_plus_one + (cut.ns - interval.start.ns)
        > u32::MAX {
        Err(LiveCoreError::TimeOverflow)
    } else {
        Ok((interval.prefix(cut), Some(interval.suffix(cut))))
    }
}

pub fn split_interval<P: Payload>(interval: ImuInterval<P>, cut: SessionTime) -> (r: Result<
    (ImuInterval<P>, Option<ImuInterval<P>>),
    LiveCoreError,
>)
    ensures
        r == split_verdict(interval, cut),
{
    if cut.ns <= interval.start.ns || cut.ns > interval.end.ns {
        return Err(LiveCoreError::InternalInvariant);
    }
    if cut.ns == interval.end.ns {
        return Ok((interval, None));
    }
    let mut prefix = interval;
    prefix.end = cut;
    let mut suffix = interval;
    suffix.start = cut;
    if interval.is_gap() {
        let prefix_ns: u32 = match cut.ns.checked_sub(interval.start.ns) {
            Some(ns) => if ns > u32::MAX as i64 {
                return Err(LiveCoreError::TimeOverflow);
            } else {
                ns as u32
            },
            None => {
                return Err(LiveCoreError::TimeOverflow);
            },
        };
        suffix.gap_elapsed_ns_plus_one =
        match interval.gap_elapsed_ns_plus_one.checked_add(prefix_ns) {
            Some(elapsed) => elapsed,
            None => {
                return Err(LiveCoreError::TimeOverflow);
            },
        };
    }
    Ok((prefix, Some(suffix)))
}

/// Cutting neither loses nor repeats support, keeps the measured values, and
/// leaves both parts in the same gap.
pub proof fn split_partitions_support<P: Payload>(interval: ImuInterval<P>, cut: SessionTime)
    requires
        interval.start.ns < cut.ns < interval.end.ns,
        split_verdict(interval, cut) is Ok,
    ensures
        ({
            let prefix = split_verdict(interval, cut)->Ok_0.0;
            let suffix = split_verdict(interval, cut)->Ok_0.1->0;
            &&& prefix.start == interval.start
            &&& prefix.end == cut
            &&& suffix.start == cut
            &&& suffix.end == interval.end
            &&& prefix.omega_ib_b == interval.omega_ib_b && suffix.omega_ib_b == interval.omega_ib_b
            &&& prefix.specific_force_b == interval.specific_force_b && suffix.specific_force_b
                == interval.specific_force_b
            &&& prefix.is_gap() == interval.is_gap() && suffix.is_gap() == interval.is_gap()
            &&& prefix.spec_gap_origin() == interval.spec_gap_origin()
            &&& suffix.spec_gap_origin() == interval.spec_gap_origin()
            &&& interval.verdict() is Ok ==> prefix.verdict() is Ok && suffix.verdict() is Ok
        }),
{
}

/// Cutting an interval gives two pieces that meet at the cut and hold everything else
/// that the whole one held. Pieces of a gap know the beginning of the whole gap, and
/// pieces of measured support do not become a gap. A cut at the end leaves the whole.
pub proof fn pieces_hold_what_the_whole_held<P: Payload>(
    interval: ImuInterval<P>,
    cut: SessionTime,
    pieces: Result<(ImuInterval<P>, Option<ImuInterval<P>>), LiveCoreError>,
)
    requires
        call_ensures(split_interval::<P>, (interval, cut), pieces),
    ensures
        pieces is Ok ==> interval.start.ns < cut.ns <= interval.end.ns,
        pieces matches Ok((first, rest)) ==> {
            &&& first.start == interval.start && first.end == cut
            &&& rest is None <==> cut == interval.end
            &&& rest is Some ==> rest->0.start == cut && rest->0.end == interval.end
            &&& rest is None ==> first == interval
            &&& first.gap_elapsed_ns_plus_one == interval.gap_elapsed_ns_plus_one
            &&& rest is Some && interval.gap_elapsed_ns_plus_one == 0
                ==> rest->0.gap_elapsed_ns_plus_one == 0
            &&& rest is Some && interval.gap_elapsed_ns_plus_one > 0
                ==> rest->0.gap_elapsed_ns_plus_one - interval.gap_elapsed_ns_plus_one == cut.ns
                - interval.start.ns
            &&& first.omega_ib_b == interval.omega_ib_b && first.specific_force_b
                == interval.specific_force_b && first.sample_covariance
                == interval.sample_covariance && first.body_from_sensor == interval.body_from_sensor
                && first.values_are_valid == interval.values_are_valid && first.degraded_input
                == interval.degraded_input && first.calibration_consider_start
                == interval.calibration_consider_start
            &&& rest matches Some(rest) ==> rest.omega_ib_b == interval.omega_ib_b
                && rest.specific_force_b == interval.specific_force_b && rest.sample_covariance
                == interval.sample_covariance && rest.body_from_sensor == interval.body_from_sensor
                && rest.values_are_valid == interval.values_are_valid && rest.degraded_input
                == interval.degraded_input && rest.calibration_consider_start
                == interval.calibration_consider_start
        },
        interval.start.ns < cut.ns <= interval.end.ns && interval.gap_elapsed_ns_plus_one == 0
            ==> pieces is Ok,
        interval.start.ns < cut.ns <= interval.end.ns && interval.gap_elapsed_ns_plus_one + (cut.ns
            - interval.start.ns) <= u32::MAX ==> pieces is Ok,
        cut.ns <= interval.start.ns || cut.ns > interval.end.ns ==> pieces == Err::<
            (ImuInterval<P>, Option<ImuInterval<P>>),
            LiveCoreError,
        >(LiveCoreError::InternalInvariant),
{
}

/// A bridge reaches from the end of the last interval to the target, holds its values,
/// and is marked as a gap that begins there. Only a gap that is real and no longer than
/// the model allows is bridged; the first thing that is wrong names the error.
pub proof fn bridges_hold_the_last_values<P: Payload>(
    previous: ImuInterval<P>,
    target: SessionTime,
    model: GapModel<P>,
    bridged: Result<ImuInterval<P>, PreintegrationError>,
    origin: Result<Option<SessionTime>, PreintegrationError>,
)
    requires
        call_ensures(ImuInterval::<P>::bridge_after, (previous, target, model), bridged),
        bridged is Ok ==> call_ensures(ImuInterval::<P>::gap_origin, (&bridged->Ok_0,), origin),
    ensures
        ({
            let gap_ns = target.ns - previous.end.ns;
            let model_is_valid = 0 < model.maximum_gap_ns <= 10_000_000 && model.sigmas_are_valid;
            let previous_is_valid = 0 < previous.end.ns - previous.start.ns <= i64::MAX
                && previous.values_are_valid;
            &&& bridged is Ok <==> model_is_valid && previous_is_valid && 0 < gap_ns
                <= model.maximum_gap_ns
            &&& bridged matches Ok(bridge) ==> {
                &&& bridge.start == previous.end && bridge.end == target
                &&& bridge.gap_elapsed_ns_plus_one == 1
                &&& origin == Ok::<Option<SessionTime>, PreintegrationError>(Some(previous.end))
                &&& bridge.omega_ib_b == previous.omega_ib_b
                &&& bridge.specific_force_b == previous.specific_force_b
                &&& bridge.sample_covariance == previous.sample_covariance
                &&& bridge.body_from_sensor == previous.body_from_sensor
                &&& bridge.values_are_valid == previous.values_are_valid
                &&& bridge.degraded_input == previous.degraded_input
                &&& bridge.calibration_consider_start == previous.calibration_consider_start
            }
            &&& !model_is_valid ==> bridged == Err::<ImuInterval<P>, PreintegrationError>(
                PreintegrationError::InvalidGapModel,
            )
            &&& model_is_valid && previous_is_valid && model.maximum_gap_ns < gap_ns <= i64::MAX
                ==> bridged == Err::<ImuInterval<P>, PreintegrationError>(
                PreintegrationError::GapTooLong,
            )
            &&& model_is_valid && previous_is_valid && i64::MIN <= gap_ns <= 0 ==> bridged == Err::<
                ImuInterval<P>,
                PreintegrationError,
            >(PreintegrationError::InvalidDuration)
        }),
{
}

/// Every piece of a gap leads back to the same beginning, however often it is cut.
pub proof fn pieces_share_the_beginning_of_the_gap<P: Payload>(
    interval: ImuInterval<P>,
    cut: SessionTime,
    first: ImuInterval<P>,
    rest: ImuInterval<P>,
    whole_origin: SessionTime,
    first_origin: Result<Option<SessionTime>, PreintegrationError>,
    rest_origin: Result<Option<SessionTime>, PreintegrationError>,
)
    requires
        call_ensures(
            split_interval::<P>,
            (interval, cut),
            Ok::<(ImuInterval<P>, Option<ImuInterval<P>>), LiveCoreError>((first, Some(rest))),
        ),
        call_ensures(
            ImuInterval::<P>::gap_origin,
            (&interval,),
            Ok::<Option<SessionTime>, PreintegrationError>(Some(whole_origin)),
        ),
        call_ensures(ImuInterval::<P>::gap_origin, (&first,), first_origin),
        call_ensures(ImuInterval::<P>::gap_origin, (&rest,), rest_origin),
    ensures
        first_origin == Ok::<Option<SessionTime>, PreintegrationError>(Some(whole_origin)),
        rest_origin == first_origin,
        whole_origin.ns <= interval.start.ns,
        whole_origin.ns + interval.gap_elapsed_ns_plus_one == interval.start.ns + 1,
{
}

/// Measured support has no gap to lead back to.
pub proof fn measured_support_is_no_gap<P: Payload>(
    interval: ImuInterval<P>,
    gap: bool,
    origin: Result<Option<SessionTime>, PreintegrationError>,
)
    requires
        call_ensures(ImuInterval::<P>::is_gap, (&interval,), gap),
        call_ensures(ImuInterval::<P>::gap_origin, (&interval,), origin),
    ensures
        gap <==> interval.gap_elapsed_ns_plus_one > 0,
        !gap ==> origin == Ok::<Option<SessionTime>, PreintegrationError>(None),
        gap ==> origin != Ok::<Option<SessionTime>, PreintegrationError>(None),
{
}

/// An interval is usable exactly if it takes time and its values are valid; its
/// duration is the distance of its ends.
pub proof fn usable_intervals_take_time<P: Payload>(
    interval: ImuInterval<P>,
    checked: Result<(), PreintegrationError>,
    duration: Result<i64, PreintegrationError>,
)
    requires
        call_ensures(ImuInterval::<P>::validate, (&interval,), checked),
        call_ensures(ImuInterval::<P>::duration_ns, (&interval,), duration),
    ensures
        duration matches Ok(ns) ==> ns > 0 && interval.start.ns + ns == interval.end.ns,
        duration is Ok <==> 0 < interval.end.ns - interval.start.ns <= i64::MAX,
        checked is Ok <==> duration is Ok && interval.values_are_valid,
        duration is Err ==> checked == Err::<(), PreintegrationError>(duration->Err_0),
        duration is Ok && !interval.values_are_valid ==> checked == Err::<(), PreintegrationError>(
            PreintegrationError::NonFinite,
        ),
        interval.end.ns <= interval.start.ns && interval.end.ns - interval.start.ns >= i64::MIN
            ==> duration == Err::<i64, PreintegrationError>(PreintegrationError::InvalidDuration),
{
}

/// A sample is the interval's own measurement over the support that is asked for.
pub proof fn samples_hold_their_interval<P: Payload>(
    interval: ImuInterval<P>,
    support_start: SessionTime,
    sample: CorrectedImuSample<P>,
)
    requires
        call_ensures(ImuInterval::<P>::sample_from, (&interval, support_start), sample),
    ensures
        sample.support_start == support_start,
        sample.support_end == interval.end,
        sample.omega_ib_b == interval.omega_ib_b,
        sample.specific_force_b == interval.specific_force_b,
        sample.sample_covariance == interval.sample_covariance,
        sample.gap <==> interval.gap_elapsed_ns_plus_one > 0,
{
}

/// Two samples carry one error if they are one measurement over one support, or if the
/// later one bridges a gap with the values of the earlier one. Measurements that differ
/// never share theirs, and two measured supports that follow each other do not either.
pub proof fn held_values_share_their_error<P: Payload>(
    sample: CorrectedImuSample<P>,
    previous: CorrectedImuSample<P>,
    same: bool,
)
    requires
        call_ensures(CorrectedImuSample::<P>::same_latent_as, (sample, previous), same),
    ensures
        ({
            let equal = sample.omega_ib_b.eq_spec(&previous.omega_ib_b)
                && sample.specific_force_b.eq_spec(&previous.specific_force_b)
                && sample.sample_covariance.eq_spec(&previous.sample_covariance);
            &&& !equal ==> !same
            &&& equal && sample.support_start == previous.support_start && sample.support_end
                == previous.support_end && sample.gap == previous.gap ==> same
            &&& equal && sample.gap && sample.support_start == previous.support_end ==> same
            &&& same && !sample.gap ==> sample.support_start == previous.support_start
                && sample.support_end == previous.support_end && !previous.gap
            &&& same && sample.support_start != previous.support_end ==> sample.support_start
                == previous.support_start && sample.support_end == previous.support_end
                && sample.gap == previous.gap
        }),
{
}

/// Only a gap that has lasted too long to be counted cannot be cut.
pub proof fn uncountable_gaps_are_not_cut<P: Payload>(
    interval: ImuInterval<P>,
    cut: SessionTime,
    pieces: Result<(ImuInterval<P>, Option<ImuInterval<P>>), LiveCoreError>,
)
    requires
        interval.start.ns < cut.ns < interval.end.ns,
        call_ensures(split_interval::<P>, (interval, cut), pieces),
    ensures
        pieces is Err <==> interval.gap_elapsed_ns_plus_one > 0 && interval.gap_elapsed_ns_plus_one
            + cut.ns - interval.start.ns > u32::MAX,
        pieces is Err ==> pieces->Err_0 == LiveCoreError::TimeOverflow,
{
}

} // verus!
