//! Limits and configuration of the live core.
use vstd::prelude::*;

use crate::capacity::{MAX_HISTORY_HORIZON_NS, MEASUREMENT_QUEUE_CAPACITY};
use crate::error::{EskfError, LiveCoreError, PredictorError, PreintegrationError};
use crate::gnss::GnssObservation;
use crate::imu::GapModel;
use crate::payload::Payload;
use crate::rts_window::MAX_SMOOTHING_LAG_NS;
use crate::scheduler::FrontierScheduler;
use crate::time::SessionTime;

verus! {

/// The fastest navigation cadence is 400 Hz, the slowest 100 Hz.
pub const MIN_NAVIGATION_PERIOD_NS: i64 = 2_500_000;

pub const MAX_NAVIGATION_PERIOD_NS: i64 = 10_000_000;

/// Longest inertial observation, apart from an explicit bridge.
pub const MAX_IMU_INTERVAL_NS: i64 = 10_000_000;

/// Most predictor segments that one observation may complete.
pub const MAX_PREDICTOR_SEGMENTS_PER_INGEST: usize = 10;

/// Prices of the operations at the corrected frontier.
pub const IMU_SLICE_CREDITS: u16 = 1;

pub const FILTER_PROPAGATION_CREDITS: u16 = 8;

pub const GNSS_UPDATE_CREDITS: u16 = 12;

pub const SEGMENT_FINALIZATION_CREDITS: u16 = 1;

pub const FRONTIER_COMMIT_CREDITS: u16 = 1;

/// A propagation is not begun with fewer credits: one slice and the filter.
pub const MIN_PROPAGATION_CREDITS: u16 = 9;

/// Most slices of one propagation.
pub const MAX_PROPAGATION_SLICES: usize = 32;

#[derive(Clone, Copy, Debug, PartialEq)]
pub struct LiveCoreConfig<P: Payload> {
    pub fusion_delay_ns: i64,
    pub smoothing_lag_ns: i64,
    pub navigation_period_ns: i64,
    /// Whether the noise densities are covariances and the bias validity
    /// radius is finite and positive.
    pub tuning_is_valid: bool,
    pub nis_gate_is_valid: bool,
    pub predictor_is_valid: bool,
    pub gap: GapModel<P>,
}

impl<P: Payload> LiveCoreConfig<P> {
    /// Whether every duration is within its limits.
    pub open spec fn durations_are_valid(self) -> bool {
        &&& MIN_NAVIGATION_PERIOD_NS <= self.navigation_period_ns <= MAX_NAVIGATION_PERIOD_NS
        &&& self.navigation_period_ns <= self.fusion_delay_ns <= MAX_HISTORY_HORIZON_NS
        &&& 0 <= self.smoothing_lag_ns <= MAX_SMOOTHING_LAG_NS
    }

    /// The verdict on a configuration.
    pub open spec fn verdict(self) -> Result<(), LiveCoreError> {
        if !self.durations_are_valid() || !self.tuning_is_valid {
            Err(LiveCoreError::InvalidConfiguration)
        } else if !self.nis_gate_is_valid {
            Err(LiveCoreError::Eskf(EskfError::InvalidConfiguration))
        } else if !self.predictor_is_valid {
            Err(LiveCoreError::Predictor(PredictorError::InvalidConfiguration))
        } else if !self.gap.valid() {
            Err(LiveCoreError::Preintegration(PreintegrationError::InvalidGapModel))
        } else {
            Ok(())
        }
    }

    pub fn validate(&self) -> (r: Result<(), LiveCoreError>)
        ensures
            r == self.verdict(),
    {
        if self.navigation_period_ns < MIN_NAVIGATION_PERIOD_NS || self.navigation_period_ns
            > MAX_NAVIGATION_PERIOD_NS || self.fusion_delay_ns < self.navigation_period_ns
            || self.fusion_delay_ns > MAX_HISTORY_HORIZON_NS as i64 || self.smoothing_lag_ns < 0
            || self.smoothing_lag_ns > MAX_SMOOTHING_LAG_NS || !self.tuning_is_valid {
            return Err(LiveCoreError::InvalidConfiguration);
        }
        match FrontierScheduler::<
            GnssObservation<P>,
            MEASUREMENT_QUEUE_CAPACITY,
        >::validate_fusion_delay(self.fusion_delay_ns) {
            Err(error) => {
                return Err(LiveCoreError::Scheduler(error));
            },
            Ok(_) => {},
        }
        if !self.nis_gate_is_valid {
            return Err(LiveCoreError::Eskf(EskfError::InvalidConfiguration));
        }
        if !self.predictor_is_valid {
            return Err(LiveCoreError::Predictor(PredictorError::InvalidConfiguration));
        }
        match self.gap.validate() {
            Err(error) => Err(LiveCoreError::Preintegration(error)),
            Ok(_) => Ok(()),
        }
    }
}

/// `nanoseconds` after `time`, where that fits.
pub open spec fn time_sum(time: SessionTime, nanoseconds: i64) -> Result<
    SessionTime,
    LiveCoreError,
> {
    if i64::MIN <= time.ns + nanoseconds <= i64::MAX {
        Ok(SessionTime { ns: (time.ns + nanoseconds) as i64 })
    } else {
        Err(LiveCoreError::TimeOverflow)
    }
}

pub fn checked_time_add(time: SessionTime, nanoseconds: i64) -> (r: Result<
    SessionTime,
    LiveCoreError,
>)
    ensures
        r == time_sum(time, nanoseconds),
{
    match time.ns.checked_add(nanoseconds) {
        Some(ns) => Ok(SessionTime::from_ns(ns)),
        None => Err(LiveCoreError::TimeOverflow),
    }
}

/// A configuration is accepted exactly if the navigation period is between 2.5 and 10
/// milliseconds, the delay is no shorter than the period and no longer than half a
/// second, the smoothing lag is at most a tenth of a second, and everything else about it
/// is valid. The first thing that is wrong names the error.
pub proof fn configurations_are_bounded<P: Payload>(
    config: LiveCoreConfig<P>,
    checked: Result<(), LiveCoreError>,
)
    requires
        call_ensures(LiveCoreConfig::<P>::validate, (&config,), checked),
    ensures
        ({
            let durations = 2_500_000 <= config.navigation_period_ns <= 10_000_000
                && config.navigation_period_ns <= config.fusion_delay_ns && config.fusion_delay_ns
                <= 500_000_000 && 0 <= config.smoothing_lag_ns <= 100_000_000;
            let gap = 0 < config.gap.maximum_gap_ns <= 10_000_000 && config.gap.sigmas_are_valid;
            &&& checked is Ok <==> durations && config.tuning_is_valid && config.nis_gate_is_valid
                && config.predictor_is_valid && gap
            &&& checked == Err::<(), LiveCoreError>(LiveCoreError::InvalidConfiguration) <==> !(
            durations && config.tuning_is_valid)
            &&& durations && config.tuning_is_valid && !config.nis_gate_is_valid ==> checked
                == Err::<(), LiveCoreError>(LiveCoreError::Eskf(EskfError::InvalidConfiguration))
            &&& durations && config.tuning_is_valid && config.nis_gate_is_valid
                && !config.predictor_is_valid ==> checked == Err::<(), LiveCoreError>(
                LiveCoreError::Predictor(PredictorError::InvalidConfiguration),
            )
            &&& durations && config.tuning_is_valid && config.nis_gate_is_valid
                && config.predictor_is_valid && !gap ==> checked == Err::<(), LiveCoreError>(
                LiveCoreError::Preintegration(PreintegrationError::InvalidGapModel),
            )
        }),
{
}

/// Adding leads exactly as far ahead as it says, or is refused.
pub proof fn sums_lead_ahead(
    time: SessionTime,
    nanoseconds: i64,
    sum: Result<SessionTime, LiveCoreError>,
)
    requires
        call_ensures(checked_time_add, (time, nanoseconds), sum),
    ensures
        sum matches Ok(later) ==> later.ns - time.ns == nanoseconds,
        sum is Err <==> time.ns + nanoseconds > i64::MAX || time.ns + nanoseconds < i64::MIN,
        sum is Err ==> sum->Err_0 == LiveCoreError::TimeOverflow,
{
}

} // verus!
