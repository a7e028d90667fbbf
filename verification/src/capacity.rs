//! Compile-time capacities and the preflight of a requested profile.
use vstd::prelude::*;

verus! {

/// Fixed capacities. A profile may ask for less, never for more.
pub const IMU_HISTORY_CAPACITY: usize = 1_024;

pub const MEASUREMENT_QUEUE_CAPACITY: usize = 128;

pub const DENSE_HISTORY_CAPACITY: usize = 208;

pub const MAX_IMU_RATE_HZ: u32 = 1_750;

pub const MAX_POSITION_RATE_HZ: u32 = 50;

pub const MAX_VELOCITY_RATE_HZ: u32 = 50;

pub const MAX_NAVIGATION_RATE_HZ: u32 = 400;

pub const MAX_HISTORY_HORIZON_NS: u64 = 500_000_000;

#[derive(Clone, Copy, Debug, PartialEq, Eq, Structural)]
pub struct CapacityRequest {
    pub imu_rate_hz: u32,
    pub position_rate_hz: u32,
    pub velocity_rate_hz: u32,
    pub navigation_rate_hz: u32,
    pub fusion_and_guard_ns: u64,
    pub transition_reserve: usize,
}

#[derive(Clone, Copy, Debug, PartialEq, Eq, Structural)]
pub struct RequiredCapacities {
    pub imu: usize,
    pub measurements: usize,
    pub dense_segments: usize,
}

#[derive(Clone, Copy, Debug, PartialEq, Eq, Structural)]
pub enum CapacityError {
    OutsideProfile,
    ArithmeticOverflow,
    InsufficientCompiledCapacity,
}

/// Epochs of a stream of `rate_hz` within `horizon_ns`, rounded up, plus a
/// reserve.
pub open spec fn epochs_and_reserve(rate_hz: int, horizon_ns: int, reserve: int) -> int {
    (rate_hz * horizon_ns + 999_999_999) / 1_000_000_000 + reserve
}

impl CapacityRequest {
    /// Whether every rate and the horizon lie within the compiled profile.
    pub open spec fn within_profile(self) -> bool {
        &&& 0 < self.imu_rate_hz <= MAX_IMU_RATE_HZ
        &&& self.position_rate_hz <= MAX_POSITION_RATE_HZ
        &&& self.velocity_rate_hz <= MAX_VELOCITY_RATE_HZ
        &&& 0 < self.navigation_rate_hz <= MAX_NAVIGATION_RATE_HZ
        &&& self.fusion_and_guard_ns <= MAX_HISTORY_HORIZON_NS
    }

    pub open spec fn measurements_needed(self) -> int {
        epochs_and_reserve(
            self.position_rate_hz + self.velocity_rate_hz,
            self.fusion_and_guard_ns as int,
            self.transition_reserve as int,
        )
    }

    /// The capacities that this profile needs, if the compiled ones suffice.
    pub fn preflight(self) -> (r: Result<RequiredCapacities, CapacityError>)
        ensures
            r is Ok <==> self.within_profile() && self.measurements_needed()
                <= MEASUREMENT_QUEUE_CAPACITY,
            r matches Ok(required) ==> {
                &&& required.imu == epochs_and_reserve(
                    self.imu_rate_hz as int,
                    self.fusion_and_guard_ns as int,
                    2,
                )
                &&& required.measurements == self.measurements_needed()
                &&& required.dense_segments == epochs_and_reserve(
                    self.navigation_rate_hz as int,
                    self.fusion_and_guard_ns as int,
                    8,
                )
                &&& required.imu <= IMU_HISTORY_CAPACITY
                &&& required.measurements <= MEASUREMENT_QUEUE_CAPACITY
                &&& required.dense_segments <= DENSE_HISTORY_CAPACITY
            },
            r matches Err(error) ==> error == (if !self.within_profile() {
                CapacityError::OutsideProfile
            } else if self.measurements_needed() > usize::MAX {
                CapacityError::ArithmeticOverflow
            } else {
                CapacityError::InsufficientCompiledCapacity
            }),
    {
        if self.imu_rate_hz == 0 || self.navigation_rate_hz == 0 || self.imu_rate_hz
            > MAX_IMU_RATE_HZ || self.position_rate_hz > MAX_POSITION_RATE_HZ
            || self.velocity_rate_hz > MAX_VELOCITY_RATE_HZ || self.navigation_rate_hz
            > MAX_NAVIGATION_RATE_HZ || self.fusion_and_guard_ns > MAX_HISTORY_HORIZON_NS {
            return Err(CapacityError::OutsideProfile);
        }
        proof {
            profile_epochs_fit(self.imu_rate_hz as int, self.fusion_and_guard_ns as int, 1_750);
            profile_epochs_fit(
                self.position_rate_hz + self.velocity_rate_hz,
                self.fusion_and_guard_ns as int,
                100,
            );
            profile_epochs_fit(
                self.navigation_rate_hz as int,
                self.fusion_and_guard_ns as int,
                400,
            );
        }
        let imu: usize = match required_for_rate(self.imu_rate_hz, self.fusion_and_guard_ns, 2) {
            Ok(value) => value,
            Err(error) => {
                return Err(error);
            },
        };
        let measurement_rate: u32 = match self.position_rate_hz.checked_add(self.velocity_rate_hz) {
            Some(rate) => rate,
            None => {
                return Err(CapacityError::ArithmeticOverflow);
            },
        };
        let measurements: usize = match required_for_rate(
            measurement_rate,
            self.fusion_and_guard_ns,
            self.transition_reserve,
        ) {
            Ok(value) => value,
            Err(error) => {
                return Err(error);
            },
        };
        let dense_segments: usize = match required_for_rate(
            self.navigation_rate_hz,
            self.fusion_and_guard_ns,
            8,
        ) {
            Ok(value) => value,
            Err(error) => {
                return Err(error);
            },
        };
        if imu > IMU_HISTORY_CAPACITY || measurements > MEASUREMENT_QUEUE_CAPACITY
            || dense_segments > DENSE_HISTORY_CAPACITY {
            return Err(CapacityError::InsufficientCompiledCapacity);
        }
        Ok(RequiredCapacities { imu, measurements, dense_segments })
    }
}

/// A stream within the profile needs no more epochs than the rate limit over
/// half a second.
proof fn profile_epochs_fit(rate_hz: int, horizon_ns: int, limit_hz: int)
    requires
        0 <= rate_hz <= limit_hz,
        0 <= horizon_ns <= 500_000_000,
        limit_hz <= 1_750,
    ensures
        0 <= rate_hz * horizon_ns <= 1_750 * 500_000_000,
        0 <= epochs_and_reserve(rate_hz, horizon_ns, 0) <= (limit_hz * 500_000_000 + 999_999_999)
            / 1_000_000_000,
        forall|reserve: int|
            #[trigger] epochs_and_reserve(rate_hz, horizon_ns, reserve) == epochs_and_reserve(
                rate_hz,
                horizon_ns,
                0,
            ) + reserve,
{
    assert(0 <= rate_hz * horizon_ns <= limit_hz * 500_000_000) by (nonlinear_arith)
        requires
            0 <= rate_hz <= limit_hz,
            0 <= horizon_ns <= 500_000_000,
    ;
}

/// Capacity for `rate_hz` epochs per second over `horizon_ns`, plus `reserve`.
pub fn required_for_rate(rate_hz: u32, horizon_ns: u64, reserve: usize) -> (r: Result<
    usize,
    CapacityError,
>)
    ensures
        r is Ok <==> rate_hz * horizon_ns + 999_999_999 <= u64::MAX && epochs_and_reserve(
            rate_hz as int,
            horizon_ns as int,
            reserve as int,
        ) <= usize::MAX,
        r is Ok ==> r->Ok_0 == epochs_and_reserve(
            rate_hz as int,
            horizon_ns as int,
            reserve as int,
        ),
        r is Err ==> r->Err_0 == CapacityError::ArithmeticOverflow,
{
    assert(0 <= rate_hz * horizon_ns) by (nonlinear_arith)
        requires
            0 <= rate_hz,
            0 <= horizon_ns,
    ;
    let product: u64 = match (rate_hz as u64).checked_mul(horizon_ns) {
        Some(product) => product,
        None => {
            return Err(CapacityError::ArithmeticOverflow);
        },
    };
    let rounded: u64 = match product.checked_add(999_999_999) {
        Some(rounded) => rounded,
        None => {
            return Err(CapacityError::ArithmeticOverflow);
        },
    };
    let epochs: u64 = rounded / 1_000_000_000;
    if epochs > usize::MAX as u64 {
        return Err(CapacityError::ArithmeticOverflow);
    }
    match (epochs as usize).checked_add(reserve) {
        Some(required) => Ok(required),
        None => Err(CapacityError::ArithmeticOverflow),
    }
}

/// The capacity for a stream is the least number of epochs that covers the horizon,
/// plus the reserve.
pub proof fn capacity_covers_the_horizon(
    rate_hz: u32,
    horizon_ns: u64,
    reserve: usize,
    required: Result<usize, CapacityError>,
)
    requires
        call_ensures(required_for_rate, (rate_hz, horizon_ns, reserve), required),
    ensures
        required matches Ok(capacity) ==> {
            let epochs = capacity - reserve;
            &&& epochs >= 0
            &&& rate_hz * horizon_ns <= epochs * 1_000_000_000
            &&& epochs > 0 ==> (epochs - 1) * 1_000_000_000 < rate_hz * horizon_ns
        },
        rate_hz * horizon_ns <= 1_000_000_000 * 1_000_000 && reserve <= 1_000_000 ==> required is Ok,
{
    assert(0 <= rate_hz * horizon_ns) by (nonlinear_arith)
        requires
            0 <= rate_hz,
            0 <= horizon_ns,
    ;
}

/// A profile passes exactly if its rates and its horizon are within bounds and its
/// observations fit. What it is told to need covers each of its streams over the
/// horizon, with two more inertial samples, eight more segments and its own reserve of
/// observations.
pub proof fn preflight_covers_every_stream(
    request: CapacityRequest,
    answer: Result<RequiredCapacities, CapacityError>,
)
    requires
        call_ensures(CapacityRequest::preflight, (request,), answer),
    ensures
        ({
            let within = 1 <= request.imu_rate_hz <= 1_750 && request.position_rate_hz <= 50
                && request.velocity_rate_hz <= 50 && 1 <= request.navigation_rate_hz <= 400
                && request.fusion_and_guard_ns <= 500_000_000;
            let seconds = 1_000_000_000int;
            &&& answer == Err::<RequiredCapacities, CapacityError>(CapacityError::OutsideProfile)
                <==> !within
            &&& answer is Ok ==> within
            &&& answer matches Ok(required) ==> {
                &&& request.imu_rate_hz * request.fusion_and_guard_ns <= (required.imu - 2)
                    * seconds
                &&& (required.imu - 3) * seconds < request.imu_rate_hz * request.fusion_and_guard_ns
                    || required.imu == 2
                &&& request.navigation_rate_hz * request.fusion_and_guard_ns <= (
                required.dense_segments - 8) * seconds
                &&& (required.dense_segments - 9) * seconds < request.navigation_rate_hz
                    * request.fusion_and_guard_ns || required.dense_segments == 8
                &&& (request.position_rate_hz + request.velocity_rate_hz)
                    * request.fusion_and_guard_ns <= (required.measurements
                    - request.transition_reserve) * seconds
                &&& (required.measurements - request.transition_reserve - 1) * seconds < (
                request.position_rate_hz + request.velocity_rate_hz) * request.fusion_and_guard_ns
                    || required.measurements == request.transition_reserve
                &&& required.imu <= 1_024 && required.measurements <= 128 && required.dense_segments
                    <= 208
            }
            &&& within && request.transition_reserve <= 78 ==> answer is Ok
        }),
{
    if request.within_profile() {
        profile_epochs_fit(request.imu_rate_hz as int, request.fusion_and_guard_ns as int, 1_750);
        profile_epochs_fit(
            request.position_rate_hz + request.velocity_rate_hz,
            request.fusion_and_guard_ns as int,
            100,
        );
        profile_epochs_fit(
            request.navigation_rate_hz as int,
            request.fusion_and_guard_ns as int,
            400,
        );
    }
}

/// A profile within bounds that does not fit is told so; only a reserve that cannot be
/// counted overflows.
pub proof fn profiles_that_do_not_fit_are_told(
    request: CapacityRequest,
    answer: Result<RequiredCapacities, CapacityError>,
)
    requires
        call_ensures(CapacityRequest::preflight, (request,), answer),
        answer is Err,
        answer->Err_0 != CapacityError::OutsideProfile,
    ensures
        request.transition_reserve > 78,
        request.transition_reserve <= 1_000_000 ==> answer->Err_0
            == CapacityError::InsufficientCompiledCapacity,
{
    profile_epochs_fit(
        request.position_rate_hz + request.velocity_rate_hz,
        request.fusion_and_guard_ns as int,
        100,
    );
}

} // verus!
