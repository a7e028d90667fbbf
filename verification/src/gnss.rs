//! GNSS observations: validation, the choice of filter updates, and what an
//! accepted observation means for the published quality.
use vstd::prelude::*;

use crate::error::EskfError;
use crate::payload::Payload;
use crate::time::SessionTime;

verus! {

/// Shared parameters of one affine clock: offset and drift.
pub const CLOCK_DIM: usize = 2;

/// Shared parameters of one antenna lever arm.
pub const LEVER_ARM_DIM: usize = 3;

/// One receiver solution in the active navigation frame. Position and velocity
/// are present or absent independently.
#[derive(Clone, Copy, Debug, PartialEq)]
pub struct GnssObservation<P: Payload> {
    pub time: SessionTime,
    pub fix: P::Fix,
    pub has_position: bool,
    pub has_velocity: bool,
    pub has_cross_covariance: bool,
    /// Whether a qualified angular acceleration at the epoch is available.
    pub has_angular_acceleration: bool,
    pub lever_arm_is_nonzero: bool,
    /// Whether the velocity has a timestamp uncertainty of its own.
    pub velocity_epoch_is_uncertain: bool,
    pub position_is_finite: bool,
    pub velocity_is_finite: bool,
    /// Whether every other value is finite and no sigma is negative.
    pub values_are_finite: bool,
    pub position_covariance_is_psd: bool,
    pub velocity_covariance_is_psd: bool,
    /// Whether the angular-acceleration covariance is a covariance, and zero
    /// where there is no angular acceleration.
    pub angular_covariance_is_valid: bool,
    /// Whether the joint covariance of position and velocity is positive
    /// definite.
    pub joint_covariance_is_valid: bool,
    /// One past the last shared parameter with a nonzero sensitivity.
    pub sensitivity_extent: usize,
    /// First coordinate of the clock block among the shared parameters.
    pub clock_consider_start: Option<u8>,
    /// Epoch at which the clock offset and drift are expressed.
    pub clock_reference_time: SessionTime,
    /// First coordinate of the lever-arm block among the shared parameters.
    pub lever_arm_consider_start: Option<u8>,
    pub receiver_healthy: bool,
    /// Quality to publish only if this observation contributes.
    pub label: P::Label,
}

/// What the filter made of one part of an observation.
#[derive(Clone, Copy, Debug, PartialEq)]
pub enum UpdateDecision<P: Payload> {
    Fused { score: P::Score },
    Downweighted { score: P::Score },
    RejectedInnovation { score: P::Score },
    RejectedHealth,
    /// The timing model needs inertial kinematics that are not available.
    RejectedInsufficientKinematics,
}

#[derive(Clone, Copy, Debug, PartialEq)]
pub struct GnssUpdateOutcome<P: Payload> {
    pub position: Option<UpdateDecision<P>>,
    pub velocity: Option<UpdateDecision<P>>,
    pub joint: Option<UpdateDecision<P>>,
}

/// One time-indexed quality transition whose measurement was accepted by the
/// filter. Queueing, lateness and rejection never cause one.
#[derive(Clone, Copy, Debug, PartialEq)]
pub struct GnssQualityUpdate<P: Payload> {
    pub epoch: SessionTime,
    pub label: P::Label,
    pub downweighted: bool,
}

/// Which filter updates one observation needs, in this order: joint, or
/// position and then velocity. `preset` holds the decisions that need none.
#[derive(Clone, Copy, Debug, PartialEq)]
pub struct FusionPlan<P: Payload> {
    pub joint: bool,
    pub position: bool,
    pub velocity: bool,
    pub preset: GnssUpdateOutcome<P>,
}

impl<P: Payload> UpdateDecision<P> {
    /// Whether the decision let the measurement contribute.
    pub open spec fn accepts(self) -> bool {
        self is Fused || self is Downweighted
    }
}

impl<P: Payload> GnssUpdateOutcome<P> {
    pub open spec fn spec_empty() -> Self {
        GnssUpdateOutcome { position: None, velocity: None, joint: None }
    }

    pub fn empty() -> (outcome: Self)
        ensures
            outcome == Self::spec_empty(),
    {
        GnssUpdateOutcome { position: None, velocity: None, joint: None }
    }

    /// Whether any part contributed.
    pub open spec fn contributes(self) -> bool {
        ||| self.position is Some && self.position->0.accepts()
        ||| self.velocity is Some && self.velocity->0.accepts()
        ||| self.joint is Some && self.joint->0.accepts()
    }

    /// Whether any part contributed with reduced weight.
    pub open spec fn downweights(self) -> bool {
        ||| self.position is Some && self.position->0 is Downweighted
        ||| self.velocity is Some && self.velocity->0 is Downweighted
        ||| self.joint is Some && self.joint->0 is Downweighted
    }
}

impl<P: Payload> FusionPlan<P> {
    /// A plan that runs no update.
    pub open spec fn decided(preset: GnssUpdateOutcome<P>) -> Self {
        FusionPlan { joint: false, position: false, velocity: false, preset }
    }

    /// The outcome once the planned updates have been decided.
    pub open spec fn outcome_of(
        self,
        joint: UpdateDecision<P>,
        position: UpdateDecision<P>,
        velocity: UpdateDecision<P>,
    ) -> GnssUpdateOutcome<P> {
        GnssUpdateOutcome {
            joint: if self.joint {
                Some(joint)
            } else {
                self.preset.joint
            },
            position: if self.position {
                Some(position)
            } else {
                self.preset.position
            },
            velocity: if self.velocity {
                Some(velocity)
            } else {
                self.preset.velocity
            },
        }
    }

    /// The outcome from the decisions that were made; a planned update without
    /// a decision is an error.
    pub fn outcome(
        &self,
        joint: Option<UpdateDecision<P>>,
        position: Option<UpdateDecision<P>>,
        velocity: Option<UpdateDecision<P>>,
    ) -> (r: Result<GnssUpdateOutcome<P>, EskfError>)
        ensures
            r is Ok <==> (self.joint ==> joint is Some) && (self.position ==> position is Some) && (
            self.velocity ==> velocity is Some),
            r is Ok ==> r->Ok_0 == self.outcome_of(joint->0, position->0, velocity->0),
            r is Err ==> r->Err_0 == EskfError::InvalidMeasurement,
    {
        let mut outcome = self.preset;
        if self.joint {
            if joint.is_none() {
                return Err(EskfError::InvalidMeasurement);
            }
            outcome.joint = joint;
        }
        if self.position {
            if position.is_none() {
                return Err(EskfError::InvalidMeasurement);
            }
            outcome.position = position;
        }
        if self.velocity {
            if velocity.is_none() {
                return Err(EskfError::InvalidMeasurement);
            }
            outcome.velocity = velocity;
        }
        Ok(outcome)
    }
}

/// Whether an optional block of `dimension` parameters fits below `limit`.
pub open spec fn block_fits(start: Option<u8>, dimension: int, limit: int) -> bool {
    start is Some ==> start->0 + dimension <= limit
}

fn block_overruns(start: Option<u8>, dimension: usize, limit: usize) -> (overruns: bool)
    requires
        dimension <= 3,
    ensures
        overruns == !block_fits(start, dimension as int, limit as int),
{
    match start {
        None => false,
        Some(start) => start as usize + dimension > limit,
    }
}

impl<P: Payload> GnssObservation<P> {
    /// The verdict on one observation.
    pub open spec fn verdict(self) -> Result<(), EskfError> {
        if !self.has_position && !self.has_velocity {
            Err(EskfError::InvalidMeasurement)
        } else if (self.has_position && !self.position_is_finite) || (self.has_velocity
            && !self.velocity_is_finite) || !self.values_are_finite {
            Err(EskfError::InvalidMeasurement)
        } else if !block_fits(self.clock_consider_start, 2, P::MAX_CONSIDER as int) || (
        self.clock_consider_start is Some && !(i64::MIN <= self.time.ns
            - self.clock_reference_time.ns <= i64::MAX)) || !block_fits(
            self.lever_arm_consider_start,
            3,
            P::MAX_CONSIDER as int,
        ) {
            Err(EskfError::InvalidConsiderBlock)
        } else if (self.has_position && !self.position_covariance_is_psd) || (self.has_velocity
            && !self.velocity_covariance_is_psd) || !self.angular_covariance_is_valid || (
        self.has_cross_covariance && !self.joint_covariance_is_valid) {
            Err(EskfError::InvalidMeasurementCovariance)
        } else {
            Ok(())
        }
    }

    pub fn validate(&self) -> (r: Result<(), EskfError>)
        ensures
            r == self.verdict(),
    {
        if !self.has_position && !self.has_velocity {
            return Err(EskfError::InvalidMeasurement);
        }
        if (self.has_position && !self.position_is_finite) || (self.has_velocity
            && !self.velocity_is_finite) || !self.values_are_finite {
            return Err(EskfError::InvalidMeasurement);
        }
        if self.clock_consider_start.is_some() {
            if block_overruns(self.clock_consider_start, CLOCK_DIM, P::MAX_CONSIDER)
                || self.time.checked_duration_since(self.clock_reference_time).is_none() {
                return Err(EskfError::InvalidConsiderBlock);
            }
        }
        if block_overruns(self.lever_arm_consider_start, LEVER_ARM_DIM, P::MAX_CONSIDER) {
            return Err(EskfError::InvalidConsiderBlock);
        }
        if self.has_position && !self.position_covariance_is_psd {
            return Err(EskfError::InvalidMeasurementCovariance);
        }
        if self.has_velocity && !self.velocity_covariance_is_psd {
            return Err(EskfError::InvalidMeasurementCovariance);
        }
        if !self.angular_covariance_is_valid {
            return Err(EskfError::InvalidMeasurementCovariance);
        }
        if self.has_cross_covariance && !self.joint_covariance_is_valid {
            return Err(EskfError::InvalidMeasurementCovariance);
        }
        Ok(())
    }

    /// Whether every shared parameter that the observation refers to is active.
    pub open spec fn blocks_are_active(self, active_consider: int) -> bool {
        &&& active_consider <= P::MAX_CONSIDER
        &&& block_fits(self.clock_consider_start, 2, active_consider)
        &&& block_fits(self.lever_arm_consider_start, 3, active_consider)
        &&& self.sensitivity_extent <= active_consider
    }

    pub fn validate_consider_blocks(&self, active_consider: usize) -> (r: Result<(), EskfError>)
        ensures
            r == (if self.blocks_are_active(active_consider as int) {
                Ok::<(), EskfError>(())
            } else {
                Err(EskfError::InvalidConsiderBlock)
            }),
    {
        if active_consider > P::MAX_CONSIDER || block_overruns(
            self.clock_consider_start,
            CLOCK_DIM,
            active_consider,
        ) || block_overruns(self.lever_arm_consider_start, LEVER_ARM_DIM, active_consider) {
            return Err(EskfError::InvalidConsiderBlock);
        }
        if self.sensitivity_extent > active_consider {
            return Err(EskfError::InvalidConsiderBlock);
        }
        Ok(())
    }

    /// Whether the velocity cannot be modelled: its epoch is uncertain, the
    /// antenna is off the sensor, and no angular acceleration is known.
    pub open spec fn lacks_kinematics(self) -> bool {
        &&& self.receiver_healthy
        &&& self.has_velocity
        &&& self.lever_arm_is_nonzero
        &&& self.velocity_epoch_is_uncertain || self.clock_consider_start is Some
        &&& !self.has_angular_acceleration
    }

    pub fn needs_missing_kinematics(&self) -> (missing: bool)
        ensures
            missing == self.lacks_kinematics(),
    {
        self.receiver_healthy && self.has_velocity && self.lever_arm_is_nonzero && (
        self.velocity_epoch_is_uncertain || self.clock_consider_start.is_some())
            && !self.has_angular_acceleration
    }

    /// The observation without its velocity.
    pub open spec fn spec_position_only(self) -> Self {
        GnssObservation { has_velocity: false, has_cross_covariance: false, ..self }
    }

    pub fn position_only(&self) -> (reduced: Self)
        ensures
            reduced == self.spec_position_only(),
    {
        let mut reduced = *self;
        reduced.has_velocity = false;
        reduced.has_cross_covariance = false;
        reduced
    }

    /// Why the filter cannot be updated with the observation, if it cannot.
    pub open spec fn update_verdict(
        self,
        filter_time: SessionTime,
        active_consider: int,
        gate_is_valid: bool,
        sample_is_valid: bool,
    ) -> Result<(), EskfError> {
        if !sample_is_valid {
            Err(EskfError::InvalidCovariance)
        } else if !gate_is_valid {
            Err(EskfError::InvalidConfiguration)
        } else if self.time != filter_time {
            Err(EskfError::TimeMismatch)
        } else if self.verdict() is Err {
            self.verdict()
        } else if !self.blocks_are_active(active_consider) {
            Err(EskfError::InvalidConsiderBlock)
        } else if self.lacks_kinematics() {
            Err(EskfError::MissingAngularAccelerationForTiming)
        } else {
            Ok(())
        }
    }

    /// The updates of a valid observation.
    pub open spec fn update_plan(self) -> FusionPlan<P> {
        if !self.receiver_healthy {
            FusionPlan::decided(
                GnssUpdateOutcome {
                    position: if self.has_position {
                        Some(UpdateDecision::RejectedHealth)
                    } else {
                        None
                    },
                    velocity: if self.has_velocity {
                        Some(UpdateDecision::RejectedHealth)
                    } else {
                        None
                    },
                    joint: None,
                },
            )
        } else if self.has_position && self.has_velocity && self.has_cross_covariance {
            FusionPlan {
                joint: true,
                position: false,
                velocity: false,
                preset: GnssUpdateOutcome::spec_empty(),
            }
        } else {
            FusionPlan {
                joint: false,
                position: self.has_position,
                velocity: self.has_velocity,
                preset: GnssUpdateOutcome::spec_empty(),
            }
        }
    }

    /// Chooses the filter updates for an observation. `gate_is_valid` and
    /// `sample_is_valid` are the verdicts on the innovation gate and on the
    /// held inertial sample.
    pub fn plan_update(
        &self,
        filter_time: SessionTime,
        active_consider: usize,
        gate_is_valid: bool,
        sample_is_valid: bool,
    ) -> (r: Result<FusionPlan<P>, EskfError>)
        ensures
            match self.update_verdict(
                filter_time,
                active_consider as int,
                gate_is_valid,
                sample_is_valid,
            ) {
                Err(error) => r == Err::<FusionPlan<P>, EskfError>(error),
                Ok(_) => r == Ok::<FusionPlan<P>, EskfError>(self.update_plan()),
            },
    {
        if !sample_is_valid {
            return Err(EskfError::InvalidCovariance);
        }
        if !gate_is_valid {
            return Err(EskfError::InvalidConfiguration);
        }
        if self.time != filter_time {
            return Err(EskfError::TimeMismatch);
        }
        match self.validate() {
            Err(error) => {
                return Err(error);
            },
            Ok(_) => {},
        }
        match self.validate_consider_blocks(active_consider) {
            Err(error) => {
                return Err(error);
            },
            Ok(_) => {},
        }
        let mut plan = FusionPlan {
            joint: false,
            position: false,
            velocity: false,
            preset: GnssUpdateOutcome::empty(),
        };
        if !self.receiver_healthy {
            if self.has_position {
                plan.preset.position = Some(UpdateDecision::RejectedHealth);
            }
            if self.has_velocity {
                plan.preset.velocity = Some(UpdateDecision::RejectedHealth);
            }
            return Ok(plan);
        }
        if self.needs_missing_kinematics() {
            return Err(EskfError::MissingAngularAccelerationForTiming);
        }
        if self.has_position && self.has_velocity && self.has_cross_covariance {
            plan.joint = true;
            return Ok(plan);
        }
        plan.position = self.has_position;
        plan.velocity = self.has_velocity;
        Ok(plan)
    }

    /// The plan for an observation at the filter's epoch, or why there is
    /// none. Missing kinematics reject a velocity, and with it an inseparable
    /// pair, without failing the run.
    pub open spec fn fusion(
        self,
        filter_time: SessionTime,
        active_consider: int,
        gate_is_valid: bool,
        sample_is_valid: bool,
    ) -> Result<FusionPlan<P>, EskfError> {
        let missing = Some(UpdateDecision::<P>::RejectedInsufficientKinematics);
        if self.lacks_kinematics() && self.has_cross_covariance {
            Ok(
                FusionPlan::decided(
                    GnssUpdateOutcome { position: None, velocity: None, joint: missing },
                ),
            )
        } else if self.lacks_kinematics() && !self.has_position {
            Ok(
                FusionPlan::decided(
                    GnssUpdateOutcome { position: None, velocity: missing, joint: None },
                ),
            )
        } else if self.lacks_kinematics() {
            match self.spec_position_only().update_verdict(
                filter_time,
                active_consider,
                gate_is_valid,
                sample_is_valid,
            ) {
                Err(error) => Err(error),
                Ok(_) => Ok(
                    FusionPlan {
                        preset: GnssUpdateOutcome {
                            velocity: missing,
                            ..GnssUpdateOutcome::spec_empty()
                        },
                        ..self.spec_position_only().update_plan()
                    },
                ),
            }
        } else {
            match self.update_verdict(filter_time, active_consider, gate_is_valid, sample_is_valid) {
                Err(error) => Err(error),
                Ok(_) => Ok(self.update_plan()),
            }
        }
    }

    pub fn plan_fusion(
        &self,
        filter_time: SessionTime,
        active_consider: usize,
        gate_is_valid: bool,
        sample_is_valid: bool,
    ) -> (r: Result<FusionPlan<P>, EskfError>)
        ensures
            r == self.fusion(filter_time, active_consider as int, gate_is_valid, sample_is_valid),
    {
        if !self.needs_missing_kinematics() {
            return self.plan_update(filter_time, active_consider, gate_is_valid, sample_is_valid);
        }
        let mut plan = FusionPlan {
            joint: false,
            position: false,
            velocity: false,
            preset: GnssUpdateOutcome::empty(),
        };
        if self.has_cross_covariance {
            plan.preset.joint = Some(UpdateDecision::RejectedInsufficientKinematics);
            return Ok(plan);
        }
        if self.has_position {
            plan =
            match self.position_only().plan_update(
                filter_time,
                active_consider,
                gate_is_valid,
                sample_is_valid,
            ) {
                Err(error) => {
                    return Err(error);
                },
                Ok(plan) => plan,
            };
        }
        plan.preset.velocity = Some(UpdateDecision::RejectedInsufficientKinematics);
        Ok(plan)
    }
}

/// The quality that an outcome publishes: only a contributing observation
/// changes it.
pub open spec fn quality_of<P: Payload>(
    observation: GnssObservation<P>,
    outcome: GnssUpdateOutcome<P>,
) -> Option<GnssQualityUpdate<P>> {
    if outcome.contributes() {
        Some(
            GnssQualityUpdate {
                epoch: observation.time,
                label: observation.label,
                downweighted: outcome.downweights(),
            },
        )
    } else {
        None
    }
}

fn note_decision<P: Payload>(
    decision: Option<UpdateDecision<P>>,
    accepted: &mut bool,
    downweighted: &mut bool,
)
    ensures
        *final(accepted) == (*old(accepted) || (decision is Some && decision->0.accepts())),
        *final(downweighted) == (*old(downweighted) || (decision is Some
            && decision->0 is Downweighted)),
{
    match decision {
        Some(UpdateDecision::Fused { .. }) => {
            *accepted = true;
        },
        Some(UpdateDecision::Downweighted { .. }) => {
            *accepted = true;
            *downweighted = true;
        },
        _ => {},
    }
}

pub fn accepted_gnss_quality_update<P: Payload>(
    observation: &GnssObservation<P>,
    outcome: GnssUpdateOutcome<P>,
) -> (update: Option<GnssQualityUpdate<P>>)
    ensures
        update == quality_of(*observation, outcome),
{
    let mut accepted = false;
    let mut downweighted = false;
    note_decision(outcome.position, &mut accepted, &mut downweighted);
    note_decision(outcome.velocity, &mut accepted, &mut downweighted);
    note_decision(outcome.joint, &mut accepted, &mut downweighted);
    if accepted {
        Some(
            GnssQualityUpdate {
                epoch: observation.time,
                label: observation.label,
                downweighted,
            },
        )
    } else {
        None
    }
}

/// An unhealthy receiver never touches the filter and never changes the
/// published quality.
pub proof fn unhealthy_never_contributes<P: Payload>(
    observation: GnssObservation<P>,
    filter_time: SessionTime,
    active_consider: int,
    gate_is_valid: bool,
    sample_is_valid: bool,
    joint: UpdateDecision<P>,
    position: UpdateDecision<P>,
    velocity: UpdateDecision<P>,
)
    requires
        !observation.receiver_healthy,
    ensures
        observation.fusion(filter_time, active_consider, gate_is_valid, sample_is_valid) matches Ok(
            plan,
        ) ==> {
            &&& !plan.joint && !plan.position && !plan.velocity
            &&& quality_of(observation, plan.outcome_of(joint, position, velocity)) is None
        },
{
}

/// Missing kinematics are an input disposition: a healthy velocity is rejected
/// and at most the position reaches the filter.
pub proof fn missing_kinematics_reject_velocity<P: Payload>(
    observation: GnssObservation<P>,
    filter_time: SessionTime,
    active_consider: int,
    gate_is_valid: bool,
    sample_is_valid: bool,
)
    requires
        observation.lacks_kinematics(),
    ensures
        observation.fusion(filter_time, active_consider, gate_is_valid, sample_is_valid) matches Ok(
            plan,
        ) ==> {
            &&& !plan.joint && !plan.velocity
            &&& plan.position == (observation.has_position && !observation.has_cross_covariance)
            &&& plan.preset.velocity is Some || plan.preset.joint is Some
        },
        observation.has_cross_covariance || !observation.has_position ==> observation.fusion(
            filter_time,
            active_consider,
            gate_is_valid,
            sample_is_valid,
        ) is Ok,
{
}

/// An accepted part of any kind publishes the quality of the observation, alone or
/// beside others, and it makes no difference which part it is. What was accepted
/// with reduced weight is published as such.
pub proof fn accepted_part_publishes_quality<P: Payload>(
    observation: GnssObservation<P>,
    outcome: GnssUpdateOutcome<P>,
    score: P::Score,
    downweighted: bool,
    update: Option<GnssQualityUpdate<P>>,
)
    requires
        call_ensures(accepted_gnss_quality_update::<P>, (&observation, outcome), update),
        ({
            let decision = Some(
                if downweighted {
                    UpdateDecision::<P>::Downweighted { score }
                } else {
                    UpdateDecision::Fused { score }
                },
            );
            outcome.position == decision || outcome.velocity == decision || outcome.joint
                == decision
        }),
    ensures
        update is Some,
        update->0.epoch == observation.time,
        update->0.label == observation.label,
        downweighted ==> update->0.downweighted,
{
}

/// An outcome without an accepted part publishes nothing, and one without a part of
/// reduced weight is not published as downweighted.
pub proof fn rejected_parts_publish_nothing<P: Payload>(
    observation: GnssObservation<P>,
    outcome: GnssUpdateOutcome<P>,
    update: Option<GnssQualityUpdate<P>>,
)
    requires
        call_ensures(accepted_gnss_quality_update::<P>, (&observation, outcome), update),
    ensures
        forall|part: Option<UpdateDecision<P>>|
            (part == outcome.position || part == outcome.velocity || part == outcome.joint)
                && !(#[trigger] is_rejection(part)) ==> update is Some,
        is_rejection(outcome.position) && is_rejection(outcome.velocity) && is_rejection(
            outcome.joint,
        ) ==> update is None,
        update is Some && update->0.downweighted ==> outcome.position matches Some(
            UpdateDecision::Downweighted { .. },
        ) || outcome.velocity matches Some(UpdateDecision::Downweighted { .. })
            || outcome.joint matches Some(UpdateDecision::Downweighted { .. }),
{
}

/// Whether a part is missing or was turned away, for whatever reason.
pub open spec fn is_rejection<P: Payload>(part: Option<UpdateDecision<P>>) -> bool {
    match part {
        None => true,
        Some(UpdateDecision::RejectedInnovation { .. }) => true,
        Some(UpdateDecision::RejectedHealth) => true,
        Some(UpdateDecision::RejectedInsufficientKinematics) => true,
        Some(UpdateDecision::Fused { .. }) => false,
        Some(UpdateDecision::Downweighted { .. }) => false,
    }
}

/// The three parts of an outcome count alike: exchanging their decisions changes
/// nothing.
pub proof fn quality_does_not_depend_on_the_part<P: Payload>(
    observation: GnssObservation<P>,
    a: Option<UpdateDecision<P>>,
    b: Option<UpdateDecision<P>>,
    c: Option<UpdateDecision<P>>,
    update: Option<GnssQualityUpdate<P>>,
    turned: Option<GnssQualityUpdate<P>>,
    swapped: Option<GnssQualityUpdate<P>>,
)
    requires
        call_ensures(
            accepted_gnss_quality_update::<P>,
            (&observation, GnssUpdateOutcome { position: a, velocity: b, joint: c }),
            update,
        ),
        call_ensures(
            accepted_gnss_quality_update::<P>,
            (&observation, GnssUpdateOutcome { position: b, velocity: c, joint: a }),
            turned,
        ),
        call_ensures(
            accepted_gnss_quality_update::<P>,
            (&observation, GnssUpdateOutcome { position: b, velocity: a, joint: c }),
            swapped,
        ),
    ensures
        update == turned,
        update == swapped,
{
}

/// A sound observation of a healthy receiver reaches the filter with every part
/// that it has, each of them once: together where their errors are correlated, and
/// one after the other where they are not. Nothing is decided beforehand.
pub proof fn healthy_parts_reach_the_filter<P: Payload>(
    observation: GnssObservation<P>,
    filter_time: SessionTime,
    active_consider: usize,
    gate_is_valid: bool,
    sample_is_valid: bool,
    planned: Result<FusionPlan<P>, EskfError>,
)
    requires
        call_ensures(
            GnssObservation::<P>::plan_fusion,
            (&observation, filter_time, active_consider, gate_is_valid, sample_is_valid),
            planned,
        ),
        observation.receiver_healthy,
        observation.has_angular_acceleration || !observation.lever_arm_is_nonzero || (
        !observation.velocity_epoch_is_uncertain && observation.clock_consider_start is None)
            || !observation.has_velocity,
    ensures
        planned matches Ok(plan) ==> {
            &&& (plan.joint || plan.position) == observation.has_position
            &&& (plan.joint || plan.velocity) == observation.has_velocity
            &&& !(plan.joint && (plan.position || plan.velocity))
            &&& observation.has_position && observation.has_velocity ==> plan.joint
                == observation.has_cross_covariance
            &&& plan.preset.position is None
            &&& plan.preset.velocity is None
            &&& plan.preset.joint is None
        },
{
}

/// A velocity whose epoch is uncertain, measured away from the sensor, cannot be
/// modelled without an angular acceleration. It is turned away by name, and at most
/// the position goes on. No other velocity is turned away for this reason.
pub proof fn unmodelled_velocity_is_turned_away<P: Payload>(
    observation: GnssObservation<P>,
    filter_time: SessionTime,
    active_consider: usize,
    gate_is_valid: bool,
    sample_is_valid: bool,
    planned: Result<FusionPlan<P>, EskfError>,
)
    requires
        call_ensures(
            GnssObservation::<P>::plan_fusion,
            (&observation, filter_time, active_consider, gate_is_valid, sample_is_valid),
            planned,
        ),
        observation.receiver_healthy,
    ensures
        planned matches Ok(plan) ==> {
            let unmodelled = observation.has_velocity && observation.lever_arm_is_nonzero
                && !observation.has_angular_acceleration && (
            observation.velocity_epoch_is_uncertain || observation.clock_consider_start is Some);
            let missing = Some(UpdateDecision::<P>::RejectedInsufficientKinematics);
            &&& (plan.preset.velocity == missing || plan.preset.joint == missing) == unmodelled
            &&& unmodelled ==> !plan.joint && !plan.velocity
            &&& unmodelled && observation.has_cross_covariance ==> plan.preset.joint == missing
                && plan.preset.velocity is None && !plan.position
            &&& unmodelled && !observation.has_cross_covariance ==> plan.preset.velocity == missing
                && plan.preset.joint is None && plan.position == observation.has_position
            &&& plan.preset.position is None
        },
        planned != Err::<FusionPlan<P>, EskfError>(EskfError::MissingAngularAccelerationForTiming),
{
}

/// Every part of an unhealthy receiver's observation is turned away for its health,
/// and no update is run.
pub proof fn unhealthy_parts_are_named<P: Payload>(
    observation: GnssObservation<P>,
    filter_time: SessionTime,
    active_consider: usize,
    gate_is_valid: bool,
    sample_is_valid: bool,
    planned: Result<FusionPlan<P>, EskfError>,
)
    requires
        call_ensures(
            GnssObservation::<P>::plan_fusion,
            (&observation, filter_time, active_consider, gate_is_valid, sample_is_valid),
            planned,
        ),
        !observation.receiver_healthy,
    ensures
        planned matches Ok(plan) ==> {
            &&& !plan.joint && !plan.position && !plan.velocity
            &&& plan.preset.joint is None
            &&& observation.has_position ==> plan.preset.position == Some(
                UpdateDecision::<P>::RejectedHealth,
            )
            &&& observation.has_velocity ==> plan.preset.velocity == Some(
                UpdateDecision::<P>::RejectedHealth,
            )
            &&& !observation.has_position ==> plan.preset.position is None
            &&& !observation.has_velocity ==> plan.preset.velocity is None
        },
{
}

/// Only a sound observation at the filter's own epoch is fused: wherever an update
/// is run, or a receiver was found unhealthy, everything about the observation has
/// been checked. A sound one is never refused.
pub proof fn only_sound_observations_are_fused<P: Payload>(
    observation: GnssObservation<P>,
    filter_time: SessionTime,
    active_consider: usize,
    gate_is_valid: bool,
    sample_is_valid: bool,
    planned: Result<FusionPlan<P>, EskfError>,
    checked: Result<(), EskfError>,
    blocks: Result<(), EskfError>,
)
    requires
        call_ensures(
            GnssObservation::<P>::plan_fusion,
            (&observation, filter_time, active_consider, gate_is_valid, sample_is_valid),
            planned,
        ),
        call_ensures(GnssObservation::<P>::validate, (&observation,), checked),
        call_ensures(
            GnssObservation::<P>::validate_consider_blocks,
            (&observation, active_consider),
            blocks,
        ),
    ensures
        planned matches Ok(plan) && (plan.joint || plan.velocity || !observation.receiver_healthy)
            ==> {
            &&& sample_is_valid && gate_is_valid
            &&& observation.time == filter_time
            &&& checked is Ok && blocks is Ok
        },
        planned matches Ok(plan) && plan.position ==> sample_is_valid && gate_is_valid
            && observation.time == filter_time && blocks is Ok,
        sample_is_valid && gate_is_valid && observation.time == filter_time && checked is Ok
            && blocks is Ok ==> planned is Ok,
        !sample_is_valid && !observation.has_velocity ==> planned == Err::<
            FusionPlan<P>,
            EskfError,
        >(EskfError::InvalidCovariance),
        sample_is_valid && !gate_is_valid && !observation.has_velocity ==> planned == Err::<
            FusionPlan<P>,
            EskfError,
        >(EskfError::InvalidConfiguration),
        sample_is_valid && gate_is_valid && observation.time != filter_time
            && !observation.has_velocity ==> planned == Err::<FusionPlan<P>, EskfError>(
            EskfError::TimeMismatch,
        ),
{
}

/// An observation is sound exactly if it measures something, all that it carries is
/// finite, its shared blocks exist, and its covariances are covariances.
pub proof fn soundness_is_complete<P: Payload>(
    observation: GnssObservation<P>,
    checked: Result<(), EskfError>,
)
    requires
        call_ensures(GnssObservation::<P>::validate, (&observation,), checked),
    ensures
        ({
            let measures = observation.has_position || observation.has_velocity;
            let finite = observation.values_are_finite && (observation.has_position
                ==> observation.position_is_finite) && (observation.has_velocity
                ==> observation.velocity_is_finite);
            let placed = (forall|axis: int|
                observation.refers_to_block(axis) ==> axis < P::MAX_CONSIDER) && (
            observation.clock_consider_start is Some ==> i64::MIN <= observation.time.ns
                - observation.clock_reference_time.ns <= i64::MAX);
            let covariances = observation.angular_covariance_is_valid && (observation.has_position
                ==> observation.position_covariance_is_psd) && (observation.has_velocity
                ==> observation.velocity_covariance_is_psd) && (observation.has_cross_covariance
                ==> observation.joint_covariance_is_valid);
            &&& checked is Ok <==> measures && finite && placed && covariances
            &&& checked == Err::<(), EskfError>(EskfError::InvalidMeasurement) <==> !(measures
                && finite)
            &&& checked == Err::<(), EskfError>(EskfError::InvalidConsiderBlock) <==> measures
                && finite && !placed
            &&& checked == Err::<(), EskfError>(EskfError::InvalidMeasurementCovariance)
                <==> measures && finite && placed && !covariances
        }),
{
    if let Some(start) = observation.clock_consider_start {
        assert(observation.refers_to_block(start + 1));
    }
    if let Some(start) = observation.lever_arm_consider_start {
        assert(observation.refers_to_block(start + 2));
    }
}

impl<P: Payload> GnssObservation<P> {
    /// Whether the shared parameter `axis` belongs to one of the observation's
    /// blocks: offset and drift of its clock, or one of the three coordinates of
    /// its lever arm.
    pub open spec fn refers_to_block(self, axis: int) -> bool {
        ||| self.clock_consider_start is Some && (axis == self.clock_consider_start->0 || axis
            == self.clock_consider_start->0 + 1)
        ||| self.lever_arm_consider_start is Some && (axis == self.lever_arm_consider_start->0
            || axis == self.lever_arm_consider_start->0 + 1 || axis
            == self.lever_arm_consider_start->0 + 2)
    }
}

/// Every shared parameter that an observation refers to has to be active.
pub proof fn referenced_parameters_are_active<P: Payload>(
    observation: GnssObservation<P>,
    active_consider: usize,
    blocks: Result<(), EskfError>,
)
    requires
        call_ensures(
            GnssObservation::<P>::validate_consider_blocks,
            (&observation, active_consider),
            blocks,
        ),
    ensures
        blocks is Ok <==> active_consider <= P::MAX_CONSIDER && observation.sensitivity_extent
            <= active_consider && (forall|axis: int|
            observation.refers_to_block(axis) ==> axis < active_consider),
        blocks is Err ==> blocks->Err_0 == EskfError::InvalidConsiderBlock,
{
    if let Some(start) = observation.clock_consider_start {
        assert(observation.refers_to_block(start + 1));
    }
    if let Some(start) = observation.lever_arm_consider_start {
        assert(observation.refers_to_block(start + 2));
    }
}

/// The outcome holds the decision of every update that was run, where it belongs,
/// and what had been decided before wherever none was.
pub proof fn decisions_reach_the_outcome<P: Payload>(
    plan: FusionPlan<P>,
    joint: Option<UpdateDecision<P>>,
    position: Option<UpdateDecision<P>>,
    velocity: Option<UpdateDecision<P>>,
    outcome: Result<GnssUpdateOutcome<P>, EskfError>,
)
    requires
        call_ensures(FusionPlan::<P>::outcome, (&plan, joint, position, velocity), outcome),
    ensures
        outcome matches Ok(made) ==> {
            &&& plan.joint ==> made.joint == joint
            &&& plan.position ==> made.position == position
            &&& plan.velocity ==> made.velocity == velocity
            &&& !plan.joint ==> made.joint == plan.preset.joint
            &&& !plan.position ==> made.position == plan.preset.position
            &&& !plan.velocity ==> made.velocity == plan.preset.velocity
        },
        outcome is Err <==> plan.joint && joint is None || plan.position && position is None
            || plan.velocity && velocity is None,
{
}

/// A direct update is refused for its held sample first, then for its innovation limits,
/// then for another epoch, then for what is wrong with the observation, then for its
/// parameters. Only a healthy receiver's velocity can lack kinematics. What is planned is
/// what the parts ask for.
pub proof fn updates_are_checked_in_order<P: Payload>(
    observation: GnssObservation<P>,
    filter_time: SessionTime,
    active_consider: usize,
    gate_is_valid: bool,
    sample_is_valid: bool,
    planned: Result<FusionPlan<P>, EskfError>,
    checked: Result<(), EskfError>,
    blocks: Result<(), EskfError>,
    missing: bool,
)
    requires
        call_ensures(
            GnssObservation::<P>::plan_update,
            (&observation, filter_time, active_consider, gate_is_valid, sample_is_valid),
            planned,
        ),
        call_ensures(GnssObservation::<P>::validate, (&observation,), checked),
        call_ensures(
            GnssObservation::<P>::validate_consider_blocks,
            (&observation, active_consider),
            blocks,
        ),
        call_ensures(GnssObservation::<P>::needs_missing_kinematics, (&observation,), missing),
    ensures
        missing <==> observation.receiver_healthy && observation.has_velocity
            && observation.lever_arm_is_nonzero && !observation.has_angular_acceleration && (
        observation.velocity_epoch_is_uncertain || observation.clock_consider_start is Some),
        ({
            let here = observation.time == filter_time;
            let sound = sample_is_valid && gate_is_valid && here && checked is Ok && blocks is Ok;
            &&& planned is Ok <==> sound && !missing
            &&& !sample_is_valid ==> planned == Err::<FusionPlan<P>, EskfError>(
                EskfError::InvalidCovariance,
            )
            &&& sample_is_valid && !gate_is_valid ==> planned == Err::<FusionPlan<P>, EskfError>(
                EskfError::InvalidConfiguration,
            )
            &&& sample_is_valid && gate_is_valid && !here ==> planned == Err::<
                FusionPlan<P>,
                EskfError,
            >(EskfError::TimeMismatch)
            &&& sample_is_valid && gate_is_valid && here && checked is Err ==> planned == Err::<
                FusionPlan<P>,
                EskfError,
            >(checked->Err_0)
            &&& sample_is_valid && gate_is_valid && here && checked is Ok && blocks is Err
                ==> planned == Err::<FusionPlan<P>, EskfError>(EskfError::InvalidConsiderBlock)
            &&& sound && missing ==> planned == Err::<FusionPlan<P>, EskfError>(
                EskfError::MissingAngularAccelerationForTiming,
            )
            &&& planned is Ok && observation.receiver_healthy ==> {
                let plan = planned->Ok_0;
                let together = observation.has_position && observation.has_velocity
                    && observation.has_cross_covariance;
                &&& plan.joint == together
                &&& plan.position == (observation.has_position && !together)
                &&& plan.velocity == (observation.has_velocity && !together)
                &&& plan.preset.position is None && plan.preset.velocity is None
                    && plan.preset.joint is None
            }
        }),
{
}

/// Without its velocity an observation has no correlation either; everything else of it
/// stays.
pub proof fn reduced_observations_keep_their_position<P: Payload>(
    observation: GnssObservation<P>,
    reduced: GnssObservation<P>,
)
    requires
        call_ensures(GnssObservation::<P>::position_only, (&observation,), reduced),
    ensures
        !reduced.has_velocity && !reduced.has_cross_covariance,
        reduced.has_position == observation.has_position,
        reduced.time == observation.time && reduced.fix == observation.fix && reduced.label
            == observation.label,
        reduced.receiver_healthy == observation.receiver_healthy,
        reduced.position_is_finite == observation.position_is_finite
            && reduced.position_covariance_is_psd == observation.position_covariance_is_psd
            && reduced.values_are_finite == observation.values_are_finite,
        reduced.clock_consider_start == observation.clock_consider_start
            && reduced.lever_arm_consider_start == observation.lever_arm_consider_start
            && reduced.sensitivity_extent == observation.sensitivity_extent,
{
}

} // verus!
