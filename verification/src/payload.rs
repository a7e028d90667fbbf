//! The numerical values that the control logic carries without looking inside.
use vstd::prelude::*;

verus! {

/// Types of the numerical values of one navigation filter. The control logic
/// stores, moves and compares them; it never computes with them.
pub trait Payload: Copy + PartialEq + core::fmt::Debug {
    /// Most shared parameters that the filter considers.
    const MAX_CONSIDER: usize;

    /// A three-vector: angular rate, specific force or attitude increment.
    type Vector: Copy + PartialEq + core::fmt::Debug;

    /// Covariance of one prepared inertial sample, both sensors.
    type SampleCovariance: Copy + PartialEq + core::fmt::Debug;

    /// Fixed installation rotation of the inertial sensor.
    type Mounting: Copy + PartialEq + core::fmt::Debug;

    /// Covariance of the constant derivatives that bridge an inertial gap.
    type GapDerivative: Copy + PartialEq + core::fmt::Debug;

    /// Position, velocity, orientation and sensor biases at one instant.
    type Estimate: Copy + PartialEq + core::fmt::Debug;

    /// Compact covariance of one dense endpoint.
    type EndpointCovariance: Copy + PartialEq + core::fmt::Debug;

    /// The measured quantities of one GNSS observation.
    type Fix: Copy + PartialEq + core::fmt::Debug;

    /// Normalized innovation of one measurement update and what it led to.
    type Score: Copy + PartialEq + core::fmt::Debug;

    /// Quality label that an accepted observation gives to the solution.
    type Label: Copy + PartialEq + core::fmt::Debug;
}

} // verus!
