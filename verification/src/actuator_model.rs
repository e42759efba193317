//! Actuator-model vocabulary shared with the Supervisor.
//!
//! The static and DC-motor inverse models compute on floating-point torque; the
//! bounded command they produce is carried here with its numeric payload left
//! generic, since the Supervisor decides on the saturation flag alone.
use vstd::prelude::*;

verus! {

/// One bounded actuator request: the normalized command, whether the model had
/// to saturate the demand, and the torque the model predicts for it.
#[derive(Clone, Copy, Debug, PartialEq)]
pub struct BoundedActuatorCommand<C, T> {
    pub command: C,
    pub saturated: bool,
    pub predicted_arm_torque: T,
}

#[derive(Clone, Copy, Debug, PartialEq, Eq, Structural)]
pub enum ActuatorModelError {
    InvalidParameters,
    NonFiniteDemand,
    NonFiniteState,
}

} // verus!
