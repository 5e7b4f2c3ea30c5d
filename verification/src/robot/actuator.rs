//! Actuator kinds and states.  The drive electronics hold floating-point
//! setpoints and stay outside the library.

use vstd::prelude::*;

verus! {

/// Kind of an actuator.
#[derive(Debug, Clone, Copy, PartialEq, Eq, Structural)]
pub enum ActuatorType {
    Servo,
    DCMotor,
    StepperMotor,
    LinearActuator,
    Pneumatic,
    Hydraulic,
}

/// State of an actuator.
#[derive(Debug, Clone, Copy, PartialEq, Eq, Structural)]
pub enum ActuatorState {
    Idle,
    Moving,
    Holding,
    Error,
    Disabled,
}

} // verus!
