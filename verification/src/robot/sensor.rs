//! Sensor kinds and states.  The readings are floating-point values and
//! stay outside the library.

use vstd::prelude::*;

verus! {

/// Kind of a sensor.
#[derive(Debug, Clone, Copy, PartialEq, Eq, Structural)]
pub enum SensorType {
    Ultrasonic,
    Infrared,
    Lidar,
    Camera,
    IMU,
    GPS,
    Encoder,
    ForceTorque,
}

/// State of a sensor.
#[derive(Debug, Clone, Copy, PartialEq, Eq, Structural)]
pub enum SensorState {
    Inactive,
    Active,
    Calibrating,
    Error,
}

} // verus!
