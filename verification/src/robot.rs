//! The robot control stack's data model: the state spaces of its parts
//! and the communication layer.  The control laws themselves work on
//! floating-point measurements and stay outside the library.

pub mod actuator;
pub mod communication;
pub mod control;
pub mod motion;
pub mod navigation;
pub mod sensor;

use vstd::prelude::*;

verus! {

/// Bring the robot stack up.  Only the communication layer holds plain
/// integer state; the actuators, sensors, motion, navigation and control
/// parts work on floating-point measurements and are wired outside the
/// library.
pub fn init() -> (r: communication::CommunicationManager)
    ensures
        r.spec_channels().len() == 0,
{
    communication::CommunicationManager::new()
}

} // verus!
