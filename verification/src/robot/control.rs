//! Control modes and states.  The control laws hold floating-point gains
//! and stay outside the library.

use vstd::prelude::*;

verus! {

/// Mode of the control system.
#[derive(Debug, Clone, Copy, PartialEq, Eq, Structural)]
pub enum ControlMode {
    Manual,
    Autonomous,
    SemiAutonomous,
    Emergency,
    Maintenance,
}

/// State of the control system.
#[derive(Debug, Clone, Copy, PartialEq, Eq, Structural)]
pub enum ControlState {
    Initializing,
    Ready,
    Running,
    Paused,
    Stopped,
    Error,
}

} // verus!
