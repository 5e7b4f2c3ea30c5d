//! Motion states.  The trajectories hold floating-point coordinates and
//! stay outside the library.

use vstd::prelude::*;

verus! {

/// State of the motion controller.
#[derive(Debug, Clone, Copy, PartialEq, Eq, Structural)]
pub enum MotionState {
    Idle,
    Moving,
    Paused,
    Emergency,
}

} // verus!
