//! Navigation states.  The maps and poses hold floating-point coordinates
//! and stay outside the library.

use vstd::prelude::*;

verus! {

/// State of the navigation system.
#[derive(Debug, Clone, Copy, PartialEq, Eq, Structural)]
pub enum NavigationState {
    Idle,
    Planning,
    Navigating,
    Reached,
    Failed,
}

} // verus!
