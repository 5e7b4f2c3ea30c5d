//! Retron: a verified model of a small hobby operating system.
//!
//! The crate is organised like the system it models: `kernel` holds the
//! memory, task, device, filesystem, configuration and terminal logic;
//! `base` is the platform abstraction layer; `ui` the widget toolkit and
//! `robot` the control-stack data model.  All state is owned explicitly:
//! a caller creates the managers and threads them through the calls, so
//! there is no ambient global state anywhere in the library.

pub mod base;
pub mod kernel;
pub mod robot;
pub mod ui;

use vstd::prelude::*;

verus! {

/// Version of the modelled kernel.
pub const KERNEL_VERSION: &'static str = "0.1.0";

/// Version of the kernel API the compatibility layer follows.
pub const UTKERNEL_VERSION: &'static str = "3.0";

} // verus!
