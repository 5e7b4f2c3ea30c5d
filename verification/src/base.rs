//! The platform abstraction layer: platform detection, the per-platform
//! feature sets, and the device managers of each platform.

pub mod common;
pub mod device;
pub mod laptop;
pub mod mobile;
pub mod platform;

use vstd::prelude::*;

verus! {

/// Bring the detected platform's layer up.
pub fn init() {
    let detected = platform::detect_platform();
    match detected {
        platform::Platform::Laptop => {
            laptop::init();
        },
        platform::Platform::Mobile => {
            mobile::init();
        },
        platform::Platform::Unknown => {
            common::init();
        },
    }
}

/// The detected platform's feature list.
pub fn get_platform_features() -> (r: Vec<&'static str>)
    ensures
        r@.len() > 0,
{
    let detected = platform::detect_platform();
    match detected {
        platform::Platform::Laptop => laptop::get_features(),
        platform::Platform::Mobile => mobile::get_features(),
        platform::Platform::Unknown => common::get_features(),
    }
}

} // verus!
