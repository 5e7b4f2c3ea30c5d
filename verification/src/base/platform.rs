//! Platform detection and per-platform defaults.

use crate::kernel::text;
use vstd::prelude::*;
use vstd::string::StringSliceAdditionalSpecFns;

verus! {

/// The supported platforms.
#[derive(Debug, Clone, Copy, PartialEq, Eq, Structural)]
pub enum Platform {
    Laptop,
    Mobile,
    Unknown,
}

/// A description of the running platform.
pub struct PlatformInfo {
    pub platform: Platform,
    pub cpu_arch: &'static str,
    pub memory_size: u64,
    pub has_graphics: bool,
    pub has_network: bool,
    pub has_sensors: bool,
}

/// Detect the platform from the processor's identification.  The build
/// reports an x86-64 processor, which places it in the laptop class.
pub fn detect_platform() -> (r: Platform)
    ensures
        r == Platform::Laptop,
{
    let cpu_info = get_cpu_info();
    proof {
        reveal_strlit("x86_64");
        broadcast use vstd::string::is_ascii_spec_bytes;

        assert("x86_64".is_ascii());
        assert("x86_64".spec_bytes().subrange(0, "x86_64".spec_bytes().len() as int)
            =~= "x86_64".spec_bytes());
        assert(text::match_at("x86_64".spec_bytes(), "x86_64".spec_bytes(), 0));
        assert(text::contains_seq("x86_64".spec_bytes(), "x86_64".spec_bytes()));
    }
    if text::contains(cpu_info.as_bytes(), "x86_64".as_bytes()) || text::contains(
        cpu_info.as_bytes(),
        "x86".as_bytes(),
    ) {
        Platform::Laptop
    } else if text::contains(cpu_info.as_bytes(), "arm".as_bytes()) || text::contains(
        cpu_info.as_bytes(),
        "aarch64".as_bytes(),
    ) {
        Platform::Mobile
    } else {
        Platform::Unknown
    }
}

/// The processor identification; CPUID probing is hardware glue, so the
/// build's own architecture stands in for it.
fn get_cpu_info() -> (r: &'static str)
    ensures
        r@ == "x86_64"@,
{
    "x86_64"
}

/// The detected platform's description.
pub fn get_platform_info() -> (r: PlatformInfo)
    ensures
        r.platform == Platform::Laptop,
        r.cpu_arch@ == "x86_64"@,
        r.memory_size == 8 * 1024 * 1024 * 1024,
        r.has_graphics,
        r.has_network,
        !r.has_sensors,
{
    let platform = detect_platform();
    match platform {
        Platform::Laptop => PlatformInfo {
            platform,
            cpu_arch: "x86_64",
            memory_size: 8 * 1024 * 1024 * 1024,
            has_graphics: true,
            has_network: true,
            has_sensors: false,
        },
        Platform::Mobile => PlatformInfo {
            platform,
            cpu_arch: "aarch64",
            memory_size: 4 * 1024 * 1024 * 1024,
            has_graphics: true,
            has_network: true,
            has_sensors: true,
        },
        Platform::Unknown => PlatformInfo {
            platform,
            cpu_arch: "unknown",
            memory_size: 1024 * 1024 * 1024,
            has_graphics: false,
            has_network: false,
            has_sensors: false,
        },
    }
}

/// Per-platform configuration switches.
pub struct PlatformConfig {
    pub enable_graphics: bool,
    pub enable_network: bool,
    pub enable_sensors: bool,
    pub power_management: bool,
}

impl PlatformConfig {
    /// The default switches of a platform: laptops and mobiles get
    /// graphics, network and power management; sensors are mobile-only;
    /// an unknown platform gets nothing.
    pub fn default_for_platform(platform: Platform) -> (r: Self)
        ensures
            r.enable_graphics == (platform != Platform::Unknown),
            r.enable_network == (platform != Platform::Unknown),
            r.enable_sensors == (platform == Platform::Mobile),
            r.power_management == (platform != Platform::Unknown),
    {
        match platform {
            Platform::Laptop => Self {
                enable_graphics: true,
                enable_network: true,
                enable_sensors: false,
                power_management: true,
            },
            Platform::Mobile => Self {
                enable_graphics: true,
                enable_network: true,
                enable_sensors: true,
                power_management: true,
            },
            Platform::Unknown => Self {
                enable_graphics: false,
                enable_network: false,
                enable_sensors: false,
                power_management: false,
            },
        }
    }
}

} // verus!
