//! The common feature set every platform offers.

use crate::kernel::text;
use vstd::prelude::*;
use vstd::string::StringSliceAdditionalSpecFns;

verus! {

/// Bring the common services up.
pub fn init() {
    init_basic_devices();
    init_system_services();
}

/// Prepare the serial port and the timer; no drivers are wired yet.
fn init_basic_devices() {
}

/// Prepare logging and configuration; no services are wired yet.
fn init_system_services() {
}

/// The common feature list.
pub fn get_features() -> (r: Vec<&'static str>)
    ensures
        r@.len() == 4,
        r@[0]@ == "serial_communication"@,
        r@[1]@ == "timer"@,
        r@[2]@ == "logging"@,
        r@[3]@ == "configuration"@,
{
    vec!["serial_communication", "timer", "logging", "configuration"]
}

/// The common device manager: switches for the devices every platform
/// carries.
pub struct CommonDeviceManager {
    pub serial_enabled: bool,
    pub timer_enabled: bool,
    pub logging_enabled: bool,
}

impl CommonDeviceManager {
    /// Create a manager with every device disabled.
    pub fn new() -> (r: Self)
        ensures
            !r.serial_enabled,
            !r.timer_enabled,
            !r.logging_enabled,
    {
        Self { serial_enabled: false, timer_enabled: false, logging_enabled: false }
    }

    /// Enable a device by name.  Succeeds exactly for the known names.
    pub fn enable_device(&mut self, device_type: &str) -> (r: bool)
        ensures
            r == (device_type.spec_bytes() == "serial".spec_bytes() || device_type.spec_bytes()
                == "timer".spec_bytes() || device_type.spec_bytes() == "logging".spec_bytes()),
            device_type.spec_bytes() == "serial".spec_bytes() ==> *final(self) == (Self {
                serial_enabled: true,
                ..*old(self)
            }),
            device_type.spec_bytes() == "timer".spec_bytes() ==> *final(self) == (Self {
                timer_enabled: true,
                ..*old(self)
            }),
            device_type.spec_bytes() == "logging".spec_bytes() ==> *final(self) == (Self {
                logging_enabled: true,
                ..*old(self)
            }),
            !r ==> *final(self) == *old(self),
    {
        proof {
            broadcast use vstd::string::is_ascii_spec_bytes;

            reveal_strlit("serial");
            reveal_strlit("timer");
            reveal_strlit("logging");
            assert("serial".is_ascii() && "timer".is_ascii() && "logging".is_ascii());
        }
        if text::str_eq(device_type, "serial") {
            self.serial_enabled = true;
            true
        } else if text::str_eq(device_type, "timer") {
            self.timer_enabled = true;
            true
        } else if text::str_eq(device_type, "logging") {
            self.logging_enabled = true;
            true
        } else {
            false
        }
    }

    /// Disable a device by name.  Succeeds exactly for the known names.
    pub fn disable_device(&mut self, device_type: &str) -> (r: bool)
        ensures
            r == (device_type.spec_bytes() == "serial".spec_bytes() || device_type.spec_bytes()
                == "timer".spec_bytes() || device_type.spec_bytes() == "logging".spec_bytes()),
            device_type.spec_bytes() == "serial".spec_bytes() ==> *final(self) == (Self {
                serial_enabled: false,
                ..*old(self)
            }),
            device_type.spec_bytes() == "timer".spec_bytes() ==> *final(self) == (Self {
                timer_enabled: false,
                ..*old(self)
            }),
            device_type.spec_bytes() == "logging".spec_bytes() ==> *final(self) == (Self {
                logging_enabled: false,
                ..*old(self)
            }),
            !r ==> *final(self) == *old(self),
    {
        proof {
            broadcast use vstd::string::is_ascii_spec_bytes;

            reveal_strlit("serial");
            reveal_strlit("timer");
            reveal_strlit("logging");
            assert("serial".is_ascii() && "timer".is_ascii() && "logging".is_ascii());
        }
        if text::str_eq(device_type, "serial") {
            self.serial_enabled = false;
            true
        } else if text::str_eq(device_type, "timer") {
            self.timer_enabled = false;
            true
        } else if text::str_eq(device_type, "logging") {
            self.logging_enabled = false;
            true
        } else {
            false
        }
    }
}

} // verus!
