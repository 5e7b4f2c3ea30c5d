//! The mobile feature set.

use crate::kernel::text;
use vstd::prelude::*;
use vstd::string::StringSliceAdditionalSpecFns;

verus! {

/// Bring the mobile devices up.
pub fn init() {
    init_touch_screen();
    init_mobile_display();
    init_sensors();
    init_mobile_network();
    init_battery_management();
    init_camera();
}

/// Prepare the touch screen; no driver is wired yet.
fn init_touch_screen() {
}

/// Prepare the display panel; no driver is wired yet.
fn init_mobile_display() {
}

/// Prepare the motion and position sensors; no drivers are wired yet.
fn init_sensors() {
}

/// Prepare the radios; no drivers are wired yet.
fn init_mobile_network() {
}

/// Prepare battery management; no driver is wired yet.
fn init_battery_management() {
}

/// Prepare the camera; no driver is wired yet.
fn init_camera() {
}

/// The mobile feature list.
pub fn get_features() -> (r: Vec<&'static str>)
    ensures
        r@.len() == 12,
        r@[0]@ == "touch_screen"@,
        r@[1]@ == "mobile_display"@,
        r@[2]@ == "accelerometer"@,
        r@[3]@ == "gyroscope"@,
        r@[4]@ == "magnetometer"@,
        r@[5]@ == "gps"@,
        r@[6]@ == "wifi"@,
        r@[7]@ == "mobile_data"@,
        r@[8]@ == "battery_management"@,
        r@[9]@ == "camera"@,
        r@[10]@ == "audio"@,
        r@[11]@ == "vibration"@,
{
    vec![
        "touch_screen",
        "mobile_display",
        "accelerometer",
        "gyroscope",
        "magnetometer",
        "gps",
        "wifi",
        "mobile_data",
        "battery_management",
        "camera",
        "audio",
        "vibration",
    ]
}

/// The mobile device manager: switches for the handset's devices.
pub struct MobileDeviceManager {
    pub touch_screen_enabled: bool,
    pub sensors_enabled: bool,
    pub camera_enabled: bool,
    pub wifi_enabled: bool,
    pub battery_enabled: bool,
}

impl MobileDeviceManager {
    /// Create a manager with every device disabled.
    pub fn new() -> (r: Self)
        ensures
            !r.touch_screen_enabled,
            !r.sensors_enabled,
            !r.camera_enabled,
            !r.wifi_enabled,
            !r.battery_enabled,
    {
        Self {
            touch_screen_enabled: false,
            sensors_enabled: false,
            camera_enabled: false,
            wifi_enabled: false,
            battery_enabled: false,
        }
    }

    /// Enable a device by name.  Succeeds exactly for the known names.
    pub fn enable_device(&mut self, device_type: &str) -> (r: bool)
        ensures
            r == (device_type.spec_bytes() == "touch_screen".spec_bytes()
                || device_type.spec_bytes() == "sensors".spec_bytes() || device_type.spec_bytes()
                == "camera".spec_bytes() || device_type.spec_bytes() == "wifi".spec_bytes()
                || device_type.spec_bytes() == "battery".spec_bytes()),
            device_type.spec_bytes() == "touch_screen".spec_bytes() ==> *final(self) == (Self {
                touch_screen_enabled: true,
                ..*old(self)
            }),
            device_type.spec_bytes() == "sensors".spec_bytes() ==> *final(self) == (Self {
                sensors_enabled: true,
                ..*old(self)
            }),
            device_type.spec_bytes() == "camera".spec_bytes() ==> *final(self) == (Self {
                camera_enabled: true,
                ..*old(self)
            }),
            device_type.spec_bytes() == "wifi".spec_bytes() ==> *final(self) == (Self {
                wifi_enabled: true,
                ..*old(self)
            }),
            device_type.spec_bytes() == "battery".spec_bytes() ==> *final(self) == (Self {
                battery_enabled: true,
                ..*old(self)
            }),
            !r ==> *final(self) == *old(self),
    {
        proof {
            lemma_mobile_names();
        }
        if text::str_eq(device_type, "touch_screen") {
            self.touch_screen_enabled = true;
            true
        } else if text::str_eq(device_type, "sensors") {
            self.sensors_enabled = true;
            true
        } else if text::str_eq(device_type, "camera") {
            self.camera_enabled = true;
            true
        } else if text::str_eq(device_type, "wifi") {
            self.wifi_enabled = true;
            true
        } else if text::str_eq(device_type, "battery") {
            self.battery_enabled = true;
            true
        } else {
            false
        }
    }

    /// Disable a device by name.  Succeeds exactly for the known names.
    pub fn disable_device(&mut self, device_type: &str) -> (r: bool)
        ensures
            r == (device_type.spec_bytes() == "touch_screen".spec_bytes()
                || device_type.spec_bytes() == "sensors".spec_bytes() || device_type.spec_bytes()
                == "camera".spec_bytes() || device_type.spec_bytes() == "wifi".spec_bytes()
                || device_type.spec_bytes() == "battery".spec_bytes()),
            device_type.spec_bytes() == "touch_screen".spec_bytes() ==> *final(self) == (Self {
                touch_screen_enabled: false,
                ..*old(self)
            }),
            device_type.spec_bytes() == "sensors".spec_bytes() ==> *final(self) == (Self {
                sensors_enabled: false,
                ..*old(self)
            }),
            device_type.spec_bytes() == "camera".spec_bytes() ==> *final(self) == (Self {
                camera_enabled: false,
                ..*old(self)
            }),
            device_type.spec_bytes() == "wifi".spec_bytes() ==> *final(self) == (Self {
                wifi_enabled: false,
                ..*old(self)
            }),
            device_type.spec_bytes() == "battery".spec_bytes() ==> *final(self) == (Self {
                battery_enabled: false,
                ..*old(self)
            }),
            !r ==> *final(self) == *old(self),
    {
        proof {
            lemma_mobile_names();
        }
        if text::str_eq(device_type, "touch_screen") {
            self.touch_screen_enabled = false;
            true
        } else if text::str_eq(device_type, "sensors") {
            self.sensors_enabled = false;
            true
        } else if text::str_eq(device_type, "camera") {
            self.camera_enabled = false;
            true
        } else if text::str_eq(device_type, "wifi") {
            self.wifi_enabled = false;
            true
        } else if text::str_eq(device_type, "battery") {
            self.battery_enabled = false;
            true
        } else {
            false
        }
    }
}

/// The mobile device names are pairwise distinct.
proof fn lemma_mobile_names()
    ensures
        "touch_screen".spec_bytes() != "sensors".spec_bytes(),
        "touch_screen".spec_bytes() != "camera".spec_bytes(),
        "touch_screen".spec_bytes() != "wifi".spec_bytes(),
        "touch_screen".spec_bytes() != "battery".spec_bytes(),
        "sensors".spec_bytes() != "camera".spec_bytes(),
        "sensors".spec_bytes() != "wifi".spec_bytes(),
        "sensors".spec_bytes() != "battery".spec_bytes(),
        "camera".spec_bytes() != "wifi".spec_bytes(),
        "camera".spec_bytes() != "battery".spec_bytes(),
        "wifi".spec_bytes() != "battery".spec_bytes(),
{
    broadcast use vstd::string::is_ascii_spec_bytes;

    reveal_strlit("touch_screen");
    reveal_strlit("sensors");
    reveal_strlit("camera");
    reveal_strlit("wifi");
    reveal_strlit("battery");
    assert("touch_screen".is_ascii() && "sensors".is_ascii() && "camera".is_ascii());
    assert("wifi".is_ascii() && "battery".is_ascii());
    assert("sensors".spec_bytes()[0] != "battery".spec_bytes()[0]);
}

} // verus!
