//! The laptop feature set.

use crate::kernel::text;
use vstd::prelude::*;
use vstd::string::StringSliceAdditionalSpecFns;

verus! {

/// Bring the laptop devices up.
pub fn init() {
    init_input_devices();
    init_display();
    init_network();
    init_storage();
    init_power_management();
}

/// Prepare keyboard and mouse; no drivers are wired yet.
fn init_input_devices() {
}

/// Prepare the display; no driver is wired yet.
fn init_display() {
}

/// Prepare the network adapter; no driver is wired yet.
fn init_network() {
}

/// Prepare the storage controller; no driver is wired yet.
fn init_storage() {
}

/// Prepare power management; no driver is wired yet.
fn init_power_management() {
}

/// The laptop feature list.
pub fn get_features() -> (r: Vec<&'static str>)
    ensures
        r@.len() == 8,
        r@[0]@ == "keyboard_input"@,
        r@[1]@ == "mouse_input"@,
        r@[2]@ == "display_output"@,
        r@[3]@ == "network_ethernet"@,
        r@[4]@ == "storage_hdd"@,
        r@[5]@ == "power_management"@,
        r@[6]@ == "usb_support"@,
        r@[7]@ == "audio_support"@,
{
    vec![
        "keyboard_input",
        "mouse_input",
        "display_output",
        "network_ethernet",
        "storage_hdd",
        "power_management",
        "usb_support",
        "audio_support",
    ]
}

/// The laptop device manager: switches for the laptop's devices.
pub struct LaptopDeviceManager {
    pub keyboard_enabled: bool,
    pub mouse_enabled: bool,
    pub display_enabled: bool,
    pub network_enabled: bool,
    pub storage_enabled: bool,
}

impl LaptopDeviceManager {
    /// Create a manager with every device disabled.
    pub fn new() -> (r: Self)
        ensures
            !r.keyboard_enabled,
            !r.mouse_enabled,
            !r.display_enabled,
            !r.network_enabled,
            !r.storage_enabled,
    {
        Self {
            keyboard_enabled: false,
            mouse_enabled: false,
            display_enabled: false,
            network_enabled: false,
            storage_enabled: false,
        }
    }

    /// Enable a device by name.  Succeeds exactly for the known names.
    pub fn enable_device(&mut self, device_type: &str) -> (r: bool)
        ensures
            r == (device_type.spec_bytes() == "keyboard".spec_bytes() || device_type.spec_bytes()
                == "mouse".spec_bytes() || device_type.spec_bytes() == "display".spec_bytes()
                || device_type.spec_bytes() == "network".spec_bytes() || device_type.spec_bytes()
                == "storage".spec_bytes()),
            device_type.spec_bytes() == "keyboard".spec_bytes() ==> *final(self) == (Self {
                keyboard_enabled: true,
                ..*old(self)
            }),
            device_type.spec_bytes() == "mouse".spec_bytes() ==> *final(self) == (Self {
                mouse_enabled: true,
                ..*old(self)
            }),
            device_type.spec_bytes() == "display".spec_bytes() ==> *final(self) == (Self {
                display_enabled: true,
                ..*old(self)
            }),
            device_type.spec_bytes() == "network".spec_bytes() ==> *final(self) == (Self {
                network_enabled: true,
                ..*old(self)
            }),
            device_type.spec_bytes() == "storage".spec_bytes() ==> *final(self) == (Self {
                storage_enabled: true,
                ..*old(self)
            }),
            !r ==> *final(self) == *old(self),
    {
        proof {
            lemma_laptop_names();
        }
        if text::str_eq(device_type, "keyboard") {
            self.keyboard_enabled = true;
            true
        } else if text::str_eq(device_type, "mouse") {
            self.mouse_enabled = true;
            true
        } else if text::str_eq(device_type, "display") {
            self.display_enabled = true;
            true
        } else if text::str_eq(device_type, "network") {
            self.network_enabled = true;
            true
        } else if text::str_eq(device_type, "storage") {
            self.storage_enabled = true;
            true
        } else {
            false
        }
    }

    /// Disable a device by name.  Succeeds exactly for the known names.
    pub fn disable_device(&mut self, device_type: &str) -> (r: bool)
        ensures
            r == (device_type.spec_bytes() == "keyboard".spec_bytes() || device_type.spec_bytes()
                == "mouse".spec_bytes() || device_type.spec_bytes() == "display".spec_bytes()
                || device_type.spec_bytes() == "network".spec_bytes() || device_type.spec_bytes()
                == "storage".spec_bytes()),
            device_type.spec_bytes() == "keyboard".spec_bytes() ==> *final(self) == (Self {
                keyboard_enabled: false,
                ..*old(self)
            }),
            device_type.spec_bytes() == "mouse".spec_bytes() ==> *final(self) == (Self {
                mouse_enabled: false,
                ..*old(self)
            }),
            device_type.spec_bytes() == "display".spec_bytes() ==> *final(self) == (Self {
                display_enabled: false,
                ..*old(self)
            }),
            device_type.spec_bytes() == "network".spec_bytes() ==> *final(self) == (Self {
                network_enabled: false,
                ..*old(self)
            }),
            device_type.spec_bytes() == "storage".spec_bytes() ==> *final(self) == (Self {
                storage_enabled: false,
                ..*old(self)
            }),
            !r ==> *final(self) == *old(self),
    {
        proof {
            lemma_laptop_names();
        }
        if text::str_eq(device_type, "keyboard") {
            self.keyboard_enabled = false;
            true
        } else if text::str_eq(device_type, "mouse") {
            self.mouse_enabled = false;
            true
        } else if text::str_eq(device_type, "display") {
            self.display_enabled = false;
            true
        } else if text::str_eq(device_type, "network") {
            self.network_enabled = false;
            true
        } else if text::str_eq(device_type, "storage") {
            self.storage_enabled = false;
            true
        } else {
            false
        }
    }
}

/// The laptop device names are pairwise distinct.
proof fn lemma_laptop_names()
    ensures
        "keyboard".spec_bytes() != "mouse".spec_bytes(),
        "keyboard".spec_bytes() != "display".spec_bytes(),
        "keyboard".spec_bytes() != "network".spec_bytes(),
        "keyboard".spec_bytes() != "storage".spec_bytes(),
        "mouse".spec_bytes() != "display".spec_bytes(),
        "mouse".spec_bytes() != "network".spec_bytes(),
        "mouse".spec_bytes() != "storage".spec_bytes(),
        "display".spec_bytes() != "network".spec_bytes(),
        "display".spec_bytes() != "storage".spec_bytes(),
        "network".spec_bytes() != "storage".spec_bytes(),
{
    broadcast use vstd::string::is_ascii_spec_bytes;

    reveal_strlit("keyboard");
    reveal_strlit("mouse");
    reveal_strlit("display");
    reveal_strlit("network");
    reveal_strlit("storage");
    assert("keyboard".is_ascii() && "mouse".is_ascii() && "display".is_ascii());
    assert("network".is_ascii() && "storage".is_ascii());
    assert("display".spec_bytes()[0] != "network".spec_bytes()[0]);
    assert("display".spec_bytes()[0] != "storage".spec_bytes()[0]);
    assert("network".spec_bytes()[0] != "storage".spec_bytes()[0]);
}

} // verus!
