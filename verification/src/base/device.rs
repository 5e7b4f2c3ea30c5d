//! The device abstraction: a trait every driver implements, a generic
//! manager over one driver type, and the per-platform manager bundle.

use crate::base::common::CommonDeviceManager;
use crate::base::laptop::LaptopDeviceManager;
use crate::base::mobile::MobileDeviceManager;
use crate::base::platform::Platform;
use vstd::prelude::*;
use vstd::string::StringSliceAdditionalSpecFns;

verus! {

/// Lifecycle state of an abstract device.
#[derive(Debug, Clone, Copy, PartialEq, Eq, Structural)]
pub enum DeviceStatus {
    Uninitialized,
    Initialized,
    Enabled,
    Disabled,
    Error,
}

/// The interface a device driver implements.
pub trait Device {
    /// Prepare the device.
    fn init(&mut self) -> bool;

    /// Switch the device on.
    fn enable(&mut self) -> bool;

    /// Switch the device off.
    fn disable(&mut self) -> bool;

    /// The device's lifecycle state.
    fn get_status(&self) -> DeviceStatus;
}

/// A manager over one kind of driver.
pub struct DeviceManager<D: Device> {
    devices: Vec<D>,
    platform: Platform,
}

impl<D: Device> DeviceManager<D> {
    /// Number of registered devices.
    pub closed spec fn count(&self) -> nat {
        self.devices@.len()
    }

    /// The platform the manager serves.
    pub closed spec fn spec_platform(&self) -> Platform {
        self.platform
    }

    /// Create a manager with no devices.
    pub fn new(platform: Platform) -> (r: Self)
        ensures
            r.count() == 0,
            r.spec_platform() == platform,
    {
        Self { devices: Vec::new(), platform }
    }

    /// Register a device.
    pub fn register_device(&mut self, device: D)
        ensures
            final(self).count() == old(self).count() + 1,
            final(self).spec_platform() == old(self).spec_platform(),
    {
        self.devices.push(device);
    }

    /// Prepare every device; stops at the first that fails.  What a
    /// driver does is up to its implementation, so only the table's size
    /// is pinned here.
    pub fn init_all_devices(&mut self) -> (r: bool)
        ensures
            final(self).count() == old(self).count(),
            final(self).spec_platform() == old(self).spec_platform(),
    {
        let n = self.devices.len();
        let mut i: usize = 0;
        while i < n
            invariant
                n == self.count(),
                n == old(self).count(),
                self.spec_platform() == old(self).spec_platform(),
                0 <= i <= n,
            decreases n - i,
        {
            if !self.devices[i].init() {
                return false;
            }
            i = i + 1;
        }
        true
    }

    /// Switch every device on; stops at the first that fails.
    pub fn enable_all_devices(&mut self) -> (r: bool)
        ensures
            final(self).count() == old(self).count(),
            final(self).spec_platform() == old(self).spec_platform(),
    {
        let n = self.devices.len();
        let mut i: usize = 0;
        while i < n
            invariant
                n == self.count(),
                n == old(self).count(),
                self.spec_platform() == old(self).spec_platform(),
                0 <= i <= n,
            decreases n - i,
        {
            if !self.devices[i].enable() {
                return false;
            }
            i = i + 1;
        }
        true
    }

    /// Switch every device off; stops at the first that fails.
    pub fn disable_all_devices(&mut self) -> (r: bool)
        ensures
            final(self).count() == old(self).count(),
            final(self).spec_platform() == old(self).spec_platform(),
    {
        let n = self.devices.len();
        let mut i: usize = 0;
        while i < n
            invariant
                n == self.count(),
                n == old(self).count(),
                self.spec_platform() == old(self).spec_platform(),
                0 <= i <= n,
            decreases n - i,
        {
            if !self.devices[i].disable() {
                return false;
            }
            i = i + 1;
        }
        true
    }

    /// A device's lifecycle state, when the index is in range.
    pub fn get_device_status(&self, index: usize) -> (r: Option<DeviceStatus>)
        ensures
            r is Some <==> index < self.count(),
    {
        if index < self.devices.len() {
            Some(self.devices[index].get_status())
        } else {
            None
        }
    }
}

/// The per-platform manager bundle: the common devices always, and the
/// platform's own manager where the platform matches.
pub struct PlatformDeviceManager {
    pub laptop_manager: Option<LaptopDeviceManager>,
    pub mobile_manager: Option<MobileDeviceManager>,
    pub common_manager: CommonDeviceManager,
}

impl PlatformDeviceManager {
    /// Create the bundle for a platform.
    pub fn new(platform: Platform) -> (r: Self)
        ensures
            r.laptop_manager is Some <==> platform == Platform::Laptop,
            r.mobile_manager is Some <==> platform == Platform::Mobile,
            !r.common_manager.serial_enabled,
            !r.common_manager.timer_enabled,
            !r.common_manager.logging_enabled,
    {
        Self {
            laptop_manager: match platform {
                Platform::Laptop => Some(LaptopDeviceManager::new()),
                _ => None,
            },
            mobile_manager: match platform {
                Platform::Mobile => Some(MobileDeviceManager::new()),
                _ => None,
            },
            common_manager: CommonDeviceManager::new(),
        }
    }

    /// Enable a device by name, trying the common manager first and then
    /// the platform's own.  Succeeds exactly when one of the attached
    /// managers knows the name.
    pub fn enable_device(&mut self, device_type: &str) -> (r: bool)
        ensures
            r == (device_type.spec_bytes() == "serial".spec_bytes() || device_type.spec_bytes()
                == "timer".spec_bytes() || device_type.spec_bytes() == "logging".spec_bytes() || (
            old(self).laptop_manager is Some && (device_type.spec_bytes()
                == "keyboard".spec_bytes() || device_type.spec_bytes() == "mouse".spec_bytes()
                || device_type.spec_bytes() == "display".spec_bytes() || device_type.spec_bytes()
                == "network".spec_bytes() || device_type.spec_bytes() == "storage".spec_bytes()))
                || (old(self).mobile_manager is Some && (device_type.spec_bytes()
                == "touch_screen".spec_bytes() || device_type.spec_bytes()
                == "sensors".spec_bytes() || device_type.spec_bytes() == "camera".spec_bytes()
                || device_type.spec_bytes() == "wifi".spec_bytes() || device_type.spec_bytes()
                == "battery".spec_bytes()))),
    {
        if self.common_manager.enable_device(device_type) {
            return true;
        }
        match &mut self.laptop_manager {
            Some(laptop_manager) => {
                if laptop_manager.enable_device(device_type) {
                    return true;
                }
            },
            None => {},
        }
        match &mut self.mobile_manager {
            Some(mobile_manager) => {
                if mobile_manager.enable_device(device_type) {
                    return true;
                }
            },
            None => {},
        }
        false
    }

    /// Disable a device by name, trying the common manager first and
    /// then the platform's own.
    pub fn disable_device(&mut self, device_type: &str) -> (r: bool)
        ensures
            r == (device_type.spec_bytes() == "serial".spec_bytes() || device_type.spec_bytes()
                == "timer".spec_bytes() || device_type.spec_bytes() == "logging".spec_bytes() || (
            old(self).laptop_manager is Some && (device_type.spec_bytes()
                == "keyboard".spec_bytes() || device_type.spec_bytes() == "mouse".spec_bytes()
                || device_type.spec_bytes() == "display".spec_bytes() || device_type.spec_bytes()
                == "network".spec_bytes() || device_type.spec_bytes() == "storage".spec_bytes()))
                || (old(self).mobile_manager is Some && (device_type.spec_bytes()
                == "touch_screen".spec_bytes() || device_type.spec_bytes()
                == "sensors".spec_bytes() || device_type.spec_bytes() == "camera".spec_bytes()
                || device_type.spec_bytes() == "wifi".spec_bytes() || device_type.spec_bytes()
                == "battery".spec_bytes()))),
    {
        if self.common_manager.disable_device(device_type) {
            return true;
        }
        match &mut self.laptop_manager {
            Some(laptop_manager) => {
                if laptop_manager.disable_device(device_type) {
                    return true;
                }
            },
            None => {},
        }
        match &mut self.mobile_manager {
            Some(mobile_manager) => {
                if mobile_manager.disable_device(device_type) {
                    return true;
                }
            },
            None => {},
        }
        false
    }
}

} // verus!
