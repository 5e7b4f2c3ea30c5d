//! Tests for the platform abstraction layer.

use retron::base::common::CommonDeviceManager;
use retron::base::device::{Device, DeviceManager, DeviceStatus, PlatformDeviceManager};
use retron::base::laptop::LaptopDeviceManager;
use retron::base::mobile::MobileDeviceManager;
use retron::base::platform::{detect_platform, get_platform_info, Platform, PlatformConfig};
use retron::base::{get_platform_features, init};

#[test]
fn the_build_detects_a_laptop() {
    assert_eq!(detect_platform(), Platform::Laptop);
    let info = get_platform_info();
    assert_eq!(info.platform, Platform::Laptop);
    assert_eq!(info.cpu_arch, "x86_64");
    assert_eq!(info.memory_size, 8 * 1024 * 1024 * 1024);
    assert!(info.has_graphics);
    assert!(!info.has_sensors);
}

#[test]
fn platform_defaults_follow_the_platform() {
    let laptop = PlatformConfig::default_for_platform(Platform::Laptop);
    assert!(laptop.enable_graphics && !laptop.enable_sensors && laptop.power_management);
    let mobile = PlatformConfig::default_for_platform(Platform::Mobile);
    assert!(mobile.enable_sensors);
    let unknown = PlatformConfig::default_for_platform(Platform::Unknown);
    assert!(!unknown.enable_graphics && !unknown.power_management);
}

#[test]
fn the_feature_lists_match_the_platform() {
    init();
    let features = get_platform_features();
    assert_eq!(features.len(), 8);
    assert_eq!(features[0], "keyboard_input");
    assert_eq!(features[7], "audio_support");
}

#[test]
fn common_devices_toggle_by_name() {
    let mut m = CommonDeviceManager::new();
    assert!(m.enable_device("serial"));
    assert!(m.serial_enabled);
    assert!(m.enable_device("timer"));
    assert!(m.enable_device("logging"));
    assert!(!m.enable_device("teapot"));
    assert!(m.disable_device("serial"));
    assert!(!m.serial_enabled);
    assert!(m.timer_enabled && m.logging_enabled);
}

#[test]
fn laptop_devices_toggle_by_name() {
    let mut m = LaptopDeviceManager::new();
    assert!(m.enable_device("keyboard"));
    assert!(m.enable_device("storage"));
    assert!(m.keyboard_enabled && m.storage_enabled);
    assert!(!m.enable_device("sensors"));
    assert!(m.disable_device("keyboard"));
    assert!(!m.keyboard_enabled);
}

#[test]
fn mobile_devices_toggle_by_name() {
    let mut m = MobileDeviceManager::new();
    assert!(m.enable_device("touch_screen"));
    assert!(m.enable_device("battery"));
    assert!(m.touch_screen_enabled && m.battery_enabled);
    assert!(!m.enable_device("keyboard"));
    assert!(m.disable_device("battery"));
    assert!(!m.battery_enabled);
}

#[test]
fn the_platform_bundle_routes_names_to_its_managers() {
    let mut bundle = PlatformDeviceManager::new(Platform::Laptop);
    assert!(bundle.laptop_manager.is_some());
    assert!(bundle.mobile_manager.is_none());
    assert!(bundle.enable_device("serial"));
    assert!(bundle.enable_device("display"));
    assert!(!bundle.enable_device("touch_screen"));
    assert!(bundle.disable_device("display"));
    let mut mobile_bundle = PlatformDeviceManager::new(Platform::Mobile);
    assert!(mobile_bundle.enable_device("touch_screen"));
    assert!(!mobile_bundle.enable_device("display"));
}

struct ToggleDevice {
    status: DeviceStatus,
    healthy: bool,
}

impl Device for ToggleDevice {
    fn init(&mut self) -> bool {
        self.status = DeviceStatus::Initialized;
        self.healthy
    }

    fn enable(&mut self) -> bool {
        self.status = DeviceStatus::Enabled;
        self.healthy
    }

    fn disable(&mut self) -> bool {
        self.status = DeviceStatus::Disabled;
        self.healthy
    }

    fn get_status(&self) -> DeviceStatus {
        self.status
    }
}

#[test]
fn the_generic_manager_walks_its_drivers() {
    let mut m: DeviceManager<ToggleDevice> = DeviceManager::new(Platform::Laptop);
    m.register_device(ToggleDevice { status: DeviceStatus::Uninitialized, healthy: true });
    m.register_device(ToggleDevice { status: DeviceStatus::Uninitialized, healthy: true });
    assert!(m.init_all_devices());
    assert!(m.enable_all_devices());
    assert_eq!(m.get_device_status(0), Some(DeviceStatus::Enabled));
    assert_eq!(m.get_device_status(5), None);
    assert!(m.disable_all_devices());
    m.register_device(ToggleDevice { status: DeviceStatus::Uninitialized, healthy: false });
    assert!(!m.init_all_devices());
}
