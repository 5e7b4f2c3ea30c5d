//! Tests for the kernel context, the task manager, the device manager,
//! the compatibility layer and the console model.

use retron::kernel::device::{DeviceManager, DeviceState, DeviceType};
use retron::kernel::simple::{init_serial, serial_println, simple_hello, VgaText};
use retron::kernel::task::{TaskManager, TaskState};
use retron::kernel::utkernel::UTKernelLayer;
use retron::kernel::{kernel_init, kernel_step};
use retron::{KERNEL_VERSION, UTKERNEL_VERSION};

#[test]
fn the_kernel_boots_with_its_tables() {
    let mut context = kernel_init();
    assert_eq!(context.tasks.get_current_task(), None);
    let devices = context.devices.get_devices();
    assert_eq!(devices[1].unwrap().name, "COM1");
    assert_eq!(devices[2].unwrap().name, "COM2");
    assert_eq!(devices[3].unwrap().name, "PIT");
    kernel_step(&mut context);
    assert_eq!(KERNEL_VERSION, "0.1.0");
    assert_eq!(UTKERNEL_VERSION, "3.0");
}

#[test]
fn tasks_are_created_and_scheduled_by_priority() {
    let mut m = TaskManager::new();
    let low = m.create_task(3, 4096, 0x1000).unwrap();
    let high = m.create_task(9, 4096, 0x2000).unwrap();
    assert_eq!((low, high), (1, 2));
    m.schedule();
    assert_eq!(m.get_current_task(), Some(high));
    assert!(m.exit_task(high));
    assert!(m.start_task(low));
    assert!(!m.start_task(20));
    assert!(!m.exit_task(20));
}

#[test]
fn the_task_table_fills_at_its_capacity() {
    let mut m = TaskManager::new();
    for _ in 0..31 {
        assert!(m.create_task(1, 1024, 0).is_some());
    }
    assert!(m.create_task(1, 1024, 0).is_none());
}

#[test]
fn zero_priority_tasks_are_never_scheduled() {
    let mut m = TaskManager::new();
    let idle = m.create_task(0, 1024, 0).unwrap();
    m.schedule();
    assert_eq!(m.get_current_task(), None);
    assert!(m.start_task(idle));
}

#[test]
fn devices_follow_their_lifecycle() {
    let mut m = DeviceManager::new();
    let id = m.register_device(DeviceType::Keyboard, "KBD", 0x60, Some(1)).unwrap();
    // A device must be initialised before it can be activated.
    assert!(!m.activate_device(id));
    assert!(m.initialize_device(id));
    assert!(m.activate_device(id));
    assert_eq!(m.find_device(DeviceType::Keyboard), Some(id));
    assert_eq!(m.find_device(DeviceType::Network), None);
    assert!(!m.initialize_device(40));
    assert_eq!(m.get_devices()[id].unwrap().state, DeviceState::Active);
}

#[test]
fn the_compatibility_layer_reports_missing_storage() {
    let mut layer = UTKernelLayer::new();
    // No stack or pool storage is wired, so creation reports failure.
    assert_eq!(layer.create_task(5, 4096, 0), None);
    assert_eq!(layer.create_memory_pool(64, 16), None);
    assert!(!layer.start_task(1));
    assert!(!layer.exit_task(1));
    assert_eq!(layer.get_memory_block(1), None);
    assert!(layer.release_memory_block(1, 0));
}

#[test]
fn the_console_tracks_its_cursor() {
    let mut console = VgaText::new();
    retron::kernel::simple::println(&mut console, "AB");
    // Two glyphs then a wrap to the next row of eighty cells.
    simple_hello(&mut console);
    serial_println(&mut console, "serial line");
    init_serial();
}

#[test]
fn console_lines_wrap_at_eighty_columns() {
    let mut console = VgaText::new();
    console.print("A");
    console.print("\n");
    console.print("B");
    // After one line break the cursor sits at the second row.
    console.serial_print("C");
    let mut long = String::new();
    for _ in 0..100 {
        long.push('x');
    }
    console.println(&long);
}

#[test]
fn task_states_cover_the_lifecycle() {
    let states = [
        TaskState::Ready,
        TaskState::Running,
        TaskState::Waiting,
        TaskState::Suspended,
        TaskState::Dormant,
    ];
    assert_eq!(states.len(), 5);
}
