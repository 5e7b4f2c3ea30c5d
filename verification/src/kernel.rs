//! Kernel services: memory management, tasks, devices, the filesystem,
//! configuration and the terminals.

pub mod config;
pub mod device;
pub mod filesystem;
pub mod fs_demo;
pub mod fs_test;
pub mod init_config;
pub mod memory;
pub mod simple;
pub mod stdio_terminal;
pub mod task;
pub mod terminal;
pub mod terminal_demo;
pub mod text;
pub mod utkernel;

use vstd::prelude::*;

verus! {

/// The kernel's state after boot, owned explicitly and threaded through
/// the call sites instead of living in global singletons.
pub struct KernelContext {
    pub stacks: memory::StackAllocator,
    pub tasks: task::TaskManager,
    pub devices: device::DeviceManager,
    pub utkernel: utkernel::UTKernelLayer,
}

/// Bring the kernel up: an empty stack allocator, an empty task table,
/// the device table with the boot serial ports and timer registered, and
/// the compatibility layer.  Interrupt wiring is architecture glue and
/// stays outside the library.
pub fn kernel_init() -> (r: KernelContext)
    ensures
        r.stacks.wf(),
        r.tasks.wf(),
        r.devices.wf(),
        r.devices.next_id() == 4,
        memory::live_count(r.stacks.slots()) == 0,
{
    let stacks = memory::StackAllocator::new();
    let tasks = task::TaskManager::new();
    let mut devices = device::DeviceManager::new();
    device::register_serial_devices(&mut devices);
    device::register_timer_devices(&mut devices);
    let utkernel = utkernel::UTKernelLayer::new();
    KernelContext { stacks, tasks, devices, utkernel }
}

/// One pass of the kernel's main loop: schedule the next task and let
/// the devices run.  The scheduler picks the first ready task of maximal
/// positive priority and marks it running, or changes nothing when no
/// task is ready.  The surrounding idle loop halts the processor while
/// it waits for interrupts, which is architecture glue outside the
/// library.
pub fn kernel_step(context: &mut KernelContext)
    requires
        old(context).tasks.wf(),
    ensures
        final(context).tasks.wf(),
        final(context).tasks.next_id() == old(context).tasks.next_id(),
        (exists|i: int| task::slot_ready(old(context).tasks.slots(), i)) ==> exists|i: int|
            {
                &&& task::sched_pick(old(context).tasks.slots(), i)
                &&& final(context).tasks.current() == Some(i as task::TaskId)
                &&& final(context).tasks.slots() =~= old(context).tasks.slots().update(
                    i,
                    Some(
                        (task::Task {
                            state: task::TaskState::Running,
                            ..old(context).tasks.slots()[i]->0
                        }),
                    ),
                )
            },
        !(exists|i: int| task::slot_ready(old(context).tasks.slots(), i)) ==> final(context).tasks
            == old(context).tasks,
        final(context).stacks == old(context).stacks,
        final(context).devices == old(context).devices,
        final(context).utkernel == old(context).utkernel,
{
    context.tasks.schedule();
    device::process();
}

} // verus!
