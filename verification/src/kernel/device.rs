//! Device management: a fixed table of registered devices with their
//! lifecycle states.

use vstd::prelude::*;

verus! {

/// Kind of a device.
#[derive(Debug, Clone, Copy, PartialEq, Eq, Structural)]
pub enum DeviceType {
    Serial,
    Timer,
    Keyboard,
    Mouse,
    Display,
    Network,
    Storage,
    Sensor,
    Actuator,
}

/// Lifecycle state of a device.
#[derive(Debug, Clone, Copy, PartialEq, Eq, Structural)]
pub enum DeviceState {
    Uninitialized,
    Initialized,
    Active,
    Error,
}

/// One registered device.
#[derive(Debug, Clone, Copy, PartialEq)]
pub struct Device {
    pub id: usize,
    pub device_type: DeviceType,
    pub state: DeviceState,
    pub name: &'static str,
    pub base_address: usize,
    pub interrupt_number: Option<u8>,
}

/// The device manager: a fixed table of 64 devices and the next id.
pub struct DeviceManager {
    devices: [Option<Device>; 64],
    next_device_id: usize,
}

/// Slot `i` holds an active device of the given type.
pub open spec fn active_of_type(s: Seq<Option<Device>>, i: int, t: DeviceType) -> bool {
    &&& 0 <= i < s.len()
    &&& s[i] matches Some(d) && d.device_type == t && d.state == DeviceState::Active
}

impl DeviceManager {
    /// The device table.
    pub closed spec fn slots(&self) -> Seq<Option<Device>> {
        self.devices@
    }

    /// The next id to hand out.
    pub closed spec fn next_id(&self) -> usize {
        self.next_device_id
    }

    /// Ids start at 1 and every stored device sits in its own slot.
    pub open spec fn wf(&self) -> bool {
        &&& self.next_id() >= 1
        &&& self.slots().len() == 64
        &&& (forall|i: int|
            0 <= i < 64 && #[trigger] self.slots()[i] is Some ==> self.slots()[i]->0.id == i)
    }

    /// Create a manager with an empty table.
    pub fn new() -> (r: Self)
        ensures
            r.wf(),
            forall|i: int| 0 <= i < 64 ==> r.slots()[i] is None,
            r.next_id() == 1,
    {
        Self { devices: [None; 64], next_device_id: 1 }
    }

    /// Register a device at the next free id.  The id counter always
    /// moves; registration succeeds exactly while the counter is below
    /// the table's size, and the device starts uninitialised.
    pub fn register_device(
        &mut self,
        device_type: DeviceType,
        name: &'static str,
        base_address: usize,
        interrupt_number: Option<u8>,
    ) -> (r: Option<usize>)
        requires
            old(self).wf(),
            old(self).next_id() < usize::MAX,
        ensures
            final(self).wf(),
            final(self).next_id() == old(self).next_id() + 1,
            r is Some <==> old(self).next_id() < 64,
            r matches Some(id) ==> {
                &&& id == old(self).next_id()
                &&& final(self).slots() =~= old(self).slots().update(
                    id as int,
                    Some(
                        (Device {
                            id,
                            device_type,
                            state: DeviceState::Uninitialized,
                            name,
                            base_address,
                            interrupt_number,
                        }),
                    ),
                )
            },
            r is None ==> final(self).slots() =~= old(self).slots(),
    {
        let device_id = self.next_device_id;
        self.next_device_id = self.next_device_id + 1;
        if device_id >= 64 {
            return None;
        }
        let device = Device {
            id: device_id,
            device_type,
            state: DeviceState::Uninitialized,
            name,
            base_address,
            interrupt_number,
        };
        self.devices[device_id] = Some(device);
        Some(device_id)
    }

    /// Mark a device initialised.  Reports whether the slot held one.
    pub fn initialize_device(&mut self, device_id: usize) -> (r: bool)
        requires
            old(self).wf(),
            device_id < 64,
        ensures
            final(self).wf(),
            final(self).next_id() == old(self).next_id(),
            r == old(self).slots()[device_id as int] is Some,
            r ==> final(self).slots() =~= old(self).slots().update(
                device_id as int,
                Some(
                    (Device {
                        state: DeviceState::Initialized,
                        ..old(self).slots()[device_id as int]->0
                    }),
                ),
            ),
            !r ==> final(self).slots() =~= old(self).slots(),
    {
        match self.devices[device_id] {
            Some(device) => {
                self.devices[device_id] = Some(
                    Device { state: DeviceState::Initialized, ..device },
                );
                true
            },
            None => false,
        }
    }

    /// Activate an initialised device.  Fails on an empty slot or on a
    /// device in any other state.
    pub fn activate_device(&mut self, device_id: usize) -> (r: bool)
        requires
            old(self).wf(),
            device_id < 64,
        ensures
            final(self).wf(),
            final(self).next_id() == old(self).next_id(),
            r == (old(self).slots()[device_id as int] matches Some(d) && d.state
                == DeviceState::Initialized),
            r ==> final(self).slots() =~= old(self).slots().update(
                device_id as int,
                Some(
                    (Device {
                        state: DeviceState::Active,
                        ..old(self).slots()[device_id as int]->0
                    }),
                ),
            ),
            !r ==> final(self).slots() =~= old(self).slots(),
    {
        match self.devices[device_id] {
            Some(device) => {
                match device.state {
                    DeviceState::Initialized => {
                        self.devices[device_id] = Some(
                            Device { state: DeviceState::Active, ..device },
                        );
                        true
                    },
                    _ => false,
                }
            },
            None => false,
        }
    }

    /// Find the first active device of a type.
    pub fn find_device(&self, device_type: DeviceType) -> (r: Option<usize>)
        requires
            self.wf(),
        ensures
            r is Some <==> exists|i: int| active_of_type(self.slots(), i, device_type),
            r matches Some(i) ==> active_of_type(self.slots(), i as int, device_type) && (forall|
                j: int,
            | 0 <= j < i ==> !active_of_type(self.slots(), j, device_type)),
    {
        let mut i: usize = 0;
        while i < 64
            invariant
                self.wf(),
                0 <= i <= 64,
                forall|j: int| 0 <= j < i ==> !active_of_type(self.slots(), j, device_type),
            decreases 64 - i,
        {
            match self.devices[i] {
                Some(device) => {
                    if device.device_type == device_type && matches!(
                        device.state,
                        DeviceState::Active,
                    ) {
                        proof {
                            assert(active_of_type(self.slots(), i as int, device_type));
                        }
                        return Some(i);
                    }
                },
                None => {},
            }
            i = i + 1;
        }
        None
    }

    /// The whole device table.
    pub fn get_devices(&self) -> (r: &[Option<Device>])
        ensures
            r@ == self.slots(),
    {
        self.devices.as_slice()
    }
}

/// Register the serial ports the kernel starts with.
pub fn register_serial_devices(manager: &mut DeviceManager)
    requires
        old(manager).wf(),
        old(manager).next_id() + 2 <= usize::MAX,
    ensures
        final(manager).wf(),
        final(manager).next_id() == old(manager).next_id() + 2,
{
    let _ = manager.register_device(DeviceType::Serial, "COM1", 0x3F8, Some(4));
    let _ = manager.register_device(DeviceType::Serial, "COM2", 0x2F8, Some(3));
}

/// Register the interval timer the kernel starts with.
pub fn register_timer_devices(manager: &mut DeviceManager)
    requires
        old(manager).wf(),
        old(manager).next_id() + 1 <= usize::MAX,
    ensures
        final(manager).wf(),
        final(manager).next_id() == old(manager).next_id() + 1,
{
    let _ = manager.register_device(DeviceType::Timer, "PIT", 0x40, Some(0));
}

/// Periodic device processing; no driver work is wired yet.
pub fn process() {
}

} // verus!
