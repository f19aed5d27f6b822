//! Enumeration: devices that come and go on the ports of a hub.

use crate::hub_life::HubAckHubStatus;
use crate::hub_port::{look_at_port, port_look, port_reset, reset_port, ClearPortChange};
use crate::search::{first_between, first_between_is_first};
use crate::status::{named_statuses_are_errors, Status};
use crate::task::{Action, Frame, Progress, Reply, Step};
use crate::usb_2_host_controller::{
    Usb2HcTransactionTranslator, UsbPortStatus, EFI_USB_SPEED_FULL, EFI_USB_SPEED_HIGH,
    EFI_USB_SPEED_LOW, EFI_USB_SPEED_SUPER, USB_PORT_STAT_CONNECTION, USB_PORT_STAT_C_CONNECTION,
    USB_PORT_STAT_C_ENABLE, USB_PORT_STAT_C_OVERCURRENT, USB_PORT_STAT_C_RESET, USB_PORT_STAT_HIGH_SPEED,
    USB_PORT_STAT_LOW_SPEED, USB_PORT_STAT_OVERCURRENT, USB_PORT_STAT_SUPER_SPEED,
};
use crate::usb_bus_defs::{
    InterfaceId, UsbBus, UsbDevice, UsbHubApi, UsbInterface,
    USB_ENUM_POLL_MAXIMUM_ATTEMPTS, USB_MAX_INTERFACE, USB_SET_DEVICE_ADDRESS_STALL,
    USB_WAIT_PORT_STABLE_STALL,
};
use crate::usb_config::{find_first_config, first_config_value, RemoveConfig, SelectConfig};
use crate::usb_control::{
    set_address_request, set_config_request, usb_set_address, usb_set_config, BuildDescTable,
    GetMaxPacketSize0,
};
use vstd::prelude::*;

verus! {

/// A device that has just been found behind a port and has no address yet.
pub open spec fn is_new_device(
    child: UsbDevice,
    parent: UsbDevice,
    parent_interface: InterfaceId,
    parent_port: u8,
) -> bool {
    &&& child == (UsbDevice {
        speed: 0,
        address: 0,
        max_packet0: 8,
        dev_desc: None,
        active_config: None,
        lang_id: child.lang_id,
        total_lang_id: 0,
        num_of_interface: 0,
        interfaces: child.interfaces,
        translator: Usb2HcTransactionTranslator { translator_hub_address: 0, translator_port_number: 0 },
        parent_addr: parent.address,
        parent_if: Some(parent_interface),
        parent_port,
        tier: if parent.tier < 255 {
            (parent.tier + 1) as u8
        } else {
            255
        },
        connected: true,
        disconnect_fail: false,
    })
    &&& forall|i: int| 0 <= i < 16 ==> #[trigger] child.lang_id@[i] == 0
    &&& child.interfaces@ == Seq::new(USB_MAX_INTERFACE as nat, |i: int| None::<UsbInterface>)
}

/// Creates a device behind a port of a hub.
pub fn usb_create_device(parent: &UsbDevice, parent_interface: InterfaceId, parent_port: u8) -> (r:
    UsbDevice)
    ensures
        is_new_device(r, *parent, parent_interface, parent_port),
{
    let mut interfaces: Vec<Option<UsbInterface>> = Vec::new();
    while interfaces.len() < USB_MAX_INTERFACE
        invariant
            interfaces@.len() <= USB_MAX_INTERFACE,
            forall|i: int| 0 <= i < interfaces@.len() ==> #[trigger] interfaces@[i] is None,
        decreases USB_MAX_INTERFACE - interfaces@.len(),
    {
        interfaces.push(None);
    }
    assert(interfaces@ =~= Seq::new(USB_MAX_INTERFACE as nat, |i: int| None::<UsbInterface>));
    UsbDevice {
        speed: 0,
        address: 0,
        max_packet0: 8,
        dev_desc: None,
        active_config: None,
        lang_id: [0; 16],
        total_lang_id: 0,
        num_of_interface: 0,
        interfaces,
        translator: Usb2HcTransactionTranslator { translator_hub_address: 0, translator_port_number: 0 },
        parent_addr: parent.address,
        parent_if: Some(parent_interface),
        parent_port,
        tier: if parent.tier < 255 {
            parent.tier + 1
        } else {
            255
        },
        connected: true,
        disconnect_fail: false,
    }
}

/// A slot holds the device behind a port of a hub.
pub open spec fn is_behind(hub: u8, port: u8) -> spec_fn(Option<UsbDevice>) -> bool {
    |slot: Option<UsbDevice>|
        slot matches Some(child) && child.parent_addr == hub && child.parent_port == port
}

/// The address of the device behind a port of a hub.
pub open spec fn child_behind(bus: UsbBus, hub: u8, port: u8) -> Option<int> {
    first_between(bus.devices@, 1, bus.usable_slots(), is_behind(hub, port))
}

/// Finds the device behind a port of a hub.
pub fn usb_find_child(bus: &UsbBus, hub: u8, port: u8) -> (r: Option<u8>)
    requires
        bus.wf(),
    ensures
        match r {
            Some(address) => child_behind(*bus, hub, port) == Some(address as int) && bus.device(
                address,
            ) is Some,
            None => child_behind(*bus, hub, port) is None,
        },
{
    let count: usize = bus.slot_count();
    let ghost p = is_behind(hub, port);
    let mut index: usize = 1;
    while index < count
        invariant
            bus.wf(),
            1 <= index,
            count == bus.usable_slots(),
            p == is_behind(hub, port),
            first_between(bus.devices@, 1, count as int, p) == first_between(
                bus.devices@,
                index as int,
                count as int,
                p,
            ),
        decreases count - index,
    {
        if let Some(child) = &bus.devices[index] {
            if child.parent_addr == hub && child.parent_port == port {
                return Some(index as u8);
            }
        }
        index = index + 1;
    }
    None
}

/// A slot holds a device that hangs on a hub.
pub open spec fn hangs_on(hub: u8) -> spec_fn(Option<UsbDevice>) -> bool {
    |slot: Option<UsbDevice>| slot matches Some(child) && child.parent_addr == hub
}

/// Removes a device with all devices that hang on it.
#[derive(Clone, Copy, Debug)]
pub struct RemoveDevice {
    pub device: u8,
    /// The child that is being removed.
    pub child: u8,
    /// The last error.
    pub result: Status,
    pub at: RemoveDeviceAt,
}

#[derive(Clone, Copy, Debug)]
pub enum RemoveDeviceAt {
    Start,
    Child,
    Config,
}

impl RemoveDevice {
    pub open spec fn start(device: u8) -> RemoveDevice {
        RemoveDevice { device, child: 0, result: Status::Success, at: RemoveDeviceAt::Start }
    }

    pub fn new(device: u8) -> (r: RemoveDevice)
        ensures
            r == RemoveDevice::start(device),
    {
        RemoveDevice { device, child: 0, result: Status::Success, at: RemoveDeviceAt::Start }
    }

    /// Removes a child; `result` is the last error so far.
    pub open spec fn removes_child(self, child: int, result: Status) -> Step {
        Step::Call {
            callee: Frame::RemoveDevice(RemoveDevice::start(child as u8)),
            next: Frame::RemoveDevice(
                RemoveDevice { device: self.device, child: child as u8, result, at: RemoveDeviceAt::Child },
            ),
        }
    }

    /// How the operation goes on after `reply`. The device itself goes when all its
    /// children have gone; what cannot go is marked.
    pub open spec fn goes_on(self, pre: UsbBus, reply: Reply, post: UsbBus, step: Step) -> bool {
        let status = reply.as_status();
        match pre.device(self.device) {
            None => post == pre && step == Step::Done(Reply::Status(Status::InvalidParameter)),
            Some(d) => match self.at {
                RemoveDeviceAt::Config => if status.fails() {
                    &&& pre.with_device(
                        self.device,
                        Some(UsbDevice { disconnect_fail: true, ..d }),
                        post,
                    )
                    &&& step == Step::Done(Reply::Status(status))
                } else if self.device >= pre.usable_slots() {
                    post == pre && step == Step::Done(Reply::Status(Status::InvalidParameter))
                } else {
                    &&& pre.with_device(self.device, None, post)
                    &&& step == Step::Done(Reply::Status(status))
                },
                _ => {
                    let from = if self.at is Start {
                        1
                    } else {
                        self.child + 1
                    };
                    let child_failed = self.at is Child && status.fails();
                    let result = if child_failed {
                        status
                    } else {
                        self.result
                    };
                    match first_between(pre.devices@, from, pre.usable_slots(), hangs_on(d.address)) {
                        Some(child) => {
                            &&& step == self.removes_child(child, result)
                            &&& self.marks_child(pre, child_failed, post)
                        },
                        None => if result.fails() {
                            &&& step == Step::Done(Reply::Status(result))
                            &&& self.marks_child(pre, child_failed, post)
                        } else {
                            &&& pre.with_device(
                                self.device,
                                Some(UsbDevice { connected: false, ..d }),
                                post,
                            )
                            &&& step == (Step::Call {
                                callee: Frame::RemoveConfig(RemoveConfig::start(self.device)),
                                next: Frame::RemoveDevice(
                                    RemoveDevice { result, at: RemoveDeviceAt::Config, ..self },
                                ),
                            })
                        },
                    }
                },
            },
        }
    }

    /// A child that could not be removed is marked, if it is still there.
    pub open spec fn marks_child(self, pre: UsbBus, child_failed: bool, post: UsbBus) -> bool {
        match pre.device(self.child) {
            Some(c) if child_failed => pre.with_device(
                self.child,
                Some(UsbDevice { disconnect_fail: true, ..c }),
                post,
            ),
            _ => post == pre,
        }
    }
}

fn find_child_of(bus: &UsbBus, hub: u8, from: usize) -> (r: Option<u8>)
    requires
        bus.wf(),
    ensures
        match r {
            Some(child) => first_between(
                bus.devices@,
                from as int,
                bus.usable_slots(),
                hangs_on(hub),
            ) == Some(child as int),
            None => first_between(bus.devices@, from as int, bus.usable_slots(), hangs_on(hub)) is None,
        },
{
    let count: usize = bus.slot_count();
    let ghost p = hangs_on(hub);
    let mut index: usize = from;
    while index < count
        invariant
            bus.wf(),
            count == bus.usable_slots(),
            p == hangs_on(hub),
            first_between(bus.devices@, from as int, count as int, p) == first_between(
                bus.devices@,
                index as int,
                count as int,
                p,
            ),
        decreases count - index,
    {
        if let Some(child) = &bus.devices[index] {
            if child.parent_addr == hub {
                return Some(index as u8);
            }
        }
        index = index + 1;
    }
    None
}

/// Takes one step of removing a device.
pub fn usb_remove_device(bus: &mut UsbBus, run: RemoveDevice, reply: Reply) -> (step: Step)
    requires
        old(bus).wf(),
    ensures
        run.goes_on(*old(bus), reply, *final(bus), step),
        final(bus).wf(),
{
    let address: u8 = match bus.get_device(run.device) {
        Some(d) => d.address,
        None => return Step::Done(Reply::Status(Status::InvalidParameter)),
    };
    let status = reply.status();
    let mut result = run.result;
    let mut child_failed = false;
    let from: usize = match run.at {
        RemoveDeviceAt::Config => {
            if status.is_error() {
                if let Some(d) = &mut bus.devices[run.device as usize] {
                    d.disconnect_fail = true;
                }
                return Step::Done(Reply::Status(status));
            }
            if run.device as usize >= bus.slot_count() {
                return Step::Done(Reply::Status(Status::InvalidParameter));
            }
            bus.devices[run.device as usize] = None;
            return Step::Done(Reply::Status(status));
        },
        RemoveDeviceAt::Start => 1,
        RemoveDeviceAt::Child => {
            if status.is_error() {
                child_failed = true;
                result = status;
            }
            run.child as usize + 1
        },
    };
    let found = find_child_of(bus, address, from);
    if child_failed && bus.get_device(run.child).is_some() {
        if let Some(c) = &mut bus.devices[run.child as usize] {
            c.disconnect_fail = true;
        }
    }
    match found {
        Some(child) => Step::Call {
            callee: Frame::RemoveDevice(RemoveDevice::new(child)),
            next: Frame::RemoveDevice(
                RemoveDevice { device: run.device, child, result, at: RemoveDeviceAt::Child },
            ),
        },
        None => {
            if result.is_error() {
                return Step::Done(Reply::Status(result));
            }
            if let Some(d) = &mut bus.devices[run.device as usize] {
                d.connected = false;
            }
            Step::Call {
                callee: Frame::RemoveConfig(RemoveConfig::new(run.device)),
                next: Frame::RemoveDevice(RemoveDevice { result, at: RemoveDeviceAt::Config, ..run }),
            }
        },
    }
}

/// What the state of its port says of a new device: speed and packet size.
pub open spec fn port_speed(port_status: u16) -> (u8, u32) {
    if port_status & USB_PORT_STAT_SUPER_SPEED != 0 {
        (EFI_USB_SPEED_SUPER, 512)
    } else if port_status & USB_PORT_STAT_HIGH_SPEED != 0 {
        (EFI_USB_SPEED_HIGH, 64)
    } else if port_status & USB_PORT_STAT_LOW_SPEED != 0 {
        (EFI_USB_SPEED_LOW, 8)
    } else {
        (EFI_USB_SPEED_FULL, 8)
    }
}

fn find_port_speed(port_status: u16) -> (r: (u8, u32))
    ensures
        r == port_speed(port_status),
{
    if port_status & USB_PORT_STAT_SUPER_SPEED != 0 {
        (EFI_USB_SPEED_SUPER, 512)
    } else if port_status & USB_PORT_STAT_HIGH_SPEED != 0 {
        (EFI_USB_SPEED_HIGH, 64)
    } else if port_status & USB_PORT_STAT_LOW_SPEED != 0 {
        (EFI_USB_SPEED_LOW, 8)
    } else {
        (EFI_USB_SPEED_FULL, 8)
    }
}

/// The transaction translator of a new device: a slow device behind a high-speed hub
/// is served by that hub, any other as its hub is.
pub open spec fn child_translator(parent: UsbDevice, port: u8, speed: u8) -> Usb2HcTransactionTranslator {
    if (speed == EFI_USB_SPEED_LOW || speed == EFI_USB_SPEED_FULL) && parent.speed == EFI_USB_SPEED_HIGH {
        Usb2HcTransactionTranslator {
            translator_hub_address: parent.address,
            translator_port_number: if port < 255 {
                (port + 1) as u8
            } else {
                0
            },
        }
    } else {
        parent.translator
    }
}

fn find_child_translator(parent: &UsbDevice, port: u8, speed: u8) -> (r: Usb2HcTransactionTranslator)
    ensures
        r == child_translator(*parent, port, speed),
{
    if (speed == EFI_USB_SPEED_LOW || speed == EFI_USB_SPEED_FULL) && parent.speed == EFI_USB_SPEED_HIGH {
        Usb2HcTransactionTranslator {
            translator_hub_address: parent.address,
            translator_port_number: if port < 255 {
                port + 1
            } else {
                0
            },
        }
    } else {
        parent.translator
    }
}

/// A slot is free.
pub open spec fn is_free() -> spec_fn(Option<UsbDevice>) -> bool {
    |slot: Option<UsbDevice>| slot is None
}

/// The lowest address that no device has.
pub open spec fn free_address(bus: UsbBus) -> Option<int> {
    first_between(bus.devices@, 1, bus.usable_slots(), is_free())
}

fn find_free_address(bus: &UsbBus) -> (r: Option<u8>)
    requires
        bus.wf(),
    ensures
        match r {
            Some(address) => free_address(*bus) == Some(address as int),
            None => free_address(*bus) is None,
        },
{
    let count: usize = bus.slot_count();
    let ghost p = is_free();
    let mut index: usize = 1;
    while index < count
        invariant
            bus.wf(),
            count == bus.usable_slots(),
            p == is_free(),
            first_between(bus.devices@, 1, count as int, p) == first_between(
                bus.devices@,
                index as int,
                count as int,
                p,
            ),
        decreases count - index,
    {
        if bus.devices[index].is_none() {
            return Some(index as u8);
        }
        index = index + 1;
    }
    None
}

/// The address of a new device is free, and every lower one is taken; without a free
/// address all are taken.
pub proof fn a_new_address_is_the_lowest_free_one(bus: UsbBus)
    requires
        bus.wf(),
    ensures
        match free_address(bus) {
            Some(address) => {
                &&& 1 <= address < bus.usable_slots()
                &&& bus.devices@[address] is None
                &&& forall|a: int| 1 <= a < address ==> #[trigger] bus.devices@[a] is Some
            },
            None => forall|a: int| 1 <= a < bus.usable_slots() ==> #[trigger] bus.devices@[a] is Some,
        },
{
    first_between_is_first(bus.devices@, 1, bus.usable_slots(), is_free());
}

/// Gives a device that has just been connected to a port an address, reads its
/// descriptors and configures it.
#[derive(Clone, Copy, Debug)]
pub struct EnumerateNewDevice {
    pub hub: InterfaceId,
    pub port: u8,
    pub at: EnumerateNewDeviceAt,
}

#[derive(Clone, Copy, Debug)]
pub enum EnumerateNewDeviceAt {
    Start { reset: bool },
    Stable { api: UsbHubApi, reset: bool },
    Reset { api: UsbHubApi },
    Port,
    Addressed { address: u8, speed: u8, max_packet0: u32, translator: Usb2HcTransactionTranslator },
    Settled { address: u8 },
    Sized { address: u8 },
    Built { address: u8 },
    Configured { address: u8, value: u8 },
    Selected,
    Reported,
}

impl EnumerateNewDevice {
    pub open spec fn start(hub: InterfaceId, port: u8, reset: bool) -> EnumerateNewDevice {
        EnumerateNewDevice { hub, port, at: EnumerateNewDeviceAt::Start { reset } }
    }

    pub fn new(hub: InterfaceId, port: u8, reset: bool) -> (r: EnumerateNewDevice)
        ensures
            r == EnumerateNewDevice::start(hub, port, reset),
    {
        EnumerateNewDevice { hub, port, at: EnumerateNewDeviceAt::Start { reset } }
    }

    pub open spec fn to(self, at: EnumerateNewDeviceAt) -> Frame {
        Frame::EnumerateNewDevice(EnumerateNewDevice { at, ..self })
    }

    /// Looks at the port once it is ready for use.
    pub open spec fn looks(self, bus: UsbBus, api: UsbHubApi) -> Step {
        port_look(bus, api, self.hub, self.port, self.to(EnumerateNewDeviceAt::Port))
    }

    /// Gives the device behind the port an address.
    pub open spec fn addresses(self, bus: UsbBus, parent: UsbDevice, port_status: u16) -> Step {
        let (speed, max_packet0) = port_speed(port_status);
        let translator = child_translator(parent, self.port, speed);
        if port_status & USB_PORT_STAT_CONNECTION == 0 {
            Step::Done(Reply::Status(Status::NotFound))
        } else {
            match free_address(bus) {
                Some(address) => Step::Act {
                    action: Action::ControlTransfer(
                        set_address_request(
                            UsbDevice { address: 0, speed, max_packet0, translator, ..parent },
                            address as u8,
                        ),
                    ),
                    next: self.to(
                        EnumerateNewDeviceAt::Addressed {
                            address: address as u8,
                            speed,
                            max_packet0,
                            translator,
                        },
                    ),
                },
                None => Step::Done(Reply::Status(Status::AccessDenied)),
            }
        }
    }

    /// How the operation goes on after `reply`. The device gets its slot as soon as it
    /// has been told its address, whatever it answered.
    pub open spec fn goes_on(self, pre: UsbBus, reply: Reply, post: UsbBus, step: Step) -> bool {
        let status = reply.as_status();
        let failed = Step::Done(Reply::Status(status));
        let invalid = Step::Done(Reply::Status(Status::InvalidParameter));
        match self.at {
            EnumerateNewDeviceAt::Start { reset } => post == pre && step == (match pre.interface(self.hub) {
                Some(hub) => match hub.hub_api {
                    Some(api) => Step::Act {
                        action: Action::Stall { micros: USB_WAIT_PORT_STABLE_STALL },
                        next: self.to(EnumerateNewDeviceAt::Stable { api, reset }),
                    },
                    None => invalid,
                },
                None => invalid,
            }),
            EnumerateNewDeviceAt::Stable { api, reset } => post == pre && step == (if reset {
                Step::Call {
                    callee: port_reset(api, self.hub, self.port),
                    next: self.to(EnumerateNewDeviceAt::Reset { api }),
                }
            } else {
                self.looks(pre, api)
            }),
            EnumerateNewDeviceAt::Reset { api } => post == pre && step == (if status.fails() {
                failed
            } else {
                self.looks(pre, api)
            }),
            EnumerateNewDeviceAt::Port => post == pre && step == (match pre.device(self.hub.device) {
                Some(parent) => if status.fails() {
                    failed
                } else {
                    self.addresses(pre, parent, reply.as_port().port_status)
                },
                None => invalid,
            }),
            EnumerateNewDeviceAt::Addressed { address, speed, max_packet0, translator } => match pre.device(
                self.hub.device,
            ) {
                Some(parent) => {
                    &&& exists|child: UsbDevice|
                        #![trigger is_new_device(child, parent, self.hub, self.port)]
                        is_new_device(child, parent, self.hub, self.port) && pre.with_device(
                            address,
                            Some(UsbDevice { address, speed, max_packet0, translator, ..child }),
                            post,
                        )
                    &&& step == (if status.fails() {
                        failed
                    } else {
                        Step::Act {
                            action: Action::Stall { micros: USB_SET_DEVICE_ADDRESS_STALL },
                            next: self.to(EnumerateNewDeviceAt::Settled { address }),
                        }
                    })
                },
                None => post == pre && step == invalid,
            },
            EnumerateNewDeviceAt::Settled { address } => post == pre && step == (Step::Call {
                callee: Frame::GetMaxPacketSize0(GetMaxPacketSize0::start(address)),
                next: self.to(EnumerateNewDeviceAt::Sized { address }),
            }),
            EnumerateNewDeviceAt::Sized { address } => post == pre && if status.fails() {
                step == failed
            } else {
                &&& step matches Step::Call { callee: Frame::BuildDescTable(callee), next }
                &&& callee.is_start(address)
                &&& next == self.to(EnumerateNewDeviceAt::Built { address })
            },
            EnumerateNewDeviceAt::Built { address } => post == pre && step == (if status.fails() {
                failed
            } else {
                match pre.device(address) {
                    Some(d) => match first_config_value(d) {
                        Some(value) => Step::Act {
                            action: Action::ControlTransfer(set_config_request(d, value)),
                            next: self.to(EnumerateNewDeviceAt::Configured { address, value }),
                        },
                        None => Step::Done(Reply::Status(Status::DeviceError)),
                    },
                    None => Step::Done(Reply::Status(Status::DeviceError)),
                }
            }),
            EnumerateNewDeviceAt::Configured { address, value } => post == pre && step == (
            if status.fails() {
                failed
            } else {
                Step::Call {
                    callee: Frame::SelectConfig(SelectConfig::start(address, value)),
                    next: self.to(EnumerateNewDeviceAt::Selected),
                }
            }),
            EnumerateNewDeviceAt::Selected => post == pre && step == (if status.fails() {
                failed
            } else {
                Step::Act {
                    action: Action::ReportProgress(Progress::Hotplug),
                    next: self.to(EnumerateNewDeviceAt::Reported),
                }
            }),
            EnumerateNewDeviceAt::Reported => post == pre && step == Step::Done(
                Reply::Status(Status::Success),
            ),
        }
    }

    fn look(self, bus: &UsbBus, api: UsbHubApi) -> (step: Step)
        requires
            bus.wf(),
        ensures
            step == self.looks(*bus, api),
    {
        look_at_port(
            bus,
            api,
            self.hub,
            self.port,
            Frame::EnumerateNewDevice(EnumerateNewDevice { at: EnumerateNewDeviceAt::Port, ..self }),
        )
    }

    fn address_child(self, bus: &UsbBus, parent: &UsbDevice, port_status: u16) -> (step: Step)
        requires
            bus.wf(),
        ensures
            step == self.addresses(*bus, *parent, port_status),
    {
        if port_status & USB_PORT_STAT_CONNECTION == 0 {
            return Step::Done(Reply::Status(Status::NotFound));
        }
        let address: u8 = match find_free_address(bus) {
            Some(address) => address,
            None => return Step::Done(Reply::Status(Status::AccessDenied)),
        };
        let (speed, max_packet0): (u8, u32) = find_port_speed(port_status);
        let translator = find_child_translator(parent, self.port, speed);
        let mut child = usb_create_device(parent, self.hub, self.port);
        child.speed = speed;
        child.max_packet0 = max_packet0;
        child.translator = translator;
        Step::Act {
            action: Action::ControlTransfer(usb_set_address(&child, address)),
            next: Frame::EnumerateNewDevice(
                EnumerateNewDevice {
                    at: EnumerateNewDeviceAt::Addressed { address, speed, max_packet0, translator },
                    ..self
                },
            ),
        }
    }
}

/// Takes one step of enumerating a new device.
pub fn usb_enumerate_new_device(bus: &mut UsbBus, run: EnumerateNewDevice, reply: Reply) -> (step: Step)
    requires
        old(bus).wf(),
    ensures
        run.goes_on(*old(bus), reply, *final(bus), step),
        final(bus).wf(),
{
    let status = reply.status();
    match run.at {
        EnumerateNewDeviceAt::Start { reset } => match bus.get_interface(run.hub) {
            Some(hub) => match hub.hub_api {
                Some(api) => Step::Act {
                    action: Action::Stall { micros: USB_WAIT_PORT_STABLE_STALL },
                    next: Frame::EnumerateNewDevice(
                        EnumerateNewDevice { at: EnumerateNewDeviceAt::Stable { api, reset }, ..run },
                    ),
                },
                None => Step::Done(Reply::Status(Status::InvalidParameter)),
            },
            None => Step::Done(Reply::Status(Status::InvalidParameter)),
        },
        EnumerateNewDeviceAt::Stable { api, reset } => {
            if reset {
                return Step::Call {
                    callee: reset_port(api, run.hub, run.port),
                    next: Frame::EnumerateNewDevice(
                        EnumerateNewDevice { at: EnumerateNewDeviceAt::Reset { api }, ..run },
                    ),
                };
            }
            run.look(bus, api)
        },
        EnumerateNewDeviceAt::Reset { api } => {
            if status.is_error() {
                return Step::Done(Reply::Status(status));
            }
            run.look(bus, api)
        },
        EnumerateNewDeviceAt::Port => match bus.get_device(run.hub.device) {
            Some(parent) => {
                if status.is_error() {
                    return Step::Done(Reply::Status(status));
                }
                run.address_child(bus, parent, reply.into_port().port_status)
            },
            None => Step::Done(Reply::Status(Status::InvalidParameter)),
        },
        EnumerateNewDeviceAt::Addressed { address, speed, max_packet0, translator } => {
            let mut child = match bus.get_device(run.hub.device) {
                Some(parent) => usb_create_device(parent, run.hub, run.port),
                None => return Step::Done(Reply::Status(Status::InvalidParameter)),
            };
            let ghost fresh = child;
            child.address = address;
            child.speed = speed;
            child.max_packet0 = max_packet0;
            child.translator = translator;
            bus.devices[address as usize] = Some(child);
            assert(is_new_device(fresh, old(bus).device(run.hub.device)->0, run.hub, run.port));
            if status.is_error() {
                return Step::Done(Reply::Status(status));
            }
            Step::Act {
                action: Action::Stall { micros: USB_SET_DEVICE_ADDRESS_STALL },
                next: Frame::EnumerateNewDevice(
                    EnumerateNewDevice { at: EnumerateNewDeviceAt::Settled { address }, ..run },
                ),
            }
        },
        EnumerateNewDeviceAt::Settled { address } => Step::Call {
            callee: Frame::GetMaxPacketSize0(GetMaxPacketSize0::new(address)),
            next: Frame::EnumerateNewDevice(
                EnumerateNewDevice { at: EnumerateNewDeviceAt::Sized { address }, ..run },
            ),
        },
        EnumerateNewDeviceAt::Sized { address } => {
            if status.is_error() {
                return Step::Done(Reply::Status(status));
            }
            Step::Call {
                callee: Frame::BuildDescTable(BuildDescTable::new(address)),
                next: Frame::EnumerateNewDevice(
                    EnumerateNewDevice { at: EnumerateNewDeviceAt::Built { address }, ..run },
                ),
            }
        },
        EnumerateNewDeviceAt::Built { address } => {
            if status.is_error() {
                return Step::Done(Reply::Status(status));
            }
            let d = match bus.get_device(address) {
                Some(d) => d,
                None => return Step::Done(Reply::Status(Status::DeviceError)),
            };
            match find_first_config(d) {
                Some(value) => Step::Act {
                    action: Action::ControlTransfer(usb_set_config(d, value)),
                    next: Frame::EnumerateNewDevice(
                        EnumerateNewDevice {
                            at: EnumerateNewDeviceAt::Configured { address, value },
                            ..run
                        },
                    ),
                },
                None => Step::Done(Reply::Status(Status::DeviceError)),
            }
        },
        EnumerateNewDeviceAt::Configured { address, value } => {
            if status.is_error() {
                return Step::Done(Reply::Status(status));
            }
            Step::Call {
                callee: Frame::SelectConfig(SelectConfig::new(address, value)),
                next: Frame::EnumerateNewDevice(
                    EnumerateNewDevice { at: EnumerateNewDeviceAt::Selected, ..run },
                ),
            }
        },
        EnumerateNewDeviceAt::Selected => {
            if status.is_error() {
                return Step::Done(Reply::Status(status));
            }
            Step::Act {
                action: Action::ReportProgress(Progress::Hotplug),
                next: Frame::EnumerateNewDevice(
                    EnumerateNewDevice { at: EnumerateNewDeviceAt::Reported, ..run },
                ),
            }
        },
        EnumerateNewDeviceAt::Reported => Step::Done(Reply::Status(Status::Success)),
    }
}

/// Deals with the changes of a port: the device that was there goes, and one that is
/// there now is enumerated.
#[derive(Clone, Copy, Debug)]
pub struct EnumeratePort {
    pub hub: InterfaceId,
    pub port: u8,
    pub at: EnumeratePortAt,
}

#[derive(Clone, Copy, Debug)]
pub enum EnumeratePortAt {
    Start,
    Status { api: UsbHubApi },
    Removed { api: UsbHubApi, status: Status, state: UsbPortStatus },
    Enumerated { api: UsbHubApi },
    Cleared { status: Status },
}

/// The changes of a port that are dealt with.
pub const HANDLED_PORT_CHANGES: u16 = 0x001b;

/// A port reports that it is overloaded.
pub open spec fn is_overloaded(state: UsbPortStatus) -> bool {
    state.port_change_status & USB_PORT_STAT_C_OVERCURRENT != 0 && state.port_status
        & USB_PORT_STAT_OVERCURRENT != 0
}

impl EnumeratePort {
    pub open spec fn start(hub: InterfaceId, port: u8) -> EnumeratePort {
        EnumeratePort { hub, port, at: EnumeratePortAt::Start }
    }

    pub fn new(hub: InterfaceId, port: u8) -> (r: EnumeratePort)
        ensures
            r == EnumeratePort::start(hub, port),
    {
        EnumeratePort { hub, port, at: EnumeratePortAt::Start }
    }

    pub open spec fn to(self, at: EnumeratePortAt) -> Frame {
        Frame::EnumeratePort(EnumeratePort { at, ..self })
    }

    /// Clears the changes of the port and ends with `status`.
    pub open spec fn clears(self, api: UsbHubApi, status: Status) -> Step {
        Step::Call {
            callee: ClearPortChange::start(self.hub, self.port).of(api),
            next: self.to(EnumeratePortAt::Cleared { status }),
        }
    }

    /// Enumerates the device that is there now, if any. A port that has just been
    /// reset need not be reset again.
    pub open spec fn enumerates(self, api: UsbHubApi, status: Status, state: UsbPortStatus) -> Step {
        if state.port_status & USB_PORT_STAT_CONNECTION != 0 {
            Step::Call {
                callee: Frame::EnumerateNewDevice(
                    EnumerateNewDevice::start(
                        self.hub,
                        self.port,
                        state.port_change_status & USB_PORT_STAT_C_RESET == 0 || status
                            == Status::DeviceError,
                    ),
                ),
                next: self.to(EnumeratePortAt::Enumerated { api }),
            }
        } else {
            self.clears(api, status)
        }
    }

    /// How the operation goes on after `reply`.
    pub open spec fn next(self, bus: UsbBus, reply: Reply) -> Step {
        let status = reply.as_status();
        let state = reply.as_port();
        let invalid = Step::Done(Reply::Status(Status::InvalidParameter));
        match self.at {
            EnumeratePortAt::Start => match bus.interface(self.hub) {
                Some(hub) => match hub.hub_api {
                    Some(api) => port_look(
                        bus,
                        api,
                        self.hub,
                        self.port,
                        self.to(EnumeratePortAt::Status { api }),
                    ),
                    None => invalid,
                },
                None => invalid,
            },
            EnumeratePortAt::Status { api } => if status.fails() && status != Status::DeviceError {
                Step::Done(Reply::Status(status))
            } else if state.port_change_status & HANDLED_PORT_CHANGES == 0 {
                Step::Done(Reply::Status(Status::Success))
            } else if is_overloaded(state) {
                Step::Done(Reply::Status(Status::DeviceError))
            } else {
                match child_behind(bus, self.hub.device, self.port) {
                    Some(child) => Step::Call {
                        callee: Frame::RemoveDevice(RemoveDevice::start(child as u8)),
                        next: self.to(EnumeratePortAt::Removed { api, status, state }),
                    },
                    None => self.enumerates(api, status, state),
                }
            },
            EnumeratePortAt::Removed { api, status, state } => self.enumerates(api, status, state),
            EnumeratePortAt::Enumerated { api } => self.clears(api, status),
            EnumeratePortAt::Cleared { status } => Step::Done(Reply::Status(status)),
        }
    }

    fn clear(self, api: UsbHubApi, status: Status) -> (step: Step)
        ensures
            step == self.clears(api, status),
    {
        Step::Call {
            callee: ClearPortChange::new(self.hub, self.port).frame(api),
            next: Frame::EnumeratePort(EnumeratePort { at: EnumeratePortAt::Cleared { status }, ..self }),
        }
    }

    fn enumerate(self, api: UsbHubApi, status: Status, state: UsbPortStatus) -> (step: Step)
        ensures
            step == self.enumerates(api, status, state),
    {
        if state.port_status & USB_PORT_STAT_CONNECTION != 0 {
            let reset = state.port_change_status & USB_PORT_STAT_C_RESET == 0 || status
                == Status::DeviceError;
            return Step::Call {
                callee: Frame::EnumerateNewDevice(EnumerateNewDevice::new(self.hub, self.port, reset)),
                next: Frame::EnumeratePort(
                    EnumeratePort { at: EnumeratePortAt::Enumerated { api }, ..self },
                ),
            };
        }
        self.clear(api, status)
    }
}

/// The changes that are dealt with are those of connection, enabling, over-current
/// and reset.
pub proof fn handled_changes_are_four()
    ensures
        HANDLED_PORT_CHANGES == USB_PORT_STAT_C_CONNECTION | USB_PORT_STAT_C_ENABLE
            | USB_PORT_STAT_C_OVERCURRENT | USB_PORT_STAT_C_RESET,
{
    assert(0x001bu16 == 0x0001u16 | 0x0002u16 | 0x0008u16 | 0x0010u16) by (bit_vector);
}

/// Takes one step of dealing with the changes of a port.
pub fn usb_enumerate_port(bus: &UsbBus, run: EnumeratePort, reply: Reply) -> (step: Step)
    requires
        bus.wf(),
    ensures
        step == run.next(*bus, reply),
{
    let status = reply.status();
    match run.at {
        EnumeratePortAt::Start => {
            let api = match bus.get_interface(run.hub) {
                Some(hub) => match hub.hub_api {
                    Some(api) => api,
                    None => return Step::Done(Reply::Status(Status::InvalidParameter)),
                },
                None => return Step::Done(Reply::Status(Status::InvalidParameter)),
            };
            look_at_port(
                bus,
                api,
                run.hub,
                run.port,
                Frame::EnumeratePort(EnumeratePort { at: EnumeratePortAt::Status { api }, ..run }),
            )
        },
        EnumeratePortAt::Status { api } => {
            if status.is_error() && status != Status::DeviceError {
                return Step::Done(Reply::Status(status));
            }
            let state = reply.into_port();
            if state.port_change_status & HANDLED_PORT_CHANGES == 0 {
                return Step::Done(Reply::Status(Status::Success));
            }
            if state.port_change_status & USB_PORT_STAT_C_OVERCURRENT != 0 && state.port_status
                & USB_PORT_STAT_OVERCURRENT != 0 {
                return Step::Done(Reply::Status(Status::DeviceError));
            }
            match usb_find_child(bus, run.hub.device, run.port) {
                Some(child) => Step::Call {
                    callee: Frame::RemoveDevice(RemoveDevice::new(child)),
                    next: Frame::EnumeratePort(
                        EnumeratePort { at: EnumeratePortAt::Removed { api, status, state }, ..run },
                    ),
                },
                None => run.enumerate(api, status, state),
            }
        },
        EnumeratePortAt::Removed { api, status, state } => run.enumerate(api, status, state),
        EnumeratePortAt::Enumerated { api } => run.clear(api, status),
        EnumeratePortAt::Cleared { status } => Step::Done(Reply::Status(status)),
    }
}

/// The device behind a port that could not be removed before.
pub open spec fn failed_child(bus: UsbBus, hub: u8, port: u8) -> Option<int> {
    match child_behind(bus, hub, port) {
        Some(child) => if bus.devices@[child] matches Some(c) && c.disconnect_fail {
            Some(child)
        } else {
            None
        },
        None => None,
    }
}

fn find_failed_child(bus: &UsbBus, hub: u8, port: u8) -> (r: Option<u8>)
    requires
        bus.wf(),
    ensures
        match r {
            Some(child) => failed_child(*bus, hub, port) == Some(child as int),
            None => failed_child(*bus, hub, port) is None,
        },
{
    match usb_find_child(bus, hub, port) {
        Some(child) => match bus.get_device(child) {
            Some(c) => if c.disconnect_fail {
                Some(child)
            } else {
                None
            },
            None => None,
        },
        None => None,
    }
}

/// The first port from `from` on, of those before `ports`, behind which a device
/// could not be removed before.
pub open spec fn next_failed_port(bus: UsbBus, hub: u8, ports: int, from: int) -> int
    decreases ports - from,
{
    if from >= ports || failed_child(bus, hub, from as u8) is Some {
        from
    } else {
        next_failed_port(bus, hub, ports, from + 1)
    }
}

/// A map of changes names a port. Bit 0 stands for the hub itself.
pub open spec fn port_changed(map: Seq<u8>, port: int) -> bool {
    &&& (port + 1) / 8 < map.len()
    &&& map[(port + 1) / 8] & (1u8 << ((port + 1) % 8)) != 0
}

/// The first port from `from` on, of those before `ports`, that a map of changes
/// names.
pub open spec fn next_changed_port(map: Seq<u8>, ports: int, from: int) -> int
    decreases ports - from,
{
    if from >= ports || port_changed(map, from) {
        from
    } else {
        next_changed_port(map, ports, from + 1)
    }
}

fn find_changed_port(map: &[u8], ports: u8, from: u8) -> (r: u8)
    ensures
        r == next_changed_port(map@, ports as int, from as int),
{
    let mut port: u8 = from;
    while port < ports
        invariant
            next_changed_port(map@, ports as int, from as int) == next_changed_port(
                map@,
                ports as int,
                port as int,
            ),
        decreases ports - port,
    {
        let bit: usize = port as usize + 1;
        if bit / 8 < map.len() && map[bit / 8] & (1u8 << (bit % 8)) != 0 {
            return port;
        }
        port = port + 1;
    }
    port
}

/// Deals with the changes that a hub reported: removes what could not be removed
/// before, and enumerates the ports that changed.
#[derive(Clone, Copy, Debug)]
pub struct HubEnumeration {
    pub interface: InterfaceId,
    pub port: u8,
    pub at: HubEnumerationAt,
}

#[derive(Clone, Copy, Debug)]
pub enum HubEnumerationAt {
    Start,
    Removed,
    Enumerated,
    Acknowledged,
}

impl HubEnumeration {
    pub open spec fn start(interface: InterfaceId) -> HubEnumeration {
        HubEnumeration { interface, port: 0, at: HubEnumerationAt::Start }
    }

    pub fn new(interface: InterfaceId) -> (r: HubEnumeration)
        ensures
            r == HubEnumeration::start(interface),
    {
        HubEnumeration { interface, port: 0, at: HubEnumerationAt::Start }
    }

    pub open spec fn to(self, port: int, at: HubEnumerationAt) -> Frame {
        Frame::HubEnumeration(HubEnumeration { port: port as u8, at, ..self })
    }

    /// Removes what could not be removed before, from a port on.
    pub open spec fn removes(self, bus: UsbBus, hub: UsbInterface, from: int) -> Step {
        let port = next_failed_port(bus, self.interface.device, hub.num_of_port as int, from);
        if port < hub.num_of_port {
            Step::Call {
                callee: Frame::RemoveDevice(
                    RemoveDevice::start(failed_child(bus, self.interface.device, port as u8)->0 as u8),
                ),
                next: self.to(port, HubEnumerationAt::Removed),
            }
        } else {
            self.enumerates(hub, 0)
        }
    }

    /// Enumerates the ports that changed, from a port on, and acknowledges the rest.
    pub open spec fn enumerates(self, hub: UsbInterface, from: int) -> Step {
        let port = next_changed_port(hub.change_map@, hub.num_of_port as int, from);
        if hub.change_map@.len() == 0 {
            Step::Done(Reply::Nothing)
        } else if port < hub.num_of_port {
            Step::Call {
                callee: Frame::EnumeratePort(EnumeratePort::start(self.interface, port as u8)),
                next: self.to(port, HubEnumerationAt::Enumerated),
            }
        } else {
            Step::Call {
                callee: Frame::HubAckHubStatus(HubAckHubStatus::start(self.interface.device)),
                next: self.to(0, HubEnumerationAt::Acknowledged),
            }
        }
    }

    /// How the operation goes on. In the end the map of changes is used up.
    pub open spec fn goes_on(self, pre: UsbBus, post: UsbBus, step: Step) -> bool {
        match pre.interface(self.interface) {
            None => post == pre && step == Step::Done(Reply::Nothing),
            Some(hub) => match self.at {
                HubEnumerationAt::Start => post == pre && step == self.removes(pre, hub, 0),
                HubEnumerationAt::Removed => post == pre && step == self.removes(
                    pre,
                    hub,
                    self.port + 1,
                ),
                HubEnumerationAt::Enumerated => post == pre && step == self.enumerates(
                    hub,
                    self.port + 1,
                ),
                HubEnumerationAt::Acknowledged => {
                    &&& step == Step::Done(Reply::Nothing)
                    &&& post.interface(self.interface) matches Some(j)
                    &&& j.change_map@.len() == 0
                    &&& pre.with_interface(
                        self.interface,
                        Some(UsbInterface { change_map: j.change_map, ..hub }),
                        post,
                    )
                },
            },
        }
    }

    fn remove(self, bus: &UsbBus, hub: &UsbInterface, from: u8) -> (step: Step)
        requires
            bus.wf(),
        ensures
            step == self.removes(*bus, *hub, from as int),
    {
        let mut port: u8 = from;
        while port < hub.num_of_port
            invariant
                bus.wf(),
                next_failed_port(*bus, self.interface.device, hub.num_of_port as int, from as int)
                    == next_failed_port(
                    *bus,
                    self.interface.device,
                    hub.num_of_port as int,
                    port as int,
                ),
            decreases hub.num_of_port - port,
        {
            if let Some(child) = find_failed_child(bus, self.interface.device, port) {
                return Step::Call {
                    callee: Frame::RemoveDevice(RemoveDevice::new(child)),
                    next: Frame::HubEnumeration(
                        HubEnumeration { port, at: HubEnumerationAt::Removed, ..self },
                    ),
                };
            }
            port = port + 1;
        }
        self.enumerate(hub, 0)
    }

    fn enumerate(self, hub: &UsbInterface, from: u8) -> (step: Step)
        ensures
            step == self.enumerates(*hub, from as int),
    {
        if hub.change_map.len() == 0 {
            return Step::Done(Reply::Nothing);
        }
        let port: u8 = find_changed_port(hub.change_map.as_slice(), hub.num_of_port, from);
        if port < hub.num_of_port {
            return Step::Call {
                callee: Frame::EnumeratePort(EnumeratePort::new(self.interface, port)),
                next: Frame::HubEnumeration(
                    HubEnumeration { port, at: HubEnumerationAt::Enumerated, ..self },
                ),
            };
        }
        Step::Call {
            callee: Frame::HubAckHubStatus(HubAckHubStatus::new(self.interface.device)),
            next: Frame::HubEnumeration(
                HubEnumeration { port: 0, at: HubEnumerationAt::Acknowledged, ..self },
            ),
        }
    }
}

/// Takes one step of dealing with the changes that a hub reported.
pub fn usb_hub_enumeration(bus: &mut UsbBus, run: HubEnumeration) -> (step: Step)
    requires
        old(bus).wf(),
    ensures
        run.goes_on(*old(bus), *final(bus), step),
        final(bus).wf(),
{
    let hub = match bus.get_interface(run.interface) {
        Some(hub) => hub,
        None => return Step::Done(Reply::Nothing),
    };
    match run.at {
        HubEnumerationAt::Start => run.remove(bus, hub, 0),
        HubEnumerationAt::Removed => {
            if run.port == 255 {
                return run.enumerate(hub, 0);
            }
            run.remove(bus, hub, run.port + 1)
        },
        HubEnumerationAt::Enumerated => {
            if run.port == 255 {
                return run.enumerate(hub, 255);
            }
            run.enumerate(hub, run.port + 1)
        },
        HubEnumerationAt::Acknowledged => {
            if let Some(device) = &mut bus.devices[run.interface.device as usize] {
                if let Some(interface) = &mut device.interfaces[run.interface.index as usize] {
                    interface.change_map = Vec::new();
                }
            }
            Step::Done(Reply::Nothing)
        },
    }
}

/// Looks at all ports of the root hub.
#[derive(Clone, Copy, Debug)]
pub struct RootHubEnumeration {
    pub interface: InterfaceId,
    pub port: u8,
    pub at: RootHubEnumerationAt,
}

#[derive(Clone, Copy, Debug)]
pub enum RootHubEnumerationAt {
    Start,
    Removed,
    Enumerated,
}

impl RootHubEnumeration {
    pub open spec fn start(interface: InterfaceId) -> RootHubEnumeration {
        RootHubEnumeration { interface, port: 0, at: RootHubEnumerationAt::Start }
    }

    pub fn new(interface: InterfaceId) -> (r: RootHubEnumeration)
        ensures
            r == RootHubEnumeration::start(interface),
    {
        RootHubEnumeration { interface, port: 0, at: RootHubEnumerationAt::Start }
    }

    /// Enumerates a port.
    pub open spec fn enumerates(self, port: int) -> Step {
        Step::Call {
            callee: Frame::EnumeratePort(EnumeratePort::start(self.interface, port as u8)),
            next: Frame::RootHubEnumeration(
                RootHubEnumeration {
                    port: port as u8,
                    at: RootHubEnumerationAt::Enumerated,
                    ..self
                },
            ),
        }
    }

    /// Turns to a port: removes what could not be removed before, then enumerates it.
    pub open spec fn turns_to(self, bus: UsbBus, hub: UsbInterface, port: int) -> Step {
        if port >= hub.num_of_port {
            Step::Done(Reply::Nothing)
        } else {
            match failed_child(bus, self.interface.device, port as u8) {
                Some(child) => Step::Call {
                    callee: Frame::RemoveDevice(RemoveDevice::start(child as u8)),
                    next: Frame::RootHubEnumeration(
                        RootHubEnumeration {
                            port: port as u8,
                            at: RootHubEnumerationAt::Removed,
                            ..self
                        },
                    ),
                },
                None => self.enumerates(port),
            }
        }
    }

    /// How the operation goes on. The rounds are counted, up to a limit.
    pub open spec fn goes_on(self, pre: UsbBus, post: UsbBus, step: Step) -> bool {
        match pre.interface(self.interface) {
            None => post == pre && step == Step::Done(Reply::Nothing),
            Some(hub) => match self.at {
                RootHubEnumerationAt::Start => {
                    &&& step == self.turns_to(pre, hub, 0)
                    &&& if hub.poll_count < USB_ENUM_POLL_MAXIMUM_ATTEMPTS {
                        pre.with_interface(
                            self.interface,
                            Some(UsbInterface { poll_count: (hub.poll_count + 1) as u8, ..hub }),
                            post,
                        )
                    } else {
                        post == pre
                    }
                },
                RootHubEnumerationAt::Removed => post == pre && step == self.enumerates(
                    self.port as int,
                ),
                RootHubEnumerationAt::Enumerated => post == pre && step == self.turns_to(
                    pre,
                    hub,
                    self.port + 1,
                ),
            },
        }
    }

    fn enumerate(self, port: u8) -> (step: Step)
        ensures
            step == self.enumerates(port as int),
    {
        Step::Call {
            callee: Frame::EnumeratePort(EnumeratePort::new(self.interface, port)),
            next: Frame::RootHubEnumeration(
                RootHubEnumeration { port, at: RootHubEnumerationAt::Enumerated, ..self },
            ),
        }
    }

    fn turn_to(self, bus: &UsbBus, hub: &UsbInterface, port: u8) -> (step: Step)
        requires
            bus.wf(),
        ensures
            step == self.turns_to(*bus, *hub, port as int),
    {
        if port >= hub.num_of_port {
            return Step::Done(Reply::Nothing);
        }
        match find_failed_child(bus, self.interface.device, port) {
            Some(child) => Step::Call {
                callee: Frame::RemoveDevice(RemoveDevice::new(child)),
                next: Frame::RootHubEnumeration(
                    RootHubEnumeration { port, at: RootHubEnumerationAt::Removed, ..self },
                ),
            },
            None => self.enumerate(port),
        }
    }
}

/// Takes one step of looking at the ports of the root hub.
pub fn usb_root_hub_enumeration(bus: &mut UsbBus, run: RootHubEnumeration) -> (step: Step)
    requires
        old(bus).wf(),
    ensures
        run.goes_on(*old(bus), *final(bus), step),
        final(bus).wf(),
{
    let hub = match bus.get_interface(run.interface) {
        Some(hub) => hub,
        None => return Step::Done(Reply::Nothing),
    };
    match run.at {
        RootHubEnumerationAt::Start => {
            let step = run.turn_to(bus, hub, 0);
            if hub.poll_count < USB_ENUM_POLL_MAXIMUM_ATTEMPTS {
                if let Some(device) = &mut bus.devices[run.interface.device as usize] {
                    if let Some(interface) = &mut device.interfaces[run.interface.index as usize] {
                        interface.poll_count = interface.poll_count + 1;
                    }
                }
            }
            step
        },
        RootHubEnumerationAt::Removed => run.enumerate(run.port),
        RootHubEnumerationAt::Enumerated => {
            if run.port == 255 {
                return Step::Done(Reply::Nothing);
            }
            run.turn_to(bus, hub, run.port + 1)
        },
    }
}

impl HubEnumeration {
    /// The ports that the operation enumerates from a port on until it is done, as
    /// long as the hub keeps its ports and its map of changes.
    pub open spec fn enumerates_all(self, hub: UsbInterface, from: int) -> Seq<int>
        decreases hub.num_of_port - from,
    {
        let port = next_changed_port(hub.change_map@, hub.num_of_port as int, from);
        if from < 0 || port < from || port >= hub.num_of_port || !(self.enumerates(hub, from) matches
            Step::Call { callee: Frame::EnumeratePort(_), .. }) {
            Seq::empty()
        } else {
            seq![port] + self.enumerates_all(hub, port + 1)
        }
    }
}

/// The next changed port is changed, and none before it is.
pub proof fn lemma_next_changed_port(map: Seq<u8>, ports: int, from: int)
    requires
        0 <= from,
    ensures
        from <= next_changed_port(map, ports, from),
        next_changed_port(map, ports, from) < ports ==> port_changed(
            map,
            next_changed_port(map, ports, from),
        ),
        forall|p: int|
            from <= p < next_changed_port(map, ports, from) && p < ports ==> !#[trigger] port_changed(map, p),
    decreases ports - from,
{
    if from < ports && !port_changed(map, from) {
        lemma_next_changed_port(map, ports, from + 1);
    }
}

/// Exactly the ports that the map of changes names are enumerated, each once and in
/// order.
pub proof fn exactly_the_changed_ports_are_enumerated(run: HubEnumeration, hub: UsbInterface, from: int)
    requires
        0 <= from,
    ensures
        forall|p: int| #[trigger]
            run.enumerates_all(hub, from).contains(p) <==> (from <= p < hub.num_of_port && port_changed(
                hub.change_map@,
                p,
            )),
        forall|j: int, k: int|
            0 <= j < k < run.enumerates_all(hub, from).len() ==> run.enumerates_all(hub, from)[j]
                < run.enumerates_all(hub, from)[k],
    decreases hub.num_of_port - from,
{
    let changes = hub.change_map@;
    let ports = hub.num_of_port as int;
    let port = next_changed_port(changes, ports, from);
    let all = run.enumerates_all(hub, from);
    let rest = run.enumerates_all(hub, port + 1);
    lemma_next_changed_port(changes, ports, from);
    if port < ports {
        exactly_the_changed_ports_are_enumerated(run, hub, port + 1);
        assert(port_changed(changes, port));
        assert(all == seq![port] + rest);
        assert(all[0] == port);
        assert forall|j: int| 0 <= j < rest.len() implies rest[j] > port by {
            assert(rest.contains(rest[j]));
            assert(port_changed(changes, rest[j]));
        }
    } else {
        assert(all =~= Seq::empty());
    }
    assert forall|p: int| #[trigger] all.contains(p) <==> (from <= p < ports && port_changed(changes, p)) by {
        if all.contains(p) {
            let k = choose|k: int| 0 <= k < all.len() && all[k] == p;
            if k > 0 {
                assert(rest[k - 1] == p);
                assert(rest.contains(p));
            }
        }
        if from <= p < ports && port_changed(changes, p) {
            assert(p >= port);
            if p > port {
                assert(rest.contains(p));
                let k = choose|k: int| 0 <= k < rest.len() && rest[k] == p;
                assert(all[k + 1] == p);
            }
        }
    }
}

/// A device whose removal ends without an error is not on the bus any more.
pub proof fn a_removed_device_is_gone(
    run: RemoveDevice,
    pre: UsbBus,
    reply: Reply,
    post: UsbBus,
    status: Status,
)
    requires
        pre.wf(),
        run.goes_on(pre, reply, post, Step::Done(Reply::Status(status))),
        !status.fails(),
    ensures
        post.device(run.device) is None,
        pre.with_device(run.device, None, post),
{
    named_statuses_are_errors(Status::InvalidParameter);
}

} // verus!
