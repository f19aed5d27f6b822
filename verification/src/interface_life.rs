//! The life of an interface: putting it on a handle, finding a driver for it, and
//! taking both away.

use crate::hub_life::{HubInit, HubRelease, RootHubRelease};
use crate::status::Status;
use crate::task::{Action, Frame, Reply, Step, Tpl, TPL_CALLBACK, TPL_HIGH_LEVEL, TPL_NOTIFY};
use crate::usb_bus_defs::{
    InterfaceId, UsbBus, UsbDevice, UsbHubApi, UsbInterface, USB_INTERFACE_SIGNATURE,
};
use crate::usb_desc::UsbInterfaceDesc;
use crate::usb_hub::{is_hub_interface, usb_is_hub_interface};
use crate::usb_utility::{
    child_path, close_host, open_host, path_end, usb_child_path, usb_close_host_proto_by_child,
    usb_free_device_path, usb_open_host_proto_by_child, device_path_temp_size,
};
use crate::usb_wanted::IsWanted;
use vstd::prelude::*;
use vstd::slice::slice_to_vec;

verus! {

/// Makes an interface: puts its device path and its USB I/O services on a new handle
/// and opens the host controller for it. What was done is undone where a later part
/// fails.
#[derive(Debug)]
pub struct CreateInterface {
    pub device: u8,
    pub index: u8,
    pub at: CreateInterfaceAt,
}

#[derive(Debug)]
pub enum CreateInterfaceAt {
    Start { desc: UsbInterfaceDesc },
    Path { interface: UsbInterface },
    UsbIo { interface: UsbInterface },
    Host { interface: UsbInterface },
    Undo { handle: usize },
    Undone,
}

/// An interface that has just been made, with the given settings and device path.
pub open spec fn is_fresh(interface: UsbInterface, desc: UsbInterfaceDesc, path: Seq<u8>) -> bool {
    &&& interface == (UsbInterface {
        signature: USB_INTERFACE_SIGNATURE,
        if_desc: Some(desc),
        handle: 0,
        device_path: interface.device_path,
        is_managed: false,
        is_hub: false,
        hub_api: None,
        num_of_port: 0,
        hub_notify: 0,
        hub_ep: None,
        hub_interrupt_context: false,
        change_map: interface.change_map,
        max_speed: 0,
        poll_count: 0,
    })
    &&& interface.device_path@ == path
    &&& interface.change_map@.len() == 0
}

/// The device path of a new interface: that of the hub that the device hangs on, and
/// a node for the port and the interface.
pub open spec fn new_interface_path(bus: UsbBus, device: UsbDevice, desc: UsbInterfaceDesc) -> Option<
    Seq<u8>,
> {
    match device.parent_if {
        Some(parent) => match bus.interface(parent) {
            Some(hub) => if desc.active_index < desc.settings@.len() {
                child_path(
                    hub.device_path@,
                    device.parent_port,
                    desc.settings@[desc.active_index as int].descriptor.interface_number,
                )
            } else {
                None
            },
            None => None,
        },
        None => None,
    }
}

impl CreateInterface {
    pub open spec fn to(self, at: CreateInterfaceAt) -> Frame {
        Frame::CreateInterface(CreateInterface { at, ..self })
    }

    /// How the operation goes on after `reply`.
    pub open spec fn goes_on(self, bus: UsbBus, reply: Reply, step: Step) -> bool {
        let nothing = Step::Done(Reply::Interface(None));
        let done = reply.as_status() == Status::Success;
        match self.at {
            CreateInterfaceAt::Start { desc } => match bus.device(self.device) {
                Some(device) => match new_interface_path(bus, device, desc) {
                    Some(path) => {
                        &&& step matches Step::Act {
                            action: Action::InstallDevicePath { path: p },
                            next: Frame::CreateInterface(next),
                        }
                        &&& p@ == path
                        &&& next.device == self.device
                        &&& next.index == self.index
                        &&& next.at matches CreateInterfaceAt::Path { interface }
                        &&& is_fresh(interface, desc, path)
                    },
                    None => step == nothing,
                },
                None => step == nothing,
            },
            CreateInterfaceAt::Path { interface } => step == (if !done {
                nothing
            } else {
                Step::Act {
                    action: Action::InstallUsbIo {
                        handle: reply.as_handle(),
                        interface: InterfaceId { device: self.device, index: self.index },
                    },
                    next: self.to(
                        CreateInterfaceAt::UsbIo {
                            interface: UsbInterface { handle: reply.as_handle(), ..interface },
                        },
                    ),
                }
            }),
            CreateInterfaceAt::UsbIo { interface } => step == (if !done {
                Step::Act {
                    action: Action::UninstallDevicePath { handle: interface.handle },
                    next: self.to(CreateInterfaceAt::Undone),
                }
            } else {
                match open_host(bus, interface.handle) {
                    Some(action) => Step::Act {
                        action,
                        next: self.to(CreateInterfaceAt::Host { interface }),
                    },
                    None => self.undoes(interface.handle),
                }
            }),
            CreateInterfaceAt::Host { interface } => step == (if done {
                Step::Done(Reply::Interface(Some(interface)))
            } else {
                self.undoes(interface.handle)
            }),
            CreateInterfaceAt::Undo { handle } => step == (if done {
                Step::Act {
                    action: Action::UninstallDevicePath { handle },
                    next: self.to(CreateInterfaceAt::Undone),
                }
            } else {
                nothing
            }),
            CreateInterfaceAt::Undone => step == nothing,
        }
    }

    /// Takes the USB I/O services off the handle again.
    pub open spec fn undoes(self, handle: usize) -> Step {
        Step::Act {
            action: Action::UninstallUsbIo { handle },
            next: self.to(CreateInterfaceAt::Undo { handle }),
        }
    }
}

/// Takes one step of making an interface.
pub fn usb_create_interface(bus: &UsbBus, run: CreateInterface, reply: Reply) -> (step: Step)
    requires
        bus.wf(),
    ensures
        run.goes_on(*bus, reply, step),
{
    let done = reply.status().is_success();
    let (device, index): (u8, u8) = (run.device, run.index);
    let handle: usize = match run.at {
        CreateInterfaceAt::Start { desc } => {
            let dev = match bus.get_device(device) {
                Some(dev) => dev,
                None => return Step::Done(Reply::Interface(None)),
            };
            if desc.active_index >= desc.settings.len() {
                return Step::Done(Reply::Interface(None));
            }
            let number: u8 = desc.settings[desc.active_index].descriptor.interface_number;
            let hub = match dev.parent_if {
                Some(parent) => match bus.get_interface(parent) {
                    Some(hub) => hub,
                    None => return Step::Done(Reply::Interface(None)),
                },
                None => return Step::Done(Reply::Interface(None)),
            };
            let path: Vec<u8> = match usb_child_path(
                hub.device_path.as_slice(),
                dev.parent_port,
                number,
            ) {
                Some(path) => path,
                None => return Step::Done(Reply::Interface(None)),
            };
            let interface = UsbInterface {
                signature: USB_INTERFACE_SIGNATURE,
                if_desc: Some(desc),
                handle: 0,
                device_path: slice_to_vec(path.as_slice()),
                is_managed: false,
                is_hub: false,
                hub_api: None,
                num_of_port: 0,
                hub_notify: 0,
                hub_ep: None,
                hub_interrupt_context: false,
                change_map: Vec::new(),
                max_speed: 0,
                poll_count: 0,
            };
            return Step::Act {
                action: Action::InstallDevicePath { path },
                next: Frame::CreateInterface(
                    CreateInterface { device, index, at: CreateInterfaceAt::Path { interface } },
                ),
            };
        },
        CreateInterfaceAt::Path { interface } => {
            if !done {
                return Step::Done(Reply::Interface(None));
            }
            let handle: usize = reply.handle();
            return Step::Act {
                action: Action::InstallUsbIo { handle, interface: InterfaceId { device, index } },
                next: Frame::CreateInterface(
                    CreateInterface {
                        device,
                        index,
                        at: CreateInterfaceAt::UsbIo { interface: UsbInterface { handle, ..interface } },
                    },
                ),
            };
        },
        CreateInterfaceAt::UsbIo { interface } => {
            if !done {
                return Step::Act {
                    action: Action::UninstallDevicePath { handle: interface.handle },
                    next: Frame::CreateInterface(
                        CreateInterface { device, index, at: CreateInterfaceAt::Undone },
                    ),
                };
            }
            if let Some(action) = usb_open_host_proto_by_child(bus, interface.handle) {
                return Step::Act {
                    action,
                    next: Frame::CreateInterface(
                        CreateInterface { device, index, at: CreateInterfaceAt::Host { interface } },
                    ),
                };
            }
            interface.handle
        },
        CreateInterfaceAt::Host { interface } => {
            if done {
                return Step::Done(Reply::Interface(Some(interface)));
            }
            interface.handle
        },
        CreateInterfaceAt::Undo { handle } => {
            if !done {
                return Step::Done(Reply::Interface(None));
            }
            return Step::Act {
                action: Action::UninstallDevicePath { handle },
                next: Frame::CreateInterface(
                    CreateInterface { device, index, at: CreateInterfaceAt::Undone },
                ),
            };
        },
        CreateInterfaceAt::Undone => return Step::Done(Reply::Interface(None)),
    };
    Step::Act {
        action: Action::UninstallUsbIo { handle },
        next: Frame::CreateInterface(
            CreateInterface { device, index, at: CreateInterfaceAt::Undo { handle } },
        ),
    }
}

/// Takes an interface off its handle. What was done is undone where a later part
/// fails.
#[derive(Clone, Copy, Debug)]
pub struct FreeInterface {
    pub interface: InterfaceId,
    pub at: FreeInterfaceAt,
}

#[derive(Clone, Copy, Debug)]
pub enum FreeInterfaceAt {
    Start,
    Closed,
    UsbIoGone,
    PathGone,
    Reinstalled { status: Status },
    Failed { status: Status },
}

impl FreeInterface {
    pub open spec fn start(interface: InterfaceId) -> FreeInterface {
        FreeInterface { interface, at: FreeInterfaceAt::Start }
    }

    pub fn new(interface: InterfaceId) -> (r: FreeInterface)
        ensures
            r == FreeInterface::start(interface),
    {
        FreeInterface { interface, at: FreeInterfaceAt::Start }
    }

    pub open spec fn to(self, at: FreeInterfaceAt) -> Frame {
        Frame::FreeInterface(FreeInterface { at, ..self })
    }

    /// Opens the host controller for the interface again and fails with `status`.
    pub open spec fn reopens(self, bus: UsbBus, handle: usize, status: Status) -> Step {
        match open_host(bus, handle) {
            Some(action) => Step::Act { action, next: self.to(FreeInterfaceAt::Failed { status }) },
            None => Step::Done(Reply::Status(status)),
        }
    }

    /// How the operation goes on after `reply`.
    pub open spec fn goes_on(self, pre: UsbBus, reply: Reply, post: UsbBus, step: Step) -> bool {
        let status = reply.as_status();
        let invalid = Step::Done(Reply::Status(Status::InvalidParameter));
        match pre.interface(self.interface) {
            None => post == pre && step == invalid,
            Some(interface) => {
                let handle = interface.handle;
                let uninstall = Step::Act {
                    action: Action::UninstallUsbIo { handle },
                    next: self.to(FreeInterfaceAt::UsbIoGone),
                };
                match self.at {
                    FreeInterfaceAt::Start => post == pre && step == (if handle == 0
                        || interface.device_path@.len() == 0 {
                        invalid
                    } else {
                        match close_host(pre, handle) {
                            Some(action) => Step::Act {
                                action,
                                next: self.to(FreeInterfaceAt::Closed),
                            },
                            None => uninstall,
                        }
                    }),
                    FreeInterfaceAt::Closed => post == pre && step == uninstall,
                    FreeInterfaceAt::UsbIoGone => post == pre && step == (if status
                        != Status::Success {
                        self.reopens(pre, handle, status)
                    } else {
                        Step::Act {
                            action: Action::UninstallDevicePath { handle },
                            next: self.to(FreeInterfaceAt::PathGone),
                        }
                    }),
                    FreeInterfaceAt::PathGone => if status != Status::Success {
                        post == pre && step == (Step::Act {
                            action: Action::InstallUsbIo { handle, interface: self.interface },
                            next: self.to(FreeInterfaceAt::Reinstalled { status }),
                        })
                    } else if path_end(interface.device_path@, 0) is None {
                        post == pre && step == invalid
                    } else {
                        &&& step == Step::Done(Reply::Status(Status::Success))
                        &&& post.interface(self.interface) matches Some(j)
                        &&& j.device_path@.len() == 0
                        &&& pre.with_interface(
                            self.interface,
                            Some(UsbInterface { device_path: j.device_path, ..interface }),
                            post,
                        )
                    },
                    FreeInterfaceAt::Reinstalled { status } => post == pre && step == self.reopens(
                        pre,
                        handle,
                        status,
                    ),
                    FreeInterfaceAt::Failed { status } => post == pre && step == Step::Done(
                        Reply::Status(status),
                    ),
                }
            },
        }
    }

    fn reopen(self, bus: &UsbBus, handle: usize, status: Status) -> (step: Step)
        ensures
            step == self.reopens(*bus, handle, status),
    {
        match usb_open_host_proto_by_child(bus, handle) {
            Some(action) => Step::Act {
                action,
                next: Frame::FreeInterface(
                    FreeInterface { at: FreeInterfaceAt::Failed { status }, ..self },
                ),
            },
            None => Step::Done(Reply::Status(status)),
        }
    }
}

/// Takes one step of taking an interface off its handle.
pub fn usb_free_interface(bus: &mut UsbBus, run: FreeInterface, reply: Reply) -> (step: Step)
    requires
        old(bus).wf(),
    ensures
        run.goes_on(*old(bus), reply, *final(bus), step),
        final(bus).wf(),
{
    let interface = match bus.get_interface(run.interface) {
        Some(interface) => interface,
        None => return Step::Done(Reply::Status(Status::InvalidParameter)),
    };
    let handle: usize = interface.handle;
    let status = reply.status();
    match run.at {
        FreeInterfaceAt::Start => {
            if handle == 0 || interface.device_path.len() == 0 {
                return Step::Done(Reply::Status(Status::InvalidParameter));
            }
            if let Some(action) = usb_close_host_proto_by_child(bus, handle) {
                return Step::Act {
                    action,
                    next: Frame::FreeInterface(FreeInterface { at: FreeInterfaceAt::Closed, ..run }),
                };
            }
        },
        FreeInterfaceAt::Closed => {},
        FreeInterfaceAt::UsbIoGone => {
            if !status.is_success() {
                return run.reopen(bus, handle, status);
            }
            return Step::Act {
                action: Action::UninstallDevicePath { handle },
                next: Frame::FreeInterface(FreeInterface { at: FreeInterfaceAt::PathGone, ..run }),
            };
        },
        FreeInterfaceAt::PathGone => {
            if !status.is_success() {
                return Step::Act {
                    action: Action::InstallUsbIo { handle, interface: run.interface },
                    next: Frame::FreeInterface(
                        FreeInterface { at: FreeInterfaceAt::Reinstalled { status }, ..run },
                    ),
                };
            }
            if device_path_temp_size(interface.device_path.as_slice()).is_none() {
                return Step::Done(Reply::Status(Status::InvalidParameter));
            }
            if let Some(device) = &mut bus.devices[run.interface.device as usize] {
                if let Some(interface) = &mut device.interfaces[run.interface.index as usize] {
                    let _ = usb_free_device_path(&mut interface.device_path);
                }
            }
            return Step::Done(Reply::Status(Status::Success));
        },
        FreeInterfaceAt::Reinstalled { status } => return run.reopen(bus, handle, status),
        FreeInterfaceAt::Failed { status } => return Step::Done(Reply::Status(status)),
    }
    Step::Act {
        action: Action::UninstallUsbIo { handle },
        next: Frame::FreeInterface(FreeInterface { at: FreeInterfaceAt::UsbIoGone, ..run }),
    }
}

/// The level to which the priority is raised again after a driver was connected or
/// disconnected, if it was above the callback level before.
pub open spec fn level_to_restore(level: usize) -> Option<Tpl> {
    if level <= TPL_CALLBACK {
        None
    } else if level == TPL_NOTIFY {
        Some(Tpl::Notify)
    } else if level == TPL_HIGH_LEVEL {
        Some(Tpl::HighLevel)
    } else {
        Some(Tpl::Callback)
    }
}

fn find_level_to_restore(level: usize) -> (r: Option<Tpl>)
    ensures
        r == level_to_restore(level),
{
    if level <= TPL_CALLBACK {
        None
    } else if level == TPL_NOTIFY {
        Some(Tpl::Notify)
    } else if level == TPL_HIGH_LEVEL {
        Some(Tpl::HighLevel)
    } else {
        Some(Tpl::Callback)
    }
}

/// Brings a hub up, or finds a driver for a wanted interface.
#[derive(Clone, Copy, Debug)]
pub struct ConnectDriver {
    pub interface: InterfaceId,
    pub at: ConnectDriverAt,
}

#[derive(Clone, Copy, Debug)]
pub enum ConnectDriverAt {
    Start,
    HubUp,
    Judged,
    Level,
    Lowered { level: usize },
    Connected { level: usize },
    Raised { status: Status },
}

impl ConnectDriver {
    pub open spec fn start(interface: InterfaceId) -> ConnectDriver {
        ConnectDriver { interface, at: ConnectDriverAt::Start }
    }

    pub fn new(interface: InterfaceId) -> (r: ConnectDriver)
        ensures
            r == ConnectDriver::start(interface),
    {
        ConnectDriver { interface, at: ConnectDriverAt::Start }
    }

    pub open spec fn to(self, at: ConnectDriverAt) -> Frame {
        Frame::ConnectDriver(ConnectDriver { at, ..self })
    }

    /// How the operation goes on after `reply`. A hub that came up answers to the
    /// port operations of hub devices.
    pub open spec fn goes_on(self, pre: UsbBus, reply: Reply, post: UsbBus, step: Step) -> bool {
        let status = reply.as_status();
        match pre.interface(self.interface) {
            None => post == pre && step == Step::Done(Reply::Status(Status::InvalidParameter)),
            Some(interface) => match self.at {
                ConnectDriverAt::Start => post == pre && step == (if is_hub_interface(interface) {
                    Step::Call {
                        callee: Frame::HubInit(HubInit::start(self.interface)),
                        next: self.to(ConnectDriverAt::HubUp),
                    }
                } else {
                    Step::Call {
                        callee: Frame::IsWanted(IsWanted::start(self.interface)),
                        next: self.to(ConnectDriverAt::Judged),
                    }
                }),
                ConnectDriverAt::HubUp => {
                    &&& step == Step::Done(Reply::Status(status))
                    &&& if status == Status::Success {
                        pre.with_interface(
                            self.interface,
                            Some(UsbInterface { hub_api: Some(UsbHubApi::Hub), ..interface }),
                            post,
                        )
                    } else {
                        post == pre
                    }
                },
                ConnectDriverAt::Judged => post == pre && step == (if !reply.as_verdict() {
                    Step::Done(Reply::Status(Status::Success))
                } else if interface.handle == 0 {
                    Step::Done(Reply::Status(Status::InvalidParameter))
                } else {
                    Step::Act { action: Action::GetCurrentTpl, next: self.to(ConnectDriverAt::Level) }
                }),
                ConnectDriverAt::Level => post == pre && step == (Step::Act {
                    action: Action::RestoreTpl { level: TPL_CALLBACK },
                    next: self.to(ConnectDriverAt::Lowered { level: reply.as_level() }),
                }),
                ConnectDriverAt::Lowered { level } => post == pre && step == (Step::Act {
                    action: Action::ConnectController { handle: interface.handle },
                    next: self.to(ConnectDriverAt::Connected { level }),
                }),
                ConnectDriverAt::Connected { level } => {
                    &&& pre.with_interface(
                        self.interface,
                        Some(UsbInterface { is_managed: status == Status::Success, ..interface }),
                        post,
                    )
                    &&& step == (match level_to_restore(level) {
                        Some(to) => Step::Act {
                            action: Action::RaiseTpl { to },
                            next: self.to(ConnectDriverAt::Raised { status }),
                        },
                        None => Step::Done(Reply::Status(status)),
                    })
                },
                ConnectDriverAt::Raised { status } => post == pre && step == Step::Done(
                    Reply::Status(status),
                ),
            },
        }
    }
}

/// Takes one step of bringing a hub up or finding a driver.
pub fn usb_connect_driver(bus: &mut UsbBus, run: ConnectDriver, reply: Reply) -> (step: Step)
    requires
        old(bus).wf(),
    ensures
        run.goes_on(*old(bus), reply, *final(bus), step),
        final(bus).wf(),
{
    let interface = match bus.get_interface(run.interface) {
        Some(interface) => interface,
        None => return Step::Done(Reply::Status(Status::InvalidParameter)),
    };
    let status = reply.status();
    match run.at {
        ConnectDriverAt::Start => if usb_is_hub_interface(interface) {
            Step::Call {
                callee: Frame::HubInit(HubInit::new(run.interface)),
                next: Frame::ConnectDriver(ConnectDriver { at: ConnectDriverAt::HubUp, ..run }),
            }
        } else {
            Step::Call {
                callee: Frame::IsWanted(IsWanted::new(run.interface)),
                next: Frame::ConnectDriver(ConnectDriver { at: ConnectDriverAt::Judged, ..run }),
            }
        },
        ConnectDriverAt::HubUp => {
            if status.is_success() {
                if let Some(device) = &mut bus.devices[run.interface.device as usize] {
                    if let Some(interface) = &mut device.interfaces[run.interface.index as usize] {
                        interface.hub_api = Some(UsbHubApi::Hub);
                    }
                }
            }
            Step::Done(Reply::Status(status))
        },
        ConnectDriverAt::Judged => {
            if !reply.verdict() {
                return Step::Done(Reply::Status(Status::Success));
            }
            if interface.handle == 0 {
                return Step::Done(Reply::Status(Status::InvalidParameter));
            }
            Step::Act {
                action: Action::GetCurrentTpl,
                next: Frame::ConnectDriver(ConnectDriver { at: ConnectDriverAt::Level, ..run }),
            }
        },
        ConnectDriverAt::Level => Step::Act {
            action: Action::RestoreTpl { level: TPL_CALLBACK },
            next: Frame::ConnectDriver(
                ConnectDriver { at: ConnectDriverAt::Lowered { level: reply.level() }, ..run },
            ),
        },
        ConnectDriverAt::Lowered { level } => Step::Act {
            action: Action::ConnectController { handle: interface.handle },
            next: Frame::ConnectDriver(
                ConnectDriver { at: ConnectDriverAt::Connected { level }, ..run },
            ),
        },
        ConnectDriverAt::Connected { level } => {
            if let Some(device) = &mut bus.devices[run.interface.device as usize] {
                if let Some(interface) = &mut device.interfaces[run.interface.index as usize] {
                    interface.is_managed = status.is_success();
                }
            }
            match find_level_to_restore(level) {
                Some(to) => Step::Act {
                    action: Action::RaiseTpl { to },
                    next: Frame::ConnectDriver(
                        ConnectDriver { at: ConnectDriverAt::Raised { status }, ..run },
                    ),
                },
                None => Step::Done(Reply::Status(status)),
            }
        },
        ConnectDriverAt::Raised { status } => Step::Done(Reply::Status(status)),
    }
}

/// Lets a hub go, or takes the driver off an interface.
#[derive(Clone, Copy, Debug)]
pub struct DisconnectDriver {
    pub interface: InterfaceId,
    pub at: DisconnectDriverAt,
}

#[derive(Clone, Copy, Debug)]
pub enum DisconnectDriverAt {
    Start,
    Released,
    Level,
    Lowered { level: usize },
    Disconnected { level: usize },
    Raised { status: Status },
}

impl DisconnectDriver {
    pub open spec fn start(interface: InterfaceId) -> DisconnectDriver {
        DisconnectDriver { interface, at: DisconnectDriverAt::Start }
    }

    pub fn new(interface: InterfaceId) -> (r: DisconnectDriver)
        ensures
            r == DisconnectDriver::start(interface),
    {
        DisconnectDriver { interface, at: DisconnectDriverAt::Start }
    }

    pub open spec fn to(self, at: DisconnectDriverAt) -> Frame {
        Frame::DisconnectDriver(DisconnectDriver { at, ..self })
    }

    /// Ends with `status`; the interface is not managed any more after a success.
    pub open spec fn ends(
        self,
        pre: UsbBus,
        interface: UsbInterface,
        status: Status,
        post: UsbBus,
        step: Step,
    ) -> bool {
        &&& step == Step::Done(Reply::Status(status))
        &&& if status == Status::Success {
            pre.with_interface(
                self.interface,
                Some(UsbInterface { is_managed: false, ..interface }),
                post,
            )
        } else {
            post == pre
        }
    }

    /// How the operation goes on after `reply`.
    pub open spec fn goes_on(self, pre: UsbBus, reply: Reply, post: UsbBus, step: Step) -> bool {
        let status = reply.as_status();
        let invalid = Step::Done(Reply::Status(Status::InvalidParameter));
        match pre.interface(self.interface) {
            None => post == pre && step == invalid,
            Some(interface) => match self.at {
                DisconnectDriverAt::Start => post == pre && step == (if interface.is_hub {
                    match interface.hub_api {
                        Some(UsbHubApi::Hub) => Step::Call {
                            callee: Frame::HubRelease(HubRelease::start(self.interface)),
                            next: self.to(DisconnectDriverAt::Released),
                        },
                        Some(UsbHubApi::RootHub) => Step::Call {
                            callee: Frame::RootHubRelease(RootHubRelease::start(self.interface)),
                            next: self.to(DisconnectDriverAt::Released),
                        },
                        None => invalid,
                    }
                } else if !interface.is_managed {
                    Step::Done(Reply::Status(Status::Success))
                } else if interface.handle == 0 {
                    invalid
                } else {
                    Step::Act {
                        action: Action::GetCurrentTpl,
                        next: self.to(DisconnectDriverAt::Level),
                    }
                }),
                DisconnectDriverAt::Released => post == pre && step == Step::Done(
                    Reply::Status(status),
                ),
                DisconnectDriverAt::Level => post == pre && step == (Step::Act {
                    action: Action::RestoreTpl { level: TPL_CALLBACK },
                    next: self.to(DisconnectDriverAt::Lowered { level: reply.as_level() }),
                }),
                DisconnectDriverAt::Lowered { level } => post == pre && step == (Step::Act {
                    action: Action::DisconnectController { handle: interface.handle },
                    next: self.to(DisconnectDriverAt::Disconnected { level }),
                }),
                DisconnectDriverAt::Disconnected { level } => match level_to_restore(level) {
                    Some(to) => post == pre && step == (Step::Act {
                        action: Action::RaiseTpl { to },
                        next: self.to(DisconnectDriverAt::Raised { status }),
                    }),
                    None => self.ends(pre, interface, status, post, step),
                },
                DisconnectDriverAt::Raised { status } => self.ends(pre, interface, status, post, step),
            },
        }
    }

    fn end(self, bus: &mut UsbBus, status: Status) -> (step: Step)
        requires
            old(bus).wf(),
            old(bus).interface(self.interface) is Some,
        ensures
            self.ends(*old(bus), old(bus).interface(self.interface)->0, status, *final(bus), step),
            final(bus).wf(),
    {
        if status.is_success() {
            if let Some(device) = &mut bus.devices[self.interface.device as usize] {
                if let Some(interface) = &mut device.interfaces[self.interface.index as usize] {
                    interface.is_managed = false;
                }
            }
        }
        Step::Done(Reply::Status(status))
    }
}

/// Takes one step of letting a hub go or taking a driver off.
pub fn usb_disconnect_driver(bus: &mut UsbBus, run: DisconnectDriver, reply: Reply) -> (step: Step)
    requires
        old(bus).wf(),
    ensures
        run.goes_on(*old(bus), reply, *final(bus), step),
        final(bus).wf(),
{
    let interface = match bus.get_interface(run.interface) {
        Some(interface) => interface,
        None => return Step::Done(Reply::Status(Status::InvalidParameter)),
    };
    let status = reply.status();
    match run.at {
        DisconnectDriverAt::Start => {
            if interface.is_hub {
                let callee = match interface.hub_api {
                    Some(UsbHubApi::Hub) => Frame::HubRelease(HubRelease::new(run.interface)),
                    Some(UsbHubApi::RootHub) => Frame::RootHubRelease(
                        RootHubRelease::new(run.interface),
                    ),
                    None => return Step::Done(Reply::Status(Status::InvalidParameter)),
                };
                return Step::Call {
                    callee,
                    next: Frame::DisconnectDriver(
                        DisconnectDriver { at: DisconnectDriverAt::Released, ..run },
                    ),
                };
            }
            if !interface.is_managed {
                return Step::Done(Reply::Status(Status::Success));
            }
            if interface.handle == 0 {
                return Step::Done(Reply::Status(Status::InvalidParameter));
            }
            Step::Act {
                action: Action::GetCurrentTpl,
                next: Frame::DisconnectDriver(DisconnectDriver { at: DisconnectDriverAt::Level, ..run }),
            }
        },
        DisconnectDriverAt::Released => Step::Done(Reply::Status(status)),
        DisconnectDriverAt::Level => Step::Act {
            action: Action::RestoreTpl { level: TPL_CALLBACK },
            next: Frame::DisconnectDriver(
                DisconnectDriver { at: DisconnectDriverAt::Lowered { level: reply.level() }, ..run },
            ),
        },
        DisconnectDriverAt::Lowered { level } => Step::Act {
            action: Action::DisconnectController { handle: interface.handle },
            next: Frame::DisconnectDriver(
                DisconnectDriver { at: DisconnectDriverAt::Disconnected { level }, ..run },
            ),
        },
        DisconnectDriverAt::Disconnected { level } => match find_level_to_restore(level) {
            Some(to) => Step::Act {
                action: Action::RaiseTpl { to },
                next: Frame::DisconnectDriver(
                    DisconnectDriver { at: DisconnectDriverAt::Raised { status }, ..run },
                ),
            },
            None => run.end(bus, status),
        },
        DisconnectDriverAt::Raised { status } => run.end(bus, status),
    }
}

/// An interface for which the host controller cannot be opened is taken off its
/// handle again: first its services, then its device path.
pub proof fn a_failed_interface_is_taken_back(
    run: CreateInterface,
    bus: UsbBus,
    interface: UsbInterface,
    refusal: Reply,
    first: Step,
    answer: Reply,
    second: Step,
    last: Reply,
    third: Step,
)
    requires
        run.at == (CreateInterfaceAt::Host { interface }),
        refusal.as_status() != Status::Success,
        run.goes_on(bus, refusal, first),
        answer.as_status() == Status::Success,
        first matches Step::Act { next: Frame::CreateInterface(undo), .. } && undo.goes_on(
            bus,
            answer,
            second,
        ),
        second matches Step::Act { next: Frame::CreateInterface(undone), .. } && undone.goes_on(
            bus,
            last,
            third,
        ),
    ensures
        first matches Step::Act { action, .. } && action == (Action::UninstallUsbIo {
            handle: interface.handle,
        }),
        second matches Step::Act { action, .. } && action == (Action::UninstallDevicePath {
            handle: interface.handle,
        }),
        third == Step::Done(Reply::Interface(None)),
{
}

impl Tpl {
    /// The number of a task priority level.
    pub open spec fn as_level(self) -> usize {
        match self {
            Tpl::Callback => TPL_CALLBACK,
            Tpl::Notify => TPL_NOTIFY,
            Tpl::HighLevel => TPL_HIGH_LEVEL,
        }
    }
}

/// Connecting a driver ends at the priority at which it began, for the levels above
/// the callback level; at or below that level the priority is not raised.
pub proof fn the_priority_is_restored(
    run: ConnectDriver,
    level: usize,
    pre: UsbBus,
    reply: Reply,
    post: UsbBus,
    step: Step,
)
    requires
        run.at == (ConnectDriverAt::Connected { level }),
        pre.interface(run.interface) is Some,
        run.goes_on(pre, reply, post, step),
        level <= TPL_CALLBACK || level == TPL_NOTIFY || level == TPL_HIGH_LEVEL,
    ensures
        if level <= TPL_CALLBACK {
            step == Step::Done(Reply::Status(reply.as_status()))
        } else {
            step matches Step::Act { action: Action::RaiseTpl { to }, .. } && to.as_level() == level
        },
{
}

} // verus!
