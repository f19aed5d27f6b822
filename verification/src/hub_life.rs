//! The life of a hub: bringing it up, listening to its interrupts, letting it go.

use crate::search::{first_index, lemma_first_index_found, lemma_first_index_none};
use crate::status::Status;
use crate::task::{Action, AsyncCallback, Frame, Reply, Step};
use crate::usb_2_host_controller::{UsbDataDirection, EFI_USB_SPEED_SUPER};
use crate::usb_bus_defs::{
    InterfaceId, UsbBus, UsbDevice, UsbHubApi, UsbInterface, USB_ENUM_POLL_MINIMUM_ATTEMPTS,
    USB_HUB_POLL_INTERVAL, USB_ROOTHUB_POLL_INTERVAL, USB_SET_PORT_POWER_STALL,
};
use crate::usb_control::{fill, filled};
use crate::usb_desc::{byte_at, byte_of, UsbEndpointDesc};
use crate::usb_hub::{
    get_hub_desc_request, hub_request, is_hub_interface, set_port_feature_request, usb_endpoint_type,
    usb_hub_ctrl_clear_hub_feature, usb_hub_ctrl_get_hub_desc, usb_hub_ctrl_get_hub_status,
    usb_hub_ctrl_set_hub_depth, usb_hub_ctrl_set_port_feature, usb_is_hub_interface,
    USB_ENDPOINT_INTERRUPT, USB_HUB_C_HUB_LOCAL_POWER, USB_HUB_C_HUB_OVER_CURRENT, USB_HUB_PORT_POWER,
    USB_HUB_PORT_REMOTE_WAKE_MASK, USB_HUB_REQ_CLEAR_FEATURE, USB_HUB_REQ_GET_STATUS,
    USB_HUB_REQ_SET_DEPTH, USB_HUB_STAT_C_LOCAL_POWER, USB_HUB_STAT_C_OVER_CURRENT, USB_HUB_TARGET_HUB,
};
use crate::usb_io_call::{IoCall, IoOperation};
use crate::usb_io_impl::{
    clear_feature, usb_io_clear_feature, IoAsyncInterruptTransfer, USB_IO_ERR_STALL, USB_IO_NOERROR,
};
use vstd::prelude::*;

verus! {

/// Reads a hub descriptor: first its length, then the whole of it.
#[derive(Clone, Copy, Debug)]
pub struct HubReadDesc {
    pub device: u8,
    pub at: HubReadDescAt,
}

#[derive(Clone, Copy, Debug)]
pub enum HubReadDescAt {
    Start,
    Header,
    Body { length: u8 },
}

impl HubReadDesc {
    pub open spec fn start(device: u8) -> HubReadDesc {
        HubReadDesc { device, at: HubReadDescAt::Start }
    }

    pub fn new(device: u8) -> (r: HubReadDesc)
        ensures
            r == HubReadDesc::start(device),
    {
        HubReadDesc { device, at: HubReadDescAt::Start }
    }

    /// How the operation goes on after `reply`.
    pub open spec fn goes_on(self, bus: UsbBus, reply: Reply, step: Step) -> bool {
        let nothing = Step::Done(Reply::Bytes(None));
        match bus.device(self.device) {
            None => step == nothing,
            Some(hub) => match self.at {
                HubReadDescAt::Start => step == (Step::Act {
                    action: Action::ControlTransfer(get_hub_desc_request(hub, 2)),
                    next: Frame::HubReadDesc(HubReadDesc { at: HubReadDescAt::Header, ..self }),
                }),
                HubReadDescAt::Header => {
                    let length = byte_of(reply.as_data(), 0);
                    step == (if reply.as_status() != Status::Success || length < 2 {
                        nothing
                    } else {
                        Step::Act {
                            action: Action::ControlTransfer(get_hub_desc_request(hub, length as usize)),
                            next: Frame::HubReadDesc(
                                HubReadDesc { at: HubReadDescAt::Body { length }, ..self },
                            ),
                        }
                    })
                },
                HubReadDescAt::Body { length } => if reply.as_status() != Status::Success {
                    step == nothing
                } else {
                    step matches Step::Done(answer) && answer.as_bytes() == Some(
                        filled(reply.as_data(), length as int),
                    )
                },
            },
        }
    }
}

/// Takes one step of reading a hub descriptor.
pub fn usb_hub_read_desc(bus: &UsbBus, run: HubReadDesc, reply: Reply) -> (step: Step)
    requires
        bus.wf(),
    ensures
        run.goes_on(*bus, reply, step),
{
    let hub = match bus.get_device(run.device) {
        Some(hub) => hub,
        None => return Step::Done(Reply::Bytes(None)),
    };
    let status = reply.status();
    match run.at {
        HubReadDescAt::Start => Step::Act {
            action: Action::ControlTransfer(usb_hub_ctrl_get_hub_desc(hub, 2)),
            next: Frame::HubReadDesc(HubReadDesc { at: HubReadDescAt::Header, ..run }),
        },
        HubReadDescAt::Header => {
            let data: Vec<u8> = reply.into_data();
            let length: u8 = byte_at(data.as_slice(), 0);
            if !status.is_success() || length < 2 {
                return Step::Done(Reply::Bytes(None));
            }
            Step::Act {
                action: Action::ControlTransfer(usb_hub_ctrl_get_hub_desc(hub, length as usize)),
                next: Frame::HubReadDesc(HubReadDesc { at: HubReadDescAt::Body { length }, ..run }),
            }
        },
        HubReadDescAt::Body { length } => {
            if !status.is_success() {
                return Step::Done(Reply::Bytes(None));
            }
            Step::Done(Reply::Bytes(Some(fill(reply.into_data(), length as usize))))
        },
    }
}

/// Acknowledges the changes that a hub reports for itself.
#[derive(Clone, Copy, Debug)]
pub struct HubAckHubStatus {
    pub device: u8,
    pub at: HubAckHubStatusAt,
}

#[derive(Clone, Copy, Debug)]
pub enum HubAckHubStatusAt {
    Start,
    Status,
    /// The local-power change has been dealt with.
    LocalPower { state: u8 },
    /// Both changes have been dealt with.
    OverCurrent,
}

impl HubAckHubStatus {
    pub open spec fn start(device: u8) -> HubAckHubStatus {
        HubAckHubStatus { device, at: HubAckHubStatusAt::Start }
    }

    pub fn new(device: u8) -> (r: HubAckHubStatus)
        ensures
            r == HubAckHubStatus::start(device),
    {
        HubAckHubStatus { device, at: HubAckHubStatusAt::Start }
    }

    pub open spec fn to(self, at: HubAckHubStatusAt) -> Frame {
        Frame::HubAckHubStatus(HubAckHubStatus { at, ..self })
    }

    /// Clears a feature of the hub, then goes on at `at`.
    pub open spec fn clears(self, hub: UsbDevice, feature: u16, at: HubAckHubStatusAt) -> Step {
        Step::Act {
            action: Action::ControlTransfer(
                hub_request(
                    hub,
                    UsbDataDirection::NoData,
                    USB_HUB_TARGET_HUB,
                    USB_HUB_REQ_CLEAR_FEATURE,
                    feature,
                    0,
                    0,
                ),
            ),
            next: self.to(at),
        }
    }

    /// Deals with the over-current change.
    pub open spec fn ends(self, hub: UsbDevice, state: u8) -> Step {
        if state & USB_HUB_STAT_C_OVER_CURRENT != 0 {
            self.clears(hub, USB_HUB_C_HUB_OVER_CURRENT, HubAckHubStatusAt::OverCurrent)
        } else {
            Step::Done(Reply::Status(Status::Success))
        }
    }

    /// How the operation goes on after `reply`. The changes are in the second word of
    /// the answer, behind the status.
    pub open spec fn next(self, bus: UsbBus, reply: Reply) -> Step {
        match bus.device(self.device) {
            None => Step::Done(Reply::Status(Status::InvalidParameter)),
            Some(hub) => match self.at {
                HubAckHubStatusAt::Start => Step::Act {
                    action: Action::ControlTransfer(
                        hub_request(
                            hub,
                            UsbDataDirection::In,
                            USB_HUB_TARGET_HUB,
                            USB_HUB_REQ_GET_STATUS,
                            0,
                            0,
                            4,
                        ),
                    ),
                    next: self.to(HubAckHubStatusAt::Status),
                },
                HubAckHubStatusAt::Status => {
                    let state = byte_of(reply.as_data(), 2);
                    if reply.as_status() != Status::Success {
                        Step::Done(Reply::Status(reply.as_status()))
                    } else if state & USB_HUB_STAT_C_LOCAL_POWER != 0 {
                        self.clears(
                            hub,
                            USB_HUB_C_HUB_LOCAL_POWER,
                            HubAckHubStatusAt::LocalPower { state },
                        )
                    } else {
                        self.ends(hub, state)
                    }
                },
                HubAckHubStatusAt::LocalPower { state } => self.ends(hub, state),
                HubAckHubStatusAt::OverCurrent => Step::Done(Reply::Status(Status::Success)),
            },
        }
    }

    fn end(self, hub: &UsbDevice, state: u8) -> (step: Step)
        ensures
            step == self.ends(*hub, state),
    {
        if state & USB_HUB_STAT_C_OVER_CURRENT != 0 {
            Step::Act {
                action: Action::ControlTransfer(
                    usb_hub_ctrl_clear_hub_feature(hub, USB_HUB_C_HUB_OVER_CURRENT),
                ),
                next: Frame::HubAckHubStatus(
                    HubAckHubStatus { at: HubAckHubStatusAt::OverCurrent, ..self },
                ),
            }
        } else {
            Step::Done(Reply::Status(Status::Success))
        }
    }
}

/// Takes one step of acknowledging the changes of a hub.
pub fn usb_hub_ack_hub_status(bus: &UsbBus, run: HubAckHubStatus, reply: Reply) -> (step: Step)
    requires
        bus.wf(),
    ensures
        step == run.next(*bus, reply),
{
    let hub = match bus.get_device(run.device) {
        Some(hub) => hub,
        None => return Step::Done(Reply::Status(Status::InvalidParameter)),
    };
    let status = reply.status();
    match run.at {
        HubAckHubStatusAt::Start => Step::Act {
            action: Action::ControlTransfer(usb_hub_ctrl_get_hub_status(hub)),
            next: Frame::HubAckHubStatus(HubAckHubStatus { at: HubAckHubStatusAt::Status, ..run }),
        },
        HubAckHubStatusAt::Status => {
            if !status.is_success() {
                return Step::Done(Reply::Status(status));
            }
            let data: Vec<u8> = reply.into_data();
            let state: u8 = byte_at(data.as_slice(), 2);
            if state & USB_HUB_STAT_C_LOCAL_POWER != 0 {
                return Step::Act {
                    action: Action::ControlTransfer(
                        usb_hub_ctrl_clear_hub_feature(hub, USB_HUB_C_HUB_LOCAL_POWER),
                    ),
                    next: Frame::HubAckHubStatus(
                        HubAckHubStatus { at: HubAckHubStatusAt::LocalPower { state }, ..run },
                    ),
                };
            }
            run.end(hub, state)
        },
        HubAckHubStatusAt::LocalPower { state } => run.end(hub, state),
        HubAckHubStatusAt::OverCurrent => Step::Done(Reply::Status(Status::Success)),
    }
}

/// The interrupt transfer by which a hub reports changes, to be queued.
pub open spec fn hub_poll(interface: InterfaceId, endpoint_address: u8, num_of_port: u8) -> Frame {
    Frame::IoCall(
        IoCall::start(
            IoOperation::AsyncInterruptTransfer(
                IoAsyncInterruptTransfer {
                    interface,
                    endpoint: endpoint_address,
                    is_new_transfer: true,
                    polling_interval: USB_HUB_POLL_INTERVAL as usize,
                    data_length: (num_of_port / 8 + 1) as usize,
                    callback: AsyncCallback::Hub(interface),
                    asked: false,
                },
            ),
        ),
    )
}

fn poll_hub(interface: InterfaceId, endpoint_address: u8, num_of_port: u8) -> (r: Frame)
    ensures
        r == hub_poll(interface, endpoint_address, num_of_port),
{
    Frame::IoCall(
        IoCall::new(
            IoOperation::AsyncInterruptTransfer(
                IoAsyncInterruptTransfer {
                    interface,
                    endpoint: endpoint_address,
                    is_new_transfer: true,
                    polling_interval: USB_HUB_POLL_INTERVAL as usize,
                    data_length: (num_of_port / 8 + 1) as usize,
                    callback: AsyncCallback::Hub(interface),
                    asked: false,
                },
            ),
        ),
    )
}

/// The interrupt transfer by which a hub reports changes, to be taken off the queue.
pub open spec fn hub_poll_end(
    interface: InterfaceId,
    endpoint_address: u8,
    polling_interval: usize,
) -> Frame {
    Frame::IoCall(
        IoCall::start(
            IoOperation::AsyncInterruptTransfer(
                IoAsyncInterruptTransfer {
                    interface,
                    endpoint: endpoint_address,
                    is_new_transfer: false,
                    polling_interval,
                    data_length: 0,
                    callback: AsyncCallback::Nobody,
                    asked: false,
                },
            ),
        ),
    )
}

fn end_hub_poll(interface: InterfaceId, endpoint_address: u8, polling_interval: usize) -> (r: Frame)
    ensures
        r == hub_poll_end(interface, endpoint_address, polling_interval),
{
    Frame::IoCall(
        IoCall::new(
            IoOperation::AsyncInterruptTransfer(
                IoAsyncInterruptTransfer {
                    interface,
                    endpoint: endpoint_address,
                    is_new_transfer: false,
                    polling_interval,
                    data_length: 0,
                    callback: AsyncCallback::Nobody,
                    asked: false,
                },
            ),
        ),
    )
}

/// An endpoint on which a hub can report changes: an interrupt endpoint towards the
/// host.
pub open spec fn reports_changes() -> spec_fn(Option<UsbEndpointDesc>) -> bool {
    |slot: Option<UsbEndpointDesc>|
        slot matches Some(endpoint) && endpoint.descriptor.endpoint_address >= 128
            && endpoint.descriptor.attributes % 4 == USB_ENDPOINT_INTERRUPT
}

/// The first endpoint of an interface on which a hub can report changes.
pub open spec fn hub_endpoint(interface: UsbInterface) -> Option<UsbEndpointDesc> {
    match interface.setting() {
        Some(setting) => match first_index(setting.endpoints, reports_changes()) {
            Some(slot) => setting.endpoints[slot],
            None => None,
        },
        None => None,
    }
}

fn find_hub_endpoint(interface: &UsbInterface) -> (r: Option<UsbEndpointDesc>)
    ensures
        r == hub_endpoint(*interface),
{
    let setting = match interface.get_setting() {
        Some(setting) => setting,
        None => return None,
    };
    let ghost p = reports_changes();
    let mut index: usize = 0;
    while index < setting.endpoints.len()
        invariant
            index <= setting.endpoints@.len(),
            interface.setting() == Some(setting@),
            p == reports_changes(),
            forall|j: int| 0 <= j < index ==> !p(#[trigger] setting.endpoints@[j]),
        decreases setting.endpoints@.len() - index,
    {
        if let Some(endpoint) = setting.endpoints[index] {
            if endpoint.descriptor.endpoint_address >= 128 && usb_endpoint_type(
                endpoint.descriptor.attributes,
            ) == USB_ENDPOINT_INTERRUPT {
                proof {
                    lemma_first_index_found(setting.endpoints@, p, index as int);
                }
                return Some(endpoint);
            }
        }
        index = index + 1;
    }
    proof {
        lemma_first_index_none(setting.endpoints@, p);
    }
    None
}

/// Brings a hub device up: powers its ports and starts listening to it.
#[derive(Clone, Copy, Debug)]
pub struct HubInit {
    pub interface: InterfaceId,
    pub at: HubInitAt,
}

/// What has been found out about a hub.
#[derive(Clone, Copy, Debug)]
pub struct HubFacts {
    pub endpoint: UsbEndpointDesc,
    pub ports: u8,
    /// Power-on delay, in units of two milliseconds.
    pub delay: u8,
}

#[derive(Clone, Copy, Debug)]
pub enum HubInitAt {
    Start,
    Descriptor { endpoint: UsbEndpointDesc },
    /// The ports before `port` have been set up.
    Ports { facts: HubFacts, port: u8 },
    Powered { facts: HubFacts },
    Ready { facts: HubFacts },
    Event { facts: HubFacts },
    Polling,
    Closed { status: Status },
}

impl HubInit {
    pub open spec fn start(interface: InterfaceId) -> HubInit {
        HubInit { interface, at: HubInitAt::Start }
    }

    pub fn new(interface: InterfaceId) -> (r: HubInit)
        ensures
            r == HubInit::start(interface),
    {
        HubInit { interface, at: HubInitAt::Start }
    }

    pub open spec fn to(self, at: HubInitAt) -> Frame {
        Frame::HubInit(HubInit { at, ..self })
    }

    /// Sets up `port`, or goes on when all ports are set up. On a SuperSpeed hub the
    /// ports are told which events wake them; on any other they are powered, and the
    /// hub gets time until its power is good.
    pub open spec fn sets_up(
        self,
        pre: UsbBus,
        interface: UsbInterface,
        hub: UsbDevice,
        facts: HubFacts,
        port: u8,
        post: UsbBus,
        step: Step,
    ) -> bool {
        if port < facts.ports {
            post == pre && step == (Step::Act {
                action: Action::ControlTransfer(
                    set_port_feature_request(
                        hub,
                        port,
                        if hub.speed == EFI_USB_SPEED_SUPER {
                            USB_HUB_PORT_REMOTE_WAKE_MASK
                        } else {
                            USB_HUB_PORT_POWER
                        },
                    ),
                ),
                next: self.to(HubInitAt::Ports { facts, port: (port + 1) as u8 }),
            })
        } else if hub.speed == EFI_USB_SPEED_SUPER {
            self.registers(pre, interface, facts, post, step)
        } else if facts.delay != 0 {
            post == pre && step == (Step::Act {
                action: Action::Stall { micros: (facts.delay * USB_SET_PORT_POWER_STALL) as u64 },
                next: self.to(HubInitAt::Powered { facts }),
            })
        } else {
            post == pre && step == self.acknowledges(facts)
        }
    }

    /// Acknowledges what the hub reports for itself.
    pub open spec fn acknowledges(self, facts: HubFacts) -> Step {
        Step::Call {
            callee: Frame::HubAckHubStatus(HubAckHubStatus::start(self.interface.device)),
            next: self.to(HubInitAt::Ready { facts }),
        }
    }

    /// Makes the interface a hub and asks for the event by which it is enumerated.
    pub open spec fn registers(
        self,
        pre: UsbBus,
        interface: UsbInterface,
        facts: HubFacts,
        post: UsbBus,
        step: Step,
    ) -> bool {
        &&& pre.with_interface(
            self.interface,
            Some(
                UsbInterface {
                    is_hub: true,
                    num_of_port: facts.ports,
                    hub_ep: Some(facts.endpoint),
                    hub_interrupt_context: false,
                    ..interface
                },
            ),
            post,
        )
        &&& step == (Step::Act {
            action: Action::CreateHubEvent { interface: self.interface },
            next: self.to(HubInitAt::Event { facts }),
        })
    }

    /// How the operation goes on after `reply`.
    pub open spec fn goes_on(self, pre: UsbBus, reply: Reply, post: UsbBus, step: Step) -> bool {
        let status = reply.as_status();
        let broken = Step::Done(Reply::Status(Status::DeviceError));
        match (pre.interface(self.interface), pre.device(self.interface.device)) {
            (Some(interface), Some(hub)) => match self.at {
                HubInitAt::Start => post == pre && step == (match hub_endpoint(interface) {
                    Some(endpoint) if is_hub_interface(interface) => Step::Call {
                        callee: Frame::HubReadDesc(HubReadDesc::start(self.interface.device)),
                        next: self.to(HubInitAt::Descriptor { endpoint }),
                    },
                    _ => broken,
                }),
                HubInitAt::Descriptor { endpoint } => match reply.as_bytes() {
                    Some(descriptor) if descriptor.len() >= 3 => {
                        let facts = HubFacts {
                            endpoint,
                            ports: descriptor[2],
                            delay: byte_of(descriptor, 5),
                        };
                        if hub.speed == EFI_USB_SPEED_SUPER {
                            post == pre && step == (Step::Act {
                                action: Action::ControlTransfer(
                                    hub_request(
                                        hub,
                                        UsbDataDirection::NoData,
                                        USB_HUB_TARGET_HUB,
                                        USB_HUB_REQ_SET_DEPTH,
                                        if hub.tier > 0 {
                                            (hub.tier - 1) as u16
                                        } else {
                                            0
                                        },
                                        0,
                                        0,
                                    ),
                                ),
                                next: self.to(HubInitAt::Ports { facts, port: 0 }),
                            })
                        } else {
                            self.sets_up(pre, interface, hub, facts, 0, post, step)
                        }
                    },
                    _ => post == pre && step == broken,
                },
                HubInitAt::Ports { facts, port } => self.sets_up(
                    pre,
                    interface,
                    hub,
                    facts,
                    port,
                    post,
                    step,
                ),
                HubInitAt::Powered { facts } => post == pre && step == self.acknowledges(facts),
                HubInitAt::Ready { facts } => self.registers(pre, interface, facts, post, step),
                HubInitAt::Event { facts } => if status != Status::Success {
                    post == pre && step == Step::Done(Reply::Status(Status::InvalidParameter))
                } else {
                    &&& pre.with_interface(
                        self.interface,
                        Some(
                            UsbInterface {
                                hub_notify: reply.as_handle(),
                                hub_interrupt_context: true,
                                ..interface
                            },
                        ),
                        post,
                    )
                    &&& step == (Step::Call {
                        callee: hub_poll(
                            self.interface,
                            facts.endpoint.descriptor.endpoint_address,
                            interface.num_of_port,
                        ),
                        next: self.to(HubInitAt::Polling),
                    })
                },
                HubInitAt::Polling => if status == Status::Success {
                    post == pre && step == Step::Done(Reply::Status(status))
                } else {
                    &&& pre.with_interface(
                        self.interface,
                        Some(
                            UsbInterface {
                                hub_notify: 0,
                                hub_interrupt_context: false,
                                is_hub: false,
                                ..interface
                            },
                        ),
                        post,
                    )
                    &&& step == (Step::Act {
                        action: Action::CloseEvent { event: interface.hub_notify },
                        next: self.to(HubInitAt::Closed { status }),
                    })
                },
                HubInitAt::Closed { status } => post == pre && step == Step::Done(Reply::Status(status)),
            },
            _ => post == pre && step == Step::Done(Reply::Status(Status::InvalidParameter)),
        }
    }

    fn set_up(self, bus: &mut UsbBus, facts: HubFacts, port: u8) -> (step: Step)
        requires
            old(bus).wf(),
            old(bus).interface(self.interface) is Some,
        ensures
            self.sets_up(
                *old(bus),
                old(bus).interface(self.interface)->0,
                old(bus).device(self.interface.device)->0,
                facts,
                port,
                *final(bus),
                step,
            ),
            final(bus).wf(),
    {
        let hub = match bus.get_device(self.interface.device) {
            Some(hub) => hub,
            None => return Step::Done(Reply::Status(Status::InvalidParameter)),
        };
        let is_super = hub.speed == EFI_USB_SPEED_SUPER;
        if port < facts.ports {
            let feature: u16 = if is_super {
                USB_HUB_PORT_REMOTE_WAKE_MASK
            } else {
                USB_HUB_PORT_POWER
            };
            return Step::Act {
                action: Action::ControlTransfer(usb_hub_ctrl_set_port_feature(hub, port, feature)),
                next: Frame::HubInit(HubInit { at: HubInitAt::Ports { facts, port: port + 1 }, ..self }),
            };
        }
        if is_super {
            return self.register(bus, facts);
        }
        if facts.delay != 0 {
            return Step::Act {
                action: Action::Stall { micros: facts.delay as u64 * USB_SET_PORT_POWER_STALL },
                next: Frame::HubInit(HubInit { at: HubInitAt::Powered { facts }, ..self }),
            };
        }
        self.acknowledge(facts)
    }

    fn acknowledge(self, facts: HubFacts) -> (step: Step)
        ensures
            step == self.acknowledges(facts),
    {
        Step::Call {
            callee: Frame::HubAckHubStatus(HubAckHubStatus::new(self.interface.device)),
            next: Frame::HubInit(HubInit { at: HubInitAt::Ready { facts }, ..self }),
        }
    }

    fn register(self, bus: &mut UsbBus, facts: HubFacts) -> (step: Step)
        requires
            old(bus).wf(),
            old(bus).interface(self.interface) is Some,
        ensures
            self.registers(
                *old(bus),
                old(bus).interface(self.interface)->0,
                facts,
                *final(bus),
                step,
            ),
            final(bus).wf(),
    {
        if let Some(device) = &mut bus.devices[self.interface.device as usize] {
            if let Some(interface) = &mut device.interfaces[self.interface.index as usize] {
                interface.is_hub = true;
                interface.num_of_port = facts.ports;
                interface.hub_ep = Some(facts.endpoint);
                interface.hub_interrupt_context = false;
            }
        }
        Step::Act {
            action: Action::CreateHubEvent { interface: self.interface },
            next: Frame::HubInit(HubInit { at: HubInitAt::Event { facts }, ..self }),
        }
    }
}

/// Takes one step of bringing a hub up.
pub fn usb_hub_init(bus: &mut UsbBus, run: HubInit, reply: Reply) -> (step: Step)
    requires
        old(bus).wf(),
    ensures
        run.goes_on(*old(bus), reply, *final(bus), step),
        final(bus).wf(),
{
    let interface = match bus.get_interface(run.interface) {
        Some(interface) => interface,
        None => return Step::Done(Reply::Status(Status::InvalidParameter)),
    };
    let status = reply.status();
    match run.at {
        HubInitAt::Start => {
            if !usb_is_hub_interface(interface) {
                return Step::Done(Reply::Status(Status::DeviceError));
            }
            match find_hub_endpoint(interface) {
                Some(endpoint) => Step::Call {
                    callee: Frame::HubReadDesc(HubReadDesc::new(run.interface.device)),
                    next: Frame::HubInit(HubInit { at: HubInitAt::Descriptor { endpoint }, ..run }),
                },
                None => Step::Done(Reply::Status(Status::DeviceError)),
            }
        },
        HubInitAt::Descriptor { endpoint } => {
            let descriptor: Vec<u8> = match reply.into_bytes() {
                Some(descriptor) => descriptor,
                None => return Step::Done(Reply::Status(Status::DeviceError)),
            };
            if descriptor.len() < 3 {
                return Step::Done(Reply::Status(Status::DeviceError));
            }
            let facts = HubFacts {
                endpoint,
                ports: descriptor[2],
                delay: byte_at(descriptor.as_slice(), 5),
            };
            let hub = match bus.get_device(run.interface.device) {
                Some(hub) => hub,
                None => return Step::Done(Reply::Status(Status::InvalidParameter)),
            };
            if hub.speed == EFI_USB_SPEED_SUPER {
                let depth: u16 = if hub.tier > 0 {
                    hub.tier as u16 - 1
                } else {
                    0
                };
                return Step::Act {
                    action: Action::ControlTransfer(usb_hub_ctrl_set_hub_depth(hub, depth)),
                    next: Frame::HubInit(HubInit { at: HubInitAt::Ports { facts, port: 0 }, ..run }),
                };
            }
            run.set_up(bus, facts, 0)
        },
        HubInitAt::Ports { facts, port } => run.set_up(bus, facts, port),
        HubInitAt::Powered { facts } => run.acknowledge(facts),
        HubInitAt::Ready { facts } => run.register(bus, facts),
        HubInitAt::Event { facts } => {
            if !status.is_success() {
                return Step::Done(Reply::Status(Status::InvalidParameter));
            }
            let num_of_port: u8 = interface.num_of_port;
            if let Some(device) = &mut bus.devices[run.interface.device as usize] {
                if let Some(interface) = &mut device.interfaces[run.interface.index as usize] {
                    interface.hub_notify = reply.handle();
                    interface.hub_interrupt_context = true;
                }
            }
            Step::Call {
                callee: poll_hub(
                    run.interface,
                    facts.endpoint.descriptor.endpoint_address,
                    num_of_port,
                ),
                next: Frame::HubInit(HubInit { at: HubInitAt::Polling, ..run }),
            }
        },
        HubInitAt::Polling => {
            if status.is_success() {
                return Step::Done(Reply::Status(status));
            }
            let event: usize = interface.hub_notify;
            if let Some(device) = &mut bus.devices[run.interface.device as usize] {
                if let Some(interface) = &mut device.interfaces[run.interface.index as usize] {
                    interface.hub_notify = 0;
                    interface.hub_interrupt_context = false;
                    interface.is_hub = false;
                }
            }
            Step::Act {
                action: Action::CloseEvent { event },
                next: Frame::HubInit(HubInit { at: HubInitAt::Closed { status }, ..run }),
            }
        },
        HubInitAt::Closed { status } => Step::Done(Reply::Status(status)),
    }
}

/// Lets a hub device go: stops listening to it and closes its event.
#[derive(Clone, Copy, Debug)]
pub struct HubRelease {
    pub interface: InterfaceId,
    pub at: HubReleaseAt,
}

#[derive(Clone, Copy, Debug)]
pub enum HubReleaseAt {
    Start,
    Silent,
    Closed,
}

impl HubRelease {
    pub open spec fn start(interface: InterfaceId) -> HubRelease {
        HubRelease { interface, at: HubReleaseAt::Start }
    }

    pub fn new(interface: InterfaceId) -> (r: HubRelease)
        ensures
            r == HubRelease::start(interface),
    {
        HubRelease { interface, at: HubReleaseAt::Start }
    }

    /// Closes the event of the hub, if it has one.
    pub open spec fn closes(self, pre: UsbBus, interface: UsbInterface, post: UsbBus, step: Step) -> bool {
        if interface.hub_notify != 0 {
            post == pre && step == (Step::Act {
                action: Action::CloseEvent { event: interface.hub_notify },
                next: Frame::HubRelease(HubRelease { at: HubReleaseAt::Closed, ..self }),
            })
        } else {
            self.ends(pre, interface, post, step)
        }
    }

    /// The interface is no hub any more.
    pub open spec fn ends(self, pre: UsbBus, interface: UsbInterface, post: UsbBus, step: Step) -> bool {
        &&& pre.with_interface(
            self.interface,
            Some(
                UsbInterface {
                    is_hub: false,
                    hub_api: None,
                    hub_ep: None,
                    hub_interrupt_context: false,
                    hub_notify: 0,
                    ..interface
                },
            ),
            post,
        )
        &&& step == Step::Done(Reply::Status(Status::Success))
    }

    /// How the operation goes on after `reply`.
    pub open spec fn goes_on(self, pre: UsbBus, reply: Reply, post: UsbBus, step: Step) -> bool {
        let status = reply.as_status();
        match pre.interface(self.interface) {
            None => post == pre && step == Step::Done(Reply::Status(Status::InvalidParameter)),
            Some(interface) => match self.at {
                HubReleaseAt::Start => match interface.hub_ep {
                    Some(endpoint) => post == pre && step == (Step::Call {
                        callee: hub_poll_end(
                            self.interface,
                            endpoint.descriptor.endpoint_address,
                            USB_HUB_POLL_INTERVAL as usize,
                        ),
                        next: Frame::HubRelease(HubRelease { at: HubReleaseAt::Silent, ..self }),
                    }),
                    None => self.closes(pre, interface, post, step),
                },
                HubReleaseAt::Silent => if status != Status::Success {
                    post == pre && step == Step::Done(Reply::Status(status))
                } else {
                    self.closes(pre, interface, post, step)
                },
                HubReleaseAt::Closed => if status != Status::Success {
                    post == pre && step == Step::Done(Reply::Status(Status::InvalidParameter))
                } else {
                    self.ends(pre, interface, post, step)
                },
            },
        }
    }

    fn end(self, bus: &mut UsbBus) -> (step: Step)
        requires
            old(bus).wf(),
            old(bus).interface(self.interface) is Some,
        ensures
            self.ends(*old(bus), old(bus).interface(self.interface)->0, *final(bus), step),
            final(bus).wf(),
    {
        if let Some(device) = &mut bus.devices[self.interface.device as usize] {
            if let Some(interface) = &mut device.interfaces[self.interface.index as usize] {
                interface.is_hub = false;
                interface.hub_api = None;
                interface.hub_ep = None;
                interface.hub_interrupt_context = false;
                interface.hub_notify = 0;
            }
        }
        Step::Done(Reply::Status(Status::Success))
    }
}

/// Takes one step of letting a hub go.
pub fn usb_hub_release(bus: &mut UsbBus, run: HubRelease, reply: Reply) -> (step: Step)
    requires
        old(bus).wf(),
    ensures
        run.goes_on(*old(bus), reply, *final(bus), step),
        final(bus).wf(),
{
    let interface = match bus.get_interface(run.interface) {
        Some(interface) => interface,
        None => return Step::Done(Reply::Status(Status::InvalidParameter)),
    };
    let status = reply.status();
    match run.at {
        HubReleaseAt::Start => {
            if let Some(endpoint) = interface.hub_ep {
                return Step::Call {
                    callee: end_hub_poll(
                        run.interface,
                        endpoint.descriptor.endpoint_address,
                        USB_HUB_POLL_INTERVAL as usize,
                    ),
                    next: Frame::HubRelease(HubRelease { at: HubReleaseAt::Silent, ..run }),
                };
            }
        },
        HubReleaseAt::Silent => {
            if !status.is_success() {
                return Step::Done(Reply::Status(status));
            }
        },
        HubReleaseAt::Closed => {
            if !status.is_success() {
                return Step::Done(Reply::Status(Status::InvalidParameter));
            }
            return run.end(bus);
        },
    }
    if interface.hub_notify != 0 {
        return Step::Act {
            action: Action::CloseEvent { event: interface.hub_notify },
            next: Frame::HubRelease(HubRelease { at: HubReleaseAt::Closed, ..run }),
        };
    }
    run.end(bus)
}

/// Brings the root hub up: starts its timer and waits until it has been looked at a
/// few times.
#[derive(Clone, Copy, Debug)]
pub struct RootHubInit {
    pub interface: InterfaceId,
    pub at: RootHubInitAt,
}

#[derive(Clone, Copy, Debug)]
pub enum RootHubInitAt {
    Start,
    Capability,
    Event,
    Signalled,
    Ticking,
    Waiting,
    Closed { status: Status },
}

impl RootHubInit {
    pub open spec fn start(interface: InterfaceId) -> RootHubInit {
        RootHubInit { interface, at: RootHubInitAt::Start }
    }

    pub fn new(interface: InterfaceId) -> (r: RootHubInit)
        ensures
            r == RootHubInit::start(interface),
    {
        RootHubInit { interface, at: RootHubInitAt::Start }
    }

    pub open spec fn to(self, at: RootHubInitAt) -> Frame {
        Frame::RootHubInit(RootHubInit { at, ..self })
    }

    /// The timer does not run: its event is closed again.
    pub open spec fn gives_up(
        self,
        pre: UsbBus,
        interface: UsbInterface,
        status: Status,
        post: UsbBus,
        step: Step,
    ) -> bool {
        &&& pre.with_interface(
            self.interface,
            Some(UsbInterface { hub_notify: 0, is_hub: false, ..interface }),
            post,
        )
        &&& step == (Step::Act {
            action: Action::CloseEvent { event: interface.hub_notify },
            next: self.to(RootHubInitAt::Closed { status }),
        })
    }

    /// Waits for the first looks at the ports.
    pub open spec fn waits(self, interface: UsbInterface) -> Step {
        if interface.poll_count < USB_ENUM_POLL_MINIMUM_ATTEMPTS {
            Step::Act { action: Action::WaitForPoll, next: self.to(RootHubInitAt::Waiting) }
        } else {
            Step::Done(Reply::Status(Status::Success))
        }
    }

    /// How the operation goes on after `reply`. The root hub answers to its port
    /// operations before the first look at its ports.
    pub open spec fn goes_on(self, pre: UsbBus, reply: Reply, post: UsbBus, step: Step) -> bool {
        let status = reply.as_status();
        match pre.interface(self.interface) {
            None => post == pre && step == Step::Done(Reply::Status(Status::InvalidParameter)),
            Some(interface) => match self.at {
                RootHubInitAt::Start => post == pre && step == (Step::Act {
                    action: Action::GetCapability,
                    next: self.to(RootHubInitAt::Capability),
                }),
                RootHubInitAt::Capability => if status != Status::Success {
                    post == pre && step == Step::Done(Reply::Status(status))
                } else {
                    &&& pre.with_interface(
                        self.interface,
                        Some(
                            UsbInterface {
                                is_hub: true,
                                hub_api: Some(UsbHubApi::RootHub),
                                hub_ep: None,
                                max_speed: reply.as_capability().0,
                                num_of_port: reply.as_capability().1,
                                poll_count: 0,
                                ..interface
                            },
                        ),
                        post,
                    )
                    &&& step == (Step::Act {
                        action: Action::CreateTimerEvent { interface: self.interface },
                        next: self.to(RootHubInitAt::Event),
                    })
                },
                RootHubInitAt::Event => if status != Status::Success {
                    post == pre && step == Step::Done(Reply::Status(status))
                } else {
                    &&& pre.with_interface(
                        self.interface,
                        Some(UsbInterface { hub_notify: reply.as_handle(), ..interface }),
                        post,
                    )
                    &&& step == (Step::Act {
                        action: Action::SignalEvent { event: reply.as_handle() },
                        next: self.to(RootHubInitAt::Signalled),
                    })
                },
                RootHubInitAt::Signalled => if status != Status::Success {
                    self.gives_up(pre, interface, status, post, step)
                } else {
                    post == pre && step == (Step::Act {
                        action: Action::SetPeriodicTimer {
                            event: interface.hub_notify,
                            nanos: (USB_ROOTHUB_POLL_INTERVAL * 100) as u64,
                        },
                        next: self.to(RootHubInitAt::Ticking),
                    })
                },
                RootHubInitAt::Ticking => if status != Status::Success {
                    self.gives_up(pre, interface, status, post, step)
                } else {
                    post == pre && step == self.waits(interface)
                },
                RootHubInitAt::Waiting => post == pre && step == self.waits(interface),
                RootHubInitAt::Closed { status } => post == pre && step == Step::Done(
                    Reply::Status(status),
                ),
            },
        }
    }

    fn give_up(self, bus: &mut UsbBus, event: usize, status: Status) -> (step: Step)
        requires
            old(bus).wf(),
            old(bus).interface(self.interface) matches Some(i) && i.hub_notify == event,
        ensures
            self.gives_up(*old(bus), old(bus).interface(self.interface)->0, status, *final(bus), step),
            final(bus).wf(),
    {
        if let Some(device) = &mut bus.devices[self.interface.device as usize] {
            if let Some(interface) = &mut device.interfaces[self.interface.index as usize] {
                interface.hub_notify = 0;
                interface.is_hub = false;
            }
        }
        Step::Act {
            action: Action::CloseEvent { event },
            next: Frame::RootHubInit(RootHubInit { at: RootHubInitAt::Closed { status }, ..self }),
        }
    }

    fn wait(self, interface: &UsbInterface) -> (step: Step)
        ensures
            step == self.waits(*interface),
    {
        if interface.poll_count < USB_ENUM_POLL_MINIMUM_ATTEMPTS {
            Step::Act {
                action: Action::WaitForPoll,
                next: Frame::RootHubInit(RootHubInit { at: RootHubInitAt::Waiting, ..self }),
            }
        } else {
            Step::Done(Reply::Status(Status::Success))
        }
    }
}

/// Takes one step of bringing the root hub up.
pub fn usb_root_hub_init(bus: &mut UsbBus, run: RootHubInit, reply: Reply) -> (step: Step)
    requires
        old(bus).wf(),
    ensures
        run.goes_on(*old(bus), reply, *final(bus), step),
        final(bus).wf(),
{
    let interface = match bus.get_interface(run.interface) {
        Some(interface) => interface,
        None => return Step::Done(Reply::Status(Status::InvalidParameter)),
    };
    let status = reply.status();
    let event: usize = interface.hub_notify;
    match run.at {
        RootHubInitAt::Start => Step::Act {
            action: Action::GetCapability,
            next: Frame::RootHubInit(RootHubInit { at: RootHubInitAt::Capability, ..run }),
        },
        RootHubInitAt::Capability => {
            if !status.is_success() {
                return Step::Done(Reply::Status(status));
            }
            let (max_speed, num_ports): (u8, u8) = reply.capability();
            if let Some(device) = &mut bus.devices[run.interface.device as usize] {
                if let Some(interface) = &mut device.interfaces[run.interface.index as usize] {
                    interface.is_hub = true;
                    interface.hub_api = Some(UsbHubApi::RootHub);
                    interface.hub_ep = None;
                    interface.max_speed = max_speed;
                    interface.num_of_port = num_ports;
                    interface.poll_count = 0;
                }
            }
            Step::Act {
                action: Action::CreateTimerEvent { interface: run.interface },
                next: Frame::RootHubInit(RootHubInit { at: RootHubInitAt::Event, ..run }),
            }
        },
        RootHubInitAt::Event => {
            if !status.is_success() {
                return Step::Done(Reply::Status(status));
            }
            let event: usize = reply.handle();
            if let Some(device) = &mut bus.devices[run.interface.device as usize] {
                if let Some(interface) = &mut device.interfaces[run.interface.index as usize] {
                    interface.hub_notify = event;
                }
            }
            Step::Act {
                action: Action::SignalEvent { event },
                next: Frame::RootHubInit(RootHubInit { at: RootHubInitAt::Signalled, ..run }),
            }
        },
        RootHubInitAt::Signalled => {
            if !status.is_success() {
                return run.give_up(bus, event, status);
            }
            Step::Act {
                action: Action::SetPeriodicTimer { event, nanos: USB_ROOTHUB_POLL_INTERVAL * 100 },
                next: Frame::RootHubInit(RootHubInit { at: RootHubInitAt::Ticking, ..run }),
            }
        },
        RootHubInitAt::Ticking => {
            if !status.is_success() {
                return run.give_up(bus, event, status);
            }
            run.wait(interface)
        },
        RootHubInitAt::Waiting => run.wait(interface),
        RootHubInitAt::Closed { status } => Step::Done(Reply::Status(status)),
    }
}

/// Lets the root hub go: stops its timer and closes the event.
#[derive(Clone, Copy, Debug)]
pub struct RootHubRelease {
    pub interface: InterfaceId,
    pub at: RootHubReleaseAt,
}

#[derive(Clone, Copy, Debug)]
pub enum RootHubReleaseAt {
    Start,
    Stopped,
    Closed,
}

impl RootHubRelease {
    pub open spec fn start(interface: InterfaceId) -> RootHubRelease {
        RootHubRelease { interface, at: RootHubReleaseAt::Start }
    }

    pub fn new(interface: InterfaceId) -> (r: RootHubRelease)
        ensures
            r == RootHubRelease::start(interface),
    {
        RootHubRelease { interface, at: RootHubReleaseAt::Start }
    }

    /// The interface is no hub any more.
    pub open spec fn ends(self, pre: UsbBus, interface: UsbInterface, post: UsbBus, step: Step) -> bool {
        &&& pre.with_interface(
            self.interface,
            Some(UsbInterface { is_hub: false, hub_api: None, hub_notify: 0, ..interface }),
            post,
        )
        &&& step == Step::Done(Reply::Status(Status::Success))
    }

    /// How the operation goes on after `reply`.
    pub open spec fn goes_on(self, pre: UsbBus, reply: Reply, post: UsbBus, step: Step) -> bool {
        let status = reply.as_status();
        match pre.interface(self.interface) {
            None => post == pre && step == Step::Done(Reply::Status(Status::InvalidParameter)),
            Some(interface) => match self.at {
                RootHubReleaseAt::Start => if interface.hub_notify != 0 {
                    post == pre && step == (Step::Act {
                        action: Action::CancelTimer { event: interface.hub_notify },
                        next: Frame::RootHubRelease(
                            RootHubRelease { at: RootHubReleaseAt::Stopped, ..self },
                        ),
                    })
                } else {
                    self.ends(pre, interface, post, step)
                },
                RootHubReleaseAt::Stopped => post == pre && step == (if status != Status::Success {
                    Step::Done(Reply::Status(status))
                } else {
                    Step::Act {
                        action: Action::CloseEvent { event: interface.hub_notify },
                        next: Frame::RootHubRelease(
                            RootHubRelease { at: RootHubReleaseAt::Closed, ..self },
                        ),
                    }
                }),
                RootHubReleaseAt::Closed => if status != Status::Success {
                    post == pre && step == Step::Done(Reply::Status(status))
                } else {
                    self.ends(pre, interface, post, step)
                },
            },
        }
    }
}

/// Takes one step of letting the root hub go.
pub fn usb_root_hub_release(bus: &mut UsbBus, run: RootHubRelease, reply: Reply) -> (step: Step)
    requires
        old(bus).wf(),
    ensures
        run.goes_on(*old(bus), reply, *final(bus), step),
        final(bus).wf(),
{
    let event: usize = match bus.get_interface(run.interface) {
        Some(interface) => interface.hub_notify,
        None => return Step::Done(Reply::Status(Status::InvalidParameter)),
    };
    let status = reply.status();
    match run.at {
        RootHubReleaseAt::Start => {
            if event != 0 {
                return Step::Act {
                    action: Action::CancelTimer { event },
                    next: Frame::RootHubRelease(RootHubRelease { at: RootHubReleaseAt::Stopped, ..run }),
                };
            }
        },
        RootHubReleaseAt::Stopped => {
            if !status.is_success() {
                return Step::Done(Reply::Status(status));
            }
            return Step::Act {
                action: Action::CloseEvent { event },
                next: Frame::RootHubRelease(RootHubRelease { at: RootHubReleaseAt::Closed, ..run }),
            };
        },
        RootHubReleaseAt::Closed => {
            if !status.is_success() {
                return Step::Done(Reply::Status(status));
            }
        },
    }
    if let Some(device) = &mut bus.devices[run.interface.device as usize] {
        if let Some(interface) = &mut device.interfaces[run.interface.index as usize] {
            interface.is_hub = false;
            interface.hub_api = None;
            interface.hub_notify = 0;
        }
    }
    Step::Done(Reply::Status(Status::Success))
}

/// Target of a clear-feature request that goes to an endpoint.
pub const USB_TARGET_ENDPOINT: usize = 2;

/// Deals with what came over the interrupt endpoint of a hub: a map of the ports that
/// changed, or an error. After an error the transfer is queued anew.
#[derive(Debug)]
pub struct OnHubInterrupt {
    pub interface: InterfaceId,
    pub result: u32,
    pub data: Vec<u8>,
    pub at: OnHubInterruptAt,
}

#[derive(Clone, Copy, Debug)]
pub enum OnHubInterruptAt {
    Start,
    Cleared,
    Silent,
    Restarted,
    Signalled,
}

impl OnHubInterrupt {
    /// The operation has come to `at`; the map of changes is not needed any more.
    pub open spec fn is_at(frame: Frame, interface: InterfaceId, result: u32, at: OnHubInterruptAt) -> bool {
        frame matches Frame::OnHubInterrupt(run) && run.interface == interface && run.result == result
            && run.at == at
    }

    /// Runs another operation, then goes on at `at`.
    pub open spec fn calls(self, step: Step, operation: Frame, at: OnHubInterruptAt) -> bool {
        step matches Step::Call { callee, next } && callee == operation && OnHubInterrupt::is_at(
            next,
            self.interface,
            self.result,
            at,
        )
    }

    /// How the operation goes on after `reply`.
    pub open spec fn goes_on(self, pre: UsbBus, reply: Reply, post: UsbBus, step: Step) -> bool {
        let status = reply.as_status();
        match pre.interface(self.interface) {
            None => post == pre && step == Step::Done(Reply::Status(Status::InvalidParameter)),
            Some(interface) => match interface.hub_ep {
                None => post == pre && step == Step::Done(Reply::Status(Status::DeviceError)),
                Some(endpoint) => {
                    let address = endpoint.descriptor.endpoint_address;
                    match self.at {
                        OnHubInterruptAt::Start => if self.result & USB_IO_ERR_STALL != 0 {
                            post == pre && self.calls(
                                step,
                                Frame::IoCall(
                                    IoCall::start(
                                        IoOperation::ControlTransfer(
                                            clear_feature(
                                                self.interface,
                                                USB_TARGET_ENDPOINT,
                                                0,
                                                address as u16,
                                            ),
                                        ),
                                    ),
                                ),
                                OnHubInterruptAt::Cleared,
                            )
                        } else if self.result != USB_IO_NOERROR {
                            post == pre && self.calls(
                                step,
                                hub_poll_end(self.interface, address, 0),
                                OnHubInterruptAt::Silent,
                            )
                        } else if self.data@.len() == 0 {
                            post == pre && step == Step::Done(Reply::Status(Status::Success))
                        } else {
                            &&& post.interface(self.interface) matches Some(j)
                            &&& pre.with_interface(
                                self.interface,
                                Some(UsbInterface { change_map: j.change_map, ..interface }),
                                post,
                            )
                            &&& j.change_map@ == self.data@
                            &&& if interface.hub_notify == 0 {
                                step == Step::Done(Reply::Status(Status::InvalidParameter))
                            } else {
                                step matches Step::Act { action, next } && action == (
                                Action::SignalEvent { event: interface.hub_notify })
                                    && OnHubInterrupt::is_at(
                                    next,
                                    self.interface,
                                    self.result,
                                    OnHubInterruptAt::Signalled,
                                )
                            }
                        },
                        OnHubInterruptAt::Cleared => post == pre && self.calls(
                            step,
                            hub_poll_end(self.interface, address, 0),
                            OnHubInterruptAt::Silent,
                        ),
                        OnHubInterruptAt::Silent => post == pre && if status != Status::Success {
                            step == Step::Done(Reply::Status(status))
                        } else {
                            self.calls(
                                step,
                                hub_poll(self.interface, address, interface.num_of_port),
                                OnHubInterruptAt::Restarted,
                            )
                        },
                        OnHubInterruptAt::Restarted => post == pre && step == Step::Done(
                            Reply::Status(status),
                        ),
                        OnHubInterruptAt::Signalled => post == pre && step == Step::Done(
                            Reply::Status(
                                if status == Status::Success {
                                    Status::Success
                                } else {
                                    Status::InvalidParameter
                                },
                            ),
                        ),
                    }
                },
            },
        }
    }
}

fn interrupt_at(interface: InterfaceId, result: u32, at: OnHubInterruptAt) -> (r: Frame)
    ensures
        OnHubInterrupt::is_at(r, interface, result, at),
{
    Frame::OnHubInterrupt(OnHubInterrupt { interface, result, data: Vec::new(), at })
}

/// Takes one step of dealing with an interrupt of a hub.
pub fn usb_on_hub_interrupt(bus: &mut UsbBus, run: OnHubInterrupt, reply: Reply) -> (step: Step)
    requires
        old(bus).wf(),
    ensures
        run.goes_on(*old(bus), reply, *final(bus), step),
        final(bus).wf(),
{
    let id = run.interface;
    let result: u32 = run.result;
    let interface = match bus.get_interface(id) {
        Some(interface) => interface,
        None => return Step::Done(Reply::Status(Status::InvalidParameter)),
    };
    let address: u8 = match interface.hub_ep {
        Some(endpoint) => endpoint.descriptor.endpoint_address,
        None => return Step::Done(Reply::Status(Status::DeviceError)),
    };
    let status = reply.status();
    match run.at {
        OnHubInterruptAt::Start => {
            if result & USB_IO_ERR_STALL != 0 {
                return Step::Call {
                    callee: Frame::IoCall(
                        IoCall::new(
                            IoOperation::ControlTransfer(
                                usb_io_clear_feature(id, USB_TARGET_ENDPOINT, 0, address as u16),
                            ),
                        ),
                    ),
                    next: interrupt_at(id, result, OnHubInterruptAt::Cleared),
                };
            }
            if result != USB_IO_NOERROR {
                return Step::Call {
                    callee: end_hub_poll(id, address, 0),
                    next: interrupt_at(id, result, OnHubInterruptAt::Silent),
                };
            }
            if run.data.len() == 0 {
                return Step::Done(Reply::Status(Status::Success));
            }
            let event: usize = interface.hub_notify;
            if let Some(device) = &mut bus.devices[id.device as usize] {
                if let Some(interface) = &mut device.interfaces[id.index as usize] {
                    interface.change_map = run.data;
                }
            }
            if event == 0 {
                return Step::Done(Reply::Status(Status::InvalidParameter));
            }
            Step::Act {
                action: Action::SignalEvent { event },
                next: interrupt_at(id, result, OnHubInterruptAt::Signalled),
            }
        },
        OnHubInterruptAt::Cleared => Step::Call {
            callee: end_hub_poll(id, address, 0),
            next: interrupt_at(id, result, OnHubInterruptAt::Silent),
        },
        OnHubInterruptAt::Silent => {
            if !status.is_success() {
                return Step::Done(Reply::Status(status));
            }
            Step::Call {
                callee: poll_hub(id, address, interface.num_of_port),
                next: interrupt_at(id, result, OnHubInterruptAt::Restarted),
            }
        },
        OnHubInterruptAt::Restarted => Step::Done(Reply::Status(status)),
        OnHubInterruptAt::Signalled => if status.is_success() {
            Step::Done(Reply::Status(Status::Success))
        } else {
            Step::Done(Reply::Status(Status::InvalidParameter))
        },
    }
}

} // verus!
