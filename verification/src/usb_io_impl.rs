//! The USB I/O services of an interface.

use crate::hub_port::{port_reset, reset_port, ClearPortChange};
use crate::search::{first_index, first_index_is_first, lemma_first_index_found};
use crate::status::Status;
use crate::task::{Action, AsyncCallback, AsyncTransfer, Frame, Reply, Step};
use crate::usb_2_host_controller::{
    UsbControlTransfer, UsbDataDirection, UsbDeviceRequest, UsbEndpointTransfer,
};
use crate::usb_bus_defs::{
    InterfaceId, UsbBus, UsbDevice, UsbHubApi, UsbInterface, USB_CLEAR_FEATURE_REQUEST_TIMEOUT,
    USB_INTERFACE_SIGNATURE, USB_MAX_LANG_ID, USB_SET_DEVICE_ADDRESS_STALL,
};
use crate::usb_config::{find_first_config, first_config_value, RemoveConfig, SelectConfig};
use crate::usb_control::{
    clear_feature_request, set_address_request, set_config_request, usb_request_type, usb_set_address,
    usb_set_config, BuildDescTable, GetMaxPacketSize0, GetOneString, UpdateDescriptors,
    USB_REQ_TYPE_STANDARD,
};
use crate::usb_desc::{
    ConfigDescriptor, DeviceDescriptor, EndpointDescriptor, InterfaceDescView, InterfaceDescriptor,
    SettingView, UsbEndpointDesc, UsbInterfaceSetting,
};
use crate::usb_hub::{
    clear_tt_buffer_request, usb_endpoint_addr, usb_endpoint_type, usb_hub_ctrl_clear_tt_buffer,
    USB_ENDPOINT_INTERRUPT,
};
use crate::usb_interface::{
    has_address, is_alternate, usb_find_setting, usb_get_endpoint_desc, usb_select_setting, with_setting,
};
use vstd::prelude::*;

verus! {

pub const USB_IO_DATA_IN: u32 = 0;

pub const USB_IO_DATA_OUT: u32 = 1;

pub const USB_IO_NO_DATA: u32 = 2;

pub const USB_IO_NOERROR: u32 = 0x0000;

pub const USB_IO_ERR_STALL: u32 = 0x0002;

pub const USB_REQ_CLEAR_FEATURE: u8 = 0x01;

pub const USB_REQ_SET_CONFIG: u8 = 0x09;

pub const USB_REQ_SET_INTERFACE: u8 = 0x0b;

pub const USB_REQUEST_TYPE_STANDARD_DEVICE: u8 = 0x00;

pub const USB_REQUEST_TYPE_STANDARD_INTERFACE: u8 = 0x01;

pub const USB_REQUEST_TYPE_STANDARD_ENDPOINT: u8 = 0x02;

pub const USB_FEATURE_ENDPOINT_HALT: u16 = 0;

pub const USB_ENDPOINT_CONTROL: u16 = 0;

pub const USB_ENDPOINT_BULK: u16 = 2;

/// The interface of a request and its device, where both are there and the interface
/// is one of this driver.
pub open spec fn io_target(bus: UsbBus, id: InterfaceId) -> Option<(UsbInterface, UsbDevice)> {
    match (bus.interface(id), bus.device(id.device)) {
        (Some(interface), Some(device)) => if interface.signature == USB_INTERFACE_SIGNATURE {
            Some((interface, device))
        } else {
            None
        },
        _ => None,
    }
}

/// The same, where the device is connected; otherwise why the request is refused.
pub open spec fn io_ready(bus: UsbBus, id: InterfaceId) -> Result<(UsbInterface, UsbDevice), Status> {
    match io_target(bus, id) {
        None => Err(Status::InvalidParameter),
        Some((interface, device)) => if device.connected {
            Ok((interface, device))
        } else {
            Err(Status::DeviceError)
        },
    }
}

fn find_target(bus: &UsbBus, id: InterfaceId) -> (r: Option<(&UsbInterface, &UsbDevice)>)
    requires
        bus.wf(),
    ensures
        match r {
            Some((i, d)) => io_target(*bus, id) == Some((*i, *d)),
            None => io_target(*bus, id) is None,
        },
{
    match (bus.get_interface(id), bus.get_device(id.device)) {
        (Some(interface), Some(device)) => if interface.signature == USB_INTERFACE_SIGNATURE {
            Some((interface, device))
        } else {
            None
        },
        _ => None,
    }
}

fn find_ready(bus: &UsbBus, id: InterfaceId) -> (r: Result<(&UsbInterface, &UsbDevice), Status>)
    requires
        bus.wf(),
    ensures
        match r {
            Ok((i, d)) => io_ready(*bus, id) == Ok::<(UsbInterface, UsbDevice), Status>((*i, *d)),
            Err(s) => io_ready(*bus, id) == Err::<(UsbInterface, UsbDevice), Status>(s),
        },
{
    match find_target(bus, id) {
        None => Err(Status::InvalidParameter),
        Some((interface, device)) => if device.connected {
            Ok((interface, device))
        } else {
            Err(Status::DeviceError)
        },
    }
}

/// The settings with a new data toggle for one endpoint of the active setting.
pub open spec fn with_toggle(desc: InterfaceDescView, slot: int, toggle: u8) -> InterfaceDescView {
    let setting = desc.settings[desc.active_index];
    let endpoint = UsbEndpointDesc { toggle, ..setting.endpoints[slot]->0 };
    InterfaceDescView {
        settings: desc.settings.update(
            desc.active_index,
            SettingView { endpoints: setting.endpoints.update(slot, Some(endpoint)), ..setting },
        ),
        ..desc
    }
}

/// `post` is `pre` with a new data toggle for an endpoint of an interface. Nothing
/// changes where there is no such endpoint.
pub open spec fn toggle_stored(
    pre: UsbBus,
    id: InterfaceId,
    endpoint_address: u8,
    toggle: u8,
    post: UsbBus,
) -> bool {
    match pre.interface(id) {
        Some(i) => match i.endpoint_slot(endpoint_address) {
            Some(slot) => {
                &&& post.interface(id) matches Some(j)
                &&& pre.with_interface(id, Some(UsbInterface { if_desc: j.if_desc, ..i }), post)
                &&& i.if_desc matches Some(before)
                &&& j.if_desc matches Some(after)
                &&& after@ == with_toggle(before@, slot, toggle)
            },
            None => post == pre,
        },
        None => post == pre,
    }
}

fn store_toggle(bus: &mut UsbBus, id: InterfaceId, endpoint_address: u8, toggle: u8)
    requires
        old(bus).wf(),
    ensures
        toggle_stored(*old(bus), id, endpoint_address, toggle, *final(bus)),
        final(bus).wf(),
{
    let (slot, endpoint): (usize, UsbEndpointDesc) = match bus.get_interface(id) {
        Some(interface) => match usb_get_endpoint_desc(interface, endpoint_address) {
            Some(found) => found,
            None => return,
        },
        None => return,
    };
    let ghost before = bus.interface(id)->0;
    if let Some(device) = &mut bus.devices[id.device as usize] {
        if let Some(interface) = &mut device.interfaces[id.index as usize] {
            if let Some(desc) = &mut interface.if_desc {
                let active: usize = desc.active_index;
                desc.settings[active].endpoints[slot] = Some(UsbEndpointDesc { toggle, ..endpoint });
                proof {
                    let after = with_toggle(before.if_desc->0@, slot as int, toggle);
                    assert forall|k: int| 0 <= k < desc.settings@.len() implies #[trigger] desc@.settings[k]
                        == after.settings[k] by {
                        assert(desc@.settings[k] == desc.settings@[k]@);
                        assert(before.if_desc->0@.settings[k] == before.if_desc->0.settings@[k]@);
                        if k == active {
                            assert(desc.settings@[k]@.endpoints =~= after.settings[k].endpoints);
                        }
                    }
                    assert(desc@.settings =~= after.settings);
                }
            }
        }
    }
}

/// The work that frees the transaction translator of a device after a failed
/// transfer, where the device has one.
pub open spec fn translator_action(bus: UsbBus, device: UsbDevice, endpoint_type: u16) -> Option<Action> {
    let address = device.translator.translator_hub_address;
    match bus.device(address) {
        Some(hub) => if address != 0 && address < bus.usable_slots() {
            Some(
                Action::ControlTransfer(
                    clear_tt_buffer_request(
                        hub,
                        device.translator.translator_port_number,
                        device.address as u16,
                        0,
                        endpoint_type,
                    ),
                ),
            )
        } else {
            None
        },
        None => None,
    }
}

fn free_translator(bus: &UsbBus, device: &UsbDevice, endpoint_type: u16) -> (r: Option<Action>)
    requires
        bus.wf(),
    ensures
        r == translator_action(*bus, *device, endpoint_type),
{
    let address: u8 = device.translator.translator_hub_address;
    match bus.get_device(address) {
        Some(hub) => if address != 0 && (address as usize) < bus.slot_count() {
            Some(
                Action::ControlTransfer(
                    usb_hub_ctrl_clear_tt_buffer(
                        hub,
                        device.translator.translator_port_number,
                        device.address as u16,
                        0,
                        endpoint_type,
                    ),
                ),
            )
        } else {
            None
        },
        None => None,
    }
}

/// A control transfer that a driver asked for. Requests that change what the bus
/// knows of the device are followed up.
#[derive(Clone, Copy, Debug)]
pub struct IoControlTransfer {
    pub interface: InterfaceId,
    pub request: UsbDeviceRequest,
    pub direction: u32,
    pub timeout: u32,
    pub data_length: usize,
    pub at: IoControlTransferAt,
}

#[derive(Clone, Copy, Debug, PartialEq, Eq, Structural)]
pub enum IoControlTransferAt {
    Start,
    Answer,
    Translated { status: Status },
    Removed { status: Status },
    Selected,
}

/// The direction that a number stands for.
pub open spec fn data_direction(direction: u32) -> Option<UsbDataDirection> {
    if direction == USB_IO_DATA_IN {
        Some(UsbDataDirection::In)
    } else if direction == USB_IO_DATA_OUT {
        Some(UsbDataDirection::Out)
    } else if direction == USB_IO_NO_DATA {
        Some(UsbDataDirection::NoData)
    } else {
        None
    }
}

/// A request that ends the halt of an endpoint.
pub open spec fn clears_halt(request: UsbDeviceRequest) -> bool {
    request.request == USB_REQ_CLEAR_FEATURE && request.request_type
        == USB_REQUEST_TYPE_STANDARD_ENDPOINT && request.value == USB_FEATURE_ENDPOINT_HALT
}

/// A request that switches the device to another configuration.
pub open spec fn sets_config(request: UsbDeviceRequest) -> bool {
    request.request == USB_REQ_SET_CONFIG && request.request_type == USB_REQUEST_TYPE_STANDARD_DEVICE
}

/// A request that switches an interface to another setting.
pub open spec fn sets_interface(request: UsbDeviceRequest) -> bool {
    request.request == USB_REQ_SET_INTERFACE && request.request_type
        == USB_REQUEST_TYPE_STANDARD_INTERFACE
}

/// `post` is `pre` with the interface switched to an alternate setting, as far as it
/// has that setting; the status says whether it has.
pub open spec fn setting_selected(
    pre: UsbBus,
    id: InterfaceId,
    alternate: u8,
    post: UsbBus,
    status: Status,
) -> bool {
    match pre.interface(id) {
        Some(i) => match i.if_desc {
            Some(before) => match first_index(before@.settings, is_alternate(alternate)) {
                Some(index) => {
                    &&& status == Status::Success
                    &&& post.interface(id) matches Some(j)
                    &&& pre.with_interface(id, Some(UsbInterface { if_desc: j.if_desc, ..i }), post)
                    &&& j.if_desc matches Some(after)
                    &&& after@ == with_setting(before@, index)
                },
                None => status == Status::NotFound && post == pre,
            },
            None => status == Status::NotFound && post == pre,
        },
        None => status == Status::NotFound && post == pre,
    }
}

fn select_setting(bus: &mut UsbBus, id: InterfaceId, alternate: u8) -> (r: Status)
    requires
        old(bus).wf(),
    ensures
        setting_selected(*old(bus), id, alternate, *final(bus), r),
        final(bus).wf(),
{
    match bus.get_interface(id) {
        Some(interface) => match &interface.if_desc {
            Some(desc) => match usb_find_setting(desc, alternate) {
                Some(_) => {},
                None => return Status::NotFound,
            },
            None => return Status::NotFound,
        },
        None => return Status::NotFound,
    }
    if let Some(device) = &mut bus.devices[id.device as usize] {
        if let Some(interface) = &mut device.interfaces[id.index as usize] {
            if let Some(desc) = &mut interface.if_desc {
                let _ = usb_select_setting(desc, alternate);
            }
        }
    }
    Status::Success
}

impl IoControlTransfer {
    pub open spec fn to(self, at: IoControlTransferAt) -> Frame {
        Frame::IoControlTransfer(IoControlTransfer { at, ..self })
    }

    /// The transfer that is asked for.
    pub open spec fn transfer(self, device: UsbDevice, direction: UsbDataDirection) -> UsbControlTransfer {
        UsbControlTransfer {
            address: device.address,
            speed: device.speed,
            max_packet: device.max_packet0 as usize,
            request: self.request,
            direction,
            length: self.data_length,
            timeout: self.timeout as usize,
            translator: device.translator,
        }
    }

    /// The interfaces of the new configuration are made, unless it is the
    /// unconfigured state.
    pub open spec fn selects(self, status: Status) -> Step {
        if self.request.value != 0 {
            Step::Call {
                callee: Frame::SelectConfig(
                    SelectConfig::start(self.interface.device, self.request.value as u8),
                ),
                next: self.to(IoControlTransferAt::Selected),
            }
        } else {
            Step::Done(Reply::Status(status))
        }
    }

    /// What follows a transfer that went well.
    pub open spec fn follows_up(
        self,
        pre: UsbBus,
        interface: UsbInterface,
        device: UsbDevice,
        status: Status,
        post: UsbBus,
        step: Step,
    ) -> bool {
        let done = Step::Done(Reply::Status(status));
        if clears_halt(self.request) {
            step == done && toggle_stored(pre, self.interface, self.request.index as u8, 0, post)
        } else if sets_config(self.request) {
            post == pre && step == (match device.active_config {
                Some(active) => if active.configuration_value == self.request.value {
                    done
                } else {
                    Step::Call {
                        callee: Frame::RemoveConfig(RemoveConfig::start(self.interface.device)),
                        next: self.to(IoControlTransferAt::Removed { status }),
                    }
                },
                None => self.selects(status),
            })
        } else if sets_interface(self.request) && (interface.setting() matches Some(setting)
            && setting.descriptor.interface_number == self.request.index) {
            step matches Step::Done(Reply::Status(selected)) && setting_selected(
                pre,
                self.interface,
                self.request.value as u8,
                post,
                selected,
            )
        } else {
            post == pre && step == done
        }
    }

    /// How the operation goes on after `reply`.
    pub open spec fn goes_on(self, pre: UsbBus, reply: Reply, post: UsbBus, step: Step) -> bool {
        let status = reply.as_status();
        match self.at {
            IoControlTransferAt::Start => post == pre && step == (match io_ready(pre, self.interface) {
                Err(refused) => Step::Done(Reply::Status(refused)),
                Ok((interface, device)) => match data_direction(self.direction) {
                    None => Step::Done(Reply::Status(Status::InvalidParameter)),
                    Some(direction) => Step::Act {
                        action: Action::CallerControlTransfer(self.transfer(device, direction)),
                        next: self.to(IoControlTransferAt::Answer),
                    },
                },
            }),
            IoControlTransferAt::Answer => match io_target(pre, self.interface) {
                None => post == pre && step == Step::Done(Reply::Status(Status::InvalidParameter)),
                Some((interface, device)) => if !status.fails() && self.direction != USB_IO_NO_DATA
                    && reply.as_length() != self.data_length {
                    post == pre && step == Step::Done(Reply::Status(Status::DeviceError))
                } else if status.fails() || reply.as_usb_result() != USB_IO_NOERROR {
                    post == pre && step == (match translator_action(pre, device, USB_ENDPOINT_CONTROL) {
                        Some(action) => Step::Act {
                            action,
                            next: self.to(IoControlTransferAt::Translated { status }),
                        },
                        None => Step::Done(Reply::Status(status)),
                    })
                } else {
                    self.follows_up(pre, interface, device, status, post, step)
                },
            },
            IoControlTransferAt::Translated { status } => post == pre && step == Step::Done(
                Reply::Status(status),
            ),
            IoControlTransferAt::Removed { status } => post == pre && step == self.selects(status),
            IoControlTransferAt::Selected => post == pre && step == Step::Done(Reply::Status(status)),
        }
    }

    fn select(self, status: Status) -> (step: Step)
        ensures
            step == self.selects(status),
    {
        if self.request.value != 0 {
            Step::Call {
                callee: Frame::SelectConfig(
                    SelectConfig::new(self.interface.device, self.request.value as u8),
                ),
                next: Frame::IoControlTransfer(
                    IoControlTransfer { at: IoControlTransferAt::Selected, ..self },
                ),
            }
        } else {
            Step::Done(Reply::Status(status))
        }
    }

    fn begin(self, bus: &UsbBus) -> (step: Step)
        requires
            bus.wf(),
            self.at == IoControlTransferAt::Start,
        ensures
            self.goes_on(*bus, Reply::Nothing, *bus, step),
    {
        let (_, device) = match find_ready(bus, self.interface) {
            Ok(found) => found,
            Err(refused) => return Step::Done(Reply::Status(refused)),
        };
        let direction = match self.direction {
            USB_IO_DATA_IN => UsbDataDirection::In,
            USB_IO_DATA_OUT => UsbDataDirection::Out,
            USB_IO_NO_DATA => UsbDataDirection::NoData,
            _ => return Step::Done(Reply::Status(Status::InvalidParameter)),
        };
        Step::Act {
            action: Action::CallerControlTransfer(
                UsbControlTransfer {
                    address: device.address,
                    speed: device.speed,
                    max_packet: device.max_packet0 as usize,
                    request: self.request,
                    direction,
                    length: self.data_length,
                    timeout: self.timeout as usize,
                    translator: device.translator,
                },
            ),
            next: Frame::IoControlTransfer(IoControlTransfer { at: IoControlTransferAt::Answer, ..self }),
        }
    }
}

/// Takes one step of a control transfer.
pub fn usb_io_control_transfer(bus: &mut UsbBus, run: IoControlTransfer, reply: Reply) -> (step: Step)
    requires
        old(bus).wf(),
    ensures
        run.goes_on(*old(bus), reply, *final(bus), step),
        final(bus).wf(),
{
    let status = reply.status();
    match run.at {
        IoControlTransferAt::Start => return run.begin(bus),
        IoControlTransferAt::Translated { status } => return Step::Done(Reply::Status(status)),
        IoControlTransferAt::Removed { status } => return run.select(status),
        IoControlTransferAt::Selected => return Step::Done(Reply::Status(status)),
        IoControlTransferAt::Answer => {},
    }
    let (interface, device) = match find_target(bus, run.interface) {
        Some(found) => found,
        None => return Step::Done(Reply::Status(Status::InvalidParameter)),
    };
    if !status.is_error() && run.direction != USB_IO_NO_DATA && reply.length() != run.data_length {
        return Step::Done(Reply::Status(Status::DeviceError));
    }
    if status.is_error() || reply.usb_result() != USB_IO_NOERROR {
        return match free_translator(bus, device, USB_ENDPOINT_CONTROL) {
            Some(action) => Step::Act {
                action,
                next: Frame::IoControlTransfer(
                    IoControlTransfer { at: IoControlTransferAt::Translated { status }, ..run },
                ),
            },
            None => Step::Done(Reply::Status(status)),
        };
    }
    let request = run.request;
    if request.request == USB_REQ_CLEAR_FEATURE && request.request_type
        == USB_REQUEST_TYPE_STANDARD_ENDPOINT && request.value == USB_FEATURE_ENDPOINT_HALT {
        store_toggle(bus, run.interface, request.index as u8, 0);
        return Step::Done(Reply::Status(status));
    }
    if request.request == USB_REQ_SET_CONFIG && request.request_type == USB_REQUEST_TYPE_STANDARD_DEVICE {
        return match device.active_config {
            Some(active) => if active.configuration_value as u16 == request.value {
                Step::Done(Reply::Status(status))
            } else {
                Step::Call {
                    callee: Frame::RemoveConfig(RemoveConfig::new(run.interface.device)),
                    next: Frame::IoControlTransfer(
                        IoControlTransfer { at: IoControlTransferAt::Removed { status }, ..run },
                    ),
                }
            },
            None => run.select(status),
        };
    }
    if request.request == USB_REQ_SET_INTERFACE && request.request_type
        == USB_REQUEST_TYPE_STANDARD_INTERFACE {
        let number: Option<u8> = match interface.get_setting() {
            Some(setting) => Some(setting.descriptor.interface_number),
            None => None,
        };
        if let Some(number) = number {
            if number as u16 == request.index {
                let selected = select_setting(bus, run.interface, request.value as u8);
                return Step::Done(Reply::Status(selected));
            }
        }
    }
    Step::Done(Reply::Status(status))
}

/// The control transfer that clears a feature through the services of an interface.
pub open spec fn clear_feature(interface: InterfaceId, target: usize, feature: u16, index: u16) -> IoControlTransfer {
    IoControlTransfer {
        interface,
        request: clear_feature_request(target, feature, index),
        direction: USB_IO_NO_DATA,
        timeout: USB_CLEAR_FEATURE_REQUEST_TIMEOUT,
        data_length: 0,
        at: IoControlTransferAt::Start,
    }
}

/// Builds the control transfer that clears a feature through the services of an
/// interface.
pub fn usb_io_clear_feature(interface: InterfaceId, target: usize, feature: u16, index: u16) -> (r:
    IoControlTransfer)
    ensures
        r == clear_feature(interface, target, feature, index),
{
    IoControlTransfer {
        interface,
        request: UsbDeviceRequest {
            request_type: usb_request_type(false, USB_REQ_TYPE_STANDARD, target),
            request: USB_REQ_CLEAR_FEATURE,
            value: feature,
            index,
            length: 0,
        },
        direction: USB_IO_NO_DATA,
        timeout: USB_CLEAR_FEATURE_REQUEST_TIMEOUT,
        data_length: 0,
        at: IoControlTransferAt::Start,
    }
}

/// The device and the endpoint of a transfer; or why the transfer is refused. The
/// endpoint has to be one of the interface, and of the right kind.
pub open spec fn io_endpoint(
    bus: UsbBus,
    id: InterfaceId,
    endpoint_address: u8,
    kind: u8,
    needs_connection: bool,
) -> Result<(UsbDevice, UsbEndpointDesc), Status> {
    let number = endpoint_address % 128;
    match io_target(bus, id) {
        Some((interface, device)) => if number == 0 || number > 15 {
            Err(Status::InvalidParameter)
        } else if needs_connection && !device.connected {
            Err(Status::DeviceError)
        } else {
            match interface.endpoint(endpoint_address) {
                Some(endpoint) => if endpoint.descriptor.attributes % 4 == kind {
                    Ok((device, endpoint))
                } else {
                    Err(Status::InvalidParameter)
                },
                None => Err(Status::InvalidParameter),
            }
        },
        None => Err(Status::InvalidParameter),
    }
}

fn find_endpoint(
    bus: &UsbBus,
    id: InterfaceId,
    endpoint_address: u8,
    kind: u8,
    needs_connection: bool,
) -> (r: Result<(&UsbDevice, UsbEndpointDesc), Status>)
    requires
        bus.wf(),
    ensures
        match r {
            Ok((d, e)) => io_endpoint(*bus, id, endpoint_address, kind, needs_connection) == Ok::<
                (UsbDevice, UsbEndpointDesc),
                Status,
            >((*d, e)),
            Err(s) => io_endpoint(*bus, id, endpoint_address, kind, needs_connection) == Err::<
                (UsbDevice, UsbEndpointDesc),
                Status,
            >(s),
        },
{
    let number: u8 = usb_endpoint_addr(endpoint_address);
    let (interface, device) = match find_target(bus, id) {
        Some(found) => found,
        None => return Err(Status::InvalidParameter),
    };
    if number == 0 || number > 15 {
        return Err(Status::InvalidParameter);
    }
    if needs_connection && !device.connected {
        return Err(Status::DeviceError);
    }
    match usb_get_endpoint_desc(interface, endpoint_address) {
        Some((_, endpoint)) => if usb_endpoint_type(endpoint.descriptor.attributes) == kind {
            Ok((device, endpoint))
        } else {
            Err(Status::InvalidParameter)
        },
        None => Err(Status::InvalidParameter),
    }
}

/// A bulk or synchronous interrupt transfer that a driver asked for.
#[derive(Clone, Copy, Debug)]
pub struct IoEndpointTransfer {
    pub interface: InterfaceId,
    pub endpoint: u8,
    pub timeout: usize,
    pub at: IoEndpointTransferAt,
}

#[derive(Clone, Copy, Debug, PartialEq, Eq, Structural)]
pub enum IoEndpointTransferAt {
    Start,
    Answer,
    Translated { status: Status },
}

impl IoEndpointTransfer {
    /// The transfer with the endpoint, with the toggle that it has reached.
    pub open spec fn transfer(self, device: UsbDevice, endpoint: UsbEndpointDesc) -> UsbEndpointTransfer {
        UsbEndpointTransfer {
            address: device.address,
            endpoint: self.endpoint,
            speed: device.speed,
            max_packet: endpoint.descriptor.max_packet_size as usize,
            toggle: endpoint.toggle,
            timeout: self.timeout,
            translator: device.translator,
        }
    }

    fn build(self, device: &UsbDevice, endpoint: UsbEndpointDesc) -> (r: UsbEndpointTransfer)
        ensures
            r == self.transfer(*device, endpoint),
    {
        UsbEndpointTransfer {
            address: device.address,
            endpoint: self.endpoint,
            speed: device.speed,
            max_packet: endpoint.descriptor.max_packet_size as usize,
            toggle: endpoint.toggle,
            timeout: self.timeout,
            translator: device.translator,
        }
    }

    /// How a bulk transfer goes on after `reply`. A transfer that failed frees the
    /// transaction translator of the device.
    pub open spec fn bulk_goes_on(self, pre: UsbBus, reply: Reply, post: UsbBus, step: Step) -> bool {
        let status = reply.as_status();
        match self.at {
            IoEndpointTransferAt::Start => post == pre && step == (match io_endpoint(
                pre,
                self.interface,
                self.endpoint,
                USB_ENDPOINT_BULK as u8,
                true,
            ) {
                Err(refused) => Step::Done(Reply::Status(refused)),
                Ok((device, endpoint)) => Step::Act {
                    action: Action::BulkTransfer(self.transfer(device, endpoint)),
                    next: Frame::IoBulkTransfer(
                        IoEndpointTransfer { at: IoEndpointTransferAt::Answer, ..self },
                    ),
                },
            }),
            IoEndpointTransferAt::Answer => match pre.device(self.interface.device) {
                None => post == pre && step == Step::Done(Reply::Status(status)),
                Some(device) => {
                    &&& toggle_stored(pre, self.interface, self.endpoint, reply.as_toggle(), post)
                    &&& step == (if status.fails() || reply.as_usb_result() != USB_IO_NOERROR {
                        match translator_action(pre, device, USB_ENDPOINT_BULK) {
                            Some(action) => Step::Act {
                                action,
                                next: Frame::IoBulkTransfer(
                                    IoEndpointTransfer {
                                        at: IoEndpointTransferAt::Translated { status },
                                        ..self
                                    },
                                ),
                            },
                            None => Step::Done(Reply::Status(status)),
                        }
                    } else {
                        Step::Done(Reply::Status(status))
                    })
                },
            },
            IoEndpointTransferAt::Translated { status } => post == pre && step == Step::Done(
                Reply::Status(status),
            ),
        }
    }

    /// How an interrupt transfer goes on after `reply`.
    pub open spec fn interrupt_goes_on(self, pre: UsbBus, reply: Reply, post: UsbBus, step: Step) -> bool {
        let status = reply.as_status();
        match self.at {
            IoEndpointTransferAt::Start => post == pre && step == (match io_endpoint(
                pre,
                self.interface,
                self.endpoint,
                USB_ENDPOINT_INTERRUPT,
                true,
            ) {
                Err(refused) => Step::Done(Reply::Status(refused)),
                Ok((device, endpoint)) => Step::Act {
                    action: Action::SyncInterruptTransfer(self.transfer(device, endpoint)),
                    next: Frame::IoSyncInterruptTransfer(
                        IoEndpointTransfer { at: IoEndpointTransferAt::Answer, ..self },
                    ),
                },
            }),
            _ => {
                &&& toggle_stored(pre, self.interface, self.endpoint, reply.as_toggle(), post)
                &&& step == Step::Done(Reply::Status(status))
            },
        }
    }
}

/// Takes one step of a bulk transfer.
pub fn usb_io_bulk_transfer(bus: &mut UsbBus, run: IoEndpointTransfer, reply: Reply) -> (step: Step)
    requires
        old(bus).wf(),
    ensures
        run.bulk_goes_on(*old(bus), reply, *final(bus), step),
        final(bus).wf(),
{
    let status = reply.status();
    match run.at {
        IoEndpointTransferAt::Start => match find_endpoint(
            bus,
            run.interface,
            run.endpoint,
            USB_ENDPOINT_BULK as u8,
            true,
        ) {
            Err(refused) => Step::Done(Reply::Status(refused)),
            Ok((device, endpoint)) => Step::Act {
                action: Action::BulkTransfer(run.build(device, endpoint)),
                next: Frame::IoBulkTransfer(
                    IoEndpointTransfer { at: IoEndpointTransferAt::Answer, ..run },
                ),
            },
        },
        IoEndpointTransferAt::Answer => {
            let translator = match bus.get_device(run.interface.device) {
                Some(device) => free_translator(bus, device, USB_ENDPOINT_BULK),
                None => return Step::Done(Reply::Status(status)),
            };
            store_toggle(bus, run.interface, run.endpoint, reply.toggle());
            if status.is_error() || reply.usb_result() != USB_IO_NOERROR {
                if let Some(action) = translator {
                    return Step::Act {
                        action,
                        next: Frame::IoBulkTransfer(
                            IoEndpointTransfer { at: IoEndpointTransferAt::Translated { status }, ..run },
                        ),
                    };
                }
            }
            Step::Done(Reply::Status(status))
        },
        IoEndpointTransferAt::Translated { status } => Step::Done(Reply::Status(status)),
    }
}

/// Takes one step of a synchronous interrupt transfer.
pub fn usb_io_sync_interrupt_transfer(bus: &mut UsbBus, run: IoEndpointTransfer, reply: Reply) -> (step:
    Step)
    requires
        old(bus).wf(),
    ensures
        run.interrupt_goes_on(*old(bus), reply, *final(bus), step),
        final(bus).wf(),
{
    let status = reply.status();
    match run.at {
        IoEndpointTransferAt::Start => match find_endpoint(
            bus,
            run.interface,
            run.endpoint,
            USB_ENDPOINT_INTERRUPT,
            true,
        ) {
            Err(refused) => Step::Done(Reply::Status(refused)),
            Ok((device, endpoint)) => Step::Act {
                action: Action::SyncInterruptTransfer(run.build(device, endpoint)),
                next: Frame::IoSyncInterruptTransfer(
                    IoEndpointTransfer { at: IoEndpointTransferAt::Answer, ..run },
                ),
            },
        },
        _ => {
            store_toggle(bus, run.interface, run.endpoint, reply.toggle());
            Step::Done(Reply::Status(status))
        },
    }
}

/// An asynchronous interrupt transfer that is queued, or taken off the queue.
#[derive(Clone, Copy, Debug)]
pub struct IoAsyncInterruptTransfer {
    pub interface: InterfaceId,
    pub endpoint: u8,
    pub is_new_transfer: bool,
    pub polling_interval: usize,
    pub data_length: usize,
    pub callback: AsyncCallback,
    pub asked: bool,
}

impl IoAsyncInterruptTransfer {
    /// How the operation goes on after `reply`. A device that is gone can still have
    /// its transfers taken off the queue.
    pub open spec fn goes_on(self, pre: UsbBus, reply: Reply, post: UsbBus, step: Step) -> bool {
        if !self.asked {
            post == pre && step == (match io_endpoint(
                pre,
                self.interface,
                self.endpoint,
                USB_ENDPOINT_INTERRUPT,
                self.is_new_transfer,
            ) {
                Err(refused) => Step::Done(Reply::Status(refused)),
                Ok((device, endpoint)) => Step::Act {
                    action: Action::AsyncInterruptTransfer(
                        AsyncTransfer {
                            address: device.address,
                            endpoint: self.endpoint,
                            speed: device.speed,
                            max_packet: endpoint.descriptor.max_packet_size as usize,
                            is_new_transfer: self.is_new_transfer,
                            toggle: endpoint.toggle,
                            polling_interval: self.polling_interval,
                            length: self.data_length,
                            translator: device.translator,
                            callback: self.callback,
                        },
                    ),
                    next: Frame::IoAsyncInterruptTransfer(
                        IoAsyncInterruptTransfer { asked: true, ..self },
                    ),
                },
            })
        } else {
            &&& toggle_stored(pre, self.interface, self.endpoint, reply.as_toggle(), post)
            &&& step == Step::Done(Reply::Status(reply.as_status()))
        }
    }
}

/// Takes one step of queueing an interrupt transfer, or of taking it off the queue.
pub fn usb_io_async_interrupt_transfer(
    bus: &mut UsbBus,
    run: IoAsyncInterruptTransfer,
    reply: Reply,
) -> (step: Step)
    requires
        old(bus).wf(),
    ensures
        run.goes_on(*old(bus), reply, *final(bus), step),
        final(bus).wf(),
{
    if run.asked {
        store_toggle(bus, run.interface, run.endpoint, reply.toggle());
        return Step::Done(Reply::Status(reply.status()));
    }
    match find_endpoint(
        bus,
        run.interface,
        run.endpoint,
        USB_ENDPOINT_INTERRUPT,
        run.is_new_transfer,
    ) {
        Err(refused) => Step::Done(Reply::Status(refused)),
        Ok((device, endpoint)) => Step::Act {
            action: Action::AsyncInterruptTransfer(
                AsyncTransfer {
                    address: device.address,
                    endpoint: run.endpoint,
                    speed: device.speed,
                    max_packet: endpoint.descriptor.max_packet_size as usize,
                    is_new_transfer: run.is_new_transfer,
                    toggle: endpoint.toggle,
                    polling_interval: run.polling_interval,
                    length: run.data_length,
                    translator: device.translator,
                    callback: run.callback,
                },
            ),
            next: Frame::IoAsyncInterruptTransfer(IoAsyncInterruptTransfer { asked: true, ..run }),
        },
    }
}

/// Isochronous transfers are not supported.
pub fn usb_io_isochronous_transfer() -> (r: Status)
    ensures
        r == Status::Unsupported,
{
    Status::Unsupported
}

/// Asynchronous isochronous transfers are not supported.
pub fn usb_io_async_isochronous_transfer() -> (r: Status)
    ensures
        r == Status::Unsupported,
{
    Status::Unsupported
}

/// Returns the device descriptor.
pub fn usb_io_get_device_descriptor(bus: &UsbBus, interface: InterfaceId) -> (r: Result<
    DeviceDescriptor,
    Status,
>)
    requires
        bus.wf(),
    ensures
        r == (match io_ready(*bus, interface) {
            Err(refused) => Err(refused),
            Ok((_, device)) => match device.dev_desc {
                Some(desc) => Ok(desc.descriptor),
                None => Err(Status::NotFound),
            },
        }),
{
    match find_ready(bus, interface) {
        Err(refused) => Err(refused),
        Ok((_, device)) => match &device.dev_desc {
            Some(desc) => Ok(desc.descriptor),
            None => Err(Status::NotFound),
        },
    }
}

/// Returns the descriptor of the active configuration.
pub fn usb_io_get_config_descriptor(bus: &UsbBus, interface: InterfaceId) -> (r: Result<
    ConfigDescriptor,
    Status,
>)
    requires
        bus.wf(),
    ensures
        r == (match io_ready(*bus, interface) {
            Err(refused) => Err(refused),
            Ok((_, device)) => match device.active_config {
                Some(config) => Ok(config),
                None => Err(Status::NotFound),
            },
        }),
{
    match find_ready(bus, interface) {
        Err(refused) => Err(refused),
        Ok((_, device)) => match device.active_config {
            Some(config) => Ok(config),
            None => Err(Status::NotFound),
        },
    }
}

/// The active setting of an interface; or why the request is refused.
pub open spec fn io_setting(bus: UsbBus, id: InterfaceId) -> Result<SettingView, Status> {
    match io_target(bus, id) {
        None => Err(Status::InvalidParameter),
        Some((interface, device)) => match interface.setting() {
            None => Err(Status::InvalidParameter),
            Some(setting) => if device.connected {
                Ok(setting)
            } else {
                Err(Status::DeviceError)
            },
        },
    }
}

fn find_setting(bus: &UsbBus, id: InterfaceId) -> (r: Result<&UsbInterfaceSetting, Status>)
    requires
        bus.wf(),
    ensures
        match r {
            Ok(setting) => io_setting(*bus, id) == Ok::<SettingView, Status>(setting@),
            Err(s) => io_setting(*bus, id) == Err::<SettingView, Status>(s),
        },
{
    match find_target(bus, id) {
        None => Err(Status::InvalidParameter),
        Some((interface, device)) => match interface.get_setting() {
            None => Err(Status::InvalidParameter),
            Some(setting) => if device.connected {
                Ok(setting)
            } else {
                Err(Status::DeviceError)
            },
        },
    }
}

/// Returns the descriptor of the active setting.
pub fn usb_io_get_interface_descriptor(bus: &UsbBus, interface: InterfaceId) -> (r: Result<
    InterfaceDescriptor,
    Status,
>)
    requires
        bus.wf(),
    ensures
        r == (match io_setting(*bus, interface) {
            Err(refused) => Err(refused),
            Ok(setting) => Ok(setting.descriptor),
        }),
{
    match find_setting(bus, interface) {
        Err(refused) => Err(refused),
        Ok(setting) => Ok(setting.descriptor),
    }
}

/// Returns the descriptor of an endpoint of the active setting.
pub fn usb_io_get_endpoint_descriptor(bus: &UsbBus, interface: InterfaceId, index: u8) -> (r: Result<
    EndpointDescriptor,
    Status,
>)
    requires
        bus.wf(),
    ensures
        r == (match io_setting(*bus, interface) {
            Err(refused) => Err(refused),
            Ok(setting) => if index > 15 {
                Err(Status::InvalidParameter)
            } else if index >= setting.endpoints.len() {
                Err(Status::NotFound)
            } else {
                match setting.endpoints[index as int] {
                    Some(endpoint) => Ok(endpoint.descriptor),
                    None => Err(Status::NotFound),
                }
            },
        }),
{
    match find_setting(bus, interface) {
        Err(refused) => Err(refused),
        Ok(setting) => {
            if index > 15 {
                return Err(Status::InvalidParameter);
            }
            if index as usize >= setting.endpoints.len() {
                return Err(Status::NotFound);
            }
            match setting.endpoints[index as usize] {
                Some(endpoint) => Ok(endpoint.descriptor),
                None => Err(Status::NotFound),
            }
        },
    }
}

/// Returns the language table of a device and its size in bytes.
pub fn usb_io_get_supported_languages(bus: &UsbBus, interface: InterfaceId) -> (r: Result<
    ([u16; 16], u16),
    Status,
>)
    requires
        bus.wf(),
    ensures
        r == (match io_ready(*bus, interface) {
            Err(refused) => Err(refused),
            Ok((_, device)) => Ok(
                (
                    device.lang_id,
                    if device.total_lang_id > u16::MAX / 2 {
                        u16::MAX
                    } else {
                        (2 * device.total_lang_id) as u16
                    },
                ),
            ),
        }),
{
    match find_ready(bus, interface) {
        Err(refused) => Err(refused),
        Ok((_, device)) => {
            let size: u16 = if device.total_lang_id > u16::MAX / 2 {
                u16::MAX
            } else {
                2 * device.total_lang_id
            };
            Ok((device.lang_id, size))
        },
    }
}

/// Reads a string of a device in one of its languages, with a terminating zero.
#[derive(Clone, Copy, Debug)]
pub struct IoGetStringDescriptor {
    pub interface: InterfaceId,
    pub language_id: u16,
    pub string_index: u8,
    pub asked: bool,
}

/// A device has strings in a language.
pub open spec fn speaks(device: UsbDevice, language_id: u16) -> bool {
    exists|i: int|
        0 <= i < device.total_lang_id && i < USB_MAX_LANG_ID && #[trigger] device.lang_id@[i] == language_id
}

fn does_speak(device: &UsbDevice, language_id: u16) -> (r: bool)
    ensures
        r == speaks(*device, language_id),
{
    let mut i: usize = 0;
    while i < USB_MAX_LANG_ID && i < device.total_lang_id as usize
        invariant
            forall|j: int| 0 <= j < i && j < USB_MAX_LANG_ID ==> #[trigger] device.lang_id@[j] != language_id,
        decreases USB_MAX_LANG_ID - i,
    {
        if device.lang_id[i] == language_id {
            assert(device.lang_id@[i as int] == language_id);
            return true;
        }
        i = i + 1;
    }
    false
}

impl IoGetStringDescriptor {
    /// How the operation goes on after `reply`.
    pub open spec fn goes_on(self, bus: UsbBus, reply: Reply, step: Step) -> bool {
        if !self.asked {
            step == (if self.string_index == 0 || self.language_id == 0 {
                Step::Done(Reply::Status(Status::NotFound))
            } else {
                match io_ready(bus, self.interface) {
                    Err(refused) => Step::Done(Reply::Status(refused)),
                    Ok((_, device)) => if !speaks(device, self.language_id) {
                        Step::Done(Reply::Status(Status::NotFound))
                    } else {
                        Step::Call {
                            callee: Frame::GetOneString(
                                GetOneString::start(
                                    self.interface.device,
                                    self.string_index,
                                    self.language_id,
                                ),
                            ),
                            next: Frame::IoGetStringDescriptor(
                                IoGetStringDescriptor { asked: true, ..self },
                            ),
                        }
                    },
                }
            })
        } else {
            match reply.as_text() {
                Some(text) if text.len() > 0 => step matches Step::Done(answer) && answer.as_text()
                    == Some(text.push(0)),
                _ => step == Step::Done(Reply::Status(Status::NotFound)),
            }
        }
    }
}

/// Takes one step of reading a string of a device.
pub fn usb_io_get_string_descriptor(bus: &UsbBus, run: IoGetStringDescriptor, reply: Reply) -> (step: Step)
    requires
        bus.wf(),
    ensures
        run.goes_on(*bus, reply, step),
{
    if run.asked {
        return match reply.into_text() {
            Some(text) => {
                if text.len() == 0 {
                    return Step::Done(Reply::Status(Status::NotFound));
                }
                let mut text = text;
                text.push(0);
                Step::Done(Reply::Text(Some(text)))
            },
            None => Step::Done(Reply::Status(Status::NotFound)),
        };
    }
    if run.string_index == 0 || run.language_id == 0 {
        return Step::Done(Reply::Status(Status::NotFound));
    }
    match find_ready(bus, run.interface) {
        Err(refused) => Step::Done(Reply::Status(refused)),
        Ok((_, device)) => {
            if !does_speak(device, run.language_id) {
                return Step::Done(Reply::Status(Status::NotFound));
            }
            Step::Call {
                callee: Frame::GetOneString(
                    GetOneString::new(run.interface.device, run.string_index, run.language_id),
                ),
                next: Frame::IoGetStringDescriptor(IoGetStringDescriptor { asked: true, ..run }),
            }
        },
    }
}

/// Resets the port that a device hangs on, and brings the device back to its address.
/// A configured device has its descriptors read and its interfaces made anew.
#[derive(Clone, Copy, Debug)]
pub struct IoPortReset {
    pub interface: InterfaceId,
    pub at: IoPortResetAt,
}

#[derive(Clone, Copy, Debug)]
pub enum IoPortResetAt {
    Start,
    Reset { parent: InterfaceId, api: UsbHubApi },
    Cleared,
    Addressed,
    Settled { status: Status },
    Updated { status: Status },
    Removed,
    Sized,
    Built,
    Configured { value: u8 },
    Selected,
}

/// The hub that a device hangs on and the port operations that it answers to.
pub open spec fn parent_hub(bus: UsbBus, device: UsbDevice) -> Option<(InterfaceId, UsbHubApi)> {
    match device.parent_if {
        Some(parent) => match bus.interface(parent) {
            Some(hub) => match hub.hub_api {
                Some(api) => Some((parent, api)),
                None => None,
            },
            None => None,
        },
        None => None,
    }
}

fn find_parent_hub(bus: &UsbBus, device: &UsbDevice) -> (r: Option<(InterfaceId, UsbHubApi)>)
    requires
        bus.wf(),
    ensures
        r == parent_hub(*bus, *device),
{
    match device.parent_if {
        Some(parent) => match bus.get_interface(parent) {
            Some(hub) => match hub.hub_api {
                Some(api) => Some((parent, api)),
                None => None,
            },
            None => None,
        },
        None => None,
    }
}

impl IoPortReset {
    pub open spec fn to(self, at: IoPortResetAt) -> Frame {
        Frame::IoPortReset(IoPortReset { at, ..self })
    }

    /// How the operation goes on after `reply`.
    pub open spec fn goes_on(self, pre: UsbBus, reply: Reply, post: UsbBus, step: Step) -> bool {
        let status = reply.as_status();
        let address = self.interface.device;
        let failed = Step::Done(Reply::Status(status));
        let invalid = Step::Done(Reply::Status(Status::InvalidParameter));
        match pre.device(address) {
            None => post == pre && step == invalid,
            Some(d) => match self.at {
                IoPortResetAt::Start => post == pre && step == (match io_ready(pre, self.interface) {
                    Err(refused) => Step::Done(Reply::Status(refused)),
                    Ok((interface, device)) => match parent_hub(pre, device) {
                        Some((parent, api)) if !interface.is_hub => Step::Call {
                            callee: port_reset(api, parent, device.parent_port),
                            next: self.to(IoPortResetAt::Reset { parent, api }),
                        },
                        _ => invalid,
                    },
                }),
                IoPortResetAt::Reset { parent, api } => post == pre && step == (if status.fails() {
                    failed
                } else {
                    Step::Call {
                        callee: ClearPortChange::start(parent, d.parent_port).of(api),
                        next: self.to(IoPortResetAt::Cleared),
                    }
                }),
                IoPortResetAt::Cleared => post == pre && step == (Step::Act {
                    action: Action::ControlTransfer(
                        set_address_request(UsbDevice { address: 0, ..d }, address),
                    ),
                    next: self.to(IoPortResetAt::Addressed),
                }),
                IoPortResetAt::Addressed => post == pre && step == (Step::Act {
                    action: Action::Stall { micros: USB_SET_DEVICE_ADDRESS_STALL },
                    next: self.to(IoPortResetAt::Settled { status }),
                }),
                IoPortResetAt::Settled { status } => post == pre && step == (if status.fails() {
                    Step::Done(Reply::Status(status))
                } else {
                    Step::Call {
                        callee: Frame::UpdateDescriptors(UpdateDescriptors::start(address)),
                        next: self.to(IoPortResetAt::Updated { status }),
                    }
                }),
                IoPortResetAt::Updated { status } => if d.active_config is None {
                    post == pre && step == Step::Done(Reply::Status(status))
                } else {
                    &&& pre.with_device(address, Some(UsbDevice { dev_desc: None, ..d }), post)
                    &&& step == (Step::Call {
                        callee: Frame::RemoveConfig(RemoveConfig::start(address)),
                        next: self.to(IoPortResetAt::Removed),
                    })
                },
                IoPortResetAt::Removed => post == pre && step == (Step::Call {
                    callee: Frame::GetMaxPacketSize0(GetMaxPacketSize0::start(address)),
                    next: self.to(IoPortResetAt::Sized),
                }),
                IoPortResetAt::Sized => {
                    &&& post == pre
                    &&& step matches Step::Call { callee: Frame::BuildDescTable(callee), next }
                    &&& callee.is_start(address)
                    &&& next == self.to(IoPortResetAt::Built)
                },
                IoPortResetAt::Built => post == pre && step == (if status.fails() {
                    failed
                } else {
                    match first_config_value(d) {
                        None => Step::Done(Reply::Status(Status::DeviceError)),
                        Some(value) => Step::Act {
                            action: Action::ControlTransfer(set_config_request(d, value)),
                            next: self.to(IoPortResetAt::Configured { value }),
                        },
                    }
                }),
                IoPortResetAt::Configured { value } => post == pre && step == (Step::Call {
                    callee: Frame::SelectConfig(SelectConfig::start(address, value)),
                    next: self.to(IoPortResetAt::Selected),
                }),
                IoPortResetAt::Selected => post == pre && step == failed,
            },
        }
    }
}

/// Takes one step of resetting the port of a device.
pub fn usb_io_port_reset(bus: &mut UsbBus, run: IoPortReset, reply: Reply) -> (step: Step)
    requires
        old(bus).wf(),
    ensures
        run.goes_on(*old(bus), reply, *final(bus), step),
        final(bus).wf(),
{
    let address: u8 = run.interface.device;
    let d = match bus.get_device(address) {
        Some(d) => d,
        None => return Step::Done(Reply::Status(Status::InvalidParameter)),
    };
    let status = reply.status();
    match run.at {
        IoPortResetAt::Start => match find_ready(bus, run.interface) {
            Err(refused) => Step::Done(Reply::Status(refused)),
            Ok((interface, device)) => {
                if interface.is_hub {
                    return Step::Done(Reply::Status(Status::InvalidParameter));
                }
                match find_parent_hub(bus, device) {
                    Some((parent, api)) => Step::Call {
                        callee: reset_port(api, parent, device.parent_port),
                        next: Frame::IoPortReset(
                            IoPortReset { at: IoPortResetAt::Reset { parent, api }, ..run },
                        ),
                    },
                    None => Step::Done(Reply::Status(Status::InvalidParameter)),
                }
            },
        },
        IoPortResetAt::Reset { parent, api } => {
            if status.is_error() {
                return Step::Done(Reply::Status(status));
            }
            Step::Call {
                callee: ClearPortChange::new(parent, d.parent_port).frame(api),
                next: Frame::IoPortReset(IoPortReset { at: IoPortResetAt::Cleared, ..run }),
            }
        },
        IoPortResetAt::Cleared => {
            let mut transfer = usb_set_address(d, address);
            transfer.address = 0;
            Step::Act {
                action: Action::ControlTransfer(transfer),
                next: Frame::IoPortReset(IoPortReset { at: IoPortResetAt::Addressed, ..run }),
            }
        },
        IoPortResetAt::Addressed => Step::Act {
            action: Action::Stall { micros: USB_SET_DEVICE_ADDRESS_STALL },
            next: Frame::IoPortReset(IoPortReset { at: IoPortResetAt::Settled { status }, ..run }),
        },
        IoPortResetAt::Settled { status } => {
            if status.is_error() {
                return Step::Done(Reply::Status(status));
            }
            Step::Call {
                callee: Frame::UpdateDescriptors(UpdateDescriptors::new(address)),
                next: Frame::IoPortReset(IoPortReset { at: IoPortResetAt::Updated { status }, ..run }),
            }
        },
        IoPortResetAt::Updated { status } => {
            if d.active_config.is_none() {
                return Step::Done(Reply::Status(status));
            }
            if let Some(d) = &mut bus.devices[address as usize] {
                d.dev_desc = None;
            }
            Step::Call {
                callee: Frame::RemoveConfig(RemoveConfig::new(address)),
                next: Frame::IoPortReset(IoPortReset { at: IoPortResetAt::Removed, ..run }),
            }
        },
        IoPortResetAt::Removed => Step::Call {
            callee: Frame::GetMaxPacketSize0(GetMaxPacketSize0::new(address)),
            next: Frame::IoPortReset(IoPortReset { at: IoPortResetAt::Sized, ..run }),
        },
        IoPortResetAt::Sized => Step::Call {
            callee: Frame::BuildDescTable(BuildDescTable::new(address)),
            next: Frame::IoPortReset(IoPortReset { at: IoPortResetAt::Built, ..run }),
        },
        IoPortResetAt::Built => {
            if status.is_error() {
                return Step::Done(Reply::Status(status));
            }
            match find_first_config(d) {
                None => Step::Done(Reply::Status(Status::DeviceError)),
                Some(value) => Step::Act {
                    action: Action::ControlTransfer(usb_set_config(d, value)),
                    next: Frame::IoPortReset(
                        IoPortReset { at: IoPortResetAt::Configured { value }, ..run },
                    ),
                },
            }
        },
        IoPortResetAt::Configured { value } => Step::Call {
            callee: Frame::SelectConfig(SelectConfig::new(address, value)),
            next: Frame::IoPortReset(IoPortReset { at: IoPortResetAt::Selected, ..run }),
        },
        IoPortResetAt::Selected => Step::Done(Reply::Status(status)),
    }
}

/// A device that is not connected gets no transfers: each is refused at once, and
/// nothing changes. Only taking a transfer off the queue is still possible.
pub proof fn a_disconnected_device_gets_no_transfers(
    pre: UsbBus,
    id: InterfaceId,
    control: IoControlTransfer,
    transfer: IoEndpointTransfer,
    queued: IoAsyncInterruptTransfer,
    reply: Reply,
    post: UsbBus,
    step: Step,
)
    requires
        io_target(pre, id) matches Some((_, device)) && !device.connected,
        control.interface == id && control.at == IoControlTransferAt::Start,
        transfer.interface == id && transfer.at == IoEndpointTransferAt::Start,
        queued.interface == id && !queued.asked && queued.is_new_transfer,
    ensures
        control.goes_on(pre, reply, post, step) ==> post == pre && step == Step::Done(
            Reply::Status(Status::DeviceError),
        ),
        transfer.bulk_goes_on(pre, reply, post, step) || transfer.interrupt_goes_on(pre, reply, post, step)
            || queued.goes_on(pre, reply, post, step) ==> post == pre && (step == Step::Done(
            Reply::Status(Status::DeviceError),
        ) || step == Step::Done(Reply::Status(Status::InvalidParameter))),
{
}

/// The data toggle that a transfer left is the one with which the next transfer with
/// the same endpoint starts.
pub proof fn a_stored_toggle_is_used_next(
    pre: UsbBus,
    id: InterfaceId,
    endpoint_address: u8,
    toggle: u8,
    post: UsbBus,
)
    requires
        pre.wf(),
        toggle_stored(pre, id, endpoint_address, toggle, post),
        pre.interface(id) matches Some(i) && i.endpoint(endpoint_address) is Some,
    ensures
        post.interface(id) matches Some(j) && j.endpoint_slot(endpoint_address) == pre.interface(
            id,
        )->0.endpoint_slot(endpoint_address) && j.endpoint(endpoint_address) == Some(
            UsbEndpointDesc { toggle, ..pre.interface(id)->0.endpoint(endpoint_address)->0 },
        ),
{
    let i = pre.interface(id)->0;
    let j = post.interface(id)->0;
    let p = has_address(endpoint_address);
    let before = i.setting()->0.endpoints;
    let slot = i.endpoint_slot(endpoint_address)->0;
    let desc = i.if_desc->0;
    let next = j.if_desc->0;
    first_index_is_first(before, p);
    assert(desc@.settings[desc@.active_index] == i.setting()->0);
    let after = next@.settings[next@.active_index].endpoints;
    assert(after == before.update(slot, after[slot]));
    assert(next@.settings.len() == next.settings@.len());
    assert(next.settings@[next.active_index as int]@ == next@.settings[next@.active_index]);
    assert(j.setting() == Some(next@.settings[next@.active_index]));
    lemma_first_index_found(after, p, slot);
}

/// After an interface was switched to a setting, that setting is in use and its data
/// toggles start at zero.
pub proof fn a_selected_setting_is_in_use(pre: UsbBus, id: InterfaceId, alternate: u8, post: UsbBus)
    requires
        setting_selected(pre, id, alternate, post, Status::Success),
    ensures
        post.interface(id) matches Some(j) && j.setting() matches Some(setting)
            && setting.descriptor.alternate_setting == alternate && forall|k: int|
            0 <= k < setting.endpoints.len() ==> (#[trigger] setting.endpoints[k] matches Some(endpoint)
                ==> endpoint.toggle == 0),
{
    let i = pre.interface(id)->0;
    let j = post.interface(id)->0;
    let before = i.if_desc->0;
    let after = j.if_desc->0;
    first_index_is_first(before@.settings, is_alternate(alternate));
    assert(after@.settings.len() == after.settings@.len());
    assert(after.settings@[after.active_index as int]@ == after@.settings[after@.active_index]);
}

} // verus!
