//! Hubs: the class requests of hub devices, and the ports of hub devices and of the
//! root hub.

use crate::task::Action;
use crate::usb_2_host_controller::{
    UsbControlTransfer, UsbDataDirection, UsbPortFeature, EFI_USB_SPEED_SUPER,
};
use crate::usb_bus_defs::{InterfaceId, UsbBus, UsbDevice, UsbHubApi, UsbInterface};
use crate::usb_control::{ctrl_request, usb_ctrl_request};
use vstd::prelude::*;

verus! {

pub const USB_ENDPOINT_ADDR_MASK: u8 = 0x7f;

pub const USB_ENDPOINT_TYPE_MASK: u8 = 0x03;

pub const USB_DESC_TYPE_HUB: u8 = 0x29;

pub const USB_DESC_TYPE_HUB_SUPER_SPEED: u8 = 0x2a;

pub const USB_HUB_TARGET_HUB: usize = 0;

pub const USB_HUB_TARGET_PORT: usize = 3;

pub const USB_HUB_REQ_GET_STATUS: u8 = 0;

pub const USB_HUB_REQ_CLEAR_FEATURE: u8 = 1;

pub const USB_HUB_REQ_SET_FEATURE: u8 = 3;

pub const USB_HUB_REQ_GET_DESC: u8 = 6;

pub const USB_HUB_REQ_SET_DESC: u8 = 7;

pub const USB_HUB_REQ_CLEAR_TT: u8 = 8;

pub const USB_HUB_REQ_RESET_TT: u8 = 9;

pub const USB_HUB_REQ_GET_TT_STATE: u8 = 10;

pub const USB_HUB_REQ_STOP_TT: u8 = 11;

pub const USB_HUB_REQ_SET_DEPTH: u8 = 12;

pub const USB_HUB_C_HUB_LOCAL_POWER: u16 = 0;

pub const USB_HUB_C_HUB_OVER_CURRENT: u16 = 1;

pub const USB_HUB_PORT_CONNECTION: u16 = 0;

pub const USB_HUB_PORT_ENABLE: u16 = 1;

pub const USB_HUB_PORT_SUSPEND: u16 = 2;

pub const USB_HUB_PORT_OVER_CURRENT: u16 = 3;

pub const USB_HUB_PORT_RESET: u16 = 4;

pub const USB_HUB_PORT_LINK_STATE: u16 = 5;

pub const USB_HUB_PORT_POWER: u16 = 8;

pub const USB_HUB_PORT_LOW_SPEED: u16 = 9;

pub const USB_HUB_C_PORT_CONNECT: u16 = 16;

pub const USB_HUB_C_PORT_ENABLE: u16 = 17;

pub const USB_HUB_C_PORT_SUSPEND: u16 = 18;

pub const USB_HUB_C_PORT_OVER_CURRENT: u16 = 19;

pub const USB_HUB_C_PORT_RESET: u16 = 20;

pub const USB_HUB_PORT_TEST: u16 = 21;

pub const USB_HUB_PORT_INDICATOR: u16 = 22;

pub const USB_HUB_C_PORT_LINK_STATE: u16 = 25;

pub const USB_HUB_PORT_REMOTE_WAKE_MASK: u16 = 27;

pub const USB_HUB_BH_PORT_RESET: u16 = 28;

pub const USB_HUB_C_BH_PORT_RESET: u16 = 29;

pub const USB_SS_PORT_STAT_C_BH_RESET: u16 = 0x0020;

pub const USB_SS_PORT_STAT_C_PORT_LINK_STATE: u16 = 0x0040;

pub const USB_HUB_GANG_POWER_CTRL: u8 = 0;

pub const USB_HUB_PORT_POWER_CTRL: u8 = 1;

pub const USB_HUB_STAT_LOCAL_POWER: u8 = 0x01;

pub const USB_HUB_STAT_OVER_CURRENT: u8 = 0x02;

pub const USB_HUB_STAT_C_LOCAL_POWER: u8 = 0x01;

pub const USB_HUB_STAT_C_OVER_CURRENT: u8 = 0x02;

pub const USB_HUB_CLASS_CODE: u8 = 0x09;

pub const USB_HUB_SUBCLASS_CODE: u8 = 0x00;

/// How often the status of a port in reset is looked at.
pub const USB_WAIT_PORT_STS_CHANGE_LOOP: usize = 5000;

pub const USB_REQ_TYPE_CLASS: usize = 0x20;

/// Transfer type of an interrupt endpoint.
pub const USB_ENDPOINT_INTERRUPT: u8 = 3;

/// Returns the endpoint number without its direction bit.
pub fn usb_endpoint_addr(endpoint_address: u8) -> (r: u8)
    ensures
        r == endpoint_address % 128,
{
    assert(endpoint_address & 0x7f == endpoint_address % 128) by (bit_vector);
    endpoint_address & USB_ENDPOINT_ADDR_MASK
}

/// Returns the transfer type from the attributes of an endpoint.
pub fn usb_endpoint_type(attributes: u8) -> (r: u8)
    ensures
        r == attributes % 4,
{
    assert(attributes & 0x03 == attributes % 4) by (bit_vector);
    attributes & USB_ENDPOINT_TYPE_MASK
}

/// The fixed part of a hub descriptor.
#[derive(Clone, Copy, Debug, Default)]
pub struct UsbHubDescriptor {
    pub length: u8,
    pub descriptor_type: u8,
    pub num_ports: u8,
    pub hub_character: u16,
    pub power_on_to_power_good: u8,
    pub hub_controller_current: u8,
    pub filler: [u8; 16],
}

/// A change bit of a port and the feature that acknowledges it.
#[derive(Clone, Copy, Debug, PartialEq, Eq, Structural)]
pub struct UsbChangeFeatureMap {
    pub changed_bit: u16,
    pub feature: UsbPortFeature,
}

/// A class request of a hub.
pub open spec fn hub_request(
    hub: UsbDevice,
    direction: UsbDataDirection,
    target: usize,
    request: u8,
    value: u16,
    index: u16,
    length: usize,
) -> UsbControlTransfer {
    ctrl_request(hub, direction, USB_REQ_TYPE_CLASS, target, request as usize, value, index, length)
}

/// Builds the request that tells a SuperSpeed hub its depth.
pub fn usb_hub_ctrl_set_hub_depth(hub: &UsbDevice, depth: u16) -> (r: UsbControlTransfer)
    ensures
        r == hub_request(
            *hub,
            UsbDataDirection::NoData,
            USB_HUB_TARGET_HUB,
            USB_HUB_REQ_SET_DEPTH,
            depth,
            0,
            0,
        ),
{
    usb_ctrl_request(
        hub,
        UsbDataDirection::NoData,
        USB_REQ_TYPE_CLASS,
        USB_HUB_TARGET_HUB,
        USB_HUB_REQ_SET_DEPTH as usize,
        depth,
        0,
        0,
    )
}

/// Builds the request that clears a feature of the hub.
pub fn usb_hub_ctrl_clear_hub_feature(hub: &UsbDevice, feature: u16) -> (r: UsbControlTransfer)
    ensures
        r == hub_request(
            *hub,
            UsbDataDirection::NoData,
            USB_HUB_TARGET_HUB,
            USB_HUB_REQ_CLEAR_FEATURE,
            feature,
            0,
            0,
        ),
{
    usb_ctrl_request(
        hub,
        UsbDataDirection::NoData,
        USB_REQ_TYPE_CLASS,
        USB_HUB_TARGET_HUB,
        USB_HUB_REQ_CLEAR_FEATURE as usize,
        feature,
        0,
        0,
    )
}

/// The request that clears a feature of a port. Ports count from one on the wire.
pub open spec fn clear_port_feature_request(hub: UsbDevice, port: u8, feature: u16) -> UsbControlTransfer {
    hub_request(
        hub,
        UsbDataDirection::NoData,
        USB_HUB_TARGET_PORT,
        USB_HUB_REQ_CLEAR_FEATURE,
        feature,
        (port + 1) as u16,
        0,
    )
}

/// Builds the request that clears a feature of a port.
pub fn usb_hub_ctrl_clear_port_feature(hub: &UsbDevice, port: u8, feature: u16) -> (r: UsbControlTransfer)
    ensures
        r == clear_port_feature_request(*hub, port, feature),
{
    usb_ctrl_request(
        hub,
        UsbDataDirection::NoData,
        USB_REQ_TYPE_CLASS,
        USB_HUB_TARGET_PORT,
        USB_HUB_REQ_CLEAR_FEATURE as usize,
        feature,
        port as u16 + 1,
        0,
    )
}

/// Names the split transaction whose buffer is to be cleared: endpoint number,
/// device address and endpoint type, packed into one word.
pub open spec fn tt_buffer_name(device_address: u16, endpoint_number: u16, endpoint_type: u16) -> u16 {
    (endpoint_number & 0x0f) | (device_address << 4) | ((endpoint_type & 0x03) << 11)
}

/// For a device address of seven bits the three parts do not overlap.
pub proof fn tt_buffer_name_is_packed(device_address: u16, endpoint_number: u16, endpoint_type: u16)
    requires
        device_address < 128,
        endpoint_number < 16,
        endpoint_type < 4,
    ensures
        tt_buffer_name(device_address, endpoint_number, endpoint_type) == endpoint_number + 16
            * device_address + 2048 * endpoint_type,
{
    assert((endpoint_number & 0x0f) | (device_address << 4) | ((endpoint_type & 0x03) << 11)
        == endpoint_number + 16 * device_address + 2048 * endpoint_type) by (bit_vector)
        requires
            device_address < 128,
            endpoint_number < 16,
            endpoint_type < 4,
    ;
}

/// The request that clears a transaction-translator buffer.
pub open spec fn clear_tt_buffer_request(
    hub: UsbDevice,
    port: u8,
    device_address: u16,
    endpoint_number: u16,
    endpoint_type: u16,
) -> UsbControlTransfer {
    hub_request(
        hub,
        UsbDataDirection::NoData,
        USB_HUB_TARGET_PORT,
        USB_HUB_REQ_CLEAR_TT,
        tt_buffer_name(device_address, endpoint_number, endpoint_type),
        (port + 1) as u16,
        0,
    )
}

/// Builds the request that clears a transaction-translator buffer after a failed
/// split transaction. The direction bit of the endpoint number falls off the word.
pub fn usb_hub_ctrl_clear_tt_buffer(
    hub: &UsbDevice,
    port: u8,
    device_address: u16,
    endpoint_number: u16,
    endpoint_type: u16,
) -> (r: UsbControlTransfer)
    ensures
        r == clear_tt_buffer_request(*hub, port, device_address, endpoint_number, endpoint_type),
{
    let value: u16 = (endpoint_number & 0x0f) | (device_address << 4) | ((endpoint_type & 0x03) << 11) | ((
    endpoint_number & 0x80) << 15);
    proof {
        assert((endpoint_number & 0x0f) | (device_address << 4) | ((endpoint_type & 0x03) << 11) | ((
        endpoint_number & 0x80) << 15) == (endpoint_number & 0x0f) | (device_address << 4) | ((endpoint_type
            & 0x03) << 11)) by (bit_vector);
    }
    usb_ctrl_request(
        hub,
        UsbDataDirection::NoData,
        USB_REQ_TYPE_CLASS,
        USB_HUB_TARGET_PORT,
        USB_HUB_REQ_CLEAR_TT as usize,
        value,
        port as u16 + 1,
        0,
    )
}

/// The request for a hub descriptor. SuperSpeed hubs have a descriptor type of their
/// own.
pub open spec fn get_hub_desc_request(hub: UsbDevice, length: usize) -> UsbControlTransfer {
    let descriptor_type = if hub.speed == EFI_USB_SPEED_SUPER {
        USB_DESC_TYPE_HUB_SUPER_SPEED
    } else {
        USB_DESC_TYPE_HUB
    };
    hub_request(
        hub,
        UsbDataDirection::In,
        USB_HUB_TARGET_HUB,
        USB_HUB_REQ_GET_DESC,
        (256 * descriptor_type) as u16,
        0,
        length,
    )
}

/// Builds the request for a hub descriptor.
pub fn usb_hub_ctrl_get_hub_desc(hub: &UsbDevice, length: usize) -> (r: UsbControlTransfer)
    ensures
        r == get_hub_desc_request(*hub, length),
{
    let descriptor_type: u8 = if hub.speed == EFI_USB_SPEED_SUPER {
        USB_DESC_TYPE_HUB_SUPER_SPEED
    } else {
        USB_DESC_TYPE_HUB
    };
    usb_ctrl_request(
        hub,
        UsbDataDirection::In,
        USB_REQ_TYPE_CLASS,
        USB_HUB_TARGET_HUB,
        USB_HUB_REQ_GET_DESC as usize,
        256u16 * (descriptor_type as u16),
        0,
        length,
    )
}

/// Builds the request for the status of a hub.
pub fn usb_hub_ctrl_get_hub_status(hub: &UsbDevice) -> (r: UsbControlTransfer)
    ensures
        r == hub_request(
            *hub,
            UsbDataDirection::In,
            USB_HUB_TARGET_HUB,
            USB_HUB_REQ_GET_STATUS,
            0,
            0,
            4,
        ),
{
    usb_ctrl_request(
        hub,
        UsbDataDirection::In,
        USB_REQ_TYPE_CLASS,
        USB_HUB_TARGET_HUB,
        USB_HUB_REQ_GET_STATUS as usize,
        0,
        0,
        4,
    )
}

/// The request for the status of a port. Ports count from one on the wire.
pub open spec fn get_port_status_request(hub: UsbDevice, port: u8) -> UsbControlTransfer {
    hub_request(
        hub,
        UsbDataDirection::In,
        USB_HUB_TARGET_PORT,
        USB_HUB_REQ_GET_STATUS,
        0,
        (port + 1) as u16,
        4,
    )
}

/// Builds the request for the status of a port.
pub fn usb_hub_ctrl_get_port_status(hub: &UsbDevice, port: u8) -> (r: UsbControlTransfer)
    ensures
        r == get_port_status_request(*hub, port),
{
    usb_ctrl_request(
        hub,
        UsbDataDirection::In,
        USB_REQ_TYPE_CLASS,
        USB_HUB_TARGET_PORT,
        USB_HUB_REQ_GET_STATUS as usize,
        0,
        port as u16 + 1,
        4,
    )
}

/// The request that sets a feature of a port. Ports count from one on the wire.
pub open spec fn set_port_feature_request(hub: UsbDevice, port: u8, feature: u16) -> UsbControlTransfer {
    hub_request(
        hub,
        UsbDataDirection::NoData,
        USB_HUB_TARGET_PORT,
        USB_HUB_REQ_SET_FEATURE,
        feature,
        (port + 1) as u16,
        0,
    )
}

/// Builds the request that sets a feature of a port.
pub fn usb_hub_ctrl_set_port_feature(hub: &UsbDevice, port: u8, feature: u16) -> (r: UsbControlTransfer)
    ensures
        r == set_port_feature_request(*hub, port, feature),
{
    usb_ctrl_request(
        hub,
        UsbDataDirection::NoData,
        USB_REQ_TYPE_CLASS,
        USB_HUB_TARGET_PORT,
        USB_HUB_REQ_SET_FEATURE as usize,
        feature,
        port as u16 + 1,
        0,
    )
}

/// What a hub answers to, on the wire or at the host controller.
#[derive(Clone, Copy, Debug, PartialEq, Eq, Structural)]
pub enum PortRequest {
    GetStatus,
    SetFeature(UsbPortFeature),
    ClearFeature(UsbPortFeature),
}

/// The work that makes a request of a port, where the hub is there.
pub open spec fn port_action(
    bus: UsbBus,
    api: UsbHubApi,
    interface: InterfaceId,
    port: u8,
    request: PortRequest,
) -> Option<Action> {
    match (bus.interface(interface), bus.device(interface.device)) {
        (Some(_), Some(hub)) => Some(
            match (api, request) {
                (UsbHubApi::Hub, PortRequest::GetStatus) => Action::ControlTransfer(
                    get_port_status_request(hub, port),
                ),
                (UsbHubApi::Hub, PortRequest::SetFeature(feature)) => Action::ControlTransfer(
                    set_port_feature_request(hub, port, feature.selector()),
                ),
                (UsbHubApi::Hub, PortRequest::ClearFeature(feature)) => Action::ControlTransfer(
                    clear_port_feature_request(hub, port, feature.selector()),
                ),
                (UsbHubApi::RootHub, PortRequest::GetStatus) => Action::GetRootHubPortStatus { port },
                (
                    UsbHubApi::RootHub,
                    PortRequest::SetFeature(feature),
                ) => Action::SetRootHubPortFeature { port, feature },
                (
                    UsbHubApi::RootHub,
                    PortRequest::ClearFeature(feature),
                ) => Action::ClearRootHubPortFeature { port, feature },
            },
        ),
        _ => None,
    }
}

/// Returns the device of a hub interface that is there.
fn hub_device(bus: &UsbBus, interface: InterfaceId) -> (r: Option<&UsbDevice>)
    requires
        bus.wf(),
    ensures
        r is Some == bus.interface(interface) is Some,
        r matches Some(d) ==> bus.device(interface.device) == Some(*d),
{
    match bus.get_interface(interface) {
        Some(_) => bus.get_device(interface.device),
        None => None,
    }
}

/// Builds the request that sets a feature of a hub port.
pub fn usb_hub_set_port_feature(
    bus: &UsbBus,
    interface: InterfaceId,
    port: u8,
    feature: UsbPortFeature,
) -> (r: Option<Action>)
    requires
        bus.wf(),
    ensures
        r == port_action(*bus, UsbHubApi::Hub, interface, port, PortRequest::SetFeature(feature)),
{
    match hub_device(bus, interface) {
        Some(hub) => Some(
            Action::ControlTransfer(usb_hub_ctrl_set_port_feature(hub, port, feature.code())),
        ),
        None => None,
    }
}

/// Builds the request that clears a feature of a hub port.
pub fn usb_hub_clear_port_feature(
    bus: &UsbBus,
    interface: InterfaceId,
    port: u8,
    feature: UsbPortFeature,
) -> (r: Option<Action>)
    requires
        bus.wf(),
    ensures
        r == port_action(*bus, UsbHubApi::Hub, interface, port, PortRequest::ClearFeature(feature)),
{
    match hub_device(bus, interface) {
        Some(hub) => Some(
            Action::ControlTransfer(usb_hub_ctrl_clear_port_feature(hub, port, feature.code())),
        ),
        None => None,
    }
}

/// Builds the request for the status of a root-hub port.
pub fn usb_root_hub_get_port_status(bus: &UsbBus, interface: InterfaceId, port: u8) -> (r: Option<Action>)
    requires
        bus.wf(),
    ensures
        r == port_action(*bus, UsbHubApi::RootHub, interface, port, PortRequest::GetStatus),
{
    match hub_device(bus, interface) {
        Some(_) => Some(Action::GetRootHubPortStatus { port }),
        None => None,
    }
}

/// Builds the request that sets a feature of a root-hub port.
pub fn usb_root_hub_set_port_feature(
    bus: &UsbBus,
    interface: InterfaceId,
    port: u8,
    feature: UsbPortFeature,
) -> (r: Option<Action>)
    requires
        bus.wf(),
    ensures
        r == port_action(*bus, UsbHubApi::RootHub, interface, port, PortRequest::SetFeature(feature)),
{
    match hub_device(bus, interface) {
        Some(_) => Some(Action::SetRootHubPortFeature { port, feature }),
        None => None,
    }
}

/// Builds the request that clears a feature of a root-hub port.
pub fn usb_root_hub_clear_port_feature(
    bus: &UsbBus,
    interface: InterfaceId,
    port: u8,
    feature: UsbPortFeature,
) -> (r: Option<Action>)
    requires
        bus.wf(),
    ensures
        r == port_action(*bus, UsbHubApi::RootHub, interface, port, PortRequest::ClearFeature(feature)),
{
    match hub_device(bus, interface) {
        Some(_) => Some(Action::ClearRootHubPortFeature { port, feature }),
        None => None,
    }
}

/// Builds the request of a port, by the port operations that the hub answers to.
pub fn usb_port_request(
    bus: &UsbBus,
    api: UsbHubApi,
    interface: InterfaceId,
    port: u8,
    request: PortRequest,
) -> (r: Option<Action>)
    requires
        bus.wf(),
    ensures
        r == port_action(*bus, api, interface, port, request),
{
    match api {
        UsbHubApi::Hub => match request {
            PortRequest::GetStatus => match hub_device(bus, interface) {
                Some(hub) => Some(Action::ControlTransfer(usb_hub_ctrl_get_port_status(hub, port))),
                None => None,
            },
            PortRequest::SetFeature(feature) => usb_hub_set_port_feature(bus, interface, port, feature),
            PortRequest::ClearFeature(feature) => usb_hub_clear_port_feature(
                bus,
                interface,
                port,
                feature,
            ),
        },
        UsbHubApi::RootHub => match request {
            PortRequest::GetStatus => usb_root_hub_get_port_status(bus, interface, port),
            PortRequest::SetFeature(feature) => usb_root_hub_set_port_feature(
                bus,
                interface,
                port,
                feature,
            ),
            PortRequest::ClearFeature(feature) => usb_root_hub_clear_port_feature(
                bus,
                interface,
                port,
                feature,
            ),
        },
    }
}

/// An interface has the class of a hub.
pub open spec fn is_hub_interface(interface: UsbInterface) -> bool {
    interface.setting() matches Some(setting) && setting.descriptor.interface_class == USB_HUB_CLASS_CODE
        && setting.descriptor.interface_sub_class == USB_HUB_SUBCLASS_CODE
}

/// Returns whether an interface describes a hub.
pub fn usb_is_hub_interface(interface: &UsbInterface) -> (r: bool)
    ensures
        r == is_hub_interface(*interface),
{
    match interface.get_setting() {
        Some(setting) => setting.descriptor.interface_class == USB_HUB_CLASS_CODE
            && setting.descriptor.interface_sub_class == USB_HUB_SUBCLASS_CODE,
        None => false,
    }
}

} // verus!
