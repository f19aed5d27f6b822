//! Laws of control requests: what goes over the wire, byte by byte.

use crate::task::Action;
use crate::usb_2_host_controller::{UsbControlTransfer, UsbDataDirection, UsbPortFeature};
use crate::usb_bus_defs::{InterfaceId, UsbBus, UsbDevice, UsbHubApi, UsbInterface};
use crate::usb_control::{
    ctrl_get_desc, descriptor_name_is_packed, request_type_byte, set_address_request,
    set_config_request,
};
use crate::usb_hub::{
    clear_port_feature_request, clear_tt_buffer_request, get_hub_desc_request,
    get_port_status_request, hub_request, is_hub_interface, port_action, set_port_feature_request,
    tt_buffer_name_is_packed, PortRequest,
};
use crate::usb_io_impl::{clear_feature, IoControlTransferAt};
use vstd::prelude::*;

verus! {

/// A transfer goes to a device, at its speed, with its packet size and through its
/// translator, makes the given request and waits half a second for the answer. A
/// request type from 128 on reads data, any other has none.
pub open spec fn carries(
    transfer: UsbControlTransfer,
    device: UsbDevice,
    request_type: int,
    request: int,
    value: int,
    index: int,
    length: int,
) -> bool {
    &&& transfer.address == device.address
    &&& transfer.speed == device.speed
    &&& transfer.max_packet == device.max_packet0
    &&& transfer.translator == device.translator
    &&& transfer.request.request_type == request_type
    &&& transfer.request.request == request
    &&& transfer.request.value == value
    &&& transfer.request.index == index
    &&& transfer.request.length == length
    &&& transfer.length == length
    &&& transfer.timeout == 500
    &&& (transfer.direction == UsbDataDirection::In) == (request_type >= 128)
    &&& (transfer.direction == UsbDataDirection::NoData) == (request_type < 128)
}

proof fn request_type_bits(request_type: usize, target: usize)
    by (bit_vector)
    requires
        request_type == 0 || request_type == 0x20 || request_type == 0x40 || request_type == 0x60,
        target < 32,
    ensures
        (0x80usize | request_type | target) as u8 == 128 + request_type + target,
        (0usize | request_type | target) as u8 == request_type + target,
{
}

/// The request type is the sum of 128 for data to the host, the kind of request and
/// the target.
pub proof fn request_type_is_a_sum(direction_is_in: bool, request_type: usize, target: usize)
    requires
        request_type == 0 || request_type == 0x20 || request_type == 0x40 || request_type == 0x60,
        target < 32,
    ensures
        request_type_byte(direction_is_in, request_type, target) == request_type + target + (
        if direction_is_in {
            128int
        } else {
            0int
        }),
{
    request_type_bits(request_type, target);
}

/// The standard requests: a device is asked for a descriptor by request 6 with the
/// type and the index of the descriptor in one word, told its address by request 5 and
/// switched to a configuration by request 9.
pub proof fn standard_requests_on_the_wire(
    device: UsbDevice,
    descriptor_type: u8,
    descriptor_index: u8,
    language_id: u16,
    length: u16,
    number: u8,
)
    ensures
        carries(
            ctrl_get_desc(
                device,
                descriptor_type as usize,
                descriptor_index as usize,
                language_id,
                length as usize,
            ),
            device,
            0x80,
            6,
            256 * descriptor_type + descriptor_index,
            language_id as int,
            length as int,
        ),
        carries(set_address_request(device, number), device, 0, 5, number as int, 0, 0),
        carries(set_config_request(device, number), device, 0, 9, number as int, 0, 0),
{
    request_type_is_a_sum(true, 0, 0);
    request_type_is_a_sum(false, 0, 0);
    descriptor_name_is_packed(descriptor_type, descriptor_index);
}

/// A class request of a hub has 0x20 in its request type, 0x80 more where it reads,
/// and 3 more where it is about a port.
pub proof fn hub_requests_have_their_type(
    device: UsbDevice,
    reads: bool,
    port: bool,
    request: u8,
    value: u16,
    index: u16,
    length: u16,
)
    ensures
        carries(
            hub_request(
                device,
                if reads {
                    UsbDataDirection::In
                } else {
                    UsbDataDirection::NoData
                },
                if port {
                    3
                } else {
                    0
                },
                request,
                value,
                index,
                length as usize,
            ),
            device,
            0x20 + (if reads {
                0x80int
            } else {
                0
            }) + (if port {
                3int
            } else {
                0
            }),
            request as int,
            value as int,
            index as int,
            length as int,
        ),
{
    request_type_is_a_sum(true, 0x20, 0);
    request_type_is_a_sum(false, 0x20, 0);
    request_type_is_a_sum(true, 0x20, 3);
    request_type_is_a_sum(false, 0x20, 3);
}

/// The requests of a hub port: its status is read by request 0, a feature is set by
/// request 3 and cleared by request 1. The port counts from 1, and the hub descriptor
/// has a type of its own at super speed.
pub proof fn hub_requests_on_the_wire(device: UsbDevice, port: u8, feature: u16, length: u16)
    ensures
        carries(get_port_status_request(device, port), device, 0xa3, 0, 0, port + 1, 4),
        carries(
            set_port_feature_request(device, port, feature),
            device,
            0x23,
            3,
            feature as int,
            port + 1,
            0,
        ),
        carries(
            clear_port_feature_request(device, port, feature),
            device,
            0x23,
            1,
            feature as int,
            port + 1,
            0,
        ),
        carries(
            get_hub_desc_request(device, length as usize),
            device,
            0xa0,
            6,
            if device.speed == 3 {
                0x2a00
            } else {
                0x2900
            },
            0,
            length as int,
        ),
{
    request_type_is_a_sum(true, 0x20, 0);
    request_type_is_a_sum(true, 0x20, 3);
    request_type_is_a_sum(false, 0x20, 3);
}

/// A translator buffer is cleared by request 8 of the port. The value holds the
/// endpoint number in its lowest four bits, the device address above them and the
/// endpoint type from bit 11 on.
pub proof fn a_translator_buffer_is_named_by_its_parts(
    hub: UsbDevice,
    port: u8,
    address: u16,
    endpoint: u16,
    kind: u16,
)
    requires
        address < 128,
        endpoint < 16,
        kind < 4,
    ensures
        carries(
            clear_tt_buffer_request(hub, port, address, endpoint, kind),
            hub,
            0x23,
            8,
            endpoint + 16 * address + 2048 * kind,
            port + 1,
            0,
        ),
{
    request_type_is_a_sum(false, 0x20, 3);
    tt_buffer_name_is_packed(address, endpoint, kind);
}

proof fn translator_bits(address: u16)
    by (bit_vector)
    requires
        address < 256,
    ensures
        (0u16 & 0x0f) | (address << 4) | ((0u16 & 0x03) << 11) == 16 * address,
        (0u16 & 0x0f) | (address << 4) | ((2u16 & 0x03) << 11) == 16 * address + 4096,
{
}

/// For endpoint 0 of a control transfer and of a bulk transfer this holds of every address
/// of a device.
pub proof fn a_translator_buffer_is_named_for_every_address(hub: UsbDevice, port: u8, address: u16)
    requires
        address < 256,
    ensures
        carries(
            clear_tt_buffer_request(hub, port, address, 0, 0),
            hub,
            0x23,
            8,
            16 * address,
            port + 1,
            0,
        ),
        carries(
            clear_tt_buffer_request(hub, port, address, 0, 2),
            hub,
            0x23,
            8,
            16 * address + 4096,
            port + 1,
            0,
        ),
{
    request_type_is_a_sum(false, 0x20, 3);
    translator_bits(address);
}

/// A feature is cleared through the services of an interface by a request that has no data:
/// request 1, of the type of its target, with the feature as value and the given index. It is
/// given ten milliseconds.
pub proof fn a_feature_is_cleared_by_request_1(
    interface: InterfaceId,
    target: usize,
    feature: u16,
    index: u16,
)
    requires
        target < 32,
    ensures
        ({
            let clearing = clear_feature(interface, target, feature, index);
            &&& clearing.interface == interface
            &&& clearing.request.request_type == target
            &&& clearing.request.request == 1
            &&& clearing.request.value == feature
            &&& clearing.request.index == index
            &&& clearing.request.length == 0
            &&& clearing.direction == 2
            &&& clearing.data_length == 0
            &&& clearing.timeout == 10
            &&& clearing.at == IoControlTransferAt::Start
        }),
{
    request_type_is_a_sum(false, 0, target);
}

/// An interface is that of a hub exactly where the setting in use has class 9 and subclass 0.
pub proof fn a_hub_is_known_by_its_class(interface: UsbInterface)
    ensures
        is_hub_interface(interface) <==> {
            &&& interface.if_desc matches Some(desc)
            &&& desc.active_index < desc.settings@.len()
            &&& desc.settings@[desc.active_index as int].descriptor.interface_class == 9
            &&& desc.settings@[desc.active_index as int].descriptor.interface_sub_class == 0
        },
{
}

/// The number that stands for a port feature on the wire.
pub open spec fn feature_number(feature: UsbPortFeature) -> int {
    match feature {
        UsbPortFeature::Enable => 1,
        UsbPortFeature::Suspend => 2,
        UsbPortFeature::Reset => 4,
        UsbPortFeature::Power => 8,
        UsbPortFeature::Owner => 13,
        UsbPortFeature::ConnectChange => 16,
        UsbPortFeature::EnableChange => 17,
        UsbPortFeature::SuspendChange => 18,
        UsbPortFeature::OverCurrentChange => 19,
        UsbPortFeature::ResetChange => 20,
        UsbPortFeature::LinkStateChange => 25,
        UsbPortFeature::WarmResetChange => 29,
    }
}

/// Two features never share a number.
pub proof fn features_have_their_own_numbers(a: UsbPortFeature, b: UsbPortFeature)
    ensures
        a.selector() == b.selector() <==> a == b,
        a.selector() == feature_number(a),
{
}

/// A request of a port goes to the very hub and port that it is made of: over the wire
/// to the hub device, with the port counted from 1, or to the host controller, with
/// the port counted from 0. Without the hub there is no request.
pub proof fn a_port_request_reaches_its_port(
    bus: UsbBus,
    interface: InterfaceId,
    port: u8,
    feature: UsbPortFeature,
)
    requires
        bus.wf(),
    ensures
        bus.interface(interface) is None ==> forall|api: UsbHubApi, request: PortRequest|
            #[trigger] port_action(bus, api, interface, port, request) is None,
        bus.interface(interface) is Some ==> {
            let hub = bus.devices@[interface.device as int]->0;
            &&& hub.address == interface.device
            &&& port_action(bus, UsbHubApi::Hub, interface, port, PortRequest::GetStatus) matches Some(
                Action::ControlTransfer(t),
            ) && carries(t, hub, 0xa3, 0, 0, port + 1, 4)
            &&& port_action(bus, UsbHubApi::Hub, interface, port, PortRequest::SetFeature(feature))
                matches Some(Action::ControlTransfer(t)) && carries(
                t,
                hub,
                0x23,
                3,
                feature_number(feature),
                port + 1,
                0,
            )
            &&& port_action(bus, UsbHubApi::Hub, interface, port, PortRequest::ClearFeature(feature))
                matches Some(Action::ControlTransfer(t)) && carries(
                t,
                hub,
                0x23,
                1,
                feature_number(feature),
                port + 1,
                0,
            )
            &&& port_action(bus, UsbHubApi::RootHub, interface, port, PortRequest::GetStatus) == Some(
                Action::GetRootHubPortStatus { port },
            )
            &&& port_action(bus, UsbHubApi::RootHub, interface, port, PortRequest::SetFeature(feature))
                == Some(Action::SetRootHubPortFeature { port, feature })
            &&& port_action(
                bus,
                UsbHubApi::RootHub,
                interface,
                port,
                PortRequest::ClearFeature(feature),
            ) == Some(Action::ClearRootHubPortFeature { port, feature })
        },
{
    if bus.interface(interface) is Some {
        let hub = bus.devices@[interface.device as int]->0;
        hub_requests_on_the_wire(hub, port, feature.selector(), 0);
    }
}

} // verus!
