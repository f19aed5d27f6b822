//! Laws of the transfers that drivers ask for: what the host controller is handed, and
//! what the bus remembers of it.

use crate::bits::low_byte_is_the_rest;
use crate::request_laws::{
    a_translator_buffer_is_named_for_every_address, carries, standard_requests_on_the_wire,
};
use crate::search::{first_index, first_index_is_first, lemma_first_index_found};
use crate::status::Status;
use crate::task::{Action, Frame, Reply, Step};
use crate::usb_2_host_controller::{UsbControlTransfer, UsbDataDirection};
use crate::usb_bus_defs::{InterfaceId, UsbBus, UsbDevice, UsbInterface, USB_INTERFACE_SIGNATURE};
use crate::usb_desc::{SettingView, UsbEndpointDesc, UsbInterfaceDesc};
use crate::usb_interface::{has_address, is_alternate, toggles_cleared};
use crate::usb_io_impl::{
    a_stored_toggle_is_used_next, io_ready, io_setting, toggle_stored, IoAsyncInterruptTransfer, IoControlTransfer,
    IoControlTransferAt, IoEndpointTransfer, IoEndpointTransferAt, IoGetStringDescriptor, IoPortReset,
    IoPortResetAt,
};
use vstd::prelude::*;

verus! {

/// The endpoint is the first one in a list that has the given address.
pub open spec fn is_first_of(endpoints: Seq<Option<UsbEndpointDesc>>, address: u8, endpoint: UsbEndpointDesc) -> bool {
    exists|k: int|
        {
            &&& 0 <= k < endpoints.len()
            &&& #[trigger] endpoints[k] == Some(endpoint)
            &&& endpoint.descriptor.endpoint_address == address
            &&& forall|j: int|
                0 <= j < k ==> (#[trigger] endpoints[j] matches Some(e)
                    ==> e.descriptor.endpoint_address != address)
        }
}

/// The endpoint is the first one of the setting in use that has the given address.
pub open spec fn is_first_endpoint(interface: UsbInterface, address: u8, endpoint: UsbEndpointDesc) -> bool {
    &&& interface.if_desc matches Some(desc)
    &&& desc.active_index < desc.settings@.len()
    &&& is_first_of(desc.settings@[desc.active_index as int].endpoints@, address, endpoint)
}

/// An interface of this driver is there, on a device that is connected.
pub open spec fn is_at_hand(bus: UsbBus, id: InterfaceId) -> bool {
    &&& bus.devices@[id.device as int] matches Some(device)
    &&& device.connected
    &&& id.index < device.interfaces@.len()
    &&& device.interfaces@[id.index as int] matches Some(interface)
    &&& interface.signature == USB_INTERFACE_SIGNATURE
}

/// The device of an interface.
pub open spec fn device_of(bus: UsbBus, id: InterfaceId) -> UsbDevice {
    bus.devices@[id.device as int]->0
}

/// The interface itself.
pub open spec fn interface_of(bus: UsbBus, id: InterfaceId) -> UsbInterface {
    device_of(bus, id).interfaces@[id.index as int]->0
}

proof fn lemma_first_endpoint(interface: UsbInterface, address: u8)
    ensures
        interface.endpoint(address) matches Some(e) ==> is_first_endpoint(interface, address, e),
        forall|e: UsbEndpointDesc| #[trigger]
            is_first_endpoint(interface, address, e) ==> interface.endpoint(address) == Some(e),
{
    if let Some(setting) = interface.setting() {
        let desc = interface.if_desc->0;
        let endpoints = desc.settings@[desc.active_index as int].endpoints@;
        let p = has_address(address);
        assert(setting.endpoints == endpoints);
        first_index_is_first(endpoints, p);
        assert forall|e: UsbEndpointDesc| #[trigger] is_first_endpoint(interface, address, e) implies (
        interface.endpoint(address) == Some(e)) by {
            let k = choose|k: int|
                {
                    &&& 0 <= k < endpoints.len()
                    &&& #[trigger] endpoints[k] == Some(e)
                    &&& e.descriptor.endpoint_address == address
                    &&& forall|j: int|
                        0 <= j < k ==> (#[trigger] endpoints[j] matches Some(e)
                            ==> e.descriptor.endpoint_address != address)
                };
            lemma_first_index_found(endpoints, p, k);
        }
        if let Some(e) = interface.endpoint(address) {
            let slot = interface.endpoint_slot(address)->0;
            assert(endpoints[slot] == Some(e));
            assert forall|j: int| 0 <= j < slot implies (#[trigger] endpoints[j] matches Some(e)
                ==> e.descriptor.endpoint_address != address) by {
                assert(!p(endpoints[j]));
            }
        }
    }
}

/// The control transfer that is started for a connected device reads data exactly
/// where the caller asked for direction 0, writes data exactly for 1 and has none
/// exactly for 2; any other direction is refused. All the rest is as the caller asked,
/// and the device is addressed as the bus knows it.
pub proof fn a_control_transfer_has_the_direction_asked_for(
    run: IoControlTransfer,
    pre: UsbBus,
    reply: Reply,
    post: UsbBus,
    step: Step,
)
    requires
        pre.wf(),
        run.at == IoControlTransferAt::Start,
        is_at_hand(pre, run.interface),
        run.goes_on(pre, reply, post, step),
    ensures
        post == pre,
        run.direction > 2 ==> step == Step::Done(Reply::Status(Status::InvalidParameter)),
        run.direction <= 2 ==> {
            let device = device_of(pre, run.interface);
            &&& step matches Step::Act { action: Action::CallerControlTransfer(t), next }
            &&& t.direction == UsbDataDirection::In <==> run.direction == 0
            &&& t.direction == UsbDataDirection::Out <==> run.direction == 1
            &&& t.direction == UsbDataDirection::NoData <==> run.direction == 2
            &&& t.address == run.interface.device
            &&& t.speed == device.speed
            &&& t.max_packet == device.max_packet0
            &&& t.translator == device.translator
            &&& t.request == run.request
            &&& t.length == run.data_length
            &&& t.timeout == run.timeout
            &&& next == Frame::IoControlTransfer(
                IoControlTransfer { at: IoControlTransferAt::Answer, ..run },
            )
        },
{
}

/// Two different accepted directions never give the same transfer direction.
pub proof fn directions_stay_apart(
    a: IoControlTransfer,
    b: IoControlTransfer,
    pre: UsbBus,
    reply: Reply,
    post: UsbBus,
    first: UsbControlTransfer,
    second: UsbControlTransfer,
    next: Frame,
    other: Frame,
)
    requires
        pre.wf(),
        a.at == IoControlTransferAt::Start,
        b.at == IoControlTransferAt::Start,
        a.goes_on(pre, reply, post, Step::Act { action: Action::CallerControlTransfer(first), next }),
        b.goes_on(
            pre,
            reply,
            post,
            Step::Act { action: Action::CallerControlTransfer(second), next: other },
        ),
    ensures
        first.direction == second.direction <==> a.direction == b.direction,
{
}

/// What a service works on: the interface and the device of the very slots that were named,
/// for an interface of this driver on a connected device.
pub proof fn a_service_works_on_what_it_names(bus: UsbBus, id: InterfaceId)
    requires
        bus.wf(),
    ensures
        is_at_hand(bus, id) ==> io_ready(bus, id) == Ok::<(UsbInterface, UsbDevice), Status>(
            (interface_of(bus, id), device_of(bus, id)),
        ),
        !is_at_hand(bus, id) ==> io_ready(bus, id) is Err && io_setting(bus, id) is Err,
        is_at_hand(bus, id) ==> match interface_of(bus, id).if_desc {
            Some(desc) if desc.active_index < desc.settings@.len() => {
                let setting = desc.settings@[desc.active_index as int];
                &&& io_setting(bus, id) matches Ok(found)
                &&& found.descriptor == setting.descriptor
                &&& found.endpoints == setting.endpoints@
            },
            _ => io_setting(bus, id) == Err::<SettingView, Status>(Status::InvalidParameter),
        },
        bus.devices@[id.device as int] is None ==> io_ready(bus, id) == Err::<
            (UsbInterface, UsbDevice),
            Status,
        >(Status::InvalidParameter),
        bus.interface(id) is None ==> io_setting(bus, id) == Err::<SettingView, Status>(
            Status::InvalidParameter,
        ),
        bus.interface(id) is Some && interface_of(bus, id).signature == USB_INTERFACE_SIGNATURE
            && interface_of(bus, id).if_desc is Some && interface_of(bus, id).if_desc->0.active_index
            < interface_of(bus, id).if_desc->0.settings@.len() && !device_of(bus, id).connected
            ==> io_setting(bus, id) == Err::<SettingView, Status>(Status::DeviceError),
        bus.interface(id) is Some && interface_of(bus, id).signature == USB_INTERFACE_SIGNATURE
            && !device_of(bus, id).connected ==> io_ready(bus, id) == Err::<
            (UsbInterface, UsbDevice),
            Status,
        >(Status::DeviceError),
{
}

/// Services are refused for an interface that is not there or is not one of this driver, as
/// an invalid parameter, and for a device that is not connected, as an error of the device.
pub proof fn services_need_their_interface_and_device(
    control: IoControlTransfer,
    string: IoGetStringDescriptor,
    reset: IoPortReset,
    transfer: IoEndpointTransfer,
    pre: UsbBus,
    reply: Reply,
    post: UsbBus,
    step: Step,
)
    requires
        pre.wf(),
        control.at == IoControlTransferAt::Start,
        !string.asked && string.string_index != 0 && string.language_id != 0,
        reset.at is Start,
        transfer.at == IoEndpointTransferAt::Start && 1 <= transfer.endpoint % 128 <= 15,
        string.interface == control.interface,
        reset.interface == control.interface,
        transfer.interface == control.interface,
        control.goes_on(pre, reply, post, step) || string.goes_on(pre, reply, step) || reset.goes_on(
            pre,
            reply,
            post,
            step,
        ) || transfer.bulk_goes_on(pre, reply, post, step) || transfer.interrupt_goes_on(
            pre,
            reply,
            post,
            step,
        ),
    ensures
        !(pre.interface(control.interface) matches Some(i) && i.signature == USB_INTERFACE_SIGNATURE)
            ==> step == Step::Done(Reply::Status(Status::InvalidParameter)),
        (pre.interface(control.interface) matches Some(i) && i.signature == USB_INTERFACE_SIGNATURE)
            && !device_of(pre, control.interface).connected ==> step == Step::Done(
            Reply::Status(Status::DeviceError),
        ),
{
}

/// A bulk or interrupt transfer with an endpoint of the setting in use, of the right
/// kind and with a number from 1 to 15, carries the maximum packet size and the data
/// toggle in the description of that endpoint, and goes to the device as the bus knows
/// it.
pub proof fn a_transfer_carries_the_packet_size_of_its_endpoint(
    run: IoEndpointTransfer,
    pre: UsbBus,
    reply: Reply,
    post: UsbBus,
    step: Step,
    endpoint: UsbEndpointDesc,
)
    requires
        pre.wf(),
        run.at == IoEndpointTransferAt::Start,
        is_at_hand(pre, run.interface),
        1 <= run.endpoint % 128 <= 15,
        is_first_endpoint(interface_of(pre, run.interface), run.endpoint, endpoint),
    ensures
        run.bulk_goes_on(pre, reply, post, step) && endpoint.descriptor.attributes % 4 == 2 ==> {
            let device = device_of(pre, run.interface);
            &&& post == pre
            &&& step matches Step::Act { action: Action::BulkTransfer(t), next }
            &&& t.max_packet == endpoint.descriptor.max_packet_size
            &&& t.endpoint == run.endpoint
            &&& t.toggle == endpoint.toggle
            &&& t.address == run.interface.device
            &&& t.speed == device.speed
            &&& t.translator == device.translator
            &&& t.timeout == run.timeout
            &&& next == Frame::IoBulkTransfer(
                IoEndpointTransfer { at: IoEndpointTransferAt::Answer, ..run },
            )
        },
        run.interrupt_goes_on(pre, reply, post, step) && endpoint.descriptor.attributes % 4 == 3 ==> {
            let device = device_of(pre, run.interface);
            &&& post == pre
            &&& step matches Step::Act { action: Action::SyncInterruptTransfer(t), next }
            &&& t.max_packet == endpoint.descriptor.max_packet_size
            &&& t.endpoint == run.endpoint
            &&& t.toggle == endpoint.toggle
            &&& t.address == run.interface.device
            &&& t.speed == device.speed
            &&& t.translator == device.translator
            &&& t.timeout == run.timeout
            &&& next == Frame::IoSyncInterruptTransfer(
                IoEndpointTransfer { at: IoEndpointTransferAt::Answer, ..run },
            )
        },
        run.bulk_goes_on(pre, reply, post, step) && endpoint.descriptor.attributes % 4 != 2 ==> step
            == Step::Done(Reply::Status(Status::InvalidParameter)),
        run.interrupt_goes_on(pre, reply, post, step) && endpoint.descriptor.attributes % 4 != 3 ==> step
            == Step::Done(Reply::Status(Status::InvalidParameter)),
{
    lemma_first_endpoint(interface_of(pre, run.interface), run.endpoint);
}

/// A queued interrupt transfer, too, carries the maximum packet size and the data
/// toggle in the description of its endpoint. Taking one off the queue needs no
/// connection.
pub proof fn a_queued_transfer_carries_the_packet_size_of_its_endpoint(
    run: IoAsyncInterruptTransfer,
    pre: UsbBus,
    reply: Reply,
    post: UsbBus,
    step: Step,
    endpoint: UsbEndpointDesc,
)
    requires
        pre.wf(),
        !run.asked,
        pre.interface(run.interface) matches Some(i) && i.signature == USB_INTERFACE_SIGNATURE,
        run.is_new_transfer ==> device_of(pre, run.interface).connected,
        1 <= run.endpoint % 128 <= 15,
        is_first_endpoint(interface_of(pre, run.interface), run.endpoint, endpoint),
        run.goes_on(pre, reply, post, step),
    ensures
        endpoint.descriptor.attributes % 4 == 3 ==> {
            let device = device_of(pre, run.interface);
            &&& post == pre
            &&& step matches Step::Act { action: Action::AsyncInterruptTransfer(t), next }
            &&& t.max_packet == endpoint.descriptor.max_packet_size
            &&& t.endpoint == run.endpoint
            &&& t.toggle == endpoint.toggle
            &&& t.address == run.interface.device
            &&& t.speed == device.speed
            &&& t.translator == device.translator
            &&& t.is_new_transfer == run.is_new_transfer
            &&& t.polling_interval == run.polling_interval
            &&& t.length == run.data_length
            &&& t.callback == run.callback
            &&& next == Frame::IoAsyncInterruptTransfer(
                IoAsyncInterruptTransfer { asked: true, ..run },
            )
        },
        endpoint.descriptor.attributes % 4 != 3 ==> step == Step::Done(
            Reply::Status(Status::InvalidParameter),
        ),
{
    lemma_first_endpoint(interface_of(pre, run.interface), run.endpoint);
}

/// A transfer needs an endpoint with its address in the setting in use, and its number
/// is neither 0 nor above 15.
pub proof fn a_transfer_needs_its_endpoint(
    run: IoEndpointTransfer,
    queued: IoAsyncInterruptTransfer,
    pre: UsbBus,
    reply: Reply,
    post: UsbBus,
    step: Step,
)
    requires
        pre.wf(),
        is_at_hand(pre, run.interface),
        run.at == IoEndpointTransferAt::Start,
        queued.interface == run.interface && queued.endpoint == run.endpoint && !queued.asked,
        run.endpoint % 128 == 0 || run.endpoint % 128 > 15 || forall|e: UsbEndpointDesc|
            !#[trigger] is_first_endpoint(interface_of(pre, run.interface), run.endpoint, e),
        run.bulk_goes_on(pre, reply, post, step) || run.interrupt_goes_on(pre, reply, post, step)
            || queued.goes_on(pre, reply, post, step),
    ensures
        post == pre,
        step == Step::Done(Reply::Status(Status::InvalidParameter)),
{
    lemma_first_endpoint(interface_of(pre, run.interface), run.endpoint);
}

/// Two buses that differ only in the packet size of endpoint 0 of a device give the
/// same bulk, interrupt and queued transfers with its other endpoints.
pub proof fn the_packet_size_of_endpoint_0_is_its_own(
    run: IoEndpointTransfer,
    queued: IoAsyncInterruptTransfer,
    pre: UsbBus,
    other: UsbBus,
    size: u32,
    reply: Reply,
    step: Step,
)
    requires
        pre.wf(),
        pre.devices@[run.interface.device as int] matches Some(d) && pre.with_device(
            run.interface.device,
            Some(UsbDevice { max_packet0: size, ..d }),
            other,
        ),
        run.at == IoEndpointTransferAt::Start,
        queued.interface == run.interface && !queued.asked,
    ensures
        run.bulk_goes_on(pre, reply, pre, step) <==> run.bulk_goes_on(other, reply, other, step),
        run.interrupt_goes_on(pre, reply, pre, step) <==> run.interrupt_goes_on(
            other,
            reply,
            other,
            step,
        ),
        queued.goes_on(pre, reply, pre, step) <==> queued.goes_on(other, reply, other, step),
{
}

/// An endpoint of the setting in use has the given toggle after, and is otherwise as it
/// was.
pub open spec fn toggle_becomes(
    pre: UsbBus,
    post: UsbBus,
    id: InterfaceId,
    address: u8,
    endpoint: UsbEndpointDesc,
    toggle: u8,
) -> bool {
    &&& post.interface(id) is Some
    &&& is_first_endpoint(
        post.interface(id)->0,
        address,
        UsbEndpointDesc { descriptor: endpoint.descriptor, toggle },
    )
    &&& forall|other: u8, e: UsbEndpointDesc|
        other != address && #[trigger] is_first_endpoint(pre.interface(id)->0, other, e)
            ==> is_first_endpoint(post.interface(id)->0, other, e)
}

proof fn lemma_toggle_becomes(
    pre: UsbBus,
    post: UsbBus,
    id: InterfaceId,
    address: u8,
    endpoint: UsbEndpointDesc,
    toggle: u8,
)
    requires
        pre.wf(),
        pre.interface(id) matches Some(i) && is_first_endpoint(i, address, endpoint),
        toggle_stored(pre, id, address, toggle, post),
    ensures
        toggle_becomes(pre, post, id, address, endpoint, toggle),
{
    let i = pre.interface(id)->0;
    let j = post.interface(id)->0;
    lemma_first_endpoint(i, address);
    lemma_first_endpoint(j, address);
    a_stored_toggle_is_used_next(pre, id, address, toggle, post);
    let slot = i.endpoint_slot(address)->0;
    let desc = i.if_desc->0;
    let next = j.if_desc->0;
    let before = desc.settings@[desc.active_index as int].endpoints@;
    assert(desc@.settings[desc@.active_index] == i.setting()->0);
    first_index_is_first(before, has_address(address));
    assert(next@.settings.len() == next.settings@.len());
    assert(next.settings@[next.active_index as int]@ == next@.settings[next@.active_index]);
    let after = next.settings@[next.active_index as int].endpoints@;
    assert(after == before.update(slot, after[slot]));
    assert forall|other: u8, e: UsbEndpointDesc|
        other != address && #[trigger] is_first_endpoint(i, other, e) implies is_first_endpoint(
        j,
        other,
        e,
    ) by {
        let k = choose|k: int|
            {
                &&& 0 <= k < before.len()
                &&& #[trigger] before[k] == Some(e)
                &&& e.descriptor.endpoint_address == other
                &&& forall|m: int|
                    0 <= m < k ==> (#[trigger] before[m] matches Some(e)
                        ==> e.descriptor.endpoint_address != other)
            };
        assert(k != slot);
        assert(after[k] == Some(e));
        assert forall|m: int| 0 <= m < k implies (#[trigger] after[m] matches Some(e)
            ==> e.descriptor.endpoint_address != other) by {
            assert(before[m] matches Some(e) ==> e.descriptor.endpoint_address != other);
        }
    }
}

/// The data toggle that a bulk, interrupt or queued transfer leaves is remembered for
/// its endpoint, whether the transfer went well or not, and for no other endpoint.
pub proof fn the_toggle_of_a_transfer_is_remembered(
    run: IoEndpointTransfer,
    queued: IoAsyncInterruptTransfer,
    pre: UsbBus,
    reply: Reply,
    post: UsbBus,
    step: Step,
    endpoint: UsbEndpointDesc,
)
    requires
        pre.wf(),
        run.at == IoEndpointTransferAt::Answer,
        queued.interface == run.interface && queued.endpoint == run.endpoint && queued.asked,
        pre.interface(run.interface) matches Some(i) && is_first_endpoint(i, run.endpoint, endpoint),
        reply is Transfer,
    ensures
        run.bulk_goes_on(pre, reply, post, step) ==> toggle_becomes(
            pre,
            post,
            run.interface,
            run.endpoint,
            endpoint,
            reply->Transfer_toggle,
        ),
        run.interrupt_goes_on(pre, reply, post, step) || queued.goes_on(pre, reply, post, step) ==> {
            &&& toggle_becomes(
                pre,
                post,
                run.interface,
                run.endpoint,
                endpoint,
                reply->Transfer_toggle,
            )
            &&& step == Step::Done(Reply::Status(reply->Transfer_status))
        },
{
    if toggle_stored(pre, run.interface, run.endpoint, reply->Transfer_toggle, post) {
        lemma_toggle_becomes(
            pre,
            post,
            run.interface,
            run.endpoint,
            endpoint,
            reply->Transfer_toggle,
        );
    }
}

/// A bulk transfer that went well is answered with its status; one after which the translator
/// was freed is answered with the status of the transfer, whatever came of that.
pub proof fn a_bulk_transfer_answers_its_status(
    run: IoEndpointTransfer,
    pre: UsbBus,
    reply: Reply,
    post: UsbBus,
    step: Step,
)
    requires
        pre.wf(),
        run.bulk_goes_on(pre, reply, post, step),
    ensures
        run.at == IoEndpointTransferAt::Answer && reply is Transfer && !reply->Transfer_status.fails()
            && reply->Transfer_usb_result == 0 ==> step == Step::Done(
            Reply::Status(reply->Transfer_status),
        ),
        run.at matches IoEndpointTransferAt::Translated { status } ==> post == pre && step == Step::Done(
            Reply::Status(status),
        ),
{
}

/// A control request that ends the halt of an endpoint (request 1 of type 2 with value
/// 0) has the data toggle of that endpoint start at zero, and no other one.
pub proof fn ending_a_halt_resets_the_toggle(
    run: IoControlTransfer,
    pre: UsbBus,
    reply: Reply,
    post: UsbBus,
    step: Step,
    endpoint: UsbEndpointDesc,
)
    requires
        pre.wf(),
        run.at == IoControlTransferAt::Answer,
        run.request.request == 1 && run.request.request_type == 2 && run.request.value == 0,
        pre.interface(run.interface) matches Some(i) && i.signature == USB_INTERFACE_SIGNATURE
            && is_first_endpoint(i, (run.request.index % 256) as u8, endpoint),
        reply matches Reply::Transfer { status, length, usb_result, .. } && !status.fails() && usb_result
            == 0 && (run.direction == 2 || length == run.data_length),
        run.goes_on(pre, reply, post, step),
    ensures
        step == Step::Done(Reply::Status(reply->Transfer_status)),
        toggle_becomes(pre, post, run.interface, (run.request.index % 256) as u8, endpoint, 0),
{
    low_byte_is_the_rest(run.request.index);
    lemma_toggle_becomes(pre, post, run.interface, run.request.index as u8, endpoint, 0);
}

/// A request that is neither an end of a halt, nor a change of configuration (request 9
/// of type 0) or of setting (request 11 of type 1), leaves the bus as it was and is
/// answered with the status of the transfer.
pub proof fn other_requests_change_nothing(
    run: IoControlTransfer,
    pre: UsbBus,
    reply: Reply,
    post: UsbBus,
    step: Step,
)
    requires
        pre.wf(),
        run.at == IoControlTransferAt::Answer,
        !(run.request.request == 1 && run.request.request_type == 2 && run.request.value == 0),
        !(run.request.request == 9 && run.request.request_type == 0),
        !(run.request.request == 11 && run.request.request_type == 1),
        pre.interface(run.interface) matches Some(i) && i.signature == USB_INTERFACE_SIGNATURE,
        reply matches Reply::Transfer { status, length, usb_result, .. } && !status.fails() && usb_result
            == 0 && (run.direction == 2 || length == run.data_length),
        run.goes_on(pre, reply, post, step),
    ensures
        post == pre,
        step == Step::Done(Reply::Status(reply->Transfer_status)),
{
}

/// After a request for another configuration (request 9 of type 0) the interfaces of the
/// old one go first, where there was one; then those of the new one are made, unless the
/// device has been left without a configuration. A request for the configuration in use
/// changes nothing.
pub proof fn a_new_configuration_replaces_the_old_one(
    run: IoControlTransfer,
    pre: UsbBus,
    reply: Reply,
    post: UsbBus,
    step: Step,
)
    requires
        pre.wf(),
        run.at == IoControlTransferAt::Answer,
        run.request.request == 9 && run.request.request_type == 0,
        pre.interface(run.interface) matches Some(i) && i.signature == USB_INTERFACE_SIGNATURE,
        reply matches Reply::Transfer { status, length, usb_result, .. } && !status.fails() && usb_result
            == 0 && (run.direction == 2 || length == run.data_length),
        run.goes_on(pre, reply, post, step),
    ensures
        post == pre,
        match device_of(pre, run.interface).active_config {
            Some(active) => if active.configuration_value == run.request.value {
                step == Step::Done(Reply::Status(reply->Transfer_status))
            } else {
                step matches Step::Call { callee: Frame::RemoveConfig(removal), next } && removal.device
                    == run.interface.device && next == Frame::IoControlTransfer(
                    IoControlTransfer {
                        at: IoControlTransferAt::Removed { status: reply->Transfer_status },
                        ..run
                    },
                )
            },
            None => if run.request.value == 0 {
                step == Step::Done(Reply::Status(reply->Transfer_status))
            } else {
                step matches Step::Call { callee: Frame::SelectConfig(selection), next }
                    && selection.device == run.interface.device && selection.config_value
                    == run.request.value % 256 && next == Frame::IoControlTransfer(
                    IoControlTransfer { at: IoControlTransferAt::Selected, ..run },
                )
            },
        },
{
    low_byte_is_the_rest(run.request.value);
}

/// When the old configuration has gone, the new one is selected, unless there is none;
/// the outcome of the selection is the outcome of the request.
pub proof fn a_removed_configuration_is_followed_by_the_new_one(
    run: IoControlTransfer,
    pre: UsbBus,
    reply: Reply,
    post: UsbBus,
    step: Step,
)
    requires
        run.goes_on(pre, reply, post, step),
    ensures
        run.at is Removed ==> post == pre && if run.request.value == 0 {
            step == Step::Done(Reply::Status(run.at->Removed_status))
        } else {
            step matches Step::Call { callee: Frame::SelectConfig(selection), next } && selection.device
                == run.interface.device && selection.config_value == run.request.value % 256 && next
                == Frame::IoControlTransfer(
                IoControlTransfer { at: IoControlTransferAt::Selected, ..run },
            )
        },
        run.at is Selected ==> post == pre && step == Step::Done(Reply::Status(reply.as_status())),
        run.at is Translated ==> post == pre && step == Step::Done(
            Reply::Status(run.at->Translated_status),
        ),
{
    low_byte_is_the_rest(run.request.value);
}

/// A transfer of data whose length is not the one asked for is an error of the device,
/// though the host controller reports none.
pub proof fn a_short_transfer_is_an_error(
    run: IoControlTransfer,
    pre: UsbBus,
    reply: Reply,
    post: UsbBus,
    step: Step,
)
    requires
        pre.wf(),
        run.at == IoControlTransferAt::Answer,
        run.direction < 2,
        pre.interface(run.interface) matches Some(i) && i.signature == USB_INTERFACE_SIGNATURE,
        reply matches Reply::Transfer { status, length, .. } && !status.fails() && length
            != run.data_length,
        run.goes_on(pre, reply, post, step),
    ensures
        post == pre,
        step == Step::Done(Reply::Status(Status::DeviceError)),
{
}

/// After a control or bulk transfer that failed, the hub that translates for the device
/// is told to clear the buffer of the transaction: request 8 of the port, with the
/// address of the device from bit 4 on and the kind of the endpoint, 0 or 2, from bit 11
/// on. Without such a hub nothing is sent. Either way the answer is that of the transfer.
pub proof fn a_failed_transfer_frees_its_translator(
    control: IoControlTransfer,
    bulk: IoEndpointTransfer,
    pre: UsbBus,
    reply: Reply,
    post: UsbBus,
    step: Step,
)
    requires
        pre.wf(),
        control.at == IoControlTransferAt::Answer,
        bulk.at == IoEndpointTransferAt::Answer,
        bulk.interface == control.interface,
        pre.interface(control.interface) matches Some(i) && i.signature == USB_INTERFACE_SIGNATURE,
        reply matches Reply::Transfer { status, length, usb_result, .. } && (status.fails() || (usb_result
            != 0 && (control.direction == 2 || length == control.data_length))),
        control.goes_on(pre, reply, post, step) || bulk.bulk_goes_on(pre, reply, post, step),
    ensures
        ({
            let translator = device_of(pre, control.interface).translator;
            let hub = translator.translator_hub_address;
            if hub != 0 && hub < pre.max_devices && pre.devices@[hub as int] is Some {
                step matches Step::Act { action: Action::ControlTransfer(t), next } && {
                    &&& control.goes_on(pre, reply, post, step) ==> carries(
                        t,
                        pre.devices@[hub as int]->0,
                        0x23,
                        8,
                        16 * control.interface.device,
                        translator.translator_port_number + 1,
                        0,
                    ) && next == Frame::IoControlTransfer(
                        IoControlTransfer {
                            at: IoControlTransferAt::Translated { status: reply->Transfer_status },
                            ..control
                        },
                    )
                    &&& bulk.bulk_goes_on(pre, reply, post, step) ==> carries(
                        t,
                        pre.devices@[hub as int]->0,
                        0x23,
                        8,
                        16 * control.interface.device + 4096,
                        translator.translator_port_number + 1,
                        0,
                    ) && next == Frame::IoBulkTransfer(
                        IoEndpointTransfer {
                            at: IoEndpointTransferAt::Translated { status: reply->Transfer_status },
                            ..bulk
                        },
                    )
                }
            } else {
                step == Step::Done(Reply::Status(reply->Transfer_status))
            }
        }),
{
    let device = device_of(pre, control.interface);
    let hub = device.translator.translator_hub_address;
    if pre.devices@[hub as int] is Some {
        let h = pre.devices@[hub as int]->0;
        a_translator_buffer_is_named_for_every_address(
            h,
            device.translator.translator_port_number,
            device.address as u16,
        );
    }
}

/// A request for another setting (request 11 of type 1) that names the number of the
/// interface puts the first setting with that alternate number in use, with all its data
/// toggles at zero; the settings are otherwise as they were. Without such a setting, or
/// for the number of another interface, nothing changes.
pub proof fn a_setting_is_switched_by_its_number(
    run: IoControlTransfer,
    pre: UsbBus,
    reply: Reply,
    post: UsbBus,
    step: Step,
    before: UsbInterfaceDesc,
    index: int,
)
    requires
        pre.wf(),
        run.at == IoControlTransferAt::Answer,
        run.request.request == 11 && run.request.request_type == 1,
        pre.interface(run.interface) matches Some(i) && i.signature == USB_INTERFACE_SIGNATURE
            && i.if_desc == Some(before),
        before.active_index < before.settings@.len(),
        reply matches Reply::Transfer { status, length, usb_result, .. } && !status.fails() && usb_result
            == 0 && (run.direction == 2 || length == run.data_length),
        run.goes_on(pre, reply, post, step),
    ensures
        before.settings@[before.active_index as int].descriptor.interface_number != run.request.index
            ==> post == pre && step == Step::Done(Reply::Status(reply->Transfer_status)),
        before.settings@[before.active_index as int].descriptor.interface_number == run.request.index && (
        forall|k: int|
            0 <= k < before.settings@.len() ==> (#[trigger] before.settings@[k]).descriptor.alternate_setting
                != run.request.value % 256) ==> post == pre && step == Step::Done(
            Reply::Status(Status::NotFound),
        ),
        before.settings@[before.active_index as int].descriptor.interface_number == run.request.index && 0
            <= index < before.settings@.len() && before.settings@[index].descriptor.alternate_setting
            == run.request.value % 256 && (forall|k: int|
            0 <= k < index ==> (#[trigger] before.settings@[k]).descriptor.alternate_setting
                != run.request.value % 256) ==> {
            &&& step == Step::Done(Reply::Status(Status::Success))
            &&& post.interface(run.interface) matches Some(j)
            &&& j.if_desc matches Some(after)
            &&& after.active_index == index
            &&& after.settings@.len() == before.settings@.len()
            &&& forall|k: int|
                0 <= k < after.settings@.len() ==> (#[trigger] after.settings@[k]).descriptor
                    == before.settings@[k].descriptor
            &&& forall|k: int|
                0 <= k < after.settings@.len() && k != index ==> (#[trigger] after.settings@[k]).endpoints@
                    == before.settings@[k].endpoints@
            &&& after.settings@[index].endpoints@.len() == before.settings@[index].endpoints@.len()
            &&& forall|e: int|
                0 <= e < after.settings@[index].endpoints@.len() ==> (
                match before.settings@[index].endpoints@[e] {
                    Some(endpoint) => #[trigger] after.settings@[index].endpoints@[e] == Some(
                        UsbEndpointDesc { descriptor: endpoint.descriptor, toggle: 0 },
                    ),
                    None => after.settings@[index].endpoints@[e] is None,
                })
        },
{
    let id = run.interface;
    let alternate = run.request.value as u8;
    low_byte_is_the_rest(run.request.value);
    let p = is_alternate(alternate);
    let settings = before@.settings;
    first_index_is_first(settings, p);
    assert(settings.len() == before.settings@.len());
    assert(forall|k: int|
        0 <= k < settings.len() ==> (#[trigger] settings[k]) == before.settings@[k]@);
    assert(forall|k: int|
        0 <= k < settings.len() ==> (#[trigger] before.settings@[k]).descriptor == settings[k].descriptor);
    if before.settings@[before.active_index as int].descriptor.interface_number == run.request.index {
        if forall|k: int|
            0 <= k < before.settings@.len() ==> (#[trigger] before.settings@[k]).descriptor.alternate_setting
                != run.request.value % 256 {
            if let Some(k) = first_index(settings, p) {
                assert(before.settings@[k].descriptor.alternate_setting == alternate);
            }
        }
        if 0 <= index < before.settings@.len() && before.settings@[index].descriptor.alternate_setting
            == run.request.value % 256 && (forall|k: int|
            0 <= k < index ==> (#[trigger] before.settings@[k]).descriptor.alternate_setting
                != run.request.value % 256) {
            assert forall|k: int| 0 <= k < index implies !p(#[trigger] settings[k]) by {
                assert(before.settings@[k].descriptor.alternate_setting != run.request.value % 256);
            }
            lemma_first_index_found(settings, p, index);
            let after = post.interface(id)->0.if_desc->0;
            assert(after@.settings.len() == after.settings@.len());
            assert(forall|k: int|
                0 <= k < after@.settings.len() ==> after.settings@[k]@ == #[trigger] after@.settings[k]);
            assert forall|k: int| 0 <= k < after.settings@.len() implies (#[trigger] after.settings@[k])@ == (
            if k == index {
                SettingView {
                    endpoints: toggles_cleared(settings[k].endpoints),
                    ..settings[k]
                }
            } else {
                settings[k]
            }) by {
                assert(after@.settings[k] == after.settings@[k]@);
            }
        }
    }
}

/// A string is read only for an index and a language that are not 0, of a connected
/// device that lists the language among its first ones; and a text that is not empty is
/// handed out with a zero behind it.
pub proof fn a_string_is_read_in_a_known_language(
    run: IoGetStringDescriptor,
    bus: UsbBus,
    reply: Reply,
    step: Step,
)
    requires
        bus.wf(),
        is_at_hand(bus, run.interface),
        run.goes_on(bus, reply, step),
    ensures
        ({
            let device = device_of(bus, run.interface);
            let known = exists|i: int|
                0 <= i < 16 && i < device.total_lang_id && #[trigger] device.lang_id@[i]
                    == run.language_id;
            &&& !run.asked && run.string_index != 0 && run.language_id != 0 && known ==> {
                &&& step matches Step::Call { callee: Frame::GetOneString(ask), next }
                &&& ask.device == run.interface.device
                &&& ask.index == run.string_index
                &&& ask.language_id == run.language_id
                &&& next == Frame::IoGetStringDescriptor(IoGetStringDescriptor { asked: true, ..run })
            }
            &&& !run.asked && !(run.string_index != 0 && run.language_id != 0 && known) ==> step
                == Step::Done(Reply::Status(Status::NotFound))
        }),
        run.asked ==> match reply {
            Reply::Text(Some(text)) => if text@.len() == 0 {
                step == Step::Done(Reply::Status(Status::NotFound))
            } else {
                step matches Step::Done(Reply::Text(Some(full))) && full@.len() == text@.len() + 1
                    && full@[text@.len() as int] == 0 && forall|i: int|
                    0 <= i < text@.len() ==> #[trigger] full@[i] == text@[i]
            },
            _ => step == Step::Done(Reply::Status(Status::NotFound)),
        },
{
}

/// A port reset is made of the very port that the device is plugged into, at the hub it
/// hangs on, and its changes are cleared there. A hub is not reset in this way, nor a
/// device whose hub has gone.
pub proof fn a_port_reset_is_made_of_the_port_of_the_device(
    run: IoPortReset,
    pre: UsbBus,
    reply: Reply,
    post: UsbBus,
    step: Step,
)
    requires
        pre.wf(),
        is_at_hand(pre, run.interface),
        run.goes_on(pre, reply, post, step),
    ensures
        ({
            let device = device_of(pre, run.interface);
            let hub = device.parent_if->0;
            let hub_api = pre.interface(hub)->0.hub_api;
            let possible = !interface_of(pre, run.interface).is_hub && device.parent_if is Some
                && pre.interface(hub) is Some && hub_api is Some;
            &&& run.at is Start && !possible ==> step == Step::Done(
                Reply::Status(Status::InvalidParameter),
            )
            &&& run.at is Start && possible && hub_api->0 is Hub ==> {
                &&& step matches Step::Call { callee: Frame::HubResetPort(reset), .. }
                &&& reset.interface == hub && reset.port == device.parent_port && reset.at is Start
            }
            &&& run.at is Start && possible && hub_api->0 is RootHub ==> {
                &&& step matches Step::Call { callee: Frame::RootHubResetPort(reset), .. }
                &&& reset.interface == hub && reset.port == device.parent_port && reset.at is Start
            }
            &&& run.at is Start && possible ==> {
                &&& step matches Step::Call { next: Frame::IoPortReset(next), .. }
                &&& next.interface == run.interface
                &&& next.at == (IoPortResetAt::Reset { parent: hub, api: hub_api->0 })
            }
            &&& run.at is Reset && reply.as_status().fails() ==> step == Step::Done(
                Reply::Status(reply.as_status()),
            )
            &&& run.at is Reset && !reply.as_status().fails() && run.at->Reset_api is Hub ==> {
                &&& step matches Step::Call { callee: Frame::HubClearPortChange(clearing), .. }
                &&& clearing.interface == run.at->Reset_parent && clearing.port == device.parent_port
            }
            &&& run.at is Reset && !reply.as_status().fails() && run.at->Reset_api is RootHub ==> {
                &&& step matches Step::Call { callee: Frame::RootHubClearPortChange(clearing), .. }
                &&& clearing.interface == run.at->Reset_parent && clearing.port == device.parent_port
            }
        }),
        run.at is Start || run.at is Reset ==> post == pre,
{
}

/// After the reset the device answers at address 0 again and is told the address that
/// it had; an error it answers with ends the operation after the pause. Then its
/// descriptors are read again, and a device with a configuration gets its packet size,
/// its descriptor table and the interfaces of its first configuration anew, in this order.
pub proof fn a_reset_device_gets_its_address_back(
    run: IoPortReset,
    pre: UsbBus,
    reply: Reply,
    post: UsbBus,
    step: Step,
)
    requires
        pre.wf(),
        pre.devices@[run.interface.device as int] is Some,
        run.goes_on(pre, reply, post, step),
    ensures
        ({
            let device = device_of(pre, run.interface);
            let address = run.interface.device;
            &&& run.at is Cleared ==> {
                &&& step matches Step::Act { action: Action::ControlTransfer(t), next: Frame::IoPortReset(next) }
                &&& carries(t, UsbDevice { address: 0, ..device }, 0, 5, address as int, 0, 0)
                &&& next.at is Addressed && next.interface == run.interface
            }
            &&& run.at is Addressed ==> {
                &&& step matches Step::Act {
                    action: Action::Stall { micros },
                    next: Frame::IoPortReset(next),
                }
                &&& micros == 2000
                &&& next.at == (IoPortResetAt::Settled { status: reply.as_status() })
                &&& next.interface == run.interface
            }
            &&& run.at is Settled && run.at->Settled_status.fails() ==> step == Step::Done(
                Reply::Status(run.at->Settled_status),
            )
            &&& run.at is Settled && !run.at->Settled_status.fails() ==> {
                &&& step matches Step::Call {
                    callee: Frame::UpdateDescriptors(update),
                    next: Frame::IoPortReset(next),
                }
                &&& update.device == address
                &&& next.at == (IoPortResetAt::Updated { status: run.at->Settled_status })
                &&& next.interface == run.interface
            }
            &&& run.at is Updated && device.active_config is None ==> step == Step::Done(
                Reply::Status(run.at->Updated_status),
            )
            &&& run.at is Updated && device.active_config is Some ==> {
                &&& step matches Step::Call {
                    callee: Frame::RemoveConfig(removal),
                    next: Frame::IoPortReset(next),
                }
                &&& removal.device == address
                &&& next.at is Removed && next.interface == run.interface
                &&& post.devices@[address as int] matches Some(d) && d.dev_desc is None
            }
            &&& run.at is Removed ==> {
                &&& step matches Step::Call {
                    callee: Frame::GetMaxPacketSize0(sizing),
                    next: Frame::IoPortReset(next),
                }
                &&& sizing.device == address && sizing.left == 3
                &&& next.at is Sized && next.interface == run.interface
            }
            &&& run.at is Sized ==> {
                &&& step matches Step::Call {
                    callee: Frame::BuildDescTable(build),
                    next: Frame::IoPortReset(next),
                }
                &&& build.device == address
                &&& next.at is Built && next.interface == run.interface
            }
            &&& run.at is Built && reply.as_status().fails() ==> step == Step::Done(
                Reply::Status(reply.as_status()),
            )
            &&& run.at is Built && !reply.as_status().fails() ==> {
                let configs = device.dev_desc->0.configs@;
                if device.dev_desc is Some && configs.len() > 0 && configs[0] is Some {
                    let value = configs[0]->0.descriptor.configuration_value;
                    &&& step matches Step::Act {
                        action: Action::ControlTransfer(t),
                        next: Frame::IoPortReset(next),
                    }
                    &&& carries(t, device, 0, 9, value as int, 0, 0)
                    &&& next == (IoPortReset { at: IoPortResetAt::Configured { value }, ..run })
                } else {
                    step == Step::Done(Reply::Status(Status::DeviceError))
                }
            }
            &&& run.at is Configured ==> {
                &&& step matches Step::Call {
                    callee: Frame::SelectConfig(selection),
                    next: Frame::IoPortReset(next),
                }
                &&& selection.device == address && selection.config_value == run.at->Configured_value
                &&& next.at is Selected && next.interface == run.interface
            }
            &&& run.at is Selected ==> step == Step::Done(Reply::Status(reply.as_status()))
            &&& !(run.at is Updated) ==> post == pre
        }),
{
    let device = device_of(pre, run.interface);
    standard_requests_on_the_wire(
        UsbDevice { address: 0, ..device },
        0,
        0,
        0,
        0,
        run.interface.device,
    );
    if device.dev_desc is Some && device.dev_desc->0.configs@.len() > 0
        && device.dev_desc->0.configs@[0] is Some {
        standard_requests_on_the_wire(
            device,
            0,
            0,
            0,
            0,
            device.dev_desc->0.configs@[0]->0.descriptor.configuration_value,
        );
    }
}

} // verus!
