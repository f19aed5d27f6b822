//! Laws of enumeration: what a new device is told and given, which ports are looked
//! at, and what becomes of a port that changed.

use crate::bits::{has_bit, port_masks_pick_bits, shifted_one_picks_a_bit};
use crate::request_laws::{carries, request_type_is_a_sum, standard_requests_on_the_wire};
use crate::search::first_between_is_first;
use crate::status::Status;
use crate::task::{Action, Frame, Progress, Reply, Step};
use crate::usb_2_host_controller::{UsbControlTransfer, UsbDataDirection, UsbPortStatus};
use crate::usb_bus_defs::{InterfaceId, UsbBus, UsbHubApi, UsbInterface};
use crate::usb_enumer::{
    child_behind, exactly_the_changed_ports_are_enumerated, failed_child, is_behind, is_free,
    lemma_next_changed_port, next_changed_port, next_failed_port, port_changed, EnumerateNewDevice,
    EnumerateNewDeviceAt, EnumeratePort, EnumeratePortAt, HubEnumeration, HubEnumerationAt,
    RootHubEnumeration, RootHubEnumerationAt,
};
use vstd::prelude::*;

verus! {

/// The first transfer to a new device goes to address 0 and tells it the lowest free
/// address, at the speed and with the packet size that the state of the port gives:
/// bit 11 stands for super speed with packets of 512 bytes, bit 10 for high speed with
/// 64, bit 9 for low speed with 8, and none of them for full speed with 8.
pub proof fn a_new_device_is_told_the_lowest_free_address(
    run: EnumerateNewDevice,
    pre: UsbBus,
    reply: Reply,
    post: UsbBus,
    transfer: UsbControlTransfer,
    next: Frame,
)
    requires
        pre.wf(),
        run.at is Port,
        run.goes_on(pre, reply, post, Step::Act { action: Action::ControlTransfer(transfer), next }),
    ensures
        post == pre,
        transfer.address == 0,
        transfer.request.request_type == 0,
        transfer.request.request == 5,
        transfer.request.index == 0,
        transfer.request.length == 0,
        transfer.length == 0,
        transfer.direction == UsbDataDirection::NoData,
        transfer.timeout == 500,
        1 <= transfer.request.value < 256,
        transfer.request.value < pre.max_devices,
        pre.devices@[transfer.request.value as int] is None,
        forall|a: int| 1 <= a < transfer.request.value ==> #[trigger] pre.devices@[a] is Some,
        ({
            let state = reply.as_port().port_status as int;
            &&& has_bit(state, 0)
            &&& has_bit(state, 11) ==> transfer.speed == 3 && transfer.max_packet == 512
            &&& !has_bit(state, 11) && has_bit(state, 10) ==> transfer.speed == 2
                && transfer.max_packet == 64
            &&& !has_bit(state, 11) && !has_bit(state, 10) && has_bit(state, 9) ==> transfer.speed == 1
                && transfer.max_packet == 8
            &&& !has_bit(state, 11) && !has_bit(state, 10) && !has_bit(state, 9) ==> transfer.speed == 0
                && transfer.max_packet == 8
        }),
{
    request_type_is_a_sum(false, 0, 0);
    port_masks_pick_bits(reply.as_port().port_status);
    first_between_is_first(pre.devices@, 1, pre.usable_slots(), is_free());
}

/// A low- or full-speed device behind a high-speed hub is served by that very hub,
/// through the port it is plugged into, counted from 1: the transfer that gives it its
/// address says so, and so does the slot that it gets, whose parent is the same hub.
/// Behind any other hub a device has the translator of its hub. The slot also holds
/// the speed and the packet size of that transfer.
pub proof fn a_slow_device_is_served_by_its_high_speed_hub(
    run: EnumerateNewDevice,
    pre: UsbBus,
    reply: Reply,
    mid: UsbBus,
    transfer: UsbControlTransfer,
    next: EnumerateNewDevice,
    answer: Reply,
    post: UsbBus,
    step: Step,
)
    requires
        pre.wf(),
        run.at is Port,
        run.goes_on(
            pre,
            reply,
            mid,
            Step::Act {
                action: Action::ControlTransfer(transfer),
                next: Frame::EnumerateNewDevice(next),
            },
        ),
        next.goes_on(mid, answer, post, step),
    ensures
        pre.devices@[run.hub.device as int] matches Some(hub) && {
            let slow = transfer.speed < 2;
            &&& hub.address == run.hub.device
            &&& slow && hub.speed == 2 ==> transfer.translator.translator_hub_address == run.hub.device
            &&& slow && hub.speed == 2 ==> transfer.translator.translator_port_number == (run.port + 1) % 256
            &&& !(slow && hub.speed == 2) ==> transfer.translator == hub.translator
        },
        post.devices@[transfer.request.value as int] matches Some(child) && {
            &&& child.address == transfer.request.value
            &&& child.parent_addr == run.hub.device
            &&& child.parent_port == run.port
            &&& child.parent_if == Some(run.hub)
            &&& child.translator == transfer.translator
            &&& child.speed == transfer.speed
            &&& child.max_packet0 == transfer.max_packet
        },
{
    first_between_is_first(pre.devices@, 1, pre.usable_slots(), is_free());
}

/// A new device is one hub further from the root than its hub, up to 255; it is
/// connected, has no descriptors, no languages and no interfaces yet, and no other
/// slot changes. It keeps its slot whatever it answers, and an error it answers with
/// ends the enumeration.
pub proof fn a_new_device_starts_empty(
    run: EnumerateNewDevice,
    pre: UsbBus,
    reply: Reply,
    post: UsbBus,
    step: Step,
)
    requires
        pre.wf(),
        run.at is Addressed,
        pre.devices@[run.hub.device as int] is Some,
        run.goes_on(pre, reply, post, step),
    ensures
        post.devices@[run.at->Addressed_address as int] matches Some(child) && {
            let tier = pre.devices@[run.hub.device as int]->0.tier;
            &&& tier < 255 ==> child.tier == tier + 1
            &&& tier == 255 ==> child.tier == 255
            &&& child.connected
            &&& !child.disconnect_fail
            &&& child.dev_desc is None
            &&& child.active_config is None
            &&& child.total_lang_id == 0
            &&& forall|i: int| 0 <= i < 16 ==> #[trigger] child.lang_id@[i] == 0
            &&& child.num_of_interface == 0
            &&& child.interfaces@.len() == 16
            &&& forall|i: int| 0 <= i < 16 ==> #[trigger] child.interfaces@[i] is None
        },
        post.devices@.len() == pre.devices@.len(),
        forall|a: int|
            0 <= a < 256 && a != run.at->Addressed_address ==> #[trigger] post.devices@[a]
                == pre.devices@[a],
        reply.as_status().fails() ==> step == Step::Done(Reply::Status(reply.as_status())),
        !reply.as_status().fails() ==> step matches Step::Act { action: Action::Stall { micros: 2000 }, .. },
{
}

/// A port without a device has nothing to address, and a bus without a free address
/// takes no device.
pub proof fn a_device_needs_a_connection_and_an_address(
    run: EnumerateNewDevice,
    pre: UsbBus,
    reply: Reply,
    post: UsbBus,
    step: Step,
)
    requires
        pre.wf(),
        run.at is Port,
        pre.devices@[run.hub.device as int] is Some,
        !reply.as_status().fails(),
        run.goes_on(pre, reply, post, step),
    ensures
        step == Step::Done(Reply::Status(Status::NotFound)) <==> !has_bit(
            reply.as_port().port_status as int,
            0,
        ),
        step == Step::Done(Reply::Status(Status::AccessDenied)) <==> has_bit(
            reply.as_port().port_status as int,
            0,
        ) && forall|a: int|
            1 <= a < 256 && a < pre.max_devices ==> #[trigger] pre.devices@[a] is Some,
        step is Act || step is Done,
{
    port_masks_pick_bits(reply.as_port().port_status);
    first_between_is_first(pre.devices@, 1, pre.usable_slots(), is_free());
}

/// A map of changes names the port `p` exactly when its bit `p + 1`, counted from the
/// lowest bit of its first byte, is 1.
pub proof fn a_port_is_named_by_its_bit(changes: Seq<u8>, port: int)
    requires
        0 <= port,
    ensures
        port_changed(changes, port) <==> (port + 1) / 8 < changes.len() && has_bit(
            changes[(port + 1) / 8] as int,
            (port + 1) % 8,
        ),
{
    if (port + 1) / 8 < changes.len() {
        shifted_one_picks_a_bit(changes[(port + 1) / 8], (port + 1) % 8);
    }
}

/// The ports that are enumerated are exactly those below the number of ports of the
/// hub whose bit in the map of changes is 1, each once and in order.
pub proof fn the_ports_with_a_set_bit_are_enumerated(run: HubEnumeration, hub: UsbInterface, from: int)
    requires
        0 <= from,
    ensures
        forall|p: int|
            #[trigger] run.enumerates_all(hub, from).contains(p) <==> {
                &&& from <= p < hub.num_of_port
                &&& (p + 1) / 8 < hub.change_map@.len()
                &&& has_bit(hub.change_map@[(p + 1) / 8] as int, (p + 1) % 8)
            },
        forall|j: int, k: int|
            0 <= j < k < run.enumerates_all(hub, from).len() ==> run.enumerates_all(hub, from)[j]
                < run.enumerates_all(hub, from)[k],
{
    exactly_the_changed_ports_are_enumerated(run, hub, from);
    assert forall|p: int|
        #[trigger] run.enumerates_all(hub, from).contains(p) <==> {
            &&& from <= p < hub.num_of_port
            &&& (p + 1) / 8 < hub.change_map@.len()
            &&& has_bit(hub.change_map@[(p + 1) / 8] as int, (p + 1) % 8)
        } by {
        if 0 <= p {
            a_port_is_named_by_its_bit(hub.change_map@, p);
        }
    }
}

/// Setting further bits of a map of changes never takes a port out of the ports that
/// are enumerated.
pub proof fn more_changes_enumerate_more_ports(
    run: HubEnumeration,
    hub: UsbInterface,
    more: UsbInterface,
    from: int,
    port: int,
)
    requires
        0 <= from,
        more.num_of_port == hub.num_of_port,
        hub.change_map@.len() <= more.change_map@.len(),
        forall|i: int, place: int|
            0 <= i < hub.change_map@.len() && 0 <= place < 8 && #[trigger] has_bit(
                hub.change_map@[i] as int,
                place,
            ) ==> has_bit(more.change_map@[i] as int, place),
        run.enumerates_all(hub, from).contains(port),
    ensures
        run.enumerates_all(more, from).contains(port),
{
    the_ports_with_a_set_bit_are_enumerated(run, hub, from);
    the_ports_with_a_set_bit_are_enumerated(run, more, from);
    let i = (port + 1) / 8;
    let place = (port + 1) % 8;
    assert(has_bit(hub.change_map@[i] as int, place));
    assert(has_bit(more.change_map@[i] as int, place));
}

/// A step turns to the first port from one on whose bit in the map of changes is set, or to
/// the changes of the hub itself where no such port is left. Without a map there is nothing
/// to do.
pub open spec fn turns_to_changed_port(run: HubEnumeration, hub: UsbInterface, step: Step, from: int) -> bool {
    let changes = hub.change_map@;
    match step {
        Step::Call { callee: Frame::EnumeratePort(enumeration), next } => {
            let port = enumeration.port as int;
            &&& enumeration.hub == run.interface
            &&& enumeration.at is Start
            &&& from <= port < hub.num_of_port
            &&& (port + 1) / 8 < changes.len()
            &&& has_bit(changes[(port + 1) / 8] as int, (port + 1) % 8)
            &&& forall|p: int|
                from <= p < port && (p + 1) / 8 < changes.len() ==> !#[trigger] has_bit(
                    changes[(p + 1) / 8] as int,
                    (p + 1) % 8,
                )
            &&& next == Frame::HubEnumeration(
                HubEnumeration { port: enumeration.port, at: HubEnumerationAt::Enumerated, ..run },
            )
        },
        Step::Call { callee: Frame::HubAckHubStatus(acknowledgement), next } => {
            &&& acknowledgement.device == run.interface.device
            &&& changes.len() > 0
            &&& forall|p: int|
                from <= p < hub.num_of_port && (p + 1) / 8 < changes.len() ==> !#[trigger] has_bit(
                    changes[(p + 1) / 8] as int,
                    (p + 1) % 8,
                )
            &&& next matches Frame::HubEnumeration(next) && next.interface == run.interface
                && next.at is Acknowledged
        },
        _ => step == Step::Done(Reply::Nothing) && changes.len() == 0,
    }
}

proof fn lemma_turns_to_changed_port(run: HubEnumeration, hub: UsbInterface, from: int)
    requires
        0 <= from,
    ensures
        turns_to_changed_port(run, hub, run.enumerates(hub, from), from),
{
    let changes = hub.change_map@;
    let port = next_changed_port(changes, hub.num_of_port as int, from);
    lemma_next_changed_port(changes, hub.num_of_port as int, from);
    assert forall|p: int|
        from <= p < port && p < hub.num_of_port && (p + 1) / 8 < changes.len() implies !#[trigger] has_bit(
        changes[(p + 1) / 8] as int,
        (p + 1) % 8,
    ) by {
        a_port_is_named_by_its_bit(changes, p);
        assert(!port_changed(changes, p));
    }
    if port < hub.num_of_port {
        a_port_is_named_by_its_bit(changes, port);
    }
}

/// A step of the enumeration of a hub that turns to a port turns to the first one whose
/// bit is set, from the port behind the last one on; and it turns to the changes of the
/// hub itself only when no such port is left.
pub proof fn a_hub_enumeration_turns_to_the_next_changed_port(
    run: HubEnumeration,
    pre: UsbBus,
    post: UsbBus,
    step: Step,
)
    requires
        pre.wf(),
        run.at is Enumerated,
        pre.interface(run.interface) is Some,
        run.goes_on(pre, post, step),
    ensures
        post == pre,
        turns_to_changed_port(run, pre.interface(run.interface)->0, step, run.port + 1),
{
    lemma_turns_to_changed_port(run, pre.interface(run.interface)->0, run.port + 1);
}

/// When all changes of a hub have been dealt with, its map of changes is empty, and
/// nothing else on the bus is different.
pub proof fn the_changes_of_a_hub_are_used_up(run: HubEnumeration, pre: UsbBus, post: UsbBus, step: Step)
    requires
        pre.wf(),
        run.at is Acknowledged,
        pre.interface(run.interface) is Some,
        run.goes_on(pre, post, step),
    ensures
        step == Step::Done(Reply::Nothing),
        post.interface(run.interface) matches Some(hub) && hub.change_map@.len() == 0 && hub == (
        UsbInterface { change_map: hub.change_map, ..pre.interface(run.interface)->0 }),
        forall|a: int|
            0 <= a < 256 && a != run.interface.device ==> #[trigger] post.devices@[a] == pre.devices@[a],
{
}

/// A slot holds a device behind a port of a hub.
pub open spec fn is_on_port(bus: UsbBus, slot: int, hub: u8, port: int) -> bool {
    &&& 1 <= slot < 256
    &&& slot < bus.max_devices
    &&& bus.devices@[slot] matches Some(child)
    &&& child.parent_addr == hub
    &&& child.parent_port == port
}

/// A slot holds the first device behind a port of a hub.
pub open spec fn is_first_on_port(bus: UsbBus, slot: int, hub: u8, port: int) -> bool {
    &&& is_on_port(bus, slot, hub, port)
    &&& forall|a: int| a < slot ==> !#[trigger] is_on_port(bus, a, hub, port)
}

proof fn lemma_child_behind(bus: UsbBus, hub: u8, port: u8)
    requires
        bus.wf(),
    ensures
        match child_behind(bus, hub, port) {
            Some(child) => is_first_on_port(bus, child, hub, port as int),
            None => forall|a: int| !#[trigger] is_on_port(bus, a, hub, port as int),
        },
{
    let p = is_behind(hub, port);
    first_between_is_first(bus.devices@, 1, bus.usable_slots(), p);
    assert forall|a: int| #[trigger] is_on_port(bus, a, hub, port as int) implies p(bus.devices@[a]) by {}
}

/// The device that is found behind a port of a hub is the one whose parent is that hub
/// at that port, and none is found only where no slot holds such a device.
pub proof fn a_child_is_found_by_its_hub_and_port(bus: UsbBus, hub: u8, port: u8)
    requires
        bus.wf(),
    ensures
        match child_behind(bus, hub, port) {
            Some(child) => is_first_on_port(bus, child, hub, port as int),
            None => forall|a: int| !#[trigger] is_on_port(bus, a, hub, port as int),
        },
{
    lemma_child_behind(bus, hub, port);
}

/// What becomes of a port that was looked at. An error other than that of a device is
/// passed on. Where neither connection, enabling, over-current nor reset has changed
/// (bits 0, 1, 3 and 4), nothing is done. A port that has become overloaded is an error.
/// Otherwise the device that was there goes first.
pub proof fn a_changed_port_loses_its_old_device(run: EnumeratePort, bus: UsbBus, reply: Reply, api: UsbHubApi)
    requires
        bus.wf(),
        run.at == (EnumeratePortAt::Status { api }),
    ensures
        ({
            let step = run.next(bus, reply);
            let status = reply.as_status();
            let state = reply.as_port().port_status as int;
            let change = reply.as_port().port_change_status as int;
            let readable = !status.fails() || status == Status::DeviceError;
            let changed = has_bit(change, 0) || has_bit(change, 1) || has_bit(change, 3) || has_bit(
                change,
                4,
            );
            let overloaded = has_bit(change, 3) && has_bit(state, 3);
            &&& !readable ==> step == Step::Done(Reply::Status(status))
            &&& readable && !changed ==> step == Step::Done(Reply::Status(Status::Success))
            &&& readable && changed && overloaded ==> step == Step::Done(
                Reply::Status(Status::DeviceError),
            )
            &&& readable && changed && !overloaded ==> (forall|slot: int| #[trigger]
                is_first_on_port(bus, slot, run.hub.device, run.port as int) ==> {
                    &&& step matches Step::Call { callee: Frame::RemoveDevice(removal), next }
                    &&& removal.device == slot
                    &&& removal.at is Start
                    &&& next == Frame::EnumeratePort(
                        EnumeratePort {
                            at: EnumeratePortAt::Removed { api, status, state: reply.as_port() },
                            ..run
                        },
                    )
                })
        }),
{
    port_masks_pick_bits(reply.as_port().port_status);
    port_masks_pick_bits(reply.as_port().port_change_status);
    lemma_child_behind(bus, run.hub.device, run.port);
    assert forall|slot: int| #[trigger]
        is_first_on_port(bus, slot, run.hub.device, run.port as int) implies child_behind(
        bus,
        run.hub.device,
        run.port,
    ) == Some(slot) by {
        assert(is_on_port(bus, slot, run.hub.device, run.port as int));
        let child = child_behind(bus, run.hub.device, run.port)->0;
        assert(is_on_port(bus, child, run.hub.device, run.port as int));
    }
}

/// What is done with a port once nothing hangs on it: a device that is connected (bit 0)
/// is enumerated, after a reset unless the port has just been reset (bit 4) and could be
/// read without an error; without one the changes are cleared.
pub proof fn a_connected_port_gets_a_new_device(
    run: EnumeratePort,
    bus: UsbBus,
    reply: Reply,
    api: UsbHubApi,
    status: Status,
    state: UsbPortStatus,
)
    requires
        bus.wf(),
        run.at == (EnumeratePortAt::Removed { api, status, state }) || {
            &&& run.at == (EnumeratePortAt::Status { api })
            &&& status == reply.as_status()
            &&& state == reply.as_port()
            &&& !status.fails() || status == Status::DeviceError
            &&& has_bit(state.port_change_status as int, 0) || has_bit(state.port_change_status as int, 1)
                || has_bit(state.port_change_status as int, 4)
            &&& !has_bit(state.port_change_status as int, 3) || !has_bit(state.port_status as int, 3)
            &&& forall|a: int| !#[trigger] is_on_port(bus, a, run.hub.device, run.port as int)
        },
    ensures
        has_bit(state.port_status as int, 0) ==> {
            &&& run.next(bus, reply) matches Step::Call {
                callee: Frame::EnumerateNewDevice(enumeration),
                next,
            }
            &&& enumeration.hub == run.hub
            &&& enumeration.port == run.port
            &&& enumeration.at matches EnumerateNewDeviceAt::Start { reset }
            &&& reset <==> !has_bit(state.port_change_status as int, 4) || status == Status::DeviceError
            &&& next == Frame::EnumeratePort(
                EnumeratePort { at: EnumeratePortAt::Enumerated { api }, ..run },
            )
        },
        !has_bit(state.port_status as int, 0) ==> clears_port(run.next(bus, reply), api, run, status),
{
    port_masks_pick_bits(state.port_status);
    port_masks_pick_bits(state.port_change_status);
    lemma_child_behind(bus, run.hub.device, run.port);
    if let Some(child) = child_behind(bus, run.hub.device, run.port) {
        assert(is_on_port(bus, child, run.hub.device, run.port as int));
    }
}

/// A step has the changes of the port cleared and then ends with a status.
pub open spec fn clears_port(step: Step, api: UsbHubApi, run: EnumeratePort, status: Status) -> bool {
    &&& step matches Step::Call { callee, next }
    &&& match api {
        UsbHubApi::Hub => callee matches Frame::HubClearPortChange(clearing) && clearing.interface
            == run.hub && clearing.port == run.port && clearing.at is Start,
        UsbHubApi::RootHub => callee matches Frame::RootHubClearPortChange(clearing)
            && clearing.interface == run.hub && clearing.port == run.port && clearing.at is Start,
    }
    &&& next == Frame::EnumeratePort(EnumeratePort { at: EnumeratePortAt::Cleared { status }, ..run })
}

/// After a new device was enumerated, the changes of the port are cleared, and then the
/// outcome of the enumeration is the outcome for the port.
pub proof fn the_outcome_of_a_port_is_that_of_its_device(run: EnumeratePort, bus: UsbBus, reply: Reply)
    ensures
        run.at matches EnumeratePortAt::Enumerated { api } ==> clears_port(
            run.next(bus, reply),
            api,
            run,
            reply.as_status(),
        ),
        run.at matches EnumeratePortAt::Cleared { status } ==> run.next(bus, reply) == Step::Done(
            Reply::Status(status),
        ),
{
}

/// A step looks at a port of a hub and goes on as told: a hub device has its status read
/// and its changes acknowledged, the host controller is asked for a root port.
pub open spec fn looks_at(step: Step, api: UsbHubApi, hub: InterfaceId, port: u8, next: Frame) -> bool {
    match api {
        UsbHubApi::Hub => step matches Step::Call { callee: Frame::HubGetPortStatus(look), next: then }
            && look.interface == hub && look.port == port && look.at is Start && then == next,
        UsbHubApi::RootHub => step == (Step::Act { action: Action::GetRootHubPortStatus { port }, next }),
    }
}

/// A port is looked at by the operations that its hub answers to.
pub proof fn a_port_is_looked_at_first(run: EnumeratePort, bus: UsbBus, reply: Reply)
    requires
        bus.wf(),
        run.at is Start,
    ensures
        match bus.interface(run.hub) {
            Some(hub) if hub.hub_api is Some => looks_at(
                run.next(bus, reply),
                hub.hub_api->0,
                run.hub,
                run.port,
                Frame::EnumeratePort(
                    EnumeratePort { at: EnumeratePortAt::Status { api: hub.hub_api->0 }, ..run },
                ),
            ),
            _ => run.next(bus, reply) == Step::Done(Reply::Status(Status::InvalidParameter)),
        },
{
}

/// A new device has a tenth of a second to settle on its port. Then the port is reset,
/// where that is asked for, by the operations that the hub answers to, and looked at.
pub proof fn a_new_device_is_reset_before_it_is_addressed(
    run: EnumerateNewDevice,
    pre: UsbBus,
    reply: Reply,
    post: UsbBus,
    step: Step,
)
    requires
        pre.wf(),
        pre.interface(run.hub) is Some,
        run.goes_on(pre, reply, post, step),
    ensures
        ({
            let hub = pre.interface(run.hub)->0;
            let status = reply.as_status();
            let port = Frame::EnumerateNewDevice(
                EnumerateNewDevice { at: EnumerateNewDeviceAt::Port, ..run },
            );
            &&& run.at is Start && hub.hub_api is None ==> step == Step::Done(
                Reply::Status(Status::InvalidParameter),
            )
            &&& run.at is Start && hub.hub_api is Some ==> step == (Step::Act {
                action: Action::Stall { micros: 100000 },
                next: Frame::EnumerateNewDevice(
                    EnumerateNewDevice {
                        at: EnumerateNewDeviceAt::Stable {
                            api: hub.hub_api->0,
                            reset: run.at->Start_reset,
                        },
                        ..run
                    },
                ),
            })
            &&& run.at is Stable && !run.at->Stable_reset ==> looks_at(
                step,
                run.at->Stable_api,
                run.hub,
                run.port,
                port,
            )
            &&& run.at is Stable && run.at->Stable_reset ==> {
                &&& step matches Step::Call { callee, next }
                &&& match run.at->Stable_api {
                    UsbHubApi::Hub => callee matches Frame::HubResetPort(reset) && reset.interface
                        == run.hub && reset.port == run.port && reset.at is Start,
                    UsbHubApi::RootHub => callee matches Frame::RootHubResetPort(reset)
                        && reset.interface == run.hub && reset.port == run.port && reset.at is Start,
                }
                &&& next == Frame::EnumerateNewDevice(
                    EnumerateNewDevice {
                        at: EnumerateNewDeviceAt::Reset { api: run.at->Stable_api },
                        ..run
                    },
                )
            }
            &&& run.at is Reset && status.fails() ==> step == Step::Done(Reply::Status(status))
            &&& run.at is Reset && !status.fails() ==> looks_at(
                step,
                run.at->Reset_api,
                run.hub,
                run.port,
                port,
            )
            &&& !(run.at is Addressed) ==> post == pre
        }),
{
}

/// A device that has its address is asked for its packet size, then for its descriptors;
/// then it is switched to its first configuration and gets the interfaces of that very
/// configuration. The first error on the way ends the enumeration with its status; after
/// the last step it has succeeded.
pub proof fn a_new_device_is_set_up_in_order(
    run: EnumerateNewDevice,
    pre: UsbBus,
    reply: Reply,
    post: UsbBus,
    step: Step,
)
    requires
        pre.wf(),
        run.goes_on(pre, reply, post, step),
    ensures
        ({
            let status = reply.as_status();
            &&& run.at matches EnumerateNewDeviceAt::Settled { address } ==> {
                &&& step matches Step::Call {
                    callee: Frame::GetMaxPacketSize0(sizing),
                    next: Frame::EnumerateNewDevice(next),
                }
                &&& sizing.device == address && sizing.left == 3
                &&& next == (EnumerateNewDevice { at: EnumerateNewDeviceAt::Sized { address }, ..run })
            }
            &&& (run.at is Sized || run.at is Built || run.at is Configured || run.at is Selected)
                && status.fails() ==> step == Step::Done(Reply::Status(status))
            &&& run.at matches EnumerateNewDeviceAt::Sized { address } ==> !status.fails() ==> {
                &&& step matches Step::Call {
                    callee: Frame::BuildDescTable(build),
                    next: Frame::EnumerateNewDevice(next),
                }
                &&& build.device == address
                &&& next == (EnumerateNewDevice { at: EnumerateNewDeviceAt::Built { address }, ..run })
            }
            &&& run.at matches EnumerateNewDeviceAt::Built { address } ==> !status.fails() ==> {
                let device = pre.devices@[address as int]->0;
                let configs = device.dev_desc->0.configs@;
                if pre.devices@[address as int] is Some && device.dev_desc is Some && configs.len() > 0
                    && configs[0] is Some {
                    let value = configs[0]->0.descriptor.configuration_value;
                    &&& step matches Step::Act {
                        action: Action::ControlTransfer(t),
                        next: Frame::EnumerateNewDevice(next),
                    }
                    &&& carries(t, device, 0, 9, value as int, 0, 0)
                    &&& t.address == address
                    &&& next == (EnumerateNewDevice {
                        at: EnumerateNewDeviceAt::Configured { address, value },
                        ..run
                    })
                } else {
                    step == Step::Done(Reply::Status(Status::DeviceError))
                }
            }
            &&& run.at matches EnumerateNewDeviceAt::Configured { address, value } ==> !status.fails() ==> {
                &&& step matches Step::Call {
                    callee: Frame::SelectConfig(selection),
                    next: Frame::EnumerateNewDevice(next),
                }
                &&& selection.device == address && selection.config_value == value
                &&& next == (EnumerateNewDevice { at: EnumerateNewDeviceAt::Selected, ..run })
            }
            &&& run.at is Selected && !status.fails() ==> step == (Step::Act {
                action: Action::ReportProgress(Progress::Hotplug),
                next: Frame::EnumerateNewDevice(
                    EnumerateNewDevice { at: EnumerateNewDeviceAt::Reported, ..run },
                ),
            })
            &&& run.at is Reported ==> step == Step::Done(Reply::Status(Status::Success))
            &&& !(run.at is Addressed) ==> post == pre
        }),
{
    if let EnumerateNewDeviceAt::Built { address } = run.at {
        if pre.devices@[address as int] is Some {
            let device = pre.devices@[address as int]->0;
            if device.dev_desc is Some && device.dev_desc->0.configs@.len() > 0
                && device.dev_desc->0.configs@[0] is Some {
                standard_requests_on_the_wire(
                    device,
                    0,
                    0,
                    0,
                    0,
                    device.dev_desc->0.configs@[0]->0.descriptor.configuration_value,
                );
            }
        }
    }
}

/// The first device behind a port of a hub is one that could not be removed before.
pub open spec fn has_leftover(bus: UsbBus, hub: u8, port: int) -> bool {
    exists|slot: int| #[trigger]
        is_first_on_port(bus, slot, hub, port) && bus.devices@[slot]->0.disconnect_fail
}

/// The root hub has every port looked at, in order and without leaving one out, whatever
/// its state; before that, a device that could not be removed from the port is removed.
/// The rounds are counted up to a limit.
pub proof fn every_root_port_is_looked_at(run: RootHubEnumeration, pre: UsbBus, post: UsbBus, step: Step)
    requires
        pre.wf(),
        pre.interface(run.interface) is Some,
        run.goes_on(pre, post, step),
    ensures
        ({
            let hub = pre.interface(run.interface)->0;
            let port: int = if run.at is Start {
                0
            } else if run.at is Removed {
                run.port as int
            } else {
                run.port + 1
            };
            let left = has_leftover(pre, run.interface.device, port);
            let looks = {
                &&& step matches Step::Call {
                    callee: Frame::EnumeratePort(enumeration),
                    next: Frame::RootHubEnumeration(next),
                }
                &&& enumeration.hub == run.interface
                &&& enumeration.port == port
                &&& enumeration.at is Start
                &&& next == (RootHubEnumeration {
                    port: enumeration.port,
                    at: RootHubEnumerationAt::Enumerated,
                    ..run
                })
            };
            let removes = {
                &&& step matches Step::Call {
                    callee: Frame::RemoveDevice(removal),
                    next: Frame::RootHubEnumeration(next),
                }
                &&& is_first_on_port(pre, removal.device as int, run.interface.device, port)
                &&& pre.devices@[removal.device as int]->0.disconnect_fail
                &&& next.interface == run.interface && next.port == port && next.at is Removed
            };
            &&& run.at is Removed ==> looks
            &&& !(run.at is Removed) && port >= hub.num_of_port ==> step == Step::Done(Reply::Nothing)
            &&& !(run.at is Removed) && port < hub.num_of_port && !left ==> looks
            &&& !(run.at is Removed) && port < hub.num_of_port && left ==> removes
            &&& post.interface(run.interface) matches Some(after) && after == (UsbInterface {
                poll_count: after.poll_count,
                ..hub
            }) && after.poll_count == (if run.at is Start && hub.poll_count < 200 {
                hub.poll_count + 1
            } else {
                hub.poll_count as int
            })
        }),
{
    let port: int = if run.at is Start {
        0
    } else if run.at is Removed {
        run.port as int
    } else {
        run.port + 1
    };
    lemma_failed_child(pre, run.interface.device, port as u8);
}

proof fn lemma_failed_child(bus: UsbBus, hub: u8, port: u8)
    requires
        bus.wf(),
    ensures
        match failed_child(bus, hub, port) {
            Some(child) => is_first_on_port(bus, child, hub, port as int)
                && bus.devices@[child]->0.disconnect_fail,
            None => forall|a: int| #[trigger]
                is_first_on_port(bus, a, hub, port as int) ==> !bus.devices@[a]->0.disconnect_fail,
        },
{
    lemma_child_behind(bus, hub, port);
    assert forall|a: int| #[trigger] is_first_on_port(bus, a, hub, port as int) implies child_behind(
        bus,
        hub,
        port,
    ) == Some(a) by {
        assert(is_on_port(bus, a, hub, port as int));
        let child = child_behind(bus, hub, port)->0;
        assert(is_on_port(bus, child, hub, port as int));
    }
}

proof fn lemma_next_failed_port(bus: UsbBus, hub: u8, ports: int, from: int)
    requires
        0 <= from,
        ports < 256,
    ensures
        ({
            let port = next_failed_port(bus, hub, ports, from);
            &&& from <= port
            &&& port < ports ==> failed_child(bus, hub, port as u8) is Some
            &&& forall|p: u8| from <= p < port && p < ports ==> #[trigger] failed_child(bus, hub, p) is None
        }),
    decreases ports - from,
{
    if from < ports && failed_child(bus, hub, from as u8) is None {
        lemma_next_failed_port(bus, hub, ports, from + 1);
        let port = next_failed_port(bus, hub, ports, from);
        assert forall|p: u8| from <= p < port && p < ports implies #[trigger] failed_child(bus, hub, p)
            is None by {
            if p == from {
                assert(p == from as u8);
            }
        }
    }
}

/// Before the changed ports of a hub are enumerated, every device that could not be
/// removed from one of its ports is removed, port by port; then the first changed port is
/// turned to.
pub proof fn what_could_not_go_goes_first(run: HubEnumeration, pre: UsbBus, post: UsbBus, step: Step)
    requires
        pre.wf(),
        pre.interface(run.interface) is Some,
        run.at is Start || run.at is Removed,
        run.goes_on(pre, post, step),
    ensures
        post == pre,
        ({
            let hub = pre.interface(run.interface)->0;
            let from: int = if run.at is Start {
                0
            } else {
                run.port + 1
            };
            let until: int = match step {
                Step::Call { callee: Frame::RemoveDevice(removal), next: Frame::HubEnumeration(next) } => {
                    next.port as int
                },
                _ => hub.num_of_port as int,
            };
            &&& step matches Step::Call { callee: Frame::RemoveDevice(removal), next } ==> {
                &&& next matches Frame::HubEnumeration(next)
                &&& next.interface == run.interface && next.at is Removed
                &&& from <= next.port < hub.num_of_port
                &&& is_first_on_port(pre, removal.device as int, run.interface.device, next.port as int)
                &&& pre.devices@[removal.device as int]->0.disconnect_fail
            }
            &&& forall|a: int, p: u8|
                from <= p < until && #[trigger] is_first_on_port(
                    pre,
                    a,
                    run.interface.device,
                    p as int,
                ) ==> !pre.devices@[a]->0.disconnect_fail
            &&& !(step matches Step::Call { callee: Frame::RemoveDevice(_), .. }) ==> turns_to_changed_port(
                run,
                hub,
                step,
                0,
            )
        }),
{
    let hub = pre.interface(run.interface)->0;
    let from: int = if run.at is Start {
        0
    } else {
        run.port + 1
    };
    let ports = hub.num_of_port as int;
    let address = run.interface.device;
    let port = next_failed_port(pre, address, ports, from);
    lemma_next_failed_port(pre, address, ports, from);
    lemma_turns_to_changed_port(run, hub, 0);
    if port < ports {
        lemma_failed_child(pre, address, port as u8);
    }
    assert forall|a: int, p: u8|
        from <= p < port && p < ports && #[trigger] is_first_on_port(pre, a, address, p as int) implies (
    !pre.devices@[a]->0.disconnect_fail) by {
        assert(failed_child(pre, address, p) is None);
        lemma_failed_child(pre, address, p);
    }
}

} // verus!
