//! Laws of hubs: their ports, their changes and their life.

use crate::bits::{has_bit, hub_masks_pick_bits, port_masks_pick_bits, stall_mask_picks_a_bit, weights};
use crate::enumeration_laws::looks_at;
use crate::hub_life::{
    reports_changes,    HubAckHubStatus, HubAckHubStatusAt, HubFacts, HubInit, HubInitAt, HubReadDesc, HubReadDescAt,
    HubRelease, HubReleaseAt, OnHubInterrupt, OnHubInterruptAt, RootHubInit, RootHubInitAt,
    RootHubRelease, RootHubReleaseAt,
};
use crate::hub_port::{
    lemma_next_change, next_change, port_change, ClearPortChange, ClearPortChangeAt, HubGetPortStatus,
    HubGetPortStatusAt, HubResetPort, HubResetPortAt, RootHubResetPort, RootHubResetPortAt,
};
use crate::request_laws::{
    a_port_request_reaches_its_port, carries, hub_requests_have_their_type, hub_requests_on_the_wire,
    request_type_is_a_sum,
};
use crate::search::{first_index, first_index_is_first};
use crate::status::Status;
use crate::task::{Action, AsyncCallback, Frame, Reply, Step};
use crate::usb_2_host_controller::{UsbPortFeature, UsbPortStatus};
use crate::usb_bus_defs::{InterfaceId, UsbBus, UsbHubApi, UsbInterface};
use crate::usb_desc::UsbEndpointDesc;
use crate::usb_io_call::IoOperation;
use vstd::prelude::*;

verus! {

/// The status of a port comes over the wire as two little-endian words: its state, then
/// its changes.
pub proof fn a_port_answers_in_two_words(reply: Reply)
    requires
        reply matches Reply::Transfer { data, .. } && data@.len() >= 4,
    ensures
        reply.as_port().port_status == reply->Transfer_data@[0] + 256 * reply->Transfer_data@[1],
        reply.as_port().port_change_status == reply->Transfer_data@[2] + 256 * reply->Transfer_data@[3],
        reply.as_status() == reply->Transfer_status,
{
}

/// The number of the feature that acknowledges the change with the given place. The
/// first five follow each other; those of a warm reset and of the link state come from
/// hubs of super speed.
pub open spec fn acknowledging(place: int) -> int {
    if place < 5 {
        16 + place
    } else if place == 5 {
        29
    } else {
        25
    }
}

/// The feature itself.
pub open spec fn acknowledging_feature(place: int) -> UsbPortFeature {
    if place == 0 {
        UsbPortFeature::ConnectChange
    } else if place == 1 {
        UsbPortFeature::EnableChange
    } else if place == 2 {
        UsbPortFeature::SuspendChange
    } else if place == 3 {
        UsbPortFeature::OverCurrentChange
    } else if place == 4 {
        UsbPortFeature::ResetChange
    } else if place == 5 {
        UsbPortFeature::WarmResetChange
    } else {
        UsbPortFeature::LinkStateChange
    }
}

/// The place of the first change from a place on, or the number of changes.
pub open spec fn is_next_place(changes: int, from: int, places: int, place: int) -> bool {
    &&& from <= place
    &&& place < places ==> has_bit(changes, place)
    &&& place < places || from >= places || place == places
    &&& forall|p: int| from <= p < place && p < places ==> !#[trigger] has_bit(changes, p)
}

proof fn lemma_next_place(api: UsbHubApi, changes: u16, from: int)
    requires
        0 <= from,
    ensures
        is_next_place(
            changes as int,
            from,
            if api is Hub {
                7
            } else {
                5
            },
            next_change(api, changes, from),
        ),
{
    lemma_next_change(api, changes, from);
    port_masks_pick_bits(changes);
    let place = next_change(api, changes, from);
    assert forall|p: int| from <= p < place && p < 7 implies !#[trigger] has_bit(changes as int, p) by {
        assert(changes & port_change(p).changed_bit == 0);
    }
}

/// The changes that a port of a hub device reports are cleared one after the other, from
/// the lowest bit to the seventh: by a request that clears the feature which belongs to
/// the bit, of the very port. After the last one the operation is over.
pub proof fn a_hub_port_has_its_changes_cleared_bit_by_bit(
    run: ClearPortChange,
    bus: UsbBus,
    reply: Reply,
    changes: u16,
    from: u8,
    place: int,
)
    requires
        bus.wf(),
        bus.interface(run.interface) is Some,
        (run.at is Status && reply.as_status() == Status::Success && reply.as_port().port_change_status
            == changes && from == 0) || run.at == (ClearPortChangeAt::Clear { changes, from }),
        is_next_place(changes as int, from as int, 7, place),
    ensures
        place >= 7 ==> run.next(UsbHubApi::Hub, bus, reply) == Step::Done(Reply::Nothing),
        place < 7 ==> {
            &&& run.next(UsbHubApi::Hub, bus, reply) matches Step::Act {
                action: Action::ControlTransfer(t),
                next: Frame::HubClearPortChange(next),
            }
            &&& carries(
                t,
                bus.devices@[run.interface.device as int]->0,
                0x23,
                1,
                acknowledging(place),
                run.port + 1,
                0,
            )
            &&& next == (ClearPortChange {
                at: ClearPortChangeAt::Clear { changes, from: (place + 1) as u8 },
                ..run
            })
        },
{
    lemma_next_place(UsbHubApi::Hub, changes, from as int);
    let found = next_change(UsbHubApi::Hub, changes, from as int);
    lemma_same_place(changes as int, from as int, 7, place, found);
    a_port_request_reaches_its_port(bus, run.interface, run.port, acknowledging_feature(place));
}

proof fn lemma_same_place(changes: int, from: int, places: int, a: int, b: int)
    requires
        is_next_place(changes, from, places, a),
        is_next_place(changes, from, places, b),
    ensures
        a < places || b < places ==> a == b,
{
    if a < places && a < b {
        assert(has_bit(changes, a));
    }
    if b < places && b < a {
        assert(has_bit(changes, b));
    }
}

/// The same at the root hub, where only the first five bits are changes and the host
/// controller clears the feature.
pub proof fn a_root_port_has_its_changes_cleared_bit_by_bit(
    run: ClearPortChange,
    bus: UsbBus,
    reply: Reply,
    changes: u16,
    from: u8,
    place: int,
)
    requires
        bus.wf(),
        bus.interface(run.interface) is Some,
        (run.at is Status && reply.as_status() == Status::Success && reply.as_port().port_change_status
            == changes && from == 0) || run.at == (ClearPortChangeAt::Clear { changes, from }),
        is_next_place(changes as int, from as int, 5, place),
    ensures
        place >= 5 ==> run.next(UsbHubApi::RootHub, bus, reply) == Step::Done(Reply::Nothing),
        place < 5 ==> run.next(UsbHubApi::RootHub, bus, reply) == (Step::Act {
            action: Action::ClearRootHubPortFeature {
                port: run.port,
                feature: acknowledging_feature(place),
            },
            next: Frame::RootHubClearPortChange(
                ClearPortChange {
                    at: ClearPortChangeAt::Clear { changes, from: (place + 1) as u8 },
                    ..run
                },
            ),
        }),
{
    lemma_next_place(UsbHubApi::RootHub, changes, from as int);
    let found = next_change(UsbHubApi::RootHub, changes, from as int);
    lemma_same_place(changes as int, from as int, 5, place, found);
}

/// Clearing the changes of a port starts with a look at it; nothing is cleared where that
/// does not succeed.
pub proof fn clearing_starts_with_a_look(run: ClearPortChange, bus: UsbBus, reply: Reply)
    requires
        bus.wf(),
        bus.interface(run.interface) is Some,
    ensures
        run.at is Start ==> run.next(UsbHubApi::RootHub, bus, reply) == (Step::Act {
            action: Action::GetRootHubPortStatus { port: run.port },
            next: Frame::RootHubClearPortChange(ClearPortChange { at: ClearPortChangeAt::Status, ..run }),
        }),
        run.at is Start ==> {
            &&& run.next(UsbHubApi::Hub, bus, reply) matches Step::Act {
                action: Action::ControlTransfer(t),
                next: Frame::HubClearPortChange(next),
            }
            &&& carries(t, bus.devices@[run.interface.device as int]->0, 0xa3, 0, 0, run.port + 1, 4)
            &&& next == (ClearPortChange { at: ClearPortChangeAt::Status, ..run })
        },
        run.at is Status && reply.as_status() != Status::Success ==> run.next(UsbHubApi::Hub, bus, reply)
            == Step::Done(Reply::Nothing) && run.next(UsbHubApi::RootHub, bus, reply) == Step::Done(
            Reply::Nothing,
        ),
{
    a_port_request_reaches_its_port(bus, run.interface, run.port, UsbPortFeature::Reset);
}

/// A look at a port of a hub device reads its status and acknowledges the changes, bit by
/// bit; in the end it gives back what was read before anything was acknowledged. What
/// could not be read is given back with its status, and nothing is acknowledged.
pub proof fn a_look_at_a_hub_port_acknowledges_bit_by_bit(
    run: HubGetPortStatus,
    bus: UsbBus,
    reply: Reply,
    state: UsbPortStatus,
    from: u8,
    place: int,
)
    requires
        bus.wf(),
        bus.interface(run.interface) is Some,
        is_next_place(state.port_change_status as int, from as int, 7, place),
    ensures
        run.at is Start ==> {
            &&& run.next(bus, reply) matches Step::Act {
                action: Action::ControlTransfer(t),
                next: Frame::HubGetPortStatus(next),
            }
            &&& carries(t, bus.devices@[run.interface.device as int]->0, 0xa3, 0, 0, run.port + 1, 4)
            &&& next == (HubGetPortStatus { at: HubGetPortStatusAt::Status, ..run })
        },
        run.at is Status && reply.as_status() != Status::Success ==> run.next(bus, reply) == Step::Done(
            Reply::Port { status: reply.as_status(), state: reply.as_port() },
        ),
        (run.at is Status && reply.as_status() == Status::Success && reply.as_port() == state && from == 0)
            || run.at == (HubGetPortStatusAt::Acknowledge { state, from }) ==> {
            if place >= 7 {
                run.next(bus, reply) == Step::Done(Reply::Port { status: Status::Success, state })
            } else {
                &&& run.next(bus, reply) matches Step::Act {
                    action: Action::ControlTransfer(t),
                    next: Frame::HubGetPortStatus(next),
                }
                &&& carries(
                    t,
                    bus.devices@[run.interface.device as int]->0,
                    0x23,
                    1,
                    acknowledging(place),
                    run.port + 1,
                    0,
                )
                &&& next == (HubGetPortStatus {
                    at: HubGetPortStatusAt::Acknowledge { state, from: (place + 1) as u8 },
                    ..run
                })
            }
        },
{
    let changes = state.port_change_status;
    lemma_next_place(UsbHubApi::Hub, changes, from as int);
    let found = next_change(UsbHubApi::Hub, changes, from as int);
    lemma_same_place(changes as int, from as int, 7, place, found);
    a_port_request_reaches_its_port(bus, run.interface, run.port, acknowledging_feature(place));
}

/// The reset of a hub port: feature 4 is set, and after 20 milliseconds the port is
/// looked at up to 5000 times, a tenth of a millisecond apart, until bit 4 of its changes
/// says that the reset is over; then the device has ten milliseconds to recover. An
/// error on the way ends the reset with its status.
pub proof fn a_hub_port_is_reset_step_by_step(run: HubResetPort, bus: UsbBus, reply: Reply)
    requires
        bus.wf(),
        bus.interface(run.interface) is Some,
    ensures
        ({
            let step = run.next(bus, reply);
            let status = reply.as_status();
            let over = has_bit(reply.as_port().port_change_status as int, 4);
            &&& run.at is Start ==> {
                &&& step matches Step::Act {
                    action: Action::ControlTransfer(t),
                    next: Frame::HubResetPort(next),
                }
                &&& carries(t, bus.devices@[run.interface.device as int]->0, 0x23, 3, 4, run.port + 1, 0)
                &&& next == (HubResetPort { at: HubResetPortAt::Begun, ..run })
            }
            &&& (run.at is Begun || run.at is Polled) && status != Status::Success ==> step == Step::Done(
                Reply::Status(status),
            )
            &&& run.at is Begun && status == Status::Success ==> step == (Step::Act {
                action: Action::Stall { micros: 20000 },
                next: Frame::HubResetPort(
                    HubResetPort { at: HubResetPortAt::Poll { left: 5000 }, ..run },
                ),
            })
            &&& run.at matches HubResetPortAt::Poll { left } ==> if left == 0 {
                step == Step::Done(Reply::Status(Status::Timeout))
            } else {
                looks_at(
                    step,
                    UsbHubApi::Hub,
                    run.interface,
                    run.port,
                    Frame::HubResetPort(
                        HubResetPort { at: HubResetPortAt::Polled { left: (left - 1) as usize }, ..run },
                    ),
                )
            }
            &&& run.at is Polled && status == Status::Success && over ==> step == (Step::Act {
                action: Action::Stall { micros: 10000 },
                next: Frame::HubResetPort(HubResetPort { at: HubResetPortAt::Recovered, ..run }),
            })
            &&& run.at is Polled && status == Status::Success && !over ==> step == (Step::Act {
                action: Action::Stall { micros: 100 },
                next: Frame::HubResetPort(
                    HubResetPort { at: HubResetPortAt::Poll { left: run.at->Polled_left }, ..run },
                ),
            })
            &&& run.at is Recovered ==> step == Step::Done(Reply::Status(Status::Success))
        }),
{
    port_masks_pick_bits(reply.as_port().port_change_status);
    a_port_request_reaches_its_port(bus, run.interface, run.port, UsbPortFeature::Reset);
}

/// The reset of a root port: the reset is driven for 50 milliseconds and taken back, and
/// after 20 more the port is looked at up to 5000 times, a tenth of a millisecond apart,
/// until bit 4 of its state is clear. Where bit 1 says that the port is enabled, that is
/// all; otherwise a controller of high speed gives the port away, and any other enables
/// it and waits 20 milliseconds. A port that was given away has no device for this bus.
pub proof fn a_root_port_is_reset_step_by_step(run: RootHubResetPort, bus: UsbBus, reply: Reply)
    requires
        bus.wf(),
        bus.interface(run.interface) is Some,
    ensures
        ({
            let step = run.next(bus, reply);
            let status = reply.as_status();
            let state = reply.as_port().port_status as int;
            let good = status == Status::Success;
            let at_high_speed = bus.interface(run.interface)->0.max_speed == 2;
            &&& run.at is Start ==> step == (Step::Act {
                action: Action::SetRootHubPortFeature { port: run.port, feature: UsbPortFeature::Reset },
                next: Frame::RootHubResetPort(RootHubResetPort { at: RootHubResetPortAt::Begun, ..run }),
            })
            &&& (run.at is Begun || run.at is Cleared || run.at is Polled || run.at is Enabled) && !good
                ==> step == Step::Done(Reply::Status(status))
            &&& run.at is Begun && good ==> step == (Step::Act {
                action: Action::Stall { micros: 50000 },
                next: Frame::RootHubResetPort(RootHubResetPort { at: RootHubResetPortAt::Driven, ..run }),
            })
            &&& run.at is Driven ==> step == (Step::Act {
                action: Action::ClearRootHubPortFeature { port: run.port, feature: UsbPortFeature::Reset },
                next: Frame::RootHubResetPort(RootHubResetPort { at: RootHubResetPortAt::Cleared, ..run }),
            })
            &&& run.at is Cleared && good ==> step == (Step::Act {
                action: Action::Stall { micros: 20000 },
                next: Frame::RootHubResetPort(
                    RootHubResetPort { at: RootHubResetPortAt::Poll { left: 5000 }, ..run },
                ),
            })
            &&& run.at matches RootHubResetPortAt::Poll { left } ==> if left == 0 {
                step == Step::Done(Reply::Status(Status::Timeout))
            } else {
                step == (Step::Act {
                    action: Action::GetRootHubPortStatus { port: run.port },
                    next: Frame::RootHubResetPort(
                        RootHubResetPort {
                            at: RootHubResetPortAt::Polled { left: (left - 1) as usize },
                            ..run
                        },
                    ),
                })
            }
            &&& run.at is Polled && good && has_bit(state, 4) ==> step == (Step::Act {
                action: Action::Stall { micros: 100 },
                next: Frame::RootHubResetPort(
                    RootHubResetPort { at: RootHubResetPortAt::Poll { left: run.at->Polled_left }, ..run },
                ),
            })
            &&& run.at is Polled && good && !has_bit(state, 4) && has_bit(state, 1) ==> step == Step::Done(
                Reply::Status(Status::Success),
            )
            &&& run.at is Polled && good && !has_bit(state, 4) && !has_bit(state, 1) && at_high_speed
                ==> step == (Step::Act {
                action: Action::SetRootHubPortFeature { port: run.port, feature: UsbPortFeature::Owner },
                next: Frame::RootHubResetPort(RootHubResetPort { at: RootHubResetPortAt::Owned, ..run }),
            })
            &&& run.at is Polled && good && !has_bit(state, 4) && !has_bit(state, 1) && !at_high_speed
                ==> step == (Step::Act {
                action: Action::SetRootHubPortFeature { port: run.port, feature: UsbPortFeature::Enable },
                next: Frame::RootHubResetPort(RootHubResetPort { at: RootHubResetPortAt::Enabled, ..run }),
            })
            &&& run.at is Owned ==> step == Step::Done(Reply::Status(Status::NotFound))
            &&& run.at is Enabled && good ==> step == (Step::Act {
                action: Action::Stall { micros: 20000 },
                next: Frame::RootHubResetPort(
                    RootHubResetPort { at: RootHubResetPortAt::Finished, ..run },
                ),
            })
            &&& run.at is Finished ==> step == Step::Done(Reply::Status(Status::Success))
        }),
{
    port_masks_pick_bits(reply.as_port().port_status);
}

/// A hub descriptor is read in two parts: its first two bytes, then as many as the first
/// of them says. The bytes that the device sent are given back, with zeros for those that
/// are missing. A length below two or an answer that is no success gives nothing.
pub proof fn a_hub_descriptor_is_read_in_two_parts(run: HubReadDesc, bus: UsbBus, reply: Reply, step: Step)
    requires
        bus.wf(),
        bus.devices@[run.device as int] is Some,
        run.goes_on(bus, reply, step),
    ensures
        ({
            let hub = bus.devices@[run.device as int]->0;
            let name = if hub.speed == 3 {
                0x2a00int
            } else {
                0x2900int
            };
            let good = reply matches Reply::Transfer { status, .. } && status == Status::Success;
            let data = reply->Transfer_data@;
            &&& run.at is Start ==> {
                &&& step matches Step::Act {
                    action: Action::ControlTransfer(t),
                    next: Frame::HubReadDesc(next),
                }
                &&& carries(t, hub, 0xa0, 6, name, 0, 2)
                &&& next == (HubReadDesc { at: HubReadDescAt::Header, ..run })
            }
            &&& run.at is Header && good && data.len() > 0 && data[0] >= 2 ==> {
                &&& step matches Step::Act {
                    action: Action::ControlTransfer(t),
                    next: Frame::HubReadDesc(next),
                }
                &&& carries(t, hub, 0xa0, 6, name, 0, data[0] as int)
                &&& next == (HubReadDesc { at: HubReadDescAt::Body { length: data[0] }, ..run })
            }
            &&& run.at is Header && good && (data.len() == 0 || data[0] < 2) ==> step == Step::Done(
                Reply::Bytes(None),
            )
            &&& (run.at is Header || run.at is Body) && reply.as_status() != Status::Success ==> step
                == Step::Done(Reply::Bytes(None))
            &&& run.at is Body && good ==> {
                &&& step matches Step::Done(Reply::Bytes(Some(descriptor)))
                &&& descriptor@.len() == run.at->Body_length
                &&& forall|i: int|
                    0 <= i < descriptor@.len() ==> #[trigger] descriptor@[i] == (if i < data.len() {
                        data[i]
                    } else {
                        0
                    })
            }
        }),
{
    let hub = bus.devices@[run.device as int]->0;
    hub_requests_on_the_wire(hub, 0, 0, 2);
    if reply is Transfer && reply->Transfer_data@.len() > 0 {
        hub_requests_on_the_wire(hub, 0, 0, reply->Transfer_data@[0] as u16);
    }
}

/// What a hub reports for itself is acknowledged: its status is read as four bytes, and
/// for bit 0 of the third byte feature 0 is cleared, for bit 1 feature 1, in this order
/// and nothing else.
pub proof fn a_hub_has_its_own_changes_acknowledged(run: HubAckHubStatus, bus: UsbBus, reply: Reply)
    requires
        bus.wf(),
        bus.devices@[run.device as int] is Some,
    ensures
        ({
            let hub = bus.devices@[run.device as int]->0;
            let step = run.next(bus, reply);
            let change = reply->Transfer_data@[2];
            let good = reply matches Reply::Transfer { status, data, .. } && status == Status::Success
                && data@.len() >= 3;
            let done = Step::Done(Reply::Status(Status::Success));
            let clears_power = {
                &&& step matches Step::Act {
                    action: Action::ControlTransfer(t),
                    next: Frame::HubAckHubStatus(next),
                }
                &&& carries(t, hub, 0x20, 1, 0, 0, 0)
                &&& next == (HubAckHubStatus {
                    at: HubAckHubStatusAt::LocalPower { state: change },
                    ..run
                })
            };
            let clears_current = {
                &&& step matches Step::Act {
                    action: Action::ControlTransfer(t),
                    next: Frame::HubAckHubStatus(next),
                }
                &&& carries(t, hub, 0x20, 1, 1, 0, 0)
                &&& next == (HubAckHubStatus { at: HubAckHubStatusAt::OverCurrent, ..run })
            };
            &&& run.at is Start ==> {
                &&& step matches Step::Act {
                    action: Action::ControlTransfer(t),
                    next: Frame::HubAckHubStatus(next),
                }
                &&& carries(t, hub, 0xa0, 0, 0, 0, 4)
                &&& next == (HubAckHubStatus { at: HubAckHubStatusAt::Status, ..run })
            }
            &&& run.at is Status && reply.as_status() != Status::Success ==> step == Step::Done(
                Reply::Status(reply.as_status()),
            )
            &&& run.at is Status && good && has_bit(change as int, 0) ==> clears_power
            &&& run.at is Status && good && !has_bit(change as int, 0) && has_bit(change as int, 1)
                ==> clears_current
            &&& run.at is Status && good && !has_bit(change as int, 0) && !has_bit(change as int, 1)
                ==> step == done
            &&& run.at matches HubAckHubStatusAt::LocalPower { state } ==> if has_bit(state as int, 1) {
                clears_current
            } else {
                step == done
            }
            &&& run.at is OverCurrent ==> step == done
        }),
{
    let hub = bus.devices@[run.device as int]->0;
    hub_requests_have_their_type(hub, true, false, 0, 0, 0, 4);
    hub_requests_have_their_type(hub, false, false, 1, 0, 0, 0);
    hub_requests_have_their_type(hub, false, false, 1, 1, 0, 0);
    if reply is Transfer && reply->Transfer_data@.len() >= 3 {
        hub_masks_pick_bits(reply->Transfer_data@[2]);
    }
    if let HubAckHubStatusAt::LocalPower { state } = run.at {
        hub_masks_pick_bits(state);
    }
}

/// An endpoint by which a hub can report changes: its address has the bit of the
/// direction to the host (128), and its kind is 3.
pub open spec fn is_change_endpoint(endpoint: UsbEndpointDesc) -> bool {
    endpoint.descriptor.endpoint_address / 128 == 1 && endpoint.descriptor.attributes % 4 == 3
}

/// A hub is brought up only where the setting in use has class 9 and subclass 0, and by
/// its first interrupt endpoint towards the host.
pub proof fn a_hub_needs_its_class_and_its_endpoint(
    run: HubInit,
    pre: UsbBus,
    reply: Reply,
    post: UsbBus,
    step: Step,
)
    requires
        pre.wf(),
        run.at is Start,
        pre.interface(run.interface) matches Some(i) && i.if_desc matches Some(desc) && desc.active_index
            < desc.settings@.len(),
        run.goes_on(pre, reply, post, step),
    ensures
        post == pre,
        ({
            let desc = pre.interface(run.interface)->0.if_desc->0;
            let setting = desc.settings@[desc.active_index as int];
            let endpoints = setting.endpoints@;
            &&& step matches Step::Call { callee, next } ==> {
                &&& setting.descriptor.interface_class == 9
                &&& setting.descriptor.interface_sub_class == 0
                &&& callee matches Frame::HubReadDesc(read)
                &&& read.device == run.interface.device && read.at is Start
                &&& next matches Frame::HubInit(next)
                &&& next.interface == run.interface
                &&& next.at matches HubInitAt::Descriptor { endpoint }
                &&& exists|k: int|
                    {
                        &&& 0 <= k < endpoints.len()
                        &&& #[trigger] desc.settings@[desc.active_index as int].endpoints@[k] == Some(
                            endpoint,
                        )
                        &&& is_change_endpoint(endpoint)
                        &&& forall|j: int|
                            0 <= j < k ==> (
                            #[trigger] desc.settings@[desc.active_index as int].endpoints@[j] matches Some(
                                e,
                            ) ==> !is_change_endpoint(e))
                    }
            }
            &&& !(step is Call) ==> step == Step::Done(Reply::Status(Status::DeviceError)) && (
            setting.descriptor.interface_class != 9 || setting.descriptor.interface_sub_class != 0
                || forall|k: int|
                0 <= k < endpoints.len() ==> (
                #[trigger] desc.settings@[desc.active_index as int].endpoints@[k] matches Some(e)
                    ==> !is_change_endpoint(e)))
        }),
{
    let interface = pre.interface(run.interface)->0;
    let desc = interface.if_desc->0;
    let setting = desc.settings@[desc.active_index as int];
    let endpoints = setting.endpoints@;
    let p = reports_changes();
    assert(interface.setting() == Some(setting@));
    assert(setting@.endpoints == endpoints);
    first_index_is_first(endpoints, p);
    assert(forall|k: int|
        0 <= k < endpoints.len() ==> (p(#[trigger] endpoints[k]) <==> (endpoints[k] matches Some(e)
            && is_change_endpoint(e))));
    if step is Call {
        let slot = first_index(endpoints, p)->0;
        assert(endpoints[slot] == desc.settings@[desc.active_index as int].endpoints@[slot]);
        assert(p(endpoints[slot]));
    }
}

/// The number of ports is the third byte of the hub descriptor and the delay until its
/// power is good the sixth, in units of two milliseconds; a descriptor without a third
/// byte is an error. A hub of super speed is told its depth first, one less than its
/// distance from the root.
pub proof fn a_hub_descriptor_says_what_to_set_up(
    run: HubInit,
    pre: UsbBus,
    reply: Reply,
    post: UsbBus,
    step: Step,
    endpoint: UsbEndpointDesc,
)
    requires
        pre.wf(),
        run.at == (HubInitAt::Descriptor { endpoint }),
        pre.interface(run.interface) is Some,
        run.goes_on(pre, reply, post, step),
    ensures
        ({
            let hub = pre.devices@[run.interface.device as int]->0;
            let good = reply matches Reply::Bytes(Some(descriptor)) && descriptor@.len() >= 3;
            let descriptor = (reply->Bytes_0)->0@;
            let facts = HubFacts {
                endpoint,
                ports: descriptor[2],
                delay: if descriptor.len() >= 6 {
                    descriptor[5]
                } else {
                    0
                },
            };
            &&& !good ==> post == pre && step == Step::Done(Reply::Status(Status::DeviceError))
            &&& good && hub.speed == 3 ==> {
                &&& step matches Step::Act {
                    action: Action::ControlTransfer(t),
                    next: Frame::HubInit(next),
                }
                &&& carries(
                    t,
                    hub,
                    0x20,
                    12,
                    if hub.tier == 0 {
                        0
                    } else {
                        hub.tier - 1
                    },
                    0,
                    0,
                )
                &&& next == (HubInit { at: HubInitAt::Ports { facts, port: 0 }, ..run })
            }
            &&& good && hub.speed != 3 ==> ports_are_set_up(run, pre, post, step, facts, 0)
        }),
{
    let hub = pre.devices@[run.interface.device as int]->0;
    hub_requests_have_their_type(
        hub,
        false,
        false,
        12,
        if hub.tier == 0 {
            0
        } else {
            (hub.tier - 1) as u16
        },
        0,
        0,
    );
    if let Reply::Bytes(Some(descriptor)) = reply {
        if descriptor@.len() >= 3 && hub.speed != 3 {
            let facts = HubFacts {
                endpoint,
                ports: descriptor@[2],
                delay: if descriptor@.len() >= 6 {
                    descriptor@[5]
                } else {
                    0
                },
            };
            lemma_ports_are_set_up(run, pre, post, step, facts, 0);
        }
    }
}

/// A port of a hub is set up, or the hub itself once all its ports are: each port has
/// feature 8 set, or feature 27 at super speed. Then a hub that is not of super speed has
/// two milliseconds for each unit of its delay, and has its own changes acknowledged.
pub open spec fn ports_are_set_up(
    run: HubInit,
    pre: UsbBus,
    post: UsbBus,
    step: Step,
    facts: HubFacts,
    port: int,
) -> bool {
    let hub = pre.devices@[run.interface.device as int]->0;
    if port < facts.ports {
        &&& post == pre
        &&& step matches Step::Act { action: Action::ControlTransfer(t), next: Frame::HubInit(next) }
        &&& carries(
            t,
            hub,
            0x23,
            3,
            if hub.speed == 3 {
                27
            } else {
                8
            },
            port + 1,
            0,
        )
        &&& next == (HubInit { at: HubInitAt::Ports { facts, port: (port + 1) as u8 }, ..run })
    } else if hub.speed == 3 {
        is_made_a_hub(run, pre, post, step, facts)
    } else if facts.delay > 0 {
        &&& post == pre
        &&& step matches Step::Act { action: Action::Stall { micros }, next: Frame::HubInit(next) }
        &&& micros == 2000 * facts.delay
        &&& next == (HubInit { at: HubInitAt::Powered { facts }, ..run })
    } else {
        has_changes_acknowledged(run, pre, post, step, facts)
    }
}

/// The changes of the hub itself are acknowledged next.
pub open spec fn has_changes_acknowledged(
    run: HubInit,
    pre: UsbBus,
    post: UsbBus,
    step: Step,
    facts: HubFacts,
) -> bool {
    &&& post == pre
    &&& step matches Step::Call { callee: Frame::HubAckHubStatus(acknowledgement), next: Frame::HubInit(next) }
    &&& acknowledgement.device == run.interface.device && acknowledgement.at is Start
    &&& next == (HubInit { at: HubInitAt::Ready { facts }, ..run })
}

/// The interface becomes a hub with the ports and the endpoint that were found, and an
/// event for it is asked for; its other fields stay.
pub open spec fn is_made_a_hub(run: HubInit, pre: UsbBus, post: UsbBus, step: Step, facts: HubFacts) -> bool {
    &&& post.interface(run.interface) matches Some(hub)
    &&& hub.is_hub
    &&& hub.num_of_port == facts.ports
    &&& hub.hub_ep == Some(facts.endpoint)
    &&& !hub.hub_interrupt_context
    &&& pre.interface(run.interface) == Some(
        UsbInterface {
            is_hub: pre.interface(run.interface)->0.is_hub,
            num_of_port: pre.interface(run.interface)->0.num_of_port,
            hub_ep: pre.interface(run.interface)->0.hub_ep,
            hub_interrupt_context: pre.interface(run.interface)->0.hub_interrupt_context,
            ..hub
        },
    )
    &&& step == (Step::Act {
        action: Action::CreateHubEvent { interface: run.interface },
        next: Frame::HubInit(HubInit { at: HubInitAt::Event { facts }, ..run }),
    })
}

proof fn lemma_ports_are_set_up(
    run: HubInit,
    pre: UsbBus,
    post: UsbBus,
    step: Step,
    facts: HubFacts,
    port: u8,
)
    requires
        pre.wf(),
        pre.interface(run.interface) is Some,
        run.sets_up(
            pre,
            pre.interface(run.interface)->0,
            pre.devices@[run.interface.device as int]->0,
            facts,
            port,
            post,
            step,
        ),
    ensures
        ports_are_set_up(run, pre, post, step, facts, port as int),
{
    let hub = pre.devices@[run.interface.device as int]->0;
    hub_requests_on_the_wire(hub, port, 27, 0);
    hub_requests_on_the_wire(hub, port, 8, 0);
}

/// An operation queues the reports of a hub: an interrupt transfer with the given
/// endpoint every 64 milliseconds, with a bit for each port and one for the hub itself.
pub open spec fn queues_reports(frame: Frame, interface: InterfaceId, endpoint: u8, ports: int) -> bool {
    &&& frame matches Frame::IoCall(call)
    &&& call.operation matches IoOperation::AsyncInterruptTransfer(transfer)
    &&& transfer.interface == interface
    &&& transfer.endpoint == endpoint
    &&& transfer.is_new_transfer
    &&& transfer.polling_interval == 64
    &&& 8 * transfer.data_length > ports
    &&& 8 * (transfer.data_length - 1) <= ports
    &&& transfer.callback == AsyncCallback::Hub(interface)
    &&& !transfer.asked
}

/// An operation takes the reports of a hub off the queue.
pub open spec fn ends_reports(frame: Frame, interface: InterfaceId, endpoint: u8, interval: int) -> bool {
    &&& frame matches Frame::IoCall(call)
    &&& call.operation matches IoOperation::AsyncInterruptTransfer(transfer)
    &&& transfer.interface == interface
    &&& transfer.endpoint == endpoint
    &&& !transfer.is_new_transfer
    &&& transfer.polling_interval == interval
    &&& transfer.data_length == 0
    &&& transfer.callback == AsyncCallback::Nobody
    &&& !transfer.asked
}

/// The rest of bringing up a hub: its ports and itself are set up in turn, its event is
/// kept, and its reports are queued with the endpoint that was found. A hub that cannot be
/// heard is no hub any more, and its event is closed; the status of the failure is what is
/// returned.
pub proof fn a_hub_is_brought_up_in_order(
    run: HubInit,
    pre: UsbBus,
    reply: Reply,
    post: UsbBus,
    step: Step,
)
    requires
        pre.wf(),
        pre.interface(run.interface) is Some,
        run.goes_on(pre, reply, post, step),
    ensures
        ({
            let before = pre.interface(run.interface)->0;
            let after = post.interface(run.interface)->0;
            let status = reply.as_status();
            &&& run.at matches HubInitAt::Ports { facts, port } ==> ports_are_set_up(
                run,
                pre,
                post,
                step,
                facts,
                port as int,
            )
            &&& run.at matches HubInitAt::Powered { facts } ==> has_changes_acknowledged(
                run,
                pre,
                post,
                step,
                facts,
            )
            &&& run.at matches HubInitAt::Ready { facts } ==> is_made_a_hub(run, pre, post, step, facts)
            &&& run.at is Event && status != Status::Success ==> post == pre && step == Step::Done(
                Reply::Status(Status::InvalidParameter),
            )
            &&& run.at matches HubInitAt::Event { facts } ==> status == Status::Success ==> {
                &&& post.interface(run.interface) is Some
                &&& reply matches Reply::Handle { handle, .. } ==> after.hub_notify == handle
                &&& after.hub_interrupt_context
                &&& after == (UsbInterface {
                    hub_notify: after.hub_notify,
                    hub_interrupt_context: true,
                    ..before
                })
                &&& step matches Step::Call { callee, next }
                &&& queues_reports(
                    callee,
                    run.interface,
                    facts.endpoint.descriptor.endpoint_address,
                    before.num_of_port as int,
                )
                &&& next == Frame::HubInit(HubInit { at: HubInitAt::Polling, ..run })
            }
            &&& run.at is Polling && status == Status::Success ==> post == pre && step == Step::Done(
                Reply::Status(Status::Success),
            )
            &&& run.at is Polling && status != Status::Success ==> {
                &&& post.interface(run.interface) is Some
                &&& !after.is_hub
                &&& after.hub_notify == 0
                &&& !after.hub_interrupt_context
                &&& step == (Step::Act {
                    action: Action::CloseEvent { event: before.hub_notify },
                    next: Frame::HubInit(HubInit { at: HubInitAt::Closed { status }, ..run }),
                })
            }
            &&& run.at is Closed ==> post == pre && step == Step::Done(
                Reply::Status(run.at->Closed_status),
            )
        }),
{
    if let HubInitAt::Ports { facts, port } = run.at {
        lemma_ports_are_set_up(run, pre, post, step, facts, port);
    }
}

/// A hub is let go in order: its reports are taken off the queue by the endpoint that it
/// has, then its event is closed; what it does not have is passed over. Afterwards it is
/// no hub, and has neither port operations nor an endpoint nor an event. A failure on the
/// way leaves it as it was.
pub proof fn a_hub_is_let_go_in_order(
    run: HubRelease,
    pre: UsbBus,
    reply: Reply,
    post: UsbBus,
    step: Step,
)
    requires
        pre.wf(),
        pre.interface(run.interface) is Some,
        run.goes_on(pre, reply, post, step),
    ensures
        ({
            let before = pre.interface(run.interface)->0;
            let after = post.interface(run.interface)->0;
            let status = reply.as_status();
            let good = status == Status::Success;
            let closes = post == pre && step == (Step::Act {
                action: Action::CloseEvent { event: before.hub_notify },
                next: Frame::HubRelease(HubRelease { at: HubReleaseAt::Closed, ..run }),
            });
            let gone = {
                &&& post.interface(run.interface) is Some
                &&& !after.is_hub
                &&& after.hub_api is None
                &&& after.hub_ep is None
                &&& !after.hub_interrupt_context
                &&& after.hub_notify == 0
                &&& after == (UsbInterface {
                    is_hub: false,
                    hub_api: None,
                    hub_ep: None,
                    hub_interrupt_context: false,
                    hub_notify: 0,
                    ..before
                })
                &&& step == Step::Done(Reply::Status(Status::Success))
            };
            &&& run.at is Start && before.hub_ep is Some ==> {
                &&& post == pre
                &&& step matches Step::Call { callee, next }
                &&& ends_reports(callee, run.interface, before.hub_ep->0.descriptor.endpoint_address, 64)
                &&& next == Frame::HubRelease(HubRelease { at: HubReleaseAt::Silent, ..run })
            }
            &&& run.at is Start && before.hub_ep is None && before.hub_notify != 0 ==> closes
            &&& run.at is Start && before.hub_ep is None && before.hub_notify == 0 ==> gone
            &&& run.at is Silent && good && before.hub_notify != 0 ==> closes
            &&& run.at is Silent && good && before.hub_notify == 0 ==> gone
            &&& run.at is Silent && !good ==> post == pre && step == Step::Done(Reply::Status(status))
            &&& run.at is Closed && good ==> gone
            &&& run.at is Closed && !good ==> post == pre && step == Step::Done(
                Reply::Status(Status::InvalidParameter),
            )
        }),
{
}

/// The root hub is brought up in order: it takes speed and number of ports from the host
/// controller, answers to the operations of a root hub from then on, and starts its rounds
/// at zero. Its event is signalled once and then every tenth of a second, and the operation
/// waits until it has been looked at six times. Where the event cannot be signalled or
/// timed, it is closed and the interface is no hub.
pub proof fn the_root_hub_is_brought_up_in_order(
    run: RootHubInit,
    pre: UsbBus,
    reply: Reply,
    post: UsbBus,
    step: Step,
)
    requires
        pre.wf(),
        pre.interface(run.interface) is Some,
        run.goes_on(pre, reply, post, step),
    ensures
        ({
            let before = pre.interface(run.interface)->0;
            let after = post.interface(run.interface)->0;
            let status = reply.as_status();
            let good = status == Status::Success;
            let waits = step == (Step::Act {
                action: Action::WaitForPoll,
                next: Frame::RootHubInit(RootHubInit { at: RootHubInitAt::Waiting, ..run }),
            });
            &&& run.at is Start ==> post == pre && step == (Step::Act {
                action: Action::GetCapability,
                next: Frame::RootHubInit(RootHubInit { at: RootHubInitAt::Capability, ..run }),
            })
            &&& (run.at is Capability || run.at is Event) && !good ==> post == pre && step == Step::Done(
                Reply::Status(status),
            )
            &&& run.at is Capability && good ==> {
                &&& post.interface(run.interface) is Some
                &&& after.is_hub
                &&& after.hub_api == Some(UsbHubApi::RootHub)
                &&& after.hub_ep is None
                &&& after.poll_count == 0
                &&& reply matches Reply::Capability { max_speed, num_ports, .. } ==> after.max_speed
                    == max_speed && after.num_of_port == num_ports
                &&& step == (Step::Act {
                    action: Action::CreateTimerEvent { interface: run.interface },
                    next: Frame::RootHubInit(RootHubInit { at: RootHubInitAt::Event, ..run }),
                })
            }
            &&& run.at is Event && good && reply is Handle ==> {
                &&& post.interface(run.interface) is Some
                &&& after == (UsbInterface { hub_notify: reply->Handle_handle, ..before })
                &&& step == (Step::Act {
                    action: Action::SignalEvent { event: reply->Handle_handle },
                    next: Frame::RootHubInit(RootHubInit { at: RootHubInitAt::Signalled, ..run }),
                })
            }
            &&& run.at is Signalled && good ==> post == pre && step == (Step::Act {
                action: Action::SetPeriodicTimer { event: before.hub_notify, nanos: 100_000_000 },
                next: Frame::RootHubInit(RootHubInit { at: RootHubInitAt::Ticking, ..run }),
            })
            &&& (run.at is Signalled || run.at is Ticking) && !good ==> {
                &&& post.interface(run.interface) is Some
                &&& after.hub_notify == 0
                &&& !after.is_hub
                &&& step == (Step::Act {
                    action: Action::CloseEvent { event: before.hub_notify },
                    next: Frame::RootHubInit(RootHubInit { at: RootHubInitAt::Closed { status }, ..run }),
                })
            }
            &&& (run.at is Ticking && good) || run.at is Waiting ==> post == pre && if before.poll_count < 6 {
                waits
            } else {
                step == Step::Done(Reply::Status(Status::Success))
            }
            &&& run.at is Closed ==> post == pre && step == Step::Done(
                Reply::Status(run.at->Closed_status),
            )
        }),
{
}

/// The root hub is let go in order: its timer is stopped, then its event is closed; one
/// without an event has nothing to stop. Afterwards it is no hub, without port operations
/// and without an event.
pub proof fn the_root_hub_is_let_go_in_order(
    run: RootHubRelease,
    pre: UsbBus,
    reply: Reply,
    post: UsbBus,
    step: Step,
)
    requires
        pre.wf(),
        pre.interface(run.interface) is Some,
        run.goes_on(pre, reply, post, step),
    ensures
        ({
            let before = pre.interface(run.interface)->0;
            let after = post.interface(run.interface)->0;
            let status = reply.as_status();
            let good = status == Status::Success;
            let gone = {
                &&& post.interface(run.interface) is Some
                &&& after == (UsbInterface { is_hub: false, hub_api: None, hub_notify: 0, ..before })
                &&& step == Step::Done(Reply::Status(Status::Success))
            };
            &&& run.at is Start && before.hub_notify != 0 ==> post == pre && step == (Step::Act {
                action: Action::CancelTimer { event: before.hub_notify },
                next: Frame::RootHubRelease(RootHubRelease { at: RootHubReleaseAt::Stopped, ..run }),
            })
            &&& run.at is Start && before.hub_notify == 0 ==> gone
            &&& (run.at is Stopped || run.at is Closed) && !good ==> post == pre && step == Step::Done(
                Reply::Status(status),
            )
            &&& run.at is Stopped && good ==> post == pre && step == (Step::Act {
                action: Action::CloseEvent { event: before.hub_notify },
                next: Frame::RootHubRelease(RootHubRelease { at: RootHubReleaseAt::Closed, ..run }),
            })
            &&& run.at is Closed && good ==> gone
        }),
{
}

/// What a hub reports is kept as it came, and its event is signalled. After an error the
/// reports are taken off the queue and queued anew, with the endpoint of the hub; where the
/// endpoint has stalled (bit 1 of the error), its halt is ended first.
pub proof fn a_report_of_a_hub_is_kept(
    run: OnHubInterrupt,
    pre: UsbBus,
    reply: Reply,
    post: UsbBus,
    step: Step,
)
    requires
        pre.wf(),
        pre.interface(run.interface) matches Some(i) && i.hub_ep is Some,
        run.goes_on(pre, reply, post, step),
    ensures
        ({
            let before = pre.interface(run.interface)->0;
            let after = post.interface(run.interface)->0;
            let endpoint = before.hub_ep->0.descriptor.endpoint_address;
            let status = reply.as_status();
            let good = status == Status::Success;
            let stalled = has_bit(run.result as int, 1);
            let silences = {
                &&& post == pre
                &&& step matches Step::Call { callee, next: Frame::OnHubInterrupt(next) }
                &&& ends_reports(callee, run.interface, endpoint, 0)
                &&& next.interface == run.interface && next.at is Silent
            };
            &&& run.at is Start && stalled ==> {
                &&& post == pre
                &&& step matches Step::Call {
                    callee: Frame::IoCall(call),
                    next: Frame::OnHubInterrupt(next),
                }
                &&& call.operation matches IoOperation::ControlTransfer(clearing)
                &&& clearing.interface == run.interface
                &&& clearing.request.request_type == 2
                &&& clearing.request.request == 1
                &&& clearing.request.value == 0
                &&& clearing.request.index == endpoint
                &&& clearing.request.length == 0
                &&& clearing.direction == 2
                &&& clearing.data_length == 0
                &&& clearing.timeout == 10
                &&& next.interface == run.interface && next.at is Cleared
            }
            &&& run.at is Start && !stalled && run.result != 0 ==> silences
            &&& run.at is Start && run.result == 0 && run.data@.len() == 0 ==> post == pre && step
                == Step::Done(Reply::Status(Status::Success))
            &&& run.at is Start && run.result == 0 && run.data@.len() > 0 ==> {
                &&& post.interface(run.interface) is Some
                &&& after.change_map@ == run.data@
                &&& after == (UsbInterface { change_map: after.change_map, ..before })
                &&& if before.hub_notify == 0 {
                    step == Step::Done(Reply::Status(Status::InvalidParameter))
                } else {
                    &&& step matches Step::Act {
                        action: Action::SignalEvent { event },
                        next: Frame::OnHubInterrupt(next),
                    }
                    &&& event == before.hub_notify
                    &&& next.interface == run.interface && next.at is Signalled
                }
            }
            &&& run.at is Cleared ==> silences
            &&& run.at is Silent && !good ==> post == pre && step == Step::Done(Reply::Status(status))
            &&& run.at is Silent && good ==> {
                &&& post == pre
                &&& step matches Step::Call { callee, next: Frame::OnHubInterrupt(next) }
                &&& queues_reports(callee, run.interface, endpoint, before.num_of_port as int)
                &&& next.interface == run.interface && next.at is Restarted
            }
            &&& run.at is Restarted ==> post == pre && step == Step::Done(Reply::Status(status))
            &&& run.at is Signalled ==> post == pre && step == Step::Done(
                Reply::Status(
                    if good {
                        Status::Success
                    } else {
                        Status::InvalidParameter
                    },
                ),
            )
        }),
{
    stall_mask_picks_a_bit(run.result);
    weights();
    request_type_is_a_sum(false, 0, 2);
}

} // verus!
