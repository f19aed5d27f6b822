//! Laws of finding out what is wanted: which strings are asked for, and which paths lie
//! behind a bus.

use crate::path_laws::{are_inner, is_last, is_node, joined, last_node, lemma_joined, lemma_whole};
use crate::status::Status;
use crate::task::{Action, Frame, Reply, Step};
use crate::usb_bus_defs::{UsbBus, UsbDevice, UsbInterface, USB_BUS_SIGNATURE};
use crate::usb_utility::{
    a_suffix_is_what_follows_something, all_usb_path, node_at, node_fits, path_end, usb_part, wanted_serial,
};
use crate::usb_wanted::{is_child_path, IsWanted, IsWantedAt, RecursivelyConnect, RecursivelyConnectAt};
use vstd::prelude::*;

verus! {

proof fn lemma_decides_asks_first(
    run: IsWanted,
    paths: Seq<Seq<u8>>,
    own_path: Seq<u8>,
    interface: UsbInterface,
    device: UsbDevice,
    from: int,
)
    requires
        0 <= from,
        paths.len() <= usize::MAX,
    ensures
        match run.decides(paths, own_path, interface, device, from) {
            Step::Call { callee: Frame::GetOneString(ask), next: Frame::IsWanted(next) } => {
                &&& device.total_lang_id > 0
                &&& ask.device == run.interface.device
                &&& ask.index == device.dev_desc->0.descriptor.str_serial_number
                &&& ask.language_id == device.lang_id@[0]
                &&& next.interface == run.interface
                &&& next.at matches IsWantedAt::Serial { index, language }
                &&& language == 0
                &&& from <= index < paths.len()
            },
            step => step is Done,
        },
    decreases paths.len() - from,
{
    if from < paths.len() {
        lemma_decides_asks_first(run, paths, own_path, interface, device, from + 1);
    }
}

/// The only string that is asked for is the serial number of the device of the
/// interface: first in the first language of the device, and only where it has one.
pub proof fn the_serial_number_is_asked_for_first(run: IsWanted, bus: UsbBus, reply: Reply)
    requires
        bus.wf(),
        run.at is Start,
        bus.wanted_usb_io_dp_list.paths().len() <= usize::MAX,
    ensures
        run.next(bus, reply) matches Step::Call { callee, next } ==> {
            let device = bus.devices@[run.interface.device as int]->0;
            &&& callee matches Frame::GetOneString(ask)
            &&& device.total_lang_id > 0
            &&& ask.device == run.interface.device
            &&& ask.index == device.dev_desc->0.descriptor.str_serial_number
            &&& ask.language_id == device.lang_id@[0]
            &&& next matches Frame::IsWanted(next)
            &&& next.interface == run.interface
            &&& next.at matches IsWantedAt::Serial { language: 0, .. }
        },
        !(run.next(bus, reply) is Act),
{
    if let (Some(interface), Some(device)) = (
        bus.interface(run.interface),
        bus.device(run.interface.device),
    ) {
        if let Some(own_path) = usb_part(interface.device_path@) {
            lemma_decides_asks_first(
                run,
                bus.wanted_usb_io_dp_list.paths(),
                own_path,
                interface,
                device,
                0,
            );
        }
    }
}

/// A hub is always wanted, and so is every interface where all USB devices are: where the
/// list holds the class node with nothing but wildcards. Where nothing is wanted, or the
/// interface has no USB path, only hubs are.
pub proof fn hubs_are_always_wanted(run: IsWanted, bus: UsbBus, reply: Reply)
    requires
        bus.wf(),
        run.at is Start,
        bus.interface(run.interface) is Some,
    ensures
        ({
            let interface = bus.interface(run.interface)->0;
            let paths = bus.wanted_usb_io_dp_list.paths();
            let everything = seq![
                3u8, 15u8, 11u8, 0u8, 0xffu8, 0xffu8, 0xffu8, 0xffu8, 0xffu8, 0xffu8, 0xffu8, 0x7fu8,
                0xffu8, 4u8, 0u8,
            ];
            let yes = Step::Done(Reply::Verdict(true));
            let no = Step::Done(Reply::Verdict(false));
            &&& interface.is_hub ==> run.next(bus, reply) == yes
            &&& paths.contains(everything) ==> run.next(bus, reply) == yes
            &&& !interface.is_hub && paths.len() == 0 ==> run.next(bus, reply) == no
            &&& !interface.is_hub && !paths.contains(everything) && usb_part(interface.device_path@) is None
                ==> run.next(bus, reply) == no
        }),
{
    let everything = seq![
        3u8, 15u8, 11u8, 0u8, 0xffu8, 0xffu8, 0xffu8, 0xffu8, 0xffu8, 0xffu8, 0xffu8, 0x7fu8, 0xffu8, 4u8,
        0u8,
    ];
    assert(all_usb_path() =~= everything);
}

/// Connecting what is wanted starts with all handles that have USB I/O services. None at all
/// is a success; any other failure to find them is the outcome. The handles are gone through
/// in order: one whose path leads behind the bus is asked for its interface, and one on which
/// an interface is found has it judged. Any other is passed over.
pub proof fn handles_are_gone_through_in_order(
    run: RecursivelyConnect,
    pre: UsbBus,
    reply: Reply,
    post: UsbBus,
    step: Step,
)
    requires
        pre.wf(),
        pre.signature == USB_BUS_SIGNATURE,
        run.goes_on(pre, reply, post, step),
    ensures
        run.at is Start ==> {
            &&& post == pre
            &&& step matches Step::Act { action, next: Frame::RecursivelyConnect(next) }
            &&& action == Action::LocateUsbIo
            &&& next.at is Located
        },
        run.at is Located && reply.as_status() == Status::NotFound ==> step == Step::Done(
            Reply::Status(Status::Success),
        ),
        run.at is Located && reply.as_status() != Status::NotFound && reply.as_status() != Status::Success
            ==> step == Step::Done(Reply::Status(reply.as_status())),
        (run.at is Located && reply.as_status() == Status::Success && path_end(pre.device_path@, 0) is Some
            && reply is Handles) ==> visits_handle(step, reply->Handles_handles@, 0),
        run.at is Path && run.index < run.handles@.len() ==> if reply matches Reply::Bytes(Some(path))
            && is_child_path(pre.device_path@, path@) {
            &&& step matches Step::Act { action, next: Frame::RecursivelyConnect(next) }
            &&& action == (Action::FindInterface { handle: run.handles@[run.index as int] })
            &&& next.handles@ == run.handles@ && next.index == run.index && next.at is Interface
        } else {
            visits_handle(step, run.handles@, run.index + 1)
        },
        run.at is Interface && run.index < run.handles@.len() ==> if reply matches Reply::Found {
            interface: Some(_),
            ..
        } {
            let id = reply->Found_interface->0;
            &&& step matches Step::Call {
                callee: Frame::IsWanted(judge),
                next: Frame::RecursivelyConnect(next),
            }
            &&& judge.interface == id && judge.at is Start
            &&& next.handles@ == run.handles@ && next.index == run.index
            &&& next.at == (RecursivelyConnectAt::Judged { interface: id })
        } else {
            visits_handle(step, run.handles@, run.index + 1)
        },
{
}

/// A value that is no bus is refused, and so is one whose path is broken; a walk behind its
/// last handle has succeeded.
pub proof fn only_a_bus_connects(
    run: RecursivelyConnect,
    pre: UsbBus,
    reply: Reply,
    post: UsbBus,
    step: Step,
)
    requires
        run.goes_on(pre, reply, post, step),
    ensures
        pre.signature != USB_BUS_SIGNATURE ==> post == pre && step == Step::Done(
            Reply::Status(Status::InvalidParameter),
        ),
        pre.signature == USB_BUS_SIGNATURE && run.at is Located && reply.as_status() == Status::Success
            && path_end(pre.device_path@, 0) is None ==> post == pre && step == Step::Done(
            Reply::Status(Status::InvalidParameter),
        ),
        pre.signature == USB_BUS_SIGNATURE && !(run.at is Start || run.at is Located) && run.index
            >= run.handles@.len() ==> post == pre && step == Step::Done(Reply::Status(Status::Success)),
{
}

/// A step turns to the handle at an index, or ends with success behind the last one.
pub open spec fn visits_handle(step: Step, handles: Seq<usize>, index: int) -> bool {
    if index < handles.len() {
        &&& step matches Step::Act { action, next: Frame::RecursivelyConnect(next) }
        &&& action == (Action::ReadDevicePath { handle: handles[index] })
        &&& next.handles@ == handles && next.index == index && next.at is Path
    } else {
        step == Step::Done(Reply::Status(Status::Success))
    }
}

/// A serial number that ends as the wanted one settles the matter. Any other has the
/// device asked in its next language, up to the sixteenth, for the same string and the
/// same wanted path.
pub proof fn the_serial_number_is_read_in_every_language(
    run: IsWanted,
    bus: UsbBus,
    reply: Reply,
    index: usize,
    language: usize,
    before: Seq<u16>,
)
    requires
        bus.wf(),
        run.at == (IsWantedAt::Serial { index, language }),
        index < bus.wanted_usb_io_dp_list.paths().len(),
        bus.interface(run.interface) matches Some(i) && usb_part(i.device_path@) is Some,
        bus.devices@[run.interface.device as int]->0.dev_desc is Some,
        language < 16,
    ensures
        ({
            let device = bus.devices@[run.interface.device as int]->0;
            let wanted = wanted_serial(bus.wanted_usb_io_dp_list.paths()[index as int]);
            &&& (reply matches Reply::Text(Some(text)) && text@ == before + wanted) ==> run.next(bus, reply)
                == Step::Done(Reply::Verdict(true))
            &&& !(reply matches Reply::Text(Some(text)) && exists|front: Seq<u16>|
                text@ == #[trigger] (front + wanted)) && language + 1 < 16 && language + 1
                < device.total_lang_id ==> {
                &&& run.next(bus, reply) matches Step::Call { callee, next }
                &&& callee matches Frame::GetOneString(ask)
                &&& ask.device == run.interface.device
                &&& ask.index == device.dev_desc->0.descriptor.str_serial_number
                &&& ask.language_id == device.lang_id@[language + 1]
                &&& next == Frame::IsWanted(
                    IsWanted {
                        at: IsWantedAt::Serial { index, language: (language + 1) as usize },
                        ..run
                    },
                )
            }
        }),
{
    let wanted = wanted_serial(bus.wanted_usb_io_dp_list.paths()[index as int]);
    if let Reply::Text(Some(text)) = reply {
        a_suffix_is_what_follows_something(text@, wanted);
        assert(text@ == before + wanted ==> exists|front: Seq<u16>| text@ == #[trigger] (front + wanted));
    }
}

/// A path lies behind a bus when it has the nodes of the path of the bus and more, and
/// only when it starts with the very bytes of those nodes.
pub proof fn what_is_behind_a_bus_starts_with_its_path(
    nodes: Seq<Seq<u8>>,
    more: Seq<Seq<u8>>,
    path: Seq<u8>,
)
    requires
        are_inner(nodes),
        are_inner(more),
    ensures
        is_child_path(joined(nodes) + last_node(), joined(nodes + more) + last_node()),
        is_child_path(joined(nodes) + last_node(), path) ==> path.len() >= joined(nodes).len()
            && forall|i: int| 0 <= i < joined(nodes).len() ==> #[trigger] path[i] == joined(nodes)[i],
        path_end(path, 0) is None ==> !is_child_path(joined(nodes) + last_node(), path),
{
    let bus_path = joined(nodes) + last_node();
    let child = joined(nodes + more) + last_node();
    let n = joined(nodes).len() as int;
    lemma_joined(nodes, more);
    assert forall|i: int| 0 <= i < (nodes + more).len() implies is_node(
        #[trigger] (nodes + more)[i],
    ) && !is_last((nodes + more)[i]) by {
        if i < nodes.len() {
            assert((nodes + more)[i] == nodes[i]);
        } else {
            assert((nodes + more)[i] == more[i - nodes.len()]);
        }
    }
    lemma_whole(nodes, last_node());
    lemma_whole(nodes + more, last_node());
    assert(last_node()[0] == 0x7f && last_node()[1] == 0xff && last_node()[2] == 4 && last_node()[3] == 0);
    assert(path_end(last_node(), 0) == Some(4int));
    assert(bus_path.take(n) =~= joined(nodes));
    assert(child.take(n) =~= joined(nodes));
    if is_child_path(bus_path, path) {
        lemma_end_within(path, 0);
        assert forall|i: int| 0 <= i < n implies #[trigger] path[i] == joined(nodes)[i] by {
            assert(path.take(n)[i] == joined(nodes)[i]);
        }
    }
}

proof fn lemma_end_within(path: Seq<u8>, offset: int)
    ensures
        path_end(path, offset) matches Some(end) ==> end <= path.len(),
    decreases path.len() - offset,
{
    if node_fits(path, offset) {
        lemma_end_within(path, offset + node_at(path, offset).length);
    }
}

/// An interface that is wanted and has no driver is connected on its own handle, and
/// afterwards it counts as managed exactly where connecting it went well. One that has
/// a driver, or is not wanted, is passed over.
pub proof fn a_connected_interface_is_managed(
    run: RecursivelyConnect,
    pre: UsbBus,
    reply: Reply,
    post: UsbBus,
    step: Step,
)
    requires
        pre.wf(),
        pre.signature == USB_BUS_SIGNATURE,
        run.index < run.handles@.len(),
        run.goes_on(pre, reply, post, step),
    ensures
        run.at matches RecursivelyConnectAt::Judged { interface } ==> {
            &&& post == pre
            &&& (step matches Step::Act { action: Action::ConnectController { handle }, .. } && handle
                == run.handles@[run.index as int]) <==> reply == Reply::Verdict(true) && pre.interface(
                interface,
            ) is Some && !pre.interface(interface)->0.is_managed
        },
        run.at matches RecursivelyConnectAt::Connected { interface } ==> {
            pre.interface(interface) matches Some(before) ==> {
                &&& post.interface(interface) matches Some(after)
                &&& after.is_managed <==> reply.as_status() == Status::Success
                &&& after == (UsbInterface { is_managed: after.is_managed, ..before })
            }
        },
        run.at is Connected && run.index + 1 < run.handles@.len() ==> {
            &&& step matches Step::Act { action: Action::ReadDevicePath { handle }, .. }
            &&& handle == run.handles@[run.index + 1]
        },
        run.at is Connected && run.index + 1 == run.handles@.len() ==> step == Step::Done(
            Reply::Status(Status::Success),
        ),
{
}

} // verus!
