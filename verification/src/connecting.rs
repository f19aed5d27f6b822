//! Which handles are connected when a bus is asked to connect what is wanted.

use crate::status::Status;
use crate::task::{Action, Course, Frame, Reply, Step};
use crate::usb_bus_defs::{InterfaceId, UsbBus, UsbDevice, UsbInterface, USB_BUS_SIGNATURE, USB_MAX_LANG_ID};
use crate::usb_utility::{judges, path_end, usb_part, Judgement};
use crate::usb_wanted::{
    is_child_path, is_wanted, known_languages, selects, serial_fits,
    the_answer_is_whether_the_interface_is_wanted, IsWanted, IsWantedAt, RecursivelyConnect,
    RecursivelyConnectAt,
};
use vstd::prelude::*;

verus! {

/// What the outside answers: to each piece of work, and to the request for a serial
/// number in each language of the device of an interface.
pub struct Outside {
    pub reply: spec_fn(Action) -> Reply,
    pub strings: spec_fn(InterfaceId) -> spec_fn(u16) -> Reply,
}

impl Outside {
    /// The interface whose USB I/O services are on a handle.
    pub open spec fn found(self, handle: usize) -> Option<InterfaceId> {
        (self.reply)(Action::FindInterface { handle }).as_found()
    }

    /// The handles with USB I/O services.
    pub open spec fn handles(self) -> Seq<usize> {
        (self.reply)(Action::LocateUsbIo).as_handles()
    }

    /// The device path on a handle leads behind the bus.
    pub open spec fn is_behind(self, bus: UsbBus, handle: usize) -> bool {
        (self.reply)(Action::ReadDevicePath { handle }).as_bytes() matches Some(path) && is_child_path(
            bus.device_path@,
            path,
        )
    }

    /// A handle has to be connected: it is behind the bus, and its interface is wanted
    /// and not managed by a driver yet.
    pub open spec fn is_to_connect(self, bus: UsbBus, handle: usize) -> bool {
        &&& self.is_behind(bus, handle)
        &&& self.found(handle) matches Some(id)
        &&& is_wanted(bus, id, (self.strings)(id))
        &&& bus.interface(id) matches Some(interface)
        &&& !interface.is_managed
    }

    /// The handles that have to be connected, from an index on.
    pub open spec fn to_connect(self, bus: UsbBus, handles: Seq<usize>, from: int) -> Seq<usize>
        decreases handles.len() - from,
    {
        if from >= handles.len() {
            Seq::empty()
        } else if self.is_to_connect(bus, handles[from]) {
            seq![handles[from]] + self.to_connect(bus, handles, from + 1)
        } else {
            self.to_connect(bus, handles, from + 1)
        }
    }

    /// No interface is found on two of the handles.
    pub open spec fn each_on_one_handle(self, handles: Seq<usize>) -> bool {
        forall|j: int, k: int|
            #![trigger handles[j], handles[k]]
            0 <= j < k < handles.len() && self.found(handles[j]) is Some ==> self.found(handles[j])
                != self.found(handles[k])
    }
}

/// The serial numbers that are read in the course of judging an interface are
/// `strings`.
pub open spec fn hears(course: Course, strings: spec_fn(u16) -> Reply) -> bool
    decreases course,
{
    match course {
        Course::Call { callee: Frame::GetOneString(string), called, rest, .. } => called.last_answer()
            == strings(string.language_id) && hears(*rest, strings),
        _ => true,
    }
}

/// In the course of connecting what is wanted the outside answers as `outside` says.
pub open spec fn is_answered(course: Course, outside: Outside) -> bool
    decreases course,
{
    match course {
        Course::Done { .. } => true,
        Course::Act { action, outcome, rest, .. } => outcome == (outside.reply)(action) && is_answered(
            *rest,
            outside,
        ),
        Course::Call { callee: Frame::IsWanted(judge), called, rest, .. } => hears(
            *called,
            (outside.strings)(judge.interface),
        ) && is_answered(*rest, outside),
        Course::Call { rest, .. } => is_answered(*rest, outside),
    }
}

/// The handles that are connected in a course, in order.
pub open spec fn connects(course: Course) -> Seq<usize>
    decreases course,
{
    match course {
        Course::Done { .. } => Seq::empty(),
        Course::Act { action: Action::ConnectController { handle }, rest, .. } => seq![handle] + connects(
            *rest,
        ),
        Course::Act { rest, .. } => connects(*rest),
        Course::Call { rest, .. } => connects(*rest),
    }
}

/// Reading a string leaves the bus as it is.
proof fn lemma_string_course(course: Course, frame: Frame, bus: UsbBus, reply: Reply)
    requires
        frame is GetOneString,
        course.is_of(frame, bus, reply),
    ensures
        course.last_bus() == bus,
    decreases course,
{
    match course {
        Course::Done { .. } => {},
        Course::Act { next, outcome, rest, .. } => {
            lemma_string_course(*rest, next, bus, outcome);
        },
        Course::Call { .. } => {},
    }
}

proof fn lemma_decides_shape(
    run: IsWanted,
    paths: Seq<Seq<u8>>,
    own_path: Seq<u8>,
    interface: UsbInterface,
    device: UsbDevice,
    from: int,
)
    ensures
        judging(run.decides(paths, own_path, interface, device, from)),
    decreases paths.len() - from,
{
    if from < paths.len() {
        lemma_decides_shape(run, paths, own_path, interface, device, from + 1);
    }
}

/// A step of judging an interface: it reads a string, or it is over.
spec fn judging(step: Step) -> bool {
    match step {
        Step::Done(Reply::Verdict(_)) => true,
        Step::Call { callee: Frame::GetOneString(_), next: Frame::IsWanted(_) } => true,
        _ => false,
    }
}

proof fn lemma_judging(run: IsWanted, bus: UsbBus, reply: Reply)
    ensures
        judging(run.next(bus, reply)),
{
    let paths = bus.wanted_usb_io_dp_list.paths();
    if let (Some(interface), Some(device)) = (bus.interface(run.interface), bus.device(run.interface.device)) {
        if let Some(own_path) = usb_part(interface.device_path@) {
            lemma_decides_shape(run, paths, own_path, interface, device, 0);
            if let IsWantedAt::Serial { index, .. } = run.at {
                lemma_decides_shape(run, paths, own_path, interface, device, index + 1);
            }
        }
    }
}

/// The course of judging an interface leaves the bus as it is and ends with the answer
/// that the strings give.
proof fn lemma_judging_course(
    course: Course,
    first: IsWanted,
    run: IsWanted,
    bus: UsbBus,
    reply: Reply,
    strings: spec_fn(u16) -> Reply,
    fuel: nat,
)
    requires
        course.is_of(Frame::IsWanted(run), bus, reply),
        hears(course, strings),
        first.answer(bus, run.next(bus, reply), strings, fuel) is Some,
    ensures
        course.last_bus() == bus,
        course.last_answer() == Reply::Verdict(
            first.answer(bus, run.next(bus, reply), strings, fuel)->0,
        ),
    decreases course,
{
    lemma_judging(run, bus, reply);
    match course {
        Course::Done { .. } => {},
        Course::Act { .. } => {},
        Course::Call { callee, next, called, rest, .. } => {
            lemma_string_course(*called, callee, bus, Reply::Nothing);
            if let Frame::IsWanted(then) = next {
                lemma_judging_course(
                    *rest,
                    first,
                    then,
                    bus,
                    called.last_answer(),
                    strings,
                    (fuel - 1) as nat,
                );
            }
        },
    }
}

/// Whether a path selects an interface does not depend on the other interfaces of the
/// device.
proof fn lemma_selects_same(
    wanted: Seq<u8>,
    own_path: Seq<u8>,
    interface: UsbInterface,
    a: UsbDevice,
    b: UsbDevice,
    strings: spec_fn(u16) -> Reply,
)
    requires
        b == (UsbDevice { interfaces: b.interfaces, ..a }),
    ensures
        selects(wanted, own_path, interface, a, strings) == selects(
            wanted,
            own_path,
            interface,
            b,
            strings,
        ),
{
    assert(judges(wanted, own_path, interface, a) == judges(wanted, own_path, interface, b));
    assert(known_languages(a) == known_languages(b));
    assert forall|language: int| #[trigger]
        serial_fits(a, wanted, strings, language) == serial_fits(b, wanted, strings, language) by {}
    if selects(wanted, own_path, interface, b, strings) && judges(wanted, own_path, interface, b)
        == Judgement::AskSerial {
        let language = choose|language: int|
            0 <= language < known_languages(b) && #[trigger] serial_fits(b, wanted, strings, language);
        assert(serial_fits(a, wanted, strings, language));
    }
}

/// Connecting an interface does not change what has to be done with the others.
proof fn lemma_others_same(
    outside: Outside,
    pre: UsbBus,
    id: InterfaceId,
    managed: bool,
    post: UsbBus,
    handle: usize,
)
    requires
        pre.wf(),
        pre.interface(id) is Some,
        pre.with_interface(id, Some(UsbInterface { is_managed: managed, ..pre.interface(id)->0 }), post),
        outside.found(handle) != Some(id),
    ensures
        outside.is_to_connect(post, handle) == outside.is_to_connect(pre, handle),
{
    if let Some(other) = outside.found(handle) {
        let strings = (outside.strings)(other);
        assert(post.interface(other) == pre.interface(other));
        if let (Some(interface), Some(a), Some(b)) = (
            pre.interface(other),
            pre.device(other.device),
            post.device(other.device),
        ) {
            assert(b == (UsbDevice { interfaces: b.interfaces, ..a }));
            let paths = pre.wanted_usb_io_dp_list.paths();
            if let Some(own_path) = usb_part(interface.device_path@) {
                assert forall|i: int| 0 <= i < paths.len() implies #[trigger] selects(
                    paths[i],
                    own_path,
                    interface,
                    a,
                    strings,
                ) == selects(paths[i], own_path, interface, b, strings) by {
                    lemma_selects_same(paths[i], own_path, interface, a, b, strings);
                }
                if exists|i: int|
                    0 <= i < paths.len() && #[trigger] selects(paths[i], own_path, interface, b, strings) {
                    let i = choose|i: int|
                        0 <= i < paths.len() && #[trigger] selects(
                            paths[i],
                            own_path,
                            interface,
                            b,
                            strings,
                        );
                    assert(selects(paths[i], own_path, interface, a, strings));
                }
            }
        }
    }
}

proof fn lemma_to_connect_same(
    outside: Outside,
    pre: UsbBus,
    id: InterfaceId,
    managed: bool,
    post: UsbBus,
    handles: Seq<usize>,
    from: int,
)
    requires
        0 <= from,
        pre.wf(),
        pre.interface(id) is Some,
        pre.with_interface(id, Some(UsbInterface { is_managed: managed, ..pre.interface(id)->0 }), post),
        forall|k: int| from <= k < handles.len() ==> outside.found(#[trigger] handles[k]) != Some(id),
    ensures
        outside.to_connect(post, handles, from) == outside.to_connect(pre, handles, from),
    decreases handles.len() - from,
{
    if from < handles.len() {
        lemma_others_same(outside, pre, id, managed, post, handles[from]);
        lemma_to_connect_same(outside, pre, id, managed, post, handles, from + 1);
    }
}

/// The walk over the handles, from any point on.
proof fn lemma_walk(course: Course, run: RecursivelyConnect, bus: UsbBus, reply: Reply, outside: Outside)
    requires
        bus.wf(),
        bus.signature == USB_BUS_SIGNATURE,
        course.is_of(Frame::RecursivelyConnect(run), bus, reply),
        is_answered(course, outside),
        outside.each_on_one_handle(run.handles@),
        run.index < run.handles@.len(),
        ({
            let handle = run.handles@[run.index as int];
            match run.at {
                RecursivelyConnectAt::Path => reply == (outside.reply)(Action::ReadDevicePath { handle }),
                RecursivelyConnectAt::Interface => outside.is_behind(bus, handle) && reply == (
                outside.reply)(Action::FindInterface { handle }),
                RecursivelyConnectAt::Judged { interface } => {
                    &&& outside.is_behind(bus, handle)
                    &&& outside.found(handle) == Some(interface)
                    &&& reply.as_verdict() == is_wanted(bus, interface, (outside.strings)(interface))
                },
                RecursivelyConnectAt::Connected { interface } => outside.found(handle) == Some(interface),
                _ => false,
            }
        }),
    ensures
        connects(course) == outside.to_connect(
            bus,
            run.handles@,
            if run.at is Connected {
                run.index + 1
            } else {
                run.index as int
            },
        ),
        course.last_answer() == Reply::Status(Status::Success),
    decreases course,
{
    let handles = run.handles@;
    let handle = handles[run.index as int];
    match course {
        Course::Done { .. } => {
            assert(run.index + 1 >= handles.len());
            assert(outside.to_connect(bus, handles, run.index + 1) =~= Seq::empty());
        },
        Course::Act { bus: after, action, next, outcome, rest } => {
            if let Frame::RecursivelyConnect(then) = next {
                if let RecursivelyConnectAt::Connected { interface } = run.at {
                    if let Some(i) = bus.interface(interface) {
                        lemma_managed_is_wf(bus, interface, reply.as_status() == Status::Success, after);
                        assert forall|k: int| run.index < k < handles.len() implies outside.found(
                            #[trigger] handles[k],
                        ) != Some(interface) by {
                            assert(handles[run.index as int] == handle);
                        }
                        lemma_to_connect_same(
                            outside,
                            bus,
                            interface,
                            reply.as_status() == Status::Success,
                            after,
                            handles,
                            run.index + 1,
                        );
                    }
                }
                lemma_walk(*rest, then, after, outcome, outside);
            }
        },
        Course::Call { bus: after, callee, next, called, rest } => {
            if let (Frame::IsWanted(judge), Frame::RecursivelyConnect(then)) = (callee, next) {
                let strings = (outside.strings)(judge.interface);
                let paths = bus.wanted_usb_io_dp_list.paths();
                assert(paths.len() == bus.wanted_usb_io_dp_list.items.len());
                the_answer_is_whether_the_interface_is_wanted(bus, judge.interface, strings);
                lemma_judging_course(
                    *called,
                    judge,
                    judge,
                    bus,
                    Reply::Nothing,
                    strings,
                    USB_MAX_LANG_ID as nat * paths.len(),
                );
                lemma_walk(*rest, then, bus, called.last_answer(), outside);
            }
        },
    }
}

proof fn lemma_managed_is_wf(pre: UsbBus, id: InterfaceId, managed: bool, post: UsbBus)
    requires
        pre.wf(),
        pre.interface(id) is Some,
        pre.with_interface(id, Some(UsbInterface { is_managed: managed, ..pre.interface(id)->0 }), post),
    ensures
        post.wf(),
        post.signature == pre.signature,
{
}

proof fn lemma_to_connect_is_exact(outside: Outside, bus: UsbBus, handles: Seq<usize>, from: int)
    requires
        0 <= from,
        outside.each_on_one_handle(handles),
    ensures
        forall|h: usize| #[trigger]
            outside.to_connect(bus, handles, from).contains(h) <==> outside.is_to_connect(bus, h) && exists|
                k: int,
            |
                from <= k < handles.len() && #[trigger] handles[k] == h,
        outside.to_connect(bus, handles, from).no_duplicates(),
    decreases handles.len() - from,
{
    let all = outside.to_connect(bus, handles, from);
    if from < handles.len() {
        let rest = outside.to_connect(bus, handles, from + 1);
        lemma_to_connect_is_exact(outside, bus, handles, from + 1);
        let first = handles[from];
        if outside.is_to_connect(bus, first) {
            assert(all == seq![first] + rest);
            assert(all[0] == first);
            assert(!rest.contains(first)) by {
                if rest.contains(first) {
                    let k = choose|k: int| from + 1 <= k < handles.len() && #[trigger] handles[k] == first;
                    assert(outside.found(handles[from]) == outside.found(handles[k]));
                }
            }
            assert forall|j: int, k: int| 0 <= j < k < all.len() implies all[j] != all[k] by {
                assert(all[k] == rest[k - 1]);
                assert(rest.contains(rest[k - 1]));
                if j > 0 {
                    assert(all[j] == rest[j - 1]);
                }
            }
            assert forall|h: usize| #[trigger] all.contains(h) == (h == first || rest.contains(h)) by {
                if all.contains(h) && h != first {
                    let k = choose|k: int| 0 <= k < all.len() && all[k] == h;
                    assert(rest[k - 1] == h);
                }
                if rest.contains(h) {
                    let k = choose|k: int| 0 <= k < rest.len() && rest[k] == h;
                    assert(all[k + 1] == h);
                }
            }
        }
    }
}

/// When a bus is asked to connect what is wanted, exactly those handles are connected
/// that lie behind the bus and whose interface is wanted and not managed yet, each of
/// them once.
pub proof fn exactly_the_wanted_handles_are_connected(
    course: Course,
    run: RecursivelyConnect,
    bus: UsbBus,
    outside: Outside,
)
    requires
        bus.wf(),
        bus.signature == USB_BUS_SIGNATURE,
        path_end(bus.device_path@, 0) is Some,
        run.at == RecursivelyConnectAt::Start,
        course.is_of(Frame::RecursivelyConnect(run), bus, Reply::Nothing),
        is_answered(course, outside),
        (outside.reply)(Action::LocateUsbIo).as_status() == Status::Success,
        outside.each_on_one_handle(outside.handles()),
    ensures
        forall|h: usize| #[trigger]
            connects(course).contains(h) <==> outside.handles().contains(h) && outside.is_to_connect(bus, h),
        connects(course).no_duplicates(),
        course.last_answer() == Reply::Status(Status::Success),
{
    let handles = outside.handles();
    reveal_with_fuel(Course::is_of, 3);
    reveal_with_fuel(Course::last_answer, 3);
    reveal_with_fuel(is_answered, 3);
    reveal_with_fuel(connects, 3);
    lemma_to_connect_is_exact(outside, bus, handles, 0);
    assert forall|h: usize| #[trigger] handles.contains(h) == exists|k: int|
        0 <= k < handles.len() && #[trigger] handles[k] == h by {}
    if let Course::Act { rest, .. } = course {
        match *rest {
            Course::Done { .. } => {
                assert(outside.to_connect(bus, handles, 0) =~= Seq::empty());
            },
            Course::Act { next: Frame::RecursivelyConnect(then), outcome, rest: walk, .. } => {
                lemma_walk(*walk, then, bus, outcome, outside);
            },
            _ => {},
        }
    }
}

} // verus!
