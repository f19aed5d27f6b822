//! What the removal of a device leaves behind.

use crate::search::first_between_is_first;
use crate::status::{named_statuses_are_errors, Status};
use crate::task::{Course, Frame, Reply, Step};
use crate::usb_bus_defs::{UsbBus, UsbDevice, UsbInterface, USB_DEVICE_SLOTS};
use crate::usb_enumer::{hangs_on, RemoveDevice, RemoveDeviceAt};
use crate::usb_utility::usb_part;
use crate::usb_wanted::{IsWanted, IsWantedAt};
use vstd::prelude::*;

verus! {

/// The device table has all its slots, and a device sits in the slot of its address.
spec fn is_table(bus: UsbBus) -> bool {
    &&& bus.devices@.len() == USB_DEVICE_SLOTS
    &&& forall|a: int|
        0 <= a < USB_DEVICE_SLOTS ==> (#[trigger] bus.devices@[a] matches Some(d) ==> d.address == a)
}

/// No device has come or moved to another hub: every device of `post` was there in
/// `pre` and hung on the same hub.
pub open spec fn no_newcomers(pre: UsbBus, post: UsbBus) -> bool {
    &&& post.max_devices == pre.max_devices
    &&& forall|a: int|
        0 <= a < USB_DEVICE_SLOTS ==> (#[trigger] post.devices@[a] matches Some(e)
            ==> pre.devices@[a] matches Some(d) && e.parent_addr == d.parent_addr)
}

/// What has gone since `pre` has left no device hanging on it.
pub open spec fn no_orphans(pre: UsbBus, post: UsbBus) -> bool {
    forall|a: int, b: int|
        #![trigger pre.devices@[a], post.devices@[b]]
        0 <= a < USB_DEVICE_SLOTS && 1 <= b < post.usable_slots() && pre.devices@[a] is Some
            && post.devices@[a] is None ==> !hangs_on(a as u8)(post.devices@[b])
}

/// No device has come, gone or moved to another hub.
spec fn same_devices(pre: UsbBus, post: UsbBus) -> bool {
    &&& no_newcomers(pre, post)
    &&& forall|a: int|
        0 <= a < USB_DEVICE_SLOTS ==> (#[trigger] post.devices@[a] is Some) == (pre.devices@[a] is Some)
}

/// The operations that run when a device is removed, besides its removal itself.
spec fn is_upkeep(frame: Frame) -> bool {
    match frame {
        Frame::RemoveConfig(_) => true,
        Frame::DisconnectDriver(_) => true,
        Frame::FreeInterface(_) => true,
        Frame::ConnectDriver(_) => true,
        Frame::HubInit(_) => true,
        Frame::HubReadDesc(_) => true,
        Frame::HubAckHubStatus(_) => true,
        Frame::HubRelease(_) => true,
        Frame::RootHubRelease(_) => true,
        Frame::IoCall(call) => call.operation is AsyncInterruptTransfer,
        Frame::IoAsyncInterruptTransfer(_) => true,
        Frame::IsWanted(_) => true,
        Frame::GetOneString(_) => true,
        _ => false,
    }
}

/// A step asks only for operations of that kind.
spec fn stays_upkeep(step: Step) -> bool {
    match step {
        Step::Done(_) => true,
        Step::Act { next, .. } => is_upkeep(next),
        Step::Call { callee, next } => is_upkeep(callee) && is_upkeep(next),
    }
}

proof fn lemma_decides_upkeep(
    run: IsWanted,
    paths: Seq<Seq<u8>>,
    own_path: Seq<u8>,
    interface: UsbInterface,
    device: UsbDevice,
    from: int,
)
    ensures
        stays_upkeep(run.decides(paths, own_path, interface, device, from)),
    decreases paths.len() - from,
{
    if from < paths.len() {
        lemma_decides_upkeep(run, paths, own_path, interface, device, from + 1);
    }
}

proof fn lemma_upkeep_step(frame: Frame, pre: UsbBus, reply: Reply, post: UsbBus, step: Step)
    requires
        is_table(pre),
        is_upkeep(frame),
        frame.goes_on(pre, reply, post, step),
    ensures
        is_table(post),
        same_devices(pre, post),
        stays_upkeep(step),
{
    if let Frame::IsWanted(run) = frame {
        let paths = pre.wanted_usb_io_dp_list.paths();
        if let (Some(interface), Some(device)) = (
            pre.interface(run.interface),
            pre.device(run.interface.device),
        ) {
            if let Some(own_path) = usb_part(interface.device_path@) {
                lemma_decides_upkeep(run, paths, own_path, interface, device, 0);
                if let IsWantedAt::Serial { index, .. } = run.at {
                    lemma_decides_upkeep(run, paths, own_path, interface, device, index + 1);
                }
            }
        }
    }
}

proof fn lemma_upkeep_course(course: Course, frame: Frame, pre: UsbBus, reply: Reply)
    requires
        is_table(pre),
        is_upkeep(frame),
        course.is_of(frame, pre, reply),
    ensures
        is_table(course.last_bus()),
        same_devices(pre, course.last_bus()),
    decreases course,
{
    match course {
        Course::Done { bus, answer } => {
            lemma_upkeep_step(frame, pre, reply, bus, Step::Done(answer));
        },
        Course::Act { bus, action, next, outcome, rest } => {
            lemma_upkeep_step(frame, pre, reply, bus, Step::Act { action, next });
            lemma_upkeep_course(*rest, next, bus, outcome);
        },
        Course::Call { bus, callee, next, called, rest } => {
            lemma_upkeep_step(frame, pre, reply, bus, Step::Call { callee, next });
            lemma_upkeep_course(*called, callee, bus, Reply::Nothing);
            lemma_upkeep_course(*rest, next, called.last_bus(), called.last_answer());
        },
    }
}

/// The operation has dealt with the children before the present one: they are gone,
/// unless there was an error.
spec fn is_sound(run: RemoveDevice, bus: UsbBus, reply: Reply) -> bool {
    match run.at {
        RemoveDeviceAt::Start => !run.result.fails(),
        RemoveDeviceAt::Child => {
            &&& 1 <= run.child
            &&& run.result.fails() || forall|a: int|
                1 <= a < run.child && a < bus.usable_slots() ==> !#[trigger] hangs_on(run.device)(
                    bus.devices@[a],
                )
            &&& reply.as_status().fails() || bus.device(run.child) is None
        },
        RemoveDeviceAt::Config => forall|a: int|
            1 <= a < bus.usable_slots() ==> !#[trigger] hangs_on(run.device)(bus.devices@[a]),
    }
}

/// What one step of a removal does to the device table, and how it goes on.
proof fn lemma_removal_step(run: RemoveDevice, pre: UsbBus, reply: Reply, mid: UsbBus, step: Step)
    requires
        is_table(pre),
        is_sound(run, pre, reply),
        run.goes_on(pre, reply, mid, step),
    ensures
        is_table(mid),
        no_newcomers(pre, mid),
        no_orphans(pre, mid),
        match step {
            Step::Done(Reply::Status(status)) => status.fails() || mid.device(run.device) is None
                && pre.device(run.device) is Some,
            Step::Call { callee: Frame::RemoveDevice(child), next: Frame::RemoveDevice(next) } => {
                &&& same_devices(pre, mid)
                &&& child == RemoveDevice::start(next.child)
                &&& next.device == run.device
                &&& next.at is Child
                &&& 1 <= next.child
                &&& next.result.fails() || forall|a: int|
                    1 <= a < next.child && a < mid.usable_slots() ==> !#[trigger] hangs_on(next.device)(
                        mid.devices@[a],
                    )
            },
            Step::Call { callee: Frame::RemoveConfig(_), next: Frame::RemoveDevice(next) } => {
                &&& same_devices(pre, mid)
                &&& next.device == run.device
                &&& next.at is Config
                &&& is_sound(next, mid, reply)
            },
            _ => false,
        },
{
    named_statuses_are_errors(Status::InvalidParameter);
    if let Some(d) = pre.device(run.device) {
        let p = hangs_on(run.device);
        let from = if run.at is Start {
            1
        } else {
            run.child + 1
        };
        assert(d.address == run.device) by {
            assert(pre.devices@[run.device as int] is Some);
        }
        first_between_is_first(pre.devices@, from, pre.usable_slots(), p);
        if !(run.at is Config) {
            assert forall|a: int|
                1 <= a < from && a < pre.usable_slots() && !(run.result.fails() || run.at is Child
                    && reply.as_status().fails()) implies !#[trigger] p(pre.devices@[a]) by {}
            assert forall|a: int|
                0 <= a < USB_DEVICE_SLOTS implies #[trigger] p(mid.devices@[a]) == p(pre.devices@[a]) by {}
        }
    }
}

/// The removal of a device, from any point on: nothing comes, and what goes leaves
/// nothing hanging on it. A removal without an error takes the device away.
proof fn lemma_removal_course(course: Course, run: RemoveDevice, pre: UsbBus, reply: Reply)
    requires
        is_table(pre),
        is_sound(run, pre, reply),
        course.is_of(Frame::RemoveDevice(run), pre, reply),
    ensures
        is_table(course.last_bus()),
        no_newcomers(pre, course.last_bus()),
        no_orphans(pre, course.last_bus()),
        course.last_answer().as_status().fails() || course.last_bus().device(run.device) is None
            && pre.device(run.device) is Some,
    decreases course,
{
    match course {
        Course::Done { bus, answer } => {
            lemma_removal_step(run, pre, reply, bus, Step::Done(answer));
        },
        Course::Act { bus, action, next, .. } => {
            lemma_removal_step(run, pre, reply, bus, Step::Act { action, next });
        },
        Course::Call { bus, callee, next, called, rest } => {
            lemma_removal_step(run, pre, reply, bus, Step::Call { callee, next });
            let between = called.last_bus();
            let outcome = called.last_answer();
            let p = hangs_on(run.device);
            match callee {
                Frame::RemoveDevice(child) => {
                    named_statuses_are_errors(Status::Success);
                    lemma_removal_course(*called, child, bus, Reply::Nothing);
                },
                _ => {
                    lemma_upkeep_course(*called, callee, bus, Reply::Nothing);
                },
            }
            assert forall|a: int|
                0 <= a < USB_DEVICE_SLOTS && !p(bus.devices@[a]) implies !#[trigger] p(
                between.devices@[a],
            ) by {}
            if let Frame::RemoveDevice(then) = next {
                assert(is_sound(then, between, outcome));
                lemma_removal_course(*rest, then, between, outcome);
                lemma_no_orphans(bus, between, course.last_bus());
                lemma_no_orphans(pre, bus, course.last_bus());
                assert(bus.device(run.device) is Some ==> pre.device(run.device) is Some);
            }
        },
    }
}

/// Two runs in a row that leave nothing hanging on what went.
proof fn lemma_no_orphans(pre: UsbBus, mid: UsbBus, post: UsbBus)
    requires
        no_newcomers(pre, mid),
        no_newcomers(mid, post),
        no_orphans(pre, mid),
        no_orphans(mid, post),
    ensures
        no_newcomers(pre, post),
        no_orphans(pre, post),
{
    assert forall|a: int, b: int|
        #![trigger pre.devices@[a], post.devices@[b]]
        0 <= a < USB_DEVICE_SLOTS && 1 <= b < post.usable_slots() && pre.devices@[a] is Some
            && post.devices@[a] is None implies !hangs_on(a as u8)(post.devices@[b]) by {
        if mid.devices@[a] is None {
            assert(!hangs_on(a as u8)(mid.devices@[b]));
        }
    }
}

/// The course of removing a device that ended without an error.
pub open spec fn is_good_removal(course: Course, device: u8, pre: UsbBus) -> bool {
    &&& course.is_of(Frame::RemoveDevice(RemoveDevice::start(device)), pre, Reply::Nothing)
    &&& !course.last_answer().as_status().fails()
}

/// A device that is removed without an error is gone, nothing hangs on it any more, and
/// nothing hangs on any device that went with it. No device has come meanwhile.
pub proof fn a_removal_leaves_nothing_behind(course: Course, device: u8, pre: UsbBus)
    requires
        pre.wf(),
        is_good_removal(course, device, pre),
    ensures
        course.last_bus().device(device) is None,
        forall|a: int|
            1 <= a < course.last_bus().usable_slots() ==> !#[trigger] hangs_on(device)(
                course.last_bus().devices@[a],
            ),
        no_newcomers(pre, course.last_bus()),
        no_orphans(pre, course.last_bus()),
{
    named_statuses_are_errors(Status::Success);
    lemma_removal_course(course, RemoveDevice::start(device), pre, Reply::Nothing);
    assert(pre.devices@[device as int] is Some);
}

/// A slot holds a device so many hubs behind another one.
pub open spec fn is_so_far_behind(bus: UsbBus, slot: int, device: u8, hubs: nat) -> bool
    decreases hubs,
{
    &&& 1 <= slot < bus.usable_slots()
    &&& bus.devices@[slot] matches Some(d)
    &&& if hubs == 0 {
        d.parent_addr == device
    } else {
        is_so_far_behind(bus, d.parent_addr as int, device, (hubs - 1) as nat)
    }
}

/// With a device that is removed without an error goes everything behind it, however
/// many hubs lie between.
pub proof fn a_removal_leaves_no_descendant(
    course: Course,
    device: u8,
    pre: UsbBus,
    slot: int,
    hubs: nat,
)
    requires
        pre.wf(),
        is_good_removal(course, device, pre),
        is_so_far_behind(pre, slot, device, hubs),
    ensures
        course.last_bus().devices@[slot] is None,
    decreases hubs,
{
    let post = course.last_bus();
    a_removal_leaves_nothing_behind(course, device, pre);
    let d = pre.devices@[slot]->0;
    if hubs == 0 {
        assert(!hangs_on(device)(post.devices@[slot]));
    } else {
        let hub = d.parent_addr as int;
        reveal_with_fuel(is_so_far_behind, 2);
        a_removal_leaves_no_descendant(course, device, pre, hub, (hubs - 1) as nat);
        assert(pre.devices@[hub] is Some && post.devices@[hub] is None);
        assert(!hangs_on(hub as u8)(post.devices@[slot]));
    }
}

} // verus!
