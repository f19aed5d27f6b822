//! Laws of the driver binding: which controllers it takes, how a bus is built, asked for
//! more and stopped, and how its services are called.

use crate::device_path::EfiDevicePathProtocol;
use crate::driver::{
    is_new_bus, is_taken, nodes_bytes, BuildProtocol, BuildProtocolAt, ConnectMore, PathNode, StartDriver,
    StartDriverAt, StartStep, StopBus, StopBusAt, StopChildren, StopChildrenAt, Supported, SupportedAt,
    SupportedStep,
};
use crate::path_laws::{is_node, joined, lemma_joined};
use crate::search::first_between_is_first;
use crate::status::Status;
use crate::task::{Action, Frame, Progress, Reply, Request, Step, Task, Tpl};
use crate::usb_bus_defs::{
    InterfaceId, UsbBus, USB_BUS_SIGNATURE, USB_INTERFACE_SIGNATURE,
};
use crate::usb_io_call::{IoCall, IoCallAt, IoOperation};
use crate::usb_utility::wanted_after;
use crate::usb_wanted::RecursivelyConnectAt;
use vstd::prelude::*;

verus! {

/// The bytes of one walked node: type, sub-type, length and data.
pub open spec fn node_of(node: PathNode) -> Seq<u8> {
    seq![
        node.header.node_type,
        node.header.sub_type,
        (node.header.length % 256) as u8,
        (node.header.length / 256) as u8,
    ] + node.data@
}

/// The bytes of walked nodes are those of each node, one after the other; where the length
/// in the header of a node is the number of its bytes, they are nodes again.
pub proof fn walked_nodes_are_joined(nodes: Seq<PathNode>)
    ensures
        nodes_bytes(nodes) == joined(nodes.map_values(|node: PathNode| node_of(node))),
        forall|i: int|
            0 <= i < nodes.len() && (#[trigger] nodes[i]).header.length == 4 + nodes[i].data@.len()
                ==> is_node(node_of(nodes[i])),
    decreases nodes.len(),
{
    let bytes = nodes.map_values(|node: PathNode| node_of(node));
    if nodes.len() > 0 {
        let front = nodes.drop_last();
        walked_nodes_are_joined(front);
        let last = node_of(nodes.last());
        assert(bytes =~= front.map_values(|node: PathNode| node_of(node)) + seq![last]);
        lemma_joined(front.map_values(|node: PathNode| node_of(node)), seq![last]);
        assert(seq![last].drop_first() =~= Seq::empty());
        reveal_with_fuel(joined, 2);
        assert(joined(seq![last]) =~= last);
        assert(nodes.last().bytes() =~= last);
    }
    assert forall|i: int|
        0 <= i < nodes.len() && (#[trigger] nodes[i]).header.length == 4
            + nodes[i].data@.len() implies is_node(node_of(nodes[i])) by {
        let node = node_of(nodes[i]);
        assert(node[2] == (nodes[i].header.length % 256) as u8);
        assert(node[3] == (nodes[i].header.length / 256) as u8);
    }
}

/// A controller is supported for a path that starts with a USB node or is at its end, and
/// without any path; an empty path is no path at all. Its host controller and then its
/// device path have to be free to take, or taken already by this driver; both are given back
/// at once.
pub proof fn a_controller_is_taken_on_trial(run: Supported, reply: Reply)
    ensures
        ({
            let step = run.next(reply);
            let (controller, agent) = (run.controller, run.agent);
            let status = reply.as_status();
            let opens = step == (SupportedStep::Act {
                action: Action::OpenHostController { controller, agent },
                next: Supported { at: SupportedAt::HostOpened, ..run },
            });
            &&& run.at matches SupportedAt::Start { node } ==> match node {
                None => opens,
                Some(None) => step == SupportedStep::Done(Status::InvalidParameter),
                Some(Some(header)) => if is_end_or_usb(header) {
                    opens
                } else {
                    step == SupportedStep::Done(Status::Unsupported)
                },
            }
            &&& (run.at is HostOpened || run.at is PathOpened) && status == Status::AlreadyStarted ==> step
                == SupportedStep::Done(Status::Success)
            &&& (run.at is HostOpened || run.at is PathOpened) && status != Status::AlreadyStarted && status
                != Status::Success ==> step == SupportedStep::Done(status)
            &&& run.at is HostOpened && status == Status::Success ==> step == (SupportedStep::Act {
                action: Action::CloseHostController { controller, agent },
                next: Supported { at: SupportedAt::HostClosed, ..run },
            })
            &&& run.at is HostClosed ==> step == (SupportedStep::Act {
                action: Action::OpenDevicePath { controller, agent },
                next: Supported { at: SupportedAt::PathOpened, ..run },
            })
            &&& run.at is PathOpened && status == Status::Success ==> step == (SupportedStep::Act {
                action: Action::CloseDevicePath { controller, agent },
                next: Supported { at: SupportedAt::PathClosed, ..run },
            })
            &&& run.at is PathClosed ==> step == SupportedStep::Done(Status::Success)
        }),
{
}

/// A node is the end of a path (type 0x7f, sub-type 0xff) or names a USB device (type 3,
/// sub-type 5, 15 or 16).
pub open spec fn is_end_or_usb(node: EfiDevicePathProtocol) -> bool {
    ||| node.node_type == 0x7f && node.sub_type == 0xff
    ||| node.node_type == 3 && (node.sub_type == 5 || node.sub_type == 15 || node.sub_type == 16)
}

/// The start of the driver looks at the device path, reports that it begins, and looks for a
/// bus on the controller: one that runs is used, and otherwise a new one is built after that
/// has been reported, too. Whatever is no success ends the start with its status.
pub proof fn a_start_uses_the_bus_that_runs(run: StartDriver, reply: Reply)
    ensures
        ({
            let step = run.next(reply);
            let (controller, agent) = (run.controller, run.agent);
            let status = reply.as_status();
            let good = status == Status::Success;
            &&& run.at is Start ==> step == (StartStep::Act {
                action: Action::CheckDevicePath { controller, agent },
                next: StartDriver { at: StartDriverAt::Checked, ..run },
            })
            &&& (run.at is Checked || run.at is Reported || run.at is Enabled) && !good ==> step
                == StartStep::Failed(status)
            &&& run.at is Checked && good ==> step == (StartStep::Act {
                action: Action::ReportProgress(Progress::Init),
                next: StartDriver { at: StartDriverAt::Reported, ..run },
            })
            &&& run.at is Reported && good ==> step == (StartStep::Act {
                action: Action::FindBus { controller },
                next: StartDriver { at: StartDriverAt::Searched, ..run },
            })
            &&& run.at is Searched && reply == Reply::Verdict(true) ==> step == StartStep::RunningBus
            &&& run.at is Searched && reply != Reply::Verdict(true) ==> step == (StartStep::Act {
                action: Action::ReportProgress(Progress::Enable),
                next: StartDriver { at: StartDriverAt::Enabled, ..run },
            })
            &&& run.at is Enabled && good ==> step == StartStep::NewBus
        }),
{
}

/// A new bus belongs to its controller and its agent, has the path of the controller and
/// wants nothing yet. It has room for 256 addresses on a controller of revision 3 and for 128
/// on any other. Its only device is the root hub at address 0, whose only interface has the
/// path of the bus and is no hub yet.
pub proof fn a_new_bus_has_a_root_hub(
    bus: UsbBus,
    agent: usize,
    controller: usize,
    path: Seq<u8>,
    major_revision: u8,
)
    requires
        is_new_bus(bus, agent, controller, path, major_revision),
    ensures
        bus.wf(),
        bus.signature == USB_BUS_SIGNATURE,
        bus.agent == agent,
        bus.host_handle == controller,
        bus.device_path@ == path,
        bus.max_devices == (if major_revision == 3 {
            256int
        } else {
            128
        }),
        bus.wanted_usb_io_dp_list.paths().len() == 0,
        bus.devices@[0] is Some,
        forall|a: int| 1 <= a < 256 ==> #[trigger] bus.devices@[a] is None,
        ({
            let root = bus.devices@[0]->0;
            &&& root.address == 0
            &&& root.tier == 0
            &&& root.parent_if is None
            &&& root.translator.translator_hub_address == 0
            &&& root.translator.translator_port_number == 0
            &&& root.num_of_interface == 1
            &&& !root.disconnect_fail
            &&& root.interfaces@[0] matches Some(interface)
            &&& interface.signature == USB_INTERFACE_SIGNATURE
            &&& interface.device_path@ == path
            &&& !interface.is_hub
            &&& interface.hub_api is None
            &&& interface.if_desc is None
            &&& interface.num_of_port == 0
            &&& interface.hub_notify == 0
            &&& interface.poll_count == 0
            &&& forall|i: int| 1 <= i < 16 ==> #[trigger] root.interfaces@[i] is None
        }),
{
}

/// A bus is built in order: the device path and the host controller are taken, the bus is made
/// and published, what the remaining path asks for is wanted, and the root hub is brought up.
/// A failure has everything before it given back, the last part first, and is the outcome.
pub proof fn a_bus_is_built_in_order(
    run: BuildProtocol,
    pre: UsbBus,
    reply: Reply,
    post: UsbBus,
    step: Step,
)
    requires
        run.goes_on(pre, reply, post, step),
    ensures
        ({
            let status = reply.as_status();
            let good = status == Status::Success;
            let (controller, agent) = (run.controller, run.agent);
            let wanted = wanted_after(
                pre.wanted_usb_io_dp_list.paths(),
                match run.remaining {
                    Some(path) => Some(path@),
                    None => None,
                },
            );
            &&& run.at is Start ==> acts(
                run,
                step,
                Action::OpenDevicePath { controller, agent },
                BuildProtocolAt::PathOpened,
            )
            &&& run.at is PathOpened && !good ==> step == Step::Done(Reply::Status(status))
            &&& run.at is PathOpened && good ==> {
                &&& step matches Step::Act { action, next: Frame::BuildProtocol(next) }
                &&& action == (Action::OpenHostController { controller, agent })
                &&& next.controller == controller && next.agent == agent && next.remaining == run.remaining
                &&& next.at matches BuildProtocolAt::HostOpened { path }
                &&& reply matches Reply::Path { path: opened, .. } ==> path@ == opened@
            }
            &&& run.at is HostOpened && !good ==> acts(
                run,
                step,
                Action::CloseDevicePath { controller, agent },
                BuildProtocolAt::PathClosed { status },
            )
            &&& run.at is HostOpened && good && reply is HostController ==> {
                &&& is_new_bus(
                    post,
                    agent,
                    controller,
                    run.at->HostOpened_path@,
                    reply->HostController_major_revision,
                )
                &&& acts(run, step, Action::InstallBus { controller }, BuildProtocolAt::Installed)
            }
            &&& run.at is Installed && !good ==> acts(
                run,
                step,
                Action::CloseHostController { controller, agent },
                BuildProtocolAt::HostClosed { status },
            )
            &&& run.at is Installed && good && pre.signature == USB_BUS_SIGNATURE && wanted is Some ==> {
                &&& post.wanted_usb_io_dp_list.paths() == wanted->0
                &&& acts(
                    run,
                    step,
                    Action::ReportProgress(Progress::Detect),
                    BuildProtocolAt::Detected,
                )
            }
            &&& run.at is Installed && good && !(pre.signature == USB_BUS_SIGNATURE && wanted is Some)
                ==> acts(
                run,
                step,
                Action::UninstallBus { controller },
                BuildProtocolAt::Uninstalled { status: Status::InvalidParameter },
            )
            &&& run.at is Detected && good ==> {
                &&& step matches Step::Call {
                    callee: Frame::RootHubInit(init),
                    next: Frame::BuildProtocol(next),
                }
                &&& init.interface == (InterfaceId { device: 0, index: 0 }) && init.at is Start
                &&& next == (BuildProtocol { at: BuildProtocolAt::Up, ..run })
            }
            &&& (run.at is Detected || run.at is Up) && !good ==> acts(
                run,
                step,
                Action::UninstallBus { controller },
                BuildProtocolAt::Uninstalled { status },
            )
            &&& run.at is Up && good ==> step == Step::Done(Reply::Status(Status::Success))
            &&& run.at matches BuildProtocolAt::Uninstalled { status } ==> acts(
                run,
                step,
                Action::CloseHostController { controller, agent },
                BuildProtocolAt::HostClosed { status },
            )
            &&& run.at matches BuildProtocolAt::HostClosed { status } ==> acts(
                run,
                step,
                Action::CloseDevicePath { controller, agent },
                BuildProtocolAt::PathClosed { status },
            )
            &&& run.at matches BuildProtocolAt::PathClosed { status } ==> step == Step::Done(
                Reply::Status(status),
            )
            &&& !(run.at is HostOpened || run.at is Installed) ==> post == pre
            &&& run.at is Installed ==> post == (UsbBus {
                wanted_usb_io_dp_list: post.wanted_usb_io_dp_list,
                ..pre
            })
        }),
{
}

/// A step of building a bus has some work done and goes on from there.
pub open spec fn acts(run: BuildProtocol, step: Step, action: Action, at: BuildProtocolAt) -> bool {
    &&& step matches Step::Act { action: asked, next: Frame::BuildProtocol(next) }
    &&& asked == action
    &&& next == (BuildProtocol { at, ..run })
}

/// A bus that runs and is asked for more wants what the path leads to, and then connects what
/// is wanted, from the first handle on; the outcome of that is the outcome. A path that cannot
/// be wanted is refused, and nothing is connected.
pub proof fn a_running_bus_connects_more(
    run: ConnectMore,
    pre: UsbBus,
    reply: Reply,
    post: UsbBus,
    step: Step,
)
    requires
        run.goes_on(pre, reply, post, step),
    ensures
        ({
            let wanted = wanted_after(
                pre.wanted_usb_io_dp_list.paths(),
                match run.remaining {
                    Some(path) => Some(path@),
                    None => None,
                },
            );
            &&& run.asked ==> post == pre && step == Step::Done(Reply::Status(reply.as_status()))
            &&& !run.asked && pre.signature == USB_BUS_SIGNATURE && wanted is Some ==> {
                &&& post.wanted_usb_io_dp_list.paths() == wanted->0
                &&& step matches Step::Call {
                    callee: Frame::RecursivelyConnect(connect),
                    next: Frame::ConnectMore(next),
                }
                &&& connect.at == RecursivelyConnectAt::Start
                &&& connect.index == 0
                &&& next.asked
            }
            &&& !run.asked && !(pre.signature == USB_BUS_SIGNATURE && wanted is Some) ==> {
                &&& post.wanted_usb_io_dp_list.paths() == pre.wanted_usb_io_dp_list.paths()
                &&& step == Step::Done(Reply::Status(Status::InvalidParameter))
            }
            &&& post == (UsbBus { wanted_usb_io_dp_list: post.wanted_usb_io_dp_list, ..pre })
        }),
{
}

/// A step turns to the child at an index, or brings the priority back behind the last one.
pub open spec fn turns_to_child(
    run: StopChildren,
    step: Step,
    index: int,
    result: Status,
    level: usize,
) -> bool {
    &&& step matches Step::Act { action, next: Frame::StopChildren(next) }
    &&& next.result == result
    &&& next.level == level
    &&& index < run.children@.len() ==> action == (Action::FindInterface {
        handle: run.children@[index],
    }) && next.children@ == run.children@ && next.index == index && next.at is Found
    &&& index >= run.children@.len() ==> action == (Action::RestoreTpl { level }) && next.at is Lowered
}

/// The devices of children are removed one after the other, at the callback level: that of the
/// interface that is found on each handle. A handle without services is passed over, and the
/// outcome is that of the last removal. In the end the priority is what it was.
pub proof fn the_devices_of_children_are_removed(run: StopChildren, reply: Reply, step: Step)
    requires
        run.goes_on(reply, step),
    ensures
        ({
            let status = reply.as_status();
            &&& run.at is Start ==> step == (Step::Act {
                action: Action::RaiseTpl { to: Tpl::Callback },
                next: Frame::StopChildren(StopChildren { at: StopChildrenAt::Raised, ..run }),
            })
            &&& run.at is Raised && reply is Level ==> turns_to_child(
                run,
                step,
                run.index as int,
                run.result,
                reply->Level_0,
            )
            &&& run.at is Found && status != Status::Success ==> turns_to_child(
                run,
                step,
                run.index + 1,
                run.result,
                run.level,
            )
            &&& (run.at is Found && reply is Found && status == Status::Success
                && reply->Found_interface is Some) ==> {
                &&& step matches Step::Call {
                    callee: Frame::RemoveDevice(removal),
                    next: Frame::StopChildren(next),
                }
                &&& removal.device == reply->Found_interface->0.device && removal.at is Start
                &&& next == (StopChildren { at: StopChildrenAt::Removed, ..run })
            }
            &&& (run.at is Found && reply is Found && status == Status::Success
                && reply->Found_interface is None) ==> turns_to_child(
                run,
                step,
                run.index + 1,
                Status::InvalidParameter,
                run.level,
            )
            &&& run.at is Removed ==> turns_to_child(run, step, run.index + 1, status, run.level)
            &&& run.at is Lowered ==> step == Step::Done(Reply::Status(run.result))
        }),
{
}

/// A step removes the first device from an address on, or brings the priority back where none
/// is left.
pub open spec fn removes_next(
    run: StopBus,
    bus: UsbBus,
    step: Step,
    from: int,
    error: Status,
    level: usize,
) -> bool {
    match step {
        Step::Call { callee: Frame::RemoveDevice(removal), next } => {
            &&& from <= removal.device < bus.max_devices
            &&& bus.devices@[removal.device as int] is Some
            &&& forall|a: int| from <= a < removal.device ==> #[trigger] bus.devices@[a] is None
            &&& removal.at is Start
            &&& next == Frame::StopBus(
                StopBus { device: removal.device, error, level, at: StopBusAt::Removed, ..run },
            )
        },
        _ => {
            &&& forall|a: int|
                from <= a < 256 && a < bus.max_devices ==> #[trigger] bus.devices@[a] is None
            &&& step == (Step::Act {
                action: Action::RestoreTpl { level },
                next: Frame::StopBus(StopBus { error, level, at: StopBusAt::Lowered, ..run }),
            })
        },
    }
}

/// A bus is stopped in order: every device is removed, at the callback level, by its address;
/// then, if all have gone, the root hub is let go, nothing is wanted any more, the bus is taken
/// off the controller, and host controller and device path are given back. The first of these
/// parts that fails ends the stop with its status.
pub proof fn a_bus_is_stopped_in_order(
    run: StopBus,
    pre: UsbBus,
    reply: Reply,
    post: UsbBus,
    step: Step,
)
    requires
        pre.wf(),
        run.goes_on(pre, reply, post, step),
    ensures
        ({
            let status = reply.as_status();
            let good = status == Status::Success;
            let (controller, agent) = (run.controller, run.agent);
            let has_root = pre.devices@[0] matches Some(root) && root.interfaces@[0] is Some;
            &&& run.at is Start && !(pre.signature == USB_BUS_SIGNATURE && has_root) ==> step == Step::Done(
                Reply::Status(Status::InvalidParameter),
            )
            &&& run.at is Start && pre.signature == USB_BUS_SIGNATURE && has_root ==> step == (Step::Act {
                action: Action::RaiseTpl { to: Tpl::Callback },
                next: Frame::StopBus(StopBus { at: StopBusAt::Raised, ..run }),
            })
            &&& run.at is Raised && reply is Level ==> removes_next(
                run,
                pre,
                step,
                1,
                Status::Success,
                reply->Level_0,
            )
            &&& run.at is Removed && good ==> removes_next(
                run,
                pre,
                step,
                run.device + 1,
                run.error,
                run.level,
            )
            &&& run.at is Removed && !good ==> removes_next(
                run,
                pre,
                step,
                run.device + 1,
                status,
                run.level,
            )
            &&& run.at is Lowered && run.error != Status::Success ==> step == Step::Done(
                Reply::Status(run.error),
            )
            &&& run.at is Lowered && run.error == Status::Success ==> {
                &&& step matches Step::Call { callee: Frame::RootHubRelease(release), next }
                &&& release.interface == (InterfaceId { device: 0, index: 0 }) && release.at is Start
                &&& next == Frame::StopBus(StopBus { at: StopBusAt::Released, ..run })
            }
            &&& (run.at is Released || run.at is Uninstalled || run.at is HostClosed) && !good ==> step
                == Step::Done(Reply::Status(status))
            &&& run.at is Released && good ==> {
                &&& post.wanted_usb_io_dp_list.paths().len() == 0
                &&& step == (Step::Act {
                    action: Action::UninstallBus { controller },
                    next: Frame::StopBus(StopBus { at: StopBusAt::Uninstalled, ..run }),
                })
            }
            &&& run.at is Uninstalled && good ==> step == (Step::Act {
                action: Action::CloseHostController { controller, agent },
                next: Frame::StopBus(StopBus { at: StopBusAt::HostClosed, ..run }),
            })
            &&& run.at is HostClosed && good ==> step == (Step::Act {
                action: Action::CloseDevicePath { controller, agent },
                next: Frame::StopBus(StopBus { at: StopBusAt::PathClosed, ..run }),
            })
            &&& run.at is PathClosed ==> step == Step::Done(Reply::Status(Status::Success))
            &&& !(run.at is Released && good) ==> post == pre
        }),
{
    let p = is_taken();
    first_between_is_first(pre.devices@, 1, pre.usable_slots(), p);
    first_between_is_first(pre.devices@, run.device + 1, pre.usable_slots(), p);
}

/// A call of a service is refused before anything is done where it names a string 0, a language
/// 0, an endpoint whose number is 0 or above 15, or an interface that is not there. Any other
/// raises the priority to that of notifications, runs the very operation, and brings the
/// priority back; its answer is that of the operation.
pub proof fn a_service_is_called_at_the_priority_of_the_bus(run: IoCall, bus: UsbBus, reply: Reply)
    requires
        bus.wf(),
    ensures
        ({
            let step = run.next(bus, reply);
            let interface = match run.operation {
                IoOperation::ControlTransfer(o) => o.interface,
                IoOperation::BulkTransfer(o) => o.interface,
                IoOperation::SyncInterruptTransfer(o) => o.interface,
                IoOperation::AsyncInterruptTransfer(o) => o.interface,
                IoOperation::GetStringDescriptor(o) => o.interface,
                IoOperation::PortReset(o) => o.interface,
            };
            let endpoint: int = match run.operation {
                IoOperation::BulkTransfer(o) => o.endpoint as int,
                IoOperation::SyncInterruptTransfer(o) => o.endpoint as int,
                IoOperation::AsyncInterruptTransfer(o) => o.endpoint as int,
                _ => 1,
            };
            let no_string = run.operation matches IoOperation::GetStringDescriptor(o) && (o.string_index
                == 0 || o.language_id == 0);
            let no_endpoint = endpoint % 128 == 0 || endpoint % 128 > 15;
            let operation = match run.operation {
                IoOperation::ControlTransfer(o) => Frame::IoControlTransfer(o),
                IoOperation::BulkTransfer(o) => Frame::IoBulkTransfer(o),
                IoOperation::SyncInterruptTransfer(o) => Frame::IoSyncInterruptTransfer(o),
                IoOperation::AsyncInterruptTransfer(o) => Frame::IoAsyncInterruptTransfer(o),
                IoOperation::GetStringDescriptor(o) => Frame::IoGetStringDescriptor(o),
                IoOperation::PortReset(o) => Frame::IoPortReset(o),
            };
            &&& run.at is Start && no_string ==> step == Step::Done(Reply::Status(Status::NotFound))
            &&& run.at is Start && !no_string && (no_endpoint || bus.interface(interface) is None) ==> step
                == Step::Done(Reply::Status(Status::InvalidParameter))
            &&& run.at is Start && !no_string && !no_endpoint && bus.interface(interface) is Some ==> step
                == (Step::Act {
                action: Action::RaiseTpl { to: Tpl::Notify },
                next: Frame::IoCall(IoCall { at: IoCallAt::Raised, ..run }),
            })
            &&& run.at is Raised && reply is Level ==> step == (Step::Call {
                callee: operation,
                next: Frame::IoCall(IoCall { at: IoCallAt::Running { level: reply->Level_0 }, ..run }),
            })
            &&& run.at matches IoCallAt::Running { level } ==> step == (Step::Act {
                action: Action::RestoreTpl { level },
                next: Frame::IoCall(IoCall { at: IoCallAt::Lowered { answer: reply }, ..run }),
            })
            &&& run.at matches IoCallAt::Lowered { answer } ==> step == Step::Done(answer)
        }),
{
}

/// The operations of a task wait for each other on a stack: only the last one runs. Work
/// leaves the others alone; an operation that is run comes on top and starts without a reply;
/// and one that is over hands its answer to the one below it, or to the outside where it was
/// the first.
pub proof fn only_the_last_operation_runs(
    below: Seq<Frame>,
    running: Frame,
    step: Step,
    post: Seq<Frame>,
    request: Request,
)
    requires
        Task::follows(below.push(running), step, post, request),
    ensures
        match step {
            Step::Act { action, next } => {
                &&& post.len() == below.len() + 1
                &&& forall|i: int| 0 <= i < below.len() ==> #[trigger] post[i] == below[i]
                &&& post[below.len() as int] == next
                &&& request == Request::Act(action)
            },
            Step::Call { callee, next } => {
                &&& post.len() == below.len() + 2
                &&& forall|i: int| 0 <= i < below.len() ==> #[trigger] post[i] == below[i]
                &&& post[below.len() as int] == next
                &&& post[below.len() as int + 1] == callee
                &&& request == Request::Continue(Reply::Nothing)
            },
            Step::Done(answer) => {
                &&& post == below
                &&& below.len() == 0 ==> request == Request::Finished(answer)
                &&& below.len() > 0 ==> request == Request::Continue(answer)
            },
        },
{
    assert(below.push(running).drop_last() =~= below);
}

} // verus!
