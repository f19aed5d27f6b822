//! The driver binding: which controllers the driver supports, starting a bus on a
//! controller, and stopping it.

use crate::device_path::EfiDevicePathProtocol;
use crate::hub_life::{RootHubInit, RootHubRelease};
use crate::search::first_between;
use crate::status::Status;
use crate::task::{Action, Frame, Progress, Reply, Step, Tpl};
use crate::usb_2_host_controller::Usb2HcTransactionTranslator;
use crate::usb_bus_defs::{
    EfiUsbBusProtocol, InterfaceId, UsbBus, UsbDevice, UsbDevicePathList, UsbInterface,
    USB_BUS_SIGNATURE, USB_DEVICE_SLOTS, USB_INTERFACE_SIGNATURE, USB_MAX_DEVICES, USB_MAX_INTERFACE,
};
use crate::usb_enumer::RemoveDevice;
use crate::usb_utility::{
    ends_path, is_end_node, is_usb_node, names_usb, usb_bus_add_wanted_usb_io_dp,
    usb_bus_free_usb_dp_list, wanted_after,
};
use crate::usb_wanted::{RecursivelyConnect, RecursivelyConnectAt};
use vstd::prelude::*;
use vstd::slice::slice_to_vec;

verus! {

/// A node of a device path that is being walked.
#[derive(Debug)]
pub struct PathNode {
    pub header: EfiDevicePathProtocol,
    /// The bytes behind the header.
    pub data: Vec<u8>,
}

impl PathNode {
    /// The bytes of the node.
    pub open spec fn bytes(self) -> Seq<u8> {
        seq![
            self.header.node_type,
            self.header.sub_type,
            (self.header.length % 256) as u8,
            (self.header.length / 256) as u8,
        ] + self.data@
    }
}

/// The bytes of nodes, one after the other.
pub open spec fn nodes_bytes(nodes: Seq<PathNode>) -> Seq<u8>
    decreases nodes.len(),
{
    if nodes.len() == 0 {
        Seq::empty()
    } else {
        nodes_bytes(nodes.drop_last()) + nodes.last().bytes()
    }
}

fn gather(nodes: &Vec<PathNode>) -> (r: Vec<u8>)
    ensures
        r@ == nodes_bytes(nodes@),
{
    let mut path: Vec<u8> = Vec::new();
    let mut i: usize = 0;
    while i < nodes.len()
        invariant
            i <= nodes@.len(),
            path@ == nodes_bytes(nodes@.take(i as int)),
        decreases nodes@.len() - i,
    {
        let node = &nodes[i];
        let ghost before = path@;
        path.push(node.header.node_type);
        path.push(node.header.sub_type);
        path.push((node.header.length % 256) as u8);
        path.push((node.header.length / 256) as u8);
        path.extend_from_slice(node.data.as_slice());
        proof {
            let next = nodes@.take(i + 1);
            assert(next.drop_last() =~= nodes@.take(i as int));
            assert(next.last() == *node);
            assert(path@ =~= before + node.bytes());
        }
        i = i + 1;
    }
    assert(nodes@.take(i as int) =~= nodes@);
    path
}

/// Collects the bytes of a remaining device path. A path without any node is refused.
pub fn collect_device_path(remaining_device_path: Option<&Vec<PathNode>>) -> (r: Result<
    Option<Vec<u8>>,
    Status,
>)
    ensures
        match remaining_device_path {
            None => r == Ok::<Option<Vec<u8>>, Status>(None),
            Some(nodes) => if nodes@.len() == 0 {
                r == Err::<Option<Vec<u8>>, Status>(Status::InvalidParameter)
            } else {
                r matches Ok(Some(path)) && path@ == nodes_bytes(nodes@)
            },
        },
{
    match remaining_device_path {
        None => Ok(None),
        Some(nodes) => {
            if nodes.len() == 0 {
                return Err(Status::InvalidParameter);
            }
            Ok(Some(gather(nodes)))
        },
    }
}

/// What is asked of a bus that runs already.
#[derive(Debug)]
pub enum Remaining {
    /// The path is at its end: nothing is asked.
    AtEnd,
    /// Connect what the path leads to, or everything without a path.
    Connect(Option<Vec<u8>>),
}

/// Collects the remaining device path for a bus that runs already.
pub fn collect_for_running_bus(remaining_device_path: Option<&Vec<PathNode>>) -> (r: Result<
    Remaining,
    Status,
>)
    ensures
        match remaining_device_path {
            None => r == Ok::<Remaining, Status>(Remaining::Connect(None)),
            Some(nodes) => if nodes@.len() == 0 {
                r == Err::<Remaining, Status>(Status::InvalidParameter)
            } else if ends_path(nodes@[0].header) {
                r == Ok::<Remaining, Status>(Remaining::AtEnd)
            } else {
                r matches Ok(Remaining::Connect(Some(path))) && path@ == nodes_bytes(nodes@)
            },
        },
{
    match remaining_device_path {
        None => Ok(Remaining::Connect(None)),
        Some(nodes) => {
            if nodes.len() == 0 {
                return Err(Status::InvalidParameter);
            }
            if is_end_node(&nodes[0].header) {
                return Ok(Remaining::AtEnd);
            }
            Ok(Remaining::Connect(Some(gather(nodes))))
        },
    }
}

/// Finds out whether the driver supports a controller.
#[derive(Clone, Copy, Debug)]
pub struct Supported {
    pub controller: usize,
    pub agent: usize,
    pub at: SupportedAt,
}

#[derive(Clone, Copy, Debug)]
pub enum SupportedAt {
    /// The first node of the remaining device path, where there is a path and it has
    /// one.
    Start { node: Option<Option<EfiDevicePathProtocol>> },
    HostOpened,
    HostClosed,
    PathOpened,
    PathClosed,
}

/// What the driver binding does next.
#[derive(Debug)]
pub enum SupportedStep {
    Act { action: Action, next: Supported },
    Done(Status),
}

impl Supported {
    pub open spec fn to(self, action: Action, at: SupportedAt) -> SupportedStep {
        SupportedStep::Act { action, next: Supported { at, ..self } }
    }

    /// How the operation goes on after `reply`. What another run of the driver has
    /// taken already counts as supported.
    pub open spec fn next(self, reply: Reply) -> SupportedStep {
        let (controller, agent) = (self.controller, self.agent);
        let status = reply.as_status();
        let refused = SupportedStep::Done(
            if status == Status::AlreadyStarted {
                Status::Success
            } else {
                status
            },
        );
        let open = self.to(Action::OpenHostController { controller, agent }, SupportedAt::HostOpened);
        match self.at {
            SupportedAt::Start { node: None } => open,
            SupportedAt::Start { node: Some(None) } => SupportedStep::Done(Status::InvalidParameter),
            SupportedAt::Start { node: Some(Some(node)) } => if ends_path(node) || names_usb(node) {
                open
            } else {
                SupportedStep::Done(Status::Unsupported)
            },
            SupportedAt::HostOpened => if status != Status::Success {
                refused
            } else {
                self.to(Action::CloseHostController { controller, agent }, SupportedAt::HostClosed)
            },
            SupportedAt::HostClosed => self.to(
                Action::OpenDevicePath { controller, agent },
                SupportedAt::PathOpened,
            ),
            SupportedAt::PathOpened => if status != Status::Success {
                refused
            } else {
                self.to(Action::CloseDevicePath { controller, agent }, SupportedAt::PathClosed)
            },
            SupportedAt::PathClosed => SupportedStep::Done(Status::Success),
        }
    }
}

/// Takes one step of finding out whether the driver supports a controller.
pub fn supported(run: Supported, reply: Reply) -> (step: SupportedStep)
    ensures
        step == run.next(reply),
{
    let (controller, agent): (usize, usize) = (run.controller, run.agent);
    let status = reply.status();
    let (action, at) = match run.at {
        SupportedAt::Start { node } => {
            match node {
                None => {},
                Some(None) => return SupportedStep::Done(Status::InvalidParameter),
                Some(Some(node)) => {
                    if !is_end_node(&node) && !is_usb_node(&node) {
                        return SupportedStep::Done(Status::Unsupported);
                    }
                },
            }
            (Action::OpenHostController { controller, agent }, SupportedAt::HostOpened)
        },
        SupportedAt::HostOpened => {
            if status == Status::AlreadyStarted {
                return SupportedStep::Done(Status::Success);
            }
            if !status.is_success() {
                return SupportedStep::Done(status);
            }
            (Action::CloseHostController { controller, agent }, SupportedAt::HostClosed)
        },
        SupportedAt::HostClosed => (
            Action::OpenDevicePath { controller, agent },
            SupportedAt::PathOpened,
        ),
        SupportedAt::PathOpened => {
            if status == Status::AlreadyStarted {
                return SupportedStep::Done(Status::Success);
            }
            if !status.is_success() {
                return SupportedStep::Done(status);
            }
            (Action::CloseDevicePath { controller, agent }, SupportedAt::PathClosed)
        },
        SupportedAt::PathClosed => return SupportedStep::Done(Status::Success),
    };
    SupportedStep::Act { action, next: Supported { at, ..run } }
}

/// Starts the driver on a controller.
#[derive(Clone, Copy, Debug)]
pub struct StartDriver {
    pub controller: usize,
    pub agent: usize,
    pub at: StartDriverAt,
}

#[derive(Clone, Copy, Debug)]
pub enum StartDriverAt {
    Start,
    Checked,
    Reported,
    Searched,
    Enabled,
}

/// How the start of the driver goes on.
#[derive(Debug)]
pub enum StartStep {
    Act { action: Action, next: StartDriver },
    Failed(Status),
    /// A bus runs on the controller: it is asked to connect more devices.
    RunningBus,
    /// A new bus is to be built.
    NewBus,
}

impl StartDriver {
    pub open spec fn to(self, action: Action, at: StartDriverAt) -> StartStep {
        StartStep::Act { action, next: StartDriver { at, ..self } }
    }

    /// How the operation goes on after `reply`.
    pub open spec fn next(self, reply: Reply) -> StartStep {
        let (controller, agent) = (self.controller, self.agent);
        let status = reply.as_status();
        let done = status == Status::Success;
        match self.at {
            StartDriverAt::Start => self.to(
                Action::CheckDevicePath { controller, agent },
                StartDriverAt::Checked,
            ),
            StartDriverAt::Checked => if done {
                self.to(Action::ReportProgress(Progress::Init), StartDriverAt::Reported)
            } else {
                StartStep::Failed(status)
            },
            StartDriverAt::Reported => if done {
                self.to(Action::FindBus { controller }, StartDriverAt::Searched)
            } else {
                StartStep::Failed(status)
            },
            StartDriverAt::Searched => if reply.as_verdict() {
                StartStep::RunningBus
            } else {
                self.to(Action::ReportProgress(Progress::Enable), StartDriverAt::Enabled)
            },
            StartDriverAt::Enabled => if done {
                StartStep::NewBus
            } else {
                StartStep::Failed(status)
            },
        }
    }
}

/// Takes one step of starting the driver on a controller.
pub fn start(run: StartDriver, reply: Reply) -> (step: StartStep)
    ensures
        step == run.next(reply),
{
    let (controller, agent): (usize, usize) = (run.controller, run.agent);
    let status = reply.status();
    let (action, at) = match run.at {
        StartDriverAt::Start => (Action::CheckDevicePath { controller, agent }, StartDriverAt::Checked),
        StartDriverAt::Checked => {
            if !status.is_success() {
                return StartStep::Failed(status);
            }
            (Action::ReportProgress(Progress::Init), StartDriverAt::Reported)
        },
        StartDriverAt::Reported => {
            if !status.is_success() {
                return StartStep::Failed(status);
            }
            (Action::FindBus { controller }, StartDriverAt::Searched)
        },
        StartDriverAt::Searched => {
            if reply.verdict() {
                return StartStep::RunningBus;
            }
            (Action::ReportProgress(Progress::Enable), StartDriverAt::Enabled)
        },
        StartDriverAt::Enabled => {
            if !status.is_success() {
                return StartStep::Failed(status);
            }
            return StartStep::NewBus;
        },
    };
    StartStep::Act { action, next: StartDriver { at, ..run } }
}

/// What follows the start of the driver on a controller.
#[derive(Debug)]
pub enum FollowUp {
    /// The bus that runs already is asked to connect what the path leads to, or
    /// everything without a path.
    ConnectMore { remaining: Option<Vec<u8>> },
    /// A bus is built, and what the path leads to is wanted, or everything without a
    /// path.
    Build { remaining: Option<Vec<u8>> },
}

/// Returns what follows a step of starting the driver, for the remaining device path of
/// the start. Nothing follows a step that is not the last one, and nothing is left to
/// do for a running bus where the path is at its end.
pub fn start_follow_up(step: &StartStep, nodes: Option<&Vec<PathNode>>) -> (r: Result<
    Option<FollowUp>,
    Status,
>)
    ensures
        match step {
            StartStep::Act { .. } => r == Ok::<Option<FollowUp>, Status>(None),
            StartStep::Failed(status) => r == Err::<Option<FollowUp>, Status>(*status),
            StartStep::RunningBus => match nodes {
                None => r == Ok::<Option<FollowUp>, Status>(
                    Some(FollowUp::ConnectMore { remaining: None }),
                ),
                Some(nodes) => if nodes@.len() == 0 {
                    r == Err::<Option<FollowUp>, Status>(Status::InvalidParameter)
                } else if ends_path(nodes@[0].header) {
                    r == Ok::<Option<FollowUp>, Status>(None)
                } else {
                    r matches Ok(Some(FollowUp::ConnectMore { remaining: Some(path) })) && path@
                        == nodes_bytes(nodes@)
                },
            },
            StartStep::NewBus => match nodes {
                None => r == Ok::<Option<FollowUp>, Status>(Some(FollowUp::Build { remaining: None })),
                Some(nodes) => if nodes@.len() == 0 {
                    r == Err::<Option<FollowUp>, Status>(Status::InvalidParameter)
                } else {
                    r matches Ok(Some(FollowUp::Build { remaining: Some(path) })) && path@ == nodes_bytes(
                        nodes@,
                    )
                },
            },
        },
{
    match step {
        StartStep::Act { .. } => Ok(None),
        StartStep::Failed(status) => Err(*status),
        StartStep::RunningBus => match collect_for_running_bus(nodes) {
            Ok(Remaining::AtEnd) => Ok(None),
            Ok(Remaining::Connect(remaining)) => Ok(Some(FollowUp::ConnectMore { remaining })),
            Err(status) => Err(status),
        },
        StartStep::NewBus => match collect_device_path(nodes) {
            Ok(remaining) => Ok(Some(FollowUp::Build { remaining })),
            Err(status) => Err(status),
        },
    }
}

/// Names the interface of the root hub.
pub open spec fn root_interface_id() -> InterfaceId {
    InterfaceId { device: 0, index: 0 }
}

fn root_id() -> (r: InterfaceId)
    ensures
        r == root_interface_id(),
{
    InterfaceId { device: 0, index: 0 }
}

/// The interface of a root hub that is not up yet. It has the device path of the host
/// controller.
pub open spec fn is_root_interface(interface: UsbInterface, path: Seq<u8>) -> bool {
    &&& interface == (UsbInterface {
        signature: USB_INTERFACE_SIGNATURE,
        if_desc: None,
        handle: 0,
        device_path: interface.device_path,
        is_managed: false,
        is_hub: false,
        hub_api: None,
        num_of_port: 0,
        hub_notify: 0,
        hub_ep: None,
        hub_interrupt_context: false,
        change_map: interface.change_map,
        max_speed: 0,
        poll_count: 0,
    })
    &&& interface.device_path@ == path
    &&& interface.change_map@.len() == 0
}

/// A root hub with one interface.
pub open spec fn is_root_hub(root: UsbDevice, path: Seq<u8>) -> bool {
    &&& root == (UsbDevice {
        speed: 0,
        address: 0,
        max_packet0: 0,
        dev_desc: None,
        active_config: None,
        lang_id: root.lang_id,
        total_lang_id: 0,
        num_of_interface: 1,
        interfaces: root.interfaces,
        translator: Usb2HcTransactionTranslator { translator_hub_address: 0, translator_port_number: 0 },
        parent_addr: 0,
        parent_if: None,
        parent_port: 0,
        tier: 0,
        connected: false,
        disconnect_fail: false,
    })
    &&& forall|i: int| 0 <= i < 16 ==> #[trigger] root.lang_id@[i] == 0
    &&& root.interfaces@.len() == USB_MAX_INTERFACE
    &&& root.interfaces@[0] matches Some(interface)
    &&& is_root_interface(interface, path)
    &&& forall|i: int| 1 <= i < USB_MAX_INTERFACE ==> #[trigger] root.interfaces@[i] is None
}

/// A bus on a host controller, with nothing but its root hub. Controllers of USB 3
/// have more device slots.
pub open spec fn is_new_bus(
    bus: UsbBus,
    agent: usize,
    controller: usize,
    path: Seq<u8>,
    major_revision: u8,
) -> bool {
    &&& bus == (UsbBus {
        signature: USB_BUS_SIGNATURE,
        bus_id: EfiUsbBusProtocol { reserved: 0 },
        agent,
        host_handle: controller,
        device_path: bus.device_path,
        max_devices: if major_revision == 3 {
            USB_DEVICE_SLOTS as u32
        } else {
            USB_MAX_DEVICES as u32
        },
        devices: bus.devices,
        wanted_usb_io_dp_list: bus.wanted_usb_io_dp_list,
    })
    &&& bus.device_path@ == path
    &&& bus.wanted_usb_io_dp_list.paths() == Seq::<Seq<u8>>::empty()
    &&& bus.devices@.len() == USB_DEVICE_SLOTS
    &&& bus.devices@[0] matches Some(root)
    &&& is_root_hub(root, path)
    &&& forall|a: int| 1 <= a < USB_DEVICE_SLOTS ==> #[trigger] bus.devices@[a] is None
}

/// Makes a bus with its root hub.
pub fn new_usb_bus(agent: usize, controller: usize, path: Vec<u8>, major_revision: u8) -> (r: UsbBus)
    ensures
        is_new_bus(r, agent, controller, path@, major_revision),
        r.wf(),
{
    let root_interface = UsbInterface {
        signature: USB_INTERFACE_SIGNATURE,
        if_desc: None,
        handle: 0,
        device_path: slice_to_vec(path.as_slice()),
        is_managed: false,
        is_hub: false,
        hub_api: None,
        num_of_port: 0,
        hub_notify: 0,
        hub_ep: None,
        hub_interrupt_context: false,
        change_map: Vec::new(),
        max_speed: 0,
        poll_count: 0,
    };
    let mut interfaces: Vec<Option<UsbInterface>> = Vec::new();
    interfaces.push(Some(root_interface));
    while interfaces.len() < USB_MAX_INTERFACE
        invariant
            1 <= interfaces@.len() <= USB_MAX_INTERFACE,
            interfaces@[0] == Some(root_interface),
            forall|i: int| 1 <= i < interfaces@.len() ==> #[trigger] interfaces@[i] is None,
        decreases USB_MAX_INTERFACE - interfaces@.len(),
    {
        interfaces.push(None);
    }
    let root = UsbDevice {
        speed: 0,
        address: 0,
        max_packet0: 0,
        dev_desc: None,
        active_config: None,
        lang_id: [0; 16],
        total_lang_id: 0,
        num_of_interface: 1,
        interfaces,
        translator: Usb2HcTransactionTranslator { translator_hub_address: 0, translator_port_number: 0 },
        parent_addr: 0,
        parent_if: None,
        parent_port: 0,
        tier: 0,
        connected: false,
        disconnect_fail: false,
    };
    let mut devices: Vec<Option<UsbDevice>> = Vec::new();
    devices.push(Some(root));
    while devices.len() < USB_DEVICE_SLOTS
        invariant
            1 <= devices@.len() <= USB_DEVICE_SLOTS,
            devices@[0] == Some(root),
            forall|i: int| 1 <= i < devices@.len() ==> #[trigger] devices@[i] is None,
        decreases USB_DEVICE_SLOTS - devices@.len(),
    {
        devices.push(None);
    }
    UsbBus {
        signature: USB_BUS_SIGNATURE,
        bus_id: EfiUsbBusProtocol { reserved: 0 },
        agent,
        host_handle: controller,
        device_path: path,
        max_devices: if major_revision == 3 {
            USB_DEVICE_SLOTS as u32
        } else {
            USB_MAX_DEVICES as u32
        },
        devices,
        wanted_usb_io_dp_list: UsbDevicePathList::new(),
    }
}

/// Builds a bus on a controller. What was done is undone where a later part fails.
#[derive(Debug)]
pub struct BuildProtocol {
    pub controller: usize,
    pub agent: usize,
    /// What is to be connected; without a path everything is.
    pub remaining: Option<Vec<u8>>,
    pub at: BuildProtocolAt,
}

#[derive(Debug)]
pub enum BuildProtocolAt {
    Start,
    PathOpened,
    HostOpened { path: Vec<u8> },
    Installed,
    Detected,
    Up,
    Uninstalled { status: Status },
    HostClosed { status: Status },
    PathClosed { status: Status },
}

impl BuildProtocol {
    /// The operation goes on with `action` and then at `at`.
    pub open spec fn goes_to(self, step: Step, action: Action, at: BuildProtocolAt) -> bool {
        &&& step matches Step::Act { action: a, next: Frame::BuildProtocol(next) }
        &&& a == action
        &&& next == (BuildProtocol { at, ..self })
    }

    pub open spec fn closes_path(self, step: Step, status: Status) -> bool {
        self.goes_to(
            step,
            Action::CloseDevicePath { controller: self.controller, agent: self.agent },
            BuildProtocolAt::PathClosed { status },
        )
    }

    pub open spec fn closes_host(self, step: Step, status: Status) -> bool {
        self.goes_to(
            step,
            Action::CloseHostController { controller: self.controller, agent: self.agent },
            BuildProtocolAt::HostClosed { status },
        )
    }

    pub open spec fn uninstalls(self, step: Step, status: Status) -> bool {
        self.goes_to(
            step,
            Action::UninstallBus { controller: self.controller },
            BuildProtocolAt::Uninstalled { status },
        )
    }

    /// How the operation goes on after `reply`.
    pub open spec fn goes_on(self, pre: UsbBus, reply: Reply, post: UsbBus, step: Step) -> bool {
        let status = reply.as_status();
        let done = status == Status::Success;
        let (controller, agent) = (self.controller, self.agent);
        match self.at {
            BuildProtocolAt::Start => post == pre && self.goes_to(
                step,
                Action::OpenDevicePath { controller, agent },
                BuildProtocolAt::PathOpened,
            ),
            BuildProtocolAt::PathOpened => post == pre && if !done {
                step == Step::Done(Reply::Status(status))
            } else {
                &&& step matches Step::Act { action, next: Frame::BuildProtocol(next) }
                &&& action == (Action::OpenHostController { controller, agent })
                &&& next.at matches BuildProtocolAt::HostOpened { path }
                &&& path@ == reply.as_path()
                &&& next == (BuildProtocol { at: next.at, ..self })
            },
            BuildProtocolAt::HostOpened { path } => if !done {
                post == pre && self.closes_path(step, status)
            } else {
                &&& is_new_bus(post, agent, controller, path@, reply.as_revision())
                &&& self.goes_to(step, Action::InstallBus { controller }, BuildProtocolAt::Installed)
            },
            BuildProtocolAt::Installed => if !done {
                post == pre && self.closes_host(step, status)
            } else {
                &&& post == (UsbBus { wanted_usb_io_dp_list: post.wanted_usb_io_dp_list, ..pre })
                &&& match wanted_after(
                    pre.wanted_usb_io_dp_list.paths(),
                    match self.remaining {
                        Some(path) => Some(path@),
                        None => None,
                    },
                ) {
                    Some(paths) if pre.signature == USB_BUS_SIGNATURE => {
                        &&& post.wanted_usb_io_dp_list.paths() == paths
                        &&& self.goes_to(
                            step,
                            Action::ReportProgress(Progress::Detect),
                            BuildProtocolAt::Detected,
                        )
                    },
                    _ => {
                        &&& post.wanted_usb_io_dp_list.paths() == pre.wanted_usb_io_dp_list.paths()
                        &&& self.uninstalls(step, Status::InvalidParameter)
                    },
                }
            },
            BuildProtocolAt::Detected => post == pre && if !done {
                self.uninstalls(step, status)
            } else {
                &&& step matches Step::Call { callee, next: Frame::BuildProtocol(next) }
                &&& callee == Frame::RootHubInit(RootHubInit::start(root_interface_id()))
                &&& next == (BuildProtocol { at: BuildProtocolAt::Up, ..self })
            },
            BuildProtocolAt::Up => post == pre && if done {
                step == Step::Done(Reply::Status(Status::Success))
            } else {
                self.uninstalls(step, status)
            },
            BuildProtocolAt::Uninstalled { status } => post == pre && self.closes_host(step, status),
            BuildProtocolAt::HostClosed { status } => post == pre && self.closes_path(step, status),
            BuildProtocolAt::PathClosed { status } => post == pre && step == Step::Done(
                Reply::Status(status),
            ),
        }
    }
}

/// Takes one step of building a bus on a controller.
pub fn usb_bus_build_protocol(bus: &mut UsbBus, run: BuildProtocol, reply: Reply) -> (step: Step)
    requires
        old(bus).wf(),
    ensures
        run.goes_on(*old(bus), reply, *final(bus), step),
        final(bus).wf(),
{
    let status = reply.status();
    let done = status.is_success();
    let (controller, agent): (usize, usize) = (run.controller, run.agent);
    let remaining: Option<Vec<u8>> = run.remaining;
    let (action, at) = match run.at {
        BuildProtocolAt::Start => (
            Action::OpenDevicePath { controller, agent },
            BuildProtocolAt::PathOpened,
        ),
        BuildProtocolAt::PathOpened => {
            if !done {
                return Step::Done(Reply::Status(status));
            }
            (
                Action::OpenHostController { controller, agent },
                BuildProtocolAt::HostOpened { path: reply.into_path() },
            )
        },
        BuildProtocolAt::HostOpened { path } => {
            if done {
                *bus = new_usb_bus(agent, controller, path, reply.revision());
                (Action::InstallBus { controller }, BuildProtocolAt::Installed)
            } else {
                (Action::CloseDevicePath { controller, agent }, BuildProtocolAt::PathClosed { status })
            }
        },
        BuildProtocolAt::Installed => {
            if !done {
                (
                    Action::CloseHostController { controller, agent },
                    BuildProtocolAt::HostClosed { status },
                )
            } else {
                let added = match &remaining {
                    Some(path) => usb_bus_add_wanted_usb_io_dp(bus, Some(path.as_slice())),
                    None => usb_bus_add_wanted_usb_io_dp(bus, None),
                };
                match added {
                    Ok(_) => (
                        Action::ReportProgress(Progress::Detect),
                        BuildProtocolAt::Detected,
                    ),
                    Err(status) => (
                        Action::UninstallBus { controller },
                        BuildProtocolAt::Uninstalled { status },
                    ),
                }
            }
        },
        BuildProtocolAt::Detected => {
            if done {
                return Step::Call {
                    callee: Frame::RootHubInit(RootHubInit::new(root_id())),
                    next: Frame::BuildProtocol(
                        BuildProtocol { controller, agent, remaining, at: BuildProtocolAt::Up },
                    ),
                };
            }
            (Action::UninstallBus { controller }, BuildProtocolAt::Uninstalled { status })
        },
        BuildProtocolAt::Up => {
            if done {
                return Step::Done(Reply::Status(Status::Success));
            }
            (Action::UninstallBus { controller }, BuildProtocolAt::Uninstalled { status })
        },
        BuildProtocolAt::Uninstalled { status } => (
            Action::CloseHostController { controller, agent },
            BuildProtocolAt::HostClosed { status },
        ),
        BuildProtocolAt::HostClosed { status } => (
            Action::CloseDevicePath { controller, agent },
            BuildProtocolAt::PathClosed { status },
        ),
        BuildProtocolAt::PathClosed { status } => return Step::Done(Reply::Status(status)),
    };
    Step::Act {
        action,
        next: Frame::BuildProtocol(BuildProtocol { controller, agent, remaining, at }),
    }
}

/// Asks a bus that runs already to connect more devices.
#[derive(Debug)]
pub struct ConnectMore {
    /// What is to be connected; without a path everything is.
    pub remaining: Option<Vec<u8>>,
    pub asked: bool,
}

impl ConnectMore {
    /// How the operation goes on after `reply`.
    pub open spec fn goes_on(self, pre: UsbBus, reply: Reply, post: UsbBus, step: Step) -> bool {
        if self.asked {
            post == pre && step == Step::Done(Reply::Status(reply.as_status()))
        } else {
            &&& post == (UsbBus { wanted_usb_io_dp_list: post.wanted_usb_io_dp_list, ..pre })
            &&& match wanted_after(
                pre.wanted_usb_io_dp_list.paths(),
                match self.remaining {
                    Some(path) => Some(path@),
                    None => None,
                },
            ) {
                Some(paths) if pre.signature == USB_BUS_SIGNATURE => {
                    &&& post.wanted_usb_io_dp_list.paths() == paths
                    &&& step matches Step::Call { callee, next: Frame::ConnectMore(next) }
                    &&& RecursivelyConnect::is_at(callee, Seq::empty(), 0, RecursivelyConnectAt::Start)
                    &&& next.asked
                },
                _ => {
                    &&& post.wanted_usb_io_dp_list.paths() == pre.wanted_usb_io_dp_list.paths()
                    &&& step == Step::Done(Reply::Status(Status::InvalidParameter))
                },
            }
        }
    }
}

/// Takes one step of asking a bus to connect more devices.
pub fn connect_more(bus: &mut UsbBus, run: ConnectMore, reply: Reply) -> (step: Step)
    requires
        old(bus).wf(),
    ensures
        run.goes_on(*old(bus), reply, *final(bus), step),
        final(bus).wf(),
{
    if run.asked {
        return Step::Done(Reply::Status(reply.status()));
    }
    let added = match &run.remaining {
        Some(path) => usb_bus_add_wanted_usb_io_dp(bus, Some(path.as_slice())),
        None => usb_bus_add_wanted_usb_io_dp(bus, None),
    };
    match added {
        Ok(_) => Step::Call {
            callee: Frame::RecursivelyConnect(
                RecursivelyConnect { handles: Vec::new(), index: 0, at: RecursivelyConnectAt::Start },
            ),
            next: Frame::ConnectMore(ConnectMore { remaining: None, asked: true }),
        },
        Err(status) => Step::Done(Reply::Status(status)),
    }
}

/// Takes the devices of some children away from a bus.
#[derive(Debug)]
pub struct StopChildren {
    pub children: Vec<usize>,
    pub index: usize,
    /// The outcome of the last removal.
    pub result: Status,
    /// The task priority level before.
    pub level: usize,
    pub at: StopChildrenAt,
}

#[derive(Clone, Copy, Debug, PartialEq, Eq, Structural)]
pub enum StopChildrenAt {
    Start,
    Raised,
    Found,
    Removed,
    Lowered,
}

impl StopChildren {
    pub fn new(children: Vec<usize>) -> (r: StopChildren)
        ensures
            r == (StopChildren {
                children,
                index: 0,
                result: Status::Success,
                level: 0,
                at: StopChildrenAt::Start,
            }),
    {
        StopChildren { children, index: 0, result: Status::Success, level: 0, at: StopChildrenAt::Start }
    }

    /// Turns to the child at an index; behind the last one the task priority goes back
    /// to what it was.
    pub open spec fn turns_to(self, index: int, result: Status, level: usize, step: Step) -> bool {
        let children = self.children@;
        &&& step matches Step::Act { action, next: Frame::StopChildren(next) }
        &&& next.result == result
        &&& next.level == level
        &&& if index < children.len() {
            &&& action == (Action::FindInterface { handle: children[index] })
            &&& next.children@ == children
            &&& next.index == index
            &&& next.at == StopChildrenAt::Found
        } else {
            &&& action == (Action::RestoreTpl { level })
            &&& next.at == StopChildrenAt::Lowered
        }
    }

    /// How the operation goes on after `reply`. It works at the callback level. A child
    /// without USB I/O services is passed over.
    pub open spec fn goes_on(self, reply: Reply, step: Step) -> bool {
        let status = reply.as_status();
        let after = self.index + 1;
        match self.at {
            StopChildrenAt::Start => step == (Step::Act {
                action: Action::RaiseTpl { to: Tpl::Callback },
                next: Frame::StopChildren(StopChildren { at: StopChildrenAt::Raised, ..self }),
            }),
            StopChildrenAt::Raised => self.turns_to(
                self.index as int,
                self.result,
                reply.as_level(),
                step,
            ),
            StopChildrenAt::Found => if status != Status::Success {
                self.turns_to(after, self.result, self.level, step)
            } else {
                match reply.as_found() {
                    Some(interface) => step == (Step::Call {
                        callee: Frame::RemoveDevice(RemoveDevice::start(interface.device)),
                        next: Frame::StopChildren(StopChildren { at: StopChildrenAt::Removed, ..self }),
                    }),
                    None => self.turns_to(after, Status::InvalidParameter, self.level, step),
                }
            },
            StopChildrenAt::Removed => self.turns_to(after, status, self.level, step),
            StopChildrenAt::Lowered => step == Step::Done(Reply::Status(self.result)),
        }
    }

    fn turn_to(self, index: usize, result: Status, level: usize) -> (step: Step)
        ensures
            self.turns_to(index as int, result, level, step),
    {
        if index < self.children.len() {
            let handle: usize = self.children[index];
            Step::Act {
                action: Action::FindInterface { handle },
                next: Frame::StopChildren(
                    StopChildren { index, result, level, at: StopChildrenAt::Found, ..self },
                ),
            }
        } else {
            Step::Act {
                action: Action::RestoreTpl { level },
                next: Frame::StopChildren(
                    StopChildren { result, level, at: StopChildrenAt::Lowered, ..self },
                ),
            }
        }
    }
}

/// Takes one step of taking the devices of some children away.
pub fn stop_children(run: StopChildren, reply: Reply) -> (step: Step)
    ensures
        run.goes_on(reply, step),
{
    let status = reply.status();
    let mut result = run.result;
    let (index, level): (usize, usize) = (run.index, run.level);
    match run.at {
        StopChildrenAt::Start => {
            return Step::Act {
                action: Action::RaiseTpl { to: Tpl::Callback },
                next: Frame::StopChildren(StopChildren { at: StopChildrenAt::Raised, ..run }),
            };
        },
        StopChildrenAt::Raised => return run.turn_to(index, result, reply.level()),
        StopChildrenAt::Found => {
            if status.is_success() {
                match reply.found() {
                    Some(interface) => {
                        return Step::Call {
                            callee: Frame::RemoveDevice(RemoveDevice::new(interface.device)),
                            next: Frame::StopChildren(
                                StopChildren { at: StopChildrenAt::Removed, ..run },
                            ),
                        };
                    },
                    None => {
                        result = Status::InvalidParameter;
                    },
                }
            }
        },
        StopChildrenAt::Removed => {
            result = status;
        },
        StopChildrenAt::Lowered => return Step::Done(Reply::Status(result)),
    }
    if index >= run.children.len() {
        return run.turn_to(index, result, level);
    }
    run.turn_to(index + 1, result, level)
}

/// Stops a bus: removes all its devices, lets the root hub go and gives the
/// controller back.
#[derive(Clone, Copy, Debug)]
pub struct StopBus {
    pub controller: usize,
    pub agent: usize,
    pub device: u8,
    /// The last error of a removal.
    pub error: Status,
    /// The task priority level before.
    pub level: usize,
    pub at: StopBusAt,
}

#[derive(Clone, Copy, Debug)]
pub enum StopBusAt {
    Start,
    Raised,
    Removed,
    Lowered,
    Released,
    Uninstalled,
    HostClosed,
    PathClosed,
}

/// A slot holds a device.
pub open spec fn is_taken() -> spec_fn(Option<UsbDevice>) -> bool {
    |slot: Option<UsbDevice>| slot is Some
}

impl StopBus {
    pub fn new(controller: usize, agent: usize) -> (r: StopBus)
        ensures
            r == (StopBus {
                controller,
                agent,
                device: 0,
                error: Status::Success,
                level: 0,
                at: StopBusAt::Start,
            }),
    {
        StopBus { controller, agent, device: 0, error: Status::Success, level: 0, at: StopBusAt::Start }
    }

    pub open spec fn to(self, at: StopBusAt) -> Frame {
        Frame::StopBus(StopBus { at, ..self })
    }

    /// Removes the next device from an address on; behind the last one the task
    /// priority goes back to what it was.
    pub open spec fn removes(self, bus: UsbBus, from: int, error: Status, level: usize) -> Step {
        match first_between(bus.devices@, from, bus.usable_slots(), is_taken()) {
            Some(device) => Step::Call {
                callee: Frame::RemoveDevice(RemoveDevice::start(device as u8)),
                next: Frame::StopBus(
                    StopBus { device: device as u8, error, level, at: StopBusAt::Removed, ..self },
                ),
            },
            None => Step::Act {
                action: Action::RestoreTpl { level },
                next: Frame::StopBus(StopBus { error, level, at: StopBusAt::Lowered, ..self }),
            },
        }
    }

    /// How the operation goes on after `reply`. The devices are removed at the callback
    /// level. The root hub goes last, and only when all devices have gone.
    pub open spec fn goes_on(self, pre: UsbBus, reply: Reply, post: UsbBus, step: Step) -> bool {
        let status = reply.as_status();
        let failed = Step::Done(Reply::Status(status));
        let (controller, agent) = (self.controller, self.agent);
        match self.at {
            StopBusAt::Start => post == pre && step == (if pre.signature != USB_BUS_SIGNATURE
                || pre.interface(root_interface_id()) is None {
                Step::Done(Reply::Status(Status::InvalidParameter))
            } else {
                Step::Act {
                    action: Action::RaiseTpl { to: Tpl::Callback },
                    next: self.to(StopBusAt::Raised),
                }
            }),
            StopBusAt::Raised => post == pre && step == self.removes(
                pre,
                1,
                Status::Success,
                reply.as_level(),
            ),
            StopBusAt::Removed => post == pre && step == self.removes(
                pre,
                self.device + 1,
                if status == Status::Success {
                    self.error
                } else {
                    status
                },
                self.level,
            ),
            StopBusAt::Lowered => post == pre && step == (if self.error != Status::Success {
                Step::Done(Reply::Status(self.error))
            } else {
                Step::Call {
                    callee: Frame::RootHubRelease(RootHubRelease::start(root_interface_id())),
                    next: self.to(StopBusAt::Released),
                }
            }),
            StopBusAt::Released => if status != Status::Success {
                post == pre && step == failed
            } else {
                &&& post == (UsbBus { wanted_usb_io_dp_list: post.wanted_usb_io_dp_list, ..pre })
                &&& post.wanted_usb_io_dp_list.paths() == Seq::<Seq<u8>>::empty()
                &&& step == (Step::Act {
                    action: Action::UninstallBus { controller },
                    next: self.to(StopBusAt::Uninstalled),
                })
            },
            StopBusAt::Uninstalled => post == pre && step == (if status != Status::Success {
                failed
            } else {
                Step::Act {
                    action: Action::CloseHostController { controller, agent },
                    next: self.to(StopBusAt::HostClosed),
                }
            }),
            StopBusAt::HostClosed => post == pre && step == (if status != Status::Success {
                failed
            } else {
                Step::Act {
                    action: Action::CloseDevicePath { controller, agent },
                    next: self.to(StopBusAt::PathClosed),
                }
            }),
            StopBusAt::PathClosed => post == pre && step == Step::Done(Reply::Status(Status::Success)),
        }
    }

    fn remove(self, bus: &UsbBus, from: usize, error: Status, level: usize) -> (step: Step)
        requires
            bus.wf(),
        ensures
            step == self.removes(*bus, from as int, error, level),
    {
        let count: usize = bus.slot_count();
        let ghost p = is_taken();
        let mut index: usize = from;
        while index < count
            invariant
                bus.wf(),
                count == bus.usable_slots(),
                p == is_taken(),
                first_between(bus.devices@, from as int, count as int, p) == first_between(
                    bus.devices@,
                    index as int,
                    count as int,
                    p,
                ),
            decreases count - index,
        {
            if bus.devices[index].is_some() {
                return Step::Call {
                    callee: Frame::RemoveDevice(RemoveDevice::new(index as u8)),
                    next: Frame::StopBus(
                        StopBus { device: index as u8, error, level, at: StopBusAt::Removed, ..self },
                    ),
                };
            }
            index = index + 1;
        }
        Step::Act {
            action: Action::RestoreTpl { level },
            next: Frame::StopBus(StopBus { error, level, at: StopBusAt::Lowered, ..self }),
        }
    }
}

/// Takes one step of stopping a bus.
pub fn stop_bus(bus: &mut UsbBus, run: StopBus, reply: Reply) -> (step: Step)
    requires
        old(bus).wf(),
    ensures
        run.goes_on(*old(bus), reply, *final(bus), step),
        final(bus).wf(),
{
    let status = reply.status();
    let done = status.is_success();
    let (controller, agent): (usize, usize) = (run.controller, run.agent);
    match run.at {
        StopBusAt::Start => {
            if bus.signature != USB_BUS_SIGNATURE || bus.get_interface(root_id()).is_none() {
                return Step::Done(Reply::Status(Status::InvalidParameter));
            }
            Step::Act {
                action: Action::RaiseTpl { to: Tpl::Callback },
                next: Frame::StopBus(StopBus { at: StopBusAt::Raised, ..run }),
            }
        },
        StopBusAt::Raised => run.remove(bus, 1, Status::Success, reply.level()),
        StopBusAt::Removed => {
            let error = if done {
                run.error
            } else {
                status
            };
            run.remove(bus, run.device as usize + 1, error, run.level)
        },
        StopBusAt::Lowered => {
            if !run.error.is_success() {
                return Step::Done(Reply::Status(run.error));
            }
            Step::Call {
                callee: Frame::RootHubRelease(RootHubRelease::new(root_id())),
                next: Frame::StopBus(StopBus { at: StopBusAt::Released, ..run }),
            }
        },
        StopBusAt::Released => {
            if !done {
                return Step::Done(Reply::Status(status));
            }
            let _ = usb_bus_free_usb_dp_list(Some(&mut bus.wanted_usb_io_dp_list));
            Step::Act {
                action: Action::UninstallBus { controller },
                next: Frame::StopBus(StopBus { at: StopBusAt::Uninstalled, ..run }),
            }
        },
        StopBusAt::Uninstalled => {
            if !done {
                return Step::Done(Reply::Status(status));
            }
            Step::Act {
                action: Action::CloseHostController { controller, agent },
                next: Frame::StopBus(StopBus { at: StopBusAt::HostClosed, ..run }),
            }
        },
        StopBusAt::HostClosed => {
            if !done {
                return Step::Done(Reply::Status(status));
            }
            Step::Act {
                action: Action::CloseDevicePath { controller, agent },
                next: Frame::StopBus(StopBus { at: StopBusAt::PathClosed, ..run }),
            }
        },
        StopBusAt::PathClosed => Step::Done(Reply::Status(Status::Success)),
    }
}

/// Returns the operation that stops the driver on a controller: the devices of the
/// given children are taken away, or without any child the whole bus is stopped.
pub fn stop(controller: usize, agent: usize, children: Vec<usize>) -> (r: Frame)
    ensures
        r == (if children@.len() == 0 {
            Frame::StopBus(
                StopBus {
                    controller,
                    agent,
                    device: 0,
                    error: Status::Success,
                    level: 0,
                    at: StopBusAt::Start,
                },
            )
        } else {
            Frame::StopChildren(
                StopChildren {
                    children,
                    index: 0,
                    result: Status::Success,
                    level: 0,
                    at: StopChildrenAt::Start,
                },
            )
        }),
{
    if children.len() == 0 {
        Frame::StopBus(StopBus::new(controller, agent))
    } else {
        Frame::StopChildren(StopChildren::new(children))
    }
}

/// While devices are removed, a stop either goes on with the next device or brings the
/// task priority back to what it was: it never ends at the raised level.
pub proof fn a_stop_brings_the_priority_back(
    run: StopBus,
    pre: UsbBus,
    reply: Reply,
    post: UsbBus,
    step: Step,
)
    requires
        run.goes_on(pre, reply, post, step),
        run.at is Raised || run.at is Removed,
    ensures
        ({
            let level = if run.at is Raised {
                reply.as_level()
            } else {
                run.level
            };
            match step {
                Step::Call { next: Frame::StopBus(next), .. } => next.level == level && next.at is Removed,
                Step::Act { action, .. } => action == (Action::RestoreTpl { level }),
                _ => false,
            }
        }),
{
}

/// A bus that cannot be built is taken down again: it is taken off the controller,
/// then the host controller and the device path are given back, and the first error
/// is the outcome.
pub proof fn a_failed_bus_gives_everything_back(
    run: BuildProtocol,
    bus: UsbBus,
    status: Status,
    first: Step,
    second: Step,
    third: Step,
    a: Reply,
    b: Reply,
    c: Reply,
)
    requires
        run.uninstalls(first, status),
        first matches Step::Act { next: Frame::BuildProtocol(next), .. } && next.goes_on(
            bus,
            a,
            bus,
            second,
        ),
        second matches Step::Act { next: Frame::BuildProtocol(next), .. } && next.goes_on(
            bus,
            b,
            bus,
            third,
        ),
    ensures
        first matches Step::Act { action, .. } && action == (Action::UninstallBus {
            controller: run.controller,
        }),
        second matches Step::Act { action, .. } && action == (Action::CloseHostController {
            controller: run.controller,
            agent: run.agent,
        }),
        third matches Step::Act { action, next: Frame::BuildProtocol(last) } && action == (
        Action::CloseDevicePath { controller: run.controller, agent: run.agent }) && forall|fourth: Step| #[trigger]
            last.goes_on(bus, c, bus, fourth) ==> fourth == Step::Done(Reply::Status(status)),
{
}

} // verus!
