use usb_bus::driver::{
    new_usb_bus, start, start_follow_up, stop, supported, BuildProtocol, BuildProtocolAt, ConnectMore, FollowUp,
    PathNode, StartDriver, StartDriverAt, StartStep, StopBus, StopChildren, Supported, SupportedAt,
    SupportedStep,
};
use usb_bus::device_path::EfiDevicePathProtocol;
use usb_bus::hub_life::{HubAckHubStatus, OnHubInterrupt, OnHubInterruptAt};
use usb_bus::hub_port::{reset_port, ClearPortChange, HubGetPortStatus};
use usb_bus::interface_life::ConnectDriver;
use usb_bus::status::Status;
use usb_bus::task::{Action, AsyncCallback, Frame, Progress, Reply, Request, Task, Tpl};
use usb_bus::usb_2_host_controller::{UsbControlTransfer, UsbPortFeature, UsbPortStatus};
use usb_bus::usb_bus_defs::{InterfaceId, UsbBus, UsbDevice, UsbHubApi};
use usb_bus::usb_config::{RemoveConfig, SelectConfig};
use usb_bus::usb_control::{
    BuildDescTable, GetMaxPacketSize0, GetOneConfig, GetOneString, UpdateDescriptors,
};
use usb_bus::usb_enumer::{
    usb_create_device, usb_find_child, EnumerateNewDevice, EnumeratePort, HubEnumeration, RemoveDevice,
    RootHubEnumeration,
};
use usb_bus::usb_io_call::{IoCall, IoOperation};
use usb_bus::usb_io_impl::{
    IoControlTransfer, IoControlTransferAt, IoEndpointTransfer, IoEndpointTransferAt, IoGetStringDescriptor,
    IoPortReset, IoPortResetAt,
};
use usb_bus::usb_utility::usb_bus_add_wanted_usb_io_dp;
use usb_bus::usb_wanted::IsWanted;
use usb_bus::usb_2_host_controller::UsbDeviceRequest;

const ROOT: InterfaceId = InterfaceId { device: 0, index: 0 };
const FIRST: InterfaceId = InterfaceId { device: 1, index: 0 };
const BUS_PATH: [u8; 10] = [0x01, 0x01, 0x06, 0x00, 0x00, 0x14, 0x7f, 0xff, 0x04, 0x00];

/// A host controller, a device behind it, and the firmware around it.
struct World {
    log: Vec<String>,
    device: Vec<u8>,
    config: Vec<u8>,
    serial: Vec<u16>,
    hub_descriptor: Vec<u8>,
    hub_status: Vec<u8>,
    port: UsbPortStatus,
    port_reads: usize,
    reset_done_after: usize,
    failing: Vec<&'static str>,
    level: usize,
    handles: Vec<usize>,
    paths: Vec<(usize, Vec<u8>)>,
    interfaces: Vec<(usize, InterfaceId)>,
    next_handle: usize,
    revision: u8,
}

fn device_descriptor(class: u8, configs: u8) -> Vec<u8> {
    vec![
        18, 1, 0x00, 0x02, class, 0, 0, 64, 0x34, 0x12, 0x78, 0x56, 0x00, 0x01, 1, 2, 3, configs,
    ]
}

fn keyboard_config() -> Vec<u8> {
    vec![
        9, 2, 25, 0, 1, 1, 0, 0x80, 50, // configuration
        9, 4, 0, 0, 1, 3, 1, 1, 0, // interface
        7, 5, 0x81, 3, 8, 0, 10, // endpoint
    ]
}

fn hub_config() -> Vec<u8> {
    vec![
        9, 2, 25, 0, 1, 1, 0, 0x80, 50, // configuration
        9, 4, 0, 0, 1, 9, 0, 0, 0, // interface
        7, 5, 0x81, 3, 1, 0, 12, // endpoint
    ]
}

fn text(s: &str) -> Vec<u16> {
    s.bytes().map(|b| b as u16).collect()
}

impl World {
    fn new() -> World {
        World {
            log: Vec::new(),
            device: device_descriptor(0, 1),
            config: keyboard_config(),
            serial: text("SN0042"),
            hub_descriptor: vec![9, 0x29, 2, 0, 0, 50, 0, 0, 0],
            hub_status: vec![0, 0, 0, 0],
            port: UsbPortStatus { port_status: 0x0003, port_change_status: 0x0001 },
            port_reads: 0,
            reset_done_after: 0,
            failing: Vec::new(),
            level: 8,
            handles: Vec::new(),
            paths: Vec::new(),
            interfaces: Vec::new(),
            next_handle: 100,
            revision: 2,
        }
    }

    fn keyboard() -> World {
        World::new()
    }

    fn hub() -> World {
        let mut world = World::new();
        world.device = device_descriptor(9, 1);
        world.config = hub_config();
        world
    }

    fn status(&self, name: &'static str) -> Status {
        if self.failing.contains(&name) {
            Status::DeviceError
        } else {
            Status::Success
        }
    }

    fn transfer(&mut self, t: UsbControlTransfer) -> Reply {
        self.transfer_onto(t, vec![0u8; t.length])
    }

    fn transfer_onto(&mut self, t: UsbControlTransfer, mut data: Vec<u8>) -> Reply {
        let r = t.request;
        let source: Vec<u8> = match (r.request_type, r.request, r.value / 256) {
            (0x80, 6, 1) => self.device.clone(),
            (0x80, 6, 2) => self.config.clone(),
            (0x80, 6, 3) => {
                let units: Vec<u16> = if r.value % 256 == 0 { vec![0x0409, 0x0407] } else { self.serial.clone() };
                let mut bytes = vec![(2 + 2 * units.len()) as u8, 3];
                for unit in units {
                    bytes.push((unit % 256) as u8);
                    bytes.push((unit / 256) as u8);
                }
                bytes
            }
            (0xa0, 6, _) => self.hub_descriptor.clone(),
            (0xa0, 0, _) => self.hub_status.clone(),
            (0xa3, 0, _) => {
                self.port_reads += 1;
                let mut state = self.port;
                if self.port_reads <= self.reset_done_after {
                    state.port_change_status &= !0x10;
                }
                vec![
                    (state.port_status % 256) as u8,
                    (state.port_status / 256) as u8,
                    (state.port_change_status % 256) as u8,
                    (state.port_change_status / 256) as u8,
                ]
            }
            _ => Vec::new(),
        };
        let n = source.len().min(data.len());
        data[..n].copy_from_slice(&source[..n]);
        let name = match (r.request_type, r.request) {
            (0x00, 5) => "set_address",
            (0x00, 9) => "set_config",
            (0x80, 6) => match r.value / 256 {
                1 => "device_descriptor",
                2 => "config_descriptor",
                _ => "string",
            },
            (0xa0, 6) => "hub_descriptor",
            (0xa3, 0) => "port_status",
            (0x23, 3) => "set_port_feature",
            (0x23, 1) => "clear_port_feature",
            (0x23, 8) => "clear_tt",
            _ => "other",
        };
        self.log.push(format!("{} a{} v{} i{} l{}", name, t.address, r.value, r.index, r.length));
        Reply::Transfer { status: self.status(name), length: n, data, usb_result: 0, toggle: 0 }
    }

    fn perform(&mut self, action: Action) -> Reply {
        match action {
            Action::ControlTransfer(t) | Action::CallerControlTransfer(t) => self.transfer(t),
            Action::ControlTransferOnto { transfer, buffer } => self.transfer_onto(transfer, buffer.head()),
            Action::AsyncInterruptTransfer(t) => {
                self.log.push(format!("async e{} new {} i{} l{}", t.endpoint, t.is_new_transfer, t.polling_interval, t.length));
                assert!(t.is_new_transfer == matches!(t.callback, AsyncCallback::Hub(_)));
                Reply::Transfer { status: self.status("async"), length: 0, data: Vec::new(), usb_result: 0, toggle: 1 }
            }
            Action::GetCapability => Reply::Capability { status: self.status("capability"), max_speed: 2, num_ports: 1 },
            Action::GetRootHubPortStatus { port } => {
                self.port_reads += 1;
                self.log.push(format!("root status {}", port));
                let mut state = self.port;
                if self.port_reads <= self.reset_done_after {
                    state.port_status |= 0x10;
                }
                Reply::Port { status: self.status("root_status"), state }
            }
            Action::SetRootHubPortFeature { port, feature } => {
                self.log.push(format!("root set {} {}", port, feature.code()));
                Reply::Status(self.status("root_set"))
            }
            Action::ClearRootHubPortFeature { port, feature } => {
                self.log.push(format!("root clear {} {}", port, feature.code()));
                Reply::Status(self.status("root_clear"))
            }
            Action::Stall { micros } => {
                self.log.push(format!("stall {}", micros));
                Reply::Nothing
            }
            Action::WaitForPoll => {
                self.log.push(format!("wait"));
                Reply::Nothing
            }
            Action::InstallDevicePath { path } => {
                self.next_handle += 1;
                self.log.push(format!("install path {}", self.next_handle));
                self.paths.push((self.next_handle, path));
                Reply::Handle { status: self.status("install_path"), handle: self.next_handle }
            }
            Action::InstallUsbIo { handle, interface } => {
                self.log.push(format!("install io {}", handle));
                self.interfaces.push((handle, interface));
                Reply::Status(self.status("install_io"))
            }
            Action::UninstallUsbIo { handle } => {
                self.log.push(format!("uninstall io {}", handle));
                Reply::Status(self.status("uninstall_io"))
            }
            Action::UninstallDevicePath { handle } => {
                self.log.push(format!("uninstall path {}", handle));
                Reply::Status(self.status("uninstall_path"))
            }
            Action::OpenHostProtocol { child, .. } => {
                self.log.push(format!("open host {}", child));
                Reply::Status(self.status("open_host"))
            }
            Action::CloseHostProtocol { child, .. } => {
                self.log.push(format!("close host {}", child));
                Reply::Status(self.status("close_host"))
            }
            Action::GetCurrentTpl => Reply::Level(self.level),
            Action::RestoreTpl { level } => {
                self.log.push(format!("restore {}", level));
                Reply::Nothing
            }
            Action::RaiseTpl { to } => {
                self.log.push(format!("raise {}", match to { Tpl::Callback => 8, Tpl::Notify => 16, Tpl::HighLevel => 31 }));
                Reply::Level(self.level)
            }
            Action::ConnectController { handle } => {
                self.log.push(format!("connect {}", handle));
                Reply::Status(self.status("connect"))
            }
            Action::DisconnectController { handle } => {
                self.log.push(format!("disconnect {}", handle));
                Reply::Status(self.status("disconnect"))
            }
            Action::CreateHubEvent { .. } => Reply::Handle { status: self.status("hub_event"), handle: 55 },
            Action::CreateTimerEvent { .. } => Reply::Handle { status: self.status("timer_event"), handle: 66 },
            Action::SignalEvent { event } => {
                self.log.push(format!("signal {}", event));
                Reply::Status(self.status("signal"))
            }
            Action::CloseEvent { event } => {
                self.log.push(format!("close event {}", event));
                Reply::Status(self.status("close_event"))
            }
            Action::SetPeriodicTimer { event, nanos } => {
                self.log.push(format!("timer {} {}", event, nanos));
                Reply::Status(self.status("timer"))
            }
            Action::CancelTimer { event } => {
                self.log.push(format!("cancel {}", event));
                Reply::Status(self.status("cancel"))
            }
            Action::ReportProgress(progress) => {
                self.log.push(format!("report {:?}", progress));
                Reply::Status(match progress {
                    Progress::Hotplug => self.status("report_hotplug"),
                    Progress::Detect => self.status("report_detect"),
                    Progress::Init => self.status("report_init"),
                    Progress::Enable => self.status("report_enable"),
                })
            }
            Action::LocateUsbIo => {
                let status = if self.handles.is_empty() { Status::NotFound } else { self.status("locate") };
                Reply::Handles { status, handles: self.handles.clone() }
            }
            Action::ReadDevicePath { handle } => {
                Reply::Bytes(self.paths.iter().find(|p| p.0 == handle).map(|p| p.1.clone()))
            }
            Action::FindInterface { handle } => {
                let interface = self.interfaces.iter().find(|p| p.0 == handle).map(|p| p.1);
                let status = if handle == 1 { Status::NotFound } else { Status::Success };
                Reply::Found { status, interface }
            }
            Action::OpenDevicePath { .. } => {
                self.log.push(format!("open path"));
                Reply::Path { status: self.status("open_path"), path: BUS_PATH.to_vec() }
            }
            Action::CloseDevicePath { .. } => {
                self.log.push(format!("close path"));
                Reply::Status(self.status("close_path"))
            }
            Action::OpenHostController { .. } => {
                self.log.push(format!("open controller"));
                Reply::HostController { status: self.status("open_controller"), major_revision: self.revision }
            }
            Action::CloseHostController { .. } => {
                self.log.push(format!("close controller"));
                Reply::Status(self.status("close_controller"))
            }
            Action::InstallBus { .. } => {
                self.log.push(format!("install bus"));
                Reply::Status(self.status("install_bus"))
            }
            Action::UninstallBus { .. } => {
                self.log.push(format!("uninstall bus"));
                Reply::Status(self.status("uninstall_bus"))
            }
            other => panic!("unexpected {:?}", other),
        }
    }

    fn run(&mut self, bus: &mut UsbBus, frame: Frame) -> Reply {
        let mut task = Task::new(frame);
        let mut reply = Reply::Nothing;
        loop {
            match task.resume(bus, reply) {
                Request::Act(Action::WaitForPoll) => {
                    reply = self.perform(Action::WaitForPoll);
                    let mut round = Task::new(Frame::RootHubEnumeration(RootHubEnumeration::new(ROOT)));
                    let mut inner = Reply::Nothing;
                    loop {
                        match round.resume(bus, inner) {
                            Request::Act(action) => inner = self.perform(action),
                            Request::Continue(next) => inner = next,
                            Request::Finished(_) => break,
                        }
                    }
                }
                Request::Act(action) => reply = self.perform(action),
                Request::Continue(next) => reply = next,
                Request::Finished(answer) => return answer,
            }
        }
    }

    fn has(&self, line: &str) -> bool {
        self.log.iter().any(|l| l == line)
    }

    fn count(&self, start: &str) -> usize {
        self.log.iter().filter(|l| l.starts_with(start)).count()
    }
}

fn status_of(reply: Reply) -> Status {
    match reply {
        Reply::Status(status) => status,
        other => panic!("no status: {:?}", other),
    }
}

/// A bus with a root hub of one port.
fn bus() -> UsbBus {
    let mut bus = new_usb_bus(7, 9, BUS_PATH.to_vec(), 2);
    let root = bus.devices[0].as_mut().unwrap();
    root.speed = 2;
    let interface = root.interfaces[0].as_mut().unwrap();
    interface.is_hub = true;
    interface.hub_api = Some(UsbHubApi::RootHub);
    interface.num_of_port = 1;
    interface.max_speed = 2;
    bus
}

fn wanting_all() -> UsbBus {
    let mut bus = bus();
    usb_bus_add_wanted_usb_io_dp(&mut bus, None).unwrap();
    bus
}

fn device(bus: &UsbBus, address: usize) -> &UsbDevice {
    bus.devices[address].as_ref().unwrap()
}

/// A bus with a device that has been enumerated behind port 0.
fn enumerated(world: &mut World) -> UsbBus {
    let mut bus = wanting_all();
    let outcome = world.run(&mut bus, Frame::EnumeratePort(EnumeratePort::new(ROOT, 0)));
    assert_eq!(status_of(outcome), Status::Success);
    world.log.clear();
    bus
}

#[test]
fn enumerates_a_keyboard() {
    let mut world = World::keyboard();
    let mut bus = wanting_all();
    let outcome = world.run(&mut bus, Frame::EnumeratePort(EnumeratePort::new(ROOT, 0)));
    assert_eq!(status_of(outcome), Status::Success);
    let d = device(&bus, 1);
    assert_eq!(d.address, 1);
    assert_eq!(d.speed, 0);
    assert_eq!(d.max_packet0, 64);
    assert_eq!(d.parent_addr, 0);
    assert_eq!(d.parent_port, 0);
    assert_eq!(d.tier, 1);
    assert!(d.connected);
    assert_eq!(d.translator.translator_hub_address, 0);
    assert_eq!(d.translator.translator_port_number, 1);
    assert_eq!(d.total_lang_id, 2);
    assert_eq!(&d.lang_id[..3], &[0x0409, 0x0407, 0]);
    assert_eq!(d.num_of_interface, 1);
    assert_eq!(d.active_config.unwrap().configuration_value, 1);
    let i = d.interfaces[0].as_ref().unwrap();
    assert_eq!(i.handle, 101);
    assert!(i.is_managed);
    assert!(!i.is_hub);
    let expected = vec![
        0x01, 0x01, 0x06, 0x00, 0x00, 0x14, 0x03, 0x05, 0x06, 0x00, 0x00, 0x00, 0x7f, 0xff, 0x04, 0x00,
    ];
    assert_eq!(i.device_path, expected);
    assert_eq!(world.paths, vec![(101, expected)]);
    assert_eq!(world.interfaces, vec![(101, FIRST)]);
    assert_eq!(
        world.log,
        vec![
            "root status 0",
            "stall 100000",
            "root set 0 4",
            "stall 50000",
            "root clear 0 4",
            "stall 20000",
            "root status 0",
            "root status 0",
            "set_address a0 v1 i0 l0",
            "stall 2000",
            "device_descriptor a1 v256 i0 l8",
            "device_descriptor a1 v256 i0 l18",
            "config_descriptor a1 v512 i0 l8",
            "config_descriptor a1 v512 i0 l25",
            "string a1 v768 i0 l2",
            "string a1 v768 i0 l6",
            "set_config a1 v1 i0 l0",
            "install path 101",
            "install io 101",
            "open host 101",
            "restore 8",
            "connect 101",
            "report Hotplug",
            "root status 0",
            "root clear 0 16",
        ]
    );
}

#[test]
fn speeds_and_packet_sizes_follow_the_port() {
    for (port_status, speed) in [(0x0803, 3), (0x0403, 2), (0x0203, 1), (0x0003, 0)] {
        let mut world = World::keyboard();
        world.port.port_status = port_status;
        world.failing = vec!["set_address"];
        let mut bus = wanting_all();
        let run = EnumerateNewDevice::new(ROOT, 0, false);
        let outcome = world.run(&mut bus, Frame::EnumerateNewDevice(run));
        assert_eq!(status_of(outcome), Status::DeviceError);
        let d = device(&bus, 1);
        assert_eq!(d.speed, speed);
        assert_eq!(d.max_packet0, match speed { 3 => 512, 2 => 64, _ => 8 });
        let behind_root = speed < 2;
        assert_eq!(d.translator.translator_port_number, if behind_root { 1 } else { 0 });
    }
}

#[test]
fn enumeration_ends_at_the_first_error() {
    for (name, left) in [
        ("root_set", false),
        ("root_status", false),
        ("device_descriptor", true),
        ("config_descriptor", true),
        ("set_config", true),
        ("install_path", true),
    ] {
        let mut world = World::keyboard();
        world.failing = vec![name];
        let mut bus = wanting_all();
        let run = EnumerateNewDevice::new(ROOT, 0, true);
        let outcome = status_of(world.run(&mut bus, Frame::EnumerateNewDevice(run)));
        assert_eq!(outcome, if name == "install_path" { Status::OutOfResources } else { Status::DeviceError });
        assert_eq!(bus.devices[1].is_some(), left);
        assert!(!world.has("report Hotplug"));
    }
}

#[test]
fn a_failing_driver_or_report_does_not_stop_enumeration() {
    let mut world = World::keyboard();
    world.failing = vec!["connect", "report_hotplug"];
    let mut bus = wanting_all();
    let run = EnumerateNewDevice::new(ROOT, 0, true);
    assert_eq!(status_of(world.run(&mut bus, Frame::EnumerateNewDevice(run))), Status::Success);
    assert!(!device(&bus, 1).interfaces[0].as_ref().unwrap().is_managed);
}

#[test]
fn enumeration_needs_a_connected_device_and_a_free_address() {
    let mut world = World::keyboard();
    world.port.port_status = 0x0002;
    let mut bus = wanting_all();
    let run = EnumerateNewDevice::new(ROOT, 0, true);
    assert_eq!(status_of(world.run(&mut bus, Frame::EnumerateNewDevice(run))), Status::NotFound);
    world.port.port_status = 0x0003;
    bus.max_devices = 1;
    let run = EnumerateNewDevice::new(ROOT, 0, true);
    assert_eq!(status_of(world.run(&mut bus, Frame::EnumerateNewDevice(run))), Status::AccessDenied);
    bus.devices[0].as_mut().unwrap().interfaces[0].as_mut().unwrap().hub_api = None;
    let run = EnumerateNewDevice::new(ROOT, 0, true);
    assert_eq!(status_of(world.run(&mut bus, Frame::EnumerateNewDevice(run))), Status::InvalidParameter);
}

#[test]
fn new_devices_get_the_lowest_free_address() {
    let mut world = World::keyboard();
    let mut bus = wanting_all();
    for _ in 0..3 {
        let run = EnumerateNewDevice::new(ROOT, 0, false);
        assert_eq!(status_of(world.run(&mut bus, Frame::EnumerateNewDevice(run))), Status::Success);
    }
    bus.devices[2] = None;
    let run = EnumerateNewDevice::new(ROOT, 5, false);
    assert_eq!(status_of(world.run(&mut bus, Frame::EnumerateNewDevice(run))), Status::Success);
    assert_eq!(device(&bus, 2).parent_port, 5);
    assert_eq!(usb_find_child(&bus, 0, 0), Some(1));
    assert_eq!(usb_find_child(&bus, 0, 5), Some(2));
    assert_eq!(usb_find_child(&bus, 0, 6), None);
}

#[test]
fn a_port_without_changes_is_left_alone() {
    let mut world = World::keyboard();
    world.port.port_change_status = 0x0004;
    let mut bus = wanting_all();
    let outcome = world.run(&mut bus, Frame::EnumeratePort(EnumeratePort::new(ROOT, 0)));
    assert_eq!(status_of(outcome), Status::Success);
    assert_eq!(world.log, vec!["root status 0"]);
    assert!(bus.devices[1].is_none());
}

#[test]
fn an_overloaded_port_is_an_error() {
    let mut world = World::keyboard();
    world.port = UsbPortStatus { port_status: 0x000b, port_change_status: 0x0008 };
    let mut bus = wanting_all();
    let outcome = world.run(&mut bus, Frame::EnumeratePort(EnumeratePort::new(ROOT, 0)));
    assert_eq!(status_of(outcome), Status::DeviceError);
    assert_eq!(world.log, vec!["root status 0"]);
}

#[test]
fn a_port_that_was_reset_is_not_reset_again() {
    let mut world = World::keyboard();
    world.port.port_change_status = 0x0011;
    let mut bus = wanting_all();
    world.run(&mut bus, Frame::EnumeratePort(EnumeratePort::new(ROOT, 0)));
    assert!(!world.has("root set 0 4"));
    assert!(world.has("root clear 0 16"));
    assert!(world.has("root clear 0 20"));
    assert_eq!(world.count("root clear"), 2);
}

#[test]
fn a_device_that_left_is_removed() {
    let mut world = World::keyboard();
    let mut bus = enumerated(&mut world);
    world.port = UsbPortStatus { port_status: 0x0000, port_change_status: 0x0001 };
    let outcome = world.run(&mut bus, Frame::EnumeratePort(EnumeratePort::new(ROOT, 0)));
    assert_eq!(status_of(outcome), Status::Success);
    assert!(bus.devices[1].is_none());
    assert_eq!(
        world.log,
        vec![
            "root status 0",
            "restore 8",
            "disconnect 101",
            "close host 101",
            "uninstall io 101",
            "uninstall path 101",
            "root status 0",
            "root clear 0 16",
        ]
    );
}

#[test]
fn what_cannot_be_removed_is_marked_and_tried_again() {
    let mut world = World::keyboard();
    let mut bus = enumerated(&mut world);
    world.failing = vec!["disconnect"];
    let outcome = world.run(&mut bus, Frame::RemoveDevice(RemoveDevice::new(1)));
    assert_eq!(status_of(outcome), Status::DeviceError);
    assert!(device(&bus, 1).disconnect_fail);
    assert!(!device(&bus, 1).connected);
    assert!(device(&bus, 1).interfaces[0].is_some());
    world.failing.clear();
    world.port = UsbPortStatus { port_status: 0, port_change_status: 0 };
    world.run(&mut bus, Frame::RootHubEnumeration(RootHubEnumeration::new(ROOT)));
    assert!(bus.devices[1].is_none());
    assert_eq!(bus.devices[0].as_ref().unwrap().interfaces[0].as_ref().unwrap().poll_count, 1);
}

#[test]
fn an_interface_that_cannot_be_freed_is_connected_again() {
    for name in ["uninstall_io", "uninstall_path"] {
        let mut world = World::keyboard();
        let mut bus = enumerated(&mut world);
        world.failing = vec![name];
        let outcome = world.run(&mut bus, Frame::RemoveConfig(RemoveConfig::new(1)));
        assert_eq!(status_of(outcome), Status::DeviceError);
        let i = device(&bus, 1).interfaces[0].as_ref().unwrap();
        assert!(i.is_managed);
        assert!(!i.device_path.is_empty());
        assert!(world.has("open host 101"));
        assert_eq!(world.has("install io 101"), name == "uninstall_path");
        assert!(world.has("connect 101"));
        assert!(device(&bus, 1).active_config.is_none());
    }
}

#[test]
fn a_failed_interface_is_taken_back() {
    let mut world = World::keyboard();
    world.failing = vec!["open_host"];
    let mut bus = wanting_all();
    let run = EnumerateNewDevice::new(ROOT, 0, false);
    assert_eq!(status_of(world.run(&mut bus, Frame::EnumerateNewDevice(run))), Status::OutOfResources);
    let at = world.log.iter().position(|l| l == "open host 101").unwrap();
    assert_eq!(&world.log[at + 1..], &["uninstall io 101", "uninstall path 101"]);
    let mut world = World::keyboard();
    world.failing = vec!["install_io"];
    let mut bus = wanting_all();
    let run = EnumerateNewDevice::new(ROOT, 0, false);
    assert_eq!(status_of(world.run(&mut bus, Frame::EnumerateNewDevice(run))), Status::OutOfResources);
    assert_eq!(world.log.last().unwrap(), "uninstall path 101");
    assert_eq!(device(&bus, 1).num_of_interface, 0);
}

#[test]
fn children_go_before_their_hub() {
    let mut world = World::keyboard();
    let mut bus = enumerated(&mut world);
    let mut child = usb_create_device(device(&bus, 1), FIRST, 3);
    assert_eq!(child.tier, 2);
    assert_eq!(child.max_packet0, 8);
    child.address = 5;
    bus.devices[5] = Some(child);
    let outcome = world.run(&mut bus, Frame::RemoveDevice(RemoveDevice::new(1)));
    assert_eq!(status_of(outcome), Status::Success);
    assert!(bus.devices[5].is_none());
    assert!(bus.devices[1].is_none());
    assert_eq!(status_of(world.run(&mut bus, Frame::RemoveDevice(RemoveDevice::new(1)))), Status::InvalidParameter);
}

#[test]
fn the_priority_is_restored_after_connecting() {
    for (level, raised) in [(4, 0), (8, 0), (16, 1), (31, 1)] {
        let mut world = World::keyboard();
        let mut bus = enumerated(&mut world);
        world.level = level;
        world.run(&mut bus, Frame::ConnectDriver(ConnectDriver::new(FIRST)));
        assert_eq!(world.count("raise"), raised);
        if raised == 1 {
            assert!(world.has(&format!("raise {}", level)));
        }
    }
}

#[test]
fn a_hub_comes_up_and_reports_changes() {
    let mut world = World::hub();
    let mut bus = wanting_all();
    let outcome = world.run(&mut bus, Frame::EnumeratePort(EnumeratePort::new(ROOT, 0)));
    assert_eq!(status_of(outcome), Status::Success);
    let i = device(&bus, 1).interfaces[0].as_ref().unwrap();
    assert!(i.is_hub);
    assert_eq!(i.hub_api, Some(UsbHubApi::Hub));
    assert_eq!(i.num_of_port, 2);
    assert_eq!(i.hub_notify, 55);
    assert_eq!(i.hub_ep.unwrap().descriptor.endpoint_address, 0x81);
    assert!(world.has("set_port_feature a1 v8 i1 l0"));
    assert!(world.has("set_port_feature a1 v8 i2 l0"));
    assert!(world.has("stall 100000"));
    assert!(world.has("async e129 new true i64 l1"));
    world.log.clear();

    let run = OnHubInterrupt { interface: FIRST, result: 0, data: vec![0x04], at: OnHubInterruptAt::Start };
    assert_eq!(status_of(world.run(&mut bus, Frame::OnHubInterrupt(run))), Status::Success);
    assert_eq!(world.log, vec!["signal 55"]);
    assert_eq!(device(&bus, 1).interfaces[0].as_ref().unwrap().change_map, vec![0x04]);
    world.log.clear();

    world.device = device_descriptor(0, 1);
    world.config = keyboard_config();
    world.port = UsbPortStatus { port_status: 0x0003, port_change_status: 0x0011 };
    let outcome = world.run(&mut bus, Frame::HubEnumeration(HubEnumeration::new(FIRST)));
    assert!(matches!(outcome, Reply::Nothing));
    assert_eq!(device(&bus, 2).parent_addr, 1);
    assert_eq!(device(&bus, 2).parent_port, 1);
    assert_eq!(device(&bus, 2).tier, 2);
    assert!(device(&bus, 1).interfaces[0].as_ref().unwrap().change_map.is_empty());
    assert!(world.has("clear_port_feature a1 v16 i2 l0"));
    assert!(world.has("clear_port_feature a1 v20 i2 l0"));
    assert!(!world.has("port_status a1 v0 i1 l4"));

    world.log.clear();
    assert_eq!(status_of(world.run(&mut bus, Frame::RemoveDevice(RemoveDevice::new(1)))), Status::Success);
    assert!(bus.devices[1].is_none());
    assert!(bus.devices[2].is_none());
    assert!(world.has("async e129 new false i64 l0"));
    assert!(world.has("close event 55"));
}

#[test]
fn a_super_speed_hub_is_told_its_depth() {
    let mut world = World::hub();
    world.port.port_status = 0x0803;
    let mut bus = wanting_all();
    let outcome = world.run(&mut bus, Frame::EnumeratePort(EnumeratePort::new(ROOT, 0)));
    assert_eq!(status_of(outcome), Status::Success);
    assert!(world.has("other a1 v0 i0 l0"));
    assert!(world.has("set_port_feature a1 v27 i1 l0"));
    assert!(world.has("set_port_feature a1 v27 i2 l0"));
    assert!(world.has("hub_descriptor a1 v10752 i0 l2"));
}

#[test]
fn a_hub_that_cannot_be_polled_is_let_go() {
    let mut world = World::hub();
    world.failing = vec!["async"];
    let mut bus = wanting_all();
    world.run(&mut bus, Frame::EnumeratePort(EnumeratePort::new(ROOT, 0)));
    let i = device(&bus, 1).interfaces[0].as_ref().unwrap();
    assert!(!i.is_hub);
    assert_eq!(i.hub_notify, 0);
    assert_eq!(i.hub_api, None);
    assert!(world.has("close event 55"));
    let mut world = World::hub();
    world.hub_descriptor = vec![2, 0x29];
    let mut bus = wanting_all();
    world.run(&mut bus, Frame::EnumeratePort(EnumeratePort::new(ROOT, 0)));
    assert!(!device(&bus, 1).interfaces[0].as_ref().unwrap().is_hub);
    assert_eq!(world.count("async"), 0);
}

#[test]
fn a_failed_hub_interrupt_is_queued_anew() {
    let mut world = World::hub();
    let mut bus = wanting_all();
    world.run(&mut bus, Frame::EnumeratePort(EnumeratePort::new(ROOT, 0)));
    world.log.clear();
    let run = OnHubInterrupt { interface: FIRST, result: 0x02, data: Vec::new(), at: OnHubInterruptAt::Start };
    assert_eq!(status_of(world.run(&mut bus, Frame::OnHubInterrupt(run))), Status::Success);
    assert_eq!(
        world.log,
        vec![
            "raise 16",
            "other a1 v0 i129 l0",
            "restore 8",
            "raise 16",
            "async e129 new false i0 l0",
            "restore 8",
            "raise 16",
            "async e129 new true i64 l1",
            "restore 8"
        ]
    );
    world.log.clear();
    let run = OnHubInterrupt { interface: FIRST, result: 0x40, data: Vec::new(), at: OnHubInterruptAt::Start };
    world.run(&mut bus, Frame::OnHubInterrupt(run));
    assert_eq!(
        world.log,
        vec![
            "raise 16",
            "async e129 new false i0 l0",
            "restore 8",
            "raise 16",
            "async e129 new true i64 l1",
            "restore 8"
        ]
    );
    let run = OnHubInterrupt { interface: ROOT, result: 0, data: vec![2], at: OnHubInterruptAt::Start };
    assert_eq!(status_of(world.run(&mut bus, Frame::OnHubInterrupt(run))), Status::DeviceError);
}

#[test]
fn a_port_reset_ends_when_the_hub_says_so() {
    let mut world = World::hub();
    let mut bus = wanting_all();
    world.run(&mut bus, Frame::EnumeratePort(EnumeratePort::new(ROOT, 0)));
    world.log.clear();
    world.port.port_change_status = 0x10;
    world.reset_done_after = world.port_reads + 3;
    let outcome = world.run(&mut bus, reset_port(UsbHubApi::Hub, FIRST, 1));
    assert_eq!(status_of(outcome), Status::Success);
    assert_eq!(world.count("port_status"), 4);
    assert_eq!(world.count("stall 100"), 3 + world.count("stall 10000"));
    assert_eq!(world.log[0], "set_port_feature a1 v4 i2 l0");
    assert_eq!(world.log[1], "stall 20000");
    assert_eq!(world.log.last().unwrap(), "stall 10000");
}

#[test]
fn a_port_reset_is_given_up_in_the_end() {
    let mut world = World::hub();
    let mut bus = wanting_all();
    world.run(&mut bus, Frame::EnumeratePort(EnumeratePort::new(ROOT, 0)));
    world.log.clear();
    world.port.port_change_status = 0;
    let outcome = world.run(&mut bus, reset_port(UsbHubApi::Hub, FIRST, 1));
    assert_eq!(status_of(outcome), Status::Timeout);
    assert_eq!(world.count("port_status"), 5000);
    world.port.port_status = 0x13;
    world.log.clear();
    let outcome = world.run(&mut bus, reset_port(UsbHubApi::RootHub, ROOT, 0));
    assert_eq!(status_of(outcome), Status::Timeout);
    assert_eq!(world.count("root status"), 5000);
    world.failing = vec!["port_status"];
    let outcome = world.run(&mut bus, reset_port(UsbHubApi::Hub, FIRST, 1));
    assert_eq!(status_of(outcome), Status::DeviceError);
}

#[test]
fn a_root_port_that_stays_off_is_given_away_or_enabled() {
    let mut world = World::keyboard();
    world.port.port_status = 0x0001;
    let mut bus = bus();
    let outcome = world.run(&mut bus, reset_port(UsbHubApi::RootHub, ROOT, 0));
    assert_eq!(status_of(outcome), Status::NotFound);
    assert_eq!(world.log.last().unwrap(), "root set 0 13");
    bus.devices[0].as_mut().unwrap().interfaces[0].as_mut().unwrap().max_speed = 3;
    world.log.clear();
    let outcome = world.run(&mut bus, reset_port(UsbHubApi::RootHub, ROOT, 0));
    assert_eq!(status_of(outcome), Status::Success);
    assert!(world.has("root set 0 1"));
    assert_eq!(world.log.last().unwrap(), "stall 20000");
    let gone = InterfaceId { device: 9, index: 0 };
    assert_eq!(status_of(world.run(&mut bus, reset_port(UsbHubApi::RootHub, gone, 0))), Status::InvalidParameter);
    assert_eq!(status_of(world.run(&mut bus, reset_port(UsbHubApi::Hub, gone, 0))), Status::InvalidParameter);
}

#[test]
fn all_reported_changes_are_cleared() {
    let mut world = World::keyboard();
    world.port.port_change_status = 0x001f;
    let mut bus = bus();
    world.run(&mut bus, ClearPortChange::new(ROOT, 3).frame(UsbHubApi::RootHub));
    assert_eq!(
        world.log,
        vec!["root status 3", "root clear 3 16", "root clear 3 17", "root clear 3 18", "root clear 3 19", "root clear 3 20"]
    );
    world.log.clear();
    world.port.port_change_status = 0;
    world.run(&mut bus, ClearPortChange::new(ROOT, 3).frame(UsbHubApi::RootHub));
    assert_eq!(world.log, vec!["root status 3"]);
    assert_eq!(UsbPortFeature::OverCurrentChange.code(), 19);
    world.log.clear();
    world.port.port_change_status = 0x0060;
    world.run(&mut bus, ClearPortChange::new(ROOT, 3).frame(UsbHubApi::RootHub));
    assert_eq!(world.log, vec!["root status 3"]);
}

#[test]
fn all_changes_of_a_hub_port_are_cleared() {
    let mut world = World::hub();
    let mut bus = enumerated(&mut world);
    world.log.clear();
    world.port.port_change_status = 0x0064;
    world.run(&mut bus, ClearPortChange::new(FIRST, 1).frame(UsbHubApi::Hub));
    assert_eq!(
        world.log,
        vec![
            "port_status a1 v0 i2 l4",
            "clear_port_feature a1 v18 i2 l0",
            "clear_port_feature a1 v29 i2 l0",
            "clear_port_feature a1 v25 i2 l0"
        ]
    );
}

#[test]
fn reading_a_hub_port_acknowledges_its_changes() {
    let mut world = World::hub();
    let mut bus = enumerated(&mut world);
    let read = || Frame::HubGetPortStatus(HubGetPortStatus::new(FIRST, 0));
    world.log.clear();
    world.port = UsbPortStatus { port_status: 0x0103, port_change_status: 0x0004 };
    let port = world.port;
    world.failing = vec!["clear_port_feature"];
    let outcome = world.run(&mut bus, read());
    assert!(matches!(outcome, Reply::Port { status: Status::Success, state } if state == port));
    assert_eq!(world.log, vec!["port_status a1 v0 i1 l4", "clear_port_feature a1 v18 i1 l0"]);
    world.log.clear();
    world.port.port_change_status = 0x007f;
    world.run(&mut bus, read());
    let cleared: Vec<&str> = world.log[1..].iter().map(|l| l.as_str()).collect();
    let expected: Vec<String> =
        [16, 17, 18, 19, 20, 29, 25].iter().map(|v| format!("clear_port_feature a1 v{} i1 l0", v)).collect();
    assert_eq!(cleared, expected);
    world.log.clear();
    world.failing = vec!["port_status"];
    let outcome = world.run(&mut bus, read());
    assert!(matches!(outcome, Reply::Port { status: Status::DeviceError, .. }));
    assert_eq!(world.log.len(), 1);
    let gone = InterfaceId { device: 9, index: 0 };
    let outcome = world.run(&mut bus, Frame::HubGetPortStatus(HubGetPortStatus::new(gone, 0)));
    assert_eq!(status_of(outcome), Status::InvalidParameter);
}

#[test]
fn the_changes_of_a_hub_are_acknowledged() {
    let mut world = World::hub();
    let mut bus = enumerated(&mut world);
    for (status, cleared) in [
        (vec![1, 0, 0, 0], vec![]),
        (vec![0, 0, 1, 0], vec!["other a1 v0 i0 l0"]),
        (vec![0, 0, 2, 0], vec!["other a1 v1 i0 l0"]),
        (vec![3, 0, 3, 0], vec!["other a1 v0 i0 l0", "other a1 v1 i0 l0"]),
    ] {
        world.log.clear();
        world.hub_status = status;
        let outcome = world.run(&mut bus, Frame::HubAckHubStatus(HubAckHubStatus::new(1)));
        assert_eq!(status_of(outcome), Status::Success);
        assert_eq!(&world.log[1..], cleared.as_slice());
    }
}

#[test]
fn the_packet_size_is_asked_for_three_times() {
    let mut world = World::keyboard();
    let mut bus = enumerated(&mut world);
    world.failing = vec!["device_descriptor"];
    let outcome = world.run(&mut bus, Frame::GetMaxPacketSize0(GetMaxPacketSize0::new(1)));
    assert_eq!(status_of(outcome), Status::DeviceError);
    assert_eq!(world.count("device_descriptor"), 3);
    assert_eq!(world.count("stall 100000"), 3);
    assert_eq!(device(&bus, 1).max_packet0, 64);
    world.failing.clear();
    world.device[3] = 0x03;
    world.device[7] = 9;
    let outcome = world.run(&mut bus, Frame::GetMaxPacketSize0(GetMaxPacketSize0::new(1)));
    assert_eq!(status_of(outcome), Status::Success);
    assert_eq!(device(&bus, 1).max_packet0, 512);
    assert_eq!(
        status_of(world.run(&mut bus, Frame::GetMaxPacketSize0(GetMaxPacketSize0::new(8)))),
        Status::InvalidParameter
    );
}

#[test]
fn a_short_answer_leaves_what_the_buffer_held() {
    let mut world = World::keyboard();
    let mut bus = enumerated(&mut world);
    let mut task = Task::new(Frame::GetMaxPacketSize0(GetMaxPacketSize0::new(1)));
    let mut head = vec![18, 1, 0x00, 0x02, 0, 0, 0, 32];
    let onto = |request: Request| match request {
        Request::Act(Action::ControlTransferOnto { transfer, buffer }) => {
            assert_eq!(transfer.length, 8);
            buffer.head()
        }
        other => panic!("no transfer: {:?}", other),
    };
    assert_eq!(onto(task.resume(&mut bus, Reply::Nothing)), vec![0; 8]);
    let failed = Reply::Transfer { status: Status::DeviceError, data: head.clone(), length: 8, usb_result: 0, toggle: 0 };
    assert!(matches!(task.resume(&mut bus, failed), Request::Act(Action::Stall { micros: 100000 })));
    assert_eq!(onto(task.resume(&mut bus, Reply::Nothing)), head);
    head[0] = 8;
    let short = Reply::Transfer { status: Status::Success, data: head, length: 1, usb_result: 0, toggle: 0 };
    assert!(matches!(task.resume(&mut bus, short), Request::Finished(Reply::Status(Status::Success))));
    assert_eq!(device(&bus, 1).max_packet0, 32);
}

#[test]
fn strings_are_read_in_two_parts() {
    let mut world = World::keyboard();
    let mut bus = enumerated(&mut world);
    let read = |world: &mut World, bus: &mut UsbBus| {
        world.run(bus, Frame::GetOneString(GetOneString::new(1, 3, 0x0409)))
    };
    assert!(matches!(read(&mut world, &mut bus), Reply::Text(Some(t)) if t == text("SN0042")));
    assert_eq!(world.log, vec!["string a1 v771 i1033 l2", "string a1 v771 i1033 l14"]);
    world.serial = Vec::new();
    assert!(matches!(read(&mut world, &mut bus), Reply::Text(Some(t)) if t.is_empty()));
    world.failing = vec!["string"];
    assert!(matches!(read(&mut world, &mut bus), Reply::Text(None)));
}

#[test]
fn configurations_are_read_in_two_parts() {
    let mut world = World::keyboard();
    let mut bus = enumerated(&mut world);
    let outcome = world.run(&mut bus, Frame::GetOneConfig(GetOneConfig::new(1, 0)));
    assert!(matches!(outcome, Reply::Bytes(Some(b)) if b == keyboard_config()));
    world.config[2] = 8;
    let outcome = world.run(&mut bus, Frame::GetOneConfig(GetOneConfig::new(1, 0)));
    assert!(matches!(outcome, Reply::Bytes(None)));
    world.config[2] = 30;
    let outcome = world.run(&mut bus, Frame::GetOneConfig(GetOneConfig::new(1, 0)));
    assert!(matches!(outcome, Reply::Bytes(Some(b)) if b.len() == 30 && b[25..] == [0; 5]));
}

#[test]
fn the_descriptor_table_needs_its_first_configuration() {
    let mut world = World::keyboard();
    let mut bus = enumerated(&mut world);
    world.device = device_descriptor(0, 3);
    let outcome = world.run(&mut bus, Frame::BuildDescTable(BuildDescTable::new(1)));
    assert_eq!(status_of(outcome), Status::Success);
    assert_eq!(device(&bus, 1).dev_desc.as_ref().unwrap().configs.len(), 3);
    assert!(device(&bus, 1).dev_desc.as_ref().unwrap().configs.iter().all(|c| c.is_some()));
    world.device = device_descriptor(0, 0);
    let outcome = world.run(&mut bus, Frame::BuildDescTable(BuildDescTable::new(1)));
    assert_eq!(status_of(outcome), Status::DeviceError);
    world.device = device_descriptor(0, 1);
    world.config[1] = 7;
    let outcome = world.run(&mut bus, Frame::BuildDescTable(BuildDescTable::new(1)));
    assert_eq!(status_of(outcome), Status::DeviceError);
    assert!(device(&bus, 1).dev_desc.as_ref().unwrap().configs.is_empty());
    world.log.clear();
    world.device = device_descriptor(0, 2);
    world.run(&mut bus, Frame::UpdateDescriptors(UpdateDescriptors::new(1)));
    assert_eq!(world.count("config_descriptor"), 4);
}

#[test]
fn refreshed_descriptors_are_stored() {
    let mut world = World::keyboard();
    let mut bus = enumerated(&mut world);
    world.device = device_descriptor(7, 2);
    world.config[5] = 5;
    world.run(&mut bus, Frame::UpdateDescriptors(UpdateDescriptors::new(1)));
    let desc = device(&bus, 1).dev_desc.as_ref().unwrap();
    assert_eq!(desc.descriptor.device_class, 7);
    assert_eq!(desc.configs.len(), 2);
    for config in &desc.configs {
        assert_eq!(config.as_ref().unwrap().descriptor.configuration_value, 5);
    }
    assert_eq!(device(&bus, 1).active_config.unwrap().configuration_value, 1);

    world.device = device_descriptor(8, 3);
    world.config[1] = 7;
    world.run(&mut bus, Frame::UpdateDescriptors(UpdateDescriptors::new(1)));
    let desc = device(&bus, 1).dev_desc.as_ref().unwrap();
    assert_eq!(desc.descriptor.device_class, 8);
    assert_eq!(desc.configs.len(), 3);
    assert_eq!(desc.configs[1].as_ref().unwrap().descriptor.configuration_value, 5);
    assert!(desc.configs[2].is_none());

    world.failing = vec!["device_descriptor"];
    world.device = device_descriptor(9, 1);
    world.run(&mut bus, Frame::UpdateDescriptors(UpdateDescriptors::new(1)));
    let desc = device(&bus, 1).dev_desc.as_ref().unwrap();
    assert_eq!(desc.descriptor.device_class, 8);
    assert_eq!(desc.configs.len(), 3);
    world.failing.clear();
    world.config[1] = 2;
    world.run(&mut bus, Frame::UpdateDescriptors(UpdateDescriptors::new(1)));
    assert_eq!(device(&bus, 1).dev_desc.as_ref().unwrap().configs.len(), 1);
}

#[test]
fn a_configuration_is_selected_by_its_value() {
    let mut world = World::keyboard();
    let mut bus = enumerated(&mut world);
    let outcome = world.run(&mut bus, Frame::SelectConfig(SelectConfig::new(1, 2)));
    assert_eq!(status_of(outcome), Status::NotFound);
    let outcome = world.run(&mut bus, Frame::RemoveConfig(RemoveConfig::new(1)));
    assert_eq!(status_of(outcome), Status::Success);
    assert!(device(&bus, 1).interfaces[0].is_none());
    assert!(device(&bus, 1).active_config.is_none());
    let outcome = world.run(&mut bus, Frame::SelectConfig(SelectConfig::new(1, 1)));
    assert_eq!(status_of(outcome), Status::Success);
    assert!(device(&bus, 1).interfaces[0].is_some());
}

#[test]
fn wanted_interfaces_are_found_by_path_class_and_serial_number() {
    let mut world = World::keyboard();
    let mut bus = enumerated(&mut world);
    let end = [0x7f, 0xff, 0x04, 0x00];
    let port = |port: u8| vec![0x03, 0x05, 0x06, 0x00, port, 0x00];
    let class = |class: u8, vendor: u16| {
        vec![0x03, 0x0f, 0x0b, 0x00, (vendor % 256) as u8, (vendor / 256) as u8, 0xff, 0xff, class, 0xff, 0xff]
    };
    let wwid = |serial: &str| {
        let mut node = vec![0x03, 0x10, (10 + 2 * serial.len()) as u8, 0, 0, 0, 0x34, 0x12, 0x78, 0x56];
        for b in serial.bytes() {
            node.push(b);
            node.push(0);
        }
        node
    };
    for (node, expected) in [
        (port(0), true),
        (port(1), false),
        (class(3, 0xffff), true),
        (class(3, 0x1234), true),
        (class(3, 0x1235), false),
        (class(8, 0xffff), false),
        (wwid("0042"), true),
        (wwid("SN0042"), true),
        (wwid("0043"), false),
        (wwid("XSN0042"), false),
    ] {
        bus.wanted_usb_io_dp_list.initialize_list_head();
        let mut path = node;
        path.extend_from_slice(&end);
        usb_bus_add_wanted_usb_io_dp(&mut bus, Some(&path)).unwrap();
        let outcome = world.run(&mut bus, Frame::IsWanted(IsWanted::new(FIRST)));
        assert!(matches!(outcome, Reply::Verdict(v) if v == expected), "{:?}", path);
    }
    assert!(matches!(world.run(&mut bus, Frame::IsWanted(IsWanted::new(ROOT))), Reply::Verdict(true)));
    let gone = InterfaceId { device: 3, index: 0 };
    assert!(matches!(world.run(&mut bus, Frame::IsWanted(IsWanted::new(gone))), Reply::Verdict(false)));
}

#[test]
fn only_wanted_interfaces_get_a_driver() {
    let mut world = World::keyboard();
    let mut bus = bus();
    let outcome = world.run(&mut bus, Frame::EnumeratePort(EnumeratePort::new(ROOT, 0)));
    assert_eq!(status_of(outcome), Status::Success);
    assert_eq!(world.count("connect"), 0);
    assert!(!device(&bus, 1).interfaces[0].as_ref().unwrap().is_managed);
    let handles = vec![101, 102, 103];
    world.paths.push((102, vec![0x7f, 0xff, 0x04, 0x00]));
    world.handles = handles;
    let outcome = world.run(&mut bus, Frame::ConnectMore(ConnectMore { remaining: None, asked: false }));
    assert_eq!(status_of(outcome), Status::Success);
    assert!(device(&bus, 1).interfaces[0].as_ref().unwrap().is_managed);
    assert_eq!(world.count("connect"), 1);
    let outcome = world.run(&mut bus, Frame::ConnectMore(ConnectMore { remaining: None, asked: false }));
    assert_eq!(status_of(outcome), Status::Success);
    assert_eq!(world.count("connect"), 1);
    world.handles.clear();
    let outcome = world.run(&mut bus, Frame::ConnectMore(ConnectMore { remaining: None, asked: false }));
    assert_eq!(status_of(outcome), Status::Success);
    let other = Some(vec![0x01, 0x01, 0x06, 0x00, 0x00, 0x14, 0x7f, 0xff, 0x04, 0x00]);
    let outcome = world.run(&mut bus, Frame::ConnectMore(ConnectMore { remaining: other, asked: false }));
    assert_eq!(status_of(outcome), Status::InvalidParameter);
}

fn control(request_type: u8, request: u8, value: u16, index: u16) -> Frame {
    Frame::IoControlTransfer(IoControlTransfer {
        interface: FIRST,
        request: UsbDeviceRequest { request_type, request, value, index, length: 0 },
        direction: 2,
        timeout: 100,
        data_length: 0,
        at: IoControlTransferAt::Start,
    })
}

#[test]
fn a_set_configuration_request_changes_the_interfaces() {
    let mut world = World::keyboard();
    let mut bus = enumerated(&mut world);
    assert_eq!(status_of(world.run(&mut bus, control(0, 9, 1, 0))), Status::Success);
    assert_eq!(world.log, vec!["set_config a1 v1 i0 l0"]);
    assert_eq!(status_of(world.run(&mut bus, control(0, 9, 0, 0))), Status::Success);
    assert!(device(&bus, 1).interfaces[0].is_none());
    assert!(device(&bus, 1).active_config.is_none());
}

#[test]
fn a_port_reset_rebuilds_the_device() {
    let mut world = World::keyboard();
    let mut bus = enumerated(&mut world);
    let reset = || Frame::IoPortReset(IoPortReset { interface: FIRST, at: IoPortResetAt::Start });
    assert_eq!(status_of(world.run(&mut bus, reset())), Status::Success);
    assert!(world.has("set_address a0 v1 i0 l0"));
    assert!(world.has("uninstall io 101"));
    assert!(world.has("install io 102"));
    let d = device(&bus, 1);
    assert_eq!(d.address, 1);
    assert!(d.dev_desc.is_some());
    assert_eq!(d.interfaces[0].as_ref().unwrap().handle, 102);
    world.failing = vec!["set_address"];
    assert_eq!(status_of(world.run(&mut bus, reset())), Status::DeviceError);
    world.failing = vec!["root_set"];
    assert_eq!(status_of(world.run(&mut bus, reset())), Status::DeviceError);
    let of_root = Frame::IoPortReset(IoPortReset { interface: ROOT, at: IoPortResetAt::Start });
    assert_eq!(status_of(world.run(&mut bus, of_root)), Status::DeviceError);
    bus.devices[0].as_mut().unwrap().connected = true;
    let of_root = Frame::IoPortReset(IoPortReset { interface: ROOT, at: IoPortResetAt::Start });
    assert_eq!(status_of(world.run(&mut bus, of_root)), Status::InvalidParameter);
}

#[test]
fn strings_for_drivers_end_with_a_zero() {
    let mut world = World::keyboard();
    let mut bus = enumerated(&mut world);
    let ask = |language_id: u16, string_index: u8| {
        Frame::IoGetStringDescriptor(IoGetStringDescriptor { interface: FIRST, language_id, string_index, asked: false })
    };
    let mut expected = text("SN0042");
    expected.push(0);
    assert!(matches!(world.run(&mut bus, ask(0x0407, 3)), Reply::Text(Some(t)) if t == expected));
    for (language, index) in [(0x0409, 0), (0, 3), (0x0411, 3)] {
        assert_eq!(status_of(world.run(&mut bus, ask(language, index))), Status::NotFound);
    }
    world.serial = Vec::new();
    assert_eq!(status_of(world.run(&mut bus, ask(0x0409, 3))), Status::NotFound);
}

#[test]
fn a_bus_is_built_and_stopped() {
    let mut world = World::keyboard();
    let mut bus = new_usb_bus(0, 0, Vec::new(), 2);
    world.revision = 3;
    let build = BuildProtocol { controller: 9, agent: 7, remaining: None, at: BuildProtocolAt::Start };
    assert_eq!(status_of(world.run(&mut bus, Frame::BuildProtocol(build))), Status::Success);
    assert_eq!(bus.max_devices, 256);
    assert_eq!(bus.agent, 7);
    assert_eq!(bus.host_handle, 9);
    assert_eq!(bus.device_path, BUS_PATH.to_vec());
    assert_eq!(bus.wanted_usb_io_dp_list.items.len(), 1);
    let root = bus.devices[0].as_ref().unwrap().interfaces[0].as_ref().unwrap();
    assert!(root.is_hub);
    assert_eq!(root.hub_api, Some(UsbHubApi::RootHub));
    assert_eq!(root.hub_notify, 66);
    assert_eq!(root.poll_count, 6);
    assert_eq!(root.num_of_port, 1);
    assert!(world.has("signal 66"));
    assert!(world.has("timer 66 100000000"));
    assert_eq!(world.count("wait"), 6);
    assert_eq!(device(&bus, 1).parent_addr, 0);

    let outcome = world.run(&mut bus, Frame::EnumeratePort(EnumeratePort::new(ROOT, 0)));
    assert_eq!(status_of(outcome), Status::Success);
    world.log.clear();
    world.level = 4;
    let stop = StopBus::new(9, 7);
    assert_eq!(status_of(world.run(&mut bus, Frame::StopBus(stop))), Status::Success);
    assert!(bus.devices[1].is_none());
    assert!(bus.wanted_usb_io_dp_list.items.is_empty());
    let at = world.log.iter().position(|l| l == "cancel 66").unwrap();
    assert_eq!(world.log[0], "raise 8");
    assert_eq!(world.log[at - 1], "restore 4");
    assert_eq!(
        &world.log[at..],
        &["cancel 66", "close event 66", "uninstall bus", "close controller", "close path"]
    );
}

#[test]
fn a_failed_bus_gives_everything_back() {
    for (name, undone) in [
        ("open_path", 0),
        ("open_controller", 1),
        ("install_bus", 2),
        ("report_detect", 3),
        ("capability", 3),
        ("signal", 3),
        ("timer", 3),
    ] {
        let mut world = World::keyboard();
        world.failing = vec![name];
        let mut bus = new_usb_bus(0, 0, Vec::new(), 2);
        let build = BuildProtocol { controller: 9, agent: 7, remaining: None, at: BuildProtocolAt::Start };
        assert_eq!(status_of(world.run(&mut bus, Frame::BuildProtocol(build))), Status::DeviceError);
        let end: Vec<&str> = vec!["uninstall bus", "close controller", "close path"];
        let log: Vec<&str> = world.log.iter().map(|l| l.as_str()).collect();
        assert!(log.ends_with(&end[3 - undone..]), "{} {:?}", name, log);
        assert_eq!(world.has("uninstall bus"), undone == 3);
    }
    let mut world = World::keyboard();
    let mut bus = new_usb_bus(0, 0, Vec::new(), 2);
    let build = BuildProtocol { controller: 9, agent: 7, remaining: Some(vec![1, 1, 4, 0]), at: BuildProtocolAt::Start };
    assert_eq!(status_of(world.run(&mut bus, Frame::BuildProtocol(build))), Status::InvalidParameter);
    assert_eq!(bus.max_devices, 128);
    assert_eq!(world.log.last().unwrap(), "close path");
}

#[test]
fn stopping_fails_when_a_device_stays() {
    let mut world = World::keyboard();
    let mut bus = enumerated(&mut world);
    world.failing = vec!["disconnect"];
    world.level = 4;
    let stop = || Frame::StopBus(StopBus::new(9, 7));
    assert_eq!(status_of(world.run(&mut bus, stop())), Status::DeviceError);
    assert!(!world.has("uninstall bus"));
    assert_eq!(world.log.last().unwrap(), "restore 4");
    world.failing.clear();
    let children = |children: Vec<usize>| Frame::StopChildren(StopChildren::new(children));
    world.log.clear();
    assert_eq!(status_of(world.run(&mut bus, children(vec![1]))), Status::Success);
    assert_eq!(world.log[0], "raise 8");
    assert_eq!(world.log.last().unwrap(), "restore 4");
    assert!(bus.devices[1].is_some());
    assert_eq!(status_of(world.run(&mut bus, children(vec![42]))), Status::InvalidParameter);
    assert_eq!(status_of(world.run(&mut bus, children(vec![1, 101]))), Status::Success);
    assert!(bus.devices[1].is_none());
    bus.devices[0] = None;
    assert_eq!(status_of(world.run(&mut bus, stop())), Status::InvalidParameter);
}

fn supports(world: &mut World, node: Option<Option<EfiDevicePathProtocol>>) -> Status {
    let mut run = Supported { controller: 9, agent: 7, at: SupportedAt::Start { node } };
    let mut reply = Reply::Nothing;
    loop {
        match supported(run, reply) {
            SupportedStep::Act { action, next } => {
                run = next;
                reply = world.perform(action);
            }
            SupportedStep::Done(status) => return status,
        }
    }
}

#[test]
fn host_controllers_are_supported() {
    let node = |node_type: u8, sub_type: u8| {
        Some(Some(EfiDevicePathProtocol { node_type, sub_type, length: 4 }))
    };
    let mut world = World::keyboard();
    assert_eq!(supports(&mut world, None), Status::Success);
    assert_eq!(world.log, vec!["open controller", "close controller", "open path", "close path"]);
    assert_eq!(supports(&mut world, node(0x7f, 0xff)), Status::Success);
    assert_eq!(supports(&mut world, node(3, 5)), Status::Success);
    assert_eq!(supports(&mut world, node(3, 6)), Status::Unsupported);
    assert_eq!(supports(&mut world, node(1, 1)), Status::Unsupported);
    assert_eq!(supports(&mut world, Some(None)), Status::InvalidParameter);
    world.failing = vec!["open_path"];
    assert_eq!(supports(&mut world, None), Status::DeviceError);
    world.failing = vec!["open_controller"];
    assert_eq!(supports(&mut world, None), Status::DeviceError);
    let at = |at: SupportedAt| Supported { controller: 9, agent: 7, at };
    let started = || Reply::Status(Status::AlreadyStarted);
    assert!(matches!(supported(at(SupportedAt::HostOpened), started()), SupportedStep::Done(Status::Success)));
    assert!(matches!(supported(at(SupportedAt::PathOpened), started()), SupportedStep::Done(Status::Success)));
}

#[test]
fn the_driver_starts_a_new_bus_or_uses_the_running_one() {
    let at = |at: StartDriverAt| StartDriver { controller: 9, agent: 7, at };
    let ok = || Reply::Status(Status::Success);
    let bad = || Reply::Status(Status::NotFound);
    assert!(matches!(
        start(at(StartDriverAt::Start), Reply::Nothing),
        StartStep::Act { action: Action::CheckDevicePath { controller: 9, agent: 7 }, .. }
    ));
    assert!(matches!(start(at(StartDriverAt::Checked), bad()), StartStep::Failed(Status::NotFound)));
    assert!(matches!(
        start(at(StartDriverAt::Checked), ok()),
        StartStep::Act { action: Action::ReportProgress(Progress::Init), .. }
    ));
    assert!(matches!(start(at(StartDriverAt::Reported), bad()), StartStep::Failed(Status::NotFound)));
    assert!(matches!(
        start(at(StartDriverAt::Reported), ok()),
        StartStep::Act { action: Action::FindBus { controller: 9 }, .. }
    ));
    assert!(matches!(start(at(StartDriverAt::Searched), Reply::Verdict(true)), StartStep::RunningBus));
    assert!(matches!(
        start(at(StartDriverAt::Searched), Reply::Verdict(false)),
        StartStep::Act { action: Action::ReportProgress(Progress::Enable), .. }
    ));
    assert!(matches!(start(at(StartDriverAt::Enabled), ok()), StartStep::NewBus));
    assert!(matches!(start(at(StartDriverAt::Enabled), bad()), StartStep::Failed(Status::NotFound)));
}

#[test]
fn what_follows_a_start_depends_on_the_remaining_path() {
    let node = |node_type: u8, sub_type: u8, data: Vec<u8>| PathNode {
        header: EfiDevicePathProtocol { node_type, sub_type, length: 4 + data.len() as u16 },
        data,
    };
    let end = vec![node(0x7f, 0xff, Vec::new())];
    let usb = vec![node(3, 5, vec![1, 0]), node(0x7f, 0xff, Vec::new())];
    let usb_bytes = vec![3, 5, 6, 0, 1, 0, 0x7f, 0xff, 4, 0];
    let none: Vec<PathNode> = Vec::new();
    let running = StartStep::RunningBus;
    let new = StartStep::NewBus;
    assert!(matches!(start_follow_up(&running, None), Ok(Some(FollowUp::ConnectMore { remaining: None }))));
    assert!(matches!(start_follow_up(&running, Some(&end)), Ok(None)));
    assert!(matches!(start_follow_up(&running, Some(&none)), Err(Status::InvalidParameter)));
    assert!(matches!(
        start_follow_up(&running, Some(&usb)),
        Ok(Some(FollowUp::ConnectMore { remaining: Some(path) })) if path == usb_bytes
    ));
    assert!(matches!(start_follow_up(&new, None), Ok(Some(FollowUp::Build { remaining: None }))));
    assert!(matches!(start_follow_up(&new, Some(&none)), Err(Status::InvalidParameter)));
    assert!(matches!(
        start_follow_up(&new, Some(&end)),
        Ok(Some(FollowUp::Build { remaining: Some(path) })) if path == vec![0x7f, 0xff, 4, 0]
    ));
    assert!(matches!(
        start_follow_up(&new, Some(&usb)),
        Ok(Some(FollowUp::Build { remaining: Some(path) })) if path == usb_bytes
    ));
    assert!(matches!(start_follow_up(&StartStep::Failed(Status::NotFound), None), Err(Status::NotFound)));
}

#[test]
fn a_call_runs_at_the_priority_of_the_bus() {
    let mut world = World::keyboard();
    let mut bus = enumerated(&mut world);
    world.level = 4;
    let call = |operation: IoOperation| Frame::IoCall(IoCall::new(operation));
    let string = |language_id: u16, string_index: u8| {
        IoOperation::GetStringDescriptor(IoGetStringDescriptor { interface: FIRST, language_id, string_index, asked: false })
    };
    let mut expected = text("SN0042");
    expected.push(0);
    assert!(matches!(world.run(&mut bus, call(string(0x0409, 3))), Reply::Text(Some(t)) if t == expected));
    assert_eq!(world.log.len(), 4);
    assert_eq!(world.log[0], "raise 16");
    assert_eq!(world.log[3], "restore 4");
    world.log.clear();
    assert_eq!(status_of(world.run(&mut bus, call(string(0x0411, 3)))), Status::NotFound);
    assert_eq!(world.log, vec!["raise 16", "restore 4"]);
    world.log.clear();
    assert_eq!(status_of(world.run(&mut bus, call(string(0x0409, 0)))), Status::NotFound);
    let bulk = |interface: InterfaceId, endpoint: u8| {
        IoOperation::BulkTransfer(IoEndpointTransfer { interface, endpoint, timeout: 1, at: IoEndpointTransferAt::Start })
    };
    for endpoint in [0x00, 0x80, 0x10, 0x90] {
        assert_eq!(status_of(world.run(&mut bus, call(bulk(FIRST, endpoint)))), Status::InvalidParameter);
    }
    let gone = InterfaceId { device: 9, index: 0 };
    assert_eq!(status_of(world.run(&mut bus, call(bulk(gone, 0x81)))), Status::InvalidParameter);
    assert!(world.log.is_empty());
    assert_eq!(status_of(world.run(&mut bus, call(bulk(FIRST, 0x81)))), Status::InvalidParameter);
    assert_eq!(world.log, vec!["raise 16", "restore 4"]);
}

#[test]
fn without_children_the_bus_is_stopped() {
    assert!(matches!(stop(9, 7, Vec::new()), Frame::StopBus(StopBus { controller: 9, agent: 7, .. })));
    assert!(matches!(stop(9, 7, vec![5]), Frame::StopChildren(run) if run.children == vec![5]));
}
