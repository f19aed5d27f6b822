//! Work that leaves the library: what has to be done outside, what came back, and
//! the operations that wait for it.

use crate::driver::{
    connect_more, stop_bus, stop_children, usb_bus_build_protocol, BuildProtocol, ConnectMore,
    StopBus, StopChildren,
};
use crate::hub_life::{
    usb_hub_ack_hub_status, usb_hub_init, usb_hub_read_desc, usb_hub_release, usb_on_hub_interrupt,
    usb_root_hub_init, usb_root_hub_release, HubAckHubStatus, HubInit, HubReadDesc, HubRelease,
    OnHubInterrupt, RootHubInit, RootHubRelease,
};
use crate::hub_port::{
    usb_hub_clear_port_change, usb_hub_get_port_status, usb_hub_reset_port,
    usb_root_hub_clear_port_change, usb_root_hub_reset_port, ClearPortChange, HubGetPortStatus,
    HubResetPort, RootHubResetPort,
};
use crate::interface_life::{
    usb_connect_driver, usb_create_interface, usb_disconnect_driver, usb_free_interface,
    ConnectDriver, CreateInterface, DisconnectDriver, FreeInterface,
};
use crate::status::Status;
use crate::usb_2_host_controller::{
    Usb2HcTransactionTranslator, UsbControlTransfer, UsbEndpointTransfer, UsbPortFeature,
    UsbPortStatus,
};
use crate::usb_bus_defs::{InterfaceId, UsbBus, UsbHubApi, UsbInterface};
use crate::usb_config::{usb_remove_config, usb_select_config, RemoveConfig, SelectConfig};
use crate::usb_control::{
    usb_build_desc_table, usb_build_lang_table, usb_get_dev_desc, usb_get_max_packet_size0,
    usb_get_one_config, usb_get_one_string, usb_update_descriptors, BuildDescTable, BuildLangTable,
    GetDevDesc, GetMaxPacketSize0, GetOneConfig, GetOneString, UpdateDescriptors,
};
use crate::usb_desc::{word_at, word_of, DeviceDescriptor};
use crate::usb_enumer::{
    usb_enumerate_new_device, usb_enumerate_port, usb_hub_enumeration, usb_remove_device,
    usb_root_hub_enumeration, EnumerateNewDevice, EnumeratePort, HubEnumeration, RemoveDevice,
    RootHubEnumeration,
};
use crate::usb_io_call::{usb_io_call, IoCall};
use crate::usb_io_impl::{
    usb_io_async_interrupt_transfer, usb_io_bulk_transfer, usb_io_control_transfer,
    usb_io_get_string_descriptor, usb_io_port_reset, usb_io_sync_interrupt_transfer,
    IoAsyncInterruptTransfer, IoControlTransfer, IoEndpointTransfer, IoGetStringDescriptor,
    IoPortReset,
};
use crate::usb_wanted::{
    usb_bus_is_wanted_usb_io, usb_bus_recursively_connect_wanted_usb_io, IsWanted,
    RecursivelyConnect,
};
use vstd::prelude::*;

verus! {

/// The task priority level of callbacks.
pub const TPL_CALLBACK: usize = 8;

/// The task priority level of notifications.
pub const TPL_NOTIFY: usize = 16;

/// The highest task priority level.
pub const TPL_HIGH_LEVEL: usize = 31;

/// A task priority level to which the library raises the current one.
#[derive(Clone, Copy, Debug, PartialEq, Eq, Structural)]
pub enum Tpl {
    Callback,
    Notify,
    HighLevel,
}

/// Who is told about the data of an asynchronous interrupt transfer.
#[derive(Clone, Copy, Debug, PartialEq, Eq, Structural)]
pub enum AsyncCallback {
    Nobody,
    Caller,
    Hub(InterfaceId),
}

/// An asynchronous interrupt transfer that is to be queued, or taken off the queue.
#[derive(Clone, Copy, Debug, PartialEq, Eq, Structural)]
pub struct AsyncTransfer {
    pub address: u8,
    pub endpoint: u8,
    pub speed: u8,
    pub max_packet: usize,
    pub is_new_transfer: bool,
    pub toggle: u8,
    pub polling_interval: usize,
    pub length: usize,
    pub translator: Usb2HcTransactionTranslator,
    pub callback: AsyncCallback,
}

/// The progress of the bus that is reported to the platform.
#[derive(Clone, Copy, Debug, PartialEq, Eq, Structural)]
pub enum Progress {
    Init,
    Enable,
    Detect,
    Hotplug,
}

/// One piece of work outside the library.
#[derive(Debug)]
pub enum Action {
    /// Carry out a control transfer with a buffer of zeros.
    ControlTransfer(UsbControlTransfer),
    /// Carry out a control transfer with a buffer that starts as this descriptor does.
    ControlTransferOnto { transfer: UsbControlTransfer, buffer: DeviceDescriptor },
    /// Carry out a control transfer with the buffer of the caller.
    CallerControlTransfer(UsbControlTransfer),
    /// Carry out a bulk transfer with the buffer of the caller.
    BulkTransfer(UsbEndpointTransfer),
    /// Carry out an interrupt transfer with the buffer of the caller.
    SyncInterruptTransfer(UsbEndpointTransfer),
    /// Queue an interrupt transfer, or take it off the queue.
    AsyncInterruptTransfer(AsyncTransfer),
    /// Ask the host controller for its speed and its number of ports.
    GetCapability,
    GetRootHubPortStatus { port: u8 },
    SetRootHubPortFeature { port: u8, feature: UsbPortFeature },
    ClearRootHubPortFeature { port: u8, feature: UsbPortFeature },
    /// Wait.
    Stall { micros: u64 },
    /// Let the timer of the root hub run.
    WaitForPoll,
    /// Put a device path on a new handle.
    InstallDevicePath { path: Vec<u8> },
    /// Put the USB I/O services of an interface on a handle.
    InstallUsbIo { handle: usize, interface: InterfaceId },
    UninstallUsbIo { handle: usize },
    UninstallDevicePath { handle: usize },
    /// Open the host controller on behalf of a child.
    OpenHostProtocol { host: usize, agent: usize, child: usize },
    CloseHostProtocol { host: usize, agent: usize, child: usize },
    GetCurrentTpl,
    RestoreTpl { level: usize },
    RaiseTpl { to: Tpl },
    ConnectController { handle: usize },
    DisconnectController { handle: usize },
    /// Make an event that has a hub enumerated when it is signalled.
    CreateHubEvent { interface: InterfaceId },
    /// Make a timer event that has the root hub enumerated.
    CreateTimerEvent { interface: InterfaceId },
    SignalEvent { event: usize },
    CloseEvent { event: usize },
    SetPeriodicTimer { event: usize, nanos: u64 },
    CancelTimer { event: usize },
    ReportProgress(Progress),
    /// Find all handles with USB I/O services.
    LocateUsbIo,
    /// Read the device path on a handle.
    ReadDevicePath { handle: usize },
    /// Find the interface whose USB I/O services are on a handle.
    FindInterface { handle: usize },
    /// Look at the device path of the controller.
    CheckDevicePath { controller: usize, agent: usize },
    /// Find out whether a bus runs on the controller.
    FindBus { controller: usize },
    /// Take the device path of the controller for the driver.
    OpenDevicePath { controller: usize, agent: usize },
    CloseDevicePath { controller: usize, agent: usize },
    /// Take the host controller for the driver.
    OpenHostController { controller: usize, agent: usize },
    CloseHostController { controller: usize, agent: usize },
    /// Publish the bus on the controller.
    InstallBus { controller: usize },
    UninstallBus { controller: usize },
}

/// The outcome of an action or of an operation.
#[derive(Debug)]
pub enum Reply {
    /// An operation starts, or ends without a result.
    Nothing,
    Status(Status),
    /// A transfer: its status, the buffer, the number of bytes moved, the USB error
    /// bits and the data toggle.
    Transfer { status: Status, data: Vec<u8>, length: usize, usb_result: u32, toggle: u8 },
    Port { status: Status, state: UsbPortStatus },
    Capability { status: Status, max_speed: u8, num_ports: u8 },
    /// A new handle or event.
    Handle { status: Status, handle: usize },
    Handles { status: Status, handles: Vec<usize> },
    /// The revision of a host controller that was opened.
    HostController { status: Status, major_revision: u8 },
    /// The interface that was found on a handle.
    Found { status: Status, interface: Option<InterfaceId> },
    Level(usize),
    Verdict(bool),
    Text(Option<Vec<u16>>),
    Bytes(Option<Vec<u8>>),
    /// A device path that was opened.
    Path { status: Status, path: Vec<u8> },
    Interface(Option<UsbInterface>),
}

/// What an operation does next.
#[derive(Debug)]
pub enum Step {
    /// Have `action` done, and go on with `next` when the reply is there.
    Act { action: Action, next: Frame },
    /// Run the operation `callee`, and go on with `next` when it is done.
    Call { callee: Frame, next: Frame },
    /// The operation is over.
    Done(Reply),
}

/// An operation and how far it has come.
#[derive(Debug)]
pub enum Frame {
    GetMaxPacketSize0(GetMaxPacketSize0),
    GetDevDesc(GetDevDesc),
    GetOneString(GetOneString),
    BuildLangTable(BuildLangTable),
    GetOneConfig(GetOneConfig),
    BuildDescTable(BuildDescTable),
    UpdateDescriptors(UpdateDescriptors),
    HubReadDesc(HubReadDesc),
    HubAckHubStatus(HubAckHubStatus),
    HubInit(HubInit),
    HubRelease(HubRelease),
    OnHubInterrupt(OnHubInterrupt),
    RootHubInit(RootHubInit),
    RootHubRelease(RootHubRelease),
    HubGetPortStatus(HubGetPortStatus),
    HubClearPortChange(ClearPortChange),
    RootHubClearPortChange(ClearPortChange),
    HubResetPort(HubResetPort),
    RootHubResetPort(RootHubResetPort),
    IsWanted(IsWanted),
    RecursivelyConnect(RecursivelyConnect),
    CreateInterface(CreateInterface),
    FreeInterface(FreeInterface),
    ConnectDriver(ConnectDriver),
    DisconnectDriver(DisconnectDriver),
    SelectConfig(SelectConfig),
    RemoveConfig(RemoveConfig),
    RemoveDevice(RemoveDevice),
    EnumerateNewDevice(EnumerateNewDevice),
    EnumeratePort(EnumeratePort),
    HubEnumeration(HubEnumeration),
    RootHubEnumeration(RootHubEnumeration),
    IoCall(IoCall),
    IoControlTransfer(IoControlTransfer),
    IoBulkTransfer(IoEndpointTransfer),
    IoSyncInterruptTransfer(IoEndpointTransfer),
    IoAsyncInterruptTransfer(IoAsyncInterruptTransfer),
    IoGetStringDescriptor(IoGetStringDescriptor),
    IoPortReset(IoPortReset),
    BuildProtocol(BuildProtocol),
    ConnectMore(ConnectMore),
    StopChildren(StopChildren),
    StopBus(StopBus),
}

impl Reply {
    /// The status that a reply carries; one of another kind stands for a device that
    /// does not answer as it should.
    pub open spec fn as_status(self) -> Status {
        match self {
            Reply::Status(status) => status,
            Reply::Transfer { status, .. } => status,
            Reply::Port { status, .. } => status,
            Reply::Capability { status, .. } => status,
            Reply::Handle { status, .. } => status,
            Reply::Handles { status, .. } => status,
            Reply::HostController { status, .. } => status,
            Reply::Found { status, .. } => status,
            Reply::Path { status, .. } => status,
            _ => Status::DeviceError,
        }
    }

    /// The bytes that a transfer brought.
    pub open spec fn as_data(self) -> Seq<u8> {
        match self {
            Reply::Transfer { data, .. } => data@,
            _ => Seq::empty(),
        }
    }

    /// The state of a port, from the host controller or from the bytes of a transfer.
    pub open spec fn as_port(self) -> UsbPortStatus {
        match self {
            Reply::Port { state, .. } => state,
            _ => UsbPortStatus {
                port_status: word_of(self.as_data(), 0),
                port_change_status: word_of(self.as_data(), 2),
            },
        }
    }

    /// The text that was read.
    pub open spec fn as_text(self) -> Option<Seq<u16>> {
        match self {
            Reply::Text(Some(text)) => Some(text@),
            _ => None,
        }
    }

    /// The bytes that were read.
    pub open spec fn as_bytes(self) -> Option<Seq<u8>> {
        match self {
            Reply::Bytes(Some(bytes)) => Some(bytes@),
            _ => None,
        }
    }

    /// The number of bytes that a transfer moved.
    pub open spec fn as_length(self) -> usize {
        match self {
            Reply::Transfer { length, .. } => length,
            _ => 0,
        }
    }

    /// The USB error bits of a transfer.
    pub open spec fn as_usb_result(self) -> u32 {
        match self {
            Reply::Transfer { usb_result, .. } => usb_result,
            _ => 0,
        }
    }

    /// The data toggle after a transfer.
    pub open spec fn as_toggle(self) -> u8 {
        match self {
            Reply::Transfer { toggle, .. } => toggle,
            _ => 0,
        }
    }

    /// The speed and the number of ports of a host controller.
    pub open spec fn as_capability(self) -> (u8, u8) {
        match self {
            Reply::Capability { max_speed, num_ports, .. } => (max_speed, num_ports),
            _ => (0, 0),
        }
    }

    /// The handle or event that was made.
    pub open spec fn as_handle(self) -> usize {
        match self {
            Reply::Handle { handle, .. } => handle,
            _ => 0,
        }
    }

    /// The handles that were found.
    pub open spec fn as_handles(self) -> Seq<usize> {
        match self {
            Reply::Handles { handles, .. } => handles@,
            _ => Seq::empty(),
        }
    }

    /// The major revision of the host controller.
    pub open spec fn as_revision(self) -> u8 {
        match self {
            Reply::HostController { major_revision, .. } => major_revision,
            _ => 0,
        }
    }

    /// The interface that was found.
    pub open spec fn as_found(self) -> Option<InterfaceId> {
        match self {
            Reply::Found { interface, .. } => interface,
            _ => None,
        }
    }

    /// The task priority level.
    pub open spec fn as_level(self) -> usize {
        match self {
            Reply::Level(level) => level,
            _ => 0,
        }
    }

    /// The answer to a question.
    pub open spec fn as_verdict(self) -> bool {
        match self {
            Reply::Verdict(verdict) => verdict,
            _ => false,
        }
    }

    /// The device path that was opened.
    pub open spec fn as_path(self) -> Seq<u8> {
        match self {
            Reply::Path { path, .. } => path@,
            _ => Seq::empty(),
        }
    }

    /// The interface that was made.
    pub open spec fn as_interface(self) -> Option<UsbInterface> {
        match self {
            Reply::Interface(interface) => interface,
            _ => None,
        }
    }

    /// Returns the status.
    pub fn status(&self) -> (r: Status)
        ensures
            r == self.as_status(),
    {
        match self {
            Reply::Status(status) => *status,
            Reply::Transfer { status, .. } => *status,
            Reply::Port { status, .. } => *status,
            Reply::Capability { status, .. } => *status,
            Reply::Handle { status, .. } => *status,
            Reply::Handles { status, .. } => *status,
            Reply::HostController { status, .. } => *status,
            Reply::Found { status, .. } => *status,
            Reply::Path { status, .. } => *status,
            _ => Status::DeviceError,
        }
    }

    /// Returns the bytes that a transfer brought.
    pub fn into_data(self) -> (r: Vec<u8>)
        ensures
            r@ == self.as_data(),
    {
        match self {
            Reply::Transfer { data, .. } => data,
            _ => Vec::new(),
        }
    }

    /// Returns the state of a port.
    pub fn into_port(self) -> (r: UsbPortStatus)
        ensures
            r == self.as_port(),
    {
        match self {
            Reply::Port { state, .. } => state,
            other => {
                let data: Vec<u8> = other.into_data();
                UsbPortStatus {
                    port_status: word_at(data.as_slice(), 0),
                    port_change_status: word_at(data.as_slice(), 2),
                }
            },
        }
    }

    /// Returns the text that was read.
    pub fn into_text(self) -> (r: Option<Vec<u16>>)
        ensures
            match r {
                Some(text) => self.as_text() == Some(text@),
                None => self.as_text() is None,
            },
    {
        match self {
            Reply::Text(text) => text,
            _ => None,
        }
    }

    /// Returns the bytes that were read.
    pub fn into_bytes(self) -> (r: Option<Vec<u8>>)
        ensures
            match r {
                Some(bytes) => self.as_bytes() == Some(bytes@),
                None => self.as_bytes() is None,
            },
    {
        match self {
            Reply::Bytes(bytes) => bytes,
            _ => None,
        }
    }

    /// Returns the number of bytes that a transfer moved.
    pub fn length(&self) -> (r: usize)
        ensures
            r == self.as_length(),
    {
        match self {
            Reply::Transfer { length, .. } => *length,
            _ => 0,
        }
    }

    /// Returns the USB error bits of a transfer.
    pub fn usb_result(&self) -> (r: u32)
        ensures
            r == self.as_usb_result(),
    {
        match self {
            Reply::Transfer { usb_result, .. } => *usb_result,
            _ => 0,
        }
    }

    /// Returns the data toggle after a transfer.
    pub fn toggle(&self) -> (r: u8)
        ensures
            r == self.as_toggle(),
    {
        match self {
            Reply::Transfer { toggle, .. } => *toggle,
            _ => 0,
        }
    }

    /// Returns the speed and the number of ports of a host controller.
    pub fn capability(&self) -> (r: (u8, u8))
        ensures
            r == self.as_capability(),
    {
        match self {
            Reply::Capability { max_speed, num_ports, .. } => (*max_speed, *num_ports),
            _ => (0, 0),
        }
    }

    /// Returns the handle or event that was made.
    pub fn handle(&self) -> (r: usize)
        ensures
            r == self.as_handle(),
    {
        match self {
            Reply::Handle { handle, .. } => *handle,
            _ => 0,
        }
    }

    /// Returns the handles that were found.
    pub fn into_handles(self) -> (r: Vec<usize>)
        ensures
            r@ == self.as_handles(),
    {
        match self {
            Reply::Handles { handles, .. } => handles,
            _ => Vec::new(),
        }
    }

    /// Returns the major revision of the host controller.
    pub fn revision(&self) -> (r: u8)
        ensures
            r == self.as_revision(),
    {
        match self {
            Reply::HostController { major_revision, .. } => *major_revision,
            _ => 0,
        }
    }

    /// Returns the interface that was found.
    pub fn found(&self) -> (r: Option<InterfaceId>)
        ensures
            r == self.as_found(),
    {
        match self {
            Reply::Found { interface, .. } => *interface,
            _ => None,
        }
    }

    /// Returns the task priority level.
    pub fn level(&self) -> (r: usize)
        ensures
            r == self.as_level(),
    {
        match self {
            Reply::Level(level) => *level,
            _ => 0,
        }
    }

    /// Returns the answer to a question.
    pub fn verdict(&self) -> (r: bool)
        ensures
            r == self.as_verdict(),
    {
        match self {
            Reply::Verdict(verdict) => *verdict,
            _ => false,
        }
    }

    /// Returns the device path that was opened.
    pub fn into_path(self) -> (r: Vec<u8>)
        ensures
            r@ == self.as_path(),
    {
        match self {
            Reply::Path { path, .. } => path,
            _ => Vec::new(),
        }
    }

    /// Returns the interface that was made.
    pub fn into_interface(self) -> (r: Option<UsbInterface>)
        ensures
            r == self.as_interface(),
    {
        match self {
            Reply::Interface(interface) => interface,
            _ => None,
        }
    }
}

/// Every reply to work that can fail carries its status; one that carries none stands for an
/// error of the device. What a reply does not carry is absent or zero.
pub proof fn a_reply_carries_what_it_was_made_of(reply: Reply)
    ensures
        match reply {
            Reply::Status(status) => reply.as_status() == status,
            Reply::Transfer { status, data, length, usb_result, toggle } => {
                &&& reply.as_status() == status
                &&& reply.as_data() == data@
                &&& reply.as_length() == length
                &&& reply.as_usb_result() == usb_result
                &&& reply.as_toggle() == toggle
            },
            Reply::Port { status, state } => reply.as_status() == status && reply.as_port() == state,
            Reply::Capability { status, max_speed, num_ports } => reply.as_status() == status
                && reply.as_capability().0 == max_speed && reply.as_capability().1 == num_ports,
            Reply::Handle { status, handle } => reply.as_status() == status && reply.as_handle() == handle,
            Reply::Handles { status, handles } => reply.as_status() == status && reply.as_handles()
                == handles@,
            Reply::HostController { status, major_revision } => reply.as_status() == status
                && reply.as_revision() == major_revision,
            Reply::Found { status, interface } => reply.as_status() == status && reply.as_found()
                == interface,
            Reply::Path { status, path } => reply.as_status() == status && reply.as_path() == path@,
            _ => reply.as_status() == Status::DeviceError,
        },
        reply matches Reply::Level(level) ==> reply.as_level() == level,
        reply.as_verdict() <==> reply == Reply::Verdict(true),
        reply matches Reply::Text(Some(text)) ==> reply.as_text() == Some(text@),
        !(reply matches Reply::Text(Some(_))) ==> reply.as_text() is None,
        reply matches Reply::Bytes(Some(bytes)) ==> reply.as_bytes() == Some(bytes@),
        !(reply matches Reply::Bytes(Some(_))) ==> reply.as_bytes() is None,
        reply matches Reply::Interface(Some(interface)) ==> reply.as_interface() == Some(interface),
        !(reply matches Reply::Interface(Some(_))) ==> reply.as_interface() is None,
        !(reply is Found) ==> reply.as_found() is None,
        !(reply is Handle) ==> reply.as_handle() == 0,
        !(reply is Handles) ==> reply.as_handles().len() == 0,
        !(reply is Transfer) ==> reply.as_length() == 0 && reply.as_usb_result() == 0 && reply.as_toggle()
            == 0 && reply.as_data().len() == 0,
{
}

/// What the driver of a task has to do next.
#[derive(Debug)]
pub enum Request {
    /// Do this work and resume the task with the reply.
    Act(Action),
    /// Resume the task with this reply.
    Continue(Reply),
    /// The task is over.
    Finished(Reply),
}

/// Operations that wait for each other; the last one is the one that runs.
#[derive(Debug)]
pub struct Task {
    pub stack: Vec<Frame>,
}

impl Frame {
    /// How the operation goes on after `reply`.
    pub open spec fn goes_on(self, pre: UsbBus, reply: Reply, post: UsbBus, step: Step) -> bool {
        match self {
            Frame::GetMaxPacketSize0(run) => run.goes_on(pre, reply, post, step),
            Frame::GetDevDesc(run) => run.goes_on(pre, reply, post, step),
            Frame::GetOneString(run) => post == pre && run.goes_on(pre, reply, step),
            Frame::BuildLangTable(run) => run.goes_on(pre, reply, post, step),
            Frame::GetOneConfig(run) => post == pre && run.goes_on(pre, reply, step),
            Frame::BuildDescTable(run) => run.goes_on(pre, reply, post, step),
            Frame::UpdateDescriptors(run) => run.goes_on(pre, reply, post, step),
            Frame::HubReadDesc(run) => post == pre && run.goes_on(pre, reply, step),
            Frame::HubAckHubStatus(run) => post == pre && step == run.next(pre, reply),
            Frame::HubInit(run) => run.goes_on(pre, reply, post, step),
            Frame::HubRelease(run) => run.goes_on(pre, reply, post, step),
            Frame::OnHubInterrupt(run) => run.goes_on(pre, reply, post, step),
            Frame::RootHubInit(run) => run.goes_on(pre, reply, post, step),
            Frame::RootHubRelease(run) => run.goes_on(pre, reply, post, step),
            Frame::HubGetPortStatus(run) => post == pre && step == run.next(pre, reply),
            Frame::HubClearPortChange(run) => post == pre && step == run.next(UsbHubApi::Hub, pre, reply),
            Frame::RootHubClearPortChange(run) => post == pre && step == run.next(UsbHubApi::RootHub, pre, reply),
            Frame::HubResetPort(run) => post == pre && step == run.next(pre, reply),
            Frame::RootHubResetPort(run) => post == pre && step == run.next(pre, reply),
            Frame::IsWanted(run) => post == pre && step == run.next(pre, reply),
            Frame::RecursivelyConnect(run) => run.goes_on(pre, reply, post, step),
            Frame::CreateInterface(run) => post == pre && run.goes_on(pre, reply, step),
            Frame::FreeInterface(run) => run.goes_on(pre, reply, post, step),
            Frame::ConnectDriver(run) => run.goes_on(pre, reply, post, step),
            Frame::DisconnectDriver(run) => run.goes_on(pre, reply, post, step),
            Frame::SelectConfig(run) => run.goes_on(pre, reply, post, step),
            Frame::RemoveConfig(run) => run.goes_on(pre, reply, post, step),
            Frame::RemoveDevice(run) => run.goes_on(pre, reply, post, step),
            Frame::EnumerateNewDevice(run) => run.goes_on(pre, reply, post, step),
            Frame::EnumeratePort(run) => post == pre && step == run.next(pre, reply),
            Frame::HubEnumeration(run) => run.goes_on(pre, post, step),
            Frame::RootHubEnumeration(run) => run.goes_on(pre, post, step),
            Frame::IoCall(run) => post == pre && step == run.next(pre, reply),
            Frame::IoControlTransfer(run) => run.goes_on(pre, reply, post, step),
            Frame::IoBulkTransfer(run) => run.bulk_goes_on(pre, reply, post, step),
            Frame::IoSyncInterruptTransfer(run) => run.interrupt_goes_on(pre, reply, post, step),
            Frame::IoAsyncInterruptTransfer(run) => run.goes_on(pre, reply, post, step),
            Frame::IoGetStringDescriptor(run) => post == pre && run.goes_on(pre, reply, step),
            Frame::IoPortReset(run) => run.goes_on(pre, reply, post, step),
            Frame::BuildProtocol(run) => run.goes_on(pre, reply, post, step),
            Frame::ConnectMore(run) => run.goes_on(pre, reply, post, step),
            Frame::StopChildren(run) => post == pre && run.goes_on(reply, step),
            Frame::StopBus(run) => run.goes_on(pre, reply, post, step),
        }
    }
}

/// The course of an operation to its end: the bus after each step, what came of the
/// work outside, and the courses of the operations that it ran.
#[derive(Debug)]
pub enum Course {
    Done { bus: UsbBus, answer: Reply },
    Act { bus: UsbBus, action: Action, next: Frame, outcome: Reply, rest: Box<Course> },
    Call { bus: UsbBus, callee: Frame, next: Frame, called: Box<Course>, rest: Box<Course> },
}

impl Course {
    /// The bus at the end of the course.
    pub open spec fn last_bus(self) -> UsbBus
        decreases self,
    {
        match self {
            Course::Done { bus, .. } => bus,
            Course::Act { rest, .. } => rest.last_bus(),
            Course::Call { rest, .. } => rest.last_bus(),
        }
    }

    /// What the operation ends with.
    pub open spec fn last_answer(self) -> Reply
        decreases self,
    {
        match self {
            Course::Done { answer, .. } => answer,
            Course::Act { rest, .. } => rest.last_answer(),
            Course::Call { rest, .. } => rest.last_answer(),
        }
    }

    /// The operation `frame`, resumed with `reply`, can take this course. Nothing else
    /// changes the bus meanwhile; the outside may answer as it likes.
    pub open spec fn is_of(self, frame: Frame, pre: UsbBus, reply: Reply) -> bool
        decreases self,
    {
        match self {
            Course::Done { bus, answer } => frame.goes_on(pre, reply, bus, Step::Done(answer)),
            Course::Act { bus, action, next, outcome, rest } => {
                &&& frame.goes_on(pre, reply, bus, Step::Act { action, next })
                &&& rest.is_of(next, bus, outcome)
            },
            Course::Call { bus, callee, next, called, rest } => {
                &&& frame.goes_on(pre, reply, bus, Step::Call { callee, next })
                &&& called.is_of(callee, bus, Reply::Nothing)
                &&& rest.is_of(next, called.last_bus(), called.last_answer())
            },
        }
    }
}

/// Takes one step of an operation.
pub fn take_step(bus: &mut UsbBus, frame: Frame, reply: Reply) -> (step: Step)
    requires
        old(bus).wf(),
    ensures
        frame.goes_on(*old(bus), reply, *final(bus), step),
        final(bus).wf(),
{
    match frame {
        Frame::GetMaxPacketSize0(run) => usb_get_max_packet_size0(bus, run, reply),
        Frame::GetDevDesc(run) => usb_get_dev_desc(bus, run, reply),
        Frame::GetOneString(run) => usb_get_one_string(bus, run, reply),
        Frame::BuildLangTable(run) => usb_build_lang_table(bus, run, reply),
        Frame::GetOneConfig(run) => usb_get_one_config(bus, run, reply),
        Frame::BuildDescTable(run) => usb_build_desc_table(bus, run, reply),
        Frame::UpdateDescriptors(run) => usb_update_descriptors(bus, run, reply),
        Frame::HubReadDesc(run) => usb_hub_read_desc(bus, run, reply),
        Frame::HubAckHubStatus(run) => usb_hub_ack_hub_status(bus, run, reply),
        Frame::HubInit(run) => usb_hub_init(bus, run, reply),
        Frame::HubRelease(run) => usb_hub_release(bus, run, reply),
        Frame::OnHubInterrupt(run) => usb_on_hub_interrupt(bus, run, reply),
        Frame::RootHubInit(run) => usb_root_hub_init(bus, run, reply),
        Frame::RootHubRelease(run) => usb_root_hub_release(bus, run, reply),
        Frame::HubGetPortStatus(run) => usb_hub_get_port_status(bus, run, reply),
        Frame::HubClearPortChange(run) => usb_hub_clear_port_change(bus, run, reply),
        Frame::RootHubClearPortChange(run) => usb_root_hub_clear_port_change(bus, run, reply),
        Frame::HubResetPort(run) => usb_hub_reset_port(bus, run, reply),
        Frame::RootHubResetPort(run) => usb_root_hub_reset_port(bus, run, reply),
        Frame::IsWanted(run) => usb_bus_is_wanted_usb_io(bus, run, reply),
        Frame::RecursivelyConnect(run) => usb_bus_recursively_connect_wanted_usb_io(bus, run, reply),
        Frame::CreateInterface(run) => usb_create_interface(bus, run, reply),
        Frame::FreeInterface(run) => usb_free_interface(bus, run, reply),
        Frame::ConnectDriver(run) => usb_connect_driver(bus, run, reply),
        Frame::DisconnectDriver(run) => usb_disconnect_driver(bus, run, reply),
        Frame::SelectConfig(run) => usb_select_config(bus, run, reply),
        Frame::RemoveConfig(run) => usb_remove_config(bus, run, reply),
        Frame::RemoveDevice(run) => usb_remove_device(bus, run, reply),
        Frame::EnumerateNewDevice(run) => usb_enumerate_new_device(bus, run, reply),
        Frame::EnumeratePort(run) => usb_enumerate_port(bus, run, reply),
        Frame::HubEnumeration(run) => usb_hub_enumeration(bus, run),
        Frame::RootHubEnumeration(run) => usb_root_hub_enumeration(bus, run),
        Frame::IoCall(run) => usb_io_call(bus, run, reply),
        Frame::IoControlTransfer(run) => usb_io_control_transfer(bus, run, reply),
        Frame::IoBulkTransfer(run) => usb_io_bulk_transfer(bus, run, reply),
        Frame::IoSyncInterruptTransfer(run) => usb_io_sync_interrupt_transfer(bus, run, reply),
        Frame::IoAsyncInterruptTransfer(run) => usb_io_async_interrupt_transfer(bus, run, reply),
        Frame::IoGetStringDescriptor(run) => usb_io_get_string_descriptor(bus, run, reply),
        Frame::IoPortReset(run) => usb_io_port_reset(bus, run, reply),
        Frame::BuildProtocol(run) => usb_bus_build_protocol(bus, run, reply),
        Frame::ConnectMore(run) => connect_more(bus, run, reply),
        Frame::StopChildren(run) => stop_children(run, reply),
        Frame::StopBus(run) => stop_bus(bus, run, reply),
    }
}

impl Task {
    /// What a step does to the stack and what it asks for: the operation waits for
    /// work, or for another operation; or it is over and its outcome goes to the
    /// operation that waits for it.
    pub open spec fn follows(pre: Seq<Frame>, step: Step, post: Seq<Frame>, request: Request) -> bool {
        match step {
            Step::Act { action, next } => post == pre.drop_last().push(next) && request == Request::Act(
                action,
            ),
            Step::Call { callee, next } => post == pre.drop_last().push(next).push(callee) && request
                == Request::Continue(Reply::Nothing),
            Step::Done(answer) => post == pre.drop_last() && request == (if pre.len() == 1 {
                Request::Finished(answer)
            } else {
                Request::Continue(answer)
            }),
        }
    }

    /// Makes a task of one operation.
    pub fn new(frame: Frame) -> (r: Task)
        ensures
            r.stack@ == seq![frame],
    {
        let mut stack: Vec<Frame> = Vec::new();
        stack.push(frame);
        assert(stack@ =~= seq![frame]);
        Task { stack }
    }

    /// Takes one step of the operation that runs. A task that is over stays so.
    pub fn resume(&mut self, bus: &mut UsbBus, reply: Reply) -> (request: Request)
        requires
            old(bus).wf(),
        ensures
            final(bus).wf(),
            if old(self).stack@.len() == 0 {
                final(self).stack@ == old(self).stack@ && *final(bus) == *old(bus) && request
                    == Request::Finished(reply)
            } else {
                exists|step: Step| #[trigger]
                    old(self).stack@.last().goes_on(*old(bus), reply, *final(bus), step) && Task::follows(
                        old(self).stack@,
                        step,
                        final(self).stack@,
                        request,
                    )
            },
    {
        match self.stack.pop() {
            None => Request::Finished(reply),
            Some(frame) => {
                let step = take_step(bus, frame, reply);
                assert(old(self).stack@.last().goes_on(*old(bus), reply, *bus, step));
                match step {
                    Step::Act { action, next } => {
                        self.stack.push(next);
                        Request::Act(action)
                    },
                    Step::Call { callee, next } => {
                        self.stack.push(next);
                        self.stack.push(callee);
                        Request::Continue(Reply::Nothing)
                    },
                    Step::Done(answer) => if self.stack.len() == 0 {
                        Request::Finished(answer)
                    } else {
                        Request::Continue(answer)
                    },
                }
            },
        }
    }
}

} // verus!
