//! The ports of a hub: clearing their changes and resetting them.

use crate::search::{first_index, first_index_is_first, lemma_first_index_cons};
use crate::status::Status;
use crate::task::{Action, Frame, Reply, Step};
use crate::usb_2_host_controller::{
    UsbPortFeature, UsbPortStatus, EFI_USB_SPEED_HIGH, USB_PORT_STAT_C_CONNECTION, USB_PORT_STAT_C_ENABLE,
    USB_PORT_STAT_C_OVERCURRENT, USB_PORT_STAT_C_RESET, USB_PORT_STAT_C_SUSPEND, USB_PORT_STAT_ENABLE,
    USB_PORT_STAT_RESET,
};
use crate::usb_bus_defs::{
    InterfaceId, UsbBus, UsbHubApi, USB_CLR_ROOT_PORT_RESET_STALL, USB_SET_PORT_RECOVERY_STALL,
    USB_SET_PORT_RESET_STALL, USB_SET_ROOT_PORT_ENABLE_STALL, USB_SET_ROOT_PORT_RESET_STALL,
    USB_WAIT_PORT_STS_CHANGE_STALL,
};
use crate::usb_hub::{
    port_action, usb_port_request, PortRequest, UsbChangeFeatureMap, USB_SS_PORT_STAT_C_BH_RESET,
    USB_SS_PORT_STAT_C_PORT_LINK_STATE, USB_WAIT_PORT_STS_CHANGE_LOOP,
};
use vstd::prelude::*;

verus! {

/// Number of changes that a port of the root hub can report.
pub const ROOT_PORT_CHANGES: u8 = 5;

/// Number of changes that a port of a hub device can report, those of SuperSpeed hubs
/// included.
pub const HUB_PORT_CHANGES: u8 = 7;

/// The number of changes that a port can report.
pub open spec fn change_count(api: UsbHubApi) -> u8 {
    match api {
        UsbHubApi::Hub => HUB_PORT_CHANGES,
        UsbHubApi::RootHub => ROOT_PORT_CHANGES,
    }
}

fn count_changes(api: UsbHubApi) -> (r: u8)
    ensures
        r == change_count(api),
{
    match api {
        UsbHubApi::Hub => HUB_PORT_CHANGES,
        UsbHubApi::RootHub => ROOT_PORT_CHANGES,
    }
}

/// The changes that a port can report, in the order in which they are cleared. The
/// last two come from SuperSpeed hubs.
pub open spec fn port_change(i: int) -> UsbChangeFeatureMap {
    if i == 0 {
        UsbChangeFeatureMap {
            changed_bit: USB_PORT_STAT_C_CONNECTION,
            feature: UsbPortFeature::ConnectChange,
        }
    } else if i == 1 {
        UsbChangeFeatureMap { changed_bit: USB_PORT_STAT_C_ENABLE, feature: UsbPortFeature::EnableChange }
    } else if i == 2 {
        UsbChangeFeatureMap {
            changed_bit: USB_PORT_STAT_C_SUSPEND,
            feature: UsbPortFeature::SuspendChange,
        }
    } else if i == 3 {
        UsbChangeFeatureMap {
            changed_bit: USB_PORT_STAT_C_OVERCURRENT,
            feature: UsbPortFeature::OverCurrentChange,
        }
    } else if i == 4 {
        UsbChangeFeatureMap { changed_bit: USB_PORT_STAT_C_RESET, feature: UsbPortFeature::ResetChange }
    } else if i == 5 {
        UsbChangeFeatureMap {
            changed_bit: USB_SS_PORT_STAT_C_BH_RESET,
            feature: UsbPortFeature::WarmResetChange,
        }
    } else {
        UsbChangeFeatureMap {
            changed_bit: USB_SS_PORT_STAT_C_PORT_LINK_STATE,
            feature: UsbPortFeature::LinkStateChange,
        }
    }
}

/// Returns the change at an index.
fn port_change_at(i: u8) -> (r: UsbChangeFeatureMap)
    ensures
        r == port_change(i as int),
{
    if i == 0 {
        UsbChangeFeatureMap {
            changed_bit: USB_PORT_STAT_C_CONNECTION,
            feature: UsbPortFeature::ConnectChange,
        }
    } else if i == 1 {
        UsbChangeFeatureMap { changed_bit: USB_PORT_STAT_C_ENABLE, feature: UsbPortFeature::EnableChange }
    } else if i == 2 {
        UsbChangeFeatureMap {
            changed_bit: USB_PORT_STAT_C_SUSPEND,
            feature: UsbPortFeature::SuspendChange,
        }
    } else if i == 3 {
        UsbChangeFeatureMap {
            changed_bit: USB_PORT_STAT_C_OVERCURRENT,
            feature: UsbPortFeature::OverCurrentChange,
        }
    } else if i == 4 {
        UsbChangeFeatureMap { changed_bit: USB_PORT_STAT_C_RESET, feature: UsbPortFeature::ResetChange }
    } else if i == 5 {
        UsbChangeFeatureMap {
            changed_bit: USB_SS_PORT_STAT_C_BH_RESET,
            feature: UsbPortFeature::WarmResetChange,
        }
    } else {
        UsbChangeFeatureMap {
            changed_bit: USB_SS_PORT_STAT_C_PORT_LINK_STATE,
            feature: UsbPortFeature::LinkStateChange,
        }
    }
}

/// The first change from index `from` on that is reported in `changes`.
pub open spec fn next_change(api: UsbHubApi, changes: u16, from: int) -> int
    decreases change_count(api) - from,
{
    if from >= change_count(api) || changes & port_change(from).changed_bit != 0 {
        from
    } else {
        next_change(api, changes, from + 1)
    }
}

fn find_change(api: UsbHubApi, changes: u16, from: u8) -> (r: u8)
    ensures
        r == next_change(api, changes, from as int),
{
    let count: u8 = count_changes(api);
    let mut i: u8 = from;
    while i < count && changes & port_change_at(i).changed_bit == 0
        invariant
            count == change_count(api),
            next_change(api, changes, from as int) == next_change(api, changes, i as int),
            i <= count || i == from,
        decreases count - i,
    {
        i = i + 1;
    }
    i
}

/// Reads the status of a port of a hub device and acknowledges the changes that it
/// reports.
#[derive(Clone, Copy, Debug)]
pub struct HubGetPortStatus {
    pub interface: InterfaceId,
    pub port: u8,
    pub at: HubGetPortStatusAt,
}

#[derive(Clone, Copy, Debug)]
pub enum HubGetPortStatusAt {
    Start,
    Status,
    /// The status has been read; the changes before `from` have been acknowledged.
    Acknowledge { state: UsbPortStatus, from: u8 },
}

impl HubGetPortStatus {
    pub open spec fn start(interface: InterfaceId, port: u8) -> HubGetPortStatus {
        HubGetPortStatus { interface, port, at: HubGetPortStatusAt::Start }
    }

    pub fn new(interface: InterfaceId, port: u8) -> (r: HubGetPortStatus)
        ensures
            r == HubGetPortStatus::start(interface, port),
    {
        HubGetPortStatus { interface, port, at: HubGetPortStatusAt::Start }
    }

    pub open spec fn to(self, at: HubGetPortStatusAt) -> Frame {
        Frame::HubGetPortStatus(HubGetPortStatus { at, ..self })
    }

    /// Acknowledges the next one of the changes; after the last one the status is
    /// returned as it was read.
    pub open spec fn acknowledges(self, bus: UsbBus, state: UsbPortStatus, from: int) -> Step {
        let i = next_change(UsbHubApi::Hub, state.port_change_status, from);
        let done = Step::Done(Reply::Port { status: Status::Success, state });
        if i >= change_count(UsbHubApi::Hub) {
            done
        } else {
            match port_action(
                bus,
                UsbHubApi::Hub,
                self.interface,
                self.port,
                PortRequest::ClearFeature(port_change(i).feature),
            ) {
                Some(action) => Step::Act {
                    action,
                    next: self.to(HubGetPortStatusAt::Acknowledge { state, from: (i + 1) as u8 }),
                },
                None => done,
            }
        }
    }

    /// How the operation goes on after `reply`. Nothing is acknowledged where the
    /// status could not be read.
    pub open spec fn next(self, bus: UsbBus, reply: Reply) -> Step {
        match self.at {
            HubGetPortStatusAt::Start => match port_action(
                bus,
                UsbHubApi::Hub,
                self.interface,
                self.port,
                PortRequest::GetStatus,
            ) {
                Some(action) => Step::Act { action, next: self.to(HubGetPortStatusAt::Status) },
                None => Step::Done(Reply::Status(Status::InvalidParameter)),
            },
            HubGetPortStatusAt::Status => if reply.as_status() != Status::Success {
                Step::Done(Reply::Port { status: reply.as_status(), state: reply.as_port() })
            } else {
                self.acknowledges(bus, reply.as_port(), 0)
            },
            HubGetPortStatusAt::Acknowledge { state, from } => self.acknowledges(
                bus,
                state,
                from as int,
            ),
        }
    }
}

/// Takes one step of reading the status of a hub port.
pub fn usb_hub_get_port_status(bus: &UsbBus, run: HubGetPortStatus, reply: Reply) -> (step: Step)
    requires
        bus.wf(),
    ensures
        step == run.next(*bus, reply),
{
    let (state, from): (UsbPortStatus, u8) = match run.at {
        HubGetPortStatusAt::Start => {
            return match usb_port_request(
                bus,
                UsbHubApi::Hub,
                run.interface,
                run.port,
                PortRequest::GetStatus,
            ) {
                Some(action) => Step::Act {
                    action,
                    next: Frame::HubGetPortStatus(
                        HubGetPortStatus { at: HubGetPortStatusAt::Status, ..run },
                    ),
                },
                None => Step::Done(Reply::Status(Status::InvalidParameter)),
            };
        },
        HubGetPortStatusAt::Status => {
            let status = reply.status();
            let state = reply.into_port();
            if !status.is_success() {
                return Step::Done(Reply::Port { status, state });
            }
            (state, 0)
        },
        HubGetPortStatusAt::Acknowledge { state, from } => (state, from),
    };
    let i: u8 = find_change(UsbHubApi::Hub, state.port_change_status, from);
    if i >= HUB_PORT_CHANGES {
        return Step::Done(Reply::Port { status: Status::Success, state });
    }
    match usb_port_request(
        bus,
        UsbHubApi::Hub,
        run.interface,
        run.port,
        PortRequest::ClearFeature(port_change_at(i).feature),
    ) {
        Some(action) => Step::Act {
            action,
            next: Frame::HubGetPortStatus(
                HubGetPortStatus {
                    at: HubGetPortStatusAt::Acknowledge { state, from: i + 1 },
                    ..run
                },
            ),
        },
        None => Step::Done(Reply::Port { status: Status::Success, state }),
    }
}

/// Looks at a port, then goes on with `next`. A hub device has the changes that it
/// reports acknowledged.
pub open spec fn port_look(
    bus: UsbBus,
    api: UsbHubApi,
    interface: InterfaceId,
    port: u8,
    next: Frame,
) -> Step {
    match api {
        UsbHubApi::Hub => Step::Call {
            callee: Frame::HubGetPortStatus(HubGetPortStatus::start(interface, port)),
            next,
        },
        UsbHubApi::RootHub => match port_action(bus, api, interface, port, PortRequest::GetStatus) {
            Some(action) => Step::Act { action, next },
            None => Step::Done(Reply::Status(Status::InvalidParameter)),
        },
    }
}

/// Returns the step that looks at a port.
pub fn look_at_port(bus: &UsbBus, api: UsbHubApi, interface: InterfaceId, port: u8, next: Frame) -> (step:
    Step)
    requires
        bus.wf(),
    ensures
        step == port_look(*bus, api, interface, port, next),
{
    match api {
        UsbHubApi::Hub => Step::Call {
            callee: Frame::HubGetPortStatus(HubGetPortStatus::new(interface, port)),
            next,
        },
        UsbHubApi::RootHub => match usb_port_request(bus, api, interface, port, PortRequest::GetStatus) {
            Some(action) => Step::Act { action, next },
            None => Step::Done(Reply::Status(Status::InvalidParameter)),
        },
    }
}

/// Clears all changes that a port reports.
#[derive(Clone, Copy, Debug)]
pub struct ClearPortChange {
    pub interface: InterfaceId,
    pub port: u8,
    pub at: ClearPortChangeAt,
}

#[derive(Clone, Copy, Debug)]
pub enum ClearPortChangeAt {
    Start,
    Status,
    Clear { changes: u16, from: u8 },
}

impl ClearPortChange {
    pub open spec fn start(interface: InterfaceId, port: u8) -> ClearPortChange {
        ClearPortChange { interface, port, at: ClearPortChangeAt::Start }
    }

    pub fn new(interface: InterfaceId, port: u8) -> (r: ClearPortChange)
        ensures
            r == ClearPortChange::start(interface, port),
    {
        ClearPortChange { interface, port, at: ClearPortChangeAt::Start }
    }

    /// The operation for one kind of hub.
    pub open spec fn of(self, api: UsbHubApi) -> Frame {
        match api {
            UsbHubApi::Hub => Frame::HubClearPortChange(self),
            UsbHubApi::RootHub => Frame::RootHubClearPortChange(self),
        }
    }

    /// Returns the operation for one kind of hub.
    pub fn frame(self, api: UsbHubApi) -> (r: Frame)
        ensures
            r == self.of(api),
    {
        match api {
            UsbHubApi::Hub => Frame::HubClearPortChange(self),
            UsbHubApi::RootHub => Frame::RootHubClearPortChange(self),
        }
    }

    /// Clears the next one of the changes.
    pub open spec fn clears(self, api: UsbHubApi, bus: UsbBus, changes: u16, from: int) -> Step {
        let i = next_change(api, changes, from);
        if i >= change_count(api) {
            Step::Done(Reply::Nothing)
        } else {
            match port_action(
                bus,
                api,
                self.interface,
                self.port,
                PortRequest::ClearFeature(port_change(i).feature),
            ) {
                Some(action) => Step::Act {
                    action,
                    next: (ClearPortChange {
                        at: ClearPortChangeAt::Clear { changes, from: (i + 1) as u8 },
                        ..self
                    }).of(api),
                },
                None => Step::Done(Reply::Nothing),
            }
        }
    }

    /// How the operation goes on after `reply`.
    pub open spec fn next(self, api: UsbHubApi, bus: UsbBus, reply: Reply) -> Step {
        match self.at {
            ClearPortChangeAt::Start => match port_action(
                bus,
                api,
                self.interface,
                self.port,
                PortRequest::GetStatus,
            ) {
                Some(action) => Step::Act {
                    action,
                    next: (ClearPortChange { at: ClearPortChangeAt::Status, ..self }).of(api),
                },
                None => Step::Done(Reply::Nothing),
            },
            ClearPortChangeAt::Status => if reply.as_status() != Status::Success {
                Step::Done(Reply::Nothing)
            } else {
                self.clears(api, bus, reply.as_port().port_change_status, 0)
            },
            ClearPortChangeAt::Clear { changes, from } => self.clears(api, bus, changes, from as int),
        }
    }
}

fn clear_port_change(bus: &UsbBus, api: UsbHubApi, run: ClearPortChange, reply: Reply) -> (step: Step)
    requires
        bus.wf(),
    ensures
        step == run.next(api, *bus, reply),
{
    let (changes, from): (u16, u8) = match run.at {
        ClearPortChangeAt::Start => {
            return match usb_port_request(bus, api, run.interface, run.port, PortRequest::GetStatus) {
                Some(action) => Step::Act {
                    action,
                    next: (ClearPortChange { at: ClearPortChangeAt::Status, ..run }).frame(api),
                },
                None => Step::Done(Reply::Nothing),
            };
        },
        ClearPortChangeAt::Status => {
            if !reply.status().is_success() {
                return Step::Done(Reply::Nothing);
            }
            (reply.into_port().port_change_status, 0)
        },
        ClearPortChangeAt::Clear { changes, from } => (changes, from),
    };
    let i: u8 = find_change(api, changes, from);
    if i >= count_changes(api) {
        return Step::Done(Reply::Nothing);
    }
    match usb_port_request(
        bus,
        api,
        run.interface,
        run.port,
        PortRequest::ClearFeature(port_change_at(i).feature),
    ) {
        Some(action) => Step::Act {
            action,
            next: (ClearPortChange {
                at: ClearPortChangeAt::Clear { changes, from: i + 1 },
                ..run
            }).frame(api),
        },
        None => Step::Done(Reply::Nothing),
    }
}

/// Takes one step of clearing the changes of a hub port.
pub fn usb_hub_clear_port_change(bus: &UsbBus, run: ClearPortChange, reply: Reply) -> (step: Step)
    requires
        bus.wf(),
    ensures
        step == run.next(UsbHubApi::Hub, *bus, reply),
{
    clear_port_change(bus, UsbHubApi::Hub, run, reply)
}

/// Takes one step of clearing the changes of a root-hub port.
pub fn usb_root_hub_clear_port_change(bus: &UsbBus, run: ClearPortChange, reply: Reply) -> (step: Step)
    requires
        bus.wf(),
    ensures
        step == run.next(UsbHubApi::RootHub, *bus, reply),
{
    clear_port_change(bus, UsbHubApi::RootHub, run, reply)
}

/// Resets a port of a hub device and waits until the hub reports that the reset is
/// over.
#[derive(Clone, Copy, Debug)]
pub struct HubResetPort {
    pub interface: InterfaceId,
    pub port: u8,
    pub at: HubResetPortAt,
}

#[derive(Clone, Copy, Debug)]
pub enum HubResetPortAt {
    Start,
    Begun,
    /// The port may be looked at `left` times more.
    Poll { left: usize },
    Polled { left: usize },
    Recovered,
}

impl HubResetPort {
    pub open spec fn start(interface: InterfaceId, port: u8) -> HubResetPort {
        HubResetPort { interface, port, at: HubResetPortAt::Start }
    }

    pub fn new(interface: InterfaceId, port: u8) -> (r: HubResetPort)
        ensures
            r == HubResetPort::start(interface, port),
    {
        HubResetPort { interface, port, at: HubResetPortAt::Start }
    }

    pub open spec fn to(self, at: HubResetPortAt) -> Frame {
        Frame::HubResetPort(HubResetPort { at, ..self })
    }

    /// Makes a request of the port, then goes on at `at`.
    pub open spec fn requests(self, bus: UsbBus, request: PortRequest, at: HubResetPortAt) -> Step {
        match port_action(bus, UsbHubApi::Hub, self.interface, self.port, request) {
            Some(action) => Step::Act { action, next: self.to(at) },
            None => Step::Done(Reply::Status(Status::InvalidParameter)),
        }
    }

    /// How the operation goes on after `reply`.
    pub open spec fn next(self, bus: UsbBus, reply: Reply) -> Step {
        let status = reply.as_status();
        match self.at {
            HubResetPortAt::Start => self.requests(
                bus,
                PortRequest::SetFeature(UsbPortFeature::Reset),
                HubResetPortAt::Begun,
            ),
            HubResetPortAt::Begun => if status != Status::Success {
                Step::Done(Reply::Status(status))
            } else {
                Step::Act {
                    action: Action::Stall { micros: USB_SET_PORT_RESET_STALL },
                    next: self.to(HubResetPortAt::Poll { left: USB_WAIT_PORT_STS_CHANGE_LOOP }),
                }
            },
            HubResetPortAt::Poll { left } => if left == 0 {
                Step::Done(Reply::Status(Status::Timeout))
            } else {
                port_look(
                    bus,
                    UsbHubApi::Hub,
                    self.interface,
                    self.port,
                    self.to(HubResetPortAt::Polled { left: (left - 1) as usize }),
                )
            },
            HubResetPortAt::Polled { left } => if status != Status::Success {
                Step::Done(Reply::Status(status))
            } else if reply.as_port().port_change_status & USB_PORT_STAT_C_RESET != 0 {
                Step::Act {
                    action: Action::Stall { micros: USB_SET_PORT_RECOVERY_STALL },
                    next: self.to(HubResetPortAt::Recovered),
                }
            } else {
                Step::Act {
                    action: Action::Stall { micros: USB_WAIT_PORT_STS_CHANGE_STALL },
                    next: self.to(HubResetPortAt::Poll { left }),
                }
            },
            HubResetPortAt::Recovered => Step::Done(Reply::Status(Status::Success)),
        }
    }

    fn request(self, bus: &UsbBus, request: PortRequest, at: HubResetPortAt) -> (step: Step)
        requires
            bus.wf(),
        ensures
            step == self.requests(*bus, request, at),
    {
        match usb_port_request(bus, UsbHubApi::Hub, self.interface, self.port, request) {
            Some(action) => Step::Act { action, next: Frame::HubResetPort(HubResetPort { at, ..self }) },
            None => Step::Done(Reply::Status(Status::InvalidParameter)),
        }
    }
}

/// Takes one step of resetting a hub port.
pub fn usb_hub_reset_port(bus: &UsbBus, run: HubResetPort, reply: Reply) -> (step: Step)
    requires
        bus.wf(),
    ensures
        step == run.next(*bus, reply),
{
    let status = reply.status();
    match run.at {
        HubResetPortAt::Start => run.request(
            bus,
            PortRequest::SetFeature(UsbPortFeature::Reset),
            HubResetPortAt::Begun,
        ),
        HubResetPortAt::Begun => if !status.is_success() {
            Step::Done(Reply::Status(status))
        } else {
            Step::Act {
                action: Action::Stall { micros: USB_SET_PORT_RESET_STALL },
                next: Frame::HubResetPort(
                    HubResetPort {
                        at: HubResetPortAt::Poll { left: USB_WAIT_PORT_STS_CHANGE_LOOP },
                        ..run
                    },
                ),
            }
        },
        HubResetPortAt::Poll { left } => if left == 0 {
            Step::Done(Reply::Status(Status::Timeout))
        } else {
            look_at_port(
                bus,
                UsbHubApi::Hub,
                run.interface,
                run.port,
                Frame::HubResetPort(
                    HubResetPort { at: HubResetPortAt::Polled { left: left - 1 }, ..run },
                ),
            )
        },
        HubResetPortAt::Polled { left } => if !status.is_success() {
            Step::Done(Reply::Status(status))
        } else if reply.into_port().port_change_status & USB_PORT_STAT_C_RESET != 0 {
            Step::Act {
                action: Action::Stall { micros: USB_SET_PORT_RECOVERY_STALL },
                next: Frame::HubResetPort(HubResetPort { at: HubResetPortAt::Recovered, ..run }),
            }
        } else {
            Step::Act {
                action: Action::Stall { micros: USB_WAIT_PORT_STS_CHANGE_STALL },
                next: Frame::HubResetPort(HubResetPort { at: HubResetPortAt::Poll { left }, ..run }),
            }
        },
        HubResetPortAt::Recovered => Step::Done(Reply::Status(Status::Success)),
    }
}

/// Resets a root-hub port, waits until the reset is over and enables the port.
#[derive(Clone, Copy, Debug)]
pub struct RootHubResetPort {
    pub interface: InterfaceId,
    pub port: u8,
    pub at: RootHubResetPortAt,
}

#[derive(Clone, Copy, Debug)]
pub enum RootHubResetPortAt {
    Start,
    Begun,
    Driven,
    Cleared,
    /// The port may be looked at `left` times more.
    Poll { left: usize },
    Polled { left: usize },
    Owned,
    Enabled,
    Finished,
}

impl RootHubResetPort {
    pub open spec fn start(interface: InterfaceId, port: u8) -> RootHubResetPort {
        RootHubResetPort { interface, port, at: RootHubResetPortAt::Start }
    }

    pub fn new(interface: InterfaceId, port: u8) -> (r: RootHubResetPort)
        ensures
            r == RootHubResetPort::start(interface, port),
    {
        RootHubResetPort { interface, port, at: RootHubResetPortAt::Start }
    }

    pub open spec fn to(self, at: RootHubResetPortAt) -> Frame {
        Frame::RootHubResetPort(RootHubResetPort { at, ..self })
    }

    /// Makes a request of the port, then goes on at `at`.
    pub open spec fn requests(self, bus: UsbBus, request: PortRequest, at: RootHubResetPortAt) -> Step {
        match port_action(bus, UsbHubApi::RootHub, self.interface, self.port, request) {
            Some(action) => Step::Act { action, next: self.to(at) },
            None => Step::Done(Reply::Status(Status::InvalidParameter)),
        }
    }

    /// Waits, then goes on at `at`, unless `status` is not a success.
    pub open spec fn stalls(self, status: Status, micros: u64, at: RootHubResetPortAt) -> Step {
        if status != Status::Success {
            Step::Done(Reply::Status(status))
        } else {
            Step::Act { action: Action::Stall { micros }, next: self.to(at) }
        }
    }

    /// How the operation goes on after `reply`. A port that is not enabled after the
    /// reset goes to the companion of a high-speed controller, and is enabled by hand
    /// on any other controller.
    pub open spec fn next(self, bus: UsbBus, reply: Reply) -> Step {
        let status = reply.as_status();
        let state = reply.as_port().port_status;
        match self.at {
            RootHubResetPortAt::Start => self.requests(
                bus,
                PortRequest::SetFeature(UsbPortFeature::Reset),
                RootHubResetPortAt::Begun,
            ),
            RootHubResetPortAt::Begun => self.stalls(
                status,
                USB_SET_ROOT_PORT_RESET_STALL,
                RootHubResetPortAt::Driven,
            ),
            RootHubResetPortAt::Driven => self.requests(
                bus,
                PortRequest::ClearFeature(UsbPortFeature::Reset),
                RootHubResetPortAt::Cleared,
            ),
            RootHubResetPortAt::Cleared => self.stalls(
                status,
                USB_CLR_ROOT_PORT_RESET_STALL,
                RootHubResetPortAt::Poll { left: USB_WAIT_PORT_STS_CHANGE_LOOP },
            ),
            RootHubResetPortAt::Poll { left } => if left == 0 {
                Step::Done(Reply::Status(Status::Timeout))
            } else {
                self.requests(
                    bus,
                    PortRequest::GetStatus,
                    RootHubResetPortAt::Polled { left: (left - 1) as usize },
                )
            },
            RootHubResetPortAt::Polled { left } => if status != Status::Success {
                Step::Done(Reply::Status(status))
            } else if state & USB_PORT_STAT_RESET != 0 {
                self.stalls(status, USB_WAIT_PORT_STS_CHANGE_STALL, RootHubResetPortAt::Poll { left })
            } else if state & USB_PORT_STAT_ENABLE != 0 {
                Step::Done(Reply::Status(Status::Success))
            } else {
                match bus.interface(self.interface) {
                    Some(hub) => if hub.max_speed == EFI_USB_SPEED_HIGH {
                        self.requests(
                            bus,
                            PortRequest::SetFeature(UsbPortFeature::Owner),
                            RootHubResetPortAt::Owned,
                        )
                    } else {
                        self.requests(
                            bus,
                            PortRequest::SetFeature(UsbPortFeature::Enable),
                            RootHubResetPortAt::Enabled,
                        )
                    },
                    None => Step::Done(Reply::Status(Status::InvalidParameter)),
                }
            },
            RootHubResetPortAt::Owned => Step::Done(Reply::Status(Status::NotFound)),
            RootHubResetPortAt::Enabled => self.stalls(
                status,
                USB_SET_ROOT_PORT_ENABLE_STALL,
                RootHubResetPortAt::Finished,
            ),
            RootHubResetPortAt::Finished => Step::Done(Reply::Status(Status::Success)),
        }
    }

    fn request(self, bus: &UsbBus, request: PortRequest, at: RootHubResetPortAt) -> (step: Step)
        requires
            bus.wf(),
        ensures
            step == self.requests(*bus, request, at),
    {
        match usb_port_request(bus, UsbHubApi::RootHub, self.interface, self.port, request) {
            Some(action) => Step::Act {
                action,
                next: Frame::RootHubResetPort(RootHubResetPort { at, ..self }),
            },
            None => Step::Done(Reply::Status(Status::InvalidParameter)),
        }
    }

    fn stall(self, status: Status, micros: u64, at: RootHubResetPortAt) -> (step: Step)
        ensures
            step == self.stalls(status, micros, at),
    {
        if !status.is_success() {
            Step::Done(Reply::Status(status))
        } else {
            Step::Act {
                action: Action::Stall { micros },
                next: Frame::RootHubResetPort(RootHubResetPort { at, ..self }),
            }
        }
    }
}

/// Takes one step of resetting a root-hub port.
pub fn usb_root_hub_reset_port(bus: &UsbBus, run: RootHubResetPort, reply: Reply) -> (step: Step)
    requires
        bus.wf(),
    ensures
        step == run.next(*bus, reply),
{
    let status = reply.status();
    match run.at {
        RootHubResetPortAt::Start => run.request(
            bus,
            PortRequest::SetFeature(UsbPortFeature::Reset),
            RootHubResetPortAt::Begun,
        ),
        RootHubResetPortAt::Begun => run.stall(
            status,
            USB_SET_ROOT_PORT_RESET_STALL,
            RootHubResetPortAt::Driven,
        ),
        RootHubResetPortAt::Driven => run.request(
            bus,
            PortRequest::ClearFeature(UsbPortFeature::Reset),
            RootHubResetPortAt::Cleared,
        ),
        RootHubResetPortAt::Cleared => run.stall(
            status,
            USB_CLR_ROOT_PORT_RESET_STALL,
            RootHubResetPortAt::Poll { left: USB_WAIT_PORT_STS_CHANGE_LOOP },
        ),
        RootHubResetPortAt::Poll { left } => if left == 0 {
            Step::Done(Reply::Status(Status::Timeout))
        } else {
            run.request(bus, PortRequest::GetStatus, RootHubResetPortAt::Polled { left: left - 1 })
        },
        RootHubResetPortAt::Polled { left } => {
            if !status.is_success() {
                return Step::Done(Reply::Status(status));
            }
            let state: u16 = reply.into_port().port_status;
            if state & USB_PORT_STAT_RESET != 0 {
                return run.stall(
                    status,
                    USB_WAIT_PORT_STS_CHANGE_STALL,
                    RootHubResetPortAt::Poll { left },
                );
            }
            if state & USB_PORT_STAT_ENABLE != 0 {
                return Step::Done(Reply::Status(Status::Success));
            }
            match bus.get_interface(run.interface) {
                Some(hub) => if hub.max_speed == EFI_USB_SPEED_HIGH {
                    run.request(
                        bus,
                        PortRequest::SetFeature(UsbPortFeature::Owner),
                        RootHubResetPortAt::Owned,
                    )
                } else {
                    run.request(
                        bus,
                        PortRequest::SetFeature(UsbPortFeature::Enable),
                        RootHubResetPortAt::Enabled,
                    )
                },
                None => Step::Done(Reply::Status(Status::InvalidParameter)),
            }
        },
        RootHubResetPortAt::Owned => Step::Done(Reply::Status(Status::NotFound)),
        RootHubResetPortAt::Enabled => run.stall(
            status,
            USB_SET_ROOT_PORT_ENABLE_STALL,
            RootHubResetPortAt::Finished,
        ),
        RootHubResetPortAt::Finished => Step::Done(Reply::Status(Status::Success)),
    }
}

/// The next reported change is reported, and none before it is.
pub proof fn lemma_next_change(api: UsbHubApi, changes: u16, from: int)
    requires
        0 <= from,
    ensures
        from <= next_change(api, changes, from),
        next_change(api, changes, from) <= change_count(api) || next_change(api, changes, from) == from,
        next_change(api, changes, from) < change_count(api) ==> changes & port_change(
            next_change(api, changes, from),
        ).changed_bit != 0,
        forall|i: int|
            from <= i < next_change(api, changes, from) ==> changes & (#[trigger] port_change(
                i,
            )).changed_bit == 0,
    decreases change_count(api) - from,
{
    if from < change_count(api) && changes & port_change(from).changed_bit == 0 {
        lemma_next_change(api, changes, from + 1);
    }
}

/// The indices of the changes that are reported in `changes`, from an index on.
pub open spec fn reported(api: UsbHubApi, changes: u16, from: int) -> Seq<int>
    decreases change_count(api) - from,
{
    if from >= change_count(api) {
        Seq::empty()
    } else if changes & port_change(from).changed_bit != 0 {
        seq![from] + reported(api, changes, from + 1)
    } else {
        reported(api, changes, from + 1)
    }
}

/// The list of reported changes holds each reported change once and in order, and no
/// other.
pub proof fn reported_changes_are_listed_once(api: UsbHubApi, changes: u16, from: int)
    requires
        0 <= from,
    ensures
        forall|i: int|
            reported(api, changes, from).contains(i) <==> (from <= i < change_count(api) && changes & (
            #[trigger] port_change(i)).changed_bit != 0),
        forall|j: int, k: int|
            0 <= j < k < reported(api, changes, from).len() ==> reported(api, changes, from)[j]
                < reported(api, changes, from)[k],
    decreases change_count(api) - from,
{
    let all = reported(api, changes, from);
    if from < change_count(api) {
        let rest = reported(api, changes, from + 1);
        reported_changes_are_listed_once(api, changes, from + 1);
        assert forall|j: int| 0 <= j < rest.len() implies rest[j] > from by {
            assert(rest.contains(rest[j]));
            assert(changes & port_change(rest[j]).changed_bit != 0);
        }
        if changes & port_change(from).changed_bit != 0 {
            assert(all == seq![from] + rest);
            assert(all[0] == from);
            assert forall|m: int|
                all.contains(m) <==> (from <= m < change_count(api) && changes & (#[trigger] port_change(
                    m,
                )).changed_bit != 0) by {
                if all.contains(m) {
                    let k = choose|k: int| 0 <= k < all.len() && all[k] == m;
                    if k > 0 {
                        assert(rest[k - 1] == m);
                        assert(rest.contains(m));
                    }
                }
                if rest.contains(m) {
                    let k = choose|k: int| 0 <= k < rest.len() && rest[k] == m;
                    assert(all[k + 1] == m);
                }
            }
        }
    }
}

proof fn lemma_reported_skips(api: UsbHubApi, changes: u16, from: int)
    requires
        0 <= from,
    ensures
        ({
            let i = next_change(api, changes, from);
            reported(api, changes, from) == (if i < change_count(api) {
                seq![i] + reported(api, changes, i + 1)
            } else {
                Seq::empty()
            })
        }),
    decreases change_count(api) - from,
{
    if from < change_count(api) && changes & port_change(from).changed_bit == 0 {
        lemma_reported_skips(api, changes, from + 1);
    }
}

impl ClearPortChange {
    /// The indices of the changes that the operation clears from its present state
    /// until it is done, whatever the hub answers.
    pub open spec fn clears_all(self, api: UsbHubApi, bus: UsbBus, changes: u16, from: int) -> Seq<int>
        decreases change_count(api) - from,
    {
        let i = next_change(api, changes, from);
        if from < 0 || i < from || i >= change_count(api) || !(self.clears(api, bus, changes, from) is Act) {
            Seq::empty()
        } else {
            seq![i] + self.clears_all(api, bus, changes, i + 1)
        }
    }
}

/// Every change that a port reports is cleared, in order and once, and no other.
pub proof fn exactly_the_reported_changes_are_cleared(
    run: ClearPortChange,
    api: UsbHubApi,
    bus: UsbBus,
    changes: u16,
    from: int,
)
    requires
        bus.interface(run.interface) is Some,
        0 <= from,
    ensures
        run.clears_all(api, bus, changes, from) == reported(api, changes, from),
    decreases change_count(api) - from,
{
    let i = next_change(api, changes, from);
    lemma_next_change(api, changes, from);
    lemma_reported_skips(api, changes, from);
    if i < change_count(api) {
        exactly_the_reported_changes_are_cleared(run, api, bus, changes, i + 1);
    }
}

impl HubGetPortStatus {
    /// The indices of the changes that the operation acknowledges from an index on,
    /// and what it returns in the end, whatever the hub answers.
    pub open spec fn acknowledges_all(self, bus: UsbBus, state: UsbPortStatus, from: int) -> (Seq<int>, Step)
        decreases change_count(UsbHubApi::Hub) - from,
    {
        let i = next_change(UsbHubApi::Hub, state.port_change_status, from);
        let step = self.acknowledges(bus, state, from);
        if from < 0 || i < from || i >= change_count(UsbHubApi::Hub) || !(step is Act) {
            (Seq::empty(), step)
        } else {
            let (rest, last) = self.acknowledges_all(bus, state, i + 1);
            (seq![i] + rest, last)
        }
    }
}

/// Every change that a hub reports for a port is acknowledged when the status of the
/// port is read, in order and once, and no other; the status is returned as it was
/// read.
pub proof fn exactly_the_reported_changes_are_acknowledged(
    run: HubGetPortStatus,
    bus: UsbBus,
    state: UsbPortStatus,
    from: int,
)
    requires
        bus.interface(run.interface) is Some,
        0 <= from,
    ensures
        run.acknowledges_all(bus, state, from) == (
            reported(UsbHubApi::Hub, state.port_change_status, from),
            Step::Done(Reply::Port { status: Status::Success, state }),
        ),
    decreases change_count(UsbHubApi::Hub) - from,
{
    let changes = state.port_change_status;
    let i = next_change(UsbHubApi::Hub, changes, from);
    lemma_next_change(UsbHubApi::Hub, changes, from);
    lemma_reported_skips(UsbHubApi::Hub, changes, from);
    if i < change_count(UsbHubApi::Hub) {
        exactly_the_reported_changes_are_acknowledged(run, bus, state, i + 1);
    }
}

/// A look at a port in reset settles the matter: it failed, or the reset is over.
pub open spec fn reset_decided(api: UsbHubApi) -> spec_fn(Reply) -> bool {
    |look: Reply|
        look.as_status() != Status::Success || match api {
            UsbHubApi::Hub => look.as_port().port_change_status & USB_PORT_STAT_C_RESET != 0,
            UsbHubApi::RootHub => look.as_port().port_status & USB_PORT_STAT_RESET == 0,
        }
}

impl HubResetPort {
    /// What the operation does after looking at the port as often as there are
    /// `looks`, each with its outcome, and waiting in between.
    pub open spec fn after_looks(self, bus: UsbBus, looks: Seq<Reply>) -> Step
        decreases looks.len(),
    {
        match self.next(bus, Reply::Nothing) {
            Step::Call { callee, next: Frame::HubResetPort(polled) } => if looks.len() == 0 {
                Step::Call { callee, next: Frame::HubResetPort(polled) }
            } else {
                match polled.next(bus, looks[0]) {
                    Step::Act { next: Frame::HubResetPort(again), .. } => again.after_looks(
                        bus,
                        looks.drop_first(),
                    ),
                    step => step,
                }
            },
            step => step,
        }
    }
}

impl RootHubResetPort {
    /// What the operation does after looking at the port as often as there are
    /// `looks`, each with its outcome, and waiting in between.
    pub open spec fn after_looks(self, bus: UsbBus, looks: Seq<Reply>) -> Step
        decreases looks.len(),
    {
        match self.next(bus, Reply::Nothing) {
            Step::Act { action, next: Frame::RootHubResetPort(polled) } => if looks.len() == 0 {
                Step::Act { action, next: Frame::RootHubResetPort(polled) }
            } else {
                match polled.next(bus, looks[0]) {
                    Step::Act {
                        next: Frame::RootHubResetPort(again),
                        action: Action::Stall { micros },
                    } => again.after_looks(bus, looks.drop_first()),
                    step => step,
                }
            },
            step => step,
        }
    }
}

/// The reset of a hub port ends at the first look that settles it, among as many
/// looks as are allowed: with the status of that look if it failed, and with success
/// otherwise. Without such a look it ends in a timeout when no look is left.
pub proof fn hub_reset_ends_at_the_first_decisive_look(
    run: HubResetPort,
    bus: UsbBus,
    looks: Seq<Reply>,
    left: usize,
)
    requires
        run.at == (HubResetPortAt::Poll { left }),
        looks.len() <= left,
    ensures
        match first_index(looks, reset_decided(UsbHubApi::Hub)) {
            Some(i) => run.after_looks(bus, looks) == Step::Done(Reply::Status(looks[i].as_status())),
            None => if looks.len() == left {
                run.after_looks(bus, looks) == Step::Done(Reply::Status(Status::Timeout))
            } else {
                run.after_looks(bus, looks) matches Step::Call { callee, .. } && callee
                    == Frame::HubGetPortStatus(HubGetPortStatus::start(run.interface, run.port))
            },
        },
    decreases looks.len(),
{
    reveal_with_fuel(HubResetPort::after_looks, 2);
    let p = reset_decided(UsbHubApi::Hub);
    if looks.len() > 0 {
        lemma_first_index_cons(looks, p);
        if !p(looks[0]) {
            let again = HubResetPort { at: HubResetPortAt::Poll { left: (left - 1) as usize }, ..run };
            hub_reset_ends_at_the_first_decisive_look(
                again,
                bus,
                looks.drop_first(),
                (left - 1) as usize,
            );
            match first_index(looks.drop_first(), p) {
                Some(i) => {
                    first_index_is_first(looks.drop_first(), p);
                    assert(looks.drop_first()[i] == looks[i + 1]);
                },
                None => {},
            }
        }
    }
}

/// The reset of a root-hub port waits in the same way. At the first look that
/// settles it, a look that failed gives its status, an enabled port gives success,
/// and a port that is not enabled is given to the companion controller or enabled.
pub proof fn root_hub_reset_ends_at_the_first_decisive_look(
    run: RootHubResetPort,
    bus: UsbBus,
    looks: Seq<Reply>,
    left: usize,
)
    requires
        bus.interface(run.interface) is Some,
        run.at == (RootHubResetPortAt::Poll { left }),
        looks.len() <= left,
    ensures
        match first_index(looks, reset_decided(UsbHubApi::RootHub)) {
            Some(i) => {
                let look = looks[i];
                let step = run.after_looks(bus, looks);
                if look.as_status() != Status::Success {
                    step == Step::Done(Reply::Status(look.as_status()))
                } else if look.as_port().port_status & USB_PORT_STAT_ENABLE != 0 {
                    step == Step::Done(Reply::Status(Status::Success))
                } else {
                    step matches Step::Act { action, .. } && action == (Action::SetRootHubPortFeature {
                        port: run.port,
                        feature: if bus.interface(run.interface)->0.max_speed == EFI_USB_SPEED_HIGH {
                            UsbPortFeature::Owner
                        } else {
                            UsbPortFeature::Enable
                        },
                    })
                }
            },
            None => if looks.len() == left {
                run.after_looks(bus, looks) == Step::Done(Reply::Status(Status::Timeout))
            } else {
                run.after_looks(bus, looks) matches Step::Act { action, .. } && action == (
                Action::GetRootHubPortStatus { port: run.port })
            },
        },
    decreases looks.len(),
{
    reveal_with_fuel(RootHubResetPort::after_looks, 2);
    let p = reset_decided(UsbHubApi::RootHub);
    if looks.len() > 0 {
        lemma_first_index_cons(looks, p);
        if !p(looks[0]) {
            let again = RootHubResetPort {
                at: RootHubResetPortAt::Poll { left: (left - 1) as usize },
                ..run
            };
            root_hub_reset_ends_at_the_first_decisive_look(
                again,
                bus,
                looks.drop_first(),
                (left - 1) as usize,
            );
            match first_index(looks.drop_first(), p) {
                Some(i) => {
                    first_index_is_first(looks.drop_first(), p);
                    assert(looks.drop_first()[i] == looks[i + 1]);
                },
                None => {},
            }
        }
    }
}

/// The operation that resets a port, for one kind of hub.
pub open spec fn port_reset(api: UsbHubApi, interface: InterfaceId, port: u8) -> Frame {
    match api {
        UsbHubApi::Hub => Frame::HubResetPort(HubResetPort::start(interface, port)),
        UsbHubApi::RootHub => Frame::RootHubResetPort(RootHubResetPort::start(interface, port)),
    }
}

/// Returns the operation that resets a port.
pub fn reset_port(api: UsbHubApi, interface: InterfaceId, port: u8) -> (r: Frame)
    ensures
        r == port_reset(api, interface, port),
{
    match api {
        UsbHubApi::Hub => Frame::HubResetPort(HubResetPort::new(interface, port)),
        UsbHubApi::RootHub => Frame::RootHubResetPort(RootHubResetPort::new(interface, port)),
    }
}

} // verus!
