//! Calls of the USB I/O services, by drivers and by the hubs of the bus itself. They
//! run at the task priority level of the bus.

use crate::status::Status;
use crate::task::{Action, Course, Frame, Reply, Step};
use crate::usb_bus_defs::{InterfaceId, UsbBus, USB_BUS_TPL};
use crate::usb_hub::usb_endpoint_addr;
use crate::usb_io_impl::{
    IoAsyncInterruptTransfer, IoControlTransfer, IoEndpointTransfer, IoGetStringDescriptor, IoPortReset,
};
use vstd::prelude::*;

verus! {

/// An operation of the USB I/O services.
#[derive(Clone, Copy, Debug)]
pub enum IoOperation {
    ControlTransfer(IoControlTransfer),
    BulkTransfer(IoEndpointTransfer),
    SyncInterruptTransfer(IoEndpointTransfer),
    AsyncInterruptTransfer(IoAsyncInterruptTransfer),
    GetStringDescriptor(IoGetStringDescriptor),
    PortReset(IoPortReset),
}

/// No endpoint besides the control endpoint has this address.
pub open spec fn is_bad_endpoint(endpoint_address: u8) -> bool {
    endpoint_address % 128 == 0 || endpoint_address % 128 > 15
}

fn check_endpoint(endpoint_address: u8) -> (r: bool)
    ensures
        r == is_bad_endpoint(endpoint_address),
{
    let number: u8 = usb_endpoint_addr(endpoint_address);
    number == 0 || number > 15
}

impl IoOperation {
    /// The operation as it runs.
    pub open spec fn as_frame(self) -> Frame {
        match self {
            IoOperation::ControlTransfer(run) => Frame::IoControlTransfer(run),
            IoOperation::BulkTransfer(run) => Frame::IoBulkTransfer(run),
            IoOperation::SyncInterruptTransfer(run) => Frame::IoSyncInterruptTransfer(run),
            IoOperation::AsyncInterruptTransfer(run) => Frame::IoAsyncInterruptTransfer(run),
            IoOperation::GetStringDescriptor(run) => Frame::IoGetStringDescriptor(run),
            IoOperation::PortReset(run) => Frame::IoPortReset(run),
        }
    }

    /// The interface whose services are called.
    pub open spec fn of_interface(self) -> InterfaceId {
        match self {
            IoOperation::ControlTransfer(run) => run.interface,
            IoOperation::BulkTransfer(run) => run.interface,
            IoOperation::SyncInterruptTransfer(run) => run.interface,
            IoOperation::AsyncInterruptTransfer(run) => run.interface,
            IoOperation::GetStringDescriptor(run) => run.interface,
            IoOperation::PortReset(run) => run.interface,
        }
    }

    /// Why a call is refused before the priority is raised: a string or an endpoint
    /// that cannot exist, or an interface that is not there.
    pub open spec fn refused(self, bus: UsbBus) -> Option<Status> {
        let gone = bus.interface(self.of_interface()) is None;
        match self {
            IoOperation::GetStringDescriptor(run) if run.string_index == 0 || run.language_id == 0 => Some(
                Status::NotFound,
            ),
            IoOperation::BulkTransfer(run) if is_bad_endpoint(run.endpoint) => Some(
                Status::InvalidParameter,
            ),
            IoOperation::SyncInterruptTransfer(run) if is_bad_endpoint(run.endpoint) => Some(
                Status::InvalidParameter,
            ),
            IoOperation::AsyncInterruptTransfer(run) if is_bad_endpoint(run.endpoint) => Some(
                Status::InvalidParameter,
            ),
            _ => if gone {
                Some(Status::InvalidParameter)
            } else {
                None
            },
        }
    }

    /// Returns the operation as it runs.
    pub fn frame(self) -> (r: Frame)
        ensures
            r == self.as_frame(),
    {
        match self {
            IoOperation::ControlTransfer(run) => Frame::IoControlTransfer(run),
            IoOperation::BulkTransfer(run) => Frame::IoBulkTransfer(run),
            IoOperation::SyncInterruptTransfer(run) => Frame::IoSyncInterruptTransfer(run),
            IoOperation::AsyncInterruptTransfer(run) => Frame::IoAsyncInterruptTransfer(run),
            IoOperation::GetStringDescriptor(run) => Frame::IoGetStringDescriptor(run),
            IoOperation::PortReset(run) => Frame::IoPortReset(run),
        }
    }

    fn refusal(self, bus: &UsbBus) -> (r: Option<Status>)
        requires
            bus.wf(),
        ensures
            r == self.refused(*bus),
    {
        let interface = match self {
            IoOperation::ControlTransfer(run) => run.interface,
            IoOperation::BulkTransfer(run) | IoOperation::SyncInterruptTransfer(run) => {
                if check_endpoint(run.endpoint) {
                    return Some(Status::InvalidParameter);
                }
                run.interface
            },
            IoOperation::AsyncInterruptTransfer(run) => {
                if check_endpoint(run.endpoint) {
                    return Some(Status::InvalidParameter);
                }
                run.interface
            },
            IoOperation::GetStringDescriptor(run) => {
                if run.string_index == 0 || run.language_id == 0 {
                    return Some(Status::NotFound);
                }
                run.interface
            },
            IoOperation::PortReset(run) => run.interface,
        };
        match bus.get_interface(interface) {
            Some(_) => None,
            None => Some(Status::InvalidParameter),
        }
    }
}

/// Calls an operation of the USB I/O services at the priority of the bus.
#[derive(Debug)]
pub struct IoCall {
    pub operation: IoOperation,
    pub at: IoCallAt,
}

#[derive(Debug)]
pub enum IoCallAt {
    Start,
    Raised,
    /// The operation runs; the priority was `level` before.
    Running { level: usize },
    Lowered { answer: Reply },
}

impl IoCall {
    pub open spec fn start(operation: IoOperation) -> IoCall {
        IoCall { operation, at: IoCallAt::Start }
    }

    pub fn new(operation: IoOperation) -> (r: IoCall)
        ensures
            r == IoCall::start(operation),
    {
        IoCall { operation, at: IoCallAt::Start }
    }

    /// How the call goes on after `reply`. Its answer is that of the operation.
    pub open spec fn next(self, bus: UsbBus, reply: Reply) -> Step {
        let operation = self.operation;
        match self.at {
            IoCallAt::Start => match operation.refused(bus) {
                Some(status) => Step::Done(Reply::Status(status)),
                None => Step::Act {
                    action: Action::RaiseTpl { to: USB_BUS_TPL },
                    next: Frame::IoCall(IoCall { operation, at: IoCallAt::Raised }),
                },
            },
            IoCallAt::Raised => Step::Call {
                callee: operation.as_frame(),
                next: Frame::IoCall(
                    IoCall { operation, at: IoCallAt::Running { level: reply.as_level() } },
                ),
            },
            IoCallAt::Running { level } => Step::Act {
                action: Action::RestoreTpl { level },
                next: Frame::IoCall(IoCall { operation, at: IoCallAt::Lowered { answer: reply } }),
            },
            IoCallAt::Lowered { answer } => Step::Done(answer),
        }
    }
}

/// Takes one step of a call of the USB I/O services.
pub fn usb_io_call(bus: &UsbBus, run: IoCall, reply: Reply) -> (step: Step)
    requires
        bus.wf(),
    ensures
        step == run.next(*bus, reply),
{
    let operation = run.operation;
    match run.at {
        IoCallAt::Start => match operation.refusal(bus) {
            Some(status) => Step::Done(Reply::Status(status)),
            None => Step::Act {
                action: Action::RaiseTpl { to: USB_BUS_TPL },
                next: Frame::IoCall(IoCall { operation, at: IoCallAt::Raised }),
            },
        },
        IoCallAt::Raised => Step::Call {
            callee: operation.frame(),
            next: Frame::IoCall(IoCall { operation, at: IoCallAt::Running { level: reply.level() } }),
        },
        IoCallAt::Running { level } => Step::Act {
            action: Action::RestoreTpl { level },
            next: Frame::IoCall(IoCall { operation, at: IoCallAt::Lowered { answer: reply } }),
        },
        IoCallAt::Lowered { answer } => Step::Done(answer),
    }
}

/// Every call that is not refused at once raises the priority to that of the bus, runs
/// its operation, restores the priority that was there before, and answers what the
/// operation answered.
pub proof fn a_call_runs_at_the_priority_of_the_bus(course: Course, operation: IoOperation, bus: UsbBus)
    requires
        course.is_of(Frame::IoCall(IoCall::start(operation)), bus, Reply::Nothing),
    ensures
        match operation.refused(bus) {
            Some(status) => course == (Course::Done { bus, answer: Reply::Status(status) }),
            None => {
                &&& course matches Course::Act { action: raise, outcome, rest: raised, .. }
                &&& raise == (Action::RaiseTpl { to: USB_BUS_TPL })
                &&& *raised matches Course::Call { callee, called, rest: over, .. }
                &&& callee == operation.as_frame()
                &&& called.is_of(callee, bus, Reply::Nothing)
                &&& *over matches Course::Act { action: restore, .. }
                &&& restore == (Action::RestoreTpl { level: outcome.as_level() })
                &&& course.last_answer() == called.last_answer()
                &&& course.last_bus() == called.last_bus()
            },
        },
{
    reveal_with_fuel(Course::is_of, 5);
    reveal_with_fuel(Course::last_answer, 5);
    reveal_with_fuel(Course::last_bus, 5);
}

} // verus!
