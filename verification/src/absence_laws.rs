//! Laws of what has gone: operations on a device or an interface that is not there.

use crate::hub_port::HubGetPortStatusAt;
use crate::status::Status;
use crate::task::{Frame, Reply, Step};
use crate::usb_bus_defs::UsbBus;
use crate::usb_io_impl::{IoControlTransferAt, IoEndpointTransferAt};
use vstd::prelude::*;

verus! {

/// An operation ends with an invalid parameter and changes nothing.
pub open spec fn is_refused(pre: UsbBus, post: UsbBus, step: Step) -> bool {
    post == pre && step == Step::Done(Reply::Status(Status::InvalidParameter))
}

/// An operation ends with the given answer and changes nothing.
pub open spec fn ends_with(pre: UsbBus, post: UsbBus, step: Step, answer: Reply) -> bool {
    post == pre && step == Step::Done(answer)
}

/// Operations on a device that is not there change nothing. They are refused; only reading
/// a text or bytes gives none, and a refresh has no answer.
pub proof fn a_device_that_has_gone_is_left_alone(
    frame: Frame,
    pre: UsbBus,
    reply: Reply,
    post: UsbBus,
    step: Step,
)
    requires
        pre.wf(),
        frame.goes_on(pre, reply, post, step),
    ensures
        match frame {
            Frame::GetMaxPacketSize0(run) => pre.devices@[run.device as int] is None ==> is_refused(
                pre,
                post,
                step,
            ),
            Frame::GetDevDesc(run) => pre.devices@[run.device as int] is None ==> is_refused(
                pre,
                post,
                step,
            ),
            Frame::BuildLangTable(run) => pre.devices@[run.device as int] is None ==> is_refused(
                pre,
                post,
                step,
            ),
            Frame::BuildDescTable(run) => pre.devices@[run.device as int] is None ==> is_refused(
                pre,
                post,
                step,
            ),
            Frame::GetOneString(run) => pre.devices@[run.device as int] is None ==> ends_with(
                pre,
                post,
                step,
                Reply::Text(None),
            ),
            Frame::GetOneConfig(run) => pre.devices@[run.device as int] is None ==> ends_with(
                pre,
                post,
                step,
                Reply::Bytes(None),
            ),
            Frame::UpdateDescriptors(run) => pre.devices@[run.device as int] is None ==> ends_with(
                pre,
                post,
                step,
                Reply::Nothing,
            ),
            Frame::HubReadDesc(run) => pre.devices@[run.device as int] is None ==> ends_with(
                pre,
                post,
                step,
                Reply::Bytes(None),
            ),
            Frame::HubAckHubStatus(run) => pre.devices@[run.device as int] is None ==> is_refused(
                pre,
                post,
                step,
            ),
            Frame::SelectConfig(run) => pre.devices@[run.device as int] is None ==> is_refused(
                pre,
                post,
                step,
            ),
            Frame::RemoveConfig(run) => pre.devices@[run.device as int] is None ==> is_refused(
                pre,
                post,
                step,
            ),
            Frame::RemoveDevice(run) => pre.devices@[run.device as int] is None ==> is_refused(
                pre,
                post,
                step,
            ),
            Frame::EnumerateNewDevice(run) => (run.at is Port || run.at is Addressed)
                && pre.devices@[run.hub.device as int] is None ==> is_refused(pre, post, step),
            Frame::CreateInterface(run) => run.at is Start && pre.devices@[run.device as int] is None
                ==> ends_with(pre, post, step, Reply::Interface(None)),
            Frame::IoPortReset(run) => pre.devices@[run.interface.device as int] is None ==> is_refused(
                pre,
                post,
                step,
            ),
            _ => true,
        },
{
}

/// Operations on an interface that is not there change nothing. They are refused; what has
/// no answer ends without one, an interface that is not there is not wanted, and the changes
/// that were read of a port are given back though they cannot be acknowledged any more.
pub proof fn an_interface_that_has_gone_is_left_alone(
    frame: Frame,
    pre: UsbBus,
    reply: Reply,
    post: UsbBus,
    step: Step,
)
    requires
        pre.wf(),
        frame.goes_on(pre, reply, post, step),
    ensures
        match frame {
            Frame::HubInit(run) => pre.interface(run.interface) is None ==> is_refused(pre, post, step),
            Frame::HubRelease(run) => pre.interface(run.interface) is None ==> is_refused(pre, post, step),
            Frame::RootHubInit(run) => pre.interface(run.interface) is None ==> is_refused(pre, post, step),
            Frame::RootHubRelease(run) => pre.interface(run.interface) is None ==> is_refused(
                pre,
                post,
                step,
            ),
            Frame::OnHubInterrupt(run) => {
                &&& pre.interface(run.interface) is None ==> is_refused(pre, post, step)
                &&& (pre.interface(run.interface) matches Some(i) && i.hub_ep is None) ==> ends_with(
                    pre,
                    post,
                    step,
                    Reply::Status(Status::DeviceError),
                )
            },
            Frame::HubGetPortStatus(run) => pre.interface(run.interface) is None ==> {
                &&& run.at is Start ==> is_refused(pre, post, step)
                &&& run.at matches HubGetPortStatusAt::Acknowledge { state, .. } ==> ends_with(
                    pre,
                    post,
                    step,
                    Reply::Port { status: Status::Success, state },
                )
            },
            Frame::HubClearPortChange(run) => pre.interface(run.interface) is None ==> ends_with(
                pre,
                post,
                step,
                Reply::Nothing,
            ),
            Frame::RootHubClearPortChange(run) => pre.interface(run.interface) is None ==> ends_with(
                pre,
                post,
                step,
                Reply::Nothing,
            ),
            Frame::HubResetPort(run) => run.at is Start && pre.interface(run.interface) is None
                ==> is_refused(pre, post, step),
            Frame::RootHubResetPort(run) => (run.at is Start || run.at is Driven) && pre.interface(
                run.interface,
            ) is None ==> is_refused(pre, post, step),
            Frame::IsWanted(run) => pre.interface(run.interface) is None ==> ends_with(
                pre,
                post,
                step,
                Reply::Verdict(false),
            ),
            Frame::FreeInterface(run) => pre.interface(run.interface) is None ==> is_refused(
                pre,
                post,
                step,
            ),
            Frame::ConnectDriver(run) => pre.interface(run.interface) is None ==> is_refused(
                pre,
                post,
                step,
            ),
            Frame::DisconnectDriver(run) => pre.interface(run.interface) is None ==> is_refused(
                pre,
                post,
                step,
            ),
            Frame::EnumeratePort(run) => run.at is Start && pre.interface(run.hub) is None ==> is_refused(
                pre,
                post,
                step,
            ),
            Frame::EnumerateNewDevice(run) => run.at is Start && pre.interface(run.hub) is None
                ==> is_refused(pre, post, step),
            Frame::HubEnumeration(run) => pre.interface(run.interface) is None ==> ends_with(
                pre,
                post,
                step,
                Reply::Nothing,
            ),
            Frame::RootHubEnumeration(run) => pre.interface(run.interface) is None ==> ends_with(
                pre,
                post,
                step,
                Reply::Nothing,
            ),
            Frame::IoControlTransfer(run) => (run.at == IoControlTransferAt::Start || run.at
                == IoControlTransferAt::Answer) && pre.interface(run.interface) is None ==> is_refused(
                pre,
                post,
                step,
            ),
            Frame::IoBulkTransfer(run) => {
                &&& run.at == IoEndpointTransferAt::Start && pre.interface(run.interface) is None
                    ==> is_refused(pre, post, step)
                &&& run.at matches IoEndpointTransferAt::Translated { status } ==> ends_with(
                    pre,
                    post,
                    step,
                    Reply::Status(status),
                )
                &&& run.at == IoEndpointTransferAt::Answer && pre.interface(run.interface) is None ==> post
                    == pre
            },
            Frame::IoSyncInterruptTransfer(run) => {
                &&& run.at == IoEndpointTransferAt::Start && pre.interface(run.interface) is None
                    ==> is_refused(pre, post, step)
                &&& run.at == IoEndpointTransferAt::Answer && pre.interface(run.interface) is None
                    ==> ends_with(pre, post, step, Reply::Status(reply.as_status()))
            },
            Frame::IoAsyncInterruptTransfer(run) => {
                &&& !run.asked && pre.interface(run.interface) is None ==> is_refused(pre, post, step)
                &&& run.asked && pre.interface(run.interface) is None ==> ends_with(
                    pre,
                    post,
                    step,
                    Reply::Status(reply.as_status()),
                )
            },
            _ => true,
        },
{
}

} // verus!
