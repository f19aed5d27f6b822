//! Laws of configurations and interfaces: what is made of a configuration, and how it is
//! taken away again.

use crate::interface_life::{
    ConnectDriver, ConnectDriverAt, CreateInterface, CreateInterfaceAt, DisconnectDriver,
    DisconnectDriverAt, FreeInterface, FreeInterfaceAt,
};
use crate::search::{first_between_is_first, first_index_is_first, lemma_first_index_found};
use crate::status::Status;
use crate::task::{Action, Frame, Reply, Step, Tpl};
use crate::usb_bus_defs::{
    InterfaceId, UsbBus, UsbDevice, UsbHubApi, UsbInterface, USB_INTERFACE_SIGNATURE,
};
use crate::usb_config::{
    has_value, lemma_next_present, next_with_settings, RemoveConfig, RemoveConfigAt,
    SelectConfig, SelectConfigAt,
};
use crate::usb_desc::{ConfigDescriptor, SettingView, UsbConfigDesc, UsbEndpointDesc, UsbInterfaceDesc};
use crate::usb_enumer::{hangs_on, RemoveDevice, RemoveDeviceAt};
use crate::usb_interface::toggles_cleared;
use crate::usb_utility::{child_path, path_end};
use vstd::prelude::*;

verus! {

/// A description of an interface is that of the configuration, with its first setting in
/// use and the data toggles of that setting at zero.
pub open spec fn starts_with_its_first_setting(desc: UsbInterfaceDesc, original: UsbInterfaceDesc) -> bool {
    &&& desc.active_index == 0
    &&& desc.settings@.len() == original.settings@.len()
    &&& forall|k: int|
        0 <= k < desc.settings@.len() ==> (#[trigger] desc.settings@[k]).descriptor
            == original.settings@[k].descriptor
    &&& forall|k: int|
        0 < k < desc.settings@.len() ==> (#[trigger] desc.settings@[k]).endpoints@
            == original.settings@[k].endpoints@
    &&& desc.settings@[0].endpoints@.len() == original.settings@[0].endpoints@.len()
    &&& forall|e: int|
        0 <= e < desc.settings@[0].endpoints@.len() ==> (match original.settings@[0].endpoints@[e] {
            Some(endpoint) => #[trigger] desc.settings@[0].endpoints@[e] == Some(
                UsbEndpointDesc { descriptor: endpoint.descriptor, toggle: 0 },
            ),
            None => desc.settings@[0].endpoints@[e] is None,
        })
}

/// A step makes the next interface of a configuration, from an index on: the first one
/// that has a setting, in the slot of its index. Without one the configuration is
/// complete; behind sixteen interfaces there is no room.
pub open spec fn makes_the_next(
    run: SelectConfig,
    config: UsbConfigDesc,
    slot: int,
    from: int,
    step: Step,
) -> bool {
    let interfaces = config.interfaces@;
    match step {
        Step::Call { callee: Frame::CreateInterface(create), next } => {
            &&& create.device == run.device
            &&& from <= create.index < interfaces.len()
            &&& create.index < 16
            &&& interfaces[create.index as int].settings@.len() > 0
            &&& forall|i: int|
                from <= i < create.index ==> (#[trigger] interfaces[i]).settings@.len() == 0
            &&& create.at matches CreateInterfaceAt::Start { desc }
            &&& starts_with_its_first_setting(desc, interfaces[create.index as int])
            &&& next == Frame::SelectConfig(
                SelectConfig {
                    at: SelectConfigAt::Created { slot: slot as usize, index: create.index as usize },
                    ..run
                },
            )
        },
        Step::Done(Reply::Status(Status::Success)) => forall|i: int|
            from <= i < interfaces.len() ==> (#[trigger] interfaces[i]).settings@.len() == 0,
        _ => {
            &&& step == Step::Done(Reply::Status(Status::OutOfResources))
            &&& forall|i: int|
                from <= i < interfaces.len() && i < 16 ==> (#[trigger] interfaces[i]).settings@.len() == 0
            &&& exists|i: int|
                16 <= i < interfaces.len() && (#[trigger] interfaces[i]).settings@.len() > 0
        },
    }
}

proof fn lemma_next_with_settings(interfaces: Seq<UsbInterfaceDesc>, from: int)
    requires
        0 <= from,
    ensures
        ({
            let i = next_with_settings(interfaces, from);
            &&& from <= i
            &&& i < interfaces.len() ==> interfaces[i].settings@.len() > 0
            &&& forall|k: int|
                from <= k < i && k < interfaces.len() ==> (#[trigger] interfaces[k]).settings@.len() == 0
        }),
    decreases interfaces.len() - from,
{
    if from < interfaces.len() && interfaces[from].settings@.len() == 0 {
        lemma_next_with_settings(interfaces, from + 1);
    }
}

proof fn lemma_makes_the_next(run: SelectConfig, config: UsbConfigDesc, slot: int, from: int, step: Step)
    requires
        0 <= from,
        run.makes(config, slot, from, step),
    ensures
        makes_the_next(run, config, slot, from, step),
{
    let interfaces = config.interfaces@;
    let i = next_with_settings(interfaces, from);
    lemma_next_with_settings(interfaces, from);
    if i < interfaces.len() && i < 16 {
        let create = step->Call_callee->CreateInterface_0;
        let desc = create.at->Start_desc;
        let original = interfaces[i];
        assert(desc@.settings.len() == desc.settings@.len());
        assert(original@.settings.len() == original.settings@.len());
        assert forall|k: int| 0 <= k < desc.settings@.len() implies (#[trigger] desc.settings@[k])@ == (
        if k == 0 {
            SettingView {
                endpoints: toggles_cleared(original.settings@[k].endpoints@),
                ..original.settings@[k]@
            }
        } else {
            original.settings@[k]@
        }) by {
            assert(desc@.settings[k] == desc.settings@[k]@);
            assert(original@.settings[k] == original.settings@[k]@);
        }
    } else if i < interfaces.len() {
        assert(interfaces[i].settings@.len() > 0);
    }
}

/// A configuration is selected by its value: the first one of the device that has it
/// becomes the active one, and its interfaces are made in order. Nothing changes where the
/// device has no such configuration.
pub proof fn a_configuration_is_selected_by_its_value(
    run: SelectConfig,
    pre: UsbBus,
    reply: Reply,
    post: UsbBus,
    step: Step,
    slot: int,
)
    requires
        pre.wf(),
        run.at is Start,
        pre.devices@[run.device as int] matches Some(d) && d.dev_desc is Some,
        run.goes_on(pre, reply, post, step),
    ensures
        ({
            let d = pre.devices@[run.device as int]->0;
            let configs = d.dev_desc->0.configs@;
            &&& (forall|k: int|
                0 <= k < configs.len() ==> (#[trigger] configs[k] matches Some(c)
                    ==> c.descriptor.configuration_value != run.config_value)) ==> post == pre && step
                == Step::Done(Reply::Status(Status::NotFound))
            &&& 0 <= slot < configs.len() && configs[slot] is Some
                && configs[slot]->0.descriptor.configuration_value == run.config_value && (forall|k: int|
                0 <= k < slot ==> (#[trigger] configs[k] matches Some(c)
                    ==> c.descriptor.configuration_value != run.config_value)) ==> {
                &&& post.devices@[run.device as int] == Some(
                    UsbDevice { active_config: Some(configs[slot]->0.descriptor), ..d },
                )
                &&& makes_the_next(run, configs[slot]->0, slot, 0, step)
            }
        }),
{
    let d = pre.devices@[run.device as int]->0;
    let configs = d.dev_desc->0.configs@;
    let p = has_value(run.config_value);
    first_index_is_first(configs, p);
    if 0 <= slot < configs.len() && configs[slot] is Some
        && configs[slot]->0.descriptor.configuration_value == run.config_value && (forall|k: int|
        0 <= k < slot ==> (#[trigger] configs[k] matches Some(c) ==> c.descriptor.configuration_value
            != run.config_value)) {
        lemma_first_index_found(configs, p, slot);
        lemma_makes_the_next(run, configs[slot]->0, slot, 0, step);
    }
}

/// An interface that was made goes into the slot of its index, and is the last one of the
/// device so far; then it is given to a driver. Where it could not be made, the device keeps
/// those before it. What the driver says does not keep the next interface from being made.
pub proof fn an_interface_goes_into_its_slot(
    run: SelectConfig,
    pre: UsbBus,
    reply: Reply,
    post: UsbBus,
    step: Step,
)
    requires
        pre.wf(),
        pre.devices@[run.device as int] is Some,
        run.goes_on(pre, reply, post, step),
    ensures
        ({
            let d = pre.devices@[run.device as int]->0;
            let e = post.devices@[run.device as int]->0;
            &&& run.at matches SelectConfigAt::Created { index, .. } ==> index >= 16 ==> post == pre && step
                == Step::Done(Reply::Status(Status::OutOfResources))
            &&& run.at matches SelectConfigAt::Created { slot, index } ==> index < 16 ==> match reply {
                Reply::Interface(Some(interface)) => {
                    &&& post.devices@[run.device as int] is Some
                    &&& e.interfaces@[index as int] == Some(interface)
                    &&& forall|i: int|
                        0 <= i < 16 && i != index ==> #[trigger] e.interfaces@[i] == d.interfaces@[i]
                    &&& e.num_of_interface == index + 1
                    &&& e == (UsbDevice {
                        interfaces: e.interfaces,
                        num_of_interface: e.num_of_interface,
                        ..d
                    })
                    &&& step matches Step::Call { callee: Frame::ConnectDriver(connect), next }
                    &&& connect.interface.device == run.device && connect.interface.index == index
                    &&& connect.at is Start
                    &&& next == Frame::SelectConfig(
                        SelectConfig { at: SelectConfigAt::Connected { slot, index }, ..run },
                    )
                },
                _ => {
                    &&& post.devices@[run.device as int] == Some(
                        UsbDevice { num_of_interface: index as u8, ..d },
                    )
                    &&& step == Step::Done(Reply::Status(Status::OutOfResources))
                },
            }
            &&& run.at matches SelectConfigAt::Connected { slot, index } ==> {
                &&& post == pre
                &&& d.dev_desc is Some && slot < d.dev_desc->0.configs@.len()
                    && d.dev_desc->0.configs@[slot as int] is Some ==> makes_the_next(
                    run,
                    d.dev_desc->0.configs@[slot as int]->0,
                    slot as int,
                    index + 1,
                    step,
                )
                &&& d.dev_desc is None || slot >= d.dev_desc->0.configs@.len()
                    || d.dev_desc->0.configs@[slot as int] is None ==> step == Step::Done(
                    Reply::Status(Status::NotFound),
                )
            }
            &&& run.at is Start && d.dev_desc is None ==> post == pre && step == Step::Done(
                Reply::Status(Status::NotFound),
            )
        }),
{
    let d = pre.devices@[run.device as int]->0;
    if let SelectConfigAt::Connected { slot, index } = run.at {
        if d.dev_desc is Some && slot < d.dev_desc->0.configs@.len()
            && d.dev_desc->0.configs@[slot as int] is Some {
            lemma_makes_the_next(
                run,
                d.dev_desc->0.configs@[slot as int]->0,
                slot as int,
                index + 1,
                step,
            );
        }
    }
}

/// A step turns to the next interface of a device that is still there, from an index on,
/// to have its driver taken off; behind the last one the device has no configuration any
/// more, and `result` is the outcome.
pub open spec fn takes_the_next(
    run: RemoveConfig,
    interfaces: Seq<Option<UsbInterface>>,
    count: int,
    from: int,
    result: Status,
    active: Option<ConfigDescriptor>,
    e: UsbDevice,
    step: Step,
) -> bool {
    &&& e.interfaces@ == interfaces
    &&& match step {
        Step::Call { callee: Frame::DisconnectDriver(disconnect), next } => {
            let i = disconnect.interface.index as int;
            &&& disconnect.interface.device == run.device
            &&& disconnect.at is Start
            &&& from <= i < count
            &&& interfaces[i] is Some
            &&& forall|k: int| from <= k < i ==> #[trigger] interfaces[k] is None
            &&& e.active_config == active
            &&& next == Frame::RemoveConfig(
                RemoveConfig {
                    device: run.device,
                    index: disconnect.interface.index,
                    result,
                    at: RemoveConfigAt::Disconnected,
                },
            )
        },
        _ => {
            &&& step == Step::Done(Reply::Status(result))
            &&& forall|k: int| from <= k < count ==> #[trigger] interfaces[k] is None
            &&& e.active_config is None
        },
    }
}

/// The interfaces of a device are taken away one by one: first the driver is taken off, then
/// the interface leaves its handle and its slot. One whose driver does not let go stays; one
/// that cannot leave its handle gets its driver back and stays. The outcome is the last error.
pub proof fn interfaces_are_taken_away_one_by_one(
    run: RemoveConfig,
    pre: UsbBus,
    reply: Reply,
    post: UsbBus,
    step: Step,
)
    requires
        pre.wf(),
        pre.devices@[run.device as int] is Some,
        run.index < 16,
        run.goes_on(pre, reply, post, step),
    ensures
        ({
            let d = pre.devices@[run.device as int]->0;
            let e = post.devices@[run.device as int]->0;
            let status = reply.as_status();
            let id = InterfaceId { device: run.device, index: run.index };
            let count = d.num_of_interface as int;
            &&& post.devices@[run.device as int] is Some
            &&& run.at is Next ==> takes_the_next(
                run,
                d.interfaces@,
                count,
                run.index as int,
                run.result,
                d.active_config,
                e,
                step,
            )
            &&& run.at is Disconnected && status.fails() ==> takes_the_next(
                run,
                d.interfaces@,
                count,
                run.index + 1,
                status,
                d.active_config,
                e,
                step,
            )
            &&& run.at is Disconnected && !status.fails() ==> {
                &&& post == pre
                &&& step matches Step::Call { callee: Frame::FreeInterface(free), next }
                &&& free.interface == id && free.at is Start
                &&& next == Frame::RemoveConfig(RemoveConfig { at: RemoveConfigAt::Freed, ..run })
            }
            &&& run.at is Freed && status.fails() ==> {
                &&& post == pre
                &&& step matches Step::Call { callee: Frame::ConnectDriver(connect), next }
                &&& connect.interface == id && connect.at is Start
                &&& next == Frame::RemoveConfig(
                    RemoveConfig { at: RemoveConfigAt::Reconnected { status }, ..run },
                )
            }
            &&& run.at is Freed && !status.fails() ==> e.interfaces@[run.index as int] is None
                && takes_the_next(
                run,
                d.interfaces@.update(run.index as int, None),
                count,
                run.index + 1,
                run.result,
                d.active_config,
                e,
                step,
            )
            &&& run.at matches RemoveConfigAt::Reconnected { status } ==> takes_the_next(
                run,
                d.interfaces@,
                count,
                run.index + 1,
                status,
                d.active_config,
                e,
                step,
            )
        }),
{
    let d = pre.devices@[run.device as int]->0;
    let count = d.num_of_interface as int;
    let index = run.index as int;
    lemma_next_present(d.interfaces@, count, index);
    lemma_next_present(d.interfaces@, count, index + 1);
    lemma_next_present(d.interfaces@.update(index, None), count, index + 1);
}

/// A new interface is put on a handle with the path of its hub and a node for the port of
/// the device and the number of the interface. It is an interface of this driver that is
/// neither managed nor a hub, with the settings it was made of.
pub proof fn a_new_interface_hangs_below_its_hub(run: CreateInterface, bus: UsbBus, reply: Reply, step: Step)
    requires
        bus.wf(),
        run.at is Start,
        run.goes_on(bus, reply, step),
    ensures
        ({
            let desc = run.at->Start_desc;
            let device = bus.devices@[run.device as int]->0;
            let hub = bus.interface(device.parent_if->0)->0;
            let possible = bus.devices@[run.device as int] is Some && device.parent_if is Some
                && bus.interface(device.parent_if->0) is Some && desc.active_index < desc.settings@.len();
            let path = child_path(
                hub.device_path@,
                device.parent_port,
                desc.settings@[desc.active_index as int].descriptor.interface_number,
            );
            &&& !(possible && path is Some) ==> step == Step::Done(Reply::Interface(None))
            &&& possible && path is Some ==> {
                &&& step matches Step::Act {
                    action: Action::InstallDevicePath { path: installed },
                    next: Frame::CreateInterface(next),
                }
                &&& installed@ == path->0
                &&& next.device == run.device && next.index == run.index
                &&& next.at matches CreateInterfaceAt::Path { interface }
                &&& interface.device_path@ == path->0
                &&& interface.signature == USB_INTERFACE_SIGNATURE
                &&& interface.if_desc == Some(desc)
                &&& interface.handle == 0
                &&& !interface.is_managed
                &&& !interface.is_hub
                &&& interface.hub_api is None
                &&& interface.hub_ep is None
                &&& interface.num_of_port == 0
                &&& interface.hub_notify == 0
                &&& !interface.hub_interrupt_context
                &&& interface.change_map@.len() == 0
                &&& interface.poll_count == 0
                &&& interface.max_speed == 0
            }
        }),
{
}

/// The path, the services and the host controller belong to one handle: the one that the
/// path was put on. The services are those of the very interface. A part that fails has the
/// parts before it taken back, the last one first; in the end there is an interface exactly
/// where all went well.
pub proof fn an_interface_lives_on_one_handle(run: CreateInterface, bus: UsbBus, reply: Reply, step: Step)
    requires
        bus.wf(),
        run.goes_on(bus, reply, step),
    ensures
        ({
            let good = reply.as_status() == Status::Success;
            let nothing = Step::Done(Reply::Interface(None));
            &&& run.at is Path && !good ==> step == nothing
            &&& run.at matches CreateInterfaceAt::Path { interface } ==> good && reply is Handle ==> {
                &&& step matches Step::Act {
                    action: Action::InstallUsbIo { handle, interface: id },
                    next: Frame::CreateInterface(next),
                }
                &&& handle == reply->Handle_handle
                &&& id == (InterfaceId { device: run.device, index: run.index })
                &&& next.device == run.device && next.index == run.index
                &&& next.at == (CreateInterfaceAt::UsbIo {
                    interface: UsbInterface { handle: reply->Handle_handle, ..interface },
                })
            }
            &&& run.at matches CreateInterfaceAt::UsbIo { interface } ==> if !good {
                step == (Step::Act {
                    action: Action::UninstallDevicePath { handle: interface.handle },
                    next: Frame::CreateInterface(CreateInterface { at: CreateInterfaceAt::Undone, ..run }),
                })
            } else if bus.host_handle != 0 && bus.agent != 0 && interface.handle != 0 {
                step == (Step::Act {
                    action: Action::OpenHostProtocol {
                        host: bus.host_handle,
                        agent: bus.agent,
                        child: interface.handle,
                    },
                    next: Frame::CreateInterface(
                        CreateInterface { at: CreateInterfaceAt::Host { interface }, ..run },
                    ),
                })
            } else {
                step == (Step::Act {
                    action: Action::UninstallUsbIo { handle: interface.handle },
                    next: Frame::CreateInterface(
                        CreateInterface {
                            at: CreateInterfaceAt::Undo { handle: interface.handle },
                            ..run
                        },
                    ),
                })
            }
            &&& run.at matches CreateInterfaceAt::Host { interface } ==> if good {
                step == Step::Done(Reply::Interface(Some(interface)))
            } else {
                step == (Step::Act {
                    action: Action::UninstallUsbIo { handle: interface.handle },
                    next: Frame::CreateInterface(
                        CreateInterface {
                            at: CreateInterfaceAt::Undo { handle: interface.handle },
                            ..run
                        },
                    ),
                })
            }
            &&& run.at matches CreateInterfaceAt::Undo { handle } ==> step == (if good {
                Step::Act {
                    action: Action::UninstallDevicePath { handle },
                    next: Frame::CreateInterface(CreateInterface { at: CreateInterfaceAt::Undone, ..run }),
                }
            } else {
                nothing
            })
            &&& run.at is Undone ==> step == nothing
        }),
{
}

/// An interface leaves its handle in order: the host controller is closed for it, then its
/// services and its path go. What fails has the parts before it put back and is the outcome.
/// In the end the interface has no path, and nothing else of it has changed.
pub proof fn an_interface_leaves_its_handle_in_order(
    run: FreeInterface,
    pre: UsbBus,
    reply: Reply,
    post: UsbBus,
    step: Step,
)
    requires
        pre.wf(),
        pre.interface(run.interface) is Some,
        run.goes_on(pre, reply, post, step),
    ensures
        ({
            let before = pre.interface(run.interface)->0;
            let handle = before.handle;
            let status = reply.as_status();
            let good = status == Status::Success;
            let has_host = pre.host_handle != 0 && pre.agent != 0 && handle != 0;
            let uninstalls = step == (Step::Act {
                action: Action::UninstallUsbIo { handle },
                next: Frame::FreeInterface(FreeInterface { at: FreeInterfaceAt::UsbIoGone, ..run }),
            });
            &&& run.at is Start && (handle == 0 || before.device_path@.len() == 0) ==> step == Step::Done(
                Reply::Status(Status::InvalidParameter),
            )
            &&& run.at is Start && handle != 0 && before.device_path@.len() > 0 && has_host ==> step == (
            Step::Act {
                action: Action::CloseHostProtocol { host: pre.host_handle, agent: pre.agent, child: handle },
                next: Frame::FreeInterface(FreeInterface { at: FreeInterfaceAt::Closed, ..run }),
            })
            &&& run.at is Start && handle != 0 && before.device_path@.len() > 0 && !has_host ==> uninstalls
            &&& run.at is Closed ==> uninstalls
            &&& run.at is UsbIoGone && good ==> step == (Step::Act {
                action: Action::UninstallDevicePath { handle },
                next: Frame::FreeInterface(FreeInterface { at: FreeInterfaceAt::PathGone, ..run }),
            })
            &&& (run.at is UsbIoGone && !good) || run.at is Reinstalled ==> {
                let failure = if run.at is UsbIoGone {
                    status
                } else {
                    run.at->Reinstalled_status
                };
                if has_host {
                    step == (Step::Act {
                        action: Action::OpenHostProtocol {
                            host: pre.host_handle,
                            agent: pre.agent,
                            child: handle,
                        },
                        next: Frame::FreeInterface(
                            FreeInterface { at: FreeInterfaceAt::Failed { status: failure }, ..run },
                        ),
                    })
                } else {
                    step == Step::Done(Reply::Status(failure))
                }
            }
            &&& run.at is PathGone && !good ==> step == (Step::Act {
                action: Action::InstallUsbIo { handle, interface: run.interface },
                next: Frame::FreeInterface(
                    FreeInterface { at: FreeInterfaceAt::Reinstalled { status }, ..run },
                ),
            })
            &&& run.at is PathGone && good && path_end(before.device_path@, 0) is Some ==> {
                &&& step == Step::Done(Reply::Status(Status::Success))
                &&& post.interface(run.interface) matches Some(after)
                &&& after.device_path@.len() == 0
                &&& after == (UsbInterface { device_path: after.device_path, ..before })
            }
            &&& run.at is Failed ==> step == Step::Done(Reply::Status(run.at->Failed_status))
            &&& !(run.at is PathGone && good) ==> post == pre
        }),
{
}

/// A hub is brought up by this driver itself and answers to the operations of a hub from
/// then on; for any other interface a driver is looked for, if it is wanted. That is done on
/// the handle of the interface, at the callback level, which is 8, and the interface is
/// managed exactly where it went well.
pub proof fn a_driver_is_connected_at_the_callback_level(
    run: ConnectDriver,
    pre: UsbBus,
    reply: Reply,
    post: UsbBus,
    step: Step,
)
    requires
        pre.wf(),
        pre.interface(run.interface) matches Some(i) && i.if_desc matches Some(desc) && desc.active_index
            < desc.settings@.len(),
        run.goes_on(pre, reply, post, step),
    ensures
        ({
            let before = pre.interface(run.interface)->0;
            let after = post.interface(run.interface)->0;
            let desc = before.if_desc->0;
            let setting = desc.settings@[desc.active_index as int].descriptor;
            let is_hub = setting.interface_class == 9 && setting.interface_sub_class == 0;
            let status = reply.as_status();
            &&& run.at is Start && is_hub ==> {
                &&& step matches Step::Call { callee: Frame::HubInit(init), next }
                &&& init.interface == run.interface && init.at is Start
                &&& next == Frame::ConnectDriver(ConnectDriver { at: ConnectDriverAt::HubUp, ..run })
            }
            &&& run.at is Start && !is_hub ==> {
                &&& step matches Step::Call { callee: Frame::IsWanted(question), next }
                &&& question.interface == run.interface && question.at is Start
                &&& next == Frame::ConnectDriver(ConnectDriver { at: ConnectDriverAt::Judged, ..run })
            }
            &&& run.at is HubUp ==> {
                &&& step == Step::Done(Reply::Status(status))
                &&& status == Status::Success ==> post.interface(run.interface) == Some(
                    UsbInterface { hub_api: Some(UsbHubApi::Hub), ..before },
                )
                &&& status != Status::Success ==> post == pre
            }
            &&& run.at is Judged && reply != Reply::Verdict(true) ==> step == Step::Done(
                Reply::Status(Status::Success),
            )
            &&& run.at is Judged && reply == Reply::Verdict(true) && before.handle == 0 ==> step
                == Step::Done(Reply::Status(Status::InvalidParameter))
            &&& run.at is Judged && reply == Reply::Verdict(true) && before.handle != 0 ==> step == (
            Step::Act {
                action: Action::GetCurrentTpl,
                next: Frame::ConnectDriver(ConnectDriver { at: ConnectDriverAt::Level, ..run }),
            })
            &&& run.at is Level && reply is Level ==> step == (Step::Act {
                action: Action::RestoreTpl { level: 8 },
                next: Frame::ConnectDriver(ConnectDriver { at: ConnectDriverAt::Lowered { level: reply->Level_0 }, ..run }),
            })
            &&& run.at matches ConnectDriverAt::Lowered { level } ==> step == (Step::Act {
                action: Action::ConnectController { handle: before.handle },
                next: Frame::ConnectDriver(
                    ConnectDriver { at: ConnectDriverAt::Connected { level }, ..run },
                ),
            })
            &&& run.at matches ConnectDriverAt::Connected { level } ==> {
                &&& post.interface(run.interface) is Some
                &&& after == (UsbInterface { is_managed: after.is_managed, ..before })
                &&& after.is_managed <==> status == Status::Success
                &&& level <= 8 ==> step == Step::Done(Reply::Status(status))
                &&& level > 8 ==> raises(
                    step,
                    level,
                    Frame::ConnectDriver(
                        ConnectDriver { at: ConnectDriverAt::Raised { status }, ..run },
                    ),
                )
            }
            &&& run.at is Raised ==> step == Step::Done(Reply::Status(run.at->Raised_status))
            &&& !(run.at is HubUp || run.at is Connected) ==> post == pre
        }),
{
}

/// The priority is raised to a level again, as far as the level has a name: 16 to that of
/// notifications, 31 to the highest one, and any other to that of callbacks.
pub open spec fn raises(step: Step, level: usize, next: Frame) -> bool {
    step == (Step::Act {
        action: Action::RaiseTpl {
            to: if level == 16 {
                Tpl::Notify
            } else if level == 31 {
                Tpl::HighLevel
            } else {
                Tpl::Callback
            },
        },
        next,
    })
}

/// A hub is let go by the operations that it answers to; from any other interface that is
/// managed its driver is taken off, on its handle and at the callback level. The interface
/// is managed as before unless that went well.
pub proof fn a_driver_is_disconnected_at_the_callback_level(
    run: DisconnectDriver,
    pre: UsbBus,
    reply: Reply,
    post: UsbBus,
    step: Step,
)
    requires
        pre.wf(),
        pre.interface(run.interface) is Some,
        run.goes_on(pre, reply, post, step),
    ensures
        ({
            let before = pre.interface(run.interface)->0;
            let status = reply.as_status();
            let invalid = Step::Done(Reply::Status(Status::InvalidParameter));
            let released = Frame::DisconnectDriver(
                DisconnectDriver { at: DisconnectDriverAt::Released, ..run },
            );
            let unmanaged = post.interface(run.interface) == Some(
                UsbInterface { is_managed: false, ..before },
            );
            &&& run.at is Start && before.is_hub && before.hub_api == Some(UsbHubApi::Hub) ==> {
                &&& step matches Step::Call { callee: Frame::HubRelease(release), next }
                &&& release.interface == run.interface && release.at is Start && next == released
            }
            &&& run.at is Start && before.is_hub && before.hub_api == Some(UsbHubApi::RootHub) ==> {
                &&& step matches Step::Call { callee: Frame::RootHubRelease(release), next }
                &&& release.interface == run.interface && release.at is Start && next == released
            }
            &&& run.at is Start && before.is_hub && before.hub_api is None ==> step == invalid
            &&& run.at is Start && !before.is_hub && !before.is_managed ==> step == Step::Done(
                Reply::Status(Status::Success),
            )
            &&& run.at is Start && !before.is_hub && before.is_managed && before.handle == 0 ==> step
                == invalid
            &&& run.at is Start && !before.is_hub && before.is_managed && before.handle != 0 ==> step == (
            Step::Act {
                action: Action::GetCurrentTpl,
                next: Frame::DisconnectDriver(DisconnectDriver { at: DisconnectDriverAt::Level, ..run }),
            })
            &&& run.at is Released ==> step == Step::Done(Reply::Status(status))
            &&& run.at is Level && reply is Level ==> step == (Step::Act {
                action: Action::RestoreTpl { level: 8 },
                next: Frame::DisconnectDriver(
                    DisconnectDriver { at: DisconnectDriverAt::Lowered { level: reply->Level_0 }, ..run },
                ),
            })
            &&& run.at matches DisconnectDriverAt::Lowered { level } ==> step == (Step::Act {
                action: Action::DisconnectController { handle: before.handle },
                next: Frame::DisconnectDriver(
                    DisconnectDriver { at: DisconnectDriverAt::Disconnected { level }, ..run },
                ),
            })
            &&& run.at matches DisconnectDriverAt::Disconnected { level } ==> {
                &&& level > 8 ==> post == pre && raises(
                    step,
                    level,
                    Frame::DisconnectDriver(
                        DisconnectDriver { at: DisconnectDriverAt::Raised { status }, ..run },
                    ),
                )
                &&& level <= 8 ==> step == Step::Done(Reply::Status(status)) && if status
                    == Status::Success {
                    unmanaged
                } else {
                    post == pre
                }
            }
            &&& run.at matches DisconnectDriverAt::Raised { status } ==> step == Step::Done(
                Reply::Status(status),
            ) && if status == Status::Success {
                unmanaged
            } else {
                post == pre
            }
            &&& !(run.at is Disconnected || run.at is Raised) ==> post == pre
        }),
{
}

/// The devices that hang on a device are removed first, in the order of their addresses. One
/// that cannot be removed is marked, and its error keeps the device itself from going. When
/// all have gone, the device is not connected any more and loses its configuration; then its
/// slot becomes free. Where the configuration stays, the device is marked and stays, too.
pub proof fn a_device_goes_after_what_hangs_on_it(
    run: RemoveDevice,
    pre: UsbBus,
    reply: Reply,
    post: UsbBus,
    step: Step,
)
    requires
        pre.wf(),
        pre.devices@[run.device as int] is Some,
        run.child < 255,
        run.goes_on(pre, reply, post, step),
    ensures
        ({
            let d = pre.devices@[run.device as int]->0;
            let status = reply.as_status();
            let failed = run.at is Child && status.fails();
            let result = if failed {
                status
            } else {
                run.result
            };
            let from: int = if run.at is Start {
                1
            } else {
                run.child + 1
            };
            let marked = pre.devices@[run.child as int] is Some ==> {
                &&& post.devices@[run.child as int] matches Some(child)
                &&& child.disconnect_fail
                &&& child == (UsbDevice {
                    disconnect_fail: true,
                    ..pre.devices@[run.child as int]->0
                })
            };
            &&& !(run.at is Config) ==> match step {
                Step::Call { callee: Frame::RemoveDevice(removal), next } => {
                    &&& hangs_behind(pre, removal.device as int, run.device)
                    &&& from <= removal.device
                    &&& removal.at is Start
                    &&& forall|a: int|
                        from <= a < removal.device ==> !#[trigger] hangs_behind(pre, a, run.device)
                    &&& next == Frame::RemoveDevice(
                        RemoveDevice {
                            device: run.device,
                            child: removal.device,
                            result,
                            at: RemoveDeviceAt::Child,
                        },
                    )
                    &&& failed ==> marked
                    &&& !failed ==> post == pre
                },
                Step::Call { callee: Frame::RemoveConfig(removal), next } => {
                    &&& forall|a: int| from <= a ==> !#[trigger] hangs_behind(pre, a, run.device)
                    &&& !result.fails()
                    &&& removal.device == run.device && removal.index == 0 && removal.at is Next
                    &&& removal.result == Status::Success
                    &&& post.devices@[run.device as int] == Some(UsbDevice { connected: false, ..d })
                    &&& next matches Frame::RemoveDevice(next)
                    &&& next.device == run.device && next.at is Config
                },
                _ => {
                    &&& forall|a: int| from <= a ==> !#[trigger] hangs_behind(pre, a, run.device)
                    &&& result.fails()
                    &&& step == Step::Done(Reply::Status(result))
                    &&& failed ==> marked
                },
            }
            &&& run.at is Config && status.fails() ==> {
                &&& step == Step::Done(Reply::Status(status))
                &&& post.devices@[run.device as int] == Some(UsbDevice { disconnect_fail: true, ..d })
            }
            &&& run.at is Config && !status.fails() && run.device >= pre.max_devices ==> {
                &&& step == Step::Done(Reply::Status(Status::InvalidParameter))
                &&& post == pre
            }
            &&& run.at is Config && !status.fails() && run.device < pre.max_devices ==> {
                &&& step == Step::Done(Reply::Status(status))
                &&& post.devices@[run.device as int] is None
                &&& forall|a: int|
                    0 <= a < 256 && a != run.device ==> #[trigger] post.devices@[a] == pre.devices@[a]
            }
        }),
{
    let d = pre.devices@[run.device as int]->0;
    let from: int = if run.at is Start {
        1
    } else {
        run.child + 1
    };
    let p = hangs_on(d.address);
    first_between_is_first(pre.devices@, from, pre.usable_slots(), p);
    assert forall|a: int| from <= a && #[trigger] hangs_behind(pre, a, run.device) implies p(
        pre.devices@[a],
    ) by {}
}

/// A slot that the host controller can use holds a device that hangs on a hub.
pub open spec fn hangs_behind(bus: UsbBus, slot: int, hub: u8) -> bool {
    &&& 1 <= slot < 256
    &&& slot < bus.max_devices
    &&& bus.devices@[slot] matches Some(child)
    &&& child.parent_addr == hub
}

} // verus!
