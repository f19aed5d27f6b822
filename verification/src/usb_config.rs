//! The configuration of a device: the interfaces that come with it and go with it.

use crate::interface_life::{
    ConnectDriver, CreateInterface, CreateInterfaceAt, DisconnectDriver, FreeInterface,
};
use crate::search::{first_index, lemma_first_index_found, lemma_first_index_none};
use crate::status::Status;
use crate::task::{Frame, Reply, Step};
use crate::usb_bus_defs::{InterfaceId, UsbBus, UsbDevice, UsbInterface, USB_MAX_INTERFACE};
use crate::usb_desc::{UsbConfigDesc, UsbDeviceDesc, UsbInterfaceDesc};
use crate::usb_interface::{copy_interface_desc, is_alternate, usb_select_setting, with_setting};
use vstd::prelude::*;

verus! {

/// Makes the interfaces of a configuration.
#[derive(Clone, Copy, Debug)]
pub struct SelectConfig {
    pub device: u8,
    pub config_value: u8,
    pub at: SelectConfigAt,
}

#[derive(Clone, Copy, Debug)]
pub enum SelectConfigAt {
    Start,
    /// The interface with this index is being made, from the configuration in this
    /// slot.
    Created { slot: usize, index: usize },
    /// A driver is being found for the interface with this index.
    Connected { slot: usize, index: usize },
}

/// Takes the interfaces of the active configuration away.
#[derive(Clone, Copy, Debug)]
pub struct RemoveConfig {
    pub device: u8,
    /// The interface that is dealt with.
    pub index: u8,
    /// The last error.
    pub result: Status,
    pub at: RemoveConfigAt,
}

#[derive(Clone, Copy, Debug)]
pub enum RemoveConfigAt {
    Next,
    Disconnected,
    Freed,
    Reconnected { status: Status },
}

impl SelectConfig {
    pub open spec fn start(device: u8, config_value: u8) -> SelectConfig {
        SelectConfig { device, config_value, at: SelectConfigAt::Start }
    }

    pub fn new(device: u8, config_value: u8) -> (r: SelectConfig)
        ensures
            r == SelectConfig::start(device, config_value),
    {
        SelectConfig { device, config_value, at: SelectConfigAt::Start }
    }
}

impl RemoveConfig {
    pub open spec fn start(device: u8) -> RemoveConfig {
        RemoveConfig { device, index: 0, result: Status::Success, at: RemoveConfigAt::Next }
    }

    pub fn new(device: u8) -> (r: RemoveConfig)
        ensures
            r == RemoveConfig::start(device),
    {
        RemoveConfig { device, index: 0, result: Status::Success, at: RemoveConfigAt::Next }
    }
}

/// A slot holds a configuration with the given value.
pub open spec fn has_value(config_value: u8) -> spec_fn(Option<UsbConfigDesc>) -> bool {
    |slot: Option<UsbConfigDesc>|
        slot matches Some(config) && config.descriptor.configuration_value == config_value
}

/// The first interface from index `from` on that has settings.
pub open spec fn next_with_settings(interfaces: Seq<UsbInterfaceDesc>, from: int) -> int
    decreases interfaces.len() - from,
{
    if from >= interfaces.len() || interfaces[from].settings@.len() > 0 {
        from
    } else {
        next_with_settings(interfaces, from + 1)
    }
}

impl SelectConfig {
    pub open spec fn to(self, at: SelectConfigAt) -> Frame {
        Frame::SelectConfig(SelectConfig { at, ..self })
    }

    /// Makes the next interface from index `from` on, with its first setting in use.
    /// There is no room for more interfaces than a device has slots.
    pub open spec fn makes(self, config: UsbConfigDesc, slot: int, from: int, step: Step) -> bool {
        let i = next_with_settings(config.interfaces@, from);
        if i >= config.interfaces@.len() {
            step == Step::Done(Reply::Status(Status::Success))
        } else if i >= USB_MAX_INTERFACE {
            step == Step::Done(Reply::Status(Status::OutOfResources))
        } else {
            &&& step matches Step::Call { callee: Frame::CreateInterface(create), next }
            &&& create.device == self.device
            &&& create.index == i
            &&& create.at matches CreateInterfaceAt::Start { desc }
            &&& desc@ == with_setting(config.interfaces@[i]@, 0)
            &&& next == self.to(SelectConfigAt::Created { slot: slot as usize, index: i as usize })
        }
    }

    /// How the operation goes on after `reply`.
    pub open spec fn goes_on(self, pre: UsbBus, reply: Reply, post: UsbBus, step: Step) -> bool {
        match pre.device(self.device) {
            None => post == pre && step == Step::Done(Reply::Status(Status::InvalidParameter)),
            Some(d) => match self.at {
                SelectConfigAt::Start => match d.dev_desc {
                    Some(desc) => match first_index(desc.configs@, has_value(self.config_value)) {
                        Some(slot) => {
                            let config = desc.configs@[slot]->0;
                            &&& pre.with_device(
                                self.device,
                                Some(UsbDevice { active_config: Some(config.descriptor), ..d }),
                                post,
                            )
                            &&& self.makes(config, slot, 0, step)
                        },
                        None => post == pre && step == Step::Done(Reply::Status(Status::NotFound)),
                    },
                    None => post == pre && step == Step::Done(Reply::Status(Status::NotFound)),
                },
                SelectConfigAt::Created { slot, index } => if index >= USB_MAX_INTERFACE {
                    post == pre && step == Step::Done(Reply::Status(Status::OutOfResources))
                } else {
                    match reply.as_interface() {
                        None => {
                            &&& pre.with_device(
                                self.device,
                                Some(UsbDevice { num_of_interface: index as u8, ..d }),
                                post,
                            )
                            &&& step == Step::Done(Reply::Status(Status::OutOfResources))
                        },
                        Some(interface) => {
                            &&& post.device(self.device) matches Some(e)
                            &&& pre.with_device(
                                self.device,
                                Some(
                                    UsbDevice {
                                        interfaces: e.interfaces,
                                        num_of_interface: (index + 1) as u8,
                                        ..d
                                    },
                                ),
                                post,
                            )
                            &&& e.interfaces@ == d.interfaces@.update(index as int, Some(interface))
                            &&& step == (Step::Call {
                                callee: Frame::ConnectDriver(
                                    ConnectDriver::start(
                                        InterfaceId { device: self.device, index: index as u8 },
                                    ),
                                ),
                                next: self.to(SelectConfigAt::Connected { slot, index }),
                            })
                        },
                    }
                },
                SelectConfigAt::Connected { slot, index } => {
                    &&& post == pre
                    &&& match d.dev_desc {
                        Some(desc) => if slot < desc.configs@.len() {
                            match desc.configs@[slot as int] {
                                Some(config) => self.makes(config, slot as int, index + 1, step),
                                None => step == Step::Done(Reply::Status(Status::NotFound)),
                            }
                        } else {
                            step == Step::Done(Reply::Status(Status::NotFound))
                        },
                        None => step == Step::Done(Reply::Status(Status::NotFound)),
                    }
                },
            },
        }
    }
}

fn find_config(desc: &UsbDeviceDesc, config_value: u8) -> (r: Option<usize>)
    ensures
        match r {
            Some(slot) => first_index(desc.configs@, has_value(config_value)) == Some(slot as int) && slot
                < desc.configs@.len() && desc.configs@[slot as int] is Some,
            None => first_index(desc.configs@, has_value(config_value)) is None,
        },
{
    let ghost p = has_value(config_value);
    let mut slot: usize = 0;
    while slot < desc.configs.len()
        invariant
            slot <= desc.configs@.len(),
            p == has_value(config_value),
            forall|j: int| 0 <= j < slot ==> !p(#[trigger] desc.configs@[j]),
        decreases desc.configs@.len() - slot,
    {
        if let Some(config) = &desc.configs[slot] {
            if config.descriptor.configuration_value == config_value {
                proof {
                    lemma_first_index_found(desc.configs@, p, slot as int);
                }
                return Some(slot);
            }
        }
        slot = slot + 1;
    }
    proof {
        lemma_first_index_none(desc.configs@, p);
    }
    None
}

proof fn lemma_first_setting_is_found(interface: UsbInterfaceDesc)
    requires
        interface.settings@.len() > 0,
    ensures
        first_index(
            interface@.settings,
            is_alternate(interface.settings@[0].descriptor.alternate_setting),
        ) == Some(0int),
{
    let p = is_alternate(interface.settings@[0].descriptor.alternate_setting);
    assert(interface@.settings[0] == interface.settings@[0]@);
    lemma_first_index_found(interface@.settings, p, 0);
}

fn make_next(run: SelectConfig, config: &UsbConfigDesc, slot: usize, from: usize) -> (step: Step)
    ensures
        run.makes(*config, slot as int, from as int, step),
{
    let mut i: usize = from;
    while i < config.interfaces.len() && config.interfaces[i].settings.len() == 0
        invariant
            next_with_settings(config.interfaces@, from as int) == next_with_settings(
                config.interfaces@,
                i as int,
            ),
        decreases config.interfaces@.len() - i,
    {
        i = i + 1;
    }
    if i >= config.interfaces.len() {
        return Step::Done(Reply::Status(Status::Success));
    }
    if i >= USB_MAX_INTERFACE {
        return Step::Done(Reply::Status(Status::OutOfResources));
    }
    let mut desc = copy_interface_desc(&config.interfaces[i]);
    proof {
        assert(desc@.settings[0] == desc.settings@[0]@);
        assert(config.interfaces@[i as int]@.settings[0] == config.interfaces@[i as int].settings@[0]@);
        lemma_first_setting_is_found(desc);
    }
    let alternate: u8 = desc.settings[0].descriptor.alternate_setting;
    let _ = usb_select_setting(&mut desc, alternate);
    Step::Call {
        callee: Frame::CreateInterface(
            CreateInterface {
                device: run.device,
                index: i as u8,
                at: CreateInterfaceAt::Start { desc },
            },
        ),
        next: Frame::SelectConfig(
            SelectConfig { at: SelectConfigAt::Created { slot, index: i }, ..run },
        ),
    }
}

/// Takes one step of making the interfaces of a configuration.
pub fn usb_select_config(bus: &mut UsbBus, run: SelectConfig, reply: Reply) -> (step: Step)
    requires
        old(bus).wf(),
    ensures
        run.goes_on(*old(bus), reply, *final(bus), step),
        final(bus).wf(),
{
    let d = match bus.get_device(run.device) {
        Some(d) => d,
        None => return Step::Done(Reply::Status(Status::InvalidParameter)),
    };
    match run.at {
        SelectConfigAt::Start => {
            let desc = match &d.dev_desc {
                Some(desc) => desc,
                None => return Step::Done(Reply::Status(Status::NotFound)),
            };
            let slot: usize = match find_config(desc, run.config_value) {
                Some(slot) => slot,
                None => return Step::Done(Reply::Status(Status::NotFound)),
            };
            let (descriptor, step) = match &desc.configs[slot] {
                Some(config) => (config.descriptor, make_next(run, config, slot, 0)),
                None => return Step::Done(Reply::Status(Status::NotFound)),
            };
            if let Some(d) = &mut bus.devices[run.device as usize] {
                d.active_config = Some(descriptor);
            }
            step
        },
        SelectConfigAt::Created { slot, index } => {
            if index >= USB_MAX_INTERFACE {
                return Step::Done(Reply::Status(Status::OutOfResources));
            }
            match reply.into_interface() {
                None => {
                    if let Some(d) = &mut bus.devices[run.device as usize] {
                        d.num_of_interface = index as u8;
                    }
                    Step::Done(Reply::Status(Status::OutOfResources))
                },
                Some(interface) => {
                    if let Some(d) = &mut bus.devices[run.device as usize] {
                        d.interfaces[index] = Some(interface);
                        d.num_of_interface = index as u8 + 1;
                    }
                    Step::Call {
                        callee: Frame::ConnectDriver(
                            ConnectDriver::new(InterfaceId { device: run.device, index: index as u8 }),
                        ),
                        next: Frame::SelectConfig(
                            SelectConfig { at: SelectConfigAt::Connected { slot, index }, ..run },
                        ),
                    }
                },
            }
        },
        SelectConfigAt::Connected { slot, index } => {
            let desc = match &d.dev_desc {
                Some(desc) => desc,
                None => return Step::Done(Reply::Status(Status::NotFound)),
            };
            if slot >= desc.configs.len() {
                return Step::Done(Reply::Status(Status::NotFound));
            }
            match &desc.configs[slot] {
                Some(config) => {
                    if index >= config.interfaces.len() {
                        return Step::Done(Reply::Status(Status::Success));
                    }
                    make_next(run, config, slot, index + 1)
                },
                None => Step::Done(Reply::Status(Status::NotFound)),
            }
        },
    }
}

/// The first interface that is there from index `from` on, among the first `count`.
pub open spec fn next_present(interfaces: Seq<Option<UsbInterface>>, count: int, from: int) -> int
    decreases count - from,
{
    if from >= count || interfaces[from] is Some {
        from
    } else {
        next_present(interfaces, count, from + 1)
    }
}

impl RemoveConfig {
    pub open spec fn to(self, at: RemoveConfigAt) -> Frame {
        Frame::RemoveConfig(RemoveConfig { at, ..self })
    }

    pub open spec fn id(self) -> InterfaceId {
        InterfaceId { device: self.device, index: self.index }
    }

    /// Turns to the next interface from index `from` on, with `interfaces` as what is
    /// left of them. At the end the device has no active configuration.
    pub open spec fn turns_to(
        self,
        pre: UsbBus,
        d: UsbDevice,
        interfaces: Seq<Option<UsbInterface>>,
        from: int,
        result: Status,
        post: UsbBus,
        step: Step,
    ) -> bool {
        let i = next_present(interfaces, d.num_of_interface as int, from);
        let over = i >= d.num_of_interface;
        &&& post.device(self.device) matches Some(e)
        &&& pre.with_device(
            self.device,
            Some(
                UsbDevice {
                    interfaces: e.interfaces,
                    active_config: if over {
                        None
                    } else {
                        d.active_config
                    },
                    ..d
                },
            ),
            post,
        )
        &&& e.interfaces@ == interfaces
        &&& step == (if over {
            Step::Done(Reply::Status(result))
        } else {
            Step::Call {
                callee: Frame::DisconnectDriver(
                    DisconnectDriver::start(InterfaceId { device: self.device, index: i as u8 }),
                ),
                next: Frame::RemoveConfig(
                    RemoveConfig {
                        device: self.device,
                        index: i as u8,
                        result,
                        at: RemoveConfigAt::Disconnected,
                    },
                ),
            }
        })
    }

    /// How the operation goes on after `reply`. An interface whose driver does not let
    /// go, or that cannot be taken off its handle, stays; the last such error is the
    /// outcome.
    pub open spec fn goes_on(self, pre: UsbBus, reply: Reply, post: UsbBus, step: Step) -> bool {
        let status = reply.as_status();
        match pre.device(self.device) {
            None => post == pre && step == Step::Done(Reply::Status(Status::InvalidParameter)),
            Some(d) => match self.at {
                RemoveConfigAt::Next => self.turns_to(
                    pre,
                    d,
                    d.interfaces@,
                    self.index as int,
                    self.result,
                    post,
                    step,
                ),
                RemoveConfigAt::Disconnected => if status.fails() {
                    self.turns_to(pre, d, d.interfaces@, self.index + 1, status, post, step)
                } else {
                    post == pre && step == (Step::Call {
                        callee: Frame::FreeInterface(FreeInterface::start(self.id())),
                        next: self.to(RemoveConfigAt::Freed),
                    })
                },
                RemoveConfigAt::Freed => if status.fails() {
                    post == pre && step == (Step::Call {
                        callee: Frame::ConnectDriver(ConnectDriver::start(self.id())),
                        next: self.to(RemoveConfigAt::Reconnected { status }),
                    })
                } else {
                    self.turns_to(
                        pre,
                        d,
                        if self.index < USB_MAX_INTERFACE {
                            d.interfaces@.update(self.index as int, None)
                        } else {
                            d.interfaces@
                        },
                        self.index + 1,
                        self.result,
                        post,
                        step,
                    )
                },
                RemoveConfigAt::Reconnected { status } => self.turns_to(
                    pre,
                    d,
                    d.interfaces@,
                    self.index + 1,
                    status,
                    post,
                    step,
                ),
            },
        }
    }

    fn turn_to(self, bus: &mut UsbBus, from: usize, result: Status) -> (step: Step)
        requires
            old(bus).wf(),
            old(bus).device(self.device) is Some,
        ensures
            self.turns_to(
                *old(bus),
                old(bus).device(self.device)->0,
                old(bus).device(self.device)->0.interfaces@,
                from as int,
                result,
                *final(bus),
                step,
            ),
            final(bus).wf(),
    {
        let ghost d0 = bus.device(self.device)->0;
        if let Some(d) = &mut bus.devices[self.device as usize] {
            let count: usize = d.num_of_interface as usize;
            let mut i: usize = from;
            while i < count && d.interfaces[i].is_none()
                invariant
                    *d == d0,
                    d0.wf(),
                    count == d0.num_of_interface,
                    next_present(d0.interfaces@, count as int, from as int) == next_present(
                        d0.interfaces@,
                        count as int,
                        i as int,
                    ),
                decreases count - i,
            {
                i = i + 1;
            }
            if i < count {
                return Step::Call {
                    callee: Frame::DisconnectDriver(
                        DisconnectDriver::new(InterfaceId { device: self.device, index: i as u8 }),
                    ),
                    next: Frame::RemoveConfig(
                        RemoveConfig {
                            device: self.device,
                            index: i as u8,
                            result,
                            at: RemoveConfigAt::Disconnected,
                        },
                    ),
                };
            }
            d.active_config = None;
        }
        Step::Done(Reply::Status(result))
    }
}

/// Takes one step of taking the interfaces of the active configuration away.
pub fn usb_remove_config(bus: &mut UsbBus, run: RemoveConfig, reply: Reply) -> (step: Step)
    requires
        old(bus).wf(),
    ensures
        run.goes_on(*old(bus), reply, *final(bus), step),
        final(bus).wf(),
{
    if bus.get_device(run.device).is_none() {
        return Step::Done(Reply::Status(Status::InvalidParameter));
    }
    let status = reply.status();
    let id = InterfaceId { device: run.device, index: run.index };
    match run.at {
        RemoveConfigAt::Next => run.turn_to(bus, run.index as usize, run.result),
        RemoveConfigAt::Disconnected => {
            if status.is_error() {
                return run.turn_to(bus, run.index as usize + 1, status);
            }
            Step::Call {
                callee: Frame::FreeInterface(FreeInterface::new(id)),
                next: Frame::RemoveConfig(RemoveConfig { at: RemoveConfigAt::Freed, ..run }),
            }
        },
        RemoveConfigAt::Freed => {
            if status.is_error() {
                return Step::Call {
                    callee: Frame::ConnectDriver(ConnectDriver::new(id)),
                    next: Frame::RemoveConfig(
                        RemoveConfig { at: RemoveConfigAt::Reconnected { status }, ..run },
                    ),
                };
            }
            if let Some(d) = &mut bus.devices[run.device as usize] {
                if (run.index as usize) < USB_MAX_INTERFACE {
                    d.interfaces[run.index as usize] = None;
                }
            }
            let step = run.turn_to(bus, run.index as usize + 1, run.result);
            assert(bus.devices@ =~= old(bus).devices@.update(
                run.device as int,
                bus.devices@[run.device as int],
            ));
            step
        },
        RemoveConfigAt::Reconnected { status } => run.turn_to(bus, run.index as usize + 1, status),
    }
}

/// The value of the first configuration of a device.
pub open spec fn first_config_value(device: UsbDevice) -> Option<u8> {
    match device.dev_desc {
        Some(desc) => if desc.configs@.len() > 0 {
            match desc.configs@[0] {
                Some(config) => Some(config.descriptor.configuration_value),
                None => None,
            }
        } else {
            None
        },
        None => None,
    }
}

/// Returns the value of the first configuration of a device.
pub fn find_first_config(device: &UsbDevice) -> (r: Option<u8>)
    ensures
        r == first_config_value(*device),
{
    match &device.dev_desc {
        Some(desc) => {
            if desc.configs.len() == 0 {
                return None;
            }
            match &desc.configs[0] {
                Some(config) => Some(config.descriptor.configuration_value),
                None => None,
            }
        },
        None => None,
    }
}

impl RemoveConfig {
    /// Every interface before the one that is dealt with is gone, unless there was an
    /// error.
    pub open spec fn is_clear_so_far(self, d: UsbDevice) -> bool {
        &&& self.at matches RemoveConfigAt::Reconnected { status } ==> status.fails()
        &&& self.result.fails() || forall|j: int|
            0 <= j < self.index ==> #[trigger] d.interfaces@[j] is None
    }
}

/// The next interface that is there is there, and none before it is.
pub proof fn lemma_next_present(interfaces: Seq<Option<UsbInterface>>, count: int, from: int)
    ensures
        from <= next_present(interfaces, count, from),
        next_present(interfaces, count, from) < count ==> interfaces[next_present(
            interfaces,
            count,
            from,
        )] is Some,
        forall|j: int|
            from <= j < next_present(interfaces, count, from) && j < count ==> #[trigger] interfaces[j] is None,
    decreases count - from,
{
    if from < count && interfaces[from] is None {
        lemma_next_present(interfaces, count, from + 1);
    }
}

/// Taking the interfaces away without an error leaves none of them behind, and no
/// configuration: each step keeps that everything so far is gone.
pub proof fn removal_without_error_leaves_no_interface(
    run: RemoveConfig,
    pre: UsbBus,
    reply: Reply,
    post: UsbBus,
    step: Step,
)
    requires
        pre.wf(),
        pre.device(run.device) matches Some(d) && run.is_clear_so_far(d),
        run.goes_on(pre, reply, post, step),
        run.index < USB_MAX_INTERFACE,
    ensures
        step matches Step::Call { next: Frame::RemoveConfig(next), .. } ==> (post.device(
            run.device,
        ) matches Some(e) && next.is_clear_so_far(e)),
        step matches Step::Done(Reply::Status(status)) ==> (post.device(run.device) matches Some(e)
            && e.active_config is None && (status.fails() || forall|j: int|
            0 <= j < e.num_of_interface ==> #[trigger] e.interfaces@[j] is None)),
{
    let d = pre.device(run.device)->0;
    let count = d.num_of_interface as int;
    let index = run.index as int;
    lemma_next_present(d.interfaces@, count, index);
    lemma_next_present(d.interfaces@, count, index + 1);
    lemma_next_present(d.interfaces@.update(index, None), count, index + 1);
}

} // verus!
