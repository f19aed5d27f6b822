//! Which interfaces the user wants to have connected, and connecting them.

use crate::device_path::{DEVICE_PATH_HEADER_SIZE, MSG_USB_DP};
use crate::status::Status;
use crate::task::{Action, Frame, Reply, Step};
use crate::usb_bus_defs::{
    InterfaceId, UsbBus, UsbDevice, UsbInterface, USB_BUS_SIGNATURE, USB_MAX_LANG_ID,
};
use crate::usb_control::GetOneString;
use crate::usb_utility::{
    all_usb_path, child_path, child_path_is_whole, device_path_temp_size, end_offset, ends_with,
    get_usb_dp_from_full_dp, has_suffix,
    is_all_usb_class_device_path, judge_path, judges, lemma_common_start,
    lemma_whole_path_end, node_at, path_end, read_wanted_serial, usb_part,
    usb_part_is_stable, wanted_after, wanted_serial, Judgement,
};
use vstd::prelude::*;

verus! {

/// The number of languages that are known of a device.
pub open spec fn known_languages(device: UsbDevice) -> int {
    if device.total_lang_id < USB_MAX_LANG_ID {
        device.total_lang_id as int
    } else {
        USB_MAX_LANG_ID as int
    }
}

fn count_languages(device: &UsbDevice) -> (r: usize)
    ensures
        r == known_languages(*device),
{
    if (device.total_lang_id as usize) < USB_MAX_LANG_ID {
        device.total_lang_id as usize
    } else {
        USB_MAX_LANG_ID
    }
}

/// Finds out whether an interface is wanted. Where the serial number of the device
/// matters, the device is asked for it in each of its languages.
#[derive(Clone, Copy, Debug)]
pub struct IsWanted {
    pub interface: InterfaceId,
    pub at: IsWantedAt,
}

#[derive(Clone, Copy, Debug)]
pub enum IsWantedAt {
    Start,
    /// The serial number is being read in a language, for the wanted path at an index.
    Serial { index: usize, language: usize },
}

impl IsWanted {
    pub open spec fn start(interface: InterfaceId) -> IsWanted {
        IsWanted { interface, at: IsWantedAt::Start }
    }

    pub fn new(interface: InterfaceId) -> (r: IsWanted)
        ensures
            r == IsWanted::start(interface),
    {
        IsWanted { interface, at: IsWantedAt::Start }
    }

    /// Asks for the serial number in a language.
    pub open spec fn asks(self, device: UsbDevice, index: int, language: int) -> Step {
        Step::Call {
            callee: Frame::GetOneString(
                GetOneString::start(
                    self.interface.device,
                    device.dev_desc->0.descriptor.str_serial_number,
                    device.lang_id@[language],
                ),
            ),
            next: Frame::IsWanted(
                IsWanted {
                    at: IsWantedAt::Serial { index: index as usize, language: language as usize },
                    ..self
                },
            ),
        }
    }

    /// Goes through the wanted paths from index `from` on, up to the first one that
    /// selects the interface or depends on the serial number.
    pub open spec fn decides(
        self,
        paths: Seq<Seq<u8>>,
        own_path: Seq<u8>,
        interface: UsbInterface,
        device: UsbDevice,
        from: int,
    ) -> Step
        decreases paths.len() - from,
    {
        if from >= paths.len() {
            Step::Done(Reply::Verdict(false))
        } else {
            match judges(paths[from], own_path, interface, device) {
                Judgement::Yes => Step::Done(Reply::Verdict(true)),
                Judgement::AskSerial if known_languages(device) > 0 => self.asks(device, from, 0),
                _ => self.decides(paths, own_path, interface, device, from + 1),
            }
        }
    }

    /// How the operation goes on after `reply`.
    pub open spec fn next(self, bus: UsbBus, reply: Reply) -> Step {
        let paths = bus.wanted_usb_io_dp_list.paths();
        let no = Step::Done(Reply::Verdict(false));
        let yes = Step::Done(Reply::Verdict(true));
        match (bus.interface(self.interface), bus.device(self.interface.device)) {
            (Some(interface), Some(device)) => {
                let own = usb_part(interface.device_path@);
                match self.at {
                    IsWantedAt::Start => if interface.is_hub || paths.contains(all_usb_path()) {
                        yes
                    } else {
                        match own {
                            Some(own_path) => self.decides(paths, own_path, interface, device, 0),
                            None => no,
                        }
                    },
                    IsWantedAt::Serial { index, language } => match (own, device.dev_desc) {
                        (Some(own_path), Some(_)) => if index >= paths.len() {
                            no
                        } else if reply.as_text() matches Some(text) && has_suffix(
                            text,
                            wanted_serial(paths[index as int]),
                        ) {
                            yes
                        } else if language + 1 < known_languages(device) {
                            self.asks(device, index as int, language + 1)
                        } else {
                            self.decides(paths, own_path, interface, device, index + 1)
                        },
                        _ => no,
                    },
                }
            },
            _ => no,
        }
    }
}

fn ask_serial(run: IsWanted, device: &UsbDevice, index: usize, language: usize) -> (step: Step)
    requires
        language < USB_MAX_LANG_ID,
        device.dev_desc is Some,
    ensures
        step == run.asks(*device, index as int, language as int),
{
    let string: u8 = match &device.dev_desc {
        Some(desc) => desc.descriptor.str_serial_number,
        None => 0,
    };
    Step::Call {
        callee: Frame::GetOneString(
            GetOneString::new(run.interface.device, string, device.lang_id[language]),
        ),
        next: Frame::IsWanted(IsWanted { at: IsWantedAt::Serial { index, language }, ..run }),
    }
}

fn decide_from(
    bus: &UsbBus,
    run: IsWanted,
    own_path: &[u8],
    interface: &UsbInterface,
    device: &UsbDevice,
    from: usize,
) -> (step: Step)
    requires
        from <= bus.wanted_usb_io_dp_list.items@.len(),
    ensures
        step == run.decides(
            bus.wanted_usb_io_dp_list.paths(),
            own_path@,
            *interface,
            *device,
            from as int,
        ),
{
    let ghost paths = bus.wanted_usb_io_dp_list.paths();
    let languages: usize = count_languages(device);
    let mut index: usize = from;
    while index < bus.wanted_usb_io_dp_list.items.len()
        invariant
            index <= bus.wanted_usb_io_dp_list.items@.len(),
            paths == bus.wanted_usb_io_dp_list.paths(),
            languages == known_languages(*device),
            run.decides(paths, own_path@, *interface, *device, from as int) == run.decides(
                paths,
                own_path@,
                *interface,
                *device,
                index as int,
            ),
        decreases bus.wanted_usb_io_dp_list.items@.len() - index,
    {
        let wanted = &bus.wanted_usb_io_dp_list.items[index].device_path;
        assert(paths[index as int] == wanted@);
        match judge_path(wanted.as_slice(), own_path, interface, device) {
            Judgement::Yes => return Step::Done(Reply::Verdict(true)),
            Judgement::AskSerial => {
                if languages > 0 {
                    return ask_serial(run, device, index, 0);
                }
            },
            Judgement::No => {},
        }
        index = index + 1;
    }
    Step::Done(Reply::Verdict(false))
}

fn wants_all(bus: &UsbBus) -> (r: bool)
    ensures
        r == bus.wanted_usb_io_dp_list.paths().contains(all_usb_path()),
{
    let mut i: usize = 0;
    while i < bus.wanted_usb_io_dp_list.items.len()
        invariant
            i <= bus.wanted_usb_io_dp_list.items@.len(),
            forall|j: int|
                0 <= j < i ==> #[trigger] bus.wanted_usb_io_dp_list.paths()[j] != all_usb_path(),
        decreases bus.wanted_usb_io_dp_list.items@.len() - i,
    {
        let path = &bus.wanted_usb_io_dp_list.items[i].device_path;
        assert(bus.wanted_usb_io_dp_list.paths()[i as int] == path@);
        if is_all_usb_class_device_path(path.as_slice()) {
            return true;
        }
        i = i + 1;
    }
    false
}

/// Takes one step of finding out whether an interface is wanted.
pub fn usb_bus_is_wanted_usb_io(bus: &UsbBus, run: IsWanted, reply: Reply) -> (step: Step)
    requires
        bus.wf(),
    ensures
        step == run.next(*bus, reply),
{
    let interface = match bus.get_interface(run.interface) {
        Some(interface) => interface,
        None => return Step::Done(Reply::Verdict(false)),
    };
    let device = match bus.get_device(run.interface.device) {
        Some(device) => device,
        None => return Step::Done(Reply::Verdict(false)),
    };
    match run.at {
        IsWantedAt::Start => {
            if interface.is_hub || wants_all(bus) {
                return Step::Done(Reply::Verdict(true));
            }
            match get_usb_dp_from_full_dp(interface.device_path.as_slice()) {
                Some(own_path) => decide_from(bus, run, own_path.as_slice(), interface, device, 0),
                None => Step::Done(Reply::Verdict(false)),
            }
        },
        IsWantedAt::Serial { index, language } => {
            let own_path: Vec<u8> = match get_usb_dp_from_full_dp(interface.device_path.as_slice()) {
                Some(own_path) => own_path,
                None => return Step::Done(Reply::Verdict(false)),
            };
            if device.dev_desc.is_none() || index >= bus.wanted_usb_io_dp_list.items.len() {
                return Step::Done(Reply::Verdict(false));
            }
            if let Some(text) = reply.into_text() {
                let wanted = &bus.wanted_usb_io_dp_list.items[index].device_path;
                assert(bus.wanted_usb_io_dp_list.paths()[index as int] == wanted@);
                let serial: Vec<u16> = read_wanted_serial(wanted.as_slice());
                if ends_with(text.as_slice(), serial.as_slice()) {
                    return Step::Done(Reply::Verdict(true));
                }
            }
            let languages: usize = count_languages(device);
            if language < languages && language + 1 < languages {
                return ask_serial(run, device, index, language + 1);
            }
            decide_from(bus, run, own_path.as_slice(), interface, device, index + 1)
        },
    }
}

/// A serial number read in a language ends as a wanted path asks for.
pub open spec fn serial_fits(
    device: UsbDevice,
    wanted: Seq<u8>,
    strings: spec_fn(u16) -> Reply,
    language: int,
) -> bool {
    strings(device.lang_id@[language]).as_text() matches Some(text) && has_suffix(
        text,
        wanted_serial(wanted),
    )
}

/// A wanted path selects an interface of a device whose serial number reads as
/// `strings` says in each language.
pub open spec fn selects(
    wanted: Seq<u8>,
    own_path: Seq<u8>,
    interface: UsbInterface,
    device: UsbDevice,
    strings: spec_fn(u16) -> Reply,
) -> bool {
    match judges(wanted, own_path, interface, device) {
        Judgement::Yes => true,
        Judgement::No => false,
        Judgement::AskSerial => exists|language: int|
            0 <= language < known_languages(device) && #[trigger] serial_fits(
                device,
                wanted,
                strings,
                language,
            ),
    }
}

/// An interface is wanted: it is a hub, or all USB devices are wanted, or one of the
/// wanted paths selects it.
pub open spec fn is_wanted(bus: UsbBus, id: InterfaceId, strings: spec_fn(u16) -> Reply) -> bool {
    let paths = bus.wanted_usb_io_dp_list.paths();
    match (bus.interface(id), bus.device(id.device)) {
        (Some(interface), Some(device)) => {
            ||| interface.is_hub
            ||| paths.contains(all_usb_path())
            ||| {
                &&& usb_part(interface.device_path@) matches Some(own_path)
                &&& exists|i: int|
                    0 <= i < paths.len() && #[trigger] selects(
                        paths[i],
                        own_path,
                        interface,
                        device,
                        strings,
                    )
            }
        },
        _ => false,
    }
}

impl IsWanted {
    /// The answer of the operation that has come to `step`, on a bus that stays as it
    /// is and with the given strings, if it is there within `fuel` strings.
    pub open spec fn answer(
        self,
        bus: UsbBus,
        step: Step,
        strings: spec_fn(u16) -> Reply,
        fuel: nat,
    ) -> Option<bool>
        decreases fuel,
    {
        match step {
            Step::Done(Reply::Verdict(verdict)) => Some(verdict),
            Step::Call { callee: Frame::GetOneString(string), next: Frame::IsWanted(next) } => if fuel
                == 0 {
                None
            } else {
                self.answer(
                    bus,
                    next.next(bus, strings(string.language_id)),
                    strings,
                    (fuel - 1) as nat,
                )
            },
            _ => None,
        }
    }
}

proof fn lemma_decides(
    run: IsWanted,
    bus: UsbBus,
    own_path: Seq<u8>,
    interface: UsbInterface,
    device: UsbDevice,
    strings: spec_fn(u16) -> Reply,
    from: int,
    fuel: nat,
)
    requires
        bus.interface(run.interface) == Some(interface),
        bus.device(run.interface.device) == Some(device),
        usb_part(interface.device_path@) == Some(own_path),
        0 <= from <= bus.wanted_usb_io_dp_list.paths().len() <= usize::MAX,
        fuel >= USB_MAX_LANG_ID * (bus.wanted_usb_io_dp_list.paths().len() - from),
    ensures
        ({
            let paths = bus.wanted_usb_io_dp_list.paths();
            run.answer(bus, run.decides(paths, own_path, interface, device, from), strings, fuel) == Some(
                exists|i: int|
                    from <= i < paths.len() && #[trigger] selects(
                        paths[i],
                        own_path,
                        interface,
                        device,
                        strings,
                    ),
            )
        }),
    decreases bus.wanted_usb_io_dp_list.paths().len() - from, USB_MAX_LANG_ID + 1,
{
    let paths = bus.wanted_usb_io_dp_list.paths();
    if from < paths.len() {
        let s = selects(paths[from], own_path, interface, device, strings);
        match judges(paths[from], own_path, interface, device) {
            Judgement::Yes => {
                assert(s);
            },
            Judgement::AskSerial if known_languages(device) > 0 => {
                lemma_asks(run, bus, own_path, interface, device, strings, from, 0, fuel);
            },
            _ => {
                assert(!s);
                lemma_decides(run, bus, own_path, interface, device, strings, from + 1, fuel);
            },
        }
    }
}

proof fn lemma_asks(
    run: IsWanted,
    bus: UsbBus,
    own_path: Seq<u8>,
    interface: UsbInterface,
    device: UsbDevice,
    strings: spec_fn(u16) -> Reply,
    index: int,
    language: int,
    fuel: nat,
)
    requires
        bus.interface(run.interface) == Some(interface),
        bus.device(run.interface.device) == Some(device),
        usb_part(interface.device_path@) == Some(own_path),
        0 <= index < bus.wanted_usb_io_dp_list.paths().len() <= usize::MAX,
        0 <= language < known_languages(device),
        judges(bus.wanted_usb_io_dp_list.paths()[index], own_path, interface, device)
            == Judgement::AskSerial,
        fuel >= USB_MAX_LANG_ID * (bus.wanted_usb_io_dp_list.paths().len() - index - 1)
            + USB_MAX_LANG_ID - language,
        forall|l: int|
            0 <= l < language ==> !#[trigger] serial_fits(
                device,
                bus.wanted_usb_io_dp_list.paths()[index],
                strings,
                l,
            ),
    ensures
        ({
            let paths = bus.wanted_usb_io_dp_list.paths();
            run.answer(bus, run.asks(device, index, language), strings, fuel) == Some(
                exists|i: int|
                    index <= i < paths.len() && #[trigger] selects(
                        paths[i],
                        own_path,
                        interface,
                        device,
                        strings,
                    ),
            )
        }),
    decreases
            bus.wanted_usb_io_dp_list.paths().len() - index,
            USB_MAX_LANG_ID - language,
{
    let paths = bus.wanted_usb_io_dp_list.paths();
    let fits = serial_fits(device, paths[index], strings, language);
    let s = selects(paths[index], own_path, interface, device, strings);
    let next = IsWanted {
        at: IsWantedAt::Serial { index: index as usize, language: language as usize },
        ..run
    };
    let rest = (fuel - 1) as nat;
    let step = next.next(bus, strings(device.lang_id@[language]));
    assert(run.answer(bus, run.asks(device, index, language), strings, fuel) == run.answer(
        bus,
        step,
        strings,
        rest,
    ));
    if fits {
        assert(s);
    } else if language + 1 < known_languages(device) {
        lemma_asks(run, bus, own_path, interface, device, strings, index, language + 1, rest);
        assert(next.asks(device, index, language + 1) == run.asks(device, index, language + 1));
    } else {
        assert(!s);
        lemma_decides(run, bus, own_path, interface, device, strings, index + 1, rest);
        lemma_decides_same(run, next, paths, own_path, interface, device, index + 1);
    }
}

proof fn lemma_decides_same(
    a: IsWanted,
    b: IsWanted,
    paths: Seq<Seq<u8>>,
    own_path: Seq<u8>,
    interface: UsbInterface,
    device: UsbDevice,
    from: int,
)
    requires
        a.interface == b.interface,
    ensures
        a.decides(paths, own_path, interface, device, from) == b.decides(
            paths,
            own_path,
            interface,
            device,
            from,
        ),
    decreases paths.len() - from,
{
    if from < paths.len() {
        lemma_decides_same(a, b, paths, own_path, interface, device, from + 1);
    }
}

/// The operation answers whether the interface is wanted, after at most one string
/// for each wanted path and language.
pub proof fn the_answer_is_whether_the_interface_is_wanted(
    bus: UsbBus,
    id: InterfaceId,
    strings: spec_fn(u16) -> Reply,
)
    requires
        bus.wanted_usb_io_dp_list.paths().len() <= usize::MAX,
    ensures
        ({
            let run = IsWanted::start(id);
            run.answer(
                bus,
                run.next(bus, Reply::Nothing),
                strings,
                USB_MAX_LANG_ID as nat * bus.wanted_usb_io_dp_list.paths().len(),
            ) == Some(is_wanted(bus, id, strings))
        }),
{
    let run = IsWanted::start(id);
    let paths = bus.wanted_usb_io_dp_list.paths();
    let fuel = USB_MAX_LANG_ID as nat * paths.len();
    match (bus.interface(id), bus.device(id.device)) {
        (Some(interface), Some(device)) => {
            if !interface.is_hub && !paths.contains(all_usb_path()) {
                if let Some(own_path) = usb_part(interface.device_path@) {
                    lemma_decides(run, bus, own_path, interface, device, strings, 0, fuel);
                }
            }
        },
        _ => {},
    }
}

/// When no path is given, all USB devices are wanted: every interface on the bus.
pub proof fn no_path_selects_every_interface(
    paths: Seq<Seq<u8>>,
    bus: UsbBus,
    id: InterfaceId,
    strings: spec_fn(u16) -> Reply,
)
    requires
        wanted_after(paths, None) == Some(bus.wanted_usb_io_dp_list.paths()),
        bus.interface(id) is Some,
    ensures
        is_wanted(bus, id, strings),
        IsWanted::start(id).next(bus, Reply::Nothing) == Step::Done(Reply::Verdict(true)),
{
    let after = bus.wanted_usb_io_dp_list.paths();
    assert(after == seq![all_usb_path()]);
    assert(after[0] == all_usb_path());
}

/// An interface whose own port path is asked for is wanted.
pub proof fn an_interface_asked_for_is_wanted(
    paths: Seq<Seq<u8>>,
    bus: UsbBus,
    id: InterfaceId,
    strings: spec_fn(u16) -> Reply,
)
    requires
        bus.interface(id) matches Some(interface) && {
            let path = interface.device_path@;
            &&& usb_part(path) matches Some(part)
            &&& wanted_after(paths, Some(part)) == Some(bus.wanted_usb_io_dp_list.paths())
            &&& node_at(part, 0).sub_type == MSG_USB_DP
        },
    ensures
        is_wanted(bus, id, strings),
{
    let interface = bus.interface(id)->0;
    let device = bus.device(id.device)->0;
    let part = usb_part(interface.device_path@)->0;
    let after = bus.wanted_usb_io_dp_list.paths();
    usb_part_is_stable(interface.device_path@);
    if !paths.contains(part) {
        assert(after[paths.len() as int] == part);
    }
    let i = choose|i: int| 0 <= i < after.len() && after[i] == part;
    assert(selects(after[i], part, interface, device, strings));
}

/// A path leads to a device behind the bus: it starts as the path of the bus does.
pub open spec fn is_child_path(bus_path: Seq<u8>, path: Seq<u8>) -> bool {
    &&& path_end(bus_path, 0) matches Some(bus_size)
    &&& path_end(path, 0) matches Some(size)
    &&& size >= bus_size - DEVICE_PATH_HEADER_SIZE
    &&& path.take(bus_size - DEVICE_PATH_HEADER_SIZE) == bus_path.take(bus_size - DEVICE_PATH_HEADER_SIZE)
}

fn leads_behind(bus_path: &[u8], path: &[u8]) -> (r: bool)
    ensures
        r == is_child_path(bus_path@, path@),
{
    let prefix: usize = match device_path_temp_size(bus_path) {
        Some(size) => size - DEVICE_PATH_HEADER_SIZE,
        None => return false,
    };
    match device_path_temp_size(path) {
        Some(size) => {
            if size < prefix {
                return false;
            }
        },
        None => return false,
    }
    let mut i: usize = 0;
    while i < prefix
        invariant
            i <= prefix <= bus_path@.len(),
            prefix <= path@.len(),
            path_end(bus_path@, 0) == Some(prefix + DEVICE_PATH_HEADER_SIZE),
            forall|j: int| 0 <= j < i ==> path@[j] == bus_path@[j],
        decreases prefix - i,
    {
        if path[i] != bus_path[i] {
            assert(path@.take(prefix as int)[i as int] != bus_path@.take(prefix as int)[i as int]);
            return false;
        }
        i = i + 1;
    }
    assert(path@.take(prefix as int) =~= bus_path@.take(prefix as int));
    true
}

/// Connects every wanted interface of the bus that no driver manages yet.
#[derive(Debug)]
pub struct RecursivelyConnect {
    /// The handles that are gone through.
    pub handles: Vec<usize>,
    pub index: usize,
    pub at: RecursivelyConnectAt,
}

#[derive(Clone, Copy, Debug, PartialEq, Eq, Structural)]
pub enum RecursivelyConnectAt {
    Start,
    Located,
    Path,
    Interface,
    Judged { interface: InterfaceId },
    Connected { interface: InterfaceId },
}

impl RecursivelyConnect {
    pub open spec fn is_at(frame: Frame, handles: Seq<usize>, index: int, at: RecursivelyConnectAt) -> bool {
        frame matches Frame::RecursivelyConnect(run) && run.handles@ == handles && run.index == index
            && run.at == at
    }

    /// Turns to the handle at an index.
    pub open spec fn visits(handles: Seq<usize>, index: int, step: Step) -> bool {
        if index < handles.len() {
            step matches Step::Act { action, next } && action == (Action::ReadDevicePath {
                handle: handles[index],
            }) && RecursivelyConnect::is_at(next, handles, index, RecursivelyConnectAt::Path)
        } else {
            step == Step::Done(Reply::Status(Status::Success))
        }
    }

    /// How the operation goes on after `reply`.
    pub open spec fn goes_on(self, pre: UsbBus, reply: Reply, post: UsbBus, step: Step) -> bool {
        let status = reply.as_status();
        let handles = self.handles@;
        let invalid = Step::Done(Reply::Status(Status::InvalidParameter));
        if pre.signature != USB_BUS_SIGNATURE {
            post == pre && step == invalid
        } else if self.at == RecursivelyConnectAt::Start {
            post == pre && (step matches Step::Act { action, next } && action == Action::LocateUsbIo
                && RecursivelyConnect::is_at(next, Seq::empty(), 0, RecursivelyConnectAt::Located))
        } else if self.at == RecursivelyConnectAt::Located {
            post == pre && if status == Status::NotFound {
                step == Step::Done(Reply::Status(Status::Success))
            } else if status != Status::Success {
                step == Step::Done(Reply::Status(status))
            } else if path_end(pre.device_path@, 0) is None {
                step == invalid
            } else {
                RecursivelyConnect::visits(reply.as_handles(), 0, step)
            }
        } else if self.index >= handles.len() {
            post == pre && step == Step::Done(Reply::Status(Status::Success))
        } else {
            let handle = handles[self.index as int];
            match self.at {
                RecursivelyConnectAt::Path => post == pre && if reply.as_bytes() matches Some(path)
                    && is_child_path(pre.device_path@, path) {
                    step matches Step::Act { action, next } && action == (Action::FindInterface {
                        handle,
                    }) && RecursivelyConnect::is_at(
                        next,
                        handles,
                        self.index as int,
                        RecursivelyConnectAt::Interface,
                    )
                } else {
                    RecursivelyConnect::visits(handles, self.index + 1, step)
                },
                RecursivelyConnectAt::Interface => post == pre && match reply.as_found() {
                    Some(interface) => step matches Step::Call { callee, next } && callee
                        == Frame::IsWanted(IsWanted::start(interface)) && RecursivelyConnect::is_at(
                        next,
                        handles,
                        self.index as int,
                        RecursivelyConnectAt::Judged { interface },
                    ),
                    None => RecursivelyConnect::visits(handles, self.index + 1, step),
                },
                RecursivelyConnectAt::Judged { interface } => post == pre && if reply.as_verdict() && (
                pre.interface(interface) matches Some(i) && !i.is_managed) {
                    step matches Step::Act { action, next } && action == (Action::ConnectController {
                        handle,
                    }) && RecursivelyConnect::is_at(
                        next,
                        handles,
                        self.index as int,
                        RecursivelyConnectAt::Connected { interface },
                    )
                } else {
                    RecursivelyConnect::visits(handles, self.index + 1, step)
                },
                RecursivelyConnectAt::Connected { interface } => {
                    &&& RecursivelyConnect::visits(handles, self.index + 1, step)
                    &&& match pre.interface(interface) {
                        Some(i) => pre.with_interface(
                            interface,
                            Some(UsbInterface { is_managed: status == Status::Success, ..i }),
                            post,
                        ),
                        None => post == pre,
                    }
                },
                // Dealt with above.
                RecursivelyConnectAt::Start | RecursivelyConnectAt::Located => false,
            }
        }
    }
}

fn visit(handles: Vec<usize>, index: usize) -> (step: Step)
    ensures
        RecursivelyConnect::visits(handles@, index as int, step),
{
    if index < handles.len() {
        let handle: usize = handles[index];
        Step::Act {
            action: Action::ReadDevicePath { handle },
            next: Frame::RecursivelyConnect(
                RecursivelyConnect { handles, index, at: RecursivelyConnectAt::Path },
            ),
        }
    } else {
        Step::Done(Reply::Status(Status::Success))
    }
}

/// Takes one step of connecting every wanted interface.
pub fn usb_bus_recursively_connect_wanted_usb_io(
    bus: &mut UsbBus,
    run: RecursivelyConnect,
    reply: Reply,
) -> (step: Step)
    requires
        old(bus).wf(),
    ensures
        run.goes_on(*old(bus), reply, *final(bus), step),
        final(bus).wf(),
{
    if bus.signature != USB_BUS_SIGNATURE {
        return Step::Done(Reply::Status(Status::InvalidParameter));
    }
    let status = reply.status();
    let index: usize = run.index;
    match run.at {
        RecursivelyConnectAt::Start => {
            return Step::Act {
                action: Action::LocateUsbIo,
                next: Frame::RecursivelyConnect(
                    RecursivelyConnect {
                        handles: Vec::new(),
                        index: 0,
                        at: RecursivelyConnectAt::Located,
                    },
                ),
            };
        },
        RecursivelyConnectAt::Located => {
            return match status {
                Status::NotFound => Step::Done(Reply::Status(Status::Success)),
                Status::Success => match device_path_temp_size(bus.device_path.as_slice()) {
                    Some(_) => visit(reply.into_handles(), 0),
                    None => Step::Done(Reply::Status(Status::InvalidParameter)),
                },
                _ => Step::Done(Reply::Status(status)),
            };
        },
        _ => {},
    }
    if index >= run.handles.len() {
        return Step::Done(Reply::Status(Status::Success));
    }
    let handle: usize = run.handles[index];
    match run.at {
        RecursivelyConnectAt::Path => {
            if let Some(path) = reply.into_bytes() {
                if leads_behind(bus.device_path.as_slice(), path.as_slice()) {
                    return Step::Act {
                        action: Action::FindInterface { handle },
                        next: Frame::RecursivelyConnect(
                            RecursivelyConnect { at: RecursivelyConnectAt::Interface, ..run },
                        ),
                    };
                }
            }
        },
        RecursivelyConnectAt::Interface => {
            if let Some(interface) = reply.found() {
                return Step::Call {
                    callee: Frame::IsWanted(IsWanted::new(interface)),
                    next: Frame::RecursivelyConnect(
                        RecursivelyConnect { at: RecursivelyConnectAt::Judged { interface }, ..run },
                    ),
                };
            }
        },
        RecursivelyConnectAt::Judged { interface } => {
            let managed = match bus.get_interface(interface) {
                Some(i) => i.is_managed,
                None => true,
            };
            if reply.verdict() && !managed {
                return Step::Act {
                    action: Action::ConnectController { handle },
                    next: Frame::RecursivelyConnect(
                        RecursivelyConnect { at: RecursivelyConnectAt::Connected { interface }, ..run },
                    ),
                };
            }
        },
        RecursivelyConnectAt::Connected { interface } => {
            if bus.get_interface(interface).is_some() {
                if let Some(device) = &mut bus.devices[interface.device as usize] {
                    if let Some(i) = &mut device.interfaces[interface.index as usize] {
                        i.is_managed = status.is_success();
                    }
                }
            }
        },
        _ => {},
    }
    visit(run.handles, index + 1)
}

/// What hangs on a hub behind the bus is behind the bus, too: the path of its
/// interface starts as the path of the bus does.
pub proof fn an_interface_of_a_child_is_behind_the_bus(
    bus_path: Seq<u8>,
    hub_path: Seq<u8>,
    parent_port: u8,
    interface_number: u8,
)
    requires
        is_child_path(bus_path, hub_path),
        end_offset(bus_path, 0) matches Some(end) && node_at(bus_path, end).length
            == DEVICE_PATH_HEADER_SIZE,
        end_offset(hub_path, 0) matches Some(end) && node_at(hub_path, end).length
            == DEVICE_PATH_HEADER_SIZE,
    ensures
        child_path(hub_path, parent_port, interface_number) matches Some(path) && is_child_path(
            bus_path,
            path,
        ),
{
    child_path_is_whole(hub_path, parent_port, interface_number);
    lemma_whole_path_end(bus_path, 0);
    lemma_whole_path_end(hub_path, 0);
    let path = child_path(hub_path, parent_port, interface_number)->0;
    let prefix = path_end(bus_path, 0)->0 - DEVICE_PATH_HEADER_SIZE;
    let end = end_offset(hub_path, 0)->0;
    lemma_common_start(bus_path, hub_path, 0);
    assert(path.take(prefix) =~= hub_path.take(prefix));
}

} // verus!
