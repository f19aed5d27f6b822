//! Standard control requests, and the operations that read descriptors with them.

use crate::search::{first_index, lemma_first_index_cons};
use crate::status::Status;
use crate::task::{Action, Frame, Reply, Step};
use crate::usb_2_host_controller::{UsbControlTransfer, UsbDataDirection, UsbDeviceRequest};
use crate::usb_bus_defs::{
    UsbBus, UsbDevice, USB_GENERAL_DEVICE_REQUEST_TIMEOUT, USB_MAX_LANG_ID, USB_RETRY_MAX_PACK_SIZE_STALL,
};
use crate::usb_desc::{
    byte_at, byte_of, read_config, usb_parse_config_desc, word_at, word_of, ConfigDescriptor,
    DeviceDescriptor, UsbConfigDesc, UsbDeviceDesc, CONFIG_DESCRIPTOR_SIZE, DEVICE_DESCRIPTOR_SIZE,
    USB_DESC_TYPE_CONFIG, USB_DESC_TYPE_DEVICE, USB_DESC_TYPE_STRING,
};
use vstd::prelude::*;

verus! {

pub const USB_REQ_TYPE_STANDARD: usize = 0x00;

pub const USB_TARGET_DEVICE: usize = 0x00;

pub const USB_REQ_GET_DESCRIPTOR: usize = 0x06;

pub const USB_REQ_SET_ADDRESS: usize = 0x05;

pub const USB_REQ_SET_CONFIG: usize = 0x09;

pub const USB_REQ_CLEAR_FEATURE: usize = 0x01;

/// The direction bit of a request that moves data to the host.
pub const USB_DATA_IN: u32 = 0x01;

/// The `bmRequestType` byte.
pub open spec fn request_type_byte(direction_is_in: bool, request_type: usize, target: usize) -> u8 {
    ((if direction_is_in {
        0x80usize
    } else {
        0usize
    }) | request_type | target) as u8
}

/// Builds the `bmRequestType` byte from direction, request type and target.
pub fn usb_request_type(direction_is_in: bool, request_type: usize, target: usize) -> (r: u8)
    ensures
        r == request_type_byte(direction_is_in, request_type, target),
{
    assert(USB_DATA_IN << 7 == 0x80) by (bit_vector);
    let direction: usize = if direction_is_in {
        (USB_DATA_IN << 7) as usize
    } else {
        0
    };
    (direction | request_type | target) as u8
}

/// The control transfer that makes a request of a device.
pub open spec fn ctrl_request(
    usb_dev: UsbDevice,
    direction: UsbDataDirection,
    request_type: usize,
    target: usize,
    request: usize,
    value: u16,
    index: u16,
    length: usize,
) -> UsbControlTransfer {
    UsbControlTransfer {
        address: usb_dev.address,
        speed: usb_dev.speed,
        max_packet: usb_dev.max_packet0 as usize,
        request: UsbDeviceRequest {
            request_type: request_type_byte(direction == UsbDataDirection::In, request_type, target),
            request: request as u8,
            value,
            index,
            length: length as u16,
        },
        direction,
        length,
        timeout: USB_GENERAL_DEVICE_REQUEST_TIMEOUT as usize,
        translator: usb_dev.translator,
    }
}

/// Builds the control transfer that makes a request of a device.
pub fn usb_ctrl_request(
    usb_dev: &UsbDevice,
    direction: UsbDataDirection,
    request_type: usize,
    target: usize,
    request: usize,
    value: u16,
    index: u16,
    length: usize,
) -> (r: UsbControlTransfer)
    ensures
        r == ctrl_request(*usb_dev, direction, request_type, target, request, value, index, length),
{
    let direction_is_in = match direction {
        UsbDataDirection::In => true,
        _ => false,
    };
    UsbControlTransfer {
        address: usb_dev.address,
        speed: usb_dev.speed,
        max_packet: usb_dev.max_packet0 as usize,
        request: UsbDeviceRequest {
            request_type: usb_request_type(direction_is_in, request_type, target),
            request: request as u8,
            value,
            index,
            length: length as u16,
        },
        direction,
        length,
        timeout: USB_GENERAL_DEVICE_REQUEST_TIMEOUT as usize,
        translator: usb_dev.translator,
    }
}

/// The value of a request for a descriptor: the type of the descriptor goes into the
/// high byte and its index into the low byte.
pub open spec fn descriptor_name(descriptor_type: usize, descriptor_index: usize) -> u16 {
    ((descriptor_type << 8) | descriptor_index) as u16
}

/// The control transfer that asks for a standard descriptor.
pub open spec fn ctrl_get_desc(
    usb_dev: UsbDevice,
    descriptor_type: usize,
    descriptor_index: usize,
    language_id: u16,
    length: usize,
) -> UsbControlTransfer {
    ctrl_request(
        usb_dev,
        UsbDataDirection::In,
        USB_REQ_TYPE_STANDARD,
        USB_TARGET_DEVICE,
        USB_REQ_GET_DESCRIPTOR,
        descriptor_name(descriptor_type, descriptor_index),
        language_id,
        length,
    )
}

/// Builds the control transfer that asks for a standard descriptor.
pub fn usb_ctrl_get_desc(
    usb_dev: &UsbDevice,
    descriptor_type: usize,
    descriptor_index: usize,
    language_id: u16,
    length: usize,
) -> (r: UsbControlTransfer)
    ensures
        r == ctrl_get_desc(*usb_dev, descriptor_type, descriptor_index, language_id, length),
{
    usb_ctrl_request(
        usb_dev,
        UsbDataDirection::In,
        USB_REQ_TYPE_STANDARD,
        USB_TARGET_DEVICE,
        USB_REQ_GET_DESCRIPTOR,
        ((descriptor_type << 8) | descriptor_index) as u16,
        language_id,
        length,
    )
}

/// A descriptor is named by its type and its index: neither disturbs the other.
pub proof fn descriptor_name_is_packed(descriptor_type: u8, descriptor_index: u8)
    ensures
        descriptor_name(descriptor_type as usize, descriptor_index as usize) == 256 * descriptor_type
            + descriptor_index,
{
    assert((((descriptor_type as usize) << 8) | (descriptor_index as usize)) as u16 == 256
        * descriptor_type + descriptor_index) by (bit_vector);
}

/// The control transfer that gives a device its address.
pub open spec fn set_address_request(usb_dev: UsbDevice, address: u8) -> UsbControlTransfer {
    ctrl_request(
        usb_dev,
        UsbDataDirection::NoData,
        USB_REQ_TYPE_STANDARD,
        USB_TARGET_DEVICE,
        USB_REQ_SET_ADDRESS,
        address as u16,
        0,
        0,
    )
}

/// Builds the control transfer that gives a device its address.
pub fn usb_set_address(usb_dev: &UsbDevice, address: u8) -> (r: UsbControlTransfer)
    ensures
        r == set_address_request(*usb_dev, address),
{
    usb_ctrl_request(
        usb_dev,
        UsbDataDirection::NoData,
        USB_REQ_TYPE_STANDARD,
        USB_TARGET_DEVICE,
        USB_REQ_SET_ADDRESS,
        address as u16,
        0,
        0,
    )
}

/// The control transfer that switches a device to a configuration.
pub open spec fn set_config_request(usb_dev: UsbDevice, configuration: u8) -> UsbControlTransfer {
    ctrl_request(
        usb_dev,
        UsbDataDirection::NoData,
        USB_REQ_TYPE_STANDARD,
        USB_TARGET_DEVICE,
        USB_REQ_SET_CONFIG,
        configuration as u16,
        0,
        0,
    )
}

/// Builds the control transfer that switches a device to a configuration.
pub fn usb_set_config(usb_dev: &UsbDevice, configuration: u8) -> (r: UsbControlTransfer)
    ensures
        r == set_config_request(*usb_dev, configuration),
{
    usb_ctrl_request(
        usb_dev,
        UsbDataDirection::NoData,
        USB_REQ_TYPE_STANDARD,
        USB_TARGET_DEVICE,
        USB_REQ_SET_CONFIG,
        configuration as u16,
        0,
        0,
    )
}

/// Reads the packet size of endpoint 0 and stores it. As many attempts are made as
/// are left, with a pause after each that failed. All answers go into the same buffer, so
/// that a short one leaves what was there before.
#[derive(Clone, Copy, Debug)]
pub struct GetMaxPacketSize0 {
    pub device: u8,
    pub left: u8,
    /// What the buffer holds.
    pub buffer: DeviceDescriptor,
    pub at: GetMaxPacketSize0At,
}

#[derive(Clone, Copy, Debug, PartialEq, Eq, Structural)]
pub enum GetMaxPacketSize0At {
    Ask,
    Answer,
}

pub const USB_MAX_PACKET_SIZE_ATTEMPTS: u8 = 3;

/// The packet size that the first eight bytes of a device descriptor announce. From
/// USB 3.0 on the value 9 is an exponent.
pub open spec fn announced_packet_size(descriptor: DeviceDescriptor) -> u32 {
    if descriptor.bcd_usb >= 0x0300 && descriptor.max_packet_size0 == 9 {
        512
    } else {
        descriptor.max_packet_size0 as u32
    }
}

impl GetMaxPacketSize0 {
    pub open spec fn start(device: u8) -> GetMaxPacketSize0 {
        GetMaxPacketSize0 {
            device,
            left: USB_MAX_PACKET_SIZE_ATTEMPTS,
            buffer: DeviceDescriptor::blank(),
            at: GetMaxPacketSize0At::Ask,
        }
    }

    pub fn new(device: u8) -> (r: GetMaxPacketSize0)
        ensures
            r == GetMaxPacketSize0::start(device),
    {
        GetMaxPacketSize0 {
            device,
            left: USB_MAX_PACKET_SIZE_ATTEMPTS,
            buffer: DeviceDescriptor::new(),
            at: GetMaxPacketSize0At::Ask,
        }
    }

    /// What the operation does after `reply`.
    pub open spec fn next(self, bus: UsbBus, reply: Reply) -> Step {
        match bus.device(self.device) {
            None => Step::Done(Reply::Status(Status::InvalidParameter)),
            Some(d) => match self.at {
                GetMaxPacketSize0At::Ask => if self.left == 0 {
                    Step::Done(Reply::Status(Status::DeviceError))
                } else {
                    Step::Act {
                        action: Action::ControlTransferOnto {
                            transfer: ctrl_get_desc(d, USB_DESC_TYPE_DEVICE as usize, 0, 0, 8),
                            buffer: self.buffer,
                        },
                        next: Frame::GetMaxPacketSize0(
                            GetMaxPacketSize0 {
                                left: (self.left - 1) as u8,
                                at: GetMaxPacketSize0At::Answer,
                                ..self
                            },
                        ),
                    }
                },
                GetMaxPacketSize0At::Answer => if reply.as_status().fails() {
                    Step::Act {
                        action: Action::Stall { micros: USB_RETRY_MAX_PACK_SIZE_STALL },
                        next: Frame::GetMaxPacketSize0(
                            GetMaxPacketSize0 {
                                buffer: DeviceDescriptor::of(reply.as_data()),
                                at: GetMaxPacketSize0At::Ask,
                                ..self
                            },
                        ),
                    }
                } else {
                    Step::Done(Reply::Status(Status::Success))
                },
            },
        }
    }

    /// How the operation goes on after `reply`: what it does, and that it stores the
    /// packet size once the device has answered.
    pub open spec fn goes_on(self, pre: UsbBus, reply: Reply, post: UsbBus, step: Step) -> bool {
        &&& step == self.next(pre, reply)
        &&& match pre.device(self.device) {
            Some(d) if self.at == GetMaxPacketSize0At::Answer && !reply.as_status().fails() => {
                pre.with_device(
                    self.device,
                    Some(
                        UsbDevice {
                            max_packet0: announced_packet_size(DeviceDescriptor::of(reply.as_data())),
                            ..d
                        },
                    ),
                    post,
                )
            },
            _ => post == pre,
        }
    }

    /// What the operation does after as many answers as there are `answers`, with
    /// pauses in between.
    pub open spec fn after_answers(self, bus: UsbBus, answers: Seq<Reply>) -> Step
        decreases answers.len(),
    {
        match self.next(bus, Reply::Nothing) {
            Step::Act { action, next: Frame::GetMaxPacketSize0(asked) } => if answers.len() == 0 {
                Step::Act { action, next: Frame::GetMaxPacketSize0(asked) }
            } else {
                match asked.next(bus, answers[0]) {
                    Step::Act { next: Frame::GetMaxPacketSize0(again), .. } => again.after_answers(
                        bus,
                        answers.drop_first(),
                    ),
                    step => step,
                }
            },
            step => step,
        }
    }
}

/// An answer is good.
pub open spec fn answers_well() -> spec_fn(Reply) -> bool {
    |answer: Reply| !answer.as_status().fails()
}

/// The device is asked until it answers well, and given up after as many answers as
/// attempts were left. Each time the buffer is what the last answer left.
pub proof fn packet_size_is_asked_for_until_answered(
    run: GetMaxPacketSize0,
    bus: UsbBus,
    answers: Seq<Reply>,
)
    requires
        bus.device(run.device) is Some,
        run.at == GetMaxPacketSize0At::Ask,
        answers.len() <= run.left,
    ensures
        match first_index(answers, answers_well()) {
            Some(_) => run.after_answers(bus, answers) == Step::Done(Reply::Status(Status::Success)),
            None => if answers.len() == run.left {
                run.after_answers(bus, answers) == Step::Done(Reply::Status(Status::DeviceError))
            } else {
                run.after_answers(bus, answers) matches Step::Act { action, .. } && action == (
                Action::ControlTransferOnto {
                    transfer: ctrl_get_desc(
                        bus.device(run.device)->0,
                        USB_DESC_TYPE_DEVICE as usize,
                        0,
                        0,
                        8,
                    ),
                    buffer: if answers.len() == 0 {
                        run.buffer
                    } else {
                        DeviceDescriptor::of(answers.last().as_data())
                    },
                })
            },
        },
    decreases answers.len(),
{
    let p = answers_well();
    reveal_with_fuel(GetMaxPacketSize0::after_answers, 2);
    if answers.len() > 0 {
        lemma_first_index_cons(answers, p);
        if !p(answers[0]) {
            let again = GetMaxPacketSize0 {
                left: (run.left - 1) as u8,
                buffer: DeviceDescriptor::of(answers[0].as_data()),
                ..run
            };
            if answers.len() > 1 {
                assert(answers.drop_first().last() == answers.last());
            }
            packet_size_is_asked_for_until_answered(again, bus, answers.drop_first());
        }
    }
}

/// Takes one step of reading the packet size of endpoint 0.
pub fn usb_get_max_packet_size0(bus: &mut UsbBus, run: GetMaxPacketSize0, reply: Reply) -> (step: Step)
    requires
        old(bus).wf(),
    ensures
        run.goes_on(*old(bus), reply, *final(bus), step),
        final(bus).wf(),
{
    let d = match bus.get_device(run.device) {
        Some(d) => d,
        None => return Step::Done(Reply::Status(Status::InvalidParameter)),
    };
    match run.at {
        GetMaxPacketSize0At::Ask => {
            if run.left == 0 {
                return Step::Done(Reply::Status(Status::DeviceError));
            }
            Step::Act {
                action: Action::ControlTransferOnto {
                    transfer: usb_ctrl_get_desc(d, USB_DESC_TYPE_DEVICE as usize, 0, 0, 8),
                    buffer: run.buffer,
                },
                next: Frame::GetMaxPacketSize0(
                    GetMaxPacketSize0 { left: run.left - 1, at: GetMaxPacketSize0At::Answer, ..run },
                ),
            }
        },
        GetMaxPacketSize0At::Answer => {
            let failed = reply.status().is_error();
            let data: Vec<u8> = reply.into_data();
            let descriptor = DeviceDescriptor::read(data.as_slice());
            if failed {
                return Step::Act {
                    action: Action::Stall { micros: USB_RETRY_MAX_PACK_SIZE_STALL },
                    next: Frame::GetMaxPacketSize0(
                        GetMaxPacketSize0 { buffer: descriptor, at: GetMaxPacketSize0At::Ask, ..run },
                    ),
                };
            }
            let size: u32 = if descriptor.bcd_usb >= 0x0300 && descriptor.max_packet_size0 == 9 {
                512
            } else {
                descriptor.max_packet_size0 as u32
            };
            if let Some(d) = &mut bus.devices[run.device as usize] {
                d.max_packet0 = size;
            }
            Step::Done(Reply::Status(Status::Success))
        },
    }
}

/// Reads the device descriptor and stores it.
#[derive(Clone, Copy, Debug)]
pub struct GetDevDesc {
    pub device: u8,
    pub asked: bool,
}

impl GetDevDesc {
    /// How the operation goes on after `reply`.
    pub open spec fn goes_on(self, pre: UsbBus, reply: Reply, post: UsbBus, step: Step) -> bool {
        match pre.device(self.device) {
            None => post == pre && step == Step::Done(Reply::Status(Status::InvalidParameter)),
            Some(d) => if !self.asked {
                post == pre && step == (Step::Act {
                    action: Action::ControlTransfer(
                        ctrl_get_desc(d, USB_DESC_TYPE_DEVICE as usize, 0, 0, DEVICE_DESCRIPTOR_SIZE),
                    ),
                    next: Frame::GetDevDesc(GetDevDesc { asked: true, ..self }),
                })
            } else {
                &&& step == Step::Done(Reply::Status(reply.as_status()))
                &&& if reply.as_status().fails() {
                    post == pre
                } else {
                    post.device(self.device) matches Some(e) && pre.with_device(
                        self.device,
                        Some(UsbDevice { dev_desc: e.dev_desc, ..d }),
                        post,
                    ) && (e.dev_desc matches Some(desc) && desc.descriptor == DeviceDescriptor::of(
                        reply.as_data(),
                    ) && desc.configs@.len() == 0)
                }
            },
        }
    }
}

/// Takes one step of reading the device descriptor.
pub fn usb_get_dev_desc(bus: &mut UsbBus, run: GetDevDesc, reply: Reply) -> (step: Step)
    requires
        old(bus).wf(),
    ensures
        run.goes_on(*old(bus), reply, *final(bus), step),
        final(bus).wf(),
{
    let d = match bus.get_device(run.device) {
        Some(d) => d,
        None => return Step::Done(Reply::Status(Status::InvalidParameter)),
    };
    if !run.asked {
        return Step::Act {
            action: Action::ControlTransfer(
                usb_ctrl_get_desc(d, USB_DESC_TYPE_DEVICE as usize, 0, 0, DEVICE_DESCRIPTOR_SIZE),
            ),
            next: Frame::GetDevDesc(GetDevDesc { asked: true, ..run }),
        };
    }
    let status = reply.status();
    if !status.is_error() {
        let data: Vec<u8> = reply.into_data();
        let descriptor = DeviceDescriptor::read(data.as_slice());
        if let Some(d) = &mut bus.devices[run.device as usize] {
            d.dev_desc = Some(UsbDeviceDesc { descriptor, configs: Vec::new() });
        }
    }
    Step::Done(Reply::Status(status))
}

/// The text of a string descriptor with the given length byte: the bytes behind the
/// header, in pairs. Bytes that are missing count as zero.
pub open spec fn string_units(data: Seq<u8>, length: u8) -> Seq<u16> {
    Seq::new(((length - 2) / 2) as nat, |i: int| word_of(data, 2 + 2 * i))
}

/// Decodes the text of a string descriptor.
fn decode_string(data: &[u8], length: u8) -> (r: Vec<u16>)
    requires
        length >= 2,
    ensures
        r@ == string_units(data@, length),
{
    let count: usize = (length as usize - 2) / 2;
    let mut units: Vec<u16> = Vec::new();
    let mut i: usize = 0;
    while i < count
        invariant
            i <= count,
            count == (length - 2) / 2,
            units@ == string_units(data@, length).take(i as int),
        decreases count - i,
    {
        units.push(word_at(data, 2 + 2 * i));
        i = i + 1;
        proof {
            assert(string_units(data@, length).take(i as int) =~= string_units(data@, length).take(
                i - 1,
            ).push(word_of(data@, 2 + 2 * (i - 1))));
        }
    }
    proof {
        assert(string_units(data@, length).take(count as int) =~= string_units(data@, length));
    }
    units
}

/// The bytes of a string descriptor.
pub open spec fn string_bytes(text: Seq<u16>) -> Seq<u8> {
    Seq::new(
        (2 + 2 * text.len()) as nat,
        |i: int|
            if i == 0 {
                (2 + 2 * text.len()) as u8
            } else if i == 1 {
                USB_DESC_TYPE_STRING
            } else if i % 2 == 0 {
                (text[(i - 2) / 2] % 256) as u8
            } else {
                (text[(i - 2) / 2] / 256) as u8
            },
    )
}

/// A text that fits into a string descriptor is read back from its bytes.
pub proof fn string_is_read_back(text: Seq<u16>)
    requires
        2 + 2 * text.len() <= 255,
    ensures
        string_units(string_bytes(text), string_bytes(text)[0]) == text,
{
    let bytes = string_bytes(text);
    assert forall|i: int| 0 <= i < text.len() implies #[trigger] string_units(bytes, bytes[0])[i]
        == text[i] by {
        assert(bytes[2 + 2 * i] == (text[i] % 256) as u8);
        assert(bytes[3 + 2 * i] == (text[i] / 256) as u8);
    }
    assert(string_units(bytes, bytes[0]) =~= text);
}

/// Reads a string descriptor: first its length, then the whole of it.
#[derive(Clone, Copy, Debug)]
pub struct GetOneString {
    pub device: u8,
    pub index: u8,
    pub language_id: u16,
    pub at: GetOneStringAt,
}

#[derive(Clone, Copy, Debug)]
pub enum GetOneStringAt {
    Start,
    Header,
    Body { length: u8 },
}

impl GetOneString {
    pub open spec fn start(device: u8, index: u8, language_id: u16) -> GetOneString {
        GetOneString { device, index, language_id, at: GetOneStringAt::Start }
    }

    pub fn new(device: u8, index: u8, language_id: u16) -> (r: GetOneString)
        ensures
            r == GetOneString::start(device, index, language_id),
    {
        GetOneString { device, index, language_id, at: GetOneStringAt::Start }
    }

    /// How the operation goes on after `reply`.
    pub open spec fn goes_on(self, bus: UsbBus, reply: Reply, step: Step) -> bool {
        let nothing = Step::Done(Reply::Text(None));
        match bus.device(self.device) {
            None => step == nothing,
            Some(d) => match self.at {
                GetOneStringAt::Start => step == (Step::Act {
                    action: Action::ControlTransfer(
                        ctrl_get_desc(
                            d,
                            USB_DESC_TYPE_STRING as usize,
                            self.index as usize,
                            self.language_id,
                            2,
                        ),
                    ),
                    next: Frame::GetOneString(GetOneString { at: GetOneStringAt::Header, ..self }),
                }),
                GetOneStringAt::Header => {
                    let length = byte_of(reply.as_data(), 0);
                    step == (if reply.as_status().fails() || length < 2 || length % 2 != 0 {
                        nothing
                    } else {
                        Step::Act {
                            action: Action::ControlTransfer(
                                ctrl_get_desc(
                                    d,
                                    USB_DESC_TYPE_STRING as usize,
                                    self.index as usize,
                                    self.language_id,
                                    length as usize,
                                ),
                            ),
                            next: Frame::GetOneString(
                                GetOneString { at: GetOneStringAt::Body { length }, ..self },
                            ),
                        }
                    })
                },
                GetOneStringAt::Body { length } => if reply.as_status().fails() || length < 2 {
                    step == nothing
                } else {
                    step matches Step::Done(answer) && answer.as_text() == Some(
                        string_units(reply.as_data(), length),
                    )
                },
            },
        }
    }
}

/// Takes one step of reading a string descriptor.
pub fn usb_get_one_string(bus: &UsbBus, run: GetOneString, reply: Reply) -> (step: Step)
    requires
        bus.wf(),
    ensures
        run.goes_on(*bus, reply, step),
{
    let d = match bus.get_device(run.device) {
        Some(d) => d,
        None => return Step::Done(Reply::Text(None)),
    };
    match run.at {
        GetOneStringAt::Start => Step::Act {
            action: Action::ControlTransfer(
                usb_ctrl_get_desc(
                    d,
                    USB_DESC_TYPE_STRING as usize,
                    run.index as usize,
                    run.language_id,
                    2,
                ),
            ),
            next: Frame::GetOneString(GetOneString { at: GetOneStringAt::Header, ..run }),
        },
        GetOneStringAt::Header => {
            let failed = reply.status().is_error();
            let data: Vec<u8> = reply.into_data();
            let length: u8 = byte_at(data.as_slice(), 0);
            if failed || length < 2 || length % 2 != 0 {
                return Step::Done(Reply::Text(None));
            }
            Step::Act {
                action: Action::ControlTransfer(
                    usb_ctrl_get_desc(
                        d,
                        USB_DESC_TYPE_STRING as usize,
                        run.index as usize,
                        run.language_id,
                        length as usize,
                    ),
                ),
                next: Frame::GetOneString(GetOneString { at: GetOneStringAt::Body { length }, ..run }),
            }
        },
        GetOneStringAt::Body { length } => {
            if reply.status().is_error() || length < 2 {
                return Step::Done(Reply::Text(None));
            }
            let data: Vec<u8> = reply.into_data();
            Step::Done(Reply::Text(Some(decode_string(data.as_slice(), length))))
        },
    }
}

/// Reads the table of languages in which a device has its strings.
#[derive(Clone, Copy, Debug)]
pub struct BuildLangTable {
    pub device: u8,
    pub asked: bool,
}

/// The number of languages that are kept.
pub open spec fn language_count(languages: Seq<u16>) -> int {
    if languages.len() < USB_MAX_LANG_ID {
        languages.len() as int
    } else {
        USB_MAX_LANG_ID as int
    }
}

impl BuildLangTable {
    /// How the operation goes on after `reply`.
    pub open spec fn goes_on(self, pre: UsbBus, reply: Reply, post: UsbBus, step: Step) -> bool {
        match pre.device(self.device) {
            None => post == pre && step == Step::Done(Reply::Status(Status::InvalidParameter)),
            Some(d) => if !self.asked {
                post == pre && step == (Step::Call {
                    callee: Frame::GetOneString(GetOneString::start(self.device, 0, 0)),
                    next: Frame::BuildLangTable(BuildLangTable { asked: true, ..self }),
                })
            } else {
                match reply.as_text() {
                    Some(languages) if languages.len() > 0 => {
                        &&& step == Step::Done(Reply::Status(Status::Success))
                        &&& post.device(self.device) matches Some(e) && pre.with_device(
                            self.device,
                            Some(
                                UsbDevice {
                                    lang_id: e.lang_id,
                                    total_lang_id: language_count(languages) as u16,
                                    ..d
                                },
                            ),
                            post,
                        ) && forall|i: int|
                            0 <= i < USB_MAX_LANG_ID ==> #[trigger] e.lang_id@[i] == (if i
                                < languages.len() {
                                languages[i]
                            } else {
                                d.lang_id@[i]
                            })
                    },
                    _ => post == pre && step == Step::Done(Reply::Status(Status::Unsupported)),
                }
            },
        }
    }
}

/// Takes one step of reading the language table.
pub fn usb_build_lang_table(bus: &mut UsbBus, run: BuildLangTable, reply: Reply) -> (step: Step)
    requires
        old(bus).wf(),
    ensures
        run.goes_on(*old(bus), reply, *final(bus), step),
        final(bus).wf(),
{
    let mut table: [u16; 16] = match bus.get_device(run.device) {
        Some(d) => d.lang_id,
        None => return Step::Done(Reply::Status(Status::InvalidParameter)),
    };
    if !run.asked {
        return Step::Call {
            callee: Frame::GetOneString(GetOneString::new(run.device, 0, 0)),
            next: Frame::BuildLangTable(BuildLangTable { asked: true, ..run }),
        };
    }
    let languages: Vec<u16> = match reply.into_text() {
        Some(languages) => languages,
        None => return Step::Done(Reply::Status(Status::Unsupported)),
    };
    if languages.len() == 0 {
        return Step::Done(Reply::Status(Status::Unsupported));
    }
    let count: usize = if languages.len() < USB_MAX_LANG_ID {
        languages.len()
    } else {
        USB_MAX_LANG_ID
    };
    let ghost before = table@;
    let mut i: usize = 0;
    while i < count
        invariant
            i <= count,
            count == language_count(languages@),
            before.len() == USB_MAX_LANG_ID,
            forall|j: int|
                0 <= j < USB_MAX_LANG_ID ==> #[trigger] table@[j] == (if j < i {
                    languages@[j]
                } else {
                    before[j]
                }),
        decreases count - i,
    {
        table[i] = languages[i];
        i = i + 1;
    }
    if let Some(d) = &mut bus.devices[run.device as usize] {
        d.lang_id = table;
        d.total_lang_id = count as u16;
    }
    Step::Done(Reply::Status(Status::Success))
}

/// The first `length` bytes of a buffer of zeros into which `data` was read.
pub open spec fn filled(data: Seq<u8>, length: int) -> Seq<u8> {
    Seq::new(length as nat, |i: int| byte_of(data, i))
}

/// Cuts a buffer to a length, or fills it up with zeros.
pub fn fill(data: Vec<u8>, length: usize) -> (r: Vec<u8>)
    ensures
        r@ == filled(data@, length as int),
{
    let mut r: Vec<u8> = Vec::new();
    while r.len() < length
        invariant
            r@.len() <= length,
            r@ == filled(data@, r@.len() as int),
        decreases length - r@.len(),
    {
        r.push(byte_at(data.as_slice(), r.len()));
        proof {
            assert(r@ =~= filled(data@, r@.len() as int));
        }
    }
    r
}

/// Reads a configuration descriptor with all that belongs to it: first its total
/// length, then the whole of it.
#[derive(Clone, Copy, Debug)]
pub struct GetOneConfig {
    pub device: u8,
    pub index: u8,
    pub at: GetOneConfigAt,
}

#[derive(Clone, Copy, Debug)]
pub enum GetOneConfigAt {
    Start,
    Header,
    Body { length: u16 },
}

impl GetOneConfig {
    pub open spec fn start(device: u8, index: u8) -> GetOneConfig {
        GetOneConfig { device, index, at: GetOneConfigAt::Start }
    }

    pub fn new(device: u8, index: u8) -> (r: GetOneConfig)
        ensures
            r == GetOneConfig::start(device, index),
    {
        GetOneConfig { device, index, at: GetOneConfigAt::Start }
    }

    /// How the operation goes on after `reply`.
    pub open spec fn goes_on(self, bus: UsbBus, reply: Reply, step: Step) -> bool {
        let nothing = Step::Done(Reply::Bytes(None));
        match bus.device(self.device) {
            None => step == nothing,
            Some(d) => match self.at {
                GetOneConfigAt::Start => step == (Step::Act {
                    action: Action::ControlTransfer(
                        ctrl_get_desc(d, USB_DESC_TYPE_CONFIG as usize, self.index as usize, 0, 8),
                    ),
                    next: Frame::GetOneConfig(GetOneConfig { at: GetOneConfigAt::Header, ..self }),
                }),
                GetOneConfigAt::Header => {
                    let length = ConfigDescriptor::of(reply.as_data()).total_length;
                    step == (if reply.as_status().fails() || length < CONFIG_DESCRIPTOR_SIZE {
                        nothing
                    } else {
                        Step::Act {
                            action: Action::ControlTransfer(
                                ctrl_get_desc(
                                    d,
                                    USB_DESC_TYPE_CONFIG as usize,
                                    self.index as usize,
                                    0,
                                    length as usize,
                                ),
                            ),
                            next: Frame::GetOneConfig(
                                GetOneConfig { at: GetOneConfigAt::Body { length }, ..self },
                            ),
                        }
                    })
                },
                GetOneConfigAt::Body { length } => if reply.as_status().fails() {
                    step == nothing
                } else {
                    step matches Step::Done(answer) && answer.as_bytes() == Some(
                        filled(reply.as_data(), length as int),
                    )
                },
            },
        }
    }
}

/// Takes one step of reading a configuration descriptor.
pub fn usb_get_one_config(bus: &UsbBus, run: GetOneConfig, reply: Reply) -> (step: Step)
    requires
        bus.wf(),
    ensures
        run.goes_on(*bus, reply, step),
{
    let d = match bus.get_device(run.device) {
        Some(d) => d,
        None => return Step::Done(Reply::Bytes(None)),
    };
    match run.at {
        GetOneConfigAt::Start => Step::Act {
            action: Action::ControlTransfer(
                usb_ctrl_get_desc(
                    d,
                    USB_DESC_TYPE_CONFIG as usize,
                    run.index as usize,
                    0,
                    8,
                ),
            ),
            next: Frame::GetOneConfig(GetOneConfig { at: GetOneConfigAt::Header, ..run }),
        },
        GetOneConfigAt::Header => {
            let failed = reply.status().is_error();
            let data: Vec<u8> = reply.into_data();
            let length: u16 = ConfigDescriptor::read(data.as_slice()).total_length;
            if failed || (length as usize) < CONFIG_DESCRIPTOR_SIZE {
                return Step::Done(Reply::Bytes(None));
            }
            Step::Act {
                action: Action::ControlTransfer(
                    usb_ctrl_get_desc(
                        d,
                        USB_DESC_TYPE_CONFIG as usize,
                        run.index as usize,
                        0,
                        length as usize,
                    ),
                ),
                next: Frame::GetOneConfig(GetOneConfig { at: GetOneConfigAt::Body { length }, ..run }),
            }
        },
        GetOneConfigAt::Body { length } => {
            if reply.status().is_error() {
                return Step::Done(Reply::Bytes(None));
            }
            let data: Vec<u8> = reply.into_data();
            Step::Done(Reply::Bytes(Some(fill(data, length as usize))))
        },
    }
}

/// Reads and parses all descriptors of a device.
#[derive(Debug)]
pub struct BuildDescTable {
    pub device: u8,
    pub at: BuildDescTableAt,
}

#[derive(Debug)]
pub enum BuildDescTableAt {
    Start,
    Device,
    /// The configurations that have been read so far.
    Config { count: u8, configs: Vec<Option<UsbConfigDesc>> },
    Languages,
}

/// A table of `count` configurations of which only `configs` are known.
pub open spec fn padded(configs: Seq<Option<UsbConfigDesc>>, count: u8) -> Seq<Option<UsbConfigDesc>> {
    configs + Seq::new(
        if count > configs.len() {
            (count - configs.len()) as nat
        } else {
            0
        },
        |i: int| None::<UsbConfigDesc>,
    )
}

impl BuildDescTable {
    pub open spec fn is_start(self, device: u8) -> bool {
        self == (BuildDescTable { device, at: BuildDescTableAt::Start })
    }

    pub fn new(device: u8) -> (r: BuildDescTable)
        ensures
            r.is_start(device),
    {
        BuildDescTable { device, at: BuildDescTableAt::Start }
    }

    /// The operation asks for the next configuration, knowing `configs`.
    pub open spec fn asks_next(
        device: u8,
        count: u8,
        configs: Seq<Option<UsbConfigDesc>>,
        step: Step,
    ) -> bool {
        step matches Step::Call { callee, next: Frame::BuildDescTable(next) } && callee
            == Frame::GetOneConfig(GetOneConfig::start(device, configs.len() as u8)) && next.device
            == device && (next.at matches BuildDescTableAt::Config { count: c, configs: v } && c
            == count && v@ == configs)
    }

    /// The operation stores `configs`, filled up with empty slots, and goes on to the
    /// languages.
    pub open spec fn stores(
        device: u8,
        pre: UsbBus,
        count: u8,
        configs: Seq<Option<UsbConfigDesc>>,
        post: UsbBus,
        step: Step,
    ) -> bool {
        &&& step == (Step::Call {
            callee: Frame::BuildLangTable(BuildLangTable { device, asked: false }),
            next: Frame::BuildDescTable(
                BuildDescTable { device, at: BuildDescTableAt::Languages },
            ),
        })
        &&& pre.device(device) matches Some(d) && d.dev_desc matches Some(desc) && post.device(
            device,
        ) matches Some(e) && e.dev_desc matches Some(table) && pre.with_device(
            device,
            Some(
                UsbDevice {
                    dev_desc: Some(
                        UsbDeviceDesc { descriptor: desc.descriptor, configs: table.configs },
                    ),
                    ..d
                },
            ),
            post,
        ) && table.configs@ == padded(configs, count)
    }

    /// How the operation goes on after `reply`. The configurations are read in order
    /// until one of them cannot be read or parsed; the first one has to be good.
    pub open spec fn goes_on(self, pre: UsbBus, reply: Reply, post: UsbBus, step: Step) -> bool {
        let stays = post == pre;
        match pre.device(self.device) {
            None => stays && step == Step::Done(Reply::Status(Status::InvalidParameter)),
            Some(d) => match self.at {
                BuildDescTableAt::Start => stays && step == (Step::Call {
                    callee: Frame::GetDevDesc(GetDevDesc { device: self.device, asked: false }),
                    next: Frame::BuildDescTable(
                        BuildDescTable { at: BuildDescTableAt::Device, device: self.device },
                    ),
                }),
                BuildDescTableAt::Device => stays && if reply.as_status().fails() {
                    step == Step::Done(Reply::Status(reply.as_status()))
                } else {
                    match d.dev_desc {
                        Some(desc) if desc.descriptor.num_configurations > 0 => BuildDescTable::asks_next(
                            self.device,
                            desc.descriptor.num_configurations,
                            Seq::empty(),
                            step,
                        ),
                        _ => step == Step::Done(Reply::Status(Status::DeviceError)),
                    }
                },
                BuildDescTableAt::Config { count, configs } => {
                    let parsed = match reply.as_bytes() {
                        Some(bytes) => read_config(bytes),
                        None => None,
                    };
                    match parsed {
                        None => if configs@.len() == 0 || d.dev_desc is None {
                            stays && step == Step::Done(Reply::Status(Status::DeviceError))
                        } else {
                            BuildDescTable::stores(self.device, pre, count, configs@, post, step)
                        },
                        Some(view) => exists|config: UsbConfigDesc|
                            #![trigger configs@.push(Some(config))]
                            {
                                let now = configs@.push(Some(config));
                                config@ == view && if now.len() < count {
                                    stays && BuildDescTable::asks_next(self.device, count, now, step)
                                } else if d.dev_desc is None {
                                    stays && step == Step::Done(Reply::Status(Status::DeviceError))
                                } else {
                                    BuildDescTable::stores(self.device, pre, count, now, post, step)
                                }
                            },
                    }
                },
                BuildDescTableAt::Languages => stays && step == Step::Done(
                    Reply::Status(Status::Success),
                ),
            },
        }
    }
}

/// Stores the configurations of a device and turns to its languages.
fn store_configs(
    bus: &mut UsbBus,
    device: u8,
    count: u8,
    configs: Vec<Option<UsbConfigDesc>>,
) -> (step: Step)
    requires
        old(bus).wf(),
        old(bus).device(device) is Some,
    ensures
        if old(bus).device(device)->0.dev_desc is None {
            *final(bus) == *old(bus) && step == Step::Done(Reply::Status(Status::DeviceError))
        } else {
            BuildDescTable::stores(device, *old(bus), count, configs@, *final(bus), step)
        },
        final(bus).wf(),
{
    match bus.get_device(device) {
        Some(d) => match &d.dev_desc {
            Some(_) => {},
            None => return Step::Done(Reply::Status(Status::DeviceError)),
        },
        None => return Step::Done(Reply::Status(Status::DeviceError)),
    }
    let mut configs = configs;
    let ghost read = configs@;
    while configs.len() < count as usize
        invariant
            read.len() <= configs@.len(),
            configs@.len() <= count || configs@.len() == read.len(),
            configs@ == read + Seq::new(
                (configs@.len() - read.len()) as nat,
                |i: int| None::<UsbConfigDesc>,
            ),
        decreases count - configs@.len(),
    {
        configs.push(None);
        proof {
            assert(configs@ =~= read + Seq::new(
                (configs@.len() - read.len()) as nat,
                |i: int| None::<UsbConfigDesc>,
            ));
        }
    }
    proof {
        assert(configs@ =~= padded(read, count));
    }
    if let Some(d) = &mut bus.devices[device as usize] {
        if let Some(desc) = &mut d.dev_desc {
            desc.configs = configs;
        }
    }
    Step::Call {
        callee: Frame::BuildLangTable(BuildLangTable { device, asked: false }),
        next: Frame::BuildDescTable(
            BuildDescTable { device, at: BuildDescTableAt::Languages },
        ),
    }
}

/// Takes one step of reading all descriptors of a device.
pub fn usb_build_desc_table(bus: &mut UsbBus, run: BuildDescTable, reply: Reply) -> (step: Step)
    requires
        old(bus).wf(),
    ensures
        run.goes_on(*old(bus), reply, *final(bus), step),
        final(bus).wf(),
{
    let device: u8 = run.device;
    let d = match bus.get_device(device) {
        Some(d) => d,
        None => return Step::Done(Reply::Status(Status::InvalidParameter)),
    };
    match run.at {
        BuildDescTableAt::Start => Step::Call {
            callee: Frame::GetDevDesc(GetDevDesc { device, asked: false }),
            next: Frame::BuildDescTable(BuildDescTable { device, at: BuildDescTableAt::Device }),
        },
        BuildDescTableAt::Device => {
            let status = reply.status();
            if status.is_error() {
                return Step::Done(Reply::Status(status));
            }
            let count: u8 = match &d.dev_desc {
                Some(desc) => desc.descriptor.num_configurations,
                None => 0,
            };
            if count == 0 {
                return Step::Done(Reply::Status(Status::DeviceError));
            }
            let configs: Vec<Option<UsbConfigDesc>> = Vec::new();
            Step::Call {
                callee: Frame::GetOneConfig(GetOneConfig::new(device, 0)),
                next: Frame::BuildDescTable(
                    BuildDescTable { device, at: BuildDescTableAt::Config { count, configs } },
                ),
            }
        },
        BuildDescTableAt::Config { count, configs } => {
            let parsed = match reply.into_bytes() {
                Some(bytes) => usb_parse_config_desc(bytes.as_slice()),
                None => None,
            };
            let mut configs = configs;
            match parsed {
                None => {
                    if configs.len() == 0 {
                        return Step::Done(Reply::Status(Status::DeviceError));
                    }
                },
                Some(config) => {
                    let ghost known = configs@;
                    configs.push(Some(config));
                    assert(configs@ == known.push(Some(config)));
                    if configs.len() < count as usize {
                        return Step::Call {
                            callee: Frame::GetOneConfig(GetOneConfig::new(device, configs.len() as u8)),
                            next: Frame::BuildDescTable(
                                BuildDescTable { device, at: BuildDescTableAt::Config { count, configs } },
                            ),
                        };
                    }
                },
            }
            store_configs(bus, device, count, configs)
        },
        BuildDescTableAt::Languages => Step::Done(Reply::Status(Status::Success)),
    }
}

/// Refreshes the device and configuration descriptors from the device.
#[derive(Clone, Copy, Debug)]
pub struct UpdateDescriptors {
    pub device: u8,
    pub at: UpdateDescriptorsAt,
}

#[derive(Clone, Copy, Debug, PartialEq, Eq, Structural)]
pub enum UpdateDescriptorsAt {
    Start,
    Device,
    Config { index: u8, count: u8 },
}

/// The configurations that are known of a device.
pub open spec fn known_configs(device: UsbDevice) -> Seq<Option<UsbConfigDesc>> {
    match device.dev_desc {
        Some(desc) => desc.configs@,
        None => Seq::empty(),
    }
}

/// A table with `count` slots that holds what `configs` has in the same slots.
pub open spec fn resized(configs: Seq<Option<UsbConfigDesc>>, count: u8) -> Seq<Option<UsbConfigDesc>> {
    Seq::new(
        count as nat,
        |i: int|
            if i < configs.len() {
                configs[i]
            } else {
                None
            },
    )
}

impl UpdateDescriptors {
    pub open spec fn start(device: u8) -> UpdateDescriptors {
        UpdateDescriptors { device, at: UpdateDescriptorsAt::Start }
    }

    pub fn new(device: u8) -> (r: UpdateDescriptors)
        ensures
            r == UpdateDescriptors::start(device),
    {
        UpdateDescriptors { device, at: UpdateDescriptorsAt::Start }
    }

    /// The operation asks for configuration `index`, if there is one.
    pub open spec fn asks_for(self, index: int, count: u8) -> Step {
        if index < count {
            Step::Call {
                callee: Frame::GetOneConfig(GetOneConfig::start(self.device, index as u8)),
                next: Frame::UpdateDescriptors(
                    UpdateDescriptors {
                        at: UpdateDescriptorsAt::Config { index: index as u8, count },
                        ..self
                    },
                ),
            }
        } else {
            Step::Done(Reply::Nothing)
        }
    }

    /// `post` differs from `pre` in nothing but the descriptors of the device: it has
    /// `descriptor` and the table `configs`.
    pub open spec fn stores(
        self,
        pre: UsbBus,
        d: UsbDevice,
        descriptor: DeviceDescriptor,
        configs: Seq<Option<UsbConfigDesc>>,
        post: UsbBus,
    ) -> bool {
        &&& post.device(self.device) matches Some(e)
        &&& e.dev_desc matches Some(table)
        &&& table.descriptor == descriptor
        &&& table.configs@ == configs
        &&& pre.with_device(self.device, Some(UsbDevice { dev_desc: e.dev_desc, ..d }), post)
    }

    /// How the operation goes on after `reply`. The device descriptor is replaced by
    /// the one that came, with a slot for each configuration that it announces. A
    /// configuration that can be read and parsed takes the place of the one in its
    /// slot; any other slot stays as it is.
    pub open spec fn goes_on(self, pre: UsbBus, reply: Reply, post: UsbBus, step: Step) -> bool {
        match pre.device(self.device) {
            None => post == pre && step == Step::Done(Reply::Nothing),
            Some(d) => match self.at {
                UpdateDescriptorsAt::Start => post == pre && step == (Step::Act {
                    action: Action::ControlTransfer(
                        ctrl_get_desc(d, USB_DESC_TYPE_DEVICE as usize, 0, 0, DEVICE_DESCRIPTOR_SIZE),
                    ),
                    next: Frame::UpdateDescriptors(
                        UpdateDescriptors { at: UpdateDescriptorsAt::Device, ..self },
                    ),
                }),
                UpdateDescriptorsAt::Device => if reply.as_status().fails() {
                    post == pre && step == Step::Done(Reply::Nothing)
                } else {
                    let descriptor = DeviceDescriptor::of(reply.as_data());
                    let count = descriptor.num_configurations;
                    &&& self.stores(pre, d, descriptor, resized(known_configs(d), count), post)
                    &&& step == self.asks_for(0, count)
                },
                UpdateDescriptorsAt::Config { index, count } => {
                    let parsed = match reply.as_bytes() {
                        Some(bytes) => read_config(bytes),
                        None => None,
                    };
                    &&& step == self.asks_for(index + 1, count)
                    &&& match (parsed, d.dev_desc) {
                        (Some(view), Some(desc)) if index < desc.configs@.len() => {
                            let slot = known_configs(post.device(self.device)->0)[index as int];
                            &&& slot matches Some(config)
                            &&& config@ == view
                            &&& self.stores(
                                pre,
                                d,
                                desc.descriptor,
                                desc.configs@.update(index as int, slot),
                                post,
                            )
                        },
                        _ => post == pre,
                    }
                },
            },
        }
    }
}

fn store_device_descriptor(bus: &mut UsbBus, device: u8, descriptor: DeviceDescriptor)
    requires
        old(bus).wf(),
        old(bus).device(device) is Some,
    ensures
        UpdateDescriptors::start(device).stores(
            *old(bus),
            old(bus).device(device)->0,
            descriptor,
            resized(known_configs(old(bus).device(device)->0), descriptor.num_configurations),
            *final(bus),
        ),
        final(bus).wf(),
{
    let count: usize = descriptor.num_configurations as usize;
    if let Some(d) = &mut bus.devices[device as usize] {
        let ghost known = known_configs(*d);
        let mut configs: Vec<Option<UsbConfigDesc>> = match d.dev_desc.take() {
            Some(desc) => desc.configs,
            None => Vec::new(),
        };
        assert(configs@ =~= known);
        configs.truncate(count);
        while configs.len() < count
            invariant
                configs@.len() <= count,
                forall|i: int|
                    0 <= i < configs@.len() ==> #[trigger] configs@[i] == (if i < known.len() {
                        known[i]
                    } else {
                        None
                    }),
                configs@.len() < count ==> known.len() <= configs@.len(),
            decreases count - configs@.len(),
        {
            configs.push(None);
        }
        assert(configs@ =~= resized(known, descriptor.num_configurations));
        d.dev_desc = Some(UsbDeviceDesc { descriptor, configs });
    }
}

/// Takes one step of refreshing the descriptors.
pub fn usb_update_descriptors(bus: &mut UsbBus, run: UpdateDescriptors, reply: Reply) -> (step: Step)
    requires
        old(bus).wf(),
    ensures
        run.goes_on(*old(bus), reply, *final(bus), step),
        final(bus).wf(),
{
    let d = match bus.get_device(run.device) {
        Some(d) => d,
        None => return Step::Done(Reply::Nothing),
    };
    let (index, count): (u16, u8) = match run.at {
        UpdateDescriptorsAt::Start => {
            return Step::Act {
                action: Action::ControlTransfer(
                    usb_ctrl_get_desc(d, USB_DESC_TYPE_DEVICE as usize, 0, 0, DEVICE_DESCRIPTOR_SIZE),
                ),
                next: Frame::UpdateDescriptors(
                    UpdateDescriptors { at: UpdateDescriptorsAt::Device, ..run },
                ),
            };
        },
        UpdateDescriptorsAt::Device => {
            if reply.status().is_error() {
                return Step::Done(Reply::Nothing);
            }
            let data: Vec<u8> = reply.into_data();
            let descriptor = DeviceDescriptor::read(data.as_slice());
            store_device_descriptor(bus, run.device, descriptor);
            (0, descriptor.num_configurations)
        },
        UpdateDescriptorsAt::Config { index, count } => {
            let parsed = match reply.into_bytes() {
                Some(bytes) => usb_parse_config_desc(bytes.as_slice()),
                None => None,
            };
            let has_slot = match &d.dev_desc {
                Some(desc) => (index as usize) < desc.configs.len(),
                None => false,
            };
            if let Some(config) = parsed {
                if has_slot {
                    if let Some(d) = &mut bus.devices[run.device as usize] {
                        if let Some(desc) = &mut d.dev_desc {
                            desc.configs[index as usize] = Some(config);
                        }
                    }
                }
            }
            (index as u16 + 1, count)
        },
    };
    if index < count as u16 {
        Step::Call {
            callee: Frame::GetOneConfig(GetOneConfig::new(run.device, index as u8)),
            next: Frame::UpdateDescriptors(
                UpdateDescriptors {
                    at: UpdateDescriptorsAt::Config { index: index as u8, count },
                    ..run
                },
            ),
        }
    } else {
        Step::Done(Reply::Nothing)
    }
}

/// A device has a table of `count` configurations, and the first ones are those that
/// were sent.
pub open spec fn is_refreshed(device: UsbDevice, sent: Seq<Seq<u8>>, upto: int, count: u8) -> bool {
    &&& known_configs(device).len() == count
    &&& forall|j: int|
        0 <= j < upto ==> (#[trigger] known_configs(device)[j] matches Some(config) && Some(config@)
            == read_config(sent[j]))
}

/// After a refresh the device has the descriptor that it sent, and every configuration
/// that it sent: the first step stores the descriptor, and each further step keeps what
/// has been stored and adds the next configuration, up to the last one.
pub proof fn what_is_sent_is_stored(
    run: UpdateDescriptors,
    pre: UsbBus,
    reply: Reply,
    post: UsbBus,
    step: Step,
    sent: Seq<Seq<u8>>,
)
    requires
        pre.wf(),
        pre.device(run.device) is Some,
        run.goes_on(pre, reply, post, step),
        match run.at {
            UpdateDescriptorsAt::Start => false,
            UpdateDescriptorsAt::Device => !reply.as_status().fails(),
            UpdateDescriptorsAt::Config { index, count } => {
                &&& index < count
                &&& is_refreshed(pre.device(run.device)->0, sent, index as int, count)
                &&& reply.as_bytes() == Some(sent[index as int])
                &&& read_config(sent[index as int]) is Some
            },
        },
    ensures
        post.device(run.device) matches Some(e) && e.dev_desc matches Some(desc) && {
            &&& run.at == UpdateDescriptorsAt::Device ==> desc.descriptor == DeviceDescriptor::of(
                reply.as_data(),
            )
            &&& run.at != UpdateDescriptorsAt::Device ==> (pre.device(run.device)->0.dev_desc matches Some(
                before,
            ) && desc.descriptor == before.descriptor)
            &&& match step {
                Step::Call {
                    next: Frame::UpdateDescriptors(
                        UpdateDescriptors { device, at: UpdateDescriptorsAt::Config { index, count } },
                    ),
                    ..
                } => device == run.device && index < count && is_refreshed(e, sent, index as int, count),
                Step::Done(_) => match run.at {
                    UpdateDescriptorsAt::Config { count, .. } => is_refreshed(e, sent, count as int, count),
                    _ => is_refreshed(e, sent, 0, 0),
                },
                _ => false,
            }
        },
{
}

/// The request that clears a feature, as it goes through the USB I/O services.
pub open spec fn clear_feature_request(target: usize, feature: u16, index: u16) -> UsbDeviceRequest {
    UsbDeviceRequest {
        request_type: request_type_byte(false, USB_REQ_TYPE_STANDARD, target),
        request: USB_REQ_CLEAR_FEATURE as u8,
        value: feature,
        index,
        length: 0,
    }
}

/// A device that sends the descriptor of a text, first its header and then all of it,
/// has that text read.
pub proof fn a_text_that_is_sent_is_read(
    bus: UsbBus,
    device: u8,
    index: u8,
    language_id: u16,
    text: Seq<u16>,
    first: Step,
    header: Reply,
    second: Step,
    body: Reply,
    third: Step,
)
    requires
        bus.device(device) is Some,
        2 + 2 * text.len() <= 255,
        GetOneString::start(device, index, language_id).goes_on(bus, Reply::Nothing, first),
        !header.as_status().fails() && header.as_data() == string_bytes(text).take(2),
        first matches Step::Act { next: Frame::GetOneString(next), .. } && next.goes_on(
            bus,
            header,
            second,
        ),
        !body.as_status().fails() && body.as_data() == string_bytes(text),
        second matches Step::Act { next: Frame::GetOneString(next), .. } ==> next.goes_on(
            bus,
            body,
            third,
        ),
    ensures
        second matches Step::Act { action: Action::ControlTransfer(transfer), .. } && transfer.length
            == string_bytes(text).len(),
        third matches Step::Done(answer) && answer.as_text() == Some(text),
{
    string_is_read_back(text);
    let length = byte_of(header.as_data(), 0);
    assert(string_bytes(text).take(2)[0] == string_bytes(text)[0]);
    assert(length == 2 + 2 * text.len());
    assert(length % 2 == 0);
}

/// A device that sends a configuration, first its header and then all of it, has that
/// configuration read.
pub proof fn a_configuration_that_is_sent_is_read(
    bus: UsbBus,
    device: u8,
    index: u8,
    config: Seq<u8>,
    first: Step,
    header: Reply,
    second: Step,
    body: Reply,
    third: Step,
)
    requires
        bus.device(device) is Some,
        CONFIG_DESCRIPTOR_SIZE <= config.len() <= 0xffff,
        ConfigDescriptor::of(config).total_length == config.len(),
        GetOneConfig::start(device, index).goes_on(bus, Reply::Nothing, first),
        !header.as_status().fails() && header.as_data() == config.take(8),
        first matches Step::Act { next: Frame::GetOneConfig(next), .. } && next.goes_on(
            bus,
            header,
            second,
        ),
        !body.as_status().fails() && body.as_data() == config,
        second matches Step::Act { next: Frame::GetOneConfig(next), .. } ==> next.goes_on(
            bus,
            body,
            third,
        ),
    ensures
        second matches Step::Act { action: Action::ControlTransfer(transfer), .. } && transfer.length
            == config.len(),
        third matches Step::Done(answer) && answer.as_bytes() == Some(config),
{
    assert(config.take(8)[2] == config[2] && config.take(8)[3] == config[3]);
    assert(ConfigDescriptor::of(config.take(8)).total_length == config.len());
    assert(filled(config, config.len() as int) =~= config);
}

} // verus!
