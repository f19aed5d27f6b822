//! Laws of descriptors: how they are asked for, and how they are read from the bytes
//! that a device sends.

use crate::request_laws::{carries, standard_requests_on_the_wire};
use crate::status::Status;
use crate::task::{Action, Frame, Reply, Step};
use crate::usb_bus_defs::{UsbBus, UsbDevice};
use crate::usb_control::{
    BuildDescTable, BuildDescTableAt, BuildLangTable, GetDevDesc, GetMaxPacketSize0,
    GetMaxPacketSize0At, GetOneConfig, GetOneConfigAt, GetOneString, GetOneStringAt, UpdateDescriptors,
    UpdateDescriptorsAt,
};
use crate::usb_desc::{
    config_bytes, config_is_read_back, config_well_formed, endpoint_bytes, endpoint_well_formed,
    endpoints_bytes, find_desc, find_desc_from, fresh_endpoint, fresh_endpoints, grouped,
    interface_bytes, lemma_grouped_grows, lemma_read_endpoints_back, no_settings, place_settings,
    read_config, read_endpoints, read_setting, setting_is_read_back, setting_well_formed, settings_bytes, settings_fit,
    written_setting, ConfigDescriptor, DeviceDescriptor, EndpointDescriptor, InterfaceDescriptor,
    SettingView, UsbConfigDesc, UsbEndpointDesc,
};
use vstd::prelude::*;

verus! {

/// The eighteen bytes of a device descriptor.
pub open spec fn device_bytes(d: DeviceDescriptor) -> Seq<u8> {
    seq![
        d.length,
        d.descriptor_type,
        (d.bcd_usb % 256) as u8,
        (d.bcd_usb / 256) as u8,
        d.device_class,
        d.device_sub_class,
        d.device_protocol,
        d.max_packet_size0,
        (d.id_vendor % 256) as u8,
        (d.id_vendor / 256) as u8,
        (d.id_product % 256) as u8,
        (d.id_product / 256) as u8,
        (d.bcd_device % 256) as u8,
        (d.bcd_device / 256) as u8,
        d.str_manufacturer,
        d.str_product,
        d.str_serial_number,
        d.num_configurations,
    ]
}

/// A device descriptor is read back from its bytes, whatever follows them.
pub proof fn a_device_descriptor_is_read_back(d: DeviceDescriptor, rest: Seq<u8>)
    ensures
        DeviceDescriptor::of(device_bytes(d) + rest) == d,
{
    let head = device_bytes(d);
    let bytes = head + rest;
    assert(head.len() == 18);
    assert(forall|i: int| 0 <= i < 18 ==> bytes[i] == head[i]);
    assert(bytes[0] == head[0] && bytes[1] == head[1] && bytes[2] == head[2] && bytes[3] == head[3]
        && bytes[4] == head[4] && bytes[5] == head[5] && bytes[6] == head[6] && bytes[7] == head[7]
        && bytes[8] == head[8] && bytes[9] == head[9] && bytes[10] == head[10] && bytes[11] == head[11]
        && bytes[12] == head[12] && bytes[13] == head[13] && bytes[14] == head[14] && bytes[15]
        == head[15] && bytes[16] == head[16] && bytes[17] == head[17]);
}

/// Configuration, interface and endpoint descriptors are read back from their bytes,
/// whatever follows them.
pub proof fn other_descriptors_are_read_back(
    c: ConfigDescriptor,
    i: InterfaceDescriptor,
    e: EndpointDescriptor,
    rest: Seq<u8>,
)
    ensures
        ConfigDescriptor::of(config_bytes(c) + rest) == c,
        InterfaceDescriptor::of(interface_bytes(i) + rest) == i,
        EndpointDescriptor::of(endpoint_bytes(e) + rest) == e,
{
}

/// The bytes are one descriptor: its length in bytes is its first byte.
pub open spec fn is_descriptor(d: Seq<u8>) -> bool {
    2 <= d.len() && d[0] == d.len()
}

/// The number of bytes that are read of a descriptor: 18 for type 1, nine for types 2
/// and 4, seven for type 5. No other type is looked for.
pub open spec fn fixed_size(descriptor_type: u8) -> int {
    if descriptor_type == 1 {
        18
    } else if descriptor_type == 5 {
        7
    } else {
        9
    }
}

/// The types of descriptors that are looked for.
pub open spec fn is_looked_for(descriptor_type: u8) -> bool {
    descriptor_type == 1 || descriptor_type == 2 || descriptor_type == 4 || descriptor_type == 5
}

proof fn lemma_search_shifts(first: Seq<u8>, rest: Seq<u8>, offset: int, descriptor_type: u8, size: int)
    requires
        0 <= offset,
        0 <= size,
        first.len() > 0,
    ensures
        find_desc_from(first + rest, first.len() + offset, descriptor_type, size) == (
        match find_desc_from(rest, offset, descriptor_type, size) {
            Some((found, end)) => Some((found, first.len() + end)),
            None => None,
        }),
    decreases rest.len() - offset,
{
    let bytes = first + rest;
    let n = first.len() as int;
    if offset + 2 <= rest.len() {
        assert(bytes[n + offset] == rest[offset] && bytes[n + offset + 1] == rest[offset + 1]);
        if rest[offset] != 0 && offset + rest[offset] <= rest.len() {
            if rest[offset + 1] == descriptor_type {
                if rest[offset] >= size {
                    assert(bytes.subrange(n + offset, n + offset + size) =~= rest.subrange(
                        offset,
                        offset + size,
                    ));
                }
            } else {
                lemma_search_shifts(first, rest, offset + rest[offset], descriptor_type, size);
            }
        }
    }
}

/// A descriptor of another type in front of a stream does not change which descriptor is
/// found; it only moves its end.
pub proof fn other_descriptors_are_skipped(other: Seq<u8>, rest: Seq<u8>, descriptor_type: u8)
    requires
        is_descriptor(other),
        other[1] != descriptor_type,
    ensures
        find_desc(other + rest, descriptor_type) == (match find_desc(rest, descriptor_type) {
            Some((found, consumed)) => Some((found, other.len() + consumed)),
            None => None,
        }),
{
    let bytes = other + rest;
    assert(bytes[0] == other[0] && bytes[1] == other[1]);
    lemma_search_shifts(other, rest, 0, descriptor_type, fixed_size(descriptor_type));
}

/// A descriptor of the type that is looked for is found at the start of a stream, with its
/// fixed part, and all of it is used up. Where it is too short for its type, or where the
/// stream breaks off, nothing is found; nor is a type that is not looked for.
pub proof fn a_descriptor_is_found_at_the_start(d: Seq<u8>, rest: Seq<u8>, descriptor_type: u8)
    requires
        is_descriptor(d),
        d[1] == descriptor_type,
    ensures
        is_looked_for(descriptor_type) && d.len() >= fixed_size(descriptor_type) ==> find_desc(
            d + rest,
            descriptor_type,
        ) == Some((d.take(fixed_size(descriptor_type)), d.len() as int)),
        is_looked_for(descriptor_type) && d.len() < fixed_size(descriptor_type) ==> find_desc(
            d + rest,
            descriptor_type,
        ) is None,
        !is_looked_for(descriptor_type) ==> find_desc(d + rest, descriptor_type) is None,
        forall|n: int|
            0 <= n < d.len() ==> find_desc(#[trigger] d.take(n), descriptor_type) is None,
{
    let bytes = d + rest;
    let size = fixed_size(descriptor_type);
    assert(bytes[0] == d[0] && bytes[1] == d[1]);
    if d.len() >= size {
        assert(bytes.subrange(0, size) =~= d.take(size));
    }
    assert forall|n: int| 0 <= n < d.len() implies find_desc(#[trigger] d.take(n), descriptor_type)
        is None by {
        if n >= 2 {
            assert(d.take(n)[0] == d[0]);
        }
    }
}

/// A descriptor with a length of zero ends the search.
pub proof fn a_descriptor_has_a_length(bytes: Seq<u8>, descriptor_type: u8)
    requires
        bytes.len() < 2 || bytes[0] == 0 || bytes[0] > bytes.len(),
    ensures
        find_desc(bytes, descriptor_type) is None,
{
}

/// A setting holds the endpoints that were sent for it, in the order in which they came and
/// with their toggles at zero; a slot that was announced but not sent stays empty.
pub proof fn a_setting_has_its_endpoints_in_order(
    d: InterfaceDescriptor,
    endpoints: Seq<EndpointDescriptor>,
    tail: Seq<u8>,
)
    requires
        setting_well_formed(d, endpoints),
        endpoints.len() == d.num_endpoints || tail.len() == 0,
    ensures
        read_setting(interface_bytes(d) + endpoints_bytes(endpoints) + tail) matches Some((setting, used))
            && {
            &&& used == 9 + 7 * endpoints.len()
            &&& setting.descriptor == d
            &&& setting.endpoints.len() == d.num_endpoints
            &&& forall|i: int|
                0 <= i < endpoints.len() ==> #[trigger] setting.endpoints[i] == Some(
                    UsbEndpointDesc { descriptor: endpoints[i], toggle: 0 },
                )
            &&& forall|i: int|
                endpoints.len() <= i < d.num_endpoints ==> #[trigger] setting.endpoints[i] is None
        },
{
    setting_is_read_back(d, endpoints, tail);
    lemma_endpoints_length(endpoints);
}

proof fn lemma_endpoints_length(endpoints: Seq<EndpointDescriptor>)
    ensures
        endpoints_bytes(endpoints).len() == 7 * endpoints.len(),
    decreases endpoints.len(),
{
    if endpoints.len() > 0 {
        lemma_endpoints_length(endpoints.drop_first());
    }
}

/// A descriptor of another type between an interface and its endpoints, such as that of a
/// class, does not change the setting.
pub proof fn a_setting_is_read_past_other_descriptors(
    d: InterfaceDescriptor,
    other: Seq<u8>,
    endpoints: Seq<EndpointDescriptor>,
    tail: Seq<u8>,
)
    requires
        setting_well_formed(d, endpoints),
        endpoints.len() == d.num_endpoints,
        endpoints.len() > 0,
        is_descriptor(other),
        other[1] != 5,
    ensures
        read_setting(interface_bytes(d) + other + endpoints_bytes(endpoints) + tail) == (match read_setting(
            interface_bytes(d) + endpoints_bytes(endpoints) + tail,
        ) {
            Some((setting, used)) => Some((setting, used + other.len())),
            None => None,
        }),
{
    let head = interface_bytes(d);
    let bytes = head + other + endpoints_bytes(endpoints) + tail;
    let count = d.num_endpoints as nat;
    setting_is_read_back(d, endpoints, tail);
    assert(bytes.subrange(0, 9) =~= head);
    assert(find_desc(bytes, 4) == Some((head, 9int)));
    assert(InterfaceDescriptor::of(head) == d);
    let first = endpoint_bytes(endpoints[0]);
    let rest = endpoints.drop_first();
    assert forall|i: int| 0 <= i < rest.len() implies endpoint_well_formed(
        #[trigger] rest[i],
    ) by {
        assert(rest[i] == endpoints[i + 1]);
    }
    assert(endpoint_well_formed(endpoints[0]));
    let at = bytes.skip(9);
    let behind = first + endpoints_bytes(rest) + tail;
    assert(endpoints_bytes(endpoints) == first + endpoints_bytes(rest));
    assert(at =~= other + behind);
    assert(behind =~= first + (endpoints_bytes(rest) + tail));
    other_descriptors_are_skipped(other, behind, 5);
    a_descriptor_is_found_at_the_start(first, endpoints_bytes(rest) + tail, 5);
    assert(first.take(7) =~= first);
    let whole = head + other + first;
    lemma_read_endpoints_back(whole, rest, tail, (count - 1) as nat);
    assert(whole + endpoints_bytes(rest) + tail =~= bytes);
    lemma_read_endpoints_back(head, endpoints, tail, count);
    assert(EndpointDescriptor::of(first) == endpoints[0]);
    assert(seq![fresh_endpoint(first)] + fresh_endpoints(rest)
        =~= fresh_endpoints(endpoints));
    assert(whole.len() == 9 + other.len() + 7);
}

proof fn lemma_place_settings_on(
    prefix: Seq<u8>,
    settings: Seq<(InterfaceDescriptor, Seq<EndpointDescriptor>)>,
    placed: Seq<Seq<SettingView>>,
    tail: Seq<u8>,
)
    requires
        settings_fit(settings, placed.len() as int),
        forall|i: int|
            0 <= i < placed.len() ==> (#[trigger] grouped(settings, placed)[i]).len() <= 256,
    ensures
        place_settings(prefix + settings_bytes(settings) + tail, prefix.len() as int, placed)
            == place_settings(
            prefix + settings_bytes(settings) + tail,
            (prefix + settings_bytes(settings)).len() as int,
            grouped(settings, placed),
        ),
    decreases settings.len(),
{
    let bytes = prefix + settings_bytes(settings) + tail;
    if settings.len() > 0 {
        let (d, endpoints) = settings[0];
        let number = d.interface_number as int;
        let rest = settings.drop_first();
        let first = interface_bytes(d) + endpoints_bytes(endpoints);
        let next = placed.update(number, placed[number].push(written_setting(d, endpoints)));
        assert(setting_well_formed(d, endpoints));
        assert forall|i: int| 0 <= i < rest.len() implies {
            let (d, endpoints) = #[trigger] rest[i];
            &&& setting_well_formed(d, endpoints)
            &&& endpoints.len() == d.num_endpoints
            &&& d.interface_number < placed.len()
        } by {
            assert(rest[i] == settings[i + 1]);
        }
        setting_is_read_back(d, endpoints, settings_bytes(rest) + tail);
        assert(bytes.skip(prefix.len() as int) =~= first + (settings_bytes(rest) + tail));
        lemma_grouped_grows(rest, next);
        assert(grouped(settings, placed) == grouped(rest, next));
        assert(grouped(settings, placed)[number].len() <= 256);
        lemma_place_settings_on(prefix + first, rest, next, tail);
        assert(prefix + first + settings_bytes(rest) + tail =~= bytes);
        assert((prefix + first + settings_bytes(rest)).len() == (prefix + settings_bytes(settings)).len());
    } else {
        assert((prefix + settings_bytes(settings)) =~= prefix);
    }
}

/// What lies behind the total length that a configuration announces does not belong to it.
pub proof fn a_configuration_ends_at_its_total_length(
    d: ConfigDescriptor,
    settings: Seq<(InterfaceDescriptor, Seq<EndpointDescriptor>)>,
    tail: Seq<u8>,
)
    requires
        config_well_formed(d, settings),
        forall|i: int|
            0 <= i < d.num_interfaces ==> (#[trigger] grouped(
                settings,
                no_settings(d.num_interfaces as nat),
            )[i]).len() <= 256,
    ensures
        read_config(config_bytes(d) + settings_bytes(settings) + tail) == read_config(
            config_bytes(d) + settings_bytes(settings),
        ),
        read_config(config_bytes(d) + settings_bytes(settings)) matches Some(config)
            && config.descriptor == d && config.interfaces.len() == d.num_interfaces && forall|i: int|
            0 <= i < config.interfaces.len() ==> (#[trigger] config.interfaces[i]).active_index == 0,
{
    let head = config_bytes(d);
    let bytes = head + settings_bytes(settings);
    let longer = bytes + tail;
    config_is_read_back(d, settings);
    lemma_grouped_grows(settings, no_settings(d.num_interfaces as nat));
    assert(longer =~= head + (settings_bytes(settings) + tail));
    assert(bytes.subrange(0, 9) =~= head);
    assert(longer.subrange(0, 9) =~= head);
    assert(ConfigDescriptor::of(head) == d);
    assert(longer.take(bytes.len() as int) =~= bytes);
    assert(bytes.take(bytes.len() as int) =~= bytes);
}

/// A configuration with a setting for an interface that it does not have, or for one that has
/// 256 settings already, is no configuration.
pub proof fn a_setting_needs_its_interface(
    d: ConfigDescriptor,
    settings: Seq<(InterfaceDescriptor, Seq<EndpointDescriptor>)>,
    bad: InterfaceDescriptor,
    endpoints: Seq<EndpointDescriptor>,
    tail: Seq<u8>,
)
    requires
        d.length == 9 && d.descriptor_type == 2,
        settings_fit(settings, d.num_interfaces as int),
        forall|i: int|
            0 <= i < d.num_interfaces ==> (#[trigger] grouped(
                settings,
                no_settings(d.num_interfaces as nat),
            )[i]).len() <= 256,
        setting_well_formed(bad, endpoints),
        endpoints.len() == bad.num_endpoints,
        bad.interface_number >= d.num_interfaces || grouped(
            settings,
            no_settings(d.num_interfaces as nat),
        )[bad.interface_number as int].len() == 256,
        d.total_length == (config_bytes(d) + settings_bytes(settings) + interface_bytes(bad)
            + endpoints_bytes(endpoints) + tail).len(),
    ensures
        read_config(
            config_bytes(d) + settings_bytes(settings) + interface_bytes(bad) + endpoints_bytes(endpoints)
                + tail,
        ) is None,
{
    let head = config_bytes(d);
    let wrong = interface_bytes(bad) + endpoints_bytes(endpoints) + tail;
    let bytes = head + settings_bytes(settings) + interface_bytes(bad) + endpoints_bytes(endpoints) + tail;
    let start = no_settings(d.num_interfaces as nat);
    assert(bytes =~= head + settings_bytes(settings) + wrong);
    assert(bytes.subrange(0, 9) =~= head);
    assert(ConfigDescriptor::of(head) == d);
    assert(bytes.take(bytes.len() as int) =~= bytes);
    lemma_place_settings_on(head, settings, start, wrong);
    lemma_grouped_grows(settings, start);
    let at = (head + settings_bytes(settings)).len() as int;
    assert(bytes.skip(at) =~= wrong);
    setting_is_read_back(bad, endpoints, tail);
}

/// What follows the last setting of a configuration and is no setting, such as a broken
/// descriptor, is passed over.
pub proof fn a_broken_rest_is_passed_over(
    d: ConfigDescriptor,
    settings: Seq<(InterfaceDescriptor, Seq<EndpointDescriptor>)>,
    tail: Seq<u8>,
)
    requires
        d.length == 9 && d.descriptor_type == 2,
        settings_fit(settings, d.num_interfaces as int),
        forall|i: int|
            0 <= i < d.num_interfaces ==> (#[trigger] grouped(
                settings,
                no_settings(d.num_interfaces as nat),
            )[i]).len() <= 256,
        read_setting(tail) is None,
        d.total_length == (config_bytes(d) + settings_bytes(settings) + tail).len(),
    ensures
        read_config(config_bytes(d) + settings_bytes(settings) + tail) matches Some(config) && {
            &&& config.descriptor == d
            &&& config.interfaces.len() == d.num_interfaces
            &&& forall|i: int|
                0 <= i < d.num_interfaces ==> (#[trigger] config.interfaces[i]).active_index == 0
                    && config.interfaces[i].settings == grouped(
                    settings,
                    no_settings(d.num_interfaces as nat),
                )[i]
        },
{
    let head = config_bytes(d);
    let bytes = head + settings_bytes(settings) + tail;
    let start = no_settings(d.num_interfaces as nat);
    assert(bytes =~= head + (settings_bytes(settings) + tail));
    assert(bytes.subrange(0, 9) =~= head);
    assert(ConfigDescriptor::of(head) == d);
    assert(bytes.take(bytes.len() as int) =~= bytes);
    lemma_place_settings_on(head, settings, start, tail);
    lemma_grouped_grows(settings, start);
    let at = (head + settings_bytes(settings)).len() as int;
    assert(bytes.skip(at) =~= tail);
}

/// The settings of an interface are those that name it, one behind the other: a further
/// setting comes last for the interface that it names, and changes no other.
pub proof fn a_setting_comes_behind_those_of_its_interface(
    settings: Seq<(InterfaceDescriptor, Seq<EndpointDescriptor>)>,
    placed: Seq<Seq<SettingView>>,
    d: InterfaceDescriptor,
    endpoints: Seq<EndpointDescriptor>,
)
    requires
        settings_fit(settings.push((d, endpoints)), placed.len() as int),
    ensures
        ({
            let before = grouped(settings, placed);
            let after = grouped(settings.push((d, endpoints)), placed);
            &&& after.len() == placed.len()
            &&& forall|i: int|
                0 <= i < placed.len() && i != d.interface_number ==> #[trigger] after[i] == before[i]
            &&& after[d.interface_number as int].len() == before[d.interface_number as int].len() + 1
            &&& after[d.interface_number as int].last().descriptor == d
            &&& after[d.interface_number as int].drop_last() == before[d.interface_number as int]
        }),
    decreases settings.len(),
{
    let all = settings.push((d, endpoints));
    let number = d.interface_number as int;
    assert(all[settings.len() as int] == (d, endpoints));
    assert forall|i: int| 0 <= i < settings.len() implies {
        let (d, endpoints) = #[trigger] settings[i];
        &&& setting_well_formed(d, endpoints)
        &&& endpoints.len() == d.num_endpoints
        &&& d.interface_number < placed.len()
    } by {
        assert(all[i] == settings[i]);
    }
    if settings.len() == 0 {
        assert(all.drop_first() =~= settings);
        reveal_with_fuel(grouped, 2);
        let now = placed.update(number, placed[number].push(written_setting(d, endpoints)));
        assert(grouped(all, placed) == now);
        assert(now[number].drop_last() =~= placed[number]);
    } else {
        let (e, ends) = settings[0];
        let n = e.interface_number as int;
        let next = placed.update(n, placed[n].push(written_setting(e, ends)));
        assert(all[0] == settings[0]);
        assert(all.drop_first() =~= settings.drop_first().push((d, endpoints)));
        assert forall|i: int| 0 <= i < all.drop_first().len() implies {
            let (d, endpoints) = #[trigger] settings.drop_first().push((d, endpoints))[i];
            &&& setting_well_formed(d, endpoints)
            &&& endpoints.len() == d.num_endpoints
            &&& d.interface_number < next.len()
        } by {
            assert(all[i + 1] == all.drop_first()[i]);
        }
        a_setting_comes_behind_those_of_its_interface(settings.drop_first(), next, d, endpoints);
    }
}

/// A setting that announces more endpoints than follow it is broken, unless nothing follows
/// them.
pub proof fn a_setting_needs_its_endpoints(
    d: InterfaceDescriptor,
    endpoints: Seq<EndpointDescriptor>,
    tail: Seq<u8>,
)
    requires
        setting_well_formed(d, endpoints),
        endpoints.len() < d.num_endpoints,
        tail.len() > 0,
        find_desc(tail, 5) is None,
    ensures
        read_setting(interface_bytes(d) + endpoints_bytes(endpoints) + tail) is None,
{
    let head = interface_bytes(d);
    let bytes = head + endpoints_bytes(endpoints) + tail;
    assert(bytes =~= head + (endpoints_bytes(endpoints) + tail));
    assert(bytes.subrange(0, 9) =~= head);
    assert(InterfaceDescriptor::of(head) == d);
    lemma_endpoints_missing(head, endpoints, tail, d.num_endpoints as nat);
}

proof fn lemma_endpoints_missing(
    prefix: Seq<u8>,
    endpoints: Seq<EndpointDescriptor>,
    tail: Seq<u8>,
    count: nat,
)
    requires
        forall|i: int| 0 <= i < endpoints.len() ==> endpoint_well_formed(#[trigger] endpoints[i]),
        endpoints.len() < count,
        tail.len() > 0,
        find_desc(tail, 5) is None,
    ensures
        read_endpoints(prefix + endpoints_bytes(endpoints) + tail, prefix.len() as int, count) is None,
    decreases endpoints.len(),
{
    let bytes = prefix + endpoints_bytes(endpoints) + tail;
    let at = bytes.skip(prefix.len() as int);
    if endpoints.len() == 0 {
        assert(at =~= tail);
    } else {
        let first = endpoint_bytes(endpoints[0]);
        let rest = endpoints.drop_first();
        assert(endpoint_well_formed(endpoints[0]));
        assert(at =~= first + (endpoints_bytes(rest) + tail));
        a_descriptor_is_found_at_the_start(first, endpoints_bytes(rest) + tail, 5);
        assert forall|i: int| 0 <= i < rest.len() implies endpoint_well_formed(#[trigger] rest[i]) by {
            assert(rest[i] == endpoints[i + 1]);
        }
        lemma_endpoints_missing(prefix + first, rest, tail, (count - 1) as nat);
        assert(prefix + first + endpoints_bytes(rest) + tail =~= bytes);
    }
}

/// The size of endpoint 0 is asked for with the first eight bytes of the device descriptor,
/// into a buffer that keeps what earlier answers left. It is the last of those bytes, but
/// 512 where that is 9 and the third and fourth byte announce version 3.0 or later. Nothing
/// else of the device changes. After a failure there is a pause of a tenth of a second, and
/// when no attempt is left the device has failed.
pub proof fn the_packet_size_is_the_eighth_byte(
    run: GetMaxPacketSize0,
    pre: UsbBus,
    reply: Reply,
    post: UsbBus,
    step: Step,
)
    requires
        pre.wf(),
        pre.devices@[run.device as int] is Some,
        run.goes_on(pre, reply, post, step),
    ensures
        ({
            let device = pre.devices@[run.device as int]->0;
            let good = reply matches Reply::Transfer { status, data, .. } && !status.fails() && data@.len()
                >= 8;
            let data = reply->Transfer_data@;
            &&& run.at is Ask && run.left == 0 ==> post == pre && step == Step::Done(
                Reply::Status(Status::DeviceError),
            )
            &&& run.at is Ask && run.left > 0 ==> {
                &&& post == pre
                &&& step matches Step::Act {
                    action: Action::ControlTransferOnto { transfer, buffer },
                    next: Frame::GetMaxPacketSize0(next),
                }
                &&& carries(transfer, device, 0x80, 6, 0x0100, 0, 8)
                &&& buffer == run.buffer
                &&& next == (GetMaxPacketSize0 {
                    left: (run.left - 1) as u8,
                    at: GetMaxPacketSize0At::Answer,
                    ..run
                })
            }
            &&& run.at is Answer && reply.as_status().fails() ==> {
                &&& post == pre
                &&& step matches Step::Act {
                    action: Action::Stall { micros },
                    next: Frame::GetMaxPacketSize0(next),
                }
                &&& micros == 100000
                &&& next.device == run.device && next.left == run.left && next.at is Ask
            }
            &&& run.at is Answer && good ==> {
                &&& step == Step::Done(Reply::Status(Status::Success))
                &&& post.devices@[run.device as int] == Some(
                    UsbDevice {
                        max_packet0: if data[7] == 9 && data[3] >= 3 {
                            512
                        } else {
                            data[7] as u32
                        },
                        ..device
                    },
                )
            }
        }),
{
    standard_requests_on_the_wire(pre.devices@[run.device as int]->0, 1, 0, 0, 8, 0);
}

/// The device descriptor is asked for with all of its eighteen bytes, and what is sent is
/// what the device has from then on, without any configuration yet. An error changes
/// nothing and is the outcome.
pub proof fn the_device_descriptor_is_kept(
    run: GetDevDesc,
    pre: UsbBus,
    reply: Reply,
    post: UsbBus,
    step: Step,
    sent: DeviceDescriptor,
    rest: Seq<u8>,
)
    requires
        pre.wf(),
        pre.devices@[run.device as int] is Some,
        run.goes_on(pre, reply, post, step),
    ensures
        ({
            let device = pre.devices@[run.device as int]->0;
            &&& !run.asked ==> {
                &&& post == pre
                &&& step matches Step::Act {
                    action: Action::ControlTransfer(t),
                    next: Frame::GetDevDesc(next),
                }
                &&& carries(t, device, 0x80, 6, 0x0100, 0, 18)
                &&& next == (GetDevDesc { asked: true, ..run })
            }
            &&& run.asked ==> step == Step::Done(Reply::Status(reply.as_status()))
            &&& run.asked && reply.as_status().fails() ==> post == pre
            &&& run.asked && reply is Transfer && !reply->Transfer_status.fails() && reply->Transfer_data@
                == device_bytes(sent) + rest ==> {
                &&& post.devices@[run.device as int] matches Some(e)
                &&& e.dev_desc matches Some(desc)
                &&& desc.descriptor == sent
                &&& desc.configs@.len() == 0
                &&& e == (UsbDevice { dev_desc: e.dev_desc, ..device })
            }
        }),
{
    standard_requests_on_the_wire(pre.devices@[run.device as int]->0, 1, 0, 0, 18, 0);
    a_device_descriptor_is_read_back(sent, rest);
}

/// A string is asked for by its index and language: first two bytes, then as many as the
/// first of them says, if that is an even number from two on. The text is made of the words
/// behind the first two bytes, low byte first; a failure gives no text.
pub proof fn a_string_is_read_in_two_parts(run: GetOneString, bus: UsbBus, reply: Reply, step: Step)
    requires
        bus.wf(),
        bus.devices@[run.device as int] is Some,
        run.goes_on(bus, reply, step),
    ensures
        ({
            let device = bus.devices@[run.device as int]->0;
            let name = 0x0300 + run.index;
            let language = run.language_id as int;
            let nothing = Step::Done(Reply::Text(None));
            let good = reply matches Reply::Transfer { status, .. } && !status.fails();
            let data = reply->Transfer_data@;
            &&& run.at is Start ==> {
                &&& step matches Step::Act {
                    action: Action::ControlTransfer(t),
                    next: Frame::GetOneString(next),
                }
                &&& carries(t, device, 0x80, 6, name, language, 2)
                &&& next == (GetOneString { at: GetOneStringAt::Header, ..run })
            }
            &&& (run.at is Header || run.at is Body) && reply.as_status().fails() ==> step == nothing
            &&& run.at is Header && good && data.len() > 0 && data[0] >= 2 && data[0] % 2 == 0 ==> {
                &&& step matches Step::Act {
                    action: Action::ControlTransfer(t),
                    next: Frame::GetOneString(next),
                }
                &&& carries(t, device, 0x80, 6, name, language, data[0] as int)
                &&& next == (GetOneString { at: GetOneStringAt::Body { length: data[0] }, ..run })
            }
            &&& run.at is Header && good && (data.len() == 0 || data[0] < 2 || data[0] % 2 == 1) ==> step
                == nothing
            &&& (run.at matches GetOneStringAt::Body { length } && good && length >= 2 && data.len() >= length)
                ==> {
                &&& step matches Step::Done(Reply::Text(Some(text)))
                &&& 2 + 2 * text@.len() <= run.at->Body_length < 4 + 2 * text@.len()
                &&& forall|i: int|
                    0 <= i < text@.len() ==> #[trigger] text@[i] == data[2 + 2 * i] + 256 * data[3 + 2 * i]
            }
        }),
{
    let device = bus.devices@[run.device as int]->0;
    standard_requests_on_the_wire(device, 3, run.index, run.language_id, 2, 0);
    if reply is Transfer && reply->Transfer_data@.len() > 0 {
        standard_requests_on_the_wire(
            device,
            3,
            run.index,
            run.language_id,
            reply->Transfer_data@[0] as u16,
            0,
        );
    }
}

/// The languages of a device are its string with index 0 in language 0. Up to sixteen of
/// them are kept, in order, and counted; a device without any has no strings.
pub proof fn the_languages_are_the_first_string(
    run: BuildLangTable,
    pre: UsbBus,
    reply: Reply,
    post: UsbBus,
    step: Step,
)
    requires
        pre.wf(),
        pre.devices@[run.device as int] is Some,
        run.goes_on(pre, reply, post, step),
    ensures
        ({
            let before = pre.devices@[run.device as int]->0;
            let after = post.devices@[run.device as int]->0;
            let some = reply matches Reply::Text(Some(text)) && text@.len() > 0;
            let languages = (reply->Text_0)->0@;
            &&& !run.asked ==> {
                &&& post == pre
                &&& step matches Step::Call {
                    callee: Frame::GetOneString(ask),
                    next: Frame::BuildLangTable(next),
                }
                &&& ask.device == run.device && ask.index == 0 && ask.language_id == 0
                &&& ask.at is Start
                &&& next == (BuildLangTable { asked: true, ..run })
            }
            &&& run.asked && !some ==> post == pre && step == Step::Done(
                Reply::Status(Status::Unsupported),
            )
            &&& run.asked && some ==> {
                &&& step == Step::Done(Reply::Status(Status::Success))
                &&& post.devices@[run.device as int] is Some
                &&& languages.len() <= 16 ==> after.total_lang_id == languages.len()
                &&& languages.len() > 16 ==> after.total_lang_id == 16
                &&& forall|i: int|
                    0 <= i < 16 && i < languages.len() ==> #[trigger] after.lang_id@[i] == languages[i]
                &&& after == (UsbDevice {
                    lang_id: after.lang_id,
                    total_lang_id: after.total_lang_id,
                    ..before
                })
            }
        }),
{
}

/// A configuration is asked for by its index: first eight bytes, then as many as their third
/// and fourth byte say, at least nine. What is sent is given back, with zeros for what is
/// missing; a failure gives nothing.
pub proof fn a_configuration_is_read_in_two_parts(run: GetOneConfig, bus: UsbBus, reply: Reply, step: Step)
    requires
        bus.wf(),
        bus.devices@[run.device as int] is Some,
        run.goes_on(bus, reply, step),
    ensures
        ({
            let device = bus.devices@[run.device as int]->0;
            let name = 0x0200 + run.index;
            let nothing = Step::Done(Reply::Bytes(None));
            let good = reply matches Reply::Transfer { status, .. } && !status.fails();
            let data = reply->Transfer_data@;
            let total = data[2] + 256 * data[3];
            &&& run.at is Start ==> {
                &&& step matches Step::Act {
                    action: Action::ControlTransfer(t),
                    next: Frame::GetOneConfig(next),
                }
                &&& carries(t, device, 0x80, 6, name, 0, 8)
                &&& next == (GetOneConfig { at: GetOneConfigAt::Header, ..run })
            }
            &&& (run.at is Header || run.at is Body) && reply.as_status().fails() ==> step == nothing
            &&& run.at is Header && good && data.len() >= 4 && total >= 9 ==> {
                &&& step matches Step::Act {
                    action: Action::ControlTransfer(t),
                    next: Frame::GetOneConfig(next),
                }
                &&& carries(t, device, 0x80, 6, name, 0, total)
                &&& next == (GetOneConfig { at: GetOneConfigAt::Body { length: total as u16 }, ..run })
            }
            &&& run.at is Header && good && data.len() >= 4 && total < 9 ==> step == nothing
            &&& run.at is Body && good ==> {
                &&& step matches Step::Done(Reply::Bytes(Some(bytes)))
                &&& bytes@.len() == run.at->Body_length
                &&& forall|i: int|
                    0 <= i < bytes@.len() ==> #[trigger] bytes@[i] == (if i < data.len() {
                        data[i]
                    } else {
                        0
                    })
            }
        }),
{
    let device = bus.devices@[run.device as int]->0;
    standard_requests_on_the_wire(device, 2, run.index, 0, 8, 0);
    if reply is Transfer && reply->Transfer_data@.len() >= 4 {
        let data = reply->Transfer_data@;
        standard_requests_on_the_wire(device, 2, run.index, 0, (data[2] + 256 * data[3]) as u16, 0);
    }
}

/// The table of configurations after `known` could be read: a slot for each one that the
/// device announced, with those that are known in the first ones.
pub open spec fn is_table_of(
    table: Seq<Option<UsbConfigDesc>>,
    known: Seq<Option<UsbConfigDesc>>,
    count: int,
) -> bool {
    &&& known.len() <= count ==> table.len() == count
    &&& forall|i: int| 0 <= i < known.len() ==> #[trigger] table[i] == known[i]
    &&& forall|i: int| known.len() <= i < table.len() ==> #[trigger] table[i] is None
}

/// The table of configurations is stored, and then the languages are read.
pub open spec fn stores_table(
    run: BuildDescTable,
    pre: UsbBus,
    post: UsbBus,
    step: Step,
    known: Seq<Option<UsbConfigDesc>>,
    count: int,
) -> bool {
    &&& pre.devices@[run.device as int] matches Some(before)
    &&& post.devices@[run.device as int] matches Some(after)
    &&& after.dev_desc matches Some(desc)
    &&& desc.descriptor == before.dev_desc->0.descriptor
    &&& is_table_of(desc.configs@, known, count)
    &&& after == (UsbDevice { dev_desc: after.dev_desc, ..before })
    &&& step matches Step::Call {
        callee: Frame::BuildLangTable(languages),
        next: Frame::BuildDescTable(next),
    }
    &&& languages.device == run.device && !languages.asked
    &&& next.device == run.device && next.at is Languages
}

/// All descriptors of a device are read in order: its own, then as many configurations as it
/// announces, by their index, then its languages, with or without success. The first one that
/// cannot be read or parsed ends the configurations; without a first one the device has failed.
pub proof fn configurations_are_read_in_order(
    run: BuildDescTable,
    pre: UsbBus,
    reply: Reply,
    post: UsbBus,
    step: Step,
)
    requires
        pre.wf(),
        pre.devices@[run.device as int] is Some,
        run.goes_on(pre, reply, post, step),
        run.at matches BuildDescTableAt::Config { configs, .. } ==> configs@.len() < 255,
    ensures
        ({
            let device = pre.devices@[run.device as int]->0;
            let broken = Step::Done(Reply::Status(Status::DeviceError));
            let good = reply matches Reply::Bytes(Some(bytes)) && read_config(bytes@) is Some;
            let read = read_config(((reply->Bytes_0)->0)@)->0;
            &&& run.at is Start ==> {
                &&& post == pre
                &&& step matches Step::Call {
                    callee: Frame::GetDevDesc(ask),
                    next: Frame::BuildDescTable(next),
                }
                &&& ask.device == run.device && !ask.asked
                &&& next.device == run.device && next.at is Device
            }
            &&& run.at is Device && reply.as_status().fails() ==> post == pre && step == Step::Done(
                Reply::Status(reply.as_status()),
            )
            &&& run.at is Device && !reply.as_status().fails() ==> post == pre && if device.dev_desc is Some
                && device.dev_desc->0.descriptor.num_configurations > 0 {
                &&& step matches Step::Call {
                    callee: Frame::GetOneConfig(ask),
                    next: Frame::BuildDescTable(next),
                }
                &&& ask.device == run.device && ask.index == 0 && ask.at is Start
                &&& next.device == run.device
                &&& next.at matches BuildDescTableAt::Config { count, configs }
                &&& count == device.dev_desc->0.descriptor.num_configurations
                &&& configs@.len() == 0
            } else {
                step == broken
            }
            &&& run.at matches BuildDescTableAt::Config { count, configs } ==> {
                &&& !good && configs@.len() == 0 ==> post == pre && step == broken
                &&& !good && configs@.len() > 0 && device.dev_desc is Some ==> stores_table(
                    run,
                    pre,
                    post,
                    step,
                    configs@,
                    count as int,
                )
                &&& good && device.dev_desc is Some && configs@.len() + 1 < count ==> {
                    &&& post == pre
                    &&& step matches Step::Call {
                        callee: Frame::GetOneConfig(ask),
                        next: Frame::BuildDescTable(next),
                    }
                    &&& ask.device == run.device && ask.index == configs@.len() + 1 && ask.at is Start
                    &&& next.device == run.device
                    &&& next.at matches BuildDescTableAt::Config { count: same, configs: more }
                    &&& same == count
                    &&& more@.len() == configs@.len() + 1
                    &&& forall|i: int| 0 <= i < configs@.len() ==> #[trigger] more@[i] == configs@[i]
                    &&& more@[configs@.len() as int] matches Some(config) && config@ == read
                }
                &&& good && device.dev_desc is Some && configs@.len() + 1 >= count ==> exists|last:
                    UsbConfigDesc|
                    last@ == read && #[trigger] stores_table(
                        run,
                        pre,
                        post,
                        step,
                        configs@.push(Some(last)),
                        count as int,
                    )
            }
            &&& run.at is Config && device.dev_desc is None && !(good && run.at->Config_configs@.len() + 1
                < run.at->Config_count) ==> post == pre && step == broken
            &&& run.at is Languages ==> post == pre && step == Step::Done(Reply::Status(Status::Success))
        }),
{
    let device = pre.devices@[run.device as int]->0;
    if let BuildDescTableAt::Config { count, configs } = run.at {
        let known = configs@;
        let parsed = match reply.as_bytes() {
            Some(bytes) => read_config(bytes),
            None => None,
        };
        match parsed {
            None => {
                if known.len() > 0 && device.dev_desc is Some {
                    lemma_stores_table(run, pre, post, step, known, count);
                }
            },
            Some(view) => {
                let config = choose|config: UsbConfigDesc|
                    #![trigger known.push(Some(config))]
                    {
                        let now = known.push(Some(config));
                        config@ == view && if now.len() < count {
                            post == pre && BuildDescTable::asks_next(run.device, count, now, step)
                        } else if device.dev_desc is None {
                            post == pre && step == Step::Done(Reply::Status(Status::DeviceError))
                        } else {
                            BuildDescTable::stores(run.device, pre, count, now, post, step)
                        }
                    };
                let now = known.push(Some(config));
                if now.len() >= count && device.dev_desc is Some {
                    lemma_stores_table(run, pre, post, step, now, count);
                }
            },
        }
    }
}

proof fn lemma_stores_table(
    run: BuildDescTable,
    pre: UsbBus,
    post: UsbBus,
    step: Step,
    known: Seq<Option<UsbConfigDesc>>,
    count: u8,
)
    requires
        pre.wf(),
        BuildDescTable::stores(run.device, pre, count, known, post, step),
    ensures
        stores_table(run, pre, post, step, known, count as int),
{
    let table = post.devices@[run.device as int]->0.dev_desc->0.configs@;
    assert forall|i: int| 0 <= i < known.len() implies #[trigger] table[i] == known[i] by {}
}

/// A refresh asks for the device descriptor and then for each configuration that it
/// announces, by its index. What was known of a configuration that does not come stays; a
/// failure of the descriptor itself changes nothing.
pub proof fn a_refresh_asks_for_everything(
    run: UpdateDescriptors,
    pre: UsbBus,
    reply: Reply,
    post: UsbBus,
    step: Step,
    sent: DeviceDescriptor,
    rest: Seq<u8>,
)
    requires
        pre.wf(),
        pre.devices@[run.device as int] is Some,
        run.goes_on(pre, reply, post, step),
    ensures
        ({
            let before = pre.devices@[run.device as int]->0;
            let after = post.devices@[run.device as int]->0;
            &&& run.at is Start ==> {
                &&& post == pre
                &&& step matches Step::Act {
                    action: Action::ControlTransfer(t),
                    next: Frame::UpdateDescriptors(next),
                }
                &&& carries(t, before, 0x80, 6, 0x0100, 0, 18)
                &&& next == (UpdateDescriptors { at: UpdateDescriptorsAt::Device, ..run })
            }
            &&& run.at is Device && reply.as_status().fails() ==> post == pre && step == Step::Done(
                Reply::Nothing,
            )
            &&& run.at is Device && reply is Transfer && !reply->Transfer_status.fails()
                && reply->Transfer_data@ == device_bytes(sent) + rest ==> {
                &&& post.devices@[run.device as int] is Some
                &&& after.dev_desc matches Some(desc)
                &&& desc.descriptor == sent
                &&& desc.configs@.len() == sent.num_configurations
                &&& after == (UsbDevice { dev_desc: after.dev_desc, ..before })
                &&& before.dev_desc matches Some(old_desc) ==> forall|i: int|
                    0 <= i < desc.configs@.len() && i < old_desc.configs@.len()
                        ==> #[trigger] desc.configs@[i] == old_desc.configs@[i]
                &&& asks_for_configuration(run, step, 0, sent.num_configurations as int)
            }
            &&& run.at matches UpdateDescriptorsAt::Config { index, count } ==> {
                &&& asks_for_configuration(run, step, index + 1, count as int)
                &&& !(reply matches Reply::Bytes(Some(bytes)) && read_config(bytes@) is Some) ==> post == pre
                &&& before.dev_desc is None ==> post == pre
                &&& before.dev_desc is Some ==> {
                    &&& post.devices@[run.device as int] is Some
                    &&& after == (UsbDevice { dev_desc: after.dev_desc, ..before })
                    &&& after.dev_desc matches Some(desc)
                    &&& desc.descriptor == before.dev_desc->0.descriptor
                    &&& desc.configs@.len() == before.dev_desc->0.configs@.len()
                    &&& forall|i: int|
                        0 <= i < desc.configs@.len() && i != index ==> #[trigger] desc.configs@[i]
                            == before.dev_desc->0.configs@[i]
                }
            }
            &&& forall|a: int|
                0 <= a < 256 && a != run.device ==> #[trigger] post.devices@[a] == pre.devices@[a]
        }),
{
    standard_requests_on_the_wire(pre.devices@[run.device as int]->0, 1, 0, 0, 18, 0);
    a_device_descriptor_is_read_back(sent, rest);
}

/// A refresh turns to the configuration with an index, if there are that many.
pub open spec fn asks_for_configuration(run: UpdateDescriptors, step: Step, index: int, count: int) -> bool {
    if index < count {
        &&& step matches Step::Call {
            callee: Frame::GetOneConfig(ask),
            next: Frame::UpdateDescriptors(next),
        }
        &&& ask.device == run.device && ask.index == index && ask.at is Start
        &&& next.device == run.device
        &&& next.at matches UpdateDescriptorsAt::Config { index: i, count: c } && i == index && c == count
    } else {
        step == Step::Done(Reply::Nothing)
    }
}

} // verus!
