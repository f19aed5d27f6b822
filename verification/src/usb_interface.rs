//! The interfaces of a device: settings and endpoints.

use crate::search::{first_index, lemma_first_index_found, lemma_first_index_none};
use crate::status::Status;
use crate::usb_bus_defs::UsbInterface;
use crate::usb_desc::{
    InterfaceDescView, SettingView, UsbEndpointDesc, UsbInterfaceDesc, UsbInterfaceSetting,
};
use vstd::prelude::*;

verus! {

/// Advances a byte and bit position to the next bit.
pub fn usb_next_bit(byte: &mut u8, bit: &mut u8)
    requires
        *old(bit) < 7 || (*old(bit) < 255 && *old(byte) < 255),
    ensures
        *old(bit) < 7 ==> *final(bit) == *old(bit) + 1 && *final(byte) == *old(byte),
        *old(bit) >= 7 ==> *final(bit) == 0 && *final(byte) == *old(byte) + 1,
{
    *bit = *bit + 1;
    if *bit > 7 {
        *byte = *byte + 1;
        *bit = 0;
    }
}

impl UsbInterface {
    /// The alternate setting that is in use.
    pub open spec fn setting(self) -> Option<SettingView> {
        match self.if_desc {
            Some(desc) => if desc.active_index < desc.settings@.len() {
                Some(desc.settings@[desc.active_index as int]@)
            } else {
                None
            },
            None => None,
        }
    }

    /// Returns the alternate setting that is in use.
    pub fn get_setting(&self) -> (r: Option<&UsbInterfaceSetting>)
        ensures
            match r {
                Some(setting) => self.setting() == Some(setting@),
                None => self.setting() is None,
            },
    {
        match &self.if_desc {
            Some(desc) => if desc.active_index < desc.settings.len() {
                Some(&desc.settings[desc.active_index])
            } else {
                None
            },
            None => None,
        }
    }

    /// The slot of the endpoint with the given address in the setting that is in use.
    pub open spec fn endpoint_slot(self, endpoint_address: u8) -> Option<int> {
        match self.setting() {
            Some(setting) => first_index(setting.endpoints, has_address(endpoint_address)),
            None => None,
        }
    }

    /// The endpoint with the given address in the setting that is in use.
    pub open spec fn endpoint(self, endpoint_address: u8) -> Option<UsbEndpointDesc> {
        match self.endpoint_slot(endpoint_address) {
            Some(slot) => self.setting()->0.endpoints[slot],
            None => None,
        }
    }
}

/// The endpoint in a slot has the given address.
pub open spec fn has_address(endpoint_address: u8) -> spec_fn(Option<UsbEndpointDesc>) -> bool {
    |slot: Option<UsbEndpointDesc>|
        slot matches Some(endpoint) && endpoint.descriptor.endpoint_address == endpoint_address
}

/// Returns the slot and the descriptor of the endpoint with the requested address.
pub fn usb_get_endpoint_desc(usb_if: &UsbInterface, endpoint_address: u8) -> (r: Option<
    (usize, UsbEndpointDesc),
>)
    ensures
        match r {
            Some((slot, endpoint)) => usb_if.endpoint_slot(endpoint_address) == Some(slot as int)
                && usb_if.endpoint(endpoint_address) == Some(endpoint) && slot
                < usb_if.setting()->0.endpoints.len(),
            None => usb_if.endpoint_slot(endpoint_address) is None,
        },
{
    let setting = match usb_if.get_setting() {
        Some(setting) => setting,
        None => return None,
    };
    let ghost p = has_address(endpoint_address);
    let mut index: usize = 0;
    while index < setting.endpoints.len()
        invariant
            index <= setting.endpoints@.len(),
            usb_if.setting() == Some(setting@),
            p == has_address(endpoint_address),
            forall|j: int| 0 <= j < index ==> !p(#[trigger] setting.endpoints@[j]),
        decreases setting.endpoints@.len() - index,
    {
        if let Some(endpoint) = setting.endpoints[index] {
            if endpoint.descriptor.endpoint_address == endpoint_address {
                proof {
                    lemma_first_index_found(setting.endpoints@, p, index as int);
                }
                return Some((index, endpoint));
            }
        }
        index = index + 1;
    }
    proof {
        lemma_first_index_none(setting.endpoints@, p);
    }
    None
}

/// A setting is the given alternate.
pub open spec fn is_alternate(alternate: u8) -> spec_fn(SettingView) -> bool {
    |setting: SettingView| setting.descriptor.alternate_setting == alternate
}

/// The same endpoints with their data toggles at zero.
pub open spec fn toggles_cleared(endpoints: Seq<Option<UsbEndpointDesc>>) -> Seq<Option<UsbEndpointDesc>> {
    endpoints.map_values(
        |slot: Option<UsbEndpointDesc>|
            match slot {
                Some(endpoint) => Some(UsbEndpointDesc { toggle: 0, ..endpoint }),
                None => None,
            },
    )
}

/// The interface with the setting at `index` in use: its toggles start at zero.
pub open spec fn with_setting(interface: InterfaceDescView, index: int) -> InterfaceDescView {
    let setting = interface.settings[index];
    InterfaceDescView {
        settings: interface.settings.update(
            index,
            SettingView { endpoints: toggles_cleared(setting.endpoints), ..setting },
        ),
        active_index: index,
    }
}

/// Looks for an alternate setting of an interface.
pub fn usb_find_setting(interface: &UsbInterfaceDesc, alternate: u8) -> (r: Option<usize>)
    ensures
        match r {
            Some(index) => first_index(interface@.settings, is_alternate(alternate)) == Some(index as int)
                && index < interface.settings@.len(),
            None => first_index(interface@.settings, is_alternate(alternate)) is None,
        },
{
    let ghost p = is_alternate(alternate);
    let ghost settings = interface@.settings;
    let mut index: usize = 0;
    while index < interface.settings.len()
        invariant
            index <= interface.settings@.len(),
            settings == interface@.settings,
            p == is_alternate(alternate),
            forall|j: int| 0 <= j < index ==> !p(#[trigger] settings[j]),
        decreases interface.settings@.len() - index,
    {
        assert(settings[index as int] == interface.settings@[index as int]@);
        if interface.settings[index].descriptor.alternate_setting == alternate {
            proof {
                lemma_first_index_found(settings, p, index as int);
            }
            return Some(index);
        }
        index = index + 1;
    }
    proof {
        lemma_first_index_none(settings, p);
    }
    None
}

/// Selects an alternate setting for an interface.
pub fn usb_select_setting(interface: &mut UsbInterfaceDesc, alternate: u8) -> (r: Status)
    ensures
        match first_index(old(interface)@.settings, is_alternate(alternate)) {
            Some(index) => r == Status::Success && final(interface)@ == with_setting(
                old(interface)@,
                index,
            ),
            None => r == Status::NotFound && *final(interface) == *old(interface),
        },
        final(interface).settings@.len() == old(interface).settings@.len(),
{
    let ghost before = interface@;
    let index: usize = match usb_find_setting(interface, alternate) {
        Some(index) => index,
        None => return Status::NotFound,
    };
    interface.active_index = index;
    let ghost setting = interface.settings@[index as int];
    let ghost cleared = toggles_cleared(setting.endpoints@);
    let count: usize = interface.settings[index].endpoints.len();
    let mut slot: usize = 0;
    while slot < count
        invariant
            slot <= count == setting.endpoints@.len(),
            index < interface.settings@.len() == old(interface).settings@.len(),
            interface.active_index == index,
            setting == old(interface).settings@[index as int],
            cleared == toggles_cleared(setting.endpoints@),
            interface.settings@[index as int].descriptor == setting.descriptor,
            interface.settings@[index as int].endpoints@.len() == count,
            forall|j: int|
                0 <= j < slot ==> #[trigger] interface.settings@[index as int].endpoints@[j] == cleared[j],
            forall|j: int|
                slot <= j < count ==> #[trigger] interface.settings@[index as int].endpoints@[j]
                    == setting.endpoints@[j],
            forall|i: int|
                0 <= i < interface.settings@.len() && i != index ==> #[trigger] interface.settings@[i]
                    == old(interface).settings@[i],
        decreases count - slot,
    {
        if let Some(endpoint) = interface.settings[index].endpoints[slot] {
            interface.settings[index].endpoints[slot] = Some(UsbEndpointDesc { toggle: 0, ..endpoint });
        }
        slot = slot + 1;
    }
    proof {
        let after = with_setting(before, index as int);
        assert(interface.settings@[index as int].endpoints@ =~= cleared);
        assert forall|i: int| 0 <= i < interface.settings@.len() implies #[trigger] interface@.settings[i]
            == after.settings[i] by {
            if i != index {
                assert(interface.settings@[i] == old(interface).settings@[i]);
            }
        }
        assert(interface@.settings =~= after.settings);
    }
    Status::Success
}

/// Copies the settings of an interface.
pub fn copy_interface_desc(interface: &UsbInterfaceDesc) -> (r: UsbInterfaceDesc)
    ensures
        r@ == interface@,
        r.settings@.len() == interface.settings@.len(),
{
    let mut settings: Vec<UsbInterfaceSetting> = Vec::new();
    while settings.len() < interface.settings.len()
        invariant
            settings@.len() <= interface.settings@.len(),
            forall|i: int| 0 <= i < settings@.len() ==> (#[trigger] settings@[i])@ == interface.settings@[i]@,
        decreases interface.settings@.len() - settings@.len(),
    {
        let from = &interface.settings[settings.len()];
        let mut endpoints: Vec<Option<UsbEndpointDesc>> = Vec::new();
        while endpoints.len() < from.endpoints.len()
            invariant
                endpoints@.len() <= from.endpoints@.len(),
                forall|i: int| 0 <= i < endpoints@.len() ==> #[trigger] endpoints@[i] == from.endpoints@[i],
            decreases from.endpoints@.len() - endpoints@.len(),
        {
            endpoints.push(from.endpoints[endpoints.len()]);
        }
        assert(endpoints@ =~= from.endpoints@);
        settings.push(UsbInterfaceSetting { descriptor: from.descriptor, endpoints });
    }
    let copy = UsbInterfaceDesc { settings, active_index: interface.active_index };
    proof {
        assert(copy@.settings =~= interface@.settings);
    }
    copy
}

} // verus!
