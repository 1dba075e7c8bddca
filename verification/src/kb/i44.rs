use vstd::prelude::*;
use crate::hid::device::{Device, DeviceInfo};
use super::hid_msgs::{HID_HOST, HID_SET_LAYER, HID_DEFAULT};
use super::layers::MOUSE;

verus! {

/// The vendor, product, usage page and usage of the keyboard's raw HID interface.
pub const VENDOR_ID: u16 = 0xFEED;
pub const PRODUCT_ID: u16 = 0x03;
pub const USAGE_PAGE: u16 = 0xFF60;
pub const USAGE_ID: u16 = 0x61;

pub open spec fn spec_is_i44(info: &DeviceInfo) -> bool {
    info.spec_vendor_id() == VENDOR_ID && info.spec_product_id() == PRODUCT_ID && info.spec_usage_page()
        == USAGE_PAGE && info.spec_usage_id() == USAGE_ID
}

/// The message that sets the keyboard's layers: the bits of the layers, high byte first.
pub open spec fn layer_msg(layer: u16) -> Seq<u8> {
    seq![HID_SET_LAYER, ((layer >> 8u16) & 0xFF) as u8, (layer & 0xFF) as u8]
}

/// The keyboard, by the device that is its raw HID interface.
pub struct I44 {
    info: DeviceInfo,
}

impl I44 {
    pub closed spec fn spec_info(&self) -> &DeviceInfo {
        &self.info
    }

    /// Whether a device is the keyboard's raw HID interface.
    pub fn is_i44(info: &DeviceInfo) -> (r: bool)
        ensures
            r == spec_is_i44(info),
    {
        info.vendor_id() == VENDOR_ID && info.product_id() == PRODUCT_ID && info.usage_page() == USAGE_PAGE
            && info.usage_id() == USAGE_ID
    }

    /// The first of the devices that is the keyboard.
    pub fn find(devices: Vec<DeviceInfo>) -> (r: Option<I44>)
        ensures
            match r {
                Some(kb) => exists|i: int|
                    0 <= i < devices@.len() && *kb.spec_info() == devices@[i] && spec_is_i44(&devices@[i]) && (
                    forall|j: int| 0 <= j < i ==> !spec_is_i44(&devices@[j])),
                None => forall|i: int| 0 <= i < devices@.len() ==> !spec_is_i44(&devices@[i]),
            },
    {
        let mut infos = devices;
        let ghost all = infos@;
        let mut i: usize = 0;
        while i < infos.len()
            invariant
                infos@ == all,
                all == devices@,
                i <= infos@.len(),
                forall|j: int| 0 <= j < i ==> !spec_is_i44(&all[j]),
            decreases infos@.len() - i,
        {
            if Self::is_i44(&infos[i]) {
                let info = infos.remove(i);
                let kb = I44 { info };
                assert(*kb.spec_info() == devices@[i as int] && spec_is_i44(&devices@[i as int]));
                return Some(kb);
            }
            i = i + 1;
        }
        None
    }

    pub fn info(&self) -> (r: &DeviceInfo)
        ensures
            r == self.spec_info(),
    {
        &self.info
    }

    /// Report buffers for the keyboard.
    pub fn new_device(&self) -> (r: Device)
        ensures
            r.spec_input() == Seq::new(self.spec_info().spec_input_len() as nat, |i: int| 0u8),
            r.spec_output() == Seq::new(self.spec_info().spec_output_len() as nat, |i: int| 0u8),
    {
        Device::new(&self.info)
    }

    /// The message that tells the keyboard that the host drives it.
    pub fn enable() -> (r: Vec<u8>)
        ensures
            r@ == seq![HID_HOST, 1u8],
    {
        let mut r = Vec::new();
        r.push(HID_HOST);
        r.push(1);
        assert(r@ =~= seq![HID_HOST, 1u8]);
        r
    }

    /// The message that tells the keyboard that the host no longer drives it.
    pub fn disable() -> (r: Vec<u8>)
        ensures
            r@ == seq![HID_HOST, 0u8],
    {
        let mut r = Vec::new();
        r.push(HID_HOST);
        r.push(0);
        assert(r@ =~= seq![HID_HOST, 0u8]);
        r
    }

    /// The message that sets the layers whose bits are in `layer`.
    pub fn set_layer(layer: u16) -> (r: Vec<u8>)
        ensures
            r@ == layer_msg(layer),
    {
        let mut r = Vec::new();
        r.push(HID_SET_LAYER);
        r.push(((layer >> 8) & 0xFF) as u8);
        r.push((layer & 0xFF) as u8);
        assert(r@ =~= layer_msg(layer));
        r
    }

    /// The message that switches the keyboard to its mouse layer.
    pub fn set_mouse_layer() -> (r: Vec<u8>)
        ensures
            r@ == layer_msg((1u16 << MOUSE) as u16),
    {
        Self::set_layer(1 << MOUSE)
    }
}

/// The power event of a system that resumed from sleep.
pub const PBT_APMRESUMEAUTOMATIC: usize = 0x12;

/// Whether a power broadcast tells that the system resumed, after which
/// the keyboard is reset to its default layers.
pub fn resumed(wparam: usize) -> (r: bool)
    ensures
        r == (wparam == PBT_APMRESUMEAUTOMATIC),
{
    wparam == PBT_APMRESUMEAUTOMATIC
}

/// The message that resets the keyboard to its default layers.
pub fn default_msg() -> (r: Vec<u8>)
    ensures
        r@ == seq![HID_DEFAULT],
{
    let mut r = Vec::new();
    r.push(HID_DEFAULT);
    assert(r@ =~= seq![HID_DEFAULT]);
    r
}

/// A layer message carries its layer: its two bytes after the message type,
/// high byte first, give the layer back.
pub proof fn law_layer_msg_roundtrip(layer: u16)
    ensures
        ((layer_msg(layer)[1] as u16) << 8u16) | (layer_msg(layer)[2] as u16) == layer,
        layer_msg(layer)[0] == HID_SET_LAYER,
{
    assert((((((layer >> 8u16) & 0xFF) as u8) as u16) << 8u16) | (((layer & 0xFF) as u8) as u16) == layer)
        by (bit_vector);
}

} // verus!
