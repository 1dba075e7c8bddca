use vstd::prelude::*;

verus! {

/// The first byte of a message between the host and the keyboard.
pub const RESERVED: u8 = 0x00;
pub const HID_HOST: u8 = 0x01;
pub const HID_SET_LAYER: u8 = 0x02;
pub const HID_GET_LAYER: u8 = 0x03;
pub const HID_LAYER_UPDATE: u8 = 0x04;
pub const HID_DEFAULT: u8 = 0xFE;
pub const HID_PING: u8 = 0xFF;

} // verus!
