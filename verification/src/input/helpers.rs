use vstd::prelude::*;
use super::keys::{self, Key, spec_is_mouse_key, spec_is_mouse_button, spec_is_extended_key};

verus! {

pub fn is_mouse_key(key: Key) -> (r: bool)
    ensures
        r == spec_is_mouse_key(key.0),
{
    key.0 & 0x0200 != 0
}

/// Unlike [`Key::is_mouse_wheel`], a wheel key that carries a multiplier is
/// not counted here: only the four plain wheel codes are.
pub fn is_mouse_wheel(key: Key) -> (r: bool)
    ensures
        r == (keys::WH_UP <= key.0 <= keys::WH_RIGHT),
{
    keys::WH_UP <= key.0 && key.0 <= keys::WH_RIGHT
}

pub fn is_mouse_button(key: Key) -> (r: bool)
    ensures
        r == spec_is_mouse_button(key.0),
{
    keys::LBUTTON <= key.0 && key.0 <= keys::XBUTTON2
}

pub fn is_extended_key(key: Key) -> (r: bool)
    ensures
        r == spec_is_extended_key(key.0),
{
    key.0 & 0xE000 == 0xE000
}

} // verus!
