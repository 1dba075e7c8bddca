use vstd::prelude::*;
use super::keys::{self, Key, spec_is_extended_key, spec_is_mouse_button, spec_is_mouse_key};
use super::constants::{KEYEVENTF_EXTENDEDKEY, KEYEVENTF_KEYUP, KEYEVENTF_SCANCODE, MOUSEEVENTF_LEFTDOWN,
    MOUSEEVENTF_RIGHTDOWN, MOUSEEVENTF_MIDDLEDOWN, MOUSEEVENTF_XDOWN, MOUSEEVENTF_WHEEL, MOUSEEVENTF_HWHEEL,
    WHEEL_DELTA, XBUTTON1, XBUTTON2};

verus! {

/// A synthesized keyboard or mouse input, as the system's input queue takes it.
#[derive(Clone, Copy, PartialEq, Eq, Structural, Debug)]
pub enum Input {
    Keybd { scan: u16, flags: u32, extra: usize },
    Mouse { data: u32, flags: u32, extra: usize },
}

/// Whether a mouse code names a button or a wheel (its multiplier nibble ignored).
pub open spec fn valid_mouse_code(code: u16) -> bool {
    keys::LBUTTON <= code & 0x02FF <= keys::WH_RIGHT
}

/// Whether a key can be sent: any keyboard key, or a known mouse button or wheel.
pub open spec fn sendable(key: Key) -> bool {
    key.0 & 0x0200 != 0 ==> valid_mouse_code(key.0)
}

/// Wheel repeat count carried by a code: its top nibble plus one.
pub open spec fn wheel_mult(code: u16) -> u32 {
    (((code & 0xF000) >> 12u16) + 1) as u32
}

/// `delta` notches forward (`up`) or backward, as two's-complement mouse data.
pub open spec fn wheel_data(forward: bool, notches: u32) -> u32 {
    if forward {
        (WHEEL_DELTA * notches) as u32
    } else {
        (0x1_0000_0000 - WHEEL_DELTA * notches) as u32
    }
}

/// Flags and data of the press of a mouse key.
pub open spec fn spec_mouse_data(code: u16) -> (u32, u32) {
    let base = code & 0x02FF;
    if base == keys::LBUTTON {
        (MOUSEEVENTF_LEFTDOWN, 0)
    } else if base == keys::RBUTTON {
        (MOUSEEVENTF_RIGHTDOWN, 0)
    } else if base == keys::MBUTTON {
        (MOUSEEVENTF_MIDDLEDOWN, 0)
    } else if base == keys::XBUTTON1 {
        (MOUSEEVENTF_XDOWN, XBUTTON1)
    } else if base == keys::XBUTTON2 {
        (MOUSEEVENTF_XDOWN, XBUTTON2)
    } else if base == keys::WH_UP {
        (MOUSEEVENTF_WHEEL, wheel_data(true, wheel_mult(code)))
    } else if base == keys::WH_DOWN {
        (MOUSEEVENTF_WHEEL, wheel_data(false, wheel_mult(code)))
    } else if base == keys::WH_LEFT {
        (MOUSEEVENTF_HWHEEL, wheel_data(false, wheel_mult(code)))
    } else {
        (MOUSEEVENTF_HWHEEL, wheel_data(true, wheel_mult(code)))
    }
}

/// Scan-code flags of a key press or release.
pub open spec fn scan_flags(key: Key, up: bool) -> u32 {
    let f = if up { KEYEVENTF_SCANCODE | KEYEVENTF_KEYUP } else { KEYEVENTF_SCANCODE };
    if spec_is_extended_key(key.0) {
        f | KEYEVENTF_EXTENDEDKEY
    } else {
        f
    }
}

pub open spec fn spec_keybd_down(key: Key, extra: usize) -> Input {
    Input::Keybd { scan: key.0, flags: scan_flags(key, false), extra }
}

pub open spec fn spec_keybd_up(key: Key, extra: usize) -> Input {
    Input::Keybd { scan: key.0, flags: scan_flags(key, true), extra }
}

pub open spec fn spec_mouse_down(key: Key, extra: usize) -> Input {
    Input::Mouse { data: spec_mouse_data(key.0).1, flags: spec_mouse_data(key.0).0, extra }
}

pub open spec fn spec_mouse_up(key: Key, extra: usize) -> Input {
    Input::Mouse { data: spec_mouse_data(key.0).1, flags: (spec_mouse_data(key.0).0 * 2) as u32, extra }
}

impl Input {
    pub open spec fn extra(self) -> usize {
        match self {
            Input::Keybd { extra, .. } => extra,
            Input::Mouse { extra, .. } => extra,
        }
    }

    /// The same input with its tag replaced.
    pub open spec fn with_extra(self, e: usize) -> Input {
        match self {
            Input::Keybd { scan, flags, .. } => Input::Keybd { scan, flags, extra: e },
            Input::Mouse { data, flags, .. } => Input::Mouse { data, flags, extra: e },
        }
    }

    pub fn set_extra(&mut self, e: usize)
        ensures
            *final(self) == old(self).with_extra(e),
    {
        match self {
            Input::Keybd { extra, .. } => *extra = e,
            Input::Mouse { extra, .. } => *extra = e,
        }
    }

    pub fn new_keybd(sc: u16, flags: u32, extra: usize) -> (r: Input)
        ensures
            r == (Input::Keybd { scan: sc, flags, extra }),
    {
        Input::Keybd { scan: sc, flags, extra }
    }

    pub fn new_mouse(data: u32, flags: u32, extra: usize) -> (r: Input)
        ensures
            r == (Input::Mouse { data, flags, extra }),
    {
        Input::Mouse { data, flags, extra }
    }

    pub fn keybd_down(key: Key, extra: usize) -> (r: Input)
        ensures
            r == spec_keybd_down(key, extra),
    {
        let mut flags = KEYEVENTF_SCANCODE;
        if key.is_extended_key() {
            flags = flags | KEYEVENTF_EXTENDEDKEY;
        }
        Self::new_keybd(key.0, flags, extra)
    }

    pub fn keybd_up(key: Key, extra: usize) -> (r: Input)
        ensures
            r == spec_keybd_up(key, extra),
    {
        let mut flags = KEYEVENTF_SCANCODE | KEYEVENTF_KEYUP;
        if key.is_extended_key() {
            flags = flags | KEYEVENTF_EXTENDEDKEY;
        }
        Self::new_keybd(key.0, flags, extra)
    }

    pub fn mouse_down(key: Key, extra: usize) -> (r: Input)
        requires
            valid_mouse_code(key.0),
        ensures
            r == spec_mouse_down(key, extra),
    {
        let (flags, data) = get_mouse_data(key.0);
        Self::new_mouse(data, flags, extra)
    }

    /// The release of a mouse button; wheels have no release.
    pub fn mouse_up(key: Key, extra: usize) -> (r: Input)
        requires
            spec_is_mouse_button(key.0),
        ensures
            r == spec_mouse_up(key, extra),
    {
        let k = key.0;
        assert(k & 0x02FF == k) by (bit_vector)
            requires
                0x0200 <= k <= 0x0204,
        ;
        let (flags, data) = get_mouse_data(key.0);
        Self::new_mouse(data, flags * 2, extra)
    }
}

/// Flags and mouse data for the press of a mouse key; a wheel key's data
/// counts its multiplier.
pub fn get_mouse_data(key: u16) -> (r: (u32, u32))
    requires
        valid_mouse_code(key),
    ensures
        r == spec_mouse_data(key),
{
    let base = key & 0x02FF;
    if base == keys::LBUTTON {
        (MOUSEEVENTF_LEFTDOWN, 0)
    } else if base == keys::RBUTTON {
        (MOUSEEVENTF_RIGHTDOWN, 0)
    } else if base == keys::MBUTTON {
        (MOUSEEVENTF_MIDDLEDOWN, 0)
    } else if base == keys::XBUTTON1 {
        (MOUSEEVENTF_XDOWN, XBUTTON1)
    } else if base == keys::XBUTTON2 {
        (MOUSEEVENTF_XDOWN, XBUTTON2)
    } else {
        let mult = get_wheel_mult(key);
        let fwd = WHEEL_DELTA * mult;
        let back = u32::MAX - fwd + 1;
        if base == keys::WH_UP {
            (MOUSEEVENTF_WHEEL, fwd)
        } else if base == keys::WH_DOWN {
            (MOUSEEVENTF_WHEEL, back)
        } else if base == keys::WH_LEFT {
            (MOUSEEVENTF_HWHEEL, back)
        } else {
            (MOUSEEVENTF_HWHEEL, fwd)
        }
    }
}

fn get_wheel_mult(wheel: u16) -> (r: u32)
    ensures
        r == wheel_mult(wheel),
        1 <= r <= 16,
{
    assert((wheel & 0xF000) >> 12u16 <= 15) by (bit_vector);
    (((wheel & 0xF000) >> 12) + 1) as u32
}

/// The inputs of a key: a keyboard key's release is its press with the
/// key-up flag; a mouse button's release is its press with the button's up
/// flag (the down flag's next bit) and the same data; the five buttons press
/// with their own down flags (the extra buttons telling themselves apart in
/// the data); a notch of each wheel turns by one wheel delta, up and right
/// forward, down and left backward.
pub proof fn law_key_inputs(key: Key, extra: usize)
    ensures
        !spec_is_mouse_key(key.0) ==> spec_keybd_up(key, extra) == (Input::Keybd {
            scan: key.0,
            flags: spec_keybd_down(key, extra)->Keybd_flags | KEYEVENTF_KEYUP,
            extra,
        }),
        spec_mouse_up(key, extra)->Mouse_data == spec_mouse_down(key, extra)->Mouse_data,
        spec_mouse_up(key, extra)->Mouse_flags == 2 * spec_mouse_down(key, extra)->Mouse_flags,
        spec_mouse_data(keys::LBUTTON) == (MOUSEEVENTF_LEFTDOWN, 0u32),
        spec_mouse_data(keys::RBUTTON) == (MOUSEEVENTF_RIGHTDOWN, 0u32),
        spec_mouse_data(keys::MBUTTON) == (MOUSEEVENTF_MIDDLEDOWN, 0u32),
        spec_mouse_data(keys::XBUTTON1) == (MOUSEEVENTF_XDOWN, XBUTTON1),
        spec_mouse_data(keys::XBUTTON2) == (MOUSEEVENTF_XDOWN, XBUTTON2),
        spec_mouse_data(keys::WH_UP) == (MOUSEEVENTF_WHEEL, WHEEL_DELTA),
        spec_mouse_data(keys::WH_DOWN) == (MOUSEEVENTF_WHEEL, (0x1_0000_0000 - WHEEL_DELTA) as u32),
        spec_mouse_data(keys::WH_LEFT) == (MOUSEEVENTF_HWHEEL, (0x1_0000_0000 - WHEEL_DELTA) as u32),
        spec_mouse_data(keys::WH_RIGHT) == (MOUSEEVENTF_HWHEEL, WHEEL_DELTA),
{
    let (a, b, c, d, e, f, g, h, i) = (keys::LBUTTON, keys::RBUTTON, keys::MBUTTON, keys::XBUTTON1, keys::XBUTTON2,
        keys::WH_UP, keys::WH_DOWN, keys::WH_LEFT, keys::WH_RIGHT);
    assert(a & 0x02FF == a && b & 0x02FF == b && c & 0x02FF == c && d & 0x02FF == d && e & 0x02FF == e && f & 0x02FF
        == f && g & 0x02FF == g && h & 0x02FF == h && i & 0x02FF == i && (f & 0xF000) >> 12u16 == 0 && (g & 0xF000)
        >> 12u16 == 0 && (h & 0xF000) >> 12u16 == 0 && (i & 0xF000) >> 12u16 == 0) by (bit_vector)
        requires
            a == 0x0200 && b == 0x0201 && c == 0x0202 && d == 0x0203 && e == 0x0204 && f == 0x0205 && g == 0x0206
                && h == 0x0207 && i == 0x0208,
    ;
    assert(((8u32 | 1u32) | 2u32) == ((8u32 | 2u32) | 1u32)) by (bit_vector);
}

} // verus!
