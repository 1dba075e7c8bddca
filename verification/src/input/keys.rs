use vstd::prelude::*;

verus! {

/// A key, identified by its scan code. Extended keys carry `0xE0` in the
/// high byte, mouse keys have the bit `0x0200` set, and wheel keys may carry
/// a repeat multiplier in their top nibble (`0x1000` per extra notch).
#[derive(Clone, Copy, PartialEq, Eq, Structural, Hash, Debug)]
pub struct Key(pub u16);

// Key codes; `Key(A)` is the key `A`.
pub const NONE: u16 = 0x0000; // 0

pub const A: u16 = 0x001E;
pub const B: u16 = 0x0030;
pub const C: u16 = 0x002E;
pub const D: u16 = 0x0020;
pub const E: u16 = 0x0012;
pub const F: u16 = 0x0021;
pub const G: u16 = 0x0022;
pub const H: u16 = 0x0023;
pub const I: u16 = 0x0017;
pub const J: u16 = 0x0024;
pub const K: u16 = 0x0025;
pub const L: u16 = 0x0026;
pub const M: u16 = 0x0032;
pub const N: u16 = 0x0031;
pub const O: u16 = 0x0018;
pub const P: u16 = 0x0019;
pub const Q: u16 = 0x0010;
pub const R: u16 = 0x0013;
pub const S: u16 = 0x001F;
pub const T: u16 = 0x0014;
pub const U: u16 = 0x0016;
pub const V: u16 = 0x002F;
pub const W: u16 = 0x0011;
pub const X: u16 = 0x002D;
pub const Y: u16 = 0x0015;
pub const Z: u16 = 0x002C;

pub const NUM1: u16 = 0x0002;
pub const NUM2: u16 = 0x0003;
pub const NUM3: u16 = 0x0004;
pub const NUM4: u16 = 0x0005;
pub const NUM5: u16 = 0x0006;
pub const NUM6: u16 = 0x0007;
pub const NUM7: u16 = 0x0008;
pub const NUM8: u16 = 0x0009;
pub const NUM9: u16 = 0x000A;
pub const NUM0: u16 = 0x000B;

pub const ESCAPE: u16 = 0x0001;
pub const ENTER: u16 = 0x001C;
pub const TAB: u16 = 0x000F;
pub const SPACE: u16 = 0x0039;
pub const BS: u16 = 0x000E;
pub const DEL: u16 = 0xE053;
pub const INSERT: u16 = 0xE052;
pub const HOME: u16 = 0xE047;
pub const END: u16 = 0xE04F;
pub const PG_UP: u16 = 0xE049;
pub const PG_DOWN: u16 = 0xE051;
pub const UP: u16 = 0xE048;
pub const DOWN: u16 = 0xE050;
pub const LEFT: u16 = 0xE04B;
pub const RIGHT: u16 = 0xE04D;

pub const DASH: u16 = 0x000C;
pub const EQUALS: u16 = 0x000D;
pub const LBRACE: u16 = 0x001A;
pub const RBRACE: u16 = 0x001B;
pub const BSLASH: u16 = 0x002B;
pub const SEMICOLON: u16 = 0x0027;
pub const APOSTROPHE: u16 = 0x0028;
pub const GRAVE: u16 = 0x0029;
pub const COMMA: u16 = 0x0033;
pub const PERIOD: u16 = 0x0034;
pub const FSLASH: u16 = 0x0035;

pub const KEYPAD1: u16 = 0x004F;
pub const KEYPAD2: u16 = 0x0050;
pub const KEYPAD3: u16 = 0x0051;
pub const KEYPAD4: u16 = 0x004B;
pub const KEYPAD5: u16 = 0x004C;
pub const KEYPAD6: u16 = 0x004D;
pub const KEYPAD7: u16 = 0x0047;
pub const KEYPAD8: u16 = 0x0048;
pub const KEYPAD9: u16 = 0x0049;
pub const KEYPAD0: u16 = 0x0052;
pub const KEYPAD_FSLASH: u16 = 0xE035;
pub const KEYPAD_STAR: u16 = 0x0037;
pub const KEYPAD_DASH: u16 = 0x004A;
pub const KEYPAD_PLUS: u16 = 0x004E;
pub const KEYPAD_ENTER: u16 = 0xE01C;
pub const KEYPAD_PERIOD: u16 = 0x0053;

pub const F1: u16 = 0x003B;
pub const F2: u16 = 0x003C;
pub const F3: u16 = 0x003D;
pub const F4: u16 = 0x003E;
pub const F5: u16 = 0x003F;
pub const F6: u16 = 0x0040;
pub const F7: u16 = 0x0041;
pub const F8: u16 = 0x0042;
pub const F9: u16 = 0x0043;
pub const F10: u16 = 0x0044;
pub const F11: u16 = 0x0057;
pub const F12: u16 = 0x0058;
pub const F13: u16 = 0x0064;
pub const F14: u16 = 0x0065;
pub const F15: u16 = 0x0066;
pub const F16: u16 = 0x0067;
pub const F17: u16 = 0x0068;
pub const F18: u16 = 0x0069;
pub const F19: u16 = 0x006A;
pub const F20: u16 = 0x006B;
pub const F21: u16 = 0x006C;
pub const F22: u16 = 0x006D;
pub const F23: u16 = 0x006E;
pub const F24: u16 = 0x0076;

pub const LCTRL: u16 = 0x001D;
pub const LSHIFT: u16 = 0x002A;
pub const LALT: u16 = 0x0038;
pub const LWIN: u16 = 0xE05B;
pub const RCTRL: u16 = 0xE01D;
pub const RSHIFT: u16 = 0x0036;
pub const RALT: u16 = 0xE038;
pub const RWIN: u16 = 0xE05C;

pub const BROWSER_BACK: u16 = 0xE06A;
pub const BROWSER_FORWARD: u16 = 0xE069;
pub const BROWSER_REFRESH: u16 = 0xE067;
pub const BROWSER_STOP: u16 = 0xE068;
pub const BROWSER_SEARCH: u16 = 0xE065;
pub const BROWSER_FAV: u16 = 0xE066;
pub const BROWSER_HOME: u16 = 0xE032;
pub const VOLUME_MUTE: u16 = 0xE020;
pub const VOLUME_DOWN: u16 = 0xE02E;
pub const VOLUME_UP: u16 = 0xE030;
pub const MEDIA_NEXT_TRACK: u16 = 0xE019;
pub const MEDIA_PREV_TRACK: u16 = 0xE010;
pub const MEDIA_STOP: u16 = 0xE024;
pub const MEDIA_PLAY_PAUSE: u16 = 0xE022;
pub const LAUNCH_MAIL: u16 = 0xE06C;
pub const LAUNCH_MEDIA: u16 = 0xE06D;
pub const LAUNCH_APP1: u16 = 0xE06B;
pub const LAUNCH_APP2: u16 = 0xE021;

pub const CAPSLOCK: u16 = 0x003A;
pub const SCROLL_LOCK: u16 = 0x0046;
pub const NUMLOCK: u16 = 0xE045;

pub const PRINTSCREEN: u16 = 0xE037;
pub const PAUSE: u16 = 0x0045;
pub const APP: u16 = 0xE05D;

pub const LBUTTON: u16 = 0x0200;
pub const RBUTTON: u16 = 0x0201;
pub const MBUTTON: u16 = 0x0202;
pub const XBUTTON1: u16 = 0x0203;
pub const XBUTTON2: u16 = 0x0204;
pub const WH_UP: u16 = 0x0205;
pub const WH_DOWN: u16 = 0x0206;
pub const WH_LEFT: u16 = 0x0207;
pub const WH_RIGHT: u16 = 0x0208;

pub const WH_UP_X2: u16 = 0x1205; // WH_UP | 0x1000
pub const WH_UP_X3: u16 = 0x2205; // WH_UP | 0x2000
pub const WH_UP_X4: u16 = 0x3205; // WH_UP | 0x3000
pub const WH_UP_X5: u16 = 0x4205; // WH_UP | 0x4000
pub const WH_UP_X6: u16 = 0x5205; // WH_UP | 0x5000
pub const WH_UP_X7: u16 = 0x6205; // WH_UP | 0x6000
pub const WH_UP_X8: u16 = 0x7205; // WH_UP | 0x7000
pub const WH_UP_X9: u16 = 0x8205; // WH_UP | 0x8000
pub const WH_UP_X10: u16 = 0x9205; // WH_UP | 0x9000
pub const WH_UP_X11: u16 = 0xA205; // WH_UP | 0xA000
pub const WH_UP_X12: u16 = 0xB205; // WH_UP | 0xB000
pub const WH_UP_X13: u16 = 0xC205; // WH_UP | 0xC000
pub const WH_UP_X14: u16 = 0xD205; // WH_UP | 0xD000
pub const WH_UP_X15: u16 = 0xE205; // WH_UP | 0xE000
pub const WH_UP_X16: u16 = 0xF205; // WH_UP | 0xF000

pub const WH_DOWN_X2: u16 = 0x1206; // WH_DOWN | 0x1000
pub const WH_DOWN_X3: u16 = 0x2206; // WH_DOWN | 0x2000
pub const WH_DOWN_X4: u16 = 0x3206; // WH_DOWN | 0x3000
pub const WH_DOWN_X5: u16 = 0x4206; // WH_DOWN | 0x4000
pub const WH_DOWN_X6: u16 = 0x5206; // WH_DOWN | 0x5000
pub const WH_DOWN_X7: u16 = 0x6206; // WH_DOWN | 0x6000
pub const WH_DOWN_X8: u16 = 0x7206; // WH_DOWN | 0x7000
pub const WH_DOWN_X9: u16 = 0x8206; // WH_DOWN | 0x8000
pub const WH_DOWN_X10: u16 = 0x9206; // WH_DOWN | 0x9000
pub const WH_DOWN_X11: u16 = 0xA206; // WH_DOWN | 0xA000
pub const WH_DOWN_X12: u16 = 0xB206; // WH_DOWN | 0xB000
pub const WH_DOWN_X13: u16 = 0xC206; // WH_DOWN | 0xC000
pub const WH_DOWN_X14: u16 = 0xD206; // WH_DOWN | 0xD000
pub const WH_DOWN_X15: u16 = 0xE206; // WH_DOWN | 0xE000
pub const WH_DOWN_X16: u16 = 0xF206; // WH_DOWN | 0xF000

pub const WH_LEFT_X2: u16 = 0x1207; // WH_LEFT | 0x1000
pub const WH_LEFT_X3: u16 = 0x2207; // WH_LEFT | 0x2000
pub const WH_LEFT_X4: u16 = 0x3207; // WH_LEFT | 0x3000
pub const WH_LEFT_X5: u16 = 0x4207; // WH_LEFT | 0x4000
pub const WH_LEFT_X6: u16 = 0x5207; // WH_LEFT | 0x5000
pub const WH_LEFT_X7: u16 = 0x6207; // WH_LEFT | 0x6000
pub const WH_LEFT_X8: u16 = 0x7207; // WH_LEFT | 0x7000
pub const WH_LEFT_X9: u16 = 0x8207; // WH_LEFT | 0x8000
pub const WH_LEFT_X10: u16 = 0x9207; // WH_LEFT | 0x9000
pub const WH_LEFT_X11: u16 = 0xA207; // WH_LEFT | 0xA000
pub const WH_LEFT_X12: u16 = 0xB207; // WH_LEFT | 0xB000
pub const WH_LEFT_X13: u16 = 0xC207; // WH_LEFT | 0xC000
pub const WH_LEFT_X14: u16 = 0xD207; // WH_LEFT | 0xD000
pub const WH_LEFT_X15: u16 = 0xE207; // WH_LEFT | 0xE000
pub const WH_LEFT_X16: u16 = 0xF207; // WH_LEFT | 0xF000

pub const WH_RIGHT_X2: u16 = 0x1208; // WH_RIGHT | 0x1000
pub const WH_RIGHT_X3: u16 = 0x2208; // WH_RIGHT | 0x2000
pub const WH_RIGHT_X4: u16 = 0x3208; // WH_RIGHT | 0x3000
pub const WH_RIGHT_X5: u16 = 0x4208; // WH_RIGHT | 0x4000
pub const WH_RIGHT_X6: u16 = 0x5208; // WH_RIGHT | 0x5000
pub const WH_RIGHT_X7: u16 = 0x6208; // WH_RIGHT | 0x6000
pub const WH_RIGHT_X8: u16 = 0x7208; // WH_RIGHT | 0x7000
pub const WH_RIGHT_X9: u16 = 0x8208; // WH_RIGHT | 0x8000
pub const WH_RIGHT_X10: u16 = 0x9208; // WH_RIGHT | 0x9000
pub const WH_RIGHT_X11: u16 = 0xA208; // WH_RIGHT | 0xA000
pub const WH_RIGHT_X12: u16 = 0xB208; // WH_RIGHT | 0xB000
pub const WH_RIGHT_X13: u16 = 0xC208; // WH_RIGHT | 0xC000
pub const WH_RIGHT_X14: u16 = 0xD208; // WH_RIGHT | 0xD000
pub const WH_RIGHT_X15: u16 = 0xE208; // WH_RIGHT | 0xE000
pub const WH_RIGHT_X16: u16 = 0xF208; // WH_RIGHT | 0xF000


/// Whether a code belongs to a mouse key (button or wheel).
pub open spec fn spec_is_mouse_key(code: u16) -> bool {
    code & 0x0200 != 0
}

/// Whether a code is a wheel key, its multiplier nibble ignored.
pub open spec fn spec_is_mouse_wheel(code: u16) -> bool {
    WH_UP <= code & 0x02FF <= WH_RIGHT
}

/// Whether a code is one of the five mouse buttons.
pub open spec fn spec_is_mouse_button(code: u16) -> bool {
    LBUTTON <= code <= XBUTTON2
}

/// Whether a code is an extended (`0xE0`-prefixed) key.
pub open spec fn spec_is_extended_key(code: u16) -> bool {
    code & 0xE000 == 0xE000
}

impl Key {
    /// The key with `bits` added to its code.
    pub fn or(self, bits: u16) -> (r: Key)
        ensures
            r.0 == self.0 | bits,
    {
        Key(self.0 | bits)
    }

    pub fn is_mouse_key(self) -> (r: bool)
        ensures
            r == spec_is_mouse_key(self.0),
    {
        self.0 & 0x0200 != 0
    }

    /// Wheel keys, including those that carry a multiplier.
    pub fn is_mouse_wheel(self) -> (r: bool)
        ensures
            r == spec_is_mouse_wheel(self.0),
    {
        let c = self.0 & 0x02FF;
        WH_UP <= c && c <= WH_RIGHT
    }

    pub fn is_mouse_button(self) -> (r: bool)
        ensures
            r == spec_is_mouse_button(self.0),
    {
        LBUTTON <= self.0 && self.0 <= XBUTTON2
    }

    pub fn is_extended_key(self) -> (r: bool)
        ensures
            r == spec_is_extended_key(self.0),
    {
        self.0 & 0xE000 == 0xE000
    }
}

} // verus!
