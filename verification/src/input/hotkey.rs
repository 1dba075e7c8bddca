use vstd::prelude::*;
use super::keys::{self, Key, spec_is_mouse_key, spec_is_mouse_wheel, spec_is_mouse_button};
use super::mods::Mods;
use super::extensions::sendable;
use super::input_builder::units_paired;
use vstd::string::StrSliceExecFns;

verus! {

/// A key together with the modifiers held with it.
#[derive(Clone, Copy, PartialEq, Eq, Structural, Hash, Debug)]
pub struct KeyMods {
    pub mods: Mods,
    pub key: Key,
}

impl KeyMods {
    pub fn new(mods: Mods, key: Key) -> (r: Self)
        ensures
            r == (KeyMods { mods, key }),
    {
        KeyMods { mods, key }
    }
}

/// What a hotkey does while its key is down: `A` is an action that learns
/// when the key is released, `R` an action that is repeated with the key's
/// auto-repeat.
#[derive(Clone, Copy, Debug)]
pub enum Hotkey<A, R> {
    /// Let the key through.
    Default,
    /// Swallow the key until it is released.
    Suppress,
    /// Swallow the key once; a second press goes through.
    SuppressOnce,
    /// Send another key with other modifiers in its place.
    Remap(Mods, Key),
    /// Type a text in its place.
    Unicode(&'static str),
    /// Run an action on another thread.
    Action(A),
    /// Run an action on another thread, again on every auto-repeat.
    ActionRepeat(R),
}

/// The UTF-16 code units of a character.
pub open spec fn utf16_units(c: char) -> Seq<u16> {
    let v = c as int;
    if v < 0x10000 {
        seq![v as u16]
    } else {
        seq![(0xD800 + (v - 0x10000) / 0x400) as u16, (0xDC00 + (v - 0x10000) % 0x400) as u16]
    }
}

/// The UTF-16 encoding of a text.
pub open spec fn utf16_encode(s: Seq<char>) -> Seq<u16>
    decreases s.len(),
{
    if s.len() == 0 {
        Seq::empty()
    } else {
        utf16_units(s[0]) + utf16_encode(s.skip(1))
    }
}

/// The UTF-16 encoding of a text.
pub(crate) fn encode_utf16(s: &str) -> (r: Vec<u16>)
    ensures
        r@ == utf16_encode(s@),
{
    let n = s.unicode_len();
    let mut v: Vec<u16> = Vec::new();
    let mut i: usize = 0;
    assert(s@.skip(0) =~= s@);
    while i < n
        invariant
            n == s@.len(),
            i <= n,
            v@ + utf16_encode(s@.skip(i as int)) == utf16_encode(s@),
        decreases n - i,
    {
        let c = s.get_char(i);
        let x = c as u32;
        let ghost rest = s@.skip(i as int);
        assert(rest[0] == c);
        assert(rest.skip(1) =~= s@.skip(i + 1));
        let ghost v0 = v@;
        if x < 0x10000 {
            v.push(x as u16);
        } else {
            let y = x - 0x10000;
            v.push((0xD800 + y / 0x400) as u16);
            v.push((0xDC00 + y % 0x400) as u16);
        }
        assert(v@ =~= v0 + utf16_units(c));
        i = i + 1;
    }
    assert(s@.skip(n as int) =~= Seq::<char>::empty());
    assert(v@ + Seq::<u16>::empty() =~= v@);
    v
}

/// Whether a key can be the target of a remap: it can be pressed, and, but
/// for a wheel, released.
pub open spec fn remap_key_ok(k: Key) -> bool {
    sendable(k) && (spec_is_mouse_key(k.0) && !spec_is_mouse_wheel(k.0) ==> spec_is_mouse_button(k.0))
}

/// Whether the remapper can carry out a hotkey: a remap to a key that it can
/// send, or a text whose UTF-16 units it can type.
pub open spec fn hotkey_ok<A, R>(h: Hotkey<A, R>) -> bool {
    match h {
        Hotkey::Remap(_, k) => remap_key_ok(k),
        Hotkey::Unicode(s) => units_paired(utf16_encode(s@)),
        _ => true,
    }
}

/// Whether every unit from `0xD800` up in `units` starts a pair.
pub fn paired(units: &Vec<u16>) -> (r: bool)
    ensures
        r == units_paired(units@),
{
    let n = units.len();
    let mut i: usize = 0;
    assert(units@.skip(0) =~= units@);
    while i < n
        invariant
            n == units@.len(),
            i <= n,
            units_paired(units@) == units_paired(units@.skip(i as int)),
        decreases n - i,
    {
        let ghost rest = units@.skip(i as int);
        if units[i] < 0xD800 {
            assert(rest.skip(1) =~= units@.skip(i + 1));
            i = i + 1;
        } else if i + 1 < n {
            assert(rest.skip(2) =~= units@.skip(i + 2));
            i = i + 2;
        } else {
            return false;
        }
    }
    true
}

impl<A, R> Hotkey<A, R> {
    pub fn ok<E>(self) -> (r: Result<Self, E>)
        ensures
            r == Ok::<Self, E>(self),
    {
        Ok(self)
    }

    /// Whether the remapper can carry out the hotkey (see [`hotkey_ok`]).
    pub fn is_sendable(&self) -> (r: bool)
        ensures
            r == hotkey_ok(*self),
    {
        match self {
            Hotkey::Remap(_, k) => {
                let k = *k;
                let mouse = k.is_mouse_key();
                if mouse && !(keys::LBUTTON <= (k.0 & 0x02FF) && (k.0 & 0x02FF) <= keys::WH_RIGHT) {
                    false
                } else {
                    !(mouse && !k.is_mouse_wheel() && !k.is_mouse_button())
                }
            },
            Hotkey::Unicode(s) => {
                let units = encode_utf16(s);
                paired(&units)
            },
            _ => true,
        }
    }
}

} // verus!
