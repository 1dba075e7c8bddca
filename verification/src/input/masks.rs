use vstd::prelude::*;
use super::keys::{self, Key, spec_is_mouse_key};
use super::mods::{self, Mods};
use super::hotkey::KeyMods;

verus! {

/// The modifier bit of a modifier key; none for any other key.
pub open spec fn spec_get_mod(key: Key) -> Mods {
    if key.0 == keys::LCTRL {
        Mods(mods::LC)
    } else if key.0 == keys::LSHIFT {
        Mods(mods::LS)
    } else if key.0 == keys::LALT {
        Mods(mods::LA)
    } else if key.0 == keys::LWIN {
        Mods(mods::LW)
    } else if key.0 == keys::RCTRL {
        Mods(mods::RC)
    } else if key.0 == keys::RSHIFT {
        Mods(mods::RS)
    } else if key.0 == keys::RALT {
        Mods(mods::RA)
    } else if key.0 == keys::RWIN {
        Mods(mods::RW)
    } else {
        Mods(mods::NONE)
    }
}

/// The key of a single modifier bit.
pub open spec fn spec_mod_key(bit: u8) -> Key {
    if bit == mods::LC {
        Key(keys::LCTRL)
    } else if bit == mods::LS {
        Key(keys::LSHIFT)
    } else if bit == mods::LA {
        Key(keys::LALT)
    } else if bit == mods::LW {
        Key(keys::LWIN)
    } else if bit == mods::RC {
        Key(keys::RCTRL)
    } else if bit == mods::RS {
        Key(keys::RSHIFT)
    } else if bit == mods::RA {
        Key(keys::RALT)
    } else {
        Key(keys::RWIN)
    }
}

/// The highest bit set in a nibble (0 for 0).
pub open spec fn high_bit(n: u8) -> u8 {
    if n >= 8 {
        8
    } else if n >= 4 {
        4
    } else if n >= 2 {
        2
    } else {
        n
    }
}

/// The lowest bit set in a nibble (0 for 0).
pub open spec fn low_bit(n: u8) -> u8 {
    if n & 1 != 0 {
        1
    } else if n & 2 != 0 {
        2
    } else if n & 4 != 0 {
        4
    } else if n & 8 != 0 {
        8
    } else {
        0
    }
}

/// The most recently pressed modifier by convention: the highest modifier
/// of each hand, the right hand's winning a tie.
pub open spec fn spec_get_last_mod(m: Mods) -> Mods {
    let r = high_bit(m.0 >> 4u8);
    let l = high_bit(m.0 & 0xF);
    if m.0 == 0 {
        m
    } else if r >= l {
        Mods((r * 16) as u8)
    } else {
        Mods(l)
    }
}

/// A modifier of `m` outside `exclude`, with its key: the lowest modifier of
/// each hand, the left hand's winning a tie.
pub open spec fn spec_get_mod_except(exclude: Mods, m: Mods) -> Option<KeyMods> {
    let x = m.0 & !exclude.0;
    let l = low_bit(x & 0xF);
    let r = low_bit(x >> 4u8);
    if x == 0 {
        None
    } else if r == 0 || (l != 0 && l <= r) {
        Some(KeyMods { mods: Mods(l), key: spec_mod_key(l) })
    } else {
        Some(KeyMods { mods: Mods((r * 16) as u8), key: spec_mod_key((r * 16) as u8) })
    }
}

/// Both hands of every modifier that `m` holds on either hand.
pub open spec fn spec_project_mods(m: Mods) -> Mods {
    Mods((((m.0 >> 4u8) | (m.0 & 0xF)) * 0x11) as u8)
}

/// Whether the set holds the same modifiers on both hands.
pub open spec fn is_projected(m: Mods) -> bool {
    m.0 >> 4u8 == m.0 & 0xF
}

pub open spec fn spec_should_mask_last(last_mod: Mods, curr: Mods) -> bool {
    if last_mod.spec_has_any(Mods(mods::LA_RA)) {
        !curr.spec_has_any(Mods(mods::LCS_RCS))
    } else if last_mod.spec_has_any(Mods(mods::LW_RW)) {
        !curr.spec_has_any(Mods(mods::LCSA_RCSA))
    } else {
        false
    }
}

pub open spec fn spec_should_mask_projected(mods_up: Mods, curr: Mods) -> bool {
    (mods_up.0 == mods::LA_RA || mods_up.0 == mods::LW_RW) && curr.0 & !mods_up.0 == 0
}

/// The masking decision of a remap: the key that masks the release of Alt or
/// Win, whether it is pressed before and released after the modifier
/// changes, and the modifier sets to release and press in their place.
pub open spec fn spec_mask_remap(should_mask: bool, pr_mods: Mods, up: Mods, down: Mods)
    -> (Key, bool, bool, Mods, Mods)
{
    if should_mask {
        match spec_get_mod_except(pr_mods, down) {
            Some(mask) => (mask.key, true, false, up, Mods(down.0 & !mask.mods.0)),
            None => (Key(keys::LCTRL), true, true, up, down),
        }
    } else {
        match spec_get_mod_except(spec_project_mods(down), up) {
            Some(mask) => (mask.key, false, true, Mods(up.0 & !mask.mods.0), down),
            None => (Key(keys::NONE), false, false, up, down),
        }
    }
}

/// The key of a mask decision is a keyboard key whenever it is pressed or
/// released, and the modifier sets that come out are subsets of those that go in.
pub proof fn lemma_mask_remap_props(should_mask: bool, pr_mods: Mods, up: Mods, down: Mods)
    ensures
        ({
            let m = spec_mask_remap(should_mask, pr_mods, up, down);
            &&& (m.1 || m.2) ==> !spec_is_mouse_key(m.0.0)
            &&& m.3.0 & !up.0 == 0
            &&& m.4.0 & !down.0 == 0
        }),
{
    let m = spec_mask_remap(should_mask, pr_mods, up, down);
    let (a, b, c, d, e, f, g, h) = (0x001Du16, 0x002Au16, 0x0038u16, 0xE05Bu16, 0xE01Du16, 0x0036u16,
        0xE038u16, 0xE05Cu16);
    assert(a & 0x0200 == 0 && b & 0x0200 == 0 && c & 0x0200 == 0 && d & 0x0200 == 0 && e & 0x0200
        == 0 && f & 0x0200 == 0 && g & 0x0200 == 0 && h & 0x0200 == 0) by (bit_vector)
        requires
            a == 0x001D && b == 0x002A && c == 0x0038 && d == 0xE05B && e == 0xE01D && f == 0x0036 && g
                == 0xE038 && h == 0xE05C,
    ;
    let (u, dn) = (up.0, down.0);
    assert(forall|x: u8| #![auto] (u & !x) & !u == 0 && (dn & !x) & !dn == 0 && u & !u == 0 && dn & !dn == 0)
        by (bit_vector);
}

/// A modifier key is a keyboard key.
pub proof fn lemma_mod_key_keybd(key: Key)
    requires
        spec_get_mod(key).0 != 0,
    ensures
        !spec_is_mouse_key(key.0),
        !spec_is_mouse_key(keys::LCTRL),
{
    let c = keys::LCTRL;
    assert(c & 0x0200 == 0) by (bit_vector)
        requires
            c == 0x001D,
    ;
    let k = key.0;
    assert(k & 0x0200 == 0) by (bit_vector)
        requires
            k == 0x001D || k == 0x002A || k == 0x0038 || k == 0xE05B || k == 0xE01D || k == 0x0036 || k
                == 0xE038 || k == 0xE05C,
    ;
}

pub fn get_mod(key: Key) -> (r: Mods)
    ensures
        r == spec_get_mod(key),
{
    if key.0 == keys::LCTRL {
        Mods(mods::LC)
    } else if key.0 == keys::LSHIFT {
        Mods(mods::LS)
    } else if key.0 == keys::LALT {
        Mods(mods::LA)
    } else if key.0 == keys::LWIN {
        Mods(mods::LW)
    } else if key.0 == keys::RCTRL {
        Mods(mods::RC)
    } else if key.0 == keys::RSHIFT {
        Mods(mods::RS)
    } else if key.0 == keys::RALT {
        Mods(mods::RA)
    } else if key.0 == keys::RWIN {
        Mods(mods::RW)
    } else {
        Mods(mods::NONE)
    }
}

fn high_bit_of(n: u8) -> (r: u8)
    ensures
        r == high_bit(n),
{
    if n >= 8 {
        8
    } else if n >= 4 {
        4
    } else if n >= 2 {
        2
    } else {
        n
    }
}

fn low_bit_of(n: u8) -> (r: u8)
    ensures
        r == low_bit(n),
{
    if n & 1 != 0 {
        1
    } else if n & 2 != 0 {
        2
    } else if n & 4 != 0 {
        4
    } else if n & 8 != 0 {
        8
    } else {
        0
    }
}

fn mod_key(bit: u8) -> (r: Key)
    ensures
        r == spec_mod_key(bit),
{
    if bit == mods::LC {
        Key(keys::LCTRL)
    } else if bit == mods::LS {
        Key(keys::LSHIFT)
    } else if bit == mods::LA {
        Key(keys::LALT)
    } else if bit == mods::LW {
        Key(keys::LWIN)
    } else if bit == mods::RC {
        Key(keys::RCTRL)
    } else if bit == mods::RS {
        Key(keys::RSHIFT)
    } else if bit == mods::RA {
        Key(keys::RALT)
    } else {
        Key(keys::RWIN)
    }
}

pub fn get_last_mod(m: Mods) -> (r: Mods)
    ensures
        r == spec_get_last_mod(m),
{
    if m.is_none() {
        return m;
    }
    let x = m.0;
    assert(x >> 4u8 <= 15) by (bit_vector);
    let r = high_bit_of(x >> 4);
    let l = high_bit_of(x & 0xF);
    if r >= l {
        Mods(r * 16)
    } else {
        Mods(l)
    }
}

pub fn get_mod_except(exclude: Mods, m: Mods) -> (r: Option<KeyMods>)
    ensures
        r == spec_get_mod_except(exclude, m),
{
    let x = m.0 & !exclude.0;
    if x == 0 {
        return None;
    }
    assert(x >> 4u8 <= 15) by (bit_vector);
    let l = low_bit_of(x & 0xF);
    let r = low_bit_of(x >> 4);
    if r == 0 || (l != 0 && l <= r) {
        Some(KeyMods { mods: Mods(l), key: mod_key(l) })
    } else {
        Some(KeyMods { mods: Mods(r * 16), key: mod_key(r * 16) })
    }
}

pub fn project_mods(mod_bit: Mods) -> (r: Mods)
    ensures
        r == spec_project_mods(mod_bit),
        is_projected(r),
{
    let x = mod_bit.0;
    assert((x >> 4u8) | (x & 0xF) <= 15) by (bit_vector);
    let n = (x >> 4) | (x & 0xF);
    let p = n * 0x11;
    assert(p >> 4u8 == p & 0xF) by (bit_vector)
        requires
            n <= 15,
            p == n * 0x11,
    ;
    Mods(p)
}

pub fn should_mask_last(last_mod: Mods, curr_mods: Mods) -> (r: bool)
    ensures
        r == spec_should_mask_last(last_mod, curr_mods),
{
    if last_mod.has_any(Mods(mods::LA_RA)) {
        !curr_mods.has_any(Mods(mods::LCS_RCS))
    } else if last_mod.has_any(Mods(mods::LW_RW)) {
        !curr_mods.has_any(Mods(mods::LCSA_RCSA))
    } else {
        false
    }
}

pub fn should_mask_projected(mods_up: Mods, curr_mods: Mods) -> (r: bool)
    requires
        is_projected(mods_up),
    ensures
        r == spec_should_mask_projected(mods_up, curr_mods),
{
    (mods_up.0 == mods::LA_RA || mods_up.0 == mods::LW_RW) && curr_mods.0 & !mods_up.0 == 0
}

//    (k|m) -> (k|m)
// (W, k|m) -> (k|m):    entry needs mask
// (W, k|m) -> (C, k|m): entry needs mask + remap has it
// (W, k|m) -> (A, k|m): entry and remap need mask
//
//    (k|m) -> (W, k|m): remap needs mask
// (C, k|m) -> (W, k|m): remap needs mask + entry has it
// (A, k|m) -> (W, k|m): entry and remap need mask
pub fn mask_remap(should_mask: bool, pr_mods: Mods, mods_up: &mut Mods, mods_down: &mut Mods) -> (r: (
    Key,
    bool,
    bool,
))
    ensures
        ({
            let s = spec_mask_remap(should_mask, pr_mods, *old(mods_up), *old(mods_down));
            &&& r == (s.0, s.1, s.2)
            &&& *final(mods_up) == s.3
            &&& *final(mods_down) == s.4
        }),
{
    if should_mask {
        if let Some(mask) = get_mod_except(pr_mods, *mods_down) {
            *mods_down = Mods(mods_down.0 & !mask.mods.0);
            (mask.key, true, false)
        } else {
            (Key(keys::LCTRL), true, true)
        }
    } else {
        if let Some(mask) = get_mod_except(project_mods(*mods_down), *mods_up) {
            *mods_up = Mods(mods_up.0 & !mask.mods.0);
            (mask.key, false, true)
        } else {
            (Key(keys::NONE), false, false)
        }
    }
}

/// Masking when a remap starts: releasing the entry's modifiers.
pub fn mask_remap_start(mods_up: &mut Mods, mods_down: &mut Mods, entry: KeyMods) -> (r: (Key, bool, bool))
    ensures
        ({
            let pr = spec_project_mods(*old(mods_up));
            let s = spec_mask_remap(
                spec_should_mask_projected(pr, entry.mods),
                pr,
                *old(mods_up),
                *old(mods_down),
            );
            &&& r == (s.0, s.1, s.2)
            &&& *final(mods_up) == s.3
            &&& *final(mods_down) == s.4
        }),
{
    let pr = project_mods(*mods_up);
    let should = should_mask_projected(pr, entry.mods);
    mask_remap(should, pr, mods_up, mods_down)
}

/// Masking when a remap ends: releasing the remap's modifiers; only a remap
/// to a mouse key needs it.
pub fn mask_remap_end(mods_up: &mut Mods, mods_down: &mut Mods, remap: KeyMods) -> (r: (Key, bool, bool))
    ensures
        ({
            let pr = spec_project_mods(*old(mods_up));
            let s = spec_mask_remap(
                spec_is_mouse_key(remap.key.0) && spec_should_mask_projected(pr, remap.mods),
                pr,
                *old(mods_up),
                *old(mods_down),
            );
            &&& r == (s.0, s.1, s.2)
            &&& *final(mods_up) == s.3
            &&& *final(mods_down) == s.4
        }),
{
    let pr = project_mods(*mods_up);
    let should = remap.key.is_mouse_key() && should_mask_projected(pr, remap.mods);
    mask_remap(should, pr, mods_up, mods_down)
}

} // verus!

verus! {

/// The last modifier of a set is none only for the empty set, and otherwise
/// one single modifier of the set.
pub proof fn law_last_mod_of_set(m: Mods)
    ensures
        spec_get_last_mod(m).0 == 0 <==> m.0 == 0,
        m.0 != 0 ==> mods::single_bit(spec_get_last_mod(m).0) && m.0 & spec_get_last_mod(m).0 != 0,
{
    let x = m.0;
    assert(x != 0 ==> ((high_bit(x >> 4u8) >= high_bit(x & 0xF) ==> (high_bit(x >> 4u8) * 16) as u8 != 0 && x
        & (high_bit(x >> 4u8) * 16) as u8 != 0)) && (high_bit(x >> 4u8) < high_bit(x & 0xF) ==> x & high_bit(
        x & 0xF,
    ) != 0)) by (bit_vector);
    assert(high_bit(x >> 4u8) == 0 || high_bit(x >> 4u8) == 1 || high_bit(x >> 4u8) == 2 || high_bit(x >> 4u8)
        == 4 || high_bit(x >> 4u8) == 8) by (bit_vector);
    assert(high_bit(x & 0xF) == 0 || high_bit(x & 0xF) == 1 || high_bit(x & 0xF) == 2 || high_bit(x & 0xF) == 4
        || high_bit(x & 0xF) == 8) by (bit_vector);
}

/// A projected set holds the same modifiers on both hands: every modifier of
/// the set, on either hand, on both.
pub proof fn law_project_both_hands(m: Mods)
    ensures
        is_projected(spec_project_mods(m)),
        m.0 & !spec_project_mods(m).0 == 0,
{
    let x = m.0;
    assert(((((x >> 4u8) | (x & 0xF)) * 0x11) as u8) >> 4u8 == ((((x >> 4u8) | (x & 0xF)) * 0x11) as u8) & 0xF
        && x & !((((x >> 4u8) | (x & 0xF)) * 0x11) as u8) == 0) by (bit_vector);
}

} // verus!
