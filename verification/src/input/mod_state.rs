use vstd::prelude::*;
use super::keys::{self, Key, spec_is_mouse_key, spec_is_mouse_wheel};
use super::mods::{self, Mods};
use super::masks::{spec_get_mod, spec_mod_key, spec_get_mod_except, spec_project_mods, spec_should_mask_projected,
    spec_mask_remap, low_bit};
use super::extensions::{Input, scan_flags};
use super::input_builder::{opt, key_input, mod_input, mods_inputs, mark_end};
use super::constants::{KEYEVENTF_KEYUP, KEYEVENTF_UNICODE, KEYEVENTF_SCANCODE, KEYEVENTF_EXTENDEDKEY};
use super::hotkey::KeyMods;
use super::handler_spec::{mask_seg, start_mask, end_mask, wheel_remap_batch, remap_start_batch, remap_end_batch};

verus! {

/// The modifiers held after an input: the press of a modifier key adds its
/// bit, its release takes it away; other inputs change nothing.
pub open spec fn input_mods(held: u8, i: Input) -> u8 {
    match i {
        Input::Keybd { scan, flags, .. } => if flags & KEYEVENTF_UNICODE != 0 {
            held
        } else if flags & KEYEVENTF_KEYUP != 0 {
            held & !spec_get_mod(Key(scan)).0
        } else {
            held | spec_get_mod(Key(scan)).0
        },
        Input::Mouse { .. } => held,
    }
}

/// The modifiers held after a sequence of inputs.
pub open spec fn mods_after(held: u8, s: Seq<Input>) -> u8
    decreases s.len(),
{
    if s.len() == 0 {
        held
    } else {
        mods_after(input_mods(held, s[0]), s.skip(1))
    }
}

proof fn lemma_after_concat(h: u8, a: Seq<Input>, b: Seq<Input>)
    ensures
        mods_after(h, a + b) == mods_after(mods_after(h, a), b),
    decreases a.len(),
{
    if a.len() == 0 {
        assert(a + b =~= b);
    } else {
        assert((a + b)[0] == a[0]);
        assert((a + b).skip(1) =~= a.skip(1) + b);
        lemma_after_concat(input_mods(h, a[0]), a.skip(1), b);
    }
}

proof fn lemma_after_one(h: u8, i: Input)
    ensures
        mods_after(h, seq![i]) == input_mods(h, i),
{
    assert(seq![i].skip(1) =~= Seq::<Input>::empty());
    assert(mods_after(input_mods(h, i), Seq::<Input>::empty()) == input_mods(h, i));
}

proof fn lemma_after_opt(h: u8, b: bool, i: Input)
    ensures
        mods_after(h, opt(b, i)) == if b {
            input_mods(h, i)
        } else {
            h
        },
{
    if b {
        lemma_after_one(h, i);
    }
}

proof fn lemma_after_mark_end(h: u8, s: Seq<Input>)
    requires
        s.len() > 0,
    ensures
        mods_after(h, mark_end(s)) == mods_after(h, s),
{
    let last = s.len() - 1;
    let p = s.take(last);
    assert(s =~= p + seq![s[last]]);
    assert(mark_end(s) =~= p + seq![mark_end(s)[last]]);
    lemma_after_concat(h, p, seq![s[last]]);
    lemma_after_concat(h, p, seq![mark_end(s)[last]]);
    lemma_after_one(mods_after(h, p), s[last]);
    lemma_after_one(mods_after(h, p), mark_end(s)[last]);
}

/// The modifier bit of a mouse key is none.
proof fn lemma_mouse_no_mod(k: Key)
    requires
        spec_is_mouse_key(k.0),
    ensures
        spec_get_mod(k).0 == 0,
{
    let c = k.0;
    assert(c & 0x0200 != 0 ==> c != 0x001D && c != 0x002A && c != 0x0038 && c != 0xE05B && c != 0xE01D && c
        != 0x0036 && c != 0xE038 && c != 0xE05C) by (bit_vector);
}

proof fn lemma_key_input(h: u8, k: Key, up: bool, e: usize)
    ensures
        mods_after(h, seq![key_input(k, up, e)]) == if up {
            h & !spec_get_mod(k).0
        } else {
            h | spec_get_mod(k).0
        },
{
    lemma_after_one(h, key_input(k, up, e));
    let g = spec_get_mod(k).0;
    let f = scan_flags(k, up);
    let ex = super::keys::spec_is_extended_key(k.0);
    assert(h & !0u8 == h && h | 0u8 == h && (f == (if ex {
        (if up { 8u32 | 2u32 } else { 8u32 }) | 1u32
    } else {
        if up { 8u32 | 2u32 } else { 8u32 }
    }) ==> (f & 4 == 0 && ((f & 2 != 0) == up)))) by (bit_vector);
    if spec_is_mouse_key(k.0) {
        lemma_mouse_no_mod(k);
    } else {
        assert(f == if ex {
            (if up { 8u32 | 2u32 } else { 8u32 }) | 1u32
        } else {
            if up { 8u32 | 2u32 } else { 8u32 }
        });
    }
}

proof fn lemma_mod_input(h: u8, m: Mods, mask: u8, code: u16, ext: bool, pressed: bool)
    requires
        mods::single_bit(mask),
        spec_get_mod(Key(code)).0 == mask,
    ensures
        mods_after(h, mod_input(m, mask, code, ext, pressed)) == if pressed {
            h | (m.0 & mask)
        } else {
            h & !(m.0 & mask)
        },
{
    reveal(mod_input);
    let f = if pressed { KEYEVENTF_SCANCODE } else { KEYEVENTF_SCANCODE | KEYEVENTF_KEYUP };
    let flags = if ext { f | KEYEVENTF_EXTENDEDKEY } else { f };
    let x = m.0;
    assert((mods::single_bit(mask) ==> ((x & mask == mask ==> (h | mask == h | (x & mask) && h & !mask == h & !(x
        & mask))) && (x & mask != mask ==> (h == h | (x & mask) && h == h & !(x & mask))))) && (flags == (if ext {
        (if pressed { 8u32 } else { 8u32 | 2u32 }) | 1u32
    } else {
        if pressed { 8u32 } else { 8u32 | 2u32 }
    }) ==> (flags & 4 == 0 && ((flags & 2 != 0) == !pressed)))) by (bit_vector);
    assert(flags == if ext {
        (if pressed { 8u32 } else { 8u32 | 2u32 }) | 1u32
    } else {
        if pressed { 8u32 } else { 8u32 | 2u32 }
    });
    lemma_after_opt(h, x & mask == mask, Input::Keybd { scan: code, flags, extra: super::constants::CALL_NEXT });
}

/// Pressing a set of modifiers adds them; releasing it takes them away.
pub proof fn lemma_mods_inputs(h: u8, m: Mods, pressed: bool)
    ensures
        mods_after(h, mods_inputs(m, pressed)) == if pressed {
            h | m.0
        } else {
            h & !m.0
        },
{
    let lc = mod_input(m, mods::LC, keys::LCTRL, false, pressed);
    let rc = mod_input(m, mods::RC, keys::RCTRL, true, pressed);
    let ls = mod_input(m, mods::LS, keys::LSHIFT, false, pressed);
    let rs = mod_input(m, mods::RS, keys::RSHIFT, false, pressed);
    let la = mod_input(m, mods::LA, keys::LALT, false, pressed);
    let ra = mod_input(m, mods::RA, keys::RALT, true, pressed);
    let lw = mod_input(m, mods::LW, keys::LWIN, true, pressed);
    let rw = mod_input(m, mods::RW, keys::RWIN, true, pressed);
    let x = m.0;
    assert((((((((h | (x & 1)) | (x & 16)) | (x & 2)) | (x & 32)) | (x & 4)) | (x & 64)) | (x & 8)) | (x & 128)
        == h | x && (((((((h & !(x & 128)) & !(x & 8)) & !(x & 64)) & !(x & 4)) & !(x & 32)) & !(x & 2)) & !(x & 16))
        & !(x & 1) == h & !x) by (bit_vector);
    if pressed {
        let h1 = mods_after(h, lc);
        let h2 = mods_after(h1, rc);
        let h3 = mods_after(h2, ls);
        let h4 = mods_after(h3, rs);
        let h5 = mods_after(h4, la);
        let h6 = mods_after(h5, ra);
        let h7 = mods_after(h6, lw);
        lemma_mod_input(h, m, mods::LC, keys::LCTRL, false, pressed);
        lemma_mod_input(h1, m, mods::RC, keys::RCTRL, true, pressed);
        lemma_mod_input(h2, m, mods::LS, keys::LSHIFT, false, pressed);
        lemma_mod_input(h3, m, mods::RS, keys::RSHIFT, false, pressed);
        lemma_mod_input(h4, m, mods::LA, keys::LALT, false, pressed);
        lemma_mod_input(h5, m, mods::RA, keys::RALT, true, pressed);
        lemma_mod_input(h6, m, mods::LW, keys::LWIN, true, pressed);
        lemma_mod_input(h7, m, mods::RW, keys::RWIN, true, pressed);
        lemma_after_concat(h, lc, rc);
        lemma_after_concat(h, lc + rc, ls);
        lemma_after_concat(h, lc + rc + ls, rs);
        lemma_after_concat(h, lc + rc + ls + rs, la);
        lemma_after_concat(h, lc + rc + ls + rs + la, ra);
        lemma_after_concat(h, lc + rc + ls + rs + la + ra, lw);
        lemma_after_concat(h, lc + rc + ls + rs + la + ra + lw, rw);
    } else {
        let h1 = mods_after(h, rw);
        let h2 = mods_after(h1, lw);
        let h3 = mods_after(h2, ra);
        let h4 = mods_after(h3, la);
        let h5 = mods_after(h4, rs);
        let h6 = mods_after(h5, ls);
        let h7 = mods_after(h6, rc);
        lemma_mod_input(h, m, mods::RW, keys::RWIN, true, pressed);
        lemma_mod_input(h1, m, mods::LW, keys::LWIN, true, pressed);
        lemma_mod_input(h2, m, mods::RA, keys::RALT, true, pressed);
        lemma_mod_input(h3, m, mods::LA, keys::LALT, false, pressed);
        lemma_mod_input(h4, m, mods::RS, keys::RSHIFT, false, pressed);
        lemma_mod_input(h5, m, mods::LS, keys::LSHIFT, false, pressed);
        lemma_mod_input(h6, m, mods::RC, keys::RCTRL, true, pressed);
        lemma_mod_input(h7, m, mods::LC, keys::LCTRL, false, pressed);
        lemma_after_concat(h, rw, lw);
        lemma_after_concat(h, rw + lw, ra);
        lemma_after_concat(h, rw + lw + ra, la);
        lemma_after_concat(h, rw + lw + ra + la, rs);
        lemma_after_concat(h, rw + lw + ra + la + rs, ls);
        lemma_after_concat(h, rw + lw + ra + la + rs + ls, rc);
        lemma_after_concat(h, rw + lw + ra + la + rs + ls + rc, lc);
    }
}

/// The modifiers after the inputs of a mask decision.
pub open spec fn seg_effect(h: u8, m: (Key, bool, bool, Mods, Mods)) -> u8 {
    let g = spec_get_mod(m.0).0;
    let h1 = if m.1 { h | g } else { h };
    let h2 = (h1 & !m.3.0) | m.4.0;
    if m.2 { h2 & !g } else { h2 }
}

proof fn lemma_mask_seg(h: u8, m: (Key, bool, bool, Mods, Mods))
    ensures
        mods_after(h, mask_seg(m)) == seg_effect(h, m),
{
    let a = opt(m.1, key_input(m.0, false, super::constants::CALL_NEXT));
    let b = mods_inputs(m.3, false);
    let c = mods_inputs(m.4, true);
    let d = opt(m.2, key_input(m.0, true, super::constants::CALL_NEXT));
    lemma_after_concat(h, a, b);
    lemma_after_concat(h, a + b, c);
    lemma_after_concat(h, a + b + c, d);
    lemma_after_opt(h, m.1, key_input(m.0, false, super::constants::CALL_NEXT));
    lemma_key_input(h, m.0, false, super::constants::CALL_NEXT);
    lemma_after_one(h, key_input(m.0, false, super::constants::CALL_NEXT));
    let h1 = mods_after(h, a);
    lemma_mods_inputs(h1, m.3, false);
    let h2 = mods_after(h1, b);
    lemma_mods_inputs(h2, m.4, true);
    let h3 = mods_after(h2, c);
    lemma_after_opt(h3, m.2, key_input(m.0, true, super::constants::CALL_NEXT));
    lemma_key_input(h3, m.0, true, super::constants::CALL_NEXT);
    lemma_after_one(h3, key_input(m.0, true, super::constants::CALL_NEXT));
}

/// What a modifier picked by [`spec_get_mod_except`] is: one modifier of
/// `m` outside `exclude`, whose key has that modifier bit.
proof fn lemma_mod_except(exclude: Mods, m: Mods)
    ensures
        match spec_get_mod_except(exclude, m) {
            Some(km) => mods::single_bit(km.mods.0) && km.mods.0 & !(m.0 & !exclude.0) == 0 && spec_get_mod(
                km.key,
            ) == km.mods,
            None => m.0 & !exclude.0 == 0,
        },
{
    let x = m.0 & !exclude.0;
    assert((x != 0 ==> (low_bit(x >> 4u8) == 0 || (low_bit(x & 0xF) != 0 && low_bit(x & 0xF) <= low_bit(x >> 4u8)))
        ==> (mods::single_bit(low_bit(x & 0xF)) && low_bit(x & 0xF) & !x == 0)) && (x != 0 ==> !(low_bit(x >> 4u8)
        == 0 || (low_bit(x & 0xF) != 0 && low_bit(x & 0xF) <= low_bit(x >> 4u8))) ==> (mods::single_bit(
        (low_bit(x >> 4u8) * 16) as u8,
    ) && ((low_bit(x >> 4u8) * 16) as u8) & !x == 0))) by (bit_vector);
}

proof fn lemma_mask_bits(h: u8, u: u8, d: u8, p: u8, b: u8, q: u8)
    by (bit_vector)
    ensures
        b & !(d & !p) == 0 && u & !p == 0 ==> ((h | b) & !u) | (d & !b) == (h & !u) | d,
        d & !p == 0 && (p == 0x44 || p == 0x88) && h & 1 == 0 ==> (((h | 1) & !u) | d) & !1u8 == (h & !u) | d,
        b & !(u & !q) == 0 && d & !q == 0 ==> ((h & !(u & !b)) | d) & !b == (h & !u) | d,
{
}

/// A masked remap step changes the modifiers as releasing `up` and pressing
/// `down` would.
proof fn lemma_mask_effect(h: u8, should: bool, pr: Mods, up: Mods, down: Mods)
    requires
        up.0 & !pr.0 == 0,
        up.0 & down.0 == 0,
        down.0 & !spec_project_mods(down).0 == 0,
        should ==> (pr.0 == mods::LA_RA || pr.0 == mods::LW_RW),
        should ==> h & mods::LC == 0,
    ensures
        seg_effect(h, spec_mask_remap(should, pr, up, down)) == (h & !up.0) | down.0,
{
    let (u, d, p) = (up.0, down.0, pr.0);
    if should {
        lemma_mod_except(pr, down);
        match spec_get_mod_except(pr, down) {
            Some(km) => {
                lemma_mask_bits(h, u, d, p, km.mods.0, 0);
            },
            None => {
                lemma_mask_bits(h, u, d, p, 0, 0);
                assert(spec_get_mod(Key(keys::LCTRL)).0 == 1);
            },
        }
    } else {
        let pd = spec_project_mods(down);
        lemma_mod_except(pd, up);
        match spec_get_mod_except(pd, up) {
            Some(km) => {
                lemma_mask_bits(h, u, d, p, km.mods.0, pd.0);
            },
            None => {},
        }
    }
}

/// A set lies within its projection.
proof fn lemma_within_projection(m: Mods)
    ensures
        m.0 & !spec_project_mods(m).0 == 0,
{
    let x = m.0;
    assert(x & !((((x >> 4u8) | (x & 0xF)) * 0x11) as u8) == 0) by (bit_vector);
}

proof fn lemma_swap_bits(x: u8, y: u8, z: u8, q1: u8, q2: u8, c: u16, s2: u8)
    by (bit_vector)
    ensures
        (x & !(y | z)) & (y & !x) == 0,
        (y & !x) & (x & !(y | z)) == 0,
        ((q1 == 0x44 || q1 == 0x88) && x & !q1 == 0) ==> x & 1 == 0,
        0x0200 <= c & 0x02FF ==> c & 0x0200 != 0,
        s2 & !0u8 == s2,
        ((q2 == 0x44 || q2 == 0x88) && y & !q2 == 0 && z == 0) ==> ((((x & !(x & !(y | z))) | (y & !x)) | z) & !z)
            & 1 == 0,
        z & x == 0 ==> ((((((x & !(x & !(y | z))) | (y & !x)) | z) & !z) & !(y & !x)) | (x & !(y | z))) == x,
{
}

/// A remap on a wheel notch sends one batch that leaves the modifiers held
/// as they were, unless the remapped key is itself one of the entry's
/// modifiers.
pub proof fn law_wheel_remap_keeps_mods(e: KeyMods, r: KeyMods)
    requires
        spec_get_mod(r.key).0 & e.mods.0 == 0,
    ensures
        mods_after(e.mods.0, mark_end(wheel_remap_batch(e, r))) == e.mods.0,
{
    let (x, y, z) = (e.mods.0, r.mods.0, spec_get_mod(r.key).0);
    let up1 = Mods(x & !(y | z));
    let down1 = Mods(y & !x);
    let rel2 = Mods(y & !x);
    let rest2 = Mods(x & !(y | z));
    let ms = start_mask(e, r);
    let me = end_mask(r, rel2, rest2);
    let k1 = seq![key_input(r.key, false, super::constants::CALL_NEXT)];
    let k2 = opt(!spec_is_mouse_wheel(r.key.0), key_input(r.key, true, super::constants::CALL_NEXT));
    let b = wheel_remap_batch(e, r);
    assert(b =~= mask_seg(ms) + k1 + k2 + mask_seg(me));
    assert(b.len() > 0) by {
        assert(k1.len() == 1);
    }
    lemma_after_mark_end(x, b);
    let p1 = spec_project_mods(up1);
    let q1 = p1.0;
    let p2 = spec_project_mods(rel2);
    let q2 = p2.0;
    let s1 = (x & !up1.0) | down1.0;
    let s2 = s1 | z;
    let s3 = s2 & !z;
    lemma_swap_bits(x, y, z, q1, q2, r.key.0, s2);
    // the start swaps the entry's modifiers for the remap's
    lemma_within_projection(up1);
    lemma_within_projection(down1);
    let sh1 = spec_should_mask_projected(p1, e.mods);
    assert(sh1 ==> ((q1 == 0x44 || q1 == 0x88) && x & !q1 == 0));
    lemma_mask_seg(x, ms);
    lemma_mask_effect(x, sh1, p1, up1, down1);
    // the remapped key goes down, and up again but for a wheel
    lemma_after_concat(x, mask_seg(ms), k1);
    lemma_key_input(s1, r.key, false, super::constants::CALL_NEXT);
    lemma_after_concat(x, mask_seg(ms) + k1, k2);
    lemma_after_opt(s2, !spec_is_mouse_wheel(r.key.0), key_input(r.key, true, super::constants::CALL_NEXT));
    lemma_key_input(s2, r.key, true, super::constants::CALL_NEXT);
    lemma_after_one(s2, key_input(r.key, true, super::constants::CALL_NEXT));
    if spec_is_mouse_wheel(r.key.0) {
        assert(keys::WH_UP <= r.key.0 & 0x02FF);
        lemma_mouse_no_mod(r.key);
    }
    assert(mods_after(x, mask_seg(ms) + k1 + k2) == s3);
    // the end swaps them back
    lemma_within_projection(rel2);
    lemma_within_projection(rest2);
    let should2 = spec_is_mouse_key(r.key.0) && spec_should_mask_projected(p2, r.mods);
    if should2 {
        lemma_mouse_no_mod(r.key);
    }
    assert(should2 ==> ((q2 == 0x44 || q2 == 0x88) && y & !q2 == 0 && z == 0));
    assert(s3 == ((((x & !(x & !(y | z))) | (y & !x)) | z) & !z));
    lemma_after_concat(x, mask_seg(ms) + k1 + k2, mask_seg(me));
    lemma_mask_seg(s3, me);
    lemma_mask_effect(s3, should2, p2, rel2, rest2);
}

/// When the start of a remap lets go of Alt or Win alone (the entry's
/// modifiers are all on the pair that goes up), a modifier key outside that
/// pair is pressed before the release, so the system sees no lone Alt or
/// Win tap; that key is released again afterwards unless it is one of the
/// remap's own modifiers, which stay held.
pub proof fn law_alt_win_release_masked(e: KeyMods, r: KeyMods)
    ensures
        ({
            let rel0 = Mods(e.mods.0 & !(r.mods.0 | spec_get_mod(r.key).0));
            let pr = spec_project_mods(rel0);
            let m = start_mask(e, r);
            spec_should_mask_projected(pr, e.mods) ==> {
                &&& m.1
                &&& mods::single_bit(spec_get_mod(m.0).0)
                &&& spec_get_mod(m.0).0 & pr.0 == 0
                &&& (m.2 || spec_get_mod(m.0).0 & r.mods.0 != 0)
            }
        }),
{
    let rel0 = Mods(e.mods.0 & !(r.mods.0 | spec_get_mod(r.key).0));
    let down = Mods(r.mods.0 & !e.mods.0);
    let pr = spec_project_mods(rel0);
    lemma_mod_except(pr, down);
    let p = pr.0;
    let (x, y) = (e.mods.0, r.mods.0);
    match spec_get_mod_except(pr, down) {
        Some(km) => {
            let b = km.mods.0;
            assert(b & !((y & !x) & !p) == 0 ==> b & p == 0 && b & y == b) by (bit_vector);
        },
        None => {
            assert(spec_get_mod(Key(keys::LCTRL)).0 == 1);
            assert(p == 0x44 || p == 0x88 ==> 1u8 & p == 0) by (bit_vector);
        },
    }
}

} // verus!
