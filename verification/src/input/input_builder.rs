use vstd::prelude::*;
use super::keys::{self, Key, spec_is_mouse_key, spec_is_mouse_button};
use super::mods::{self, Mods, popcount, bit};
use super::extensions::{Input, sendable, spec_keybd_down, spec_keybd_up, spec_mouse_down, spec_mouse_up};
use super::hotkey::{utf16_encode, encode_utf16};
use super::constants::{CALL_NEXT, CALL_NEXT_END, KEYEVENTF_SCANCODE, KEYEVENTF_EXTENDEDKEY, KEYEVENTF_KEYUP,
    KEYEVENTF_UNICODE};

verus! {

/// `seq![i]` when `b` holds, else nothing.
pub open spec fn opt(b: bool, i: Input) -> Seq<Input> {
    if b {
        seq![i]
    } else {
        Seq::empty()
    }
}

/// The press (or release) of a key, tagged with `extra`: a mouse input for a
/// mouse key, a scan-code input for any other.
pub open spec fn key_input(key: Key, up: bool, extra: usize) -> Input {
    if spec_is_mouse_key(key.0) {
        if up {
            spec_mouse_up(key, extra)
        } else {
            spec_mouse_down(key, extra)
        }
    } else if up {
        spec_keybd_up(key, extra)
    } else {
        spec_keybd_down(key, extra)
    }
}

/// Whether a key may be released by an input: keyboard keys and mouse buttons.
pub open spec fn releasable(key: Key) -> bool {
    sendable(key) && (spec_is_mouse_key(key.0) ==> spec_is_mouse_button(key.0))
}

/// The input for the modifier key of bit `mask`, if `m` holds it.
#[verifier::opaque]
pub open spec fn mod_input(m: Mods, mask: u8, code: u16, ext: bool, pressed: bool) -> Seq<Input> {
    let f = if pressed { KEYEVENTF_SCANCODE } else { KEYEVENTF_SCANCODE | KEYEVENTF_KEYUP };
    let flags = if ext { f | KEYEVENTF_EXTENDEDKEY } else { f };
    opt(m.0 & mask == mask, Input::Keybd { scan: code, flags, extra: CALL_NEXT })
}

/// Presses of the modifiers of `m` in the order LCtrl, RCtrl, LShift, RShift,
/// LAlt, RAlt, LWin, RWin; releases in the reverse order.
pub open spec fn mods_inputs(m: Mods, pressed: bool) -> Seq<Input> {
    let lc = mod_input(m, mods::LC, keys::LCTRL, false, pressed);
    let rc = mod_input(m, mods::RC, keys::RCTRL, true, pressed);
    let ls = mod_input(m, mods::LS, keys::LSHIFT, false, pressed);
    let rs = mod_input(m, mods::RS, keys::RSHIFT, false, pressed);
    let la = mod_input(m, mods::LA, keys::LALT, false, pressed);
    let ra = mod_input(m, mods::RA, keys::RALT, true, pressed);
    let lw = mod_input(m, mods::LW, keys::LWIN, true, pressed);
    let rw = mod_input(m, mods::RW, keys::RWIN, true, pressed);
    if pressed {
        lc + rc + ls + rs + la + ra + lw + rw
    } else {
        rw + lw + ra + la + rs + ls + rc + lc
    }
}

/// The releases of `m`, wrapped in a press and a release of LCtrl when `mask` holds.
pub open spec fn masked_release(m: Mods, mask: bool) -> Seq<Input> {
    if mask && m.0 != 0 {
        seq![Input::Keybd { scan: keys::LCTRL, flags: KEYEVENTF_SCANCODE, extra: CALL_NEXT }]
            + mods_inputs(m, false) + seq![
            Input::Keybd {
                scan: keys::LCTRL,
                flags: KEYEVENTF_SCANCODE | KEYEVENTF_KEYUP,
                extra: CALL_NEXT,
            },
        ]
    } else {
        mods_inputs(m, false)
    }
}

pub open spec fn unicode_down(u: u16) -> Input {
    Input::Keybd { scan: u, flags: KEYEVENTF_UNICODE, extra: CALL_NEXT }
}

pub open spec fn unicode_up(u: u16) -> Input {
    Input::Keybd { scan: u, flags: KEYEVENTF_UNICODE | KEYEVENTF_KEYUP, extra: CALL_NEXT }
}

/// Whether every code unit from `0xD800` up is followed by another unit
/// (the pair that it starts).
pub open spec fn units_paired(s: Seq<u16>) -> bool
    decreases s.len(),
{
    if s.len() == 0 {
        true
    } else if s[0] < 0xD800 {
        units_paired(s.skip(1))
    } else {
        s.len() >= 2 && units_paired(s.skip(2))
    }
}

/// Typing of UTF-16 units: a press and a release per unit, and for a pair
/// the two presses followed by the two releases.
pub open spec fn unicode_inputs(s: Seq<u16>) -> Seq<Input>
    decreases s.len(),
{
    if s.len() == 0 {
        Seq::empty()
    } else if s[0] < 0xD800 || s.len() < 2 {
        seq![unicode_down(s[0]), unicode_up(s[0])] + unicode_inputs(s.skip(1))
    } else {
        seq![unicode_down(s[0]), unicode_down(s[1]), unicode_up(s[0]), unicode_up(s[1])]
            + unicode_inputs(s.skip(2))
    }
}

/// The typing of a text; the input at the index of its last code unit is
/// the one tagged as the end of the batch.
pub open spec fn unicode_batch(units: Seq<u16>) -> Seq<Input> {
    let s = unicode_inputs(units);
    s.update(units.len() - 1, s[units.len() - 1].with_extra(CALL_NEXT_END))
}

/// The sequence with its last input tagged as the end of the batch.
pub open spec fn mark_end(s: Seq<Input>) -> Seq<Input> {
    s.update(s.len() - 1, s.last().with_extra(CALL_NEXT_END))
}

proof fn lemma_mod_input_len(m: Mods, mask: u8, code: u16, ext: bool, pressed: bool)
    requires
        mods::single_bit(mask),
    ensures
        mod_input(m, mask, code, ext, pressed).len() == bit(m.0, mask),
{
    reveal(mod_input);
    let x = m.0;
    assert((x & mask == mask) == (x & mask != 0)) by (bit_vector)
        requires
            mask == 1 || mask == 2 || mask == 4 || mask == 8 || mask == 16 || mask == 32 || mask == 64 || mask
                == 128,
    ;
}

/// A modifier set presses (or releases) exactly one key per modifier.
pub proof fn lemma_mods_inputs_len(m: Mods, pressed: bool)
    ensures
        mods_inputs(m, pressed).len() == popcount(m.0),
{
    lemma_mod_input_len(m, mods::LC, keys::LCTRL, false, pressed);
    lemma_mod_input_len(m, mods::RC, keys::RCTRL, true, pressed);
    lemma_mod_input_len(m, mods::LS, keys::LSHIFT, false, pressed);
    lemma_mod_input_len(m, mods::RS, keys::RSHIFT, false, pressed);
    lemma_mod_input_len(m, mods::LA, keys::LALT, false, pressed);
    lemma_mod_input_len(m, mods::RA, keys::RALT, true, pressed);
    lemma_mod_input_len(m, mods::LW, keys::LWIN, true, pressed);
    lemma_mod_input_len(m, mods::RW, keys::RWIN, true, pressed);
}

/// UTF-16 typing sends two inputs per code unit.
pub proof fn lemma_unicode_inputs_len(s: Seq<u16>)
    requires
        units_paired(s),
    ensures
        unicode_inputs(s).len() == 2 * s.len(),
    decreases s.len(),
{
    if s.len() > 0 {
        if s[0] < 0xD800 {
            lemma_unicode_inputs_len(s.skip(1));
        } else {
            lemma_unicode_inputs_len(s.skip(2));
        }
    }
}

/// Builds a batch of inputs.
pub struct InputBuilder {
    buf: Vec<Input>,
}

impl View for InputBuilder {
    type V = Seq<Input>;

    closed spec fn view(&self) -> Seq<Input> {
        self.buf@
    }
}

impl InputBuilder {
    /// The inputs that type `text`, as one batch.
    pub fn unicode(text: &str) -> (r: Vec<Input>)
        requires
            utf16_encode(text@).len() > 0,
            units_paired(utf16_encode(text@)),
        ensures
            r@ == unicode_batch(utf16_encode(text@)),
    {
        Self::unicode_units(encode_utf16(text))
    }

    /// The inputs that type the UTF-16 units `encoded`, as one batch.
    pub fn unicode_units(encoded: Vec<u16>) -> (r: Vec<Input>)
        requires
            encoded@.len() > 0,
            units_paired(encoded@),
        ensures
            r@ == unicode_batch(encoded@),
    {
        let len = encoded.len();
        let ghost units = encoded@;
        let mut inputs: Vec<Input> = Vec::with_capacity(len);
        fill_chars(encoded, &mut inputs);
        proof {
            lemma_unicode_inputs_len(units);
            assert(inputs@ =~= unicode_inputs(units));
        }
        let mut last = inputs[len - 1];
        last.set_extra(CALL_NEXT_END);
        inputs.set(len - 1, last);
        inputs
    }

    pub fn with_capacity(cap: usize) -> (r: Self)
        ensures
            r@ == Seq::<Input>::empty(),
    {
        InputBuilder { buf: Vec::with_capacity(cap) }
    }

    fn push_key(&mut self, key: Key, up: bool)
        requires
            sendable(key),
            up ==> releasable(key),
        ensures
            final(self)@ == old(self)@.push(key_input(key, up, CALL_NEXT)),
    {
        let input = if key.is_mouse_key() {
            if up {
                Input::mouse_up(key, CALL_NEXT)
            } else {
                Input::mouse_down(key, CALL_NEXT)
            }
        } else if up {
            Input::keybd_up(key, CALL_NEXT)
        } else {
            Input::keybd_down(key, CALL_NEXT)
        };
        self.buf.push(input);
    }

    pub fn key_down(self, key: Key) -> (r: Self)
        requires
            sendable(key),
        ensures
            r@ == self@.push(key_input(key, false, CALL_NEXT)),
    {
        let mut s = self;
        s.push_key(key, false);
        s
    }

    pub fn key_down_if(self, key: Key, cond: bool) -> (r: Self)
        requires
            cond ==> sendable(key),
        ensures
            r@ == self@ + opt(cond, key_input(key, false, CALL_NEXT)),
    {
        if cond {
            self.key_down(key)
        } else {
            assert(self@ + Seq::<Input>::empty() =~= self@);
            self
        }
    }

    /// Wheels have no release: only keyboard keys and mouse buttons are released.
    pub fn key_up(self, key: Key) -> (r: Self)
        requires
            releasable(key),
        ensures
            r@ == self@.push(key_input(key, true, CALL_NEXT)),
    {
        let mut s = self;
        s.push_key(key, true);
        s
    }

    pub fn key_up_if(self, key: Key, cond: bool) -> (r: Self)
        requires
            cond ==> releasable(key),
        ensures
            r@ == self@ + opt(cond, key_input(key, true, CALL_NEXT)),
    {
        if cond {
            self.key_up(key)
        } else {
            assert(self@ + Seq::<Input>::empty() =~= self@);
            self
        }
    }

    pub fn mods_down(self, mods: Mods) -> (r: Self)
        ensures
            r@ == self@ + mods_inputs(mods, true),
    {
        let mut s = self;
        s.add_mods(mods, true);
        s
    }

    pub fn mods_up(self, mods: Mods) -> (r: Self)
        ensures
            r@ == self@ + mods_inputs(mods, false),
    {
        let mut s = self;
        s.add_mods(mods, false);
        s
    }

    /// Releases `mods`; with `should_mask`, between a press and a release of
    /// LCtrl, so that the release of a lone Alt or Win does not open a menu.
    pub fn mods_up_masked(self, mods: Mods, should_mask: bool) -> (r: Self)
        ensures
            r@ == self@ + masked_release(mods, should_mask),
    {
        let mut s = self;
        if !mods.is_none() {
            if should_mask {
                s.buf.push(Input::new_keybd(keys::LCTRL, KEYEVENTF_SCANCODE, CALL_NEXT));
                s.add_mods(mods, false);
                s.buf.push(Input::new_keybd(keys::LCTRL, KEYEVENTF_SCANCODE | KEYEVENTF_KEYUP, CALL_NEXT));
                assert(s@ =~= self@ + masked_release(mods, should_mask));
            } else {
                s.add_mods(mods, false);
            }
        } else {
            s.add_mods(mods, false);
        }
        s
    }

    fn push_mod(&mut self, mods: Mods, bit_mask: u8, code: u16, ext: bool, pressed: bool)
        requires
            mods::single_bit(bit_mask),
        ensures
            final(self)@ == old(self)@ + mod_input(mods, bit_mask, code, ext, pressed),
    {
        reveal(mod_input);
        let f = if pressed { KEYEVENTF_SCANCODE } else { KEYEVENTF_SCANCODE | KEYEVENTF_KEYUP };
        let flags = if ext { f | KEYEVENTF_EXTENDEDKEY } else { f };
        if mods.0 & bit_mask == bit_mask {
            self.buf.push(Input::new_keybd(code, flags, CALL_NEXT));
        } else {
            assert(old(self)@ + Seq::<Input>::empty() =~= old(self)@);
        }
    }

    fn add_mods(&mut self, mods: Mods, pressed: bool)
        ensures
            final(self)@ == old(self)@ + mods_inputs(mods, pressed),
    {
        let ghost s0 = self@;
        let ghost lc = mod_input(mods, mods::LC, keys::LCTRL, false, pressed);
        let ghost rc = mod_input(mods, mods::RC, keys::RCTRL, true, pressed);
        let ghost ls = mod_input(mods, mods::LS, keys::LSHIFT, false, pressed);
        let ghost rs = mod_input(mods, mods::RS, keys::RSHIFT, false, pressed);
        let ghost la = mod_input(mods, mods::LA, keys::LALT, false, pressed);
        let ghost ra = mod_input(mods, mods::RA, keys::RALT, true, pressed);
        let ghost lw = mod_input(mods, mods::LW, keys::LWIN, true, pressed);
        let ghost rw = mod_input(mods, mods::RW, keys::RWIN, true, pressed);
        if pressed {
            self.push_mod(mods, mods::LC, keys::LCTRL, false, true);
            self.push_mod(mods, mods::RC, keys::RCTRL, true, true);
            assert(self@ =~= s0 + (lc + rc));
            self.push_mod(mods, mods::LS, keys::LSHIFT, false, true);
            assert(self@ =~= s0 + (lc + rc + ls));
            self.push_mod(mods, mods::RS, keys::RSHIFT, false, true);
            assert(self@ =~= s0 + (lc + rc + ls + rs));
            self.push_mod(mods, mods::LA, keys::LALT, false, true);
            assert(self@ =~= s0 + (lc + rc + ls + rs + la));
            self.push_mod(mods, mods::RA, keys::RALT, true, true);
            assert(self@ =~= s0 + (lc + rc + ls + rs + la + ra));
            self.push_mod(mods, mods::LW, keys::LWIN, true, true);
            assert(self@ =~= s0 + (lc + rc + ls + rs + la + ra + lw));
            self.push_mod(mods, mods::RW, keys::RWIN, true, true);
            assert(self@ =~= s0 + (lc + rc + ls + rs + la + ra + lw + rw));
        } else {
            self.push_mod(mods, mods::RW, keys::RWIN, true, false);
            self.push_mod(mods, mods::LW, keys::LWIN, true, false);
            assert(self@ =~= s0 + (rw + lw));
            self.push_mod(mods, mods::RA, keys::RALT, true, false);
            assert(self@ =~= s0 + (rw + lw + ra));
            self.push_mod(mods, mods::LA, keys::LALT, false, false);
            assert(self@ =~= s0 + (rw + lw + ra + la));
            self.push_mod(mods, mods::RS, keys::RSHIFT, false, false);
            assert(self@ =~= s0 + (rw + lw + ra + la + rs));
            self.push_mod(mods, mods::LS, keys::LSHIFT, false, false);
            assert(self@ =~= s0 + (rw + lw + ra + la + rs + ls));
            self.push_mod(mods, mods::RC, keys::RCTRL, true, false);
            assert(self@ =~= s0 + (rw + lw + ra + la + rs + ls + rc));
            self.push_mod(mods, mods::LC, keys::LCTRL, false, false);
            assert(self@ =~= s0 + (rw + lw + ra + la + rs + ls + rc + lc));
        }
    }

    /// Appends the typing of UTF-16 units.
    pub fn add_unicode(self, encoded: Vec<u16>) -> (r: Self)
        requires
            units_paired(encoded@),
        ensures
            r@ == self@ + unicode_inputs(encoded@),
    {
        let mut s = self;
        fill_chars(encoded, &mut s.buf);
        s
    }

    /// The batch, its last input tagged as the end of the batch.
    pub fn build(self) -> (r: Vec<Input>)
        requires
            self@.len() > 0,
        ensures
            r@ == mark_end(self@),
    {
        let mut buf = self.buf;
        let len = buf.len();
        let mut last = buf[len - 1];
        last.set_extra(CALL_NEXT_END);
        buf.set(len - 1, last);
        buf
    }
}

/// A copy of a batch.
pub fn copy_inputs(v: &Vec<Input>) -> (r: Vec<Input>)
    ensures
        r@ == v@,
{
    let mut r: Vec<Input> = Vec::with_capacity(v.len());
    let mut i: usize = 0;
    while i < v.len()
        invariant
            i <= v@.len(),
            r@ == v@.take(i as int),
        decreases v@.len() - i,
    {
        r.push(v[i]);
        i = i + 1;
        assert(r@ =~= v@.take(i as int));
    }
    assert(v@.take(v@.len() as int) =~= v@);
    r
}

/// Appends the typing of UTF-16 units to `buf`.
pub fn fill_chars(encoded: Vec<u16>, buf: &mut Vec<Input>)
    requires
        units_paired(encoded@),
    ensures
        final(buf)@ == old(buf)@ + unicode_inputs(encoded@),
{
    let n = encoded.len();
    let mut i: usize = 0;
    assert(encoded@.skip(0) =~= encoded@);
    while i < n
        invariant
            n == encoded@.len(),
            i <= n,
            units_paired(encoded@.skip(i as int)),
            buf@ + unicode_inputs(encoded@.skip(i as int)) == old(buf)@ + unicode_inputs(encoded@),
        decreases n - i,
    {
        let ghost rest = encoded@.skip(i as int);
        let ch = encoded[i];
        if ch < 0xD800 {
            buf.push(Input::new_keybd(ch, KEYEVENTF_UNICODE, CALL_NEXT));
            buf.push(Input::new_keybd(ch, KEYEVENTF_UNICODE | KEYEVENTF_KEYUP, CALL_NEXT));
            assert(rest.skip(1) =~= encoded@.skip(i + 1));
            i = i + 1;
        } else {
            let low = encoded[i + 1];
            buf.push(Input::new_keybd(ch, KEYEVENTF_UNICODE, CALL_NEXT));
            buf.push(Input::new_keybd(low, KEYEVENTF_UNICODE, CALL_NEXT));
            buf.push(Input::new_keybd(ch, KEYEVENTF_UNICODE | KEYEVENTF_KEYUP, CALL_NEXT));
            buf.push(Input::new_keybd(low, KEYEVENTF_UNICODE | KEYEVENTF_KEYUP, CALL_NEXT));
            assert(rest.skip(2) =~= encoded@.skip(i + 2));
            i = i + 2;
        }
    }
    assert(encoded@.skip(n as int) =~= Seq::<u16>::empty());
    assert(buf@ + Seq::<Input>::empty() =~= buf@);
}

} // verus!
