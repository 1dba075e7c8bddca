use vstd::prelude::*;
use super::keys::{self, Key};
use super::mods::{self, Mods};
use super::extensions::{Input, sendable, spec_keybd_down, spec_keybd_up};
use super::input_builder::{opt, key_input, releasable, mod_input, mark_end};
use super::constants::{CALL_NEXT, CALL_NEXT_END, KEYEVENTF_SCANCODE, KEYEVENTF_EXTENDEDKEY, KEYEVENTF_KEYUP};

verus! {

/// The inputs that press (or release) the modifiers of `m`, in the order
/// that this builder sends them: a press takes the Ctrl keys first, a
/// release last, and the rest go LShift, LAlt, LWin, RShift, RAlt, RWin;
/// with `mask`, all of it between a press and a release of LCtrl.
pub open spec fn sender_mods(m: Mods, pressed: bool, mask: bool) -> Seq<Input> {
    let lc = mod_input(m, mods::LC, keys::LCTRL, false, pressed);
    let rc = mod_input(m, mods::RC, keys::RCTRL, true, pressed);
    let ls = mod_input(m, mods::LS, keys::LSHIFT, false, pressed);
    let la = mod_input(m, mods::LA, keys::LALT, false, pressed);
    let lw = mod_input(m, mods::LW, keys::LWIN, true, pressed);
    let rs = mod_input(m, mods::RS, keys::RSHIFT, false, pressed);
    let ra = mod_input(m, mods::RA, keys::RALT, true, pressed);
    let rw = mod_input(m, mods::RW, keys::RWIN, true, pressed);
    let ctrl = lc + rc;
    let rest = ls + la + lw + rs + ra + rw;
    let body = if pressed { ctrl + rest } else { rest + ctrl };
    opt(mask, spec_keybd_down(Key(keys::LCTRL), CALL_NEXT)) + body + opt(mask, spec_keybd_up(Key(keys::LCTRL), CALL_NEXT))
}

/// What adding the modifiers `m` appends: nothing for no modifiers.
pub open spec fn sender_mods_step(m: Mods, pressed: bool, mask: bool) -> Seq<Input> {
    if m.0 == 0 {
        Seq::empty()
    } else {
        sender_mods(m, pressed, mask)
    }
}

/// Builds a batch of inputs, with modifiers masked as a whole.
pub struct InputBuilder {
    buf: Vec<Input>,
}

impl View for InputBuilder {
    type V = Seq<Input>;

    closed spec fn view(&self) -> Seq<Input> {
        self.buf@
    }
}

fn push_mod(buf: &mut Vec<Input>, m: Mods, bit_mask: u8, code: u16, ext: bool, pressed: bool)
    requires
        mods::single_bit(bit_mask),
    ensures
        final(buf)@ == old(buf)@ + mod_input(m, bit_mask, code, ext, pressed),
{
    reveal(mod_input);
    let f = if pressed { KEYEVENTF_SCANCODE } else { KEYEVENTF_SCANCODE | KEYEVENTF_KEYUP };
    let flags = if ext { f | KEYEVENTF_EXTENDEDKEY } else { f };
    if m.0 & bit_mask == bit_mask {
        buf.push(Input::new_keybd(code, flags, CALL_NEXT));
    } else {
        assert(old(buf)@ + Seq::<Input>::empty() =~= old(buf)@);
    }
}

fn push_ctrl(buf: &mut Vec<Input>, m: Mods, pressed: bool)
    ensures
        final(buf)@ == old(buf)@ + (mod_input(m, mods::LC, keys::LCTRL, false, pressed) + mod_input(
            m,
            mods::RC,
            keys::RCTRL,
            true,
            pressed,
        )),
{
    push_mod(buf, m, mods::LC, keys::LCTRL, false, pressed);
    push_mod(buf, m, mods::RC, keys::RCTRL, true, pressed);
    assert(buf@ =~= old(buf)@ + (mod_input(m, mods::LC, keys::LCTRL, false, pressed) + mod_input(
        m,
        mods::RC,
        keys::RCTRL,
        true,
        pressed,
    )));
}

fn push_rest(buf: &mut Vec<Input>, m: Mods, pressed: bool)
    ensures
        final(buf)@ == old(buf)@ + (mod_input(m, mods::LS, keys::LSHIFT, false, pressed) + mod_input(
            m,
            mods::LA,
            keys::LALT,
            false,
            pressed,
        ) + mod_input(m, mods::LW, keys::LWIN, true, pressed) + mod_input(m, mods::RS, keys::RSHIFT, false, pressed)
            + mod_input(m, mods::RA, keys::RALT, true, pressed) + mod_input(m, mods::RW, keys::RWIN, true, pressed)),
{
    let ghost s0 = buf@;
    let ghost ls = mod_input(m, mods::LS, keys::LSHIFT, false, pressed);
    let ghost la = mod_input(m, mods::LA, keys::LALT, false, pressed);
    let ghost lw = mod_input(m, mods::LW, keys::LWIN, true, pressed);
    let ghost rs = mod_input(m, mods::RS, keys::RSHIFT, false, pressed);
    let ghost ra = mod_input(m, mods::RA, keys::RALT, true, pressed);
    let ghost rw = mod_input(m, mods::RW, keys::RWIN, true, pressed);
    push_mod(buf, m, mods::LS, keys::LSHIFT, false, pressed);
    push_mod(buf, m, mods::LA, keys::LALT, false, pressed);
    assert(buf@ =~= s0 + (ls + la));
    push_mod(buf, m, mods::LW, keys::LWIN, true, pressed);
    assert(buf@ =~= s0 + (ls + la + lw));
    push_mod(buf, m, mods::RS, keys::RSHIFT, false, pressed);
    assert(buf@ =~= s0 + (ls + la + lw + rs));
    push_mod(buf, m, mods::RA, keys::RALT, true, pressed);
    assert(buf@ =~= s0 + (ls + la + lw + rs + ra));
    push_mod(buf, m, mods::RW, keys::RWIN, true, pressed);
    assert(buf@ =~= s0 + (ls + la + lw + rs + ra + rw));
}

impl InputBuilder {
    pub fn with_capacity(cap: usize) -> (r: Self)
        ensures
            r@ == Seq::<Input>::empty(),
    {
        InputBuilder { buf: Vec::with_capacity(cap) }
    }

    /// Presses a key: a mouse input for a mouse key, a scan-code input for any other.
    pub fn key_down(self, key: Key) -> (r: Self)
        requires
            sendable(key),
        ensures
            r@ == self@.push(key_input(key, false, CALL_NEXT)),
    {
        let mut s = self;
        let input = if key.is_mouse_key() {
            Input::mouse_down(key, CALL_NEXT)
        } else {
            Input::keybd_down(key, CALL_NEXT)
        };
        s.buf.push(input);
        s
    }

    /// Releases a key; wheels have no release.
    pub fn key_up(self, key: Key) -> (r: Self)
        requires
            releasable(key),
        ensures
            r@ == self@.push(key_input(key, true, CALL_NEXT)),
    {
        let mut s = self;
        let input = if key.is_mouse_key() {
            Input::mouse_up(key, CALL_NEXT)
        } else {
            Input::keybd_up(key, CALL_NEXT)
        };
        s.buf.push(input);
        s
    }

    pub fn key_up_if(self, key: Key, cond: bool) -> (r: Self)
        requires
            cond ==> releasable(key),
        ensures
            r@ == self@ + opt(cond, key_input(key, true, CALL_NEXT)),
    {
        if cond {
            self.key_up(key)
        } else {
            assert(self@ + Seq::<Input>::empty() =~= self@);
            self
        }
    }

    pub fn mods_down(self, mods: Mods) -> (r: Self)
        ensures
            r@ == self@ + sender_mods_step(mods, true, false),
    {
        self.mods_down_masked(mods, false)
    }

    /// Presses `mods`; with `to_mask`, between a press and a release of LCtrl.
    pub fn mods_down_masked(self, mods: Mods, to_mask: bool) -> (r: Self)
        ensures
            r@ == self@ + sender_mods_step(mods, true, to_mask),
    {
        let mut s = self;
        if !mods.is_none() {
            s.add_mods(mods, true, to_mask);
        } else {
            assert(self@ + Seq::<Input>::empty() =~= self@);
        }
        s
    }

    pub fn mods_up(self, mods: Mods) -> (r: Self)
        ensures
            r@ == self@ + sender_mods_step(mods, false, false),
    {
        self.mods_up_masked(mods, false)
    }

    /// Releases `mods`; with `to_mask`, between a press and a release of LCtrl.
    pub fn mods_up_masked(self, mods: Mods, to_mask: bool) -> (r: Self)
        ensures
            r@ == self@ + sender_mods_step(mods, false, to_mask),
    {
        let mut s = self;
        if !mods.is_none() {
            s.add_mods(mods, false, to_mask);
        } else {
            assert(self@ + Seq::<Input>::empty() =~= self@);
        }
        s
    }

    fn add_mods(&mut self, mods: Mods, pressed: bool, to_mask: bool)
        ensures
            final(self)@ == old(self)@ + sender_mods(mods, pressed, to_mask),
    {
        let ghost s0 = self@;
        let ghost down = opt(to_mask, spec_keybd_down(Key(keys::LCTRL), CALL_NEXT));
        let ghost up = opt(to_mask, spec_keybd_up(Key(keys::LCTRL), CALL_NEXT));
        let ghost ctrl = mod_input(mods, mods::LC, keys::LCTRL, false, pressed) + mod_input(
            mods,
            mods::RC,
            keys::RCTRL,
            true,
            pressed,
        );
        let ghost rest = mod_input(mods, mods::LS, keys::LSHIFT, false, pressed) + mod_input(
            mods,
            mods::LA,
            keys::LALT,
            false,
            pressed,
        ) + mod_input(mods, mods::LW, keys::LWIN, true, pressed) + mod_input(
            mods,
            mods::RS,
            keys::RSHIFT,
            false,
            pressed,
        ) + mod_input(mods, mods::RA, keys::RALT, true, pressed) + mod_input(mods, mods::RW, keys::RWIN, true, pressed);

        if to_mask {
            self.buf.push(Input::keybd_down(Key(keys::LCTRL), CALL_NEXT));
        }
        assert(self@ =~= s0 + down);
        if pressed {
            push_ctrl(&mut self.buf, mods, pressed);
            push_rest(&mut self.buf, mods, pressed);
            assert(self@ =~= s0 + down + (ctrl + rest));
        } else {
            push_rest(&mut self.buf, mods, pressed);
            push_ctrl(&mut self.buf, mods, pressed);
            assert(self@ =~= s0 + down + (rest + ctrl));
        }
        let ghost mid = self@;
        if to_mask {
            self.buf.push(Input::keybd_up(Key(keys::LCTRL), CALL_NEXT));
        }
        assert(self@ =~= mid + up);
        assert(self@ =~= old(self)@ + sender_mods(mods, pressed, to_mask));
    }

    /// The batch, its last input tagged as the end of the batch.
    pub fn build(self) -> (r: Vec<Input>)
        requires
            self@.len() > 0,
        ensures
            r@ == mark_end(self@),
    {
        let mut buf = self.buf;
        let len = buf.len();
        let mut last = buf[len - 1];
        last.set_extra(CALL_NEXT_END);
        buf.set(len - 1, last);
        buf
    }
}

} // verus!
