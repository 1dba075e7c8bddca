use vstd::prelude::*;
use super::keys::Key;
use super::mods::Mods;
use super::hotkey::{KeyMods, Hotkey};
use super::masks::{spec_get_mod, spec_should_mask_last};
use super::extensions::{spec_keybd_up, spec_mouse_up};
use super::constants::{CACHED_EVENT, CALL_NEXT, CALL_NEXT_END, KEYEVENTF_SCANCODE, KEYEVENTF_KEYUP};
use super::keys;
use super::mods;
use super::extensions::Input;
use super::input_builder::{opt, key_input, mod_input, mods_inputs, masked_release, unicode_inputs, unicode_down,
    unicode_up, unicode_batch, mark_end, units_paired, lemma_unicode_inputs_len};
use super::handler_spec::{mask_seg, mask_tap, start_mask, end_mask, remap_start_batch, remap_end_batch,
    wheel_remap_batch, wheel_unicode_batch, unicode_mask};
use super::hotkey::{hotkey_ok, utf16_encode};
use super::mods::lemma_popcount_zero;
use super::input_builder::lemma_mods_inputs_len;
use super::keys::spec_is_mouse_wheel;
use super::extensions::{spec_mouse_down, spec_keybd_down};
use super::handler_spec::{HState, Verdict, CmdView, Trans, HotkeyHandler, Cont, spec_remap, spec_remap_up,
    spec_remap_repeat, spec_unicode, spec_unicode_up, spec_unicode_repeat, spec_action_up, spec_map_hotkey,
    spec_key_down, spec_key_up, spec_handle_kb, spec_wheel, spec_wheel_resolve, spec_handle_ms, spec_resolve,
    spec_on_keybd, spec_on_mouse, lookup_call, spec_get_hotkey, CurrView};

verus! {

/// The number of batches among the commands.
pub open spec fn sends<A, R>(cmds: Seq<CmdView<A, R>>) -> nat
    decreases cmds.len(),
{
    if cmds.len() == 0 {
        0
    } else {
        sends(cmds.drop_last()) + if cmds.last() is Send {
            1nat
        } else {
            0nat
        }
    }
}

/// Whether a transition counts every batch that it sends as in flight.
pub open spec fn counts_sends<F, A, R>(s: HState, t: Trans<F, A, R>) -> bool {
    t.s.send_count == s.send_count + sends(t.cmds)
}

proof fn lemma_sends_small<A, R>(cmds: Seq<CmdView<A, R>>)
    requires
        cmds.len() <= 2,
    ensures
        sends(cmds) == (if cmds.len() >= 1 && cmds[0] is Send {
            1nat
        } else {
            0nat
        }) + (if cmds.len() == 2 && cmds[1] is Send {
            1nat
        } else {
            0nat
        }),
{
    reveal_with_fuel(sends, 3);
    if cmds.len() == 2 {
        assert(cmds.drop_last().drop_last() =~= Seq::<CmdView<A, R>>::empty());
        assert(cmds.drop_last()[0] == cmds[0]);
    } else if cmds.len() == 1 {
        assert(cmds.drop_last() =~= Seq::<CmdView<A, R>>::empty());
    }
}

proof fn lemma_key_down_counts<F, A, R>(
    s: HState,
    hk: Map<u32, HotkeyHandler<F>>,
    key: Key,
    mb: Mods,
    suspended: bool,
    cont: Cont,
)
    ensures
        counts_sends(s, spec_key_down::<F, A, R>(s, hk, key, mb, suspended, cont)),
        spec_key_down::<F, A, R>(s, hk, key, mb, suspended, cont).cmds.len() <= 1,
{
    lemma_sends_small(spec_key_down::<F, A, R>(s, hk, key, mb, suspended, cont).cmds);
}

proof fn lemma_key_up_counts<F, A, R>(s: HState, key: Key, mb: Mods)
    ensures
        counts_sends(s, spec_key_up::<F, A, R>(s, key, mb)),
        spec_key_up::<F, A, R>(s, key, mb).cmds.len() <= 1,
{
    lemma_sends_small(spec_key_up::<F, A, R>(s, key, mb).cmds);
}

proof fn lemma_map_hotkey_counts<F, A, R>(s: HState, e: KeyMods, res: Option<Hotkey<A, R>>)
    ensures
        counts_sends(s, spec_map_hotkey::<F, A, R>(s, e, res)),
{
    lemma_sends_small(spec_map_hotkey::<F, A, R>(s, e, res).cmds);
}

proof fn lemma_wheel_resolve_counts<F, A, R>(s: HState, e: KeyMods, res: Option<Hotkey<A, R>>)
    ensures
        counts_sends(s, spec_wheel_resolve::<F, A, R>(s, e, res)),
{
    lemma_sends_small(spec_wheel_resolve::<F, A, R>(s, e, res).cmds);
}

/// Every step of the handler on an event that it does not hold back counts
/// each batch that it sends as one more batch in flight.
pub proof fn law_keybd_counts_batches<F, A, R>(
    s: HState,
    hk: Map<u32, HotkeyHandler<F>>,
    key: Key,
    pressed: bool,
    suspended: bool,
)
    requires
        s.send_count == 0,
    ensures
        counts_sends(s, spec_on_keybd::<F, A, R>(s, hk, key, pressed, suspended)),
{
    let mb = super::masks::spec_get_mod(key);
    if pressed {
        lemma_key_down_counts::<F, A, R>(s, hk, key, mb, suspended, Cont::Kb(mb));
    } else {
        let t = spec_key_up::<F, A, R>(s, key, mb);
        lemma_key_up_counts::<F, A, R>(s, key, mb);
        reveal_with_fuel(sends, 2);
        assert(t.cmds.push(CmdView::Send(super::handler_spec::mask_tap(key))).drop_last() =~= t.cmds);
    }
}

/// The same for mouse events.
pub proof fn law_mouse_counts_batches<F, A, R>(
    s: HState,
    hk: Map<u32, HotkeyHandler<F>>,
    key: Key,
    pressed: bool,
    suspended: bool,
)
    requires
        s.send_count == 0,
    ensures
        counts_sends(s, spec_on_mouse::<F, A, R>(s, hk, key, pressed, suspended)),
{
    if pressed {
        lemma_key_down_counts::<F, A, R>(s, hk, key, Mods(0), suspended, Cont::Ms);
        lemma_sends_small(spec_wheel::<F, A, R>(s, hk, key, suspended).cmds);
    } else {
        lemma_key_up_counts::<F, A, R>(s, key, Mods(0));
    }
}

/// Resolving a looked-up hotkey counts each batch that it sends as in flight.
pub proof fn law_resolve_counts_batches<F, A, R>(s: HState, res: Option<Hotkey<A, R>>)
    requires
        s.pending is Some,
    ensures
        counts_sends(s, spec_resolve::<F, A, R>(s, res)),
{
    let p = s.pending.unwrap();
    let s0 = HState { pending: None, ..s };
    lemma_map_hotkey_counts::<F, A, R>(s0, p.entry, res);
    lemma_wheel_resolve_counts::<F, A, R>(s0, p.entry, res);
}

/// While batches are in flight, the handler holds every event back: nothing
/// passes, the state stays, and only a release is sent again, tagged as cached.
pub proof fn law_held_back<F, A, R>(
    s: HState,
    hk: Map<u32, HotkeyHandler<F>>,
    key: Key,
    pressed: bool,
    suspended: bool,
)
    requires
        s.send_count != 0,
    ensures
        ({
            let t = spec_on_keybd::<F, A, R>(s, hk, key, pressed, suspended);
            &&& t.s == s
            &&& t.v is Block
            &&& t.cmds == (if pressed {
                Seq::<CmdView<A, R>>::empty()
            } else {
                seq![CmdView::Send(seq![spec_keybd_up(key, CACHED_EVENT)])]
            })
        }),
        ({
            let t = spec_on_mouse::<F, A, R>(s, hk, key, pressed, suspended);
            &&& t.s == s
            &&& t.v is Block
            &&& t.cmds == (if pressed {
                Seq::<CmdView<A, R>>::empty()
            } else {
                seq![CmdView::Send(seq![spec_mouse_up(key, CACHED_EVENT)])]
            })
        }),
{
}

/// Pressing a key whose hotkey remaps it, and releasing the key once the
/// remap's batch has come through, leaves the modifiers as they were before
/// the press (unless the remapped key is itself one of those modifiers).
pub proof fn law_remap_release_restores_mods<F, A, R>(
    s: HState,
    hk: Map<u32, HotkeyHandler<F>>,
    key: Key,
    suspended: bool,
    m: Mods,
    k: Key,
)
    requires
        s.send_count == 0,
        s.curr is None,
        !s.suppressed.contains_key(key.0),
        spec_get_hotkey(hk, KeyMods { mods: s.v_mods, key }, suspended) is Some,
        spec_get_mod(k).0 & s.v_mods.0 == 0,
    ensures
        ({
            let t1 = spec_on_keybd::<F, A, R>(s, hk, key, true, suspended);
            let t2 = spec_resolve::<F, A, R>(t1.s, Some(Hotkey::Remap(m, k)));
            let s2 = HState { send_count: 0, ..t2.s };
            let t3 = spec_on_keybd::<F, A, R>(s2, hk, key, false, suspended);
            &&& t1.v is Lookup
            &&& t2.v is Block
            &&& t2.s.curr == Some(CurrView::Remap(KeyMods { mods: s.v_mods, key }, KeyMods { mods: m, key: k }))
            &&& t3.v is Block
            &&& t3.s.curr is None
            &&& t3.s.v_mods == s.v_mods
        }),
{
    let (x, y, z) = (s.v_mods.0, m.0, spec_get_mod(k).0);
    assert(z & x == 0 ==> (((y | z) & !((y & !x) | z)) | (x & !y)) == x) by (bit_vector);
}

/// A suppressed key stays swallowed, its auto-repeat too, until it is
/// released; its release is swallowed as well and ends the suppression. A
/// key suppressed once goes through when pressed again.
pub proof fn law_suppress_until_release<F, A, R>(
    s: HState,
    hk: Map<u32, HotkeyHandler<F>>,
    key: Key,
    suspended: bool,
    once: bool,
)
    requires
        s.send_count == 0,
        s.curr is None,
        !s.suppressed.contains_key(key.0),
        spec_get_hotkey(hk, KeyMods { mods: s.v_mods, key }, suspended) is Some,
    ensures
        ({
            let t1 = spec_on_keybd::<F, A, R>(s, hk, key, true, suspended);
            let res = if once {
                Hotkey::<A, R>::SuppressOnce
            } else {
                Hotkey::<A, R>::Suppress
            };
            let t2 = spec_resolve::<F, A, R>(t1.s, Some(res));
            let repeat = spec_on_keybd::<F, A, R>(t2.s, hk, key, true, suspended);
            let up = spec_on_keybd::<F, A, R>(t2.s, hk, key, false, suspended);
            &&& t2.v is Block
            &&& t2.cmds.len() == 0
            &&& !once ==> (repeat.v is Block && repeat.s == t2.s && repeat.cmds.len() == 0)
            &&& once ==> (!repeat.s.suppressed.contains_key(key.0) && repeat.v is Lookup)
            &&& up.v is Block
            &&& up.cmds.len() == 0
            &&& !up.s.suppressed.contains_key(key.0)
        }),
{
}

/// Whether every input of a segment is tagged as one that is not the last.
pub open spec fn all_next(b: Seq<Input>) -> bool {
    forall|i: int| 0 <= i < b.len() ==> (#[trigger] b[i]).extra() == CALL_NEXT
}

/// Whether the input at `i` is the batch's one input tagged as its end.
pub open spec fn end_at(b: Seq<Input>, i: int) -> bool {
    &&& 0 <= i < b.len()
    &&& b[i].extra() == CALL_NEXT_END
    &&& forall|j: int| 0 <= j < b.len() && j != i ==> (#[trigger] b[j]).extra() == CALL_NEXT
}

/// Whether exactly one input of a batch is tagged as its end: the hook counts
/// a batch as come through when it sees that input.
pub open spec fn one_end(b: Seq<Input>) -> bool {
    exists|i: int| #[trigger] end_at(b, i)
}

pub open spec fn cmd_tagged<A, R>(c: CmdView<A, R>) -> bool {
    match c {
        CmdView::Send(b) => one_end(b),
        _ => true,
    }
}

/// Whether every batch among the commands has exactly one end tag.
pub open spec fn batches_tagged<A, R>(cmds: Seq<CmdView<A, R>>) -> bool {
    forall|i: int| 0 <= i < cmds.len() ==> cmd_tagged(#[trigger] cmds[i])
}

/// Whether the batch kept for the auto-repeat of a text has exactly one end tag.
pub open spec fn tags_ok(s: HState) -> bool {
    match s.curr {
        Some(CurrView::Unicode(_, ins)) => one_end(ins),
        _ => true,
    }
}

proof fn lemma_all_next_add(a: Seq<Input>, b: Seq<Input>)
    requires
        all_next(a),
        all_next(b),
    ensures
        all_next(a + b),
{
    assert forall|i: int| 0 <= i < (a + b).len() implies (#[trigger] (a + b)[i]).extra() == CALL_NEXT by {
        if i < a.len() {
            assert((a + b)[i] == a[i]);
        } else {
            assert((a + b)[i] == b[i - a.len()]);
        }
    }
}

proof fn lemma_all_next_opt(c: bool, k: Key, up: bool)
    ensures
        all_next(opt(c, key_input(k, up, CALL_NEXT))),
{
}

proof fn lemma_all_next_mods(m: Mods, pressed: bool)
    ensures
        all_next(mods_inputs(m, pressed)),
{
    reveal(mod_input);
    let lc = mod_input(m, mods::LC, keys::LCTRL, false, pressed);
    let rc = mod_input(m, mods::RC, keys::RCTRL, true, pressed);
    let ls = mod_input(m, mods::LS, keys::LSHIFT, false, pressed);
    let rs = mod_input(m, mods::RS, keys::RSHIFT, false, pressed);
    let la = mod_input(m, mods::LA, keys::LALT, false, pressed);
    let ra = mod_input(m, mods::RA, keys::RALT, true, pressed);
    let lw = mod_input(m, mods::LW, keys::LWIN, true, pressed);
    let rw = mod_input(m, mods::RW, keys::RWIN, true, pressed);
    assert(all_next(lc) && all_next(rc) && all_next(ls) && all_next(rs) && all_next(la) && all_next(ra)
        && all_next(lw) && all_next(rw));
    if pressed {
        lemma_all_next_add(lc, rc);
        lemma_all_next_add(lc + rc, ls);
        lemma_all_next_add(lc + rc + ls, rs);
        lemma_all_next_add(lc + rc + ls + rs, la);
        lemma_all_next_add(lc + rc + ls + rs + la, ra);
        lemma_all_next_add(lc + rc + ls + rs + la + ra, lw);
        lemma_all_next_add(lc + rc + ls + rs + la + ra + lw, rw);
    } else {
        lemma_all_next_add(rw, lw);
        lemma_all_next_add(rw + lw, ra);
        lemma_all_next_add(rw + lw + ra, la);
        lemma_all_next_add(rw + lw + ra + la, rs);
        lemma_all_next_add(rw + lw + ra + la + rs, ls);
        lemma_all_next_add(rw + lw + ra + la + rs + ls, rc);
        lemma_all_next_add(rw + lw + ra + la + rs + ls + rc, lc);
    }
}

proof fn lemma_all_next_masked(m: Mods, mask: bool)
    ensures
        all_next(masked_release(m, mask)),
{
    lemma_all_next_mods(m, false);
    if mask && m.0 != 0 {
        let pre = seq![Input::Keybd { scan: keys::LCTRL, flags: KEYEVENTF_SCANCODE, extra: CALL_NEXT }];
        let post = seq![
            Input::Keybd { scan: keys::LCTRL, flags: KEYEVENTF_SCANCODE | KEYEVENTF_KEYUP, extra: CALL_NEXT },
        ];
        assert(all_next(pre) && all_next(post));
        lemma_all_next_add(pre, mods_inputs(m, false));
        lemma_all_next_add(pre + mods_inputs(m, false), post);
    }
}

proof fn lemma_all_next_unicode(units: Seq<u16>)
    ensures
        all_next(unicode_inputs(units)),
    decreases units.len(),
{
    if units.len() > 0 {
        if units[0] < 0xD800 || units.len() < 2 {
            let h = seq![unicode_down(units[0]), unicode_up(units[0])];
            lemma_all_next_unicode(units.skip(1));
            assert(all_next(h));
            lemma_all_next_add(h, unicode_inputs(units.skip(1)));
        } else {
            let h = seq![unicode_down(units[0]), unicode_down(units[1]), unicode_up(units[0]), unicode_up(units[1])];
            lemma_all_next_unicode(units.skip(2));
            assert(all_next(h));
            lemma_all_next_add(h, unicode_inputs(units.skip(2)));
        }
    }
}

proof fn lemma_all_next_seg(m: (Key, bool, bool, Mods, Mods))
    ensures
        all_next(mask_seg(m)),
{
    lemma_all_next_opt(m.1, m.0, false);
    lemma_all_next_opt(m.2, m.0, true);
    lemma_all_next_mods(m.3, false);
    lemma_all_next_mods(m.4, true);
    let a = opt(m.1, key_input(m.0, false, CALL_NEXT));
    lemma_all_next_add(a, mods_inputs(m.3, false));
    lemma_all_next_add(a + mods_inputs(m.3, false), mods_inputs(m.4, true));
    lemma_all_next_add(
        a + mods_inputs(m.3, false) + mods_inputs(m.4, true),
        opt(m.2, key_input(m.0, true, CALL_NEXT)),
    );
}

proof fn lemma_mark_end(b: Seq<Input>)
    requires
        all_next(b),
        b.len() > 0,
    ensures
        one_end(mark_end(b)),
{
    let r = mark_end(b);
    assert(end_at(r, b.len() - 1));
}

proof fn lemma_unicode_batch_end(units: Seq<u16>)
    requires
        units.len() > 0,
        units_paired(units),
    ensures
        one_end(unicode_batch(units)),
{
    lemma_all_next_unicode(units);
    lemma_unicode_inputs_len(units);
    let r = unicode_batch(units);
    assert(end_at(r, units.len() - 1));
}

proof fn lemma_tagged_small<A, R>(cmds: Seq<CmdView<A, R>>)
    requires
        cmds.len() <= 2,
        cmds.len() >= 1 ==> cmd_tagged(cmds[0]),
        cmds.len() == 2 ==> cmd_tagged(cmds[1]),
    ensures
        batches_tagged(cmds),
{
}

proof fn lemma_tagged_push<A, R>(cmds: Seq<CmdView<A, R>>, c: CmdView<A, R>)
    requires
        batches_tagged(cmds),
        cmd_tagged(c),
    ensures
        batches_tagged(cmds.push(c)),
{
    assert forall|i: int| 0 <= i < cmds.push(c).len() implies cmd_tagged(#[trigger] cmds.push(c)[i]) by {
        if i < cmds.len() {
            assert(cmds.push(c)[i] == cmds[i]);
        }
    }
}

proof fn lemma_mask_tap_end(key: Key)
    ensures
        one_end(mask_tap(key)),
{
    let b = seq![
        key_input(Key(keys::LCTRL), false, CALL_NEXT),
        key_input(key, true, CALL_NEXT),
        key_input(Key(keys::LCTRL), true, CALL_NEXT),
    ];
    assert(all_next(b));
    lemma_mark_end(b);
}

proof fn lemma_mods_batch_end(m: Mods, pressed: bool)
    requires
        m.0 != 0,
    ensures
        one_end(mark_end(mods_inputs(m, pressed))),
{
    lemma_all_next_mods(m, pressed);
    lemma_mods_inputs_len(m, pressed);
    lemma_popcount_zero(m.0);
    lemma_mark_end(mods_inputs(m, pressed));
}

proof fn lemma_end_batch_end(r: KeyMods, rel0: Mods, rest0: Mods)
    requires
        remap_end_batch(r, rel0, rest0).len() != 0,
    ensures
        one_end(mark_end(remap_end_batch(r, rel0, rest0))),
{
    lemma_all_next_opt(!spec_is_mouse_wheel(r.key.0), r.key, true);
    lemma_all_next_seg(end_mask(r, rel0, rest0));
    lemma_all_next_add(
        opt(!spec_is_mouse_wheel(r.key.0), key_input(r.key, true, CALL_NEXT)),
        mask_seg(end_mask(r, rel0, rest0)),
    );
    lemma_mark_end(remap_end_batch(r, rel0, rest0));
}

proof fn lemma_start_batch_end(e: KeyMods, r: KeyMods)
    ensures
        one_end(mark_end(remap_start_batch(e, r))),
        all_next(remap_start_batch(e, r)),
{
    lemma_all_next_seg(start_mask(e, r));
    let k = seq![key_input(r.key, false, CALL_NEXT)];
    assert(all_next(k));
    lemma_all_next_add(mask_seg(start_mask(e, r)), k);
    lemma_mark_end(remap_start_batch(e, r));
}

proof fn lemma_key_down_tagged<F, A, R>(
    s: HState,
    hk: Map<u32, HotkeyHandler<F>>,
    key: Key,
    mb: Mods,
    suspended: bool,
    cont: Cont,
)
    requires
        tags_ok(s),
    ensures
        batches_tagged(spec_key_down::<F, A, R>(s, hk, key, mb, suspended, cont).cmds),
        tags_ok(spec_key_down::<F, A, R>(s, hk, key, mb, suspended, cont).s),
        spec_key_down::<F, A, R>(s, hk, key, mb, suspended, cont).cmds.len() <= 1,
{
    let t = spec_key_down::<F, A, R>(s, hk, key, mb, suspended, cont);
    let s0 = if s.suppressed.contains_key(key.0) {
        HState { suppressed: s.suppressed.remove(key.0), ..s }
    } else {
        s
    };
    match s0.curr {
        Some(CurrView::Remap(e, r)) => {
            if key == e.key {
                let k = r.key;
                let input = if spec_is_mouse_wheel(k.0) {
                    spec_mouse_down(k, CALL_NEXT_END)
                } else {
                    spec_keybd_down(k, CALL_NEXT_END)
                };
                assert(end_at(seq![input], 0));
            } else {
                let batch = remap_end_batch(r, Mods(r.mods.0 & !e.mods.0), Mods(e.mods.0 & !r.mods.0));
                if batch.len() != 0 {
                    lemma_end_batch_end(r, Mods(r.mods.0 & !e.mods.0), Mods(e.mods.0 & !r.mods.0));
                }
            }
        },
        Some(CurrView::Unicode(e, ins)) => {
            if e.mods.0 != 0 {
                lemma_mods_batch_end(e.mods, true);
            }
        },
        _ => {},
    }
    if t.cmds.len() == 1 {
        lemma_tagged_small(t.cmds);
    }
}

proof fn lemma_key_up_tagged<F, A, R>(s: HState, key: Key, mb: Mods)
    requires
        tags_ok(s),
    ensures
        batches_tagged(spec_key_up::<F, A, R>(s, key, mb).cmds),
        tags_ok(spec_key_up::<F, A, R>(s, key, mb).s),
{
    let t = spec_key_up::<F, A, R>(s, key, mb);
    if !s.suppressed.contains_key(key.0) {
        match s.curr {
            Some(CurrView::Remap(e, r)) => {
                if key == e.key || e.mods.spec_has_any(mb) {
                    let on_entry = key == e.key;
                    let rel0 = if on_entry {
                        Mods(r.mods.0 & !e.mods.0)
                    } else {
                        Mods(r.mods.0 & (!e.mods.0 | mb.0))
                    };
                    let rest0 = if on_entry {
                        Mods(e.mods.0 & !r.mods.0)
                    } else {
                        Mods(e.mods.0 & !(r.mods.0 | mb.0))
                    };
                    if remap_end_batch(r, rel0, rest0).len() != 0 {
                        lemma_end_batch_end(r, rel0, rest0);
                    }
                }
            },
            Some(CurrView::Unicode(e, _)) => {
                if key == e.key {
                    if e.mods.0 != 0 {
                        lemma_mods_batch_end(e.mods, true);
                    }
                } else if e.mods.spec_has_any(mb) && Mods(e.mods.0 & !mb.0).0 != 0 {
                    lemma_mods_batch_end(Mods(e.mods.0 & !mb.0), true);
                }
            },
            Some(CurrView::Action(_)) => {
                lemma_mask_tap_end(key);
            },
            Some(CurrView::ActionRepeat(_)) => {
                lemma_mask_tap_end(key);
            },
            _ => {},
        }
    }
    lemma_tagged_small(t.cmds);
}

proof fn lemma_map_hotkey_tagged<F, A, R>(s: HState, e: KeyMods, res: Option<Hotkey<A, R>>)
    requires
        tags_ok(s),
        res matches Some(h) ==> hotkey_ok(h),
    ensures
        batches_tagged(spec_map_hotkey::<F, A, R>(s, e, res).cmds),
        tags_ok(spec_map_hotkey::<F, A, R>(s, e, res).s),
{
    let t = spec_map_hotkey::<F, A, R>(s, e, res);
    match res {
        Some(Hotkey::Remap(m, k)) => {
            lemma_start_batch_end(e, KeyMods { mods: m, key: k });
        },
        Some(Hotkey::Unicode(text)) => {
            let units = utf16_encode(text@);
            if units.len() != 0 {
                lemma_unicode_batch_end(units);
                if e.mods.0 != 0 {
                    let mask = unicode_mask(s.last_mod, e.mods);
                    lemma_all_next_masked(e.mods, mask);
                    lemma_mods_inputs_len(e.mods, false);
                    lemma_popcount_zero(e.mods.0);
                    lemma_mark_end(masked_release(e.mods, mask));
                }
            }
        },
        _ => {},
    }
    lemma_tagged_small(t.cmds);
}

proof fn lemma_wheel_resolve_tagged<F, A, R>(s: HState, e: KeyMods, res: Option<Hotkey<A, R>>)
    requires
        tags_ok(s),
        res matches Some(h) ==> hotkey_ok(h),
    ensures
        batches_tagged(spec_wheel_resolve::<F, A, R>(s, e, res).cmds),
        tags_ok(spec_wheel_resolve::<F, A, R>(s, e, res).s),
{
    let t = spec_wheel_resolve::<F, A, R>(s, e, res);
    match res {
        Some(Hotkey::Remap(m, k)) => {
            let r = KeyMods { mods: m, key: k };
            let rel = Mods(r.mods.0 & !e.mods.0);
            let rest = Mods(e.mods.0 & !(r.mods.0 | spec_get_mod(r.key).0));
            lemma_start_batch_end(e, r);
            lemma_all_next_opt(!spec_is_mouse_wheel(r.key.0), r.key, true);
            lemma_all_next_seg(end_mask(r, rel, rest));
            lemma_all_next_add(
                opt(!spec_is_mouse_wheel(r.key.0), key_input(r.key, true, CALL_NEXT)),
                mask_seg(end_mask(r, rel, rest)),
            );
            lemma_all_next_add(remap_start_batch(e, r), remap_end_batch(r, rel, rest));
            lemma_mark_end(wheel_remap_batch(e, r));
        },
        Some(Hotkey::Unicode(text)) => {
            let units = utf16_encode(text@);
            let batch = wheel_unicode_batch(s.last_mod, e.mods, units);
            if batch.len() != 0 {
                let mr = masked_release(e.mods, unicode_mask(s.last_mod, e.mods));
                lemma_all_next_masked(e.mods, unicode_mask(s.last_mod, e.mods));
                lemma_all_next_unicode(units);
                lemma_all_next_mods(e.mods, true);
                lemma_all_next_add(mr, unicode_inputs(units));
                lemma_all_next_add(mr + unicode_inputs(units), mods_inputs(e.mods, true));
                lemma_mark_end(batch);
            }
        },
        _ => {},
    }
    lemma_tagged_small(t.cmds);
}

/// Every batch that the handler sends for an event it does not hold back
/// has exactly one input tagged as its end, so that the hook counts each
/// batch out exactly once; a typed text kept for auto-repeat keeps that
/// shape too.
pub proof fn law_keybd_batches_tagged<F, A, R>(
    s: HState,
    hk: Map<u32, HotkeyHandler<F>>,
    key: Key,
    pressed: bool,
    suspended: bool,
)
    requires
        s.send_count == 0,
        tags_ok(s),
    ensures
        batches_tagged(spec_on_keybd::<F, A, R>(s, hk, key, pressed, suspended).cmds),
        tags_ok(spec_on_keybd::<F, A, R>(s, hk, key, pressed, suspended).s),
{
    let mb = spec_get_mod(key);
    if pressed {
        lemma_key_down_tagged::<F, A, R>(s, hk, key, mb, suspended, Cont::Kb(mb));
    } else {
        lemma_key_up_tagged::<F, A, R>(s, key, mb);
        lemma_mask_tap_end(key);
        lemma_tagged_push(spec_key_up::<F, A, R>(s, key, mb).cmds, CmdView::Send(mask_tap(key)));
    }
}

/// The same for mouse events.
pub proof fn law_mouse_batches_tagged<F, A, R>(
    s: HState,
    hk: Map<u32, HotkeyHandler<F>>,
    key: Key,
    pressed: bool,
    suspended: bool,
)
    requires
        s.send_count == 0,
        tags_ok(s),
    ensures
        batches_tagged(spec_on_mouse::<F, A, R>(s, hk, key, pressed, suspended).cmds),
        tags_ok(spec_on_mouse::<F, A, R>(s, hk, key, pressed, suspended).s),
{
    if pressed {
        lemma_key_down_tagged::<F, A, R>(s, hk, key, Mods(0), suspended, Cont::Ms);
    } else {
        lemma_key_up_tagged::<F, A, R>(s, key, Mods(0));
    }
}

/// The same for the resolution of a looked-up hotkey.
pub proof fn law_resolve_batches_tagged<F, A, R>(s: HState, res: Option<Hotkey<A, R>>)
    requires
        s.pending is Some,
        tags_ok(s),
        res matches Some(h) ==> hotkey_ok(h),
    ensures
        batches_tagged(spec_resolve::<F, A, R>(s, res).cmds),
        tags_ok(spec_resolve::<F, A, R>(s, res).s),
{
    let p = s.pending.unwrap();
    let s0 = HState { pending: None, ..s };
    lemma_map_hotkey_tagged::<F, A, R>(s0, p.entry, res);
    lemma_wheel_resolve_tagged::<F, A, R>(s0, p.entry, res);
}

/// Releasing a key whose modifier no hotkey used since it went down (or a
/// key that is no modifier) passes and sends nothing: a plain tap of Win or
/// Alt reaches the system as it is.
pub proof fn law_unused_mod_release_passes<F, A, R>(
    s: HState,
    hk: Map<u32, HotkeyHandler<F>>,
    key: Key,
    suspended: bool,
)
    requires
        s.send_count == 0,
        s.curr is None,
        !s.suppressed.contains_key(key.0),
        s.last_h_mods.0 & spec_get_mod(key).0 == 0,
    ensures
        ({
            let t = spec_on_keybd::<F, A, R>(s, hk, key, false, suspended);
            &&& t.v is Pass
            &&& t.cmds.len() == 0
            &&& t.s.send_count == 0
            &&& t.s.v_mods.0 == s.v_mods.0 & !spec_get_mod(key).0
        }),
{
    let x = s.v_mods.0;
    assert(x & !0u8 == x) by (bit_vector);
}

/// Releasing the modifier that was pressed last, when a hotkey used it and
/// no other modifier would hide its release, swallows the release and sends
/// it between a press and a release of LCtrl, as one batch.
pub proof fn law_used_mod_release_masked<F, A, R>(
    s: HState,
    hk: Map<u32, HotkeyHandler<F>>,
    key: Key,
    suspended: bool,
)
    requires
        s.send_count == 0,
        s.curr is None,
        !s.suppressed.contains_key(key.0),
        spec_get_mod(key).0 != 0,
        s.last_mod == spec_get_mod(key),
        s.last_h_mods.0 & spec_get_mod(key).0 != 0,
        spec_should_mask_last(spec_get_mod(key), s.v_mods),
    ensures
        ({
            let t = spec_on_keybd::<F, A, R>(s, hk, key, false, suspended);
            &&& t.v is Block
            &&& t.cmds == seq![
                CmdView::<A, R>::Send(
                    mark_end(
                        seq![
                            key_input(Key(keys::LCTRL), false, CALL_NEXT),
                            key_input(key, true, CALL_NEXT),
                            key_input(Key(keys::LCTRL), true, CALL_NEXT),
                        ],
                    ),
                ),
            ]
            &&& t.s.send_count == 1
            &&& t.s.v_mods.0 == s.v_mods.0 & !spec_get_mod(key).0
        }),
{
    assert(Seq::<CmdView<A, R>>::empty().push(CmdView::Send(mask_tap(key))) =~= seq![CmdView::<A, R>::Send(mask_tap(key))]);
}

} // verus!
