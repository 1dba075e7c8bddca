use vstd::prelude::*;
use super::keys::{self, Key, spec_is_mouse_key, spec_is_mouse_wheel, spec_is_mouse_button};
use super::mods::{self, Mods};
use super::hotkey::{KeyMods, Hotkey, utf16_encode};
use super::extensions::{Input, spec_keybd_down, spec_keybd_up, spec_mouse_down, spec_mouse_up};
use super::input_builder::{opt, key_input, mods_inputs, masked_release, unicode_inputs, unicode_batch, mark_end};
use super::masks::{spec_get_mod, spec_get_last_mod, spec_project_mods, spec_should_mask_projected,
    spec_should_mask_last, spec_mask_remap};
use super::constants::{CALL_NEXT, CALL_NEXT_END, CACHED_EVENT};

verus! {

/// The hotkey that is in progress, as the handler sees it.
pub enum CurrView {
    Default(KeyMods),
    /// The entry and the key with modifiers that it was remapped to.
    Remap(KeyMods, KeyMods),
    /// The entry and the inputs that type its text.
    Unicode(KeyMods, Seq<Input>),
    Action(KeyMods),
    ActionRepeat(KeyMods),
}

/// Where the handling of a key resumes once its hotkey has been looked up.
#[derive(Clone, Copy, PartialEq, Eq, Structural, Debug)]
pub enum Cont {
    /// A keyboard press; the modifier bit of the key.
    Kb(Mods),
    /// A mouse button press.
    Ms,
    /// A wheel notch.
    Wheel,
}

/// A hotkey whose function the caller has to run before the handler goes on.
#[derive(Clone, Copy, PartialEq, Eq, Structural, Debug)]
pub struct Pending {
    pub entry: KeyMods,
    pub cont: Cont,
}

/// The state of the handler.
pub struct HState {
    /// Keys swallowed until they are released, and whether only once.
    pub suppressed: Map<u16, bool>,
    pub curr: Option<CurrView>,
    /// The modifiers that the system believes to be down.
    pub v_mods: Mods,
    /// Batches sent and not yet come back through the hooks.
    pub send_count: nat,
    /// The modifier pressed last, if it is still the last event.
    pub last_mod: Mods,
    /// The modifiers of the last hotkey.
    pub last_h_mods: Mods,
    pub pending: Option<Pending>,
}

/// What the handler tells the hook to do with the event.
#[derive(Clone, Copy, PartialEq, Eq, Structural, Debug)]
pub enum Verdict<F> {
    /// Let the event through.
    Pass,
    /// Swallow the event.
    Block,
    /// Run this hotkey function and hand its result to [`super::handler::Handler::resolve`].
    Lookup(F),
}

/// A command of the handler, as its contracts see it.
pub enum CmdView<A, R> {
    /// Send these inputs.
    Send(Seq<Input>),
    /// Start this action with an event of the key's release.
    Action(A),
    /// Run this action once.
    ActionOnce(R),
    /// Start this action, repeated on every signal.
    ActionRepeat(R),
    /// Signal the release of the key to the running action.
    Notify,
    /// Signal a repeat to the running action.
    Tick,
}

/// A transition: the next state, the verdict, and the commands in order.
pub struct Trans<F, A, R> {
    pub s: HState,
    pub v: Verdict<F>,
    pub cmds: Seq<CmdView<A, R>>,
}

/// A registered hotkey function, and whether it works while suspended.
#[derive(Clone, Copy)]
pub struct HotkeyHandler<F> {
    pub func: F,
    pub exempt: bool,
}

/// The integer under which a key with modifiers is registered.
pub open spec fn km_code(e: KeyMods) -> u32 {
    (e.mods.0 as u32 * 0x10000 + e.key.0 as u32) as u32
}

pub open spec fn spec_get_hotkey<F>(hk: Map<u32, HotkeyHandler<F>>, e: KeyMods, suspended: bool) -> Option<
    HotkeyHandler<F>,
> {
    let c = km_code(e);
    if hk.contains_key(c) && (hk[c].exempt || !suspended) {
        Some(hk[c])
    } else {
        None
    }
}

pub open spec fn pass<F, A, R>(s: HState) -> Trans<F, A, R> {
    Trans { s, v: Verdict::Pass, cmds: Seq::empty() }
}

pub open spec fn block<F, A, R>(s: HState) -> Trans<F, A, R> {
    Trans { s, v: Verdict::Block, cmds: Seq::empty() }
}

/// One more batch in flight.
pub open spec fn sent(s: HState) -> HState {
    HState { send_count: s.send_count + 1, ..s }
}

pub open spec fn with_pending(s: HState, p: Pending) -> HState {
    HState { pending: Some(p), ..s }
}

/// LCtrl tapped around the release of `key`, so that the release of a lone
/// Alt or Win does not open a menu.
pub open spec fn mask_tap(key: Key) -> Seq<Input> {
    mark_end(
        seq![
            key_input(Key(keys::LCTRL), false, CALL_NEXT),
            key_input(key, true, CALL_NEXT),
            key_input(Key(keys::LCTRL), true, CALL_NEXT),
        ],
    )
}

/// The inputs of a mask decision around the release of `up` and the press of `down`.
pub open spec fn mask_seg(m: (Key, bool, bool, Mods, Mods)) -> Seq<Input> {
    opt(m.1, key_input(m.0, false, CALL_NEXT)) + mods_inputs(m.3, false) + mods_inputs(m.4, true) + opt(
        m.2,
        key_input(m.0, true, CALL_NEXT),
    )
}

/// The mask decision when a remap starts.
pub open spec fn start_mask(e: KeyMods, r: KeyMods) -> (Key, bool, bool, Mods, Mods) {
    let rel0 = Mods(e.mods.0 & !(r.mods.0 | spec_get_mod(r.key).0));
    let press0 = Mods(r.mods.0 & !e.mods.0);
    let pr = spec_project_mods(rel0);
    spec_mask_remap(spec_should_mask_projected(pr, e.mods), pr, rel0, press0)
}

/// The inputs that start a remap: the entry's modifiers swapped for the
/// remap's, then the press of the remapped key.
pub open spec fn remap_start_batch(e: KeyMods, r: KeyMods) -> Seq<Input> {
    mask_seg(start_mask(e, r)) + seq![key_input(r.key, false, CALL_NEXT)]
}

/// The mask decision when a remap ends, releasing `rel0` and restoring `rest0`.
pub open spec fn end_mask(r: KeyMods, rel0: Mods, rest0: Mods) -> (Key, bool, bool, Mods, Mods) {
    let pr = spec_project_mods(rel0);
    spec_mask_remap(spec_is_mouse_key(r.key.0) && spec_should_mask_projected(pr, r.mods), pr, rel0, rest0)
}

/// The inputs that end a remap: the release of the remapped key (but for a
/// wheel), then the modifier swap back.
pub open spec fn remap_end_batch(r: KeyMods, rel0: Mods, rest0: Mods) -> Seq<Input> {
    opt(!spec_is_mouse_wheel(r.key.0), key_input(r.key, true, CALL_NEXT)) + mask_seg(end_mask(r, rel0, rest0))
}

pub open spec fn lookup_call<F, A, R>(
    s: HState,
    hk: Map<u32, HotkeyHandler<F>>,
    e: KeyMods,
    suspended: bool,
    cont: Cont,
) -> Trans<F, A, R> {
    match spec_get_hotkey(hk, e, suspended) {
        Some(h) => Trans {
            s: with_pending(s, Pending { entry: e, cont }),
            v: Verdict::Lookup(h.func),
            cmds: Seq::empty(),
        },
        None => pass(s),
    }
}

/// A keyboard press that went through: it is the last modifier now.
pub open spec fn finish_kb<F, A, R>(t: Trans<F, A, R>, mb: Mods) -> Trans<F, A, R> {
    if t.v is Pass {
        Trans { s: HState { last_mod: mb, v_mods: Mods(t.s.v_mods.0 | mb.0), ..t.s }, ..t }
    } else {
        t
    }
}

pub open spec fn spec_remap<F, A, R>(s: HState, e: KeyMods, r: KeyMods) -> Trans<F, A, R> {
    Trans {
        s: sent(
            HState {
                v_mods: Mods(r.mods.0 | spec_get_mod(r.key).0),
                curr: Some(CurrView::Remap(e, r)),
                ..s
            },
        ),
        v: Verdict::Block,
        cmds: seq![CmdView::Send(mark_end(remap_start_batch(e, r)))],
    }
}

pub open spec fn spec_remap_up<F, A, R>(s: HState, e: KeyMods, r: KeyMods, key: Key, mb: Mods) -> Trans<
    F,
    A,
    R,
> {
    if key != e.key && !e.mods.spec_has_any(mb) {
        pass(s)
    } else {
        let on_entry = key == e.key;
        let rel0 = if on_entry {
            Mods(r.mods.0 & !e.mods.0)
        } else {
            Mods(r.mods.0 & (!e.mods.0 | mb.0))
        };
        let rest0 = if on_entry {
            Mods(e.mods.0 & !r.mods.0)
        } else {
            Mods(e.mods.0 & !(r.mods.0 | mb.0))
        };
        let lh = if on_entry {
            e.mods
        } else {
            Mods(e.mods.0 & !mb.0)
        };
        let s1 = HState {
            suppressed: if on_entry {
                s.suppressed
            } else {
                s.suppressed.insert(e.key.0, false)
            },
            curr: None,
            v_mods: Mods((s.v_mods.0 & !(rel0.0 | spec_get_mod(r.key).0)) | rest0.0),
            ..s
        };
        let m = end_mask(r, rel0, rest0);
        let batch = remap_end_batch(r, rel0, rest0);
        if batch.len() == 0 {
            block(s1)
        } else {
            Trans {
                s: sent(
                    HState {
                        last_h_mods: lh,
                        last_mod: if !m.2 {
                            spec_get_last_mod(m.4)
                        } else {
                            Mods(mods::NONE)
                        },
                        ..s1
                    },
                ),
                v: Verdict::Block,
                cmds: seq![CmdView::Send(mark_end(batch))],
            }
        }
    }
}

pub open spec fn spec_remap_repeat<F, A, R>(
    s: HState,
    hk: Map<u32, HotkeyHandler<F>>,
    e: KeyMods,
    r: KeyMods,
    key: Key,
    mb: Mods,
    suspended: bool,
    cont: Cont,
) -> Trans<F, A, R> {
    if key == e.key {
        let k = r.key;
        if spec_is_mouse_button(k.0) {
            block(s)
        } else if key == k {
            pass(s)
        } else {
            let input = if spec_is_mouse_wheel(k.0) {
                spec_mouse_down(k, CALL_NEXT_END)
            } else {
                spec_keybd_down(k, CALL_NEXT_END)
            };
            Trans { s: sent(s), v: Verdict::Block, cmds: seq![CmdView::Send(seq![input])] }
        }
    } else if e.mods.spec_has_any(mb) {
        block(s)
    } else if spec_get_mod(r.key).0 != 0 {
        pass(s)
    } else {
        let ph = KeyMods { mods: Mods((s.v_mods.0 & !r.mods.0) | e.mods.0), key };
        match spec_get_hotkey(hk, ph, suspended) {
            None => pass(s),
            Some(h) => {
                let s1 = HState {
                    curr: None,
                    v_mods: ph.mods,
                    suppressed: s.suppressed.insert(e.key.0, false),
                    ..s
                };
                let batch = remap_end_batch(r, Mods(r.mods.0 & !e.mods.0), Mods(e.mods.0 & !r.mods.0));
                let p = Pending { entry: ph, cont };
                if batch.len() == 0 {
                    Trans { s: with_pending(s1, p), v: Verdict::Lookup(h.func), cmds: Seq::empty() }
                } else {
                    Trans {
                        s: with_pending(sent(s1), p),
                        v: Verdict::Lookup(h.func),
                        cmds: seq![CmdView::Send(mark_end(batch))],
                    }
                }
            },
        }
    }
}

/// Whether the release of `m` needs a mask: Alt or Win alone, just after a modifier press.
pub open spec fn unicode_mask(last_mod: Mods, m: Mods) -> bool {
    last_mod.0 != 0 && (spec_project_mods(m).0 == mods::LA_RA || spec_project_mods(m).0 == mods::LW_RW)
}

pub open spec fn spec_unicode<F, A, R>(s: HState, e: KeyMods, units: Seq<u16>) -> Trans<F, A, R> {
    if units.len() == 0 {
        block(s)
    } else {
        let inputs = unicode_batch(units);
        let s1 = HState { v_mods: Mods(mods::NONE), curr: Some(CurrView::Unicode(e, inputs)), ..s };
        if e.mods.0 != 0 {
            Trans {
                s: sent(sent(s1)),
                v: Verdict::Block,
                cmds: seq![
                    CmdView::Send(mark_end(masked_release(e.mods, unicode_mask(s.last_mod, e.mods)))),
                    CmdView::Send(inputs),
                ],
            }
        } else {
            Trans { s: sent(s1), v: Verdict::Block, cmds: seq![CmdView::Send(inputs)] }
        }
    }
}

pub open spec fn spec_unicode_up<F, A, R>(s: HState, e: KeyMods, key: Key, mb: Mods) -> Trans<F, A, R> {
    if key != e.key && !e.mods.spec_has_any(mb) {
        pass(s)
    } else {
        let on_entry = key == e.key;
        let rest = if on_entry {
            e.mods
        } else {
            Mods(e.mods.0 & !mb.0)
        };
        let s1 = HState {
            suppressed: if on_entry {
                s.suppressed
            } else {
                s.suppressed.insert(e.key.0, false)
            },
            curr: None,
            v_mods: Mods(s.v_mods.0 | rest.0),
            ..s
        };
        if rest.0 != 0 {
            Trans {
                s: sent(HState { last_h_mods: rest, last_mod: spec_get_last_mod(rest), ..s1 }),
                v: Verdict::Block,
                cmds: seq![CmdView::Send(mark_end(mods_inputs(rest, true)))],
            }
        } else {
            block(s1)
        }
    }
}

pub open spec fn spec_unicode_repeat<F, A, R>(
    s: HState,
    hk: Map<u32, HotkeyHandler<F>>,
    e: KeyMods,
    inputs: Seq<Input>,
    key: Key,
    mb: Mods,
    suspended: bool,
    cont: Cont,
) -> Trans<F, A, R> {
    if key == e.key {
        Trans { s: sent(s), v: Verdict::Block, cmds: seq![CmdView::Send(inputs)] }
    } else if e.mods.spec_has_any(mb) {
        block(s)
    } else {
        let ph = KeyMods { mods: Mods(s.v_mods.0 | e.mods.0), key };
        match spec_get_hotkey(hk, ph, suspended) {
            None => pass(s),
            Some(h) => {
                let s1 = HState {
                    curr: None,
                    v_mods: Mods(s.v_mods.0 | e.mods.0),
                    suppressed: s.suppressed.insert(e.key.0, false),
                    ..s
                };
                let p = Pending { entry: ph, cont };
                if e.mods.0 != 0 {
                    Trans {
                        s: with_pending(sent(s1), p),
                        v: Verdict::Lookup(h.func),
                        cmds: seq![CmdView::Send(mark_end(mods_inputs(e.mods, true)))],
                    }
                } else {
                    Trans { s: with_pending(s1, p), v: Verdict::Lookup(h.func), cmds: Seq::empty() }
                }
            },
        }
    }
}

pub open spec fn spec_action_up<F, A, R>(s: HState, e: KeyMods, key: Key, mb: Mods, notify: bool) -> Trans<
    F,
    A,
    R,
> {
    if key == e.key {
        Trans {
            s: HState { curr: None, last_h_mods: Mods(e.mods.0 & s.v_mods.0), ..s },
            v: Verdict::Block,
            cmds: if notify {
                seq![CmdView::Notify]
            } else {
                Seq::empty()
            },
        }
    } else if e.mods.spec_has_any(mb) && mb == s.last_mod && spec_should_mask_last(mb, s.v_mods) {
        Trans {
            s: sent(
                HState {
                    v_mods: Mods(s.v_mods.0 & !mb.0),
                    last_h_mods: Mods(s.last_h_mods.0 & !mb.0),
                    last_mod: Mods(mods::NONE),
                    ..s
                },
            ),
            v: Verdict::Block,
            cmds: seq![CmdView::Send(mask_tap(key))],
        }
    } else {
        pass(s)
    }
}

pub open spec fn spec_map_hotkey<F, A, R>(s: HState, e: KeyMods, res: Option<Hotkey<A, R>>) -> Trans<F, A, R> {
    match res {
        None => block(s),
        Some(h) => match h {
            Hotkey::Default => pass(HState { curr: Some(CurrView::Default(e)), ..s }),
            Hotkey::Suppress => block(
                HState { suppressed: s.suppressed.insert(e.key.0, false), last_h_mods: e.mods, ..s },
            ),
            Hotkey::SuppressOnce => block(
                HState { suppressed: s.suppressed.insert(e.key.0, true), last_h_mods: e.mods, ..s },
            ),
            Hotkey::Remap(m, k) => spec_remap(s, e, KeyMods { mods: m, key: k }),
            Hotkey::Unicode(text) => spec_unicode(s, e, utf16_encode(text@)),
            Hotkey::Action(a) => Trans {
                s: HState { curr: Some(CurrView::Action(e)), ..s },
                v: Verdict::Block,
                cmds: seq![CmdView::Action(a)],
            },
            Hotkey::ActionRepeat(r) => Trans {
                s: HState { curr: Some(CurrView::ActionRepeat(e)), ..s },
                v: Verdict::Block,
                cmds: seq![CmdView::ActionRepeat(r)],
            },
        },
    }
}

pub open spec fn spec_key_down<F, A, R>(
    s: HState,
    hk: Map<u32, HotkeyHandler<F>>,
    key: Key,
    mb: Mods,
    suspended: bool,
    cont: Cont,
) -> Trans<F, A, R> {
    if s.suppressed.contains_key(key.0) && !s.suppressed[key.0] {
        block(s)
    } else {
        let s0 = if s.suppressed.contains_key(key.0) {
            HState { suppressed: s.suppressed.remove(key.0), ..s }
        } else {
            s
        };
        match s0.curr {
            Some(c) => match c {
                CurrView::Default(e) => if key != e.key && e.mods.spec_has_any(mb) {
                    block(s0)
                } else {
                    pass(s0)
                },
                CurrView::Remap(e, r) => spec_remap_repeat(s0, hk, e, r, key, mb, suspended, cont),
                CurrView::Unicode(e, ins) => spec_unicode_repeat(s0, hk, e, ins, key, mb, suspended, cont),
                CurrView::Action(e) => if key == e.key || e.mods.spec_has_any(mb) {
                    block(s0)
                } else {
                    pass(s0)
                },
                CurrView::ActionRepeat(e) => if key == e.key {
                    Trans { s: s0, v: Verdict::Block, cmds: seq![CmdView::Tick] }
                } else if e.mods.spec_has_any(mb) {
                    block(s0)
                } else {
                    pass(s0)
                },
            },
            None => lookup_call(s0, hk, KeyMods { mods: s0.v_mods, key }, suspended, cont),
        }
    }
}

pub open spec fn spec_key_up<F, A, R>(s: HState, key: Key, mb: Mods) -> Trans<F, A, R> {
    if s.suppressed.contains_key(key.0) {
        block(HState { suppressed: s.suppressed.remove(key.0), ..s })
    } else {
        match s.curr {
            Some(c) => match c {
                CurrView::Default(e) => if e.key == key || e.mods.spec_has_any(mb) {
                    pass(HState { curr: None, ..s })
                } else {
                    pass(s)
                },
                CurrView::Remap(e, r) => spec_remap_up(s, e, r, key, mb),
                CurrView::Unicode(e, _) => spec_unicode_up(s, e, key, mb),
                CurrView::Action(e) => spec_action_up(s, e, key, mb, true),
                CurrView::ActionRepeat(e) => spec_action_up(s, e, key, mb, false),
            },
            None => pass(s),
        }
    }
}

/// A keyboard event, after the handler's own inputs were let through.
pub open spec fn spec_handle_kb<F, A, R>(
    s: HState,
    hk: Map<u32, HotkeyHandler<F>>,
    key: Key,
    pressed: bool,
    suspended: bool,
) -> Trans<F, A, R> {
    let mb = spec_get_mod(key);
    if pressed {
        finish_kb(spec_key_down(s, hk, key, mb, suspended, Cont::Kb(mb)), mb)
    } else {
        let t = spec_key_up::<F, A, R>(s, key, mb);
        if t.v is Block || mb.0 == 0 {
            t
        } else {
            let s1 = t.s;
            let masked = s1.last_mod == mb && s1.last_h_mods.spec_has_any(mb) && spec_should_mask_last(
                mb,
                s1.v_mods,
            );
            let s2 = if masked {
                sent(s1)
            } else {
                s1
            };
            Trans {
                s: HState {
                    v_mods: Mods(s1.v_mods.0 & !mb.0),
                    last_h_mods: Mods(s1.last_h_mods.0 & !mb.0),
                    last_mod: Mods(mods::NONE),
                    ..s2
                },
                v: if masked {
                    Verdict::Block
                } else {
                    Verdict::Pass
                },
                cmds: if masked {
                    t.cmds.push(CmdView::Send(mask_tap(key)))
                } else {
                    t.cmds
                },
            }
        }
    }
}

pub open spec fn spec_wheel<F, A, R>(s: HState, hk: Map<u32, HotkeyHandler<F>>, key: Key, suspended: bool) -> Trans<
    F,
    A,
    R,
> {
    if s.curr is Some {
        pass(s)
    } else {
        lookup_call(s, hk, KeyMods { mods: s.v_mods, key }, suspended, Cont::Wheel)
    }
}

/// The inputs of a remap on a wheel notch: the whole remap at once.
pub open spec fn wheel_remap_batch(e: KeyMods, r: KeyMods) -> Seq<Input> {
    remap_start_batch(e, r) + remap_end_batch(
        r,
        Mods(r.mods.0 & !e.mods.0),
        Mods(e.mods.0 & !(r.mods.0 | spec_get_mod(r.key).0)),
    )
}

pub open spec fn wheel_end_mask(e: KeyMods, r: KeyMods) -> (Key, bool, bool, Mods, Mods) {
    end_mask(r, Mods(r.mods.0 & !e.mods.0), Mods(e.mods.0 & !(r.mods.0 | spec_get_mod(r.key).0)))
}

/// The inputs that type a text on a wheel notch, the entry's modifiers
/// released around it.
pub open spec fn wheel_unicode_batch(last_mod: Mods, m: Mods, units: Seq<u16>) -> Seq<Input> {
    masked_release(m, unicode_mask(last_mod, m)) + unicode_inputs(units) + mods_inputs(m, true)
}

pub open spec fn spec_wheel_resolve<F, A, R>(s: HState, e: KeyMods, res: Option<Hotkey<A, R>>) -> Trans<
    F,
    A,
    R,
> {
    match res {
        None => block(s),
        Some(h) => {
            let s1 = HState { last_h_mods: e.mods, ..s };
            match h {
                Hotkey::Default => pass(s1),
                Hotkey::Suppress => block(s1),
                Hotkey::SuppressOnce => block(s1),
                Hotkey::Remap(m, k) => {
                    let r = KeyMods { mods: m, key: k };
                    let m2 = wheel_end_mask(e, r);
                    Trans {
                        s: sent(
                            HState {
                                last_mod: if !m2.2 {
                                    spec_get_last_mod(m2.4)
                                } else {
                                    Mods(mods::NONE)
                                },
                                ..s1
                            },
                        ),
                        v: Verdict::Block,
                        cmds: seq![CmdView::Send(mark_end(wheel_remap_batch(e, r)))],
                    }
                },
                Hotkey::Unicode(text) => {
                    let batch = wheel_unicode_batch(s.last_mod, e.mods, utf16_encode(text@));
                    if batch.len() == 0 {
                        block(s1)
                    } else {
                        Trans {
                            s: sent(HState { last_mod: spec_get_last_mod(e.mods), ..s1 }),
                            v: Verdict::Block,
                            cmds: seq![CmdView::Send(mark_end(batch))],
                        }
                    }
                },
                Hotkey::Action(a) => Trans {
                    s: s1,
                    v: Verdict::Block,
                    cmds: seq![CmdView::Notify, CmdView::Action(a)],
                },
                Hotkey::ActionRepeat(r) => Trans {
                    s: s1,
                    v: Verdict::Block,
                    cmds: seq![CmdView::ActionOnce(r)],
                },
            }
        },
    }
}

/// A mouse event, after the handler's own inputs were let through.
pub open spec fn spec_handle_ms<F, A, R>(
    s: HState,
    hk: Map<u32, HotkeyHandler<F>>,
    key: Key,
    pressed: bool,
    suspended: bool,
) -> Trans<F, A, R> {
    if pressed {
        if spec_is_mouse_wheel(key.0) {
            spec_wheel(s, hk, key, suspended)
        } else {
            spec_key_down(s, hk, key, Mods(mods::NONE), suspended, Cont::Ms)
        }
    } else {
        spec_key_up(s, key, Mods(mods::NONE))
    }
}

/// The rest of an event once its hotkey function has returned (`None`: it failed).
pub open spec fn spec_resolve<F, A, R>(s: HState, res: Option<Hotkey<A, R>>) -> Trans<F, A, R>
    recommends
        s.pending is Some,
{
    let p = s.pending.unwrap();
    let s0 = HState { pending: None, ..s };
    match p.cont {
        Cont::Kb(mb) => finish_kb(spec_map_hotkey(s0, p.entry, res), mb),
        Cont::Ms => spec_map_hotkey(s0, p.entry, res),
        Cont::Wheel => spec_wheel_resolve(s0, p.entry, res),
    }
}

/// A keyboard event that is not one of the handler's own inputs. While
/// batches are in flight, every event is held back, and a release is sent
/// again after them.
pub open spec fn spec_on_keybd<F, A, R>(
    s: HState,
    hk: Map<u32, HotkeyHandler<F>>,
    key: Key,
    pressed: bool,
    suspended: bool,
) -> Trans<F, A, R> {
    if s.send_count != 0 {
        Trans {
            s,
            v: Verdict::Block,
            cmds: if !pressed {
                seq![CmdView::Send(seq![spec_keybd_up(key, CACHED_EVENT)])]
            } else {
                Seq::empty()
            },
        }
    } else {
        spec_handle_kb(s, hk, key, pressed, suspended)
    }
}

/// A mouse event that is not one of the handler's own inputs.
pub open spec fn spec_on_mouse<F, A, R>(
    s: HState,
    hk: Map<u32, HotkeyHandler<F>>,
    key: Key,
    pressed: bool,
    suspended: bool,
) -> Trans<F, A, R> {
    if s.send_count != 0 {
        Trans {
            s,
            v: Verdict::Block,
            cmds: if !pressed {
                seq![CmdView::Send(seq![spec_mouse_up(key, CACHED_EVENT)])]
            } else {
                Seq::empty()
            },
        }
    } else {
        spec_handle_ms(s, hk, key, pressed, suspended)
    }
}

} // verus!
