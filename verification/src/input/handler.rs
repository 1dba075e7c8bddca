use vstd::prelude::*;
use std::collections::HashMap;
use std::sync::mpsc::{Sender, SyncSender};
use super::keys::{self, Key, spec_is_mouse_key, spec_is_mouse_wheel, spec_is_mouse_button};
use super::mods::{self, Mods, popcount, lemma_popcount_disjoint_union, lemma_popcount_zero};
use super::hotkey::{KeyMods, Hotkey, hotkey_ok, remap_key_ok, utf16_encode, encode_utf16};
use super::extensions::{Input, sendable, valid_mouse_code, spec_keybd_up, spec_mouse_up};
use super::input_builder::{InputBuilder, opt, key_input, mods_inputs, masked_release, unicode_inputs, mark_end,
    units_paired, releasable, lemma_mods_inputs_len, lemma_unicode_inputs_len, fill_chars, unicode_batch, copy_inputs};
use super::masks::{lemma_mask_remap_props, lemma_mod_key_keybd, spec_should_mask_projected, get_mod, get_last_mod, project_mods, should_mask_last, mask_remap_start, mask_remap_end,
    spec_get_mod, spec_project_mods};
use super::key_event::{KeyEvent, KeyEventNotifier, RepeatSignal, RepeatTicker, repeat_channel};
use super::constants::{CALL_NEXT, CALL_NEXT_END, CACHED_EVENT};
use super::handler_spec::{CurrView, Cont, Pending, HState, Verdict, CmdView, Trans, HotkeyHandler, km_code,
    spec_get_hotkey, lookup_call, mask_tap, mask_seg, start_mask, end_mask, remap_start_batch, remap_end_batch,
    unicode_mask, spec_remap, spec_remap_up, spec_remap_repeat, spec_unicode, spec_unicode_up,
    spec_unicode_repeat, spec_action_up, spec_map_hotkey, spec_key_down, spec_key_up, spec_handle_kb, spec_wheel,
    spec_wheel_resolve, wheel_remap_batch, wheel_end_mask, wheel_unicode_batch, spec_handle_ms, spec_resolve,
    spec_on_keybd, spec_on_mouse, sent};

verus! {

broadcast use vstd::std_specs::hash::group_hash_axioms;

/// A batch of inputs to send.
pub enum InputMsg {
    Single(Input),
    Many(Vec<Input>),
}

impl InputMsg {
    pub open spec fn view(&self) -> Seq<Input> {
        match self {
            InputMsg::Single(i) => seq![*i],
            InputMsg::Many(v) => v@,
        }
    }
}

/// Work that the handler hands to its caller, in order.
pub enum Command<A, R> {
    /// Send these inputs.
    Send(InputMsg),
    /// Start the action on a new thread with this event.
    Action(A, KeyEvent),
    /// Run the action once on a new thread.
    ActionOnce(R),
    /// Start the action on a new thread, and run it again on every signal
    /// of the repeat channel until it fails or the ticker is gone.
    ActionRepeat(R, RepeatSignal),
    /// Signal the release of the key.
    Notify(KeyEventNotifier),
    /// Signal a repeat without blocking; a vanished receiver is a fault.
    Tick(RepeatTicker),
}

impl<A, R> Command<A, R> {
    pub open spec fn view(&self) -> CmdView<A, R> {
        match self {
            Command::Send(m) => CmdView::Send(m.view()),
            Command::Action(a, _) => CmdView::Action(*a),
            Command::ActionOnce(r) => CmdView::ActionOnce(*r),
            Command::ActionRepeat(r, _) => CmdView::ActionRepeat(*r),
            Command::Notify(_) => CmdView::Notify,
            Command::Tick(_) => CmdView::Tick,
        }
    }
}

pub open spec fn cmds_view<A, R>(s: Seq<Command<A, R>>) -> Seq<CmdView<A, R>> {
    s.map_values(|c: Command<A, R>| c.view())
}

impl<A, R> Command<A, R> {
    /// The channel whose release signal the event of a started action waits for.
    pub open spec fn event_channel(&self) -> Option<Sender<()>> {
        match self {
            Command::Action(_, e) => Some(e.channel()),
            _ => None,
        }
    }

    /// The channel that a release signal goes to.
    pub open spec fn notify_channel(&self) -> Option<Sender<()>> {
        match self {
            Command::Notify(n) => Some(n.channel()),
            _ => None,
        }
    }

    /// The repeat channel that a started repeated action waits on.
    pub open spec fn signal_channel(&self) -> Option<SyncSender<()>> {
        match self {
            Command::ActionRepeat(_, sig) => Some(sig.channel()),
            _ => None,
        }
    }

    /// The repeat channel that a tick goes to.
    pub open spec fn tick_channel(&self) -> Option<SyncSender<()>> {
        match self {
            Command::Tick(t) => Some(t.channel()),
            _ => None,
        }
    }

    /// A command that handles no channel.
    pub open spec fn plain(&self) -> bool {
        &&& self.event_channel() is None
        &&& self.notify_channel() is None
        &&& self.signal_channel() is None
        &&& self.tick_channel() is None
    }
}

/// Whether the commands from `lo` on start an action that waits on channel `c`.
pub open spec fn starts_event<A, R>(cmds: Seq<Command<A, R>>, lo: int, c: Sender<()>) -> bool {
    exists|j: int| lo <= j < cmds.len() && #[trigger] cmds[j].event_channel() == Some(c)
}

/// Whether the commands from `lo` signal a release on channel `c`.
pub open spec fn notifies<A, R>(cmds: Seq<Command<A, R>>, lo: int, c: Sender<()>) -> bool {
    exists|j: int| lo <= j < cmds.len() && #[trigger] cmds[j].notify_channel() == Some(c)
}

/// Whether the commands from `lo` start a repeated action on repeat channel `c`.
pub open spec fn starts_repeat<A, R>(cmds: Seq<Command<A, R>>, lo: int, c: SyncSender<()>) -> bool {
    exists|j: int| lo <= j < cmds.len() && #[trigger] cmds[j].signal_channel() == Some(c)
}

/// Whether no command from `lo` on handles a channel.
pub open spec fn all_plain<A, R>(cmds: Seq<Command<A, R>>, lo: int) -> bool {
    forall|i: int| lo <= i < cmds.len() ==> (#[trigger] cmds[i]).plain()
}

/// How one command's channel is tied to the handler before (`pre`) and
/// after (`post`) the step that sent the commands from `lo` on.
pub open spec fn cmd_paired<F: Copy, A, R>(
    pre: Handler<F>,
    post: Handler<F>,
    cmds: Seq<Command<A, R>>,
    lo: int,
    c: Command<A, R>,
) -> bool {
    // a release signal goes to the running action, or to the action started with it
    &&& (c.notify_channel() matches Some(ch) ==> pre.curr_action() == Some(ch) || starts_event(cmds, lo, ch))
    // a started action waits on the channel that the handler keeps to signal the
    // release of its key, or that a release signal of the same step goes to
    &&& (c.event_channel() matches Some(ch) ==> post.curr_action() == Some(ch) || notifies(cmds, lo, ch))
    // a started repeated action waits on the repeat channel that the handler keeps
    &&& (c.signal_channel() matches Some(ch) ==> post.curr_repeat() == Some(ch))
    // a tick goes to the running repeated action
    &&& (c.tick_channel() matches Some(ch) ==> pre.curr_repeat() == Some(ch))
}

/// The channels of a step are paired: each command's channel is tied as
/// [`cmd_paired`] says, and the channel that the handler keeps after the
/// step is the one it kept before, or one of an action that the step started.
pub open spec fn channels_paired<F: Copy, A, R>(
    pre: Handler<F>,
    post: Handler<F>,
    cmds: Seq<Command<A, R>>,
    lo: int,
) -> bool {
    &&& forall|i: int| lo <= i < cmds.len() ==> cmd_paired(pre, post, cmds, lo, #[trigger] cmds[i])
    &&& (post.curr_action() matches Some(ch) ==> pre.curr_action() == Some(ch) || starts_event(cmds, lo, ch))
    &&& (post.curr_repeat() matches Some(ch) ==> pre.curr_repeat() == Some(ch) || starts_repeat(cmds, lo, ch))
}

/// The handler keeps no channel but the one it kept before.
pub open spec fn keeps_channels<F: Copy>(pre: Handler<F>, post: Handler<F>) -> bool {
    &&& (post.curr_action() is Some ==> post.curr_action() == pre.curr_action())
    &&& (post.curr_repeat() is Some ==> post.curr_repeat() == pre.curr_repeat())
}

/// The verdict on an event, and the work to do for it.
pub struct Step<F, A, R> {
    pub verdict: Verdict<F>,
    pub commands: Vec<Command<A, R>>,
}

enum CurrHotkey {
    Default(KeyMods),
    Remap(KeyMods, KeyMods),
    Unicode(KeyMods, Vec<Input>),
    Action(KeyMods, KeyEventNotifier),
    ActionRepeat(KeyMods, RepeatTicker),
}

spec fn curr_view(c: Option<CurrHotkey>) -> Option<CurrView> {
    match c {
        None => None,
        Some(h) => Some(
            match h {
                CurrHotkey::Default(e) => CurrView::Default(e),
                CurrHotkey::Remap(e, r) => CurrView::Remap(e, r),
                CurrHotkey::Unicode(e, v) => CurrView::Unicode(e, v@),
                CurrHotkey::Action(e, _) => CurrView::Action(e),
                CurrHotkey::ActionRepeat(e, _) => CurrView::ActionRepeat(e),
            },
        ),
    }
}

/// The hotkey handler: decides, for each keyboard and mouse event, whether
/// it goes through, and what to send in its place.
pub struct Handler<F> {
    hotkeys: HashMap<u32, HotkeyHandler<F>>,
    suppressed: HashMap<u16, bool>,
    curr_h: Option<CurrHotkey>,
    v_mods: Mods,
    send_count: u8,
    last_mod: Mods,
    last_h_mods: Mods,
    pending: Option<Pending>,
}

/// Whether the handler can carry out what it is in the middle of: a remap
/// in progress targets a key that can be sent.
pub open spec fn state_ok(s: HState) -> bool {
    match s.curr {
        Some(CurrView::Remap(_, r)) => remap_key_ok(r.key),
        _ => true,
    }
}

/// What a mouse hook reports: only a button is released (a wheel notch has no release).
pub open spec fn mouse_key(key: Key, pressed: bool) -> bool {
    !pressed ==> spec_is_mouse_button(key.0)
}

/// Room for the batches that one call may send.
pub open spec fn room(s: HState) -> bool {
    s.send_count + 2 <= 255
}

impl<F: Copy> Handler<F> {
    pub closed spec fn view(&self) -> HState {
        HState {
            suppressed: self.suppressed@,
            curr: curr_view(self.curr_h),
            v_mods: self.v_mods,
            send_count: self.send_count as nat,
            last_mod: self.last_mod,
            last_h_mods: self.last_h_mods,
            pending: self.pending,
        }
    }

    /// The channel on which the running action learns of its key's release.
    pub closed spec fn curr_action(&self) -> Option<Sender<()>> {
        match self.curr_h {
            Some(CurrHotkey::Action(_, n)) => Some(n.channel()),
            _ => None,
        }
    }

    /// The repeat channel of the running repeated action.
    pub closed spec fn curr_repeat(&self) -> Option<SyncSender<()>> {
        match self.curr_h {
            Some(CurrHotkey::ActionRepeat(_, t)) => Some(t.channel()),
            _ => None,
        }
    }

    /// The registered hotkeys.
    pub closed spec fn hotkeys(&self) -> Map<u32, HotkeyHandler<F>> {
        self.hotkeys@
    }

    pub fn new() -> (r: Self)
        ensures
            r@ == (HState {
                suppressed: Map::empty(),
                curr: None,
                v_mods: Mods(mods::NONE),
                send_count: 0,
                last_mod: Mods(mods::NONE),
                last_h_mods: Mods(mods::NONE),
                pending: None,
            }),
            r.hotkeys() == Map::<u32, HotkeyHandler<F>>::empty(),
    {
        let r = Handler {
            hotkeys: HashMap::new(),
            suppressed: HashMap::new(),
            curr_h: None,
            v_mods: Mods(mods::NONE),
            send_count: 0,
            last_mod: Mods(mods::NONE),
            last_h_mods: Mods(mods::NONE),
            pending: None,
        };
        assert(r.suppressed@ =~= Map::empty());
        r
    }

    /// Whether a hotkey is registered for `mods` and `key`.
    pub fn has_hotkey(&self, mods: Mods, key: Key) -> (r: bool)
        ensures
            r == self.hotkeys().contains_key(km_code(KeyMods { mods, key })),
    {
        let code = Self::code(KeyMods { mods, key });
        self.hotkeys.contains_key(&code)
    }

    fn code(e: KeyMods) -> (r: u32)
        ensures
            r == km_code(e),
    {
        e.mods.0 as u32 * 0x10000 + e.key.0 as u32
    }

    /// Registers a hotkey; a second one for the same key and modifiers is refused.
    pub fn hotkey(&mut self, mods: Mods, key: Key, f: F)
        requires
            !old(self).hotkeys().contains_key(km_code(KeyMods { mods, key })),
        ensures
            final(self)@ == old(self)@,
            final(self).curr_action() == old(self).curr_action(),
            final(self).curr_repeat() == old(self).curr_repeat(),
            final(self).hotkeys() == old(self).hotkeys().insert(
                km_code(KeyMods { mods, key }),
                HotkeyHandler { func: f, exempt: false },
            ),
    {
        self.hotkey_inner(KeyMods::new(mods, key), f, false);
    }

    /// Registers a hotkey that works while the handler is suspended.
    pub fn hotkey_exempt(&mut self, mods: Mods, key: Key, f: F)
        requires
            !old(self).hotkeys().contains_key(km_code(KeyMods { mods, key })),
        ensures
            final(self)@ == old(self)@,
            final(self).curr_action() == old(self).curr_action(),
            final(self).curr_repeat() == old(self).curr_repeat(),
            final(self).hotkeys() == old(self).hotkeys().insert(
                km_code(KeyMods { mods, key }),
                HotkeyHandler { func: f, exempt: true },
            ),
    {
        self.hotkey_inner(KeyMods::new(mods, key), f, true);
    }

    fn hotkey_inner(&mut self, entry: KeyMods, f: F, exempt: bool)
        requires
            !old(self).hotkeys().contains_key(km_code(entry)),
        ensures
            final(self)@ == old(self)@,
            final(self).curr_action() == old(self).curr_action(),
            final(self).curr_repeat() == old(self).curr_repeat(),
            final(self).hotkeys() == old(self).hotkeys().insert(km_code(entry), HotkeyHandler { func: f, exempt }),
    {
        let code = Self::code(entry);
        self.hotkeys.insert(code, HotkeyHandler { func: f, exempt });
    }

    /// Batches sent and not yet come back.
    pub fn send_count(&self) -> (r: u8)
        ensures
            r == self@.send_count,
    {
        self.send_count
    }

    /// Whether a hotkey function waits to be run and resolved.
    pub fn has_pending(&self) -> (r: bool)
        ensures
            r == (self@.pending is Some),
    {
        self.pending.is_some()
    }

    fn get_hotkey(&self, entry: KeyMods, suspended: bool) -> (r: Option<HotkeyHandler<F>>)
        ensures
            r == spec_get_hotkey(self.hotkeys(), entry, suspended),
    {
        let code = Self::code(entry);
        match self.hotkeys.get(&code) {
            Some(hh) => if hh.exempt || !suspended {
                Some(*hh)
            } else {
                None
            },
            None => None,
        }
    }
}


impl<F: Copy> Handler<F> {
    fn kb_remap<A, R>(&mut self, entry: KeyMods, remap: KeyMods, out: &mut Vec<Command<A, R>>) -> (r: Verdict<F>)
        requires
            remap_key_ok(remap.key),
            old(self)@.send_count < 255,
        ensures
            ({
                let t = spec_remap::<F, A, R>(old(self)@, entry, remap);
                &&& final(self)@ == t.s
                &&& r == t.v
                &&& cmds_view(final(out)@) == cmds_view(old(out)@) + t.cmds
            }),
            final(self).hotkeys() == old(self).hotkeys(),
            all_plain(final(out)@, old(out)@.len() as int),
            keeps_channels(*old(self), *final(self)),
    {
        let (m, n) = start_decision(entry, remap);
        let size = n + 1;
        let ib = push_seg(InputBuilder::with_capacity(size as usize), m).key_down(remap.key);
        assert(ib@ =~= remap_start_batch(entry, remap));
        let inputs = ib.build();
        self.v_mods = Mods(remap.mods.0 | get_mod(remap.key).0);
        self.curr_h = Some(CurrHotkey::Remap(entry, remap));
        self.send_count = self.send_count + 1;
        emit(out, Command::Send(InputMsg::Many(inputs)));
        Verdict::Block
    }

    fn kb_remap_up<A, R>(
        &mut self,
        entry: KeyMods,
        remap: KeyMods,
        key: Key,
        mod_bit: Mods,
        out: &mut Vec<Command<A, R>>,
    ) -> (r: Verdict<F>)
        requires
            remap_key_ok(remap.key),
            old(self)@.send_count < 255,
        ensures
            ({
                let t = spec_remap_up::<F, A, R>(old(self)@, entry, remap, key, mod_bit);
                &&& final(self)@ == t.s
                &&& r == t.v
                &&& cmds_view(final(out)@) == cmds_view(old(out)@) + t.cmds
            }),
            final(self).hotkeys() == old(self).hotkeys(),
            all_plain(final(out)@, old(out)@.len() as int),
            keeps_channels(*old(self), *final(self)),
    {
        proof {
            lemma_add_empty(cmds_view(old(out)@));
        }
        let (rel0, rest0, last_h_mods) = if key == entry.key {
            (Mods(remap.mods.0 & !entry.mods.0), Mods(entry.mods.0 & !remap.mods.0), entry.mods)
        } else if entry.mods.has_any(mod_bit) {
            self.suppressed.insert(entry.key.0, false);
            (
                Mods(remap.mods.0 & (!entry.mods.0 | mod_bit.0)),
                Mods(entry.mods.0 & !(remap.mods.0 | mod_bit.0)),
                Mods(entry.mods.0 & !mod_bit.0),
            )
        } else {
            return Verdict::Pass;
        };
        proof {
            let (x, y, z) = (entry.mods.0, remap.mods.0, mod_bit.0);
            assert((y & !x) & (x & !y) == 0 && (y & (!x | z)) & (x & !(y | z)) == 0) by (bit_vector);
        }
        self.curr_h = None;
        self.v_mods = Mods((self.v_mods.0 & !(rel0.0 | get_mod(remap.key).0)) | rest0.0);
        let (m, n) = end_decision(remap, rel0, rest0);
        let is_wheel = remap.key.is_mouse_wheel();
        let size = b2u(!is_wheel) + n;
        if size != 0 {
            let ib = push_seg(InputBuilder::with_capacity(size as usize).key_up_if(remap.key, !is_wheel), m);
            assert(ib@ =~= remap_end_batch(remap, rel0, rest0));
            let inputs = ib.build();
            self.last_h_mods = last_h_mods;
            self.last_mod = if !m.2 { get_last_mod(m.4) } else { Mods(mods::NONE) };
            self.send_count = self.send_count + 1;
            emit(out, Command::Send(InputMsg::Many(inputs)));
        }
        Verdict::Block
    }
}

impl<F: Copy> Handler<F> {
    fn kb_remap_repeat<A, R>(
        &mut self,
        entry: KeyMods,
        remap: KeyMods,
        key: Key,
        mod_bit: Mods,
        suspended: bool,
        cont: Cont,
        out: &mut Vec<Command<A, R>>,
    ) -> (r: Verdict<F>)
        requires
            remap_key_ok(remap.key),
            old(self)@.send_count < 255,
        ensures
            ({
                let t = spec_remap_repeat::<F, A, R>(
                    old(self)@,
                    old(self).hotkeys(),
                    entry,
                    remap,
                    key,
                    mod_bit,
                    suspended,
                    cont,
                );
                &&& final(self)@ == t.s
                &&& r == t.v
                &&& cmds_view(final(out)@) == cmds_view(old(out)@) + t.cmds
            }),
            final(self).hotkeys() == old(self).hotkeys(),
            all_plain(final(out)@, old(out)@.len() as int),
            keeps_channels(*old(self), *final(self)),
    {
        proof {
            lemma_add_empty(cmds_view(old(out)@));
        }
        if key == entry.key {
            let key_to_repeat = remap.key;
            if key_to_repeat.is_mouse_button() {
                // mouse buttons are not repeated
                return Verdict::Block;
            } else if key == key_to_repeat {
                return Verdict::Pass;
            } else {
                let input = if key_to_repeat.is_mouse_wheel() {
                    Input::mouse_down(key_to_repeat, CALL_NEXT_END)
                } else {
                    Input::keybd_down(key_to_repeat, CALL_NEXT_END)
                };
                self.send_count = self.send_count + 1;
                emit(out, Command::Send(InputMsg::Single(input)));
                return Verdict::Block;
            }
        }
        if entry.mods.has_any(mod_bit) {
            // a repeated modifier of the entry is swallowed
            return Verdict::Block;
        }
        if get_mod(remap.key).is_any() {
            // a key remapped to a modifier
            return Verdict::Pass;
        }
        let ph_entry = KeyMods::new(Mods((self.v_mods.0 & !remap.mods.0) | entry.mods.0), key);
        let hh = match self.get_hotkey(ph_entry, suspended) {
            Some(hh) => hh,
            None => {
                return Verdict::Pass;
            },
        };
        // another hotkey interrupts the remap
        self.curr_h = None;
        self.v_mods = ph_entry.mods;
        self.suppressed.insert(entry.key.0, false);
        let rel0 = Mods(remap.mods.0 & !entry.mods.0);
        let rest0 = Mods(entry.mods.0 & !remap.mods.0);
        proof {
            let (x, y) = (entry.mods.0, remap.mods.0);
            assert((y & !x) & (x & !y) == 0) by (bit_vector);
        }
        let (m, n) = end_decision(remap, rel0, rest0);
        let is_wheel = remap.key.is_mouse_wheel();
        let size = b2u(!is_wheel) + n;
        if size != 0 {
            let ib = push_seg(InputBuilder::with_capacity(size as usize).key_up_if(remap.key, !is_wheel), m);
            assert(ib@ =~= remap_end_batch(remap, rel0, rest0));
            let inputs = ib.build();
            self.send_count = self.send_count + 1;
            emit(out, Command::Send(InputMsg::Many(inputs)));
        }
        self.pending = Some(Pending { entry: ph_entry, cont });
        Verdict::Lookup(hh.func)
    }

    fn kb_unicode<A, R>(&mut self, entry: KeyMods, text: &'static str, out: &mut Vec<Command<A, R>>) -> (r: Verdict<
        F,
    >)
        requires
            units_paired(utf16_encode(text@)),
            old(self)@.send_count + 2 <= 255,
        ensures
            ({
                let t = spec_unicode::<F, A, R>(old(self)@, entry, utf16_encode(text@));
                &&& final(self)@ == t.s
                &&& r == t.v
                &&& cmds_view(final(out)@) == cmds_view(old(out)@) + t.cmds
            }),
            final(self).hotkeys() == old(self).hotkeys(),
            all_plain(final(out)@, old(out)@.len() as int),
            keeps_channels(*old(self), *final(self)),
    {
        proof {
            lemma_add_empty(cmds_view(old(out)@));
        }
        let encoded = encode_utf16(text);
        if encoded.len() == 0 {
            return Verdict::Block;
        }
        let inputs = InputBuilder::unicode_units(encoded);
        let mods_to_release = entry.mods;
        let should_mask = self.last_mod.is_any() && {
            let p = project_mods(mods_to_release);
            p.0 == mods::LA_RA || p.0 == mods::LW_RW
        };
        self.v_mods = Mods(mods::NONE);
        self.curr_h = Some(CurrHotkey::Unicode(entry, copy_inputs(&inputs)));
        if mods_to_release.is_any() {
            proof {
                lemma_popcount_zero(mods_to_release.0);
                lemma_mods_inputs_len(mods_to_release, false);
            }
            let size = mods_to_release.count_ones() + b2u(should_mask) * 2;
            let keys = InputBuilder::with_capacity(size as usize).mods_up_masked(mods_to_release, should_mask).build();
            self.send_count = self.send_count + 1;
            emit(out, Command::Send(InputMsg::Many(keys)));
        }
        self.send_count = self.send_count + 1;
        emit(out, Command::Send(InputMsg::Many(inputs)));
        Verdict::Block
    }

    fn kb_unicode_up<A, R>(&mut self, entry: KeyMods, key: Key, mod_bit: Mods, out: &mut Vec<Command<A, R>>) -> (r:
        Verdict<F>)
        requires
            old(self)@.send_count < 255,
        ensures
            ({
                let t = spec_unicode_up::<F, A, R>(old(self)@, entry, key, mod_bit);
                &&& final(self)@ == t.s
                &&& r == t.v
                &&& cmds_view(final(out)@) == cmds_view(old(out)@) + t.cmds
            }),
            final(self).hotkeys() == old(self).hotkeys(),
            all_plain(final(out)@, old(out)@.len() as int),
            keeps_channels(*old(self), *final(self)),
    {
        proof {
            lemma_add_empty(cmds_view(old(out)@));
        }
        let mods_to_restore = if key == entry.key {
            entry.mods
        } else if entry.mods.has_any(mod_bit) {
            self.suppressed.insert(entry.key.0, false);
            Mods(entry.mods.0 & !mod_bit.0)
        } else {
            return Verdict::Pass;
        };
        self.curr_h = None;
        self.v_mods = Mods(self.v_mods.0 | mods_to_restore.0);
        if !mods_to_restore.is_none() {
            proof {
                lemma_popcount_zero(mods_to_restore.0);
                lemma_mods_inputs_len(mods_to_restore, true);
            }
            let inputs = InputBuilder::with_capacity(mods_to_restore.count_ones() as usize).mods_down(
                mods_to_restore,
            ).build();
            self.last_h_mods = mods_to_restore;
            self.last_mod = get_last_mod(mods_to_restore);
            self.send_count = self.send_count + 1;
            emit(out, Command::Send(InputMsg::Many(inputs)));
        }
        Verdict::Block
    }

    fn kb_unicode_repeat<A, R>(
        &mut self,
        entry: KeyMods,
        inputs: Vec<Input>,
        key: Key,
        mod_bit: Mods,
        suspended: bool,
        cont: Cont,
        out: &mut Vec<Command<A, R>>,
    ) -> (r: Verdict<F>)
        requires
            old(self)@.send_count < 255,
        ensures
            ({
                let t = spec_unicode_repeat::<F, A, R>(
                    old(self)@,
                    old(self).hotkeys(),
                    entry,
                    inputs@,
                    key,
                    mod_bit,
                    suspended,
                    cont,
                );
                &&& final(self)@ == t.s
                &&& r == t.v
                &&& cmds_view(final(out)@) == cmds_view(old(out)@) + t.cmds
            }),
            final(self).hotkeys() == old(self).hotkeys(),
            all_plain(final(out)@, old(out)@.len() as int),
            keeps_channels(*old(self), *final(self)),
    {
        proof {
            lemma_add_empty(cmds_view(old(out)@));
        }
        if key == entry.key {
            self.send_count = self.send_count + 1;
            emit(out, Command::Send(InputMsg::Many(inputs)));
            return Verdict::Block;
        }
        if entry.mods.has_any(mod_bit) {
            return Verdict::Block;
        }
        let ph_entry = KeyMods::new(Mods(self.v_mods.0 | entry.mods.0), key);
        let hh = match self.get_hotkey(ph_entry, suspended) {
            Some(hh) => hh,
            None => {
                return Verdict::Pass;
            },
        };
        // another hotkey interrupts the typing
        let mods_to_restore = entry.mods;
        self.curr_h = None;
        self.v_mods = Mods(self.v_mods.0 | mods_to_restore.0);
        self.suppressed.insert(entry.key.0, false);
        if !mods_to_restore.is_none() {
            proof {
                lemma_popcount_zero(mods_to_restore.0);
                lemma_mods_inputs_len(mods_to_restore, true);
            }
            let keys = InputBuilder::with_capacity(mods_to_restore.count_ones() as usize).mods_down(
                mods_to_restore,
            ).build();
            self.send_count = self.send_count + 1;
            emit(out, Command::Send(InputMsg::Many(keys)));
        }
        self.pending = Some(Pending { entry: ph_entry, cont });
        Verdict::Lookup(hh.func)
    }

    /// The release of a key while an action runs; `notf` signals the release
    /// of the action's own key.
    fn kb_action_up_common<A, R>(
        &mut self,
        notf: Option<KeyEventNotifier>,
        entry: KeyMods,
        key: Key,
        mod_bit: Mods,
        out: &mut Vec<Command<A, R>>,
    ) -> (r: Verdict<F>)
        requires
            old(self)@.send_count < 255,
            mod_bit == spec_get_mod(key) || mod_bit.0 == 0,
            notf matches Some(n) ==> old(self).curr_action() == Some(n.channel()),
        ensures
            ({
                let t = spec_action_up::<F, A, R>(old(self)@, entry, key, mod_bit, notf is Some);
                &&& final(self)@ == t.s
                &&& r == t.v
                &&& cmds_view(final(out)@) == cmds_view(old(out)@) + t.cmds
            }),
            final(self).hotkeys() == old(self).hotkeys(),
            channels_paired(*old(self), *final(self), final(out)@, old(out)@.len() as int),
    {
        proof {
            lemma_add_empty(cmds_view(old(out)@));
        }
        if key == entry.key {
            match notf {
                Some(n) => {
                    let ghost lo = out@.len();
                    emit(out, Command::Notify(n));
                    assert(out@[lo as int].notify_channel() == old(self).curr_action());
                },
                None => {},
            }
            self.curr_h = None;
            self.last_h_mods = Mods(entry.mods.0 & self.v_mods.0);
            Verdict::Block
        } else if entry.mods.has_any(mod_bit) && mod_bit == self.last_mod && should_mask_last(mod_bit, self.v_mods) {
            proof {
                let (x, y) = (entry.mods.0, mod_bit.0);
                assert(x & y != 0 ==> y != 0) by (bit_vector);
                lemma_mod_key_keybd(key);
            }
            let ib = InputBuilder::with_capacity(3).key_down(Key(keys::LCTRL)).key_up(key).key_up(Key(keys::LCTRL));
            assert(ib@ =~= seq![
                key_input(Key(keys::LCTRL), false, CALL_NEXT),
                key_input(key, true, CALL_NEXT),
                key_input(Key(keys::LCTRL), true, CALL_NEXT),
            ]);
            self.v_mods = Mods(self.v_mods.0 & !mod_bit.0);
            self.last_h_mods = Mods(self.last_h_mods.0 & !mod_bit.0);
            self.last_mod = Mods(mods::NONE);
            self.send_count = self.send_count + 1;
            emit(out, Command::Send(InputMsg::Many(ib.build())));
            Verdict::Block
        } else {
            Verdict::Pass
        }
    }

    /// Carries out the hotkey that the function of a pressed key returned.
    fn map_hotkey<A, R>(&mut self, entry: KeyMods, res: Option<Hotkey<A, R>>, out: &mut Vec<Command<A, R>>) -> (r:
        Verdict<F>)
        requires
            res matches Some(h) ==> hotkey_ok(h),
            old(self)@.send_count + 2 <= 255,
        ensures
            ({
                let t = spec_map_hotkey::<F, A, R>(old(self)@, entry, res);
                &&& final(self)@ == t.s
                &&& r == t.v
                &&& cmds_view(final(out)@) == cmds_view(old(out)@) + t.cmds
            }),
            final(self).hotkeys() == old(self).hotkeys(),
            channels_paired(*old(self), *final(self), final(out)@, old(out)@.len() as int),
    {
        proof {
            lemma_add_empty(cmds_view(old(out)@));
        }
        match res {
            None => Verdict::Block,
            Some(hotkey) => match hotkey {
                Hotkey::Default => {
                    self.curr_h = Some(CurrHotkey::Default(entry));
                    Verdict::Pass
                },
                Hotkey::Suppress => {
                    self.suppressed.insert(entry.key.0, false);
                    self.last_h_mods = entry.mods;
                    Verdict::Block
                },
                Hotkey::SuppressOnce => {
                    self.suppressed.insert(entry.key.0, true);
                    self.last_h_mods = entry.mods;
                    Verdict::Block
                },
                Hotkey::Remap(mods, key) => self.kb_remap(entry, KeyMods::new(mods, key), out),
                Hotkey::Unicode(text) => self.kb_unicode(entry, text, out),
                Hotkey::Action(action) => {
                    let (event, notf) = KeyEvent::new();
                    let ghost ch = event.channel();
                    let ghost lo = out@.len();
                    self.curr_h = Some(CurrHotkey::Action(entry, notf));
                    emit(out, Command::Action(action, event));
                    assert(out@[lo as int].event_channel() == Some(ch));
                    assert(starts_event(out@, lo as int, ch));
                    Verdict::Block
                },
                Hotkey::ActionRepeat(action) => {
                    let (ticker, signal) = repeat_channel();
                    let ghost ch = signal.channel();
                    let ghost lo = out@.len();
                    self.curr_h = Some(CurrHotkey::ActionRepeat(entry, ticker));
                    emit(out, Command::ActionRepeat(action, signal));
                    assert(out@[lo as int].signal_channel() == Some(ch));
                    assert(starts_repeat(out@, lo as int, ch));
                    Verdict::Block
                },
            },
        }
    }
}

impl<F: Copy> Handler<F> {
    /// Looks up the hotkey of `entry`; a hit leaves it pending.
    fn lookup(&mut self, entry: KeyMods, suspended: bool, cont: Cont) -> (r: Verdict<F>)
        ensures
            ({
                let t = lookup_call::<F, (), ()>(old(self)@, old(self).hotkeys(), entry, suspended, cont);
                &&& final(self)@ == t.s
                &&& r == t.v
            }),
            final(self).hotkeys() == old(self).hotkeys(),
            final(self).curr_action() == old(self).curr_action(),
            final(self).curr_repeat() == old(self).curr_repeat(),
    {
        match self.get_hotkey(entry, suspended) {
            Some(hh) => {
                self.pending = Some(Pending { entry, cont });
                Verdict::Lookup(hh.func)
            },
            None => Verdict::Pass,
        }
    }

    fn kb_key_down<A, R>(
        &mut self,
        key: Key,
        mod_bit: Mods,
        suspended: bool,
        cont: Cont,
        out: &mut Vec<Command<A, R>>,
    ) -> (r: Verdict<F>)
        requires
            state_ok(old(self)@),
            old(self)@.send_count < 255,
        ensures
            ({
                let t = spec_key_down::<F, A, R>(old(self)@, old(self).hotkeys(), key, mod_bit, suspended, cont);
                &&& final(self)@ == t.s
                &&& r == t.v
                &&& cmds_view(final(out)@) == cmds_view(old(out)@) + t.cmds
            }),
            final(self).hotkeys() == old(self).hotkeys(),
            channels_paired(*old(self), *final(self), final(out)@, old(out)@.len() as int),
            state_ok(final(self)@),
            final(self)@.send_count <= old(self)@.send_count + 1,
    {
        proof {
            lemma_add_empty(cmds_view(old(out)@));
        }
        let once = match self.suppressed.get(&key.0) {
            Some(once) => Some(*once),
            None => None,
        };
        match once {
            Some(true) => {
                self.suppressed.remove(&key.0);
            },
            Some(false) => {
                return Verdict::Block;
            },
            None => {},
        }
        match &self.curr_h {
            Some(CurrHotkey::Default(entry)) => {
                let entry = *entry;
                if key != entry.key && entry.mods.has_any(mod_bit) {
                    Verdict::Block
                } else {
                    Verdict::Pass
                }
            },
            Some(CurrHotkey::Remap(entry, remap)) => {
                let (entry, remap) = (*entry, *remap);
                self.kb_remap_repeat(entry, remap, key, mod_bit, suspended, cont, out)
            },
            Some(CurrHotkey::Unicode(entry, inputs)) => {
                let entry = *entry;
                let inputs = copy_inputs(inputs);
                self.kb_unicode_repeat(entry, inputs, key, mod_bit, suspended, cont, out)
            },
            Some(CurrHotkey::Action(entry, _)) => {
                let entry = *entry;
                if key == entry.key || entry.mods.has_any(mod_bit) {
                    Verdict::Block
                } else {
                    Verdict::Pass
                }
            },
            Some(CurrHotkey::ActionRepeat(entry, sender)) => {
                let entry = *entry;
                if key == entry.key {
                    let tick = sender.clone();
                    emit(out, Command::Tick(tick));
                    Verdict::Block
                } else if entry.mods.has_any(mod_bit) {
                    Verdict::Block
                } else {
                    Verdict::Pass
                }
            },
            None => {
                let entry = KeyMods::new(self.v_mods, key);
                self.lookup(entry, suspended, cont)
            },
        }
    }

    fn kb_key_up<A, R>(&mut self, key: Key, mod_bit: Mods, out: &mut Vec<Command<A, R>>) -> (r: Verdict<F>)
        requires
            state_ok(old(self)@),
            old(self)@.send_count < 255,
            mod_bit == spec_get_mod(key) || mod_bit.0 == 0,
        ensures
            ({
                let t = spec_key_up::<F, A, R>(old(self)@, key, mod_bit);
                &&& final(self)@ == t.s
                &&& r == t.v
                &&& cmds_view(final(out)@) == cmds_view(old(out)@) + t.cmds
            }),
            final(self).hotkeys() == old(self).hotkeys(),
            channels_paired(*old(self), *final(self), final(out)@, old(out)@.len() as int),
            state_ok(final(self)@),
            final(self)@.send_count <= old(self)@.send_count + 1,
    {
        proof {
            lemma_add_empty(cmds_view(old(out)@));
        }
        if self.suppressed.remove(&key.0).is_some() {
            return Verdict::Block;
        }
        assert(self.suppressed@ =~= old(self).suppressed@);
        match &self.curr_h {
            Some(CurrHotkey::Default(entry)) => {
                let entry = *entry;
                if entry.key == key || entry.mods.has_any(mod_bit) {
                    self.curr_h = None;
                }
                Verdict::Pass
            },
            Some(CurrHotkey::Remap(entry, remap)) => {
                let (entry, remap) = (*entry, *remap);
                self.kb_remap_up(entry, remap, key, mod_bit, out)
            },
            Some(CurrHotkey::Unicode(entry, _)) => {
                let entry = *entry;
                self.kb_unicode_up(entry, key, mod_bit, out)
            },
            Some(CurrHotkey::Action(entry, notf)) => {
                let entry = *entry;
                let notf = notf.clone();
                self.kb_action_up_common(Some(notf), entry, key, mod_bit, out)
            },
            Some(CurrHotkey::ActionRepeat(entry, _)) => {
                let entry = *entry;
                self.kb_action_up_common(None, entry, key, mod_bit, out)
            },
            None => Verdict::Pass,
        }
    }
}

impl<F: Copy> Handler<F> {
    fn handle_kb<A, R>(&mut self, key: Key, pressed: bool, suspended: bool, out: &mut Vec<Command<A, R>>) -> (r:
        Verdict<F>)
        requires
            state_ok(old(self)@),
            room(old(self)@),
        ensures
            ({
                let t = spec_handle_kb::<F, A, R>(old(self)@, old(self).hotkeys(), key, pressed, suspended);
                &&& final(self)@ == t.s
                &&& r == t.v
                &&& cmds_view(final(out)@) == cmds_view(old(out)@) + t.cmds
            }),
            final(self).hotkeys() == old(self).hotkeys(),
            channels_paired(*old(self), *final(self), final(out)@, old(out)@.len() as int),
            state_ok(final(self)@),
    {
        let mod_bit = get_mod(key);
        if pressed {
            let v = self.kb_key_down(key, mod_bit, suspended, Cont::Kb(mod_bit), out);
            match v {
                Verdict::Pass => {
                    self.last_mod = mod_bit;
                    self.v_mods = Mods(self.v_mods.0 | mod_bit.0);
                },
                _ => {},
            }
            v
        } else {
            let ghost out0 = cmds_view(out@);
            let v = self.kb_key_up(key, mod_bit, out);
            let blocked = match v {
                Verdict::Block => true,
                _ => false,
            };
            if blocked || mod_bit.is_none() {
                return v;
            }
            let masked = self.last_mod == mod_bit && self.last_h_mods.has_any(mod_bit) && should_mask_last(
                mod_bit,
                self.v_mods,
            );
            if masked {
                proof {
                    lemma_mod_key_keybd(key);
                }
                let ib = InputBuilder::with_capacity(3).key_down(Key(keys::LCTRL)).key_up(key).key_up(
                    Key(keys::LCTRL),
                );
                assert(ib@ =~= seq![
                    key_input(Key(keys::LCTRL), false, CALL_NEXT),
                    key_input(key, true, CALL_NEXT),
                    key_input(Key(keys::LCTRL), true, CALL_NEXT),
                ]);
                self.send_count = self.send_count + 1;
                emit(out, Command::Send(InputMsg::Many(ib.build())));
            }
            self.v_mods = Mods(self.v_mods.0 & !mod_bit.0);
            self.last_h_mods = Mods(self.last_h_mods.0 & !mod_bit.0);
            self.last_mod = Mods(mods::NONE);
            if masked {
                Verdict::Block
            } else {
                Verdict::Pass
            }
        }
    }

    fn ms_wheel(&mut self, key: Key, suspended: bool) -> (r: Verdict<F>)
        ensures
            ({
                let t = spec_wheel::<F, (), ()>(old(self)@, old(self).hotkeys(), key, suspended);
                &&& final(self)@ == t.s
                &&& r == t.v
            }),
            final(self).hotkeys() == old(self).hotkeys(),
            final(self).curr_action() == old(self).curr_action(),
            final(self).curr_repeat() == old(self).curr_repeat(),
    {
        if self.curr_h.is_some() {
            return Verdict::Pass;
        }
        let entry = KeyMods::new(self.v_mods, key);
        self.lookup(entry, suspended, Cont::Wheel)
    }

    /// Carries out the hotkey that the function of a wheel notch returned:
    /// a notch has no release, so all of it happens at once.
    fn ms_wheel_resolve<A, R>(&mut self, entry: KeyMods, res: Option<Hotkey<A, R>>, out: &mut Vec<Command<A, R>>) -> (r:
        Verdict<F>)
        requires
            res matches Some(h) ==> hotkey_ok(h),
            old(self)@.send_count < 255,
        ensures
            ({
                let t = spec_wheel_resolve::<F, A, R>(old(self)@, entry, res);
                &&& final(self)@ == t.s
                &&& r == t.v
                &&& cmds_view(final(out)@) == cmds_view(old(out)@) + t.cmds
            }),
            final(self).hotkeys() == old(self).hotkeys(),
            channels_paired(*old(self), *final(self), final(out)@, old(out)@.len() as int),
            state_ok(old(self)@) ==> state_ok(final(self)@),
    {
        proof {
            lemma_add_empty(cmds_view(old(out)@));
        }
        let hotkey = match res {
            Some(h) => h,
            None => {
                return Verdict::Block;
            },
        };
        self.last_h_mods = entry.mods;
        match hotkey {
            Hotkey::Default => Verdict::Pass,
            Hotkey::Suppress => Verdict::Block,
            Hotkey::SuppressOnce => Verdict::Block,
            Hotkey::Remap(r_mods, r_key) => {
                let remap = KeyMods::new(r_mods, r_key);
                let (m1, n1) = start_decision(entry, remap);
                let rel2 = Mods(r_mods.0 & !entry.mods.0);
                let rest2 = Mods(entry.mods.0 & !(r_mods.0 | get_mod(r_key).0));
                proof {
                    let (x, y, z) = (entry.mods.0, r_mods.0, spec_get_mod(r_key).0);
                    assert((y & !x) & (x & !(y | z)) == 0) by (bit_vector);
                }
                let (m2, n2) = end_decision(remap, rel2, rest2);
                let is_wheel = r_key.is_mouse_wheel();
                let size = n1 + 1 + b2u(!is_wheel) + n2;
                let ib = push_seg(InputBuilder::with_capacity(size as usize), m1).key_down(r_key).key_up_if(
                    r_key,
                    !is_wheel,
                );
                let ib = push_seg(ib, m2);
                assert(ib@ =~= wheel_remap_batch(entry, remap));
                self.last_mod = if !m2.2 { get_last_mod(m2.4) } else { Mods(mods::NONE) };
                self.send_count = self.send_count + 1;
                emit(out, Command::Send(InputMsg::Many(ib.build())));
                Verdict::Block
            },
            Hotkey::Unicode(text) => {
                let encoded = encode_utf16(text);
                let ghost units = encoded@;
                let entry_mods = entry.mods;
                let should_mask = self.last_mod.is_any() && {
                    let p = project_mods(entry_mods);
                    p.0 == mods::LA_RA || p.0 == mods::LW_RW
                };
                proof {
                    lemma_popcount_zero(entry_mods.0);
                    lemma_mods_inputs_len(entry_mods, false);
                    lemma_mods_inputs_len(entry_mods, true);
                    lemma_unicode_inputs_len(units);
                    let ghost b = wheel_unicode_batch(old(self)@.last_mod, entry_mods, units);
                    assert(b.len() == 0 <==> (entry_mods.0 == 0 && units.len() == 0));
                }
                let n = encoded.len();
                let cap = n.saturating_add(n).saturating_add(
                    (entry_mods.count_ones() * 2 + b2u(should_mask) * 2) as usize,
                );
                if entry_mods.is_none() && n == 0 {
                    return Verdict::Block;
                }
                let ib = InputBuilder::with_capacity(cap).mods_up_masked(entry_mods, should_mask).add_unicode(
                    encoded,
                ).mods_down(entry_mods);
                assert(ib@ =~= wheel_unicode_batch(old(self)@.last_mod, entry_mods, units));
                self.last_mod = get_last_mod(entry_mods);
                self.send_count = self.send_count + 1;
                emit(out, Command::Send(InputMsg::Many(ib.build())));
                Verdict::Block
            },
            Hotkey::Action(action) => {
                let (event, notf) = KeyEvent::new();
                let ghost ch = event.channel();
                let ghost lo = out@.len();
                // a notch has no release: the action learns at once that its key is up
                emit(out, Command::Notify(notf));
                emit(out, Command::Action(action, event));
                assert(out@[lo as int].notify_channel() == Some(ch));
                assert(out@[lo + 1int].event_channel() == Some(ch));
                assert(notifies(out@, lo as int, ch));
                assert(starts_event(out@, lo as int, ch));
                Verdict::Block
            },
            Hotkey::ActionRepeat(action) => {
                emit(out, Command::ActionOnce(action));
                Verdict::Block
            },
        }
    }

    fn handle_ms<A, R>(&mut self, key: Key, pressed: bool, suspended: bool, out: &mut Vec<Command<A, R>>) -> (r:
        Verdict<F>)
        requires
            state_ok(old(self)@),
            room(old(self)@),
        ensures
            ({
                let t = spec_handle_ms::<F, A, R>(old(self)@, old(self).hotkeys(), key, pressed, suspended);
                &&& final(self)@ == t.s
                &&& r == t.v
                &&& cmds_view(final(out)@) == cmds_view(old(out)@) + t.cmds
            }),
            final(self).hotkeys() == old(self).hotkeys(),
            channels_paired(*old(self), *final(self), final(out)@, old(out)@.len() as int),
            state_ok(final(self)@),
    {
        proof {
            lemma_add_empty(cmds_view(old(out)@));
        }
        if pressed {
            if key.is_mouse_wheel() {
                self.ms_wheel(key, suspended)
            } else {
                self.kb_key_down(key, Mods(mods::NONE), suspended, Cont::Ms, out)
            }
        } else {
            self.kb_key_up(key, Mods(mods::NONE), out)
        }
    }

    /// A keyboard event that is not one of the handler's own inputs
    /// (`suspended`: whether hotkeys other than the exempt ones are off).
    /// An action that starts gets the event that the release of its key
    /// signals, and a release or repeat goes to the running action's channel
    /// (see [`channels_paired`]).
    pub fn on_keybd<A, R>(&mut self, key: Key, pressed: bool, suspended: bool) -> (r: Step<F, A, R>)
        requires
            state_ok(old(self)@),
        ensures
            ({
                let t = spec_on_keybd::<F, A, R>(old(self)@, old(self).hotkeys(), key, pressed, suspended);
                &&& final(self)@ == t.s
                &&& r.verdict == t.v
                &&& cmds_view(r.commands@) == t.cmds
            }),
            final(self).hotkeys() == old(self).hotkeys(),
            state_ok(final(self)@),
            channels_paired(*old(self), *final(self), r.commands@, 0),
    {
        let mut out: Vec<Command<A, R>> = Vec::new();
        assert(cmds_view(out@) =~= Seq::<CmdView<A, R>>::empty());
        if self.send_count != 0 {
            // held back until the batches in flight have come through
            if !pressed {
                emit(&mut out, Command::Send(InputMsg::Single(Input::keybd_up(key, CACHED_EVENT))));
            }
            return Step { verdict: Verdict::Block, commands: out };
        }
        let v = self.handle_kb(key, pressed, suspended, &mut out);
        Step { verdict: v, commands: out }
    }

    /// A mouse event that is not one of the handler's own inputs; its
    /// channels are paired as in [`Handler::on_keybd`].
    pub fn on_mouse<A, R>(&mut self, key: Key, pressed: bool, suspended: bool) -> (r: Step<F, A, R>)
        requires
            state_ok(old(self)@),
            mouse_key(key, pressed),
        ensures
            ({
                let t = spec_on_mouse::<F, A, R>(old(self)@, old(self).hotkeys(), key, pressed, suspended);
                &&& final(self)@ == t.s
                &&& r.verdict == t.v
                &&& cmds_view(r.commands@) == t.cmds
            }),
            final(self).hotkeys() == old(self).hotkeys(),
            state_ok(final(self)@),
            channels_paired(*old(self), *final(self), r.commands@, 0),
    {
        let mut out: Vec<Command<A, R>> = Vec::new();
        assert(cmds_view(out@) =~= Seq::<CmdView<A, R>>::empty());
        if self.send_count != 0 {
            if !pressed {
                emit(&mut out, Command::Send(InputMsg::Single(Input::mouse_up(key, CACHED_EVENT))));
            }
            return Step { verdict: Verdict::Block, commands: out };
        }
        let v = self.handle_ms(key, pressed, suspended, &mut out);
        Step { verdict: v, commands: out }
    }

    /// The rest of the event whose hotkey function the caller ran: `res` is
    /// what it returned, `None` where it failed. The channels of the actions
    /// that it starts are paired as in [`Handler::on_keybd`].
    pub fn resolve<A, R>(&mut self, res: Option<Hotkey<A, R>>) -> (r: Step<F, A, R>)
        requires
            old(self)@.pending is Some,
            res matches Some(h) ==> hotkey_ok(h),
            state_ok(old(self)@),
            room(old(self)@),
        ensures
            ({
                let t = spec_resolve::<F, A, R>(old(self)@, res);
                &&& final(self)@ == t.s
                &&& r.verdict == t.v
                &&& cmds_view(r.commands@) == t.cmds
            }),
            final(self).hotkeys() == old(self).hotkeys(),
            state_ok(final(self)@),
            channels_paired(*old(self), *final(self), r.commands@, 0),
    {
        let mut out: Vec<Command<A, R>> = Vec::new();
        assert(cmds_view(out@) =~= Seq::<CmdView<A, R>>::empty());
        let p = self.pending.unwrap();
        self.pending = None;
        let v = match p.cont {
            Cont::Kb(mod_bit) => {
                let v = self.map_hotkey(p.entry, res, &mut out);
                match v {
                    Verdict::Pass => {
                        self.last_mod = mod_bit;
                        self.v_mods = Mods(self.v_mods.0 | mod_bit.0);
                    },
                    _ => {},
                }
                v
            },
            Cont::Ms => self.map_hotkey(p.entry, res, &mut out),
            Cont::Wheel => self.ms_wheel_resolve(p.entry, res, &mut out),
        };
        Step { verdict: v, commands: out }
    }

    /// One of the handler's batches has come through the hook.
    pub fn on_batch_end(&mut self)
        requires
            old(self)@.send_count > 0,
        ensures
            final(self)@ == (HState { send_count: (old(self)@.send_count - 1) as nat, ..old(self)@ }),
            final(self).hotkeys() == old(self).hotkeys(),
            final(self).curr_action() == old(self).curr_action(),
            final(self).curr_repeat() == old(self).curr_repeat(),
    {
        self.send_count = self.send_count - 1;
    }
}

/// The mask decision at the start of a remap, and the number of inputs of its segment.
fn start_decision(entry: KeyMods, remap: KeyMods) -> (r: ((Key, bool, bool, Mods, Mods), u32))
    ensures
        r.0 == start_mask(entry, remap),
        r.1 == mask_seg(r.0).len(),
        r.1 <= 10,
        (r.0.1 || r.0.2) ==> !spec_is_mouse_key(r.0.0.0),
{
    let remap_mod_bit = get_mod(remap.key);
    let mut mods_to_release = Mods(entry.mods.0 & !(remap.mods.0 | remap_mod_bit.0));
    let mut mods_to_press = Mods(remap.mods.0 & !entry.mods.0);
    let ghost rel0 = mods_to_release;
    let ghost press0 = mods_to_press;
    let (mask, pre_mask, post_mask) = mask_remap_start(&mut mods_to_release, &mut mods_to_press, entry);
    let m = (mask, pre_mask, post_mask, mods_to_release, mods_to_press);
    proof {
        lemma_mask_remap_props(
            spec_should_mask_projected(spec_project_mods(rel0), entry.mods),
            spec_project_mods(rel0),
            rel0,
            press0,
        );
        let (x, y, z) = (entry.mods.0, remap.mods.0, remap_mod_bit.0);
        assert((x & !(y | z)) & (y & !x) == 0) by (bit_vector);
        lemma_disjoint_within(rel0.0, press0.0, mods_to_release.0, mods_to_press.0);
        lemma_mask_seg_len(m);
    }
    let n = b2u(pre_mask) + (mods_to_release | mods_to_press).count_ones() + b2u(post_mask);
    (m, n)
}

/// The mask decision at the end of a remap that releases `rel0` and
/// restores `rest0`, and the number of inputs of its segment.
fn end_decision(remap: KeyMods, rel0: Mods, rest0: Mods) -> (r: ((Key, bool, bool, Mods, Mods), u32))
    requires
        rel0.0 & rest0.0 == 0,
    ensures
        r.0 == end_mask(remap, rel0, rest0),
        r.1 == mask_seg(r.0).len(),
        r.1 <= 10,
        (r.0.1 || r.0.2) ==> !spec_is_mouse_key(r.0.0.0),
{
    let mut mods_to_release = rel0;
    let mut mods_to_restore = rest0;
    let (mask, pre_mask, post_mask) = mask_remap_end(&mut mods_to_release, &mut mods_to_restore, remap);
    let m = (mask, pre_mask, post_mask, mods_to_release, mods_to_restore);
    proof {
        lemma_mask_remap_props(
            spec_is_mouse_key(remap.key.0) && spec_should_mask_projected(spec_project_mods(rel0), remap.mods),
            spec_project_mods(rel0),
            rel0,
            rest0,
        );
        lemma_disjoint_within(rel0.0, rest0.0, mods_to_release.0, mods_to_restore.0);
        lemma_mask_seg_len(m);
    }
    let n = b2u(pre_mask) + (mods_to_release | mods_to_restore).count_ones() + b2u(post_mask);
    (m, n)
}

/// Appends the inputs of a mask decision.
fn push_seg(ib: InputBuilder, m: (Key, bool, bool, Mods, Mods)) -> (r: InputBuilder)
    requires
        (m.1 || m.2) ==> !spec_is_mouse_key(m.0.0),
    ensures
        r@ == ib@ + mask_seg(m),
{
    let (mask, pre_mask, post_mask, up, down) = m;
    let r = ib.key_down_if(mask, pre_mask).mods_up(up).mods_down(down).key_up_if(mask, post_mask);
    assert(r@ =~= ib@ + mask_seg(m));
    r
}

proof fn lemma_add_empty<T>(s: Seq<T>)
    ensures
        s + Seq::<T>::empty() == s,
{
    assert(s + Seq::<T>::empty() =~= s);
}

fn emit<A, R>(out: &mut Vec<Command<A, R>>, c: Command<A, R>)
    ensures
        cmds_view(final(out)@) == cmds_view(old(out)@).push(c.view()),
        final(out)@ == old(out)@.push(c),
{
    let ghost cv = c.view();
    out.push(c);
    assert(cmds_view(out@) =~= cmds_view(old(out)@).push(cv));
}

/// Two sets that lie within disjoint sets are disjoint, and count together
/// as many modifiers as their union.
proof fn lemma_disjoint_within(a: u8, b: u8, a2: u8, b2: u8)
    requires
        a & b == 0,
        a2 & !a == 0,
        b2 & !b == 0,
    ensures
        a2 & b2 == 0,
        popcount(a2 | b2) == popcount(a2) + popcount(b2),
{
    assert(a2 & b2 == 0) by (bit_vector)
        requires
            a & b == 0,
            a2 & !a == 0,
            b2 & !b == 0,
    ;
    lemma_popcount_disjoint_union(a2, b2);
}

/// What a mask decision sends is as long as the counts that the handler adds up.
proof fn lemma_mask_seg_len(m: (Key, bool, bool, Mods, Mods))
    requires
        m.3.0 & m.4.0 == 0,
    ensures
        mask_seg(m).len() == (if m.1 { 1int } else { 0 }) + popcount(m.3.0 | m.4.0) + (if m.2 { 1int } else { 0 }),
{
    lemma_mods_inputs_len(m.3, false);
    lemma_mods_inputs_len(m.4, true);
    lemma_popcount_disjoint_union(m.3.0, m.4.0);
}

fn b2u(b: bool) -> (r: u32)
    ensures
        r == (if b { 1u32 } else { 0u32 }),
{
    if b { 1 } else { 0 }
}

} // verus!


verus! {

/// Whether the hotkeys that are not exempt are off.
pub struct Suspension {
    suspended: bool,
}

impl Suspension {
    pub closed spec fn view(&self) -> bool {
        self.suspended
    }

    /// Hotkeys on.
    pub fn new() -> (r: Self)
        ensures
            !r.view(),
    {
        Suspension { suspended: false }
    }
}

pub fn is_suspended(s: &Suspension) -> (r: bool)
    ensures
        r == s.view(),
{
    s.suspended
}

/// Turns the hotkeys off (`true`) or on.
pub fn suspend(s: &mut Suspension, state: bool)
    ensures
        final(s).view() == state,
{
    s.suspended = state;
}

/// The suspension after a toggle.
pub open spec fn toggled(s: bool) -> bool {
    !s
}

/// Turns the hotkeys off where they are on and on where they are off; the
/// new state is returned.
pub fn suspend_tgl(s: &mut Suspension) -> (r: bool)
    ensures
        r == toggled(old(s).view()),
        final(s).view() == r,
{
    s.suspended = !s.suspended;
    s.suspended
}

/// Toggling the suspension twice leaves it as it was, and each toggle
/// reports the state that it leaves.
pub proof fn law_suspend_tgl_twice(s: bool)
    ensures
        toggled(toggled(s)) == s,
        toggled(s) != s,
{
}

} // verus!
