use std::sync::mpsc::{TryRecvError, TrySendError};
use i44::input::constants::{CACHED_EVENT, CALL_NEXT, CALL_NEXT_END, KEYEVENTF_KEYUP, KEYEVENTF_SCANCODE,
    KEYEVENTF_UNICODE};
use i44::input::extensions::Input;
use i44::input::handler::{is_suspended, suspend, suspend_tgl, Command, Handler, InputMsg, Step, Suspension};
use i44::input::handler_spec::Verdict;
use i44::input::hotkey::Hotkey;
use i44::input::keys::{self, Key};
use i44::input::mods::{self, Mods};

fn kb(scan: u16, flags: u32, extra: usize) -> Input {
    Input::Keybd { scan, flags, extra }
}

const DOWN: u32 = KEYEVENTF_SCANCODE;
const UP: u32 = KEYEVENTF_SCANCODE | KEYEVENTF_KEYUP;

type H = Handler<u32>;
type S = Step<u32, u8, u16>;

fn sent(s: &S) -> Vec<Vec<Input>> {
    s.commands
        .iter()
        .filter_map(|c| match c {
            Command::Send(InputMsg::Many(v)) => Some(v.clone()),
            Command::Send(InputMsg::Single(i)) => Some(vec![*i]),
            _ => None,
        })
        .collect()
}

fn press(h: &mut H, key: u16) -> S {
    h.on_keybd(Key(key), true, false)
}

fn release(h: &mut H, key: u16) -> S {
    h.on_keybd(Key(key), false, false)
}

#[test]
fn unregistered_keys_pass() {
    let mut h: H = Handler::new();
    let s = press(&mut h, keys::A);
    assert_eq!(s.verdict, Verdict::Pass);
    assert!(s.commands.is_empty());
    let s = release(&mut h, keys::A);
    assert_eq!(s.verdict, Verdict::Pass);
    assert_eq!(h.send_count(), 0);
}

#[test]
fn remap_press_and_release() {
    let mut h: H = Handler::new();
    h.hotkey(Mods(mods::NONE), Key(keys::B), 7);
    h.hotkey(Mods(mods::NONE), Key(keys::C), 8);
    assert!(h.has_hotkey(Mods(mods::NONE), Key(keys::B)));
    let s = press(&mut h, keys::B);
    assert_eq!(s.verdict, Verdict::Lookup(7));
    assert!(h.has_pending());
    let s: S = h.resolve(Some(Hotkey::Remap(Mods(mods::LC), Key(keys::T))));
    assert_eq!(s.verdict, Verdict::Block);
    assert_eq!(sent(&s), vec![vec![kb(keys::LCTRL, DOWN, CALL_NEXT), kb(keys::T, DOWN, CALL_NEXT_END)]]);
    assert_eq!(h.send_count(), 1);
    assert!(!h.has_pending());

    // while the batch is in flight, events are held back; a release is sent again, cached
    let s = press(&mut h, keys::A);
    assert_eq!(s.verdict, Verdict::Block);
    assert!(s.commands.is_empty());
    let s = release(&mut h, keys::A);
    assert_eq!(s.verdict, Verdict::Block);
    assert_eq!(sent(&s), vec![vec![kb(keys::A, UP, CACHED_EVENT)]]);
    assert_eq!(h.send_count(), 1);

    h.on_batch_end();
    assert_eq!(h.send_count(), 0);

    // releasing the entry key releases the remap, restoring the modifiers
    let s = release(&mut h, keys::B);
    assert_eq!(s.verdict, Verdict::Block);
    assert_eq!(sent(&s), vec![vec![kb(keys::T, UP, CALL_NEXT), kb(keys::LCTRL, UP, CALL_NEXT_END)]]);
    h.on_batch_end();

    // the modifiers are back as before the press: a plain C is looked up
    let s = press(&mut h, keys::C);
    assert_eq!(s.verdict, Verdict::Lookup(8));
}

#[test]
fn remap_auto_repeat() {
    let mut h: H = Handler::new();
    h.hotkey(Mods(mods::NONE), Key(keys::B), 1);
    press(&mut h, keys::B);
    let _: S = h.resolve(Some(Hotkey::Remap(Mods(mods::NONE), Key(keys::T))));
    h.on_batch_end();
    // a repeat of the entry key repeats the remapped key, as a batch of its own
    let s = press(&mut h, keys::B);
    assert_eq!(s.verdict, Verdict::Block);
    assert_eq!(sent(&s), vec![vec![kb(keys::T, DOWN, CALL_NEXT_END)]]);
    assert_eq!(h.send_count(), 1);
}

#[test]
fn suppress_until_release() {
    let mut h: H = Handler::new();
    h.hotkey(Mods(mods::NONE), Key(keys::K), 3);
    assert_eq!(press(&mut h, keys::K).verdict, Verdict::Lookup(3));
    let s: S = h.resolve(Some(Hotkey::Suppress));
    assert_eq!(s.verdict, Verdict::Block);
    assert!(s.commands.is_empty());
    // auto-repeat swallowed
    let s = press(&mut h, keys::K);
    assert_eq!(s.verdict, Verdict::Block);
    assert!(!h.has_pending());
    // release swallowed, and the suppression ends
    assert_eq!(release(&mut h, keys::K).verdict, Verdict::Block);
    assert_eq!(press(&mut h, keys::K).verdict, Verdict::Lookup(3));
}

#[test]
fn suppress_once() {
    let mut h: H = Handler::new();
    h.hotkey(Mods(mods::NONE), Key(keys::K), 3);
    press(&mut h, keys::K);
    let _: S = h.resolve(Some(Hotkey::SuppressOnce));
    // a second press goes on to the hotkey again
    assert_eq!(press(&mut h, keys::K).verdict, Verdict::Lookup(3));
}

#[test]
fn failed_hotkey_blocks() {
    let mut h: H = Handler::new();
    h.hotkey(Mods(mods::NONE), Key(keys::K), 3);
    press(&mut h, keys::K);
    let s: S = h.resolve(None);
    assert_eq!(s.verdict, Verdict::Block);
    assert!(s.commands.is_empty());
}

#[test]
fn default_lets_key_through() {
    let mut h: H = Handler::new();
    h.hotkey(Mods(mods::NONE), Key(keys::G), 4);
    press(&mut h, keys::G);
    let s: S = h.resolve(Some(Hotkey::Default));
    assert_eq!(s.verdict, Verdict::Pass);
    // its repeats go through without a lookup
    assert_eq!(press(&mut h, keys::G).verdict, Verdict::Pass);
    assert_eq!(release(&mut h, keys::G).verdict, Verdict::Pass);
    assert_eq!(press(&mut h, keys::G).verdict, Verdict::Lookup(4));
}

#[test]
fn modifiers_select_the_hotkey() {
    let mut h: H = Handler::new();
    h.hotkey(Mods(mods::LS), Key(keys::K), 5);
    h.hotkey(Mods(mods::NONE), Key(keys::K), 6);
    assert_eq!(press(&mut h, keys::LSHIFT).verdict, Verdict::Pass);
    assert_eq!(press(&mut h, keys::K).verdict, Verdict::Lookup(5));
    let _: S = h.resolve(None);
    release(&mut h, keys::K);
    assert_eq!(release(&mut h, keys::LSHIFT).verdict, Verdict::Pass);
    assert_eq!(press(&mut h, keys::K).verdict, Verdict::Lookup(6));
}

#[test]
fn unicode_releases_modifiers_first() {
    let mut h: H = Handler::new();
    h.hotkey(Mods(mods::LS), Key(keys::K), 5);
    press(&mut h, keys::LSHIFT);
    press(&mut h, keys::K);
    let s: S = h.resolve(Some(Hotkey::Unicode("«")));
    assert_eq!(s.verdict, Verdict::Block);
    assert_eq!(
        sent(&s),
        vec![
            vec![kb(keys::LSHIFT, UP, CALL_NEXT_END)],
            vec![kb(0xAB, KEYEVENTF_UNICODE, CALL_NEXT_END), kb(0xAB, KEYEVENTF_UNICODE | KEYEVENTF_KEYUP, CALL_NEXT)],
        ]
    );
    assert_eq!(h.send_count(), 2);
    h.on_batch_end();
    h.on_batch_end();
    // releasing the key presses the modifier again
    let s = release(&mut h, keys::K);
    assert_eq!(sent(&s), vec![vec![kb(keys::LSHIFT, DOWN, CALL_NEXT_END)]]);
}

#[test]
fn action_learns_release() {
    let mut h: H = Handler::new();
    h.hotkey(Mods(mods::NONE), Key(keys::F21), 9);
    press(&mut h, keys::F21);
    let s: S = h.resolve(Some(Hotkey::Action(42)));
    assert_eq!(s.verdict, Verdict::Block);
    let event = match s.commands.into_iter().next() {
        Some(Command::Action(42, event)) => event,
        _ => panic!("expected an action"),
    };
    assert!(!event.is_up());
    // repeats are swallowed
    assert_eq!(press(&mut h, keys::F21).verdict, Verdict::Block);
    let s = release(&mut h, keys::F21);
    assert_eq!(s.verdict, Verdict::Block);
    match s.commands.into_iter().next() {
        Some(Command::Notify(n)) => n.notify(),
        _ => panic!("expected a notification"),
    }
    assert!(event.is_up());
}

#[test]
fn repeating_action_ticks() {
    let mut h: H = Handler::new();
    h.hotkey(Mods(mods::NONE), Key(keys::F20), 9);
    press(&mut h, keys::F20);
    let s: S = h.resolve(Some(Hotkey::ActionRepeat(11)));
    assert!(matches!(s.commands.first(), Some(Command::ActionRepeat(11, _))));
    let s = press(&mut h, keys::F20);
    assert_eq!(s.verdict, Verdict::Block);
    assert!(matches!(s.commands.first(), Some(Command::Tick(_))));
    let s = release(&mut h, keys::F20);
    assert_eq!(s.verdict, Verdict::Block);
    assert!(s.commands.is_empty());
}

#[test]
fn wheel_remap_at_once() {
    let mut h: H = Handler::new();
    h.hotkey(Mods(mods::NONE), Key(keys::WH_UP), 2);
    let s: S = h.on_mouse(Key(keys::WH_UP), true, false);
    assert_eq!(s.verdict, Verdict::Lookup(2));
    let s: S = h.resolve(Some(Hotkey::Remap(Mods(mods::LC), Key(keys::A))));
    assert_eq!(s.verdict, Verdict::Block);
    assert_eq!(
        sent(&s),
        vec![vec![
            kb(keys::LCTRL, DOWN, CALL_NEXT),
            kb(keys::A, DOWN, CALL_NEXT),
            kb(keys::A, UP, CALL_NEXT),
            kb(keys::LCTRL, UP, CALL_NEXT_END),
        ]]
    );
}

#[test]
fn wheel_action_is_released_at_once() {
    let mut h: H = Handler::new();
    h.hotkey(Mods(mods::NONE), Key(keys::WH_DOWN), 2);
    let _: S = h.on_mouse(Key(keys::WH_DOWN), true, false);
    let s: S = h.resolve(Some(Hotkey::Action(1)));
    let mut it = s.commands.into_iter();
    match (it.next(), it.next()) {
        (Some(Command::Notify(n)), Some(Command::Action(1, event))) => {
            n.notify();
            assert!(event.is_up());
        },
        _ => panic!("expected a notification, then the action"),
    }
}

#[test]
fn suspended_hotkeys() {
    let mut h: H = Handler::new();
    h.hotkey(Mods(mods::NONE), Key(keys::B), 1);
    h.hotkey_exempt(Mods(mods::NONE), Key(keys::F23), 2);
    let s: S = h.on_keybd(Key(keys::B), true, true);
    assert_eq!(s.verdict, Verdict::Pass);
    let s: S = h.on_keybd(Key(keys::F23), true, true);
    assert_eq!(s.verdict, Verdict::Lookup(2));
}

#[test]
fn suspension_toggles() {
    let mut s = Suspension::new();
    assert!(!is_suspended(&s));
    assert!(suspend_tgl(&mut s));
    assert!(is_suspended(&s));
    assert!(!suspend_tgl(&mut s));
    assert!(!is_suspended(&s));
    suspend(&mut s, true);
    assert!(is_suspended(&s));
}

#[test]
fn mouse_button_release_cached_while_in_flight() {
    let mut h: H = Handler::new();
    h.hotkey(Mods(mods::NONE), Key(keys::B), 1);
    press(&mut h, keys::B);
    let _: S = h.resolve(Some(Hotkey::Remap(Mods(mods::NONE), Key(keys::T))));
    let s: S = h.on_mouse(Key(keys::LBUTTON), false, false);
    assert_eq!(s.verdict, Verdict::Block);
    assert_eq!(sent(&s), vec![vec![Input::mouse_up(Key(keys::LBUTTON), CACHED_EVENT)]]);
}

#[test]
fn repeat_tick_reaches_action() {
    let mut h: H = Handler::new();
    h.hotkey(Mods(mods::NONE), Key(keys::F20), 9);
    press(&mut h, keys::F20);
    let s: S = h.resolve(Some(Hotkey::ActionRepeat(11)));
    let signal = match s.commands.into_iter().next() {
        Some(Command::ActionRepeat(11, signal)) => signal,
        _ => panic!("expected a repeated action"),
    };
    let ticker = match press(&mut h, keys::F20).commands.into_iter().next() {
        Some(Command::Tick(t)) => t,
        _ => panic!("expected a tick"),
    };
    // the tick's channel is the action's: it is alive, and holds no signal
    // until the action waits on it
    assert!(matches!(ticker.sender().try_send(()), Err(TrySendError::Full(()))));
    drop(ticker);
    assert!(matches!(signal.receiver().try_recv(), Err(TryRecvError::Empty)));
    // the release drops the handler's end: the action's wait ends
    assert_eq!(release(&mut h, keys::F20).verdict, Verdict::Block);
    assert!(matches!(signal.receiver().try_recv(), Err(TryRecvError::Disconnected)));
}

/// The modifiers held after the inputs, starting from `held`.
fn held_after(mut held: u8, inputs: &[Input]) -> u8 {
    for i in inputs {
        if let Input::Keybd { scan, flags, .. } = *i {
            let bit = match scan {
                keys::LCTRL => mods::LC,
                keys::LSHIFT => mods::LS,
                keys::LALT => mods::LA,
                keys::LWIN => mods::LW,
                keys::RCTRL => mods::RC,
                keys::RSHIFT => mods::RS,
                keys::RALT => mods::RA,
                keys::RWIN => mods::RW,
                _ => 0,
            };
            if flags & KEYEVENTF_UNICODE != 0 {
            } else if flags & KEYEVENTF_KEYUP != 0 {
                held &= !bit;
            } else {
                held |= bit;
            }
        }
    }
    held
}

#[test]
fn wheel_remap_keeps_held_mods() {
    let mut h: H = Handler::new();
    h.hotkey(Mods(mods::LA), Key(keys::WH_UP), 2);
    assert_eq!(press(&mut h, keys::LALT).verdict, Verdict::Pass);
    let s: S = h.on_mouse(Key(keys::WH_UP), true, false);
    assert_eq!(s.verdict, Verdict::Lookup(2));
    let s: S = h.resolve(Some(Hotkey::Remap(Mods(mods::LC | mods::LS), Key(keys::TAB))));
    let batches = sent(&s);
    assert_eq!(batches.len(), 1);
    // the batch lets Alt go for Ctrl+Shift+Tab and brings it back
    assert_eq!(held_after(mods::LA, &batches[0]), mods::LA);
    assert!(batches[0].contains(&kb(keys::TAB, DOWN, CALL_NEXT)));
}
