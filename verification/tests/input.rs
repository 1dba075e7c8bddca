use i44::input::constants::{CALL_NEXT, CALL_NEXT_END, KEYEVENTF_EXTENDEDKEY, KEYEVENTF_KEYUP,
    KEYEVENTF_SCANCODE, KEYEVENTF_UNICODE, MOUSEEVENTF_LEFTDOWN, MOUSEEVENTF_WHEEL, WHEEL_DELTA};
use i44::input::extensions::{get_mouse_data, Input};
use i44::input::helpers::{is_extended_key, is_mouse_button, is_mouse_key, is_mouse_wheel};
use i44::input::hotkey::{paired, Hotkey};
use i44::input::input_builder::InputBuilder;
use i44::input::key_event::KeyEvent;
use i44::input::keys::{self, Key};
use i44::input::masks::{get_last_mod, get_mod, get_mod_except, project_mods, should_mask_last};
use i44::input::mods::{self, Mods};
use std::time::Duration;

fn kb(scan: u16, flags: u32, extra: usize) -> Input {
    Input::Keybd { scan, flags, extra }
}

#[test]
fn key_classes() {
    assert!(is_mouse_key(Key(keys::LBUTTON)));
    assert!(is_mouse_key(Key(keys::WH_UP_X2)));
    assert!(!is_mouse_key(Key(keys::A)));
    assert!(is_mouse_wheel(Key(keys::WH_RIGHT)));
    assert!(!is_mouse_wheel(Key(keys::XBUTTON2)));
    assert!(is_mouse_button(Key(keys::XBUTTON2)));
    assert!(!is_mouse_button(Key(keys::WH_UP)));
    assert!(is_extended_key(Key(keys::RCTRL)));
    assert!(!is_extended_key(Key(keys::LCTRL)));
    assert!(Key(keys::WH_DOWN_X3).is_mouse_wheel());
}

#[test]
fn mods_sets() {
    let m = Mods(mods::LCS);
    assert_eq!(m.count_ones(), 2);
    assert!(m.has(Mods(mods::LC)));
    assert!(!m.has(Mods(mods::LCA)));
    assert!(m.has_any(Mods(mods::LCA)));
    assert!(Mods(mods::NONE).is_none());
    assert_eq!(Mods(mods::LC) | Mods(mods::RS), Mods(mods::LC_RS));
    assert_eq!(Mods(mods::LCSAW).count_ones(), 4);
    assert_eq!(Mods(0xFF).count_ones(), 8);
}

#[test]
fn last_mod_and_projection() {
    // the highest modifier of each hand; the right hand wins a tie
    assert_eq!(get_last_mod(Mods(mods::LCS)), Mods(mods::LS));
    assert_eq!(get_last_mod(Mods(mods::LC | mods::RC)), Mods(mods::RC));
    assert_eq!(get_last_mod(Mods(mods::LW | mods::RC)), Mods(mods::LW));
    assert_eq!(get_last_mod(Mods(mods::NONE)), Mods(mods::NONE));
    assert_eq!(project_mods(Mods(mods::RA)), Mods(mods::LA_RA));
    assert_eq!(project_mods(Mods(mods::LC | mods::RS)), Mods(mods::LCS_RCS));
    assert_eq!(get_mod(Key(keys::RALT)), Mods(mods::RA));
    assert_eq!(get_mod(Key(keys::A)), Mods(mods::NONE));
    // the lowest modifier of each hand; the left hand wins a tie
    let km = get_mod_except(Mods(mods::NONE), Mods(mods::LA | mods::RC)).unwrap();
    assert_eq!(km.mods, Mods(mods::RC));
    assert_eq!(km.key, Key(keys::RCTRL));
    let km = get_mod_except(Mods(mods::NONE), Mods(mods::LS | mods::RS)).unwrap();
    assert_eq!(km.key, Key(keys::LSHIFT));
    assert!(get_mod_except(Mods(mods::LCS), Mods(mods::LC)).is_none());
    assert!(should_mask_last(Mods(mods::LA), Mods(mods::LA)));
    assert!(!should_mask_last(Mods(mods::LA), Mods(mods::LCA)));
    assert!(should_mask_last(Mods(mods::LW), Mods(mods::LW)));
    assert!(!should_mask_last(Mods(mods::LS), Mods(mods::LS)));
}

#[test]
fn input_shapes() {
    let down = Input::keybd_down(Key(keys::RCTRL), CALL_NEXT);
    assert_eq!(down, kb(keys::RCTRL, KEYEVENTF_SCANCODE | KEYEVENTF_EXTENDEDKEY, CALL_NEXT));
    let up = Input::keybd_up(Key(keys::A), 7);
    assert_eq!(up, kb(keys::A, KEYEVENTF_SCANCODE | KEYEVENTF_KEYUP, 7));
    assert_eq!(get_mouse_data(keys::LBUTTON), (MOUSEEVENTF_LEFTDOWN, 0));
    assert_eq!(get_mouse_data(keys::WH_UP_X3), (MOUSEEVENTF_WHEEL, 3 * WHEEL_DELTA));
    assert_eq!(get_mouse_data(keys::WH_DOWN), (MOUSEEVENTF_WHEEL, 0u32.wrapping_sub(WHEEL_DELTA)));
    let mut i = Input::mouse_up(Key(keys::LBUTTON), CALL_NEXT);
    assert_eq!(i, Input::Mouse { data: 0, flags: MOUSEEVENTF_LEFTDOWN * 2, extra: CALL_NEXT });
    i.set_extra(CALL_NEXT_END);
    assert_eq!(i, Input::Mouse { data: 0, flags: MOUSEEVENTF_LEFTDOWN * 2, extra: CALL_NEXT_END });
}

#[test]
fn builder_modifier_order() {
    // presses go LCtrl, RCtrl, LShift, ...; releases the other way round
    let b = InputBuilder::with_capacity(4).mods_down(Mods(mods::LC | mods::RS)).mods_up(Mods(mods::LC | mods::RS)).build();
    assert_eq!(
        b,
        vec![
            kb(keys::LCTRL, KEYEVENTF_SCANCODE, CALL_NEXT),
            kb(keys::RSHIFT, KEYEVENTF_SCANCODE, CALL_NEXT),
            kb(keys::RSHIFT, KEYEVENTF_SCANCODE | KEYEVENTF_KEYUP, CALL_NEXT),
            kb(keys::LCTRL, KEYEVENTF_SCANCODE | KEYEVENTF_KEYUP, CALL_NEXT_END),
        ]
    );
}

#[test]
fn builder_masked_release() {
    let b = InputBuilder::with_capacity(3).mods_up_masked(Mods(mods::LA), true).build();
    assert_eq!(
        b,
        vec![
            kb(keys::LCTRL, KEYEVENTF_SCANCODE, CALL_NEXT),
            kb(keys::LALT, KEYEVENTF_SCANCODE | KEYEVENTF_KEYUP, CALL_NEXT),
            kb(keys::LCTRL, KEYEVENTF_SCANCODE | KEYEVENTF_KEYUP, CALL_NEXT_END),
        ]
    );
    // nothing to release: no mask either
    let b = InputBuilder::with_capacity(1).mods_up_masked(Mods(mods::NONE), true).key_down(Key(keys::A)).build();
    assert_eq!(b, vec![kb(keys::A, KEYEVENTF_SCANCODE, CALL_NEXT_END)]);
}

#[test]
fn builder_conditional_keys() {
    let b = InputBuilder::with_capacity(2)
        .key_down_if(Key(keys::B), false)
        .key_down_if(Key(keys::C), true)
        .key_up_if(Key(keys::C), true)
        .build();
    assert_eq!(
        b,
        vec![
            kb(keys::C, KEYEVENTF_SCANCODE, CALL_NEXT),
            kb(keys::C, KEYEVENTF_SCANCODE | KEYEVENTF_KEYUP, CALL_NEXT_END),
        ]
    );
}

#[test]
fn unicode_typing() {
    // one unit: press then release; the end tag goes to the unit count's last index
    let v = InputBuilder::unicode("«");
    assert_eq!(
        v,
        vec![kb(0xAB, KEYEVENTF_UNICODE, CALL_NEXT_END), kb(0xAB, KEYEVENTF_UNICODE | KEYEVENTF_KEYUP, CALL_NEXT)]
    );
    // a surrogate pair: both presses, then both releases
    let v = InputBuilder::unicode("😀");
    assert_eq!(v.len(), 4);
    assert_eq!(v[0], kb(0xD83D, KEYEVENTF_UNICODE, CALL_NEXT));
    assert_eq!(v[1], kb(0xDE00, KEYEVENTF_UNICODE, CALL_NEXT_END));
    assert_eq!(v[2], kb(0xD83D, KEYEVENTF_UNICODE | KEYEVENTF_KEYUP, CALL_NEXT));
    assert_eq!(v[3], kb(0xDE00, KEYEVENTF_UNICODE | KEYEVENTF_KEYUP, CALL_NEXT));
    let v = InputBuilder::unicode("ab");
    assert_eq!(v.len(), 4);
    assert_eq!(v[1], kb(b'a' as u16, KEYEVENTF_UNICODE | KEYEVENTF_KEYUP, CALL_NEXT_END));
}

#[test]
fn unit_pairing() {
    assert!(paired(&vec![0x61, 0xD83D, 0xDE00]));
    assert!(!paired(&vec![0x61, 0xD83D]));
    // units from 0xE000 up are taken as the start of a pair too
    assert!(!paired(&vec![0xFB01]));
    assert!(paired(&vec![]));
}

#[test]
fn hotkey_sendability() {
    assert!(Hotkey::<(), ()>::Remap(Mods(mods::LC), Key(keys::T)).is_sendable());
    assert!(Hotkey::<(), ()>::Remap(Mods(mods::NONE), Key(keys::WH_UP_X2)).is_sendable());
    assert!(!Hotkey::<(), ()>::Remap(Mods(mods::NONE), Key(0x0209)).is_sendable());
    assert!(Hotkey::<(), ()>::Unicode("—").is_sendable());
    assert!(!Hotkey::<(), ()>::Unicode("ﬁ").is_sendable());
    assert!(Hotkey::<(), ()>::Suppress.is_sendable());
    assert!(matches!(Hotkey::<(), ()>::Default.ok::<()>(), Ok(Hotkey::Default)));
}

#[test]
fn key_event_release() {
    let (event, notf) = KeyEvent::new();
    assert!(!event.is_up());
    let other = notf.clone();
    notf.notify();
    assert!(event.is_up());
    assert!(!event.wait_timeout(Duration::from_millis(1)));
    other.notify();
    assert!(event.wait_timeout(Duration::from_millis(1)));
    drop(event);
}

#[test]
fn key_event_gone_notifier() {
    let (event, notf) = KeyEvent::new();
    drop(notf);
    // a vanished notifier means the key is up
    assert!(event.is_up());
    assert!(event.wait_timeout(Duration::from_millis(1)));
}

use i44::input::constants::CACHED_EVENT;
use i44::input::hook::{foreign_injected, hook_tag, kb_get_key, loop_step, ms_get_key, needs_scan_lookup, HookTag,
    KbHookEvent, LoopStep, WM_LBUTTONUP, WM_MOUSEHWHEEL, WM_MOUSEMOVE, WM_MOUSEWHEEL, WM_XBUTTONDOWN};

fn ev(scan: u32, vk: u32, injected: bool, extended: bool, up: bool, extra: usize) -> KbHookEvent {
    KbHookEvent { scan, vk, injected, extended, up, extra }
}

#[test]
fn hook_tags() {
    assert_eq!(hook_tag(CALL_NEXT), HookTag::Own);
    assert_eq!(hook_tag(CALL_NEXT_END), HookTag::OwnEnd);
    assert_eq!(hook_tag(0), HookTag::Other);
    assert_eq!(hook_tag(CACHED_EVENT), HookTag::Other);
}

#[test]
fn keyboard_hook_keys() {
    // extended keys get the 0xE0 prefix, but for the right shift
    assert_eq!(kb_get_key(&ev(0x1D, 0xA3, false, true, false, 0), 0), Some((Key(keys::RCTRL), true)));
    assert_eq!(kb_get_key(&ev(0x36, 0xA1, false, true, true, 0), 0), Some((Key(keys::RSHIFT), false)));
    assert_eq!(kb_get_key(&ev(0x1E, 0x41, false, false, false, 0), 0), Some((Key(keys::A), true)));
    // injected by another program: not a key of ours
    assert_eq!(kb_get_key(&ev(0x1E, 0x41, true, false, false, 0), 0), None);
    // injected by us, cached: taken as typed
    assert_eq!(kb_get_key(&ev(0x1E, 0x41, true, false, true, CACHED_EVENT), 0), Some((Key(keys::A), false)));
    // an injected consumer key without a scan code takes its looked-up one
    let media = ev(0, 0xB3, true, false, false, 0);
    assert!(needs_scan_lookup(&media));
    assert_eq!(kb_get_key(&media, 0xE022), Some((Key(0xE022), true)));
    assert!(!needs_scan_lookup(&ev(0, 0xB8, true, false, false, 0)));
}

#[test]
fn mouse_hook_keys() {
    assert_eq!(ms_get_key(WM_LBUTTONUP, 0), Some((Key(keys::LBUTTON), false)));
    assert_eq!(ms_get_key(WM_XBUTTONDOWN, 2 << 16), Some((Key(keys::XBUTTON2), true)));
    assert_eq!(ms_get_key(WM_XBUTTONDOWN, 3 << 16), None);
    assert_eq!(ms_get_key(WM_MOUSEWHEEL, 120 << 16), Some((Key(keys::WH_UP), true)));
    assert_eq!(ms_get_key(WM_MOUSEWHEEL, 0xFF88 << 16), Some((Key(keys::WH_DOWN), true)));
    assert_eq!(ms_get_key(WM_MOUSEHWHEEL, 0xFF88 << 16), Some((Key(keys::WH_LEFT), true)));
    assert_eq!(ms_get_key(WM_MOUSEHWHEEL, 120 << 16), Some((Key(keys::WH_RIGHT), true)));
    assert_eq!(ms_get_key(WM_MOUSEWHEEL, 0), None);
    assert_eq!(ms_get_key(WM_MOUSEMOVE, 0), None);
    assert!(foreign_injected(1, 0));
    assert!(!foreign_injected(1, CACHED_EVENT));
    assert!(!foreign_injected(0, 0));
}

#[test]
fn message_loop_steps() {
    assert_eq!(loop_step(-1), LoopStep::Failed);
    assert_eq!(loop_step(0), LoopStep::Quit);
    assert_eq!(loop_step(1), LoopStep::Dispatch);
}
