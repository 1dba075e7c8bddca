use i44::input::constants::{CALL_NEXT, CALL_NEXT_END, KEYEVENTF_EXTENDEDKEY, KEYEVENTF_KEYUP, KEYEVENTF_SCANCODE,
    MOUSEEVENTF_LEFTDOWN};
use i44::input::extensions::Input;
use i44::input::key_sender::InputBuilder;
use i44::input::keys::{self, Key};
use i44::input::mods::{self, Mods};

const DOWN: u32 = KEYEVENTF_SCANCODE;
const UP: u32 = KEYEVENTF_SCANCODE | KEYEVENTF_KEYUP;
const EXT: u32 = KEYEVENTF_EXTENDEDKEY;

fn kb(scan: u16, flags: u32, extra: usize) -> Input {
    Input::Keybd { scan, flags, extra }
}

#[test]
fn sender_presses_ctrl_first() {
    let v = InputBuilder::with_capacity(8)
        .mods_down(Mods(mods::LC | mods::RS | mods::LA | mods::RC))
        .key_down(Key(keys::A))
        .build();
    assert_eq!(
        v,
        vec![
            kb(keys::LCTRL, DOWN, CALL_NEXT),
            kb(keys::RCTRL, DOWN | EXT, CALL_NEXT),
            kb(keys::LALT, DOWN, CALL_NEXT),
            kb(keys::RSHIFT, DOWN, CALL_NEXT),
            kb(keys::A, DOWN, CALL_NEXT_END),
        ]
    );
}

#[test]
fn sender_releases_ctrl_last() {
    let v = InputBuilder::with_capacity(8).mods_up(Mods(mods::LC | mods::LW | mods::RA)).build();
    assert_eq!(
        v,
        vec![
            kb(keys::LWIN, UP | EXT, CALL_NEXT),
            kb(keys::RALT, UP | EXT, CALL_NEXT),
            kb(keys::LCTRL, UP, CALL_NEXT_END),
        ]
    );
}

#[test]
fn sender_masks_the_whole_set() {
    let v = InputBuilder::with_capacity(8).mods_up_masked(Mods(mods::LA | mods::LW), true).build();
    assert_eq!(
        v,
        vec![
            kb(keys::LCTRL, DOWN, CALL_NEXT),
            kb(keys::LALT, UP, CALL_NEXT),
            kb(keys::LWIN, UP | EXT, CALL_NEXT),
            kb(keys::LCTRL, UP, CALL_NEXT_END),
        ]
    );
    let v = InputBuilder::with_capacity(8).mods_down_masked(Mods(mods::LS), true).build();
    assert_eq!(
        v,
        vec![kb(keys::LCTRL, DOWN, CALL_NEXT), kb(keys::LSHIFT, DOWN, CALL_NEXT), kb(keys::LCTRL, UP, CALL_NEXT_END)]
    );
}

#[test]
fn sender_without_mods_adds_nothing() {
    let v = InputBuilder::with_capacity(2)
        .mods_down_masked(Mods(mods::NONE), true)
        .mods_up_masked(Mods(mods::NONE), true)
        .key_up(Key(keys::B))
        .build();
    assert_eq!(v, vec![kb(keys::B, UP, CALL_NEXT_END)]);
}

#[test]
fn sender_mouse_and_conditional_keys() {
    let v = InputBuilder::with_capacity(4)
        .key_down(Key(keys::LBUTTON))
        .key_up_if(Key(keys::LBUTTON), false)
        .key_up_if(Key(keys::LBUTTON), true)
        .build();
    assert_eq!(
        v,
        vec![
            Input::Mouse { data: 0, flags: MOUSEEVENTF_LEFTDOWN, extra: CALL_NEXT },
            Input::Mouse { data: 0, flags: MOUSEEVENTF_LEFTDOWN * 2, extra: CALL_NEXT_END },
        ]
    );
}
