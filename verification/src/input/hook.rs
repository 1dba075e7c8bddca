use vstd::prelude::*;
use super::keys::{self, Key};
use super::constants::{CALL_NEXT, CALL_NEXT_END, CACHED_EVENT};

verus! {

/// Mouse messages that the mouse hook receives.
pub const WM_MOUSEMOVE: u32 = 0x0200;
pub const WM_LBUTTONDOWN: u32 = 0x0201;
pub const WM_LBUTTONUP: u32 = 0x0202;
pub const WM_RBUTTONDOWN: u32 = 0x0204;
pub const WM_RBUTTONUP: u32 = 0x0205;
pub const WM_MBUTTONDOWN: u32 = 0x0207;
pub const WM_MBUTTONUP: u32 = 0x0208;
pub const WM_MOUSEWHEEL: u32 = 0x020A;
pub const WM_XBUTTONDOWN: u32 = 0x020B;
pub const WM_XBUTTONUP: u32 = 0x020C;
pub const WM_MOUSEHWHEEL: u32 = 0x020E;

/// The first and last virtual keys of the consumer keys (browser, media,
/// launch keys), which injected events may carry without a scan code.
pub const VK_BROWSER_BACK: u32 = 0xA6;
pub const VK_LAUNCH_APP2: u32 = 0xB7;

/// Flag of an event that was injected rather than typed.
pub const LLMHF_INJECTED: u32 = 0x01;

/// Whose event a hook sees, by the tag it carries.
#[derive(Clone, Copy, PartialEq, Eq, Structural, Debug)]
pub enum HookTag {
    /// One of the handler's inputs, not the last of its batch.
    Own,
    /// The last input of one of the handler's batches.
    OwnEnd,
    /// Any other event.
    Other,
}

pub fn hook_tag(extra: usize) -> (r: HookTag)
    ensures
        r == if extra == CALL_NEXT {
            HookTag::Own
        } else if extra == CALL_NEXT_END {
            HookTag::OwnEnd
        } else {
            HookTag::Other
        },
{
    if extra == CALL_NEXT {
        HookTag::Own
    } else if extra == CALL_NEXT_END {
        HookTag::OwnEnd
    } else {
        HookTag::Other
    }
}

/// What a keyboard hook tells of an event.
#[derive(Clone, Copy, PartialEq, Eq, Structural, Debug)]
pub struct KbHookEvent {
    pub scan: u32,
    pub vk: u32,
    pub injected: bool,
    pub extended: bool,
    pub up: bool,
    pub extra: usize,
}

pub open spec fn spec_needs_scan_lookup(ev: KbHookEvent) -> bool {
    ev.injected && ev.scan as u16 == 0 && VK_BROWSER_BACK <= ev.vk as u16 <= VK_LAUNCH_APP2
}

/// Whether the scan code of an event must be looked up from its virtual key:
/// injected consumer keys come without one.
pub fn needs_scan_lookup(ev: &KbHookEvent) -> (r: bool)
    ensures
        r == spec_needs_scan_lookup(*ev),
{
    let vk = ev.vk as u16;
    ev.injected && ev.scan as u16 == 0 && VK_BROWSER_BACK as u16 <= vk && vk <= VK_LAUNCH_APP2 as u16
}

pub open spec fn spec_kb_get_key(ev: KbHookEvent, mapped_scan: u32) -> Option<(Key, bool)> {
    if spec_needs_scan_lookup(ev) {
        Some((Key(mapped_scan as u16), !ev.up))
    } else if ev.injected && ev.extra != CACHED_EVENT {
        None
    } else {
        let sc = ev.scan as u16;
        Some((Key(if ev.extended && sc != keys::RSHIFT { sc | 0xE000 } else { sc }), !ev.up))
    }
}

/// The key of a keyboard event and whether it is pressed; none for an
/// event injected by another program. `mapped_scan` is the scan code of the
/// event's virtual key, where [`needs_scan_lookup`] holds.
pub fn kb_get_key(ev: &KbHookEvent, mapped_scan: u32) -> (r: Option<(Key, bool)>)
    ensures
        r == spec_kb_get_key(*ev, mapped_scan),
{
    if needs_scan_lookup(ev) {
        return Some((Key(mapped_scan as u16), !ev.up));
    }
    if ev.injected && ev.extra != CACHED_EVENT {
        return None;
    }
    let sc = ev.scan as u16;
    let code = if ev.extended && sc != keys::RSHIFT { sc | 0xE000 } else { sc };
    Some((Key(code), !ev.up))
}

/// The upper half of mouse data, as a signed count: positive, negative or zero.
pub open spec fn high_sign(data: u32) -> int {
    let hi = (data >> 16u32) as u16;
    if hi == 0 {
        0
    } else if hi < 0x8000 {
        1
    } else {
        -1
    }
}

pub open spec fn spec_ms_get_key(msg: u32, data: u32) -> Option<(Key, bool)> {
    let x = (data >> 16u32) as u16;
    if msg == WM_LBUTTONDOWN {
        Some((Key(keys::LBUTTON), true))
    } else if msg == WM_LBUTTONUP {
        Some((Key(keys::LBUTTON), false))
    } else if msg == WM_RBUTTONDOWN {
        Some((Key(keys::RBUTTON), true))
    } else if msg == WM_RBUTTONUP {
        Some((Key(keys::RBUTTON), false))
    } else if msg == WM_MBUTTONDOWN {
        Some((Key(keys::MBUTTON), true))
    } else if msg == WM_MBUTTONUP {
        Some((Key(keys::MBUTTON), false))
    } else if (msg == WM_XBUTTONDOWN || msg == WM_XBUTTONUP) && (x == 1 || x == 2) {
        Some((Key(if x == 1 { keys::XBUTTON1 } else { keys::XBUTTON2 }), msg == WM_XBUTTONDOWN))
    } else if msg == WM_MOUSEWHEEL && high_sign(data) != 0 {
        Some((Key(if high_sign(data) > 0 { keys::WH_UP } else { keys::WH_DOWN }), true))
    } else if msg == WM_MOUSEHWHEEL && high_sign(data) != 0 {
        Some((Key(if high_sign(data) < 0 { keys::WH_LEFT } else { keys::WH_RIGHT }), true))
    } else {
        None
    }
}

/// The key of a mouse message and whether it is pressed (a wheel notch is
/// always a press); none for a message that names no key.
pub fn ms_get_key(msg: u32, data: u32) -> (r: Option<(Key, bool)>)
    ensures
        r == spec_ms_get_key(msg, data),
{
    let x = (data >> 16) as u16;
    if msg == WM_LBUTTONDOWN {
        Some((Key(keys::LBUTTON), true))
    } else if msg == WM_LBUTTONUP {
        Some((Key(keys::LBUTTON), false))
    } else if msg == WM_RBUTTONDOWN {
        Some((Key(keys::RBUTTON), true))
    } else if msg == WM_RBUTTONUP {
        Some((Key(keys::RBUTTON), false))
    } else if msg == WM_MBUTTONDOWN {
        Some((Key(keys::MBUTTON), true))
    } else if msg == WM_MBUTTONUP {
        Some((Key(keys::MBUTTON), false))
    } else if (msg == WM_XBUTTONDOWN || msg == WM_XBUTTONUP) && (x == 1 || x == 2) {
        Some((Key(if x == 1 { keys::XBUTTON1 } else { keys::XBUTTON2 }), msg == WM_XBUTTONDOWN))
    } else if msg == WM_MOUSEWHEEL && x != 0 {
        Some((Key(if x < 0x8000 { keys::WH_UP } else { keys::WH_DOWN }), true))
    } else if msg == WM_MOUSEHWHEEL && x != 0 {
        Some((Key(if x >= 0x8000 { keys::WH_LEFT } else { keys::WH_RIGHT }), true))
    } else {
        None
    }
}

/// Whether a mouse event injected by another program is swallowed: all but
/// the handler's cached ones are.
pub fn foreign_injected(flags: u32, extra: usize) -> (r: bool)
    ensures
        r == (flags & LLMHF_INJECTED != 0 && extra != CACHED_EVENT),
{
    flags & LLMHF_INJECTED != 0 && extra != CACHED_EVENT
}

/// What a message loop does with what waiting for a message returned.
#[derive(Clone, Copy, PartialEq, Eq, Structural, Debug)]
pub enum LoopStep {
    Dispatch,
    /// The quit message came.
    Quit,
    Failed,
}

pub fn loop_step(res: i32) -> (r: LoopStep)
    ensures
        r == if res == -1 {
            LoopStep::Failed
        } else if res == 0 {
            LoopStep::Quit
        } else {
            LoopStep::Dispatch
        },
{
    if res == -1 {
        LoopStep::Failed
    } else if res == 0 {
        LoopStep::Quit
    } else {
        LoopStep::Dispatch
    }
}

/// Every button message names its button the same way for its press and
/// its release: the press message reads as the button pressed, the release
/// message (the press message's code plus one) as the same button released;
/// the left, right and middle messages name the left, right and middle
/// buttons; and only a release message reads as released.
pub proof fn law_button_messages(data: u32)
    ensures
        spec_ms_get_key(WM_LBUTTONDOWN, data) == Some((Key(keys::LBUTTON), true)),
        spec_ms_get_key(WM_RBUTTONDOWN, data) == Some((Key(keys::RBUTTON), true)),
        spec_ms_get_key(WM_MBUTTONDOWN, data) == Some((Key(keys::MBUTTON), true)),
        forall|down: u32|
            #![trigger spec_ms_get_key(down, data)]
            (down == WM_LBUTTONDOWN || down == WM_RBUTTONDOWN || down == WM_MBUTTONDOWN || down == WM_XBUTTONDOWN)
                ==> match spec_ms_get_key(down, data) {
                Some((k, p)) => p && spec_ms_get_key((down + 1) as u32, data) == Some((k, false)),
                None => spec_ms_get_key((down + 1) as u32, data) is None,
            },
        forall|msg: u32|
            #![trigger spec_ms_get_key(msg, data)]
            (spec_ms_get_key(msg, data) matches Some((_, p)) && !p) ==> (msg == WM_LBUTTONUP || msg == WM_RBUTTONUP
                || msg == WM_MBUTTONUP || msg == WM_XBUTTONUP),
{
}

/// A keyboard event reads as pressed exactly when its up flag is clear; an
/// event that no program injected always reads as a key: its scan code,
/// with the 0xE0 prefix of an extended key (the right Shift, which the
/// system flags as extended, keeps its plain code); an injected event reads
/// as a key only when it is one of the handler's cached releases or a
/// consumer key, whose scan code is looked up.
pub proof fn law_keyboard_events(ev: KbHookEvent, mapped_scan: u32)
    ensures
        spec_kb_get_key(ev, mapped_scan) matches Some((_, p)) ==> p == !ev.up,
        !ev.injected ==> spec_kb_get_key(ev, mapped_scan) == Some(
            (
                Key(
                    if ev.extended && ev.scan as u16 != keys::RSHIFT {
                        ev.scan as u16 | 0xE000
                    } else {
                        ev.scan as u16
                    },
                ),
                !ev.up,
            ),
        ),
        ev.injected && spec_kb_get_key(ev, mapped_scan) is Some ==> ev.extra == CACHED_EVENT
            || spec_needs_scan_lookup(ev),
{
}

} // verus!
