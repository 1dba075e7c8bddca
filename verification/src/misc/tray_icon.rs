use vstd::prelude::*;
use crate::input::hotkey::{utf16_encode, encode_utf16};

verus! {

/// Mouse messages that a tray icon forwards.
pub const WM_LBUTTONDOWN: u32 = 0x0201;
pub const WM_RBUTTONDOWN: u32 = 0x0204;
pub const WM_LBUTTONDBLCLK: u32 = 0x0203;

/// A click on a tray icon.
#[derive(Clone, Copy, PartialEq, Eq, Structural, Debug)]
pub enum IconEvent {
    LClick,
    RClick,
    DClick,
}

pub open spec fn spec_icon_event(msg: u32) -> Option<IconEvent> {
    if msg == WM_LBUTTONDOWN {
        Some(IconEvent::LClick)
    } else if msg == WM_LBUTTONDBLCLK {
        Some(IconEvent::DClick)
    } else if msg == WM_RBUTTONDOWN {
        Some(IconEvent::RClick)
    } else {
        None
    }
}

/// The click that a mouse message on a tray icon stands for; other messages are ignored.
pub fn icon_event(msg: u32) -> (r: Option<IconEvent>)
    ensures
        r == spec_icon_event(msg),
{
    if msg == WM_LBUTTONDOWN {
        Some(IconEvent::LClick)
    } else if msg == WM_LBUTTONDBLCLK {
        Some(IconEvent::DClick)
    } else if msg == WM_RBUTTONDOWN {
        Some(IconEvent::RClick)
    } else {
        None
    }
}

/// The longest tip, in UTF-16 units, that a tray icon shows.
pub const TIP_MAX: usize = 127;

/// The tip of an icon as a tray icon takes it: at most 127 units, then a zero unit.
pub fn tip_units(tip: &str) -> (r: Vec<u16>)
    ensures
        r@ == (if utf16_encode(tip@).len() <= 127 {
            utf16_encode(tip@)
        } else {
            utf16_encode(tip@).take(127)
        }).push(0),
{
    let units = encode_utf16(tip);
    let n = if units.len() <= TIP_MAX { units.len() } else { TIP_MAX };
    let mut r: Vec<u16> = Vec::with_capacity(n + 1);
    let mut i: usize = 0;
    while i < n
        invariant
            i <= n,
            n <= units@.len(),
            r@ == units@.take(i as int),
        decreases n - i,
    {
        r.push(units[i]);
        i = i + 1;
        assert(r@ =~= units@.take(i as int));
    }
    r.push(0);
    assert(units@.take(units@.len() as int) =~= units@);
    r
}

/// A text as the system takes it: its UTF-16 units, then a zero unit.
pub fn to_wide(s: &str) -> (r: Vec<u16>)
    ensures
        r@ == utf16_encode(s@).push(0),
{
    let mut v = encode_utf16(s);
    v.push(0);
    v
}

/// A change of a tray icon that the shell is asked for: which icon and tip
/// to show, and whether to change its visibility, to hidden or to shown.
#[derive(Clone, Copy, PartialEq, Eq, Structural, Debug)]
pub struct Update {
    pub index: usize,
    pub icon: bool,
    pub tip: bool,
    pub state: bool,
    pub hidden: bool,
}

/// The icon shown and the visibility, once the shell has carried out a change.
pub open spec fn applied(v: (usize, bool), u: Update) -> (usize, bool) {
    (
        if u.icon {
            u.index
        } else {
            v.0
        },
        if u.state {
            !u.hidden
        } else if u.icon {
            true
        } else {
            v.1
        },
    )
}

/// The change that toggles the visibility.
pub open spec fn toggle_update(v: (usize, bool)) -> Update {
    Update { index: 0, icon: false, tip: false, state: true, hidden: v.1 }
}

/// The change that shows icon `index`; none where it is shown already.
pub open spec fn display_update(v: (usize, bool), index: usize) -> Option<Update> {
    if index == v.0 {
        if !v.1 {
            Some(toggle_update(v))
        } else {
            None
        }
    } else {
        Some(Update { index, icon: true, tip: true, state: !v.1, hidden: false })
    }
}

/// What a tray icon shows: which of its icons, and whether it is visible.
pub struct IconState {
    index: usize,
    visible: bool,
    count: usize,
}

impl IconState {
    /// The icon shown and whether it is visible.
    pub closed spec fn view(&self) -> (usize, bool) {
        (self.index, self.visible)
    }

    pub closed spec fn count(&self) -> usize {
        self.count
    }

    /// A hidden icon that shows none of its `count` icons yet.
    pub fn new(count: usize) -> (r: Self)
        ensures
            r.view() == (usize::MAX, false),
            r.count() == count,
    {
        IconState { index: usize::MAX, visible: false, count }
    }

    /// The change that shows icon `index`; none where it is shown already.
    pub fn display(&self, index: usize) -> (r: Option<Update>)
        requires
            index < self.count(),
        ensures
            r == display_update(self.view(), index),
    {
        if index == self.index {
            self.show()
        } else {
            Some(Update { index, icon: true, tip: true, state: !self.visible, hidden: false })
        }
    }

    /// The change that makes the icon visible; none where it is.
    pub fn show(&self) -> (r: Option<Update>)
        ensures
            r == if !self.view().1 {
                Some(toggle_update(self.view()))
            } else {
                None
            },
    {
        if !self.visible {
            Some(self.toggle_visibility())
        } else {
            None
        }
    }

    /// The change that hides the icon; none where it is hidden.
    pub fn conceal(&self) -> (r: Option<Update>)
        ensures
            r == if self.view().1 {
                Some(toggle_update(self.view()))
            } else {
                None
            },
    {
        if self.visible {
            Some(self.toggle_visibility())
        } else {
            None
        }
    }

    /// The change that shows a hidden icon and hides a visible one.
    pub fn toggle_visibility(&self) -> (r: Update)
        ensures
            r == toggle_update(self.view()),
    {
        Update { index: 0, icon: false, tip: false, state: true, hidden: self.visible }
    }

    /// Takes in a change that the shell carried out.
    pub fn apply(&mut self, u: Update)
        ensures
            final(self).view() == applied(old(self).view(), u),
            final(self).count() == old(self).count(),
    {
        if u.icon {
            self.index = u.index;
            self.visible = true;
        }
        if u.state {
            self.visible = !u.hidden;
        }
    }
}

/// Toggling a tray icon's visibility twice leaves it as it was.
pub proof fn law_toggle_twice(v: (usize, bool))
    ensures
        applied(applied(v, toggle_update(v)), toggle_update(applied(v, toggle_update(v)))) == v,
        applied(v, toggle_update(v)).1 == !v.1,
{
}

/// Once the change that displays icon `index` is carried out, the tray
/// icon shows that icon and is visible.
pub proof fn law_display_shows(v: (usize, bool), index: usize)
    ensures
        match display_update(v, index) {
            Some(u) => applied(v, u) == (index, true),
            None => v == (index, true),
        },
{
}

} // verus!
