use vstd::prelude::*;
use crate::misc::tray_icon::{icon_event, spec_icon_event, IconEvent};

verus! {

/// Window messages that the main window handles itself.
pub const WM_DESTROY: u32 = 0x0002;
pub const WM_CLOSE: u32 = 0x0010;
pub const WM_ENDSESSION: u32 = 0x0016;
pub const WM_NCCREATE: u32 = 0x0081;
pub const WM_USER: u32 = 0x0400;
/// The message that tray icons send to the main window.
pub const WM_ICON_MSG: u32 = 0x04FF;
pub const WM_MOUSEMOVE: u32 = 0x0200;

/// What the main window does with a message.
#[derive(Clone, Copy, PartialEq, Eq, Structural, Debug)]
pub enum Route {
    /// Keep the window's state with the window.
    NcCreate,
    /// Answer 0 and do nothing else (the cursor moves over a tray icon).
    Ignore,
    /// Another mouse message on a tray icon that is not a click: once the
    /// window has its state, answer 0; before, the default handling.
    IconOther,
    /// Ask the exit callbacks whether to close.
    Close,
    /// End the message loop.
    Destroy,
    /// The session ends: tell the exit callbacks.
    EndSession,
    /// A click on the tray icon with this id.
    Icon(u32, IconEvent),
    /// Any other message: the message callbacks, then the default handling.
    Other,
}

/// The route of a message; `lparam` is the low half of the message's
/// parameter, which holds the mouse message of a tray icon.
pub fn route_message(msg: u32, wparam: usize, lparam: u32) -> (r: Route)
    ensures
        r == if msg == WM_NCCREATE {
            Route::NcCreate
        } else if msg == WM_ICON_MSG && lparam == WM_MOUSEMOVE {
            Route::Ignore
        } else if msg == WM_CLOSE {
            Route::Close
        } else if msg == WM_DESTROY {
            Route::Destroy
        } else if msg == WM_ENDSESSION && wparam == 1 {
            Route::EndSession
        } else if msg == WM_ICON_MSG {
            match spec_icon_event(lparam) {
                Some(e) => Route::Icon(wparam as u32, e),
                None => Route::IconOther,
            }
        } else {
            Route::Other
        },
{
    if msg == WM_NCCREATE {
        Route::NcCreate
    } else if msg == WM_ICON_MSG && lparam == WM_MOUSEMOVE {
        Route::Ignore
    } else if msg == WM_CLOSE {
        Route::Close
    } else if msg == WM_DESTROY {
        Route::Destroy
    } else if msg == WM_ENDSESSION && wparam == 1 {
        Route::EndSession
    } else if msg == WM_ICON_MSG {
        match icon_event(lparam) {
            Some(e) => Route::Icon(wparam as u32, e),
            None => Route::IconOther,
        }
    } else {
        Route::Other
    }
}

/// The items of the tray icon's menu.
pub const MENU_SUSPEND: i32 = 1;
pub const MENU_EXIT: i32 = 2;

/// What was chosen in the tray icon's menu.
#[derive(Clone, Copy, PartialEq, Eq, Structural, Debug)]
pub enum MenuChoice {
    Cancelled,
    Suspend,
    Exit,
}

/// The choice that the menu returned; none for a value that no item has.
pub fn menu_choice(res: i32) -> (r: Option<MenuChoice>)
    ensures
        r == if res == 0 {
            Some(MenuChoice::Cancelled)
        } else if res == MENU_SUSPEND {
            Some(MenuChoice::Suspend)
        } else if res == MENU_EXIT {
            Some(MenuChoice::Exit)
        } else {
            None
        },
{
    if res == 0 {
        Some(MenuChoice::Cancelled)
    } else if res == MENU_SUSPEND {
        Some(MenuChoice::Suspend)
    } else if res == MENU_EXIT {
        Some(MenuChoice::Exit)
    } else {
        None
    }
}

/// Whether a click on the tray icon opens its menu: only a right click does.
pub fn opens_menu(event: IconEvent) -> (r: bool)
    ensures
        r == (event == IconEvent::RClick),
{
    event == IconEvent::RClick
}

} // verus!
