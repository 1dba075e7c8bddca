use vstd::prelude::*;
use crate::input::hotkey::Hotkey;
use crate::input::keys::{self, Key};
use crate::input::mods::{self, Mods};

verus! {

/// The process name of File Explorer.
pub const NAME: &'static str = "explorer";

/// The classes of the windows whose selection a File Explorer query can
/// read: the desktop (first group) and folder windows.
pub const WINDOW_CLASS_PATTERN: &'static str = "^(?:(Progman|WorkerW)|(?:Cabinet|Explore)WClass)$";

/// What a regular expression finds in a text: `Err` where the expression
/// does not compile, `None` where it does not match, and else whether its
/// first group took part in the match.
pub uninterp spec fn regex_group1(pattern: Seq<char>, text: Seq<char>) -> Result<Option<bool>, ()>;

/// Matches `text` against `pattern` (`regex::Regex::new`, then `captures`,
/// then `get(1)`); the result is a function of the two strings alone.
#[verifier::external_body]
fn match_group1(pattern: &str, text: &str) -> (r: Result<Option<bool>, ()>)
    ensures
        r == regex_group1(pattern@, text@),
{
    match regex::Regex::new(pattern) {
        Ok(re) => Ok(re.captures(text).map(|c| c.get(1).is_some())),
        Err(_) => Err(()),
    }
}

/// A window whose selected items File Explorer can tell.
#[derive(Clone, Copy, PartialEq, Eq, Structural, Debug)]
pub enum ExplorerWindow {
    Desktop,
    Folder,
}

/// The explorer window that a match of the window-class pattern stands for;
/// no window where the class does not match (or the pattern cannot be used).
pub open spec fn spec_window_of_match(m: Result<Option<bool>, ()>) -> Option<ExplorerWindow> {
    match m {
        Ok(Some(true)) => Some(ExplorerWindow::Desktop),
        Ok(Some(false)) => Some(ExplorerWindow::Folder),
        _ => None,
    }
}

/// The explorer window that a match of the window-class pattern stands for.
pub fn window_of_match(m: Result<Option<bool>, ()>) -> (r: Option<ExplorerWindow>)
    ensures
        r == spec_window_of_match(m),
{
    match m {
        Ok(Some(true)) => Some(ExplorerWindow::Desktop),
        Ok(Some(false)) => Some(ExplorerWindow::Folder),
        _ => None,
    }
}

/// The explorer window that a window of class `class` is, if any.
pub fn explorer_window(class: &str) -> (r: Option<ExplorerWindow>)
    ensures
        r == spec_window_of_match(regex_group1(WINDOW_CLASS_PATTERN@, class@)),
{
    window_of_match(match_group1(WINDOW_CLASS_PATTERN, class))
}

// The shortcuts of File Explorer that hotkeys are remapped to.

#[verifier::allow_in_spec]
pub fn focus_on_addr_bar<A, R>() -> Hotkey<A, R>
    returns
        Hotkey::<A, R>::Remap(Mods(mods::LA), Key(keys::D)),
{
    Hotkey::Remap(Mods(mods::LA), Key(keys::D))
}

#[verifier::allow_in_spec]
pub fn close_tab<A, R>() -> Hotkey<A, R>
    returns
        Hotkey::<A, R>::Remap(Mods(mods::LC), Key(keys::W)),
{
    Hotkey::Remap(Mods(mods::LC), Key(keys::W))
}

#[verifier::allow_in_spec]
pub fn next_tab<A, R>() -> Hotkey<A, R>
    returns
        Hotkey::<A, R>::Remap(Mods(mods::LC), Key(keys::TAB)),
{
    Hotkey::Remap(Mods(mods::LC), Key(keys::TAB))
}

#[verifier::allow_in_spec]
pub fn prev_tab<A, R>() -> Hotkey<A, R>
    returns
        Hotkey::<A, R>::Remap(Mods(mods::LCS), Key(keys::TAB)),
{
    Hotkey::Remap(Mods(mods::LCS), Key(keys::TAB))
}

#[verifier::allow_in_spec]
pub fn new_tab<A, R>() -> Hotkey<A, R>
    returns
        Hotkey::<A, R>::Remap(Mods(mods::LC), Key(keys::T)),
{
    Hotkey::Remap(Mods(mods::LC), Key(keys::T))
}

} // verus!
