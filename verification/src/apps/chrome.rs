use vstd::prelude::*;
use crate::input::hotkey::Hotkey;
use crate::input::keys::{self, Key};
use crate::input::mods::{self, Mods};
use super::text::{spec_ends_with, ends_with};

verus! {

/// The process name of Google Chrome.
pub const NAME: &'static str = "chrome";

/// The end of the title of a YouTube tab.
pub const YOUTUBE_SUFFIX: &'static str = "- YouTube - Google Chrome";

/// Whether a Chrome window shows a YouTube tab, by its title.
pub fn is_youtube(title: &str) -> (r: bool)
    ensures
        r == spec_ends_with(title@, YOUTUBE_SUFFIX@),
{
    ends_with(title, YOUTUBE_SUFFIX)
}

// The shortcuts of Google Chrome that hotkeys are remapped to.

#[verifier::allow_in_spec]
pub fn new_tab<A, R>() -> Hotkey<A, R>
    returns
        Hotkey::<A, R>::Remap(Mods(mods::LC), Key(keys::T)),
{
    Hotkey::Remap(Mods(mods::LC), Key(keys::T))
}

#[verifier::allow_in_spec]
pub fn close_tab<A, R>() -> Hotkey<A, R>
    returns
        Hotkey::<A, R>::Remap(Mods(mods::LC), Key(keys::W)),
{
    Hotkey::Remap(Mods(mods::LC), Key(keys::W))
}

#[verifier::allow_in_spec]
pub fn reopen_last_closed_tab<A, R>() -> Hotkey<A, R>
    returns
        Hotkey::<A, R>::Remap(Mods(mods::LCS), Key(keys::T)),
{
    Hotkey::Remap(Mods(mods::LCS), Key(keys::T))
}

#[verifier::allow_in_spec]
pub fn reload_tab<A, R>() -> Hotkey<A, R>
    returns
        Hotkey::<A, R>::Remap(Mods(mods::LC), Key(keys::R)),
{
    Hotkey::Remap(Mods(mods::LC), Key(keys::R))
}

#[verifier::allow_in_spec]
pub fn reload_tab_ignore_cache<A, R>() -> Hotkey<A, R>
    returns
        Hotkey::<A, R>::Remap(Mods(mods::LCS), Key(keys::R)),
{
    Hotkey::Remap(Mods(mods::LCS), Key(keys::R))
}

#[verifier::allow_in_spec]
pub fn next_tab<A, R>() -> Hotkey<A, R>
    returns
        Hotkey::<A, R>::Remap(Mods(mods::LC), Key(keys::PG_DOWN)),
{
    Hotkey::Remap(Mods(mods::LC), Key(keys::PG_DOWN))
}

#[verifier::allow_in_spec]
pub fn prev_tab<A, R>() -> Hotkey<A, R>
    returns
        Hotkey::<A, R>::Remap(Mods(mods::LC), Key(keys::PG_UP)),
{
    Hotkey::Remap(Mods(mods::LC), Key(keys::PG_UP))
}

#[verifier::allow_in_spec]
pub fn focus_on_addr_bar<A, R>() -> Hotkey<A, R>
    returns
        Hotkey::<A, R>::Remap(Mods(mods::LC), Key(keys::L)),
{
    Hotkey::Remap(Mods(mods::LC), Key(keys::L))
}

#[verifier::allow_in_spec]
pub fn open_home_page<A, R>() -> Hotkey<A, R>
    returns
        Hotkey::<A, R>::Remap(Mods(mods::LA), Key(keys::HOME)),
{
    Hotkey::Remap(Mods(mods::LA), Key(keys::HOME))
}

#[verifier::allow_in_spec]
pub fn jump_to_rightmost_tab<A, R>() -> Hotkey<A, R>
    returns
        Hotkey::<A, R>::Remap(Mods(mods::LC), Key(keys::NUM9)),
{
    Hotkey::Remap(Mods(mods::LC), Key(keys::NUM9))
}

#[verifier::allow_in_spec]
pub fn tabs<A, R>() -> Hotkey<A, R>
    returns
        Hotkey::<A, R>::Remap(Mods(mods::LCS), Key(keys::A)),
{
    Hotkey::Remap(Mods(mods::LCS), Key(keys::A))
}

#[verifier::allow_in_spec]
pub fn tgl_loop_mode<A, R>() -> Hotkey<A, R>
    returns
        Hotkey::<A, R>::Remap(Mods(mods::LA), Key(keys::L)),
{
    Hotkey::Remap(Mods(mods::LA), Key(keys::L))
}

#[verifier::allow_in_spec]
pub fn increase_playb_speed<A, R>() -> Hotkey<A, R>
    returns
        Hotkey::<A, R>::Remap(Mods(mods::LA), Key(keys::NUM4)),
{
    Hotkey::Remap(Mods(mods::LA), Key(keys::NUM4))
}

#[verifier::allow_in_spec]
pub fn decrease_playb_speed<A, R>() -> Hotkey<A, R>
    returns
        Hotkey::<A, R>::Remap(Mods(mods::LA), Key(keys::NUM5)),
{
    Hotkey::Remap(Mods(mods::LA), Key(keys::NUM5))
}

#[verifier::allow_in_spec]
pub fn default_playb_speed<A, R>() -> Hotkey<A, R>
    returns
        Hotkey::<A, R>::Remap(Mods(mods::LA), Key(keys::NUM6)),
{
    Hotkey::Remap(Mods(mods::LA), Key(keys::NUM6))
}

} // verus!
