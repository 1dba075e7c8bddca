use vstd::prelude::*;
use crate::input::hotkey::Hotkey;
use crate::input::keys::{self, Key};
use crate::input::mods::{self, Mods};

verus! {

/// The process name of Windows Terminal.
pub const NAME: &'static str = "WindowsTerminal";

// The shortcuts of Windows Terminal that hotkeys are remapped to.

#[verifier::allow_in_spec]
pub fn duplicate_tab<A, R>() -> Hotkey<A, R>
    returns
        Hotkey::<A, R>::Remap(Mods(mods::LCS), Key(keys::D)),
{
    Hotkey::Remap(Mods(mods::LCS), Key(keys::D))
}

#[verifier::allow_in_spec]
pub fn new_tab<A, R>() -> Hotkey<A, R>
    returns
        Hotkey::<A, R>::Remap(Mods(mods::LCS), Key(keys::T)),
{
    Hotkey::Remap(Mods(mods::LCS), Key(keys::T))
}

#[verifier::allow_in_spec]
pub fn close_pane<A, R>() -> Hotkey<A, R>
    returns
        Hotkey::<A, R>::Remap(Mods(mods::LCS), Key(keys::W)),
{
    Hotkey::Remap(Mods(mods::LCS), Key(keys::W))
}

#[verifier::allow_in_spec]
pub fn next_tab<A, R>() -> Hotkey<A, R>
    returns
        Hotkey::<A, R>::Remap(Mods(mods::LC), Key(keys::TAB)),
{
    Hotkey::Remap(Mods(mods::LC), Key(keys::TAB))
}

#[verifier::allow_in_spec]
pub fn prev_tab<A, R>() -> Hotkey<A, R>
    returns
        Hotkey::<A, R>::Remap(Mods(mods::LCS), Key(keys::TAB)),
{
    Hotkey::Remap(Mods(mods::LCS), Key(keys::TAB))
}

#[verifier::allow_in_spec]
pub fn open_settings<A, R>() -> Hotkey<A, R>
    returns
        Hotkey::<A, R>::Remap(Mods(mods::LC), Key(keys::COMMA)),
{
    Hotkey::Remap(Mods(mods::LC), Key(keys::COMMA))
}

#[verifier::allow_in_spec]
pub fn switch_to_tab0<A, R>() -> Hotkey<A, R>
    returns
        Hotkey::<A, R>::Remap(Mods(mods::LCA), Key(keys::NUM1)),
{
    Hotkey::Remap(Mods(mods::LCA), Key(keys::NUM1))
}

#[verifier::allow_in_spec]
pub fn switch_to_tab1<A, R>() -> Hotkey<A, R>
    returns
        Hotkey::<A, R>::Remap(Mods(mods::LCA), Key(keys::NUM2)),
{
    Hotkey::Remap(Mods(mods::LCA), Key(keys::NUM2))
}

#[verifier::allow_in_spec]
pub fn switch_to_tab2<A, R>() -> Hotkey<A, R>
    returns
        Hotkey::<A, R>::Remap(Mods(mods::LCA), Key(keys::NUM3)),
{
    Hotkey::Remap(Mods(mods::LCA), Key(keys::NUM3))
}

#[verifier::allow_in_spec]
pub fn switch_to_tab3<A, R>() -> Hotkey<A, R>
    returns
        Hotkey::<A, R>::Remap(Mods(mods::LCA), Key(keys::NUM4)),
{
    Hotkey::Remap(Mods(mods::LCA), Key(keys::NUM4))
}

#[verifier::allow_in_spec]
pub fn switch_to_tab4<A, R>() -> Hotkey<A, R>
    returns
        Hotkey::<A, R>::Remap(Mods(mods::LCA), Key(keys::NUM5)),
{
    Hotkey::Remap(Mods(mods::LCA), Key(keys::NUM5))
}

#[verifier::allow_in_spec]
pub fn switch_to_tab5<A, R>() -> Hotkey<A, R>
    returns
        Hotkey::<A, R>::Remap(Mods(mods::LCA), Key(keys::NUM6)),
{
    Hotkey::Remap(Mods(mods::LCA), Key(keys::NUM6))
}

#[verifier::allow_in_spec]
pub fn switch_to_last_tab<A, R>() -> Hotkey<A, R>
    returns
        Hotkey::<A, R>::Remap(Mods(mods::LCA), Key(keys::NUM9)),
{
    Hotkey::Remap(Mods(mods::LCA), Key(keys::NUM9))
}

#[verifier::allow_in_spec]
pub fn scroll_up<A, R>() -> Hotkey<A, R>
    returns
        Hotkey::<A, R>::Remap(Mods(mods::LCS), Key(keys::UP)),
{
    Hotkey::Remap(Mods(mods::LCS), Key(keys::UP))
}

#[verifier::allow_in_spec]
pub fn scroll_down<A, R>() -> Hotkey<A, R>
    returns
        Hotkey::<A, R>::Remap(Mods(mods::LCS), Key(keys::DOWN)),
{
    Hotkey::Remap(Mods(mods::LCS), Key(keys::DOWN))
}

#[verifier::allow_in_spec]
pub fn scroll_page_up<A, R>() -> Hotkey<A, R>
    returns
        Hotkey::<A, R>::Remap(Mods(mods::LCS), Key(keys::PG_UP)),
{
    Hotkey::Remap(Mods(mods::LCS), Key(keys::PG_UP))
}

#[verifier::allow_in_spec]
pub fn scroll_page_down<A, R>() -> Hotkey<A, R>
    returns
        Hotkey::<A, R>::Remap(Mods(mods::LCS), Key(keys::PG_DOWN)),
{
    Hotkey::Remap(Mods(mods::LCS), Key(keys::PG_DOWN))
}

} // verus!
