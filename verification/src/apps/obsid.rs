use vstd::prelude::*;
use crate::input::hotkey::Hotkey;
use crate::input::keys::{self, Key};
use crate::input::mods::{self, Mods};

verus! {

/// The process name of Obsidian.
pub const NAME: &'static str = "Obsidian";

// The shortcuts of Obsidian that hotkeys are remapped to.

#[verifier::allow_in_spec]
pub fn fold_more<A, R>() -> Hotkey<A, R>
    returns
        Hotkey::<A, R>::Remap(Mods(mods::LCS), Key(keys::LBRACE)),
{
    Hotkey::Remap(Mods(mods::LCS), Key(keys::LBRACE))
}

#[verifier::allow_in_spec]
pub fn fold_less<A, R>() -> Hotkey<A, R>
    returns
        Hotkey::<A, R>::Remap(Mods(mods::LCS), Key(keys::RBRACE)),
{
    Hotkey::Remap(Mods(mods::LCS), Key(keys::RBRACE))
}

#[verifier::allow_in_spec]
pub fn fold_all_headings_and_lists<A, R>() -> Hotkey<A, R>
    returns
        Hotkey::<A, R>::Remap(Mods(mods::LCSA), Key(keys::LBRACE)),
{
    Hotkey::Remap(Mods(mods::LCSA), Key(keys::LBRACE))
}

#[verifier::allow_in_spec]
pub fn unfold_all_headings_and_lists<A, R>() -> Hotkey<A, R>
    returns
        Hotkey::<A, R>::Remap(Mods(mods::LCSA), Key(keys::RBRACE)),
{
    Hotkey::Remap(Mods(mods::LCSA), Key(keys::RBRACE))
}

#[verifier::allow_in_spec]
pub fn open_settings<A, R>() -> Hotkey<A, R>
    returns
        Hotkey::<A, R>::Remap(Mods(mods::LC), Key(keys::COMMA)),
{
    Hotkey::Remap(Mods(mods::LC), Key(keys::COMMA))
}

#[verifier::allow_in_spec]
pub fn close_curr_tab<A, R>() -> Hotkey<A, R>
    returns
        Hotkey::<A, R>::Remap(Mods(mods::LC), Key(keys::W)),
{
    Hotkey::Remap(Mods(mods::LC), Key(keys::W))
}

#[verifier::allow_in_spec]
pub fn undo_closed_tab<A, R>() -> Hotkey<A, R>
    returns
        Hotkey::<A, R>::Remap(Mods(mods::LCS), Key(keys::T)),
{
    Hotkey::Remap(Mods(mods::LCS), Key(keys::T))
}

#[verifier::allow_in_spec]
pub fn togg_reading_view<A, R>() -> Hotkey<A, R>
    returns
        Hotkey::<A, R>::Remap(Mods(mods::LC), Key(keys::E)),
{
    Hotkey::Remap(Mods(mods::LC), Key(keys::E))
}

#[verifier::allow_in_spec]
pub fn next_tab<A, R>() -> Hotkey<A, R>
    returns
        Hotkey::<A, R>::Remap(Mods(mods::LC), Key(keys::PG_DOWN)),
{
    Hotkey::Remap(Mods(mods::LC), Key(keys::PG_DOWN))
}

#[verifier::allow_in_spec]
pub fn prev_tab<A, R>() -> Hotkey<A, R>
    returns
        Hotkey::<A, R>::Remap(Mods(mods::LC), Key(keys::PG_UP)),
{
    Hotkey::Remap(Mods(mods::LC), Key(keys::PG_UP))
}

#[verifier::allow_in_spec]
pub fn explorer_focus<A, R>() -> Hotkey<A, R>
    returns
        Hotkey::<A, R>::Remap(Mods(mods::LA), Key(keys::NUM1)),
{
    Hotkey::Remap(Mods(mods::LA), Key(keys::NUM1))
}

#[verifier::allow_in_spec]
pub fn show_outline<A, R>() -> Hotkey<A, R>
    returns
        Hotkey::<A, R>::Remap(Mods(mods::LA), Key(keys::NUM3)),
{
    Hotkey::Remap(Mods(mods::LA), Key(keys::NUM3))
}

#[verifier::allow_in_spec]
pub fn find_prev<A, R>() -> Hotkey<A, R>
    returns
        Hotkey::<A, R>::Remap(Mods(mods::LS), Key(keys::F3)),
{
    Hotkey::Remap(Mods(mods::LS), Key(keys::F3))
}

#[verifier::allow_in_spec]
pub fn find_next<A, R>() -> Hotkey<A, R>
    returns
        Hotkey::<A, R>::Remap(Mods(mods::NONE), Key(keys::F3)),
{
    Hotkey::Remap(Mods(mods::NONE), Key(keys::F3))
}

#[verifier::allow_in_spec]
pub fn navigate_back<A, R>() -> Hotkey<A, R>
    returns
        Hotkey::<A, R>::Remap(Mods(mods::LA), Key(keys::LEFT)),
{
    Hotkey::Remap(Mods(mods::LA), Key(keys::LEFT))
}

#[verifier::allow_in_spec]
pub fn navigate_forward<A, R>() -> Hotkey<A, R>
    returns
        Hotkey::<A, R>::Remap(Mods(mods::LA), Key(keys::RIGHT)),
{
    Hotkey::Remap(Mods(mods::LA), Key(keys::RIGHT))
}

#[verifier::allow_in_spec]
pub fn move_line_up<A, R>() -> Hotkey<A, R>
    returns
        Hotkey::<A, R>::Remap(Mods(mods::LSA), Key(keys::UP)),
{
    Hotkey::Remap(Mods(mods::LSA), Key(keys::UP))
}

#[verifier::allow_in_spec]
pub fn move_line_down<A, R>() -> Hotkey<A, R>
    returns
        Hotkey::<A, R>::Remap(Mods(mods::LSA), Key(keys::DOWN)),
{
    Hotkey::Remap(Mods(mods::LSA), Key(keys::DOWN))
}

} // verus!
