use vstd::prelude::*;
use crate::input::hotkey::Hotkey;
use crate::input::keys::{self, Key};
use crate::input::mods::{self, Mods};

verus! {

/// The process name of Visual Studio Code.
pub const NAME: &'static str = "Code";

// The shortcuts of Visual Studio Code that hotkeys are remapped to.

#[verifier::allow_in_spec]
pub fn open_settings<A, R>() -> Hotkey<A, R>
    returns
        Hotkey::<A, R>::Remap(Mods(mods::LC), Key(keys::COMMA)),
{
    Hotkey::Remap(Mods(mods::LC), Key(keys::COMMA))
}

#[verifier::allow_in_spec]
pub fn fold<A, R>() -> Hotkey<A, R>
    returns
        Hotkey::<A, R>::Remap(Mods(mods::LCS), Key(keys::LBRACE)),
{
    Hotkey::Remap(Mods(mods::LCS), Key(keys::LBRACE))
}

#[verifier::allow_in_spec]
pub fn unfold<A, R>() -> Hotkey<A, R>
    returns
        Hotkey::<A, R>::Remap(Mods(mods::LCS), Key(keys::RBRACE)),
{
    Hotkey::Remap(Mods(mods::LCS), Key(keys::RBRACE))
}

#[verifier::allow_in_spec]
pub fn fold_all<A, R>() -> Hotkey<A, R>
    returns
        Hotkey::<A, R>::Remap(Mods(mods::LSA), Key(keys::NUM4)),
{
    Hotkey::Remap(Mods(mods::LSA), Key(keys::NUM4))
}

#[verifier::allow_in_spec]
pub fn unfold_all<A, R>() -> Hotkey<A, R>
    returns
        Hotkey::<A, R>::Remap(Mods(mods::LSA), Key(keys::NUM3)),
{
    Hotkey::Remap(Mods(mods::LSA), Key(keys::NUM3))
}

#[verifier::allow_in_spec]
pub fn goto_bracket<A, R>() -> Hotkey<A, R>
    returns
        Hotkey::<A, R>::Remap(Mods(mods::LCS), Key(keys::BSLASH)),
{
    Hotkey::Remap(Mods(mods::LCS), Key(keys::BSLASH))
}

#[verifier::allow_in_spec]
pub fn param_hints<A, R>() -> Hotkey<A, R>
    returns
        Hotkey::<A, R>::Remap(Mods(mods::LCS), Key(keys::SPACE)),
{
    Hotkey::Remap(Mods(mods::LCS), Key(keys::SPACE))
}

#[verifier::allow_in_spec]
pub fn close_editor<A, R>() -> Hotkey<A, R>
    returns
        Hotkey::<A, R>::Remap(Mods(mods::LC), Key(keys::F4)),
{
    Hotkey::Remap(Mods(mods::LC), Key(keys::F4))
}

#[verifier::allow_in_spec]
pub fn reopen_last_closed_tab<A, R>() -> Hotkey<A, R>
    returns
        Hotkey::<A, R>::Remap(Mods(mods::LCS), Key(keys::T)),
{
    Hotkey::Remap(Mods(mods::LCS), Key(keys::T))
}

#[verifier::allow_in_spec]
pub fn go_to_definition<A, R>() -> Hotkey<A, R>
    returns
        Hotkey::<A, R>::Remap(Mods(mods::NONE), Key(keys::F12)),
{
    Hotkey::Remap(Mods(mods::NONE), Key(keys::F12))
}

#[verifier::allow_in_spec]
pub fn go_to_impl<A, R>() -> Hotkey<A, R>
    returns
        Hotkey::<A, R>::Remap(Mods(mods::LC), Key(keys::F12)),
{
    Hotkey::Remap(Mods(mods::LC), Key(keys::F12))
}

#[verifier::allow_in_spec]
pub fn show_or_focus_hover<A, R>() -> Hotkey<A, R>
    returns
        Hotkey::<A, R>::Remap(Mods(mods::LSA), Key(keys::NUM5)),
{
    Hotkey::Remap(Mods(mods::LSA), Key(keys::NUM5))
}

#[verifier::allow_in_spec]
pub fn comment_line<A, R>() -> Hotkey<A, R>
    returns
        Hotkey::<A, R>::Remap(Mods(mods::LC), Key(keys::FSLASH)),
{
    Hotkey::Remap(Mods(mods::LC), Key(keys::FSLASH))
}

#[verifier::allow_in_spec]
pub fn quick_fix<A, R>() -> Hotkey<A, R>
    returns
        Hotkey::<A, R>::Remap(Mods(mods::LC), Key(keys::PERIOD)),
{
    Hotkey::Remap(Mods(mods::LC), Key(keys::PERIOD))
}

#[verifier::allow_in_spec]
pub fn togg_breakpoint<A, R>() -> Hotkey<A, R>
    returns
        Hotkey::<A, R>::Remap(Mods(mods::NONE), Key(keys::F9)),
{
    Hotkey::Remap(Mods(mods::NONE), Key(keys::F9))
}

#[verifier::allow_in_spec]
pub fn next_tab<A, R>() -> Hotkey<A, R>
    returns
        Hotkey::<A, R>::Remap(Mods(mods::LC), Key(keys::PG_DOWN)),
{
    Hotkey::Remap(Mods(mods::LC), Key(keys::PG_DOWN))
}

#[verifier::allow_in_spec]
pub fn prev_tab<A, R>() -> Hotkey<A, R>
    returns
        Hotkey::<A, R>::Remap(Mods(mods::LC), Key(keys::PG_UP)),
{
    Hotkey::Remap(Mods(mods::LC), Key(keys::PG_UP))
}

#[verifier::allow_in_spec]
pub fn new_file<A, R>() -> Hotkey<A, R>
    returns
        Hotkey::<A, R>::Remap(Mods(mods::LA), Key(keys::INSERT)),
{
    Hotkey::Remap(Mods(mods::LA), Key(keys::INSERT))
}

#[verifier::allow_in_spec]
pub fn copy_cursor_up<A, R>() -> Hotkey<A, R>
    returns
        Hotkey::<A, R>::Remap(Mods(mods::LCA), Key(keys::UP)),
{
    Hotkey::Remap(Mods(mods::LCA), Key(keys::UP))
}

#[verifier::allow_in_spec]
pub fn copy_cursor_down<A, R>() -> Hotkey<A, R>
    returns
        Hotkey::<A, R>::Remap(Mods(mods::LCA), Key(keys::DOWN)),
{
    Hotkey::Remap(Mods(mods::LCA), Key(keys::DOWN))
}

#[verifier::allow_in_spec]
pub fn copy_line_down<A, R>() -> Hotkey<A, R>
    returns
        Hotkey::<A, R>::Remap(Mods(mods::LC), Key(keys::D)),
{
    Hotkey::Remap(Mods(mods::LC), Key(keys::D))
}

#[verifier::allow_in_spec]
pub fn show_explorer<A, R>() -> Hotkey<A, R>
    returns
        Hotkey::<A, R>::Remap(Mods(mods::LCS), Key(keys::E)),
{
    Hotkey::Remap(Mods(mods::LCS), Key(keys::E))
}

#[verifier::allow_in_spec]
pub fn debug<A, R>() -> Hotkey<A, R>
    returns
        Hotkey::<A, R>::Remap(Mods(mods::LCS), Key(keys::D)),
{
    Hotkey::Remap(Mods(mods::LCS), Key(keys::D))
}

#[verifier::allow_in_spec]
pub fn terminal<A, R>() -> Hotkey<A, R>
    returns
        Hotkey::<A, R>::Remap(Mods(mods::LSA), Key(keys::NUM2)),
{
    Hotkey::Remap(Mods(mods::LSA), Key(keys::NUM2))
}

#[verifier::allow_in_spec]
pub fn togg_source_ctrl<A, R>() -> Hotkey<A, R>
    returns
        Hotkey::<A, R>::Remap(Mods(mods::LCS), Key(keys::G)),
{
    Hotkey::Remap(Mods(mods::LCS), Key(keys::G))
}

#[verifier::allow_in_spec]
pub fn expand_selection<A, R>() -> Hotkey<A, R>
    returns
        Hotkey::<A, R>::Remap(Mods(mods::LSA), Key(keys::RIGHT)),
{
    Hotkey::Remap(Mods(mods::LSA), Key(keys::RIGHT))
}

#[verifier::allow_in_spec]
pub fn shrink_selection<A, R>() -> Hotkey<A, R>
    returns
        Hotkey::<A, R>::Remap(Mods(mods::LSA), Key(keys::LEFT)),
{
    Hotkey::Remap(Mods(mods::LSA), Key(keys::LEFT))
}

#[verifier::allow_in_spec]
pub fn prev_member<A, R>() -> Hotkey<A, R>
    returns
        Hotkey::<A, R>::Remap(Mods(mods::LA), Key(keys::UP)),
{
    Hotkey::Remap(Mods(mods::LA), Key(keys::UP))
}

#[verifier::allow_in_spec]
pub fn next_member<A, R>() -> Hotkey<A, R>
    returns
        Hotkey::<A, R>::Remap(Mods(mods::LA), Key(keys::DOWN)),
{
    Hotkey::Remap(Mods(mods::LA), Key(keys::DOWN))
}

#[verifier::allow_in_spec]
pub fn insert_line_below<A, R>() -> Hotkey<A, R>
    returns
        Hotkey::<A, R>::Remap(Mods(mods::LC), Key(keys::ENTER)),
{
    Hotkey::Remap(Mods(mods::LC), Key(keys::ENTER))
}

#[verifier::allow_in_spec]
pub fn to_tabs<A, R>() -> Hotkey<A, R>
    returns
        Hotkey::<A, R>::Remap(Mods(mods::LCS), Key(keys::NUM4)),
{
    Hotkey::Remap(Mods(mods::LCS), Key(keys::NUM4))
}

#[verifier::allow_in_spec]
pub fn to_spaces<A, R>() -> Hotkey<A, R>
    returns
        Hotkey::<A, R>::Remap(Mods(mods::LCS), Key(keys::NUM7)),
{
    Hotkey::Remap(Mods(mods::LCS), Key(keys::NUM7))
}

#[verifier::allow_in_spec]
pub fn scroll_term_up_by_line<A, R>() -> Hotkey<A, R>
    returns
        Hotkey::<A, R>::Remap(Mods(mods::LCA), Key(keys::PG_UP)),
{
    Hotkey::Remap(Mods(mods::LCA), Key(keys::PG_UP))
}

#[verifier::allow_in_spec]
pub fn scroll_term_down_by_line<A, R>() -> Hotkey<A, R>
    returns
        Hotkey::<A, R>::Remap(Mods(mods::LCA), Key(keys::PG_DOWN)),
{
    Hotkey::Remap(Mods(mods::LCA), Key(keys::PG_DOWN))
}

#[verifier::allow_in_spec]
pub fn scroll_term_up_by_page<A, R>() -> Hotkey<A, R>
    returns
        Hotkey::<A, R>::Remap(Mods(mods::LS), Key(keys::PG_UP)),
{
    Hotkey::Remap(Mods(mods::LS), Key(keys::PG_UP))
}

#[verifier::allow_in_spec]
pub fn scroll_term_down_by_page<A, R>() -> Hotkey<A, R>
    returns
        Hotkey::<A, R>::Remap(Mods(mods::LS), Key(keys::PG_DOWN)),
{
    Hotkey::Remap(Mods(mods::LS), Key(keys::PG_DOWN))
}

#[verifier::allow_in_spec]
pub fn stop_debugger<A, R>() -> Hotkey<A, R>
    returns
        Hotkey::<A, R>::Remap(Mods(mods::LS), Key(keys::F5)),
{
    Hotkey::Remap(Mods(mods::LS), Key(keys::F5))
}

#[verifier::allow_in_spec]
pub fn restart_debugger<A, R>() -> Hotkey<A, R>
    returns
        Hotkey::<A, R>::Remap(Mods(mods::LCS), Key(keys::F5)),
{
    Hotkey::Remap(Mods(mods::LCS), Key(keys::F5))
}

#[verifier::allow_in_spec]
pub fn step_over<A, R>() -> Hotkey<A, R>
    returns
        Hotkey::<A, R>::Remap(Mods(mods::NONE), Key(keys::F10)),
{
    Hotkey::Remap(Mods(mods::NONE), Key(keys::F10))
}

#[verifier::allow_in_spec]
pub fn step_into<A, R>() -> Hotkey<A, R>
    returns
        Hotkey::<A, R>::Remap(Mods(mods::NONE), Key(keys::F11)),
{
    Hotkey::Remap(Mods(mods::NONE), Key(keys::F11))
}

#[verifier::allow_in_spec]
pub fn step_out<A, R>() -> Hotkey<A, R>
    returns
        Hotkey::<A, R>::Remap(Mods(mods::LS), Key(keys::F11)),
{
    Hotkey::Remap(Mods(mods::LS), Key(keys::F11))
}

#[verifier::allow_in_spec]
pub fn scroll_up_fast<A, R>() -> Hotkey<A, R>
    returns
        Hotkey::<A, R>::Remap(Mods(mods::LA), Key(keys::WH_UP)),
{
    Hotkey::Remap(Mods(mods::LA), Key(keys::WH_UP))
}

#[verifier::allow_in_spec]
pub fn scroll_down_fast<A, R>() -> Hotkey<A, R>
    returns
        Hotkey::<A, R>::Remap(Mods(mods::LA), Key(keys::WH_DOWN)),
{
    Hotkey::Remap(Mods(mods::LA), Key(keys::WH_DOWN))
}

} // verus!
