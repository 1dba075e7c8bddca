use vstd::prelude::*;
use crate::input::hotkey::Hotkey;
use crate::input::keys::{self, Key};
use crate::input::mods::{self, Mods};

verus! {

/// The process name of Telegram.
pub const NAME: &'static str = "Telegram";

// The shortcuts of Telegram that hotkeys are remapped to.

#[verifier::allow_in_spec]
pub fn scroll_page_up<A, R>() -> Hotkey<A, R>
    returns
        Hotkey::<A, R>::Remap(Mods(mods::LC), Key(keys::WH_UP)),
{
    Hotkey::Remap(Mods(mods::LC), Key(keys::WH_UP))
}

#[verifier::allow_in_spec]
pub fn scroll_page_down<A, R>() -> Hotkey<A, R>
    returns
        Hotkey::<A, R>::Remap(Mods(mods::LC), Key(keys::WH_DOWN)),
{
    Hotkey::Remap(Mods(mods::LC), Key(keys::WH_DOWN))
}

} // verus!
