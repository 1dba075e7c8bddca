use vstd::prelude::*;
use crate::input::hotkey::Hotkey;
use crate::input::keys::{self, Key};
use crate::input::mods::{self, Mods};

verus! {

/// The process name of Discord.
pub const NAME: &'static str = "Discord";

// The shortcuts of Discord that hotkeys are remapped to.

#[verifier::allow_in_spec]
pub fn nav_to_curr_call<A, R>() -> Hotkey<A, R>
    returns
        Hotkey::<A, R>::Remap(Mods(mods::LCSA), Key(keys::V)),
{
    Hotkey::Remap(Mods(mods::LCSA), Key(keys::V))
}

#[verifier::allow_in_spec]
pub fn disconnect<A, R>() -> Hotkey<A, R>
    returns
        Hotkey::<A, R>::Remap(Mods(mods::NONE), Key(keys::F22)),
{
    Hotkey::Remap(Mods(mods::NONE), Key(keys::F22))
}

#[verifier::allow_in_spec]
pub fn tgl_member_list_or_vc_chat<A, R>() -> Hotkey<A, R>
    returns
        Hotkey::<A, R>::Remap(Mods(mods::LC), Key(keys::U)),
{
    Hotkey::Remap(Mods(mods::LC), Key(keys::U))
}

#[verifier::allow_in_spec]
pub fn upload_file<A, R>() -> Hotkey<A, R>
    returns
        Hotkey::<A, R>::Remap(Mods(mods::LCS), Key(keys::U)),
{
    Hotkey::Remap(Mods(mods::LCS), Key(keys::U))
}

} // verus!
