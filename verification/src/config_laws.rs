use vstd::prelude::*;
use crate::input::hotkey::Hotkey;
use crate::input::keys::{self, Key};
use crate::input::mods::{self, Mods};
use crate::misc::mode::ModeState;
use crate::hotkeys::{spec_decide, AppKind, Bind, Decision, Effect};

verus! {

// What each configured hotkey resolves to, by the keyboard's mode and the
// foreground application: one law per hotkey, its results written out.

/// The hotkey bound to `NONE` + `B`: outside the Normal mode it resolves to `Hotkey::Default`; in that mode it needs the foreground application; for VS Code, Discord it resolves to the shortcut stated below, for any other application to `Hotkey::Suppress`.
pub proof fn law_b<A, R>(mode: ModeState, app: Option<AppKind>, youtube: Option<bool>, drag: A)
    ensures
        mode != ModeState::Normal ==> spec_decide::<A, R>(Bind::B, mode, app, youtube, drag) == Decision::<A, R>::Done(Effect::Nothing, Hotkey::Default),
        mode == ModeState::Normal && app is None ==> spec_decide::<A, R>(Bind::B, mode, app, youtube, drag) == Decision::<A, R>::NeedName,
        mode == ModeState::Normal && app == Some(AppKind::Code) ==> spec_decide::<A, R>(Bind::B, mode, app, youtube, drag) == Decision::<A, R>::Done(Effect::Nothing, Hotkey::Remap(Mods(mods::NONE), Key(keys::F12))),
        mode == ModeState::Normal && app == Some(AppKind::Discord) ==> spec_decide::<A, R>(Bind::B, mode, app, youtube, drag) == Decision::<A, R>::Done(Effect::Nothing, Hotkey::Remap(Mods(mods::LCSA), Key(keys::V))),
        mode == ModeState::Normal && app is Some && app != Some(AppKind::Code) && app != Some(AppKind::Discord) ==> spec_decide::<A, R>(Bind::B, mode, app, youtube, drag) == Decision::<A, R>::Done(Effect::Nothing, Hotkey::Suppress),
{
}

/// The hotkey bound to `LS` + `B`: outside the Normal mode it resolves to `Hotkey::Default`; in that mode it needs the foreground application; for VS Code it resolves to the shortcut stated below, for any other application to `Hotkey::Suppress`.
pub proof fn law_ls_b<A, R>(mode: ModeState, app: Option<AppKind>, youtube: Option<bool>, drag: A)
    ensures
        mode != ModeState::Normal ==> spec_decide::<A, R>(Bind::LsB, mode, app, youtube, drag) == Decision::<A, R>::Done(Effect::Nothing, Hotkey::Default),
        mode == ModeState::Normal && app is None ==> spec_decide::<A, R>(Bind::LsB, mode, app, youtube, drag) == Decision::<A, R>::NeedName,
        mode == ModeState::Normal && app == Some(AppKind::Code) ==> spec_decide::<A, R>(Bind::LsB, mode, app, youtube, drag) == Decision::<A, R>::Done(Effect::Nothing, Hotkey::Remap(Mods(mods::LC), Key(keys::F12))),
        mode == ModeState::Normal && app is Some && app != Some(AppKind::Code) ==> spec_decide::<A, R>(Bind::LsB, mode, app, youtube, drag) == Decision::<A, R>::Done(Effect::Nothing, Hotkey::Suppress),
{
}

/// The hotkey bound to `NONE` + `C`: outside the Normal mode it resolves to `Hotkey::Default`; in that mode it needs the foreground application; for Chrome, File Explorer it resolves to the shortcut stated below, for any other application to `Hotkey::Suppress`.
pub proof fn law_c<A, R>(mode: ModeState, app: Option<AppKind>, youtube: Option<bool>, drag: A)
    ensures
        mode != ModeState::Normal ==> spec_decide::<A, R>(Bind::C, mode, app, youtube, drag) == Decision::<A, R>::Done(Effect::Nothing, Hotkey::Default),
        mode == ModeState::Normal && app is None ==> spec_decide::<A, R>(Bind::C, mode, app, youtube, drag) == Decision::<A, R>::NeedName,
        mode == ModeState::Normal && app == Some(AppKind::Chrome) ==> spec_decide::<A, R>(Bind::C, mode, app, youtube, drag) == Decision::<A, R>::Done(Effect::Nothing, Hotkey::Remap(Mods(mods::LC), Key(keys::L))),
        mode == ModeState::Normal && app == Some(AppKind::Explorer) ==> spec_decide::<A, R>(Bind::C, mode, app, youtube, drag) == Decision::<A, R>::Done(Effect::Nothing, Hotkey::Remap(Mods(mods::LA), Key(keys::D))),
        mode == ModeState::Normal && app is Some && app != Some(AppKind::Chrome) && app != Some(AppKind::Explorer) ==> spec_decide::<A, R>(Bind::C, mode, app, youtube, drag) == Decision::<A, R>::Done(Effect::Nothing, Hotkey::Suppress),
{
}

/// The hotkey bound to `LS` + `C`: outside the Normal mode it resolves to `Hotkey::Default`; in that mode it needs the foreground application; for VS Code, Windows Terminal it resolves to the shortcut stated below, for any other application to `Hotkey::Suppress`.
pub proof fn law_ls_c<A, R>(mode: ModeState, app: Option<AppKind>, youtube: Option<bool>, drag: A)
    ensures
        mode != ModeState::Normal ==> spec_decide::<A, R>(Bind::LsC, mode, app, youtube, drag) == Decision::<A, R>::Done(Effect::Nothing, Hotkey::Default),
        mode == ModeState::Normal && app is None ==> spec_decide::<A, R>(Bind::LsC, mode, app, youtube, drag) == Decision::<A, R>::NeedName,
        mode == ModeState::Normal && app == Some(AppKind::Code) ==> spec_decide::<A, R>(Bind::LsC, mode, app, youtube, drag) == Decision::<A, R>::Done(Effect::Nothing, Hotkey::Remap(Mods(mods::LC), Key(keys::D))),
        mode == ModeState::Normal && app == Some(AppKind::Terminal) ==> spec_decide::<A, R>(Bind::LsC, mode, app, youtube, drag) == Decision::<A, R>::Done(Effect::Nothing, Hotkey::Remap(Mods(mods::LCS), Key(keys::D))),
        mode == ModeState::Normal && app is Some && app != Some(AppKind::Code) && app != Some(AppKind::Terminal) ==> spec_decide::<A, R>(Bind::LsC, mode, app, youtube, drag) == Decision::<A, R>::Done(Effect::Nothing, Hotkey::Suppress),
{
}

/// The hotkey bound to `LS` + `D`: outside the Normal mode it resolves to `Hotkey::Default`; in that mode it needs the foreground application; for Discord it resolves to the shortcut stated below, for any other application to `Hotkey::Suppress`.
pub proof fn law_ls_d<A, R>(mode: ModeState, app: Option<AppKind>, youtube: Option<bool>, drag: A)
    ensures
        mode != ModeState::Normal ==> spec_decide::<A, R>(Bind::LsD, mode, app, youtube, drag) == Decision::<A, R>::Done(Effect::Nothing, Hotkey::Default),
        mode == ModeState::Normal && app is None ==> spec_decide::<A, R>(Bind::LsD, mode, app, youtube, drag) == Decision::<A, R>::NeedName,
        mode == ModeState::Normal && app == Some(AppKind::Discord) ==> spec_decide::<A, R>(Bind::LsD, mode, app, youtube, drag) == Decision::<A, R>::Done(Effect::Nothing, Hotkey::Remap(Mods(mods::NONE), Key(keys::F22))),
        mode == ModeState::Normal && app is Some && app != Some(AppKind::Discord) ==> spec_decide::<A, R>(Bind::LsD, mode, app, youtube, drag) == Decision::<A, R>::Done(Effect::Nothing, Hotkey::Suppress),
{
}

/// The hotkey bound to `LW` + `E`: always it resolves to `Hotkey::Suppress` with `Effect::OpenDesktop`.
pub proof fn law_lw_e<A, R>(mode: ModeState, app: Option<AppKind>, youtube: Option<bool>, drag: A)
    ensures
        spec_decide::<A, R>(Bind::LwE, mode, app, youtube, drag) == Decision::<A, R>::Done(Effect::OpenDesktop, Hotkey::Suppress),
{
}

/// The hotkey bound to `NONE` + `G`: outside the Normal mode it resolves to `Hotkey::Default`; in that mode it resolves to `Hotkey::Suppress` with `Effect::Nothing`.
pub proof fn law_g<A, R>(mode: ModeState, app: Option<AppKind>, youtube: Option<bool>, drag: A)
    ensures
        mode != ModeState::Normal ==> spec_decide::<A, R>(Bind::G, mode, app, youtube, drag) == Decision::<A, R>::Done(Effect::Nothing, Hotkey::Default),
        mode == ModeState::Normal ==> spec_decide::<A, R>(Bind::G, mode, app, youtube, drag) == Decision::<A, R>::Done(Effect::Nothing, Hotkey::Suppress),
{
}

/// The hotkey bound to `NONE` + `H`: outside the Normal mode it resolves to `Hotkey::Default`; in that mode it needs the foreground application; for VS Code, Obsidian it resolves to the shortcut stated below, for any other application to `Hotkey::Suppress`.
pub proof fn law_h<A, R>(mode: ModeState, app: Option<AppKind>, youtube: Option<bool>, drag: A)
    ensures
        mode != ModeState::Normal ==> spec_decide::<A, R>(Bind::H, mode, app, youtube, drag) == Decision::<A, R>::Done(Effect::Nothing, Hotkey::Default),
        mode == ModeState::Normal && app is None ==> spec_decide::<A, R>(Bind::H, mode, app, youtube, drag) == Decision::<A, R>::NeedName,
        mode == ModeState::Normal && app == Some(AppKind::Code) ==> spec_decide::<A, R>(Bind::H, mode, app, youtube, drag) == Decision::<A, R>::Done(Effect::Nothing, Hotkey::Remap(Mods(mods::LCS), Key(keys::RBRACE))),
        mode == ModeState::Normal && app == Some(AppKind::Obsidian) ==> spec_decide::<A, R>(Bind::H, mode, app, youtube, drag) == Decision::<A, R>::Done(Effect::Nothing, Hotkey::Remap(Mods(mods::LCS), Key(keys::RBRACE))),
        mode == ModeState::Normal && app is Some && app != Some(AppKind::Code) && app != Some(AppKind::Obsidian) ==> spec_decide::<A, R>(Bind::H, mode, app, youtube, drag) == Decision::<A, R>::Done(Effect::Nothing, Hotkey::Suppress),
{
}

/// The hotkey bound to `LS` + `H`: outside the Normal mode it resolves to `Hotkey::Default`; in that mode it needs the foreground application; for VS Code, Obsidian it resolves to the shortcut stated below, for any other application to `Hotkey::Suppress`.
pub proof fn law_ls_h<A, R>(mode: ModeState, app: Option<AppKind>, youtube: Option<bool>, drag: A)
    ensures
        mode != ModeState::Normal ==> spec_decide::<A, R>(Bind::LsH, mode, app, youtube, drag) == Decision::<A, R>::Done(Effect::Nothing, Hotkey::Default),
        mode == ModeState::Normal && app is None ==> spec_decide::<A, R>(Bind::LsH, mode, app, youtube, drag) == Decision::<A, R>::NeedName,
        mode == ModeState::Normal && app == Some(AppKind::Code) ==> spec_decide::<A, R>(Bind::LsH, mode, app, youtube, drag) == Decision::<A, R>::Done(Effect::Nothing, Hotkey::Remap(Mods(mods::LSA), Key(keys::NUM3))),
        mode == ModeState::Normal && app == Some(AppKind::Obsidian) ==> spec_decide::<A, R>(Bind::LsH, mode, app, youtube, drag) == Decision::<A, R>::Done(Effect::Nothing, Hotkey::Remap(Mods(mods::LCSA), Key(keys::RBRACE))),
        mode == ModeState::Normal && app is Some && app != Some(AppKind::Code) && app != Some(AppKind::Obsidian) ==> spec_decide::<A, R>(Bind::LsH, mode, app, youtube, drag) == Decision::<A, R>::Done(Effect::Nothing, Hotkey::Suppress),
{
}

/// The hotkey bound to `NONE` + `K`: outside the Normal mode it resolves to `Hotkey::Default`; in that mode it needs the foreground application; for VS Code it resolves to the shortcut stated below, for any other application to `Hotkey::Suppress`.
pub proof fn law_k<A, R>(mode: ModeState, app: Option<AppKind>, youtube: Option<bool>, drag: A)
    ensures
        mode != ModeState::Normal ==> spec_decide::<A, R>(Bind::K, mode, app, youtube, drag) == Decision::<A, R>::Done(Effect::Nothing, Hotkey::Default),
        mode == ModeState::Normal && app is None ==> spec_decide::<A, R>(Bind::K, mode, app, youtube, drag) == Decision::<A, R>::NeedName,
        mode == ModeState::Normal && app == Some(AppKind::Code) ==> spec_decide::<A, R>(Bind::K, mode, app, youtube, drag) == Decision::<A, R>::Done(Effect::Nothing, Hotkey::Remap(Mods(mods::LCS), Key(keys::BSLASH))),
        mode == ModeState::Normal && app is Some && app != Some(AppKind::Code) ==> spec_decide::<A, R>(Bind::K, mode, app, youtube, drag) == Decision::<A, R>::Done(Effect::Nothing, Hotkey::Suppress),
{
}

/// The hotkey bound to `LS` + `K`: outside the Normal mode it resolves to `Hotkey::Default`; in that mode it needs the foreground application; for VS Code it resolves to the shortcut stated below, for any other application to `Hotkey::Default`.
pub proof fn law_lc_k<A, R>(mode: ModeState, app: Option<AppKind>, youtube: Option<bool>, drag: A)
    ensures
        mode != ModeState::Normal ==> spec_decide::<A, R>(Bind::LcK, mode, app, youtube, drag) == Decision::<A, R>::Done(Effect::Nothing, Hotkey::Default),
        mode == ModeState::Normal && app is None ==> spec_decide::<A, R>(Bind::LcK, mode, app, youtube, drag) == Decision::<A, R>::NeedName,
        mode == ModeState::Normal && app == Some(AppKind::Code) ==> spec_decide::<A, R>(Bind::LcK, mode, app, youtube, drag) == Decision::<A, R>::Done(Effect::Nothing, Hotkey::Remap(Mods(mods::NONE), Key(keys::F9))),
        mode == ModeState::Normal && app is Some && app != Some(AppKind::Code) ==> spec_decide::<A, R>(Bind::LcK, mode, app, youtube, drag) == Decision::<A, R>::Done(Effect::Nothing, Hotkey::Default),
{
}

/// The hotkey bound to `NONE` + `L`: outside the Normal mode it resolves to `Hotkey::Default`; in that mode it needs the foreground application; for VS Code, Chrome, Discord it resolves to the shortcut stated below, for any other application to `Hotkey::Suppress`.
pub proof fn law_l<A, R>(mode: ModeState, app: Option<AppKind>, youtube: Option<bool>, drag: A)
    ensures
        mode != ModeState::Normal ==> spec_decide::<A, R>(Bind::L, mode, app, youtube, drag) == Decision::<A, R>::Done(Effect::Nothing, Hotkey::Default),
        mode == ModeState::Normal && app is None ==> spec_decide::<A, R>(Bind::L, mode, app, youtube, drag) == Decision::<A, R>::NeedName,
        mode == ModeState::Normal && app == Some(AppKind::Code) ==> spec_decide::<A, R>(Bind::L, mode, app, youtube, drag) == Decision::<A, R>::Done(Effect::Nothing, Hotkey::Remap(Mods(mods::LSA), Key(keys::NUM5))),
        mode == ModeState::Normal && app == Some(AppKind::Chrome) && youtube is None ==> spec_decide::<A, R>(Bind::L, mode, app, youtube, drag) == Decision::<A, R>::NeedTitle,
        mode == ModeState::Normal && app == Some(AppKind::Chrome) && youtube == Some(true) ==> spec_decide::<A, R>(Bind::L, mode, app, youtube, drag) == Decision::<A, R>::Done(Effect::Nothing, Hotkey::Remap(Mods(mods::LA), Key(keys::L))),
        mode == ModeState::Normal && app == Some(AppKind::Chrome) && youtube == Some(false) ==> spec_decide::<A, R>(Bind::L, mode, app, youtube, drag) == Decision::<A, R>::Done(Effect::Nothing, Hotkey::Suppress),
        mode == ModeState::Normal && app == Some(AppKind::Discord) ==> spec_decide::<A, R>(Bind::L, mode, app, youtube, drag) == Decision::<A, R>::Done(Effect::Nothing, Hotkey::Remap(Mods(mods::LC), Key(keys::U))),
        mode == ModeState::Normal && app is Some && app != Some(AppKind::Code) && app != Some(AppKind::Chrome) && app != Some(AppKind::Discord) ==> spec_decide::<A, R>(Bind::L, mode, app, youtube, drag) == Decision::<A, R>::Done(Effect::Nothing, Hotkey::Suppress),
{
}

/// The hotkey bound to `NONE` + `P`: outside the Normal mode it resolves to `Hotkey::Default`; in that mode it needs the foreground application; for Obsidian, Chrome it resolves to the shortcut stated below, for any other application to `Hotkey::Suppress`.
pub proof fn law_p<A, R>(mode: ModeState, app: Option<AppKind>, youtube: Option<bool>, drag: A)
    ensures
        mode != ModeState::Normal ==> spec_decide::<A, R>(Bind::P, mode, app, youtube, drag) == Decision::<A, R>::Done(Effect::Nothing, Hotkey::Default),
        mode == ModeState::Normal && app is None ==> spec_decide::<A, R>(Bind::P, mode, app, youtube, drag) == Decision::<A, R>::NeedName,
        mode == ModeState::Normal && app == Some(AppKind::Obsidian) ==> spec_decide::<A, R>(Bind::P, mode, app, youtube, drag) == Decision::<A, R>::Done(Effect::Nothing, Hotkey::Remap(Mods(mods::LC), Key(keys::E))),
        mode == ModeState::Normal && app == Some(AppKind::Chrome) ==> spec_decide::<A, R>(Bind::P, mode, app, youtube, drag) == Decision::<A, R>::Done(Effect::Nothing, Hotkey::Remap(Mods(mods::LC), Key(keys::R))),
        mode == ModeState::Normal && app is Some && app != Some(AppKind::Obsidian) && app != Some(AppKind::Chrome) ==> spec_decide::<A, R>(Bind::P, mode, app, youtube, drag) == Decision::<A, R>::Done(Effect::Nothing, Hotkey::Suppress),
{
}

/// The hotkey bound to `LS` + `P`: outside the Normal mode it resolves to `Hotkey::Default`; in that mode it needs the foreground application; for Chrome it resolves to the shortcut stated below, for any other application to `Hotkey::Suppress`.
pub proof fn law_ls_p<A, R>(mode: ModeState, app: Option<AppKind>, youtube: Option<bool>, drag: A)
    ensures
        mode != ModeState::Normal ==> spec_decide::<A, R>(Bind::LsP, mode, app, youtube, drag) == Decision::<A, R>::Done(Effect::Nothing, Hotkey::Default),
        mode == ModeState::Normal && app is None ==> spec_decide::<A, R>(Bind::LsP, mode, app, youtube, drag) == Decision::<A, R>::NeedName,
        mode == ModeState::Normal && app == Some(AppKind::Chrome) ==> spec_decide::<A, R>(Bind::LsP, mode, app, youtube, drag) == Decision::<A, R>::Done(Effect::Nothing, Hotkey::Remap(Mods(mods::LCS), Key(keys::R))),
        mode == ModeState::Normal && app is Some && app != Some(AppKind::Chrome) ==> spec_decide::<A, R>(Bind::LsP, mode, app, youtube, drag) == Decision::<A, R>::Done(Effect::Nothing, Hotkey::Suppress),
{
}

/// The hotkey bound to `LS` + `S`: outside the Normal mode it resolves to `Hotkey::Default`; in that mode it needs the foreground application; for Discord it resolves to the shortcut stated below, for any other application to `Hotkey::Suppress`.
pub proof fn law_ls_s<A, R>(mode: ModeState, app: Option<AppKind>, youtube: Option<bool>, drag: A)
    ensures
        mode != ModeState::Normal ==> spec_decide::<A, R>(Bind::LsS, mode, app, youtube, drag) == Decision::<A, R>::Done(Effect::Nothing, Hotkey::Default),
        mode == ModeState::Normal && app is None ==> spec_decide::<A, R>(Bind::LsS, mode, app, youtube, drag) == Decision::<A, R>::NeedName,
        mode == ModeState::Normal && app == Some(AppKind::Discord) ==> spec_decide::<A, R>(Bind::LsS, mode, app, youtube, drag) == Decision::<A, R>::Done(Effect::Nothing, Hotkey::Remap(Mods(mods::LCS), Key(keys::U))),
        mode == ModeState::Normal && app is Some && app != Some(AppKind::Discord) ==> spec_decide::<A, R>(Bind::LsS, mode, app, youtube, drag) == Decision::<A, R>::Done(Effect::Nothing, Hotkey::Suppress),
{
}

/// The hotkey bound to `LCS` + `S`: in any mode it needs the foreground application; for VS Code, Obsidian, Windows Terminal it resolves to the shortcut stated below, for any other application to `Hotkey::Suppress`.
pub proof fn law_lcs_s<A, R>(mode: ModeState, app: Option<AppKind>, youtube: Option<bool>, drag: A)
    ensures
        app is None ==> spec_decide::<A, R>(Bind::LcsS, mode, app, youtube, drag) == Decision::<A, R>::NeedName,
        app == Some(AppKind::Code) ==> spec_decide::<A, R>(Bind::LcsS, mode, app, youtube, drag) == Decision::<A, R>::Done(Effect::Nothing, Hotkey::Remap(Mods(mods::LC), Key(keys::COMMA))),
        app == Some(AppKind::Obsidian) ==> spec_decide::<A, R>(Bind::LcsS, mode, app, youtube, drag) == Decision::<A, R>::Done(Effect::Nothing, Hotkey::Remap(Mods(mods::LC), Key(keys::COMMA))),
        app == Some(AppKind::Terminal) ==> spec_decide::<A, R>(Bind::LcsS, mode, app, youtube, drag) == Decision::<A, R>::Done(Effect::Nothing, Hotkey::Remap(Mods(mods::LC), Key(keys::COMMA))),
        app is Some && app != Some(AppKind::Code) && app != Some(AppKind::Obsidian) && app != Some(AppKind::Terminal) ==> spec_decide::<A, R>(Bind::LcsS, mode, app, youtube, drag) == Decision::<A, R>::Done(Effect::Nothing, Hotkey::Suppress),
{
}

/// The hotkey bound to `NONE` + `V`: outside the Normal mode it resolves to `Hotkey::Default`; in that mode it resolves to `Hotkey::Suppress` with `Effect::Nothing`.
pub proof fn law_v<A, R>(mode: ModeState, app: Option<AppKind>, youtube: Option<bool>, drag: A)
    ensures
        mode != ModeState::Normal ==> spec_decide::<A, R>(Bind::V, mode, app, youtube, drag) == Decision::<A, R>::Done(Effect::Nothing, Hotkey::Default),
        mode == ModeState::Normal ==> spec_decide::<A, R>(Bind::V, mode, app, youtube, drag) == Decision::<A, R>::Done(Effect::Nothing, Hotkey::Suppress),
{
}

/// The hotkey bound to `NONE` + `W`: outside the Normal mode it resolves to `Hotkey::Default`; in that mode it needs the foreground application; for VS Code, Chrome, Windows Terminal, Obsidian, File Explorer it resolves to the shortcut stated below, for any other application to `Hotkey::Suppress`.
pub proof fn law_w<A, R>(mode: ModeState, app: Option<AppKind>, youtube: Option<bool>, drag: A)
    ensures
        mode != ModeState::Normal ==> spec_decide::<A, R>(Bind::W, mode, app, youtube, drag) == Decision::<A, R>::Done(Effect::Nothing, Hotkey::Default),
        mode == ModeState::Normal && app is None ==> spec_decide::<A, R>(Bind::W, mode, app, youtube, drag) == Decision::<A, R>::NeedName,
        mode == ModeState::Normal && app == Some(AppKind::Code) ==> spec_decide::<A, R>(Bind::W, mode, app, youtube, drag) == Decision::<A, R>::Done(Effect::Nothing, Hotkey::Remap(Mods(mods::LC), Key(keys::F4))),
        mode == ModeState::Normal && app == Some(AppKind::Chrome) ==> spec_decide::<A, R>(Bind::W, mode, app, youtube, drag) == Decision::<A, R>::Done(Effect::Nothing, Hotkey::Remap(Mods(mods::LC), Key(keys::W))),
        mode == ModeState::Normal && app == Some(AppKind::Terminal) ==> spec_decide::<A, R>(Bind::W, mode, app, youtube, drag) == Decision::<A, R>::Done(Effect::Nothing, Hotkey::Remap(Mods(mods::LCS), Key(keys::W))),
        mode == ModeState::Normal && app == Some(AppKind::Obsidian) ==> spec_decide::<A, R>(Bind::W, mode, app, youtube, drag) == Decision::<A, R>::Done(Effect::Nothing, Hotkey::Remap(Mods(mods::LC), Key(keys::W))),
        mode == ModeState::Normal && app == Some(AppKind::Explorer) ==> spec_decide::<A, R>(Bind::W, mode, app, youtube, drag) == Decision::<A, R>::Done(Effect::Nothing, Hotkey::Remap(Mods(mods::LC), Key(keys::W))),
        mode == ModeState::Normal && app is Some && app != Some(AppKind::Code) && app != Some(AppKind::Chrome) && app != Some(AppKind::Terminal) && app != Some(AppKind::Obsidian) && app != Some(AppKind::Explorer) ==> spec_decide::<A, R>(Bind::W, mode, app, youtube, drag) == Decision::<A, R>::Done(Effect::Nothing, Hotkey::Suppress),
{
}

/// The hotkey bound to `LS` + `W`: outside the Normal mode it resolves to `Hotkey::Default`; in that mode it needs the foreground application; for VS Code, Chrome it resolves to the shortcut stated below, for any other application to `Hotkey::Suppress`.
pub proof fn law_ls_w<A, R>(mode: ModeState, app: Option<AppKind>, youtube: Option<bool>, drag: A)
    ensures
        mode != ModeState::Normal ==> spec_decide::<A, R>(Bind::LsW, mode, app, youtube, drag) == Decision::<A, R>::Done(Effect::Nothing, Hotkey::Default),
        mode == ModeState::Normal && app is None ==> spec_decide::<A, R>(Bind::LsW, mode, app, youtube, drag) == Decision::<A, R>::NeedName,
        mode == ModeState::Normal && app == Some(AppKind::Code) ==> spec_decide::<A, R>(Bind::LsW, mode, app, youtube, drag) == Decision::<A, R>::Done(Effect::Nothing, Hotkey::Remap(Mods(mods::LCS), Key(keys::T))),
        mode == ModeState::Normal && app == Some(AppKind::Chrome) ==> spec_decide::<A, R>(Bind::LsW, mode, app, youtube, drag) == Decision::<A, R>::Done(Effect::Nothing, Hotkey::Remap(Mods(mods::LCS), Key(keys::T))),
        mode == ModeState::Normal && app is Some && app != Some(AppKind::Code) && app != Some(AppKind::Chrome) ==> spec_decide::<A, R>(Bind::LsW, mode, app, youtube, drag) == Decision::<A, R>::Done(Effect::Nothing, Hotkey::Suppress),
{
}

/// The hotkey bound to `NONE` + `X`: outside the Normal mode it resolves to `Hotkey::Default`; in that mode it needs the foreground application; for VS Code, Obsidian, Chrome, File Explorer, Windows Terminal it resolves to the shortcut stated below, for any other application to `Hotkey::Suppress`.
pub proof fn law_x<A, R>(mode: ModeState, app: Option<AppKind>, youtube: Option<bool>, drag: A)
    ensures
        mode != ModeState::Normal ==> spec_decide::<A, R>(Bind::X, mode, app, youtube, drag) == Decision::<A, R>::Done(Effect::Nothing, Hotkey::Default),
        mode == ModeState::Normal && app is None ==> spec_decide::<A, R>(Bind::X, mode, app, youtube, drag) == Decision::<A, R>::NeedName,
        mode == ModeState::Normal && app == Some(AppKind::Code) ==> spec_decide::<A, R>(Bind::X, mode, app, youtube, drag) == Decision::<A, R>::Done(Effect::Nothing, Hotkey::Remap(Mods(mods::LCS), Key(keys::LBRACE))),
        mode == ModeState::Normal && app == Some(AppKind::Obsidian) ==> spec_decide::<A, R>(Bind::X, mode, app, youtube, drag) == Decision::<A, R>::Done(Effect::Nothing, Hotkey::Remap(Mods(mods::LCS), Key(keys::LBRACE))),
        mode == ModeState::Normal && app == Some(AppKind::Chrome) ==> spec_decide::<A, R>(Bind::X, mode, app, youtube, drag) == Decision::<A, R>::Done(Effect::Nothing, Hotkey::Remap(Mods(mods::LC), Key(keys::T))),
        mode == ModeState::Normal && app == Some(AppKind::Explorer) ==> spec_decide::<A, R>(Bind::X, mode, app, youtube, drag) == Decision::<A, R>::Done(Effect::Nothing, Hotkey::Remap(Mods(mods::LC), Key(keys::T))),
        mode == ModeState::Normal && app == Some(AppKind::Terminal) ==> spec_decide::<A, R>(Bind::X, mode, app, youtube, drag) == Decision::<A, R>::Done(Effect::Nothing, Hotkey::Remap(Mods(mods::LCS), Key(keys::T))),
        mode == ModeState::Normal && app is Some && app != Some(AppKind::Code) && app != Some(AppKind::Obsidian) && app != Some(AppKind::Chrome) && app != Some(AppKind::Explorer) && app != Some(AppKind::Terminal) ==> spec_decide::<A, R>(Bind::X, mode, app, youtube, drag) == Decision::<A, R>::Done(Effect::Nothing, Hotkey::Suppress),
{
}

/// The hotkey bound to `LS` + `X`: outside the Normal mode it resolves to `Hotkey::Default`; in that mode it needs the foreground application; for VS Code, Obsidian it resolves to the shortcut stated below, for any other application to `Hotkey::Suppress`.
pub proof fn law_ls_x<A, R>(mode: ModeState, app: Option<AppKind>, youtube: Option<bool>, drag: A)
    ensures
        mode != ModeState::Normal ==> spec_decide::<A, R>(Bind::LsX, mode, app, youtube, drag) == Decision::<A, R>::Done(Effect::Nothing, Hotkey::Default),
        mode == ModeState::Normal && app is None ==> spec_decide::<A, R>(Bind::LsX, mode, app, youtube, drag) == Decision::<A, R>::NeedName,
        mode == ModeState::Normal && app == Some(AppKind::Code) ==> spec_decide::<A, R>(Bind::LsX, mode, app, youtube, drag) == Decision::<A, R>::Done(Effect::Nothing, Hotkey::Remap(Mods(mods::LSA), Key(keys::NUM4))),
        mode == ModeState::Normal && app == Some(AppKind::Obsidian) ==> spec_decide::<A, R>(Bind::LsX, mode, app, youtube, drag) == Decision::<A, R>::Done(Effect::Nothing, Hotkey::Remap(Mods(mods::LCSA), Key(keys::LBRACE))),
        mode == ModeState::Normal && app is Some && app != Some(AppKind::Code) && app != Some(AppKind::Obsidian) ==> spec_decide::<A, R>(Bind::LsX, mode, app, youtube, drag) == Decision::<A, R>::Done(Effect::Nothing, Hotkey::Suppress),
{
}

/// The hotkey bound to `NONE` + `Y`: outside the Normal mode it resolves to `Hotkey::Default`; in that mode it needs the foreground application; for VS Code, Chrome it resolves to the shortcut stated below, for any other application to `Hotkey::Suppress`.
pub proof fn law_y<A, R>(mode: ModeState, app: Option<AppKind>, youtube: Option<bool>, drag: A)
    ensures
        mode != ModeState::Normal ==> spec_decide::<A, R>(Bind::Y, mode, app, youtube, drag) == Decision::<A, R>::Done(Effect::Nothing, Hotkey::Default),
        mode == ModeState::Normal && app is None ==> spec_decide::<A, R>(Bind::Y, mode, app, youtube, drag) == Decision::<A, R>::NeedName,
        mode == ModeState::Normal && app == Some(AppKind::Code) ==> spec_decide::<A, R>(Bind::Y, mode, app, youtube, drag) == Decision::<A, R>::Done(Effect::Nothing, Hotkey::Remap(Mods(mods::LCS), Key(keys::SPACE))),
        mode == ModeState::Normal && app == Some(AppKind::Chrome) ==> spec_decide::<A, R>(Bind::Y, mode, app, youtube, drag) == Decision::<A, R>::Done(Effect::Nothing, Hotkey::Remap(Mods(mods::LA), Key(keys::HOME))),
        mode == ModeState::Normal && app is Some && app != Some(AppKind::Code) && app != Some(AppKind::Chrome) ==> spec_decide::<A, R>(Bind::Y, mode, app, youtube, drag) == Decision::<A, R>::Done(Effect::Nothing, Hotkey::Suppress),
{
}

/// The hotkey bound to `NONE` + `PERIOD`: outside the Normal mode it resolves to `Hotkey::Default`; in that mode it needs the foreground application; for VS Code it resolves to the shortcut stated below, for any other application to `Hotkey::Suppress`.
pub proof fn law_period<A, R>(mode: ModeState, app: Option<AppKind>, youtube: Option<bool>, drag: A)
    ensures
        mode != ModeState::Normal ==> spec_decide::<A, R>(Bind::Period, mode, app, youtube, drag) == Decision::<A, R>::Done(Effect::Nothing, Hotkey::Default),
        mode == ModeState::Normal && app is None ==> spec_decide::<A, R>(Bind::Period, mode, app, youtube, drag) == Decision::<A, R>::NeedName,
        mode == ModeState::Normal && app == Some(AppKind::Code) ==> spec_decide::<A, R>(Bind::Period, mode, app, youtube, drag) == Decision::<A, R>::Done(Effect::Nothing, Hotkey::Remap(Mods(mods::LC), Key(keys::PERIOD))),
        mode == ModeState::Normal && app is Some && app != Some(AppKind::Code) ==> spec_decide::<A, R>(Bind::Period, mode, app, youtube, drag) == Decision::<A, R>::Done(Effect::Nothing, Hotkey::Suppress),
{
}

/// The hotkey bound to `NONE` + `APOSTROPHE`: outside the Normal mode it resolves to `Hotkey::Default`; in that mode it needs the foreground application; for VS Code it resolves to the shortcut stated below, for any other application to `Hotkey::Suppress`.
pub proof fn law_apstrph<A, R>(mode: ModeState, app: Option<AppKind>, youtube: Option<bool>, drag: A)
    ensures
        mode != ModeState::Normal ==> spec_decide::<A, R>(Bind::Apstrph, mode, app, youtube, drag) == Decision::<A, R>::Done(Effect::Nothing, Hotkey::Default),
        mode == ModeState::Normal && app is None ==> spec_decide::<A, R>(Bind::Apstrph, mode, app, youtube, drag) == Decision::<A, R>::NeedName,
        mode == ModeState::Normal && app == Some(AppKind::Code) ==> spec_decide::<A, R>(Bind::Apstrph, mode, app, youtube, drag) == Decision::<A, R>::Done(Effect::Nothing, Hotkey::Remap(Mods(mods::LC), Key(keys::FSLASH))),
        mode == ModeState::Normal && app is Some && app != Some(AppKind::Code) ==> spec_decide::<A, R>(Bind::Apstrph, mode, app, youtube, drag) == Decision::<A, R>::Done(Effect::Nothing, Hotkey::Suppress),
{
}

/// The hotkey bound to `RS` + `LBRACE`: outside the NSymbol mode it resolves to `Hotkey::Default`; in that mode it needs the foreground application; for VS Code, Chrome it resolves to the shortcut stated below, for any other application to `Hotkey::Suppress`.
pub proof fn law_rs_lbrace<A, R>(mode: ModeState, app: Option<AppKind>, youtube: Option<bool>, drag: A)
    ensures
        mode != ModeState::NSymbol ==> spec_decide::<A, R>(Bind::RsLbrace, mode, app, youtube, drag) == Decision::<A, R>::Done(Effect::Nothing, Hotkey::Default),
        mode == ModeState::NSymbol && app is None ==> spec_decide::<A, R>(Bind::RsLbrace, mode, app, youtube, drag) == Decision::<A, R>::NeedName,
        mode == ModeState::NSymbol && app == Some(AppKind::Code) ==> spec_decide::<A, R>(Bind::RsLbrace, mode, app, youtube, drag) == Decision::<A, R>::Done(Effect::Nothing, Hotkey::Remap(Mods(mods::LA), Key(keys::UP))),
        mode == ModeState::NSymbol && app == Some(AppKind::Chrome) ==> spec_decide::<A, R>(Bind::RsLbrace, mode, app, youtube, drag) == Decision::<A, R>::Done(Effect::Nothing, Hotkey::Remap(Mods(mods::LA), Key(keys::NUM5))),
        mode == ModeState::NSymbol && app is Some && app != Some(AppKind::Code) && app != Some(AppKind::Chrome) ==> spec_decide::<A, R>(Bind::RsLbrace, mode, app, youtube, drag) == Decision::<A, R>::Done(Effect::Nothing, Hotkey::Suppress),
{
}

/// The hotkey bound to `RS` + `RBRACE`: outside the NSymbol mode it resolves to `Hotkey::Default`; in that mode it needs the foreground application; for VS Code, Chrome it resolves to the shortcut stated below, for any other application to `Hotkey::Suppress`.
pub proof fn law_rs_rbrace<A, R>(mode: ModeState, app: Option<AppKind>, youtube: Option<bool>, drag: A)
    ensures
        mode != ModeState::NSymbol ==> spec_decide::<A, R>(Bind::RsRbrace, mode, app, youtube, drag) == Decision::<A, R>::Done(Effect::Nothing, Hotkey::Default),
        mode == ModeState::NSymbol && app is None ==> spec_decide::<A, R>(Bind::RsRbrace, mode, app, youtube, drag) == Decision::<A, R>::NeedName,
        mode == ModeState::NSymbol && app == Some(AppKind::Code) ==> spec_decide::<A, R>(Bind::RsRbrace, mode, app, youtube, drag) == Decision::<A, R>::Done(Effect::Nothing, Hotkey::Remap(Mods(mods::LA), Key(keys::DOWN))),
        mode == ModeState::NSymbol && app == Some(AppKind::Chrome) ==> spec_decide::<A, R>(Bind::RsRbrace, mode, app, youtube, drag) == Decision::<A, R>::Done(Effect::Nothing, Hotkey::Remap(Mods(mods::LA), Key(keys::NUM4))),
        mode == ModeState::NSymbol && app is Some && app != Some(AppKind::Code) && app != Some(AppKind::Chrome) ==> spec_decide::<A, R>(Bind::RsRbrace, mode, app, youtube, drag) == Decision::<A, R>::Done(Effect::Nothing, Hotkey::Suppress),
{
}

/// The hotkey bound to `LS_RS` + `LBRACE`: outside the ISymbol mode it resolves to `Hotkey::Default`; in that mode it resolves to `Hotkey::Unicode("«")` with `Effect::Nothing`.
pub proof fn law_ls_rs_lbrace<A, R>(mode: ModeState, app: Option<AppKind>, youtube: Option<bool>, drag: A)
    ensures
        mode != ModeState::ISymbol ==> spec_decide::<A, R>(Bind::LsRsLbrace, mode, app, youtube, drag) == Decision::<A, R>::Done(Effect::Nothing, Hotkey::Default),
        mode == ModeState::ISymbol ==> spec_decide::<A, R>(Bind::LsRsLbrace, mode, app, youtube, drag) == Decision::<A, R>::Done(Effect::Nothing, Hotkey::Unicode("«")),
{
}

/// The hotkey bound to `LS_RS` + `RBRACE`: outside the ISymbol mode it resolves to `Hotkey::Default`; in that mode it resolves to `Hotkey::Unicode("»")` with `Effect::Nothing`.
pub proof fn law_ls_rs_rbrace<A, R>(mode: ModeState, app: Option<AppKind>, youtube: Option<bool>, drag: A)
    ensures
        mode != ModeState::ISymbol ==> spec_decide::<A, R>(Bind::LsRsRbrace, mode, app, youtube, drag) == Decision::<A, R>::Done(Effect::Nothing, Hotkey::Default),
        mode == ModeState::ISymbol ==> spec_decide::<A, R>(Bind::LsRsRbrace, mode, app, youtube, drag) == Decision::<A, R>::Done(Effect::Nothing, Hotkey::Unicode("»")),
{
}

/// The hotkey bound to `LS` + `DASH`: outside the ISymbol mode it resolves to `Hotkey::Default`; in that mode it resolves to `Hotkey::Unicode(":=")` with `Effect::Nothing`.
pub proof fn law_ls_dash<A, R>(mode: ModeState, app: Option<AppKind>, youtube: Option<bool>, drag: A)
    ensures
        mode != ModeState::ISymbol ==> spec_decide::<A, R>(Bind::LsDash, mode, app, youtube, drag) == Decision::<A, R>::Done(Effect::Nothing, Hotkey::Default),
        mode == ModeState::ISymbol ==> spec_decide::<A, R>(Bind::LsDash, mode, app, youtube, drag) == Decision::<A, R>::Done(Effect::Nothing, Hotkey::Unicode(":=")),
{
}

/// The hotkey bound to `LS_RS` + `FSLASH`: outside the ISymbol mode it resolves to `Hotkey::Default`; in that mode it resolves to `Hotkey::Unicode("—")` with `Effect::Nothing`.
pub proof fn law_ls_rs_fslash<A, R>(mode: ModeState, app: Option<AppKind>, youtube: Option<bool>, drag: A)
    ensures
        mode != ModeState::ISymbol ==> spec_decide::<A, R>(Bind::LsRsFslash, mode, app, youtube, drag) == Decision::<A, R>::Done(Effect::Nothing, Hotkey::Default),
        mode == ModeState::ISymbol ==> spec_decide::<A, R>(Bind::LsRsFslash, mode, app, youtube, drag) == Decision::<A, R>::Done(Effect::Nothing, Hotkey::Unicode("—")),
{
}

/// The hotkey bound to `LS` + `BSLASH`: outside the ISymbol mode it resolves to `Hotkey::Default`; in that mode it resolves to `Hotkey::Unicode("\\n")` with `Effect::Nothing`.
pub proof fn law_ls_bslash<A, R>(mode: ModeState, app: Option<AppKind>, youtube: Option<bool>, drag: A)
    ensures
        mode != ModeState::ISymbol ==> spec_decide::<A, R>(Bind::LsBslash, mode, app, youtube, drag) == Decision::<A, R>::Done(Effect::Nothing, Hotkey::Default),
        mode == ModeState::ISymbol ==> spec_decide::<A, R>(Bind::LsBslash, mode, app, youtube, drag) == Decision::<A, R>::Done(Effect::Nothing, Hotkey::Unicode("\\n")),
{
}

/// The hotkey bound to `LC` + `NUM1`: in any mode it needs the foreground application; for VS Code, Obsidian, Windows Terminal it resolves to the shortcut stated below, for any other application to `Hotkey::Default`.
pub proof fn law_lc_1<A, R>(mode: ModeState, app: Option<AppKind>, youtube: Option<bool>, drag: A)
    ensures
        app is None ==> spec_decide::<A, R>(Bind::Lc1, mode, app, youtube, drag) == Decision::<A, R>::NeedName,
        app == Some(AppKind::Code) ==> spec_decide::<A, R>(Bind::Lc1, mode, app, youtube, drag) == Decision::<A, R>::Done(Effect::Nothing, Hotkey::Remap(Mods(mods::LCS), Key(keys::E))),
        app == Some(AppKind::Obsidian) ==> spec_decide::<A, R>(Bind::Lc1, mode, app, youtube, drag) == Decision::<A, R>::Done(Effect::Nothing, Hotkey::Remap(Mods(mods::LA), Key(keys::NUM1))),
        app == Some(AppKind::Terminal) ==> spec_decide::<A, R>(Bind::Lc1, mode, app, youtube, drag) == Decision::<A, R>::Done(Effect::Nothing, Hotkey::Remap(Mods(mods::LCA), Key(keys::NUM1))),
        app is Some && app != Some(AppKind::Code) && app != Some(AppKind::Obsidian) && app != Some(AppKind::Terminal) ==> spec_decide::<A, R>(Bind::Lc1, mode, app, youtube, drag) == Decision::<A, R>::Done(Effect::Nothing, Hotkey::Default),
{
}

/// The hotkey bound to `LS` + `NUM1`: outside the NSymbol mode it resolves to `Hotkey::Default`; in that mode it needs the foreground application; for VS Code it resolves to the shortcut stated below, for any other application to `Hotkey::Suppress`.
pub proof fn law_ls_1<A, R>(mode: ModeState, app: Option<AppKind>, youtube: Option<bool>, drag: A)
    ensures
        mode != ModeState::NSymbol ==> spec_decide::<A, R>(Bind::Ls1, mode, app, youtube, drag) == Decision::<A, R>::Done(Effect::Nothing, Hotkey::Default),
        mode == ModeState::NSymbol && app is None ==> spec_decide::<A, R>(Bind::Ls1, mode, app, youtube, drag) == Decision::<A, R>::NeedName,
        mode == ModeState::NSymbol && app == Some(AppKind::Code) ==> spec_decide::<A, R>(Bind::Ls1, mode, app, youtube, drag) == Decision::<A, R>::Done(Effect::Nothing, Hotkey::Remap(Mods(mods::LCA), Key(keys::UP))),
        mode == ModeState::NSymbol && app is Some && app != Some(AppKind::Code) ==> spec_decide::<A, R>(Bind::Ls1, mode, app, youtube, drag) == Decision::<A, R>::Done(Effect::Nothing, Hotkey::Suppress),
{
}

/// The hotkey bound to `LC` + `NUM2`: in any mode it needs the foreground application; for VS Code, Windows Terminal it resolves to the shortcut stated below, for any other application to `Hotkey::Default`.
pub proof fn law_lc_2<A, R>(mode: ModeState, app: Option<AppKind>, youtube: Option<bool>, drag: A)
    ensures
        app is None ==> spec_decide::<A, R>(Bind::Lc2, mode, app, youtube, drag) == Decision::<A, R>::NeedName,
        app == Some(AppKind::Code) ==> spec_decide::<A, R>(Bind::Lc2, mode, app, youtube, drag) == Decision::<A, R>::Done(Effect::Nothing, Hotkey::Remap(Mods(mods::LSA), Key(keys::NUM2))),
        app == Some(AppKind::Terminal) ==> spec_decide::<A, R>(Bind::Lc2, mode, app, youtube, drag) == Decision::<A, R>::Done(Effect::Nothing, Hotkey::Remap(Mods(mods::LCA), Key(keys::NUM2))),
        app is Some && app != Some(AppKind::Code) && app != Some(AppKind::Terminal) ==> spec_decide::<A, R>(Bind::Lc2, mode, app, youtube, drag) == Decision::<A, R>::Done(Effect::Nothing, Hotkey::Default),
{
}

/// The hotkey bound to `RS` + `NUM2`: outside the NSymbol mode it resolves to `Hotkey::Default`; in that mode it needs the foreground application; for Chrome it resolves to the shortcut stated below, for any other application to `Hotkey::Suppress`.
pub proof fn law_rs_2<A, R>(mode: ModeState, app: Option<AppKind>, youtube: Option<bool>, drag: A)
    ensures
        mode != ModeState::NSymbol ==> spec_decide::<A, R>(Bind::Rs2, mode, app, youtube, drag) == Decision::<A, R>::Done(Effect::Nothing, Hotkey::Default),
        mode == ModeState::NSymbol && app is None ==> spec_decide::<A, R>(Bind::Rs2, mode, app, youtube, drag) == Decision::<A, R>::NeedName,
        mode == ModeState::NSymbol && app == Some(AppKind::Chrome) ==> spec_decide::<A, R>(Bind::Rs2, mode, app, youtube, drag) == Decision::<A, R>::Done(Effect::Nothing, Hotkey::Remap(Mods(mods::LA), Key(keys::NUM6))),
        mode == ModeState::NSymbol && app is Some && app != Some(AppKind::Chrome) ==> spec_decide::<A, R>(Bind::Rs2, mode, app, youtube, drag) == Decision::<A, R>::Done(Effect::Nothing, Hotkey::Suppress),
{
}

/// The hotkey bound to `LC` + `NUM3`: in any mode it needs the foreground application; for VS Code, Windows Terminal, Obsidian it resolves to the shortcut stated below, for any other application to `Hotkey::Default`.
pub proof fn law_lc_3<A, R>(mode: ModeState, app: Option<AppKind>, youtube: Option<bool>, drag: A)
    ensures
        app is None ==> spec_decide::<A, R>(Bind::Lc3, mode, app, youtube, drag) == Decision::<A, R>::NeedName,
        app == Some(AppKind::Code) ==> spec_decide::<A, R>(Bind::Lc3, mode, app, youtube, drag) == Decision::<A, R>::Done(Effect::Nothing, Hotkey::Remap(Mods(mods::LCS), Key(keys::D))),
        app == Some(AppKind::Terminal) ==> spec_decide::<A, R>(Bind::Lc3, mode, app, youtube, drag) == Decision::<A, R>::Done(Effect::Nothing, Hotkey::Remap(Mods(mods::LCA), Key(keys::NUM3))),
        app == Some(AppKind::Obsidian) ==> spec_decide::<A, R>(Bind::Lc3, mode, app, youtube, drag) == Decision::<A, R>::Done(Effect::Nothing, Hotkey::Remap(Mods(mods::LA), Key(keys::NUM3))),
        app is Some && app != Some(AppKind::Code) && app != Some(AppKind::Terminal) && app != Some(AppKind::Obsidian) ==> spec_decide::<A, R>(Bind::Lc3, mode, app, youtube, drag) == Decision::<A, R>::Done(Effect::Nothing, Hotkey::Default),
{
}

/// The hotkey bound to `LS` + `NUM3`: outside the NSymbol mode it resolves to `Hotkey::Default`; in that mode it needs the foreground application; for VS Code it resolves to the shortcut stated below, for any other application to `Hotkey::Suppress`.
pub proof fn law_ls_3<A, R>(mode: ModeState, app: Option<AppKind>, youtube: Option<bool>, drag: A)
    ensures
        mode != ModeState::NSymbol ==> spec_decide::<A, R>(Bind::Ls3, mode, app, youtube, drag) == Decision::<A, R>::Done(Effect::Nothing, Hotkey::Default),
        mode == ModeState::NSymbol && app is None ==> spec_decide::<A, R>(Bind::Ls3, mode, app, youtube, drag) == Decision::<A, R>::NeedName,
        mode == ModeState::NSymbol && app == Some(AppKind::Code) ==> spec_decide::<A, R>(Bind::Ls3, mode, app, youtube, drag) == Decision::<A, R>::Done(Effect::Nothing, Hotkey::Remap(Mods(mods::LCA), Key(keys::DOWN))),
        mode == ModeState::NSymbol && app is Some && app != Some(AppKind::Code) ==> spec_decide::<A, R>(Bind::Ls3, mode, app, youtube, drag) == Decision::<A, R>::Done(Effect::Nothing, Hotkey::Suppress),
{
}

/// The hotkey bound to `LC` + `NUM4`: in any mode it needs the foreground application; for Windows Terminal it resolves to the shortcut stated below, for any other application to `Hotkey::Default`.
pub proof fn law_lc_4<A, R>(mode: ModeState, app: Option<AppKind>, youtube: Option<bool>, drag: A)
    ensures
        app is None ==> spec_decide::<A, R>(Bind::Lc4, mode, app, youtube, drag) == Decision::<A, R>::NeedName,
        app == Some(AppKind::Terminal) ==> spec_decide::<A, R>(Bind::Lc4, mode, app, youtube, drag) == Decision::<A, R>::Done(Effect::Nothing, Hotkey::Remap(Mods(mods::LCA), Key(keys::NUM4))),
        app is Some && app != Some(AppKind::Terminal) ==> spec_decide::<A, R>(Bind::Lc4, mode, app, youtube, drag) == Decision::<A, R>::Done(Effect::Nothing, Hotkey::Default),
{
}

/// The hotkey bound to `LC` + `NUM5`: in any mode it needs the foreground application; for Windows Terminal it resolves to the shortcut stated below, for any other application to `Hotkey::Default`.
pub proof fn law_lc_5<A, R>(mode: ModeState, app: Option<AppKind>, youtube: Option<bool>, drag: A)
    ensures
        app is None ==> spec_decide::<A, R>(Bind::Lc5, mode, app, youtube, drag) == Decision::<A, R>::NeedName,
        app == Some(AppKind::Terminal) ==> spec_decide::<A, R>(Bind::Lc5, mode, app, youtube, drag) == Decision::<A, R>::Done(Effect::Nothing, Hotkey::Remap(Mods(mods::LCA), Key(keys::NUM5))),
        app is Some && app != Some(AppKind::Terminal) ==> spec_decide::<A, R>(Bind::Lc5, mode, app, youtube, drag) == Decision::<A, R>::Done(Effect::Nothing, Hotkey::Default),
{
}

/// The hotkey bound to `LC` + `NUM6`: in any mode it needs the foreground application; for VS Code, Windows Terminal it resolves to the shortcut stated below, for any other application to `Hotkey::Default`.
pub proof fn law_lc_6<A, R>(mode: ModeState, app: Option<AppKind>, youtube: Option<bool>, drag: A)
    ensures
        app is None ==> spec_decide::<A, R>(Bind::Lc6, mode, app, youtube, drag) == Decision::<A, R>::NeedName,
        app == Some(AppKind::Code) ==> spec_decide::<A, R>(Bind::Lc6, mode, app, youtube, drag) == Decision::<A, R>::Done(Effect::Nothing, Hotkey::Remap(Mods(mods::LCS), Key(keys::G))),
        app == Some(AppKind::Terminal) ==> spec_decide::<A, R>(Bind::Lc6, mode, app, youtube, drag) == Decision::<A, R>::Done(Effect::Nothing, Hotkey::Remap(Mods(mods::LCA), Key(keys::NUM6))),
        app is Some && app != Some(AppKind::Code) && app != Some(AppKind::Terminal) ==> spec_decide::<A, R>(Bind::Lc6, mode, app, youtube, drag) == Decision::<A, R>::Done(Effect::Nothing, Hotkey::Default),
{
}

/// The hotkey bound to `LS` + `NUM7`: outside the ISymbol mode it resolves to `Hotkey::Default`; in that mode it resolves to `Hotkey::Unicode("–")` with `Effect::Nothing`.
pub proof fn law_ls_7<A, R>(mode: ModeState, app: Option<AppKind>, youtube: Option<bool>, drag: A)
    ensures
        mode != ModeState::ISymbol ==> spec_decide::<A, R>(Bind::Ls7, mode, app, youtube, drag) == Decision::<A, R>::Done(Effect::Nothing, Hotkey::Default),
        mode == ModeState::ISymbol ==> spec_decide::<A, R>(Bind::Ls7, mode, app, youtube, drag) == Decision::<A, R>::Done(Effect::Nothing, Hotkey::Unicode("–")),
{
}

/// The hotkey bound to `LS` + `NUM8`: outside the ISymbol mode it resolves to `Hotkey::Default`; in that mode it resolves to `Hotkey::Unicode("->")` with `Effect::Nothing`.
pub proof fn law_ls_8<A, R>(mode: ModeState, app: Option<AppKind>, youtube: Option<bool>, drag: A)
    ensures
        mode != ModeState::ISymbol ==> spec_decide::<A, R>(Bind::Ls8, mode, app, youtube, drag) == Decision::<A, R>::Done(Effect::Nothing, Hotkey::Default),
        mode == ModeState::ISymbol ==> spec_decide::<A, R>(Bind::Ls8, mode, app, youtube, drag) == Decision::<A, R>::Done(Effect::Nothing, Hotkey::Unicode("->")),
{
}

/// The hotkey bound to `LS` + `NUM9`: outside the ISymbol mode it resolves to `Hotkey::Default`; in that mode it resolves to `Hotkey::Unicode("=>")` with `Effect::Nothing`.
pub proof fn law_ls_9<A, R>(mode: ModeState, app: Option<AppKind>, youtube: Option<bool>, drag: A)
    ensures
        mode != ModeState::ISymbol ==> spec_decide::<A, R>(Bind::Ls9, mode, app, youtube, drag) == Decision::<A, R>::Done(Effect::Nothing, Hotkey::Default),
        mode == ModeState::ISymbol ==> spec_decide::<A, R>(Bind::Ls9, mode, app, youtube, drag) == Decision::<A, R>::Done(Effect::Nothing, Hotkey::Unicode("=>")),
{
}

/// The hotkey bound to `LC` + `NUM0`: in any mode it needs the foreground application; for Chrome, Windows Terminal it resolves to the shortcut stated below, for any other application to `Hotkey::Default`.
pub proof fn law_lc_0<A, R>(mode: ModeState, app: Option<AppKind>, youtube: Option<bool>, drag: A)
    ensures
        app is None ==> spec_decide::<A, R>(Bind::Lc0, mode, app, youtube, drag) == Decision::<A, R>::NeedName,
        app == Some(AppKind::Chrome) ==> spec_decide::<A, R>(Bind::Lc0, mode, app, youtube, drag) == Decision::<A, R>::Done(Effect::Nothing, Hotkey::Remap(Mods(mods::LC), Key(keys::NUM9))),
        app == Some(AppKind::Terminal) ==> spec_decide::<A, R>(Bind::Lc0, mode, app, youtube, drag) == Decision::<A, R>::Done(Effect::Nothing, Hotkey::Remap(Mods(mods::LCA), Key(keys::NUM9))),
        app is Some && app != Some(AppKind::Chrome) && app != Some(AppKind::Terminal) ==> spec_decide::<A, R>(Bind::Lc0, mode, app, youtube, drag) == Decision::<A, R>::Done(Effect::Nothing, Hotkey::Default),
{
}

/// The hotkey bound to `LSW` + `NUM0`: always it resolves to `Hotkey::Suppress` with `Effect::ToggleSuspend`.
pub proof fn law_suspend<A, R>(mode: ModeState, app: Option<AppKind>, youtube: Option<bool>, drag: A)
    ensures
        spec_decide::<A, R>(Bind::Suspend, mode, app, youtube, drag) == Decision::<A, R>::Done(Effect::ToggleSuspend, Hotkey::Suppress),
{
}

/// The hotkey bound to `LW` + `NUM0`: always it resolves to `Hotkey::Suppress` with `Effect::Exit`.
pub proof fn law_exit<A, R>(mode: ModeState, app: Option<AppKind>, youtube: Option<bool>, drag: A)
    ensures
        spec_decide::<A, R>(Bind::Exit, mode, app, youtube, drag) == Decision::<A, R>::Done(Effect::Exit, Hotkey::Suppress),
{
}

/// The hotkey bound to `LS` + `UP`: outside the Normal mode it resolves to `Hotkey::Suppress`; in that mode it resolves to `Hotkey::Remap(Mods(mods::NONE), Key(keys::WH_UP_X2))` with `Effect::CenterCursor`.
pub proof fn law_ls_up<A, R>(mode: ModeState, app: Option<AppKind>, youtube: Option<bool>, drag: A)
    ensures
        mode != ModeState::Normal ==> spec_decide::<A, R>(Bind::LsUp, mode, app, youtube, drag) == Decision::<A, R>::Done(Effect::Nothing, Hotkey::Suppress),
        mode == ModeState::Normal ==> spec_decide::<A, R>(Bind::LsUp, mode, app, youtube, drag) == Decision::<A, R>::Done(Effect::CenterCursor, Hotkey::Remap(Mods(mods::NONE), Key(keys::WH_UP_X2))),
{
}

/// The hotkey bound to `LS` + `DOWN`: outside the Normal mode it resolves to `Hotkey::Suppress`; in that mode it resolves to `Hotkey::Remap(Mods(mods::NONE), Key(keys::WH_DOWN_X2))` with `Effect::CenterCursor`.
pub proof fn law_ls_down<A, R>(mode: ModeState, app: Option<AppKind>, youtube: Option<bool>, drag: A)
    ensures
        mode != ModeState::Normal ==> spec_decide::<A, R>(Bind::LsDown, mode, app, youtube, drag) == Decision::<A, R>::Done(Effect::Nothing, Hotkey::Suppress),
        mode == ModeState::Normal ==> spec_decide::<A, R>(Bind::LsDown, mode, app, youtube, drag) == Decision::<A, R>::Done(Effect::CenterCursor, Hotkey::Remap(Mods(mods::NONE), Key(keys::WH_DOWN_X2))),
{
}

/// The hotkey bound to `LA` + `UP`: outside the Normal mode it resolves to `Hotkey::Default`; in that mode it needs the foreground application; for VS Code, Windows Terminal it resolves to the shortcut stated below, for any other application to `Hotkey::Default`.
pub proof fn law_la_up<A, R>(mode: ModeState, app: Option<AppKind>, youtube: Option<bool>, drag: A)
    ensures
        mode != ModeState::Normal ==> spec_decide::<A, R>(Bind::LaUp, mode, app, youtube, drag) == Decision::<A, R>::Done(Effect::Nothing, Hotkey::Default),
        mode == ModeState::Normal && app is None ==> spec_decide::<A, R>(Bind::LaUp, mode, app, youtube, drag) == Decision::<A, R>::NeedName,
        mode == ModeState::Normal && app == Some(AppKind::Code) ==> spec_decide::<A, R>(Bind::LaUp, mode, app, youtube, drag) == Decision::<A, R>::Done(Effect::Nothing, Hotkey::Remap(Mods(mods::LCA), Key(keys::PG_UP))),
        mode == ModeState::Normal && app == Some(AppKind::Terminal) ==> spec_decide::<A, R>(Bind::LaUp, mode, app, youtube, drag) == Decision::<A, R>::Done(Effect::Nothing, Hotkey::Remap(Mods(mods::LCS), Key(keys::UP))),
        mode == ModeState::Normal && app is Some && app != Some(AppKind::Code) && app != Some(AppKind::Terminal) ==> spec_decide::<A, R>(Bind::LaUp, mode, app, youtube, drag) == Decision::<A, R>::Done(Effect::Nothing, Hotkey::Default),
{
}

/// The hotkey bound to `LA` + `DOWN`: outside the Normal mode it resolves to `Hotkey::Default`; in that mode it needs the foreground application; for VS Code, Windows Terminal it resolves to the shortcut stated below, for any other application to `Hotkey::Default`.
pub proof fn law_la_down<A, R>(mode: ModeState, app: Option<AppKind>, youtube: Option<bool>, drag: A)
    ensures
        mode != ModeState::Normal ==> spec_decide::<A, R>(Bind::LaDown, mode, app, youtube, drag) == Decision::<A, R>::Done(Effect::Nothing, Hotkey::Default),
        mode == ModeState::Normal && app is None ==> spec_decide::<A, R>(Bind::LaDown, mode, app, youtube, drag) == Decision::<A, R>::NeedName,
        mode == ModeState::Normal && app == Some(AppKind::Code) ==> spec_decide::<A, R>(Bind::LaDown, mode, app, youtube, drag) == Decision::<A, R>::Done(Effect::Nothing, Hotkey::Remap(Mods(mods::LCA), Key(keys::PG_DOWN))),
        mode == ModeState::Normal && app == Some(AppKind::Terminal) ==> spec_decide::<A, R>(Bind::LaDown, mode, app, youtube, drag) == Decision::<A, R>::Done(Effect::Nothing, Hotkey::Remap(Mods(mods::LCS), Key(keys::DOWN))),
        mode == ModeState::Normal && app is Some && app != Some(AppKind::Code) && app != Some(AppKind::Terminal) ==> spec_decide::<A, R>(Bind::LaDown, mode, app, youtube, drag) == Decision::<A, R>::Done(Effect::Nothing, Hotkey::Default),
{
}

/// The hotkey bound to `LCS` + `UP`: outside the Normal mode it resolves to `Hotkey::Default`; in that mode it needs the foreground application; for VS Code, Telegram it resolves to the shortcut stated below, for any other application to `Hotkey::Suppress`.
pub proof fn law_lcs_up<A, R>(mode: ModeState, app: Option<AppKind>, youtube: Option<bool>, drag: A)
    ensures
        mode != ModeState::Normal ==> spec_decide::<A, R>(Bind::LcsUp, mode, app, youtube, drag) == Decision::<A, R>::Done(Effect::Nothing, Hotkey::Default),
        mode == ModeState::Normal && app is None ==> spec_decide::<A, R>(Bind::LcsUp, mode, app, youtube, drag) == Decision::<A, R>::NeedName,
        mode == ModeState::Normal && app == Some(AppKind::Code) ==> spec_decide::<A, R>(Bind::LcsUp, mode, app, youtube, drag) == Decision::<A, R>::Done(Effect::CenterCursor, Hotkey::Remap(Mods(mods::LA), Key(keys::WH_UP))),
        mode == ModeState::Normal && app == Some(AppKind::Telegram) ==> spec_decide::<A, R>(Bind::LcsUp, mode, app, youtube, drag) == Decision::<A, R>::Done(Effect::CenterCursor, Hotkey::Remap(Mods(mods::LC), Key(keys::WH_UP))),
        mode == ModeState::Normal && app is Some && app != Some(AppKind::Code) && app != Some(AppKind::Telegram) ==> spec_decide::<A, R>(Bind::LcsUp, mode, app, youtube, drag) == Decision::<A, R>::Done(Effect::Nothing, Hotkey::Suppress),
{
}

/// The hotkey bound to `LCS` + `DOWN`: outside the Normal mode it resolves to `Hotkey::Default`; in that mode it needs the foreground application; for VS Code, Telegram it resolves to the shortcut stated below, for any other application to `Hotkey::Suppress`.
pub proof fn law_lcs_down<A, R>(mode: ModeState, app: Option<AppKind>, youtube: Option<bool>, drag: A)
    ensures
        mode != ModeState::Normal ==> spec_decide::<A, R>(Bind::LcsDown, mode, app, youtube, drag) == Decision::<A, R>::Done(Effect::Nothing, Hotkey::Default),
        mode == ModeState::Normal && app is None ==> spec_decide::<A, R>(Bind::LcsDown, mode, app, youtube, drag) == Decision::<A, R>::NeedName,
        mode == ModeState::Normal && app == Some(AppKind::Code) ==> spec_decide::<A, R>(Bind::LcsDown, mode, app, youtube, drag) == Decision::<A, R>::Done(Effect::CenterCursor, Hotkey::Remap(Mods(mods::LA), Key(keys::WH_DOWN))),
        mode == ModeState::Normal && app == Some(AppKind::Telegram) ==> spec_decide::<A, R>(Bind::LcsDown, mode, app, youtube, drag) == Decision::<A, R>::Done(Effect::CenterCursor, Hotkey::Remap(Mods(mods::LC), Key(keys::WH_DOWN))),
        mode == ModeState::Normal && app is Some && app != Some(AppKind::Code) && app != Some(AppKind::Telegram) ==> spec_decide::<A, R>(Bind::LcsDown, mode, app, youtube, drag) == Decision::<A, R>::Done(Effect::Nothing, Hotkey::Suppress),
{
}

/// The hotkey bound to `LSA` + `UP`: outside the Normal mode it resolves to `Hotkey::Default`; in that mode it needs the foreground application; for VS Code, Windows Terminal it resolves to the shortcut stated below, for any other application to `Hotkey::Default`.
pub proof fn law_lsa_up<A, R>(mode: ModeState, app: Option<AppKind>, youtube: Option<bool>, drag: A)
    ensures
        mode != ModeState::Normal ==> spec_decide::<A, R>(Bind::LsaUp, mode, app, youtube, drag) == Decision::<A, R>::Done(Effect::Nothing, Hotkey::Default),
        mode == ModeState::Normal && app is None ==> spec_decide::<A, R>(Bind::LsaUp, mode, app, youtube, drag) == Decision::<A, R>::NeedName,
        mode == ModeState::Normal && app == Some(AppKind::Code) ==> spec_decide::<A, R>(Bind::LsaUp, mode, app, youtube, drag) == Decision::<A, R>::Done(Effect::Nothing, Hotkey::Remap(Mods(mods::LS), Key(keys::PG_UP))),
        mode == ModeState::Normal && app == Some(AppKind::Terminal) ==> spec_decide::<A, R>(Bind::LsaUp, mode, app, youtube, drag) == Decision::<A, R>::Done(Effect::Nothing, Hotkey::Remap(Mods(mods::LCS), Key(keys::PG_UP))),
        mode == ModeState::Normal && app is Some && app != Some(AppKind::Code) && app != Some(AppKind::Terminal) ==> spec_decide::<A, R>(Bind::LsaUp, mode, app, youtube, drag) == Decision::<A, R>::Done(Effect::Nothing, Hotkey::Default),
{
}

/// The hotkey bound to `LSA` + `DOWN`: outside the Normal mode it resolves to `Hotkey::Default`; in that mode it needs the foreground application; for VS Code, Windows Terminal it resolves to the shortcut stated below, for any other application to `Hotkey::Default`.
pub proof fn law_lsa_down<A, R>(mode: ModeState, app: Option<AppKind>, youtube: Option<bool>, drag: A)
    ensures
        mode != ModeState::Normal ==> spec_decide::<A, R>(Bind::LsaDown, mode, app, youtube, drag) == Decision::<A, R>::Done(Effect::Nothing, Hotkey::Default),
        mode == ModeState::Normal && app is None ==> spec_decide::<A, R>(Bind::LsaDown, mode, app, youtube, drag) == Decision::<A, R>::NeedName,
        mode == ModeState::Normal && app == Some(AppKind::Code) ==> spec_decide::<A, R>(Bind::LsaDown, mode, app, youtube, drag) == Decision::<A, R>::Done(Effect::Nothing, Hotkey::Remap(Mods(mods::LS), Key(keys::PG_DOWN))),
        mode == ModeState::Normal && app == Some(AppKind::Terminal) ==> spec_decide::<A, R>(Bind::LsaDown, mode, app, youtube, drag) == Decision::<A, R>::Done(Effect::Nothing, Hotkey::Remap(Mods(mods::LCS), Key(keys::PG_DOWN))),
        mode == ModeState::Normal && app is Some && app != Some(AppKind::Code) && app != Some(AppKind::Terminal) ==> spec_decide::<A, R>(Bind::LsaDown, mode, app, youtube, drag) == Decision::<A, R>::Done(Effect::Nothing, Hotkey::Default),
{
}

/// The hotkey bound to `LS_RS` + `UP`: outside the Select mode it resolves to `Hotkey::Suppress`; in that mode it resolves to `Hotkey::Remap(Mods(mods::NONE), Key(keys::WH_UP_X2))` with `Effect::CenterCursor`.
pub proof fn law_ls_rs_up<A, R>(mode: ModeState, app: Option<AppKind>, youtube: Option<bool>, drag: A)
    ensures
        mode != ModeState::Select ==> spec_decide::<A, R>(Bind::LsRsUp, mode, app, youtube, drag) == Decision::<A, R>::Done(Effect::Nothing, Hotkey::Suppress),
        mode == ModeState::Select ==> spec_decide::<A, R>(Bind::LsRsUp, mode, app, youtube, drag) == Decision::<A, R>::Done(Effect::CenterCursor, Hotkey::Remap(Mods(mods::NONE), Key(keys::WH_UP_X2))),
{
}

/// The hotkey bound to `LS_RS` + `DOWN`: outside the Select mode it resolves to `Hotkey::Suppress`; in that mode it resolves to `Hotkey::Remap(Mods(mods::NONE), Key(keys::WH_DOWN_X2))` with `Effect::CenterCursor`.
pub proof fn law_ls_rs_down<A, R>(mode: ModeState, app: Option<AppKind>, youtube: Option<bool>, drag: A)
    ensures
        mode != ModeState::Select ==> spec_decide::<A, R>(Bind::LsRsDown, mode, app, youtube, drag) == Decision::<A, R>::Done(Effect::Nothing, Hotkey::Suppress),
        mode == ModeState::Select ==> spec_decide::<A, R>(Bind::LsRsDown, mode, app, youtube, drag) == Decision::<A, R>::Done(Effect::CenterCursor, Hotkey::Remap(Mods(mods::NONE), Key(keys::WH_DOWN_X2))),
{
}

/// The hotkey bound to `LS` + `LEFT`: outside the Normal mode it resolves to `Hotkey::Default`; in that mode it needs the foreground application; for Obsidian it resolves to the shortcut stated below, for any other application to `Hotkey::Default`.
pub proof fn law_ls_left<A, R>(mode: ModeState, app: Option<AppKind>, youtube: Option<bool>, drag: A)
    ensures
        mode != ModeState::Normal ==> spec_decide::<A, R>(Bind::LsLeft, mode, app, youtube, drag) == Decision::<A, R>::Done(Effect::Nothing, Hotkey::Default),
        mode == ModeState::Normal && app is None ==> spec_decide::<A, R>(Bind::LsLeft, mode, app, youtube, drag) == Decision::<A, R>::NeedName,
        mode == ModeState::Normal && app == Some(AppKind::Obsidian) ==> spec_decide::<A, R>(Bind::LsLeft, mode, app, youtube, drag) == Decision::<A, R>::Done(Effect::Nothing, Hotkey::Remap(Mods(mods::LS), Key(keys::F3))),
        mode == ModeState::Normal && app is Some && app != Some(AppKind::Obsidian) ==> spec_decide::<A, R>(Bind::LsLeft, mode, app, youtube, drag) == Decision::<A, R>::Done(Effect::Nothing, Hotkey::Default),
{
}

/// The hotkey bound to `LS` + `RIGHT`: outside the Normal mode it resolves to `Hotkey::Default`; in that mode it needs the foreground application; for Obsidian it resolves to the shortcut stated below, for any other application to `Hotkey::Default`.
pub proof fn law_ls_right<A, R>(mode: ModeState, app: Option<AppKind>, youtube: Option<bool>, drag: A)
    ensures
        mode != ModeState::Normal ==> spec_decide::<A, R>(Bind::LsRight, mode, app, youtube, drag) == Decision::<A, R>::Done(Effect::Nothing, Hotkey::Default),
        mode == ModeState::Normal && app is None ==> spec_decide::<A, R>(Bind::LsRight, mode, app, youtube, drag) == Decision::<A, R>::NeedName,
        mode == ModeState::Normal && app == Some(AppKind::Obsidian) ==> spec_decide::<A, R>(Bind::LsRight, mode, app, youtube, drag) == Decision::<A, R>::Done(Effect::Nothing, Hotkey::Remap(Mods(mods::NONE), Key(keys::F3))),
        mode == ModeState::Normal && app is Some && app != Some(AppKind::Obsidian) ==> spec_decide::<A, R>(Bind::LsRight, mode, app, youtube, drag) == Decision::<A, R>::Done(Effect::Nothing, Hotkey::Default),
{
}

/// The hotkey bound to `LC` + `HOME`: outside the Normal mode it resolves to `Hotkey::Default`; in that mode it needs the foreground application; for VS Code, Chrome, Windows Terminal, File Explorer, Obsidian it resolves to the shortcut stated below, for any other application to `Hotkey::Default`.
pub proof fn law_lc_home<A, R>(mode: ModeState, app: Option<AppKind>, youtube: Option<bool>, drag: A)
    ensures
        mode != ModeState::Normal ==> spec_decide::<A, R>(Bind::LcHome, mode, app, youtube, drag) == Decision::<A, R>::Done(Effect::Nothing, Hotkey::Default),
        mode == ModeState::Normal && app is None ==> spec_decide::<A, R>(Bind::LcHome, mode, app, youtube, drag) == Decision::<A, R>::NeedName,
        mode == ModeState::Normal && app == Some(AppKind::Code) ==> spec_decide::<A, R>(Bind::LcHome, mode, app, youtube, drag) == Decision::<A, R>::Done(Effect::Nothing, Hotkey::Remap(Mods(mods::LC), Key(keys::PG_UP))),
        mode == ModeState::Normal && app == Some(AppKind::Chrome) ==> spec_decide::<A, R>(Bind::LcHome, mode, app, youtube, drag) == Decision::<A, R>::Done(Effect::Nothing, Hotkey::Remap(Mods(mods::LC), Key(keys::PG_UP))),
        mode == ModeState::Normal && app == Some(AppKind::Terminal) ==> spec_decide::<A, R>(Bind::LcHome, mode, app, youtube, drag) == Decision::<A, R>::Done(Effect::Nothing, Hotkey::Remap(Mods(mods::LCS), Key(keys::TAB))),
        mode == ModeState::Normal && app == Some(AppKind::Explorer) ==> spec_decide::<A, R>(Bind::LcHome, mode, app, youtube, drag) == Decision::<A, R>::Done(Effect::Nothing, Hotkey::Remap(Mods(mods::LCS), Key(keys::TAB))),
        mode == ModeState::Normal && app == Some(AppKind::Obsidian) ==> spec_decide::<A, R>(Bind::LcHome, mode, app, youtube, drag) == Decision::<A, R>::Done(Effect::Nothing, Hotkey::Remap(Mods(mods::LC), Key(keys::PG_UP))),
        mode == ModeState::Normal && app is Some && app != Some(AppKind::Code) && app != Some(AppKind::Chrome) && app != Some(AppKind::Terminal) && app != Some(AppKind::Explorer) && app != Some(AppKind::Obsidian) ==> spec_decide::<A, R>(Bind::LcHome, mode, app, youtube, drag) == Decision::<A, R>::Done(Effect::Nothing, Hotkey::Default),
{
}

/// The hotkey bound to `LC` + `END`: outside the Normal mode it resolves to `Hotkey::Default`; in that mode it needs the foreground application; for VS Code, Chrome, Windows Terminal, File Explorer, Obsidian it resolves to the shortcut stated below, for any other application to `Hotkey::Default`.
pub proof fn law_lc_end<A, R>(mode: ModeState, app: Option<AppKind>, youtube: Option<bool>, drag: A)
    ensures
        mode != ModeState::Normal ==> spec_decide::<A, R>(Bind::LcEnd, mode, app, youtube, drag) == Decision::<A, R>::Done(Effect::Nothing, Hotkey::Default),
        mode == ModeState::Normal && app is None ==> spec_decide::<A, R>(Bind::LcEnd, mode, app, youtube, drag) == Decision::<A, R>::NeedName,
        mode == ModeState::Normal && app == Some(AppKind::Code) ==> spec_decide::<A, R>(Bind::LcEnd, mode, app, youtube, drag) == Decision::<A, R>::Done(Effect::Nothing, Hotkey::Remap(Mods(mods::LC), Key(keys::PG_DOWN))),
        mode == ModeState::Normal && app == Some(AppKind::Chrome) ==> spec_decide::<A, R>(Bind::LcEnd, mode, app, youtube, drag) == Decision::<A, R>::Done(Effect::Nothing, Hotkey::Remap(Mods(mods::LC), Key(keys::PG_DOWN))),
        mode == ModeState::Normal && app == Some(AppKind::Terminal) ==> spec_decide::<A, R>(Bind::LcEnd, mode, app, youtube, drag) == Decision::<A, R>::Done(Effect::Nothing, Hotkey::Remap(Mods(mods::LC), Key(keys::TAB))),
        mode == ModeState::Normal && app == Some(AppKind::Explorer) ==> spec_decide::<A, R>(Bind::LcEnd, mode, app, youtube, drag) == Decision::<A, R>::Done(Effect::Nothing, Hotkey::Remap(Mods(mods::LC), Key(keys::TAB))),
        mode == ModeState::Normal && app == Some(AppKind::Obsidian) ==> spec_decide::<A, R>(Bind::LcEnd, mode, app, youtube, drag) == Decision::<A, R>::Done(Effect::Nothing, Hotkey::Remap(Mods(mods::LC), Key(keys::PG_DOWN))),
        mode == ModeState::Normal && app is Some && app != Some(AppKind::Code) && app != Some(AppKind::Chrome) && app != Some(AppKind::Terminal) && app != Some(AppKind::Explorer) && app != Some(AppKind::Obsidian) ==> spec_decide::<A, R>(Bind::LcEnd, mode, app, youtube, drag) == Decision::<A, R>::Done(Effect::Nothing, Hotkey::Default),
{
}

/// The hotkey bound to `LC_RS` + `HOME`: outside the Select mode it resolves to `Hotkey::Default`; in that mode it resolves to `Hotkey::Suppress` with `Effect::Nothing`.
pub proof fn law_lc_rs_home<A, R>(mode: ModeState, app: Option<AppKind>, youtube: Option<bool>, drag: A)
    ensures
        mode != ModeState::Select ==> spec_decide::<A, R>(Bind::LcRsHome, mode, app, youtube, drag) == Decision::<A, R>::Done(Effect::Nothing, Hotkey::Default),
        mode == ModeState::Select ==> spec_decide::<A, R>(Bind::LcRsHome, mode, app, youtube, drag) == Decision::<A, R>::Done(Effect::Nothing, Hotkey::Suppress),
{
}

/// The hotkey bound to `LC_RS` + `END`: outside the Select mode it resolves to `Hotkey::Default`; in that mode it resolves to `Hotkey::Suppress` with `Effect::Nothing`.
pub proof fn law_lc_rs_end<A, R>(mode: ModeState, app: Option<AppKind>, youtube: Option<bool>, drag: A)
    ensures
        mode != ModeState::Select ==> spec_decide::<A, R>(Bind::LcRsEnd, mode, app, youtube, drag) == Decision::<A, R>::Done(Effect::Nothing, Hotkey::Default),
        mode == ModeState::Select ==> spec_decide::<A, R>(Bind::LcRsEnd, mode, app, youtube, drag) == Decision::<A, R>::Done(Effect::Nothing, Hotkey::Suppress),
{
}

/// The hotkey bound to `LS_RS` + `HOME`: outside the Select mode it resolves to `Hotkey::Default`; in that mode it needs the foreground application; for VS Code it resolves to the shortcut stated below, for any other application to `Hotkey::Default`.
pub proof fn law_ls_rs_home<A, R>(mode: ModeState, app: Option<AppKind>, youtube: Option<bool>, drag: A)
    ensures
        mode != ModeState::Select ==> spec_decide::<A, R>(Bind::LsRsHome, mode, app, youtube, drag) == Decision::<A, R>::Done(Effect::Nothing, Hotkey::Default),
        mode == ModeState::Select && app is None ==> spec_decide::<A, R>(Bind::LsRsHome, mode, app, youtube, drag) == Decision::<A, R>::NeedName,
        mode == ModeState::Select && app == Some(AppKind::Code) ==> spec_decide::<A, R>(Bind::LsRsHome, mode, app, youtube, drag) == Decision::<A, R>::Done(Effect::Nothing, Hotkey::Remap(Mods(mods::LSA), Key(keys::LEFT))),
        mode == ModeState::Select && app is Some && app != Some(AppKind::Code) ==> spec_decide::<A, R>(Bind::LsRsHome, mode, app, youtube, drag) == Decision::<A, R>::Done(Effect::Nothing, Hotkey::Default),
{
}

/// The hotkey bound to `LS_RS` + `END`: outside the Select mode it resolves to `Hotkey::Default`; in that mode it needs the foreground application; for VS Code it resolves to the shortcut stated below, for any other application to `Hotkey::Default`.
pub proof fn law_ls_rs_end<A, R>(mode: ModeState, app: Option<AppKind>, youtube: Option<bool>, drag: A)
    ensures
        mode != ModeState::Select ==> spec_decide::<A, R>(Bind::LsRsEnd, mode, app, youtube, drag) == Decision::<A, R>::Done(Effect::Nothing, Hotkey::Default),
        mode == ModeState::Select && app is None ==> spec_decide::<A, R>(Bind::LsRsEnd, mode, app, youtube, drag) == Decision::<A, R>::NeedName,
        mode == ModeState::Select && app == Some(AppKind::Code) ==> spec_decide::<A, R>(Bind::LsRsEnd, mode, app, youtube, drag) == Decision::<A, R>::Done(Effect::Nothing, Hotkey::Remap(Mods(mods::LSA), Key(keys::RIGHT))),
        mode == ModeState::Select && app is Some && app != Some(AppKind::Code) ==> spec_decide::<A, R>(Bind::LsRsEnd, mode, app, youtube, drag) == Decision::<A, R>::Done(Effect::Nothing, Hotkey::Default),
{
}

/// The hotkey bound to `LC` + `PG_UP`: outside the Normal mode it resolves to `Hotkey::Default`; in that mode it resolves to `Hotkey::Remap(Mods(mods::LC), Key(keys::HOME))` with `Effect::Nothing`.
pub proof fn law_lc_pg_up<A, R>(mode: ModeState, app: Option<AppKind>, youtube: Option<bool>, drag: A)
    ensures
        mode != ModeState::Normal ==> spec_decide::<A, R>(Bind::LcPgUp, mode, app, youtube, drag) == Decision::<A, R>::Done(Effect::Nothing, Hotkey::Default),
        mode == ModeState::Normal ==> spec_decide::<A, R>(Bind::LcPgUp, mode, app, youtube, drag) == Decision::<A, R>::Done(Effect::Nothing, Hotkey::Remap(Mods(mods::LC), Key(keys::HOME))),
{
}

/// The hotkey bound to `LC` + `PG_DOWN`: outside the Normal mode it resolves to `Hotkey::Default`; in that mode it resolves to `Hotkey::Remap(Mods(mods::LC), Key(keys::END))` with `Effect::Nothing`.
pub proof fn law_lc_pg_down<A, R>(mode: ModeState, app: Option<AppKind>, youtube: Option<bool>, drag: A)
    ensures
        mode != ModeState::Normal ==> spec_decide::<A, R>(Bind::LcPgDown, mode, app, youtube, drag) == Decision::<A, R>::Done(Effect::Nothing, Hotkey::Default),
        mode == ModeState::Normal ==> spec_decide::<A, R>(Bind::LcPgDown, mode, app, youtube, drag) == Decision::<A, R>::Done(Effect::Nothing, Hotkey::Remap(Mods(mods::LC), Key(keys::END))),
{
}

/// The hotkey bound to `NONE` + `INSERT`: outside the NSymbol mode it resolves to `Hotkey::Default`; in that mode it needs the foreground application; for VS Code it resolves to the shortcut stated below, for any other application to `Hotkey::Suppress`.
pub proof fn law_insert<A, R>(mode: ModeState, app: Option<AppKind>, youtube: Option<bool>, drag: A)
    ensures
        mode != ModeState::NSymbol ==> spec_decide::<A, R>(Bind::Insert, mode, app, youtube, drag) == Decision::<A, R>::Done(Effect::Nothing, Hotkey::Default),
        mode == ModeState::NSymbol && app is None ==> spec_decide::<A, R>(Bind::Insert, mode, app, youtube, drag) == Decision::<A, R>::NeedName,
        mode == ModeState::NSymbol && app == Some(AppKind::Code) ==> spec_decide::<A, R>(Bind::Insert, mode, app, youtube, drag) == Decision::<A, R>::Done(Effect::Nothing, Hotkey::Remap(Mods(mods::LA), Key(keys::INSERT))),
        mode == ModeState::NSymbol && app is Some && app != Some(AppKind::Code) ==> spec_decide::<A, R>(Bind::Insert, mode, app, youtube, drag) == Decision::<A, R>::Done(Effect::Nothing, Hotkey::Suppress),
{
}

/// The hotkey bound to `LS` + `ENTER`: in any mode it needs the foreground application; for VS Code it resolves to the shortcut stated below, for any other application to `Hotkey::Default`.
pub proof fn law_ls_enter<A, R>(mode: ModeState, app: Option<AppKind>, youtube: Option<bool>, drag: A)
    ensures
        app is None ==> spec_decide::<A, R>(Bind::LsEnter, mode, app, youtube, drag) == Decision::<A, R>::NeedName,
        app == Some(AppKind::Code) ==> spec_decide::<A, R>(Bind::LsEnter, mode, app, youtube, drag) == Decision::<A, R>::Done(Effect::Nothing, Hotkey::Remap(Mods(mods::LC), Key(keys::ENTER))),
        app is Some && app != Some(AppKind::Code) ==> spec_decide::<A, R>(Bind::LsEnter, mode, app, youtube, drag) == Decision::<A, R>::Done(Effect::Nothing, Hotkey::Default),
{
}

/// The hotkey bound to `LC` + `SPACE`: in any mode it needs the foreground application; for Chrome it resolves to the shortcut stated below, for any other application to `Hotkey::Default`.
pub proof fn law_lc_space<A, R>(mode: ModeState, app: Option<AppKind>, youtube: Option<bool>, drag: A)
    ensures
        app is None ==> spec_decide::<A, R>(Bind::LcSpace, mode, app, youtube, drag) == Decision::<A, R>::NeedName,
        app == Some(AppKind::Chrome) ==> spec_decide::<A, R>(Bind::LcSpace, mode, app, youtube, drag) == Decision::<A, R>::Done(Effect::Nothing, Hotkey::Remap(Mods(mods::LCS), Key(keys::A))),
        app is Some && app != Some(AppKind::Chrome) ==> spec_decide::<A, R>(Bind::LcSpace, mode, app, youtube, drag) == Decision::<A, R>::Done(Effect::Nothing, Hotkey::Default),
{
}

/// The hotkey bound to `LS` + `XBUTTON1`: always it resolves to `Hotkey::Suppress` with `Effect::SetMouseLayer`.
pub proof fn law_ls_xbutton1<A, R>(mode: ModeState, app: Option<AppKind>, youtube: Option<bool>, drag: A)
    ensures
        spec_decide::<A, R>(Bind::LsXbutton1, mode, app, youtube, drag) == Decision::<A, R>::Done(Effect::SetMouseLayer, Hotkey::Suppress),
{
}

/// The hotkey bound to `LS` + `LBUTTON`: always it resolves to `Hotkey::Action(drag)` with `Effect::Nothing`.
pub proof fn law_ls_lbutton<A, R>(mode: ModeState, app: Option<AppKind>, youtube: Option<bool>, drag: A)
    ensures
        spec_decide::<A, R>(Bind::LsLbutton, mode, app, youtube, drag) == Decision::<A, R>::Done(Effect::Nothing, Hotkey::Action(drag)),
{
}

/// The hotkey bound to `NONE` + `F3`: outside the Mouse mode it resolves to `Hotkey::Default`; in that mode it needs the foreground application; for VS Code it resolves to the shortcut stated below, for any other application to `Hotkey::Suppress`.
pub proof fn law_f3<A, R>(mode: ModeState, app: Option<AppKind>, youtube: Option<bool>, drag: A)
    ensures
        mode != ModeState::Mouse ==> spec_decide::<A, R>(Bind::F3, mode, app, youtube, drag) == Decision::<A, R>::Done(Effect::Nothing, Hotkey::Default),
        mode == ModeState::Mouse && app is None ==> spec_decide::<A, R>(Bind::F3, mode, app, youtube, drag) == Decision::<A, R>::NeedName,
        mode == ModeState::Mouse && app == Some(AppKind::Code) ==> spec_decide::<A, R>(Bind::F3, mode, app, youtube, drag) == Decision::<A, R>::Done(Effect::Nothing, Hotkey::Remap(Mods(mods::LS), Key(keys::F5))),
        mode == ModeState::Mouse && app is Some && app != Some(AppKind::Code) ==> spec_decide::<A, R>(Bind::F3, mode, app, youtube, drag) == Decision::<A, R>::Done(Effect::Nothing, Hotkey::Suppress),
{
}

/// The hotkey bound to `NONE` + `F4`: outside the Mouse mode it resolves to `Hotkey::Default`; in that mode it needs the foreground application; for VS Code it resolves to the shortcut stated below, for any other application to `Hotkey::Suppress`.
pub proof fn law_f4<A, R>(mode: ModeState, app: Option<AppKind>, youtube: Option<bool>, drag: A)
    ensures
        mode != ModeState::Mouse ==> spec_decide::<A, R>(Bind::F4, mode, app, youtube, drag) == Decision::<A, R>::Done(Effect::Nothing, Hotkey::Default),
        mode == ModeState::Mouse && app is None ==> spec_decide::<A, R>(Bind::F4, mode, app, youtube, drag) == Decision::<A, R>::NeedName,
        mode == ModeState::Mouse && app == Some(AppKind::Code) ==> spec_decide::<A, R>(Bind::F4, mode, app, youtube, drag) == Decision::<A, R>::Done(Effect::Nothing, Hotkey::Remap(Mods(mods::LCS), Key(keys::F5))),
        mode == ModeState::Mouse && app is Some && app != Some(AppKind::Code) ==> spec_decide::<A, R>(Bind::F4, mode, app, youtube, drag) == Decision::<A, R>::Done(Effect::Nothing, Hotkey::Suppress),
{
}

/// The hotkey bound to `NONE` + `F6`: outside the Mouse mode it resolves to `Hotkey::Default`; in that mode it needs the foreground application; for VS Code it resolves to the shortcut stated below, for any other application to `Hotkey::Suppress`.
pub proof fn law_f6<A, R>(mode: ModeState, app: Option<AppKind>, youtube: Option<bool>, drag: A)
    ensures
        mode != ModeState::Mouse ==> spec_decide::<A, R>(Bind::F6, mode, app, youtube, drag) == Decision::<A, R>::Done(Effect::Nothing, Hotkey::Default),
        mode == ModeState::Mouse && app is None ==> spec_decide::<A, R>(Bind::F6, mode, app, youtube, drag) == Decision::<A, R>::NeedName,
        mode == ModeState::Mouse && app == Some(AppKind::Code) ==> spec_decide::<A, R>(Bind::F6, mode, app, youtube, drag) == Decision::<A, R>::Done(Effect::Nothing, Hotkey::Remap(Mods(mods::LS), Key(keys::F11))),
        mode == ModeState::Mouse && app is Some && app != Some(AppKind::Code) ==> spec_decide::<A, R>(Bind::F6, mode, app, youtube, drag) == Decision::<A, R>::Done(Effect::Nothing, Hotkey::Suppress),
{
}

/// The hotkey bound to `NONE` + `F7`: outside the Mouse mode it resolves to `Hotkey::Default`; in that mode it needs the foreground application; for VS Code it resolves to the shortcut stated below, for any other application to `Hotkey::Suppress`.
pub proof fn law_f7<A, R>(mode: ModeState, app: Option<AppKind>, youtube: Option<bool>, drag: A)
    ensures
        mode != ModeState::Mouse ==> spec_decide::<A, R>(Bind::F7, mode, app, youtube, drag) == Decision::<A, R>::Done(Effect::Nothing, Hotkey::Default),
        mode == ModeState::Mouse && app is None ==> spec_decide::<A, R>(Bind::F7, mode, app, youtube, drag) == Decision::<A, R>::NeedName,
        mode == ModeState::Mouse && app == Some(AppKind::Code) ==> spec_decide::<A, R>(Bind::F7, mode, app, youtube, drag) == Decision::<A, R>::Done(Effect::Nothing, Hotkey::Remap(Mods(mods::NONE), Key(keys::F10))),
        mode == ModeState::Mouse && app is Some && app != Some(AppKind::Code) ==> spec_decide::<A, R>(Bind::F7, mode, app, youtube, drag) == Decision::<A, R>::Done(Effect::Nothing, Hotkey::Suppress),
{
}

/// The hotkey bound to `NONE` + `F8`: outside the Mouse mode it resolves to `Hotkey::Default`; in that mode it needs the foreground application; for VS Code it resolves to the shortcut stated below, for any other application to `Hotkey::Suppress`.
pub proof fn law_f8<A, R>(mode: ModeState, app: Option<AppKind>, youtube: Option<bool>, drag: A)
    ensures
        mode != ModeState::Mouse ==> spec_decide::<A, R>(Bind::F8, mode, app, youtube, drag) == Decision::<A, R>::Done(Effect::Nothing, Hotkey::Default),
        mode == ModeState::Mouse && app is None ==> spec_decide::<A, R>(Bind::F8, mode, app, youtube, drag) == Decision::<A, R>::NeedName,
        mode == ModeState::Mouse && app == Some(AppKind::Code) ==> spec_decide::<A, R>(Bind::F8, mode, app, youtube, drag) == Decision::<A, R>::Done(Effect::Nothing, Hotkey::Remap(Mods(mods::NONE), Key(keys::F11))),
        mode == ModeState::Mouse && app is Some && app != Some(AppKind::Code) ==> spec_decide::<A, R>(Bind::F8, mode, app, youtube, drag) == Decision::<A, R>::Done(Effect::Nothing, Hotkey::Suppress),
{
}

/// The hotkey bound to `NONE` + `F21`: always it resolves to `Hotkey::Action(drag)` with `Effect::Nothing`.
pub proof fn law_f21<A, R>(mode: ModeState, app: Option<AppKind>, youtube: Option<bool>, drag: A)
    ensures
        spec_decide::<A, R>(Bind::F21, mode, app, youtube, drag) == Decision::<A, R>::Done(Effect::Nothing, Hotkey::Action(drag)),
{
}

/// The hotkey bound to `NONE` + `F23`: always it resolves to `Hotkey::Suppress` with `Effect::ToggleMute`.
pub proof fn law_f23<A, R>(mode: ModeState, app: Option<AppKind>, youtube: Option<bool>, drag: A)
    ensures
        spec_decide::<A, R>(Bind::F23, mode, app, youtube, drag) == Decision::<A, R>::Done(Effect::ToggleMute, Hotkey::Suppress),
{
}

} // verus!
