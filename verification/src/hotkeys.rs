use vstd::prelude::*;
use crate::input::hotkey::{Hotkey, hotkey_ok, utf16_encode};
use crate::input::input_builder::units_paired;
use crate::input::keys::{self, Key};
use crate::input::mods::{self, Mods};
use crate::misc::mode::ModeState;
use crate::apps::{chrome, discord, explorer, obsid, tg, vscode, wt};
use crate::apps::text::str_eq;
use crate::input::hotkey::KeyMods;
use crate::input::handler::Handler;
use crate::input::handler_spec::{HotkeyHandler, km_code};

verus! {

/// The applications that hotkeys tell apart, by the process of the foreground window.
#[derive(Clone, Copy, PartialEq, Eq, Structural, Debug)]
pub enum AppKind {
    Code,
    Chrome,
    Discord,
    Explorer,
    Obsidian,
    Telegram,
    Terminal,
    Other,
}

pub open spec fn spec_app_of_name(name: Seq<char>) -> AppKind {
    if name == vscode::NAME@ {
        AppKind::Code
    } else if name == chrome::NAME@ {
        AppKind::Chrome
    } else if name == discord::NAME@ {
        AppKind::Discord
    } else if name == explorer::NAME@ {
        AppKind::Explorer
    } else if name == obsid::NAME@ {
        AppKind::Obsidian
    } else if name == tg::NAME@ {
        AppKind::Telegram
    } else if name == wt::NAME@ {
        AppKind::Terminal
    } else {
        AppKind::Other
    }
}

/// The application of a window, by the name of its process.
pub fn app_of_name(name: &str) -> (r: AppKind)
    ensures
        r == spec_app_of_name(name@),
{
    if str_eq(name, vscode::NAME) {
        AppKind::Code
    } else if str_eq(name, chrome::NAME) {
        AppKind::Chrome
    } else if str_eq(name, discord::NAME) {
        AppKind::Discord
    } else if str_eq(name, explorer::NAME) {
        AppKind::Explorer
    } else if str_eq(name, obsid::NAME) {
        AppKind::Obsidian
    } else if str_eq(name, tg::NAME) {
        AppKind::Telegram
    } else if str_eq(name, wt::NAME) {
        AppKind::Terminal
    } else {
        AppKind::Other
    }
}

/// What a hotkey does besides the hotkey it resolves to; where it fails,
/// the hotkey fails.
#[derive(Clone, Copy, PartialEq, Eq, Structural, Debug)]
pub enum Effect {
    Nothing,
    /// Move the cursor to the center of the foreground window.
    CenterCursor,
    /// Open the desktop folder.
    OpenDesktop,
    /// Switch the keyboard to its mouse layer.
    SetMouseLayer,
    /// Mute or unmute the microphone.
    ToggleMute,
    /// Toggle the suspension of the hotkeys, and tell the keyboard whether the host drives it.
    ToggleSuspend,
    /// Close the remapper.
    Exit,
}

/// What a hotkey needs before it can be resolved, or what it resolves to.
pub enum Decision<A, R> {
    /// The name of the foreground window's process.
    NeedName,
    /// The title of the foreground window.
    NeedTitle,
    /// Carry out the effect, then the hotkey.
    Done(Effect, Hotkey<A, R>),
}

/// The configured hotkeys, named after the keys and modifiers that trigger them.
#[derive(Clone, Copy, PartialEq, Eq, Structural, Debug)]
pub enum Bind {
    /// `b`
    B,
    /// `ls_b`
    LsB,
    /// `c`
    C,
    /// `ls_c`
    LsC,
    /// `ls_d`
    LsD,
    /// `lw_e`
    LwE,
    /// `g`
    G,
    /// `h`
    H,
    /// `ls_h`
    LsH,
    /// `k`
    K,
    /// `lc_k`
    LcK,
    /// `l`
    L,
    /// `p`
    P,
    /// `ls_p`
    LsP,
    /// `ls_s`
    LsS,
    /// `lcs_s`
    LcsS,
    /// `v`
    V,
    /// `w`
    W,
    /// `ls_w`
    LsW,
    /// `x`
    X,
    /// `ls_x`
    LsX,
    /// `y`
    Y,
    /// `period`
    Period,
    /// `apstrph`
    Apstrph,
    /// `rs_lbrace`
    RsLbrace,
    /// `rs_rbrace`
    RsRbrace,
    /// `ls_rs_lbrace`
    LsRsLbrace,
    /// `ls_rs_rbrace`
    LsRsRbrace,
    /// `ls_dash`
    LsDash,
    /// `ls_rs_fslash`
    LsRsFslash,
    /// `ls_bslash`
    LsBslash,
    /// `lc_1`
    Lc1,
    /// `ls_1`
    Ls1,
    /// `lc_2`
    Lc2,
    /// `rs_2`
    Rs2,
    /// `lc_3`
    Lc3,
    /// `ls_3`
    Ls3,
    /// `lc_4`
    Lc4,
    /// `lc_5`
    Lc5,
    /// `lc_6`
    Lc6,
    /// `ls_7`
    Ls7,
    /// `ls_8`
    Ls8,
    /// `ls_9`
    Ls9,
    /// `lc_0`
    Lc0,
    /// `suspend`
    Suspend,
    /// `exit`
    Exit,
    /// `ls_up`
    LsUp,
    /// `ls_down`
    LsDown,
    /// `la_up`
    LaUp,
    /// `la_down`
    LaDown,
    /// `lcs_up`
    LcsUp,
    /// `lcs_down`
    LcsDown,
    /// `lsa_up`
    LsaUp,
    /// `lsa_down`
    LsaDown,
    /// `ls_rs_up`
    LsRsUp,
    /// `ls_rs_down`
    LsRsDown,
    /// `ls_left`
    LsLeft,
    /// `ls_right`
    LsRight,
    /// `lc_home`
    LcHome,
    /// `lc_end`
    LcEnd,
    /// `lc_rs_home`
    LcRsHome,
    /// `lc_rs_end`
    LcRsEnd,
    /// `ls_rs_home`
    LsRsHome,
    /// `ls_rs_end`
    LsRsEnd,
    /// `lc_pg_up`
    LcPgUp,
    /// `lc_pg_down`
    LcPgDown,
    /// `insert`
    Insert,
    /// `ls_enter`
    LsEnter,
    /// `lc_space`
    LcSpace,
    /// `ls_xbutton1`
    LsXbutton1,
    /// `ls_lbutton`
    LsLbutton,
    /// `f3`
    F3,
    /// `f4`
    F4,
    /// `f6`
    F6,
    /// `f7`
    F7,
    /// `f8`
    F8,
    /// `f21`
    F21,
    /// `f23`
    F23,
}

/// How the configured hotkeys resolve, by the mode of the keyboard, the
/// application of the foreground window (`None`: not looked up yet) and
/// whether that window shows YouTube (`None`: not looked up yet); `drag` is
/// the action that drags a window.
pub open spec fn spec_decide<A, R>(
    bind: Bind,
    mode: ModeState,
    app: Option<AppKind>,
    youtube: Option<bool>,
    drag: A,
) -> Decision<A, R> {
    match bind {
        Bind::B => if mode == ModeState::Normal {
            match app {
                None => Decision::NeedName,
                Some(AppKind::Code) => Decision::Done(Effect::Nothing, vscode::go_to_definition()),
                Some(AppKind::Discord) => Decision::Done(Effect::Nothing, discord::nav_to_curr_call()),
                Some(_) => Decision::Done(Effect::Nothing, Hotkey::Suppress),
            }
        } else {
            Decision::Done(Effect::Nothing, Hotkey::Default)
        },
        Bind::LsB => if mode == ModeState::Normal {
            match app {
                None => Decision::NeedName,
                Some(AppKind::Code) => Decision::Done(Effect::Nothing, vscode::go_to_impl()),
                Some(_) => Decision::Done(Effect::Nothing, Hotkey::Suppress),
            }
        } else {
            Decision::Done(Effect::Nothing, Hotkey::Default)
        },
        Bind::C => if mode == ModeState::Normal {
            match app {
                None => Decision::NeedName,
                Some(AppKind::Chrome) => Decision::Done(Effect::Nothing, chrome::focus_on_addr_bar()),
                Some(AppKind::Explorer) => Decision::Done(Effect::Nothing, explorer::focus_on_addr_bar()),
                Some(_) => Decision::Done(Effect::Nothing, Hotkey::Suppress),
            }
        } else {
            Decision::Done(Effect::Nothing, Hotkey::Default)
        },
        Bind::LsC => if mode == ModeState::Normal {
            match app {
                None => Decision::NeedName,
                Some(AppKind::Code) => Decision::Done(Effect::Nothing, vscode::copy_line_down()),
                Some(AppKind::Terminal) => Decision::Done(Effect::Nothing, wt::duplicate_tab()),
                Some(_) => Decision::Done(Effect::Nothing, Hotkey::Suppress),
            }
        } else {
            Decision::Done(Effect::Nothing, Hotkey::Default)
        },
        Bind::LsD => if mode == ModeState::Normal {
            match app {
                None => Decision::NeedName,
                Some(AppKind::Discord) => Decision::Done(Effect::Nothing, discord::disconnect()),
                Some(_) => Decision::Done(Effect::Nothing, Hotkey::Suppress),
            }
        } else {
            Decision::Done(Effect::Nothing, Hotkey::Default)
        },
        Bind::LwE => Decision::Done(Effect::OpenDesktop, Hotkey::Suppress),
        Bind::G => if mode == ModeState::Normal {
            Decision::Done(Effect::Nothing, Hotkey::Suppress)
        } else {
            Decision::Done(Effect::Nothing, Hotkey::Default)
        },
        Bind::H => if mode == ModeState::Normal {
            match app {
                None => Decision::NeedName,
                Some(AppKind::Code) => Decision::Done(Effect::Nothing, vscode::unfold()),
                Some(AppKind::Obsidian) => Decision::Done(Effect::Nothing, obsid::fold_less()),
                Some(_) => Decision::Done(Effect::Nothing, Hotkey::Suppress),
            }
        } else {
            Decision::Done(Effect::Nothing, Hotkey::Default)
        },
        Bind::LsH => if mode == ModeState::Normal {
            match app {
                None => Decision::NeedName,
                Some(AppKind::Code) => Decision::Done(Effect::Nothing, vscode::unfold_all()),
                Some(AppKind::Obsidian) => Decision::Done(Effect::Nothing, obsid::unfold_all_headings_and_lists()),
                Some(_) => Decision::Done(Effect::Nothing, Hotkey::Suppress),
            }
        } else {
            Decision::Done(Effect::Nothing, Hotkey::Default)
        },
        Bind::K => if mode == ModeState::Normal {
            match app {
                None => Decision::NeedName,
                Some(AppKind::Code) => Decision::Done(Effect::Nothing, vscode::goto_bracket()),
                Some(_) => Decision::Done(Effect::Nothing, Hotkey::Suppress),
            }
        } else {
            Decision::Done(Effect::Nothing, Hotkey::Default)
        },
        Bind::LcK => if mode == ModeState::Normal {
            match app {
                None => Decision::NeedName,
                Some(AppKind::Code) => Decision::Done(Effect::Nothing, vscode::togg_breakpoint()),
                Some(_) => Decision::Done(Effect::Nothing, Hotkey::Default),
            }
        } else {
            Decision::Done(Effect::Nothing, Hotkey::Default)
        },
        Bind::L => if mode == ModeState::Normal {
            match app {
                None => Decision::NeedName,
                Some(AppKind::Code) => Decision::Done(Effect::Nothing, vscode::show_or_focus_hover()),
                Some(AppKind::Chrome) => match youtube {
                    None => Decision::NeedTitle,
                    Some(true) => Decision::Done(Effect::Nothing, chrome::tgl_loop_mode()),
                    Some(false) => Decision::Done(Effect::Nothing, Hotkey::Suppress),
                },
                Some(AppKind::Discord) => Decision::Done(Effect::Nothing, discord::tgl_member_list_or_vc_chat()),
                Some(_) => Decision::Done(Effect::Nothing, Hotkey::Suppress),
            }
        } else {
            Decision::Done(Effect::Nothing, Hotkey::Default)
        },
        Bind::P => if mode == ModeState::Normal {
            match app {
                None => Decision::NeedName,
                Some(AppKind::Obsidian) => Decision::Done(Effect::Nothing, obsid::togg_reading_view()),
                Some(AppKind::Chrome) => Decision::Done(Effect::Nothing, chrome::reload_tab()),
                Some(_) => Decision::Done(Effect::Nothing, Hotkey::Suppress),
            }
        } else {
            Decision::Done(Effect::Nothing, Hotkey::Default)
        },
        Bind::LsP => if mode == ModeState::Normal {
            match app {
                None => Decision::NeedName,
                Some(AppKind::Chrome) => Decision::Done(Effect::Nothing, chrome::reload_tab_ignore_cache()),
                Some(_) => Decision::Done(Effect::Nothing, Hotkey::Suppress),
            }
        } else {
            Decision::Done(Effect::Nothing, Hotkey::Default)
        },
        Bind::LsS => if mode == ModeState::Normal {
            match app {
                None => Decision::NeedName,
                Some(AppKind::Discord) => Decision::Done(Effect::Nothing, discord::upload_file()),
                Some(_) => Decision::Done(Effect::Nothing, Hotkey::Suppress),
            }
        } else {
            Decision::Done(Effect::Nothing, Hotkey::Default)
        },
        Bind::LcsS => match app {
            None => Decision::NeedName,
            Some(AppKind::Code) => Decision::Done(Effect::Nothing, vscode::open_settings()),
            Some(AppKind::Obsidian) => Decision::Done(Effect::Nothing, obsid::open_settings()),
            Some(AppKind::Terminal) => Decision::Done(Effect::Nothing, wt::open_settings()),
            Some(_) => Decision::Done(Effect::Nothing, Hotkey::Suppress),
        },
        Bind::V => if mode == ModeState::Normal {
            Decision::Done(Effect::Nothing, Hotkey::Suppress)
        } else {
            Decision::Done(Effect::Nothing, Hotkey::Default)
        },
        Bind::W => if mode == ModeState::Normal {
            match app {
                None => Decision::NeedName,
                Some(AppKind::Code) => Decision::Done(Effect::Nothing, vscode::close_editor()),
                Some(AppKind::Chrome) => Decision::Done(Effect::Nothing, chrome::close_tab()),
                Some(AppKind::Terminal) => Decision::Done(Effect::Nothing, wt::close_pane()),
                Some(AppKind::Obsidian) => Decision::Done(Effect::Nothing, obsid::close_curr_tab()),
                Some(AppKind::Explorer) => Decision::Done(Effect::Nothing, explorer::close_tab()),
                Some(_) => Decision::Done(Effect::Nothing, Hotkey::Suppress),
            }
        } else {
            Decision::Done(Effect::Nothing, Hotkey::Default)
        },
        Bind::LsW => if mode == ModeState::Normal {
            match app {
                None => Decision::NeedName,
                Some(AppKind::Code) => Decision::Done(Effect::Nothing, vscode::reopen_last_closed_tab()),
                Some(AppKind::Chrome) => Decision::Done(Effect::Nothing, chrome::reopen_last_closed_tab()),
                Some(_) => Decision::Done(Effect::Nothing, Hotkey::Suppress),
            }
        } else {
            Decision::Done(Effect::Nothing, Hotkey::Default)
        },
        Bind::X => if mode == ModeState::Normal {
            match app {
                None => Decision::NeedName,
                Some(AppKind::Code) => Decision::Done(Effect::Nothing, vscode::fold()),
                Some(AppKind::Obsidian) => Decision::Done(Effect::Nothing, obsid::fold_more()),
                Some(AppKind::Chrome) => Decision::Done(Effect::Nothing, chrome::new_tab()),
                Some(AppKind::Explorer) => Decision::Done(Effect::Nothing, explorer::new_tab()),
                Some(AppKind::Terminal) => Decision::Done(Effect::Nothing, wt::new_tab()),
                Some(_) => Decision::Done(Effect::Nothing, Hotkey::Suppress),
            }
        } else {
            Decision::Done(Effect::Nothing, Hotkey::Default)
        },
        Bind::LsX => if mode == ModeState::Normal {
            match app {
                None => Decision::NeedName,
                Some(AppKind::Code) => Decision::Done(Effect::Nothing, vscode::fold_all()),
                Some(AppKind::Obsidian) => Decision::Done(Effect::Nothing, obsid::fold_all_headings_and_lists()),
                Some(_) => Decision::Done(Effect::Nothing, Hotkey::Suppress),
            }
        } else {
            Decision::Done(Effect::Nothing, Hotkey::Default)
        },
        Bind::Y => if mode == ModeState::Normal {
            match app {
                None => Decision::NeedName,
                Some(AppKind::Code) => Decision::Done(Effect::Nothing, vscode::param_hints()),
                Some(AppKind::Chrome) => Decision::Done(Effect::Nothing, chrome::open_home_page()),
                Some(_) => Decision::Done(Effect::Nothing, Hotkey::Suppress),
            }
        } else {
            Decision::Done(Effect::Nothing, Hotkey::Default)
        },
        Bind::Period => if mode == ModeState::Normal {
            match app {
                None => Decision::NeedName,
                Some(AppKind::Code) => Decision::Done(Effect::Nothing, vscode::quick_fix()),
                Some(_) => Decision::Done(Effect::Nothing, Hotkey::Suppress),
            }
        } else {
            Decision::Done(Effect::Nothing, Hotkey::Default)
        },
        Bind::Apstrph => if mode == ModeState::Normal {
            match app {
                None => Decision::NeedName,
                Some(AppKind::Code) => Decision::Done(Effect::Nothing, vscode::comment_line()),
                Some(_) => Decision::Done(Effect::Nothing, Hotkey::Suppress),
            }
        } else {
            Decision::Done(Effect::Nothing, Hotkey::Default)
        },
        Bind::RsLbrace => if mode == ModeState::NSymbol {
            match app {
                None => Decision::NeedName,
                Some(AppKind::Code) => Decision::Done(Effect::Nothing, vscode::prev_member()),
                Some(AppKind::Chrome) => Decision::Done(Effect::Nothing, chrome::decrease_playb_speed()),
                Some(_) => Decision::Done(Effect::Nothing, Hotkey::Suppress),
            }
        } else {
            Decision::Done(Effect::Nothing, Hotkey::Default)
        },
        Bind::RsRbrace => if mode == ModeState::NSymbol {
            match app {
                None => Decision::NeedName,
                Some(AppKind::Code) => Decision::Done(Effect::Nothing, vscode::next_member()),
                Some(AppKind::Chrome) => Decision::Done(Effect::Nothing, chrome::increase_playb_speed()),
                Some(_) => Decision::Done(Effect::Nothing, Hotkey::Suppress),
            }
        } else {
            Decision::Done(Effect::Nothing, Hotkey::Default)
        },
        Bind::LsRsLbrace => if mode == ModeState::ISymbol {
            Decision::Done(Effect::Nothing, Hotkey::Unicode("«"))
        } else {
            Decision::Done(Effect::Nothing, Hotkey::Default)
        },
        Bind::LsRsRbrace => if mode == ModeState::ISymbol {
            Decision::Done(Effect::Nothing, Hotkey::Unicode("»"))
        } else {
            Decision::Done(Effect::Nothing, Hotkey::Default)
        },
        Bind::LsDash => if mode == ModeState::ISymbol {
            Decision::Done(Effect::Nothing, Hotkey::Unicode(":="))
        } else {
            Decision::Done(Effect::Nothing, Hotkey::Default)
        },
        Bind::LsRsFslash => if mode == ModeState::ISymbol {
            Decision::Done(Effect::Nothing, Hotkey::Unicode("—"))
        } else {
            Decision::Done(Effect::Nothing, Hotkey::Default)
        },
        Bind::LsBslash => if mode == ModeState::ISymbol {
            Decision::Done(Effect::Nothing, Hotkey::Unicode("\\n"))
        } else {
            Decision::Done(Effect::Nothing, Hotkey::Default)
        },
        Bind::Lc1 => match app {
            None => Decision::NeedName,
            Some(AppKind::Code) => Decision::Done(Effect::Nothing, vscode::show_explorer()),
            Some(AppKind::Obsidian) => Decision::Done(Effect::Nothing, obsid::explorer_focus()),
            Some(AppKind::Terminal) => Decision::Done(Effect::Nothing, wt::switch_to_tab0()),
            Some(_) => Decision::Done(Effect::Nothing, Hotkey::Default),
        },
        Bind::Ls1 => if mode == ModeState::NSymbol {
            match app {
                None => Decision::NeedName,
                Some(AppKind::Code) => Decision::Done(Effect::Nothing, vscode::copy_cursor_up()),
                Some(_) => Decision::Done(Effect::Nothing, Hotkey::Suppress),
            }
        } else {
            Decision::Done(Effect::Nothing, Hotkey::Default)
        },
        Bind::Lc2 => match app {
            None => Decision::NeedName,
            Some(AppKind::Code) => Decision::Done(Effect::Nothing, vscode::terminal()),
            Some(AppKind::Terminal) => Decision::Done(Effect::Nothing, wt::switch_to_tab1()),
            Some(_) => Decision::Done(Effect::Nothing, Hotkey::Default),
        },
        Bind::Rs2 => if mode == ModeState::NSymbol {
            match app {
                None => Decision::NeedName,
                Some(AppKind::Chrome) => Decision::Done(Effect::Nothing, chrome::default_playb_speed()),
                Some(_) => Decision::Done(Effect::Nothing, Hotkey::Suppress),
            }
        } else {
            Decision::Done(Effect::Nothing, Hotkey::Default)
        },
        Bind::Lc3 => match app {
            None => Decision::NeedName,
            Some(AppKind::Code) => Decision::Done(Effect::Nothing, vscode::debug()),
            Some(AppKind::Terminal) => Decision::Done(Effect::Nothing, wt::switch_to_tab2()),
            Some(AppKind::Obsidian) => Decision::Done(Effect::Nothing, obsid::show_outline()),
            Some(_) => Decision::Done(Effect::Nothing, Hotkey::Default),
        },
        Bind::Ls3 => if mode == ModeState::NSymbol {
            match app {
                None => Decision::NeedName,
                Some(AppKind::Code) => Decision::Done(Effect::Nothing, vscode::copy_cursor_down()),
                Some(_) => Decision::Done(Effect::Nothing, Hotkey::Suppress),
            }
        } else {
            Decision::Done(Effect::Nothing, Hotkey::Default)
        },
        Bind::Lc4 => match app {
            None => Decision::NeedName,
            Some(AppKind::Terminal) => Decision::Done(Effect::Nothing, wt::switch_to_tab3()),
            Some(_) => Decision::Done(Effect::Nothing, Hotkey::Default),
        },
        Bind::Lc5 => match app {
            None => Decision::NeedName,
            Some(AppKind::Terminal) => Decision::Done(Effect::Nothing, wt::switch_to_tab4()),
            Some(_) => Decision::Done(Effect::Nothing, Hotkey::Default),
        },
        Bind::Lc6 => match app {
            None => Decision::NeedName,
            Some(AppKind::Code) => Decision::Done(Effect::Nothing, vscode::togg_source_ctrl()),
            Some(AppKind::Terminal) => Decision::Done(Effect::Nothing, wt::switch_to_tab5()),
            Some(_) => Decision::Done(Effect::Nothing, Hotkey::Default),
        },
        Bind::Ls7 => if mode == ModeState::ISymbol {
            Decision::Done(Effect::Nothing, Hotkey::Unicode("–"))
        } else {
            Decision::Done(Effect::Nothing, Hotkey::Default)
        },
        Bind::Ls8 => if mode == ModeState::ISymbol {
            Decision::Done(Effect::Nothing, Hotkey::Unicode("->"))
        } else {
            Decision::Done(Effect::Nothing, Hotkey::Default)
        },
        Bind::Ls9 => if mode == ModeState::ISymbol {
            Decision::Done(Effect::Nothing, Hotkey::Unicode("=>"))
        } else {
            Decision::Done(Effect::Nothing, Hotkey::Default)
        },
        Bind::Lc0 => match app {
            None => Decision::NeedName,
            Some(AppKind::Chrome) => Decision::Done(Effect::Nothing, chrome::jump_to_rightmost_tab()),
            Some(AppKind::Terminal) => Decision::Done(Effect::Nothing, wt::switch_to_last_tab()),
            Some(_) => Decision::Done(Effect::Nothing, Hotkey::Default),
        },
        Bind::Suspend => Decision::Done(Effect::ToggleSuspend, Hotkey::Suppress),
        Bind::Exit => Decision::Done(Effect::Exit, Hotkey::Suppress),
        Bind::LsUp => if mode == ModeState::Normal {
            Decision::Done(Effect::CenterCursor, Hotkey::Remap(Mods(mods::NONE), Key(keys::WH_UP_X2)))
        } else {
            Decision::Done(Effect::Nothing, Hotkey::Suppress)
        },
        Bind::LsDown => if mode == ModeState::Normal {
            Decision::Done(Effect::CenterCursor, Hotkey::Remap(Mods(mods::NONE), Key(keys::WH_DOWN_X2)))
        } else {
            Decision::Done(Effect::Nothing, Hotkey::Suppress)
        },
        Bind::LaUp => if mode == ModeState::Normal {
            match app {
                None => Decision::NeedName,
                Some(AppKind::Code) => Decision::Done(Effect::Nothing, vscode::scroll_term_up_by_line()),
                Some(AppKind::Terminal) => Decision::Done(Effect::Nothing, wt::scroll_up()),
                Some(_) => Decision::Done(Effect::Nothing, Hotkey::Default),
            }
        } else {
            Decision::Done(Effect::Nothing, Hotkey::Default)
        },
        Bind::LaDown => if mode == ModeState::Normal {
            match app {
                None => Decision::NeedName,
                Some(AppKind::Code) => Decision::Done(Effect::Nothing, vscode::scroll_term_down_by_line()),
                Some(AppKind::Terminal) => Decision::Done(Effect::Nothing, wt::scroll_down()),
                Some(_) => Decision::Done(Effect::Nothing, Hotkey::Default),
            }
        } else {
            Decision::Done(Effect::Nothing, Hotkey::Default)
        },
        Bind::LcsUp => if mode == ModeState::Normal {
            match app {
                None => Decision::NeedName,
                Some(AppKind::Code) => Decision::Done(Effect::CenterCursor, vscode::scroll_up_fast()),
                Some(AppKind::Telegram) => Decision::Done(Effect::CenterCursor, tg::scroll_page_up()),
                Some(_) => Decision::Done(Effect::Nothing, Hotkey::Suppress),
            }
        } else {
            Decision::Done(Effect::Nothing, Hotkey::Default)
        },
        Bind::LcsDown => if mode == ModeState::Normal {
            match app {
                None => Decision::NeedName,
                Some(AppKind::Code) => Decision::Done(Effect::CenterCursor, vscode::scroll_down_fast()),
                Some(AppKind::Telegram) => Decision::Done(Effect::CenterCursor, tg::scroll_page_down()),
                Some(_) => Decision::Done(Effect::Nothing, Hotkey::Suppress),
            }
        } else {
            Decision::Done(Effect::Nothing, Hotkey::Default)
        },
        Bind::LsaUp => if mode == ModeState::Normal {
            match app {
                None => Decision::NeedName,
                Some(AppKind::Code) => Decision::Done(Effect::Nothing, vscode::scroll_term_up_by_page()),
                Some(AppKind::Terminal) => Decision::Done(Effect::Nothing, wt::scroll_page_up()),
                Some(_) => Decision::Done(Effect::Nothing, Hotkey::Default),
            }
        } else {
            Decision::Done(Effect::Nothing, Hotkey::Default)
        },
        Bind::LsaDown => if mode == ModeState::Normal {
            match app {
                None => Decision::NeedName,
                Some(AppKind::Code) => Decision::Done(Effect::Nothing, vscode::scroll_term_down_by_page()),
                Some(AppKind::Terminal) => Decision::Done(Effect::Nothing, wt::scroll_page_down()),
                Some(_) => Decision::Done(Effect::Nothing, Hotkey::Default),
            }
        } else {
            Decision::Done(Effect::Nothing, Hotkey::Default)
        },
        Bind::LsRsUp => if mode == ModeState::Select {
            Decision::Done(Effect::CenterCursor, Hotkey::Remap(Mods(mods::NONE), Key(keys::WH_UP_X2)))
        } else {
            Decision::Done(Effect::Nothing, Hotkey::Suppress)
        },
        Bind::LsRsDown => if mode == ModeState::Select {
            Decision::Done(Effect::CenterCursor, Hotkey::Remap(Mods(mods::NONE), Key(keys::WH_DOWN_X2)))
        } else {
            Decision::Done(Effect::Nothing, Hotkey::Suppress)
        },
        Bind::LsLeft => if mode == ModeState::Normal {
            match app {
                None => Decision::NeedName,
                Some(AppKind::Obsidian) => Decision::Done(Effect::Nothing, obsid::find_prev()),
                Some(_) => Decision::Done(Effect::Nothing, Hotkey::Default),
            }
        } else {
            Decision::Done(Effect::Nothing, Hotkey::Default)
        },
        Bind::LsRight => if mode == ModeState::Normal {
            match app {
                None => Decision::NeedName,
                Some(AppKind::Obsidian) => Decision::Done(Effect::Nothing, obsid::find_next()),
                Some(_) => Decision::Done(Effect::Nothing, Hotkey::Default),
            }
        } else {
            Decision::Done(Effect::Nothing, Hotkey::Default)
        },
        Bind::LcHome => if mode == ModeState::Normal {
            match app {
                None => Decision::NeedName,
                Some(AppKind::Code) => Decision::Done(Effect::Nothing, vscode::prev_tab()),
                Some(AppKind::Chrome) => Decision::Done(Effect::Nothing, chrome::prev_tab()),
                Some(AppKind::Terminal) => Decision::Done(Effect::Nothing, wt::prev_tab()),
                Some(AppKind::Explorer) => Decision::Done(Effect::Nothing, explorer::prev_tab()),
                Some(AppKind::Obsidian) => Decision::Done(Effect::Nothing, obsid::prev_tab()),
                Some(_) => Decision::Done(Effect::Nothing, Hotkey::Default),
            }
        } else {
            Decision::Done(Effect::Nothing, Hotkey::Default)
        },
        Bind::LcEnd => if mode == ModeState::Normal {
            match app {
                None => Decision::NeedName,
                Some(AppKind::Code) => Decision::Done(Effect::Nothing, vscode::next_tab()),
                Some(AppKind::Chrome) => Decision::Done(Effect::Nothing, chrome::next_tab()),
                Some(AppKind::Terminal) => Decision::Done(Effect::Nothing, wt::next_tab()),
                Some(AppKind::Explorer) => Decision::Done(Effect::Nothing, explorer::next_tab()),
                Some(AppKind::Obsidian) => Decision::Done(Effect::Nothing, obsid::next_tab()),
                Some(_) => Decision::Done(Effect::Nothing, Hotkey::Default),
            }
        } else {
            Decision::Done(Effect::Nothing, Hotkey::Default)
        },
        Bind::LcRsHome => if mode == ModeState::Select {
            Decision::Done(Effect::Nothing, Hotkey::Suppress)
        } else {
            Decision::Done(Effect::Nothing, Hotkey::Default)
        },
        Bind::LcRsEnd => if mode == ModeState::Select {
            Decision::Done(Effect::Nothing, Hotkey::Suppress)
        } else {
            Decision::Done(Effect::Nothing, Hotkey::Default)
        },
        Bind::LsRsHome => if mode == ModeState::Select {
            match app {
                None => Decision::NeedName,
                Some(AppKind::Code) => Decision::Done(Effect::Nothing, vscode::shrink_selection()),
                Some(_) => Decision::Done(Effect::Nothing, Hotkey::Default),
            }
        } else {
            Decision::Done(Effect::Nothing, Hotkey::Default)
        },
        Bind::LsRsEnd => if mode == ModeState::Select {
            match app {
                None => Decision::NeedName,
                Some(AppKind::Code) => Decision::Done(Effect::Nothing, vscode::expand_selection()),
                Some(_) => Decision::Done(Effect::Nothing, Hotkey::Default),
            }
        } else {
            Decision::Done(Effect::Nothing, Hotkey::Default)
        },
        Bind::LcPgUp => if mode == ModeState::Normal {
            Decision::Done(Effect::Nothing, Hotkey::Remap(Mods(mods::LC), Key(keys::HOME)))
        } else {
            Decision::Done(Effect::Nothing, Hotkey::Default)
        },
        Bind::LcPgDown => if mode == ModeState::Normal {
            Decision::Done(Effect::Nothing, Hotkey::Remap(Mods(mods::LC), Key(keys::END)))
        } else {
            Decision::Done(Effect::Nothing, Hotkey::Default)
        },
        Bind::Insert => if mode == ModeState::NSymbol {
            match app {
                None => Decision::NeedName,
                Some(AppKind::Code) => Decision::Done(Effect::Nothing, vscode::new_file()),
                Some(_) => Decision::Done(Effect::Nothing, Hotkey::Suppress),
            }
        } else {
            Decision::Done(Effect::Nothing, Hotkey::Default)
        },
        Bind::LsEnter => match app {
            None => Decision::NeedName,
            Some(AppKind::Code) => Decision::Done(Effect::Nothing, vscode::insert_line_below()),
            Some(_) => Decision::Done(Effect::Nothing, Hotkey::Default),
        },
        Bind::LcSpace => match app {
            None => Decision::NeedName,
            Some(AppKind::Chrome) => Decision::Done(Effect::Nothing, chrome::tabs()),
            Some(_) => Decision::Done(Effect::Nothing, Hotkey::Default),
        },
        Bind::LsXbutton1 => Decision::Done(Effect::SetMouseLayer, Hotkey::Suppress),
        Bind::LsLbutton => Decision::Done(Effect::Nothing, Hotkey::Action(drag)),
        Bind::F3 => if mode == ModeState::Mouse {
            match app {
                None => Decision::NeedName,
                Some(AppKind::Code) => Decision::Done(Effect::Nothing, vscode::stop_debugger()),
                Some(_) => Decision::Done(Effect::Nothing, Hotkey::Suppress),
            }
        } else {
            Decision::Done(Effect::Nothing, Hotkey::Default)
        },
        Bind::F4 => if mode == ModeState::Mouse {
            match app {
                None => Decision::NeedName,
                Some(AppKind::Code) => Decision::Done(Effect::Nothing, vscode::restart_debugger()),
                Some(_) => Decision::Done(Effect::Nothing, Hotkey::Suppress),
            }
        } else {
            Decision::Done(Effect::Nothing, Hotkey::Default)
        },
        Bind::F6 => if mode == ModeState::Mouse {
            match app {
                None => Decision::NeedName,
                Some(AppKind::Code) => Decision::Done(Effect::Nothing, vscode::step_out()),
                Some(_) => Decision::Done(Effect::Nothing, Hotkey::Suppress),
            }
        } else {
            Decision::Done(Effect::Nothing, Hotkey::Default)
        },
        Bind::F7 => if mode == ModeState::Mouse {
            match app {
                None => Decision::NeedName,
                Some(AppKind::Code) => Decision::Done(Effect::Nothing, vscode::step_over()),
                Some(_) => Decision::Done(Effect::Nothing, Hotkey::Suppress),
            }
        } else {
            Decision::Done(Effect::Nothing, Hotkey::Default)
        },
        Bind::F8 => if mode == ModeState::Mouse {
            match app {
                None => Decision::NeedName,
                Some(AppKind::Code) => Decision::Done(Effect::Nothing, vscode::step_into()),
                Some(_) => Decision::Done(Effect::Nothing, Hotkey::Suppress),
            }
        } else {
            Decision::Done(Effect::Nothing, Hotkey::Default)
        },
        Bind::F21 => Decision::Done(Effect::Nothing, Hotkey::Action(drag)),
        Bind::F23 => Decision::Done(Effect::ToggleMute, Hotkey::Suppress),
    }
}

/// Resolves a configured hotkey as far as what is known allows.
pub fn decide<A: Copy, R>(
    bind: Bind,
    mode: ModeState,
    app: Option<AppKind>,
    youtube: Option<bool>,
    drag: A,
) -> (r: Decision<A, R>)
    ensures
        r == spec_decide::<A, R>(bind, mode, app, youtube, drag),
{
    match bind {
        Bind::B => b(mode, app, youtube, drag),
        Bind::LsB => ls_b(mode, app, youtube, drag),
        Bind::C => c(mode, app, youtube, drag),
        Bind::LsC => ls_c(mode, app, youtube, drag),
        Bind::LsD => ls_d(mode, app, youtube, drag),
        Bind::LwE => lw_e(mode, app, youtube, drag),
        Bind::G => g(mode, app, youtube, drag),
        Bind::H => h(mode, app, youtube, drag),
        Bind::LsH => ls_h(mode, app, youtube, drag),
        Bind::K => k(mode, app, youtube, drag),
        Bind::LcK => lc_k(mode, app, youtube, drag),
        Bind::L => l(mode, app, youtube, drag),
        Bind::P => p(mode, app, youtube, drag),
        Bind::LsP => ls_p(mode, app, youtube, drag),
        Bind::LsS => ls_s(mode, app, youtube, drag),
        Bind::LcsS => lcs_s(mode, app, youtube, drag),
        Bind::V => v(mode, app, youtube, drag),
        Bind::W => w(mode, app, youtube, drag),
        Bind::LsW => ls_w(mode, app, youtube, drag),
        Bind::X => x(mode, app, youtube, drag),
        Bind::LsX => ls_x(mode, app, youtube, drag),
        Bind::Y => y(mode, app, youtube, drag),
        Bind::Period => period(mode, app, youtube, drag),
        Bind::Apstrph => apstrph(mode, app, youtube, drag),
        Bind::RsLbrace => rs_lbrace(mode, app, youtube, drag),
        Bind::RsRbrace => rs_rbrace(mode, app, youtube, drag),
        Bind::LsRsLbrace => ls_rs_lbrace(mode, app, youtube, drag),
        Bind::LsRsRbrace => ls_rs_rbrace(mode, app, youtube, drag),
        Bind::LsDash => ls_dash(mode, app, youtube, drag),
        Bind::LsRsFslash => ls_rs_fslash(mode, app, youtube, drag),
        Bind::LsBslash => ls_bslash(mode, app, youtube, drag),
        Bind::Lc1 => lc_1(mode, app, youtube, drag),
        Bind::Ls1 => ls_1(mode, app, youtube, drag),
        Bind::Lc2 => lc_2(mode, app, youtube, drag),
        Bind::Rs2 => rs_2(mode, app, youtube, drag),
        Bind::Lc3 => lc_3(mode, app, youtube, drag),
        Bind::Ls3 => ls_3(mode, app, youtube, drag),
        Bind::Lc4 => lc_4(mode, app, youtube, drag),
        Bind::Lc5 => lc_5(mode, app, youtube, drag),
        Bind::Lc6 => lc_6(mode, app, youtube, drag),
        Bind::Ls7 => ls_7(mode, app, youtube, drag),
        Bind::Ls8 => ls_8(mode, app, youtube, drag),
        Bind::Ls9 => ls_9(mode, app, youtube, drag),
        Bind::Lc0 => lc_0(mode, app, youtube, drag),
        Bind::Suspend => suspend(mode, app, youtube, drag),
        Bind::Exit => exit(mode, app, youtube, drag),
        Bind::LsUp => ls_up(mode, app, youtube, drag),
        Bind::LsDown => ls_down(mode, app, youtube, drag),
        Bind::LaUp => la_up(mode, app, youtube, drag),
        Bind::LaDown => la_down(mode, app, youtube, drag),
        Bind::LcsUp => lcs_up(mode, app, youtube, drag),
        Bind::LcsDown => lcs_down(mode, app, youtube, drag),
        Bind::LsaUp => lsa_up(mode, app, youtube, drag),
        Bind::LsaDown => lsa_down(mode, app, youtube, drag),
        Bind::LsRsUp => ls_rs_up(mode, app, youtube, drag),
        Bind::LsRsDown => ls_rs_down(mode, app, youtube, drag),
        Bind::LsLeft => ls_left(mode, app, youtube, drag),
        Bind::LsRight => ls_right(mode, app, youtube, drag),
        Bind::LcHome => lc_home(mode, app, youtube, drag),
        Bind::LcEnd => lc_end(mode, app, youtube, drag),
        Bind::LcRsHome => lc_rs_home(mode, app, youtube, drag),
        Bind::LcRsEnd => lc_rs_end(mode, app, youtube, drag),
        Bind::LsRsHome => ls_rs_home(mode, app, youtube, drag),
        Bind::LsRsEnd => ls_rs_end(mode, app, youtube, drag),
        Bind::LcPgUp => lc_pg_up(mode, app, youtube, drag),
        Bind::LcPgDown => lc_pg_down(mode, app, youtube, drag),
        Bind::Insert => insert(mode, app, youtube, drag),
        Bind::LsEnter => ls_enter(mode, app, youtube, drag),
        Bind::LcSpace => lc_space(mode, app, youtube, drag),
        Bind::LsXbutton1 => ls_xbutton1(mode, app, youtube, drag),
        Bind::LsLbutton => ls_lbutton(mode, app, youtube, drag),
        Bind::F3 => f3(mode, app, youtube, drag),
        Bind::F4 => f4(mode, app, youtube, drag),
        Bind::F6 => f6(mode, app, youtube, drag),
        Bind::F7 => f7(mode, app, youtube, drag),
        Bind::F8 => f8(mode, app, youtube, drag),
        Bind::F21 => f21(mode, app, youtube, drag),
        Bind::F23 => f23(mode, app, youtube, drag),
    }
}

/// `B`: see [`spec_decide`].
pub fn b<A: Copy, R>(mode: ModeState, app: Option<AppKind>, youtube: Option<bool>, drag: A) -> (r: Decision<A, R>)
    ensures
        r == spec_decide::<A, R>(Bind::B, mode, app, youtube, drag),
{
    if mode == ModeState::Normal {
        match app {
            None => Decision::NeedName,
            Some(AppKind::Code) => Decision::Done(Effect::Nothing, vscode::go_to_definition()),
            Some(AppKind::Discord) => Decision::Done(Effect::Nothing, discord::nav_to_curr_call()),
            Some(_) => Decision::Done(Effect::Nothing, Hotkey::Suppress),
        }
    } else {
        Decision::Done(Effect::Nothing, Hotkey::Default)
    }
}

/// `LsB`: see [`spec_decide`].
pub fn ls_b<A: Copy, R>(mode: ModeState, app: Option<AppKind>, youtube: Option<bool>, drag: A) -> (r: Decision<A, R>)
    ensures
        r == spec_decide::<A, R>(Bind::LsB, mode, app, youtube, drag),
{
    if mode == ModeState::Normal {
        match app {
            None => Decision::NeedName,
            Some(AppKind::Code) => Decision::Done(Effect::Nothing, vscode::go_to_impl()),
            Some(_) => Decision::Done(Effect::Nothing, Hotkey::Suppress),
        }
    } else {
        Decision::Done(Effect::Nothing, Hotkey::Default)
    }
}

/// `C`: see [`spec_decide`].
pub fn c<A: Copy, R>(mode: ModeState, app: Option<AppKind>, youtube: Option<bool>, drag: A) -> (r: Decision<A, R>)
    ensures
        r == spec_decide::<A, R>(Bind::C, mode, app, youtube, drag),
{
    if mode == ModeState::Normal {
        match app {
            None => Decision::NeedName,
            Some(AppKind::Chrome) => Decision::Done(Effect::Nothing, chrome::focus_on_addr_bar()),
            Some(AppKind::Explorer) => Decision::Done(Effect::Nothing, explorer::focus_on_addr_bar()),
            Some(_) => Decision::Done(Effect::Nothing, Hotkey::Suppress),
        }
    } else {
        Decision::Done(Effect::Nothing, Hotkey::Default)
    }
}

/// `LsC`: see [`spec_decide`].
pub fn ls_c<A: Copy, R>(mode: ModeState, app: Option<AppKind>, youtube: Option<bool>, drag: A) -> (r: Decision<A, R>)
    ensures
        r == spec_decide::<A, R>(Bind::LsC, mode, app, youtube, drag),
{
    if mode == ModeState::Normal {
        match app {
            None => Decision::NeedName,
            Some(AppKind::Code) => Decision::Done(Effect::Nothing, vscode::copy_line_down()),
            Some(AppKind::Terminal) => Decision::Done(Effect::Nothing, wt::duplicate_tab()),
            Some(_) => Decision::Done(Effect::Nothing, Hotkey::Suppress),
        }
    } else {
        Decision::Done(Effect::Nothing, Hotkey::Default)
    }
}

/// `LsD`: see [`spec_decide`].
pub fn ls_d<A: Copy, R>(mode: ModeState, app: Option<AppKind>, youtube: Option<bool>, drag: A) -> (r: Decision<A, R>)
    ensures
        r == spec_decide::<A, R>(Bind::LsD, mode, app, youtube, drag),
{
    if mode == ModeState::Normal {
        match app {
            None => Decision::NeedName,
            Some(AppKind::Discord) => Decision::Done(Effect::Nothing, discord::disconnect()),
            Some(_) => Decision::Done(Effect::Nothing, Hotkey::Suppress),
        }
    } else {
        Decision::Done(Effect::Nothing, Hotkey::Default)
    }
}

/// `LwE`: see [`spec_decide`].
pub fn lw_e<A: Copy, R>(mode: ModeState, app: Option<AppKind>, youtube: Option<bool>, drag: A) -> (r: Decision<A, R>)
    ensures
        r == spec_decide::<A, R>(Bind::LwE, mode, app, youtube, drag),
{
    Decision::Done(Effect::OpenDesktop, Hotkey::Suppress)
}

/// `G`: see [`spec_decide`].
pub fn g<A: Copy, R>(mode: ModeState, app: Option<AppKind>, youtube: Option<bool>, drag: A) -> (r: Decision<A, R>)
    ensures
        r == spec_decide::<A, R>(Bind::G, mode, app, youtube, drag),
{
    if mode == ModeState::Normal {
        Decision::Done(Effect::Nothing, Hotkey::Suppress)
    } else {
        Decision::Done(Effect::Nothing, Hotkey::Default)
    }
}

/// `H`: see [`spec_decide`].
pub fn h<A: Copy, R>(mode: ModeState, app: Option<AppKind>, youtube: Option<bool>, drag: A) -> (r: Decision<A, R>)
    ensures
        r == spec_decide::<A, R>(Bind::H, mode, app, youtube, drag),
{
    if mode == ModeState::Normal {
        match app {
            None => Decision::NeedName,
            Some(AppKind::Code) => Decision::Done(Effect::Nothing, vscode::unfold()),
            Some(AppKind::Obsidian) => Decision::Done(Effect::Nothing, obsid::fold_less()),
            Some(_) => Decision::Done(Effect::Nothing, Hotkey::Suppress),
        }
    } else {
        Decision::Done(Effect::Nothing, Hotkey::Default)
    }
}

/// `LsH`: see [`spec_decide`].
pub fn ls_h<A: Copy, R>(mode: ModeState, app: Option<AppKind>, youtube: Option<bool>, drag: A) -> (r: Decision<A, R>)
    ensures
        r == spec_decide::<A, R>(Bind::LsH, mode, app, youtube, drag),
{
    if mode == ModeState::Normal {
        match app {
            None => Decision::NeedName,
            Some(AppKind::Code) => Decision::Done(Effect::Nothing, vscode::unfold_all()),
            Some(AppKind::Obsidian) => Decision::Done(Effect::Nothing, obsid::unfold_all_headings_and_lists()),
            Some(_) => Decision::Done(Effect::Nothing, Hotkey::Suppress),
        }
    } else {
        Decision::Done(Effect::Nothing, Hotkey::Default)
    }
}

/// `K`: see [`spec_decide`].
pub fn k<A: Copy, R>(mode: ModeState, app: Option<AppKind>, youtube: Option<bool>, drag: A) -> (r: Decision<A, R>)
    ensures
        r == spec_decide::<A, R>(Bind::K, mode, app, youtube, drag),
{
    if mode == ModeState::Normal {
        match app {
            None => Decision::NeedName,
            Some(AppKind::Code) => Decision::Done(Effect::Nothing, vscode::goto_bracket()),
            Some(_) => Decision::Done(Effect::Nothing, Hotkey::Suppress),
        }
    } else {
        Decision::Done(Effect::Nothing, Hotkey::Default)
    }
}

/// `LcK`: see [`spec_decide`].
pub fn lc_k<A: Copy, R>(mode: ModeState, app: Option<AppKind>, youtube: Option<bool>, drag: A) -> (r: Decision<A, R>)
    ensures
        r == spec_decide::<A, R>(Bind::LcK, mode, app, youtube, drag),
{
    if mode == ModeState::Normal {
        match app {
            None => Decision::NeedName,
            Some(AppKind::Code) => Decision::Done(Effect::Nothing, vscode::togg_breakpoint()),
            Some(_) => Decision::Done(Effect::Nothing, Hotkey::Default),
        }
    } else {
        Decision::Done(Effect::Nothing, Hotkey::Default)
    }
}

/// `L`: see [`spec_decide`].
pub fn l<A: Copy, R>(mode: ModeState, app: Option<AppKind>, youtube: Option<bool>, drag: A) -> (r: Decision<A, R>)
    ensures
        r == spec_decide::<A, R>(Bind::L, mode, app, youtube, drag),
{
    if mode == ModeState::Normal {
        match app {
            None => Decision::NeedName,
            Some(AppKind::Code) => Decision::Done(Effect::Nothing, vscode::show_or_focus_hover()),
            Some(AppKind::Chrome) => match youtube {
                None => Decision::NeedTitle,
                Some(true) => Decision::Done(Effect::Nothing, chrome::tgl_loop_mode()),
                Some(false) => Decision::Done(Effect::Nothing, Hotkey::Suppress),
            },
            Some(AppKind::Discord) => Decision::Done(Effect::Nothing, discord::tgl_member_list_or_vc_chat()),
            Some(_) => Decision::Done(Effect::Nothing, Hotkey::Suppress),
        }
    } else {
        Decision::Done(Effect::Nothing, Hotkey::Default)
    }
}

/// `P`: see [`spec_decide`].
pub fn p<A: Copy, R>(mode: ModeState, app: Option<AppKind>, youtube: Option<bool>, drag: A) -> (r: Decision<A, R>)
    ensures
        r == spec_decide::<A, R>(Bind::P, mode, app, youtube, drag),
{
    if mode == ModeState::Normal {
        match app {
            None => Decision::NeedName,
            Some(AppKind::Obsidian) => Decision::Done(Effect::Nothing, obsid::togg_reading_view()),
            Some(AppKind::Chrome) => Decision::Done(Effect::Nothing, chrome::reload_tab()),
            Some(_) => Decision::Done(Effect::Nothing, Hotkey::Suppress),
        }
    } else {
        Decision::Done(Effect::Nothing, Hotkey::Default)
    }
}

/// `LsP`: see [`spec_decide`].
pub fn ls_p<A: Copy, R>(mode: ModeState, app: Option<AppKind>, youtube: Option<bool>, drag: A) -> (r: Decision<A, R>)
    ensures
        r == spec_decide::<A, R>(Bind::LsP, mode, app, youtube, drag),
{
    if mode == ModeState::Normal {
        match app {
            None => Decision::NeedName,
            Some(AppKind::Chrome) => Decision::Done(Effect::Nothing, chrome::reload_tab_ignore_cache()),
            Some(_) => Decision::Done(Effect::Nothing, Hotkey::Suppress),
        }
    } else {
        Decision::Done(Effect::Nothing, Hotkey::Default)
    }
}

/// `LsS`: see [`spec_decide`].
pub fn ls_s<A: Copy, R>(mode: ModeState, app: Option<AppKind>, youtube: Option<bool>, drag: A) -> (r: Decision<A, R>)
    ensures
        r == spec_decide::<A, R>(Bind::LsS, mode, app, youtube, drag),
{
    if mode == ModeState::Normal {
        match app {
            None => Decision::NeedName,
            Some(AppKind::Discord) => Decision::Done(Effect::Nothing, discord::upload_file()),
            Some(_) => Decision::Done(Effect::Nothing, Hotkey::Suppress),
        }
    } else {
        Decision::Done(Effect::Nothing, Hotkey::Default)
    }
}

/// `LcsS`: see [`spec_decide`].
pub fn lcs_s<A: Copy, R>(mode: ModeState, app: Option<AppKind>, youtube: Option<bool>, drag: A) -> (r: Decision<A, R>)
    ensures
        r == spec_decide::<A, R>(Bind::LcsS, mode, app, youtube, drag),
{
    match app {
        None => Decision::NeedName,
        Some(AppKind::Code) => Decision::Done(Effect::Nothing, vscode::open_settings()),
        Some(AppKind::Obsidian) => Decision::Done(Effect::Nothing, obsid::open_settings()),
        Some(AppKind::Terminal) => Decision::Done(Effect::Nothing, wt::open_settings()),
        Some(_) => Decision::Done(Effect::Nothing, Hotkey::Suppress),
    }
}

/// `V`: see [`spec_decide`].
pub fn v<A: Copy, R>(mode: ModeState, app: Option<AppKind>, youtube: Option<bool>, drag: A) -> (r: Decision<A, R>)
    ensures
        r == spec_decide::<A, R>(Bind::V, mode, app, youtube, drag),
{
    if mode == ModeState::Normal {
        Decision::Done(Effect::Nothing, Hotkey::Suppress)
    } else {
        Decision::Done(Effect::Nothing, Hotkey::Default)
    }
}

/// `W`: see [`spec_decide`].
pub fn w<A: Copy, R>(mode: ModeState, app: Option<AppKind>, youtube: Option<bool>, drag: A) -> (r: Decision<A, R>)
    ensures
        r == spec_decide::<A, R>(Bind::W, mode, app, youtube, drag),
{
    if mode == ModeState::Normal {
        match app {
            None => Decision::NeedName,
            Some(AppKind::Code) => Decision::Done(Effect::Nothing, vscode::close_editor()),
            Some(AppKind::Chrome) => Decision::Done(Effect::Nothing, chrome::close_tab()),
            Some(AppKind::Terminal) => Decision::Done(Effect::Nothing, wt::close_pane()),
            Some(AppKind::Obsidian) => Decision::Done(Effect::Nothing, obsid::close_curr_tab()),
            Some(AppKind::Explorer) => Decision::Done(Effect::Nothing, explorer::close_tab()),
            Some(_) => Decision::Done(Effect::Nothing, Hotkey::Suppress),
        }
    } else {
        Decision::Done(Effect::Nothing, Hotkey::Default)
    }
}

/// `LsW`: see [`spec_decide`].
pub fn ls_w<A: Copy, R>(mode: ModeState, app: Option<AppKind>, youtube: Option<bool>, drag: A) -> (r: Decision<A, R>)
    ensures
        r == spec_decide::<A, R>(Bind::LsW, mode, app, youtube, drag),
{
    if mode == ModeState::Normal {
        match app {
            None => Decision::NeedName,
            Some(AppKind::Code) => Decision::Done(Effect::Nothing, vscode::reopen_last_closed_tab()),
            Some(AppKind::Chrome) => Decision::Done(Effect::Nothing, chrome::reopen_last_closed_tab()),
            Some(_) => Decision::Done(Effect::Nothing, Hotkey::Suppress),
        }
    } else {
        Decision::Done(Effect::Nothing, Hotkey::Default)
    }
}

/// `X`: see [`spec_decide`].
pub fn x<A: Copy, R>(mode: ModeState, app: Option<AppKind>, youtube: Option<bool>, drag: A) -> (r: Decision<A, R>)
    ensures
        r == spec_decide::<A, R>(Bind::X, mode, app, youtube, drag),
{
    if mode == ModeState::Normal {
        match app {
            None => Decision::NeedName,
            Some(AppKind::Code) => Decision::Done(Effect::Nothing, vscode::fold()),
            Some(AppKind::Obsidian) => Decision::Done(Effect::Nothing, obsid::fold_more()),
            Some(AppKind::Chrome) => Decision::Done(Effect::Nothing, chrome::new_tab()),
            Some(AppKind::Explorer) => Decision::Done(Effect::Nothing, explorer::new_tab()),
            Some(AppKind::Terminal) => Decision::Done(Effect::Nothing, wt::new_tab()),
            Some(_) => Decision::Done(Effect::Nothing, Hotkey::Suppress),
        }
    } else {
        Decision::Done(Effect::Nothing, Hotkey::Default)
    }
}

/// `LsX`: see [`spec_decide`].
pub fn ls_x<A: Copy, R>(mode: ModeState, app: Option<AppKind>, youtube: Option<bool>, drag: A) -> (r: Decision<A, R>)
    ensures
        r == spec_decide::<A, R>(Bind::LsX, mode, app, youtube, drag),
{
    if mode == ModeState::Normal {
        match app {
            None => Decision::NeedName,
            Some(AppKind::Code) => Decision::Done(Effect::Nothing, vscode::fold_all()),
            Some(AppKind::Obsidian) => Decision::Done(Effect::Nothing, obsid::fold_all_headings_and_lists()),
            Some(_) => Decision::Done(Effect::Nothing, Hotkey::Suppress),
        }
    } else {
        Decision::Done(Effect::Nothing, Hotkey::Default)
    }
}

/// `Y`: see [`spec_decide`].
pub fn y<A: Copy, R>(mode: ModeState, app: Option<AppKind>, youtube: Option<bool>, drag: A) -> (r: Decision<A, R>)
    ensures
        r == spec_decide::<A, R>(Bind::Y, mode, app, youtube, drag),
{
    if mode == ModeState::Normal {
        match app {
            None => Decision::NeedName,
            Some(AppKind::Code) => Decision::Done(Effect::Nothing, vscode::param_hints()),
            Some(AppKind::Chrome) => Decision::Done(Effect::Nothing, chrome::open_home_page()),
            Some(_) => Decision::Done(Effect::Nothing, Hotkey::Suppress),
        }
    } else {
        Decision::Done(Effect::Nothing, Hotkey::Default)
    }
}

/// `Period`: see [`spec_decide`].
pub fn period<A: Copy, R>(mode: ModeState, app: Option<AppKind>, youtube: Option<bool>, drag: A) -> (r: Decision<A, R>)
    ensures
        r == spec_decide::<A, R>(Bind::Period, mode, app, youtube, drag),
{
    if mode == ModeState::Normal {
        match app {
            None => Decision::NeedName,
            Some(AppKind::Code) => Decision::Done(Effect::Nothing, vscode::quick_fix()),
            Some(_) => Decision::Done(Effect::Nothing, Hotkey::Suppress),
        }
    } else {
        Decision::Done(Effect::Nothing, Hotkey::Default)
    }
}

/// `Apstrph`: see [`spec_decide`].
pub fn apstrph<A: Copy, R>(mode: ModeState, app: Option<AppKind>, youtube: Option<bool>, drag: A) -> (r: Decision<A, R>)
    ensures
        r == spec_decide::<A, R>(Bind::Apstrph, mode, app, youtube, drag),
{
    if mode == ModeState::Normal {
        match app {
            None => Decision::NeedName,
            Some(AppKind::Code) => Decision::Done(Effect::Nothing, vscode::comment_line()),
            Some(_) => Decision::Done(Effect::Nothing, Hotkey::Suppress),
        }
    } else {
        Decision::Done(Effect::Nothing, Hotkey::Default)
    }
}

/// `RsLbrace`: see [`spec_decide`].
pub fn rs_lbrace<A: Copy, R>(mode: ModeState, app: Option<AppKind>, youtube: Option<bool>, drag: A) -> (r: Decision<A, R>)
    ensures
        r == spec_decide::<A, R>(Bind::RsLbrace, mode, app, youtube, drag),
{
    if mode == ModeState::NSymbol {
        match app {
            None => Decision::NeedName,
            Some(AppKind::Code) => Decision::Done(Effect::Nothing, vscode::prev_member()),
            Some(AppKind::Chrome) => Decision::Done(Effect::Nothing, chrome::decrease_playb_speed()),
            Some(_) => Decision::Done(Effect::Nothing, Hotkey::Suppress),
        }
    } else {
        Decision::Done(Effect::Nothing, Hotkey::Default)
    }
}

/// `RsRbrace`: see [`spec_decide`].
pub fn rs_rbrace<A: Copy, R>(mode: ModeState, app: Option<AppKind>, youtube: Option<bool>, drag: A) -> (r: Decision<A, R>)
    ensures
        r == spec_decide::<A, R>(Bind::RsRbrace, mode, app, youtube, drag),
{
    if mode == ModeState::NSymbol {
        match app {
            None => Decision::NeedName,
            Some(AppKind::Code) => Decision::Done(Effect::Nothing, vscode::next_member()),
            Some(AppKind::Chrome) => Decision::Done(Effect::Nothing, chrome::increase_playb_speed()),
            Some(_) => Decision::Done(Effect::Nothing, Hotkey::Suppress),
        }
    } else {
        Decision::Done(Effect::Nothing, Hotkey::Default)
    }
}

/// `LsRsLbrace`: see [`spec_decide`].
pub fn ls_rs_lbrace<A: Copy, R>(mode: ModeState, app: Option<AppKind>, youtube: Option<bool>, drag: A) -> (r: Decision<A, R>)
    ensures
        r == spec_decide::<A, R>(Bind::LsRsLbrace, mode, app, youtube, drag),
{
    if mode == ModeState::ISymbol {
        Decision::Done(Effect::Nothing, Hotkey::Unicode("«"))
    } else {
        Decision::Done(Effect::Nothing, Hotkey::Default)
    }
}

/// `LsRsRbrace`: see [`spec_decide`].
pub fn ls_rs_rbrace<A: Copy, R>(mode: ModeState, app: Option<AppKind>, youtube: Option<bool>, drag: A) -> (r: Decision<A, R>)
    ensures
        r == spec_decide::<A, R>(Bind::LsRsRbrace, mode, app, youtube, drag),
{
    if mode == ModeState::ISymbol {
        Decision::Done(Effect::Nothing, Hotkey::Unicode("»"))
    } else {
        Decision::Done(Effect::Nothing, Hotkey::Default)
    }
}

/// `LsDash`: see [`spec_decide`].
pub fn ls_dash<A: Copy, R>(mode: ModeState, app: Option<AppKind>, youtube: Option<bool>, drag: A) -> (r: Decision<A, R>)
    ensures
        r == spec_decide::<A, R>(Bind::LsDash, mode, app, youtube, drag),
{
    if mode == ModeState::ISymbol {
        Decision::Done(Effect::Nothing, Hotkey::Unicode(":="))
    } else {
        Decision::Done(Effect::Nothing, Hotkey::Default)
    }
}

/// `LsRsFslash`: see [`spec_decide`].
pub fn ls_rs_fslash<A: Copy, R>(mode: ModeState, app: Option<AppKind>, youtube: Option<bool>, drag: A) -> (r: Decision<A, R>)
    ensures
        r == spec_decide::<A, R>(Bind::LsRsFslash, mode, app, youtube, drag),
{
    if mode == ModeState::ISymbol {
        Decision::Done(Effect::Nothing, Hotkey::Unicode("—"))
    } else {
        Decision::Done(Effect::Nothing, Hotkey::Default)
    }
}

/// `LsBslash`: see [`spec_decide`].
pub fn ls_bslash<A: Copy, R>(mode: ModeState, app: Option<AppKind>, youtube: Option<bool>, drag: A) -> (r: Decision<A, R>)
    ensures
        r == spec_decide::<A, R>(Bind::LsBslash, mode, app, youtube, drag),
{
    if mode == ModeState::ISymbol {
        Decision::Done(Effect::Nothing, Hotkey::Unicode("\\n"))
    } else {
        Decision::Done(Effect::Nothing, Hotkey::Default)
    }
}

/// `Lc1`: see [`spec_decide`].
pub fn lc_1<A: Copy, R>(mode: ModeState, app: Option<AppKind>, youtube: Option<bool>, drag: A) -> (r: Decision<A, R>)
    ensures
        r == spec_decide::<A, R>(Bind::Lc1, mode, app, youtube, drag),
{
    match app {
        None => Decision::NeedName,
        Some(AppKind::Code) => Decision::Done(Effect::Nothing, vscode::show_explorer()),
        Some(AppKind::Obsidian) => Decision::Done(Effect::Nothing, obsid::explorer_focus()),
        Some(AppKind::Terminal) => Decision::Done(Effect::Nothing, wt::switch_to_tab0()),
        Some(_) => Decision::Done(Effect::Nothing, Hotkey::Default),
    }
}

/// `Ls1`: see [`spec_decide`].
pub fn ls_1<A: Copy, R>(mode: ModeState, app: Option<AppKind>, youtube: Option<bool>, drag: A) -> (r: Decision<A, R>)
    ensures
        r == spec_decide::<A, R>(Bind::Ls1, mode, app, youtube, drag),
{
    if mode == ModeState::NSymbol {
        match app {
            None => Decision::NeedName,
            Some(AppKind::Code) => Decision::Done(Effect::Nothing, vscode::copy_cursor_up()),
            Some(_) => Decision::Done(Effect::Nothing, Hotkey::Suppress),
        }
    } else {
        Decision::Done(Effect::Nothing, Hotkey::Default)
    }
}

/// `Lc2`: see [`spec_decide`].
pub fn lc_2<A: Copy, R>(mode: ModeState, app: Option<AppKind>, youtube: Option<bool>, drag: A) -> (r: Decision<A, R>)
    ensures
        r == spec_decide::<A, R>(Bind::Lc2, mode, app, youtube, drag),
{
    match app {
        None => Decision::NeedName,
        Some(AppKind::Code) => Decision::Done(Effect::Nothing, vscode::terminal()),
        Some(AppKind::Terminal) => Decision::Done(Effect::Nothing, wt::switch_to_tab1()),
        Some(_) => Decision::Done(Effect::Nothing, Hotkey::Default),
    }
}

/// `Rs2`: see [`spec_decide`].
pub fn rs_2<A: Copy, R>(mode: ModeState, app: Option<AppKind>, youtube: Option<bool>, drag: A) -> (r: Decision<A, R>)
    ensures
        r == spec_decide::<A, R>(Bind::Rs2, mode, app, youtube, drag),
{
    if mode == ModeState::NSymbol {
        match app {
            None => Decision::NeedName,
            Some(AppKind::Chrome) => Decision::Done(Effect::Nothing, chrome::default_playb_speed()),
            Some(_) => Decision::Done(Effect::Nothing, Hotkey::Suppress),
        }
    } else {
        Decision::Done(Effect::Nothing, Hotkey::Default)
    }
}

/// `Lc3`: see [`spec_decide`].
pub fn lc_3<A: Copy, R>(mode: ModeState, app: Option<AppKind>, youtube: Option<bool>, drag: A) -> (r: Decision<A, R>)
    ensures
        r == spec_decide::<A, R>(Bind::Lc3, mode, app, youtube, drag),
{
    match app {
        None => Decision::NeedName,
        Some(AppKind::Code) => Decision::Done(Effect::Nothing, vscode::debug()),
        Some(AppKind::Terminal) => Decision::Done(Effect::Nothing, wt::switch_to_tab2()),
        Some(AppKind::Obsidian) => Decision::Done(Effect::Nothing, obsid::show_outline()),
        Some(_) => Decision::Done(Effect::Nothing, Hotkey::Default),
    }
}

/// `Ls3`: see [`spec_decide`].
pub fn ls_3<A: Copy, R>(mode: ModeState, app: Option<AppKind>, youtube: Option<bool>, drag: A) -> (r: Decision<A, R>)
    ensures
        r == spec_decide::<A, R>(Bind::Ls3, mode, app, youtube, drag),
{
    if mode == ModeState::NSymbol {
        match app {
            None => Decision::NeedName,
            Some(AppKind::Code) => Decision::Done(Effect::Nothing, vscode::copy_cursor_down()),
            Some(_) => Decision::Done(Effect::Nothing, Hotkey::Suppress),
        }
    } else {
        Decision::Done(Effect::Nothing, Hotkey::Default)
    }
}

/// `Lc4`: see [`spec_decide`].
pub fn lc_4<A: Copy, R>(mode: ModeState, app: Option<AppKind>, youtube: Option<bool>, drag: A) -> (r: Decision<A, R>)
    ensures
        r == spec_decide::<A, R>(Bind::Lc4, mode, app, youtube, drag),
{
    match app {
        None => Decision::NeedName,
        Some(AppKind::Terminal) => Decision::Done(Effect::Nothing, wt::switch_to_tab3()),
        Some(_) => Decision::Done(Effect::Nothing, Hotkey::Default),
    }
}

/// `Lc5`: see [`spec_decide`].
pub fn lc_5<A: Copy, R>(mode: ModeState, app: Option<AppKind>, youtube: Option<bool>, drag: A) -> (r: Decision<A, R>)
    ensures
        r == spec_decide::<A, R>(Bind::Lc5, mode, app, youtube, drag),
{
    match app {
        None => Decision::NeedName,
        Some(AppKind::Terminal) => Decision::Done(Effect::Nothing, wt::switch_to_tab4()),
        Some(_) => Decision::Done(Effect::Nothing, Hotkey::Default),
    }
}

/// `Lc6`: see [`spec_decide`].
pub fn lc_6<A: Copy, R>(mode: ModeState, app: Option<AppKind>, youtube: Option<bool>, drag: A) -> (r: Decision<A, R>)
    ensures
        r == spec_decide::<A, R>(Bind::Lc6, mode, app, youtube, drag),
{
    match app {
        None => Decision::NeedName,
        Some(AppKind::Code) => Decision::Done(Effect::Nothing, vscode::togg_source_ctrl()),
        Some(AppKind::Terminal) => Decision::Done(Effect::Nothing, wt::switch_to_tab5()),
        Some(_) => Decision::Done(Effect::Nothing, Hotkey::Default),
    }
}

/// `Ls7`: see [`spec_decide`].
pub fn ls_7<A: Copy, R>(mode: ModeState, app: Option<AppKind>, youtube: Option<bool>, drag: A) -> (r: Decision<A, R>)
    ensures
        r == spec_decide::<A, R>(Bind::Ls7, mode, app, youtube, drag),
{
    if mode == ModeState::ISymbol {
        Decision::Done(Effect::Nothing, Hotkey::Unicode("–"))
    } else {
        Decision::Done(Effect::Nothing, Hotkey::Default)
    }
}

/// `Ls8`: see [`spec_decide`].
pub fn ls_8<A: Copy, R>(mode: ModeState, app: Option<AppKind>, youtube: Option<bool>, drag: A) -> (r: Decision<A, R>)
    ensures
        r == spec_decide::<A, R>(Bind::Ls8, mode, app, youtube, drag),
{
    if mode == ModeState::ISymbol {
        Decision::Done(Effect::Nothing, Hotkey::Unicode("->"))
    } else {
        Decision::Done(Effect::Nothing, Hotkey::Default)
    }
}

/// `Ls9`: see [`spec_decide`].
pub fn ls_9<A: Copy, R>(mode: ModeState, app: Option<AppKind>, youtube: Option<bool>, drag: A) -> (r: Decision<A, R>)
    ensures
        r == spec_decide::<A, R>(Bind::Ls9, mode, app, youtube, drag),
{
    if mode == ModeState::ISymbol {
        Decision::Done(Effect::Nothing, Hotkey::Unicode("=>"))
    } else {
        Decision::Done(Effect::Nothing, Hotkey::Default)
    }
}

/// `Lc0`: see [`spec_decide`].
pub fn lc_0<A: Copy, R>(mode: ModeState, app: Option<AppKind>, youtube: Option<bool>, drag: A) -> (r: Decision<A, R>)
    ensures
        r == spec_decide::<A, R>(Bind::Lc0, mode, app, youtube, drag),
{
    match app {
        None => Decision::NeedName,
        Some(AppKind::Chrome) => Decision::Done(Effect::Nothing, chrome::jump_to_rightmost_tab()),
        Some(AppKind::Terminal) => Decision::Done(Effect::Nothing, wt::switch_to_last_tab()),
        Some(_) => Decision::Done(Effect::Nothing, Hotkey::Default),
    }
}

/// `Suspend`: see [`spec_decide`].
pub fn suspend<A: Copy, R>(mode: ModeState, app: Option<AppKind>, youtube: Option<bool>, drag: A) -> (r: Decision<A, R>)
    ensures
        r == spec_decide::<A, R>(Bind::Suspend, mode, app, youtube, drag),
{
    Decision::Done(Effect::ToggleSuspend, Hotkey::Suppress)
}

/// `Exit`: see [`spec_decide`].
pub fn exit<A: Copy, R>(mode: ModeState, app: Option<AppKind>, youtube: Option<bool>, drag: A) -> (r: Decision<A, R>)
    ensures
        r == spec_decide::<A, R>(Bind::Exit, mode, app, youtube, drag),
{
    Decision::Done(Effect::Exit, Hotkey::Suppress)
}

/// `LsUp`: see [`spec_decide`].
pub fn ls_up<A: Copy, R>(mode: ModeState, app: Option<AppKind>, youtube: Option<bool>, drag: A) -> (r: Decision<A, R>)
    ensures
        r == spec_decide::<A, R>(Bind::LsUp, mode, app, youtube, drag),
{
    if mode == ModeState::Normal {
        Decision::Done(Effect::CenterCursor, Hotkey::Remap(Mods(mods::NONE), Key(keys::WH_UP_X2)))
    } else {
        Decision::Done(Effect::Nothing, Hotkey::Suppress)
    }
}

/// `LsDown`: see [`spec_decide`].
pub fn ls_down<A: Copy, R>(mode: ModeState, app: Option<AppKind>, youtube: Option<bool>, drag: A) -> (r: Decision<A, R>)
    ensures
        r == spec_decide::<A, R>(Bind::LsDown, mode, app, youtube, drag),
{
    if mode == ModeState::Normal {
        Decision::Done(Effect::CenterCursor, Hotkey::Remap(Mods(mods::NONE), Key(keys::WH_DOWN_X2)))
    } else {
        Decision::Done(Effect::Nothing, Hotkey::Suppress)
    }
}

/// `LaUp`: see [`spec_decide`].
pub fn la_up<A: Copy, R>(mode: ModeState, app: Option<AppKind>, youtube: Option<bool>, drag: A) -> (r: Decision<A, R>)
    ensures
        r == spec_decide::<A, R>(Bind::LaUp, mode, app, youtube, drag),
{
    if mode == ModeState::Normal {
        match app {
            None => Decision::NeedName,
            Some(AppKind::Code) => Decision::Done(Effect::Nothing, vscode::scroll_term_up_by_line()),
            Some(AppKind::Terminal) => Decision::Done(Effect::Nothing, wt::scroll_up()),
            Some(_) => Decision::Done(Effect::Nothing, Hotkey::Default),
        }
    } else {
        Decision::Done(Effect::Nothing, Hotkey::Default)
    }
}

/// `LaDown`: see [`spec_decide`].
pub fn la_down<A: Copy, R>(mode: ModeState, app: Option<AppKind>, youtube: Option<bool>, drag: A) -> (r: Decision<A, R>)
    ensures
        r == spec_decide::<A, R>(Bind::LaDown, mode, app, youtube, drag),
{
    if mode == ModeState::Normal {
        match app {
            None => Decision::NeedName,
            Some(AppKind::Code) => Decision::Done(Effect::Nothing, vscode::scroll_term_down_by_line()),
            Some(AppKind::Terminal) => Decision::Done(Effect::Nothing, wt::scroll_down()),
            Some(_) => Decision::Done(Effect::Nothing, Hotkey::Default),
        }
    } else {
        Decision::Done(Effect::Nothing, Hotkey::Default)
    }
}

/// `LcsUp`: see [`spec_decide`].
pub fn lcs_up<A: Copy, R>(mode: ModeState, app: Option<AppKind>, youtube: Option<bool>, drag: A) -> (r: Decision<A, R>)
    ensures
        r == spec_decide::<A, R>(Bind::LcsUp, mode, app, youtube, drag),
{
    if mode == ModeState::Normal {
        match app {
            None => Decision::NeedName,
            Some(AppKind::Code) => Decision::Done(Effect::CenterCursor, vscode::scroll_up_fast()),
            Some(AppKind::Telegram) => Decision::Done(Effect::CenterCursor, tg::scroll_page_up()),
            Some(_) => Decision::Done(Effect::Nothing, Hotkey::Suppress),
        }
    } else {
        Decision::Done(Effect::Nothing, Hotkey::Default)
    }
}

/// `LcsDown`: see [`spec_decide`].
pub fn lcs_down<A: Copy, R>(mode: ModeState, app: Option<AppKind>, youtube: Option<bool>, drag: A) -> (r: Decision<A, R>)
    ensures
        r == spec_decide::<A, R>(Bind::LcsDown, mode, app, youtube, drag),
{
    if mode == ModeState::Normal {
        match app {
            None => Decision::NeedName,
            Some(AppKind::Code) => Decision::Done(Effect::CenterCursor, vscode::scroll_down_fast()),
            Some(AppKind::Telegram) => Decision::Done(Effect::CenterCursor, tg::scroll_page_down()),
            Some(_) => Decision::Done(Effect::Nothing, Hotkey::Suppress),
        }
    } else {
        Decision::Done(Effect::Nothing, Hotkey::Default)
    }
}

/// `LsaUp`: see [`spec_decide`].
pub fn lsa_up<A: Copy, R>(mode: ModeState, app: Option<AppKind>, youtube: Option<bool>, drag: A) -> (r: Decision<A, R>)
    ensures
        r == spec_decide::<A, R>(Bind::LsaUp, mode, app, youtube, drag),
{
    if mode == ModeState::Normal {
        match app {
            None => Decision::NeedName,
            Some(AppKind::Code) => Decision::Done(Effect::Nothing, vscode::scroll_term_up_by_page()),
            Some(AppKind::Terminal) => Decision::Done(Effect::Nothing, wt::scroll_page_up()),
            Some(_) => Decision::Done(Effect::Nothing, Hotkey::Default),
        }
    } else {
        Decision::Done(Effect::Nothing, Hotkey::Default)
    }
}

/// `LsaDown`: see [`spec_decide`].
pub fn lsa_down<A: Copy, R>(mode: ModeState, app: Option<AppKind>, youtube: Option<bool>, drag: A) -> (r: Decision<A, R>)
    ensures
        r == spec_decide::<A, R>(Bind::LsaDown, mode, app, youtube, drag),
{
    if mode == ModeState::Normal {
        match app {
            None => Decision::NeedName,
            Some(AppKind::Code) => Decision::Done(Effect::Nothing, vscode::scroll_term_down_by_page()),
            Some(AppKind::Terminal) => Decision::Done(Effect::Nothing, wt::scroll_page_down()),
            Some(_) => Decision::Done(Effect::Nothing, Hotkey::Default),
        }
    } else {
        Decision::Done(Effect::Nothing, Hotkey::Default)
    }
}

/// `LsRsUp`: see [`spec_decide`].
pub fn ls_rs_up<A: Copy, R>(mode: ModeState, app: Option<AppKind>, youtube: Option<bool>, drag: A) -> (r: Decision<A, R>)
    ensures
        r == spec_decide::<A, R>(Bind::LsRsUp, mode, app, youtube, drag),
{
    if mode == ModeState::Select {
        Decision::Done(Effect::CenterCursor, Hotkey::Remap(Mods(mods::NONE), Key(keys::WH_UP_X2)))
    } else {
        Decision::Done(Effect::Nothing, Hotkey::Suppress)
    }
}

/// `LsRsDown`: see [`spec_decide`].
pub fn ls_rs_down<A: Copy, R>(mode: ModeState, app: Option<AppKind>, youtube: Option<bool>, drag: A) -> (r: Decision<A, R>)
    ensures
        r == spec_decide::<A, R>(Bind::LsRsDown, mode, app, youtube, drag),
{
    if mode == ModeState::Select {
        Decision::Done(Effect::CenterCursor, Hotkey::Remap(Mods(mods::NONE), Key(keys::WH_DOWN_X2)))
    } else {
        Decision::Done(Effect::Nothing, Hotkey::Suppress)
    }
}

/// `LsLeft`: see [`spec_decide`].
pub fn ls_left<A: Copy, R>(mode: ModeState, app: Option<AppKind>, youtube: Option<bool>, drag: A) -> (r: Decision<A, R>)
    ensures
        r == spec_decide::<A, R>(Bind::LsLeft, mode, app, youtube, drag),
{
    if mode == ModeState::Normal {
        match app {
            None => Decision::NeedName,
            Some(AppKind::Obsidian) => Decision::Done(Effect::Nothing, obsid::find_prev()),
            Some(_) => Decision::Done(Effect::Nothing, Hotkey::Default),
        }
    } else {
        Decision::Done(Effect::Nothing, Hotkey::Default)
    }
}

/// `LsRight`: see [`spec_decide`].
pub fn ls_right<A: Copy, R>(mode: ModeState, app: Option<AppKind>, youtube: Option<bool>, drag: A) -> (r: Decision<A, R>)
    ensures
        r == spec_decide::<A, R>(Bind::LsRight, mode, app, youtube, drag),
{
    if mode == ModeState::Normal {
        match app {
            None => Decision::NeedName,
            Some(AppKind::Obsidian) => Decision::Done(Effect::Nothing, obsid::find_next()),
            Some(_) => Decision::Done(Effect::Nothing, Hotkey::Default),
        }
    } else {
        Decision::Done(Effect::Nothing, Hotkey::Default)
    }
}

/// `LcHome`: see [`spec_decide`].
pub fn lc_home<A: Copy, R>(mode: ModeState, app: Option<AppKind>, youtube: Option<bool>, drag: A) -> (r: Decision<A, R>)
    ensures
        r == spec_decide::<A, R>(Bind::LcHome, mode, app, youtube, drag),
{
    if mode == ModeState::Normal {
        match app {
            None => Decision::NeedName,
            Some(AppKind::Code) => Decision::Done(Effect::Nothing, vscode::prev_tab()),
            Some(AppKind::Chrome) => Decision::Done(Effect::Nothing, chrome::prev_tab()),
            Some(AppKind::Terminal) => Decision::Done(Effect::Nothing, wt::prev_tab()),
            Some(AppKind::Explorer) => Decision::Done(Effect::Nothing, explorer::prev_tab()),
            Some(AppKind::Obsidian) => Decision::Done(Effect::Nothing, obsid::prev_tab()),
            Some(_) => Decision::Done(Effect::Nothing, Hotkey::Default),
        }
    } else {
        Decision::Done(Effect::Nothing, Hotkey::Default)
    }
}

/// `LcEnd`: see [`spec_decide`].
pub fn lc_end<A: Copy, R>(mode: ModeState, app: Option<AppKind>, youtube: Option<bool>, drag: A) -> (r: Decision<A, R>)
    ensures
        r == spec_decide::<A, R>(Bind::LcEnd, mode, app, youtube, drag),
{
    if mode == ModeState::Normal {
        match app {
            None => Decision::NeedName,
            Some(AppKind::Code) => Decision::Done(Effect::Nothing, vscode::next_tab()),
            Some(AppKind::Chrome) => Decision::Done(Effect::Nothing, chrome::next_tab()),
            Some(AppKind::Terminal) => Decision::Done(Effect::Nothing, wt::next_tab()),
            Some(AppKind::Explorer) => Decision::Done(Effect::Nothing, explorer::next_tab()),
            Some(AppKind::Obsidian) => Decision::Done(Effect::Nothing, obsid::next_tab()),
            Some(_) => Decision::Done(Effect::Nothing, Hotkey::Default),
        }
    } else {
        Decision::Done(Effect::Nothing, Hotkey::Default)
    }
}

/// `LcRsHome`: see [`spec_decide`].
pub fn lc_rs_home<A: Copy, R>(mode: ModeState, app: Option<AppKind>, youtube: Option<bool>, drag: A) -> (r: Decision<A, R>)
    ensures
        r == spec_decide::<A, R>(Bind::LcRsHome, mode, app, youtube, drag),
{
    if mode == ModeState::Select {
        Decision::Done(Effect::Nothing, Hotkey::Suppress)
    } else {
        Decision::Done(Effect::Nothing, Hotkey::Default)
    }
}

/// `LcRsEnd`: see [`spec_decide`].
pub fn lc_rs_end<A: Copy, R>(mode: ModeState, app: Option<AppKind>, youtube: Option<bool>, drag: A) -> (r: Decision<A, R>)
    ensures
        r == spec_decide::<A, R>(Bind::LcRsEnd, mode, app, youtube, drag),
{
    if mode == ModeState::Select {
        Decision::Done(Effect::Nothing, Hotkey::Suppress)
    } else {
        Decision::Done(Effect::Nothing, Hotkey::Default)
    }
}

/// `LsRsHome`: see [`spec_decide`].
pub fn ls_rs_home<A: Copy, R>(mode: ModeState, app: Option<AppKind>, youtube: Option<bool>, drag: A) -> (r: Decision<A, R>)
    ensures
        r == spec_decide::<A, R>(Bind::LsRsHome, mode, app, youtube, drag),
{
    if mode == ModeState::Select {
        match app {
            None => Decision::NeedName,
            Some(AppKind::Code) => Decision::Done(Effect::Nothing, vscode::shrink_selection()),
            Some(_) => Decision::Done(Effect::Nothing, Hotkey::Default),
        }
    } else {
        Decision::Done(Effect::Nothing, Hotkey::Default)
    }
}

/// `LsRsEnd`: see [`spec_decide`].
pub fn ls_rs_end<A: Copy, R>(mode: ModeState, app: Option<AppKind>, youtube: Option<bool>, drag: A) -> (r: Decision<A, R>)
    ensures
        r == spec_decide::<A, R>(Bind::LsRsEnd, mode, app, youtube, drag),
{
    if mode == ModeState::Select {
        match app {
            None => Decision::NeedName,
            Some(AppKind::Code) => Decision::Done(Effect::Nothing, vscode::expand_selection()),
            Some(_) => Decision::Done(Effect::Nothing, Hotkey::Default),
        }
    } else {
        Decision::Done(Effect::Nothing, Hotkey::Default)
    }
}

/// `LcPgUp`: see [`spec_decide`].
pub fn lc_pg_up<A: Copy, R>(mode: ModeState, app: Option<AppKind>, youtube: Option<bool>, drag: A) -> (r: Decision<A, R>)
    ensures
        r == spec_decide::<A, R>(Bind::LcPgUp, mode, app, youtube, drag),
{
    if mode == ModeState::Normal {
        Decision::Done(Effect::Nothing, Hotkey::Remap(Mods(mods::LC), Key(keys::HOME)))
    } else {
        Decision::Done(Effect::Nothing, Hotkey::Default)
    }
}

/// `LcPgDown`: see [`spec_decide`].
pub fn lc_pg_down<A: Copy, R>(mode: ModeState, app: Option<AppKind>, youtube: Option<bool>, drag: A) -> (r: Decision<A, R>)
    ensures
        r == spec_decide::<A, R>(Bind::LcPgDown, mode, app, youtube, drag),
{
    if mode == ModeState::Normal {
        Decision::Done(Effect::Nothing, Hotkey::Remap(Mods(mods::LC), Key(keys::END)))
    } else {
        Decision::Done(Effect::Nothing, Hotkey::Default)
    }
}

/// `Insert`: see [`spec_decide`].
pub fn insert<A: Copy, R>(mode: ModeState, app: Option<AppKind>, youtube: Option<bool>, drag: A) -> (r: Decision<A, R>)
    ensures
        r == spec_decide::<A, R>(Bind::Insert, mode, app, youtube, drag),
{
    if mode == ModeState::NSymbol {
        match app {
            None => Decision::NeedName,
            Some(AppKind::Code) => Decision::Done(Effect::Nothing, vscode::new_file()),
            Some(_) => Decision::Done(Effect::Nothing, Hotkey::Suppress),
        }
    } else {
        Decision::Done(Effect::Nothing, Hotkey::Default)
    }
}

/// `LsEnter`: see [`spec_decide`].
pub fn ls_enter<A: Copy, R>(mode: ModeState, app: Option<AppKind>, youtube: Option<bool>, drag: A) -> (r: Decision<A, R>)
    ensures
        r == spec_decide::<A, R>(Bind::LsEnter, mode, app, youtube, drag),
{
    match app {
        None => Decision::NeedName,
        Some(AppKind::Code) => Decision::Done(Effect::Nothing, vscode::insert_line_below()),
        Some(_) => Decision::Done(Effect::Nothing, Hotkey::Default),
    }
}

/// `LcSpace`: see [`spec_decide`].
pub fn lc_space<A: Copy, R>(mode: ModeState, app: Option<AppKind>, youtube: Option<bool>, drag: A) -> (r: Decision<A, R>)
    ensures
        r == spec_decide::<A, R>(Bind::LcSpace, mode, app, youtube, drag),
{
    match app {
        None => Decision::NeedName,
        Some(AppKind::Chrome) => Decision::Done(Effect::Nothing, chrome::tabs()),
        Some(_) => Decision::Done(Effect::Nothing, Hotkey::Default),
    }
}

/// `LsXbutton1`: see [`spec_decide`].
pub fn ls_xbutton1<A: Copy, R>(mode: ModeState, app: Option<AppKind>, youtube: Option<bool>, drag: A) -> (r: Decision<A, R>)
    ensures
        r == spec_decide::<A, R>(Bind::LsXbutton1, mode, app, youtube, drag),
{
    Decision::Done(Effect::SetMouseLayer, Hotkey::Suppress)
}

/// `LsLbutton`: see [`spec_decide`].
pub fn ls_lbutton<A: Copy, R>(mode: ModeState, app: Option<AppKind>, youtube: Option<bool>, drag: A) -> (r: Decision<A, R>)
    ensures
        r == spec_decide::<A, R>(Bind::LsLbutton, mode, app, youtube, drag),
{
    Decision::Done(Effect::Nothing, Hotkey::Action(drag))
}

/// `F3`: see [`spec_decide`].
pub fn f3<A: Copy, R>(mode: ModeState, app: Option<AppKind>, youtube: Option<bool>, drag: A) -> (r: Decision<A, R>)
    ensures
        r == spec_decide::<A, R>(Bind::F3, mode, app, youtube, drag),
{
    if mode == ModeState::Mouse {
        match app {
            None => Decision::NeedName,
            Some(AppKind::Code) => Decision::Done(Effect::Nothing, vscode::stop_debugger()),
            Some(_) => Decision::Done(Effect::Nothing, Hotkey::Suppress),
        }
    } else {
        Decision::Done(Effect::Nothing, Hotkey::Default)
    }
}

/// `F4`: see [`spec_decide`].
pub fn f4<A: Copy, R>(mode: ModeState, app: Option<AppKind>, youtube: Option<bool>, drag: A) -> (r: Decision<A, R>)
    ensures
        r == spec_decide::<A, R>(Bind::F4, mode, app, youtube, drag),
{
    if mode == ModeState::Mouse {
        match app {
            None => Decision::NeedName,
            Some(AppKind::Code) => Decision::Done(Effect::Nothing, vscode::restart_debugger()),
            Some(_) => Decision::Done(Effect::Nothing, Hotkey::Suppress),
        }
    } else {
        Decision::Done(Effect::Nothing, Hotkey::Default)
    }
}

/// `F6`: see [`spec_decide`].
pub fn f6<A: Copy, R>(mode: ModeState, app: Option<AppKind>, youtube: Option<bool>, drag: A) -> (r: Decision<A, R>)
    ensures
        r == spec_decide::<A, R>(Bind::F6, mode, app, youtube, drag),
{
    if mode == ModeState::Mouse {
        match app {
            None => Decision::NeedName,
            Some(AppKind::Code) => Decision::Done(Effect::Nothing, vscode::step_out()),
            Some(_) => Decision::Done(Effect::Nothing, Hotkey::Suppress),
        }
    } else {
        Decision::Done(Effect::Nothing, Hotkey::Default)
    }
}

/// `F7`: see [`spec_decide`].
pub fn f7<A: Copy, R>(mode: ModeState, app: Option<AppKind>, youtube: Option<bool>, drag: A) -> (r: Decision<A, R>)
    ensures
        r == spec_decide::<A, R>(Bind::F7, mode, app, youtube, drag),
{
    if mode == ModeState::Mouse {
        match app {
            None => Decision::NeedName,
            Some(AppKind::Code) => Decision::Done(Effect::Nothing, vscode::step_over()),
            Some(_) => Decision::Done(Effect::Nothing, Hotkey::Suppress),
        }
    } else {
        Decision::Done(Effect::Nothing, Hotkey::Default)
    }
}

/// `F8`: see [`spec_decide`].
pub fn f8<A: Copy, R>(mode: ModeState, app: Option<AppKind>, youtube: Option<bool>, drag: A) -> (r: Decision<A, R>)
    ensures
        r == spec_decide::<A, R>(Bind::F8, mode, app, youtube, drag),
{
    if mode == ModeState::Mouse {
        match app {
            None => Decision::NeedName,
            Some(AppKind::Code) => Decision::Done(Effect::Nothing, vscode::step_into()),
            Some(_) => Decision::Done(Effect::Nothing, Hotkey::Suppress),
        }
    } else {
        Decision::Done(Effect::Nothing, Hotkey::Default)
    }
}

/// `F21`: see [`spec_decide`].
pub fn f21<A: Copy, R>(mode: ModeState, app: Option<AppKind>, youtube: Option<bool>, drag: A) -> (r: Decision<A, R>)
    ensures
        r == spec_decide::<A, R>(Bind::F21, mode, app, youtube, drag),
{
    Decision::Done(Effect::Nothing, Hotkey::Action(drag))
}

/// `F23`: see [`spec_decide`].
pub fn f23<A: Copy, R>(mode: ModeState, app: Option<AppKind>, youtube: Option<bool>, drag: A) -> (r: Decision<A, R>)
    ensures
        r == spec_decide::<A, R>(Bind::F23, mode, app, youtube, drag),
{
    Decision::Done(Effect::ToggleMute, Hotkey::Suppress)
}

/// One line of the configuration: the modifiers and key, the hotkey, and
/// whether it works while suspended.
#[derive(Clone, Copy, PartialEq, Eq, Structural, Debug)]
pub struct Entry {
    pub mods: Mods,
    pub key: Key,
    pub bind: Bind,
    pub exempt: bool,
}

/// The configuration.
pub open spec fn spec_table() -> Seq<Entry> {
    table_part0() + table_part1() + table_part2() + table_part3()
}

pub open spec fn table_part0() -> Seq<Entry> {
    seq![
        Entry { mods: Mods(mods::NONE), key: Key(keys::B), bind: Bind::B, exempt: false },
        Entry { mods: Mods(mods::LS), key: Key(keys::B), bind: Bind::LsB, exempt: false },
        Entry { mods: Mods(mods::NONE), key: Key(keys::C), bind: Bind::C, exempt: false },
        Entry { mods: Mods(mods::LS), key: Key(keys::C), bind: Bind::LsC, exempt: false },
        Entry { mods: Mods(mods::LS), key: Key(keys::D), bind: Bind::LsD, exempt: false },
        Entry { mods: Mods(mods::LW), key: Key(keys::E), bind: Bind::LwE, exempt: false },
        Entry { mods: Mods(mods::NONE), key: Key(keys::G), bind: Bind::G, exempt: false },
        Entry { mods: Mods(mods::NONE), key: Key(keys::H), bind: Bind::H, exempt: false },
        Entry { mods: Mods(mods::LS), key: Key(keys::H), bind: Bind::LsH, exempt: false },
        Entry { mods: Mods(mods::NONE), key: Key(keys::K), bind: Bind::K, exempt: false },
        Entry { mods: Mods(mods::LS), key: Key(keys::K), bind: Bind::LcK, exempt: false },
        Entry { mods: Mods(mods::NONE), key: Key(keys::L), bind: Bind::L, exempt: false },
        Entry { mods: Mods(mods::NONE), key: Key(keys::P), bind: Bind::P, exempt: false },
        Entry { mods: Mods(mods::LS), key: Key(keys::P), bind: Bind::LsP, exempt: false },
        Entry { mods: Mods(mods::LS), key: Key(keys::S), bind: Bind::LsS, exempt: false },
        Entry { mods: Mods(mods::LCS), key: Key(keys::S), bind: Bind::LcsS, exempt: false },
        Entry { mods: Mods(mods::NONE), key: Key(keys::V), bind: Bind::V, exempt: false },
        Entry { mods: Mods(mods::NONE), key: Key(keys::W), bind: Bind::W, exempt: false },
        Entry { mods: Mods(mods::LS), key: Key(keys::W), bind: Bind::LsW, exempt: false },
        Entry { mods: Mods(mods::NONE), key: Key(keys::X), bind: Bind::X, exempt: false },
    ]
}

pub open spec fn table_part1() -> Seq<Entry> {
    seq![
        Entry { mods: Mods(mods::LS), key: Key(keys::X), bind: Bind::LsX, exempt: false },
        Entry { mods: Mods(mods::NONE), key: Key(keys::Y), bind: Bind::Y, exempt: false },
        Entry { mods: Mods(mods::NONE), key: Key(keys::PERIOD), bind: Bind::Period, exempt: false },
        Entry { mods: Mods(mods::NONE), key: Key(keys::APOSTROPHE), bind: Bind::Apstrph, exempt: false },
        Entry { mods: Mods(mods::RS), key: Key(keys::LBRACE), bind: Bind::RsLbrace, exempt: false },
        Entry { mods: Mods(mods::RS), key: Key(keys::RBRACE), bind: Bind::RsRbrace, exempt: false },
        Entry { mods: Mods(mods::LS_RS), key: Key(keys::LBRACE), bind: Bind::LsRsLbrace, exempt: false },
        Entry { mods: Mods(mods::LS_RS), key: Key(keys::RBRACE), bind: Bind::LsRsRbrace, exempt: false },
        Entry { mods: Mods(mods::LS), key: Key(keys::DASH), bind: Bind::LsDash, exempt: false },
        Entry { mods: Mods(mods::LS_RS), key: Key(keys::FSLASH), bind: Bind::LsRsFslash, exempt: false },
        Entry { mods: Mods(mods::LS), key: Key(keys::BSLASH), bind: Bind::LsBslash, exempt: false },
        Entry { mods: Mods(mods::LC), key: Key(keys::NUM1), bind: Bind::Lc1, exempt: false },
        Entry { mods: Mods(mods::LS), key: Key(keys::NUM1), bind: Bind::Ls1, exempt: false },
        Entry { mods: Mods(mods::LC), key: Key(keys::NUM2), bind: Bind::Lc2, exempt: false },
        Entry { mods: Mods(mods::RS), key: Key(keys::NUM2), bind: Bind::Rs2, exempt: false },
        Entry { mods: Mods(mods::LC), key: Key(keys::NUM3), bind: Bind::Lc3, exempt: false },
        Entry { mods: Mods(mods::LS), key: Key(keys::NUM3), bind: Bind::Ls3, exempt: false },
        Entry { mods: Mods(mods::LC), key: Key(keys::NUM4), bind: Bind::Lc4, exempt: false },
        Entry { mods: Mods(mods::LC), key: Key(keys::NUM5), bind: Bind::Lc5, exempt: false },
        Entry { mods: Mods(mods::LC), key: Key(keys::NUM6), bind: Bind::Lc6, exempt: false },
    ]
}

pub open spec fn table_part2() -> Seq<Entry> {
    seq![
        Entry { mods: Mods(mods::LS), key: Key(keys::NUM7), bind: Bind::Ls7, exempt: false },
        Entry { mods: Mods(mods::LS), key: Key(keys::NUM8), bind: Bind::Ls8, exempt: false },
        Entry { mods: Mods(mods::LS), key: Key(keys::NUM9), bind: Bind::Ls9, exempt: false },
        Entry { mods: Mods(mods::LC), key: Key(keys::NUM0), bind: Bind::Lc0, exempt: false },
        Entry { mods: Mods(mods::LSW), key: Key(keys::NUM0), bind: Bind::Suspend, exempt: true },
        Entry { mods: Mods(mods::LW), key: Key(keys::NUM0), bind: Bind::Exit, exempt: true },
        Entry { mods: Mods(mods::LS), key: Key(keys::UP), bind: Bind::LsUp, exempt: false },
        Entry { mods: Mods(mods::LS), key: Key(keys::DOWN), bind: Bind::LsDown, exempt: false },
        Entry { mods: Mods(mods::LA), key: Key(keys::UP), bind: Bind::LaUp, exempt: false },
        Entry { mods: Mods(mods::LA), key: Key(keys::DOWN), bind: Bind::LaDown, exempt: false },
        Entry { mods: Mods(mods::LCS), key: Key(keys::UP), bind: Bind::LcsUp, exempt: false },
        Entry { mods: Mods(mods::LCS), key: Key(keys::DOWN), bind: Bind::LcsDown, exempt: false },
        Entry { mods: Mods(mods::LSA), key: Key(keys::UP), bind: Bind::LsaUp, exempt: false },
        Entry { mods: Mods(mods::LSA), key: Key(keys::DOWN), bind: Bind::LsaDown, exempt: false },
        Entry { mods: Mods(mods::LS_RS), key: Key(keys::UP), bind: Bind::LsRsUp, exempt: false },
        Entry { mods: Mods(mods::LS_RS), key: Key(keys::DOWN), bind: Bind::LsRsDown, exempt: false },
        Entry { mods: Mods(mods::LS), key: Key(keys::LEFT), bind: Bind::LsLeft, exempt: false },
        Entry { mods: Mods(mods::LS), key: Key(keys::RIGHT), bind: Bind::LsRight, exempt: false },
        Entry { mods: Mods(mods::LC), key: Key(keys::HOME), bind: Bind::LcHome, exempt: false },
        Entry { mods: Mods(mods::LC), key: Key(keys::END), bind: Bind::LcEnd, exempt: false },
    ]
}

pub open spec fn table_part3() -> Seq<Entry> {
    seq![
        Entry { mods: Mods(mods::LC_RS), key: Key(keys::HOME), bind: Bind::LcRsHome, exempt: false },
        Entry { mods: Mods(mods::LC_RS), key: Key(keys::END), bind: Bind::LcRsEnd, exempt: false },
        Entry { mods: Mods(mods::LS_RS), key: Key(keys::HOME), bind: Bind::LsRsHome, exempt: false },
        Entry { mods: Mods(mods::LS_RS), key: Key(keys::END), bind: Bind::LsRsEnd, exempt: false },
        Entry { mods: Mods(mods::LC), key: Key(keys::PG_UP), bind: Bind::LcPgUp, exempt: false },
        Entry { mods: Mods(mods::LC), key: Key(keys::PG_DOWN), bind: Bind::LcPgDown, exempt: false },
        Entry { mods: Mods(mods::NONE), key: Key(keys::INSERT), bind: Bind::Insert, exempt: false },
        Entry { mods: Mods(mods::LS), key: Key(keys::ENTER), bind: Bind::LsEnter, exempt: false },
        Entry { mods: Mods(mods::LC), key: Key(keys::SPACE), bind: Bind::LcSpace, exempt: false },
        Entry { mods: Mods(mods::LS), key: Key(keys::XBUTTON1), bind: Bind::LsXbutton1, exempt: false },
        Entry { mods: Mods(mods::LS), key: Key(keys::LBUTTON), bind: Bind::LsLbutton, exempt: false },
        Entry { mods: Mods(mods::NONE), key: Key(keys::F3), bind: Bind::F3, exempt: false },
        Entry { mods: Mods(mods::NONE), key: Key(keys::F4), bind: Bind::F4, exempt: false },
        Entry { mods: Mods(mods::NONE), key: Key(keys::F6), bind: Bind::F6, exempt: false },
        Entry { mods: Mods(mods::NONE), key: Key(keys::F7), bind: Bind::F7, exempt: false },
        Entry { mods: Mods(mods::NONE), key: Key(keys::F8), bind: Bind::F8, exempt: false },
        Entry { mods: Mods(mods::NONE), key: Key(keys::F21), bind: Bind::F21, exempt: false },
        Entry { mods: Mods(mods::NONE), key: Key(keys::F23), bind: Bind::F23, exempt: true },
    ]
}

/// The configuration, in its order.
pub fn hotkey_table() -> (r: Vec<Entry>)
    ensures
        r@ == spec_table(),
{
    let mut v: Vec<Entry> = Vec::new();
    push_part0(&mut v);
    push_part1(&mut v);
    push_part2(&mut v);
    push_part3(&mut v);
    assert(v@ =~= spec_table());
    v
}

fn push_part0(v: &mut Vec<Entry>)
    ensures
        final(v)@ == old(v)@ + table_part0(),
{
    v.push(Entry { mods: Mods(mods::NONE), key: Key(keys::B), bind: Bind::B, exempt: false });
    v.push(Entry { mods: Mods(mods::LS), key: Key(keys::B), bind: Bind::LsB, exempt: false });
    v.push(Entry { mods: Mods(mods::NONE), key: Key(keys::C), bind: Bind::C, exempt: false });
    v.push(Entry { mods: Mods(mods::LS), key: Key(keys::C), bind: Bind::LsC, exempt: false });
    v.push(Entry { mods: Mods(mods::LS), key: Key(keys::D), bind: Bind::LsD, exempt: false });
    v.push(Entry { mods: Mods(mods::LW), key: Key(keys::E), bind: Bind::LwE, exempt: false });
    v.push(Entry { mods: Mods(mods::NONE), key: Key(keys::G), bind: Bind::G, exempt: false });
    v.push(Entry { mods: Mods(mods::NONE), key: Key(keys::H), bind: Bind::H, exempt: false });
    v.push(Entry { mods: Mods(mods::LS), key: Key(keys::H), bind: Bind::LsH, exempt: false });
    v.push(Entry { mods: Mods(mods::NONE), key: Key(keys::K), bind: Bind::K, exempt: false });
    v.push(Entry { mods: Mods(mods::LS), key: Key(keys::K), bind: Bind::LcK, exempt: false });
    v.push(Entry { mods: Mods(mods::NONE), key: Key(keys::L), bind: Bind::L, exempt: false });
    v.push(Entry { mods: Mods(mods::NONE), key: Key(keys::P), bind: Bind::P, exempt: false });
    v.push(Entry { mods: Mods(mods::LS), key: Key(keys::P), bind: Bind::LsP, exempt: false });
    v.push(Entry { mods: Mods(mods::LS), key: Key(keys::S), bind: Bind::LsS, exempt: false });
    v.push(Entry { mods: Mods(mods::LCS), key: Key(keys::S), bind: Bind::LcsS, exempt: false });
    v.push(Entry { mods: Mods(mods::NONE), key: Key(keys::V), bind: Bind::V, exempt: false });
    v.push(Entry { mods: Mods(mods::NONE), key: Key(keys::W), bind: Bind::W, exempt: false });
    v.push(Entry { mods: Mods(mods::LS), key: Key(keys::W), bind: Bind::LsW, exempt: false });
    v.push(Entry { mods: Mods(mods::NONE), key: Key(keys::X), bind: Bind::X, exempt: false });
    assert(v@ =~= old(v)@ + table_part0());
}

fn push_part1(v: &mut Vec<Entry>)
    ensures
        final(v)@ == old(v)@ + table_part1(),
{
    v.push(Entry { mods: Mods(mods::LS), key: Key(keys::X), bind: Bind::LsX, exempt: false });
    v.push(Entry { mods: Mods(mods::NONE), key: Key(keys::Y), bind: Bind::Y, exempt: false });
    v.push(Entry { mods: Mods(mods::NONE), key: Key(keys::PERIOD), bind: Bind::Period, exempt: false });
    v.push(Entry { mods: Mods(mods::NONE), key: Key(keys::APOSTROPHE), bind: Bind::Apstrph, exempt: false });
    v.push(Entry { mods: Mods(mods::RS), key: Key(keys::LBRACE), bind: Bind::RsLbrace, exempt: false });
    v.push(Entry { mods: Mods(mods::RS), key: Key(keys::RBRACE), bind: Bind::RsRbrace, exempt: false });
    v.push(Entry { mods: Mods(mods::LS_RS), key: Key(keys::LBRACE), bind: Bind::LsRsLbrace, exempt: false });
    v.push(Entry { mods: Mods(mods::LS_RS), key: Key(keys::RBRACE), bind: Bind::LsRsRbrace, exempt: false });
    v.push(Entry { mods: Mods(mods::LS), key: Key(keys::DASH), bind: Bind::LsDash, exempt: false });
    v.push(Entry { mods: Mods(mods::LS_RS), key: Key(keys::FSLASH), bind: Bind::LsRsFslash, exempt: false });
    v.push(Entry { mods: Mods(mods::LS), key: Key(keys::BSLASH), bind: Bind::LsBslash, exempt: false });
    v.push(Entry { mods: Mods(mods::LC), key: Key(keys::NUM1), bind: Bind::Lc1, exempt: false });
    v.push(Entry { mods: Mods(mods::LS), key: Key(keys::NUM1), bind: Bind::Ls1, exempt: false });
    v.push(Entry { mods: Mods(mods::LC), key: Key(keys::NUM2), bind: Bind::Lc2, exempt: false });
    v.push(Entry { mods: Mods(mods::RS), key: Key(keys::NUM2), bind: Bind::Rs2, exempt: false });
    v.push(Entry { mods: Mods(mods::LC), key: Key(keys::NUM3), bind: Bind::Lc3, exempt: false });
    v.push(Entry { mods: Mods(mods::LS), key: Key(keys::NUM3), bind: Bind::Ls3, exempt: false });
    v.push(Entry { mods: Mods(mods::LC), key: Key(keys::NUM4), bind: Bind::Lc4, exempt: false });
    v.push(Entry { mods: Mods(mods::LC), key: Key(keys::NUM5), bind: Bind::Lc5, exempt: false });
    v.push(Entry { mods: Mods(mods::LC), key: Key(keys::NUM6), bind: Bind::Lc6, exempt: false });
    assert(v@ =~= old(v)@ + table_part1());
}

fn push_part2(v: &mut Vec<Entry>)
    ensures
        final(v)@ == old(v)@ + table_part2(),
{
    v.push(Entry { mods: Mods(mods::LS), key: Key(keys::NUM7), bind: Bind::Ls7, exempt: false });
    v.push(Entry { mods: Mods(mods::LS), key: Key(keys::NUM8), bind: Bind::Ls8, exempt: false });
    v.push(Entry { mods: Mods(mods::LS), key: Key(keys::NUM9), bind: Bind::Ls9, exempt: false });
    v.push(Entry { mods: Mods(mods::LC), key: Key(keys::NUM0), bind: Bind::Lc0, exempt: false });
    v.push(Entry { mods: Mods(mods::LSW), key: Key(keys::NUM0), bind: Bind::Suspend, exempt: true });
    v.push(Entry { mods: Mods(mods::LW), key: Key(keys::NUM0), bind: Bind::Exit, exempt: true });
    v.push(Entry { mods: Mods(mods::LS), key: Key(keys::UP), bind: Bind::LsUp, exempt: false });
    v.push(Entry { mods: Mods(mods::LS), key: Key(keys::DOWN), bind: Bind::LsDown, exempt: false });
    v.push(Entry { mods: Mods(mods::LA), key: Key(keys::UP), bind: Bind::LaUp, exempt: false });
    v.push(Entry { mods: Mods(mods::LA), key: Key(keys::DOWN), bind: Bind::LaDown, exempt: false });
    v.push(Entry { mods: Mods(mods::LCS), key: Key(keys::UP), bind: Bind::LcsUp, exempt: false });
    v.push(Entry { mods: Mods(mods::LCS), key: Key(keys::DOWN), bind: Bind::LcsDown, exempt: false });
    v.push(Entry { mods: Mods(mods::LSA), key: Key(keys::UP), bind: Bind::LsaUp, exempt: false });
    v.push(Entry { mods: Mods(mods::LSA), key: Key(keys::DOWN), bind: Bind::LsaDown, exempt: false });
    v.push(Entry { mods: Mods(mods::LS_RS), key: Key(keys::UP), bind: Bind::LsRsUp, exempt: false });
    v.push(Entry { mods: Mods(mods::LS_RS), key: Key(keys::DOWN), bind: Bind::LsRsDown, exempt: false });
    v.push(Entry { mods: Mods(mods::LS), key: Key(keys::LEFT), bind: Bind::LsLeft, exempt: false });
    v.push(Entry { mods: Mods(mods::LS), key: Key(keys::RIGHT), bind: Bind::LsRight, exempt: false });
    v.push(Entry { mods: Mods(mods::LC), key: Key(keys::HOME), bind: Bind::LcHome, exempt: false });
    v.push(Entry { mods: Mods(mods::LC), key: Key(keys::END), bind: Bind::LcEnd, exempt: false });
    assert(v@ =~= old(v)@ + table_part2());
}

fn push_part3(v: &mut Vec<Entry>)
    ensures
        final(v)@ == old(v)@ + table_part3(),
{
    v.push(Entry { mods: Mods(mods::LC_RS), key: Key(keys::HOME), bind: Bind::LcRsHome, exempt: false });
    v.push(Entry { mods: Mods(mods::LC_RS), key: Key(keys::END), bind: Bind::LcRsEnd, exempt: false });
    v.push(Entry { mods: Mods(mods::LS_RS), key: Key(keys::HOME), bind: Bind::LsRsHome, exempt: false });
    v.push(Entry { mods: Mods(mods::LS_RS), key: Key(keys::END), bind: Bind::LsRsEnd, exempt: false });
    v.push(Entry { mods: Mods(mods::LC), key: Key(keys::PG_UP), bind: Bind::LcPgUp, exempt: false });
    v.push(Entry { mods: Mods(mods::LC), key: Key(keys::PG_DOWN), bind: Bind::LcPgDown, exempt: false });
    v.push(Entry { mods: Mods(mods::NONE), key: Key(keys::INSERT), bind: Bind::Insert, exempt: false });
    v.push(Entry { mods: Mods(mods::LS), key: Key(keys::ENTER), bind: Bind::LsEnter, exempt: false });
    v.push(Entry { mods: Mods(mods::LC), key: Key(keys::SPACE), bind: Bind::LcSpace, exempt: false });
    v.push(Entry { mods: Mods(mods::LS), key: Key(keys::XBUTTON1), bind: Bind::LsXbutton1, exempt: false });
    v.push(Entry { mods: Mods(mods::LS), key: Key(keys::LBUTTON), bind: Bind::LsLbutton, exempt: false });
    v.push(Entry { mods: Mods(mods::NONE), key: Key(keys::F3), bind: Bind::F3, exempt: false });
    v.push(Entry { mods: Mods(mods::NONE), key: Key(keys::F4), bind: Bind::F4, exempt: false });
    v.push(Entry { mods: Mods(mods::NONE), key: Key(keys::F6), bind: Bind::F6, exempt: false });
    v.push(Entry { mods: Mods(mods::NONE), key: Key(keys::F7), bind: Bind::F7, exempt: false });
    v.push(Entry { mods: Mods(mods::NONE), key: Key(keys::F8), bind: Bind::F8, exempt: false });
    v.push(Entry { mods: Mods(mods::NONE), key: Key(keys::F21), bind: Bind::F21, exempt: false });
    v.push(Entry { mods: Mods(mods::NONE), key: Key(keys::F23), bind: Bind::F23, exempt: true });
    assert(v@ =~= old(v)@ + table_part3());
}

/// The code under which an entry is registered.
pub open spec fn entry_code(e: Entry) -> u32 {
    km_code(KeyMods { mods: e.mods, key: e.key })
}

/// The hotkeys after the entries are registered one by one, and the first
/// entry whose key and modifiers were taken already, where registering stops.
pub open spec fn add_all(m: Map<u32, HotkeyHandler<Bind>>, t: Seq<Entry>) -> (Map<u32, HotkeyHandler<Bind>>, Option<Entry>)
    decreases t.len(),
{
    if t.len() == 0 {
        (m, None)
    } else if m.contains_key(entry_code(t[0])) {
        (m, Some(t[0]))
    } else {
        add_all(m.insert(entry_code(t[0]), HotkeyHandler { func: t[0].bind, exempt: t[0].exempt }), t.skip(1))
    }
}

/// Registers the configured hotkeys in their order; a hotkey whose key and
/// modifiers are taken stops the registration and is returned.
pub fn add_hotkeys(h: &mut Handler<Bind>) -> (r: Option<Entry>)
    ensures
        final(h).hotkeys() == add_all(old(h).hotkeys(), spec_table()).0,
        r == add_all(old(h).hotkeys(), spec_table()).1,
        final(h)@ == old(h)@,
{
    let table = hotkey_table();
    let mut i: usize = 0;
    assert(table@.skip(0) =~= table@);
    while i < table.len()
        invariant
            table@ == spec_table(),
            i <= table@.len(),
            h@ == old(h)@,
            add_all(h.hotkeys(), table@.skip(i as int)) == add_all(old(h).hotkeys(), spec_table()),
        decreases table@.len() - i,
    {
        let e = table[i];
        assert(table@.skip(i as int)[0] == e);
        assert(table@.skip(i as int).skip(1) =~= table@.skip(i + 1));
        if h.has_hotkey(e.mods, e.key) {
            return Some(e);
        }
        if e.exempt {
            h.hotkey_exempt(e.mods, e.key, e.bind);
        } else {
            h.hotkey(e.mods, e.key, e.bind);
        }
        i = i + 1;
    }
    assert(table@.skip(i as int) =~= Seq::<Entry>::empty());
    None
}

} // verus!

verus! {

/// Whether no two entries are registered under the same code.
pub open spec fn codes_distinct(t: Seq<Entry>) -> bool {
    forall|i: int, j: int| 0 <= i < j < t.len() ==> entry_code(t[i]) != entry_code(t[j])
}

proof fn lemma_add_all_complete(m: Map<u32, HotkeyHandler<Bind>>, t: Seq<Entry>)
    requires
        codes_distinct(t),
        forall|i: int| 0 <= i < t.len() ==> !m.contains_key(#[trigger] entry_code(t[i])),
    ensures
        add_all(m, t).1 is None,
        forall|i: int|
            0 <= i < t.len() ==> add_all(m, t).0.contains_key(#[trigger] entry_code(t[i])) && add_all(m, t).0[entry_code(
                t[i],
            )] == (HotkeyHandler { func: t[i].bind, exempt: t[i].exempt }),
    decreases t.len(),
{
    if t.len() > 0 {
        let m2 = m.insert(entry_code(t[0]), HotkeyHandler { func: t[0].bind, exempt: t[0].exempt });
        let rest = t.skip(1);
        assert forall|i: int| 0 <= i < rest.len() implies !m2.contains_key(#[trigger] entry_code(rest[i])) by {
            assert(rest[i] == t[i + 1]);
            assert(entry_code(t[0]) != entry_code(t[i + 1]));
        }
        assert(codes_distinct(rest)) by {
            assert forall|i: int, j: int| 0 <= i < j < rest.len() implies entry_code(rest[i]) != entry_code(
                rest[j],
            ) by {
                assert(rest[i] == t[i + 1] && rest[j] == t[j + 1]);
            }
        }
        lemma_add_all_complete(m2, rest);
        let r = add_all(m, t).0;
        assert forall|i: int| 0 <= i < t.len() implies r.contains_key(#[trigger] entry_code(t[i])) && r[entry_code(
            t[i],
        )] == (HotkeyHandler { func: t[i].bind, exempt: t[i].exempt }) by {
            if i > 0 {
                assert(rest[i - 1] == t[i]);
            } else {
                // the first entry stays: every later one has another code
                if !r.contains_key(entry_code(t[0])) || r[entry_code(t[0])] != (HotkeyHandler {
                    func: t[0].bind,
                    exempt: t[0].exempt,
                }) {
                    lemma_add_all_keeps(m2, rest, entry_code(t[0]));
                }
            }
        }
    }
}

proof fn lemma_add_all_keeps(m: Map<u32, HotkeyHandler<Bind>>, t: Seq<Entry>, c: u32)
    requires
        m.contains_key(c),
        forall|i: int| 0 <= i < t.len() ==> entry_code(#[trigger] t[i]) != c,
    ensures
        add_all(m, t).0.contains_key(c),
        add_all(m, t).0[c] == m[c],
    decreases t.len(),
{
    if t.len() > 0 && !m.contains_key(entry_code(t[0])) {
        let rest = t.skip(1);
        assert forall|i: int| 0 <= i < rest.len() implies entry_code(#[trigger] rest[i]) != c by {
            assert(rest[i] == t[i + 1]);
        }
        lemma_add_all_keeps(
            m.insert(entry_code(t[0]), HotkeyHandler { func: t[0].bind, exempt: t[0].exempt }),
            rest,
            c,
        );
    }
}

/// No two configured hotkeys share their key and modifiers: registering the
/// configuration on a handler without hotkeys never stops, and every
/// configured hotkey ends up registered with its function and exemption.
pub proof fn law_table_registers(m: Map<u32, HotkeyHandler<Bind>>)
    requires
        m == Map::<u32, HotkeyHandler<Bind>>::empty(),
    ensures
        add_all(m, spec_table()).1 is None,
        forall|i: int|
            0 <= i < spec_table().len() ==> add_all(m, spec_table()).0.contains_key(
                #[trigger] entry_code(spec_table()[i]),
            ),
{
    lemma_table_codes_distinct();
    lemma_add_all_complete(m, spec_table());
}

} // verus!

verus! {

#[verifier::spinoff_prover]
#[verifier::rlimit(100)]
proof fn lemma_table_codes_distinct()
    ensures
        codes_distinct(spec_table()),
{
    let t = spec_table();
    assert(t.len() == 78);
    assert(t[0] == Entry { mods: Mods(mods::NONE), key: Key(keys::B), bind: Bind::B, exempt: false });
    assert(t[1] == Entry { mods: Mods(mods::LS), key: Key(keys::B), bind: Bind::LsB, exempt: false });
    assert(t[2] == Entry { mods: Mods(mods::NONE), key: Key(keys::C), bind: Bind::C, exempt: false });
    assert(t[3] == Entry { mods: Mods(mods::LS), key: Key(keys::C), bind: Bind::LsC, exempt: false });
    assert(t[4] == Entry { mods: Mods(mods::LS), key: Key(keys::D), bind: Bind::LsD, exempt: false });
    assert(t[5] == Entry { mods: Mods(mods::LW), key: Key(keys::E), bind: Bind::LwE, exempt: false });
    assert(t[6] == Entry { mods: Mods(mods::NONE), key: Key(keys::G), bind: Bind::G, exempt: false });
    assert(t[7] == Entry { mods: Mods(mods::NONE), key: Key(keys::H), bind: Bind::H, exempt: false });
    assert(t[8] == Entry { mods: Mods(mods::LS), key: Key(keys::H), bind: Bind::LsH, exempt: false });
    assert(t[9] == Entry { mods: Mods(mods::NONE), key: Key(keys::K), bind: Bind::K, exempt: false });
    assert(t[10] == Entry { mods: Mods(mods::LS), key: Key(keys::K), bind: Bind::LcK, exempt: false });
    assert(t[11] == Entry { mods: Mods(mods::NONE), key: Key(keys::L), bind: Bind::L, exempt: false });
    assert(t[12] == Entry { mods: Mods(mods::NONE), key: Key(keys::P), bind: Bind::P, exempt: false });
    assert(t[13] == Entry { mods: Mods(mods::LS), key: Key(keys::P), bind: Bind::LsP, exempt: false });
    assert(t[14] == Entry { mods: Mods(mods::LS), key: Key(keys::S), bind: Bind::LsS, exempt: false });
    assert(t[15] == Entry { mods: Mods(mods::LCS), key: Key(keys::S), bind: Bind::LcsS, exempt: false });
    assert(t[16] == Entry { mods: Mods(mods::NONE), key: Key(keys::V), bind: Bind::V, exempt: false });
    assert(t[17] == Entry { mods: Mods(mods::NONE), key: Key(keys::W), bind: Bind::W, exempt: false });
    assert(t[18] == Entry { mods: Mods(mods::LS), key: Key(keys::W), bind: Bind::LsW, exempt: false });
    assert(t[19] == Entry { mods: Mods(mods::NONE), key: Key(keys::X), bind: Bind::X, exempt: false });
    assert(t[20] == Entry { mods: Mods(mods::LS), key: Key(keys::X), bind: Bind::LsX, exempt: false });
    assert(t[21] == Entry { mods: Mods(mods::NONE), key: Key(keys::Y), bind: Bind::Y, exempt: false });
    assert(t[22] == Entry { mods: Mods(mods::NONE), key: Key(keys::PERIOD), bind: Bind::Period, exempt: false });
    assert(t[23] == Entry { mods: Mods(mods::NONE), key: Key(keys::APOSTROPHE), bind: Bind::Apstrph, exempt: false });
    assert(t[24] == Entry { mods: Mods(mods::RS), key: Key(keys::LBRACE), bind: Bind::RsLbrace, exempt: false });
    assert(t[25] == Entry { mods: Mods(mods::RS), key: Key(keys::RBRACE), bind: Bind::RsRbrace, exempt: false });
    assert(t[26] == Entry { mods: Mods(mods::LS_RS), key: Key(keys::LBRACE), bind: Bind::LsRsLbrace, exempt: false });
    assert(t[27] == Entry { mods: Mods(mods::LS_RS), key: Key(keys::RBRACE), bind: Bind::LsRsRbrace, exempt: false });
    assert(t[28] == Entry { mods: Mods(mods::LS), key: Key(keys::DASH), bind: Bind::LsDash, exempt: false });
    assert(t[29] == Entry { mods: Mods(mods::LS_RS), key: Key(keys::FSLASH), bind: Bind::LsRsFslash, exempt: false });
    assert(t[30] == Entry { mods: Mods(mods::LS), key: Key(keys::BSLASH), bind: Bind::LsBslash, exempt: false });
    assert(t[31] == Entry { mods: Mods(mods::LC), key: Key(keys::NUM1), bind: Bind::Lc1, exempt: false });
    assert(t[32] == Entry { mods: Mods(mods::LS), key: Key(keys::NUM1), bind: Bind::Ls1, exempt: false });
    assert(t[33] == Entry { mods: Mods(mods::LC), key: Key(keys::NUM2), bind: Bind::Lc2, exempt: false });
    assert(t[34] == Entry { mods: Mods(mods::RS), key: Key(keys::NUM2), bind: Bind::Rs2, exempt: false });
    assert(t[35] == Entry { mods: Mods(mods::LC), key: Key(keys::NUM3), bind: Bind::Lc3, exempt: false });
    assert(t[36] == Entry { mods: Mods(mods::LS), key: Key(keys::NUM3), bind: Bind::Ls3, exempt: false });
    assert(t[37] == Entry { mods: Mods(mods::LC), key: Key(keys::NUM4), bind: Bind::Lc4, exempt: false });
    assert(t[38] == Entry { mods: Mods(mods::LC), key: Key(keys::NUM5), bind: Bind::Lc5, exempt: false });
    assert(t[39] == Entry { mods: Mods(mods::LC), key: Key(keys::NUM6), bind: Bind::Lc6, exempt: false });
    assert(t[40] == Entry { mods: Mods(mods::LS), key: Key(keys::NUM7), bind: Bind::Ls7, exempt: false });
    assert(t[41] == Entry { mods: Mods(mods::LS), key: Key(keys::NUM8), bind: Bind::Ls8, exempt: false });
    assert(t[42] == Entry { mods: Mods(mods::LS), key: Key(keys::NUM9), bind: Bind::Ls9, exempt: false });
    assert(t[43] == Entry { mods: Mods(mods::LC), key: Key(keys::NUM0), bind: Bind::Lc0, exempt: false });
    assert(t[44] == Entry { mods: Mods(mods::LSW), key: Key(keys::NUM0), bind: Bind::Suspend, exempt: true });
    assert(t[45] == Entry { mods: Mods(mods::LW), key: Key(keys::NUM0), bind: Bind::Exit, exempt: true });
    assert(t[46] == Entry { mods: Mods(mods::LS), key: Key(keys::UP), bind: Bind::LsUp, exempt: false });
    assert(t[47] == Entry { mods: Mods(mods::LS), key: Key(keys::DOWN), bind: Bind::LsDown, exempt: false });
    assert(t[48] == Entry { mods: Mods(mods::LA), key: Key(keys::UP), bind: Bind::LaUp, exempt: false });
    assert(t[49] == Entry { mods: Mods(mods::LA), key: Key(keys::DOWN), bind: Bind::LaDown, exempt: false });
    assert(t[50] == Entry { mods: Mods(mods::LCS), key: Key(keys::UP), bind: Bind::LcsUp, exempt: false });
    assert(t[51] == Entry { mods: Mods(mods::LCS), key: Key(keys::DOWN), bind: Bind::LcsDown, exempt: false });
    assert(t[52] == Entry { mods: Mods(mods::LSA), key: Key(keys::UP), bind: Bind::LsaUp, exempt: false });
    assert(t[53] == Entry { mods: Mods(mods::LSA), key: Key(keys::DOWN), bind: Bind::LsaDown, exempt: false });
    assert(t[54] == Entry { mods: Mods(mods::LS_RS), key: Key(keys::UP), bind: Bind::LsRsUp, exempt: false });
    assert(t[55] == Entry { mods: Mods(mods::LS_RS), key: Key(keys::DOWN), bind: Bind::LsRsDown, exempt: false });
    assert(t[56] == Entry { mods: Mods(mods::LS), key: Key(keys::LEFT), bind: Bind::LsLeft, exempt: false });
    assert(t[57] == Entry { mods: Mods(mods::LS), key: Key(keys::RIGHT), bind: Bind::LsRight, exempt: false });
    assert(t[58] == Entry { mods: Mods(mods::LC), key: Key(keys::HOME), bind: Bind::LcHome, exempt: false });
    assert(t[59] == Entry { mods: Mods(mods::LC), key: Key(keys::END), bind: Bind::LcEnd, exempt: false });
    assert(t[60] == Entry { mods: Mods(mods::LC_RS), key: Key(keys::HOME), bind: Bind::LcRsHome, exempt: false });
    assert(t[61] == Entry { mods: Mods(mods::LC_RS), key: Key(keys::END), bind: Bind::LcRsEnd, exempt: false });
    assert(t[62] == Entry { mods: Mods(mods::LS_RS), key: Key(keys::HOME), bind: Bind::LsRsHome, exempt: false });
    assert(t[63] == Entry { mods: Mods(mods::LS_RS), key: Key(keys::END), bind: Bind::LsRsEnd, exempt: false });
    assert(t[64] == Entry { mods: Mods(mods::LC), key: Key(keys::PG_UP), bind: Bind::LcPgUp, exempt: false });
    assert(t[65] == Entry { mods: Mods(mods::LC), key: Key(keys::PG_DOWN), bind: Bind::LcPgDown, exempt: false });
    assert(t[66] == Entry { mods: Mods(mods::NONE), key: Key(keys::INSERT), bind: Bind::Insert, exempt: false });
    assert(t[67] == Entry { mods: Mods(mods::LS), key: Key(keys::ENTER), bind: Bind::LsEnter, exempt: false });
    assert(t[68] == Entry { mods: Mods(mods::LC), key: Key(keys::SPACE), bind: Bind::LcSpace, exempt: false });
    assert(t[69] == Entry { mods: Mods(mods::LS), key: Key(keys::XBUTTON1), bind: Bind::LsXbutton1, exempt: false });
    assert(t[70] == Entry { mods: Mods(mods::LS), key: Key(keys::LBUTTON), bind: Bind::LsLbutton, exempt: false });
    assert(t[71] == Entry { mods: Mods(mods::NONE), key: Key(keys::F3), bind: Bind::F3, exempt: false });
    assert(t[72] == Entry { mods: Mods(mods::NONE), key: Key(keys::F4), bind: Bind::F4, exempt: false });
    assert(t[73] == Entry { mods: Mods(mods::NONE), key: Key(keys::F6), bind: Bind::F6, exempt: false });
    assert(t[74] == Entry { mods: Mods(mods::NONE), key: Key(keys::F7), bind: Bind::F7, exempt: false });
    assert(t[75] == Entry { mods: Mods(mods::NONE), key: Key(keys::F8), bind: Bind::F8, exempt: false });
    assert(t[76] == Entry { mods: Mods(mods::NONE), key: Key(keys::F21), bind: Bind::F21, exempt: false });
    assert(t[77] == Entry { mods: Mods(mods::NONE), key: Key(keys::F23), bind: Bind::F23, exempt: true });
}

} // verus!

verus! {

/// Adds the configured hotkeys.
pub trait AppExt: Sized {
    /// Whether none of the configured hotkeys' keys and modifiers is taken yet.
    spec fn configurable(&self) -> bool;

    fn add_hotkeys(self) -> Self
        requires
            self.configurable(),
    ;
}

impl AppExt for Handler<Bind> {
    open spec fn configurable(&self) -> bool {
        forall|i: int| 0 <= i < spec_table().len() ==> !self.hotkeys().contains_key(#[trigger] entry_code(spec_table()[i]))
    }

    /// Registers the configured hotkeys in their order; every one of them
    /// ends up registered with its function and exemption.
    fn add_hotkeys(self) -> (r: Self)
        ensures
            r.hotkeys() == add_all(self.hotkeys(), spec_table()).0,
            add_all(self.hotkeys(), spec_table()).1 is None,
            forall|i: int|
                0 <= i < spec_table().len() ==> r.hotkeys().contains_key(#[trigger] entry_code(spec_table()[i]))
                    && r.hotkeys()[entry_code(spec_table()[i])] == (HotkeyHandler {
                    func: spec_table()[i].bind,
                    exempt: spec_table()[i].exempt,
                }),
            r@ == self@,
    {
        proof {
            lemma_table_codes_distinct();
            lemma_add_all_complete(self.hotkeys(), spec_table());
        }
        let mut h = self;
        let _ = add_hotkeys(&mut h);
        h
    }
}

/// The key bits that tell keyboard keys from mouse keys, for the keys that
/// the configuration sends.
proof fn lemma_key_bits()
    ensures
        forall|k: u16| #![auto] (k < 0x100 || (0xE000 <= k && k < 0xE100)) ==> k & 0x0200 == 0,
        keys::WH_UP_X2 & 0x02FF == 0x0205 && keys::WH_UP_X2 & 0x0200 != 0,
        keys::WH_DOWN_X2 & 0x02FF == 0x0206 && keys::WH_DOWN_X2 & 0x0200 != 0,
        keys::WH_UP & 0x02FF == 0x0205 && keys::WH_UP & 0x0200 != 0,
        keys::WH_DOWN & 0x02FF == 0x0206 && keys::WH_DOWN & 0x0200 != 0,
{
    assert(forall|k: u16| #![auto] (k < 0x100 || (0xE000 <= k && k < 0xE100)) ==> k & 0x0200 == 0) by (bit_vector);
    let (wu, wd, u, d) = (keys::WH_UP_X2, keys::WH_DOWN_X2, keys::WH_UP, keys::WH_DOWN);
    assert(wu & 0x02FF == 0x0205 && wd & 0x02FF == 0x0206 && wu & 0x0200 != 0 && wd & 0x0200 != 0 && u & 0x02FF
        == 0x0205 && d & 0x02FF == 0x0206 && u & 0x0200 != 0 && d & 0x0200 != 0) by (bit_vector)
        requires
            wu == 0x1205 && wd == 0x1206 && u == 0x0205 && d == 0x0206,
    ;
}

/// Every hotkey that the configuration resolves to can be carried out: its
/// remaps target keys that can be sent, its texts type whole characters.
pub proof fn law_config_sendable<A, R>(
    bind: Bind,
    mode: ModeState,
    app: Option<AppKind>,
    youtube: Option<bool>,
    drag: A,
)
    ensures
        spec_decide::<A, R>(bind, mode, app, youtube, drag) matches Decision::Done(_, h) ==> hotkey_ok(h),
{
    match bind {
        Bind::B => sendable_b::<A, R>(mode, app, youtube, drag),
        Bind::LsB => sendable_ls_b::<A, R>(mode, app, youtube, drag),
        Bind::C => sendable_c::<A, R>(mode, app, youtube, drag),
        Bind::LsC => sendable_ls_c::<A, R>(mode, app, youtube, drag),
        Bind::LsD => sendable_ls_d::<A, R>(mode, app, youtube, drag),
        Bind::LwE => sendable_lw_e::<A, R>(mode, app, youtube, drag),
        Bind::G => sendable_g::<A, R>(mode, app, youtube, drag),
        Bind::H => sendable_h::<A, R>(mode, app, youtube, drag),
        Bind::LsH => sendable_ls_h::<A, R>(mode, app, youtube, drag),
        Bind::K => sendable_k::<A, R>(mode, app, youtube, drag),
        Bind::LcK => sendable_lc_k::<A, R>(mode, app, youtube, drag),
        Bind::L => sendable_l::<A, R>(mode, app, youtube, drag),
        Bind::P => sendable_p::<A, R>(mode, app, youtube, drag),
        Bind::LsP => sendable_ls_p::<A, R>(mode, app, youtube, drag),
        Bind::LsS => sendable_ls_s::<A, R>(mode, app, youtube, drag),
        Bind::LcsS => sendable_lcs_s::<A, R>(mode, app, youtube, drag),
        Bind::V => sendable_v::<A, R>(mode, app, youtube, drag),
        Bind::W => sendable_w::<A, R>(mode, app, youtube, drag),
        Bind::LsW => sendable_ls_w::<A, R>(mode, app, youtube, drag),
        Bind::X => sendable_x::<A, R>(mode, app, youtube, drag),
        Bind::LsX => sendable_ls_x::<A, R>(mode, app, youtube, drag),
        Bind::Y => sendable_y::<A, R>(mode, app, youtube, drag),
        Bind::Period => sendable_period::<A, R>(mode, app, youtube, drag),
        Bind::Apstrph => sendable_apstrph::<A, R>(mode, app, youtube, drag),
        Bind::RsLbrace => sendable_rs_lbrace::<A, R>(mode, app, youtube, drag),
        Bind::RsRbrace => sendable_rs_rbrace::<A, R>(mode, app, youtube, drag),
        Bind::LsRsLbrace => sendable_ls_rs_lbrace::<A, R>(mode, app, youtube, drag),
        Bind::LsRsRbrace => sendable_ls_rs_rbrace::<A, R>(mode, app, youtube, drag),
        Bind::LsDash => sendable_ls_dash::<A, R>(mode, app, youtube, drag),
        Bind::LsRsFslash => sendable_ls_rs_fslash::<A, R>(mode, app, youtube, drag),
        Bind::LsBslash => sendable_ls_bslash::<A, R>(mode, app, youtube, drag),
        Bind::Lc1 => sendable_lc_1::<A, R>(mode, app, youtube, drag),
        Bind::Ls1 => sendable_ls_1::<A, R>(mode, app, youtube, drag),
        Bind::Lc2 => sendable_lc_2::<A, R>(mode, app, youtube, drag),
        Bind::Rs2 => sendable_rs_2::<A, R>(mode, app, youtube, drag),
        Bind::Lc3 => sendable_lc_3::<A, R>(mode, app, youtube, drag),
        Bind::Ls3 => sendable_ls_3::<A, R>(mode, app, youtube, drag),
        Bind::Lc4 => sendable_lc_4::<A, R>(mode, app, youtube, drag),
        Bind::Lc5 => sendable_lc_5::<A, R>(mode, app, youtube, drag),
        Bind::Lc6 => sendable_lc_6::<A, R>(mode, app, youtube, drag),
        Bind::Ls7 => sendable_ls_7::<A, R>(mode, app, youtube, drag),
        Bind::Ls8 => sendable_ls_8::<A, R>(mode, app, youtube, drag),
        Bind::Ls9 => sendable_ls_9::<A, R>(mode, app, youtube, drag),
        Bind::Lc0 => sendable_lc_0::<A, R>(mode, app, youtube, drag),
        Bind::Suspend => sendable_suspend::<A, R>(mode, app, youtube, drag),
        Bind::Exit => sendable_exit::<A, R>(mode, app, youtube, drag),
        Bind::LsUp => sendable_ls_up::<A, R>(mode, app, youtube, drag),
        Bind::LsDown => sendable_ls_down::<A, R>(mode, app, youtube, drag),
        Bind::LaUp => sendable_la_up::<A, R>(mode, app, youtube, drag),
        Bind::LaDown => sendable_la_down::<A, R>(mode, app, youtube, drag),
        Bind::LcsUp => sendable_lcs_up::<A, R>(mode, app, youtube, drag),
        Bind::LcsDown => sendable_lcs_down::<A, R>(mode, app, youtube, drag),
        Bind::LsaUp => sendable_lsa_up::<A, R>(mode, app, youtube, drag),
        Bind::LsaDown => sendable_lsa_down::<A, R>(mode, app, youtube, drag),
        Bind::LsRsUp => sendable_ls_rs_up::<A, R>(mode, app, youtube, drag),
        Bind::LsRsDown => sendable_ls_rs_down::<A, R>(mode, app, youtube, drag),
        Bind::LsLeft => sendable_ls_left::<A, R>(mode, app, youtube, drag),
        Bind::LsRight => sendable_ls_right::<A, R>(mode, app, youtube, drag),
        Bind::LcHome => sendable_lc_home::<A, R>(mode, app, youtube, drag),
        Bind::LcEnd => sendable_lc_end::<A, R>(mode, app, youtube, drag),
        Bind::LcRsHome => sendable_lc_rs_home::<A, R>(mode, app, youtube, drag),
        Bind::LcRsEnd => sendable_lc_rs_end::<A, R>(mode, app, youtube, drag),
        Bind::LsRsHome => sendable_ls_rs_home::<A, R>(mode, app, youtube, drag),
        Bind::LsRsEnd => sendable_ls_rs_end::<A, R>(mode, app, youtube, drag),
        Bind::LcPgUp => sendable_lc_pg_up::<A, R>(mode, app, youtube, drag),
        Bind::LcPgDown => sendable_lc_pg_down::<A, R>(mode, app, youtube, drag),
        Bind::Insert => sendable_insert::<A, R>(mode, app, youtube, drag),
        Bind::LsEnter => sendable_ls_enter::<A, R>(mode, app, youtube, drag),
        Bind::LcSpace => sendable_lc_space::<A, R>(mode, app, youtube, drag),
        Bind::LsXbutton1 => sendable_ls_xbutton1::<A, R>(mode, app, youtube, drag),
        Bind::LsLbutton => sendable_ls_lbutton::<A, R>(mode, app, youtube, drag),
        Bind::F3 => sendable_f3::<A, R>(mode, app, youtube, drag),
        Bind::F4 => sendable_f4::<A, R>(mode, app, youtube, drag),
        Bind::F6 => sendable_f6::<A, R>(mode, app, youtube, drag),
        Bind::F7 => sendable_f7::<A, R>(mode, app, youtube, drag),
        Bind::F8 => sendable_f8::<A, R>(mode, app, youtube, drag),
        Bind::F21 => sendable_f21::<A, R>(mode, app, youtube, drag),
        Bind::F23 => sendable_f23::<A, R>(mode, app, youtube, drag),
    }
}

proof fn sendable_b<A, R>(mode: ModeState, app: Option<AppKind>, youtube: Option<bool>, drag: A)
    ensures
        spec_decide::<A, R>(Bind::B, mode, app, youtube, drag) matches Decision::Done(_, h) ==> hotkey_ok(h),
{
    lemma_key_bits();
}

proof fn sendable_ls_b<A, R>(mode: ModeState, app: Option<AppKind>, youtube: Option<bool>, drag: A)
    ensures
        spec_decide::<A, R>(Bind::LsB, mode, app, youtube, drag) matches Decision::Done(_, h) ==> hotkey_ok(h),
{
    lemma_key_bits();
}

proof fn sendable_c<A, R>(mode: ModeState, app: Option<AppKind>, youtube: Option<bool>, drag: A)
    ensures
        spec_decide::<A, R>(Bind::C, mode, app, youtube, drag) matches Decision::Done(_, h) ==> hotkey_ok(h),
{
    lemma_key_bits();
}

proof fn sendable_ls_c<A, R>(mode: ModeState, app: Option<AppKind>, youtube: Option<bool>, drag: A)
    ensures
        spec_decide::<A, R>(Bind::LsC, mode, app, youtube, drag) matches Decision::Done(_, h) ==> hotkey_ok(h),
{
    lemma_key_bits();
}

proof fn sendable_ls_d<A, R>(mode: ModeState, app: Option<AppKind>, youtube: Option<bool>, drag: A)
    ensures
        spec_decide::<A, R>(Bind::LsD, mode, app, youtube, drag) matches Decision::Done(_, h) ==> hotkey_ok(h),
{
    lemma_key_bits();
}

proof fn sendable_lw_e<A, R>(mode: ModeState, app: Option<AppKind>, youtube: Option<bool>, drag: A)
    ensures
        spec_decide::<A, R>(Bind::LwE, mode, app, youtube, drag) matches Decision::Done(_, h) ==> hotkey_ok(h),
{
    lemma_key_bits();
}

proof fn sendable_g<A, R>(mode: ModeState, app: Option<AppKind>, youtube: Option<bool>, drag: A)
    ensures
        spec_decide::<A, R>(Bind::G, mode, app, youtube, drag) matches Decision::Done(_, h) ==> hotkey_ok(h),
{
    lemma_key_bits();
}

proof fn sendable_h<A, R>(mode: ModeState, app: Option<AppKind>, youtube: Option<bool>, drag: A)
    ensures
        spec_decide::<A, R>(Bind::H, mode, app, youtube, drag) matches Decision::Done(_, h) ==> hotkey_ok(h),
{
    lemma_key_bits();
}

proof fn sendable_ls_h<A, R>(mode: ModeState, app: Option<AppKind>, youtube: Option<bool>, drag: A)
    ensures
        spec_decide::<A, R>(Bind::LsH, mode, app, youtube, drag) matches Decision::Done(_, h) ==> hotkey_ok(h),
{
    lemma_key_bits();
}

proof fn sendable_k<A, R>(mode: ModeState, app: Option<AppKind>, youtube: Option<bool>, drag: A)
    ensures
        spec_decide::<A, R>(Bind::K, mode, app, youtube, drag) matches Decision::Done(_, h) ==> hotkey_ok(h),
{
    lemma_key_bits();
}

proof fn sendable_lc_k<A, R>(mode: ModeState, app: Option<AppKind>, youtube: Option<bool>, drag: A)
    ensures
        spec_decide::<A, R>(Bind::LcK, mode, app, youtube, drag) matches Decision::Done(_, h) ==> hotkey_ok(h),
{
    lemma_key_bits();
}

proof fn sendable_l<A, R>(mode: ModeState, app: Option<AppKind>, youtube: Option<bool>, drag: A)
    ensures
        spec_decide::<A, R>(Bind::L, mode, app, youtube, drag) matches Decision::Done(_, h) ==> hotkey_ok(h),
{
    lemma_key_bits();
}

proof fn sendable_p<A, R>(mode: ModeState, app: Option<AppKind>, youtube: Option<bool>, drag: A)
    ensures
        spec_decide::<A, R>(Bind::P, mode, app, youtube, drag) matches Decision::Done(_, h) ==> hotkey_ok(h),
{
    lemma_key_bits();
}

proof fn sendable_ls_p<A, R>(mode: ModeState, app: Option<AppKind>, youtube: Option<bool>, drag: A)
    ensures
        spec_decide::<A, R>(Bind::LsP, mode, app, youtube, drag) matches Decision::Done(_, h) ==> hotkey_ok(h),
{
    lemma_key_bits();
}

proof fn sendable_ls_s<A, R>(mode: ModeState, app: Option<AppKind>, youtube: Option<bool>, drag: A)
    ensures
        spec_decide::<A, R>(Bind::LsS, mode, app, youtube, drag) matches Decision::Done(_, h) ==> hotkey_ok(h),
{
    lemma_key_bits();
}

proof fn sendable_lcs_s<A, R>(mode: ModeState, app: Option<AppKind>, youtube: Option<bool>, drag: A)
    ensures
        spec_decide::<A, R>(Bind::LcsS, mode, app, youtube, drag) matches Decision::Done(_, h) ==> hotkey_ok(h),
{
    lemma_key_bits();
}

proof fn sendable_v<A, R>(mode: ModeState, app: Option<AppKind>, youtube: Option<bool>, drag: A)
    ensures
        spec_decide::<A, R>(Bind::V, mode, app, youtube, drag) matches Decision::Done(_, h) ==> hotkey_ok(h),
{
    lemma_key_bits();
}

proof fn sendable_w<A, R>(mode: ModeState, app: Option<AppKind>, youtube: Option<bool>, drag: A)
    ensures
        spec_decide::<A, R>(Bind::W, mode, app, youtube, drag) matches Decision::Done(_, h) ==> hotkey_ok(h),
{
    lemma_key_bits();
}

proof fn sendable_ls_w<A, R>(mode: ModeState, app: Option<AppKind>, youtube: Option<bool>, drag: A)
    ensures
        spec_decide::<A, R>(Bind::LsW, mode, app, youtube, drag) matches Decision::Done(_, h) ==> hotkey_ok(h),
{
    lemma_key_bits();
}

proof fn sendable_x<A, R>(mode: ModeState, app: Option<AppKind>, youtube: Option<bool>, drag: A)
    ensures
        spec_decide::<A, R>(Bind::X, mode, app, youtube, drag) matches Decision::Done(_, h) ==> hotkey_ok(h),
{
    lemma_key_bits();
}

proof fn sendable_ls_x<A, R>(mode: ModeState, app: Option<AppKind>, youtube: Option<bool>, drag: A)
    ensures
        spec_decide::<A, R>(Bind::LsX, mode, app, youtube, drag) matches Decision::Done(_, h) ==> hotkey_ok(h),
{
    lemma_key_bits();
}

proof fn sendable_y<A, R>(mode: ModeState, app: Option<AppKind>, youtube: Option<bool>, drag: A)
    ensures
        spec_decide::<A, R>(Bind::Y, mode, app, youtube, drag) matches Decision::Done(_, h) ==> hotkey_ok(h),
{
    lemma_key_bits();
}

proof fn sendable_period<A, R>(mode: ModeState, app: Option<AppKind>, youtube: Option<bool>, drag: A)
    ensures
        spec_decide::<A, R>(Bind::Period, mode, app, youtube, drag) matches Decision::Done(_, h) ==> hotkey_ok(h),
{
    lemma_key_bits();
}

proof fn sendable_apstrph<A, R>(mode: ModeState, app: Option<AppKind>, youtube: Option<bool>, drag: A)
    ensures
        spec_decide::<A, R>(Bind::Apstrph, mode, app, youtube, drag) matches Decision::Done(_, h) ==> hotkey_ok(h),
{
    lemma_key_bits();
}

proof fn sendable_rs_lbrace<A, R>(mode: ModeState, app: Option<AppKind>, youtube: Option<bool>, drag: A)
    ensures
        spec_decide::<A, R>(Bind::RsLbrace, mode, app, youtube, drag) matches Decision::Done(_, h) ==> hotkey_ok(h),
{
    lemma_key_bits();
}

proof fn sendable_rs_rbrace<A, R>(mode: ModeState, app: Option<AppKind>, youtube: Option<bool>, drag: A)
    ensures
        spec_decide::<A, R>(Bind::RsRbrace, mode, app, youtube, drag) matches Decision::Done(_, h) ==> hotkey_ok(h),
{
    lemma_key_bits();
}

proof fn sendable_ls_rs_lbrace<A, R>(mode: ModeState, app: Option<AppKind>, youtube: Option<bool>, drag: A)
    ensures
        spec_decide::<A, R>(Bind::LsRsLbrace, mode, app, youtube, drag) matches Decision::Done(_, h) ==> hotkey_ok(h),
{
    lemma_key_bits();
    reveal_strlit("«");
    reveal_with_fuel(utf16_encode, 3);
    reveal_with_fuel(units_paired, 3);
}

proof fn sendable_ls_rs_rbrace<A, R>(mode: ModeState, app: Option<AppKind>, youtube: Option<bool>, drag: A)
    ensures
        spec_decide::<A, R>(Bind::LsRsRbrace, mode, app, youtube, drag) matches Decision::Done(_, h) ==> hotkey_ok(h),
{
    lemma_key_bits();
    reveal_strlit("»");
    reveal_with_fuel(utf16_encode, 3);
    reveal_with_fuel(units_paired, 3);
}

proof fn sendable_ls_dash<A, R>(mode: ModeState, app: Option<AppKind>, youtube: Option<bool>, drag: A)
    ensures
        spec_decide::<A, R>(Bind::LsDash, mode, app, youtube, drag) matches Decision::Done(_, h) ==> hotkey_ok(h),
{
    lemma_key_bits();
    reveal_strlit(":=");
    reveal_with_fuel(utf16_encode, 3);
    reveal_with_fuel(units_paired, 3);
}

proof fn sendable_ls_rs_fslash<A, R>(mode: ModeState, app: Option<AppKind>, youtube: Option<bool>, drag: A)
    ensures
        spec_decide::<A, R>(Bind::LsRsFslash, mode, app, youtube, drag) matches Decision::Done(_, h) ==> hotkey_ok(h),
{
    lemma_key_bits();
    reveal_strlit("—");
    reveal_with_fuel(utf16_encode, 3);
    reveal_with_fuel(units_paired, 3);
}

proof fn sendable_ls_bslash<A, R>(mode: ModeState, app: Option<AppKind>, youtube: Option<bool>, drag: A)
    ensures
        spec_decide::<A, R>(Bind::LsBslash, mode, app, youtube, drag) matches Decision::Done(_, h) ==> hotkey_ok(h),
{
    lemma_key_bits();
    reveal_strlit("\\n");
    reveal_with_fuel(utf16_encode, 3);
    reveal_with_fuel(units_paired, 3);
}

proof fn sendable_lc_1<A, R>(mode: ModeState, app: Option<AppKind>, youtube: Option<bool>, drag: A)
    ensures
        spec_decide::<A, R>(Bind::Lc1, mode, app, youtube, drag) matches Decision::Done(_, h) ==> hotkey_ok(h),
{
    lemma_key_bits();
}

proof fn sendable_ls_1<A, R>(mode: ModeState, app: Option<AppKind>, youtube: Option<bool>, drag: A)
    ensures
        spec_decide::<A, R>(Bind::Ls1, mode, app, youtube, drag) matches Decision::Done(_, h) ==> hotkey_ok(h),
{
    lemma_key_bits();
}

proof fn sendable_lc_2<A, R>(mode: ModeState, app: Option<AppKind>, youtube: Option<bool>, drag: A)
    ensures
        spec_decide::<A, R>(Bind::Lc2, mode, app, youtube, drag) matches Decision::Done(_, h) ==> hotkey_ok(h),
{
    lemma_key_bits();
}

proof fn sendable_rs_2<A, R>(mode: ModeState, app: Option<AppKind>, youtube: Option<bool>, drag: A)
    ensures
        spec_decide::<A, R>(Bind::Rs2, mode, app, youtube, drag) matches Decision::Done(_, h) ==> hotkey_ok(h),
{
    lemma_key_bits();
}

proof fn sendable_lc_3<A, R>(mode: ModeState, app: Option<AppKind>, youtube: Option<bool>, drag: A)
    ensures
        spec_decide::<A, R>(Bind::Lc3, mode, app, youtube, drag) matches Decision::Done(_, h) ==> hotkey_ok(h),
{
    lemma_key_bits();
}

proof fn sendable_ls_3<A, R>(mode: ModeState, app: Option<AppKind>, youtube: Option<bool>, drag: A)
    ensures
        spec_decide::<A, R>(Bind::Ls3, mode, app, youtube, drag) matches Decision::Done(_, h) ==> hotkey_ok(h),
{
    lemma_key_bits();
}

proof fn sendable_lc_4<A, R>(mode: ModeState, app: Option<AppKind>, youtube: Option<bool>, drag: A)
    ensures
        spec_decide::<A, R>(Bind::Lc4, mode, app, youtube, drag) matches Decision::Done(_, h) ==> hotkey_ok(h),
{
    lemma_key_bits();
}

proof fn sendable_lc_5<A, R>(mode: ModeState, app: Option<AppKind>, youtube: Option<bool>, drag: A)
    ensures
        spec_decide::<A, R>(Bind::Lc5, mode, app, youtube, drag) matches Decision::Done(_, h) ==> hotkey_ok(h),
{
    lemma_key_bits();
}

proof fn sendable_lc_6<A, R>(mode: ModeState, app: Option<AppKind>, youtube: Option<bool>, drag: A)
    ensures
        spec_decide::<A, R>(Bind::Lc6, mode, app, youtube, drag) matches Decision::Done(_, h) ==> hotkey_ok(h),
{
    lemma_key_bits();
}

proof fn sendable_ls_7<A, R>(mode: ModeState, app: Option<AppKind>, youtube: Option<bool>, drag: A)
    ensures
        spec_decide::<A, R>(Bind::Ls7, mode, app, youtube, drag) matches Decision::Done(_, h) ==> hotkey_ok(h),
{
    lemma_key_bits();
    reveal_strlit("–");
    reveal_with_fuel(utf16_encode, 3);
    reveal_with_fuel(units_paired, 3);
}

proof fn sendable_ls_8<A, R>(mode: ModeState, app: Option<AppKind>, youtube: Option<bool>, drag: A)
    ensures
        spec_decide::<A, R>(Bind::Ls8, mode, app, youtube, drag) matches Decision::Done(_, h) ==> hotkey_ok(h),
{
    lemma_key_bits();
    reveal_strlit("->");
    reveal_with_fuel(utf16_encode, 3);
    reveal_with_fuel(units_paired, 3);
}

proof fn sendable_ls_9<A, R>(mode: ModeState, app: Option<AppKind>, youtube: Option<bool>, drag: A)
    ensures
        spec_decide::<A, R>(Bind::Ls9, mode, app, youtube, drag) matches Decision::Done(_, h) ==> hotkey_ok(h),
{
    lemma_key_bits();
    reveal_strlit("=>");
    reveal_with_fuel(utf16_encode, 3);
    reveal_with_fuel(units_paired, 3);
}

proof fn sendable_lc_0<A, R>(mode: ModeState, app: Option<AppKind>, youtube: Option<bool>, drag: A)
    ensures
        spec_decide::<A, R>(Bind::Lc0, mode, app, youtube, drag) matches Decision::Done(_, h) ==> hotkey_ok(h),
{
    lemma_key_bits();
}

proof fn sendable_suspend<A, R>(mode: ModeState, app: Option<AppKind>, youtube: Option<bool>, drag: A)
    ensures
        spec_decide::<A, R>(Bind::Suspend, mode, app, youtube, drag) matches Decision::Done(_, h) ==> hotkey_ok(h),
{
    lemma_key_bits();
}

proof fn sendable_exit<A, R>(mode: ModeState, app: Option<AppKind>, youtube: Option<bool>, drag: A)
    ensures
        spec_decide::<A, R>(Bind::Exit, mode, app, youtube, drag) matches Decision::Done(_, h) ==> hotkey_ok(h),
{
    lemma_key_bits();
}

proof fn sendable_ls_up<A, R>(mode: ModeState, app: Option<AppKind>, youtube: Option<bool>, drag: A)
    ensures
        spec_decide::<A, R>(Bind::LsUp, mode, app, youtube, drag) matches Decision::Done(_, h) ==> hotkey_ok(h),
{
    lemma_key_bits();
}

proof fn sendable_ls_down<A, R>(mode: ModeState, app: Option<AppKind>, youtube: Option<bool>, drag: A)
    ensures
        spec_decide::<A, R>(Bind::LsDown, mode, app, youtube, drag) matches Decision::Done(_, h) ==> hotkey_ok(h),
{
    lemma_key_bits();
}

proof fn sendable_la_up<A, R>(mode: ModeState, app: Option<AppKind>, youtube: Option<bool>, drag: A)
    ensures
        spec_decide::<A, R>(Bind::LaUp, mode, app, youtube, drag) matches Decision::Done(_, h) ==> hotkey_ok(h),
{
    lemma_key_bits();
}

proof fn sendable_la_down<A, R>(mode: ModeState, app: Option<AppKind>, youtube: Option<bool>, drag: A)
    ensures
        spec_decide::<A, R>(Bind::LaDown, mode, app, youtube, drag) matches Decision::Done(_, h) ==> hotkey_ok(h),
{
    lemma_key_bits();
}

proof fn sendable_lcs_up<A, R>(mode: ModeState, app: Option<AppKind>, youtube: Option<bool>, drag: A)
    ensures
        spec_decide::<A, R>(Bind::LcsUp, mode, app, youtube, drag) matches Decision::Done(_, h) ==> hotkey_ok(h),
{
    lemma_key_bits();
}

proof fn sendable_lcs_down<A, R>(mode: ModeState, app: Option<AppKind>, youtube: Option<bool>, drag: A)
    ensures
        spec_decide::<A, R>(Bind::LcsDown, mode, app, youtube, drag) matches Decision::Done(_, h) ==> hotkey_ok(h),
{
    lemma_key_bits();
}

proof fn sendable_lsa_up<A, R>(mode: ModeState, app: Option<AppKind>, youtube: Option<bool>, drag: A)
    ensures
        spec_decide::<A, R>(Bind::LsaUp, mode, app, youtube, drag) matches Decision::Done(_, h) ==> hotkey_ok(h),
{
    lemma_key_bits();
}

proof fn sendable_lsa_down<A, R>(mode: ModeState, app: Option<AppKind>, youtube: Option<bool>, drag: A)
    ensures
        spec_decide::<A, R>(Bind::LsaDown, mode, app, youtube, drag) matches Decision::Done(_, h) ==> hotkey_ok(h),
{
    lemma_key_bits();
}

proof fn sendable_ls_rs_up<A, R>(mode: ModeState, app: Option<AppKind>, youtube: Option<bool>, drag: A)
    ensures
        spec_decide::<A, R>(Bind::LsRsUp, mode, app, youtube, drag) matches Decision::Done(_, h) ==> hotkey_ok(h),
{
    lemma_key_bits();
}

proof fn sendable_ls_rs_down<A, R>(mode: ModeState, app: Option<AppKind>, youtube: Option<bool>, drag: A)
    ensures
        spec_decide::<A, R>(Bind::LsRsDown, mode, app, youtube, drag) matches Decision::Done(_, h) ==> hotkey_ok(h),
{
    lemma_key_bits();
}

proof fn sendable_ls_left<A, R>(mode: ModeState, app: Option<AppKind>, youtube: Option<bool>, drag: A)
    ensures
        spec_decide::<A, R>(Bind::LsLeft, mode, app, youtube, drag) matches Decision::Done(_, h) ==> hotkey_ok(h),
{
    lemma_key_bits();
}

proof fn sendable_ls_right<A, R>(mode: ModeState, app: Option<AppKind>, youtube: Option<bool>, drag: A)
    ensures
        spec_decide::<A, R>(Bind::LsRight, mode, app, youtube, drag) matches Decision::Done(_, h) ==> hotkey_ok(h),
{
    lemma_key_bits();
}

proof fn sendable_lc_home<A, R>(mode: ModeState, app: Option<AppKind>, youtube: Option<bool>, drag: A)
    ensures
        spec_decide::<A, R>(Bind::LcHome, mode, app, youtube, drag) matches Decision::Done(_, h) ==> hotkey_ok(h),
{
    lemma_key_bits();
}

proof fn sendable_lc_end<A, R>(mode: ModeState, app: Option<AppKind>, youtube: Option<bool>, drag: A)
    ensures
        spec_decide::<A, R>(Bind::LcEnd, mode, app, youtube, drag) matches Decision::Done(_, h) ==> hotkey_ok(h),
{
    lemma_key_bits();
}

proof fn sendable_lc_rs_home<A, R>(mode: ModeState, app: Option<AppKind>, youtube: Option<bool>, drag: A)
    ensures
        spec_decide::<A, R>(Bind::LcRsHome, mode, app, youtube, drag) matches Decision::Done(_, h) ==> hotkey_ok(h),
{
    lemma_key_bits();
}

proof fn sendable_lc_rs_end<A, R>(mode: ModeState, app: Option<AppKind>, youtube: Option<bool>, drag: A)
    ensures
        spec_decide::<A, R>(Bind::LcRsEnd, mode, app, youtube, drag) matches Decision::Done(_, h) ==> hotkey_ok(h),
{
    lemma_key_bits();
}

proof fn sendable_ls_rs_home<A, R>(mode: ModeState, app: Option<AppKind>, youtube: Option<bool>, drag: A)
    ensures
        spec_decide::<A, R>(Bind::LsRsHome, mode, app, youtube, drag) matches Decision::Done(_, h) ==> hotkey_ok(h),
{
    lemma_key_bits();
}

proof fn sendable_ls_rs_end<A, R>(mode: ModeState, app: Option<AppKind>, youtube: Option<bool>, drag: A)
    ensures
        spec_decide::<A, R>(Bind::LsRsEnd, mode, app, youtube, drag) matches Decision::Done(_, h) ==> hotkey_ok(h),
{
    lemma_key_bits();
}

proof fn sendable_lc_pg_up<A, R>(mode: ModeState, app: Option<AppKind>, youtube: Option<bool>, drag: A)
    ensures
        spec_decide::<A, R>(Bind::LcPgUp, mode, app, youtube, drag) matches Decision::Done(_, h) ==> hotkey_ok(h),
{
    lemma_key_bits();
}

proof fn sendable_lc_pg_down<A, R>(mode: ModeState, app: Option<AppKind>, youtube: Option<bool>, drag: A)
    ensures
        spec_decide::<A, R>(Bind::LcPgDown, mode, app, youtube, drag) matches Decision::Done(_, h) ==> hotkey_ok(h),
{
    lemma_key_bits();
}

proof fn sendable_insert<A, R>(mode: ModeState, app: Option<AppKind>, youtube: Option<bool>, drag: A)
    ensures
        spec_decide::<A, R>(Bind::Insert, mode, app, youtube, drag) matches Decision::Done(_, h) ==> hotkey_ok(h),
{
    lemma_key_bits();
}

proof fn sendable_ls_enter<A, R>(mode: ModeState, app: Option<AppKind>, youtube: Option<bool>, drag: A)
    ensures
        spec_decide::<A, R>(Bind::LsEnter, mode, app, youtube, drag) matches Decision::Done(_, h) ==> hotkey_ok(h),
{
    lemma_key_bits();
}

proof fn sendable_lc_space<A, R>(mode: ModeState, app: Option<AppKind>, youtube: Option<bool>, drag: A)
    ensures
        spec_decide::<A, R>(Bind::LcSpace, mode, app, youtube, drag) matches Decision::Done(_, h) ==> hotkey_ok(h),
{
    lemma_key_bits();
}

proof fn sendable_ls_xbutton1<A, R>(mode: ModeState, app: Option<AppKind>, youtube: Option<bool>, drag: A)
    ensures
        spec_decide::<A, R>(Bind::LsXbutton1, mode, app, youtube, drag) matches Decision::Done(_, h) ==> hotkey_ok(h),
{
    lemma_key_bits();
}

proof fn sendable_ls_lbutton<A, R>(mode: ModeState, app: Option<AppKind>, youtube: Option<bool>, drag: A)
    ensures
        spec_decide::<A, R>(Bind::LsLbutton, mode, app, youtube, drag) matches Decision::Done(_, h) ==> hotkey_ok(h),
{
    lemma_key_bits();
}

proof fn sendable_f3<A, R>(mode: ModeState, app: Option<AppKind>, youtube: Option<bool>, drag: A)
    ensures
        spec_decide::<A, R>(Bind::F3, mode, app, youtube, drag) matches Decision::Done(_, h) ==> hotkey_ok(h),
{
    lemma_key_bits();
}

proof fn sendable_f4<A, R>(mode: ModeState, app: Option<AppKind>, youtube: Option<bool>, drag: A)
    ensures
        spec_decide::<A, R>(Bind::F4, mode, app, youtube, drag) matches Decision::Done(_, h) ==> hotkey_ok(h),
{
    lemma_key_bits();
}

proof fn sendable_f6<A, R>(mode: ModeState, app: Option<AppKind>, youtube: Option<bool>, drag: A)
    ensures
        spec_decide::<A, R>(Bind::F6, mode, app, youtube, drag) matches Decision::Done(_, h) ==> hotkey_ok(h),
{
    lemma_key_bits();
}

proof fn sendable_f7<A, R>(mode: ModeState, app: Option<AppKind>, youtube: Option<bool>, drag: A)
    ensures
        spec_decide::<A, R>(Bind::F7, mode, app, youtube, drag) matches Decision::Done(_, h) ==> hotkey_ok(h),
{
    lemma_key_bits();
}

proof fn sendable_f8<A, R>(mode: ModeState, app: Option<AppKind>, youtube: Option<bool>, drag: A)
    ensures
        spec_decide::<A, R>(Bind::F8, mode, app, youtube, drag) matches Decision::Done(_, h) ==> hotkey_ok(h),
{
    lemma_key_bits();
}

proof fn sendable_f21<A, R>(mode: ModeState, app: Option<AppKind>, youtube: Option<bool>, drag: A)
    ensures
        spec_decide::<A, R>(Bind::F21, mode, app, youtube, drag) matches Decision::Done(_, h) ==> hotkey_ok(h),
{
    lemma_key_bits();
}

proof fn sendable_f23<A, R>(mode: ModeState, app: Option<AppKind>, youtube: Option<bool>, drag: A)
    ensures
        spec_decide::<A, R>(Bind::F23, mode, app, youtube, drag) matches Decision::Done(_, h) ==> hotkey_ok(h),
{
    lemma_key_bits();
}

} // verus!
