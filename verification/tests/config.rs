use i44::apps::chrome::{self, is_youtube};
use i44::apps::explorer::{explorer_window, ExplorerWindow};
use i44::apps::text::{ends_with, str_eq};
use i44::apps::vscode;
use i44::hotkeys::{add_hotkeys, app_of_name, decide, hotkey_table, AppExt, AppKind, Bind, Decision, Effect};
use i44::input::handler::Handler;
use i44::input::hotkey::Hotkey;
use i44::input::keys::{self, Key};
use i44::input::mods::{self, Mods};
use i44::misc::mode::ModeState;

type D = Decision<u8, u16>;

fn done(d: D) -> (Effect, Hotkey<u8, u16>) {
    match d {
        Decision::Done(e, h) => (e, h),
        _ => panic!("not resolved"),
    }
}

fn remap_of(h: Hotkey<u8, u16>) -> (Mods, Key) {
    match h {
        Hotkey::Remap(m, k) => (m, k),
        _ => panic!("not a remap"),
    }
}

#[test]
fn youtube_titles() {
    assert!(is_youtube("Lofi - YouTube - Google Chrome"));
    assert!(!is_youtube("YouTube - Google Chrome"));
    assert!(!is_youtube("Inbox - Google Chrome"));
    assert!(ends_with("abc", ""));
    assert!(!ends_with("", "a"));
    assert!(str_eq("Code", vscode::NAME));
    assert!(!str_eq("Cod", vscode::NAME));
}

#[test]
fn explorer_windows() {
    assert_eq!(explorer_window("CabinetWClass"), Some(ExplorerWindow::Folder));
    assert_eq!(explorer_window("ExploreWClass"), Some(ExplorerWindow::Folder));
    assert_eq!(explorer_window("Progman"), Some(ExplorerWindow::Desktop));
    assert_eq!(explorer_window("WorkerW"), Some(ExplorerWindow::Desktop));
    assert_eq!(explorer_window("Notepad"), None);
    assert_eq!(explorer_window("xCabinetWClass"), None);
}

#[test]
fn app_names() {
    assert_eq!(app_of_name("Code"), AppKind::Code);
    assert_eq!(app_of_name("chrome"), AppKind::Chrome);
    assert_eq!(app_of_name("WindowsTerminal"), AppKind::Terminal);
    assert_eq!(app_of_name("notepad"), AppKind::Other);
}

#[test]
fn decisions_read_what_they_need() {
    // the window is looked at only in the mode where it matters
    assert!(matches!(decide::<u8, u16>(Bind::B, ModeState::Normal, None, None, 0), Decision::NeedName));
    let (e, h) = done(decide(Bind::B, ModeState::Insert, None, None, 0));
    assert_eq!(e, Effect::Nothing);
    assert!(matches!(h, Hotkey::Default));
    let (_, h) = done(decide(Bind::B, ModeState::Normal, Some(AppKind::Code), None, 0));
    assert_eq!(remap_of(h), (Mods(mods::NONE), Key(keys::F12)));
    let (_, h) = done(decide(Bind::B, ModeState::Normal, Some(AppKind::Other), None, 0));
    assert!(matches!(h, Hotkey::Suppress));
    // the title only for Chrome
    assert!(matches!(decide::<u8, u16>(Bind::L, ModeState::Normal, Some(AppKind::Chrome), None, 0), Decision::NeedTitle));
    let (_, h) = done(decide(Bind::L, ModeState::Normal, Some(AppKind::Chrome), Some(true), 0));
    assert_eq!(remap_of(h), (Mods(mods::LA), Key(keys::L)));
    let (_, h) = done(decide(Bind::L, ModeState::Normal, Some(AppKind::Chrome), Some(false), 0));
    assert!(matches!(h, Hotkey::Suppress));
}

#[test]
fn decisions_with_effects() {
    let (e, h) = done(decide(Bind::LsUp, ModeState::Normal, None, None, 0));
    assert_eq!(e, Effect::CenterCursor);
    assert_eq!(remap_of(h), (Mods(mods::NONE), Key(keys::WH_UP_X2)));
    let (e, h) = done(decide(Bind::LsUp, ModeState::Insert, None, None, 0));
    assert_eq!(e, Effect::Nothing);
    assert!(matches!(h, Hotkey::Suppress));
    let (e, _) = done(decide(Bind::Suspend, ModeState::Unknown, None, None, 0));
    assert_eq!(e, Effect::ToggleSuspend);
    let (e, _) = done(decide(Bind::Exit, ModeState::Unknown, None, None, 0));
    assert_eq!(e, Effect::Exit);
    let (e, _) = done(decide(Bind::F23, ModeState::Normal, None, None, 0));
    assert_eq!(e, Effect::ToggleMute);
    let (_, h) = done(decide(Bind::F21, ModeState::Normal, None, None, 5));
    assert!(matches!(h, Hotkey::Action(5)));
    let (_, h) = done(decide(Bind::Ls8, ModeState::ISymbol, None, None, 0));
    assert!(matches!(h, Hotkey::Unicode("->")));
}

#[test]
fn app_shortcuts() {
    assert_eq!(remap_of(chrome::new_tab()), (Mods(mods::LC), Key(keys::T)));
    assert_eq!(remap_of(vscode::go_to_impl()), (Mods(mods::LC), Key(keys::F12)));
}

#[test]
fn configuration_registers_completely() {
    let table = hotkey_table();
    assert_eq!(table.len(), 78);
    let mut h: Handler<Bind> = Handler::new();
    assert!(add_hotkeys(&mut h).is_none());
    for e in &table {
        assert!(h.has_hotkey(e.mods, e.key));
    }
    // a second registration stops at the first hotkey, taken already
    let stop = add_hotkeys(&mut h).unwrap();
    assert_eq!(stop, table[0]);
}

#[test]
fn configured_hotkeys_are_looked_up() {
    let h: Handler<Bind> = Handler::new().add_hotkeys();
    let mut h = h;
    let s: i44::input::handler::Step<Bind, u8, u16> = h.on_keybd(Key(keys::F23), true, true);
    assert_eq!(s.verdict, i44::input::handler_spec::Verdict::Lookup(Bind::F23));
    let s: i44::input::handler::Step<Bind, u8, u16> = h.on_keybd(Key(keys::B), true, true);
    assert_eq!(s.verdict, i44::input::handler_spec::Verdict::Pass);
}

#[test]
fn configured_hotkeys_are_sendable() {
    let modes = [
        ModeState::Normal,
        ModeState::Insert,
        ModeState::Select,
        ModeState::NSymbol,
        ModeState::ISymbol,
        ModeState::SSymbol,
        ModeState::USymbol,
        ModeState::Mouse,
        ModeState::System,
        ModeState::Unknown,
    ];
    let apps = [
        AppKind::Code,
        AppKind::Chrome,
        AppKind::Discord,
        AppKind::Explorer,
        AppKind::Obsidian,
        AppKind::Telegram,
        AppKind::Terminal,
        AppKind::Other,
    ];
    for e in hotkey_table() {
        for m in modes {
            for a in apps {
                for yt in [true, false] {
                    if let Decision::Done(_, h) = decide::<u8, u16>(e.bind, m, Some(a), Some(yt), 0) {
                        assert!(h.is_sendable());
                    }
                }
            }
        }
    }
}
