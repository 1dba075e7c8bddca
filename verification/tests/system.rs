use i44::app::clipboard::{push_item, text_payload, ClipItem, FormatFilter, RawData, CF_BITMAP, CF_DIB, CF_DIBV5,
    CF_DSPENHMETAFILE, CF_ENHMETAFILE, CF_OEMTEXT, CF_PALETTE, CF_TEXT, CF_UNICODETEXT};
use i44::hid::device::{access_rights, take_str, Device, DeviceAccess, DeviceInfo, DevicePath, GENERIC_READ,
    GENERIC_WRITE};
use i44::hid::error::{io_error, open_error, probe_error, read_cancelled, read_started, read_waited, wait_millis,
    ErrorKind, ReadStep, ERROR_DEVICE_NOT_CONNECTED, ERROR_FILE_NOT_FOUND, ERROR_IO_INCOMPLETE, ERROR_IO_PENDING,
    ERROR_NOT_FOUND, ERROR_SHARING_VIOLATION, WAIT_TIMEOUT};
use i44::kb::hid_msgs::{HID_HOST, HID_LAYER_UPDATE, HID_SET_LAYER};
use i44::kb::i44::I44;
use i44::misc::audio::{flow_of_scope, mute_change, state_of_code, type_of_scope, DeviceScope, DeviceState,
    DeviceStates, DeviceType, VolumeNotfEvent, ACTIVE, ACTIVE_OR_DISABLED, DISABLED, UNPLUGGED};
use i44::misc::mode::{bit_on_16, layer_of_report, state_of, Mode, ModeState};
use i44::misc::tray_icon::{icon_event, tip_units, IconEvent, IconState, WM_LBUTTONDBLCLK, WM_LBUTTONDOWN,
    WM_RBUTTONDOWN};

fn item(format: u32, data: &[u8]) -> ClipItem {
    ClipItem { format, data: data.to_vec() }
}

#[test]
fn raw_clipboard_framing() {
    let raw = RawData::encode(&vec![item(CF_UNICODETEXT, &[0x61, 0, 0, 0]), item(0xC0FE, &[9])]);
    assert_eq!(
        raw.data(),
        &[13, 0, 0, 0, 4, 0, 0, 0, 0x61, 0, 0, 0, 0xFE, 0xC0, 0, 0, 1, 0, 0, 0, 9, 0, 0, 0, 0][..]
    );
    assert_eq!(raw.size(), 25);
    assert!(!raw.is_empty());
    let back = raw.entries();
    assert_eq!(back.len(), 2);
    assert_eq!(back[0].format, CF_UNICODETEXT);
    assert_eq!(back[0].data, vec![0x61, 0, 0, 0]);
    assert_eq!(back[1].format, 0xC0FE);
    assert_eq!(back[1].data, vec![9]);
}

#[test]
fn raw_clipboard_empty() {
    let raw = RawData::encode(&vec![]);
    assert!(raw.is_empty());
    assert_eq!(raw.size(), 0);
    assert!(raw.entries().is_empty());
}

#[test]
fn raw_items_without_data_left_out() {
    let mut items = Vec::new();
    push_item(&mut items, CF_TEXT, vec![]);
    push_item(&mut items, CF_TEXT, vec![1, 2]);
    assert_eq!(items.len(), 1);
    assert_eq!(items[0].data, vec![1, 2]);
}

#[test]
fn clipboard_format_groups() {
    let mut f = FormatFilter::new();
    // one text format of the synthesized three, the first offered
    assert!(f.accept(CF_UNICODETEXT));
    assert!(!f.accept(CF_TEXT));
    assert!(!f.accept(CF_OEMTEXT));
    // formats whose size cannot be taken
    assert!(!f.accept(CF_BITMAP));
    assert!(!f.accept(CF_ENHMETAFILE));
    assert!(!f.accept(CF_DSPENHMETAFILE));
    // one of the two device-independent bitmaps, and no palette with it
    assert!(f.accept(CF_DIBV5));
    assert!(!f.accept(CF_DIB));
    assert!(!f.accept(CF_PALETTE));
    assert!(f.accept(0xC123));
    let mut g = FormatFilter::new();
    assert!(g.accept(CF_PALETTE));
    assert!(g.accept(CF_OEMTEXT));
    assert!(!g.accept(CF_UNICODETEXT));
}

#[test]
fn clipboard_text() {
    assert_eq!(text_payload("hi"), Some(vec![0x68, 0x69, 0]));
    assert_eq!(text_payload(""), None);
    assert_eq!(text_payload("😀"), Some(vec![0xD83D, 0xDE00, 0]));
}

#[test]
fn hid_errors() {
    assert_eq!(open_error(ERROR_FILE_NOT_FOUND), ErrorKind::DeviceNotConnected);
    assert_eq!(open_error(ERROR_SHARING_VIOLATION), ErrorKind::DeviceInUse);
    assert_eq!(open_error(5), ErrorKind::Os);
    assert_eq!(probe_error(ERROR_SHARING_VIOLATION), ErrorKind::DeviceInUse);
    assert_eq!(probe_error(ERROR_FILE_NOT_FOUND), ErrorKind::Os);
    assert_eq!(io_error(ERROR_DEVICE_NOT_CONNECTED), (ErrorKind::DeviceNotConnected, true));
    assert_eq!(io_error(87), (ErrorKind::Os, false));
}

#[test]
fn hid_read_steps() {
    assert!(matches!(read_started(None), (ReadStep::Done(Ok(())), false)));
    assert!(matches!(read_started(Some(ERROR_IO_PENDING)), (ReadStep::Wait, false)));
    assert!(matches!(
        read_started(Some(ERROR_DEVICE_NOT_CONNECTED)),
        (ReadStep::Done(Err(ErrorKind::DeviceNotConnected)), true)
    ));
    assert!(matches!(read_waited(Some(WAIT_TIMEOUT)), (ReadStep::Cancel, false)));
    assert!(matches!(read_waited(Some(ERROR_IO_INCOMPLETE)), (ReadStep::Cancel, false)));
    assert!(matches!(read_waited(Some(31)), (ReadStep::Done(Err(ErrorKind::Os)), false)));
    assert!(matches!(read_cancelled(None), ReadStep::Done(Err(ErrorKind::TimedOut))));
    assert!(matches!(read_cancelled(Some(ERROR_NOT_FOUND)), ReadStep::Collect));
    assert!(matches!(read_cancelled(Some(6)), ReadStep::Done(Err(ErrorKind::Os))));
    assert_eq!(wait_millis(1500), 1500);
    assert_eq!(wait_millis(u128::MAX), u32::MAX);
}

#[test]
fn hid_access() {
    assert_eq!(access_rights(DeviceAccess::Read), GENERIC_READ);
    assert_eq!(access_rights(DeviceAccess::Write), GENERIC_WRITE);
    assert_eq!(access_rights(DeviceAccess::ReadWrite), 0xC000_0000);
}

fn path_bytes(s: &str) -> Vec<u8> {
    let mut b = vec![8, 0, 0, 0];
    for u in s.encode_utf16().chain(std::iter::once(0)) {
        b.push((u & 0xFF) as u8);
        b.push((u >> 8) as u8);
    }
    b
}

fn info(vendor: u16, product: u16, page: u16, usage: u16) -> DeviceInfo {
    DeviceInfo::new(
        vendor,
        product,
        page,
        usage,
        4,
        33,
        DevicePath::new(path_bytes("\\\\?\\hid#vid_feed")),
        String::from("maker"),
        String::from("board"),
    )
}

#[test]
fn hid_device_info() {
    let i = info(0xFEED, 3, 0xFF60, 0x61);
    assert_eq!(i.vendor_id(), 0xFEED);
    assert_eq!(i.product_id(), 3);
    assert_eq!(i.usage_page(), 0xFF60);
    assert_eq!(i.usage_id(), 0x61);
    assert_eq!(i.input_report_byte_len(), 4);
    assert_eq!(i.output_report_byte_len(), 33);
    assert_eq!(i.path(), "\\\\?\\hid#vid_feed");
    assert_eq!(i.manufacturer(), "maker");
    assert_eq!(i.product(), "board");
    let wide = i.wide_path();
    assert_eq!(wide.last(), Some(&0));
    assert_eq!(wide.len(), 17);
}

#[test]
fn hid_path_lossy() {
    // an unpaired surrogate reads as a replacement character
    let p = DevicePath::new(vec![8, 0, 0, 0, 0x41, 0, 0x00, 0xD8, 0, 0]);
    assert_eq!(p.units(), vec![0x41, 0xD800]);
    assert_eq!(p.to_string(), "A\u{FFFD}");
}

#[test]
fn hid_strings() {
    let mut buf = vec![0x61, 0x62, 0, 0x63];
    assert_eq!(take_str(&mut buf), "ab");
    assert_eq!(buf, vec![0, 0x62, 0, 0x63]);
    assert_eq!(take_str(&mut buf), "");
}

#[test]
fn hid_reports() {
    let i = info(1, 2, 3, 4);
    let mut d = Device::new(&i);
    assert_eq!(d.output().len(), 33);
    d.set_output(&[HID_HOST, 1]);
    assert_eq!(&d.output()[..4], &[0, HID_HOST, 1, 0]);
    d.set_output(&[9]);
    // what the shorter message does not cover stays
    assert_eq!(&d.output()[..4], &[0, 9, 1, 0]);
    let long = vec![7u8; 40];
    d.set_output(&long);
    assert_eq!(d.output()[0], 0);
    assert!(d.output()[1..].iter().all(|b| *b == 7));
    d.set_input(&[0, HID_LAYER_UPDATE, 0, 0x20]);
    let mut input = vec![0u8; 3];
    d.read_input(&mut input);
    assert_eq!(input, vec![HID_LAYER_UPDATE, 0, 0x20]);
    let mut small = vec![5u8; 2];
    d.read_input(&mut small);
    assert_eq!(small, vec![HID_LAYER_UPDATE, 0]);
}

#[test]
fn keyboard_messages() {
    assert_eq!(I44::enable(), vec![HID_HOST, 1]);
    assert_eq!(I44::disable(), vec![HID_HOST, 0]);
    assert_eq!(I44::set_layer(0x0120), vec![HID_SET_LAYER, 0x01, 0x20]);
    assert_eq!(I44::set_mouse_layer(), vec![HID_SET_LAYER, 0x00, 0x20]);
    // the layer comes back from the two bytes
    let m = I44::set_layer(0xBEEF);
    assert_eq!(((m[1] as u16) << 8) | m[2] as u16, 0xBEEF);
}

#[test]
fn keyboard_found_among_devices() {
    assert!(I44::is_i44(&info(0xFEED, 3, 0xFF60, 0x61)));
    assert!(!I44::is_i44(&info(0xFEED, 3, 0x0001, 0x06)));
    let kb = I44::find(vec![info(1, 1, 1, 1), info(0xFEED, 3, 0xFF60, 0x61), info(0xFEED, 3, 0xFF60, 0x61)]);
    assert!(kb.is_some());
    let kb = kb.unwrap();
    assert_eq!(kb.info().vendor_id(), 0xFEED);
    let d = kb.new_device();
    assert_eq!(d.output().len(), 33);
    assert!(I44::find(vec![info(1, 1, 1, 1)]).is_none());
}

#[test]
fn highest_layer_bit() {
    assert_eq!(bit_on_16(0), 0);
    assert_eq!(bit_on_16(1), 0);
    assert_eq!(bit_on_16(2), 1);
    assert_eq!(bit_on_16(0b1010), 3);
    assert_eq!(bit_on_16(0x8000), 15);
    assert_eq!(bit_on_16(0x0100), 8);
}

#[test]
fn layer_modes() {
    assert_eq!(state_of(0b0000_0000), ModeState::Normal);
    assert_eq!(state_of(0b0000_0001), ModeState::Normal);
    assert_eq!(state_of(0b0000_0010), ModeState::Insert);
    assert_eq!(state_of(0b0000_0100), ModeState::Select);
    assert_eq!(state_of(0b0000_1010), ModeState::ISymbol);
    assert_eq!(state_of(0b0000_1100), ModeState::SSymbol);
    assert_eq!(state_of(0b0000_1000), ModeState::NSymbol);
    assert_eq!(state_of(0b0001_0000), ModeState::USymbol);
    assert_eq!(state_of(0b0010_0000), ModeState::Mouse);
    assert_eq!(state_of(0b0100_0000), ModeState::System);
    // lower layers under the highest one change nothing
    assert_eq!(state_of(0b0010_0111), ModeState::Mouse);
}

#[test]
fn mode_updates() {
    let mut m = Mode::new();
    assert_eq!(m.get(), ModeState::Unknown);
    let layer = layer_of_report(&[HID_LAYER_UPDATE, 0x00, 0x0A]).unwrap();
    m.set_state(layer);
    assert_eq!(m.get(), ModeState::ISymbol);
    assert_eq!(layer_of_report(&[HID_HOST, 0x00, 0x0A]), None);
    assert_eq!(layer_of_report(&[HID_LAYER_UPDATE, 0x01, 0x02]), Some(0x0102));
}

#[test]
fn tray_icon_events() {
    assert_eq!(icon_event(WM_LBUTTONDOWN), Some(IconEvent::LClick));
    assert_eq!(icon_event(WM_RBUTTONDOWN), Some(IconEvent::RClick));
    assert_eq!(icon_event(WM_LBUTTONDBLCLK), Some(IconEvent::DClick));
    assert_eq!(icon_event(0x0200), None);
}

#[test]
fn tray_icon_visibility() {
    let mut s = IconState::new(2);
    assert!(s.show().is_some());
    let u = s.display(1).unwrap();
    assert!(u.icon && u.tip && u.state && !u.hidden);
    s.apply(u);
    // shown already: nothing to do
    assert!(s.display(1).is_none());
    assert!(s.show().is_none());
    let t = s.toggle_visibility();
    assert!(t.hidden);
    s.apply(t);
    assert!(s.conceal().is_none());
    let back = s.toggle_visibility();
    assert!(!back.hidden);
    s.apply(back);
    assert!(s.show().is_none());
    // another icon while visible: no change of visibility asked for
    let u = s.display(0).unwrap();
    assert!(u.icon && !u.state);
}

#[test]
fn tray_icon_tip() {
    assert_eq!(tip_units("i44"), vec![0x69, 0x34, 0x34, 0]);
    let long: String = std::iter::repeat('x').take(200).collect();
    let t = tip_units(&long);
    assert_eq!(t.len(), 128);
    assert_eq!(t[127], 0);
}

#[test]
fn audio_types() {
    assert_eq!(state_of_code(ACTIVE), Some(DeviceState::Active));
    assert_eq!(state_of_code(UNPLUGGED), Some(DeviceState::Unplugged));
    assert_eq!(state_of_code(3), None);
    assert_eq!(DeviceStates(ACTIVE).or(DeviceStates(DISABLED)), DeviceStates(ACTIVE_OR_DISABLED));
    assert_eq!(flow_of_scope(DeviceScope::All), 2);
    assert_eq!(type_of_scope(DeviceScope::Capture), Some(DeviceType::Capture));
    assert_eq!(type_of_scope(DeviceScope::All), None);
}

#[test]
fn mic_mute_changes() {
    let ev = VolumeNotfEvent { vol: 50, muted: true, ctx: 0 };
    assert_eq!(mute_change(false, &ev), Some(1));
    assert_eq!(mute_change(true, &ev), None);
    let ev = VolumeNotfEvent { vol: 50, muted: false, ctx: 0 };
    assert_eq!(mute_change(true, &ev), Some(0));
}

use i44::app::clipboard::text_of_units;
use i44::app::main_win::{menu_choice, opens_menu, route_message, MenuChoice, Route, WM_CLOSE, WM_DESTROY,
    WM_ENDSESSION, WM_ICON_MSG, WM_NCCREATE};
use i44::kb::hid_msgs::HID_DEFAULT;
use i44::kb::i44::{default_msg, resumed};
use i44::misc::helpers::{center, drag_to};
use i44::misc::mode::is_known_layer;
use i44::misc::tray_icon::to_wide;

#[test]
fn window_message_routes() {
    assert_eq!(route_message(WM_NCCREATE, 0, 0), Route::NcCreate);
    assert_eq!(route_message(WM_ICON_MSG, 3, 0x0200), Route::Ignore);
    assert_eq!(route_message(WM_ICON_MSG, 3, 0x0204), Route::Icon(3, IconEvent::RClick));
    assert_eq!(route_message(WM_ICON_MSG, 3, 0x0205), Route::IconOther);
    assert_eq!(route_message(WM_CLOSE, 0, 0), Route::Close);
    assert_eq!(route_message(WM_DESTROY, 0, 0), Route::Destroy);
    assert_eq!(route_message(WM_ENDSESSION, 1, 0), Route::EndSession);
    assert_eq!(route_message(WM_ENDSESSION, 0, 0), Route::Other);
    assert_eq!(route_message(0x0218, 0, 0), Route::Other);
}

#[test]
fn tray_menu() {
    assert_eq!(menu_choice(0), Some(MenuChoice::Cancelled));
    assert_eq!(menu_choice(1), Some(MenuChoice::Suspend));
    assert_eq!(menu_choice(2), Some(MenuChoice::Exit));
    assert_eq!(menu_choice(3), None);
    assert!(opens_menu(IconEvent::RClick));
    assert!(!opens_menu(IconEvent::LClick));
}

#[test]
fn window_geometry() {
    assert_eq!(center(0, 0, 101, 50), (50, 25));
    assert_eq!(center(-100, -40, 100, 40), (0, 0));
    assert_eq!(drag_to((10, 20), (100, 100), (90, 130)), (0, 50));
}

#[test]
fn keyboard_after_resume() {
    assert!(resumed(0x12));
    assert!(!resumed(0x04));
    assert_eq!(default_msg(), vec![HID_DEFAULT]);
}

#[test]
fn clipboard_text_units() {
    assert_eq!(text_of_units(&[0x68, 0x69, 0, 0x70]), "hi");
    assert_eq!(text_of_units(&[0x68, 0x69]), "hi");
    assert_eq!(text_of_units(&[0]), "");
    assert_eq!(text_of_units(&[0xD83D, 0x41, 0]), "\u{FFFD}A");
}

#[test]
fn known_layers() {
    assert!(is_known_layer(0b0100_0000));
    assert!(!is_known_layer(0b1000_0000));
    assert!(is_known_layer(0));
}

#[test]
fn wide_text() {
    assert_eq!(to_wide("ab"), vec![0x61, 0x62, 0]);
    assert_eq!(to_wide(""), vec![0]);
}
