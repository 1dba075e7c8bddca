//! Keyboard and mouse remapping core: key codes, modifier sets, input
//! sequences and the hotkey state machine, with the device and clipboard
//! formats that the remapper exchanges with the system.

pub mod input;
pub mod app;
pub mod hid;
pub mod kb;
pub mod misc;
pub mod apps;
pub mod hotkeys;
pub mod config_laws;
