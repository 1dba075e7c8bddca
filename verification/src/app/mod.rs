pub mod clipboard;
pub mod main_win;
