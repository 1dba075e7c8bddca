pub mod mode;
pub mod tray_icon;
pub mod audio;
pub mod helpers;
pub mod wave;
