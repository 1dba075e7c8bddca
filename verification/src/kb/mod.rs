pub mod layers;
pub mod hid_msgs;
pub mod i44;
