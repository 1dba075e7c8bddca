pub mod device;
pub mod error;
