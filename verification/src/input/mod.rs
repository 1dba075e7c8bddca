pub mod constants;
pub mod keys;
pub mod mods;
pub mod helpers;
pub mod extensions;
pub mod input_builder;
pub mod key_sender;
pub mod hotkey;
pub mod masks;
pub mod key_event;
pub mod handler_spec;
pub mod handler;
pub mod handler_laws;
pub mod mod_state;
pub mod hook;
