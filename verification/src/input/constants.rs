use vstd::prelude::*;

verus! {

// Tags carried in the `extra` field of the inputs that the remapper sends,
// so that its own hooks recognise them when they come back.

/// An input of a batch that the hooks let through untouched.
pub const CALL_NEXT: usize = 0x4434_0001;
/// The last input of a batch: the hooks let it through and count the batch as delivered.
pub const CALL_NEXT_END: usize = 0x4434_0002;
/// A key-up that was held back while a batch was in flight and is sent after it.
pub const CACHED_EVENT: usize = 0x4434_0003;

// Flags of a keyboard input.
pub const KEYEVENTF_EXTENDEDKEY: u32 = 0x0001;
pub const KEYEVENTF_KEYUP: u32 = 0x0002;
pub const KEYEVENTF_UNICODE: u32 = 0x0004;
pub const KEYEVENTF_SCANCODE: u32 = 0x0008;

// Flags of a mouse input; each `..UP` flag is its `..DOWN` flag shifted left by one.
pub const MOUSEEVENTF_LEFTDOWN: u32 = 0x0002;
pub const MOUSEEVENTF_RIGHTDOWN: u32 = 0x0008;
pub const MOUSEEVENTF_MIDDLEDOWN: u32 = 0x0020;
pub const MOUSEEVENTF_XDOWN: u32 = 0x0080;
pub const MOUSEEVENTF_WHEEL: u32 = 0x0800;
pub const MOUSEEVENTF_HWHEEL: u32 = 0x1000;

/// One notch of a wheel.
pub const WHEEL_DELTA: u32 = 120;
/// Mouse data that names the first or the second extra button.
pub const XBUTTON1: u32 = 0x0001;
pub const XBUTTON2: u32 = 0x0002;

} // verus!
