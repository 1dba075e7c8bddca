use vstd::prelude::*;

verus! {

/// The layers of the keyboard, by their number.
pub const NORMAL: u8 = 0;
pub const INSERT: u8 = 1;
pub const SELECT: u8 = 2;
pub const SYMBOL: u8 = 3;
pub const U_SYMB: u8 = 4;
pub const MOUSE: u8 = 5;
pub const SYSTEM: u8 = 6;

} // verus!
