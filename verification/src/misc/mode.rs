use vstd::prelude::*;
use crate::kb::layers::{NORMAL, INSERT, SELECT, SYMBOL, U_SYMB, MOUSE, SYSTEM};
use crate::kb::hid_msgs::HID_LAYER_UPDATE;

verus! {

/// The mode of the keyboard, after its highest active layer.
#[derive(Clone, Copy, PartialEq, Eq, Structural, Debug)]
pub enum ModeState {
    Normal,
    Insert,
    Select,
    /// Normal with the symbol layer.
    NSymbol,
    /// Insert with the symbol layer.
    ISymbol,
    /// Select with the symbol layer.
    SSymbol,
    /// Upper symbols.
    USymbol,
    Mouse,
    System,
    /// Not known yet.
    Unknown,
}

/// The position of the highest bit of `bits` (0 for 0 and 1).
pub open spec fn high_bit_pos(bits: u16) -> u8 {
    if bits >> 15u16 != 0 {
        15
    } else if bits >> 14u16 != 0 {
        14
    } else if bits >> 13u16 != 0 {
        13
    } else if bits >> 12u16 != 0 {
        12
    } else if bits >> 11u16 != 0 {
        11
    } else if bits >> 10u16 != 0 {
        10
    } else if bits >> 9u16 != 0 {
        9
    } else if bits >> 8u16 != 0 {
        8
    } else if bits >> 7u16 != 0 {
        7
    } else if bits >> 6u16 != 0 {
        6
    } else if bits >> 5u16 != 0 {
        5
    } else if bits >> 4u16 != 0 {
        4
    } else if bits >> 3u16 != 0 {
        3
    } else if bits >> 2u16 != 0 {
        2
    } else if bits >> 1u16 != 0 {
        1
    } else {
        0
    }
}

/// The position found by halving the range of bits four times.
spec fn bisect(bits: u16) -> u8 {
    let n1: u8 = if bits >> 8u16 != 0 { 8 } else { 0 };
    let b1: u16 = if bits >> 8u16 != 0 { bits >> 8u16 } else { bits };
    let n2: u8 = if b1 >> 4u16 != 0 { (n1 + 4) as u8 } else { n1 };
    let b2: u16 = if b1 >> 4u16 != 0 { b1 >> 4u16 } else { b1 };
    let n3: u8 = if b2 >> 2u16 != 0 { (n2 + 2) as u8 } else { n2 };
    let b3: u16 = if b2 >> 2u16 != 0 { b2 >> 2u16 } else { b2 };
    if b3 >> 1u16 != 0 { (n3 + 1) as u8 } else { n3 }
}

/// The position of the highest bit of `bits` (0 for 0 and 1).
pub fn bit_on_16(bits: u16) -> (r: u8)
    ensures
        r == high_bit_pos(bits),
{
    let ghost b0 = bits;
    let mut bits = bits;
    let mut n: u8 = 0;
    if bits >> 8 != 0 {
        n = n + 8;
        bits = bits >> 8;
    }
    if bits >> 4 != 0 {
        n = n + 4;
        bits = bits >> 4;
    }
    if bits >> 2 != 0 {
        n = n + 2;
        bits = bits >> 2;
    }
    if bits >> 1 != 0 {
        n = n + 1;
    }
    assert(n == bisect(b0));
    assert(bisect(b0) == high_bit_pos(b0)) by (bit_vector);
    n
}

/// The mode of the highest layer of `layer`; the symbol layer combines
/// with the insert and select layers below it.
pub open spec fn spec_state_of(layer: u16) -> ModeState {
    let top = high_bit_pos(layer);
    if top == NORMAL {
        ModeState::Normal
    } else if top == INSERT {
        ModeState::Insert
    } else if top == SELECT {
        ModeState::Select
    } else if top == SYMBOL {
        if layer & 0x2 != 0 {
            ModeState::ISymbol
        } else if layer & 0x4 != 0 {
            ModeState::SSymbol
        } else {
            ModeState::NSymbol
        }
    } else if top == U_SYMB {
        ModeState::USymbol
    } else if top == MOUSE {
        ModeState::Mouse
    } else {
        ModeState::System
    }
}

/// Whether the highest layer of `layer` is one the keyboard has.
pub open spec fn known_layer(layer: u16) -> bool {
    high_bit_pos(layer) <= SYSTEM
}

/// Whether the highest layer of `layer` is one the keyboard has.
pub fn is_known_layer(layer: u16) -> (r: bool)
    ensures
        r == known_layer(layer),
{
    bit_on_16(layer) <= SYSTEM
}

/// The mode of a set of active layers.
pub fn state_of(layer: u16) -> (r: ModeState)
    requires
        known_layer(layer),
    ensures
        r == spec_state_of(layer),
{
    let top = bit_on_16(layer);
    if top == NORMAL {
        ModeState::Normal
    } else if top == INSERT {
        ModeState::Insert
    } else if top == SELECT {
        ModeState::Select
    } else if top == SYMBOL {
        if layer & 0x2 != 0 {
            ModeState::ISymbol
        } else if layer & 0x4 != 0 {
            ModeState::SSymbol
        } else {
            ModeState::NSymbol
        }
    } else if top == U_SYMB {
        ModeState::USymbol
    } else if top == MOUSE {
        ModeState::Mouse
    } else {
        ModeState::System
    }
}

/// The layers that a report of the keyboard announces, if it is a layer update.
pub fn layer_of_report(report: &[u8]) -> (r: Option<u16>)
    requires
        report@.len() >= 3,
    ensures
        r == if report@[0] == HID_LAYER_UPDATE {
            Some(((report@[1] as u16) << 8u16) | report@[2] as u16)
        } else {
            None
        },
{
    if report[0] == HID_LAYER_UPDATE {
        Some(((report[1] as u16) << 8) | report[2] as u16)
    } else {
        None
    }
}

/// The mode of the keyboard, as its layer updates tell it.
pub struct Mode {
    state: ModeState,
}

impl Mode {
    pub closed spec fn view(&self) -> ModeState {
        self.state
    }

    /// No mode known yet.
    pub fn new() -> (r: Self)
        ensures
            r.view() == ModeState::Unknown,
    {
        Mode { state: ModeState::Unknown }
    }

    pub fn get(&self) -> (r: ModeState)
        ensures
            r == self.view(),
    {
        self.state
    }

    /// Takes the keyboard's new active layers.
    pub fn set_state(&mut self, layer: u16)
        requires
            known_layer(layer),
        ensures
            final(self).view() == spec_state_of(layer),
    {
        self.state = state_of(layer);
    }
}

/// The highest layer decides: layer bits below the highest one change
/// nothing, but for the insert and select layers under the symbol layer.
pub proof fn law_highest_layer_decides(layer: u16, low: u16)
    requires
        known_layer(layer),
        layer != 0,
        low < (1u16 << high_bit_pos(layer) as u16),
        high_bit_pos(layer) != SYMBOL,
    ensures
        known_layer(layer | low),
        spec_state_of(layer | low) == spec_state_of(layer),
{
    assert(layer != 0 && low < (1u16 << high_bit_pos(layer) as u16) ==> high_bit_pos(layer | low) == high_bit_pos(
        layer,
    )) by (bit_vector);
}

/// The mode of each set of active layers, by the highest layer: the base
/// layer (or none) is Normal, then Insert, Select, the symbol layer (on its
/// own, or over Insert or Select), the upper symbol layer, Mouse and System.
pub proof fn law_mode_of_layers(layer: u16)
    ensures
        layer < 2 ==> spec_state_of(layer) == ModeState::Normal,
        2 <= layer < 4 ==> spec_state_of(layer) == ModeState::Insert,
        4 <= layer < 8 ==> spec_state_of(layer) == ModeState::Select,
        8 <= layer < 16 ==> spec_state_of(layer) == if layer & 0x2 != 0 {
            ModeState::ISymbol
        } else if layer & 0x4 != 0 {
            ModeState::SSymbol
        } else {
            ModeState::NSymbol
        },
        16 <= layer < 32 ==> spec_state_of(layer) == ModeState::USymbol,
        32 <= layer < 64 ==> spec_state_of(layer) == ModeState::Mouse,
        64 <= layer < 128 ==> spec_state_of(layer) == ModeState::System,
        known_layer(layer) <==> layer < 128,
{
    assert((layer < 2 ==> high_bit_pos(layer) == 0) && (2 <= layer < 4 ==> high_bit_pos(layer) == 1) && (4 <= layer
        < 8 ==> high_bit_pos(layer) == 2) && (8 <= layer < 16 ==> high_bit_pos(layer) == 3) && (16 <= layer < 32
        ==> high_bit_pos(layer) == 4) && (32 <= layer < 64 ==> high_bit_pos(layer) == 5) && (64 <= layer < 128
        ==> high_bit_pos(layer) == 6) && (layer >= 128 ==> high_bit_pos(layer) >= 7)) by (bit_vector);
}

} // verus!
