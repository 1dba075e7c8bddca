use vstd::prelude::*;
use core::ops::{BitAnd, BitOr, Not};
use vstd::std_specs::ops::{BitAndSpecImpl, BitOrSpecImpl, NotSpecImpl};

verus! {

/// A set of modifier keys, one bit each: the low nibble holds the left-hand
/// keys (Ctrl, Shift, Alt, Win), the high nibble the right-hand ones in the
/// same order.
#[derive(Clone, Copy, PartialEq, Eq, Structural, Hash, Debug)]
pub struct Mods(pub u8);

pub const NONE: u8 = 0x00;
pub const LC: u8 = 0x01; // LCtrl
pub const LS: u8 = 0x02; // LShift
pub const LA: u8 = 0x04; // LAlt
pub const LW: u8 = 0x08; // LWin
pub const RC: u8 = 0x10; // RCtrl
pub const RS: u8 = 0x20; // RShift
pub const RA: u8 = 0x40; // RAlt
pub const RW: u8 = 0x80; // RWin

pub const LCS: u8 = 0x03; // LC | LS
pub const LCA: u8 = 0x05; // LC | LA
pub const LCW: u8 = 0x09; // LC | LW
pub const LSA: u8 = 0x06; // LS | LA
pub const LSW: u8 = 0x0A; // LS | LW
pub const LAW: u8 = 0x0C; // LA | LW
pub const RCS: u8 = 0x30; // RC | RS
pub const RCA: u8 = 0x50; // RC | RA
pub const RCW: u8 = 0x90; // RC | RW
pub const RSA: u8 = 0x60; // RS | RA
pub const RSW: u8 = 0xA0; // RS | RW
pub const RAW: u8 = 0xC0; // RA | RW

pub const LCSA: u8 = 0x07; // LCS | LA
pub const LCSW: u8 = 0x0B; // LCS | LW
pub const LCAW: u8 = 0x0D; // LCA | LW
pub const LSAW: u8 = 0x0E; // LSA | LW
pub const RCSA: u8 = 0x70; // RCS | RA
pub const RCSW: u8 = 0xB0; // RCS | RW
pub const RCAW: u8 = 0xD0; // RCA | RW
pub const RSAW: u8 = 0xE0; // RSA | RW

pub const LCSAW: u8 = 0x0F; // LCSA | LW
pub const RCSAW: u8 = 0xF0; // RCSA | RW

// Both hands of one or more modifiers.
pub const LC_RC: u8 = 0x11; // LC | RC
pub const LS_RS: u8 = 0x22; // LS | RS
pub const LA_RA: u8 = 0x44; // LA | RA
pub const LW_RW: u8 = 0x88; // LW | RW
pub const LC_RS: u8 = 0x21; // LC | RS
pub const LCS_RCS: u8 = 0x33; // LCS | RCS
pub const LCSA_RCSA: u8 = 0x77; // LCSA | RCSA

/// Whether `x` holds the bit `mask`, as 0 or 1.
pub open spec fn bit(x: u8, mask: u8) -> nat {
    if x & mask != 0 {
        1
    } else {
        0
    }
}

/// Number of bits set in `x`.
pub open spec fn popcount(x: u8) -> nat {
    bit(x, 1) + bit(x, 2) + bit(x, 4) + bit(x, 8) + bit(x, 16) + bit(x, 32) + bit(x, 64) + bit(x, 128)
}

/// Whether `mask` is a single bit.
pub open spec fn single_bit(mask: u8) -> bool {
    mask == 1 || mask == 2 || mask == 4 || mask == 8 || mask == 16 || mask == 32 || mask == 64 || mask == 128
}

proof fn lemma_bit_disjoint_union(a: u8, b: u8, mask: u8)
    requires
        a & b == 0,
        single_bit(mask),
    ensures
        bit(a | b, mask) == bit(a, mask) + bit(b, mask),
{
    assert((a | b) & mask != 0 <==> (a & mask != 0 || b & mask != 0)) by (bit_vector);
    assert(!(a & mask != 0 && b & mask != 0)) by (bit_vector)
        requires
            a & b == 0,
            mask == 1 || mask == 2 || mask == 4 || mask == 8 || mask == 16 || mask == 32 || mask == 64 || mask
                == 128,
    ;
}

/// The bits of a disjoint union count as the sum of both counts.
pub proof fn lemma_popcount_disjoint_union(a: u8, b: u8)
    requires
        a & b == 0,
    ensures
        popcount(a | b) == popcount(a) + popcount(b),
{
    lemma_bit_disjoint_union(a, b, 1);
    lemma_bit_disjoint_union(a, b, 2);
    lemma_bit_disjoint_union(a, b, 4);
    lemma_bit_disjoint_union(a, b, 8);
    lemma_bit_disjoint_union(a, b, 16);
    lemma_bit_disjoint_union(a, b, 32);
    lemma_bit_disjoint_union(a, b, 64);
    lemma_bit_disjoint_union(a, b, 128);
}

/// No set is counted as empty but the empty set.
pub proof fn lemma_popcount_zero(x: u8)
    ensures
        popcount(x) == 0 <==> x == 0,
        popcount(x) <= 8,
{
    assert(x != 0 ==> (x & 1 != 0 || x & 2 != 0 || x & 4 != 0 || x & 8 != 0 || x & 16 != 0 || x
        & 32 != 0 || x & 64 != 0 || x & 128 != 0)) by (bit_vector);
    assert(x == 0 ==> (x & 1 == 0 && x & 2 == 0 && x & 4 == 0 && x & 8 == 0 && x & 16 == 0 && x
        & 32 == 0 && x & 64 == 0 && x & 128 == 0)) by (bit_vector);
}

impl Mods {
    /// Whether every modifier of `m` is in the set.
    pub open spec fn spec_has(self, m: Mods) -> bool {
        self.0 & m.0 == m.0
    }

    /// Whether the set shares a modifier with `m`.
    pub open spec fn spec_has_any(self, m: Mods) -> bool {
        self.0 & m.0 != 0
    }

    pub fn is_none(self) -> (r: bool)
        ensures
            r == (self.0 == 0),
    {
        self.0 == 0
    }

    pub fn is_any(self) -> (r: bool)
        ensures
            r == (self.0 != 0),
    {
        self.0 != 0
    }

    pub fn has(self, m: Mods) -> (r: bool)
        ensures
            r == self.spec_has(m),
    {
        self.0 & m.0 == m.0
    }

    pub fn has_any(self, m: Mods) -> (r: bool)
        ensures
            r == self.spec_has_any(m),
    {
        self.0 & m.0 != 0
    }

    /// The set with the modifiers of `other` added.
    pub fn or(self, other: Mods) -> (r: Mods)
        ensures
            r.0 == self.0 | other.0,
    {
        Mods(self.0 | other.0)
    }

    /// Number of modifiers in the set.
    pub fn count_ones(self) -> (r: u32)
        ensures
            r == popcount(self.0),
            r <= 8,
    {
        let x = self.0;
        let mut n: u32 = 0;
        if x & 1 != 0 { n = n + 1; }
        if x & 2 != 0 { n = n + 1; }
        if x & 4 != 0 { n = n + 1; }
        if x & 8 != 0 { n = n + 1; }
        if x & 16 != 0 { n = n + 1; }
        if x & 32 != 0 { n = n + 1; }
        if x & 64 != 0 { n = n + 1; }
        if x & 128 != 0 { n = n + 1; }
        n
    }
}

impl BitOr for Mods {
    type Output = Self;

    fn bitor(self, rhs: Self) -> (r: Self::Output) {
        Mods(self.0 | rhs.0)
    }
}

impl BitOrSpecImpl for Mods {
    open spec fn obeys_bitor_spec() -> bool {
        true
    }

    open spec fn bitor_req(self, rhs: Self) -> bool {
        true
    }

    open spec fn bitor_spec(self, rhs: Self) -> Self {
        Mods(self.0 | rhs.0)
    }
}

impl BitAnd for Mods {
    type Output = Self;

    fn bitand(self, rhs: Self) -> (r: Self::Output) {
        Mods(self.0 & rhs.0)
    }
}

impl BitAndSpecImpl for Mods {
    open spec fn obeys_bitand_spec() -> bool {
        true
    }

    open spec fn bitand_req(self, rhs: Self) -> bool {
        true
    }

    open spec fn bitand_spec(self, rhs: Self) -> Self {
        Mods(self.0 & rhs.0)
    }
}

impl Not for Mods {
    type Output = Self;

    fn not(self) -> (r: Self::Output) {
        Mods(!self.0)
    }
}

impl NotSpecImpl for Mods {
    open spec fn obeys_not_spec() -> bool {
        true
    }

    open spec fn not_req(self) -> bool {
        true
    }

    open spec fn not_spec(self) -> Self {
        Mods(!self.0)
    }
}

} // verus!
