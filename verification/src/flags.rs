//! The four condition flags of the processor and their packing into the F
//! register.

use vstd::prelude::*;

verus! {

/// Bit of F that holds the zero flag.
pub const ZERO_BIT: u8 = 0x80;

/// Bit of F that holds the subtract flag.
pub const SUBTRACT_BIT: u8 = 0x40;

/// Bit of F that holds the half-carry flag.
pub const HALF_CARRY_BIT: u8 = 0x20;

/// Bit of F that holds the carry flag.
pub const CARRY_BIT: u8 = 0x10;

/// The condition flags Z, N, H and C. Because the flags are kept as four
/// booleans, the low four bits of the packed byte are zero by construction.
#[derive(Debug, Copy, Clone, PartialEq, Eq, Structural)]
pub struct Flags {
    pub zero: bool,
    pub subtract: bool,
    pub half_carry: bool,
    pub carry: bool,
}

/// The packed byte for four flag values: Z in bit 7, N in bit 6, H in bit 5,
/// C in bit 4.
pub open spec fn pack_flags(zero: bool, subtract: bool, half_carry: bool, carry: bool) -> u8 {
    ((if zero { 128int } else { 0 }) + (if subtract { 64int } else { 0 }) + (if half_carry {
        32int
    } else {
        0
    }) + (if carry { 16int } else { 0 })) as u8
}

/// Bits 7 to 4 of a byte, read through masks, are its quotients by 128, 64, 32
/// and 16 taken modulo 2; and clearing the low nibble keeps them.
pub proof fn lemma_flag_bits(b: u8)
    ensures
        (b & 0x80 != 0) == (b / 128 % 2 == 1),
        (b & 0x40 != 0) == (b / 64 % 2 == 1),
        (b & 0x20 != 0) == (b / 32 % 2 == 1),
        (b & 0x10 != 0) == (b / 16 % 2 == 1),
        b & 0xF0 == (b / 16) * 16,
        (b & 0xF0) & 0x0F == 0,
{
    assert((b & 0x80 != 0) == (b / 128 % 2 == 1) && (b & 0x40 != 0) == (b / 64 % 2 == 1) && (b
        & 0x20 != 0) == (b / 32 % 2 == 1) && (b & 0x10 != 0) == (b / 16 % 2 == 1) && b & 0xF0 == (b
        / 16) * 16 && (b & 0xF0) & 0x0F == 0) by (bit_vector);
}

impl Flags {
    /// The byte that F holds for these flags.
    pub open spec fn spec_bits(self) -> u8 {
        pack_flags(self.zero, self.subtract, self.half_carry, self.carry)
    }

    /// The flags that a byte of F stands for; its low nibble is ignored.
    pub open spec fn spec_from_bits(b: u8) -> Flags {
        Flags {
            zero: b / 128 % 2 == 1,
            subtract: b / 64 % 2 == 1,
            half_carry: b / 32 % 2 == 1,
            carry: b / 16 % 2 == 1,
        }
    }

    /// All four flags clear.
    pub fn empty() -> (r: Flags)
        ensures
            r == (Flags { zero: false, subtract: false, half_carry: false, carry: false }),
            r.spec_bits() == 0,
    {
        Flags { zero: false, subtract: false, half_carry: false, carry: false }
    }

    /// Packs the flags into the byte that F holds.
    pub fn bits(&self) -> (r: u8)
        ensures
            r == self.spec_bits(),
            r % 16 == 0,
            Flags::spec_from_bits(r) == *self,
    {
        let z: u8 = if self.zero { ZERO_BIT } else { 0 };
        let n: u8 = if self.subtract { SUBTRACT_BIT } else { 0 };
        let h: u8 = if self.half_carry { HALF_CARRY_BIT } else { 0 };
        let c: u8 = if self.carry { CARRY_BIT } else { 0 };
        z + n + h + c
    }

    /// Reads the flags out of a byte, ignoring its low nibble.
    pub fn from_bits_truncate(b: u8) -> (r: Flags)
        ensures
            r == Flags::spec_from_bits(b),
            r.spec_bits() == (b / 16) * 16,
    {
        proof {
            lemma_flag_bits(b);
        }
        Flags {
            zero: b & ZERO_BIT != 0,
            subtract: b & SUBTRACT_BIT != 0,
            half_carry: b & HALF_CARRY_BIT != 0,
            carry: b & CARRY_BIT != 0,
        }
    }
}

} // verus!
