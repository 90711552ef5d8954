//! Facts that tie the bit operations of the implementation to the arithmetic
//! of the contracts.

use vstd::prelude::*;

verus! {

/// The 16-bit word with high byte `high` and low byte `low`.
pub open spec fn word(high: u8, low: u8) -> u16 {
    (high * 256 + low) as u16
}

/// Joining two bytes by shift and or gives the word they spell; splitting a
/// word by shift and truncation gives its quotient and remainder by 256.
pub proof fn lemma_word_bytes(high: u8, low: u8, w: u16)
    ensures
        ((high as u16) << 8) | (low as u16) == word(high, low),
        (w >> 8) as u8 == w / 256,
        w as u8 == w % 256,
        word((w / 256) as u8, (w % 256) as u8) == w,
        word(high, low) / 256 == high,
        word(high, low) % 256 == low,
{
    assert(((high as u16) << 8) | (low as u16) == (high as u16) * 256 + (low as u16))
        by (bit_vector);
    assert((w >> 8) as u8 == w / 256 && w as u8 == w % 256) by (bit_vector);
}

/// A byte read as a signed number in two's complement.
pub open spec fn signed(b: u8) -> i8 {
    if b >= 128 {
        (b - 256) as i8
    } else {
        b as i8
    }
}

/// Truncating a byte to `i8` reads it in two's complement.
pub proof fn lemma_signed_byte(b: u8)
    ensures
        b as i8 == signed(b),
{
    assert(b as i8 == (if b >= 128 {
        (b - 256) as i8
    } else {
        b as i8
    })) by (bit_vector);
}

/// A signed byte read as the unsigned byte with the same bits.
pub open spec fn unsigned(e: i8) -> u8 {
    if e < 0 {
        (e + 256) as u8
    } else {
        e as u8
    }
}

/// Truncating a signed byte to `u8` keeps its bits, and the complement of a
/// byte is its distance from 255.
pub proof fn lemma_unsigned_byte(e: i8, b: u8)
    ensures
        e as u8 == unsigned(e),
        !b == 255 - b,
{
    assert(e as u8 == (if e < 0 {
        (e + 256) as u8
    } else {
        e as u8
    })) by (bit_vector);
    assert(!b == 255 - b) by (bit_vector);
}

/// The eight bits of a byte, most significant first, are its quotients by
/// the powers of two taken modulo 2, and they spell the three fields that
/// the opcode tables go by.
pub proof fn lemma_bits_of_byte(byte: u8)
    ensures
        (byte >> 7) & 1 == byte / 128 % 2,
        (byte >> 6) & 1 == byte / 64 % 2,
        (byte >> 5) & 1 == byte / 32 % 2,
        (byte >> 4) & 1 == byte / 16 % 2,
        (byte >> 3) & 1 == byte / 8 % 2,
        (byte >> 2) & 1 == byte / 4 % 2,
        (byte >> 1) & 1 == byte / 2 % 2,
        byte & 1 == byte % 2,
        byte == 128 * (byte / 128 % 2) + 64 * (byte / 64 % 2) + 32 * (byte / 32 % 2) + 16 * (byte
            / 16 % 2) + 8 * (byte / 8 % 2) + 4 * (byte / 4 % 2) + 2 * (byte / 2 % 2) + byte % 2,
        byte / 64 == 2 * (byte / 128 % 2) + byte / 64 % 2,
        byte / 8 % 8 == 4 * (byte / 32 % 2) + 2 * (byte / 16 % 2) + byte / 8 % 2,
        byte % 8 == 4 * (byte / 4 % 2) + 2 * (byte / 2 % 2) + byte % 2,
{
    assert((byte >> 7) & 1 == byte / 128 % 2 && (byte >> 6) & 1 == byte / 64 % 2 && (byte >> 5) & 1
        == byte / 32 % 2 && (byte >> 4) & 1 == byte / 16 % 2 && (byte >> 3) & 1 == byte / 8 % 2
        && (byte >> 2) & 1 == byte / 4 % 2 && (byte >> 1) & 1 == byte / 2 % 2 && byte & 1 == byte
        % 2 && byte == 128 * (byte / 128 % 2) + 64 * (byte / 64 % 2) + 32 * (byte / 32 % 2) + 16
        * (byte / 16 % 2) + 8 * (byte / 8 % 2) + 4 * (byte / 4 % 2) + 2 * (byte / 2 % 2) + byte % 2
        && byte / 64 == 2 * (byte / 128 % 2) + byte / 64 % 2 && byte / 8 % 8 == 4 * (byte / 32 % 2)
        + 2 * (byte / 16 % 2) + byte / 8 % 2 && byte % 8 == 4 * (byte / 4 % 2) + 2 * (byte / 2 % 2)
        + byte % 2) by (bit_vector);
}

} // verus!
