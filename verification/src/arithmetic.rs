//! The arithmetic and logic unit: each operation computes a result byte and
//! the condition flags. The contracts state both as arithmetic on the
//! operands.

use vstd::prelude::*;
use crate::flags::Flags;

verus! {

/// 1 for a set carry, 0 for a clear one.
pub open spec fn carry_value(carry: bool) -> int {
    if carry {
        1
    } else {
        0
    }
}

/// Sum and flags of `a + b + carry_in` on 8 bits: H reports a carry out of
/// bit 3, C a carry out of bit 7.
pub open spec fn add8(a: u8, b: u8, carry_in: bool) -> (u8, Flags) {
    let sum = a + b + carry_value(carry_in);
    (
        (sum % 256) as u8,
        Flags {
            zero: sum % 256 == 0,
            subtract: false,
            half_carry: a % 16 + b % 16 + carry_value(carry_in) > 15,
            carry: sum > 255,
        },
    )
}

/// Difference and flags of `a - b - borrow_in` on 8 bits: H reports a borrow
/// into bit 3, C a borrow into bit 7.
pub open spec fn sub8(a: u8, b: u8, borrow_in: bool) -> (u8, Flags) {
    let diff = a - b - carry_value(borrow_in);
    (
        (diff % 256) as u8,
        Flags {
            zero: diff % 256 == 0,
            subtract: true,
            half_carry: a % 16 < b % 16 + carry_value(borrow_in),
            carry: a < b + carry_value(borrow_in),
        },
    )
}

/// `a + 1` on 8 bits and its flags; C keeps its value.
pub open spec fn inc8(a: u8, flags: Flags) -> (u8, Flags) {
    (
        ((a + 1) % 256) as u8,
        Flags { zero: a == 255, subtract: false, half_carry: a % 16 == 15, carry: flags.carry },
    )
}

/// `a - 1` on 8 bits and its flags; C keeps its value.
pub open spec fn dec8(a: u8, flags: Flags) -> (u8, Flags) {
    (
        ((a - 1) % 256) as u8,
        Flags { zero: a == 1, subtract: true, half_carry: a % 16 == 0, carry: flags.carry },
    )
}

/// `a + b` on 16 bits and its flags: H reports a carry out of bit 11, C a
/// carry out of bit 15; Z keeps its value.
pub open spec fn add16(a: u16, b: u16, flags: Flags) -> (u16, Flags) {
    (
        ((a + b) % 65536) as u16,
        Flags {
            zero: flags.zero,
            subtract: false,
            half_carry: a % 4096 + b % 4096 > 4095,
            carry: a + b > 65535,
        },
    )
}

/// The flags of a logic operation with result `result`; `half_carry` is set
/// by AND only.
pub open spec fn logic_flags(result: u8, half_carry: bool) -> Flags {
    Flags { zero: result == 0, subtract: false, half_carry, carry: false }
}

/// `val` rotated left by one bit through the carry: the carry comes in at
/// bit 0 and bit 7 leaves into the carry.
pub open spec fn rl8(val: u8, carry_in: bool) -> (u8, bool) {
    (((val * 2) % 256 + carry_value(carry_in)) as u8, val >= 128)
}

/// `val` rotated right by one bit through the carry: the carry comes in at
/// bit 7 and bit 0 leaves into the carry.
pub open spec fn rr8(val: u8, carry_in: bool) -> (u8, bool) {
    ((val / 2 + 128 * carry_value(carry_in)) as u8, val % 2 == 1)
}

/// `val` rotated left by one bit; bit 7 comes back in at bit 0 and is copied
/// to the carry.
pub open spec fn rlc8(val: u8) -> (u8, bool) {
    (((val * 2) % 256 + val / 128) as u8, val >= 128)
}

/// `val` rotated right by one bit; bit 0 comes back in at bit 7 and is copied
/// to the carry.
pub open spec fn rrc8(val: u8) -> (u8, bool) {
    ((val / 2 + 128 * (val % 2)) as u8, val % 2 == 1)
}

/// `val` shifted left by one bit; bit 7 leaves into the carry.
pub open spec fn sla8(val: u8) -> (u8, bool) {
    (((val * 2) % 256) as u8, val >= 128)
}

/// `val` shifted right by one bit with bit 7 kept; bit 0 leaves into the
/// carry.
pub open spec fn sra8(val: u8) -> (u8, bool) {
    ((val / 2 + 128 * (val / 128)) as u8, val % 2 == 1)
}

/// `val` shifted right by one bit; bit 0 leaves into the carry.
pub open spec fn srl8(val: u8) -> (u8, bool) {
    ((val / 2) as u8, val % 2 == 1)
}

/// `val` with its two nibbles exchanged.
pub open spec fn swap8(val: u8) -> u8 {
    ((val % 16) * 16 + val / 16) as u8
}

/// The flags after a rotate or shift with result `result` and outgoing bit
/// `carry`; the short forms on A clear Z whatever the result.
pub open spec fn shift_flags(result: u8, carry: bool, short_form: bool) -> Flags {
    Flags { zero: !short_form && result == 0, subtract: false, half_carry: false, carry }
}

/// The flags after BIT: Z reports that bit `index` of `val` is clear; C keeps
/// its value.
pub open spec fn bit_flags(index: u8, val: u8, flags: Flags) -> Flags {
    Flags { zero: val & (1u8 << index) == 0, subtract: false, half_carry: true, carry: flags.carry }
}

/// `val` with bit `index` cleared.
pub open spec fn res8(index: u8, val: u8) -> u8 {
    val & !(1u8 << index)
}

/// `val` with bit `index` set.
pub open spec fn set8(index: u8, val: u8) -> u8 {
    val | (1u8 << index)
}

/// What the masks, shifts and ors of the implementation compute, as
/// arithmetic. `c` is a carry, 0 or 1.
pub proof fn lemma_byte_ops(v: u8, c: u8)
    requires
        c <= 1,
    ensures
        v & 0xF == v % 16,
        v & 1 == v % 2,
        v >> 7 == v / 128,
        v >> 1 == v / 2,
        v << 1 == (v * 2) % 256,
        (v << 1) | c == (v * 2) % 256 + c,
        (c << 7) | (v >> 1) == v / 2 + 128 * c,
        (v << 1) | (v >> 7) == (v * 2) % 256 + v / 128,
        ((v & 1) << 7) | (v >> 1) == v / 2 + 128 * (v % 2),
        (v & 0x80) | (v >> 1) == v / 2 + 128 * (v / 128),
        (v << 4) | (v >> 4) == (v % 16) * 16 + v / 16,
{
    assert(v & 0xF == v % 16 && v & 1 == v % 2 && v >> 7 == v / 128 && v >> 1 == v / 2 && v << 1
        == (v * 2) % 256 && (c <= 1 ==> (v << 1) | c == (v * 2) % 256 + c) && (c <= 1 ==> (c << 7)
        | (v >> 1) == v / 2 + 128 * c) && (v << 1) | (v >> 7) == (v * 2) % 256 + v / 128 && ((v
        & 1) << 7) | (v >> 1) == v / 2 + 128 * (v % 2) && (v & 0x80) | (v >> 1) == v / 2 + 128 * (v
        / 128) && (v << 4) | (v >> 4) == (v % 16) * 16 + v / 16) by (bit_vector);
}

/// Masking a word to its low 12 bits is taking it modulo 4096.
pub proof fn lemma_low12(a: u16, b: u16)
    ensures
        a & 0xFFF == a % 4096,
        b & 0xFFF == b % 4096,
{
    assert(a & 0xFFF == a % 4096 && b & 0xFFF == b % 4096) by (bit_vector);
}

/// Masking a byte to its low nibble is taking it modulo 16.
pub proof fn lemma_low_nibble(a: u8, b: u8)
    ensures
        a & 0xF == a % 16,
        b & 0xF == b % 16,
{
    assert(a & 0xF == a % 16 && b & 0xF == b % 16) by (bit_vector);
}

/// ADC: adds `b` and the carry flag to `a`.
pub fn op_adc(a: u8, b: u8, flags: &mut Flags) -> (r: u8)
    ensures
        (r, *final(flags)) == add8(a, b, old(flags).carry),
{
    proof {
        lemma_low_nibble(a, b);
    }
    let carry: u8 = if flags.carry { 1 } else { 0 };
    *flags = Flags::empty();
    let result = a.wrapping_add(b).wrapping_add(carry);
    flags.zero = result == 0;
    flags.half_carry = (a & 0xF) + (b & 0xF) + carry > 0xF;
    flags.carry = (a as u16) + (b as u16) + (carry as u16) > 0xFF;
    result
}

/// ADD: adds `b` to `a`.
pub fn op_add(a: u8, b: u8, flags: &mut Flags) -> (r: u8)
    ensures
        (r, *final(flags)) == add8(a, b, false),
{
    proof {
        lemma_low_nibble(a, b);
    }
    *flags = Flags::empty();
    let result = a.wrapping_add(b);
    flags.zero = result == 0;
    flags.half_carry = (a & 0xF) + (b & 0xF) > 0xF;
    flags.carry = (a as u16) + (b as u16) > 0xFF;
    result
}

/// ADD on 16 bits; Z is left alone.
pub fn op_add16(a: u16, b: u16, flags: &mut Flags) -> (r: u16)
    ensures
        (r, *final(flags)) == add16(a, b, *old(flags)),
{
    proof {
        lemma_low12(a, b);
    }
    let result = a.wrapping_add(b);
    flags.half_carry = (a & 0xFFF) + (b & 0xFFF) > 0xFFF;
    flags.subtract = false;
    flags.carry = (a as u32) + (b as u32) > 0xFFFF;
    result
}

/// AND of `a` and `b`.
pub fn op_and(a: u8, b: u8, flags: &mut Flags) -> (r: u8)
    ensures
        r == a & b,
        *final(flags) == logic_flags(r, true),
{
    *flags = Flags::empty();
    let result = a & b;
    flags.zero = result == 0;
    flags.half_carry = true;
    result
}

/// CP: the flags of `a - b`, with no result kept.
pub fn op_cp(a: u8, b: u8, flags: &mut Flags)
    ensures
        *final(flags) == sub8(a, b, false).1,
        final(flags).zero == (a == b),
{
    proof {
        lemma_low_nibble(a, b);
    }
    *flags = Flags::empty();
    flags.zero = a == b;
    flags.subtract = true;
    flags.half_carry = (a & 0xF) < (b & 0xF);
    flags.carry = a < b;
}

/// DEC: subtracts one; C is left alone.
pub fn op_dec(a: u8, flags: &mut Flags) -> (r: u8)
    ensures
        (r, *final(flags)) == dec8(a, *old(flags)),
{
    proof {
        lemma_low_nibble(a, a);
    }
    let result = a.wrapping_sub(1);
    flags.zero = result == 0;
    flags.subtract = true;
    flags.half_carry = a & 0xF == 0;
    result
}

/// INC: adds one; C is left alone.
pub fn op_inc(a: u8, flags: &mut Flags) -> (r: u8)
    ensures
        (r, *final(flags)) == inc8(a, *old(flags)),
{
    proof {
        lemma_low_nibble(a, a);
    }
    let result = a.wrapping_add(1);
    flags.zero = result == 0;
    flags.subtract = false;
    flags.half_carry = (a & 0xF) == 0xF;
    result
}

/// INC on 16 bits; no flag changes.
pub fn op_inc16(a: u16) -> (r: u16)
    ensures
        r == (a + 1) % 65536,
{
    a.wrapping_add(1)
}

/// DEC on 16 bits; no flag changes.
pub fn op_dec16(a: u16) -> (r: u16)
    ensures
        r == (a - 1) % 65536,
{
    a.wrapping_sub(1)
}

/// OR of `a` and `b`.
pub fn op_or(a: u8, b: u8, flags: &mut Flags) -> (r: u8)
    ensures
        r == a | b,
        *final(flags) == logic_flags(r, false),
{
    *flags = Flags::empty();
    let result = a | b;
    flags.zero = result == 0;
    result
}

/// SBC: subtracts `b` and the carry flag from `a`.
pub fn op_sbc(a: u8, b: u8, flags: &mut Flags) -> (r: u8)
    ensures
        (r, *final(flags)) == sub8(a, b, old(flags).carry),
{
    proof {
        lemma_low_nibble(a, b);
    }
    let carry: u8 = if flags.carry { 1 } else { 0 };
    *flags = Flags::empty();
    let result = a.wrapping_sub(b).wrapping_sub(carry);
    flags.zero = result == 0;
    flags.subtract = true;
    flags.half_carry = (a & 0xF) < (b & 0xF) + carry;
    flags.carry = (a as u16) < (b as u16) + (carry as u16);
    result
}

/// SUB: subtracts `b` from `a`.
pub fn op_sub(a: u8, b: u8, flags: &mut Flags) -> (r: u8)
    ensures
        (r, *final(flags)) == sub8(a, b, false),
{
    proof {
        lemma_low_nibble(a, b);
    }
    *flags = Flags::empty();
    let result = a.wrapping_sub(b);
    flags.zero = result == 0;
    flags.subtract = true;
    flags.half_carry = (a & 0xF) < (b & 0xF);
    flags.carry = (a as u16) < (b as u16);
    result
}

/// XOR of `a` and `b`.
pub fn op_xor(a: u8, b: u8, flags: &mut Flags) -> (r: u8)
    ensures
        r == a ^ b,
        *final(flags) == logic_flags(r, false),
{
    *flags = Flags::empty();
    let result = a ^ b;
    flags.zero = result == 0;
    result
}

/// BIT: tests bit `index` of `val`; C is left alone.
pub fn op_bit(index: u8, val: u8, flags: &mut Flags)
    requires
        index < 8,
    ensures
        *final(flags) == bit_flags(index, val, *old(flags)),
{
    let carry = flags.carry;
    *flags = Flags::empty();
    flags.zero = val & (1u8 << index) == 0;
    flags.half_carry = true;
    flags.carry = carry;
}

/// RES: clears bit `index` of `val`.
pub fn op_res(index: u8, val: u8) -> (r: u8)
    requires
        index < 8,
    ensures
        r == res8(index, val),
{
    val & !(1u8 << index)
}

/// SET: sets bit `index` of `val`.
pub fn op_set(index: u8, val: u8) -> (r: u8)
    requires
        index < 8,
    ensures
        r == set8(index, val),
{
    val | (1u8 << index)
}

/// SWAP: exchanges the nibbles of `val`.
pub fn op_swap(val: u8, flags: &mut Flags) -> (r: u8)
    ensures
        r == swap8(val),
        *final(flags) == logic_flags(r, false),
{
    proof {
        lemma_byte_ops(val, 0);
    }
    *flags = Flags::empty();
    let result = (val << 4) | (val >> 4);
    flags.zero = result == 0;
    result
}

/// RL, or RLA when `is_rla`: rotates left through the carry.
pub fn op_rl(val: u8, flags: &mut Flags, is_rla: bool) -> (r: u8)
    ensures
        r == rl8(val, old(flags).carry).0,
        *final(flags) == shift_flags(r, rl8(val, old(flags).carry).1, is_rla),
{
    let carry: u8 = if flags.carry { 1 } else { 0 };
    proof {
        lemma_byte_ops(val, carry);
    }
    *flags = Flags::empty();
    let result = (val << 1) | carry;
    flags.zero = !is_rla && result == 0;
    flags.carry = val >> 7 == 1;
    result
}

/// RLC, or RLCA when `is_rlca`: rotates left.
pub fn op_rlc(val: u8, flags: &mut Flags, is_rlca: bool) -> (r: u8)
    ensures
        r == rlc8(val).0,
        *final(flags) == shift_flags(r, rlc8(val).1, is_rlca),
{
    proof {
        lemma_byte_ops(val, 0);
    }
    *flags = Flags::empty();
    let carry = val >> 7;
    let result = (val << 1) | (val >> 7);
    flags.zero = !is_rlca && result == 0;
    flags.carry = carry == 1;
    result
}

/// RR, or RRA when `is_rra`: rotates right through the carry.
pub fn op_rr(val: u8, flags: &mut Flags, is_rra: bool) -> (r: u8)
    ensures
        r == rr8(val, old(flags).carry).0,
        *final(flags) == shift_flags(r, rr8(val, old(flags).carry).1, is_rra),
{
    let carry: u8 = if flags.carry { 1 } else { 0 };
    proof {
        lemma_byte_ops(val, carry);
    }
    *flags = Flags::empty();
    let result = (carry << 7) | (val >> 1);
    flags.zero = !is_rra && result == 0;
    flags.carry = val & 1 == 1;
    result
}

/// RRC, or RRCA when `is_rrca`: rotates right.
pub fn op_rrc(val: u8, flags: &mut Flags, is_rrca: bool) -> (r: u8)
    ensures
        r == rrc8(val).0,
        *final(flags) == shift_flags(r, rrc8(val).1, is_rrca),
{
    proof {
        lemma_byte_ops(val, 0);
    }
    *flags = Flags::empty();
    let carry = val & 1;
    let result = ((val & 1) << 7) | (val >> 1);
    flags.zero = !is_rrca && result == 0;
    flags.carry = carry == 1;
    result
}

/// SLA: shifts left.
pub fn op_sla(val: u8, flags: &mut Flags) -> (r: u8)
    ensures
        r == sla8(val).0,
        *final(flags) == shift_flags(r, sla8(val).1, false),
{
    proof {
        lemma_byte_ops(val, 0);
    }
    *flags = Flags::empty();
    let carry = val >> 7;
    let result = val << 1;
    flags.zero = result == 0;
    flags.carry = carry == 1;
    result
}

/// SRA: shifts right and keeps the sign bit.
pub fn op_sra(val: u8, flags: &mut Flags) -> (r: u8)
    ensures
        r == sra8(val).0,
        *final(flags) == shift_flags(r, sra8(val).1, false),
{
    proof {
        lemma_byte_ops(val, 0);
    }
    *flags = Flags::empty();
    let carry = val & 1;
    let result = (val & 0x80) | (val >> 1);
    flags.zero = result == 0;
    flags.carry = carry == 1;
    result
}

/// SRL: shifts right.
pub fn op_srl(val: u8, flags: &mut Flags) -> (r: u8)
    ensures
        r == srl8(val).0,
        *final(flags) == shift_flags(r, srl8(val).1, false),
{
    proof {
        lemma_byte_ops(val, 0);
    }
    *flags = Flags::empty();
    let carry = val & 1;
    let result = val >> 1;
    flags.zero = result == 0;
    flags.carry = carry == 1;
    result
}

/// INC followed by DEC gives the value back; the flags afterwards are those
/// of the decrement: Z reports that the value is 0, N is set, H reports that
/// the incremented value has a zero low nibble, and C is the one before.
pub proof fn lemma_inc_then_dec(v: u8, flags: Flags)
    ensures
        dec8(inc8(v, flags).0, inc8(v, flags).1).0 == v,
        dec8(inc8(v, flags).0, inc8(v, flags).1).1 == (Flags {
            zero: v == 0,
            subtract: true,
            half_carry: v % 16 == 15,
            carry: flags.carry,
        }),
{
}

/// DEC followed by INC gives the value back as well, with the flags of the
/// increment.
pub proof fn lemma_dec_then_inc(v: u8, flags: Flags)
    ensures
        inc8(dec8(v, flags).0, dec8(v, flags).1).0 == v,
        inc8(dec8(v, flags).0, dec8(v, flags).1).1 == (Flags {
            zero: v == 0,
            subtract: false,
            half_carry: v % 16 == 0,
            carry: flags.carry,
        }),
{
}

/// The rotates through the carry undo each other on the nine bits made of
/// the byte and the carry, in either order.
pub proof fn lemma_rl_rr_inverse(v: u8, carry: bool)
    ensures
        rl8(rr8(v, carry).0, rr8(v, carry).1) == (v, carry),
        rr8(rl8(v, carry).0, rl8(v, carry).1) == (v, carry),
{
}

/// The plain rotates undo each other on the byte, in either order, and each
/// leaves in the carry the bit that it moved round.
pub proof fn lemma_rlc_rrc_inverse(v: u8)
    ensures
        rlc8(rrc8(v).0).0 == v,
        rrc8(rlc8(v).0).0 == v,
        rlc8(rrc8(v).0).1 == rrc8(v).1,
        rrc8(rlc8(v).0).1 == rlc8(v).1,
{
}

} // verus!
