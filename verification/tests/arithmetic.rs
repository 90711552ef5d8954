use rustgb::arithmetic::{
    op_adc, op_add, op_add16, op_and, op_bit, op_cp, op_dec, op_dec16, op_inc, op_inc16, op_or,
    op_res, op_rl, op_rlc, op_rr, op_rrc, op_sbc, op_set, op_sla, op_sra, op_srl, op_sub,
    op_swap, op_xor,
};
use rustgb::flags::Flags;

fn flags(zero: bool, subtract: bool, half_carry: bool, carry: bool) -> Flags {
    Flags { zero, subtract, half_carry, carry }
}

#[test]
fn add_sets_zero_half_carry_and_carry() {
    let mut f = Flags::empty();
    let r = op_add(0x3A, 0xC6, &mut f);
    assert_eq!(r, 0x00);
    assert_eq!(f, flags(true, false, true, true));
    assert_eq!(f.bits(), 0xB0);
}

#[test]
fn add_without_carries() {
    let mut f = flags(true, true, true, true);
    let r = op_add(0x12, 0x34, &mut f);
    assert_eq!(r, 0x46);
    assert_eq!(f, flags(false, false, false, false));
}

#[test]
fn adc_takes_the_carry_in() {
    let mut f = flags(false, false, false, true);
    let r = op_adc(0x0F, 0x00, &mut f);
    assert_eq!(r, 0x10);
    assert_eq!(f, flags(false, false, true, false));
    let mut f = flags(false, false, false, true);
    let r = op_adc(0xFF, 0x00, &mut f);
    assert_eq!(r, 0x00);
    assert_eq!(f, flags(true, false, true, true));
}

#[test]
fn sub_and_cp_report_borrows() {
    let mut f = Flags::empty();
    let r = op_sub(0x10, 0x01, &mut f);
    assert_eq!(r, 0x0F);
    assert_eq!(f, flags(false, true, true, false));
    let mut f = Flags::empty();
    let r = op_sub(0x00, 0x01, &mut f);
    assert_eq!(r, 0xFF);
    assert_eq!(f, flags(false, true, true, true));
    let mut f = Flags::empty();
    op_cp(0x42, 0x42, &mut f);
    assert_eq!(f, flags(true, true, false, false));
}

#[test]
fn sbc_takes_the_borrow_in() {
    let mut f = flags(false, false, false, true);
    let r = op_sbc(0x10, 0x0F, &mut f);
    assert_eq!(r, 0x00);
    assert_eq!(f, flags(true, true, true, false));
    let mut f = flags(false, false, false, true);
    let r = op_sbc(0x00, 0xFF, &mut f);
    assert_eq!(r, 0x00);
    assert_eq!(f, flags(true, true, true, true));
}

#[test]
fn logic_operations_set_their_flags() {
    let mut f = flags(false, true, false, true);
    assert_eq!(op_and(0xF0, 0x0F, &mut f), 0x00);
    assert_eq!(f, flags(true, false, true, false));
    let mut f = flags(true, true, true, true);
    assert_eq!(op_or(0xF0, 0x0F, &mut f), 0xFF);
    assert_eq!(f, flags(false, false, false, false));
    let mut f = flags(false, true, true, true);
    assert_eq!(op_xor(0xAA, 0xAA, &mut f), 0x00);
    assert_eq!(f, flags(true, false, false, false));
}

#[test]
fn inc_and_dec_leave_the_carry_alone() {
    let mut f = flags(false, true, false, true);
    assert_eq!(op_inc(0x0F, &mut f), 0x10);
    assert_eq!(f, flags(false, false, true, true));
    let mut f = flags(false, false, false, false);
    assert_eq!(op_inc(0xFF, &mut f), 0x00);
    assert_eq!(f, flags(true, false, true, false));
    let mut f = flags(false, false, false, true);
    assert_eq!(op_dec(0x10, &mut f), 0x0F);
    assert_eq!(f, flags(false, true, true, true));
    let mut f = flags(false, false, false, false);
    assert_eq!(op_dec(0x01, &mut f), 0x00);
    assert_eq!(f, flags(true, true, false, false));
}

#[test]
fn inc_then_dec_gives_the_value_back() {
    for v in 0..=255u8 {
        for carry in [false, true] {
            let mut f = flags(false, false, false, carry);
            let up = op_inc(v, &mut f);
            let back = op_dec(up, &mut f);
            assert_eq!(back, v);
            assert_eq!(f, flags(v == 0, true, v % 16 == 15, carry));
        }
    }
}

#[test]
fn dec_then_inc_gives_the_value_back() {
    for v in 0..=255u8 {
        let mut f = flags(false, false, false, true);
        let down = op_dec(v, &mut f);
        let back = op_inc(down, &mut f);
        assert_eq!(back, v);
        assert_eq!(f, flags(v == 0, false, v % 16 == 0, true));
    }
}

#[test]
fn sixteen_bit_arithmetic() {
    let mut f = flags(true, true, false, false);
    assert_eq!(op_add16(0x0FFF, 0x0001, &mut f), 0x1000);
    assert_eq!(f, flags(true, false, true, false));
    let mut f = flags(false, true, false, false);
    assert_eq!(op_add16(0xFFFF, 0x0001, &mut f), 0x0000);
    assert_eq!(f, flags(false, false, true, true));
    assert_eq!(op_inc16(0xFFFF), 0x0000);
    assert_eq!(op_dec16(0x0000), 0xFFFF);
    assert_eq!(op_inc16(0x00FF), 0x0100);
}

#[test]
fn bit_res_and_set() {
    let mut f = flags(false, true, false, true);
    op_bit(7, 0x7F, &mut f);
    assert_eq!(f, flags(true, false, true, true));
    let mut f = flags(true, true, false, false);
    op_bit(0, 0x01, &mut f);
    assert_eq!(f, flags(false, false, true, false));
    assert_eq!(op_res(3, 0xFF), 0xF7);
    assert_eq!(op_res(3, 0x00), 0x00);
    assert_eq!(op_set(7, 0x00), 0x80);
    assert_eq!(op_set(0, 0x01), 0x01);
}

#[test]
fn swap_exchanges_the_nibbles() {
    let mut f = flags(false, true, true, true);
    assert_eq!(op_swap(0xA5, &mut f), 0x5A);
    assert_eq!(f, flags(false, false, false, false));
    assert_eq!(op_swap(0x00, &mut f), 0x00);
    assert_eq!(f, flags(true, false, false, false));
}

#[test]
fn rotates_through_the_carry() {
    let mut f = flags(false, false, false, true);
    assert_eq!(op_rl(0x80, &mut f, false), 0x01);
    assert_eq!(f, flags(false, false, false, true));
    let mut f = flags(false, false, false, false);
    assert_eq!(op_rl(0x80, &mut f, false), 0x00);
    assert_eq!(f, flags(true, false, false, true));
    let mut f = flags(false, false, false, true);
    assert_eq!(op_rr(0x01, &mut f, false), 0x80);
    assert_eq!(f, flags(false, false, false, true));
    let mut f = flags(false, false, false, false);
    assert_eq!(op_rr(0x01, &mut f, false), 0x00);
    assert_eq!(f, flags(true, false, false, true));
}

#[test]
fn plain_rotates() {
    let mut f = Flags::empty();
    assert_eq!(op_rlc(0x85, &mut f, false), 0x0B);
    assert_eq!(f, flags(false, false, false, true));
    let mut f = Flags::empty();
    assert_eq!(op_rrc(0x01, &mut f, false), 0x80);
    assert_eq!(f, flags(false, false, false, true));
    let mut f = Flags::empty();
    assert_eq!(op_rrc(0x00, &mut f, false), 0x00);
    assert_eq!(f, flags(true, false, false, false));
}

#[test]
fn short_rotates_on_a_clear_zero() {
    let mut f = flags(true, true, true, false);
    assert_eq!(op_rl(0x00, &mut f, true), 0x00);
    assert_eq!(f, flags(false, false, false, false));
    let mut f = flags(true, false, false, false);
    assert_eq!(op_rlc(0x00, &mut f, true), 0x00);
    assert!(!f.zero);
    let mut f = flags(true, false, false, false);
    assert_eq!(op_rr(0x00, &mut f, true), 0x00);
    assert!(!f.zero);
    let mut f = flags(true, false, false, false);
    assert_eq!(op_rrc(0x00, &mut f, true), 0x00);
    assert!(!f.zero);
}

#[test]
fn rotates_undo_each_other() {
    for v in 0..=255u8 {
        let mut f = Flags::empty();
        let right = op_rrc(v, &mut f, false);
        assert_eq!(op_rlc(right, &mut f, false), v);
        let left = op_rlc(v, &mut f, false);
        assert_eq!(op_rrc(left, &mut f, false), v);
        for carry in [false, true] {
            let mut f = flags(false, false, false, carry);
            let right = op_rr(v, &mut f, false);
            let back = op_rl(right, &mut f, false);
            assert_eq!((back, f.carry), (v, carry));
            let mut f = flags(false, false, false, carry);
            let left = op_rl(v, &mut f, false);
            let back = op_rr(left, &mut f, false);
            assert_eq!((back, f.carry), (v, carry));
        }
    }
}

#[test]
fn shifts() {
    let mut f = Flags::empty();
    assert_eq!(op_sla(0xC1, &mut f), 0x82);
    assert_eq!(f, flags(false, false, false, true));
    let mut f = Flags::empty();
    assert_eq!(op_sra(0x81, &mut f), 0xC0);
    assert_eq!(f, flags(false, false, false, true));
    let mut f = Flags::empty();
    assert_eq!(op_srl(0x81, &mut f), 0x40);
    assert_eq!(f, flags(false, false, false, true));
    let mut f = Flags::empty();
    assert_eq!(op_srl(0x01, &mut f), 0x00);
    assert_eq!(f, flags(true, false, false, true));
}

#[test]
fn flags_pack_into_the_high_nibble() {
    assert_eq!(flags(true, false, false, false).bits(), 0x80);
    assert_eq!(flags(false, true, false, false).bits(), 0x40);
    assert_eq!(flags(false, false, true, false).bits(), 0x20);
    assert_eq!(flags(false, false, false, true).bits(), 0x10);
    assert_eq!(Flags::empty().bits(), 0x00);
    for b in 0..=255u8 {
        assert_eq!(Flags::from_bits_truncate(b).bits(), b & 0xF0);
    }
}
