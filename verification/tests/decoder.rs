use rustgb::disassembler::{DecodeError, Disassembler};
use rustgb::isa::{
    ArithmeticInstruction, BitInstruction, Condition, Instruction, JumpInstruction,
    LoadInstruction, MiscInstruction, StackInstruction,
};
use rustgb::memory::{LinearMemory, Memory};
use rustgb::{Register, RegisterPair, RegisterPairMem, RegisterPairStk};

fn decode(bytes: &[u8]) -> Result<(Instruction, u16), DecodeError> {
    let mut mem = Box::new(LinearMemory::<65536>::new());
    let mut addr: u16 = 0x0100;
    for b in bytes {
        mem.write(addr, *b);
        addr += 1;
    }
    Disassembler::new().disassemble(&*mem, 0x0100)
}

#[test]
fn decodes_one_byte_instructions() {
    assert_eq!(decode(&[0x00]), Ok((Instruction::Misc(MiscInstruction::Nop), 0x0101)));
    assert_eq!(decode(&[0x76]), Ok((Instruction::Misc(MiscInstruction::Halt), 0x0101)));
    assert_eq!(decode(&[0x10]), Ok((Instruction::Misc(MiscInstruction::Stop), 0x0101)));
    assert_eq!(decode(&[0xF3]), Ok((Instruction::Misc(MiscInstruction::Di), 0x0101)));
    assert_eq!(decode(&[0xFB]), Ok((Instruction::Misc(MiscInstruction::Ei), 0x0101)));
    assert_eq!(decode(&[0x27]), Ok((Instruction::Misc(MiscInstruction::DaA), 0x0101)));
    assert_eq!(decode(&[0x2F]), Ok((Instruction::Misc(MiscInstruction::Cpl), 0x0101)));
    assert_eq!(decode(&[0x37]), Ok((Instruction::Misc(MiscInstruction::Scf), 0x0101)));
    assert_eq!(decode(&[0x3F]), Ok((Instruction::Misc(MiscInstruction::Ccf), 0x0101)));
    assert_eq!(decode(&[0x07]), Ok((Instruction::Bit(BitInstruction::Rlca), 0x0101)));
    assert_eq!(decode(&[0x0F]), Ok((Instruction::Bit(BitInstruction::Rrca), 0x0101)));
    assert_eq!(decode(&[0x17]), Ok((Instruction::Bit(BitInstruction::Rla), 0x0101)));
    assert_eq!(decode(&[0x1F]), Ok((Instruction::Bit(BitInstruction::Rra), 0x0101)));
    assert_eq!(decode(&[0xC9]), Ok((Instruction::Jump(JumpInstruction::Ret), 0x0101)));
    assert_eq!(decode(&[0xD9]), Ok((Instruction::Jump(JumpInstruction::Reti), 0x0101)));
    assert_eq!(decode(&[0xE9]), Ok((Instruction::Jump(JumpInstruction::JpHL), 0x0101)));
    assert_eq!(decode(&[0xF9]), Ok((Instruction::Stack(StackInstruction::LdSPHL), 0x0101)));
}

#[test]
fn decodes_register_operands() {
    assert_eq!(
        decode(&[0x41]),
        Ok((Instruction::Load(LoadInstruction::LdR8R8(Register::B, Register::C)), 0x0101))
    );
    assert_eq!(
        decode(&[0x7F]),
        Ok((Instruction::Load(LoadInstruction::LdR8R8(Register::A, Register::A)), 0x0101))
    );
    assert_eq!(
        decode(&[0x70]),
        Ok((Instruction::Load(LoadInstruction::LdMemHLR8(Register::B)), 0x0101))
    );
    assert_eq!(
        decode(&[0x6E]),
        Ok((Instruction::Load(LoadInstruction::LdR8MemHL(Register::L)), 0x0101))
    );
    assert_eq!(
        decode(&[0x80]),
        Ok((Instruction::Arithmetic(ArithmeticInstruction::AddAR8(Register::B)), 0x0101))
    );
    assert_eq!(
        decode(&[0x8E]),
        Ok((Instruction::Arithmetic(ArithmeticInstruction::AdcAMemHL), 0x0101))
    );
    assert_eq!(
        decode(&[0x95]),
        Ok((Instruction::Arithmetic(ArithmeticInstruction::SubAR8(Register::L)), 0x0101))
    );
    assert_eq!(
        decode(&[0x9A]),
        Ok((Instruction::Arithmetic(ArithmeticInstruction::SbcAR8(Register::D)), 0x0101))
    );
    assert_eq!(
        decode(&[0xA3]),
        Ok((Instruction::Arithmetic(ArithmeticInstruction::AndAR8(Register::E)), 0x0101))
    );
    assert_eq!(
        decode(&[0xAF]),
        Ok((Instruction::Arithmetic(ArithmeticInstruction::XorAR8(Register::A)), 0x0101))
    );
    assert_eq!(
        decode(&[0xB4]),
        Ok((Instruction::Arithmetic(ArithmeticInstruction::OrAR8(Register::H)), 0x0101))
    );
    assert_eq!(
        decode(&[0xBE]),
        Ok((Instruction::Arithmetic(ArithmeticInstruction::CpAMemHL), 0x0101))
    );
    assert_eq!(
        decode(&[0x34]),
        Ok((Instruction::Arithmetic(ArithmeticInstruction::IncMemHL), 0x0101))
    );
    assert_eq!(
        decode(&[0x3D]),
        Ok((Instruction::Arithmetic(ArithmeticInstruction::DecR8(Register::A)), 0x0101))
    );
    assert_eq!(
        decode(&[0x23]),
        Ok((Instruction::Arithmetic(ArithmeticInstruction::IncR16(RegisterPair::HL)), 0x0101))
    );
    assert_eq!(
        decode(&[0x3B]),
        Ok((Instruction::Arithmetic(ArithmeticInstruction::DecR16(RegisterPair::SP)), 0x0101))
    );
    assert_eq!(
        decode(&[0x19]),
        Ok((Instruction::Arithmetic(ArithmeticInstruction::AddHLR16(RegisterPair::DE)), 0x0101))
    );
    assert_eq!(
        decode(&[0x22]),
        Ok((Instruction::Load(LoadInstruction::LdMemR16A(RegisterPairMem::HLI)), 0x0101))
    );
    assert_eq!(
        decode(&[0x3A]),
        Ok((Instruction::Load(LoadInstruction::LdAMemR16(RegisterPairMem::HLD)), 0x0101))
    );
    assert_eq!(
        decode(&[0xC5]),
        Ok((Instruction::Stack(StackInstruction::PushR16(RegisterPairStk::BC)), 0x0101))
    );
    assert_eq!(decode(&[0xF5]), Ok((Instruction::Stack(StackInstruction::PushAF), 0x0101)));
    assert_eq!(
        decode(&[0xE1]),
        Ok((Instruction::Stack(StackInstruction::PopR16(RegisterPairStk::HL)), 0x0101))
    );
    assert_eq!(decode(&[0xF1]), Ok((Instruction::Stack(StackInstruction::PopAF), 0x0101)));
    assert_eq!(
        decode(&[0xD8]),
        Ok((Instruction::Jump(JumpInstruction::RetCC(Condition::Carry)), 0x0101))
    );
    assert_eq!(decode(&[0xE2]), Ok((Instruction::Load(LoadInstruction::LdhMemCA), 0x0101)));
    assert_eq!(decode(&[0xF2]), Ok((Instruction::Load(LoadInstruction::LdhAMemC), 0x0101)));
}

#[test]
fn decodes_immediate_operands() {
    assert_eq!(
        decode(&[0xC6, 0xC6]),
        Ok((Instruction::Arithmetic(ArithmeticInstruction::AddAN8(0xC6)), 0x0102))
    );
    assert_eq!(
        decode(&[0xFE, 0x90]),
        Ok((Instruction::Arithmetic(ArithmeticInstruction::CpAN8(0x90)), 0x0102))
    );
    assert_eq!(
        decode(&[0x06, 0x42]),
        Ok((Instruction::Load(LoadInstruction::LdR8N8(Register::B, 0x42)), 0x0102))
    );
    assert_eq!(
        decode(&[0x36, 0x99]),
        Ok((Instruction::Load(LoadInstruction::LdMemHLN8(0x99)), 0x0102))
    );
    assert_eq!(
        decode(&[0x21, 0x34, 0x12]),
        Ok((Instruction::Load(LoadInstruction::LdR16N16(RegisterPair::HL, 0x1234)), 0x0103))
    );
    assert_eq!(
        decode(&[0x08, 0xCD, 0xAB]),
        Ok((Instruction::Stack(StackInstruction::LdMemN16SP(0xABCD)), 0x0103))
    );
    assert_eq!(
        decode(&[0xEA, 0x00, 0xC0]),
        Ok((Instruction::Load(LoadInstruction::LdMemN16A(0xC000)), 0x0103))
    );
    assert_eq!(
        decode(&[0xFA, 0x01, 0xC0]),
        Ok((Instruction::Load(LoadInstruction::LdAMemN16(0xC001)), 0x0103))
    );
    assert_eq!(
        decode(&[0xE0, 0x44]),
        Ok((Instruction::Load(LoadInstruction::LdhMemN8A(0x44)), 0x0102))
    );
    assert_eq!(
        decode(&[0xF0, 0x44]),
        Ok((Instruction::Load(LoadInstruction::LdhAMemN8(0x44)), 0x0102))
    );
    assert_eq!(
        decode(&[0xC3, 0x50, 0x01]),
        Ok((Instruction::Jump(JumpInstruction::JpN16(0x0150)), 0x0103))
    );
    assert_eq!(
        decode(&[0xCA, 0x50, 0x01]),
        Ok((Instruction::Jump(JumpInstruction::JpCCN16(Condition::Zero, 0x0150)), 0x0103))
    );
    assert_eq!(
        decode(&[0xCD, 0x34, 0x12]),
        Ok((Instruction::Jump(JumpInstruction::CallN16(0x1234)), 0x0103))
    );
    assert_eq!(
        decode(&[0xD4, 0x34, 0x12]),
        Ok((Instruction::Jump(JumpInstruction::CallCCN16(Condition::NotCarry, 0x1234)), 0x0103))
    );
    assert_eq!(
        decode(&[0x18, 0x05]),
        Ok((Instruction::Jump(JumpInstruction::JrN8(5)), 0x0102))
    );
    assert_eq!(
        decode(&[0x28, 0xFE]),
        Ok((Instruction::Jump(JumpInstruction::JrCCN8(Condition::Zero, -2)), 0x0102))
    );
    assert_eq!(
        decode(&[0x20, 0x80]),
        Ok((Instruction::Jump(JumpInstruction::JrCCN8(Condition::NotZero, -128)), 0x0102))
    );
    assert_eq!(
        decode(&[0xE8, 0xFF]),
        Ok((Instruction::Stack(StackInstruction::AddSPE8(-1)), 0x0102))
    );
    assert_eq!(
        decode(&[0xF8, 0x7F]),
        Ok((Instruction::Stack(StackInstruction::LdHLSPPlusE8(127)), 0x0102))
    );
}

#[test]
fn decodes_restarts() {
    for k in 0..8u8 {
        assert_eq!(
            decode(&[0xC7 + 8 * k]),
            Ok((Instruction::Jump(JumpInstruction::Rst(8 * k as u16)), 0x0101))
        );
    }
}

#[test]
fn decodes_prefixed_instructions() {
    assert_eq!(
        decode(&[0xCB, 0x00]),
        Ok((Instruction::Bit(BitInstruction::Rlc(Register::B)), 0x0102))
    );
    assert_eq!(decode(&[0xCB, 0x0E]), Ok((Instruction::Bit(BitInstruction::RrcMemHL), 0x0102)));
    assert_eq!(
        decode(&[0xCB, 0x11]),
        Ok((Instruction::Bit(BitInstruction::Rl(Register::C)), 0x0102))
    );
    assert_eq!(
        decode(&[0xCB, 0x1A]),
        Ok((Instruction::Bit(BitInstruction::Rr(Register::D)), 0x0102))
    );
    assert_eq!(
        decode(&[0xCB, 0x23]),
        Ok((Instruction::Bit(BitInstruction::Sla(Register::E)), 0x0102))
    );
    assert_eq!(
        decode(&[0xCB, 0x2C]),
        Ok((Instruction::Bit(BitInstruction::Sra(Register::H)), 0x0102))
    );
    assert_eq!(
        decode(&[0xCB, 0x37]),
        Ok((Instruction::Bit(BitInstruction::Swap(Register::A)), 0x0102))
    );
    assert_eq!(decode(&[0xCB, 0x3E]), Ok((Instruction::Bit(BitInstruction::SrlMemHL), 0x0102)));
    assert_eq!(
        decode(&[0xCB, 0x7C]),
        Ok((Instruction::Bit(BitInstruction::Bit(7, Register::H)), 0x0102))
    );
    assert_eq!(decode(&[0xCB, 0x46]), Ok((Instruction::Bit(BitInstruction::BitMemHL(0)), 0x0102)));
    assert_eq!(
        decode(&[0xCB, 0x9D]),
        Ok((Instruction::Bit(BitInstruction::Res(3, Register::L)), 0x0102))
    );
    assert_eq!(decode(&[0xCB, 0xB6]), Ok((Instruction::Bit(BitInstruction::ResMemHL(6)), 0x0102)));
    assert_eq!(
        decode(&[0xCB, 0xC7]),
        Ok((Instruction::Bit(BitInstruction::SetR8(0, Register::A)), 0x0102))
    );
    assert_eq!(decode(&[0xCB, 0xFE]), Ok((Instruction::Bit(BitInstruction::SetMemHL(7)), 0x0102)));
}

#[test]
fn reports_each_illegal_opcode() {
    let illegal = [0xD3u8, 0xDB, 0xDD, 0xE3, 0xE4, 0xEB, 0xEC, 0xED, 0xF4, 0xFC, 0xFD];
    for op in 0..=255u8 {
        let result = decode(&[op, 0x00, 0x00]);
        if illegal.contains(&op) {
            assert_eq!(result, Err(DecodeError::IllegalOpcode(op)));
        } else {
            assert!(result.is_ok());
        }
    }
}

#[test]
fn decoding_again_gives_the_same_instruction() {
    let mut mem = Box::new(LinearMemory::<65536>::new());
    let program = [0x21u8, 0x34, 0x12, 0xCB, 0x7C, 0x28, 0xFE, 0xC6, 0x01, 0xD3];
    let mut addr: u16 = 0x0100;
    for b in program {
        mem.write(addr, b);
        addr += 1;
    }
    let mut first = Disassembler::new();
    let mut second = Disassembler::new();
    for pc in 0x0100..0x010Au16 {
        let a = first.disassemble(&*mem, pc);
        let b = second.disassemble(&*mem, pc);
        let c = first.disassemble(&*mem, pc);
        assert_eq!(a, b);
        assert_eq!(a, c);
    }
}

#[test]
fn the_next_address_is_past_the_whole_instruction() {
    for op in 0..=255u8 {
        let expected: u16 = match op {
            0x01 | 0x11 | 0x21 | 0x31 | 0x08 | 0xC3 | 0xCD | 0xEA | 0xFA => 3,
            0xC2 | 0xCA | 0xD2 | 0xDA | 0xC4 | 0xCC | 0xD4 | 0xDC => 3,
            0x06 | 0x0E | 0x16 | 0x1E | 0x26 | 0x2E | 0x36 | 0x3E => 2,
            0x18 | 0x20 | 0x28 | 0x30 | 0x38 => 2,
            0xC6 | 0xCE | 0xD6 | 0xDE | 0xE6 | 0xEE | 0xF6 | 0xFE => 2,
            0xE0 | 0xF0 | 0xE8 | 0xF8 | 0xCB => 2,
            _ => 1,
        };
        if let Ok((_, next)) = decode(&[op, 0x12, 0x34]) {
            assert_eq!(next, 0x0100 + expected);
        }
    }
}

#[test]
fn decoding_wraps_round_the_address_space() {
    let mut mem = Box::new(LinearMemory::<65536>::new());
    mem.write(0xFFFF, 0xC3);
    mem.write(0x0000, 0x50);
    mem.write(0x0001, 0x01);
    let decoded = Disassembler::new().disassemble(&*mem, 0xFFFF);
    assert_eq!(decoded, Ok((Instruction::Jump(JumpInstruction::JpN16(0x0150)), 0x0002)));
}

#[test]
fn operand_codes() {
    assert_eq!(Register::from_bits(0, 0, 0), Register::B);
    assert_eq!(Register::from_bits(0, 0, 1), Register::C);
    assert_eq!(Register::from_bits(0, 1, 0), Register::D);
    assert_eq!(Register::from_bits(0, 1, 1), Register::E);
    assert_eq!(Register::from_bits(1, 0, 0), Register::H);
    assert_eq!(Register::from_bits(1, 0, 1), Register::L);
    assert_eq!(Register::from_bits(1, 1, 1), Register::A);
    assert_eq!(RegisterPair::from_bits(0, 0), RegisterPair::BC);
    assert_eq!(RegisterPair::from_bits(0, 1), RegisterPair::DE);
    assert_eq!(RegisterPair::from_bits(1, 0), RegisterPair::HL);
    assert_eq!(RegisterPair::from_bits(1, 1), RegisterPair::SP);
    assert_eq!(RegisterPairStk::from_bits(1, 1), RegisterPairStk::AF);
    assert_eq!(RegisterPairStk::from_bits(0, 1), RegisterPairStk::DE);
    assert_eq!(RegisterPairMem::from_bits(1, 0), RegisterPairMem::HLI);
    assert_eq!(RegisterPairMem::from_bits(1, 1), RegisterPairMem::HLD);
    assert_eq!(Condition::from_bits(0, 0), Condition::NotZero);
    assert_eq!(Condition::from_bits(0, 1), Condition::Zero);
    assert_eq!(Condition::from_bits(1, 0), Condition::NotCarry);
    assert_eq!(Condition::from_bits(1, 1), Condition::Carry);
    assert_eq!(Disassembler::bits_tup(0xA5), (1, 0, 1, 0, 0, 1, 0, 1));
    assert_eq!(Disassembler::u16_from_bytes(0x12, 0x34), 0x1234);
}
