//! The instruction decoder: from the bytes at an address to one instruction
//! and the address that follows it.

use vstd::prelude::*;
use crate::bits::{lemma_bits_of_byte, lemma_signed_byte, lemma_word_bytes, signed, word};
use crate::isa::{
    ArithmeticInstruction, BitInstruction, Condition, Instruction, JumpInstruction,
    LoadInstruction, MiscInstruction, StackInstruction,
};
use crate::memory::Memory;
use crate::{Register, RegisterPair, RegisterPairMem, RegisterPairStk};

verus! {

/// Why no instruction could be decoded.
#[derive(Debug, Copy, Clone, PartialEq, Eq, Structural)]
pub enum DecodeError {
    /// The byte is none of the defined opcodes.
    IllegalOpcode(u8),
}

/// The 8-bit operation on A that the three-bit code `y` selects, applied to
/// register `r`.
pub open spec fn alu_r8(y: int, r: Register) -> ArithmeticInstruction {
    if y == 0 {
        ArithmeticInstruction::AddAR8(r)
    } else if y == 1 {
        ArithmeticInstruction::AdcAR8(r)
    } else if y == 2 {
        ArithmeticInstruction::SubAR8(r)
    } else if y == 3 {
        ArithmeticInstruction::SbcAR8(r)
    } else if y == 4 {
        ArithmeticInstruction::AndAR8(r)
    } else if y == 5 {
        ArithmeticInstruction::XorAR8(r)
    } else if y == 6 {
        ArithmeticInstruction::OrAR8(r)
    } else {
        ArithmeticInstruction::CpAR8(r)
    }
}

/// The 8-bit operation on A that the code `y` selects, applied to the byte
/// at HL.
pub open spec fn alu_mem_hl(y: int) -> ArithmeticInstruction {
    if y == 0 {
        ArithmeticInstruction::AddAMemHL
    } else if y == 1 {
        ArithmeticInstruction::AdcAMemHL
    } else if y == 2 {
        ArithmeticInstruction::SubAMemHL
    } else if y == 3 {
        ArithmeticInstruction::SbcAMemHL
    } else if y == 4 {
        ArithmeticInstruction::AndAMemHL
    } else if y == 5 {
        ArithmeticInstruction::XorAMemHL
    } else if y == 6 {
        ArithmeticInstruction::OrAMemHL
    } else {
        ArithmeticInstruction::CpAMemHL
    }
}

/// The 8-bit operation on A that the code `y` selects, applied to the
/// immediate `n`.
pub open spec fn alu_n8(y: int, n: u8) -> ArithmeticInstruction {
    if y == 0 {
        ArithmeticInstruction::AddAN8(n)
    } else if y == 1 {
        ArithmeticInstruction::AdcAN8(n)
    } else if y == 2 {
        ArithmeticInstruction::SubAN8(n)
    } else if y == 3 {
        ArithmeticInstruction::SbcAN8(n)
    } else if y == 4 {
        ArithmeticInstruction::AndAN8(n)
    } else if y == 5 {
        ArithmeticInstruction::XorAN8(n)
    } else if y == 6 {
        ArithmeticInstruction::OrAN8(n)
    } else {
        ArithmeticInstruction::CpAN8(n)
    }
}

/// The rotate, shift or swap that the code `y` selects in the prefixed
/// table, applied to register `r`.
pub open spec fn shift_r8(y: int, r: Register) -> BitInstruction {
    if y == 0 {
        BitInstruction::Rlc(r)
    } else if y == 1 {
        BitInstruction::Rrc(r)
    } else if y == 2 {
        BitInstruction::Rl(r)
    } else if y == 3 {
        BitInstruction::Rr(r)
    } else if y == 4 {
        BitInstruction::Sla(r)
    } else if y == 5 {
        BitInstruction::Sra(r)
    } else if y == 6 {
        BitInstruction::Swap(r)
    } else {
        BitInstruction::Srl(r)
    }
}

/// The rotate, shift or swap that the code `y` selects in the prefixed
/// table, applied to the byte at HL.
pub open spec fn shift_mem_hl(y: int) -> BitInstruction {
    if y == 0 {
        BitInstruction::RlcMemHL
    } else if y == 1 {
        BitInstruction::RrcMemHL
    } else if y == 2 {
        BitInstruction::RlMemHL
    } else if y == 3 {
        BitInstruction::RrMemHL
    } else if y == 4 {
        BitInstruction::SlaMemHL
    } else if y == 5 {
        BitInstruction::SraMemHL
    } else if y == 6 {
        BitInstruction::SwapMemHL
    } else {
        BitInstruction::SrlMemHL
    }
}

/// The instruction that the second byte `op` of a prefixed opcode stands
/// for. With `x = op / 64`, `y = op / 8 % 8` and `z = op % 8`: `x` picks
/// rotate/shift, BIT, RES or SET, `y` the operation or the bit, `z` the
/// register, 6 standing for the byte at HL.
pub open spec fn decode_prefixed(op: u8) -> BitInstruction {
    let x = op / 64;
    let y = op / 8 % 8;
    let z = op % 8;
    if x == 0 {
        if z == 6 {
            shift_mem_hl(y as int)
        } else {
            shift_r8(y as int, Register::of_code(z as int))
        }
    } else if x == 1 {
        if z == 6 {
            BitInstruction::BitMemHL(y)
        } else {
            BitInstruction::Bit(y, Register::of_code(z as int))
        }
    } else if x == 2 {
        if z == 6 {
            BitInstruction::ResMemHL(y)
        } else {
            BitInstruction::Res(y, Register::of_code(z as int))
        }
    } else {
        if z == 6 {
            BitInstruction::SetMemHL(y)
        } else {
            BitInstruction::SetR8(y, Register::of_code(z as int))
        }
    }
}

/// The instruction whose opcode is `op` when the opcode lies in the first
/// quarter of the table (`op < 0x40`); `b1` and `b2` are the two bytes that
/// follow it.
pub open spec fn decode_block0(op: u8, b1: u8, b2: u8) -> Instruction {
    let y = op / 8 % 8;
    let z = op % 8;
    let p = y / 2;
    let q = y % 2;
    if z == 0 {
        if y == 0 {
            Instruction::Misc(MiscInstruction::Nop)
        } else if y == 1 {
            Instruction::Stack(StackInstruction::LdMemN16SP(word(b2, b1)))
        } else if y == 2 {
            Instruction::Misc(MiscInstruction::Stop)
        } else if y == 3 {
            Instruction::Jump(JumpInstruction::JrN8(signed(b1)))
        } else {
            Instruction::Jump(JumpInstruction::JrCCN8(Condition::of_code(y - 4), signed(b1)))
        }
    } else if z == 1 {
        if q == 0 {
            Instruction::Load(
                LoadInstruction::LdR16N16(RegisterPair::of_code(p as int), word(b2, b1)),
            )
        } else {
            Instruction::Arithmetic(
                ArithmeticInstruction::AddHLR16(RegisterPair::of_code(p as int)),
            )
        }
    } else if z == 2 {
        if q == 0 {
            Instruction::Load(LoadInstruction::LdMemR16A(RegisterPairMem::of_code(p as int)))
        } else {
            Instruction::Load(LoadInstruction::LdAMemR16(RegisterPairMem::of_code(p as int)))
        }
    } else if z == 3 {
        if q == 0 {
            Instruction::Arithmetic(ArithmeticInstruction::IncR16(RegisterPair::of_code(p as int)))
        } else {
            Instruction::Arithmetic(ArithmeticInstruction::DecR16(RegisterPair::of_code(p as int)))
        }
    } else if z == 4 {
        if y == 6 {
            Instruction::Arithmetic(ArithmeticInstruction::IncMemHL)
        } else {
            Instruction::Arithmetic(ArithmeticInstruction::IncR8(Register::of_code(y as int)))
        }
    } else if z == 5 {
        if y == 6 {
            Instruction::Arithmetic(ArithmeticInstruction::DecMemHL)
        } else {
            Instruction::Arithmetic(ArithmeticInstruction::DecR8(Register::of_code(y as int)))
        }
    } else if z == 6 {
        if y == 6 {
            Instruction::Load(LoadInstruction::LdMemHLN8(b1))
        } else {
            Instruction::Load(LoadInstruction::LdR8N8(Register::of_code(y as int), b1))
        }
    } else {
        if y == 0 {
            Instruction::Bit(BitInstruction::Rlca)
        } else if y == 1 {
            Instruction::Bit(BitInstruction::Rrca)
        } else if y == 2 {
            Instruction::Bit(BitInstruction::Rla)
        } else if y == 3 {
            Instruction::Bit(BitInstruction::Rra)
        } else if y == 4 {
            Instruction::Misc(MiscInstruction::DaA)
        } else if y == 5 {
            Instruction::Misc(MiscInstruction::Cpl)
        } else if y == 6 {
            Instruction::Misc(MiscInstruction::Scf)
        } else {
            Instruction::Misc(MiscInstruction::Ccf)
        }
    }
}

/// The instruction whose opcode is `op` when the opcode lies in the second
/// quarter of the table (`0x40 <= op < 0x80`): the register-to-register
/// loads, with HALT in the place of a load from the byte at HL to itself.
pub open spec fn decode_block1(op: u8) -> Instruction {
    let y = op / 8 % 8;
    let z = op % 8;
    if y == 6 && z == 6 {
        Instruction::Misc(MiscInstruction::Halt)
    } else if y == 6 {
        Instruction::Load(LoadInstruction::LdMemHLR8(Register::of_code(z as int)))
    } else if z == 6 {
        Instruction::Load(LoadInstruction::LdR8MemHL(Register::of_code(y as int)))
    } else {
        Instruction::Load(
            LoadInstruction::LdR8R8(Register::of_code(y as int), Register::of_code(z as int)),
        )
    }
}

/// The instruction whose opcode is `op` when the opcode lies in the third
/// quarter of the table (`0x80 <= op < 0xC0`): arithmetic on A with a
/// register or the byte at HL.
pub open spec fn decode_block2(op: u8) -> Instruction {
    let y = op / 8 % 8;
    let z = op % 8;
    if z == 6 {
        Instruction::Arithmetic(alu_mem_hl(y as int))
    } else {
        Instruction::Arithmetic(alu_r8(y as int, Register::of_code(z as int)))
    }
}

/// The instruction whose opcode is `op` when the opcode lies in the last
/// quarter of the table (`op >= 0xC0`), if the opcode is defined there; `b1`
/// and `b2` are the two bytes that follow it.
pub open spec fn decode_block3(op: u8, b1: u8, b2: u8) -> Option<Instruction> {
    let y = op / 8 % 8;
    let z = op % 8;
    let p = y / 2;
    let q = y % 2;
    if z == 0 {
        if y < 4 {
            Some(Instruction::Jump(JumpInstruction::RetCC(Condition::of_code(y as int))))
        } else if y == 4 {
            Some(Instruction::Load(LoadInstruction::LdhMemN8A(b1)))
        } else if y == 5 {
            Some(Instruction::Stack(StackInstruction::AddSPE8(signed(b1))))
        } else if y == 6 {
            Some(Instruction::Load(LoadInstruction::LdhAMemN8(b1)))
        } else {
            Some(Instruction::Stack(StackInstruction::LdHLSPPlusE8(signed(b1))))
        }
    } else if z == 1 {
        if q == 0 {
            if p == 3 {
                Some(Instruction::Stack(StackInstruction::PopAF))
            } else {
                Some(
                    Instruction::Stack(StackInstruction::PopR16(RegisterPairStk::of_code(p as int))),
                )
            }
        } else if p == 0 {
            Some(Instruction::Jump(JumpInstruction::Ret))
        } else if p == 1 {
            Some(Instruction::Jump(JumpInstruction::Reti))
        } else if p == 2 {
            Some(Instruction::Jump(JumpInstruction::JpHL))
        } else {
            Some(Instruction::Stack(StackInstruction::LdSPHL))
        }
    } else if z == 2 {
        if y < 4 {
            Some(
                Instruction::Jump(
                    JumpInstruction::JpCCN16(Condition::of_code(y as int), word(b2, b1)),
                ),
            )
        } else if y == 4 {
            Some(Instruction::Load(LoadInstruction::LdhMemCA))
        } else if y == 5 {
            Some(Instruction::Load(LoadInstruction::LdMemN16A(word(b2, b1))))
        } else if y == 6 {
            Some(Instruction::Load(LoadInstruction::LdhAMemC))
        } else {
            Some(Instruction::Load(LoadInstruction::LdAMemN16(word(b2, b1))))
        }
    } else if z == 3 {
        if y == 0 {
            Some(Instruction::Jump(JumpInstruction::JpN16(word(b2, b1))))
        } else if y == 1 {
            Some(Instruction::Bit(decode_prefixed(b1)))
        } else if y == 6 {
            Some(Instruction::Misc(MiscInstruction::Di))
        } else if y == 7 {
            Some(Instruction::Misc(MiscInstruction::Ei))
        } else {
            None
        }
    } else if z == 4 {
        if y < 4 {
            Some(
                Instruction::Jump(
                    JumpInstruction::CallCCN16(Condition::of_code(y as int), word(b2, b1)),
                ),
            )
        } else {
            None
        }
    } else if z == 5 {
        if q == 0 {
            if p == 3 {
                Some(Instruction::Stack(StackInstruction::PushAF))
            } else {
                Some(
                    Instruction::Stack(StackInstruction::PushR16(RegisterPairStk::of_code(p as int))),
                )
            }
        } else if p == 0 {
            Some(Instruction::Jump(JumpInstruction::CallN16(word(b2, b1))))
        } else {
            None
        }
    } else if z == 6 {
        Some(Instruction::Arithmetic(alu_n8(y as int, b1)))
    } else {
        Some(Instruction::Jump(JumpInstruction::Rst((y * 8) as u16)))
    }
}

/// The instruction that starts with opcode `op`, followed in memory by the
/// bytes `b1` and `b2`; `None` when the opcode is undefined. An 8-bit
/// immediate is `b1`, a 16-bit one has `b1` as its low byte and `b2` as its
/// high byte.
pub open spec fn decode(op: u8, b1: u8, b2: u8) -> Option<Instruction> {
    if op < 0x40 {
        Some(decode_block0(op, b1, b2))
    } else if op < 0x80 {
        Some(decode_block1(op))
    } else if op < 0xC0 {
        Some(decode_block2(op))
    } else {
        decode_block3(op, b1, b2)
    }
}

/// The length in bytes that the opcode `op` encodes: the opcode itself, the
/// second opcode byte after the prefix 0xCB, and one or two bytes of
/// immediate operand.
pub open spec fn length(op: u8) -> int {
    let y = op / 8 % 8;
    let z = op % 8;
    if op < 0x40 {
        if z == 1 && y % 2 == 0 || op == 0x08 {
            3
        } else if z == 6 || z == 0 && y >= 3 {
            2
        } else {
            1
        }
    } else if op < 0xC0 {
        1
    } else if z == 2 && (y < 4 || y == 5 || y == 7) || z == 4 && y < 4 || op == 0xC3 || op == 0xCD {
        3
    } else if z == 6 || z == 0 && y >= 4 || op == 0xCB {
        2
    } else {
        1
    }
}

/// The number of bytes that an instruction takes in memory: 1 for the
/// opcode, 1 more for a prefixed instruction, and its immediate operand.
pub open spec fn encoded_size(i: Instruction) -> int {
    match i {
        Instruction::Arithmetic(a) => match a {
            ArithmeticInstruction::AdcAN8(_) | ArithmeticInstruction::AddAN8(_)
            | ArithmeticInstruction::AndAN8(_) | ArithmeticInstruction::CpAN8(_)
            | ArithmeticInstruction::OrAN8(_) | ArithmeticInstruction::SbcAN8(_)
            | ArithmeticInstruction::SubAN8(_) | ArithmeticInstruction::XorAN8(_) => 2,
            _ => 1,
        },
        Instruction::Bit(b) => match b {
            BitInstruction::Rla | BitInstruction::Rlca | BitInstruction::Rra
            | BitInstruction::Rrca => 1,
            _ => 2,
        },
        Instruction::Load(l) => match l {
            LoadInstruction::LdR8N8(_, _) | LoadInstruction::LdMemHLN8(_)
            | LoadInstruction::LdhAMemN8(_) | LoadInstruction::LdhMemN8A(_) => 2,
            LoadInstruction::LdR16N16(_, _) | LoadInstruction::LdMemN16A(_)
            | LoadInstruction::LdAMemN16(_) | LoadInstruction::LdhMemN16A(_)
            | LoadInstruction::LdhAMemN16(_) => 3,
            _ => 1,
        },
        Instruction::Jump(j) => match j {
            JumpInstruction::CallN16(_) | JumpInstruction::CallCCN16(_, _)
            | JumpInstruction::JpN16(_) | JumpInstruction::JpCCN16(_, _) => 3,
            JumpInstruction::JrN8(_) | JumpInstruction::JrCCN8(_, _) => 2,
            _ => 1,
        },
        Instruction::Stack(s) => match s {
            StackInstruction::LdSPN16(_) | StackInstruction::LdMemN16SP(_) => 3,
            StackInstruction::AddSPE8(_) | StackInstruction::LdHLSPPlusE8(_) => 2,
            _ => 1,
        },
        Instruction::Misc(_) => 1,
    }
}

/// The address `offset` bytes after `addr`; addresses wrap round at 64 KiB.
pub open spec fn address_after(addr: u16, offset: int) -> u16 {
    ((addr + offset) % 65536) as u16
}

/// What decoding at address `pc` gives in memory state `s`: the instruction
/// found there and the address just past its last byte, or the undefined
/// opcode. It depends on `s` only through the three bytes read.
pub open spec fn decode_at<M: Memory>(s: M::V, pc: u16) -> Result<(Instruction, u16), DecodeError> {
    let op = M::read(s, pc);
    let b1 = M::read(s, address_after(pc, 1));
    let b2 = M::read(s, address_after(pc, 2));
    match decode(op, b1, b2) {
        Some(instruction) => Ok((instruction, address_after(pc, length(op)))),
        None => Err(DecodeError::IllegalOpcode(op)),
    }
}

/// The opcodes that name no instruction.
pub open spec fn is_illegal(op: u8) -> bool {
    op == 0xD3 || op == 0xDB || op == 0xDD || op == 0xE3 || op == 0xE4 || op == 0xEB || op == 0xEC
        || op == 0xED || op == 0xF4 || op == 0xFC || op == 0xFD
}

/// The decoder, with the address of the next byte to read.
pub struct Disassembler {
    pub cursor: u16,
}

impl Disassembler {
    /// A decoder positioned at address 0.
    pub fn new() -> (r: Disassembler)
        ensures
            r.cursor == 0,
    {
        Disassembler { cursor: 0 }
    }

    /// Decodes the instruction at `pc`: returns it with the address just
    /// past its last byte, or the opcode found when it is undefined.
    #[verifier::rlimit(40)]
    pub fn disassemble<M: Memory>(&mut self, mem: &M, pc: u16) -> (r: Result<
        (Instruction, u16),
        DecodeError,
    >)
        requires
            mem.inv(),
        ensures
            r == decode_at::<M>(mem@, pc),
            r matches Ok(d) ==> d.0.valid() && final(self).cursor == d.1,
            r matches Err(e) ==> e == DecodeError::IllegalOpcode(M::read(mem@, pc)) && is_illegal(
                M::read(mem@, pc),
            ),
    {
        self.cursor = pc;
        let byte = self.nom(mem);
        let ghost b1 = M::read(mem@, address_after(pc, 1));
        let ghost b2 = M::read(mem@, address_after(pc, 2));
        let bits = Self::bits_tup(byte);
        let decoded: Option<Instruction> = if bits.0 == 0 {
            if bits.1 == 0 {
                Some(self.parse_block0(mem, byte))
            } else {
                Some(Self::parse_block1(byte))
            }
        } else {
            if bits.1 == 0 {
                Some(Self::parse_block2(byte))
            } else {
                self.parse_block3(mem, byte)
            }
        };
        match decoded {
            Some(instruction) => Ok((instruction, self.cursor)),
            None => Err(DecodeError::IllegalOpcode(byte)),
        }
    }

    /// Decodes an opcode below 0x40, reading its immediate operand if it has
    /// one.
    fn parse_block0<M: Memory>(&mut self, mem: &M, byte: u8) -> (r: Instruction)
        requires
            mem.inv(),
            byte < 0x40,
        ensures
            r == decode_block0(
                byte,
                M::read(mem@, old(self).cursor),
                M::read(mem@, address_after(old(self).cursor, 1)),
            ),
            final(self).cursor == address_after(old(self).cursor, length(byte) - 1),
            r.valid(),
    {
        match Self::bits_tup(byte) {
            (0, 0, 0, 0, 0, 0, 0, 0) => Instruction::Misc(MiscInstruction::Nop),
            (0, 0, a, b, 0, 0, 0, 1) => {
                let imm = self.nomnom(mem);
                Instruction::Load(LoadInstruction::LdR16N16(RegisterPair::from_bits(a, b), imm))
            },
            (0, 0, a, b, 0, 0, 1, 0) => Instruction::Load(
                LoadInstruction::LdMemR16A(RegisterPairMem::from_bits(a, b)),
            ),
            (0, 0, a, b, 1, 0, 1, 0) => Instruction::Load(
                LoadInstruction::LdAMemR16(RegisterPairMem::from_bits(a, b)),
            ),
            (0, 0, 0, 0, 1, 0, 0, 0) => {
                let imm = self.nomnom(mem);
                Instruction::Stack(StackInstruction::LdMemN16SP(imm))
            },
            (0, 0, a, b, 0, 0, 1, 1) => Instruction::Arithmetic(
                ArithmeticInstruction::IncR16(RegisterPair::from_bits(a, b)),
            ),
            (0, 0, a, b, 1, 0, 1, 1) => Instruction::Arithmetic(
                ArithmeticInstruction::DecR16(RegisterPair::from_bits(a, b)),
            ),
            (0, 0, a, b, 1, 0, 0, 1) => Instruction::Arithmetic(
                ArithmeticInstruction::AddHLR16(RegisterPair::from_bits(a, b)),
            ),
            (0, 0, 1, 1, 0, 1, 0, 0) => Instruction::Arithmetic(ArithmeticInstruction::IncMemHL),
            (0, 0, a, b, c, 1, 0, 0) => Instruction::Arithmetic(
                ArithmeticInstruction::IncR8(Register::from_bits(a, b, c)),
            ),
            (0, 0, 1, 1, 0, 1, 0, 1) => Instruction::Arithmetic(ArithmeticInstruction::DecMemHL),
            (0, 0, a, b, c, 1, 0, 1) => Instruction::Arithmetic(
                ArithmeticInstruction::DecR8(Register::from_bits(a, b, c)),
            ),
            (0, 0, 1, 1, 0, 1, 1, 0) => {
                let imm = self.nom(mem);
                Instruction::Load(LoadInstruction::LdMemHLN8(imm))
            },
            (0, 0, a, b, c, 1, 1, 0) => {
                let imm = self.nom(mem);
                Instruction::Load(LoadInstruction::LdR8N8(Register::from_bits(a, b, c), imm))
            },
            (0, 0, 0, 0, 0, 1, 1, 1) => Instruction::Bit(BitInstruction::Rlca),
            (0, 0, 0, 0, 1, 1, 1, 1) => Instruction::Bit(BitInstruction::Rrca),
            (0, 0, 0, 1, 0, 1, 1, 1) => Instruction::Bit(BitInstruction::Rla),
            (0, 0, 0, 1, 1, 1, 1, 1) => Instruction::Bit(BitInstruction::Rra),
            (0, 0, 1, 0, 0, 1, 1, 1) => Instruction::Misc(MiscInstruction::DaA),
            (0, 0, 1, 0, 1, 1, 1, 1) => Instruction::Misc(MiscInstruction::Cpl),
            (0, 0, 1, 1, 0, 1, 1, 1) => Instruction::Misc(MiscInstruction::Scf),
            (0, 0, 1, 1, 1, 1, 1, 1) => Instruction::Misc(MiscInstruction::Ccf),
            (0, 0, 0, 1, 1, 0, 0, 0) => {
                let offset = self.nom_signed(mem);
                Instruction::Jump(JumpInstruction::JrN8(offset))
            },
            (0, 0, 1, a, b, 0, 0, 0) => {
                let offset = self.nom_signed(mem);
                Instruction::Jump(JumpInstruction::JrCCN8(Condition::from_bits(a, b), offset))
            },
            _ => Instruction::Misc(MiscInstruction::Stop),
        }
    }

    /// Decodes an opcode from 0x40 to 0x7F.
    fn parse_block1(byte: u8) -> (r: Instruction)
        requires
            0x40 <= byte < 0x80,
        ensures
            r == decode_block1(byte),
            r.valid(),
    {
        match Self::bits_tup(byte) {
            (0, 1, 1, 1, 0, 1, 1, 0) => Instruction::Misc(MiscInstruction::Halt),
            (0, 1, 1, 1, 0, a, b, c) => Instruction::Load(
                LoadInstruction::LdMemHLR8(Register::from_bits(a, b, c)),
            ),
            (0, 1, a, b, c, 1, 1, 0) => Instruction::Load(
                LoadInstruction::LdR8MemHL(Register::from_bits(a, b, c)),
            ),
            (_, _, a, b, c, x, y, z) => Instruction::Load(
                LoadInstruction::LdR8R8(Register::from_bits(a, b, c), Register::from_bits(x, y, z)),
            ),
        }
    }

    /// Decodes an opcode from 0x80 to 0xBF.
    fn parse_block2(byte: u8) -> (r: Instruction)
        requires
            0x80 <= byte < 0xC0,
        ensures
            r == decode_block2(byte),
            r.valid(),
    {
        match Self::bits_tup(byte) {
            (1, 0, 0, 0, 0, 1, 1, 0) => Instruction::Arithmetic(ArithmeticInstruction::AddAMemHL),
            (1, 0, 0, 0, 0, a, b, c) => Instruction::Arithmetic(
                ArithmeticInstruction::AddAR8(Register::from_bits(a, b, c)),
            ),
            (1, 0, 0, 0, 1, 1, 1, 0) => Instruction::Arithmetic(ArithmeticInstruction::AdcAMemHL),
            (1, 0, 0, 0, 1, a, b, c) => Instruction::Arithmetic(
                ArithmeticInstruction::AdcAR8(Register::from_bits(a, b, c)),
            ),
            (1, 0, 0, 1, 0, 1, 1, 0) => Instruction::Arithmetic(ArithmeticInstruction::SubAMemHL),
            (1, 0, 0, 1, 0, a, b, c) => Instruction::Arithmetic(
                ArithmeticInstruction::SubAR8(Register::from_bits(a, b, c)),
            ),
            (1, 0, 0, 1, 1, 1, 1, 0) => Instruction::Arithmetic(ArithmeticInstruction::SbcAMemHL),
            (1, 0, 0, 1, 1, a, b, c) => Instruction::Arithmetic(
                ArithmeticInstruction::SbcAR8(Register::from_bits(a, b, c)),
            ),
            (1, 0, 1, 0, 0, 1, 1, 0) => Instruction::Arithmetic(ArithmeticInstruction::AndAMemHL),
            (1, 0, 1, 0, 0, a, b, c) => Instruction::Arithmetic(
                ArithmeticInstruction::AndAR8(Register::from_bits(a, b, c)),
            ),
            (1, 0, 1, 0, 1, 1, 1, 0) => Instruction::Arithmetic(ArithmeticInstruction::XorAMemHL),
            (1, 0, 1, 0, 1, a, b, c) => Instruction::Arithmetic(
                ArithmeticInstruction::XorAR8(Register::from_bits(a, b, c)),
            ),
            (1, 0, 1, 1, 0, 1, 1, 0) => Instruction::Arithmetic(ArithmeticInstruction::OrAMemHL),
            (1, 0, 1, 1, 0, a, b, c) => Instruction::Arithmetic(
                ArithmeticInstruction::OrAR8(Register::from_bits(a, b, c)),
            ),
            (1, 0, 1, 1, 1, 1, 1, 0) => Instruction::Arithmetic(ArithmeticInstruction::CpAMemHL),
            (_, _, _, _, _, a, b, c) => Instruction::Arithmetic(
                ArithmeticInstruction::CpAR8(Register::from_bits(a, b, c)),
            ),
        }
    }

    /// Decodes an opcode from 0xC0 up, reading its immediate operand or the
    /// second opcode byte if it has one.
    fn parse_block3<M: Memory>(&mut self, mem: &M, byte: u8) -> (r: Option<Instruction>)
        requires
            mem.inv(),
            byte >= 0xC0,
        ensures
            r == decode_block3(
                byte,
                M::read(mem@, old(self).cursor),
                M::read(mem@, address_after(old(self).cursor, 1)),
            ),
            r matches Some(i) ==> i.valid() && final(self).cursor == address_after(
                old(self).cursor,
                length(byte) - 1,
            ),
            r is None <==> is_illegal(byte),
    {
        match Self::bits_tup(byte) {
            (1, 1, 0, 0, 0, 1, 1, 0) => {
                let imm = self.nom(mem);
                Some(Instruction::Arithmetic(ArithmeticInstruction::AddAN8(imm)))
            },
            (1, 1, 0, 0, 1, 1, 1, 0) => {
                let imm = self.nom(mem);
                Some(Instruction::Arithmetic(ArithmeticInstruction::AdcAN8(imm)))
            },
            (1, 1, 0, 1, 0, 1, 1, 0) => {
                let imm = self.nom(mem);
                Some(Instruction::Arithmetic(ArithmeticInstruction::SubAN8(imm)))
            },
            (1, 1, 0, 1, 1, 1, 1, 0) => {
                let imm = self.nom(mem);
                Some(Instruction::Arithmetic(ArithmeticInstruction::SbcAN8(imm)))
            },
            (1, 1, 1, 0, 0, 1, 1, 0) => {
                let imm = self.nom(mem);
                Some(Instruction::Arithmetic(ArithmeticInstruction::AndAN8(imm)))
            },
            (1, 1, 1, 0, 1, 1, 1, 0) => {
                let imm = self.nom(mem);
                Some(Instruction::Arithmetic(ArithmeticInstruction::XorAN8(imm)))
            },
            (1, 1, 1, 1, 0, 1, 1, 0) => {
                let imm = self.nom(mem);
                Some(Instruction::Arithmetic(ArithmeticInstruction::OrAN8(imm)))
            },
            (1, 1, 1, 1, 1, 1, 1, 0) => {
                let imm = self.nom(mem);
                Some(Instruction::Arithmetic(ArithmeticInstruction::CpAN8(imm)))
            },
            (1, 1, 0, a, b, 0, 0, 0) => Some(
                Instruction::Jump(JumpInstruction::RetCC(Condition::from_bits(a, b))),
            ),
            (1, 1, 0, 0, 1, 0, 0, 1) => Some(Instruction::Jump(JumpInstruction::Ret)),
            (1, 1, 0, 1, 1, 0, 0, 1) => Some(Instruction::Jump(JumpInstruction::Reti)),
            (1, 1, 0, a, b, 0, 1, 0) => {
                let imm = self.nomnom(mem);
                Some(Instruction::Jump(JumpInstruction::JpCCN16(Condition::from_bits(a, b), imm)))
            },
            (1, 1, 0, 0, 0, 0, 1, 1) => {
                let imm = self.nomnom(mem);
                Some(Instruction::Jump(JumpInstruction::JpN16(imm)))
            },
            (1, 1, 1, 0, 1, 0, 0, 1) => Some(Instruction::Jump(JumpInstruction::JpHL)),
            (1, 1, 0, a, b, 1, 0, 0) => {
                let imm = self.nomnom(mem);
                Some(Instruction::Jump(JumpInstruction::CallCCN16(Condition::from_bits(a, b), imm)))
            },
            (1, 1, 0, 0, 1, 1, 0, 1) => {
                let imm = self.nomnom(mem);
                Some(Instruction::Jump(JumpInstruction::CallN16(imm)))
            },
            (1, 1, a, b, c, 1, 1, 1) => {
                let index: u16 = (4 * a + 2 * b + c) as u16;
                Some(Instruction::Jump(JumpInstruction::Rst(index * 8)))
            },
            (1, 1, 1, 1, 0, 0, 0, 1) => Some(Instruction::Stack(StackInstruction::PopAF)),
            (1, 1, a, b, 0, 0, 0, 1) => Some(
                Instruction::Stack(StackInstruction::PopR16(RegisterPairStk::from_bits(a, b))),
            ),
            (1, 1, 1, 1, 0, 1, 0, 1) => Some(Instruction::Stack(StackInstruction::PushAF)),
            (1, 1, a, b, 0, 1, 0, 1) => Some(
                Instruction::Stack(StackInstruction::PushR16(RegisterPairStk::from_bits(a, b))),
            ),
            (1, 1, 0, 0, 1, 0, 1, 1) => Some(Instruction::Bit(self.parse_prefix(mem))),
            (1, 1, 1, 0, 0, 0, 1, 0) => Some(Instruction::Load(LoadInstruction::LdhMemCA)),
            (1, 1, 1, 0, 0, 0, 0, 0) => {
                let imm = self.nom(mem);
                Some(Instruction::Load(LoadInstruction::LdhMemN8A(imm)))
            },
            (1, 1, 1, 0, 1, 0, 1, 0) => {
                let imm = self.nomnom(mem);
                Some(Instruction::Load(LoadInstruction::LdMemN16A(imm)))
            },
            (1, 1, 1, 1, 0, 0, 1, 0) => Some(Instruction::Load(LoadInstruction::LdhAMemC)),
            (1, 1, 1, 1, 0, 0, 0, 0) => {
                let imm = self.nom(mem);
                Some(Instruction::Load(LoadInstruction::LdhAMemN8(imm)))
            },
            (1, 1, 1, 1, 1, 0, 1, 0) => {
                let imm = self.nomnom(mem);
                Some(Instruction::Load(LoadInstruction::LdAMemN16(imm)))
            },
            (1, 1, 1, 0, 1, 0, 0, 0) => {
                let offset = self.nom_signed(mem);
                Some(Instruction::Stack(StackInstruction::AddSPE8(offset)))
            },
            (1, 1, 1, 1, 1, 0, 0, 0) => {
                let offset = self.nom_signed(mem);
                Some(Instruction::Stack(StackInstruction::LdHLSPPlusE8(offset)))
            },
            (1, 1, 1, 1, 1, 0, 0, 1) => Some(Instruction::Stack(StackInstruction::LdSPHL)),
            (1, 1, 1, 1, 0, 0, 1, 1) => Some(Instruction::Misc(MiscInstruction::Di)),
            (1, 1, 1, 1, 1, 0, 1, 1) => Some(Instruction::Misc(MiscInstruction::Ei)),
            _ => None,
        }
    }

    /// Decodes the byte after the prefix 0xCB.
    #[verifier::rlimit(40)]
    pub fn parse_prefix<M: Memory>(&mut self, mem: &M) -> (r: BitInstruction)
        requires
            mem.inv(),
        ensures
            r == decode_prefixed(M::read(mem@, old(self).cursor)),
            r.valid(),
            final(self).cursor == address_after(old(self).cursor, 1),
    {
        let byte = self.nom(mem);
        match Self::bits_tup(byte) {
            (0, 0, 0, 0, 0, 1, 1, 0) => BitInstruction::RlcMemHL,
            (0, 0, 0, 0, 0, a, b, c) => BitInstruction::Rlc(Register::from_bits(a, b, c)),
            (0, 0, 0, 0, 1, 1, 1, 0) => BitInstruction::RrcMemHL,
            (0, 0, 0, 0, 1, a, b, c) => BitInstruction::Rrc(Register::from_bits(a, b, c)),
            (0, 0, 0, 1, 0, 1, 1, 0) => BitInstruction::RlMemHL,
            (0, 0, 0, 1, 0, a, b, c) => BitInstruction::Rl(Register::from_bits(a, b, c)),
            (0, 0, 0, 1, 1, 1, 1, 0) => BitInstruction::RrMemHL,
            (0, 0, 0, 1, 1, a, b, c) => BitInstruction::Rr(Register::from_bits(a, b, c)),
            (0, 0, 1, 0, 0, 1, 1, 0) => BitInstruction::SlaMemHL,
            (0, 0, 1, 0, 0, a, b, c) => BitInstruction::Sla(Register::from_bits(a, b, c)),
            (0, 0, 1, 0, 1, 1, 1, 0) => BitInstruction::SraMemHL,
            (0, 0, 1, 0, 1, a, b, c) => BitInstruction::Sra(Register::from_bits(a, b, c)),
            (0, 0, 1, 1, 0, 1, 1, 0) => BitInstruction::SwapMemHL,
            (0, 0, 1, 1, 0, a, b, c) => BitInstruction::Swap(Register::from_bits(a, b, c)),
            (0, 0, 1, 1, 1, 1, 1, 0) => BitInstruction::SrlMemHL,
            (0, 0, 1, 1, 1, a, b, c) => BitInstruction::Srl(Register::from_bits(a, b, c)),
            (0, 1, x, y, z, 1, 1, 0) => BitInstruction::BitMemHL(4 * x + 2 * y + z),
            (0, 1, x, y, z, a, b, c) => BitInstruction::Bit(
                4 * x + 2 * y + z,
                Register::from_bits(a, b, c),
            ),
            (1, 0, x, y, z, 1, 1, 0) => BitInstruction::ResMemHL(4 * x + 2 * y + z),
            (1, 0, x, y, z, a, b, c) => BitInstruction::Res(
                4 * x + 2 * y + z,
                Register::from_bits(a, b, c),
            ),
            (_, _, x, y, z, 1, 1, 0) => BitInstruction::SetMemHL(4 * x + 2 * y + z),
            (_, _, x, y, z, a, b, c) => BitInstruction::SetR8(
                4 * x + 2 * y + z,
                Register::from_bits(a, b, c),
            ),
        }
    }

    /// The eight bits of `byte`, most significant first.
    pub fn bits_tup(byte: u8) -> (r: (u8, u8, u8, u8, u8, u8, u8, u8))
        ensures
            r.0 == byte / 128 % 2,
            r.1 == byte / 64 % 2,
            r.2 == byte / 32 % 2,
            r.3 == byte / 16 % 2,
            r.4 == byte / 8 % 2,
            r.5 == byte / 4 % 2,
            r.6 == byte / 2 % 2,
            r.7 == byte % 2,
            byte == 128 * r.0 + 64 * r.1 + 32 * r.2 + 16 * r.3 + 8 * r.4 + 4 * r.5 + 2 * r.6 + r.7,
            byte / 64 == 2 * r.0 + r.1,
            byte / 8 % 8 == 4 * r.2 + 2 * r.3 + r.4,
            byte % 8 == 4 * r.5 + 2 * r.6 + r.7,
    {
        proof {
            lemma_bits_of_byte(byte);
        }
        (
            byte >> 7 & 1,
            byte >> 6 & 1,
            byte >> 5 & 1,
            byte >> 4 & 1,
            byte >> 3 & 1,
            byte >> 2 & 1,
            byte >> 1 & 1,
            byte & 1,
        )
    }

    /// The 16-bit word with the given high and low bytes.
    pub fn u16_from_bytes(high: u8, low: u8) -> (r: u16)
        ensures
            r == word(high, low),
    {
        proof {
            lemma_word_bytes(high, low, 0);
        }
        ((high as u16) << 8) | low as u16
    }

    /// Reads the byte at the cursor and steps over it.
    fn nom<M: Memory>(&mut self, memory: &M) -> (r: u8)
        requires
            memory.inv(),
        ensures
            r == M::read(memory@, old(self).cursor),
            final(self).cursor == address_after(old(self).cursor, 1),
    {
        let at = self.cursor;
        self.cursor = self.cursor.wrapping_add(1);
        memory.get(at)
    }

    /// Reads the byte at the cursor as a signed offset and steps over it.
    fn nom_signed<M: Memory>(&mut self, memory: &M) -> (r: i8)
        requires
            memory.inv(),
        ensures
            r == signed(M::read(memory@, old(self).cursor)),
            final(self).cursor == address_after(old(self).cursor, 1),
    {
        let byte = self.nom(memory);
        proof {
            lemma_signed_byte(byte);
        }
        #[verifier::truncate]
        (byte as i8)
    }

    /// Reads the little-endian word at the cursor and steps over it.
    fn nomnom<M: Memory>(&mut self, memory: &M) -> (r: u16)
        requires
            memory.inv(),
        ensures
            r == word(
                M::read(memory@, address_after(old(self).cursor, 1)),
                M::read(memory@, old(self).cursor),
            ),
            final(self).cursor == address_after(old(self).cursor, 2),
    {
        let low = self.nom(memory);
        let high = self.nom(memory);
        Self::u16_from_bytes(high, low)
    }
}

/// The address that follows a decoded instruction is the address it was read
/// at plus the length that its opcode encodes, and that length is the size
/// of the instruction found: one opcode byte, one more after the prefix, and
/// the immediate operand.
pub proof fn lemma_length_is_encoded_size(op: u8, b1: u8, b2: u8)
    ensures
        1 <= length(op) <= 3,
        decode(op, b1, b2) matches Some(i) ==> encoded_size(i) == length(op),
        decode(op, b1, b2) is None <==> is_illegal(op),
{
}

/// Two memories that hold the same three bytes from `pc` on decode alike
/// there; so decoding again, with the memory unchanged, gives the same
/// instruction.
pub proof fn lemma_decode_reads_three_bytes<M: Memory, N: Memory>(s: M::V, t: N::V, pc: u16)
    requires
        M::read(s, pc) == N::read(t, pc),
        M::read(s, address_after(pc, 1)) == N::read(t, address_after(pc, 1)),
        M::read(s, address_after(pc, 2)) == N::read(t, address_after(pc, 2)),
    ensures
        decode_at::<M>(s, pc) == decode_at::<N>(t, pc),
{
}

} // verus!
