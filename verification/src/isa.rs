//! The instruction set as data: one variant per instruction form, with its
//! operands.

use vstd::prelude::*;
use crate::{Register, RegisterPair, RegisterPairMem, RegisterPairStk};

verus! {

/// 8-bit arithmetic and logic on A, increments and decrements, and the
/// 16-bit arithmetic.
#[derive(Debug, Copy, Clone, PartialEq, Eq, Structural)]
pub enum ArithmeticInstruction {
    AdcAR8(Register),
    AdcAMemHL,
    AdcAN8(u8),
    AddAR8(Register),
    AddAMemHL,
    AddAN8(u8),
    AndAR8(Register),
    AndAMemHL,
    AndAN8(u8),
    CpAR8(Register),
    CpAMemHL,
    CpAN8(u8),
    DecR8(Register),
    DecMemHL,
    IncR8(Register),
    IncMemHL,
    OrAR8(Register),
    OrAMemHL,
    OrAN8(u8),
    SbcAR8(Register),
    SbcAMemHL,
    SbcAN8(u8),
    SubAR8(Register),
    SubAMemHL,
    SubAN8(u8),
    XorAR8(Register),
    XorAMemHL,
    XorAN8(u8),
    AddHLR16(RegisterPair),
    DecR16(RegisterPair),
    IncR16(RegisterPair),
}

/// Bit tests, bit updates, nibble swap, rotates and shifts. A `u8` operand is
/// a bit index, 0 to 7.
#[derive(Debug, Copy, Clone, PartialEq, Eq, Structural)]
pub enum BitInstruction {
    Bit(u8, Register),
    BitMemHL(u8),
    Res(u8, Register),
    ResMemHL(u8),
    SetR8(u8, Register),
    SetMemHL(u8),
    Swap(Register),
    SwapMemHL,
    Rl(Register),
    RlMemHL,
    Rla,
    Rlc(Register),
    RlcMemHL,
    Rlca,
    Rr(Register),
    RrMemHL,
    Rra,
    Rrc(Register),
    RrcMemHL,
    Rrca,
    Sla(Register),
    SlaMemHL,
    Sra(Register),
    SraMemHL,
    Srl(Register),
    SrlMemHL,
}

impl BitInstruction {
    /// Whether the bit index, where the form has one, is below 8.
    pub open spec fn valid(self) -> bool {
        match self {
            BitInstruction::Bit(index, _) => index < 8,
            BitInstruction::BitMemHL(index) => index < 8,
            BitInstruction::Res(index, _) => index < 8,
            BitInstruction::ResMemHL(index) => index < 8,
            BitInstruction::SetR8(index, _) => index < 8,
            BitInstruction::SetMemHL(index) => index < 8,
            _ => true,
        }
    }
}

/// Loads between registers, immediates and memory. The two `Ldh..N16` forms
/// take an offset into the high page, 0 to 0xFF.
#[derive(Debug, Copy, Clone, PartialEq, Eq, Structural)]
pub enum LoadInstruction {
    LdR8R8(Register, Register),
    LdR8N8(Register, u8),
    LdR16N16(RegisterPair, u16),
    LdMemHLR8(Register),
    LdMemHLN8(u8),
    LdR8MemHL(Register),
    LdMemR16A(RegisterPairMem),
    LdMemN16A(u16),
    LdhMemN16A(u16),
    LdhMemCA,
    LdAMemR16(RegisterPairMem),
    LdAMemN16(u16),
    LdhAMemN16(u16),
    LdhAMemC,
    LdMemHLIA,
    LdMemHLDA,
    LdAMemHLI,
    LdAMemHLD,
    LdhAMemN8(u8),
    LdhMemN8A(u8),
}

impl LoadInstruction {
    /// Whether the high-page offset, where the form has a 16-bit one, is at
    /// most 0xFF.
    pub open spec fn valid(self) -> bool {
        match self {
            LoadInstruction::LdhMemN16A(offset) => offset <= 0xFF,
            LoadInstruction::LdhAMemN16(offset) => offset <= 0xFF,
            _ => true,
        }
    }
}

/// A branch condition on the Z or C flag.
#[derive(Debug, Copy, Clone, PartialEq, Eq, Structural)]
pub enum Condition {
    NotZero,
    Zero,
    NotCarry,
    Carry,
}

impl Condition {
    /// The condition with operand code `code`.
    pub open spec fn of_code(code: int) -> Condition {
        if code == 0 {
            Condition::NotZero
        } else if code == 1 {
            Condition::Zero
        } else if code == 2 {
            Condition::NotCarry
        } else {
            Condition::Carry
        }
    }

    /// The two-bit operand code of the condition.
    pub open spec fn code(self) -> int {
        match self {
            Condition::NotZero => 0,
            Condition::Zero => 1,
            Condition::NotCarry => 2,
            Condition::Carry => 3,
        }
    }

    /// The condition named by the operand code whose bits are `a` (high) and
    /// `b`.
    pub fn from_bits(a: u8, b: u8) -> (r: Condition)
        requires
            a <= 1,
            b <= 1,
        ensures
            r.code() == 2 * a + b,
            r == Condition::of_code(2 * a + b),
    {
        if a == 0 {
            if b == 0 {
                Condition::NotZero
            } else {
                Condition::Zero
            }
        } else {
            if b == 0 {
                Condition::NotCarry
            } else {
                Condition::Carry
            }
        }
    }
}

/// Jumps, calls and returns.
#[derive(Debug, Copy, Clone, PartialEq, Eq, Structural)]
pub enum JumpInstruction {
    CallN16(u16),
    CallCCN16(Condition, u16),
    JpHL,
    JpN16(u16),
    JpCCN16(Condition, u16),
    JrN8(i8),
    JrCCN8(Condition, i8),
    RetCC(Condition),
    Ret,
    Reti,
    Rst(u16),
}

/// Stack pointer arithmetic, pushes and pops.
#[derive(Debug, Copy, Clone, PartialEq, Eq, Structural)]
pub enum StackInstruction {
    AddHLSP,
    AddSPE8(i8),
    DecSP,
    IncSP,
    LdSPN16(u16),
    LdMemN16SP(u16),
    LdHLSPPlusE8(i8),
    LdSPHL,
    PopAF,
    PopR16(RegisterPairStk),
    PushAF,
    PushR16(RegisterPairStk),
}

/// Flag and control instructions.
#[derive(Debug, Copy, Clone, PartialEq, Eq, Structural)]
pub enum MiscInstruction {
    Ccf,
    Cpl,
    DaA,
    Di,
    Ei,
    Halt,
    Nop,
    Scf,
    Stop,
}

/// A decoded instruction: one of six families.
#[derive(Debug, Copy, Clone, PartialEq, Eq, Structural)]
pub enum Instruction {
    Arithmetic(ArithmeticInstruction),
    Bit(BitInstruction),
    Load(LoadInstruction),
    Jump(JumpInstruction),
    Stack(StackInstruction),
    Misc(MiscInstruction),
}

impl Instruction {
    /// Whether the operands are in the range that their form allows. Every
    /// instruction that the decoder produces is valid.
    pub open spec fn valid(self) -> bool {
        match self {
            Instruction::Bit(i) => i.valid(),
            Instruction::Load(i) => i.valid(),
            _ => true,
        }
    }
}

} // verus!
