//! The processor: register file, instruction execution, interrupt pipeline
//! and the step that ties them to the memory.

use vstd::prelude::*;
use crate::arithmetic::{
    add16, add8, bit_flags, dec8, inc8, logic_flags, op_adc, op_add, op_add16, op_and, op_bit,
    op_cp, op_dec, op_dec16, op_inc, op_inc16, op_or, op_res, op_rl, op_rlc, op_rr, op_rrc,
    op_sbc, op_set, op_sla, op_sra, op_srl, op_sub, op_swap, op_xor, res8, rl8, rlc8, rr8, rrc8,
    set8, shift_flags, sla8, sra8, srl8, sub8, swap8,
};
use crate::bits::{lemma_unsigned_byte, lemma_word_bytes, unsigned, word};
use crate::disassembler::{address_after, decode_at, DecodeError, Disassembler};
use crate::flags::Flags;
use crate::isa::{
    ArithmeticInstruction, BitInstruction, Condition, Instruction, JumpInstruction,
    LoadInstruction, MiscInstruction, StackInstruction,
};
use crate::memory::{Interrupt, Memory, RegisterPairValue};
use crate::{ControlMsg, Register, RegisterPair, RegisterPairMem, RegisterPairStk};

verus! {

/// Machine cycles that serving an interrupt adds to the stall counter; with
/// the cycle in which it is served that makes five.
pub const INTERRUPT_STALL: usize = 4;

/// The processor with the memory it drives.
pub struct Cpu<M: Memory> {
    pub af: RegisterPairValue,
    pub bc: RegisterPairValue,
    pub de: RegisterPairValue,
    pub hl: RegisterPairValue,
    pub sp: RegisterPairValue,
    pub pc: RegisterPairValue,
    pub mem: M,
    pub disassembler: Disassembler,
    /// Interrupt master enable.
    pub ime: bool,
    /// Machine cycles still owed by the instruction or interrupt in
    /// progress.
    pub stall: usize,
    pub halted: bool,
    pub stopped: bool,
    pub terminate: bool,
    /// Countdown of the delayed DI; IME is cleared by the step that finds it
    /// at 1.
    pub di_ctr: u8,
    /// Countdown of the delayed EI; IME is set by the step that finds it at
    /// 1.
    pub ei_ctr: u8,
}

/// The state of a processor over a memory whose state is an `S`: what the
/// contracts of [`Cpu`] speak of.
pub struct CpuState<S> {
    pub af: RegisterPairValue,
    pub bc: RegisterPairValue,
    pub de: RegisterPairValue,
    pub hl: RegisterPairValue,
    pub sp: RegisterPairValue,
    pub pc: RegisterPairValue,
    pub mem: S,
    pub ime: bool,
    pub stall: usize,
    pub halted: bool,
    pub stopped: bool,
    pub terminate: bool,
    pub di_ctr: u8,
    pub ei_ctr: u8,
}

impl<M: Memory> View for Cpu<M> {
    type V = CpuState<M::V>;

    open spec fn view(&self) -> CpuState<M::V> {
        CpuState {
            af: self.af,
            bc: self.bc,
            de: self.de,
            hl: self.hl,
            sp: self.sp,
            pc: self.pc,
            mem: self.mem@,
            ime: self.ime,
            stall: self.stall,
            halted: self.halted,
            stopped: self.stopped,
            terminate: self.terminate,
            di_ctr: self.di_ctr,
            ei_ctr: self.ei_ctr,
        }
    }
}

impl<S> CpuState<S> {
    /// The byte in register `r`.
    pub open spec fn reg(self, r: Register) -> u8 {
        match r {
            Register::A => self.af.high,
            Register::B => self.bc.high,
            Register::C => self.bc.low,
            Register::D => self.de.high,
            Register::E => self.de.low,
            Register::H => self.hl.high,
            Register::L => self.hl.low,
        }
    }

    /// The state with `v` in register `r`.
    pub open spec fn with_reg(self, r: Register, v: u8) -> Self {
        match r {
            Register::A => CpuState { af: RegisterPairValue { high: v, ..self.af }, ..self },
            Register::B => CpuState { bc: RegisterPairValue { high: v, ..self.bc }, ..self },
            Register::C => CpuState { bc: RegisterPairValue { low: v, ..self.bc }, ..self },
            Register::D => CpuState { de: RegisterPairValue { high: v, ..self.de }, ..self },
            Register::E => CpuState { de: RegisterPairValue { low: v, ..self.de }, ..self },
            Register::H => CpuState { hl: RegisterPairValue { high: v, ..self.hl }, ..self },
            Register::L => CpuState { hl: RegisterPairValue { low: v, ..self.hl }, ..self },
        }
    }

    /// The word in register pair `p`.
    pub open spec fn pair(self, p: RegisterPair) -> u16 {
        match p {
            RegisterPair::BC => self.bc.value(),
            RegisterPair::DE => self.de.value(),
            RegisterPair::HL => self.hl.value(),
            RegisterPair::SP => self.sp.value(),
        }
    }

    /// The state with register pair `p` replaced by `v`.
    pub open spec fn with_pair(self, p: RegisterPair, v: RegisterPairValue) -> Self {
        match p {
            RegisterPair::BC => CpuState { bc: v, ..self },
            RegisterPair::DE => CpuState { de: v, ..self },
            RegisterPair::HL => CpuState { hl: v, ..self },
            RegisterPair::SP => CpuState { sp: v, ..self },
        }
    }

    /// The word in the register pair `p` of PUSH and POP.
    pub open spec fn stk_pair(self, p: RegisterPairStk) -> u16 {
        match p {
            RegisterPairStk::BC => self.bc.value(),
            RegisterPairStk::DE => self.de.value(),
            RegisterPairStk::HL => self.hl.value(),
            RegisterPairStk::AF => self.af.value(),
        }
    }

    /// The state with the register pair `p` of PUSH and POP replaced by `v`.
    pub open spec fn with_stk_pair(self, p: RegisterPairStk, v: RegisterPairValue) -> Self {
        match p {
            RegisterPairStk::BC => CpuState { bc: v, ..self },
            RegisterPairStk::DE => CpuState { de: v, ..self },
            RegisterPairStk::HL => CpuState { hl: v, ..self },
            RegisterPairStk::AF => CpuState { af: v, ..self },
        }
    }

    /// The address that the indirect operand `p` names.
    pub open spec fn mem_pair(self, p: RegisterPairMem) -> u16 {
        match p {
            RegisterPairMem::BC => self.bc.value(),
            RegisterPairMem::DE => self.de.value(),
            RegisterPairMem::HLI => self.hl.value(),
            RegisterPairMem::HLD => self.hl.value(),
        }
    }

    /// The state after the indirect operand `p` was used: HL stepped up or
    /// down for the two HL forms.
    pub open spec fn after_mem_pair(self, p: RegisterPairMem) -> Self {
        match p {
            RegisterPairMem::BC => self,
            RegisterPairMem::DE => self,
            RegisterPairMem::HLI => CpuState {
                hl: RegisterPairValue::of(address_after(self.hl.value(), 1)),
                ..self
            },
            RegisterPairMem::HLD => CpuState {
                hl: RegisterPairValue::of(address_after(self.hl.value(), -1)),
                ..self
            },
        }
    }

    /// The condition flags that F holds.
    pub open spec fn flags(self) -> Flags {
        Flags::spec_from_bits(self.af.low)
    }

    /// The state with F holding `flags`; the low nibble of F is zero.
    pub open spec fn with_flags(self, flags: Flags) -> Self {
        CpuState { af: RegisterPairValue { low: flags.spec_bits(), ..self.af }, ..self }
    }

    /// Whether the branch condition `c` holds.
    pub open spec fn holds(self, c: Condition) -> bool {
        match c {
            Condition::NotZero => !self.flags().zero,
            Condition::Zero => self.flags().zero,
            Condition::NotCarry => !self.flags().carry,
            Condition::Carry => self.flags().carry,
        }
    }

    /// The bound that keeps the stall counter small: an instruction owes at
    /// most five more cycles, and each interrupt served adds four but needs
    /// IME, which only an instruction or the EI latch sets again.
    pub open spec fn bounded(self) -> bool {
        self.stall + (if self.ime {
            4int
        } else {
            0
        }) + (if self.ei_ctr > 0 {
            4int
        } else {
            0
        }) <= 13
    }

    /// The state that the processor starts in when no boot program ran.
    pub open spec fn power_on(mem: S) -> Self {
        CpuState {
            af: RegisterPairValue { high: 0x01, low: 0x80 },
            bc: RegisterPairValue { high: 0x00, low: 0x13 },
            de: RegisterPairValue { high: 0x00, low: 0xD8 },
            hl: RegisterPairValue { high: 0x01, low: 0x4D },
            sp: RegisterPairValue { high: 0xFF, low: 0xFE },
            pc: RegisterPairValue { high: 0x01, low: 0x00 },
            mem,
            ime: false,
            stall: 0,
            halted: false,
            stopped: false,
            terminate: false,
            di_ctr: 0,
            ei_ctr: 0,
        }
    }
}

/// The state after `value` is pushed: SP goes down by 2, then the high byte
/// is written at SP + 1 and the low byte at SP.
pub open spec fn pushed<M: Memory>(s: CpuState<M::V>, value: u16) -> CpuState<M::V> {
    let sp = address_after(s.sp.value(), -2);
    let high_written = M::written(s.mem, address_after(sp, 1), (value / 256) as u8);
    CpuState {
        sp: RegisterPairValue::of(sp),
        mem: M::written(high_written, sp, (value % 256) as u8),
        ..s
    }
}

/// The word that a pop returns: low byte from SP, high byte from SP + 1.
pub open spec fn top<M: Memory>(s: CpuState<M::V>) -> u16 {
    word(M::read(s.mem, address_after(s.sp.value(), 1)), M::read(s.mem, s.sp.value()))
}

/// The state after a pop: SP goes up by 2.
pub open spec fn popped<M: Memory>(s: CpuState<M::V>) -> CpuState<M::V> {
    CpuState { sp: RegisterPairValue::of(address_after(s.sp.value(), 2)), ..s }
}

/// The machine cycles that an instruction takes; `taken` says whether a
/// conditional branch was taken and is ignored by the other instructions.
pub open spec fn cycles(i: Instruction, taken: bool) -> int {
    match i {
        Instruction::Arithmetic(a) => match a {
            ArithmeticInstruction::AdcAR8(_) | ArithmeticInstruction::AddAR8(_)
            | ArithmeticInstruction::AndAR8(_) | ArithmeticInstruction::CpAR8(_)
            | ArithmeticInstruction::OrAR8(_) | ArithmeticInstruction::SbcAR8(_)
            | ArithmeticInstruction::SubAR8(_) | ArithmeticInstruction::XorAR8(_)
            | ArithmeticInstruction::IncR8(_) | ArithmeticInstruction::DecR8(_) => 1,
            ArithmeticInstruction::IncMemHL | ArithmeticInstruction::DecMemHL => 3,
            _ => 2,
        },
        Instruction::Bit(b) => match b {
            BitInstruction::Rla | BitInstruction::Rlca | BitInstruction::Rra
            | BitInstruction::Rrca => 1,
            BitInstruction::BitMemHL(_) => 3,
            BitInstruction::ResMemHL(_) | BitInstruction::SetMemHL(_) | BitInstruction::SwapMemHL
            | BitInstruction::RlMemHL | BitInstruction::RlcMemHL | BitInstruction::RrMemHL
            | BitInstruction::RrcMemHL | BitInstruction::SlaMemHL | BitInstruction::SraMemHL
            | BitInstruction::SrlMemHL => 4,
            _ => 2,
        },
        Instruction::Load(l) => match l {
            LoadInstruction::LdR8R8(_, _) => 1,
            LoadInstruction::LdR16N16(_, _) | LoadInstruction::LdMemHLN8(_)
            | LoadInstruction::LdhMemN16A(_) | LoadInstruction::LdhAMemN16(_)
            | LoadInstruction::LdhAMemN8(_) | LoadInstruction::LdhMemN8A(_) => 3,
            LoadInstruction::LdAMemN16(_) | LoadInstruction::LdMemN16A(_) => 4,
            _ => 2,
        },
        Instruction::Jump(j) => match j {
            JumpInstruction::CallN16(_) => 6,
            JumpInstruction::CallCCN16(_, _) => if taken {
                6
            } else {
                3
            },
            JumpInstruction::JpHL => 1,
            JumpInstruction::JpN16(_) => 4,
            JumpInstruction::JpCCN16(_, _) => if taken {
                4
            } else {
                3
            },
            JumpInstruction::JrN8(_) => 3,
            JumpInstruction::JrCCN8(_, _) => if taken {
                3
            } else {
                2
            },
            JumpInstruction::RetCC(_) => if taken {
                5
            } else {
                2
            },
            JumpInstruction::Ret | JumpInstruction::Reti | JumpInstruction::Rst(_) => 4,
        },
        Instruction::Stack(k) => match k {
            StackInstruction::AddSPE8(_) | StackInstruction::PushAF
            | StackInstruction::PushR16(_) => 4,
            StackInstruction::LdMemN16SP(_) => 5,
            StackInstruction::LdSPN16(_) | StackInstruction::LdHLSPPlusE8(_)
            | StackInstruction::PopAF | StackInstruction::PopR16(_) => 3,
            _ => 2,
        },
        Instruction::Misc(_) => 1,
    }
}

/// The state in which an instruction that takes `cost` machine cycles leaves
/// the stall counter: the cycles still owed after the one that executed it.
pub open spec fn charged<S>(s: CpuState<S>, cost: int) -> CpuState<S> {
    CpuState { stall: (cost - 1) as usize, ..s }
}

/// The state with `result` in A and F holding `flags`.
pub open spec fn accumulated<S>(s: CpuState<S>, outcome: (u8, Flags)) -> CpuState<S> {
    CpuState { af: RegisterPairValue { high: outcome.0, low: outcome.1.spec_bits() }, ..s }
}

/// The state with `value` written to `addr`.
pub open spec fn stored<M: Memory>(s: CpuState<M::V>, addr: u16, value: u8) -> CpuState<M::V> {
    CpuState { mem: M::written(s.mem, addr, value), ..s }
}

/// The outcome of an operation on A: `outcome.0` is stored in A and
/// `outcome.1` are the flags.
pub open spec fn into_a<S>(s: CpuState<S>, outcome: (u8, Flags)) -> (CpuState<S>, Flags) {
    (s.with_reg(Register::A, outcome.0), outcome.1)
}

/// What an arithmetic instruction computes: the state with its result
/// stored, and the flags that it leaves.
pub open spec fn arithmetic_outcome<M: Memory>(
    s: CpuState<M::V>,
    i: ArithmeticInstruction,
) -> (CpuState<M::V>, Flags) {
    let a = s.af.high;
    let f = s.flags();
    let hl = s.hl.value();
    let m = M::read(s.mem, hl);
    match i {
        ArithmeticInstruction::AdcAR8(r) => into_a(s, add8(a, s.reg(r), f.carry)),
        ArithmeticInstruction::AdcAMemHL => into_a(s, add8(a, m, f.carry)),
        ArithmeticInstruction::AdcAN8(n) => into_a(s, add8(a, n, f.carry)),
        ArithmeticInstruction::AddAR8(r) => into_a(s, add8(a, s.reg(r), false)),
        ArithmeticInstruction::AddAMemHL => into_a(s, add8(a, m, false)),
        ArithmeticInstruction::AddAN8(n) => into_a(s, add8(a, n, false)),
        ArithmeticInstruction::AndAR8(r) => into_a(
            s,
            (a & s.reg(r), logic_flags(a & s.reg(r), true)),
        ),
        ArithmeticInstruction::AndAMemHL => into_a(s, (a & m, logic_flags(a & m, true))),
        ArithmeticInstruction::AndAN8(n) => into_a(s, (a & n, logic_flags(a & n, true))),
        ArithmeticInstruction::CpAR8(r) => (s, sub8(a, s.reg(r), false).1),
        ArithmeticInstruction::CpAMemHL => (s, sub8(a, m, false).1),
        ArithmeticInstruction::CpAN8(n) => (s, sub8(a, n, false).1),
        ArithmeticInstruction::DecR8(r) => (
            s.with_reg(r, dec8(s.reg(r), f).0),
            dec8(s.reg(r), f).1,
        ),
        ArithmeticInstruction::DecMemHL => (stored::<M>(s, hl, dec8(m, f).0), dec8(m, f).1),
        ArithmeticInstruction::IncR8(r) => (
            s.with_reg(r, inc8(s.reg(r), f).0),
            inc8(s.reg(r), f).1,
        ),
        ArithmeticInstruction::IncMemHL => (stored::<M>(s, hl, inc8(m, f).0), inc8(m, f).1),
        ArithmeticInstruction::OrAR8(r) => into_a(
            s,
            (a | s.reg(r), logic_flags(a | s.reg(r), false)),
        ),
        ArithmeticInstruction::OrAMemHL => into_a(s, (a | m, logic_flags(a | m, false))),
        ArithmeticInstruction::OrAN8(n) => into_a(s, (a | n, logic_flags(a | n, false))),
        ArithmeticInstruction::SbcAR8(r) => into_a(s, sub8(a, s.reg(r), f.carry)),
        ArithmeticInstruction::SbcAMemHL => into_a(s, sub8(a, m, f.carry)),
        ArithmeticInstruction::SbcAN8(n) => into_a(s, sub8(a, n, f.carry)),
        ArithmeticInstruction::SubAR8(r) => into_a(s, sub8(a, s.reg(r), false)),
        ArithmeticInstruction::SubAMemHL => into_a(s, sub8(a, m, false)),
        ArithmeticInstruction::SubAN8(n) => into_a(s, sub8(a, n, false)),
        ArithmeticInstruction::XorAR8(r) => into_a(
            s,
            (a ^ s.reg(r), logic_flags(a ^ s.reg(r), false)),
        ),
        ArithmeticInstruction::XorAMemHL => into_a(s, (a ^ m, logic_flags(a ^ m, false))),
        ArithmeticInstruction::XorAN8(n) => into_a(s, (a ^ n, logic_flags(a ^ n, false))),
        ArithmeticInstruction::AddHLR16(p) => (
            CpuState { hl: RegisterPairValue::of(add16(hl, s.pair(p), f).0), ..s },
            add16(hl, s.pair(p), f).1,
        ),
        ArithmeticInstruction::DecR16(p) => (
            s.with_pair(p, RegisterPairValue::of(address_after(s.pair(p), -1))),
            f,
        ),
        ArithmeticInstruction::IncR16(p) => (
            s.with_pair(p, RegisterPairValue::of(address_after(s.pair(p), 1))),
            f,
        ),
    }
}

/// The state after an arithmetic instruction, cycles aside: the result is
/// stored and F is written from the flags, so its low nibble is zero.
pub open spec fn arithmetic_effect<M: Memory>(
    s: CpuState<M::V>,
    i: ArithmeticInstruction,
) -> CpuState<M::V> {
    arithmetic_outcome::<M>(s, i).0.with_flags(arithmetic_outcome::<M>(s, i).1)
}

/// The state after an arithmetic instruction.
pub open spec fn after_arithmetic<M: Memory>(
    s: CpuState<M::V>,
    i: ArithmeticInstruction,
) -> CpuState<M::V> {
    charged(arithmetic_effect::<M>(s, i), cycles(Instruction::Arithmetic(i), false))
}

/// The outcome of a rotate or shift of register `r`: `outcome.0` is stored
/// in it and `outcome.1` is the bit moved out.
pub open spec fn shifted_reg<S>(
    s: CpuState<S>,
    r: Register,
    outcome: (u8, bool),
    short_form: bool,
) -> (CpuState<S>, Flags) {
    (s.with_reg(r, outcome.0), shift_flags(outcome.0, outcome.1, short_form))
}

/// The outcome of a rotate or shift of the byte at HL: `outcome.0` is
/// written there and `outcome.1` is the bit moved out.
pub open spec fn shifted_mem<M: Memory>(s: CpuState<M::V>, outcome: (u8, bool)) -> (
    CpuState<M::V>,
    Flags,
) {
    (stored::<M>(s, s.hl.value(), outcome.0), shift_flags(outcome.0, outcome.1, false))
}

/// What a bit instruction computes: the state with its result stored, and
/// the flags that it leaves.
pub open spec fn bit_outcome<M: Memory>(s: CpuState<M::V>, i: BitInstruction) -> (
    CpuState<M::V>,
    Flags,
) {
    let f = s.flags();
    let hl = s.hl.value();
    let m = M::read(s.mem, hl);
    let a = s.af.high;
    match i {
        BitInstruction::Bit(n, r) => (s, bit_flags(n, s.reg(r), f)),
        BitInstruction::BitMemHL(n) => (s, bit_flags(n, m, f)),
        BitInstruction::Res(n, r) => (s.with_reg(r, res8(n, s.reg(r))), f),
        BitInstruction::ResMemHL(n) => (stored::<M>(s, hl, res8(n, m)), f),
        BitInstruction::SetR8(n, r) => (s.with_reg(r, set8(n, s.reg(r))), f),
        BitInstruction::SetMemHL(n) => (stored::<M>(s, hl, set8(n, m)), f),
        BitInstruction::Swap(r) => (
            s.with_reg(r, swap8(s.reg(r))),
            logic_flags(swap8(s.reg(r)), false),
        ),
        BitInstruction::SwapMemHL => (stored::<M>(s, hl, swap8(m)), logic_flags(swap8(m), false)),
        BitInstruction::Rl(r) => shifted_reg(s, r, rl8(s.reg(r), f.carry), false),
        BitInstruction::RlMemHL => shifted_mem::<M>(s, rl8(m, f.carry)),
        BitInstruction::Rla => shifted_reg(s, Register::A, rl8(a, f.carry), true),
        BitInstruction::Rlc(r) => shifted_reg(s, r, rlc8(s.reg(r)), false),
        BitInstruction::RlcMemHL => shifted_mem::<M>(s, rlc8(m)),
        BitInstruction::Rlca => shifted_reg(s, Register::A, rlc8(a), true),
        BitInstruction::Rr(r) => shifted_reg(s, r, rr8(s.reg(r), f.carry), false),
        BitInstruction::RrMemHL => shifted_mem::<M>(s, rr8(m, f.carry)),
        BitInstruction::Rra => shifted_reg(s, Register::A, rr8(a, f.carry), true),
        BitInstruction::Rrc(r) => shifted_reg(s, r, rrc8(s.reg(r)), false),
        BitInstruction::RrcMemHL => shifted_mem::<M>(s, rrc8(m)),
        BitInstruction::Rrca => shifted_reg(s, Register::A, rrc8(a), true),
        BitInstruction::Sla(r) => shifted_reg(s, r, sla8(s.reg(r)), false),
        BitInstruction::SlaMemHL => shifted_mem::<M>(s, sla8(m)),
        BitInstruction::Sra(r) => shifted_reg(s, r, sra8(s.reg(r)), false),
        BitInstruction::SraMemHL => shifted_mem::<M>(s, sra8(m)),
        BitInstruction::Srl(r) => shifted_reg(s, r, srl8(s.reg(r)), false),
        BitInstruction::SrlMemHL => shifted_mem::<M>(s, srl8(m)),
    }
}

/// The state after a bit instruction, cycles aside: the result is stored and
/// F is written from the flags, so its low nibble is zero.
pub open spec fn bit_effect<M: Memory>(s: CpuState<M::V>, i: BitInstruction) -> CpuState<M::V> {
    bit_outcome::<M>(s, i).0.with_flags(bit_outcome::<M>(s, i).1)
}

/// The state after a bit instruction.
pub open spec fn after_bit<M: Memory>(s: CpuState<M::V>, i: BitInstruction) -> CpuState<M::V> {
    charged(bit_effect::<M>(s, i), cycles(Instruction::Bit(i), false))
}

/// The address in the high page at offset `offset`.
pub open spec fn high_page(offset: int) -> u16 {
    (0xFF00 + offset) as u16
}

/// The state after a load instruction, cycles aside. No load changes a flag.
pub open spec fn load_effect<M: Memory>(s: CpuState<M::V>, i: LoadInstruction) -> CpuState<M::V> {
    let a = s.af.high;
    let hl = s.hl.value();
    let up = RegisterPairValue::of(address_after(hl, 1));
    let down = RegisterPairValue::of(address_after(hl, -1));
    match i {
        LoadInstruction::LdR8R8(to, from) => s.with_reg(to, s.reg(from)),
        LoadInstruction::LdR8N8(to, n) => s.with_reg(to, n),
        LoadInstruction::LdR16N16(to, n) => s.with_pair(to, RegisterPairValue::of(n)),
        LoadInstruction::LdMemHLR8(from) => stored::<M>(s, hl, s.reg(from)),
        LoadInstruction::LdMemHLN8(n) => stored::<M>(s, hl, n),
        LoadInstruction::LdR8MemHL(to) => s.with_reg(to, M::read(s.mem, hl)),
        LoadInstruction::LdMemR16A(p) => stored::<M>(s, s.mem_pair(p), a).after_mem_pair(p),
        LoadInstruction::LdMemN16A(addr) => stored::<M>(s, addr, a),
        LoadInstruction::LdhMemN16A(offset) => stored::<M>(s, high_page(offset as int), a),
        LoadInstruction::LdhMemCA => stored::<M>(s, high_page(s.bc.low as int), a),
        LoadInstruction::LdAMemR16(p) => s.after_mem_pair(p).with_reg(
            Register::A,
            M::read(s.mem, s.mem_pair(p)),
        ),
        LoadInstruction::LdAMemN16(addr) => s.with_reg(Register::A, M::read(s.mem, addr)),
        LoadInstruction::LdhAMemN16(offset) => s.with_reg(
            Register::A,
            M::read(s.mem, high_page(offset as int)),
        ),
        LoadInstruction::LdhAMemC => s.with_reg(
            Register::A,
            M::read(s.mem, high_page(s.bc.low as int)),
        ),
        LoadInstruction::LdMemHLIA => CpuState { hl: up, ..stored::<M>(s, hl, a) },
        LoadInstruction::LdMemHLDA => CpuState { hl: down, ..stored::<M>(s, hl, a) },
        LoadInstruction::LdAMemHLI => (CpuState { hl: up, ..s }).with_reg(
            Register::A,
            M::read(s.mem, hl),
        ),
        LoadInstruction::LdAMemHLD => (CpuState { hl: down, ..s }).with_reg(
            Register::A,
            M::read(s.mem, hl),
        ),
        LoadInstruction::LdhAMemN8(n) => s.with_reg(
            Register::A,
            M::read(s.mem, high_page(n as int)),
        ),
        LoadInstruction::LdhMemN8A(n) => stored::<M>(s, high_page(n as int), a),
    }
}

/// The state after a load instruction.
pub open spec fn after_load<M: Memory>(s: CpuState<M::V>, i: LoadInstruction) -> CpuState<M::V> {
    charged(load_effect::<M>(s, i), cycles(Instruction::Load(i), false))
}

/// The state after a call to `target`: the address of the next instruction
/// is pushed and execution continues at `target`.
pub open spec fn called<M: Memory>(s: CpuState<M::V>, target: u16) -> CpuState<M::V> {
    CpuState { pc: RegisterPairValue::of(target), ..pushed::<M>(s, s.pc.value()) }
}

/// The state after a return: execution continues at the word popped.
pub open spec fn returned<M: Memory>(s: CpuState<M::V>) -> CpuState<M::V> {
    CpuState { pc: RegisterPairValue::of(top::<M>(s)), ..popped::<M>(s) }
}

/// Whether a jump instruction branches in state `s`; the unconditional ones
/// always do.
pub open spec fn branches<S>(s: CpuState<S>, i: JumpInstruction) -> bool {
    match i {
        JumpInstruction::CallCCN16(c, _) => s.holds(c),
        JumpInstruction::JpCCN16(c, _) => s.holds(c),
        JumpInstruction::JrCCN8(c, _) => s.holds(c),
        JumpInstruction::RetCC(c) => s.holds(c),
        _ => true,
    }
}

/// The state after a jump instruction, cycles aside; `s.pc` is the address
/// of the instruction that follows it. A conditional jump whose condition
/// fails changes nothing.
pub open spec fn jump_effect<M: Memory>(s: CpuState<M::V>, i: JumpInstruction) -> CpuState<M::V> {
    if !branches(s, i) {
        s
    } else {
        match i {
            JumpInstruction::CallN16(n) => called::<M>(s, n),
            JumpInstruction::CallCCN16(_, n) => called::<M>(s, n),
            JumpInstruction::JpHL => CpuState { pc: s.hl, ..s },
            JumpInstruction::JpN16(n) => CpuState { pc: RegisterPairValue::of(n), ..s },
            JumpInstruction::JpCCN16(_, n) => CpuState { pc: RegisterPairValue::of(n), ..s },
            JumpInstruction::JrN8(e) => CpuState {
                pc: RegisterPairValue::of(address_after(s.pc.value(), e as int)),
                ..s
            },
            JumpInstruction::JrCCN8(_, e) => CpuState {
                pc: RegisterPairValue::of(address_after(s.pc.value(), e as int)),
                ..s
            },
            JumpInstruction::RetCC(_) => returned::<M>(s),
            JumpInstruction::Ret => returned::<M>(s),
            JumpInstruction::Reti => CpuState { ime: true, ..returned::<M>(s) },
            JumpInstruction::Rst(vector) => called::<M>(s, vector),
        }
    }
}

/// The state after a jump instruction.
pub open spec fn after_jump<M: Memory>(s: CpuState<M::V>, i: JumpInstruction) -> CpuState<M::V> {
    charged(jump_effect::<M>(s, i), cycles(Instruction::Jump(i), branches(s, i)))
}

/// The flags after the signed offset `e` is added to `sp`: Z and N clear, H
/// and C as carries out of bit 3 and bit 7 of the low byte of `sp` plus the
/// offset taken as an unsigned byte.
pub open spec fn offset_flags(sp: u16, e: i8) -> Flags {
    Flags {
        zero: false,
        subtract: false,
        half_carry: sp % 16 + unsigned(e) % 16 > 15,
        carry: sp % 256 + unsigned(e) > 255,
    }
}

/// The register pair that a word popped into AF gives: the low nibble of F
/// is dropped.
pub open spec fn flags_masked(value: u16) -> RegisterPairValue {
    RegisterPairValue { high: (value / 256) as u8, low: ((value % 256) / 16 * 16) as u8 }
}

/// The state after a stack instruction, cycles aside.
pub open spec fn stack_effect<M: Memory>(s: CpuState<M::V>, i: StackInstruction) -> CpuState<M::V> {
    let sp = s.sp.value();
    let hl = s.hl.value();
    let f = s.flags();
    match i {
        StackInstruction::AddHLSP => (CpuState {
            hl: RegisterPairValue::of(add16(hl, sp, f).0),
            ..s
        }).with_flags(add16(hl, sp, f).1),
        StackInstruction::AddSPE8(e) => (CpuState {
            sp: RegisterPairValue::of(address_after(sp, e as int)),
            ..s
        }).with_flags(offset_flags(sp, e)),
        StackInstruction::DecSP => CpuState {
            sp: RegisterPairValue::of(address_after(sp, -1)),
            ..s
        },
        StackInstruction::IncSP => CpuState {
            sp: RegisterPairValue::of(address_after(sp, 1)),
            ..s
        },
        StackInstruction::LdSPN16(n) => CpuState { sp: RegisterPairValue::of(n), ..s },
        StackInstruction::LdMemN16SP(addr) => stored::<M>(
            stored::<M>(s, addr, s.sp.low),
            address_after(addr, 1),
            s.sp.high,
        ),
        StackInstruction::LdHLSPPlusE8(e) => (CpuState {
            hl: RegisterPairValue::of(address_after(sp, e as int)),
            ..s
        }).with_flags(offset_flags(sp, e)),
        StackInstruction::LdSPHL => CpuState { sp: s.hl, ..s },
        StackInstruction::PopAF => CpuState { af: flags_masked(top::<M>(s)), ..popped::<M>(s) },
        StackInstruction::PopR16(p) => if p is AF {
            CpuState { af: flags_masked(top::<M>(s)), ..popped::<M>(s) }
        } else {
            popped::<M>(s).with_stk_pair(p, RegisterPairValue::of(top::<M>(s)))
        },
        StackInstruction::PushAF => pushed::<M>(s, s.af.value()),
        StackInstruction::PushR16(p) => pushed::<M>(s, s.stk_pair(p)),
    }
}

/// The state after a stack instruction.
pub open spec fn after_stack<M: Memory>(s: CpuState<M::V>, i: StackInstruction) -> CpuState<M::V> {
    charged(stack_effect::<M>(s, i), cycles(Instruction::Stack(i), false))
}

/// A and the flags after the decimal adjustment of `a`: 6 is added to (after
/// a subtraction, taken from) each nibble that left the decimal range or
/// carried, and C reports that the high nibble was adjusted.
pub open spec fn daa(a: u8, f: Flags) -> (u8, Flags) {
    let low_fix = f.half_carry || (!f.subtract && a % 16 > 9);
    let high_fix = f.carry || (!f.subtract && a > 0x99);
    let correction = (if low_fix {
        0x06int
    } else {
        0
    }) + (if high_fix {
        0x60int
    } else {
        0
    });
    let result = if f.subtract {
        ((a - correction) % 256) as u8
    } else {
        ((a + correction) % 256) as u8
    };
    (result, Flags { zero: result == 0, subtract: f.subtract, half_carry: false, carry: high_fix })
}

/// The state after a miscellaneous instruction, cycles aside.
pub open spec fn misc_effect<S>(s: CpuState<S>, i: MiscInstruction) -> CpuState<S> {
    let f = s.flags();
    match i {
        MiscInstruction::Ccf => s.with_flags(
            Flags { subtract: false, half_carry: false, carry: !f.carry, ..f },
        ),
        MiscInstruction::Cpl => accumulated(
            s,
            ((255 - s.af.high) as u8, Flags { subtract: true, half_carry: true, ..f }),
        ),
        MiscInstruction::DaA => accumulated(s, daa(s.af.high, f)),
        MiscInstruction::Di => CpuState { di_ctr: 2, ..s },
        MiscInstruction::Ei => CpuState { ei_ctr: 2, ..s },
        MiscInstruction::Halt => CpuState { halted: true, ..s },
        MiscInstruction::Nop => s,
        MiscInstruction::Scf => s.with_flags(
            Flags { subtract: false, half_carry: false, carry: true, ..f },
        ),
        MiscInstruction::Stop => CpuState { stopped: true, ..s },
    }
}

/// The state after a miscellaneous instruction.
pub open spec fn after_misc<S>(s: CpuState<S>, i: MiscInstruction) -> CpuState<S> {
    charged(misc_effect(s, i), cycles(Instruction::Misc(i), false))
}

/// The state after instruction `i` is executed in state `s`, whose PC
/// already points past the instruction.
pub open spec fn executed<M: Memory>(s: CpuState<M::V>, i: Instruction) -> CpuState<M::V> {
    match i {
        Instruction::Arithmetic(x) => after_arithmetic::<M>(s, x),
        Instruction::Bit(x) => after_bit::<M>(s, x),
        Instruction::Load(x) => after_load::<M>(s, x),
        Instruction::Jump(x) => after_jump::<M>(s, x),
        Instruction::Stack(x) => after_stack::<M>(s, x),
        Instruction::Misc(x) => after_misc(s, x),
    }
}

/// The lines that are both enabled and requested in state `s`.
pub open spec fn triggered<M: Memory>(s: CpuState<M::V>) -> u8 {
    M::enabled(s.mem) & M::requested(s.mem)
}

/// The state after `line` is served: its request bit and IME are cleared,
/// PC is pushed, execution continues at the line's vector and four more
/// machine cycles are owed.
pub open spec fn served<M: Memory>(s: CpuState<M::V>, line: Interrupt) -> CpuState<M::V> {
    let acknowledged = CpuState {
        mem: M::with_requested(s.mem, M::requested(s.mem) & !line.mask()),
        ime: false,
        ..s
    };
    CpuState {
        pc: RegisterPairValue::of(line.vector()),
        stall: (s.stall + INTERRUPT_STALL) as usize,
        ..pushed::<M>(acknowledged, s.pc.value())
    }
}

/// The state after the interrupt pipeline ran: a triggered line wakes a
/// halted processor, and with IME set the triggered line of lowest index is
/// served.
pub open spec fn interrupted<M: Memory>(s: CpuState<M::V>) -> CpuState<M::V> {
    match Interrupt::first_of(triggered::<M>(s)) {
        None => s,
        Some(line) => if s.ime {
            served::<M>(CpuState { halted: false, ..s }, line)
        } else {
            CpuState { halted: false, ..s }
        },
    }
}

/// The state after the delayed EI and DI took their step: the one whose
/// countdown stands at 1 changes IME (EI wins over DI), and both countdowns
/// go down by one.
pub open spec fn latched<S>(s: CpuState<S>) -> CpuState<S> {
    CpuState {
        ime: if s.ei_ctr == 1 {
            true
        } else if s.di_ctr == 1 {
            false
        } else {
            s.ime
        },
        di_ctr: if s.di_ctr == 0 {
            0u8
        } else {
            (s.di_ctr - 1) as u8
        },
        ei_ctr: if s.ei_ctr == 0 {
            0u8
        } else {
            (s.ei_ctr - 1) as u8
        },
        ..s
    }
}

/// Whether a step in state `s` fetches an instruction: nothing is owed and
/// the processor is neither halted nor stopped.
pub open spec fn fetches<S>(s: CpuState<S>) -> bool {
    s.stall == 0 && !s.halted && !s.stopped
}

/// Whether a step in state `s` runs into an undefined opcode.
pub open spec fn faults<M: Memory>(s: CpuState<M::V>) -> bool {
    fetches(s) && decode_at::<M>(s.mem, s.pc.value()) is Err
}

/// The state after one step that does not fault: the latches move; then a
/// cycle owed is paid, or else the instruction at PC is decoded and
/// executed with PC past it; then the interrupt pipeline runs, unless the
/// processor is stopped; then one machine cycle passes in the memory.
pub open spec fn stepped<M: Memory>(s: CpuState<M::V>) -> CpuState<M::V> {
    let l = latched(s);
    let e = if l.stall > 0 {
        CpuState { stall: (l.stall - 1) as usize, ..l }
    } else if fetches(l) {
        match decode_at::<M>(l.mem, l.pc.value()) {
            Ok(d) => executed::<M>(CpuState { pc: RegisterPairValue::of(d.1), ..l }, d.0),
            Err(_) => l,
        }
    } else {
        l
    };
    let t = if e.stopped {
        e
    } else {
        interrupted::<M>(e)
    };
    CpuState { mem: M::ticked(t.mem), ..t }
}

/// Machine cycles in one frame of the display: 154 scanlines of 114.
pub const CYCLES_PER_FRAME: usize = 17556;

/// The state after `n` steps from state `s`, none of which faults.
pub open spec fn after_steps<M: Memory>(s: CpuState<M::V>, n: nat) -> CpuState<M::V>
    decreases n,
{
    if n == 0 {
        s
    } else {
        stepped::<M>(after_steps::<M>(s, (n - 1) as nat))
    }
}

/// Whether none of the first `n` steps from state `s` faults.
pub open spec fn runs_clean<M: Memory>(s: CpuState<M::V>, n: nat) -> bool {
    forall|k: nat| k < n ==> !faults::<M>(#[trigger] after_steps::<M>(s, k))
}

/// Every instruction takes between one and six machine cycles.
pub proof fn lemma_cycles_range(i: Instruction, taken: bool)
    ensures
        1 <= cycles(i, taken) <= 6,
{
}

impl<M: Memory> Cpu<M> {
    /// What every operation needs and keeps: the memory's invariant and the
    /// bound on the stall counter.
    pub open spec fn wf(&self) -> bool {
        self.mem.inv() && self@.bounded()
    }

    /// A processor in its power-on state over `mem`.
    pub fn new(mem: M) -> (r: Self)
        requires
            mem.inv(),
        ensures
            r@ == CpuState::power_on(mem@),
            r.wf(),
    {
        Self {
            af: RegisterPairValue { high: 0x01, low: Flags {
                zero: true,
                subtract: false,
                half_carry: false,
                carry: false,
            }.bits() },
            bc: RegisterPairValue { high: 0x00, low: 0x13 },
            de: RegisterPairValue { high: 0x00, low: 0xD8 },
            hl: RegisterPairValue { high: 0x01, low: 0x4D },
            sp: RegisterPairValue { high: 0xFF, low: 0xFE },
            pc: RegisterPairValue { high: 0x01, low: 0x00 },
            mem,
            disassembler: Disassembler::new(),
            ime: false,
            stall: 0,
            halted: false,
            stopped: false,
            terminate: false,
            di_ctr: 0,
            ei_ctr: 0,
        }
    }

    /// The byte in register `reg_id`.
    pub fn register(&self, reg_id: Register) -> (r: u8)
        ensures
            r == self@.reg(reg_id),
    {
        match reg_id {
            Register::A => self.af.high(),
            Register::B => self.bc.high(),
            Register::C => self.bc.low(),
            Register::D => self.de.high(),
            Register::E => self.de.low(),
            Register::H => self.hl.high(),
            Register::L => self.hl.low(),
        }
    }

    /// Register `reg_id`, to be written through.
    pub fn register_mut(&mut self, reg_id: Register) -> (r: &mut u8)
        ensures
            *r == old(self)@.reg(reg_id),
            final(self)@ == old(self)@.with_reg(reg_id, *final(r)),
            final(self).mem == old(self).mem,
            final(self).disassembler == old(self).disassembler,
    {
        match reg_id {
            Register::A => self.af.high_mut(),
            Register::B => self.bc.high_mut(),
            Register::C => self.bc.low_mut(),
            Register::D => self.de.high_mut(),
            Register::E => self.de.low_mut(),
            Register::H => self.hl.high_mut(),
            Register::L => self.hl.low_mut(),
        }
    }

    /// The word in register pair `reg_pair_id`.
    pub fn register_pair(&self, reg_pair_id: RegisterPair) -> (r: u16)
        ensures
            r == self@.pair(reg_pair_id),
    {
        match reg_pair_id {
            RegisterPair::BC => self.bc.as_u16(),
            RegisterPair::DE => self.de.as_u16(),
            RegisterPair::HL => self.hl.as_u16(),
            RegisterPair::SP => self.sp.as_u16(),
        }
    }

    /// The address that the indirect operand `reg_pair_id` names; the two HL
    /// forms step HL afterwards.
    pub fn register_pair_mem(&mut self, reg_pair_id: RegisterPairMem) -> (r: u16)
        ensures
            r == old(self)@.mem_pair(reg_pair_id),
            final(self)@ == old(self)@.after_mem_pair(reg_pair_id),
            final(self).mem == old(self).mem,
            final(self).disassembler == old(self).disassembler,
    {
        match reg_pair_id {
            RegisterPairMem::BC => self.bc.as_u16(),
            RegisterPairMem::DE => self.de.as_u16(),
            RegisterPairMem::HLI => {
                let res = self.hl.as_u16();
                self.hl = RegisterPairValue::from(Self::advance(res, 1));
                res
            },
            RegisterPairMem::HLD => {
                let res = self.hl.as_u16();
                self.hl = RegisterPairValue::from(Self::advance(res, -1));
                res
            },
        }
    }

    /// The word in the register pair `reg_pair_id` of PUSH and POP.
    pub fn register_pair_stk(&self, reg_pair_id: RegisterPairStk) -> (r: u16)
        ensures
            r == self@.stk_pair(reg_pair_id),
    {
        match reg_pair_id {
            RegisterPairStk::BC => self.bc.as_u16(),
            RegisterPairStk::DE => self.de.as_u16(),
            RegisterPairStk::HL => self.hl.as_u16(),
            RegisterPairStk::AF => self.af.as_u16(),
        }
    }

    /// Register pair `reg_pair_id`, to be written through.
    pub fn register_pair_mut(&mut self, reg_pair_id: RegisterPair) -> (r: &mut RegisterPairValue)
        ensures
            r.value() == old(self)@.pair(reg_pair_id),
            final(self)@ == old(self)@.with_pair(reg_pair_id, *final(r)),
            final(self).mem == old(self).mem,
            final(self).disassembler == old(self).disassembler,
    {
        match reg_pair_id {
            RegisterPair::BC => &mut self.bc,
            RegisterPair::DE => &mut self.de,
            RegisterPair::HL => &mut self.hl,
            RegisterPair::SP => &mut self.sp,
        }
    }

    /// The register pair `reg_pair_id` of PUSH and POP, to be written
    /// through.
    pub fn register_pair_stk_mut(&mut self, reg_pair_id: RegisterPairStk) -> (r:
        &mut RegisterPairValue)
        ensures
            r.value() == old(self)@.stk_pair(reg_pair_id),
            final(self)@ == old(self)@.with_stk_pair(reg_pair_id, *final(r)),
            final(self).mem == old(self).mem,
            final(self).disassembler == old(self).disassembler,
    {
        match reg_pair_id {
            RegisterPairStk::BC => &mut self.bc,
            RegisterPairStk::DE => &mut self.de,
            RegisterPairStk::HL => &mut self.hl,
            RegisterPairStk::AF => &mut self.af,
        }
    }

    /// Whether the branch condition holds.
    pub fn eval_cond(&self, condition: Condition) -> (r: bool)
        ensures
            r == self@.holds(condition),
    {
        match condition {
            Condition::NotZero => !self.af.flags().zero,
            Condition::Zero => self.af.flags().zero,
            Condition::NotCarry => !self.af.flags().carry,
            Condition::Carry => self.af.flags().carry,
        }
    }

    /// Pushes `value` on the stack.
    pub fn push(&mut self, value: u16)
        requires
            old(self).mem.inv(),
        ensures
            final(self).mem.inv(),
            final(self)@ == pushed::<M>(old(self)@, value),
            final(self).disassembler == old(self).disassembler,
    {
        proof {
            lemma_word_bytes(0, 0, value);
        }
        let sp = self.sp.as_u16().wrapping_sub(2);
        self.sp = RegisterPairValue::from(sp);
        self.mem.write(sp.wrapping_add(1), (value >> 8) as u8);
        self.mem.write(sp, value as u8);
    }

    /// Pops a word off the stack.
    pub fn pop(&mut self) -> (r: u16)
        requires
            old(self).mem.inv(),
        ensures
            r == top::<M>(old(self)@),
            final(self)@ == popped::<M>(old(self)@),
            final(self).mem == old(self).mem,
            final(self).disassembler == old(self).disassembler,
    {
        let lo = self.mem.get(self.sp.as_u16());
        let hi = self.mem.get(self.sp.as_u16().wrapping_add(1));
        self.sp = RegisterPairValue::from(self.sp.as_u16().wrapping_add(2));
        proof {
            lemma_word_bytes(hi, lo, 0);
        }
        (hi as u16) << 8 | lo as u16
    }
    /// Ends an instruction that leaves `result` in A and `flags` in F and
    /// owes `stall` more cycles.
    fn finish_a(&mut self, result: u8, flags: Flags, stall: usize)
        ensures
            final(self)@ == (CpuState {
                af: RegisterPairValue { high: result, low: flags.spec_bits() },
                stall,
                ..old(self)@
            }),
            final(self).mem == old(self).mem,
            final(self).disassembler == old(self).disassembler,
    {
        self.af.set_high(result);
        self.af.set_low(flags.bits());
        self.stall = stall;
    }

    /// Ends an instruction that leaves `flags` in F and owes `stall` more
    /// cycles.
    fn finish_flags(&mut self, flags: Flags, stall: usize)
        ensures
            final(self)@ == (CpuState {
                af: RegisterPairValue { low: flags.spec_bits(), ..old(self).af },
                stall,
                ..old(self)@
            }),
            final(self).mem == old(self).mem,
            final(self).disassembler == old(self).disassembler,
    {
        self.af.set_low(flags.bits());
        self.stall = stall;
    }

    /// Executes an arithmetic instruction.
    pub fn eval_arithmetic(&mut self, instruction: ArithmeticInstruction)
        requires
            old(self).mem.inv(),
        ensures
            final(self).mem.inv(),
            final(self)@ == after_arithmetic::<M>(old(self)@, instruction),
            final(self).disassembler == old(self).disassembler,
    {
        // One of the 31 forms: stated so that the solver splits on them.
        assert(
            instruction is AdcAR8 || instruction is AdcAMemHL || instruction is AdcAN8 ||
                instruction is AddAR8 || instruction is AddAMemHL || instruction is AddAN8 ||
                instruction is AndAR8 || instruction is AndAMemHL || instruction is AndAN8 ||
                instruction is CpAR8 || instruction is CpAMemHL || instruction is CpAN8 ||
                instruction is DecR8 || instruction is DecMemHL || instruction is IncR8 ||
                instruction is IncMemHL || instruction is OrAR8 || instruction is OrAMemHL ||
                instruction is OrAN8 || instruction is SbcAR8 || instruction is SbcAMemHL ||
                instruction is SbcAN8 || instruction is SubAR8 || instruction is SubAMemHL ||
                instruction is SubAN8 || instruction is XorAR8 || instruction is XorAMemHL ||
                instruction is XorAN8 || instruction is AddHLR16 || instruction is DecR16 ||
                instruction is IncR16
        );
        let mut flags = self.af.flags();
        let a = self.af.high();
        let hl = self.hl.as_u16();
        match instruction {
            ArithmeticInstruction::AdcAR8(reg) => {
                let b = self.register(reg);
                let result = op_adc(a, b, &mut flags);
                self.finish_a(result, flags, 0);
            },
            ArithmeticInstruction::AdcAMemHL => {
                let b = self.mem.get(hl);
                let result = op_adc(a, b, &mut flags);
                self.finish_a(result, flags, 1);
            },
            ArithmeticInstruction::AdcAN8(imm) => {
                let result = op_adc(a, imm, &mut flags);
                self.finish_a(result, flags, 1);
            },
            ArithmeticInstruction::AddAR8(reg) => {
                let b = self.register(reg);
                let result = op_add(a, b, &mut flags);
                self.finish_a(result, flags, 0);
            },
            ArithmeticInstruction::AddAMemHL => {
                let b = self.mem.get(hl);
                let result = op_add(a, b, &mut flags);
                self.finish_a(result, flags, 1);
            },
            ArithmeticInstruction::AddAN8(imm) => {
                let result = op_add(a, imm, &mut flags);
                self.finish_a(result, flags, 1);
            },
            ArithmeticInstruction::AndAR8(reg) => {
                let b = self.register(reg);
                let result = op_and(a, b, &mut flags);
                self.finish_a(result, flags, 0);
            },
            ArithmeticInstruction::AndAMemHL => {
                let b = self.mem.get(hl);
                let result = op_and(a, b, &mut flags);
                self.finish_a(result, flags, 1);
            },
            ArithmeticInstruction::AndAN8(imm) => {
                let result = op_and(a, imm, &mut flags);
                self.finish_a(result, flags, 1);
            },
            ArithmeticInstruction::CpAR8(reg) => {
                let b = self.register(reg);
                op_cp(a, b, &mut flags);
                self.finish_flags(flags, 0);
            },
            ArithmeticInstruction::CpAMemHL => {
                let b = self.mem.get(hl);
                op_cp(a, b, &mut flags);
                self.finish_flags(flags, 1);
            },
            ArithmeticInstruction::CpAN8(imm) => {
                op_cp(a, imm, &mut flags);
                self.finish_flags(flags, 1);
            },
            ArithmeticInstruction::DecR8(reg) => {
                let b = self.register(reg);
                *self.register_mut(reg) = op_dec(b, &mut flags);
                self.finish_flags(flags, 0);
            },
            ArithmeticInstruction::DecMemHL => {
                let b = self.mem.get(hl);
                self.mem.write(hl, op_dec(b, &mut flags));
                self.finish_flags(flags, 2);
            },
            ArithmeticInstruction::IncR8(reg) => {
                let b = self.register(reg);
                *self.register_mut(reg) = op_inc(b, &mut flags);
                self.finish_flags(flags, 0);
            },
            ArithmeticInstruction::IncMemHL => {
                let b = self.mem.get(hl);
                self.mem.write(hl, op_inc(b, &mut flags));
                self.finish_flags(flags, 2);
            },
            ArithmeticInstruction::OrAR8(reg) => {
                let b = self.register(reg);
                let result = op_or(a, b, &mut flags);
                self.finish_a(result, flags, 0);
            },
            ArithmeticInstruction::OrAMemHL => {
                let b = self.mem.get(hl);
                let result = op_or(a, b, &mut flags);
                self.finish_a(result, flags, 1);
            },
            ArithmeticInstruction::OrAN8(imm) => {
                let result = op_or(a, imm, &mut flags);
                self.finish_a(result, flags, 1);
            },
            ArithmeticInstruction::SbcAR8(reg) => {
                let b = self.register(reg);
                let result = op_sbc(a, b, &mut flags);
                self.finish_a(result, flags, 0);
            },
            ArithmeticInstruction::SbcAMemHL => {
                let b = self.mem.get(hl);
                let result = op_sbc(a, b, &mut flags);
                self.finish_a(result, flags, 1);
            },
            ArithmeticInstruction::SbcAN8(imm) => {
                let result = op_sbc(a, imm, &mut flags);
                self.finish_a(result, flags, 1);
            },
            ArithmeticInstruction::SubAR8(reg) => {
                let b = self.register(reg);
                let result = op_sub(a, b, &mut flags);
                self.finish_a(result, flags, 0);
            },
            ArithmeticInstruction::SubAMemHL => {
                let b = self.mem.get(hl);
                let result = op_sub(a, b, &mut flags);
                self.finish_a(result, flags, 1);
            },
            ArithmeticInstruction::SubAN8(imm) => {
                let result = op_sub(a, imm, &mut flags);
                self.finish_a(result, flags, 1);
            },
            ArithmeticInstruction::XorAR8(reg) => {
                let b = self.register(reg);
                let result = op_xor(a, b, &mut flags);
                self.finish_a(result, flags, 0);
            },
            ArithmeticInstruction::XorAMemHL => {
                let b = self.mem.get(hl);
                let result = op_xor(a, b, &mut flags);
                self.finish_a(result, flags, 1);
            },
            ArithmeticInstruction::XorAN8(imm) => {
                let result = op_xor(a, imm, &mut flags);
                self.finish_a(result, flags, 1);
            },
            ArithmeticInstruction::AddHLR16(reg) => {
                let b = self.register_pair(reg);
                self.hl = RegisterPairValue::from(op_add16(hl, b, &mut flags));
                self.finish_flags(flags, 1);
            },
            ArithmeticInstruction::DecR16(reg) => {
                let b = self.register_pair(reg);
                *self.register_pair_mut(reg) = RegisterPairValue::from(op_dec16(b));
                self.finish_flags(flags, 1);
            },
            ArithmeticInstruction::IncR16(reg) => {
                let b = self.register_pair(reg);
                *self.register_pair_mut(reg) = RegisterPairValue::from(op_inc16(b));
                self.finish_flags(flags, 1);
            },
        }
    }
    /// Executes a bit instruction.
    pub fn eval_bit(&mut self, instruction: BitInstruction)
        requires
            old(self).mem.inv(),
            instruction.valid(),
        ensures
            final(self).mem.inv(),
            final(self)@ == after_bit::<M>(old(self)@, instruction),
            final(self).disassembler == old(self).disassembler,
    {
        // One of the 26 forms: stated so that the solver splits on them.
        assert(instruction is Bit || instruction is BitMemHL || instruction is Res
            || instruction is ResMemHL || instruction is SetR8 || instruction is SetMemHL
            || instruction is Swap || instruction is SwapMemHL || instruction is Rl
            || instruction is RlMemHL || instruction is Rla || instruction is Rlc
            || instruction is RlcMemHL || instruction is Rlca || instruction is Rr
            || instruction is RrMemHL || instruction is Rra || instruction is Rrc
            || instruction is RrcMemHL || instruction is Rrca || instruction is Sla
            || instruction is SlaMemHL || instruction is Sra || instruction is SraMemHL
            || instruction is Srl || instruction is SrlMemHL);
        let mut flags = self.af.flags();
        let hl = self.hl.as_u16();
        match instruction {
            BitInstruction::Bit(a, reg) => {
                op_bit(a, self.register(reg), &mut flags);
                self.finish_flags(flags, 1);
            },
            BitInstruction::BitMemHL(a) => {
                op_bit(a, self.mem.get(hl), &mut flags);
                self.finish_flags(flags, 2);
            },
            BitInstruction::Res(a, reg) => {
                let prev = self.register(reg);
                *self.register_mut(reg) = op_res(a, prev);
                self.finish_flags(flags, 1);
            },
            BitInstruction::ResMemHL(a) => {
                let prev = self.mem.get(hl);
                self.mem.write(hl, op_res(a, prev));
                self.finish_flags(flags, 3);
            },
            BitInstruction::SetR8(a, reg) => {
                let prev = self.register(reg);
                *self.register_mut(reg) = op_set(a, prev);
                self.finish_flags(flags, 1);
            },
            BitInstruction::SetMemHL(a) => {
                let prev = self.mem.get(hl);
                self.mem.write(hl, op_set(a, prev));
                self.finish_flags(flags, 3);
            },
            BitInstruction::Swap(reg) => {
                let prev = self.register(reg);
                *self.register_mut(reg) = op_swap(prev, &mut flags);
                self.finish_flags(flags, 1);
            },
            BitInstruction::SwapMemHL => {
                let prev = self.mem.get(hl);
                self.mem.write(hl, op_swap(prev, &mut flags));
                self.finish_flags(flags, 3);
            },
            BitInstruction::Rl(reg) => {
                let prev = self.register(reg);
                *self.register_mut(reg) = op_rl(prev, &mut flags, false);
                self.finish_flags(flags, 1);
            },
            BitInstruction::RlMemHL => {
                let prev = self.mem.get(hl);
                self.mem.write(hl, op_rl(prev, &mut flags, false));
                self.finish_flags(flags, 3);
            },
            BitInstruction::Rla => {
                let prev = self.register(Register::A);
                *self.register_mut(Register::A) = op_rl(prev, &mut flags, true);
                self.finish_flags(flags, 0);
            },
            BitInstruction::Rlc(reg) => {
                let prev = self.register(reg);
                *self.register_mut(reg) = op_rlc(prev, &mut flags, false);
                self.finish_flags(flags, 1);
            },
            BitInstruction::RlcMemHL => {
                let prev = self.mem.get(hl);
                self.mem.write(hl, op_rlc(prev, &mut flags, false));
                self.finish_flags(flags, 3);
            },
            BitInstruction::Rlca => {
                let prev = self.register(Register::A);
                *self.register_mut(Register::A) = op_rlc(prev, &mut flags, true);
                self.finish_flags(flags, 0);
            },
            BitInstruction::Rr(reg) => {
                let prev = self.register(reg);
                *self.register_mut(reg) = op_rr(prev, &mut flags, false);
                self.finish_flags(flags, 1);
            },
            BitInstruction::RrMemHL => {
                let prev = self.mem.get(hl);
                self.mem.write(hl, op_rr(prev, &mut flags, false));
                self.finish_flags(flags, 3);
            },
            BitInstruction::Rra => {
                let prev = self.register(Register::A);
                *self.register_mut(Register::A) = op_rr(prev, &mut flags, true);
                self.finish_flags(flags, 0);
            },
            BitInstruction::Rrc(reg) => {
                let prev = self.register(reg);
                *self.register_mut(reg) = op_rrc(prev, &mut flags, false);
                self.finish_flags(flags, 1);
            },
            BitInstruction::RrcMemHL => {
                let prev = self.mem.get(hl);
                self.mem.write(hl, op_rrc(prev, &mut flags, false));
                self.finish_flags(flags, 3);
            },
            BitInstruction::Rrca => {
                let prev = self.register(Register::A);
                *self.register_mut(Register::A) = op_rrc(prev, &mut flags, true);
                self.finish_flags(flags, 0);
            },
            BitInstruction::Sla(reg) => {
                let prev = self.register(reg);
                *self.register_mut(reg) = op_sla(prev, &mut flags);
                self.finish_flags(flags, 1);
            },
            BitInstruction::SlaMemHL => {
                let prev = self.mem.get(hl);
                self.mem.write(hl, op_sla(prev, &mut flags));
                self.finish_flags(flags, 3);
            },
            BitInstruction::Sra(reg) => {
                let prev = self.register(reg);
                *self.register_mut(reg) = op_sra(prev, &mut flags);
                self.finish_flags(flags, 1);
            },
            BitInstruction::SraMemHL => {
                let prev = self.mem.get(hl);
                self.mem.write(hl, op_sra(prev, &mut flags));
                self.finish_flags(flags, 3);
            },
            BitInstruction::Srl(reg) => {
                let prev = self.register(reg);
                *self.register_mut(reg) = op_srl(prev, &mut flags);
                self.finish_flags(flags, 1);
            },
            BitInstruction::SrlMemHL => {
                let prev = self.mem.get(hl);
                self.mem.write(hl, op_srl(prev, &mut flags));
                self.finish_flags(flags, 3);
            },
        }
    }

    /// Executes a load instruction.
    pub fn eval_load(&mut self, instruction: LoadInstruction)
        requires
            old(self).mem.inv(),
            instruction.valid(),
        ensures
            final(self).mem.inv(),
            final(self)@ == after_load::<M>(old(self)@, instruction),
            final(self).disassembler == old(self).disassembler,
    {
        // One of the 20 forms: stated so that the solver splits on them.
        assert(instruction is LdR8R8 || instruction is LdR8N8 || instruction is LdR16N16
            || instruction is LdMemHLR8 || instruction is LdMemHLN8 || instruction is LdR8MemHL
            || instruction is LdMemR16A || instruction is LdMemN16A || instruction is LdhMemN16A
            || instruction is LdhMemCA || instruction is LdAMemR16 || instruction is LdAMemN16
            || instruction is LdhAMemN16 || instruction is LdhAMemC || instruction is LdMemHLIA
            || instruction is LdMemHLDA || instruction is LdAMemHLI || instruction is LdAMemHLD
            || instruction is LdhAMemN8 || instruction is LdhMemN8A);
        let a = self.af.high();
        let hl = self.hl.as_u16();
        match instruction {
            LoadInstruction::LdR8R8(reg1, reg2) => {
                let val = self.register(reg2);
                *self.register_mut(reg1) = val;
                self.stall = 0;
            },
            LoadInstruction::LdR8N8(reg, imm) => {
                *self.register_mut(reg) = imm;
                self.stall = 1;
            },
            LoadInstruction::LdR16N16(reg, imm) => {
                *self.register_pair_mut(reg) = RegisterPairValue::from(imm);
                self.stall = 2;
            },
            LoadInstruction::LdMemHLR8(reg) => {
                let val = self.register(reg);
                self.mem.write(hl, val);
                self.stall = 1;
            },
            LoadInstruction::LdMemHLN8(imm) => {
                self.mem.write(hl, imm);
                self.stall = 2;
            },
            LoadInstruction::LdR8MemHL(reg) => {
                let val = self.mem.get(hl);
                *self.register_mut(reg) = val;
                self.stall = 1;
            },
            LoadInstruction::LdMemR16A(reg) => {
                let addr = self.register_pair_mem(reg);
                self.mem.write(addr, a);
                self.stall = 1;
            },
            LoadInstruction::LdMemN16A(addr) => {
                self.mem.write(addr, a);
                self.stall = 3;
            },
            LoadInstruction::LdhMemN16A(addr) => {
                self.mem.write(0xFF00 + addr, a);
                self.stall = 2;
            },
            LoadInstruction::LdhMemCA => {
                self.mem.write(0xFF00 + self.bc.low() as u16, a);
                self.stall = 1;
            },
            LoadInstruction::LdAMemR16(reg) => {
                let addr = self.register_pair_mem(reg);
                let val = self.mem.get(addr);
                self.af.set_high(val);
                self.stall = 1;
            },
            LoadInstruction::LdAMemN16(addr) => {
                let val = self.mem.get(addr);
                self.af.set_high(val);
                self.stall = 3;
            },
            LoadInstruction::LdhAMemN16(addr) => {
                let val = self.mem.get(0xFF00 + addr);
                self.af.set_high(val);
                self.stall = 2;
            },
            LoadInstruction::LdhAMemC => {
                let val = self.mem.get(0xFF00 + self.bc.low() as u16);
                self.af.set_high(val);
                self.stall = 1;
            },
            LoadInstruction::LdMemHLIA => {
                self.mem.write(hl, a);
                self.hl = RegisterPairValue::from(Self::advance(hl, 1));
                self.stall = 1;
            },
            LoadInstruction::LdMemHLDA => {
                self.mem.write(hl, a);
                self.hl = RegisterPairValue::from(Self::advance(hl, -1));
                self.stall = 1;
            },
            LoadInstruction::LdAMemHLI => {
                let val = self.mem.get(hl);
                self.af.set_high(val);
                self.hl = RegisterPairValue::from(Self::advance(hl, 1));
                self.stall = 1;
            },
            LoadInstruction::LdAMemHLD => {
                let val = self.mem.get(hl);
                self.af.set_high(val);
                self.hl = RegisterPairValue::from(Self::advance(hl, -1));
                self.stall = 1;
            },
            LoadInstruction::LdhAMemN8(addr) => {
                let val = self.mem.get(0xFF00 + addr as u16);
                self.af.set_high(val);
                self.stall = 2;
            },
            LoadInstruction::LdhMemN8A(addr) => {
                self.mem.write(0xFF00 + addr as u16, a);
                self.stall = 2;
            },
        }
    }

    /// The address `by` bytes after `addr`, wrapping round at 64 KiB.
    fn advance(addr: u16, by: i16) -> (r: u16)
        ensures
            r == address_after(addr, by as int),
    {
        addr.wrapping_add_signed(by)
    }

    /// Decimal adjustment of `a` after an addition or subtraction of packed
    /// decimal numbers.
    fn decimal_adjust(a: u8, flags: Flags) -> (r: (u8, Flags))
        ensures
            r == daa(a, flags),
    {
        let low_fix = flags.half_carry || (!flags.subtract && a % 16 > 9);
        let high_fix = flags.carry || (!flags.subtract && a > 0x99);
        let mut correction: u8 = 0;
        if low_fix {
            correction = correction + 0x06;
        }
        if high_fix {
            correction = correction + 0x60;
        }
        let result = if flags.subtract {
            a.wrapping_sub(correction)
        } else {
            a.wrapping_add(correction)
        };
        (
            result,
            Flags {
                zero: result == 0,
                subtract: flags.subtract,
                half_carry: false,
                carry: high_fix,
            },
        )
    }

    /// The complement of `a`.
    fn complement(a: u8) -> (r: u8)
        ensures
            r == 255 - a,
    {
        proof {
            lemma_unsigned_byte(0, a);
        }
        !a
    }

    /// Continues at `target` after pushing the address of the next
    /// instruction.
    fn call(&mut self, target: u16, stall: usize)
        requires
            old(self).mem.inv(),
        ensures
            final(self).mem.inv(),
            final(self)@ == (CpuState { stall, ..called::<M>(old(self)@, target) }),
            final(self).disassembler == old(self).disassembler,
    {
        self.push(self.pc.as_u16());
        self.pc = RegisterPairValue::from(target);
        self.stall = stall;
    }

    /// Continues at the address popped off the stack.
    fn ret(&mut self, stall: usize)
        requires
            old(self).mem.inv(),
        ensures
            final(self)@ == (CpuState { stall, ..returned::<M>(old(self)@) }),
            final(self).mem == old(self).mem,
            final(self).disassembler == old(self).disassembler,
    {
        let target = self.pop();
        self.pc = RegisterPairValue::from(target);
        self.stall = stall;
    }

    /// Continues at `target`.
    fn jump(&mut self, target: u16, stall: usize)
        ensures
            final(self)@ == (CpuState {
                pc: RegisterPairValue::of(target),
                stall,
                ..old(self)@
            }),
            final(self).mem == old(self).mem,
            final(self).disassembler == old(self).disassembler,
    {
        self.pc = RegisterPairValue::from(target);
        self.stall = stall;
    }

    /// Executes a jump instruction; PC already holds the address of the
    /// instruction that follows it.
    pub fn eval_jump(&mut self, instruction: JumpInstruction)
        requires
            old(self).mem.inv(),
        ensures
            final(self).mem.inv(),
            final(self)@ == after_jump::<M>(old(self)@, instruction),
            final(self).disassembler == old(self).disassembler,
    {
        match instruction {
            JumpInstruction::CallN16(imm) => {
                self.call(imm, 5);
            },
            JumpInstruction::CallCCN16(cond, imm) => {
                if self.eval_cond(cond) {
                    self.call(imm, 5);
                } else {
                    self.stall = 2;
                }
            },
            JumpInstruction::JpHL => {
                self.pc = self.hl;
                self.stall = 0;
            },
            JumpInstruction::JpN16(imm) => {
                self.jump(imm, 3);
            },
            JumpInstruction::JpCCN16(cond, imm) => {
                if self.eval_cond(cond) {
                    self.jump(imm, 3);
                } else {
                    self.stall = 2;
                }
            },
            JumpInstruction::JrN8(imm) => {
                self.jump(Self::advance(self.pc.as_u16(), imm as i16), 2);
            },
            JumpInstruction::JrCCN8(cond, imm) => {
                if self.eval_cond(cond) {
                    self.jump(Self::advance(self.pc.as_u16(), imm as i16), 2);
                } else {
                    self.stall = 1;
                }
            },
            JumpInstruction::RetCC(cond) => {
                if self.eval_cond(cond) {
                    self.ret(4);
                } else {
                    self.stall = 1;
                }
            },
            JumpInstruction::Ret => {
                self.ret(3);
            },
            JumpInstruction::Reti => {
                self.ret(3);
                self.ime = true;
            },
            JumpInstruction::Rst(vec) => {
                self.call(vec, 3);
            },
        }
    }

    /// Executes a stack instruction.
    pub fn eval_stack(&mut self, instruction: StackInstruction)
        requires
            old(self).mem.inv(),
        ensures
            final(self).mem.inv(),
            final(self)@ == after_stack::<M>(old(self)@, instruction),
            final(self).disassembler == old(self).disassembler,
    {
        let sp = self.sp.as_u16();
        match instruction {
            StackInstruction::AddHLSP => {
                let mut flags = self.af.flags();
                self.hl = RegisterPairValue::from(op_add16(self.hl.as_u16(), sp, &mut flags));
                self.finish_flags(flags, 1);
            },
            StackInstruction::AddSPE8(imm) => {
                let flags = Self::offset_carries(sp, imm);
                self.sp = RegisterPairValue::from(Self::advance(sp, imm as i16));
                self.finish_flags(flags, 3);
            },
            StackInstruction::DecSP => {
                self.sp = RegisterPairValue::from(Self::advance(sp, -1));
                self.stall = 1;
            },
            StackInstruction::IncSP => {
                self.sp = RegisterPairValue::from(Self::advance(sp, 1));
                self.stall = 1;
            },
            StackInstruction::LdSPN16(imm) => {
                self.sp = RegisterPairValue::from(imm);
                self.stall = 2;
            },
            StackInstruction::LdMemN16SP(addr) => {
                self.mem.write(addr, self.sp.low());
                self.mem.write(Self::advance(addr, 1), self.sp.high());
                self.stall = 4;
            },
            StackInstruction::LdHLSPPlusE8(imm) => {
                let flags = Self::offset_carries(sp, imm);
                self.hl = RegisterPairValue::from(Self::advance(sp, imm as i16));
                self.finish_flags(flags, 2);
            },
            StackInstruction::LdSPHL => {
                self.sp = self.hl;
                self.stall = 1;
            },
            StackInstruction::PopAF => {
                self.pop_af();
            },
            StackInstruction::PopR16(reg) => {
                match reg {
                    RegisterPairStk::AF => {
                        self.pop_af();
                    },
                    _ => {
                        let value = self.pop();
                        *self.register_pair_stk_mut(reg) = RegisterPairValue::from(value);
                        self.stall = 2;
                    },
                }
            },
            StackInstruction::PushAF => {
                self.push(self.af.as_u16());
                self.stall = 3;
            },
            StackInstruction::PushR16(reg) => {
                self.push(self.register_pair_stk(reg));
                self.stall = 3;
            },
        }
    }

    /// Pops AF; the low nibble of F is dropped.
    fn pop_af(&mut self)
        requires
            old(self).mem.inv(),
        ensures
            final(self)@ == (CpuState {
                af: flags_masked(top::<M>(old(self)@)),
                stall: 2,
                ..popped::<M>(old(self)@)
            }),
            final(self).mem == old(self).mem,
            final(self).disassembler == old(self).disassembler,
    {
        let value = self.pop();
        self.af = RegisterPairValue::from(value);
        let flags = self.af.flags();
        self.af.set_low(flags.bits());
        self.stall = 2;
    }

    /// The flags of adding the signed offset `imm` to `sp`.
    fn offset_carries(sp: u16, imm: i8) -> (r: Flags)
        ensures
            r == offset_flags(sp, imm),
    {
        let byte: u8 = #[verifier::truncate]
        (imm as u8);
        let low: u8 = #[verifier::truncate]
        (sp as u8);
        proof {
            lemma_unsigned_byte(imm, 0);
            lemma_word_bytes(0, 0, sp);
            crate::arithmetic::lemma_low_nibble(low, byte);
        }
        Flags {
            zero: false,
            subtract: false,
            half_carry: (low & 0xF) + (byte & 0xF) > 0xF,
            carry: (low as u16) + (byte as u16) > 0xFF,
        }
    }

    /// Executes a miscellaneous instruction.
    pub fn eval_misc(&mut self, instruction: MiscInstruction)
        ensures
            final(self)@ == after_misc(old(self)@, instruction),
            final(self).mem == old(self).mem,
            final(self).disassembler == old(self).disassembler,
    {
        let mut flags = self.af.flags();
        let a = self.af.high();
        match instruction {
            MiscInstruction::Ccf => {
                flags.carry = !flags.carry;
                flags.subtract = false;
                flags.half_carry = false;
                self.finish_flags(flags, 0);
            },
            MiscInstruction::Cpl => {
                flags.subtract = true;
                flags.half_carry = true;
                self.finish_a(Self::complement(a), flags, 0);
            },
            MiscInstruction::DaA => {
                let adjusted = Self::decimal_adjust(a, flags);
                self.finish_a(adjusted.0, adjusted.1, 0);
            },
            MiscInstruction::Di => {
                self.di_ctr = 2;
                self.stall = 0;
            },
            MiscInstruction::Ei => {
                self.ei_ctr = 2;
                self.stall = 0;
            },
            MiscInstruction::Halt => {
                self.halted = true;
                self.stall = 0;
            },
            MiscInstruction::Nop => {
                self.stall = 0;
            },
            MiscInstruction::Scf => {
                flags.carry = true;
                flags.subtract = false;
                flags.half_carry = false;
                self.finish_flags(flags, 0);
            },
            MiscInstruction::Stop => {
                self.stopped = true;
                self.stall = 0;
            },
        }
    }

    /// Runs the interrupt pipeline: wakes a halted processor when a line is
    /// both enabled and requested, and with IME set serves the one of lowest
    /// index.
    pub fn handle_interrupt(&mut self)
        requires
            old(self).wf(),
        ensures
            final(self).wf(),
            final(self)@ == interrupted::<M>(old(self)@),
            final(self).disassembler == old(self).disassembler,
    {
        let pending = self.mem.enabled_interrupts() & self.mem.requested_interrupts();
        match Interrupt::select(pending) {
            None => {},
            Some(line) => {
                self.halted = false;
                if self.ime {
                    self.mem.clear_requested_interrupt(line);
                    self.ime = false;
                    self.push(self.pc.as_u16());
                    self.pc = RegisterPairValue::from(line.handler());
                    self.stall = self.stall + INTERRUPT_STALL;
                }
            },
        }
    }

    /// Executes a decoded instruction; PC already points past it.
    pub fn execute(&mut self, instruction: Instruction)
        requires
            old(self).mem.inv(),
            instruction.valid(),
        ensures
            final(self).mem.inv(),
            final(self)@ == executed::<M>(old(self)@, instruction),
            final(self).stall <= 5,
            final(self).disassembler == old(self).disassembler,
    {
        proof {
            lemma_cycles_range(instruction, true);
            lemma_cycles_range(instruction, false);
        }
        match instruction {
            Instruction::Arithmetic(x) => self.eval_arithmetic(x),
            Instruction::Bit(x) => self.eval_bit(x),
            Instruction::Load(x) => self.eval_load(x),
            Instruction::Jump(x) => self.eval_jump(x),
            Instruction::Stack(x) => self.eval_stack(x),
            Instruction::Misc(x) => self.eval_misc(x),
        }
    }

    /// Advances the processor by one machine cycle. On an undefined opcode
    /// nothing is executed: the processor is marked for termination and the
    /// opcode is returned.
    #[verifier::rlimit(40)]
    pub fn cycle(&mut self) -> (r: Result<(), DecodeError>)
        requires
            old(self).wf(),
        ensures
            final(self).wf(),
            r is Err <==> faults::<M>(old(self)@),
            r is Ok ==> final(self)@ == stepped::<M>(old(self)@),
            r matches Err(e) ==> decode_at::<M>(old(self)@.mem, old(self).pc.value()) == Err::<
                (Instruction, u16),
                DecodeError,
            >(e) && final(self)@ == (CpuState { terminate: true, ..old(self)@ }),
    {
        let mut decoded: Option<(Instruction, u16)> = None;
        if self.stall == 0 && !self.halted && !self.stopped {
            match self.disassembler.disassemble(&self.mem, self.pc.as_u16()) {
                Ok(d) => {
                    decoded = Some(d);
                },
                Err(e) => {
                    self.terminate = true;
                    return Err(e);
                },
            }
        }
        if self.di_ctr == 1 {
            self.ime = false;
        }
        if self.ei_ctr == 1 {
            self.ime = true;
        }
        self.di_ctr = self.di_ctr.saturating_sub(1);
        self.ei_ctr = self.ei_ctr.saturating_sub(1);
        if self.stall > 0 {
            self.stall = self.stall - 1;
        } else {
            match decoded {
                Some(d) => {
                    self.pc = RegisterPairValue::from(d.1);
                    self.execute(d.0);
                },
                None => {},
            }
        }
        if !self.stopped {
            self.handle_interrupt();
        }
        self.mem.cycle();
        Ok(())
    }

    /// Applies a control message from the host: `Terminate` marks the
    /// processor for termination, `Reset` puts it back in its power-on state
    /// over the memory as it is, and any other message goes to the memory.
    pub fn control_message(&mut self, msg: ControlMsg)
        requires
            old(self).wf(),
            msg is Terminate || msg is Reset || M::accepts(msg),
        ensures
            final(self).wf(),
            final(self)@ == (match msg {
                ControlMsg::Terminate => CpuState { terminate: true, ..old(self)@ },
                ControlMsg::Reset => CpuState {
                    terminate: old(self).terminate,
                    ..CpuState::power_on(old(self)@.mem)
                },
                _ => CpuState { mem: M::controlled(old(self)@.mem, msg), ..old(self)@ },
            }),
    {
        match msg {
            ControlMsg::Terminate => {
                self.terminate = true;
            },
            ControlMsg::Reset => {
                self.af = RegisterPairValue { high: 0x01, low: 0x80 };
                self.bc = RegisterPairValue { high: 0x00, low: 0x13 };
                self.de = RegisterPairValue { high: 0x00, low: 0xD8 };
                self.hl = RegisterPairValue { high: 0x01, low: 0x4D };
                self.sp = RegisterPairValue { high: 0xFF, low: 0xFE };
                self.pc = RegisterPairValue { high: 0x01, low: 0x00 };
                self.ime = false;
                self.stall = 0;
                self.halted = false;
                self.stopped = false;
                self.di_ctr = 0;
                self.ei_ctr = 0;
            },
            _ => {
                self.mem.control_msg(msg);
            },
        }
    }
    /// Runs `count` machine cycles, or as many as pass before an undefined
    /// opcode is met. No control message is looked at in between: the host
    /// applies them between batches.
    pub fn run_batch(&mut self, count: usize) -> (r: Result<(), DecodeError>)
        requires
            old(self).wf(),
        ensures
            final(self).wf(),
            r is Ok <==> runs_clean::<M>(old(self)@, count as nat),
            r is Ok ==> final(self)@ == after_steps::<M>(old(self)@, count as nat),
            r matches Err(e) ==> exists|k: nat|
                k < count && runs_clean::<M>(old(self)@, k) && final(self)@ == (CpuState {
                    terminate: true,
                    ..#[trigger] after_steps::<M>(old(self)@, k)
                }) && decode_at::<M>(final(self)@.mem, final(self).pc.value()) == Err::<
                    (Instruction, u16),
                    DecodeError,
                >(e),
    {
        let mut done: usize = 0;
        while done < count
            invariant
                done <= count,
                self.wf(),
                self@ == after_steps::<M>(old(self)@, done as nat),
                runs_clean::<M>(old(self)@, done as nat),
            decreases count - done,
        {
            let ghost before = self@;
            match self.cycle() {
                Ok(()) => {},
                Err(e) => {
                    assert(faults::<M>(after_steps::<M>(old(self)@, done as nat)));
                    return Err(e);
                },
            }
            done += 1;
        }
        Ok(())
    }
}

} // verus!
