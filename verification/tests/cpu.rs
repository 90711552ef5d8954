use rustgb::cpu::Cpu;
use rustgb::disassembler::DecodeError;
use rustgb::isa::{
    ArithmeticInstruction, BitInstruction, Condition, Instruction, JumpInstruction,
    LoadInstruction, MiscInstruction, StackInstruction,
};
use rustgb::memory::{LinearMemory, Memory, RegisterPairValue};
use rustgb::{ControlMsg, Register, RegisterPair, RegisterPairMem, RegisterPairStk};

type Flat = LinearMemory<65536>;

fn cpu_with(program: &[u8], at: u16) -> Box<Cpu<Flat>> {
    let mut cpu = Box::new(Cpu::new(Flat::new()));
    let mut addr = at;
    for b in program {
        cpu.mem.write(addr, *b);
        addr = addr.wrapping_add(1);
    }
    cpu.pc = RegisterPairValue::from(at);
    cpu
}

fn finish_instruction(cpu: &mut Cpu<Flat>) {
    while cpu.stall > 0 {
        assert_eq!(cpu.cycle(), Ok(()));
    }
}

#[test]
fn power_on_state() {
    let cpu = Box::new(Cpu::new(Flat::new()));
    assert_eq!(cpu.register(Register::A), 0x01);
    assert_eq!(cpu.af.low(), 0x80);
    assert_eq!(cpu.register(Register::B), 0x00);
    assert_eq!(cpu.register(Register::C), 0x13);
    assert_eq!(cpu.register(Register::D), 0x00);
    assert_eq!(cpu.register(Register::E), 0xD8);
    assert_eq!(cpu.register(Register::H), 0x01);
    assert_eq!(cpu.register(Register::L), 0x4D);
    assert_eq!(cpu.sp.as_u16(), 0xFFFE);
    assert_eq!(cpu.pc.as_u16(), 0x0100);
    assert!(!cpu.ime);
    assert!(!cpu.halted);
    assert_eq!(cpu.stall, 0);
}

#[test]
fn add_immediate_sets_the_flag_table() {
    let mut cpu = cpu_with(&[0xC6, 0xC6], 0x0100);
    cpu.af = RegisterPairValue { high: 0x3A, low: 0x00 };
    assert_eq!(cpu.cycle(), Ok(()));
    assert_eq!(cpu.register(Register::A), 0x00);
    assert_eq!(cpu.af.low(), 0xB0);
    assert_eq!(cpu.pc.as_u16(), 0x0102);
    assert_eq!(cpu.stall, 1);
}

#[test]
fn conditional_relative_jump_taken() {
    let mut cpu = cpu_with(&[0x28, 0xFE], 0x0100);
    cpu.af = RegisterPairValue { high: 0x00, low: 0x80 };
    assert_eq!(cpu.cycle(), Ok(()));
    assert_eq!(cpu.pc.as_u16(), 0x0100);
    assert_eq!(cpu.stall, 2);
    let mut cycles = 1;
    while cpu.stall > 0 {
        assert_eq!(cpu.cycle(), Ok(()));
        cycles += 1;
    }
    assert_eq!(cycles, 3);
    assert_eq!(cpu.pc.as_u16(), 0x0100);
}

#[test]
fn conditional_relative_jump_not_taken() {
    let mut cpu = cpu_with(&[0x28, 0xFE], 0x0100);
    cpu.af = RegisterPairValue { high: 0x00, low: 0x00 };
    assert_eq!(cpu.cycle(), Ok(()));
    assert_eq!(cpu.pc.as_u16(), 0x0102);
    assert_eq!(cpu.stall, 1);
}

#[test]
fn call_then_ret_round_trip() {
    let mut cpu = cpu_with(&[0xCD, 0x34, 0x12], 0x0100);
    cpu.mem.write(0x1234, 0xC9);
    cpu.sp = RegisterPairValue::from(0xFFFE);
    assert_eq!(cpu.cycle(), Ok(()));
    assert_eq!(cpu.pc.as_u16(), 0x1234);
    assert_eq!(cpu.sp.as_u16(), 0xFFFC);
    assert_eq!(cpu.mem.get(0xFFFC), 0x03);
    assert_eq!(cpu.mem.get(0xFFFD), 0x01);
    assert_eq!(cpu.stall, 5);
    finish_instruction(&mut cpu);
    assert_eq!(cpu.pc.as_u16(), 0x1234);
    assert_eq!(cpu.cycle(), Ok(()));
    assert_eq!(cpu.pc.as_u16(), 0x0103);
    assert_eq!(cpu.sp.as_u16(), 0xFFFE);
    assert_eq!(cpu.stall, 3);
}

#[test]
fn interrupt_of_highest_priority_is_served() {
    let mut cpu = cpu_with(&[], 0x0200);
    cpu.ime = true;
    cpu.mem.enable_interrupt(rustgb::memory::Interrupt::VBlank, true);
    cpu.mem.enable_interrupt(rustgb::memory::Interrupt::Timer, true);
    assert_eq!(cpu.mem.enabled_interrupts(), 0x05);
    cpu.mem.set_requested_interrupts(0x04);
    cpu.sp = RegisterPairValue::from(0xFFF0);
    cpu.handle_interrupt();
    assert_eq!(cpu.mem.requested_interrupts(), 0x00);
    assert!(!cpu.ime);
    assert_eq!(cpu.pc.as_u16(), 0x0050);
    assert_eq!(cpu.sp.as_u16(), 0xFFEE);
    assert_eq!(cpu.mem.get(0xFFEE), 0x00);
    assert_eq!(cpu.mem.get(0xFFEF), 0x02);
    assert_eq!(cpu.stall, 4);
}

#[test]
fn interrupt_dispatch_takes_five_cycles_from_halt() {
    let mut cpu = cpu_with(&[], 0x0200);
    cpu.mem.write(0x0050, 0x3C);
    cpu.ime = true;
    cpu.halted = true;
    cpu.mem.enable_interrupt(rustgb::memory::Interrupt::VBlank, true);
    cpu.mem.enable_interrupt(rustgb::memory::Interrupt::Timer, true);
    cpu.mem.set_requested_interrupts(0x04);
    cpu.sp = RegisterPairValue::from(0xFFF0);
    cpu.af = RegisterPairValue { high: 0x00, low: 0x00 };
    for _ in 0..5 {
        assert_eq!(cpu.cycle(), Ok(()));
        assert_eq!(cpu.register(Register::A), 0x00);
    }
    assert_eq!(cpu.pc.as_u16(), 0x0050);
    assert_eq!(cpu.stall, 0);
    assert_eq!(cpu.cycle(), Ok(()));
    assert_eq!(cpu.register(Register::A), 0x01);
    assert_eq!(cpu.pc.as_u16(), 0x0051);
}

#[test]
fn lower_line_wins_when_several_are_pending() {
    let mut cpu = cpu_with(&[], 0x0300);
    cpu.ime = true;
    cpu.mem.write(0x0000, 0x00);
    cpu.mem.enable_interrupt(rustgb::memory::Interrupt::LcdStat, true);
    cpu.mem.enable_interrupt(rustgb::memory::Interrupt::Joypad, true);
    cpu.mem.enable_interrupt(rustgb::memory::Interrupt::Serial, true);
    cpu.mem.set_requested_interrupts(0xFA);
    cpu.handle_interrupt();
    assert_eq!(cpu.pc.as_u16(), 0x0048);
    assert_eq!(cpu.mem.requested_interrupts(), 0xF8);
    cpu.stall = 0;
    cpu.ime = true;
    cpu.handle_interrupt();
    assert_eq!(cpu.pc.as_u16(), 0x0058);
    assert_eq!(cpu.mem.requested_interrupts(), 0xF0);
    cpu.stall = 0;
    cpu.ime = true;
    cpu.handle_interrupt();
    assert_eq!(cpu.pc.as_u16(), 0x0060);
    assert_eq!(cpu.mem.requested_interrupts(), 0xE0);
    cpu.stall = 0;
    cpu.ime = true;
    let sp = cpu.sp.as_u16();
    cpu.handle_interrupt();
    assert_eq!(cpu.pc.as_u16(), 0x0060);
    assert_eq!(cpu.sp.as_u16(), sp);
    assert!(cpu.ime);
}

#[test]
fn pending_interrupt_wakes_a_halted_processor_without_ime() {
    let mut cpu = cpu_with(&[0x76, 0x3C], 0x0100);
    cpu.af = RegisterPairValue { high: 0x00, low: 0x00 };
    assert_eq!(cpu.cycle(), Ok(()));
    assert!(cpu.halted);
    for _ in 0..10 {
        assert_eq!(cpu.cycle(), Ok(()));
    }
    assert!(cpu.halted);
    assert_eq!(cpu.pc.as_u16(), 0x0101);
    cpu.mem.enable_interrupt(rustgb::memory::Interrupt::Timer, true);
    cpu.mem.request_interrupt(0x04);
    assert_eq!(cpu.cycle(), Ok(()));
    assert!(!cpu.halted);
    assert_eq!(cpu.pc.as_u16(), 0x0101);
    assert_eq!(cpu.mem.requested_interrupts(), 0x04);
    assert_eq!(cpu.register(Register::A), 0x00);
    assert_eq!(cpu.cycle(), Ok(()));
    assert_eq!(cpu.register(Register::A), 0x01);
}

#[test]
fn stop_is_left_only_by_reset() {
    let mut cpu = cpu_with(&[0x10, 0x3C], 0x0100);
    cpu.ime = true;
    assert_eq!(cpu.cycle(), Ok(()));
    assert!(cpu.stopped);
    cpu.mem.enable_interrupt(rustgb::memory::Interrupt::Joypad, true);
    cpu.mem.request_interrupt(0x10);
    for _ in 0..20 {
        assert_eq!(cpu.cycle(), Ok(()));
    }
    assert!(cpu.stopped);
    assert_eq!(cpu.pc.as_u16(), 0x0101);
    assert_eq!(cpu.mem.requested_interrupts(), 0x10);
    cpu.control_message(ControlMsg::Reset);
    assert!(!cpu.stopped);
    assert_eq!(cpu.pc.as_u16(), 0x0100);
    assert_eq!(cpu.sp.as_u16(), 0xFFFE);
    assert_eq!(cpu.register(Register::A), 0x01);
    assert_eq!(cpu.af.low(), 0x80);
    assert!(!cpu.ime);
}

#[test]
fn terminate_message_marks_the_processor() {
    let mut cpu = cpu_with(&[0x00], 0x0100);
    assert!(!cpu.terminate);
    cpu.control_message(ControlMsg::Terminate);
    assert!(cpu.terminate);
    assert_eq!(cpu.pc.as_u16(), 0x0100);
}

#[test]
fn illegal_opcode_stops_the_processor() {
    let mut cpu = cpu_with(&[0x00, 0xD3], 0x0100);
    assert_eq!(cpu.cycle(), Ok(()));
    assert_eq!(cpu.cycle(), Err(DecodeError::IllegalOpcode(0xD3)));
    assert!(cpu.terminate);
    assert_eq!(cpu.pc.as_u16(), 0x0101);
    assert_eq!(cpu.cycle(), Err(DecodeError::IllegalOpcode(0xD3)));
}

#[test]
fn batch_runs_the_cycles_asked_for() {
    let mut cpu = cpu_with(&[0x3C, 0x3C, 0x3C, 0x18, 0xFE], 0x0100);
    cpu.af = RegisterPairValue { high: 0x00, low: 0x00 };
    assert_eq!(cpu.run_batch(2), Ok(()));
    assert_eq!(cpu.register(Register::A), 0x02);
    assert_eq!(cpu.run_batch(100), Ok(()));
    assert_eq!(cpu.register(Register::A), 0x03);
    assert_eq!(cpu.pc.as_u16(), 0x0103);
}

#[test]
fn batch_stops_at_an_illegal_opcode() {
    let mut cpu = cpu_with(&[0x3C, 0x3C, 0xFC], 0x0100);
    cpu.af = RegisterPairValue { high: 0x00, low: 0x00 };
    assert_eq!(cpu.run_batch(17556), Err(DecodeError::IllegalOpcode(0xFC)));
    assert_eq!(cpu.register(Register::A), 0x02);
    assert_eq!(cpu.pc.as_u16(), 0x0102);
    assert!(cpu.terminate);
}

#[test]
fn ei_takes_effect_after_the_next_instruction() {
    let mut cpu = cpu_with(&[0xFB, 0x00, 0x00], 0x0100);
    assert_eq!(cpu.cycle(), Ok(()));
    assert!(!cpu.ime);
    assert_eq!(cpu.cycle(), Ok(()));
    assert!(!cpu.ime);
    assert_eq!(cpu.pc.as_u16(), 0x0102);
    assert_eq!(cpu.cycle(), Ok(()));
    assert!(cpu.ime);
}

#[test]
fn di_takes_effect_after_the_next_instruction() {
    let mut cpu = cpu_with(&[0xF3, 0x00, 0x00], 0x0100);
    cpu.ime = true;
    assert_eq!(cpu.cycle(), Ok(()));
    assert!(cpu.ime);
    assert_eq!(cpu.cycle(), Ok(()));
    assert!(cpu.ime);
    assert_eq!(cpu.cycle(), Ok(()));
    assert!(!cpu.ime);
}

#[test]
fn reti_enables_interrupts_at_once() {
    let mut cpu = cpu_with(&[0xD9], 0x0100);
    cpu.sp = RegisterPairValue::from(0xC000);
    cpu.mem.write(0xC000, 0x78);
    cpu.mem.write(0xC001, 0x56);
    assert_eq!(cpu.cycle(), Ok(()));
    assert!(cpu.ime);
    assert_eq!(cpu.pc.as_u16(), 0x5678);
    assert_eq!(cpu.sp.as_u16(), 0xC002);
    assert_eq!(cpu.stall, 3);
}

#[test]
fn push_then_pop_keeps_the_pair() {
    for pair in [RegisterPairStk::BC, RegisterPairStk::DE, RegisterPairStk::HL] {
        let mut cpu = cpu_with(&[], 0x0100);
        cpu.sp = RegisterPairValue::from(0xD000);
        *cpu.register_pair_stk_mut(pair) = RegisterPairValue::from(0xBEEF);
        cpu.eval_stack(StackInstruction::PushR16(pair));
        assert_eq!(cpu.sp.as_u16(), 0xCFFE);
        assert_eq!(cpu.mem.get(0xCFFF), 0xBE);
        assert_eq!(cpu.mem.get(0xCFFE), 0xEF);
        assert_eq!(cpu.stall, 3);
        *cpu.register_pair_stk_mut(pair) = RegisterPairValue::from(0x0000);
        cpu.eval_stack(StackInstruction::PopR16(pair));
        assert_eq!(cpu.register_pair_stk(pair), 0xBEEF);
        assert_eq!(cpu.sp.as_u16(), 0xD000);
        assert_eq!(cpu.stall, 2);
    }
}

#[test]
fn pop_af_clears_the_low_nibble_of_f() {
    let mut cpu = cpu_with(&[0xF1], 0x0100);
    cpu.sp = RegisterPairValue::from(0xC000);
    cpu.mem.write(0xC000, 0xFF);
    cpu.mem.write(0xC001, 0x12);
    assert_eq!(cpu.cycle(), Ok(()));
    assert_eq!(cpu.register(Register::A), 0x12);
    assert_eq!(cpu.af.low(), 0xF0);
    assert_eq!(cpu.register_pair_stk(RegisterPairStk::AF), 0x12F0);
    assert_eq!(cpu.sp.as_u16(), 0xC002);
    let mut cpu = cpu_with(&[], 0x0100);
    cpu.sp = RegisterPairValue::from(0xC000);
    cpu.mem.write(0xC000, 0x0F);
    cpu.mem.write(0xC001, 0x34);
    cpu.eval_stack(StackInstruction::PopR16(RegisterPairStk::AF));
    assert_eq!(cpu.register_pair_stk(RegisterPairStk::AF), 0x3400);
}

#[test]
fn push_af_then_pop_af() {
    let mut cpu = cpu_with(&[0xF5, 0xF1], 0x0100);
    cpu.sp = RegisterPairValue::from(0xD000);
    cpu.af = RegisterPairValue { high: 0x9A, low: 0x50 };
    assert_eq!(cpu.cycle(), Ok(()));
    finish_instruction(&mut cpu);
    cpu.af = RegisterPairValue { high: 0x00, low: 0x00 };
    assert_eq!(cpu.cycle(), Ok(()));
    assert_eq!(cpu.register_pair_stk(RegisterPairStk::AF), 0x9A50);
    assert_eq!(cpu.sp.as_u16(), 0xD000);
}

#[test]
fn flags_keep_a_zero_low_nibble_through_a_program() {
    let program = [
        0x3E, 0x0F, 0xC6, 0x01, 0x27, 0x2F, 0x37, 0x3F, 0x07, 0x17, 0x0F, 0x1F, 0xCB, 0x37, 0xCB,
        0x7F, 0x04, 0x05, 0x09, 0xE8, 0x05, 0xF8, 0xFB, 0xF5, 0xF1, 0xB8, 0x98, 0xA8,
    ];
    let mut cpu = cpu_with(&program, 0x0100);
    cpu.sp = RegisterPairValue::from(0xD000);
    for _ in 0..200 {
        assert_eq!(cpu.cycle(), Ok(()));
        assert_eq!(cpu.af.low() & 0x0F, 0);
    }
}

#[test]
fn arithmetic_on_registers_and_memory() {
    let mut cpu = cpu_with(&[], 0x0100);
    cpu.af = RegisterPairValue { high: 0x10, low: 0x00 };
    *cpu.register_mut(Register::B) = 0x0F;
    cpu.eval_arithmetic(ArithmeticInstruction::SubAR8(Register::B));
    assert_eq!(cpu.register(Register::A), 0x01);
    assert_eq!(cpu.af.low(), 0x60);
    assert_eq!(cpu.stall, 0);
    cpu.hl = RegisterPairValue::from(0xC123);
    cpu.mem.write(0xC123, 0xFF);
    cpu.eval_arithmetic(ArithmeticInstruction::IncMemHL);
    assert_eq!(cpu.mem.get(0xC123), 0x00);
    assert_eq!(cpu.af.low(), 0xA0);
    assert_eq!(cpu.stall, 2);
    cpu.eval_arithmetic(ArithmeticInstruction::AddAMemHL);
    assert_eq!(cpu.register(Register::A), 0x01);
    assert_eq!(cpu.stall, 1);
    cpu.eval_arithmetic(ArithmeticInstruction::CpAN8(0x01));
    assert_eq!(cpu.af.low(), 0xC0);
    assert_eq!(cpu.register(Register::A), 0x01);
    *cpu.register_pair_mut(RegisterPair::DE) = RegisterPairValue::from(0xFFFF);
    cpu.eval_arithmetic(ArithmeticInstruction::IncR16(RegisterPair::DE));
    assert_eq!(cpu.register_pair(RegisterPair::DE), 0x0000);
    assert_eq!(cpu.af.low(), 0xC0);
    assert_eq!(cpu.stall, 1);
    cpu.hl = RegisterPairValue::from(0x8A23);
    *cpu.register_pair_mut(RegisterPair::BC) = RegisterPairValue::from(0x0605);
    cpu.eval_arithmetic(ArithmeticInstruction::AddHLR16(RegisterPair::BC));
    assert_eq!(cpu.hl.as_u16(), 0x9028);
    assert_eq!(cpu.af.low(), 0xA0);
}

#[test]
fn bit_instructions_on_registers_and_memory() {
    let mut cpu = cpu_with(&[], 0x0100);
    cpu.af = RegisterPairValue { high: 0x85, low: 0x00 };
    cpu.eval_bit(BitInstruction::Rlca);
    assert_eq!(cpu.register(Register::A), 0x0B);
    assert_eq!(cpu.af.low(), 0x10);
    assert_eq!(cpu.stall, 0);
    cpu.af = RegisterPairValue { high: 0x00, low: 0x00 };
    cpu.eval_bit(BitInstruction::Rra);
    assert_eq!(cpu.register(Register::A), 0x00);
    assert_eq!(cpu.af.low(), 0x00);
    *cpu.register_mut(Register::C) = 0x00;
    cpu.eval_bit(BitInstruction::Rr(Register::C));
    assert_eq!(cpu.af.low(), 0x80);
    cpu.hl = RegisterPairValue::from(0xC000);
    cpu.mem.write(0xC000, 0xF0);
    cpu.eval_bit(BitInstruction::SwapMemHL);
    assert_eq!(cpu.mem.get(0xC000), 0x0F);
    assert_eq!(cpu.stall, 3);
    cpu.eval_bit(BitInstruction::BitMemHL(7));
    assert_eq!(cpu.af.low(), 0xA0);
    assert_eq!(cpu.stall, 2);
    cpu.eval_bit(BitInstruction::SetMemHL(7));
    assert_eq!(cpu.mem.get(0xC000), 0x8F);
    cpu.eval_bit(BitInstruction::ResMemHL(0));
    assert_eq!(cpu.mem.get(0xC000), 0x8E);
    *cpu.register_mut(Register::D) = 0x01;
    cpu.eval_bit(BitInstruction::SetR8(4, Register::D));
    assert_eq!(cpu.register(Register::D), 0x11);
    cpu.eval_bit(BitInstruction::Res(0, Register::D));
    assert_eq!(cpu.register(Register::D), 0x10);
    assert_eq!(cpu.stall, 1);
}

#[test]
fn loads_between_registers_and_memory() {
    let mut cpu = cpu_with(&[], 0x0100);
    cpu.eval_load(LoadInstruction::LdR8N8(Register::B, 0x42));
    assert_eq!(cpu.register(Register::B), 0x42);
    assert_eq!(cpu.stall, 1);
    cpu.eval_load(LoadInstruction::LdR8R8(Register::E, Register::B));
    assert_eq!(cpu.register(Register::E), 0x42);
    assert_eq!(cpu.stall, 0);
    cpu.eval_load(LoadInstruction::LdR16N16(RegisterPair::HL, 0xC100));
    assert_eq!(cpu.hl.as_u16(), 0xC100);
    assert_eq!(cpu.stall, 2);
    cpu.af = RegisterPairValue { high: 0x77, low: 0x00 };
    cpu.eval_load(LoadInstruction::LdMemR16A(RegisterPairMem::HLI));
    assert_eq!(cpu.mem.get(0xC100), 0x77);
    assert_eq!(cpu.hl.as_u16(), 0xC101);
    cpu.eval_load(LoadInstruction::LdMemR16A(RegisterPairMem::HLD));
    assert_eq!(cpu.mem.get(0xC101), 0x77);
    assert_eq!(cpu.hl.as_u16(), 0xC100);
    cpu.eval_load(LoadInstruction::LdMemHLN8(0x99));
    assert_eq!(cpu.mem.get(0xC100), 0x99);
    assert_eq!(cpu.stall, 2);
    cpu.eval_load(LoadInstruction::LdR8MemHL(Register::D));
    assert_eq!(cpu.register(Register::D), 0x99);
    cpu.eval_load(LoadInstruction::LdhMemN8A(0x80));
    assert_eq!(cpu.mem.get(0xFF80), 0x77);
    assert_eq!(cpu.stall, 2);
    *cpu.register_mut(Register::C) = 0x81;
    cpu.eval_load(LoadInstruction::LdhMemCA);
    assert_eq!(cpu.mem.get(0xFF81), 0x77);
    cpu.mem.write(0xFF82, 0x5A);
    cpu.eval_load(LoadInstruction::LdhAMemN8(0x82));
    assert_eq!(cpu.register(Register::A), 0x5A);
    cpu.eval_load(LoadInstruction::LdMemN16A(0xD000));
    assert_eq!(cpu.mem.get(0xD000), 0x5A);
    cpu.mem.write(0xD001, 0xA5);
    cpu.eval_load(LoadInstruction::LdAMemN16(0xD001));
    assert_eq!(cpu.register(Register::A), 0xA5);
    assert_eq!(cpu.stall, 3);
    cpu.hl = RegisterPairValue::from(0xFFFF);
    cpu.eval_load(LoadInstruction::LdAMemHLI);
    assert_eq!(cpu.hl.as_u16(), 0x0000);
    cpu.eval_load(LoadInstruction::LdAMemHLD);
    assert_eq!(cpu.hl.as_u16(), 0xFFFF);
}

#[test]
fn jumps_and_their_cycles() {
    let mut cpu = cpu_with(&[], 0x0200);
    cpu.eval_jump(JumpInstruction::JpN16(0x1234));
    assert_eq!((cpu.pc.as_u16(), cpu.stall), (0x1234, 3));
    cpu.af = RegisterPairValue { high: 0, low: 0x10 };
    cpu.eval_jump(JumpInstruction::JpCCN16(Condition::Carry, 0x4000));
    assert_eq!((cpu.pc.as_u16(), cpu.stall), (0x4000, 3));
    cpu.eval_jump(JumpInstruction::JpCCN16(Condition::NotCarry, 0x5000));
    assert_eq!((cpu.pc.as_u16(), cpu.stall), (0x4000, 2));
    cpu.eval_jump(JumpInstruction::JrN8(-16));
    assert_eq!((cpu.pc.as_u16(), cpu.stall), (0x3FF0, 2));
    cpu.eval_jump(JumpInstruction::JrN8(127));
    assert_eq!((cpu.pc.as_u16(), cpu.stall), (0x406F, 2));
    cpu.hl = RegisterPairValue::from(0x8000);
    cpu.eval_jump(JumpInstruction::JpHL);
    assert_eq!((cpu.pc.as_u16(), cpu.stall), (0x8000, 0));
    cpu.sp = RegisterPairValue::from(0xD000);
    cpu.eval_jump(JumpInstruction::CallCCN16(Condition::Zero, 0x0150));
    assert_eq!((cpu.pc.as_u16(), cpu.sp.as_u16(), cpu.stall), (0x8000, 0xD000, 2));
    cpu.eval_jump(JumpInstruction::CallCCN16(Condition::NotZero, 0x0150));
    assert_eq!((cpu.pc.as_u16(), cpu.sp.as_u16(), cpu.stall), (0x0150, 0xCFFE, 5));
    cpu.eval_jump(JumpInstruction::RetCC(Condition::Zero));
    assert_eq!((cpu.pc.as_u16(), cpu.sp.as_u16(), cpu.stall), (0x0150, 0xCFFE, 1));
    cpu.eval_jump(JumpInstruction::RetCC(Condition::NotZero));
    assert_eq!((cpu.pc.as_u16(), cpu.sp.as_u16(), cpu.stall), (0x8000, 0xD000, 4));
    cpu.eval_jump(JumpInstruction::Rst(0x0038));
    assert_eq!((cpu.pc.as_u16(), cpu.sp.as_u16(), cpu.stall), (0x0038, 0xCFFE, 3));
    assert_eq!(cpu.mem.get(0xCFFE), 0x00);
    assert_eq!(cpu.mem.get(0xCFFF), 0x80);
}

#[test]
fn stack_pointer_arithmetic() {
    let mut cpu = cpu_with(&[], 0x0100);
    cpu.sp = RegisterPairValue::from(0xFFF8);
    cpu.af = RegisterPairValue { high: 0, low: 0xF0 };
    cpu.eval_stack(StackInstruction::AddSPE8(8));
    assert_eq!(cpu.sp.as_u16(), 0x0000);
    assert_eq!(cpu.af.low(), 0x30);
    assert_eq!(cpu.stall, 3);
    cpu.sp = RegisterPairValue::from(0x0001);
    cpu.eval_stack(StackInstruction::AddSPE8(-1));
    assert_eq!(cpu.sp.as_u16(), 0x0000);
    assert_eq!(cpu.af.low(), 0x30);
    cpu.sp = RegisterPairValue::from(0x1000);
    cpu.eval_stack(StackInstruction::LdHLSPPlusE8(-1));
    assert_eq!(cpu.hl.as_u16(), 0x0FFF);
    assert_eq!(cpu.sp.as_u16(), 0x1000);
    assert_eq!(cpu.af.low(), 0x00);
    assert_eq!(cpu.stall, 2);
    cpu.sp = RegisterPairValue::from(0xABCD);
    cpu.eval_stack(StackInstruction::LdMemN16SP(0xC000));
    assert_eq!(cpu.mem.get(0xC000), 0xCD);
    assert_eq!(cpu.mem.get(0xC001), 0xAB);
    assert_eq!(cpu.stall, 4);
    cpu.hl = RegisterPairValue::from(0xDFFF);
    cpu.eval_stack(StackInstruction::LdSPHL);
    assert_eq!(cpu.sp.as_u16(), 0xDFFF);
    cpu.eval_stack(StackInstruction::IncSP);
    assert_eq!(cpu.sp.as_u16(), 0xE000);
    cpu.eval_stack(StackInstruction::DecSP);
    assert_eq!(cpu.sp.as_u16(), 0xDFFF);
    cpu.eval_stack(StackInstruction::LdSPN16(0x1234));
    assert_eq!(cpu.sp.as_u16(), 0x1234);
    cpu.hl = RegisterPairValue::from(0x0001);
    cpu.sp = RegisterPairValue::from(0xFFFF);
    cpu.af = RegisterPairValue { high: 0, low: 0x80 };
    cpu.eval_stack(StackInstruction::AddHLSP);
    assert_eq!(cpu.hl.as_u16(), 0x0000);
    assert_eq!(cpu.af.low(), 0xB0);
}

#[test]
fn decimal_adjust_after_addition_and_subtraction() {
    let mut cpu = cpu_with(&[], 0x0100);
    cpu.af = RegisterPairValue { high: 0x45, low: 0x00 };
    cpu.eval_arithmetic(ArithmeticInstruction::AddAN8(0x38));
    assert_eq!(cpu.register(Register::A), 0x7D);
    cpu.eval_misc(MiscInstruction::DaA);
    assert_eq!(cpu.register(Register::A), 0x83);
    assert_eq!(cpu.af.low(), 0x00);
    cpu.eval_arithmetic(ArithmeticInstruction::SubAN8(0x38));
    assert_eq!(cpu.register(Register::A), 0x4B);
    cpu.eval_misc(MiscInstruction::DaA);
    assert_eq!(cpu.register(Register::A), 0x45);
    assert_eq!(cpu.af.low(), 0x40);
    cpu.af = RegisterPairValue { high: 0x99, low: 0x00 };
    cpu.eval_arithmetic(ArithmeticInstruction::AddAN8(0x01));
    cpu.eval_misc(MiscInstruction::DaA);
    assert_eq!(cpu.register(Register::A), 0x00);
    assert_eq!(cpu.af.low(), 0x90);
}

#[test]
fn flag_instructions() {
    let mut cpu = cpu_with(&[], 0x0100);
    cpu.af = RegisterPairValue { high: 0x35, low: 0xF0 };
    cpu.eval_misc(MiscInstruction::Ccf);
    assert_eq!(cpu.af.low(), 0x80);
    cpu.eval_misc(MiscInstruction::Ccf);
    assert_eq!(cpu.af.low(), 0x90);
    cpu.eval_misc(MiscInstruction::Cpl);
    assert_eq!(cpu.register(Register::A), 0xCA);
    assert_eq!(cpu.af.low(), 0xF0);
    cpu.af = RegisterPairValue { high: 0x35, low: 0x60 };
    cpu.eval_misc(MiscInstruction::Scf);
    assert_eq!(cpu.af.low(), 0x10);
    cpu.eval_misc(MiscInstruction::Nop);
    assert_eq!(cpu.af.as_u16(), 0x3510);
    assert_eq!(cpu.stall, 0);
}

#[test]
fn execute_dispatches_by_family() {
    let mut cpu = cpu_with(&[], 0x0100);
    cpu.execute(Instruction::Load(LoadInstruction::LdR8N8(Register::A, 0x7F)));
    cpu.execute(Instruction::Arithmetic(ArithmeticInstruction::IncR8(Register::A)));
    assert_eq!(cpu.register(Register::A), 0x80);
    cpu.execute(Instruction::Bit(BitInstruction::Srl(Register::A)));
    assert_eq!(cpu.register(Register::A), 0x40);
    cpu.execute(Instruction::Misc(MiscInstruction::Halt));
    assert!(cpu.halted);
    cpu.execute(Instruction::Jump(JumpInstruction::JpN16(0x0200)));
    assert_eq!(cpu.pc.as_u16(), 0x0200);
    cpu.execute(Instruction::Stack(StackInstruction::LdSPN16(0xC800)));
    assert_eq!(cpu.sp.as_u16(), 0xC800);
}

#[test]
fn register_pair_value_views() {
    let mut pair = RegisterPairValue::from(0x1234);
    assert_eq!(pair.high(), 0x12);
    assert_eq!(pair.low(), 0x34);
    assert_eq!(pair.as_u16(), 0x1234);
    *pair.high_mut() = 0xAB;
    *pair.low_mut() = 0xCD;
    assert_eq!(pair.as_u16(), 0xABCD);
    pair.set_high(0x01);
    pair.set_low(0xF0);
    assert_eq!(pair.as_u16(), 0x01F0);
    let flags = pair.flags();
    assert!(flags.zero && flags.subtract && flags.half_carry && flags.carry);
    assert_eq!(RegisterPairValue::default().as_u16(), 0);
}

#[test]
fn indirect_register_pairs_step_hl() {
    let mut cpu = cpu_with(&[], 0x0100);
    cpu.hl = RegisterPairValue::from(0x00FF);
    assert_eq!(cpu.register_pair_mem(RegisterPairMem::HLI), 0x00FF);
    assert_eq!(cpu.hl.as_u16(), 0x0100);
    assert_eq!(cpu.register_pair_mem(RegisterPairMem::HLD), 0x0100);
    assert_eq!(cpu.hl.as_u16(), 0x00FF);
    cpu.bc = RegisterPairValue::from(0x1111);
    cpu.de = RegisterPairValue::from(0x2222);
    assert_eq!(cpu.register_pair_mem(RegisterPairMem::BC), 0x1111);
    assert_eq!(cpu.register_pair_mem(RegisterPairMem::DE), 0x2222);
    assert_eq!(cpu.hl.as_u16(), 0x00FF);
    assert!(cpu.eval_cond(Condition::Zero));
    assert!(!cpu.eval_cond(Condition::Carry));
}

fn cycles_of(program: &[u8], flags: u8) -> usize {
    let mut cpu = cpu_with(program, 0x0100);
    cpu.af = RegisterPairValue { high: 0x00, low: flags };
    cpu.sp = RegisterPairValue::from(0xD000);
    cpu.hl = RegisterPairValue::from(0xC000);
    assert_eq!(cpu.cycle(), Ok(()));
    1 + cpu.stall
}

#[test]
fn machine_cycles_of_the_instructions() {
    assert_eq!(cycles_of(&[0x00], 0), 1);
    assert_eq!(cycles_of(&[0x41], 0), 1);
    assert_eq!(cycles_of(&[0x06, 0x12], 0), 2);
    assert_eq!(cycles_of(&[0x46], 0), 2);
    assert_eq!(cycles_of(&[0x70], 0), 2);
    assert_eq!(cycles_of(&[0x36, 0x12], 0), 3);
    assert_eq!(cycles_of(&[0xFA, 0x00, 0xC0], 0), 4);
    assert_eq!(cycles_of(&[0x03], 0), 2);
    assert_eq!(cycles_of(&[0x09], 0), 2);
    assert_eq!(cycles_of(&[0x80], 0), 1);
    assert_eq!(cycles_of(&[0x86], 0), 2);
    assert_eq!(cycles_of(&[0xC6, 0x01], 0), 2);
    assert_eq!(cycles_of(&[0x34], 0), 3);
    assert_eq!(cycles_of(&[0xC3, 0x00, 0x02], 0), 4);
    assert_eq!(cycles_of(&[0xCA, 0x00, 0x02], 0x80), 4);
    assert_eq!(cycles_of(&[0xCA, 0x00, 0x02], 0x00), 3);
    assert_eq!(cycles_of(&[0x18, 0x02], 0), 3);
    assert_eq!(cycles_of(&[0x38, 0x02], 0x10), 3);
    assert_eq!(cycles_of(&[0x38, 0x02], 0x00), 2);
    assert_eq!(cycles_of(&[0xCD, 0x00, 0x02], 0), 6);
    assert_eq!(cycles_of(&[0xC4, 0x00, 0x02], 0x00), 6);
    assert_eq!(cycles_of(&[0xC4, 0x00, 0x02], 0x80), 3);
    assert_eq!(cycles_of(&[0xC9], 0), 4);
    assert_eq!(cycles_of(&[0xD0], 0x00), 5);
    assert_eq!(cycles_of(&[0xD0], 0x10), 2);
    assert_eq!(cycles_of(&[0xD9], 0), 4);
    assert_eq!(cycles_of(&[0xEF], 0), 4);
    assert_eq!(cycles_of(&[0xC5], 0), 4);
    assert_eq!(cycles_of(&[0xC1], 0), 3);
    assert_eq!(cycles_of(&[0xE8, 0x01], 0), 4);
    assert_eq!(cycles_of(&[0xF8, 0x01], 0), 3);
    assert_eq!(cycles_of(&[0xCB, 0x10], 0), 2);
    assert_eq!(cycles_of(&[0xCB, 0x46], 0), 3);
    assert_eq!(cycles_of(&[0xCB, 0x86], 0), 4);
    assert_eq!(cycles_of(&[0xCB, 0xC6], 0), 4);
    assert_eq!(cycles_of(&[0xCB, 0x16], 0), 4);
    assert_eq!(cycles_of(&[0x76], 0), 1);
    assert_eq!(cycles_of(&[0xE9], 0), 1);
    assert_eq!(cycles_of(&[0xF9], 0), 2);
    assert_eq!(cycles_of(&[0x08, 0x00, 0xC0], 0), 5);
    assert_eq!(cycles_of(&[0xE0, 0x80], 0), 3);
    assert_eq!(cycles_of(&[0xF0, 0x80], 0), 3);
    assert_eq!(cycles_of(&[0xE2], 0), 2);
    assert_eq!(cycles_of(&[0x22], 0), 2);
    assert_eq!(cycles_of(&[0x01, 0x34, 0x12], 0), 3);
    assert_eq!(cycles_of(&[0xEA, 0x00, 0xC0], 0), 4);
    assert_eq!(cycles_of(&[0x07], 0), 1);
    assert_eq!(cycles_of(&[0x0F], 0), 1);
    assert_eq!(cycles_of(&[0x17], 0), 1);
    assert_eq!(cycles_of(&[0x1F], 0), 1);
    assert_eq!(cycles_of(&[0x27], 0), 1);
    assert_eq!(cycles_of(&[0xF1], 0), 3);
    assert_eq!(cycles_of(&[0xF5], 0), 4);
    assert_eq!(cycles_of(&[0x31, 0x00, 0xD0], 0), 3);
    assert_eq!(cycles_of(&[0x0A], 0), 2);
    assert_eq!(cycles_of(&[0xFB], 0), 1);
}

#[test]
fn a_step_charges_the_cycles_one_by_one() {
    let mut cpu = cpu_with(&[0xCD, 0x00, 0x02, 0x3C], 0x0100);
    cpu.mem.write(0x0200, 0x3C);
    cpu.af = RegisterPairValue { high: 0x00, low: 0x00 };
    cpu.sp = RegisterPairValue::from(0xD000);
    for _ in 0..6 {
        assert_eq!(cpu.cycle(), Ok(()));
        assert_eq!(cpu.register(Register::A), 0x00);
    }
    assert_eq!(cpu.cycle(), Ok(()));
    assert_eq!(cpu.register(Register::A), 0x01);
    assert_eq!(cpu.pc.as_u16(), 0x0201);
}
