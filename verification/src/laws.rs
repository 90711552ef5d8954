//! Laws of the processor that relate several of its operations.

use vstd::prelude::*;
use crate::bits::{lemma_word_bytes, word};
use crate::cpu::{
    after_arithmetic, after_bit, after_jump, after_load, after_misc, after_stack, called,
    executed, interrupted, jump_effect, latched, popped, pushed, returned,
    stack_effect, stepped, top, triggered, CpuState,
};
use crate::disassembler::address_after;
use crate::isa::{
    ArithmeticInstruction, BitInstruction, Instruction, JumpInstruction, LoadInstruction,
    MiscInstruction, StackInstruction,
};
use crate::memory::{
    bus_read, bus_written, lemma_pair_round_trip, BusState, Interrupt, LinearMemory, LinearState,
    MappedMemory, Mbc, Memory, RegisterPairValue, DMA_LAST_PAGE,
};
use crate::ppu::{PpuMode, PpuState};
use crate::timer::Timer;
use crate::RegisterPairStk;

verus! {

/// Whether the low nibble of F is zero in state `s`.
pub open spec fn flags_clean<S>(s: CpuState<S>) -> bool {
    s.af.low % 16 == 0
}

/// Whether the two bytes that a push of `value` writes below `sp` read back
/// in memory state `mem`: the stack lies in memory that stores what is
/// written to it.
pub open spec fn stack_holds<M: Memory>(mem: M::V, sp: u16, value: u16) -> bool {
    let below = address_after(sp, -2);
    let after = M::written(
        M::written(mem, address_after(below, 1), (value / 256) as u8),
        below,
        (value % 256) as u8,
    );
    M::read(after, below) == value % 256 && M::read(after, address_after(below, 1)) == value / 256
}

/// An arithmetic instruction leaves the low nibble of F zero: every one
/// writes F from the flags.
pub proof fn lemma_arithmetic_cleans_flags<M: Memory>(s: CpuState<M::V>, i: ArithmeticInstruction)
    ensures
        flags_clean(after_arithmetic::<M>(s, i)),
{
}

/// A bit instruction leaves the low nibble of F zero: every one writes F
/// from the flags.
pub proof fn lemma_bit_cleans_flags<M: Memory>(s: CpuState<M::V>, i: BitInstruction)
    ensures
        flags_clean(after_bit::<M>(s, i)),
{
}

/// No load changes F.
pub proof fn lemma_load_keeps_flags<M: Memory>(s: CpuState<M::V>, i: LoadInstruction)
    ensures
        after_load::<M>(s, i).af.low == s.af.low,
{
}

/// No jump changes F.
pub proof fn lemma_jump_keeps_flags<M: Memory>(s: CpuState<M::V>, i: JumpInstruction)
    ensures
        after_jump::<M>(s, i).af.low == s.af.low,
{
}

/// A stack instruction keeps the low nibble of F zero; POP AF makes it zero
/// whatever was on the stack.
pub proof fn lemma_stack_keeps_flags_clean<M: Memory>(s: CpuState<M::V>, i: StackInstruction)
    ensures
        flags_clean(s) ==> flags_clean(after_stack::<M>(s, i)),
        i is PopAF || i == StackInstruction::PopR16(RegisterPairStk::AF) ==> flags_clean(
            after_stack::<M>(s, i),
        ),
{
}

/// A miscellaneous instruction keeps the low nibble of F zero.
pub proof fn lemma_misc_keeps_flags_clean<S>(s: CpuState<S>, i: MiscInstruction)
    ensures
        flags_clean(s) ==> flags_clean(after_misc(s, i)),
{
}

/// No instruction sets a bit in the low nibble of F.
pub proof fn lemma_execution_keeps_flags_clean<M: Memory>(s: CpuState<M::V>, i: Instruction)
    requires
        flags_clean(s),
    ensures
        flags_clean(executed::<M>(s, i)),
{
    match i {
        Instruction::Arithmetic(x) => lemma_arithmetic_cleans_flags::<M>(s, x),
        Instruction::Bit(x) => lemma_bit_cleans_flags::<M>(s, x),
        Instruction::Load(x) => lemma_load_keeps_flags::<M>(s, x),
        Instruction::Jump(x) => lemma_jump_keeps_flags::<M>(s, x),
        Instruction::Stack(x) => lemma_stack_keeps_flags_clean::<M>(s, x),
        Instruction::Misc(x) => lemma_misc_keeps_flags_clean(s, x),
    }
}

/// The low nibble of F is zero at power-on and no step of the processor
/// changes that.
pub proof fn lemma_step_keeps_flags_clean<M: Memory>(s: CpuState<M::V>, mem: M::V)
    ensures
        flags_clean(CpuState::power_on(mem)),
        flags_clean(s) ==> flags_clean(stepped::<M>(s)),
{
    if flags_clean(s) {
        let l = latched(s);
        match crate::disassembler::decode_at::<M>(l.mem, l.pc.value()) {
            Ok(d) => {
                lemma_execution_keeps_flags_clean::<M>(
                    CpuState { pc: RegisterPairValue::of(d.1), ..l },
                    d.0,
                );
            },
            Err(_) => {},
        }
    }
}

/// A pop after a push leaves SP where it was, whatever the memory does.
pub proof fn lemma_push_pop_restores_sp<M: Memory>(s: CpuState<M::V>, value: u16)
    ensures
        popped::<M>(pushed::<M>(s, value)).sp == s.sp,
{
    lemma_pair_round_trip(address_after(s.sp.value(), -2), s.sp);
    lemma_pair_round_trip(s.sp.value(), s.sp);
}

/// Where the stack holds what is pushed, a pop returns the word that was
/// pushed last.
pub proof fn lemma_pop_returns_pushed<M: Memory>(s: CpuState<M::V>, value: u16)
    requires
        stack_holds::<M>(s.mem, s.sp.value(), value),
    ensures
        top::<M>(pushed::<M>(s, value)) == value,
{
    lemma_pair_round_trip(address_after(s.sp.value(), -2), s.sp);
    lemma_word_bytes(0, 0, value);
}

/// CALL followed by RET leaves SP where it was; and where the stack holds
/// the return address, execution continues right after the CALL.
pub proof fn lemma_call_then_ret<M: Memory>(s: CpuState<M::V>, target: u16)
    ensures
        returned::<M>(called::<M>(s, target)).sp == s.sp,
        stack_holds::<M>(s.mem, s.sp.value(), s.pc.value()) ==> returned::<M>(
            called::<M>(s, target),
        ).pc == s.pc,
        jump_effect::<M>(
            jump_effect::<M>(s, JumpInstruction::CallN16(target)),
            JumpInstruction::Ret,
        ) == returned::<M>(called::<M>(s, target)),
{
    lemma_push_pop_restores_sp::<M>(s, s.pc.value());
    lemma_pair_round_trip(0, s.pc);
    if stack_holds::<M>(s.mem, s.sp.value(), s.pc.value()) {
        lemma_pop_returns_pushed::<M>(s, s.pc.value());
    }
}

/// PUSH of a register pair followed by POP into the same pair leaves SP
/// where it was; and where the stack holds the pair, the pair keeps its
/// value, but for the low nibble of F, which POP AF clears.
pub proof fn lemma_push_then_pop<M: Memory>(s: CpuState<M::V>, p: RegisterPairStk)
    ensures
        stack_effect::<M>(
            stack_effect::<M>(s, StackInstruction::PushR16(p)),
            StackInstruction::PopR16(p),
        ).sp == s.sp,
        stack_holds::<M>(s.mem, s.sp.value(), s.stk_pair(p)) ==> ({
            let after = stack_effect::<M>(
                stack_effect::<M>(s, StackInstruction::PushR16(p)),
                StackInstruction::PopR16(p),
            );
            &&& after.bc == s.bc
            &&& after.de == s.de
            &&& after.hl == s.hl
            &&& after.af.high == s.af.high
            &&& after.af.low == if p is AF {
                (s.af.low / 16 * 16) as u8
            } else {
                s.af.low
            }
        }),
{
    let value = s.stk_pair(p);
    lemma_push_pop_restores_sp::<M>(s, value);
    lemma_pair_round_trip(0, s.bc);
    lemma_pair_round_trip(0, s.de);
    lemma_pair_round_trip(0, s.hl);
    lemma_pair_round_trip(0, s.af);
    lemma_word_bytes(s.af.high, s.af.low, 0);
    if stack_holds::<M>(s.mem, s.sp.value(), value) {
        lemma_pop_returns_pushed::<M>(s, value);
    }
}

/// Serving an interrupt pushes the PC at which it struck: where the stack
/// holds it, the two bytes at the new SP spell that PC. SP has gone down by
/// 2, PC is the vector of the line of lowest index among those triggered,
/// and that line's request and IME are cleared.
pub proof fn lemma_interrupt_pushes_pc<M: Memory>(s: CpuState<M::V>, line: Interrupt)
    requires
        s.ime,
        Interrupt::first_of(triggered::<M>(s)) == Some(line),
    ensures
        interrupted::<M>(s).sp.value() == address_after(s.sp.value(), -2),
        interrupted::<M>(s).pc.value() == line.vector(),
        !interrupted::<M>(s).ime,
        !interrupted::<M>(s).halted,
        stack_holds::<M>(
            M::with_requested(s.mem, M::requested(s.mem) & !line.mask()),
            s.sp.value(),
            s.pc.value(),
        ) ==> top::<M>(interrupted::<M>(s)) == s.pc.value(),
{
    let acknowledged = CpuState {
        mem: M::with_requested(s.mem, M::requested(s.mem) & !line.mask()),
        ime: false,
        halted: false,
        ..s
    };
    lemma_pair_round_trip(address_after(s.sp.value(), -2), s.sp);
    lemma_pair_round_trip(line.vector(), s.sp);
    if stack_holds::<M>(acknowledged.mem, s.sp.value(), s.pc.value()) {
        lemma_pop_returns_pushed::<M>(acknowledged, s.pc.value());
    }
}

/// A flat memory that covers the whole address space holds a stack
/// anywhere.
pub proof fn lemma_linear_memory_holds_stack<const SIZE: usize>(
    mem: LinearState,
    sp: u16,
    value: u16,
)
    requires
        mem.bytes.len() > 0xFFFF,
    ensures
        stack_holds::<LinearMemory<SIZE>>(mem, sp, value),
{
}

/// Whether the RAMs and memories of bus state `s` have their sizes.
pub open spec fn bus_sized<C>(s: BusState<C>) -> bool {
    &&& s.work_ram.len() == 0x2000
    &&& s.high_ram.len() == 0x7F
    &&& s.ppu.vram.len() == 0x2000
    &&& s.ppu.oam.len() == 0xA0
}

/// Whether `addr` lies in work RAM, its echo or high RAM.
pub open spec fn in_ram(addr: u16) -> bool {
    0xC000 <= addr <= 0xFDFF || 0xFF80 <= addr <= 0xFFFE
}

/// Whether two addresses name the same byte of RAM: they are equal, or one
/// is the echo of the other.
pub open spec fn same_cell(a: u16, b: u16) -> bool {
    a == b || (0xC000 <= a <= 0xDDFF && b == a + 0x2000) || (0xC000 <= b <= 0xDDFF && a == b
        + 0x2000)
}

/// A byte written to work RAM at offset `k` reads back both there and in
/// the echo, and a byte written to the echo reads back both there and in
/// work RAM.
pub proof fn lemma_echo<C: Mbc>(s: BusState<C::V>, k: u16, value: u8)
    requires
        bus_sized(s),
        k < 0x1E00,
    ensures
        bus_read::<C>(bus_written::<C>(s, (0xC000 + k) as u16, value), (0xE000 + k) as u16)
            == value,
        bus_read::<C>(bus_written::<C>(s, (0xE000 + k) as u16, value), (0xC000 + k) as u16)
            == value,
        bus_read::<C>(bus_written::<C>(s, (0xC000 + k) as u16, value), (0xC000 + k) as u16)
            == value,
        bus_read::<C>(bus_written::<C>(s, (0xE000 + k) as u16, value), (0xE000 + k) as u16)
            == value,
{
}

/// A byte written to RAM reads back, and a write to RAM changes no other
/// byte of RAM.
pub proof fn lemma_ram_stores<C: Mbc>(s: BusState<C::V>, addr: u16, value: u8, other: u16)
    requires
        bus_sized(s),
        in_ram(addr),
    ensures
        bus_read::<C>(bus_written::<C>(s, addr, value), addr) == value,
        in_ram(other) && !same_cell(addr, other) ==> bus_read::<C>(
            bus_written::<C>(s, addr, value),
            other,
        ) == bus_read::<C>(s, other),
        bus_sized(bus_written::<C>(s, addr, value)),
{
}

/// The bus holds a stack whose two bytes lie in RAM.
pub proof fn lemma_bus_holds_stack<C: Mbc>(s: BusState<C::V>, sp: u16, value: u16)
    requires
        bus_sized(s),
        in_ram(address_after(sp, -2)),
        in_ram(address_after(sp, -1)),
    ensures
        stack_holds::<MappedMemory<C>>(s, sp, value),
{
    let below = address_after(sp, -2);
    let above = address_after(below, 1);
    let first = bus_written::<C>(s, above, (value / 256) as u8);
    lemma_ram_stores::<C>(s, above, (value / 256) as u8, below);
    lemma_ram_stores::<C>(first, below, (value % 256) as u8, above);
}

/// Right after a page at most 0xDF is written to the DMA trigger, the
/// sprite table holds the 160 bytes from the start of that page, as they
/// were before the write and as they still are.
pub proof fn lemma_dma_copies_page<C: Mbc>(s: BusState<C::V>, page: u8, i: int)
    requires
        bus_sized(s),
        page <= DMA_LAST_PAGE,
        0 <= i < 0xA0,
    ensures
        bus_read::<C>(bus_written::<C>(s, 0xFF46, page), (0xFE00 + i) as u16) == bus_read::<C>(
            s,
            (page * 256 + i) as u16,
        ),
        bus_read::<C>(bus_written::<C>(s, 0xFF46, page), (0xFE00 + i) as u16) == bus_read::<C>(
            bus_written::<C>(s, 0xFF46, page),
            (page * 256 + i) as u16,
        ),
{
}

/// The timer after `n` machine cycles.
pub open spec fn timer_after(t: Timer, n: nat) -> Timer
    decreases n,
{
    if n == 0 {
        t
    } else {
        timer_after(t, (n - 1) as nat).ticked()
    }
}

/// While the divider's countdown runs, DIV stands still; machine cycles of
/// the timer leave TMA and TAC alone.
pub proof fn lemma_divider_counts_down(t: Timer, n: nat)
    requires
        n <= t.div_countdown,
    ensures
        timer_after(t, n).div == t.div,
        timer_after(t, n).div_countdown == t.div_countdown - n,
        timer_after(t, n).tma == t.tma,
        timer_after(t, n).tac == t.tac,
    decreases n,
{
    if n > 0 {
        lemma_divider_counts_down(t, (n - 1) as nat);
    }
}

/// Running the timer for `a` and then `b` machine cycles is running it for
/// `a + b`.
pub proof fn lemma_timer_after_sum(t: Timer, a: nat, b: nat)
    ensures
        timer_after(timer_after(t, a), b) == timer_after(t, a + b),
    decreases b,
{
    if b > 0 {
        lemma_timer_after_sum(t, a, (b - 1) as nat);
    }
}

/// DIV steps exactly once in any 64 machine cycles, and then the divider is
/// where it was within its period.
pub proof fn lemma_divider_period(t: Timer)
    requires
        t.div_countdown < 64,
    ensures
        timer_after(t, 64).div == (t.div + 1) % 256,
        timer_after(t, 64).div_countdown == t.div_countdown,
{
    let c = t.div_countdown as nat;
    lemma_divider_counts_down(t, c);
    let at_zero = timer_after(t, c);
    let stepped = timer_after(t, c + 1);
    assert(stepped == at_zero.ticked());
    let rest = (63 - c) as nat;
    lemma_divider_counts_down(stepped, rest);
    lemma_timer_after_sum(t, c + 1, rest);
}

/// While the countdown of an enabled timer runs, TIMA stands still; the
/// machine cycle that finds it at zero steps TIMA, reloading it from TMA and
/// raising the interrupt when it was 255, and starts a countdown of the
/// period chosen in TAC.
pub proof fn lemma_timer_period(t: Timer, n: nat)
    requires
        t.enabled(),
        n <= t.timer_countdown,
    ensures
        timer_after(t, n).tima == t.tima,
        timer_after(t, n).timer_countdown == t.timer_countdown - n,
        timer_after(t, n).enabled(),
        n < t.timer_countdown ==> !timer_after(t, n).fires(),
        n == t.timer_countdown ==> timer_after(t, n).fires() && timer_after(
            t,
            n,
        ).ticked().timer_countdown == t.period() - 1 && timer_after(t, n).ticked().tima == (if t.tima
            == 255 {
            t.tma
        } else {
            (t.tima + 1) as u8
        }),
    decreases n,
{
    lemma_divider_counts_down(t, 0);
    if n > 0 {
        lemma_timer_period(t, (n - 1) as nat);
        lemma_timer_keeps_registers(t, (n - 1) as nat);
    }
    lemma_timer_keeps_registers(t, n);
}

/// Machine cycles of the timer leave TMA and TAC alone.
pub proof fn lemma_timer_keeps_registers(t: Timer, n: nat)
    ensures
        timer_after(t, n).tma == t.tma,
        timer_after(t, n).tac == t.tac,
    decreases n,
{
    if n > 0 {
        lemma_timer_keeps_registers(t, (n - 1) as nat);
    }
}

/// The machine cycles since line 0 of the frame started.
pub open spec fn frame_position(s: PpuState) -> int {
    s.regs.line * 114 + s.regs.mode_counter
}

/// The display state after `n` machine cycles.
pub open spec fn display_after(s: PpuState, n: nat) -> PpuState
    decreases n,
{
    if n == 0 {
        s
    } else {
        display_after(s, (n - 1) as nat).ticked()
    }
}

/// A machine cycle moves the clock of the display by one, round a frame of
/// 17556 cycles, and leaves the unit in the mode that its clock calls for.
pub proof fn lemma_display_tick(s: PpuState)
    requires
        s.regs.wf(),
    ensures
        s.ticked().regs.wf(),
        frame_position(s.ticked()) == (frame_position(s) + 1) % 17556,
        s.ticked().regs.mode == PpuMode::at(s.ticked().regs.line, s.ticked().regs.mode_counter),
{
}

/// The vertical blank is entered by the machine cycle that ends line 143
/// and by no other: once in a frame. Entering it raises the vertical blank
/// interrupt and marks the frame complete.
pub proof fn lemma_vblank_once_a_frame(s: PpuState)
    requires
        s.regs.wf(),
        s.regs.mode == PpuMode::at(s.regs.line, s.regs.mode_counter),
    ensures
        (s.ticked().regs.mode is VBlank && !(s.regs.mode is VBlank)) <==> frame_position(s) == 144
            * 114 - 1,
        frame_position(s) == 144 * 114 - 1 ==> s.ticked().regs.frame_ready
            && s.ticked().regs.interrupt == s.regs.interrupt | crate::ppu::raised(
            s.regs.lyc_int && 144 == s.regs.lyc,
            crate::ppu::STAT_INTERRUPT,
        ) | crate::ppu::VBLANK_INTERRUPT | crate::ppu::raised(
            s.regs.mode_1_int,
            crate::ppu::STAT_INTERRUPT,
        ),
{
}

/// After `n` machine cycles the clock of the display has moved by `n` round
/// the frame.
#[verifier::rlimit(40)]
pub proof fn lemma_display_position(s: PpuState, n: nat)
    requires
        s.regs.wf(),
    ensures
        display_after(s, n).regs.wf(),
        frame_position(display_after(s, n)) == (frame_position(s) + n) % 17556,
        n > 0 ==> display_after(s, n).regs.mode == PpuMode::at(
            display_after(s, n).regs.line,
            display_after(s, n).regs.mode_counter,
        ),
    decreases n,
{
    if n > 0 {
        lemma_display_position(s, (n - 1) as nat);
        lemma_display_tick(display_after(s, (n - 1) as nat));
    }
}

/// A frame takes 17556 machine cycles: after that many the display is on
/// the same line, at the same cycle of it and in the mode that belongs
/// there.
pub proof fn lemma_frame_period(s: PpuState)
    requires
        s.regs.wf(),
    ensures
        display_after(s, 17556).regs.line == s.regs.line,
        display_after(s, 17556).regs.mode_counter == s.regs.mode_counter,
        display_after(s, 17556).regs.mode == PpuMode::at(s.regs.line, s.regs.mode_counter),
{
    lemma_display_position(s, 17556);
    let after = display_after(s, 17556);
    let before = frame_position(s);
    assert(0 <= before < 17556);
    assert((before + 17556) % 17556 == before);
    assert(after.regs.line * 114 + after.regs.mode_counter == s.regs.line * 114
        + s.regs.mode_counter);
    assert(after.regs.line == s.regs.line) by {
        if after.regs.line < s.regs.line {
            assert(after.regs.line * 114 + 114 <= s.regs.line * 114);
        } else if after.regs.line > s.regs.line {
            assert(s.regs.line * 114 + 114 <= after.regs.line * 114);
        }
    }
}

} // verus!
