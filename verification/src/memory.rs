//! Register pairs, interrupt lines and the memory interface that the
//! processor drives.

use vstd::prelude::*;
use crate::bits::{lemma_word_bytes, word};
use crate::flags::Flags;
use crate::joypad::Joypad;
use crate::ppu::{Ppu, PpuRegisters, PpuState};
use crate::serial::Serial;
use crate::timer::Timer;
use crate::ControlMsg;

verus! {

/// A 16-bit register held as its two bytes.
#[derive(Copy, Clone, Debug, PartialEq, Eq, Structural)]
pub struct RegisterPairValue {
    pub high: u8,
    pub low: u8,
}

impl RegisterPairValue {
    /// The 16-bit value of the pair.
    pub open spec fn value(self) -> u16 {
        word(self.high, self.low)
    }

    /// The pair that holds `value`.
    pub open spec fn of(value: u16) -> RegisterPairValue {
        RegisterPairValue { high: (value / 256) as u8, low: (value % 256) as u8 }
    }

    /// The high byte.
    pub fn high(&self) -> (r: u8)
        ensures
            r == self.high,
    {
        self.high
    }

    /// The low byte.
    pub fn low(&self) -> (r: u8)
        ensures
            r == self.low,
    {
        self.low
    }

    /// The high byte, to be written through.
    pub fn high_mut(&mut self) -> (r: &mut u8)
        ensures
            *r == old(self).high,
            *final(self) == (RegisterPairValue { high: *final(r), low: old(self).low }),
    {
        &mut self.high
    }

    /// The low byte, to be written through.
    pub fn low_mut(&mut self) -> (r: &mut u8)
        ensures
            *r == old(self).low,
            *final(self) == (RegisterPairValue { high: old(self).high, low: *final(r) }),
    {
        &mut self.low
    }

    /// The 16-bit value of the pair.
    pub fn as_u16(&self) -> (r: u16)
        ensures
            r == self.value(),
            r == self.high * 256 + self.low,
    {
        proof {
            lemma_word_bytes(self.high, self.low, 0);
        }
        ((self.high as u16) << 8) | (self.low as u16)
    }

    /// The condition flags that the low byte holds; its low nibble is
    /// ignored.
    pub fn flags(&self) -> (r: Flags)
        ensures
            r == Flags::spec_from_bits(self.low),
    {
        Flags::from_bits_truncate(self.low)
    }

    /// Replaces the high byte.
    pub fn set_high(&mut self, value: u8)
        ensures
            *final(self) == (RegisterPairValue { high: value, low: old(self).low }),
    {
        self.high = value;
    }

    /// Replaces the low byte.
    pub fn set_low(&mut self, value: u8)
        ensures
            *final(self) == (RegisterPairValue { high: old(self).high, low: value }),
    {
        self.low = value;
    }
}

impl From<u16> for RegisterPairValue {
    fn from(value: u16) -> (r: RegisterPairValue) {
        proof {
            lemma_word_bytes(0, 0, value);
        }
        RegisterPairValue { high: (value >> 8) as u8, low: value as u8 }
    }
}

impl vstd::std_specs::convert::FromSpecImpl<u16> for RegisterPairValue {
    open spec fn obeys_from_spec() -> bool {
        true
    }

    open spec fn from_spec(value: u16) -> RegisterPairValue {
        RegisterPairValue::of(value)
    }
}

impl Default for RegisterPairValue {
    fn default() -> (r: RegisterPairValue)
        ensures
            r == (RegisterPairValue { high: 0, low: 0 }),
    {
        RegisterPairValue { high: 0, low: 0 }
    }
}

/// Splitting a word into a pair and reading the pair back gives the word,
/// and the other way round.
pub proof fn lemma_pair_round_trip(value: u16, pair: RegisterPairValue)
    ensures
        RegisterPairValue::of(value).value() == value,
        RegisterPairValue::of(pair.value()) == pair,
{
    lemma_word_bytes(pair.high, pair.low, value);
}

/// The five interrupt lines, in order of priority.
#[derive(Copy, Clone, Debug, PartialEq, Eq, Structural)]
pub enum Interrupt {
    VBlank,
    LcdStat,
    Timer,
    Serial,
    Joypad,
}

impl Interrupt {
    /// The line's position in IE and IF, which is also its rank: 0 is served
    /// first.
    pub open spec fn index(self) -> nat {
        match self {
            Interrupt::VBlank => 0,
            Interrupt::LcdStat => 1,
            Interrupt::Timer => 2,
            Interrupt::Serial => 3,
            Interrupt::Joypad => 4,
        }
    }

    /// The line's bit in IE and IF.
    pub open spec fn mask(self) -> u8 {
        match self {
            Interrupt::VBlank => 0x01,
            Interrupt::LcdStat => 0x02,
            Interrupt::Timer => 0x04,
            Interrupt::Serial => 0x08,
            Interrupt::Joypad => 0x10,
        }
    }

    /// The address that serving the line jumps to.
    pub open spec fn vector(self) -> u16 {
        (0x40 + 8 * self.index()) as u16
    }

    /// Whether `pending` has the line's bit set.
    pub open spec fn is_in(self, pending: u8) -> bool {
        pending / self.mask() % 2 == 1
    }

    /// The line that is served when the lines in `pending` are both enabled
    /// and requested: the one of lowest index, if there is any.
    pub open spec fn first_of(pending: u8) -> Option<Interrupt> {
        if Interrupt::VBlank.is_in(pending) {
            Some(Interrupt::VBlank)
        } else if Interrupt::LcdStat.is_in(pending) {
            Some(Interrupt::LcdStat)
        } else if Interrupt::Timer.is_in(pending) {
            Some(Interrupt::Timer)
        } else if Interrupt::Serial.is_in(pending) {
            Some(Interrupt::Serial)
        } else if Interrupt::Joypad.is_in(pending) {
            Some(Interrupt::Joypad)
        } else {
            None
        }
    }

    /// The line's bit in IE and IF.
    pub fn bit(self) -> (r: u8)
        ensures
            r == self.mask(),
    {
        match self {
            Interrupt::VBlank => 0x01,
            Interrupt::LcdStat => 0x02,
            Interrupt::Timer => 0x04,
            Interrupt::Serial => 0x08,
            Interrupt::Joypad => 0x10,
        }
    }

    /// The address that serving the line jumps to.
    pub fn handler(self) -> (r: u16)
        ensures
            r == self.vector(),
    {
        match self {
            Interrupt::VBlank => 0x40,
            Interrupt::LcdStat => 0x48,
            Interrupt::Timer => 0x50,
            Interrupt::Serial => 0x58,
            Interrupt::Joypad => 0x60,
        }
    }

    /// Picks the line to serve among those set in `pending`: the one of
    /// lowest index. Bits 5 to 7 name no line and are ignored.
    pub fn select(pending: u8) -> (r: Option<Interrupt>)
        ensures
            r == Interrupt::first_of(pending),
            r is None <==> pending % 32 == 0,
            r matches Some(line) ==> line.is_in(pending) && forall|other: Interrupt|
                other.is_in(pending) ==> line.index() <= other.index(),
    {
        assert((pending & 0x01 != 0) == (pending / 1 % 2 == 1) && (pending & 0x02 != 0) == (pending
            / 2 % 2 == 1) && (pending & 0x04 != 0) == (pending / 4 % 2 == 1) && (pending & 0x08
            != 0) == (pending / 8 % 2 == 1) && (pending & 0x10 != 0) == (pending / 16 % 2 == 1))
            by (bit_vector);
        if pending & 0x01 != 0 {
            Some(Interrupt::VBlank)
        } else if pending & 0x02 != 0 {
            Some(Interrupt::LcdStat)
        } else if pending & 0x04 != 0 {
            Some(Interrupt::Timer)
        } else if pending & 0x08 != 0 {
            Some(Interrupt::Serial)
        } else if pending & 0x10 != 0 {
            Some(Interrupt::Joypad)
        } else {
            None
        }
    }
}

impl From<Interrupt> for u8 {
    fn from(interrupt: Interrupt) -> (r: u8) {
        interrupt.bit()
    }
}

impl vstd::std_specs::convert::FromSpecImpl<Interrupt> for u8 {
    open spec fn obeys_from_spec() -> bool {
        true
    }

    open spec fn from_spec(interrupt: Interrupt) -> u8 {
        interrupt.mask()
    }
}

/// What the processor needs of a memory: byte reads and writes over the whole
/// 16-bit address space, a clock tick for the devices behind it, and the two
/// interrupt registers. The view of a memory is its mathematical state; the
/// spec functions say how each operation acts on that state.
pub trait Memory: View + Sized {
    /// The representation invariant, which every operation keeps.
    spec fn inv(&self) -> bool;

    /// The byte that a read of `addr` returns in state `s`.
    spec fn read(s: Self::V, addr: u16) -> u8;

    /// The state after `value` is written to `addr` in state `s`.
    spec fn written(s: Self::V, addr: u16, value: u8) -> Self::V;

    /// The state after one machine cycle passes in state `s`.
    spec fn ticked(s: Self::V) -> Self::V;

    /// The interrupt enable mask IE in state `s`.
    spec fn enabled(s: Self::V) -> u8;

    /// The interrupt request mask IF in state `s`.
    spec fn requested(s: Self::V) -> u8;

    /// State `s` with IE replaced by `mask`.
    spec fn with_enabled(s: Self::V, mask: u8) -> Self::V;

    /// State `s` with IF replaced by `mask`.
    spec fn with_requested(s: Self::V, mask: u8) -> Self::V;

    /// Whether this kind of memory takes the control message `msg`.
    spec fn accepts(msg: ControlMsg) -> bool;

    /// The state after the control message `msg` is applied to state `s`.
    spec fn controlled(s: Self::V, msg: ControlMsg) -> Self::V;

    /// Reads the byte at `addr`.
    fn get(&self, addr: u16) -> (r: u8)
        requires
            self.inv(),
        ensures
            r == Self::read(self@, addr),
    ;

    /// Writes `value` to `addr`.
    fn write(&mut self, addr: u16, value: u8)
        requires
            old(self).inv(),
        ensures
            final(self).inv(),
            final(self)@ == Self::written(old(self)@, addr, value),
    ;

    /// Writes to `addr` the byte that `closure` computes.
    fn update<F: FnOnce() -> u8>(&mut self, addr: u16, closure: F)
        requires
            old(self).inv(),
            closure.requires(()),
        ensures
            final(self).inv(),
            exists|value: u8| #[trigger]
                closure.ensures((), value) && final(self)@ == Self::written(
                    old(self)@,
                    addr,
                    value,
                ),
    ;

    /// Lets one machine cycle pass for the devices behind the memory.
    fn cycle(&mut self)
        requires
            old(self).inv(),
        ensures
            final(self).inv(),
            final(self)@ == Self::ticked(old(self)@),
    ;

    /// Sets or clears the bit of `interrupt` in IE.
    fn enable_interrupt(&mut self, interrupt: Interrupt, enable: bool)
        requires
            old(self).inv(),
        ensures
            final(self).inv(),
            final(self)@ == Self::with_enabled(
                old(self)@,
                if enable {
                    Self::enabled(old(self)@) | interrupt.mask()
                } else {
                    Self::enabled(old(self)@) & !interrupt.mask()
                },
            ),
    ;

    /// The interrupt enable mask IE.
    fn enabled_interrupts(&self) -> (r: u8)
        requires
            self.inv(),
        ensures
            r == Self::enabled(self@),
    ;

    /// Sets in IF the bits of `interrupt`.
    fn request_interrupt(&mut self, interrupt: u8)
        requires
            old(self).inv(),
        ensures
            final(self).inv(),
            final(self)@ == Self::with_requested(
                old(self)@,
                Self::requested(old(self)@) | interrupt,
            ),
    ;

    /// The interrupt request mask IF.
    fn requested_interrupts(&self) -> (r: u8)
        requires
            self.inv(),
        ensures
            r == Self::requested(self@),
    ;

    /// Replaces IF by `value`.
    fn set_requested_interrupts(&mut self, value: u8)
        requires
            old(self).inv(),
        ensures
            final(self).inv(),
            final(self)@ == Self::with_requested(old(self)@, value),
    ;

    /// Clears the bit of `interrupt` in IF.
    fn clear_requested_interrupt(&mut self, interrupt: Interrupt)
        requires
            old(self).inv(),
        ensures
            final(self).inv(),
            final(self)@ == Self::with_requested(
                old(self)@,
                Self::requested(old(self)@) & !interrupt.mask(),
            ),
    ;

    /// Applies a control message from the host.
    fn control_msg(&mut self, msg: ControlMsg)
        requires
            old(self).inv(),
            Self::accepts(msg),
        ensures
            final(self).inv(),
            final(self)@ == Self::controlled(old(self)@, msg),
    ;
}

/// A memory bank controller: the cartridge as the bus sees it. Reads of the
/// ROM and of the external RAM, and writes, which a controller takes as bank
/// switching commands or as RAM writes. The view of a controller is its
/// mathematical state; the spec functions say how each operation acts on it.
pub trait Mbc: View + Sized {
    /// The representation invariant, which every operation keeps.
    spec fn inv(&self) -> bool;

    /// The state of a controller fresh from the ROM image `rom`.
    spec fn loaded(rom: Seq<u8>) -> Self::V;

    /// The byte that a read of ROM address `addr` returns in state `s`.
    spec fn rom_byte(s: Self::V, addr: u16) -> u8;

    /// The byte that a read of external RAM address `addr` returns in state
    /// `s`.
    spec fn ram_byte(s: Self::V, addr: u16) -> u8;

    /// The state after `value` is written to `addr` in state `s`.
    spec fn written(s: Self::V, addr: u16, value: u8) -> Self::V;

    /// A controller for the ROM image `rom`.
    fn new(rom: Vec<u8>) -> (r: Self)
        ensures
            r.inv(),
            r@ == Self::loaded(rom@),
    ;

    /// Reads the ROM byte at `addr`.
    fn read_rom(&self, addr: u16) -> (r: u8)
        requires
            self.inv(),
        ensures
            r == Self::rom_byte(self@, addr),
    ;

    /// Reads the external RAM byte at `addr`.
    fn read_ram(&self, addr: u16) -> (r: u8)
        requires
            self.inv(),
        ensures
            r == Self::ram_byte(self@, addr),
    ;

    /// Writes `value` to `addr`.
    fn write(&mut self, addr: u16, value: u8)
        requires
            old(self).inv(),
        ensures
            final(self).inv(),
            final(self)@ == Self::written(old(self)@, addr, value),
    ;
}

/// The controller of a cartridge that is nothing but ROM: no banks, no RAM.
pub struct RomOnlyMbc {
    pub rom: Vec<u8>,
}

impl View for RomOnlyMbc {
    type V = Seq<u8>;

    open spec fn view(&self) -> Seq<u8> {
        self.rom@
    }
}

impl Mbc for RomOnlyMbc {
    open spec fn inv(&self) -> bool {
        true
    }

    open spec fn loaded(rom: Seq<u8>) -> Seq<u8> {
        rom
    }

    /// The byte of the image at `addr`; past the end of the image, 0xFF.
    open spec fn rom_byte(s: Seq<u8>, addr: u16) -> u8 {
        if addr < s.len() {
            s[addr as int]
        } else {
            0xFF
        }
    }

    /// There is no external RAM: every read returns 0xFF.
    open spec fn ram_byte(s: Seq<u8>, addr: u16) -> u8 {
        0xFF
    }

    /// Writes are rejected.
    open spec fn written(s: Seq<u8>, addr: u16, value: u8) -> Seq<u8> {
        s
    }

    fn new(rom: Vec<u8>) -> (r: Self) {
        Self { rom }
    }

    fn read_rom(&self, addr: u16) -> (r: u8) {
        if (addr as usize) < self.rom.len() {
            self.rom[addr as usize]
        } else {
            0xFF
        }
    }

    fn read_ram(&self, addr: u16) -> (r: u8) {
        0xFF
    }

    fn write(&mut self, addr: u16, value: u8) {
    }
}

/// The bit that the timer raises in IF.
pub const TIMER_INTERRUPT: u8 = 0x04;

/// The highest page that an OAM DMA can copy from.
pub const DMA_LAST_PAGE: u8 = 0xDF;

/// The state of a [`MappedMemory`] over a cartridge whose state is a `C`.
pub struct BusState<C> {
    pub mbc: C,
    pub work_ram: Seq<u8>,
    pub high_ram: Seq<u8>,
    pub joypad: Joypad,
    pub ppu: PpuState,
    pub timer: Timer,
    pub serial: Serial,
    pub int_enable: u8,
    pub int_request: u8,
}

/// The regions of the address space.
#[derive(Debug, Copy, Clone, PartialEq, Eq, Structural)]
pub enum Region {
    /// 0x0000 to 0x7FFF: cartridge ROM.
    Rom,
    /// 0x8000 to 0x9FFF: video memory.
    VideoRam,
    /// 0xA000 to 0xBFFF: cartridge RAM.
    ExternalRam,
    /// 0xC000 to 0xDFFF: work RAM.
    WorkRam,
    /// 0xE000 to 0xFDFF: the echo of work RAM.
    Echo,
    /// 0xFE00 to 0xFE9F: the sprite table.
    Oam,
    /// 0xFF00: the joypad.
    Joypad,
    /// 0xFF01 and 0xFF02: the serial port.
    Serial,
    /// 0xFF04 to 0xFF07: the timer.
    Timer,
    /// 0xFF0F: the interrupt requests IF.
    InterruptRequest,
    /// 0xFF46: the OAM DMA trigger.
    Dma,
    /// 0xFF40 to 0xFF4B but 0xFF46: the display registers.
    Display,
    /// 0xFF80 to 0xFFFE: high RAM.
    HighRam,
    /// 0xFFFF: the interrupt enables IE.
    InterruptEnable,
    /// Everything else, the audio registers included: reads return 0xFF and
    /// writes are dropped.
    Unmapped,
}

impl Region {
    /// The region that `addr` lies in.
    pub open spec fn containing(addr: u16) -> Region {
        if addr <= 0x7FFF {
            Region::Rom
        } else if addr <= 0x9FFF {
            Region::VideoRam
        } else if addr <= 0xBFFF {
            Region::ExternalRam
        } else if addr <= 0xDFFF {
            Region::WorkRam
        } else if addr <= 0xFDFF {
            Region::Echo
        } else if addr <= 0xFE9F {
            Region::Oam
        } else if addr <= 0xFEFF {
            Region::Unmapped
        } else if addr == 0xFF00 {
            Region::Joypad
        } else if addr == 0xFF01 || addr == 0xFF02 {
            Region::Serial
        } else if 0xFF04 <= addr <= 0xFF07 {
            Region::Timer
        } else if addr == 0xFF0F {
            Region::InterruptRequest
        } else if addr == 0xFF46 {
            Region::Dma
        } else if 0xFF40 <= addr <= 0xFF4B {
            Region::Display
        } else if 0xFF80 <= addr <= 0xFFFE {
            Region::HighRam
        } else if addr == 0xFFFF {
            Region::InterruptEnable
        } else {
            Region::Unmapped
        }
    }

    /// The region that `addr` lies in.
    pub fn of(addr: u16) -> (r: Region)
        ensures
            r == Region::containing(addr),
    {
        if addr <= 0x7FFF {
            Region::Rom
        } else if addr <= 0x9FFF {
            Region::VideoRam
        } else if addr <= 0xBFFF {
            Region::ExternalRam
        } else if addr <= 0xDFFF {
            Region::WorkRam
        } else if addr <= 0xFDFF {
            Region::Echo
        } else if addr <= 0xFE9F {
            Region::Oam
        } else if addr <= 0xFEFF {
            Region::Unmapped
        } else if addr == 0xFF00 {
            Region::Joypad
        } else if addr == 0xFF01 || addr == 0xFF02 {
            Region::Serial
        } else if 0xFF04 <= addr && addr <= 0xFF07 {
            Region::Timer
        } else if addr == 0xFF0F {
            Region::InterruptRequest
        } else if addr == 0xFF46 {
            Region::Dma
        } else if 0xFF40 <= addr && addr <= 0xFF4B {
            Region::Display
        } else if 0xFF80 <= addr && addr <= 0xFFFE {
            Region::HighRam
        } else if addr == 0xFFFF {
            Region::InterruptEnable
        } else {
            Region::Unmapped
        }
    }
}

/// The byte that a read of `addr` returns in bus state `s`.
pub open spec fn bus_read<C: Mbc>(s: BusState<C::V>, addr: u16) -> u8 {
    match Region::containing(addr) {
        Region::Rom => C::rom_byte(s.mbc, addr),
        Region::VideoRam => s.ppu.read(addr),
        Region::ExternalRam => C::ram_byte(s.mbc, addr),
        Region::WorkRam => s.work_ram[addr - 0xC000],
        Region::Echo => s.work_ram[addr - 0xE000],
        Region::Oam => s.ppu.read(addr),
        Region::Joypad => s.joypad.register(),
        Region::Serial => s.serial.register(addr),
        Region::Timer => s.timer.register(addr),
        Region::InterruptRequest => s.int_request,
        Region::Dma => s.ppu.read(addr),
        Region::Display => s.ppu.read(addr),
        Region::HighRam => s.high_ram[addr - 0xFF80],
        Region::InterruptEnable => s.int_enable,
        Region::Unmapped => 0xFF,
    }
}

/// The sprite table after an OAM DMA from page `page`: the 160 bytes that
/// the bus holds from the start of the page on.
pub open spec fn dma_image<C: Mbc>(s: BusState<C::V>, page: u8) -> Seq<u8> {
    Seq::new(0xA0, |i: int| bus_read::<C>(s, (page * 256 + i) as u16))
}

/// The bus state after `value` is written to `addr` in state `s`. A write
/// to the DMA trigger copies the page named, if that is at most 0xDF, into
/// the sprite table and records the page. The copy is made at once: it
/// takes no machine cycles and never locks the bus.
pub open spec fn bus_written<C: Mbc>(s: BusState<C::V>, addr: u16, value: u8) -> BusState<C::V> {
    match Region::containing(addr) {
        Region::Rom => BusState { mbc: C::written(s.mbc, addr, value), ..s },
        Region::VideoRam => BusState { ppu: s.ppu.written(addr, value), ..s },
        Region::ExternalRam => BusState { mbc: C::written(s.mbc, addr, value), ..s },
        Region::WorkRam => BusState { work_ram: s.work_ram.update(addr - 0xC000, value), ..s },
        Region::Echo => BusState { work_ram: s.work_ram.update(addr - 0xE000, value), ..s },
        Region::Oam => BusState { ppu: s.ppu.written(addr, value), ..s },
        Region::Joypad => BusState { joypad: s.joypad.selected(value), ..s },
        Region::Serial => BusState { serial: s.serial.written(addr, value), ..s },
        Region::Timer => BusState { timer: s.timer.written(addr, value), ..s },
        Region::InterruptRequest => BusState { int_request: value, ..s },
        Region::Dma => BusState {
            ppu: PpuState {
                oam: if value <= DMA_LAST_PAGE {
                    dma_image::<C>(s, value)
                } else {
                    s.ppu.oam
                },
                ..s.ppu.written(addr, value)
            },
            ..s
        },
        Region::Display => BusState { ppu: s.ppu.written(addr, value), ..s },
        Region::HighRam => BusState { high_ram: s.high_ram.update(addr - 0xFF80, value), ..s },
        Region::InterruptEnable => BusState { int_enable: value, ..s },
        Region::Unmapped => s,
    }
}

/// The bus state after one machine cycle: timer and display advance, and
/// the interrupts that they and the joypad raised are collected into IF.
pub open spec fn bus_ticked<C>(s: BusState<C>) -> BusState<C> {
    let ppu = s.ppu.ticked();
    BusState {
        timer: s.timer.ticked(),
        ppu: PpuState { regs: PpuRegisters { interrupt: 0, ..ppu.regs }, ..ppu },
        joypad: Joypad { interrupt: 0, ..s.joypad },
        int_request: s.int_request | (if s.timer.overflows() {
            TIMER_INTERRUPT
        } else {
            0
        }) | ppu.regs.interrupt | s.joypad.interrupt,
        ..s
    }
}

/// The bus state after the control message `msg`: the tile viewer is
/// switched, or a key goes down or up; `Debug` changes nothing.
pub open spec fn bus_controlled<C>(s: BusState<C>, msg: ControlMsg) -> BusState<C> {
    match msg {
        ControlMsg::ShowVRam(show) => BusState {
            ppu: PpuState { regs: PpuRegisters { show_vram: show, ..s.ppu.regs }, ..s.ppu },
            ..s
        },
        ControlMsg::KeyDown(key) => BusState { joypad: s.joypad.pressed(key), ..s },
        ControlMsg::KeyUp(key) => BusState { joypad: s.joypad.released(key), ..s },
        _ => s,
    }
}

/// The bus state after the I/O registers are written with the values that
/// the boot program leaves in them, starting from state `s`: joypad, serial
/// port, timer, IF, the audio registers (which the bus absorbs) and the
/// display registers, in that order.
pub open spec fn booted<C: Mbc>(s: BusState<C::V>) -> BusState<C::V> {
    let s = bus_written::<C>(s, 0xFF00, 0xCF);
    let s = bus_written::<C>(s, 0xFF01, 0x00);
    let s = bus_written::<C>(s, 0xFF02, 0x7E);
    let s = bus_written::<C>(s, 0xFF04, 0xAB);
    let s = bus_written::<C>(s, 0xFF05, 0x00);
    let s = bus_written::<C>(s, 0xFF06, 0x00);
    let s = bus_written::<C>(s, 0xFF07, 0xF8);
    let s = bus_written::<C>(s, 0xFF0F, 0xE1);
    let s = bus_written::<C>(s, 0xFF10, 0x80);
    let s = bus_written::<C>(s, 0xFF11, 0xBF);
    let s = bus_written::<C>(s, 0xFF12, 0xF3);
    let s = bus_written::<C>(s, 0xFF13, 0xFF);
    let s = bus_written::<C>(s, 0xFF14, 0xBF);
    let s = bus_written::<C>(s, 0xFF16, 0x3F);
    let s = bus_written::<C>(s, 0xFF17, 0x00);
    let s = bus_written::<C>(s, 0xFF18, 0xFF);
    let s = bus_written::<C>(s, 0xFF19, 0xBF);
    let s = bus_written::<C>(s, 0xFF1A, 0x7F);
    let s = bus_written::<C>(s, 0xFF1B, 0xFF);
    let s = bus_written::<C>(s, 0xFF1C, 0x9F);
    let s = bus_written::<C>(s, 0xFF1D, 0xFF);
    let s = bus_written::<C>(s, 0xFF1E, 0xBF);
    let s = bus_written::<C>(s, 0xFF20, 0xFF);
    let s = bus_written::<C>(s, 0xFF21, 0x00);
    let s = bus_written::<C>(s, 0xFF22, 0x00);
    let s = bus_written::<C>(s, 0xFF23, 0xBF);
    let s = bus_written::<C>(s, 0xFF24, 0x77);
    let s = bus_written::<C>(s, 0xFF25, 0xF3);
    let s = bus_written::<C>(s, 0xFF26, 0xF1);
    let s = bus_written::<C>(s, 0xFF40, 0x91);
    let s = bus_written::<C>(s, 0xFF41, 0x85);
    let s = bus_written::<C>(s, 0xFF42, 0x00);
    let s = bus_written::<C>(s, 0xFF43, 0x00);
    let s = bus_written::<C>(s, 0xFF45, 0x00);
    let s = bus_written::<C>(s, 0xFF47, 0xFC);
    let s = bus_written::<C>(s, 0xFF48, 0xFF);
    let s = bus_written::<C>(s, 0xFF49, 0xFF);
    let s = bus_written::<C>(s, 0xFF4A, 0x00);
    let s = bus_written::<C>(s, 0xFF4B, 0x00);
    s
}

/// The bus: it owns the cartridge, both RAMs and the devices, and routes
/// every address to one of them.
pub struct MappedMemory<MBC: Mbc> {
    pub mbc: MBC,
    pub work_ram: [u8; 0x2000],
    pub high_ram: [u8; 0x7F],
    pub joypad: Joypad,
    pub ppu: Ppu,
    pub timer: Timer,
    pub serial: Serial,
    pub int_enable: u8,
    pub int_request: u8,
}

impl<MBC: Mbc> View for MappedMemory<MBC> {
    type V = BusState<MBC::V>;

    open spec fn view(&self) -> BusState<MBC::V> {
        BusState {
            mbc: self.mbc@,
            work_ram: self.work_ram@,
            high_ram: self.high_ram@,
            joypad: self.joypad,
            ppu: self.ppu@,
            timer: self.timer,
            serial: self.serial,
            int_enable: self.int_enable,
            int_request: self.int_request,
        }
    }
}

impl<MBC: Mbc> MappedMemory<MBC> {
    /// A bus over the cartridge `mbc` with the given display unit and timer,
    /// both RAMs clear, and the I/O registers written with their values
    /// after boot.
    #[verifier::rlimit(40)]
    pub fn new(mbc: MBC, ppu: Ppu, timer: Timer) -> (r: Self)
        requires
            mbc.inv(),
            ppu.inv(),
        ensures
            Memory::inv(&r),
            r@ == booted::<MBC>(
                BusState {
                    mbc: mbc@,
                    work_ram: Seq::new(0x2000, |i: int| 0u8),
                    high_ram: Seq::new(0x7F, |i: int| 0u8),
                    joypad: Joypad { data: 0xFF, buttons: 0x0F, dpad: 0x0F, interrupt: 0 },
                    ppu: ppu@,
                    timer,
                    serial: Serial { data: 0, control: 0 },
                    int_enable: 0,
                    int_request: 0,
                },
            ),
    {
        let mut mmu = Self {
            mbc,
            work_ram: [0;0x2000],
            high_ram: [0;0x7F],
            joypad: Joypad::new(),
            ppu,
            timer,
            serial: Serial { data: 0, control: 0 },
            int_enable: 0,
            int_request: 0,
        };
        assert(mmu.work_ram@ =~= Seq::new(0x2000, |i: int| 0u8));
        assert(mmu.high_ram@ =~= Seq::new(0x7F, |i: int| 0u8));
        mmu.write(0xFF00, 0xCF);  // P1
        mmu.write(0xFF01, 0x00);  // SB
        mmu.write(0xFF02, 0x7E);  // SC
        mmu.write(0xFF04, 0xAB);  // DIV
        mmu.write(0xFF05, 0x00);  // TIMA
        mmu.write(0xFF06, 0x00);  // TMA
        mmu.write(0xFF07, 0xF8);  // TAC
        mmu.write(0xFF0F, 0xE1);  // IF
        mmu.write(0xFF10, 0x80);  // audio
        mmu.write(0xFF11, 0xBF);  // audio
        mmu.write(0xFF12, 0xF3);  // audio
        mmu.write(0xFF13, 0xFF);  // audio
        mmu.write(0xFF14, 0xBF);  // audio
        mmu.write(0xFF16, 0x3F);  // audio
        mmu.write(0xFF17, 0x00);  // audio
        mmu.write(0xFF18, 0xFF);  // audio
        mmu.write(0xFF19, 0xBF);  // audio
        mmu.write(0xFF1A, 0x7F);  // audio
        mmu.write(0xFF1B, 0xFF);  // audio
        mmu.write(0xFF1C, 0x9F);  // audio
        mmu.write(0xFF1D, 0xFF);  // audio
        mmu.write(0xFF1E, 0xBF);  // audio
        mmu.write(0xFF20, 0xFF);  // audio
        mmu.write(0xFF21, 0x00);  // audio
        mmu.write(0xFF22, 0x00);  // audio
        mmu.write(0xFF23, 0xBF);  // audio
        mmu.write(0xFF24, 0x77);  // audio
        mmu.write(0xFF25, 0xF3);  // audio
        mmu.write(0xFF26, 0xF1);  // audio
        mmu.write(0xFF40, 0x91);  // LCDC
        mmu.write(0xFF41, 0x85);  // STAT
        mmu.write(0xFF42, 0x00);  // SCY
        mmu.write(0xFF43, 0x00);  // SCX
        mmu.write(0xFF45, 0x00);  // LYC
        mmu.write(0xFF47, 0xFC);  // BGP
        mmu.write(0xFF48, 0xFF);  // OBP0
        mmu.write(0xFF49, 0xFF);  // OBP1
        mmu.write(0xFF4A, 0x00);  // WY
        mmu.write(0xFF4B, 0x00);  // WX
        mmu
    }

    /// Copies the 160 bytes from the start of page `value` into the sprite
    /// table.
    fn dma_transfer(&mut self, value: u8)
        requires
            Memory::inv(&*old(self)),
            value <= DMA_LAST_PAGE,
        ensures
            Memory::inv(&*final(self)),
            final(self)@ == (BusState {
                ppu: PpuState { oam: dma_image::<MBC>(old(self)@, value), ..old(self)@.ppu },
                ..old(self)@
            }),
    {
        let start = (value as u16) << 8;
        assert(start == value * 256) by (bit_vector)
            requires
                start == (value as u16) << 8,
        ;
        let mut copied: [u8; 160] = [0;160];
        let mut i: usize = 0;
        while i < 0xA0
            invariant
                i <= 0xA0,
                start == value * 256,
                value <= DMA_LAST_PAGE,
                *self == *old(self),
                Memory::inv(&*self),
                forall|k: int|
                    0 <= k < i ==> #[trigger] copied[k] == bus_read::<MBC>(
                        self@,
                        (value * 256 + k) as u16,
                    ),
            decreases 0xA0 - i,
        {
            copied[i] = self.get(start + i as u16);
            i += 1;
        }
        self.ppu.oam = copied;
        assert(self.ppu.oam@ =~= dma_image::<MBC>(old(self)@, value));
    }
}

impl<MBC: Mbc> Memory for MappedMemory<MBC> {
    open spec fn inv(&self) -> bool {
        self.mbc.inv() && self.ppu.inv()
    }

    open spec fn read(s: BusState<MBC::V>, addr: u16) -> u8 {
        bus_read::<MBC>(s, addr)
    }

    open spec fn written(s: BusState<MBC::V>, addr: u16, value: u8) -> BusState<MBC::V> {
        bus_written::<MBC>(s, addr, value)
    }

    open spec fn ticked(s: BusState<MBC::V>) -> BusState<MBC::V> {
        bus_ticked(s)
    }

    open spec fn enabled(s: BusState<MBC::V>) -> u8 {
        s.int_enable
    }

    open spec fn requested(s: BusState<MBC::V>) -> u8 {
        s.int_request
    }

    open spec fn with_enabled(s: BusState<MBC::V>, mask: u8) -> BusState<MBC::V> {
        BusState { int_enable: mask, ..s }
    }

    open spec fn with_requested(s: BusState<MBC::V>, mask: u8) -> BusState<MBC::V> {
        BusState { int_request: mask, ..s }
    }

    /// The bus takes the messages for its devices; `Terminate` and `Reset`
    /// are the processor's.
    open spec fn accepts(msg: ControlMsg) -> bool {
        msg is Debug || msg is ShowVRam || msg is KeyDown || msg is KeyUp
    }

    open spec fn controlled(s: BusState<MBC::V>, msg: ControlMsg) -> BusState<MBC::V> {
        bus_controlled(s, msg)
    }

    fn get(&self, addr: u16) -> (r: u8) {
        match Region::of(addr) {
            Region::Rom => self.mbc.read_rom(addr),
            Region::ExternalRam => self.mbc.read_ram(addr),
            Region::VideoRam | Region::Oam | Region::Dma | Region::Display => self.ppu.read(addr),
            Region::WorkRam => self.work_ram[(addr - 0xC000) as usize],
            Region::Echo => self.work_ram[(addr - 0xE000) as usize],
            Region::Joypad => self.joypad.read(),
            Region::Serial => self.serial.read(addr),
            Region::Timer => self.timer.read(addr),
            Region::InterruptRequest => self.int_request,
            Region::HighRam => self.high_ram[(addr - 0xFF80) as usize],
            Region::InterruptEnable => self.int_enable,
            Region::Unmapped => 0xFF,
        }
    }

    fn write(&mut self, addr: u16, value: u8) {
        match Region::of(addr) {
            Region::Rom | Region::ExternalRam => {
                self.mbc.write(addr, value);
            },
            Region::Dma => {
                if value <= DMA_LAST_PAGE {
                    self.dma_transfer(value);
                }
                self.ppu.write(addr, value);
            },
            Region::VideoRam | Region::Oam | Region::Display => {
                self.ppu.write(addr, value);
            },
            Region::WorkRam => {
                self.work_ram[(addr - 0xC000) as usize] = value;
            },
            Region::Echo => {
                self.work_ram[(addr - 0xE000) as usize] = value;
            },
            Region::Joypad => {
                self.joypad.write(value);
            },
            Region::Serial => {
                self.serial.write(addr, value);
            },
            Region::Timer => {
                self.timer.write(addr, value);
            },
            Region::InterruptRequest => {
                self.int_request = value;
            },
            Region::HighRam => {
                self.high_ram[(addr - 0xFF80) as usize] = value;
            },
            Region::InterruptEnable => {
                self.int_enable = value;
            },
            Region::Unmapped => {},
        }
    }

    fn update<F: FnOnce() -> u8>(&mut self, addr: u16, closure: F) {
        let result = closure();
        self.write(addr, result);
    }

    fn cycle(&mut self) {
        let raised = self.timer.cycle();
        match raised {
            Some(interrupt) => {
                self.int_request = self.int_request | interrupt.bit();
            },
            None => {
                let pending = self.int_request;
                assert(pending | 0 == pending) by (bit_vector);
            },
        }
        self.ppu.cycle();
        self.int_request = self.int_request | self.ppu.regs.interrupt;
        self.ppu.regs = PpuRegisters { interrupt: 0, ..self.ppu.regs };
        self.int_request = self.int_request | self.joypad.interrupt;
        self.joypad = Joypad { interrupt: 0, ..self.joypad };
    }

    fn enable_interrupt(&mut self, interrupt: Interrupt, enable: bool) {
        let mask = interrupt.bit();
        if enable {
            self.int_enable = self.int_enable | mask;
        } else {
            self.int_enable = self.int_enable & !mask;
        }
    }

    fn enabled_interrupts(&self) -> (r: u8) {
        self.int_enable
    }

    fn request_interrupt(&mut self, interrupt: u8) {
        self.int_request = self.int_request | interrupt;
    }

    fn requested_interrupts(&self) -> (r: u8) {
        self.int_request
    }

    fn set_requested_interrupts(&mut self, value: u8) {
        self.int_request = value;
    }

    fn clear_requested_interrupt(&mut self, interrupt: Interrupt) {
        self.int_request = self.int_request & !interrupt.bit();
    }

    fn control_msg(&mut self, msg: ControlMsg) {
        match msg {
            ControlMsg::ShowVRam(show) => {
                self.ppu.regs = PpuRegisters { show_vram: show, ..self.ppu.regs };
            },
            ControlMsg::KeyDown(key) => {
                self.joypad.keydown(key);
            },
            ControlMsg::KeyUp(key) => {
                self.joypad.keyup(key);
            },
            _ => {},
        }
    }
}

/// The state of a [`LinearMemory`]: its bytes and the two interrupt
/// registers, which it keeps apart from the bytes.
pub struct LinearState {
    pub bytes: Seq<u8>,
    pub int_enable: u8,
    pub int_request: u8,
}

/// A flat memory of `SIZE` bytes with no device behind it, for running the
/// processor alone.
pub struct LinearMemory<const SIZE: usize> {
    pub mem: [u8; SIZE],
    pub int_enable: u8,
    pub int_request: u8,
}

impl<const SIZE: usize> View for LinearMemory<SIZE> {
    type V = LinearState;

    open spec fn view(&self) -> LinearState {
        LinearState {
            bytes: self.mem@,
            int_enable: self.int_enable,
            int_request: self.int_request,
        }
    }
}

impl<const SIZE: usize> LinearMemory<SIZE> {
    /// A memory of zero bytes with both interrupt registers clear.
    pub fn new() -> (r: Self)
        ensures
            r@.bytes.len() == SIZE,
            forall|i: int| 0 <= i < SIZE ==> r@.bytes[i] == 0,
            r@.int_enable == 0,
            r@.int_request == 0,
            SIZE > 0xFFFF ==> r.inv(),
    {
        Self { mem: [0;SIZE], int_enable: 0, int_request: 0 }
    }
}

impl<const SIZE: usize> Memory for LinearMemory<SIZE> {
    /// Every 16-bit address must name a byte.
    open spec fn inv(&self) -> bool {
        SIZE > 0xFFFF
    }

    open spec fn read(s: LinearState, addr: u16) -> u8 {
        s.bytes[addr as int]
    }

    open spec fn written(s: LinearState, addr: u16, value: u8) -> LinearState {
        LinearState { bytes: s.bytes.update(addr as int, value), ..s }
    }

    open spec fn ticked(s: LinearState) -> LinearState {
        s
    }

    open spec fn enabled(s: LinearState) -> u8 {
        s.int_enable
    }

    open spec fn requested(s: LinearState) -> u8 {
        s.int_request
    }

    open spec fn with_enabled(s: LinearState, mask: u8) -> LinearState {
        LinearState { int_enable: mask, ..s }
    }

    open spec fn with_requested(s: LinearState, mask: u8) -> LinearState {
        LinearState { int_request: mask, ..s }
    }

    /// A flat memory has no device to pass a message to.
    open spec fn accepts(msg: ControlMsg) -> bool {
        false
    }

    open spec fn controlled(s: LinearState, msg: ControlMsg) -> LinearState {
        s
    }

    fn get(&self, addr: u16) -> (r: u8) {
        self.mem[addr as usize]
    }

    fn write(&mut self, addr: u16, value: u8) {
        self.mem[addr as usize] = value;
    }

    fn update<F: FnOnce() -> u8>(&mut self, addr: u16, closure: F) {
        let result = closure();
        self.write(addr, result);
    }

    fn cycle(&mut self) {
    }

    fn enable_interrupt(&mut self, interrupt: Interrupt, enable: bool) {
        let mask = interrupt.bit();
        if enable {
            self.int_enable = self.int_enable | mask;
        } else {
            self.int_enable = self.int_enable & !mask;
        }
    }

    fn enabled_interrupts(&self) -> (r: u8) {
        self.int_enable
    }

    fn request_interrupt(&mut self, interrupt: u8) {
        self.int_request = self.int_request | interrupt;
    }

    fn requested_interrupts(&self) -> (r: u8) {
        self.int_request
    }

    fn set_requested_interrupts(&mut self, value: u8) {
        self.int_request = value;
    }

    fn clear_requested_interrupt(&mut self, interrupt: Interrupt) {
        self.int_request = self.int_request & !interrupt.bit();
    }

    fn control_msg(&mut self, msg: ControlMsg) {
    }
}

} // verus!
