//! An emulator core for the classic 8-bit handheld console: instruction
//! decoder, CPU with its interrupt pipeline, memory bus and the devices mapped
//! onto it. Every function carries a contract that Verus proves.

use vstd::prelude::*;

pub mod arithmetic;
pub mod bits;
pub mod cartridge;
pub mod cpu;
pub mod disassembler;
pub mod flags;
pub mod isa;
pub mod joypad;
pub mod laws;
pub mod memory;
pub mod ppu;
pub mod serial;
pub mod timer;

pub use flags::Flags;

verus! {

/// A 16-bit register operand of arithmetic and load instructions.
#[derive(Debug, Copy, Clone, PartialEq, Eq, Structural)]
pub enum RegisterPair {
    BC,
    DE,
    HL,
    SP,
}

impl RegisterPair {
    /// The pair with operand code `code`.
    pub open spec fn of_code(code: int) -> RegisterPair {
        if code == 0 {
            RegisterPair::BC
        } else if code == 1 {
            RegisterPair::DE
        } else if code == 2 {
            RegisterPair::HL
        } else {
            RegisterPair::SP
        }
    }

    /// The two-bit operand code of the pair.
    pub open spec fn code(self) -> int {
        match self {
            RegisterPair::BC => 0,
            RegisterPair::DE => 1,
            RegisterPair::HL => 2,
            RegisterPair::SP => 3,
        }
    }

    /// The pair named by the operand code whose bits are `a` (high) and `b`.
    pub fn from_bits(a: u8, b: u8) -> (r: RegisterPair)
        requires
            a <= 1,
            b <= 1,
        ensures
            r.code() == 2 * a + b,
            r == Self::of_code(2 * a + b),
    {
        if a == 0 {
            if b == 0 {
                RegisterPair::BC
            } else {
                RegisterPair::DE
            }
        } else {
            if b == 0 {
                RegisterPair::HL
            } else {
                RegisterPair::SP
            }
        }
    }
}

/// A 16-bit register operand of PUSH and POP.
#[derive(Debug, Copy, Clone, PartialEq, Eq, Structural)]
pub enum RegisterPairStk {
    BC,
    DE,
    HL,
    AF,
}

impl RegisterPairStk {
    /// The pair with operand code `code`.
    pub open spec fn of_code(code: int) -> RegisterPairStk {
        if code == 0 {
            RegisterPairStk::BC
        } else if code == 1 {
            RegisterPairStk::DE
        } else if code == 2 {
            RegisterPairStk::HL
        } else {
            RegisterPairStk::AF
        }
    }

    /// The two-bit operand code of the pair.
    pub open spec fn code(self) -> int {
        match self {
            RegisterPairStk::BC => 0,
            RegisterPairStk::DE => 1,
            RegisterPairStk::HL => 2,
            RegisterPairStk::AF => 3,
        }
    }

    /// The pair named by the operand code whose bits are `a` (high) and `b`.
    pub fn from_bits(a: u8, b: u8) -> (r: RegisterPairStk)
        requires
            a <= 1,
            b <= 1,
        ensures
            r.code() == 2 * a + b,
            r == Self::of_code(2 * a + b),
    {
        if a == 0 {
            if b == 0 {
                RegisterPairStk::BC
            } else {
                RegisterPairStk::DE
            }
        } else {
            if b == 0 {
                RegisterPairStk::HL
            } else {
                RegisterPairStk::AF
            }
        }
    }
}

/// A 16-bit register used as an address by the indirect loads; the two HL
/// forms step HL after the access.
#[derive(Debug, Copy, Clone, PartialEq, Eq, Structural)]
pub enum RegisterPairMem {
    BC,
    DE,
    HLI,
    HLD,
}

impl RegisterPairMem {
    /// The pair with operand code `code`.
    pub open spec fn of_code(code: int) -> RegisterPairMem {
        if code == 0 {
            RegisterPairMem::BC
        } else if code == 1 {
            RegisterPairMem::DE
        } else if code == 2 {
            RegisterPairMem::HLI
        } else {
            RegisterPairMem::HLD
        }
    }

    /// The two-bit operand code of the pair.
    pub open spec fn code(self) -> int {
        match self {
            RegisterPairMem::BC => 0,
            RegisterPairMem::DE => 1,
            RegisterPairMem::HLI => 2,
            RegisterPairMem::HLD => 3,
        }
    }

    /// The pair named by the operand code whose bits are `a` (high) and `b`.
    pub fn from_bits(a: u8, b: u8) -> (r: RegisterPairMem)
        requires
            a <= 1,
            b <= 1,
        ensures
            r.code() == 2 * a + b,
            r == Self::of_code(2 * a + b),
    {
        if a == 0 {
            if b == 0 {
                RegisterPairMem::BC
            } else {
                RegisterPairMem::DE
            }
        } else {
            if b == 0 {
                RegisterPairMem::HLI
            } else {
                RegisterPairMem::HLD
            }
        }
    }
}

/// An 8-bit register operand.
#[derive(Debug, Copy, Clone, PartialEq, Eq, Structural)]
pub enum Register {
    A,
    B,
    C,
    D,
    E,
    H,
    L,
}

impl Register {
    /// The register with operand code `code`; code 6 names none.
    pub open spec fn of_code(code: int) -> Register {
        if code == 0 {
            Register::B
        } else if code == 1 {
            Register::C
        } else if code == 2 {
            Register::D
        } else if code == 3 {
            Register::E
        } else if code == 4 {
            Register::H
        } else if code == 5 {
            Register::L
        } else {
            Register::A
        }
    }

    /// The three-bit operand code of the register. Code 6 names no register:
    /// it stands for the byte that HL points to.
    pub open spec fn code(self) -> int {
        match self {
            Register::B => 0,
            Register::C => 1,
            Register::D => 2,
            Register::E => 3,
            Register::H => 4,
            Register::L => 5,
            Register::A => 7,
        }
    }

    /// The register named by the operand code whose bits are `a` (high), `b`
    /// and `c`.
    pub fn from_bits(a: u8, b: u8, c: u8) -> (r: Register)
        requires
            a <= 1,
            b <= 1,
            c <= 1,
            4 * a + 2 * b + c != 6,
        ensures
            r.code() == 4 * a + 2 * b + c,
            r == Self::of_code(4 * a + 2 * b + c),
    {
        if a == 0 {
            if b == 0 {
                if c == 0 {
                    Register::B
                } else {
                    Register::C
                }
            } else {
                if c == 0 {
                    Register::D
                } else {
                    Register::E
                }
            }
        } else {
            if b == 0 {
                if c == 0 {
                    Register::H
                } else {
                    Register::L
                }
            } else {
                Register::A
            }
        }
    }
}

/// The kind of cartridge, as byte 0x0147 of the ROM image names it.
#[derive(Debug, Copy, Clone, PartialEq, Eq, Structural)]
pub enum CartridgeType {
    RomOnly,
    Mbc1,
    Mbc1Ram,
    Mbc1RamBattery,
    Mbc2,
    Mbc2Battery,
    RomRam,
    RomRamBattery,
    Mmm01,
    Mmm01Sram,
    Mmm01SramBattery,
    Mbc3TimerBattery,
    Mbc3TimerRamBattery,
    Mbc3,
    Mbc3Ram,
    Mbc3RamBattery,
    Mbc5,
    Mbc5Ram,
    Mbc5RamBattery,
    Mbc5Rumble,
    Mbc5RumbleSram,
    Mbc5RumbleSramBattery,
    Mbc6,
    Mbc7SensorRumbleRamBattery,
    PocketCamera,
    BandaiTama5,
    HuC3,
    HuC1RamBattery,
}

impl CartridgeType {
    /// The byte that names this kind of cartridge.
    pub open spec fn code(self) -> u8 {
        match self {
            CartridgeType::RomOnly => 0x00,
            CartridgeType::Mbc1 => 0x01,
            CartridgeType::Mbc1Ram => 0x02,
            CartridgeType::Mbc1RamBattery => 0x03,
            CartridgeType::Mbc2 => 0x05,
            CartridgeType::Mbc2Battery => 0x06,
            CartridgeType::RomRam => 0x08,
            CartridgeType::RomRamBattery => 0x09,
            CartridgeType::Mmm01 => 0x0B,
            CartridgeType::Mmm01Sram => 0x0C,
            CartridgeType::Mmm01SramBattery => 0x0D,
            CartridgeType::Mbc3TimerBattery => 0x0F,
            CartridgeType::Mbc3TimerRamBattery => 0x10,
            CartridgeType::Mbc3 => 0x11,
            CartridgeType::Mbc3Ram => 0x12,
            CartridgeType::Mbc3RamBattery => 0x13,
            CartridgeType::Mbc5 => 0x19,
            CartridgeType::Mbc5Ram => 0x1A,
            CartridgeType::Mbc5RamBattery => 0x1B,
            CartridgeType::Mbc5Rumble => 0x1C,
            CartridgeType::Mbc5RumbleSram => 0x1D,
            CartridgeType::Mbc5RumbleSramBattery => 0x1E,
            CartridgeType::Mbc6 => 0x20,
            CartridgeType::Mbc7SensorRumbleRamBattery => 0x22,
            CartridgeType::PocketCamera => 0xFC,
            CartridgeType::BandaiTama5 => 0xFD,
            CartridgeType::HuC3 => 0xFE,
            CartridgeType::HuC1RamBattery => 0xFF,
        }
    }

    /// The kind of cartridge that the byte `value` names, for a byte that
    /// names one.
    pub open spec fn of_code(value: u8) -> CartridgeType {
        match value {
            0x00 => CartridgeType::RomOnly,
            0x01 => CartridgeType::Mbc1,
            0x02 => CartridgeType::Mbc1Ram,
            0x03 => CartridgeType::Mbc1RamBattery,
            0x05 => CartridgeType::Mbc2,
            0x06 => CartridgeType::Mbc2Battery,
            0x08 => CartridgeType::RomRam,
            0x09 => CartridgeType::RomRamBattery,
            0x0B => CartridgeType::Mmm01,
            0x0C => CartridgeType::Mmm01Sram,
            0x0D => CartridgeType::Mmm01SramBattery,
            0x0F => CartridgeType::Mbc3TimerBattery,
            0x10 => CartridgeType::Mbc3TimerRamBattery,
            0x11 => CartridgeType::Mbc3,
            0x12 => CartridgeType::Mbc3Ram,
            0x13 => CartridgeType::Mbc3RamBattery,
            0x19 => CartridgeType::Mbc5,
            0x1A => CartridgeType::Mbc5Ram,
            0x1B => CartridgeType::Mbc5RamBattery,
            0x1C => CartridgeType::Mbc5Rumble,
            0x1D => CartridgeType::Mbc5RumbleSram,
            0x1E => CartridgeType::Mbc5RumbleSramBattery,
            0x20 => CartridgeType::Mbc6,
            0x22 => CartridgeType::Mbc7SensorRumbleRamBattery,
            0xFC => CartridgeType::PocketCamera,
            0xFD => CartridgeType::BandaiTama5,
            0xFE => CartridgeType::HuC3,
            _ => CartridgeType::HuC1RamBattery,
        }
    }

    /// Whether `value` names a kind of cartridge.
    pub open spec fn known(value: u8) -> bool {
        value <= 0x03 || value == 0x05 || value == 0x06 || value == 0x08 || value == 0x09 || 0x0B
            <= value <= 0x0D || 0x0F <= value <= 0x13 || 0x19 <= value <= 0x1E || value == 0x20
            || value == 0x22 || value >= 0xFC
    }

    /// Whether `value` names a kind of cartridge.
    pub fn is_known(value: u8) -> (r: bool)
        ensures
            r == CartridgeType::known(value),
    {
        value <= 0x03 || value == 0x05 || value == 0x06 || value == 0x08 || value == 0x09 || (0x0B
            <= value && value <= 0x0D) || (0x0F <= value && value <= 0x13) || (0x19 <= value
            && value <= 0x1E) || value == 0x20 || value == 0x22 || value >= 0xFC
    }

    /// The kind of cartridge that `value` names.
    pub fn from(value: u8) -> (r: CartridgeType)
        requires
            CartridgeType::known(value),
        ensures
            r.code() == value,
            r == CartridgeType::of_code(value),
    {
        match value {
            0x00 => CartridgeType::RomOnly,
            0x01 => CartridgeType::Mbc1,
            0x02 => CartridgeType::Mbc1Ram,
            0x03 => CartridgeType::Mbc1RamBattery,
            0x05 => CartridgeType::Mbc2,
            0x06 => CartridgeType::Mbc2Battery,
            0x08 => CartridgeType::RomRam,
            0x09 => CartridgeType::RomRamBattery,
            0x0B => CartridgeType::Mmm01,
            0x0C => CartridgeType::Mmm01Sram,
            0x0D => CartridgeType::Mmm01SramBattery,
            0x0F => CartridgeType::Mbc3TimerBattery,
            0x10 => CartridgeType::Mbc3TimerRamBattery,
            0x11 => CartridgeType::Mbc3,
            0x12 => CartridgeType::Mbc3Ram,
            0x13 => CartridgeType::Mbc3RamBattery,
            0x19 => CartridgeType::Mbc5,
            0x1A => CartridgeType::Mbc5Ram,
            0x1B => CartridgeType::Mbc5RamBattery,
            0x1C => CartridgeType::Mbc5Rumble,
            0x1D => CartridgeType::Mbc5RumbleSram,
            0x1E => CartridgeType::Mbc5RumbleSramBattery,
            0x20 => CartridgeType::Mbc6,
            0x22 => CartridgeType::Mbc7SensorRumbleRamBattery,
            0xFC => CartridgeType::PocketCamera,
            0xFD => CartridgeType::BandaiTama5,
            0xFE => CartridgeType::HuC3,
            _ => CartridgeType::HuC1RamBattery,
        }
    }

    /// Whether the bus can run this kind of cartridge: only one that is
    /// nothing but ROM.
    pub fn supported(&self) -> (r: bool)
        ensures
            r == (*self is RomOnly),
    {
        match self {
            CartridgeType::RomOnly => true,
            _ => false,
        }
    }
}

/// The byte of a cartridge type names that type and no other.
pub proof fn lemma_cartridge_code_is_known(kind: CartridgeType, other: CartridgeType)
    ensures
        CartridgeType::known(kind.code()),
        kind.code() == other.code() ==> kind == other,
{
}

/// A message from the host to the emulation core, applied between batches of
/// machine cycles.
#[derive(Debug, Copy, Clone, PartialEq, Eq, Structural)]
pub enum ControlMsg {
    Terminate,
    Reset,
    Debug,
    ShowVRam(bool),
    KeyDown(joypad::JoypadKey),
    KeyUp(joypad::JoypadKey),
}

} // verus!
