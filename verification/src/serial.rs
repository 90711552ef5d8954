//! The serial port: two bytes of storage, no transfer.

use vstd::prelude::*;

verus! {

/// Address of the serial data register SB.
pub const SB: u16 = 0xFF01;

/// Address of the serial control register SC.
pub const SC: u16 = 0xFF02;

/// The serial data and control bytes.
#[derive(Copy, Clone, Debug, PartialEq, Eq, Structural)]
pub struct Serial {
    pub data: u8,
    pub control: u8,
}

impl Serial {
    /// Whether `addr` is one of the two serial registers.
    pub open spec fn maps(addr: u16) -> bool {
        addr == SB || addr == SC
    }

    /// What a read of `addr` returns: the data byte, or the control byte with
    /// its six unused bits set.
    pub open spec fn register(self, addr: u16) -> u8 {
        if addr == SB {
            self.data
        } else {
            self.control | 0x7E
        }
    }

    /// The state after `value` is written to `addr`.
    pub open spec fn written(self, addr: u16, value: u8) -> Serial {
        if addr == SB {
            Serial { data: value, ..self }
        } else {
            Serial { control: value, ..self }
        }
    }

    /// Stores `value` in the register at `addr`.
    pub fn write(&mut self, addr: u16, value: u8)
        requires
            Serial::maps(addr),
        ensures
            *final(self) == old(self).written(addr, value),
    {
        if addr == SB {
            self.data = value;
        } else {
            self.control = value;
        }
    }

    /// Reads the register at `addr`.
    pub fn read(&self, addr: u16) -> (r: u8)
        requires
            Serial::maps(addr),
        ensures
            r == self.register(addr),
    {
        if addr == SB {
            self.data
        } else {
            self.control | 0x7E
        }
    }
}

impl Default for Serial {
    fn default() -> (r: Serial)
        ensures
            r == (Serial { data: 0, control: 0 }),
    {
        Serial { data: 0, control: 0 }
    }
}

} // verus!
