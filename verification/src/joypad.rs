//! The joypad register at 0xFF00: two groups of four keys behind a
//! write-select, read-state port.

use vstd::prelude::*;

verus! {

/// The interrupt bit that the joypad raises in IF.
pub const JOYPAD_INTERRUPT: u8 = 0x10;

/// One of the eight keys.
#[derive(Copy, Clone, Debug, PartialEq, Eq, Structural)]
pub enum JoypadKey {
    Right,
    Left,
    Up,
    Down,
    A,
    B,
    Select,
    Start,
}

impl JoypadKey {
    /// Whether the key belongs to the direction group (the others are
    /// buttons).
    pub open spec fn is_direction(self) -> bool {
        self is Right || self is Left || self is Up || self is Down
    }

    /// The bit of its group's nibble that the key drives.
    pub open spec fn mask(self) -> u8 {
        match self {
            JoypadKey::Right | JoypadKey::A => 1,
            JoypadKey::Left | JoypadKey::B => 2,
            JoypadKey::Up | JoypadKey::Select => 4,
            JoypadKey::Down | JoypadKey::Start => 8,
        }
    }

    /// The bit of its group's nibble that the key drives.
    pub fn bit(&self) -> (r: u8)
        ensures
            r == self.mask(),
    {
        match self {
            JoypadKey::Right | JoypadKey::A => 1,
            JoypadKey::Left | JoypadKey::B => 2,
            JoypadKey::Up | JoypadKey::Select => 4,
            JoypadKey::Down | JoypadKey::Start => 8,
        }
    }

    /// Whether the key belongs to the direction group.
    pub fn direction(&self) -> (r: bool)
        ensures
            r == self.is_direction(),
    {
        match self {
            JoypadKey::Right | JoypadKey::Left | JoypadKey::Up | JoypadKey::Down => true,
            _ => false,
        }
    }
}

/// Joypad state. `data` is the register as last observed: bits 5 and 4 hold
/// the group select (a clear bit selects), the low nibble the lines that were
/// seen. `buttons` and `dpad` hold one bit per key, clear while the key is
/// held. `interrupt` is the pending interrupt bit, 0 when none is pending.
#[derive(Copy, Clone, Debug, PartialEq, Eq, Structural)]
pub struct Joypad {
    pub data: u8,
    pub buttons: u8,
    pub dpad: u8,
    pub interrupt: u8,
}

impl Joypad {
    /// The four lines as the selected groups drive them: the AND of the
    /// selected groups, all ones when none is selected.
    pub open spec fn lines(self) -> u8 {
        let d: u8 = if self.data & 0x10 == 0 {
            self.dpad & 0x0F
        } else {
            0x0F
        };
        let b: u8 = if self.data & 0x20 == 0 {
            self.buttons & 0x0F
        } else {
            0x0F
        };
        d & b
    }

    /// The state after the lines are sampled again: a line that was high and
    /// is now low raises the interrupt; the low nibble of `data` takes the
    /// new lines.
    pub open spec fn sampled(self) -> Joypad {
        let seen: u8 = self.data & 0x0F;
        let now: u8 = self.lines();
        Joypad {
            data: (self.data & 0xF0) | now,
            interrupt: if seen & !now & 0x0F != 0 {
                JOYPAD_INTERRUPT
            } else {
                self.interrupt
            },
            ..self
        }
    }

    /// What a read of the register returns: bits 7 and 6 set, the select
    /// bits, and the current lines.
    pub open spec fn register(self) -> u8 {
        0xC0 | (self.data & 0x30) | self.lines()
    }

    /// The state after `value` is written to the register: only the select
    /// bits are taken, then the lines are sampled.
    pub open spec fn selected(self, value: u8) -> Joypad {
        (Joypad { data: (self.data & 0xCF) | (value & 0x30), ..self }).sampled()
    }

    /// The state after `key` goes down.
    pub open spec fn pressed(self, key: JoypadKey) -> Joypad {
        if key.is_direction() {
            (Joypad { dpad: self.dpad & !key.mask(), ..self }).sampled()
        } else {
            (Joypad { buttons: self.buttons & !key.mask(), ..self }).sampled()
        }
    }

    /// The state after `key` is let go.
    pub open spec fn released(self, key: JoypadKey) -> Joypad {
        if key.is_direction() {
            (Joypad { dpad: self.dpad | key.mask(), ..self }).sampled()
        } else {
            (Joypad { buttons: self.buttons | key.mask(), ..self }).sampled()
        }
    }

    /// A joypad with no key held, no group selected and no interrupt pending.
    pub fn new() -> (r: Joypad)
        ensures
            r == (Joypad { data: 0xFF, buttons: 0x0F, dpad: 0x0F, interrupt: 0 }),
    {
        Joypad { data: 0xFF, buttons: 0x0F, dpad: 0x0F, interrupt: 0 }
    }

    fn current_lines(&self) -> (r: u8)
        ensures
            r == self.lines(),
    {
        let d: u8 = if self.data & 0x10 == 0 {
            self.dpad & 0x0F
        } else {
            0x0F
        };
        let b: u8 = if self.data & 0x20 == 0 {
            self.buttons & 0x0F
        } else {
            0x0F
        };
        d & b
    }

    /// Reads the register.
    pub fn read(&self) -> (r: u8)
        ensures
            r == self.register(),
    {
        0xC0 | (self.data & 0x30) | self.current_lines()
    }

    /// Writes the register: selects the groups named by bits 5 and 4 of
    /// `value`.
    pub fn write(&mut self, value: u8)
        ensures
            *final(self) == old(self).selected(value),
    {
        self.data = (self.data & 0xCF) | (value & 0x30);
        self.update();
    }

    /// Samples the lines again and raises the interrupt on a falling edge.
    pub fn update(&mut self)
        ensures
            *final(self) == old(self).sampled(),
    {
        let seen: u8 = self.data & 0x0F;
        let now: u8 = self.current_lines();
        if seen & !now & 0x0F != 0 {
            self.interrupt = JOYPAD_INTERRUPT;
        }
        self.data = (self.data & 0xF0) | now;
    }

    /// Records that `key` went down.
    pub fn keydown(&mut self, key: JoypadKey)
        ensures
            *final(self) == old(self).pressed(key),
    {
        if key.direction() {
            self.dpad = self.dpad & !key.bit();
        } else {
            self.buttons = self.buttons & !key.bit();
        }
        self.update();
    }

    /// Records that `key` was let go.
    pub fn keyup(&mut self, key: JoypadKey)
        ensures
            *final(self) == old(self).released(key),
    {
        if key.direction() {
            self.dpad = self.dpad | key.bit();
        } else {
            self.buttons = self.buttons | key.bit();
        }
        self.update();
    }
}

impl Default for Joypad {
    fn default() -> (r: Joypad)
        ensures
            r == (Joypad { data: 0xFF, buttons: 0x0F, dpad: 0x0F, interrupt: 0 }),
    {
        Joypad::new()
    }
}

} // verus!
