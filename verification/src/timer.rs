//! The divider and the programmable timer.

use vstd::prelude::*;
use crate::memory::Interrupt;

verus! {

/// Address of the divider register DIV.
pub const DIV: u16 = 0xFF04;

/// Address of the timer counter TIMA.
pub const TIMA: u16 = 0xFF05;

/// Address of the timer modulo TMA.
pub const TMA: u16 = 0xFF06;

/// Address of the timer control TAC.
pub const TAC: u16 = 0xFF07;

/// Machine cycles between two increments of DIV.
pub const DIV_PERIOD: u16 = 64;

/// Timer state. The two countdowns hold the machine cycles left before the
/// next increment: DIV steps on the cycle that finds `div_countdown` at 0,
/// TIMA on the cycle that finds `timer_countdown` at 0 while the timer is
/// enabled.
#[derive(Copy, Clone, Debug, PartialEq, Eq, Structural)]
pub struct Timer {
    pub div: u8,
    pub tima: u8,
    pub tma: u8,
    pub tac: u8,
    pub div_countdown: u16,
    pub timer_countdown: u16,
}

/// Bit 2 of TAC and its two low bits, read through masks, are a quotient and
/// a remainder.
pub proof fn lemma_tac_fields(tac: u8)
    ensures
        (tac & 0b100 == 0b100) == (tac / 4 % 2 == 1),
        tac & 0b11 == tac % 4,
{
    assert((tac & 0b100 == 0b100) == (tac / 4 % 2 == 1) && tac & 0b11 == tac % 4) by (bit_vector);
}

impl Timer {
    /// Whether `addr` is one of the four timer registers.
    pub open spec fn maps(addr: u16) -> bool {
        DIV <= addr <= TAC
    }

    /// Whether TAC enables the timer (bit 2).
    pub open spec fn enabled(self) -> bool {
        self.tac / 4 % 2 == 1
    }

    /// Machine cycles between two increments of TIMA, chosen by the two low
    /// bits of TAC.
    pub open spec fn period(self) -> u16 {
        if self.tac % 4 == 0 {
            256
        } else if self.tac % 4 == 1 {
            4
        } else if self.tac % 4 == 2 {
            16
        } else {
            64
        }
    }

    /// Whether the next machine cycle increments TIMA.
    pub open spec fn fires(self) -> bool {
        self.enabled() && self.timer_countdown == 0
    }

    /// Whether the next machine cycle overflows TIMA, which reloads it from
    /// TMA and raises the timer interrupt.
    pub open spec fn overflows(self) -> bool {
        self.fires() && self.tima == 255
    }

    /// The state after one machine cycle.
    pub open spec fn ticked(self) -> Timer {
        Timer {
            div: if self.div_countdown == 0 {
                if self.div == 255 {
                    0u8
                } else {
                    (self.div + 1) as u8
                }
            } else {
                self.div
            },
            div_countdown: if self.div_countdown == 0 {
                (DIV_PERIOD - 1) as u16
            } else {
                (self.div_countdown - 1) as u16
            },
            tima: if self.overflows() {
                self.tma
            } else if self.fires() {
                (self.tima + 1) as u8
            } else {
                self.tima
            },
            timer_countdown: if self.fires() {
                (self.period() - 1) as u16
            } else if self.enabled() {
                (self.timer_countdown - 1) as u16
            } else {
                self.timer_countdown
            },
            ..self
        }
    }

    /// What a read of `addr` returns.
    pub open spec fn register(self, addr: u16) -> u8 {
        if addr == DIV {
            self.div
        } else if addr == TIMA {
            self.tima
        } else if addr == TMA {
            self.tma
        } else {
            self.tac
        }
    }

    /// The state after `value` is written to `addr`. Any write to DIV clears
    /// it.
    pub open spec fn written(self, addr: u16, value: u8) -> Timer {
        if addr == DIV {
            Timer { div: 0, ..self }
        } else if addr == TIMA {
            Timer { tima: value, ..self }
        } else if addr == TMA {
            Timer { tma: value, ..self }
        } else {
            Timer { tac: value, ..self }
        }
    }

    /// A stopped timer with all registers clear; DIV takes its first step on
    /// the 64th machine cycle.
    pub fn new() -> (r: Timer)
        ensures
            r == (Timer {
                div: 0,
                tima: 0,
                tma: 0,
                tac: 0,
                div_countdown: 63,
                timer_countdown: 0,
            }),
    {
        Timer { div: 0, tima: 0, tma: 0, tac: 0, div_countdown: DIV_PERIOD - 1, timer_countdown: 0 }
    }

    /// Advances the timer by one machine cycle and reports the timer
    /// interrupt when TIMA overflowed.
    pub fn cycle(&mut self) -> (r: Option<Interrupt>)
        ensures
            *final(self) == old(self).ticked(),
            r == (if old(self).overflows() {
                Some(Interrupt::Timer)
            } else {
                None
            }),
    {
        proof {
            lemma_tac_fields(self.tac);
        }
        let mut interrupt: Option<Interrupt> = None;
        if self.div_countdown == 0 {
            self.div_countdown = DIV_PERIOD - 1;
            self.div = self.div.wrapping_add(1);
        } else {
            self.div_countdown -= 1;
        }
        let timer_enabled = self.tac & 0b100 == 0b100;
        if self.timer_countdown == 0 && timer_enabled {
            self.tima = self.tima.wrapping_add(1);
            if self.tima == 0 {
                self.tima = self.tma;
                interrupt = Some(Interrupt::Timer);
            }
            let select: u8 = self.tac & 0b11;
            let duration: u16 = if select == 0 {
                256
            } else if select == 1 {
                4
            } else if select == 2 {
                16
            } else {
                64
            };
            self.timer_countdown = duration;
        }
        if timer_enabled {
            self.timer_countdown -= 1;
        }
        interrupt
    }

    /// Reads the register at `addr`.
    pub fn read(&self, addr: u16) -> (r: u8)
        requires
            Timer::maps(addr),
        ensures
            r == self.register(addr),
    {
        if addr == DIV {
            self.div
        } else if addr == TIMA {
            self.tima
        } else if addr == TMA {
            self.tma
        } else {
            self.tac
        }
    }

    /// Writes `value` to the register at `addr`.
    pub fn write(&mut self, addr: u16, value: u8)
        requires
            Timer::maps(addr),
        ensures
            *final(self) == old(self).written(addr, value),
    {
        if addr == DIV {
            self.div = 0;
        } else if addr == TIMA {
            self.tima = value;
        } else if addr == TMA {
            self.tma = value;
        } else {
            self.tac = value;
        }
    }
}

impl Default for Timer {
    fn default() -> (r: Timer)
        ensures
            r == (Timer {
                div: 0,
                tima: 0,
                tma: 0,
                tac: 0,
                div_countdown: 63,
                timer_countdown: 0,
            }),
    {
        Timer::new()
    }
}

} // verus!
