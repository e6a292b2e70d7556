//! Divider / TIMA timer: DIV advances every T-cycle, TIMA at one of four
//! selectable rates, reloading from TMA and reporting overflow.

use vstd::prelude::*;
use crate::definitions::DIV_INIT;

verus! {

#[derive(Debug, Clone, Copy, PartialEq, Eq, Structural)]
pub struct Timer {
    pub div: u16,
    pub tima: u8,
    pub tma: u8,
    pub tac: u8,
    pub cycles: usize,
}

impl Timer {
    pub fn new() -> (t: Timer)
        ensures
            t == (Timer { div: DIV_INIT, tima: 0, tma: 0, tac: 0, cycles: 0 }),
    {
        Timer { div: DIV_INIT, tima: 0, tma: 0, tac: 0, cycles: 0 }
    }

    /// Bit 2 of TAC gates the TIMA counter.
    pub open spec fn spec_enabled(self) -> bool {
        self.tac & 0x04 != 0
    }

    pub fn is_timer_enabled(&self) -> (r: bool)
        ensures
            r == self.spec_enabled(),
    {
        self.tac & 0b0100 != 0
    }

    /// T-cycles per TIMA increment, selected by the low two bits of TAC.
    pub open spec fn spec_frequency(self) -> usize {
        if self.tac & 0x03 == 0 {
            1024
        } else if self.tac & 0x03 == 1 {
            16
        } else if self.tac & 0x03 == 2 {
            64
        } else {
            256
        }
    }

    pub fn get_frequency(&self) -> (r: usize)
        ensures
            r == self.spec_frequency(),
    {
        let sel = self.tac & 0b0011;
        proof {
            let t = self.tac;
            assert(t & 0x03 == 0 || t & 0x03 == 1 || t & 0x03 == 2 || t & 0x03 == 3)
                by (bit_vector);
        }
        if sel == 0b00 {
            1024
        } else if sel == 0b01 {
            16
        } else if sel == 0b10 {
            64
        } else {
            256
        }
    }

    /// One tick of the timer: the new timer state and whether TIMA overflowed.
    pub open spec fn spec_step(self, cycles: usize) -> (Timer, bool) {
        let div2 = self.div.wrapping_add(cycles as u16);
        if !self.spec_enabled() {
            (Timer { div: div2, ..self }, false)
        } else {
            let acc = self.cycles.wrapping_add(cycles);
            if acc > self.spec_frequency() {
                let rest = acc.wrapping_sub(self.spec_frequency());
                if self.tima == 0xff {
                    (Timer { div: div2, cycles: rest, tima: self.tma, ..self }, true)
                } else {
                    (Timer { div: div2, cycles: rest, tima: (self.tima + 1) as u8, ..self }, false)
                }
            } else {
                (Timer { div: div2, cycles: acc, ..self }, false)
            }
        }
    }

    pub fn step(&mut self, cycles: usize) -> (overflowed: bool)
        ensures
            (*final(self), overflowed) == old(self).spec_step(cycles),
            overflowed ==> final(self).tima == old(self).tma,
    {
        self.div = self.div.wrapping_add(cycles as u16);

        let mut overflowed: bool = false;

        if self.is_timer_enabled() {
            self.cycles = self.cycles.wrapping_add(cycles);

            if self.cycles > self.get_frequency() {
                self.cycles = self.cycles.wrapping_sub(self.get_frequency());

                if self.tima == 0xff {
                    overflowed = true;
                    self.tima = self.tma;
                } else {
                    self.tima = self.tima + 1;
                }
            }
        }

        overflowed
    }
}

} // verus!
