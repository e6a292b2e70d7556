//! Object-memory DMA engine: a write to its register schedules a copy of 160
//! bytes from `source` into object memory, begun after a four-cycle delay and
//! advanced one byte per cycle by the bus tick.

use vstd::prelude::*;

verus! {

pub const DMA_TRANSFER_SIZE: usize = 160;
pub const DMA_START_DELAY: usize = 4;

#[derive(Debug, Clone, Copy, PartialEq, Eq, Structural)]
pub struct DMA {
    pub active: bool,
    pub source: u16,
    pub bytes: usize,
    pub delay: usize,
}

impl DMA {
    pub open spec fn wf(self) -> bool {
        &&& self.bytes <= DMA_TRANSFER_SIZE
        &&& self.delay <= DMA_START_DELAY
        &&& self.source <= 0xff00
        &&& self.source & 0xff == 0
    }

    pub fn new() -> (d: DMA)
        ensures
            d == (DMA { active: false, source: 0, bytes: 0, delay: 0 }),
            d.wf(),
    {
        proof {
            assert(0u16 & 0xff == 0) by (bit_vector);
        }
        DMA { active: false, source: 0, bytes: 0, delay: 0 }
    }

    /// State after the DMA register is written: transfer scheduled from
    /// `data << 8`, nothing copied yet, startup delay pending.
    pub open spec fn spec_write(self, data: u8) -> DMA {
        DMA {
            active: true,
            source: (data as u16) << 8,
            bytes: 0,
            delay: DMA_START_DELAY,
        }
    }

    pub fn write(&mut self, data: u8)
        ensures
            *final(self) == old(self).spec_write(data),
            final(self).wf(),
    {
        proof {
            assert(((data as u16) << 8) <= 0xff00 && ((data as u16) << 8) & 0xff == 0)
                by (bit_vector);
        }
        self.source = (data as u16) << 8;
        self.bytes = 0;
        self.delay = DMA_START_DELAY;
        self.active = true;
    }

    /// Consuming `cycles` first pays off the startup delay, then transfers one
    /// byte per remaining cycle until all 160 are done.
    pub open spec fn spec_step(self, cycles: usize) -> (DMA, usize) {
        let paid = if cycles <= self.delay { cycles } else { self.delay };
        let run = (cycles - paid) as usize;
        let room = (DMA_TRANSFER_SIZE - self.bytes) as usize;
        let n = if run <= room { run } else { room };
        let done = (self.bytes + n) as usize;
        (DMA {
            active: self.active && done < DMA_TRANSFER_SIZE,
            delay: (self.delay - paid) as usize,
            bytes: done,
            ..self
        }, n)
    }

    /// Advance the engine; the result is how many bytes the bus must copy now,
    /// starting at offset `old(self).bytes` of the transfer.
    pub fn step(&mut self, cycles: usize) -> (n: usize)
        requires
            old(self).wf(),
        ensures
            (*final(self), n) == old(self).spec_step(cycles),
            final(self).wf(),
            n <= cycles,
            old(self).bytes + n <= DMA_TRANSFER_SIZE,
            final(self).source == old(self).source,
    {
        let paid = if cycles <= self.delay { cycles } else { self.delay };
        self.delay = self.delay - paid;
        let run = cycles - paid;
        let room = DMA_TRANSFER_SIZE - self.bytes;
        let n = if run <= room { run } else { room };
        self.bytes = self.bytes + n;
        if self.bytes >= DMA_TRANSFER_SIZE {
            self.active = false;
        }
        n
    }
}

} // verus!
