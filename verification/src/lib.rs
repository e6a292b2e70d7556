//! Core of a cycle-stepped emulator for the Sharp LR35902 handheld console:
//! CPU execution engine, memory bus with memory-mapped devices, and the
//! timer / DMA / pixel-unit drivers that the CPU clocks.

use vstd::prelude::*;

pub mod bus;
pub mod cartridge;
pub mod cpu;
pub mod definitions;
pub mod ppu;

verus! {

/// A step of the machine either consumes cycles or stops with one of these.
#[derive(Debug, Clone, Copy, PartialEq, Eq, Structural)]
pub enum EmuError {
    /// The serial test harness loop was reached: execution is complete.
    TestFinished,
    /// One of the eleven unusable encodings was fetched; the processor locks.
    IllegalOpcode { code: u8, pc: u16 },
    /// The image is too short to hold a full cartridge header.
    RomTooShort,
}

/// Iterating the pixel unit: `n` T-cycles, front first.
pub open spec fn spec_ppu_steps(p: ppu::PpuView, b: bus::BusView, n: nat) -> (
    ppu::PpuView,
    bus::BusView,
)
    decreases n,
{
    if n == 0 {
        (p, b)
    } else {
        let once = ppu::spec_ppu_step(p, b);
        spec_ppu_steps(once.0, once.1, (n - 1) as nat)
    }
}

/// Peeling an iteration off the back: `n + 1` steps are `n` steps followed
/// by one more.
pub proof fn lemma_ppu_steps_snoc(p: ppu::PpuView, b: bus::BusView, n: nat)
    ensures
        spec_ppu_steps(p, b, n + 1) == ppu::spec_ppu_step(
            spec_ppu_steps(p, b, n).0,
            spec_ppu_steps(p, b, n).1,
        ),
    decreases n,
{
    let once = ppu::spec_ppu_step(p, b);
    if n == 0 {
        assert(spec_ppu_steps(p, b, 1) == spec_ppu_steps(once.0, once.1, 0));
        assert(spec_ppu_steps(once.0, once.1, 0) == (once.0, once.1));
        assert(spec_ppu_steps(p, b, 0) == (p, b));
    } else {
        lemma_ppu_steps_snoc(once.0, once.1, (n - 1) as nat);
        assert(spec_ppu_steps(p, b, n + 1) == spec_ppu_steps(once.0, once.1, n));
        assert(spec_ppu_steps(p, b, n) == spec_ppu_steps(once.0, once.1, (n - 1) as nat));
    }
}

/// The whole machine: the processor (owning the bus) and the pixel unit.
pub struct Emulator {
    pub cpu: cpu::CPU,
    pub ppu: ppu::PPU,
}

impl Emulator {
    pub open spec fn wf(self) -> bool {
        &&& self.cpu.wf()
        &&& self.ppu.wf()
    }

    /// Build the machine around a cartridge image in its post-boot state.
    pub fn new(rom: Vec<u8>) -> (e: Emulator)
        ensures
            e.wf(),
            e.cpu@.pc == definitions::PC_INIT,
            e.cpu@.sp == definitions::SP_INIT,
            e.cpu@.a == definitions::A_INIT,
            e.cpu@.f == cpu::Flags::spec_new(definitions::F_INIT),
            e.cpu@.b == definitions::B_INIT && e.cpu@.c == definitions::C_INIT,
            e.cpu@.d == definitions::D_INIT && e.cpu@.e == definitions::E_INIT,
            e.cpu@.h == definitions::H_INIT && e.cpu@.l == definitions::L_INIT,
            !e.cpu@.ime && !e.cpu@.ime_to_set && !e.cpu@.halted && !e.cpu@.halt_bug,
            e.cpu@.bus.rom.len() == 0x8000,
            forall|i: int|
                0 <= i < 0x8000 ==> e.cpu@.bus.rom[i] == (if i < rom@.len() {
                    rom@[i]
                } else {
                    0u8
                }),
            e.cpu@.bus.serial_out == Seq::<u8>::empty(),
            e.cpu@.bus.ie_reg == 0 && e.cpu@.bus.if_reg == 0,
            e.cpu@.bus.timer.div == definitions::DIV_INIT,
            e.ppu@.mode == ppu::PPUMode::OAMScan,
    {
        let memory = bus::BUS::new(rom);
        let cpu = cpu::CPU::new(memory);
        let ppu = ppu::PPU::new();
        Emulator { cpu, ppu }
    }

    /// Step until the processor reports a stop condition.
    pub fn run(&mut self)
        requires
            old(self).wf(),
        ensures
            final(self).wf(),
    {
        self.cpu.run();
    }

    /// One machine step: the processor advances by one instruction, and the
    /// pixel unit consumes the same number of T-cycles.
    pub fn step(&mut self) -> (r: Result<usize, EmuError>)
        requires
            old(self).wf(),
        ensures
            final(self).wf(),
            r == cpu::spec_step(old(self).cpu@).0,
            ({
                let after = cpu::spec_step(old(self).cpu@).1;
                if r is Ok {
                    let stepped = spec_ppu_steps(old(self).ppu@, after.bus, r->Ok_0 as nat);
                    final(self).ppu@ == stepped.0 && final(self).cpu@ == (cpu::CpuView {
                        bus: stepped.1,
                        ..after
                    })
                } else {
                    final(self).cpu@ == after && final(self).ppu@ == old(self).ppu@
                }
            }),
    {
        let ghost p0 = self.ppu@;
        let cycles = match self.cpu.step() {
            Ok(c) => c,
            Err(e) => {
                proof {
                    assert(final(self).cpu@ =~= cpu::spec_step(old(self).cpu@).1);
                }
                return Err(e);
            },
        };
        let ghost after = self.cpu@;

        let mut i: usize = 0;
        while i < cycles
            invariant
                i <= cycles,
                self.ppu.wf(),
                self.cpu.wf(),
                (self.ppu@, self.cpu.memory@) == spec_ppu_steps(p0, after.bus, i as nat),
                self.cpu@ == (cpu::CpuView { bus: self.cpu.memory@, ..after }),
            decreases cycles - i,
        {
            proof {
                lemma_ppu_steps_snoc(p0, after.bus, i as nat);
            }
            self.ppu.step(&mut self.cpu.memory);
            i = i + 1;
        }

        Ok(cycles)
    }
}

} // verus!
