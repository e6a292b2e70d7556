//! The CPU: registers and flags, the fetch / dispatch / tick step loop, the
//! stack discipline and the interrupt controller.

use vstd::prelude::*;
use crate::bus::{BUS, BusView, InterruptRegister, INT_MASK};
use crate::definitions::{A_INIT, B_INIT, C_INIT, D_INIT, E_INIT, F_INIT, H_INIT, L_INIT,
    SP_INIT, PC_INIT, INTERRUPT_ENABLE, INTERRUPT_FLAG};
use crate::EmuError;

pub mod addressing;
pub mod instructions;
pub mod decode;
pub mod optable;

verus! {

/// The four flag bits of the F register; its low nibble always reads as zero.
#[derive(Debug, Clone, Copy, PartialEq, Eq, Structural)]
pub struct Flags {
    /// Bit 7: result was zero.
    pub z: bool,
    /// Bit 6: last operation was a subtraction.
    pub n: bool,
    /// Bit 5: carry out of the low nibble.
    pub h: bool,
    /// Bit 4: carry out of the full width.
    pub c: bool,
}

impl Flags {
    /// The flags encoded by an F-register byte: the low nibble is discarded.
    pub open spec fn spec_new(value: u8) -> Flags {
        Flags {
            z: value & 0x80 != 0,
            n: value & 0x40 != 0,
            h: value & 0x20 != 0,
            c: value & 0x10 != 0,
        }
    }

    pub fn new(value: u8) -> (r: Flags)
        ensures
            r == Flags::spec_new(value),
    {
        Flags {
            z: value & 0x80 != 0,
            n: value & 0x40 != 0,
            h: value & 0x20 != 0,
            c: value & 0x10 != 0,
        }
    }

    /// The F-register byte these flags read as.
    pub open spec fn spec_bits(self) -> u8 {
        ((if self.z {
            0x80u8
        } else {
            0u8
        }) + (if self.n {
            0x40u8
        } else {
            0u8
        }) + (if self.h {
            0x20u8
        } else {
            0u8
        }) + (if self.c {
            0x10u8
        } else {
            0u8
        })) as u8
    }

    pub fn bits(&self) -> (r: u8)
        ensures
            r == self.spec_bits(),
    {
        (if self.z {
            0x80u8
        } else {
            0u8
        }) + (if self.n {
            0x40u8
        } else {
            0u8
        }) + (if self.h {
            0x20u8
        } else {
            0u8
        }) + (if self.c {
            0x10u8
        } else {
            0u8
        })
    }
}

/// Encoding a flag byte and reading it back keeps exactly the high nibble:
/// the low nibble of F always reads as zero.
pub proof fn lemma_flag_bits_roundtrip(value: u8)
    ensures
        Flags::spec_new(value).spec_bits() == value & 0xf0,
        Flags::spec_new(value).spec_bits() & 0x0f == 0,
{
    let z = value & 0x80 != 0;
    let n = value & 0x40 != 0;
    let h = value & 0x20 != 0;
    let c = value & 0x10 != 0;
    let bits = Flags::spec_new(value).spec_bits();
    assert(((if (value & 0x80 != 0) {
        0x80u8
    } else {
        0u8
    }) + (if (value & 0x40 != 0) {
        0x40u8
    } else {
        0u8
    }) + (if (value & 0x20 != 0) {
        0x20u8
    } else {
        0u8
    }) + (if (value & 0x10 != 0) {
        0x10u8
    } else {
        0u8
    })) as u8 == value & 0xf0) by (bit_vector);
    assert((value & 0xf0) & 0x0f == 0) by (bit_vector);
}

/// The low byte of a 16-bit word.
pub open spec fn lo8(x: u16) -> u8 {
    (x & 0xff) as u8
}

/// The high byte of a 16-bit word.
pub open spec fn hi8(x: u16) -> u8 {
    (x >> 8) as u8
}

/// The 16-bit word with the given high and low bytes.
pub open spec fn word(high: u8, low: u8) -> u16 {
    (((high as u16) << 8) | (low as u16)) as u16
}

/// Mathematical model of the processor together with its bus.
#[verifier::ext_equal]
pub ghost struct CpuView {
    pub a: u8,
    pub f: Flags,
    pub b: u8,
    pub c: u8,
    pub d: u8,
    pub e: u8,
    pub h: u8,
    pub l: u8,
    pub ime: bool,
    pub ime_to_set: bool,
    pub halted: bool,
    pub halt_bug: bool,
    pub sp: u16,
    pub pc: u16,
    pub bus: BusView,
}

impl CpuView {
    pub open spec fn wf(self) -> bool {
        self.bus.wf()
    }

    pub open spec fn af(self) -> u16 {
        word(self.a, self.f.spec_bits())
    }

    pub open spec fn bc(self) -> u16 {
        word(self.b, self.c)
    }

    pub open spec fn de(self) -> u16 {
        word(self.d, self.e)
    }

    pub open spec fn hl(self) -> u16 {
        word(self.h, self.l)
    }

    /// A 16-bit read: little-endian, the second byte at the wrapped successor.
    pub open spec fn spec_read16(self, addr: u16) -> u16 {
        word(self.bus.spec_read(addr.wrapping_add(1)), self.bus.spec_read(addr))
    }

    /// A 16-bit write: low byte first, then the high byte at `addr + 1`.
    pub open spec fn spec_write16(self, addr: u16, data: u16) -> CpuView {
        CpuView {
            bus: self.bus.spec_write(addr, lo8(data)).spec_write(addr.wrapping_add(1), hi8(data)),
            ..self
        }
    }

    /// Pushing a word: both bytes below the stack pointer, which drops by two.
    pub open spec fn spec_push(self, data: u16) -> CpuView {
        let s1 = self.spec_write16(self.sp.wrapping_sub(2), data);
        CpuView { sp: self.sp.wrapping_sub(2), ..s1 }
    }

    /// The pending interrupt bits: requested and enabled.
    pub open spec fn spec_pending(self) -> u8 {
        self.bus.spec_read(INTERRUPT_FLAG) & self.bus.spec_read(INTERRUPT_ENABLE) & INT_MASK
    }
}

/// The dispatch vector of one interrupt bit.
pub open spec fn spec_vector(mask: u8) -> u16 {
    if mask == 0x01 {
        0x40
    } else if mask == 0x02 {
        0x48
    } else if mask == 0x04 {
        0x50
    } else if mask == 0x08 {
        0x58
    } else {
        0x60
    }
}

/// The lowest set bit of a non-zero five-bit value: the highest-priority
/// pending interrupt.
pub open spec fn spec_lowest_bit(pending: u8) -> u8 {
    if pending & 0x01 != 0 {
        0x01
    } else if pending & 0x02 != 0 {
        0x02
    } else if pending & 0x04 != 0 {
        0x04
    } else if pending & 0x08 != 0 {
        0x08
    } else {
        0x10
    }
}

pub struct CPU {
    pub a: u8,
    pub f: Flags,
    pub b: u8,
    pub c: u8,
    pub d: u8,
    pub e: u8,
    pub h: u8,
    pub l: u8,
    pub ime: bool,
    pub ime_to_set: bool,
    pub halted: bool,
    /// Set when HALT runs with interrupts disabled but already pending: the
    /// next opcode byte is then fetched without advancing PC.
    pub halt_bug: bool,
    pub sp: u16,
    pub pc: u16,
    pub memory: BUS,
}

impl View for CPU {
    type V = CpuView;

    open spec fn view(&self) -> CpuView {
        CpuView {
            a: self.a,
            f: self.f,
            b: self.b,
            c: self.c,
            d: self.d,
            e: self.e,
            h: self.h,
            l: self.l,
            ime: self.ime,
            ime_to_set: self.ime_to_set,
            halted: self.halted,
            halt_bug: self.halt_bug,
            sp: self.sp,
            pc: self.pc,
            bus: self.memory@,
        }
    }
}

// Constructor, getters, setters, memory access.
impl CPU {
    pub open spec fn wf(self) -> bool {
        self@.wf()
    }

    /// The post-boot register file around the given bus.
    pub fn new(memory: BUS) -> (cpu: CPU)
        requires
            memory.wf(),
        ensures
            cpu.wf(),
            cpu@ == (CpuView {
                a: A_INIT,
                f: Flags::spec_new(F_INIT),
                b: B_INIT,
                c: C_INIT,
                d: D_INIT,
                e: E_INIT,
                h: H_INIT,
                l: L_INIT,
                ime: false,
                ime_to_set: false,
                halted: false,
                halt_bug: false,
                sp: SP_INIT,
                pc: PC_INIT,
                bus: memory@,
            }),
    {
        CPU {
            a: A_INIT,
            f: Flags::new(F_INIT),
            b: B_INIT,
            c: C_INIT,
            d: D_INIT,
            e: E_INIT,
            h: H_INIT,
            l: L_INIT,
            sp: SP_INIT,
            pc: PC_INIT,
            ime: false,
            ime_to_set: false,
            halted: false,
            halt_bug: false,
            memory,
        }
    }

    pub fn get_af(&self) -> (r: u16)
        ensures
            r == self@.af(),
    {
        ((self.a as u16) << 8) | (self.f.bits() as u16)
    }

    pub fn get_bc(&self) -> (r: u16)
        ensures
            r == self@.bc(),
    {
        ((self.b as u16) << 8) | (self.c as u16)
    }

    pub fn get_de(&self) -> (r: u16)
        ensures
            r == self@.de(),
    {
        ((self.d as u16) << 8) | (self.e as u16)
    }

    pub fn get_hl(&self) -> (r: u16)
        ensures
            r == self@.hl(),
    {
        ((self.h as u16) << 8) | (self.l as u16)
    }

    /// The carry flag as a 0/1 operand.
    pub fn carry(&self) -> (r: u8)
        ensures
            r == (if self@.f.c {
                1u8
            } else {
                0u8
            }),
    {
        if self.f.c {
            1
        } else {
            0
        }
    }

    /// The half-carry flag as a 0/1 operand.
    pub fn hcarry(&self) -> (r: u8)
        ensures
            r == (if self@.f.h {
                1u8
            } else {
                0u8
            }),
    {
        if self.f.h {
            1
        } else {
            0
        }
    }

    /// Writing AF discards the low nibble of the written flag byte.
    pub fn set_af(&mut self, data: u16)
        ensures
            final(self)@ == (CpuView {
                a: hi8(data),
                f: Flags::spec_new(lo8(data)),
                ..old(self)@
            }),
    {
        self.a = (data >> 8) as u8;
        self.f = Flags::new((data & 0xff) as u8);
    }

    pub fn set_bc(&mut self, data: u16)
        ensures
            final(self)@ == (CpuView { b: hi8(data), c: lo8(data), ..old(self)@ }),
    {
        self.b = (data >> 8) as u8;
        self.c = (data & 0xff) as u8;
    }

    pub fn set_de(&mut self, data: u16)
        ensures
            final(self)@ == (CpuView { d: hi8(data), e: lo8(data), ..old(self)@ }),
    {
        self.d = (data >> 8) as u8;
        self.e = (data & 0xff) as u8;
    }

    pub fn set_hl(&mut self, data: u16)
        ensures
            final(self)@ == (CpuView { h: hi8(data), l: lo8(data), ..old(self)@ }),
    {
        self.h = (data >> 8) as u8;
        self.l = (data & 0xff) as u8;
    }

    pub fn mem_read(&self, addr: u16) -> (r: u8)
        requires
            self.wf(),
        ensures
            r == self@.bus.spec_read(addr),
    {
        self.memory.mem_read(addr)
    }

    pub fn mem_write(&mut self, addr: u16, data: u8)
        requires
            old(self).wf(),
        ensures
            final(self).wf(),
            final(self)@ == (CpuView { bus: old(self)@.bus.spec_write(addr, data), ..old(self)@ }),
    {
        self.memory.mem_write(addr, data);
    }

    pub fn tick(&mut self, cycles: usize)
        requires
            old(self).wf(),
        ensures
            final(self).wf(),
            final(self)@ == (CpuView { bus: old(self)@.bus.spec_tick(cycles), ..old(self)@ }),
    {
        self.memory.tick(cycles);
    }

    pub fn mem_read_16(&self, addr: u16) -> (r: u16)
        requires
            self.wf(),
        ensures
            r == self@.spec_read16(addr),
    {
        let low = self.mem_read(addr);
        let high = self.mem_read(addr.wrapping_add(1));
        ((high as u16) << 8) | (low as u16)
    }

    pub fn mem_write_16(&mut self, addr: u16, data: u16)
        requires
            old(self).wf(),
        ensures
            final(self).wf(),
            final(self)@ == old(self)@.spec_write16(addr, data),
    {
        self.mem_write(addr, (data & 0xff) as u8);
        self.mem_write(addr.wrapping_add(1), (data >> 8) as u8);
    }

    pub fn get_ie(&self) -> (r: InterruptRegister)
        requires
            self.wf(),
        ensures
            r.bits == self@.bus.spec_read(INTERRUPT_ENABLE) & INT_MASK,
    {
        InterruptRegister::new(self.mem_read(INTERRUPT_ENABLE))
    }

    pub fn get_if(&self) -> (r: InterruptRegister)
        requires
            self.wf(),
        ensures
            r.bits == self@.bus.spec_read(INTERRUPT_FLAG) & INT_MASK,
    {
        InterruptRegister::new(self.mem_read(INTERRUPT_FLAG))
    }

    pub fn set_if(&mut self, intr: InterruptRegister)
        requires
            old(self).wf(),
        ensures
            final(self).wf(),
            final(self)@ == (CpuView {
                bus: old(self)@.bus.spec_write(INTERRUPT_FLAG, intr.bits),
                ..old(self)@
            }),
    {
        self.mem_write(INTERRUPT_FLAG, intr.bits());
    }
}

// Stack, halting and the interrupt controller.
impl CPU {
    pub fn stack_push(&mut self, data: u16)
        requires
            old(self).wf(),
        ensures
            final(self).wf(),
            final(self)@ == old(self)@.spec_push(data),
    {
        self.mem_write_16(self.sp.wrapping_sub(2), data);
        self.sp = self.sp.wrapping_sub(2);
    }

    pub fn stack_pop(&mut self) -> (value: u16)
        requires
            old(self).wf(),
        ensures
            final(self).wf(),
            value == old(self)@.spec_read16(old(self)@.sp),
            final(self)@ == (CpuView { sp: old(self)@.sp.wrapping_add(2), ..old(self)@ }),
    {
        let value = self.mem_read_16(self.sp);
        self.sp = self.sp.wrapping_add(2);
        value
    }

    /// What executing HALT does: with nothing pending the processor sleeps;
    /// with interrupts pending but the master enable off, the hardware bug is
    /// armed instead and the next opcode byte will repeat.
    pub open spec fn spec_halt(s: CpuView) -> CpuView {
        if s.spec_pending() == 0 {
            CpuView { halted: true, ..s }
        } else if !s.ime {
            CpuView { halt_bug: true, ..s }
        } else {
            CpuView { halted: true, ..s }
        }
    }

    pub fn halt(&mut self)
        requires
            old(self).wf(),
        ensures
            final(self).wf(),
            final(self)@ == CPU::spec_halt(old(self)@),
    {
        let pending = self.get_if().bits() & self.get_ie().bits();
        proof {
            let iflag = old(self)@.bus.spec_read(INTERRUPT_FLAG);
            let ie = old(self)@.bus.spec_read(INTERRUPT_ENABLE);
            assert((iflag & 0x1f) & (ie & 0x1f) == iflag & ie & 0x1f) by (bit_vector);
        }
        if pending == 0 {
            self.halted = true;
        } else if !self.ime {
            self.halt_bug = true;
        } else {
            self.halted = true;
        }
    }

    /// Dispatching one interrupt: its bit leaves IF, the master enable drops,
    /// the current PC is pushed and execution continues at the vector; the
    /// five memory cycles are charged to the devices.
    pub open spec fn spec_interrupt_call(s: CpuView, mask: u8) -> CpuView {
        let s1 = CpuView {
            ime: false,
            bus: s.bus.spec_write(
                INTERRUPT_FLAG,
                (s.bus.spec_read(INTERRUPT_FLAG) & INT_MASK) & !mask,
            ),
            ..s
        };
        let s2 = s1.spec_push(s.pc);
        let s3 = CpuView { pc: spec_vector(mask), ..s2 };
        CpuView { bus: s3.bus.spec_tick(20), ..s3 }
    }

    pub fn interrupt_call(&mut self, intr: InterruptRegister)
        requires
            old(self).wf(),
            intr.bits == 0x01 || intr.bits == 0x02 || intr.bits == 0x04 || intr.bits == 0x08
                || intr.bits == 0x10,
        ensures
            final(self).wf(),
            final(self)@ == CPU::spec_interrupt_call(old(self)@, intr.bits),
    {
        self.ime = false;
        let mut if_reg = self.get_if();
        if_reg.remove(intr.bits());
        self.set_if(if_reg);

        self.stack_push(self.pc);
        if intr.bits() == 0x01 {
            self.pc = 0x40;
        } else if intr.bits() == 0x02 {
            self.pc = 0x48;
        } else if intr.bits() == 0x04 {
            self.pc = 0x50;
        } else if intr.bits() == 0x08 {
            self.pc = 0x58;
        } else {
            self.pc = 0x60;
        }
        self.tick(20);
    }

    /// The interrupt check at the start of a step: any pending interrupt ends
    /// a halt; if the master enable is on, the highest-priority pending
    /// interrupt is dispatched.
    pub open spec fn spec_interrupts(s: CpuView) -> CpuView {
        let pending = s.spec_pending();
        if pending == 0 {
            s
        } else {
            let s1 = CpuView { halted: false, ..s };
            if !s.ime {
                s1
            } else {
                CPU::spec_interrupt_call(s1, spec_lowest_bit(pending))
            }
        }
    }

    pub fn interrupts_handle(&mut self) -> (cycles: usize)
        requires
            old(self).wf(),
        ensures
            final(self).wf(),
            final(self)@ == CPU::spec_interrupts(old(self)@),
            cycles == (if old(self)@.spec_pending() != 0 && old(self)@.ime {
                20int
            } else {
                0int
            }),
    {
        let if_reg = self.get_if();
        let ie_reg = self.get_ie();
        let pending = if_reg.bits() & ie_reg.bits();

        if pending == 0 {
            proof {
                let iflag = old(self)@.bus.spec_read(INTERRUPT_FLAG);
                let ie = old(self)@.bus.spec_read(INTERRUPT_ENABLE);
                assert((iflag & 0x1f) & (ie & 0x1f) == iflag & ie & 0x1f) by (bit_vector);
            }
            return 0;
        }

        self.halted = false;

        if !self.ime {
            proof {
                let iflag = old(self)@.bus.spec_read(INTERRUPT_FLAG);
                let ie = old(self)@.bus.spec_read(INTERRUPT_ENABLE);
                assert((iflag & 0x1f) & (ie & 0x1f) == iflag & ie & 0x1f) by (bit_vector);
            }
            return 0;
        }

        let mask = if pending & 0x01 != 0 {
            0x01u8
        } else if pending & 0x02 != 0 {
            0x02u8
        } else if pending & 0x04 != 0 {
            0x04u8
        } else if pending & 0x08 != 0 {
            0x08u8
        } else {
            0x10u8
        };
        proof {
            let iflag = old(self)@.bus.spec_read(INTERRUPT_FLAG);
            let ie = old(self)@.bus.spec_read(INTERRUPT_ENABLE);
            assert((iflag & 0x1f) & (ie & 0x1f) == iflag & ie & 0x1f) by (bit_vector);
            assert((iflag & ie & 0x1f) != 0 && ((iflag & ie & 0x1f) & 0x01 == 0) && ((iflag
                & ie & 0x1f) & 0x02 == 0) && ((iflag & ie & 0x1f) & 0x04 == 0) && ((iflag & ie
                & 0x1f) & 0x08 == 0) ==> (iflag & ie & 0x1f) & 0x10 != 0) by (bit_vector);
            assert(0x01u8 & 0x1f == 0x01 && 0x02u8 & 0x1f == 0x02 && 0x04u8 & 0x1f == 0x04
                && 0x08u8 & 0x1f == 0x08 && 0x10u8 & 0x1f == 0x10) by (bit_vector);
        }
        self.interrupt_call(InterruptRegister::new(mask));
        20
    }

    /// The serial loop that ends a test ROM: `LDH (0x26),A; JR -2` at PC.
    pub open spec fn spec_at_test_end(s: CpuView) -> bool {
        &&& s.bus.spec_read(s.pc) == 0xe0
        &&& s.bus.spec_read(s.pc.wrapping_add(1)) == 0x26
        &&& s.bus.spec_read(s.pc.wrapping_add(2)) == 0x18
        &&& s.bus.spec_read(s.pc.wrapping_add(3)) == 0xfe
    }

    pub fn is_blargg_test_finished(&self) -> (r: bool)
        requires
            self.wf(),
        ensures
            r == CPU::spec_at_test_end(self@),
    {
        let code = self.mem_read(self.pc);
        if code == 0xe0 && self.mem_read(self.pc.wrapping_add(1)) == 0x26 && self.mem_read(
            self.pc.wrapping_add(2),
        ) == 0x18 && self.mem_read(self.pc.wrapping_add(3)) == 0xfe {
            true
        } else {
            false
        }
    }
}

} // verus!

use crate::cpu::optable::{spec_illegal, spec_bytes_un, spec_cycles_un, spec_cycles_cb,
    is_illegal_opcode, opcode_lookup};
use crate::cpu::decode::{spec_exec_un, spec_exec_cb};

verus! {

/// The deferred EI flush at the end of a step: a pending enable armed before
/// this instruction, and not cancelled by it, turns the master enable on.
pub open spec fn spec_flush_ei(s: CpuView, armed_before: bool) -> CpuView {
    if armed_before && s.ime_to_set {
        CpuView { ime: true, ime_to_set: false, ..s }
    } else {
        s
    }
}

/// Fetch, execute and clock one instruction, PC-advance quirks included:
/// the fetched code (with a CB prefix peek) is looked up, PC advances by the
/// instruction length (one less under the halt bug), the handler runs, the
/// devices are clocked by the branch-dependent cost, and the serial hook
/// delivers a byte when the transfer register holds 0x81.
pub open spec fn spec_step_instr(s1: CpuView) -> (Result<u8, EmuError>, CpuView) {
    let code = s1.bus.spec_read(s1.pc);
    if spec_illegal(code) {
        (Err(EmuError::IllegalOpcode { code, pc: s1.pc }), s1)
    } else {
        let cb = code == 0xcb;
        let icode = if cb {
            s1.bus.spec_read(s1.pc.wrapping_add(1))
        } else {
            code
        };
        let bytes = if cb {
            2u8
        } else {
            spec_bytes_un(code)
        };
        let adv: u16 = if s1.halt_bug {
            (bytes - 1) as u16
        } else {
            bytes as u16
        };
        let s2 = CpuView { pc: s1.pc.wrapping_add(adv), halt_bug: false, ..s1 };
        let s3 = if cb {
            spec_exec_cb(s2, icode)
        } else {
            spec_exec_un(s2, icode)
        };
        let pair = if cb {
            spec_cycles_cb(icode)
        } else {
            spec_cycles_un(icode)
        };
        let cyc: u8 = if pair.1 != 0 && s3.pc == s2.pc {
            pair.1
        } else {
            pair.0
        };
        let s4 = CpuView { bus: s3.bus.spec_tick(cyc as usize), ..s3 };
        let s5 = if s4.bus.spec_read(0xff02) == 0x81 {
            let with_byte = BusView {
                serial_out: s4.bus.serial_out.push(s4.bus.spec_read(0xff01)),
                ..s4.bus
            };
            CpuView { bus: with_byte.spec_write(0xff02, 0), ..s4 }
        } else {
            s4
        };
        (Ok(cyc), s5)
    }
}

/// One whole step of the machine: the interrupt check, then either a halted
/// idle tick or one instruction, and last the deferred EI flush. Yields the
/// cycles consumed or the stop condition.
pub open spec fn spec_step(s: CpuView) -> (Result<usize, EmuError>, CpuView) {
    if CPU::spec_at_test_end(s) {
        (Err(EmuError::TestFinished), s)
    } else {
        let s1 = CPU::spec_interrupts(s);
        let icyc: usize = if s.spec_pending() != 0 && s.ime {
            20
        } else {
            0
        };
        let armed = s1.ime_to_set;
        if s1.halted {
            let s2 = CpuView { bus: s1.bus.spec_tick(4), ..s1 };
            (Ok((icyc + 4) as usize), spec_flush_ei(s2, armed))
        } else {
            let outcome = spec_step_instr(s1);
            if outcome.0 is Err {
                (Err(outcome.0->Err_0), outcome.1)
            } else {
                (Ok((icyc + outcome.0->Ok_0) as usize), spec_flush_ei(outcome.1, armed))
            }
        }
    }
}

impl CPU {
    /// Fetch and run the instruction at PC, charging its cycles to the
    /// devices; the interrupt check has already happened.
    #[verifier::rlimit(100)]
    #[verifier::spinoff_prover]
    fn step_instr(&mut self) -> (r: Result<u8, EmuError>)
        requires
            old(self).wf(),
        ensures
            final(self).wf(),
            (r, final(self)@) == spec_step_instr(old(self)@),
    {
        let code = self.mem_read(self.pc);
        if is_illegal_opcode(code) {
            return Err(EmuError::IllegalOpcode { code, pc: self.pc });
        }

        let opcode = if code == 0xcb {
            let icode = self.mem_read(self.pc.wrapping_add(1));
            let key = 0xcb00u16 | (icode as u16);
            proof {
                let x = icode;
                assert(0xcb00u16 <= (0xcb00u16 | x as u16) && (0xcb00u16 | x as u16) <= 0xcbff
                    && ((0xcb00u16 | x as u16) & 0xff) as u8 == x && (0xcb00u16 | x as u16)
                    >= 0x100) by (bit_vector);
            }
            opcode_lookup(key)
        } else {
            proof {
                let x = code;
                assert(((x as u16) & 0xff) as u8 == x && (x as u16) <= 0xff) by (bit_vector);
            }
            opcode_lookup(code as u16)
        };

        let adv: u16 = if self.halt_bug {
            (opcode.bytes - 1) as u16
        } else {
            opcode.bytes as u16
        };
        self.halt_bug = false;
        self.pc = self.pc.wrapping_add(adv);
        let pc_before_jpc = self.pc;

        if code == 0xcb {
            self.cb_decode(&opcode);
        } else {
            self.decode(&opcode);
        }

        let cycles: u8 = if opcode.cycles.1 != 0 && self.pc == pc_before_jpc {
            opcode.cycles.1
        } else {
            opcode.cycles.0
        };
        self.tick(cycles as usize);

        if self.mem_read(0xff02) == 0x81 {
            let byte = self.mem_read(0xff01);
            self.memory.serial_out.push(byte);
            self.mem_write(0xff02, 0);
        }

        Ok(cycles)
    }

    /// Advance the machine by one instruction (or one halted idle tick),
    /// servicing interrupts first; returns the T-cycles consumed, or the
    /// reason the machine stopped.
    pub fn step(&mut self) -> (r: Result<usize, EmuError>)
        requires
            old(self).wf(),
        ensures
            final(self).wf(),
            (r, final(self)@) == spec_step(old(self)@),
    {
        if self.is_blargg_test_finished() {
            return Err(EmuError::TestFinished);
        }

        let icyc = self.interrupts_handle();
        let armed = self.ime_to_set;

        if self.halted {
            self.tick(4);
            if armed && self.ime_to_set {
                self.ime = true;
                self.ime_to_set = false;
            }
            return Ok(icyc + 4);
        }

        let cycles = match self.step_instr() {
            Ok(c) => c,
            Err(e) => {
                return Err(e);
            },
        };

        if armed && self.ime_to_set {
            self.ime = true;
            self.ime_to_set = false;
        }

        Ok(icyc + cycles as usize)
    }

    /// Step until the machine reports a stop condition, within a generous
    /// safety budget of steps.
    pub fn run(&mut self)
        requires
            old(self).wf(),
        ensures
            final(self).wf(),
    {
        let mut steps: u64 = 0;
        while steps < 2000000000
            invariant
                self.wf(),
            decreases 2000000000 - steps,
        {
            let result = self.step();
            if result.is_err() {
                break;
            }
            steps = steps + 1;
        }
    }

    /// Debugging harness: place a program at the start of the address space,
    /// reset PC to it, and step until the processor halts, stops or a step
    /// budget runs out.
    pub fn load_and_run(&mut self, program: Vec<u8>)
        requires
            old(self).wf(),
        ensures
            final(self).wf(),
    {
        let mut i: usize = 0;
        while i < program.len() && i < 0x8000
            invariant
                self.wf(),
            decreases program.len() - i,
        {
            proof {
                assert(self@.bus.wf());
            }
            self.memory.rom[i] = program[i];
            i = i + 1;
        }
        self.pc = 0;

        let mut steps: usize = 0;
        while steps < 100000
            invariant
                self.wf(),
            decreases 100000 - steps,
        {
            let result = self.step();
            if result.is_err() || self.halted {
                break;
            }
            steps = steps + 1;
        }
    }
}

} // verus!

verus! {

/// A write of a 16-bit value to plain RAM reads back as the same value: the
/// low byte sits at the address, the high byte just above it.
pub proof fn lemma_write16_read16_roundtrip(s: CpuView, addr: u16, v: u16)
    requires
        s.wf(),
        s.bus.plain_ram_pair(addr),
    ensures
        s.spec_write16(addr, v).spec_read16(addr) == v,
{
    reveal(BusView::spec_read);
    reveal(BusView::spec_write);
    assert(word(hi8(v), lo8(v)) == v) by (bit_vector);
}

/// PUSH rr followed by POP into the same pair restores the pair, and SP;
/// for AF this holds because the flag byte can only ever carry a clear low
/// nibble, which popping preserves.
pub proof fn lemma_push_pop_roundtrip(s: CpuView, op: crate::cpu::addressing::Operand)
    requires
        s.wf(),
        op == crate::cpu::optable::sop_r(crate::cpu::addressing::RegisterOperand::BC)
            || op == crate::cpu::optable::sop_r(crate::cpu::addressing::RegisterOperand::DE)
            || op == crate::cpu::optable::sop_r(crate::cpu::addressing::RegisterOperand::HL)
            || op == crate::cpu::optable::sop_r(crate::cpu::addressing::RegisterOperand::AF),
        s.bus.plain_ram_pair(s.sp.wrapping_sub(2)),
    ensures
        ({
            let v = crate::cpu::addressing::spec_source_value(s, op);
            let pushed = s.spec_push(v);
            let popped = crate::cpu::addressing::spec_write16dst(
                (CpuView { sp: pushed.sp.wrapping_add(2), ..pushed }),
                op,
                pushed.spec_read16(pushed.sp),
            );
            crate::cpu::addressing::spec_source_value(popped, op) == v && popped.sp == s.sp
        }),
{
    let v = crate::cpu::addressing::spec_source_value(s, op);
    let pushed = s.spec_push(v);
    lemma_write16_read16_roundtrip(s, s.sp.wrapping_sub(2), v);
    assert(pushed.spec_read16(pushed.sp) == v);
    assert(hi8(word(hi8(v), lo8(v))) == hi8(v) && lo8(word(hi8(v), lo8(v))) == lo8(v))
        by (bit_vector);
    assert(word(hi8(v), lo8(v)) == v) by (bit_vector);
    let z = s.f.z;
    let n = s.f.n;
    let h = s.f.h;
    let c = s.f.c;
    let bits = s.f.spec_bits();
    assert(bits == ((if z {
        0x80u8
    } else {
        0u8
    }) + (if n {
        0x40u8
    } else {
        0u8
    }) + (if h {
        0x20u8
    } else {
        0u8
    }) + (if c {
        0x10u8
    } else {
        0u8
    })) as u8);
    assert forall|hb: u8| lo8(word(hb, bits)) == bits && hi8(word(hb, bits)) == hb by {
        assert(lo8(word(hb, bits)) == bits && hi8(word(hb, bits)) == hb) by (bit_vector);
    }
    if op == crate::cpu::optable::sop_r(crate::cpu::addressing::RegisterOperand::AF) {
        lemma_flag_bits_roundtrip(lo8(v));
        assert(lo8(v) == bits);
        assert(Flags::spec_new(lo8(v)).spec_bits() == bits & 0xf0);
        assert(((if z {
            0x80u8
        } else {
            0u8
        }) + (if n {
            0x40u8
        } else {
            0u8
        }) + (if h {
            0x20u8
        } else {
            0u8
        }) + (if c {
            0x10u8
        } else {
            0u8
        })) as u8 & 0xf0 == ((if z {
            0x80u8
        } else {
            0u8
        }) + (if n {
            0x40u8
        } else {
            0u8
        }) + (if h {
            0x20u8
        } else {
            0u8
        }) + (if c {
            0x10u8
        } else {
            0u8
        })) as u8) by (bit_vector);
    }
}

} // verus!

verus! {

/// For every interrupt bit: when the master enable is on, the bit is both
/// requested and enabled, and no higher-priority bit is pending, the next
/// interrupt check clears the bit in IF, drops the master enable, pushes PC
/// and lands on the bit's vector, SP two lower.
pub proof fn lemma_interrupt_dispatch(s: CpuView, i: u8)
    requires
        s.wf(),
        s.ime,
        i < 5,
        s.bus.spec_read(INTERRUPT_ENABLE) & (1u8 << i) != 0,
        s.bus.spec_read(INTERRUPT_FLAG) & (1u8 << i) != 0,
        s.spec_pending() & (((1u8 << i) - 1) as u8) == 0,
        s.bus.plain_ram_pair(s.sp.wrapping_sub(2)),
        !s.bus.timer.spec_step(20).1,
    ensures
        ({
            let d = CPU::spec_interrupts(s);
            &&& !d.ime
            &&& !d.halted
            &&& d.pc == 0x40 + 8 * (i as u16)
            &&& d.sp == s.sp.wrapping_sub(2)
            &&& d.bus.spec_read(INTERRUPT_FLAG) & (1u8 << i) == 0
            &&& d.spec_read16(d.sp) == s.pc
        }),
{
    let iflag = s.bus.spec_read(INTERRUPT_FLAG);
    let ie = s.bus.spec_read(INTERRUPT_ENABLE);
    let p = s.spec_pending();
    let m = 1u8 << i;
    assert(i < 5 && iflag & (1u8 << i) != 0 && ie & (1u8 << i) != 0 ==> (iflag & ie & 0x1f & (1u8
        << i) != 0 && iflag & ie & 0x1f != 0)) by (bit_vector);
    assert(p != 0);
    assert(i < 5 && (iflag & ie & 0x1f) & (((1u8 << i) - 1) as u8) == 0 && (iflag & ie & 0x1f)
        & (1u8 << i) != 0 ==> spec_lowest_bit(iflag & ie & 0x1f) == 1u8 << i) by (bit_vector);
    assert(spec_lowest_bit(p) == m);
    assert(i < 5 ==> (1u8 << i == 1 || 1u8 << i == 2 || 1u8 << i == 4 || 1u8 << i == 8 || 1u8
        << i == 16)) by (bit_vector);
    assert(i < 5 ==> spec_vector(1u8 << i) == 0x40 + 8 * (i as u16)) by (bit_vector);

    let s1 = CpuView { halted: false, ..s };
    let d = CPU::spec_interrupt_call(s1, m);
    assert(CPU::spec_interrupts(s) == d);

    // the IF write keeps the bit clear through the push and the tick
    let cleared = (iflag & INT_MASK) & !m;
    assert(((iflag & INT_MASK) & !(1u8 << i)) & (1u8 << i) == 0) by (bit_vector);
    let b1 = s1.bus.spec_write(INTERRUPT_FLAG, cleared);
    reveal(BusView::spec_write);
    assert(b1.if_reg == cleared & INT_MASK);
    assert((iflag & INT_MASK) & !m & INT_MASK & m == 0) by (bit_vector);

    // the pushed bytes land in plain RAM and touch no device register
    let sp2 = s.sp.wrapping_sub(2);
    let b2 = b1.spec_write(sp2, lo8(s.pc));
    let b3 = b2.spec_write(sp2.wrapping_add(1), hi8(s.pc));
    assert(b3.if_reg == b1.if_reg);

    // the dispatch tick leaves IF alone when TIMA does not overflow
    reveal(BusView::spec_tick);
    let b4 = b3.spec_tick(20);
    assert(b4.if_reg == b3.if_reg);

    reveal(BusView::spec_read);
    assert(d.bus.spec_read(INTERRUPT_FLAG) & m == 0);

    // the pushed program counter reads back at the new stack pointer
    lemma_write16_read16_roundtrip(
        (CpuView { bus: b1, ..s1 }),
        sp2,
        s.pc,
    );
    crate::bus::lemma_tick_preserves_ram(b3, 20, sp2);
    let rpc = s.pc;
    assert(word(hi8(rpc), lo8(rpc)) == rpc) by (bit_vector);
}

} // verus!

verus! {

/// Every successful instruction step consumes exactly a tabled cost of the
/// fetched encoding: the branch-taken count, or, for a conditional that fell
/// through, the branch-not-taken count.
pub proof fn lemma_step_cycles_tabled(s1: CpuView)
    requires
        spec_step_instr(s1).0 is Ok,
    ensures
        ({
            let code = s1.bus.spec_read(s1.pc);
            let cb = code == 0xcb;
            let icode = if cb {
                s1.bus.spec_read(s1.pc.wrapping_add(1))
            } else {
                code
            };
            let pair = if cb {
                spec_cycles_cb(icode)
            } else {
                spec_cycles_un(icode)
            };
            let n = spec_step_instr(s1).0->Ok_0;
            n == pair.0 || (pair.1 != 0 && n == pair.1)
        }),
{
}

} // verus!

verus! {

/// The high hex digit of a byte, upper case.
pub open spec fn hex_hi(v: u8) -> u8 {
    if v >> 4 < 10 {
        (48 + (v >> 4)) as u8
    } else {
        (55 + (v >> 4)) as u8
    }
}

/// The low hex digit of a byte, upper case.
pub open spec fn hex_lo(v: u8) -> u8 {
    if v & 0xf < 10 {
        (48 + (v & 0xf)) as u8
    } else {
        (55 + (v & 0xf)) as u8
    }
}

/// The exact trace line of a machine state, as the correctness harnesses
/// expect it: registers, SP, PC and the four bytes at PC, in upper-case hex.
pub open spec fn spec_trace_line(s: CpuView) -> Seq<u8> {
    Seq::<u8>::empty()
        .push(65u8)
        .push(58u8)
        .push(hex_hi(s.a))
        .push(hex_lo(s.a))
        .push(32u8)
        .push(70u8)
        .push(58u8)
        .push(hex_hi(s.f.spec_bits()))
        .push(hex_lo(s.f.spec_bits()))
        .push(32u8)
        .push(66u8)
        .push(58u8)
        .push(hex_hi(s.b))
        .push(hex_lo(s.b))
        .push(32u8)
        .push(67u8)
        .push(58u8)
        .push(hex_hi(s.c))
        .push(hex_lo(s.c))
        .push(32u8)
        .push(68u8)
        .push(58u8)
        .push(hex_hi(s.d))
        .push(hex_lo(s.d))
        .push(32u8)
        .push(69u8)
        .push(58u8)
        .push(hex_hi(s.e))
        .push(hex_lo(s.e))
        .push(32u8)
        .push(72u8)
        .push(58u8)
        .push(hex_hi(s.h))
        .push(hex_lo(s.h))
        .push(32u8)
        .push(76u8)
        .push(58u8)
        .push(hex_hi(s.l))
        .push(hex_lo(s.l))
        .push(32u8)
        .push(83u8)
        .push(80u8)
        .push(58u8)
        .push(hex_hi(crate::cpu::hi8(s.sp)))
        .push(hex_lo(crate::cpu::hi8(s.sp)))
        .push(hex_hi(crate::cpu::lo8(s.sp)))
        .push(hex_lo(crate::cpu::lo8(s.sp)))
        .push(32u8)
        .push(80u8)
        .push(67u8)
        .push(58u8)
        .push(hex_hi(crate::cpu::hi8(s.pc)))
        .push(hex_lo(crate::cpu::hi8(s.pc)))
        .push(hex_hi(crate::cpu::lo8(s.pc)))
        .push(hex_lo(crate::cpu::lo8(s.pc)))
        .push(32u8)
        .push(80u8)
        .push(67u8)
        .push(77u8)
        .push(69u8)
        .push(77u8)
        .push(58u8)
        .push(hex_hi(s.bus.spec_read(s.pc.wrapping_add(0))))
        .push(hex_lo(s.bus.spec_read(s.pc.wrapping_add(0))))
        .push(44u8)
        .push(hex_hi(s.bus.spec_read(s.pc.wrapping_add(1))))
        .push(hex_lo(s.bus.spec_read(s.pc.wrapping_add(1))))
        .push(44u8)
        .push(hex_hi(s.bus.spec_read(s.pc.wrapping_add(2))))
        .push(hex_lo(s.bus.spec_read(s.pc.wrapping_add(2))))
        .push(44u8)
        .push(hex_hi(s.bus.spec_read(s.pc.wrapping_add(3))))
        .push(hex_lo(s.bus.spec_read(s.pc.wrapping_add(3))))
}

/// Two upper-case hex digits of a byte.
fn push_hex2(out: &mut Vec<u8>, v: u8)
    ensures
        final(out)@ == old(out)@.push(hex_hi(v)).push(hex_lo(v)),
{
    proof {
        let x = v;
        assert(x >> 4 < 16 && (x & 0xf) < 16) by (bit_vector);
    }
    let hi = v >> 4;
    let lo = v & 0xf;
    out.push(
        if hi < 10 {
            48 + hi
        } else {
            55 + hi
        },
    );
    out.push(
        if lo < 10 {
            48 + lo
        } else {
            55 + lo
        },
    );
}

impl CPU {
    /// The state trace line, for the host to log: the exact textual form the
    /// trace-comparison harnesses consume.
    #[verifier::rlimit(100)]
    #[verifier::spinoff_prover]
    pub fn log_debug(&self) -> (line: Vec<u8>)
        requires
            self.wf(),
        ensures
            line@ == spec_trace_line(self@),
    {
        let mut out: Vec<u8> = Vec::new();
        out.push(65);
        out.push(58);
        push_hex2(&mut out, self.a);
        out.push(32);
        out.push(70);
        out.push(58);
        push_hex2(&mut out, self.f.bits());
        out.push(32);
        out.push(66);
        out.push(58);
        push_hex2(&mut out, self.b);
        out.push(32);
        out.push(67);
        out.push(58);
        push_hex2(&mut out, self.c);
        out.push(32);
        out.push(68);
        out.push(58);
        push_hex2(&mut out, self.d);
        out.push(32);
        out.push(69);
        out.push(58);
        push_hex2(&mut out, self.e);
        out.push(32);
        out.push(72);
        out.push(58);
        push_hex2(&mut out, self.h);
        out.push(32);
        out.push(76);
        out.push(58);
        push_hex2(&mut out, self.l);
        out.push(32);
        out.push(83);
        out.push(80);
        out.push(58);
        push_hex2(&mut out, (self.sp >> 8) as u8);
        push_hex2(&mut out, (self.sp & 0xff) as u8);
        out.push(32);
        out.push(80);
        out.push(67);
        out.push(58);
        push_hex2(&mut out, (self.pc >> 8) as u8);
        push_hex2(&mut out, (self.pc & 0xff) as u8);
        out.push(32);
        out.push(80);
        out.push(67);
        out.push(77);
        out.push(69);
        out.push(77);
        out.push(58);
        push_hex2(&mut out, self.mem_read(self.pc.wrapping_add(0)));
        out.push(44);
        push_hex2(&mut out, self.mem_read(self.pc.wrapping_add(1)));
        out.push(44);
        push_hex2(&mut out, self.mem_read(self.pc.wrapping_add(2)));
        out.push(44);
        push_hex2(&mut out, self.mem_read(self.pc.wrapping_add(3)));
        out
    }
}

} // verus!
