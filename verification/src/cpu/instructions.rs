//! One handler per mnemonic family, each proved against a spec transformer
//! over the machine view, plus the flag helpers they funnel through.

use vstd::prelude::*;
use crate::cpu::{CPU, CpuView, Flags, lo8, hi8};
use crate::cpu::addressing::{Operand, OperandType, RegisterOperand, spec_source_value,
    spec_write8, spec_write16dst};

verus! {

// Flag management.
impl CPU {
    pub fn update_zero(&mut self, result: u8)
        ensures
            final(self)@ == (CpuView {
                f: (Flags { z: result == 0, ..old(self)@.f }),
                ..old(self)@
            }),
    {
        self.f.z = result == 0;
    }

    pub fn update_carry(&mut self, a: u8, b: u8, c: u8)
        ensures
            final(self)@ == (CpuView {
                f: (Flags { c: a + b + c > 0xff, ..old(self)@.f }),
                ..old(self)@
            }),
    {
        let result = (a as u16) + (b as u16) + (c as u16);
        self.f.c = result > 0xff;
    }

    pub fn update_carry_sub(&mut self, a: u8, b: u8, c: u8)
        ensures
            final(self)@ == (CpuView {
                f: (Flags { c: (a as int) < b + c, ..old(self)@.f }),
                ..old(self)@
            }),
    {
        self.f.c = (a as u16) < (b as u16) + (c as u16);
    }

    pub fn update_hcarry(&mut self, a: u8, b: u8, c: u8)
        ensures
            final(self)@ == (CpuView {
                f: (Flags { h: (a & 0xf) + (b & 0xf) + (c & 0xf) > 0xf, ..old(self)@.f }),
                ..old(self)@
            }),
    {
        let result = ((a & 0xf) as u16) + ((b & 0xf) as u16) + ((c & 0xf) as u16);
        self.f.h = result > 0xf;
    }

    pub fn update_hcarry_sub(&mut self, a: u8, b: u8, c: u8)
        ensures
            final(self)@ == (CpuView {
                f: (Flags { h: ((a & 0xf) as int) < (b & 0xf) + (c & 0xf), ..old(self)@.f }),
                ..old(self)@
            }),
    {
        self.f.h = ((a & 0xf) as u16) < ((b & 0xf) as u16) + ((c & 0xf) as u16);
    }

    pub fn update_carry_16(&mut self, a: u16, b: u16)
        ensures
            final(self)@ == (CpuView {
                f: (Flags { c: a + b > 0xffff, ..old(self)@.f }),
                ..old(self)@
            }),
    {
        let result = (a as u32) + (b as u32);
        self.f.c = result > 0xffff;
    }

    pub fn update_hcarry_16(&mut self, a: u16, b: u16)
        ensures
            final(self)@ == (CpuView {
                f: (Flags { h: (a & 0x0fff) + (b & 0x0fff) > 0x0fff, ..old(self)@.f }),
                ..old(self)@
            }),
    {
        let result = ((a & 0x0fff) as u32) + ((b & 0x0fff) as u32);
        self.f.h = result > 0x0fff;
    }

    pub fn update_zero_and_carries(&mut self, a: u8, b: u8, c: u8)
        ensures
            final(self)@ == (CpuView {
                f: (Flags {
                    z: a.wrapping_add(b).wrapping_add(c) == 0,
                    n: old(self)@.f.n,
                    h: (a & 0xf) + (b & 0xf) + (c & 0xf) > 0xf,
                    c: a + b + c > 0xff,
                }),
                ..old(self)@
            }),
    {
        self.update_zero(a.wrapping_add(b).wrapping_add(c));
        self.update_carry(a, b, c);
        self.update_hcarry(a, b, c);
    }

    pub fn update_zero_and_carries_sub(&mut self, a: u8, b: u8, c: u8)
        ensures
            final(self)@ == (CpuView {
                f: (Flags {
                    z: a.wrapping_sub(b).wrapping_sub(c) == 0,
                    n: old(self)@.f.n,
                    h: ((a & 0xf) as int) < (b & 0xf) + (c & 0xf),
                    c: (a as int) < b + c,
                }),
                ..old(self)@
            }),
    {
        self.update_zero(a.wrapping_sub(b).wrapping_sub(c));
        self.update_carry_sub(a, b, c);
        self.update_hcarry_sub(a, b, c);
    }

    pub fn set_hcarry_and_unset_carry(&mut self)
        ensures
            final(self)@ == (CpuView {
                f: (Flags { h: true, c: false, ..old(self)@.f }),
                ..old(self)@
            }),
    {
        self.f.h = true;
        self.f.c = false;
    }

    pub fn unset_hcarry_and_carry(&mut self)
        ensures
            final(self)@ == (CpuView {
                f: (Flags { h: false, c: false, ..old(self)@.f }),
                ..old(self)@
            }),
    {
        self.f.h = false;
        self.f.c = false;
    }

    pub fn update_flags_after_rotation(&mut self, result: u8, bit: u8)
        ensures
            final(self)@ == (CpuView {
                f: (Flags { z: result == 0, n: false, h: false, c: bit != 0 }),
                ..old(self)@
            }),
    {
        self.f = Flags { z: result == 0, n: false, h: false, c: bit != 0 };
    }
}

/// Requirement for a load: the destination must accept the source's width.
pub open spec fn ld_shape_ok(dst: Operand, src: Operand) -> bool {
    if src.spec_is_16() {
        dst.spec_valid_dst16()
    } else {
        dst.spec_valid_dst8()
    }
}

/// LD: copy a source operand into a destination operand; no flags.
pub open spec fn spec_ld(s: CpuView, dst: Operand, src: Operand) -> CpuView {
    let v = spec_source_value(s, src);
    if src.spec_is_16() {
        spec_write16dst(s, dst, v)
    } else {
        spec_write8(s, dst, (v & 0xff) as u8)
    }
}

/// LD (HL+) / LD A,(HL+): the load, then HL is incremented.
pub open spec fn spec_ldi(s: CpuView, dst: Operand, src: Operand) -> CpuView {
    let s1 = spec_ld(s, dst, src);
    let nhl = s1.hl().wrapping_add(1);
    CpuView { h: hi8(nhl), l: lo8(nhl), ..s1 }
}

/// LD (HL-) / LD A,(HL-): the load, then HL is decremented.
pub open spec fn spec_ldd(s: CpuView, dst: Operand, src: Operand) -> CpuView {
    let s1 = spec_ld(s, dst, src);
    let nhl = s1.hl().wrapping_sub(1);
    CpuView { h: hi8(nhl), l: lo8(nhl), ..s1 }
}

/// ADD/ADC: A gains the operand and the incoming carry; N clears, H and C
/// reflect the nibble and byte carries of the sum.
pub open spec fn spec_alu_add(s: CpuView, v: u8, cin: u8) -> CpuView {
    CpuView {
        a: s.a.wrapping_add(v).wrapping_add(cin),
        f: Flags {
            z: s.a.wrapping_add(v).wrapping_add(cin) == 0,
            n: false,
            h: (s.a & 0xf) + (v & 0xf) + (cin & 0xf) > 0xf,
            c: s.a + v + cin > 0xff,
        },
        ..s
    }
}

/// SUB/SBC: A loses the operand and the incoming carry; N sets, H and C
/// reflect the nibble and byte borrows.
pub open spec fn spec_alu_sub(s: CpuView, v: u8, cin: u8) -> CpuView {
    CpuView {
        a: s.a.wrapping_sub(v).wrapping_sub(cin),
        f: Flags {
            z: s.a.wrapping_sub(v).wrapping_sub(cin) == 0,
            n: true,
            h: ((s.a & 0xf) as int) < (v & 0xf) + (cin & 0xf),
            c: (s.a as int) < v + cin,
        },
        ..s
    }
}

/// CP: the SUB flags without the writeback.
pub open spec fn spec_alu_cp(s: CpuView, v: u8) -> CpuView {
    CpuView { a: s.a, ..spec_alu_sub(s, v, 0) }
}

/// The 8-bit value of a source operand.
pub open spec fn spec_src8(s: CpuView, op: Operand) -> u8 {
    (spec_source_value(s, op) & 0xff) as u8
}

/// The incoming carry as 0 or 1.
pub open spec fn carry_in(s: CpuView) -> u8 {
    if s.f.c {
        1u8
    } else {
        0u8
    }
}

pub open spec fn spec_add(s: CpuView, op: Operand) -> CpuView {
    spec_alu_add(s, spec_src8(s, op), 0)
}

pub open spec fn spec_adc(s: CpuView, op: Operand) -> CpuView {
    spec_alu_add(s, spec_src8(s, op), carry_in(s))
}

pub open spec fn spec_sub(s: CpuView, op: Operand) -> CpuView {
    spec_alu_sub(s, spec_src8(s, op), 0)
}

pub open spec fn spec_sbc(s: CpuView, op: Operand) -> CpuView {
    spec_alu_sub(s, spec_src8(s, op), carry_in(s))
}

/// AND: N=0, H=1, C=0.
pub open spec fn spec_and(s: CpuView, op: Operand) -> CpuView {
    let r = s.a & spec_src8(s, op);
    CpuView { a: r, f: Flags { z: r == 0, n: false, h: true, c: false }, ..s }
}

/// XOR: all of N, H, C clear.
pub open spec fn spec_xor(s: CpuView, op: Operand) -> CpuView {
    let r = s.a ^ spec_src8(s, op);
    CpuView { a: r, f: Flags { z: r == 0, n: false, h: false, c: false }, ..s }
}

/// OR: all of N, H, C clear.
pub open spec fn spec_or(s: CpuView, op: Operand) -> CpuView {
    let r = s.a | spec_src8(s, op);
    CpuView { a: r, f: Flags { z: r == 0, n: false, h: false, c: false }, ..s }
}

pub open spec fn spec_cp(s: CpuView, op: Operand) -> CpuView {
    spec_alu_cp(s, spec_src8(s, op))
}

/// INC: 16-bit forms touch no flags; 8-bit forms keep C and set Z, N=0, H.
pub open spec fn spec_inc(s: CpuView, op: Operand) -> CpuView {
    let v = spec_source_value(s, op);
    if op.spec_is_16() {
        spec_write16dst(s, op, v.wrapping_add(1))
    } else {
        let v8 = (v & 0xff) as u8;
        let r = v8.wrapping_add(1);
        let s1 = CpuView {
            f: Flags {
                z: r == 0,
                n: false,
                h: (v8 & 0xf) + (1u8 & 0xf) + (0u8 & 0xf) > 0xf,
                c: s.f.c,
            },
            ..s
        };
        spec_write8(s1, op, r)
    }
}

/// DEC: 16-bit forms touch no flags; 8-bit forms keep C and set Z, N=1, H.
pub open spec fn spec_dec(s: CpuView, op: Operand) -> CpuView {
    let v = spec_source_value(s, op);
    if op.spec_is_16() {
        spec_write16dst(s, op, v.wrapping_sub(1))
    } else {
        let v8 = (v & 0xff) as u8;
        let r = v8.wrapping_sub(1);
        let s1 = CpuView {
            f: Flags {
                z: r == 0,
                n: true,
                h: ((v8 & 0xf) as int) < (1u8 & 0xf) + (0u8 & 0xf),
                c: s.f.c,
            },
            ..s
        };
        spec_write8(s1, op, r)
    }
}

/// ADD HL,rr: Z preserved, N=0, H and C from the 12- and 16-bit carries.
pub open spec fn spec_add_16(s: CpuView, op: Operand) -> CpuView {
    let v = spec_source_value(s, op);
    let hl = s.hl();
    let r = hl.wrapping_add(v);
    CpuView {
        h: hi8(r),
        l: lo8(r),
        f: Flags {
            z: s.f.z,
            n: false,
            h: (hl & 0x0fff) + (v & 0x0fff) > 0x0fff,
            c: hl + v > 0xffff,
        },
        ..s
    }
}

/// ADD SP,e: SP moves by the sign-extended byte; Z=N=0 and H/C are computed
/// as an unsigned add of the low byte of SP with the raw byte e.
pub open spec fn spec_add_sp_sign(s: CpuView, op: Operand) -> CpuView {
    let v = spec_source_value(s, op);
    let e = (v & 0xff) as u8;
    let r = s.sp.wrapping_add_signed((e as i8) as i16);
    CpuView {
        sp: r,
        f: Flags {
            z: false,
            n: false,
            h: (lo8(s.sp) & 0xf) + (e & 0xf) + (0u8 & 0xf) > 0xf,
            c: lo8(s.sp) + e + 0u8 > 0xff,
        },
        ..s
    }
}

/// LD HL,SP+e: like ADD SP,e but the sum lands in HL and SP is untouched.
pub open spec fn spec_ld_sp_sign(s: CpuView, op: Operand) -> CpuView {
    let v = spec_source_value(s, op);
    let e = (v & 0xff) as u8;
    let r = s.sp.wrapping_add_signed((e as i8) as i16);
    CpuView {
        h: hi8(r),
        l: lo8(r),
        f: Flags {
            z: false,
            n: false,
            h: (lo8(s.sp) & 0xf) + (e & 0xf) + (0u8 & 0xf) > 0xf,
            c: lo8(s.sp) + e + 0u8 > 0xff,
        },
        ..s
    }
}

/// DAA: decimal-adjust A after an add (N=0) or subtract (N=1); C is sticky.
pub open spec fn spec_daa(s: CpuView) -> CpuView {
    let lo_adj = s.f.h || (!s.f.n && (s.a & 0xf) > 0x9);
    let hi_adj = s.f.c || (!s.f.n && s.a > 0x99);
    let correction = ((if lo_adj {
        0x06u8
    } else {
        0u8
    }) + (if hi_adj {
        0x60u8
    } else {
        0u8
    })) as u8;
    let r = if s.f.n {
        s.a.wrapping_sub(correction)
    } else {
        s.a.wrapping_add(correction)
    };
    CpuView { a: r, f: Flags { z: r == 0, n: s.f.n, h: false, c: hi_adj }, ..s }
}

/// CPL: complement A; N and H set, Z and C preserved.
pub open spec fn spec_cpl(s: CpuView) -> CpuView {
    CpuView { a: !s.a, f: Flags { n: true, h: true, ..s.f }, ..s }
}

/// SCF: C=1, N=H=0.
pub open spec fn spec_scf(s: CpuView) -> CpuView {
    CpuView { f: Flags { n: false, h: false, c: true, ..s.f }, ..s }
}

/// CCF: C toggled, N=H=0.
pub open spec fn spec_ccf(s: CpuView) -> CpuView {
    CpuView { f: Flags { n: false, h: false, c: !s.f.c, ..s.f }, ..s }
}

/// A rotate or shift writes its result and sets Z from it, clears N and H,
/// and takes C from the displaced bit.
pub open spec fn spec_rot_finish(s: CpuView, op: Operand, r: u8, bit: u8) -> CpuView {
    let s1 = spec_write8(s, op, r);
    CpuView { f: Flags { z: r == 0, n: false, h: false, c: bit != 0 }, ..s1 }
}

pub open spec fn spec_rlc(s: CpuView, op: Operand) -> CpuView {
    let v = spec_src8(s, op);
    spec_rot_finish(s, op, (v << 1) | (v >> 7), v >> 7)
}

pub open spec fn spec_rrc(s: CpuView, op: Operand) -> CpuView {
    let v = spec_src8(s, op);
    spec_rot_finish(s, op, (v >> 1) | ((v & 1) << 7), v & 1)
}

pub open spec fn spec_rl(s: CpuView, op: Operand) -> CpuView {
    let v = spec_src8(s, op);
    spec_rot_finish(s, op, (v << 1) | carry_in(s), v >> 7)
}

pub open spec fn spec_rr(s: CpuView, op: Operand) -> CpuView {
    let v = spec_src8(s, op);
    spec_rot_finish(s, op, (v >> 1) | (carry_in(s) << 7), v & 1)
}

pub open spec fn spec_sla(s: CpuView, op: Operand) -> CpuView {
    let v = spec_src8(s, op);
    spec_rot_finish(s, op, v << 1, v >> 7)
}

pub open spec fn spec_sra(s: CpuView, op: Operand) -> CpuView {
    let v = spec_src8(s, op);
    spec_rot_finish(s, op, (v >> 1) | (v & 0x80), v & 1)
}

pub open spec fn spec_srl(s: CpuView, op: Operand) -> CpuView {
    let v = spec_src8(s, op);
    spec_rot_finish(s, op, v >> 1, v & 1)
}

/// SWAP: exchange the nibbles; C always clears.
pub open spec fn spec_swap(s: CpuView, op: Operand) -> CpuView {
    let v = spec_src8(s, op);
    spec_rot_finish(s, op, ((v & 0x0f) << 4) | (v >> 4), 0)
}

/// The A-register rotates clear Z afterwards.
pub open spec fn spec_clear_z(s: CpuView) -> CpuView {
    CpuView { f: Flags { z: false, ..s.f }, ..s }
}

pub open spec fn spec_jp(s: CpuView, op: Operand) -> CpuView {
    CpuView { pc: spec_source_value(s, op), ..s }
}

pub open spec fn spec_jpc(s: CpuView, cond: Operand, op: Operand) -> CpuView {
    if spec_source_value(s, cond) != 0 {
        spec_jp(s, op)
    } else {
        s
    }
}

/// JR: relative jump from the already-advanced PC.
pub open spec fn spec_jr(s: CpuView, op: Operand) -> CpuView {
    let e = (spec_src8(s, op) as i8) as i16;
    CpuView { pc: s.pc.wrapping_add_signed(e), ..s }
}

pub open spec fn spec_jrc(s: CpuView, cond: Operand, op: Operand) -> CpuView {
    if spec_source_value(s, cond) != 0 {
        spec_jr(s, op)
    } else {
        s
    }
}

/// CALL: the already-advanced PC (the next instruction) is pushed, then the
/// target becomes PC.
pub open spec fn spec_call(s: CpuView, op: Operand) -> CpuView {
    let target = spec_source_value(s, op);
    let s1 = s.spec_push(s.pc);
    CpuView { pc: target, ..s1 }
}

pub open spec fn spec_callc(s: CpuView, cond: Operand, op: Operand) -> CpuView {
    if spec_source_value(s, cond) != 0 {
        spec_call(s, op)
    } else {
        s
    }
}

pub open spec fn spec_ret(s: CpuView) -> CpuView {
    CpuView { pc: s.spec_read16(s.sp), sp: s.sp.wrapping_add(2), ..s }
}

pub open spec fn spec_retc(s: CpuView, cond: Operand) -> CpuView {
    if spec_source_value(s, cond) != 0 {
        spec_ret(s)
    } else {
        s
    }
}

/// RST: like CALL to a fixed vector.
pub open spec fn spec_rst(s: CpuView, op: Operand) -> CpuView {
    spec_call(s, op)
}

/// RETI: return and enable interrupts immediately, with no EI delay.
pub open spec fn spec_reti(s: CpuView) -> CpuView {
    spec_ret(CpuView { ime: true, ..s })
}

/// BIT n,r: Z is the complement of the tested bit; N=0, H=1, C kept.
pub open spec fn spec_bit(s: CpuView, bit_op: Operand, src: Operand) -> CpuView {
    let pos = (spec_source_value(s, bit_op) & 0xff) as u8;
    let v = spec_src8(s, src);
    CpuView {
        f: Flags { z: v & ((1u8 << pos) as u8) == 0, n: false, h: true, c: s.f.c },
        ..s
    }
}

/// SET n,r: set the bit; no flags.
pub open spec fn spec_set_bit(s: CpuView, bit_op: Operand, src: Operand) -> CpuView {
    let pos = (spec_source_value(s, bit_op) & 0xff) as u8;
    let v = spec_src8(s, src);
    spec_write8(s, src, v | ((1u8 << pos) as u8))
}

/// RES n,r: clear the bit; no flags.
pub open spec fn spec_res_bit(s: CpuView, bit_op: Operand, src: Operand) -> CpuView {
    let pos = (spec_source_value(s, bit_op) & 0xff) as u8;
    let v = spec_src8(s, src);
    spec_write8(s, src, v & !((1u8 << pos) as u8))
}

/// A bit-index operand: immediate, in range for a shift.
pub open spec fn bit_operand_ok(op: Operand) -> bool {
    &&& op.immediate
    &&& op.kind matches OperandType::Bit(b) && b < 8
}

// The instruction handlers.
impl CPU {
    pub fn ld(&mut self, dst: &Operand, src: &Operand)
        requires
            old(self).wf(),
            ld_shape_ok(*dst, *src),
        ensures
            final(self).wf(),
            final(self)@ == spec_ld(old(self)@, *dst, *src),
    {
        let data = self.get_from_source(src);

        if src.is_value_16() {
            self.set_to_destination_16(dst, data);
        } else {
            self.set_to_destination(dst, (data & 0xff) as u8);
        }
    }

    pub fn ld_io_in_c_reg_to_a(&mut self)
        requires
            old(self).wf(),
        ensures
            final(self).wf(),
            final(self)@ == (CpuView {
                a: old(self)@.bus.spec_read((0xff00 + old(self)@.c as u16) as u16),
                ..old(self)@
            }),
    {
        let addr = 0xff00 + self.c as u16;
        self.a = self.mem_read(addr);
    }

    pub fn ld_a_to_io_in_c_reg(&mut self)
        requires
            old(self).wf(),
        ensures
            final(self).wf(),
            final(self)@ == (CpuView {
                bus: old(self)@.bus.spec_write((0xff00 + old(self)@.c as u16) as u16, old(self)@.a),
                ..old(self)@
            }),
    {
        let addr = 0xff00 + self.c as u16;
        self.mem_write(addr, self.a);
    }

    pub fn ldi(&mut self, dst: &Operand, src: &Operand)
        requires
            old(self).wf(),
            ld_shape_ok(*dst, *src),
        ensures
            final(self).wf(),
            final(self)@ == spec_ldi(old(self)@, *dst, *src),
    {
        self.ld(dst, src);
        let hl = self.get_hl();
        self.set_hl(hl.wrapping_add(1));
    }

    pub fn ldd(&mut self, dst: &Operand, src: &Operand)
        requires
            old(self).wf(),
            ld_shape_ok(*dst, *src),
        ensures
            final(self).wf(),
            final(self)@ == spec_ldd(old(self)@, *dst, *src),
    {
        self.ld(dst, src);
        let hl = self.get_hl();
        self.set_hl(hl.wrapping_sub(1));
    }

    pub fn push(&mut self, src: &Operand)
        requires
            old(self).wf(),
        ensures
            final(self).wf(),
            final(self)@ == old(self)@.spec_push(spec_source_value(old(self)@, *src)),
    {
        let data = self.get_from_source(src);
        self.stack_push(data);
    }

    pub fn pop(&mut self, dst: &Operand)
        requires
            old(self).wf(),
            dst.spec_valid_dst16(),
        ensures
            final(self).wf(),
            final(self)@ == spec_write16dst(
                (CpuView { sp: old(self)@.sp.wrapping_add(2), ..old(self)@ }),
                *dst,
                old(self)@.spec_read16(old(self)@.sp),
            ),
    {
        let data = self.stack_pop();
        self.set_to_destination_16(dst, data);
    }

    pub fn add(&mut self, dst: &Operand)
        requires
            old(self).wf(),
        ensures
            final(self).wf(),
            final(self)@ == spec_add(old(self)@, *dst),
    {
        let data = (self.get_from_source(dst) & 0xff) as u8;

        self.f.n = false;
        self.update_zero_and_carries(self.a, data, 0);

        self.a = self.a.wrapping_add(data);
    }

    pub fn adc(&mut self, dst: &Operand)
        requires
            old(self).wf(),
        ensures
            final(self).wf(),
            final(self)@ == spec_adc(old(self)@, *dst),
    {
        let data = (self.get_from_source(dst) & 0xff) as u8;
        let carry = self.carry();

        self.f.n = false;
        self.update_zero_and_carries(self.a, data, carry);

        self.a = self.a.wrapping_add(data).wrapping_add(carry);
    }

    pub fn sub(&mut self, dst: &Operand)
        requires
            old(self).wf(),
        ensures
            final(self).wf(),
            final(self)@ == spec_sub(old(self)@, *dst),
    {
        let data = (self.get_from_source(dst) & 0xff) as u8;

        self.f.n = true;
        self.update_zero_and_carries_sub(self.a, data, 0);

        self.a = self.a.wrapping_sub(data);
    }

    pub fn sbc(&mut self, dst: &Operand)
        requires
            old(self).wf(),
        ensures
            final(self).wf(),
            final(self)@ == spec_sbc(old(self)@, *dst),
    {
        let data = (self.get_from_source(dst) & 0xff) as u8;
        let carry = self.carry();

        self.f.n = true;
        self.update_zero_and_carries_sub(self.a, data, carry);

        self.a = self.a.wrapping_sub(data).wrapping_sub(carry);
    }

    pub fn and(&mut self, dst: &Operand)
        requires
            old(self).wf(),
        ensures
            final(self).wf(),
            final(self)@ == spec_and(old(self)@, *dst),
    {
        let data = (self.get_from_source(dst) & 0xff) as u8;
        let result = self.a & data;

        self.update_zero(result);
        self.f.n = false;
        self.set_hcarry_and_unset_carry();

        self.a = result;
    }

    pub fn xor(&mut self, dst: &Operand)
        requires
            old(self).wf(),
        ensures
            final(self).wf(),
            final(self)@ == spec_xor(old(self)@, *dst),
    {
        let data = (self.get_from_source(dst) & 0xff) as u8;
        let result = self.a ^ data;

        self.update_zero(result);
        self.f.n = false;
        self.unset_hcarry_and_carry();

        self.a = result;
    }

    pub fn or(&mut self, dst: &Operand)
        requires
            old(self).wf(),
        ensures
            final(self).wf(),
            final(self)@ == spec_or(old(self)@, *dst),
    {
        let data = (self.get_from_source(dst) & 0xff) as u8;
        let result = self.a | data;

        self.update_zero(result);
        self.f.n = false;
        self.unset_hcarry_and_carry();

        self.a = result;
    }

    pub fn cp(&mut self, src: &Operand)
        requires
            old(self).wf(),
        ensures
            final(self).wf(),
            final(self)@ == spec_cp(old(self)@, *src),
    {
        let data = (self.get_from_source(src) & 0xff) as u8;

        self.f.n = true;
        self.update_zero_and_carries_sub(self.a, data, 0);
    }

    pub fn inc(&mut self, dst: &Operand)
        requires
            old(self).wf(),
            dst.spec_is_16() ==> dst.spec_valid_dst16(),
            !dst.spec_is_16() ==> dst.spec_valid_dst8(),
        ensures
            final(self).wf(),
            final(self)@ == spec_inc(old(self)@, *dst),
    {
        let data = self.get_from_source(dst);

        if dst.is_value_16() {
            self.set_to_destination_16(dst, data.wrapping_add(1));
        } else {
            let result = ((data & 0xff) as u8).wrapping_add(1);
            self.f.n = false;
            self.update_zero(result);
            self.update_hcarry((data & 0xff) as u8, 1, 0);

            self.set_to_destination(dst, result);
        }
    }

    pub fn dec(&mut self, dst: &Operand)
        requires
            old(self).wf(),
            dst.spec_is_16() ==> dst.spec_valid_dst16(),
            !dst.spec_is_16() ==> dst.spec_valid_dst8(),
        ensures
            final(self).wf(),
            final(self)@ == spec_dec(old(self)@, *dst),
    {
        let data = self.get_from_source(dst);

        if dst.is_value_16() {
            self.set_to_destination_16(dst, data.wrapping_sub(1));
        } else {
            let result = ((data & 0xff) as u8).wrapping_sub(1);
            self.f.n = true;
            self.update_zero(result);
            self.update_hcarry_sub((data & 0xff) as u8, 1, 0);

            self.set_to_destination(dst, result);
        }
    }

    pub fn add_16(&mut self, src: &Operand)
        requires
            old(self).wf(),
        ensures
            final(self).wf(),
            final(self)@ == spec_add_16(old(self)@, *src),
    {
        let data = self.get_from_source(src);
        let hl = self.get_hl();
        let result = hl.wrapping_add(data);
        self.set_hl(result);

        self.f.n = false;
        self.update_hcarry_16(hl, data);
        self.update_carry_16(hl, data);
    }

    pub fn add_sp_sign(&mut self, offset: &Operand)
        requires
            old(self).wf(),
        ensures
            final(self).wf(),
            final(self)@ == spec_add_sp_sign(old(self)@, *offset),
    {
        let data = (self.get_from_source(offset) & 0xff) as u8;
        let signed = (data as i8) as i16;
        let result = self.sp.wrapping_add_signed(signed);

        self.f.z = false;
        self.f.n = false;

        // The carries come from an unsigned 8-bit add of the low byte of SP
        // with the raw offset byte, for either sign of the offset.
        self.update_hcarry((self.sp & 0xff) as u8, data, 0);
        self.update_carry((self.sp & 0xff) as u8, data, 0);

        self.sp = result;
    }

    pub fn ld_sp_sign(&mut self, offset: &Operand)
        requires
            old(self).wf(),
        ensures
            final(self).wf(),
            final(self)@ == spec_ld_sp_sign(old(self)@, *offset),
    {
        let data = (self.get_from_source(offset) & 0xff) as u8;
        let signed = (data as i8) as i16;
        let result = self.sp.wrapping_add_signed(signed);

        self.f.z = false;
        self.f.n = false;

        self.update_hcarry((self.sp & 0xff) as u8, data, 0);
        self.update_carry((self.sp & 0xff) as u8, data, 0);

        self.set_hl(result);
    }

    pub fn daa(&mut self)
        requires
            old(self).wf(),
        ensures
            final(self).wf(),
            final(self)@ == spec_daa(old(self)@),
    {
        let a = self.a;

        let mut correction: u8 = 0;
        let mut carry = false;

        if self.f.h || (!self.f.n && (a & 0xf) > 0x9) {
            correction += 0x6;
        }

        if self.f.c || (!self.f.n && a > 0x99) {
            correction += 0x60;
            carry = true;
        }

        let result = if self.f.n {
            self.a.wrapping_sub(correction)
        } else {
            self.a.wrapping_add(correction)
        };

        self.update_zero(result);
        self.f.h = false;
        self.f.c = carry;

        self.a = result;
    }

    pub fn rlc(&mut self, src: &Operand)
        requires
            old(self).wf(),
            src.spec_valid_dst8(),
        ensures
            final(self).wf(),
            final(self)@ == spec_rlc(old(self)@, *src),
    {
        let data = (self.get_from_source(src) & 0xff) as u8;
        let carry = data >> 7;
        let result = (data << 1) | carry;
        self.set_to_destination(src, result);

        self.update_flags_after_rotation(result, carry);
    }

    pub fn rlca(&mut self)
        requires
            old(self).wf(),
        ensures
            final(self).wf(),
            final(self)@ == spec_clear_z(spec_rlc(old(self)@, reg_a_operand())),
    {
        let op = reg_a();
        self.rlc(&op);
        self.f.z = false;
    }

    pub fn rrc(&mut self, src: &Operand)
        requires
            old(self).wf(),
            src.spec_valid_dst8(),
        ensures
            final(self).wf(),
            final(self)@ == spec_rrc(old(self)@, *src),
    {
        let data = (self.get_from_source(src) & 0xff) as u8;
        let carry = data & 1;
        let result = (data >> 1) | ((data & 1) << 7);
        self.set_to_destination(src, result);

        self.update_flags_after_rotation(result, carry);
    }

    pub fn rrca(&mut self)
        requires
            old(self).wf(),
        ensures
            final(self).wf(),
            final(self)@ == spec_clear_z(spec_rrc(old(self)@, reg_a_operand())),
    {
        let op = reg_a();
        self.rrc(&op);
        self.f.z = false;
    }

    pub fn rl(&mut self, src: &Operand)
        requires
            old(self).wf(),
            src.spec_valid_dst8(),
        ensures
            final(self).wf(),
            final(self)@ == spec_rl(old(self)@, *src),
    {
        let data = (self.get_from_source(src) & 0xff) as u8;
        let carry = self.carry();
        let bit = data >> 7;
        let result = (data << 1) | carry;
        self.set_to_destination(src, result);

        self.update_flags_after_rotation(result, bit);
    }

    pub fn rla(&mut self)
        requires
            old(self).wf(),
        ensures
            final(self).wf(),
            final(self)@ == spec_clear_z(spec_rl(old(self)@, reg_a_operand())),
    {
        let op = reg_a();
        self.rl(&op);
        self.f.z = false;
    }

    pub fn rr(&mut self, src: &Operand)
        requires
            old(self).wf(),
            src.spec_valid_dst8(),
        ensures
            final(self).wf(),
            final(self)@ == spec_rr(old(self)@, *src),
    {
        let data = (self.get_from_source(src) & 0xff) as u8;
        let carry = self.carry();
        let bit = data & 1;
        let result = (data >> 1) | (carry << 7);
        self.set_to_destination(src, result);

        self.update_flags_after_rotation(result, bit);
    }

    pub fn rra(&mut self)
        requires
            old(self).wf(),
        ensures
            final(self).wf(),
            final(self)@ == spec_clear_z(spec_rr(old(self)@, reg_a_operand())),
    {
        let op = reg_a();
        self.rr(&op);
        self.f.z = false;
    }

    pub fn sla(&mut self, src: &Operand)
        requires
            old(self).wf(),
            src.spec_valid_dst8(),
        ensures
            final(self).wf(),
            final(self)@ == spec_sla(old(self)@, *src),
    {
        let data = (self.get_from_source(src) & 0xff) as u8;
        let bit = data >> 7;
        let result = data << 1;
        self.set_to_destination(src, result);

        self.update_flags_after_rotation(result, bit);
    }

    pub fn sra(&mut self, src: &Operand)
        requires
            old(self).wf(),
            src.spec_valid_dst8(),
        ensures
            final(self).wf(),
            final(self)@ == spec_sra(old(self)@, *src),
    {
        let data = (self.get_from_source(src) & 0xff) as u8;
        let bit = data & 1;
        let last = data & 0x80;
        let result = (data >> 1) | last;
        self.set_to_destination(src, result);

        self.update_flags_after_rotation(result, bit);
    }

    pub fn srl(&mut self, src: &Operand)
        requires
            old(self).wf(),
            src.spec_valid_dst8(),
        ensures
            final(self).wf(),
            final(self)@ == spec_srl(old(self)@, *src),
    {
        let data = (self.get_from_source(src) & 0xff) as u8;
        let bit = data & 1;
        let result = data >> 1;
        self.set_to_destination(src, result);

        self.update_flags_after_rotation(result, bit);
    }

    pub fn swap(&mut self, src: &Operand)
        requires
            old(self).wf(),
            src.spec_valid_dst8(),
        ensures
            final(self).wf(),
            final(self)@ == spec_swap(old(self)@, *src),
    {
        let data = (self.get_from_source(src) & 0xff) as u8;
        let low = data & 0x0f;
        let high = data >> 4;
        let result = (low << 4) | high;
        self.set_to_destination(src, result);

        self.update_flags_after_rotation(result, 0);
    }

    pub fn ccf(&mut self)
        requires
            old(self).wf(),
        ensures
            final(self).wf(),
            final(self)@ == spec_ccf(old(self)@),
    {
        self.f.n = false;
        self.f.h = false;
        self.f.c = !self.f.c;
    }

    pub fn scf(&mut self)
        requires
            old(self).wf(),
        ensures
            final(self).wf(),
            final(self)@ == spec_scf(old(self)@),
    {
        self.f.n = false;
        self.f.h = false;
        self.f.c = true;
    }

    pub fn cpl(&mut self)
        requires
            old(self).wf(),
        ensures
            final(self).wf(),
            final(self)@ == spec_cpl(old(self)@),
    {
        self.a = !self.a;
        self.f.n = true;
        self.f.h = true;
    }

    pub fn jp(&mut self, dst: &Operand)
        requires
            old(self).wf(),
        ensures
            final(self).wf(),
            final(self)@ == spec_jp(old(self)@, *dst),
    {
        let addr = self.get_from_source(dst);
        self.pc = addr;
    }

    pub fn jpc(&mut self, cond: &Operand, dst: &Operand)
        requires
            old(self).wf(),
        ensures
            final(self).wf(),
            final(self)@ == spec_jpc(old(self)@, *cond, *dst),
    {
        let cond = self.get_from_source(cond);
        if cond != 0 {
            self.jp(dst);
        }
    }

    pub fn jr(&mut self, dst: &Operand)
        requires
            old(self).wf(),
        ensures
            final(self).wf(),
            final(self)@ == spec_jr(old(self)@, *dst),
    {
        let addr = ((self.get_from_source(dst) & 0xff) as u8) as i8;
        // PC has already passed the instruction: it is the jump base.
        self.pc = self.pc.wrapping_add_signed(addr as i16);
    }

    pub fn jrc(&mut self, cond: &Operand, dst: &Operand)
        requires
            old(self).wf(),
        ensures
            final(self).wf(),
            final(self)@ == spec_jrc(old(self)@, *cond, *dst),
    {
        let cond = self.get_from_source(cond);
        if cond != 0 {
            self.jr(dst);
        }
    }

    pub fn call(&mut self, dst: &Operand)
        requires
            old(self).wf(),
        ensures
            final(self).wf(),
            final(self)@ == spec_call(old(self)@, *dst),
    {
        // PC has already passed the instruction: it is the return address.
        let addr = self.get_from_source(dst);
        self.stack_push(self.pc);
        self.pc = addr;
    }

    pub fn callc(&mut self, cond: &Operand, dst: &Operand)
        requires
            old(self).wf(),
        ensures
            final(self).wf(),
            final(self)@ == spec_callc(old(self)@, *cond, *dst),
    {
        let cond = self.get_from_source(cond);
        if cond != 0 {
            self.call(dst);
        }
    }

    pub fn ret(&mut self)
        requires
            old(self).wf(),
        ensures
            final(self).wf(),
            final(self)@ == spec_ret(old(self)@),
    {
        self.pc = self.stack_pop();
    }

    pub fn retc(&mut self, cond: &Operand)
        requires
            old(self).wf(),
        ensures
            final(self).wf(),
            final(self)@ == spec_retc(old(self)@, *cond),
    {
        let cond = self.get_from_source(cond);
        if cond != 0 {
            self.ret();
        }
    }

    pub fn rst(&mut self, dst: &Operand)
        requires
            old(self).wf(),
        ensures
            final(self).wf(),
            final(self)@ == spec_rst(old(self)@, *dst),
    {
        let addr = self.get_from_source(dst);
        // PC has already passed the instruction: it is the return address.
        self.stack_push(self.pc);
        self.pc = addr;
    }

    pub fn reti(&mut self)
        requires
            old(self).wf(),
        ensures
            final(self).wf(),
            final(self)@ == spec_reti(old(self)@),
    {
        self.ime = true;
        self.ret();
    }

    /// DI takes effect immediately and also cancels a pending EI.
    pub fn di(&mut self)
        ensures
            final(self)@ == (CpuView { ime: false, ime_to_set: false, ..old(self)@ }),
    {
        self.ime = false;
        self.ime_to_set = false;
    }

    /// EI is delayed: the master enable turns on only after the next
    /// instruction completes.
    pub fn ei(&mut self)
        ensures
            final(self)@ == (CpuView { ime_to_set: true, ..old(self)@ }),
    {
        self.ime_to_set = true;
    }

    pub fn bit(&mut self, bit: &Operand, src: &Operand)
        requires
            old(self).wf(),
            bit_operand_ok(*bit),
        ensures
            final(self).wf(),
            final(self)@ == spec_bit(old(self)@, *bit, *src),
    {
        let pos = (self.get_from_source(bit) & 0xff) as u8;
        proof {
            let v = spec_source_value(old(self)@, *bit);
            assert(v < 8 ==> ((v & 0xff) as u8) < 8) by (bit_vector);
        }
        let data = (self.get_from_source(src) & 0xff) as u8;

        let result = data & (1u8 << pos);
        self.update_zero(result);
        self.f.n = false;
        self.f.h = true;
    }

    pub fn set(&mut self, bit: &Operand, src: &Operand)
        requires
            old(self).wf(),
            bit_operand_ok(*bit),
            src.spec_valid_dst8(),
        ensures
            final(self).wf(),
            final(self)@ == spec_set_bit(old(self)@, *bit, *src),
    {
        let pos = (self.get_from_source(bit) & 0xff) as u8;
        proof {
            let v = spec_source_value(old(self)@, *bit);
            assert(v < 8 ==> ((v & 0xff) as u8) < 8) by (bit_vector);
        }
        let data = (self.get_from_source(src) & 0xff) as u8;

        let result = data | (1u8 << pos);
        self.set_to_destination(src, result);
    }

    pub fn res(&mut self, bit: &Operand, src: &Operand)
        requires
            old(self).wf(),
            bit_operand_ok(*bit),
            src.spec_valid_dst8(),
        ensures
            final(self).wf(),
            final(self)@ == spec_res_bit(old(self)@, *bit, *src),
    {
        let pos = (self.get_from_source(bit) & 0xff) as u8;
        proof {
            let v = spec_source_value(old(self)@, *bit);
            assert(v < 8 ==> ((v & 0xff) as u8) < 8) by (bit_vector);
        }
        let data = (self.get_from_source(src) & 0xff) as u8;

        let result = data & !(1u8 << pos);
        self.set_to_destination(src, result);
    }
}

/// The accumulator as an immediate register operand.
pub open spec fn reg_a_operand() -> Operand {
    Operand { kind: OperandType::Register(RegisterOperand::A), immediate: true }
}

/// The accumulator operand for the A-only rotate forms.
pub fn reg_a() -> (r: Operand)
    ensures
        r == reg_a_operand(),
{
    Operand { kind: OperandType::Register(RegisterOperand::A), immediate: true }
}

} // verus!

verus! {

/// The zero flag after DAA always reports whether the adjusted accumulator
/// is zero, whatever the incoming flags were.
pub proof fn lemma_daa_zero_flag(s: CpuView)
    ensures
        spec_daa(s).f.z == (spec_daa(s).a == 0),
{
}

/// After DAA, the accumulator is a packed pair of decimal digits, on every
/// flag/accumulator state that an 8-bit add or subtract of two packed
/// decimal operands can leave behind: after an add (N=0), a half-carry
/// implies a low nibble of at most 3 and a carry an accumulator of at most
/// 0x33; after a subtract (N=1), each borrow flag implies its nibble is in
/// the range a decimal borrow produces.
pub proof fn lemma_daa_bcd(s: CpuView)
    requires
        (!s.f.n && (s.f.h ==> s.a & 0xf <= 3) && (s.f.c ==> s.a <= 0x33)) || (s.f.n && (s.f.h
            ==> s.a & 0xf >= 6) && (!s.f.h ==> s.a & 0xf <= 9) && (s.f.c ==> s.a >> 4 >= 6) && (
        !s.f.c ==> s.a >> 4 <= 9)),
    ensures
        spec_daa(s).a & 0x0f <= 9,
        spec_daa(s).a >> 4 <= 9,
{
    let a = s.a;
    let n = s.f.n;
    let hf = s.f.h;
    let cf = s.f.c;
    let lo_adj = hf || (!n && (a & 0xf) > 0x9);
    let hi_adj = cf || (!n && a > 0x99);
    let corr = ((if lo_adj {
        0x06u8
    } else {
        0u8
    }) + (if hi_adj {
        0x60u8
    } else {
        0u8
    })) as u8;
    let r = spec_daa(s).a;
    if n {
        assert(r == a.wrapping_sub(corr));
        assert(a.wrapping_sub(corr) == (if a >= corr {
            (a - corr) as u8
        } else {
            (a - corr + 0x100) as u8
        }));
        assert((hf ==> a & 0xf >= 6) && (!hf ==> a & 0xf <= 9) && (cf ==> a >> 4 >= 6) && (!cf
            ==> a >> 4 <= 9) && corr == ((if hf {
            0x06u8
        } else {
            0u8
        }) + (if cf {
            0x60u8
        } else {
            0u8
        })) as u8 && r == (if a >= corr {
            (a - corr) as u8
        } else {
            (a - corr + 0x100) as u8
        }) ==> (r & 0x0f <= 9 && r >> 4 <= 9)) by (bit_vector);
    } else {
        assert(r == a.wrapping_add(corr));
        assert(a.wrapping_add(corr) == (if a + corr > 0xff {
            (a + corr - 0x100) as u8
        } else {
            (a + corr) as u8
        }));
        assert((hf ==> a & 0xf <= 3) && (cf ==> a <= 0x33) && corr == ((if (hf || (a & 0xf)
            > 0x9) {
            0x06u8
        } else {
            0u8
        }) + (if (cf || a > 0x99) {
            0x60u8
        } else {
            0u8
        })) as u8 && r == (if a + corr > 0xff {
            (a + corr - 0x100) as u8
        } else {
            (a + corr) as u8
        }) ==> (r & 0x0f <= 9 && r >> 4 <= 9)) by (bit_vector);
    }
}

/// ADD SP,e moves SP by the sign-extended offset modulo 2^16, and H and C
/// come strictly from the unsigned add of the low byte of SP with the raw
/// offset byte.
pub proof fn lemma_add_sp_e(s: CpuView, op: Operand)
    ensures
        ({
            let e = spec_src8(s, op);
            let d = spec_add_sp_sign(s, op);
            let t = s.sp + ((e as i8) as int);
            &&& d.sp == (if t < 0 {
                t + 0x10000
            } else if t > 0xffff {
                t - 0x10000
            } else {
                t
            })
            &&& d.f.h == ((s.sp & 0xf) + (e & 0xf) > 0xf)
            &&& d.f.c == ((s.sp & 0xff) + e > 0xff)
            &&& !d.f.z && !d.f.n
            &&& d.pc == s.pc && d.hl() == s.hl()
        }),
{
    let e = spec_src8(s, op);
    let sp = s.sp;
    assert((lo8(sp) & 0xf) == (sp & 0xf) && (lo8(sp) as u16) == (sp & 0xff) && (0u8 & 0xf)
        == 0) by (bit_vector);
}

} // verus!
