//! Dispatch: route a fetched opcode to its handler, proved to realise the
//! spec interpreter over the machine view.

use vstd::prelude::*;
use crate::cpu::{CPU, CpuView};
use crate::cpu::addressing::Opcode;
use crate::cpu::instructions::{spec_ld, spec_ldi, spec_ldd, spec_add, spec_adc, spec_sub,
    spec_sbc, spec_and, spec_xor, spec_or, spec_cp, spec_inc, spec_dec, spec_add_16,
    spec_add_sp_sign, spec_ld_sp_sign, spec_daa, spec_cpl, spec_scf, spec_ccf, spec_rlc,
    spec_rrc, spec_rl, spec_rr, spec_sla, spec_sra, spec_srl, spec_swap, spec_clear_z, spec_jp,
    spec_jpc, spec_jr, spec_jrc, spec_call, spec_callc, spec_ret, spec_retc, spec_rst, spec_reti,
    spec_bit, spec_set_bit, spec_res_bit, reg_a_operand};
use crate::cpu::optable::{spec_operands_un, spec_operands_cb, spec_illegal};

verus! {

/// What one unprefixed instruction does to the machine, with its canonical
/// operands; PC has already been advanced past the instruction.
#[verifier::opaque]
pub open spec fn spec_exec_un(s: CpuView, code: u8) -> CpuView {
    let ops = spec_operands_un(code);
    if code == 0x00 {
        s
    } else if code == 0x10 {
        // STOP waits like HALT and resumes on the same condition
        CpuView { halted: true, ..s }
    } else if code == 0x76 {
        CPU::spec_halt(s)
    } else if code == 0xf8 {
        spec_ld_sp_sign(s, ops[2])
    } else if code == 0x22 || code == 0x2a {
        spec_ldi(s, ops[0], ops[1])
    } else if code == 0x32 || code == 0x3a {
        spec_ldd(s, ops[0], ops[1])
    } else if code == 0xe2 {
        CpuView { bus: s.bus.spec_write((0xff00 + s.c as u16) as u16, s.a), ..s }
    } else if code == 0xf2 {
        CpuView { a: s.bus.spec_read((0xff00 + s.c as u16) as u16), ..s }
    } else if code == 0x01 || code == 0x02 || code == 0x06 || code == 0x08 || code == 0x0a
        || code == 0x0e || code == 0x11 || code == 0x12 || code == 0x16 || code == 0x1a || code
        == 0x1e || code == 0x21 || code == 0x26 || code == 0x2e || code == 0x31 || code == 0x36
        || code == 0x3e || code == 0xea || code == 0xfa || code == 0xf9 || code == 0xe0 || code
        == 0xf0 || (0x40 <= code && code <= 0x7f) {
        spec_ld(s, ops[0], ops[1])
    } else if code == 0x03 || code == 0x04 || code == 0x0c || code == 0x13 || code == 0x14
        || code == 0x1c || code == 0x23 || code == 0x24 || code == 0x2c || code == 0x33 || code
        == 0x34 || code == 0x3c {
        spec_inc(s, ops[0])
    } else if code == 0x05 || code == 0x0b || code == 0x0d || code == 0x15 || code == 0x1b
        || code == 0x1d || code == 0x25 || code == 0x2b || code == 0x2d || code == 0x35 || code
        == 0x3b || code == 0x3d {
        spec_dec(s, ops[0])
    } else if (0x80 <= code && code <= 0x87) || code == 0xc6 {
        spec_add(s, ops[1])
    } else if code == 0x09 || code == 0x19 || code == 0x29 || code == 0x39 {
        spec_add_16(s, ops[1])
    } else if code == 0xe8 {
        spec_add_sp_sign(s, ops[1])
    } else if code == 0x18 {
        spec_jr(s, ops[0])
    } else if code == 0x20 || code == 0x28 || code == 0x30 || code == 0x38 {
        spec_jrc(s, ops[0], ops[1])
    } else if code == 0x07 {
        spec_clear_z(spec_rlc(s, reg_a_operand()))
    } else if code == 0x17 {
        spec_clear_z(spec_rl(s, reg_a_operand()))
    } else if code == 0x0f {
        spec_clear_z(spec_rrc(s, reg_a_operand()))
    } else if code == 0x1f {
        spec_clear_z(spec_rr(s, reg_a_operand()))
    } else if code == 0x27 {
        spec_daa(s)
    } else if code == 0x2f {
        spec_cpl(s)
    } else if code == 0x37 {
        spec_scf(s)
    } else if code == 0x3f {
        spec_ccf(s)
    } else if (0x88 <= code && code <= 0x8f) || code == 0xce {
        spec_adc(s, ops[1])
    } else if (0x90 <= code && code <= 0x97) || code == 0xd6 {
        spec_sub(s, ops[1])
    } else if (0x98 <= code && code <= 0x9f) || code == 0xde {
        spec_sbc(s, ops[1])
    } else if (0xa0 <= code && code <= 0xa7) || code == 0xe6 {
        spec_and(s, ops[1])
    } else if (0xa8 <= code && code <= 0xaf) || code == 0xee {
        spec_xor(s, ops[1])
    } else if (0xb0 <= code && code <= 0xb7) || code == 0xf6 {
        spec_or(s, ops[1])
    } else if (0xb8 <= code && code <= 0xbf) || code == 0xfe {
        spec_cp(s, ops[1])
    } else if code == 0xc1 || code == 0xd1 || code == 0xe1 || code == 0xf1 {
        crate::cpu::addressing::spec_write16dst(
            (CpuView { sp: s.sp.wrapping_add(2), ..s }),
            ops[0],
            s.spec_read16(s.sp),
        )
    } else if code == 0xc5 || code == 0xd5 || code == 0xe5 || code == 0xf5 {
        s.spec_push(crate::cpu::addressing::spec_source_value(s, ops[0]))
    } else if code == 0xc3 || code == 0xe9 {
        spec_jp(s, ops[0])
    } else if code == 0xc2 || code == 0xca || code == 0xd2 || code == 0xda {
        spec_jpc(s, ops[0], ops[1])
    } else if code == 0xcd {
        spec_call(s, ops[0])
    } else if code == 0xc4 || code == 0xcc || code == 0xd4 || code == 0xdc {
        spec_callc(s, ops[0], ops[1])
    } else if code == 0xc9 {
        spec_ret(s)
    } else if code == 0xc0 || code == 0xc8 || code == 0xd0 || code == 0xd8 {
        spec_retc(s, ops[0])
    } else if code == 0xc7 || code == 0xcf || code == 0xd7 || code == 0xdf || code == 0xe7
        || code == 0xef || code == 0xf7 || code == 0xff {
        spec_rst(s, ops[0])
    } else if code == 0xd9 {
        spec_reti(s)
    } else if code == 0xf3 {
        CpuView { ime: false, ime_to_set: false, ..s }
    } else if code == 0xfb {
        CpuView { ime_to_set: true, ..s }
    } else {
        s
    }
}

/// What one CB-prefixed instruction does to the machine.
#[verifier::opaque]
pub open spec fn spec_exec_cb(s: CpuView, code: u8) -> CpuView {
    let ops = spec_operands_cb(code);
    if code <= 0x07 {
        spec_rlc(s, ops[0])
    } else if code <= 0x0f {
        spec_rrc(s, ops[0])
    } else if code <= 0x17 {
        spec_rl(s, ops[0])
    } else if code <= 0x1f {
        spec_rr(s, ops[0])
    } else if code <= 0x27 {
        spec_sla(s, ops[0])
    } else if code <= 0x2f {
        spec_sra(s, ops[0])
    } else if code <= 0x37 {
        spec_swap(s, ops[0])
    } else if code <= 0x3f {
        spec_srl(s, ops[0])
    } else if code <= 0x7f {
        spec_bit(s, ops[0], ops[1])
    } else if code <= 0xbf {
        spec_res_bit(s, ops[0], ops[1])
    } else {
        spec_set_bit(s, ops[0], ops[1])
    }
}

impl CPU {
    /// Execute one unprefixed instruction, PC already advanced past it.
    pub fn decode(&mut self, opcode: &Opcode)
        requires
            old(self).wf(),
            opcode.operands@ == spec_operands_un(opcode.code),
            !spec_illegal(opcode.code),
            opcode.code != 0xcb,
        ensures
            final(self).wf(),
            final(self)@ == spec_exec_un(old(self)@, opcode.code),
    {
        proof {
            reveal(spec_exec_un);
            reveal(crate::cpu::optable::spec_operands_un);
        }
        let code = opcode.code;
        let operands = &opcode.operands;

        if code == 0x00 {
            // NOP
        } else if code == 0x10 {
            // STOP waits like HALT and resumes on the same condition
            self.halted = true;
        } else if code == 0x76 {
            self.halt();
        } else if code == 0xf8 {
            let o2 = operands[2];
            self.ld_sp_sign(&o2);
        } else if code == 0x22 || code == 0x2a {
            let o0 = operands[0];
            let o1 = operands[1];
            self.ldi(&o0, &o1);
        } else if code == 0x32 || code == 0x3a {
            let o0 = operands[0];
            let o1 = operands[1];
            self.ldd(&o0, &o1);
        } else if code == 0xe2 {
            self.ld_a_to_io_in_c_reg();
        } else if code == 0xf2 {
            self.ld_io_in_c_reg_to_a();
        } else if code == 0x01 || code == 0x02 || code == 0x06 || code == 0x08 || code == 0x0a
            || code == 0x0e || code == 0x11 || code == 0x12 || code == 0x16 || code == 0x1a
            || code == 0x1e || code == 0x21 || code == 0x26 || code == 0x2e || code == 0x31
            || code == 0x36 || code == 0x3e || code == 0xea || code == 0xfa || code == 0xf9
            || code == 0xe0 || code == 0xf0 || (0x40 <= code && code <= 0x7f) {
            let o0 = operands[0];
            let o1 = operands[1];
            self.ld(&o0, &o1);
        } else if code == 0x03 || code == 0x04 || code == 0x0c || code == 0x13 || code == 0x14
            || code == 0x1c || code == 0x23 || code == 0x24 || code == 0x2c || code == 0x33
            || code == 0x34 || code == 0x3c {
            let o0 = operands[0];
            self.inc(&o0);
        } else if code == 0x05 || code == 0x0b || code == 0x0d || code == 0x15 || code == 0x1b
            || code == 0x1d || code == 0x25 || code == 0x2b || code == 0x2d || code == 0x35
            || code == 0x3b || code == 0x3d {
            let o0 = operands[0];
            self.dec(&o0);
        } else if (0x80 <= code && code <= 0x87) || code == 0xc6 {
            let o1 = operands[1];
            self.add(&o1);
        } else if code == 0x09 || code == 0x19 || code == 0x29 || code == 0x39 {
            let o1 = operands[1];
            self.add_16(&o1);
        } else if code == 0xe8 {
            let o1 = operands[1];
            self.add_sp_sign(&o1);
        } else if code == 0x18 {
            let o0 = operands[0];
            self.jr(&o0);
        } else if code == 0x20 || code == 0x28 || code == 0x30 || code == 0x38 {
            let o0 = operands[0];
            let o1 = operands[1];
            self.jrc(&o0, &o1);
        } else if code == 0x07 {
            self.rlca();
        } else if code == 0x17 {
            self.rla();
        } else if code == 0x0f {
            self.rrca();
        } else if code == 0x1f {
            self.rra();
        } else if code == 0x27 {
            self.daa();
        } else if code == 0x2f {
            self.cpl();
        } else if code == 0x37 {
            self.scf();
        } else if code == 0x3f {
            self.ccf();
        } else if (0x88 <= code && code <= 0x8f) || code == 0xce {
            let o1 = operands[1];
            self.adc(&o1);
        } else if (0x90 <= code && code <= 0x97) || code == 0xd6 {
            let o1 = operands[1];
            self.sub(&o1);
        } else if (0x98 <= code && code <= 0x9f) || code == 0xde {
            let o1 = operands[1];
            self.sbc(&o1);
        } else if (0xa0 <= code && code <= 0xa7) || code == 0xe6 {
            let o1 = operands[1];
            self.and(&o1);
        } else if (0xa8 <= code && code <= 0xaf) || code == 0xee {
            let o1 = operands[1];
            self.xor(&o1);
        } else if (0xb0 <= code && code <= 0xb7) || code == 0xf6 {
            let o1 = operands[1];
            self.or(&o1);
        } else if (0xb8 <= code && code <= 0xbf) || code == 0xfe {
            let o1 = operands[1];
            self.cp(&o1);
        } else if code == 0xc1 || code == 0xd1 || code == 0xe1 || code == 0xf1 {
            let o0 = operands[0];
            self.pop(&o0);
        } else if code == 0xc5 || code == 0xd5 || code == 0xe5 || code == 0xf5 {
            let o0 = operands[0];
            self.push(&o0);
        } else if code == 0xc3 || code == 0xe9 {
            let o0 = operands[0];
            self.jp(&o0);
        } else if code == 0xc2 || code == 0xca || code == 0xd2 || code == 0xda {
            let o0 = operands[0];
            let o1 = operands[1];
            self.jpc(&o0, &o1);
        } else if code == 0xcd {
            let o0 = operands[0];
            self.call(&o0);
        } else if code == 0xc4 || code == 0xcc || code == 0xd4 || code == 0xdc {
            let o0 = operands[0];
            let o1 = operands[1];
            self.callc(&o0, &o1);
        } else if code == 0xc9 {
            self.ret();
        } else if code == 0xc0 || code == 0xc8 || code == 0xd0 || code == 0xd8 {
            let o0 = operands[0];
            self.retc(&o0);
        } else if code == 0xc7 || code == 0xcf || code == 0xd7 || code == 0xdf || code == 0xe7
            || code == 0xef || code == 0xf7 || code == 0xff {
            let o0 = operands[0];
            self.rst(&o0);
        } else if code == 0xd9 {
            self.reti();
        } else if code == 0xf3 {
            self.di();
        } else if code == 0xfb {
            self.ei();
        } else {
            // unreachable: the remaining codes are the illegal ones
        }
    }

    /// Execute one CB-prefixed instruction.
    pub fn cb_decode(&mut self, opcode: &Opcode)
        requires
            old(self).wf(),
            opcode.operands@ == spec_operands_cb(opcode.code),
        ensures
            final(self).wf(),
            final(self)@ == spec_exec_cb(old(self)@, opcode.code),
    {
        let code = opcode.code;
        let operands = &opcode.operands;

        proof {
            reveal(spec_exec_cb);
            reveal(crate::cpu::optable::spec_operands_cb);
            let c = code;
            assert((c >> 3) & 0x07 < 8) by (bit_vector);
        }

        if code <= 0x07 {
            let o0 = operands[0];
            self.rlc(&o0);
        } else if code <= 0x0f {
            let o0 = operands[0];
            self.rrc(&o0);
        } else if code <= 0x17 {
            let o0 = operands[0];
            self.rl(&o0);
        } else if code <= 0x1f {
            let o0 = operands[0];
            self.rr(&o0);
        } else if code <= 0x27 {
            let o0 = operands[0];
            self.sla(&o0);
        } else if code <= 0x2f {
            let o0 = operands[0];
            self.sra(&o0);
        } else if code <= 0x37 {
            let o0 = operands[0];
            self.swap(&o0);
        } else if code <= 0x3f {
            let o0 = operands[0];
            self.srl(&o0);
        } else if code <= 0x7f {
            let o0 = operands[0];
            let o1 = operands[1];
            self.bit(&o0, &o1);
        } else if code <= 0xbf {
            let o0 = operands[0];
            let o1 = operands[1];
            self.res(&o0, &o1);
        } else {
            let o0 = operands[0];
            let o1 = operands[1];
            self.set(&o0, &o1);
        }
    }
}

} // verus!
