//! Operand model: every instruction names its operands as register,
//! condition, literal, bit index or restart vector, each either immediate or
//! dereferenced through memory; resolving one is a pure function of the
//! register file and the instruction bytes behind PC.

use vstd::prelude::*;
use crate::cpu::{CPU, CpuView, Flags};

verus! {

pub struct Opcode {
    pub code: u8,
    pub name: &'static str,
    pub bytes: u8,
    /// (branch-taken cost, branch-not-taken cost); the second is zero for
    /// unconditional instructions.
    pub cycles: (u8, u8),
    pub immediate: bool,
    pub operands: Vec<Operand>,
}

#[derive(Debug, Clone, Copy, PartialEq, Eq, Structural)]
pub struct Operand {
    pub kind: OperandType,
    /// When false the resolved value is an address and the operand lives in
    /// memory behind it.
    pub immediate: bool,
}

#[derive(Debug, Clone, Copy, PartialEq, Eq, Structural)]
pub enum OperandType {
    Register(RegisterOperand),
    Condition(ConditionOperand),
    Literal(LiteralOperand),
    Interrupt(u8),
    Bit(u8),
}

#[derive(Debug, Clone, Copy, PartialEq, Eq, Structural)]
pub enum RegisterOperand {
    A,
    B,
    C,
    D,
    E,
    F,
    H,
    L,
    AF,
    BC,
    DE,
    HL,
    SP,
}

#[derive(Debug, Clone, Copy, PartialEq, Eq, Structural)]
pub enum ConditionOperand {
    Z,
    NZ,
    CY,
    NC,
}

#[derive(Debug, Clone, Copy, PartialEq, Eq, Structural)]
#[allow(non_camel_case_types)]
pub enum LiteralOperand {
    n8,
    n16,
    a8,
    a16,
    e8,
}

impl Operand {
    /// An operand that resolves to a 16-bit value rather than an 8-bit one.
    pub open spec fn spec_is_16(self) -> bool {
        if !self.immediate {
            false
        } else {
            match self.kind {
                OperandType::Register(reg) => reg == RegisterOperand::AF || reg
                    == RegisterOperand::BC || reg == RegisterOperand::DE || reg
                    == RegisterOperand::HL || reg == RegisterOperand::SP,
                OperandType::Literal(lit) => lit == LiteralOperand::a16 || lit
                    == LiteralOperand::n16,
                _ => false,
            }
        }
    }

    pub fn is_value_16(&self) -> (r: bool)
        ensures
            r == self.spec_is_16(),
    {
        if !self.immediate {
            return false;
        }
        match self.kind {
            OperandType::Register(reg) => match reg {
                RegisterOperand::AF | RegisterOperand::BC | RegisterOperand::DE
                    | RegisterOperand::HL | RegisterOperand::SP => true,
                _ => false,
            },
            OperandType::Literal(lit) => match lit {
                LiteralOperand::a16 | LiteralOperand::n16 => true,
                _ => false,
            },
            _ => false,
        }
    }

    /// A shape that an 8-bit write accepts: an 8-bit register or a literal
    /// 16-bit address when direct, an address-holding pair or literal address
    /// when indirect.
    pub open spec fn spec_valid_dst8(self) -> bool {
        if self.immediate {
            match self.kind {
                OperandType::Register(reg) => reg != RegisterOperand::AF && reg
                    != RegisterOperand::BC && reg != RegisterOperand::DE && reg
                    != RegisterOperand::HL && reg != RegisterOperand::SP,
                OperandType::Literal(lit) => lit == LiteralOperand::a16,
                _ => false,
            }
        } else {
            match self.kind {
                OperandType::Register(reg) => reg == RegisterOperand::AF || reg
                    == RegisterOperand::BC || reg == RegisterOperand::DE || reg
                    == RegisterOperand::HL,
                OperandType::Literal(lit) => lit == LiteralOperand::a8 || lit
                    == LiteralOperand::a16,
                _ => false,
            }
        }
    }

    /// A shape that a 16-bit write accepts: a register pair, SP, or a literal
    /// 16-bit address.
    pub open spec fn spec_valid_dst16(self) -> bool {
        match self.kind {
            OperandType::Register(reg) => reg == RegisterOperand::AF || reg == RegisterOperand::BC
                || reg == RegisterOperand::DE || reg == RegisterOperand::HL || reg
                == RegisterOperand::SP,
            OperandType::Literal(lit) => lit == LiteralOperand::a16,
            _ => false,
        }
    }
}

/// The raw value an operand kind names, before any dereference: register
/// contents, a 0/1 condition, the instruction's own bytes (PC has already
/// passed the whole instruction), a bit index or a vector.
pub open spec fn spec_raw_value(s: CpuView, op: Operand) -> u16 {
    match op.kind {
        OperandType::Register(reg) => match reg {
            RegisterOperand::A => s.a as u16,
            RegisterOperand::B => s.b as u16,
            RegisterOperand::C => s.c as u16,
            RegisterOperand::D => s.d as u16,
            RegisterOperand::E => s.e as u16,
            RegisterOperand::F => s.f.spec_bits() as u16,
            RegisterOperand::H => s.h as u16,
            RegisterOperand::L => s.l as u16,
            RegisterOperand::AF => s.af(),
            RegisterOperand::BC => s.bc(),
            RegisterOperand::DE => s.de(),
            RegisterOperand::HL => s.hl(),
            RegisterOperand::SP => s.sp,
        },
        OperandType::Condition(cond) => match cond {
            ConditionOperand::CY => if s.f.c {
                1
            } else {
                0
            },
            ConditionOperand::NC => if s.f.c {
                0
            } else {
                1
            },
            ConditionOperand::Z => if s.f.z {
                1
            } else {
                0
            },
            ConditionOperand::NZ => if s.f.z {
                0
            } else {
                1
            },
        },
        OperandType::Literal(lit) => match lit {
            LiteralOperand::n8 => s.bus.spec_read(s.pc.wrapping_sub(1)) as u16,
            LiteralOperand::e8 => s.bus.spec_read(s.pc.wrapping_sub(1)) as u16,
            LiteralOperand::a8 => (0xff00 + s.bus.spec_read(s.pc.wrapping_sub(1)) as u16) as u16,
            LiteralOperand::n16 => s.spec_read16(s.pc.wrapping_sub(2)),
            LiteralOperand::a16 => s.spec_read16(s.pc.wrapping_sub(2)),
        },
        OperandType::Interrupt(v) => v as u16,
        OperandType::Bit(b) => b as u16,
    }
}

/// What reading an operand yields: the raw value, dereferenced through the
/// bus when the operand is not immediate.
pub open spec fn spec_source_value(s: CpuView, op: Operand) -> u16 {
    let raw = spec_raw_value(s, op);
    if op.immediate {
        raw
    } else {
        s.bus.spec_read(raw) as u16
    }
}

/// The machine after an 8-bit write to a destination operand.
pub open spec fn spec_write8(s: CpuView, dst: Operand, data: u8) -> CpuView {
    if dst.immediate {
        match dst.kind {
            OperandType::Register(reg) => match reg {
                RegisterOperand::A => CpuView { a: data, ..s },
                RegisterOperand::B => CpuView { b: data, ..s },
                RegisterOperand::C => CpuView { c: data, ..s },
                RegisterOperand::D => CpuView { d: data, ..s },
                RegisterOperand::E => CpuView { e: data, ..s },
                RegisterOperand::F => CpuView { f: Flags::spec_new(data), ..s },
                RegisterOperand::H => CpuView { h: data, ..s },
                RegisterOperand::L => CpuView { l: data, ..s },
                _ => s,
            },
            OperandType::Literal(_) => CpuView {
                bus: s.bus.spec_write(s.spec_read16(s.pc.wrapping_sub(2)), data),
                ..s
            },
            _ => s,
        }
    } else {
        let addr = match dst.kind {
            OperandType::Register(reg) => match reg {
                RegisterOperand::AF => s.af(),
                RegisterOperand::BC => s.bc(),
                RegisterOperand::DE => s.de(),
                _ => s.hl(),
            },
            OperandType::Literal(lit) => match lit {
                LiteralOperand::a8 => (0xff00 + s.bus.spec_read(s.pc.wrapping_sub(1)) as u16)
                    as u16,
                _ => s.spec_read16(s.pc.wrapping_sub(2)),
            },
            _ => 0u16,
        };
        CpuView { bus: s.bus.spec_write(addr, data), ..s }
    }
}

/// The machine after a 16-bit write to a destination operand.
pub open spec fn spec_write16dst(s: CpuView, dst: Operand, data: u16) -> CpuView {
    match dst.kind {
        OperandType::Register(reg) => match reg {
            RegisterOperand::AF => CpuView {
                a: crate::cpu::hi8(data),
                f: Flags::spec_new(crate::cpu::lo8(data)),
                ..s
            },
            RegisterOperand::BC => CpuView {
                b: crate::cpu::hi8(data),
                c: crate::cpu::lo8(data),
                ..s
            },
            RegisterOperand::DE => CpuView {
                d: crate::cpu::hi8(data),
                e: crate::cpu::lo8(data),
                ..s
            },
            RegisterOperand::HL => CpuView {
                h: crate::cpu::hi8(data),
                l: crate::cpu::lo8(data),
                ..s
            },
            _ => CpuView { sp: data, ..s },
        },
        _ => s.spec_write16(s.spec_read16(s.pc.wrapping_sub(2)), data),
    }
}

impl CPU {
    /// Resolve a source operand to its value.
    pub fn get_from_source(&self, src: &Operand) -> (r: u16)
        requires
            self.wf(),
        ensures
            r == spec_source_value(self@, *src),
    {
        let data_to_get: u16 = match src.kind {
            OperandType::Register(reg) => match reg {
                RegisterOperand::A => self.a as u16,
                RegisterOperand::B => self.b as u16,
                RegisterOperand::C => self.c as u16,
                RegisterOperand::D => self.d as u16,
                RegisterOperand::E => self.e as u16,
                RegisterOperand::F => self.f.bits() as u16,
                RegisterOperand::H => self.h as u16,
                RegisterOperand::L => self.l as u16,
                RegisterOperand::AF => self.get_af(),
                RegisterOperand::BC => self.get_bc(),
                RegisterOperand::DE => self.get_de(),
                RegisterOperand::HL => self.get_hl(),
                RegisterOperand::SP => self.sp,
            },
            OperandType::Condition(cond) => {
                let hold = match cond {
                    ConditionOperand::CY => self.f.c,
                    ConditionOperand::NC => !self.f.c,
                    ConditionOperand::Z => self.f.z,
                    ConditionOperand::NZ => !self.f.z,
                };
                if hold {
                    1
                } else {
                    0
                }
            },
            OperandType::Literal(lit) => match lit {
                LiteralOperand::n8 | LiteralOperand::e8 => self.mem_read(
                    self.pc.wrapping_sub(1),
                ) as u16,
                LiteralOperand::a8 => 0xff00 + self.mem_read(self.pc.wrapping_sub(1)) as u16,
                LiteralOperand::n16 | LiteralOperand::a16 => self.mem_read_16(
                    self.pc.wrapping_sub(2),
                ),
            },
            OperandType::Interrupt(v) => v as u16,
            OperandType::Bit(b) => b as u16,
        };

        if src.immediate {
            data_to_get
        } else {
            self.mem_read(data_to_get) as u16
        }
    }

    /// Write an 8-bit value to a destination operand.
    pub fn set_to_destination(&mut self, dst: &Operand, data: u8)
        requires
            old(self).wf(),
            dst.spec_valid_dst8(),
        ensures
            final(self).wf(),
            final(self)@ == spec_write8(old(self)@, *dst, data),
    {
        if dst.immediate {
            self.set_to_destination_direct(dst, data);
        } else {
            self.set_to_destination_indirect(dst, data);
        }
    }

    fn set_to_destination_direct(&mut self, dst: &Operand, data: u8)
        requires
            old(self).wf(),
            dst.immediate,
            dst.spec_valid_dst8(),
        ensures
            final(self).wf(),
            final(self)@ == spec_write8(old(self)@, *dst, data),
    {
        match dst.kind {
            OperandType::Register(reg) => match reg {
                RegisterOperand::A => self.a = data,
                RegisterOperand::B => self.b = data,
                RegisterOperand::C => self.c = data,
                RegisterOperand::D => self.d = data,
                RegisterOperand::E => self.e = data,
                RegisterOperand::F => self.f = Flags::new(data),
                RegisterOperand::H => self.h = data,
                RegisterOperand::L => self.l = data,
                _ => (),
            },
            OperandType::Literal(_) => {
                let addr = self.mem_read_16(self.pc.wrapping_sub(2));
                self.mem_write(addr, data);
            },
            _ => (),
        }
    }

    fn set_to_destination_indirect(&mut self, dst: &Operand, data: u8)
        requires
            old(self).wf(),
            !dst.immediate,
            dst.spec_valid_dst8(),
        ensures
            final(self).wf(),
            final(self)@ == spec_write8(old(self)@, *dst, data),
    {
        let addr: u16 = match dst.kind {
            OperandType::Register(reg) => match reg {
                RegisterOperand::AF => self.get_af(),
                RegisterOperand::BC => self.get_bc(),
                RegisterOperand::DE => self.get_de(),
                _ => self.get_hl(),
            },
            OperandType::Literal(lit) => match lit {
                LiteralOperand::a8 => 0xff00 + self.mem_read(self.pc.wrapping_sub(1)) as u16,
                _ => self.mem_read_16(self.pc.wrapping_sub(2)),
            },
            _ => 0,
        };

        self.mem_write(addr, data);
    }

    /// Write a 16-bit value to a destination operand.
    pub fn set_to_destination_16(&mut self, dst: &Operand, data: u16)
        requires
            old(self).wf(),
            dst.spec_valid_dst16(),
        ensures
            final(self).wf(),
            final(self)@ == spec_write16dst(old(self)@, *dst, data),
    {
        match dst.kind {
            OperandType::Register(reg) => match reg {
                RegisterOperand::AF => self.set_af(data),
                RegisterOperand::BC => self.set_bc(data),
                RegisterOperand::DE => self.set_de(data),
                RegisterOperand::HL => self.set_hl(data),
                _ => self.sp = data,
            },
            _ => {
                let addr = self.mem_read_16(self.pc.wrapping_sub(2));
                self.mem_write_16(addr, data);
            },
        }
    }
}

} // verus!
