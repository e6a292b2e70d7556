//! The opcode table: immutable metadata for all unprefixed and CB-prefixed
//! encodings, computed from the code's bit fields rather than parsed at
//! startup. The key is the code byte, or `0xcb00 | code` for the CB set.

use vstd::prelude::*;
use crate::cpu::addressing::{Opcode, Operand, OperandType, RegisterOperand, ConditionOperand,
    LiteralOperand};

verus! {

/// The eleven unusable encodings; fetching one locks the processor.
pub open spec fn spec_illegal(code: u8) -> bool {
    code == 0xd3 || code == 0xdb || code == 0xdd || code == 0xe3 || code == 0xe4 || code == 0xeb
        || code == 0xec || code == 0xed || code == 0xf4 || code == 0xfc || code == 0xfd
}

pub fn is_illegal_opcode(code: u8) -> (r: bool)
    ensures
        r == spec_illegal(code),
{
    code == 0xd3 || code == 0xdb || code == 0xdd || code == 0xe3 || code == 0xe4 || code == 0xeb
        || code == 0xec || code == 0xed || code == 0xf4 || code == 0xfc || code == 0xfd
}

// Spec-level operand constructors.
pub open spec fn sop_r(reg: RegisterOperand) -> Operand {
    Operand { kind: OperandType::Register(reg), immediate: true }
}

pub open spec fn sop_ri(reg: RegisterOperand) -> Operand {
    Operand { kind: OperandType::Register(reg), immediate: false }
}

pub open spec fn sop_c(cond: ConditionOperand) -> Operand {
    Operand { kind: OperandType::Condition(cond), immediate: true }
}

pub open spec fn sop_l(lit: LiteralOperand) -> Operand {
    Operand { kind: OperandType::Literal(lit), immediate: true }
}

pub open spec fn sop_li(lit: LiteralOperand) -> Operand {
    Operand { kind: OperandType::Literal(lit), immediate: false }
}

pub open spec fn sop_b(n: u8) -> Operand {
    Operand { kind: OperandType::Bit(n), immediate: true }
}

pub open spec fn sop_v(v: u8) -> Operand {
    Operand { kind: OperandType::Interrupt(v), immediate: true }
}

/// The operand named by a three-bit register index: B C D E H L (HL) A.
pub open spec fn sreg8(i: u8) -> Operand {
    if i == 0 {
        sop_r(RegisterOperand::B)
    } else if i == 1 {
        sop_r(RegisterOperand::C)
    } else if i == 2 {
        sop_r(RegisterOperand::D)
    } else if i == 3 {
        sop_r(RegisterOperand::E)
    } else if i == 4 {
        sop_r(RegisterOperand::H)
    } else if i == 5 {
        sop_r(RegisterOperand::L)
    } else if i == 6 {
        sop_ri(RegisterOperand::HL)
    } else {
        sop_r(RegisterOperand::A)
    }
}

/// The register pair of a two-bit index in the SP group: BC DE HL SP.
pub open spec fn sreg16sp(p: u8) -> Operand {
    if p == 0 {
        sop_r(RegisterOperand::BC)
    } else if p == 1 {
        sop_r(RegisterOperand::DE)
    } else if p == 2 {
        sop_r(RegisterOperand::HL)
    } else {
        sop_r(RegisterOperand::SP)
    }
}

/// The register pair of a two-bit index in the AF group: BC DE HL AF.
pub open spec fn sreg16af(p: u8) -> Operand {
    if p == 0 {
        sop_r(RegisterOperand::BC)
    } else if p == 1 {
        sop_r(RegisterOperand::DE)
    } else if p == 2 {
        sop_r(RegisterOperand::HL)
    } else {
        sop_r(RegisterOperand::AF)
    }
}

/// The condition of a two-bit index: NZ Z NC C.
pub open spec fn scond(i: u8) -> Operand {
    if i == 0 {
        sop_c(ConditionOperand::NZ)
    } else if i == 1 {
        sop_c(ConditionOperand::Z)
    } else if i == 2 {
        sop_c(ConditionOperand::NC)
    } else {
        sop_c(ConditionOperand::CY)
    }
}

/// Instruction length in bytes for the unprefixed set.
#[verifier::opaque]
pub open spec fn spec_bytes_un(code: u8) -> u8 {
    if code == 0x06 || code == 0x0e || code == 0x16 || code == 0x1e || code == 0x26 || code
        == 0x2e || code == 0x36 || code == 0x3e || code == 0x10 || code == 0x18 || code == 0x20
        || code == 0x28 || code == 0x30 || code == 0x38 || code == 0xc6 || code == 0xce || code
        == 0xd6 || code == 0xde || code == 0xe6 || code == 0xee || code == 0xf6 || code == 0xfe
        || code == 0xe0 || code == 0xf0 || code == 0xe8 || code == 0xf8 {
        2
    } else if code == 0x01 || code == 0x11 || code == 0x21 || code == 0x31 || code == 0x08 || code
        == 0xc2 || code == 0xc3 || code == 0xc4 || code == 0xca || code == 0xcc || code == 0xcd
        || code == 0xd2 || code == 0xd4 || code == 0xda || code == 0xdc || code == 0xea || code
        == 0xfa {
        3
    } else {
        1
    }
}

/// Cycle cost pair (taken, not-taken) for the unprefixed set; the not-taken
/// entry is zero for unconditional instructions.
#[verifier::opaque]
pub open spec fn spec_cycles_un(code: u8) -> (u8, u8) {
    if 0x40 <= code && code <= 0xbf {
        if code == 0x76 {
            (4u8, 0u8)
        } else if code & 0x07 == 6 || (0x70 <= code && code <= 0x77) {
            (8u8, 0u8)
        } else {
            (4u8, 0u8)
        }
    } else if code == 0x20 || code == 0x28 || code == 0x30 || code == 0x38 {
        (12u8, 8u8)
    } else if code == 0xc2 || code == 0xca || code == 0xd2 || code == 0xda {
        (16u8, 12u8)
    } else if code == 0xc4 || code == 0xcc || code == 0xd4 || code == 0xdc {
        (24u8, 12u8)
    } else if code == 0xc0 || code == 0xc8 || code == 0xd0 || code == 0xd8 {
        (20u8, 8u8)
    } else if code == 0x01 || code == 0x11 || code == 0x21 || code == 0x31 || code == 0x34 || code
        == 0x35 || code == 0x36 || code == 0xc1 || code == 0xd1 || code == 0xe1 || code == 0xf1
        || code == 0xe0 || code == 0xf0 || code == 0xf8 || code == 0x18 {
        (12u8, 0u8)
    } else if code == 0x02 || code == 0x12 || code == 0x22 || code == 0x32 || code == 0x0a || code
        == 0x1a || code == 0x2a || code == 0x3a || code == 0x03 || code == 0x13 || code == 0x23
        || code == 0x33 || code == 0x0b || code == 0x1b || code == 0x2b || code == 0x3b || code
        == 0x09 || code == 0x19 || code == 0x29 || code == 0x39 || code == 0x06 || code == 0x0e
        || code == 0x16 || code == 0x1e || code == 0x26 || code == 0x2e || code == 0x3e || code
        == 0xc6 || code == 0xce || code == 0xd6 || code == 0xde || code == 0xe6 || code == 0xee
        || code == 0xf6 || code == 0xfe || code == 0xe2 || code == 0xf2 || code == 0xf9 {
        (8u8, 0u8)
    } else if code == 0xc5 || code == 0xd5 || code == 0xe5 || code == 0xf5 || code == 0xc7 || code
        == 0xcf || code == 0xd7 || code == 0xdf || code == 0xe7 || code == 0xef || code == 0xf7
        || code == 0xff || code == 0xc3 || code == 0xc9 || code == 0xd9 || code == 0xea || code
        == 0xfa || code == 0xe8 {
        (16u8, 0u8)
    } else if code == 0x08 {
        (20u8, 0u8)
    } else if code == 0xcd {
        (24u8, 0u8)
    } else {
        (4u8, 0u8)
    }
}

/// Cycle cost pair for the CB-prefixed set: 8 for registers, 16 for `(HL)`
/// except BIT, which reads only and costs 12.
#[verifier::opaque]
pub open spec fn spec_cycles_cb(code: u8) -> (u8, u8) {
    if code & 0x07 == 6 {
        if 0x40 <= code && code <= 0x7f {
            (12u8, 0u8)
        } else {
            (16u8, 0u8)
        }
    } else {
        (8u8, 0u8)
    }
}

/// The canonical operand list of an unprefixed code.
#[verifier::opaque]
pub open spec fn spec_operands_un(code: u8) -> Seq<Operand> {
    if code == 0x76 || code == 0x10 || code == 0x00 {
        seq![]
    } else if 0x40 <= code && code <= 0x7f {
        seq![sreg8((code >> 3) & 0x07), sreg8(code & 0x07)]
    } else if 0x80 <= code && code <= 0xbf {
        seq![sop_r(RegisterOperand::A), sreg8(code & 0x07)]
    } else if code == 0x01 || code == 0x11 || code == 0x21 || code == 0x31 {
        seq![sreg16sp((code >> 4) & 0x03), sop_l(LiteralOperand::n16)]
    } else if code == 0x02 || code == 0x12 {
        seq![
            sop_ri(
                if code == 0x02 {
                    RegisterOperand::BC
                } else {
                    RegisterOperand::DE
                },
            ),
            sop_r(RegisterOperand::A),
        ]
    } else if code == 0x0a || code == 0x1a {
        seq![
            sop_r(RegisterOperand::A),
            sop_ri(
                if code == 0x0a {
                    RegisterOperand::BC
                } else {
                    RegisterOperand::DE
                },
            ),
        ]
    } else if code == 0x22 || code == 0x32 {
        seq![sop_ri(RegisterOperand::HL), sop_r(RegisterOperand::A)]
    } else if code == 0x2a || code == 0x3a {
        seq![sop_r(RegisterOperand::A), sop_ri(RegisterOperand::HL)]
    } else if code == 0x06 || code == 0x0e || code == 0x16 || code == 0x1e || code == 0x26 || code
        == 0x2e || code == 0x36 || code == 0x3e {
        seq![sreg8((code >> 3) & 0x07), sop_l(LiteralOperand::n8)]
    } else if code == 0x08 {
        seq![sop_li(LiteralOperand::a16), sop_r(RegisterOperand::SP)]
    } else if code == 0x03 || code == 0x13 || code == 0x23 || code == 0x33 || code == 0x0b || code
        == 0x1b || code == 0x2b || code == 0x3b {
        seq![sreg16sp((code >> 4) & 0x03)]
    } else if code == 0x04 || code == 0x0c || code == 0x14 || code == 0x1c || code == 0x24 || code
        == 0x2c || code == 0x34 || code == 0x3c || code == 0x05 || code == 0x0d || code == 0x15
        || code == 0x1d || code == 0x25 || code == 0x2d || code == 0x35 || code == 0x3d {
        seq![sreg8((code >> 3) & 0x07)]
    } else if code == 0x09 || code == 0x19 || code == 0x29 || code == 0x39 {
        seq![sop_r(RegisterOperand::HL), sreg16sp((code >> 4) & 0x03)]
    } else if code == 0x18 {
        seq![sop_l(LiteralOperand::e8)]
    } else if code == 0x20 || code == 0x28 || code == 0x30 || code == 0x38 {
        seq![scond((code >> 3) & 0x03), sop_l(LiteralOperand::e8)]
    } else if code == 0xc6 || code == 0xce || code == 0xd6 || code == 0xde || code == 0xe6 || code
        == 0xee || code == 0xf6 || code == 0xfe {
        seq![sop_r(RegisterOperand::A), sop_l(LiteralOperand::n8)]
    } else if code == 0xc1 || code == 0xd1 || code == 0xe1 || code == 0xf1 || code == 0xc5 || code
        == 0xd5 || code == 0xe5 || code == 0xf5 {
        seq![sreg16af((code >> 4) & 0x03)]
    } else if code == 0xc3 {
        seq![sop_l(LiteralOperand::a16)]
    } else if code == 0xe9 {
        seq![sop_r(RegisterOperand::HL)]
    } else if code == 0xc2 || code == 0xca || code == 0xd2 || code == 0xda {
        seq![scond((code >> 3) & 0x03), sop_l(LiteralOperand::a16)]
    } else if code == 0xcd {
        seq![sop_l(LiteralOperand::a16)]
    } else if code == 0xc4 || code == 0xcc || code == 0xd4 || code == 0xdc {
        seq![scond((code >> 3) & 0x03), sop_l(LiteralOperand::a16)]
    } else if code == 0xc0 || code == 0xc8 || code == 0xd0 || code == 0xd8 {
        seq![scond((code >> 3) & 0x03)]
    } else if code == 0xc7 || code == 0xcf || code == 0xd7 || code == 0xdf || code == 0xe7 || code
        == 0xef || code == 0xf7 || code == 0xff {
        seq![sop_v(code & 0x38)]
    } else if code == 0xe0 {
        seq![sop_li(LiteralOperand::a8), sop_r(RegisterOperand::A)]
    } else if code == 0xf0 {
        seq![sop_r(RegisterOperand::A), sop_li(LiteralOperand::a8)]
    } else if code == 0xe2 {
        seq![sop_ri(RegisterOperand::C), sop_r(RegisterOperand::A)]
    } else if code == 0xf2 {
        seq![sop_r(RegisterOperand::A), sop_ri(RegisterOperand::C)]
    } else if code == 0xea {
        seq![sop_li(LiteralOperand::a16), sop_r(RegisterOperand::A)]
    } else if code == 0xfa {
        seq![sop_r(RegisterOperand::A), sop_li(LiteralOperand::a16)]
    } else if code == 0xe8 {
        seq![sop_r(RegisterOperand::SP), sop_l(LiteralOperand::e8)]
    } else if code == 0xf8 {
        seq![sop_r(RegisterOperand::HL), sop_r(RegisterOperand::SP), sop_l(LiteralOperand::e8)]
    } else if code == 0xf9 {
        seq![sop_r(RegisterOperand::SP), sop_r(RegisterOperand::HL)]
    } else {
        seq![]
    }
}

/// The canonical operand list of a CB-prefixed code.
#[verifier::opaque]
pub open spec fn spec_operands_cb(code: u8) -> Seq<Operand> {
    if code <= 0x3f {
        seq![sreg8(code & 0x07)]
    } else {
        seq![sop_b((code >> 3) & 0x07), sreg8(code & 0x07)]
    }
}

// Executable operand constructors.
fn op_r(reg: RegisterOperand) -> (r: Operand)
    ensures
        r == sop_r(reg),
{
    Operand { kind: OperandType::Register(reg), immediate: true }
}

fn op_ri(reg: RegisterOperand) -> (r: Operand)
    ensures
        r == sop_ri(reg),
{
    Operand { kind: OperandType::Register(reg), immediate: false }
}

fn op_c(cond: ConditionOperand) -> (r: Operand)
    ensures
        r == sop_c(cond),
{
    Operand { kind: OperandType::Condition(cond), immediate: true }
}

fn op_l(lit: LiteralOperand) -> (r: Operand)
    ensures
        r == sop_l(lit),
{
    Operand { kind: OperandType::Literal(lit), immediate: true }
}

fn op_li(lit: LiteralOperand) -> (r: Operand)
    ensures
        r == sop_li(lit),
{
    Operand { kind: OperandType::Literal(lit), immediate: false }
}

fn op_b(n: u8) -> (r: Operand)
    ensures
        r == sop_b(n),
{
    Operand { kind: OperandType::Bit(n), immediate: true }
}

fn op_v(v: u8) -> (r: Operand)
    ensures
        r == sop_v(v),
{
    Operand { kind: OperandType::Interrupt(v), immediate: true }
}

fn reg8(i: u8) -> (r: Operand)
    ensures
        r == sreg8(i),
{
    if i == 0 {
        op_r(RegisterOperand::B)
    } else if i == 1 {
        op_r(RegisterOperand::C)
    } else if i == 2 {
        op_r(RegisterOperand::D)
    } else if i == 3 {
        op_r(RegisterOperand::E)
    } else if i == 4 {
        op_r(RegisterOperand::H)
    } else if i == 5 {
        op_r(RegisterOperand::L)
    } else if i == 6 {
        op_ri(RegisterOperand::HL)
    } else {
        op_r(RegisterOperand::A)
    }
}

fn reg16sp(p: u8) -> (r: Operand)
    ensures
        r == sreg16sp(p),
{
    if p == 0 {
        op_r(RegisterOperand::BC)
    } else if p == 1 {
        op_r(RegisterOperand::DE)
    } else if p == 2 {
        op_r(RegisterOperand::HL)
    } else {
        op_r(RegisterOperand::SP)
    }
}

fn reg16af(p: u8) -> (r: Operand)
    ensures
        r == sreg16af(p),
{
    if p == 0 {
        op_r(RegisterOperand::BC)
    } else if p == 1 {
        op_r(RegisterOperand::DE)
    } else if p == 2 {
        op_r(RegisterOperand::HL)
    } else {
        op_r(RegisterOperand::AF)
    }
}

fn cond_of(i: u8) -> (r: Operand)
    ensures
        r == scond(i),
{
    if i == 0 {
        op_c(ConditionOperand::NZ)
    } else if i == 1 {
        op_c(ConditionOperand::Z)
    } else if i == 2 {
        op_c(ConditionOperand::NC)
    } else {
        op_c(ConditionOperand::CY)
    }
}

fn ops0() -> (v: Vec<Operand>)
    ensures
        v@ == Seq::<Operand>::empty(),
{
    let v: Vec<Operand> = Vec::new();
    proof {
        assert(v@ =~= Seq::<Operand>::empty());
    }
    v
}

fn ops1(a: Operand) -> (v: Vec<Operand>)
    ensures
        v@ == seq![a],
{
    let mut v: Vec<Operand> = Vec::new();
    v.push(a);
    proof {
        assert(v@ =~= seq![a]);
    }
    v
}

fn ops2(a: Operand, b: Operand) -> (v: Vec<Operand>)
    ensures
        v@ == seq![a, b],
{
    let mut v: Vec<Operand> = Vec::new();
    v.push(a);
    v.push(b);
    proof {
        assert(v@ =~= seq![a, b]);
    }
    v
}

fn ops3(a: Operand, b: Operand, c: Operand) -> (v: Vec<Operand>)
    ensures
        v@ == seq![a, b, c],
{
    let mut v: Vec<Operand> = Vec::new();
    v.push(a);
    v.push(b);
    v.push(c);
    proof {
        assert(v@ =~= seq![a, b, c]);
    }
    v
}

/// The operand list of an unprefixed code.
fn operands_un(code: u8) -> (v: Vec<Operand>)
    ensures
        v@ == spec_operands_un(code),
{
    proof { reveal(spec_operands_un); }

    if code == 0x76 || code == 0x10 || code == 0x00 {
        ops0()
    } else if 0x40 <= code && code <= 0x7f {
        ops2(reg8((code >> 3) & 0x07), reg8(code & 0x07))
    } else if 0x80 <= code && code <= 0xbf {
        ops2(op_r(RegisterOperand::A), reg8(code & 0x07))
    } else if code == 0x01 || code == 0x11 || code == 0x21 || code == 0x31 {
        ops2(reg16sp((code >> 4) & 0x03), op_l(LiteralOperand::n16))
    } else if code == 0x02 || code == 0x12 {
        ops2(
            op_ri(
                if code == 0x02 {
                    RegisterOperand::BC
                } else {
                    RegisterOperand::DE
                },
            ),
            op_r(RegisterOperand::A),
        )
    } else if code == 0x0a || code == 0x1a {
        ops2(
            op_r(RegisterOperand::A),
            op_ri(
                if code == 0x0a {
                    RegisterOperand::BC
                } else {
                    RegisterOperand::DE
                },
            ),
        )
    } else if code == 0x22 || code == 0x32 {
        ops2(op_ri(RegisterOperand::HL), op_r(RegisterOperand::A))
    } else if code == 0x2a || code == 0x3a {
        ops2(op_r(RegisterOperand::A), op_ri(RegisterOperand::HL))
    } else if code == 0x06 || code == 0x0e || code == 0x16 || code == 0x1e || code == 0x26 || code
        == 0x2e || code == 0x36 || code == 0x3e {
        ops2(reg8((code >> 3) & 0x07), op_l(LiteralOperand::n8))
    } else if code == 0x08 {
        ops2(op_li(LiteralOperand::a16), op_r(RegisterOperand::SP))
    } else if code == 0x03 || code == 0x13 || code == 0x23 || code == 0x33 || code == 0x0b || code
        == 0x1b || code == 0x2b || code == 0x3b {
        ops1(reg16sp((code >> 4) & 0x03))
    } else if code == 0x04 || code == 0x0c || code == 0x14 || code == 0x1c || code == 0x24 || code
        == 0x2c || code == 0x34 || code == 0x3c || code == 0x05 || code == 0x0d || code == 0x15
        || code == 0x1d || code == 0x25 || code == 0x2d || code == 0x35 || code == 0x3d {
        ops1(reg8((code >> 3) & 0x07))
    } else if code == 0x09 || code == 0x19 || code == 0x29 || code == 0x39 {
        ops2(op_r(RegisterOperand::HL), reg16sp((code >> 4) & 0x03))
    } else if code == 0x18 {
        ops1(op_l(LiteralOperand::e8))
    } else if code == 0x20 || code == 0x28 || code == 0x30 || code == 0x38 {
        ops2(cond_of((code >> 3) & 0x03), op_l(LiteralOperand::e8))
    } else if code == 0xc6 || code == 0xce || code == 0xd6 || code == 0xde || code == 0xe6 || code
        == 0xee || code == 0xf6 || code == 0xfe {
        ops2(op_r(RegisterOperand::A), op_l(LiteralOperand::n8))
    } else if code == 0xc1 || code == 0xd1 || code == 0xe1 || code == 0xf1 || code == 0xc5 || code
        == 0xd5 || code == 0xe5 || code == 0xf5 {
        ops1(reg16af((code >> 4) & 0x03))
    } else if code == 0xc3 {
        ops1(op_l(LiteralOperand::a16))
    } else if code == 0xe9 {
        ops1(op_r(RegisterOperand::HL))
    } else if code == 0xc2 || code == 0xca || code == 0xd2 || code == 0xda {
        ops2(cond_of((code >> 3) & 0x03), op_l(LiteralOperand::a16))
    } else if code == 0xcd {
        ops1(op_l(LiteralOperand::a16))
    } else if code == 0xc4 || code == 0xcc || code == 0xd4 || code == 0xdc {
        ops2(cond_of((code >> 3) & 0x03), op_l(LiteralOperand::a16))
    } else if code == 0xc0 || code == 0xc8 || code == 0xd0 || code == 0xd8 {
        ops1(cond_of((code >> 3) & 0x03))
    } else if code == 0xc7 || code == 0xcf || code == 0xd7 || code == 0xdf || code == 0xe7 || code
        == 0xef || code == 0xf7 || code == 0xff {
        ops1(op_v(code & 0x38))
    } else if code == 0xe0 {
        ops2(op_li(LiteralOperand::a8), op_r(RegisterOperand::A))
    } else if code == 0xf0 {
        ops2(op_r(RegisterOperand::A), op_li(LiteralOperand::a8))
    } else if code == 0xe2 {
        ops2(op_ri(RegisterOperand::C), op_r(RegisterOperand::A))
    } else if code == 0xf2 {
        ops2(op_r(RegisterOperand::A), op_ri(RegisterOperand::C))
    } else if code == 0xea {
        ops2(op_li(LiteralOperand::a16), op_r(RegisterOperand::A))
    } else if code == 0xfa {
        ops2(op_r(RegisterOperand::A), op_li(LiteralOperand::a16))
    } else if code == 0xe8 {
        ops2(op_r(RegisterOperand::SP), op_l(LiteralOperand::e8))
    } else if code == 0xf8 {
        ops3(
            op_r(RegisterOperand::HL),
            op_r(RegisterOperand::SP),
            op_l(LiteralOperand::e8),
        )
    } else if code == 0xf9 {
        ops2(op_r(RegisterOperand::SP), op_r(RegisterOperand::HL))
    } else {
        ops0()
    }
}

/// The operand list of a CB-prefixed code.
fn operands_cb(code: u8) -> (v: Vec<Operand>)
    ensures
        v@ == spec_operands_cb(code),
{
    proof { reveal(spec_operands_cb); }

    if code <= 0x3f {
        ops1(reg8(code & 0x07))
    } else {
        ops2(op_b((code >> 3) & 0x07), reg8(code & 0x07))
    }
}

fn bytes_un(code: u8) -> (r: u8)
    ensures
        r == spec_bytes_un(code),
{
    proof { reveal(spec_bytes_un); }

    if code == 0x06 || code == 0x0e || code == 0x16 || code == 0x1e || code == 0x26 || code
        == 0x2e || code == 0x36 || code == 0x3e || code == 0x10 || code == 0x18 || code == 0x20
        || code == 0x28 || code == 0x30 || code == 0x38 || code == 0xc6 || code == 0xce || code
        == 0xd6 || code == 0xde || code == 0xe6 || code == 0xee || code == 0xf6 || code == 0xfe
        || code == 0xe0 || code == 0xf0 || code == 0xe8 || code == 0xf8 {
        2
    } else if code == 0x01 || code == 0x11 || code == 0x21 || code == 0x31 || code == 0x08 || code
        == 0xc2 || code == 0xc3 || code == 0xc4 || code == 0xca || code == 0xcc || code == 0xcd
        || code == 0xd2 || code == 0xd4 || code == 0xda || code == 0xdc || code == 0xea || code
        == 0xfa {
        3
    } else {
        1
    }
}

fn cycles_un(code: u8) -> (r: (u8, u8))
    ensures
        r == spec_cycles_un(code),
{
    proof { reveal(spec_cycles_un); }

    if 0x40 <= code && code <= 0xbf {
        if code == 0x76 {
            (4, 0)
        } else if code & 0x07 == 6 || (0x70 <= code && code <= 0x77) {
            (8, 0)
        } else {
            (4, 0)
        }
    } else if code == 0x20 || code == 0x28 || code == 0x30 || code == 0x38 {
        (12, 8)
    } else if code == 0xc2 || code == 0xca || code == 0xd2 || code == 0xda {
        (16, 12)
    } else if code == 0xc4 || code == 0xcc || code == 0xd4 || code == 0xdc {
        (24, 12)
    } else if code == 0xc0 || code == 0xc8 || code == 0xd0 || code == 0xd8 {
        (20, 8)
    } else if code == 0x01 || code == 0x11 || code == 0x21 || code == 0x31 || code == 0x34 || code
        == 0x35 || code == 0x36 || code == 0xc1 || code == 0xd1 || code == 0xe1 || code == 0xf1
        || code == 0xe0 || code == 0xf0 || code == 0xf8 || code == 0x18 {
        (12, 0)
    } else if code == 0x02 || code == 0x12 || code == 0x22 || code == 0x32 || code == 0x0a || code
        == 0x1a || code == 0x2a || code == 0x3a || code == 0x03 || code == 0x13 || code == 0x23
        || code == 0x33 || code == 0x0b || code == 0x1b || code == 0x2b || code == 0x3b || code
        == 0x09 || code == 0x19 || code == 0x29 || code == 0x39 || code == 0x06 || code == 0x0e
        || code == 0x16 || code == 0x1e || code == 0x26 || code == 0x2e || code == 0x3e || code
        == 0xc6 || code == 0xce || code == 0xd6 || code == 0xde || code == 0xe6 || code == 0xee
        || code == 0xf6 || code == 0xfe || code == 0xe2 || code == 0xf2 || code == 0xf9 {
        (8, 0)
    } else if code == 0xc5 || code == 0xd5 || code == 0xe5 || code == 0xf5 || code == 0xc7 || code
        == 0xcf || code == 0xd7 || code == 0xdf || code == 0xe7 || code == 0xef || code == 0xf7
        || code == 0xff || code == 0xc3 || code == 0xc9 || code == 0xd9 || code == 0xea || code
        == 0xfa || code == 0xe8 {
        (16, 0)
    } else if code == 0x08 {
        (20, 0)
    } else if code == 0xcd {
        (24, 0)
    } else {
        (4, 0)
    }
}

fn cycles_cb(code: u8) -> (r: (u8, u8))
    ensures
        r == spec_cycles_cb(code),
{
    proof { reveal(spec_cycles_cb); }

    if code & 0x07 == 6 {
        if 0x40 <= code && code <= 0x7f {
            (12, 0)
        } else {
            (16, 0)
        }
    } else {
        (8, 0)
    }
}

/// The mnemonic family of an unprefixed code, for display.
fn name_un(code: u8) -> &'static str {
    if code == 0x00 {
        "NOP"
    } else if code == 0x10 {
        "STOP"
    } else if code == 0x76 {
        "HALT"
    } else if code == 0x27 {
        "DAA"
    } else if code == 0x2f {
        "CPL"
    } else if code == 0x37 {
        "SCF"
    } else if code == 0x3f {
        "CCF"
    } else if code == 0xf3 {
        "DI"
    } else if code == 0xfb {
        "EI"
    } else if code == 0xd9 {
        "RETI"
    } else if code == 0xc9 || code == 0xc0 || code == 0xc8 || code == 0xd0 || code == 0xd8 {
        "RET"
    } else if code == 0xcd || code == 0xc4 || code == 0xcc || code == 0xd4 || code == 0xdc {
        "CALL"
    } else if code == 0xc3 || code == 0xe9 || code == 0xc2 || code == 0xca || code == 0xd2 || code
        == 0xda {
        "JP"
    } else if code == 0x18 || code == 0x20 || code == 0x28 || code == 0x30 || code == 0x38 {
        "JR"
    } else if code == 0xc7 || code == 0xcf || code == 0xd7 || code == 0xdf || code == 0xe7 || code
        == 0xef || code == 0xf7 || code == 0xff {
        "RST"
    } else if code == 0xc1 || code == 0xd1 || code == 0xe1 || code == 0xf1 {
        "POP"
    } else if code == 0xc5 || code == 0xd5 || code == 0xe5 || code == 0xf5 {
        "PUSH"
    } else if 0x80 <= code && code <= 0x87 || code == 0xc6 {
        "ADD"
    } else if 0x88 <= code && code <= 0x8f || code == 0xce {
        "ADC"
    } else if 0x90 <= code && code <= 0x97 || code == 0xd6 {
        "SUB"
    } else if 0x98 <= code && code <= 0x9f || code == 0xde {
        "SBC"
    } else if 0xa0 <= code && code <= 0xa7 || code == 0xe6 {
        "AND"
    } else if 0xa8 <= code && code <= 0xaf || code == 0xee {
        "XOR"
    } else if 0xb0 <= code && code <= 0xb7 || code == 0xf6 {
        "OR"
    } else if 0xb8 <= code && code <= 0xbf || code == 0xfe {
        "CP"
    } else if code == 0x07 {
        "RLCA"
    } else if code == 0x17 {
        "RLA"
    } else if code == 0x0f {
        "RRCA"
    } else if code == 0x1f {
        "RRA"
    } else if code == 0x03 || code == 0x13 || code == 0x23 || code == 0x33 || code == 0x04 || code
        == 0x0c || code == 0x14 || code == 0x1c || code == 0x24 || code == 0x2c || code == 0x34
        || code == 0x3c {
        "INC"
    } else if code == 0x0b || code == 0x1b || code == 0x2b || code == 0x3b || code == 0x05 || code
        == 0x0d || code == 0x15 || code == 0x1d || code == 0x25 || code == 0x2d || code == 0x35
        || code == 0x3d {
        "DEC"
    } else if code == 0x09 || code == 0x19 || code == 0x29 || code == 0x39 || code == 0xe8 {
        "ADD"
    } else if is_illegal_opcode(code) {
        "ILLEGAL"
    } else {
        "LD"
    }
}


fn name_cb(code: u8) -> &'static str {
    if code <= 0x07 {
        "RLC"
    } else if code <= 0x0f {
        "RRC"
    } else if code <= 0x17 {
        "RL"
    } else if code <= 0x1f {
        "RR"
    } else if code <= 0x27 {
        "SLA"
    } else if code <= 0x2f {
        "SRA"
    } else if code <= 0x37 {
        "SWAP"
    } else if code <= 0x3f {
        "SRL"
    } else if code <= 0x7f {
        "BIT"
    } else if code <= 0xbf {
        "RES"
    } else {
        "SET"
    }
}

/// A CB-set key: the prefix byte in the high half.
pub open spec fn spec_is_cb_key(key: u16) -> bool {
    key >= 0x100
}

/// Look an instruction up by its table key: the code byte itself, or
/// `0xcb00 | code` for the CB-prefixed set.
pub fn opcode_lookup(key: u16) -> (op: Opcode)
    requires
        key <= 0xff || (0xcb00 <= key && key <= 0xcbff),
    ensures
        op.code == (key & 0xff) as u8,
        1 <= op.bytes <= 3,
        !spec_is_cb_key(key) ==> op.bytes == spec_bytes_un(op.code) && op.cycles
            == spec_cycles_un(op.code) && op.operands@ == spec_operands_un(op.code),
        spec_is_cb_key(key) ==> op.bytes == 2 && op.cycles == spec_cycles_cb(op.code)
            && op.operands@ == spec_operands_cb(op.code),
    {
        proof {
            reveal(spec_bytes_un);
        }
        let code = (key & 0xff) as u8;
        if key >= 0x100 {
            Opcode {
                code,
                name: name_cb(code),
                bytes: 2,
                cycles: cycles_cb(code),
                immediate: true,
                operands: operands_cb(code),
            }
        } else {
            Opcode {
                code,
                name: name_un(code),
                bytes: bytes_un(code),
                cycles: cycles_un(code),
                immediate: true,
                operands: operands_un(code),
            }
        }
    }

} // verus!
