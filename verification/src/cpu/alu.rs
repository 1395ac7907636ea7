//! The register-file computations of the instructions, as plain functions
//! from register values to register values.
use vstd::prelude::*;
use super::instructions::{Add16Target, ArithmeticTarget, Instruction, StackTargets};
use super::registers::{pair, RegFile};
use super::spec::{
    alu_add_hl, alu_apply, daa_spec, rotate_a, stack_pair, with_reg8, with_stack_pair, wrap16,
    wrap8,
};
use crate::wrap::lemma_wrap;

verus! {

pub fn pair_of(hi: u8, lo: u8) -> (v: u16)
    ensures
        v == pair(hi, lo),
{
    hi as u16 * 256 + lo as u16
}

/// The byte F of a register file.
pub fn f_of(r: RegFile) -> (f: u8)
    ensures
        f == r.f(),
{
    (if r.zf { 0x80u8 } else { 0 }) + (if r.nf { 0x40u8 } else { 0 }) + (if r.hf {
        0x20u8
    } else {
        0
    }) + (if r.cf { 0x10u8 } else { 0 })
}

pub fn with_bc(r: RegFile, v: u16) -> (o: RegFile)
    ensures
        o == r.with_bc(v),
{
    RegFile { b: (v / 256) as u8, c: (v % 256) as u8, ..r }
}

pub fn with_de(r: RegFile, v: u16) -> (o: RegFile)
    ensures
        o == r.with_de(v),
{
    RegFile { d: (v / 256) as u8, e: (v % 256) as u8, ..r }
}

pub fn with_hl(r: RegFile, v: u16) -> (o: RegFile)
    ensures
        o == r.with_hl(v),
{
    RegFile { h: (v / 256) as u8, l: (v % 256) as u8, ..r }
}

pub fn with_af(r: RegFile, v: u16) -> (o: RegFile)
    ensures
        o == r.with_af(v),
{
    let lo = (v % 256) as u8;
    RegFile {
        a: (v / 256) as u8,
        zf: lo >= 0x80,
        nf: lo % 0x80 >= 0x40,
        hf: lo % 0x40 >= 0x20,
        cf: lo % 0x20 >= 0x10,
        ..r
    }
}

pub fn stack_pair_of(r: RegFile, t: StackTargets) -> (v: u16)
    ensures
        v == stack_pair(r, t),
{
    match t {
        StackTargets::AF => pair_of(r.a, f_of(r)),
        StackTargets::BC => pair_of(r.b, r.c),
        StackTargets::DE => pair_of(r.d, r.e),
        StackTargets::HL => pair_of(r.h, r.l),
    }
}

pub fn with_stack_pair_of(r: RegFile, t: StackTargets, v: u16) -> (o: RegFile)
    ensures
        o == with_stack_pair(r, t, v),
{
    match t {
        StackTargets::AF => with_af(r, v),
        StackTargets::BC => with_bc(r, v),
        StackTargets::DE => with_de(r, v),
        StackTargets::HL => with_hl(r, v),
    }
}

/// An 8-bit register (A-L) written.
pub fn with_reg8_of(r: RegFile, t: ArithmeticTarget, v: u8) -> (o: RegFile)
    ensures
        o == with_reg8(r, t, v),
{
    match t {
        ArithmeticTarget::A => RegFile { a: v, ..r },
        ArithmeticTarget::B => RegFile { b: v, ..r },
        ArithmeticTarget::C => RegFile { c: v, ..r },
        ArithmeticTarget::D => RegFile { d: v, ..r },
        ArithmeticTarget::E => RegFile { e: v, ..r },
        ArithmeticTarget::H => RegFile { h: v, ..r },
        _ => RegFile { l: v, ..r },
    }
}

/// The arithmetic/logic operations on A and an operand.
pub fn alu_of(instr: Instruction, r: RegFile, v: u8) -> (o: RegFile)
    ensures
        o == alu_apply(instr, r, v),
{
    let a = r.a;
    let ci: u8 = if r.cf { 1 } else { 0 };
    match instr {
        Instruction::ADD(_) => {
            let sum = a as u16 + v as u16;
            proof {
                lemma_wrap(sum as int, 256);
            }
            let res = (sum % 256) as u8;
            RegFile { a: res, zf: res == 0, nf: false, hf: a % 16 + v % 16 > 15, cf: sum > 255, ..r }
        },
        Instruction::ADC(_) => {
            let sum = a as u16 + v as u16 + ci as u16;
            proof {
                lemma_wrap(sum as int, 256);
            }
            let res = (sum % 256) as u8;
            RegFile {
                a: res,
                zf: res == 0,
                nf: false,
                hf: a % 16 + v % 16 + ci > 15,
                cf: sum > 255,
                ..r
            }
        },
        Instruction::SUB(_) => {
            proof {
                lemma_wrap(a - v, 256);
            }
            let res = if a >= v { a - v } else { (a as u16 + 256 - v as u16) as u8 };
            RegFile { a: res, zf: res == 0, nf: true, hf: a % 16 < v % 16, cf: a < v, ..r }
        },
        Instruction::SBC(_) => {
            proof {
                lemma_wrap(a - v - ci, 256);
            }
            let res = if a as u16 >= v as u16 + ci as u16 {
                (a as u16 - v as u16 - ci as u16) as u8
            } else {
                (a as u16 + 256 - v as u16 - ci as u16) as u8
            };
            RegFile {
                a: res,
                zf: res == 0,
                nf: true,
                hf: a % 16 < v % 16 + ci,
                cf: (a as u16) < v as u16 + ci as u16,
                ..r
            }
        },
        Instruction::AND(_) => {
            let res = a & v;
            RegFile { a: res, zf: res == 0, nf: false, hf: true, cf: false, ..r }
        },
        Instruction::XOR(_) => {
            let res = a ^ v;
            RegFile { a: res, zf: res == 0, nf: false, hf: false, cf: false, ..r }
        },
        Instruction::OR(_) => {
            let res = a | v;
            RegFile { a: res, zf: res == 0, nf: false, hf: false, cf: false, ..r }
        },
        _ => {
            proof {
                lemma_wrap(a - v, 256);
            }
            let res = if a >= v { a - v } else { (a as u16 + 256 - v as u16) as u8 };
            RegFile { zf: res == 0, nf: true, hf: a % 16 < v % 16, cf: a < v, ..r }
        },
    }
}

/// ADD HL,rr.
pub fn add_hl_of(r: RegFile, v: u16) -> (o: RegFile)
    ensures
        o == alu_add_hl(r, v),
{
    let hl = pair_of(r.h, r.l);
    let sum = hl as u32 + v as u32;
    proof {
        lemma_wrap(sum as int, 0x10000);
    }
    let res = (sum % 0x10000) as u16;
    RegFile { nf: false, hf: hl % 4096 + v % 4096 > 4095, cf: sum > 0xFFFF, ..with_hl(r, res) }
}

/// The rotations of A.
pub fn rotate_of(instr: Instruction, r: RegFile) -> (o: RegFile)
    ensures
        o == rotate_a(instr, r),
{
    let a = r.a;
    let ci: u8 = if r.cf { 1 } else { 0 };
    let (res, co) = match instr {
        Instruction::RLCA => ((a % 128) * 2 + a / 128, a >= 128),
        Instruction::RLA => ((a % 128) * 2 + ci, a >= 128),
        Instruction::RRCA => (a / 2 + (a % 2) * 128, a % 2 == 1),
        _ => (a / 2 + ci * 128, a % 2 == 1),
    };
    RegFile { a: res, zf: false, nf: false, hf: false, cf: co, ..r }
}

/// DAA.
pub fn daa_of(r: RegFile) -> (o: RegFile)
    ensures
        o == daa_spec(r),
{
    let a = r.a;
    let low: u8 = if r.hf || (!r.nf && a % 16 > 9) { 0x06 } else { 0 };
    let carry = r.cf || (!r.nf && a > 0x99);
    let high: u8 = if carry { 0x60 } else { 0 };
    let adjust = low + high;
    proof {
        lemma_wrap(a - adjust, 256);
        lemma_wrap(a + adjust, 256);
    }
    let res = if r.nf {
        a.wrapping_sub(adjust)
    } else {
        a.wrapping_add(adjust)
    };
    RegFile { a: res, zf: res == 0, hf: false, cf: carry, ..r }
}

} // verus!
