//! The CPU as the contracts see it: its state, and what fetching,
//! the stack, each instruction and each step do to it.
use vstd::prelude::*;
use super::instructions::{
    decode_spec, Add16Target, ArithmeticTarget, BigLoadByteTarget, BigRegisterTarget, Instruction, JumpTest,
    LoadByteSource, LoadByteTarget, LoadType, StackTargets,
};
use super::registers::{hi_byte, lo_byte, pair, RegFile};
use crate::bus::spec::{
    bus_read, bus_read_word, bus_tick, bus_write, is_plain_ram, lemma_write_read, lemma_write_read_word,
    lemma_write_wf, BusState,
};

verus! {

pub struct CpuState {
    pub regs: RegFile,
    pub pc: u16,
    pub sp: u16,
    pub cycles: u64,
    pub bus: BusState,
    pub halted: bool,
    pub ime: bool,
    pub ime_scheduled: bool,
    pub ime_pending: bool,
    pub fetch_pc: u16,
    pub fetch_pc_valid: bool,
    pub halt_bug: bool,
    pub stopped: bool,
    pub last_cycle_timestamp: u8,
}

impl CpuState {
    pub open spec fn wf(self) -> bool {
        self.bus.wf()
    }

    /// The CPU at power-on, past the boot ROM: PC 0x0100, SP 0xFFFE.
    pub open spec fn power_on() -> CpuState {
        CpuState {
            regs: RegFile::zeroed(),
            pc: 0x0100,
            sp: 0xFFFE,
            cycles: 0,
            bus: BusState::power_on(),
            halted: false,
            ime: false,
            ime_scheduled: false,
            ime_pending: false,
            fetch_pc: 0,
            fetch_pc_valid: false,
            halt_bug: false,
            stopped: false,
            last_cycle_timestamp: 0,
        }
    }
}

/// An 8-bit value wrapped into 0..256.
pub open spec fn wrap8(x: int) -> u8 {
    (x % 0x100) as u8
}

/// A 16-bit value wrapped into 0..65536.
pub open spec fn wrap16(x: int) -> u16 {
    (x % 0x10000) as u16
}

/// A byte read as a signed offset.
pub open spec fn signed8(e: u8) -> int {
    if e < 128 {
        e as int
    } else {
        e - 256
    }
}

/// Starting an instruction: fetching continues at PC.
pub open spec fn begin_instruction(c: CpuState) -> CpuState {
    CpuState { fetch_pc: c.pc, fetch_pc_valid: true, ..c }
}

/// Ending an instruction: PC takes the address fetching reached.
pub open spec fn end_instruction(c: CpuState) -> CpuState {
    CpuState { pc: c.fetch_pc, fetch_pc_valid: false, ..c }
}

/// Fetching the next instruction byte. After the HALT bug the first fetch
/// does not advance the fetch address.
pub open spec fn fetch_byte(c: CpuState) -> (CpuState, u8) {
    let c1 = if !c.fetch_pc_valid { begin_instruction(c) } else { c };
    let v = bus_read(c1.bus, c1.fetch_pc);
    if c1.halt_bug {
        (CpuState { halt_bug: false, ..c1 }, v)
    } else {
        (CpuState { fetch_pc: wrap16(c1.fetch_pc + 1), ..c1 }, v)
    }
}

/// Fetching a little-endian word.
pub open spec fn fetch_word(c: CpuState) -> (CpuState, u16) {
    let (c1, lo) = fetch_byte(c);
    let (c2, hi) = fetch_byte(c1);
    (c2, pair(hi, lo))
}

/// Pushing a word: SP goes down by two, the high byte lands above the low byte.
pub open spec fn push_word(c: CpuState, v: u16) -> CpuState {
    let sp1 = wrap16(c.sp - 1);
    let b1 = bus_write(c.bus, sp1, hi_byte(v));
    let sp2 = wrap16(sp1 - 1);
    let b2 = bus_write(b1, sp2, lo_byte(v));
    CpuState { sp: sp2, bus: b2, ..c }
}

/// Popping a word: the low byte at SP, the high byte above it; SP goes up by two.
pub open spec fn pop_word(c: CpuState) -> (CpuState, u16) {
    let lo = bus_read(c.bus, c.sp);
    let sp1 = wrap16(c.sp + 1);
    let hi = bus_read(c.bus, sp1);
    (CpuState { sp: wrap16(sp1 + 1), ..c }, pair(hi, lo))
}

/// Whether a jump condition holds.
pub open spec fn condition(r: RegFile, t: JumpTest) -> bool {
    match t {
        JumpTest::NotZero => !r.zf,
        JumpTest::Zero => r.zf,
        JumpTest::NotCarry => !r.cf,
        JumpTest::Carry => r.cf,
        JumpTest::Always => true,
    }
}

/// Reading an 8-bit operand: a register, the byte at (HL), or the next
/// instruction byte.
pub open spec fn read_operand(c: CpuState, t: ArithmeticTarget) -> (CpuState, u8) {
    match t {
        ArithmeticTarget::A => (c, c.regs.a),
        ArithmeticTarget::B => (c, c.regs.b),
        ArithmeticTarget::C => (c, c.regs.c),
        ArithmeticTarget::D => (c, c.regs.d),
        ArithmeticTarget::E => (c, c.regs.e),
        ArithmeticTarget::H => (c, c.regs.h),
        ArithmeticTarget::L => (c, c.regs.l),
        ArithmeticTarget::HLI => (c, bus_read(c.bus, c.regs.hl())),
        ArithmeticTarget::D8 => fetch_byte(c),
    }
}

/// ADD: A + v; half carry out of bit 3, carry out of bit 7.
pub open spec fn alu_add(r: RegFile, v: u8) -> RegFile {
    let res = wrap8(r.a + v);
    RegFile { a: res, zf: res == 0, nf: false, hf: r.a % 16 + v % 16 > 15, cf: r.a + v > 255, ..r }
}

/// ADC: A + v + carry.
pub open spec fn alu_adc(r: RegFile, v: u8) -> RegFile {
    let ci: int = if r.cf { 1 } else { 0 };
    let res = wrap8(r.a + v + ci);
    RegFile {
        a: res,
        zf: res == 0,
        nf: false,
        hf: r.a % 16 + v % 16 + ci > 15,
        cf: r.a + v + ci > 255,
        ..r
    }
}

/// SUB: A - v; half borrow from bit 4, borrow when v exceeds A.
pub open spec fn alu_sub(r: RegFile, v: u8) -> RegFile {
    let res = wrap8(r.a - v);
    RegFile { a: res, zf: res == 0, nf: true, hf: r.a % 16 < v % 16, cf: r.a < v, ..r }
}

/// SBC: A - v - carry.
pub open spec fn alu_sbc(r: RegFile, v: u8) -> RegFile {
    let ci: int = if r.cf { 1 } else { 0 };
    let res = wrap8(r.a - v - ci);
    RegFile { a: res, zf: res == 0, nf: true, hf: r.a % 16 < v % 16 + ci, cf: r.a < v + ci, ..r }
}

/// The arithmetic/logic instructions on A and an 8-bit operand. CP sets
/// the flags of SUB and leaves A.
pub open spec fn alu_apply(i: Instruction, r: RegFile, v: u8) -> RegFile {
    match i {
        Instruction::ADD(_) => alu_add(r, v),
        Instruction::ADC(_) => alu_adc(r, v),
        Instruction::SUB(_) => alu_sub(r, v),
        Instruction::SBC(_) => alu_sbc(r, v),
        Instruction::AND(_) => {
            let res = r.a & v;
            RegFile { a: res, zf: res == 0, nf: false, hf: true, cf: false, ..r }
        },
        Instruction::XOR(_) => {
            let res = r.a ^ v;
            RegFile { a: res, zf: res == 0, nf: false, hf: false, cf: false, ..r }
        },
        Instruction::OR(_) => {
            let res = r.a | v;
            RegFile { a: res, zf: res == 0, nf: false, hf: false, cf: false, ..r }
        },
        _ => RegFile { a: r.a, ..alu_sub(r, v) },
    }
}

/// Arithmetic/logic operations take 4 cycles, 8 with an operand in memory
/// or in the instruction.
pub open spec fn operand_cycles(t: ArithmeticTarget) -> u8 {
    if t == ArithmeticTarget::HLI || t == ArithmeticTarget::D8 {
        8
    } else {
        4
    }
}

/// ADD HL,rr: carry out of bit 11 and out of bit 15; Z untouched.
pub open spec fn alu_add_hl(r: RegFile, v: u16) -> RegFile {
    let sum = r.hl() + v;
    RegFile {
        nf: false,
        hf: r.hl() % 4096 + v % 4096 > 4095,
        cf: sum > 0xFFFF,
        ..r.with_hl(wrap16(sum))
    }
}

pub open spec fn pair_value(c: CpuState, t: Add16Target) -> u16 {
    match t {
        Add16Target::BC => c.regs.bc(),
        Add16Target::DE => c.regs.de(),
        Add16Target::HL => c.regs.hl(),
        Add16Target::SP => c.sp,
    }
}

pub open spec fn with_pair(c: CpuState, t: Add16Target, v: u16) -> CpuState {
    match t {
        Add16Target::BC => CpuState { regs: c.regs.with_bc(v), ..c },
        Add16Target::DE => CpuState { regs: c.regs.with_de(v), ..c },
        Add16Target::HL => CpuState { regs: c.regs.with_hl(v), ..c },
        Add16Target::SP => CpuState { sp: v, ..c },
    }
}

/// The register an 8-bit register operand names, written.
pub open spec fn with_reg8(r: RegFile, t: ArithmeticTarget, v: u8) -> RegFile {
    match t {
        ArithmeticTarget::A => RegFile { a: v, ..r },
        ArithmeticTarget::B => RegFile { b: v, ..r },
        ArithmeticTarget::C => RegFile { c: v, ..r },
        ArithmeticTarget::D => RegFile { d: v, ..r },
        ArithmeticTarget::E => RegFile { e: v, ..r },
        ArithmeticTarget::H => RegFile { h: v, ..r },
        _ => RegFile { l: v, ..r },
    }
}

/// INC r / INC (HL): Z, N cleared, half carry out of bit 3; carry untouched.
pub open spec fn inc_spec(c: CpuState, t: ArithmeticTarget) -> CpuState {
    if t == ArithmeticTarget::D8 {
        c
    } else {
        let (c1, v) = read_operand(c, t);
        let nv = wrap8(v + 1);
        let flags = RegFile { zf: nv == 0, nf: false, hf: v % 16 == 15, ..c1.regs };
        if t == ArithmeticTarget::HLI {
            CpuState { bus: bus_write(c1.bus, c1.regs.hl(), nv), regs: flags, ..c1 }
        } else {
            CpuState { regs: with_reg8(flags, t, nv), ..c1 }
        }
    }
}

/// DEC r / DEC (HL): Z, N set, half borrow from bit 4; carry untouched.
pub open spec fn dec_spec(c: CpuState, t: ArithmeticTarget) -> CpuState {
    if t == ArithmeticTarget::D8 {
        c
    } else {
        let (c1, v) = read_operand(c, t);
        let nv = wrap8(v - 1);
        let flags = RegFile { zf: nv == 0, nf: true, hf: v % 16 == 0, ..c1.regs };
        if t == ArithmeticTarget::HLI {
            CpuState { bus: bus_write(c1.bus, c1.regs.hl(), nv), regs: flags, ..c1 }
        } else {
            CpuState { regs: with_reg8(flags, t, nv), ..c1 }
        }
    }
}

pub open spec fn stack_pair(r: RegFile, t: StackTargets) -> u16 {
    match t {
        StackTargets::AF => r.af(),
        StackTargets::BC => r.bc(),
        StackTargets::DE => r.de(),
        StackTargets::HL => r.hl(),
    }
}

pub open spec fn with_stack_pair(r: RegFile, t: StackTargets, v: u16) -> RegFile {
    match t {
        StackTargets::AF => r.with_af(v),
        StackTargets::BC => r.with_bc(v),
        StackTargets::DE => r.with_de(v),
        StackTargets::HL => r.with_hl(v),
    }
}

/// DAA: turns A back into two BCD digits after an addition (N clear) or a
/// subtraction (N set), from the half carry and carry flags.
pub open spec fn daa_spec(r: RegFile) -> RegFile {
    let a = r.a;
    let low: int = if r.hf || (!r.nf && a % 16 > 9) { 0x06 } else { 0 };
    let carry = r.cf || (!r.nf && a > 0x99);
    let high: int = if carry { 0x60 } else { 0 };
    let res = if r.nf { wrap8(a - (low + high)) } else { wrap8(a + low + high) };
    RegFile { a: res, zf: res == 0, hf: false, cf: carry, ..r }
}

/// The rotations of A: RLCA, RLA (through carry), RRCA, RRA (through
/// carry). They clear Z, N and H; carry takes the bit shifted out.
pub open spec fn rotate_a(i: Instruction, r: RegFile) -> RegFile {
    let a = r.a;
    let ci: int = if r.cf { 1 } else { 0 };
    let (res, co) = match i {
        Instruction::RLCA => (((a % 128) * 2 + a / 128) as u8, a >= 128),
        Instruction::RLA => (((a % 128) * 2 + ci) as u8, a >= 128),
        Instruction::RRCA => ((a / 2 + (a % 2) * 128) as u8, a % 2 == 1),
        _ => ((a / 2 + ci * 128) as u8, a % 2 == 1),
    };
    RegFile { a: res, zf: false, nf: false, hf: false, cf: co, ..r }
}

/// The source of an 8-bit load: a register, the byte at (HL), or the next
/// instruction byte.
pub open spec fn load_source_spec(c: CpuState, source: LoadByteSource) -> (CpuState, u8) {
    match source {
        LoadByteSource::A => (c, c.regs.a),
        LoadByteSource::B => (c, c.regs.b),
        LoadByteSource::C => (c, c.regs.c),
        LoadByteSource::D => (c, c.regs.d),
        LoadByteSource::E => (c, c.regs.e),
        LoadByteSource::H => (c, c.regs.h),
        LoadByteSource::L => (c, c.regs.l),
        LoadByteSource::HLI => (c, bus_read(c.bus, c.regs.hl())),
        LoadByteSource::D8 => fetch_byte(c),
    }
}

/// The destination of an 8-bit load written: a register or the byte at (HL).
pub open spec fn store_target_spec(c: CpuState, target: LoadByteTarget, v: u8) -> CpuState {
    match target {
        LoadByteTarget::A => CpuState { regs: RegFile { a: v, ..c.regs }, ..c },
        LoadByteTarget::B => CpuState { regs: RegFile { b: v, ..c.regs }, ..c },
        LoadByteTarget::C => CpuState { regs: RegFile { c: v, ..c.regs }, ..c },
        LoadByteTarget::D => CpuState { regs: RegFile { d: v, ..c.regs }, ..c },
        LoadByteTarget::E => CpuState { regs: RegFile { e: v, ..c.regs }, ..c },
        LoadByteTarget::H => CpuState { regs: RegFile { h: v, ..c.regs }, ..c },
        LoadByteTarget::L => CpuState { regs: RegFile { l: v, ..c.regs }, ..c },
        LoadByteTarget::HLI => CpuState { bus: bus_write(c.bus, c.regs.hl(), v), ..c },
    }
}

/// LD r,r' and its forms with (HL) and d8: 4 cycles, 8 with memory or an
/// immediate, 12 for LD (HL),d8.
pub open spec fn load_r8_spec(c: CpuState, target: LoadByteTarget, source: LoadByteSource) -> (
    CpuState,
    u8,
) {
    let (c1, v) = load_source_spec(c, source);
    let mem = target == LoadByteTarget::HLI || source == LoadByteSource::HLI || source
        == LoadByteSource::D8;
    let cycles: u8 = if target == LoadByteTarget::HLI && source == LoadByteSource::D8 {
        12
    } else if mem {
        8
    } else {
        4
    };
    (store_target_spec(c1, target, v), cycles)
}

/// The 16-bit loads.
pub open spec fn load_r16_spec(c: CpuState, lt: LoadType) -> (CpuState, u8) {
    match lt {
        LoadType::D16toR16(target) => {
            let (c1, v) = fetch_word(c);
            let c2 = match target {
                BigLoadByteTarget::AF => CpuState { regs: c1.regs.with_af(v), ..c1 },
                BigLoadByteTarget::BC => CpuState { regs: c1.regs.with_bc(v), ..c1 },
                BigLoadByteTarget::DE => CpuState { regs: c1.regs.with_de(v), ..c1 },
                BigLoadByteTarget::HL => CpuState { regs: c1.regs.with_hl(v), ..c1 },
                BigLoadByteTarget::SP => CpuState { sp: v, ..c1 },
            };
            (c2, 12)
        },
        LoadType::HLtoSP => (CpuState { sp: c.regs.hl(), ..c }, 8),
        LoadType::SPtoA16 => {
            let (c1, addr) = fetch_word(c);
            let b1 = bus_write(c1.bus, addr, lo_byte(c1.sp));
            let b2 = bus_write(b1, wrap16(addr + 1), hi_byte(c1.sp));
            (CpuState { bus: b2, ..c1 }, 20)
        },
        LoadType::R16toSP(source) => {
            let v = match source {
                BigRegisterTarget::AF => c.regs.af(),
                BigRegisterTarget::BC => c.regs.bc(),
                BigRegisterTarget::DE => c.regs.de(),
                BigRegisterTarget::HL => c.regs.hl(),
            };
            (CpuState { sp: v, ..c }, 8)
        },
        _ => {
            let (c1, e) = fetch_byte(c);
            let sp = c1.sp;
            let r = c1.regs.with_hl(wrap16(sp + signed8(e)));
            (
                CpuState {
                    regs: RegFile {
                        zf: false,
                        nf: false,
                        cf: sp % 256 + e > 0xFF,
                        hf: sp % 16 + e % 16 > 0x0F,
                        ..r
                    },
                    ..c1
                },
                12,
            )
        },
    }
}

/// LD (HL+),A, LD A,(HL+), LD (HL-),A and LD A,(HL-).
pub open spec fn load_hl_spec(c: CpuState, lt: LoadType) -> (CpuState, u8) {
    let hl = c.regs.hl();
    match lt {
        LoadType::HLIfromA => (
            CpuState {
                bus: bus_write(c.bus, hl, c.regs.a),
                regs: c.regs.with_hl(wrap16(hl + 1)),
                ..c
            },
            8,
        ),
        LoadType::AfromHLI => (
            CpuState {
                regs: RegFile { a: bus_read(c.bus, hl), ..c.regs }.with_hl(wrap16(hl + 1)),
                ..c
            },
            8,
        ),
        LoadType::HLDfromA => (
            CpuState {
                bus: bus_write(c.bus, hl, c.regs.a),
                regs: c.regs.with_hl(wrap16(hl - 1)),
                ..c
            },
            8,
        ),
        _ => (
            CpuState {
                regs: RegFile { a: bus_read(c.bus, hl), ..c.regs }.with_hl(wrap16(hl - 1)),
                ..c
            },
            8,
        ),
    }
}

/// The loads of A through an address in the instruction: LD (a16),A,
/// LD A,(a16), LDH (a8),A and LDH A,(a8).
pub open spec fn load_imm_spec(c: CpuState, lt: LoadType) -> (CpuState, u8) {
    match lt {
        LoadType::A16fromA => {
            let (c1, addr) = fetch_word(c);
            (CpuState { bus: bus_write(c1.bus, addr, c1.regs.a), ..c1 }, 16)
        },
        LoadType::AfromA16 => {
            let (c1, addr) = fetch_word(c);
            (CpuState { regs: RegFile { a: bus_read(c1.bus, addr), ..c1.regs }, ..c1 }, 16)
        },
        LoadType::FF00A8fromA => {
            let (c1, a8) = fetch_byte(c);
            (CpuState { bus: bus_write(c1.bus, (0xFF00 + a8) as u16, c1.regs.a), ..c1 }, 12)
        },
        _ => {
            let (c1, a8) = fetch_byte(c);
            (
                CpuState {
                    regs: RegFile { a: bus_read(c1.bus, (0xFF00 + a8) as u16), ..c1.regs },
                    ..c1
                },
                12,
            )
        },
    }
}

/// The loads of A through (DE) and through (0xFF00 + C).
pub open spec fn load_indirect_spec(c: CpuState, lt: LoadType) -> (CpuState, u8) {
    match lt {
        LoadType::BCfromA => (CpuState { bus: bus_write(c.bus, c.regs.bc(), c.regs.a), ..c }, 8),
        LoadType::AfromBC => (
            CpuState { regs: RegFile { a: bus_read(c.bus, c.regs.bc()), ..c.regs }, ..c },
            8,
        ),
        LoadType::DEfromA => (CpuState { bus: bus_write(c.bus, c.regs.de(), c.regs.a), ..c }, 8),
        LoadType::AfromDE => (
            CpuState { regs: RegFile { a: bus_read(c.bus, c.regs.de()), ..c.regs }, ..c },
            8,
        ),
        LoadType::FF00CfromA => (
            CpuState { bus: bus_write(c.bus, (0xFF00 + c.regs.c) as u16, c.regs.a), ..c },
            8,
        ),
        _ => (
            CpuState {
                regs: RegFile { a: bus_read(c.bus, (0xFF00 + c.regs.c) as u16), ..c.regs },
                ..c
            },
            8,
        ),
    }
}

/// The loads, with their T-cycles.
pub open spec fn load_spec(c: CpuState, lt: LoadType) -> (CpuState, u8) {
    match lt {
        LoadType::R8ToR8(target, source) => load_r8_spec(c, target, source),
        LoadType::D16toR16(_) | LoadType::HLtoSP | LoadType::SPtoA16 | LoadType::R16toSP(_)
        | LoadType::SP8toHL => load_r16_spec(c, lt),
        LoadType::HLIfromA | LoadType::AfromHLI | LoadType::HLDfromA | LoadType::AfromHLD => {
            load_hl_spec(c, lt)
        },
        LoadType::A16fromA | LoadType::AfromA16 | LoadType::FF00A8fromA
        | LoadType::AfromFF00A8 => load_imm_spec(c, lt),
        _ => load_indirect_spec(c, lt),
    }
}

/// The interrupts that are both enabled (IE) and requested (IF).
pub open spec fn pending_mask(b: BusState) -> u8 {
    (bus_read(b, 0xFFFF) & 0x1F) & (bus_read(b, 0xFF0F) & 0x1F)
}

/// HALT: with IME off and an interrupt already pending the CPU does not
/// halt but triggers the HALT bug; otherwise it halts.
pub open spec fn halt_spec(c: CpuState) -> CpuState {
    if !c.ime && pending_mask(c.bus) != 0 {
        CpuState { halt_bug: true, halted: false, ..c }
    } else {
        CpuState { halted: true, ..c }
    }
}

/// The cycles a relative jump counts: 12 when the jump is taken and 8 when
/// it is not, except that JR NC counts 12 when the carry flag is set and 8
/// when it is clear.
pub open spec fn jr_cycles(r: RegFile, t: JumpTest) -> u8 {
    let counted = match t {
        JumpTest::NotCarry => r.cf,
        _ => condition(r, t),
    };
    if counted {
        12
    } else {
        8
    }
}

/// ADD SP,e8: SP moves by the signed offset; H and C come from adding the
/// offset's byte to SP's low nibble and low byte; Z and N are cleared.
pub open spec fn add_sp_spec(c: CpuState) -> (CpuState, u8) {
    let (c1, e) = fetch_byte(c);
    let sp = c1.sp;
    (
        CpuState {
            sp: wrap16(sp + signed8(e)),
            regs: RegFile {
                zf: false,
                nf: false,
                cf: sp % 256 + e > 0xFF,
                hf: sp % 16 + e % 16 > 0x0F,
                ..c1.regs
            },
            ..c1
        },
        16,
    )
}

/// Control flow: jumps, calls and returns, with their cycle counts for the
/// taken and not-taken cases.
pub open spec fn flow_spec(c: CpuState, instr: Instruction) -> (CpuState, u8) {
    match instr {
        Instruction::JP(t) => {
            let cond = condition(c.regs, t);
            let (c1, target) = fetch_word(c);
            if cond {
                (CpuState { fetch_pc: target, ..c1 }, 16)
            } else {
                (c1, 12)
            }
        },
        Instruction::JR(t) => {
            let cond = condition(c.regs, t);
            let (c1, e) = fetch_byte(c);
            if cond {
                (CpuState { fetch_pc: wrap16(c1.fetch_pc + signed8(e)), ..c1 }, jr_cycles(c.regs, t))
            } else {
                (c1, jr_cycles(c.regs, t))
            }
        },
        Instruction::CALL(t) => {
            let cond = condition(c.regs, t);
            let (c1, target) = fetch_word(c);
            if cond {
                (CpuState { fetch_pc: target, ..push_word(c1, c1.fetch_pc) }, 24)
            } else {
                (c1, 12)
            }
        },
        Instruction::RET(t) => {
            if condition(c.regs, t) {
                let (c1, addr) = pop_word(c);
                (CpuState { fetch_pc: addr, ..c1 }, if t == JumpTest::Always { 16 } else { 20 })
            } else {
                (c, 8)
            }
        },
        Instruction::RETI => {
            let (c1, addr) = pop_word(c);
            (CpuState { fetch_pc: addr, ime: true, ..c1 }, 16)
        },
        Instruction::JP_HL => (CpuState { fetch_pc: c.regs.hl(), ..c }, 4),
        Instruction::PUSH(t) => (push_word(c, stack_pair(c.regs, t)), 16),
        Instruction::RST(v) => (CpuState { fetch_pc: v as u16, ..push_word(c, c.fetch_pc) }, 16),
        _ => {
            let (c1, v) = pop_word(c);
            (CpuState { regs: with_stack_pair(c1.regs, stack_pair_target(instr), v), ..c1 }, 12)
        },
    }
}

/// The pair a POP names.
pub open spec fn stack_pair_target(instr: Instruction) -> StackTargets {
    match instr {
        Instruction::POP(t) => t,
        _ => StackTargets::AF,
    }
}

/// What executing a decoded instruction does, with the T-cycles it takes.
/// Operands are fetched through the fetch address; PC itself moves when
/// the instruction ends.
#[verifier::opaque]
pub open spec fn execute_spec(c: CpuState, instr: Instruction) -> (CpuState, u8) {
    match instr {
        Instruction::NOP => (c, 4),
        Instruction::HALT => (halt_spec(c), 4),
        Instruction::ADD(t) | Instruction::ADC(t) | Instruction::SUB(t) | Instruction::SBC(t)
        | Instruction::AND(t) | Instruction::XOR(t) | Instruction::OR(t) | Instruction::CP(t) => {
            let (c1, v) = read_operand(c, t);
            (CpuState { regs: alu_apply(instr, c1.regs, v), ..c1 }, operand_cycles(t))
        },
        Instruction::ADD16(t) => (
            CpuState { regs: alu_add_hl(c.regs, pair_value(c, t)), ..c },
            8,
        ),
        Instruction::INC(t) => (inc_spec(c, t), if t == ArithmeticTarget::HLI { 12 } else { 4 }),
        Instruction::DEC(t) => (dec_spec(c, t), if t == ArithmeticTarget::HLI { 12 } else { 4 }),
        Instruction::INC16(t) => (with_pair(c, t, wrap16(pair_value(c, t) + 1)), 8),
        Instruction::DEC16(t) => (with_pair(c, t, wrap16(pair_value(c, t) - 1)), 8),
        Instruction::LD(lt) => load_spec(c, lt),
        Instruction::JP(_) | Instruction::JR(_) | Instruction::CALL(_) | Instruction::RET(_)
        | Instruction::RETI | Instruction::JP_HL | Instruction::PUSH(_) | Instruction::POP(_)
        | Instruction::RST(_) => flow_spec(c, instr),
        Instruction::ADD_SP => add_sp_spec(c),
        Instruction::RLCA | Instruction::RLA | Instruction::RRCA | Instruction::RRA => (
            CpuState { regs: rotate_a(instr, c.regs), ..c },
            4,
        ),
        Instruction::CPL => (
            CpuState {
                regs: RegFile { a: (255 - c.regs.a) as u8, nf: true, hf: true, ..c.regs },
                ..c
            },
            4,
        ),
        Instruction::SCF => (
            CpuState { regs: RegFile { nf: false, hf: false, cf: true, ..c.regs }, ..c },
            4,
        ),
        Instruction::CCF => (
            CpuState { regs: RegFile { nf: false, hf: false, cf: !c.regs.cf, ..c.regs }, ..c },
            4,
        ),
        Instruction::DAA => (CpuState { regs: daa_spec(c.regs), ..c }, 4),
        Instruction::EI => (CpuState { ime_scheduled: true, ..c }, 4),
        Instruction::DI => (CpuState { ime: false, ime_scheduled: false, ..c }, 4),
        Instruction::STOP => {
            let (c1, _) = fetch_byte(c);
            (CpuState { stopped: true, ..c1 }, 4)
        },
    }
}

/// The register a CB operation's low three bits name (B, C, D, E, H, L,
/// (HL), A), read.
pub open spec fn cb_read(c: CpuState, reg: u8) -> u8 {
    if reg == 0 {
        c.regs.b
    } else if reg == 1 {
        c.regs.c
    } else if reg == 2 {
        c.regs.d
    } else if reg == 3 {
        c.regs.e
    } else if reg == 4 {
        c.regs.h
    } else if reg == 5 {
        c.regs.l
    } else if reg == 6 {
        bus_read(c.bus, c.regs.hl())
    } else {
        c.regs.a
    }
}

/// The register a CB operation's low three bits name, written.
pub open spec fn cb_write(c: CpuState, reg: u8, v: u8) -> CpuState {
    if reg == 0 {
        CpuState { regs: RegFile { b: v, ..c.regs }, ..c }
    } else if reg == 1 {
        CpuState { regs: RegFile { c: v, ..c.regs }, ..c }
    } else if reg == 2 {
        CpuState { regs: RegFile { d: v, ..c.regs }, ..c }
    } else if reg == 3 {
        CpuState { regs: RegFile { e: v, ..c.regs }, ..c }
    } else if reg == 4 {
        CpuState { regs: RegFile { h: v, ..c.regs }, ..c }
    } else if reg == 5 {
        CpuState { regs: RegFile { l: v, ..c.regs }, ..c }
    } else if reg == 6 {
        CpuState { bus: bus_write(c.bus, c.regs.hl(), v), ..c }
    } else {
        CpuState { regs: RegFile { a: v, ..c.regs }, ..c }
    }
}

/// The shifts and rotations of the CB table (bits 3-5 of the opcode): RLC,
/// RRC, RL, RR, SLA, SRA, SWAP, SRL. The result and the bit shifted out.
pub open spec fn cb_shift(kind: u8, x: u8, carry_in: bool) -> (u8, bool) {
    let ci: int = if carry_in { 1 } else { 0 };
    if kind == 0 {
        (((x % 128) * 2 + x / 128) as u8, x >= 128)
    } else if kind == 1 {
        ((x / 2 + (x % 2) * 128) as u8, x % 2 == 1)
    } else if kind == 2 {
        (((x % 128) * 2 + ci) as u8, x >= 128)
    } else if kind == 3 {
        ((x / 2 + ci * 128) as u8, x % 2 == 1)
    } else if kind == 4 {
        (((x % 128) * 2) as u8, x >= 128)
    } else if kind == 5 {
        ((x / 2 + (if x >= 128 { 128int } else { 0 })) as u8, x % 2 == 1)
    } else if kind == 6 {
        (((x % 16) * 16 + x / 16) as u8, false)
    } else {
        ((x / 2) as u8, x % 2 == 1)
    }
}

/// A CB-prefixed operation: shifts and rotations (group 0, flags Z from
/// the result, N and H cleared, carry from the bit shifted out), BIT
/// (group 1: Z when the bit is clear, N cleared, H set), RES (group 2) and
/// SET (group 3), which leave the flags alone.
pub open spec fn cb_spec(c: CpuState, op: u8) -> CpuState {
    let r = op % 8;
    let group = op / 64;
    let n = (op / 8) % 8;
    let x = cb_read(c, r);
    if group == 0 {
        let (res, carry) = cb_shift(n, x, c.regs.cf);
        let c1 = cb_write(c, r, res);
        CpuState {
            regs: RegFile { zf: res == 0, nf: false, hf: false, cf: carry, ..c1.regs },
            ..c1
        }
    } else if group == 1 {
        CpuState {
            regs: RegFile { zf: x & (1u8 << n) == 0, nf: false, hf: true, ..c.regs },
            ..c
        }
    } else if group == 2 {
        cb_write(c, r, x & !(1u8 << n))
    } else {
        cb_write(c, r, x | (1u8 << n))
    }
}

/// T-cycles of a CB operation: 8 on a register; on (HL), 12 for BIT and 16
/// for the others.
pub open spec fn cb_cycles(op: u8) -> u8 {
    if op % 8 == 6 {
        if op / 64 == 1 {
            12
        } else {
            16
        }
    } else {
        8
    }
}

/// The interrupt with the highest priority among the pending ones (bit 0
/// VBlank first, bit 4 Joypad last), with its vector.
pub open spec fn highest_priority(mask: u8) -> Option<(u8, u16)> {
    if mask & 0x01 != 0 {
        Some((0x01, 0x0040))
    } else if mask & 0x02 != 0 {
        Some((0x02, 0x0048))
    } else if mask & 0x04 != 0 {
        Some((0x04, 0x0050))
    } else if mask & 0x08 != 0 {
        Some((0x08, 0x0058))
    } else if mask & 0x10 != 0 {
        Some((0x10, 0x0060))
    } else {
        None
    }
}

/// Dispatching an interrupt: its IF bit is cleared, IME goes off, PC is
/// pushed, and execution continues at the vector.
pub open spec fn service_spec(c: CpuState, bit: u8, vector: u16) -> CpuState {
    let iflag = bus_read(c.bus, 0xFF0F);
    let b1 = bus_write(c.bus, 0xFF0F, iflag & !bit);
    let c1 = CpuState { bus: b1, ime: false, ime_scheduled: false, halted: false, ..c };
    let c2 = push_word(c1, c1.pc);
    CpuState { pc: vector, fetch_pc: vector, fetch_pc_valid: false, ..c2 }
}

/// The CPU state once a pending interrupt has woken it from HALT.
pub open spec fn woken(c: CpuState) -> CpuState {
    if c.halted && pending_mask(c.bus) != 0 {
        CpuState { halted: false, ..c }
    } else {
        c
    }
}

/// Whether a step is defined: when it executes an opcode, that opcode is
/// the CB prefix or one the decoder knows.
pub open spec fn step_defined(c: CpuState) -> bool {
    let c1 = woken(c);
    let op = bus_read(c1.bus, c1.pc);
    c1.stopped || c1.halted || (c1.ime && pending_mask(c1.bus) != 0 && highest_priority(
        pending_mask(c1.bus),
    ) is Some) || op == 0xCB || decode_spec(op, false) is Some
}

/// The rest of a CB-prefixed instruction once its prefix is fetched.
#[verifier::opaque]
pub open spec fn cb_step(c: CpuState) -> CpuState {
    let (c1, cb) = fetch_byte(c);
    let c2 = cb_spec(c1, cb);
    let cycles = cb_cycles(cb);
    end_instruction(
        CpuState { last_cycle_timestamp: cycles, bus: bus_tick(c2.bus, cycles as u16), ..c2 },
    )
}

/// The rest of an unprefixed instruction once its opcode is fetched: it
/// runs, the bus advances by its cycles, PC moves on, and IME turns on if
/// an EI before this instruction scheduled it.
#[verifier::opaque]
pub open spec fn instruction_step(c: CpuState, op: u8) -> CpuState {
    let instr = decode_spec(op, false)->0;
    let (c1, cycles) = execute_spec(c, instr);
    let c2 = end_instruction(
        CpuState { last_cycle_timestamp: cycles, bus: bus_tick(c1.bus, cycles as u16), ..c1 },
    );
    if c2.ime_scheduled && instr != Instruction::EI {
        CpuState { ime: true, ime_scheduled: false, ..c2 }
    } else {
        c2
    }
}

/// Fetching and running the instruction at PC.
#[verifier::opaque]
pub open spec fn fetch_execute(c: CpuState) -> CpuState {
    let (c1, op) = fetch_byte(begin_instruction(c));
    if op == 0xCB {
        cb_step(c1)
    } else {
        instruction_step(c1, op)
    }
}

/// One step of the CPU. A halted or stopped CPU lets 4 T-cycles pass; with
/// IME on, a pending interrupt is dispatched (20 T-cycles); otherwise one
/// instruction runs and the bus advances by its cycles. IME, scheduled by
/// EI, turns on after the instruction that follows EI.
#[verifier::opaque]
pub open spec fn step_spec(c: CpuState) -> CpuState {
    let c1 = woken(c);
    if c1.stopped || c1.halted {
        CpuState { bus: bus_tick(c1.bus, 4), ..c1 }
    } else if c1.ime && pending_mask(c1.bus) != 0 && highest_priority(pending_mask(c1.bus)) is Some {
        let (bit, vector) = highest_priority(pending_mask(c1.bus))->0;
        let c2 = service_spec(c1, bit, vector);
        CpuState { bus: bus_tick(c2.bus, 20), ..c2 }
    } else {
        fetch_execute(c1)
    }
}

/// `n` steps of the CPU.
pub open spec fn run_spec(c: CpuState, n: nat) -> CpuState
    decreases n,
{
    if n == 0 {
        c
    } else {
        run_spec(step_spec(c), (n - 1) as nat)
    }
}

/// Every one of `n` steps is defined.
pub open spec fn run_defined(c: CpuState, n: nat) -> bool
    decreases n,
{
    n == 0 || (step_defined(c) && run_defined(step_spec(c), (n - 1) as nat))
}

/// Popping right after a push gives back the pushed word and restores SP,
/// where the two stack bytes are plain memory.
pub proof fn lemma_push_pop(c: CpuState, v: u16)
    requires
        c.wf(),
        is_plain_ram(c.bus, wrap16(c.sp - 1)),
        is_plain_ram(c.bus, wrap16(c.sp - 2)),
    ensures
        pop_word(push_word(c, v)).1 == v,
        pop_word(push_word(c, v)).0.sp == c.sp,
        push_word(c, v).sp == wrap16(c.sp - 2),
{
    let sp1 = wrap16(c.sp - 1);
    let sp2 = wrap16(sp1 - 1);
    assert(sp2 == wrap16(c.sp - 2));
    assert(wrap16(sp2 + 1) == sp1);
    assert(wrap16(sp1 + 1) == c.sp);
    let b1 = bus_write(c.bus, sp1, hi_byte(v));
    lemma_write_read(c.bus, sp1, hi_byte(v), sp2);
    lemma_write_wf(c.bus, sp1, hi_byte(v));
    lemma_write_read(b1, sp2, lo_byte(v), sp1);
    assert(pair(hi_byte(v), lo_byte(v)) == v);
}

/// Interrupt priority: of the pending interrupts, the one with the lowest
/// bit (VBlank, then LCD STAT, Timer, Serial, Joypad) is served, at vector
/// 0x40 + 8 times its bit number; with none pending, none is served.
pub proof fn lemma_interrupt_priority(mask: u8)
    ensures
        mask & 0x1F == 0 ==> highest_priority(mask) is None,
        mask & 0x1F != 0 ==> (highest_priority(mask) matches Some((bit, vector)) && {
            &&& mask & bit == bit
            &&& mask & ((bit - 1) as u8) == 0
            &&& 0x40 <= vector <= 0x60
            &&& (vector - 0x40) % 8 == 0
            &&& bit == 1u8 << (((vector - 0x40) / 8) as u8)
        }),
{
    if mask & 0x01 != 0 {
        assert(mask & 0x01 == 0x01 && mask & 0 == 0 && 1u8 << 0u8 == 1) by (bit_vector)
            requires
                mask & 0x01 != 0,
        ;
    } else if mask & 0x02 != 0 {
        assert(mask & 0x02 == 0x02 && mask & 0x01 == 0 && 1u8 << 1u8 == 2) by (bit_vector)
            requires
                mask & 0x01 == 0 && mask & 0x02 != 0,
        ;
    } else if mask & 0x04 != 0 {
        assert(mask & 0x04 == 0x04 && mask & 0x03 == 0 && 1u8 << 2u8 == 4) by (bit_vector)
            requires
                mask & 0x01 == 0 && mask & 0x02 == 0 && mask & 0x04 != 0,
        ;
    } else if mask & 0x08 != 0 {
        assert(mask & 0x08 == 0x08 && mask & 0x07 == 0 && 1u8 << 3u8 == 8) by (bit_vector)
            requires
                mask & 0x01 == 0 && mask & 0x02 == 0 && mask & 0x04 == 0 && mask & 0x08 != 0,
        ;
    } else if mask & 0x10 != 0 {
        assert(mask & 0x10 == 0x10 && mask & 0x0F == 0 && 1u8 << 4u8 == 16) by (bit_vector)
            requires
                mask & 0x01 == 0 && mask & 0x02 == 0 && mask & 0x04 == 0 && mask & 0x08 == 0 && mask
                    & 0x10 != 0,
        ;
    } else {
        assert(mask & 0x1F == 0) by (bit_vector)
            requires
                mask & 0x01 == 0 && mask & 0x02 == 0 && mask & 0x04 == 0 && mask & 0x08 == 0 && mask
                    & 0x10 == 0,
        ;
    }
    if mask & 0x1F == 0 {
        assert(mask & 0x01 == 0 && mask & 0x02 == 0 && mask & 0x04 == 0 && mask & 0x08 == 0 && mask
            & 0x10 == 0) by (bit_vector)
            requires
                mask & 0x1F == 0,
        ;
    }
}

/// Only EI and DI touch the interrupt-enable schedule.
proof fn lemma_execute_keeps_schedule(c: CpuState, instr: Instruction)
    ensures
        instr != Instruction::EI && instr != Instruction::DI ==> execute_spec(c, instr).0.ime_scheduled
            == c.ime_scheduled,
        instr != Instruction::DI && instr != Instruction::RETI ==> execute_spec(c, instr).0.ime
            == c.ime,
{
    reveal(execute_spec);
}

/// EI takes effect one instruction late, and DI cancels it: after EI,
/// IME is as it was and turning it on is scheduled; the next instruction,
/// unless it is EI or DI, ends with IME on and nothing scheduled; DI ends
/// with IME off and nothing scheduled.
pub proof fn lemma_ei_delay(c: CpuState, op: u8)
    requires
        decode_spec(op, false) is Some,
    ensures
        decode_spec(op, false) == Some(Instruction::EI) ==> instruction_step(c, op).ime == c.ime
            && instruction_step(c, op).ime_scheduled,
        decode_spec(op, false) == Some(Instruction::DI) ==> !instruction_step(c, op).ime
            && !instruction_step(c, op).ime_scheduled,
        c.ime_scheduled && decode_spec(op, false) != Some(Instruction::EI) && decode_spec(op, false)
            != Some(Instruction::DI) ==> instruction_step(c, op).ime && !instruction_step(
            c,
            op,
        ).ime_scheduled,
{
    reveal(instruction_step);
    let instr = decode_spec(op, false)->0;
    lemma_execute_keeps_schedule(c, instr);
    if instr == Instruction::EI || instr == Instruction::DI {
        reveal(execute_spec);
    }
}

/// Running `a` steps and then `b` more is running `a + b` steps, and each
/// part is defined exactly when the whole is; so `run_steps(n)` does what
/// `n` calls of `step` do, one after another.
pub proof fn lemma_run_split(c: CpuState, a: nat, b: nat)
    ensures
        run_spec(run_spec(c, a), b) == run_spec(c, a + b),
        run_defined(c, a + b) <==> (run_defined(c, a) && run_defined(run_spec(c, a), b)),
        run_spec(c, a + 1) == step_spec(run_spec(c, a)),
    decreases a,
{
    if a > 0 {
        lemma_run_split(step_spec(c), (a - 1) as nat, b);
        lemma_run_split(step_spec(c), (a - 1) as nat, 1);
    } else {
        assert(run_spec(step_spec(c), 0) == step_spec(c));
    }
}

/// Every instruction takes at least 4 T-cycles.
proof fn lemma_execute_cycles(c: CpuState, instr: Instruction)
    ensures
        execute_spec(c, instr).1 >= 4,
{
    reveal(execute_spec);
}

/// Fetching and running an instruction records at least 4 T-cycles.
pub proof fn lemma_fetch_execute_timestamp(c: CpuState)
    ensures
        fetch_execute(c).last_cycle_timestamp >= 4,
{
    reveal(fetch_execute);
    reveal(cb_step);
    reveal(instruction_step);
    let (c2, op) = fetch_byte(begin_instruction(c));
    if op != 0xCB {
        lemma_execute_cycles(c2, decode_spec(op, false)->0);
    }
}

/// A step either runs an instruction, recording at least 4 T-cycles, or
/// keeps the length of the last one.
pub proof fn lemma_step_timestamp(c: CpuState)
    ensures
        step_spec(c).last_cycle_timestamp >= 4 || step_spec(c).last_cycle_timestamp
            == c.last_cycle_timestamp,
{
    reveal(step_spec);
    lemma_fetch_execute_timestamp(woken(c));
}

/// The CB shifts and rotations, bit by bit: RLC and RRC rotate the byte,
/// RL and RR rotate it through the carry, SLA shifts left, SRA shifts right
/// keeping bit 7, SWAP exchanges the nibbles, SRL shifts right; the carry
/// is the bit shifted out (SWAP clears it).
pub proof fn lemma_cb_shift_bits(x: u8, carry_in: bool)
    ensures
        cb_shift(0, x, carry_in) == ((x << 1u8) | (x >> 7u8), x & 0x80 != 0),
        cb_shift(1, x, carry_in) == ((x >> 1u8) | (x << 7u8), x & 0x01 != 0),
        cb_shift(2, x, carry_in) == ((x << 1u8) | (if carry_in { 1u8 } else { 0u8 }), x & 0x80 != 0),
        cb_shift(3, x, carry_in) == ((x >> 1u8) | (if carry_in { 0x80u8 } else { 0u8 }), x & 0x01
            != 0),
        cb_shift(4, x, carry_in) == (x << 1u8, x & 0x80 != 0),
        cb_shift(5, x, carry_in) == ((x >> 1u8) | (x & 0x80), x & 0x01 != 0),
        cb_shift(6, x, carry_in) == ((x << 4u8) | (x >> 4u8), false),
        cb_shift(7, x, carry_in) == (x >> 1u8, x & 0x01 != 0),
{
    let ci: u8 = if carry_in { 1 } else { 0 };
    assert(((x % 128) * 2 + x / 128) as u8 == (x << 1u8) | (x >> 7u8) && (x >= 128) == (x & 0x80
        != 0)) by (bit_vector);
    assert((x / 2 + (x % 2) * 128) as u8 == (x >> 1u8) | (x << 7u8) && (x % 2 == 1) == (x & 0x01
        != 0)) by (bit_vector);
    assert(((x % 128) * 2 + ci) as u8 == (x << 1u8) | ci) by (bit_vector)
        requires
            ci <= 1,
    ;
    assert((x / 2 + ci * 128) as u8 == (x >> 1u8) | ((ci * 128) as u8)) by (bit_vector)
        requires
            ci <= 1,
    ;
    assert(((x % 128) * 2) as u8 == x << 1u8) by (bit_vector);
    assert((x / 2 + (if x >= 128 { 128int } else { 0 })) as u8 == (x >> 1u8) | (x & 0x80)) by (
    bit_vector);
    assert(((x % 16) * 16 + x / 16) as u8 == (x << 4u8) | (x >> 4u8)) by (bit_vector);
    assert((x / 2) as u8 == x >> 1u8) by (bit_vector);
}

proof fn lemma_single_bit(x: u8, n: u8, k: u8)
    by (bit_vector)
    requires
        n < 8,
        k < 8,
    ensures
        ((x & !(1u8 << n)) >> k) & 1 == if k == n { 0u8 } else { (x >> k) & 1 },
        ((x | (1u8 << n)) >> k) & 1 == if k == n { 1u8 } else { (x >> k) & 1 },
        (x & (1u8 << n) == 0) == ((x >> n) & 1 == 0),
{
}

/// The CB operations on a register operand (not (HL)): a shift or rotation
/// (opcodes 0x00-0x3F) leaves its result in the register, Z when it is
/// zero, N and H clear and the shifted-out bit in C; BIT n sets Z exactly
/// when bit n is clear, clears N, sets H, keeps C and the register; RES n
/// and SET n clear or set bit n and keep every other bit and the flags.
pub proof fn lemma_cb_register_ops(c: CpuState, op: u8, k: u8)
    requires
        op % 8 != 6,
        k < 8,
    ensures
        op < 64 ==> {
            let r = cb_shift(op / 8, cb_read(c, op % 8), c.regs.cf);
            &&& cb_read(cb_spec(c, op), op % 8) == r.0
            &&& cb_spec(c, op).regs.zf == (r.0 == 0)
            &&& !cb_spec(c, op).regs.nf && !cb_spec(c, op).regs.hf
            &&& cb_spec(c, op).regs.cf == r.1
        },
        64 <= op < 128 ==> {
            &&& cb_spec(c, op).regs.zf == ((cb_read(c, op % 8) >> ((op / 8) % 8) as u8) & 1 == 0)
            &&& !cb_spec(c, op).regs.nf && cb_spec(c, op).regs.hf
            &&& cb_spec(c, op).regs.cf == c.regs.cf
            &&& cb_read(cb_spec(c, op), op % 8) == cb_read(c, op % 8)
        },
        128 <= op < 192 ==> {
            &&& (cb_read(cb_spec(c, op), op % 8) >> k) & 1 == if k == (op / 8) % 8 {
                0u8
            } else {
                (cb_read(c, op % 8) >> k) & 1
            }
            &&& cb_spec(c, op).regs.f() == c.regs.f()
        },
        192 <= op ==> {
            &&& (cb_read(cb_spec(c, op), op % 8) >> k) & 1 == if k == (op / 8) % 8 {
                1u8
            } else {
                (cb_read(c, op % 8) >> k) & 1
            }
            &&& cb_spec(c, op).regs.f() == c.regs.f()
        },
{
    let n = ((op / 8) % 8) as u8;
    let r = op % 8;
    lemma_single_bit(cb_read(c, r), n, k);
    lemma_cb_write_read(c, r);
}

/// Writing a register operand (not (HL)) and reading it back.
proof fn lemma_cb_write_read(c: CpuState, r: u8)
    requires
        r < 8,
        r != 6,
    ensures
        forall|v: u8| #[trigger] cb_read(cb_write(c, r, v), r) == v,
        forall|v: u8| #[trigger] cb_write(c, r, v).regs.f() == c.regs.f(),
        forall|v: u8|
            #[trigger] cb_write(c, r, v).regs.zf == c.regs.zf && cb_write(c, r, v).regs.cf
                == c.regs.cf,
{
}

/// LD (a16),SP stores SP little-endian: where the two bytes at the operand
/// address are plain memory, the low byte of SP lands at the address, the
/// high byte after it, and the word read there is SP.
pub proof fn lemma_store_sp(c: CpuState)
    requires
        c.wf(),
        fetch_word(c).1 < 0xFFFF,
        is_plain_ram(c.bus, fetch_word(c).1),
        is_plain_ram(c.bus, (fetch_word(c).1 + 1) as u16),
    ensures
        ({
            let addr = fetch_word(c).1;
            let b = load_r16_spec(c, LoadType::SPtoA16).0.bus;
            &&& bus_read_word(b, addr) == c.sp
            &&& bus_read(b, addr) == c.sp % 256
            &&& bus_read(b, (addr + 1) as u16) == c.sp / 256
        }),
{
    let (c1, addr) = fetch_word(c);
    assert(wrap16(addr + 1) == ((addr + 1) % 0x10000) as u16);
    lemma_write_read_word(c1.bus, addr, c1.sp);
}

proof fn lemma_add_sub_bits(a: u8, v: u8, ci: u8)
    by (bit_vector)
    requires
        ci <= 1,
    ensures
        ({
            let res = ((a + v + ci) % 0x100) as u8;
            &&& (a % 16 + v % 16 + ci > 15) == ((a ^ v ^ res) & 0x10 != 0)
            &&& (a + v + ci > 255) == (res < a || (ci == 1 && res == a))
        }),
        ({
            let res = ((a - v - ci) % 0x100) as u8;
            &&& (a % 16 < v % 16 + ci) == ((a ^ v ^ res) & 0x10 != 0)
            &&& (a < v + ci) == (res > a || (ci == 1 && res == a))
        }),
        ((((a + v) % 0x100) as u8 - v) % 0x100) as u8 == a,
        ((((a - v) % 0x100) as u8 + v) % 0x100) as u8 == a,
{
}

/// The 8-bit additions and subtractions: ADD and ADC wrap A + v (+ carry)
/// at 256, set C exactly when the sum wrapped (the result is below A, or
/// equal to it with a carry in) and H exactly when bit 4 of A, v and the
/// result disagree in parity (a carry out of bit 3); SUB, SBC and CP set C
/// exactly when the difference wrapped (the result is above A, or equal
/// with a borrow in), H on a borrow into bit 4, N, and Z when the result
/// is zero; CP leaves A. Subtracting what was added gives A back, and the
/// other way round.
pub proof fn lemma_alu_arithmetic(r: RegFile, v: u8, t: ArithmeticTarget)
    ensures
        ({
            let add = alu_apply(Instruction::ADD(t), r, v);
            &&& (add.a as int + 256 - v) % 256 == r.a
            &&& add.cf == (add.a < r.a)
            &&& add.hf == ((r.a ^ v ^ add.a) & 0x10 != 0)
            &&& add.zf == (add.a == 0) && !add.nf
        }),
        ({
            let adc = alu_apply(Instruction::ADC(t), r, v);
            &&& adc.cf == (adc.a < r.a || (r.cf && adc.a == r.a))
            &&& adc.hf == ((r.a ^ v ^ adc.a) & 0x10 != 0)
            &&& adc.zf == (adc.a == 0) && !adc.nf
        }),
        ({
            let sub = alu_apply(Instruction::SUB(t), r, v);
            &&& (sub.a as int + v) % 256 == r.a
            &&& sub.cf == (sub.a > r.a)
            &&& sub.hf == ((r.a ^ v ^ sub.a) & 0x10 != 0)
            &&& sub.zf == (sub.a == 0) && sub.nf
        }),
        ({
            let sbc = alu_apply(Instruction::SBC(t), r, v);
            &&& sbc.cf == (sbc.a > r.a || (r.cf && sbc.a == r.a))
            &&& sbc.hf == ((r.a ^ v ^ sbc.a) & 0x10 != 0)
            &&& sbc.zf == (sbc.a == 0) && sbc.nf
        }),
        ({
            let cp = alu_apply(Instruction::CP(t), r, v);
            &&& cp.a == r.a
            &&& cp.zf == (r.a == v)
            &&& cp.cf == (r.a < v)
            &&& cp.nf
        }),
        alu_sub(alu_add(r, v), v).a == r.a,
        alu_add(alu_sub(r, v), v).a == r.a,
{
    lemma_add_sub_bits(r.a, v, 0);
    lemma_add_sub_bits(r.a, v, 1);
}

} // verus!
