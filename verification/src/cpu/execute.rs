use vstd::prelude::*;
use super::alu::{
    add_hl_of, alu_of, daa_of, pair_of, rotate_of, stack_pair_of, with_af, with_bc, with_de,
    with_hl, with_reg8_of, with_stack_pair_of,
};
use super::instructions::{
    Add16Target, ArithmeticTarget, BigLoadByteTarget, BigRegisterTarget, Instruction, JumpTest,
    LoadByteSource, LoadByteTarget, LoadType,
};
use super::registers::RegFile;
use super::spec::{
    add_sp_spec, execute_spec, flow_spec, load_hl_spec, load_imm_spec, load_indirect_spec, load_r16_spec,
    load_r8_spec, load_source_spec, pair_value, read_operand, store_target_spec, with_pair,
};
use super::Cpu;
use crate::wrap::lemma_wrap;

verus! {

/// Whether a jump condition holds.
fn condition(test: JumpTest, cpu: &Cpu) -> (b: bool)
    ensures
        b == super::spec::condition(cpu@.regs, test),
{
    match test {
        JumpTest::NotZero => !cpu.regs.get_z(),
        JumpTest::Zero => cpu.regs.get_z(),
        JumpTest::NotCarry => !cpu.regs.get_carry(),
        JumpTest::Carry => cpu.regs.get_carry(),
        JumpTest::Always => true,
    }
}

/// Reads an 8-bit operand: a register, the byte at (HL), or the next
/// instruction byte.
fn read_u8_target(cpu: &mut Cpu, t: ArithmeticTarget) -> (v: u8)
    requires
        old(cpu)@.wf(),
    ensures
        (final(cpu)@, v) == read_operand(old(cpu)@, t),
        final(cpu)@.wf(),
{
    if t == ArithmeticTarget::D8 {
        return cpu.next_byte();
    }
    let r = cpu.regs.get_all();
    match t {
        ArithmeticTarget::A => r.a,
        ArithmeticTarget::B => r.b,
        ArithmeticTarget::C => r.c,
        ArithmeticTarget::D => r.d,
        ArithmeticTarget::E => r.e,
        ArithmeticTarget::H => r.h,
        ArithmeticTarget::L => r.l,
        _ => cpu.bus.read_byte(pair_of(r.h, r.l)),
    }
}

/// The arithmetic/logic instructions.
fn exec_alu(cpu: &mut Cpu, instr: Instruction, target: ArithmeticTarget) -> (cycles: u8)
    requires
        old(cpu)@.wf(),
        instr == Instruction::ADD(target) || instr == Instruction::ADC(target) || instr
            == Instruction::SUB(target) || instr == Instruction::SBC(target) || instr
            == Instruction::AND(target) || instr == Instruction::XOR(target) || instr
            == Instruction::OR(target) || instr == Instruction::CP(target),
    ensures
        (final(cpu)@, cycles) == execute_spec(old(cpu)@, instr),
        final(cpu)@.wf(),
{
    proof {
        reveal(execute_spec);
    }
    let value = read_u8_target(cpu, target);
    let r = cpu.regs.get_all();
    cpu.set_regs(alu_of(instr, r, value));
    if target == ArithmeticTarget::HLI || target == ArithmeticTarget::D8 {
        8
    } else {
        4
    }
}

/// INC r / INC (HL) and DEC r / DEC (HL).
fn exec_inc_dec(cpu: &mut Cpu, instr: Instruction, target: ArithmeticTarget) -> (cycles: u8)
    requires
        old(cpu)@.wf(),
        instr == Instruction::INC(target) || instr == Instruction::DEC(target),
    ensures
        (final(cpu)@, cycles) == execute_spec(old(cpu)@, instr),
        final(cpu)@.wf(),
{
    proof {
        reveal(execute_spec);
    }
    if target == ArithmeticTarget::D8 {
        return 4;
    }
    let inc = instr == Instruction::INC(target);
    let v = read_u8_target(cpu, target);
    proof {
        lemma_wrap(v + 1, 256);
        lemma_wrap(v - 1, 256);
    }
    let nv = if inc { v.wrapping_add(1) } else { v.wrapping_sub(1) };
    let r = cpu.regs.get_all();
    let flags = if inc {
        RegFile { zf: nv == 0, nf: false, hf: v % 16 == 15, ..r }
    } else {
        RegFile { zf: nv == 0, nf: true, hf: v % 16 == 0, ..r }
    };
    if target == ArithmeticTarget::HLI {
        cpu.write_mem(pair_of(r.h, r.l), nv);
        cpu.set_regs(flags);
        12
    } else {
        cpu.set_regs(with_reg8_of(flags, target, nv));
        4
    }
}

fn read_pair(cpu: &Cpu, t: Add16Target) -> (v: u16)
    ensures
        v == pair_value(cpu@, t),
{
    let r = cpu.regs.get_all();
    match t {
        Add16Target::BC => pair_of(r.b, r.c),
        Add16Target::DE => pair_of(r.d, r.e),
        Add16Target::HL => pair_of(r.h, r.l),
        Add16Target::SP => cpu.sp,
    }
}

fn write_pair(cpu: &mut Cpu, t: Add16Target, v: u16)
    ensures
        final(cpu)@ == with_pair(old(cpu)@, t, v),
{
    let r = cpu.regs.get_all();
    match t {
        Add16Target::BC => cpu.set_regs(with_bc(r, v)),
        Add16Target::DE => cpu.set_regs(with_de(r, v)),
        Add16Target::HL => cpu.set_regs(with_hl(r, v)),
        Add16Target::SP => cpu.sp = v,
    }
}

/// Jumps, calls, returns, PUSH and POP.
fn exec_flow(cpu: &mut Cpu, instr: Instruction) -> (cycles: u8)
    requires
        old(cpu)@.wf(),
        instr is JP || instr is JR || instr is CALL || instr is RET || instr is RETI
            || instr is JP_HL || instr is PUSH || instr is POP || instr is RST,
    ensures
        (final(cpu)@, cycles) == flow_spec(old(cpu)@, instr),
        final(cpu)@.wf(),
{
    match instr {
        Instruction::JP(test) => {
            let cond = condition(test, cpu);
            let target = cpu.next_word();
            if cond {
                cpu.fetch_pc = target;
                16
            } else {
                12
            }
        },
        Instruction::JR(test) => {
            let cond = condition(test, cpu);
            let cycles: u8 = match test {
                JumpTest::NotCarry => if cpu.regs.get_carry() {
                    12
                } else {
                    8
                },
                _ => if cond {
                    12
                } else {
                    8
                },
            };
            let off = cpu.next_byte();
            if cond {
                proof {
                    lemma_wrap(cpu.fetch_pc + off, 0x10000);
                    lemma_wrap(cpu.fetch_pc + off - 256, 0x10000);
                }
                cpu.fetch_pc = if off < 128 {
                    cpu.fetch_pc.wrapping_add(off as u16)
                } else {
                    cpu.fetch_pc.wrapping_sub(256 - off as u16)
                };
            }
            cycles
        },
        Instruction::CALL(test) => {
            let cond = condition(test, cpu);
            let target = cpu.next_word();
            if cond {
                let ret = cpu.fetch_pc;
                cpu.push_word(ret);
                cpu.fetch_pc = target;
                24
            } else {
                12
            }
        },
        Instruction::RET(test) => {
            let cond = condition(test, cpu);
            if cond {
                let addr = cpu.pop_word();
                cpu.fetch_pc = addr;
                if test == JumpTest::Always {
                    16
                } else {
                    20
                }
            } else {
                8
            }
        },
        Instruction::RETI => {
            let addr = cpu.pop_word();
            cpu.fetch_pc = addr;
            cpu.ime = true;
            16
        },
        Instruction::JP_HL => {
            let r = cpu.regs.get_all();
            cpu.fetch_pc = pair_of(r.h, r.l);
            4
        },
        Instruction::PUSH(t) => {
            let r = cpu.regs.get_all();
            cpu.push_word(stack_pair_of(r, t));
            16
        },
        Instruction::POP(t) => {
            let v = cpu.pop_word();
            let r = cpu.regs.get_all();
            cpu.set_regs(with_stack_pair_of(r, t, v));
            12
        },
        Instruction::RST(v) => {
            let ret = cpu.fetch_pc;
            cpu.push_word(ret);
            cpu.fetch_pc = v as u16;
            16
        },
        _ => {
            proof {
                assert(false);
            }
            0
        },
    }
}

/// Reads the source of an 8-bit load.
fn load_source(cpu: &mut Cpu, source: LoadByteSource) -> (v: u8)
    requires
        old(cpu)@.wf(),
    ensures
        (final(cpu)@, v) == load_source_spec(old(cpu)@, source),
        final(cpu)@.wf(),
{
    if source == LoadByteSource::D8 {
        return cpu.next_byte();
    }
    let r = cpu.regs.get_all();
    match source {
        LoadByteSource::A => r.a,
        LoadByteSource::B => r.b,
        LoadByteSource::C => r.c,
        LoadByteSource::D => r.d,
        LoadByteSource::E => r.e,
        LoadByteSource::H => r.h,
        LoadByteSource::L => r.l,
        _ => cpu.bus.read_byte(pair_of(r.h, r.l)),
    }
}

/// Writes the destination of an 8-bit load.
fn store_target(cpu: &mut Cpu, target: LoadByteTarget, v: u8)
    requires
        old(cpu)@.wf(),
    ensures
        final(cpu)@ == store_target_spec(old(cpu)@, target, v),
        final(cpu)@.wf(),
{
    let r = cpu.regs.get_all();
    if target == LoadByteTarget::HLI {
        cpu.write_mem(pair_of(r.h, r.l), v);
    } else {
        let nr = match target {
            LoadByteTarget::A => RegFile { a: v, ..r },
            LoadByteTarget::B => RegFile { b: v, ..r },
            LoadByteTarget::C => RegFile { c: v, ..r },
            LoadByteTarget::D => RegFile { d: v, ..r },
            LoadByteTarget::E => RegFile { e: v, ..r },
            LoadByteTarget::H => RegFile { h: v, ..r },
            _ => RegFile { l: v, ..r },
        };
        cpu.set_regs(nr);
    }
}

/// LD r,r', LD r,(HL), LD (HL),r, LD r,d8 and LD (HL),d8.
fn exec_load_r8(cpu: &mut Cpu, target: LoadByteTarget, source: LoadByteSource) -> (cycles: u8)
    requires
        old(cpu)@.wf(),
    ensures
        (final(cpu)@, cycles) == load_r8_spec(old(cpu)@, target, source),
        final(cpu)@.wf(),
{
    let v = load_source(cpu, source);
    store_target(cpu, target, v);
    if target == LoadByteTarget::HLI && source == LoadByteSource::D8 {
        12
    } else if target == LoadByteTarget::HLI || source == LoadByteSource::HLI || source
        == LoadByteSource::D8 {
        8
    } else {
        4
    }
}

/// The 16-bit loads.
fn exec_load_r16(cpu: &mut Cpu, load_type: LoadType) -> (cycles: u8)
    requires
        old(cpu)@.wf(),
        load_type is D16toR16 || load_type is HLtoSP || load_type is SPtoA16
            || load_type is R16toSP || load_type is SP8toHL,
    ensures
        (final(cpu)@, cycles) == load_r16_spec(old(cpu)@, load_type),
        final(cpu)@.wf(),
{
    match load_type {
        LoadType::D16toR16(target) => {
            let v = cpu.next_word();
            let r = cpu.regs.get_all();
            match target {
                BigLoadByteTarget::AF => cpu.set_regs(with_af(r, v)),
                BigLoadByteTarget::BC => cpu.set_regs(with_bc(r, v)),
                BigLoadByteTarget::DE => cpu.set_regs(with_de(r, v)),
                BigLoadByteTarget::HL => cpu.set_regs(with_hl(r, v)),
                BigLoadByteTarget::SP => cpu.sp = v,
            };
            12
        },
        LoadType::HLtoSP => {
            let r = cpu.regs.get_all();
            cpu.sp = pair_of(r.h, r.l);
            8
        },
        LoadType::SPtoA16 => {
            let addr = cpu.next_word();
            let sp = cpu.sp;
            proof {
                lemma_wrap(addr + 1, 0x10000);
            }
            cpu.write_mem(addr, (sp % 256) as u8);
            cpu.write_mem(addr.wrapping_add(1), (sp / 256) as u8);
            20
        },
        LoadType::R16toSP(source) => {
            let r = cpu.regs.get_all();
            cpu.sp = match source {
                BigRegisterTarget::AF => stack_pair_of(r, super::instructions::StackTargets::AF),
                BigRegisterTarget::BC => pair_of(r.b, r.c),
                BigRegisterTarget::DE => pair_of(r.d, r.e),
                BigRegisterTarget::HL => pair_of(r.h, r.l),
            };
            8
        },
        LoadType::SP8toHL => {
            let off = cpu.next_byte();
            let sp = cpu.sp;
            proof {
                lemma_wrap(sp + off, 0x10000);
                lemma_wrap(sp + off - 256, 0x10000);
            }
            let result = if off < 128 {
                sp.wrapping_add(off as u16)
            } else {
                sp.wrapping_sub(256 - off as u16)
            };
            let r = cpu.regs.get_all();
            let nr = RegFile {
                zf: false,
                nf: false,
                cf: (sp % 256) + (off as u16) > 0xFF,
                hf: (sp % 16) + (off as u16 % 16) > 0x0F,
                ..with_hl(r, result)
            };
            cpu.set_regs(nr);
            12
        },
        _ => {
            proof {
                assert(false);
            }
            0
        },
    }
}

/// LD (HL+),A, LD A,(HL+), LD (HL-),A and LD A,(HL-).
fn exec_load_hl(cpu: &mut Cpu, load_type: LoadType) -> (cycles: u8)
    requires
        old(cpu)@.wf(),
        load_type is HLIfromA || load_type is AfromHLI || load_type is HLDfromA
            || load_type is AfromHLD,
    ensures
        (final(cpu)@, cycles) == load_hl_spec(old(cpu)@, load_type),
        final(cpu)@.wf(),
{
    let r = cpu.regs.get_all();
    let hl = pair_of(r.h, r.l);
    proof {
        lemma_wrap(hl + 1, 0x10000);
        lemma_wrap(hl - 1, 0x10000);
    }
    let store = load_type == LoadType::HLIfromA || load_type == LoadType::HLDfromA;
    let next = if load_type == LoadType::HLIfromA || load_type == LoadType::AfromHLI {
        hl.wrapping_add(1)
    } else {
        hl.wrapping_sub(1)
    };
    if store {
        cpu.write_mem(hl, r.a);
        cpu.set_regs(with_hl(r, next));
    } else {
        let v = cpu.bus.read_byte(hl);
        cpu.set_regs(with_hl(RegFile { a: v, ..r }, next));
    }
    8
}

/// LD (a16),A, LD A,(a16), LDH (a8),A and LDH A,(a8).
fn exec_load_imm(cpu: &mut Cpu, load_type: LoadType) -> (cycles: u8)
    requires
        old(cpu)@.wf(),
        load_type is A16fromA || load_type is AfromA16 || load_type is FF00A8fromA
            || load_type is AfromFF00A8,
    ensures
        (final(cpu)@, cycles) == load_imm_spec(old(cpu)@, load_type),
        final(cpu)@.wf(),
{
    let wide = load_type == LoadType::A16fromA || load_type == LoadType::AfromA16;
    let addr = if wide {
        cpu.next_word()
    } else {
        0xFF00u16 + cpu.next_byte() as u16
    };
    let r = cpu.regs.get_all();
    if load_type == LoadType::A16fromA || load_type == LoadType::FF00A8fromA {
        cpu.write_mem(addr, r.a);
    } else {
        let v = cpu.bus.read_byte(addr);
        cpu.set_regs(RegFile { a: v, ..r });
    }
    if wide {
        16
    } else {
        12
    }
}

/// LD (BC),A, LD A,(BC), LD (DE),A, LD A,(DE), LD (C),A and LD A,(C).
fn exec_load_indirect(cpu: &mut Cpu, load_type: LoadType) -> (cycles: u8)
    requires
        old(cpu)@.wf(),
        load_type is BCfromA || load_type is AfromBC || load_type is DEfromA || load_type is AfromDE
            || load_type is FF00CfromA || load_type is AfromFF00C,
    ensures
        (final(cpu)@, cycles) == load_indirect_spec(old(cpu)@, load_type),
        final(cpu)@.wf(),
{
    let r = cpu.regs.get_all();
    let addr = if load_type == LoadType::BCfromA || load_type == LoadType::AfromBC {
        pair_of(r.b, r.c)
    } else if load_type == LoadType::DEfromA || load_type == LoadType::AfromDE {
        pair_of(r.d, r.e)
    } else {
        0xFF00u16 + r.c as u16
    };
    if load_type == LoadType::BCfromA || load_type == LoadType::DEfromA || load_type
        == LoadType::FF00CfromA {
        cpu.write_mem(addr, r.a);
    } else {
        let v = cpu.bus.read_byte(addr);
        cpu.set_regs(RegFile { a: v, ..r });
    }
    8
}

/// ADD SP,e8.
fn exec_add_sp(cpu: &mut Cpu) -> (cycles: u8)
    requires
        old(cpu)@.wf(),
    ensures
        (final(cpu)@, cycles) == add_sp_spec(old(cpu)@),
        final(cpu)@.wf(),
{
    let off = cpu.next_byte();
    let sp = cpu.sp;
    proof {
        lemma_wrap(sp + off, 0x10000);
        lemma_wrap(sp + off - 256, 0x10000);
    }
    let result = if off < 128 {
        sp.wrapping_add(off as u16)
    } else {
        sp.wrapping_sub(256 - off as u16)
    };
    let r = cpu.regs.get_all();
    let nr = RegFile {
        zf: false,
        nf: false,
        cf: (sp % 256) + (off as u16) > 0xFF,
        hf: (sp % 16) + (off as u16 % 16) > 0x0F,
        ..r
    };
    cpu.set_regs(nr);
    cpu.sp = result;
    16
}

/// The instructions that change only registers, flags and interrupt state.
fn exec_simple(cpu: &mut Cpu, instr: Instruction) -> (cycles: u8)
    requires
        old(cpu)@.wf(),
        instr is RLCA || instr is RLA || instr is RRCA || instr is RRA || instr is CPL
            || instr is SCF || instr is CCF || instr is DAA || instr is EI || instr is DI
            || instr is NOP || instr is ADD16 || instr is INC16 || instr is DEC16,
    ensures
        (final(cpu)@, cycles) == execute_spec(old(cpu)@, instr),
        final(cpu)@.wf(),
{
    proof {
        reveal(execute_spec);
    }
    let r = cpu.regs.get_all();
    match instr {
        Instruction::RLCA | Instruction::RLA | Instruction::RRCA | Instruction::RRA => {
            cpu.set_regs(rotate_of(instr, r));
            4
        },
        Instruction::CPL => {
            cpu.set_regs(RegFile { a: 0xFF - r.a, nf: true, hf: true, ..r });
            4
        },
        Instruction::SCF => {
            cpu.set_regs(RegFile { nf: false, hf: false, cf: true, ..r });
            4
        },
        Instruction::CCF => {
            cpu.set_regs(RegFile { nf: false, hf: false, cf: !r.cf, ..r });
            4
        },
        Instruction::DAA => {
            cpu.set_regs(daa_of(r));
            4
        },
        Instruction::EI => {
            cpu.ime_scheduled = true;
            4
        },
        Instruction::DI => {
            cpu.ime = false;
            cpu.ime_scheduled = false;
            4
        },
        Instruction::ADD16(target) => {
            let value = read_pair(cpu, target);
            cpu.set_regs(add_hl_of(r, value));
            8
        },
        Instruction::INC16(target) => {
            let v = read_pair(cpu, target);
            proof {
                lemma_wrap(v + 1, 0x10000);
            }
            write_pair(cpu, target, v.wrapping_add(1));
            8
        },
        Instruction::DEC16(target) => {
            let v = read_pair(cpu, target);
            proof {
                lemma_wrap(v - 1, 0x10000);
            }
            write_pair(cpu, target, v.wrapping_sub(1));
            8
        },
        _ => 4,
    }
}

/// Executes a decoded instruction and returns the T-cycles it takes.
/// Operands come through the CPU's fetch address; PC moves when the
/// instruction ends.
pub fn execute(cpu: &mut Cpu, instr: Instruction, prefixed: bool) -> (cycles: u8)
    requires
        old(cpu)@.wf(),
    ensures
        (final(cpu)@, cycles) == execute_spec(old(cpu)@, instr),
        final(cpu)@.wf(),
{
    proof {
        reveal(execute_spec);
    }
    match instr {
        Instruction::HALT => {
            let pending = cpu.pending_mask();
            if !cpu.ime && pending != 0 {
                cpu.halt_bug = true;
                cpu.halted = false;
            } else {
                cpu.halted = true;
            }
            4
        },
        Instruction::ADD(t) | Instruction::ADC(t) | Instruction::SUB(t) | Instruction::SBC(t)
        | Instruction::AND(t) | Instruction::XOR(t) | Instruction::OR(t) | Instruction::CP(t) => {
            exec_alu(cpu, instr, t)
        },
        Instruction::INC(t) | Instruction::DEC(t) => exec_inc_dec(cpu, instr, t),
        Instruction::LD(load_type) => match load_type {
            LoadType::R8ToR8(target, source) => exec_load_r8(cpu, target, source),
            LoadType::D16toR16(_) | LoadType::HLtoSP | LoadType::SPtoA16 | LoadType::R16toSP(_)
            | LoadType::SP8toHL => exec_load_r16(cpu, load_type),
            LoadType::HLIfromA | LoadType::AfromHLI | LoadType::HLDfromA | LoadType::AfromHLD => {
                exec_load_hl(cpu, load_type)
            },
            LoadType::A16fromA | LoadType::AfromA16 | LoadType::FF00A8fromA
            | LoadType::AfromFF00A8 => exec_load_imm(cpu, load_type),
            _ => exec_load_indirect(cpu, load_type),
        },
        Instruction::JP(_) | Instruction::JR(_) | Instruction::CALL(_) | Instruction::RET(_)
        | Instruction::RETI | Instruction::JP_HL | Instruction::PUSH(_) | Instruction::POP(_)
        | Instruction::RST(_) => exec_flow(cpu, instr),
        Instruction::ADD_SP => exec_add_sp(cpu),
        Instruction::STOP => {
            let _ = cpu.next_byte();
            cpu.stopped = true;
            4
        },
        _ => exec_simple(cpu, instr),
    }
}

} // verus!
