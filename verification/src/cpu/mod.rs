use vstd::prelude::*;
use crate::bus::spec::{bus_read, bus_tick, bus_write, lemma_write_wf};
use crate::bus::Bus;
use crate::wrap::lemma_wrap;

pub mod alu;
pub mod execute;
pub mod instructions;
pub mod registers;
pub mod spec;

use self::execute::execute;
use self::instructions::Instruction;
use self::registers::{hi_byte, lo_byte, pair, RegFile, Registers};
use self::alu::pair_of;
use self::instructions::decode_spec;
use self::spec::{
    cb_step, fetch_execute, instruction_step, begin_instruction, cb_cycles, cb_read, cb_shift, cb_spec, cb_write, end_instruction,
    fetch_byte, fetch_word, highest_priority, pending_mask, pop_word, push_word, run_defined,
    run_spec, service_spec, step_defined, step_spec, woken, wrap16, wrap8, CpuState, alu_add,
    alu_add_hl, alu_sub,
};

verus! {

/// The CPU: registers, program counter and stack pointer, the bus it
/// drives, and the state of HALT, STOP and the interrupt master enable.
pub struct Cpu {
    pub regs: Registers,
    pub pc: u16,
    pub sp: u16,
    pub cycles: u64,
    pub bus: Bus,
    pub halted: bool,
    pub ime: bool,
    pub ime_scheduled: bool,
    pub ime_pending: bool,
    /// Address of the next byte the current instruction fetches.
    pub fetch_pc: u16,
    pub fetch_pc_valid: bool,
    /// The next opcode fetch does not advance the fetch address.
    pub halt_bug: bool,
    pub stopped: bool,
    /// T-cycles the last instruction took.
    pub last_cycle_timestamp: u8,
}

impl View for Cpu {
    type V = CpuState;

    open spec fn view(&self) -> CpuState {
        CpuState {
            regs: self.regs@,
            pc: self.pc,
            sp: self.sp,
            cycles: self.cycles,
            bus: self.bus@,
            halted: self.halted,
            ime: self.ime,
            ime_scheduled: self.ime_scheduled,
            ime_pending: self.ime_pending,
            fetch_pc: self.fetch_pc,
            fetch_pc_valid: self.fetch_pc_valid,
            halt_bug: self.halt_bug,
            stopped: self.stopped,
            last_cycle_timestamp: self.last_cycle_timestamp,
        }
    }
}

impl Cpu {
    pub fn new() -> (c: Self)
        ensures
            c@ == CpuState::power_on(),
            c@.wf(),
    {
        Self {
            regs: Registers::new(),
            pc: 0x0100,
            sp: 0xFFFE,
            cycles: 0,
            bus: Bus::new(),
            halted: false,
            ime: false,
            ime_scheduled: false,
            ime_pending: false,
            fetch_pc: 0,
            fetch_pc_valid: false,
            halt_bug: false,
            stopped: false,
            last_cycle_timestamp: 0,
        }
    }

    /// Replaces the register file.
    fn set_regs(&mut self, r: RegFile)
        ensures
            final(self)@ == (CpuState { regs: r, ..old(self)@ }),
    {
        self.regs.set_all(r);
    }

    /// Writes a byte through the bus.
    fn write_mem(&mut self, addr: u16, value: u8)
        requires
            old(self)@.wf(),
        ensures
            final(self)@ == (CpuState { bus: bus_write(old(self)@.bus, addr, value), ..old(self)@ }),
            final(self)@.wf(),
    {
        self.bus.write_byte(addr, value);
    }

    fn begin_instruction(&mut self)
        ensures
            final(self)@ == begin_instruction(old(self)@),
    {
        self.fetch_pc = self.pc;
        self.fetch_pc_valid = true;
    }

    fn end_instruction(&mut self)
        ensures
            final(self)@ == end_instruction(old(self)@),
    {
        self.pc = self.fetch_pc;
        self.fetch_pc_valid = false;
    }

    /// Fetches the next byte of the current instruction.
    pub fn fetch_u8(&mut self) -> (v: u8)
        requires
            old(self)@.wf(),
        ensures
            (final(self)@, v) == fetch_byte(old(self)@),
    {
        if !self.fetch_pc_valid {
            self.begin_instruction();
        }
        let v = self.bus.read_byte(self.fetch_pc);
        if self.halt_bug {
            self.halt_bug = false;
        } else {
            proof {
                lemma_wrap(self.fetch_pc + 1, 0x10000);
            }
            self.fetch_pc = self.fetch_pc.wrapping_add(1);
        }
        v
    }

    /// Fetches a little-endian word of the current instruction.
    pub fn fetch_u16(&mut self) -> (v: u16)
        requires
            old(self)@.wf(),
        ensures
            (final(self)@, v) == fetch_word(old(self)@),
    {
        let lo = self.fetch_u8() as u16;
        let hi = self.fetch_u8() as u16;
        lo + hi * 256
    }

    /// The interrupts both enabled and requested.
    fn pending_mask(&self) -> (m: u8)
        requires
            self@.wf(),
        ensures
            m == pending_mask(self@.bus),
    {
        let ie = self.bus.read_byte(0xFFFF) & 0x1F;
        let iflag = self.bus.read_byte(0xFF0F) & 0x1F;
        ie & iflag
    }

    fn highest_priority(mask: u8) -> (r: Option<(u8, u16)>)
        ensures
            r == highest_priority(mask),
    {
        if mask & 0x01 != 0 {
            return Some((0x01, 0x0040));
        }
        if mask & 0x02 != 0 {
            return Some((0x02, 0x0048));
        }
        if mask & 0x04 != 0 {
            return Some((0x04, 0x0050));
        }
        if mask & 0x08 != 0 {
            return Some((0x08, 0x0058));
        }
        if mask & 0x10 != 0 {
            return Some((0x10, 0x0060));
        }
        None
    }

    /// Whether the next step is defined: it executes no opcode, or one the
    /// decoder knows.
    pub fn next_step_defined(&self) -> (d: bool)
        requires
            self@.wf(),
        ensures
            d == step_defined(self@),
    {
        let pending = self.pending_mask();
        let halted = self.halted && pending == 0;
        if self.stopped || halted || (self.ime && pending != 0 && Self::highest_priority(
            pending,
        ).is_some()) {
            return true;
        }
        let op = self.bus.read_byte(self.pc);
        op == 0xCB || Instruction::decode(op, false).is_some()
    }

    /// Advances the bus by `cycles` T-cycles.
    fn tick_bus(&mut self, cycles: u16)
        requires
            old(self)@.wf(),
        ensures
            final(self)@ == (CpuState { bus: bus_tick(old(self)@.bus, cycles), ..old(self)@ }),
            final(self)@.wf(),
    {
        self.bus.tick(cycles);
    }

    /// Runs one step: wakes from HALT on a pending interrupt, lets 4 cycles
    /// pass while halted or stopped, dispatches an interrupt when IME is on,
    /// or executes one instruction and advances the bus by its cycles.
    pub fn step(&mut self)
        requires
            old(self)@.wf(),
            step_defined(old(self)@),
        ensures
            final(self)@ == step_spec(old(self)@),
            final(self)@.wf(),
    {
        proof {
            reveal(step_spec);
        }
        let pending = self.pending_mask();
        if self.halted && pending != 0 {
            self.halted = false;
        }
        assert(self@ == woken(old(self)@));
        if self.stopped || self.halted {
            self.tick_bus(4);
            return ;
        }
        if self.service_interrupts() {
            self.tick_bus(20);
            return ;
        }
        self.fetch_execute();
    }

    /// Fetches and runs the instruction at PC.
    fn fetch_execute(&mut self)
        requires
            old(self)@.wf(),
            ({
                let op = bus_read(old(self)@.bus, old(self).pc);
                op == 0xCB || decode_spec(op, false) is Some
            }),
        ensures
            final(self)@ == fetch_execute(old(self)@),
            final(self)@.wf(),
    {
        proof {
            reveal(fetch_execute);
        }
        self.begin_instruction();
        let opcode = self.fetch_u8();
        if opcode == 0xCB {
            self.run_cb();
        } else {
            self.run_instruction(opcode);
        }
    }

    /// Runs the rest of a CB-prefixed instruction.
    fn run_cb(&mut self)
        requires
            old(self)@.wf(),
        ensures
            final(self)@ == cb_step(old(self)@),
            final(self)@.wf(),
    {
        proof {
            reveal(cb_step);
        }
        let cb_opcode = self.fetch_u8();
        self.exec_cb(cb_opcode);
        let cb_cycles: u8 = if (cb_opcode % 8) == 6 {
            if (cb_opcode / 64) == 1 {
                12
            } else {
                16
            }
        } else {
            8
        };
        self.last_cycle_timestamp = cb_cycles;
        self.tick_bus(cb_cycles as u16);
        self.end_instruction();
    }

    /// Runs the rest of an unprefixed instruction.
    fn run_instruction(&mut self, opcode: u8)
        requires
            old(self)@.wf(),
            decode_spec(opcode, false) is Some,
        ensures
            final(self)@ == instruction_step(old(self)@, opcode),
            final(self)@.wf(),
    {
        proof {
            reveal(instruction_step);
        }
        let instr = match Instruction::decode(opcode, false) {
            Some(i) => i,
            None => {
                proof {
                    assert(false);
                }
                return ;
            },
        };
        let cycles = execute(self, instr, false);
        self.last_cycle_timestamp = cycles;
        self.tick_bus(cycles as u16);
        let was_ei = matches!(instr, Instruction::EI);
        self.end_instruction();
        if self.ime_scheduled && !was_ei {
            self.ime = true;
            self.ime_scheduled = false;
        }
    }

    /// Same as fetching a byte of the current instruction.
    pub fn next_byte(&mut self) -> (v: u8)
        requires
            old(self)@.wf(),
        ensures
            (final(self)@, v) == fetch_byte(old(self)@),
    {
        self.fetch_u8()
    }

    /// Same as fetching a word of the current instruction.
    pub fn next_word(&mut self) -> (v: u16)
        requires
            old(self)@.wf(),
        ensures
            (final(self)@, v) == fetch_word(old(self)@),
    {
        self.fetch_u16()
    }

    /// Pushes a word: the high byte at SP-1, the low byte at SP-2.
    pub fn push_word(&mut self, value: u16)
        requires
            old(self)@.wf(),
        ensures
            final(self)@ == push_word(old(self)@, value),
            final(self)@.wf(),
    {
        proof {
            lemma_wrap(self.sp - 1, 0x10000);
            lemma_wrap((self.sp - 1) % 0x10000 - 1, 0x10000);
        }
        self.sp = self.sp.wrapping_sub(1);
        self.bus.write_byte(self.sp, (value / 256) as u8);
        self.sp = self.sp.wrapping_sub(1);
        self.bus.write_byte(self.sp, (value % 256) as u8);
    }

    /// Pops a word: the low byte at SP, the high byte at SP+1.
    pub fn pop_word(&mut self) -> (v: u16)
        requires
            old(self)@.wf(),
        ensures
            (final(self)@, v) == pop_word(old(self)@),
            final(self)@.wf(),
    {
        proof {
            lemma_wrap(self.sp + 1, 0x10000);
            lemma_wrap((self.sp + 1) % 0x10000 + 1, 0x10000);
        }
        let lo = self.bus.read_byte(self.sp) as u16;
        self.sp = self.sp.wrapping_add(1);
        let hi = self.bus.read_byte(self.sp) as u16;
        self.sp = self.sp.wrapping_add(1);
        hi * 256 + lo
    }

    /// Inserts a cartridge and starts at 0x0100, past the boot ROM.
    pub fn load_rom(&mut self, rom: &[u8])
        requires
            old(self)@.wf(),
        ensures
            final(self)@ == (CpuState { bus: old(self)@.bus.with_rom(rom@), pc: 0x0100, ..old(self)@ }),
            final(self)@.wf(),
    {
        self.bus.load_rom(rom);
        self.pc = 0x0100;
    }

    /// Runs `steps` steps.
    pub fn run_steps(&mut self, steps: usize)
        requires
            old(self)@.wf(),
            run_defined(old(self)@, steps as nat),
        ensures
            final(self)@ == run_spec(old(self)@, steps as nat),
            final(self)@.wf(),
    {
        let ghost c0 = self@;
        for i in 0..steps
            invariant
                self@.wf(),
                run_spec(c0, steps as nat) == run_spec(self@, (steps - i) as nat),
                run_defined(self@, (steps - i) as nat),
        {
            self.step();
        }
    }

    /// Advances the timer by `t_cycles` T-cycles.
    #[allow(dead_code)]
    fn tick_timer(&mut self, t_cycles: u32)
        ensures
            final(self)@ == (CpuState {
                bus: crate::bus::spec::timer_ticks(old(self)@.bus, t_cycles as nat),
                ..old(self)@
            }),
    {
        let ghost c0 = self@;
        for i in 0..t_cycles
            invariant
                self@ == (CpuState { bus: crate::bus::spec::timer_ticks(c0.bus, i as nat), ..c0 }),
        {
            self.bus.tick_timer();
        }
    }

    /// Dispatches the highest-priority pending interrupt when IME is on,
    /// and tells whether it did.
    fn service_interrupts(&mut self) -> (done: bool)
        requires
            old(self)@.wf(),
        ensures
            done == (old(self).ime && pending_mask(old(self)@.bus) != 0 && highest_priority(
                pending_mask(old(self)@.bus),
            ) is Some),
            done ==> final(self)@ == service_spec(
                old(self)@,
                (highest_priority(pending_mask(old(self)@.bus))->0).0,
                (highest_priority(pending_mask(old(self)@.bus))->0).1,
            ),
            !done ==> final(self)@ == old(self)@,
            final(self)@.wf(),
    {
        let pending = self.pending_mask();
        if self.ime && pending != 0 {
            if let Some((bit, addr)) = Self::highest_priority(pending) {
                let iflag = self.bus.read_byte(0xFF0F);
                self.bus.write_byte(0xFF0F, iflag & !bit);
                self.ime = false;
                self.ime_scheduled = false;
                self.halted = false;
                let pc = self.pc;
                self.push_word(pc);
                self.pc = addr;
                self.fetch_pc = self.pc;
                self.fetch_pc_valid = false;
                return true;
            }
        }
        false
    }

    /// ADD's result and flags; A itself is left for the caller to set.
    pub fn add(&mut self, value: u8) -> (r: u8)
        ensures
            r == alu_add(old(self)@.regs, value).a,
            final(self)@ == (CpuState {
                regs: RegFile { a: old(self)@.regs.a, ..alu_add(old(self)@.regs, value) },
                ..old(self)@
            }),
    {
        let a = self.regs.a();
        let sum = a as u16 + value as u16;
        let new_value = (sum % 256) as u8;
        self.regs.set_z(new_value == 0);
        self.regs.set_n(false);
        self.regs.set_carry(sum > 0xFF);
        self.regs.set_hc((a % 16) + (value % 16) > 0xF);
        new_value
    }

    /// ADD HL,rr's result and flags (Z untouched); HL is left for the caller to set.
    pub fn add_hl_rr(&mut self, register: u16) -> (r: u16)
        ensures
            r == alu_add_hl(old(self)@.regs, register).hl(),
            final(self)@ == (CpuState {
                regs: RegFile {
                    h: old(self)@.regs.h,
                    l: old(self)@.regs.l,
                    ..alu_add_hl(old(self)@.regs, register)
                },
                ..old(self)@
            }),
    {
        let hl = self.regs.get_hl();
        let sum = (hl as u32) + (register as u32);
        let res = (sum % 0x10000) as u16;
        self.regs.set_n(false);
        self.regs.set_hc(((hl % 0x1000) + (register % 0x1000)) > 0x0FFF);
        self.regs.set_carry(sum > 0xFFFF);
        proof {
            assert(pair(hi_byte(res), lo_byte(res)) == res);
        }
        res
    }

    /// SUB's result and flags; A itself is left for the caller to set.
    pub fn sub(&mut self, value: u8) -> (r: u8)
        ensures
            r == alu_sub(old(self)@.regs, value).a,
            final(self)@ == (CpuState {
                regs: RegFile { a: old(self)@.regs.a, ..alu_sub(old(self)@.regs, value) },
                ..old(self)@
            }),
    {
        let a = self.regs.a();
        let new_value = if a >= value { a - value } else { (a as u16 + 256 - value as u16) as u8 };
        proof {
            lemma_wrap(a - value, 256);
        }
        self.regs.set_z(new_value == 0);
        self.regs.set_n(true);
        self.regs.set_carry(a < value);
        self.regs.set_hc((a % 16) < (value % 16));
        new_value
    }

    fn read_cb(&self, reg: u8) -> (v: u8)
        requires
            self@.wf(),
            reg < 8,
        ensures
            v == cb_read(self@, reg),
    {
        if reg == 0 {
            self.regs.b()
        } else if reg == 1 {
            self.regs.c()
        } else if reg == 2 {
            self.regs.d()
        } else if reg == 3 {
            self.regs.e()
        } else if reg == 4 {
            self.regs.h()
        } else if reg == 5 {
            self.regs.l()
        } else if reg == 6 {
            let addr = self.regs.get_hl();
            self.bus.read_byte(addr)
        } else {
            self.regs.a()
        }
    }

    fn write_cb(&mut self, reg: u8, value: u8)
        requires
            old(self)@.wf(),
            reg < 8,
        ensures
            final(self)@ == cb_write(old(self)@, reg, value),
            final(self)@.wf(),
    {
        let r = self.regs.get_all();
        if reg == 6 {
            self.write_mem(pair_of(r.h, r.l), value);
        } else {
            let nr = if reg == 0 {
                RegFile { b: value, ..r }
            } else if reg == 1 {
                RegFile { c: value, ..r }
            } else if reg == 2 {
                RegFile { d: value, ..r }
            } else if reg == 3 {
                RegFile { e: value, ..r }
            } else if reg == 4 {
                RegFile { h: value, ..r }
            } else if reg == 5 {
                RegFile { l: value, ..r }
            } else {
                RegFile { a: value, ..r }
            };
            self.set_regs(nr);
        }
    }

    fn cb_shift(kind: u8, x: u8, carry_in: bool) -> (r: (u8, bool))
        requires
            kind < 8,
        ensures
            r == cb_shift(kind, x, carry_in),
    {
        let ci: u8 = if carry_in { 1 } else { 0 };
        if kind == 0 {
            ((x % 128) * 2 + x / 128, x >= 128)
        } else if kind == 1 {
            (x / 2 + (x % 2) * 128, x % 2 == 1)
        } else if kind == 2 {
            ((x % 128) * 2 + ci, x >= 128)
        } else if kind == 3 {
            (x / 2 + ci * 128, x % 2 == 1)
        } else if kind == 4 {
            ((x % 128) * 2, x >= 128)
        } else if kind == 5 {
            (x / 2 + (if x >= 128 { 128 } else { 0 }), x % 2 == 1)
        } else if kind == 6 {
            ((x % 16) * 16 + x / 16, false)
        } else {
            (x / 2, x % 2 == 1)
        }
    }

    /// Executes a CB-prefixed operation.
    fn exec_cb(&mut self, op: u8)
        requires
            old(self)@.wf(),
        ensures
            final(self)@ == cb_spec(old(self)@, op),
            final(self)@.wf(),
    {
        let r = op % 8;
        let group = op / 64;
        let n = (op / 8) % 8;
        let x = self.read_cb(r);
        let regs = self.regs.get_all();
        if group == 0 {
            let (res, carry) = Self::cb_shift(n, x, regs.cf);
            self.write_cb(r, res);
            let regs2 = self.regs.get_all();
            self.set_regs(RegFile { zf: res == 0, nf: false, hf: false, cf: carry, ..regs2 });
        } else if group == 1 {
            let zero = (x & (1u8 << n)) == 0;
            self.set_regs(RegFile { zf: zero, nf: false, hf: true, ..regs });
        } else if group == 2 {
            let res = x & !(1u8 << n);
            self.write_cb(r, res);
        } else {
            let res = x | (1u8 << n);
            self.write_cb(r, res);
        }
    }
}

} // verus!
