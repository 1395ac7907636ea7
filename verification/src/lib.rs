use vstd::prelude::*;

pub mod bus;
pub mod cpu;
pub mod display;
pub mod error;
pub mod ppu;
pub mod wrap;

pub use bus::Bus;
pub use cpu::Cpu;
pub use error::EmulatorError;
pub use ppu::Ppu;

use crate::bus::spec::{joypad_read, BusState};
use crate::bus::spec::lemma_tick_ppu;
use crate::cpu::spec::{
    fetch_execute, highest_priority, pending_mask, step_defined, step_spec, woken, CpuState,
};
use crate::ppu::{
    lemma_step_distance, lemma_step_settles, max_frame_distance, frame_distance, settled, PpuState,
};

verus! {

/// Game Boy buttons.
#[derive(Copy, Clone, Debug, PartialEq, Eq, Structural)]
pub enum Button {
    Right,
    Left,
    Up,
    Down,
    A,
    B,
    Start,
    Select,
}

/// Whether a button is one of the direction keys (joypad line P14) rather
/// than an action button (line P15).
pub open spec fn is_direction(button: Button) -> bool {
    match button {
        Button::Right | Button::Left | Button::Up | Button::Down => true,
        _ => false,
    }
}

/// The bit of a button in its joypad register.
pub open spec fn button_mask(button: Button) -> u8 {
    match button {
        Button::Right | Button::A => 0x01,
        Button::Left | Button::B => 0x02,
        Button::Up | Button::Select => 0x04,
        Button::Down | Button::Start => 0x08,
    }
}

/// A joypad register after a key on `mask` is pressed or released: the
/// registers are active low, so pressing clears the bit and releasing sets it.
pub open spec fn key_level(reg: u8, mask: u8, pressed: bool) -> u8 {
    if pressed {
        reg & !mask
    } else {
        reg | mask
    }
}

/// A joypad register after a key on `mask` changes.
fn apply_key(reg: u8, mask: u8, pressed: bool) -> (r: u8)
    ensures
        r == key_level(reg, mask, pressed),
{
    if pressed {
        reg & !mask
    } else {
        reg | mask
    }
}

/// The joypad bit of a key given by number: keys 0-3 are Right, Left, Up,
/// Down (bits 0-3 of the direction keys) and 4-7 are A, B, Start, Select
/// (bits 0, 1, 3, 2 of the action buttons); any other number stands for
/// bit `keycode & 3`.
pub open spec fn key_mask(keycode: u8) -> u8 {
    if keycode == 6 {
        0x08
    } else if keycode == 7 {
        0x04
    } else {
        (1u8 << (keycode & 0x03)) as u8
    }
}

/// The joypad bit of a key given by number.
fn key_bit(keycode: u8) -> (m: u8)
    ensures
        m == key_mask(keycode),
{
    if keycode == 6 {
        0x08
    } else if keycode == 7 {
        0x04
    } else {
        let bit = keycode & 0x03;
        assert(bit < 8) by (bit_vector)
            requires
                bit == keycode & 0x03,
        ;
        1u8 << bit
    }
}

/// The bus after a button changes.
pub open spec fn with_button(bus: BusState, button: Button, pressed: bool) -> BusState {
    if is_direction(button) {
        BusState { joypad_dpad: key_level(bus.joypad_dpad, button_mask(button), pressed), ..bus }
    } else {
        BusState {
            joypad_buttons: key_level(bus.joypad_buttons, button_mask(button), pressed),
            ..bus
        }
    }
}

/// The bus after a key given by number changes: keys 0-3 are the direction
/// keys, the others the action buttons.
pub open spec fn with_key(bus: BusState, keycode: u8, pressed: bool) -> BusState {
    let mask = key_mask(keycode);
    if keycode < 4 {
        BusState { joypad_dpad: key_level(bus.joypad_dpad, mask, pressed), ..bus }
    } else {
        BusState { joypad_buttons: key_level(bus.joypad_buttons, mask, pressed), ..bus }
    }
}

/// The joypad register that holds a button.
pub open spec fn button_register(bus: BusState, button: Button) -> u8 {
    if is_direction(button) {
        bus.joypad_dpad
    } else {
        bus.joypad_buttons
    }
}

/// Whether the joypad register selects a button's line for reading
/// (P14 for the direction keys, P15 for the action buttons; active low).
pub open spec fn line_selected(bus: BusState, button: Button) -> bool {
    if is_direction(button) {
        bus.joypad_select & 0x10 == 0
    } else {
        bus.joypad_select & 0x20 == 0
    }
}

/// The joypad is active low: pressing a button clears its bit, releasing
/// sets it, the register's other bits and the other register stay as they
/// were, and with its line selected, reading 0xFF00 shows a pressed button
/// as a 0 bit.
pub proof fn lemma_button_active_low(bus: BusState, button: Button, pressed: bool)
    ensures
        button_register(with_button(bus, button, true), button) & button_mask(button) == 0,
        button_register(with_button(bus, button, false), button) & button_mask(button)
            == button_mask(button),
        button_register(with_button(bus, button, pressed), button) & !button_mask(button)
            == button_register(bus, button) & !button_mask(button),
        is_direction(button) ==> with_button(bus, button, pressed).joypad_buttons == bus.joypad_buttons,
        !is_direction(button) ==> with_button(bus, button, pressed).joypad_dpad == bus.joypad_dpad,
        line_selected(bus, button) ==> joypad_read(with_button(bus, button, true)) & button_mask(
            button,
        ) == 0,
{
    let m = button_mask(button);
    let reg = button_register(bus, button);
    assert(m == 1 || m == 2 || m == 4 || m == 8);
    assert(m & 0xF0 == 0) by (bit_vector)
        requires
            m == 1 || m == 2 || m == 4 || m == 8,
    ;
    assert((reg & !m) & m == 0 && (reg | m) & m == m && (reg & !m) & !m == reg & !m && (reg | m) & !m
        == reg & !m) by (bit_vector);
    let b1 = with_button(bus, button, true);
    let d = b1.joypad_dpad;
    let k = b1.joypad_buttons;
    let sel = b1.joypad_select;
    let ls = line_selected(bus, button);
    if is_direction(button) {
        assert(ls ==> {
            let r0: u8 = 0xCF;
            let r1 = if sel & 0x10 == 0 { r0 & (0xF0 | d) } else { r0 };
            let r2 = if sel & 0x20 == 0 { r1 & (0xF0 | k) } else { r1 };
            (r2 | (sel & 0x30)) & m == 0
        }) by (bit_vector)
            requires
                d & m == 0,
                m & 0xF0 == 0,
                ls == (sel & 0x10 == 0),
        ;
    } else {
        assert(ls ==> {
            let r0: u8 = 0xCF;
            let r1 = if sel & 0x10 == 0 { r0 & (0xF0 | d) } else { r0 };
            let r2 = if sel & 0x20 == 0 { r1 & (0xF0 | k) } else { r1 };
            (r2 | (sel & 0x30)) & m == 0
        }) by (bit_vector)
            requires
                k & m == 0,
                m & 0xF0 == 0,
                ls == (sel & 0x20 == 0),
        ;
    }
}

/// The button a key number 0-7 stands for.
pub open spec fn key_button(keycode: u8) -> Button {
    if keycode == 0 {
        Button::Right
    } else if keycode == 1 {
        Button::Left
    } else if keycode == 2 {
        Button::Up
    } else if keycode == 3 {
        Button::Down
    } else if keycode == 4 {
        Button::A
    } else if keycode == 5 {
        Button::B
    } else if keycode == 6 {
        Button::Start
    } else {
        Button::Select
    }
}

/// The numbered keys 0-7 act exactly as the buttons they stand for.
pub proof fn lemma_keys_are_buttons(bus: BusState, keycode: u8, pressed: bool)
    requires
        keycode < 8,
    ensures
        with_key(bus, keycode, pressed) == with_button(bus, key_button(keycode), pressed),
{
    assert(keycode < 6 ==> (1u8 << (keycode & 0x03)) as u8 == if keycode % 4 == 0 {
        1u8
    } else if keycode % 4 == 1 {
        2u8
    } else if keycode % 4 == 2 {
        4u8
    } else {
        8u8
    }) by (bit_vector);
}

/// The CPU with a cartridge just inserted: power-on state, the ROM loaded
/// on the bus.
pub open spec fn booted(rom: Seq<u8>) -> CpuState {
    CpuState { bus: BusState::power_on().with_rom(rom), ..CpuState::power_on() }
}

/// The cycle budget of one frame: twice the 70224 T-cycles of a frame.
pub const FRAME_CYCLE_LIMIT: u32 = 140448;

/// The CPU with the frame-ready flag cleared.
pub open spec fn frame_consumed(c: CpuState) -> CpuState {
    CpuState {
        bus: BusState { ppu: PpuState { frame_ready: false, ..c.bus.ppu }, ..c.bus },
        ..c
    }
}

/// Runs steps until the PPU has a frame ready or the cycle budget is spent,
/// `cycles` and `steps` having been spent already. Each step adds the length
/// of the last executed instruction to the count. The count of steps bounds
/// the recursion; `lemma_frame_run_complete` shows it never ends the run
/// before a frame or the budget does.
/// The result is the state where the run stops, whether every step it took
/// was defined (false: it stopped at an opcode the decoder lacks), and the
/// cycles counted by then.
pub open spec fn frame_run(c: CpuState, cycles: nat, steps: nat) -> (CpuState, bool, nat)
    decreases FRAME_CYCLE_LIMIT - steps,
{
    if c.bus.ppu.frame_ready || cycles >= FRAME_CYCLE_LIMIT || steps >= FRAME_CYCLE_LIMIT {
        (c, true, cycles)
    } else if !step_defined(c) {
        (c, false, cycles)
    } else {
        let c1 = step_spec(c);
        frame_run(c1, cycles + c1.last_cycle_timestamp as nat, steps + 1)
    }
}

/// Once an instruction has run, a frame run ends with a frame ready or the
/// cycle budget spent: every step then counts at least one cycle, so the
/// step cap is never what stops it.
pub proof fn lemma_frame_run_ends(c: CpuState, cycles: nat, steps: nat)
    requires
        c.last_cycle_timestamp >= 1,
        cycles >= steps,
    ensures
        frame_run(c, cycles, steps).1 ==> frame_run(c, cycles, steps).0.bus.ppu.frame_ready
            || frame_run(c, cycles, steps).2 >= FRAME_CYCLE_LIMIT,
    decreases FRAME_CYCLE_LIMIT - steps,
{
    if !(c.bus.ppu.frame_ready || cycles >= FRAME_CYCLE_LIMIT || steps >= FRAME_CYCLE_LIMIT)
        && step_defined(c) {
        let c1 = step_spec(c);
        cpu::spec::lemma_step_timestamp(c);
        lemma_frame_run_ends(c1, cycles + c1.last_cycle_timestamp as nat, steps + 1);
    }
}

/// With an instruction of at least 4 T-cycles behind it, a frame run whose
/// remaining steps could count the rest of the budget ends with a frame
/// ready or the budget spent.
proof fn lemma_frame_run_counted(c: CpuState, cycles: nat, steps: nat)
    requires
        c.last_cycle_timestamp >= 4,
        steps <= FRAME_CYCLE_LIMIT,
        4 * (FRAME_CYCLE_LIMIT - steps) >= FRAME_CYCLE_LIMIT - cycles,
    ensures
        frame_run(c, cycles, steps).1 ==> frame_run(c, cycles, steps).0.bus.ppu.frame_ready
            || frame_run(c, cycles, steps).2 >= FRAME_CYCLE_LIMIT,
    decreases FRAME_CYCLE_LIMIT - steps,
{
    if !(c.bus.ppu.frame_ready || cycles >= FRAME_CYCLE_LIMIT || steps >= FRAME_CYCLE_LIMIT)
        && step_defined(c) {
        let c1 = step_spec(c);
        cpu::spec::lemma_step_timestamp(c);
        lemma_frame_run_counted(c1, cycles + c1.last_cycle_timestamp as nat, steps + 1);
    }
}

/// Steps a picture processor may still need, 4 T-cycles at a time, before
/// its next frame: none when one is ready, and for a state not yet settled
/// one step more than for any settled one.
pub open spec fn frame_budget(p: PpuState) -> int {
    if p.frame_ready {
        0
    } else if settled(p) {
        frame_distance(p) / 4 + 1
    } else {
        max_frame_distance() / 4 + 2
    }
}

/// Before any instruction has run, the steps are halted or stopped ones,
/// which let 4 T-cycles pass and bring the frame closer, or one interrupt
/// dispatch, after which an instruction runs. Either way the run ends with
/// a frame ready or the cycle budget spent.
proof fn lemma_frame_run_uncounted(c: CpuState, steps: nat)
    requires
        c.last_cycle_timestamp == 0,
        c.bus.ppu.sized(),
        steps + frame_budget(c.bus.ppu) + 35114 <= FRAME_CYCLE_LIMIT,
    ensures
        frame_run(c, 0, steps).1 ==> frame_run(c, 0, steps).0.bus.ppu.frame_ready || frame_run(
            c,
            0,
            steps,
        ).2 >= FRAME_CYCLE_LIMIT,
    decreases FRAME_CYCLE_LIMIT - steps,
{
    let p = c.bus.ppu;
    if !p.frame_ready && step_defined(c) {
        reveal(step_spec);
        let c1 = woken(c);
        let cn = step_spec(c);
        if settled(p) {
            lemma_step_distance(p, 4);
        }
        if c1.stopped || c1.halted {
            lemma_tick_ppu(c1.bus, 4);
            lemma_step_settles(p, 4);
            let pn = cn.bus.ppu;
            if !pn.frame_ready {
                lemma_step_distance(pn, 4);
            }
            assert(frame_budget(pn) <= frame_budget(p) - 1);
            assert(frame_run(c, 0, steps) == frame_run(cn, 0, steps + 1));
            lemma_frame_run_uncounted(cn, steps + 1);
        } else if c1.ime && pending_mask(c1.bus) != 0 && highest_priority(pending_mask(c1.bus)) is Some {
            assert(!cn.halted && !cn.stopped && !cn.ime && cn.last_cycle_timestamp == 0);
            assert(frame_run(c, 0, steps) == frame_run(cn, 0, steps + 1));
            if !cn.bus.ppu.frame_ready && step_defined(cn) {
                assert(woken(cn) == cn);
                let c2 = step_spec(cn);
                assert(c2 == fetch_execute(cn));
                cpu::spec::lemma_fetch_execute_timestamp(cn);
                assert(frame_run(cn, 0, steps + 1) == frame_run(
                    c2,
                    c2.last_cycle_timestamp as nat,
                    steps + 2,
                ));
                lemma_frame_run_counted(c2, c2.last_cycle_timestamp as nat, steps + 2);
            }
        } else {
            assert(cn == fetch_execute(c1));
            cpu::spec::lemma_fetch_execute_timestamp(c1);
            lemma_frame_run_counted(cn, cn.last_cycle_timestamp as nat, steps + 1);
        }
    }
}

/// A frame run ends with a frame ready or the cycle budget spent, from any
/// state: the step cap is never what stops it.
pub proof fn lemma_frame_run_complete(c: CpuState)
    requires
        c.bus.ppu.sized(),
    ensures
        frame_run(c, 0, 0).1 ==> frame_run(c, 0, 0).0.bus.ppu.frame_ready || frame_run(c, 0, 0).2
            >= FRAME_CYCLE_LIMIT,
{
    if c.last_cycle_timestamp >= 4 {
        lemma_frame_run_counted(c, 0, 0);
    } else if c.last_cycle_timestamp >= 1 {
        lemma_frame_run_ends(c, 0, 0);
    } else {
        if settled(c.bus.ppu) && !c.bus.ppu.frame_ready {
            lemma_step_distance(c.bus.ppu, 4);
        }
        lemma_frame_run_uncounted(c, 0);
    }
}

/// The eight bytes of a `u64`, least significant first.
pub open spec fn le_bytes(n: u64) -> Seq<u8> {
    seq![
        (n % 0x100) as u8,
        (n / 0x100 % 0x100) as u8,
        (n / 0x10000 % 0x100) as u8,
        (n / 0x1000000 % 0x100) as u8,
        (n / 0x100000000 % 0x100) as u8,
        (n / 0x10000000000 % 0x100) as u8,
        (n / 0x1000000000000 % 0x100) as u8,
        (n / 0x100000000000000 % 0x100) as u8,
    ]
}

/// The number that the first eight bytes of `b` spell, least significant
/// first.
pub open spec fn le_value(b: Seq<u8>) -> int {
    b[0] + b[1] * 0x100 + b[2] * 0x10000 + b[3] * 0x1000000 + b[4] * 0x100000000 + b[5]
        * 0x10000000000 + b[6] * 0x1000000000000 + b[7] * 0x100000000000000
}

/// A save state as it is written: the ROM length as eight little-endian
/// bytes, then the CPU's serialized state.
pub open spec fn state_frame(rom_len: nat, cpu_bytes: Seq<u8>) -> Seq<u8> {
    le_bytes(rom_len as u64) + cpu_bytes
}

/// The message a save state is refused with by an emulator holding a ROM of
/// `rom_len` bytes, before its CPU state is read; `None` when the header
/// fits.
pub open spec fn state_header_error(rom_len: nat, data: Seq<u8>) -> Option<Seq<char>> {
    if data.len() < 8 {
        Some("Data too short"@)
    } else if le_value(data) != rom_len {
        Some(
            "ROM size mismatch: state expects "@ + error::decimal(le_value(data) as nat)
                + " bytes, loaded ROM is "@ + error::decimal(rom_len) + " bytes"@,
        )
    } else {
        None
    }
}

/// A `u64` is the sum of its base-256 digits.
proof fn lemma_le_digits(n: u64)
    by (bit_vector)
    ensures
        n == n % 0x100 + (n / 0x100 % 0x100) * 0x100 + (n / 0x10000 % 0x100) * 0x10000 + (n / 0x1000000
            % 0x100) * 0x1000000 + (n / 0x100000000 % 0x100) * 0x100000000 + (n / 0x10000000000 % 0x100)
            * 0x10000000000 + (n / 0x1000000000000 % 0x100) * 0x1000000000000 + (n / 0x100000000000000
            % 0x100) * 0x100000000000000,
{
}

/// Writing a ROM length into a save state's header and reading it back gives
/// the same length, so a state is accepted by an emulator holding a ROM of the
/// length it was saved with, and its payload is what was written.
pub proof fn lemma_state_frame_roundtrip(rom_len: u64, cpu_bytes: Seq<u8>)
    ensures
        le_value(le_bytes(rom_len)) == rom_len,
        state_header_error(rom_len as nat, state_frame(rom_len as nat, cpu_bytes)) is None,
        state_frame(rom_len as nat, cpu_bytes).subrange(8, state_frame(rom_len as nat, cpu_bytes).len() as int)
            == cpu_bytes,
{
    let b = le_bytes(rom_len);
    lemma_le_digits(rom_len);
    assert(le_value(b) == rom_len);
    let f = state_frame(rom_len as nat, cpu_bytes);
    assert(f.subrange(0, 8) =~= b);
    assert(f.subrange(8, f.len() as int) =~= cpu_bytes);
}

/// The emulator: the CPU with everything it drives, and a copy of the
/// loaded ROM for resets.
pub struct Emulator {
    pub cpu: Cpu,
    rom_data: Vec<u8>,
}

impl Emulator {
    /// The loaded ROM image (empty when none is loaded).
    pub closed spec fn rom_image(&self) -> Seq<u8> {
        self.rom_data@
    }

    /// The CPU's state.
    pub closed spec fn cpu_state(&self) -> CpuState {
        self.cpu@
    }

    /// The bus, as a value.
    pub closed spec fn bus_value(&self) -> Bus {
        self.cpu.bus
    }

    /// The emulator's invariant: the CPU's.
    pub closed spec fn wf(&self) -> bool {
        self.cpu@.wf()
    }

    /// A new emulator at power-on, with no ROM.
    pub fn new() -> (e: Self)
        ensures
            e.wf(),
            e.cpu_state() == CpuState::power_on(),
            e.rom_image() == Seq::<u8>::empty(),
    {
        Self { cpu: Cpu::new(), rom_data: Vec::new() }
    }

    /// Loads a cartridge and restarts the CPU on it. A ROM shorter than its
    /// header (0x150 bytes) is refused.
    pub fn load_rom(&mut self, data: &[u8]) -> (r: Result<(), EmulatorError>)
        requires
            old(self).wf(),
        ensures
            final(self).wf(),
            data@.len() < 0x150 ==> {
                &&& r matches Err(EmulatorError::InvalidRom(m))
                &&& m@ == "ROM too small: "@ + error::decimal(data@.len()) + " bytes (minimum 336)"@
                &&& final(self).cpu_state() == old(self).cpu_state()
                &&& final(self).rom_image() == old(self).rom_image()
            },
            data@.len() >= 0x150 ==> {
                &&& r is Ok
                &&& final(self).cpu_state() == booted(data@)
                &&& final(self).rom_image() == data@
            },
    {
        if data.len() < 0x150 {
            return Err(EmulatorError::InvalidRom(error::rom_too_small_message(data.len())));
        }
        self.rom_data = vstd::slice::slice_to_vec(data);
        self.cpu = Cpu::new();
        self.cpu.bus.load_rom(data);
        Ok(())
    }

    /// Inserts a cartridge into the running machine, without a restart and
    /// without keeping a copy for resets.
    pub fn load(&mut self, data: &[u8])
        requires
            old(self).wf(),
        ensures
            final(self).wf(),
            final(self).cpu_state() == (CpuState { bus: old(self).cpu_state().bus.with_rom(data@), ..old(self).cpu_state() }),
            final(self).rom_image() == old(self).rom_image(),
    {
        self.cpu.bus.load_rom(data);
    }

    /// Whether a ROM is loaded.
    pub fn rom_loaded(&self) -> (b: bool)
        ensures
            b == (self.rom_image().len() > 0),
    {
        self.rom_data.len() > 0
    }

    /// Runs one frame: steps until the PPU has a frame ready or twice a
    /// frame's cycles have passed, then clears the frame-ready flag.
    pub fn step_frame(&mut self)
        requires
            old(self).wf(),
            frame_run(old(self).cpu_state(), 0, 0).1,
        ensures
            final(self).wf(),
            final(self).cpu_state() == frame_consumed(frame_run(old(self).cpu_state(), 0, 0).0),
            final(self).rom_image() == old(self).rom_image(),
            frame_run(old(self).cpu_state(), 0, 0).0.bus.ppu.frame_ready || frame_run(
                old(self).cpu_state(),
                0,
                0,
            ).2 >= FRAME_CYCLE_LIMIT,
    {
        proof {
            lemma_frame_run_complete(self.cpu@);
        }
        let ghost c0 = self.cpu@;
        let mut cycles: u32 = 0;
        let mut steps: u32 = 0;
        while !self.cpu.bus.ppu.frame_ready && cycles < FRAME_CYCLE_LIMIT && steps < FRAME_CYCLE_LIMIT
            invariant
                self.wf(),
                self.rom_data@ == old(self).rom_data@,
                frame_run(c0, 0, 0) == frame_run(self.cpu@, cycles as nat, steps as nat),
                frame_run(self.cpu@, cycles as nat, steps as nat).1,
                cycles < FRAME_CYCLE_LIMIT + 256,
                steps <= FRAME_CYCLE_LIMIT,
            decreases FRAME_CYCLE_LIMIT - steps,
        {
            self.cpu.step();
            cycles = cycles + self.cpu.last_cycle_timestamp as u32;
            steps = steps + 1;
        }
        self.cpu.bus.ppu.frame_ready = false;
    }

    /// Runs one frame as `step_frame` does, but checks each step first and
    /// stops, returning false, at an opcode the decoder lacks.
    pub fn step_frame_checked(&mut self) -> (ok: bool)
        requires
            old(self).wf(),
        ensures
            final(self).wf(),
            ok == frame_run(old(self).cpu_state(), 0, 0).1,
            ok ==> final(self).cpu_state() == frame_consumed(frame_run(old(self).cpu_state(), 0, 0).0),
            !ok ==> final(self).cpu_state() == frame_run(old(self).cpu_state(), 0, 0).0,
            final(self).rom_image() == old(self).rom_image(),
            ok ==> frame_run(old(self).cpu_state(), 0, 0).0.bus.ppu.frame_ready || frame_run(
                old(self).cpu_state(),
                0,
                0,
            ).2 >= FRAME_CYCLE_LIMIT,
    {
        proof {
            lemma_frame_run_complete(self.cpu@);
        }
        let ghost c0 = self.cpu@;
        let mut cycles: u32 = 0;
        let mut steps: u32 = 0;
        while !self.cpu.bus.ppu.frame_ready && cycles < FRAME_CYCLE_LIMIT && steps < FRAME_CYCLE_LIMIT
            invariant
                self.wf(),
                c0 == old(self).cpu@,
                self.rom_data@ == old(self).rom_data@,
                frame_run(c0, 0, 0) == frame_run(self.cpu@, cycles as nat, steps as nat),
                cycles < FRAME_CYCLE_LIMIT + 256,
                steps <= FRAME_CYCLE_LIMIT,
            decreases FRAME_CYCLE_LIMIT - steps,
        {
            if !self.cpu.next_step_defined() {
                assert(frame_run(self.cpu@, cycles as nat, steps as nat) == (
                    self.cpu@,
                    false,
                    cycles as nat,
                ));
                return false;
            }
            self.cpu.step();
            cycles = cycles + self.cpu.last_cycle_timestamp as u32;
            steps = steps + 1;
        }
        self.cpu.bus.ppu.frame_ready = false;
        true
    }

    /// Executes one CPU step.
    pub fn step_instruction(&mut self)
        requires
            old(self).wf(),
            step_defined(old(self).cpu_state()),
        ensures
            final(self).wf(),
            final(self).cpu_state() == step_spec(old(self).cpu_state()),
            final(self).rom_image() == old(self).rom_image(),
    {
        self.cpu.step();
    }

    /// The framebuffer: 160x144 shade indices (0-3).
    pub fn framebuffer(&self) -> (fb: &[u8; 23040])
        ensures
            fb@ == self.cpu_state().bus.ppu.framebuffer,
            self.wf() ==> forall|i: int| 0 <= i < 23040 ==> #[trigger] fb@[i] <= 3,
    {
        &self.cpu.bus.ppu.framebuffer
    }

    /// Whether the PPU has a complete frame ready.
    pub fn frame_ready(&self) -> (b: bool)
        ensures
            b == self.cpu_state().bus.ppu.frame_ready,
    {
        self.cpu.bus.ppu.frame_ready
    }

    /// Clears the frame-ready flag once the frame is taken.
    pub fn clear_frame_ready(&mut self)
        requires
            old(self).wf(),
        ensures
            final(self).wf(),
            final(self).cpu_state() == frame_consumed(old(self).cpu_state()),
            final(self).rom_image() == old(self).rom_image(),
    {
        self.cpu.bus.ppu.frame_ready = false;
    }

    /// Presses a button.
    pub fn press_button(&mut self, button: Button)
        requires
            old(self).wf(),
        ensures
            final(self).wf(),
            final(self).cpu_state() == (CpuState { bus: with_button(old(self).cpu_state().bus, button, true), ..old(self).cpu_state() }),
            final(self).rom_image() == old(self).rom_image(),
    {
        self.set_button(button, true);
    }

    /// Releases a button.
    pub fn release_button(&mut self, button: Button)
        requires
            old(self).wf(),
        ensures
            final(self).wf(),
            final(self).cpu_state() == (CpuState { bus: with_button(old(self).cpu_state().bus, button, false), ..old(self).cpu_state() }),
            final(self).rom_image() == old(self).rom_image(),
    {
        self.set_button(button, false);
    }

    fn set_button(&mut self, button: Button, pressed: bool)
        requires
            old(self).wf(),
        ensures
            final(self).wf(),
            final(self).cpu_state() == (CpuState { bus: with_button(old(self).cpu_state().bus, button, pressed), ..old(self).cpu_state() }),
            final(self).rom_data@ == old(self).rom_data@,
    {
        let (is_dpad, mask): (bool, u8) = match button {
            Button::Right => (true, 0x01),
            Button::Left => (true, 0x02),
            Button::Up => (true, 0x04),
            Button::Down => (true, 0x08),
            Button::A => (false, 0x01),
            Button::B => (false, 0x02),
            Button::Select => (false, 0x04),
            Button::Start => (false, 0x08),
        };
        if is_dpad {
            self.cpu.bus.joypad_dpad = apply_key(self.cpu.bus.joypad_dpad, mask, pressed);
        } else {
            self.cpu.bus.joypad_buttons = apply_key(self.cpu.bus.joypad_buttons, mask, pressed);
        }
    }

    /// Frames a save state from the CPU's serialized state (or the error
    /// serializing it gave): the ROM length as eight little-endian bytes,
    /// then those bytes. The ROM itself is not included.
    pub fn save_state(&self, cpu_bytes: Result<Vec<u8>, String>) -> (r: Result<Vec<u8>, EmulatorError>)
        ensures
            match cpu_bytes {
                Ok(b) => r matches Ok(v) && v@ == state_frame(self.rom_image().len(), b@),
                Err(m) => r matches Err(EmulatorError::SaveStateFailed(m2)) && m2@ == m@,
            },
    {
        match cpu_bytes {
            Err(m) => Err(EmulatorError::SaveStateFailed(m)),
            Ok(b) => {
                let mut b = b;
                let n = self.rom_data.len() as u64;
                let mut out: Vec<u8> = Vec::new();
                out.push((n % 0x100) as u8);
                out.push((n / 0x100 % 0x100) as u8);
                out.push((n / 0x10000 % 0x100) as u8);
                out.push((n / 0x1000000 % 0x100) as u8);
                out.push((n / 0x100000000 % 0x100) as u8);
                out.push((n / 0x10000000000 % 0x100) as u8);
                out.push((n / 0x1000000000000 % 0x100) as u8);
                out.push((n / 0x100000000000000 % 0x100) as u8);
                assert(out@ =~= le_bytes(n));
                out.append(&mut b);
                Ok(out)
            },
        }
    }

    /// Restores a save state: checks its header against the loaded ROM, then
    /// takes the CPU state decoded from the bytes after it (or the error
    /// decoding them gave). On any error nothing changes.
    pub fn load_state(&mut self, data: &[u8], decoded: Result<Cpu, String>) -> (r: Result<(), EmulatorError>)
        requires
            old(self).wf(),
            decoded matches Ok(c) ==> c@.wf(),
        ensures
            final(self).wf(),
            final(self).rom_image() == old(self).rom_image(),
            match state_header_error(old(self).rom_image().len(), data@) {
                Some(msg) => {
                    &&& r matches Err(EmulatorError::LoadStateFailed(m)) && m@ == msg
                    &&& final(self).cpu_state() == old(self).cpu_state()
                },
                None => match decoded {
                    Ok(c) => r is Ok && final(self).cpu_state() == c@,
                    Err(e) => {
                        &&& r matches Err(EmulatorError::LoadStateFailed(m)) && m@ == e@
                        &&& final(self).cpu_state() == old(self).cpu_state()
                    },
                },
            },
    {
        if data.len() < 8 {
            proof {
                reveal_strlit("Data too short");
            }
            return Err(EmulatorError::LoadStateFailed("Data too short".to_owned()));
        }
        let rom_len = data[0] as u64 + data[1] as u64 * 0x100 + data[2] as u64 * 0x10000 + data[3] as u64
            * 0x1000000 + data[4] as u64 * 0x100000000 + data[5] as u64 * 0x10000000000 + data[6] as u64
            * 0x1000000000000 + data[7] as u64 * 0x100000000000000;
        if rom_len != self.rom_data.len() as u64 {
            return Err(
                EmulatorError::LoadStateFailed(
                    error::rom_size_mismatch_message(rom_len, self.rom_data.len()),
                ),
            );
        }
        match decoded {
            Ok(c) => {
                self.cpu = c;
                Ok(())
            },
            Err(e) => Err(EmulatorError::LoadStateFailed(e)),
        }
    }

    /// Restarts the CPU on the loaded ROM; does nothing when none is loaded.
    pub fn reset(&mut self)
        requires
            old(self).wf(),
        ensures
            final(self).wf(),
            old(self).rom_image().len() > 0 ==> final(self).cpu_state() == booted(old(self).rom_image()),
            old(self).rom_image().len() == 0 ==> final(self).cpu_state() == old(self).cpu_state(),
            final(self).rom_image() == old(self).rom_image(),
    {
        if self.rom_data.len() > 0 {
            let rom = self.rom_data.clone();
            self.cpu = Cpu::new();
            self.cpu.bus.load_rom(rom.as_slice());
        }
    }

    /// The bus.
    pub fn bus(&self) -> (b: &Bus)
        ensures
            *b == self.bus_value(),
            b@ == self.cpu_state().bus,
    {
        &self.cpu.bus
    }

    /// The bus, for changes; the CPU's other state and the ROM copy stay.
    pub fn bus_mut(&mut self) -> (b: &mut Bus)
        ensures
            *b == old(self).bus_value(),
            b@ == old(self).cpu_state().bus,
            final(self).cpu_state() == (CpuState { bus: final(b)@, ..old(self).cpu_state() }),
            final(self).rom_image() == old(self).rom_image(),
    {
        &mut self.cpu.bus
    }

    /// Presses or releases a key given by number: 0-3 are Right, Left, Up,
    /// Down; 4-7 are A, B, Start, Select.
    pub fn on_key(&mut self, keycode: u8, pressed: bool)
        requires
            old(self).wf(),
        ensures
            final(self).wf(),
            final(self).cpu_state() == (CpuState { bus: with_key(old(self).cpu_state().bus, keycode, pressed), ..old(self).cpu_state() }),
            final(self).rom_image() == old(self).rom_image(),
    {
        let mask = key_bit(keycode);
        if keycode < 4 {
            self.cpu.bus.joypad_dpad = apply_key(self.cpu.bus.joypad_dpad, mask, pressed);
        } else {
            self.cpu.bus.joypad_buttons = apply_key(self.cpu.bus.joypad_buttons, mask, pressed);
        }
    }
}

/// The framebuffer of an emulator holds shade indices 0-3 only: every
/// operation keeps the emulator's invariant, and the invariant says so.
pub proof fn lemma_framebuffer_shades(e: &Emulator)
    requires
        e.wf(),
    ensures
        e.cpu_state().bus.ppu.framebuffer.len() == 23040,
        forall|i: int| 0 <= i < 23040 ==> #[trigger] e.cpu_state().bus.ppu.framebuffer[i] <= 3,
{
}

impl Default for Emulator {
    fn default() -> (e: Self)
        ensures
            e.wf(),
            e.cpu_state() == CpuState::power_on(),
            e.rom_image() == Seq::<u8>::empty(),
    {
        Self::new()
    }
}

} // verus!
