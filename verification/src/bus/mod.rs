use vstd::prelude::*;
use crate::ppu::{Ppu, PpuState};
use crate::wrap::lemma_wrap;

pub mod spec;

use self::spec::{
    bus_read, bus_read_word, bus_tick, bus_write, bus_write_word, cart_write, effective_rom_bank,
    eram_bank, eram_write, increment_tima, io_write, joypad_read, lcd_write, lemma_low2,
    lemma_read_oam_frame, lemma_timer_ticks_frame, lemma_write_wf, oam_dma, request_mask, tac_bit_mask,
    timer_signal, timer_tick, timer_ticks, BusState,
};

verus! {

/// Cartridge type: which memory bank controller the cartridge carries.
#[derive(Clone, Copy, PartialEq, Eq, Debug, Structural)]
pub enum MbcType {
    /// No bank controller: a plain 32 KiB ROM.
    RomOnly,
    Mbc1,
    Mbc3,
}

/// The memory bus: work memory, the cartridge (ROM, external RAM and the
/// bank controller's registers), interrupt flags, timer and joypad.
pub struct Bus {
    pub memory: [u8; 0x10000],
    pub ppu: Ppu,
    /// IE (0xFFFF).
    pub ie: u8,
    /// IF (0xFF0F).
    pub i_flag: u8,
    /// Internal 16-bit system counter; DIV is its upper 8 bits.
    pub div_counter: u16,
    /// TIMA, the timer counter (0xFF05).
    pub tima: u8,
    /// TMA, the timer modulo (0xFF06).
    pub tma: u8,
    /// TAC, the timer control (0xFF07).
    pub tac: u8,
    /// Last value of the timer's input signal, for falling-edge detection.
    pub prev_and: bool,
    /// Delay before TIMA is reloaded after an overflow (0 = none pending).
    pub tima_reload_countdown: u8,
    pub mbc_type: MbcType,
    /// The whole cartridge ROM.
    pub rom: Vec<u8>,
    /// External cartridge RAM.
    pub eram: Vec<u8>,
    /// ROM bank register.
    pub rom_bank: u8,
    /// RAM bank register, or the upper ROM bank bits on MBC1.
    pub ram_bank: u8,
    /// MBC1 banking mode: false selects ROM banking, true RAM banking.
    pub banking_mode: bool,
    pub ram_enabled: bool,
    /// Joypad select bits (0xFF00 bits 4-5).
    pub joypad_select: u8,
    /// Action buttons, active low: bit 0 A, bit 1 B, bit 2 Select, bit 3 Start.
    pub joypad_buttons: u8,
    /// Direction keys, active low: bit 0 Right, bit 1 Left, bit 2 Up, bit 3 Down.
    pub joypad_dpad: u8,
    /// Bytes sent on the serial port that the host has not taken yet.
    pub serial_out: Vec<u8>,
}

impl View for Bus {
    type V = BusState;

    open spec fn view(&self) -> BusState {
        BusState {
            memory: self.memory@,
            ppu: self.ppu@,
            ie: self.ie,
            i_flag: self.i_flag,
            div_counter: self.div_counter,
            tima: self.tima,
            tma: self.tma,
            tac: self.tac,
            prev_and: self.prev_and,
            tima_reload_countdown: self.tima_reload_countdown,
            mbc_type: self.mbc_type,
            rom: self.rom@,
            eram: self.eram@,
            rom_bank: self.rom_bank,
            ram_bank: self.ram_bank,
            banking_mode: self.banking_mode,
            ram_enabled: self.ram_enabled,
            joypad_select: self.joypad_select,
            joypad_buttons: self.joypad_buttons,
            joypad_dpad: self.joypad_dpad,
            serial_out: self.serial_out@,
        }
    }
}

/// The interrupt bits a list of requests raises together.
fn request_bits(reqs: &Vec<u8>) -> (m: u8)
    ensures
        m == request_mask(reqs@),
{
    let mut m: u8 = 0;
    for i in 0..reqs.len()
        invariant
            m == request_mask(reqs@.subrange(0, i as int)),
    {
        assert(reqs@.subrange(0, i + 1).drop_last() =~= reqs@.subrange(0, i as int));
        m = m | (reqs[i] & 0x1F);
    }
    assert(reqs@.subrange(0, reqs.len() as int) =~= reqs@);
    m
}

impl Bus {
    pub fn new() -> (b: Self)
        ensures
            b@ == BusState::power_on(),
            b@.wf(),
    {
        let b = Self {
            memory: [0; 0x10000],
            ie: 0,
            i_flag: 0,
            div_counter: 0,
            tima: 0,
            tma: 0,
            tac: 0,
            prev_and: false,
            tima_reload_countdown: 0,
            ppu: Ppu::new(),
            mbc_type: MbcType::RomOnly,
            rom: Vec::new(),
            eram: vec![0; 0x8000],
            rom_bank: 1,
            ram_bank: 0,
            banking_mode: false,
            ram_enabled: false,
            joypad_select: 0x30,
            joypad_buttons: 0x0F,
            joypad_dpad: 0x0F,
            serial_out: Vec::new(),
        };
        assert(b.memory@ =~= Seq::new(0x10000, |i: int| 0u8));
        assert(b.eram@ =~= Seq::new(0x8000, |i: int| 0u8));
        b
    }

    /// Loads a cartridge image: keeps the ROM, detects the bank controller
    /// from header byte 0x147, and copies the first two banks into memory.
    pub fn load_rom(&mut self, data: &[u8])
        requires
            old(self)@.wf(),
        ensures
            final(self)@ == old(self)@.with_rom(data@),
            final(self)@.wf(),
    {
        self.rom = vstd::slice::slice_to_vec(data);
        let cart_type = if data.len() > 0x147 { data[0x147] } else { 0 };
        self.mbc_type = if cart_type == 0x00 {
            MbcType::RomOnly
        } else if 0x01 <= cart_type && cart_type <= 0x03 {
            MbcType::Mbc1
        } else if 0x0F <= cart_type && cart_type <= 0x13 {
            MbcType::Mbc3
        } else {
            MbcType::Mbc1
        };
        let n = if data.len() < 0x8000 { data.len() } else { 0x8000 };
        let ghost m0 = self.memory@;
        let ghost b1 = self@;
        assert(m0 =~= Seq::new(0x10000, |j: int| if j < 0 { data@[j] } else { m0[j] }));
        for i in 0..n
            invariant
                n <= data@.len(),
                n <= 0x8000,
                n == (if data@.len() < 0x8000 { data@.len() } else { 0x8000 }),
                m0 == b1.memory,
                self@ == (BusState { memory: Seq::new(0x10000, |j: int| if j < i { data@[j] } else { m0[j] }), ..b1 }),
        {
            self.memory[i] = data[i];
            assert(self.memory@ =~= Seq::new(0x10000, |j: int| if j < i + 1 { data@[j] } else { m0[j] }));
        }
        assert(self.memory@ =~= old(self)@.with_rom(data@).memory);
    }

    /// The ROM bank mapped at 0x4000-0x7FFF.
    fn effective_rom_bank(&self) -> (bank: usize)
        ensures
            bank == effective_rom_bank(self@),
            bank * 0x4000 <= self@.rom.len(),
    {
        let mut bank = self.rom_bank as usize;
        if bank == 0 {
            bank = 1;
        }
        if self.mbc_type == MbcType::Mbc1 && !self.banking_mode {
            bank = bank | ((self.ram_bank as usize & 0x03) << 5);
        }
        let num_banks = if self.rom.len() / 0x4000 >= 1 { self.rom.len() / 0x4000 } else { 1 };
        proof {
            assert(bank % num_banks < num_banks) by (nonlinear_arith)
                requires
                    num_banks >= 1,
            ;
            if self@.rom.len() / 0x4000 >= 1 {
                assert(num_banks * 0x4000 <= self@.rom.len()) by (nonlinear_arith)
                    requires
                        num_banks == self@.rom.len() / 0x4000,
                ;
                assert((bank % num_banks) * 0x4000 <= num_banks * 0x4000) by (nonlinear_arith)
                    requires
                        bank % num_banks < num_banks,
                ;
            } else {
                assert(bank % num_banks == 0);
            }
        }
        bank % num_banks
    }

    /// Which bank of external RAM the 0xA000-0xBFFF window shows.
    fn eram_bank(&self) -> (bank: usize)
        ensures
            bank == eram_bank(self@),
            bank <= 3,
    {
        proof {
            lemma_low2(self.ram_bank);
        }
        match self.mbc_type {
            MbcType::Mbc1 => if self.banking_mode {
                self.ram_bank as usize & 0x03
            } else {
                0
            },
            MbcType::Mbc3 => self.ram_bank as usize & 0x03,
            MbcType::RomOnly => 0,
        }
    }

    fn read_joypad(&self) -> (v: u8)
        ensures
            v == joypad_read(self@),
    {
        let mut result: u8 = 0xCF;
        if (self.joypad_select & 0x10) == 0 {
            result = result & (0xF0 | self.joypad_dpad);
        }
        if (self.joypad_select & 0x20) == 0 {
            result = result & (0xF0 | self.joypad_buttons);
        }
        result | (self.joypad_select & 0x30)
    }

    /// Reads the byte that the CPU sees at `addr`.
    pub fn read_byte(&self, addr: u16) -> (v: u8)
        ensures
            v == bus_read(self@, addr),
    {
        proof {
            reveal(bus_read);
        }
        if addr <= 0x3FFF {
            if self.rom.len() > 0 {
                if (addr as usize) < self.rom.len() {
                    self.rom[addr as usize]
                } else {
                    0xFF
                }
            } else {
                self.memory[addr as usize]
            }
        } else if addr <= 0x7FFF {
            if self.mbc_type != MbcType::RomOnly && self.rom.len() > 0 {
                let bank = self.effective_rom_bank();
                let rom_addr = bank * 0x4000 + (addr as usize - 0x4000);
                if rom_addr < self.rom.len() {
                    self.rom[rom_addr]
                } else {
                    0xFF
                }
            } else if self.rom.len() > 0 && (addr as usize) < self.rom.len() {
                self.rom[addr as usize]
            } else {
                self.memory[addr as usize]
            }
        } else if addr <= 0x9FFF {
            self.ppu.vram[(addr - 0x8000) as usize]
        } else if addr <= 0xBFFF {
            if self.ram_enabled && self.eram.len() > 0 {
                if self.mbc_type == MbcType::Mbc3 && self.ram_bank >= 0x08 {
                    0x00
                } else {
                    let ram_addr = self.eram_bank() * 0x2000 + (addr as usize - 0xA000);
                    if ram_addr < self.eram.len() {
                        self.eram[ram_addr]
                    } else {
                        0xFF
                    }
                }
            } else {
                0xFF
            }
        } else if 0xFE00 <= addr && addr <= 0xFE9F {
            self.ppu.oam[(addr - 0xFE00) as usize]
        } else if addr == 0xFF40 {
            self.ppu.lcdc
        } else if addr == 0xFF41 {
            self.ppu.stat | 0x80
        } else if addr == 0xFF42 {
            self.ppu.scy
        } else if addr == 0xFF43 {
            self.ppu.scx
        } else if addr == 0xFF44 {
            self.ppu.ly
        } else if addr == 0xFF45 {
            self.ppu.lyc
        } else if addr == 0xFF46 {
            self.ppu.dma
        } else if addr == 0xFF47 {
            self.ppu.bgp
        } else if addr == 0xFF48 {
            self.ppu.obp0
        } else if addr == 0xFF49 {
            self.ppu.obp1
        } else if addr == 0xFF4A {
            self.ppu.wy
        } else if addr == 0xFF4B {
            self.ppu.wx
        } else if addr == 0xFF00 {
            self.read_joypad()
        } else if addr == 0xFF04 {
            (self.div_counter / 256) as u8
        } else if addr == 0xFF05 {
            self.tima
        } else if addr == 0xFF06 {
            self.tma
        } else if addr == 0xFF07 {
            self.tac | 0xF8
        } else if addr == 0xFF0F {
            self.i_flag
        } else if addr == 0xFFFF {
            self.ie
        } else {
            self.memory[addr as usize]
        }
    }

    fn write_cart(&mut self, addr: u16, value: u8)
        requires
            addr <= 0x7FFF,
        ensures
            final(self)@ == cart_write(old(self)@, addr, value),
    {
        if self.rom.len() == 0 {
            self.memory[addr as usize] = value;
        } else if addr <= 0x1FFF {
            if self.mbc_type != MbcType::RomOnly {
                self.ram_enabled = (value & 0x0F) == 0x0A;
            }
        } else if addr <= 0x3FFF {
            match self.mbc_type {
                MbcType::Mbc1 => {
                    let bank = value & 0x1F;
                    self.rom_bank = if bank == 0 { 1 } else { bank };
                },
                MbcType::Mbc3 => {
                    let bank = value & 0x7F;
                    self.rom_bank = if bank == 0 { 1 } else { bank };
                },
                MbcType::RomOnly => {},
            }
        } else if addr <= 0x5FFF {
            match self.mbc_type {
                MbcType::Mbc1 => {
                    self.ram_bank = value & 0x03;
                },
                MbcType::Mbc3 => {
                    self.ram_bank = value;
                },
                MbcType::RomOnly => {},
            }
        } else {
            if self.mbc_type == MbcType::Mbc1 {
                self.banking_mode = (value & 0x01) != 0;
            }
        }
    }

    fn write_eram(&mut self, addr: u16, value: u8)
        requires
            0xA000 <= addr <= 0xBFFF,
        ensures
            final(self)@ == eram_write(old(self)@, addr, value),
    {
        if self.ram_enabled && self.eram.len() > 0 {
            if self.mbc_type == MbcType::Mbc3 && self.ram_bank >= 0x08 {
                return ;
            }
            let ram_addr = self.eram_bank() * 0x2000 + (addr as usize - 0xA000);
            if ram_addr < self.eram.len() {
                self.eram.set(ram_addr, value);
            }
        }
    }

    /// Copies the 160 bytes from `value * 0x100` into OAM.
    fn do_oam_dma(&mut self, value: u8)
        requires
            old(self)@.wf(),
        ensures
            final(self)@ == oam_dma(old(self)@, value),
    {
        let source = (value as u16) * 256;
        let ghost b1 = self@;
        assert(b1.ppu.oam =~= Seq::new(0xA0, |j: int| if j < 0 { bus_read(b1, (value * 0x100 + j) as u16) } else { b1.ppu.oam[j] }));
        for i in 0..0xA0u16
            invariant
                source == value * 256,
                b1.wf(),
                self@ == (BusState {
                    ppu: PpuState {
                        oam: Seq::new(0xA0, |j: int| if j < i { bus_read(b1, (value * 0x100 + j) as u16) } else { b1.ppu.oam[j] }),
                        ..b1.ppu
                    },
                    ..b1
                }),
        {
            proof {
                lemma_read_oam_frame(b1, self@.ppu.oam, (source + i) as u16);
            }
            let b = self.read_byte(source + i);
            self.ppu.oam[i as usize] = b;
            assert(self.ppu.oam@ =~= Seq::new(0xA0, |j: int| if j < i + 1 { bus_read(b1, (value * 0x100 + j) as u16) } else { b1.ppu.oam[j] }));
        }
        assert(self.ppu.oam@ =~= oam_dma(b1, value).ppu.oam);
    }

    fn write_lcd(&mut self, addr: u16, value: u8)
        requires
            old(self)@.wf(),
            0xFF40 <= addr <= 0xFF4B,
        ensures
            final(self)@ == lcd_write(old(self)@, addr, value),
    {
        if addr == 0xFF40 {
            self.ppu.lcdc = value;
        } else if addr == 0xFF41 {
            self.ppu.stat = (self.ppu.stat & 0x07) | (value & 0x78) | 0x80;
        } else if addr == 0xFF42 {
            self.ppu.scy = value;
        } else if addr == 0xFF43 {
            self.ppu.scx = value;
        } else if addr == 0xFF44 {
        } else if addr == 0xFF45 {
            self.ppu.lyc = value;
        } else if addr == 0xFF46 {
            self.ppu.dma = value;
            self.do_oam_dma(value);
        } else if addr == 0xFF47 {
            self.ppu.bgp = value;
        } else if addr == 0xFF48 {
            self.ppu.obp0 = value;
        } else if addr == 0xFF49 {
            self.ppu.obp1 = value;
        } else if addr == 0xFF4A {
            self.ppu.wy = value;
        } else {
            self.ppu.wx = value;
        }
    }

    fn write_io(&mut self, addr: u16, value: u8)
        requires
            old(self)@.wf(),
        ensures
            final(self)@ == io_write(old(self)@, addr, value),
    {
        if addr == 0xFF00 {
            self.joypad_select = value & 0x30;
        } else if addr == 0xFF02 {
            if value == 0x81 {
                let char_byte = self.read_byte(0xFF01);
                self.serial_out.push(char_byte);
                self.memory[0xFF02] = 0x00;
            } else {
                self.memory[0xFF02] = value;
            }
        } else if addr == 0xFF04 {
            let old_and = self.timer_and_result();
            self.div_counter = 0;
            let new_and = self.timer_and_result();
            if old_and && !new_and {
                self.increment_tima();
            }
            self.prev_and = new_and;
        } else if addr == 0xFF05 {
            self.tima = value;
            self.tima_reload_countdown = 0;
        } else if addr == 0xFF06 {
            self.tma = value;
        } else if addr == 0xFF07 {
            let old_and = self.timer_and_result();
            self.tac = value & 0x07;
            let new_and = self.timer_and_result();
            if old_and && !new_and {
                self.increment_tima();
            }
            self.prev_and = new_and;
        } else if addr == 0xFF0F {
            self.i_flag = value;
        } else if addr == 0xFFFF {
            self.ie = value;
        } else {
            self.memory[addr as usize] = value;
        }
    }

    /// Writes `value` at `addr` as the CPU does.
    pub fn write_byte(&mut self, addr: u16, value: u8)
        requires
            old(self)@.wf(),
        ensures
            final(self)@ == bus_write(old(self)@, addr, value),
            final(self)@.wf(),
    {
        proof {
            reveal(bus_write);
        }
        proof {
            lemma_write_wf(self@, addr, value);
        }
        if addr <= 0x7FFF {
            self.write_cart(addr, value);
        } else if addr <= 0x9FFF {
            self.ppu.vram[(addr - 0x8000) as usize] = value;
        } else if addr <= 0xBFFF {
            self.write_eram(addr, value);
        } else if 0xFE00 <= addr && addr <= 0xFE9F {
            self.ppu.oam[(addr - 0xFE00) as usize] = value;
        } else if 0xFF40 <= addr && addr <= 0xFF4B {
            self.write_lcd(addr, value);
        } else {
            self.write_io(addr, value);
        }
    }

    /// Sets interrupt request bits (only the five low bits exist).
    pub fn request_interrupt(&mut self, bit: u8)
        ensures
            final(self)@ == (BusState { i_flag: old(self).i_flag | (bit & 0x1F), ..old(self)@ }),
    {
        self.i_flag = self.i_flag | (bit & 0x1F);
    }

    /// Clears interrupt request bits.
    pub fn clear_interrupt(&mut self, bit: u8)
        ensures
            final(self)@ == (BusState { i_flag: old(self).i_flag & !(bit & 0x1F), ..old(self)@ }),
    {
        self.i_flag = self.i_flag & !(bit & 0x1F);
    }

    /// Reads a little-endian word: the byte at `addr`, then the byte after
    /// it (wrapping from 0xFFFF to 0x0000) as the high byte.
    pub fn read_word(&self, addr: u16) -> (v: u16)
        ensures
            v == bus_read_word(self@, addr),
    {
        proof {
            reveal(bus_read);
        }
        let lo = self.read_byte(addr) as u16;
        let hi = self.read_byte(addr.wrapping_add(1)) as u16;
        proof {
            lemma_wrap(addr + 1, 0x10000);
        }
        hi * 256 + lo
    }

    /// Writes a little-endian word: the low byte at `addr`, then the high
    /// byte after it (wrapping from 0xFFFF to 0x0000).
    pub fn write_word(&mut self, addr: u16, value: u16)
        requires
            old(self)@.wf(),
        ensures
            final(self)@ == bus_write_word(old(self)@, addr, value),
            final(self)@.wf(),
    {
        let lo = (value % 256) as u8;
        let hi = (value / 256) as u8;
        proof {
            lemma_wrap(addr + 1, 0x10000);
        }
        self.write_byte(addr, lo);
        self.write_byte(addr.wrapping_add(1), hi);
    }

    /// Which bit of the system counter clocks TIMA (TAC bits 0-1).
    fn tac_bit_mask(&self) -> (m: u16)
        ensures
            m == tac_bit_mask(self.tac),
    {
        let sel = self.tac & 0x03;
        if sel == 0 {
            0x0200
        } else if sel == 1 {
            0x0008
        } else if sel == 2 {
            0x0020
        } else {
            0x0080
        }
    }

    /// The timer's input signal: the selected counter bit while the timer
    /// is enabled (TAC bit 2). TIMA counts on its falling edges.
    fn timer_and_result(&self) -> (r: bool)
        ensures
            r == timer_signal(self@),
    {
        let enabled = self.tac & 0x04 != 0;
        let bit_high = self.div_counter & self.tac_bit_mask() != 0;
        enabled && bit_high
    }

    fn increment_tima(&mut self)
        ensures
            final(self)@ == increment_tima(old(self)@),
    {
        if self.tima == 0xFF {
            self.tima = self.tma;
            self.request_interrupt(0x04);
        } else {
            self.tima = self.tima + 1;
        }
    }

    /// Advances the timer by one T-cycle.
    pub fn tick_timer(&mut self)
        ensures
            final(self)@ == timer_tick(old(self)@),
    {
        let old_and = self.timer_and_result();
        proof {
            lemma_wrap(self.div_counter + 1, 0x10000);
        }
        self.div_counter = self.div_counter.wrapping_add(1);
        let new_and = self.timer_and_result();
        if old_and && !new_and {
            self.increment_tima();
        }
        self.prev_and = new_and;
    }

    /// Advances the timer and the picture processor by `cycles` T-cycles and
    /// raises the interrupts the picture processor requests.
    pub fn tick(&mut self, cycles: u16)
        requires
            old(self)@.wf(),
        ensures
            final(self)@ == bus_tick(old(self)@, cycles),
            final(self)@.wf(),
    {
        proof {
            reveal(bus_tick);
        }
        let ghost b0 = self@;
        for i in 0..cycles
            invariant
                self@ == timer_ticks(b0, i as nat),
                b0.wf(),
        {
            proof {
                lemma_timer_ticks_frame(b0, i as nat);
            }
            self.tick_timer();
        }
        proof {
            lemma_timer_ticks_frame(b0, cycles as nat);
        }
        proof {
            crate::ppu::lemma_step_wf(self.ppu@, cycles);
        }
        let reqs = self.ppu.step(cycles);
        let irq = request_bits(&reqs);
        if irq != 0 {
            self.request_interrupt(irq);
        }
    }
}

} // verus!
