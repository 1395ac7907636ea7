//! The memory bus as the contracts see it: what a read returns and what a
//! write, a timer tick or a bus tick changes.
use vstd::prelude::*;
use super::MbcType;
use crate::cpu::registers::{hi_byte, lo_byte, pair};
use crate::ppu::{ppu_step, PpuState};

verus! {

pub struct BusState {
    pub memory: Seq<u8>,
    pub ppu: PpuState,
    pub ie: u8,
    pub i_flag: u8,
    pub div_counter: u16,
    pub tima: u8,
    pub tma: u8,
    pub tac: u8,
    pub prev_and: bool,
    pub tima_reload_countdown: u8,
    pub mbc_type: MbcType,
    pub rom: Seq<u8>,
    pub eram: Seq<u8>,
    pub rom_bank: u8,
    pub ram_bank: u8,
    pub banking_mode: bool,
    pub ram_enabled: bool,
    pub joypad_select: u8,
    pub joypad_buttons: u8,
    pub joypad_dpad: u8,
    pub serial_out: Seq<u8>,
}

/// The bank controller that cartridge-type byte (header 0x147) stands for;
/// unknown types are treated as MBC1.
pub open spec fn mbc_for_cart_type(t: u8) -> MbcType {
    if t == 0x00 {
        MbcType::RomOnly
    } else if 0x01 <= t <= 0x03 {
        MbcType::Mbc1
    } else if 0x0F <= t <= 0x13 {
        MbcType::Mbc3
    } else {
        MbcType::Mbc1
    }
}

/// The cartridge-type byte of an image (0 when the header is missing).
pub open spec fn cart_type(data: Seq<u8>) -> u8 {
    if data.len() > 0x147 {
        data[0x147]
    } else {
        0
    }
}

impl BusState {
    /// A bus can serve every read: the memories have their sizes.
    pub open spec fn wf(self) -> bool {
        &&& self.memory.len() == 0x10000
        &&& self.ppu.wf()
    }

    pub open spec fn power_on() -> BusState {
        BusState {
            memory: Seq::new(0x10000, |i: int| 0u8),
            ppu: PpuState::power_on(),
            ie: 0,
            i_flag: 0,
            div_counter: 0,
            tima: 0,
            tma: 0,
            tac: 0,
            prev_and: false,
            tima_reload_countdown: 0,
            mbc_type: MbcType::RomOnly,
            rom: Seq::empty(),
            eram: Seq::new(0x8000, |i: int| 0u8),
            rom_bank: 1,
            ram_bank: 0,
            banking_mode: false,
            ram_enabled: false,
            joypad_select: 0x30,
            joypad_buttons: 0x0F,
            joypad_dpad: 0x0F,
            serial_out: Seq::empty(),
        }
    }

    /// The bus after a cartridge image is inserted: the image becomes the
    /// ROM, its header picks the bank controller, and its first 32 KiB are
    /// copied to the start of memory.
    pub open spec fn with_rom(self, data: Seq<u8>) -> BusState {
        BusState {
            rom: data,
            mbc_type: mbc_for_cart_type(cart_type(data)),
            memory: Seq::new(
                self.memory.len(),
                |i: int|
                    if i < 0x8000 && i < data.len() {
                        data[i]
                    } else {
                        self.memory[i]
                    },
            ),
            ..self
        }
    }
}

/// The ROM bank mapped at 0x4000-0x7FFF: bank 0 selects bank 1, MBC1 in
/// ROM banking mode adds the two RAM-bank bits as bits 5-6, and the number
/// wraps at the number of banks the ROM has.
pub open spec fn effective_rom_bank(b: BusState) -> int {
    let bank: usize = if b.rom_bank == 0 { 1 } else { b.rom_bank as usize };
    let bank2: usize = if b.mbc_type == MbcType::Mbc1 && !b.banking_mode {
        bank | ((b.ram_bank as usize & 0x03) << 5usize)
    } else {
        bank
    };
    let num_banks: int = if b.rom.len() / 0x4000 >= 1 { (b.rom.len() / 0x4000) as int } else { 1 };
    (bank2 as int) % num_banks
}

/// Which 8 KiB bank of external RAM is mapped at 0xA000-0xBFFF.
pub open spec fn eram_bank(b: BusState) -> int {
    match b.mbc_type {
        MbcType::Mbc1 => if b.banking_mode {
            (b.ram_bank as usize & 0x03) as int
        } else {
            0
        },
        MbcType::Mbc3 => (b.ram_bank as usize & 0x03) as int,
        MbcType::RomOnly => 0,
    }
}

pub proof fn lemma_low2(x: u8)
    by (bit_vector)
    ensures
        x as usize & 0x03 <= 3,
{
}

/// The joypad register: bits 0-3 are the selected groups' keys (active
/// low), bits 4-5 the select bits, bits 6-7 read as 1.
pub open spec fn joypad_read(b: BusState) -> u8 {
    let r0: u8 = 0xCF;
    let r1 = if b.joypad_select & 0x10 == 0 { r0 & (0xF0 | b.joypad_dpad) } else { r0 };
    let r2 = if b.joypad_select & 0x20 == 0 { r1 & (0xF0 | b.joypad_buttons) } else { r1 };
    r2 | (b.joypad_select & 0x30)
}

/// The byte the CPU reads at `addr`. A cartridge image shorter than its
/// fixed 16 KiB bank reads 0xFF past its end there.
#[verifier::opaque]
pub open spec fn bus_read(b: BusState, addr: u16) -> u8 {
    if addr <= 0x3FFF {
        if b.rom.len() > 0 {
            if addr < b.rom.len() {
                b.rom[addr as int]
            } else {
                0xFF
            }
        } else {
            b.memory[addr as int]
        }
    } else if addr <= 0x7FFF {
        if b.mbc_type != MbcType::RomOnly && b.rom.len() > 0 {
            let rom_addr = effective_rom_bank(b) * 0x4000 + (addr - 0x4000);
            if rom_addr < b.rom.len() {
                b.rom[rom_addr]
            } else {
                0xFF
            }
        } else if b.rom.len() > 0 && addr < b.rom.len() {
            b.rom[addr as int]
        } else {
            b.memory[addr as int]
        }
    } else if addr <= 0x9FFF {
        b.ppu.vram[addr - 0x8000]
    } else if addr <= 0xBFFF {
        if b.ram_enabled && b.eram.len() > 0 {
            if b.mbc_type == MbcType::Mbc3 && b.ram_bank >= 0x08 {
                0x00
            } else {
                let ram_addr = eram_bank(b) * 0x2000 + (addr - 0xA000);
                if ram_addr < b.eram.len() {
                    b.eram[ram_addr]
                } else {
                    0xFF
                }
            }
        } else {
            0xFF
        }
    } else if 0xFE00 <= addr <= 0xFE9F {
        b.ppu.oam[addr - 0xFE00]
    } else if addr == 0xFF40 {
        b.ppu.lcdc
    } else if addr == 0xFF41 {
        b.ppu.stat | 0x80
    } else if addr == 0xFF42 {
        b.ppu.scy
    } else if addr == 0xFF43 {
        b.ppu.scx
    } else if addr == 0xFF44 {
        b.ppu.ly
    } else if addr == 0xFF45 {
        b.ppu.lyc
    } else if addr == 0xFF46 {
        b.ppu.dma
    } else if addr == 0xFF47 {
        b.ppu.bgp
    } else if addr == 0xFF48 {
        b.ppu.obp0
    } else if addr == 0xFF49 {
        b.ppu.obp1
    } else if addr == 0xFF4A {
        b.ppu.wy
    } else if addr == 0xFF4B {
        b.ppu.wx
    } else if addr == 0xFF00 {
        joypad_read(b)
    } else if addr == 0xFF04 {
        (b.div_counter / 256) as u8
    } else if addr == 0xFF05 {
        b.tima
    } else if addr == 0xFF06 {
        b.tma
    } else if addr == 0xFF07 {
        b.tac | 0xF8
    } else if addr == 0xFF0F {
        b.i_flag
    } else if addr == 0xFFFF {
        b.ie
    } else {
        b.memory[addr as int]
    }
}

/// A little-endian word: the byte at `addr` is the low byte.
pub open spec fn bus_read_word(b: BusState, addr: u16) -> u16 {
    pair(bus_read(b, ((addr + 1) % 0x10000) as u16), bus_read(b, addr))
}

/// The TIMA clock bit of the system counter that TAC bits 0-1 select.
pub open spec fn tac_bit_mask(tac: u8) -> u16 {
    let sel = tac & 0x03;
    if sel == 0 {
        0x0200
    } else if sel == 1 {
        0x0008
    } else if sel == 2 {
        0x0020
    } else {
        0x0080
    }
}

/// The timer's input signal: the selected counter bit, while TAC bit 2 enables the timer.
pub open spec fn timer_signal(b: BusState) -> bool {
    b.tac & 0x04 != 0 && b.div_counter & tac_bit_mask(b.tac) != 0
}

/// TIMA counts up; on overflow it reloads from TMA and requests the timer interrupt.
pub open spec fn increment_tima(b: BusState) -> BusState {
    if b.tima == 0xFF {
        BusState { tima: b.tma, i_flag: b.i_flag | (0x04u8 & 0x1F), ..b }
    } else {
        BusState { tima: (b.tima + 1) as u8, ..b }
    }
}

/// A change of the timer's input signal from high to low counts TIMA up.
pub open spec fn timer_edge(before: bool, b: BusState) -> BusState {
    let after = timer_signal(b);
    let b1 = if before && !after { increment_tima(b) } else { b };
    BusState { prev_and: after, ..b1 }
}

/// One T-cycle of the timer.
pub open spec fn timer_tick(b: BusState) -> BusState {
    timer_edge(timer_signal(b), BusState { div_counter: ((b.div_counter + 1) % 0x10000) as u16, ..b })
}

/// `n` T-cycles of the timer.
pub open spec fn timer_ticks(b: BusState, n: nat) -> BusState
    decreases n,
{
    if n == 0 {
        b
    } else {
        timer_tick(timer_ticks(b, (n - 1) as nat))
    }
}

/// The timer touches only its own registers and the interrupt flags.
pub proof fn lemma_timer_ticks_frame(b: BusState, n: nat)
    ensures
        timer_ticks(b, n) == (BusState {
            div_counter: timer_ticks(b, n).div_counter,
            tima: timer_ticks(b, n).tima,
            i_flag: timer_ticks(b, n).i_flag,
            prev_and: timer_ticks(b, n).prev_and,
            ..b
        }),
    decreases n,
{
    if n > 0 {
        lemma_timer_ticks_frame(b, (n - 1) as nat);
    }
}

/// The interrupt bits a list of requests raises together.
pub open spec fn request_mask(reqs: Seq<u8>) -> u8
    decreases reqs.len(),
{
    if reqs.len() == 0 {
        0
    } else {
        request_mask(reqs.drop_last()) | (reqs.last() & 0x1F)
    }
}

/// `cycles` T-cycles of the whole bus: the timer, then the picture
/// processor, whose interrupt requests are added to IF.
#[verifier::opaque]
pub open spec fn bus_tick(b: BusState, cycles: u16) -> BusState {
    let b1 = timer_ticks(b, cycles as nat);
    let (p, reqs) = ppu_step(b1.ppu, cycles);
    let irq = request_mask(reqs);
    let b2 = BusState { ppu: p, ..b1 };
    if irq != 0 {
        BusState { i_flag: b2.i_flag | (irq & 0x1F), ..b2 }
    } else {
        b2
    }
}

/// A write to the cartridge area 0x0000-0x7FFF. With no cartridge inserted
/// the area is plain memory; otherwise the writes set the bank controller's
/// registers: RAM enable, ROM bank, RAM bank, banking mode.
pub open spec fn cart_write(b: BusState, addr: u16, value: u8) -> BusState {
    if b.rom.len() == 0 {
        BusState { memory: b.memory.update(addr as int, value), ..b }
    } else if addr <= 0x1FFF {
        if b.mbc_type != MbcType::RomOnly {
            BusState { ram_enabled: (value & 0x0F) == 0x0A, ..b }
        } else {
            b
        }
    } else if addr <= 0x3FFF {
        match b.mbc_type {
            MbcType::Mbc1 => {
                let bank = value & 0x1F;
                BusState { rom_bank: if bank == 0 { 1 } else { bank }, ..b }
            },
            MbcType::Mbc3 => {
                let bank = value & 0x7F;
                BusState { rom_bank: if bank == 0 { 1 } else { bank }, ..b }
            },
            MbcType::RomOnly => b,
        }
    } else if addr <= 0x5FFF {
        match b.mbc_type {
            MbcType::Mbc1 => BusState { ram_bank: value & 0x03, ..b },
            MbcType::Mbc3 => BusState { ram_bank: value, ..b },
            MbcType::RomOnly => b,
        }
    } else {
        if b.mbc_type == MbcType::Mbc1 {
            BusState { banking_mode: (value & 0x01) != 0, ..b }
        } else {
            b
        }
    }
}

/// A write to external RAM (0xA000-0xBFFF); ignored while the RAM is
/// disabled, while MBC3 maps a clock register, or past the RAM's end.
pub open spec fn eram_write(b: BusState, addr: u16, value: u8) -> BusState {
    if b.ram_enabled && b.eram.len() > 0 && !(b.mbc_type == MbcType::Mbc3 && b.ram_bank >= 0x08) {
        let ram_addr = eram_bank(b) * 0x2000 + (addr - 0xA000);
        if ram_addr < b.eram.len() {
            BusState { eram: b.eram.update(ram_addr, value), ..b }
        } else {
            b
        }
    } else {
        b
    }
}

/// OAM DMA: the 160 bytes from `value * 0x100` are copied into OAM.
pub open spec fn oam_dma(b: BusState, value: u8) -> BusState {
    BusState {
        ppu: PpuState {
            oam: Seq::new(0xA0, |i: int| bus_read(b, (value * 0x100 + i) as u16)),
            ..b.ppu
        },
        ..b
    }
}

/// A write to the LCD registers 0xFF40-0xFF4B. LY is read-only; STAT keeps
/// its low three bits; DMA starts an OAM copy.
pub open spec fn lcd_write(b: BusState, addr: u16, value: u8) -> BusState {
    let p = b.ppu;
    if addr == 0xFF40 {
        BusState { ppu: PpuState { lcdc: value, ..p }, ..b }
    } else if addr == 0xFF41 {
        BusState { ppu: p.with_stat_written(value), ..b }
    } else if addr == 0xFF42 {
        BusState { ppu: PpuState { scy: value, ..p }, ..b }
    } else if addr == 0xFF43 {
        BusState { ppu: PpuState { scx: value, ..p }, ..b }
    } else if addr == 0xFF44 {
        b
    } else if addr == 0xFF45 {
        BusState { ppu: PpuState { lyc: value, ..p }, ..b }
    } else if addr == 0xFF46 {
        oam_dma(BusState { ppu: PpuState { dma: value, ..p }, ..b }, value)
    } else if addr == 0xFF47 {
        BusState { ppu: PpuState { bgp: value, ..p }, ..b }
    } else if addr == 0xFF48 {
        BusState { ppu: PpuState { obp0: value, ..p }, ..b }
    } else if addr == 0xFF49 {
        BusState { ppu: PpuState { obp1: value, ..p }, ..b }
    } else if addr == 0xFF4A {
        BusState { ppu: PpuState { wy: value, ..p }, ..b }
    } else {
        BusState { ppu: PpuState { wx: value, ..p }, ..b }
    }
}

/// A write to the other I/O registers and to plain memory. Writing 0x81 to
/// SC (0xFF02) sends the byte in SB (0xFF01) out of the serial port and
/// clears SC; other values are stored in SC.
/// Writing DIV clears the system counter, writing TAC keeps its low three
/// bits; both can produce a falling edge of the timer signal.
pub open spec fn io_write(b: BusState, addr: u16, value: u8) -> BusState {
    if addr == 0xFF00 {
        BusState { joypad_select: value & 0x30, ..b }
    } else if addr == 0xFF02 {
        if value == 0x81 {
            BusState {
                serial_out: b.serial_out.push(bus_read(b, 0xFF01)),
                memory: b.memory.update(0xFF02, 0),
                ..b
            }
        } else {
            BusState { memory: b.memory.update(0xFF02, value), ..b }
        }
    } else if addr == 0xFF04 {
        timer_edge(timer_signal(b), BusState { div_counter: 0, ..b })
    } else if addr == 0xFF05 {
        BusState { tima: value, tima_reload_countdown: 0, ..b }
    } else if addr == 0xFF06 {
        BusState { tma: value, ..b }
    } else if addr == 0xFF07 {
        timer_edge(timer_signal(b), BusState { tac: value & 0x07, ..b })
    } else if addr == 0xFF0F {
        BusState { i_flag: value, ..b }
    } else if addr == 0xFFFF {
        BusState { ie: value, ..b }
    } else {
        BusState { memory: b.memory.update(addr as int, value), ..b }
    }
}

/// What a CPU write of `value` at `addr` does to the bus.
#[verifier::opaque]
pub open spec fn bus_write(b: BusState, addr: u16, value: u8) -> BusState {
    if addr <= 0x7FFF {
        cart_write(b, addr, value)
    } else if addr <= 0x9FFF {
        BusState { ppu: PpuState { vram: b.ppu.vram.update(addr - 0x8000, value), ..b.ppu }, ..b }
    } else if addr <= 0xBFFF {
        eram_write(b, addr, value)
    } else if 0xFE00 <= addr <= 0xFE9F {
        BusState { ppu: PpuState { oam: b.ppu.oam.update(addr - 0xFE00, value), ..b.ppu }, ..b }
    } else if 0xFF40 <= addr <= 0xFF4B {
        lcd_write(b, addr, value)
    } else {
        io_write(b, addr, value)
    }
}

/// A little-endian word write: low byte at `addr`, high byte after it.
pub open spec fn bus_write_word(b: BusState, addr: u16, value: u16) -> BusState {
    bus_write(bus_write(b, addr, lo_byte(value)), ((addr + 1) % 0x10000) as u16, hi_byte(value))
}

/// A read outside OAM, or of an OAM byte that is unchanged, does not see
/// the other OAM bytes.
pub proof fn lemma_read_oam_frame(b: BusState, o: Seq<u8>, addr: u16)
    requires
        o.len() == b.ppu.oam.len(),
        0xFE00 <= addr <= 0xFE9F ==> o[addr - 0xFE00] == b.ppu.oam[addr - 0xFE00],
    ensures
        bus_read(BusState { ppu: PpuState { oam: o, ..b.ppu }, ..b }, addr) == bus_read(b, addr),
{
    reveal(bus_read);
}

/// Writes keep the bus servable.
pub proof fn lemma_write_wf(b: BusState, addr: u16, value: u8)
    requires
        b.wf(),
    ensures
        bus_write(b, addr, value).wf(),
{
    reveal(bus_write);
}

/// The addresses that behave as plain memory: video RAM, work RAM and its
/// echo, OAM and the unused bytes after it, high RAM, and, with no
/// cartridge inserted, the ROM area.
pub open spec fn is_plain_ram(b: BusState, addr: u16) -> bool {
    ||| 0x8000 <= addr <= 0x9FFF
    ||| 0xC000 <= addr <= 0xFEFF
    ||| 0xFF80 <= addr <= 0xFFFE
    ||| (b.rom.len() == 0 && addr <= 0x7FFF)
}

/// A byte written to plain memory, or to the interrupt registers IE and
/// IF, reads back as written; a write leaves every other plain byte as it
/// was, and keeps which addresses are plain.
pub proof fn lemma_write_read(b: BusState, addr: u16, value: u8, other: u16)
    requires
        b.wf(),
    ensures
        is_plain_ram(b, addr) || addr == 0xFFFF || addr == 0xFF0F ==> bus_read(
            bus_write(b, addr, value),
            addr,
        ) == value,
        is_plain_ram(b, addr) && is_plain_ram(b, other) && other != addr ==> bus_read(
            bus_write(b, addr, value),
            other,
        ) == bus_read(b, other),
        bus_write(b, addr, value).rom == b.rom,
{
    reveal(bus_read);
    reveal(bus_write);
}

/// A word written to plain memory reads back as written, low byte first.
pub proof fn lemma_write_read_word(b: BusState, addr: u16, value: u16)
    requires
        b.wf(),
        addr < 0xFFFF,
        is_plain_ram(b, addr),
        is_plain_ram(b, (addr + 1) as u16),
    ensures
        bus_read_word(bus_write_word(b, addr, value), addr) == value,
        bus_read(bus_write_word(b, addr, value), addr) == lo_byte(value),
        bus_read(bus_write_word(b, addr, value), (addr + 1) as u16) == hi_byte(value),
{
    let a1 = ((addr + 1) % 0x10000) as u16;
    let b1 = bus_write(b, addr, lo_byte(value));
    lemma_write_read(b, addr, lo_byte(value), a1);
    lemma_write_wf(b, addr, lo_byte(value));
    lemma_write_read(b1, a1, hi_byte(value), addr);
    assert(pair(hi_byte(value), lo_byte(value)) == value);
}

/// DIV counts T-cycles: the system counter advances by one every T-cycle,
/// wrapping at 16 bits, so DIV (its high byte) goes up once every 256
/// T-cycles of the bus.
pub proof fn lemma_div_counts(b: BusState, n: nat)
    ensures
        timer_ticks(b, n).div_counter == (b.div_counter + n) % 0x10000,
    decreases n,
{
    if n > 0 {
        lemma_div_counts(b, (n - 1) as nat);
        vstd::arithmetic::div_mod::lemma_add_mod_noop(b.div_counter + n - 1, 1, 0x10000);
    }
}

/// After `cycles` T-cycles of the bus, DIV reads the high byte of the
/// advanced system counter.
pub proof fn lemma_div_after_tick(b: BusState, cycles: u16)
    ensures
        bus_read(bus_tick(b, cycles), 0xFF04) == (((b.div_counter + cycles) % 0x10000) / 256) as u8,
{
    reveal(bus_tick);
    reveal(bus_read);
    lemma_div_counts(b, cycles as nat);
}

/// Ticking the bus advances the picture processor by the same cycles.
pub proof fn lemma_tick_ppu(b: BusState, cycles: u16)
    ensures
        bus_tick(b, cycles).ppu == ppu_step(b.ppu, cycles).0,
{
    reveal(bus_tick);
    lemma_timer_ticks_frame(b, cycles as nat);
}

/// The number of 16 KiB banks a ROM image is taken to have (at least one).
pub open spec fn rom_bank_count(rom: Seq<u8>) -> int {
    if rom.len() / 0x4000 >= 1 {
        (rom.len() / 0x4000) as int
    } else {
        1
    }
}

/// What the switchable window 0x4000-0x7FFF shows of bank `bank` (taken
/// modulo the bank count): the ROM byte at offset `i`, or 0xFF past the end.
pub open spec fn banked_byte(rom: Seq<u8>, bank: int, i: int) -> u8 {
    let a = (bank % rom_bank_count(rom)) * 0x4000 + i;
    if a < rom.len() {
        rom[a]
    } else {
        0xFF
    }
}

proof fn lemma_bank_bits(n: u8, rb: u8)
    by (bit_vector)
    ensures
        n & 0x7F == n % 128,
        n & 0x1F == n % 32,
        (n % 32) as usize | ((rb as usize & 0x03) << 5usize) == (n % 32) as usize + 32 * (rb % 4) as usize,
        1usize | ((rb as usize & 0x03) << 5usize) == 1 + 32 * (rb % 4) as usize,
{
}

/// ROM banking: writing `n` to 0x2000-0x3FFF selects ROM bank `n` modulo
/// 128 on an MBC3 cartridge and `n` modulo 32 on an MBC1 cartridge (bank 0
/// meaning bank 1); MBC1 in ROM banking mode adds 32 times the RAM-bank
/// register's low two bits. Reading 0x4000 + `i` then gives byte `i` of
/// that bank.
pub proof fn lemma_rom_bank_switch(b: BusState, addr: u16, n: u8, i: int)
    requires
        b.rom.len() > 0,
        0x2000 <= addr <= 0x3FFF,
        0 <= i < 0x4000,
    ensures
        b.mbc_type == MbcType::Mbc3 ==> bus_read(bus_write(b, addr, n), (0x4000 + i) as u16)
            == banked_byte(b.rom, if n % 128 == 0 { 1 } else { (n % 128) as int }, i),
        b.mbc_type == MbcType::Mbc1 ==> bus_read(bus_write(b, addr, n), (0x4000 + i) as u16)
            == banked_byte(
            b.rom,
            (if n % 32 == 0 { 1 } else { (n % 32) as int }) + (if b.banking_mode { 0 } else { 32 * (b.ram_bank
                % 4) as int }),
            i,
        ),
{
    reveal(bus_write);
    reveal(bus_read);
    lemma_bank_bits(n, b.ram_bank);
}

/// T-cycles per TIMA increment for the clock select in TAC bits 0-1:
/// 4096 Hz, 262144 Hz, 65536 Hz and 16384 Hz of a 4194304 Hz clock.
pub open spec fn tima_period(tac: u8) -> int {
    let sel = tac % 4;
    if sel == 0 {
        1024
    } else if sel == 1 {
        16
    } else if sel == 2 {
        64
    } else {
        256
    }
}

proof fn lemma_edge_bits(d: u16, j: u16, m: u16)
    by (bit_vector)
    requires
        m == 8 || m == 32 || m == 128 || m == 512,
        d % ((2 * m) as u16) == 0,
        j < 2 * m,
    ensures
        (((d + j) as u16) & m != 0) == (j >= m),
        ((((d + j + 1) % 0x10000) as u16) & m != 0) == (j + 1 >= m && j + 1 < 2 * m),
        (((d + 2 * m) % 0x10000) as u16) % ((2 * m) as u16) == 0,
        d + j < 0x10000,
{
}

proof fn lemma_select_bits(tac: u8)
    by (bit_vector)
    ensures
        tac & 0x03 == tac % 4,
{
}

/// Running `a` timer cycles and then `c` more is running `a + c`.
proof fn lemma_timer_ticks_add(b: BusState, a: nat, c: nat)
    ensures
        timer_ticks(timer_ticks(b, a), c) == timer_ticks(b, a + c),
    decreases c,
{
    if c > 0 {
        lemma_timer_ticks_add(b, a, (c - 1) as nat);
    }
}

/// Within one period that starts at a multiple of it, the selected counter
/// bit falls once, at the period's last cycle.
proof fn lemma_timer_window(b: BusState, j: nat)
    requires
        b.tac & 0x04 != 0,
        (b.div_counter as int) % tima_period(b.tac) == 0,
        b.tima < 0xFF,
        j <= tima_period(b.tac),
    ensures
        timer_ticks(b, j).tima == b.tima + (if j == tima_period(b.tac) { 1int } else { 0 }),
        timer_ticks(b, j).div_counter == b.div_counter + j || j == tima_period(b.tac),
        timer_ticks(b, j).div_counter == (b.div_counter + j) % 0x10000,
        timer_ticks(b, j).tac == b.tac,
    decreases j,
{
    lemma_div_counts(b, j);
    lemma_timer_ticks_frame(b, j);
    if j > 0 {
        let jj = (j - 1) as nat;
        lemma_timer_window(b, jj);
        let m: u16 = tac_bit_mask(b.tac);
        lemma_select_bits(b.tac);
        assert(2 * m == tima_period(b.tac));
        lemma_edge_bits(b.div_counter, jj as u16, m);
    }
}

/// The timer's rate: with the timer enabled (TAC bit 2) and the system
/// counter at a multiple of the selected period, TIMA grows by exactly one
/// every period (1024, 16, 64 or 256 T-cycles for clock selects 0-3), as
/// long as it does not overflow.
pub proof fn lemma_tima_rate(b: BusState, k: nat)
    requires
        b.tac & 0x04 != 0,
        (b.div_counter as int) % tima_period(b.tac) == 0,
        b.tima + k <= 0xFF,
    ensures
        timer_ticks(b, k * tima_period(b.tac) as nat).tima == b.tima + k,
        timer_ticks(b, k * tima_period(b.tac) as nat).tac == b.tac,
        (timer_ticks(b, k * tima_period(b.tac) as nat).div_counter as int) % tima_period(b.tac) == 0,
    decreases k,
{
    let per = tima_period(b.tac);
    if k > 0 {
        let kk = (k - 1) as nat;
        lemma_tima_rate(b, kk);
        let s = timer_ticks(b, kk * per as nat);
        lemma_timer_window(s, per as nat);
        let m: u16 = tac_bit_mask(b.tac);
        lemma_select_bits(b.tac);
        assert(2 * m == per);
        lemma_edge_bits(s.div_counter, 0, m);
        lemma_timer_ticks_add(b, kk * per as nat, per as nat);
        assert(kk * per as nat + per as nat == k * per as nat) by (nonlinear_arith)
            requires
                kk == k - 1,
        ;
        let t = timer_ticks(s, per as nat);
        assert(t == timer_ticks(b, k * per as nat));
        assert(s.tima < 0xFF);
        assert(t.tima == s.tima + 1);
        assert(t.tac == s.tac);
    } else {
        assert(k * per as nat == 0) by (nonlinear_arith)
            requires
                k == 0,
        ;
    }
}

} // verus!
