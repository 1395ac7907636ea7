use vstd::prelude::*;
use crate::wrap::lemma_wrap;

pub mod render;

verus! {

/// Number of T-cycles in one whole frame (154 lines of 456 cycles).
pub const CYCLES_PER_FRAME: u32 = 70224;

/// Width of the LCD in pixels.
pub const SCREEN_WIDTH: usize = 160;

/// Height of the LCD in pixels.
pub const SCREEN_HEIGHT: usize = 144;

/// Number of pixels of the LCD.
pub const FRAMEBUFFER_LEN: usize = 23040;

/// The four modes of the LCD controller; the low two bits of STAT hold their number.
#[derive(Clone, Copy, Debug, PartialEq, Eq, Structural)]
pub enum PpuMode {
    HBlank,
    VBlank,
    OamScan,
    Transfer,
}

/// The number that STAT reports for a mode.
pub open spec fn mode_number(m: PpuMode) -> u8 {
    match m {
        PpuMode::HBlank => 0,
        PpuMode::VBlank => 1,
        PpuMode::OamScan => 2,
        PpuMode::Transfer => 3,
    }
}

/// Every byte of a framebuffer is a shade index 0-3.
pub open spec fn shades_only(fb: Seq<u8>) -> bool {
    forall|i: int| 0 <= i < fb.len() ==> #[trigger] fb[i] <= 3
}

/// The picture processor as the contracts see it.
pub struct PpuState {
    pub vram: Seq<u8>,
    pub oam: Seq<u8>,
    pub lcdc: u8,
    pub stat: u8,
    pub scy: u8,
    pub scx: u8,
    pub ly: u8,
    pub lyc: u8,
    pub dma: u8,
    pub bgp: u8,
    pub obp0: u8,
    pub obp1: u8,
    pub wy: u8,
    pub wx: u8,
    pub mode: PpuMode,
    pub mode_cycles: u16,
    pub frame_cycles: u32,
    pub window_line: u8,
    pub bg_color_ids: Seq<u8>,
    pub framebuffer: Seq<u8>,
    pub frame_ready: bool,
}

/// The picture processor: video memory, sprite attribute memory, the LCD
/// registers, the scanline timing state and the framebuffer of shade indices.
pub struct Ppu {
    pub vram: [u8; 0x2000],
    pub oam: [u8; 0xA0],
    pub lcdc: u8,
    pub stat: u8,
    pub scy: u8,
    pub scx: u8,
    pub ly: u8,
    pub lyc: u8,
    pub dma: u8,
    pub bgp: u8,
    pub obp0: u8,
    pub obp1: u8,
    pub wy: u8,
    pub wx: u8,
    pub mode: PpuMode,
    pub mode_cycles: u16,
    /// Total cycles accumulated for frame timing while the LCD is off.
    pub frame_cycles: u32,
    /// Window line counter; it advances only on lines where the window is drawn.
    pub window_line: u8,
    /// Background/window colour number (0-3) of each pixel of the current line.
    pub bg_color_ids: [u8; 160],
    pub framebuffer: [u8; 23040],
    pub frame_ready: bool,
}

impl View for Ppu {
    type V = PpuState;

    open spec fn view(&self) -> PpuState {
        PpuState {
            vram: self.vram@,
            oam: self.oam@,
            lcdc: self.lcdc,
            stat: self.stat,
            scy: self.scy,
            scx: self.scx,
            ly: self.ly,
            lyc: self.lyc,
            dma: self.dma,
            bgp: self.bgp,
            obp0: self.obp0,
            obp1: self.obp1,
            wy: self.wy,
            wx: self.wx,
            mode: self.mode,
            mode_cycles: self.mode_cycles,
            frame_cycles: self.frame_cycles,
            window_line: self.window_line,
            bg_color_ids: self.bg_color_ids@,
            framebuffer: self.framebuffer@,
            frame_ready: self.frame_ready,
        }
    }
}

impl PpuState {
    /// The lengths that the memories of a picture processor have.
    pub open spec fn sized(self) -> bool {
        &&& self.vram.len() == 0x2000
        &&& self.oam.len() == 0xA0
        &&& self.bg_color_ids.len() == 160
        &&& self.framebuffer.len() == 23040
    }

    /// The invariant of a picture processor: its memories have their
    /// lengths, and the framebuffer holds shade indices 0-3 only.
    pub open spec fn wf(self) -> bool {
        &&& self.sized()
        &&& shades_only(self.framebuffer)
    }

    /// The state at power-on: LCD on, boot palette, OAM scan of line 0.
    pub open spec fn power_on() -> PpuState {
        PpuState {
            vram: Seq::new(0x2000, |i: int| 0u8),
            oam: Seq::new(0xA0, |i: int| 0u8),
            lcdc: 0x91,
            stat: 0x80,
            scy: 0,
            scx: 0,
            ly: 0,
            lyc: 0,
            dma: 0,
            bgp: 0xFC,
            obp0: 0xFF,
            obp1: 0xFF,
            wy: 0,
            wx: 0,
            mode: PpuMode::OamScan,
            mode_cycles: 0,
            frame_cycles: 0,
            window_line: 0,
            bg_color_ids: Seq::new(160, |i: int| 0u8),
            framebuffer: Seq::new(23040, |i: int| 0u8),
            frame_ready: false,
        }
    }

    /// STAT as read by the CPU: bit 7 always reads as 1.
    pub open spec fn stat_read(self) -> u8 {
        self.stat | 0x80
    }

    /// A write to STAT: only bits 3-6 are writable, bits 0-2 stay, bit 7 is set.
    pub open spec fn with_stat_written(self, value: u8) -> PpuState {
        PpuState { stat: (self.stat & 0x07) | (value & 0x78) | 0x80, ..self }
    }

    pub open spec fn lcd_on(self) -> bool {
        self.lcdc & 0x80 != 0
    }

    /// Entering a mode also writes its number to the low two bits of STAT.
    pub open spec fn with_mode(self, mode: PpuMode) -> PpuState {
        PpuState { mode: mode, stat: (self.stat & !0x03u8) | (mode_number(mode) & 0x03), ..self }
    }

    /// STAT bit 2 follows whether LY equals LYC.
    pub open spec fn with_coincidence(self) -> PpuState {
        if self.ly == self.lyc {
            PpuState { stat: self.stat | 0x04, ..self }
        } else {
            PpuState { stat: self.stat & !0x04u8, ..self }
        }
    }

    /// The byte of video memory at a CPU address in 0x8000..0xA000.
    pub open spec fn vram_at(self, addr: int) -> u8 {
        self.vram[addr - 0x8000]
    }
}

/// How many cycles each mode of a visible line lasts, and a VBlank line.
pub open spec fn mode_length(m: PpuMode) -> u16 {
    match m {
        PpuMode::OamScan => 80,
        PpuMode::Transfer => 172,
        PpuMode::HBlank => 204,
        PpuMode::VBlank => 456,
    }
}

/// One transition of the mode state machine, taken once the current mode's
/// length has elapsed. `irq` lists the interrupt requests made so far, in order
/// (0x01 VBlank, 0x02 LCD STAT).
pub open spec fn ppu_advance(p: PpuState, irq: Seq<u8>) -> (PpuState, Seq<u8>) {
    let mc = (p.mode_cycles - mode_length(p.mode)) as u16;
    match p.mode {
        PpuMode::OamScan => {
            let q = PpuState { mode_cycles: mc, ..p }.with_mode(PpuMode::Transfer);
            (q, if q.stat & 0x20 != 0 { irq.push(0x02) } else { irq })
        },
        PpuMode::Transfer => {
            let q0 = PpuState { mode_cycles: mc, ..p };
            let q1 = if q0.ly < 144 { render::render_line(q0, q0.ly) } else { q0 };
            let q = q1.with_mode(PpuMode::HBlank);
            (q, if q.stat & 0x08 != 0 { irq.push(0x02) } else { irq })
        },
        PpuMode::HBlank => {
            let q0 = PpuState { mode_cycles: mc, ly: ((p.ly + 1) % 256) as u8, ..p };
            let q1 = q0.with_coincidence();
            let irq1 = if q1.ly == q1.lyc && q1.stat & 0x40 != 0 { irq.push(0x02) } else { irq };
            if q1.ly == 144 {
                let q = PpuState { frame_ready: true, ..q1.with_mode(PpuMode::VBlank) };
                let irq2 = irq1.push(0x01);
                (q, if q.stat & 0x10 != 0 { irq2.push(0x02) } else { irq2 })
            } else {
                let q = q1.with_mode(PpuMode::OamScan);
                (q, if q.stat & 0x20 != 0 { irq1.push(0x02) } else { irq1 })
            }
        },
        PpuMode::VBlank => {
            let q0 = PpuState { mode_cycles: mc, ly: ((p.ly + 1) % 256) as u8, ..p };
            let q1 = q0.with_coincidence();
            let irq1 = if q1.ly == q1.lyc && q1.stat & 0x40 != 0 { irq.push(0x02) } else { irq };
            if q1.ly > 153 {
                let q = PpuState { ly: 0, window_line: 0, ..q1 }.with_coincidence().with_mode(
                    PpuMode::OamScan,
                );
                (q, if q.stat & 0x20 != 0 { irq1.push(0x02) } else { irq1 })
            } else {
                (q1, irq1)
            }
        },
    }
}

/// A transition keeps the lengths of the memories and the invariant, and
/// uses up the mode's cycles.
pub proof fn lemma_advance(p: PpuState, irq: Seq<u8>)
    requires
        p.sized(),
        p.mode_cycles >= mode_length(p.mode),
    ensures
        ppu_advance(p, irq).0.sized(),
        p.wf() ==> ppu_advance(p, irq).0.wf(),
        ppu_advance(p, irq).0.mode_cycles == p.mode_cycles - mode_length(p.mode),
{
    if p.mode == PpuMode::Transfer && p.ly < 144 && p.wf() {
        let q0 = PpuState { mode_cycles: (p.mode_cycles - mode_length(p.mode)) as u16, ..p };
        render::lemma_render_wf(q0, q0.ly);
    }
}

/// Runs the mode state machine on the cycles banked in `mode_cycles`, as
/// long as the current mode's length is covered.
pub open spec fn ppu_run(p: PpuState, irq: Seq<u8>) -> (PpuState, Seq<u8>)
    decreases p.mode_cycles,
{
    if p.mode_cycles < mode_length(p.mode) || !p.sized() {
        (p, irq)
    } else {
        proof {
            lemma_advance(p, irq);
        }
        ppu_run(ppu_advance(p, irq).0, ppu_advance(p, irq).1)
    }
}

/// A line at its start: the LCD on, `mode` entered with no cycles banked.
pub open spec fn at_line_start(p: PpuState, mode: PpuMode) -> bool {
    &&& p.wf()
    &&& p.lcd_on()
    &&& p.mode == mode
    &&& p.mode_cycles == 0
}

/// The picture processor after `n` whole lines (456 T-cycles each).
pub open spec fn run_lines(p: PpuState, n: nat) -> PpuState
    decreases n,
{
    if n == 0 {
        p
    } else {
        run_lines(ppu_step(p, 456).0, (n - 1) as nat)
    }
}

/// What advancing the picture processor by `cycles` T-cycles does: the new
/// state and the interrupt requests it makes, in order (0x01 VBlank, 0x02
/// LCD STAT).
/// With the LCD off it stays on line 0 in HBlank and still completes a blank
/// frame every 70224 cycles.
pub open spec fn ppu_step(p: PpuState, cycles: u16) -> (PpuState, Seq<u8>) {
    let p1 = PpuState { frame_cycles: ((p.frame_cycles + cycles) % 0x1_0000_0000) as u32, ..p };
    if !p1.lcd_on() {
        let p2 = PpuState { ly: 0, mode_cycles: 0, ..p1 }.with_mode(
            PpuMode::HBlank,
        ).with_coincidence();
        if p2.frame_cycles >= CYCLES_PER_FRAME {
            (
                PpuState {
                    frame_cycles: (p2.frame_cycles - CYCLES_PER_FRAME) as u32,
                    frame_ready: true,
                    framebuffer: Seq::new(23040, |i: int| 0u8),
                    ..p2
                },
                Seq::empty(),
            )
        } else {
            (p2, Seq::empty())
        }
    } else {
        ppu_run(PpuState { mode_cycles: ((p1.mode_cycles + cycles) % 0x1_0000) as u16, ..p1 }, Seq::empty())
    }
}

impl Ppu {
    pub fn new() -> (p: Self)
        ensures
            p@ == PpuState::power_on(),
    {
        let p = Self {
            vram: [0; 0x2000],
            oam: [0; 0xA0],
            lcdc: 0x91,
            stat: 0x80,
            scy: 0,
            scx: 0,
            ly: 0,
            lyc: 0,
            dma: 0,
            bgp: 0xFC,
            obp0: 0xFF,
            obp1: 0xFF,
            wy: 0,
            wx: 0,
            mode: PpuMode::OamScan,
            mode_cycles: 0,
            frame_cycles: 0,
            window_line: 0,
            bg_color_ids: [0; 160],
            framebuffer: [0; 23040],
            frame_ready: false,
        };
        assert(p.vram@ =~= Seq::new(0x2000, |i: int| 0u8));
        assert(p.oam@ =~= Seq::new(0xA0, |i: int| 0u8));
        assert(p.bg_color_ids@ =~= Seq::new(160, |i: int| 0u8));
        assert(p.framebuffer@ =~= Seq::new(23040, |i: int| 0u8));
        p
    }

    pub fn read_stat(&self) -> (v: u8)
        ensures
            v == self@.stat_read(),
    {
        self.stat | 0x80
    }

    pub fn write_stat(&mut self, value: u8)
        ensures
            final(self)@ == old(self)@.with_stat_written(value),
    {
        self.stat = (self.stat & 0x07) | (value & 0x78) | 0x80;
    }

    pub fn lcd_enabled(&self) -> (on: bool)
        ensures
            on == self@.lcd_on(),
    {
        self.lcdc & 0x80 != 0
    }

    pub fn set_mode(&mut self, mode: PpuMode)
        ensures
            final(self)@ == old(self)@.with_mode(mode),
    {
        self.mode = mode;
        let n: u8 = match mode {
            PpuMode::HBlank => 0,
            PpuMode::VBlank => 1,
            PpuMode::OamScan => 2,
            PpuMode::Transfer => 3,
        };
        self.stat = (self.stat & !0x03u8) | (n & 0x03);
    }

    /// Sets or clears STAT bit 2 after comparing LY with LYC, and tells
    /// whether they are equal.
    pub fn update_coincidence(&mut self) -> (equal: bool)
        ensures
            final(self)@ == old(self)@.with_coincidence(),
            equal == (old(self).ly == old(self).lyc),
    {
        if self.ly == self.lyc {
            self.stat = self.stat | 0x04;
            true
        } else {
            self.stat = self.stat & !0x04u8;
            false
        }
    }

    /// The byte of video memory at a CPU address in 0x8000..0xA000.
    pub fn vram_read(&self, addr: u16) -> (v: u8)
        requires
            0x8000 <= addr < 0xA000,
        ensures
            v == self@.vram_at(addr as int),
    {
        let idx = (addr - 0x8000) as usize;
        self.vram[idx]
    }

    fn mode_len(m: PpuMode) -> (n: u16)
        ensures
            n == mode_length(m),
    {
        match m {
            PpuMode::OamScan => 80,
            PpuMode::Transfer => 172,
            PpuMode::HBlank => 204,
            PpuMode::VBlank => 456,
        }
    }

    /// Leaves the current mode once its length has elapsed.
    fn advance(&mut self, irq: &mut Vec<u8>)
        requires
            old(self)@.sized(),
            old(self).mode_cycles >= mode_length(old(self).mode),
        ensures
            (final(self)@, final(irq)@) == ppu_advance(old(self)@, old(irq)@),
    {
        match self.mode {
            PpuMode::OamScan => self.end_oam_scan(irq),
            PpuMode::Transfer => self.end_transfer(irq),
            PpuMode::HBlank => self.end_hblank(irq),
            PpuMode::VBlank => self.end_vblank_line(irq),
        }
    }

    fn end_oam_scan(&mut self, irq: &mut Vec<u8>)
        requires
            old(self).mode == PpuMode::OamScan,
            old(self).mode_cycles >= 80,
        ensures
            (final(self)@, final(irq)@) == ppu_advance(old(self)@, old(irq)@),
    {
        self.mode_cycles = self.mode_cycles - 80;
        self.set_mode(PpuMode::Transfer);
        if self.stat & 0x20 != 0 {
            irq.push(0x02);
        }
    }

    fn end_transfer(&mut self, irq: &mut Vec<u8>)
        requires
            old(self)@.sized(),
            old(self).mode == PpuMode::Transfer,
            old(self).mode_cycles >= 172,
        ensures
            (final(self)@, final(irq)@) == ppu_advance(old(self)@, old(irq)@),
    {
        self.mode_cycles = self.mode_cycles - 172;
        if self.ly < 144 {
            let ly = self.ly;
            self.render_bg_scanline(ly);
            self.render_window_scanline(ly);
            self.render_sprites_scanline(ly);
        }
        self.set_mode(PpuMode::HBlank);
        if self.stat & 0x08 != 0 {
            irq.push(0x02);
        }
    }

    fn end_hblank(&mut self, irq: &mut Vec<u8>)
        requires
            old(self).mode == PpuMode::HBlank,
            old(self).mode_cycles >= 204,
        ensures
            (final(self)@, final(irq)@) == ppu_advance(old(self)@, old(irq)@),
    {
        self.mode_cycles = self.mode_cycles - 204;
        self.ly = self.ly.wrapping_add(1);
        let coincidence = self.update_coincidence();
        if coincidence && (self.stat & 0x40 != 0) {
            irq.push(0x02);
        }
        if self.ly == 144 {
            self.set_mode(PpuMode::VBlank);
            self.frame_ready = true;
            irq.push(0x01);
            if self.stat & 0x10 != 0 {
                irq.push(0x02);
            }
        } else {
            self.set_mode(PpuMode::OamScan);
            if self.stat & 0x20 != 0 {
                irq.push(0x02);
            }
        }
    }

    fn end_vblank_line(&mut self, irq: &mut Vec<u8>)
        requires
            old(self).mode == PpuMode::VBlank,
            old(self).mode_cycles >= 456,
        ensures
            (final(self)@, final(irq)@) == ppu_advance(old(self)@, old(irq)@),
    {
        self.mode_cycles = self.mode_cycles - 456;
        self.ly = self.ly.wrapping_add(1);
        let coincidence = self.update_coincidence();
        if coincidence && (self.stat & 0x40 != 0) {
            irq.push(0x02);
        }
        if self.ly > 153 {
            self.ly = 0;
            self.window_line = 0;
            self.update_coincidence();
            self.set_mode(PpuMode::OamScan);
            if self.stat & 0x20 != 0 {
                irq.push(0x02);
            }
        }
    }

    /// Advances the picture processor by `cycles` T-cycles and returns the
    /// interrupt requests it makes, in order: 0x01 for VBlank, 0x02 for LCD
    /// STAT.
    pub fn step(&mut self, cycles: u16) -> (irq: Vec<u8>)
        ensures
            (final(self)@, irq@) == ppu_step(old(self)@, cycles),
    {
        proof {
            lemma_wrap(self.frame_cycles + cycles, 0x1_0000_0000);
            lemma_wrap(self.mode_cycles + cycles, 0x1_0000);
        }
        self.frame_cycles = self.frame_cycles.wrapping_add(cycles as u32);
        if !self.lcd_enabled() {
            self.ly = 0;
            self.mode_cycles = 0;
            self.set_mode(PpuMode::HBlank);
            self.update_coincidence();
            if self.frame_cycles >= CYCLES_PER_FRAME {
                self.frame_cycles = self.frame_cycles - CYCLES_PER_FRAME;
                self.frame_ready = true;
                self.framebuffer = [0; 23040];
                assert(self.framebuffer@ =~= Seq::new(23040, |i: int| 0u8));
            }
            return Vec::new();
        }
        self.mode_cycles = self.mode_cycles.wrapping_add(cycles);
        let ghost target = ppu_run(self@, Seq::empty());
        let mut irq: Vec<u8> = Vec::new();
        while self.mode_cycles >= Self::mode_len(self.mode)
            invariant
                ppu_run(self@, irq@) == target,
                self@.sized(),
            decreases self.mode_cycles,
        {
            proof {
                lemma_advance(self@, irq@);
            }
            self.advance(&mut irq);
        }
        irq
    }
}

/// The end of line 143 requests the VBlank interrupt.
proof fn lemma_vblank_request(p: PpuState, irq: Seq<u8>)
    requires
        p.mode == PpuMode::HBlank,
        p.mode_cycles >= 204,
        p.ly == 143,
    ensures
        ppu_advance(p, irq).1.contains(0x01u8),
{
    let q0 = PpuState { mode_cycles: (p.mode_cycles - 204) as u16, ly: 144, ..p };
    let q1 = q0.with_coincidence();
    let irq1 = if q1.ly == q1.lyc && q1.stat & 0x40 != 0 { irq.push(0x02) } else { irq };
    let irq2 = irq1.push(0x01);
    assert(irq2[irq1.len() as int] == 0x01u8);
    assert(irq2.push(0x02)[irq1.len() as int] == 0x01u8);
}

/// Scanline timing: with the LCD on, a visible line lasts 456 T-cycles
/// (80 of OAM scan, 172 of transfer, 204 of HBlank) and leads to the start
/// of the next; the end of line 143 enters VBlank on line 144 with a frame
/// ready and the VBlank interrupt requested; each VBlank line lasts 456
/// T-cycles, and the end of line 153 starts line 0 again.
pub proof fn lemma_line_timing(p: PpuState)
    ensures
        at_line_start(p, PpuMode::OamScan) && p.ly < 143 ==> {
            let q = ppu_step(p, 456).0;
            &&& at_line_start(q, PpuMode::OamScan)
            &&& q.ly == p.ly + 1
            &&& q.frame_ready == p.frame_ready
        },
        at_line_start(p, PpuMode::OamScan) && p.ly == 143 ==> {
            let (q, irq) = ppu_step(p, 456);
            &&& at_line_start(q, PpuMode::VBlank)
            &&& q.ly == 144
            &&& q.frame_ready
            &&& irq.contains(0x01u8)
        },
        at_line_start(p, PpuMode::VBlank) && 144 <= p.ly < 153 ==> {
            let q = ppu_step(p, 456).0;
            &&& at_line_start(q, PpuMode::VBlank)
            &&& q.ly == p.ly + 1
            &&& q.frame_ready == p.frame_ready
        },
        at_line_start(p, PpuMode::VBlank) && p.ly == 153 ==> {
            let q = ppu_step(p, 456).0;
            &&& at_line_start(q, PpuMode::OamScan)
            &&& q.ly == 0
            &&& q.frame_ready == p.frame_ready
        },
{
    if p.wf() && p.lcd_on() && p.mode_cycles == 0 {
        let p1 = PpuState { frame_cycles: ((p.frame_cycles + 456) % 0x1_0000_0000) as u32, ..p };
        let r0 = PpuState { mode_cycles: 456, ..p1 };
        assert(ppu_step(p, 456) == ppu_run(r0, Seq::empty()));
        if p.mode == PpuMode::OamScan {
            let (r1, i1) = ppu_advance(r0, Seq::empty());
            lemma_advance(r0, Seq::empty());
            let (r2, i2) = ppu_advance(r1, i1);
            lemma_advance(r1, i1);
            let (r3, i3) = ppu_advance(r2, i2);
            lemma_advance(r2, i2);
            assert(r1.mode == PpuMode::Transfer && r1.mode_cycles == 376);
            assert(r2.mode == PpuMode::HBlank && r2.mode_cycles == 204 && r2.ly == p.ly);
            assert(r2.lcdc == p.lcdc && r2.frame_ready == p.frame_ready);
            assert(ppu_run(r0, Seq::empty()) == ppu_run(r1, i1));
            assert(ppu_run(r1, i1) == ppu_run(r2, i2));
            assert(ppu_run(r2, i2) == ppu_run(r3, i3));
            assert(ppu_run(r3, i3) == (r3, i3));
            if p.ly == 143 {
                lemma_vblank_request(r2, i2);
            }
        } else if p.mode == PpuMode::VBlank {
            let (r1, i1) = ppu_advance(r0, Seq::empty());
            lemma_advance(r0, Seq::empty());
            assert(ppu_run(r0, Seq::empty()) == ppu_run(r1, i1));
            assert(ppu_run(r1, i1) == (r1, i1));
        }
    }
}

/// Running `a` lines and then `b` more is running `a + b` lines.
proof fn lemma_run_lines_add(p: PpuState, a: nat, b: nat)
    ensures
        run_lines(run_lines(p, a), b) == run_lines(p, a + b),
    decreases a,
{
    if a > 0 {
        lemma_run_lines_add(ppu_step(p, 456).0, (a - 1) as nat, b);
    }
}

/// Visible lines follow each other, one per 456 T-cycles, without a frame.
proof fn lemma_visible_lines(p: PpuState, k: nat)
    requires
        at_line_start(p, PpuMode::OamScan),
        p.ly + k <= 143,
    ensures
        at_line_start(run_lines(p, k), PpuMode::OamScan),
        run_lines(p, k).ly == p.ly + k,
        run_lines(p, k).frame_ready == p.frame_ready,
    decreases k,
{
    if k > 0 {
        lemma_line_timing(p);
        lemma_visible_lines(ppu_step(p, 456).0, (k - 1) as nat);
    }
}

/// VBlank lines follow each other, one per 456 T-cycles.
proof fn lemma_vblank_lines(p: PpuState, k: nat)
    requires
        at_line_start(p, PpuMode::VBlank),
        144 <= p.ly,
        p.ly + k <= 153,
    ensures
        at_line_start(run_lines(p, k), PpuMode::VBlank),
        run_lines(p, k).ly == p.ly + k,
        run_lines(p, k).frame_ready == p.frame_ready,
    decreases k,
{
    if k > 0 {
        lemma_line_timing(p);
        lemma_vblank_lines(ppu_step(p, 456).0, (k - 1) as nat);
    }
}

/// Frame timing: from the start of line 0 with the LCD on, 144 lines of 456
/// T-cycles pass before the frame is ready, VBlank starts on line 144, and
/// after 154 lines (70224 T-cycles) line 0 starts again.
pub proof fn lemma_frame_timing(p: PpuState, k: nat)
    requires
        at_line_start(p, PpuMode::OamScan),
        p.ly == 0,
    ensures
        k < 144 ==> run_lines(p, k).frame_ready == p.frame_ready && run_lines(p, k).ly == k,
        at_line_start(run_lines(p, 144), PpuMode::VBlank),
        run_lines(p, 144).ly == 144,
        run_lines(p, 144).frame_ready,
        at_line_start(run_lines(p, 154), PpuMode::OamScan),
        run_lines(p, 154).ly == 0,
        run_lines(p, 154).frame_ready,
        154 * 456 == CYCLES_PER_FRAME,
{
    if k < 144 {
        lemma_visible_lines(p, k);
    }
    lemma_visible_lines(p, 143);
    let q = run_lines(p, 143);
    lemma_line_timing(q);
    lemma_run_lines_add(p, 143, 1);
    assert(run_lines(ppu_step(q, 456).0, 0) == ppu_step(q, 456).0);
    assert(run_lines(q, 1) == ppu_step(q, 456).0);
    let v = run_lines(p, 144);
    lemma_vblank_lines(v, 9);
    lemma_run_lines_add(p, 144, 9);
    let w = run_lines(p, 153);
    lemma_line_timing(w);
    lemma_run_lines_add(p, 153, 1);
    assert(run_lines(ppu_step(w, 456).0, 0) == ppu_step(w, 456).0);
    assert(run_lines(w, 1) == ppu_step(w, 456).0);
}

/// A transition appends its interrupt requests to those made so far.
proof fn lemma_advance_irq(p: PpuState, irq: Seq<u8>)
    ensures
        ppu_advance(p, irq).0 == ppu_advance(p, Seq::empty()).0,
        ppu_advance(p, irq).1 =~= irq + ppu_advance(p, Seq::empty()).1,
{
}

/// A run appends its interrupt requests to those made so far.
proof fn lemma_run_irq(p: PpuState, irq: Seq<u8>)
    ensures
        ppu_run(p, irq).0 == ppu_run(p, Seq::empty()).0,
        ppu_run(p, irq).1 =~= irq + ppu_run(p, Seq::empty()).1,
    decreases p.mode_cycles,
{
    if p.mode_cycles >= mode_length(p.mode) && p.sized() {
        lemma_advance(p, irq);
        lemma_advance_irq(p, irq);
        let a = ppu_advance(p, Seq::empty());
        lemma_advance(p, Seq::empty());
        lemma_run_irq(a.0, irq + a.1);
        lemma_run_irq(a.0, a.1);
        assert((irq + a.1) + ppu_run(a.0, Seq::empty()).1 =~= irq + (a.1 + ppu_run(
            a.0,
            Seq::empty(),
        ).1));
    }
}

/// A transition does not look at the cycles banked beyond the current
/// mode's length, nor at the frame counter.
proof fn lemma_advance_counters(p: PpuState, irq: Seq<u8>, extra: u16, f: u32)
    requires
        p.mode_cycles >= mode_length(p.mode),
        p.mode_cycles + extra < 0x10000,
    ensures
        ppu_advance(render::with_counters(p, (p.mode_cycles + extra) as u16, f), irq) == (
            render::with_counters(
                ppu_advance(p, irq).0,
                (ppu_advance(p, irq).0.mode_cycles + extra) as u16,
                f,
            ),
            ppu_advance(p, irq).1,
        ),
{
    if p.mode == PpuMode::Transfer {
        let mc = (p.mode_cycles - mode_length(p.mode)) as u16;
        let q0 = PpuState { mode_cycles: mc, ..p };
        render::lemma_render_counters(q0, (mc + extra) as u16, f, q0.ly);
    }
}

/// Running the banked cycles in two portions ends where running them at
/// once does, with the same interrupt requests.
proof fn lemma_run_split_cycles(p: PpuState, irq: Seq<u8>, extra: u16, f: u32)
    requires
        p.wf(),
        p.mode_cycles + extra < 0x10000,
    ensures
        ppu_run(
            render::with_counters(
                ppu_run(p, irq).0,
                (ppu_run(p, irq).0.mode_cycles + extra) as u16,
                f,
            ),
            ppu_run(p, irq).1,
        ) == ppu_run(render::with_counters(p, (p.mode_cycles + extra) as u16, f), irq),
        ppu_run(p, irq).0.wf(),
        ppu_run(p, irq).0.lcdc == p.lcdc,
        ppu_run(p, irq).0.frame_cycles == p.frame_cycles,
        ppu_run(p, irq).0.mode_cycles <= p.mode_cycles,
    decreases p.mode_cycles,
{
    if p.mode_cycles >= mode_length(p.mode) {
        lemma_advance(p, irq);
        lemma_advance_counters(p, irq, extra, f);
        let a = ppu_advance(p, irq);
        lemma_run_split_cycles(a.0, a.1, extra, f);
    }
}

/// Advancing by `a` T-cycles and then by `b` ends where advancing by
/// `a + b` at once does, with the same interrupt requests in the same order,
/// while the LCD is on and the cycle count stays within 16 bits.
#[verifier::rlimit(80)]
pub proof fn lemma_step_additive(p: PpuState, a: u16, b: u16)
    requires
        p.wf(),
        p.lcd_on(),
        p.mode_cycles + a + b < 0x10000,
    ensures
        ppu_step(ppu_step(p, a).0, b).0 == ppu_step(p, (a + b) as u16).0,
        ppu_step(p, a).1 + ppu_step(ppu_step(p, a).0, b).1 == ppu_step(p, (a + b) as u16).1,
{
    let fa = ((p.frame_cycles + a) % 0x1_0000_0000) as u32;
    let fab = ((p.frame_cycles + a + b) % 0x1_0000_0000) as u32;
    let qa = PpuState { mode_cycles: (p.mode_cycles + a) as u16, frame_cycles: fa, ..p };
    assert(ppu_step(p, a) == ppu_run(qa, Seq::empty()));
    let r = ppu_run(qa, Seq::empty());
    lemma_run_split_cycles(qa, Seq::empty(), b, fab);
    vstd::arithmetic::div_mod::lemma_add_mod_noop(p.frame_cycles + a, b as int, 0x1_0000_0000);
    assert(fab == ((r.0.frame_cycles + b) % 0x1_0000_0000) as u32);
    let qb = PpuState {
        mode_cycles: ((r.0.mode_cycles + b) % 0x10000) as u16,
        frame_cycles: fab,
        ..r.0
    };
    assert(ppu_step(r.0, b) == ppu_run(qb, Seq::empty()));
    assert(qb == render::with_counters(r.0, (r.0.mode_cycles + b) as u16, fab));
    assert(ppu_step(p, (a + b) as u16) == ppu_run(render::with_counters(qa, (qa.mode_cycles + b) as u16, fab), Seq::empty()));
    lemma_run_irq(qb, r.1);
    let whole = ppu_run(render::with_counters(qa, (qa.mode_cycles + b) as u16, fab), Seq::empty());
    assert(ppu_run(qb, r.1) == whole);
    assert(whole.1 =~= r.1 + ppu_run(qb, Seq::empty()).1);
}

/// Running the state machine keeps the invariant.
proof fn lemma_run_wf(p: PpuState, irq: Seq<u8>)
    requires
        p.wf(),
    ensures
        ppu_run(p, irq).0.wf(),
    decreases p.mode_cycles,
{
    if p.mode_cycles >= mode_length(p.mode) {
        lemma_advance(p, irq);
        lemma_run_wf(ppu_advance(p, irq).0, ppu_advance(p, irq).1);
    }
}

/// Advancing the picture processor keeps its invariant: the framebuffer
/// holds shade indices 0-3 only.
pub proof fn lemma_step_wf(p: PpuState, cycles: u16)
    requires
        p.wf(),
    ensures
        ppu_step(p, cycles).0.wf(),
{
    let p1 = PpuState { frame_cycles: ((p.frame_cycles + cycles) % 0x1_0000_0000) as u32, ..p };
    if p1.lcd_on() {
        lemma_run_wf(PpuState { mode_cycles: ((p1.mode_cycles + cycles) % 0x1_0000) as u16, ..p1 }, Seq::empty());
    }
}

/// Whole visible lines still to run after the current one before line 144
/// starts (the line counter wraps at 256).
pub open spec fn visible_lines_left(ly: u8) -> int {
    (143 - ly) % 256
}

/// VBlank lines, the current one included, before line 0 starts again.
pub open spec fn vblank_lines_left(ly: u8) -> int {
    if ly == 255 {
        155
    } else if ly >= 153 {
        1
    } else {
        154 - ly
    }
}

/// With the LCD on, the T-cycles from the start of the current mode until a
/// frame is ready.
pub open spec fn cycles_to_frame(p: PpuState) -> int {
    match p.mode {
        PpuMode::OamScan => 456 + 456 * visible_lines_left(p.ly),
        PpuMode::Transfer => 376 + 456 * visible_lines_left(p.ly),
        PpuMode::HBlank => 204 + 456 * visible_lines_left(p.ly),
        PpuMode::VBlank => 456 * vblank_lines_left(p.ly) + 456 * 144,
    }
}

/// A state the picture processor settles in after any step: a frame ready,
/// or no whole mode banked with the LCD on, or less than a frame counted
/// with the LCD off.
pub open spec fn settled(p: PpuState) -> bool {
    ||| p.frame_ready
    ||| p.lcd_on() && p.mode_cycles < mode_length(p.mode)
    ||| !p.lcd_on() && p.frame_cycles < CYCLES_PER_FRAME
}

/// T-cycles until the next frame is ready.
pub open spec fn frame_distance(p: PpuState) -> int {
    if p.lcd_on() {
        cycles_to_frame(p) - p.mode_cycles
    } else {
        CYCLES_PER_FRAME - p.frame_cycles
    }
}

/// The most T-cycles a settled state can be from its next frame: 155
/// VBlank lines and 144 visible ones, of 456 T-cycles each.
pub open spec fn max_frame_distance() -> int {
    136344int
}

proof fn lemma_visible_next(ly: u8)
    ensures
        ((ly + 1) % 256) != 144 ==> visible_lines_left(((ly + 1) % 256) as u8) == visible_lines_left(
            ly,
        ) - 1,
{
}

proof fn lemma_vblank_next(ly: u8)
    ensures
        ((ly + 1) % 256) <= 153 ==> vblank_lines_left(ly) == 1 + vblank_lines_left(
            ((ly + 1) % 256) as u8,
        ),
        ((ly + 1) % 256) > 153 ==> vblank_lines_left(ly) == 1,
{
}

/// A transition never clears the frame-ready flag, keeps LCDC, and brings
/// the next frame exactly the mode's length closer.
proof fn lemma_advance_distance(p: PpuState, irq: Seq<u8>)
    requires
        p.sized(),
        p.mode_cycles >= mode_length(p.mode),
    ensures
        ppu_advance(p, irq).0.lcdc == p.lcdc,
        p.frame_ready ==> ppu_advance(p, irq).0.frame_ready,
        !ppu_advance(p, irq).0.frame_ready ==> cycles_to_frame(ppu_advance(p, irq).0)
            == cycles_to_frame(p) - mode_length(p.mode),
{
    let q = ppu_advance(p, irq).0;
    match p.mode {
        PpuMode::OamScan => {
            assert(q.mode == PpuMode::Transfer && q.ly == p.ly);
        },
        PpuMode::Transfer => {
            let q0 = PpuState { mode_cycles: (p.mode_cycles - mode_length(p.mode)) as u16, ..p };
            if p.ly < 144 {
                assert(render::render_line(q0, q0.ly).ly == q0.ly);
                assert(render::render_line(q0, q0.ly).lcdc == q0.lcdc);
                assert(render::render_line(q0, q0.ly).frame_ready == q0.frame_ready);
            }
            assert(q.mode == PpuMode::HBlank && q.ly == p.ly);
        },
        PpuMode::HBlank => {
            lemma_visible_next(p.ly);
            assert(q.ly == ((p.ly + 1) % 256) as u8);
        },
        PpuMode::VBlank => {
            lemma_vblank_next(p.ly);
            if ((p.ly + 1) % 256) > 153 {
                assert(q.mode == PpuMode::OamScan && q.ly == 0);
            } else {
                assert(q.mode == PpuMode::VBlank && q.ly == ((p.ly + 1) % 256) as u8);
            }
        },
    }
}

/// Running the state machine keeps LCDC, never clears the frame-ready
/// flag, and, short of a frame, ends with no whole mode banked and as far
/// from the next frame as it started.
proof fn lemma_run_distance(p: PpuState, irq: Seq<u8>)
    requires
        p.sized(),
    ensures
        ppu_run(p, irq).0.lcdc == p.lcdc,
        ppu_run(p, irq).0.sized(),
        p.frame_ready ==> ppu_run(p, irq).0.frame_ready,
        !ppu_run(p, irq).0.frame_ready ==> {
            &&& ppu_run(p, irq).0.mode_cycles < mode_length(ppu_run(p, irq).0.mode)
            &&& ppu_run(p, irq).0.frame_cycles == p.frame_cycles
            &&& cycles_to_frame(ppu_run(p, irq).0) - ppu_run(p, irq).0.mode_cycles
                == cycles_to_frame(p) - p.mode_cycles
        },
    decreases p.mode_cycles,
{
    if p.mode_cycles >= mode_length(p.mode) {
        lemma_advance(p, irq);
        lemma_advance_distance(p, irq);
        let a = ppu_advance(p, irq);
        lemma_run_distance(a.0, a.1);
        if !p.frame_ready {
            lemma_run_split_cycles_frame(p, irq);
        }
    }
}

/// A transition keeps the frame counter.
proof fn lemma_run_split_cycles_frame(p: PpuState, irq: Seq<u8>)
    requires
        p.sized(),
        p.mode_cycles >= mode_length(p.mode),
    ensures
        ppu_advance(p, irq).0.frame_cycles == p.frame_cycles,
{
    if p.mode == PpuMode::Transfer && p.ly < 144 {
        let q0 = PpuState { mode_cycles: (p.mode_cycles - mode_length(p.mode)) as u16, ..p };
        assert(render::render_line(q0, q0.ly).frame_cycles == q0.frame_cycles);
    }
}

/// After any step the picture processor is settled, keeps LCDC and its
/// memory lengths, and never clears the frame-ready flag.
pub proof fn lemma_step_settles(p: PpuState, cycles: u16)
    requires
        p.sized(),
    ensures
        settled(ppu_step(p, cycles).0),
        ppu_step(p, cycles).0.sized(),
        ppu_step(p, cycles).0.lcdc == p.lcdc,
        p.frame_ready ==> ppu_step(p, cycles).0.frame_ready,
{
    let p1 = PpuState { frame_cycles: ((p.frame_cycles + cycles) % 0x1_0000_0000) as u32, ..p };
    if p1.lcd_on() {
        lemma_run_distance(
            PpuState { mode_cycles: ((p1.mode_cycles + cycles) % 0x1_0000) as u16, ..p1 },
            Seq::empty(),
        );
    }
}

/// A settled state short of a frame is between 1 and `max_frame_distance`
/// T-cycles from it, and a short step from it brings the frame that much
/// closer or makes it ready.
pub proof fn lemma_step_distance(p: PpuState, cycles: u16)
    requires
        p.sized(),
        settled(p),
        !p.frame_ready,
        cycles <= 24,
    ensures
        1 <= frame_distance(p) <= max_frame_distance(),
        ppu_step(p, cycles).0.frame_ready || frame_distance(ppu_step(p, cycles).0) == frame_distance(
            p,
        ) - cycles,
{
    let p1 = PpuState { frame_cycles: ((p.frame_cycles + cycles) % 0x1_0000_0000) as u32, ..p };
    if p1.lcd_on() {
        let q = PpuState { mode_cycles: ((p1.mode_cycles + cycles) % 0x1_0000) as u16, ..p1 };
        lemma_run_distance(q, Seq::empty());
    }
}

} // verus!
