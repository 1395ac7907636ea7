//! What the picture processor draws on one scanline: background, window,
//! then sprites.
use vstd::prelude::*;
use super::{shades_only, Ppu, PpuState};
use crate::wrap::lemma_wrap;

verus! {

/// Where a tile's 16 bytes of pixel data start. In signed mode tile numbers
/// 128-255 stand for -128..-1 around 0x9000; otherwise tiles start at 0x8000.
pub open spec fn tile_data_addr(tile_id: u8, signed_mode: bool) -> int {
    if signed_mode {
        0x9000 + (if tile_id < 128 { tile_id as int } else { tile_id - 256 }) * 16
    } else {
        0x8000 + tile_id * 16
    }
}

/// The colour number (0-3) of one pixel of a tile row: bit `bit` of the low
/// byte gives bit 0 of the colour, bit `bit` of the high byte gives bit 1.
pub open spec fn tile_color(p: PpuState, tile_addr: int, line: int, bit: u8) -> u8 {
    let lo = p.vram_at(tile_addr + line * 2);
    let hi = p.vram_at(tile_addr + line * 2 + 1);
    (((hi >> bit) & 1u8) * 2 + ((lo >> bit) & 1u8)) as u8
}

/// The shade (0-3) a palette gives a colour number: two bits per colour.
pub open spec fn palette_shade(palette: u8, color_id: u8) -> u8 {
    (palette >> ((color_id * 2) as u8)) & 3u8
}

/// Colour number of background pixel `x` of line `ly`, scrolled by SCX/SCY.
pub open spec fn bg_color_id(p: PpuState, ly: u8, x: int) -> u8 {
    let base: int = if p.lcdc & 0x08 != 0 { 0x9C00 } else { 0x9800 };
    let signed_mode = p.lcdc & 0x10 == 0;
    let y = (ly + p.scy) % 256;
    let px = (x + p.scx) % 256;
    let tile_id = p.vram_at(base + (y / 8) * 32 + px / 8);
    tile_color(p, tile_data_addr(tile_id, signed_mode), y % 8, (7 - px % 8) as u8)
}

/// The framebuffer with line `ly` replaced by `f(x)` for x in `from..160`.
pub open spec fn with_line(fb: Seq<u8>, ly: u8, from: int, f: spec_fn(int) -> u8) -> Seq<u8> {
    Seq::new(
        fb.len(),
        |i: int|
            if ly * 160 + from <= i < ly * 160 + 160 {
                f(i - ly * 160)
            } else {
                fb[i]
            },
    )
}

/// Line `ly` after the background is drawn. With the background off (LCDC
/// bit 0) the line shows colour 0 of BGP.
pub open spec fn bg_line(p: PpuState, ly: u8) -> PpuState {
    if p.lcdc & 0x01 == 0 {
        PpuState {
            framebuffer: with_line(p.framebuffer, ly, 0, |x: int| p.bgp & 0x03),
            bg_color_ids: Seq::new(160, |x: int| 0u8),
            ..p
        }
    } else {
        PpuState {
            framebuffer: with_line(
                p.framebuffer,
                ly,
                0,
                |x: int| palette_shade(p.bgp, bg_color_id(p, ly, x)),
            ),
            bg_color_ids: Seq::new(160, |x: int| bg_color_id(p, ly, x)),
            ..p
        }
    }
}

/// The window shows on a line when it and the background are enabled, LY
/// has reached WY, and WX is at most 166.
pub open spec fn window_shown(p: PpuState, ly: u8) -> bool {
    &&& p.lcdc & 0x20 != 0
    &&& p.lcdc & 0x01 != 0
    &&& ly >= p.wy
    &&& p.wx <= 166
}

/// First screen column the window covers.
pub open spec fn window_start(p: PpuState) -> int {
    if p.wx < 7 {
        0
    } else {
        p.wx - 7
    }
}

/// Colour number of the window at screen column `x`, on window line `window_line`.
pub open spec fn window_color_id(p: PpuState, x: int) -> u8 {
    let base: int = if p.lcdc & 0x40 != 0 { 0x9C00 } else { 0x9800 };
    let signed_mode = p.lcdc & 0x10 == 0;
    let wx = x - window_start(p);
    let tile_id = p.vram_at(base + (p.window_line / 8) * 32 + wx / 8);
    tile_color(p, tile_data_addr(tile_id, signed_mode), (p.window_line % 8) as int, (7 - wx % 8) as u8)
}

/// Line `ly` after the window is drawn over it; drawing it advances the
/// window line counter.
pub open spec fn window_line(p: PpuState, ly: u8) -> PpuState {
    if !window_shown(p, ly) {
        p
    } else {
        PpuState {
            framebuffer: with_line(
                p.framebuffer,
                ly,
                window_start(p),
                |x: int| palette_shade(p.bgp, window_color_id(p, x)),
            ),
            bg_color_ids: Seq::new(
                160,
                |x: int|
                    if window_start(p) <= x { window_color_id(p, x) } else { p.bg_color_ids[x] },
            ),
            window_line: ((p.window_line + 1) % 256) as u8,
            ..p
        }
    }
}

/// Sprites are 8 or 16 lines tall (LCDC bit 2).
pub open spec fn sprite_height(p: PpuState) -> u8 {
    if p.lcdc & 0x04 != 0 {
        16
    } else {
        8
    }
}

/// Which row of sprite `i` line `ly` crosses (OAM holds Y + 16).
pub open spec fn sprite_row(p: PpuState, ly: u8, i: int) -> u8 {
    ((ly + 16 - p.oam[4 * i]) % 256) as u8
}

pub open spec fn sprite_on_line(p: PpuState, ly: u8, i: int) -> bool {
    sprite_row(p, ly, i) < sprite_height(p)
}

/// How many of the sprites before OAM entry `n` cross line `ly`.
pub open spec fn sprites_on_line_before(p: PpuState, ly: u8, n: int) -> nat
    decreases n,
{
    if n <= 0 {
        0
    } else {
        sprites_on_line_before(p, ly, n - 1) + if sprite_on_line(p, ly, n - 1) {
            1nat
        } else {
            0
        }
    }
}

/// A line shows the first ten sprites in OAM order that cross it.
pub open spec fn sprite_selected(p: PpuState, ly: u8, i: int) -> bool {
    sprite_on_line(p, ly, i) && sprites_on_line_before(p, ly, i) < 10
}

/// Which column of sprite `i` screen column `x` falls on (OAM holds X + 8).
pub open spec fn sprite_column(p: PpuState, i: int, x: int) -> int {
    (x + 8 - p.oam[4 * i + 1]) % 256
}

/// Colour number of sprite `i` at its column `col` on line `ly`, after the
/// flips of its attributes. 8x16 sprites ignore bit 0 of the tile number.
pub open spec fn sprite_color_id(p: PpuState, ly: u8, i: int, col: int) -> u8 {
    let attrs = p.oam[4 * i + 3];
    let h = sprite_height(p);
    let tile = if h == 16 { p.oam[4 * i + 2] & 0xFE } else { p.oam[4 * i + 2] };
    let row = sprite_row(p, ly, i);
    let line = if attrs & 0x40 != 0 { h - 1 - row } else { row as int };
    let bit = if attrs & 0x20 != 0 { col } else { 7 - col };
    tile_color(p, 0x8000 + tile * 16, line, bit as u8)
}

/// Sprite `i` paints screen column `x` of line `ly`: it is selected for the
/// line, covers the column, its colour there is not 0 (transparent), and
/// it is not behind a non-zero background colour (attribute bit 7).
pub open spec fn sprite_paints(p: PpuState, ly: u8, i: int, x: int) -> bool {
    let col = sprite_column(p, i, x);
    &&& sprite_selected(p, ly, i)
    &&& col < 8
    &&& sprite_color_id(p, ly, i, col) != 0
    &&& !(p.oam[4 * i + 3] & 0x80 != 0 && p.bg_color_ids[x] != 0)
}

/// Priority of a sprite: lower X first, then lower OAM index.
pub open spec fn sprite_key(p: PpuState, i: int) -> int {
    p.oam[4 * i + 1] * 64 + i
}

/// The sprite that shows at column `x`: among entries below `n` that paint
/// it, the one with the smallest key.
pub open spec fn sprite_pick(p: PpuState, ly: u8, x: int, n: int) -> Option<int>
    decreases n,
{
    if n <= 0 {
        None
    } else {
        let prev = sprite_pick(p, ly, x, n - 1);
        if sprite_paints(p, ly, n - 1, x) && (prev is None || sprite_key(p, n - 1) < sprite_key(
            p,
            prev->0,
        )) {
            Some(n - 1)
        } else {
            prev
        }
    }
}

/// The shade sprite `i` gives column `x`, through OBP0 or OBP1 (attribute bit 4).
pub open spec fn sprite_shade(p: PpuState, ly: u8, i: int, x: int) -> u8 {
    let attrs = p.oam[4 * i + 3];
    let palette = if attrs & 0x10 != 0 { p.obp1 } else { p.obp0 };
    palette_shade(palette, sprite_color_id(p, ly, i, sprite_column(p, i, x)))
}

/// Line `ly` after the sprites are drawn (when LCDC bit 1 enables them).
pub open spec fn sprites_line(p: PpuState, ly: u8) -> PpuState {
    if p.lcdc & 0x02 == 0 {
        p
    } else {
        PpuState {
            framebuffer: Seq::new(
                p.framebuffer.len(),
                |i: int|
                    if ly * 160 <= i < ly * 160 + 160 {
                        match sprite_pick(p, ly, i - ly * 160, 40) {
                            Some(s) => sprite_shade(p, ly, s, i - ly * 160),
                            None => p.framebuffer[i],
                        }
                    } else {
                        p.framebuffer[i]
                    },
            ),
            ..p
        }
    }
}

/// One visible line drawn in full.
pub open spec fn render_line(p: PpuState, ly: u8) -> PpuState {
    sprites_line(window_line(bg_line(p, ly), ly), ly)
}

/// Sprite priority: the sprite that shows at a column is one of the first
/// `n` OAM entries that paints it, and no other entry that paints it has a
/// smaller key (a lower X, or the same X and a lower OAM index); when none
/// paints the column, none shows.
pub proof fn lemma_sprite_pick(p: PpuState, ly: u8, x: int, n: int)
    requires
        0 <= n,
    ensures
        match sprite_pick(p, ly, x, n) {
            Some(i) => {
                &&& 0 <= i < n
                &&& sprite_paints(p, ly, i, x)
                &&& forall|j: int|
                    0 <= j < n && #[trigger] sprite_paints(p, ly, j, x) ==> sprite_key(p, i)
                        <= sprite_key(p, j)
            },
            None => forall|j: int| 0 <= j < n ==> !#[trigger] sprite_paints(p, ly, j, x),
        },
    decreases n,
{
    if n > 0 {
        lemma_sprite_pick(p, ly, x, n - 1);
    }
}

proof fn lemma_pixel_bits(hi: u8, lo: u8, bit: u8, palette: u8, cid: u8)
    by (bit_vector)
    requires
        bit < 8,
        cid <= 3,
    ensures
        (hi >> bit) & 1u8 <= 1,
        (lo >> bit) & 1u8 <= 1,
        (palette >> ((cid * 2) as u8)) & 3u8 <= 3,
{
}

proof fn lemma_shade_bits()
    by (bit_vector)
    ensures
        forall|pal: u8, k: u8| #[trigger] ((pal >> k) & 3u8) <= 3,
        forall|x: u8| #[trigger] (x & 0x03) <= 3,
{
}

/// Drawing the background writes shade indices only.
pub proof fn lemma_bg_wf(p: PpuState, ly: u8)
    requires
        p.wf(),
    ensures
        bg_line(p, ly).wf(),
{
    lemma_shade_bits();
}

/// Drawing the window writes shade indices only.
pub proof fn lemma_window_wf(p: PpuState, ly: u8)
    requires
        p.wf(),
    ensures
        window_line(p, ly).wf(),
{
    lemma_shade_bits();
}

/// Drawing the sprites writes shade indices only.
pub proof fn lemma_sprites_wf(p: PpuState, ly: u8)
    requires
        p.wf(),
    ensures
        sprites_line(p, ly).wf(),
{
    lemma_shade_bits();
    let sp = sprites_line(p, ly);
    assert forall|i: int| 0 <= i < sp.framebuffer.len() implies #[trigger] sp.framebuffer[i] <= 3 by {
        if p.lcdc & 0x02 != 0 && ly * 160 <= i < ly * 160 + 160 {
            match sprite_pick(p, ly, i - ly * 160, 40) {
                Some(k) => {
                    assert(sprite_shade(p, ly, k, i - ly * 160) <= 3);
                },
                None => {},
            }
        }
    }
}

/// Drawing a line writes shade indices only: it keeps the invariant.
pub proof fn lemma_render_wf(p: PpuState, ly: u8)
    requires
        p.wf(),
    ensures
        render_line(p, ly).wf(),
{
    lemma_bg_wf(p, ly);
    lemma_window_wf(bg_line(p, ly), ly);
    lemma_sprites_wf(window_line(bg_line(p, ly), ly), ly);
}

impl Ppu {
    /// Colour number of a tile pixel: `line` of the tile at `tile_addr`, bit `bit`.
    fn tile_pixel(&self, tile_addr: u16, line: u16, bit: u8) -> (cid: u8)
        requires
            0x8000 <= tile_addr,
            tile_addr + line * 2 + 1 < 0xA000,
            bit < 8,
        ensures
            cid == tile_color(self@, tile_addr as int, line as int, bit),
            cid <= 3,
    {
        let addr = tile_addr + line * 2;
        let lo = self.vram_read(addr);
        let hi = self.vram_read(addr + 1);
        proof {
            lemma_pixel_bits(hi, lo, bit, 0, 0);
        }
        let lo_bit = (lo >> bit) & 1;
        let hi_bit = (hi >> bit) & 1;
        hi_bit * 2 + lo_bit
    }

    fn shade(palette: u8, cid: u8) -> (s: u8)
        requires
            cid <= 3,
        ensures
            s == palette_shade(palette, cid),
    {
        palette >> (cid * 2) & 3
    }

    fn tile_data_address(tile_id: u8, signed_mode: bool) -> (a: u16)
        ensures
            a == tile_data_addr(tile_id, signed_mode),
            0x8000 <= a <= 0x97F0,
    {
        if signed_mode && tile_id < 128 {
            0x9000 + tile_id as u16 * 16
        } else {
            0x8000 + tile_id as u16 * 16
        }
    }

    fn bg_pixel(&self, ly: u8, x: u16) -> (cid: u8)
        requires
            x < 160,
            self@.sized(),
        ensures
            cid == bg_color_id(self@, ly, x as int),
            cid <= 3,
    {
        proof {
            lemma_wrap(ly + self.scy, 256);
            lemma_wrap(x + self.scx, 256);
        }
        let tilemap_base: u16 = if self.lcdc & 0x08 != 0 { 0x9C00 } else { 0x9800 };
        let signed_mode = self.lcdc & 0x10 == 0;
        let y = ly.wrapping_add(self.scy);
        let tile_row = (y / 8) as u16;
        let line_in_tile = (y % 8) as u16;
        let px = (x as u8).wrapping_add(self.scx);
        let tile_col = (px / 8) as u16;
        let bit_in_tile = 7 - (px % 8);
        let tile_index = tile_row * 32 + tile_col;
        let tile_id = self.vram_read(tilemap_base + tile_index);
        let tile_addr = Self::tile_data_address(tile_id, signed_mode);
        self.tile_pixel(tile_addr, line_in_tile, bit_in_tile)
    }

    /// Draws the background of line `ly`.
    pub(crate) fn render_bg_scanline(&mut self, ly: u8)
        requires
            ly < 144,
            old(self)@.sized(),
        ensures
            final(self)@ == bg_line(old(self)@, ly),
            final(self)@.sized(),
    {
        let ghost p0 = self@;
        let row = ly as usize * 160;
        if self.lcdc & 0x01 == 0 {
            let shade = self.bgp & 0x03;
            assert(p0.framebuffer =~= with_line(p0.framebuffer, ly, 0, |i: int| if i < 0 { shade } else { p0.framebuffer[ly * 160 + i] }));
            assert(p0.bg_color_ids =~= Seq::new(160, |i: int| if i < 0 { 0u8 } else { p0.bg_color_ids[i] }));
            for x in 0..160usize
                invariant
                    row == ly * 160,
                    ly < 144,
                    shade == p0.bgp & 0x03,
                    self@ == (PpuState {
                        framebuffer: with_line(p0.framebuffer, ly, 0, |i: int| if i < x { shade } else { p0.framebuffer[ly * 160 + i] }),
                        bg_color_ids: Seq::new(160, |i: int| if i < x { 0u8 } else { p0.bg_color_ids[i] }),
                        ..p0
                    }),
                    p0.sized(),
            {
                self.framebuffer[row + x] = shade;
                self.bg_color_ids[x] = 0;
                proof {
                    assert(self.framebuffer@ =~= with_line(p0.framebuffer, ly, 0, |i: int| if i < x + 1 { shade } else { p0.framebuffer[ly * 160 + i] }));
                    assert(self.bg_color_ids@ =~= Seq::new(160, |i: int| if i < x + 1 { 0u8 } else { p0.bg_color_ids[i] }));
                }
            }
            assert(self.framebuffer@ =~= bg_line(p0, ly).framebuffer);
            assert(self.bg_color_ids@ =~= bg_line(p0, ly).bg_color_ids);
            return ;
        }
        assert(p0.framebuffer =~= with_line(p0.framebuffer, ly, 0, |i: int| if i < 0 { palette_shade(p0.bgp, bg_color_id(p0, ly, i)) } else { p0.framebuffer[ly * 160 + i] }));
        assert(p0.bg_color_ids =~= Seq::new(160, |i: int| if i < 0 { bg_color_id(p0, ly, i) } else { p0.bg_color_ids[i] }));
        for x in 0..160usize
            invariant
                row == ly * 160,
                ly < 144,
                p0.lcdc & 0x01 != 0,
                self@ == (PpuState {
                    framebuffer: with_line(p0.framebuffer, ly, 0, |i: int| if i < x { palette_shade(p0.bgp, bg_color_id(p0, ly, i)) } else { p0.framebuffer[ly * 160 + i] }),
                    bg_color_ids: Seq::new(160, |i: int| if i < x { bg_color_id(p0, ly, i) } else { p0.bg_color_ids[i] }),
                    ..p0
                }),
                p0.sized(),
        {
            let cid = self.bg_pixel(ly, x as u16);
            let shade = Self::shade(self.bgp, cid);
            self.framebuffer[row + x] = shade;
            self.bg_color_ids[x] = cid;
            proof {
                assert(self.framebuffer@ =~= with_line(p0.framebuffer, ly, 0, |i: int| if i < x + 1 { palette_shade(p0.bgp, bg_color_id(p0, ly, i)) } else { p0.framebuffer[ly * 160 + i] }));
                assert(self.bg_color_ids@ =~= Seq::new(160, |i: int| if i < x + 1 { bg_color_id(p0, ly, i) } else { p0.bg_color_ids[i] }));
            }
        }
        assert(self.framebuffer@ =~= bg_line(p0, ly).framebuffer);
        assert(self.bg_color_ids@ =~= bg_line(p0, ly).bg_color_ids);
    }

    fn window_pixel(&self, x: u16) -> (cid: u8)
        requires
            self@.sized(),
            window_start(self@) <= x < 160,
            self.wx <= 166,
        ensures
            cid == window_color_id(self@, x as int),
            cid <= 3,
    {
        let tilemap_base: u16 = if self.lcdc & 0x40 != 0 { 0x9C00 } else { 0x9800 };
        let signed_mode = self.lcdc & 0x10 == 0;
        let window_line = self.window_line;
        let tile_row = (window_line / 8) as u16;
        let line_in_tile = (window_line % 8) as u16;
        let screen_x_start: u16 = if self.wx < 7 { 0 } else { (self.wx - 7) as u16 };
        let window_x = x - screen_x_start;
        let tile_col = window_x / 8;
        let bit_in_tile = (7 - (window_x % 8)) as u8;
        let tile_index = tile_row * 32 + tile_col;
        let tile_id = self.vram_read(tilemap_base + tile_index);
        let tile_addr = Self::tile_data_address(tile_id, signed_mode);
        self.tile_pixel(tile_addr, line_in_tile, bit_in_tile)
    }

    /// Draws the window layer of line `ly` over the background.
    pub(crate) fn render_window_scanline(&mut self, ly: u8)
        requires
            ly < 144,
            old(self)@.sized(),
        ensures
            final(self)@ == window_line(old(self)@, ly),
            final(self)@.sized(),
    {
        if self.lcdc & 0x20 == 0 || self.lcdc & 0x01 == 0 {
            return ;
        }
        if ly < self.wy || self.wx > 166 {
            return ;
        }
        let ghost p0 = self@;
        let row = ly as usize * 160;
        let screen_x_start: usize = if self.wx < 7 { 0 } else { (self.wx - 7) as usize };
        assert(p0.framebuffer =~= with_line(p0.framebuffer, ly, screen_x_start as int, |i: int| if i < screen_x_start { palette_shade(p0.bgp, window_color_id(p0, i)) } else { p0.framebuffer[ly * 160 + i] }));
        assert(p0.bg_color_ids =~= Seq::new(160, |i: int| if screen_x_start <= i < screen_x_start { window_color_id(p0, i) } else { p0.bg_color_ids[i] }));
        for x in screen_x_start..160usize
            invariant
                row == ly * 160,
                ly < 144,
                screen_x_start == window_start(p0),
                window_shown(p0, ly),
                self@ == (PpuState {
                    framebuffer: with_line(p0.framebuffer, ly, screen_x_start as int, |i: int| if i < x { palette_shade(p0.bgp, window_color_id(p0, i)) } else { p0.framebuffer[ly * 160 + i] }),
                    bg_color_ids: Seq::new(160, |i: int| if screen_x_start <= i < x { window_color_id(p0, i) } else { p0.bg_color_ids[i] }),
                    ..p0
                }),
                p0.sized(),
        {
            let cid = self.window_pixel(x as u16);
            let shade = Self::shade(self.bgp, cid);
            self.framebuffer[row + x] = shade;
            self.bg_color_ids[x] = cid;
            proof {
                assert(self.framebuffer@ =~= with_line(p0.framebuffer, ly, screen_x_start as int, |i: int| if i < x + 1 { palette_shade(p0.bgp, window_color_id(p0, i)) } else { p0.framebuffer[ly * 160 + i] }));
                assert(self.bg_color_ids@ =~= Seq::new(160, |i: int| if screen_x_start <= i < x + 1 { window_color_id(p0, i) } else { p0.bg_color_ids[i] }));
            }
        }
        self.window_line = self.window_line.wrapping_add(1);
        assert(self.framebuffer@ =~= window_line(p0, ly).framebuffer);
        assert(self.bg_color_ids@ =~= window_line(p0, ly).bg_color_ids);
    }

    /// Colour number of sprite `i` at its column `col` on line `ly`.
    fn sprite_pixel(&self, ly: u8, i: usize, col: u8) -> (cid: u8)
        requires
            self@.sized(),
            i < 40,
            col < 8,
            sprite_on_line(self@, ly, i as int),
        ensures
            cid == sprite_color_id(self@, ly, i as int, col as int),
            cid <= 3,
    {
        let sprite_height: u8 = if self.lcdc & 0x04 != 0 { 16 } else { 8 };
        let sprite_y = self.oam[i * 4];
        proof {
            lemma_wrap(ly + 16, 256);
            lemma_wrap((ly + 16) % 256 - sprite_y, 256);
            lemma_wrap(ly + 16 - sprite_y, 256);
        }
        let mut tile_id = self.oam[i * 4 + 2];
        let attrs = self.oam[i * 4 + 3];
        let flip_x = attrs & 0x20 != 0;
        let flip_y = attrs & 0x40 != 0;
        let mut line_in_sprite = ly.wrapping_add(16).wrapping_sub(sprite_y);
        if sprite_height == 16 {
            tile_id = tile_id & 0xFE;
        }
        if flip_y {
            line_in_sprite = sprite_height - 1 - line_in_sprite;
        }
        let tile_addr = 0x8000u16 + (tile_id as u16) * 16;
        let bit = if flip_x { col } else { 7 - col };
        self.tile_pixel(tile_addr, line_in_sprite as u16, bit)
    }

    /// The key of sprite `i` if it paints column `x` of line `ly`.
    fn sprite_paint_key(&self, ly: u8, i: usize, x: usize, selected: bool) -> (k: Option<u16>)
        requires
            self@.sized(),
            i < 40,
            x < 160,
            selected == sprite_selected(self@, ly, i as int),
        ensures
            k is Some == sprite_paints(self@, ly, i as int, x as int),
            k is Some ==> k->0 == sprite_key(self@, i as int),
    {
        if !selected {
            return None;
        }
        let sprite_x = self.oam[i * 4 + 1];
        proof {
            lemma_wrap(x + 8 - sprite_x, 256);
        }
        let col = (x as u8 + 8).wrapping_sub(sprite_x);
        if col >= 8 {
            return None;
        }
        let cid = self.sprite_pixel(ly, i, col);
        let attrs = self.oam[i * 4 + 3];
        let hidden = attrs & 0x80 != 0 && self.bg_color_ids[x] != 0;
        if cid != 0 && !hidden {
            Some(sprite_x as u16 * 64 + i as u16)
        } else {
            None
        }
    }

    /// Draws the sprites of line `ly`: the first ten sprites in OAM order that
    /// cross the line; where several paint a pixel, the one with the lowest X,
    /// then the lowest OAM index, shows.
    pub(crate) fn render_sprites_scanline(&mut self, ly: u8)
        requires
            ly < 144,
            old(self)@.sized(),
        ensures
            final(self)@ == sprites_line(old(self)@, ly),
            final(self)@.sized(),
    {
        if self.lcdc & 0x02 == 0 {
            return ;
        }
        let ghost p0 = self@;
        let height: u8 = if self.lcdc & 0x04 != 0 { 16 } else { 8 };
        let mut selected = [false; 40];
        let mut count: u8 = 0;
        for i in 0..40usize
            invariant
                self@ == p0,
                p0.sized(),
                height == sprite_height(p0),
                count == sprites_on_line_before(p0, ly, i as int),
                count <= i,
                forall|j: int| 0 <= j < i ==> selected@[j] == sprite_selected(p0, ly, j),
                forall|j: int| i <= j < 40 ==> !selected@[j],
        {
            let sprite_y = self.oam[i * 4];
            proof {
                lemma_wrap(ly + 16, 256);
                lemma_wrap((ly + 16) % 256 - sprite_y, 256);
                lemma_wrap(ly + 16 - sprite_y, 256);
            }
            let line_in_sprite = ly.wrapping_add(16).wrapping_sub(sprite_y);
            if line_in_sprite < height {
                selected[i] = count < 10;
                count = count + 1;
            }
        }
        let row = ly as usize * 160;
        let mut shades = [0u8; 160];
        let mut painted = [false; 160];
        for x in 0..160usize
            invariant
                self@ == p0,
                p0.sized(),
                row == ly * 160,
                ly < 144,
                forall|j: int| 0 <= j < 40 ==> selected@[j] == sprite_selected(p0, ly, j),
                forall|c: int|
                    0 <= c < x ==> (painted@[c] == sprite_pick(p0, ly, c, 40) is Some) && (
                    painted@[c] ==> shades@[c] == sprite_shade(p0, ly, sprite_pick(p0, ly, c, 40)->0, c)),
        {
            let mut found = false;
            let mut best: usize = 0;
            let mut best_key: u16 = 0;
            for i in 0..40usize
                invariant
                    self@ == p0,
                    p0.sized(),
                    x < 160,
                    forall|j: int| 0 <= j < 40 ==> selected@[j] == sprite_selected(p0, ly, j),
                    found == sprite_pick(p0, ly, x as int, i as int) is Some,
                    found ==> best == sprite_pick(p0, ly, x as int, i as int)->0 && best < 40
                        && best_key == sprite_key(p0, best as int),
            {
                let k = self.sprite_paint_key(ly, i, x, selected[i]);
                if let Some(key) = k {
                    if !found || key < best_key {
                        found = true;
                        best = i;
                        best_key = key;
                    }
                }
            }
            proof {
                lemma_sprite_pick(p0, ly, x as int, 40);
            }
            if found {
                let sprite_x = self.oam[best * 4 + 1];
                proof {
                    lemma_wrap(x + 8 - sprite_x, 256);
                }
                let col = (x as u8 + 8).wrapping_sub(sprite_x);
                let cid = self.sprite_pixel(ly, best, col);
                let attrs = self.oam[best * 4 + 3];
                let palette = if attrs & 0x10 != 0 { self.obp1 } else { self.obp0 };
                shades[x] = Self::shade(palette, cid);
                painted[x] = true;
            } else {
                painted[x] = false;
            }
        }
        assert(p0.framebuffer =~= with_line(p0.framebuffer, ly, 0, |i: int| if i < 0 && painted@[i] { shades@[i] } else { p0.framebuffer[ly * 160 + i] }));
        for x in 0..160usize
            invariant
                row == ly * 160,
                ly < 144,
                p0.sized(),
                p0.lcdc & 0x02 != 0,
                forall|c: int|
                    0 <= c < 160 ==> (painted@[c] == sprite_pick(p0, ly, c, 40) is Some) && (
                    painted@[c] ==> shades@[c] == sprite_shade(p0, ly, sprite_pick(p0, ly, c, 40)->0, c)),
                self@ == (PpuState {
                    framebuffer: with_line(p0.framebuffer, ly, 0, |i: int| if i < x && painted@[i] { shades@[i] } else { p0.framebuffer[ly * 160 + i] }),
                    ..p0
                }),
        {
            if painted[x] {
                self.framebuffer[row + x] = shades[x];
            }
            proof {
                assert(self.framebuffer@ =~= with_line(p0.framebuffer, ly, 0, |i: int| if i < x + 1 && painted@[i] { shades@[i] } else { p0.framebuffer[ly * 160 + i] }));
            }
        }
        assert(self.framebuffer@ =~= sprites_line(p0, ly).framebuffer);
    }
}

/// The state with its two cycle counters replaced.
pub open spec fn with_counters(p: PpuState, m: u16, f: u32) -> PpuState {
    PpuState { mode_cycles: m, frame_cycles: f, ..p }
}

proof fn lemma_before_counters(p: PpuState, m: u16, f: u32, ly: u8, n: int)
    ensures
        sprites_on_line_before(with_counters(p, m, f), ly, n) == sprites_on_line_before(p, ly, n),
    decreases n,
{
    if n > 0 {
        lemma_before_counters(p, m, f, ly, n - 1);
    }
}

proof fn lemma_pick_counters(p: PpuState, m: u16, f: u32, ly: u8, x: int, n: int)
    ensures
        sprite_pick(with_counters(p, m, f), ly, x, n) == sprite_pick(p, ly, x, n),
    decreases n,
{
    if n > 0 {
        lemma_pick_counters(p, m, f, ly, x, n - 1);
        lemma_before_counters(p, m, f, ly, n - 1);
    }
}

/// Drawing a line does not look at the cycle counters, and keeps them.
pub proof fn lemma_render_counters(p: PpuState, m: u16, f: u32, ly: u8)
    ensures
        render_line(with_counters(p, m, f), ly) == with_counters(render_line(p, ly), m, f),
{
    let q = with_counters(p, m, f);
    let b = bg_line(p, ly);
    assert(bg_line(q, ly) == with_counters(b, m, f)) by {
        assert(bg_line(q, ly).framebuffer =~= b.framebuffer);
        assert(bg_line(q, ly).bg_color_ids =~= b.bg_color_ids);
    }
    let w = window_line(b, ly);
    assert(window_line(with_counters(b, m, f), ly) == with_counters(w, m, f)) by {
        assert(window_line(with_counters(b, m, f), ly).framebuffer =~= w.framebuffer);
        assert(window_line(with_counters(b, m, f), ly).bg_color_ids =~= w.bg_color_ids);
    }
    let sp = sprites_line(w, ly);
    assert(sprites_line(with_counters(w, m, f), ly) == with_counters(sp, m, f)) by {
        assert forall|i: int| 0 <= i < w.framebuffer.len() implies #[trigger] sprites_line(
            with_counters(w, m, f),
            ly,
        ).framebuffer[i] == sp.framebuffer[i] by {
            lemma_pick_counters(w, m, f, ly, i - ly * 160, 40);
        }
        assert(sprites_line(with_counters(w, m, f), ly).framebuffer =~= sp.framebuffer);
    }
}

/// The picture processor with OAM attribute bit 5 (X flip) of sprite `i`
/// toggled.
pub open spec fn with_x_flip_toggled(p: PpuState, i: int) -> PpuState {
    PpuState { oam: p.oam.update(4 * i + 3, p.oam[4 * i + 3] ^ 0x20), ..p }
}

/// Sprite pixels: without X flip, sprite column `col` shows the tile row's
/// pixel `col` from the left (bit 7 - col of its two bytes, the low byte
/// giving colour bit 0 and the high byte colour bit 1); toggling the X-flip
/// attribute mirrors the sprite, column `col` showing what column `7 - col`
/// showed.
pub proof fn lemma_sprite_columns(p: PpuState, ly: u8, i: int, col: int)
    requires
        p.sized(),
        0 <= i < 40,
        0 <= col < 8,
    ensures
        sprite_color_id(with_x_flip_toggled(p, i), ly, i, col) == sprite_color_id(p, ly, i, 7 - col),
        ({
            let attrs = p.oam[4 * i + 3];
            let h = sprite_height(p);
            let tile = if h == 16 { p.oam[4 * i + 2] & 0xFE } else { p.oam[4 * i + 2] };
            let row = sprite_row(p, ly, i);
            let line = if attrs & 0x40 != 0 { h - 1 - row } else { row as int };
            let lo = p.vram[tile * 16 + line * 2];
            let hi = p.vram[tile * 16 + line * 2 + 1];
            let b = (7 - col) as u8;
            attrs & 0x20 == 0 ==> sprite_color_id(p, ly, i, col) == ((hi >> b) & 1u8) * 2 + ((lo >> b)
                & 1u8)
        }),
{
    let a = p.oam[4 * i + 3];
    assert((a ^ 0x20) & 0x40 == a & 0x40 && ((a ^ 0x20) & 0x20 != 0) == (a & 0x20 == 0)) by (
    bit_vector);
    let q = with_x_flip_toggled(p, i);
    assert(q.oam[4 * i + 3] == a ^ 0x20);
    assert(q.oam[4 * i + 2] == p.oam[4 * i + 2] && q.oam[4 * i] == p.oam[4 * i]);
    let h = sprite_height(p);
    let tile = if h == 16 { p.oam[4 * i + 2] & 0xFE } else { p.oam[4 * i + 2] };
    let row = sprite_row(p, ly, i);
    let line = if a & 0x40 != 0 { h - 1 - row } else { row as int };
    let lo = p.vram[tile * 16 + line * 2];
    let hi = p.vram[tile * 16 + line * 2 + 1];
    let b = (7 - col) as u8;
    assert((hi >> b) & 1u8 <= 1 && (lo >> b) & 1u8 <= 1) by (bit_vector);
    assert(p.vram_at(0x8000 + tile * 16 + line * 2) == lo);
    assert(p.vram_at(0x8000 + tile * 16 + line * 2 + 1) == hi);
}

/// A palette gives colour number `c` the shade in its bits 2c and 2c+1:
/// colour 0 the low two bits, colour 3 the high two.
pub proof fn lemma_palette_fields(pal: u8, c: u8)
    requires
        c < 4,
    ensures
        c == 0 ==> palette_shade(pal, c) == pal % 4,
        c == 1 ==> palette_shade(pal, c) == (pal / 4) % 4,
        c == 2 ==> palette_shade(pal, c) == (pal / 16) % 4,
        c == 3 ==> palette_shade(pal, c) == pal / 64,
{
    assert((pal >> 0u8) & 3u8 == pal % 4 && (pal >> 2u8) & 3u8 == (pal / 4) % 4 && (pal >> 4u8) & 3u8
        == (pal / 16) % 4 && (pal >> 6u8) & 3u8 == pal / 64) by (bit_vector);
}

/// Horizontal background scrolling: with SCX = s the line shows, at
/// column x, what it would show at column (x + s) mod 256 unscrolled.
pub proof fn lemma_bg_scroll_x(p: PpuState, ly: u8, x: int, sx: u8)
    requires
        0 <= x < 256,
    ensures
        bg_color_id(PpuState { scx: sx, ..p }, ly, x) == bg_color_id(
            PpuState { scx: 0, ..p },
            ly,
            (x + sx) % 256,
        ),
{
}

/// Vertical background scrolling: with SCY = s, line ly shows line
/// (ly + s) mod 256 of the unscrolled map.
pub proof fn lemma_bg_scroll_y(p: PpuState, ly: u8, x: int, sy: u8)
    ensures
        bg_color_id(PpuState { scy: sy, ..p }, ly, x) == bg_color_id(
            PpuState { scy: 0, ..p },
            ((ly + sy) % 256) as u8,
            x,
        ),
{
}

/// The background map, unscrolled, with the map at 0x9800 and tile data at
/// 0x8000: column x of line ly is pixel x mod 8 from the left of row
/// ly mod 8 of the tile the map names at row ly / 8, column x / 8.
pub proof fn lemma_bg_pixel(p: PpuState, ly: u8, x: int)
    requires
        p.sized(),
        0 <= x < 256,
        p.scx == 0,
        p.scy == 0,
        p.lcdc & 0x08 == 0,
        p.lcdc & 0x10 != 0,
    ensures
        ({
            let id = p.vram[0x1800 + (ly / 8) * 32 + x / 8];
            let lo = p.vram[id * 16 + (ly % 8) * 2];
            let hi = p.vram[id * 16 + (ly % 8) * 2 + 1];
            let b = (7 - x % 8) as u8;
            bg_color_id(p, ly, x) == ((hi >> b) & 1u8) * 2 + ((lo >> b) & 1u8)
        }),
{
    let id = p.vram[0x1800 + (ly / 8) * 32 + x / 8];
    let lo = p.vram[id * 16 + (ly % 8) * 2];
    let hi = p.vram[id * 16 + (ly % 8) * 2 + 1];
    let b = (7 - x % 8) as u8;
    assert((hi >> b) & 1u8 <= 1 && (lo >> b) & 1u8 <= 1) by (bit_vector);
    assert((ly + 0) % 256 == ly && (x + 0) % 256 == x);
    assert(p.vram_at(0x9800 + (ly / 8) * 32 + x / 8) == id);
    assert(tile_data_addr(id, false) == 0x8000 + id * 16);
    assert(p.vram_at(0x8000 + id * 16 + (ly % 8) * 2) == lo);
    assert(p.vram_at(0x8000 + id * 16 + (ly % 8) * 2 + 1) == hi);
}

} // verus!
