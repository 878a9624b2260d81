use vstd::prelude::*;

use crate::color::{Color, color_of};

verus! {

pub const SCREEN_WIDTH: usize = 160;
pub const SCREEN_HEIGHT: usize = 144;
pub const SCREEN_AREA: usize = 23040;
pub const VRAM_SIZE: usize = 0x2000;
pub const OAM_SPRITES: usize = 40;
pub const OAM_SIZE: usize = 160;

/// The phase of the scanline cycle.
#[derive(Clone, Copy, PartialEq, Eq, Structural, Debug)]
pub enum Mode {
    /// Mode 2: sprite search.
    Oam,
    /// Mode 3: pixel transfer.
    Vram,
    /// Mode 0.
    Hblank,
    /// Mode 1.
    Vblank,
}

/// A palette: the shade shown for each 2-bit pixel value.
#[derive(Clone, Copy, PartialEq, Eq, Structural, Debug)]
pub struct Palette {
    pub off: Color,
    pub light: Color,
    pub dark: Color,
    pub on: Color,
}

impl Palette {
    pub open spec fn shade(self, c: Color) -> Color {
        match c {
            Color::Off => self.off,
            Color::Light => self.light,
            Color::Dark => self.dark,
            Color::On => self.on,
        }
    }

    pub open spec fn of_byte(value: u8) -> Palette {
        Palette {
            off: color_of(value),
            light: color_of(value >> 2u8),
            dark: color_of(value >> 4u8),
            on: color_of(value >> 6u8),
        }
    }

    pub fn new() -> (r: Palette)
        ensures
            r == (Palette { off: Color::On, light: Color::On, dark: Color::On, on: Color::On }),
    {
        Palette { off: Color::On, light: Color::On, dark: Color::On, on: Color::On }
    }

    pub fn get(&self, color: &Color) -> (r: Color)
        ensures
            r == self.shade(*color),
    {
        match *color {
            Color::Off => self.off,
            Color::Light => self.light,
            Color::Dark => self.dark,
            Color::On => self.on,
        }
    }

    pub fn set(&mut self, value: u8)
        ensures
            *final(self) == Palette::of_byte(value),
    {
        self.off = Color::from_u8(value);
        self.light = Color::from_u8(value >> 2u8);
        self.dark = Color::from_u8(value >> 4u8);
        self.on = Color::from_u8(value >> 6u8);
    }
}

/// A sprite record, its attribute byte decoded.
#[derive(Clone, Copy, PartialEq, Eq, Structural, Debug)]
pub struct Sprite {
    pub y: u8,
    pub x: u8,
    pub tile: u8,
    /// Drawn behind non-zero background pixels.
    pub bg_prio: bool,
    pub y_flip: bool,
    pub x_flip: bool,
    /// Uses the second sprite palette.
    pub palette: bool,
}

/// Byte `k` (0 to 3) of a sprite record as the bus sees it.
pub open spec fn sprite_byte(s: Sprite, k: int) -> u8 {
    if k == 0 {
        s.y
    } else if k == 1 {
        s.x
    } else if k == 2 {
        s.tile
    } else {
        (if s.bg_prio { 0x80u8 } else { 0u8 }) | (if s.y_flip { 0x40u8 } else { 0u8 }) | (if s.x_flip {
            0x20u8
        } else {
            0u8
        }) | (if s.palette { 0x10u8 } else { 0u8 })
    }
}

/// A sprite record after a bus write of byte `k`.
pub open spec fn with_sprite_byte(s: Sprite, k: int, v: u8) -> Sprite {
    if k == 0 {
        Sprite { y: v, ..s }
    } else if k == 1 {
        Sprite { x: v, ..s }
    } else if k == 2 {
        Sprite { tile: v, ..s }
    } else {
        Sprite {
            bg_prio: v & 0x80 != 0,
            y_flip: v & 0x40 != 0,
            x_flip: v & 0x20 != 0,
            palette: v & 0x10 != 0,
            ..s
        }
    }
}

/// What reads back from sprite-record byte `k` after `v` is written there: the attribute
/// byte keeps only its four upper bits.
pub open spec fn stored_byte(k: int, v: u8) -> u8 {
    if k % 4 == 3 { v & 0xF0 } else { v }
}

/// Sprite records after byte `addr` is written with `v`.
pub open spec fn oam_written(oam: Seq<Sprite>, addr: int, v: u8) -> Seq<Sprite> {
    oam.update(addr / 4, with_sprite_byte(oam[addr / 4], addr % 4, v))
}

impl Sprite {
    pub fn new() -> (r: Sprite)
        ensures
            r == (Sprite { y: 0, x: 0, tile: 0, bg_prio: false, y_flip: false, x_flip: false, palette: false }),
    {
        Sprite { y: 0, x: 0, tile: 0, bg_prio: false, y_flip: false, x_flip: false, palette: false }
    }
}

/// The pixel unit: video RAM, sprite records, frame buffer and the scanline state machine.
#[derive(Debug)]
pub struct Ppu {
    /// Tile data at 0x0000..0x1800, tile maps at 0x1800 and 0x1C00.
    pub vram: Vec<u8>,
    pub oam: Vec<Sprite>,
    pub fb: Vec<Color>,
    pub mode: Mode,
    pub modeclock: usize,
    /// LY, the current scanline, 0 to 153.
    pub line: u8,
    pub lyc: u8,
    // LCD control, bits 0 to 7.
    pub bg_display: bool,
    pub obj_display: bool,
    pub obj_size_16: bool,
    pub bg_tilemap_hi: bool,
    pub tile_data_unsigned: bool,
    pub win_display: bool,
    pub win_tilemap_hi: bool,
    pub lcd_enable: bool,
    // LCD status interrupt enables, bits 3 to 6.
    pub mode0hblank_int: bool,
    pub mode1vblank_int: bool,
    pub mode2oam_int: bool,
    pub coincidence_int: bool,
    /// The level of the status interrupt condition after the last step; a request is
    /// raised only when it rises.
    pub stat_line: bool,
    pub scy: u8,
    pub scx: u8,
    pub wy: u8,
    pub wx: u8,
    pub bgp: Palette,
    pub obp0: Palette,
    pub obp1: Palette,
}

/// Interrupt-request bits the pixel unit raises.
pub const VBLANK_REQUEST: u8 = 0x01;
pub const STAT_REQUEST: u8 = 0x02;

pub open spec fn mode_bits(m: Mode) -> u8 {
    match m {
        Mode::Hblank => 0,
        Mode::Vblank => 1,
        Mode::Oam => 2,
        Mode::Vram => 3,
    }
}

impl Ppu {
    pub open spec fn wf(self) -> bool {
        &&& self.vram@.len() == VRAM_SIZE
        &&& self.oam@.len() == OAM_SPRITES
        &&& self.fb@.len() == SCREEN_AREA
        &&& self.line <= 153
        &&& (self.mode == Mode::Vblank <==> self.line >= 144)
        &&& self.modeclock < 456
    }

    /// Everything but the scanline state (mode, clock, line, frame buffer and status level)
    /// is the same in `self` and `o`.
    pub open spec fn same_setup(self, o: Ppu) -> bool {
        &&& self.vram == o.vram
        &&& self.oam == o.oam
        &&& self.lyc == o.lyc
        &&& self.bg_display == o.bg_display
        &&& self.obj_display == o.obj_display
        &&& self.obj_size_16 == o.obj_size_16
        &&& self.bg_tilemap_hi == o.bg_tilemap_hi
        &&& self.tile_data_unsigned == o.tile_data_unsigned
        &&& self.win_display == o.win_display
        &&& self.win_tilemap_hi == o.win_tilemap_hi
        &&& self.lcd_enable == o.lcd_enable
        &&& self.mode0hblank_int == o.mode0hblank_int
        &&& self.mode1vblank_int == o.mode1vblank_int
        &&& self.mode2oam_int == o.mode2oam_int
        &&& self.coincidence_int == o.coincidence_int
        &&& self.scy == o.scy
        &&& self.scx == o.scx
        &&& self.wy == o.wy
        &&& self.wx == o.wx
        &&& self.bgp == o.bgp
        &&& self.obp0 == o.obp0
        &&& self.obp1 == o.obp1
    }

    /// Everything but the sprite records is the same in `self` and `o`.
    pub open spec fn same_setup_but_oam(self, o: Ppu) -> bool {
        self == (Ppu { oam: self.oam, ..o })
    }

    pub open spec fn after_lcd_ctrl(self, value: u8) -> Ppu {
        Ppu {
            bg_display: value & 0x01 != 0,
            obj_display: value & 0x02 != 0,
            obj_size_16: value & 0x04 != 0,
            bg_tilemap_hi: value & 0x08 != 0,
            tile_data_unsigned: value & 0x10 != 0,
            win_display: value & 0x20 != 0,
            win_tilemap_hi: value & 0x40 != 0,
            lcd_enable: value & 0x80 != 0,
            ..self
        }
    }

    /// New interrupt enables; the status level is taken again under them, so that the next
    /// rise is measured against the enables now in force.
    pub open spec fn after_lcd_stat(self, value: u8) -> Ppu {
        let p = Ppu {
            coincidence_int: value & 0x40 != 0,
            mode2oam_int: value & 0x20 != 0,
            mode1vblank_int: value & 0x10 != 0,
            mode0hblank_int: value & 0x08 != 0,
            ..self
        };
        Ppu { stat_line: p.stat_condition(), ..p }
    }

    /// A new LY-compare value; the status level is taken again.
    pub open spec fn after_lyc(self, value: u8) -> Ppu {
        let p = Ppu { lyc: value, ..self };
        Ppu { stat_line: p.stat_condition(), ..p }
    }

    /// What a step of at most 80 cycles does, from `self` to `post`, with `r` the requests
    /// raised.
    pub open spec fn stepped(self, cycles: int, post: Ppu, r: u8) -> bool {
        if !self.lcd_enable {
            post == self && r == 0
        } else {
            let t = self.timing_after(cycles);
            let vblank = self.mode == Mode::Hblank && t.0 == Mode::Vblank;
            &&& post.mode == t.0
            &&& post.modeclock == t.1
            &&& post.line == t.2
            &&& post.fb@ == (if self.draws_after(cycles) { self.row_drawn() } else { self.fb@ })
            &&& post.stat_line == post.stat_condition()
            &&& r == (if vblank { VBLANK_REQUEST } else { 0u8 }) | (if !self.stat_line && post.stat_line { STAT_REQUEST } else { 0u8 })
            &&& post.same_setup(self)
        }
    }

    /// The status condition: a mode whose interrupt is enabled, or LY = LYC with the
    /// coincidence interrupt enabled.
    pub open spec fn stat_condition(self) -> bool {
        self.lcd_enable && ((self.mode0hblank_int && self.mode == Mode::Hblank) || (
        self.mode1vblank_int && self.mode == Mode::Vblank) || (self.mode2oam_int && self.mode
            == Mode::Oam) || (self.coincidence_int && self.line == self.lyc))
    }

    /// Mode, clock and line after `cycles` more cycles: at most one phase ends per step.
    pub open spec fn timing_after(self, cycles: int) -> (Mode, int, int) {
        let c = self.modeclock + cycles;
        match self.mode {
            Mode::Oam => if c >= 80 { (Mode::Vram, c - 80, self.line as int) } else { (Mode::Oam, c, self.line as int) },
            Mode::Vram => if c >= 172 { (Mode::Hblank, c - 172, self.line as int) } else { (Mode::Vram, c, self.line as int) },
            Mode::Hblank => if c >= 204 {
                if self.line + 1 == 144 {
                    (Mode::Vblank, c - 204, 144)
                } else {
                    (Mode::Oam, c - 204, self.line + 1)
                }
            } else {
                (Mode::Hblank, c, self.line as int)
            },
            Mode::Vblank => if c >= 456 {
                if self.line + 1 >= 154 {
                    (Mode::Oam, c - 456, 0)
                } else {
                    (Mode::Vblank, c - 456, self.line + 1)
                }
            } else {
                (Mode::Vblank, c, self.line as int)
            },
        }
    }

    /// Whether this step ends pixel transfer, when the line is drawn.
    pub open spec fn draws_after(self, cycles: int) -> bool {
        self.mode == Mode::Vram && self.modeclock + cycles >= 172
    }

    /// The sprite-record byte at `addr`, 0 to 159.
    pub open spec fn oam_byte(self, addr: int) -> u8 {
        sprite_byte(self.oam@[addr / 4], addr % 4)
    }

    pub open spec fn vram_byte(self, addr: int) -> u8 {
        if self.mode == Mode::Vram { 0xFF } else { self.vram@[addr] }
    }

    pub open spec fn oam_read(self, addr: int) -> u8 {
        if self.mode == Mode::Vram || self.mode == Mode::Oam { 0xFF } else { self.oam_byte(addr) }
    }

    pub open spec fn lcd_ctrl(self) -> u8 {
        (if self.bg_display { 0x01u8 } else { 0u8 }) | (if self.obj_display { 0x02u8 } else { 0u8 })
            | (if self.obj_size_16 { 0x04u8 } else { 0u8 }) | (if self.bg_tilemap_hi { 0x08u8 } else { 0u8 })
            | (if self.tile_data_unsigned { 0x10u8 } else { 0u8 }) | (if self.win_display { 0x20u8 } else { 0u8 })
            | (if self.win_tilemap_hi { 0x40u8 } else { 0u8 }) | (if self.lcd_enable { 0x80u8 } else { 0u8 })
    }

    pub open spec fn lcd_stat(self) -> u8 {
        (if self.coincidence_int { 0x40u8 } else { 0u8 }) | (if self.mode2oam_int { 0x20u8 } else { 0u8 })
            | (if self.mode1vblank_int { 0x10u8 } else { 0u8 }) | (if self.mode0hblank_int { 0x08u8 } else { 0u8 })
            | (if self.line == self.lyc { 0x04u8 } else { 0u8 }) | mode_bits(self.mode)
    }


    /// Pixel value (0 to 3) of row `row`, bit `bit` of tile `tile` (0 to 383).
    pub open spec fn tile_pixel(self, tile: int, row: int, bit: u8) -> u8 {
        let lo = self.vram@[tile * 16 + row * 2];
        let hi = self.vram@[tile * 16 + row * 2 + 1];
        (((hi >> bit) % 2) * 2 + ((lo >> bit) % 2)) as u8
    }

    /// The tile a background or window map entry names: unsigned from 0x8000, or signed
    /// around 0x9000 (tiles 256 to 383 for entries below 128).
    pub open spec fn bg_tile(self, raw: u8) -> int {
        if self.tile_data_unsigned || raw >= 128 { raw as int } else { raw as int + 256 }
    }

    /// Background pixel value at column `px` of the current line.
    pub open spec fn bg_raw(self, px: int) -> u8 {
        let y = (self.line as int + self.scy as int) % 256;
        let x = (px + self.scx as int) % 256;
        let base: int = if self.bg_tilemap_hi { 0x1C00 } else { 0x1800 };
        let t = self.bg_tile(self.vram@[base + (y / 8) * 32 + x / 8]);
        self.tile_pixel(t, y % 8, (7 - x % 8) as u8)
    }

    pub open spec fn win_covers(self, px: int) -> bool {
        self.win_display && self.wy <= self.line && px + 7 >= self.wx as int
    }

    /// Window pixel value at column `px` of the current line.
    pub open spec fn win_raw(self, px: int) -> u8 {
        let y = self.line as int - self.wy as int;
        let x = px + 7 - self.wx as int;
        let base: int = if self.win_tilemap_hi { 0x1C00 } else { 0x1800 };
        let t = self.bg_tile(self.vram@[base + (y / 8) * 32 + x / 8]);
        self.tile_pixel(t, y % 8, (7 - x % 8) as u8)
    }

    /// The background-or-window pixel value under column `px`, if either layer is shown.
    pub open spec fn under(self, px: int) -> Option<u8> {
        if self.win_covers(px) {
            Some(self.win_raw(px))
        } else if self.bg_display {
            Some(self.bg_raw(px))
        } else {
            None
        }
    }

    pub open spec fn opaque(self, px: int) -> bool {
        match self.under(px) {
            Some(c) => c != 0,
            None => false,
        }
    }

    pub open spec fn sprite_height(self) -> int {
        if self.obj_size_16 { 16 } else { 8 }
    }

    /// Row of sprite `s` that the current line crosses, counted from its top edge.
    pub open spec fn sprite_row(self, s: Sprite) -> int {
        (self.line as int + 16 - s.y as int + 256) % 256
    }

    pub open spec fn on_line(self, s: Sprite) -> bool {
        self.sprite_row(s) < self.sprite_height()
    }

    /// The first ten records, in table order, whose vertical span covers the line, among
    /// the first `n`.
    pub open spec fn select(self, n: nat) -> Seq<usize>
        decreases n,
    {
        if n == 0 {
            Seq::empty()
        } else {
            let prev = self.select((n - 1) as nat);
            if prev.len() < 10 && self.on_line(self.oam@[n - 1]) {
                prev.push((n - 1) as usize)
            } else {
                prev
            }
        }
    }

    /// Pixel value of sprite `s` at column `px`, if its 8 columns cover it.
    pub open spec fn sprite_raw(self, s: Sprite, px: int) -> Option<u8> {
        let col = (px + 8 - s.x as int + 256) % 256;
        if col >= 8 {
            None
        } else {
            let r0 = self.sprite_row(s);
            let row = if s.y_flip { self.sprite_height() - 1 - r0 } else { r0 };
            let tile = if self.obj_size_16 { (s.tile & 0xFE) as int + row / 8 } else { s.tile as int };
            let bit = if s.x_flip { col } else { 7 - col };
            Some(self.tile_pixel(tile, row % 8, bit as u8))
        }
    }

    /// A sprite shows at `px` when its pixel there is not transparent and it is not kept
    /// behind a non-zero background pixel.
    pub open spec fn eligible(self, s: Sprite, px: int) -> bool {
        match self.sprite_raw(s, px) {
            Some(v) => v != 0 && (!s.bg_prio || !self.opaque(px)),
            None => false,
        }
    }

    /// The sprite drawn at `px` among `sel`: the eligible one with the least X, and of equal
    /// X the one listed first (the lower table index).
    pub open spec fn winner(self, sel: Seq<usize>, px: int) -> Option<usize>
        decreases sel.len(),
    {
        if sel.len() == 0 {
            None
        } else {
            let w = self.winner(sel.drop_last(), px);
            let i = sel.last();
            if self.eligible(self.oam@[i as int], px) && (w is None || self.oam@[i as int].x
                < self.oam@[w->0 as int].x) {
                Some(i)
            } else {
                w
            }
        }
    }

    pub open spec fn sprite_palette(self, s: Sprite) -> Palette {
        if s.palette { self.obp1 } else { self.obp0 }
    }

    /// The shade of column `px` of the current line.
    pub open spec fn pixel(self, px: int) -> Color {
        let base = match self.under(px) {
            Some(c) => self.bgp.shade(color_of(c)),
            None => Color::Off,
        };
        if !self.obj_display {
            base
        } else {
            match self.winner(self.select(OAM_SPRITES as nat), px) {
                Some(i) => self.sprite_palette(self.oam@[i as int]).shade(
                    color_of(self.sprite_raw(self.oam@[i as int], px)->0),
                ),
                None => base,
            }
        }
    }

    /// The frame buffer with the current line drawn.
    #[verifier::opaque]
    pub open spec fn row_drawn(self) -> Seq<Color> {
        Seq::new(
            SCREEN_AREA as nat,
            |i: int|
                if self.line as int * 160 <= i < self.line as int * 160 + 160 {
                    self.pixel(i - self.line as int * 160)
                } else {
                    self.fb@[i]
                },
        )
    }

    pub fn new() -> (r: Ppu)
        ensures
            r.wf(),
            r.mode == Mode::Oam,
            r.modeclock == 0,
            r.line == 0,
            r.lcd_enable,
            !r.stat_line,
            r.vram@ == Seq::new(VRAM_SIZE as nat, |i: int| 0u8),
            r.oam@ == Seq::new(OAM_SPRITES as nat, |i: int| Sprite { y: 0, x: 0, tile: 0, bg_prio: false, y_flip: false, x_flip: false, palette: false }),
    {
        let vram: Vec<u8> = vec![0u8; VRAM_SIZE];
        let oam: Vec<Sprite> = vec![Sprite::new(); OAM_SPRITES];
        let fb: Vec<Color> = vec![Color::Off; SCREEN_AREA];
        let r = Ppu {
            vram,
            oam,
            fb,
            mode: Mode::Oam,
            modeclock: 0,
            line: 0,
            lyc: 0,
            bg_display: true,
            obj_display: true,
            obj_size_16: false,
            bg_tilemap_hi: false,
            tile_data_unsigned: true,
            win_display: false,
            win_tilemap_hi: false,
            lcd_enable: true,
            mode0hblank_int: false,
            mode1vblank_int: false,
            mode2oam_int: false,
            coincidence_int: false,
            stat_line: false,
            scy: 0,
            scx: 0,
            wy: 0,
            wx: 0,
            bgp: Palette::new(),
            obp0: Palette::new(),
            obp1: Palette::new(),
        };
        assert(r.vram@ =~= Seq::new(VRAM_SIZE as nat, |i: int| 0u8));
        assert(r.oam@ =~= Seq::new(OAM_SPRITES as nat, |i: int| Sprite { y: 0, x: 0, tile: 0, bg_prio: false, y_flip: false, x_flip: false, palette: false }));
        r
    }

    pub fn framebuffer(&self) -> (r: &[Color])
        ensures
            r@ == self.fb@,
    {
        self.fb.as_slice()
    }


    fn tile_pixel_at(&self, tile: usize, row: usize, bit: u8) -> (r: u8)
        requires
            self.wf(),
            tile < 384,
            row < 8,
            bit < 8,
        ensures
            r == self.tile_pixel(tile as int, row as int, bit),
    {
        let lo = self.vram[tile * 16 + row * 2];
        let hi = self.vram[tile * 16 + row * 2 + 1];
        (((hi >> bit) % 2) * 2 + ((lo >> bit) % 2)) as u8
    }

    fn map_tile(&self, raw: u8) -> (r: usize)
        ensures
            r as int == self.bg_tile(raw),
            r < 384,
    {
        if self.tile_data_unsigned || raw >= 128 {
            raw as usize
        } else {
            raw as usize + 256
        }
    }

    fn under_at(&self, px: usize) -> (r: Option<u8>)
        requires
            self.wf(),
            px < SCREEN_WIDTH,
        ensures
            r == self.under(px as int),
    {
        if self.win_display && self.wy <= self.line && px + 7 >= self.wx as usize {
            let y = (self.line - self.wy) as usize;
            let x = px + 7 - self.wx as usize;
            let base: usize = if self.win_tilemap_hi { 0x1C00 } else { 0x1800 };
            let t = self.map_tile(self.vram[base + (y / 8) * 32 + x / 8]);
            Some(self.tile_pixel_at(t, y % 8, (7 - x % 8) as u8))
        } else if self.bg_display {
            let y = (self.line as usize + self.scy as usize) % 256;
            let x = (px + self.scx as usize) % 256;
            let base: usize = if self.bg_tilemap_hi { 0x1C00 } else { 0x1800 };
            let t = self.map_tile(self.vram[base + (y / 8) * 32 + x / 8]);
            Some(self.tile_pixel_at(t, y % 8, (7 - x % 8) as u8))
        } else {
            None
        }
    }

    fn sprite_raw_at(&self, s: Sprite, px: usize) -> (r: Option<u8>)
        requires
            self.wf(),
            px < SCREEN_WIDTH,
            self.on_line(s),
        ensures
            r == self.sprite_raw(s, px as int),
    {
        let col = (px + 8 + 256 - s.x as usize) % 256;
        if col >= 8 {
            return None;
        }
        let height: usize = if self.obj_size_16 { 16 } else { 8 };
        let r0 = (self.line as usize + 16 + 256 - s.y as usize) % 256;
        let row = if s.y_flip { height - 1 - r0 } else { r0 };
        let tile: usize = if self.obj_size_16 { (s.tile & 0xFE) as usize + row / 8 } else { s.tile as usize };
        let bit = if s.x_flip { col } else { 7 - col };
        Some(self.tile_pixel_at(tile, row % 8, bit as u8))
    }

    /// The records of the sprites on the current line, at most ten, in table order.
    fn select_sprites(&self) -> (r: Vec<usize>)
        requires
            self.wf(),
        ensures
            r@ == self.select(OAM_SPRITES as nat),
            forall|j: int| 0 <= j < r@.len() ==> #[trigger] r@[j] < OAM_SPRITES && self.on_line(self.oam@[r@[j] as int]),
    {
        let height: usize = if self.obj_size_16 { 16 } else { 8 };
        let mut sel: Vec<usize> = Vec::new();
        let mut i: usize = 0;
        while i < OAM_SPRITES
            invariant
                self.wf(),
                i <= OAM_SPRITES,
                height == self.sprite_height(),
                sel@ == self.select(i as nat),
                forall|j: int| 0 <= j < sel@.len() ==> #[trigger] sel@[j] < i && self.on_line(self.oam@[sel@[j] as int]),
            decreases OAM_SPRITES - i,
        {
            let s = self.oam[i];
            let row = (self.line as usize + 16 + 256 - s.y as usize) % 256;
            if sel.len() < 10 && row < height {
                sel.push(i);
            }
            i = i + 1;
        }
        sel
    }

    fn pixel_at(&self, sel: &Vec<usize>, px: usize) -> (r: Color)
        requires
            self.wf(),
            px < SCREEN_WIDTH,
            sel@ == self.select(OAM_SPRITES as nat),
            forall|j: int| 0 <= j < sel@.len() ==> #[trigger] sel@[j] < OAM_SPRITES && self.on_line(self.oam@[sel@[j] as int]),
        ensures
            r == self.pixel(px as int),
    {
        let under = self.under_at(px);
        let base = match under {
            Some(c) => self.bgp.get(&Color::from_u8(c)),
            None => Color::Off,
        };
        if !self.obj_display {
            return base;
        }
        let opaque = match under {
            Some(c) => c != 0,
            None => false,
        };
        let mut best: Option<usize> = None;
        let mut k: usize = 0;
        while k < sel.len()
            invariant
                self.wf(),
                px < SCREEN_WIDTH,
                k <= sel@.len(),
                opaque == self.opaque(px as int),
                forall|j: int| 0 <= j < sel@.len() ==> #[trigger] sel@[j] < OAM_SPRITES && self.on_line(self.oam@[sel@[j] as int]),
                best == self.winner(sel@.take(k as int), px as int),
                best matches Some(b) ==> b < OAM_SPRITES && self.on_line(self.oam@[b as int]) && self.eligible(self.oam@[b as int], px as int),
            decreases sel@.len() - k,
        {
            let i = sel[k];
            let s = self.oam[i];
            let shows = match self.sprite_raw_at(s, px) {
                Some(v) => v != 0 && (!s.bg_prio || !opaque),
                None => false,
            };
            if shows {
                match best {
                    None => best = Some(i),
                    Some(b) => if s.x < self.oam[b].x {
                        best = Some(i);
                    },
                }
            }
            proof {
                assert(sel@.take(k as int + 1).drop_last() =~= sel@.take(k as int));
            }
            k = k + 1;
        }
        proof {
            assert(sel@.take(sel@.len() as int) =~= sel@);
        }
        match best {
            Some(i) => {
                let s = self.oam[i];
                let v = match self.sprite_raw_at(s, px) {
                    Some(v) => v,
                    None => 0,
                };
                let pal = if s.palette { self.obp1 } else { self.obp0 };
                pal.get(&Color::from_u8(v))
            },
            None => base,
        }
    }

    /// Renders the current line into the frame buffer.
    fn draw_line(&mut self)
        requires
            old(self).wf(),
            old(self).line < 144,
        ensures
            final(self).wf(),
            final(self).fb@ == old(self).row_drawn(),
            *final(self) == (Ppu { fb: final(self).fb, ..*old(self) }),
    {
        let sel = self.select_sprites();
        let mut row: Vec<Color> = Vec::new();
        let mut px: usize = 0;
        while px < SCREEN_WIDTH
            invariant
                self.wf(),
                px <= SCREEN_WIDTH,
                *self == *old(self),
                sel@ == self.select(OAM_SPRITES as nat),
                forall|j: int| 0 <= j < sel@.len() ==> #[trigger] sel@[j] < OAM_SPRITES && self.on_line(self.oam@[sel@[j] as int]),
                row@.len() == px,
                forall|k: int| 0 <= k < px ==> row@[k] == #[trigger] self.pixel(k),
            decreases SCREEN_WIDTH - px,
        {
            let c = self.pixel_at(&sel, px);
            row.push(c);
            px = px + 1;
        }
        let start = (self.line as usize) * SCREEN_WIDTH;
        let mut k: usize = 0;
        while k < SCREEN_WIDTH
            invariant
                k <= SCREEN_WIDTH,
                start == old(self).line as int * 160,
                old(self).line < 144,
                row@.len() == SCREEN_WIDTH,
                forall|j: int| 0 <= j < SCREEN_WIDTH ==> row@[j] == #[trigger] old(self).pixel(j),
                self.fb@.len() == SCREEN_AREA,
                *self == (Ppu { fb: self.fb, ..*old(self) }),
                forall|i: int| 0 <= i < SCREEN_AREA ==> #[trigger] self.fb@[i] == (if start <= i < start + k { old(self).pixel(i - start) } else { old(self).fb@[i] }),
            decreases SCREEN_WIDTH - k,
        {
            self.fb.set(start + k, row[k]);
            k = k + 1;
        }
        proof {
            reveal(Ppu::row_drawn);
        }
        assert(self.fb@ =~= old(self).row_drawn());
    }


    fn set_timing(&mut self, mode: Mode, clock: usize, line: u8)
        requires
            old(self).wf(),
            clock < 456,
            mode == Mode::Vblank <==> line >= 144,
            line <= 153,
        ensures
            final(self).wf(),
            final(self).mode == mode,
            final(self).modeclock == clock,
            final(self).line == line,
            final(self).fb == old(self).fb,
            final(self).stat_line == old(self).stat_line,
            final(self).same_setup(*old(self)),
    {
        self.mode = mode;
        self.modeclock = clock;
        self.line = line;
    }

    /// Moves the mode, clock and line on by `cycles`, drawing the line when pixel transfer
    /// ends; returns whether v-blank was entered.
    fn advance(&mut self, cycles: usize) -> (r: bool)
        requires
            old(self).wf(),
            cycles <= 80,
        ensures
            final(self).wf(),
            ({
                let t = old(self).timing_after(cycles as int);
                &&& final(self).mode == t.0
                &&& final(self).modeclock == t.1
                &&& final(self).line == t.2
                &&& r == (old(self).mode == Mode::Hblank && t.0 == Mode::Vblank)
            }),
            final(self).fb@ == (if old(self).draws_after(cycles as int) { old(self).row_drawn() } else { old(self).fb@ }),
            final(self).stat_line == old(self).stat_line,
            final(self).same_setup(*old(self)),
    {
        let c = self.modeclock + cycles;
        let line = self.line;
        match self.mode {
            Mode::Oam => {
                if c >= 80 {
                    self.set_timing(Mode::Vram, c - 80, line);
                } else {
                    self.set_timing(Mode::Oam, c, line);
                }
                false
            },
            Mode::Vram => {
                if c >= 172 {
                    self.draw_line();
                    self.set_timing(Mode::Hblank, c - 172, line);
                } else {
                    self.set_timing(Mode::Vram, c, line);
                }
                false
            },
            Mode::Hblank => {
                if c >= 204 {
                    if line + 1 == 144 {
                        self.set_timing(Mode::Vblank, c - 204, 144);
                        true
                    } else {
                        self.set_timing(Mode::Oam, c - 204, line + 1);
                        false
                    }
                } else {
                    self.set_timing(Mode::Hblank, c, line);
                    false
                }
            },
            Mode::Vblank => {
                if c >= 456 {
                    if line >= 153 {
                        self.set_timing(Mode::Oam, c - 456, 0);
                    } else {
                        self.set_timing(Mode::Vblank, c - 456, line + 1);
                    }
                } else {
                    self.set_timing(Mode::Vblank, c, line);
                }
                false
            },
        }
    }

    /// Advances the scanline state machine by `cycles` clock cycles, at most 80 (the
    /// shortest phase), so that at most one phase ends per call; draws the line when pixel
    /// transfer ends. Returns the interrupt requests raised: v-blank entry, and a rise of the
    /// status condition.
    pub fn step(&mut self, cycles: usize) -> (r: u8)
        requires
            old(self).wf(),
            cycles <= 80,
        ensures
            final(self).wf(),
            old(self).stepped(cycles as int, *final(self), r),
    {
        if !self.lcd_enable {
            return 0;
        }
        let vblank = self.advance(cycles);
        let now = self.lcd_enable && ((self.mode0hblank_int && self.mode == Mode::Hblank) || (
        self.mode1vblank_int && self.mode == Mode::Vblank) || (self.mode2oam_int && self.mode
            == Mode::Oam) || (self.coincidence_int && self.line == self.lyc));
        let rising = !self.stat_line && now;
        self.stat_line = now;
        (if vblank { VBLANK_REQUEST } else { 0u8 }) | (if rising { STAT_REQUEST } else { 0u8 })
    }

    /// A bus read of video RAM: open bus during pixel transfer.
    pub fn read_vram(&self, addr: usize) -> (r: u8)
        requires
            self.wf(),
            addr < VRAM_SIZE,
        ensures
            r == self.vram_byte(addr as int),
    {
        if self.mode == Mode::Vram {
            0xFF
        } else {
            self.vram[addr]
        }
    }

    /// A bus write of video RAM: ignored during pixel transfer.
    pub fn write_vram(&mut self, addr: usize, value: u8)
        requires
            old(self).wf(),
            addr < VRAM_SIZE,
        ensures
            final(self).wf(),
            final(self).vram@ == (if old(self).mode == Mode::Vram { old(self).vram@ } else { old(self).vram@.update(addr as int, value) }),
            *final(self) == (Ppu { vram: final(self).vram, ..*old(self) }),
    {
        if self.mode != Mode::Vram {
            self.vram.set(addr, value);
        }
    }

    /// A bus read of sprite memory: open bus during sprite search and pixel transfer.
    pub fn read_oam(&self, addr: usize) -> (r: u8)
        requires
            self.wf(),
            addr < OAM_SIZE,
        ensures
            r == self.oam_read(addr as int),
    {
        if self.mode == Mode::Vram || self.mode == Mode::Oam {
            return 0xFF;
        }
        let s = self.oam[addr / 4];
        match addr % 4 {
            0 => s.y,
            1 => s.x,
            2 => s.tile,
            _ => (if s.bg_prio { 0x80u8 } else { 0u8 }) | (if s.y_flip { 0x40u8 } else { 0u8 }) | (
            if s.x_flip {
                0x20u8
            } else {
                0u8
            }) | (if s.palette { 0x10u8 } else { 0u8 }),
        }
    }

    /// Two sprite-memory bytes, little-endian.
    pub fn read_oam16(&self, addr: usize) -> (r: u16)
        requires
            self.wf(),
            addr + 1 < OAM_SIZE,
        ensures
            r == (self.oam_read(addr as int) as u16) + (self.oam_read(addr as int + 1) as u16) * 256,
    {
        let lo = self.read_oam(addr);
        let hi = self.read_oam(addr + 1);
        (lo as u16) + (hi as u16) * 256
    }

    /// Stores a sprite-record byte whatever the mode: the path block transfer uses.
    pub fn store_oam(&mut self, addr: usize, value: u8)
        requires
            old(self).wf(),
            addr < OAM_SIZE,
        ensures
            final(self).wf(),
            final(self).oam@ == old(self).oam@.update(addr as int / 4, with_sprite_byte(old(self).oam@[addr as int / 4], addr as int % 4, value)),
            *final(self) == (Ppu { oam: final(self).oam, ..*old(self) }),
    {
        let i = addr / 4;
        let mut s = self.oam[i];
        match addr % 4 {
            0 => s.y = value,
            1 => s.x = value,
            2 => s.tile = value,
            _ => {
                s.bg_prio = value & 0x80 != 0;
                s.y_flip = value & 0x40 != 0;
                s.x_flip = value & 0x20 != 0;
                s.palette = value & 0x10 != 0;
            },
        }
        self.oam.set(i, s);
    }

    /// A bus write of sprite memory: ignored during sprite search and pixel transfer.
    pub fn write_oam(&mut self, addr: usize, value: u8)
        requires
            old(self).wf(),
            addr < OAM_SIZE,
        ensures
            final(self).wf(),
            final(self).oam@ == (if old(self).mode == Mode::Vram || old(self).mode == Mode::Oam {
                old(self).oam@
            } else {
                old(self).oam@.update(addr as int / 4, with_sprite_byte(old(self).oam@[addr as int / 4], addr as int % 4, value))
            }),
            *final(self) == (Ppu { oam: final(self).oam, ..*old(self) }),
    {
        if self.mode == Mode::Vram || self.mode == Mode::Oam {
            return;
        }
        self.store_oam(addr, value);
    }

    /// Two sprite-memory bytes, little-endian.
    pub fn write_oam16(&mut self, addr: usize, value: u16)
        requires
            old(self).wf(),
            addr + 1 < OAM_SIZE,
        ensures
            final(self).wf(),
            final(self).oam@ == (if old(self).mode == Mode::Vram || old(self).mode == Mode::Oam {
                old(self).oam@
            } else {
                oam_written(oam_written(old(self).oam@, addr as int, (value % 256) as u8), addr + 1, (value / 256) as u8)
            }),
            *final(self) == (Ppu { oam: final(self).oam, ..*old(self) }),
    {
        self.write_oam(addr, (value % 256) as u8);
        self.write_oam(addr + 1, (value / 256) as u8);
    }

    /// Copies 160 bytes of video RAM, from `offset`, into sprite memory, through the bus
    /// accessors.
    pub fn dma_from_vram(&mut self, offset: usize)
        requires
            old(self).wf(),
            offset + OAM_SIZE <= VRAM_SIZE,
        ensures
            final(self).wf(),
            *final(self) == (Ppu { oam: final(self).oam, ..*old(self) }),
            old(self).mode == Mode::Hblank || old(self).mode == Mode::Vblank ==> forall|k: int|
                0 <= k < OAM_SIZE ==> #[trigger] final(self).oam_byte(k) == stored_byte(k, old(self).vram@[offset + k]),
    {
        let mut x: usize = 0;
        while x < OAM_SIZE
            invariant
                x <= OAM_SIZE,
                offset + OAM_SIZE <= VRAM_SIZE,
                self.wf(),
                *self == (Ppu { oam: self.oam, ..*old(self) }),
                old(self).mode == Mode::Hblank || old(self).mode == Mode::Vblank ==> forall|k: int|
                    0 <= k < x ==> #[trigger] self.oam_byte(k) == stored_byte(k, old(self).vram@[offset + k]),
            decreases OAM_SIZE - x,
        {
            let byte = self.read_vram(offset + x);
            let ghost before = *self;
            self.write_oam(x, byte);
            proof {
                if old(self).mode == Mode::Hblank || old(self).mode == Mode::Vblank {
                    assert forall|k: int| 0 <= k < x + 1 implies #[trigger] self.oam_byte(k) == stored_byte(k, old(self).vram@[offset + k]) by {
                        if k < x {
                            assert(before.oam_byte(k) == stored_byte(k, old(self).vram@[offset + k]));
                            lemma_other_byte_kept(before, *self, x as int, byte, k);
                        } else {
                            lemma_written_byte(before, *self, x as int, byte);
                        }
                    }
                }
            }
            x = x + 1;
        }
    }

    pub fn read_lcd_ctrl(&self) -> (r: u8)
        ensures
            r == self.lcd_ctrl(),
    {
        (if self.bg_display { 0x01u8 } else { 0u8 }) | (if self.obj_display { 0x02u8 } else { 0u8 })
            | (if self.obj_size_16 { 0x04u8 } else { 0u8 }) | (if self.bg_tilemap_hi { 0x08u8 } else { 0u8 })
            | (if self.tile_data_unsigned { 0x10u8 } else { 0u8 }) | (if self.win_display { 0x20u8 } else { 0u8 })
            | (if self.win_tilemap_hi { 0x40u8 } else { 0u8 }) | (if self.lcd_enable { 0x80u8 } else { 0u8 })
    }

    pub fn write_lcd_ctrl(&mut self, value: u8)
        ensures
            *final(self) == old(self).after_lcd_ctrl(value),
    {
        self.bg_display = value & 0x01 != 0;
        self.obj_display = value & 0x02 != 0;
        self.obj_size_16 = value & 0x04 != 0;
        self.bg_tilemap_hi = value & 0x08 != 0;
        self.tile_data_unsigned = value & 0x10 != 0;
        self.win_display = value & 0x20 != 0;
        self.win_tilemap_hi = value & 0x40 != 0;
        self.lcd_enable = value & 0x80 != 0;
    }

    pub fn read_lcd_stat(&self) -> (r: u8)
        ensures
            r == self.lcd_stat(),
    {
        let m: u8 = match self.mode {
            Mode::Hblank => 0,
            Mode::Vblank => 1,
            Mode::Oam => 2,
            Mode::Vram => 3,
        };
        (if self.coincidence_int { 0x40u8 } else { 0u8 }) | (if self.mode2oam_int { 0x20u8 } else { 0u8 })
            | (if self.mode1vblank_int { 0x10u8 } else { 0u8 }) | (if self.mode0hblank_int { 0x08u8 } else { 0u8 })
            | (if self.line == self.lyc { 0x04u8 } else { 0u8 }) | m
    }

    /// Only the four interrupt enables can be written.
    #[verifier::rlimit(100)]
    pub fn write_lcd_stat(&mut self, value: u8)
        ensures
            *final(self) == old(self).after_lcd_stat(value),
    {
        self.coincidence_int = value & 0x40 != 0;
        self.mode2oam_int = value & 0x20 != 0;
        self.mode1vblank_int = value & 0x10 != 0;
        self.mode0hblank_int = value & 0x08 != 0;
        let level = self.status_level();
        self.stat_line = level;
    }

    fn status_level(&self) -> (r: bool)
        ensures
            r == self.stat_condition(),
    {
        self.lcd_enable && ((self.mode0hblank_int && self.mode == Mode::Hblank) || (
        self.mode1vblank_int && self.mode == Mode::Vblank) || (self.mode2oam_int && self.mode
            == Mode::Oam) || (self.coincidence_int && self.line == self.lyc))
    }

    pub fn write_lyc(&mut self, value: u8)
        ensures
            *final(self) == old(self).after_lyc(value),
    {
        self.lyc = value;
        self.stat_line = self.status_level();
    }

    pub fn write_bg_palette(&mut self, value: u8)
        ensures
            *final(self) == (Ppu { bgp: Palette::of_byte(value), ..*old(self) }),
    {
        self.bgp.set(value);
    }

    pub fn write_obj0_palette(&mut self, value: u8)
        ensures
            *final(self) == (Ppu { obp0: Palette::of_byte(value), ..*old(self) }),
    {
        self.obp0.set(value);
    }

    pub fn write_obj1_palette(&mut self, value: u8)
        ensures
            *final(self) == (Ppu { obp1: Palette::of_byte(value), ..*old(self) }),
    {
        self.obp1.set(value);
    }
}

/// Sprites are listed in table order, so a sprite listed later has the higher table index.
/// One with the same X as the sprite already winning at `px` never displaces it: on equal X
/// the lower table index is drawn on top.
pub proof fn lemma_tie_keeps_lower_index(p: Ppu, sel: Seq<usize>, px: int, j: usize)
    requires
        p.winner(sel, px) is Some,
        p.oam@[p.winner(sel, px)->0 as int].x == p.oam@[j as int].x,
    ensures
        p.winner(sel.push(j), px) == p.winner(sel, px),
{
    assert(sel.push(j).drop_last() =~= sel);
}

/// Reading back a sprite-record byte gives what was stored there.
pub proof fn lemma_written_byte(before: Ppu, after: Ppu, x: int, v: u8)
    requires
        before.wf(),
        0 <= x < OAM_SIZE,
        after.oam@ == before.oam@.update(x / 4, with_sprite_byte(before.oam@[x / 4], x % 4, v)),
    ensures
        after.oam_byte(x) == stored_byte(x, v),
{
    let s = before.oam@[x / 4];
    if x % 4 == 3 {
        let p = v & 0x80 != 0;
        let yf = v & 0x40 != 0;
        let xf = v & 0x20 != 0;
        let pl = v & 0x10 != 0;
        assert((((if p { 0x80u8 } else { 0u8 }) | (if yf { 0x40u8 } else { 0u8 }) | (if xf { 0x20u8 } else { 0u8 }) | (if pl { 0x10u8 } else { 0u8 })) as u8) == v & 0xF0) by (bit_vector)
            requires p == (v & 0x80 != 0), yf == (v & 0x40 != 0), xf == (v & 0x20 != 0), pl == (v & 0x10 != 0);
    }
}

/// Storing a sprite-record byte leaves the bytes before it as they were.
pub proof fn lemma_other_byte_kept(before: Ppu, after: Ppu, x: int, v: u8, k: int)
    requires
        before.wf(),
        0 <= k < x < OAM_SIZE,
        after.oam@ == before.oam@.update(x / 4, with_sprite_byte(before.oam@[x / 4], x % 4, v)),
    ensures
        after.oam_byte(k) == before.oam_byte(k),
{
}

} // verus!
