//! The pixel processing unit: video memory with its tile cache, the scanline
//! state machine and the renderer.

use vstd::prelude::*;
use eframe::egui::Color32;

verus! {

/// Pixels in a scanline.
pub const SCREEN_WIDTH: usize = 160;

/// Visible scanlines.
pub const SCREEN_HEIGHT: usize = 144;

/// Bytes of one scanline in the framebuffer: four per pixel.
pub const LINE_BYTES: usize = 640;

/// Machine cycles per scanline.
pub const LINE_CYCLES: usize = 114;

/// Scanlines per frame, the ten of the vertical blank included.
pub const FRAME_LINES: u8 = 154;

/// Machine cycle of a scanline at which drawing starts.
pub const DRAW_START: usize = 20;

/// Machine cycle of a scanline at which the horizontal blank starts.
pub const HBLANK_START: usize = 63;

/// The bit that the vertical blank raises in IF.
pub const VBLANK_INTERRUPT: u8 = 0x01;

/// The bit that the LCD status sources raise in IF.
pub const STAT_INTERRUPT: u8 = 0x02;

/// Offset in video memory of tile map 0.
pub const TILE_MAP_0: usize = 0x1800;

/// Offset in video memory of tile map 1.
pub const TILE_MAP_1: usize = 0x1C00;

/// The four modes of the scanline state machine.
#[derive(Debug, Copy, Clone, PartialEq, Eq, Structural)]
pub enum PpuMode {
    OamScan,
    DrawingPixels,
    HBlank,
    VBlank,
}

impl PpuMode {
    /// The mode number as the status register shows it.
    pub open spec fn number(self) -> u8 {
        match self {
            PpuMode::HBlank => 0,
            PpuMode::VBlank => 1,
            PpuMode::OamScan => 2,
            PpuMode::DrawingPixels => 3,
        }
    }

    /// The mode that a visible scanline is in at machine cycle `counter`,
    /// and the vertical blank for the other scanlines.
    pub open spec fn at(line: u8, counter: usize) -> PpuMode {
        if line >= SCREEN_HEIGHT {
            PpuMode::VBlank
        } else if counter < DRAW_START {
            PpuMode::OamScan
        } else if counter < HBLANK_START {
            PpuMode::DrawingPixels
        } else {
            PpuMode::HBlank
        }
    }

    /// The mode that follows within a visible scanline; the vertical blank
    /// is left only by the line counter.
    pub fn next(&self) -> (r: PpuMode)
        ensures
            r == (match *self {
                PpuMode::OamScan => PpuMode::DrawingPixels,
                PpuMode::DrawingPixels => PpuMode::HBlank,
                PpuMode::HBlank => PpuMode::OamScan,
                PpuMode::VBlank => PpuMode::VBlank,
            }),
    {
        match self {
            PpuMode::OamScan => PpuMode::DrawingPixels,
            PpuMode::DrawingPixels => PpuMode::HBlank,
            PpuMode::HBlank => PpuMode::OamScan,
            PpuMode::VBlank => PpuMode::VBlank,
        }
    }

    /// The mode number as the status register shows it.
    pub fn bits(&self) -> (r: u8)
        ensures
            r == self.number(),
    {
        match self {
            PpuMode::HBlank => 0,
            PpuMode::VBlank => 1,
            PpuMode::OamScan => 2,
            PpuMode::DrawingPixels => 3,
        }
    }
}

/// A palette: the shade shown for each of the four colour indices.
#[derive(Debug, Copy, Clone, PartialEq, Eq, Structural)]
pub struct Palette {
    pub id_0: u8,
    pub id_1: u8,
    pub id_2: u8,
    pub id_3: u8,
}

impl Palette {
    /// The palette that a register byte spells: two bits per colour index,
    /// index 0 in the low bits.
    pub open spec fn of(value: u8) -> Palette {
        Palette {
            id_0: value & 0b00000011,
            id_1: (value & 0b00001100) >> 2,
            id_2: (value & 0b00110000) >> 4,
            id_3: (value & 0b11000000) >> 6,
        }
    }

    /// The register byte that spells the palette.
    pub open spec fn byte(self) -> u8 {
        self.id_0 | self.id_1 << 2 | self.id_2 << 4 | self.id_3 << 6
    }

    /// The shade for colour index `index`.
    pub open spec fn shade(self, index: u8) -> u8 {
        if index == 0 {
            self.id_0
        } else if index == 1 {
            self.id_1
        } else if index == 2 {
            self.id_2
        } else {
            self.id_3
        }
    }

    /// The palette that a register byte spells.
    pub fn from_byte(value: u8) -> (r: Palette)
        ensures
            r == Palette::of(value),
    {
        Palette {
            id_0: value & 0b00000011,
            id_1: (value & 0b00001100) >> 2,
            id_2: (value & 0b00110000) >> 4,
            id_3: (value & 0b11000000) >> 6,
        }
    }

    /// The register byte that spells the palette.
    pub fn to_byte(&self) -> (r: u8)
        ensures
            r == self.byte(),
    {
        self.id_0 | self.id_1 << 2 | self.id_2 << 4 | self.id_3 << 6
    }

    /// The shade for colour index `index`.
    pub fn lookup(&self, index: u8) -> (r: u8)
        ensures
            r == self.shade(index),
    {
        if index == 0 {
            self.id_0
        } else if index == 1 {
            self.id_1
        } else if index == 2 {
            self.id_2
        } else {
            self.id_3
        }
    }
}

impl Default for Palette {
    fn default() -> (r: Palette)
        ensures
            r == (Palette { id_0: 0, id_1: 1, id_2: 2, id_3: 3 }),
    {
        Palette { id_0: 0, id_1: 1, id_2: 2, id_3: 3 }
    }
}

/// A register byte spells a palette of four 2-bit shades, and the palette
/// spells the byte back.
pub proof fn lemma_palette_round_trip(value: u8)
    ensures
        Palette::of(value).byte() == value,
        Palette::of(value).id_0 < 4,
        Palette::of(value).id_1 < 4,
        Palette::of(value).id_2 < 4,
        Palette::of(value).id_3 < 4,
{
    assert(((value & 0b00000011) | ((value & 0b00001100) >> 2) << 2 | ((value & 0b00110000) >> 4)
        << 4 | ((value & 0b11000000) >> 6) << 6) == value && (value & 0b00000011) < 4 && ((value
        & 0b00001100) >> 2) < 4 && ((value & 0b00110000) >> 4) < 4 && ((value & 0b11000000) >> 6)
        < 4) by (bit_vector);
}

/// The colour index of the pixel in column `col` (0 is the leftmost) of a
/// tile row whose two bit planes are `lsb` and `msb`: bit `7 - col` of each
/// plane, the one of `msb` counting double.
pub open spec fn plane_pixel(lsb: u8, msb: u8, col: int) -> u8 {
    (((msb >> ((7 - col) as u8)) & 1) << 1) | ((lsb >> ((7 - col) as u8)) & 1)
}

/// The colour index of the pixel in row `row`, column `col` of tile `tile`
/// in the video memory `vram`: a tile takes 16 bytes, two per row.
pub open spec fn tile_color(vram: Seq<u8>, tile: int, row: int, col: int) -> u8 {
    plane_pixel(vram[16 * tile + 2 * row], vram[16 * tile + 2 * row + 1], col)
}

/// The 64 colour indices of a tile, row by row, decoded from its 16 bytes.
pub open spec fn decoded(raw: Seq<u8>) -> Seq<u8> {
    Seq::new(64, |p: int| plane_pixel(raw[2 * (p / 8)], raw[2 * (p / 8) + 1], p % 8))
}

/// A tile of video memory with its decoded pixels.
#[derive(Debug, Copy, Clone)]
pub struct Tile {
    pub raw: [u8; 16],
    pub pixels: [u8; 64],
}

impl Tile {
    /// Whether the pixels are the decoded form of the raw bytes.
    pub open spec fn wf(&self) -> bool {
        self.pixels@ == decoded(self.raw@)
    }

    /// The tile with the given bytes.
    pub fn from_raw(raw: [u8; 16]) -> (r: Tile)
        ensures
            r.raw == raw,
            r.wf(),
    {
        Tile { raw, pixels: Self::convert_to_pixels(raw) }
    }

    /// Replaces byte `index` and decodes the tile again.
    pub fn set_byte(&mut self, index: usize, value: u8)
        requires
            index < 16,
        ensures
            final(self).raw@ == old(self).raw@.update(index as int, value),
            final(self).wf(),
    {
        self.raw[index] = value;
        self.pixels = Self::convert_to_pixels(self.raw);
    }

    /// Decodes the 16 bytes of a tile into its 64 colour indices, row by
    /// row, the leftmost pixel of each row first.
    pub fn convert_to_pixels(raw: [u8; 16]) -> (r: [u8; 64])
        ensures
            r@ == decoded(raw@),
            forall|p: int| 0 <= p < 64 ==> #[trigger] r[p] < 4,
    {
        let mut data: [u8; 64] = [0;64];
        let mut row: usize = 0;
        while row < 8
            invariant
                row <= 8,
                forall|p: int|
                    0 <= p < 8 * row ==> #[trigger] data[p] == plane_pixel(
                        raw[2 * (p / 8)],
                        raw[2 * (p / 8) + 1],
                        p % 8,
                    ),
                forall|p: int| 0 <= p < 64 ==> #[trigger] data[p] < 4,
            decreases 8 - row,
        {
            let lsb = raw[2 * row];
            let msb = raw[2 * row + 1];
            let mut col: usize = 0;
            while col < 8
                invariant
                    row < 8,
                    col <= 8,
                    lsb == raw[2 * row as int],
                    msb == raw[2 * row as int + 1],
                    forall|p: int|
                        0 <= p < 8 * row + col ==> #[trigger] data[p] == plane_pixel(
                            raw[2 * (p / 8)],
                            raw[2 * (p / 8) + 1],
                            p % 8,
                        ),
                    forall|p: int| 0 <= p < 64 ==> #[trigger] data[p] < 4,
                decreases 8 - col,
            {
                let shift: u8 = 7 - col as u8;
                let color: u8 = (((msb >> shift) & 1) << 1) | ((lsb >> shift) & 1);
                assert(color < 4) by (bit_vector)
                    requires
                        color == (((msb >> shift) & 1) << 1) | ((lsb >> shift) & 1),
                ;
                data[8 * row + col] = color;
                col += 1;
            }
            row += 1;
        }
        data
    }
}

/// The registers of the unit and the state of its scanline machine.
#[derive(Debug, Copy, Clone, PartialEq, Eq, Structural)]
pub struct PpuRegisters {
    /// Shows the tiles of video memory in place of the picture.
    pub show_vram: bool,
    pub mode: PpuMode,
    /// Machine cycles into the current scanline.
    pub mode_counter: usize,
    /// The scanline LY.
    pub line: u8,
    pub lyc: u8,
    pub bg_win_enable: bool,
    pub obj_enable: bool,
    /// Height of a sprite, 8 or 16.
    pub obj_size: u8,
    pub bg_tile_map: bool,
    pub bg_win_tile_data: bool,
    pub win_enable: bool,
    pub win_tile_map: bool,
    pub lcd_enable: bool,
    pub mode_0_int: bool,
    pub mode_1_int: bool,
    pub mode_2_int: bool,
    pub lyc_int: bool,
    /// SCX.
    pub viewport_x: u8,
    /// SCY.
    pub viewport_y: u8,
    pub bg_palette: Palette,
    pub obj_palette_0: Palette,
    pub obj_palette_1: Palette,
    /// WX, the window's left edge plus 7.
    pub window_x: u8,
    /// WY.
    pub window_y: u8,
    /// The window's latch: set on the first scanline of a frame that equals
    /// WY.
    pub win_y_trigger: bool,
    /// The scanline on which the latch was set: row 0 of the window.
    pub win_y_origin: u8,
    /// Pending interrupt bits, for the bus to collect.
    pub interrupt: u8,
    /// The source page last written to the DMA register.
    pub dma: u8,
    /// Set when a frame is complete, for the host to collect.
    pub frame_ready: bool,
}

/// The state of the unit: its registers, video memory, sprite table and
/// framebuffer. The tile cache is no part of it: it mirrors video memory.
pub struct PpuState {
    pub regs: PpuRegisters,
    pub vram: Seq<u8>,
    pub oam: Seq<u8>,
    pub framebuffer: Seq<u8>,
}

/// 1 for `true`, 0 for `false`.
pub open spec fn bit(b: bool) -> u8 {
    if b {
        1
    } else {
        0
    }
}

/// The interrupt bit `mask` if `raise`, else none.
pub open spec fn raised(raise: bool, mask: u8) -> u8 {
    if raise {
        mask
    } else {
        0
    }
}

/// The grey level shown for a shade: 0 is white, 3 is black.
pub open spec fn grey(shade: u8) -> u8 {
    if shade == 0 {
        255
    } else if shade == 1 {
        192
    } else if shade == 2 {
        96
    } else {
        0
    }
}

impl PpuRegisters {
    /// The byte that the control register LCDC reads as.
    pub open spec fn lcdc(self) -> u8 {
        bit(self.lcd_enable) << 7 | bit(self.win_tile_map) << 6 | bit(self.win_enable) << 5 | bit(
            self.bg_win_tile_data,
        ) << 4 | bit(self.bg_tile_map) << 3 | bit(self.obj_size != 8) << 2 | bit(self.obj_enable)
            << 1 | bit(self.bg_win_enable)
    }

    /// The byte that the status register STAT reads as: bit 7 set, the four
    /// interrupt selects, bit 2 set while LY equals LYC, and the mode.
    pub open spec fn stat(self) -> u8 {
        0x80 | bit(self.lyc_int) << 6 | bit(self.mode_2_int) << 5 | bit(self.mode_1_int) << 4
            | bit(self.mode_0_int) << 3 | bit(self.line == self.lyc) << 2 | self.mode.number()
    }

    /// The registers after `value` is written to LCDC. Switching the display
    /// off puts the scanline machine back at the start of line 0 and drops
    /// the window latch.
    pub open spec fn with_lcdc(self, value: u8) -> PpuRegisters {
        let on = value & 0b10000000 != 0;
        let set = PpuRegisters {
            lcd_enable: on,
            win_tile_map: value & 0b01000000 != 0,
            win_enable: value & 0b00100000 != 0,
            bg_win_tile_data: value & 0b00010000 != 0,
            bg_tile_map: value & 0b00001000 != 0,
            obj_size: if value & 0b00000100 != 0 {
                16
            } else {
                8
            },
            obj_enable: value & 0b00000010 != 0,
            bg_win_enable: value & 0b00000001 != 0,
            ..self
        };
        if self.lcd_enable && !on {
            PpuRegisters {
                line: 0,
                mode: PpuMode::OamScan,
                win_y_trigger: false,
                mode_counter: 0,
                ..set
            }
        } else {
            set
        }
    }

    /// The registers after `value` is written to STAT: only the four
    /// interrupt selects are taken.
    pub open spec fn with_stat(self, value: u8) -> PpuRegisters {
        PpuRegisters {
            lyc_int: value & 0b01000000 != 0,
            mode_2_int: value & 0b00100000 != 0,
            mode_1_int: value & 0b00010000 != 0,
            mode_0_int: value & 0b00001000 != 0,
            ..self
        }
    }

    /// The registers after `value` is written to LYC: the comparison with LY
    /// is made at once.
    pub open spec fn with_lyc(self, value: u8) -> PpuRegisters {
        PpuRegisters {
            lyc: value,
            interrupt: self.interrupt | raised(self.lyc_int && self.line == value, STAT_INTERRUPT),
            ..self
        }
    }

    /// The registers after the scanline machine enters `mode`, the rendering
    /// aside: the interrupts of the mode are raised; drawing on the line
    /// that equals WY sets the window latch; the vertical blank drops it and
    /// marks the frame complete.
    pub open spec fn entered(self, mode: PpuMode) -> PpuRegisters {
        match mode {
            PpuMode::OamScan => PpuRegisters {
                mode,
                interrupt: self.interrupt | raised(self.mode_2_int, STAT_INTERRUPT),
                ..self
            },
            PpuMode::DrawingPixels => if self.win_enable && !self.win_y_trigger && self.line
                == self.window_y {
                PpuRegisters { mode, win_y_trigger: true, win_y_origin: self.line, ..self }
            } else {
                PpuRegisters { mode, ..self }
            },
            PpuMode::HBlank => PpuRegisters {
                mode,
                interrupt: self.interrupt | raised(self.mode_0_int, STAT_INTERRUPT),
                ..self
            },
            PpuMode::VBlank => PpuRegisters {
                mode,
                interrupt: self.interrupt | VBLANK_INTERRUPT | raised(
                    self.mode_1_int,
                    STAT_INTERRUPT,
                ),
                win_y_trigger: false,
                frame_ready: true,
                ..self
            },
        }
    }

    /// The registers after the clock of the scanline machine moved by one
    /// machine cycle, before any change of mode: after 114 cycles the next
    /// scanline starts, line 0 following line 153, and LY is compared with
    /// LYC.
    pub open spec fn clocked(self) -> PpuRegisters {
        if self.mode_counter + 1 >= LINE_CYCLES {
            let line: u8 = if self.line + 1 >= FRAME_LINES {
                0
            } else {
                (self.line + 1) as u8
            };
            PpuRegisters {
                mode_counter: 0,
                line,
                interrupt: self.interrupt | raised(
                    self.lyc_int && line == self.lyc,
                    STAT_INTERRUPT,
                ),
                ..self
            }
        } else {
            PpuRegisters { mode_counter: (self.mode_counter + 1) as usize, ..self }
        }
    }

    /// What the scanline machine needs of the registers: the clock within a
    /// scanline, the line within a frame, and a sprite height of 8 or 16.
    pub open spec fn wf(self) -> bool {
        &&& self.mode_counter < LINE_CYCLES
        &&& self.line < FRAME_LINES
        &&& (self.obj_size == 8 || self.obj_size == 16)
    }

    /// Whether `addr` is one of the twelve registers.
    pub open spec fn maps(addr: u16) -> bool {
        0xFF40 <= addr <= 0xFF4B
    }

    /// The byte that a read of the register at `addr` returns.
    pub open spec fn register(self, addr: u16) -> u8 {
        if addr == 0xFF40 {
            self.lcdc()
        } else if addr == 0xFF41 {
            self.stat()
        } else if addr == 0xFF42 {
            self.viewport_y
        } else if addr == 0xFF43 {
            self.viewport_x
        } else if addr == 0xFF44 {
            self.line
        } else if addr == 0xFF45 {
            self.lyc
        } else if addr == 0xFF46 {
            self.dma
        } else if addr == 0xFF47 {
            self.bg_palette.byte()
        } else if addr == 0xFF48 {
            self.obj_palette_0.byte()
        } else if addr == 0xFF49 {
            self.obj_palette_1.byte()
        } else if addr == 0xFF4A {
            self.window_y
        } else {
            self.window_x
        }
    }

    /// The registers after `value` is written to the register at `addr`.
    /// LY cannot be written, and a write to the DMA register only records
    /// the page: the copy is the bus's to make.
    pub open spec fn written(self, addr: u16, value: u8) -> PpuRegisters {
        if addr == 0xFF40 {
            self.with_lcdc(value)
        } else if addr == 0xFF41 {
            self.with_stat(value)
        } else if addr == 0xFF42 {
            PpuRegisters { viewport_y: value, ..self }
        } else if addr == 0xFF43 {
            PpuRegisters { viewport_x: value, ..self }
        } else if addr == 0xFF44 {
            self
        } else if addr == 0xFF45 {
            self.with_lyc(value)
        } else if addr == 0xFF46 {
            PpuRegisters { dma: value, ..self }
        } else if addr == 0xFF47 {
            PpuRegisters { bg_palette: Palette::of(value), ..self }
        } else if addr == 0xFF48 {
            PpuRegisters { obj_palette_0: Palette::of(value), ..self }
        } else if addr == 0xFF49 {
            PpuRegisters { obj_palette_1: Palette::of(value), ..self }
        } else if addr == 0xFF4A {
            PpuRegisters { window_y: value, ..self }
        } else {
            PpuRegisters { window_x: value, ..self }
        }
    }

    /// Whether writing `value` to the register at `addr` switches the
    /// display off.
    pub open spec fn switches_off(self, addr: u16, value: u8) -> bool {
        addr == 0xFF40 && self.lcd_enable && value & 0b10000000 == 0
    }

    /// 1 for `true`, 0 for `false`.
    fn flag(b: bool) -> (r: u8)
        ensures
            r == bit(b),
    {
        if b {
            1
        } else {
            0
        }
    }

    /// The pending interrupts `pending` with the bits of `mask` added if
    /// `raise`.
    fn with_raised(pending: u8, raise: bool, mask: u8) -> (r: u8)
        ensures
            r == pending | raised(raise, mask),
    {
        if raise {
            pending | mask
        } else {
            assert(pending | 0 == pending) by (bit_vector);
            pending
        }
    }

    /// Reads the register at `addr`.
    pub fn read(&self, addr: u16) -> (r: u8)
        requires
            PpuRegisters::maps(addr),
        ensures
            r == self.register(addr),
    {
        if addr == 0xFF40 {
            Self::flag(self.lcd_enable) << 7 | Self::flag(self.win_tile_map) << 6 | Self::flag(
                self.win_enable,
            ) << 5 | Self::flag(self.bg_win_tile_data) << 4 | Self::flag(self.bg_tile_map) << 3
                | Self::flag(self.obj_size != 8) << 2 | Self::flag(self.obj_enable) << 1
                | Self::flag(self.bg_win_enable)
        } else if addr == 0xFF41 {
            0x80 | Self::flag(self.lyc_int) << 6 | Self::flag(self.mode_2_int) << 5 | Self::flag(
                self.mode_1_int,
            ) << 4 | Self::flag(self.mode_0_int) << 3 | Self::flag(self.line == self.lyc) << 2
                | self.mode.bits()
        } else if addr == 0xFF42 {
            self.viewport_y
        } else if addr == 0xFF43 {
            self.viewport_x
        } else if addr == 0xFF44 {
            self.line
        } else if addr == 0xFF45 {
            self.lyc
        } else if addr == 0xFF46 {
            self.dma
        } else if addr == 0xFF47 {
            self.bg_palette.to_byte()
        } else if addr == 0xFF48 {
            self.obj_palette_0.to_byte()
        } else if addr == 0xFF49 {
            self.obj_palette_1.to_byte()
        } else if addr == 0xFF4A {
            self.window_y
        } else {
            self.window_x
        }
    }

    /// Writes `value` to LCDC and reports whether that switched the display
    /// off.
    fn write_lcdc(&mut self, value: u8) -> (off: bool)
        ensures
            *final(self) == old(self).with_lcdc(value),
            off == (old(self).lcd_enable && value & 0b10000000 == 0),
            old(self).wf() ==> final(self).wf(),
    {
        let on = value & 0b10000000 != 0;
        let off = self.lcd_enable && !on;
        let set = PpuRegisters {
            lcd_enable: on,
            win_tile_map: value & 0b01000000 != 0,
            win_enable: value & 0b00100000 != 0,
            bg_win_tile_data: value & 0b00010000 != 0,
            bg_tile_map: value & 0b00001000 != 0,
            obj_size: if value & 0b00000100 != 0 {
                16
            } else {
                8
            },
            obj_enable: value & 0b00000010 != 0,
            bg_win_enable: value & 0b00000001 != 0,
            ..*self
        };
        *self = if off {
            PpuRegisters {
                line: 0,
                mode: PpuMode::OamScan,
                win_y_trigger: false,
                mode_counter: 0,
                ..set
            }
        } else {
            set
        };
        off
    }

    /// Writes `value` to the register at `addr` and reports whether that
    /// switched the display off.
    pub fn write(&mut self, addr: u16, value: u8) -> (off: bool)
        requires
            PpuRegisters::maps(addr),
        ensures
            *final(self) == old(self).written(addr, value),
            off == old(self).switches_off(addr, value),
            old(self).wf() ==> final(self).wf(),
    {
        if addr == 0xFF40 {
            return self.write_lcdc(value);
        }
        *self = if addr == 0xFF41 {
            PpuRegisters {
                lyc_int: value & 0b01000000 != 0,
                mode_2_int: value & 0b00100000 != 0,
                mode_1_int: value & 0b00010000 != 0,
                mode_0_int: value & 0b00001000 != 0,
                ..*self
            }
        } else if addr == 0xFF42 {
            PpuRegisters { viewport_y: value, ..*self }
        } else if addr == 0xFF43 {
            PpuRegisters { viewport_x: value, ..*self }
        } else if addr == 0xFF44 {
            *self
        } else if addr == 0xFF45 {
            PpuRegisters {
                lyc: value,
                interrupt: Self::with_raised(
                    self.interrupt,
                    self.lyc_int && self.line == value,
                    STAT_INTERRUPT,
                ),
                ..*self
            }
        } else if addr == 0xFF46 {
            PpuRegisters { dma: value, ..*self }
        } else if addr == 0xFF47 {
            PpuRegisters { bg_palette: Palette::from_byte(value), ..*self }
        } else if addr == 0xFF48 {
            PpuRegisters { obj_palette_0: Palette::from_byte(value), ..*self }
        } else if addr == 0xFF49 {
            PpuRegisters { obj_palette_1: Palette::from_byte(value), ..*self }
        } else if addr == 0xFF4A {
            PpuRegisters { window_y: value, ..*self }
        } else {
            PpuRegisters { window_x: value, ..*self }
        };
        false
    }

    /// Moves the clock of the scanline machine by one machine cycle.
    pub fn tick(&mut self)
        requires
            old(self).wf(),
        ensures
            *final(self) == old(self).clocked(),
            final(self).wf(),
    {
        if self.mode_counter + 1 >= LINE_CYCLES {
            let line: u8 = if self.line + 1 >= FRAME_LINES {
                0
            } else {
                self.line + 1
            };
            *self = PpuRegisters {
                mode_counter: 0,
                line,
                interrupt: Self::with_raised(
                    self.interrupt,
                    self.lyc_int && line == self.lyc,
                    STAT_INTERRUPT,
                ),
                ..*self
            };
        } else {
            self.mode_counter = self.mode_counter + 1;
        }
    }

    /// The mode that the position of the clock calls for.
    pub fn due_mode(&self) -> (r: PpuMode)
        ensures
            r == PpuMode::at(self.line, self.mode_counter),
    {
        if self.line as usize >= SCREEN_HEIGHT {
            PpuMode::VBlank
        } else if self.mode_counter < DRAW_START {
            PpuMode::OamScan
        } else if self.mode_counter < HBLANK_START {
            PpuMode::DrawingPixels
        } else {
            PpuMode::HBlank
        }
    }

    /// Enters `mode`, the rendering aside.
    pub fn enter(&mut self, mode: PpuMode)
        ensures
            *final(self) == old(self).entered(mode),
            old(self).wf() ==> final(self).wf(),
    {
        *self = match mode {
            PpuMode::OamScan => PpuRegisters {
                mode,
                interrupt: Self::with_raised(self.interrupt, self.mode_2_int, STAT_INTERRUPT),
                ..*self
            },
            PpuMode::DrawingPixels => if self.win_enable && !self.win_y_trigger && self.line
                == self.window_y {
                PpuRegisters { mode, win_y_trigger: true, win_y_origin: self.line, ..*self }
            } else {
                PpuRegisters { mode, ..*self }
            },
            PpuMode::HBlank => PpuRegisters {
                mode,
                interrupt: Self::with_raised(self.interrupt, self.mode_0_int, STAT_INTERRUPT),
                ..*self
            },
            PpuMode::VBlank => PpuRegisters {
                mode,
                interrupt: Self::with_raised(
                    self.interrupt | VBLANK_INTERRUPT,
                    self.mode_1_int,
                    STAT_INTERRUPT,
                ),
                win_y_trigger: false,
                frame_ready: true,
                ..*self
            },
        };
    }
}

/// The tile that the tile map byte `entry` names: with `unsigned_data` tiles
/// 0 to 255, else the byte read as a signed offset from tile 256.
pub open spec fn tile_index(entry: u8, unsigned_data: bool) -> int {
    if unsigned_data {
        entry as int
    } else if entry >= 128 {
        entry as int
    } else {
        256 + entry
    }
}

/// The offset in video memory of the tile map chosen by `second`.
pub open spec fn map_base(second: bool) -> int {
    if second {
        TILE_MAP_1 as int
    } else {
        TILE_MAP_0 as int
    }
}

impl PpuState {
    /// The sizes of the three memories.
    pub open spec fn wf(self) -> bool {
        &&& self.regs.wf()
        &&& self.vram.len() == 0x2000
        &&& self.oam.len() == 0xA0
        &&& self.framebuffer.len() == SCREEN_HEIGHT * LINE_BYTES
    }

    /// The colour index of the background at pixel `x` of line `ly`. The
    /// line shows row `(ly + SCY) mod 256` of the background; its 20 tile
    /// columns, starting at map column `SCX / 8`, are laid out from pixel
    /// `-(SCX mod 8)` on, and what leaves the screen on the left comes back
    /// in on the right.
    pub open spec fn background_index(self, ly: int, x: int) -> u8 {
        let row = (ly + self.regs.viewport_y) % 256;
        let strip = (x + self.regs.viewport_x % 8) % 160;
        let map_col = (self.regs.viewport_x / 8 + strip / 8) % 32;
        let entry = self.vram[map_base(self.regs.bg_tile_map) + (row / 8) * 32 + map_col];
        tile_color(self.vram, tile_index(entry, self.regs.bg_win_tile_data), row % 8, strip % 8)
    }

    /// Whether the window covers pixel `x` of the current line: it is
    /// enabled, its latch is set, WX is at most 166 and the pixel is at or
    /// right of `WX - 7`.
    pub open spec fn window_covers(self, x: int) -> bool {
        self.regs.win_enable && self.regs.win_y_trigger && self.regs.window_x <= 166 && x + 7
            >= self.regs.window_x
    }

    /// The colour index of the window at pixel `x` of line `ly`: the window
    /// map is shown unscrolled, its row 0 on the line that set the latch and
    /// its column 0 at pixel `WX - 7`.
    pub open spec fn window_index(self, ly: int, x: int) -> u8 {
        let row = (ly - self.regs.win_y_origin) % 256;
        let col = x + 7 - self.regs.window_x;
        let entry = self.vram[map_base(self.regs.win_tile_map) + (row / 8) * 32 + col / 8];
        tile_color(self.vram, tile_index(entry, self.regs.bg_win_tile_data), row % 8, col % 8)
    }

    /// The colour index that background and window give at pixel `x` of
    /// line `ly`: 0 when both are switched off, else the window's where it
    /// covers the pixel and the background's elsewhere.
    pub open spec fn field_index(self, ly: int, x: int) -> u8 {
        if !self.regs.bg_win_enable {
            0
        } else if self.window_covers(x) {
            self.window_index(ly, x)
        } else {
            self.background_index(ly, x)
        }
    }

    /// Whether sprite `i` of the table lies on line `ly`: its Y byte is the
    /// top line plus 16.
    pub open spec fn sprite_on_line(self, i: int, ly: int) -> bool {
        self.oam[4 * i] <= ly + 16 < self.oam[4 * i] + self.regs.obj_size
    }

    /// The sprites drawn on line `ly` among the first `n` of the table, in
    /// table order: those that lie on the line, but ten at most.
    pub open spec fn line_sprites(self, ly: int, n: int) -> Seq<usize>
        decreases n,
    {
        if n <= 0 {
            Seq::empty()
        } else {
            let before = self.line_sprites(ly, n - 1);
            if self.sprite_on_line(n - 1, ly) && before.len() < 10 {
                before.push((n - 1) as usize)
            } else {
                before
            }
        }
    }

    /// The colour index of sprite `i` at pixel `x` of line `ly`, `None`
    /// where the sprite does not reach or is transparent (index 0). Its X
    /// byte is the left edge plus 8; attribute bit 5 mirrors it
    /// horizontally, bit 6 vertically; a sprite of height 16 takes its upper
    /// half from the even tile of a pair and its lower half from the odd
    /// one.
    pub open spec fn sprite_index(self, i: int, ly: int, x: int) -> Option<u8> {
        let left = self.oam[4 * i + 1];
        let tile = self.oam[4 * i + 2];
        let attributes = self.oam[4 * i + 3];
        if left <= x + 8 < left + 8 {
            let line = ly + 16 - self.oam[4 * i];
            let row = if attributes & 0x40 != 0 {
                self.regs.obj_size - 1 - line
            } else {
                line
            };
            let col = if attributes & 0x20 != 0 {
                7 - (x + 8 - left)
            } else {
                x + 8 - left
            };
            let tile_number = if self.regs.obj_size == 16 {
                (tile / 2) * 2 + row / 8
            } else {
                tile as int
            };
            let color = tile_color(self.vram, tile_number, row % 8, col);
            if color == 0 {
                None
            } else {
                Some(color)
            }
        } else {
            None
        }
    }

    /// The sprite that shows at pixel `x` of line `ly` among the first `n`
    /// of `sprites`: of those with an opaque pixel there, the one with the
    /// smallest X byte, and of several such the first in the table.
    pub open spec fn front_sprite(
        self,
        sprites: Seq<usize>,
        n: int,
        ly: int,
        x: int,
    ) -> Option<usize>
        decreases n,
    {
        if n <= 0 {
            None
        } else {
            let before = self.front_sprite(sprites, n - 1, ly, x);
            let i = sprites[n - 1];
            if self.sprite_index(i as int, ly, x) is Some && (before is None || self.oam[4 * i + 1]
                < self.oam[4 * before->0 + 1]) {
                Some(i)
            } else {
                before
            }
        }
    }

    /// The shade of pixel `x` of line `ly`. With the tile viewer on, line
    /// `ly` shows row `ly mod 8` of the twenty tiles from `20 * (ly / 8)`
    /// on, unmapped. Else the pixel shows the front sprite there, through
    /// the palette that its attribute bit 4 selects, unless sprites are off
    /// or the sprite's attribute bit 7 puts it behind a background or window
    /// pixel of non-zero index; and without a sprite the background or
    /// window through the background palette, or white when they are off.
    pub open spec fn shade_at(self, ly: int, x: int) -> u8 {
        if self.regs.show_vram {
            tile_color(self.vram, 20 * (ly / 8) + x / 8, ly % 8, x % 8)
        } else {
            let field = self.field_index(ly, x);
            let below = if self.regs.bg_win_enable {
                self.regs.bg_palette.shade(field)
            } else {
                0
            };
            let sprites = self.line_sprites(ly, 40);
            match self.front_sprite(sprites, sprites.len() as int, ly, x) {
                Some(i) => {
                    let attributes = self.oam[4 * i + 3];
                    if !self.regs.obj_enable || (attributes & 0x80 != 0 && field != 0) {
                        below
                    } else if attributes & 0x10 != 0 {
                        self.regs.obj_palette_1.shade(self.sprite_index(i as int, ly, x)->0)
                    } else {
                        self.regs.obj_palette_0.shade(self.sprite_index(i as int, ly, x)->0)
                    }
                },
                None => below,
            }
        }
    }

    /// Byte `c` of the four that the framebuffer holds for a pixel of shade
    /// `shade`: red, green and blue at the shade's grey level, and full
    /// alpha.
    pub open spec fn channel(shade: u8, c: int) -> u8 {
        if c == 3 {
            255
        } else {
            grey(shade)
        }
    }

    /// The framebuffer after line `ly` is rendered: the 640 bytes of the
    /// line hold its 160 pixels, the other lines are as before.
    pub open spec fn rendered(self, ly: int) -> Seq<u8> {
        Seq::new(
            self.framebuffer.len(),
            |b: int|
                if ly * LINE_BYTES <= b < (ly + 1) * LINE_BYTES {
                    Self::channel(
                        self.shade_at(ly, (b - ly * LINE_BYTES) / 4),
                        (b - ly * LINE_BYTES) % 4,
                    )
                } else {
                    self.framebuffer[b]
                },
        )
    }

    /// The state after the scanline machine enters `mode`: entering the
    /// horizontal blank renders the current line.
    pub open spec fn entered(self, mode: PpuMode) -> PpuState {
        PpuState {
            regs: self.regs.entered(mode),
            framebuffer: if mode is HBlank {
                self.rendered(self.regs.line as int)
            } else {
                self.framebuffer
            },
            ..self
        }
    }

    /// The state after one machine cycle: the clock moves, and the mode that
    /// the new position calls for is entered if it is not the current one.
    pub open spec fn ticked(self) -> PpuState {
        let clocked = PpuState { regs: self.regs.clocked(), ..self };
        let target = PpuMode::at(clocked.regs.line, clocked.regs.mode_counter);
        if target != clocked.regs.mode {
            clocked.entered(target)
        } else {
            clocked
        }
    }

    /// Whether `addr` is one of the unit's: video memory, the sprite table
    /// or a register.
    pub open spec fn maps(addr: u16) -> bool {
        0x8000 <= addr <= 0x9FFF || 0xFE00 <= addr <= 0xFE9F || 0xFF40 <= addr <= 0xFF4B
    }

    /// The byte that a read of `addr` returns.
    pub open spec fn read(self, addr: u16) -> u8 {
        if addr <= 0x9FFF {
            self.vram[addr - 0x8000]
        } else if addr <= 0xFE9F {
            self.oam[addr - 0xFE00]
        } else {
            self.regs.register(addr)
        }
    }

    /// The state after `value` is written to `addr`. Switching the display
    /// off clears the framebuffer.
    pub open spec fn written(self, addr: u16, value: u8) -> PpuState {
        if addr <= 0x9FFF {
            PpuState { vram: self.vram.update(addr - 0x8000, value), ..self }
        } else if addr <= 0xFE9F {
            PpuState { oam: self.oam.update(addr - 0xFE00, value), ..self }
        } else {
            PpuState {
                regs: self.regs.written(addr, value),
                framebuffer: if self.regs.switches_off(addr, value) {
                    Seq::new(self.framebuffer.len(), |b: int| 0u8)
                } else {
                    self.framebuffer
                },
                ..self
            }
        }
    }
}

/// The four framebuffer bytes of an opaque pixel of the given colour. Calls
/// `Color32::from_rgba_unmultiplied` of the `ecolor` crate with full alpha
/// and `Color32::to_array`; the contract claims that for full alpha the
/// colour keeps the three channels as given, which is the branch of that
/// function for alpha 255.
#[verifier::external_body]
fn opaque_rgba(r: u8, g: u8, b: u8) -> (c: [u8; 4])
    ensures
        c@ == seq![r, g, b, 255u8],
{
    Color32::from_rgba_unmultiplied(r, g, b, 255).to_array()
}

/// The pixel processing unit. `tiles` mirrors the tile data of `vram` in
/// decoded form.
pub struct Ppu {
    pub regs: PpuRegisters,
    pub framebuffer: [u8; 92160],
    pub vram: [u8; 8192],
    pub oam: [u8; 160],
    pub tiles: [Tile; 384],
}

impl View for Ppu {
    type V = PpuState;

    open spec fn view(&self) -> PpuState {
        PpuState {
            regs: self.regs,
            vram: self.vram@,
            oam: self.oam@,
            framebuffer: self.framebuffer@,
        }
    }
}

impl Ppu {
    /// Whether the tile cache mirrors video memory: each tile holds its 16
    /// bytes and their decoded form.
    pub open spec fn cache_coherent(&self) -> bool {
        &&& forall|t: int, j: int|
            0 <= t < 384 && 0 <= j < 16 ==> #[trigger] self.tiles[t].raw[j] == self.vram[16 * t + j]
        &&& forall|t: int, p: int|
            0 <= t < 384 && 0 <= p < 64 ==> #[trigger] self.tiles[t].pixels[p] == tile_color(
                self.vram@,
                t,
                p / 8,
                p % 8,
            )
    }

    /// The representation invariant: the registers are in range and the tile
    /// cache mirrors video memory.
    pub open spec fn inv(&self) -> bool {
        self.regs.wf() && self.cache_coherent()
    }

    /// A unit with the display off, clear memories, a white framebuffer and
    /// the scanline machine at the start of line 0.
    pub fn new() -> (r: Ppu)
        ensures
            r.inv(),
            r@.wf(),
            r.regs == (PpuRegisters {
                show_vram: false,
                mode: PpuMode::HBlank,
                mode_counter: 0,
                line: 0,
                lyc: 0,
                bg_win_enable: false,
                obj_enable: false,
                obj_size: 8,
                bg_tile_map: false,
                bg_win_tile_data: false,
                win_enable: false,
                win_tile_map: false,
                lcd_enable: false,
                mode_0_int: false,
                mode_1_int: false,
                mode_2_int: false,
                lyc_int: false,
                viewport_x: 0,
                viewport_y: 0,
                bg_palette: Palette { id_0: 0, id_1: 1, id_2: 2, id_3: 3 },
                obj_palette_0: Palette { id_0: 0, id_1: 1, id_2: 2, id_3: 3 },
                obj_palette_1: Palette { id_0: 0, id_1: 1, id_2: 2, id_3: 3 },
                window_x: 0,
                window_y: 255,
                win_y_trigger: false,
                win_y_origin: 0,
                interrupt: 0,
                dma: 0,
                frame_ready: false,
            }),
            forall|i: int| 0 <= i < 0x2000 ==> r@.vram[i] == 0,
            forall|i: int| 0 <= i < 0xA0 ==> r@.oam[i] == 0,
            forall|i: int| 0 <= i < 92160 ==> r@.framebuffer[i] == 255,
    {
        let blank = Tile::from_raw([0;16]);
        let ppu = Ppu {
            regs: PpuRegisters {
                show_vram: false,
                mode: PpuMode::HBlank,
                mode_counter: 0,
                line: 0,
                lyc: 0,
                bg_win_enable: false,
                obj_enable: false,
                obj_size: 8,
                bg_tile_map: false,
                bg_win_tile_data: false,
                win_enable: false,
                win_tile_map: false,
                lcd_enable: false,
                mode_0_int: false,
                mode_1_int: false,
                mode_2_int: false,
                lyc_int: false,
                viewport_x: 0,
                viewport_y: 0,
                bg_palette: Palette { id_0: 0, id_1: 1, id_2: 2, id_3: 3 },
                obj_palette_0: Palette { id_0: 0, id_1: 1, id_2: 2, id_3: 3 },
                obj_palette_1: Palette { id_0: 0, id_1: 1, id_2: 2, id_3: 3 },
                window_x: 0,
                window_y: 255,
                win_y_trigger: false,
                win_y_origin: 0,
                interrupt: 0,
                dma: 0,
                frame_ready: false,
            },
            framebuffer: [255;92160],
            vram: [0;8192],
            oam: [0;160],
            tiles: [blank;384],
        };
        proof {
            assert forall|t: int, p: int|
                0 <= t < 384 && 0 <= p < 64 implies #[trigger] ppu.tiles[t].pixels[p]
                == tile_color(ppu.vram@, t, p / 8, p % 8) by {
                assert(ppu.tiles[t] == blank);
                assert(blank.pixels@[p] == decoded(blank.raw@)[p]);
            }
        }
        ppu
    }

    /// Advances the scanline machine by one machine cycle.
    pub fn cycle(&mut self)
        requires
            old(self).inv(),
        ensures
            final(self).inv(),
            final(self)@ == old(self)@.ticked(),
    {
        self.regs.tick();
        let target = self.regs.due_mode();
        if target != self.regs.mode {
            self.set_mode(target);
        }
    }

    /// Enters `mode`: raises its interrupts; sets the window latch when
    /// drawing starts on the line that equals WY; renders the line when the
    /// horizontal blank starts; marks the frame complete when the vertical
    /// blank starts.
    pub fn set_mode(&mut self, mode: PpuMode)
        requires
            old(self).inv(),
            mode is HBlank ==> old(self).regs.line < SCREEN_HEIGHT,
        ensures
            final(self).inv(),
            final(self)@ == old(self)@.entered(mode),
    {
        match mode {
            PpuMode::HBlank => {
                self.render_scanline();
            },
            _ => {},
        }
        self.regs.enter(mode);
    }

    /// Reads the byte at `addr`.
    pub fn read(&self, addr: u16) -> (r: u8)
        requires
            PpuState::maps(addr),
        ensures
            r == self@.read(addr),
    {
        if addr <= 0x9FFF {
            self.vram[(addr - 0x8000) as usize]
        } else if addr <= 0xFE9F {
            self.oam[(addr - 0xFE00) as usize]
        } else {
            self.regs.read(addr)
        }
    }

    /// Writes `value` to `addr`. A write to the tile data keeps the tile
    /// cache in step.
    pub fn write(&mut self, addr: u16, value: u8)
        requires
            old(self).inv(),
            PpuState::maps(addr),
        ensures
            final(self).inv(),
            final(self)@ == old(self)@.written(addr, value),
    {
        if addr <= 0x9FFF {
            self.write_vram((addr - 0x8000) as usize, value);
        } else if addr <= 0xFE9F {
            self.oam[(addr - 0xFE00) as usize] = value;
        } else {
            let off = self.regs.write(addr, value);
            if off {
                self.clear_framebuffer(0);
            }
        }
    }

    /// Writes `value` at offset `offset` of video memory and, where that is
    /// tile data, decodes the tile again.
    fn write_vram(&mut self, offset: usize, value: u8)
        requires
            old(self).cache_coherent(),
            offset < 0x2000,
        ensures
            final(self).cache_coherent(),
            final(self).vram@ == old(self).vram@.update(offset as int, value),
            final(self).regs == old(self).regs,
            final(self).oam == old(self).oam,
            final(self).framebuffer == old(self).framebuffer,
    {
        self.vram[offset] = value;
        if offset < TILE_MAP_0 {
            let mut tile = self.tiles[offset / 16];
            tile.set_byte(offset % 16, value);
            self.tiles[offset / 16] = tile;
            proof {
                let hit = (offset / 16) as int;
                assert forall|t: int, j: int|
                    0 <= t < 384 && 0 <= j < 16 implies #[trigger] self.tiles[t].raw[j]
                    == self.vram[16 * t + j] by {
                    if t == hit {
                        assert(self.tiles[t].raw@[j] == old(self).tiles[t].raw@.update(
                            (offset % 16) as int,
                            value,
                        )[j]);
                        assert(old(self).tiles[t].raw[j] == old(self).vram[16 * t + j]);
                    } else {
                        assert(self.tiles[t] == old(self).tiles[t]);
                        assert(old(self).tiles[t].raw[j] == old(self).vram[16 * t + j]);
                    }
                }
                assert forall|t: int, p: int|
                    0 <= t < 384 && 0 <= p < 64 implies #[trigger] self.tiles[t].pixels[p]
                    == tile_color(self.vram@, t, p / 8, p % 8) by {
                    if t == hit {
                        assert(self.tiles[t].pixels@[p] == decoded(self.tiles[t].raw@)[p]);
                        assert(self.tiles[t].raw[2 * (p / 8)] == self.vram[16 * t + 2 * (p / 8)]);
                        assert(self.tiles[t].raw[2 * (p / 8) + 1] == self.vram[16 * t + 2 * (p / 8)
                            + 1]);
                    } else {
                        assert(self.tiles[t] == old(self).tiles[t]);
                        assert(old(self).tiles[t].pixels[p] == tile_color(
                            old(self).vram@,
                            t,
                            p / 8,
                            p % 8,
                        ));
                    }
                }
            }
        } else {
            proof {
                assert forall|t: int, j: int|
                    0 <= t < 384 && 0 <= j < 16 implies #[trigger] self.tiles[t].raw[j]
                    == self.vram[16 * t + j] by {
                    assert(old(self).tiles[t].raw[j] == old(self).vram[16 * t + j]);
                }
                assert forall|t: int, p: int|
                    0 <= t < 384 && 0 <= p < 64 implies #[trigger] self.tiles[t].pixels[p]
                    == tile_color(self.vram@, t, p / 8, p % 8) by {
                    assert(old(self).tiles[t].pixels[p] == tile_color(
                        old(self).vram@,
                        t,
                        p / 8,
                        p % 8,
                    ));
                }
            }
        }
    }

    /// Fills the framebuffer with `color`.
    fn clear_framebuffer(&mut self, color: u8)
        ensures
            final(self).framebuffer@ == Seq::new(92160, |b: int| color),
            final(self).regs == old(self).regs,
            final(self).vram == old(self).vram,
            final(self).oam == old(self).oam,
            final(self).tiles == old(self).tiles,
    {
        self.framebuffer = [color;92160];
    }

    /// The colour index of the pixel in row `row`, column `col` of tile
    /// `tile`, read from the tile cache.
    fn tile_pixel(&self, tile: usize, row: usize, col: usize) -> (r: u8)
        requires
            self.cache_coherent(),
            tile < 384,
            row < 8,
            col < 8,
        ensures
            r == tile_color(self@.vram, tile as int, row as int, col as int),
    {
        assert(self.tiles[tile as int].pixels[(row * 8 + col) as int] == tile_color(
            self.vram@,
            tile as int,
            (row * 8 + col) as int / 8,
            (row * 8 + col) as int % 8,
        ));
        self.tiles[tile].pixels[row * 8 + col]
    }

    /// The tile that a tile map entry names under the current tile data
    /// select.
    fn tile_of(&self, entry: u8) -> (r: usize)
        ensures
            r == tile_index(entry, self.regs.bg_win_tile_data),
            r < 384,
    {
        if self.regs.bg_win_tile_data || entry >= 128 {
            entry as usize
        } else {
            256 + entry as usize
        }
    }

    /// The colour index of the background at pixel `x` of the current line.
    fn background_pixel(&self, x: usize) -> (r: u8)
        requires
            self.cache_coherent(),
            x < SCREEN_WIDTH,
        ensures
            r == self@.background_index(self.regs.line as int, x as int),
    {
        let row = (self.regs.line as usize + self.regs.viewport_y as usize) % 256;
        let strip = (x + (self.regs.viewport_x % 8) as usize) % 160;
        let map_col = ((self.regs.viewport_x / 8) as usize + strip / 8) % 32;
        let base = if self.regs.bg_tile_map {
            TILE_MAP_1
        } else {
            TILE_MAP_0
        };
        assert(row / 8 < 32 && map_col < 32);
        let at = base + (row / 8) * 32 + map_col;
        let entry = self.vram[at];
        self.tile_pixel(self.tile_of(entry), row % 8, strip % 8)
    }

    /// The colour index of the window at pixel `x` of the current line.
    fn window_pixel(&self, x: usize) -> (r: u8)
        requires
            self.cache_coherent(),
            x < SCREEN_WIDTH,
            self@.window_covers(x as int),
        ensures
            r == self@.window_index(self.regs.line as int, x as int),
    {
        let row = self.regs.line.wrapping_sub(self.regs.win_y_origin) as usize;
        let col = x + 7 - self.regs.window_x as usize;
        let base = if self.regs.win_tile_map {
            TILE_MAP_1
        } else {
            TILE_MAP_0
        };
        assert(row == (self.regs.line - self.regs.win_y_origin) % 256);
        assert(row / 8 < 32 && col / 8 < 32);
        let at = base + (row / 8) * 32 + col / 8;
        let entry = self.vram[at];
        self.tile_pixel(self.tile_of(entry), row % 8, col % 8)
    }

    /// The colour index that background and window give at pixel `x` of the
    /// current line.
    fn field_pixel(&self, x: usize) -> (r: u8)
        requires
            self.cache_coherent(),
            x < SCREEN_WIDTH,
        ensures
            r == self@.field_index(self.regs.line as int, x as int),
    {
        if !self.regs.bg_win_enable {
            0
        } else if self.regs.win_enable && self.regs.win_y_trigger && self.regs.window_x <= 166 && x
            + 7 >= self.regs.window_x as usize {
            self.window_pixel(x)
        } else {
            self.background_pixel(x)
        }
    }

    /// The sprites drawn on the current line, in table order.
    fn visible_sprites(&self) -> (r: Vec<usize>)
        requires
            self.regs.wf(),
        ensures
            r@ == self@.line_sprites(self.regs.line as int, 40),
            forall|k: int|
                0 <= k < r@.len() ==> #[trigger] r@[k] < 40 && self@.sprite_on_line(
                    r@[k] as int,
                    self.regs.line as int,
                ),
    {
        let mut found: Vec<usize> = Vec::new();
        let mut i: usize = 0;
        let ly = self.regs.line as usize;
        while i < 40
            invariant
                i <= 40,
                ly == self.regs.line,
                self.regs.wf(),
                found@ == self@.line_sprites(ly as int, i as int),
                found@.len() <= 10,
                forall|k: int|
                    0 <= k < found@.len() ==> #[trigger] found@[k] < 40 && self@.sprite_on_line(
                        found@[k] as int,
                        ly as int,
                    ),
            decreases 40 - i,
        {
            let top = self.oam[4 * i] as usize;
            if top <= ly + 16 && ly + 16 < top + self.regs.obj_size as usize && found.len() < 10 {
                found.push(i);
            }
            i += 1;
        }
        found
    }

    /// The colour index of sprite `i` at pixel `x` of the current line, if
    /// the sprite shows there.
    fn sprite_pixel(&self, i: usize, x: usize) -> (r: Option<u8>)
        requires
            self.inv(),
            i < 40,
            x < SCREEN_WIDTH,
            self@.sprite_on_line(i as int, self.regs.line as int),
        ensures
            r == self@.sprite_index(i as int, self.regs.line as int, x as int),
    {
        let left = self.oam[4 * i + 1] as usize;
        let tile = self.oam[4 * i + 2];
        let attributes = self.oam[4 * i + 3];
        if left <= x + 8 && x + 8 < left + 8 {
            let line = self.regs.line as usize + 16 - self.oam[4 * i] as usize;
            let row = if attributes & 0x40 != 0 {
                self.regs.obj_size as usize - 1 - line
            } else {
                line
            };
            let col = if attributes & 0x20 != 0 {
                7 - (x + 8 - left)
            } else {
                x + 8 - left
            };
            let tile_number = if self.regs.obj_size == 16 {
                ((tile / 2) * 2) as usize + row / 8
            } else {
                tile as usize
            };
            let color = self.tile_pixel(tile_number, row % 8, col);
            if color == 0 {
                None
            } else {
                Some(color)
            }
        } else {
            None
        }
    }

    /// The sprite of `sprites` that shows at pixel `x` of the current line.
    fn front_sprite_at(&self, sprites: &Vec<usize>, x: usize) -> (r: Option<usize>)
        requires
            self.inv(),
            x < SCREEN_WIDTH,
            forall|k: int|
                0 <= k < sprites@.len() ==> #[trigger] sprites@[k] < 40 && self@.sprite_on_line(
                    sprites@[k] as int,
                    self.regs.line as int,
                ),
        ensures
            r == self@.front_sprite(
                sprites@,
                sprites@.len() as int,
                self.regs.line as int,
                x as int,
            ),
            r matches Some(i) ==> i < 40 && self@.sprite_on_line(i as int, self.regs.line as int)
                && self@.sprite_index(i as int, self.regs.line as int, x as int) is Some,
    {
        let ghost ly = self.regs.line as int;
        let mut best: Option<usize> = None;
        let mut k: usize = 0;
        while k < sprites.len()
            invariant
                k <= sprites@.len(),
                self.inv(),
                x < SCREEN_WIDTH,
                ly == self.regs.line,
                forall|j: int|
                    0 <= j < sprites@.len() ==> #[trigger] sprites@[j] < 40
                        && self@.sprite_on_line(sprites@[j] as int, ly),
                best == self@.front_sprite(sprites@, k as int, ly, x as int),
                best matches Some(i) ==> i < 40 && self@.sprite_on_line(i as int, ly)
                    && self@.sprite_index(i as int, ly, x as int) is Some,
            decreases sprites@.len() - k,
        {
            let i = sprites[k];
            let shows = self.sprite_pixel(i, x).is_some();
            let nearer = match best {
                None => true,
                Some(b) => self.oam[4 * i + 1] < self.oam[4 * b + 1],
            };
            if shows && nearer {
                best = Some(i);
            }
            k += 1;
        }
        best
    }

    /// The shade of pixel `x` of the current line, `sprites` being the
    /// sprites drawn on the line.
    fn shade(&self, sprites: &Vec<usize>, x: usize) -> (r: u8)
        requires
            self.inv(),
            self.regs.line < SCREEN_HEIGHT,
            x < SCREEN_WIDTH,
            sprites@ == self@.line_sprites(self.regs.line as int, 40),
            forall|k: int|
                0 <= k < sprites@.len() ==> #[trigger] sprites@[k] < 40 && self@.sprite_on_line(
                    sprites@[k] as int,
                    self.regs.line as int,
                ),
        ensures
            r == self@.shade_at(self.regs.line as int, x as int),
    {
        if self.regs.show_vram {
            let ly = self.regs.line as usize;
            self.tile_pixel(20 * (ly / 8) + x / 8, ly % 8, x % 8)
        } else {
            let field = self.field_pixel(x);
            let below = if self.regs.bg_win_enable {
                self.regs.bg_palette.lookup(field)
            } else {
                0
            };
            match self.front_sprite_at(sprites, x) {
                Some(i) => {
                    let attributes = self.oam[4 * i + 3];
                    if !self.regs.obj_enable || (attributes & 0x80 != 0 && field != 0) {
                        below
                    } else {
                        let color = match self.sprite_pixel(i, x) {
                            Some(c) => c,
                            None => 0,
                        };
                        if attributes & 0x10 != 0 {
                            self.regs.obj_palette_1.lookup(color)
                        } else {
                            self.regs.obj_palette_0.lookup(color)
                        }
                    }
                },
                None => below,
            }
        }
    }

    /// The grey level shown for a shade.
    fn grey_level(shade: u8) -> (r: u8)
        ensures
            r == grey(shade),
    {
        if shade == 0 {
            255
        } else if shade == 1 {
            192
        } else if shade == 2 {
            96
        } else {
            0
        }
    }

    /// Renders the current line into the framebuffer.
    pub fn render_scanline(&mut self)
        requires
            old(self).inv(),
            old(self).regs.line < SCREEN_HEIGHT,
        ensures
            final(self).inv(),
            final(self)@ == (PpuState {
                framebuffer: old(self)@.rendered(old(self).regs.line as int),
                ..old(self)@
            }),
    {
        let sprites = self.visible_sprites();
        let ghost ly = self.regs.line as int;
        let mut shades: [u8; 160] = [0;160];
        let mut x: usize = 0;
        while x < SCREEN_WIDTH
            invariant
                x <= SCREEN_WIDTH,
                self.inv(),
                *self == *old(self),
                ly == self.regs.line,
                ly < SCREEN_HEIGHT,
                sprites@ == self@.line_sprites(ly, 40),
                forall|k: int|
                    0 <= k < sprites@.len() ==> #[trigger] sprites@[k] < 40
                        && self@.sprite_on_line(sprites@[k] as int, ly),
                forall|p: int| 0 <= p < x ==> #[trigger] shades[p] == self@.shade_at(ly, p),
            decreases SCREEN_WIDTH - x,
        {
            shades[x] = self.shade(&sprites, x);
            x += 1;
        }
        let start = self.regs.line as usize * LINE_BYTES;
        let mut x: usize = 0;
        while x < SCREEN_WIDTH
            invariant
                x <= SCREEN_WIDTH,
                start == ly * LINE_BYTES,
                0 <= ly < SCREEN_HEIGHT,
                self.regs == old(self).regs,
                self.vram == old(self).vram,
                self.oam == old(self).oam,
                self.tiles == old(self).tiles,
                forall|p: int| 0 <= p < 160 ==> #[trigger] shades[p] == old(self)@.shade_at(ly, p),
                forall|b: int|
                    0 <= b < 92160 ==> #[trigger] self.framebuffer[b] == (if start <= b < start + 4
                        * x {
                        PpuState::channel(old(self)@.shade_at(ly, (b - start) / 4), (b - start) % 4)
                    } else {
                        old(self).framebuffer[b]
                    }),
            decreases SCREEN_WIDTH - x,
        {
            let level = Self::grey_level(shades[x]);
            let rgba = opaque_rgba(level, level, level);
            self.framebuffer[start + 4 * x] = rgba[0];
            self.framebuffer[start + 4 * x + 1] = rgba[1];
            self.framebuffer[start + 4 * x + 2] = rgba[2];
            self.framebuffer[start + 4 * x + 3] = rgba[3];
            x += 1;
        }
        assert(self.framebuffer@ =~= old(self)@.rendered(ly));
    }
}

} // verus!
