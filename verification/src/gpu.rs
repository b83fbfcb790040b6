//! The video controller: video RAM with its decoded tiles, the sprite
//! table, the LCD registers, the per-line state machine and the rule that
//! resolves the colour of each pixel.
use vstd::prelude::*;
use crate::alu::signed;
use crate::bits::{bit, byte_of, is_set, lemma_byte_of_bits};
use crate::display::Display;
use crate::{Color, SCREEN_HEIGHT, SCREEN_WIDTH, STAT_INTERRUPT, V_BLANK_INTERRUPT};

verus! {

pub const SPRITE_OBJ_TO_BG_PRIORITY: u8 = 7;

pub const SPRITE_Y_FLIP: u8 = 6;

pub const SPRITE_X_FLIP: u8 = 5;

pub const SPRITE_PALETTE_NUM: u8 = 4;

pub const SPRITE_VRAM_BANK: u8 = 3;

pub const WINDOW_X_SHIFT: u8 = 7;

pub const H_BLANK_MODE: u8 = 0;

pub const V_BLANK_MODE: u8 = 1;

pub const OAM_SEARCH_MODE: u8 = 2;

pub const LCD_TRANSFER_MODE: u8 = 3;

/// The last cycle of a line that belongs to the sprite search.
pub const OAM_SEARCH_END: u16 = 80;

/// The last cycle of a line that belongs to the pixel transfer.
pub const LCD_TRANSFER_END: u16 = 252;

/// The last cycle of a line.
pub const LINE_END: u16 = 456;

/// The last line of a frame, the tenth of the vertical blanking.
pub const LAST_LINE: u8 = 153;

pub const VRAM_BANK_SIZE: usize = 0x2000;

pub const TILE_DATA_END: u16 = 0x1800;

pub const TILES_PER_BANK: usize = 384;

pub const OAM_SIZE: usize = 0xA0;

pub const PALETTE_RAM_SIZE: usize = 0x40;

pub const MAX_SPRITES_PER_LINE: usize = 10;

/// One entry of the sprite table.
#[derive(Clone, Copy, Debug, PartialEq, Eq, Structural)]
pub struct Sprite {
    pub y: u8,
    pub x: u8,
    pub tile_number: u8,
    pub flags: u8,
}

/// What a step of the controller asks of the presentation layer.
#[derive(Clone, Copy, Debug, PartialEq, Eq, Structural)]
pub enum GpuEvent {
    /// Nothing.
    Idle,
    /// The current line is to be composed and handed over.
    Scanline,
    /// The frame is whole and is to be presented.
    Frame,
}

/// The LCD control register, bit by bit.
#[derive(Clone, Copy, Debug, PartialEq, Eq, Structural)]
pub struct LcdControl {
    pub lcd_enable: bool,
    pub window_tile_map: bool,
    pub window_enable: bool,
    /// BG & Window Tile Data Select (false=8800-97FF, true=8000-8FFF)
    pub bg_window_tile_data: bool,
    /// BG Tile Map Display Select (false=9800-9BFF, true=9C00-9FFF)
    pub bg_tile_map_select: bool,
    pub double_sprite_size: bool,
    pub sprite_enable: bool,
    pub bg_window_priority: bool,
}

/// The LCD status register: four interrupt enables, the coincidence flag
/// and the mode.
#[derive(Clone, Copy, Debug, PartialEq, Eq, Structural)]
pub struct LcdStatus {
    pub coincidence_interrupt_enabled: bool,
    pub oam_interrupt_enabled: bool,
    pub v_blank_interrupt_enabled: bool,
    pub h_blank_interrupt_enabled: bool,
    pub coincidence_flag: bool,
    pub lcd_mode: u8,
}

/// The scroll, line, window and monochrome palette registers.
#[derive(Clone, Copy, Debug, PartialEq, Eq, Structural)]
pub struct LcdRegisters {
    pub scy: u8,
    pub scx: u8,
    pub ly: u8,
    pub lyc: u8,
    pub wy: u8,
    /// Window x start plus seven
    pub wx: u8,
    pub bgp: u8,
    pub obp0: u8,
    pub obp1: u8,
}

/// The index register of a colour palette RAM.
#[derive(Clone, Copy, Debug, PartialEq, Eq, Structural)]
pub struct PaletteSelect {
    pub index: u8,
    pub auto_increment: bool,
}

pub struct Gpu {
    /// Two banks of 8 KiB, one after the other.
    pub vram: Vec<u8>,
    pub vram_bank_1_selected: bool,
    pub oam: Vec<u8>,
    /// The colour index of every pixel of every tile, decoded from `vram`:
    /// bank, tile, row and column, in this order.
    pub tile_set: Vec<u8>,
    pub sprites: Vec<Sprite>,
    pub control: LcdControl,
    pub status: LcdStatus,
    pub regs: LcdRegisters,
    pub window_internal_line_counter: Option<u8>,
    pub color_mode: bool,
    pub color_bg_select: PaletteSelect,
    pub color_bg_palettes: Vec<u8>,
    pub color_obj_select: PaletteSelect,
    pub color_obj_palettes: Vec<u8>,
    pub cycle_count: u16,
    pub interrupts: u8,
    pub frame_complete: bool,
}

/// The controller as a value: everything but the decoded tiles, which
/// follow from the video RAM.
pub struct GpuView {
    pub vram: Seq<u8>,
    pub vram_bank_1_selected: bool,
    pub oam: Seq<u8>,
    pub sprites: Seq<Sprite>,
    pub control: LcdControl,
    pub status: LcdStatus,
    pub regs: LcdRegisters,
    pub window_internal_line_counter: Option<u8>,
    pub color_mode: bool,
    pub color_bg_select: PaletteSelect,
    pub color_bg_palettes: Seq<u8>,
    pub color_obj_select: PaletteSelect,
    pub color_obj_palettes: Seq<u8>,
    pub cycle_count: u16,
    pub interrupts: u8,
    pub frame_complete: bool,
}

impl View for Gpu {
    type V = GpuView;

    open spec fn view(&self) -> GpuView {
        GpuView {
            vram: self.vram@,
            vram_bank_1_selected: self.vram_bank_1_selected,
            oam: self.oam@,
            sprites: self.sprites@,
            control: self.control,
            status: self.status,
            regs: self.regs,
            window_internal_line_counter: self.window_internal_line_counter,
            color_mode: self.color_mode,
            color_bg_select: self.color_bg_select,
            color_bg_palettes: self.color_bg_palettes@,
            color_obj_select: self.color_obj_select,
            color_obj_palettes: self.color_obj_palettes@,
            cycle_count: self.cycle_count,
            interrupts: self.interrupts,
            frame_complete: self.frame_complete,
        }
    }
}

/// The colour index of column `col` of a tile row held in two bitplane
/// bytes: bit `7 - col` of the first byte is the low bit, bit `7 - col` of
/// the second byte the high bit.
pub open spec fn pixel_index(byte1: u8, byte2: u8, col: int) -> u8 {
    ((if bit(byte2, 7 - col) { 2int } else { 0 }) + (if bit(byte1, 7 - col) { 1int } else { 0 })) as u8
}

/// Where in video RAM the first of the two bytes of a tile row lies.
pub open spec fn tile_row_address(bank: int, tile: int, row: int) -> int {
    bank * 0x2000 + tile * 16 + row * 2
}

/// What entry `i` of the decoded tiles holds when they agree with `vram`.
pub open spec fn decoded_at(vram: Seq<u8>, i: int) -> u8 {
    let line = i / 8;
    let address = (line / 3072) * 0x2000 + (line % 3072) * 2;
    pixel_index(vram[address], vram[address + 1], i % 8)
}

/// The decoded tiles agree with the video RAM.
#[verifier::opaque]
pub open spec fn tiles_decoded(vram: Seq<u8>, tile_set: Seq<u8>) -> bool {
    &&& tile_set.len() == 2 * 384 * 64
    &&& forall|i: int| 0 <= i < 2 * 384 * 64 ==> #[trigger] tile_set[i] == decoded_at(vram, i)
}

/// The four shades of the monochrome screen, lightest first.
pub open spec fn shade(number: int) -> Color {
    if number == 0 {
        Color { r: 0xE6, g: 0xFF, b: 0xE6 }
    } else if number == 1 {
        Color { r: 0x70, g: 0xDB, b: 0x70 }
    } else if number == 2 {
        Color { r: 0x40, g: 0x80, b: 0x00 }
    } else {
        Color { r: 0x00, g: 0x00, b: 0x00 }
    }
}

/// The shade that a monochrome palette byte gives to a colour index: the
/// two bits of the byte at twice the index.
pub open spec fn monochrome_color(palette: u8, index: u8) -> Color {
    if index == 0 {
        shade(palette as int % 4)
    } else if index == 1 {
        shade((palette as int / 4) % 4)
    } else if index == 2 {
        shade((palette as int / 16) % 4)
    } else {
        shade((palette as int / 64) % 4)
    }
}

/// A 5-bit colour channel widened to 8 bits: shifted left by three with
/// its top three bits repeated below.
pub open spec fn expand_channel(c: int) -> u8 {
    (c * 8 + c / 4) as u8
}

/// The colour that palette RAM gives to colour `index` of palette
/// `palette`: two bytes, low first, of five bits each for red, green and
/// blue.
pub open spec fn palette_color(palettes: Seq<u8>, palette: int, index: int) -> Color {
    let at = palette * 8 + index * 2;
    let word = palettes[at + 1] as int * 256 + palettes[at] as int;
    Color {
        r: expand_channel(word % 32),
        g: expand_channel((word / 32) % 32),
        b: expand_channel((word / 1024) % 32),
    }
}

impl LcdControl {
    /// The register that a byte written to it makes: bit 7 the LCD enable
    /// down to bit 0 the background enable.
    pub open spec fn written(value: u8) -> LcdControl {
        LcdControl {
            lcd_enable: bit(value, 7),
            window_tile_map: bit(value, 6),
            window_enable: bit(value, 5),
            bg_window_tile_data: bit(value, 4),
            bg_tile_map_select: bit(value, 3),
            double_sprite_size: bit(value, 2),
            sprite_enable: bit(value, 1),
            bg_window_priority: bit(value, 0),
        }
    }

    /// The register as it reads.
    pub open spec fn register(self) -> u8 {
        byte_of(
            self.lcd_enable,
            self.window_tile_map,
            self.window_enable,
            self.bg_window_tile_data,
            self.bg_tile_map_select,
            self.double_sprite_size,
            self.sprite_enable,
            self.bg_window_priority,
        )
    }

    pub fn from_byte(value: u8) -> (control: LcdControl)
        ensures
            control == LcdControl::written(value),
    {
        LcdControl {
            lcd_enable: is_set(value, 7),
            window_tile_map: is_set(value, 6),
            window_enable: is_set(value, 5),
            bg_window_tile_data: is_set(value, 4),
            bg_tile_map_select: is_set(value, 3),
            double_sprite_size: is_set(value, 2),
            sprite_enable: is_set(value, 1),
            bg_window_priority: is_set(value, 0),
        }
    }

    pub fn to_byte(&self) -> (value: u8)
        ensures
            value == self.register(),
    {
        let mut lcdc: u8 = 0;
        if self.lcd_enable {
            lcdc = lcdc + 128;
        }
        if self.window_tile_map {
            lcdc = lcdc + 64;
        }
        if self.window_enable {
            lcdc = lcdc + 32;
        }
        if self.bg_window_tile_data {
            lcdc = lcdc + 16;
        }
        if self.bg_tile_map_select {
            lcdc = lcdc + 8;
        }
        if self.double_sprite_size {
            lcdc = lcdc + 4;
        }
        if self.sprite_enable {
            lcdc = lcdc + 2;
        }
        if self.bg_window_priority {
            lcdc = lcdc + 1;
        }
        lcdc
    }
}

impl LcdStatus {
    /// The register after a write: only the four interrupt enables are
    /// writable.
    pub open spec fn written(self, value: u8) -> LcdStatus {
        LcdStatus {
            coincidence_interrupt_enabled: bit(value, 6),
            oam_interrupt_enabled: bit(value, 5),
            v_blank_interrupt_enabled: bit(value, 4),
            h_blank_interrupt_enabled: bit(value, 3),
            ..self
        }
    }

    /// The register as it reads: bit 7 set, the four interrupt enables,
    /// the coincidence flag and the mode.
    pub open spec fn register(self) -> u8 {
        (byte_of(
            true,
            self.coincidence_interrupt_enabled,
            self.oam_interrupt_enabled,
            self.v_blank_interrupt_enabled,
            self.h_blank_interrupt_enabled,
            self.coincidence_flag,
            false,
            false,
        ) + self.lcd_mode) as u8
    }

    pub fn write(&mut self, value: u8)
        ensures
            *final(self) == old(self).written(value),
    {
        self.coincidence_interrupt_enabled = is_set(value, 6);
        self.oam_interrupt_enabled = is_set(value, 5);
        self.v_blank_interrupt_enabled = is_set(value, 4);
        self.h_blank_interrupt_enabled = is_set(value, 3);
    }

    pub fn to_byte(&self) -> (value: u8)
        requires
            self.lcd_mode <= 3,
        ensures
            value == self.register(),
    {
        let mut stat: u8 = 0b10000000;  // Unused bit 7 always 1
        if self.coincidence_interrupt_enabled {
            stat = stat + 64;
        }
        if self.oam_interrupt_enabled {
            stat = stat + 32;
        }
        if self.v_blank_interrupt_enabled {
            stat = stat + 16;
        }
        if self.h_blank_interrupt_enabled {
            stat = stat + 8;
        }
        if self.coincidence_flag {
            stat = stat + 4;
        }
        stat + self.lcd_mode
    }
}

impl PaletteSelect {
    /// The index register as it reads: bit 7 the auto-increment, bit 6 set,
    /// the index below.
    pub open spec fn register(self) -> u8 {
        ((if self.auto_increment { 128int } else { 0 }) + 64 + self.index) as u8
    }

    /// The register after a write: bit 7 the auto-increment, the low six
    /// bits the index.
    pub open spec fn written(value: u8) -> PaletteSelect {
        PaletteSelect { index: value % 64, auto_increment: value >= 128 }
    }

    /// The register after an access to the data register: the index moves
    /// on, past 63 to 0, where auto-increment is on.
    pub open spec fn advanced(self) -> PaletteSelect {
        if self.auto_increment {
            PaletteSelect { index: ((self.index + 1) % 64) as u8, ..self }
        } else {
            self
        }
    }
}

impl GpuView {
    /// The position in the line is inside the line.
    pub open spec fn wf(self) -> bool {
        &&& self.sized()
        &&& self.cycle_count <= LINE_END
    }

    /// Sizes and ranges that every operation keeps.
    pub open spec fn sized(self) -> bool {
        &&& self.vram.len() == 2 * 0x2000
        &&& self.oam.len() == 0xA0
        &&& self.sprites.len() <= 10
        &&& self.color_bg_palettes.len() == 0x40
        &&& self.color_obj_palettes.len() == 0x40
        &&& self.color_bg_select.index < 0x40
        &&& self.color_obj_select.index < 0x40
        &&& self.status.lcd_mode <= 3
        &&& self.regs.ly <= 153
        &&& (self.vram_bank_1_selected ==> self.color_mode)
    }

    /// The offset of the selected bank in video RAM.
    pub open spec fn bank_base(self) -> int {
        if self.vram_bank_1_selected {
            0x2000
        } else {
            0
        }
    }

    /// The colour index of a pixel of a tile, decoded from video RAM.
    pub open spec fn tile_pixel(self, bank: int, tile: int, row: int, col: int) -> u8 {
        pixel_index(
            self.vram[tile_row_address(bank, tile, row)],
            self.vram[tile_row_address(bank, tile, row) + 1],
            col,
        )
    }

    /// The control register as it reads.
    pub open spec fn lcdc_control(self) -> u8 {
        self.control.register()
    }

    /// The controller after a write to the control register. Switching the
    /// LCD off puts the line counter back to 0 and the mode to horizontal
    /// blanking.
    pub open spec fn with_lcdc_control(self, value: u8) -> GpuView {
        let control = LcdControl::written(value);
        GpuView {
            control,
            regs: LcdRegisters { ly: if control.lcd_enable { self.regs.ly } else { 0 }, ..self.regs },
            status: LcdStatus {
                lcd_mode: if control.lcd_enable { self.status.lcd_mode } else { H_BLANK_MODE },
                ..self.status
            },
            ..self
        }
    }

    /// The status register as it reads: bit 7 set, the four interrupt
    /// enables, the coincidence flag and the mode.
    pub open spec fn lcdc_status(self) -> u8 {
        self.status.register()
    }

    /// The controller after a write to the status register: only the four
    /// interrupt enables are writable.
    pub open spec fn with_lcdc_status(self, value: u8) -> GpuView {
        GpuView { status: self.status.written(value), ..self }
    }

    pub open spec fn with_color_bg_palette_idx(self, value: u8) -> GpuView {
        GpuView { color_bg_select: PaletteSelect::written(value), ..self }
    }

    /// The controller after a write to the background palette data
    /// register: the byte goes to the indexed place and the index moves on,
    /// past 63 to 0, where auto-increment is on.
    pub open spec fn with_color_bg_palette(self, value: u8) -> GpuView {
        GpuView {
            color_bg_palettes: self.color_bg_palettes.update(
                self.color_bg_select.index as int,
                value,
            ),
            color_bg_select: self.color_bg_select.advanced(),
            ..self
        }
    }

    pub open spec fn with_color_sprite_palette_idx(self, value: u8) -> GpuView {
        GpuView { color_obj_select: PaletteSelect::written(value), ..self }
    }

    /// As for the background palette data register.
    pub open spec fn with_color_sprite_palette(self, value: u8) -> GpuView {
        GpuView {
            color_obj_palettes: self.color_obj_palettes.update(
                self.color_obj_select.index as int,
                value,
            ),
            color_obj_select: self.color_obj_select.advanced(),
            ..self
        }
    }

    /// The bank select register as it reads: bit 0 the bank, the rest set;
    /// all set on a monochrome machine.
    pub open spec fn vram_bank_register(self) -> u8 {
        if self.vram_bank_1_selected || !self.color_mode {
            0b11111111
        } else {
            0b11111110
        }
    }

    /// The controller after a write to the bank select register, which a
    /// monochrome machine ignores.
    pub open spec fn with_vram_bank(self, value: u8) -> GpuView {
        if self.color_mode {
            GpuView { vram_bank_1_selected: value % 2 == 1, ..self }
        } else {
            self
        }
    }

    /// The controller after a write to the selected bank of video RAM.
    pub open spec fn with_vram_byte(self, address: u16, value: u8) -> GpuView {
        GpuView {
            vram: self.vram.update(self.bank_base() + address, value),
            ..self
        }
    }

    /// The byte read from the selected bank of video RAM; 0xFF while the
    /// controller transfers pixels.
    pub open spec fn vram_byte(self, address: u16) -> u8 {
        if self.status.lcd_mode == LCD_TRANSFER_MODE {
            0xFF
        } else {
            self.vram[self.bank_base() + address]
        }
    }

    pub open spec fn with_oam_byte(self, address: u16, value: u8) -> GpuView {
        GpuView { oam: self.oam.update(address as int, value), ..self }
    }
}

proof fn lemma_gpu_masks(value: u8)
    by (bit_vector)
    ensures
        value & 0b00111111 == value % 64,
        (value & 0b10000000 > 0) == (value >= 128),
        (value & 1 > 0) == (value % 2 == 1),
{
}

/// The colour index of a column of a tile row.
pub fn decode_pixel(byte1: u8, byte2: u8, col: u8) -> (index: u8)
    requires
        col < 8,
    ensures
        index == pixel_index(byte1, byte2, col as int),
        index <= 3,
{
    let high: u8 = if is_set(byte2, 7 - col) { 2 } else { 0 };
    let low: u8 = if is_set(byte1, 7 - col) { 1 } else { 0 };
    high + low
}

impl Gpu {
    /// The sizes and ranges hold and the decoded tiles agree with the
    /// video RAM.
    pub open spec fn wf(&self) -> bool {
        &&& self.sized()
        &&& self.cycle_count <= LINE_END
    }

    /// The sizes and ranges hold and the decoded tiles agree with the
    /// video RAM, wherever in the line the controller is.
    pub open spec fn sized(&self) -> bool {
        &&& self@.sized()
        &&& tiles_decoded(self.vram@, self.tile_set@)
    }

    /// A controller with the LCD off, everything cleared, on a colour or a
    /// monochrome machine.
    pub open spec fn initial(color_mode: bool) -> GpuView {
        GpuView {
            vram: Seq::new(0x4000, |i: int| 0u8),
            vram_bank_1_selected: false,
            oam: Seq::new(0xA0, |i: int| 0u8),
            sprites: Seq::empty(),
            control: LcdControl {
                lcd_enable: false,
                window_tile_map: false,
                window_enable: false,
                bg_window_tile_data: false,
                bg_tile_map_select: false,
                double_sprite_size: false,
                sprite_enable: false,
                bg_window_priority: false,
            },
            status: LcdStatus {
                coincidence_interrupt_enabled: false,
                oam_interrupt_enabled: false,
                v_blank_interrupt_enabled: false,
                h_blank_interrupt_enabled: false,
                coincidence_flag: false,
                lcd_mode: 0,
            },
            regs: LcdRegisters {
                scy: 0,
                scx: 0,
                ly: 0,
                lyc: 0,
                wy: 0,
                wx: 0,
                bgp: 0,
                obp0: 0,
                obp1: 0,
            },
            window_internal_line_counter: None,
            color_mode,
            color_bg_select: PaletteSelect { index: 0, auto_increment: false },
            color_bg_palettes: Seq::new(0x40, |i: int| 0u8),
            color_obj_select: PaletteSelect { index: 0, auto_increment: false },
            color_obj_palettes: Seq::new(0x40, |i: int| 0u8),
            cycle_count: 0,
            interrupts: 0,
            frame_complete: false,
        }
    }

    pub fn new(color_mode: bool) -> (made: Result<Gpu, String>)
        ensures
            made is Ok,
            made->Ok_0@ == Gpu::initial(color_mode),
            made->Ok_0.wf(),
    {
        let gpu = Gpu {
            oam: vec![0u8; OAM_SIZE],
            vram: vec![0u8; 2 * VRAM_BANK_SIZE],
            vram_bank_1_selected: false,
            tile_set: vec![0u8; 2 * TILES_PER_BANK * 64],
            sprites: Vec::new(),
            control: LcdControl {
                lcd_enable: false,
                window_tile_map: false,
                window_enable: false,
                bg_window_tile_data: false,
                bg_tile_map_select: false,
                double_sprite_size: false,
                sprite_enable: false,
                bg_window_priority: false,
            },
            status: LcdStatus {
                coincidence_interrupt_enabled: false,
                oam_interrupt_enabled: false,
                v_blank_interrupt_enabled: false,
                h_blank_interrupt_enabled: false,
                coincidence_flag: false,
                lcd_mode: 0,
            },
            regs: LcdRegisters {
                scy: 0,
                scx: 0,
                ly: 0,
                lyc: 0,
                wy: 0,
                wx: 0,
                bgp: 0,
                obp0: 0,
                obp1: 0,
            },
            window_internal_line_counter: None,
            color_mode,
            color_bg_select: PaletteSelect { index: 0, auto_increment: false },
            color_bg_palettes: vec![0u8; PALETTE_RAM_SIZE],
            color_obj_select: PaletteSelect { index: 0, auto_increment: false },
            color_obj_palettes: vec![0u8; PALETTE_RAM_SIZE],
            cycle_count: 0,
            interrupts: 0,
            frame_complete: false,
        };
        proof {
            assert(gpu@.vram =~= Gpu::initial(color_mode).vram);
            assert(gpu@.oam =~= Gpu::initial(color_mode).oam);
            assert(gpu@.sprites =~= Gpu::initial(color_mode).sprites);
            assert(gpu@.color_bg_palettes =~= Gpu::initial(color_mode).color_bg_palettes);
            assert(gpu@.color_obj_palettes =~= Gpu::initial(color_mode).color_obj_palettes);
            reveal(tiles_decoded);
            assert forall|i: int| 0 <= i < 2 * 384 * 64 implies #[trigger] gpu.tile_set@[i]
                == decoded_at(gpu.vram@, i) by {
                let line = i / 8;
                let address = (line / 3072) * 0x2000 + (line % 3072) * 2;
                assert(0 <= address < 0x4000 - 1);
            }
        }
        Ok(gpu)
    }

    pub fn set_lcdc_control(&mut self, value: u8)
        requires
            old(self).wf(),
        ensures
            final(self)@ == old(self)@.with_lcdc_control(value),
            final(self).wf(),
    {
        let control = LcdControl::from_byte(value);
        let line: u8 = if control.lcd_enable { self.regs.ly } else { 0 };
        let mode: u8 = if control.lcd_enable { self.status.lcd_mode } else { H_BLANK_MODE };
        self.control = control;
        self.regs.ly = line;
        self.status.lcd_mode = mode;
    }

    pub fn get_lcdc_control(&self) -> (lcdc: u8)
        ensures
            lcdc == self@.lcdc_control(),
    {
        self.control.to_byte()
    }

    pub fn set_lcdc_status(&mut self, value: u8)
        ensures
            final(self)@ == old(self)@.with_lcdc_status(value),
            old(self).wf() ==> final(self).wf(),
    {
        self.status.write(value);
    }

    pub fn get_lcdc_status(&self) -> (stat: u8)
        requires
            self@.wf(),
        ensures
            stat == self@.lcdc_status(),
    {
        self.status.to_byte()
    }

    pub fn set_scy(&mut self, value: u8)
        ensures
            final(self)@ == (GpuView {
                regs: LcdRegisters { scy: value, ..old(self)@.regs },
                ..old(self)@
            }),
            old(self).wf() ==> final(self).wf(),
    {
        self.regs.scy = value;
    }

    pub fn get_scy(&self) -> (value: u8)
        ensures
            value == self@.regs.scy,
    {
        self.regs.scy
    }

    pub fn set_scx(&mut self, value: u8)
        ensures
            final(self)@ == (GpuView {
                regs: LcdRegisters { scx: value, ..old(self)@.regs },
                ..old(self)@
            }),
            old(self).wf() ==> final(self).wf(),
    {
        self.regs.scx = value;
    }

    pub fn get_scx(&self) -> (value: u8)
        ensures
            value == self@.regs.scx,
    {
        self.regs.scx
    }

    /// The line counter; 0 while the LCD is off.
    pub fn get_ly(&self) -> (value: u8)
        ensures
            value == (if self@.control.lcd_enable { self@.regs.ly } else { 0 }),
    {
        if self.control.lcd_enable {
            self.regs.ly
        } else {
            0
        }
    }

    pub fn set_lyc(&mut self, value: u8)
        ensures
            final(self)@ == (GpuView {
                regs: LcdRegisters { lyc: value, ..old(self)@.regs },
                ..old(self)@
            }),
            old(self).wf() ==> final(self).wf(),
    {
        self.regs.lyc = value;
    }

    pub fn get_lyc(&self) -> (value: u8)
        ensures
            value == self@.regs.lyc,
    {
        self.regs.lyc
    }

    pub fn set_wy(&mut self, value: u8)
        ensures
            final(self)@ == (GpuView {
                regs: LcdRegisters { wy: value, ..old(self)@.regs },
                ..old(self)@
            }),
            old(self).wf() ==> final(self).wf(),
    {
        self.regs.wy = value;
    }

    pub fn get_wy(&self) -> (value: u8)
        ensures
            value == self@.regs.wy,
    {
        self.regs.wy
    }

    pub fn set_wx(&mut self, value: u8)
        ensures
            final(self)@ == (GpuView {
                regs: LcdRegisters { wx: value, ..old(self)@.regs },
                ..old(self)@
            }),
            old(self).wf() ==> final(self).wf(),
    {
        self.regs.wx = value;
    }

    pub fn get_wx(&self) -> (value: u8)
        ensures
            value == self@.regs.wx,
    {
        self.regs.wx
    }

    pub fn set_bgp(&mut self, value: u8)
        ensures
            final(self)@ == (GpuView {
                regs: LcdRegisters { bgp: value, ..old(self)@.regs },
                ..old(self)@
            }),
            old(self).wf() ==> final(self).wf(),
    {
        self.regs.bgp = value;
    }

    pub fn get_bgp(&self) -> (value: u8)
        ensures
            value == self@.regs.bgp,
    {
        self.regs.bgp
    }

    pub fn set_obp0(&mut self, value: u8)
        ensures
            final(self)@ == (GpuView {
                regs: LcdRegisters { obp0: value, ..old(self)@.regs },
                ..old(self)@
            }),
            old(self).wf() ==> final(self).wf(),
    {
        self.regs.obp0 = value;
    }

    pub fn get_obp0(&self) -> (value: u8)
        ensures
            value == self@.regs.obp0,
    {
        self.regs.obp0
    }

    pub fn set_obp1(&mut self, value: u8)
        ensures
            final(self)@ == (GpuView {
                regs: LcdRegisters { obp1: value, ..old(self)@.regs },
                ..old(self)@
            }),
            old(self).wf() ==> final(self).wf(),
    {
        self.regs.obp1 = value;
    }

    pub fn get_obp1(&self) -> (value: u8)
        ensures
            value == self@.regs.obp1,
    {
        self.regs.obp1
    }

    pub fn set_color_bg_palette_idx(&mut self, value: u8)
        ensures
            final(self)@ == old(self)@.with_color_bg_palette_idx(value),
            old(self).wf() ==> final(self).wf(),
    {
        proof {
            lemma_gpu_masks(value);
        }
        self.color_bg_select.index = value & 0b00111111;
        self.color_bg_select.auto_increment = value & 0b10000000 > 0;
    }

    pub fn get_color_bg_palette_idx(&self) -> (value: u8)
        requires
            self@.wf(),
        ensures
            value == self@.color_bg_select.register(),
    {
        let mut val: u8 = 0b01000000 + self.color_bg_select.index;
        if self.color_bg_select.auto_increment {
            val = val + 0b10000000;
        }
        val
    }

    pub fn set_color_bg_palette(&mut self, value: u8)
        requires
            old(self).wf(),
        ensures
            final(self)@ == old(self)@.with_color_bg_palette(value),
            final(self).wf(),
    {
        self.color_bg_palettes[self.color_bg_select.index as usize] = value;
        if self.color_bg_select.auto_increment {
            self.color_bg_select.index = (self.color_bg_select.index + 1) % 0x40;
        }
    }

    pub fn get_color_bg_palette(&self) -> (value: u8)
        requires
            self@.wf(),
        ensures
            value == self@.color_bg_palettes[self@.color_bg_select.index as int],
    {
        self.color_bg_palettes[self.color_bg_select.index as usize]
    }

    pub fn set_color_sprite_palette_idx(&mut self, value: u8)
        ensures
            final(self)@ == old(self)@.with_color_sprite_palette_idx(value),
            old(self).wf() ==> final(self).wf(),
    {
        proof {
            lemma_gpu_masks(value);
        }
        self.color_obj_select.index = value & 0b00111111;
        self.color_obj_select.auto_increment = value & 0b10000000 > 0;
    }

    pub fn get_color_sprite_palette_idx(&self) -> (value: u8)
        requires
            self@.wf(),
        ensures
            value == self@.color_obj_select.register(),
    {
        let mut val: u8 = 0b01000000 + self.color_obj_select.index;
        if self.color_obj_select.auto_increment {
            val = val + 0b10000000;
        }
        val
    }

    pub fn set_color_sprite_palette(&mut self, value: u8)
        requires
            old(self).wf(),
        ensures
            final(self)@ == old(self)@.with_color_sprite_palette(value),
            final(self).wf(),
    {
        self.color_obj_palettes[self.color_obj_select.index as usize] = value;
        if self.color_obj_select.auto_increment {
            self.color_obj_select.index = (self.color_obj_select.index + 1) % 0x40;
        }
    }

    pub fn get_color_sprite_palette(&self) -> (value: u8)
        requires
            self@.wf(),
        ensures
            value == self@.color_obj_palettes[self@.color_obj_select.index as int],
    {
        self.color_obj_palettes[self.color_obj_select.index as usize]
    }

    pub fn select_vram_bank(&mut self, value: u8)
        ensures
            final(self)@ == old(self)@.with_vram_bank(value),
            old(self).wf() ==> final(self).wf(),
    {
        proof {
            lemma_gpu_masks(value);
        }
        if self.color_mode {
            self.vram_bank_1_selected = value & 1 > 0;
        }
    }

    pub fn get_vram_bank(&self) -> (value: u8)
        ensures
            value == self@.vram_bank_register(),
    {
        if self.vram_bank_1_selected || !self.color_mode {
            0b11111111
        } else {
            0b11111110
        }
    }

    /// The decoded colour index of a pixel of a tile.
    pub fn tile_pixel(&self, bank: usize, tile: usize, row: usize, col: usize) -> (index: u8)
        requires
            self.wf(),
            bank < 2,
            tile < 384,
            row < 8,
            col < 8,
        ensures
            index == self@.tile_pixel(bank as int, tile as int, row as int, col as int),
            index <= 3,
    {
        let at: usize = ((bank * TILES_PER_BANK + tile) * 8 + row) * 8 + col;
        proof {
            reveal(tiles_decoded);
            let line = at as int / 8;
            assert(line == (bank * 384 + tile) * 8 + row);
            assert(line / 3072 == bank);
            assert(line % 3072 == tile * 8 + row);
            assert(at as int % 8 == col);
            assert(self.tile_set@[at as int] == decoded_at(self.vram@, at as int));
        }
        self.tile_set[at]
    }

    /// Stores a byte in the selected bank of video RAM and, where it
    /// belongs to a tile, decodes the tile row again.
    pub fn write_to_vram(&mut self, address: u16, value: u8)
        requires
            old(self).wf(),
            address < 0x2000,
        ensures
            final(self)@ == old(self)@.with_vram_byte(address, value),
            final(self).wf(),
    {
        proof {
            reveal(tiles_decoded);
        }
        let vram_bank: usize = if self.vram_bank_1_selected { 1 } else { 0 };
        let written: usize = vram_bank * VRAM_BANK_SIZE + address as usize;
        self.vram[written] = value;
        if address >= TILE_DATA_END {
            proof {
                reveal(tiles_decoded);
                assert forall|i: int| 0 <= i < 2 * 384 * 64 implies #[trigger] self.tile_set@[i]
                    == decoded_at(self.vram@, i) by {
                    let line = i / 8;
                    let a = (line / 3072) * 0x2000 + (line % 3072) * 2;
                    assert(a != written && a + 1 != written);
                    assert(old(self).tile_set@[i] == decoded_at(old(self).vram@, i));
                }
            }
            return ;
        }
        let index: usize = (address - address % 2) as usize;
        let byte1: u8 = self.vram[vram_bank * VRAM_BANK_SIZE + index];
        let byte2: u8 = self.vram[vram_bank * VRAM_BANK_SIZE + index + 1];
        let line: usize = vram_bank * (TILES_PER_BANK * 8) + index / 2;
        let mut pixel: usize = 0;
        while pixel < 8
            invariant
                pixel <= 8,
                line == vram_bank * 3072 + index / 2,
                vram_bank < 2,
                index < 0x1800,
                self.tile_set@.len() == 2 * 384 * 64,
                self@ == old(self)@.with_vram_byte(address, value),
                forall|i: int|
                    0 <= i < 2 * 384 * 64 && i / 8 != line ==> #[trigger] self.tile_set@[i] == old(
                        self,
                    ).tile_set@[i],
                forall|i: int|
                    line * 8 <= i < line * 8 + pixel ==> #[trigger] self.tile_set@[i]
                        == pixel_index(byte1, byte2, i % 8),
            decreases 8 - pixel,
        {
            let color: u8 = decode_pixel(byte1, byte2, pixel as u8);
            self.tile_set[line * 8 + pixel] = color;
            pixel = pixel + 1;
        }
        proof {
            reveal(tiles_decoded);
            assert forall|i: int| 0 <= i < 2 * 384 * 64 implies #[trigger] self.tile_set@[i]
                == decoded_at(self.vram@, i) by {
                let l = i / 8;
                let a = (l / 3072) * 0x2000 + (l % 3072) * 2;
                if l == line {
                    assert(a == vram_bank * 0x2000 + index);
                    assert(line * 8 <= i < line * 8 + 8);
                    assert(self.tile_set@[i] == pixel_index(byte1, byte2, i % 8));
                } else {
                    assert(a != written && a + 1 != written);
                    assert(old(self).tile_set@[i] == decoded_at(old(self).vram@, i));
                }
            }
        }
    }

    pub fn read_from_vram(&self, address: u16) -> (value: u8)
        requires
            self@.wf(),
            address < 0x2000,
        ensures
            value == self@.vram_byte(address),
    {
        if self.status.lcd_mode == LCD_TRANSFER_MODE {
            // cannot access VRAM during LCD Transfer
            return 0xFF;
        }
        let vram_bank: usize = if self.vram_bank_1_selected { 1 } else { 0 };
        self.vram[vram_bank * VRAM_BANK_SIZE + address as usize]
    }

    pub fn write_to_oam(&mut self, address: u16, value: u8)
        requires
            old(self).wf(),
            address < 0xA0,
        ensures
            final(self)@ == old(self)@.with_oam_byte(address, value),
            final(self).wf(),
    {
        self.oam[address as usize] = value;
    }

    pub fn read_from_oam(&self, address: u16) -> (value: u8)
        requires
            self@.wf(),
            address < 0xA0,
        ensures
            value == self@.oam[address as int],
    {
        self.oam[address as usize]
    }
}

/// Entry `n` of the sprite table.
pub open spec fn sprite_at(oam: Seq<u8>, n: int) -> Sprite {
    Sprite { y: oam[4 * n], x: oam[4 * n + 1], tile_number: oam[4 * n + 2], flags: oam[4 * n + 3] }
}

impl GpuView {
    /// The height of a sprite in lines.
    pub open spec fn sprite_height(self) -> int {
        if self.control.double_sprite_size {
            16
        } else {
            8
        }
    }

    /// Whether a sprite is on the current line: its column is not 0 and
    /// the line is one of its own.
    pub open spec fn sprite_on_line(self, sprite: Sprite) -> bool {
        &&& sprite.x != 0
        &&& self.regs.ly + 16 >= sprite.y
        &&& self.regs.ly + 16 < sprite.y + self.sprite_height()
    }

    /// The sprites on the current line among the first `upto` entries of
    /// the sprite table, in table order, no more than ten.
    pub open spec fn visible_sprites(self, upto: int) -> Seq<Sprite>
        decreases upto,
    {
        if upto <= 0 {
            Seq::empty()
        } else {
            let before = self.visible_sprites(upto - 1);
            if before.len() < 10 && self.sprite_on_line(sprite_at(self.oam, upto - 1)) {
                before.push(sprite_at(self.oam, upto - 1))
            } else {
                before
            }
        }
    }

    /// Where in bank 0 of video RAM a tile map keeps the tile number of
    /// cell (`x`, `y`); the attributes lie at the same place in bank 1.
    pub open spec fn map_address(tilemap: bool, x: int, y: int) -> int {
        y * 32 + x + (if tilemap { 0x1C00int } else { 0x1800int })
    }

    /// The attribute byte of the map cell that holds pixel (`px`, `py`) of
    /// a tile map.
    pub open spec fn map_attributes(self, tilemap: bool, px: int, py: int) -> u8 {
        self.vram[0x2000 + Self::map_address(tilemap, px / 8, py / 8)]
    }

    /// The tile that a map cell shows: the tile number itself, or 256 plus
    /// the number read as signed, as the control register says.
    pub open spec fn map_tile(self, tilemap: bool, px: int, py: int) -> int {
        let id = self.vram[Self::map_address(tilemap, px / 8, py / 8)];
        if self.control.bg_window_tile_data {
            id as int
        } else {
            256 + signed(id)
        }
    }

    /// The colour index of pixel (`px`, `py`) of a tile map.
    pub open spec fn map_pixel(self, tilemap: bool, px: int, py: int) -> u8 {
        let bank: int = if bit(self.map_attributes(tilemap, px, py), 3) { 1 } else { 0 };
        self.tile_pixel(bank, self.map_tile(tilemap, px, py), py % 8, px % 8)
    }

    /// Whether the window is drawn at column `x`: it is enabled, it has
    /// started on this frame, and the column is at or right of its start.
    pub open spec fn window_covers(self, x: u8) -> bool {
        &&& self.control.window_enable
        &&& x + 7 >= self.regs.wx
        &&& self.window_internal_line_counter is Some
    }

    /// The colour index and the attributes of the background or window at
    /// a pixel: the window where it covers the column, else the scrolled
    /// background where that is enabled, else index 0.
    pub open spec fn background_index(self, x: u8, y: u8) -> (u8, u8) {
        if self.window_covers(x) {
            let px = x + 7 - self.regs.wx;
            let py = self.window_internal_line_counter->Some_0 as int;
            (
                self.map_pixel(self.control.window_tile_map, px, py),
                self.map_attributes(self.control.window_tile_map, px, py),
            )
        } else if self.control.bg_window_priority {
            let px = (x + self.regs.scx) % 256;
            let py = (y + self.regs.scy) % 256;
            (
                self.map_pixel(self.control.bg_tile_map_select, px, py),
                self.map_attributes(self.control.bg_tile_map_select, px, py),
            )
        } else {
            (0, 0)
        }
    }

    /// The colour of a background or window pixel of index `index` under
    /// palette `palette`.
    pub open spec fn background_color(self, index: u8, palette: u8) -> Color {
        if self.color_mode {
            palette_color(self.color_bg_palettes, palette as int, index as int)
        } else {
            monochrome_color(self.regs.bgp, index)
        }
    }

    /// The column of the pixel inside the sprite, counted from the
    /// sprite's left edge, modulo 256.
    pub open spec fn sprite_column(sprite: Sprite, x: u8) -> int {
        (x - sprite.x + 8) % 256
    }

    /// The line of the pixel inside the sprite, counted from the sprite's
    /// top edge, modulo 256.
    pub open spec fn sprite_line(sprite: Sprite, y: u8) -> int {
        (y - sprite.y + 16) % 256
    }

    /// Whether the sprite covers the pixel.
    pub open spec fn sprite_covers(self, sprite: Sprite, x: u8, y: u8) -> bool {
        Self::sprite_column(sprite, x) < 8 && Self::sprite_line(sprite, y) < self.sprite_height()
    }

    /// The colour index of the sprite at a pixel that it covers, after
    /// mirroring; a sprite of double height takes the upper half from the
    /// tile with the low bit of its number cleared and the lower half from
    /// the one with that bit set.
    pub open spec fn sprite_index(self, sprite: Sprite, x: u8, y: u8) -> u8 {
        let column = Self::sprite_column(sprite, x);
        let line = Self::sprite_line(sprite, y);
        let col = if bit(sprite.flags, 5) { 7 - column } else { column };
        let row = if bit(sprite.flags, 6) { self.sprite_height() - 1 - line } else { line };
        let bank: int = if self.color_mode && bit(sprite.flags, 3) { 1 } else { 0 };
        let even = sprite.tile_number - sprite.tile_number % 2;
        let tile = if !self.control.double_sprite_size {
            sprite.tile_number as int
        } else if row < 8 {
            even
        } else {
            even + 1
        };
        self.tile_pixel(bank, tile, row % 8, col)
    }

    /// Whether the sprite gives the pixel its colour: it covers the pixel,
    /// its colour index there is not 0, and it is in front of the
    /// background or the background index is 0.
    pub open spec fn sprite_shows(self, sprite: Sprite, x: u8, y: u8, background: u8) -> bool {
        &&& self.sprite_covers(sprite, x, y)
        &&& self.sprite_index(sprite, x, y) != 0
        &&& (!bit(sprite.flags, 7) || background == 0)
    }

    /// The colour of a sprite pixel of index `index`.
    pub open spec fn sprite_color(self, sprite: Sprite, index: u8) -> Color {
        if self.color_mode {
            palette_color(self.color_obj_palettes, sprite.flags as int % 8, index as int)
        } else {
            monochrome_color(
                if bit(sprite.flags, 4) { self.regs.obp1 } else { self.regs.obp0 },
                index,
            )
        }
    }

    /// The colour that the first sprite of the line's list from place
    /// `from` on that shows at the pixel gives it, if any does.
    pub open spec fn sprite_color_from(self, from: int, x: u8, y: u8, background: u8) -> Option<
        Color,
    >
        decreases self.sprites.len() - from,
    {
        if from < 0 || from >= self.sprites.len() {
            None
        } else if self.sprite_shows(self.sprites[from], x, y, background) {
            Some(
                self.sprite_color(self.sprites[from], self.sprite_index(self.sprites[from], x, y)),
            )
        } else {
            self.sprite_color_from(from + 1, x, y, background)
        }
    }

    /// The colour of a pixel of the screen: that of the first sprite that
    /// shows there, where sprites are enabled and one does, else that of
    /// the background or window.
    pub open spec fn pixel_color(self, x: u8, y: u8) -> Color {
        let ground = self.background_index(x, y);
        let sprite = if self.control.sprite_enable {
            self.sprite_color_from(0, x, y, ground.0)
        } else {
            None
        };
        match sprite {
            Some(color) => color,
            None => self.background_color(ground.0, ground.1 % 8),
        }
    }

    /// The line counter of the window after the start of a pixel transfer:
    /// armed with 0 on the line of the window's Y register, counted up on
    /// later lines while the window is enabled and on the screen.
    pub open spec fn next_window_line(self) -> Option<u8> {
        if self.control.window_enable && self.regs.ly == self.regs.wy
            && self.window_internal_line_counter is None {
            Some(0u8)
        } else if self.control.window_enable && self.regs.wx < 167
            && self.window_internal_line_counter is Some {
            Some(((self.window_internal_line_counter->Some_0 + 1) % 256) as u8)
        } else {
            self.window_internal_line_counter
        }
    }

    /// Entering the sprite search: the list of the line's sprites is made,
    /// and the status interrupt is raised where the search interrupt is
    /// enabled or the enabled coincidence of line and compare value holds.
    pub open spec fn enter_oam_search(self) -> GpuView {
        let coincidence = self.status.coincidence_interrupt_enabled && self.regs.lyc
            == self.regs.ly;
        let first = if self.status.oam_interrupt_enabled {
            self.interrupts | STAT_INTERRUPT
        } else {
            self.interrupts
        };
        GpuView {
            sprites: self.visible_sprites(40),
            status: LcdStatus {
                lcd_mode: OAM_SEARCH_MODE,
                coincidence_flag: self.status.coincidence_flag || coincidence,
                ..self.status
            },
            interrupts: if coincidence { first | STAT_INTERRUPT } else { first },
            ..self
        }
    }

    /// Entering the pixel transfer: the window's line counter moves and
    /// the line is to be shown.
    pub open spec fn enter_transfer(self) -> (GpuView, GpuEvent) {
        (
            GpuView {
                status: LcdStatus { lcd_mode: LCD_TRANSFER_MODE, ..self.status },
                window_internal_line_counter: self.next_window_line(),
                ..self
            },
            GpuEvent::Scanline,
        )
    }

    /// Entering the horizontal blanking.
    pub open spec fn enter_h_blank(self) -> GpuView {
        GpuView {
            status: LcdStatus { lcd_mode: H_BLANK_MODE, ..self.status },
            interrupts: if self.status.h_blank_interrupt_enabled {
                self.interrupts | STAT_INTERRUPT
            } else {
                self.interrupts
            },
            ..self
        }
    }

    /// Entering the vertical blanking: the interrupt is raised, the
    /// window's line counter is dropped, and the frame is to be presented.
    pub open spec fn enter_v_blank(self) -> (GpuView, GpuEvent) {
        (
            GpuView {
                status: LcdStatus { lcd_mode: V_BLANK_MODE, ..self.status },
                interrupts: self.interrupts | V_BLANK_INTERRUPT,
                window_internal_line_counter: None,
                ..self
            },
            GpuEvent::Frame,
        )
    }

    /// The start of the next line; after the last line of the frame, the
    /// start of line 0 with the frame marked complete.
    pub open spec fn next_line(self) -> GpuView {
        if self.regs.ly >= LAST_LINE {
            GpuView {
                regs: LcdRegisters { ly: 0, ..self.regs },
                cycle_count: 0,
                frame_complete: true,
                ..self
            }
        } else {
            GpuView {
                regs: LcdRegisters { ly: (self.regs.ly + 1) as u8, ..self.regs },
                cycle_count: 0,
                ..self
            }
        }
    }

    /// A step on a visible line, the cycles of the step already added:
    /// the position selects the mode (sprite search up to cycle 80, pixel
    /// transfer up to 252, horizontal blanking up to 456) and a change of
    /// mode has its effect; past 456 the next line starts.
    pub open spec fn visible_line(self) -> (GpuView, GpuEvent) {
        if self.cycle_count <= OAM_SEARCH_END {
            if self.status.lcd_mode != OAM_SEARCH_MODE {
                (self.enter_oam_search(), GpuEvent::Idle)
            } else {
                (self, GpuEvent::Idle)
            }
        } else if self.cycle_count <= LCD_TRANSFER_END {
            if self.status.lcd_mode != LCD_TRANSFER_MODE {
                self.enter_transfer()
            } else {
                (self, GpuEvent::Idle)
            }
        } else if self.cycle_count <= LINE_END {
            if self.status.lcd_mode != H_BLANK_MODE {
                (self.enter_h_blank(), GpuEvent::Idle)
            } else {
                (self, GpuEvent::Idle)
            }
        } else {
            (self.next_line(), GpuEvent::Idle)
        }
    }

    /// A step on one of the lines 144 to 153, the cycles of the step
    /// already added: the vertical blanking is entered once, and past cycle
    /// 456 the next line starts.
    pub open spec fn blanking_line(self) -> (GpuView, GpuEvent) {
        let entered = if self.status.lcd_mode != V_BLANK_MODE {
            self.enter_v_blank()
        } else {
            (self, GpuEvent::Idle)
        };
        if self.cycle_count > LINE_END {
            (entered.0.next_line(), entered.1)
        } else {
            entered
        }
    }

    /// The controller after `cycles` clock cycles, and what it asks of the
    /// presentation layer. With the LCD off nothing happens. Else the
    /// cycles add to the position in the line, and the step is that of a
    /// visible line or of a line of the vertical blanking.
    pub open spec fn advanced(self, cycles: u8) -> (GpuView, GpuEvent) {
        let at = GpuView { cycle_count: (self.cycle_count + cycles) as u16, ..self };
        if !self.control.lcd_enable {
            (self, GpuEvent::Idle)
        } else if self.regs.ly < SCREEN_HEIGHT {
            at.visible_line()
        } else {
            at.blanking_line()
        }
    }

    /// The colours of the current line, column by column.
    pub open spec fn scanline(self) -> Seq<Color> {
        Seq::new(SCREEN_WIDTH as nat, |x: int| self.pixel_color(x as u8, self.regs.ly))
    }
}

/// The shade of a colour index under a monochrome palette byte.
pub fn monochrome(palette: u8, index: u8) -> (color: Color)
    requires
        index <= 3,
    ensures
        color == monochrome_color(palette, index),
{
    let field: u8 = if index == 0 {
        palette
    } else if index == 1 {
        palette / 4
    } else if index == 2 {
        palette / 16
    } else {
        palette / 64
    };
    let number: u8 = field % 4;
    if number == 0 {
        Color::rgb(0xE6, 0xFF, 0xE6)
    } else if number == 1 {
        Color::rgb(0x70, 0xDB, 0x70)
    } else if number == 2 {
        Color::rgb(0x40, 0x80, 0x00)
    } else {
        Color::rgb(0x00, 0x00, 0x00)
    }
}

fn to_8_bit_color(c: u16) -> (wide: u8)
    requires
        c < 32,
    ensures
        wide == expand_channel(c as int),
{
    (c * 8 + c / 4) as u8
}

/// The colour of a colour index under a palette of colour palette RAM.
pub fn color_from_palette(palettes: &Vec<u8>, palette: u8, index: u8) -> (color: Color)
    requires
        palettes@.len() == 0x40,
        palette < 8,
        index <= 3,
    ensures
        color == palette_color(palettes@, palette as int, index as int),
{
    let at: usize = (palette as usize) * 8 + (index as usize) * 2;
    let b0: u8 = palettes[at];
    let b1: u8 = palettes[at + 1];
    let color_bytes: u16 = (b1 as u16) * 256 + (b0 as u16);
    Color::rgb(
        to_8_bit_color(color_bytes % 32),
        to_8_bit_color((color_bytes / 32) % 32),
        to_8_bit_color((color_bytes / 1024) % 32),
    )
}

/// A screen coordinate moved by a scroll register, modulo 256.
fn scrolled(pixel: u8, scroll: u8) -> (moved: u8)
    ensures
        moved == (pixel + scroll) % 256,
{
    pixel.wrapping_add(scroll)
}

/// How far a screen coordinate lies past the edge of a sprite whose
/// position register holds `origin` and whose edge is `shift` before that,
/// modulo 256.
fn offset_in_sprite(pixel: u8, origin: u8, shift: u8) -> (offset: u8)
    requires
        shift <= 16,
    ensures
        offset == (pixel - origin + shift) % 256,
{
    pixel.wrapping_sub(origin).wrapping_add(shift)
}

impl Gpu {
    fn get_sprite(&self, n: u8) -> (sprite: Sprite)
        requires
            self@.sized(),
            n < 40,
        ensures
            sprite == sprite_at(self@.oam, n as int),
    {
        let idx: usize = n as usize * 4;
        Sprite {
            y: self.oam[idx],
            x: self.oam[idx + 1],
            tile_number: self.oam[idx + 2],
            flags: self.oam[idx + 3],
        }
    }

    fn get_sprites_for_current_scanline(&mut self)
        requires
            old(self).sized(),
        ensures
            final(self)@ == (GpuView { sprites: old(self)@.visible_sprites(40), ..old(self)@ }),
            final(self).sized(),
    {
        let mut found: Vec<Sprite> = Vec::new();
        let line: u16 = self.regs.ly as u16 + 16;
        let height: u16 = if self.control.double_sprite_size { 16 } else { 8 };
        let mut i: u8 = 0;
        while i < 40
            invariant
                i <= 40,
                self.sized(),
                self@ == old(self)@,
                line == self@.regs.ly + 16,
                height == self@.sprite_height(),
                found@ == self@.visible_sprites(i as int),
                found@.len() <= 10,
            decreases 40 - i,
        {
            let sprite = self.get_sprite(i);
            if found.len() < MAX_SPRITES_PER_LINE && sprite.x != 0 && line >= sprite.y as u16 && line
                < sprite.y as u16 + height {
                found.push(sprite);
            }
            i = i + 1;
        }
        self.sprites = found;
    }

    /// The colour index and the attribute byte of a pixel of a tile map.
    fn get_tile_at(&self, tilemap: bool, px: u8, py: u8) -> (found: (u8, u8))
        requires
            self.wf(),
        ensures
            found.0 == self@.map_pixel(tilemap, px as int, py as int),
            found.1 == self@.map_attributes(tilemap, px as int, py as int),
            found.0 <= 3,
    {
        let address: usize = (py / 8) as usize * 32 + (px / 8) as usize + if tilemap {
            0x1C00
        } else {
            0x1800
        };
        let tile_id: u8 = self.vram[address];
        let tile_attributes: u8 = self.vram[VRAM_BANK_SIZE + address];
        let tile_vram_bank: usize = if is_set(tile_attributes, 3) { 1 } else { 0 };
        let tile: usize = if self.control.bg_window_tile_data {
            tile_id as usize
        } else if tile_id >= 128 {
            tile_id as usize
        } else {
            0x100 + tile_id as usize
        };
        (
            self.tile_pixel(tile_vram_bank, tile, (py % 8) as usize, (px % 8) as usize),
            tile_attributes,
        )
    }

    fn get_bg_color(&self, value: u8, palette_num: u8) -> (color: Color)
        requires
            self@.wf(),
            value <= 3,
            palette_num < 8,
        ensures
            color == self@.background_color(value, palette_num),
    {
        if self.color_mode {
            color_from_palette(&self.color_bg_palettes, palette_num, value)
        } else {
            monochrome(self.regs.bgp, value)
        }
    }

    fn get_sprite_color(&self, sprite: &Sprite, value: u8) -> (color: Color)
        requires
            self@.wf(),
            value <= 3,
        ensures
            color == self@.sprite_color(*sprite, value),
    {
        if self.color_mode {
            color_from_palette(&self.color_obj_palettes, sprite.flags % 8, value)
        } else {
            let palette: u8 = if is_set(sprite.flags, SPRITE_PALETTE_NUM) {
                self.regs.obp1
            } else {
                self.regs.obp0
            };
            monochrome(palette, value)
        }
    }

    /// The colour index of a sprite at a pixel, where the sprite covers it.
    fn get_sprite_pixel(&self, sprite: &Sprite, pixel_x: u8, pixel_y: u8) -> (found: Option<u8>)
        requires
            self.wf(),
        ensures
            found is Some <==> self@.sprite_covers(*sprite, pixel_x, pixel_y),
            found is Some ==> found->Some_0 == self@.sprite_index(*sprite, pixel_x, pixel_y)
                && found->Some_0 <= 3,
    {
        let sprite_x: u8 = offset_in_sprite(pixel_x, sprite.x, 8);
        let sprite_y: u8 = offset_in_sprite(pixel_y, sprite.y, 16);
        let height: u8 = if self.control.double_sprite_size { 16 } else { 8 };
        if sprite_x >= 8 || sprite_y >= height {
            return None;
        }
        let col: u8 = if is_set(sprite.flags, SPRITE_X_FLIP) { 7 - sprite_x } else { sprite_x };
        let row: u8 = if is_set(sprite.flags, SPRITE_Y_FLIP) {
            height - 1 - sprite_y
        } else {
            sprite_y
        };
        let tile_vram_bank: usize = if self.color_mode && is_set(sprite.flags, SPRITE_VRAM_BANK) {
            1
        } else {
            0
        };
        // In 8x16 mode the low bit of the tile number is ignored: the upper
        // tile is the even one, the lower tile the odd one.
        let even: u8 = sprite.tile_number - sprite.tile_number % 2;
        let tile: u8 = if !self.control.double_sprite_size {
            sprite.tile_number
        } else if row < 8 {
            even
        } else {
            even + 1
        };
        Some(self.tile_pixel(tile_vram_bank, tile as usize, (row % 8) as usize, col as usize))
    }

    /// The colour index and the attributes of the background or window at
    /// a pixel.
    fn get_background(&self, pixel_x: u8, pixel_y: u8) -> (ground: (u8, u8))
        requires
            self.wf(),
            pixel_x < SCREEN_WIDTH,
        ensures
            ground == self@.background_index(pixel_x, pixel_y),
            ground.0 <= 3,
    {
        if self.control.window_enable && pixel_x + WINDOW_X_SHIFT >= self.regs.wx
            && self.window_internal_line_counter.is_some() {
            let window_x: u8 = (pixel_x + WINDOW_X_SHIFT) - self.regs.wx;
            let window_y: u8 = self.window_internal_line_counter.unwrap();
            self.get_tile_at(self.control.window_tile_map, window_x, window_y)
        } else if self.control.bg_window_priority {
            let scrolled_x: u8 = scrolled(pixel_x, self.regs.scx);
            let scrolled_y: u8 = scrolled(pixel_y, self.regs.scy);
            self.get_tile_at(self.control.bg_tile_map_select, scrolled_x, scrolled_y)
        } else {
            (0, 0)
        }
    }

    /// The colour that the first sprite of the line's list that shows at
    /// the pixel gives it.
    fn get_sprite_color_at(&self, pixel_x: u8, pixel_y: u8, background: u8) -> (shown: Option<
        Color,
    >)
        requires
            self.wf(),
        ensures
            shown == self@.sprite_color_from(0, pixel_x, pixel_y, background),
    {
        let mut i: usize = 0;
        while i < self.sprites.len()
            invariant
                self.wf(),
                i <= self.sprites@.len(),
                self@.sprite_color_from(0, pixel_x, pixel_y, background)
                    == self@.sprite_color_from(i as int, pixel_x, pixel_y, background),
            decreases self.sprites@.len() - i,
        {
            let sprite: &Sprite = &self.sprites[i];
            let in_front: bool = !is_set(sprite.flags, SPRITE_OBJ_TO_BG_PRIORITY) || background
                == 0;
            match self.get_sprite_pixel(sprite, pixel_x, pixel_y) {
                Some(value) => {
                    if value != 0 && in_front {
                        assert(self@.sprite_shows(*sprite, pixel_x, pixel_y, background));
                        return Some(self.get_sprite_color(sprite, value));
                    }
                },
                None => {},
            }
            assert(!self@.sprite_shows(self@.sprites[i as int], pixel_x, pixel_y, background));
            i = i + 1;
        }
        None
    }

    /// The colour of a pixel of the screen.
    pub fn get_color(&self, pixel_x: u8, pixel_y: u8) -> (color: Color)
        requires
            self.wf(),
            pixel_x < SCREEN_WIDTH,
        ensures
            color == self@.pixel_color(pixel_x, pixel_y),
    {
        let (bg_or_win_color, bg_attributes): (u8, u8) = self.get_background(pixel_x, pixel_y);
        if self.control.sprite_enable {
            match self.get_sprite_color_at(pixel_x, pixel_y, bg_or_win_color) {
                Some(color) => {
                    return color;
                },
                None => {},
            }
        }
        self.get_bg_color(bg_or_win_color, bg_attributes % 8)
    }

    /// The colours of the current line.
    pub fn draw_scanline(&self) -> (buffer: [Color; 160])
        requires
            self.wf(),
        ensures
            buffer@ == self@.scanline(),
    {
        let pixel_y: u8 = self.regs.ly;
        let mut buffer: [Color; 160] = [Color { r: 0, g: 0, b: 0 };160];
        let mut pixel_x: u8 = 0;
        while pixel_x < SCREEN_WIDTH
            invariant
                self.wf(),
                pixel_y == self@.regs.ly,
                pixel_x <= SCREEN_WIDTH,
                buffer@.len() == 160,
                forall|x: int|
                    0 <= x < pixel_x ==> buffer@[x] == self@.pixel_color(x as u8, pixel_y),
            decreases SCREEN_WIDTH - pixel_x,
        {
            let color = self.get_color(pixel_x, pixel_y);
            buffer[pixel_x as usize] = color;
            pixel_x = pixel_x + 1;
        }
        assert(buffer@ =~= self@.scanline());
        buffer
    }

    fn enter_oam_search(&mut self)
        requires
            old(self).sized(),
        ensures
            final(self)@ == old(self)@.enter_oam_search(),
            final(self).sized(),
    {
        self.get_sprites_for_current_scanline();
        let coincidence: bool = self.status.coincidence_interrupt_enabled && self.regs.lyc
            == self.regs.ly;
        let first: u8 = if self.status.oam_interrupt_enabled {
            self.interrupts | STAT_INTERRUPT
        } else {
            self.interrupts
        };
        let second: u8 = if coincidence { first | STAT_INTERRUPT } else { first };
        let flag: bool = self.status.coincidence_flag || coincidence;
        self.status.lcd_mode = OAM_SEARCH_MODE;
        self.status.coincidence_flag = flag;
        self.interrupts = second;
    }

    fn enter_transfer(&mut self) -> (event: GpuEvent)
        requires
            old(self).sized(),
        ensures
            (final(self)@, event) == old(self)@.enter_transfer(),
            final(self).sized(),
    {
        let line: Option<u8> = if self.control.window_enable && self.regs.ly == self.regs.wy
            && self.window_internal_line_counter.is_none() {
            Some(0u8)
        } else if self.control.window_enable && self.regs.wx < SCREEN_WIDTH + WINDOW_X_SHIFT
            && self.window_internal_line_counter.is_some() {
            Some(self.window_internal_line_counter.unwrap().wrapping_add(1))
        } else {
            self.window_internal_line_counter
        };
        assert(line == self@.next_window_line());
        self.status.lcd_mode = LCD_TRANSFER_MODE;
        self.window_internal_line_counter = line;
        GpuEvent::Scanline
    }

    fn enter_h_blank(&mut self)
        requires
            old(self).sized(),
        ensures
            final(self)@ == old(self)@.enter_h_blank(),
            final(self).sized(),
    {
        let raised: u8 = if self.status.h_blank_interrupt_enabled {
            self.interrupts | STAT_INTERRUPT
        } else {
            self.interrupts
        };
        self.status.lcd_mode = H_BLANK_MODE;
        self.interrupts = raised;
    }

    fn enter_v_blank(&mut self) -> (event: GpuEvent)
        requires
            old(self).sized(),
        ensures
            (final(self)@, event) == old(self)@.enter_v_blank(),
            final(self).sized(),
    {
        self.status.lcd_mode = V_BLANK_MODE;
        self.interrupts = self.interrupts | V_BLANK_INTERRUPT;
        self.window_internal_line_counter = None;
        GpuEvent::Frame
    }

    fn next_line(&mut self)
        requires
            old(self).sized(),
        ensures
            final(self)@ == old(self)@.next_line(),
            final(self).wf(),
    {
        let last: bool = self.regs.ly >= LAST_LINE;
        let line: u8 = if last { 0 } else { self.regs.ly + 1 };
        let complete: bool = self.frame_complete || last;
        self.cycle_count = 0;
        self.regs.ly = line;
        self.frame_complete = complete;
    }

    fn visible_line(&mut self) -> (event: GpuEvent)
        requires
            old(self).sized(),
        ensures
            (final(self)@, event) == old(self)@.visible_line(),
            final(self).wf(),
    {
        if self.cycle_count <= OAM_SEARCH_END {
            if self.status.lcd_mode != OAM_SEARCH_MODE {
                self.enter_oam_search();
            }
            GpuEvent::Idle
        } else if self.cycle_count <= LCD_TRANSFER_END {
            if self.status.lcd_mode != LCD_TRANSFER_MODE {
                self.enter_transfer()
            } else {
                GpuEvent::Idle
            }
        } else if self.cycle_count <= LINE_END {
            if self.status.lcd_mode != H_BLANK_MODE {
                self.enter_h_blank();
            }
            GpuEvent::Idle
        } else {
            self.next_line();
            GpuEvent::Idle
        }
    }

    fn blanking_line(&mut self) -> (event: GpuEvent)
        requires
            old(self).sized(),
        ensures
            (final(self)@, event) == old(self)@.blanking_line(),
            final(self).wf(),
    {
        let event = if self.status.lcd_mode != V_BLANK_MODE {
            self.enter_v_blank()
        } else {
            GpuEvent::Idle
        };
        if self.cycle_count > LINE_END {
            self.next_line();
        }
        event
    }

    /// Moves the controller on by `cycles` clock cycles and says what the
    /// presentation layer is to do.
    pub fn advance(&mut self, cycles: u8) -> (event: GpuEvent)
        requires
            old(self).wf(),
        ensures
            (final(self)@, event) == old(self)@.advanced(cycles),
            final(self).wf(),
    {
        if !self.control.lcd_enable {
            return GpuEvent::Idle;
        }
        self.cycle_count = self.cycle_count + cycles as u16;
        if self.regs.ly < SCREEN_HEIGHT {
            self.visible_line()
        } else {
            self.blanking_line()
        }
    }

    /// Moves the controller on by `cycles` clock cycles; hands the line to
    /// `display` when its pixel transfer starts and has the frame presented
    /// when the vertical blanking starts.
    pub fn gpu_step<D: Display>(&mut self, display: &mut D, cycles: u8)
        requires
            old(self).wf(),
        ensures
            final(self)@ == old(self)@.advanced(cycles).0,
            final(self).wf(),
    {
        match self.advance(cycles) {
            GpuEvent::Scanline => {
                let buffer = self.draw_scanline();
                display.update_line_from_buffer(buffer, self.regs.ly);
            },
            GpuEvent::Frame => {
                display.render_frame();
            },
            GpuEvent::Idle => {},
        }
    }
}

impl GpuView {
    /// The controller after a run of steps, each of the given number of
    /// cycles.
    pub open spec fn run(self, steps: Seq<u8>) -> GpuView
        decreases steps.len(),
    {
        if steps.len() == 0 {
            self
        } else {
            self.run(steps.drop_last()).advanced(steps.last()).0
        }
    }
}

/// The cycles of a run of steps, added up.
pub open spec fn total_cycles(steps: Seq<u8>) -> int
    decreases steps.len(),
{
    if steps.len() == 0 {
        0
    } else {
        total_cycles(steps.drop_last()) + steps.last()
    }
}

/// With the LCD off a step changes nothing and asks nothing of the
/// presentation layer, and so does any run of steps.
pub proof fn lemma_lcd_off_is_inert(gpu: GpuView, steps: Seq<u8>)
    requires
        !gpu.control.lcd_enable,
    ensures
        forall|cycles: u8| #[trigger] gpu.advanced(cycles) == (gpu, GpuEvent::Idle),
        gpu.run(steps) == gpu,
    decreases steps.len(),
{
    if steps.len() > 0 {
        lemma_lcd_off_is_inert(gpu, steps.drop_last());
    }
}

/// The list of a line's sprites never holds more than ten.
pub proof fn lemma_visible_sprites_bound(gpu: GpuView, upto: int)
    ensures
        gpu.visible_sprites(upto).len() <= 10,
    decreases upto,
{
    if upto > 0 {
        lemma_visible_sprites_bound(gpu, upto - 1);
    }
}

/// Whether `after` is `before` moved on in its line by `cycles` or at the
/// start of the next line: the line counter stays or goes to the next
/// line; the frame is marked complete exactly when the counter goes from
/// the last line to line 0; and a line is left only when the cycles spent
/// in it exceed 456.
pub open spec fn moved_on(before: GpuView, after: GpuView, cycles: int) -> bool {
    ||| {
        &&& after.regs.ly == before.regs.ly
        &&& after.frame_complete == before.frame_complete
        &&& after.cycle_count == before.cycle_count + cycles
    }
    ||| {
        &&& before.cycle_count + cycles > LINE_END
        &&& after.cycle_count == 0
        &&& before.regs.ly < LAST_LINE
        &&& after.regs.ly == before.regs.ly + 1
        &&& after.frame_complete == before.frame_complete
    }
    ||| {
        &&& before.cycle_count + cycles > LINE_END
        &&& after.cycle_count == 0
        &&& before.regs.ly == LAST_LINE
        &&& after.regs.ly == 0
        &&& after.frame_complete
    }
}

proof fn lemma_visible_line_moves_on(gpu: GpuView, at: GpuView, cycles: u8)
    requires
        gpu.wf(),
        at == (GpuView { cycle_count: (gpu.cycle_count + cycles) as u16, ..gpu }),
        gpu.regs.ly < SCREEN_HEIGHT,
    ensures
        at.visible_line().0.wf(),
        at.visible_line().0.control == gpu.control,
        moved_on(gpu, at.visible_line().0, cycles as int),
{
    lemma_visible_sprites_bound(at, 40);
    if at.cycle_count <= OAM_SEARCH_END {
        assert(at.enter_oam_search().regs == gpu.regs);
    } else if at.cycle_count <= LCD_TRANSFER_END {
        assert(at.enter_transfer().0.regs == gpu.regs);
    } else if at.cycle_count <= LINE_END {
        assert(at.enter_h_blank().regs == gpu.regs);
    } else {
        assert(at.next_line().regs.ly == gpu.regs.ly + 1);
    }
}

proof fn lemma_blanking_line_moves_on(gpu: GpuView, at: GpuView, cycles: u8)
    requires
        gpu.wf(),
        at == (GpuView { cycle_count: (gpu.cycle_count + cycles) as u16, ..gpu }),
        gpu.regs.ly >= SCREEN_HEIGHT,
    ensures
        at.blanking_line().0.wf(),
        at.blanking_line().0.control == gpu.control,
        moved_on(gpu, at.blanking_line().0, cycles as int),
{
    let entered = if at.status.lcd_mode != V_BLANK_MODE {
        at.enter_v_blank().0
    } else {
        at
    };
    assert(entered.regs == gpu.regs);
    assert(entered.cycle_count == at.cycle_count);
    assert(entered.frame_complete == gpu.frame_complete);
}

/// A step with the LCD on moves the controller on in its line or to the
/// start of the next line, and never touches the control register; with
/// the LCD off it leaves the controller as it is.
pub proof fn lemma_line_by_line(gpu: GpuView, cycles: u8)
    requires
        gpu.wf(),
    ensures
        gpu.advanced(cycles).0.wf(),
        gpu.advanced(cycles).0.control == gpu.control,
        gpu.control.lcd_enable ==> moved_on(gpu, gpu.advanced(cycles).0, cycles as int),
        !gpu.control.lcd_enable ==> gpu.advanced(cycles).0 == gpu,
{
    let at = GpuView { cycle_count: (gpu.cycle_count + cycles) as u16, ..gpu };
    if gpu.control.lcd_enable {
        if gpu.regs.ly < SCREEN_HEIGHT {
            lemma_visible_line_moves_on(gpu, at, cycles);
        } else {
            lemma_blanking_line_moves_on(gpu, at, cycles);
        }
    }
}

/// From the start of line 0 with the LCD on, a frame is complete only
/// after the line counter went through all 154 lines, each of which takes
/// more than 456 cycles: the steps up to there add up to at least 70224
/// cycles. Before that, the cycles spent are at least those of the lines
/// passed and of the part of the current line.
pub proof fn lemma_frame_takes_its_cycles(gpu: GpuView, steps: Seq<u8>)
    requires
        gpu.wf(),
        gpu.control.lcd_enable,
        gpu.regs.ly == 0,
        gpu.cycle_count == 0,
        !gpu.frame_complete,
    ensures
        gpu.run(steps).wf(),
        gpu.run(steps).frame_complete ==> total_cycles(steps) >= 70224,
        !gpu.run(steps).frame_complete ==> total_cycles(steps) >= gpu.run(steps).regs.ly * 457
            + gpu.run(steps).cycle_count,
    decreases steps.len(),
{
    if steps.len() > 0 {
        lemma_frame_takes_its_cycles(gpu, steps.drop_last());
        lemma_line_by_line(gpu.run(steps.drop_last()), steps.last());
        lemma_runs_keep_control(gpu, steps.drop_last());
    }
}

/// No run of steps changes the control register.
pub proof fn lemma_runs_keep_control(gpu: GpuView, steps: Seq<u8>)
    requires
        gpu.wf(),
    ensures
        gpu.run(steps).wf(),
        gpu.run(steps).control == gpu.control,
    decreases steps.len(),
{
    if steps.len() > 0 {
        lemma_runs_keep_control(gpu, steps.drop_last());
        lemma_line_by_line(gpu.run(steps.drop_last()), steps.last());
    }
}

/// The two bitplane bytes of a tile row, written to video RAM, read back
/// as the decoded row: the colour index of column `col` has bit `7 - col`
/// of the first byte as its low bit and bit `7 - col` of the second byte
/// as its high bit.
pub proof fn lemma_tile_row_roundtrip(
    gpu: GpuView,
    tile: int,
    row: int,
    col: int,
    byte1: u8,
    byte2: u8,
)
    requires
        gpu.wf(),
        0 <= tile < 384,
        0 <= row < 8,
        0 <= col < 8,
    ensures
        ({
            let address = (tile * 16 + row * 2) as u16;
            let bank: int = if gpu.vram_bank_1_selected { 1 } else { 0 };
            let written = gpu.with_vram_byte(address, byte1).with_vram_byte(
                (address + 1) as u16,
                byte2,
            );
            &&& written.tile_pixel(bank, tile, row, col) == pixel_index(byte1, byte2, col)
            &&& written.tile_pixel(bank, tile, row, col) == (if bit(byte2, 7 - col) {
                2int
            } else {
                0int
            }) + (if bit(byte1, 7 - col) { 1int } else { 0int })
        }),
{
}

/// The control register reads back what was written to it.
pub proof fn lemma_control_reads_back(gpu: GpuView, value: u8)
    ensures
        gpu.with_lcdc_control(value).lcdc_control() == value,
{
    lemma_byte_of_bits(value);
}

/// Of the status register only the four interrupt enables are writable:
/// the coincidence flag and the mode stay, and bit 7 reads as set.
pub proof fn lemma_status_keeps_mode(gpu: GpuView, value: u8)
    ensures
        gpu.with_lcdc_status(value).status.lcd_mode == gpu.status.lcd_mode,
        gpu.with_lcdc_status(value).status.coincidence_flag == gpu.status.coincidence_flag,
        gpu.status.lcd_mode <= 3 ==> gpu.with_lcdc_status(value).lcdc_status() >= 128,
{
}

/// With the LCD on, a step moves a controller that is inside a line of
/// the frame on in that line or to the start of the next line, keeps it
/// inside the frame, and leaves the LCD on.
pub proof fn lemma_place_moves_on(gpu: GpuView, cycles: u8)
    requires
        gpu.control.lcd_enable,
        gpu.regs.ly <= LAST_LINE,
        gpu.cycle_count <= LINE_END,
    ensures
        moved_on(gpu, gpu.advanced(cycles).0, cycles as int),
        gpu.advanced(cycles).0.control == gpu.control,
        gpu.advanced(cycles).0.regs.ly <= LAST_LINE,
        gpu.advanced(cycles).0.cycle_count <= LINE_END,
{
    let at = GpuView { cycle_count: (gpu.cycle_count + cycles) as u16, ..gpu };
    if gpu.regs.ly < SCREEN_HEIGHT {
        if at.cycle_count <= OAM_SEARCH_END {
            assert(at.enter_oam_search().regs == gpu.regs);
        } else if at.cycle_count <= LCD_TRANSFER_END {
            assert(at.enter_transfer().0.regs == gpu.regs);
        } else if at.cycle_count <= LINE_END {
            assert(at.enter_h_blank().regs == gpu.regs);
        } else {
            assert(at.next_line().regs.ly == gpu.regs.ly + 1);
        }
    } else {
        let entered = if at.status.lcd_mode != V_BLANK_MODE {
            at.enter_v_blank().0
        } else {
            at
        };
        assert(entered.regs == gpu.regs);
        assert(entered.cycle_count == at.cycle_count);
        assert(entered.frame_complete == gpu.frame_complete);
    }
}

/// The first step on line 144 or a later line in another mode enters the
/// vertical blanking: the mode is vertical blanking, the interrupt of the
/// vertical blanking is requested, the window's line counter is dropped,
/// and the frame is to be presented, whatever was or was not written since
/// the frame before. Later steps of the vertical blanking ask for nothing.
pub proof fn lemma_v_blank_presents_the_frame(gpu: GpuView, cycles: u8)
    requires
        gpu.control.lcd_enable,
        gpu.regs.ly >= SCREEN_HEIGHT,
    ensures
        gpu.advanced(cycles).0.status.lcd_mode == V_BLANK_MODE,
        gpu.status.lcd_mode != V_BLANK_MODE ==> gpu.advanced(cycles).1 == GpuEvent::Frame
            && gpu.advanced(cycles).0.interrupts == gpu.interrupts | V_BLANK_INTERRUPT
            && gpu.advanced(cycles).0.window_internal_line_counter is None,
        gpu.status.lcd_mode == V_BLANK_MODE ==> gpu.advanced(cycles).1 == GpuEvent::Idle
            && gpu.advanced(cycles).0.interrupts == gpu.interrupts,
{
}

/// The step that takes a visible line from its sprite search into the
/// pixel transfer asks for the line to be shown and moves the window's
/// line counter; no other step of a visible line asks for anything.
pub proof fn lemma_transfer_hands_the_line(gpu: GpuView, cycles: u8)
    requires
        gpu.control.lcd_enable,
        gpu.regs.ly < SCREEN_HEIGHT,
        gpu.cycle_count <= LINE_END,
    ensures
        gpu.advanced(cycles).1 == (if OAM_SEARCH_END < gpu.cycle_count + cycles <= LCD_TRANSFER_END
            && gpu.status.lcd_mode != LCD_TRANSFER_MODE {
            GpuEvent::Scanline
        } else {
            GpuEvent::Idle
        }),
        gpu.advanced(cycles).1 == GpuEvent::Scanline ==> gpu.advanced(
            cycles,
        ).0.window_internal_line_counter == gpu.next_window_line() && gpu.advanced(
            cycles,
        ).0.regs.ly == gpu.regs.ly,
{
}

} // verus!
