//! The video timing and rendering unit: a four-state scanline state machine
//! with fixed per-mode cycle budgets, two tile-index maps, 384 two-bit-per-
//! pixel tiles, 40 sprite entries, palettes, and the control and status
//! registers. Mode transitions raise the video interrupts at mode entry.

use vstd::prelude::*;

use crate::bits;
use crate::display::VideoDisplay;
use crate::gameboy::Color;
use crate::irq::IRQ;
use crate::irq::Interrupt;
use crate::irq::spec_bit_position;

verus! {

// Per-mode cycle budgets, in bus accesses.
pub const OAM_CYCLES: i32 = 21;

pub const PIXEL_TRANSFER_CYCLES: i32 = 43;

pub const HBLANK_CYCLES: i32 = 50;

pub const VBLANK_CYCLES: i32 = 114;

// Status-register mode flags.
pub const MODE_FLAG_HBLANK: u8 = 0b00;

pub const MODE_FLAG_VBLANK: u8 = 0b01;

pub const MODE_FLAG_ACCESS_OAM: u8 = 0b10;

pub const MODE_FLAG_PIXEL_TRANSFER: u8 = 0b11;

/// The always-set top bit of the status register.
pub const STAT_UNUSED: u8 = 0b1000_0000;

/// Screen width in pixels, and the sprite clipping boundary.
pub const V_SCANLINE_MAX: u8 = 160;

/// The number of visible scanlines; reaching it enters v-blank.
pub const H_SCANLINE_MAX: u8 = 144;

/// The last scanline index of the extended v-blank range.
pub const H_SCANLINE_VBLANK_MAX: u8 = 153;

pub const NUM_TILES: usize = 384;

pub const BYTES_PER_TILE: usize = 16;

pub const TILE_MAP_SIZE: usize = 0x400;

pub const NUM_SPRITES: usize = 40;

/// The color a 2-bit index encodes.
pub open spec fn spec_color_from_byte(byte: u8) -> Color {
    if byte == 0b00 {
        Color::White
    } else if byte == 0b01 {
        Color::Light
    } else if byte == 0b10 {
        Color::Dark
    } else {
        Color::Black
    }
}

/// The 2-bit index encoding a color.
pub open spec fn spec_color_to_byte(color: Color) -> u8 {
    match color {
        Color::White => 0b00,
        Color::Light => 0b01,
        Color::Dark => 0b10,
        Color::Black => 0b11,
    }
}

impl Color {
    /// The color a 2-bit index selects.
    pub fn from_byte(byte: u8) -> (r: Color)
        requires
            byte <= 0b11,
        ensures
            r == spec_color_from_byte(byte),
    {
        match byte {
            0b00 => Color::White,
            0b01 => Color::Light,
            0b10 => Color::Dark,
            _ => Color::Black,
        }
    }

    /// The 2-bit index of this color.
    pub fn to_byte(&self) -> (r: u8)
        ensures
            r == spec_color_to_byte(*self),
    {
        match self {
            Color::White => 0b00,
            Color::Light => 0b01,
            Color::Dark => 0b10,
            Color::Black => 0b11,
        }
    }
}

/// A palette: which display shade each of the four color indexes maps to.
#[derive(Clone, Copy, Debug, PartialEq, Eq, Structural)]
pub struct Palette {
    pub white: Color,
    pub light: Color,
    pub dark: Color,
    pub black: Color,
}

/// The two-bit fields of a palette byte, lowest pair first.
pub open spec fn spec_palette_from_byte(byte: u8) -> Palette {
    Palette {
        white: spec_color_from_byte(byte & 0b11),
        light: spec_color_from_byte((byte >> 2) & 0b11),
        dark: spec_color_from_byte((byte >> 4) & 0b11),
        black: spec_color_from_byte((byte >> 6) & 0b11),
    }
}

/// The byte encoding of a palette, lowest pair first.
pub open spec fn spec_palette_to_byte(palette: Palette) -> u8 {
    spec_color_to_byte(palette.white) | spec_color_to_byte(palette.light) << 2
        | spec_color_to_byte(palette.dark) << 4 | spec_color_to_byte(palette.black) << 6
}

/// What a palette maps a color index to.
pub open spec fn spec_palette_map(palette: Palette, color: Color) -> Color {
    match color {
        Color::White => palette.white,
        Color::Light => palette.light,
        Color::Dark => palette.dark,
        Color::Black => palette.black,
    }
}

/// Every two-bit field of a byte is at most three.
proof fn lemma_two_bit_fields(byte: u8)
    by (bit_vector)
    ensures
        byte & 0b11 <= 0b11,
        (byte >> 2) & 0b11 <= 0b11,
        (byte >> 4) & 0b11 <= 0b11,
        (byte >> 6) & 0b11 <= 0b11,
{
}

impl Palette {
    /// A palette mapping every index to white.
    pub fn new() -> (r: Palette)
        ensures
            r == (Palette {
                white: Color::White,
                light: Color::White,
                dark: Color::White,
                black: Color::White,
            }),
    {
        Palette { white: Color::White, light: Color::White, dark: Color::White, black: Color::White }
    }

    /// Maps a color index through the palette.
    pub fn map(&self, color: Color) -> (r: Color)
        ensures
            r == spec_palette_map(*self, color),
    {
        match color {
            Color::White => self.white,
            Color::Light => self.light,
            Color::Dark => self.dark,
            Color::Black => self.black,
        }
    }

    /// Decodes a palette byte, one two-bit field per color index.
    pub fn from_byte(byte: u8) -> (r: Palette)
        ensures
            r == spec_palette_from_byte(byte),
    {
        proof {
            lemma_two_bit_fields(byte);
        }
        Palette {
            white: Color::from_byte(byte & 0b11),
            light: Color::from_byte((byte >> 2) & 0b11),
            dark: Color::from_byte((byte >> 4) & 0b11),
            black: Color::from_byte((byte >> 6) & 0b11),
        }
    }

    /// Encodes the palette into its byte form.
    pub fn to_byte(&self) -> (r: u8)
        ensures
            r == spec_palette_to_byte(*self),
    {
        self.white.to_byte() | self.light.to_byte() << 2 | self.dark.to_byte() << 4
            | self.black.to_byte() << 6
    }
}

/// The video control register, one bit per field, bit 7 down to bit 0.
#[derive(Clone, Copy, Debug, PartialEq, Eq, Structural)]
pub struct Control {
    pub lcd_on: bool,
    pub window_map: bool,
    pub window_on: bool,
    pub bg_data: bool,
    pub bg_map: bool,
    pub obj_size: bool,
    pub obj_on: bool,
    pub bg_on: bool,
}

pub open spec fn spec_control_from_byte(byte: u8) -> Control {
    Control {
        lcd_on: bits::spec_is_set(byte, 7),
        window_map: bits::spec_is_set(byte, 6),
        window_on: bits::spec_is_set(byte, 5),
        bg_data: bits::spec_is_set(byte, 4),
        bg_map: bits::spec_is_set(byte, 3),
        obj_size: bits::spec_is_set(byte, 2),
        obj_on: bits::spec_is_set(byte, 1),
        bg_on: bits::spec_is_set(byte, 0),
    }
}

pub open spec fn spec_control_to_byte(control: Control) -> u8 {
    (if control.lcd_on { 1u8 } else { 0u8 }) << 7 | (if control.window_map { 1u8 } else { 0u8 })
        << 6 | (if control.window_on { 1u8 } else { 0u8 }) << 5 | (if control.bg_data {
        1u8
    } else {
        0u8
    }) << 4 | (if control.bg_map { 1u8 } else { 0u8 }) << 3 | (if control.obj_size {
        1u8
    } else {
        0u8
    }) << 2 | (if control.obj_on { 1u8 } else { 0u8 }) << 1 | (if control.bg_on {
        1u8
    } else {
        0u8
    })
}

impl Control {
    /// A control register with every bit clear: video off.
    pub fn new() -> (r: Control)
        ensures
            r == spec_control_from_byte(0),
            r == (Control {
                lcd_on: false,
                window_map: false,
                window_on: false,
                bg_data: false,
                bg_map: false,
                obj_size: false,
                obj_on: false,
                bg_on: false,
            }),
    {
        proof {
            assert((0u8 >> 7) & 0x1 == 0 && (0u8 >> 6) & 0x1 == 0 && (0u8 >> 5) & 0x1 == 0 && (0u8
                >> 4) & 0x1 == 0 && (0u8 >> 3) & 0x1 == 0 && (0u8 >> 2) & 0x1 == 0 && (0u8 >> 1)
                & 0x1 == 0 && (0u8 >> 0) & 0x1 == 0) by (bit_vector);
        }
        Control {
            lcd_on: false,
            window_map: false,
            window_on: false,
            bg_data: false,
            bg_map: false,
            obj_size: false,
            obj_on: false,
            bg_on: false,
        }
    }

    pub fn from_byte(byte: u8) -> (r: Control)
        ensures
            r == spec_control_from_byte(byte),
    {
        Control {
            lcd_on: bits::is_set(byte, 7),
            window_map: bits::is_set(byte, 6),
            window_on: bits::is_set(byte, 5),
            bg_data: bits::is_set(byte, 4),
            bg_map: bits::is_set(byte, 3),
            obj_size: bits::is_set(byte, 2),
            obj_on: bits::is_set(byte, 1),
            bg_on: bits::is_set(byte, 0),
        }
    }

    pub fn to_byte(&self) -> (r: u8)
        ensures
            r == spec_control_to_byte(*self),
    {
        bits::from_bool(self.lcd_on) << 7 | bits::from_bool(self.window_map) << 6 | bits::from_bool(
            self.window_on,
        ) << 5 | bits::from_bool(self.bg_data) << 4 | bits::from_bool(self.bg_map) << 3
            | bits::from_bool(self.obj_size) << 2 | bits::from_bool(self.obj_on) << 1
            | bits::from_bool(self.bg_on)
    }
}

/// The video status register: interrupt enables, the line-compare flag and
/// the current mode flag.
#[derive(Clone, Copy, Debug, PartialEq, Eq, Structural)]
pub struct Stat {
    pub line_compare_interrupt: bool,
    pub hblank_interrupt: bool,
    pub vblank_interrupt: bool,
    pub access_oam_interrupt: bool,
    pub line_compare: bool,
    pub mode_flag: u8,
}

pub open spec fn spec_stat_from_byte(byte: u8) -> Stat {
    Stat {
        line_compare_interrupt: bits::spec_is_set(byte, 6),
        hblank_interrupt: bits::spec_is_set(byte, 5),
        vblank_interrupt: bits::spec_is_set(byte, 4),
        access_oam_interrupt: bits::spec_is_set(byte, 3),
        line_compare: bits::spec_is_set(byte, 2),
        mode_flag: byte & 0b11,
    }
}

pub open spec fn spec_stat_to_byte(stat: Stat) -> u8 {
    STAT_UNUSED | (if stat.line_compare_interrupt { 1u8 } else { 0u8 }) << 6 | (if stat.hblank_interrupt {
        1u8
    } else {
        0u8
    }) << 5 | (if stat.vblank_interrupt { 1u8 } else { 0u8 }) << 4 | (if stat.access_oam_interrupt {
        1u8
    } else {
        0u8
    }) << 3 | (if stat.line_compare { 1u8 } else { 0u8 }) << 2 | (stat.mode_flag & 0b11)
}

impl Stat {
    /// A status register with every interrupt disabled, in OAM-scan mode.
    pub fn new() -> (r: Stat)
        ensures
            r == (Stat {
                line_compare_interrupt: false,
                hblank_interrupt: false,
                vblank_interrupt: false,
                access_oam_interrupt: false,
                line_compare: false,
                mode_flag: MODE_FLAG_ACCESS_OAM,
            }),
    {
        Stat {
            line_compare_interrupt: false,
            hblank_interrupt: false,
            vblank_interrupt: false,
            access_oam_interrupt: false,
            line_compare: false,
            mode_flag: MODE_FLAG_ACCESS_OAM,
        }
    }

    pub fn from_byte(byte: u8) -> (r: Stat)
        ensures
            r == spec_stat_from_byte(byte),
    {
        Stat {
            line_compare_interrupt: bits::is_set(byte, 6),
            hblank_interrupt: bits::is_set(byte, 5),
            vblank_interrupt: bits::is_set(byte, 4),
            access_oam_interrupt: bits::is_set(byte, 3),
            line_compare: bits::is_set(byte, 2),
            mode_flag: byte & 0b11,
        }
    }

    pub fn to_byte(&self) -> (r: u8)
        ensures
            r == spec_stat_to_byte(*self),
    {
        STAT_UNUSED | bits::from_bool(self.line_compare_interrupt) << 6 | bits::from_bool(
            self.hblank_interrupt,
        ) << 5 | bits::from_bool(self.vblank_interrupt) << 4 | bits::from_bool(
            self.access_oam_interrupt,
        ) << 3 | bits::from_bool(self.line_compare) << 2 | (self.mode_flag & 0b11)
    }
}

/// The four scanline states.
#[derive(Clone, Copy, Debug, PartialEq, Eq, Structural)]
pub enum Mode {
    OAM,
    PixelTransfer,
    HBlank,
    VBlank,
}

/// The status-register flag bits of a mode.
pub open spec fn spec_mode_flag(mode: Mode) -> u8 {
    match mode {
        Mode::OAM => MODE_FLAG_ACCESS_OAM,
        Mode::PixelTransfer => MODE_FLAG_PIXEL_TRANSFER,
        Mode::HBlank => MODE_FLAG_HBLANK,
        Mode::VBlank => MODE_FLAG_VBLANK,
    }
}

/// The fixed cycle budget of a mode.
pub open spec fn spec_mode_cycles(mode: Mode) -> i32 {
    match mode {
        Mode::OAM => OAM_CYCLES,
        Mode::PixelTransfer => PIXEL_TRANSFER_CYCLES,
        Mode::HBlank => HBLANK_CYCLES,
        Mode::VBlank => VBLANK_CYCLES,
    }
}

impl Mode {
    pub fn flag_bits(&self) -> (r: u8)
        ensures
            r == spec_mode_flag(*self),
    {
        match self {
            Mode::OAM => MODE_FLAG_ACCESS_OAM,
            Mode::PixelTransfer => MODE_FLAG_PIXEL_TRANSFER,
            Mode::HBlank => MODE_FLAG_HBLANK,
            Mode::VBlank => MODE_FLAG_VBLANK,
        }
    }

    pub fn cycles(&self) -> (r: i32)
        ensures
            r == spec_mode_cycles(*self),
    {
        match self {
            Mode::OAM => OAM_CYCLES,
            Mode::PixelTransfer => PIXEL_TRANSFER_CYCLES,
            Mode::HBlank => HBLANK_CYCLES,
            Mode::VBlank => VBLANK_CYCLES,
        }
    }
}

/// An 8x8 tile at two bits per pixel: two bytes per row, low bit-plane first.
#[derive(Clone, Copy, Debug, PartialEq, Eq)]
pub struct Tile {
    pub bytes: [u8; BYTES_PER_TILE],
}

/// The 2-bit color index of a tile pixel: the high plane sits in the second
/// byte of the row, the low plane in the first, column 0 at bit 7.
pub open spec fn spec_tile_color_index(tile: Tile, row: u8, col: u8) -> u8 {
    let top = tile.bytes@[row * 2 + 1];
    let bottom = tile.bytes@[row * 2];
    let shift = (7 - col) as u8;
    (((top >> shift) & 0x1) << 1) | ((bottom >> shift) & 0x1)
}

/// The color of a tile pixel before palette mapping.
pub open spec fn spec_tile_color(tile: Tile, row: u8, col: u8) -> Color {
    spec_color_from_byte(spec_tile_color_index(tile, row, col))
}

/// A pixel's combined plane bits stay a two-bit value.
proof fn lemma_plane_bits(top: u8, bottom: u8, shift: u8)
    by (bit_vector)
    ensures
        ((((top >> shift) & 0x1) << 1) | ((bottom >> shift) & 0x1)) <= 0b11,
{
}

impl Tile {
    /// A tile of all-zero bytes: every pixel index zero.
    pub fn new() -> (r: Tile)
        ensures
            r.bytes@ =~= Seq::new(16, |i: int| 0u8),
    {
        Tile { bytes: [0; BYTES_PER_TILE] }
    }

    /// Returns the color data for the given (row, col) pixel in the tile
    pub fn get_color(&self, row: u8, col: u8) -> (r: Color)
        requires
            row < 8,
            col < 8,
        ensures
            r == spec_tile_color(*self, row, col),
    {
        let arr_offset = (row * 2) as usize;
        let top = self.bytes[arr_offset + 1];
        let bottom = self.bytes[arr_offset];
        let shift = 7 - col;
        let msb = (top >> shift) & 0x1;
        let lsb = (bottom >> shift) & 0x1;
        let value = (msb << 1) | lsb;
        proof {
            lemma_plane_bits(top, bottom, shift);
        }
        Color::from_byte(value)
    }
}

/// One sprite-attribute entry: position, tile reference and flags.
#[derive(Clone, Copy, Debug, PartialEq, Eq, Structural)]
pub struct Sprite {
    pub y: u8,
    pub x: u8,
    pub tile_num: u8,
    pub flags: SpriteFlags,
}

/// The flag byte of a sprite: priority, the two flips and the palette select.
#[derive(Clone, Copy, Debug, PartialEq, Eq, Structural)]
pub struct SpriteFlags {
    pub priority: bool,
    pub flip_y: bool,
    pub flip_x: bool,
    pub palette: bool,
}

pub open spec fn spec_sprite_flags_from_byte(byte: u8) -> SpriteFlags {
    SpriteFlags {
        priority: bits::spec_is_set(byte, 7),
        flip_y: bits::spec_is_set(byte, 6),
        flip_x: bits::spec_is_set(byte, 5),
        palette: bits::spec_is_set(byte, 4),
    }
}

pub open spec fn spec_sprite_flags_to_byte(flags: SpriteFlags) -> u8 {
    (if flags.priority { 1u8 } else { 0u8 }) << 7 | (if flags.flip_y { 1u8 } else { 0u8 }) << 6 | (
    if flags.flip_x {
        1u8
    } else {
        0u8
    }) << 5 | (if flags.palette { 1u8 } else { 0u8 }) << 4
}

impl SpriteFlags {
    pub fn from_byte(byte: u8) -> (r: SpriteFlags)
        ensures
            r == spec_sprite_flags_from_byte(byte),
    {
        SpriteFlags {
            priority: bits::is_set(byte, 7),
            flip_y: bits::is_set(byte, 6),
            flip_x: bits::is_set(byte, 5),
            palette: bits::is_set(byte, 4),
        }
    }

    pub fn to_byte(&self) -> (r: u8)
        ensures
            r == spec_sprite_flags_to_byte(*self),
    {
        bits::from_bool(self.priority) << 7 | bits::from_bool(self.flip_y) << 6 | bits::from_bool(
            self.flip_x,
        ) << 5 | bits::from_bool(self.palette) << 4
    }
}

/// The on-screen column of a sprite: its x byte is stored offset by 8.
pub open spec fn spec_sprite_x(sprite: Sprite) -> u8 {
    bits::spec_wrap_sub8(sprite.x, 8)
}

/// The on-screen line of a sprite's top row: its y byte is stored offset by 16.
pub open spec fn spec_sprite_y(sprite: Sprite) -> u8 {
    bits::spec_wrap_sub8(sprite.y, 16)
}

impl Sprite {
    /// A sprite with every byte zero.
    pub fn new() -> (r: Sprite)
        ensures
            r == (Sprite {
                y: 0u8,
                x: 0u8,
                tile_num: 0u8,
                flags: SpriteFlags { priority: false, flip_y: false, flip_x: false, palette: false },
            }),
    {
        Sprite {
            y: 0,
            x: 0,
            tile_num: 0,
            flags: SpriteFlags { priority: false, flip_y: false, flip_x: false, palette: false },
        }
    }

    pub fn get_x(&self) -> (r: u8)
        ensures
            r == spec_sprite_x(*self),
    {
        self.x.wrapping_sub(8)
    }

    pub fn get_y(&self) -> (r: u8)
        ensures
            r == spec_sprite_y(*self),
    {
        self.y.wrapping_sub(16)
    }
}

/// The byte at one sprite-attribute address: four bytes per sprite, in the
/// order y, x, tile index, flags.
pub open spec fn spec_read_oam<D: VideoDisplay>(g: &GPU<D>, address: u8) -> u8 {
    let sprite = g.sprites@[address as int / 4];
    if address as int % 4 == 0 {
        sprite.y
    } else if address as int % 4 == 1 {
        sprite.x
    } else if address as int % 4 == 2 {
        sprite.tile_num
    } else {
        spec_sprite_flags_to_byte(sprite.flags)
    }
}

/// The background pixel a screen column of the current scanline shows: the
/// scroll registers pick the position in the 256x256 background plane, the
/// tile map cell there names a tile, and its 2-bit pixel goes through the
/// background palette.
pub open spec fn spec_bg_pixel<D: VideoDisplay>(g: GPU<D>, col: u8) -> Color {
    let y = bits::spec_wrap_add8(g.current_line, g.scroll_y);
    let x = bits::spec_wrap_add8(col, g.scroll_x);
    spec_palette_map(
        g.bg_palette,
        spec_tile_color(g.spec_tile_lookup((y / 8) as u8, (x / 8) as u8), (y % 8) as u8, (x
            % 8) as u8),
    )
}

/// What one sprite contributes at pixel `x_offset` of its row on the current
/// scanline: nothing when the sprite misses the line, when the pixel's color
/// index is zero (transparent), or when its column falls past the screen
/// edge; otherwise the on-screen column and the palette-mapped color. The
/// flip flags mirror the pixel and row selection, and a tall sprite's lower
/// half comes from the following tile.
pub open spec fn spec_sprite_pixel<D: VideoDisplay>(
    g: GPU<D>,
    sprite: Sprite,
    x_offset: u8,
) -> Option<(u8, Color)> {
    let y_size: u8 = if g.control.obj_size {
        16u8
    } else {
        8u8
    };
    if !(spec_sprite_y(sprite) <= g.current_line && g.current_line < spec_sprite_y(sprite)
        + y_size) {
        None
    } else {
        let sprite_row = (g.current_line - spec_sprite_y(sprite)) as u8;
        let flipped_row = if sprite.flags.flip_y {
            (y_size - sprite_row - 1) as u8
        } else {
            sprite_row
        };
        let tile_num = if flipped_row >= 8 {
            bits::spec_wrap_add8(sprite.tile_num, 1)
        } else {
            sprite.tile_num
        };
        let row = if flipped_row >= 8 {
            (flipped_row - 8) as u8
        } else {
            flipped_row
        };
        let col_in_tile = if sprite.flags.flip_x {
            (7 - x_offset) as u8
        } else {
            x_offset
        };
        let color = spec_tile_color(g.tile_data@[tile_num as int], row, col_in_tile);
        let column = spec_sprite_x(sprite) + x_offset;
        if color == Color::White || column >= V_SCANLINE_MAX {
            None
        } else {
            Some(
                (
                    column as u8,
                    spec_palette_map(
                        if sprite.flags.palette {
                            g.obj_palette_1
                        } else {
                            g.obj_palette_0
                        },
                        color,
                    ),
                ),
            )
        }
    }
}

pub struct GPU<D: VideoDisplay> {
    pub current_line: u8,
    pub compare_line: u8,
    pub current_mode: Mode,
    pub remaining_cycles: i32,
    pub scroll_x: u8,
    pub scroll_y: u8,
    pub window_x: u8,
    pub window_y: u8,
    pub control: Control,
    pub stat: Stat,
    pub bg_palette: Palette,
    pub obj_palette_0: Palette,
    pub obj_palette_1: Palette,
    pub tile_map_0: [u8; TILE_MAP_SIZE],
    pub tile_map_1: [u8; TILE_MAP_SIZE],
    pub tile_data: [Tile; NUM_TILES],
    pub sprites: [Sprite; NUM_SPRITES],
    pub display: D,
}

/// The pending mask after the interrupts a mode's entry edge raises:
/// entering v-blank always raises the vblank interrupt, and each mode with a
/// set STAT enable bit also raises the video-STAT interrupt.
pub open spec fn spec_switch_irq(stat: Stat, mode: Mode, pending: u8) -> u8 {
    match mode {
        Mode::OAM => if stat.access_oam_interrupt {
            bits::spec_set(pending, spec_bit_position(Interrupt::LCDC))
        } else {
            pending
        },
        Mode::HBlank => if stat.hblank_interrupt {
            bits::spec_set(pending, spec_bit_position(Interrupt::LCDC))
        } else {
            pending
        },
        Mode::VBlank => {
            let raised = bits::spec_set(pending, spec_bit_position(Interrupt::VBlank));
            if stat.vblank_interrupt {
                bits::spec_set(raised, spec_bit_position(Interrupt::LCDC))
            } else {
                raised
            }
        },
        Mode::PixelTransfer => pending,
    }
}

/// The pending mask after the line-compare check on a given scanline.
pub open spec fn spec_compare_irq(stat: Stat, line: u8, compare: u8, pending: u8) -> u8 {
    if line == compare && stat.line_compare_interrupt {
        bits::spec_set(pending, spec_bit_position(Interrupt::LCDC))
    } else {
        pending
    }
}

/// One tick of the video state machine, over its timing registers alone:
/// given the unit's state and the pending-interrupt mask, the mode, cycle
/// counter, scanline, status register and pending mask after the tick.
/// Rendering output is not modeled here; it goes to the display sink.
pub open spec fn spec_gpu_step<D: VideoDisplay>(g: GPU<D>, pending: u8) -> (
    Mode,
    i32,
    u8,
    Stat,
    u8,
) {
    let mode = g.current_mode;
    let rem = g.remaining_cycles;
    let line = g.current_line;
    let stat = g.stat;
    if !g.control.lcd_on {
        (mode, rem, line, stat, pending)
    } else if rem - 1 > 0 {
        (mode, (rem - 1) as i32, line, stat, pending)
    } else {
        match mode {
            Mode::OAM => (
                Mode::PixelTransfer,
                PIXEL_TRANSFER_CYCLES,
                line,
                Stat { mode_flag: MODE_FLAG_PIXEL_TRANSFER, ..stat },
                pending,
            ),
            Mode::PixelTransfer => (
                Mode::HBlank,
                HBLANK_CYCLES,
                line,
                Stat { mode_flag: MODE_FLAG_HBLANK, ..stat },
                spec_switch_irq(stat, Mode::HBlank, pending),
            ),
            Mode::HBlank => {
                let next_line = bits::spec_wrap_add8(line, 1);
                let stat1 = Stat { line_compare: next_line == g.compare_line, ..stat };
                let p1 = spec_compare_irq(stat, next_line, g.compare_line, pending);
                if next_line < H_SCANLINE_MAX {
                    (
                        Mode::OAM,
                        OAM_CYCLES,
                        next_line,
                        Stat { mode_flag: MODE_FLAG_ACCESS_OAM, ..stat1 },
                        spec_switch_irq(stat1, Mode::OAM, p1),
                    )
                } else {
                    (
                        Mode::VBlank,
                        VBLANK_CYCLES,
                        next_line,
                        Stat { mode_flag: MODE_FLAG_VBLANK, ..stat1 },
                        spec_switch_irq(stat1, Mode::VBlank, p1),
                    )
                }
            },
            Mode::VBlank => {
                let next_line = bits::spec_wrap_add8(line, 1);
                let stat1 = Stat { line_compare: next_line == g.compare_line, ..stat };
                let p1 = spec_compare_irq(stat, next_line, g.compare_line, pending);
                if next_line < H_SCANLINE_VBLANK_MAX {
                    (Mode::VBlank, VBLANK_CYCLES, next_line, stat1, p1)
                } else {
                    (
                        Mode::OAM,
                        OAM_CYCLES,
                        0u8,
                        Stat { mode_flag: MODE_FLAG_ACCESS_OAM, ..stat1 },
                        spec_switch_irq(stat1, Mode::OAM, p1),
                    )
                }
            },
        }
    }
}

/// On the tick that exhausts a mode's cycle budget, the machine follows the
/// fixed transition table: OAM-scan to pixel-transfer to h-blank, then back
/// to OAM-scan while lines remain in the visible region and to v-blank
/// otherwise; v-blank holds, reloading its budget, through the extended line
/// range and then returns to OAM-scan at line zero. Entering v-blank always
/// raises the vblank interrupt.
pub proof fn lemma_mode_transition_table<D: VideoDisplay>(g: GPU<D>, pending: u8)
    requires
        g.control.lcd_on,
        g.remaining_cycles <= 1,
    ensures
        ({
            let (mode, rem, line, stat, p) = spec_gpu_step(g, pending);
            let next_line = bits::spec_wrap_add8(g.current_line, 1);
            &&& (g.current_mode is OAM ==> mode is PixelTransfer && rem == PIXEL_TRANSFER_CYCLES
                && line == g.current_line)
            &&& (g.current_mode is PixelTransfer ==> mode is HBlank && rem == HBLANK_CYCLES && line
                == g.current_line)
            &&& (g.current_mode is HBlank && next_line < H_SCANLINE_MAX ==> mode is OAM && rem
                == OAM_CYCLES && line == next_line)
            &&& (g.current_mode is HBlank && next_line >= H_SCANLINE_MAX ==> mode is VBlank && rem
                == VBLANK_CYCLES && line == next_line && bits::spec_is_set(p, 0))
            &&& (g.current_mode is VBlank && next_line < H_SCANLINE_VBLANK_MAX ==> mode is VBlank
                && rem == VBLANK_CYCLES && line == next_line)
            &&& (g.current_mode is VBlank && next_line >= H_SCANLINE_VBLANK_MAX ==> mode is OAM
                && rem == OAM_CYCLES && line == 0)
            &&& stat.mode_flag == spec_mode_flag(mode) || (g.current_mode is VBlank && mode
                is VBlank && stat.mode_flag == g.stat.mode_flag)
        }),
{
    assert(forall|p2: u8| #[trigger] (p2 >> 0) == p2) by (bit_vector);
    assert(forall|p2: u8| #[trigger] (p2 | (1u8 << 0)) & 0x1 != 0) by (bit_vector);
    assert(forall|p2: u8| #[trigger] (p2 | (1u8 << 1)) & 0x1 == p2 & 0x1) by (bit_vector);
}

impl<D: VideoDisplay> GPU<D> {
    /// All configuration the state machine never touches: everything but the
    /// mode, cycle counter, scanline, status register and display.
    pub open spec fn spec_same_config(a: &GPU<D>, b: &GPU<D>) -> bool {
        &&& a.compare_line == b.compare_line
        &&& a.scroll_x == b.scroll_x
        &&& a.scroll_y == b.scroll_y
        &&& a.window_x == b.window_x
        &&& a.window_y == b.window_y
        &&& a.control == b.control
        &&& a.bg_palette == b.bg_palette
        &&& a.obj_palette_0 == b.obj_palette_0
        &&& a.obj_palette_1 == b.obj_palette_1
        &&& a.tile_map_0 == b.tile_map_0
        &&& a.tile_map_1 == b.tile_map_1
        &&& a.tile_data == b.tile_data
        &&& a.sprites == b.sprites
    }

    /// Everything except the display sink.
    pub open spec fn spec_same_but_display(a: &GPU<D>, b: &GPU<D>) -> bool {
        &&& Self::spec_same_config(a, b)
        &&& a.current_line == b.current_line
        &&& a.current_mode == b.current_mode
        &&& a.remaining_cycles == b.remaining_cycles
        &&& a.stat == b.stat
    }

    /// A powered-off video unit in OAM-scan mode, rendering into `display`.
    pub fn new(display: D) -> (r: GPU<D>)
        ensures
            r.current_line == 0,
            r.compare_line == 0,
            r.current_mode == Mode::OAM,
            r.remaining_cycles == OAM_CYCLES,
            r.scroll_x == 0,
            r.scroll_y == 0,
            r.window_x == 0,
            r.window_y == 0,
            r.control == spec_control_from_byte(0),
            r.stat == (Stat {
                line_compare_interrupt: false,
                hblank_interrupt: false,
                vblank_interrupt: false,
                access_oam_interrupt: false,
                line_compare: false,
                mode_flag: MODE_FLAG_ACCESS_OAM,
            }),
            r.bg_palette == (Palette {
                white: Color::White,
                light: Color::White,
                dark: Color::White,
                black: Color::White,
            }),
            r.obj_palette_0 == r.bg_palette,
            r.obj_palette_1 == r.bg_palette,
            forall|i: int| 0 <= i < TILE_MAP_SIZE ==> r.tile_map_0@[i] == 0u8,
            forall|i: int| 0 <= i < TILE_MAP_SIZE ==> r.tile_map_1@[i] == 0u8,
            forall|i: int|
                0 <= i < NUM_TILES ==> r.tile_data@[i].bytes@ =~= Seq::new(16, |j: int| 0u8),
            forall|i: int|
                0 <= i < NUM_SPRITES ==> r.sprites@[i] == (Sprite {
                    y: 0u8,
                    x: 0u8,
                    tile_num: 0u8,
                    flags: SpriteFlags {
                        priority: false,
                        flip_y: false,
                        flip_x: false,
                        palette: false,
                    },
                }),
    {
        GPU {
            current_line: 0,
            compare_line: 0,
            current_mode: Mode::OAM,
            remaining_cycles: OAM_CYCLES,
            scroll_x: 0,
            scroll_y: 0,
            window_x: 0,
            window_y: 0,
            control: Control::new(),
            stat: Stat::new(),
            bg_palette: Palette::new(),
            obj_palette_0: Palette::new(),
            obj_palette_1: Palette::new(),
            tile_map_0: [0; TILE_MAP_SIZE],
            tile_map_1: [0; TILE_MAP_SIZE],
            tile_data: [Tile { bytes: [0; BYTES_PER_TILE] }; NUM_TILES],
            sprites: [Sprite {
                y: 0,
                x: 0,
                tile_num: 0,
                flags: SpriteFlags { priority: false, flip_y: false, flip_x: false, palette: false },
            }; NUM_SPRITES],
            display,
        }
    }

    pub fn get_control(&self) -> (r: u8)
        ensures
            r == spec_control_to_byte(self.control),
    {
        self.control.to_byte()
    }

    pub fn set_control(&mut self, value: u8)
        ensures
            *final(self) == (GPU { control: spec_control_from_byte(value), ..*old(self) }),
    {
        self.control = Control::from_byte(value)
    }

    /// The status byte; while the video unit is off only the unused top bit
    /// reads back.
    pub fn get_stat(&self) -> (r: u8)
        ensures
            r == (if self.control.lcd_on {
                spec_stat_to_byte(self.stat)
            } else {
                STAT_UNUSED
            }),
    {
        if self.control.lcd_on {
            self.stat.to_byte()
        } else {
            STAT_UNUSED
        }
    }

    pub fn set_stat(&mut self, value: u8)
        ensures
            *final(self) == (GPU { stat: spec_stat_from_byte(value), ..*old(self) }),
    {
        self.stat = Stat::from_byte(value)
    }

    pub fn get_current_line(&self) -> (r: u8)
        ensures
            r == self.current_line,
    {
        self.current_line
    }

    pub fn reset_current_line(&mut self)
        ensures
            *final(self) == (GPU { current_line: 0u8, ..*old(self) }),
    {
        self.current_line = 0
    }

    pub fn get_compare_line(&self) -> (r: u8)
        ensures
            r == self.compare_line,
    {
        self.compare_line
    }

    pub fn set_compare_line(&mut self, value: u8)
        ensures
            *final(self) == (GPU { compare_line: value, ..*old(self) }),
    {
        self.compare_line = value
    }

    pub fn get_scroll_x(&self) -> (r: u8)
        ensures
            r == self.scroll_x,
    {
        self.scroll_x
    }

    pub fn set_scroll_x(&mut self, value: u8)
        ensures
            *final(self) == (GPU { scroll_x: value, ..*old(self) }),
    {
        self.scroll_x = value
    }

    pub fn get_scroll_y(&self) -> (r: u8)
        ensures
            r == self.scroll_y,
    {
        self.scroll_y
    }

    pub fn set_scroll_y(&mut self, value: u8)
        ensures
            *final(self) == (GPU { scroll_y: value, ..*old(self) }),
    {
        self.scroll_y = value
    }

    pub fn get_window_x(&self) -> (r: u8)
        ensures
            r == self.window_x,
    {
        self.window_x
    }

    pub fn set_window_x(&mut self, value: u8)
        ensures
            *final(self) == (GPU { window_x: value, ..*old(self) }),
    {
        self.window_x = value
    }

    pub fn get_window_y(&self) -> (r: u8)
        ensures
            r == self.window_y,
    {
        self.window_y
    }

    pub fn set_window_y(&mut self, value: u8)
        ensures
            *final(self) == (GPU { window_y: value, ..*old(self) }),
    {
        self.window_y = value
    }

    pub fn get_bg_palette(&self) -> (r: u8)
        ensures
            r == spec_palette_to_byte(self.bg_palette),
    {
        self.bg_palette.to_byte()
    }

    pub fn set_bg_palette(&mut self, value: u8)
        ensures
            *final(self) == (GPU { bg_palette: spec_palette_from_byte(value), ..*old(self) }),
    {
        self.bg_palette = Palette::from_byte(value)
    }

    pub fn get_obj_palette_0(&self) -> (r: u8)
        ensures
            r == spec_palette_to_byte(self.obj_palette_0),
    {
        self.obj_palette_0.to_byte()
    }

    pub fn set_obj_palette_0(&mut self, value: u8)
        ensures
            *final(self) == (GPU { obj_palette_0: spec_palette_from_byte(value), ..*old(self) }),
    {
        self.obj_palette_0 = Palette::from_byte(value)
    }

    pub fn get_obj_palette_1(&self) -> (r: u8)
        ensures
            r == spec_palette_to_byte(self.obj_palette_1),
    {
        self.obj_palette_1.to_byte()
    }

    pub fn set_obj_palette_1(&mut self, value: u8)
        ensures
            *final(self) == (GPU { obj_palette_1: spec_palette_from_byte(value), ..*old(self) }),
    {
        self.obj_palette_1 = Palette::from_byte(value)
    }

    pub fn get_tile_map_0(&self, address: u16) -> (r: u8)
        requires
            address < TILE_MAP_SIZE,
        ensures
            r == self.tile_map_0@[address as int],
    {
        self.tile_map_0[address as usize]
    }

    pub fn set_tile_map_0(&mut self, address: u16, byte: u8)
        requires
            address < TILE_MAP_SIZE,
        ensures
            final(self).tile_map_0@ == old(self).tile_map_0@.update(address as int, byte),
            *final(self) == (GPU { tile_map_0: final(self).tile_map_0, ..*old(self) }),
    {
        self.tile_map_0[address as usize] = byte;
    }

    pub fn get_tile_map_1(&self, address: u16) -> (r: u8)
        requires
            address < TILE_MAP_SIZE,
        ensures
            r == self.tile_map_1@[address as int],
    {
        self.tile_map_1[address as usize]
    }

    pub fn set_tile_map_1(&mut self, address: u16, byte: u8)
        requires
            address < TILE_MAP_SIZE,
        ensures
            final(self).tile_map_1@ == old(self).tile_map_1@.update(address as int, byte),
            *final(self) == (GPU { tile_map_1: final(self).tile_map_1, ..*old(self) }),
    {
        self.tile_map_1[address as usize] = byte;
    }

    /// Reads one byte of tile storage, two bytes per tile row.
    pub fn get_tile_row(&self, address: u16) -> (r: u8)
        requires
            address < NUM_TILES * BYTES_PER_TILE,
        ensures
            r == self.tile_data@[address as int / 16].bytes@[address as int % 16],
    {
        let tile = self.tile_data[(address / 16) as usize];
        tile.bytes[(address % 16) as usize]
    }

    /// Writes one byte of tile storage, two bytes per tile row.
    pub fn set_tile_row(&mut self, address: u16, byte: u8)
        requires
            address < NUM_TILES * BYTES_PER_TILE,
        ensures
            final(self).tile_data@ == old(self).tile_data@.update(
                address as int / 16,
                Tile {
                    bytes: final(self).tile_data@[address as int / 16].bytes,
                },
            ),
            final(self).tile_data@[address as int / 16].bytes@ == old(self).tile_data@[address
                as int / 16].bytes@.update(address as int % 16, byte),
            *final(self) == (GPU { tile_data: final(self).tile_data, ..*old(self) }),
    {
        let index = (address / 16) as usize;
        let mut tile = self.tile_data[index];
        tile.bytes[(address % 16) as usize] = byte;
        self.tile_data[index] = tile;
    }

    /// Reads one byte of sprite-attribute memory, four bytes per sprite.
    pub fn read_oam(&self, address: u8) -> (r: u8)
        requires
            address < NUM_SPRITES * 4,
        ensures
            r == spec_read_oam(self, address),
    {
        let sprite = self.sprites[(address / 4) as usize];
        match address % 4 {
            0 => sprite.y,
            1 => sprite.x,
            2 => sprite.tile_num,
            _ => sprite.flags.to_byte(),
        }
    }

    /// Writes one byte of sprite-attribute memory, four bytes per sprite.
    pub fn write_oam(&mut self, address: u8, byte: u8)
        requires
            address < NUM_SPRITES * 4,
        ensures
            ({
                let sprite = old(self).sprites@[address as int / 4];
                final(self).sprites@ == old(self).sprites@.update(
                    address as int / 4,
                    if address as int % 4 == 0 {
                        Sprite { y: byte, ..sprite }
                    } else if address as int % 4 == 1 {
                        Sprite { x: byte, ..sprite }
                    } else if address as int % 4 == 2 {
                        Sprite { tile_num: byte, ..sprite }
                    } else {
                        Sprite { flags: spec_sprite_flags_from_byte(byte), ..sprite }
                    },
                )
            }),
            *final(self) == (GPU { sprites: final(self).sprites, ..*old(self) }),
    {
        let index = (address / 4) as usize;
        let mut sprite = self.sprites[index];
        match address % 4 {
            0 => sprite.y = byte,
            1 => sprite.x = byte,
            2 => sprite.tile_num = byte,
            _ => sprite.flags = SpriteFlags::from_byte(byte),
        }
        self.sprites[index] = sprite;
    }

    /// One tick of the video state machine. A powered-off unit does nothing.
    /// Otherwise the per-mode cycle counter runs down; on reaching zero the
    /// mode advances as `spec_gpu_step` says, the scanline leaving
    /// pixel-transfer is rendered into the display sink, the frame-sync is
    /// signalled on entering v-blank, and the entry-edge interrupts are
    /// raised.
    pub fn emulate(&mut self, irq: &mut IRQ)
        ensures
            Self::spec_same_config(old(self), final(self)),
            final(irq).spec_enabled_bits() == old(irq).spec_enabled_bits(),
            ({
                let (mode, rem, line, stat, pending) = spec_gpu_step(
                    *old(self),
                    old(irq).spec_interrupt_bits(),
                );
                &&& final(self).current_mode == mode
                &&& final(self).remaining_cycles == rem
                &&& final(self).current_line == line
                &&& final(self).stat == stat
                &&& final(irq).spec_interrupt_bits() == pending
            }),
            !old(self).control.lcd_on ==> *final(self) == *old(self),
    {
        if !self.control.lcd_on {
            return ;
        }
        if self.remaining_cycles > 1 {
            self.remaining_cycles = self.remaining_cycles - 1;
            return ;
        }
        match self.current_mode {
            Mode::OAM => self.switch_mode(Mode::PixelTransfer, irq),
            Mode::PixelTransfer => {
                self.draw_scanline();
                self.switch_mode(Mode::HBlank, irq);
            },
            Mode::HBlank => {
                self.current_line = self.current_line.wrapping_add(1);
                self.check_compare_line(irq);
                if self.current_line < H_SCANLINE_MAX {
                    self.switch_mode(Mode::OAM, irq);
                } else {
                    self.display.vsync();
                    self.switch_mode(Mode::VBlank, irq);
                }
            },
            Mode::VBlank => {
                self.current_line = self.current_line.wrapping_add(1);
                self.check_compare_line(irq);
                if self.current_line < H_SCANLINE_VBLANK_MAX {
                    // Reset cycles to be able to continue incrementing the
                    // scanline, but do not switch mode (no interrupts).
                    self.remaining_cycles = VBLANK_CYCLES;
                } else {
                    self.current_line = 0;
                    self.switch_mode(Mode::OAM, irq);
                }
            },
        }
    }

    /// Enters a mode: stores its flag bits and cycle budget and raises the
    /// interrupts of its entry edge.
    pub fn switch_mode(&mut self, mode: Mode, irq: &mut IRQ)
        ensures
            *final(self) == (GPU {
                current_mode: mode,
                remaining_cycles: spec_mode_cycles(mode),
                stat: Stat { mode_flag: spec_mode_flag(mode), ..old(self).stat },
                ..*old(self)
            }),
            final(irq).spec_enabled_bits() == old(irq).spec_enabled_bits(),
            final(irq).spec_interrupt_bits() == spec_switch_irq(
                old(self).stat,
                mode,
                old(irq).spec_interrupt_bits(),
            ),
    {
        self.stat.mode_flag = mode.flag_bits();
        self.remaining_cycles = mode.cycles();
        self.current_mode = mode;
        match self.current_mode {
            Mode::OAM => {
                if self.stat.access_oam_interrupt {
                    irq.set_interrupt(&Interrupt::LCDC);
                }
            },
            Mode::HBlank => {
                if self.stat.hblank_interrupt {
                    irq.set_interrupt(&Interrupt::LCDC);
                }
            },
            Mode::VBlank => {
                irq.set_interrupt(&Interrupt::VBlank);
                if self.stat.vblank_interrupt {
                    irq.set_interrupt(&Interrupt::LCDC);
                }
            },
            Mode::PixelTransfer => {},
        }
    }

    /// Compares the scanline to the line-compare register, recording the
    /// match bit and raising the video-STAT interrupt when it is enabled.
    fn check_compare_line(&mut self, irq: &mut IRQ)
        ensures
            *final(self) == (GPU {
                stat: Stat {
                    line_compare: old(self).current_line == old(self).compare_line,
                    ..old(self).stat
                },
                ..*old(self)
            }),
            final(irq).spec_enabled_bits() == old(irq).spec_enabled_bits(),
            final(irq).spec_interrupt_bits() == spec_compare_irq(
                old(self).stat,
                old(self).current_line,
                old(self).compare_line,
                old(irq).spec_interrupt_bits(),
            ),
    {
        self.stat.line_compare = self.current_line == self.compare_line;
        if self.stat.line_compare && self.stat.line_compare_interrupt {
            irq.set_interrupt(&Interrupt::LCDC);
        }
    }

    /// Renders the current scanline into the display sink: background tiles
    /// when the background is enabled, sprites when sprites are enabled.
    /// Only the display changes.
    fn draw_scanline(&mut self)
        ensures
            Self::spec_same_but_display(old(self), final(self)),
    {
        if self.control.bg_on {
            self.draw_tiles();
        }
        if self.control.obj_on {
            self.draw_sprites();
        }
    }

    /// The background pixel a screen column of the current scanline shows.
    pub fn bg_pixel(&self, col: u8) -> (r: Color)
        ensures
            r == spec_bg_pixel(*self, col),
    {
        let y_pos = self.current_line.wrapping_add(self.scroll_y);
        let x_pos = col.wrapping_add(self.scroll_x);
        let tile_row = y_pos / 8;
        let tile_col = x_pos / 8;
        assert(y_pos / 8 < 32 && x_pos / 8 < 32) by (nonlinear_arith);
        let tile = self.get_tile(tile_row, tile_col);
        let color = tile.get_color(y_pos % 8, x_pos % 8);
        self.bg_palette.map(color)
    }

    /// Renders the background row crossing the current scanline: each screen
    /// column receives exactly its `bg_pixel` color.
    fn draw_tiles(&mut self)
        ensures
            Self::spec_same_but_display(old(self), final(self)),
    {
        let mut col: u8 = 0;
        while col < V_SCANLINE_MAX
            invariant
                Self::spec_same_but_display(old(self), self),
            decreases V_SCANLINE_MAX - col,
        {
            let color = self.bg_pixel(col);
            let line = self.current_line;
            self.display.set_pixel(col, line, color);
            col = col + 1;
        }
    }

    /// What one sprite contributes at pixel `x_offset` of its row on the
    /// current scanline, if anything: the on-screen column and mapped color.
    pub fn sprite_pixel(&self, sprite: Sprite, x_offset: u8) -> (r: Option<(u8, Color)>)
        requires
            x_offset < 8,
        ensures
            r == spec_sprite_pixel(*self, sprite, x_offset),
    {
        let y_size: u8 = if self.control.obj_size {
            16
        } else {
            8
        };
        if !self.should_draw_sprite(&sprite, y_size) {
            return None;
        }
        let sprite_row = self.current_line - sprite.get_y();
        assert(sprite_row < y_size);
        let flipped_row = if sprite.flags.flip_y {
            y_size - sprite_row - 1
        } else {
            sprite_row
        };
        assert(flipped_row < y_size);
        // A tall sprite's lower half comes from the following tile
        let tile_num = if flipped_row >= 8 {
            sprite.tile_num.wrapping_add(1)
        } else {
            sprite.tile_num
        };
        let row = if flipped_row >= 8 {
            flipped_row - 8
        } else {
            flipped_row
        };
        let col_in_tile = if sprite.flags.flip_x {
            7 - x_offset
        } else {
            x_offset
        };
        let tile = self.tile_data[tile_num as usize];
        let color = tile.get_color(row, col_in_tile);
        let column = sprite.get_x() as u16 + x_offset as u16;
        if color == Color::White || column >= V_SCANLINE_MAX as u16 {
            // Color index zero is transparent for sprites, and columns past
            // the screen edge are not drawn
            None
        } else {
            let palette = if sprite.flags.palette {
                self.obj_palette_1
            } else {
                self.obj_palette_0
            };
            Some((column as u8, palette.map(color)))
        }
    }

    /// Renders every sprite over the current scanline: each sprite pixel that
    /// `sprite_pixel` yields lands at exactly its column and color.
    fn draw_sprites(&mut self)
        ensures
            Self::spec_same_but_display(old(self), final(self)),
    {
        let mut index: usize = 0;
        while index < NUM_SPRITES
            invariant
                Self::spec_same_but_display(old(self), self),
            decreases NUM_SPRITES - index,
        {
            let sprite = self.sprites[index];
            index = index + 1;
            let mut x_offset: u8 = 0;
            while x_offset < 8
                invariant
                    Self::spec_same_but_display(old(self), self),
                decreases 8 - x_offset,
            {
                match self.sprite_pixel(sprite, x_offset) {
                    Some((column, color)) => {
                        let line = self.current_line;
                        self.display.set_pixel(column, line, color);
                    },
                    None => {},
                }
                x_offset = x_offset + 1;
            }
        }
    }

    /// Sprites should only be drawn when they intersect with the scanline
    fn should_draw_sprite(&self, sprite: &Sprite, y_size: u8) -> (r: bool)
        ensures
            r == (spec_sprite_y(*sprite) <= self.current_line && self.current_line < spec_sprite_y(
                *sprite,
            ) + y_size),
    {
        let y_pos = sprite.get_y();
        let line = self.current_line;
        y_pos <= line && (line as u16) < (y_pos as u16) + (y_size as u16)
    }

    /// The tile record a tile-map cell selects: the cell names a tile either
    /// as an unsigned index, or, in the alternate addressing mode, as a
    /// signed index offset from tile 256 of the 384-tile storage.
    pub open spec fn spec_tile_lookup(&self, row: u8, col: u8) -> Tile {
        let tile_map = if self.control.bg_map {
            self.tile_map_1@
        } else {
            self.tile_map_0@
        };
        let tile_num = tile_map[row * 32 + col];
        if self.control.bg_data {
            self.tile_data@[tile_num as int]
        } else if tile_num < 0x80 {
            self.tile_data@[tile_num + 0x100]
        } else {
            self.tile_data@[tile_num as int]
        }
    }

    /// Given a tile row and col, returns the tile via the proper semantics
    /// by doing a lookup for the number and then the data using the control
    /// register's map-select and data-select bits.
    fn get_tile(&self, row: u8, col: u8) -> (r: Tile)
        requires
            row < 32,
            col < 32,
        ensures
            r == self.spec_tile_lookup(row, col),
    {
        let offset = (row as usize) * 32 + (col as usize);
        let tile_num = if self.control.bg_map {
            self.tile_map_1[offset]
        } else {
            self.tile_map_0[offset]
        };
        if self.control.bg_data {
            self.tile_data[tile_num as usize]
        } else if tile_num < 0x80 {
            // A signed index below 0x80 names a tile past the midpoint
            self.tile_data[tile_num as usize + 0x100]
        } else {
            self.tile_data[tile_num as usize]
        }
    }
}

} // verus!
