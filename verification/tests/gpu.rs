use std::cell::Cell;
use std::rc::Rc;

use rustboy::display::NoDisplay;
use rustboy::display::VideoDisplay;
use rustboy::gameboy::Color;
use rustboy::gpu::Control;
use rustboy::gpu::GPU;
use rustboy::gpu::H_SCANLINE_MAX;
use rustboy::gpu::MODE_FLAG_ACCESS_OAM;
use rustboy::gpu::MODE_FLAG_HBLANK;
use rustboy::gpu::MODE_FLAG_PIXEL_TRANSFER;
use rustboy::gpu::Mode;
use rustboy::gpu::Palette;
use rustboy::gpu::Sprite;
use rustboy::gpu::SpriteFlags;
use rustboy::gpu::Tile;
use rustboy::gpu::V_SCANLINE_MAX;
use rustboy::irq::IRQ;
use rustboy::irq::Interrupt;

fn test_gpu() -> GPU<NoDisplay> {
    GPU::new(NoDisplay::new())
}

#[test]
fn palette_from_u8() {
    let palette = Palette::from_byte(0b11_10_01_00);

    assert_eq!(
        palette,
        Palette { white: Color::White, light: Color::Light, dark: Color::Dark, black: Color::Black }
    )
}

#[test]
fn u8_from_palette() {
    let palette = Palette::from_byte(0b11_10_01_00);

    assert_eq!(palette.to_byte(), 0b11_10_01_00);
}

#[test]
fn control_from_u8() {
    let control = Control::from_byte(0b10101010);

    assert_eq!(
        control,
        Control {
            lcd_on: true,
            window_map: false,
            window_on: true,
            bg_data: false,
            bg_map: true,
            obj_size: false,
            obj_on: true,
            bg_on: false,
        }
    )
}

#[test]
fn u8_from_control() {
    let control = Control::from_byte(0b01010101);

    assert_eq!(control.to_byte(), 0b01010101);
}

#[test]
fn tile_get_color() {
    let mut tile = Tile::new();

    tile.bytes[3] = 0b10101110;
    tile.bytes[2] = 0b00110101;

    assert_eq!(tile.get_color(1, 0), Color::Dark);
    assert_eq!(tile.get_color(1, 1), Color::White);
    assert_eq!(tile.get_color(1, 2), Color::Black);
    assert_eq!(tile.get_color(1, 3), Color::Light);
    assert_eq!(tile.get_color(1, 4), Color::Dark);
    assert_eq!(tile.get_color(1, 5), Color::Black);
    assert_eq!(tile.get_color(1, 6), Color::Dark);
    assert_eq!(tile.get_color(1, 7), Color::Light);
}

#[test]
fn gpu_bg_palette() {
    let mut gpu = test_gpu();
    let palette = Palette::from_byte(0xFF);

    gpu.set_bg_palette(0xFF);

    assert_eq!(gpu.get_bg_palette(), 0xFF);
    assert_eq!(gpu.bg_palette, palette);
}

#[test]
fn gpu_obj_palette_0() {
    let mut gpu = test_gpu();
    let palette = Palette::from_byte(0xFF);

    gpu.set_obj_palette_0(0xFF);

    assert_eq!(gpu.get_obj_palette_0(), 0xFF);
    assert_eq!(gpu.obj_palette_0, palette);
}

#[test]
fn gpu_obj_palette_1() {
    let mut gpu = test_gpu();
    let palette = Palette::from_byte(0xFF);

    gpu.set_obj_palette_1(0xFF);

    assert_eq!(gpu.get_obj_palette_1(), 0xFF);
    assert_eq!(gpu.obj_palette_1, palette);
}

#[test]
fn gpu_tile_data() {
    let mut gpu = test_gpu();

    assert_eq!(gpu.get_tile_row(0x0), 0x0);
    assert_eq!(gpu.get_tile_row(0x1), 0x0);

    gpu.set_tile_row(0x0, 0xFF);
    gpu.set_tile_row(0x1, 0xAA);

    assert_eq!(gpu.get_tile_row(0x0), 0xFF);
    assert_eq!(gpu.get_tile_row(0x1), 0xAA);

    assert_eq!(gpu.tile_data[0x0].bytes[0x0], 0xFF);
    assert_eq!(gpu.tile_data[0x0].bytes[0x1], 0xAA);
}

#[test]
fn gpu_control() {
    let mut gpu = test_gpu();
    let control = Control::from_byte(0xFF);

    gpu.set_control(0xFF);

    assert_eq!(gpu.get_control(), 0xFF);
    assert_eq!(gpu.control, control);
}

#[test]
fn gpu_stat() {
    let mut gpu = test_gpu();

    gpu.set_stat(0xFF);

    gpu.control.lcd_on = false;
    assert_eq!(gpu.get_stat(), 0x80);

    gpu.control.lcd_on = true;
    assert_eq!(gpu.get_stat(), 0xFF);
}

#[test]
fn gpu_scroll() {
    let mut gpu = test_gpu();

    gpu.set_scroll_x(0x6);
    assert_eq!(gpu.get_scroll_x(), 0x6);

    gpu.set_scroll_y(0x5);
    assert_eq!(gpu.get_scroll_y(), 0x5);
}

#[test]
fn gpu_current_line() {
    let mut gpu = test_gpu();

    gpu.current_line = 0x4;
    assert_eq!(gpu.get_current_line(), 0x4);

    gpu.reset_current_line();
    assert_eq!(gpu.get_current_line(), 0x0);
}

#[test]
fn gpu_compare_line() {
    let mut gpu = test_gpu();

    gpu.set_compare_line(0x4);
    assert_eq!(gpu.get_compare_line(), 0x4);
}

#[test]
fn gpu_emulate_state_transitions() {
    let mut gpu = test_gpu();
    let mut irq = IRQ::enabled();
    gpu.control.lcd_on = true;

    gpu.remaining_cycles = 1;
    gpu.emulate(&mut irq);

    assert_eq!(gpu.current_mode, Mode::PixelTransfer);
    assert_eq!(gpu.remaining_cycles, Mode::PixelTransfer.cycles());
    assert_eq!(gpu.stat.mode_flag, MODE_FLAG_PIXEL_TRANSFER);
    assert_eq!(irq.ack_interrupt(), None);

    gpu.remaining_cycles = 1;
    gpu.emulate(&mut irq);

    assert_eq!(gpu.current_mode, Mode::HBlank);
    assert_eq!(gpu.remaining_cycles, Mode::HBlank.cycles());
    assert_eq!(gpu.stat.mode_flag, MODE_FLAG_HBLANK);
    assert_eq!(irq.ack_interrupt(), None);

    gpu.remaining_cycles = 1;
    gpu.emulate(&mut irq);

    assert_eq!(gpu.current_mode, Mode::OAM);
    assert_eq!(gpu.remaining_cycles, Mode::OAM.cycles());
    assert_eq!(gpu.stat.mode_flag, MODE_FLAG_ACCESS_OAM);
    assert_eq!(irq.ack_interrupt(), None);

    assert_eq!(gpu.current_line, 1);
}

#[test]
fn gpu_emulate_interrupts() {
    let mut gpu = test_gpu();
    let mut irq = IRQ::enabled();

    gpu.control.lcd_on = true;
    gpu.stat.access_oam_interrupt = true;
    gpu.stat.hblank_interrupt = true;
    gpu.stat.vblank_interrupt = true;

    gpu.remaining_cycles = 1;
    gpu.emulate(&mut irq);

    assert_eq!(gpu.current_mode, Mode::PixelTransfer);
    assert_eq!(irq.ack_interrupt(), None);

    gpu.remaining_cycles = 1;
    gpu.emulate(&mut irq);

    assert_eq!(gpu.current_mode, Mode::HBlank);
    assert_eq!(irq.ack_interrupt(), Some(Interrupt::LCDC.get_addr()));

    gpu.current_line = H_SCANLINE_MAX - 1;
    gpu.remaining_cycles = 1;
    gpu.emulate(&mut irq);

    assert_eq!(gpu.current_mode, Mode::VBlank);
    assert_eq!(irq.ack_interrupt(), Some(Interrupt::VBlank.get_addr()));
    assert_eq!(irq.ack_interrupt(), Some(Interrupt::LCDC.get_addr()));

    gpu.current_line = V_SCANLINE_MAX - 1;
    gpu.remaining_cycles = 1;
    gpu.emulate(&mut irq);

    assert_eq!(gpu.current_mode, Mode::OAM);
    assert_eq!(irq.ack_interrupt(), Some(Interrupt::LCDC.get_addr()));
}

#[test]
fn gpu_emulate_vblank() {
    let mut gpu = test_gpu();
    let mut irq = IRQ::enabled();

    gpu.control.lcd_on = true;
    gpu.switch_mode(Mode::HBlank, &mut irq);

    gpu.current_line = H_SCANLINE_MAX - 1;
    gpu.remaining_cycles = 1;
    gpu.emulate(&mut irq);

    assert_eq!(gpu.current_mode, Mode::VBlank);
    assert_eq!(gpu.current_line, H_SCANLINE_MAX);
    assert_eq!(irq.ack_interrupt(), Some(Interrupt::VBlank.get_addr()));

    gpu.remaining_cycles = 1;
    gpu.emulate(&mut irq);

    assert_eq!(gpu.current_mode, Mode::VBlank);
    assert_eq!(gpu.current_line, H_SCANLINE_MAX + 1);
    assert_eq!(irq.ack_interrupt(), None);

    gpu.current_line = V_SCANLINE_MAX - 1;
    gpu.remaining_cycles = 1;
    gpu.emulate(&mut irq);

    assert_eq!(gpu.current_mode, Mode::OAM);
    assert_eq!(gpu.current_line, 0);
    assert_eq!(irq.ack_interrupt(), None);
}

#[test]
fn gpu_emulate_compare_line() {
    let mut gpu = test_gpu();
    let mut irq = IRQ::enabled();

    gpu.control.lcd_on = true;
    gpu.compare_line = 1;
    gpu.stat.line_compare_interrupt = true;

    gpu.switch_mode(Mode::HBlank, &mut irq);
    gpu.remaining_cycles = 1;
    gpu.emulate(&mut irq);

    assert_eq!(gpu.current_line, 1);
    assert_eq!(gpu.stat.line_compare, true);
    assert_eq!(irq.ack_interrupt(), Some(Interrupt::LCDC.get_addr()));

    gpu.switch_mode(Mode::HBlank, &mut irq);
    gpu.remaining_cycles = 1;
    gpu.emulate(&mut irq);

    assert_eq!(gpu.current_line, 2);
    assert_eq!(gpu.stat.line_compare, false);
    assert_eq!(irq.ack_interrupt(), None);
}

#[test]
fn gpu_off_ignores_emulate() {
    let mut gpu = test_gpu();
    let mut irq = IRQ::enabled();

    gpu.remaining_cycles = 1;
    gpu.emulate(&mut irq);

    assert_eq!(gpu.current_mode, Mode::OAM);
    assert_eq!(gpu.remaining_cycles, 1);
    assert_eq!(irq.ack_interrupt(), None);
}

#[test]
fn vsync_fires_on_entering_vblank() {
    struct VsyncCounter {
        vsyncs: Rc<Cell<u32>>,
    }
    impl VideoDisplay for VsyncCounter {
        fn set_pixel(&mut self, _x: u8, _y: u8, _color: Color) {}
        fn vsync(&mut self) {
            self.vsyncs.set(self.vsyncs.get() + 1);
        }
    }

    let vsyncs = Rc::new(Cell::new(0u32));
    let mut gpu = GPU::new(VsyncCounter { vsyncs: vsyncs.clone() });
    let mut irq = IRQ::enabled();

    gpu.control.lcd_on = true;
    gpu.switch_mode(Mode::HBlank, &mut irq);
    gpu.current_line = H_SCANLINE_MAX - 1;
    gpu.remaining_cycles = 1;
    gpu.emulate(&mut irq);

    assert_eq!(gpu.current_mode, Mode::VBlank);
    assert_eq!(vsyncs.get(), 1);
    assert_eq!(irq.ack_interrupt(), Some(Interrupt::VBlank.get_addr()));
}

#[test]
fn bg_pixel_reads_tile_through_scroll_and_palette() {
    let mut gpu = test_gpu();

    // Identity background palette, unsigned tile addressing, map cell 0
    // names tile 1; its row 0 column 0 has color index 0b11.
    gpu.set_bg_palette(0b11100100);
    gpu.set_control(0b10010001);
    gpu.set_tile_map_0(0, 1);
    gpu.set_tile_row(16, 0b1000_0000);
    gpu.set_tile_row(17, 0b1000_0000);

    gpu.current_line = 0;
    assert_eq!(gpu.bg_pixel(0), Color::Black);
    assert_eq!(gpu.bg_pixel(1), Color::White);

    // Scrolling one pixel right moves the black pixel out of column 0
    gpu.set_scroll_x(1);
    assert_eq!(gpu.bg_pixel(0), Color::White);
}

#[test]
fn sprite_pixel_maps_clips_and_skips_transparent() {
    let mut gpu = test_gpu();
    gpu.set_obj_palette_0(0b11100100);
    // Tile 2, row 0, column 0 has color index 0b01
    gpu.set_tile_row(32, 0b1000_0000);

    let flags = SpriteFlags { priority: false, flip_y: false, flip_x: false, palette: false };
    // Stored coordinates are offset by 16 and 8: this sprite's top-left
    // lands at screen (4, 0)
    let sprite = Sprite { y: 16, x: 12, tile_num: 2, flags };

    gpu.current_line = 0;
    assert_eq!(gpu.sprite_pixel(sprite, 0), Some((4, Color::Light)));
    // Column 1 of the tile row has color index zero: transparent
    assert_eq!(gpu.sprite_pixel(sprite, 1), None);
    // A line the sprite misses contributes nothing
    gpu.current_line = 9;
    assert_eq!(gpu.sprite_pixel(sprite, 0), None);

    // A sprite hanging past the right screen edge is clipped
    gpu.current_line = 0;
    let clipped = Sprite { y: 16, x: 170, tile_num: 2, flags };
    assert_eq!(gpu.sprite_pixel(clipped, 0), None);
}

#[test]
fn oam_round_trip() {
    let mut gpu = test_gpu();

    gpu.write_oam(0, 42);
    gpu.write_oam(1, 17);
    gpu.write_oam(2, 3);
    gpu.write_oam(3, 0b1111_0000);

    assert_eq!(gpu.read_oam(0), 42);
    assert_eq!(gpu.read_oam(1), 17);
    assert_eq!(gpu.read_oam(2), 3);
    assert_eq!(gpu.read_oam(3), 0b1111_0000);
    assert_eq!(gpu.sprites[0].y, 42);
    assert_eq!(gpu.sprites[0].x, 17);
}
