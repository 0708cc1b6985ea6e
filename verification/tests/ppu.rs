use rust_nes::ppu::palette::{get_colors, Color};
use rust_nes::ppu::registers::{Control2C02, ScrollAddress};
use rust_nes::ppu::{Olc2C02, PPU_ADDRESS, PPU_DATA, SCROLL, STATUS, CONTROL};

#[test]
fn system_palette_entries() {
    let colors = get_colors();
    assert_eq!(colors[0], Color { r: 84, g: 84, b: 84 });
    assert_eq!(colors[0x20], Color { r: 236, g: 238, b: 236 });
    assert_eq!(colors[0x3F], Color { r: 0, g: 0, b: 0 });
    assert_eq!(Color::from_rgb(1, 2, 3), Color { r: 1, g: 2, b: 3 });
}

#[test]
fn ppu_address_two_writes_set_vram_address() {
    let mut ppu = Olc2C02::new();
    ppu.cpu_write(PPU_ADDRESS, 0xFF);
    assert!(ppu.address_latch);
    ppu.cpu_write(PPU_ADDRESS, 0x34);
    assert_eq!(ppu.current_vram_address, 0x3F34);
    assert_eq!(ppu.temp_vram_address, 0x3F34);
    assert!(!ppu.address_latch);
}

#[test]
fn status_read_clears_vblank_and_toggle() {
    let mut ppu = Olc2C02::new();
    ppu.status = 0x80;
    ppu.ppu_data_buffer = 0x1F;
    ppu.address_latch = true;
    assert_eq!(ppu.cpu_read(STATUS, false), 0x9F);
    assert_eq!(ppu.status, 0);
    assert!(!ppu.address_latch);
    assert_eq!(ppu.cpu_read(CONTROL, false), 0);
}

#[test]
fn palette_write_and_mirrored_read() {
    let mut ppu = Olc2C02::new();
    ppu.cpu_write(PPU_ADDRESS, 0x3F);
    ppu.cpu_write(PPU_ADDRESS, 0x10);
    ppu.cpu_write(PPU_DATA, 0x2A);
    assert_eq!(ppu.current_vram_address, 0x3F11);
    assert_eq!(ppu.pallete_table[0], 0x2A);
    assert_eq!(ppu.ppu_read(0x3F00, false), 0x2A);
    assert_eq!(ppu.ppu_read(0x3F20, false), 0x2A);
    // Palette reads above $3F00 are not buffered.
    ppu.cpu_write(PPU_ADDRESS, 0x3F);
    ppu.cpu_write(PPU_ADDRESS, 0x30);
    assert_eq!(ppu.cpu_read(PPU_DATA, false), 0x2A);
}

#[test]
fn vram_increment_follows_control() {
    let mut ppu = Olc2C02::new();
    ppu.cpu_write(CONTROL, 0x04);
    ppu.cpu_write(PPU_ADDRESS, 0x3F);
    ppu.cpu_write(PPU_ADDRESS, 0x00);
    ppu.cpu_write(PPU_DATA, 1);
    assert_eq!(ppu.current_vram_address, 0x3F20);
}

#[test]
fn control_write_sets_nametable_bits() {
    let mut ppu = Olc2C02::new();
    ppu.cpu_write(CONTROL, 0x83);
    assert_eq!(ppu.control, 0x83);
    assert_eq!(ppu.temp_vram_address, 0x0C00);
}

#[test]
fn scroll_writes_fill_temporary_address() {
    let mut ppu = Olc2C02::new();
    ppu.cpu_write(SCROLL, 0b1010_1101);
    assert_eq!(ppu.temp_vram_address, 0b10101);
    assert_eq!(ppu.fine_x_scroll, 0b101);
    ppu.cpu_write(SCROLL, 0b0110_0011);
    assert_eq!(ppu.temp_vram_address, (0b011 << 12) | (0b01100 << 5) | 0b10101);
    assert!(!ppu.address_latch);
}

#[test]
fn pattern_memory_without_cartridge() {
    let mut ppu = Olc2C02::new();
    ppu.ppu_write(0x1005, 0x99);
    assert_eq!(ppu.pattern_table[1][5], 0x99);
    assert_eq!(ppu.ppu_read(0x1005, false), 0x99);
    // Nametable accesses need a cartridge to pick the mirroring.
    ppu.ppu_write(0x2000, 7);
    assert_eq!(ppu.ppu_read(0x2000, false), 0);
}

#[test]
fn frame_completes_after_a_full_raster() {
    let mut ppu = Olc2C02::new();
    let clocks_to_wrap = 341 * 261;
    for _ in 0..clocks_to_wrap - 1 {
        ppu.clock();
    }
    assert!(!ppu.frame_complete);
    ppu.clock();
    assert!(ppu.frame_complete);
    assert_eq!(ppu.scanline, -1);
    assert_eq!(ppu.cycle, 0);
}

#[test]
fn vertical_blank_raises_nmi_when_enabled() {
    let mut ppu = Olc2C02::new();
    ppu.cpu_write(CONTROL, 0x80);
    for _ in 0..(341 * 241 + 2) {
        ppu.clock();
    }
    assert!(ppu.nmi);
    assert_eq!(ppu.status & 0x80, 0x80);
}

#[test]
fn pattern_table_picture() {
    let mut ppu = Olc2C02::new();
    // Tile 0, row 0: low plane 0b1000_0000, high plane 0b0000_0001.
    ppu.pattern_table[0][0] = 0x80;
    ppu.pattern_table[0][8] = 0x01;
    ppu.pallete_table[1] = 0x20;
    let picture = ppu.get_pattern_table(0, 0);
    let colors = get_colors();
    assert_eq!(picture[0][0], colors[0x20]);
    assert_eq!(picture[0][7], colors[0x20]);
    assert_eq!(picture[0][3], colors[0]);
}

#[test]
fn register_masks() {
    assert_eq!(Control2C02::GenerateNmi.mask(), 0x80);
    assert_eq!(ScrollAddress::FineYScroll2.mask(), 0x4000);
}

#[test]
fn frames_repeat_every_341_by_262_clocks() {
    let mut ppu = Olc2C02::new();
    for _ in 0..341 * 261 {
        ppu.clock();
    }
    assert!(ppu.frame_complete);
    ppu.frame_complete = false;
    for _ in 0..341 * 262 - 1 {
        ppu.clock();
    }
    assert!(!ppu.frame_complete);
    ppu.clock();
    assert!(ppu.frame_complete);
}

#[test]
fn ppu_data_reads_are_delayed_by_one() {
    let mut ppu = Olc2C02::new();
    ppu.pattern_table[0][0x10] = 0x77;
    ppu.pattern_table[0][0x11] = 0x88;
    ppu.cpu_write(PPU_ADDRESS, 0x00);
    ppu.cpu_write(PPU_ADDRESS, 0x10);
    assert_eq!(ppu.cpu_read(PPU_DATA, false), 0);
    assert_eq!(ppu.cpu_read(PPU_DATA, false), 0x77);
    assert_eq!(ppu.cpu_read(PPU_DATA, false), 0x88);
}

#[test]
fn vertical_scroll_step_switches_nametable_after_row_29() {
    let mut ppu = Olc2C02::new();
    ppu.mask = 0x08;
    ppu.scanline = 256;
    ppu.cycle = 5;
    // Fine Y 7, coarse Y 29: both wrap to 0 and the vertical nametable bit flips.
    ppu.current_vram_address = 0x73A0;
    ppu.clock();
    assert_eq!(ppu.current_vram_address, 0x0800);
    // Fine Y below 7 just steps.
    ppu.current_vram_address = 0x1000;
    ppu.clock();
    assert_eq!(ppu.current_vram_address, 0x2000);
    // Coarse Y 31 wraps without switching.
    ppu.current_vram_address = 0x73E0 | 0x0800;
    ppu.clock();
    assert_eq!(ppu.current_vram_address, 0x0800);
}

#[test]
fn rendering_switches_come_from_the_mask_register() {
    let mut ppu = Olc2C02::new();
    ppu.status = 0x18;
    ppu.scanline = 256;
    ppu.current_vram_address = 0x1000;
    ppu.clock();
    // Rendering is off in the mask register, so the vertical position is left alone.
    assert_eq!(ppu.current_vram_address, 0x1000);
}
