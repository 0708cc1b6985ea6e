use rust_nes::mappers::mapper004::bank_select::BankSelect;
use rust_nes::cartridge::cartridge_header::is_complete_ines_image;
use rust_nes::cartridge::mirror::Mirror;
use rust_nes::cartridge::Cartridge;
use rust_nes::mappers::mapper::Mapper;
use rust_nes::mappers::mapper000::Mapper000;
use rust_nes::mappers::mapper001::mapper001::Mapper001;
use rust_nes::mappers::mapper002::Mapper002;
use rust_nes::mappers::mapper004::interrupt_request::InterruptRequest;
use rust_nes::mappers::mapper004::Mapper004;
use rust_nes::ppu::Olc2C02;

/// An iNES image: header, `prg` 16KB banks filled with their bank number, `chr` 8KB banks.
fn ines_image(mapper: u8, prg: u8, chr: u8, flags: u8) -> Vec<u8> {
    let mut bytes = vec![b'N', b'E', b'S', 0x1A, prg, chr, (mapper << 4) | flags, mapper & 0xF0];
    bytes.extend_from_slice(&[0; 8]);
    for bank in 0..prg {
        bytes.extend(std::iter::repeat(bank).take(16384));
    }
    for bank in 0..chr {
        bytes.extend(std::iter::repeat(0x80 | bank).take(8192));
    }
    bytes
}

#[test]
fn nrom_mirrors_a_single_prg_bank() {
    let mapper = Mapper000::new(1, 1, false);
    let low = mapper.cpu_map_read(0x8005);
    let high = mapper.cpu_map_read(0xC005);
    assert!(low.read_from_cart_ram);
    assert_eq!(low.mapped_address, 5);
    assert_eq!(high.mapped_address, 5);
    assert!(!mapper.cpu_map_read(0x6000).read_from_cart_ram);
}

#[test]
fn mmc1_five_writes_load_control() {
    let mut mapper = Mapper001::new(8, 0, false);
    // Value 0b10011, least significant bit first.
    for bit in [1u8, 1, 0, 0, 1] {
        mapper.cpu_map_write(0x8000, bit);
    }
    assert_eq!(mapper.control_register.0 & 0x1F, 0b10011);
    assert_eq!(mapper.shift_register.bit_shift, 0);
    assert_eq!(mapper.get_mirror(), Mirror::Horizontal);
}

#[test]
fn mmc1_reset_write_empties_the_port() {
    let mut mapper = Mapper001::new(8, 0, false);
    mapper.cpu_map_write(0x8000, 1);
    mapper.cpu_map_write(0x8000, 0x80);
    assert_eq!(mapper.shift_register.bit_shift, 0);
    assert_eq!(mapper.control_register.0 & 0x0C, 0x0C);
}

#[test]
fn uxrom_switches_the_low_bank() {
    let mut mapper = Mapper002::new(4, 0, false);
    mapper.cpu_map_write(0x8000, 2);
    assert_eq!(mapper.cpu_map_read(0x8000).mapped_address, 2 * 16384);
    assert_eq!(mapper.cpu_map_read(0xC000).mapped_address, 3 * 16384);
}

#[test]
fn cartridge_from_ines_bytes() {
    let bytes = ines_image(0, 2, 1, 0x01);
    assert!(is_complete_ines_image(&bytes));
    let mut cartridge = Cartridge::new("game.nes", &bytes);
    assert_eq!(cartridge.mapper_id, 0);
    assert_eq!(cartridge.prg_banks, 2);
    assert_eq!(cartridge.mirror, Mirror::Vertical);
    assert_eq!(cartridge.prg_memory.len(), 32768);
    let mut data = 0;
    assert!(cartridge.cpu_read(0xC000, &mut data));
    assert_eq!(data, 1);
    assert!(!cartridge.cpu_read(0x0000, &mut data));
    assert!(cartridge.ppu_read(0x0000, &mut data));
    assert_eq!(data, 0x80);
}

#[test]
fn truncated_image_is_refused() {
    let mut bytes = ines_image(0, 1, 0, 0);
    bytes.truncate(100);
    assert!(!is_complete_ines_image(&bytes));
}

#[test]
fn chr_ram_reads_back() {
    let bytes = ines_image(0, 1, 0, 0);
    let mut cartridge = Cartridge::new("ram.nes", &bytes);
    assert_eq!(cartridge.chr_memory.len(), 8192);
    assert!(cartridge.ppu_write(0x0123, 0x5A));
    let mut data = 0;
    assert!(cartridge.ppu_read(0x0123, &mut data));
    assert_eq!(data, 0x5A);
}

#[test]
fn nametable_writes_follow_board_mirroring() {
    let bytes = ines_image(0, 1, 1, 0x01);
    let mut ppu = Olc2C02::new();
    ppu.cartridge = Some(Cartridge::new("vertical.nes", &bytes));
    ppu.ppu_write(0x2405, 0x11);
    ppu.ppu_write(0x2C06, 0x22);
    ppu.ppu_write(0x2807, 0x33);
    assert_eq!(ppu.name_table[1][5], 0x11);
    assert_eq!(ppu.name_table[1][6], 0x22);
    assert_eq!(ppu.name_table[0][7], 0x33);
    // Reads reach the same tables: with vertical mirroring $2000/$2800 and $2400/$2C00
    // are the same memory.
    assert_eq!(ppu.ppu_read(0x2405, false), 0x11);
    assert_eq!(ppu.ppu_read(0x2C05, false), 0x11);
    assert_eq!(ppu.ppu_read(0x2406, false), 0x22);
    assert_eq!(ppu.ppu_read(0x2007, false), 0x33);
    assert_eq!(ppu.ppu_read(0x3007, false), 0x33);
    assert_eq!(ppu.ppu_read(0x2005, false), 0);
}

#[test]
fn nametable_horizontal_mirroring_reads_back() {
    let bytes = ines_image(0, 1, 1, 0x00);
    let mut ppu = Olc2C02::new();
    ppu.cartridge = Some(Cartridge::new("horizontal.nes", &bytes));
    ppu.ppu_write(0x2401, 0x44);
    ppu.ppu_write(0x2C02, 0x55);
    assert_eq!(ppu.ppu_read(0x2001, false), 0x44);
    assert_eq!(ppu.ppu_read(0x2802, false), 0x55);
    assert_eq!(ppu.ppu_read(0x2802 - 0x0400, false), 0);
}

#[test]
fn mmc3_interrupt_after_latch_plus_one_scanlines() {
    let mut irq = InterruptRequest::new();
    irq.latch = 3;
    irq.set_enabled(true);
    for expected in [3u8, 2, 1] {
        irq.clock();
        assert_eq!(irq.counter, expected);
        assert!(!irq.active);
    }
    irq.clock();
    assert_eq!(irq.counter, 0);
    assert!(irq.active);
    irq.set_enabled(false);
    assert!(!irq.active);
}

#[test]
fn mmc3_two_kilobyte_chr_banks_ignore_the_low_bit() {
    let mut banks = BankSelect::new(2);
    // R0 = 5 selects the 2 KB bank starting at 1 KB bank 4.
    banks.select_bank(0);
    banks.set_bank_data(5);
    assert_eq!(banks.chr_banks[0], 0x1000);
    assert_eq!(banks.chr_banks[1], 0x1400);
    // R2 = 5 is a 1 KB bank and keeps its low bit.
    banks.select_bank(2);
    banks.set_bank_data(5);
    assert_eq!(banks.chr_banks[4], 0x1400);
    // With A12 inverted the 2 KB banks move to $1000-$1FFF.
    banks.select_bank(0x80);
    banks.set_bank_data(7);
    assert_eq!(banks.chr_banks[4], 0x1800);
    assert_eq!(banks.chr_banks[5], 0x1C00);
}

#[test]
fn mmc1_work_ram_reads_back_what_was_written() {
    let mut mapper = Mapper001::new(8, 0, false);
    let written = mapper.cpu_map_write(0x6123, 0x5A);
    assert!(written.handled);
    let r = mapper.cpu_map_read(0x6123);
    assert!(r.read_from_mapper_ram);
    assert!(!r.read_from_cart_ram);
    assert_eq!(r.data, 0x5A);
    // Another cell is untouched.
    assert_eq!(mapper.cpu_map_read(0x6124).data, 0);
}

#[test]
fn mmc3_battery_image_is_saved_whole() {
    let mut mapper = Mapper004::new(2, 1, true);
    let mut image = vec![0u8; 8192 + 16];
    image[0] = 0x11;
    image[8192] = 0x22;
    image[8192 + 15] = 0x33;
    mapper.load_battery_backed_ram(image);
    assert_eq!(mapper.cpu_map_read(0x6000).data, 0x11);
    mapper.cpu_map_write(0x6001, 0x44);
    let saved = mapper.save_battery_backed_ram().unwrap();
    assert_eq!(saved.len(), 8192 + 16);
    assert_eq!(saved[0], 0x11);
    assert_eq!(saved[1], 0x44);
    assert_eq!(saved[8192], 0x22);
    assert_eq!(saved[8192 + 15], 0x33);
}
