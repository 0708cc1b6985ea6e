use rust_nes::bus::Bus;
use rust_nes::cpu::CpuBus;

#[test]
fn ram_is_mirrored_every_2kb() {
    let mut bus = Bus::new();
    bus.write(0x0001, 0xAB);
    assert_eq!(bus.read(0x0001), 0xAB);
    assert_eq!(bus.read(0x0801), 0xAB);
    assert_eq!(bus.read(0x1001), 0xAB);
    assert_eq!(bus.read(0x1801), 0xAB);
    assert_eq!(bus.read(0x0002), 0);
    bus.write(0x1FFF, 0x11);
    assert_eq!(bus.ram[0x07FF], 0x11);
}

#[test]
fn dma_register_starts_a_transfer() {
    let mut bus = Bus::new();
    bus.write(0x4014, 0x02);
    assert!(bus.dma_transfer);
    assert_eq!(bus.dma.page, 0x02);
    assert_eq!(bus.dma.address, 0);
    assert_eq!(bus.read(0x4014), 0);
}

#[test]
fn ppu_registers_are_mirrored() {
    let mut bus = Bus::new();
    bus.write(0x2006, 0x3F);
    bus.write(0x3FFE, 0x00);
    assert_eq!(bus.ppu.current_vram_address, 0x3F00);
}

#[test]
fn controller_port_shifts_out_buttons() {
    let mut bus = Bus::new();
    bus.controllers[0].buttons[7] = true;
    bus.controllers[0].buttons[0] = true;
    bus.write(0x4016, 1);
    assert_eq!(bus.controllers[0].state, 0x81);
    assert_eq!(bus.read(0x4016), 1);
    assert_eq!(bus.read(0x4016), 0);
    assert_eq!(bus.controllers[0].state, 0x04);
}

#[test]
fn apu_status_through_bus() {
    let mut bus = Bus::new();
    bus.write(0x4015, 0x01);
    bus.write(0x4003, 0x08);
    assert_eq!(bus.read(0x4015) & 0x01, 0x01);
    bus.write(0x4015, 0x00);
    assert_eq!(bus.read(0x4015) & 0x01, 0x00);
}

#[test]
fn reset_clears_ram() {
    let mut bus = Bus::new();
    bus.write(0x0100, 5);
    bus.reset();
    assert_eq!(bus.read(0x0100), 0);
}

#[test]
fn unmapped_addresses_read_zero() {
    let mut bus = Bus::new();
    assert_eq!(bus.read(0x5000), 0);
    assert_eq!(bus.read(0x8000), 0);
    bus.write(0x5000, 1);
}
