use rust_nes::cpu::{CpuBus, Olc6502};
use rust_nes::memory::Memory;
use rust_nes::ppu::Olc2C02;

#[test]
fn memory_ram_mirrors_and_resets() {
    let mut memory = Memory::new(Olc2C02::new());
    memory.write(0x0003, 9);
    assert_eq!(memory.read(0x1803, false), 9);
    memory.reset();
    assert_eq!(memory.read(0x0003, false), 0);
}

#[test]
fn memory_routes_registers() {
    let mut memory = Memory::new(Olc2C02::new());
    memory.write(0x2006, 0x21);
    memory.write(0x2006, 0x08);
    assert_eq!(memory.ppu.current_vram_address, 0x2108);
    memory.write(0x4014, 7);
    assert!(memory.dma_transfer);
    assert_eq!(memory.dma.page, 7);
    // APU registers are handed to the PPU, which ignores them.
    memory.write(0x4000, 0xFF);
    assert_eq!(memory.ppu.current_vram_address, 0x2108);
}

#[test]
fn memory_second_pad_port() {
    let mut memory = Memory::new(Olc2C02::new());
    memory.controllers[1].buttons[7] = true;
    memory.controllers[1].set_state();
    assert_eq!(memory.read(0x4017, false), 1);
    assert_eq!(memory.read(0x4016, false), 0);
    // $4017 is the APU frame counter, so a write there never reaches the second pad.
    memory.controllers[1].buttons[7] = true;
    memory.write(0x4017, 1);
    assert_eq!(memory.controllers[1].state, 0);
}

#[test]
fn cpu_runs_on_memory() {
    let mut cpu = Olc6502::new(Memory::new(Olc2C02::new()));
    // LDX #$07; STX $0400; INC $0400
    let program = [0xA2, 0x07, 0x8E, 0x00, 0x04, 0xEE, 0x00, 0x04];
    for (i, byte) in program.iter().enumerate() {
        cpu.bus.ram[0x0200 + i] = *byte;
    }
    cpu.program_counter = 0x0200;
    for _ in 0..3 {
        cpu.clock().unwrap();
        while cpu.cycles > 0 {
            cpu.clock().unwrap();
        }
    }
    assert_eq!(CpuBus::read(&mut cpu.bus, 0x0400), 8);
}

#[test]
fn memory_write_is_read_back_through_every_mirror() {
    let mut memory = Memory::new(Olc2C02::new());
    memory.write(0x0A45, 0x77);
    for address in [0x0245u16, 0x0A45, 0x1245, 0x1A45] {
        assert_eq!(memory.read(address, false), 0x77);
    }
    assert_eq!(memory.read(0x0246, false), 0);
}

#[test]
fn subroutine_returns_on_memory() {
    let mut cpu = Olc6502::new(Memory::new(Olc2C02::new()));
    // JSR $0210; ...; $0210: PHA; LDA #$00; PLA; RTS
    let program = [0x20, 0x10, 0x02];
    for (i, byte) in program.iter().enumerate() {
        cpu.bus.ram[0x0200 + i] = *byte;
    }
    for (i, byte) in [0x48u8, 0xA9, 0x00, 0x68, 0x60].iter().enumerate() {
        cpu.bus.ram[0x0210 + i] = *byte;
    }
    cpu.program_counter = 0x0200;
    cpu.accumulator = 0x5C;
    let stack_pointer = cpu.stack_pointer;
    for _ in 0..5 {
        cpu.clock().unwrap();
        while cpu.cycles > 0 {
            cpu.clock().unwrap();
        }
    }
    assert_eq!(cpu.program_counter, 0x0203);
    assert_eq!(cpu.stack_pointer, stack_pointer);
    assert_eq!(cpu.accumulator, 0x5C);
}
