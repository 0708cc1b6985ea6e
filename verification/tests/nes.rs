use rust_nes::cartridge::Cartridge;
use rust_nes::cpu::Flags6502;
use rust_nes::nes::Nes;

#[test]
fn master_clock_paces_cpu_and_apu() {
    let mut nes = Nes::new();
    nes.cpu.program_counter = 0x0200;
    // NOP slide in RAM
    for i in 0..0x100 {
        nes.cpu.bus.ram[0x0200 + i] = 0xEA;
    }
    let mut audio_ticks = 0;
    for _ in 0..12 {
        let output = nes.clock().unwrap();
        if output.audio.is_some() {
            audio_ticks += 1;
        }
        assert!(!output.frame_complete);
    }
    assert_eq!(audio_ticks, 2);
    assert_eq!(nes.system_clock_counter, 12);
    // 4 CPU cycles: two NOPs of two cycles each
    assert_eq!(nes.cpu.program_counter, 0x0202);
}

#[test]
fn oam_dma_copies_a_page() {
    let mut nes = Nes::new();
    for i in 0..256 {
        nes.cpu.bus.ram[0x0300 + i] = i as u8;
    }
    nes.cpu.program_counter = 0x0200;
    // LDA #$03; STA $4014
    nes.cpu.bus.ram[0x0200] = 0xA9;
    nes.cpu.bus.ram[0x0201] = 0x03;
    nes.cpu.bus.ram[0x0202] = 0x8D;
    nes.cpu.bus.ram[0x0203] = 0x14;
    nes.cpu.bus.ram[0x0204] = 0x40;
    let mut guard = 0;
    while !nes.cpu.bus.dma_transfer && guard < 100 {
        nes.clock().unwrap();
        guard += 1;
    }
    assert!(nes.cpu.bus.dma_transfer);
    while nes.cpu.bus.dma_transfer && guard < 10000 {
        nes.clock().unwrap();
        guard += 1;
    }
    assert!(!nes.cpu.bus.dma_transfer);
    for i in 0..256 {
        assert_eq!(nes.cpu.bus.ppu.oam[i], i as u8);
    }
}

#[test]
fn vblank_nmi_reaches_the_cpu() {
    let mut nes = Nes::new();
    // JMP $0200 at $0200, and JMP $0000 at the NMI target $0000.
    nes.cpu.program_counter = 0x0200;
    nes.cpu.bus.ram[0x0200] = 0x4C;
    nes.cpu.bus.ram[0x0201] = 0x00;
    nes.cpu.bus.ram[0x0202] = 0x02;
    nes.cpu.bus.ram[0x0000] = 0x4C;
    nes.cpu.bus.ram[0x0001] = 0x00;
    nes.cpu.bus.ram[0x0002] = 0x00;
    nes.cpu.bus.ppu.control = 0x80;
    let mut frames = 0;
    let mut saw_nmi = false;
    for _ in 0..(341 * 262) {
        let output = nes.clock().unwrap();
        if output.frame_complete {
            frames += 1;
        }
        if nes.cpu.stack_pointer == 0xFA {
            saw_nmi = true;
        }
    }
    assert!(saw_nmi);
    assert_eq!(frames, 1);
    assert_eq!(nes.cpu.get_flag(Flags6502::DisableInterrupts), 1);
}

#[test]
fn halting_opcode_stops_the_console() {
    let mut nes = Nes::new();
    nes.cpu.program_counter = 0x0200;
    nes.cpu.bus.ram[0x0200] = 0x02;
    assert_eq!(nes.clock(), Err(0x02));
}

#[test]
fn reset_uses_cartridge_vector() {
    let mut bytes = vec![b'N', b'E', b'S', 0x1A, 1, 1, 0, 0, 0, 0, 0, 0, 0, 0, 0, 0];
    let mut prg = vec![0xEAu8; 16384];
    prg[0x3FFC] = 0x34;
    prg[0x3FFD] = 0x82;
    bytes.extend_from_slice(&prg);
    bytes.extend(std::iter::repeat(0u8).take(8192));
    let cartridge = Cartridge::new("reset.nes", &bytes);
    let mut nes = Nes::new();
    nes.cpu.bus.load_cartridge(cartridge);
    nes.reset();
    assert_eq!(nes.cpu.program_counter, 0x8234);
    assert_eq!(nes.system_clock_counter, 0);
}
