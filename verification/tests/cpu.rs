use rust_nes::cpu::address_modes::ind;
use rust_nes::bus::Bus;
use rust_nes::cpu::unofficial_opcodes::{lax, sax, stp};
use rust_nes::cpu::{CpuBus, Flags6502, Olc6502};

/// A CPU whose program, placed in work RAM at $0200, starts running there.
fn cpu_running(program: &[u8]) -> Olc6502<Bus> {
    let mut cpu = Olc6502::new(Bus::new());
    for (i, byte) in program.iter().enumerate() {
        cpu.bus.ram[0x0200 + i] = *byte;
    }
    cpu.program_counter = 0x0200;
    cpu
}

fn run_instruction(cpu: &mut Olc6502<Bus>) {
    cpu.clock().unwrap();
    while cpu.cycles > 0 {
        cpu.clock().unwrap();
    }
}

#[test]
fn new_cpu_state() {
    let cpu = Olc6502::new(Bus::new());
    assert_eq!(cpu.stack_pointer, 0xFD);
    assert_eq!(cpu.program_counter, 0xC000);
    assert_eq!(cpu.status_register, 0);
    assert_eq!(cpu.cycles, 0);
}

#[test]
fn flags_read_back_and_stay_apart() {
    let mut cpu = Olc6502::new(Bus::new());
    cpu.set_flag(Flags6502::Overflow, true);
    cpu.set_flag(Flags6502::CarryBit, true);
    assert_eq!(cpu.get_flag(Flags6502::Overflow), 1);
    assert_eq!(cpu.get_flag(Flags6502::CarryBit), 1);
    assert_eq!(cpu.get_flag(Flags6502::Zero), 0);
    assert_eq!(cpu.status_register, 0x41);
    cpu.set_flag(Flags6502::CarryBit, false);
    assert_eq!(cpu.get_flag(Flags6502::CarryBit), 0);
    assert_eq!(cpu.get_flag(Flags6502::Overflow), 1);
}

#[test]
fn push_then_pull_returns_value() {
    let mut cpu = Olc6502::new(Bus::new());
    cpu.write_to_stack(0x42);
    assert_eq!(cpu.stack_pointer, 0xFC);
    assert_eq!(cpu.bus.ram[0x01FD], 0x42);
    assert_eq!(cpu.read_from_stack(), 0x42);
    assert_eq!(cpu.stack_pointer, 0xFD);
}

#[test]
fn counter_push_then_pull() {
    let mut cpu = Olc6502::new(Bus::new());
    cpu.program_counter = 0xBEEF;
    cpu.write_counter_to_stack();
    assert_eq!(cpu.read_counter_from_stack(), 0xBEEF);
    assert_eq!(cpu.stack_pointer, 0xFD);
}

#[test]
fn load_store_program() {
    // LDA #$05; STA $10; LDX $10; INX; STX $0811 (mirror of $0011)
    let mut cpu = cpu_running(&[0xA9, 0x05, 0x85, 0x10, 0xA6, 0x10, 0xE8, 0x8E, 0x11, 0x08]);
    for _ in 0..5 {
        run_instruction(&mut cpu);
    }
    assert_eq!(cpu.accumulator, 5);
    assert_eq!(cpu.x_register, 6);
    assert_eq!(cpu.bus.ram[0x10], 5);
    assert_eq!(cpu.bus.ram[0x11], 6);
    assert_eq!(cpu.program_counter, 0x020A);
}

#[test]
fn lda_immediate_takes_two_cycles() {
    let mut cpu = cpu_running(&[0xA9, 0x00]);
    cpu.clock().unwrap();
    assert_eq!(cpu.cycles, 1);
    assert_eq!(cpu.get_flag(Flags6502::Zero), 1);
    cpu.clock().unwrap();
    assert_eq!(cpu.cycles, 0);
}

#[test]
fn jsr_then_rts_returns() {
    // $0200: JSR $0210; $0203: NOP ... $0210: RTS
    let mut program = vec![0u8; 0x20];
    program[0] = 0x20;
    program[1] = 0x10;
    program[2] = 0x02;
    program[3] = 0xEA;
    program[0x10] = 0x60;
    let mut cpu = cpu_running(&program);
    run_instruction(&mut cpu);
    assert_eq!(cpu.program_counter, 0x0210);
    assert_eq!(cpu.stack_pointer, 0xFB);
    run_instruction(&mut cpu);
    assert_eq!(cpu.program_counter, 0x0203);
    assert_eq!(cpu.stack_pointer, 0xFD);
}

#[test]
fn pha_then_pla_restores_accumulator() {
    // LDA #$80; PHA; LDA #$00; PLA
    let mut cpu = cpu_running(&[0xA9, 0x80, 0x48, 0xA9, 0x00, 0x68]);
    for _ in 0..4 {
        run_instruction(&mut cpu);
    }
    assert_eq!(cpu.accumulator, 0x80);
    assert_eq!(cpu.get_flag(Flags6502::Negative), 1);
    assert_eq!(cpu.stack_pointer, 0xFD);
}

#[test]
fn branch_taken_costs_a_cycle() {
    // LDA #$00 (sets Z); BEQ +2
    let mut cpu = cpu_running(&[0xA9, 0x00, 0xF0, 0x02]);
    run_instruction(&mut cpu);
    cpu.clock().unwrap();
    // two base cycles and one for the taken branch; one spent
    assert_eq!(cpu.cycles, 2);
    assert_eq!(cpu.program_counter, 0x0206);
}

#[test]
fn halting_opcode_is_reported() {
    let mut cpu = cpu_running(&[0x02]);
    assert_eq!(cpu.clock(), Err(0x02));
}

#[test]
fn interrupt_request_is_masked() {
    let mut cpu = Olc6502::new(Bus::new());
    cpu.set_flag(Flags6502::DisableInterrupts, true);
    cpu.program_counter = 0x1234;
    cpu.interrupt_request();
    assert_eq!(cpu.program_counter, 0x1234);
    assert_eq!(cpu.stack_pointer, 0xFD);
}

#[test]
fn interrupt_request_pushes_and_jumps() {
    let mut cpu = Olc6502::new(Bus::new());
    cpu.program_counter = 0x1234;
    cpu.interrupt_request();
    // With no cartridge the vector at $FFFE reads as zero.
    assert_eq!(cpu.program_counter, 0x0000);
    assert_eq!(cpu.stack_pointer, 0xFA);
    assert_eq!(cpu.cycles, 7);
    assert_eq!(cpu.bus.ram[0x01FD], 0x12);
    assert_eq!(cpu.bus.ram[0x01FC], 0x34);
    assert_eq!(cpu.bus.ram[0x01FB] & 0x30, 0x20);
    assert_eq!(cpu.get_flag(Flags6502::DisableInterrupts), 1);
}

#[test]
fn reset_reads_vector_and_clears_registers() {
    let mut cpu = Olc6502::new(Bus::new());
    cpu.accumulator = 9;
    cpu.stack_pointer = 0x10;
    cpu.reset();
    assert_eq!(cpu.accumulator, 0);
    assert_eq!(cpu.stack_pointer, 0xFD);
    assert_eq!(cpu.program_counter, 0x0000);
}

#[test]
fn is_overflow_detects_signed_overflow() {
    let mut cpu = Olc6502::new(Bus::new());
    cpu.fetched_data = 0x50;
    cpu.accumulator = 0x50;
    assert!(cpu.is_overflow(0xA0));
    assert!(!cpu.is_overflow(0x20));
}

#[test]
fn bus_read_through_cpu() {
    let mut cpu = Olc6502::new(Bus::new());
    cpu.write(0x0005, 0x77);
    assert_eq!(cpu.read(0x1805), 0x77);
    assert_eq!(cpu.bus.read(0x0805), 0x77);
}

#[test]
fn stp_reports_its_opcode() {
    let mut cpu = Olc6502::new(Bus::new());
    cpu.opcode = 0x12;
    assert_eq!(stp(&mut cpu), Err(0x12));
}

#[test]
fn undocumented_load_and_store() {
    let mut cpu = Olc6502::new(Bus::new());
    // LAX (zero page) loads A and X together.
    cpu.opcode = 0xA7;
    cpu.addr_abs = 0x0040;
    cpu.bus.ram[0x40] = 0x9C;
    lax(&mut cpu);
    assert_eq!(cpu.accumulator, 0x9C);
    assert_eq!(cpu.x_register, 0x9C);
    assert_eq!(cpu.get_flag(Flags6502::Negative), 1);
    // SAX stores A AND X.
    cpu.x_register = 0x0F;
    cpu.addr_abs = 0x0041;
    sax(&mut cpu);
    assert_eq!(cpu.bus.ram[0x41], 0x0C);
}

#[test]
fn brk_then_rti_returns_past_the_padding_byte() {
    let mut cpu = cpu_running(&[0x00, 0xFF]);
    // RTI at $0000, where the (empty) vector at $FFFE points.
    cpu.bus.ram[0x0000] = 0x40;
    cpu.set_flag(Flags6502::CarryBit, true);
    run_instruction(&mut cpu);
    assert_eq!(cpu.program_counter, 0x0000);
    assert_eq!(cpu.get_flag(Flags6502::DisableInterrupts), 1);
    run_instruction(&mut cpu);
    assert_eq!(cpu.program_counter, 0x0202);
    assert_eq!(cpu.status_register, 0x01 | 0x30);
    assert_eq!(cpu.stack_pointer, 0xFD);
}

#[test]
fn nmi_then_rti_resumes() {
    let mut cpu = Olc6502::new(Bus::new());
    cpu.program_counter = 0x0345;
    cpu.bus.ram[0x0000] = 0x40;
    cpu.non_mask_interrupt_request();
    assert_eq!(cpu.cycles, 8);
    cpu.cycles = 0;
    run_instruction(&mut cpu);
    assert_eq!(cpu.program_counter, 0x0345);
    assert_eq!(cpu.stack_pointer, 0xFD);
    assert_eq!(cpu.get_flag(Flags6502::Unused), 1);
    assert_eq!(cpu.get_flag(Flags6502::DisableInterrupts), 1);
}

#[test]
fn indirect_pointer_wraps_within_its_page() {
    // JMP ($03FF): the high byte comes from $0300, not $0400.
    let mut cpu = cpu_running(&[0xFF, 0x03]);
    cpu.bus.ram[0x0300] = 0x56;
    cpu.bus.ram[0x03FF] = 0x34;
    cpu.bus.ram[0x0400] = 0x12;
    assert_eq!(ind(&mut cpu), 0);
    assert_eq!(cpu.addr_abs, 0x5634);
    assert_eq!(cpu.program_counter, 0x0202);
    // Elsewhere the two bytes are consecutive.
    let mut cpu = cpu_running(&[0x10, 0x03]);
    cpu.bus.ram[0x0310] = 0xCD;
    cpu.bus.ram[0x0311] = 0xAB;
    ind(&mut cpu);
    assert_eq!(cpu.addr_abs, 0xABCD);
}
