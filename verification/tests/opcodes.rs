use rust_nes::bus::Bus;
use rust_nes::cpu::opcodes::{adc, clc, sbc};
use rust_nes::cpu::{Flags6502, Olc6502};

fn cpu_with_operand(opcode: u8, operand: u8, accumulator: u8) -> Olc6502<Bus> {
    let address: u16 = 0;
    let mut cpu = Olc6502::new(Bus::new());
    cpu.opcode = opcode;
    cpu.addr_abs = address;
    cpu.bus.ram[address as usize] = operand;
    cpu.accumulator = accumulator;
    cpu
}

#[test]
fn adc_sets_carry_flag_correctly() {
    let mut cpu = cpu_with_operand(0x79, 255, 1);
    adc(&mut cpu);
    assert_eq!(cpu.get_flag(Flags6502::CarryBit), 1);
}

#[test]
fn adc_sets_zero_flag_correctly() {
    let mut cpu = cpu_with_operand(0x79, 0, 0);
    adc(&mut cpu);
    assert_eq!(cpu.get_flag(Flags6502::Zero), 1);
}

#[test]
fn adc_sets_negative_flag_correctly() {
    let mut cpu = cpu_with_operand(0x79, 0, 0b10000001);
    adc(&mut cpu);
    assert_eq!(cpu.get_flag(Flags6502::Negative), 1);
}

#[test]
fn adc_sets_overflow_flag_correctly() {
    let mut cpu = cpu_with_operand(0x79, 127, 4);
    adc(&mut cpu);
    assert_eq!(cpu.get_flag(Flags6502::Overflow), 1);
}

#[test]
fn adc_adds_correctly() {
    let mut cpu = cpu_with_operand(0x79, 200, 4);
    adc(&mut cpu);
    assert_eq!(cpu.accumulator, 204);
}

#[test]
fn clc_sets_carry_flag_correctly() {
    let mut cpu = Olc6502::new(Bus::new());
    cpu.set_flag(Flags6502::CarryBit, true);
    clc(&mut cpu);
    assert_eq!(cpu.get_flag(Flags6502::CarryBit), 0);
}

#[test]
fn sbc_subtracts_correctly() {
    let mut cpu = cpu_with_operand(0xF1, 5, 3);
    cpu.set_flag(Flags6502::CarryBit, true);
    sbc(&mut cpu);
    assert_eq!(cpu.accumulator, 2);
}

#[test]
fn sbc_flags_describe_the_difference() {
    // 5 - 3 - 1 (carry clear, so one is borrowed) leaves 1 with nothing further borrowed.
    let mut cpu = cpu_with_operand(0xF1, 5, 3);
    cpu.set_flag(Flags6502::CarryBit, false);
    let extra = sbc(&mut cpu);
    assert_eq!(extra, 1);
    assert_eq!(cpu.accumulator, 1);
    assert_eq!(cpu.get_flag(Flags6502::CarryBit), 1);
    assert_eq!(cpu.get_flag(Flags6502::Zero), 0);
    assert_eq!(cpu.get_flag(Flags6502::Negative), 0);
    // 3 - 0x85 goes below zero: a borrow, so the carry is clear; 3 - (-123) = 126 fits.
    let mut cpu = cpu_with_operand(0xF1, 3, 0x85);
    cpu.set_flag(Flags6502::CarryBit, true);
    sbc(&mut cpu);
    assert_eq!(cpu.accumulator, 0x7E);
    assert_eq!(cpu.get_flag(Flags6502::CarryBit), 0);
    assert_eq!(cpu.get_flag(Flags6502::Negative), 0);
    assert_eq!(cpu.get_flag(Flags6502::Overflow), 0);
    // -128 - 1 leaves the signed range.
    let mut cpu = cpu_with_operand(0xF1, 0x80, 0x01);
    cpu.set_flag(Flags6502::CarryBit, true);
    sbc(&mut cpu);
    assert_eq!(cpu.accumulator, 0x7F);
    assert_eq!(cpu.get_flag(Flags6502::Overflow), 1);
    assert_eq!(cpu.get_flag(Flags6502::CarryBit), 1);
    // Equal operands with no borrow give zero.
    let mut cpu = cpu_with_operand(0xF1, 0x40, 0x40);
    cpu.set_flag(Flags6502::CarryBit, true);
    sbc(&mut cpu);
    assert_eq!(cpu.accumulator, 0);
    assert_eq!(cpu.get_flag(Flags6502::Zero), 1);
    assert_eq!(cpu.get_flag(Flags6502::CarryBit), 1);
}

#[test]
fn sbc_matches_adc_of_complemented_accumulator() {
    for (a, m, c) in [(3u8, 5u8, true), (0x50, 0xB0, false), (0x80, 0x01, true), (0x00, 0x00, false), (0x85, 0x03, true)] {
        let mut s = cpu_with_operand(0xF1, m, a);
        s.set_flag(Flags6502::CarryBit, c);
        sbc(&mut s);
        let mut d = cpu_with_operand(0x79, !a, m);
        d.set_flag(Flags6502::CarryBit, c);
        adc(&mut d);
        assert_eq!(s.accumulator, d.accumulator);
        assert_eq!(s.status_register, d.status_register);
    }
}

#[test]
fn adc_negative_flag_comes_from_the_sum() {
    let mut cpu = cpu_with_operand(0x79, 0x80, 0x01);
    adc(&mut cpu);
    assert_eq!(cpu.accumulator, 0x81);
    assert_eq!(cpu.get_flag(Flags6502::Negative), 1);
    assert_eq!(cpu.get_flag(Flags6502::Overflow), 0);
    let mut cpu = cpu_with_operand(0x79, 1, 0x7F);
    adc(&mut cpu);
    assert_eq!(cpu.accumulator, 0x80);
    assert_eq!(cpu.get_flag(Flags6502::Negative), 1);
    assert_eq!(cpu.get_flag(Flags6502::Overflow), 1);
}
