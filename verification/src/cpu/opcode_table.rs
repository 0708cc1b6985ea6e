use vstd::prelude::*;

verus! {

/// How an instruction finds its operand.
#[derive(Clone, Copy, PartialEq, Eq, Structural, Debug)]
pub enum AddressMode {
    Imp,
    Imm,
    Zp0,
    Zpx,
    Zpy,
    Rel,
    Abs,
    Abx,
    Aby,
    Ind,
    Izx,
    Izy,
}

/// What an instruction does. `Xxx` is an unofficial opcode that does nothing here;
/// `Stp` is one that jams the processor.
#[derive(Clone, Copy, PartialEq, Eq, Structural, Debug)]
pub enum Operation {
    Adc,
    And,
    Asl,
    Bcc,
    Bcs,
    Beq,
    Bit,
    Bmi,
    Bne,
    Bpl,
    Brk,
    Bvc,
    Bvs,
    Clc,
    Cld,
    Cli,
    Clv,
    Cmp,
    Cpx,
    Cpy,
    Dcp,
    Dec,
    Dex,
    Dey,
    Eor,
    Inc,
    Inx,
    Iny,
    Isc,
    Jmp,
    Jsr,
    Lax,
    Lda,
    Ldx,
    Ldy,
    Lsr,
    Nop,
    Ora,
    Pha,
    Php,
    Pla,
    Plp,
    Rla,
    Rol,
    Ror,
    Rra,
    Rti,
    Rts,
    Sax,
    Sbc,
    Sec,
    Sed,
    Sei,
    Slo,
    Sre,
    Sta,
    Stp,
    Stx,
    Sty,
    Tax,
    Tay,
    Tsx,
    Txa,
    Txs,
    Tya,
    Xxx,
}

/// One row of the opcode table: the operation, its addressing mode and its base cycle count.
#[derive(Clone, Copy, PartialEq, Eq, Structural, Debug)]
pub struct Instruction {
    pub operation: Operation,
    pub mode: AddressMode,
    pub cycles: u8,
}

/// The 6502 opcode matrix, the unofficial opcodes included.
pub open spec fn instruction(opcode: u8) -> Instruction {
    match opcode {
        0x00 => Instruction { operation: Operation::Brk, mode: AddressMode::Imm, cycles: 7 },
        0x01 => Instruction { operation: Operation::Ora, mode: AddressMode::Izx, cycles: 6 },
        0x02 => Instruction { operation: Operation::Stp, mode: AddressMode::Imp, cycles: 2 },
        0x03 => Instruction { operation: Operation::Slo, mode: AddressMode::Izx, cycles: 8 },
        0x04 => Instruction { operation: Operation::Nop, mode: AddressMode::Zp0, cycles: 3 },
        0x05 => Instruction { operation: Operation::Ora, mode: AddressMode::Zp0, cycles: 3 },
        0x06 => Instruction { operation: Operation::Asl, mode: AddressMode::Zp0, cycles: 5 },
        0x07 => Instruction { operation: Operation::Slo, mode: AddressMode::Zp0, cycles: 5 },
        0x08 => Instruction { operation: Operation::Php, mode: AddressMode::Imp, cycles: 3 },
        0x09 => Instruction { operation: Operation::Ora, mode: AddressMode::Imm, cycles: 2 },
        0x0A => Instruction { operation: Operation::Asl, mode: AddressMode::Imp, cycles: 2 },
        0x0B => Instruction { operation: Operation::Xxx, mode: AddressMode::Imm, cycles: 2 },
        0x0C => Instruction { operation: Operation::Nop, mode: AddressMode::Abs, cycles: 4 },
        0x0D => Instruction { operation: Operation::Ora, mode: AddressMode::Abs, cycles: 4 },
        0x0E => Instruction { operation: Operation::Asl, mode: AddressMode::Abs, cycles: 6 },
        0x0F => Instruction { operation: Operation::Slo, mode: AddressMode::Abs, cycles: 6 },
        0x10 => Instruction { operation: Operation::Bpl, mode: AddressMode::Rel, cycles: 2 },
        0x11 => Instruction { operation: Operation::Ora, mode: AddressMode::Izy, cycles: 5 },
        0x12 => Instruction { operation: Operation::Stp, mode: AddressMode::Imp, cycles: 2 },
        0x13 => Instruction { operation: Operation::Slo, mode: AddressMode::Izy, cycles: 8 },
        0x14 => Instruction { operation: Operation::Nop, mode: AddressMode::Zpx, cycles: 4 },
        0x15 => Instruction { operation: Operation::Ora, mode: AddressMode::Zpx, cycles: 4 },
        0x16 => Instruction { operation: Operation::Asl, mode: AddressMode::Zpx, cycles: 6 },
        0x17 => Instruction { operation: Operation::Slo, mode: AddressMode::Zpx, cycles: 6 },
        0x18 => Instruction { operation: Operation::Clc, mode: AddressMode::Imp, cycles: 2 },
        0x19 => Instruction { operation: Operation::Ora, mode: AddressMode::Aby, cycles: 4 },
        0x1A => Instruction { operation: Operation::Nop, mode: AddressMode::Imp, cycles: 2 },
        0x1B => Instruction { operation: Operation::Slo, mode: AddressMode::Aby, cycles: 7 },
        0x1C => Instruction { operation: Operation::Nop, mode: AddressMode::Abx, cycles: 4 },
        0x1D => Instruction { operation: Operation::Ora, mode: AddressMode::Abx, cycles: 4 },
        0x1E => Instruction { operation: Operation::Asl, mode: AddressMode::Abx, cycles: 7 },
        0x1F => Instruction { operation: Operation::Slo, mode: AddressMode::Abx, cycles: 7 },
        0x20 => Instruction { operation: Operation::Jsr, mode: AddressMode::Abs, cycles: 6 },
        0x21 => Instruction { operation: Operation::And, mode: AddressMode::Izx, cycles: 6 },
        0x22 => Instruction { operation: Operation::Stp, mode: AddressMode::Imp, cycles: 2 },
        0x23 => Instruction { operation: Operation::Rla, mode: AddressMode::Izx, cycles: 8 },
        0x24 => Instruction { operation: Operation::Bit, mode: AddressMode::Zp0, cycles: 3 },
        0x25 => Instruction { operation: Operation::And, mode: AddressMode::Zp0, cycles: 3 },
        0x26 => Instruction { operation: Operation::Rol, mode: AddressMode::Zp0, cycles: 5 },
        0x27 => Instruction { operation: Operation::Rla, mode: AddressMode::Zp0, cycles: 5 },
        0x28 => Instruction { operation: Operation::Plp, mode: AddressMode::Imp, cycles: 4 },
        0x29 => Instruction { operation: Operation::And, mode: AddressMode::Imm, cycles: 2 },
        0x2A => Instruction { operation: Operation::Rol, mode: AddressMode::Imp, cycles: 2 },
        0x2B => Instruction { operation: Operation::Xxx, mode: AddressMode::Imm, cycles: 2 },
        0x2C => Instruction { operation: Operation::Bit, mode: AddressMode::Abs, cycles: 4 },
        0x2D => Instruction { operation: Operation::And, mode: AddressMode::Abs, cycles: 4 },
        0x2E => Instruction { operation: Operation::Rol, mode: AddressMode::Abs, cycles: 6 },
        0x2F => Instruction { operation: Operation::Rla, mode: AddressMode::Abs, cycles: 6 },
        0x30 => Instruction { operation: Operation::Bmi, mode: AddressMode::Rel, cycles: 2 },
        0x31 => Instruction { operation: Operation::And, mode: AddressMode::Izy, cycles: 5 },
        0x32 => Instruction { operation: Operation::Stp, mode: AddressMode::Imp, cycles: 2 },
        0x33 => Instruction { operation: Operation::Rla, mode: AddressMode::Izy, cycles: 8 },
        0x34 => Instruction { operation: Operation::Nop, mode: AddressMode::Zpx, cycles: 4 },
        0x35 => Instruction { operation: Operation::And, mode: AddressMode::Zpx, cycles: 4 },
        0x36 => Instruction { operation: Operation::Rol, mode: AddressMode::Zpx, cycles: 6 },
        0x37 => Instruction { operation: Operation::Rla, mode: AddressMode::Zpx, cycles: 6 },
        0x38 => Instruction { operation: Operation::Sec, mode: AddressMode::Imp, cycles: 2 },
        0x39 => Instruction { operation: Operation::And, mode: AddressMode::Aby, cycles: 4 },
        0x3A => Instruction { operation: Operation::Nop, mode: AddressMode::Imp, cycles: 2 },
        0x3B => Instruction { operation: Operation::Rla, mode: AddressMode::Aby, cycles: 7 },
        0x3C => Instruction { operation: Operation::Nop, mode: AddressMode::Abx, cycles: 4 },
        0x3D => Instruction { operation: Operation::And, mode: AddressMode::Abx, cycles: 4 },
        0x3E => Instruction { operation: Operation::Rol, mode: AddressMode::Abx, cycles: 7 },
        0x3F => Instruction { operation: Operation::Rla, mode: AddressMode::Abx, cycles: 7 },
        0x40 => Instruction { operation: Operation::Rti, mode: AddressMode::Imp, cycles: 6 },
        0x41 => Instruction { operation: Operation::Eor, mode: AddressMode::Izx, cycles: 6 },
        0x42 => Instruction { operation: Operation::Stp, mode: AddressMode::Imp, cycles: 2 },
        0x43 => Instruction { operation: Operation::Sre, mode: AddressMode::Izx, cycles: 8 },
        0x44 => Instruction { operation: Operation::Nop, mode: AddressMode::Zp0, cycles: 3 },
        0x45 => Instruction { operation: Operation::Eor, mode: AddressMode::Zp0, cycles: 3 },
        0x46 => Instruction { operation: Operation::Lsr, mode: AddressMode::Zp0, cycles: 5 },
        0x47 => Instruction { operation: Operation::Sre, mode: AddressMode::Zp0, cycles: 5 },
        0x48 => Instruction { operation: Operation::Pha, mode: AddressMode::Imp, cycles: 3 },
        0x49 => Instruction { operation: Operation::Eor, mode: AddressMode::Imm, cycles: 2 },
        0x4A => Instruction { operation: Operation::Lsr, mode: AddressMode::Imp, cycles: 2 },
        0x4B => Instruction { operation: Operation::Xxx, mode: AddressMode::Imm, cycles: 2 },
        0x4C => Instruction { operation: Operation::Jmp, mode: AddressMode::Abs, cycles: 3 },
        0x4D => Instruction { operation: Operation::Eor, mode: AddressMode::Abs, cycles: 4 },
        0x4E => Instruction { operation: Operation::Lsr, mode: AddressMode::Abs, cycles: 6 },
        0x4F => Instruction { operation: Operation::Sre, mode: AddressMode::Abs, cycles: 6 },
        0x50 => Instruction { operation: Operation::Bvc, mode: AddressMode::Rel, cycles: 2 },
        0x51 => Instruction { operation: Operation::Eor, mode: AddressMode::Izy, cycles: 5 },
        0x52 => Instruction { operation: Operation::Stp, mode: AddressMode::Imp, cycles: 2 },
        0x53 => Instruction { operation: Operation::Sre, mode: AddressMode::Izy, cycles: 8 },
        0x54 => Instruction { operation: Operation::Nop, mode: AddressMode::Zpx, cycles: 4 },
        0x55 => Instruction { operation: Operation::Eor, mode: AddressMode::Zpx, cycles: 4 },
        0x56 => Instruction { operation: Operation::Lsr, mode: AddressMode::Zpx, cycles: 6 },
        0x57 => Instruction { operation: Operation::Sre, mode: AddressMode::Zpx, cycles: 6 },
        0x58 => Instruction { operation: Operation::Cli, mode: AddressMode::Imp, cycles: 2 },
        0x59 => Instruction { operation: Operation::Eor, mode: AddressMode::Aby, cycles: 4 },
        0x5A => Instruction { operation: Operation::Nop, mode: AddressMode::Imp, cycles: 2 },
        0x5B => Instruction { operation: Operation::Sre, mode: AddressMode::Aby, cycles: 7 },
        0x5C => Instruction { operation: Operation::Nop, mode: AddressMode::Abx, cycles: 4 },
        0x5D => Instruction { operation: Operation::Eor, mode: AddressMode::Abx, cycles: 4 },
        0x5E => Instruction { operation: Operation::Lsr, mode: AddressMode::Abx, cycles: 7 },
        0x5F => Instruction { operation: Operation::Sre, mode: AddressMode::Abx, cycles: 7 },
        0x60 => Instruction { operation: Operation::Rts, mode: AddressMode::Imp, cycles: 6 },
        0x61 => Instruction { operation: Operation::Adc, mode: AddressMode::Izx, cycles: 6 },
        0x62 => Instruction { operation: Operation::Stp, mode: AddressMode::Imp, cycles: 2 },
        0x63 => Instruction { operation: Operation::Rra, mode: AddressMode::Izx, cycles: 8 },
        0x64 => Instruction { operation: Operation::Nop, mode: AddressMode::Zp0, cycles: 3 },
        0x65 => Instruction { operation: Operation::Adc, mode: AddressMode::Zp0, cycles: 3 },
        0x66 => Instruction { operation: Operation::Ror, mode: AddressMode::Zp0, cycles: 5 },
        0x67 => Instruction { operation: Operation::Rra, mode: AddressMode::Zp0, cycles: 5 },
        0x68 => Instruction { operation: Operation::Pla, mode: AddressMode::Imp, cycles: 4 },
        0x69 => Instruction { operation: Operation::Adc, mode: AddressMode::Imm, cycles: 2 },
        0x6A => Instruction { operation: Operation::Ror, mode: AddressMode::Imp, cycles: 2 },
        0x6B => Instruction { operation: Operation::Xxx, mode: AddressMode::Imm, cycles: 2 },
        0x6C => Instruction { operation: Operation::Jmp, mode: AddressMode::Ind, cycles: 5 },
        0x6D => Instruction { operation: Operation::Adc, mode: AddressMode::Abs, cycles: 4 },
        0x6E => Instruction { operation: Operation::Ror, mode: AddressMode::Abs, cycles: 6 },
        0x6F => Instruction { operation: Operation::Rra, mode: AddressMode::Abs, cycles: 6 },
        0x70 => Instruction { operation: Operation::Bvs, mode: AddressMode::Rel, cycles: 2 },
        0x71 => Instruction { operation: Operation::Adc, mode: AddressMode::Izy, cycles: 5 },
        0x72 => Instruction { operation: Operation::Stp, mode: AddressMode::Imp, cycles: 2 },
        0x73 => Instruction { operation: Operation::Rra, mode: AddressMode::Izy, cycles: 8 },
        0x74 => Instruction { operation: Operation::Nop, mode: AddressMode::Zpx, cycles: 4 },
        0x75 => Instruction { operation: Operation::Adc, mode: AddressMode::Zpx, cycles: 4 },
        0x76 => Instruction { operation: Operation::Ror, mode: AddressMode::Zpx, cycles: 6 },
        0x77 => Instruction { operation: Operation::Rra, mode: AddressMode::Zpx, cycles: 6 },
        0x78 => Instruction { operation: Operation::Sei, mode: AddressMode::Imp, cycles: 2 },
        0x79 => Instruction { operation: Operation::Adc, mode: AddressMode::Aby, cycles: 4 },
        0x7A => Instruction { operation: Operation::Nop, mode: AddressMode::Imp, cycles: 2 },
        0x7B => Instruction { operation: Operation::Rra, mode: AddressMode::Aby, cycles: 7 },
        0x7C => Instruction { operation: Operation::Nop, mode: AddressMode::Abx, cycles: 4 },
        0x7D => Instruction { operation: Operation::Adc, mode: AddressMode::Abx, cycles: 4 },
        0x7E => Instruction { operation: Operation::Ror, mode: AddressMode::Abx, cycles: 7 },
        0x7F => Instruction { operation: Operation::Rra, mode: AddressMode::Abx, cycles: 7 },
        0x80 => Instruction { operation: Operation::Nop, mode: AddressMode::Imm, cycles: 2 },
        0x81 => Instruction { operation: Operation::Sta, mode: AddressMode::Izx, cycles: 6 },
        0x82 => Instruction { operation: Operation::Nop, mode: AddressMode::Imm, cycles: 2 },
        0x83 => Instruction { operation: Operation::Sax, mode: AddressMode::Izx, cycles: 6 },
        0x84 => Instruction { operation: Operation::Sty, mode: AddressMode::Zp0, cycles: 3 },
        0x85 => Instruction { operation: Operation::Sta, mode: AddressMode::Zp0, cycles: 3 },
        0x86 => Instruction { operation: Operation::Stx, mode: AddressMode::Zp0, cycles: 3 },
        0x87 => Instruction { operation: Operation::Sax, mode: AddressMode::Zp0, cycles: 3 },
        0x88 => Instruction { operation: Operation::Dey, mode: AddressMode::Imp, cycles: 2 },
        0x89 => Instruction { operation: Operation::Nop, mode: AddressMode::Imm, cycles: 2 },
        0x8A => Instruction { operation: Operation::Txa, mode: AddressMode::Imp, cycles: 2 },
        0x8B => Instruction { operation: Operation::Xxx, mode: AddressMode::Imm, cycles: 2 },
        0x8C => Instruction { operation: Operation::Sty, mode: AddressMode::Abs, cycles: 4 },
        0x8D => Instruction { operation: Operation::Sta, mode: AddressMode::Abs, cycles: 4 },
        0x8E => Instruction { operation: Operation::Stx, mode: AddressMode::Abs, cycles: 4 },
        0x8F => Instruction { operation: Operation::Sax, mode: AddressMode::Abs, cycles: 4 },
        0x90 => Instruction { operation: Operation::Bcc, mode: AddressMode::Rel, cycles: 2 },
        0x91 => Instruction { operation: Operation::Sta, mode: AddressMode::Izy, cycles: 6 },
        0x92 => Instruction { operation: Operation::Stp, mode: AddressMode::Imp, cycles: 2 },
        0x93 => Instruction { operation: Operation::Xxx, mode: AddressMode::Izy, cycles: 6 },
        0x94 => Instruction { operation: Operation::Sty, mode: AddressMode::Zpx, cycles: 4 },
        0x95 => Instruction { operation: Operation::Sta, mode: AddressMode::Zpx, cycles: 4 },
        0x96 => Instruction { operation: Operation::Stx, mode: AddressMode::Zpy, cycles: 4 },
        0x97 => Instruction { operation: Operation::Sax, mode: AddressMode::Zpy, cycles: 4 },
        0x98 => Instruction { operation: Operation::Tya, mode: AddressMode::Imp, cycles: 2 },
        0x99 => Instruction { operation: Operation::Sta, mode: AddressMode::Aby, cycles: 5 },
        0x9A => Instruction { operation: Operation::Txs, mode: AddressMode::Imp, cycles: 2 },
        0x9B => Instruction { operation: Operation::Xxx, mode: AddressMode::Aby, cycles: 5 },
        0x9C => Instruction { operation: Operation::Xxx, mode: AddressMode::Abx, cycles: 5 },
        0x9D => Instruction { operation: Operation::Sta, mode: AddressMode::Abx, cycles: 5 },
        0x9E => Instruction { operation: Operation::Xxx, mode: AddressMode::Aby, cycles: 5 },
        0x9F => Instruction { operation: Operation::Xxx, mode: AddressMode::Aby, cycles: 5 },
        0xA0 => Instruction { operation: Operation::Ldy, mode: AddressMode::Imm, cycles: 2 },
        0xA1 => Instruction { operation: Operation::Lda, mode: AddressMode::Izx, cycles: 6 },
        0xA2 => Instruction { operation: Operation::Ldx, mode: AddressMode::Imm, cycles: 2 },
        0xA3 => Instruction { operation: Operation::Lax, mode: AddressMode::Izx, cycles: 6 },
        0xA4 => Instruction { operation: Operation::Ldy, mode: AddressMode::Zp0, cycles: 3 },
        0xA5 => Instruction { operation: Operation::Lda, mode: AddressMode::Zp0, cycles: 3 },
        0xA6 => Instruction { operation: Operation::Ldx, mode: AddressMode::Zp0, cycles: 3 },
        0xA7 => Instruction { operation: Operation::Lax, mode: AddressMode::Zp0, cycles: 3 },
        0xA8 => Instruction { operation: Operation::Tay, mode: AddressMode::Imp, cycles: 2 },
        0xA9 => Instruction { operation: Operation::Lda, mode: AddressMode::Imm, cycles: 2 },
        0xAA => Instruction { operation: Operation::Tax, mode: AddressMode::Imp, cycles: 2 },
        0xAB => Instruction { operation: Operation::Xxx, mode: AddressMode::Imm, cycles: 2 },
        0xAC => Instruction { operation: Operation::Ldy, mode: AddressMode::Abs, cycles: 4 },
        0xAD => Instruction { operation: Operation::Lda, mode: AddressMode::Abs, cycles: 4 },
        0xAE => Instruction { operation: Operation::Ldx, mode: AddressMode::Abs, cycles: 4 },
        0xAF => Instruction { operation: Operation::Lax, mode: AddressMode::Abs, cycles: 4 },
        0xB0 => Instruction { operation: Operation::Bcs, mode: AddressMode::Rel, cycles: 2 },
        0xB1 => Instruction { operation: Operation::Lda, mode: AddressMode::Izy, cycles: 5 },
        0xB2 => Instruction { operation: Operation::Stp, mode: AddressMode::Imp, cycles: 2 },
        0xB3 => Instruction { operation: Operation::Lax, mode: AddressMode::Izy, cycles: 5 },
        0xB4 => Instruction { operation: Operation::Ldy, mode: AddressMode::Zpx, cycles: 4 },
        0xB5 => Instruction { operation: Operation::Lda, mode: AddressMode::Zpx, cycles: 4 },
        0xB6 => Instruction { operation: Operation::Ldx, mode: AddressMode::Zpy, cycles: 4 },
        0xB7 => Instruction { operation: Operation::Lax, mode: AddressMode::Zpy, cycles: 4 },
        0xB8 => Instruction { operation: Operation::Clv, mode: AddressMode::Imp, cycles: 2 },
        0xB9 => Instruction { operation: Operation::Lda, mode: AddressMode::Aby, cycles: 4 },
        0xBA => Instruction { operation: Operation::Tsx, mode: AddressMode::Imp, cycles: 2 },
        0xBB => Instruction { operation: Operation::Xxx, mode: AddressMode::Aby, cycles: 4 },
        0xBC => Instruction { operation: Operation::Ldy, mode: AddressMode::Abx, cycles: 4 },
        0xBD => Instruction { operation: Operation::Lda, mode: AddressMode::Abx, cycles: 4 },
        0xBE => Instruction { operation: Operation::Ldx, mode: AddressMode::Aby, cycles: 4 },
        0xBF => Instruction { operation: Operation::Lax, mode: AddressMode::Aby, cycles: 4 },
        0xC0 => Instruction { operation: Operation::Cpy, mode: AddressMode::Imm, cycles: 2 },
        0xC1 => Instruction { operation: Operation::Cmp, mode: AddressMode::Izx, cycles: 6 },
        0xC2 => Instruction { operation: Operation::Nop, mode: AddressMode::Imm, cycles: 2 },
        0xC3 => Instruction { operation: Operation::Dcp, mode: AddressMode::Izx, cycles: 8 },
        0xC4 => Instruction { operation: Operation::Cpy, mode: AddressMode::Zp0, cycles: 3 },
        0xC5 => Instruction { operation: Operation::Cmp, mode: AddressMode::Zp0, cycles: 3 },
        0xC6 => Instruction { operation: Operation::Dec, mode: AddressMode::Zp0, cycles: 5 },
        0xC7 => Instruction { operation: Operation::Dcp, mode: AddressMode::Zp0, cycles: 5 },
        0xC8 => Instruction { operation: Operation::Iny, mode: AddressMode::Imp, cycles: 2 },
        0xC9 => Instruction { operation: Operation::Cmp, mode: AddressMode::Imm, cycles: 2 },
        0xCA => Instruction { operation: Operation::Dex, mode: AddressMode::Imp, cycles: 2 },
        0xCB => Instruction { operation: Operation::Xxx, mode: AddressMode::Imm, cycles: 2 },
        0xCC => Instruction { operation: Operation::Cpy, mode: AddressMode::Abs, cycles: 4 },
        0xCD => Instruction { operation: Operation::Cmp, mode: AddressMode::Abs, cycles: 4 },
        0xCE => Instruction { operation: Operation::Dec, mode: AddressMode::Abs, cycles: 6 },
        0xCF => Instruction { operation: Operation::Dcp, mode: AddressMode::Abs, cycles: 6 },
        0xD0 => Instruction { operation: Operation::Bne, mode: AddressMode::Rel, cycles: 2 },
        0xD1 => Instruction { operation: Operation::Cmp, mode: AddressMode::Izy, cycles: 5 },
        0xD2 => Instruction { operation: Operation::Stp, mode: AddressMode::Imp, cycles: 2 },
        0xD3 => Instruction { operation: Operation::Dcp, mode: AddressMode::Izy, cycles: 8 },
        0xD4 => Instruction { operation: Operation::Nop, mode: AddressMode::Zpx, cycles: 4 },
        0xD5 => Instruction { operation: Operation::Cmp, mode: AddressMode::Zpx, cycles: 4 },
        0xD6 => Instruction { operation: Operation::Dec, mode: AddressMode::Zpx, cycles: 6 },
        0xD7 => Instruction { operation: Operation::Dcp, mode: AddressMode::Zpx, cycles: 6 },
        0xD8 => Instruction { operation: Operation::Cld, mode: AddressMode::Imp, cycles: 2 },
        0xD9 => Instruction { operation: Operation::Cmp, mode: AddressMode::Aby, cycles: 4 },
        0xDA => Instruction { operation: Operation::Nop, mode: AddressMode::Imp, cycles: 2 },
        0xDB => Instruction { operation: Operation::Dcp, mode: AddressMode::Aby, cycles: 7 },
        0xDC => Instruction { operation: Operation::Nop, mode: AddressMode::Abx, cycles: 4 },
        0xDD => Instruction { operation: Operation::Cmp, mode: AddressMode::Abx, cycles: 4 },
        0xDE => Instruction { operation: Operation::Dec, mode: AddressMode::Abx, cycles: 7 },
        0xDF => Instruction { operation: Operation::Dcp, mode: AddressMode::Abx, cycles: 7 },
        0xE0 => Instruction { operation: Operation::Cpx, mode: AddressMode::Imm, cycles: 2 },
        0xE1 => Instruction { operation: Operation::Sbc, mode: AddressMode::Izx, cycles: 6 },
        0xE2 => Instruction { operation: Operation::Nop, mode: AddressMode::Imm, cycles: 2 },
        0xE3 => Instruction { operation: Operation::Isc, mode: AddressMode::Izx, cycles: 8 },
        0xE4 => Instruction { operation: Operation::Cpx, mode: AddressMode::Zp0, cycles: 3 },
        0xE5 => Instruction { operation: Operation::Sbc, mode: AddressMode::Zp0, cycles: 3 },
        0xE6 => Instruction { operation: Operation::Inc, mode: AddressMode::Zp0, cycles: 5 },
        0xE7 => Instruction { operation: Operation::Isc, mode: AddressMode::Zp0, cycles: 5 },
        0xE8 => Instruction { operation: Operation::Inx, mode: AddressMode::Imp, cycles: 2 },
        0xE9 => Instruction { operation: Operation::Sbc, mode: AddressMode::Imm, cycles: 2 },
        0xEA => Instruction { operation: Operation::Nop, mode: AddressMode::Imp, cycles: 2 },
        0xEB => Instruction { operation: Operation::Sbc, mode: AddressMode::Imm, cycles: 2 },
        0xEC => Instruction { operation: Operation::Cpx, mode: AddressMode::Abs, cycles: 4 },
        0xED => Instruction { operation: Operation::Sbc, mode: AddressMode::Abs, cycles: 4 },
        0xEE => Instruction { operation: Operation::Inc, mode: AddressMode::Abs, cycles: 6 },
        0xEF => Instruction { operation: Operation::Isc, mode: AddressMode::Abs, cycles: 6 },
        0xF0 => Instruction { operation: Operation::Beq, mode: AddressMode::Rel, cycles: 2 },
        0xF1 => Instruction { operation: Operation::Sbc, mode: AddressMode::Izy, cycles: 5 },
        0xF2 => Instruction { operation: Operation::Stp, mode: AddressMode::Imp, cycles: 2 },
        0xF3 => Instruction { operation: Operation::Isc, mode: AddressMode::Izy, cycles: 8 },
        0xF4 => Instruction { operation: Operation::Nop, mode: AddressMode::Zpx, cycles: 4 },
        0xF5 => Instruction { operation: Operation::Sbc, mode: AddressMode::Zpx, cycles: 4 },
        0xF6 => Instruction { operation: Operation::Inc, mode: AddressMode::Zpx, cycles: 6 },
        0xF7 => Instruction { operation: Operation::Isc, mode: AddressMode::Zpx, cycles: 6 },
        0xF8 => Instruction { operation: Operation::Sed, mode: AddressMode::Imp, cycles: 2 },
        0xF9 => Instruction { operation: Operation::Sbc, mode: AddressMode::Aby, cycles: 4 },
        0xFA => Instruction { operation: Operation::Nop, mode: AddressMode::Imp, cycles: 2 },
        0xFB => Instruction { operation: Operation::Isc, mode: AddressMode::Aby, cycles: 7 },
        0xFC => Instruction { operation: Operation::Nop, mode: AddressMode::Abx, cycles: 4 },
        0xFD => Instruction { operation: Operation::Sbc, mode: AddressMode::Abx, cycles: 4 },
        0xFE => Instruction { operation: Operation::Inc, mode: AddressMode::Abx, cycles: 7 },
        0xFF => Instruction { operation: Operation::Isc, mode: AddressMode::Abx, cycles: 7 },
    }
}

pub open spec fn address_mode_of(opcode: u8) -> AddressMode {
    instruction(opcode).mode
}

/// The row of the opcode table for `opcode`.
pub fn lookup(opcode: u8) -> (r: Instruction)
    ensures
        r == instruction(opcode),
{
    match opcode {
        0x00 => Instruction { operation: Operation::Brk, mode: AddressMode::Imm, cycles: 7 },
        0x01 => Instruction { operation: Operation::Ora, mode: AddressMode::Izx, cycles: 6 },
        0x02 => Instruction { operation: Operation::Stp, mode: AddressMode::Imp, cycles: 2 },
        0x03 => Instruction { operation: Operation::Slo, mode: AddressMode::Izx, cycles: 8 },
        0x04 => Instruction { operation: Operation::Nop, mode: AddressMode::Zp0, cycles: 3 },
        0x05 => Instruction { operation: Operation::Ora, mode: AddressMode::Zp0, cycles: 3 },
        0x06 => Instruction { operation: Operation::Asl, mode: AddressMode::Zp0, cycles: 5 },
        0x07 => Instruction { operation: Operation::Slo, mode: AddressMode::Zp0, cycles: 5 },
        0x08 => Instruction { operation: Operation::Php, mode: AddressMode::Imp, cycles: 3 },
        0x09 => Instruction { operation: Operation::Ora, mode: AddressMode::Imm, cycles: 2 },
        0x0A => Instruction { operation: Operation::Asl, mode: AddressMode::Imp, cycles: 2 },
        0x0B => Instruction { operation: Operation::Xxx, mode: AddressMode::Imm, cycles: 2 },
        0x0C => Instruction { operation: Operation::Nop, mode: AddressMode::Abs, cycles: 4 },
        0x0D => Instruction { operation: Operation::Ora, mode: AddressMode::Abs, cycles: 4 },
        0x0E => Instruction { operation: Operation::Asl, mode: AddressMode::Abs, cycles: 6 },
        0x0F => Instruction { operation: Operation::Slo, mode: AddressMode::Abs, cycles: 6 },
        0x10 => Instruction { operation: Operation::Bpl, mode: AddressMode::Rel, cycles: 2 },
        0x11 => Instruction { operation: Operation::Ora, mode: AddressMode::Izy, cycles: 5 },
        0x12 => Instruction { operation: Operation::Stp, mode: AddressMode::Imp, cycles: 2 },
        0x13 => Instruction { operation: Operation::Slo, mode: AddressMode::Izy, cycles: 8 },
        0x14 => Instruction { operation: Operation::Nop, mode: AddressMode::Zpx, cycles: 4 },
        0x15 => Instruction { operation: Operation::Ora, mode: AddressMode::Zpx, cycles: 4 },
        0x16 => Instruction { operation: Operation::Asl, mode: AddressMode::Zpx, cycles: 6 },
        0x17 => Instruction { operation: Operation::Slo, mode: AddressMode::Zpx, cycles: 6 },
        0x18 => Instruction { operation: Operation::Clc, mode: AddressMode::Imp, cycles: 2 },
        0x19 => Instruction { operation: Operation::Ora, mode: AddressMode::Aby, cycles: 4 },
        0x1A => Instruction { operation: Operation::Nop, mode: AddressMode::Imp, cycles: 2 },
        0x1B => Instruction { operation: Operation::Slo, mode: AddressMode::Aby, cycles: 7 },
        0x1C => Instruction { operation: Operation::Nop, mode: AddressMode::Abx, cycles: 4 },
        0x1D => Instruction { operation: Operation::Ora, mode: AddressMode::Abx, cycles: 4 },
        0x1E => Instruction { operation: Operation::Asl, mode: AddressMode::Abx, cycles: 7 },
        0x1F => Instruction { operation: Operation::Slo, mode: AddressMode::Abx, cycles: 7 },
        0x20 => Instruction { operation: Operation::Jsr, mode: AddressMode::Abs, cycles: 6 },
        0x21 => Instruction { operation: Operation::And, mode: AddressMode::Izx, cycles: 6 },
        0x22 => Instruction { operation: Operation::Stp, mode: AddressMode::Imp, cycles: 2 },
        0x23 => Instruction { operation: Operation::Rla, mode: AddressMode::Izx, cycles: 8 },
        0x24 => Instruction { operation: Operation::Bit, mode: AddressMode::Zp0, cycles: 3 },
        0x25 => Instruction { operation: Operation::And, mode: AddressMode::Zp0, cycles: 3 },
        0x26 => Instruction { operation: Operation::Rol, mode: AddressMode::Zp0, cycles: 5 },
        0x27 => Instruction { operation: Operation::Rla, mode: AddressMode::Zp0, cycles: 5 },
        0x28 => Instruction { operation: Operation::Plp, mode: AddressMode::Imp, cycles: 4 },
        0x29 => Instruction { operation: Operation::And, mode: AddressMode::Imm, cycles: 2 },
        0x2A => Instruction { operation: Operation::Rol, mode: AddressMode::Imp, cycles: 2 },
        0x2B => Instruction { operation: Operation::Xxx, mode: AddressMode::Imm, cycles: 2 },
        0x2C => Instruction { operation: Operation::Bit, mode: AddressMode::Abs, cycles: 4 },
        0x2D => Instruction { operation: Operation::And, mode: AddressMode::Abs, cycles: 4 },
        0x2E => Instruction { operation: Operation::Rol, mode: AddressMode::Abs, cycles: 6 },
        0x2F => Instruction { operation: Operation::Rla, mode: AddressMode::Abs, cycles: 6 },
        0x30 => Instruction { operation: Operation::Bmi, mode: AddressMode::Rel, cycles: 2 },
        0x31 => Instruction { operation: Operation::And, mode: AddressMode::Izy, cycles: 5 },
        0x32 => Instruction { operation: Operation::Stp, mode: AddressMode::Imp, cycles: 2 },
        0x33 => Instruction { operation: Operation::Rla, mode: AddressMode::Izy, cycles: 8 },
        0x34 => Instruction { operation: Operation::Nop, mode: AddressMode::Zpx, cycles: 4 },
        0x35 => Instruction { operation: Operation::And, mode: AddressMode::Zpx, cycles: 4 },
        0x36 => Instruction { operation: Operation::Rol, mode: AddressMode::Zpx, cycles: 6 },
        0x37 => Instruction { operation: Operation::Rla, mode: AddressMode::Zpx, cycles: 6 },
        0x38 => Instruction { operation: Operation::Sec, mode: AddressMode::Imp, cycles: 2 },
        0x39 => Instruction { operation: Operation::And, mode: AddressMode::Aby, cycles: 4 },
        0x3A => Instruction { operation: Operation::Nop, mode: AddressMode::Imp, cycles: 2 },
        0x3B => Instruction { operation: Operation::Rla, mode: AddressMode::Aby, cycles: 7 },
        0x3C => Instruction { operation: Operation::Nop, mode: AddressMode::Abx, cycles: 4 },
        0x3D => Instruction { operation: Operation::And, mode: AddressMode::Abx, cycles: 4 },
        0x3E => Instruction { operation: Operation::Rol, mode: AddressMode::Abx, cycles: 7 },
        0x3F => Instruction { operation: Operation::Rla, mode: AddressMode::Abx, cycles: 7 },
        0x40 => Instruction { operation: Operation::Rti, mode: AddressMode::Imp, cycles: 6 },
        0x41 => Instruction { operation: Operation::Eor, mode: AddressMode::Izx, cycles: 6 },
        0x42 => Instruction { operation: Operation::Stp, mode: AddressMode::Imp, cycles: 2 },
        0x43 => Instruction { operation: Operation::Sre, mode: AddressMode::Izx, cycles: 8 },
        0x44 => Instruction { operation: Operation::Nop, mode: AddressMode::Zp0, cycles: 3 },
        0x45 => Instruction { operation: Operation::Eor, mode: AddressMode::Zp0, cycles: 3 },
        0x46 => Instruction { operation: Operation::Lsr, mode: AddressMode::Zp0, cycles: 5 },
        0x47 => Instruction { operation: Operation::Sre, mode: AddressMode::Zp0, cycles: 5 },
        0x48 => Instruction { operation: Operation::Pha, mode: AddressMode::Imp, cycles: 3 },
        0x49 => Instruction { operation: Operation::Eor, mode: AddressMode::Imm, cycles: 2 },
        0x4A => Instruction { operation: Operation::Lsr, mode: AddressMode::Imp, cycles: 2 },
        0x4B => Instruction { operation: Operation::Xxx, mode: AddressMode::Imm, cycles: 2 },
        0x4C => Instruction { operation: Operation::Jmp, mode: AddressMode::Abs, cycles: 3 },
        0x4D => Instruction { operation: Operation::Eor, mode: AddressMode::Abs, cycles: 4 },
        0x4E => Instruction { operation: Operation::Lsr, mode: AddressMode::Abs, cycles: 6 },
        0x4F => Instruction { operation: Operation::Sre, mode: AddressMode::Abs, cycles: 6 },
        0x50 => Instruction { operation: Operation::Bvc, mode: AddressMode::Rel, cycles: 2 },
        0x51 => Instruction { operation: Operation::Eor, mode: AddressMode::Izy, cycles: 5 },
        0x52 => Instruction { operation: Operation::Stp, mode: AddressMode::Imp, cycles: 2 },
        0x53 => Instruction { operation: Operation::Sre, mode: AddressMode::Izy, cycles: 8 },
        0x54 => Instruction { operation: Operation::Nop, mode: AddressMode::Zpx, cycles: 4 },
        0x55 => Instruction { operation: Operation::Eor, mode: AddressMode::Zpx, cycles: 4 },
        0x56 => Instruction { operation: Operation::Lsr, mode: AddressMode::Zpx, cycles: 6 },
        0x57 => Instruction { operation: Operation::Sre, mode: AddressMode::Zpx, cycles: 6 },
        0x58 => Instruction { operation: Operation::Cli, mode: AddressMode::Imp, cycles: 2 },
        0x59 => Instruction { operation: Operation::Eor, mode: AddressMode::Aby, cycles: 4 },
        0x5A => Instruction { operation: Operation::Nop, mode: AddressMode::Imp, cycles: 2 },
        0x5B => Instruction { operation: Operation::Sre, mode: AddressMode::Aby, cycles: 7 },
        0x5C => Instruction { operation: Operation::Nop, mode: AddressMode::Abx, cycles: 4 },
        0x5D => Instruction { operation: Operation::Eor, mode: AddressMode::Abx, cycles: 4 },
        0x5E => Instruction { operation: Operation::Lsr, mode: AddressMode::Abx, cycles: 7 },
        0x5F => Instruction { operation: Operation::Sre, mode: AddressMode::Abx, cycles: 7 },
        0x60 => Instruction { operation: Operation::Rts, mode: AddressMode::Imp, cycles: 6 },
        0x61 => Instruction { operation: Operation::Adc, mode: AddressMode::Izx, cycles: 6 },
        0x62 => Instruction { operation: Operation::Stp, mode: AddressMode::Imp, cycles: 2 },
        0x63 => Instruction { operation: Operation::Rra, mode: AddressMode::Izx, cycles: 8 },
        0x64 => Instruction { operation: Operation::Nop, mode: AddressMode::Zp0, cycles: 3 },
        0x65 => Instruction { operation: Operation::Adc, mode: AddressMode::Zp0, cycles: 3 },
        0x66 => Instruction { operation: Operation::Ror, mode: AddressMode::Zp0, cycles: 5 },
        0x67 => Instruction { operation: Operation::Rra, mode: AddressMode::Zp0, cycles: 5 },
        0x68 => Instruction { operation: Operation::Pla, mode: AddressMode::Imp, cycles: 4 },
        0x69 => Instruction { operation: Operation::Adc, mode: AddressMode::Imm, cycles: 2 },
        0x6A => Instruction { operation: Operation::Ror, mode: AddressMode::Imp, cycles: 2 },
        0x6B => Instruction { operation: Operation::Xxx, mode: AddressMode::Imm, cycles: 2 },
        0x6C => Instruction { operation: Operation::Jmp, mode: AddressMode::Ind, cycles: 5 },
        0x6D => Instruction { operation: Operation::Adc, mode: AddressMode::Abs, cycles: 4 },
        0x6E => Instruction { operation: Operation::Ror, mode: AddressMode::Abs, cycles: 6 },
        0x6F => Instruction { operation: Operation::Rra, mode: AddressMode::Abs, cycles: 6 },
        0x70 => Instruction { operation: Operation::Bvs, mode: AddressMode::Rel, cycles: 2 },
        0x71 => Instruction { operation: Operation::Adc, mode: AddressMode::Izy, cycles: 5 },
        0x72 => Instruction { operation: Operation::Stp, mode: AddressMode::Imp, cycles: 2 },
        0x73 => Instruction { operation: Operation::Rra, mode: AddressMode::Izy, cycles: 8 },
        0x74 => Instruction { operation: Operation::Nop, mode: AddressMode::Zpx, cycles: 4 },
        0x75 => Instruction { operation: Operation::Adc, mode: AddressMode::Zpx, cycles: 4 },
        0x76 => Instruction { operation: Operation::Ror, mode: AddressMode::Zpx, cycles: 6 },
        0x77 => Instruction { operation: Operation::Rra, mode: AddressMode::Zpx, cycles: 6 },
        0x78 => Instruction { operation: Operation::Sei, mode: AddressMode::Imp, cycles: 2 },
        0x79 => Instruction { operation: Operation::Adc, mode: AddressMode::Aby, cycles: 4 },
        0x7A => Instruction { operation: Operation::Nop, mode: AddressMode::Imp, cycles: 2 },
        0x7B => Instruction { operation: Operation::Rra, mode: AddressMode::Aby, cycles: 7 },
        0x7C => Instruction { operation: Operation::Nop, mode: AddressMode::Abx, cycles: 4 },
        0x7D => Instruction { operation: Operation::Adc, mode: AddressMode::Abx, cycles: 4 },
        0x7E => Instruction { operation: Operation::Ror, mode: AddressMode::Abx, cycles: 7 },
        0x7F => Instruction { operation: Operation::Rra, mode: AddressMode::Abx, cycles: 7 },
        0x80 => Instruction { operation: Operation::Nop, mode: AddressMode::Imm, cycles: 2 },
        0x81 => Instruction { operation: Operation::Sta, mode: AddressMode::Izx, cycles: 6 },
        0x82 => Instruction { operation: Operation::Nop, mode: AddressMode::Imm, cycles: 2 },
        0x83 => Instruction { operation: Operation::Sax, mode: AddressMode::Izx, cycles: 6 },
        0x84 => Instruction { operation: Operation::Sty, mode: AddressMode::Zp0, cycles: 3 },
        0x85 => Instruction { operation: Operation::Sta, mode: AddressMode::Zp0, cycles: 3 },
        0x86 => Instruction { operation: Operation::Stx, mode: AddressMode::Zp0, cycles: 3 },
        0x87 => Instruction { operation: Operation::Sax, mode: AddressMode::Zp0, cycles: 3 },
        0x88 => Instruction { operation: Operation::Dey, mode: AddressMode::Imp, cycles: 2 },
        0x89 => Instruction { operation: Operation::Nop, mode: AddressMode::Imm, cycles: 2 },
        0x8A => Instruction { operation: Operation::Txa, mode: AddressMode::Imp, cycles: 2 },
        0x8B => Instruction { operation: Operation::Xxx, mode: AddressMode::Imm, cycles: 2 },
        0x8C => Instruction { operation: Operation::Sty, mode: AddressMode::Abs, cycles: 4 },
        0x8D => Instruction { operation: Operation::Sta, mode: AddressMode::Abs, cycles: 4 },
        0x8E => Instruction { operation: Operation::Stx, mode: AddressMode::Abs, cycles: 4 },
        0x8F => Instruction { operation: Operation::Sax, mode: AddressMode::Abs, cycles: 4 },
        0x90 => Instruction { operation: Operation::Bcc, mode: AddressMode::Rel, cycles: 2 },
        0x91 => Instruction { operation: Operation::Sta, mode: AddressMode::Izy, cycles: 6 },
        0x92 => Instruction { operation: Operation::Stp, mode: AddressMode::Imp, cycles: 2 },
        0x93 => Instruction { operation: Operation::Xxx, mode: AddressMode::Izy, cycles: 6 },
        0x94 => Instruction { operation: Operation::Sty, mode: AddressMode::Zpx, cycles: 4 },
        0x95 => Instruction { operation: Operation::Sta, mode: AddressMode::Zpx, cycles: 4 },
        0x96 => Instruction { operation: Operation::Stx, mode: AddressMode::Zpy, cycles: 4 },
        0x97 => Instruction { operation: Operation::Sax, mode: AddressMode::Zpy, cycles: 4 },
        0x98 => Instruction { operation: Operation::Tya, mode: AddressMode::Imp, cycles: 2 },
        0x99 => Instruction { operation: Operation::Sta, mode: AddressMode::Aby, cycles: 5 },
        0x9A => Instruction { operation: Operation::Txs, mode: AddressMode::Imp, cycles: 2 },
        0x9B => Instruction { operation: Operation::Xxx, mode: AddressMode::Aby, cycles: 5 },
        0x9C => Instruction { operation: Operation::Xxx, mode: AddressMode::Abx, cycles: 5 },
        0x9D => Instruction { operation: Operation::Sta, mode: AddressMode::Abx, cycles: 5 },
        0x9E => Instruction { operation: Operation::Xxx, mode: AddressMode::Aby, cycles: 5 },
        0x9F => Instruction { operation: Operation::Xxx, mode: AddressMode::Aby, cycles: 5 },
        0xA0 => Instruction { operation: Operation::Ldy, mode: AddressMode::Imm, cycles: 2 },
        0xA1 => Instruction { operation: Operation::Lda, mode: AddressMode::Izx, cycles: 6 },
        0xA2 => Instruction { operation: Operation::Ldx, mode: AddressMode::Imm, cycles: 2 },
        0xA3 => Instruction { operation: Operation::Lax, mode: AddressMode::Izx, cycles: 6 },
        0xA4 => Instruction { operation: Operation::Ldy, mode: AddressMode::Zp0, cycles: 3 },
        0xA5 => Instruction { operation: Operation::Lda, mode: AddressMode::Zp0, cycles: 3 },
        0xA6 => Instruction { operation: Operation::Ldx, mode: AddressMode::Zp0, cycles: 3 },
        0xA7 => Instruction { operation: Operation::Lax, mode: AddressMode::Zp0, cycles: 3 },
        0xA8 => Instruction { operation: Operation::Tay, mode: AddressMode::Imp, cycles: 2 },
        0xA9 => Instruction { operation: Operation::Lda, mode: AddressMode::Imm, cycles: 2 },
        0xAA => Instruction { operation: Operation::Tax, mode: AddressMode::Imp, cycles: 2 },
        0xAB => Instruction { operation: Operation::Xxx, mode: AddressMode::Imm, cycles: 2 },
        0xAC => Instruction { operation: Operation::Ldy, mode: AddressMode::Abs, cycles: 4 },
        0xAD => Instruction { operation: Operation::Lda, mode: AddressMode::Abs, cycles: 4 },
        0xAE => Instruction { operation: Operation::Ldx, mode: AddressMode::Abs, cycles: 4 },
        0xAF => Instruction { operation: Operation::Lax, mode: AddressMode::Abs, cycles: 4 },
        0xB0 => Instruction { operation: Operation::Bcs, mode: AddressMode::Rel, cycles: 2 },
        0xB1 => Instruction { operation: Operation::Lda, mode: AddressMode::Izy, cycles: 5 },
        0xB2 => Instruction { operation: Operation::Stp, mode: AddressMode::Imp, cycles: 2 },
        0xB3 => Instruction { operation: Operation::Lax, mode: AddressMode::Izy, cycles: 5 },
        0xB4 => Instruction { operation: Operation::Ldy, mode: AddressMode::Zpx, cycles: 4 },
        0xB5 => Instruction { operation: Operation::Lda, mode: AddressMode::Zpx, cycles: 4 },
        0xB6 => Instruction { operation: Operation::Ldx, mode: AddressMode::Zpy, cycles: 4 },
        0xB7 => Instruction { operation: Operation::Lax, mode: AddressMode::Zpy, cycles: 4 },
        0xB8 => Instruction { operation: Operation::Clv, mode: AddressMode::Imp, cycles: 2 },
        0xB9 => Instruction { operation: Operation::Lda, mode: AddressMode::Aby, cycles: 4 },
        0xBA => Instruction { operation: Operation::Tsx, mode: AddressMode::Imp, cycles: 2 },
        0xBB => Instruction { operation: Operation::Xxx, mode: AddressMode::Aby, cycles: 4 },
        0xBC => Instruction { operation: Operation::Ldy, mode: AddressMode::Abx, cycles: 4 },
        0xBD => Instruction { operation: Operation::Lda, mode: AddressMode::Abx, cycles: 4 },
        0xBE => Instruction { operation: Operation::Ldx, mode: AddressMode::Aby, cycles: 4 },
        0xBF => Instruction { operation: Operation::Lax, mode: AddressMode::Aby, cycles: 4 },
        0xC0 => Instruction { operation: Operation::Cpy, mode: AddressMode::Imm, cycles: 2 },
        0xC1 => Instruction { operation: Operation::Cmp, mode: AddressMode::Izx, cycles: 6 },
        0xC2 => Instruction { operation: Operation::Nop, mode: AddressMode::Imm, cycles: 2 },
        0xC3 => Instruction { operation: Operation::Dcp, mode: AddressMode::Izx, cycles: 8 },
        0xC4 => Instruction { operation: Operation::Cpy, mode: AddressMode::Zp0, cycles: 3 },
        0xC5 => Instruction { operation: Operation::Cmp, mode: AddressMode::Zp0, cycles: 3 },
        0xC6 => Instruction { operation: Operation::Dec, mode: AddressMode::Zp0, cycles: 5 },
        0xC7 => Instruction { operation: Operation::Dcp, mode: AddressMode::Zp0, cycles: 5 },
        0xC8 => Instruction { operation: Operation::Iny, mode: AddressMode::Imp, cycles: 2 },
        0xC9 => Instruction { operation: Operation::Cmp, mode: AddressMode::Imm, cycles: 2 },
        0xCA => Instruction { operation: Operation::Dex, mode: AddressMode::Imp, cycles: 2 },
        0xCB => Instruction { operation: Operation::Xxx, mode: AddressMode::Imm, cycles: 2 },
        0xCC => Instruction { operation: Operation::Cpy, mode: AddressMode::Abs, cycles: 4 },
        0xCD => Instruction { operation: Operation::Cmp, mode: AddressMode::Abs, cycles: 4 },
        0xCE => Instruction { operation: Operation::Dec, mode: AddressMode::Abs, cycles: 6 },
        0xCF => Instruction { operation: Operation::Dcp, mode: AddressMode::Abs, cycles: 6 },
        0xD0 => Instruction { operation: Operation::Bne, mode: AddressMode::Rel, cycles: 2 },
        0xD1 => Instruction { operation: Operation::Cmp, mode: AddressMode::Izy, cycles: 5 },
        0xD2 => Instruction { operation: Operation::Stp, mode: AddressMode::Imp, cycles: 2 },
        0xD3 => Instruction { operation: Operation::Dcp, mode: AddressMode::Izy, cycles: 8 },
        0xD4 => Instruction { operation: Operation::Nop, mode: AddressMode::Zpx, cycles: 4 },
        0xD5 => Instruction { operation: Operation::Cmp, mode: AddressMode::Zpx, cycles: 4 },
        0xD6 => Instruction { operation: Operation::Dec, mode: AddressMode::Zpx, cycles: 6 },
        0xD7 => Instruction { operation: Operation::Dcp, mode: AddressMode::Zpx, cycles: 6 },
        0xD8 => Instruction { operation: Operation::Cld, mode: AddressMode::Imp, cycles: 2 },
        0xD9 => Instruction { operation: Operation::Cmp, mode: AddressMode::Aby, cycles: 4 },
        0xDA => Instruction { operation: Operation::Nop, mode: AddressMode::Imp, cycles: 2 },
        0xDB => Instruction { operation: Operation::Dcp, mode: AddressMode::Aby, cycles: 7 },
        0xDC => Instruction { operation: Operation::Nop, mode: AddressMode::Abx, cycles: 4 },
        0xDD => Instruction { operation: Operation::Cmp, mode: AddressMode::Abx, cycles: 4 },
        0xDE => Instruction { operation: Operation::Dec, mode: AddressMode::Abx, cycles: 7 },
        0xDF => Instruction { operation: Operation::Dcp, mode: AddressMode::Abx, cycles: 7 },
        0xE0 => Instruction { operation: Operation::Cpx, mode: AddressMode::Imm, cycles: 2 },
        0xE1 => Instruction { operation: Operation::Sbc, mode: AddressMode::Izx, cycles: 6 },
        0xE2 => Instruction { operation: Operation::Nop, mode: AddressMode::Imm, cycles: 2 },
        0xE3 => Instruction { operation: Operation::Isc, mode: AddressMode::Izx, cycles: 8 },
        0xE4 => Instruction { operation: Operation::Cpx, mode: AddressMode::Zp0, cycles: 3 },
        0xE5 => Instruction { operation: Operation::Sbc, mode: AddressMode::Zp0, cycles: 3 },
        0xE6 => Instruction { operation: Operation::Inc, mode: AddressMode::Zp0, cycles: 5 },
        0xE7 => Instruction { operation: Operation::Isc, mode: AddressMode::Zp0, cycles: 5 },
        0xE8 => Instruction { operation: Operation::Inx, mode: AddressMode::Imp, cycles: 2 },
        0xE9 => Instruction { operation: Operation::Sbc, mode: AddressMode::Imm, cycles: 2 },
        0xEA => Instruction { operation: Operation::Nop, mode: AddressMode::Imp, cycles: 2 },
        0xEB => Instruction { operation: Operation::Sbc, mode: AddressMode::Imm, cycles: 2 },
        0xEC => Instruction { operation: Operation::Cpx, mode: AddressMode::Abs, cycles: 4 },
        0xED => Instruction { operation: Operation::Sbc, mode: AddressMode::Abs, cycles: 4 },
        0xEE => Instruction { operation: Operation::Inc, mode: AddressMode::Abs, cycles: 6 },
        0xEF => Instruction { operation: Operation::Isc, mode: AddressMode::Abs, cycles: 6 },
        0xF0 => Instruction { operation: Operation::Beq, mode: AddressMode::Rel, cycles: 2 },
        0xF1 => Instruction { operation: Operation::Sbc, mode: AddressMode::Izy, cycles: 5 },
        0xF2 => Instruction { operation: Operation::Stp, mode: AddressMode::Imp, cycles: 2 },
        0xF3 => Instruction { operation: Operation::Isc, mode: AddressMode::Izy, cycles: 8 },
        0xF4 => Instruction { operation: Operation::Nop, mode: AddressMode::Zpx, cycles: 4 },
        0xF5 => Instruction { operation: Operation::Sbc, mode: AddressMode::Zpx, cycles: 4 },
        0xF6 => Instruction { operation: Operation::Inc, mode: AddressMode::Zpx, cycles: 6 },
        0xF7 => Instruction { operation: Operation::Isc, mode: AddressMode::Zpx, cycles: 6 },
        0xF8 => Instruction { operation: Operation::Sed, mode: AddressMode::Imp, cycles: 2 },
        0xF9 => Instruction { operation: Operation::Sbc, mode: AddressMode::Aby, cycles: 4 },
        0xFA => Instruction { operation: Operation::Nop, mode: AddressMode::Imp, cycles: 2 },
        0xFB => Instruction { operation: Operation::Isc, mode: AddressMode::Aby, cycles: 7 },
        0xFC => Instruction { operation: Operation::Nop, mode: AddressMode::Abx, cycles: 4 },
        0xFD => Instruction { operation: Operation::Sbc, mode: AddressMode::Abx, cycles: 4 },
        0xFE => Instruction { operation: Operation::Inc, mode: AddressMode::Abx, cycles: 7 },
        0xFF => Instruction { operation: Operation::Isc, mode: AddressMode::Abx, cycles: 7 },
    }
}

pub fn get_address_mode(opcode: u8) -> (r: AddressMode)
    ensures
        r == address_mode_of(opcode),
{
    lookup(opcode).mode
}

/// Every instruction takes between two and eight cycles before any extra ones.
pub proof fn lemma_cycles_bounded(opcode: u8)
    ensures
        2 <= instruction(opcode).cycles <= 8,
{
}

} // verus!
