use vstd::prelude::*;
use super::{CpuBus, CpuView, Olc6502, Flags6502};
use super::opcode_table::{AddressMode, Operation, instruction, lookup, lemma_cycles_bounded};
use super::address_modes::{imp, imm, zp0, zpx, zpy, rel, abs, abx, aby, ind, izx, izy};
use super::opcodes::{
    adc, and, asl, bcc, bcs, beq, bit, bmi, bne, bpl, brk, bvc, bvs, clc, cld, cli, clv, cmp, cpx, cpy, dec, dex, dey, eor, inc, inx, iny, jmp, jsr, lda, ldx, ldy, lsr, nop, ora, pha, php, pla, plp, rol, ror, rti, rts, sbc, sec, sed, sei, sta, stx, sty, tax, tay, tsx, txa, txs, tya,
};
use super::unofficial_opcodes::{dcp, isc, lax, rla, rra, sax, slo, sre, stp, xxx};

verus! {

impl<B: CpuBus> CpuView<B> {
    /// The CPU after the addressing mode `mode` has run, and whether it may cost an extra cycle.
    pub open spec fn mode_spec(self, mode: AddressMode) -> (Self, u8) {
        match mode {
            AddressMode::Imp => self.imp_spec(),
            AddressMode::Imm => self.imm_spec(),
            AddressMode::Zp0 => self.zp0_spec(),
            AddressMode::Zpx => self.zpx_spec(),
            AddressMode::Zpy => self.zpy_spec(),
            AddressMode::Rel => self.rel_spec(),
            AddressMode::Abs => self.abs_spec(),
            AddressMode::Abx => self.abx_spec(),
            AddressMode::Aby => self.aby_spec(),
            AddressMode::Ind => self.ind_spec(),
            AddressMode::Izx => self.izx_spec(),
            AddressMode::Izy => self.izy_spec(),
        }
    }

    /// The CPU after the operation `op` has run, and whether it may take the extra cycle
    /// its addressing mode asked for.
    #[verifier::opaque]
    pub open spec fn operation_spec(self, op: Operation) -> (Self, u8) {
        match op {
            Operation::Adc => (self.adc_spec(), 1),
            Operation::And => (self.and_spec(), 1),
            Operation::Asl => (self.asl_spec(), 1),
            Operation::Bcc => (self.branch_spec(Flags6502::CarryBit, 0), 0),
            Operation::Bcs => (self.branch_spec(Flags6502::CarryBit, 1), 0),
            Operation::Beq => (self.branch_spec(Flags6502::Zero, 1), 0),
            Operation::Bit => (self.bit_spec(), 0),
            Operation::Bmi => (self.branch_spec(Flags6502::Negative, 1), 0),
            Operation::Bne => (self.branch_spec(Flags6502::Zero, 0), 0),
            Operation::Bpl => (self.branch_spec(Flags6502::Negative, 0), 0),
            Operation::Brk => (self.brk_spec(), 0),
            Operation::Bvc => (self.branch_spec(Flags6502::Overflow, 0), 0),
            Operation::Bvs => (self.branch_spec(Flags6502::Overflow, 1), 0),
            Operation::Clc => (self.set_flag_spec(Flags6502::CarryBit, false), 0),
            Operation::Cld => (self.set_flag_spec(Flags6502::DecimalMode, false), 0),
            Operation::Cli => (self.set_flag_spec(Flags6502::DisableInterrupts, false), 0),
            Operation::Clv => (self.set_flag_spec(Flags6502::Overflow, false), 0),
            Operation::Cmp => (self.compare_spec(self.accumulator), 0),
            Operation::Cpx => (self.compare_spec(self.x_register), 0),
            Operation::Cpy => (self.compare_spec(self.y_register), 0),
            Operation::Dcp => (self.dec_spec().compare_spec(self.accumulator), 0),
            Operation::Dec => (self.dec_spec(), 0),
            Operation::Dex => (self.with_x(self.x_register.wrapping_sub(1)), 0),
            Operation::Dey => (self.with_y(self.y_register.wrapping_sub(1)), 0),
            Operation::Eor => (self.eor_spec(), 1),
            Operation::Inc => (self.inc_spec(), 0),
            Operation::Inx => (self.with_x(self.x_register.wrapping_add(1)), 0),
            Operation::Iny => (self.with_y(self.y_register.wrapping_add(1)), 0),
            Operation::Isc => (self.inc_spec().sbc_spec(), 1),
            Operation::Jmp => (CpuView { program_counter: self.addr_abs, ..self }, 0),
            Operation::Jsr => (self.jsr_spec(), 0),
            Operation::Lax => (self.lda_spec().with_x(self.lda_spec().accumulator), 0),
            Operation::Lda => (self.lda_spec(), 0),
            Operation::Ldx => (self.ldx_spec(), 0),
            Operation::Ldy => (self.ldy_spec(), 0),
            Operation::Lsr => (self.lsr_spec(), 0),
            Operation::Nop => (self, self.nop_cycles()),
            Operation::Ora => (self.ora_spec(), 1),
            Operation::Pha => (self.push_spec(self.accumulator), 0),
            Operation::Php => (self.push_spec(self.status_register | 0x10 | 0x20), 0),
            Operation::Pla => (self.pla_spec(), 0),
            Operation::Plp => (self.plp_spec(), 0),
            Operation::Rla => (self.rol_spec().and_spec(), 1),
            Operation::Rol => (self.rol_spec(), 0),
            Operation::Ror => (self.ror_spec(), 0),
            Operation::Rra => (self.ror_spec().adc_spec(), 1),
            Operation::Rti => (self.rti_spec(), 0),
            Operation::Rts => (self.rts_spec(), 0),
            Operation::Sax => (self.write_spec(self.addr_abs, self.accumulator & self.x_register), 0),
            Operation::Sbc => (self.sbc_spec(), 1),
            Operation::Sec => (self.set_flag_spec(Flags6502::CarryBit, true), 0),
            Operation::Sed => (self.set_flag_spec(Flags6502::DecimalMode, true), 0),
            Operation::Sei => (self.set_flag_spec(Flags6502::DisableInterrupts, true), 0),
            Operation::Slo => (self.asl_spec().ora_spec(), 1),
            Operation::Sre => (self.lsr_spec().eor_spec(), 1),
            Operation::Sta => (self.write_spec(self.addr_abs, self.accumulator), 0),
            Operation::Stp => (self, 0),
            Operation::Stx => (self.write_spec(self.addr_abs, self.x_register), 0),
            Operation::Sty => (self.write_spec(self.addr_abs, self.y_register), 0),
            Operation::Tax => (self.with_x(self.accumulator), 0),
            Operation::Tay => (self.with_y(self.accumulator), 0),
            Operation::Tsx => (self.with_x(self.stack_pointer), 0),
            Operation::Txa => (self.with_accumulator(self.x_register), 0),
            Operation::Txs => (CpuView { stack_pointer: self.x_register, ..self }, 0),
            Operation::Tya => (self.with_accumulator(self.y_register), 0),
            Operation::Xxx => (self, 0),
        }
    }

    /// One CPU clock. With no cycles left of the instruction in flight, the next opcode is
    /// read at the program counter and executed at once: its addressing mode, then its
    /// operation, and its cycle count is loaded, with one more when both the addressing mode
    /// and the operation ask for it. Then one cycle is spent. The program counter wraps at
    /// $FFFF. An opcode that halts the processor is answered with `Err(opcode)` and not
    /// executed.
    pub open spec fn clock_spec(self) -> (Self, Result<(), u8>) {
        if self.cycles == 0 {
            let (s1, opcode) = self.read_spec(self.program_counter);
            let ins = instruction(opcode);
            let s2 = CpuView { opcode, program_counter: s1.program_counter.wrapping_add(1), ..s1 };
            if ins.operation == Operation::Stp {
                (s2, Err(opcode))
            } else {
                let (s3, extra_mode) = CpuView { cycles: ins.cycles, ..s2 }.mode_spec(ins.mode);
                let (s4, extra_operation) = s3.operation_spec(ins.operation);
                (CpuView { cycles: (s4.cycles + (extra_mode & extra_operation) - 1) as u8, ..s4 }, Ok(()))
            }
        } else {
            (CpuView { cycles: (self.cycles - 1) as u8, ..self }, Ok(()))
        }
    }
}

/// Addressing modes leave the cycle count alone.
pub proof fn lemma_mode_keeps_cycles<B: CpuBus>(s: CpuView<B>, mode: AddressMode)
    ensures
        s.mode_spec(mode).0.cycles == s.cycles,
        s.mode_spec(mode).1 <= 1,
{
}

/// Only a taken branch adds cycles, one or two.
pub proof fn lemma_operation_cycles<B: CpuBus>(s: CpuView<B>, op: Operation)
    requires
        s.cycles <= 8,
    ensures
        s.cycles <= s.operation_spec(op).0.cycles <= s.cycles + 2,
        s.operation_spec(op).1 <= 1,
{
    reveal(CpuView::operation_spec);
}

impl<B: CpuBus> Olc6502<B> {
    fn run_address_mode(&mut self, mode: AddressMode) -> (r: u8)
        requires
            old(self)@.wf(),
        ensures
            final(self)@.wf(),
            (final(self)@, r) == old(self)@.mode_spec(mode),
    {
        match mode {
            AddressMode::Imp => imp(self),
            AddressMode::Imm => imm(self),
            AddressMode::Zp0 => zp0(self),
            AddressMode::Zpx => zpx(self),
            AddressMode::Zpy => zpy(self),
            AddressMode::Rel => rel(self),
            AddressMode::Abs => abs(self),
            AddressMode::Abx => abx(self),
            AddressMode::Aby => aby(self),
            AddressMode::Ind => ind(self),
            AddressMode::Izx => izx(self),
            AddressMode::Izy => izy(self),
        }
    }

    fn run_operation(&mut self, op: Operation) -> (r: u8)
        requires
            old(self)@.wf(),
        ensures
            final(self)@.wf(),
            (final(self)@, r) == old(self)@.operation_spec(op),
    {
        proof {
            reveal(CpuView::operation_spec);
        }
        match op {
            Operation::Adc => adc(self),
            Operation::And => and(self),
            Operation::Asl => asl(self),
            Operation::Bcc => bcc(self),
            Operation::Bcs => bcs(self),
            Operation::Beq => beq(self),
            Operation::Bit => bit(self),
            Operation::Bmi => bmi(self),
            Operation::Bne => bne(self),
            Operation::Bpl => bpl(self),
            Operation::Brk => brk(self),
            Operation::Bvc => bvc(self),
            Operation::Bvs => bvs(self),
            Operation::Clc => clc(self),
            Operation::Cld => cld(self),
            Operation::Cli => cli(self),
            Operation::Clv => clv(self),
            Operation::Cmp => cmp(self),
            Operation::Cpx => cpx(self),
            Operation::Cpy => cpy(self),
            Operation::Dcp => dcp(self),
            Operation::Dec => dec(self),
            Operation::Dex => dex(self),
            Operation::Dey => dey(self),
            Operation::Eor => eor(self),
            Operation::Inc => inc(self),
            Operation::Inx => inx(self),
            Operation::Iny => iny(self),
            Operation::Isc => isc(self),
            Operation::Jmp => jmp(self),
            Operation::Jsr => jsr(self),
            Operation::Lax => lax(self),
            Operation::Lda => lda(self),
            Operation::Ldx => ldx(self),
            Operation::Ldy => ldy(self),
            Operation::Lsr => lsr(self),
            Operation::Nop => nop(self),
            Operation::Ora => ora(self),
            Operation::Pha => pha(self),
            Operation::Php => php(self),
            Operation::Pla => pla(self),
            Operation::Plp => plp(self),
            Operation::Rla => rla(self),
            Operation::Rol => rol(self),
            Operation::Ror => ror(self),
            Operation::Rra => rra(self),
            Operation::Rti => rti(self),
            Operation::Rts => rts(self),
            Operation::Sax => sax(self),
            Operation::Sbc => sbc(self),
            Operation::Sec => sec(self),
            Operation::Sed => sed(self),
            Operation::Sei => sei(self),
            Operation::Slo => slo(self),
            Operation::Sre => sre(self),
            Operation::Sta => sta(self),
            Operation::Stp => 0,
            Operation::Stx => stx(self),
            Operation::Sty => sty(self),
            Operation::Tax => tax(self),
            Operation::Tay => tay(self),
            Operation::Tsx => tsx(self),
            Operation::Txa => txa(self),
            Operation::Txs => txs(self),
            Operation::Tya => tya(self),
            Operation::Xxx => xxx(self),
        }
    }

    /// Advance the CPU by one clock cycle (see `CpuView::clock_spec`).
    pub fn clock(&mut self) -> (r: Result<(), u8>)
        requires
            old(self)@.wf(),
        ensures
            final(self)@.wf(),
            (final(self)@, r) == old(self)@.clock_spec(),
    {
        if self.cycles == 0 {
            let opcode = self.read(self.program_counter);
            self.opcode = opcode;
            let ins = lookup(opcode);
            self.program_counter = self.program_counter.wrapping_add(1);
            if ins.operation == Operation::Stp {
                return match stp(self) {
                    Ok(_) => Ok(()),
                    Err(code) => Err(code),
                };
            }
            self.cycles = ins.cycles;
            proof {
                lemma_cycles_bounded(opcode);
                lemma_mode_keeps_cycles(self@, ins.mode);
            }
            let extra_mode = self.run_address_mode(ins.mode);
            proof {
                lemma_operation_cycles(self@, ins.operation);
            }
            let extra_operation = self.run_operation(ins.operation);
            assert(extra_mode & extra_operation <= 1) by (bit_vector)
                requires
                    extra_mode <= 1;
            self.cycles = self.cycles + (extra_mode & extra_operation);
        }
        self.cycles = self.cycles - 1;
        Ok(())
    }
}

} // verus!
