use vstd::prelude::*;
use super::{CpuBus, CpuView, Olc6502};
use super::opcodes::{adc, and, asl, cmp, dec, eor, inc, lda, lsr, ora, rol, ror, sbc, tax};

verus! {

/// Undocumented opcode: decrement memory, then compare the accumulator with it.
pub fn dcp<B: CpuBus>(cpu: &mut Olc6502<B>) -> (r: u8)
    requires
        old(cpu)@.wf(),
    ensures
        final(cpu)@.wf(),
        final(cpu)@ == old(cpu)@.dec_spec().compare_spec(old(cpu).accumulator),
        r == 0,
{
    dec(cpu);
    cmp(cpu)
}

/// Undocumented opcode: increment memory, then subtract it from the accumulator.
pub fn isc<B: CpuBus>(cpu: &mut Olc6502<B>) -> (r: u8)
    requires
        old(cpu)@.wf(),
    ensures
        final(cpu)@.wf(),
        final(cpu)@ == old(cpu)@.inc_spec().sbc_spec(),
        r == 1,
{
    inc(cpu);
    sbc(cpu)
}

/// Undocumented opcode: load the accumulator and X with the same byte.
pub fn lax<B: CpuBus>(cpu: &mut Olc6502<B>) -> (r: u8)
    requires
        old(cpu)@.wf(),
    ensures
        final(cpu)@.wf(),
        final(cpu)@ == old(cpu)@.lda_spec().with_x(old(cpu)@.lda_spec().accumulator),
        r == 0,
{
    lda(cpu);
    tax(cpu)
}

/// Undocumented opcode: rotate memory left, then AND it into the accumulator.
pub fn rla<B: CpuBus>(cpu: &mut Olc6502<B>) -> (r: u8)
    requires
        old(cpu)@.wf(),
    ensures
        final(cpu)@.wf(),
        final(cpu)@ == old(cpu)@.rol_spec().and_spec(),
        r == 1,
{
    rol(cpu);
    and(cpu)
}

/// Undocumented opcode: rotate memory right, then add it to the accumulator.
pub fn rra<B: CpuBus>(cpu: &mut Olc6502<B>) -> (r: u8)
    requires
        old(cpu)@.wf(),
    ensures
        final(cpu)@.wf(),
        final(cpu)@ == old(cpu)@.ror_spec().adc_spec(),
        r == 1,
{
    ror(cpu);
    adc(cpu)
}

/// Undocumented opcode: store the accumulator AND X.
pub fn sax<B: CpuBus>(cpu: &mut Olc6502<B>) -> (r: u8)
    requires
        old(cpu)@.wf(),
    ensures
        final(cpu)@.wf(),
        final(cpu)@ == old(cpu)@.write_spec(old(cpu).addr_abs, old(cpu).accumulator & old(cpu).x_register),
        r == 0,
{
    cpu.write(cpu.addr_abs, cpu.accumulator & cpu.x_register);
    0
}

/// Undocumented opcode: shift memory left, then OR it into the accumulator.
pub fn slo<B: CpuBus>(cpu: &mut Olc6502<B>) -> (r: u8)
    requires
        old(cpu)@.wf(),
    ensures
        final(cpu)@.wf(),
        final(cpu)@ == old(cpu)@.asl_spec().ora_spec(),
        r == 1,
{
    asl(cpu);
    ora(cpu)
}

/// Undocumented opcode: shift memory right, then XOR it into the accumulator.
pub fn sre<B: CpuBus>(cpu: &mut Olc6502<B>) -> (r: u8)
    requires
        old(cpu)@.wf(),
    ensures
        final(cpu)@.wf(),
        final(cpu)@ == old(cpu)@.lsr_spec().eor_spec(),
        r == 1,
{
    lsr(cpu);
    eor(cpu)
}

/// An opcode that halts the processor: the fault is reported with the opcode, and the
/// CPU is left as it was.
pub fn stp<B: CpuBus>(cpu: &mut Olc6502<B>) -> (r: Result<u8, u8>)
    ensures
        final(cpu)@ == old(cpu)@,
        r == Err::<u8, u8>(old(cpu).opcode),
{
    Err(cpu.opcode)
}

/// An illegal opcode that does nothing.
pub fn xxx<B: CpuBus>(cpu: &mut Olc6502<B>) -> (r: u8)
    ensures
        final(cpu)@ == old(cpu)@,
        r == 0,
{
    0
}

} // verus!
