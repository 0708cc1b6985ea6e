use vstd::prelude::*;
use super::{CpuBus, CpuView, Olc6502, Flags6502, with_flag, with_zn, INTERRUPT_PROGRAM_COUNTER_ADDRESS};
use super::opcode_table::{AddressMode, address_mode_of, get_address_mode};

verus! {

/// The status after ADC of `a`, `m` and the carry `c`: carry out, zero and negative from
/// the result, and signed overflow.
pub open spec fn add_status(status: u8, a: u8, m: u8, c: u8) -> u8 {
    let sum = a + m + c;
    let result = (sum % 256) as u8;
    with_flag(
        with_zn(with_flag(status, Flags6502::CarryBit, sum > 0xFF), result),
        Flags6502::Overflow,
        (a ^ m) & 0x80 == 0 && (a ^ result) & 0x80 != 0,
    )
}

/// The difference SBC forms from accumulator `a`, operand `m` and carry `c`: the operand
/// less the accumulator less the borrow `1 - c`.
pub open spec fn sbc_difference(a: u8, m: u8, c: u8) -> int {
    m - a - (1 - c)
}

/// The status after SBC, describing the difference it forms: carry set when nothing was
/// borrowed (the difference did not go below zero), zero and negative from the result, and
/// signed overflow (operand and accumulator differ in sign, and the result's sign differs
/// from the operand's).
pub open spec fn sub_status(status: u8, a: u8, m: u8, c: u8) -> u8 {
    let difference = sbc_difference(a, m, c);
    let result = ((difference + 256) % 256) as u8;
    with_flag(
        with_zn(with_flag(status, Flags6502::CarryBit, difference >= 0), result),
        Flags6502::Overflow,
        (m ^ a) & 0x80 != 0 && (m ^ result) & 0x80 != 0,
    )
}

/// The status after comparing register value `r` with `m`.
pub open spec fn compare_status(status: u8, r: u8, m: u8) -> u8 {
    with_flag(
        with_flag(with_flag(status, Flags6502::CarryBit, r >= m), Flags6502::Zero, r == m),
        Flags6502::Negative,
        r.wrapping_sub(m) & 0x80 != 0,
    )
}

/// The effect of each instruction on the CPU, given that its addressing mode has run.
impl<B: CpuBus> CpuView<B> {
    /// Store a shift or rotate result: in the accumulator for implied addressing, in memory otherwise.
    pub open spec fn store_result_spec(self, result: u8) -> Self {
        if address_mode_of(self.opcode) == AddressMode::Imp {
            CpuView { accumulator: result, ..self }
        } else {
            self.write_spec(self.addr_abs, result)
        }
    }

    pub open spec fn with_accumulator(self, value: u8) -> Self {
        CpuView { accumulator: value, status_register: with_zn(self.status_register, value), ..self }
    }

    pub open spec fn with_x(self, value: u8) -> Self {
        CpuView { x_register: value, status_register: with_zn(self.status_register, value), ..self }
    }

    pub open spec fn with_y(self, value: u8) -> Self {
        CpuView { y_register: value, status_register: with_zn(self.status_register, value), ..self }
    }

    pub open spec fn adc_spec(self) -> Self {
        let s = self.fetch_spec();
        let a = s.accumulator;
        let m = s.fetched_data;
        let c = s.flag(Flags6502::CarryBit);
        CpuView {
            accumulator: ((a + m + c) % 256) as u8,
            status_register: add_status(s.status_register, a, m, c),
            ..s
        }
    }

    pub open spec fn and_spec(self) -> Self {
        let s = self.fetch_spec();
        s.with_accumulator(s.accumulator & s.fetched_data)
    }

    pub open spec fn asl_spec(self) -> Self {
        let s = self.fetch_spec();
        let m = s.fetched_data;
        let result = m << 1u8;
        CpuView {
            status_register: with_zn(with_flag(s.status_register, Flags6502::CarryBit, m & 0x80 != 0), result),
            ..s
        }.store_result_spec(result)
    }

    /// Take the branch when `flag` reads `value`: one extra cycle, two when the target is on another page.
    pub open spec fn branch_spec(self, flag: Flags6502, value: u8) -> Self {
        if self.flag(flag) != value {
            self
        } else {
            let target = self.program_counter.wrapping_add(self.addr_rel);
            let cycles = self.cycles.wrapping_add(1);
            CpuView {
                addr_abs: target,
                program_counter: target,
                cycles: if target & 0xFF00 != self.program_counter & 0xFF00 { cycles.wrapping_add(1) } else { cycles },
                ..self
            }
        }
    }

    pub open spec fn bit_spec(self) -> Self {
        let s = self.fetch_spec();
        let m = s.fetched_data;
        CpuView {
            status_register: with_flag(
                with_flag(with_flag(s.status_register, Flags6502::Zero, m & s.accumulator == 0), Flags6502::Overflow, m & 0x40 != 0),
                Flags6502::Negative,
                m & 0x80 != 0,
            ),
            ..s
        }
    }

    /// Push the program counter and the status with break and unused set, disable interrupts,
    /// and jump through the interrupt vector.
    pub open spec fn brk_spec(self) -> Self {
        let s1 = self.push_counter_spec();
        let s2 = s1.push_spec(s1.status_register | 0b0011_0000);
        let s3 = s2.set_flag_spec(Flags6502::DisableInterrupts, true);
        let (s4, pc) = s3.read_word_spec(INTERRUPT_PROGRAM_COUNTER_ADDRESS);
        CpuView { program_counter: pc, ..s4 }
    }

    pub open spec fn compare_spec(self, register: u8) -> Self {
        let s = self.fetch_spec();
        CpuView { status_register: compare_status(s.status_register, register, s.fetched_data), ..s }
    }

    pub open spec fn dec_spec(self) -> Self {
        let s = self.fetch_spec();
        let result = s.fetched_data.wrapping_sub(1);
        let w = s.write_spec(s.addr_abs, result);
        CpuView { status_register: with_zn(w.status_register, result), ..w }
    }

    pub open spec fn eor_spec(self) -> Self {
        let s = self.fetch_spec();
        s.with_accumulator(s.accumulator ^ s.fetched_data)
    }

    pub open spec fn inc_spec(self) -> Self {
        let s = self.fetch_spec();
        let result = s.fetched_data.wrapping_add(1);
        let w = s.write_spec(s.addr_abs, result);
        CpuView { status_register: with_zn(w.status_register, result), ..w }
    }

    pub open spec fn jsr_spec(self) -> Self {
        let s = CpuView { program_counter: self.program_counter.wrapping_sub(1), ..self }.push_counter_spec();
        CpuView { program_counter: s.addr_abs, ..s }
    }

    pub open spec fn lda_spec(self) -> Self {
        let s = self.fetch_spec();
        s.with_accumulator(s.fetched_data)
    }

    pub open spec fn ldx_spec(self) -> Self {
        let s = self.fetch_spec();
        s.with_x(s.fetched_data)
    }

    pub open spec fn ldy_spec(self) -> Self {
        let s = self.fetch_spec();
        s.with_y(s.fetched_data)
    }

    pub open spec fn lsr_spec(self) -> Self {
        let s = self.fetch_spec();
        let m = s.fetched_data;
        let result = m >> 1u8;
        CpuView {
            status_register: with_flag(with_zn(s.status_register, result), Flags6502::CarryBit, m & 1 != 0),
            ..s
        }.store_result_spec(result)
    }

    pub open spec fn ora_spec(self) -> Self {
        let s = self.fetch_spec();
        s.with_accumulator(s.accumulator | s.fetched_data)
    }

    pub open spec fn plp_spec(self) -> Self {
        let (s, status) = self.pull_spec();
        CpuView { status_register: status, ..s }
    }

    pub open spec fn pla_spec(self) -> Self {
        let (s, value) = self.pull_spec();
        s.with_accumulator(value)
    }

    pub open spec fn rol_spec(self) -> Self {
        let s = self.fetch_spec();
        let m = s.fetched_data;
        let result = (m << 1u8) | s.flag(Flags6502::CarryBit);
        CpuView {
            status_register: with_zn(with_flag(s.status_register, Flags6502::CarryBit, m & 0x80 != 0), result),
            ..s
        }.store_result_spec(result)
    }

    pub open spec fn ror_spec(self) -> Self {
        let s = self.fetch_spec();
        let m = s.fetched_data;
        let result = (s.flag(Flags6502::CarryBit) << 7u8) | (m >> 1u8);
        CpuView {
            status_register: with_zn(with_flag(s.status_register, Flags6502::CarryBit, m & 1 != 0), result),
            ..s
        }.store_result_spec(result)
    }

    pub open spec fn rti_spec(self) -> Self {
        let (s, pc) = self.plp_spec().pull_counter_spec();
        CpuView { program_counter: pc, ..s }
    }

    pub open spec fn rts_spec(self) -> Self {
        let (s, pc) = self.pull_counter_spec();
        CpuView { program_counter: pc.wrapping_add(1), ..s }
    }

    pub open spec fn sbc_spec(self) -> Self {
        let s = self.fetch_spec();
        let a = s.accumulator;
        let m = s.fetched_data;
        let c = s.flag(Flags6502::CarryBit);
        CpuView {
            accumulator: ((sbc_difference(a, m, c) + 256) % 256) as u8,
            status_register: sub_status(s.status_register, a, m, c),
            ..s
        }
    }

    /// The opcodes among the no-operations that may take an extra cycle.
    pub open spec fn nop_cycles(self) -> u8 {
        if self.opcode == 0x1C || self.opcode == 0x3C || self.opcode == 0x5C || self.opcode == 0x7C
            || self.opcode == 0xDC || self.opcode == 0xFC {
            1
        } else {
            0
        }
    }
}

/// Opcode: Add with Carry
/// Overflow occurs when you add two positive numbers together and get a negative or you add two negative and get a positive
/// To check this you check the most significant bits of accumulator, memory and result
/// In order for overflow to occur, the most significant bits of the accumulator and memory need to be the same and the result needs to be different
/// We can do this using XOR
pub fn adc<B: CpuBus>(cpu: &mut Olc6502<B>) -> (r: u8)
    requires
        old(cpu)@.wf(),
    ensures
        final(cpu)@.wf(),
        final(cpu)@ == old(cpu)@.adc_spec(),
        r == 1,
{
    cpu.fetch();
    let a = cpu.accumulator;
    let m = cpu.fetched_data;
    let c = cpu.get_flag(Flags6502::CarryBit);
    // Add in u16 space so we can get any carry bits
    let sum = (a as u16) + (m as u16) + (c as u16);
    let result = (sum & 0xFF) as u8;
    assert(sum & 0xFF == sum % 256) by (bit_vector);
    let overflow = (a ^ m) & 0x80 == 0 && (a ^ result) & 0x80 != 0;
    cpu.set_flag(Flags6502::CarryBit, sum > 0xFF);
    cpu.set_flag(Flags6502::Zero, result == 0x00);
    cpu.set_flag(Flags6502::Negative, (result & 0x80) != 0);
    cpu.set_flag(Flags6502::Overflow, overflow);
    cpu.accumulator = result;
    1
}

/// Opcode: Logical AND
pub fn and<B: CpuBus>(cpu: &mut Olc6502<B>) -> (r: u8)
    requires
        old(cpu)@.wf(),
    ensures
        final(cpu)@.wf(),
        final(cpu)@ == old(cpu)@.and_spec(),
        r == 1,
{
    cpu.fetch();
    cpu.accumulator = cpu.accumulator & cpu.fetched_data;
    cpu.set_flag(Flags6502::Zero, cpu.accumulator == 0x00);
    cpu.set_flag(Flags6502::Negative, (cpu.accumulator & 0x80) != 0);
    1
}

/// Opcode: Arithmetic Shift Left
pub fn asl<B: CpuBus>(cpu: &mut Olc6502<B>) -> (r: u8)
    requires
        old(cpu)@.wf(),
    ensures
        final(cpu)@.wf(),
        final(cpu)@ == old(cpu)@.asl_spec(),
        r == 1,
{
    cpu.fetch();
    let m = cpu.fetched_data;
    let shifted = (m as u16) << 1;
    assert((shifted > 0xFF) == (m & 0x80 != 0)) by (bit_vector)
        requires
            shifted == (m as u16) << 1u16;
    assert(shifted as u8 == m << 1u8) by (bit_vector)
        requires
            shifted == (m as u16) << 1u16;
    assert((shifted & 0x00FF == 0) == (m << 1u8 == 0)) by (bit_vector)
        requires
            shifted == (m as u16) << 1u16;
    assert(((shifted & 0x80) != 0) == ((m << 1u8) & 0x80 != 0)) by (bit_vector)
        requires
            shifted == (m as u16) << 1u16;
    cpu.set_flag(Flags6502::CarryBit, shifted > 0xFF);
    cpu.set_flag(Flags6502::Zero, shifted & 0x00FF == 0);
    cpu.set_flag(Flags6502::Negative, (shifted & 0x80) != 0);
    let result = shifted as u8;
    store_result(cpu, result);
    1
}

/// Opcode: Branch if Carry Clear
pub fn bcc<B: CpuBus>(cpu: &mut Olc6502<B>) -> (r: u8)
    requires
        old(cpu)@.wf(),
    ensures
        final(cpu)@.wf(),
        final(cpu)@ == old(cpu)@.branch_spec(Flags6502::CarryBit, 0),
        r == 0,
{
    branch_if_clear(cpu, Flags6502::CarryBit);
    0
}

/// Opcode: Branch if Carry Set
pub fn bcs<B: CpuBus>(cpu: &mut Olc6502<B>) -> (r: u8)
    requires
        old(cpu)@.wf(),
    ensures
        final(cpu)@.wf(),
        final(cpu)@ == old(cpu)@.branch_spec(Flags6502::CarryBit, 1),
        r == 0,
{
    branch_if_set(cpu, Flags6502::CarryBit);
    0
}

/// Opcode: Branch if Equal
pub fn beq<B: CpuBus>(cpu: &mut Olc6502<B>) -> (r: u8)
    requires
        old(cpu)@.wf(),
    ensures
        final(cpu)@.wf(),
        final(cpu)@ == old(cpu)@.branch_spec(Flags6502::Zero, 1),
        r == 0,
{
    branch_if_set(cpu, Flags6502::Zero);
    0
}

/// Opcode: Branch if Minus
pub fn bmi<B: CpuBus>(cpu: &mut Olc6502<B>) -> (r: u8)
    requires
        old(cpu)@.wf(),
    ensures
        final(cpu)@.wf(),
        final(cpu)@ == old(cpu)@.branch_spec(Flags6502::Negative, 1),
        r == 0,
{
    branch_if_set(cpu, Flags6502::Negative);
    0
}

/// Opcode: Branch if Not Equal
pub fn bne<B: CpuBus>(cpu: &mut Olc6502<B>) -> (r: u8)
    requires
        old(cpu)@.wf(),
    ensures
        final(cpu)@.wf(),
        final(cpu)@ == old(cpu)@.branch_spec(Flags6502::Zero, 0),
        r == 0,
{
    branch_if_clear(cpu, Flags6502::Zero);
    0
}

/// Opcode: Branch if Positive
pub fn bpl<B: CpuBus>(cpu: &mut Olc6502<B>) -> (r: u8)
    requires
        old(cpu)@.wf(),
    ensures
        final(cpu)@.wf(),
        final(cpu)@ == old(cpu)@.branch_spec(Flags6502::Negative, 0),
        r == 0,
{
    branch_if_clear(cpu, Flags6502::Negative);
    0
}

/// Opcode: Branch if Overflow Clear
pub fn bvc<B: CpuBus>(cpu: &mut Olc6502<B>) -> (r: u8)
    requires
        old(cpu)@.wf(),
    ensures
        final(cpu)@.wf(),
        final(cpu)@ == old(cpu)@.branch_spec(Flags6502::Overflow, 0),
        r == 0,
{
    branch_if_clear(cpu, Flags6502::Overflow);
    0
}

/// Opcode: Branch if Overflow Set
pub fn bvs<B: CpuBus>(cpu: &mut Olc6502<B>) -> (r: u8)
    requires
        old(cpu)@.wf(),
    ensures
        final(cpu)@.wf(),
        final(cpu)@ == old(cpu)@.branch_spec(Flags6502::Overflow, 1),
        r == 0,
{
    branch_if_set(cpu, Flags6502::Overflow);
    0
}

/// Opcode: Bit Test
pub fn bit<B: CpuBus>(cpu: &mut Olc6502<B>) -> (r: u8)
    requires
        old(cpu)@.wf(),
    ensures
        final(cpu)@.wf(),
        final(cpu)@ == old(cpu)@.bit_spec(),
        r == 0,
{
    cpu.fetch();
    let bit6 = (cpu.fetched_data & 0x40) >> 6;
    let bit7 = (cpu.fetched_data & 0x80) >> 7;
    let m = cpu.fetched_data;
    assert((bit6 == 1) == (m & 0x40 != 0)) by (bit_vector)
        requires
            bit6 == (m & 0x40) >> 6u8;
    assert((bit7 == 1) == (m & 0x80 != 0)) by (bit_vector)
        requires
            bit7 == (m & 0x80) >> 7u8;
    cpu.set_flag(Flags6502::Zero, (cpu.fetched_data & cpu.accumulator) == 0x00);
    cpu.set_flag(Flags6502::Overflow, bit6 == 1);
    cpu.set_flag(Flags6502::Negative, bit7 == 1);
    0
}

/// Opcode: Force Interrupt
/// Push program counter and processor status into stack
pub fn brk<B: CpuBus>(cpu: &mut Olc6502<B>) -> (r: u8)
    requires
        old(cpu)@.wf(),
    ensures
        final(cpu)@.wf(),
        final(cpu)@ == old(cpu)@.brk_spec(),
        r == 0,
{
    cpu.write_counter_to_stack();
    cpu.write_to_stack(cpu.status_register | 0b00110000);
    cpu.set_flag(Flags6502::DisableInterrupts, true);
    cpu.program_counter = cpu.read_program_counter(INTERRUPT_PROGRAM_COUNTER_ADDRESS);
    0
}

/// Opcode: Clear Carry Flag
pub fn clc<B: CpuBus>(cpu: &mut Olc6502<B>) -> (r: u8)
    requires
        old(cpu)@.wf(),
    ensures
        final(cpu)@.wf(),
        final(cpu)@ == old(cpu)@.set_flag_spec(Flags6502::CarryBit, false),
        r == 0,
{
    cpu.set_flag(Flags6502::CarryBit, false);
    0
}

/// Opcode: Clear Decimal Mode
pub fn cld<B: CpuBus>(cpu: &mut Olc6502<B>) -> (r: u8)
    requires
        old(cpu)@.wf(),
    ensures
        final(cpu)@.wf(),
        final(cpu)@ == old(cpu)@.set_flag_spec(Flags6502::DecimalMode, false),
        r == 0,
{
    cpu.set_flag(Flags6502::DecimalMode, false);
    0
}

/// Opcode: Clear Interrupt Disable
pub fn cli<B: CpuBus>(cpu: &mut Olc6502<B>) -> (r: u8)
    requires
        old(cpu)@.wf(),
    ensures
        final(cpu)@.wf(),
        final(cpu)@ == old(cpu)@.set_flag_spec(Flags6502::DisableInterrupts, false),
        r == 0,
{
    cpu.set_flag(Flags6502::DisableInterrupts, false);
    0
}

/// Opcode: Clear Overflow Flag
pub fn clv<B: CpuBus>(cpu: &mut Olc6502<B>) -> (r: u8)
    requires
        old(cpu)@.wf(),
    ensures
        final(cpu)@.wf(),
        final(cpu)@ == old(cpu)@.set_flag_spec(Flags6502::Overflow, false),
        r == 0,
{
    cpu.set_flag(Flags6502::Overflow, false);
    0
}

/// Opcode: Set Carry Flag
pub fn sec<B: CpuBus>(cpu: &mut Olc6502<B>) -> (r: u8)
    requires
        old(cpu)@.wf(),
    ensures
        final(cpu)@.wf(),
        final(cpu)@ == old(cpu)@.set_flag_spec(Flags6502::CarryBit, true),
        r == 0,
{
    cpu.set_flag(Flags6502::CarryBit, true);
    0
}

/// Opcode: Set Decimal Flag
pub fn sed<B: CpuBus>(cpu: &mut Olc6502<B>) -> (r: u8)
    requires
        old(cpu)@.wf(),
    ensures
        final(cpu)@.wf(),
        final(cpu)@ == old(cpu)@.set_flag_spec(Flags6502::DecimalMode, true),
        r == 0,
{
    cpu.set_flag(Flags6502::DecimalMode, true);
    0
}

/// Opcode: Set Interrupt Disable
pub fn sei<B: CpuBus>(cpu: &mut Olc6502<B>) -> (r: u8)
    requires
        old(cpu)@.wf(),
    ensures
        final(cpu)@.wf(),
        final(cpu)@ == old(cpu)@.set_flag_spec(Flags6502::DisableInterrupts, true),
        r == 0,
{
    cpu.set_flag(Flags6502::DisableInterrupts, true);
    0
}

/// Opcode: Compare
pub fn cmp<B: CpuBus>(cpu: &mut Olc6502<B>) -> (r: u8)
    requires
        old(cpu)@.wf(),
    ensures
        final(cpu)@.wf(),
        final(cpu)@ == old(cpu)@.compare_spec(old(cpu).accumulator),
        r == 0,
{
    compare_register(cpu, cpu.accumulator);
    0
}

/// Opcode: Compare X Register
pub fn cpx<B: CpuBus>(cpu: &mut Olc6502<B>) -> (r: u8)
    requires
        old(cpu)@.wf(),
    ensures
        final(cpu)@.wf(),
        final(cpu)@ == old(cpu)@.compare_spec(old(cpu).x_register),
        r == 0,
{
    compare_register(cpu, cpu.x_register);
    0
}

/// Opcode: Compare Y Register
pub fn cpy<B: CpuBus>(cpu: &mut Olc6502<B>) -> (r: u8)
    requires
        old(cpu)@.wf(),
    ensures
        final(cpu)@.wf(),
        final(cpu)@ == old(cpu)@.compare_spec(old(cpu).y_register),
        r == 0,
{
    compare_register(cpu, cpu.y_register);
    0
}

/// Opcode: Decrement Memory
pub fn dec<B: CpuBus>(cpu: &mut Olc6502<B>) -> (r: u8)
    requires
        old(cpu)@.wf(),
    ensures
        final(cpu)@.wf(),
        final(cpu)@ == old(cpu)@.dec_spec(),
        r == 0,
{
    cpu.fetch();
    let result = cpu.fetched_data.wrapping_sub(1);
    cpu.write(cpu.addr_abs, result);
    cpu.set_flag(Flags6502::Zero, result == 0x00);
    cpu.set_flag(Flags6502::Negative, (result & 0x80) != 0);
    0
}

/// Opcode: Increment Memory
pub fn inc<B: CpuBus>(cpu: &mut Olc6502<B>) -> (r: u8)
    requires
        old(cpu)@.wf(),
    ensures
        final(cpu)@.wf(),
        final(cpu)@ == old(cpu)@.inc_spec(),
        r == 0,
{
    cpu.fetch();
    let result = cpu.fetched_data.wrapping_add(1);
    cpu.write(cpu.addr_abs, result);
    cpu.set_flag(Flags6502::Zero, result == 0x00);
    cpu.set_flag(Flags6502::Negative, (result & 0x80) != 0);
    0
}

/// Opcode: Decrement X Register
pub fn dex<B: CpuBus>(cpu: &mut Olc6502<B>) -> (r: u8)
    requires
        old(cpu)@.wf(),
    ensures
        final(cpu)@.wf(),
        final(cpu)@ == old(cpu)@.with_x(old(cpu).x_register.wrapping_sub(1)),
        r == 0,
{
    cpu.x_register = cpu.x_register.wrapping_sub(1);
    cpu.set_flag(Flags6502::Zero, cpu.x_register == 0x00);
    cpu.set_flag(Flags6502::Negative, (cpu.x_register & 0x80) != 0);
    0
}

/// Opcode: Decrement Y Register
pub fn dey<B: CpuBus>(cpu: &mut Olc6502<B>) -> (r: u8)
    requires
        old(cpu)@.wf(),
    ensures
        final(cpu)@.wf(),
        final(cpu)@ == old(cpu)@.with_y(old(cpu).y_register.wrapping_sub(1)),
        r == 0,
{
    cpu.y_register = cpu.y_register.wrapping_sub(1);
    cpu.set_flag(Flags6502::Zero, cpu.y_register == 0x00);
    cpu.set_flag(Flags6502::Negative, (cpu.y_register & 0x80) != 0);
    0
}

/// Opcode: Increment X Register
pub fn inx<B: CpuBus>(cpu: &mut Olc6502<B>) -> (r: u8)
    requires
        old(cpu)@.wf(),
    ensures
        final(cpu)@.wf(),
        final(cpu)@ == old(cpu)@.with_x(old(cpu).x_register.wrapping_add(1)),
        r == 0,
{
    cpu.x_register = cpu.x_register.wrapping_add(1);
    cpu.set_flag(Flags6502::Zero, cpu.x_register == 0x00);
    cpu.set_flag(Flags6502::Negative, (cpu.x_register & 0x80) != 0);
    0
}

/// Opcode: Increment Y Register
pub fn iny<B: CpuBus>(cpu: &mut Olc6502<B>) -> (r: u8)
    requires
        old(cpu)@.wf(),
    ensures
        final(cpu)@.wf(),
        final(cpu)@ == old(cpu)@.with_y(old(cpu).y_register.wrapping_add(1)),
        r == 0,
{
    cpu.y_register = cpu.y_register.wrapping_add(1);
    cpu.set_flag(Flags6502::Zero, cpu.y_register == 0x00);
    cpu.set_flag(Flags6502::Negative, (cpu.y_register & 0x80) != 0);
    0
}

/// Opcode: Exclusive OR
pub fn eor<B: CpuBus>(cpu: &mut Olc6502<B>) -> (r: u8)
    requires
        old(cpu)@.wf(),
    ensures
        final(cpu)@.wf(),
        final(cpu)@ == old(cpu)@.eor_spec(),
        r == 1,
{
    cpu.fetch();
    cpu.accumulator = cpu.accumulator ^ cpu.fetched_data;
    cpu.set_flag(Flags6502::Zero, cpu.accumulator == 0x00);
    cpu.set_flag(Flags6502::Negative, (cpu.accumulator & 0x80) != 0);
    1
}

/// Opcode: Jump
pub fn jmp<B: CpuBus>(cpu: &mut Olc6502<B>) -> (r: u8)
    requires
        old(cpu)@.wf(),
    ensures
        final(cpu)@.wf(),
        final(cpu)@ == (CpuView { program_counter: old(cpu).addr_abs, ..old(cpu)@ }),
        r == 0,
{
    cpu.program_counter = cpu.addr_abs;
    0
}

/// Opcode: Jump to Subroutine
pub fn jsr<B: CpuBus>(cpu: &mut Olc6502<B>) -> (r: u8)
    requires
        old(cpu)@.wf(),
    ensures
        final(cpu)@.wf(),
        final(cpu)@ == old(cpu)@.jsr_spec(),
        r == 0,
{
    cpu.program_counter = cpu.program_counter.wrapping_sub(1);
    cpu.write_counter_to_stack();
    cpu.program_counter = cpu.addr_abs;
    0
}

/// Opcode: Load Accumulator
pub fn lda<B: CpuBus>(cpu: &mut Olc6502<B>) -> (r: u8)
    requires
        old(cpu)@.wf(),
    ensures
        final(cpu)@.wf(),
        final(cpu)@ == old(cpu)@.lda_spec(),
        r == 0,
{
    cpu.fetch();
    cpu.accumulator = cpu.fetched_data;
    cpu.set_flag(Flags6502::Zero, cpu.accumulator == 0x00);
    cpu.set_flag(Flags6502::Negative, (cpu.accumulator & 0x80) != 0);
    0
}

/// Opcode: Load X Register
pub fn ldx<B: CpuBus>(cpu: &mut Olc6502<B>) -> (r: u8)
    requires
        old(cpu)@.wf(),
    ensures
        final(cpu)@.wf(),
        final(cpu)@ == old(cpu)@.ldx_spec(),
        r == 0,
{
    cpu.fetch();
    cpu.x_register = cpu.fetched_data;
    cpu.set_flag(Flags6502::Zero, cpu.x_register == 0x00);
    cpu.set_flag(Flags6502::Negative, (cpu.x_register & 0x80) != 0);
    0
}

/// Opcode: Load Y Register
pub fn ldy<B: CpuBus>(cpu: &mut Olc6502<B>) -> (r: u8)
    requires
        old(cpu)@.wf(),
    ensures
        final(cpu)@.wf(),
        final(cpu)@ == old(cpu)@.ldy_spec(),
        r == 0,
{
    cpu.fetch();
    cpu.y_register = cpu.fetched_data;
    cpu.set_flag(Flags6502::Zero, cpu.y_register == 0x00);
    cpu.set_flag(Flags6502::Negative, (cpu.y_register & 0x80) != 0);
    0
}

/// Opcode: Logical Shift Right
pub fn lsr<B: CpuBus>(cpu: &mut Olc6502<B>) -> (r: u8)
    requires
        old(cpu)@.wf(),
    ensures
        final(cpu)@.wf(),
        final(cpu)@ == old(cpu)@.lsr_spec(),
        r == 0,
{
    cpu.fetch();
    let shifted = cpu.fetched_data >> 1;
    cpu.set_flag(Flags6502::Zero, shifted == 0x00);
    cpu.set_flag(Flags6502::Negative, (shifted & 0x80) != 0);
    cpu.set_flag(Flags6502::CarryBit, (cpu.fetched_data & 0x01) != 0);
    store_result(cpu, shifted);
    0
}

/// Opcode: No Operation
pub fn nop<B: CpuBus>(cpu: &mut Olc6502<B>) -> (r: u8)
    requires
        old(cpu)@.wf(),
    ensures
        final(cpu)@.wf(),
        final(cpu)@ == old(cpu)@,
        r == old(cpu)@.nop_cycles(),
{
    match cpu.opcode {
        0x1C => 1,
        0x3C => 1,
        0x5C => 1,
        0x7C => 1,
        0xDC => 1,
        0xFC => 1,
        _ => 0,
    }
}

/// Opcode: Logical Inclusive OR
pub fn ora<B: CpuBus>(cpu: &mut Olc6502<B>) -> (r: u8)
    requires
        old(cpu)@.wf(),
    ensures
        final(cpu)@.wf(),
        final(cpu)@ == old(cpu)@.ora_spec(),
        r == 1,
{
    cpu.fetch();
    cpu.accumulator = cpu.accumulator | cpu.fetched_data;
    cpu.set_flag(Flags6502::Zero, cpu.accumulator == 0x00);
    cpu.set_flag(Flags6502::Negative, (cpu.accumulator & 0x80) != 0);
    1
}

/// Opcode: Push Accumulator
pub fn pha<B: CpuBus>(cpu: &mut Olc6502<B>) -> (r: u8)
    requires
        old(cpu)@.wf(),
    ensures
        final(cpu)@.wf(),
        final(cpu)@ == old(cpu)@.push_spec(old(cpu).accumulator),
        r == 0,
{
    cpu.write_to_stack(cpu.accumulator);
    0
}

/// Opcode: Push Processor Status
pub fn php<B: CpuBus>(cpu: &mut Olc6502<B>) -> (r: u8)
    requires
        old(cpu)@.wf(),
    ensures
        final(cpu)@.wf(),
        final(cpu)@ == old(cpu)@.push_spec(old(cpu).status_register | 0x10 | 0x20),
        r == 0,
{
    cpu.write_to_stack(cpu.status_register | Flags6502::Break.mask() | Flags6502::Unused.mask());
    0
}

/// Opcode: Pull Accumulator
pub fn pla<B: CpuBus>(cpu: &mut Olc6502<B>) -> (r: u8)
    requires
        old(cpu)@.wf(),
    ensures
        final(cpu)@.wf(),
        final(cpu)@ == old(cpu)@.pla_spec(),
        r == 0,
{
    cpu.accumulator = cpu.read_from_stack();
    cpu.set_flag(Flags6502::Zero, cpu.accumulator == 0x00);
    cpu.set_flag(Flags6502::Negative, (cpu.accumulator & 0x80) != 0);
    0
}

/// Opcode: Pull Processor Status
pub fn plp<B: CpuBus>(cpu: &mut Olc6502<B>) -> (r: u8)
    requires
        old(cpu)@.wf(),
    ensures
        final(cpu)@.wf(),
        final(cpu)@ == old(cpu)@.plp_spec(),
        r == 0,
{
    cpu.status_register = cpu.read_from_stack();
    0
}

/// Opcode: Rotate Left
pub fn rol<B: CpuBus>(cpu: &mut Olc6502<B>) -> (r: u8)
    requires
        old(cpu)@.wf(),
    ensures
        final(cpu)@.wf(),
        final(cpu)@ == old(cpu)@.rol_spec(),
        r == 0,
{
    cpu.fetch();
    let result = (cpu.fetched_data << 1) | cpu.get_flag(Flags6502::CarryBit);
    cpu.set_flag(Flags6502::CarryBit, (cpu.fetched_data & 0b10000000) != 0);
    cpu.set_flag(Flags6502::Zero, result == 0x00);
    cpu.set_flag(Flags6502::Negative, (result & 0x80) != 0);
    store_result(cpu, result);
    0
}

/// Opcode: Rotate Right
pub fn ror<B: CpuBus>(cpu: &mut Olc6502<B>) -> (r: u8)
    requires
        old(cpu)@.wf(),
    ensures
        final(cpu)@.wf(),
        final(cpu)@ == old(cpu)@.ror_spec(),
        r == 0,
{
    cpu.fetch();
    let result = (cpu.get_flag(Flags6502::CarryBit) << 7) | (cpu.fetched_data >> 1);
    cpu.set_flag(Flags6502::CarryBit, (cpu.fetched_data & 0b00000001) != 0);
    cpu.set_flag(Flags6502::Zero, result == 0x00);
    cpu.set_flag(Flags6502::Negative, (result & 0x80) != 0);
    store_result(cpu, result);
    0
}

/// Opcode: Return from Interrupt
pub fn rti<B: CpuBus>(cpu: &mut Olc6502<B>) -> (r: u8)
    requires
        old(cpu)@.wf(),
    ensures
        final(cpu)@.wf(),
        final(cpu)@ == old(cpu)@.rti_spec(),
        r == 0,
{
    plp(cpu);
    cpu.program_counter = cpu.read_counter_from_stack();
    0
}

/// Opcode: Return from Subroutine
pub fn rts<B: CpuBus>(cpu: &mut Olc6502<B>) -> (r: u8)
    requires
        old(cpu)@.wf(),
    ensures
        final(cpu)@.wf(),
        final(cpu)@ == old(cpu)@.rts_spec(),
        r == 0,
{
    cpu.program_counter = cpu.read_counter_from_stack();
    cpu.program_counter = cpu.program_counter.wrapping_add(1);
    0
}

/// Opcode: Subtract with Carry
pub fn sbc<B: CpuBus>(cpu: &mut Olc6502<B>) -> (r: u8)
    requires
        old(cpu)@.wf(),
    ensures
        final(cpu)@.wf(),
        final(cpu)@ == old(cpu)@.sbc_spec(),
        r == 1,
{
    cpu.fetch();
    let a = cpu.accumulator;
    let m = cpu.fetched_data;
    let borrow = 1 - cpu.get_flag(Flags6502::CarryBit);
    // Subtract in u16 space so we can see the wrap below zero
    let difference = (m as u16).wrapping_sub(a as u16).wrapping_sub(borrow as u16);
    let result = (difference & 0xFF) as u8;
    assert(result == ((m - a - borrow + 256) % 256) as u8 && (difference > 0xFF) == (m - a - borrow < 0))
        by (bit_vector)
        requires
            difference == (m as u16).wrapping_sub(a as u16).wrapping_sub(borrow as u16),
            result == (difference & 0xFF) as u8,
            borrow <= 1;
    let overflow = (m ^ a) & 0x80 != 0 && (m ^ result) & 0x80 != 0;
    cpu.set_flag(Flags6502::CarryBit, difference <= 0xFF);
    cpu.set_flag(Flags6502::Zero, result == 0);
    cpu.set_flag(Flags6502::Negative, (result & 0x80) != 0);
    cpu.set_flag(Flags6502::Overflow, overflow);
    cpu.accumulator = result;
    1
}

/// Opcode: Store Accumulator
pub fn sta<B: CpuBus>(cpu: &mut Olc6502<B>) -> (r: u8)
    requires
        old(cpu)@.wf(),
    ensures
        final(cpu)@.wf(),
        final(cpu)@ == old(cpu)@.write_spec(old(cpu).addr_abs, old(cpu).accumulator),
        r == 0,
{
    cpu.write(cpu.addr_abs, cpu.accumulator);
    0
}

/// Opcode: Store X Register
pub fn stx<B: CpuBus>(cpu: &mut Olc6502<B>) -> (r: u8)
    requires
        old(cpu)@.wf(),
    ensures
        final(cpu)@.wf(),
        final(cpu)@ == old(cpu)@.write_spec(old(cpu).addr_abs, old(cpu).x_register),
        r == 0,
{
    cpu.write(cpu.addr_abs, cpu.x_register);
    0
}

/// Opcode: Store Y Register
pub fn sty<B: CpuBus>(cpu: &mut Olc6502<B>) -> (r: u8)
    requires
        old(cpu)@.wf(),
    ensures
        final(cpu)@.wf(),
        final(cpu)@ == old(cpu)@.write_spec(old(cpu).addr_abs, old(cpu).y_register),
        r == 0,
{
    cpu.write(cpu.addr_abs, cpu.y_register);
    0
}

/// Opcode: Transfer Accumulator to X
pub fn tax<B: CpuBus>(cpu: &mut Olc6502<B>) -> (r: u8)
    requires
        old(cpu)@.wf(),
    ensures
        final(cpu)@.wf(),
        final(cpu)@ == old(cpu)@.with_x(old(cpu).accumulator),
        r == 0,
{
    cpu.x_register = cpu.accumulator;
    cpu.set_flag(Flags6502::Zero, cpu.x_register == 0x00);
    cpu.set_flag(Flags6502::Negative, (cpu.x_register & 0x80) != 0);
    0
}

/// Opcode: Transfer Accumulator to Y
pub fn tay<B: CpuBus>(cpu: &mut Olc6502<B>) -> (r: u8)
    requires
        old(cpu)@.wf(),
    ensures
        final(cpu)@.wf(),
        final(cpu)@ == old(cpu)@.with_y(old(cpu).accumulator),
        r == 0,
{
    cpu.y_register = cpu.accumulator;
    cpu.set_flag(Flags6502::Zero, cpu.y_register == 0x00);
    cpu.set_flag(Flags6502::Negative, (cpu.y_register & 0x80) != 0);
    0
}

/// Opcode: Transfer Stack Pointer to X
pub fn tsx<B: CpuBus>(cpu: &mut Olc6502<B>) -> (r: u8)
    requires
        old(cpu)@.wf(),
    ensures
        final(cpu)@.wf(),
        final(cpu)@ == old(cpu)@.with_x(old(cpu).stack_pointer),
        r == 0,
{
    cpu.x_register = cpu.stack_pointer;
    cpu.set_flag(Flags6502::Zero, cpu.x_register == 0x00);
    cpu.set_flag(Flags6502::Negative, (cpu.x_register & 0x80) != 0);
    0
}

/// Opcode: Transfer X to Accumulator
pub fn txa<B: CpuBus>(cpu: &mut Olc6502<B>) -> (r: u8)
    requires
        old(cpu)@.wf(),
    ensures
        final(cpu)@.wf(),
        final(cpu)@ == old(cpu)@.with_accumulator(old(cpu).x_register),
        r == 0,
{
    cpu.accumulator = cpu.x_register;
    cpu.set_flag(Flags6502::Zero, cpu.accumulator == 0x00);
    cpu.set_flag(Flags6502::Negative, (cpu.accumulator & 0x80) != 0);
    0
}

/// Opcode: Transfer Y to Accumulator
pub fn tya<B: CpuBus>(cpu: &mut Olc6502<B>) -> (r: u8)
    requires
        old(cpu)@.wf(),
    ensures
        final(cpu)@.wf(),
        final(cpu)@ == old(cpu)@.with_accumulator(old(cpu).y_register),
        r == 0,
{
    cpu.accumulator = cpu.y_register;
    cpu.set_flag(Flags6502::Zero, cpu.accumulator == 0x00);
    cpu.set_flag(Flags6502::Negative, (cpu.accumulator & 0x80) != 0);
    0
}

/// Opcode: Transfer X to Stack Pointer
pub fn txs<B: CpuBus>(cpu: &mut Olc6502<B>) -> (r: u8)
    requires
        old(cpu)@.wf(),
    ensures
        final(cpu)@.wf(),
        final(cpu)@ == (CpuView { stack_pointer: old(cpu).x_register, ..old(cpu)@ }),
        r == 0,
{
    cpu.stack_pointer = cpu.x_register;
    0
}

/// Set the flags from comparing `register` with the operand.
fn compare_register<B: CpuBus>(cpu: &mut Olc6502<B>, register: u8)
    requires
        old(cpu)@.wf(),
    ensures
        final(cpu)@.wf(),
        final(cpu)@ == old(cpu)@.compare_spec(register),
{
    cpu.fetch();
    let m = cpu.fetched_data;
    let result = (register as u16).wrapping_sub(m as u16);
    assert(((result & 0x80) != 0) == (register.wrapping_sub(m) & 0x80 != 0)) by (bit_vector)
        requires
            result == (register as u16).wrapping_sub(m as u16);
    cpu.set_flag(Flags6502::CarryBit, register >= m);
    cpu.set_flag(Flags6502::Zero, register == m);
    cpu.set_flag(Flags6502::Negative, (result & 0x80) != 0);
}

/// Store a shift or rotate result: in the accumulator for implied addressing, in memory otherwise.
fn store_result<B: CpuBus>(cpu: &mut Olc6502<B>, result: u8)
    requires
        old(cpu)@.wf(),
    ensures
        final(cpu)@.wf(),
        final(cpu)@ == old(cpu)@.store_result_spec(result),
{
    match get_address_mode(cpu.opcode) {
        AddressMode::Imp => cpu.accumulator = result,
        _ => cpu.write(cpu.addr_abs, result),
    }
}

fn branch_if_set<B: CpuBus>(cpu: &mut Olc6502<B>, flag: Flags6502)
    requires
        old(cpu)@.wf(),
    ensures
        final(cpu)@.wf(),
        final(cpu)@ == old(cpu)@.branch_spec(flag, 1),
{
    branch_if_flag_equal(cpu, flag, 1);
}

fn branch_if_clear<B: CpuBus>(cpu: &mut Olc6502<B>, flag: Flags6502)
    requires
        old(cpu)@.wf(),
    ensures
        final(cpu)@.wf(),
        final(cpu)@ == old(cpu)@.branch_spec(flag, 0),
{
    branch_if_flag_equal(cpu, flag, 0);
}

fn branch_if_flag_equal<B: CpuBus>(cpu: &mut Olc6502<B>, flag: Flags6502, value: u8)
    requires
        old(cpu)@.wf(),
    ensures
        final(cpu)@.wf(),
        final(cpu)@ == old(cpu)@.branch_spec(flag, value),
{
    if cpu.get_flag(flag) != value {
        return;
    }
    cpu.addr_abs = cpu.program_counter.wrapping_add(cpu.addr_rel);
    cpu.cycles = cpu.cycles.wrapping_add(1);
    // If the addition caused paging, add another cycle
    if (cpu.addr_abs & 0xFF00) != (cpu.program_counter & 0xFF00) {
        cpu.cycles = cpu.cycles.wrapping_add(1);
    }
    cpu.program_counter = cpu.addr_abs;
}

} // verus!
