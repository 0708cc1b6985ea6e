use vstd::prelude::*;
use super::opcodes::{add_status, sub_status, sbc_difference};
use super::{CpuBus, CpuView, Flags6502, INTERRUPT_PROGRAM_COUNTER_ADDRESS, STACK_BASE_LOCATION, flag_mask, with_flag};
use super::opcode_table::{Operation, instruction, lemma_cycles_bounded};
use super::instruction_cycle::{lemma_mode_keeps_cycles, lemma_operation_cycles};

verus! {

proof fn lemma_stack_bits(x: u16, sp: u8)
    by (bit_vector)
    ensures
        (((((x >> 8u16) & 0xFF) as u8) as u16) << 8u16) | (((x & 0xFF) as u8) as u16) == x,
        ((0x0100u16 + sp) as u16) & 0x07FF == 0x0100u16 + sp,
        (0x0100u16 + sp) as u16 <= 0x1FFF,
{
}

proof fn lemma_complement_arithmetic(a: u8, m: u8, c: u8)
    by (bit_vector)
    requires
        c <= 1,
    ensures
        ((m - a - (1 - c) + 256) % 256) as u8 == ((m + !a + c) % 256) as u8,
        (m - a - (1 - c) >= 0) == (m + !a + c > 0xFF),
        ((m ^ a) & 0x80 != 0) == ((m ^ !a) & 0x80 == 0),
{
}

proof fn lemma_single_bits(status: u8, m1: u8, m2: u8)
    by (bit_vector)
    requires
        m1 == 1 || m1 == 2 || m1 == 4 || m1 == 8 || m1 == 16 || m1 == 32 || m1 == 64 || m1 == 128,
        m2 == 1 || m2 == 2 || m2 == 4 || m2 == 8 || m2 == 16 || m2 == 32 || m2 == 64 || m2 == 128,
    ensures
        (status | m1) & m1 != 0,
        (status & !m1) & m1 == 0,
        m1 != m2 ==> (status | m1) & m2 == status & m2,
        m1 != m2 ==> (status & !m1) & m2 == status & m2,
{
}

/// The value of a byte read as a two's complement number.
pub open spec fn signed(x: u8) -> int {
    if x >= 128 {
        x - 256
    } else {
        x as int
    }
}

proof fn lemma_overflow_bits(a: u8, m: u8, c: u8)
    by (bit_vector)
    requires
        c <= 1,
    ensures
        ({
            let r = ((a + m + c) % 256) as u8;
            let sa: int = if a >= 128 { a - 256 } else { a as int };
            let sm: int = if m >= 128 { m - 256 } else { m as int };
            ((a ^ m) & 0x80 == 0 && (a ^ r) & 0x80 != 0) == (sa + sm + c < -128 || sa + sm + c > 127)
        }),
{
}

/// ADC's overflow flag is signed overflow: "adding two positive numbers and getting a
/// negative, or two negative and getting a positive" is exactly the case where the signed
/// sum leaves -128..127.
pub proof fn lemma_adc_overflow_is_signed_overflow(a: u8, m: u8, c: u8)
    requires
        c <= 1,
    ensures
        ({
            let r = ((a + m + c) % 256) as u8;
            ((a ^ m) & 0x80 == 0 && (a ^ r) & 0x80 != 0) == (signed(a) + signed(m) + c < -128 || signed(a) + signed(m) + c > 127)
        }),
{
    lemma_overflow_bits(a, m, c);
}

/// SBC is ADC with the accumulator complemented: it forms operand minus accumulator minus
/// the borrow, and sets the same result and flags as ADC of the operand and `!a`, the carry
/// standing for "no borrow".
pub proof fn lemma_sbc_is_adc_of_complement(status: u8, a: u8, m: u8, c: u8)
    requires
        c <= 1,
    ensures
        sub_status(status, a, m, c) == add_status(status, m, !a, c),
        ((sbc_difference(a, m, c) + 256) % 256) as u8 == ((m + !a + c) % 256) as u8,
{
    lemma_complement_arithmetic(a, m, c);
}

/// Setting a flag makes it read back as set (1) or clear (0) and leaves every other flag
/// as it was.
pub proof fn lemma_set_flag_reads_back<B: CpuBus>(s: CpuView<B>, f: Flags6502, g: Flags6502, value: bool)
    ensures
        s.set_flag_spec(f, value).flag(f) == (if value { 1u8 } else { 0u8 }),
        f != g ==> s.set_flag_spec(f, value).flag(g) == s.flag(g),
{
    lemma_single_bits(s.status_register, flag_mask(f), flag_mask(g));
}

proof fn lemma_difference_sign(r: u8, m: u8)
    by (bit_vector)
    ensures
        (r.wrapping_sub(m) & 0x80 != 0) == ((r - m + 256) % 256 >= 128),
{
}

/// CMP, CPX and CPY compare a register with the operand as unsigned bytes: afterwards the
/// carry flag is set exactly when the register is at least the operand, the zero flag
/// exactly when the two are equal, and the negative flag is bit 7 of register minus
/// operand (modulo 256). The other flags, the registers and the program counter are left
/// as fetching the operand left them.
pub proof fn lemma_compare_flags<B: CpuBus>(s: CpuView<B>, register: u8)
    ensures
        ({
            let f = s.fetch_spec();
            let m = f.fetched_data;
            let t = s.compare_spec(register);
            &&& t.flag(Flags6502::CarryBit) == (if register >= m { 1u8 } else { 0u8 })
            &&& t.flag(Flags6502::Zero) == (if register == m { 1u8 } else { 0u8 })
            &&& t.flag(Flags6502::Negative) == (if (register - m + 256) % 256 >= 128 { 1u8 } else { 0u8 })
            &&& forall|g: Flags6502|
                g != Flags6502::CarryBit && g != Flags6502::Zero && g != Flags6502::Negative ==> #[trigger] t.flag(g) == f.flag(g)
            &&& t == (CpuView { status_register: t.status_register, ..f })
        }),
{
    let f = s.fetch_spec();
    let m = f.fetched_data;
    let u1 = f.set_flag_spec(Flags6502::CarryBit, register >= m);
    let u2 = u1.set_flag_spec(Flags6502::Zero, register == m);
    let u3 = u2.set_flag_spec(Flags6502::Negative, register.wrapping_sub(m) & 0x80 != 0);
    assert(s.compare_spec(register) == u3);
    lemma_difference_sign(register, m);
    lemma_set_flag_reads_back(f, Flags6502::CarryBit, Flags6502::Zero, register >= m);
    lemma_set_flag_reads_back(u1, Flags6502::Zero, Flags6502::CarryBit, register == m);
    lemma_set_flag_reads_back(u2, Flags6502::Negative, Flags6502::CarryBit, register.wrapping_sub(m) & 0x80 != 0);
    lemma_set_flag_reads_back(u2, Flags6502::Negative, Flags6502::Zero, register.wrapping_sub(m) & 0x80 != 0);
    lemma_set_flag_reads_back(f, Flags6502::CarryBit, Flags6502::Negative, register >= m);
    lemma_set_flag_reads_back(u1, Flags6502::Zero, Flags6502::Negative, register == m);
    assert forall|g: Flags6502|
        g != Flags6502::CarryBit && g != Flags6502::Zero && g != Flags6502::Negative implies #[trigger] u3.flag(g) == f.flag(g) by {
        lemma_set_flag_reads_back(f, Flags6502::CarryBit, g, register >= m);
        lemma_set_flag_reads_back(u1, Flags6502::Zero, g, register == m);
        lemma_set_flag_reads_back(u2, Flags6502::Negative, g, register.wrapping_sub(m) & 0x80 != 0);
    }
}

/// A maskable interrupt request is ignored while interrupts are disabled.
pub proof fn lemma_interrupt_request_masked<B: CpuBus>(s: CpuView<B>)
    requires
        s.flag(Flags6502::DisableInterrupts) == 1,
    ensures
        s.interrupt_request_spec() == s,
{
}

/// The stack slot that stack pointer `sp` names lies in page one, and distinct stack
/// pointers name distinct slots.
proof fn lemma_stack_slots(sp: u8, other: u8)
    ensures
        0x0100 <= (STACK_BASE_LOCATION + sp) as u16 <= 0x01FF,
        sp != other ==> (STACK_BASE_LOCATION + sp) as u16 != (STACK_BASE_LOCATION + other) as u16,
{
}

/// The stack is last in, first out: a pull after a push gives back the pushed byte and the
/// stack pointer where it was, and the pull itself changes nothing else. This holds on any
/// bus whose stack page is plain memory.
pub proof fn lemma_push_then_pull<B: CpuBus>(s: CpuView<B>, data: u8)
    requires
        s.wf(),
    ensures
        s.push_spec(data).pull_spec() == (s.write_spec((STACK_BASE_LOCATION + s.stack_pointer) as u16, data), data),
{
    let address = (STACK_BASE_LOCATION + s.stack_pointer) as u16;
    lemma_stack_slots(s.stack_pointer, s.stack_pointer);
    B::lemma_stack_page(s.bus, address, address, data);
    B::lemma_stack_page(B::write_spec(s.bus, address, data), address, address, data);
}

/// PLA undoes PHA: the accumulator comes back, and the stack pointer with it.
pub proof fn lemma_pha_then_pla<B: CpuBus>(s: CpuView<B>)
    requires
        s.wf(),
    ensures
        s.push_spec(s.accumulator).pla_spec().accumulator == s.accumulator,
        s.push_spec(s.accumulator).pla_spec().stack_pointer == s.stack_pointer,
{
    lemma_push_then_pull(s, s.accumulator);
}

/// RTS returns from JSR: the program counter comes back to where it was before the jump
/// (just past the JSR's operand), and the stack pointer with it.
pub proof fn lemma_jsr_then_rts<B: CpuBus>(s: CpuView<B>)
    requires
        s.wf(),
    ensures
        s.jsr_spec().rts_spec().program_counter == s.program_counter,
        s.jsr_spec().rts_spec().stack_pointer == s.stack_pointer,
{
    let pc = s.program_counter.wrapping_sub(1);
    let sp = s.stack_pointer;
    let sp1 = sp.wrapping_sub(1);
    let high = ((pc >> 8u16) & 0xFF) as u8;
    let low = (pc & 0xFF) as u8;
    let a_high = (STACK_BASE_LOCATION + sp) as u16;
    let a_low = (STACK_BASE_LOCATION + sp1) as u16;
    lemma_stack_bits(pc, sp);
    lemma_stack_slots(sp, sp1);
    lemma_stack_slots(sp1, sp);
    let b0 = s.bus;
    let b1 = B::write_spec(b0, a_high, high);
    let b2 = B::write_spec(b1, a_low, low);
    B::lemma_stack_page(b0, a_high, a_high, high);
    B::lemma_stack_page(b1, a_low, a_low, low);
    B::lemma_stack_page(b1, a_low, a_high, low);
    B::lemma_stack_page(b2, a_low, a_low, 0);
    B::lemma_stack_page(b2, a_high, a_high, 0);
}

/// RTI returns from BRK: the program counter comes back to the one BRK pushed, the status
/// comes back with the break and unused bits set, and the stack pointer is restored.
pub proof fn lemma_brk_then_rti<B: CpuBus>(s: CpuView<B>)
    requires
        s.wf(),
    ensures
        s.brk_spec().rti_spec().program_counter == s.program_counter,
        s.brk_spec().rti_spec().status_register == s.status_register | 0b0011_0000,
        s.brk_spec().rti_spec().stack_pointer == s.stack_pointer,
{
    let pc = s.program_counter;
    let sp = s.stack_pointer;
    let sp1 = sp.wrapping_sub(1);
    let sp2 = sp1.wrapping_sub(1);
    let high = ((pc >> 8u16) & 0xFF) as u8;
    let low = (pc & 0xFF) as u8;
    let status = s.status_register | 0b0011_0000;
    let a_high = (STACK_BASE_LOCATION + sp) as u16;
    let a_low = (STACK_BASE_LOCATION + sp1) as u16;
    let a_status = (STACK_BASE_LOCATION + sp2) as u16;
    lemma_stack_bits(pc, sp);
    lemma_stack_slots(sp, sp1);
    lemma_stack_slots(sp1, sp2);
    lemma_stack_slots(sp2, sp);
    let b0 = s.bus;
    let b1 = B::write_spec(b0, a_high, high);
    let b2 = B::write_spec(b1, a_low, low);
    let b3 = B::write_spec(b2, a_status, status);
    B::lemma_stack_page(b0, a_high, a_high, high);
    B::lemma_stack_page(b1, a_low, a_low, low);
    B::lemma_stack_page(b1, a_low, a_high, low);
    B::lemma_stack_page(b2, a_status, a_status, status);
    B::lemma_stack_page(b2, a_status, a_low, status);
    B::lemma_stack_page(b2, a_status, a_high, status);
    B::lemma_vector_read(b3, INTERRUPT_PROGRAM_COUNTER_ADDRESS);
    B::lemma_vector_read(b3, INTERRUPT_PROGRAM_COUNTER_ADDRESS.wrapping_add(1));
    assert(s.brk_spec().bus == b3);
    B::lemma_stack_page(b3, a_status, a_status, 0);
    B::lemma_stack_page(b3, a_low, a_low, 0);
    B::lemma_stack_page(b3, a_high, a_high, 0);
}

/// RTI returns from an interrupt: the program counter comes back to the interrupted one,
/// the stack pointer is restored, and the status comes back as it was pushed (break clear,
/// unused and interrupt-disable set).
pub proof fn lemma_interrupt_then_rti<B: CpuBus>(s: CpuView<B>, vector: u16, cycles: u8)
    requires
        s.wf(),
        0x4018 <= vector < 0xFFFF,
    ensures
        s.interrupt_spec(vector, cycles).rti_spec().program_counter == s.program_counter,
        s.interrupt_spec(vector, cycles).rti_spec().status_register == with_flag(
            with_flag(with_flag(s.status_register, Flags6502::Break, false), Flags6502::Unused, true),
            Flags6502::DisableInterrupts,
            true,
        ),
        s.interrupt_spec(vector, cycles).rti_spec().stack_pointer == s.stack_pointer,
{
    let pc = s.program_counter;
    let sp = s.stack_pointer;
    let sp1 = sp.wrapping_sub(1);
    let sp2 = sp1.wrapping_sub(1);
    let high = ((pc >> 8u16) & 0xFF) as u8;
    let low = (pc & 0xFF) as u8;
    let status = with_flag(
        with_flag(with_flag(s.status_register, Flags6502::Break, false), Flags6502::Unused, true),
        Flags6502::DisableInterrupts,
        true,
    );
    let a_high = (STACK_BASE_LOCATION + sp) as u16;
    let a_low = (STACK_BASE_LOCATION + sp1) as u16;
    let a_status = (STACK_BASE_LOCATION + sp2) as u16;
    lemma_stack_bits(pc, sp);
    lemma_stack_slots(sp, sp1);
    lemma_stack_slots(sp1, sp2);
    lemma_stack_slots(sp2, sp);
    let b0 = s.bus;
    let b1 = B::write_spec(b0, a_high, high);
    let b2 = B::write_spec(b1, a_low, low);
    let b3 = B::write_spec(b2, a_status, status);
    B::lemma_stack_page(b0, a_high, a_high, high);
    B::lemma_stack_page(b1, a_low, a_low, low);
    B::lemma_stack_page(b1, a_low, a_high, low);
    B::lemma_stack_page(b2, a_status, a_status, status);
    B::lemma_stack_page(b2, a_status, a_low, status);
    B::lemma_stack_page(b2, a_status, a_high, status);
    B::lemma_vector_read(b3, vector);
    B::lemma_vector_read(b3, vector.wrapping_add(1));
    assert(s.interrupt_spec(vector, cycles).bus == b3);
    B::lemma_stack_page(b3, a_status, a_status, 0);
    B::lemma_stack_page(b3, a_low, a_low, 0);
    B::lemma_stack_page(b3, a_high, a_high, 0);
}

/// An instruction, once fetched, keeps the CPU busy for between one and nine further
/// cycles; while one is in flight a clock only counts down.
#[verifier::rlimit(40)]
pub proof fn lemma_clock_cycles<B: CpuBus>(s: CpuView<B>)
    ensures
        s.cycles != 0 ==> s.clock_spec() == (CpuView { cycles: (s.cycles - 1) as u8, ..s }, Ok::<(), u8>(())),
        s.cycles == 0 && s.clock_spec().1 is Ok ==> 1 <= s.clock_spec().0.cycles <= 9,
{
    if s.cycles == 0 {
        let (s1, opcode) = s.read_spec(s.program_counter);
        let ins = instruction(opcode);
        let s2 = CpuView { opcode, program_counter: s1.program_counter.wrapping_add(1), ..s1 };
        if ins.operation != Operation::Stp {
            lemma_cycles_bounded(opcode);
            let s3 = CpuView { cycles: ins.cycles, ..s2 };
            let (s4, extra_mode) = s3.mode_spec(ins.mode);
            lemma_mode_keeps_cycles(s3, ins.mode);
            let (s5, extra_operation) = s4.operation_spec(ins.operation);
            lemma_operation_cycles(s4, ins.operation);
            assert(extra_mode & extra_operation <= 1) by (bit_vector)
                requires
                    extra_mode <= 1;
            assert(s.clock_spec() == (CpuView { cycles: (s5.cycles + (extra_mode & extra_operation) - 1) as u8, ..s5 }, Ok::<(), u8>(())));
            assert(s5.cycles + (extra_mode & extra_operation) <= 10) by {
                reveal(CpuView::operation_spec);
            }
        }
    }
}

} // verus!
