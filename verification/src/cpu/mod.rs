pub mod address_modes;
pub mod instruction_cycle;
pub mod laws;
pub mod opcode_table;
pub mod opcodes;
pub mod unofficial_opcodes;

use vstd::prelude::*;
use opcode_table::{AddressMode, address_mode_of};

verus! {

pub const NON_MASK_INTERRUPT_PROGRAM_COUNTER_ADDRESS: u16 = 0xFFFA;
pub const RESET_PROGRAM_COUNTER_ADDRESS: u16 = 0xFFFC;
pub const INTERRUPT_PROGRAM_COUNTER_ADDRESS: u16 = 0xFFFE;
pub const STACK_BASE_LOCATION: u16 = 0x0100;
pub const STACK_END_LOCATION: u8 = 0xFD;

/// What the CPU sees of the system bus: reads (which may have side effects)
/// and writes, each described exactly by a spec function over the bus's view.
pub trait CpuBus: View + Sized {
    /// Well-formedness of the bus state, kept by every access.
    spec fn bus_wf(v: Self::V) -> bool;

    /// The bus after a read of `address`, and the byte read.
    spec fn read_spec(v: Self::V, address: u16) -> (Self::V, u8);

    /// The bus after `data` is written to `address`.
    spec fn write_spec(v: Self::V, address: u16, data: u8) -> Self::V;

    /// The stack page $0100-$01FF is plain memory: a read there changes nothing, and after a
    /// write there the written cell reads back the byte while the other cells of the page
    /// read as before.
    proof fn lemma_stack_page(v: Self::V, a: u16, b: u16, data: u8)
        requires
            Self::bus_wf(v),
            0x0100 <= a <= 0x01FF,
            0x0100 <= b <= 0x01FF,
        ensures
            Self::bus_wf(Self::write_spec(v, a, data)),
            Self::read_spec(v, b).0 == v,
            Self::read_spec(Self::write_spec(v, a, data), b).1 == (if a == b { data } else { Self::read_spec(v, b).1 }),
    ;

    /// Reads from $4018 up, where the interrupt vectors are, change nothing.
    proof fn lemma_vector_read(v: Self::V, address: u16)
        requires
            Self::bus_wf(v),
            address >= 0x4018,
        ensures
            Self::read_spec(v, address).0 == v,
    ;

    fn read(&mut self, address: u16) -> (r: u8)
        requires
            Self::bus_wf(old(self)@),
        ensures
            Self::bus_wf(final(self)@),
            (final(self)@, r) == Self::read_spec(old(self)@, address),
    ;

    fn write(&mut self, address: u16, data: u8)
        requires
            Self::bus_wf(old(self)@),
        ensures
            Self::bus_wf(final(self)@),
            final(self)@ == Self::write_spec(old(self)@, address, data),
    ;
}

/// The bits of the 6502 status register.
#[derive(Clone, Copy, PartialEq, Eq, Structural, Debug)]
pub enum Flags6502 {
    CarryBit,
    Zero,
    DisableInterrupts,
    DecimalMode,
    Break,
    Unused,
    Overflow,
    Negative,
}

pub open spec fn flag_mask(flag: Flags6502) -> u8 {
    match flag {
        Flags6502::CarryBit => 0x01,
        Flags6502::Zero => 0x02,
        Flags6502::DisableInterrupts => 0x04,
        Flags6502::DecimalMode => 0x08,
        Flags6502::Break => 0x10,
        Flags6502::Unused => 0x20,
        Flags6502::Overflow => 0x40,
        Flags6502::Negative => 0x80,
    }
}

impl Flags6502 {
    /// The bit of the status register that holds this flag.
    pub fn mask(self) -> (r: u8)
        ensures
            r == flag_mask(self),
    {
        match self {
            Flags6502::CarryBit => 0x01,
            Flags6502::Zero => 0x02,
            Flags6502::DisableInterrupts => 0x04,
            Flags6502::DecimalMode => 0x08,
            Flags6502::Break => 0x10,
            Flags6502::Unused => 0x20,
            Flags6502::Overflow => 0x40,
            Flags6502::Negative => 0x80,
        }
    }
}

/// `status` with `flag` set to `value`.
pub open spec fn with_flag(status: u8, flag: Flags6502, value: bool) -> u8 {
    if value {
        status | flag_mask(flag)
    } else {
        status & !flag_mask(flag)
    }
}

/// `status` with the zero and negative flags describing `value`.
pub open spec fn with_zn(status: u8, value: u8) -> u8 {
    with_flag(with_flag(status, Flags6502::Zero, value == 0), Flags6502::Negative, value & 0x80 != 0)
}

/// The 6502 CPU: its registers, the working state of the instruction in flight,
/// and the bus it is wired to.
pub struct Olc6502<B> {
    pub accumulator: u8,
    pub x_register: u8,
    pub y_register: u8,
    pub stack_pointer: u8,
    pub program_counter: u16,
    pub status_register: u8,
    pub fetched_data: u8,
    pub addr_abs: u16,
    pub addr_rel: u16,
    pub opcode: u8,
    pub cycles: u8,
    pub bus: B,
}

/// The abstract state of the CPU: its registers and the view of its bus.
pub struct CpuView<B: CpuBus> {
    pub accumulator: u8,
    pub x_register: u8,
    pub y_register: u8,
    pub stack_pointer: u8,
    pub program_counter: u16,
    pub status_register: u8,
    pub fetched_data: u8,
    pub addr_abs: u16,
    pub addr_rel: u16,
    pub opcode: u8,
    pub cycles: u8,
    pub bus: <B as View>::V,
}

impl<B: CpuBus> View for Olc6502<B> {
    type V = CpuView<B>;

    open spec fn view(&self) -> CpuView<B> {
        CpuView {
            accumulator: self.accumulator,
            x_register: self.x_register,
            y_register: self.y_register,
            stack_pointer: self.stack_pointer,
            program_counter: self.program_counter,
            status_register: self.status_register,
            fetched_data: self.fetched_data,
            addr_abs: self.addr_abs,
            addr_rel: self.addr_rel,
            opcode: self.opcode,
            cycles: self.cycles,
            bus: self.bus@,
        }
    }
}

impl<B: CpuBus> CpuView<B> {
    pub open spec fn wf(self) -> bool {
        B::bus_wf(self.bus)
    }

    /// 1 when `flag` is set, 0 otherwise.
    pub open spec fn flag(self, flag: Flags6502) -> u8 {
        if self.status_register & flag_mask(flag) != 0 {
            1
        } else {
            0
        }
    }

    pub open spec fn set_flag_spec(self, flag: Flags6502, value: bool) -> Self {
        CpuView { status_register: with_flag(self.status_register, flag, value), ..self }
    }

    /// The CPU after a bus read of `address`, and the byte read.
    pub open spec fn read_spec(self, address: u16) -> (Self, u8) {
        let (bus, data) = B::read_spec(self.bus, address);
        (CpuView { bus, ..self }, data)
    }

    pub open spec fn write_spec(self, address: u16, data: u8) -> Self {
        CpuView { bus: B::write_spec(self.bus, address, data), ..self }
    }

    /// The operand of the instruction in flight: the byte at `addr_abs`,
    /// or, for implied addressing, what the addressing mode left in `fetched_data`.
    pub open spec fn fetch_spec(self) -> Self {
        if address_mode_of(self.opcode) == AddressMode::Imp {
            self
        } else {
            let (s, data) = self.read_spec(self.addr_abs);
            CpuView { fetched_data: data, ..s }
        }
    }

    /// Pull: increment the stack pointer, then read the stack slot it names.
    pub open spec fn pull_spec(self) -> (Self, u8) {
        let sp = self.stack_pointer.wrapping_add(1);
        CpuView { stack_pointer: sp, ..self }.read_spec((STACK_BASE_LOCATION + sp) as u16)
    }

    /// Pull the low byte, then the high byte, of a 16-bit value.
    pub open spec fn pull_counter_spec(self) -> (Self, u16) {
        let (s1, low) = self.pull_spec();
        let (s2, high) = s1.pull_spec();
        (s2, ((high as u16) << 8u16) | (low as u16))
    }

    /// Push: write the stack slot the stack pointer names, then decrement it.
    pub open spec fn push_spec(self, data: u8) -> Self {
        let s = self.write_spec((STACK_BASE_LOCATION + self.stack_pointer) as u16, data);
        CpuView { stack_pointer: s.stack_pointer.wrapping_sub(1), ..s }
    }

    /// Push the program counter, high byte first.
    pub open spec fn push_counter_spec(self) -> Self {
        self.push_spec(((self.program_counter >> 8u16) & 0xFF) as u8).push_spec((self.program_counter & 0xFF) as u8)
    }

    /// Read a little-endian 16-bit value at `address`.
    pub open spec fn read_word_spec(self, address: u16) -> (Self, u16) {
        let (s1, low) = self.read_spec(address);
        let (s2, high) = s1.read_spec(address.wrapping_add(1));
        (s2, ((high as u16) << 8u16) | (low as u16))
    }

    /// An interrupt sequence: push the program counter and the status (with break clear,
    /// unused and interrupt-disable set), then jump through `vector`.
    pub open spec fn interrupt_spec(self, vector: u16, cycles: u8) -> Self {
        let s1 = self.push_counter_spec();
        let status = with_flag(
            with_flag(with_flag(s1.status_register, Flags6502::Break, false), Flags6502::Unused, true),
            Flags6502::DisableInterrupts,
            true,
        );
        let s2 = CpuView { status_register: status, ..s1 }.push_spec(status);
        let (s3, pc) = s2.read_word_spec(vector);
        CpuView { program_counter: pc, cycles, ..s3 }
    }

    pub open spec fn interrupt_request_spec(self) -> Self {
        if self.flag(Flags6502::DisableInterrupts) == 1 {
            self
        } else {
            self.interrupt_spec(INTERRUPT_PROGRAM_COUNTER_ADDRESS, 7)
        }
    }

    pub open spec fn reset_spec(self) -> Self {
        let s = CpuView {
            accumulator: 0,
            x_register: 0,
            y_register: 0,
            stack_pointer: STACK_END_LOCATION,
            ..self
        };
        let (s1, pc) = s.read_word_spec(RESET_PROGRAM_COUNTER_ADDRESS);
        CpuView { program_counter: pc, addr_rel: 0, addr_abs: 0, fetched_data: 0, cycles: 0, ..s1 }
    }
}

impl<B: CpuBus> Olc6502<B> {
    /// A CPU wired to `bus`, with the stack pointer at its power-on position and the
    /// program counter at $C000.
    pub fn new(bus: B) -> (r: Self)
        ensures
            r@ == (CpuView::<B> {
                accumulator: 0,
                x_register: 0,
                y_register: 0,
                stack_pointer: STACK_END_LOCATION,
                program_counter: 0xc000,
                status_register: 0x00,
                fetched_data: 0,
                addr_abs: 0x0000,
                addr_rel: 0x0000,
                opcode: 0x00,
                cycles: 0,
                bus: bus@,
            }),
    {
        Olc6502 {
            accumulator: 0,
            x_register: 0,
            y_register: 0,
            stack_pointer: STACK_END_LOCATION,
            program_counter: 0xc000,
            status_register: 0x00,
            fetched_data: 0,
            addr_abs: 0x0000,
            addr_rel: 0x0000,
            opcode: 0x00,
            cycles: 0,
            bus,
        }
    }

    pub fn read(&mut self, address: u16) -> (r: u8)
        requires
            old(self)@.wf(),
        ensures
            final(self)@.wf(),
            (final(self)@, r) == old(self)@.read_spec(address),
    {
        self.bus.read(address)
    }

    pub fn write(&mut self, address: u16, data: u8)
        requires
            old(self)@.wf(),
        ensures
            final(self)@.wf(),
            final(self)@ == old(self)@.write_spec(address, data),
    {
        self.bus.write(address, data);
    }

    /// Load the operand of the instruction in flight into `fetched_data`.
    pub fn fetch(&mut self) -> (r: u8)
        requires
            old(self)@.wf(),
        ensures
            final(self)@.wf(),
            final(self)@ == old(self)@.fetch_spec(),
            r == final(self).fetched_data,
    {
        if opcode_table::get_address_mode(self.opcode) != AddressMode::Imp {
            let data = self.read(self.addr_abs);
            self.fetched_data = data;
        }
        self.fetched_data
    }

    /// Clear the registers, put the stack pointer at its start and jump through the reset vector.
    pub fn reset(&mut self)
        requires
            old(self)@.wf(),
        ensures
            final(self)@.wf(),
            final(self)@ == old(self)@.reset_spec(),
    {
        self.accumulator = 0;
        self.x_register = 0;
        self.y_register = 0;
        self.stack_pointer = STACK_END_LOCATION;
        self.program_counter = self.read_program_counter(RESET_PROGRAM_COUNTER_ADDRESS);
        self.addr_rel = 0x0000;
        self.addr_abs = 0x0000;
        self.fetched_data = 0x00;
        self.cycles = 0;
    }

    pub fn read_from_stack(&mut self) -> (r: u8)
        requires
            old(self)@.wf(),
        ensures
            final(self)@.wf(),
            (final(self)@, r) == old(self)@.pull_spec(),
    {
        self.stack_pointer = self.stack_pointer.wrapping_add(1);
        self.read(STACK_BASE_LOCATION + (self.stack_pointer as u16))
    }

    pub fn read_counter_from_stack(&mut self) -> (r: u16)
        requires
            old(self)@.wf(),
        ensures
            final(self)@.wf(),
            (final(self)@, r) == old(self)@.pull_counter_spec(),
    {
        let low = self.read_from_stack() as u16;
        let high = self.read_from_stack() as u16;
        (high << 8) | low
    }

    /// The little-endian 16-bit value at `address` (the second byte's address wraps at $FFFF).
    pub fn read_program_counter(&mut self, address: u16) -> (r: u16)
        requires
            old(self)@.wf(),
        ensures
            final(self)@.wf(),
            (final(self)@, r) == old(self)@.read_word_spec(address),
    {
        let low = self.read(address) as u16;
        let high = self.read(address.wrapping_add(1)) as u16;
        (high << 8) | low
    }

    pub fn write_to_stack(&mut self, data: u8)
        requires
            old(self)@.wf(),
        ensures
            final(self)@.wf(),
            final(self)@ == old(self)@.push_spec(data),
    {
        self.write(STACK_BASE_LOCATION + (self.stack_pointer as u16), data);
        self.stack_pointer = self.stack_pointer.wrapping_sub(1);
    }

    pub fn write_counter_to_stack(&mut self)
        requires
            old(self)@.wf(),
        ensures
            final(self)@.wf(),
            final(self)@ == old(self)@.push_counter_spec(),
    {
        self.write_to_stack(((self.program_counter >> 8) & 0x00FF) as u8);
        self.write_to_stack((self.program_counter & 0x00FF) as u8);
    }

    /// A maskable interrupt: ignored while interrupts are disabled.
    pub fn interrupt_request(&mut self)
        requires
            old(self)@.wf(),
        ensures
            final(self)@.wf(),
            final(self)@ == old(self)@.interrupt_request_spec(),
    {
        if self.get_flag(Flags6502::DisableInterrupts) == 1 {
            return;
        }
        self.interrupt(INTERRUPT_PROGRAM_COUNTER_ADDRESS, 7);
    }

    /// A non-maskable interrupt.
    pub fn non_mask_interrupt_request(&mut self)
        requires
            old(self)@.wf(),
        ensures
            final(self)@.wf(),
            final(self)@ == old(self)@.interrupt_spec(NON_MASK_INTERRUPT_PROGRAM_COUNTER_ADDRESS, 8),
    {
        self.interrupt(NON_MASK_INTERRUPT_PROGRAM_COUNTER_ADDRESS, 8);
    }

    fn interrupt(&mut self, vector: u16, cycles: u8)
        requires
            old(self)@.wf(),
        ensures
            final(self)@.wf(),
            final(self)@ == old(self)@.interrupt_spec(vector, cycles),
    {
        self.write_counter_to_stack();
        self.set_flag(Flags6502::Break, false);
        self.set_flag(Flags6502::Unused, true);
        self.set_flag(Flags6502::DisableInterrupts, true);
        self.write_to_stack(self.status_register);
        self.program_counter = self.read_program_counter(vector);
        self.cycles = cycles;
    }

    /// Sets or clears a specific bit of the status register
    pub fn set_flag(&mut self, flag: Flags6502, value: bool)
        ensures
            final(self)@ == old(self)@.set_flag_spec(flag, value),
    {
        if value {
            self.status_register = self.status_register | flag.mask();
        } else {
            self.status_register = self.status_register & !flag.mask();
        }
    }

    /// 1 when `flag` is set, 0 otherwise.
    pub fn get_flag(&self, flag: Flags6502) -> (r: u8)
        ensures
            r == self@.flag(flag),
    {
        if self.status_register & flag.mask() > 0 {
            1
        } else {
            0
        }
    }

    /// Signed overflow of an addition that produced `result` from the operand and the accumulator:
    /// the operand and the accumulator agree in sign and the result's sign differs from the operand's.
    pub fn is_overflow(&self, result: u16) -> (r: bool)
        ensures
            r == (((self.fetched_data & 0x80) as u16) ^ ((self.accumulator & 0x80) as u16) != 0x80
                && ((self.fetched_data & 0x80) as u16) ^ (result & 0x80) == 0x80),
    {
        let data_accum_same_bits = ((self.fetched_data & 0x80) as u16) ^ ((self.accumulator & 0x80) as u16) != 0x80;
        let data_result_diff_bits = ((self.fetched_data & 0x80) as u16) ^ (result & 0x80) == 0x80;
        data_accum_same_bits && data_result_diff_bits
    }
}

} // verus!
