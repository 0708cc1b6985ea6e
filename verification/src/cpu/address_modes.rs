use vstd::prelude::*;
use super::{CpuBus, CpuView, Olc6502};

verus! {

/// Addressing modes. Each leaves the operand's address in `addr_abs` (or, for implied
/// addressing, the accumulator in `fetched_data`; for relative addressing, the signed
/// offset in `addr_rel`) and answers 1 when it may cost an extra cycle.
impl<B: CpuBus> CpuView<B> {
    /// Read the byte at the program counter and step past it.
    pub open spec fn next_byte_spec(self) -> (Self, u8) {
        let (s, data) = self.read_spec(self.program_counter);
        (CpuView { program_counter: s.program_counter.wrapping_add(1), ..s }, data)
    }

    /// Read the two bytes at the program counter as a little-endian address and step past them.
    pub open spec fn absolute_address_spec(self) -> (Self, u16) {
        let (s1, low) = self.next_byte_spec();
        let (s2, high) = s1.next_byte_spec();
        (s2, ((high as u16) << 8u16) | (low as u16))
    }

    pub open spec fn imp_spec(self) -> (Self, u8) {
        (CpuView { fetched_data: self.accumulator, ..self }, 0)
    }

    pub open spec fn imm_spec(self) -> (Self, u8) {
        (CpuView { addr_abs: self.program_counter, program_counter: self.program_counter.wrapping_add(1), ..self }, 0)
    }

    pub open spec fn zp0_spec(self) -> (Self, u8) {
        let (s, address) = self.next_byte_spec();
        (CpuView { addr_abs: (address & 0xFF) as u16, ..s }, 0)
    }

    pub open spec fn zpx_spec(self) -> (Self, u8) {
        let (s, address) = self.next_byte_spec();
        (CpuView { addr_abs: (address.wrapping_add(self.x_register) & 0xFF) as u16, ..s }, 0)
    }

    pub open spec fn zpy_spec(self) -> (Self, u8) {
        let (s, address) = self.next_byte_spec();
        (CpuView { addr_abs: (address.wrapping_add(self.y_register) & 0xFF) as u16, ..s }, 0)
    }

    /// The offset byte, sign-extended to 16 bits.
    pub open spec fn rel_spec(self) -> (Self, u8) {
        let (s, offset) = self.next_byte_spec();
        let rel = offset as u16;
        (CpuView { addr_rel: if rel & 0x80 != 0 { rel | 0xFF00 } else { rel }, ..s }, 0)
    }

    pub open spec fn abs_spec(self) -> (Self, u8) {
        let (s, address) = self.absolute_address_spec();
        (CpuView { addr_abs: address, ..s }, 0)
    }

    /// Absolute address plus X; the extra cycle is owed when a page boundary is crossed.
    pub open spec fn abx_spec(self) -> (Self, u8) {
        let (s, address) = self.absolute_address_spec();
        let target = address.wrapping_add(self.x_register as u16);
        (CpuView { addr_abs: target, ..s }, if target & 0xFF00 != address & 0xFF00 { 1 } else { 0 })
    }

    pub open spec fn aby_spec(self) -> (Self, u8) {
        let (s, address) = self.absolute_address_spec();
        let target = address.wrapping_add(self.y_register as u16);
        (CpuView { addr_abs: target, ..s }, if target & 0xFF00 != address & 0xFF00 { 1 } else { 0 })
    }

    /// The address stored at the absolute pointer. As on the 6502, a pointer at the last
    /// byte of a page takes its high byte from the start of that same page.
    pub open spec fn ind_spec(self) -> (Self, u8) {
        let (s, pointer) = self.absolute_address_spec();
        if (pointer & 0x00FF) == 0x00FF {
            let (s1, high) = s.read_spec(pointer & 0xFF00);
            let (s2, low) = s1.read_spec(pointer);
            (CpuView { addr_abs: ((high as u16) << 8u16) | (low as u16), ..s2 }, 0)
        } else {
            let (s1, high) = s.read_spec(pointer.wrapping_add(1));
            let (s2, low) = s1.read_spec(pointer);
            (CpuView { addr_abs: ((high as u16) << 8u16) | (low as u16), ..s2 }, 0)
        }
    }

    /// The address stored in page zero at the operand plus X.
    pub open spec fn izx_spec(self) -> (Self, u8) {
        let (s, address) = self.next_byte_spec();
        let low_address = address.wrapping_add(self.x_register) & 0xFF;
        let high_address = address.wrapping_add(self.x_register.wrapping_add(1)) & 0xFF;
        let (s1, low) = s.read_spec(low_address as u16);
        let (s2, high) = s1.read_spec(high_address as u16);
        (CpuView { addr_abs: ((high as u16) << 8u16) | (low as u16), ..s2 }, 0)
    }

    /// The address stored in page zero at the operand, plus Y; the extra cycle is owed
    /// when a page boundary is crossed.
    pub open spec fn izy_spec(self) -> (Self, u8) {
        let (s, p) = self.next_byte_spec();
        let pointer = p as u16;
        let (s1, low) = s.read_spec(pointer & 0x00FF);
        let (s2, high_byte) = s1.read_spec(((pointer + 1) as u16) & 0x00FF);
        let high = (high_byte as u16) << 8u16;
        let target = (high | (low as u16)).wrapping_add(self.y_register as u16);
        (CpuView { addr_abs: target, ..s2 }, if target & 0xFF00 != high { 1 } else { 0 })
    }
}

/// Address mode: Implicit
/// No extra data is needed
/// Need to target accumulator for instructions like PHA
pub fn imp<B: CpuBus>(cpu: &mut Olc6502<B>) -> (r: u8)
    requires
        old(cpu)@.wf(),
    ensures
        final(cpu)@.wf(),
        (final(cpu)@, r) == old(cpu)@.imp_spec(),
{
    cpu.fetched_data = cpu.accumulator;
    0
}

/// Address mode: Immediate
/// The instruction expected the next byte to be used as data
/// Increment the program counter to access that
pub fn imm<B: CpuBus>(cpu: &mut Olc6502<B>) -> (r: u8)
    requires
        old(cpu)@.wf(),
    ensures
        final(cpu)@.wf(),
        (final(cpu)@, r) == old(cpu)@.imm_spec(),
{
    cpu.addr_abs = cpu.program_counter;
    cpu.program_counter = cpu.program_counter.wrapping_add(1);
    0
}

fn next_byte<B: CpuBus>(cpu: &mut Olc6502<B>) -> (r: u8)
    requires
        old(cpu)@.wf(),
    ensures
        final(cpu)@.wf(),
        (final(cpu)@, r) == old(cpu)@.next_byte_spec(),
{
    let data = cpu.read(cpu.program_counter);
    cpu.program_counter = cpu.program_counter.wrapping_add(1);
    data
}

/// Address mode: Zero Page
/// Allows you to absolutely access the first 256 bytes of a location
pub fn zp0<B: CpuBus>(cpu: &mut Olc6502<B>) -> (r: u8)
    requires
        old(cpu)@.wf(),
    ensures
        final(cpu)@.wf(),
        (final(cpu)@, r) == old(cpu)@.zp0_spec(),
{
    let address = next_byte(cpu);
    cpu.addr_abs = (address & 0x00FF) as u16;
    0
}

/// Address mode: Zero Page with X Offset
/// Same as zero page but with the X address added
pub fn zpx<B: CpuBus>(cpu: &mut Olc6502<B>) -> (r: u8)
    requires
        old(cpu)@.wf(),
    ensures
        final(cpu)@.wf(),
        (final(cpu)@, r) == old(cpu)@.zpx_spec(),
{
    let address = next_byte(cpu).wrapping_add(cpu.x_register);
    cpu.addr_abs = (address & 0x00FF) as u16;
    0
}

/// Address mode: Zero Page with Y Offset
/// Same as zero page but with Y address added
pub fn zpy<B: CpuBus>(cpu: &mut Olc6502<B>) -> (r: u8)
    requires
        old(cpu)@.wf(),
    ensures
        final(cpu)@.wf(),
        (final(cpu)@, r) == old(cpu)@.zpy_spec(),
{
    let address = next_byte(cpu).wrapping_add(cpu.y_register);
    cpu.addr_abs = (address & 0x00FF) as u16;
    0
}

/// Address mode: Relative
/// Branching instructions can't jump any further than 127 memory locations
pub fn rel<B: CpuBus>(cpu: &mut Olc6502<B>) -> (r: u8)
    requires
        old(cpu)@.wf(),
    ensures
        final(cpu)@.wf(),
        (final(cpu)@, r) == old(cpu)@.rel_spec(),
{
    cpu.addr_rel = next_byte(cpu) as u16;
    if cpu.addr_rel & 0x80 != 0 {
        cpu.addr_rel = cpu.addr_rel | 0xFF00;
    }
    0
}

/// Address mode: Absolute
/// Read the low and high from the next two instructions
pub fn abs<B: CpuBus>(cpu: &mut Olc6502<B>) -> (r: u8)
    requires
        old(cpu)@.wf(),
    ensures
        final(cpu)@.wf(),
        (final(cpu)@, r) == old(cpu)@.abs_spec(),
{
    cpu.addr_abs = get_absolute_address(cpu);
    0
}

/// Address mode: Absolute with X offset
/// Read the low and high from the next two instructions.
/// Then adds the X register to the result
pub fn abx<B: CpuBus>(cpu: &mut Olc6502<B>) -> (r: u8)
    requires
        old(cpu)@.wf(),
    ensures
        final(cpu)@.wf(),
        (final(cpu)@, r) == old(cpu)@.abx_spec(),
{
    let address = get_absolute_address(cpu);
    cpu.addr_abs = address.wrapping_add(cpu.x_register as u16);
    if (cpu.addr_abs & 0xFF00) != (address & 0xFF00) {
        return 1;
    }
    0
}

/// Address mode: Absolute with Y offset
/// Read the low and high from the next two instructions.
/// Then adds the Y register to the result
pub fn aby<B: CpuBus>(cpu: &mut Olc6502<B>) -> (r: u8)
    requires
        old(cpu)@.wf(),
    ensures
        final(cpu)@.wf(),
        (final(cpu)@, r) == old(cpu)@.aby_spec(),
{
    let address = get_absolute_address(cpu);
    cpu.addr_abs = address.wrapping_add(cpu.y_register as u16);
    if (cpu.addr_abs & 0xFF00) != (address & 0xFF00) {
        return 1;
    }
    0
}

/// Address mode: Indirect
/// There is a bug in the 6502 implementation where if the lower byte is equal to 0xFF it then needs to cross
/// a page boundary. It does this incorrectly and instead wraps around the same page so we need to replicate that.
pub fn ind<B: CpuBus>(cpu: &mut Olc6502<B>) -> (r: u8)
    requires
        old(cpu)@.wf(),
    ensures
        final(cpu)@.wf(),
        (final(cpu)@, r) == old(cpu)@.ind_spec(),
{
    let pointer_address = get_absolute_address(cpu);
    if (pointer_address & 0x00FF) == 0x00FF {
        let high = cpu.read(pointer_address & 0xFF00);
        let low = cpu.read(pointer_address);
        cpu.addr_abs = ((high as u16) << 8) | low as u16;
    } else {
        let high = cpu.read(pointer_address.wrapping_add(1));
        let low = cpu.read(pointer_address);
        cpu.addr_abs = ((high as u16) << 8) | low as u16;
    }
    0
}

/// Address mode: Indirect X
/// The supplied address is offset by X to index a location in page 0x00
/// The actual address is then read from this location
pub fn izx<B: CpuBus>(cpu: &mut Olc6502<B>) -> (r: u8)
    requires
        old(cpu)@.wf(),
    ensures
        final(cpu)@.wf(),
        (final(cpu)@, r) == old(cpu)@.izx_spec(),
{
    let address = next_byte(cpu);
    let low_address = (address.wrapping_add(cpu.x_register)) & 0x00FF;
    let high_address = (address.wrapping_add(cpu.x_register.wrapping_add(1))) & 0x00FF;
    let low = cpu.read(low_address as u16) as u16;
    let high = cpu.read(high_address as u16) as u16;
    cpu.addr_abs = (high << 8) | low;
    0
}

/// Address mode: Indirect Y
/// The supplied address is a location in page 0x00
/// The address is then read from this and then offset by Y
/// If a page boundary occurs, an additional clock cycle is required
pub fn izy<B: CpuBus>(cpu: &mut Olc6502<B>) -> (r: u8)
    requires
        old(cpu)@.wf(),
    ensures
        final(cpu)@.wf(),
        (final(cpu)@, r) == old(cpu)@.izy_spec(),
{
    let pointer_address = next_byte(cpu) as u16;
    let low = cpu.read(pointer_address & 0x00FF) as u16;
    let high = (cpu.read((pointer_address + 1) & 0x00FF) as u16) << 8;
    cpu.addr_abs = (high | low).wrapping_add(cpu.y_register as u16);
    if cpu.addr_abs & 0xFF00 != high {
        return 1;
    }
    0
}

/// Read a little-endian address at the program counter and step past it.
pub fn get_absolute_address<B: CpuBus>(cpu: &mut Olc6502<B>) -> (r: u16)
    requires
        old(cpu)@.wf(),
    ensures
        final(cpu)@.wf(),
        (final(cpu)@, r) == old(cpu)@.absolute_address_spec(),
{
    let low = next_byte(cpu) as u16;
    let high = next_byte(cpu) as u16;
    (high << 8) | low
}

} // verus!
