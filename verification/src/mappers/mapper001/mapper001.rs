use vstd::prelude::*;
use super::chr_bank::ChrBank;
use super::control_register::{ControlRegister, chr_mode_of, prg_mode_of, mirror_of};
use super::prg_bank::PrgBank;
use super::shift_register::ShiftRegister;
use super::{RAM_SIZE, OPTIONAL_RAM_ADDRESS_LOWER, OPTIONAL_RAM_ADDRESS_UPPER, RAM_ADDRESS_MASK,
    PRG_ROM_FIRST_BANK_LOWER, CHR_ROM_LAST_BANK_UPPER};
use crate::mappers::mapper::Mapper;
use crate::mappers::ram_to_vec;
use crate::mappers::mapper_results::{MapperReadResult, MapperWriteResult, read_cart, read_mapper, read_none, write_cart, write_handled, write_mapped, write_none};
use crate::mappers::mapper_save_data::{MapperSaveData, Mapper001SaveData};
use crate::cartridge::mirror::Mirror;

verus! {

/// MMC1 (iNES mapper 1): bank registers loaded through a five-write serial port.
#[derive(Debug)]
pub struct Mapper001 {
    pub prg_banks: u8,
    pub chr_banks: u8,
    pub battery_backed_ram: bool,
    pub chr_bank: ChrBank,
    pub control_register: ControlRegister,
    pub prg_bank: PrgBank,
    pub ram: [u8; RAM_SIZE],
    pub shift_register: ShiftRegister,
}

impl Mapper001 {
    /// The board after a serial write of `data` (bit 7 clear) at `address` >= $8000:
    /// the bit is shifted in, and on the fifth bit the register that address
    /// bits 14..13 select is loaded and the port is emptied.
    pub open spec fn serial_write_spec(&self, address: u16, data: u8) -> Mapper001 {
        let shift = self.shift_register.bit_shift;
        let load = self.shift_register.load_register | (((data & 1) as u8) << shift);
        if shift + 1 == 5 {
            let target = (address & 0x6000) >> 13u16;
            let loaded = if target == 0 {
                Mapper001 {
                    control_register: ControlRegister(
                        (self.control_register.0 & 0b1110_0000) | (load & 0b1_1111),
                    ),
                    ..*self
                }
            } else if target == 1 {
                Mapper001 {
                    chr_bank: self.chr_bank.write_low_spec(chr_mode_of(self.control_register.0), load),
                    ..*self
                }
            } else if target == 2 {
                Mapper001 {
                    chr_bank: self.chr_bank.write_high_spec(chr_mode_of(self.control_register.0), load),
                    ..*self
                }
            } else {
                Mapper001 {
                    prg_bank: self.prg_bank.write_spec(prg_mode_of(self.control_register.0), load),
                    ..*self
                }
            };
            Mapper001 { shift_register: ShiftRegister { bit_shift: 0, load_register: 0 }, ..loaded }
        } else {
            Mapper001 {
                shift_register: ShiftRegister { bit_shift: (shift + 1) as u8, load_register: load },
                ..*self
            }
        }
    }

    /// A freshly powered board.
    pub open spec fn initial(prg_banks: u8, chr_banks: u8, battery_backed_ram: bool) -> Mapper001 {
        Mapper001 {
            prg_banks,
            chr_banks,
            battery_backed_ram,
            chr_bank: ChrBank { chunk_4_low: 0, chunk_4_high: 0, chunk_8: 0 },
            control_register: ControlRegister(0),
            prg_bank: PrgBank { prg_banks, chunk_16_low: 0, chunk_16_high: 0, chunk_32: 0 },
            ram: [0; RAM_SIZE],
            shift_register: ShiftRegister { bit_shift: 0, load_register: 0 },
        }
    }

    pub fn new(prg_banks: u8, chr_banks: u8, battery_backed_ram: bool) -> (r: Self)
        ensures
            r.inv(),
            r == Mapper001::initial(prg_banks, chr_banks, battery_backed_ram),
    {
        Mapper001 {
            prg_banks,
            chr_banks,
            battery_backed_ram,
            chr_bank: ChrBank::new(),
            control_register: ControlRegister(0x00),
            prg_bank: PrgBank::new(prg_banks),
            ram: [0; RAM_SIZE],
            shift_register: ShiftRegister { bit_shift: 0, load_register: 0 },
        }
    }

    fn reset_loading(&mut self)
        ensures
            *final(self) == (Mapper001 {
                control_register: ControlRegister(old(self).control_register.0 | 0x0C),
                shift_register: ShiftRegister { bit_shift: 0, load_register: 0 },
                ..*old(self)
            }),
    {
        self.control_register.0 = self.control_register.0 | 0x0C;
        self.shift_register.reset_loading();
    }

    fn write(&mut self, address: u16, data: u8)
        requires
            old(self).inv(),
        ensures
            *final(self) == old(self).serial_write_spec(address, data),
    {
        self.shift_register.push_data(data);
        if self.shift_register.bit_shift == 5 {
            let address_select = (address & 0b110_0000_0000_0000) >> 13;
            let load = self.shift_register.load_register;
            if address_select == 0 {
                self.control_register.write(load);
            } else if address_select == 1 {
                let mode = self.control_register.get_chr_mode();
                self.chr_bank.write_low(&mode, load);
            } else if address_select == 2 {
                let mode = self.control_register.get_chr_mode();
                self.chr_bank.write_high(&mode, load);
            } else {
                let mode = self.control_register.get_prg_mode();
                self.prg_bank.write(&mode, load);
            }
            self.shift_register.reset_loading();
        }
    }
}

impl Mapper for Mapper001 {
    proof fn lemma_console_addresses(&self, address: u16, data: u8) {
    }

    proof fn lemma_ppu_addresses(&self, address: u16) {
    }

    open spec fn inv(&self) -> bool {
        &&& self.shift_register.bit_shift < 5
        &&& self.prg_bank.prg_banks == self.prg_banks
    }

    open spec fn reset_spec(&self) -> Self {
        Mapper001 {
            chr_bank: ChrBank { chunk_4_low: 0, chunk_4_high: 0, chunk_8: 0 },
            control_register: ControlRegister(0x1C),
            prg_bank: self.prg_bank.reset_spec(),
            shift_register: ShiftRegister { bit_shift: 0, load_register: 0 },
            ..*self
        }
    }

    open spec fn prg_banks_spec(&self) -> u8 {
        self.prg_banks
    }

    open spec fn chr_banks_spec(&self) -> u8 {
        self.chr_banks
    }

    open spec fn mirror_spec(&self) -> Mirror {
        mirror_of(self.control_register.0)
    }

    open spec fn irq_active_spec(&self) -> bool {
        false
    }

    open spec fn irq_clear_spec(&self) -> Self {
        *self
    }

    open spec fn irq_scanline_spec(&self) -> Self {
        *self
    }

    open spec fn cpu_read_spec(&self, address: u16) -> MapperReadResult {
        if OPTIONAL_RAM_ADDRESS_LOWER <= address <= OPTIONAL_RAM_ADDRESS_UPPER {
            read_mapper(self.ram[(address & RAM_ADDRESS_MASK) as int])
        } else if address >= PRG_ROM_FIRST_BANK_LOWER {
            read_cart(self.prg_bank.mapped_address_spec(address, prg_mode_of(self.control_register.0)))
        } else {
            read_none()
        }
    }

    open spec fn cpu_write_spec(&self, address: u16, data: u8) -> (Self, MapperWriteResult) {
        if address < PRG_ROM_FIRST_BANK_LOWER {
            if OPTIONAL_RAM_ADDRESS_LOWER <= address {
                (
                    Mapper001 {
                        ram: vstd::array::spec_array_update(self.ram, (address & RAM_ADDRESS_MASK) as int, data),
                        ..*self
                    },
                    write_handled(),
                )
            } else {
                (*self, write_none())
            }
        } else if data & 0b1000_0000 != 0 {
            (
                Mapper001 {
                    control_register: ControlRegister(self.control_register.0 | 0x0C),
                    shift_register: ShiftRegister { bit_shift: 0, load_register: 0 },
                    ..*self
                },
                write_none(),
            )
        } else {
            (self.serial_write_spec(address, data), write_none())
        }
    }

    open spec fn ppu_read_spec(&self, address: u16) -> MapperReadResult {
        if address <= CHR_ROM_LAST_BANK_UPPER {
            if self.chr_banks == 0 {
                read_cart(address as u32)
            } else {
                read_cart(self.chr_bank.mapped_address_spec(address, chr_mode_of(self.control_register.0)))
            }
        } else {
            read_none()
        }
    }

    open spec fn ppu_write_spec(&self, address: u16) -> Option<u32> {
        if address > 0x1FFF || self.chr_banks != 0 {
            None
        } else {
            Some(address as u32)
        }
    }

    open spec fn load_ok(&self, data: Seq<u8>) -> bool {
        true
    }

    open spec fn load_ram_spec(&self, data: Vec<u8>) -> Self {
        *self
    }

    open spec fn saved_state_spec(&self, data: MapperSaveData) -> bool {
        data matches MapperSaveData::Mapper001(d) && {
            &&& d.prg_banks == self.prg_banks
            &&& d.chr_banks == self.chr_banks
            &&& d.battery_backed_ram == self.battery_backed_ram
            &&& d.chr_bank == self.chr_bank
            &&& d.control_register == self.control_register
            &&& d.prg_bank == self.prg_bank
            &&& d.ram@ == self.ram@
            &&& d.shift_register == self.shift_register
        }
    }

    open spec fn saved_ram_spec(&self) -> Option<Seq<u8>> {
        None
    }

    fn reset(&mut self) {
        self.chr_bank.reset();
        self.control_register = ControlRegister(0x1C);
        self.prg_bank.reset();
        self.shift_register.reset();
    }

    fn get_prg_banks(&self) -> u8 {
        self.prg_banks
    }

    fn get_chr_banks(&self) -> u8 {
        self.chr_banks
    }

    fn get_mirror(&self) -> Mirror {
        self.control_register.get_mirror()
    }

    fn irq_active(&self) -> bool {
        false
    }

    fn irq_clear(&mut self) {
    }

    fn irq_scanline(&mut self) {
    }

    fn cpu_map_read(&self, address: u16) -> MapperReadResult {
        if OPTIONAL_RAM_ADDRESS_LOWER <= address && address <= OPTIONAL_RAM_ADDRESS_UPPER {
            let index = (address & RAM_ADDRESS_MASK) as usize;
            assert(address & 0x1FFF <= 0x1FFF) by (bit_vector);
            MapperReadResult::from_mapper_ram(self.ram[index])
        } else if address >= PRG_ROM_FIRST_BANK_LOWER {
            let mode = self.control_register.get_prg_mode();
            let mapped_address = self.prg_bank.get_mapped_address(address, &mode);
            MapperReadResult::from_cart_ram(mapped_address)
        } else {
            MapperReadResult::none()
        }
    }

    fn cpu_map_write(&mut self, address: u16, data: u8) -> MapperWriteResult {
        if address < PRG_ROM_FIRST_BANK_LOWER {
            if OPTIONAL_RAM_ADDRESS_LOWER <= address {
                let index = (address & RAM_ADDRESS_MASK) as usize;
                assert(address & 0x1FFF <= 0x1FFF) by (bit_vector);
            assert(address & 0x1FFF <= 0x1FFF) by (bit_vector);
                self.ram[index] = data;
                return MapperWriteResult::handled();
            } else {
                return MapperWriteResult::none();
            }
        }
        let reset_shift = (data & 0b1000_0000) > 0;
        if reset_shift {
            self.reset_loading();
        } else {
            self.write(address, data);
        }
        MapperWriteResult::none()
    }

    fn ppu_map_read(&self, address: u16) -> MapperReadResult {
        if self.chr_banks == 0 && address <= CHR_ROM_LAST_BANK_UPPER {
            return MapperReadResult::from_cart_ram(address as u32);
        }
        if address <= CHR_ROM_LAST_BANK_UPPER {
            let mode = self.control_register.get_chr_mode();
            let mapped_address = self.chr_bank.get_mapped_address(address, &mode);
            MapperReadResult::from_cart_ram(mapped_address)
        } else {
            MapperReadResult::none()
        }
    }

    fn ppu_map_write(&mut self, address: u16, mapped_address: &mut u32, _data: u8) -> bool {
        if address > 0x1FFF || self.chr_banks != 0 {
            return false;
        }
        *mapped_address = address as u32;
        true
    }

    fn load_battery_backed_ram(&mut self, _data: Vec<u8>) {
    }

    fn save_battery_backed_ram(&self) -> Option<Vec<u8>> {
        None
    }

    fn save_state(&self) -> (r: MapperSaveData)
        ensures
            r matches MapperSaveData::Mapper001(d) && {
                &&& d.prg_banks == self.prg_banks
                &&& d.chr_banks == self.chr_banks
                &&& d.battery_backed_ram == self.battery_backed_ram
                &&& d.chr_bank == self.chr_bank
                &&& d.control_register == self.control_register
                &&& d.prg_bank == self.prg_bank
                &&& d.ram@ == self.ram@
                &&& d.shift_register == self.shift_register
            },
    {
        MapperSaveData::Mapper001(Mapper001SaveData {
            prg_banks: self.prg_banks,
            chr_banks: self.chr_banks,
            battery_backed_ram: self.battery_backed_ram,
            chr_bank: self.chr_bank,
            control_register: self.control_register,
            prg_bank: self.prg_bank,
            ram: ram_to_vec(&self.ram),
            shift_register: ShiftRegister {
                bit_shift: self.shift_register.bit_shift,
                load_register: self.shift_register.load_register,
            },
        })
    }
}

proof fn lemma_serial_bits(c: u8, d0: u8, d1: u8, d2: u8, d3: u8, d4: u8, address: u16)
    by (bit_vector)
    ensures
        ({
            let l1 = 0u8 | (((d0 & 1) as u8) << 0u8);
            let l2 = l1 | (((d1 & 1) as u8) << 1u8);
            let l3 = l2 | (((d2 & 1) as u8) << 2u8);
            let l4 = l3 | (((d3 & 1) as u8) << 3u8);
            let l5 = l4 | (((d4 & 1) as u8) << 4u8);
            (c & 0b1110_0000) | (l5 & 0b1_1111)
                == (c & 0b1110_0000) | (d0 & 1) | ((d1 & 1) << 1u8) | ((d2 & 1) << 2u8) | ((d3 & 1) << 3u8) | ((d4 & 1) << 4u8)
        }),
        0x8000 <= address <= 0x9FFF ==> (address & 0x6000) >> 13u16 == 0,
{
}

/// The MMC1 serial port: five writes to $8000-$9FFF with bit 7 clear, carrying a value's
/// bits least significant first (in bit 0 of each byte), load that value into the low five
/// bits of the control register and leave the port empty for the next value.
pub proof fn lemma_serial_load_control(m: Mapper001, address: u16, d0: u8, d1: u8, d2: u8, d3: u8, d4: u8)
    requires
        m.shift_register.bit_shift == 0,
        m.shift_register.load_register == 0,
        0x8000 <= address <= 0x9FFF,
        d0 & 0x80 == 0,
        d1 & 0x80 == 0,
        d2 & 0x80 == 0,
        d3 & 0x80 == 0,
        d4 & 0x80 == 0,
    ensures
        m.cpu_write_spec(address, d0).0.cpu_write_spec(address, d1).0.cpu_write_spec(address, d2).0
            .cpu_write_spec(address, d3).0.cpu_write_spec(address, d4).0 == (Mapper001 {
            control_register: ControlRegister(
                (m.control_register.0 & 0b1110_0000) | (d0 & 1) | ((d1 & 1) << 1u8) | ((d2 & 1) << 2u8)
                    | ((d3 & 1) << 3u8) | ((d4 & 1) << 4u8),
            ),
            shift_register: ShiftRegister { bit_shift: 0, load_register: 0 },
            ..m
        }),
{
    lemma_serial_bits(m.control_register.0, d0, d1, d2, d3, d4, address);
}

/// A write with bit 7 set empties the serial port and sets the control register's PRG
/// mode bits (fixing the last bank at $C000).
pub proof fn lemma_serial_reset(m: Mapper001, address: u16, data: u8)
    requires
        address >= 0x8000,
        data & 0x80 != 0,
    ensures
        m.cpu_write_spec(address, data).0 == (Mapper001 {
            control_register: ControlRegister(m.control_register.0 | 0x0C),
            shift_register: ShiftRegister { bit_shift: 0, load_register: 0 },
            ..m
        }),
{
}

/// The work RAM at $6000-$7FFF reads back what was written: a write there is handled by the
/// board, a later read at an address naming the same cell (the same low thirteen bits)
/// gives the written byte from the board's RAM, and reads of the other cells are unchanged.
pub proof fn lemma_work_ram_read_after_write(m: Mapper001, a: u16, b: u16, data: u8)
    requires
        0x6000 <= a <= 0x7FFF,
        0x6000 <= b <= 0x7FFF,
    ensures
        m.cpu_write_spec(a, data).1 == write_handled(),
        a & 0x1FFF == b & 0x1FFF ==> m.cpu_write_spec(a, data).0.cpu_read_spec(b) == read_mapper(data),
        a & 0x1FFF != b & 0x1FFF ==> m.cpu_write_spec(a, data).0.cpu_read_spec(b) == m.cpu_read_spec(b),
{
    assert(a & 0x1FFF < 0x2000 && b & 0x1FFF < 0x2000) by (bit_vector);
}

} // verus!
