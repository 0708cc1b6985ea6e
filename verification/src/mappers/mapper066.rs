use vstd::prelude::*;
use super::mapper::Mapper;
use super::banked_address;
use super::mapper_results::{MapperReadResult, MapperWriteResult, read_cart, read_mapper, read_none, write_cart, write_handled, write_mapped, write_none};
use super::mapper_save_data::{MapperSaveData, Mapper066SaveData};
use crate::addresses::{CPU_MIN_ADDRESS, PPU_MAX_ADDRESS};
use crate::memory_sizes::{KILOBYTES_8, KILOBYTES_8_MASK, KILOBYTES_32, KILOBYTES_32_MASK};
use crate::cartridge::mirror::Mirror;

verus! {

/// GxROM (iNES mapper 66): a switchable 32 KB PRG bank and a switchable 8 KB CHR bank,
/// both chosen by one register.
#[derive(Clone, Copy, PartialEq, Eq, Structural, Debug)]
pub struct Mapper066 {
    pub prg_banks: u8,
    pub chr_banks: u8,
    pub battery_backed_ram: bool,
    pub chr_bank: u8,
    pub prg_bank: u8,
}

impl Mapper066 {
    pub fn new(prg_banks: u8, chr_banks: u8, battery_backed_ram: bool) -> (r: Self)
        ensures
            r == (Mapper066 { prg_banks, chr_banks, battery_backed_ram, chr_bank: 0, prg_bank: 0 }),
    {
        Mapper066 { prg_banks, chr_banks, battery_backed_ram, chr_bank: 0, prg_bank: 0 }
    }

    /// Restore a board from a quick save.
    pub fn from(data: &Mapper066SaveData) -> (r: Self)
        ensures
            r == (Mapper066 {
                prg_banks: data.prg_banks,
                chr_banks: data.chr_banks,
                battery_backed_ram: data.battery_backed_ram,
                chr_bank: data.chr_bank,
                prg_bank: data.prg_bank,
            }),
    {
        Mapper066 {
            prg_banks: data.prg_banks,
            chr_banks: data.chr_banks,
            battery_backed_ram: data.battery_backed_ram,
            chr_bank: data.chr_bank,
            prg_bank: data.prg_bank,
        }
    }
}

impl Mapper for Mapper066 {
    proof fn lemma_console_addresses(&self, address: u16, data: u8) {
    }

    proof fn lemma_ppu_addresses(&self, address: u16) {
    }

    open spec fn inv(&self) -> bool {
        true
    }

    open spec fn reset_spec(&self) -> Self {
        *self
    }

    open spec fn prg_banks_spec(&self) -> u8 {
        self.prg_banks
    }

    open spec fn chr_banks_spec(&self) -> u8 {
        self.chr_banks
    }

    open spec fn mirror_spec(&self) -> Mirror {
        Mirror::Hardware
    }

    open spec fn irq_active_spec(&self) -> bool {
        false
    }

    open spec fn irq_clear_spec(&self) -> Self {
        *self
    }

    open spec fn irq_scanline_spec(&self) -> Self {
        *self
    }

    open spec fn cpu_read_spec(&self, address: u16) -> MapperReadResult {
        if address < CPU_MIN_ADDRESS {
            read_none()
        } else {
            read_cart(((self.prg_bank as u32) * (KILOBYTES_32 as u32) + ((address & KILOBYTES_32_MASK) as u32)) as u32)
        }
    }

    open spec fn cpu_write_spec(&self, address: u16, data: u8) -> (Self, MapperWriteResult) {
        if address >= CPU_MIN_ADDRESS {
            (
                Mapper066 { chr_bank: data & 0b11, prg_bank: (data & 0b11_0000) >> 4u8, ..*self },
                write_mapped(address as u32),
            )
        } else {
            (*self, write_none())
        }
    }

    open spec fn ppu_read_spec(&self, address: u16) -> MapperReadResult {
        if address <= PPU_MAX_ADDRESS {
            read_cart(((self.chr_bank as u32) * (KILOBYTES_8 as u32) + ((address & KILOBYTES_8_MASK) as u32)) as u32)
        } else {
            read_none()
        }
    }

    open spec fn ppu_write_spec(&self, address: u16) -> Option<u32> {
        None
    }

    open spec fn load_ok(&self, data: Seq<u8>) -> bool {
        true
    }

    open spec fn load_ram_spec(&self, data: Vec<u8>) -> Self {
        *self
    }

    open spec fn saved_state_spec(&self, data: MapperSaveData) -> bool {
        data matches MapperSaveData::Mapper066(d) && d.prg_banks == self.prg_banks
            && d.chr_banks == self.chr_banks && d.battery_backed_ram == self.battery_backed_ram
            && d.chr_bank == self.chr_bank && d.prg_bank == self.prg_bank
    }

    open spec fn saved_ram_spec(&self) -> Option<Seq<u8>> {
        None
    }

    fn reset(&mut self) {
    }

    fn get_prg_banks(&self) -> u8 {
        self.prg_banks
    }

    fn get_chr_banks(&self) -> u8 {
        self.chr_banks
    }

    fn get_mirror(&self) -> Mirror {
        Mirror::Hardware
    }

    fn irq_active(&self) -> bool {
        false
    }

    fn irq_clear(&mut self) {
    }

    fn irq_scanline(&mut self) {
    }

    fn cpu_map_read(&self, address: u16) -> MapperReadResult {
        if address < CPU_MIN_ADDRESS {
            return MapperReadResult::none();
        }
        MapperReadResult::from_cart_ram(
            banked_address(self.prg_bank, KILOBYTES_32, address, KILOBYTES_32_MASK),
        )
    }

    fn cpu_map_write(&mut self, address: u16, data: u8) -> MapperWriteResult {
        if address >= CPU_MIN_ADDRESS {
            self.chr_bank = data & 0b11;
            self.prg_bank = (data & 0b11_0000) >> 4;
            return MapperWriteResult::with_mapped_address(address as u32);
        }
        MapperWriteResult::none()
    }

    fn ppu_map_read(&self, address: u16) -> MapperReadResult {
        if address <= PPU_MAX_ADDRESS {
            let mapped_address = banked_address(self.chr_bank, KILOBYTES_8, address, KILOBYTES_8_MASK);
            MapperReadResult::from_cart_ram(mapped_address)
        } else {
            MapperReadResult::none()
        }
    }

    fn ppu_map_write(&mut self, _address: u16, _mapped_address: &mut u32, _data: u8) -> bool {
        false
    }

    fn load_battery_backed_ram(&mut self, _data: Vec<u8>) {
    }

    fn save_battery_backed_ram(&self) -> Option<Vec<u8>> {
        None
    }

    fn save_state(&self) -> (r: MapperSaveData)
        ensures
            r matches MapperSaveData::Mapper066(d) && d.prg_banks == self.prg_banks
                && d.chr_banks == self.chr_banks && d.battery_backed_ram == self.battery_backed_ram
                && d.chr_bank == self.chr_bank && d.prg_bank == self.prg_bank,
    {
        MapperSaveData::Mapper066(Mapper066SaveData {
            prg_banks: self.prg_banks,
            chr_banks: self.chr_banks,
            battery_backed_ram: self.battery_backed_ram,
            chr_bank: self.chr_bank,
            prg_bank: self.prg_bank,
        })
    }
}

proof fn lemma_gxrom_bits(d: u8, offset: u16, pattern: u16)
    by (bit_vector)
    requires
        offset < 0x8000,
        pattern < 0x2000,
    ensures
        (d & 0b11_0000) >> 4u8 == (d / 16) % 4,
        d & 0b11 == d % 4,
        ((0x8000u16 + offset) as u16) & 0x7FFF == offset,
        pattern & 0x1FFF == pattern,
{
}

/// GxROM's one register: after a CPU write of `d` anywhere in $8000-$FFFF, the CPU reads
/// $8000 + o from 32 KB PRG bank `(d >> 4) & 3`, at `((d >> 4) & 3) * 32 KB + o`, and the
/// PPU reads pattern address o (below $2000) from 8 KB CHR bank `d & 3`, at
/// `(d & 3) * 8 KB + o`; both from cartridge memory.
pub proof fn lemma_gxrom_bank_select(m: Mapper066, address: u16, d: u8, offset: u16, pattern: u16)
    requires
        address >= 0x8000,
        offset < 0x8000,
        pattern < 0x2000,
    ensures
        ({
            let m2 = m.cpu_write_spec(address, d).0;
            let prg = m2.cpu_read_spec((0x8000 + offset) as u16);
            let chr = m2.ppu_read_spec(pattern);
            &&& prg.read_from_cart_ram
            &&& prg.mapped_address == ((d / 16) % 4) * 0x8000 + offset
            &&& chr.read_from_cart_ram
            &&& chr.mapped_address == (d % 4) * 0x2000 + pattern
        }),
{
    lemma_gxrom_bits(d, offset, pattern);
}

} // verus!
