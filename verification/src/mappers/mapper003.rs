use vstd::prelude::*;
use super::mapper::Mapper;
use super::banked_address;
use super::mapper_results::{MapperReadResult, MapperWriteResult, read_cart, read_mapper, read_none, write_cart, write_handled, write_mapped, write_none};
use super::mapper_save_data::{MapperSaveData, Mapper003SaveData};
use super::mapper000::nrom_prg_mask;
use crate::addresses::{CPU_MIN_ADDRESS, PPU_MAX_ADDRESS};
use crate::memory_sizes::{KILOBYTES_8, KILOBYTES_8_MASK, KILOBYTES_16_MASK, KILOBYTES_32_MASK};
use crate::cartridge::mirror::Mirror;

verus! {

/// CNROM (iNES mapper 3): fixed PRG, a switchable 8 KB CHR bank.
#[derive(Clone, Copy, PartialEq, Eq, Structural, Debug)]
pub struct Mapper003 {
    pub prg_banks: u8,
    pub chr_banks: u8,
    pub battery_backed_ram: bool,
    pub chr_bank: u8,
}

impl Mapper003 {
    pub fn new(prg_banks: u8, chr_banks: u8, battery_backed_ram: bool) -> (r: Self)
        ensures
            r == (Mapper003 { prg_banks, chr_banks, battery_backed_ram, chr_bank: 0 }),
    {
        Mapper003 { prg_banks, chr_banks, battery_backed_ram, chr_bank: 0 }
    }
}

impl Mapper for Mapper003 {
    proof fn lemma_console_addresses(&self, address: u16, data: u8) {
    }

    proof fn lemma_ppu_addresses(&self, address: u16) {
    }

    open spec fn inv(&self) -> bool {
        true
    }

    open spec fn reset_spec(&self) -> Self {
        *self
    }

    open spec fn prg_banks_spec(&self) -> u8 {
        self.prg_banks
    }

    open spec fn chr_banks_spec(&self) -> u8 {
        self.chr_banks
    }

    open spec fn mirror_spec(&self) -> Mirror {
        Mirror::Hardware
    }

    open spec fn irq_active_spec(&self) -> bool {
        false
    }

    open spec fn irq_clear_spec(&self) -> Self {
        *self
    }

    open spec fn irq_scanline_spec(&self) -> Self {
        *self
    }

    open spec fn cpu_read_spec(&self, address: u16) -> MapperReadResult {
        if address < CPU_MIN_ADDRESS {
            read_none()
        } else {
            read_cart((address & nrom_prg_mask(self.prg_banks)) as u32)
        }
    }

    open spec fn cpu_write_spec(&self, address: u16, data: u8) -> (Self, MapperWriteResult) {
        if address >= CPU_MIN_ADDRESS {
            (Mapper003 { chr_bank: data & 0b11, ..*self }, write_mapped(address as u32))
        } else {
            (*self, write_none())
        }
    }

    open spec fn ppu_read_spec(&self, address: u16) -> MapperReadResult {
        if address <= PPU_MAX_ADDRESS {
            read_cart(((self.chr_bank as u32) * (KILOBYTES_8 as u32) + ((address & KILOBYTES_8_MASK) as u32)) as u32)
        } else {
            read_none()
        }
    }

    open spec fn ppu_write_spec(&self, address: u16) -> Option<u32> {
        None
    }

    open spec fn load_ok(&self, data: Seq<u8>) -> bool {
        true
    }

    open spec fn load_ram_spec(&self, data: Vec<u8>) -> Self {
        *self
    }

    open spec fn saved_state_spec(&self, data: MapperSaveData) -> bool {
        data matches MapperSaveData::Mapper003(d) && d.prg_banks == self.prg_banks
            && d.chr_banks == self.chr_banks && d.battery_backed_ram == self.battery_backed_ram
            && d.chr_bank == self.chr_bank
    }

    open spec fn saved_ram_spec(&self) -> Option<Seq<u8>> {
        None
    }

    fn reset(&mut self) {
    }

    fn get_prg_banks(&self) -> u8 {
        self.prg_banks
    }

    fn get_chr_banks(&self) -> u8 {
        self.chr_banks
    }

    fn get_mirror(&self) -> Mirror {
        Mirror::Hardware
    }

    fn irq_active(&self) -> bool {
        false
    }

    fn irq_clear(&mut self) {
    }

    fn irq_scanline(&mut self) {
    }

    fn cpu_map_read(&self, address: u16) -> MapperReadResult {
        if address < CPU_MIN_ADDRESS {
            return MapperReadResult::none();
        }
        let prg_banks = self.get_prg_banks();
        let masked_address = if prg_banks > 1 { KILOBYTES_32_MASK } else { KILOBYTES_16_MASK };
        MapperReadResult::from_cart_ram((address & masked_address) as u32)
    }

    fn cpu_map_write(&mut self, address: u16, data: u8) -> MapperWriteResult {
        if address >= CPU_MIN_ADDRESS {
            self.chr_bank = data & 0b11;
            return MapperWriteResult::with_mapped_address(address as u32);
        }
        MapperWriteResult::none()
    }

    fn ppu_map_read(&self, address: u16) -> MapperReadResult {
        if address <= PPU_MAX_ADDRESS {
            let mapped_address = banked_address(self.chr_bank, KILOBYTES_8, address, KILOBYTES_8_MASK);
            MapperReadResult::from_cart_ram(mapped_address)
        } else {
            MapperReadResult::none()
        }
    }

    fn ppu_map_write(&mut self, _address: u16, _mapped_address: &mut u32, _data: u8) -> bool {
        false
    }

    fn load_battery_backed_ram(&mut self, _data: Vec<u8>) {
    }

    fn save_battery_backed_ram(&self) -> Option<Vec<u8>> {
        None
    }

    fn save_state(&self) -> (r: MapperSaveData)
        ensures
            r matches MapperSaveData::Mapper003(d) && d.prg_banks == self.prg_banks
                && d.chr_banks == self.chr_banks && d.battery_backed_ram == self.battery_backed_ram
                && d.chr_bank == self.chr_bank,
    {
        MapperSaveData::Mapper003(Mapper003SaveData {
            prg_banks: self.prg_banks,
            chr_banks: self.chr_banks,
            battery_backed_ram: self.battery_backed_ram,
            chr_bank: self.chr_bank,
        })
    }
}

} // verus!
