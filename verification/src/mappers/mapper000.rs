use vstd::prelude::*;
use super::mapper::Mapper;
use super::mapper_results::{MapperReadResult, MapperWriteResult, read_cart, read_mapper, read_none, write_cart, write_handled, write_mapped, write_none};
use super::mapper_save_data::{MapperSaveData, Mapper000SaveData};
use crate::addresses::{CPU_MIN_ADDRESS, PPU_MAX_ADDRESS};
use crate::memory_sizes::{KILOBYTES_16_MASK, KILOBYTES_32_MASK};
use crate::cartridge::mirror::Mirror;

verus! {

/// NROM (iNES mapper 0): no bank switching; 16 KB of PRG is mirrored, 32 KB is not.
#[derive(Clone, Copy, PartialEq, Eq, Structural, Debug)]
pub struct Mapper000 {
    pub prg_banks: u8,
    pub chr_banks: u8,
    pub battery_backed_ram: bool,
}

/// The PRG address mask of an NROM board with `prg_banks` banks.
pub open spec fn nrom_prg_mask(prg_banks: u8) -> u16 {
    if prg_banks > 1 {
        KILOBYTES_32_MASK
    } else {
        KILOBYTES_16_MASK
    }
}

/// Writes to the pattern tables go to CHR memory only on boards with CHR RAM (no CHR ROM banks).
pub open spec fn chr_ram_write(chr_banks: u8, address: u16) -> Option<u32> {
    if address > PPU_MAX_ADDRESS || chr_banks != 0 {
        None
    } else {
        Some(address as u32)
    }
}

impl Mapper000 {
    pub fn new(prg_banks: u8, chr_banks: u8, battery_backed_ram: bool) -> (r: Self)
        ensures
            r == (Mapper000 { prg_banks, chr_banks, battery_backed_ram }),
    {
        Mapper000 { prg_banks, chr_banks, battery_backed_ram }
    }
}

impl Mapper for Mapper000 {
    proof fn lemma_console_addresses(&self, address: u16, data: u8) {
    }

    proof fn lemma_ppu_addresses(&self, address: u16) {
    }

    open spec fn inv(&self) -> bool {
        true
    }

    open spec fn reset_spec(&self) -> Self {
        *self
    }

    open spec fn prg_banks_spec(&self) -> u8 {
        self.prg_banks
    }

    open spec fn chr_banks_spec(&self) -> u8 {
        self.chr_banks
    }

    open spec fn mirror_spec(&self) -> Mirror {
        Mirror::Hardware
    }

    open spec fn irq_active_spec(&self) -> bool {
        false
    }

    open spec fn irq_clear_spec(&self) -> Self {
        *self
    }

    open spec fn irq_scanline_spec(&self) -> Self {
        *self
    }

    open spec fn cpu_read_spec(&self, address: u16) -> MapperReadResult {
        if address < CPU_MIN_ADDRESS {
            read_none()
        } else {
            read_cart((address & nrom_prg_mask(self.prg_banks)) as u32)
        }
    }

    open spec fn cpu_write_spec(&self, address: u16, data: u8) -> (Self, MapperWriteResult) {
        if address < CPU_MIN_ADDRESS {
            (*self, write_none())
        } else {
            (*self, write_cart((address & nrom_prg_mask(self.prg_banks)) as u32))
        }
    }

    open spec fn ppu_read_spec(&self, address: u16) -> MapperReadResult {
        if address <= PPU_MAX_ADDRESS {
            read_cart(address as u32)
        } else {
            read_none()
        }
    }

    open spec fn ppu_write_spec(&self, address: u16) -> Option<u32> {
        chr_ram_write(self.chr_banks, address)
    }

    open spec fn load_ok(&self, data: Seq<u8>) -> bool {
        true
    }

    open spec fn load_ram_spec(&self, data: Vec<u8>) -> Self {
        *self
    }

    open spec fn saved_state_spec(&self, data: MapperSaveData) -> bool {
        data matches MapperSaveData::Mapper000(d) && d.prg_banks == self.prg_banks
            && d.chr_banks == self.chr_banks && d.battery_backed_ram == self.battery_backed_ram
    }

    open spec fn saved_ram_spec(&self) -> Option<Seq<u8>> {
        None
    }

    fn reset(&mut self) {
    }

    fn get_prg_banks(&self) -> u8 {
        self.prg_banks
    }

    fn get_chr_banks(&self) -> u8 {
        self.chr_banks
    }

    fn get_mirror(&self) -> Mirror {
        Mirror::Hardware
    }

    fn irq_active(&self) -> bool {
        false
    }

    fn irq_clear(&mut self) {
    }

    fn irq_scanline(&mut self) {
    }

    fn cpu_map_read(&self, address: u16) -> MapperReadResult {
        if address < CPU_MIN_ADDRESS {
            return MapperReadResult::none();
        }
        let prg_banks = self.get_prg_banks();
        let masked_address = if prg_banks > 1 { KILOBYTES_32_MASK } else { KILOBYTES_16_MASK };
        MapperReadResult::from_cart_ram((address & masked_address) as u32)
    }

    fn cpu_map_write(&mut self, address: u16, _data: u8) -> MapperWriteResult {
        if address < CPU_MIN_ADDRESS {
            return MapperWriteResult::none();
        }
        let prg_banks = self.get_prg_banks();
        let masked_address = if prg_banks > 1 { KILOBYTES_32_MASK } else { KILOBYTES_16_MASK };
        let mapped_address = (address & masked_address) as u32;
        MapperWriteResult::write_to_cart_ram(mapped_address)
    }

    fn ppu_map_read(&self, address: u16) -> MapperReadResult {
        if address <= PPU_MAX_ADDRESS {
            MapperReadResult::from_cart_ram(address as u32)
        } else {
            MapperReadResult::none()
        }
    }

    fn ppu_map_write(&mut self, address: u16, mapped_address: &mut u32, _data: u8) -> bool {
        if address > PPU_MAX_ADDRESS || self.get_chr_banks() != 0 {
            return false;
        }
        *mapped_address = address as u32;
        true
    }

    fn load_battery_backed_ram(&mut self, _data: Vec<u8>) {
    }

    fn save_battery_backed_ram(&self) -> Option<Vec<u8>> {
        None
    }

    fn save_state(&self) -> (r: MapperSaveData)
        ensures
            r matches MapperSaveData::Mapper000(d) && d.prg_banks == self.prg_banks
                && d.chr_banks == self.chr_banks && d.battery_backed_ram == self.battery_backed_ram,
    {
        MapperSaveData::Mapper000(Mapper000SaveData {
            prg_banks: self.prg_banks,
            chr_banks: self.chr_banks,
            battery_backed_ram: self.battery_backed_ram,
        })
    }
}

} // verus!
