use vstd::prelude::*;
use super::mapper::Mapper;
use super::banked_address;
use super::mapper_results::{MapperReadResult, MapperWriteResult, read_cart, read_mapper, read_none, write_cart, write_handled, write_mapped, write_none};
use super::mapper_save_data::{MapperSaveData, Mapper002SaveData};
use super::mapper000::chr_ram_write;
use crate::addresses::{CPU_MIN_ADDRESS, PPU_MAX_ADDRESS};
use crate::memory_sizes::{KILOBYTES_16, KILOBYTES_16_MASK};
use crate::cartridge::mirror::Mirror;

verus! {

pub const SWITCHABLE_ROM_BANK_MAX: u16 = 0xBFFF;
pub const FIXED_BANK_MIN: u16 = 0xC000;

/// UxROM (iNES mapper 2): a switchable 16 KB bank at $8000, the last bank fixed at $C000.
#[derive(Clone, Copy, PartialEq, Eq, Structural, Debug)]
pub struct Mapper002 {
    pub prg_banks: u8,
    pub chr_banks: u8,
    pub prg_bank_low: u8,
    pub prg_bank_high: u8,
    pub battery_backed_ram: bool,
}

impl Mapper002 {
    pub fn new(prg_banks: u8, chr_banks: u8, battery_backed_ram: bool) -> (r: Self)
        ensures
            r == (Mapper002 {
                prg_banks,
                chr_banks,
                prg_bank_low: 0,
                prg_bank_high: if prg_banks > 0 { (prg_banks - 1) as u8 } else { prg_banks },
                battery_backed_ram,
            }),
    {
        Mapper002 {
            prg_banks,
            chr_banks,
            prg_bank_low: 0,
            prg_bank_high: if prg_banks > 0 { prg_banks - 1 } else { prg_banks },
            battery_backed_ram,
        }
    }
}

impl Mapper for Mapper002 {
    proof fn lemma_console_addresses(&self, address: u16, data: u8) {
    }

    proof fn lemma_ppu_addresses(&self, address: u16) {
    }

    open spec fn inv(&self) -> bool {
        true
    }

    open spec fn reset_spec(&self) -> Self {
        Mapper002 { prg_bank_low: 0, prg_bank_high: self.prg_banks.wrapping_sub(1), ..*self }
    }

    open spec fn prg_banks_spec(&self) -> u8 {
        self.prg_banks
    }

    open spec fn chr_banks_spec(&self) -> u8 {
        self.chr_banks
    }

    open spec fn mirror_spec(&self) -> Mirror {
        Mirror::Hardware
    }

    open spec fn irq_active_spec(&self) -> bool {
        false
    }

    open spec fn irq_clear_spec(&self) -> Self {
        *self
    }

    open spec fn irq_scanline_spec(&self) -> Self {
        *self
    }

    open spec fn cpu_read_spec(&self, address: u16) -> MapperReadResult {
        if CPU_MIN_ADDRESS <= address <= SWITCHABLE_ROM_BANK_MAX {
            read_cart(((self.prg_bank_low as u32) * (KILOBYTES_16 as u32) + ((address & KILOBYTES_16_MASK) as u32)) as u32)
        } else if FIXED_BANK_MIN <= address {
            read_cart(((self.prg_bank_high as u32) * (KILOBYTES_16 as u32) + ((address & KILOBYTES_16_MASK) as u32)) as u32)
        } else {
            read_none()
        }
    }

    open spec fn cpu_write_spec(&self, address: u16, data: u8) -> (Self, MapperWriteResult) {
        if address >= CPU_MIN_ADDRESS {
            (Mapper002 { prg_bank_low: data & 0x0F, ..*self }, write_none())
        } else {
            (*self, write_none())
        }
    }

    open spec fn ppu_read_spec(&self, address: u16) -> MapperReadResult {
        if address <= PPU_MAX_ADDRESS {
            read_cart(address as u32)
        } else {
            read_none()
        }
    }

    open spec fn ppu_write_spec(&self, address: u16) -> Option<u32> {
        chr_ram_write(self.chr_banks, address)
    }

    open spec fn load_ok(&self, data: Seq<u8>) -> bool {
        true
    }

    open spec fn load_ram_spec(&self, data: Vec<u8>) -> Self {
        *self
    }

    open spec fn saved_state_spec(&self, data: MapperSaveData) -> bool {
        data matches MapperSaveData::Mapper002(d) && d.prg_banks == self.prg_banks
            && d.chr_banks == self.chr_banks && d.prg_bank_low == self.prg_bank_low
            && d.prg_bank_high == self.prg_bank_high && d.battery_backed_ram == self.battery_backed_ram
    }

    open spec fn saved_ram_spec(&self) -> Option<Seq<u8>> {
        None
    }

    fn reset(&mut self) {
        self.prg_bank_low = 0;
        self.prg_bank_high = self.prg_banks.wrapping_sub(1);
    }

    fn get_prg_banks(&self) -> u8 {
        self.prg_banks
    }

    fn get_chr_banks(&self) -> u8 {
        self.chr_banks
    }

    fn get_mirror(&self) -> Mirror {
        Mirror::Hardware
    }

    fn irq_active(&self) -> bool {
        false
    }

    fn irq_clear(&mut self) {
    }

    fn irq_scanline(&mut self) {
    }

    fn cpu_map_read(&self, address: u16) -> MapperReadResult {
        if CPU_MIN_ADDRESS <= address && address <= SWITCHABLE_ROM_BANK_MAX {
            let mapped_address = banked_address(self.prg_bank_low, KILOBYTES_16, address, KILOBYTES_16_MASK);
            MapperReadResult::from_cart_ram(mapped_address)
        } else if FIXED_BANK_MIN <= address {
            let mapped_address = banked_address(self.prg_bank_high, KILOBYTES_16, address, KILOBYTES_16_MASK);
            MapperReadResult::from_cart_ram(mapped_address)
        } else {
            MapperReadResult::none()
        }
    }

    fn cpu_map_write(&mut self, address: u16, data: u8) -> MapperWriteResult {
        if address >= CPU_MIN_ADDRESS {
            self.prg_bank_low = data & 0x0F;
        }
        MapperWriteResult::none()
    }

    fn ppu_map_read(&self, address: u16) -> MapperReadResult {
        if address <= PPU_MAX_ADDRESS {
            MapperReadResult::from_cart_ram(address as u32)
        } else {
            MapperReadResult::none()
        }
    }

    fn ppu_map_write(&mut self, address: u16, mapped_address: &mut u32, _data: u8) -> bool {
        if address > PPU_MAX_ADDRESS || self.get_chr_banks() != 0 {
            return false;
        }
        *mapped_address = address as u32;
        true
    }

    fn load_battery_backed_ram(&mut self, _data: Vec<u8>) {
    }

    fn save_battery_backed_ram(&self) -> Option<Vec<u8>> {
        None
    }

    fn save_state(&self) -> (r: MapperSaveData)
        ensures
            r matches MapperSaveData::Mapper002(d) && d.prg_banks == self.prg_banks
                && d.chr_banks == self.chr_banks && d.prg_bank_low == self.prg_bank_low
                && d.prg_bank_high == self.prg_bank_high && d.battery_backed_ram == self.battery_backed_ram,
    {
        MapperSaveData::Mapper002(Mapper002SaveData {
            prg_banks: self.prg_banks,
            chr_banks: self.chr_banks,
            prg_bank_low: self.prg_bank_low,
            prg_bank_high: self.prg_bank_high,
            battery_backed_ram: self.battery_backed_ram,
        })
    }
}

} // verus!
