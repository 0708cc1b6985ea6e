use vstd::prelude::*;
use super::control_register::ChrBankMode;

verus! {

/// The MMC1 CHR bank registers.
#[derive(Clone, Copy, PartialEq, Eq, Structural, Debug)]
pub struct ChrBank {
    pub chunk_4_low: u8,
    pub chunk_4_high: u8,
    pub chunk_8: u8,
}

impl ChrBank {
    /// Where a PPU pattern address lands in CHR memory under `mode`.
    pub open spec fn mapped_address_spec(self, address: u16, mode: ChrBankMode) -> u32 {
        match mode {
            ChrBankMode::Switch8KB => ((self.chunk_8 as u32) * 0x2000 + ((address & 0x1FFF) as u32)) as u32,
            ChrBankMode::SwitchTwo4KB => {
                let select = if address <= 0x0FFF { self.chunk_4_low } else { self.chunk_4_high };
                ((select as u32) * 0x1000 + ((address & 0x0FFF) as u32)) as u32
            },
        }
    }

    pub open spec fn write_low_spec(self, mode: ChrBankMode, data: u8) -> ChrBank {
        match mode {
            ChrBankMode::Switch8KB => ChrBank { chunk_8: data & 0b11110, ..self },
            ChrBankMode::SwitchTwo4KB => ChrBank { chunk_4_low: data & 0b11111, ..self },
        }
    }

    pub open spec fn write_high_spec(self, mode: ChrBankMode, data: u8) -> ChrBank {
        match mode {
            ChrBankMode::Switch8KB => self,
            ChrBankMode::SwitchTwo4KB => ChrBank { chunk_4_high: data & 0b11111, ..self },
        }
    }

    pub fn new() -> (r: Self)
        ensures
            r == (ChrBank { chunk_4_low: 0, chunk_4_high: 0, chunk_8: 0 }),
    {
        ChrBank { chunk_4_low: 0, chunk_4_high: 0, chunk_8: 0 }
    }

    pub fn reset(&mut self)
        ensures
            *final(self) == (ChrBank { chunk_4_low: 0, chunk_4_high: 0, chunk_8: 0 }),
    {
        self.chunk_4_low = 0;
        self.chunk_4_high = 0;
        self.chunk_8 = 0;
    }

    /// The offset into CHR memory of a pattern-table address ($0000-$1FFF; others have no bank).
    pub fn get_mapped_address(&self, address: u16, mode: &ChrBankMode) -> (r: u32)
        requires
            address <= 0x1FFF,
        ensures
            r == self.mapped_address_spec(address, *mode),
    {
        match mode {
            ChrBankMode::Switch8KB => (self.chunk_8 as u32) * 0x2000 + ((address & 0x1FFF) as u32),
            ChrBankMode::SwitchTwo4KB => {
                let select_4 = if address <= 0x0FFF { self.chunk_4_low } else { self.chunk_4_high };
                (select_4 as u32) * 0x1000 + ((address & 0x0FFF) as u32)
            },
        }
    }

    pub fn write_low(&mut self, mode: &ChrBankMode, data: u8)
        ensures
            *final(self) == old(self).write_low_spec(*mode, data),
    {
        match mode {
            ChrBankMode::Switch8KB => self.chunk_8 = data & 0b11110,
            ChrBankMode::SwitchTwo4KB => self.chunk_4_low = data & 0b11111,
        }
    }

    pub fn write_high(&mut self, mode: &ChrBankMode, data: u8)
        ensures
            *final(self) == old(self).write_high_spec(*mode, data),
    {
        match mode {
            ChrBankMode::Switch8KB => {},
            ChrBankMode::SwitchTwo4KB => self.chunk_4_high = data & 0b11111,
        }
    }
}

} // verus!
