use vstd::prelude::*;
use super::control_register::PrgBankMode;

verus! {

/// The MMC1 PRG bank registers.
#[derive(Clone, Copy, PartialEq, Eq, Structural, Debug)]
pub struct PrgBank {
    pub chunk_16_low: u8,
    pub chunk_32: u8,
    pub chunk_16_high: u8,
    pub prg_banks: u8,
}

impl PrgBank {
    /// Where a CPU address in $8000-$FFFF lands in PRG memory under `mode`.
    pub open spec fn mapped_address_spec(self, address: u16, mode: PrgBankMode) -> u32 {
        match mode {
            PrgBankMode::Switch32KB => ((self.chunk_32 as u32) * 0x8000 + ((address & 0x7FFF) as u32)) as u32,
            _ => {
                let select = if address <= 0xBFFF { self.chunk_16_low } else { self.chunk_16_high };
                ((select as u32) * 0x4000 + ((address & 0x3FFF) as u32)) as u32
            },
        }
    }

    /// The register contents after `reset`: the last bank is fixed at $C000.
    pub open spec fn reset_spec(self) -> PrgBank {
        PrgBank { chunk_16_low: 0, chunk_16_high: self.prg_banks.wrapping_sub(1), chunk_32: 0, ..self }
    }

    pub open spec fn write_spec(self, mode: PrgBankMode, data: u8) -> PrgBank {
        match mode {
            PrgBankMode::Switch32KB => PrgBank { chunk_32: (data & 0b1110) >> 1, ..self },
            PrgBankMode::FixFirst => PrgBank { chunk_16_low: 0, chunk_16_high: data & 0b1111, ..self },
            PrgBankMode::FixLast => PrgBank {
                chunk_16_low: data & 0b1111,
                chunk_16_high: self.prg_banks.wrapping_sub(1),
                ..self
            },
        }
    }

    pub fn new(prg_banks: u8) -> (r: Self)
        ensures
            r == (PrgBank { prg_banks, chunk_16_low: 0, chunk_16_high: 0, chunk_32: 0 }),
    {
        PrgBank { prg_banks, chunk_16_low: 0, chunk_16_high: 0, chunk_32: 0 }
    }

    /// `prg_banks - 1` wraps for a board without PRG banks.
    pub fn reset(&mut self)
        ensures
            *final(self) == old(self).reset_spec(),
    {
        self.chunk_16_low = 0;
        self.chunk_16_high = self.prg_banks.wrapping_sub(1);
        self.chunk_32 = 0;
    }

    /// The offset into PRG ROM of a CPU address in $8000-$FFFF (lower addresses have no bank).
    pub fn get_mapped_address(&self, address: u16, prg_mode: &PrgBankMode) -> (r: u32)
        requires
            address >= 0x8000,
        ensures
            r == self.mapped_address_spec(address, *prg_mode),
    {
        match prg_mode {
            PrgBankMode::Switch32KB => (self.chunk_32 as u32) * 0x8000 + ((address & 0x7FFF) as u32),
            _ => {
                let select_16 = if address <= 0xBFFF { self.chunk_16_low } else { self.chunk_16_high };
                (select_16 as u32) * 0x4000 + ((address & 0x3FFF) as u32)
            },
        }
    }

    pub fn write(&mut self, mode: &PrgBankMode, data: u8)
        ensures
            *final(self) == old(self).write_spec(*mode, data),
    {
        match mode {
            PrgBankMode::Switch32KB => self.chunk_32 = (data & 0b1110) >> 1,
            PrgBankMode::FixFirst => {
                self.chunk_16_low = 0;
                self.chunk_16_high = data & 0b1111;
            },
            PrgBankMode::FixLast => {
                self.chunk_16_low = data & 0b1111;
                self.chunk_16_high = self.prg_banks.wrapping_sub(1);
            },
        }
    }
}

} // verus!
