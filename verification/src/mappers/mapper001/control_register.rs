use vstd::prelude::*;
use crate::cartridge::mirror::Mirror;

verus! {

/// The MMC1 control register.
/// Bits 1..0: mirroring; bits 3..2: PRG bank mode; bit 4: CHR bank mode.
#[derive(Clone, Copy, PartialEq, Eq, Structural, Debug)]
pub struct ControlRegister(pub u8);

/// How the 32 KB PRG window at $8000 is banked.
#[derive(Clone, Copy, PartialEq, Eq, Structural, Debug)]
pub enum PrgBankMode {
    /// switch 32 KB at $8000, ignoring low bit of bank number
    Switch32KB,
    /// fix first bank at $8000 and switch 16 KB bank at $C000
    FixFirst,
    /// fix last bank at $C000 and switch 16 KB bank at $8000
    FixLast,
}

/// How the 8 KB CHR window is banked.
#[derive(Clone, Copy, PartialEq, Eq, Structural, Debug)]
pub enum ChrBankMode {
    /// switch 8 KB at a time
    Switch8KB,
    /// switch two separate 4 KB banks
    SwitchTwo4KB,
}

pub open spec fn mirror_of(value: u8) -> Mirror {
    let bits = value & 0b11;
    if bits == 0 {
        Mirror::OneScreenLow
    } else if bits == 1 {
        Mirror::OneScreenHigh
    } else if bits == 2 {
        Mirror::Vertical
    } else {
        Mirror::Horizontal
    }
}

pub open spec fn prg_mode_of(value: u8) -> PrgBankMode {
    let bits = (value >> 2) & 0b11;
    if bits <= 1 {
        PrgBankMode::Switch32KB
    } else if bits == 2 {
        PrgBankMode::FixFirst
    } else {
        PrgBankMode::FixLast
    }
}

pub open spec fn chr_mode_of(value: u8) -> ChrBankMode {
    if value & 0b10000 == 0 {
        ChrBankMode::Switch8KB
    } else {
        ChrBankMode::SwitchTwo4KB
    }
}

impl ControlRegister {
    /// Bits 1..0.
    pub fn mirror(&self) -> (r: u8)
        ensures
            r == self.0 & 0b11,
    {
        self.0 & 0b11
    }

    /// Replace bits 1..0 by the low two bits of `value`.
    pub fn set_mirror(&mut self, value: u8)
        ensures
            final(self).0 == (old(self).0 & !0b11u8) | (value & 0b11),
    {
        self.0 = (self.0 & !0b11u8) | (value & 0b11);
    }

    /// Bits 3..2.
    pub fn prg_mode(&self) -> (r: u8)
        ensures
            r == (self.0 >> 2) & 0b11,
    {
        (self.0 >> 2) & 0b11
    }

    /// Replace bits 3..2 by the low two bits of `value`.
    pub fn set_prg_mode(&mut self, value: u8)
        ensures
            final(self).0 == (old(self).0 & !0b1100u8) | ((value & 0b11) << 2u8),
    {
        self.0 = (self.0 & !0b1100u8) | ((value & 0b11) << 2u8);
    }

    /// Bit 4.
    pub fn chr_mode(&self) -> (r: bool)
        ensures
            r == (self.0 & 0b10000 != 0),
    {
        self.0 & 0b10000 != 0
    }

    /// Replace bit 4.
    pub fn set_chr_mode(&mut self, value: bool)
        ensures
            final(self).0 == if value { old(self).0 | 0b10000 } else { old(self).0 & !0b10000u8 },
    {
        if value {
            self.0 = self.0 | 0b10000;
        } else {
            self.0 = self.0 & !0b10000u8;
        }
    }

    /// Bits 4..0.
    pub fn get(&self) -> (r: u8)
        ensures
            r == self.0 & 0b11111,
    {
        self.0 & 0b11111
    }

    /// Replace bits 4..0 by the low five bits of `value`.
    pub fn set(&mut self, value: u8)
        ensures
            final(self).0 == (old(self).0 & !0b11111u8) | (value & 0b11111),
    {
        self.0 = (self.0 & !0b11111u8) | (value & 0b11111);
    }

    pub fn get_mirror(&self) -> (r: Mirror)
        ensures
            r == mirror_of(self.0),
    {
        match self.mirror() {
            0 => Mirror::OneScreenLow,
            1 => Mirror::OneScreenHigh,
            2 => Mirror::Vertical,
            _ => Mirror::Horizontal,
        }
    }

    pub fn get_prg_mode(&self) -> (r: PrgBankMode)
        ensures
            r == prg_mode_of(self.0),
    {
        match self.prg_mode() {
            0 => PrgBankMode::Switch32KB,
            1 => PrgBankMode::Switch32KB,
            2 => PrgBankMode::FixFirst,
            _ => PrgBankMode::FixLast,
        }
    }

    pub fn get_chr_mode(&self) -> (r: ChrBankMode)
        ensures
            r == chr_mode_of(self.0),
    {
        if self.chr_mode() {
            ChrBankMode::SwitchTwo4KB
        } else {
            ChrBankMode::Switch8KB
        }
    }

    /// Load the five-bit value shifted in through the serial port.
    pub fn write(&mut self, data: u8)
        ensures
            final(self).0 == (old(self).0 & 0b1110_0000) | (data & 0b1_1111),
    {
        let ghost d = data;
        let ghost o = self.0;
        self.set_mirror(data & 0b11);
        self.set_prg_mode((data & 0b1100) >> 2);
        self.set_chr_mode(((data & 0b10000) >> 4) != 0);
        let ghost o1 = (o & !0b11u8) | ((d & 0b11) & 0b11);
        let ghost o2 = (o1 & !0b1100u8) | ((((d & 0b1100) >> 2u8) & 0b11) << 2u8);
        assert((if ((d & 0b10000) >> 4u8) != 0 { o2 | 0b10000 } else { o2 & !0b10000u8 })
            == (o & 0b1110_0000) | (d & 0b1_1111)) by (bit_vector)
            requires
                o1 == (o & !0b11u8) | ((d & 0b11) & 0b11),
                o2 == (o1 & !0b1100u8) | ((((d & 0b1100) >> 2u8) & 0b11) << 2u8),
        ;
    }
}

} // verus!
