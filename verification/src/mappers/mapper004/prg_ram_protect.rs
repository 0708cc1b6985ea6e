use vstd::prelude::*;

verus! {

/// The MMC3 PRG RAM protect register ($A001).
#[derive(Clone, Copy, PartialEq, Eq, Structural, Debug)]
pub struct PrgRamProtect {
    pub enable_chip: bool,
    pub allow_writes: bool,
}

impl PrgRamProtect {
    pub fn new() -> (r: Self)
        ensures
            r == (PrgRamProtect { enable_chip: false, allow_writes: true }),
    {
        PrgRamProtect { enable_chip: false, allow_writes: true }
    }

    /// Bit 6 set denies writes; bit 7 set enables the chip.
    pub fn set_data(&mut self, data: u8)
        ensures
            *final(self) == (PrgRamProtect {
                allow_writes: data & 0b0100_0000 == 0,
                enable_chip: data & 0b1000_0000 != 0,
            }),
    {
        self.allow_writes = data & 0b0100_0000 == 0;
        self.enable_chip = data & 0b1000_0000 != 0;
    }
}

} // verus!
