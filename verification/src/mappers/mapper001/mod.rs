pub mod chr_bank;
pub mod control_register;
pub mod mapper001;
pub mod prg_bank;
pub mod shift_register;

use vstd::prelude::*;

verus! {

pub const CHR_ROM_FIRST_BANK_LOWER: u16 = 0x0000;
pub const CHR_ROM_FIRST_BANK_UPPER: u16 = 0x0FFF;
pub const CHR_ROM_LAST_BANK_LOWER: u16 = 0x1000;
pub const CHR_ROM_LAST_BANK_UPPER: u16 = 0x1FFF;
pub const OPTIONAL_RAM_ADDRESS_LOWER: u16 = 0x6000;
pub const OPTIONAL_RAM_ADDRESS_UPPER: u16 = 0x7FFF;
pub const PRG_ROM_FIRST_BANK_LOWER: u16 = 0x8000;
pub const PRG_ROM_FIRST_BANK_UPPER: u16 = 0xBFFF;
pub const PRG_ROM_LAST_BANK_LOWER: u16 = 0xC000;
pub const PRG_ROM_LAST_BANK_UPPER: u16 = 0xFFFF;
pub const RAM_ADDRESS_MASK: u16 = 0x1FFF;

/// Size of the MMC1 work RAM.
pub const RAM_SIZE: usize = 32768;

} // verus!
