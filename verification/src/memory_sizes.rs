use vstd::prelude::*;

verus! {

pub const KILOBYTES_1: u16 = 0x0400;
pub const KILOBYTES_1_MASK: u16 = 0x03FF;
pub const KILOBYTES_4: u16 = 0x1000;
pub const KILOBYTES_4_MASK: u16 = 0x0FFF;
pub const KILOBYTES_8: u16 = 0x2000;
pub const KILOBYTES_8_MASK: u16 = 0x1FFF;
pub const KILOBYTES_16: u16 = 0x4000;
pub const KILOBYTES_16_MASK: u16 = 0x3FFF;
pub const KILOBYTES_32: u16 = 0x8000;
pub const KILOBYTES_32_MASK: u16 = 0x7FFF;

} // verus!
