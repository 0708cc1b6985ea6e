use vstd::prelude::*;

pub mod addresses;
pub mod audio;
pub mod bus;
pub mod cartridge;
pub mod controller;
pub mod cpu;
pub mod frame;
pub mod mappers;
pub mod memory;
pub mod memory_sizes;
pub mod nes;
pub mod ppu;

verus! {

} // verus!
