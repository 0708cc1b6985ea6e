use vstd::prelude::*;

verus! {

/// Outcome of asking a mapper where a read goes.
#[derive(Clone, Copy, PartialEq, Eq, Structural, Debug)]
pub struct MapperReadResult {
    pub data: u8,
    pub mapped_address: u32,
    pub read_from_cart_ram: bool,
    pub read_from_mapper_ram: bool,
}

/// The read is served by the cartridge memory at `mapped_address`.
pub open spec fn read_cart(mapped_address: u32) -> MapperReadResult {
    MapperReadResult { data: 0, mapped_address, read_from_cart_ram: true, read_from_mapper_ram: false }
}

/// The read is served by the mapper's own RAM, which produced `data`.
pub open spec fn read_mapper(data: u8) -> MapperReadResult {
    MapperReadResult { data, mapped_address: 0, read_from_cart_ram: false, read_from_mapper_ram: true }
}

/// The mapper does not serve the read.
pub open spec fn read_none() -> MapperReadResult {
    MapperReadResult { data: 0, mapped_address: 0, read_from_cart_ram: false, read_from_mapper_ram: false }
}

impl MapperReadResult {
    pub fn from_cart_ram(mapped_address: u32) -> (r: Self)
        ensures
            r == read_cart(mapped_address),
    {
        MapperReadResult { data: 0, mapped_address, read_from_cart_ram: true, read_from_mapper_ram: false }
    }

    pub fn from_mapper_ram(data: u8) -> (r: Self)
        ensures
            r == read_mapper(data),
    {
        MapperReadResult { data, mapped_address: 0, read_from_cart_ram: false, read_from_mapper_ram: true }
    }

    pub fn none() -> (r: Self)
        ensures
            r == read_none(),
    {
        MapperReadResult { data: 0, mapped_address: 0, read_from_cart_ram: false, read_from_mapper_ram: false }
    }
}

/// Outcome of a CPU write handed to a mapper.
#[derive(Clone, Copy, PartialEq, Eq, Structural, Debug)]
pub struct MapperWriteResult {
    pub handled: bool,
    pub mapped_address: u32,
    pub write_to_cart_ram: bool,
}

/// The mapper consumed the write without touching cartridge memory.
pub open spec fn write_handled() -> MapperWriteResult {
    MapperWriteResult { handled: true, mapped_address: 0, write_to_cart_ram: false }
}

/// The write goes to cartridge memory at `mapped_address`.
pub open spec fn write_cart(mapped_address: u32) -> MapperWriteResult {
    MapperWriteResult { handled: true, mapped_address, write_to_cart_ram: true }
}

/// The mapper consumed the write; `mapped_address` is informative only.
pub open spec fn write_mapped(mapped_address: u32) -> MapperWriteResult {
    MapperWriteResult { handled: true, mapped_address, write_to_cart_ram: false }
}

/// The mapper does not claim the write.
pub open spec fn write_none() -> MapperWriteResult {
    MapperWriteResult { handled: false, mapped_address: 0, write_to_cart_ram: false }
}

impl MapperWriteResult {
    pub fn handled() -> (r: Self)
        ensures
            r == write_handled(),
    {
        MapperWriteResult { handled: true, mapped_address: 0, write_to_cart_ram: false }
    }

    pub fn write_to_cart_ram(mapped_address: u32) -> (r: Self)
        ensures
            r == write_cart(mapped_address),
    {
        MapperWriteResult { handled: true, mapped_address, write_to_cart_ram: true }
    }

    pub fn with_mapped_address(mapped_address: u32) -> (r: Self)
        ensures
            r == write_mapped(mapped_address),
    {
        MapperWriteResult { handled: true, mapped_address, write_to_cart_ram: false }
    }

    pub fn none() -> (r: Self)
        ensures
            r == write_none(),
    {
        MapperWriteResult { handled: false, mapped_address: 0, write_to_cart_ram: false }
    }
}

} // verus!
