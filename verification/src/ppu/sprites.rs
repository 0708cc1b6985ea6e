use vstd::prelude::*;

verus! {

/// The state of an OAM DMA transfer: the CPU page being copied, the next byte of it, and
/// the byte in flight.
#[derive(Clone, Copy, PartialEq, Eq, Structural, Debug)]
pub struct DirectMemoryAccess {
    pub page: u8,
    pub address: u8,
    pub data: u8,
}

impl Default for DirectMemoryAccess {
    fn default() -> (r: Self)
        ensures
            r == (DirectMemoryAccess { page: 0, address: 0, data: 0 }),
    {
        DirectMemoryAccess { page: 0, address: 0, data: 0 }
    }
}

} // verus!
