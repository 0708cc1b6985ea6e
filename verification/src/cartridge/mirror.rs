use vstd::prelude::*;

verus! {

/// Name table mirroring arrangement of a cartridge.
/// `Hardware` means: use the arrangement soldered on the cartridge board (from the iNES header).
#[derive(Clone, Copy, PartialEq, Eq, Structural, Debug)]
pub enum Mirror {
    Hardware,
    Horizontal,
    Vertical,
    OneScreenLow,
    OneScreenHigh,
}

} // verus!
