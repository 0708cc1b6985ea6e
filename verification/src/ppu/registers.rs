use vstd::prelude::*;

verus! {

/// Bits of the PPUCTRL register ($2000).
#[derive(Clone, Copy, PartialEq, Eq, Structural, Debug)]
pub enum Control2C02 {
    /// Base nametable address (0 = $2000; 1 = $2400; 2 = $2800; 3 = $2C00)
    NameTableAddress,
    /// VRAM address increment per CPU read/write of PPUDATA (0: add 1, going across; 1: add 32, going down)
    VramAddress,
    /// Sprite pattern table address for 8x8 sprites (0: $0000; 1: $1000; ignored in 8x16 mode)
    SpriteTableAddress,
    /// Background pattern table address (0: $0000; 1: $1000)
    BackgroundTableAddress,
    /// (0: 8x8 pixels; 1: 8x16 pixels)
    SpriteSize,
    /// PPU master/slave select (0: read backdrop from EXT pins; 1: output color on EXT pins)
    PpuMasterSlaveSelect,
    /// Generate an NMI at the start of the vertical blanking interval (0: off; 1: on)
    GenerateNmi,
}

pub open spec fn control_mask(c: Control2C02) -> u8 {
    match c {
        Control2C02::NameTableAddress => 0b0000_0011,
        Control2C02::VramAddress => 0b0000_0100,
        Control2C02::SpriteTableAddress => 0b0000_1000,
        Control2C02::BackgroundTableAddress => 0b0001_0000,
        Control2C02::SpriteSize => 0b0010_0000,
        Control2C02::PpuMasterSlaveSelect => 0b0100_0000,
        Control2C02::GenerateNmi => 0b1000_0000,
    }
}

impl Control2C02 {
    /// The bits of PPUCTRL that this field occupies.
    pub fn mask(self) -> (r: u8)
        ensures
            r == control_mask(self),
    {
        match self {
            Control2C02::NameTableAddress => 0b0000_0011,
            Control2C02::VramAddress => 0b0000_0100,
            Control2C02::SpriteTableAddress => 0b0000_1000,
            Control2C02::BackgroundTableAddress => 0b0001_0000,
            Control2C02::SpriteSize => 0b0010_0000,
            Control2C02::PpuMasterSlaveSelect => 0b0100_0000,
            Control2C02::GenerateNmi => 0b1000_0000,
        }
    }
}

/// Bits of the PPUMASK register ($2001).
#[derive(Clone, Copy, PartialEq, Eq, Structural, Debug)]
pub enum Mask2C02 {
    /// Greyscale (0: normal color, 1: produce a greyscale display)
    Greyscale,
    /// Show background in leftmost 8 pixels of screen, 0: Hide
    RenderBackgroundLeft,
    /// Show sprites in leftmost 8 pixels of screen, 0: Hide
    RenderSpriteLeft,
    /// Show background
    RenderBackground,
    /// Show sprites
    RenderSprite,
    EmphasizeRed,
    EmphasizeGreen,
    EMphasizeBlue,
}

pub open spec fn mask_bits(m: Mask2C02) -> u8 {
    match m {
        Mask2C02::Greyscale => 0b0000_0001,
        Mask2C02::RenderBackgroundLeft => 0b0000_0010,
        Mask2C02::RenderSpriteLeft => 0b0000_0100,
        Mask2C02::RenderBackground => 0b0000_1000,
        Mask2C02::RenderSprite => 0b0001_0000,
        Mask2C02::EmphasizeRed => 0b0010_0000,
        Mask2C02::EmphasizeGreen => 0b0100_0000,
        Mask2C02::EMphasizeBlue => 0b1000_0000,
    }
}

impl Mask2C02 {
    /// The bit of PPUMASK that this field occupies.
    pub fn mask(self) -> (r: u8)
        ensures
            r == mask_bits(self),
    {
        match self {
            Mask2C02::Greyscale => 0b0000_0001,
            Mask2C02::RenderBackgroundLeft => 0b0000_0010,
            Mask2C02::RenderSpriteLeft => 0b0000_0100,
            Mask2C02::RenderBackground => 0b0000_1000,
            Mask2C02::RenderSprite => 0b0001_0000,
            Mask2C02::EmphasizeRed => 0b0010_0000,
            Mask2C02::EmphasizeGreen => 0b0100_0000,
            Mask2C02::EMphasizeBlue => 0b1000_0000,
        }
    }
}

/// Bits of the PPUSTATUS register ($2002).
#[derive(Clone, Copy, PartialEq, Eq, Structural, Debug)]
pub enum Status2C02 {
    Unused,
    SpriteOverflow,
    SpriteZeroHit,
    VerticalBlank,
}

pub open spec fn status_mask(s: Status2C02) -> u8 {
    match s {
        Status2C02::Unused => 0b0001_1111,
        Status2C02::SpriteOverflow => 0b0010_0000,
        Status2C02::SpriteZeroHit => 0b0100_0000,
        Status2C02::VerticalBlank => 0b1000_0000,
    }
}

impl Status2C02 {
    /// The bits of PPUSTATUS that this field occupies.
    pub fn mask(self) -> (r: u8)
        ensures
            r == status_mask(self),
    {
        match self {
            Status2C02::Unused => 0b0001_1111,
            Status2C02::SpriteOverflow => 0b0010_0000,
            Status2C02::SpriteZeroHit => 0b0100_0000,
            Status2C02::VerticalBlank => 0b1000_0000,
        }
    }
}

/// The fields of a VRAM address ("loopy" register): coarse X and Y scroll, nametable
/// select and fine Y scroll, bit by bit.
#[derive(Clone, Copy, PartialEq, Eq, Structural, Debug)]
pub enum ScrollAddress {
    CoarseX0,
    CoarseX1,
    CoarseX2,
    CoarseX3,
    CoarseX4,
    CoarseY0,
    CoarseY1,
    CoarseY2,
    CoarseY3,
    CoarseY4,
    NameTableSelect0,
    NameTableSelect1,
    FineYScroll0,
    FineYScroll1,
    FineYScroll2,
}

pub open spec fn scroll_mask(s: ScrollAddress) -> u16 {
    match s {
        ScrollAddress::CoarseX0 => 0x0001,
        ScrollAddress::CoarseX1 => 0x0002,
        ScrollAddress::CoarseX2 => 0x0004,
        ScrollAddress::CoarseX3 => 0x0008,
        ScrollAddress::CoarseX4 => 0x0010,
        ScrollAddress::CoarseY0 => 0x0020,
        ScrollAddress::CoarseY1 => 0x0040,
        ScrollAddress::CoarseY2 => 0x0080,
        ScrollAddress::CoarseY3 => 0x0100,
        ScrollAddress::CoarseY4 => 0x0200,
        ScrollAddress::NameTableSelect0 => 0x0400,
        ScrollAddress::NameTableSelect1 => 0x0800,
        ScrollAddress::FineYScroll0 => 0x1000,
        ScrollAddress::FineYScroll1 => 0x2000,
        ScrollAddress::FineYScroll2 => 0x4000,
    }
}

impl ScrollAddress {
    /// The bit of a VRAM address that this field occupies.
    pub fn mask(self) -> (r: u16)
        ensures
            r == scroll_mask(self),
    {
        match self {
            ScrollAddress::CoarseX0 => 0x0001,
            ScrollAddress::CoarseX1 => 0x0002,
            ScrollAddress::CoarseX2 => 0x0004,
            ScrollAddress::CoarseX3 => 0x0008,
            ScrollAddress::CoarseX4 => 0x0010,
            ScrollAddress::CoarseY0 => 0x0020,
            ScrollAddress::CoarseY1 => 0x0040,
            ScrollAddress::CoarseY2 => 0x0080,
            ScrollAddress::CoarseY3 => 0x0100,
            ScrollAddress::CoarseY4 => 0x0200,
            ScrollAddress::NameTableSelect0 => 0x0400,
            ScrollAddress::NameTableSelect1 => 0x0800,
            ScrollAddress::FineYScroll0 => 0x1000,
            ScrollAddress::FineYScroll1 => 0x2000,
            ScrollAddress::FineYScroll2 => 0x4000,
        }
    }
}

/// `word` with the bits of `mask` set when `value` holds, cleared otherwise.
pub open spec fn with_bits(word: u16, mask: u16, value: bool) -> u16 {
    if value {
        word | mask
    } else {
        word & !mask
    }
}

} // verus!
