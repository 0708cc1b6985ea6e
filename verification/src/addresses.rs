use vstd::prelude::*;

verus! {

// CPU
pub const CPU_ADDRESS_UPPER: u16 = 0x1FFF;

// Pattern
pub const PATTERN_ADDRESS_UPPER: u16 = 0x1FFF;

// Name table
pub const NAME_TABLE_ADDRESS_LOWER: u16 = 0x2000;
pub const NAME_TABLE_ADDRESS_UPPER: u16 = 0x3EFF;

// Palette
pub const PALETTE_ADDRESS_LOWER: u16 = 0x3F00;
pub const PALETTE_ADDRESS_UPPER: u16 = 0x3FFF;

// Attribute table
pub const ATTRIBUTE_TABLE_ADDRESS_LOWER: u16 = 0x23C0;

// PPU
pub const PPU_ADDRESS_START: u16 = 0x2000;
pub const PPU_ADDRESS_END: u16 = 0x3FFF;
pub const PPU_ADDRESS_RANGE: u16 = 0x0007;

// Controls
pub const CONTROLLER_ONE_INPUT: u16 = 0x4016;
pub const CONTROLLER_TWO_INPUT: u16 = 0x4017;

// Direct Memory Access
pub const DMA_ADDRESS: u16 = 0x4014;

// Audio
pub const APU_PULSE_1_DUTY: u16 = 0x4000;
pub const APU_PULSE_1_SWEEP: u16 = 0x4001;
pub const APU_PULSE_1_TIMER_LOW: u16 = 0x4002;
pub const APU_PULSE_1_TIMER_HIGH: u16 = 0x4003;
pub const APU_PULSE_2_DUTY: u16 = 0x4004;
pub const APU_PULSE_2_SWEEP: u16 = 0x4005;
pub const APU_PULSE_2_TIMER_LOW: u16 = 0x4006;
pub const APU_PULSE_2_TIMER_HIGH: u16 = 0x4007;
pub const APU_TRIANGLE_COUNTER_RELOAD: u16 = 0x4008;
pub const APU_TRIANGLE_TIMER_LOW: u16 = 0x400A;
pub const APU_TRIANGLE_TIMER_HIGH: u16 = 0x400B;
pub const APU_NOISE_VOLUME: u16 = 0x400C;
pub const APU_NOISE_PERIOD: u16 = 0x400E;
pub const APU_NOISE_COUNTER_LOAD: u16 = 0x400F;
pub const APU_DMC_FLAGS_RATE: u16 = 0x4010;
pub const APU_DMC_DIRECT_LOAD: u16 = 0x4011;
pub const APU_DMC_SAMPLE_ADDRESS: u16 = 0x4012;
pub const APU_DMC_SAMPLE_LENGTH: u16 = 0x4013;
pub const APU_STATUS: u16 = 0x4015;
pub const APU_FRAME_COUNTER: u16 = 0x4017;

// Cartridge space, as seen by the mappers
pub const CPU_MIN_ADDRESS: u16 = 0x8000;
pub const CPU_MAX_ADDRESS: u16 = 0xFFFF;
pub const PPU_MIN_ADDRESS: u16 = 0x0000;
pub const PPU_MAX_ADDRESS: u16 = 0x1FFF;

/// The device of the CPU bus that an address belongs to.
#[derive(Clone, Copy, PartialEq, Eq, Structural, Debug)]
pub enum AddressRange {
    Cpu,
    Ppu,
    Dma,
    Apu,
    Controller,
    Unknown,
}

pub open spec fn address_range(address: u16) -> AddressRange {
    if address <= CPU_ADDRESS_UPPER {
        AddressRange::Cpu
    } else if PPU_ADDRESS_START <= address <= PPU_ADDRESS_END {
        AddressRange::Ppu
    } else if address == DMA_ADDRESS {
        AddressRange::Dma
    } else if (APU_PULSE_1_DUTY <= address <= APU_DMC_SAMPLE_LENGTH) || address == APU_STATUS
        || address == APU_FRAME_COUNTER {
        AddressRange::Apu
    } else if address == CONTROLLER_ONE_INPUT {
        AddressRange::Controller
    } else {
        AddressRange::Unknown
    }
}

pub fn get_address_range(address: u16) -> (r: AddressRange)
    ensures
        r == address_range(address),
{
    if address <= CPU_ADDRESS_UPPER {
        AddressRange::Cpu
    } else if PPU_ADDRESS_START <= address && address <= PPU_ADDRESS_END {
        AddressRange::Ppu
    } else if address == DMA_ADDRESS {
        AddressRange::Dma
    } else if (APU_PULSE_1_DUTY <= address && address <= APU_DMC_SAMPLE_LENGTH) || address == APU_STATUS
        || address == APU_FRAME_COUNTER {
        AddressRange::Apu
    } else if address == CONTROLLER_ONE_INPUT {
        AddressRange::Controller
    } else {
        AddressRange::Unknown
    }
}

} // verus!
