use vstd::prelude::*;
use super::{PpuView, PPU_ADDRESS, PPU_DATA, STATUS, palette_index, lemma_address_fields, name_table_of};
use crate::mappers::mapper::Mapper;

verus! {

proof fn lemma_address_bytes(t: u16, high: u8, low: u8, status: u8, buffer: u8)
    by (bit_vector)
    ensures
        ((status & 0xE0) | (buffer & 0x1F)) & 0x80 == status & 0x80,
        (status & !0x80u8) & 0x80 == 0,
        ((((t & !0x7F00u16) | (((high & 0x3F) as u16) << 8u16)) & 0xFF00) | (low as u16))
            == (t & 0x8000) | (((high & 0x3F) as u16) << 8u16) | (low as u16),
{
}

/// Two writes to PPUADDR, high byte first, set the VRAM address: the high byte's low six
/// bits, then the low byte (bit 15 of the temporary address is kept as it was). The write
/// toggle is left ready for the next pair.
pub proof fn lemma_ppu_address_writes(s: PpuView, high: u8, low: u8)
    requires
        !s.address_latch,
    ensures
        ({
            let s2 = s.cpu_write_spec(PPU_ADDRESS, high).cpu_write_spec(PPU_ADDRESS, low);
            &&& s2.current_vram_address == (s.temp_vram_address & 0x8000) | (((high & 0x3F) as u16) << 8u16) | (low as u16)
            &&& s2.temp_vram_address == s2.current_vram_address
            &&& !s2.address_latch
        }),
{
    lemma_address_bytes(s.temp_vram_address, high, low, 0, 0);
}

/// Reading PPUSTATUS reports the vertical blank flag and clears it, and resets the write
/// toggle, so that the next PPUADDR write is taken as a high byte.
pub proof fn lemma_status_read_resets_toggle(s: PpuView, high: u8, low: u8)
    ensures
        s.cpu_read_spec(STATUS).1 & 0x80 == s.status & 0x80,
        s.cpu_read_spec(STATUS).0.status & 0x80 == 0,
        !s.cpu_read_spec(STATUS).0.address_latch,
        ({
            let s1 = s.cpu_read_spec(STATUS).0;
            s1.cpu_write_spec(PPU_ADDRESS, high).cpu_write_spec(PPU_ADDRESS, low).current_vram_address
                == (s.temp_vram_address & 0x8000) | (((high & 0x3F) as u16) << 8u16) | (low as u16)
        }),
{
    let s1 = s.cpu_read_spec(STATUS).0;
    lemma_ppu_address_writes(s1, high, low);
    lemma_address_bytes(s.temp_vram_address, high, low, s.status, s.ppu_data_buffer);
}

/// Palette memory mirrors: a byte written at any palette address is read back at every
/// palette address that reaches the same entry ($3F10/$3F14/$3F18/$3F1C share their entry
/// with $3F00/$3F04/$3F08/$3F0C, and $3F20-$3FFF repeat $3F00-$3F1F), whatever cartridge
/// is plugged in.
pub proof fn lemma_palette_read_after_write(s: PpuView, a: u16, b: u16, data: u8)
    requires
        s.wf(),
        0x3F00 <= a <= 0x3FFF,
        0x3F00 <= b <= 0x3FFF,
        palette_index(a) == palette_index(b),
    ensures
        s.ppu_write_spec(a, data).ppu_read_spec(b) == data,
{
    lemma_address_fields(a);
    lemma_address_fields(b);
    match s.cartridge {
        Some(c) => match c.mapper {
            Some(m) => {
                m.lemma_ppu_addresses(a);
                m.lemma_ppu_addresses(b);
                assert(c.ppu_write_spec(a, data) == (c, false));
            },
            None => {},
        },
        None => {},
    }
}

/// The raster position as a dot count from the start of the pre-render line.
pub open spec fn raster_index(s: PpuView) -> int {
    (s.scanline + 1) * 341 + s.cycle
}

/// NTSC timing: the PPU walks 262 lines (the pre-render line -1, then 0 to 260) of 341
/// dots, one dot a clock, and a frame completes each time the walk wraps around.
pub proof fn lemma_ntsc_raster(s: PpuView)
    requires
        s.wf(),
    ensures
        0 <= raster_index(s) < 341 * 262int,
        raster_index(s.clock_spec()) == (raster_index(s) + 1) % (341 * 262int),
        s.clock_spec().frame_complete == (s.frame_complete || raster_index(s) + 1 == 341 * 262int),
{
}

/// PPUDATA reads below the palette are delayed by one: a read returns the byte the previous
/// read fetched, so the second of two reads returns the byte at the first read's address.
pub proof fn lemma_ppu_data_read_is_delayed(s: PpuView)
    requires
        s.current_vram_address + s.address_increment() <= 0x3F00,
    ensures
        s.cpu_read_spec(PPU_DATA).1 == s.ppu_data_buffer,
        s.cpu_read_spec(PPU_DATA).0.cpu_read_spec(PPU_DATA).1 == s.ppu_read_spec(s.current_vram_address),
{
}

proof fn lemma_name_table_bits(a: u16)
    by (bit_vector)
    requires
        0x2000 <= a <= 0x3EFF,
    ensures
        a & 0x3FFF == a,
        (a & 0x0FFF) & 0x03FF == a & 0x03FF,
{
}

/// Name-table memory reads back what was written: a byte written at a PPU address in
/// $2000-$3EFF is read back at every address there that the board's mirroring sends to
/// the same table and offset (with vertical mirroring $2400 and $2C00, with horizontal
/// $2400 and $2000), and the other name-table addresses read as before.
pub proof fn lemma_name_table_read_after_write(v: PpuView, a: u16, b: u16, data: u8)
    requires
        v.wf(),
        v.cartridge is Some,
        0x2000 <= a <= 0x3EFF,
        0x2000 <= b <= 0x3EFF,
    ensures
        ({
            let mirror = v.cartridge.unwrap().mirror;
            let ka = name_table_of(mirror, a & 0x0FFF);
            let kb = name_table_of(mirror, b & 0x0FFF);
            &&& ka is Some && ka == kb && a & 0x03FF == b & 0x03FF ==> v.ppu_write_spec(a, data).ppu_read_spec(b) == data
            &&& !(ka is Some && ka == kb && a & 0x03FF == b & 0x03FF) ==> v.ppu_write_spec(a, data).ppu_read_spec(b) == v.ppu_read_spec(b)
        }),
{
    lemma_name_table_bits(a);
    lemma_name_table_bits(b);
    lemma_address_fields(a);
    lemma_address_fields(b);
    let c = v.cartridge.unwrap();
    match c.mapper {
        Some(m) => {
            m.lemma_ppu_addresses(a);
            m.lemma_ppu_addresses(b);
        },
        None => {},
    }
}

proof fn lemma_vertical_blank_bit(status: u8)
    by (bit_vector)
    ensures
        (status | 0x80) & 0x80 != 0,
        (status & !0x80u8) & 0x80 == 0,
{
}

/// Vertical blank and its interrupt: a clock at line 241, dot 1 sets the vertical blank
/// bit of PPUSTATUS and raises the NMI output exactly when bit 7 of PPUCTRL is set (an NMI
/// already raised stays raised); a clock at the pre-render line, dot 1, clears the
/// vertical blank bit; every other clock leaves the NMI output as it was.
pub proof fn lemma_vertical_blank_nmi(s: PpuView)
    ensures
        s.clock_spec().nmi == (if s.scanline == 241 && s.cycle == 1 { s.nmi || s.control & 0x80 != 0 } else { s.nmi }),
        s.scanline == 241 && s.cycle == 1 ==> s.clock_spec().status & 0x80 != 0,
        s.scanline == -1 && s.cycle == 1 ==> s.clock_spec().status & 0x80 == 0,
{
    lemma_vertical_blank_bit(s.status);
}

} // verus!
