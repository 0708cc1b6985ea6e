use vstd::prelude::*;

verus! {

/// The 16-byte header of an iNES file.
#[derive(Clone, Copy, Debug)]
pub struct CartridgeHeader {
    pub name: [u8; 4],
    pub prg_rom_chunks: u8,
    pub chr_rom_chunks: u8,
    pub mapper_1: u8,
    pub mapper_2: u8,
    pub prg_ram_size: u8,
    pub tv_system_1: u8,
    pub tv_system_2: u8,
    pub unused: [u8; 5],
}

impl CartridgeHeader {
    /// The header as it is laid out in the first sixteen bytes of `bytes`.
    pub open spec fn parse(bytes: Seq<u8>) -> CartridgeHeader {
        CartridgeHeader {
            name: [bytes[0], bytes[1], bytes[2], bytes[3]],
            prg_rom_chunks: bytes[4],
            chr_rom_chunks: bytes[5],
            mapper_1: bytes[6],
            mapper_2: bytes[7],
            prg_ram_size: bytes[8],
            tv_system_1: bytes[9],
            tv_system_2: bytes[10],
            unused: [bytes[11], bytes[12], bytes[13], bytes[14], bytes[15]],
        }
    }

    /// Decode the 16-byte header at the start of `bytes`, which must be at least that long.
    pub fn new(bytes: &[u8]) -> (r: Self)
        requires
            bytes@.len() >= 16,
        ensures
            r == CartridgeHeader::parse(bytes@),
    {
        CartridgeHeader {
            name: [bytes[0], bytes[1], bytes[2], bytes[3]],
            prg_rom_chunks: bytes[4],
            chr_rom_chunks: bytes[5],
            mapper_1: bytes[6],
            mapper_2: bytes[7],
            prg_ram_size: bytes[8],
            tv_system_1: bytes[9],
            tv_system_2: bytes[10],
            unused: [bytes[11], bytes[12], bytes[13], bytes[14], bytes[15]],
        }
    }

    /// The iNES mapper number: high nibble from flags 7, low nibble from flags 6.
    pub open spec fn mapper_id(self) -> u8 {
        ((self.mapper_2 >> 4u8) << 4u8) | (self.mapper_1 >> 4u8)
    }

    /// Where the PRG ROM starts: after the header and, if flags 6 bit 2 says so, a 512-byte trainer.
    pub open spec fn prg_start(self) -> nat {
        if self.mapper_1 & 0x04 != 0 {
            16 + 512
        } else {
            16
        }
    }

    pub open spec fn prg_size(self) -> nat {
        (self.prg_rom_chunks as nat) * 16384
    }

    /// Bytes of CHR ROM in the file (a board without CHR ROM gets 8 KB of CHR RAM instead).
    pub open spec fn chr_size(self) -> nat {
        (self.chr_rom_chunks as nat) * 8192
    }

    /// Flags 6 bit 1: the board keeps battery-backed RAM.
    pub open spec fn has_battery_backed_ram(self) -> bool {
        (self.mapper_1 >> 1u8) & 1 != 0
    }
}

/// `bytes` holds a header and every ROM section that the header announces.
pub open spec fn is_complete_image(bytes: Seq<u8>) -> bool {
    &&& bytes.len() >= 16
    &&& {
        let header = CartridgeHeader::parse(bytes);
        header.prg_start() + header.prg_size() + header.chr_size() <= bytes.len()
    }
}

/// Whether `bytes` holds a header and every ROM section that the header announces.
pub fn is_complete_ines_image(bytes: &[u8]) -> (r: bool)
    ensures
        r == is_complete_image(bytes@),
{
    if bytes.len() < 16 {
        return false;
    }
    let header = CartridgeHeader::new(bytes);
    let start: usize = if header.mapper_1 & 0x04 != 0 { 16 + 512 } else { 16 };
    let prg_size = (header.prg_rom_chunks as usize) * 16384;
    let chr_size = (header.chr_rom_chunks as usize) * 8192;
    start + prg_size + chr_size <= bytes.len()
}

} // verus!
