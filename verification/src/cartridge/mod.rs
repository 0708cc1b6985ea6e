pub mod cartridge_header;
pub mod mirror;

use vstd::prelude::*;
use cartridge_header::{CartridgeHeader, is_complete_image};
use mirror::Mirror;
use crate::mappers::CartridgeMapper;
use crate::mappers::mapper::Mapper;
use crate::mappers::mapper000::Mapper000;
use crate::mappers::mapper001::mapper001::Mapper001;
use crate::mappers::mapper002::Mapper002;
use crate::mappers::mapper003::Mapper003;
use crate::mappers::mapper004::Mapper004;
use crate::mappers::mapper066::Mapper066;

verus! {

/// Size of the CHR RAM given to a board without CHR ROM.
pub const CHR_RAM_SIZE: usize = 8192;

/// A game cartridge: its PRG and CHR memories and the mapper that decides
/// where each access lands.
#[derive(Debug)]
pub struct Cartridge {
    pub mapper: Option<CartridgeMapper>,
    pub chr_banks: u8,
    pub chr_memory: Vec<u8>,
    pub file_path: String,
    pub mapper_id: u8,
    pub mirror: Mirror,
    pub prg_banks: u8,
    pub prg_memory: Vec<u8>,
}

/// The abstract state of a cartridge.
pub struct CartridgeView {
    pub mapper: Option<CartridgeMapper>,
    pub chr_banks: u8,
    pub chr_memory: Seq<u8>,
    pub file_path: Seq<char>,
    pub mapper_id: u8,
    pub mirror: Mirror,
    pub prg_banks: u8,
    pub prg_memory: Seq<u8>,
}

impl View for Cartridge {
    type V = CartridgeView;

    open spec fn view(&self) -> CartridgeView {
        CartridgeView {
            mapper: self.mapper,
            chr_banks: self.chr_banks,
            chr_memory: self.chr_memory@,
            file_path: self.file_path@,
            mapper_id: self.mapper_id,
            mirror: self.mirror,
            prg_banks: self.prg_banks,
            prg_memory: self.prg_memory@,
        }
    }
}

/// The byte of `memory` that `address` reaches. Addresses past the end wrap around,
/// as the unconnected high address lines of a smaller ROM make them do.
pub open spec fn memory_at(memory: Seq<u8>, address: u32) -> Option<u8> {
    if memory.len() == 0 {
        None
    } else {
        Some(memory[(address as int) % (memory.len() as int)])
    }
}

/// `memory` after `data` is stored at the byte that `address` reaches.
pub open spec fn memory_store(memory: Seq<u8>, address: u32, data: u8) -> Seq<u8> {
    if memory.len() == 0 {
        memory
    } else {
        memory.update((address as int) % (memory.len() as int), data)
    }
}

/// The mapper that a board with this header number gets, freshly powered.
pub open spec fn fresh_mapper(mapper_id: u8, prg_banks: u8, chr_banks: u8, battery: bool) -> Option<CartridgeMapper> {
    if mapper_id == 0 {
        Some(CartridgeMapper::Mapper000(Mapper000 { prg_banks, chr_banks, battery_backed_ram: battery }))
    } else if mapper_id == 1 {
        Some(CartridgeMapper::Mapper001(Mapper001::initial(prg_banks, chr_banks, battery)))
    } else if mapper_id == 2 {
        Some(CartridgeMapper::Mapper002(Mapper002 {
            prg_banks,
            chr_banks,
            prg_bank_low: 0,
            prg_bank_high: if prg_banks > 0 { (prg_banks - 1) as u8 } else { prg_banks },
            battery_backed_ram: battery,
        }))
    } else if mapper_id == 3 {
        Some(CartridgeMapper::Mapper003(Mapper003 { prg_banks, chr_banks, battery_backed_ram: battery, chr_bank: 0 }))
    } else if mapper_id == 4 {
        Some(CartridgeMapper::Mapper004(Mapper004::initial(prg_banks, chr_banks, battery)))
    } else if mapper_id == 66 {
        Some(CartridgeMapper::Mapper066(Mapper066 {
            prg_banks,
            chr_banks,
            battery_backed_ram: battery,
            chr_bank: 0,
            prg_bank: 0,
        }))
    } else {
        None
    }
}

proof fn lemma_mapper_nibbles(flags_6: u8, flags_7: u8)
    by (bit_vector)
    ensures
        ((flags_7 >> 4u8) << 4u8) | (flags_6 >> 4u8) == (flags_7 / 16) * 16 + flags_6 / 16,
{
}

/// The mapper number of an iNES image: the high nibble of byte 7 over the high nibble of
/// byte 6, `(byte 7 & 0xF0) | (byte 6 >> 4)` (bytes 6 and 7 = 0x20 and 0x40 give mapper
/// 66). A cartridge loaded from the image records that number and gets that board: NROM
/// for 0, MMC1 for 1, UxROM for 2, CNROM for 3, MMC3 for 4, GxROM for 66, and no mapper for
/// any other number.
pub proof fn lemma_mapper_number(bytes: Seq<u8>)
    requires
        bytes.len() >= 16,
    ensures
        ({
            let header = CartridgeHeader::parse(bytes);
            let number: int = (bytes[7] / 16) * 16 + bytes[6] / 16;
            let board = fresh_mapper(header.mapper_id(), header.prg_rom_chunks, header.chr_rom_chunks, header.has_battery_backed_ram());
            &&& header.mapper_id() == number
            &&& (number == 0) == (board matches Some(CartridgeMapper::Mapper000(_)))
            &&& (number == 1) == (board matches Some(CartridgeMapper::Mapper001(_)))
            &&& (number == 2) == (board matches Some(CartridgeMapper::Mapper002(_)))
            &&& (number == 3) == (board matches Some(CartridgeMapper::Mapper003(_)))
            &&& (number == 4) == (board matches Some(CartridgeMapper::Mapper004(_)))
            &&& (number == 66) == (board matches Some(CartridgeMapper::Mapper066(_)))
            &&& (board is None) == !(number == 0 || number == 1 || number == 2 || number == 3 || number == 4 || number == 66)
        }),
{
    lemma_mapper_nibbles(bytes[6], bytes[7]);
}

impl CartridgeView {
    pub open spec fn wf(self) -> bool {
        self.mapper matches Some(m) ==> m.inv()
    }

    /// The byte a CPU read of `address` yields, if the cartridge answers it.
    pub open spec fn cpu_read_spec(self, address: u16) -> Option<u8> {
        match self.mapper {
            Some(m) => {
                let r = m.cpu_read_spec(address);
                if r.read_from_cart_ram {
                    memory_at(self.prg_memory, r.mapped_address)
                } else if r.read_from_mapper_ram {
                    Some(r.data)
                } else {
                    None
                }
            },
            None => None,
        }
    }

    /// The cartridge after a CPU write, and whether it claimed the write.
    pub open spec fn cpu_write_spec(self, address: u16, data: u8) -> (CartridgeView, bool) {
        match self.mapper {
            Some(m) => {
                let (m2, r) = m.cpu_write_spec(address, data);
                let prg = if r.write_to_cart_ram {
                    memory_store(self.prg_memory, r.mapped_address, data)
                } else {
                    self.prg_memory
                };
                (CartridgeView { mapper: Some(m2), prg_memory: prg, ..self }, r.handled)
            },
            None => (self, false),
        }
    }

    /// The byte a PPU read of `address` yields, if the cartridge answers it.
    pub open spec fn ppu_read_spec(self, address: u16) -> Option<u8> {
        match self.mapper {
            Some(m) => {
                let r = m.ppu_read_spec(address);
                if r.read_from_cart_ram {
                    memory_at(self.chr_memory, r.mapped_address)
                } else if r.read_from_mapper_ram {
                    Some(r.data)
                } else {
                    None
                }
            },
            None => None,
        }
    }

    /// The cartridge after a PPU write, and whether it claimed the write.
    pub open spec fn ppu_write_spec(self, address: u16, data: u8) -> (CartridgeView, bool) {
        match self.mapper {
            Some(m) => match m.ppu_write_spec(address) {
                Some(a) => (CartridgeView { chr_memory: memory_store(self.chr_memory, a, data), ..self }, true),
                None => (self, false),
            },
            None => (self, false),
        }
    }

    /// The mirroring in force: the mapper's, unless it defers to the board.
    pub open spec fn mirror_spec(self) -> Mirror {
        match self.mapper {
            Some(m) => if m.mirror_spec() == Mirror::Hardware {
                self.mirror
            } else {
                m.mirror_spec()
            },
            None => self.mirror,
        }
    }

    pub open spec fn reset_spec(self) -> CartridgeView {
        match self.mapper {
            Some(m) => CartridgeView { mapper: Some(m.reset_spec()), ..self },
            None => self,
        }
    }

    pub open spec fn irq_active_spec(self) -> bool {
        match self.mapper {
            Some(m) => m.irq_active_spec(),
            None => false,
        }
    }
}

impl Cartridge {
    /// Build a cartridge from the bytes of an iNES file read from `file_path`.
    ///
    /// An iNES file consists of the following sections, in order:
    /// Header (16 bytes)
    /// Trainer, if present (0 or 512 bytes)
    /// PRG ROM data (16384 * x bytes)
    /// CHR ROM data, if present (8192 * y bytes)
    /// PlayChoice INST-ROM, if present (0 or 8192 bytes)
    /// PlayChoice PROM, if present (16 bytes Data, 16 bytes CounterOut) (this is often missing, see PC10 ROM-Images for details)
    ///
    /// The image must hold every section its header announces (`is_complete_image`).
    pub fn new(file_path: &str, bytes: &[u8]) -> (r: Self)
        requires
            is_complete_image(bytes@),
        ensures
            r@.wf(),
            ({
                let header = CartridgeHeader::parse(bytes@);
                let start = header.prg_start() as int;
                let prg_end = start + header.prg_size();
                &&& r.file_path@ == file_path@
                &&& r.mapper_id == header.mapper_id()
                &&& r.prg_banks == header.prg_rom_chunks
                &&& r.chr_banks == header.chr_rom_chunks
                &&& r.mirror == if header.mapper_1 & 0x01 != 0 { Mirror::Vertical } else { Mirror::Horizontal }
                &&& r.prg_memory@ == bytes@.subrange(start, prg_end)
                &&& r.chr_memory@ == if header.chr_rom_chunks == 0 {
                    Seq::new(CHR_RAM_SIZE as nat, |i: int| 0u8)
                } else {
                    bytes@.subrange(prg_end, prg_end + header.chr_size())
                }
                &&& r.mapper == fresh_mapper(header.mapper_id(), header.prg_rom_chunks, header.chr_rom_chunks, header.has_battery_backed_ram())
            }),
    {
        let header = CartridgeHeader::new(bytes);
        let mapper_id = ((header.mapper_2 >> 4) << 4) | (header.mapper_1 >> 4);
        let mirror = if (header.mapper_1 & 0x01) > 0 { Mirror::Vertical } else { Mirror::Horizontal };
        let prg_memory_size = (header.prg_rom_chunks as usize) * 16384;
        let post_header_index: usize = if (header.mapper_1 & 0x04) > 0 { 16 + 512 } else { 16 };
        let chr_memory_start = post_header_index + prg_memory_size;
        let chr_memory = if header.chr_rom_chunks == 0 {
            let v = zeroed(CHR_RAM_SIZE);
            v
        } else {
            let chr_memory_size = (header.chr_rom_chunks as usize) * 8192;
            copy_range(bytes, chr_memory_start, chr_memory_start + chr_memory_size)
        };
        let prg_memory = copy_range(bytes, post_header_index, post_header_index + prg_memory_size);
        Cartridge {
            chr_banks: header.chr_rom_chunks,
            chr_memory,
            file_path: file_path.to_string(),
            prg_banks: header.prg_rom_chunks,
            prg_memory,
            mapper: Cartridge::get_mapper(mapper_id, &header),
            mapper_id,
            mirror,
        }
    }

    pub fn reset(&mut self)
        requires
            old(self)@.wf(),
        ensures
            final(self)@.wf(),
            final(self)@ == old(self)@.reset_spec(),
    {
        match &mut self.mapper {
            Some(m) => m.reset(),
            None => {},
        }
    }

    /// Read from the Main Bus
    pub fn cpu_read(&mut self, address: u16, data: &mut u8) -> (r: bool)
        requires
            old(self)@.wf(),
        ensures
            final(self)@ == old(self)@,
            r == old(self)@.cpu_read_spec(address).is_some(),
            r ==> *final(data) == old(self)@.cpu_read_spec(address).unwrap(),
            !r ==> *final(data) == *old(data),
    {
        match &self.mapper {
            Some(m) => {
                let result = m.cpu_map_read(address);
                if result.read_from_cart_ram {
                    let len = self.prg_memory.len();
                    if len == 0 {
                        return false;
                    }
                    *data = self.prg_memory[(result.mapped_address as usize) % len];
                    true
                } else if result.read_from_mapper_ram {
                    *data = result.data;
                    true
                } else {
                    false
                }
            },
            None => false,
        }
    }

    /// Write to the Main Bus
    pub fn cpu_write(&mut self, address: u16, data: u8) -> (r: bool)
        requires
            old(self)@.wf(),
        ensures
            final(self)@.wf(),
            (final(self)@, r) == old(self)@.cpu_write_spec(address, data),
    {
        match &mut self.mapper {
            Some(m) => {
                let result = m.cpu_map_write(address, data);
                if result.write_to_cart_ram {
                    let len = self.prg_memory.len();
                    if len > 0 {
                        self.prg_memory.set((result.mapped_address as usize) % len, data);
                    }
                }
                result.handled
            },
            None => false,
        }
    }

    /// Read from the PPU Bus
    pub fn ppu_read(&mut self, address: u16, data: &mut u8) -> (r: bool)
        requires
            old(self)@.wf(),
        ensures
            final(self)@ == old(self)@,
            r == old(self)@.ppu_read_spec(address).is_some(),
            r ==> *final(data) == old(self)@.ppu_read_spec(address).unwrap(),
            !r ==> *final(data) == *old(data),
    {
        match &self.mapper {
            Some(m) => {
                let result = m.ppu_map_read(address);
                if result.read_from_cart_ram {
                    let len = self.chr_memory.len();
                    if len == 0 {
                        return false;
                    }
                    *data = self.chr_memory[(result.mapped_address as usize) % len];
                    true
                } else if result.read_from_mapper_ram {
                    *data = result.data;
                    true
                } else {
                    false
                }
            },
            None => false,
        }
    }

    /// Write to the PPU Bus
    pub fn ppu_write(&mut self, address: u16, data: u8) -> (r: bool)
        requires
            old(self)@.wf(),
        ensures
            final(self)@.wf(),
            (final(self)@, r) == old(self)@.ppu_write_spec(address, data),
    {
        let mut mapped_address: u32 = 0;
        match &mut self.mapper {
            Some(m) => {
                if m.ppu_map_write(address, &mut mapped_address, data) {
                    let len = self.chr_memory.len();
                    if len > 0 {
                        self.chr_memory.set((mapped_address as usize) % len, data);
                    }
                    true
                } else {
                    false
                }
            },
            None => false,
        }
    }

    pub fn get_mirror(&self) -> (r: Mirror)
        requires
            self@.wf(),
        ensures
            r == self@.mirror_spec(),
    {
        match &self.mapper {
            Some(mapper) => {
                let mirror = mapper.get_mirror();
                match mirror {
                    Mirror::Hardware => self.mirror,
                    _ => mirror,
                }
            },
            None => self.mirror,
        }
    }

    /// The battery-backed RAM image to persist next to the ROM, if the board keeps one.
    pub fn save_data(&mut self) -> (r: Option<Vec<u8>>)
        requires
            old(self)@.wf(),
        ensures
            final(self)@ == old(self)@,
            r.is_some() == (old(self).mapper matches Some(m) && m.saved_ram_spec().is_some()),
            r matches Some(v) ==> old(self).mapper matches Some(m) && v@ == m.saved_ram_spec().unwrap(),
    {
        match &self.mapper {
            Some(m) => m.save_battery_backed_ram(),
            None => None,
        }
    }

    /// Restore the battery-backed RAM image saved by an earlier session.
    pub fn load_battery_backed_ram(&mut self, data: Vec<u8>)
        requires
            old(self)@.wf(),
            old(self).mapper matches Some(m) ==> m.load_ok(data@),
        ensures
            final(self)@.wf(),
            final(self)@ == (CartridgeView {
                mapper: match old(self).mapper {
                    Some(m) => Some(m.load_ram_spec(data)),
                    None => None,
                },
                ..old(self)@
            }),
    {
        match &mut self.mapper {
            Some(m) => m.load_battery_backed_ram(data),
            None => {},
        }
    }

    /// Whether the mapper accepts `data` as its battery-backed RAM image.
    pub fn accepts_battery_backed_ram(&self, data: &Vec<u8>) -> (r: bool)
        ensures
            r == (self.mapper matches Some(m) ==> m.load_ok(data@)),
    {
        match &self.mapper {
            Some(CartridgeMapper::Mapper004(m)) => !m.battery_backed_ram || data.len() >= crate::mappers::mapper004::RAM_SIZE,
            _ => true,
        }
    }

    fn get_mapper(mapper_id: u8, header: &CartridgeHeader) -> (r: Option<CartridgeMapper>)
        ensures
            r == fresh_mapper(mapper_id, header.prg_rom_chunks, header.chr_rom_chunks, header.has_battery_backed_ram()),
            r matches Some(m) ==> m.inv(),
    {
        let prg_banks = header.prg_rom_chunks;
        let chr_banks = header.chr_rom_chunks;
        let has_battery_backed_ram = (header.mapper_1 >> 1) & 1 != 0;
        if mapper_id == 0 {
            Some(CartridgeMapper::Mapper000(Mapper000::new(prg_banks, chr_banks, has_battery_backed_ram)))
        } else if mapper_id == 1 {
            Some(CartridgeMapper::Mapper001(Mapper001::new(prg_banks, chr_banks, has_battery_backed_ram)))
        } else if mapper_id == 2 {
            Some(CartridgeMapper::Mapper002(Mapper002::new(prg_banks, chr_banks, has_battery_backed_ram)))
        } else if mapper_id == 3 {
            Some(CartridgeMapper::Mapper003(Mapper003::new(prg_banks, chr_banks, has_battery_backed_ram)))
        } else if mapper_id == 4 {
            Some(CartridgeMapper::Mapper004(Mapper004::new(prg_banks, chr_banks, has_battery_backed_ram)))
        } else if mapper_id == 66 {
            Some(CartridgeMapper::Mapper066(Mapper066::new(prg_banks, chr_banks, has_battery_backed_ram)))
        } else {
            None
        }
    }
}

/// `len` zero bytes.
fn zeroed(len: usize) -> (r: Vec<u8>)
    ensures
        r@ == Seq::new(len as nat, |i: int| 0u8),
{
    let mut v: Vec<u8> = Vec::new();
    let mut i: usize = 0;
    while i < len
        invariant
            i <= len,
            v@ == Seq::new(i as nat, |j: int| 0u8),
        decreases len - i,
    {
        v.push(0);
        i = i + 1;
        assert(v@ =~= Seq::new(i as nat, |j: int| 0u8));
    }
    v
}

/// The bytes `start..end` of `bytes`.
fn copy_range(bytes: &[u8], start: usize, end: usize) -> (r: Vec<u8>)
    requires
        start <= end <= bytes@.len(),
    ensures
        r@ == bytes@.subrange(start as int, end as int),
{
    let mut v: Vec<u8> = Vec::new();
    let mut i: usize = start;
    while i < end
        invariant
            start <= i <= end,
            end <= bytes@.len(),
            v@ == bytes@.subrange(start as int, i as int),
        decreases end - i,
    {
        v.push(bytes[i]);
        i = i + 1;
        assert(v@ =~= bytes@.subrange(start as int, i as int));
    }
    v
}

/// CHR RAM: on an NROM board without CHR ROM, a byte the PPU writes at a pattern address
/// ($0000-$1FFF) is taken by the cartridge and read back there.
pub proof fn lemma_chr_ram_read_after_write(c: CartridgeView, address: u16, data: u8)
    requires
        c.mapper matches Some(CartridgeMapper::Mapper000(m)) && m.chr_banks == 0,
        c.chr_memory.len() > 0,
        address <= 0x1FFF,
    ensures
        c.ppu_write_spec(address, data).1,
        c.ppu_write_spec(address, data).0.ppu_read_spec(address) == Some(data),
{
    if let Some(CartridgeMapper::Mapper000(m)) = c.mapper {
        assert(Mapper::ppu_write_spec(&CartridgeMapper::Mapper000(m), address) == m.ppu_write_spec(address));
        assert(Mapper::ppu_read_spec(&CartridgeMapper::Mapper000(m), address) == m.ppu_read_spec(address));
    }
}

} // verus!
