pub mod mapper;
pub mod mapper_results;
pub mod mapper_save_data;
pub mod mapper000;
pub mod mapper001;
pub mod mapper002;
pub mod mapper003;
pub mod mapper004;
pub mod mapper066;

use vstd::prelude::*;
use crate::cartridge::mirror::Mirror;
use mapper::Mapper;
use mapper_results::{MapperReadResult, MapperWriteResult};
use mapper_save_data::MapperSaveData;
use mapper000::Mapper000;
use mapper001::mapper001::Mapper001;
use mapper002::Mapper002;
use mapper003::Mapper003;
use mapper004::Mapper004;
use mapper066::Mapper066;

verus! {

/// The mapper of a cartridge, one variant per supported board.
#[derive(Debug)]
pub enum CartridgeMapper {
    Mapper000(Mapper000),
    Mapper001(Mapper001),
    Mapper002(Mapper002),
    Mapper003(Mapper003),
    Mapper004(Mapper004),
    Mapper066(Mapper066),
}

impl Mapper for CartridgeMapper {
    proof fn lemma_console_addresses(&self, address: u16, data: u8) {
        match self {
            CartridgeMapper::Mapper000(m) => {
                m.lemma_console_addresses(address, data);
                assert(self.cpu_read_spec(address) == m.cpu_read_spec(address));
                assert(self.cpu_write_spec(address, data)
                    == (CartridgeMapper::Mapper000(m.cpu_write_spec(address, data).0), m.cpu_write_spec(address, data).1));
            },
            CartridgeMapper::Mapper001(m) => {
                m.lemma_console_addresses(address, data);
                assert(self.cpu_read_spec(address) == m.cpu_read_spec(address));
                assert(self.cpu_write_spec(address, data)
                    == (CartridgeMapper::Mapper001(m.cpu_write_spec(address, data).0), m.cpu_write_spec(address, data).1));
            },
            CartridgeMapper::Mapper002(m) => {
                m.lemma_console_addresses(address, data);
                assert(self.cpu_read_spec(address) == m.cpu_read_spec(address));
                assert(self.cpu_write_spec(address, data)
                    == (CartridgeMapper::Mapper002(m.cpu_write_spec(address, data).0), m.cpu_write_spec(address, data).1));
            },
            CartridgeMapper::Mapper003(m) => {
                m.lemma_console_addresses(address, data);
                assert(self.cpu_read_spec(address) == m.cpu_read_spec(address));
                assert(self.cpu_write_spec(address, data)
                    == (CartridgeMapper::Mapper003(m.cpu_write_spec(address, data).0), m.cpu_write_spec(address, data).1));
            },
            CartridgeMapper::Mapper004(m) => {
                m.lemma_console_addresses(address, data);
                assert(self.cpu_read_spec(address) == m.cpu_read_spec(address));
                assert(self.cpu_write_spec(address, data)
                    == (CartridgeMapper::Mapper004(m.cpu_write_spec(address, data).0), m.cpu_write_spec(address, data).1));
            },
            CartridgeMapper::Mapper066(m) => {
                m.lemma_console_addresses(address, data);
                assert(self.cpu_read_spec(address) == m.cpu_read_spec(address));
                assert(self.cpu_write_spec(address, data)
                    == (CartridgeMapper::Mapper066(m.cpu_write_spec(address, data).0), m.cpu_write_spec(address, data).1));
            },
        }
    }

    proof fn lemma_ppu_addresses(&self, address: u16) {
        match self {
            CartridgeMapper::Mapper000(m) => {
                m.lemma_ppu_addresses(address);
                assert(self.ppu_read_spec(address) == m.ppu_read_spec(address));
                assert(self.ppu_write_spec(address) == m.ppu_write_spec(address));
            },
            CartridgeMapper::Mapper001(m) => {
                m.lemma_ppu_addresses(address);
                assert(self.ppu_read_spec(address) == m.ppu_read_spec(address));
                assert(self.ppu_write_spec(address) == m.ppu_write_spec(address));
            },
            CartridgeMapper::Mapper002(m) => {
                m.lemma_ppu_addresses(address);
                assert(self.ppu_read_spec(address) == m.ppu_read_spec(address));
                assert(self.ppu_write_spec(address) == m.ppu_write_spec(address));
            },
            CartridgeMapper::Mapper003(m) => {
                m.lemma_ppu_addresses(address);
                assert(self.ppu_read_spec(address) == m.ppu_read_spec(address));
                assert(self.ppu_write_spec(address) == m.ppu_write_spec(address));
            },
            CartridgeMapper::Mapper004(m) => {
                m.lemma_ppu_addresses(address);
                assert(self.ppu_read_spec(address) == m.ppu_read_spec(address));
                assert(self.ppu_write_spec(address) == m.ppu_write_spec(address));
            },
            CartridgeMapper::Mapper066(m) => {
                m.lemma_ppu_addresses(address);
                assert(self.ppu_read_spec(address) == m.ppu_read_spec(address));
                assert(self.ppu_write_spec(address) == m.ppu_write_spec(address));
            },
        }
    }

    open spec fn inv(&self) -> bool {
        match self {
            CartridgeMapper::Mapper000(m) => m.inv(),
            CartridgeMapper::Mapper001(m) => m.inv(),
            CartridgeMapper::Mapper002(m) => m.inv(),
            CartridgeMapper::Mapper003(m) => m.inv(),
            CartridgeMapper::Mapper004(m) => m.inv(),
            CartridgeMapper::Mapper066(m) => m.inv(),
        }
    }

    open spec fn reset_spec(&self) -> Self {
        match self {
            CartridgeMapper::Mapper000(m) => CartridgeMapper::Mapper000(m.reset_spec()),
            CartridgeMapper::Mapper001(m) => CartridgeMapper::Mapper001(m.reset_spec()),
            CartridgeMapper::Mapper002(m) => CartridgeMapper::Mapper002(m.reset_spec()),
            CartridgeMapper::Mapper003(m) => CartridgeMapper::Mapper003(m.reset_spec()),
            CartridgeMapper::Mapper004(m) => CartridgeMapper::Mapper004(m.reset_spec()),
            CartridgeMapper::Mapper066(m) => CartridgeMapper::Mapper066(m.reset_spec()),
        }
    }

    open spec fn prg_banks_spec(&self) -> u8 {
        match self {
            CartridgeMapper::Mapper000(m) => m.prg_banks_spec(),
            CartridgeMapper::Mapper001(m) => m.prg_banks_spec(),
            CartridgeMapper::Mapper002(m) => m.prg_banks_spec(),
            CartridgeMapper::Mapper003(m) => m.prg_banks_spec(),
            CartridgeMapper::Mapper004(m) => m.prg_banks_spec(),
            CartridgeMapper::Mapper066(m) => m.prg_banks_spec(),
        }
    }

    open spec fn chr_banks_spec(&self) -> u8 {
        match self {
            CartridgeMapper::Mapper000(m) => m.chr_banks_spec(),
            CartridgeMapper::Mapper001(m) => m.chr_banks_spec(),
            CartridgeMapper::Mapper002(m) => m.chr_banks_spec(),
            CartridgeMapper::Mapper003(m) => m.chr_banks_spec(),
            CartridgeMapper::Mapper004(m) => m.chr_banks_spec(),
            CartridgeMapper::Mapper066(m) => m.chr_banks_spec(),
        }
    }

    open spec fn mirror_spec(&self) -> Mirror {
        match self {
            CartridgeMapper::Mapper000(m) => m.mirror_spec(),
            CartridgeMapper::Mapper001(m) => m.mirror_spec(),
            CartridgeMapper::Mapper002(m) => m.mirror_spec(),
            CartridgeMapper::Mapper003(m) => m.mirror_spec(),
            CartridgeMapper::Mapper004(m) => m.mirror_spec(),
            CartridgeMapper::Mapper066(m) => m.mirror_spec(),
        }
    }

    open spec fn irq_active_spec(&self) -> bool {
        match self {
            CartridgeMapper::Mapper000(m) => m.irq_active_spec(),
            CartridgeMapper::Mapper001(m) => m.irq_active_spec(),
            CartridgeMapper::Mapper002(m) => m.irq_active_spec(),
            CartridgeMapper::Mapper003(m) => m.irq_active_spec(),
            CartridgeMapper::Mapper004(m) => m.irq_active_spec(),
            CartridgeMapper::Mapper066(m) => m.irq_active_spec(),
        }
    }

    open spec fn irq_clear_spec(&self) -> Self {
        match self {
            CartridgeMapper::Mapper000(m) => CartridgeMapper::Mapper000(m.irq_clear_spec()),
            CartridgeMapper::Mapper001(m) => CartridgeMapper::Mapper001(m.irq_clear_spec()),
            CartridgeMapper::Mapper002(m) => CartridgeMapper::Mapper002(m.irq_clear_spec()),
            CartridgeMapper::Mapper003(m) => CartridgeMapper::Mapper003(m.irq_clear_spec()),
            CartridgeMapper::Mapper004(m) => CartridgeMapper::Mapper004(m.irq_clear_spec()),
            CartridgeMapper::Mapper066(m) => CartridgeMapper::Mapper066(m.irq_clear_spec()),
        }
    }

    open spec fn irq_scanline_spec(&self) -> Self {
        match self {
            CartridgeMapper::Mapper000(m) => CartridgeMapper::Mapper000(m.irq_scanline_spec()),
            CartridgeMapper::Mapper001(m) => CartridgeMapper::Mapper001(m.irq_scanline_spec()),
            CartridgeMapper::Mapper002(m) => CartridgeMapper::Mapper002(m.irq_scanline_spec()),
            CartridgeMapper::Mapper003(m) => CartridgeMapper::Mapper003(m.irq_scanline_spec()),
            CartridgeMapper::Mapper004(m) => CartridgeMapper::Mapper004(m.irq_scanline_spec()),
            CartridgeMapper::Mapper066(m) => CartridgeMapper::Mapper066(m.irq_scanline_spec()),
        }
    }

    open spec fn cpu_read_spec(&self, address: u16) -> MapperReadResult {
        match self {
            CartridgeMapper::Mapper000(m) => m.cpu_read_spec(address),
            CartridgeMapper::Mapper001(m) => m.cpu_read_spec(address),
            CartridgeMapper::Mapper002(m) => m.cpu_read_spec(address),
            CartridgeMapper::Mapper003(m) => m.cpu_read_spec(address),
            CartridgeMapper::Mapper004(m) => m.cpu_read_spec(address),
            CartridgeMapper::Mapper066(m) => m.cpu_read_spec(address),
        }
    }

    open spec fn cpu_write_spec(&self, address: u16, data: u8) -> (Self, MapperWriteResult) {
        match self {
            CartridgeMapper::Mapper000(m) => { let (n, r) = m.cpu_write_spec(address, data); (CartridgeMapper::Mapper000(n), r) },
            CartridgeMapper::Mapper001(m) => { let (n, r) = m.cpu_write_spec(address, data); (CartridgeMapper::Mapper001(n), r) },
            CartridgeMapper::Mapper002(m) => { let (n, r) = m.cpu_write_spec(address, data); (CartridgeMapper::Mapper002(n), r) },
            CartridgeMapper::Mapper003(m) => { let (n, r) = m.cpu_write_spec(address, data); (CartridgeMapper::Mapper003(n), r) },
            CartridgeMapper::Mapper004(m) => { let (n, r) = m.cpu_write_spec(address, data); (CartridgeMapper::Mapper004(n), r) },
            CartridgeMapper::Mapper066(m) => { let (n, r) = m.cpu_write_spec(address, data); (CartridgeMapper::Mapper066(n), r) },
        }
    }

    open spec fn ppu_read_spec(&self, address: u16) -> MapperReadResult {
        match self {
            CartridgeMapper::Mapper000(m) => m.ppu_read_spec(address),
            CartridgeMapper::Mapper001(m) => m.ppu_read_spec(address),
            CartridgeMapper::Mapper002(m) => m.ppu_read_spec(address),
            CartridgeMapper::Mapper003(m) => m.ppu_read_spec(address),
            CartridgeMapper::Mapper004(m) => m.ppu_read_spec(address),
            CartridgeMapper::Mapper066(m) => m.ppu_read_spec(address),
        }
    }

    open spec fn ppu_write_spec(&self, address: u16) -> Option<u32> {
        match self {
            CartridgeMapper::Mapper000(m) => m.ppu_write_spec(address),
            CartridgeMapper::Mapper001(m) => m.ppu_write_spec(address),
            CartridgeMapper::Mapper002(m) => m.ppu_write_spec(address),
            CartridgeMapper::Mapper003(m) => m.ppu_write_spec(address),
            CartridgeMapper::Mapper004(m) => m.ppu_write_spec(address),
            CartridgeMapper::Mapper066(m) => m.ppu_write_spec(address),
        }
    }

    open spec fn load_ok(&self, data: Seq<u8>) -> bool {
        match self {
            CartridgeMapper::Mapper000(m) => m.load_ok(data),
            CartridgeMapper::Mapper001(m) => m.load_ok(data),
            CartridgeMapper::Mapper002(m) => m.load_ok(data),
            CartridgeMapper::Mapper003(m) => m.load_ok(data),
            CartridgeMapper::Mapper004(m) => m.load_ok(data),
            CartridgeMapper::Mapper066(m) => m.load_ok(data),
        }
    }

    open spec fn load_ram_spec(&self, data: Vec<u8>) -> Self {
        match self {
            CartridgeMapper::Mapper000(m) => CartridgeMapper::Mapper000(m.load_ram_spec(data)),
            CartridgeMapper::Mapper001(m) => CartridgeMapper::Mapper001(m.load_ram_spec(data)),
            CartridgeMapper::Mapper002(m) => CartridgeMapper::Mapper002(m.load_ram_spec(data)),
            CartridgeMapper::Mapper003(m) => CartridgeMapper::Mapper003(m.load_ram_spec(data)),
            CartridgeMapper::Mapper004(m) => CartridgeMapper::Mapper004(m.load_ram_spec(data)),
            CartridgeMapper::Mapper066(m) => CartridgeMapper::Mapper066(m.load_ram_spec(data)),
        }
    }

    open spec fn saved_state_spec(&self, data: MapperSaveData) -> bool {
        match self {
            CartridgeMapper::Mapper000(m) => m.saved_state_spec(data),
            CartridgeMapper::Mapper001(m) => m.saved_state_spec(data),
            CartridgeMapper::Mapper002(m) => m.saved_state_spec(data),
            CartridgeMapper::Mapper003(m) => m.saved_state_spec(data),
            CartridgeMapper::Mapper004(m) => m.saved_state_spec(data),
            CartridgeMapper::Mapper066(m) => m.saved_state_spec(data),
        }
    }

    open spec fn saved_ram_spec(&self) -> Option<Seq<u8>> {
        match self {
            CartridgeMapper::Mapper000(m) => m.saved_ram_spec(),
            CartridgeMapper::Mapper001(m) => m.saved_ram_spec(),
            CartridgeMapper::Mapper002(m) => m.saved_ram_spec(),
            CartridgeMapper::Mapper003(m) => m.saved_ram_spec(),
            CartridgeMapper::Mapper004(m) => m.saved_ram_spec(),
            CartridgeMapper::Mapper066(m) => m.saved_ram_spec(),
        }
    }

    fn reset(&mut self) {
        match self {
            CartridgeMapper::Mapper000(m) => m.reset(),
            CartridgeMapper::Mapper001(m) => m.reset(),
            CartridgeMapper::Mapper002(m) => m.reset(),
            CartridgeMapper::Mapper003(m) => m.reset(),
            CartridgeMapper::Mapper004(m) => m.reset(),
            CartridgeMapper::Mapper066(m) => m.reset(),
        }
    }

    fn get_prg_banks(&self) -> u8 {
        match self {
            CartridgeMapper::Mapper000(m) => m.get_prg_banks(),
            CartridgeMapper::Mapper001(m) => m.get_prg_banks(),
            CartridgeMapper::Mapper002(m) => m.get_prg_banks(),
            CartridgeMapper::Mapper003(m) => m.get_prg_banks(),
            CartridgeMapper::Mapper004(m) => m.get_prg_banks(),
            CartridgeMapper::Mapper066(m) => m.get_prg_banks(),
        }
    }

    fn get_chr_banks(&self) -> u8 {
        match self {
            CartridgeMapper::Mapper000(m) => m.get_chr_banks(),
            CartridgeMapper::Mapper001(m) => m.get_chr_banks(),
            CartridgeMapper::Mapper002(m) => m.get_chr_banks(),
            CartridgeMapper::Mapper003(m) => m.get_chr_banks(),
            CartridgeMapper::Mapper004(m) => m.get_chr_banks(),
            CartridgeMapper::Mapper066(m) => m.get_chr_banks(),
        }
    }

    fn get_mirror(&self) -> Mirror {
        match self {
            CartridgeMapper::Mapper000(m) => m.get_mirror(),
            CartridgeMapper::Mapper001(m) => m.get_mirror(),
            CartridgeMapper::Mapper002(m) => m.get_mirror(),
            CartridgeMapper::Mapper003(m) => m.get_mirror(),
            CartridgeMapper::Mapper004(m) => m.get_mirror(),
            CartridgeMapper::Mapper066(m) => m.get_mirror(),
        }
    }

    fn irq_active(&self) -> bool {
        match self {
            CartridgeMapper::Mapper000(m) => m.irq_active(),
            CartridgeMapper::Mapper001(m) => m.irq_active(),
            CartridgeMapper::Mapper002(m) => m.irq_active(),
            CartridgeMapper::Mapper003(m) => m.irq_active(),
            CartridgeMapper::Mapper004(m) => m.irq_active(),
            CartridgeMapper::Mapper066(m) => m.irq_active(),
        }
    }

    fn irq_clear(&mut self) {
        match self {
            CartridgeMapper::Mapper000(m) => m.irq_clear(),
            CartridgeMapper::Mapper001(m) => m.irq_clear(),
            CartridgeMapper::Mapper002(m) => m.irq_clear(),
            CartridgeMapper::Mapper003(m) => m.irq_clear(),
            CartridgeMapper::Mapper004(m) => m.irq_clear(),
            CartridgeMapper::Mapper066(m) => m.irq_clear(),
        }
    }

    fn irq_scanline(&mut self) {
        match self {
            CartridgeMapper::Mapper000(m) => m.irq_scanline(),
            CartridgeMapper::Mapper001(m) => m.irq_scanline(),
            CartridgeMapper::Mapper002(m) => m.irq_scanline(),
            CartridgeMapper::Mapper003(m) => m.irq_scanline(),
            CartridgeMapper::Mapper004(m) => m.irq_scanline(),
            CartridgeMapper::Mapper066(m) => m.irq_scanline(),
        }
    }

    fn cpu_map_read(&self, address: u16) -> MapperReadResult {
        match self {
            CartridgeMapper::Mapper000(m) => m.cpu_map_read(address),
            CartridgeMapper::Mapper001(m) => m.cpu_map_read(address),
            CartridgeMapper::Mapper002(m) => m.cpu_map_read(address),
            CartridgeMapper::Mapper003(m) => m.cpu_map_read(address),
            CartridgeMapper::Mapper004(m) => m.cpu_map_read(address),
            CartridgeMapper::Mapper066(m) => m.cpu_map_read(address),
        }
    }

    fn cpu_map_write(&mut self, address: u16, data: u8) -> MapperWriteResult {
        match self {
            CartridgeMapper::Mapper000(m) => m.cpu_map_write(address, data),
            CartridgeMapper::Mapper001(m) => m.cpu_map_write(address, data),
            CartridgeMapper::Mapper002(m) => m.cpu_map_write(address, data),
            CartridgeMapper::Mapper003(m) => m.cpu_map_write(address, data),
            CartridgeMapper::Mapper004(m) => m.cpu_map_write(address, data),
            CartridgeMapper::Mapper066(m) => m.cpu_map_write(address, data),
        }
    }

    fn ppu_map_read(&self, address: u16) -> MapperReadResult {
        match self {
            CartridgeMapper::Mapper000(m) => m.ppu_map_read(address),
            CartridgeMapper::Mapper001(m) => m.ppu_map_read(address),
            CartridgeMapper::Mapper002(m) => m.ppu_map_read(address),
            CartridgeMapper::Mapper003(m) => m.ppu_map_read(address),
            CartridgeMapper::Mapper004(m) => m.ppu_map_read(address),
            CartridgeMapper::Mapper066(m) => m.ppu_map_read(address),
        }
    }

    fn ppu_map_write(&mut self, address: u16, mapped_address: &mut u32, data: u8) -> bool {
        match self {
            CartridgeMapper::Mapper000(m) => m.ppu_map_write(address, mapped_address, data),
            CartridgeMapper::Mapper001(m) => m.ppu_map_write(address, mapped_address, data),
            CartridgeMapper::Mapper002(m) => m.ppu_map_write(address, mapped_address, data),
            CartridgeMapper::Mapper003(m) => m.ppu_map_write(address, mapped_address, data),
            CartridgeMapper::Mapper004(m) => m.ppu_map_write(address, mapped_address, data),
            CartridgeMapper::Mapper066(m) => m.ppu_map_write(address, mapped_address, data),
        }
    }

    fn load_battery_backed_ram(&mut self, data: Vec<u8>) {
        match self {
            CartridgeMapper::Mapper000(m) => m.load_battery_backed_ram(data),
            CartridgeMapper::Mapper001(m) => m.load_battery_backed_ram(data),
            CartridgeMapper::Mapper002(m) => m.load_battery_backed_ram(data),
            CartridgeMapper::Mapper003(m) => m.load_battery_backed_ram(data),
            CartridgeMapper::Mapper004(m) => m.load_battery_backed_ram(data),
            CartridgeMapper::Mapper066(m) => m.load_battery_backed_ram(data),
        }
    }

    fn save_battery_backed_ram(&self) -> Option<Vec<u8>> {
        match self {
            CartridgeMapper::Mapper000(m) => m.save_battery_backed_ram(),
            CartridgeMapper::Mapper001(m) => m.save_battery_backed_ram(),
            CartridgeMapper::Mapper002(m) => m.save_battery_backed_ram(),
            CartridgeMapper::Mapper003(m) => m.save_battery_backed_ram(),
            CartridgeMapper::Mapper004(m) => m.save_battery_backed_ram(),
            CartridgeMapper::Mapper066(m) => m.save_battery_backed_ram(),
        }
    }

    fn save_state(&self) -> MapperSaveData {
        match self {
            CartridgeMapper::Mapper000(m) => m.save_state(),
            CartridgeMapper::Mapper001(m) => m.save_state(),
            CartridgeMapper::Mapper002(m) => m.save_state(),
            CartridgeMapper::Mapper003(m) => m.save_state(),
            CartridgeMapper::Mapper004(m) => m.save_state(),
            CartridgeMapper::Mapper066(m) => m.save_state(),
        }
    }
}

/// The offset of `address` inside bank number `bank` when banks are `size` bytes
/// and `mask` selects the offset bits.
pub(crate) fn banked_address(bank: u8, size: u16, address: u16, mask: u16) -> (r: u32)
    ensures
        r == (bank as u32) * (size as u32) + ((address & mask) as u32),
{
    let b = bank as u32;
    let s = size as u32;
    assert(b * s <= 255 * 65535) by (nonlinear_arith)
        requires
            b <= 255,
            s <= 65535,
    ;
    b * s + ((address & mask) as u32)
}

/// A copy of a mapper's work RAM as a vector.
pub(crate) fn ram_to_vec<const N: usize>(ram: &[u8; N]) -> (r: Vec<u8>)
    ensures
        r@ == ram@,
{
    let mut v: Vec<u8> = Vec::new();
    let mut i: usize = 0;
    while i < N
        invariant
            i <= N,
            v@ == ram@.subrange(0, i as int),
        decreases N - i,
    {
        v.push(ram[i]);
        i = i + 1;
        assert(v@ == ram@.subrange(0, i as int));
    }
    v
}

} // verus!
