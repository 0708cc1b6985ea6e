use vstd::prelude::*;
use crate::cartridge::mirror::Mirror;
use super::mapper_results::{MapperReadResult, MapperWriteResult};
use super::mapper_save_data::MapperSaveData;

verus! {

/// A cartridge mapper: decides where CPU and PPU accesses to the cartridge go,
/// and keeps whatever bank registers the board has.
///
/// Each mapper describes its behaviour by the spec functions below; the exec
/// methods are tied to them exactly.
pub trait Mapper: Sized {
    /// Well-formedness of the internal state.
    spec fn inv(&self) -> bool;

    spec fn reset_spec(&self) -> Self;

    spec fn prg_banks_spec(&self) -> u8;

    spec fn chr_banks_spec(&self) -> u8;

    spec fn mirror_spec(&self) -> Mirror;

    spec fn irq_active_spec(&self) -> bool;

    spec fn irq_clear_spec(&self) -> Self;

    spec fn irq_scanline_spec(&self) -> Self;

    /// Where a CPU read of `address` goes.
    spec fn cpu_read_spec(&self, address: u16) -> MapperReadResult;

    /// The mapper after a CPU write of `data` to `address`, and where the write goes.
    spec fn cpu_write_spec(&self, address: u16, data: u8) -> (Self, MapperWriteResult);

    /// Where a PPU read of `address` goes.
    spec fn ppu_read_spec(&self, address: u16) -> MapperReadResult;

    /// Where a PPU write of `address` goes in cartridge memory, if the mapper accepts it.
    spec fn ppu_write_spec(&self, address: u16) -> Option<u32>;

    /// Which battery-backed RAM images the mapper accepts.
    spec fn load_ok(&self, data: Seq<u8>) -> bool;

    spec fn load_ram_spec(&self, data: Vec<u8>) -> Self;

    /// The RAM image that must be persisted, if the board has battery-backed RAM.
    spec fn saved_ram_spec(&self) -> Option<Seq<u8>>;

    /// Whether `data` records this mapper's whole state: its kind, bank counts, battery flag,
    /// bank registers and work RAM.
    spec fn saved_state_spec(&self, data: MapperSaveData) -> bool;

    /// Addresses below $6000 belong to the console: the mapper neither answers a read of
    /// one nor takes, or is changed by, a write to one.
    proof fn lemma_console_addresses(&self, address: u16, data: u8)
        requires
            address < 0x6000,
        ensures
            !self.cpu_read_spec(address).read_from_cart_ram,
            !self.cpu_read_spec(address).read_from_mapper_ram,
            self.cpu_write_spec(address, data).0 == *self,
            !self.cpu_write_spec(address, data).1.handled,
            !self.cpu_write_spec(address, data).1.write_to_cart_ram,
    ;

    /// PPU addresses from $2000 up belong to the PPU's own memory: the mapper takes
    /// neither reads nor writes of them.
    proof fn lemma_ppu_addresses(&self, address: u16)
        requires
            address >= 0x2000,
        ensures
            !self.ppu_read_spec(address).read_from_cart_ram,
            !self.ppu_read_spec(address).read_from_mapper_ram,
            self.ppu_write_spec(address) is None,
    ;

    fn reset(&mut self)
        requires
            old(self).inv(),
        ensures
            final(self).inv(),
            *final(self) == old(self).reset_spec(),
    ;

    fn get_prg_banks(&self) -> (r: u8)
        ensures
            r == self.prg_banks_spec(),
    ;

    fn get_chr_banks(&self) -> (r: u8)
        ensures
            r == self.chr_banks_spec(),
    ;

    fn get_mirror(&self) -> (r: Mirror)
        ensures
            r == self.mirror_spec(),
    ;

    fn irq_active(&self) -> (r: bool)
        ensures
            r == self.irq_active_spec(),
    ;

    fn irq_clear(&mut self)
        requires
            old(self).inv(),
        ensures
            final(self).inv(),
            *final(self) == old(self).irq_clear_spec(),
    ;

    fn irq_scanline(&mut self)
        requires
            old(self).inv(),
        ensures
            final(self).inv(),
            *final(self) == old(self).irq_scanline_spec(),
    ;

    fn cpu_map_read(&self, address: u16) -> (r: MapperReadResult)
        requires
            self.inv(),
        ensures
            r == self.cpu_read_spec(address),
    ;

    fn cpu_map_write(&mut self, address: u16, data: u8) -> (r: MapperWriteResult)
        requires
            old(self).inv(),
        ensures
            final(self).inv(),
            (*final(self), r) == old(self).cpu_write_spec(address, data),
    ;

    fn ppu_map_read(&self, address: u16) -> (r: MapperReadResult)
        requires
            self.inv(),
        ensures
            r == self.ppu_read_spec(address),
    ;

    fn ppu_map_write(&mut self, address: u16, mapped_address: &mut u32, data: u8) -> (r: bool)
        requires
            old(self).inv(),
        ensures
            *final(self) == *old(self),
            r == old(self).ppu_write_spec(address).is_some(),
            r ==> *final(mapped_address) == old(self).ppu_write_spec(address).unwrap(),
            !r ==> *final(mapped_address) == *old(mapped_address),
    ;

    fn load_battery_backed_ram(&mut self, data: Vec<u8>)
        requires
            old(self).inv(),
            old(self).load_ok(data@),
        ensures
            final(self).inv(),
            *final(self) == old(self).load_ram_spec(data),
    ;

    fn save_battery_backed_ram(&self) -> (r: Option<Vec<u8>>)
        requires
            self.inv(),
        ensures
            r.is_some() == self.saved_ram_spec().is_some(),
            r.is_some() ==> r.unwrap()@ == self.saved_ram_spec().unwrap(),
    ;

    fn save_state(&self) -> (r: MapperSaveData)
        requires
            self.inv(),
        ensures
            self.saved_state_spec(r),
    ;
}

} // verus!
