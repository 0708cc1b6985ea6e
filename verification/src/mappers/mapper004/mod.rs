pub mod bank_select;
pub mod interrupt_request;
pub mod prg_ram_protect;

use vstd::prelude::*;
use bank_select::BankSelect;
use interrupt_request::InterruptRequest;
use prg_ram_protect::PrgRamProtect;
use super::mapper::Mapper;
use super::ram_to_vec;
use super::mapper_results::{MapperReadResult, MapperWriteResult, read_cart, read_mapper, read_none, write_cart, write_handled, write_mapped, write_none};
use super::mapper_save_data::{MapperSaveData, Mapper004SaveData};
use crate::memory_sizes::{KILOBYTES_1_MASK, KILOBYTES_8_MASK};
use crate::cartridge::mirror::Mirror;

verus! {

pub const OPTIONAL_RAM_ADDRESS_LOWER: u16 = 0x6000;
pub const OPTIONAL_RAM_ADDRESS_UPPER: u16 = 0x7FFF;
pub const RAM_ADDRESS_MASK: u16 = 0x1FFF;

/// Size of the MMC3 work RAM.
pub const RAM_SIZE: usize = 8192;

/// MMC3 (iNES mapper 4): 8 KB PRG and 1 KB CHR windows, switchable mirroring,
/// and a scanline interrupt counter.
#[derive(Debug)]
pub struct Mapper004 {
    pub prg_banks: u8,
    pub chr_banks: u8,
    pub interrupt_request: InterruptRequest,
    pub bank_select: BankSelect,
    pub battery_backed_ram: bool,
    pub mirror: Mirror,
    pub prg_ram_protect: PrgRamProtect,
    pub ram: [u8; RAM_SIZE],
    /// The battery-backed RAM image last loaded, kept whole: its first 8 KB live on in
    /// `ram`, and whatever follows is written back unchanged when the RAM is saved.
    pub loaded_image: Option<Vec<u8>>,
}

/// The mirroring selected by a $A000 write.
pub open spec fn mirror_select(data: u8) -> Mirror {
    if data & 0b1 == 0 {
        Mirror::Vertical
    } else {
        Mirror::Horizontal
    }
}

impl Mapper004 {
    /// The battery-backed RAM as it would be saved: the 8 KB of work RAM, followed by
    /// whatever the loaded image held beyond them.
    pub open spec fn ram_image(&self) -> Seq<u8> {
        match self.loaded_image {
            Some(image) => self.ram@ + image@.subrange(RAM_SIZE as int, image@.len() as int),
            None => self.ram@,
        }
    }

    fn ram_image_vec(&self) -> (r: Vec<u8>)
        requires
            self.loaded_image matches Some(image) ==> image@.len() >= RAM_SIZE,
        ensures
            r@ == self.ram_image(),
    {
        let mut v = ram_to_vec(&self.ram);
        match &self.loaded_image {
            Some(image) => {
                let mut i: usize = RAM_SIZE;
                while i < image.len()
                    invariant
                        RAM_SIZE <= i <= image@.len(),
                        v@ == self.ram@ + image@.subrange(RAM_SIZE as int, i as int),
                    decreases image@.len() - i,
                {
                    v.push(image[i]);
                    i = i + 1;
                    assert(v@ =~= self.ram@ + image@.subrange(RAM_SIZE as int, i as int));
                }
            },
            None => {},
        }
        v
    }

    /// A freshly powered board.
    pub open spec fn initial(prg_banks: u8, chr_banks: u8, battery_backed_ram: bool) -> Mapper004 {
        Mapper004 {
            prg_banks,
            chr_banks,
            bank_select: bank_select::initial_bank_select(prg_banks),
            battery_backed_ram,
            interrupt_request: InterruptRequest { active: false, counter: 0, enabled: false, latch: 0 },
            mirror: Mirror::Horizontal,
            prg_ram_protect: PrgRamProtect { enable_chip: false, allow_writes: true },
            ram: [0; RAM_SIZE],
            loaded_image: None,
        }
    }

    pub fn new(prg_banks: u8, chr_banks: u8, battery_backed_ram: bool) -> (r: Self)
        ensures
            r.inv(),
            r == Mapper004::initial(prg_banks, chr_banks, battery_backed_ram),
    {
        Mapper004 {
            prg_banks,
            chr_banks,
            bank_select: BankSelect::new(prg_banks),
            battery_backed_ram,
            interrupt_request: InterruptRequest::new(),
            mirror: Mirror::Horizontal,
            prg_ram_protect: PrgRamProtect::new(),
            ram: [0; RAM_SIZE],
            loaded_image: None,
        }
    }

    /// $A000 write: bit 0 clear selects vertical mirroring, set selects horizontal.
    pub fn set_mirror(&mut self, data: u8)
        ensures
            *final(self) == (Mapper004 { mirror: mirror_select(data), ..*old(self) }),
    {
        self.mirror = if data & 0b1 == 0 { Mirror::Vertical } else { Mirror::Horizontal };
    }
}

impl Mapper for Mapper004 {
    proof fn lemma_console_addresses(&self, address: u16, data: u8) {
    }

    proof fn lemma_ppu_addresses(&self, address: u16) {
    }

    open spec fn inv(&self) -> bool {
        &&& self.bank_select.inv()
        &&& self.loaded_image matches Some(image) ==> image@.len() >= RAM_SIZE
    }

    open spec fn reset_spec(&self) -> Self {
        Mapper004 {
            mirror: Mirror::Horizontal,
            bank_select: self.bank_select.reset_spec(),
            interrupt_request: InterruptRequest { active: false, counter: 0, enabled: false, latch: 0 },
            ..*self
        }
    }

    open spec fn prg_banks_spec(&self) -> u8 {
        self.prg_banks
    }

    open spec fn chr_banks_spec(&self) -> u8 {
        self.chr_banks
    }

    open spec fn mirror_spec(&self) -> Mirror {
        self.mirror
    }

    open spec fn irq_active_spec(&self) -> bool {
        self.interrupt_request.active
    }

    open spec fn irq_clear_spec(&self) -> Self {
        Mapper004 { interrupt_request: InterruptRequest { active: false, ..self.interrupt_request }, ..*self }
    }

    open spec fn irq_scanline_spec(&self) -> Self {
        Mapper004 { interrupt_request: self.interrupt_request.clock_spec(), ..*self }
    }

    /// $6000-$7FFF is work RAM; $8000-$FFFF is four 8 KB PRG windows.
    open spec fn cpu_read_spec(&self, address: u16) -> MapperReadResult {
        if OPTIONAL_RAM_ADDRESS_LOWER <= address <= OPTIONAL_RAM_ADDRESS_UPPER {
            read_mapper(self.ram[(address & RAM_ADDRESS_MASK) as int])
        } else if address >= 0x8000 {
            let window = ((address - 0x8000) as u16) >> 13u16;
            read_cart(self.bank_select.prg_banks[window as int].wrapping_add((address & KILOBYTES_8_MASK) as u32))
        } else {
            read_none()
        }
    }

    open spec fn cpu_write_spec(&self, address: u16, data: u8) -> (Self, MapperWriteResult) {
        let even = address % 2 == 0;
        if OPTIONAL_RAM_ADDRESS_LOWER <= address <= OPTIONAL_RAM_ADDRESS_UPPER {
            (
                Mapper004 {
                    ram: vstd::array::spec_array_update(self.ram, (address & RAM_ADDRESS_MASK) as int, data),
                    ..*self
                },
                write_handled(),
            )
        } else if 0x8000 <= address <= 0x9FFF {
            (
                Mapper004 {
                    bank_select: if even {
                        self.bank_select.select_bank_spec(data)
                    } else {
                        self.bank_select.set_bank_data_spec(data)
                    },
                    ..*self
                },
                write_none(),
            )
        } else if 0xA000 <= address <= 0xBFFF {
            (
                if even {
                    Mapper004 { mirror: mirror_select(data), ..*self }
                } else {
                    Mapper004 {
                        prg_ram_protect: PrgRamProtect {
                            allow_writes: data & 0b0100_0000 == 0,
                            enable_chip: data & 0b1000_0000 != 0,
                        },
                        ..*self
                    }
                },
                write_none(),
            )
        } else if 0xC000 <= address <= 0xDFFF {
            (
                Mapper004 {
                    interrupt_request: if even {
                        InterruptRequest { latch: data, ..self.interrupt_request }
                    } else {
                        InterruptRequest { counter: 0, ..self.interrupt_request }
                    },
                    ..*self
                },
                write_none(),
            )
        } else if 0xE000 <= address {
            (
                Mapper004 {
                    interrupt_request: InterruptRequest {
                        enabled: !even,
                        active: if !even { self.interrupt_request.active } else { false },
                        ..self.interrupt_request
                    },
                    ..*self
                },
                write_none(),
            )
        } else {
            (*self, write_none())
        }
    }

    /// The pattern tables are eight 1 KB CHR windows.
    open spec fn ppu_read_spec(&self, address: u16) -> MapperReadResult {
        if address <= 0x1FFF {
            read_cart((self.bank_select.chr_banks[(address >> 10u16) as int] + ((address & KILOBYTES_1_MASK) as u32)) as u32)
        } else {
            read_none()
        }
    }

    open spec fn ppu_write_spec(&self, address: u16) -> Option<u32> {
        None
    }

    open spec fn load_ok(&self, data: Seq<u8>) -> bool {
        self.battery_backed_ram ==> data.len() >= RAM_SIZE
    }

    open spec fn load_ram_spec(&self, data: Vec<u8>) -> Self {
        if self.battery_backed_ram {
            Mapper004 {
                ram: choose|a: [u8; RAM_SIZE]| a@ == data@.subrange(0, RAM_SIZE as int),
                loaded_image: Some(data),
                ..*self
            }
        } else {
            *self
        }
    }

    open spec fn saved_state_spec(&self, data: MapperSaveData) -> bool {
        data matches MapperSaveData::Mapper004(d) && {
            &&& d.prg_banks == self.prg_banks
            &&& d.chr_banks == self.chr_banks
            &&& d.interrupt_request == self.interrupt_request
            &&& d.bank_select == self.bank_select
            &&& d.battery_backed_ram == self.battery_backed_ram
            &&& d.mirror == self.mirror
            &&& d.prg_ram_protect == self.prg_ram_protect
            &&& d.ram@ == self.ram_image()
        }
    }

    open spec fn saved_ram_spec(&self) -> Option<Seq<u8>> {
        if self.battery_backed_ram {
            Some(self.ram_image())
        } else {
            None
        }
    }

    fn reset(&mut self) {
        self.mirror = Mirror::Horizontal;
        self.bank_select.reset();
        self.interrupt_request.reset();
    }

    fn get_prg_banks(&self) -> u8 {
        self.prg_banks
    }

    fn get_chr_banks(&self) -> u8 {
        self.chr_banks
    }

    fn get_mirror(&self) -> Mirror {
        self.mirror
    }

    fn irq_active(&self) -> bool {
        self.interrupt_request.active
    }

    fn irq_clear(&mut self) {
        self.interrupt_request.active = false;
    }

    fn irq_scanline(&mut self) {
        self.interrupt_request.clock();
    }

    fn cpu_map_read(&self, address: u16) -> MapperReadResult {
        if OPTIONAL_RAM_ADDRESS_LOWER <= address && address <= OPTIONAL_RAM_ADDRESS_UPPER {
            let index = (address & RAM_ADDRESS_MASK) as usize;
            assert(address & 0x1FFF <= 0x1FFF) by (bit_vector);
            return MapperReadResult::from_mapper_ram(self.ram[index]);
        }
        if address >= 0x8000 {
            let address_offset = (address & KILOBYTES_8_MASK) as u32;
            let window = ((address - 0x8000) >> 13) as usize;
            assert(window < 4) by (bit_vector)
                requires
                    window == ((address - 0x8000) as u16 >> 13u16) as usize,
                    address >= 0x8000;
            let mapped_address = self.bank_select.prg_banks[window].wrapping_add(address_offset);
            MapperReadResult::from_cart_ram(mapped_address)
        } else {
            MapperReadResult::none()
        }
    }

    fn cpu_map_write(&mut self, address: u16, data: u8) -> MapperWriteResult {
        if OPTIONAL_RAM_ADDRESS_LOWER <= address && address <= OPTIONAL_RAM_ADDRESS_UPPER {
            let index = (address & RAM_ADDRESS_MASK) as usize;
            assert(address & 0x1FFF <= 0x1FFF) by (bit_vector);
            self.ram[index] = data;
            return MapperWriteResult::handled();
        }
        if 0x8000 <= address && address <= 0x9FFF {
            if address % 2 == 0 {
                self.bank_select.select_bank(data);
            } else {
                self.bank_select.set_bank_data(data);
            }
        } else if 0xA000 <= address && address <= 0xBFFF {
            if address % 2 == 0 {
                self.set_mirror(data);
            } else {
                self.prg_ram_protect.set_data(data);
            }
        } else if 0xC000 <= address && address <= 0xDFFF {
            if address % 2 == 0 {
                self.interrupt_request.latch = data;
            } else {
                self.interrupt_request.counter = 0;
            }
        } else if 0xE000 <= address {
            self.interrupt_request.set_enabled(address % 2 == 1);
        }
        MapperWriteResult::none()
    }

    fn ppu_map_read(&self, address: u16) -> MapperReadResult {
        if address <= 0x1FFF {
            let address_offset = (address & KILOBYTES_1_MASK) as u32;
            let window = (address >> 10) as usize;
            assert(window < 8) by (bit_vector)
                requires
                    window == (address >> 10u16) as usize,
                    address <= 0x1FFF;
            let mapped_address = self.bank_select.chr_banks[window] + address_offset;
            MapperReadResult::from_cart_ram(mapped_address)
        } else {
            MapperReadResult::none()
        }
    }

    fn ppu_map_write(&mut self, _address: u16, _mapped_address: &mut u32, _data: u8) -> bool {
        false
    }

    fn load_battery_backed_ram(&mut self, data: Vec<u8>) {
        if !self.battery_backed_ram {
            return;
        }
        let mut ram = [0u8; RAM_SIZE];
        let mut i: usize = 0;
        while i < RAM_SIZE
            invariant
                i <= RAM_SIZE,
                data@.len() >= RAM_SIZE,
                forall|j: int| 0 <= j < i ==> ram[j] == data@[j],
            decreases RAM_SIZE - i,
        {
            ram[i] = data[i];
            i = i + 1;
        }
        assert(ram@ =~= data@.subrange(0, RAM_SIZE as int));
        let ghost chosen = choose|a: [u8; RAM_SIZE]| a@ == data@.subrange(0, RAM_SIZE as int);
        assert(chosen@ == data@.subrange(0, RAM_SIZE as int));
        assert(chosen =~= ram);
        self.ram = ram;
        self.loaded_image = Some(data);
    }

    fn save_battery_backed_ram(&self) -> Option<Vec<u8>> {
        if !self.battery_backed_ram {
            return None;
        }
        Some(self.ram_image_vec())
    }

    fn save_state(&self) -> (r: MapperSaveData)
        ensures
            r matches MapperSaveData::Mapper004(d) && {
                &&& d.prg_banks == self.prg_banks
                &&& d.chr_banks == self.chr_banks
                &&& d.interrupt_request == self.interrupt_request
                &&& d.bank_select == self.bank_select
                &&& d.battery_backed_ram == self.battery_backed_ram
                &&& d.mirror == self.mirror
                &&& d.prg_ram_protect == self.prg_ram_protect
                &&& d.ram@ == self.ram_image()
            },
    {
        MapperSaveData::Mapper004(Mapper004SaveData {
            prg_banks: self.prg_banks,
            chr_banks: self.chr_banks,
            interrupt_request: self.interrupt_request,
            bank_select: self.bank_select,
            battery_backed_ram: self.battery_backed_ram,
            mirror: self.mirror,
            prg_ram_protect: self.prg_ram_protect,
            ram: self.ram_image_vec(),
        })
    }
}

} // verus!
