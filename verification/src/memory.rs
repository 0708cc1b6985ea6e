use vstd::prelude::*;
use crate::addresses::{
    APU_DMC_SAMPLE_LENGTH, APU_FRAME_COUNTER, APU_PULSE_1_DUTY, APU_STATUS, CONTROLLER_ONE_INPUT,
    CONTROLLER_TWO_INPUT, DMA_ADDRESS, PPU_ADDRESS_END, PPU_ADDRESS_RANGE, PPU_ADDRESS_START,
};
use crate::bus::{ram_index, lemma_stack_cells};
use crate::controller::{Controller, buttons_byte};
use crate::cpu::CpuBus;
use crate::mappers::mapper::Mapper;
use crate::ppu::{Olc2C02, PpuView, lemma_address_fields};
use crate::ppu::sprites::DirectMemoryAccess;

verus! {

pub const RAM_SIZE: usize = 2048;
pub const CPU_MAX_ADDRESS: u16 = 0x1FFF;
pub const CPU_MIRROR: u16 = 0x07FF;

/// A CPU memory map without an APU: work RAM, the PPU registers, OAM DMA and two pads at
/// $4016/$4017, behind the cartridge. Writes to the APU's registers are handed to the PPU,
/// which ignores them.
pub struct Memory {
    pub ram: [u8; RAM_SIZE],
    pub ppu: Olc2C02,
    pub controllers: [Controller; 2],
    pub dma: DirectMemoryAccess,
    pub dma_transfer: bool,
}

pub struct MemoryView {
    pub ram: Seq<u8>,
    pub ppu: PpuView,
    pub controllers: Seq<Controller>,
    pub dma: DirectMemoryAccess,
    pub dma_transfer: bool,
}

impl View for Memory {
    type V = MemoryView;

    open spec fn view(&self) -> MemoryView {
        MemoryView {
            ram: self.ram@,
            ppu: self.ppu@,
            controllers: self.controllers@,
            dma: self.dma,
            dma_transfer: self.dma_transfer,
        }
    }
}

/// The APU's registers: $4000-$4013, the status register and the frame counter.
pub open spec fn is_apu_register(address: u16) -> bool {
    (APU_PULSE_1_DUTY <= address && address <= APU_DMC_SAMPLE_LENGTH) || address == APU_STATUS
        || address == APU_FRAME_COUNTER
}

impl MemoryView {
    pub open spec fn wf(self) -> bool {
        &&& self.ppu.wf()
        &&& self.ram.len() == RAM_SIZE
        &&& self.controllers.len() == 2
    }

    pub open spec fn device_read(self, address: u16) -> (MemoryView, u8) {
        if address <= CPU_MAX_ADDRESS {
            (self, self.ram[ram_index(address)])
        } else if PPU_ADDRESS_START <= address && address <= PPU_ADDRESS_END {
            let (ppu, data) = self.ppu.cpu_read_spec(address & PPU_ADDRESS_RANGE);
            (MemoryView { ppu, ..self }, data)
        } else if CONTROLLER_ONE_INPUT <= address && address <= CONTROLLER_TWO_INPUT {
            let k = (address & 0x0001) as int;
            let c = self.controllers[k];
            (MemoryView { controllers: self.controllers.update(k, Controller { state: c.state << 1u8, ..c }), ..self }, c.state >> 7u8)
        } else {
            (self, 0)
        }
    }

    /// A CPU read: the cartridge's byte when it answers, the device's otherwise.
    pub open spec fn read_spec(self, address: u16) -> (MemoryView, u8) {
        let from_cartridge = match self.ppu.cartridge {
            Some(c) => c.cpu_read_spec(address),
            None => None,
        };
        match from_cartridge {
            Some(data) => (self, data),
            None => self.device_read(address),
        }
    }

    pub open spec fn device_write(self, address: u16, data: u8) -> MemoryView {
        if address <= CPU_MAX_ADDRESS {
            MemoryView { ram: self.ram.update(ram_index(address), data), ..self }
        } else if PPU_ADDRESS_START <= address && address <= PPU_ADDRESS_END {
            MemoryView { ppu: self.ppu.cpu_write_spec(address & PPU_ADDRESS_RANGE, data), ..self }
        } else if is_apu_register(address) {
            MemoryView { ppu: self.ppu.cpu_write_spec(address, data), ..self }
        } else if address == DMA_ADDRESS {
            MemoryView { dma: DirectMemoryAccess { page: data, address: 0, ..self.dma }, dma_transfer: true, ..self }
        } else if CONTROLLER_ONE_INPUT <= address && address <= CONTROLLER_TWO_INPUT {
            let k = (address & 0x0001) as int;
            let c = self.controllers[k];
            MemoryView {
                controllers: self.controllers.update(k, Controller { state: buttons_byte(c.buttons@), ..c }),
                ..self
            }
        } else {
            self
        }
    }

    /// A CPU write: offered to the cartridge, then to the device.
    pub open spec fn write_spec(self, address: u16, data: u8) -> MemoryView {
        match self.ppu.cartridge {
            Some(c) => {
                let (c2, handled) = c.cpu_write_spec(address, data);
                let s = MemoryView { ppu: PpuView { cartridge: Some(c2), ..self.ppu }, ..self };
                if handled {
                    s
                } else {
                    s.device_write(address, data)
                }
            },
            None => self.device_write(address, data),
        }
    }
}

impl CpuBus for Memory {
    open spec fn bus_wf(v: MemoryView) -> bool {
        v.wf()
    }

    open spec fn read_spec(v: MemoryView, address: u16) -> (MemoryView, u8) {
        v.read_spec(address)
    }

    open spec fn write_spec(v: MemoryView, address: u16, data: u8) -> MemoryView {
        v.write_spec(address, data)
    }

    proof fn lemma_stack_page(v: MemoryView, a: u16, b: u16, data: u8) {
        lemma_stack_cells(a, b);
        lemma_memory_ram_write(v, a, data);
        lemma_memory_ram_read(v, b);
        lemma_memory_ram_read_after_write(v, a, b, data);
    }

    proof fn lemma_vector_read(v: MemoryView, address: u16) {
    }

    fn read(&mut self, address: u16) -> (r: u8) {
        Memory::read(self, address, false)
    }

    fn write(&mut self, address: u16, data: u8) {
        Memory::write(self, address, data)
    }
}

impl Memory {
    pub fn new(ppu: Olc2C02) -> (r: Self)
        requires
            ppu@.wf(),
        ensures
            r@.wf(),
            r@.ppu == ppu@,
            r@.ram == Seq::new(RAM_SIZE as nat, |i: int| 0u8),
            r.dma == (DirectMemoryAccess { page: 0, address: 0, data: 0 }),
            !r.dma_transfer,
            forall|k: int| 0 <= k < 2 ==> (#[trigger] r.controllers[k]).state == 0 && r.controllers[k].button_shift == 0,
    {
        let r = Memory {
            ram: [0; RAM_SIZE],
            ppu,
            controllers: [Controller::default(), Controller::default()],
            dma: DirectMemoryAccess::default(),
            dma_transfer: false,
        };
        assert(r.ram@ =~= Seq::new(RAM_SIZE as nat, |i: int| 0u8));
        r
    }

    /// A CPU read of `address`. `read_only` is passed on to the PPU.
    pub fn read(&mut self, address: u16, read_only: bool) -> (r: u8)
        requires
            old(self)@.wf(),
        ensures
            final(self)@.wf(),
            (final(self)@, r) == old(self)@.read_spec(address),
    {
        proof {
            lemma_address_fields(address);
        }
        let mut data: u8 = 0x00;
        match &mut self.ppu.cartridge {
            Some(c) => {
                if c.cpu_read(address, &mut data) {
                    return data;
                }
            },
            None => (),
        };
        // Check the 8KB range of the CPU
        if address <= CPU_MAX_ADDRESS {
            // Need to mirror every 2KB
            data = self.ram[(address & CPU_MIRROR) as usize];
        } else if address >= PPU_ADDRESS_START && address <= PPU_ADDRESS_END {
            data = self.ppu.cpu_read(address & PPU_ADDRESS_RANGE, read_only);
        } else if address >= CONTROLLER_ONE_INPUT && address <= CONTROLLER_TWO_INPUT {
            let masked_address = (address & 0x0001) as usize;
            let mut controller = self.controllers[masked_address];
            data = controller.get_msb();
            self.controllers[masked_address] = controller;
        }
        data
    }

    pub fn write(&mut self, address: u16, data: u8)
        requires
            old(self)@.wf(),
        ensures
            final(self)@.wf(),
            final(self)@ == old(self)@.write_spec(address, data),
    {
        proof {
            lemma_address_fields(address);
        }
        match &mut self.ppu.cartridge {
            Some(c) => {
                if c.cpu_write(address, data) {
                    return;
                }
            },
            None => (),
        };
        if address <= CPU_MAX_ADDRESS {
            self.ram[(address & CPU_MIRROR) as usize] = data;
        } else if address >= PPU_ADDRESS_START && address <= PPU_ADDRESS_END {
            self.ppu.cpu_write(address & PPU_ADDRESS_RANGE, data);
        } else if self.is_apu_address(address) {
            self.ppu.cpu_write(address, data);
        } else if address == DMA_ADDRESS {
            self.dma.page = data;
            self.dma.address = 0x00;
            self.dma_transfer = true;
        } else if address >= CONTROLLER_ONE_INPUT && address <= CONTROLLER_TWO_INPUT {
            let masked_address = (address & 0x0001) as usize;
            let mut controller = self.controllers[masked_address];
            controller.set_state();
            self.controllers[masked_address] = controller;
        }
    }

    /// Clear the work RAM.
    pub fn reset(&mut self)
        requires
            old(self)@.wf(),
        ensures
            final(self)@ == (MemoryView { ram: Seq::new(RAM_SIZE as nat, |i: int| 0u8), ..old(self)@ }),
    {
        let mut i: usize = 0;
        while i < RAM_SIZE
            invariant
                i <= RAM_SIZE,
                self.ram@.len() == RAM_SIZE,
                forall|j: int| 0 <= j < i ==> self.ram@[j] == 0,
                self@ == (MemoryView { ram: self.ram@, ..old(self)@ }),
            decreases RAM_SIZE - i,
        {
            self.ram[i] = 0;
            i = i + 1;
        }
        assert(self.ram@ =~= Seq::new(RAM_SIZE as nat, |i: int| 0u8));
    }

    fn is_apu_address(&self, address: u16) -> (r: bool)
        ensures
            r == is_apu_register(address),
    {
        (address >= APU_PULSE_1_DUTY && address <= APU_DMC_SAMPLE_LENGTH) || address == APU_STATUS
            || address == APU_FRAME_COUNTER
    }
}

/// A write to work RAM ($0000-$1FFF) stores the byte in the cell its low eleven bits name
/// and changes nothing else: no cartridge takes these addresses.
pub proof fn lemma_memory_ram_write(v: MemoryView, address: u16, data: u8)
    requires
        v.wf(),
        address <= 0x1FFF,
    ensures
        v.write_spec(address, data) == (MemoryView { ram: v.ram.update(ram_index(address), data), ..v }),
        v.write_spec(address, data).wf(),
{
    lemma_address_fields(address);
    match v.ppu.cartridge {
        Some(c) => match c.mapper {
            Some(m) => {
                m.lemma_console_addresses(address, data);
                assert(c.cpu_write_spec(address, data) == (c, false));
            },
            None => {},
        },
        None => {},
    }
}

/// A read of work RAM returns the cell its low eleven bits name and changes nothing.
pub proof fn lemma_memory_ram_read(v: MemoryView, address: u16)
    requires
        v.wf(),
        address <= 0x1FFF,
    ensures
        v.read_spec(address) == (v, v.ram[ram_index(address)]),
{
    lemma_address_fields(address);
    match v.ppu.cartridge {
        Some(c) => match c.mapper {
            Some(m) => {
                m.lemma_console_addresses(address, 0);
            },
            None => {},
        },
        None => {},
    }
}

/// What a read gives back of a write: a byte written anywhere in $0000-$1FFF is read back
/// at every address that mirrors it (the 2KB of RAM repeat every $800), and the other
/// addresses there read what they held before.
pub proof fn lemma_memory_ram_read_after_write(v: MemoryView, a: u16, b: u16, data: u8)
    requires
        v.wf(),
        a <= 0x1FFF,
        b <= 0x1FFF,
    ensures
        ram_index(a) == ram_index(b) ==> v.write_spec(a, data).read_spec(b) == (v.write_spec(a, data), data),
        ram_index(a) != ram_index(b) ==> v.write_spec(a, data).read_spec(b) == (v.write_spec(a, data), v.read_spec(b).1),
{
    lemma_memory_ram_write(v, a, data);
    lemma_memory_ram_read(v.write_spec(a, data), b);
    lemma_memory_ram_read(v, b);
    lemma_address_fields(a);
    lemma_address_fields(b);
}

} // verus!
