use vstd::prelude::*;
use crate::addresses::{AddressRange, address_range, get_address_range, PPU_ADDRESS_RANGE};
use crate::audio::Apu2A03;
use crate::cartridge::Cartridge;
use crate::controller::{Controller, buttons_byte};
use crate::cpu::CpuBus;
use crate::mappers::mapper::Mapper;
use crate::ppu::{Olc2C02, PpuView, lemma_address_fields};
use crate::ppu::sprites::DirectMemoryAccess;

verus! {

pub const RAM_SIZE: usize = 2048;
pub const CPU_MIRROR: u16 = 0x07FF;

/// The CPU's system bus: 2KB of work RAM mirrored through $0000-$1FFF, the PPU registers
/// mirrored through $2000-$3FFF, OAM DMA at $4014, the APU and the pads, and the cartridge,
/// which sees every access first.
pub struct Bus {
    pub ppu: Olc2C02,
    pub apu: Apu2A03,
    pub controllers: [Controller; 2],
    pub dma: DirectMemoryAccess,
    pub dma_transfer: bool,
    pub ram: [u8; RAM_SIZE],
}

/// The abstract state of the bus.
pub struct BusView {
    pub ppu: PpuView,
    pub apu: Apu2A03,
    pub controllers: Seq<Controller>,
    pub dma: DirectMemoryAccess,
    pub dma_transfer: bool,
    pub ram: Seq<u8>,
}

impl View for Bus {
    type V = BusView;

    open spec fn view(&self) -> BusView {
        BusView {
            ppu: self.ppu@,
            apu: self.apu,
            controllers: self.controllers@,
            dma: self.dma,
            dma_transfer: self.dma_transfer,
            ram: self.ram@,
        }
    }
}

/// The RAM cell that a CPU address in $0000-$1FFF reaches: the 2KB repeat four times.
pub open spec fn ram_index(address: u16) -> int {
    (address & CPU_MIRROR) as int
}

impl BusView {
    pub open spec fn wf(self) -> bool {
        &&& self.ppu.wf()
        &&& self.apu.wf()
        &&& self.ram.len() == RAM_SIZE
        &&& self.controllers.len() == 2
    }

    /// A read of a device (the cartridge having let the address pass).
    pub open spec fn device_read(self, address: u16) -> (BusView, u8) {
        match address_range(address) {
            AddressRange::Cpu => (self, self.ram[ram_index(address)]),
            AddressRange::Ppu => {
                let (ppu, data) = self.ppu.cpu_read_spec(address & PPU_ADDRESS_RANGE);
                (BusView { ppu, ..self }, data)
            },
            AddressRange::Dma => (self, 0),
            AddressRange::Apu => {
                let (apu, data) = self.apu.read_spec(address);
                (BusView { apu, ..self }, data)
            },
            AddressRange::Controller => {
                let k = (address & 0x0001) as int;
                let c = self.controllers[k];
                (BusView { controllers: self.controllers.update(k, Controller { state: c.state << 1u8, ..c }), ..self }, c.state >> 7u8)
            },
            AddressRange::Unknown => (self, 0),
        }
    }

    /// A CPU read of `address`: the cartridge's byte when it answers, the device's otherwise.
    pub open spec fn read_spec(self, address: u16) -> (BusView, u8) {
        let from_cartridge = match self.ppu.cartridge {
            Some(c) => c.cpu_read_spec(address),
            None => None,
        };
        match from_cartridge {
            Some(data) => (self, data),
            None => self.device_read(address),
        }
    }

    /// A write to a device (the cartridge having let the address pass).
    pub open spec fn device_write(self, address: u16, data: u8) -> BusView {
        match address_range(address) {
            AddressRange::Cpu => BusView { ram: self.ram.update(ram_index(address), data), ..self },
            AddressRange::Ppu => BusView { ppu: self.ppu.cpu_write_spec(address & PPU_ADDRESS_RANGE, data), ..self },
            AddressRange::Dma => BusView {
                dma: DirectMemoryAccess { page: data, address: 0, ..self.dma },
                dma_transfer: true,
                ..self
            },
            AddressRange::Apu => BusView { apu: self.apu.write_spec(address, data), ..self },
            AddressRange::Controller => {
                let k = (address & 0x0001) as int;
                let c = self.controllers[k];
                BusView {
                    controllers: self.controllers.update(k, Controller { state: buttons_byte(c.buttons@), ..c }),
                    ..self
                }
            },
            AddressRange::Unknown => self,
        }
    }

    /// A CPU write of `data` to `address`: offered to the cartridge, then to the device.
    pub open spec fn write_spec(self, address: u16, data: u8) -> BusView {
        match self.ppu.cartridge {
            Some(c) => {
                let (c2, handled) = c.cpu_write_spec(address, data);
                let s = BusView { ppu: PpuView { cartridge: Some(c2), ..self.ppu }, ..self };
                if handled {
                    s
                } else {
                    s.device_write(address, data)
                }
            },
            None => self.device_write(address, data),
        }
    }
}

impl CpuBus for Bus {
    open spec fn bus_wf(v: BusView) -> bool {
        v.wf()
    }

    open spec fn read_spec(v: BusView, address: u16) -> (BusView, u8) {
        v.read_spec(address)
    }

    open spec fn write_spec(v: BusView, address: u16, data: u8) -> BusView {
        v.write_spec(address, data)
    }

    proof fn lemma_stack_page(v: BusView, a: u16, b: u16, data: u8) {
        lemma_stack_cells(a, b);
        lemma_ram_write(v, a, data);
        lemma_ram_read(v, b);
        lemma_ram_read_after_write(v, a, b, data);
    }

    proof fn lemma_vector_read(v: BusView, address: u16) {
        lemma_cartridge_space_read(v, address);
    }

    fn read(&mut self, address: u16) -> (r: u8) {
        proof {
            lemma_address_fields(address);
        }
        let mut data: u8 = 0;
        match &mut self.ppu.cartridge {
            Some(c) => {
                if c.cpu_read(address, &mut data) {
                    return data;
                }
            },
            None => (),
        };
        data = match get_address_range(address) {
            AddressRange::Cpu => self.ram[(address & CPU_MIRROR) as usize],
            AddressRange::Ppu => self.ppu.cpu_read(address & PPU_ADDRESS_RANGE, false),
            AddressRange::Dma => 0,
            AddressRange::Apu => self.apu.read(address),
            AddressRange::Controller => self.read_controllers(address),
            AddressRange::Unknown => 0,
        };
        data
    }

    fn write(&mut self, address: u16, data: u8) {
        proof {
            lemma_address_fields(address);
        }
        match &mut self.ppu.cartridge {
            Some(c) => {
                if c.cpu_write(address, data) {
                    return;
                }
            },
            None => (),
        };
        match get_address_range(address) {
            AddressRange::Cpu => self.ram[(address & CPU_MIRROR) as usize] = data,
            AddressRange::Ppu => self.ppu.cpu_write(address & PPU_ADDRESS_RANGE, data),
            AddressRange::Dma => self.write_dma(data),
            AddressRange::Apu => self.apu.write(address, data),
            AddressRange::Controller => self.write_controllers(address, data),
            AddressRange::Unknown => (),
        }
    }
}

impl Bus {
    pub fn new() -> (r: Self)
        ensures
            r@.wf(),
            r@.ppu == PpuView::initial(),
            r.apu.is_initial(),
            r.dma == (DirectMemoryAccess { page: 0, address: 0, data: 0 }),
            !r.dma_transfer,
            r@.ram == Seq::new(RAM_SIZE as nat, |i: int| 0u8),
            forall|k: int| 0 <= k < 2 ==> (#[trigger] r.controllers[k]).state == 0 && r.controllers[k].button_shift == 0,
    {
        let r = Bus {
            ppu: Olc2C02::new(),
            apu: Apu2A03::initialize(),
            controllers: [Controller::default(), Controller::default()],
            dma: DirectMemoryAccess::default(),
            dma_transfer: false,
            ram: [0; RAM_SIZE],
        };
        assert(r.ram@ =~= Seq::new(RAM_SIZE as nat, |i: int| 0u8));
        r
    }

    /// Plug a cartridge in, then reset the system.
    pub fn load_cartridge(&mut self, cartridge: Cartridge)
        requires
            old(self)@.wf(),
            cartridge@.wf(),
        ensures
            final(self)@.wf(),
            final(self)@ == (BusView {
                ppu: PpuView { cartridge: Some(cartridge@.reset_spec()), ..old(self)@.ppu },
                ram: Seq::new(RAM_SIZE as nat, |i: int| 0u8),
                ..old(self)@
            }),
    {
        self.ppu.cartridge = Some(cartridge);
        self.reset();
    }

    /// Reset: the cartridge's mapper returns to its power-on banking and the RAM is cleared.
    pub fn reset(&mut self)
        requires
            old(self)@.wf(),
        ensures
            final(self)@.wf(),
            final(self)@ == (BusView {
                ppu: PpuView {
                    cartridge: match old(self)@.ppu.cartridge {
                        Some(c) => Some(c.reset_spec()),
                        None => None,
                    },
                    ..old(self)@.ppu
                },
                ram: Seq::new(RAM_SIZE as nat, |i: int| 0u8),
                ..old(self)@
            }),
    {
        self.apu.reset();
        match &mut self.ppu.cartridge {
            Some(c) => c.reset(),
            None => (),
        };
        let ghost before = self@;
        assert(before.wf());
        let mut i: usize = 0;
        while i < RAM_SIZE
            invariant
                i <= RAM_SIZE,
                self.ram@.len() == RAM_SIZE,
                forall|j: int| 0 <= j < i ==> self.ram@[j] == 0,
                self@ == (BusView { ram: self.ram@, ..before }),
                before.wf(),
            decreases RAM_SIZE - i,
        {
            self.ram[i] = 0;
            i = i + 1;
        }
        assert(self.ram@ =~= Seq::new(RAM_SIZE as nat, |i: int| 0u8));
    }

    fn read_controllers(&mut self, address: u16) -> (r: u8)
        requires
            old(self)@.wf(),
            address_range(address) == AddressRange::Controller,
        ensures
            final(self)@.wf(),
            (final(self)@, r) == old(self)@.device_read(address),
    {
        proof {
            lemma_address_fields(address);
        }
        let masked_address = (address & 0x0001) as usize;
        let mut controller = self.controllers[masked_address];
        let msb = controller.get_msb();
        self.controllers[masked_address] = controller;
        msb
    }

    fn write_dma(&mut self, data: u8)
        ensures
            final(self)@ == (BusView {
                dma: DirectMemoryAccess { page: data, address: 0, ..old(self).dma },
                dma_transfer: true,
                ..old(self)@
            }),
    {
        self.dma.page = data;
        self.dma.address = 0x00;
        self.dma_transfer = true;
    }

    fn write_controllers(&mut self, address: u16, _data: u8)
        requires
            old(self)@.wf(),
            address_range(address) == AddressRange::Controller,
        ensures
            final(self)@.wf(),
            final(self)@ == old(self)@.device_write(address, _data),
    {
        proof {
            lemma_address_fields(address);
        }
        let masked_address = (address & 0x0001) as usize;
        let mut controller = self.controllers[masked_address];
        controller.set_state();
        self.controllers[masked_address] = controller;
    }
}

/// Two stack-page addresses name the same RAM cell exactly when they are equal.
pub proof fn lemma_stack_cells(a: u16, b: u16)
    by (bit_vector)
    requires
        0x0100 <= a <= 0x01FF,
        0x0100 <= b <= 0x01FF,
    ensures
        (a & 0x07FF == b & 0x07FF) == (a == b),
{
}

/// A write to work RAM ($0000-$1FFF) stores the byte in the cell its low eleven bits name,
/// and changes nothing else: no cartridge takes these addresses.
pub proof fn lemma_ram_write(v: BusView, address: u16, data: u8)
    requires
        v.wf(),
        address <= 0x1FFF,
    ensures
        v.write_spec(address, data) == (BusView { ram: v.ram.update(ram_index(address), data), ..v }),
        v.write_spec(address, data).wf(),
{
    lemma_address_fields(address);
    match v.ppu.cartridge {
        Some(c) => match c.mapper {
            Some(m) => {
                m.lemma_console_addresses(address, data);
                assert(c.cpu_write_spec(address, data) == (c, false));
            },
            None => {},
        },
        None => {},
    }
}

/// A read of work RAM returns the cell its low eleven bits name and changes nothing.
pub proof fn lemma_ram_read(v: BusView, address: u16)
    requires
        v.wf(),
        address <= 0x1FFF,
    ensures
        v.read_spec(address) == (v, v.ram[ram_index(address)]),
{
    lemma_address_fields(address);
    match v.ppu.cartridge {
        Some(c) => match c.mapper {
            Some(m) => {
                m.lemma_console_addresses(address, 0);
            },
            None => {},
        },
        None => {},
    }
}

/// What a read gives back of a write: a byte written anywhere in $0000-$1FFF is read
/// back at every address that mirrors it (the 2KB of RAM repeat every $800), and other
/// cells keep what they held.
pub proof fn lemma_ram_read_after_write(v: BusView, a: u16, b: u16, data: u8)
    requires
        v.wf(),
        a <= 0x1FFF,
        b <= 0x1FFF,
    ensures
        ram_index(a) == ram_index(b) ==> v.write_spec(a, data).read_spec(b) == (v.write_spec(a, data), data),
        ram_index(a) != ram_index(b) ==> v.write_spec(a, data).read_spec(b) == (v.write_spec(a, data), v.read_spec(b).1),
{
    lemma_ram_write(v, a, data);
    lemma_ram_read(v.write_spec(a, data), b);
    lemma_ram_read(v, b);
    lemma_address_fields(a);
    lemma_address_fields(b);
}

/// The eight PPU registers repeat through $2000-$3FFF: two addresses there with the same
/// low three bits read and write the same register.
pub proof fn lemma_ppu_registers_mirrored(v: BusView, a: u16, b: u16, data: u8)
    requires
        v.wf(),
        0x2000 <= a <= 0x3FFF,
        0x2000 <= b <= 0x3FFF,
        a & 0x0007 == b & 0x0007,
    ensures
        v.read_spec(a) == v.read_spec(b),
        v.write_spec(a, data) == v.write_spec(b, data),
{
    match v.ppu.cartridge {
        Some(c) => match c.mapper {
            Some(m) => {
                m.lemma_console_addresses(a, data);
                m.lemma_console_addresses(b, data);
                assert(c.cpu_write_spec(a, data) == (c, false));
                assert(c.cpu_write_spec(b, data) == (c, false));
            },
            None => {},
        },
        None => {},
    }
}

/// Reads above the console's devices ($4018 up) change nothing on the bus, whether the
/// cartridge answers them or not.
pub proof fn lemma_cartridge_space_read(v: BusView, address: u16)
    requires
        v.wf(),
        address >= 0x4018,
    ensures
        v.read_spec(address).0 == v,
{
}

} // verus!
