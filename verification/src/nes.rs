use vstd::prelude::*;
use crate::audio::{Apu2A03, MixerLevels};
use crate::bus::{Bus, BusView};
use crate::cartridge::CartridgeView;
use crate::cpu::{CpuView, Flags6502, Olc6502, NON_MASK_INTERRUPT_PROGRAM_COUNTER_ADDRESS};
use crate::mappers::mapper::Mapper;
use crate::ppu::{Olc2C02, PpuView};
use crate::ppu::sprites::DirectMemoryAccess;

verus! {

/// The console: the CPU with everything on its bus, and the master clock that paces the
/// PPU (every tick), the CPU (every third) and the APU (every sixth).
pub struct Nes {
    pub cpu: Olc6502<Bus>,
    pub dma_dummy: bool,
    pub system_clock_counter: u32,
}

pub struct NesView {
    pub cpu: CpuView<Bus>,
    pub dma_dummy: bool,
    pub system_clock_counter: u32,
}

impl View for Nes {
    type V = NesView;

    open spec fn view(&self) -> NesView {
        NesView { cpu: self.cpu@, dma_dummy: self.dma_dummy, system_clock_counter: self.system_clock_counter }
    }
}

/// What one master clock produced: whether the PPU finished a frame, and the mixer input
/// of the APU clock, on the ticks that have one.
#[derive(Clone, Copy, PartialEq, Eq, Structural, Debug)]
pub struct ClockOutput {
    pub frame_complete: bool,
    pub audio: Option<MixerLevels>,
}

impl NesView {
    pub open spec fn wf(self) -> bool {
        self.cpu.wf()
    }

    pub open spec fn bus(self) -> BusView {
        self.cpu.bus
    }

    pub open spec fn with_bus(self, bus: BusView) -> NesView {
        NesView { cpu: CpuView { bus, ..self.cpu }, ..self }
    }

    /// The PPU's clock, and whether it completed a frame (the flag is taken).
    pub open spec fn ppu_step(self) -> (NesView, bool) {
        let ppu = self.bus().ppu.clock_spec();
        (self.with_bus(BusView { ppu: PpuView { frame_complete: false, ..ppu }, ..self.bus() }), ppu.frame_complete)
    }

    /// One CPU-clock's worth of OAM DMA: a dummy cycle first, then a read on even ticks
    /// and a write to OAM on odd ones, 256 times; then the CPU resumes.
    pub open spec fn dma_step(self) -> NesView {
        let bus = self.bus();
        let dma = bus.dma;
        if self.dma_dummy {
            if self.system_clock_counter % 2 == 1 {
                NesView { dma_dummy: false, ..self }
            } else {
                self
            }
        } else if self.system_clock_counter % 2 == 0 {
            let (b2, data) = bus.read_spec((((dma.page as u16) << 8u16) | (dma.address as u16)) as u16);
            self.with_bus(BusView { dma: DirectMemoryAccess { data, ..b2.dma }, ..b2 })
        } else {
            let next = dma.address.wrapping_add(1);
            let b2 = BusView {
                ppu: PpuView { oam: bus.ppu.oam.update(dma.address as int, dma.data), ..bus.ppu },
                dma: DirectMemoryAccess { address: next, ..dma },
                dma_transfer: if next == 0 { false } else { bus.dma_transfer },
                ..bus
            };
            NesView { dma_dummy: if next == 0 { true } else { self.dma_dummy }, ..self.with_bus(b2) }
        }
    }

    /// On every third tick the CPU runs one cycle, or, during a DMA transfer, the DMA does.
    pub open spec fn cpu_step(self) -> (NesView, Result<(), u8>) {
        if self.system_clock_counter % 3 == 0 {
            if self.bus().dma_transfer {
                (self.dma_step(), Ok(()))
            } else {
                let (cpu, r) = self.cpu.clock_spec();
                (NesView { cpu, ..self }, r)
            }
        } else {
            (self, Ok(()))
        }
    }

    /// On every sixth tick the APU runs.
    pub open spec fn apu_step(self) -> (NesView, Option<MixerLevels>) {
        if self.system_clock_counter % 6 == 0 {
            let (apu, levels) = self.bus().apu.clock_spec();
            (self.with_bus(BusView { apu, ..self.bus() }), Some(levels))
        } else {
            (self, None)
        }
    }

    /// A pending NMI from the PPU is delivered.
    pub open spec fn nmi_step(self) -> NesView {
        if self.bus().ppu.nmi {
            let s = self.with_bus(BusView { ppu: PpuView { nmi: false, ..self.bus().ppu }, ..self.bus() });
            NesView { cpu: s.cpu.interrupt_spec(NON_MASK_INTERRUPT_PROGRAM_COUNTER_ADDRESS, 8), ..s }
        } else {
            self
        }
    }

    /// The APU's frame interrupt is delivered when interrupts are enabled (and stays pending
    /// otherwise).
    pub open spec fn apu_irq_step(self) -> NesView {
        if self.bus().apu.trigger_interrupt && self.cpu.flag(Flags6502::DisableInterrupts) == 0 {
            let s = NesView { cpu: self.cpu.interrupt_request_spec(), ..self };
            s.with_bus(BusView { apu: Apu2A03 { trigger_interrupt: false, ..s.bus().apu }, ..s.bus() })
        } else {
            self
        }
    }

    /// An active mapper interrupt is acknowledged, and delivered when interrupts are enabled.
    pub open spec fn mapper_irq_step(self) -> NesView {
        match self.bus().ppu.cartridge {
            Some(c) => match c.mapper {
                Some(m) => if m.irq_active_spec() {
                    let cart = CartridgeView { mapper: Some(m.irq_clear_spec()), ..c };
                    let s = self.with_bus(BusView { ppu: PpuView { cartridge: Some(cart), ..self.bus().ppu }, ..self.bus() });
                    if s.cpu.flag(Flags6502::DisableInterrupts) == 0 {
                        NesView { cpu: s.cpu.interrupt_request_spec(), ..s }
                    } else {
                        s
                    }
                } else {
                    self
                },
                None => self,
            },
            None => self,
        }
    }

    /// One master clock (see the steps above, in this order); the tick count wraps at 2^32.
    /// A halting opcode stops the clock where it is and is reported as `Err`.
    pub open spec fn clock_spec(self) -> (NesView, Result<ClockOutput, u8>) {
        let (s1, frame_complete) = self.ppu_step();
        let (s2, r) = s1.cpu_step();
        match r {
            Err(opcode) => (s2, Err(opcode)),
            Ok(_) => {
                let (s3, audio) = s2.apu_step();
                let s4 = s3.nmi_step().apu_irq_step().mapper_irq_step();
                (
                    NesView { system_clock_counter: s4.system_clock_counter.wrapping_add(1), ..s4 },
                    Ok(ClockOutput { frame_complete, audio }),
                )
            },
        }
    }
}

impl Nes {
    pub fn new() -> (r: Self)
        ensures
            r@.wf(),
            r.cpu.bus@.ppu == PpuView::initial(),
            r.cpu.bus.apu.is_initial(),
            !r.cpu.bus.dma_transfer,
            !r.dma_dummy,
            r.system_clock_counter == 0,
    {
        Nes { cpu: Olc6502::new(Bus::new()), dma_dummy: false, system_clock_counter: 0 }
    }

    /// Advance the console by one master clock (see `NesView::clock_spec`).
    pub fn clock(&mut self) -> (r: Result<ClockOutput, u8>)
        requires
            old(self)@.wf(),
        ensures
            final(self)@.wf(),
            (final(self)@, r) == old(self)@.clock_spec(),
    {
        let frame_complete = self.clock_ppu();
        let result = self.clock_cpu();
        if let Err(opcode) = result {
            return Err(opcode);
        }
        let audio = self.clock_apu();
        self.deliver_nmi();
        self.deliver_apu_irq();
        self.check_mapper_irq();
        self.system_clock_counter = self.system_clock_counter.wrapping_add(1);
        Ok(ClockOutput { frame_complete, audio })
    }

    fn clock_ppu(&mut self) -> (r: bool)
        requires
            old(self)@.wf(),
        ensures
            final(self)@.wf(),
            (final(self)@, r) == old(self)@.ppu_step(),
    {
        self.cpu.bus.ppu.clock();
        let frame_complete = self.cpu.bus.ppu.frame_complete;
        self.cpu.bus.ppu.frame_complete = false;
        frame_complete
    }

    fn clock_cpu(&mut self) -> (r: Result<(), u8>)
        requires
            old(self)@.wf(),
        ensures
            final(self)@.wf(),
            (final(self)@, r) == old(self)@.cpu_step(),
    {
        // The CPU runs 3 times slower than the PPU
        if self.system_clock_counter % 3 == 0 {
            // If DMA transer is happening, then the cpu is suspended
            if self.cpu.bus.dma_transfer {
                self.dma_transfer();
                Ok(())
            } else {
                self.cpu.clock()
            }
        } else {
            Ok(())
        }
    }

    fn clock_apu(&mut self) -> (r: Option<MixerLevels>)
        requires
            old(self)@.wf(),
        ensures
            final(self)@.wf(),
            (final(self)@, r) == old(self)@.apu_step(),
    {
        // The APU runs 6 times slower than the PPU
        if self.system_clock_counter % 6 == 0 {
            Some(self.cpu.bus.apu.clock())
        } else {
            None
        }
    }

    fn deliver_nmi(&mut self)
        requires
            old(self)@.wf(),
        ensures
            final(self)@.wf(),
            final(self)@ == old(self)@.nmi_step(),
    {
        if self.cpu.bus.ppu.nmi {
            self.cpu.bus.ppu.nmi = false;
            self.cpu.non_mask_interrupt_request();
        }
    }

    fn deliver_apu_irq(&mut self)
        requires
            old(self)@.wf(),
        ensures
            final(self)@.wf(),
            final(self)@ == old(self)@.apu_irq_step(),
    {
        if self.cpu.bus.apu.trigger_interrupt && self.cpu.get_flag(Flags6502::DisableInterrupts) == 0 {
            self.cpu.interrupt_request();
            self.cpu.bus.apu.trigger_interrupt = false;
        }
    }

    /// Reset the CPU and the master clock.
    pub fn reset(&mut self)
        requires
            old(self)@.wf(),
        ensures
            final(self)@.wf(),
            final(self)@ == (NesView { cpu: old(self)@.cpu.reset_spec(), system_clock_counter: 0, ..old(self)@ }),
    {
        self.cpu.reset();
        self.system_clock_counter = 0;
    }

    /// The system bus.
    pub fn bus(&mut self) -> (r: &mut Bus)
        ensures
            *r == old(self).cpu.bus,
            final(self).cpu.bus == *final(r),
            final(self).cpu@ == (CpuView { bus: final(r)@, ..old(self).cpu@ }),
            final(self).dma_dummy == old(self).dma_dummy,
            final(self).system_clock_counter == old(self).system_clock_counter,
    {
        &mut self.cpu.bus
    }

    /// The picture processing unit.
    pub fn ppu(&mut self) -> (r: &mut Olc2C02)
        ensures
            *r == old(self).cpu.bus.ppu,
            final(self).cpu.bus.ppu == *final(r),
            final(self).cpu@ == (CpuView { bus: BusView { ppu: final(r)@, ..old(self).cpu.bus@ }, ..old(self).cpu@ }),
            final(self).dma_dummy == old(self).dma_dummy,
            final(self).system_clock_counter == old(self).system_clock_counter,
    {
        &mut self.cpu.bus.ppu
    }

    /// The audio processing unit.
    pub fn apu(&mut self) -> (r: &mut Apu2A03)
        ensures
            *r == old(self).cpu.bus.apu,
            final(self).cpu.bus.apu == *final(r),
            final(self).cpu@ == (CpuView { bus: BusView { apu: *final(r), ..old(self).cpu.bus@ }, ..old(self).cpu@ }),
            final(self).dma_dummy == old(self).dma_dummy,
            final(self).system_clock_counter == old(self).system_clock_counter,
    {
        &mut self.cpu.bus.apu
    }

    fn check_mapper_irq(&mut self)
        requires
            old(self)@.wf(),
        ensures
            final(self)@.wf(),
            final(self)@ == old(self)@.mapper_irq_step(),
    {
        let mut trigger_interrupt = false;
        match &mut self.cpu.bus.ppu.cartridge {
            Some(c) => match &mut c.mapper {
                Some(m) => {
                    if m.irq_active() {
                        trigger_interrupt = true;
                        m.irq_clear();
                    }
                },
                None => (),
            },
            None => (),
        }
        if trigger_interrupt && self.cpu.get_flag(Flags6502::DisableInterrupts) == 0 {
            self.cpu.interrupt_request();
        }
    }

    fn dma_transfer(&mut self)
        requires
            old(self)@.wf(),
        ensures
            final(self)@.wf(),
            final(self)@ == old(self)@.dma_step(),
    {
        // The DMA is synchronized with every other clock cycle
        // Without loss of generality, we will do it every odd cycle
        if self.dma_dummy {
            if self.system_clock_counter % 2 == 1 {
                self.dma_dummy = false;
            }
        } else {
            if self.system_clock_counter % 2 == 0 {
                // Read data from cpu space
                let dma = self.cpu.bus.dma;
                let address = ((dma.page as u16) << 8) | (dma.address as u16);
                let data = self.cpu.read(address);
                self.cpu.bus.dma.data = data;
            } else {
                // Write it to the ppu's OAM and increment DMA address
                let dma = self.cpu.bus.dma;
                self.cpu.bus.ppu.oam[dma.address as usize] = dma.data;
                self.cpu.bus.dma.address = dma.address.wrapping_add(1);
                // Since we're wrapping around, we know when it goes back to zero that it has written all 256 bytes
                if self.cpu.bus.dma.address == 0x00 {
                    self.cpu.bus.dma_transfer = false;
                    self.dma_dummy = true;
                }
            }
        }
    }
}

} // verus!
