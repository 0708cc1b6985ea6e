pub mod envelope;
pub mod dmc;
pub mod filter;
pub mod noise;
pub mod pulse;
pub mod sequencer;
pub mod sweep;
pub mod tables;
pub mod timer;
pub mod triangle;

use vstd::prelude::*;
use crate::addresses::{
    APU_PULSE_1_DUTY, APU_PULSE_1_SWEEP, APU_PULSE_1_TIMER_LOW, APU_PULSE_1_TIMER_HIGH, APU_PULSE_2_DUTY,
    APU_PULSE_2_SWEEP, APU_PULSE_2_TIMER_LOW, APU_PULSE_2_TIMER_HIGH, APU_TRIANGLE_COUNTER_RELOAD,
    APU_TRIANGLE_TIMER_LOW, APU_TRIANGLE_TIMER_HIGH, APU_NOISE_VOLUME, APU_NOISE_PERIOD, APU_NOISE_COUNTER_LOAD,
    APU_DMC_FLAGS_RATE, APU_DMC_DIRECT_LOAD, APU_DMC_SAMPLE_ADDRESS, APU_DMC_SAMPLE_LENGTH, APU_STATUS,
    APU_FRAME_COUNTER,
};
use dmc::DeltaModulationChannel;
use noise::Noise;
use pulse::Pulse;
use timer::Timer;
use triangle::Triangle;

verus! {

/// Bounds of the register fields and period arithmetic of the sound channels.
pub proof fn lemma_audio_bits(p: u16, d: u8, s: u8)
    by (bit_vector)
    ensures
        p <= 0x7FFF ==> (p & 0xFF00) | (d as u16) <= 0x7FFF,
        (((d & 0b111) as u16) << 8u16) | (p & 0x00FF) <= 0x7FF,
        (d & 0b11000000) >> 6u8 < 4,
        (d & 0b11111000) >> 3u8 < 32,
        d & 0b1111 < 16,
        d & 0b111 < 8,
        (d & 0b1110000) >> 4u8 < 8,
        d >> 7u8 <= 1,
        (d >> 6u8) & 0b1 <= 1,
        s < 16 ==> p >> s <= p,
        s < 16 && p <= 0x7FF ==> p + (p >> s) <= 0xFFE,
{
}

pub const SAMPLE_RATE: i32 = 44_100;

/// The frame counter steps at which quarter and half frame clocks fall.
pub open spec fn is_frame_counter_step(counter: usize) -> bool {
    counter == 3728 || counter == 7456 || counter == 11185 || counter == 14914 || counter == 18640
}

/// The mixer inputs of one APU clock: the sum of the two pulse levels, and the weighted
/// sum 3 * triangle + 2 * noise + DMC. They index the nonlinear mixer's lookup tables
/// (31 and 203 entries).
#[derive(Clone, Copy, PartialEq, Eq, Structural, Debug)]
pub struct MixerLevels {
    pub pulse: u8,
    pub tnd: u8,
}

/// The 2A03 audio processing unit: two pulse channels, a triangle, a noise channel and a
/// delta modulation channel, stepped by a frame counter.
#[derive(Debug)]
pub struct Apu2A03 {
    pub trigger_interrupt: bool,
    pub clock_counter: u32,
    pub dmc: DeltaModulationChannel,
    /// Maintains musical timing of the apu
    pub frame_clock_counter: usize,
    pub frame_interrupt: bool,
    pub interrupt_inhibit: bool,
    pub noise: Noise,
    pub pulse_1: Pulse,
    pub pulse_2: Pulse,
    pub step_mode: u8,
    pub triangle: Triangle,
}

/// The status byte: one bit for each channel that is still sounding, bit 6 the frame
/// interrupt and bit 7 the DMC interrupt.
pub open spec fn status_byte(p1: bool, p2: bool, tri: bool, noise: bool, dmc: bool, frame: bool, dmc_irq: bool) -> u8 {
    ((if p1 { 0x01int } else { 0 }) + (if p2 { 0x02int } else { 0 }) + (if tri { 0x04int } else { 0 })
        + (if noise { 0x08int } else { 0 }) + (if dmc { 0x10int } else { 0 }) + (if frame { 0x40int } else { 0 })
        + (if dmc_irq { 0x80int } else { 0 })) as u8
}

proof fn lemma_status_byte(p1: bool, p2: bool, tri: bool, noise: bool, dmc: bool, frame: bool, dmc_irq: bool)
    by (bit_vector)
    ensures
        ({
            let s0: u8 = 0;
            let s1: u8 = if p1 { s0 | 1 } else { s0 };
            let s2: u8 = if p2 { s1 | 2 } else { s1 };
            let s3: u8 = if tri { s2 | 4 } else { s2 };
            let s4: u8 = if noise { s3 | 8 } else { s3 };
            let s5: u8 = if dmc { s4 | 16 } else { s4 };
            let s6: u8 = if frame { s5 | 64 } else { s5 };
            let s7: u8 = if dmc_irq { s6 | 128 } else { s6 };
            s7 == ((if p1 { 0x01int } else { 0 }) + (if p2 { 0x02int } else { 0 }) + (if tri { 0x04int } else { 0 })
                + (if noise { 0x08int } else { 0 }) + (if dmc { 0x10int } else { 0 }) + (if frame { 0x40int } else { 0 })
                + (if dmc_irq { 0x80int } else { 0 })) as u8
        }),
{
}

proof fn lemma_status_bits(p1: bool, p2: bool, tri: bool, noise: bool, dmc: bool, frame: bool, dmc_irq: bool)
    by (bit_vector)
    ensures
        ({
            let r = ((if p1 { 0x01int } else { 0 }) + (if p2 { 0x02int } else { 0 }) + (if tri { 0x04int } else { 0 })
                + (if noise { 0x08int } else { 0 }) + (if dmc { 0x10int } else { 0 }) + (if frame { 0x40int } else { 0 })
                + (if dmc_irq { 0x80int } else { 0 })) as u8;
            &&& (r & 0x01 != 0) == p1
            &&& (r & 0x02 != 0) == p2
            &&& (r & 0x04 != 0) == tri
            &&& (r & 0x08 != 0) == noise
            &&& (r & 0x10 != 0) == dmc
            &&& r & 0x20 == 0
            &&& (r & 0x40 != 0) == frame
            &&& (r & 0x80 != 0) == dmc_irq
        }),
{
}

/// A read of $4015 reports each channel in its own bit: bit 0 is set exactly when pulse 1's
/// length counter is non-zero, bit 1 pulse 2's, bit 2 the triangle's, bit 3 the noise
/// channel's, bit 4 when the DMC has bytes left to play; bit 5 is clear, bit 6 is the frame
/// interrupt and bit 7 the DMC interrupt. The read acknowledges the frame interrupt and
/// changes nothing else.
pub proof fn lemma_status_read(apu: Apu2A03)
    ensures
        ({
            let (after, r) = apu.read_status_spec();
            &&& (r & 0x01 != 0) == (apu.pulse_1.length_counter != 0)
            &&& (r & 0x02 != 0) == (apu.pulse_2.length_counter != 0)
            &&& (r & 0x04 != 0) == (apu.triangle.length_counter != 0)
            &&& (r & 0x08 != 0) == (apu.noise.length_counter != 0)
            &&& (r & 0x10 != 0) == (apu.dmc.remaining_bytes > 0)
            &&& r & 0x20 == 0
            &&& (r & 0x40 != 0) == apu.frame_interrupt
            &&& (r & 0x80 != 0) == apu.dmc.interrupt
            &&& after == Apu2A03 { frame_interrupt: false, ..apu }
        }),
{
    lemma_status_bits(
        apu.pulse_1.length_counter != 0,
        apu.pulse_2.length_counter != 0,
        apu.triangle.length_counter != 0,
        apu.noise.length_counter != 0,
        apu.dmc.remaining_bytes > 0,
        apu.frame_interrupt,
        apu.dmc.interrupt,
    );
}

impl Apu2A03 {
    pub open spec fn wf(self) -> bool {
        &&& self.pulse_1.wf()
        &&& self.pulse_2.wf()
        &&& self.triangle.wf()
        &&& self.noise.wf()
    }

    pub open spec fn clock_envelopes_spec(self) -> Apu2A03 {
        Apu2A03 {
            pulse_1: Pulse { envelope: self.pulse_1.envelope.clock_spec(), ..self.pulse_1 },
            pulse_2: Pulse { envelope: self.pulse_2.envelope.clock_spec(), ..self.pulse_2 },
            noise: Noise { envelope: self.noise.envelope.clock_spec(), ..self.noise },
            ..self
        }
    }

    pub open spec fn clock_sweeps_spec(self) -> Apu2A03 {
        Apu2A03 { pulse_1: self.pulse_1.clock_sweep_spec(), pulse_2: self.pulse_2.clock_sweep_spec(), ..self }
    }

    pub open spec fn clock_length_counters_spec(self) -> Apu2A03 {
        Apu2A03 {
            pulse_1: self.pulse_1.clock_length_counter_spec(),
            pulse_2: self.pulse_2.clock_length_counter_spec(),
            triangle: self.triangle.clock_length_counter_spec(),
            noise: self.noise.clock_length_counter_spec(),
            ..self
        }
    }

    pub open spec fn clock_linear_counter_spec(self) -> Apu2A03 {
        Apu2A03 { triangle: self.triangle.clock_linear_counter_spec(), ..self }
    }

    /// The four-step sequence: quarter frames at every step, half frames (sweeps and length
    /// counters) at the second and fourth, and the frame interrupt at the fourth unless
    /// inhibited.
    pub open spec fn clock_4_step_spec(self) -> Apu2A03 {
        let c = self.frame_clock_counter;
        if c == 3728 || c == 11185 {
            self.clock_envelopes_spec().clock_linear_counter_spec()
        } else if c == 7456 {
            self.clock_envelopes_spec().clock_sweeps_spec().clock_length_counters_spec().clock_linear_counter_spec()
        } else if c == 14914 {
            let s = self.clock_envelopes_spec().clock_linear_counter_spec().clock_sweeps_spec().clock_length_counters_spec();
            if !s.interrupt_inhibit {
                Apu2A03 { trigger_interrupt: true, ..s }
            } else {
                s
            }
        } else {
            self
        }
    }

    /// The five-step sequence: quarter frames at steps one, two, three and five, half
    /// frames at two and five, nothing at four, and no interrupt.
    pub open spec fn clock_5_step_spec(self) -> Apu2A03 {
        let c = self.frame_clock_counter;
        if c == 3728 || c == 11185 {
            self.clock_envelopes_spec().clock_linear_counter_spec()
        } else if c == 7456 || c == 18640 {
            self.clock_envelopes_spec().clock_sweeps_spec().clock_linear_counter_spec().clock_length_counters_spec()
        } else {
            self
        }
    }

    pub open spec fn clock_frame_counter_spec(self) -> Apu2A03 {
        if self.step_mode == 4 {
            self.clock_4_step_spec()
        } else if self.step_mode == 5 {
            self.clock_5_step_spec()
        } else {
            self
        }
    }

    /// Every channel is clocked once and the mixer inputs are taken from their outputs.
    pub open spec fn mix_samples_spec(self) -> (Apu2A03, MixerLevels) {
        let (p1, a) = self.pulse_1.clock_spec();
        let (p2, b) = self.pulse_2.clock_spec();
        let (t, c) = self.triangle.clock_spec();
        let (n, d) = self.noise.clock_spec();
        (
            Apu2A03 { pulse_1: p1, pulse_2: p2, triangle: t, noise: n, ..self },
            MixerLevels { pulse: (a + b) as u8, tnd: (3 * c + 2 * d) as u8 },
        )
    }

    /// One APU clock: the channels produce the mixer inputs, the frame counter acts at its
    /// steps, and it restarts after step 14915 (four-step mode) or 18641 (otherwise); a count
    /// left past its mode's end by a mode change runs on, wrapping at the word size.
    pub open spec fn clock_spec(self) -> (Apu2A03, MixerLevels) {
        let (s1, levels) = self.mix_samples_spec();
        let s2 = if is_frame_counter_step(s1.frame_clock_counter) { s1.clock_frame_counter_spec() } else { s1 };
        let counter = s2.frame_clock_counter.wrapping_add(1);
        let max = if s2.step_mode == 4 { counter == 14915 } else { counter == 18641 };
        (Apu2A03 { frame_clock_counter: if max { 0 } else { counter }, ..s2 }, levels)
    }

    pub open spec fn read_status_spec(self) -> (Apu2A03, u8) {
        (
            Apu2A03 { frame_interrupt: false, ..self },
            status_byte(
                self.pulse_1.length_counter != 0,
                self.pulse_2.length_counter != 0,
                self.triangle.length_counter != 0,
                self.noise.length_counter != 0,
                self.dmc.remaining_bytes > 0,
                self.frame_interrupt,
                self.dmc.interrupt,
            ),
        )
    }

    /// A read of APU register `address`: only the status register answers.
    pub open spec fn read_spec(self, address: u16) -> (Apu2A03, u8) {
        if address == APU_STATUS {
            self.read_status_spec()
        } else {
            (self, 0)
        }
    }

    /// $4015 write: bits 0-3 enable the pulse, triangle and noise channels.
    pub open spec fn write_status_spec(self, data: u8) -> Apu2A03 {
        let p1 = (data & 0b01) > 0;
        let p2 = (data & 0b10) > 0;
        let tri = (data & 0b100) > 0;
        let noise = (data & 0b1000) > 0;
        Apu2A03 {
            pulse_1: Pulse { enabled: p1, length_counter: if p1 { self.pulse_1.length_counter } else { 0 }, ..self.pulse_1 },
            pulse_2: Pulse { enabled: p2, length_counter: if p2 { self.pulse_2.length_counter } else { 0 }, ..self.pulse_2 },
            triangle: Triangle { enabled: tri, ..self.triangle },
            noise: Noise { enabled: noise, length_counter: if noise { self.noise.length_counter } else { 0 }, ..self.noise },
            ..self
        }
    }

    /// $4017 write: bit 7 picks five-step mode, bit 6 inhibits the frame interrupt, and
    /// entering five-step mode clocks a quarter and a half frame at once.
    pub open spec fn write_frame_counter_spec(self, data: u8) -> Apu2A03 {
        let s = Apu2A03 {
            step_mode: if data >> 7u8 == 0 { 4 } else { 5 },
            interrupt_inhibit: (data >> 6u8) & 0b1 > 0,
            ..self
        };
        if s.step_mode == 5 {
            s.clock_envelopes_spec().clock_sweeps_spec().clock_linear_counter_spec().clock_length_counters_spec()
        } else {
            s
        }
    }

    /// A write of `data` to APU register `address`.
    pub open spec fn write_spec(self, address: u16, data: u8) -> Apu2A03 {
        if address == APU_PULSE_1_DUTY {
            Apu2A03 { pulse_1: self.pulse_1.set_duty_cycle_spec(data), ..self }
        } else if address == APU_PULSE_1_SWEEP {
            Apu2A03 { pulse_1: self.pulse_1.set_sweep_spec(data), ..self }
        } else if address == APU_PULSE_1_TIMER_LOW {
            Apu2A03 { pulse_1: self.pulse_1.set_timer_low_spec(data), ..self }
        } else if address == APU_PULSE_1_TIMER_HIGH {
            Apu2A03 { pulse_1: self.pulse_1.set_timer_high_spec(data), ..self }
        } else if address == APU_PULSE_2_DUTY {
            Apu2A03 { pulse_2: self.pulse_2.set_duty_cycle_spec(data), ..self }
        } else if address == APU_PULSE_2_SWEEP {
            Apu2A03 { pulse_2: self.pulse_2.set_sweep_spec(data), ..self }
        } else if address == APU_PULSE_2_TIMER_LOW {
            Apu2A03 { pulse_2: self.pulse_2.set_timer_low_spec(data), ..self }
        } else if address == APU_PULSE_2_TIMER_HIGH {
            Apu2A03 { pulse_2: self.pulse_2.set_timer_high_spec(data), ..self }
        } else if address == APU_TRIANGLE_COUNTER_RELOAD {
            Apu2A03 { triangle: self.triangle.set_counter_reload_spec(data), ..self }
        } else if address == APU_TRIANGLE_TIMER_LOW {
            Apu2A03 { triangle: self.triangle.set_timer_low_spec(data), ..self }
        } else if address == APU_TRIANGLE_TIMER_HIGH {
            Apu2A03 { triangle: self.triangle.set_timer_high_spec(data), ..self }
        } else if address == APU_NOISE_VOLUME {
            Apu2A03 { noise: self.noise.set_volume_spec(data), ..self }
        } else if address == APU_NOISE_PERIOD {
            Apu2A03 { noise: self.noise.set_period_spec(data), ..self }
        } else if address == APU_NOISE_COUNTER_LOAD {
            Apu2A03 { noise: self.noise.set_length_counter_spec(data), ..self }
        } else if address == APU_DMC_FLAGS_RATE {
            Apu2A03 { dmc: self.dmc.set_rate_spec(data), ..self }
        } else if address == APU_STATUS {
            self.write_status_spec(data)
        } else if address == APU_FRAME_COUNTER {
            self.write_frame_counter_spec(data)
        } else {
            self
        }
    }

    /// The APU at power-on: every channel silent, the frame counter at its start.
    pub open spec fn is_initial(self) -> bool {
        &&& !self.trigger_interrupt
        &&& self.clock_counter == 0
        &&& self.dmc.is_initial()
        &&& self.frame_clock_counter == 0
        &&& !self.frame_interrupt
        &&& !self.interrupt_inhibit
        &&& self.noise == Noise::initial()
        &&& self.pulse_1 == Pulse::initial(true)
        &&& self.pulse_2 == Pulse::initial(false)
        &&& self.step_mode == 0
        &&& self.triangle == Triangle::initial()
    }

    pub fn initialize() -> (r: Self)
        ensures
            r.wf(),
            r.is_initial(),
    {
        Apu2A03 {
            trigger_interrupt: false,
            clock_counter: 0,
            dmc: DeltaModulationChannel::default(),
            frame_clock_counter: 0,
            frame_interrupt: false,
            interrupt_inhibit: false,
            noise: Noise::default(),
            pulse_1: Pulse::new(true),
            pulse_2: Pulse::new(false),
            step_mode: 0,
            triangle: Triangle::default(),
        }
    }

    /// Resetting the APU leaves it as it is.
    pub fn reset(&mut self)
        ensures
            *final(self) == *old(self),
    {
    }

    /// One APU clock (see `clock_spec`); the result is what the mixer turns into a sample.
    pub fn clock(&mut self) -> (r: MixerLevels)
        requires
            old(self).wf(),
        ensures
            final(self).wf(),
            (*final(self), r) == old(self).clock_spec(),
            r.pulse <= 30,
            r.tnd <= 75,
    {
        let sample = self.mix_samples();
        if self.frame_clock_counter == 3728 || self.frame_clock_counter == 7456 || self.frame_clock_counter == 11185
            || self.frame_clock_counter == 14914 || self.frame_clock_counter == 18640 {
            self.clock_frame_counter();
        }
        self.frame_clock_counter = self.frame_clock_counter.wrapping_add(1);
        if self.is_max_step_counter() {
            self.frame_clock_counter = 0;
        }
        sample
    }

    pub fn read(&mut self, address: u16) -> (r: u8)
        ensures
            (*final(self), r) == old(self).read_spec(address),
    {
        match address {
            APU_STATUS => self.read_status(),
            _ => 0,
        }
    }

    pub fn write(&mut self, address: u16, data: u8)
        requires
            old(self).wf(),
        ensures
            final(self).wf(),
            *final(self) == old(self).write_spec(address, data),
    {
        match address {
            APU_PULSE_1_DUTY => self.pulse_1.set_duty_cycle(data),
            APU_PULSE_1_SWEEP => self.pulse_1.set_sweep(data),
            APU_PULSE_1_TIMER_LOW => self.pulse_1.set_timer_low(data),
            APU_PULSE_1_TIMER_HIGH => self.pulse_1.set_timer_high(data),
            APU_PULSE_2_DUTY => self.pulse_2.set_duty_cycle(data),
            APU_PULSE_2_SWEEP => self.pulse_2.set_sweep(data),
            APU_PULSE_2_TIMER_LOW => self.pulse_2.set_timer_low(data),
            APU_PULSE_2_TIMER_HIGH => self.pulse_2.set_timer_high(data),
            APU_TRIANGLE_COUNTER_RELOAD => self.triangle.set_counter_reload(data),
            APU_TRIANGLE_TIMER_LOW => self.triangle.set_timer_low(data),
            APU_TRIANGLE_TIMER_HIGH => self.triangle.set_timer_high(data),
            APU_NOISE_VOLUME => self.noise.set_volume(data),
            APU_NOISE_PERIOD => self.noise.set_period(data),
            APU_NOISE_COUNTER_LOAD => self.noise.set_length_counter(data),
            APU_DMC_FLAGS_RATE => self.dmc.set_rate(data),
            APU_DMC_DIRECT_LOAD => self.dmc.set_direct_load(data),
            APU_DMC_SAMPLE_ADDRESS => self.dmc.set_sample_address(data),
            APU_DMC_SAMPLE_LENGTH => self.dmc.set_sample_length(data),
            APU_STATUS => self.write_status(data),
            APU_FRAME_COUNTER => self.write_frame_counter(data),
            _ => (),
        }
    }

    fn clock_frame_counter(&mut self)
        requires
            old(self).wf(),
        ensures
            final(self).wf(),
            *final(self) == old(self).clock_frame_counter_spec(),
    {
        match self.step_mode {
            4 => self.clock_4_step_frame_counter(),
            5 => self.clock_5_step_frame_counter(),
            _ => (),
        }
    }

    fn read_status(&mut self) -> (r: u8)
        ensures
            (*final(self), r) == old(self).read_status_spec(),
    {
        proof {
            lemma_status_byte(
                self.pulse_1.length_counter != 0,
                self.pulse_2.length_counter != 0,
                self.triangle.length_counter != 0,
                self.noise.length_counter != 0,
                self.dmc.remaining_bytes > 0,
                self.frame_interrupt,
                self.dmc.interrupt,
            );
        }
        let mut status: u8 = 0;
        if self.pulse_1.length_counter != 0 {
            status = status | 1;
        }
        if self.pulse_2.length_counter != 0 {
            status = status | 2;
        }
        if self.triangle.length_counter != 0 {
            status = status | 4;
        }
        if self.noise.length_counter != 0 {
            status = status | 8;
        }
        if self.dmc.remaining_bytes > 0 {
            status = status | 16;
        }
        if self.frame_interrupt {
            status = status | 64;
        }
        if self.dmc.interrupt {
            status = status | 128;
        }
        self.frame_interrupt = false;
        status
    }

    fn write_status(&mut self, data: u8)
        requires
            old(self).wf(),
        ensures
            final(self).wf(),
            *final(self) == old(self).write_status_spec(data),
    {
        self.pulse_1.set_enabled((data & 0b01) > 0);
        self.pulse_2.set_enabled((data & 0b10) > 0);
        self.triangle.enabled = (data & 0b100) > 0;
        self.noise.set_enabled((data & 0b1000) > 0);
    }

    fn write_frame_counter(&mut self, data: u8)
        requires
            old(self).wf(),
        ensures
            final(self).wf(),
            *final(self) == old(self).write_frame_counter_spec(data),
    {
        proof {
            lemma_audio_bits(0, data, 0);
        }
        self.step_mode = if data >> 7 == 0 { 4 } else { 5 };
        self.interrupt_inhibit = (data >> 6) & 0b1 > 0;
        if self.step_mode == 5 {
            self.clock_envelopes();
            self.clock_sweeps();
            self.triangle.clock_linear_counter();
            self.clock_length_counters();
        }
    }

    fn mix_samples(&mut self) -> (r: MixerLevels)
        requires
            old(self).wf(),
        ensures
            final(self).wf(),
            (*final(self), r) == old(self).mix_samples_spec(),
            r.pulse <= 30,
            r.tnd <= 75,
    {
        let pulse_1 = self.pulse_1.clock();
        let pulse_2 = self.pulse_2.clock();
        let triangle = self.triangle.clock();
        let noise = self.noise.clock();
        let dmc = self.dmc.clock();
        let pulse_index = pulse_1 + pulse_2;
        let tnd_index = (3 * triangle) + (2 * noise) + dmc;
        MixerLevels { pulse: pulse_index, tnd: tnd_index }
    }

    fn clock_4_step_frame_counter(&mut self)
        requires
            old(self).wf(),
        ensures
            final(self).wf(),
            *final(self) == old(self).clock_4_step_spec(),
    {
        match self.frame_clock_counter {
            3728 => {
                self.clock_envelopes();
                self.triangle.clock_linear_counter();
            },
            7456 => {
                self.clock_envelopes();
                self.clock_sweeps();
                self.clock_length_counters();
                self.triangle.clock_linear_counter();
            },
            11185 => {
                self.clock_envelopes();
                self.triangle.clock_linear_counter();
            },
            14914 => {
                self.clock_envelopes();
                self.triangle.clock_linear_counter();
                self.clock_sweeps();
                self.clock_length_counters();
                if !self.interrupt_inhibit {
                    self.trigger_interrupt = true;
                }
            },
            _ => (),
        }
    }

    fn clock_5_step_frame_counter(&mut self)
        requires
            old(self).wf(),
        ensures
            final(self).wf(),
            *final(self) == old(self).clock_5_step_spec(),
    {
        match self.frame_clock_counter {
            3728 => {
                self.clock_envelopes();
                self.triangle.clock_linear_counter();
            },
            7456 => {
                self.clock_envelopes();
                self.clock_sweeps();
                self.triangle.clock_linear_counter();
                self.clock_length_counters();
            },
            11185 => {
                self.clock_envelopes();
                self.triangle.clock_linear_counter();
            },
            14914 => {},
            18640 => {
                self.clock_envelopes();
                self.clock_sweeps();
                self.triangle.clock_linear_counter();
                self.clock_length_counters();
            },
            _ => (),
        }
    }

    fn clock_envelopes(&mut self)
        requires
            old(self).wf(),
        ensures
            final(self).wf(),
            *final(self) == old(self).clock_envelopes_spec(),
    {
        self.pulse_1.envelope.clock();
        self.pulse_2.envelope.clock();
        self.noise.envelope.clock();
    }

    fn clock_sweeps(&mut self)
        requires
            old(self).wf(),
        ensures
            final(self).wf(),
            *final(self) == old(self).clock_sweeps_spec(),
    {
        self.pulse_1.clock_sweep();
        self.pulse_2.clock_sweep();
    }

    fn clock_length_counters(&mut self)
        requires
            old(self).wf(),
        ensures
            final(self).wf(),
            *final(self) == old(self).clock_length_counters_spec(),
    {
        self.pulse_1.clock_length_counter();
        self.pulse_2.clock_length_counter();
        self.triangle.clock_length_counter();
        self.noise.clock_length_counter();
    }

    fn is_max_step_counter(&self) -> (r: bool)
        ensures
            r == if self.step_mode == 4 { self.frame_clock_counter == 14915 } else { self.frame_clock_counter == 18641 },
    {
        if self.step_mode == 4 {
            self.frame_clock_counter == 14915
        } else {
            self.frame_clock_counter == 18641
        }
    }
}

/// A channel disabled through $4015 is silent: its length counter is cleared, so its next
/// clock outputs nothing.
pub proof fn lemma_disabled_channels_are_silent(apu: Apu2A03, data: u8)
    ensures
        data & 0b01 == 0 ==> apu.write_status_spec(data).pulse_1.clock_spec().1 == 0,
        data & 0b10 == 0 ==> apu.write_status_spec(data).pulse_2.clock_spec().1 == 0,
        data & 0b1000 == 0 ==> apu.write_status_spec(data).noise.clock_spec().1 == 0,
{
    assert((data & 0b01 == 0) == !((data & 0b01) > 0));
    assert((data & 0b10 == 0) == !((data & 0b10) > 0));
    assert((data & 0b1000 == 0) == !((data & 0b1000) > 0));
}

} // verus!
