use vstd::prelude::*;
use super::envelope::Envelope;
use super::sweep::Sweep;
use super::timer::Timer;
use super::tables::{duty_cycle_waveform, duty_cycle_waveform_table, length_counter_load, length_counter_table};
use super::lemma_audio_bits;

verus! {

/// A pulse (square wave) channel.
#[derive(Debug)]
pub struct Pulse {
    pub envelope: Envelope,
    pub length_counter: u8,
    pub constant_volume: bool,
    pub duty_cycle: u8,
    pub duty_shifter: u8,
    pub enabled: bool,
    pub is_first: bool,
    pub sweep: Sweep,
    pub target_period: u16,
    pub timer: Timer,
}

impl Pulse {
    /// The step in the waveform stays in 0..8, the sweep shift in 0..8, and the period is a
    /// 15-bit value, so that a sweep target always fits.
    pub open spec fn wf(self) -> bool {
        &&& self.envelope.wf()
        &&& self.duty_shifter < 8
        &&& self.sweep.shift_amount < 8
        &&& self.timer.period <= 0x7FFF
    }

    pub open spec fn initial(is_first: bool) -> Pulse {
        Pulse {
            envelope: Envelope::initial(),
            length_counter: 0,
            constant_volume: false,
            duty_cycle: duty_cycle_waveform_table(0),
            duty_shifter: 0,
            enabled: false,
            is_first,
            sweep: Sweep::initial(),
            target_period: 0,
            timer: Timer::initial(),
        }
    }

    /// Periods under 8 or over $7FF silence the channel.
    pub open spec fn is_muting_spec(self) -> bool {
        self.timer.period < 8 || self.timer.period > 0x7FF
    }

    /// The volume the channel plays for waveform bit `sample`.
    pub open spec fn volume_spec(self, sample: u16) -> u8 {
        if sample == 0 || self.length_counter == 0 || self.is_muting_spec() {
            0
        } else if self.constant_volume {
            self.envelope.decay_counter_period
        } else {
            self.envelope.decay_counter
        }
    }

    /// One timer clock: on the counter's expiry it reloads and the waveform advances one
    /// step; the output is the volume for the current waveform bit.
    pub open spec fn clock_spec(self) -> (Pulse, u8) {
        let s = if self.timer.counter == 0 {
            Pulse {
                timer: Timer { counter: self.timer.period, ..self.timer },
                duty_shifter: ((self.duty_shifter + 1) % 8) as u8,
                ..self
            }
        } else {
            Pulse { timer: Timer { counter: (self.timer.counter - 1) as u16, ..self.timer }, ..self }
        };
        (s, s.volume_spec(((s.duty_cycle >> ((7 - s.duty_shifter) as u8)) & 0b01) as u16))
    }

    /// The period the sweep moves towards: the period plus or minus itself shifted right,
    /// minus one more for the first channel when negating.
    pub open spec fn target_period_spec(self) -> u16 {
        let change = self.timer.period >> self.sweep.shift_amount;
        if self.sweep.negate {
            let target = (self.timer.period - change) as u16;
            if self.is_first && target >= 1 {
                (target - 1) as u16
            } else {
                target
            }
        } else {
            (self.timer.period + change) as u16
        }
    }

    /// A half-frame sweep clock.
    pub open spec fn clock_sweep_spec(self) -> Pulse {
        let target = self.target_period_spec();
        let s1 = Pulse { target_period: target, ..self };
        let s2 = if s1.sweep.divider_counter == 0 && s1.sweep.enabled && !s1.is_muting_spec() {
            Pulse { timer: Timer { period: target, ..s1.timer }, ..s1 }
        } else {
            s1
        };
        if s2.sweep.divider_counter == 0 || s2.sweep.reload {
            Pulse { sweep: Sweep { divider_counter: s2.sweep.period, reload: false, ..s2.sweep }, ..s2 }
        } else {
            Pulse { sweep: Sweep { divider_counter: (s2.sweep.divider_counter - 1) as u16, ..s2.sweep }, ..s2 }
        }
    }

    pub open spec fn clock_length_counter_spec(self) -> Pulse {
        if self.length_counter > 0 && !self.envelope.loop_flag {
            Pulse { length_counter: (self.length_counter - 1) as u8, ..self }
        } else {
            self
        }
    }

    /// $4000/$4004: duty (bits 7-6), loop (bit 5), constant volume (bit 4), volume (bits 3-0).
    pub open spec fn set_duty_cycle_spec(self, data: u8) -> Pulse {
        Pulse {
            duty_cycle: duty_cycle_waveform_table((data & 0b11000000) >> 6u8),
            envelope: Envelope { loop_flag: (data & 0b100000) > 0, decay_counter_period: data & 0b1111, ..self.envelope },
            constant_volume: (data & 0b10000) > 0,
            ..self
        }
    }

    /// $4001/$4005: enabled (bit 7), period (bits 6-4), negate (bit 3), shift (bits 2-0).
    pub open spec fn set_sweep_spec(self, data: u8) -> Pulse {
        Pulse {
            sweep: Sweep {
                enabled: (data & 0b10000000) > 0,
                period: ((data & 0b1110000) >> 4u8) as u16,
                negate: (data & 0b1000) > 0,
                shift_amount: data & 0b111,
                reload: true,
                ..self.sweep
            },
            ..self
        }
    }

    /// $4003/$4007: the length counter is loaded (when enabled) from bits 7-3, the period's
    /// high bits from bits 2-0, and the envelope restarts.
    pub open spec fn set_timer_high_spec(self, data: u8) -> Pulse {
        let period = (((data & 0b111) as u16) << 8u16) | (self.timer.period & 0x00FF);
        Pulse {
            length_counter: if self.enabled {
                length_counter_table((data & 0b11111000) >> 3u8)
            } else {
                self.length_counter
            },
            timer: Timer { period, counter: period },
            envelope: Envelope { start: true, ..self.envelope },
            ..self
        }
    }

    pub open spec fn set_timer_low_spec(self, data: u8) -> Pulse {
        Pulse { timer: Timer { period: (self.timer.period & 0xFF00) | (data as u16), ..self.timer }, ..self }
    }

    pub fn new(is_first: bool) -> (r: Self)
        ensures
            r == Pulse::initial(is_first),
            r.wf(),
    {
        Pulse {
            envelope: Envelope::default(),
            length_counter: 0,
            constant_volume: false,
            duty_cycle: duty_cycle_waveform(0),
            duty_shifter: 0,
            enabled: false,
            is_first,
            sweep: Sweep::default(),
            target_period: 0,
            timer: Timer::default(),
        }
    }

    pub fn clock(&mut self) -> (r: u8)
        requires
            old(self).wf(),
        ensures
            final(self).wf(),
            (*final(self), r) == old(self).clock_spec(),
            r <= 15,
    {
        if self.timer.counter == 0 {
            self.timer.reset();
            self.duty_shifter = (self.duty_shifter + 1) % 8;
        } else {
            self.timer.decrement();
        }
        let sample = ((self.duty_cycle >> (7 - self.duty_shifter)) & 0b01) as u16;
        if self.is_silenced(sample) {
            0
        } else if self.constant_volume {
            self.envelope.decay_counter_period
        } else {
            self.envelope.decay_counter
        }
    }

    pub fn clock_sweep(&mut self)
        requires
            old(self).wf(),
        ensures
            final(self).wf(),
            *final(self) == old(self).clock_sweep_spec(),
    {
        proof {
            lemma_audio_bits(self.timer.period, 0, self.sweep.shift_amount);
        }
        self.calculate_period();
        if self.sweep.divider_counter == 0 && self.sweep.enabled && !self.is_muting_channel() {
            self.timer.period = self.target_period;
        }
        if self.sweep.divider_counter == 0 || self.sweep.reload {
            self.sweep.divider_counter = self.sweep.period;
            self.sweep.reload = false;
        } else {
            self.sweep.divider_counter = self.sweep.divider_counter - 1;
        }
    }

    pub fn clock_length_counter(&mut self)
        requires
            old(self).wf(),
        ensures
            final(self).wf(),
            *final(self) == old(self).clock_length_counter_spec(),
    {
        if self.length_counter > 0 && !self.envelope.loop_flag {
            self.length_counter = self.length_counter - 1;
        }
    }

    pub fn set_duty_cycle(&mut self, data: u8)
        requires
            old(self).wf(),
        ensures
            final(self).wf(),
            *final(self) == old(self).set_duty_cycle_spec(data),
    {
        proof {
            lemma_audio_bits(0, data, 0);
        }
        let duty = (data & 0b11000000) >> 6;
        self.duty_cycle = duty_cycle_waveform(duty);
        self.envelope.loop_flag = (data & 0b100000) > 0;
        self.constant_volume = (data & 0b10000) > 0;
        let volume = data & 0b1111;
        self.envelope.decay_counter_period = volume;
    }

    pub fn set_sweep(&mut self, data: u8)
        requires
            old(self).wf(),
        ensures
            final(self).wf(),
            *final(self) == old(self).set_sweep_spec(data),
    {
        proof {
            lemma_audio_bits(0, data, 0);
        }
        self.sweep.enabled = (data & 0b10000000) > 0;
        self.sweep.period = ((data & 0b1110000) >> 4) as u16;
        self.sweep.negate = (data & 0b1000) > 0;
        self.sweep.shift_amount = data & 0b111;
        self.sweep.reload = true;
    }

    pub fn set_timer_low(&mut self, data: u8)
        requires
            old(self).wf(),
        ensures
            final(self).wf(),
            *final(self) == old(self).set_timer_low_spec(data),
    {
        proof {
            lemma_audio_bits(self.timer.period, data, 0);
        }
        self.timer.set_low(data);
    }

    pub fn set_timer_high(&mut self, data: u8)
        requires
            old(self).wf(),
        ensures
            final(self).wf(),
            *final(self) == old(self).set_timer_high_spec(data),
    {
        proof {
            lemma_audio_bits(self.timer.period, data, 0);
        }
        if self.enabled {
            let index = (data & 0b11111000) >> 3;
            self.length_counter = length_counter_load(index);
        }
        self.timer.set_high(data);
        self.envelope.start = true;
    }

    /// A disabled channel's length counter is cleared.
    pub fn set_enabled(&mut self, enabled: bool)
        requires
            old(self).wf(),
        ensures
            final(self).wf(),
            *final(self) == (Pulse {
                enabled,
                length_counter: if enabled { old(self).length_counter } else { 0 },
                ..*old(self)
            }),
    {
        self.enabled = enabled;
        if !enabled {
            self.length_counter = 0;
        }
    }

    fn is_silenced(&self, sample: u16) -> (r: bool)
        ensures
            r == (sample == 0 || self.length_counter == 0 || self.is_muting_spec()),
    {
        sample == 0 || self.length_counter == 0 || self.is_muting_channel()
    }

    fn is_muting_channel(&self) -> (r: bool)
        ensures
            r == self.is_muting_spec(),
    {
        self.timer.period < 8 || self.timer.period > 0x7FF
    }

    fn calculate_period(&mut self)
        requires
            old(self).wf(),
        ensures
            *final(self) == (Pulse { target_period: old(self).target_period_spec(), ..*old(self) }),
    {
        proof {
            lemma_audio_bits(self.timer.period, 0, self.sweep.shift_amount);
        }
        let period_change = self.timer.period >> self.sweep.shift_amount;
        if self.sweep.negate {
            self.target_period = self.timer.period - period_change;
            if self.is_first && self.target_period >= 1 {
                self.target_period = self.target_period - 1;
            }
        } else {
            self.target_period = self.timer.period + period_change;
        }
    }
}

} // verus!
