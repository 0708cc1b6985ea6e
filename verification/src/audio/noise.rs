use vstd::prelude::*;
use super::envelope::Envelope;
use super::tables::{noise_period, noise_period_table};
use super::lemma_audio_bits;

verus! {

/// The noise channel: a 15-bit linear feedback shift register clocked by a period timer.
#[derive(Debug)]
pub struct Noise {
    pub envelope: Envelope,
    pub constant_volume: bool,
    pub enabled: bool,
    pub feedback_shift: u16,
    pub length_counter: u8,
    pub length_counter_halt: bool,
    pub mode: bool,
    pub period: u16,
    pub timer: u16,
}

/// One shift of the feedback register: bit 0 XOR bit 6 (mode set) or bit 1 (mode clear)
/// feeds bit 14 as the register shifts right.
pub open spec fn shift_feedback(feedback: u16, mode: bool) -> u16 {
    let first_bit = feedback & 0b1;
    let bit_shift: u16 = if mode { 6 } else { 1 };
    let other_bit = (feedback & (1u16 << bit_shift)) >> bit_shift;
    ((feedback >> 1u16) & 0xBFFF) | ((first_bit ^ other_bit) << 14u16)
}

impl Noise {
    pub open spec fn wf(self) -> bool {
        self.envelope.wf()
    }

    pub open spec fn initial() -> Noise {
        Noise {
            envelope: Envelope::initial(),
            constant_volume: false,
            enabled: false,
            feedback_shift: 0,
            length_counter: 0,
            length_counter_halt: false,
            mode: false,
            period: 0,
            timer: 0,
        }
    }

    /// One timer clock: on expiry the shift register steps and the timer reloads. The
    /// channel is silent while bit 0 of the register is set or the length counter is zero.
    pub open spec fn clock_spec(self) -> (Noise, u8) {
        let s = if self.timer == 0 {
            Noise { feedback_shift: shift_feedback(self.feedback_shift, self.mode), timer: self.period, ..self }
        } else {
            Noise { timer: (self.timer - 1) as u16, ..self }
        };
        (s, if (s.feedback_shift & 0b1) == 1 || s.length_counter == 0 {
            0
        } else if s.constant_volume {
            s.envelope.decay_counter_period
        } else {
            s.envelope.decay_counter
        })
    }

    pub open spec fn clock_length_counter_spec(self) -> Noise {
        if self.length_counter > 0 && !self.length_counter_halt {
            Noise { length_counter: (self.length_counter - 1) as u8, ..self }
        } else {
            self
        }
    }

    /// $400C: loop (bit 5), constant volume (bit 4), volume (bits 3-0).
    pub open spec fn set_volume_spec(self, data: u8) -> Noise {
        Noise {
            envelope: Envelope { loop_flag: (data & 0b100000) > 0, decay_counter_period: data & 0b1111, ..self.envelope },
            constant_volume: (data & 0b10000) > 0,
            ..self
        }
    }

    /// $400E: mode (bit 7) and period index (bits 3-0).
    pub open spec fn set_period_spec(self, data: u8) -> Noise {
        Noise { mode: data & 0b10000000 > 0, period: noise_period_table(data & 0b1111), ..self }
    }

    /// $400F: the length counter takes bits 7-3 as they are, and the envelope restarts.
    pub open spec fn set_length_counter_spec(self, data: u8) -> Noise {
        Noise { length_counter: (data & 0b11111000) >> 3u8, envelope: Envelope { start: true, ..self.envelope }, ..self }
    }

    pub fn clock(&mut self) -> (r: u8)
        requires
            old(self).wf(),
        ensures
            final(self).wf(),
            (*final(self), r) == old(self).clock_spec(),
            r <= 15,
    {
        if self.timer == 0 {
            self.clock_shift_register();
            self.timer = self.period;
        } else {
            self.timer = self.timer - 1;
        }
        if self.is_silenced() {
            0
        } else if self.constant_volume {
            self.envelope.decay_counter_period
        } else {
            self.envelope.decay_counter
        }
    }

    pub fn set_volume(&mut self, data: u8)
        requires
            old(self).wf(),
        ensures
            final(self).wf(),
            *final(self) == old(self).set_volume_spec(data),
    {
        proof {
            lemma_audio_bits(0, data, 0);
        }
        self.envelope.loop_flag = (data & 0b100000) > 0;
        self.constant_volume = (data & 0b10000) > 0;
        let volume = data & 0b1111;
        self.envelope.decay_counter_period = volume;
    }

    pub fn set_period(&mut self, data: u8)
        ensures
            *final(self) == old(self).set_period_spec(data),
    {
        proof {
            lemma_audio_bits(0, data, 0);
        }
        self.mode = data & 0b10000000 > 0;
        let period_index = data & 0b1111;
        self.period = noise_period(period_index);
    }

    pub fn set_length_counter(&mut self, data: u8)
        ensures
            *final(self) == old(self).set_length_counter_spec(data),
    {
        self.length_counter = (data & 0b11111000) >> 3;
        self.envelope.start = true;
    }

    pub fn set_enabled(&mut self, enabled: bool)
        ensures
            *final(self) == (Noise {
                enabled,
                length_counter: if enabled { old(self).length_counter } else { 0 },
                ..*old(self)
            }),
    {
        self.enabled = enabled;
        if !enabled {
            self.length_counter = 0;
        }
    }

    /// The length counter counts down unless halted.
    pub fn clock_length_counter(&mut self)
        ensures
            *final(self) == old(self).clock_length_counter_spec(),
    {
        if self.length_counter > 0 && !self.length_counter_halt {
            self.length_counter = self.length_counter - 1;
        }
    }

    fn clock_shift_register(&mut self)
        ensures
            *final(self) == (Noise { feedback_shift: shift_feedback(old(self).feedback_shift, old(self).mode), ..*old(self) }),
    {
        let first_bit = self.feedback_shift & 0b1;
        let bit_shift: u16 = if self.mode { 6 } else { 1 };
        let other_bit = (self.feedback_shift & (1 << bit_shift)) >> bit_shift;
        let calculated_feedback = first_bit ^ other_bit;
        let shifted = self.feedback_shift >> 1;
        // Bit 14, the leftmost bit, is set to the calculated feedback.
        self.feedback_shift = (shifted & 0xBFFF) | (calculated_feedback << 14);
    }

    fn is_silenced(&self) -> (r: bool)
        ensures
            r == ((self.feedback_shift & 0b1) == 1 || self.length_counter == 0),
    {
        (self.feedback_shift & 0b1) == 1 || self.length_counter == 0
    }
}

impl Default for Noise {
    fn default() -> (r: Self)
        ensures
            r == Noise::initial(),
    {
        Noise {
            envelope: Envelope::default(),
            constant_volume: false,
            enabled: false,
            feedback_shift: 0,
            length_counter: 0,
            length_counter_halt: false,
            mode: false,
            period: 0,
            timer: 0,
        }
    }
}

} // verus!
