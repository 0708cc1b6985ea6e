use vstd::prelude::*;
use super::tables::{length_counter_load, length_counter_table, triangle_sequence, triangle_step};
use super::lemma_audio_bits;

verus! {

pub const SEQUENCER_LENGTH: usize = 32;

/// The triangle channel: a 32-step waveform gated by a length counter and a linear counter.
#[derive(Debug)]
pub struct Triangle {
    pub counter_reload: u8,
    pub enabled: bool,
    pub length_counter: u8,
    pub length_counter_halt: bool,
    pub linear_counter: u8,
    pub linear_counter_reload: bool,
    pub sample: u16,
    pub reload: u16,
    pub sequencer_counter: usize,
    pub timer: u16,
}

impl Triangle {
    pub open spec fn wf(self) -> bool {
        self.sequencer_counter < SEQUENCER_LENGTH
    }

    pub open spec fn initial() -> Triangle {
        Triangle {
            counter_reload: 0,
            enabled: false,
            length_counter: 0,
            length_counter_halt: false,
            linear_counter: 0,
            linear_counter_reload: false,
            sample: 0,
            reload: 0,
            sequencer_counter: 0,
            timer: 0,
        }
    }

    /// One timer step: on expiry the timer reloads and, while both counters are non-zero,
    /// the waveform advances; the output is the current waveform step.
    pub open spec fn get_sample_spec(self) -> (Triangle, u8) {
        let s = if self.timer == 0 {
            Triangle {
                timer: self.reload,
                sequencer_counter: if self.length_counter != 0 && self.linear_counter != 0 {
                    ((self.sequencer_counter + 1) % (SEQUENCER_LENGTH as int)) as usize
                } else {
                    self.sequencer_counter
                },
                ..self
            }
        } else {
            Triangle { timer: (self.timer - 1) as u16, ..self }
        };
        (s, triangle_sequence(s.sequencer_counter))
    }

    /// The triangle timer runs at twice the rate of the other channels: two steps a clock.
    pub open spec fn clock_spec(self) -> (Triangle, u8) {
        self.get_sample_spec().0.get_sample_spec()
    }

    pub open spec fn clock_length_counter_spec(self) -> Triangle {
        if self.length_counter > 0 && !self.length_counter_halt {
            Triangle { length_counter: (self.length_counter - 1) as u8, ..self }
        } else {
            self
        }
    }

    pub open spec fn clock_linear_counter_spec(self) -> Triangle {
        let linear = if self.linear_counter_reload {
            self.counter_reload
        } else if self.linear_counter != 0 {
            (self.linear_counter - 1) as u8
        } else {
            self.linear_counter
        };
        Triangle {
            linear_counter: linear,
            linear_counter_reload: if !self.length_counter_halt { false } else { self.linear_counter_reload },
            ..self
        }
    }

    /// $400B: the timer's high bits, a linear counter reload, and (when enabled) a length load.
    pub open spec fn set_timer_high_spec(self, data: u8) -> Triangle {
        Triangle {
            timer: (((data & 0b111) as u16) << 8u16) | (self.timer & 0xFF),
            linear_counter_reload: true,
            length_counter: if self.enabled {
                length_counter_table((data & 0b11111000) >> 3u8)
            } else {
                self.length_counter
            },
            ..self
        }
    }

    /// $4008: halt flag (bit 7) and linear counter reload value (bits 6-0).
    pub open spec fn set_counter_reload_spec(self, data: u8) -> Triangle {
        Triangle { length_counter_halt: (data & 0b10000000) > 0, counter_reload: data & 0b01111111, ..self }
    }

    pub open spec fn set_timer_low_spec(self, data: u8) -> Triangle {
        Triangle { timer: (self.timer & 0xFF00) | (data as u16), ..self }
    }

    pub fn clock(&mut self) -> (r: u8)
        requires
            old(self).wf(),
        ensures
            final(self).wf(),
            (*final(self), r) == old(self).clock_spec(),
            r <= 15,
    {
        self.get_sample();
        self.get_sample()
    }

    pub fn clock_length_counter(&mut self)
        ensures
            *final(self) == old(self).clock_length_counter_spec(),
    {
        if self.length_counter > 0 && !self.length_counter_halt {
            self.length_counter = self.length_counter - 1;
        }
    }

    pub fn clock_linear_counter(&mut self)
        ensures
            *final(self) == old(self).clock_linear_counter_spec(),
    {
        if self.linear_counter_reload {
            self.linear_counter = self.counter_reload;
        } else if self.linear_counter != 0 {
            self.linear_counter = self.linear_counter - 1;
        }
        if !self.length_counter_halt {
            self.linear_counter_reload = false;
        }
    }

    pub fn set_counter_reload(&mut self, data: u8)
        ensures
            *final(self) == old(self).set_counter_reload_spec(data),
    {
        self.length_counter_halt = (data & 0b10000000) > 0;
        self.counter_reload = data & 0b01111111;
    }

    pub fn set_timer_low(&mut self, data: u8)
        ensures
            *final(self) == old(self).set_timer_low_spec(data),
    {
        let timer_high = self.timer & 0xFF00;
        self.timer = timer_high | (data as u16);
    }

    pub fn set_timer_high(&mut self, data: u8)
        ensures
            *final(self) == old(self).set_timer_high_spec(data),
    {
        proof {
            lemma_audio_bits(0, data, 0);
        }
        let timer_low = self.timer & 0xFF;
        let timer_high = ((data & 0b111) as u16) << 8;
        self.timer = timer_high | timer_low;
        self.linear_counter_reload = true;
        if self.enabled {
            let index = (data & 0b11111000) >> 3;
            self.length_counter = length_counter_load(index);
        }
    }

    fn get_sample(&mut self) -> (r: u8)
        requires
            old(self).wf(),
        ensures
            final(self).wf(),
            (*final(self), r) == old(self).get_sample_spec(),
            r <= 15,
    {
        if self.timer == 0 {
            self.timer = self.reload;
            if self.length_counter != 0 && self.linear_counter != 0 {
                self.sequencer_counter = (self.sequencer_counter + 1) % SEQUENCER_LENGTH;
            }
        } else {
            self.timer = self.timer - 1;
        }
        triangle_step(self.sequencer_counter)
    }
}

impl Default for Triangle {
    fn default() -> (r: Self)
        ensures
            r == Triangle::initial(),
    {
        Triangle {
            counter_reload: 0,
            enabled: false,
            length_counter: 0,
            length_counter_halt: false,
            linear_counter: 0,
            linear_counter_reload: false,
            sample: 0,
            reload: 0,
            sequencer_counter: 0,
            timer: 0,
        }
    }
}

} // verus!
