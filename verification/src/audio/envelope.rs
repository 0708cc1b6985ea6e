use vstd::prelude::*;

verus! {

/// The volume envelope of a pulse or noise channel: a decay level that counts down from 15
/// once every `decay_counter_period + 1` quarter frames, optionally looping.
#[derive(Debug)]
pub struct Envelope {
    pub decay_counter: u8,
    pub decay_counter_period: u8,
    pub loop_flag: bool,
    pub start: bool,
    pub divider: u8,
}

impl Envelope {
    /// The decay level and its period are 4-bit volumes.
    pub open spec fn wf(self) -> bool {
        self.decay_counter <= 15 && self.decay_counter_period <= 15
    }

    /// A quarter-frame clock: a pending start reloads the decay level to 15 and the divider
    /// to the period; otherwise the divider counts down and, on reaching zero, reloads and
    /// steps the decay level (which wraps back to 15 when looping).
    pub open spec fn clock_spec(self) -> Envelope {
        if !self.start {
            if self.divider == 0 {
                Envelope {
                    divider: self.decay_counter_period,
                    decay_counter: if self.decay_counter != 0 {
                        (self.decay_counter - 1) as u8
                    } else if self.loop_flag {
                        15
                    } else {
                        self.decay_counter
                    },
                    ..self
                }
            } else {
                Envelope { divider: (self.divider - 1) as u8, ..self }
            }
        } else {
            Envelope { start: false, decay_counter: 15, divider: self.decay_counter_period, ..self }
        }
    }

    pub open spec fn initial() -> Envelope {
        Envelope { decay_counter: 0, decay_counter_period: 0, loop_flag: false, start: false, divider: 0 }
    }

    pub fn clock(&mut self)
        ensures
            *final(self) == old(self).clock_spec(),
            old(self).wf() ==> final(self).wf(),
    {
        if !self.start {
            self.clock_divider();
        } else {
            self.start = false;
            self.decay_counter = 15;
            self.divider = self.decay_counter_period;
        }
    }

    fn clock_divider(&mut self)
        requires
            !old(self).start,
        ensures
            *final(self) == old(self).clock_spec(),
    {
        if self.divider == 0 {
            self.divider = self.decay_counter_period;
            self.clock_delay_counter();
        } else {
            self.divider = self.divider - 1;
        }
    }

    fn clock_delay_counter(&mut self)
        ensures
            *final(self) == (Envelope {
                decay_counter: if old(self).decay_counter != 0 {
                    (old(self).decay_counter - 1) as u8
                } else if old(self).loop_flag {
                    15
                } else {
                    old(self).decay_counter
                },
                ..*old(self)
            }),
    {
        if self.decay_counter != 0 {
            self.decay_counter = self.decay_counter - 1;
        } else if self.loop_flag {
            self.decay_counter = 15;
        }
    }
}

impl Default for Envelope {
    fn default() -> (r: Self)
        ensures
            r == Envelope::initial(),
    {
        Envelope { decay_counter: 0, decay_counter_period: 0, loop_flag: false, start: false, divider: 0 }
    }
}

} // verus!
