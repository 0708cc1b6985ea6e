use vstd::prelude::*;

verus! {

/// A channel's period divider: `counter` counts down from the 11-bit `period`.
#[derive(Debug)]
pub struct Timer {
    pub counter: u16,
    pub period: u16,
}

impl Timer {
    pub open spec fn initial() -> Timer {
        Timer { counter: 0, period: 0 }
    }

    /// Count down one step. Only called with time left on the counter.
    pub fn decrement(&mut self)
        requires
            old(self).counter > 0,
        ensures
            *final(self) == (Timer { counter: (old(self).counter - 1) as u16, ..*old(self) }),
    {
        self.counter = self.counter - 1;
    }

    /// The low eight bits of the period.
    pub fn set_low(&mut self, data: u8)
        ensures
            *final(self) == (Timer { period: (old(self).period & 0xFF00) | (data as u16), ..*old(self) }),
    {
        self.period = (self.period & 0xFF00) | (data as u16);
    }

    /// The high three bits of the period (from the low bits of `data`); the counter restarts.
    pub fn set_high(&mut self, data: u8)
        ensures
            final(self).period == (((data & 0b111) as u16) << 8u16) | (old(self).period & 0x00FF),
            final(self).counter == final(self).period,
    {
        let period_high = ((data & 0b111) as u16) << 8;
        self.period = period_high | (self.period & 0x00FF);
        self.counter = self.period;
    }

    pub fn reset(&mut self)
        ensures
            *final(self) == (Timer { counter: old(self).period, ..*old(self) }),
    {
        self.counter = self.period;
    }
}

impl Default for Timer {
    fn default() -> (r: Self)
        ensures
            r == Timer::initial(),
    {
        Timer { counter: 0, period: 0 }
    }
}

proof fn lemma_period_bytes(p: u16, low: u8, high: u8)
    by (bit_vector)
    ensures
        (((high & 0b111) as u16) << 8u16) | (((p & 0xFF00) | (low as u16)) & 0x00FF)
            == (((high & 0b111) as u16) << 8u16) | (low as u16),
        ((((((high & 0b111) as u16) << 8u16) | (p & 0x00FF)) & 0xFF00) | (low as u16))
            == (((high & 0b111) as u16) << 8u16) | (low as u16),
{
}

/// The 11-bit period is assembled from a low-byte write and a high write (its low three
/// bits), in either order.
pub proof fn lemma_period_from_two_writes(p: u16, low: u8, high: u8)
    ensures
        (((high & 0b111) as u16) << 8u16) | (((p & 0xFF00) | (low as u16)) & 0x00FF)
            == (((high & 0b111) as u16) << 8u16) | (low as u16),
        ((((((high & 0b111) as u16) << 8u16) | (p & 0x00FF)) & 0xFF00) | (low as u16))
            == (((high & 0b111) as u16) << 8u16) | (low as u16),
{
    lemma_period_bytes(p, low, high);
}

} // verus!
