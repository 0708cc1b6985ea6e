use vstd::prelude::*;

verus! {

/// The MMC3 scanline counter and its interrupt line.
#[derive(Clone, Copy, PartialEq, Eq, Structural, Debug)]
pub struct InterruptRequest {
    pub active: bool,
    pub counter: u8,
    pub latch: u8,
    pub enabled: bool,
}

impl InterruptRequest {
    /// The counter after one scanline clock: reloaded from the latch when it is zero,
    /// otherwise decremented; the interrupt is raised when it lands on zero while enabled.
    pub open spec fn clock_spec(self) -> InterruptRequest {
        let counter = if self.counter == 0 { self.latch } else { (self.counter - 1) as u8 };
        InterruptRequest {
            counter,
            active: if counter == 0 && self.enabled { true } else { self.active },
            ..self
        }
    }

    pub fn new() -> (r: Self)
        ensures
            r == (InterruptRequest { active: false, counter: 0, enabled: false, latch: 0 }),
    {
        InterruptRequest { active: false, counter: 0, enabled: false, latch: 0 }
    }

    pub fn clock(&mut self)
        ensures
            *final(self) == old(self).clock_spec(),
    {
        if self.counter == 0 {
            self.counter = self.latch;
        } else {
            self.counter -= 1;
        }
        if self.counter == 0 && self.enabled {
            self.active = true;
        }
    }

    /// Disabling also acknowledges a pending interrupt.
    pub fn set_enabled(&mut self, enabled: bool)
        ensures
            *final(self) == (InterruptRequest {
                enabled,
                active: if enabled { old(self).active } else { false },
                ..*old(self)
            }),
    {
        self.enabled = enabled;
        if !enabled {
            self.active = false;
        }
    }

    pub fn reset(&mut self)
        ensures
            *final(self) == (InterruptRequest { active: false, counter: 0, enabled: false, latch: 0 }),
    {
        self.active = false;
        self.counter = 0;
        self.enabled = false;
        self.latch = 0;
    }
}

/// The counter after `n` scanline clocks.
pub open spec fn clocked(irq: InterruptRequest, n: nat) -> InterruptRequest
    decreases n,
{
    if n == 0 {
        irq
    } else {
        clocked(irq, (n - 1) as nat).clock_spec()
    }
}

/// The MMC3 scanline counter: starting from zero with a latch of N > 0 and the interrupt
/// enabled, it reloads to N on the first scanline, counts down one a scanline, and raises
/// the interrupt on scanline N + 1, not before.
pub proof fn lemma_interrupt_after_latch_scanlines(irq: InterruptRequest, k: nat)
    requires
        irq.counter == 0,
        irq.latch > 0,
        irq.enabled,
        !irq.active,
        1 <= k <= irq.latch + 1,
    ensures
        clocked(irq, k).counter == irq.latch + 1 - k,
        clocked(irq, k).active == (k == irq.latch + 1),
        clocked(irq, k).latch == irq.latch,
        clocked(irq, k).enabled,
    decreases k,
{
    assert(clocked(irq, k) == clocked(irq, (k - 1) as nat).clock_spec());
    if k > 1 {
        lemma_interrupt_after_latch_scanlines(irq, (k - 1) as nat);
    } else {
        assert(clocked(irq, 0) == irq);
    }
}

} // verus!
