use vstd::prelude::*;

verus! {

/// A sequencer: a countdown timer that, each time it passes zero, reloads and lets the
/// caller advance the bit sequence, whose low bit is the output.
#[derive(Debug)]
pub struct Sequencer {
    pub sequence: u32,
    pub timer: u16,
    pub reload: u16,
    pub output: u8,
}

impl Sequencer {
    /// One clock while `enable` holds. On the timer's wrap past zero it restarts from
    /// `reload + 1` (wrapping at $FFFF), `manipulate_sequence` rewrites the sequence and the
    /// output becomes the sequence's low bit.
    pub fn clock<F: Fn(u32) -> u32>(&mut self, enable: bool, manipulate_sequence: F)
        requires
            forall|s: u32| manipulate_sequence.requires((s,)),
        ensures
            !enable ==> *final(self) == *old(self),
            enable && old(self).timer != 0 ==> *final(self) == (Sequencer { timer: (old(self).timer - 1) as u16, ..*old(self) }),
            enable && old(self).timer == 0 ==> {
                &&& final(self).timer == old(self).reload.wrapping_add(1)
                &&& manipulate_sequence.ensures((old(self).sequence,), final(self).sequence)
                &&& final(self).output == (final(self).sequence & 0x00000001) as u8
                &&& final(self).reload == old(self).reload
            },
    {
        if !enable {
            return;
        }
        self.timer = self.timer.wrapping_sub(1);
        if self.timer == 0xFFFF {
            self.timer = self.reload.wrapping_add(1);
            self.sequence = manipulate_sequence(self.sequence);
            self.output = (self.sequence & 0x00000001) as u8;
        }
    }

    pub fn set_reload_low(&mut self, data: u8)
        ensures
            *final(self) == (Sequencer { reload: (old(self).reload & 0xFF00) | (data as u16), ..*old(self) }),
    {
        self.reload = (self.reload & 0xFF00) | (data as u16);
    }

    pub fn set_reload_high(&mut self, data: u8)
        ensures
            *final(self) == (Sequencer { reload: (((data & 0b111) as u16) << 8u16) | (old(self).reload & 0x00FF), ..*old(self) }),
    {
        let reload_high = ((data & 0b111) as u16) << 8;
        self.reload = reload_high | (self.reload & 0x00FF);
    }
}

} // verus!
