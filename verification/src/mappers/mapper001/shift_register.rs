use vstd::prelude::*;

verus! {

/// The serial port of the MMC1: register values arrive one bit per write,
/// least significant bit first.
#[derive(Debug, Default)]
pub struct ShiftRegister {
    pub bit_shift: u8,
    pub load_register: u8,
}

impl ShiftRegister {
    /// Shift in the lowest bit of `data` at the next free position.
    pub fn push_data(&mut self, data: u8)
        requires
            old(self).bit_shift < 8,
        ensures
            final(self).bit_shift == old(self).bit_shift + 1,
            final(self).load_register == old(self).load_register | (((data & 1) as u8) << old(self).bit_shift),
    {
        self.load_register |= (data & 0b1) << self.bit_shift;
        self.bit_shift += 1;
    }

    pub fn reset(&mut self)
        ensures
            final(self).bit_shift == 0,
            final(self).load_register == 0,
    {
        self.bit_shift = 0;
        self.load_register = 0;
    }

    pub fn reset_loading(&mut self)
        ensures
            final(self).bit_shift == 0,
            final(self).load_register == 0,
    {
        self.load_register = 0;
        self.bit_shift = 0;
    }
}

} // verus!
