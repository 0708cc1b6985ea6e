use vstd::prelude::*;

verus! {

/// The eight buttons of a pad, one bit each:
/// 0 - A, 1 - B, 2 - Select, 3 - Start, 4 - Up, 5 - Down, 6 - Left, 7 - Right.
#[derive(Clone, Copy, PartialEq, Eq, Structural, Debug)]
pub struct ControllerState(pub u8);

/// `state` with bit `bit` set to `value`.
pub open spec fn with_button(state: u8, bit: u8, value: bool) -> u8 {
    if value {
        state | (1u8 << bit)
    } else {
        state & !(1u8 << bit)
    }
}

impl ControllerState {
    pub fn get(&self) -> (r: u8)
        ensures
            r == self.0,
    {
        self.0
    }

    fn set_bit(&mut self, bit: u8, value: bool)
        requires
            bit < 8,
        ensures
            final(self).0 == with_button(old(self).0, bit, value),
    {
        if value {
            self.0 = self.0 | (1u8 << bit);
        } else {
            self.0 = self.0 & !(1u8 << bit);
        }
    }

    pub fn set_a(&mut self, value: bool)
        ensures
            final(self).0 == with_button(old(self).0, 0, value),
    {
        self.set_bit(0, value);
    }

    pub fn set_b(&mut self, value: bool)
        ensures
            final(self).0 == with_button(old(self).0, 1, value),
    {
        self.set_bit(1, value);
    }

    pub fn set_select(&mut self, value: bool)
        ensures
            final(self).0 == with_button(old(self).0, 2, value),
    {
        self.set_bit(2, value);
    }

    pub fn set_start(&mut self, value: bool)
        ensures
            final(self).0 == with_button(old(self).0, 3, value),
    {
        self.set_bit(3, value);
    }

    pub fn set_up(&mut self, value: bool)
        ensures
            final(self).0 == with_button(old(self).0, 4, value),
    {
        self.set_bit(4, value);
    }

    pub fn set_down(&mut self, value: bool)
        ensures
            final(self).0 == with_button(old(self).0, 5, value),
    {
        self.set_bit(5, value);
    }

    pub fn set_left(&mut self, value: bool)
        ensures
            final(self).0 == with_button(old(self).0, 6, value),
    {
        self.set_bit(6, value);
    }

    pub fn set_right(&mut self, value: bool)
        ensures
            final(self).0 == with_button(old(self).0, 7, value),
    {
        self.set_bit(7, value);
    }
}

} // verus!
