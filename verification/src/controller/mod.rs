pub mod controller_state;

use vstd::prelude::*;
use controller_state::{ControllerState, with_button};

verus! {

/// What the data lines not driven by the pad read as.
pub const CONTROLLER_OPEN_BUS: u8 = 0x40;

/// A standard pad, with its two serial interfaces.
///
/// The shift-register interface: `set_state` loads the pressed `buttons` (0 - Right,
/// 1 - Left, 2 - Down, 3 - Up, 4 - Start, 5 - Select, 6 - B, 7 - A) into `state`, and
/// `get_msb` shifts it out from bit 7.
///
/// The strobe interface: `controller_state` holds the buttons (0 - A, 1 - B, 2 - Select,
/// 3 - Start, 4 - Up, 5 - Down, 6 - Left, 7 - Right); a read returns the button at
/// `button_shift` and steps to the next one, or, while the strobe bit is set, restarts
/// from A.
#[derive(Clone, Copy, Debug)]
pub struct Controller {
    pub buttons: [bool; 8],
    pub state: u8,
    pub button_states: u8,
    pub button_shift: u8,
    pub controller_state: ControllerState,
}

/// The bits of `buttons` gathered into a byte, button `i` in bit `i`.
pub open spec fn buttons_byte(buttons: Seq<bool>) -> u8 {
    ((if buttons[0] { 0x01int } else { 0 }) + (if buttons[1] { 0x02int } else { 0 }) + (if buttons[2] { 0x04int } else { 0 })
        + (if buttons[3] { 0x08int } else { 0 }) + (if buttons[4] { 0x10int } else { 0 }) + (if buttons[5] { 0x20int } else { 0 })
        + (if buttons[6] { 0x40int } else { 0 }) + (if buttons[7] { 0x80int } else { 0 })) as u8
}

/// The button a strobe-interface read at position `shift` reports: that button's bit while
/// `shift` < 8, then 1.
pub open spec fn serial_bit(state: u8, shift: u8) -> u8 {
    if shift < 8 {
        (state >> shift) & 1
    } else {
        1
    }
}

/// The value of bit `k` of a byte.
pub open spec fn bit_value(k: int) -> u8 {
    if k == 0 {
        1
    } else if k == 1 {
        2
    } else if k == 2 {
        4
    } else if k == 3 {
        8
    } else if k == 4 {
        16
    } else if k == 5 {
        32
    } else if k == 6 {
        64
    } else {
        128
    }
}

proof fn lemma_controller_bits(state: u8, shift: u8, b0: bool, b1: bool, b2: bool, b3: bool, b4: bool, b5: bool, b6: bool, b7: bool)
    by (bit_vector)
    ensures
        shift < 8 ==> (state & (1u8 << shift)) >> shift == (state >> shift) & 1,
        shift < 8 ==> 1u8 << shift == if shift == 0 {
            1u8
        } else if shift == 1 {
            2u8
        } else if shift == 2 {
            4u8
        } else if shift == 3 {
            8u8
        } else if shift == 4 {
            16u8
        } else if shift == 5 {
            32u8
        } else if shift == 6 {
            64u8
        } else {
            128u8
        },
        (if state & 0x80 > 0 { 1u8 } else { 0u8 }) == state >> 7u8,
        ({
            let s1: u8 = if b0 { state | 1 } else { state & !1u8 };
            let s2: u8 = if b1 { s1 | 2 } else { s1 & !2u8 };
            let s3: u8 = if b2 { s2 | 4 } else { s2 & !4u8 };
            let s4: u8 = if b3 { s3 | 8 } else { s3 & !8u8 };
            let s5: u8 = if b4 { s4 | 16 } else { s4 & !16u8 };
            let s6: u8 = if b5 { s5 | 32 } else { s5 & !32u8 };
            let s7: u8 = if b6 { s6 | 64 } else { s6 & !64u8 };
            let s8: u8 = if b7 { s7 | 128 } else { s7 & !128u8 };
            s8 == (((if b0 { 0x01int } else { 0 }) + (if b1 { 0x02int } else { 0 }) + (if b2 { 0x04int } else { 0 })
                + (if b3 { 0x08int } else { 0 }) + (if b4 { 0x10int } else { 0 }) + (if b5 { 0x20int } else { 0 })
                + (if b6 { 0x40int } else { 0 }) + (if b7 { 0x80int } else { 0 })) as u8)
        }),
{
}

impl Controller {
    /// Load the buttons into the shift register: bit `i` is set exactly when button `i` is
    /// pressed.
    pub fn set_state(&mut self)
        ensures
            *final(self) == (Controller { state: buttons_byte(old(self).buttons@), ..*old(self) }),
    {
        let ghost initial = self.state;
        let ghost b = self.buttons@;
        let mut i: usize = 0;
        while i < 8
            invariant
                i <= 8,
                self.buttons == old(self).buttons,
                self.button_states == old(self).button_states,
                self.button_shift == old(self).button_shift,
                self.controller_state == old(self).controller_state,
                initial == old(self).state,
                self.state == partial_state(initial, self.buttons@, i as int),
            decreases 8 - i,
        {
            proof {
                lemma_controller_bits(self.state, i as u8, false, false, false, false, false, false, false, false);
            }
            let button = self.buttons[i];
            if button {
                self.state = self.state | (1u8 << (i as u8));
            } else {
                self.state = self.state & !(1u8 << (i as u8));
            }
            i = i + 1;
        }
        proof {
            reveal_with_fuel(partial_state, 9);
            lemma_controller_bits(initial, 0, b[0], b[1], b[2], b[3], b[4], b[5], b[6], b[7]);
        }
    }

    /// Shift out the most significant bit of the shift register.
    pub fn get_msb(&mut self) -> (r: u8)
        ensures
            r == old(self).state >> 7u8,
            *final(self) == (Controller { state: old(self).state << 1u8, ..*old(self) }),
    {
        proof {
            lemma_controller_bits(self.state, 0, false, false, false, false, false, false, false, false);
        }
        let msb = if self.state & 0x80 > 0 { 1 } else { 0 };
        self.state = self.state << 1;
        msb
    }

    /// A read of the pad's port: the button at the current position (1 past the eighth)
    /// with the open-bus bits. With the strobe bit of `poll_input` set the position restarts
    /// at A; otherwise it steps on (wrapping after 255 reads).
    pub fn read(&mut self, poll_input: &u8) -> (r: u8)
        ensures
            r == serial_bit(old(self).controller_state.0, old(self).button_shift) | CONTROLLER_OPEN_BUS,
            *final(self) == (Controller {
                button_shift: if *poll_input & 1 != 0 { 0 } else { old(self).button_shift.wrapping_add(1) },
                ..*old(self)
            }),
    {
        proof {
            lemma_controller_bits(self.controller_state.0, self.button_shift, false, false, false, false, false, false, false, false);
        }
        let bit = if self.button_shift < 8 {
            (self.controller_state.get() & (1 << self.button_shift)) >> self.button_shift
        } else {
            1
        };
        if *poll_input & 1 != 0 {
            self.button_shift = 0;
        } else {
            self.button_shift = self.button_shift.wrapping_add(1);
        }
        bit | CONTROLLER_OPEN_BUS
    }

    /// Set the buttons from the keys held down.
    pub fn set_controller_state(
        &mut self,
        a: bool,
        b: bool,
        select: bool,
        start: bool,
        up: bool,
        down: bool,
        left: bool,
        right: bool,
    )
        ensures
            *final(self) == (Controller {
                controller_state: ControllerState(
                    with_button(with_button(with_button(with_button(with_button(with_button(with_button(with_button(
                        old(self).controller_state.0, 0, a), 1, b), 2, select), 3, start), 4, up), 5, down), 6, left), 7, right),
                ),
                ..*old(self)
            }),
    {
        self.controller_state.set_a(a);
        self.controller_state.set_b(b);
        self.controller_state.set_select(select);
        self.controller_state.set_start(start);
        self.controller_state.set_up(up);
        self.controller_state.set_down(down);
        self.controller_state.set_left(left);
        self.controller_state.set_right(right);
    }

    /// A write to the pad's port: a set strobe bit restarts the read position at A.
    pub fn write(&mut self, poll_input: &u8)
        ensures
            *final(self) == (Controller {
                button_shift: if *poll_input & 1 == 0 { old(self).button_shift } else { 0 },
                ..*old(self)
            }),
    {
        if *poll_input & 1 == 0 {
            return;
        }
        self.button_shift = 0;
    }
}

/// The shift register after the first `i` buttons have been loaded.
pub open spec fn partial_state(state: u8, buttons: Seq<bool>, i: int) -> u8
    decreases i,
{
    if i <= 0 {
        state
    } else {
        let previous = partial_state(state, buttons, i - 1);
        if buttons[i - 1] {
            previous | bit_value(i - 1)
        } else {
            previous & !bit_value(i - 1)
        }
    }
}

impl Default for Controller {
    fn default() -> (r: Self)
        ensures
            r.buttons@ == seq![false, false, false, false, false, false, false, false],
            r.state == 0,
            r.button_states == 0,
            r.button_shift == 0,
            r.controller_state == ControllerState(0),
    {
        let r = Controller {
            buttons: [false, false, false, false, false, false, false, false],
            state: 0,
            button_states: 0,
            button_shift: 0,
            controller_state: ControllerState(0),
        };
        assert(r.buttons@ =~= seq![false, false, false, false, false, false, false, false]);
        r
    }
}

/// The pad after `n` reads with the strobe bit clear.
pub open spec fn after_reads(c: Controller, n: nat) -> Controller
    decreases n,
{
    if n == 0 {
        c
    } else {
        let previous = after_reads(c, (n - 1) as nat);
        Controller { button_shift: previous.button_shift.wrapping_add(1), ..previous }
    }
}

/// After a strobe (a write with bit 0 set) and `i` reads with the strobe clear, the next
/// read reports button `i`: A, B, Select, Start, Up, Down, Left, Right in turn, each with
/// the open-bus bits.
pub proof fn lemma_reads_after_strobe(c: Controller, strobe: u8, i: nat)
    requires
        strobe & 1 == 1,
        i < 8,
    ensures
        ({
            let strobed = Controller { button_shift: if strobe & 1 == 0 { c.button_shift } else { 0 }, ..c };
            let before = after_reads(strobed, i);
            &&& before.button_shift == i
            &&& before.controller_state == c.controller_state
            &&& serial_bit(before.controller_state.0, before.button_shift) | CONTROLLER_OPEN_BUS
                == ((c.controller_state.0 >> (i as u8)) & 1) | CONTROLLER_OPEN_BUS
        }),
    decreases i,
{
    if i > 0 {
        lemma_reads_after_strobe(c, strobe, (i - 1) as nat);
    }
}

} // verus!
