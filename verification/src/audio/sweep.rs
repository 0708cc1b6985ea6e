use vstd::prelude::*;

verus! {

/// The sweep unit of a pulse channel: it moves the period up or down by a shifted copy of
/// itself every `period + 1` half frames.
#[derive(Debug)]
pub struct Sweep {
    pub divider_counter: u16,
    pub enabled: bool,
    pub negate: bool,
    pub period: u16,
    pub reload: bool,
    pub shift_amount: u8,
}

impl Sweep {
    pub open spec fn initial() -> Sweep {
        Sweep { divider_counter: 0, enabled: false, negate: false, period: 0, reload: false, shift_amount: 0 }
    }
}

impl Default for Sweep {
    fn default() -> (r: Self)
        ensures
            r == Sweep::initial(),
    {
        Sweep { divider_counter: 0, enabled: false, negate: false, period: 0, reload: false, shift_amount: 0 }
    }
}

} // verus!
