use vstd::prelude::*;
use super::tables::{dmc_rate, dmc_rate_table};
use super::lemma_audio_bits;

verus! {

/// The delta modulation channel. Only its rate register is decoded; it plays silence.
#[derive(Debug)]
pub struct DeltaModulationChannel {
    pub current_address: u16,
    pub irq_enabled: bool,
    pub loop_flag: bool,
    pub sample_address: u16,
    pub sample_buffer: Vec<u8>,
    pub rate: u16,
    /// Bytes of the sample still to play, as reported in the status register.
    pub remaining_bytes: u16,
    /// The channel's interrupt flag, as reported in the status register.
    pub interrupt: bool,
}

impl DeltaModulationChannel {
    pub open spec fn is_initial(self) -> bool {
        &&& self.current_address == 0
        &&& !self.irq_enabled
        &&& !self.loop_flag
        &&& self.sample_address == 0
        &&& self.sample_buffer@.len() == 0
        &&& self.rate == 0
        &&& self.remaining_bytes == 0
        &&& !self.interrupt
    }

    /// $4010: IRQ enable (bit 7), loop (bit 6), rate index (bits 3-0).
    pub open spec fn set_rate_spec(self, data: u8) -> DeltaModulationChannel {
        DeltaModulationChannel {
            irq_enabled: (data & 0b10000000) > 0,
            loop_flag: (data & 0b01000000) > 0,
            rate: dmc_rate_table(data & 0b00001111),
            ..self
        }
    }

    pub fn clock(&mut self) -> (r: u8)
        ensures
            *final(self) == *old(self),
            r == 0,
    {
        0
    }

    pub fn set_rate(&mut self, data: u8)
        ensures
            *final(self) == old(self).set_rate_spec(data),
    {
        proof {
            lemma_audio_bits(0, data, 0);
        }
        self.irq_enabled = (data & 0b10000000) > 0;
        self.loop_flag = (data & 0b01000000) > 0;
        let rate_index = data & 0b00001111;
        self.rate = dmc_rate(rate_index);
    }

    /// $4011 is not decoded.
    pub fn set_direct_load(&mut self, data: u8)
        ensures
            *final(self) == *old(self),
    {
    }

    /// $4012 is not decoded.
    pub fn set_sample_address(&mut self, data: u8)
        ensures
            *final(self) == *old(self),
    {
    }

    /// $4013 is not decoded.
    pub fn set_sample_length(&mut self, data: u8)
        ensures
            *final(self) == *old(self),
    {
    }
}

impl Default for DeltaModulationChannel {
    fn default() -> (r: Self)
        ensures
            r.is_initial(),
    {
        DeltaModulationChannel {
            current_address: 0,
            irq_enabled: false,
            loop_flag: false,
            sample_address: 0,
            sample_buffer: Vec::new(),
            rate: 0,
            remaining_bytes: 0,
            interrupt: false,
        }
    }
}

} // verus!
