//! Two independent readings of one physical quantity.

use vstd::prelude::*;
use crate::dac_mcp4922::{DacOutput, DAC_OUTPUT_MAX};

verus! {

/// The converter inputs the two readings come from.
#[derive(Clone, Copy, Debug, PartialEq, Eq, Structural)]
pub enum AdcSignal {
    BrakePedalPositionSensorHigh,
    BrakePedalPositionSensorLow,
}

/// The latest two samples of a redundant sensor, and the pair that primes
/// the output at a change of control mode.
#[derive(Clone, Copy, Debug)]
pub struct DualSignal {
    pub high: u16,
    pub low: u16,
    pub high_signal: AdcSignal,
    pub low_signal: AdcSignal,
    pub dac_output_a: u16,
    pub dac_output_b: u16,
}

/// Mean of two samples, rounded down.
pub open spec fn average_of(high: u16, low: u16) -> u16 {
    ((high + low) / 2) as u16
}

impl DualSignal {
    pub open spec fn wf(self) -> bool {
        &&& self.high <= DAC_OUTPUT_MAX
        &&& self.low <= DAC_OUTPUT_MAX
        &&& self.dac_output_a <= DAC_OUTPUT_MAX
        &&& self.dac_output_b <= DAC_OUTPUT_MAX
    }

    /// The channel with fresh samples.
    pub open spec fn sampled(self, high: u16, low: u16) -> DualSignal {
        DualSignal { high, low, ..self }
    }

    /// The channel with an output-priming pair taken from fresh samples.
    pub open spec fn primed(self, high: u16, low: u16) -> DualSignal {
        DualSignal { dac_output_a: high, dac_output_b: low, ..self }
    }

    pub fn new(high: u16, low: u16, high_signal: AdcSignal, low_signal: AdcSignal) -> (r: DualSignal)
        requires
            high <= DAC_OUTPUT_MAX,
            low <= DAC_OUTPUT_MAX,
        ensures
            r.wf(),
            r == (DualSignal { high, low, high_signal, low_signal, dac_output_a: high, dac_output_b: low }),
    {
        DualSignal { high, low, high_signal, low_signal, dac_output_a: high, dac_output_b: low }
    }

    /// Stores the samples just read from `high_signal` and `low_signal`.
    pub fn update(&mut self, high: u16, low: u16)
        requires
            old(self).wf(),
            high <= DAC_OUTPUT_MAX,
            low <= DAC_OUTPUT_MAX,
        ensures
            final(self).wf(),
            *final(self) == old(self).sampled(high, low),
    {
        self.high = high;
        self.low = low;
    }

    /// Mean of the two stored samples.
    pub fn average(&self) -> (r: u16)
        requires
            self.wf(),
        ensures
            r == average_of(self.high, self.low),
    {
        (self.high + self.low) / 2
    }

    /// Takes the output-priming pair from the samples the converter inputs
    /// show right now, so that the first output after a change of mode
    /// matches what the actuator already sees.
    pub fn prevent_signal_discontinuity(&mut self, high: u16, low: u16)
        requires
            old(self).wf(),
            high <= DAC_OUTPUT_MAX,
            low <= DAC_OUTPUT_MAX,
        ensures
            final(self).wf(),
            *final(self) == old(self).primed(high, low),
    {
        self.dac_output_a = high;
        self.dac_output_b = low;
    }

    pub fn dac_output_a(&self) -> (r: DacOutput)
        requires
            self.wf(),
        ensures
            r@ == self.dac_output_a,
    {
        DacOutput::new(self.dac_output_a).unwrap()
    }

    pub fn dac_output_b(&self) -> (r: DacOutput)
        requires
            self.wf(),
        ensures
            r@ == self.dac_output_b,
    {
        DacOutput::new(self.dac_output_b).unwrap()
    }
}

} // verus!
