//! Flash wait-state selection for the STM32F4 family.
//!
//! The number of wait cycles the flash needs depends on the system clock
//! frequency (at the default 2.7-3.6V supply). The mapping from frequency
//! to latency value, and the decoding of the latency register, are chip
//! logic; reading the register itself is the implementor's side.

use vstd::prelude::*;

verus! {

/// The possible flash latency values: `LatencyN` stands for N wait cycles.
#[derive(Copy, Clone, PartialEq, Eq, Structural, Debug)]
pub enum FlashLatency {
    Latency0,
    Latency1,
    Latency2,
    Latency3,
    Latency4,
    Latency5,
    Latency6,
    Latency7,
    Latency8,
    Latency9,
    Latency10,
    Latency11,
    Latency12,
    Latency13,
    Latency14,
    Latency15,
}

/// The latency required at `frequency_mhz`: one more wait cycle for every
/// started 30 MHz beyond the first 30.
pub open spec fn spec_wait_cycles(frequency_mhz: int) -> FlashLatency {
    if frequency_mhz <= 30 {
        FlashLatency::Latency0
    } else if frequency_mhz <= 60 {
        FlashLatency::Latency1
    } else if frequency_mhz <= 90 {
        FlashLatency::Latency2
    } else if frequency_mhz <= 120 {
        FlashLatency::Latency3
    } else if frequency_mhz <= 150 {
        FlashLatency::Latency4
    } else {
        FlashLatency::Latency5
    }
}

/// Chip-specific flash control: the implementor supplies the raw latency
/// register read, the trait derives the latency values from it and from the
/// clock frequency.
pub trait SpecificFlashTrait {
    /// Reads the raw value of the flash latency register.
    fn read_latency_from_register(&self) -> u32;

    /// The number of wait cycles needed to run at `frequency_mhz`.
    fn get_number_wait_cycles_based_on_frequency(&self, frequency_mhz: usize) -> (l: FlashLatency)
        ensures
            l == spec_wait_cycles(frequency_mhz as int),
    {
        if frequency_mhz <= 30 {
            FlashLatency::Latency0
        } else if frequency_mhz <= 60 {
            FlashLatency::Latency1
        } else if frequency_mhz <= 90 {
            FlashLatency::Latency2
        } else if frequency_mhz <= 120 {
            FlashLatency::Latency3
        } else if frequency_mhz <= 150 {
            FlashLatency::Latency4
        } else {
            FlashLatency::Latency5
        }
    }

    /// The current flash latency, decoded from the 4-bit register value.
    fn get_latency(&self) -> FlashLatency {
        match self.read_latency_from_register() {
            0 => FlashLatency::Latency0,
            1 => FlashLatency::Latency1,
            2 => FlashLatency::Latency2,
            3 => FlashLatency::Latency3,
            4 => FlashLatency::Latency4,
            5 => FlashLatency::Latency5,
            6 => FlashLatency::Latency6,
            7 => FlashLatency::Latency7,
            8 => FlashLatency::Latency8,
            9 => FlashLatency::Latency9,
            10 => FlashLatency::Latency10,
            11 => FlashLatency::Latency11,
            12 => FlashLatency::Latency12,
            13 => FlashLatency::Latency13,
            14 => FlashLatency::Latency14,
            _ => FlashLatency::Latency15,
        }
    }
}

} // verus!
