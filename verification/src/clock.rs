//! Clock control values of the nRF51-family clock peripheral.
//!
//! The clock hardware itself is board territory; these are the values its
//! registers speak in, with their encodings stated as contracts instead of
//! baked-in discriminants.

use vstd::prelude::*;

verus! {

/// Interrupt sources of the clock peripheral.
#[derive(Copy, Clone, PartialEq, Eq, Structural, Debug)]
pub enum InterruptField {
    HFCLKSTARTED,
    LFCLKSTARTED,
    DONE,
    CTTO,
}

impl InterruptField {
    /// The bit this interrupt occupies in the enable registers.
    pub fn mask(&self) -> (m: u32)
        ensures
            m == match *self {
                InterruptField::HFCLKSTARTED => 1u32,
                InterruptField::LFCLKSTARTED => 2u32,
                InterruptField::DONE => 8u32,
                InterruptField::CTTO => 16u32,
            },
    {
        match self {
            InterruptField::HFCLKSTARTED => 1,
            InterruptField::LFCLKSTARTED => 2,
            InterruptField::DONE => 8,
            InterruptField::CTTO => 16,
        }
    }
}

/// Whether a clock task has been triggered.
#[derive(Copy, Clone, PartialEq, Eq, Structural, Debug)]
pub enum ClockTaskTriggered {
    NO,
    YES,
}

/// Whether a clock is running.
#[derive(Copy, Clone, PartialEq, Eq, Structural, Debug)]
pub enum ClockRunning {
    NORUN,
    RUN,
}

impl ClockRunning {
    /// The status-register value of this state.
    pub fn value(&self) -> (v: u32)
        ensures
            v == match *self {
                ClockRunning::NORUN => 0u32,
                ClockRunning::RUN => 0x10000u32,
            },
    {
        match self {
            ClockRunning::NORUN => 0,
            ClockRunning::RUN => 0x10000,
        }
    }
}

/// Sources the low-frequency clock can run from.
#[derive(Copy, Clone, PartialEq, Eq, Structural, Debug)]
pub enum LowClockSource {
    RC,
    XTAL,
    SYNTH,
}

impl LowClockSource {
    /// The source-register value of this source.
    pub fn value(&self) -> (v: u32)
        ensures
            v == match *self {
                LowClockSource::RC => 0u32,
                LowClockSource::XTAL => 1u32,
                LowClockSource::SYNTH => 2u32,
            },
    {
        match self {
            LowClockSource::RC => 0,
            LowClockSource::XTAL => 1,
            LowClockSource::SYNTH => 2,
        }
    }
}

/// Sources the high-frequency clock can run from.
#[derive(Copy, Clone, PartialEq, Eq, Structural, Debug)]
pub enum HighClockSource {
    RC,
    XTAL,
}

/// Crystal frequencies the high-frequency clock supports.
#[derive(Copy, Clone, PartialEq, Eq, Structural, Debug)]
pub enum XtalFreq {
    F16MHz,
    F32MHz,
}

impl XtalFreq {
    /// The frequency-register value of this frequency.
    pub fn value(&self) -> (v: u32)
        ensures
            v == match *self {
                XtalFreq::F16MHz => 0xffu32,
                XtalFreq::F32MHz => 0u32,
            },
    {
        match self {
            XtalFreq::F16MHz => 0xff,
            XtalFreq::F32MHz => 0,
        }
    }
}

/// Receiver of clock control events. All clock interrupts are control
/// signals, such as a clock having started; a board registers a client to
/// hear about them.
pub trait ClockClient {
    /// Called on a clock control event.
    fn event(&mut self);
}

} // verus!
