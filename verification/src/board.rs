//! Pin assignments a board hands to its peripherals, and stubs boards
//! without protection hardware use.

use vstd::prelude::*;
use crate::gpio::Pin;

verus! {

/// Pin assignment of an external SPI flash chip: the SPI lines plus the
/// chip's control pins.
pub struct SpiMX25R6435FPins {
    pub chip_select: Pin,
    pub write_protect: Pin,
    pub hold: Pin,
}

impl SpiMX25R6435FPins {
    pub fn new(chip_select: Pin, write_protect: Pin, hold: Pin) -> (p: SpiMX25R6435FPins)
        ensures
            p.chip_select == chip_select,
            p.write_protect == write_protect,
            p.hold == hold,
    {
        SpiMX25R6435FPins { chip_select, write_protect, hold }
    }
}

/// Pin assignment of an SPI bus.
pub struct SpiPins {
    pub mosi: Pin,
    pub miso: Pin,
    pub clk: Pin,
}

impl SpiPins {
    pub fn new(mosi: Pin, miso: Pin, clk: Pin) -> (p: SpiPins)
        ensures
            p.mosi == mosi,
            p.miso == miso,
            p.clk == clk,
    {
        SpiPins { mosi, miso, clk }
    }
}

/// Pin assignment of a UART.
pub struct UartPins {
    pub rts: Pin,
    pub txd: Pin,
    pub cts: Pin,
    pub rxd: Pin,
}

impl UartPins {
    pub fn new(rts: Pin, txd: Pin, cts: Pin, rxd: Pin) -> (p: UartPins)
        ensures
            p.rts == rts,
            p.txd == txd,
            p.cts == cts,
            p.rxd == rxd,
    {
        UartPins { rts, txd, cts, rxd }
    }
}

/// Protection stub for boards whose chip has no protection hardware: every
/// request is accepted and nothing is programmed.
pub struct DummyMPU;

impl DummyMPU {
    /// Accepts any region request without programming anything.
    pub fn set_mpu(&mut self, _start: u32, _size: u32, _region: u32, _enable: bool, _permissions: u32) {
    }
}

} // verus!
