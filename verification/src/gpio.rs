//! GPIO pins of the SAM4L's three ports, and the peripheral functions a pin
//! can be handed to.

use vstd::prelude::*;

verus! {

/// Alternate peripheral functions a pin can be multiplexed to.
#[derive(Copy, Clone, PartialEq, Eq, Structural, Debug)]
pub enum PeripheralFunction {
    A,
    B,
    C,
    D,
    E,
    F,
    G,
    H,
}

impl PeripheralFunction {
    /// The three-bit selector value of this function.
    pub fn value(&self) -> (v: u32)
        ensures
            v < 8,
    {
        match self {
            PeripheralFunction::A => 0,
            PeripheralFunction::B => 1,
            PeripheralFunction::C => 2,
            PeripheralFunction::D => 3,
            PeripheralFunction::E => 4,
            PeripheralFunction::F => 5,
            PeripheralFunction::G => 6,
            PeripheralFunction::H => 7,
        }
    }
}

/// The pins of ports A, B and C, 32 each.
#[derive(Copy, Clone, PartialEq, Eq, Structural, Debug)]
pub enum Pin {
    PA00, PA01, PA02, PA03, PA04, PA05, PA06, PA07,
    PA08, PA09, PA10, PA11, PA12, PA13, PA14, PA15,
    PA16, PA17, PA18, PA19, PA20, PA21, PA22, PA23,
    PA24, PA25, PA26, PA27, PA28, PA29, PA30, PA31,
    PB00, PB01, PB02, PB03, PB04, PB05, PB06, PB07,
    PB08, PB09, PB10, PB11, PB12, PB13, PB14, PB15,
    PB16, PB17, PB18, PB19, PB20, PB21, PB22, PB23,
    PB24, PB25, PB26, PB27, PB28, PB29, PB30, PB31,
    PC00, PC01, PC02, PC03, PC04, PC05, PC06, PC07,
    PC08, PC09, PC10, PC11, PC12, PC13, PC14, PC15,
    PC16, PC17, PC18, PC19, PC20, PC21, PC22, PC23,
    PC24, PC25, PC26, PC27, PC28, PC29, PC30, PC31,
}

/// One GPIO pin; the port registers that drive it belong to the board.
pub struct GPIOPin {
    /// Which pin this is.
    pub pin: Pin,
}

impl GPIOPin {
    /// The GPIO handle for pin `p`.
    pub fn new(p: Pin) -> (g: GPIOPin)
        ensures
            g.pin == p,
    {
        GPIOPin { pin: p }
    }
}

} // verus!
