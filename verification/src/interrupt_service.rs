//! Peripheral set of the STM32F446RE: the family's shared peripherals plus
//! the model's own, once it grows any.

use vstd::prelude::*;

verus! {

/// The default peripherals of the STM32F446RE. The chip has no peripherals
/// beyond the family's shared set yet; what it has of its own is the
/// circular wiring step `init`.
pub struct Stm32f446reDefaultPeripherals {
    /// Whether the circular dependencies between the shared peripherals have
    /// been set up.
    pub deps_set_up: bool,
}

impl Stm32f446reDefaultPeripherals {
    /// The peripheral set, not yet wired.
    pub fn new() -> (p: Stm32f446reDefaultPeripherals)
        ensures
            !p.deps_set_up,
    {
        Stm32f446reDefaultPeripherals { deps_set_up: false }
    }

    /// Sets up the circular dependencies among the shared peripherals;
    /// necessary once before any of them is used.
    pub fn init(&mut self)
        ensures
            final(self).deps_set_up,
    {
        self.deps_set_up = true;
    }
}

} // verus!
