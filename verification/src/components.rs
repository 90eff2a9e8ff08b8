//! Board components: small builders that carry the pieces a capsule needs
//! until the board wires it up.
//!
//! Each component records the driver number a capsule will answer under and
//! the device it sits on; the board's finalisation step, which needs static
//! allocation, consumes them.

use vstd::prelude::*;
use crate::sched::Process;

verus! {

/// Builder for a humidity-sensor capsule over the humidity driver `T`.
pub struct HumidityComponent<T> {
    /// The driver number the capsule answers under.
    pub driver_num: usize,
    /// The underlying humidity sensor.
    pub sensor: T,
}

impl<T> HumidityComponent<T> {
    /// A humidity component for `sensor` under `driver_num`.
    pub fn new(driver_num: usize, sensor: T) -> (c: HumidityComponent<T>)
        ensures
            c.driver_num == driver_num,
            c.sensor == sensor,
    {
        HumidityComponent { driver_num, sensor }
    }
}

/// Builder for a temperature-sensor capsule over the temperature driver `T`.
pub struct TemperatureComponent<T> {
    /// The driver number the capsule answers under.
    pub driver_num: usize,
    /// The underlying temperature sensor.
    pub temp_sensor: T,
}

impl<T> TemperatureComponent<T> {
    /// A temperature component for `temp_sensor` under `driver_num`.
    pub fn new(driver_num: usize, temp_sensor: T) -> (c: TemperatureComponent<T>)
        ensures
            c.driver_num == driver_num,
            c.temp_sensor == temp_sensor,
    {
        TemperatureComponent { driver_num, temp_sensor }
    }
}

/// Builder for the userspace random-number capsule over the entropy source
/// `T`.
pub struct RngComponent<T> {
    /// The driver number the capsule answers under.
    pub driver_num: usize,
    /// The underlying true-random entropy source.
    pub trng: T,
}

impl<T> RngComponent<T> {
    /// A random-number component for `trng` under `driver_num`.
    pub fn new(driver_num: usize, trng: T) -> (c: RngComponent<T>)
        ensures
            c.driver_num == driver_num,
            c.trng == trng,
    {
        RngComponent { driver_num, trng }
    }
}

/// Builder for the cooperative scheduler: carries the process table the
/// scheduler will walk.
pub struct CooperativeComponent {
    /// The control state of each process slot, in scheduling order.
    pub processes: Vec<Option<Process>>,
}

impl CooperativeComponent {
    /// A cooperative-scheduler component over `processes`.
    pub fn new(processes: Vec<Option<Process>>) -> (c: CooperativeComponent)
        ensures
            c.processes@.len() == processes@.len(),
    {
        CooperativeComponent { processes }
    }
}

} // verus!
