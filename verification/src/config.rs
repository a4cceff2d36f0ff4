//! Units in which a driver instance takes temperatures and reports distances.

use vstd::prelude::*;

verus! {

/// The distance unit to use for measurements.
#[derive(Clone, Copy, Debug, PartialEq, Eq, Structural)]
pub enum DistanceUnit {
    Centimeters,
    Inches,
}

/// The temperature unit to use for measurements.
#[derive(Clone, Copy, Debug, PartialEq, Eq, Structural)]
pub enum TemperatureUnit {
    Celsius,
    Fahrenheit,
}

/// The configuration for the sensor.
///
/// A driver instance is given its configuration once, when it is built,
/// and keeps it for its whole lifetime.
#[derive(Clone, Copy, Debug, PartialEq, Eq, Structural)]
pub struct Config {
    pub distance_unit: DistanceUnit,
    pub temperature_unit: TemperatureUnit,
}

} // verus!
