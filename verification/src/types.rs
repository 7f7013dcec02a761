//! Core identifier and enumeration types shared across the library.

use vstd::prelude::*;

verus! {

/// Car identifier (1-20).
#[derive(Debug, Clone, Copy, PartialEq, Eq, Hash, Structural)]
pub struct CarId(pub u8);

impl CarId {
    /// A car number is accepted exactly when it lies between 1 and 20.
    pub fn new(id: u8) -> (r: Result<CarId, &'static str>)
        ensures
            1 <= id <= 20 <==> r == Ok::<CarId, &'static str>(CarId(id)),
            !(1 <= id <= 20) ==> r is Err,
    {
        if id >= 1 && id <= 20 {
            Ok(CarId(id))
        } else {
            Err("CarId must be between 1 and 20")
        }
    }
}

/// Lap number (1-indexed).
#[derive(Debug, Clone, Copy, PartialEq, Eq, PartialOrd, Ord, Hash, Structural)]
pub struct LapNumber(pub u16);

/// Time in milliseconds.
#[derive(Debug, Clone, Copy, PartialEq, Eq, PartialOrd, Ord, Structural)]
pub struct Milliseconds(pub u64);

/// Position on track (1st, 2nd, etc.).
#[derive(Debug, Clone, Copy, PartialEq, Eq, PartialOrd, Ord, Structural)]
pub struct Position(pub u8);

/// Track sector (1, 2, or 3).
#[derive(Debug, Clone, Copy, PartialEq, Eq, Structural)]
pub enum Sector {
    Sector1,
    Sector2,
    Sector3,
}

/// Session type.
#[derive(Debug, Clone, Copy, PartialEq, Eq, Structural)]
pub enum SessionType {
    Practice1,
    Practice2,
    Practice3,
    Qualifying,
    Sprint,
    Race,
}

/// Flag status.
#[derive(Debug, Clone, Copy, PartialEq, Eq, Structural)]
pub enum FlagStatus {
    Green,
    Yellow,
    DoubleYellow,
    Red,
    SafetyCar,
    VirtualSafetyCar,
    Blue,
    Black,
    Checkered,
}

/// Weather condition.
#[derive(Debug, Clone, Copy, PartialEq, Eq, Structural)]
pub enum WeatherCondition {
    Dry,
    LightRain,
    HeavyRain,
    Cloudy,
    PartlyCloudy,
}

/// Track condition.
#[derive(Debug, Clone, Copy, PartialEq, Eq, Structural)]
pub enum TrackCondition {
    Dry,
    Damp,
    Wet,
    VeryWet,
}

} // verus!
