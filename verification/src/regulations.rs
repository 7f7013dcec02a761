//! Sporting regulations: the limits a legal strategy must respect.
//!
//! Fuel quantities are in grams, speeds in km/h, times in milliseconds.

use vstd::prelude::*;

verus! {

/// Safety car tire changing rules.
#[derive(Debug, Clone, Copy, PartialEq, Eq, Structural)]
pub enum SafetyCarTireRules {
    Allowed,
    NotAllowed,
    ConditionallyAllowed,
}

/// Sporting regulations.
#[derive(Debug, Clone, PartialEq, Eq, Structural)]
pub struct FiaRegulations {
    /// Maximum fuel capacity (grams).
    pub max_fuel: u64,
    /// Minimum number of pit stops required.
    pub min_pit_stops: u8,
    /// Minimum number of different compounds to use.
    pub min_compound_types: u8,
    /// Maximum tire allocation per weekend.
    pub max_tire_sets: u8,
    /// Pit lane speed limit (km/h).
    pub pit_lane_speed_limit: u32,
    /// Minimum pit stop time (milliseconds).
    pub min_pit_stop_time: u64,
    /// DRS detection time delta (milliseconds).
    pub drs_detection_delta: u64,
    /// Safety car tire changing rules.
    pub safety_car_tire_rules: SafetyCarTireRules,
}

impl Default for FiaRegulations {
    /// The current rule set: 110 kg of fuel, one mandatory stop, two
    /// compound types.
    fn default() -> (r: FiaRegulations)
        ensures
            r == (FiaRegulations {
                max_fuel: 110000u64,
                min_pit_stops: 1u8,
                min_compound_types: 2u8,
                max_tire_sets: 13u8,
                pit_lane_speed_limit: 80u32,
                min_pit_stop_time: 2000u64,
                drs_detection_delta: 1000u64,
                safety_car_tire_rules: SafetyCarTireRules::Allowed,
            }),
    {
        FiaRegulations {
            max_fuel: 110000,
            min_pit_stops: 1,
            min_compound_types: 2,
            max_tire_sets: 13,
            pit_lane_speed_limit: 80,
            min_pit_stop_time: 2000,
            drs_detection_delta: 1000,
            safety_car_tire_rules: SafetyCarTireRules::Allowed,
        }
    }
}

} // verus!
