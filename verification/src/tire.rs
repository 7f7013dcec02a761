//! Tire compounds, their characteristics, and degradation factors.
//!
//! Grip levels are in hundredths (70 = 0.70), degradation rates in
//! thousandths of tire wear per lap (13 = 0.013), temperatures in whole
//! degrees Celsius, heat-up and cool-down rates in tenths of a degree per
//! lap, and degradation factors in thousandths (1000 = 1.0).

use vstd::prelude::*;

verus! {

/// Lower bound of the generic optimal tire temperature window (deg C).
pub const OPTIMAL_TIRE_TEMP_MIN: i32 = 90;

/// Upper bound of the generic optimal tire temperature window (deg C).
pub const OPTIMAL_TIRE_TEMP_MAX: i32 = 110;

/// Temperature above which a tire is critically hot (deg C).
pub const CRITICAL_TIRE_TEMP: i32 = 120;

/// Base wear per lap at optimal conditions, in thousandths.
pub const DEGRADATION_RATE_BASE: u32 = 10;

/// Tire compound types, ordered hardest to softest, plus wet-weather tires.
#[derive(Debug, Clone, Copy, PartialEq, Eq, PartialOrd, Ord, Hash, Structural)]
pub enum TireCompound {
    C0,
    C1,
    C2,
    C3,
    C4,
    C5,
    Intermediate,
    Wet,
}

impl TireCompound {
    /// True for the two wet-weather compounds.
    pub open spec fn spec_is_wet_weather(self) -> bool {
        self == TireCompound::Intermediate || self == TireCompound::Wet
    }

    /// Whether this compound is an intermediate or full wet tire.
    #[verifier::when_used_as_spec(spec_is_wet_weather)]
    pub fn is_wet_weather(self) -> (r: bool)
        ensures
            r == self.spec_is_wet_weather(),
    {
        self == TireCompound::Intermediate || self == TireCompound::Wet
    }
}

/// Tire compound characteristics.
#[derive(Debug, Clone, PartialEq, Eq)]
pub struct TireCharacteristics {
    pub compound: TireCompound,
    /// Grip level in hundredths (70-95).
    pub grip_level: u32,
    /// Base wear per lap in thousandths (5-22).
    pub degradation_rate: u32,
    /// Lower bound of the optimal working temperature window, deg C.
    pub optimal_temp_min: i32,
    /// Upper bound of the optimal working temperature window, deg C.
    pub optimal_temp_max: i32,
    /// Warm-up rate in tenths of a degree per lap.
    pub heat_up_rate: u32,
    /// Cool-down rate in tenths of a degree per lap.
    pub cool_down_rate: u32,
    /// Typical usable life in laps.
    pub typical_life: u16,
}

impl TireCharacteristics {
    /// The fixed lookup table from compound to characteristics.
    pub open spec fn spec_for_compound(compound: TireCompound) -> TireCharacteristics {
        match compound {
            TireCompound::C0 => TireCharacteristics {
                compound,
                grip_level: 70,
                degradation_rate: 5,
                optimal_temp_min: 85,
                optimal_temp_max: 105,
                heat_up_rate: 20,
                cool_down_rate: 15,
                typical_life: 40,
            },
            TireCompound::C1 => TireCharacteristics {
                compound,
                grip_level: 75,
                degradation_rate: 7,
                optimal_temp_min: 90,
                optimal_temp_max: 110,
                heat_up_rate: 25,
                cool_down_rate: 18,
                typical_life: 35,
            },
            TireCompound::C2 => TireCharacteristics {
                compound,
                grip_level: 80,
                degradation_rate: 10,
                optimal_temp_min: 90,
                optimal_temp_max: 110,
                heat_up_rate: 30,
                cool_down_rate: 20,
                typical_life: 30,
            },
            TireCompound::C3 => TireCharacteristics {
                compound,
                grip_level: 85,
                degradation_rate: 13,
                optimal_temp_min: 92,
                optimal_temp_max: 112,
                heat_up_rate: 35,
                cool_down_rate: 22,
                typical_life: 25,
            },
            TireCompound::C4 => TireCharacteristics {
                compound,
                grip_level: 90,
                degradation_rate: 17,
                optimal_temp_min: 95,
                optimal_temp_max: 115,
                heat_up_rate: 40,
                cool_down_rate: 25,
                typical_life: 20,
            },
            TireCompound::C5 => TireCharacteristics {
                compound,
                grip_level: 95,
                degradation_rate: 22,
                optimal_temp_min: 95,
                optimal_temp_max: 115,
                heat_up_rate: 45,
                cool_down_rate: 28,
                typical_life: 15,
            },
            TireCompound::Intermediate => TireCharacteristics {
                compound,
                grip_level: 75,
                degradation_rate: 15,
                optimal_temp_min: 70,
                optimal_temp_max: 90,
                heat_up_rate: 30,
                cool_down_rate: 20,
                typical_life: 30,
            },
            TireCompound::Wet => TireCharacteristics {
                compound,
                grip_level: 65,
                degradation_rate: 12,
                optimal_temp_min: 60,
                optimal_temp_max: 80,
                heat_up_rate: 25,
                cool_down_rate: 15,
                typical_life: 35,
            },
        }
    }

    /// Every compound has defined characteristics: a total lookup.
    #[verifier::when_used_as_spec(spec_for_compound)]
    pub fn for_compound(compound: TireCompound) -> (r: TireCharacteristics)
        ensures
            r == TireCharacteristics::spec_for_compound(compound),
    {
        match compound {
            TireCompound::C0 => TireCharacteristics {
                compound,
                grip_level: 70,
                degradation_rate: 5,
                optimal_temp_min: 85,
                optimal_temp_max: 105,
                heat_up_rate: 20,
                cool_down_rate: 15,
                typical_life: 40,
            },
            TireCompound::C1 => TireCharacteristics {
                compound,
                grip_level: 75,
                degradation_rate: 7,
                optimal_temp_min: 90,
                optimal_temp_max: 110,
                heat_up_rate: 25,
                cool_down_rate: 18,
                typical_life: 35,
            },
            TireCompound::C2 => TireCharacteristics {
                compound,
                grip_level: 80,
                degradation_rate: 10,
                optimal_temp_min: 90,
                optimal_temp_max: 110,
                heat_up_rate: 30,
                cool_down_rate: 20,
                typical_life: 30,
            },
            TireCompound::C3 => TireCharacteristics {
                compound,
                grip_level: 85,
                degradation_rate: 13,
                optimal_temp_min: 92,
                optimal_temp_max: 112,
                heat_up_rate: 35,
                cool_down_rate: 22,
                typical_life: 25,
            },
            TireCompound::C4 => TireCharacteristics {
                compound,
                grip_level: 90,
                degradation_rate: 17,
                optimal_temp_min: 95,
                optimal_temp_max: 115,
                heat_up_rate: 40,
                cool_down_rate: 25,
                typical_life: 20,
            },
            TireCompound::C5 => TireCharacteristics {
                compound,
                grip_level: 95,
                degradation_rate: 22,
                optimal_temp_min: 95,
                optimal_temp_max: 115,
                heat_up_rate: 45,
                cool_down_rate: 28,
                typical_life: 15,
            },
            TireCompound::Intermediate => TireCharacteristics {
                compound,
                grip_level: 75,
                degradation_rate: 15,
                optimal_temp_min: 70,
                optimal_temp_max: 90,
                heat_up_rate: 30,
                cool_down_rate: 20,
                typical_life: 30,
            },
            TireCompound::Wet => TireCharacteristics {
                compound,
                grip_level: 65,
                degradation_rate: 12,
                optimal_temp_min: 60,
                optimal_temp_max: 80,
                heat_up_rate: 25,
                cool_down_rate: 15,
                typical_life: 35,
            },
        }
    }

    /// Grip multiplier at a given temperature, in thousandths: 1000 inside
    /// the optimal band; below it a linear penalty of 20 per degree floored
    /// at 500; above it a linear penalty of 30 per degree floored at 300.
    pub open spec fn spec_grip_multiplier_for_temp(self, temp: i32) -> u32 {
        let min_temp = self.optimal_temp_min;
        let max_temp = self.optimal_temp_max;
        if min_temp <= temp && temp <= max_temp {
            1000u32
        } else if temp < min_temp {
            let penalized = 1000 - (min_temp - temp) * 20;
            if penalized > 500 {
                penalized as u32
            } else {
                500u32
            }
        } else {
            let penalized = 1000 - (temp - max_temp) * 30;
            if penalized > 300 {
                penalized as u32
            } else {
                300u32
            }
        }
    }

    /// Grip multiplier (thousandths) for a track temperature.
    pub fn grip_multiplier_for_temp(&self, temp: i32) -> (r: u32)
        requires
            -1000000 <= temp <= 1000000,
            -1000000 <= self.optimal_temp_min <= 1000000,
            -1000000 <= self.optimal_temp_max <= 1000000,
        ensures
            r == self.spec_grip_multiplier_for_temp(temp),
            300 <= r <= 1000,
    {
        let min_temp = self.optimal_temp_min;
        let max_temp = self.optimal_temp_max;
        if min_temp <= temp && temp <= max_temp {
            1000
        } else if temp < min_temp {
            let penalized: i64 = 1000 - (min_temp as i64 - temp as i64) * 20;
            if penalized > 500 {
                penalized as u32
            } else {
                500
            }
        } else {
            let penalized: i64 = 1000 - (temp as i64 - max_temp as i64) * 30;
            if penalized > 300 {
                penalized as u32
            } else {
                300
            }
        }
    }

    /// Remaining tire life in thousandths of a lap:
    /// `(1 - wear) / (degradation_rate * severity)`, or no foreseeable limit
    /// when the adjusted degradation rate is zero.
    pub open spec fn spec_predict_remaining_life(self, current_wear: u32, track_severity: u32) -> Option<u64> {
        let adjusted = self.degradation_rate * track_severity;
        if adjusted == 0 {
            None
        } else {
            Some((((1000 - current_wear) * 1000000) / adjusted) as u64)
        }
    }

    /// Predicted remaining life (thousandths of a lap) from current wear
    /// (thousandths, 1000 = fully worn) and track severity (thousandths).
    /// `None` means no foreseeable limit, never an error.
    pub fn predict_remaining_life(&self, current_wear: u32, track_severity: u32) -> (r: Option<u64>)
        requires
            current_wear <= 1000,
            track_severity <= 100000,
            self.degradation_rate <= 100000,
        ensures
            r == self.spec_predict_remaining_life(current_wear, track_severity),
    {
        proof {
            assert(self.degradation_rate as int * track_severity as int <= 10000000000)
                by (nonlinear_arith)
                requires self.degradation_rate <= 100000 && track_severity <= 100000;
        }
        let adjusted: u64 = self.degradation_rate as u64 * track_severity as u64;
        if adjusted == 0 {
            None
        } else {
            let remaining_wear: u64 = (1000 - current_wear) as u64;
            Some((remaining_wear * 1000000) / adjusted)
        }
    }
}

/// Multiplicative severity factors on tire wear, each in thousandths.
/// All factors must be positive.
#[derive(Debug, Clone, PartialEq, Eq, Structural)]
pub struct DegradationFactors {
    /// Track abrasiveness (1000 = average).
    pub track_severity: u32,
    /// Temperature impact (1000 = optimal).
    pub temperature_factor: u32,
    /// Driving style aggressiveness (1000 = neutral).
    pub driving_style_factor: u32,
    /// Fuel load impact (1000 = average).
    pub fuel_load_factor: u32,
    /// Downforce level (1000 = race trim).
    pub downforce_factor: u32,
}

impl Default for DegradationFactors {
    /// Neutral factors: every multiplier is 1.0.
    fn default() -> (r: DegradationFactors)
        ensures
            r == DegradationFactors::neutral(),
    {
        DegradationFactors {
            track_severity: 1000,
            temperature_factor: 1000,
            driving_style_factor: 1000,
            fuel_load_factor: 1000,
            downforce_factor: 1000,
        }
    }
}

impl DegradationFactors {
    /// The neutral factor set (all multipliers 1.0).
    pub open spec fn neutral() -> DegradationFactors {
        DegradationFactors {
            track_severity: 1000,
            temperature_factor: 1000,
            driving_style_factor: 1000,
            fuel_load_factor: 1000,
            downforce_factor: 1000,
        }
    }

    /// Well-formed factors: each positive and at most 100.0.
    pub open spec fn wf(self) -> bool {
        &&& 0 < self.track_severity <= 100000
        &&& 0 < self.temperature_factor <= 100000
        &&& 0 < self.driving_style_factor <= 100000
        &&& 0 < self.fuel_load_factor <= 100000
        &&& 0 < self.downforce_factor <= 100000
    }

    /// The combined multiplier in thousandths: the product of the five
    /// factors, scaled back to thousandths.
    pub open spec fn spec_total_multiplier(self) -> u64 {
        ((self.track_severity as int * self.temperature_factor as int
            * self.driving_style_factor as int * self.fuel_load_factor as int
            * self.downforce_factor as int) / 1000000000000) as u64
    }

    /// Combined degradation multiplier, in thousandths.
    pub fn total_multiplier(&self) -> (r: u64)
        requires
            self.wf(),
        ensures
            r == self.spec_total_multiplier(),
            r <= 10000000000000,
    {
        let a = self.track_severity;
        let b = self.temperature_factor;
        let c = self.driving_style_factor;
        let d = self.fuel_load_factor;
        let e = self.downforce_factor;
        proof {
            assert(a as int * b as int <= 10000000000) by (nonlinear_arith)
                requires a <= 100000 && b <= 100000;
        }
        let p1: u128 = a as u128 * b as u128;
        proof {
            assert(p1 as int * c as int <= 1000000000000000) by (nonlinear_arith)
                requires p1 <= 10000000000 && c <= 100000;
        }
        let p2: u128 = p1 * c as u128;
        proof {
            assert(p2 as int * d as int <= 100000000000000000000) by (nonlinear_arith)
                requires p2 <= 1000000000000000 && d <= 100000;
        }
        let p3: u128 = p2 * d as u128;
        proof {
            assert(p3 as int * e as int <= 10000000000000000000000000) by (nonlinear_arith)
                requires p3 <= 100000000000000000000 && e <= 100000;
        }
        let product: u128 = p3 * e as u128;
        proof {
            assert(product as int == a as int * b as int * c as int * d as int * e as int);
            assert(product as int / 1000000000000 <= 10000000000000) by (nonlinear_arith)
                requires product as int <= 10000000000000000000000000;
        }
        (product / 1000000000000) as u64
    }
}

/// Law: the compound characteristics lookup is a pure function of the
/// compound — any two results obtained for the same compound are equal.
pub proof fn lemma_characteristics_deterministic(
    compound: TireCompound,
    r1: TireCharacteristics,
    r2: TireCharacteristics,
)
    requires
        r1 == TireCharacteristics::spec_for_compound(compound),
        r2 == TireCharacteristics::spec_for_compound(compound),
    ensures
        r1 == r2,
{
}

} // verus!
