//! Weather forecasting data and the tire recommendation it implies.
//!
//! Temperatures are whole degrees Celsius, probabilities and grip levels
//! in thousandths, wind speeds in km/h, and rain intensities in tenths of
//! a millimeter per hour.

use vstd::prelude::*;
use crate::types::Sector;
use crate::types::WeatherCondition;

verus! {

/// Weather conditions per sector (microclimate).
#[derive(Debug, Clone, PartialEq, Eq, Structural)]
pub struct SectorWeather {
    pub sector: Sector,
    pub condition: WeatherCondition,
    /// Rain intensity (tenths of a millimeter per hour).
    pub rain_intensity: u32,
    /// Track temperature (deg C).
    pub track_temp: i32,
    /// Grip level (thousandths).
    pub grip_level: u32,
}

/// Future weather prediction.
#[derive(Debug, Clone, PartialEq, Eq, Structural)]
pub struct WeatherPrediction {
    /// Minutes from now.
    pub minutes_ahead: u16,
    /// Predicted condition.
    pub condition: WeatherCondition,
    /// Rain probability (thousandths).
    pub rain_probability: u32,
    /// Confidence in the prediction (thousandths).
    pub confidence: u32,
}

/// Recommended tire type based on weather.
#[derive(Debug, Clone, Copy, PartialEq, Eq, Structural)]
pub enum RecommendedTire {
    Dry,
    Intermediate,
    Wet,
}

/// Weather forecast for a race session.
#[derive(Debug, Clone, PartialEq, Eq)]
pub struct WeatherForecast {
    /// Track-wide conditions.
    pub overall_condition: WeatherCondition,
    /// Air temperature (deg C).
    pub air_temperature: i32,
    /// Track surface temperature (deg C).
    pub track_temperature: i32,
    /// Humidity (thousandths).
    pub humidity: u32,
    /// Wind speed (km/h).
    pub wind_speed: u32,
    /// Wind direction (degrees, 0-360).
    pub wind_direction: u32,
    /// Rain probability (thousandths).
    pub rain_probability: u32,
    /// Expected rainfall intensity (tenths of a millimeter per hour).
    pub rainfall_intensity: u32,
    /// Sector-specific conditions.
    pub sector_conditions: Vec<SectorWeather>,
    /// Future predictions.
    pub predictions: Vec<WeatherPrediction>,
}

/// The largest rain intensity among the sectors.
pub open spec fn spec_max_rain_intensity(sectors: Seq<SectorWeather>) -> int
    decreases sectors.len(),
{
    if sectors.len() == 0 {
        0
    } else {
        let rest = spec_max_rain_intensity(sectors.drop_last());
        if sectors.last().rain_intensity > rest {
            sectors.last().rain_intensity as int
        } else {
            rest
        }
    }
}

/// Sum of the sector grip levels.
pub open spec fn spec_grip_sum(sectors: Seq<SectorWeather>) -> int
    decreases sectors.len(),
{
    if sectors.len() == 0 {
        0
    } else {
        spec_grip_sum(sectors.drop_last()) + sectors.last().grip_level
    }
}

/// Whether rain above 50% probability is predicted within `minutes`.
pub open spec fn spec_rain_expected_in(predictions: Seq<WeatherPrediction>, minutes: u16) -> bool {
    exists|i: int| 0 <= i < predictions.len()
        && (#[trigger] predictions[i]).minutes_ahead <= minutes
        && predictions[i].rain_probability > 500
}

impl WeatherForecast {
    /// Whether any sector reports rain.
    pub fn has_rain_anywhere(&self) -> (r: bool)
        ensures
            r == exists|i: int| 0 <= i < self.sector_conditions@.len()
                && (#[trigger] self.sector_conditions@[i]).rain_intensity > 0,
    {
        let mut i: usize = 0;
        while i < self.sector_conditions.len()
            invariant
                0 <= i <= self.sector_conditions@.len(),
                forall|j: int| 0 <= j < i
                    ==> (#[trigger] self.sector_conditions@[j]).rain_intensity == 0,
            decreases self.sector_conditions@.len() - i,
        {
            if self.sector_conditions[i].rain_intensity > 0 {
                return true;
            }
            i = i + 1;
        }
        false
    }

    /// Maximum rain intensity across all sectors (tenths of mm/h).
    pub fn max_rain_intensity(&self) -> (r: u32)
        ensures
            r == spec_max_rain_intensity(self.sector_conditions@),
    {
        let mut max: u32 = 0;
        let mut i: usize = 0;
        while i < self.sector_conditions.len()
            invariant
                0 <= i <= self.sector_conditions@.len(),
                max == spec_max_rain_intensity(self.sector_conditions@.take(i as int)),
            decreases self.sector_conditions@.len() - i,
        {
            proof {
                assert(self.sector_conditions@.take(i + 1).drop_last()
                    =~= self.sector_conditions@.take(i as int));
                assert(self.sector_conditions@.take(i + 1).last()
                    == self.sector_conditions@[i as int]);
            }
            if self.sector_conditions[i].rain_intensity > max {
                max = self.sector_conditions[i].rain_intensity;
            }
            i = i + 1;
        }
        proof {
            assert(self.sector_conditions@.take(i as int) =~= self.sector_conditions@);
        }
        max
    }

    /// Average grip level across all sectors (thousandths).
    pub fn average_grip_level(&self) -> (r: u64)
        requires
            self.sector_conditions@.len() >= 1,
            self.sector_conditions@.len() <= 65535,
            forall|i: int| 0 <= i < self.sector_conditions@.len()
                ==> (#[trigger] self.sector_conditions@[i]).grip_level <= 100000,
        ensures
            r == spec_grip_sum(self.sector_conditions@) / self.sector_conditions@.len() as int,
    {
        let mut sum: u64 = 0;
        let mut i: usize = 0;
        while i < self.sector_conditions.len()
            invariant
                0 <= i <= self.sector_conditions@.len(),
                self.sector_conditions@.len() <= 65535,
                forall|j: int| 0 <= j < self.sector_conditions@.len()
                    ==> (#[trigger] self.sector_conditions@[j]).grip_level <= 100000,
                sum == spec_grip_sum(self.sector_conditions@.take(i as int)),
                sum <= i * 100000,
            decreases self.sector_conditions@.len() - i,
        {
            proof {
                assert(self.sector_conditions@.take(i + 1).drop_last()
                    =~= self.sector_conditions@.take(i as int));
                assert(self.sector_conditions@.take(i + 1).last()
                    == self.sector_conditions@[i as int]);
                assert(i * 100000 + 100000 == (i + 1) * 100000) by (nonlinear_arith);
                assert((i + 1) * 100000 <= 65535 * 100000) by (nonlinear_arith)
                    requires i + 1 <= 65535;
            }
            sum = sum + self.sector_conditions[i].grip_level as u64;
            i = i + 1;
        }
        proof {
            assert(self.sector_conditions@.take(i as int) =~= self.sector_conditions@);
        }
        sum / self.sector_conditions.len() as u64
    }

    /// Whether rain is expected within the next `minutes` minutes.
    pub fn rain_expected_in(&self, minutes: u16) -> (r: bool)
        ensures
            r == spec_rain_expected_in(self.predictions@, minutes),
    {
        let mut i: usize = 0;
        while i < self.predictions.len()
            invariant
                0 <= i <= self.predictions@.len(),
                forall|j: int| 0 <= j < i
                    ==> !((#[trigger] self.predictions@[j]).minutes_ahead <= minutes
                        && self.predictions@[j].rain_probability > 500),
            decreases self.predictions@.len() - i,
        {
            let p = &self.predictions[i];
            if p.minutes_ahead <= minutes && p.rain_probability > 500 {
                return true;
            }
            i = i + 1;
        }
        false
    }

    /// The tire type these conditions call for: wets above 5 mm/h of rain
    /// somewhere, intermediates above 0.5 mm/h or when likely rain is
    /// imminent, dry tires otherwise.
    pub fn recommended_compound(&self) -> (r: RecommendedTire)
        ensures
            r == ({
                let max_rain = spec_max_rain_intensity(self.sector_conditions@);
                if max_rain > 50 {
                    RecommendedTire::Wet
                } else if max_rain > 5 {
                    RecommendedTire::Intermediate
                } else if spec_rain_expected_in(self.predictions@, 10)
                    && self.rain_probability > 700 {
                    RecommendedTire::Intermediate
                } else {
                    RecommendedTire::Dry
                }
            }),
    {
        let max_rain = self.max_rain_intensity();
        if max_rain > 50 {
            RecommendedTire::Wet
        } else if max_rain > 5 {
            RecommendedTire::Intermediate
        } else if self.rain_expected_in(10) && self.rain_probability > 700 {
            RecommendedTire::Intermediate
        } else {
            RecommendedTire::Dry
        }
    }
}

} // verus!
