//! Fuel consumption modeling.
//!
//! Fuel quantities are in grams, the track multiplier in thousandths
//! (1000 = 1.0), and the fuel-load factor in parts per million of extra
//! consumption per kilogram of fuel carried.

use vstd::prelude::*;

verus! {

/// Maximum fuel capacity (grams).
pub const MAX_FUEL_CAPACITY: u64 = 110000;

/// Safety margin below which fuel is considered exhausted (grams).
pub const MIN_FUEL_BUFFER: u64 = 1000;

/// Typical consumption on an average circuit (grams per lap).
pub const TYPICAL_CONSUMPTION: u64 = 1600;

/// Largest fuel quantity the model accepts (grams).
pub const FUEL_LIMIT: u64 = 100000000;

/// Largest per-lap consumption a well-formed model can produce (grams).
pub const CONSUMPTION_LIMIT: u64 = 1100000000;

/// Fuel consumption model.
#[derive(Debug, Clone, PartialEq, Eq, Structural)]
pub struct FuelConsumptionModel {
    /// Base consumption rate (grams per lap).
    pub base_rate: u32,
    /// Track-specific multiplier (thousandths).
    pub track_multiplier: u32,
    /// Extra consumption per kilogram of fuel carried (parts per million).
    pub fuel_load_factor: u32,
    /// Consumption under the safety car (grams per lap).
    pub safety_car_rate: u32,
}

impl FuelConsumptionModel {
    /// Well-formed model: rates within physical bounds.
    pub open spec fn wf(self) -> bool {
        &&& self.base_rate <= 100000
        &&& self.track_multiplier <= 10000
        &&& self.fuel_load_factor <= 10000
        &&& self.safety_car_rate <= 100000
    }

    /// The default model: 1.6 kg per lap, neutral track, 0.05% extra
    /// consumption per kilogram carried, 0.4 kg per lap under safety car.
    pub open spec fn spec_default_model() -> FuelConsumptionModel {
        FuelConsumptionModel {
            base_rate: 1600,
            track_multiplier: 1000,
            fuel_load_factor: 500,
            safety_car_rate: 400,
        }
    }

    /// Create the default model.
    #[verifier::when_used_as_spec(spec_default_model)]
    pub fn default_model() -> (r: FuelConsumptionModel)
        ensures
            r == FuelConsumptionModel::spec_default_model(),
            r.wf(),
    {
        FuelConsumptionModel {
            base_rate: 1600,
            track_multiplier: 1000,
            fuel_load_factor: 500,
            safety_car_rate: 400,
        }
    }

    /// Consumption for one lap at race pace, in grams:
    /// `base_rate * track_multiplier * (1 + fuel_load_kg * fuel_load_factor)`,
    /// all in fixed point.
    pub open spec fn spec_consumption_per_lap(self, current_fuel_load: int) -> int {
        self.base_rate * self.track_multiplier
            * (1000000 + current_fuel_load * self.fuel_load_factor / 1000) / 1000000000
    }

    /// Consumption for one lap at full race pace (grams), given the current
    /// fuel load (grams).
    pub fn consumption_per_lap(&self, current_fuel_load: u64) -> (r: u64)
        requires
            self.wf(),
            current_fuel_load <= FUEL_LIMIT,
        ensures
            r == self.spec_consumption_per_lap(current_fuel_load as int),
            r <= CONSUMPTION_LIMIT,
            r >= self.base_rate * self.track_multiplier / 1000,
    {
        proof {
            self.lemma_consumption_bounds(current_fuel_load as int);
        }
        let impact: u64 = 1000000 + current_fuel_load * self.fuel_load_factor as u64 / 1000;
        let scaled: u64 = self.base_rate as u64 * self.track_multiplier as u64 * impact;
        scaled / 1000000000
    }

    /// Bounds on the per-lap consumption of a well-formed model.
    pub proof fn lemma_consumption_bounds(self, fuel: int)
        requires
            self.wf(),
            0 <= fuel <= FUEL_LIMIT,
        ensures
            self.base_rate * self.track_multiplier / 1000
                <= self.spec_consumption_per_lap(fuel) <= CONSUMPTION_LIMIT,
            fuel * self.fuel_load_factor / 1000 <= 1000000000,
            self.base_rate * self.track_multiplier
                * (1000000 + fuel * self.fuel_load_factor / 1000) <= 1001000000000000000,
    {
        assert(fuel * self.fuel_load_factor <= 1000000000000) by (nonlinear_arith)
            requires 0 <= fuel <= 100000000 && self.fuel_load_factor <= 10000;
        assert(fuel * self.fuel_load_factor >= 0) by (nonlinear_arith)
            requires fuel >= 0 && self.fuel_load_factor >= 0;
        let load = fuel * self.fuel_load_factor / 1000;
        assert(0 <= load <= 1000000000);
        let bt = self.base_rate * self.track_multiplier;
        assert(bt <= 1000000000) by (nonlinear_arith)
            requires
                bt == self.base_rate * self.track_multiplier,
                self.base_rate <= 100000,
                self.track_multiplier <= 10000,
        ;
        assert(bt >= 0) by (nonlinear_arith)
            requires
                bt == self.base_rate * self.track_multiplier,
                self.base_rate >= 0,
                self.track_multiplier >= 0,
        ;
        assert(bt * (1000000 + load) <= 1001000000000000000) by (nonlinear_arith)
            requires 0 <= bt <= 1000000000 && 0 <= load <= 1000000000;
        assert(bt * (1000000 + load) >= bt * 1000000) by (nonlinear_arith)
            requires bt >= 0 && load >= 0;
        assert(bt * (1000000 + load) / 1000000000 <= 1100000000) by (nonlinear_arith)
            requires 0 <= bt * (1000000 + load) <= 1001000000000000000;
        assert(bt * 1000000 / 1000000000 == bt / 1000) by (nonlinear_arith);
        assert(bt * (1000000 + load) / 1000000000 >= bt * 1000000 / 1000000000) by (nonlinear_arith)
            requires bt * (1000000 + load) >= bt * 1000000;
    }

    /// Total fuel burned over the given number of laps, re-evaluating the
    /// consumption each lap as the load falls. A negative running load is
    /// treated as empty when evaluating consumption.
    pub open spec fn spec_fuel_needed(self, laps: nat, current_fuel: int) -> int
        decreases laps,
    {
        if laps == 0 {
            0
        } else {
            let c = self.spec_consumption_per_lap(if current_fuel >= 0 { current_fuel } else { 0 });
            c + self.spec_fuel_needed((laps - 1) as nat, current_fuel - c)
        }
    }

    /// The total burn over `laps` laps is nonnegative and at most
    /// `laps * CONSUMPTION_LIMIT`.
    pub proof fn lemma_fuel_needed_bounds(self, laps: nat, fuel: int)
        requires
            self.wf(),
            fuel <= FUEL_LIMIT,
        ensures
            0 <= self.spec_fuel_needed(laps, fuel) <= laps * CONSUMPTION_LIMIT,
        decreases laps,
    {
        if laps == 0 {
            assert(laps * CONSUMPTION_LIMIT == 0);
        } else {
            let clamped = if fuel >= 0 { fuel } else { 0 };
            self.lemma_consumption_bounds(clamped);
            let c = self.spec_consumption_per_lap(clamped);
            self.lemma_fuel_needed_bounds((laps - 1) as nat, fuel - c);
            assert((laps - 1) as nat * CONSUMPTION_LIMIT + CONSUMPTION_LIMIT
                == laps * CONSUMPTION_LIMIT) by (nonlinear_arith)
                requires laps >= 1;
        }
    }

    /// Cumulative fuel needed for the next `laps` laps, starting from
    /// `starting_fuel` grams on board.
    pub fn fuel_needed_for_laps(&self, laps: u16, starting_fuel: u64) -> (r: u64)
        requires
            self.wf(),
            starting_fuel <= FUEL_LIMIT,
        ensures
            r == self.spec_fuel_needed(laps as nat, starting_fuel as int),
            r <= laps * CONSUMPTION_LIMIT,
    {
        proof {
            self.lemma_fuel_needed_bounds(laps as nat, starting_fuel as int);
        }
        let mut total_fuel: u64 = 0;
        let mut current_fuel: i64 = starting_fuel as i64;
        let mut i: u16 = 0;
        while i < laps
            invariant
                self.wf(),
                0 <= i <= laps,
                starting_fuel <= FUEL_LIMIT,
                current_fuel == starting_fuel - total_fuel,
                total_fuel == self.spec_fuel_needed(laps as nat, starting_fuel as int)
                    - self.spec_fuel_needed((laps - i) as nat, current_fuel as int),
                total_fuel <= i * CONSUMPTION_LIMIT,
            decreases laps - i,
        {
            let clamped: u64 = if current_fuel >= 0 { current_fuel as u64 } else { 0 };
            proof {
                assert(clamped <= FUEL_LIMIT);
                self.lemma_consumption_bounds(clamped as int);
                self.lemma_fuel_needed_bounds((laps - i) as nat, current_fuel as int);
                self.lemma_fuel_needed_bounds((laps - i - 1) as nat,
                    current_fuel - self.spec_consumption_per_lap(clamped as int));
                assert(i * CONSUMPTION_LIMIT + CONSUMPTION_LIMIT == (i + 1) * CONSUMPTION_LIMIT)
                    by (nonlinear_arith);
                assert((i + 1) * CONSUMPTION_LIMIT <= 65535 * CONSUMPTION_LIMIT)
                    by (nonlinear_arith)
                    requires i + 1 <= 65535;
            }
            let consumption = self.consumption_per_lap(clamped);
            total_fuel = total_fuel + consumption;
            current_fuel = current_fuel - consumption as i64;
            i = i + 1;
        }
        proof {
            assert(laps * CONSUMPTION_LIMIT >= i * CONSUMPTION_LIMIT) by (nonlinear_arith)
                requires i <= laps;
        }
        total_fuel
    }

    /// Laps remaining on the current fuel, in thousandths of a lap: zero
    /// below the safety buffer, otherwise usable fuel divided by the
    /// consumption at the midpoint load; `None` when consumption is zero
    /// (no foreseeable limit).
    pub open spec fn spec_laps_remaining(self, current_fuel: int) -> Option<u64> {
        if current_fuel < MIN_FUEL_BUFFER {
            Some(0u64)
        } else {
            let avg = self.spec_consumption_per_lap(current_fuel / 2);
            if avg > 0 {
                Some((((current_fuel - MIN_FUEL_BUFFER) * 1000) / avg) as u64)
            } else {
                None
            }
        }
    }

    /// Laps remaining with the current fuel (thousandths of a lap);
    /// `None` means unlimited (zero consumption).
    pub fn laps_remaining(&self, current_fuel: u64) -> (r: Option<u64>)
        requires
            self.wf(),
            current_fuel <= FUEL_LIMIT,
        ensures
            r == self.spec_laps_remaining(current_fuel as int),
    {
        if current_fuel < MIN_FUEL_BUFFER {
            return Some(0);
        }
        let usable_fuel: u64 = current_fuel - MIN_FUEL_BUFFER;
        let avg_consumption = self.consumption_per_lap(current_fuel / 2);
        if avg_consumption > 0 {
            Some((usable_fuel * 1000) / avg_consumption)
        } else {
            None
        }
    }

    /// Per-lap saving required to finish `remaining_laps` laps: the deficit
    /// between the average-pace burn and the usable fuel, spread over the
    /// remaining laps; `None` when no saving is needed.
    pub open spec fn spec_fuel_saving_needed(self, current_fuel: int, remaining_laps: int) -> Option<u64> {
        let avg = self.spec_consumption_per_lap(current_fuel / 2);
        let total_needed = avg * remaining_laps;
        let available = current_fuel - MIN_FUEL_BUFFER;
        if total_needed > available {
            Some(((total_needed - available) / remaining_laps) as u64)
        } else {
            None
        }
    }

    /// Fuel saving required per lap (grams), or `None` if the race can be
    /// finished at average pace.
    pub fn fuel_saving_needed(&self, current_fuel: u64, remaining_laps: u16) -> (r: Option<u64>)
        requires
            self.wf(),
            current_fuel <= FUEL_LIMIT,
            remaining_laps >= 1,
        ensures
            r == self.spec_fuel_saving_needed(current_fuel as int, remaining_laps as int),
    {
        let avg_consumption = self.consumption_per_lap(current_fuel / 2);
        proof {
            assert(avg_consumption * remaining_laps <= CONSUMPTION_LIMIT * 65535)
                by (nonlinear_arith)
                requires avg_consumption <= CONSUMPTION_LIMIT && remaining_laps <= 65535;
            assert(avg_consumption * remaining_laps >= 0) by (nonlinear_arith)
                requires avg_consumption >= 0 && remaining_laps >= 0;
        }
        let total_needed: i64 = avg_consumption as i64 * remaining_laps as i64;
        let available: i64 = current_fuel as i64 - MIN_FUEL_BUFFER as i64;
        if total_needed > available {
            let deficit_per_lap: i64 = (total_needed - available) / remaining_laps as i64;
            Some(deficit_per_lap as u64)
        } else {
            None
        }
    }
}

/// Engine fuel modes.
#[derive(Debug, Clone, Copy, PartialEq, Eq, Structural)]
pub enum EngineMode {
    FullPower,
    Standard,
    FuelSaving,
    CriticalSaving,
}

/// Law: per-lap consumption is a pure function of the model and the fuel
/// load — any two results obtained for the same inputs are equal.
pub proof fn lemma_consumption_deterministic(m: FuelConsumptionModel, fuel: int, r1: int, r2: int)
    requires
        r1 == m.spec_consumption_per_lap(fuel),
        r2 == m.spec_consumption_per_lap(fuel),
    ensures
        r1 == r2,
{
}

} // verus!
