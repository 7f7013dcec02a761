//! Lap-by-lap race simulation: deterministic replay of a strategy over a
//! circuit under a weather timeline, producing time, fuel, tire and
//! warning traces.
//!
//! Times are in milliseconds, fuel in grams, temperatures in whole
//! degrees Celsius.

use vstd::prelude::*;
use crate::fuel::FuelConsumptionModel;
use crate::fuel::CONSUMPTION_LIMIT;
use crate::fuel::FUEL_LIMIT;
use crate::numeric::isqrt;
use crate::numeric::lemma_sqrt_floor_props;
use crate::numeric::sqrt_floor;
use crate::strategy::PitStop;
use crate::strategy::RaceStrategy;
use crate::strategy::PIT_LOSS_LIMIT;
use crate::tire::TireCharacteristics;
use crate::tire::TireCompound;
use crate::track::Circuit;
use crate::types::LapNumber;
use crate::types::WeatherCondition;
use crate::weather::WeatherForecast;

verus! {

/// Largest value the simulated lap-time model can produce (milliseconds).
pub const SIM_LAP_TIME_LIMIT: i64 = 1000000000;

/// Smallest value the simulated lap-time model can produce (milliseconds).
pub const SIM_LAP_TIME_MIN: i64 = -3000000;

/// Fuel level below which a low-fuel warning is emitted (grams).
pub const LOW_FUEL_THRESHOLD: i64 = 5000;

/// Weather conditions for simulation: an initial state plus an ordered
/// list of (lap, condition, track temperature) change points.
#[derive(Debug, Clone, PartialEq, Eq)]
pub struct WeatherConditions {
    /// Starting weather condition.
    pub initial_condition: WeatherCondition,
    /// Initial track temperature (deg C).
    pub track_temperature: i32,
    /// Initial air temperature (deg C).
    pub air_temperature: i32,
    /// Weather changes during the race: (lap, new condition, new track
    /// temperature).
    pub changes: Vec<(LapNumber, WeatherCondition, i32)>,
}

/// The condition in force at a lap: the latest change at or before it,
/// else the initial condition.
pub open spec fn spec_condition_at(
    initial: WeatherCondition,
    changes: Seq<(LapNumber, WeatherCondition, i32)>,
    lap: u16,
) -> WeatherCondition
    decreases changes.len(),
{
    if changes.len() == 0 {
        initial
    } else if changes.last().0.0 <= lap {
        changes.last().1
    } else {
        spec_condition_at(initial, changes.drop_last(), lap)
    }
}

/// The track temperature in force at a lap.
pub open spec fn spec_track_temp_at(
    initial: i32,
    changes: Seq<(LapNumber, WeatherCondition, i32)>,
    lap: u16,
) -> i32
    decreases changes.len(),
{
    if changes.len() == 0 {
        initial
    } else if changes.last().0.0 <= lap {
        changes.last().2
    } else {
        spec_track_temp_at(initial, changes.drop_last(), lap)
    }
}

impl WeatherConditions {
    /// Temperatures small enough for the lap-time model.
    pub open spec fn wf(self) -> bool {
        &&& -1000000 <= self.track_temperature <= 1000000
        &&& forall|i: int| 0 <= i < self.changes@.len()
                ==> -1000000 <= (#[trigger] self.changes@[i]).2 <= 1000000
    }

    /// Build simulation weather from a forecast: its overall condition and
    /// temperatures, with no change points.
    pub fn from_forecast(forecast: &WeatherForecast) -> (r: WeatherConditions)
        ensures
            r.initial_condition == forecast.overall_condition,
            r.track_temperature == forecast.track_temperature,
            r.air_temperature == forecast.air_temperature,
            r.changes@.len() == 0,
    {
        WeatherConditions {
            initial_condition: forecast.overall_condition,
            track_temperature: forecast.track_temperature,
            air_temperature: forecast.air_temperature,
            changes: Vec::new(),
        }
    }

    /// Weather condition for a specific lap.
    pub fn condition_at_lap(&self, lap: LapNumber) -> (r: WeatherCondition)
        ensures
            r == spec_condition_at(self.initial_condition, self.changes@, lap.0),
    {
        let mut i: usize = self.changes.len();
        proof {
            assert(self.changes@.take(i as int) =~= self.changes@);
        }
        while i > 0
            invariant
                0 <= i <= self.changes@.len(),
                spec_condition_at(self.initial_condition, self.changes@, lap.0)
                    == spec_condition_at(self.initial_condition,
                        self.changes@.take(i as int), lap.0),
            decreases i,
        {
            proof {
                assert(self.changes@.take(i as int).drop_last() =~= self.changes@.take(i - 1));
                assert(self.changes@.take(i as int).last() == self.changes@[i - 1]);
            }
            if self.changes[i - 1].0.0 <= lap.0 {
                return self.changes[i - 1].1;
            }
            i = i - 1;
        }
        proof {
            assert(self.changes@.take(0) =~= Seq::<(LapNumber, WeatherCondition, i32)>::empty());
        }
        self.initial_condition
    }

    /// Track temperature for a specific lap (deg C).
    pub fn track_temp_at_lap(&self, lap: LapNumber) -> (r: i32)
        ensures
            r == spec_track_temp_at(self.track_temperature, self.changes@, lap.0),
    {
        let mut i: usize = self.changes.len();
        proof {
            assert(self.changes@.take(i as int) =~= self.changes@);
        }
        while i > 0
            invariant
                0 <= i <= self.changes@.len(),
                spec_track_temp_at(self.track_temperature, self.changes@, lap.0)
                    == spec_track_temp_at(self.track_temperature,
                        self.changes@.take(i as int), lap.0),
            decreases i,
        {
            proof {
                assert(self.changes@.take(i as int).drop_last() =~= self.changes@.take(i - 1));
                assert(self.changes@.take(i as int).last() == self.changes@[i - 1]);
            }
            if self.changes[i - 1].0.0 <= lap.0 {
                return self.changes[i - 1].2;
            }
            i = i - 1;
        }
        proof {
            assert(self.changes@.take(0) =~= Seq::<(LapNumber, WeatherCondition, i32)>::empty());
        }
        self.track_temperature
    }
}

/// The temperature in force stays within the well-formedness bounds.
pub proof fn lemma_track_temp_at_bounds(
    initial: i32,
    changes: Seq<(LapNumber, WeatherCondition, i32)>,
    lap: u16,
)
    requires
        -1000000 <= initial <= 1000000,
        forall|i: int| 0 <= i < changes.len()
            ==> -1000000 <= (#[trigger] changes[i]).2 <= 1000000,
    ensures
        -1000000 <= spec_track_temp_at(initial, changes, lap) <= 1000000,
    decreases changes.len(),
{
    if changes.len() > 0 {
        assert(changes.last() == changes[changes.len() - 1]);
        lemma_track_temp_at_bounds(initial, changes.drop_last(), lap);
    }
}

/// Pit stop event in a simulation.
#[derive(Debug, Clone, Copy, PartialEq, Eq, Structural)]
pub struct PitStopEvent {
    /// Lap on which the stop occurred.
    pub lap: LapNumber,
    /// Compound taken off the car.
    pub old_compound: TireCompound,
    /// Compound fitted.
    pub new_compound: TireCompound,
    /// Stop duration (milliseconds).
    pub duration: u64,
    /// Tire age at the moment of the stop (laps).
    pub tire_age: u16,
    /// Fuel remaining at the moment of the stop (grams).
    pub fuel_remaining: i64,
}

/// A strategy-violation or hazard noted during simulation.
#[derive(Debug, Clone, Copy, PartialEq, Eq, Structural)]
pub enum SimulationWarning {
    /// Fuel fell below the low-fuel threshold on this lap.
    LowFuel { lap: LapNumber, fuel_remaining: i64 },
    /// The projected burn for the remaining laps exceeds the fuel on board.
    InsufficientFuel { lap: LapNumber, fuel_needed: i64, fuel_remaining: i64 },
    /// The tires have run past their typical life.
    TireAgeExceeded { lap: LapNumber, tire_age: u16, compound: TireCompound, typical_life: u16 },
    /// The fitted compound does not suit the weather.
    WrongTireForWeather { lap: LapNumber, compound: TireCompound, condition: WeatherCondition },
    /// The car ran out of fuel before the end of the race.
    OutOfFuel,
    /// No pit stop was executed over the whole race.
    NoPitStops,
}

impl SimulationWarning {
    /// Human-readable description of the warning.
    pub fn message(&self) -> (r: String)
        ensures
            self is LowFuel ==> r@ == "Low fuel warning"@,
            self is InsufficientFuel ==> r@ == "Fuel insufficient for remaining laps"@,
            self is TireAgeExceeded ==> r@ == "Tire age exceeded typical life"@,
            self is WrongTireForWeather ==> r@ == "Wrong tire compound for weather conditions"@,
            self is OutOfFuel ==> r@ == "Strategy failed: ran out of fuel before race end"@,
            self is NoPitStops
                ==> r@ == "Strategy invalid: no pit stops executed (FIA regulation violation)"@,
    {
        match self {
            SimulationWarning::LowFuel { .. } => "Low fuel warning".to_owned(),
            SimulationWarning::InsufficientFuel { .. } =>
                "Fuel insufficient for remaining laps".to_owned(),
            SimulationWarning::TireAgeExceeded { .. } =>
                "Tire age exceeded typical life".to_owned(),
            SimulationWarning::WrongTireForWeather { .. } =>
                "Wrong tire compound for weather conditions".to_owned(),
            SimulationWarning::OutOfFuel =>
                "Strategy failed: ran out of fuel before race end".to_owned(),
            SimulationWarning::NoPitStops =>
                "Strategy invalid: no pit stops executed (FIA regulation violation)".to_owned(),
        }
    }
}

/// Complete simulation result.
#[derive(Debug, Clone)]
pub struct SimulationResult {
    /// Total race time (milliseconds).
    pub total_time: i64,
    /// Lap times for each lap (milliseconds).
    pub lap_times: Vec<i64>,
    /// Pit stop events that occurred.
    pub pit_stops: Vec<PitStopEvent>,
    /// Tire compound history: (lap fitted, compound).
    pub tire_history: Vec<(LapNumber, TireCompound)>,
    /// Fuel remaining at the end of each lap (grams).
    pub fuel_history: Vec<i64>,
    /// Simulation warnings.
    pub warnings: Vec<SimulationWarning>,
    /// Estimated final position, when competitor simulation is available.
    pub estimated_position: Option<u8>,
    /// Average lap time (milliseconds).
    pub average_lap_time: i64,
    /// Fastest lap time (milliseconds).
    pub fastest_lap: i64,
    /// Slowest lap time (milliseconds).
    pub slowest_lap: i64,
}

/// Race simulator for lap-by-lap prediction.
#[derive(Debug, Clone)]
pub struct RaceSimulator {
    /// Circuit being raced on.
    pub circuit: Circuit,
    /// Race strategy to simulate.
    pub strategy: RaceStrategy,
    /// Fuel consumption model.
    pub fuel_model: FuelConsumptionModel,
    /// Weather conditions (initial and forecasted changes).
    pub weather: WeatherConditions,
}

/// Whether some stop of the plan is scheduled on the lap.
pub open spec fn spec_has_stop_at(stops: Seq<PitStop>, lap: u16) -> bool {
    exists|i: int| 0 <= i < stops.len() && (#[trigger] stops[i]).lap.0 == lap
}

/// The stop scheduled on the lap (unique for a well-formed strategy).
pub open spec fn spec_stop_at(stops: Seq<PitStop>, lap: u16) -> PitStop {
    stops[choose|i: int| 0 <= i < stops.len() && (#[trigger] stops[i]).lap.0 == lap]
}

/// Penalty for running outside the compound's temperature window:
/// 0.05 s per degree too cold, 0.08 s per degree too hot.
pub open spec fn spec_temperature_penalty(track_temp: int, chars: TireCharacteristics) -> int {
    if chars.optimal_temp_min <= track_temp && track_temp <= chars.optimal_temp_max {
        0
    } else if track_temp < chars.optimal_temp_min {
        (chars.optimal_temp_min - track_temp) * 50
    } else {
        (track_temp - chars.optimal_temp_max) * 80
    }
}

/// Penalty table for the weather/compound pairing (milliseconds).
pub open spec fn spec_weather_penalty(weather: WeatherCondition, compound: TireCompound) -> int {
    let dry_compound = !compound.spec_is_wet_weather();
    if weather == WeatherCondition::Dry && dry_compound {
        0
    } else if weather == WeatherCondition::Cloudy && dry_compound {
        0
    } else if weather == WeatherCondition::PartlyCloudy && dry_compound {
        0
    } else if weather == WeatherCondition::LightRain && compound == TireCompound::Intermediate {
        0
    } else if weather == WeatherCondition::HeavyRain && compound == TireCompound::Wet {
        0
    } else if weather == WeatherCondition::LightRain && dry_compound {
        5000
    } else if weather == WeatherCondition::HeavyRain && dry_compound {
        15000
    } else if weather == WeatherCondition::HeavyRain && compound == TireCompound::Intermediate {
        3000
    } else if weather == WeatherCondition::Dry && compound == TireCompound::Intermediate {
        2500
    } else if weather == WeatherCondition::Dry && compound == TireCompound::Wet {
        5000
    } else if weather == WeatherCondition::Cloudy && compound == TireCompound::Wet {
        4000
    } else {
        1000
    }
}

/// Whether the compound is inappropriate for the weather: dry tires in any
/// rain, or intermediates in heavy rain.
pub open spec fn spec_wrong_tire_for_weather(
    compound: TireCompound,
    weather: WeatherCondition,
) -> bool {
    ||| (weather == WeatherCondition::LightRain && !compound.spec_is_wet_weather())
    ||| (weather == WeatherCondition::HeavyRain && !compound.spec_is_wet_weather())
    ||| (weather == WeatherCondition::HeavyRain && compound == TireCompound::Intermediate)
}

/// Simulated lap time: race-pace base plus a non-linear tire wear term
/// (`wear_ratio^1.5 * 1.5 s`), a fuel weight penalty, temperature and
/// weather penalties, a circuit-severity wear term, minus a grip bonus.
/// An exhausted tank adds no weight penalty.
pub open spec fn spec_sim_lap_time(
    sim: RaceSimulator,
    lap: u16,
    compound: TireCompound,
    tire_age: int,
    fuel: int,
) -> int {
    let chars = TireCharacteristics::spec_for_compound(compound);
    let base_time = sim.circuit.lap_record * 103 / 100;
    let wear_ratio_milli = tire_age * 1000 / chars.typical_life as int;
    let degradation_penalty = 1500 * wear_ratio_milli * sqrt_floor(wear_ratio_milli) / 31623;
    let fuel_clamped = if fuel >= 0 { fuel } else { 0 };
    let fuel_penalty = fuel_clamped * 350 / 110000;
    let track_temp = spec_track_temp_at(sim.weather.track_temperature, sim.weather.changes@, lap);
    let temp_penalty = spec_temperature_penalty(track_temp as int, chars);
    let weather = spec_condition_at(sim.weather.initial_condition, sim.weather.changes@, lap);
    let weather_penalty = spec_weather_penalty(weather, compound);
    let grip_bonus = (chars.grip_level - 75) * 8;
    let severity = sim.circuit.characteristics.tire_severity as int;
    let track_deg_penalty = if severity >= 1000 {
        (severity - 1000) * wear_ratio_milli / 2000
    } else {
        -((1000 - severity) * wear_ratio_milli / 2000)
    };
    base_time + degradation_penalty + fuel_penalty + temp_penalty + weather_penalty
        + track_deg_penalty - grip_bonus
}

/// The simulator state upon completing a lap (lap 0 is the grid).
pub ghost struct SimState {
    /// Fuel on board (grams); negative when the tank has run dry.
    pub fuel: int,
    /// Tire age after any stop on the lap (laps).
    pub tire_age: int,
    /// Compound on the car after any stop on the lap.
    pub compound: TireCompound,
    /// Accumulated race time, pit losses included (milliseconds).
    pub total_time: int,
}

/// State recurrence of the simulation: each lap ages the tires, charges
/// the lap time, burns fuel, and executes any scheduled stop.
pub open spec fn spec_sim_state(sim: RaceSimulator, lap: nat) -> SimState
    decreases lap,
{
    if lap == 0 {
        SimState {
            fuel: sim.strategy.fuel_strategy.starting_fuel as int,
            tire_age: 0,
            compound: sim.strategy.starting_compound,
            total_time: 0,
        }
    } else {
        let prev = spec_sim_state(sim, (lap - 1) as nat);
        let age = prev.tire_age + 1;
        let lap_time = spec_sim_lap_time(sim, lap as u16, prev.compound, age, prev.fuel);
        let consumed = sim.fuel_model.spec_consumption_per_lap(
            if prev.fuel >= 0 { prev.fuel } else { 0 });
        let fuel_after = prev.fuel - consumed;
        if spec_has_stop_at(sim.strategy.pit_stops@, lap as u16) {
            let ps = spec_stop_at(sim.strategy.pit_stops@, lap as u16);
            SimState {
                fuel: fuel_after,
                tire_age: 0,
                compound: ps.compound,
                total_time: prev.total_time + lap_time + ps.pit_loss,
            }
        } else {
            SimState {
                fuel: fuel_after,
                tire_age: age,
                compound: prev.compound,
                total_time: prev.total_time + lap_time,
            }
        }
    }
}

impl RaceSimulator {
    /// Inputs small enough for the simulation to evaluate exactly.
    pub open spec fn wf(self) -> bool {
        &&& self.circuit.wf()
        &&& self.fuel_model.wf()
        &&& self.strategy.wf()
        &&& self.strategy.fuel_strategy.starting_fuel <= FUEL_LIMIT
        &&& self.weather.wf()
    }

    /// Create a new race simulator.
    pub fn new(
        circuit: Circuit,
        strategy: RaceStrategy,
        fuel_model: FuelConsumptionModel,
        weather: WeatherConditions,
    ) -> (r: RaceSimulator)
        ensures
            r.circuit == circuit,
            r.strategy == strategy,
            r.fuel_model == fuel_model,
            r.weather == weather,
    {
        RaceSimulator { circuit, strategy, fuel_model, weather }
    }
}

/// The lap traces of the simulation, as sequences.
pub open spec fn spec_lap_times(sim: RaceSimulator, lap: nat) -> Seq<i64>
    decreases lap,
{
    if lap == 0 {
        Seq::empty()
    } else {
        let prev = spec_sim_state(sim, (lap - 1) as nat);
        spec_lap_times(sim, (lap - 1) as nat).push(
            spec_sim_lap_time(sim, lap as u16, prev.compound, prev.tire_age + 1,
                prev.fuel) as i64)
    }
}

/// Fuel remaining at the end of each lap (grams).
pub open spec fn spec_fuel_trace(sim: RaceSimulator, lap: nat) -> Seq<i64>
    decreases lap,
{
    if lap == 0 {
        Seq::empty()
    } else {
        spec_fuel_trace(sim, (lap - 1) as nat).push(spec_sim_state(sim, lap).fuel as i64)
    }
}

/// Pit stop events up to a lap.
pub open spec fn spec_pit_events(sim: RaceSimulator, lap: nat) -> Seq<PitStopEvent>
    decreases lap,
{
    if lap == 0 {
        Seq::empty()
    } else {
        let rest = spec_pit_events(sim, (lap - 1) as nat);
        if spec_has_stop_at(sim.strategy.pit_stops@, lap as u16) {
            let prev = spec_sim_state(sim, (lap - 1) as nat);
            let cur = spec_sim_state(sim, lap);
            let ps = spec_stop_at(sim.strategy.pit_stops@, lap as u16);
            rest.push(PitStopEvent {
                lap: LapNumber(lap as u16),
                old_compound: prev.compound,
                new_compound: ps.compound,
                duration: ps.pit_loss,
                tire_age: (prev.tire_age + 1) as u16,
                fuel_remaining: cur.fuel as i64,
            })
        } else {
            rest
        }
    }
}

/// Tire compound history up to a lap: the starting set plus each change.
pub open spec fn spec_tire_history(sim: RaceSimulator, lap: nat) -> Seq<(LapNumber, TireCompound)>
    decreases lap,
{
    if lap == 0 {
        Seq::empty().push((LapNumber(1u16), sim.strategy.starting_compound))
    } else {
        let rest = spec_tire_history(sim, (lap - 1) as nat);
        if spec_has_stop_at(sim.strategy.pit_stops@, lap as u16) {
            let ps = spec_stop_at(sim.strategy.pit_stops@, lap as u16);
            rest.push((LapNumber(lap as u16), ps.compound))
        } else {
            rest
        }
    }
}

/// The warnings a single lap emits, in emission order.
pub open spec fn spec_lap_warnings(sim: RaceSimulator, lap: nat) -> Seq<SimulationWarning> {
    let n = sim.circuit.typical_race_laps;
    let prev = spec_sim_state(sim, (lap - 1) as nat);
    let cur = spec_sim_state(sim, lap);
    let w0 = Seq::<SimulationWarning>::empty();
    let w1 = if cur.fuel < LOW_FUEL_THRESHOLD {
        w0.push(SimulationWarning::LowFuel {
            lap: LapNumber(lap as u16),
            fuel_remaining: cur.fuel as i64,
        })
    } else {
        w0
    };
    let needed = sim.fuel_model.spec_fuel_needed((n - lap) as nat,
        if cur.fuel >= 0 { cur.fuel } else { 0 });
    let w2 = if lap < n && needed > cur.fuel {
        w1.push(SimulationWarning::InsufficientFuel {
            lap: LapNumber(lap as u16),
            fuel_needed: needed as i64,
            fuel_remaining: cur.fuel as i64,
        })
    } else {
        w1
    };
    let chars = TireCharacteristics::spec_for_compound(cur.compound);
    let w3 = if cur.tire_age > chars.typical_life {
        w2.push(SimulationWarning::TireAgeExceeded {
            lap: LapNumber(lap as u16),
            tire_age: cur.tire_age as u16,
            compound: cur.compound,
            typical_life: chars.typical_life,
        })
    } else {
        w2
    };
    let weather = spec_condition_at(sim.weather.initial_condition, sim.weather.changes@,
        lap as u16);
    if spec_wrong_tire_for_weather(cur.compound, weather) {
        w3.push(SimulationWarning::WrongTireForWeather {
            lap: LapNumber(lap as u16),
            compound: cur.compound,
            condition: weather,
        })
    } else {
        w3
    }
}

/// All warnings emitted through a lap.
pub open spec fn spec_warnings_upto(sim: RaceSimulator, lap: nat) -> Seq<SimulationWarning>
    decreases lap,
{
    if lap == 0 {
        Seq::empty()
    } else {
        spec_warnings_upto(sim, (lap - 1) as nat) + spec_lap_warnings(sim, lap)
    }
}

/// The full warning list of a simulation: the per-lap warnings, then an
/// out-of-fuel verdict, then the zero-stop regulation violation.
pub open spec fn spec_all_warnings(sim: RaceSimulator) -> Seq<SimulationWarning> {
    let n = sim.circuit.typical_race_laps as nat;
    let base = spec_warnings_upto(sim, n);
    let with_fuel = if spec_sim_state(sim, n).fuel < 0 {
        base.push(SimulationWarning::OutOfFuel)
    } else {
        base
    };
    if spec_pit_events(sim, n).len() == 0 {
        with_fuel.push(SimulationWarning::NoPitStops)
    } else {
        with_fuel
    }
}

/// Sum of a sequence of lap times.
pub open spec fn spec_time_sum(times: Seq<i64>) -> int
    decreases times.len(),
{
    if times.len() == 0 {
        0
    } else {
        spec_time_sum(times.drop_last()) + times.last()
    }
}

/// Minimum of a sequence of lap times, starting from `i64::MAX`.
pub open spec fn spec_time_min(times: Seq<i64>) -> i64
    decreases times.len(),
{
    if times.len() == 0 {
        0x7fffffffffffffffi64
    } else {
        let rest = spec_time_min(times.drop_last());
        if times.last() < rest {
            times.last()
        } else {
            rest
        }
    }
}

/// Maximum of a sequence of lap times, starting from `i64::MIN`.
pub open spec fn spec_time_max(times: Seq<i64>) -> i64
    decreases times.len(),
{
    if times.len() == 0 {
        -0x8000000000000000i64
    } else {
        let rest = spec_time_max(times.drop_last());
        if times.last() > rest {
            times.last()
        } else {
            rest
        }
    }
}

/// The mean lap time: the sum over the count, truncated toward zero, and
/// zero for an empty race.
pub open spec fn spec_average_lap_time(times: Seq<i64>) -> int {
    if times.len() == 0 {
        0
    } else if spec_time_sum(times) >= 0 {
        spec_time_sum(times) / times.len() as int
    } else {
        -((-spec_time_sum(times)) / times.len() as int)
    }
}

/// Bounds of the simulated lap-time model.
pub proof fn lemma_sim_lap_time_bounds(
    sim: RaceSimulator,
    lap: u16,
    compound: TireCompound,
    tire_age: int,
    fuel: int,
)
    requires
        sim.wf(),
        0 <= tire_age <= 65535,
        fuel <= FUEL_LIMIT,
    ensures
        SIM_LAP_TIME_MIN <= spec_sim_lap_time(sim, lap, compound, tire_age, fuel)
            <= SIM_LAP_TIME_LIMIT,
{
    let chars = TireCharacteristics::spec_for_compound(compound);
    assert(15 <= chars.typical_life <= 40);
    assert(65 <= chars.grip_level <= 95);
    assert(60 <= chars.optimal_temp_min <= 95);
    assert(80 <= chars.optimal_temp_max <= 115);
    let base_time = sim.circuit.lap_record * 103 / 100;
    assert(0 <= base_time <= 10300000) by (nonlinear_arith)
        requires 0 <= sim.circuit.lap_record <= 10000000
            && base_time == sim.circuit.lap_record * 103 / 100;
    let wr = tire_age * 1000 / chars.typical_life as int;
    assert(0 <= wr <= 4369000) by (nonlinear_arith)
        requires 0 <= tire_age <= 65535 && 15 <= chars.typical_life <= 40
            && wr == tire_age * 1000 / chars.typical_life as int;
    lemma_sqrt_floor_props(wr);
    let s = sqrt_floor(wr);
    assert(s <= 2090) by (nonlinear_arith)
        requires s * s <= 4369000 && s >= 0;
    let deg = 1500 * wr * s / 31623;
    assert(0 <= 1500 * wr <= 6553500000) by (nonlinear_arith)
        requires 0 <= wr <= 4369000;
    assert(0 <= 1500 * wr * s <= 13696815000000) by (nonlinear_arith)
        requires 0 <= 1500 * wr <= 6553500000 && 0 <= s <= 2090;
    assert(0 <= deg <= 433130000) by (nonlinear_arith)
        requires 0 <= 1500 * wr * s <= 13696815000000
            && deg == 1500 * wr * s / 31623;
    let fuel_clamped = if fuel >= 0 { fuel } else { 0 };
    let fuel_penalty = fuel_clamped * 350 / 110000;
    assert(0 <= fuel_clamped * 350 <= 35000000000) by (nonlinear_arith)
        requires 0 <= fuel_clamped <= 100000000;
    assert(0 <= fuel_penalty <= 318182) by (nonlinear_arith)
        requires 0 <= fuel_clamped * 350 <= 35000000000
            && fuel_penalty == fuel_clamped * 350 / 110000;
    lemma_track_temp_at_bounds(sim.weather.track_temperature, sim.weather.changes@, lap);
    let t = spec_track_temp_at(sim.weather.track_temperature, sim.weather.changes@, lap) as int;
    let temp_penalty = spec_temperature_penalty(t, chars);
    assert(0 <= temp_penalty <= 81000000);
    let weather = spec_condition_at(sim.weather.initial_condition, sim.weather.changes@, lap);
    assert(0 <= spec_weather_penalty(weather, compound) <= 15000);
    let severity = sim.circuit.characteristics.tire_severity as int;
    if severity >= 1000 {
        assert(0 <= (severity - 1000) * wr <= 432531000000) by (nonlinear_arith)
            requires 0 <= severity - 1000 <= 99000 && 0 <= wr <= 4369000;
        assert(0 <= (severity - 1000) * wr / 2000 <= 216265500) by (nonlinear_arith)
            requires 0 <= (severity - 1000) * wr <= 432531000000;
    } else {
        assert(0 <= (1000 - severity) * wr <= 4369000000) by (nonlinear_arith)
            requires 0 <= 1000 - severity <= 1000 && 0 <= wr <= 4369000;
        assert(0 <= (1000 - severity) * wr / 2000 <= 2184500) by (nonlinear_arith)
            requires 0 <= (1000 - severity) * wr <= 4369000000;
    }
    assert(-200 <= (chars.grip_level - 75) * 8 <= 160);
}

/// Law: for a fixed lap, compound, and fuel load, the simulated lap time
/// never falls as the tire ages, on any circuit at least as severe on
/// tires as the average (severity 1.0). On a gentler circuit the
/// severity bonus can outgrow the wear term at very small wear ratios,
/// so the claim is restricted to severity at least 1000.
pub proof fn lemma_sim_lap_time_monotone_in_tire_age(
    sim: RaceSimulator,
    lap: u16,
    compound: TireCompound,
    age1: int,
    age2: int,
    fuel: int,
)
    requires
        sim.wf(),
        sim.circuit.characteristics.tire_severity >= 1000,
        0 <= age1 <= age2,
    ensures
        spec_sim_lap_time(sim, lap, compound, age1, fuel)
            <= spec_sim_lap_time(sim, lap, compound, age2, fuel),
{
    let chars = TireCharacteristics::spec_for_compound(compound);
    assert(15 <= chars.typical_life <= 40);
    let life = chars.typical_life as int;
    let wr1 = age1 * 1000 / life;
    let wr2 = age2 * 1000 / life;
    assert(age1 * 1000 <= age2 * 1000) by (nonlinear_arith)
        requires age1 <= age2;
    vstd::arithmetic::div_mod::lemma_div_is_ordered(age1 * 1000, age2 * 1000, life);
    assert(age1 * 1000 >= 0) by (nonlinear_arith)
        requires age1 >= 0;
    vstd::arithmetic::div_mod::lemma_div_is_ordered(0, age1 * 1000, life);
    assert(0 <= wr1 <= wr2);
    crate::numeric::lemma_sqrt_floor_monotone(wr1, wr2);
    lemma_sqrt_floor_props(wr1);
    lemma_sqrt_floor_props(wr2);
    assert(1500 * wr1 * sqrt_floor(wr1) <= 1500 * wr2 * sqrt_floor(wr2)) by (nonlinear_arith)
        requires 0 <= wr1 <= wr2 && 0 <= sqrt_floor(wr1) <= sqrt_floor(wr2);
    vstd::arithmetic::div_mod::lemma_div_is_ordered(1500 * wr1 * sqrt_floor(wr1),
        1500 * wr2 * sqrt_floor(wr2), 31623);
    let severity = sim.circuit.characteristics.tire_severity as int;
    assert((severity - 1000) * wr1 <= (severity - 1000) * wr2) by (nonlinear_arith)
        requires severity >= 1000 && 0 <= wr1 <= wr2;
    vstd::arithmetic::div_mod::lemma_div_is_ordered((severity - 1000) * wr1,
        (severity - 1000) * wr2, 2000);
}

/// Bounds of the running simulation state.
pub proof fn lemma_sim_state_bounds(sim: RaceSimulator, lap: nat)
    requires
        sim.wf(),
        lap <= 65535,
    ensures
        spec_sim_state(sim, lap).fuel <= sim.strategy.fuel_strategy.starting_fuel,
        spec_sim_state(sim, lap).fuel
            >= sim.strategy.fuel_strategy.starting_fuel - lap * CONSUMPTION_LIMIT,
        0 <= spec_sim_state(sim, lap).tire_age <= lap,
        lap * SIM_LAP_TIME_MIN <= spec_sim_state(sim, lap).total_time
            <= lap * (SIM_LAP_TIME_LIMIT + PIT_LOSS_LIMIT),
    decreases lap,
{
    if lap == 0 {
        assert(lap * CONSUMPTION_LIMIT == 0);
        assert(lap * SIM_LAP_TIME_MIN == 0);
        assert(lap * (SIM_LAP_TIME_LIMIT + PIT_LOSS_LIMIT) == 0);
    } else {
        lemma_sim_state_bounds(sim, (lap - 1) as nat);
        let prev = spec_sim_state(sim, (lap - 1) as nat);
        let clamped = if prev.fuel >= 0 { prev.fuel } else { 0 };
        assert(clamped <= FUEL_LIMIT);
        sim.fuel_model.lemma_consumption_bounds(clamped);
        lemma_sim_lap_time_bounds(sim, lap as u16, prev.compound, prev.tire_age + 1, prev.fuel);
        if spec_has_stop_at(sim.strategy.pit_stops@, lap as u16) {
            let i = choose|i: int| 0 <= i < sim.strategy.pit_stops@.len()
                && (#[trigger] sim.strategy.pit_stops@[i]).lap.0 == lap as u16;
            assert(sim.strategy.pit_stops@[i].pit_loss <= PIT_LOSS_LIMIT);
        }
        assert((lap - 1) * CONSUMPTION_LIMIT + CONSUMPTION_LIMIT == lap * CONSUMPTION_LIMIT)
            by (nonlinear_arith)
            requires lap >= 1;
        assert((lap - 1) * SIM_LAP_TIME_MIN + SIM_LAP_TIME_MIN == lap * SIM_LAP_TIME_MIN)
            by (nonlinear_arith)
            requires lap >= 1;
        assert((lap - 1) * (SIM_LAP_TIME_LIMIT + PIT_LOSS_LIMIT)
            + (SIM_LAP_TIME_LIMIT + PIT_LOSS_LIMIT)
            == lap * (SIM_LAP_TIME_LIMIT + PIT_LOSS_LIMIT)) by (nonlinear_arith)
            requires lap >= 1;
    }
}

/// Law: over a full simulation of a model that burns fuel on every lap
/// (base rate times track multiplier of at least one gram per lap), the
/// fuel trace is strictly decreasing, and starts below the starting load.
/// A model with a zero base rate (or zero track multiplier) burns nothing
/// and leaves the trace flat.
pub proof fn lemma_fuel_trace_strictly_decreasing(sim: RaceSimulator, laps: nat)
    requires
        sim.wf(),
        sim.fuel_model.base_rate * sim.fuel_model.track_multiplier >= 1000,
        laps <= 65535,
    ensures
        ({
            let trace = spec_fuel_trace(sim, laps);
            &&& forall|i: int| 0 < i < trace.len() ==> #[trigger] trace[i] < trace[i - 1]
            &&& trace.len() > 0
                    ==> trace[0] < sim.strategy.fuel_strategy.starting_fuel
        }),
{
    lemma_fuel_trace_shape(sim, laps);
    let trace = spec_fuel_trace(sim, laps);
    assert forall|i: int| 0 < i < trace.len() implies #[trigger] trace[i] < trace[i - 1] by {
        lemma_sim_fuel_strict_step(sim, (i + 1) as nat);
        lemma_state_fuel_in_i64(sim, i as nat);
        lemma_state_fuel_in_i64(sim, (i + 1) as nat);
    }
    if trace.len() > 0 {
        lemma_sim_fuel_strict_step(sim, 1);
        lemma_state_fuel_in_i64(sim, 1);
    }
}

/// Each lap burns at least one gram under a fuel-burning model.
proof fn lemma_sim_fuel_strict_step(sim: RaceSimulator, lap: nat)
    requires
        sim.wf(),
        sim.fuel_model.base_rate * sim.fuel_model.track_multiplier >= 1000,
        1 <= lap <= 65535,
    ensures
        spec_sim_state(sim, lap).fuel < spec_sim_state(sim, (lap - 1) as nat).fuel,
{
    lemma_sim_state_bounds(sim, (lap - 1) as nat);
    let prev = spec_sim_state(sim, (lap - 1) as nat);
    let clamped = if prev.fuel >= 0 { prev.fuel } else { 0 };
    sim.fuel_model.lemma_consumption_bounds(clamped);
    assert(sim.fuel_model.base_rate * sim.fuel_model.track_multiplier / 1000 >= 1)
        by (nonlinear_arith)
        requires sim.fuel_model.base_rate * sim.fuel_model.track_multiplier >= 1000;
}

/// The fuel in play always fits a 64-bit signed integer.
proof fn lemma_state_fuel_in_i64(sim: RaceSimulator, lap: nat)
    requires
        sim.wf(),
        lap <= 65535,
    ensures
        -100000000000000 <= spec_sim_state(sim, lap).fuel <= FUEL_LIMIT,
{
    lemma_sim_state_bounds(sim, lap);
    assert(lap * CONSUMPTION_LIMIT <= 65535 * CONSUMPTION_LIMIT) by (nonlinear_arith)
        requires lap <= 65535;
}

/// The fuel trace records the post-lap fuel states, in lap order.
proof fn lemma_fuel_trace_shape(sim: RaceSimulator, laps: nat)
    ensures
        spec_fuel_trace(sim, laps).len() == laps,
        forall|i: int| 0 <= i < laps
            ==> #[trigger] spec_fuel_trace(sim, laps)[i]
                == spec_sim_state(sim, (i + 1) as nat).fuel as i64,
    decreases laps,
{
    if laps > 0 {
        lemma_fuel_trace_shape(sim, (laps - 1) as nat);
    }
}

impl RaceSimulator {
    /// Simulated lap time (milliseconds) for the given lap, compound, tire
    /// age, and fuel on board.
    fn calculate_lap_time(
        &self,
        lap: LapNumber,
        compound: TireCompound,
        tire_age: u16,
        current_fuel: i64,
    ) -> (r: i64)
        requires
            self.wf(),
            current_fuel <= FUEL_LIMIT,
        ensures
            r == spec_sim_lap_time(*self, lap.0, compound, tire_age as int, current_fuel as int),
            SIM_LAP_TIME_MIN <= r <= SIM_LAP_TIME_LIMIT,
    {
        proof {
            lemma_sim_lap_time_bounds(*self, lap.0, compound, tire_age as int,
                current_fuel as int);
        }
        let tire_chars = TireCharacteristics::for_compound(compound);
        let base_time: u64 = self.circuit.lap_record * 103 / 100;
        let wear_ratio_milli: u64 = tire_age as u64 * 1000 / tire_chars.typical_life as u64;
        proof {
            assert(0 <= tire_age as int * 1000 / tire_chars.typical_life as int <= 4369000)
                by (nonlinear_arith)
                requires 0 <= tire_age <= 65535 && 15 <= tire_chars.typical_life <= 40;
        }
        let root = isqrt(wear_ratio_milli);
        proof {
            lemma_sqrt_floor_props(wear_ratio_milli as int);
            assert(root <= 2090) by (nonlinear_arith)
                requires root * root <= 4369000 && root >= 0;
            assert(1500 * wear_ratio_milli * root <= 13696815000000) by (nonlinear_arith)
                requires 0 <= wear_ratio_milli <= 4369000 && 0 <= root <= 2090;
        }
        let degradation_penalty: u64 = 1500 * wear_ratio_milli * root / 31623;
        let fuel_clamped: u64 = if current_fuel >= 0 { current_fuel as u64 } else { 0 };
        proof {
            assert(fuel_clamped * 350 <= 35000000000) by (nonlinear_arith)
                requires fuel_clamped <= 100000000;
        }
        let fuel_penalty: u64 = fuel_clamped * 350 / 110000;
        let track_temp: i32 = self.weather.track_temp_at_lap(lap);
        proof {
            lemma_track_temp_at_bounds(self.weather.track_temperature, self.weather.changes@,
                lap.0);
        }
        let temp_penalty: i64 = self.calculate_temperature_penalty(track_temp, &tire_chars);
        let weather = self.weather.condition_at_lap(lap);
        let weather_penalty: i64 = self.calculate_weather_penalty(weather, compound);
        let grip_bonus: i64 = (tire_chars.grip_level as i64 - 75) * 8;
        let severity: i64 = self.circuit.characteristics.tire_severity as i64;
        let track_deg_penalty: i64 = if severity >= 1000 {
            proof {
                assert((severity - 1000) * wear_ratio_milli <= 432531000000)
                    by (nonlinear_arith)
                    requires 0 <= severity - 1000 <= 99000 && wear_ratio_milli <= 4369000;
                assert((severity - 1000) * wear_ratio_milli >= 0) by (nonlinear_arith)
                    requires severity - 1000 >= 0 && wear_ratio_milli >= 0;
            }
            (((severity - 1000) as u64 * wear_ratio_milli) / 2000) as i64
        } else {
            proof {
                assert((1000 - severity) * wear_ratio_milli <= 4369000000)
                    by (nonlinear_arith)
                    requires 0 <= 1000 - severity <= 1000 && wear_ratio_milli <= 4369000;
                assert((1000 - severity) * wear_ratio_milli >= 0) by (nonlinear_arith)
                    requires 1000 - severity >= 0 && wear_ratio_milli >= 0;
            }
            -((((1000 - severity) as u64 * wear_ratio_milli) / 2000) as i64)
        };
        base_time as i64 + degradation_penalty as i64 + fuel_penalty as i64 + temp_penalty
            + weather_penalty + track_deg_penalty - grip_bonus
    }

    /// Penalty from running outside the compound's temperature window.
    fn calculate_temperature_penalty(
        &self,
        track_temp: i32,
        tire_chars: &TireCharacteristics,
    ) -> (r: i64)
        requires
            -1000000 <= track_temp <= 1000000,
            -1000000 <= tire_chars.optimal_temp_min <= 1000000,
            -1000000 <= tire_chars.optimal_temp_max <= 1000000,
        ensures
            r == spec_temperature_penalty(track_temp as int, *tire_chars),
    {
        if tire_chars.optimal_temp_min <= track_temp && track_temp <= tire_chars.optimal_temp_max {
            0
        } else if track_temp < tire_chars.optimal_temp_min {
            (tire_chars.optimal_temp_min as i64 - track_temp as i64) * 50
        } else {
            (track_temp as i64 - tire_chars.optimal_temp_max as i64) * 80
        }
    }

    /// Penalty from the weather/compound pairing.
    fn calculate_weather_penalty(&self, weather: WeatherCondition, compound: TireCompound) -> (r: i64)
        ensures
            r == spec_weather_penalty(weather, compound),
    {
        let dry_compound = !compound.is_wet_weather();
        if weather == WeatherCondition::Dry && dry_compound {
            0
        } else if weather == WeatherCondition::Cloudy && dry_compound {
            0
        } else if weather == WeatherCondition::PartlyCloudy && dry_compound {
            0
        } else if weather == WeatherCondition::LightRain && compound == TireCompound::Intermediate {
            0
        } else if weather == WeatherCondition::HeavyRain && compound == TireCompound::Wet {
            0
        } else if weather == WeatherCondition::LightRain && dry_compound {
            5000
        } else if weather == WeatherCondition::HeavyRain && dry_compound {
            15000
        } else if weather == WeatherCondition::HeavyRain && compound == TireCompound::Intermediate {
            3000
        } else if weather == WeatherCondition::Dry && compound == TireCompound::Intermediate {
            2500
        } else if weather == WeatherCondition::Dry && compound == TireCompound::Wet {
            5000
        } else if weather == WeatherCondition::Cloudy && compound == TireCompound::Wet {
            4000
        } else {
            1000
        }
    }

    /// Whether the compound is inappropriate for the weather.
    fn is_wrong_tire_for_weather(&self, compound: TireCompound, weather: WeatherCondition) -> (r: bool)
        ensures
            r == spec_wrong_tire_for_weather(compound, weather),
    {
        let dry_compound = !compound.is_wet_weather();
        (weather == WeatherCondition::LightRain && dry_compound)
            || (weather == WeatherCondition::HeavyRain && dry_compound)
            || (weather == WeatherCondition::HeavyRain && compound == TireCompound::Intermediate)
    }

    /// Simulate the complete race lap by lap.
    ///
    /// The simulator never rejects a strategy: a race that runs out of
    /// fuel, never stops, or over-runs its tires completes and is flagged
    /// through warnings.
    #[verifier::rlimit(100)]
    pub fn simulate_race(&self) -> (r: SimulationResult)
        requires
            self.wf(),
        ensures
            ({
                let n = self.circuit.typical_race_laps as nat;
                &&& r.lap_times@ == spec_lap_times(*self, n)
                &&& r.fuel_history@ == spec_fuel_trace(*self, n)
                &&& r.pit_stops@ == spec_pit_events(*self, n)
                &&& r.tire_history@ == spec_tire_history(*self, n)
                &&& r.warnings@ == spec_all_warnings(*self)
                &&& r.total_time == spec_sim_state(*self, n).total_time
                &&& r.estimated_position is None
                &&& r.average_lap_time == spec_average_lap_time(r.lap_times@)
                &&& r.fastest_lap == spec_time_min(r.lap_times@)
                &&& r.slowest_lap == spec_time_max(r.lap_times@)
            }),
    {
        let ghost sim = *self;
        let total_laps: u16 = self.circuit.typical_race_laps;
        let mut lap_times: Vec<i64> = Vec::new();
        let mut pit_stop_events: Vec<PitStopEvent> = Vec::new();
        let mut tire_history: Vec<(LapNumber, TireCompound)> = Vec::new();
        tire_history.push((LapNumber(1), self.strategy.starting_compound));
        let mut fuel_history: Vec<i64> = Vec::new();
        let mut warnings: Vec<SimulationWarning> = Vec::new();

        let mut current_fuel: i64 = self.strategy.fuel_strategy.starting_fuel as i64;
        let mut current_compound: TireCompound = self.strategy.starting_compound;
        let mut tire_age: u16 = 0;
        let mut total_time: i64 = 0;

        proof {
            assert(tire_history@ =~= spec_tire_history(sim, 0));
        }

        let mut lap: u32 = 1;
        while lap <= total_laps as u32
            invariant
                sim == *self,
                sim.wf(),
                total_laps == sim.circuit.typical_race_laps,
                1 <= lap <= total_laps as u32 + 1,
                lap_times@.len() == lap - 1,
                current_fuel == spec_sim_state(sim, (lap - 1) as nat).fuel,
                tire_age == spec_sim_state(sim, (lap - 1) as nat).tire_age,
                current_compound == spec_sim_state(sim, (lap - 1) as nat).compound,
                total_time == spec_sim_state(sim, (lap - 1) as nat).total_time,
                lap_times@ == spec_lap_times(sim, (lap - 1) as nat),
                fuel_history@ == spec_fuel_trace(sim, (lap - 1) as nat),
                pit_stop_events@ == spec_pit_events(sim, (lap - 1) as nat),
                tire_history@ == spec_tire_history(sim, (lap - 1) as nat),
                warnings@ == spec_warnings_upto(sim, (lap - 1) as nat),
                forall|i: int| 0 <= i < lap_times@.len()
                    ==> SIM_LAP_TIME_MIN <= #[trigger] lap_times@[i] <= SIM_LAP_TIME_LIMIT,
            decreases total_laps as u32 + 1 - lap,
        {
            proof {
                lemma_sim_state_bounds(sim, (lap - 1) as nat);
                lemma_sim_state_bounds(sim, lap as nat);
                assert((lap - 1) * CONSUMPTION_LIMIT <= 65535 * CONSUMPTION_LIMIT)
                    by (nonlinear_arith)
                    requires lap - 1 <= 65535;
                assert((lap - 1) * SIM_LAP_TIME_MIN >= 65535 * SIM_LAP_TIME_MIN)
                    by (nonlinear_arith)
                    requires 0 <= lap - 1 <= 65535;
                assert((lap - 1) * (SIM_LAP_TIME_LIMIT + PIT_LOSS_LIMIT)
                    <= 65535 * (SIM_LAP_TIME_LIMIT + PIT_LOSS_LIMIT)) by (nonlinear_arith)
                    requires lap - 1 <= 65535;
            }
            let lap_number = LapNumber(lap as u16);

            // Lap time on the current tires, then the fuel burn.
            tire_age = tire_age + 1;
            let lap_time = self.calculate_lap_time(lap_number, current_compound, tire_age,
                current_fuel);
            lap_times.push(lap_time);
            total_time = total_time + lap_time;

            let fuel_for_model: u64 = if current_fuel >= 0 { current_fuel as u64 } else { 0 };
            let fuel_consumed = self.fuel_model.consumption_per_lap(fuel_for_model);
            current_fuel = current_fuel - fuel_consumed as i64;
            fuel_history.push(current_fuel);

            let ghost w_start = warnings@;
            let ghost cur_state = spec_sim_state(sim, lap as nat);
            proof {
                assert(current_fuel == cur_state.fuel);
            }

            // Fuel warnings.
            if current_fuel < 5000 {
                warnings.push(SimulationWarning::LowFuel {
                    lap: lap_number,
                    fuel_remaining: current_fuel,
                });
            }
            if lap < total_laps as u32 {
                let clamped: u64 = if current_fuel >= 0 { current_fuel as u64 } else { 0 };
                let fuel_needed = self.fuel_model.fuel_needed_for_laps(
                    total_laps - lap as u16, clamped);
                proof {
                    assert((total_laps - lap) * CONSUMPTION_LIMIT
                        <= 65535 * CONSUMPTION_LIMIT) by (nonlinear_arith)
                        requires total_laps - lap <= 65535;
                }
                if fuel_needed as i64 > current_fuel {
                    warnings.push(SimulationWarning::InsufficientFuel {
                        lap: lap_number,
                        fuel_needed: fuel_needed as i64,
                        fuel_remaining: current_fuel,
                    });
                }
            }

            // Execute a scheduled stop.
            let pit = self.strategy.pit_stop_on_lap(lap_number);
            match pit {
                Some(pit_stop) => {
                    proof {
                        let i = choose|i: int| 0 <= i < sim.strategy.pit_stops@.len()
                            && (#[trigger] sim.strategy.pit_stops@[i]).lap.0 == lap as u16;
                        let j = choose|j: int| 0 <= j < sim.strategy.pit_stops@.len()
                            && #[trigger] sim.strategy.pit_stops@[j] == *pit_stop
                            && sim.strategy.pit_stops@[j].lap == lap_number
                            && forall|k: int| 0 <= k < j
                                ==> #[trigger] sim.strategy.pit_stops@[k].lap != lap_number;
                        assert(sim.strategy.pit_stops@[i].lap.0 == lap as u16);
                        assert(sim.strategy.pit_stops@[j].lap.0 == lap as u16);
                        if i != j {
                            assert(crate::strategy::stops_strictly_increasing(
                                sim.strategy.pit_stops@));
                            if i < j {
                                assert(sim.strategy.pit_stops@[i].lap.0
                                    < sim.strategy.pit_stops@[j].lap.0);
                            } else {
                                assert(sim.strategy.pit_stops@[j].lap.0
                                    < sim.strategy.pit_stops@[i].lap.0);
                            }
                        }
                        assert(*pit_stop == spec_stop_at(sim.strategy.pit_stops@, lap as u16));
                        assert(spec_has_stop_at(sim.strategy.pit_stops@, lap as u16));
                    }
                    let old_compound = current_compound;
                    pit_stop_events.push(PitStopEvent {
                        lap: lap_number,
                        old_compound,
                        new_compound: pit_stop.compound,
                        duration: pit_stop.pit_loss,
                        tire_age,
                        fuel_remaining: current_fuel,
                    });
                    total_time = total_time + pit_stop.pit_loss as i64;
                    current_compound = pit_stop.compound;
                    tire_age = 0;
                    tire_history.push((lap_number, current_compound));
                }
                None => {
                    proof {
                        assert(!spec_has_stop_at(sim.strategy.pit_stops@, lap as u16));
                    }
                }
            }

            // Tire and weather warnings, on the state after any stop.
            let tire_chars = TireCharacteristics::for_compound(current_compound);
            if tire_age > tire_chars.typical_life {
                warnings.push(SimulationWarning::TireAgeExceeded {
                    lap: lap_number,
                    tire_age,
                    compound: current_compound,
                    typical_life: tire_chars.typical_life,
                });
            }
            let current_weather = self.weather.condition_at_lap(lap_number);
            if self.is_wrong_tire_for_weather(current_compound, current_weather) {
                warnings.push(SimulationWarning::WrongTireForWeather {
                    lap: lap_number,
                    compound: current_compound,
                    condition: current_weather,
                });
            }

            proof {
                assert(warnings@ =~= w_start + spec_lap_warnings(sim, lap as nat));
                assert(warnings@ == spec_warnings_upto(sim, lap as nat));
                assert(lap_times@ =~= spec_lap_times(sim, lap as nat));
                assert(fuel_history@ =~= spec_fuel_trace(sim, lap as nat));
                assert(pit_stop_events@ =~= spec_pit_events(sim, lap as nat));
                assert(tire_history@ =~= spec_tire_history(sim, lap as nat));
            }
            lap = lap + 1;
        }

        // Statistics.
        let mut time_sum: i64 = 0;
        let mut fastest_lap: i64 = i64::MAX;
        let mut slowest_lap: i64 = i64::MIN;
        let mut i: usize = 0;
        while i < lap_times.len()
            invariant
                0 <= i <= lap_times@.len(),
                lap_times@.len() <= 65535,
                forall|k: int| 0 <= k < lap_times@.len()
                    ==> SIM_LAP_TIME_MIN <= #[trigger] lap_times@[k] <= SIM_LAP_TIME_LIMIT,
                time_sum == spec_time_sum(lap_times@.take(i as int)),
                i * SIM_LAP_TIME_MIN <= time_sum <= i * SIM_LAP_TIME_LIMIT,
                fastest_lap == spec_time_min(lap_times@.take(i as int)),
                slowest_lap == spec_time_max(lap_times@.take(i as int)),
            decreases lap_times@.len() - i,
        {
            proof {
                assert(lap_times@.take(i + 1).drop_last() =~= lap_times@.take(i as int));
                assert(lap_times@.take(i + 1).last() == lap_times@[i as int]);
                assert(i * SIM_LAP_TIME_MIN + SIM_LAP_TIME_MIN == (i + 1) * SIM_LAP_TIME_MIN)
                    by (nonlinear_arith);
                assert(i * SIM_LAP_TIME_LIMIT + SIM_LAP_TIME_LIMIT
                    == (i + 1) * SIM_LAP_TIME_LIMIT) by (nonlinear_arith);
                assert((i + 1) * SIM_LAP_TIME_LIMIT <= 65535 * SIM_LAP_TIME_LIMIT)
                    by (nonlinear_arith)
                    requires i + 1 <= 65535;
                assert((i + 1) * SIM_LAP_TIME_MIN >= 65535 * SIM_LAP_TIME_MIN)
                    by (nonlinear_arith)
                    requires i + 1 <= 65535;
            }
            let t = lap_times[i];
            time_sum = time_sum + t;
            if t < fastest_lap {
                fastest_lap = t;
            }
            if t > slowest_lap {
                slowest_lap = t;
            }
            i = i + 1;
        }
        proof {
            assert(lap_times@.take(i as int) =~= lap_times@);
        }
        let average_lap_time: i64 = if lap_times.len() == 0 {
            0
        } else if time_sum >= 0 {
            (time_sum as u64 / lap_times.len() as u64) as i64
        } else {
            -(((-time_sum) as u64 / lap_times.len() as u64) as i64)
        };

        // Final verdicts.
        if current_fuel < 0 {
            warnings.push(SimulationWarning::OutOfFuel);
        }
        if pit_stop_events.len() == 0 {
            warnings.push(SimulationWarning::NoPitStops);
        }
        proof {
            assert(warnings@ =~= spec_all_warnings(sim));
        }

        SimulationResult {
            total_time,
            lap_times,
            pit_stops: pit_stop_events,
            tire_history,
            fuel_history,
            warnings,
            estimated_position: None,
            average_lap_time,
            fastest_lap,
            slowest_lap,
        }
    }
}

/// Build a simulator with the default fuel model adjusted to the circuit's
/// consumption rate, under dry weather at 30 degrees.
pub fn create_simulator(
    circuit: Circuit,
    strategy: RaceStrategy,
    degradation_factors: crate::tire::DegradationFactors,
) -> (r: RaceSimulator)
    ensures
        r.circuit == circuit,
        r.strategy == strategy,
        r.fuel_model == (FuelConsumptionModel {
            base_rate: 1600,
            track_multiplier: circuit.characteristics.fuel_consumption,
            fuel_load_factor: 500,
            safety_car_rate: 400,
        }),
        r.weather.initial_condition == WeatherCondition::Dry,
        r.weather.track_temperature == 30,
        r.weather.air_temperature == 25,
        r.weather.changes@.len() == 0,
{
    let mut fuel_model = FuelConsumptionModel::default_model();
    fuel_model.track_multiplier = circuit.characteristics.fuel_consumption;

    let weather = WeatherConditions {
        initial_condition: WeatherCondition::Dry,
        track_temperature: 30,
        air_temperature: 25,
        changes: Vec::new(),
    };

    RaceSimulator::new(circuit, strategy, fuel_model, weather)
}

} // verus!
