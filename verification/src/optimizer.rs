//! Pit stop strategy optimization: configuration, the pit-window and
//! time-loss models, the predicted lap-time model, and the
//! dynamic-programming search for the fastest legal strategy.
//!
//! Times are in milliseconds, fuel in grams, and dimensionless factors in
//! thousandths (1000 = 1.0).

use vstd::prelude::*;
use vstd::arithmetic::div_mod::lemma_div_is_ordered;
use vstd::arithmetic::div_mod::lemma_div_is_ordered_by_denominator;
use crate::fuel::FuelConsumptionModel;
use crate::fuel::FUEL_LIMIT;
use crate::strategy::PitStop;
use crate::strategy::PitStopReason;
use crate::tire::DegradationFactors;
use crate::tire::TireCharacteristics;
use crate::tire::TireCompound;
use crate::track::Circuit;
use crate::types::LapNumber;

verus! {

/// Largest value the predicted lap-time model can produce (milliseconds).
pub const LAP_TIME_LIMIT: i64 = 30000000000000;

/// Largest estimated pit-stop time loss (milliseconds).
pub const ESTIMATE_LIMIT: u64 = 3000000;

/// Competitor state for undercut/overcut analysis.
#[derive(Debug, Clone, PartialEq, Eq)]
pub struct CompetitorState {
    pub position: u8,
    pub current_lap: u16,
    pub current_compound: TireCompound,
    pub tire_age: u16,
    pub estimated_pit_lap: Option<u16>,
    /// Gap to this competitor (milliseconds).
    pub gap_millis: i64,
}

/// Pit stop optimization configuration.
#[derive(Debug, Clone)]
pub struct OptimizationConfig {
    /// Total race laps.
    pub total_laps: u16,
    /// Circuit being raced on.
    pub circuit: Circuit,
    /// Available tire compounds for the race; the first is the starting
    /// compound.
    pub available_compounds: Vec<TireCompound>,
    /// Pit lane time loss (milliseconds).
    pub pit_lane_time_loss: u64,
    /// Tire change time (milliseconds).
    pub tire_change_time: u64,
    /// Current track position.
    pub current_position: u8,
    /// Competitors ahead.
    pub competitors_ahead: Vec<CompetitorState>,
    /// Degradation factors for this race.
    pub degradation_factors: DegradationFactors,
    /// Fuel consumption model.
    pub fuel_model: FuelConsumptionModel,
    /// Starting fuel load (grams).
    pub starting_fuel: u64,
    /// Minimum number of pit stops required (regulations).
    pub min_pit_stops: u8,
    /// Maximum number of pit stops to consider.
    pub max_pit_stops: u8,
}

impl OptimizationConfig {
    /// Machine limits on the configuration values: every quantity small
    /// enough that the models evaluate without overflow.
    pub open spec fn limits(self) -> bool {
        &&& self.circuit.wf()
        &&& self.degradation_factors.wf()
        &&& self.degradation_factors.track_severity <= 10000
        &&& self.degradation_factors.temperature_factor <= 10000
        &&& self.degradation_factors.driving_style_factor <= 10000
        &&& self.degradation_factors.fuel_load_factor <= 10000
        &&& self.degradation_factors.downforce_factor <= 10000
        &&& self.fuel_model.wf()
        &&& 1000 <= self.starting_fuel <= FUEL_LIMIT
        &&& self.pit_lane_time_loss <= 1000000
        &&& self.tire_change_time <= 1000000
        &&& self.available_compounds@.len() <= 8
    }

    /// The spec-level validity checks mirrored by `optimize_pit_strategy`'s
    /// input validation.
    pub open spec fn spec_valid(self) -> bool {
        &&& self.total_laps > 0
        &&& self.available_compounds@.len() > 0
        &&& self.min_pit_stops <= self.max_pit_stops
    }
}

/// Reason a configuration was rejected.
#[derive(Debug, Clone, Copy, PartialEq, Eq, Structural)]
pub enum ConfigError {
    /// The race must have at least one lap.
    ZeroTotalLaps,
    /// At least one compound must be available.
    NoCompounds,
    /// The minimum stop count must not exceed the maximum.
    MinStopsExceedMax,
}

impl ConfigError {
    /// Human-readable description of the violated precondition.
    pub fn message(&self) -> (r: String)
        ensures
            self is ZeroTotalLaps ==> r@ == "Total laps must be greater than 0"@,
            self is NoCompounds ==> r@ == "Must have at least one available compound"@,
            self is MinStopsExceedMax ==> r@ == "Min pit stops cannot exceed max pit stops"@,
    {
        match self {
            ConfigError::ZeroTotalLaps => "Total laps must be greater than 0".to_owned(),
            ConfigError::NoCompounds => "Must have at least one available compound".to_owned(),
            ConfigError::MinStopsExceedMax => "Min pit stops cannot exceed max pit stops".to_owned(),
        }
    }
}

/// Failure of the optimizer.
#[derive(Debug, Clone, Copy, PartialEq, Eq, Structural)]
pub enum OptimizationError {
    /// A precondition on the configuration was violated.
    InvalidConfig(ConfigError),
    /// The inputs were individually valid but jointly unsatisfiable: no
    /// strategy meets the stop-count and compound-diversity constraints.
    Infeasible,
}

impl OptimizationError {
    /// Human-readable description of the failure.
    pub fn message(&self) -> (r: String)
        ensures
            self is Infeasible ==> r@ == "No valid strategy found within constraints"@,
    {
        match self {
            OptimizationError::InvalidConfig(e) => e.message(),
            OptimizationError::Infeasible => "No valid strategy found within constraints".to_owned(),
        }
    }
}

/// Pit window constraints.
#[derive(Debug, Clone)]
pub struct PitWindow {
    /// Earliest feasible pit lap.
    pub earliest_lap: u16,
    /// Latest feasible pit lap.
    pub latest_lap: u16,
    /// Optimal window start.
    pub optimal_start: u16,
    /// Optimal window end.
    pub optimal_end: u16,
    /// Notes on strategic constraints shaping the window.
    pub constraints: Vec<String>,
}

/// Tire life (laps) adjusted by the combined degradation multiplier; a zero
/// multiplier means no measurable degradation, treated as the longest
/// representable life.
pub open spec fn spec_adjusted_life(compound: TireCompound, factors: DegradationFactors) -> int {
    let mult = factors.spec_total_multiplier();
    let life = TireCharacteristics::spec_for_compound(compound).typical_life;
    if mult == 0 {
        65535
    } else {
        life * 1000 / mult as int
    }
}

/// Number of competitors whose estimated pit lap falls inside the window.
pub open spec fn spec_undercut_count(
    competitors: Seq<CompetitorState>,
    earliest: u16,
    latest: u16,
) -> int
    decreases competitors.len(),
{
    if competitors.len() == 0 {
        0
    } else {
        spec_undercut_count(competitors.drop_last(), earliest, latest)
            + match competitors.last().estimated_pit_lap {
                Some(p) => if earliest <= p && p <= latest { 1int } else { 0int },
                None => 0int,
            }
    }
}

/// Position-based risk penalty of a pit stop (milliseconds): higher when
/// fighting at the front.
pub open spec fn spec_position_penalty(position: u8) -> int {
    if position <= 3 {
        1500
    } else if position <= 10 {
        1000
    } else {
        500
    }
}

/// Estimated time loss of a pit stop on the given lap:
/// `(pit lane + tire change) * fuel factor + position penalty`, where the
/// fuel factor falls linearly from 1.1 to 1.0 over the race distance.
pub open spec fn spec_estimate_time_loss(cfg: OptimizationConfig, lap: u16) -> int {
    let base_loss = cfg.pit_lane_time_loss + cfg.tire_change_time;
    let fuel_factor_micro = 1000000 + ((cfg.total_laps - lap) * 100000) / cfg.total_laps as int;
    base_loss * fuel_factor_micro / 1000000 + spec_position_penalty(cfg.current_position)
}

/// Estimate the time loss for a pit stop on a given lap (milliseconds).
pub fn estimate_time_loss(config: &OptimizationConfig, lap: u16) -> (r: u64)
    requires
        config.limits(),
        1 <= config.total_laps,
        lap <= config.total_laps,
    ensures
        r == spec_estimate_time_loss(*config, lap),
        500 <= r <= ESTIMATE_LIMIT,
{
    let base_loss: u64 = config.pit_lane_time_loss + config.tire_change_time;
    let remaining: u64 = (config.total_laps - lap) as u64;
    let fuel_factor_micro: u64 = 1000000 + (remaining * 100000) / config.total_laps as u64;
    proof {
        let total = config.total_laps as int;
        assert(remaining * 100000 <= total * 100000) by (nonlinear_arith)
            requires remaining <= total;
        assert(total * 100000 / total == 100000) by (nonlinear_arith)
            requires total >= 1;
        lemma_div_is_ordered(remaining as int * 100000, total * 100000, total);
        assert(remaining * 100000 / total <= 100000);
        assert(fuel_factor_micro <= 1100000);
        assert(base_loss * fuel_factor_micro <= 2200000000000) by (nonlinear_arith)
            requires base_loss <= 2000000 && fuel_factor_micro <= 1100000;
        assert(base_loss * fuel_factor_micro / 1000000 <= 2200000) by (nonlinear_arith)
            requires base_loss * fuel_factor_micro <= 2200000000000;
        assert(base_loss * fuel_factor_micro >= base_loss * 1000000) by (nonlinear_arith)
            requires base_loss >= 0 && fuel_factor_micro >= 1000000;
        assert(base_loss * fuel_factor_micro / 1000000 >= 0) by (nonlinear_arith)
            requires base_loss * fuel_factor_micro >= 0;
    }
    let position_penalty: u64 = if config.current_position <= 3 {
        1500
    } else if config.current_position <= 10 {
        1000
    } else {
        500
    };
    base_loss * fuel_factor_micro / 1000000 + position_penalty
}

/// The lap of the most recent pit stop strictly before the given lap, or 0
/// if there is none.
pub open spec fn spec_last_stop_lap_before(stops: Seq<PitStop>, lap: u16) -> int
    decreases stops.len(),
{
    if stops.len() == 0 {
        0
    } else {
        let rest = spec_last_stop_lap_before(stops.drop_last(), lap);
        if stops.last().lap.0 < lap && stops.last().lap.0 > rest {
            stops.last().lap.0 as int
        } else {
            rest
        }
    }
}

/// Tire age on the given lap: laps since the most recent stop before it.
pub open spec fn spec_tire_age(stops: Seq<PitStop>, lap: u16) -> int {
    lap - spec_last_stop_lap_before(stops, lap)
}

/// The most recent stop lap is below the current lap (or zero).
pub proof fn lemma_last_stop_lap_before_bound(stops: Seq<PitStop>, lap: u16)
    ensures
        0 <= spec_last_stop_lap_before(stops, lap),
        lap > 0 ==> spec_last_stop_lap_before(stops, lap) < lap,
        lap == 0 ==> spec_last_stop_lap_before(stops, lap) == 0,
    decreases stops.len(),
{
    if stops.len() > 0 {
        lemma_last_stop_lap_before_bound(stops.drop_last(), lap);
    }
}

/// Tire age on a lap, counted from the most recent pit stop before it.
pub fn calculate_tire_age(current_lap: u16, pit_stops: &Vec<PitStop>) -> (r: u16)
    ensures
        r == spec_tire_age(pit_stops@, current_lap),
{
    proof {
        lemma_last_stop_lap_before_bound(pit_stops@, current_lap);
    }
    let mut last_pit_lap: u16 = 0;
    let mut i: usize = 0;
    while i < pit_stops.len()
        invariant
            0 <= i <= pit_stops@.len(),
            last_pit_lap == spec_last_stop_lap_before(pit_stops@.take(i as int), current_lap),
            last_pit_lap == 0 || last_pit_lap < current_lap,
        decreases pit_stops@.len() - i,
    {
        proof {
            assert(pit_stops@.take(i + 1).drop_last() =~= pit_stops@.take(i as int));
            assert(pit_stops@.take(i + 1).last() == pit_stops@[i as int]);
        }
        if pit_stops[i].lap.0 < current_lap && pit_stops[i].lap.0 > last_pit_lap {
            last_pit_lap = pit_stops[i].lap.0;
        }
        i = i + 1;
    }
    proof {
        assert(pit_stops@.take(i as int) =~= pit_stops@);
    }
    current_lap - last_pit_lap
}

/// Narrative reason for a pit stop: the first stop is mandatory; an early
/// stop is an undercut, a late one tire degradation, the rest opportunistic.
pub open spec fn spec_pit_reason(total_laps: u16, lap: u16, prior_stops: int) -> PitStopReason {
    if prior_stops == 0 {
        PitStopReason::Mandatory
    } else if lap < total_laps / 3 {
        PitStopReason::Undercut
    } else if lap > (total_laps * 2) / 3 {
        PitStopReason::TireDegradation
    } else {
        PitStopReason::Opportunistic
    }
}

fn determine_pit_reason(lap: u16, config: &OptimizationConfig, prior_stops: usize) -> (r: PitStopReason)
    ensures
        r == spec_pit_reason(config.total_laps, lap, prior_stops as int),
{
    if prior_stops == 0 {
        PitStopReason::Mandatory
    } else if lap < config.total_laps / 3 {
        PitStopReason::Undercut
    } else if (lap as u32) > (config.total_laps as u32 * 2) / 3 {
        PitStopReason::TireDegradation
    } else {
        PitStopReason::Opportunistic
    }
}

/// Calculate the valid pit window for the current race state.
///
/// The window opens at 70% of the degradation-adjusted tire life, closes at
/// 95%, with the optimal sub-window at 80-90%; all bounds are clamped to
/// the lap before the finish.
pub fn calculate_pit_window(
    current_lap: u16,
    current_compound: TireCompound,
    config: &OptimizationConfig,
) -> (r: PitWindow)
    requires
        config.limits(),
        config.total_laps >= 1,
    ensures
        ({
            let adj = spec_adjusted_life(current_compound, config.degradation_factors);
            let cap = (config.total_laps - 1) as int;
            &&& r.earliest_lap == vstd::math::min(current_lap + adj * 70 / 100, cap)
            &&& r.latest_lap == vstd::math::min(current_lap + adj * 95 / 100, cap)
            &&& r.optimal_start == vstd::math::min(current_lap + adj * 80 / 100, cap)
            &&& r.optimal_end == vstd::math::min(current_lap + adj * 90 / 100, cap)
        }),
        r.earliest_lap <= r.optimal_start <= r.optimal_end <= r.latest_lap,
        r.latest_lap <= config.total_laps,
        r.constraints@.len()
            == (if config.circuit.characteristics.tire_severity > 1200 { 1int } else { 0int })
                + spec_undercut_count(config.competitors_ahead@, r.earliest_lap, r.latest_lap),
        config.circuit.characteristics.tire_severity > 1200
            ==> r.constraints@[0]@ == "High tire degradation track"@,
{
    let tire_chars = TireCharacteristics::for_compound(current_compound);
    let track_severity = config.circuit.characteristics.tire_severity;

    let mult: u64 = config.degradation_factors.total_multiplier();
    let adjusted_life: u64 = if mult == 0 {
        65535
    } else {
        tire_chars.typical_life as u64 * 1000 / mult
    };
    proof {
        assert(adjusted_life == spec_adjusted_life(current_compound, config.degradation_factors));
        assert(adjusted_life <= 65535) by {
            if mult != 0 {
                assert(tire_chars.typical_life <= 40);
                assert(tire_chars.typical_life as int * 1000 / (mult as int)
                    <= tire_chars.typical_life as int * 1000) by (nonlinear_arith)
                    requires mult >= 1 && tire_chars.typical_life >= 0;
            }
        }
        lemma_div_is_ordered(adjusted_life * 70, adjusted_life * 80, 100);
        lemma_div_is_ordered(adjusted_life * 80, adjusted_life * 90, 100);
        lemma_div_is_ordered(adjusted_life * 90, adjusted_life * 95, 100);
    }
    let cap: u32 = config.total_laps as u32 - 1;
    let e32: u32 = current_lap as u32 + (adjusted_life as u32 * 70 / 100);
    let l32: u32 = current_lap as u32 + (adjusted_life as u32 * 95 / 100);
    let os32: u32 = current_lap as u32 + (adjusted_life as u32 * 80 / 100);
    let oe32: u32 = current_lap as u32 + (adjusted_life as u32 * 90 / 100);
    let earliest_lap: u16 = if e32 < cap { e32 as u16 } else { cap as u16 };
    let latest_lap: u16 = if l32 < cap { l32 as u16 } else { cap as u16 };
    let optimal_start: u16 = if os32 < cap { os32 as u16 } else { cap as u16 };
    let optimal_end: u16 = if oe32 < cap { oe32 as u16 } else { cap as u16 };

    let mut constraints: Vec<String> = Vec::new();
    if track_severity > 1200 {
        let note = "High tire degradation track".to_owned();
        constraints.push(note);
        proof {
            assert(constraints@[0]@ == "High tire degradation track"@);
        }
    }
    let ghost base_len: int = constraints@.len() as int;

    let mut i: usize = 0;
    while i < config.competitors_ahead.len()
        invariant
            0 <= i <= config.competitors_ahead@.len(),
            constraints@.len() == base_len
                + spec_undercut_count(config.competitors_ahead@.take(i as int), earliest_lap, latest_lap),
            base_len == (if config.circuit.characteristics.tire_severity > 1200 { 1int } else { 0int }),
            constraints@.len() >= base_len,
            config.circuit.characteristics.tire_severity > 1200
                ==> constraints@[0]@ == "High tire degradation track"@,
        decreases config.competitors_ahead@.len() - i,
    {
        proof {
            assert(config.competitors_ahead@.take(i + 1).drop_last()
                =~= config.competitors_ahead@.take(i as int));
            assert(config.competitors_ahead@.take(i + 1).last()
                == config.competitors_ahead@[i as int]);
        }
        let competitor = &config.competitors_ahead[i];
        match competitor.estimated_pit_lap {
            Some(comp_pit_lap) => {
                if comp_pit_lap >= earliest_lap && comp_pit_lap <= latest_lap {
                    let ghost prior = constraints@;
                    constraints.push("Potential undercut opportunity".to_owned());
                    proof {
                        assert(constraints@.len() > 0);
                        if prior.len() > 0 {
                            assert(constraints@[0] == prior[0]);
                        }
                    }
                }
            }
            None => {}
        }
        i = i + 1;
    }
    proof {
        assert(config.competitors_ahead@.take(i as int) =~= config.competitors_ahead@);
    }

    PitWindow {
        earliest_lap,
        latest_lap,
        optimal_start,
        optimal_end,
        constraints,
    }
}

/// Under the configuration limits the combined degradation multiplier is at
/// most 100.0.
pub proof fn lemma_total_multiplier_cap(f: DegradationFactors)
    requires
        f.wf(),
        f.track_severity <= 10000,
        f.temperature_factor <= 10000,
        f.driving_style_factor <= 10000,
        f.fuel_load_factor <= 10000,
        f.downforce_factor <= 10000,
    ensures
        0 <= f.spec_total_multiplier() <= 100000000,
{
    let a = f.track_severity as int;
    let b = f.temperature_factor as int;
    let c = f.driving_style_factor as int;
    let d = f.fuel_load_factor as int;
    let e = f.downforce_factor as int;
    assert(a * b <= 100000000) by (nonlinear_arith)
        requires 0 <= a <= 10000 && 0 <= b <= 10000;
    assert(a * b >= 0) by (nonlinear_arith)
        requires a >= 0 && b >= 0;
    assert(a * b * c <= 1000000000000) by (nonlinear_arith)
        requires 0 <= a * b <= 100000000 && 0 <= c <= 10000;
    assert(a * b * c >= 0) by (nonlinear_arith)
        requires a * b >= 0 && c >= 0;
    assert(a * b * c * d <= 10000000000000000) by (nonlinear_arith)
        requires 0 <= a * b * c <= 1000000000000 && 0 <= d <= 10000;
    assert(a * b * c * d >= 0) by (nonlinear_arith)
        requires a * b * c >= 0 && d >= 0;
    assert(a * b * c * d * e <= 100000000000000000000) by (nonlinear_arith)
        requires 0 <= a * b * c * d <= 10000000000000000 && 0 <= e <= 10000;
    assert(a * b * c * d * e >= 0) by (nonlinear_arith)
        requires a * b * c * d >= 0 && e >= 0;
    assert(a * b * c * d * e / 1000000000000 <= 100000000) by (nonlinear_arith)
        requires 0 <= a * b * c * d * e <= 100000000000000000000;
}

/// Predicted lap time (milliseconds) for a compound at a given tire age on
/// a given lap: race-pace base (3% off the lap record), plus a linear tire
/// wear penalty of up to 0.5 s, plus a fuel-load penalty of up to 0.3 s,
/// minus a grip bonus linear in the compound's grip level.
pub open spec fn spec_lap_time(
    cfg: OptimizationConfig,
    compound: TireCompound,
    tire_age: int,
    lap: int,
) -> int {
    let chars = TireCharacteristics::spec_for_compound(compound);
    let base_time = cfg.circuit.lap_record * 103 / 100;
    let mult = cfg.degradation_factors.spec_total_multiplier();
    let wear_penalty = tire_age * mult * 500 / (chars.typical_life * 1000);
    let fuel_remaining = cfg.fuel_model.spec_fuel_needed(
        (cfg.total_laps - lap) as nat, cfg.starting_fuel as int);
    let fuel_penalty = fuel_remaining * 300 / cfg.starting_fuel as int;
    let grip_bonus = (chars.grip_level - 75) * 20;
    base_time + wear_penalty + fuel_penalty - grip_bonus
}

/// Bounds of the predicted lap-time model.
pub proof fn lemma_lap_time_bounds(
    cfg: OptimizationConfig,
    compound: TireCompound,
    tire_age: int,
    lap: int,
)
    requires
        cfg.limits(),
        0 <= tire_age <= 65535,
        1 <= lap <= cfg.total_laps,
    ensures
        -400 <= spec_lap_time(cfg, compound, tire_age, lap) <= LAP_TIME_LIMIT,
{
    let chars = TireCharacteristics::spec_for_compound(compound);
    assert(15 <= chars.typical_life <= 40);
    assert(65 <= chars.grip_level <= 95);
    let base_time = cfg.circuit.lap_record * 103 / 100;
    assert(0 <= base_time <= 10300000) by (nonlinear_arith)
        requires 0 <= cfg.circuit.lap_record <= 10000000
            && base_time == cfg.circuit.lap_record * 103 / 100;
    let mult = cfg.degradation_factors.spec_total_multiplier();
    lemma_total_multiplier_cap(cfg.degradation_factors);
    let wear_penalty = tire_age * mult * 500 / (chars.typical_life * 1000);
    assert(0 <= tire_age * mult * 500 <= 3276750000000000) by (nonlinear_arith)
        requires 0 <= tire_age <= 65535 && 0 <= mult <= 100000000;
    assert(0 <= wear_penalty <= 218450000000) by (nonlinear_arith)
        requires
            0 <= tire_age * mult * 500 <= 3276750000000000,
            15 <= chars.typical_life <= 40,
            wear_penalty == tire_age * mult * 500 / (chars.typical_life * 1000),
    ;
    let fuel_remaining = cfg.fuel_model.spec_fuel_needed(
        (cfg.total_laps - lap) as nat, cfg.starting_fuel as int);
    cfg.fuel_model.lemma_fuel_needed_bounds(
        (cfg.total_laps - lap) as nat, cfg.starting_fuel as int);
    assert(0 <= fuel_remaining <= 65535 * 1100000000) by (nonlinear_arith)
        requires
            0 <= fuel_remaining <= (cfg.total_laps - lap) as nat * 1100000000,
            (cfg.total_laps - lap) as nat <= 65535,
    ;
    let fuel_penalty = fuel_remaining * 300 / cfg.starting_fuel as int;
    assert(0 <= fuel_remaining * 300 <= 21626550000000000) by (nonlinear_arith)
        requires 0 <= fuel_remaining <= 72088500000000;
    lemma_div_is_ordered_by_denominator(fuel_remaining * 300, 1000, cfg.starting_fuel as int);
    lemma_div_is_ordered(0, fuel_remaining * 300, cfg.starting_fuel as int);
    assert(fuel_remaining * 300 / 1000 <= 21626550000000) by (nonlinear_arith)
        requires 0 <= fuel_remaining * 300 <= 21626550000000000;
    assert(0 <= fuel_penalty <= 21626550000000);
    assert(-200 <= (chars.grip_level - 75) * 20 <= 400);
}

/// Law: for a fixed compound, configuration, and lap, the predicted lap
/// time never falls as the tire ages — wear never makes a lap faster.
pub proof fn lemma_lap_time_monotone_in_tire_age(
    cfg: OptimizationConfig,
    compound: TireCompound,
    age1: int,
    age2: int,
    lap: int,
)
    requires
        cfg.limits(),
        0 <= age1 <= age2,
    ensures
        spec_lap_time(cfg, compound, age1, lap) <= spec_lap_time(cfg, compound, age2, lap),
{
    let chars = TireCharacteristics::spec_for_compound(compound);
    assert(15 <= chars.typical_life <= 40);
    let mult = cfg.degradation_factors.spec_total_multiplier();
    assert(mult >= 0);
    assert(age1 * mult * 500 <= age2 * mult * 500) by (nonlinear_arith)
        requires 0 <= age1 <= age2 && mult >= 0;
    lemma_div_is_ordered(age1 * mult * 500, age2 * mult * 500, chars.typical_life * 1000);
}

/// Predicted lap time (milliseconds), from the lap-time model.
pub fn calculate_lap_time(
    compound: TireCompound,
    tire_age: u16,
    config: &OptimizationConfig,
    lap: u16,
) -> (r: i64)
    requires
        config.limits(),
        1 <= lap <= config.total_laps,
    ensures
        r == spec_lap_time(*config, compound, tire_age as int, lap as int),
        -400 <= r <= LAP_TIME_LIMIT,
{
    proof {
        lemma_lap_time_bounds(*config, compound, tire_age as int, lap as int);
        lemma_total_multiplier_cap(config.degradation_factors);
    }
    let tire_chars = TireCharacteristics::for_compound(compound);
    let base_time: u64 = config.circuit.lap_record * 103 / 100;
    let mult: u64 = config.degradation_factors.total_multiplier();
    proof {
        assert(tire_age as int * mult * 500 <= 3276750000000000) by (nonlinear_arith)
            requires 0 <= tire_age <= 65535 && 0 <= mult <= 100000000;
        assert(tire_age as int * mult >= 0) by (nonlinear_arith)
            requires tire_age >= 0 && mult >= 0;
    }
    let wear_penalty: u64 = tire_age as u64 * mult * 500
        / (tire_chars.typical_life as u64 * 1000);
    let fuel_remaining: u64 = config.fuel_model.fuel_needed_for_laps(
        config.total_laps - lap, config.starting_fuel);
    proof {
        assert(fuel_remaining * 300 <= 72088500000000 * 300) by (nonlinear_arith)
            requires fuel_remaining <= 72088500000000;
        assert(fuel_remaining * 300 >= 0) by (nonlinear_arith)
            requires fuel_remaining >= 0;
        assert((config.total_laps - lap) * 1100000000 <= 72088500000000) by (nonlinear_arith)
            requires config.total_laps - lap <= 65535;
    }
    let fuel_penalty: u64 = fuel_remaining * 300 / config.starting_fuel;
    let grip_bonus: i64 = (tire_chars.grip_level as i64 - 75) * 20;
    base_time as i64 + wear_penalty as i64 + fuel_penalty as i64 - grip_bonus
}

/// The pit loss charged on the given lap: the summed losses of stops
/// scheduled exactly there (at most one for a well-formed plan).
pub open spec fn spec_pit_loss_at(stops: Seq<PitStop>, lap: u16) -> int
    decreases stops.len(),
{
    if stops.len() == 0 {
        0
    } else {
        spec_pit_loss_at(stops.drop_last(), lap)
            + if stops.last().lap.0 == lap { stops.last().pit_loss as int } else { 0int }
    }
}

/// With no stop on the lap, no pit loss is charged there.
pub proof fn lemma_pit_loss_at_absent(stops: Seq<PitStop>, lap: u16)
    requires
        forall|i: int| 0 <= i < stops.len() ==> #[trigger] stops[i].lap.0 != lap,
    ensures
        spec_pit_loss_at(stops, lap) == 0,
    decreases stops.len(),
{
    if stops.len() > 0 {
        assert(stops.last() == stops[stops.len() - 1]);
        lemma_pit_loss_at_absent(stops.drop_last(), lap);
    }
}

/// The pit loss on any lap is bounded by the per-stop cap times the number
/// of stops.
pub proof fn lemma_pit_loss_at_bound(stops: Seq<PitStop>, lap: u16)
    requires
        forall|i: int| 0 <= i < stops.len() ==> #[trigger] stops[i].pit_loss <= ESTIMATE_LIMIT,
    ensures
        0 <= spec_pit_loss_at(stops, lap) <= stops.len() * ESTIMATE_LIMIT,
    decreases stops.len(),
{
    if stops.len() == 0 {
        assert(stops.len() * ESTIMATE_LIMIT == 0);
    } else {
        assert(stops.last() == stops[stops.len() - 1]);
        lemma_pit_loss_at_bound(stops.drop_last(), lap);
        assert((stops.len() - 1) * ESTIMATE_LIMIT + ESTIMATE_LIMIT
            == stops.len() * ESTIMATE_LIMIT) by (nonlinear_arith)
            requires stops.len() >= 1;
    }
}

/// Accumulated predicted cost of a pit plan upon arriving at `upto` (laps
/// are 1-indexed): the sum over completed laps of the predicted lap time
/// with the compound and tire age in effect, plus the pit losses charged.
pub open spec fn spec_plan_cost(
    cfg: OptimizationConfig,
    start: TireCompound,
    stops: Seq<PitStop>,
    upto: int,
) -> int
    decreases upto,
{
    if upto <= 1 {
        0
    } else {
        let l = upto - 1;
        spec_plan_cost(cfg, start, stops, l)
            + spec_lap_time(cfg,
                crate::strategy::spec_compound_for_lap(start, stops, l as u16),
                spec_tire_age(stops, l as u16), l)
            + spec_pit_loss_at(stops, l as u16)
    }
}

/// Appending a stop at or after `upto` does not change the accumulated
/// cost below it.
pub proof fn lemma_plan_cost_push(
    cfg: OptimizationConfig,
    start: TireCompound,
    stops: Seq<PitStop>,
    ns: PitStop,
    upto: int,
)
    requires
        upto <= ns.lap.0,
        upto <= 65536,
    ensures
        spec_plan_cost(cfg, start, stops.push(ns), upto) == spec_plan_cost(cfg, start, stops, upto),
    decreases upto,
{
    if upto > 1 {
        let l = upto - 1;
        lemma_plan_cost_push(cfg, start, stops, ns, l);
        assert(stops.push(ns).drop_last() =~= stops);
        assert(stops.push(ns).last() == ns);
        assert(!(ns.lap.0 < l as u16));
        assert(crate::strategy::spec_compound_for_lap(start, stops.push(ns), l as u16)
            == crate::strategy::spec_compound_for_lap(start, stops, l as u16));
        assert(spec_last_stop_lap_before(stops.push(ns), l as u16)
            == spec_last_stop_lap_before(stops, l as u16));
        assert(ns.lap.0 != l as u16);
        assert(spec_pit_loss_at(stops.push(ns), l as u16)
            == spec_pit_loss_at(stops, l as u16));
    }
}

/// The compound in use during stint `k` of a plan.
pub open spec fn spec_stint_compound(
    cfg: OptimizationConfig,
    stops: Seq<PitStop>,
    k: int,
) -> TireCompound {
    if k == 0 {
        cfg.available_compounds@[0]
    } else {
        stops[k - 1].compound
    }
}

/// The first lap of stint `k` of a plan.
pub open spec fn spec_stint_first(stops: Seq<PitStop>, k: int) -> int {
    if k == 0 {
        1
    } else {
        stops[k - 1].lap.0 + 1
    }
}

/// The last lap of stint `k` of a plan.
pub open spec fn spec_stint_last(cfg: OptimizationConfig, stops: Seq<PitStop>, k: int) -> int {
    if k < stops.len() {
        stops[k].lap.0 as int
    } else {
        cfg.total_laps as int
    }
}

/// Whether a per-stint lap-time table matches the lap-time model for the
/// given plan: one row per stint, and each entry the predicted time of its
/// lap with the stint's compound and the tire age within the stint.
pub open spec fn expected_times_ok(
    cfg: OptimizationConfig,
    stops: Seq<PitStop>,
    table: Seq<Vec<i64>>,
) -> bool {
    &&& table.len() == stops.len() + 1
    &&& forall|k: int| 0 <= k <= stops.len()
            ==> (#[trigger] table[k])@.len()
                == spec_stint_last(cfg, stops, k) - spec_stint_first(stops, k) + 1
    &&& forall|k: int, m: int| #![trigger table[k]@[m]] 0 <= k <= stops.len()
            && 0 <= m < spec_stint_last(cfg, stops, k) - spec_stint_first(stops, k) + 1
            ==> table[k]@[m] == spec_lap_time(cfg,
                    spec_stint_compound(cfg, stops, k), m + 1, spec_stint_first(stops, k) + m)
}

/// Expected lap times per stint (milliseconds) for a pit plan.
pub fn calculate_expected_lap_times(
    pit_stops: &Vec<PitStop>,
    config: &OptimizationConfig,
) -> (r: Vec<Vec<i64>>)
    requires
        config.limits(),
        config.total_laps >= 1,
        config.available_compounds@.len() >= 1,
        crate::strategy::stops_strictly_increasing(pit_stops@),
        forall|k: int| 0 <= k < pit_stops@.len()
            ==> 1 <= #[trigger] pit_stops@[k].lap.0 && pit_stops@[k].lap.0 + 1 <= config.total_laps,
        pit_stops@.len() <= 255,
    ensures
        expected_times_ok(*config, pit_stops@, r@),
{
    let mut table: Vec<Vec<i64>> = Vec::new();
    let n_stops: usize = pit_stops.len();
    let mut k: usize = 0;
    while k <= n_stops
        invariant
            config.limits(),
            config.total_laps >= 1,
            config.available_compounds@.len() >= 1,
            crate::strategy::stops_strictly_increasing(pit_stops@),
            forall|j: int| 0 <= j < pit_stops@.len()
                ==> 1 <= #[trigger] pit_stops@[j].lap.0
                    && pit_stops@[j].lap.0 + 1 <= config.total_laps,
            pit_stops@.len() <= 255,
            n_stops == pit_stops@.len(),
            0 <= k <= n_stops + 1,
            table@.len() == k,
            forall|j: int| 0 <= j < k
                ==> (#[trigger] table@[j])@.len()
                    == spec_stint_last(*config, pit_stops@, j) - spec_stint_first(pit_stops@, j) + 1,
            forall|j: int, m: int| #![trigger table@[j]@[m]] 0 <= j < k
                && 0 <= m < spec_stint_last(*config, pit_stops@, j)
                    - spec_stint_first(pit_stops@, j) + 1
                ==> table@[j]@[m] == spec_lap_time(*config,
                        spec_stint_compound(*config, pit_stops@, j), m + 1,
                        spec_stint_first(pit_stops@, j) + m),
        decreases n_stops + 1 - k,
    {
        let compound: TireCompound = if k == 0 {
            config.available_compounds[0]
        } else {
            pit_stops[k - 1].compound
        };
        let first_lap: u16 = if k == 0 { 1 } else { pit_stops[k - 1].lap.0 + 1 };
        let last_lap: u16 = if k < n_stops { pit_stops[k].lap.0 } else { config.total_laps };
        proof {
            assert(first_lap as int == spec_stint_first(pit_stops@, k as int));
            assert(last_lap as int == spec_stint_last(*config, pit_stops@, k as int));
            assert(first_lap <= last_lap) by {
                if k > 0 && k < n_stops {
                    assert(pit_stops@[k as int - 1].lap.0 < pit_stops@[k as int].lap.0);
                }
            }
        }
        let stint_len: usize = (last_lap - first_lap) as usize + 1;
        let mut stint: Vec<i64> = Vec::new();
        let mut m: usize = 0;
        while m < stint_len
            invariant
                config.limits(),
                1 <= first_lap,
                first_lap <= last_lap,
                last_lap <= config.total_laps,
                stint_len == last_lap - first_lap + 1,
                0 <= m <= stint_len,
                stint@.len() == m,
                forall|i: int| 0 <= i < m
                    ==> #[trigger] stint@[i] == spec_lap_time(*config, compound, i + 1,
                            first_lap + i),
            decreases stint_len - m,
        {
            let lap: u16 = first_lap + m as u16;
            let age: u16 = m as u16 + 1;
            let t = calculate_lap_time(compound, age, config, lap);
            stint.push(t);
            m = m + 1;
        }
        table.push(stint);
        proof {
            assert(spec_stint_compound(*config, pit_stops@, k as int) == compound);
        }
        k = k + 1;
    }
    table
}

/// Bounds of the accumulated plan cost.
pub proof fn lemma_plan_cost_bounds(
    cfg: OptimizationConfig,
    start: TireCompound,
    stops: Seq<PitStop>,
    upto: int,
)
    requires
        cfg.limits(),
        forall|i: int| 0 <= i < stops.len() ==> #[trigger] stops[i].pit_loss <= ESTIMATE_LIMIT,
        stops.len() <= 255,
        0 <= upto <= cfg.total_laps + 1,
    ensures
        upto >= 1 ==> -400 * (upto - 1)
            <= spec_plan_cost(cfg, start, stops, upto)
            <= (upto - 1) * (LAP_TIME_LIMIT + 765000000),
        upto < 1 ==> spec_plan_cost(cfg, start, stops, upto) == 0,
    decreases upto,
{
    if upto > 1 {
        let l = upto - 1;
        lemma_plan_cost_bounds(cfg, start, stops, l);
        let c = crate::strategy::spec_compound_for_lap(start, stops, l as u16);
        let age = spec_tire_age(stops, l as u16);
        lemma_last_stop_lap_before_bound(stops, l as u16);
        lemma_lap_time_bounds(cfg, c, age, l);
        lemma_pit_loss_at_bound(stops, l as u16);
        assert(stops.len() * ESTIMATE_LIMIT <= 255 * ESTIMATE_LIMIT) by (nonlinear_arith)
            requires stops.len() <= 255 && ESTIMATE_LIMIT >= 0;
        assert((l - 1) * (LAP_TIME_LIMIT + 765000000) + (LAP_TIME_LIMIT + 765000000)
            == l * (LAP_TIME_LIMIT + 765000000)) by (nonlinear_arith);
    }
}

/// Whether a compound appears in the configured list.
pub open spec fn in_available(cfg: OptimizationConfig, compound: TireCompound) -> bool {
    exists|j: int| 0 <= j < cfg.available_compounds@.len()
        && cfg.available_compounds@[j] == compound
}

/// The compound on the car just before stop `k` of a plan.
pub open spec fn spec_compound_before_stop(
    start: TireCompound,
    stops: Seq<PitStop>,
    k: int,
) -> TireCompound {
    if k == 0 {
        start
    } else {
        stops[k - 1].compound
    }
}

/// The compound on the car after the last stop of a plan.
pub open spec fn spec_compound_at_state(start: TireCompound, stops: Seq<PitStop>) -> TireCompound {
    if stops.len() == 0 {
        start
    } else {
        stops.last().compound
    }
}

/// Whether a stop on `lap` leaving compound `prev` falls inside the pit
/// window for that compound.
pub open spec fn window_ok(cfg: OptimizationConfig, lap: u16, prev: TireCompound) -> bool {
    let adj = spec_adjusted_life(prev, cfg.degradation_factors);
    let cap = (cfg.total_laps - 1) as int;
    &&& lap as int >= vstd::math::min(lap + adj * 70 / 100, cap)
    &&& lap as int <= vstd::math::min(lap + adj * 95 / 100, cap)
}

/// All the facts the optimizer guarantees of stop `k` of a plan built
/// before arriving at `lap_bound`: the stop lies inside the race and the
/// search horizon, fits an available compound different from the one it
/// leaves, falls in that compound's pit window, and carries the model's
/// time loss, reason, and confidence.
pub open spec fn stop_ok(
    cfg: OptimizationConfig,
    start: TireCompound,
    stops: Seq<PitStop>,
    k: int,
    lap_bound: int,
) -> bool {
    let ps = stops[k];
    let prev = spec_compound_before_stop(start, stops, k);
    &&& 1 <= ps.lap.0
    &&& (ps.lap.0 as int) < lap_bound
    &&& ps.lap.0 + 1 <= cfg.total_laps
    &&& in_available(cfg, ps.compound)
    &&& ps.compound != prev
    &&& ps.pit_loss == spec_estimate_time_loss(cfg, ps.lap.0)
    &&& ps.reason == spec_pit_reason(cfg.total_laps, ps.lap.0, k)
    &&& ps.confidence == 850
    &&& window_ok(cfg, ps.lap.0, prev)
}

/// The dual-compound (or wet-tire) rule for a plan given its starting
/// compound.
pub open spec fn spec_plan_diversity(start: TireCompound, stops: Seq<PitStop>) -> bool {
    ||| exists|k: int| 0 <= k < stops.len() && (#[trigger] stops[k]).compound != start
    ||| start.spec_is_wet_weather()
    ||| exists|k: int| 0 <= k < stops.len() && (#[trigger] stops[k]).compound.spec_is_wet_weather()
}

/// Check a pit plan against the minimum stop count and the dual-compound
/// rule, with the first available compound as the starting compound.
pub fn is_valid_strategy(pit_stops: &Vec<PitStop>, config: &OptimizationConfig) -> (r: bool)
    requires
        config.available_compounds@.len() >= 1,
    ensures
        r == (pit_stops@.len() >= config.min_pit_stops
            && spec_plan_diversity(config.available_compounds@[0], pit_stops@)),
{
    if pit_stops.len() < config.min_pit_stops as usize {
        return false;
    }
    let starting = config.available_compounds[0];
    let mut diverse = starting.is_wet_weather();
    let mut i: usize = 0;
    while i < pit_stops.len()
        invariant
            0 <= i <= pit_stops@.len(),
            diverse == {
                ||| exists|k: int| 0 <= k < i && (#[trigger] pit_stops@[k]).compound != starting
                ||| starting.spec_is_wet_weather()
                ||| exists|k: int| 0 <= k < i
                        && (#[trigger] pit_stops@[k]).compound.spec_is_wet_weather()
            },
        decreases pit_stops@.len() - i,
    {
        let c = pit_stops[i].compound;
        if c != starting || c.is_wet_weather() {
            diverse = true;
        }
        i = i + 1;
    }
    diverse
}

/// Bounds of the estimated pit-stop time loss.
pub proof fn lemma_estimate_time_loss_bounds(cfg: OptimizationConfig, lap: u16)
    requires
        cfg.limits(),
        1 <= cfg.total_laps,
        lap <= cfg.total_laps,
    ensures
        500 <= spec_estimate_time_loss(cfg, lap) <= ESTIMATE_LIMIT,
{
    let base_loss = cfg.pit_lane_time_loss + cfg.tire_change_time;
    let total = cfg.total_laps as int;
    let remaining = total - lap;
    assert(remaining * 100000 <= total * 100000) by (nonlinear_arith)
        requires remaining <= total;
    assert(remaining * 100000 >= 0) by (nonlinear_arith)
        requires remaining >= 0;
    assert(total * 100000 / total == 100000) by (nonlinear_arith)
        requires total >= 1;
    lemma_div_is_ordered(remaining * 100000, total * 100000, total);
    lemma_div_is_ordered(0, remaining * 100000, total);
    let fuel_factor_micro = 1000000 + (remaining * 100000) / total;
    assert(1000000 <= fuel_factor_micro <= 1100000);
    assert(base_loss * fuel_factor_micro <= 2200000000000) by (nonlinear_arith)
        requires 0 <= base_loss <= 2000000 && 0 <= fuel_factor_micro <= 1100000;
    assert(base_loss * fuel_factor_micro / 1000000 <= 2200000) by (nonlinear_arith)
        requires base_loss * fuel_factor_micro <= 2200000000000;
    assert(base_loss * fuel_factor_micro >= 0) by (nonlinear_arith)
        requires base_loss >= 0 && fuel_factor_micro >= 0;
    assert(base_loss * fuel_factor_micro / 1000000 >= 0) by (nonlinear_arith)
        requires base_loss * fuel_factor_micro >= 0;
}

/// One cell of the dynamic-programming table: the best accumulated time
/// found so far for a state, with the pit plan that achieves it.
struct DpEntry {
    /// Best accumulated time to this state (milliseconds).
    best_time: i64,
    /// Pit stops taken to reach this state.
    stops: Vec<PitStop>,
}

/// The table entry stored for state `(lap, s, ci)` describes a plan of
/// exactly `s` stops reaching `lap` on compound `ci`, priced by the plan
/// cost model.
pub open spec fn entry_ok(
    cfg: OptimizationConfig,
    lap: int,
    s: int,
    ci: int,
    stops: Seq<PitStop>,
    best_time: int,
) -> bool {
    let start = cfg.available_compounds@[0];
    &&& stops.len() == s
    &&& crate::strategy::stops_strictly_increasing(stops)
    &&& forall|k: int| 0 <= k < stops.len() ==> #[trigger] stop_ok(cfg, start, stops, k, lap)
    &&& spec_compound_at_state(start, stops) == cfg.available_compounds@[ci]
    &&& best_time == spec_plan_cost(cfg, start, stops, lap)
}

/// Flat size of the table: one cell per (lap, stop count, compound index).
pub open spec fn spec_dims(cfg: OptimizationConfig) -> int {
    (cfg.total_laps + 1) * (cfg.max_pit_stops + 1) * cfg.available_compounds@.len()
}

/// Flat index of a state.
pub open spec fn spec_dp_index(cfg: OptimizationConfig, lap: int, s: int, ci: int) -> int {
    (lap * (cfg.max_pit_stops + 1) + s) * cfg.available_compounds@.len() + ci
}

/// Lap coordinate of a flat index.
pub open spec fn spec_lap_of(cfg: OptimizationConfig, j: int) -> int {
    j / ((cfg.max_pit_stops + 1) * cfg.available_compounds@.len() as int)
}

/// Stop-count coordinate of a flat index.
pub open spec fn spec_stops_of(cfg: OptimizationConfig, j: int) -> int {
    (j / cfg.available_compounds@.len() as int) % (cfg.max_pit_stops + 1)
}

/// Compound coordinate of a flat index.
pub open spec fn spec_ci_of(cfg: OptimizationConfig, j: int) -> int {
    j % cfg.available_compounds@.len() as int
}

/// The flat index is injective on in-range states: its coordinates recover
/// the state.
pub proof fn lemma_dp_index_decompose(cfg: OptimizationConfig, lap: int, s: int, ci: int)
    requires
        cfg.available_compounds@.len() >= 1,
        0 <= lap <= cfg.total_laps,
        0 <= s <= cfg.max_pit_stops,
        0 <= ci < cfg.available_compounds@.len(),
    ensures
        0 <= spec_dp_index(cfg, lap, s, ci) < spec_dims(cfg),
        spec_lap_of(cfg, spec_dp_index(cfg, lap, s, ci)) == lap,
        spec_stops_of(cfg, spec_dp_index(cfg, lap, s, ci)) == s,
        spec_ci_of(cfg, spec_dp_index(cfg, lap, s, ci)) == ci,
{
    let nc = cfg.available_compounds@.len() as int;
    let ns = cfg.max_pit_stops + 1;
    let q1 = lap * ns + s;
    let j = q1 * nc + ci;
    assert(j == spec_dp_index(cfg, lap, s, ci));
    assert(q1 >= 0) by (nonlinear_arith)
        requires q1 == lap * ns + s && lap >= 0 && ns >= 1 && s >= 0;
    assert(j >= 0) by (nonlinear_arith)
        requires j == q1 * nc + ci && q1 >= 0 && nc >= 1 && ci >= 0;
    vstd::arithmetic::div_mod::lemma_fundamental_div_mod_converse(j, nc, q1, ci);
    assert(j / nc == q1 && j % nc == ci);
    vstd::arithmetic::div_mod::lemma_fundamental_div_mod_converse(q1, ns, lap, s);
    assert(q1 / ns == lap && q1 % ns == s);
    assert(spec_stops_of(cfg, j) == s);
    assert(spec_ci_of(cfg, j) == ci);
    let r2 = s * nc + ci;
    assert(j == lap * (ns * nc) + r2) by (nonlinear_arith)
        requires j == (lap * ns + s) * nc + ci && r2 == s * nc + ci;
    assert(0 <= r2 < ns * nc) by (nonlinear_arith)
        requires r2 == s * nc + ci && 0 <= s < ns && 0 <= ci < nc;
    assert(ns * nc != 0) by (nonlinear_arith)
        requires ns >= 1 && nc >= 1;
    vstd::arithmetic::div_mod::lemma_fundamental_div_mod_converse(j, ns * nc, lap, r2);
    assert(spec_lap_of(cfg, j) == lap);
    assert(j < spec_dims(cfg)) by (nonlinear_arith)
        requires
            j == lap * (ns * nc) + r2,
            r2 < ns * nc,
            lap <= cfg.total_laps,
            ns * nc >= 1,
            spec_dims(cfg) == (cfg.total_laps + 1) * ns * nc,
    ;
}

/// Flat index of a state, with its coordinate facts.
fn dp_index(config: &OptimizationConfig, lap: u16, s: u8, ci: usize) -> (j: usize)
    requires
        1 <= config.available_compounds@.len() <= 8,
        lap <= config.total_laps,
        s <= config.max_pit_stops,
        ci < config.available_compounds@.len(),
    ensures
        j == spec_dp_index(*config, lap as int, s as int, ci as int),
        j < spec_dims(*config),
        spec_lap_of(*config, j as int) == lap,
        spec_stops_of(*config, j as int) == s,
        spec_ci_of(*config, j as int) == ci,
{
    proof {
        lemma_dp_index_decompose(*config, lap as int, s as int, ci as int);
        assert(lap as int * (config.max_pit_stops + 1) <= 16776960) by (nonlinear_arith)
            requires lap <= 65535 && config.max_pit_stops <= 255;
        assert(lap as int * (config.max_pit_stops + 1) >= 0) by (nonlinear_arith)
            requires lap >= 0 && config.max_pit_stops >= 0;
        assert((lap as int * (config.max_pit_stops + 1) + s) * config.available_compounds@.len()
            <= 134217728) by (nonlinear_arith)
            requires
                0 <= lap as int * (config.max_pit_stops + 1) + s <= 16777215,
                config.available_compounds@.len() <= 8,
        ;
        assert((lap as int * (config.max_pit_stops + 1) + s) * config.available_compounds@.len()
            >= 0) by (nonlinear_arith)
            requires
                lap as int * (config.max_pit_stops + 1) + s >= 0,
                config.available_compounds@.len() >= 0,
        ;
    }
    let ncomp: usize = config.available_compounds.len();
    (lap as usize * (config.max_pit_stops as usize + 1) + s as usize) * ncomp + ci
}

/// Relax one table cell: keep the faster of the existing entry and the
/// candidate.
fn dp_update(dp: &mut Vec<Option<DpEntry>>, j: usize, best_time: i64, stops: Vec<PitStop>)
    requires
        j < old(dp)@.len(),
    ensures
        final(dp)@.len() == old(dp)@.len(),
        forall|j2: int| 0 <= j2 < old(dp)@.len() && j2 != j ==> final(dp)@[j2] == old(dp)@[j2],
        final(dp)@[j as int] is Some,
        final(dp)@[j as int] == old(dp)@[j as int]
            || (final(dp)@[j as int] matches Some(e)
                && e.best_time == best_time && e.stops@ == stops@),
{
    let replace: bool = match &dp[j] {
        Some(existing) => best_time < existing.best_time,
        None => true,
    };
    if replace {
        let ghost v = stops@;
        dp.set(j, Some(DpEntry { best_time, stops }));
        proof {
            assert(final(dp)@[j as int] matches Some(e)
                && e.best_time == best_time && e.stops@ == v);
        }
    }
}

/// Copy of a pit plan.
fn copy_stops(stops: &Vec<PitStop>) -> (r: Vec<PitStop>)
    ensures
        r@ == stops@,
{
    let mut r: Vec<PitStop> = Vec::new();
    let mut i: usize = 0;
    while i < stops.len()
        invariant
            0 <= i <= stops@.len(),
            r@ == stops@.take(i as int),
        decreases stops@.len() - i,
    {
        r.push(stops[i]);
        proof {
            assert(stops@.take(i + 1) =~= stops@.take(i as int).push(stops@[i as int]));
        }
        i = i + 1;
    }
    proof {
        assert(stops@.take(i as int) =~= stops@);
    }
    r
}

/// The full table invariant: one cell per state, and every occupied cell
/// describes a plan that reaches its state at its recorded cost.
spec fn table_ok(cfg: OptimizationConfig, dp: Seq<Option<DpEntry>>) -> bool {
    &&& dp.len() == spec_dims(cfg)
    &&& forall|j: int| 0 <= j < dp.len()
            ==> ((#[trigger] dp[j]) matches Some(e)
                ==> entry_ok(cfg, spec_lap_of(cfg, j), spec_stops_of(cfg, j),
                        spec_ci_of(cfg, j), e.stops@, e.best_time as int))
}

/// Everything `optimize_pit_strategy` promises of a returned strategy.
pub open spec fn optimize_result_ok(cfg: OptimizationConfig, st: crate::strategy::RaceStrategy) -> bool {
    let start = cfg.available_compounds@[0];
    let stops = st.pit_stops@;
    &&& st.starting_compound == start
    &&& crate::strategy::stops_strictly_increasing(stops)
    &&& cfg.min_pit_stops <= stops.len() <= cfg.max_pit_stops
    &&& forall|k: int| 0 <= k < stops.len()
            ==> #[trigger] stop_ok(cfg, start, stops, k, cfg.total_laps as int)
    &&& spec_plan_diversity(start, stops)
    &&& st.spec_compound_diversity()
    &&& st.predicted_race_time == spec_plan_cost(cfg, start, stops, cfg.total_laps as int)
    &&& expected_times_ok(cfg, stops, st.expected_lap_times@)
    &&& st.fuel_strategy.starting_fuel == cfg.starting_fuel
    &&& st.fuel_strategy.fuel_saving_per_lap == 0
    &&& st.fuel_strategy.fuel_saving_laps@.len() == 0
    &&& st.fuel_strategy.minimum_buffer == 1000
    &&& st.ers_plan.default_mode == crate::strategy::ErsMode::Medium
    &&& st.ers_plan.lap_overrides@.len() == 0
    &&& st.ers_plan.overtake_laps@.len() == 0
    &&& st.confidence == 800
    &&& st.metadata.num_simulations == 1
    &&& st.metadata.contributing_agents@.len() == 1
    &&& st.metadata.contributing_agents@[0]@ == "pit-strategy-optimizer"@
    &&& st.metadata.version_hash is None
    &&& st.metadata.parent_strategy_id is None
    &&& st.id@.len() == 36
    &&& st.wf()
}

/// A plan meeting the dual-compound rule meets the strategy-level rule
/// once the starting compound is recorded on the strategy.
proof fn lemma_diversity_carries(st: crate::strategy::RaceStrategy)
    requires
        spec_plan_diversity(st.starting_compound, st.pit_stops@),
    ensures
        st.spec_compound_diversity(),
{
    let stops = st.pit_stops@;
    let start = st.starting_compound;
    if exists|k: int| 0 <= k < stops.len() && (#[trigger] stops[k]).compound != start {
    } else if start.spec_is_wet_weather() {
        if start == TireCompound::Intermediate {
            assert(st.spec_uses_compound(TireCompound::Intermediate));
        } else {
            assert(st.spec_uses_compound(TireCompound::Wet));
        }
    } else {
        let k = choose|k: int| 0 <= k < stops.len()
            && (#[trigger] stops[k]).compound.spec_is_wet_weather();
        if stops[k].compound == TireCompound::Intermediate {
            assert(st.spec_uses_compound(TireCompound::Intermediate));
        } else {
            assert(st.spec_uses_compound(TireCompound::Wet));
        }
    }
}

/// Every stop of a well-formed table entry carries a bounded pit loss.
proof fn lemma_entry_losses_bounded(cfg: OptimizationConfig, start: TireCompound, stops: Seq<PitStop>, lap_bound: int)
    requires
        cfg.limits(),
        cfg.total_laps >= 1,
        forall|k: int| 0 <= k < stops.len() ==> #[trigger] stop_ok(cfg, start, stops, k, lap_bound),
    ensures
        forall|k: int| 0 <= k < stops.len() ==> #[trigger] stops[k].pit_loss <= ESTIMATE_LIMIT,
{
    assert forall|k: int| 0 <= k < stops.len() implies #[trigger] stops[k].pit_loss <= ESTIMATE_LIMIT by {
        assert(stop_ok(cfg, start, stops, k, lap_bound));
        lemma_estimate_time_loss_bounds(cfg, stops[k].lap.0);
    }
}

/// Optimize the pit stop strategy by dynamic programming over the state
/// space (lap, stops taken, current compound).
///
/// On success the returned strategy starts on the first available
/// compound, its stops are strictly increasing laps inside the race, each
/// fitted compound is available and differs from the one it replaces, each
/// stop lies in the pit window of the compound it leaves, the stop count
/// respects the configured bounds, the dual-compound (or wet-tire) rule
/// holds, and the predicted race time equals the plan-cost model applied
/// to the returned stops.
#[verifier::rlimit(100)]
pub fn optimize_pit_strategy(config: &OptimizationConfig) -> (r: Result<crate::strategy::RaceStrategy, OptimizationError>)
    requires
        config.limits(),
    ensures
        (config.total_laps == 0)
            <==> r == Err::<crate::strategy::RaceStrategy, OptimizationError>(
                OptimizationError::InvalidConfig(ConfigError::ZeroTotalLaps)),
        (config.total_laps > 0 && config.available_compounds@.len() == 0)
            <==> r == Err::<crate::strategy::RaceStrategy, OptimizationError>(
                OptimizationError::InvalidConfig(ConfigError::NoCompounds)),
        (config.total_laps > 0 && config.available_compounds@.len() > 0
            && config.min_pit_stops > config.max_pit_stops)
            <==> r == Err::<crate::strategy::RaceStrategy, OptimizationError>(
                OptimizationError::InvalidConfig(ConfigError::MinStopsExceedMax)),
        r is Ok ==> config.spec_valid(),
        r is Ok ==> optimize_result_ok(*config, r->Ok_0),
        (config.spec_valid() && config.min_pit_stops == 0
            && config.available_compounds@[0].spec_is_wet_weather()) ==> r is Ok,
        (config.spec_valid() && config.total_laps >= 2 && config.min_pit_stops <= 1
            && config.max_pit_stops >= 1
            && (exists|j: int| 0 <= j < config.available_compounds@.len()
                    && #[trigger] config.available_compounds@[j]
                        != config.available_compounds@[0]))
            ==> r is Ok,
{
    if config.total_laps == 0 {
        return Err(OptimizationError::InvalidConfig(ConfigError::ZeroTotalLaps));
    }
    if config.available_compounds.len() == 0 {
        return Err(OptimizationError::InvalidConfig(ConfigError::NoCompounds));
    }
    if config.min_pit_stops > config.max_pit_stops {
        return Err(OptimizationError::InvalidConfig(ConfigError::MinStopsExceedMax));
    }

    let ghost cfg = *config;
    let ghost promo: bool = config.total_laps >= 2 && config.min_pit_stops <= 1
        && config.max_pit_stops >= 1
        && exists|j: int| 0 <= j < config.available_compounds@.len()
            && #[trigger] config.available_compounds@[j] != config.available_compounds@[0];
    let ghost alt_cj: int = if promo {
        choose|j: int| 0 <= j < config.available_compounds@.len()
            && #[trigger] config.available_compounds@[j] != config.available_compounds@[0]
    } else {
        0
    };
    let ncomp: usize = config.available_compounds.len();
    let total: u16 = config.total_laps;
    let max_stops: u8 = config.max_pit_stops;
    proof {
        assert((total as int + 1) * (max_stops as int + 1) <= 16842752) by (nonlinear_arith)
            requires total <= 65535 && max_stops <= 255;
        assert((total as int + 1) * (max_stops as int + 1) >= 0) by (nonlinear_arith)
            requires total >= 0 && max_stops >= 0;
        assert((total as int + 1) * (max_stops as int + 1) * ncomp <= 134742016)
            by (nonlinear_arith)
            requires 0 <= (total as int + 1) * (max_stops as int + 1) <= 16842752 && ncomp <= 8;
        assert((total as int + 1) * (max_stops as int + 1) * ncomp >= 0) by (nonlinear_arith)
            requires (total as int + 1) * (max_stops as int + 1) >= 0 && ncomp >= 0;
    }
    let dims: usize = (total as usize + 1) * (max_stops as usize + 1) * ncomp;

    let mut dp: Vec<Option<DpEntry>> = Vec::new();
    let mut fill: usize = 0;
    while fill < dims
        invariant
            0 <= fill <= dims,
            dp@.len() == fill,
            forall|j: int| 0 <= j < fill ==> (#[trigger] dp@[j]) is None,
        decreases dims - fill,
    {
        dp.push(None);
        fill = fill + 1;
    }
    proof {
        assert(dp@.len() == spec_dims(cfg));
        assert(table_ok(cfg, dp@));
    }

    let starting_compound = config.available_compounds[0];
    let base_idx = dp_index(config, 1, 0, 0);
    dp.set(base_idx, Some(DpEntry { best_time: 0, stops: Vec::new() }));
    proof {
        let e0 = dp@[base_idx as int]->Some_0;
        assert(e0.stops@.len() == 0);
        assert(spec_plan_cost(cfg, starting_compound, e0.stops@, 1) == 0);
        assert(entry_ok(cfg, 1, 0, 0, e0.stops@, e0.best_time as int));
        assert forall|j: int| 0 <= j < dp@.len()
            implies ((#[trigger] dp@[j]) matches Some(e)
                ==> entry_ok(cfg, spec_lap_of(cfg, j), spec_stops_of(cfg, j),
                        spec_ci_of(cfg, j), e.stops@, e.best_time as int)) by {
            if j != base_idx as int {
                assert(dp@[j] is None);
            }
        }
        assert(table_ok(cfg, dp@));
    }

    let mut lap: u16 = 1;
    while lap < total
        invariant
            cfg == *config,
            cfg.limits(),
            cfg.spec_valid(),
            ncomp == cfg.available_compounds@.len(),
            total == cfg.total_laps,
            max_stops == cfg.max_pit_stops,
            starting_compound == cfg.available_compounds@[0],
            1 <= lap <= total,
            dp@.len() == spec_dims(cfg),
            table_ok(cfg, dp@),
            forall|l: int| 1 <= l <= lap
                ==> (#[trigger] dp@[spec_dp_index(cfg, l, 0, 0)]) is Some,
            promo ==> 0 <= alt_cj < ncomp
                && cfg.available_compounds@[alt_cj] != cfg.available_compounds@[0]
                && cfg.total_laps >= 2 && cfg.min_pit_stops <= 1 && cfg.max_pit_stops >= 1,
            (promo && lap == total)
                ==> dp@[spec_dp_index(cfg, total as int, 1, alt_cj)] is Some,
        decreases total - lap,
    {
        let mut s: u16 = 0;
        while s <= max_stops as u16
            invariant
                cfg == *config,
                cfg.limits(),
                cfg.spec_valid(),
                ncomp == cfg.available_compounds@.len(),
                total == cfg.total_laps,
                max_stops == cfg.max_pit_stops,
                starting_compound == cfg.available_compounds@[0],
                1 <= lap < total,
                0 <= s <= max_stops + 1,
                dp@.len() == spec_dims(cfg),
                table_ok(cfg, dp@),
                forall|l: int| 1 <= l <= lap
                    ==> (#[trigger] dp@[spec_dp_index(cfg, l, 0, 0)]) is Some,
                s > 0 ==> dp@[spec_dp_index(cfg, lap + 1, 0, 0)] is Some,
                promo ==> 0 <= alt_cj < ncomp
                    && cfg.available_compounds@[alt_cj] != cfg.available_compounds@[0]
                    && cfg.total_laps >= 2 && cfg.min_pit_stops <= 1
                    && cfg.max_pit_stops >= 1,
                (promo && lap + 1 == total && s > 0)
                    ==> dp@[spec_dp_index(cfg, total as int, 1, alt_cj)] is Some,
            decreases max_stops + 1 - s,
        {
            let mut ci: usize = 0;
            while ci < ncomp
                invariant
                    cfg == *config,
                    cfg.limits(),
                    cfg.spec_valid(),
                    ncomp == cfg.available_compounds@.len(),
                    total == cfg.total_laps,
                    max_stops == cfg.max_pit_stops,
                    starting_compound == cfg.available_compounds@[0],
                    1 <= lap < total,
                    0 <= s <= max_stops,
                    0 <= ci <= ncomp,
                    dp@.len() == spec_dims(cfg),
                    table_ok(cfg, dp@),
                    forall|l: int| 1 <= l <= lap
                        ==> (#[trigger] dp@[spec_dp_index(cfg, l, 0, 0)]) is Some,
                    (s > 0 || ci > 0) ==> dp@[spec_dp_index(cfg, lap + 1, 0, 0)] is Some,
                    promo ==> 0 <= alt_cj < ncomp
                        && cfg.available_compounds@[alt_cj] != cfg.available_compounds@[0]
                        && cfg.total_laps >= 2 && cfg.min_pit_stops <= 1
                        && cfg.max_pit_stops >= 1,
                    (promo && lap + 1 == total && (s > 0 || ci > 0))
                        ==> dp@[spec_dp_index(cfg, total as int, 1, alt_cj)] is Some,
                decreases ncomp - ci,
            {
                let j = dp_index(config, lap, s as u8, ci);
                let occupied = dp[j].is_some();
                let mut cur_time: i64 = 0;
                let mut cur_stops: Vec<PitStop> = Vec::new();
                if occupied {
                    match &dp[j] {
                        Some(e) => {
                            cur_time = e.best_time;
                            cur_stops = copy_stops(&e.stops);
                        }
                        None => {}
                    }
                    proof {
                        assert(entry_ok(cfg, lap as int, s as int, ci as int, cur_stops@,
                            cur_time as int));
                        lemma_entry_losses_bounded(cfg, starting_compound, cur_stops@, lap as int);
                        lemma_plan_cost_bounds(cfg, starting_compound, cur_stops@, lap as int);
                        assert((lap as int - 1) * (LAP_TIME_LIMIT + 765000000)
                            <= 65534 * (LAP_TIME_LIMIT + 765000000)) by (nonlinear_arith)
                            requires lap as int - 1 <= 65534;
                        assert(-400 * (lap as int - 1) >= -26214000) by (nonlinear_arith)
                            requires lap as int - 1 <= 65535 && lap as int - 1 >= 0;
                    }
                    let compound = config.available_compounds[ci];
                    let tire_age = calculate_tire_age(lap, &cur_stops);
                    let lap_time = calculate_lap_time(compound, tire_age, config, lap);

                    // Continue without pitting.
                    let stay_time: i64 = cur_time + lap_time;
                    let j_stay = dp_index(config, lap + 1, s as u8, ci);
                    let ghost pre_stay = dp@;
                    proof {
                        assert forall|k: int| 0 <= k < cur_stops@.len()
                            implies #[trigger] stop_ok(cfg, starting_compound, cur_stops@, k,
                                lap as int + 1) by {
                            assert(stop_ok(cfg, starting_compound, cur_stops@, k, lap as int));
                        }
                        assert forall|k: int| 0 <= k < cur_stops@.len()
                            implies #[trigger] cur_stops@[k].lap.0 != lap by {
                            assert(stop_ok(cfg, starting_compound, cur_stops@, k, lap as int));
                        }
                        lemma_pit_loss_at_absent(cur_stops@, lap);
                        if cur_stops@.len() == 0 {
                            assert(crate::strategy::spec_compound_for_lap(starting_compound,
                                cur_stops@, lap) == starting_compound);
                        } else {
                            assert(stop_ok(cfg, starting_compound, cur_stops@,
                                cur_stops@.len() - 1, lap as int));
                            assert(cur_stops@.last() == cur_stops@[cur_stops@.len() - 1]);
                            assert(crate::strategy::spec_compound_for_lap(starting_compound,
                                cur_stops@, lap) == cur_stops@.last().compound);
                        }
                        assert(crate::strategy::spec_compound_for_lap(starting_compound,
                            cur_stops@, lap) == cfg.available_compounds@[ci as int]);
                        assert(spec_plan_cost(cfg, starting_compound, cur_stops@, lap + 1)
                            == spec_plan_cost(cfg, starting_compound, cur_stops@, lap as int)
                                + spec_lap_time(cfg, cfg.available_compounds@[ci as int],
                                    spec_tire_age(cur_stops@, lap), lap as int)
                                + 0);
                        assert(stay_time == spec_plan_cost(cfg, starting_compound, cur_stops@,
                            lap + 1));
                        assert(entry_ok(cfg, lap as int + 1, s as int, ci as int, cur_stops@,
                            stay_time as int));
                    }
                    let stay_stops = copy_stops(&cur_stops);
                    dp_update(&mut dp, j_stay, stay_time, stay_stops);
                    proof {
                        assert forall|j2: int| 0 <= j2 < dp@.len()
                            implies ((#[trigger] dp@[j2]) matches Some(e)
                                ==> entry_ok(cfg, spec_lap_of(cfg, j2), spec_stops_of(cfg, j2),
                                        spec_ci_of(cfg, j2), e.stops@, e.best_time as int)) by {
                            if j2 == j_stay as int {
                                if dp@[j2] != pre_stay[j2] {
                                    assert(dp@[j2] matches Some(e) && e.best_time == stay_time
                                        && e.stops@ == cur_stops@);
                                }
                            }
                        }
                        assert(table_ok(cfg, dp@));
                        assert forall|l: int| 1 <= l <= lap
                            implies (#[trigger] dp@[spec_dp_index(cfg, l, 0, 0)]) is Some by {
                            lemma_dp_index_decompose(cfg, l, 0, 0);
                            if spec_dp_index(cfg, l, 0, 0) != j_stay as int {
                                assert(dp@[spec_dp_index(cfg, l, 0, 0)]
                                    == pre_stay[spec_dp_index(cfg, l, 0, 0)]);
                            }
                        }
                        if s == 0 && ci == 0 {
                            assert(j_stay as int == spec_dp_index(cfg, lap + 1, 0, 0));
                        }
                        if s > 0 || ci > 0 {
                            lemma_dp_index_decompose(cfg, lap + 1, 0, 0);
                            if spec_dp_index(cfg, lap + 1, 0, 0) != j_stay as int {
                                assert(dp@[spec_dp_index(cfg, lap + 1, 0, 0)]
                                    == pre_stay[spec_dp_index(cfg, lap + 1, 0, 0)]);
                            }
                        }
                        if promo && lap + 1 == total
                            && pre_stay[spec_dp_index(cfg, total as int, 1, alt_cj)] is Some {
                            lemma_dp_index_decompose(cfg, total as int, 1, alt_cj);
                            if spec_dp_index(cfg, total as int, 1, alt_cj) != j_stay as int {
                                assert(dp@[spec_dp_index(cfg, total as int, 1, alt_cj)]
                                    == pre_stay[spec_dp_index(cfg, total as int, 1, alt_cj)]);
                            }
                        }
                    }

                    // Pit for a different compound.
                    if s < max_stops as u16 {
                        let window = calculate_pit_window(lap, compound, config);
                        proof {
                            if lap + 1 == total {
                                assert(spec_adjusted_life(compound,
                                    cfg.degradation_factors) >= 0);
                                assert(window.earliest_lap <= lap);
                                assert(window.latest_lap >= lap);
                            }
                        }
                        if lap >= window.earliest_lap && lap <= window.latest_lap {
                            let pit_loss = estimate_time_loss(config, lap);
                            let reason = determine_pit_reason(lap, config, cur_stops.len());
                            let mut cj: usize = 0;
                            while cj < ncomp
                                invariant
                                    cfg == *config,
                                    cfg.limits(),
                                    cfg.spec_valid(),
                                    ncomp == cfg.available_compounds@.len(),
                                    total == cfg.total_laps,
                                    max_stops == cfg.max_pit_stops,
                                    starting_compound == cfg.available_compounds@[0],
                                    1 <= lap < total,
                                    0 <= s < max_stops,
                                    0 <= ci < ncomp,
                                    0 <= cj <= ncomp,
                                    dp@.len() == spec_dims(cfg),
                                    table_ok(cfg, dp@),
                                    forall|l: int| 1 <= l <= lap
                                        ==> (#[trigger] dp@[spec_dp_index(cfg, l, 0, 0)]) is Some,
                                    dp@[spec_dp_index(cfg, lap + 1, 0, 0)] is Some,
                                    compound == cfg.available_compounds@[ci as int],
                                    entry_ok(cfg, lap as int, s as int, ci as int, cur_stops@,
                                        cur_time as int),
                                    lap_time == spec_lap_time(cfg, compound,
                                        spec_tire_age(cur_stops@, lap), lap as int),
                                    -400 <= lap_time <= LAP_TIME_LIMIT,
                                    -26214000 <= cur_time
                                        <= 65534 * (LAP_TIME_LIMIT + 765000000),
                                    pit_loss == spec_estimate_time_loss(cfg, lap),
                                    500 <= pit_loss <= ESTIMATE_LIMIT,
                                    reason == spec_pit_reason(cfg.total_laps, lap,
                                        cur_stops@.len() as int),
                                    window_ok(cfg, lap, compound),
                                    promo ==> 0 <= alt_cj < ncomp
                                        && cfg.available_compounds@[alt_cj]
                                            != cfg.available_compounds@[0]
                                        && cfg.total_laps >= 2 && cfg.min_pit_stops <= 1
                                        && cfg.max_pit_stops >= 1,
                                    (promo && lap + 1 == total
                                        && (s > 0 || ci > 0 || cj > alt_cj))
                                        ==> dp@[spec_dp_index(cfg, total as int, 1, alt_cj)]
                                            is Some,
                                decreases ncomp - cj,
                            {
                                let new_compound = config.available_compounds[cj];
                                if new_compound != compound {
                                    let mut new_stops = copy_stops(&cur_stops);
                                    let ns = PitStop {
                                        lap: LapNumber(lap),
                                        compound: new_compound,
                                        pit_loss,
                                        reason,
                                        confidence: 850,
                                    };
                                    new_stops.push(ns);
                                    let pit_time: i64 = cur_time + lap_time + pit_loss as i64;
                                    let j_pit = dp_index(config, lap + 1, s as u8 + 1, cj);
                                    let ghost pre_pit = dp@;
                                    proof {
                                        let pushed = cur_stops@.push(ns);
                                        assert(new_stops@ == pushed);
                                        assert forall|k: int| 0 <= k < cur_stops@.len()
                                            implies #[trigger] stop_ok(cfg, starting_compound,
                                                cur_stops@, k, lap as int) by {}
                                        // the old stops keep their facts in the pushed plan
                                        assert forall|k: int| 0 <= k < cur_stops@.len()
                                            implies #[trigger] stop_ok(cfg, starting_compound,
                                                pushed, k, lap as int + 1) by {
                                            assert(stop_ok(cfg, starting_compound, cur_stops@,
                                                k, lap as int));
                                            assert(pushed[k] == cur_stops@[k]);
                                            if k > 0 {
                                                assert(pushed[k - 1] == cur_stops@[k - 1]);
                                            }
                                        }
                                        // the new stop's facts
                                        assert(pushed[cur_stops@.len() as int] == ns);
                                        if cur_stops@.len() > 0 {
                                            assert(cur_stops@.last()
                                                == cur_stops@[cur_stops@.len() - 1]);
                                            assert(pushed[cur_stops@.len() - 1]
                                                == cur_stops@[cur_stops@.len() - 1]);
                                        }
                                        assert(spec_compound_before_stop(starting_compound,
                                            pushed, cur_stops@.len() as int) == compound);
                                        assert(in_available(cfg, new_compound)) by {
                                            assert(cfg.available_compounds@[cj as int]
                                                == new_compound);
                                        }
                                        assert(stop_ok(cfg, starting_compound, pushed,
                                            cur_stops@.len() as int, lap as int + 1));
                                        // strictly increasing
                                        assert forall|a: int, b: int| 0 <= a < b < pushed.len()
                                            implies #[trigger] pushed[a].lap.0
                                                < #[trigger] pushed[b].lap.0 by {
                                            if b < cur_stops@.len() {
                                                assert(crate::strategy::stops_strictly_increasing(
                                                    cur_stops@));
                                                assert(cur_stops@[a].lap.0 < cur_stops@[b].lap.0);
                                            } else {
                                                assert(stop_ok(cfg, starting_compound,
                                                    cur_stops@, a, lap as int));
                                                assert(pushed[b] == ns);
                                            }
                                        }
                                        // cost of the extended plan
                                        lemma_plan_cost_push(cfg, starting_compound, cur_stops@,
                                            ns, lap as int);
                                        assert(pushed.drop_last() =~= cur_stops@);
                                        assert(pushed.last() == ns);
                                        assert(crate::strategy::spec_compound_for_lap(
                                            starting_compound, pushed, lap)
                                            == crate::strategy::spec_compound_for_lap(
                                                starting_compound, cur_stops@, lap));
                                        if cur_stops@.len() == 0 {
                                            assert(crate::strategy::spec_compound_for_lap(
                                                starting_compound, cur_stops@, lap)
                                                == starting_compound);
                                        } else {
                                            assert(stop_ok(cfg, starting_compound, cur_stops@,
                                                cur_stops@.len() - 1, lap as int));
                                            assert(crate::strategy::spec_compound_for_lap(
                                                starting_compound, cur_stops@, lap)
                                                == cur_stops@.last().compound);
                                        }
                                        assert(spec_last_stop_lap_before(pushed, lap)
                                            == spec_last_stop_lap_before(cur_stops@, lap));
                                        assert forall|k: int| 0 <= k < cur_stops@.len()
                                            implies #[trigger] cur_stops@[k].lap.0 != lap by {
                                            assert(stop_ok(cfg, starting_compound, cur_stops@,
                                                k, lap as int));
                                        }
                                        lemma_pit_loss_at_absent(cur_stops@, lap);
                                        assert(spec_pit_loss_at(pushed, lap)
                                            == pit_loss as int);
                                        assert(spec_plan_cost(cfg, starting_compound, pushed,
                                            lap + 1)
                                            == spec_plan_cost(cfg, starting_compound, pushed,
                                                lap as int)
                                                + spec_lap_time(cfg, compound,
                                                    spec_tire_age(pushed, lap), lap as int)
                                                + pit_loss);
                                        assert(spec_tire_age(pushed, lap)
                                            == spec_tire_age(cur_stops@, lap));
                                        assert(pit_time == spec_plan_cost(cfg,
                                            starting_compound, pushed, lap + 1));
                                        assert(spec_compound_at_state(starting_compound, pushed)
                                            == cfg.available_compounds@[cj as int]);
                                        assert(entry_ok(cfg, lap as int + 1, s as int + 1,
                                            cj as int, pushed, pit_time as int));
                                    }
                                    dp_update(&mut dp, j_pit, pit_time, new_stops);
                                    proof {
                                        let pushed = cur_stops@.push(ns);
                                        assert forall|j2: int| 0 <= j2 < dp@.len()
                                            implies ((#[trigger] dp@[j2]) matches Some(e)
                                                ==> entry_ok(cfg, spec_lap_of(cfg, j2),
                                                        spec_stops_of(cfg, j2),
                                                        spec_ci_of(cfg, j2), e.stops@,
                                                        e.best_time as int)) by {
                                            if j2 == j_pit as int {
                                                if dp@[j2] != pre_pit[j2] {
                                                    assert(dp@[j2] matches Some(e)
                                                        && e.best_time == pit_time
                                                        && e.stops@ == pushed);
                                                }
                                            }
                                        }
                                        assert(table_ok(cfg, dp@));
                                        assert forall|l: int| 1 <= l <= lap
                                            implies (#[trigger] dp@[spec_dp_index(cfg, l, 0, 0)])
                                                is Some by {
                                            lemma_dp_index_decompose(cfg, l, 0, 0);
                                            if spec_dp_index(cfg, l, 0, 0) != j_pit as int {
                                                assert(dp@[spec_dp_index(cfg, l, 0, 0)]
                                                    == pre_pit[spec_dp_index(cfg, l, 0, 0)]);
                                            }
                                        }
                                        lemma_dp_index_decompose(cfg, lap + 1, 0, 0);
                                        if spec_dp_index(cfg, lap + 1, 0, 0) != j_pit as int {
                                            assert(dp@[spec_dp_index(cfg, lap + 1, 0, 0)]
                                                == pre_pit[spec_dp_index(cfg, lap + 1, 0, 0)]);
                                        }
                                        if promo && lap + 1 == total {
                                            lemma_dp_index_decompose(cfg, total as int, 1,
                                                alt_cj);
                                            if s == 0 && ci == 0 && cj == alt_cj {
                                                assert(j_pit as int
                                                    == spec_dp_index(cfg, total as int, 1,
                                                        alt_cj));
                                                assert(dp@[j_pit as int] is Some);
                                            } else if pre_pit[spec_dp_index(cfg,
                                                    total as int, 1, alt_cj)] is Some {
                                                if spec_dp_index(cfg, total as int, 1, alt_cj)
                                                    != j_pit as int {
                                                    assert(dp@[spec_dp_index(cfg,
                                                        total as int, 1, alt_cj)]
                                                        == pre_pit[spec_dp_index(cfg,
                                                            total as int, 1, alt_cj)]);
                                                }
                                            }
                                        }
                                    }
                                }
                                cj = cj + 1;
                            }
                        }
                    }
                }
                ci = ci + 1;
            }
            s = s + 1;
        }
        lap = lap + 1;
    }

    // Select the best final state that satisfies the stop-count and
    // diversity constraints.
    let mut found = false;
    let mut best_time: i64 = 0;
    let mut best_stops: Vec<PitStop> = Vec::new();
    let mut s: u16 = config.min_pit_stops as u16;
    while s <= max_stops as u16
        invariant
            cfg == *config,
            cfg.limits(),
            cfg.spec_valid(),
            ncomp == cfg.available_compounds@.len(),
            total == cfg.total_laps,
            max_stops == cfg.max_pit_stops,
            starting_compound == cfg.available_compounds@[0],
            cfg.min_pit_stops <= s <= max_stops + 1,
            dp@.len() == spec_dims(cfg),
            table_ok(cfg, dp@),
            forall|l: int| 1 <= l <= total
                ==> (#[trigger] dp@[spec_dp_index(cfg, l, 0, 0)]) is Some,
            found ==> {
                &&& cfg.min_pit_stops <= best_stops@.len() <= cfg.max_pit_stops
                &&& crate::strategy::stops_strictly_increasing(best_stops@)
                &&& forall|k: int| 0 <= k < best_stops@.len()
                        ==> #[trigger] stop_ok(cfg, starting_compound, best_stops@, k,
                            total as int)
                &&& spec_plan_diversity(starting_compound, best_stops@)
                &&& best_time == spec_plan_cost(cfg, starting_compound, best_stops@,
                        total as int)
            },
            (cfg.min_pit_stops == 0 && starting_compound.spec_is_wet_weather()
                && s > cfg.min_pit_stops) ==> found,
            promo ==> 0 <= alt_cj < ncomp
                && cfg.available_compounds@[alt_cj] != cfg.available_compounds@[0]
                && cfg.total_laps >= 2 && cfg.min_pit_stops <= 1 && cfg.max_pit_stops >= 1,
            promo ==> dp@[spec_dp_index(cfg, total as int, 1, alt_cj)] is Some,
            (promo && s > 1) ==> found,
        decreases max_stops + 1 - s,
    {
        let mut ci: usize = 0;
        while ci < ncomp
            invariant
                cfg == *config,
                cfg.limits(),
                cfg.spec_valid(),
                ncomp == cfg.available_compounds@.len(),
                total == cfg.total_laps,
                max_stops == cfg.max_pit_stops,
                starting_compound == cfg.available_compounds@[0],
                cfg.min_pit_stops <= s <= max_stops,
                0 <= ci <= ncomp,
                dp@.len() == spec_dims(cfg),
                table_ok(cfg, dp@),
                forall|l: int| 1 <= l <= total
                    ==> (#[trigger] dp@[spec_dp_index(cfg, l, 0, 0)]) is Some,
                found ==> {
                    &&& cfg.min_pit_stops <= best_stops@.len() <= cfg.max_pit_stops
                    &&& crate::strategy::stops_strictly_increasing(best_stops@)
                    &&& forall|k: int| 0 <= k < best_stops@.len()
                            ==> #[trigger] stop_ok(cfg, starting_compound, best_stops@, k,
                                total as int)
                    &&& spec_plan_diversity(starting_compound, best_stops@)
                    &&& best_time == spec_plan_cost(cfg, starting_compound, best_stops@,
                            total as int)
                },
                (cfg.min_pit_stops == 0 && starting_compound.spec_is_wet_weather()
                    && s == cfg.min_pit_stops && ci > 0) ==> found,
                (cfg.min_pit_stops == 0 && starting_compound.spec_is_wet_weather()
                    && s > cfg.min_pit_stops) ==> found,
                promo ==> 0 <= alt_cj < ncomp
                    && cfg.available_compounds@[alt_cj] != cfg.available_compounds@[0]
                    && cfg.total_laps >= 2 && cfg.min_pit_stops <= 1
                    && cfg.max_pit_stops >= 1,
                promo ==> dp@[spec_dp_index(cfg, total as int, 1, alt_cj)] is Some,
                (promo && s > 1) ==> found,
                (promo && s == 1 && ci > alt_cj) ==> found,
            decreases ncomp - ci,
        {
            let j = dp_index(config, total, s as u8, ci);
            let candidate_better: bool;
            let candidate_time: i64;
            match &dp[j] {
                Some(e) => {
                    candidate_better = !found || e.best_time < best_time;
                    candidate_time = e.best_time;
                    if candidate_better && is_valid_strategy(&e.stops, config) {
                        proof {
                            assert(entry_ok(cfg, total as int, s as int, ci as int, e.stops@,
                                e.best_time as int));
                        }
                        best_time = candidate_time;
                        let better_stops = copy_stops(&e.stops);
                        best_stops = better_stops;
                        found = true;
                    }
                }
                None => {}
            }
            proof {
                if cfg.min_pit_stops == 0 && starting_compound.spec_is_wet_weather()
                    && s == 0 && ci == 0 {
                    assert(dp@[spec_dp_index(cfg, total as int, 0, 0)] is Some);
                    assert(found);
                }
                if promo && s == 1 && ci == alt_cj {
                    lemma_dp_index_decompose(cfg, total as int, 1, alt_cj);
                    assert(dp@[j as int] is Some);
                    let e = dp@[j as int]->Some_0;
                    assert(entry_ok(cfg, total as int, 1, alt_cj, e.stops@,
                        e.best_time as int));
                    assert(stop_ok(cfg, starting_compound, e.stops@, 0, total as int));
                    assert(e.stops@[0].compound != starting_compound);
                    assert(spec_plan_diversity(starting_compound, e.stops@));
                    assert(found);
                }
            }
            ci = ci + 1;
        }
        s = s + 1;
    }

    if !found {
        return Err(OptimizationError::Infeasible);
    }

    proof {
        assert forall|k: int| 0 <= k < best_stops@.len()
            implies 1 <= #[trigger] best_stops@[k].lap.0
                && best_stops@[k].lap.0 + 1 <= config.total_laps by {
            assert(stop_ok(cfg, starting_compound, best_stops@, k, total as int));
        }
    }
    let expected_lap_times = calculate_expected_lap_times(&best_stops, config);
    let id = fresh_strategy_id();
    let generated_at = now_unix_seconds();
    let mut contributing_agents: Vec<String> = Vec::new();
    contributing_agents.push("pit-strategy-optimizer".to_owned());
    let result = crate::strategy::RaceStrategy {
        id,
        starting_compound,
        pit_stops: best_stops,
        fuel_strategy: crate::strategy::FuelStrategy {
            starting_fuel: config.starting_fuel,
            fuel_saving_per_lap: 0,
            fuel_saving_laps: Vec::new(),
            minimum_buffer: 1000,
        },
        ers_plan: crate::strategy::ErsDeploymentPlan {
            default_mode: crate::strategy::ErsMode::Medium,
            lap_overrides: Vec::new(),
            overtake_laps: Vec::new(),
        },
        expected_lap_times,
        predicted_race_time: best_time,
        confidence: 800,
        metadata: crate::strategy::StrategyMetadata {
            generated_at,
            num_simulations: 1,
            contributing_agents,
            version_hash: None,
            parent_strategy_id: None,
        },
    };
    proof {
        lemma_diversity_carries(result);
        lemma_entry_losses_bounded(cfg, starting_compound, result.pit_stops@, total as int);
        assert forall|k: int| 0 <= k < result.pit_stops@.len()
            implies #[trigger] result.pit_stops@[k].pit_loss
                <= crate::strategy::PIT_LOSS_LIMIT by {
            assert(result.pit_stops@[k].pit_loss <= ESTIMATE_LIMIT);
        }
        assert(result.wf());
        assert(optimize_result_ok(cfg, result));
    }
    Ok(result)
}

/// Relies on uuid's `Uuid::new_v4` and its hyphenated `Display` form: a
/// fresh random identifier rendered as 36 characters.
#[verifier::external_body]
fn fresh_strategy_id() -> (r: String)
    ensures
        r@.len() == 36,
{
    uuid::Uuid::new_v4().to_string()
}

/// Relies on chrono's `Utc::now` and `DateTime::timestamp` for the current
/// Unix time in seconds; nothing is assumed of the value returned.
#[verifier::external_body]
fn now_unix_seconds() -> i64 {
    chrono::Utc::now().timestamp()
}

} // verus!
