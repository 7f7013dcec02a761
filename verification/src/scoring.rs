//! Strategy comparison and compound-selection scoring.
//!
//! Scores are in thousandths (1000 = a perfect 1.0); risk values are in
//! thousandths as well.

use vstd::prelude::*;
use crate::optimizer::OptimizationConfig;
use crate::strategy::PitStop;
use crate::strategy::PitStopReason;
use crate::strategy::RaceStrategy;
use crate::tire::DegradationFactors;
use crate::tire::TireCharacteristics;
use crate::tire::TireCompound;
use crate::track::Circuit;

verus! {

/// Detailed comparison breakdown. Differences are strategy A minus
/// strategy B.
#[derive(Debug, Clone, PartialEq, Eq, Structural)]
pub struct ComparisonBreakdown {
    /// Tire wear difference (thousandths of a tire's life).
    pub tire_wear_difference: i64,
    /// Fuel efficiency difference (thousandths of a lap per kilogram).
    pub fuel_efficiency_difference: i64,
    /// Pit loss difference (milliseconds).
    pub pit_loss_difference: i64,
    /// Track position risk difference (thousandths).
    pub track_position_risk: i64,
    /// Overtaking opportunity difference (count).
    pub overtaking_opportunities: i64,
}

/// Head-to-head comparison of two strategies.
#[derive(Debug, Clone)]
pub struct StrategyComparison {
    pub strategy_a: RaceStrategy,
    pub strategy_b: RaceStrategy,
    /// Time difference (milliseconds, negative = A is faster).
    pub time_delta: i64,
    /// Risk score difference in thousandths (positive = A is riskier).
    pub risk_delta: i64,
    /// Detailed comparison breakdown.
    pub breakdown: ComparisonBreakdown,
}

/// Risk score of a strategy (thousandths): 100 per stop, 200 per stop on a
/// high-degradation compound, 150 per stop in the final third of the race.
pub open spec fn spec_strategy_risk(stops: Seq<PitStop>, total_laps: u16) -> int
    decreases stops.len(),
{
    if stops.len() == 0 {
        0
    } else {
        let ps = stops.last();
        spec_strategy_risk(stops.drop_last(), total_laps)
            + 100
            + if TireCharacteristics::spec_for_compound(ps.compound).degradation_rate > 15 {
                200int
            } else {
                0int
            }
            + if ps.lap.0 > (total_laps * 2) / 3 { 150int } else { 0int }
    }
}

/// Total tire wear of a strategy (thousandths of a tire's life): for each
/// stint ended by a stop, the stint length times the fitted compound's
/// wear rate times the combined degradation multiplier.
pub open spec fn spec_total_tire_wear(stops: Seq<PitStop>, mult: int) -> int
    decreases stops.len(),
{
    if stops.len() == 0 {
        0
    } else {
        let ps = stops.last();
        let stint_length: int = if stops.len() == 1 {
            ps.lap.0 as int
        } else {
            ps.lap.0 - stops[stops.len() - 2].lap.0
        };
        spec_total_tire_wear(stops.drop_last(), mult)
            + stint_length * TireCharacteristics::spec_for_compound(ps.compound).degradation_rate
                * mult / 1000000
    }
}

/// Fuel efficiency over the whole race (thousandths of a lap per kilogram
/// of fuel burned); zero when the model burns nothing.
pub open spec fn spec_fuel_efficiency(cfg: OptimizationConfig) -> int {
    let needed = cfg.fuel_model.spec_fuel_needed(cfg.total_laps as nat, cfg.starting_fuel as int);
    if needed == 0 {
        0
    } else {
        cfg.total_laps * 1000000 / needed
    }
}

/// Number of stops a strategy plans within ten laps after a competitor's
/// estimated stop.
pub open spec fn spec_tire_advantage_count(
    stops: Seq<PitStop>,
    comp_pit_lap: u16,
) -> int
    decreases stops.len(),
{
    if stops.len() == 0 {
        0
    } else {
        spec_tire_advantage_count(stops.drop_last(), comp_pit_lap)
            + if stops.last().lap.0 > comp_pit_lap
                && stops.last().lap.0 - comp_pit_lap < 10 { 1int } else { 0int }
    }
}

/// Overtaking opportunities of a strategy: stops planned as undercuts,
/// plus stops that leave the car on fresher tires shortly after a
/// competitor's stop.
pub open spec fn spec_overtaking_opportunities(
    stops: Seq<PitStop>,
    competitors: Seq<crate::optimizer::CompetitorState>,
) -> int
    decreases competitors.len(),
{
    if competitors.len() == 0 {
        spec_undercut_stop_count(stops)
    } else {
        spec_overtaking_opportunities(stops, competitors.drop_last())
            + match competitors.last().estimated_pit_lap {
                Some(p) => spec_tire_advantage_count(stops, p),
                None => 0int,
            }
    }
}

/// Number of stops whose recorded reason is an undercut.
pub open spec fn spec_undercut_stop_count(stops: Seq<PitStop>) -> int
    decreases stops.len(),
{
    if stops.len() == 0 {
        0
    } else {
        spec_undercut_stop_count(stops.drop_last())
            + if stops.last().reason == PitStopReason::Undercut { 1int } else { 0int }
    }
}

fn strategy_risk(strategy: &RaceStrategy, config: &OptimizationConfig) -> (r: i64)
    requires
        strategy.pit_stops@.len() <= 65535,
    ensures
        r == spec_strategy_risk(strategy.pit_stops@, config.total_laps),
        0 <= r <= strategy.pit_stops@.len() * 450,
{
    let mut risk: i64 = 0;
    let mut i: usize = 0;
    while i < strategy.pit_stops.len()
        invariant
            0 <= i <= strategy.pit_stops@.len(),
            strategy.pit_stops@.len() <= 65535,
            risk == spec_strategy_risk(strategy.pit_stops@.take(i as int), config.total_laps),
            0 <= risk <= i * 450,
        decreases strategy.pit_stops@.len() - i,
    {
        proof {
            assert(strategy.pit_stops@.take(i + 1).drop_last()
                =~= strategy.pit_stops@.take(i as int));
            assert(strategy.pit_stops@.take(i + 1).last() == strategy.pit_stops@[i as int]);
            assert(i * 450 + 450 == (i + 1) * 450) by (nonlinear_arith);
            assert((i + 1) * 450 <= 65535 * 450) by (nonlinear_arith)
                requires i + 1 <= 65535;
        }
        let ps = &strategy.pit_stops[i];
        risk = risk + 100;
        let chars = TireCharacteristics::for_compound(ps.compound);
        if chars.degradation_rate > 15 {
            risk = risk + 200;
        }
        if (ps.lap.0 as u32) > (config.total_laps as u32 * 2) / 3 {
            risk = risk + 150;
        }
        i = i + 1;
    }
    proof {
        assert(strategy.pit_stops@.take(i as int) =~= strategy.pit_stops@);
        assert(i * 450 <= strategy.pit_stops@.len() * 450) by (nonlinear_arith)
            requires i <= strategy.pit_stops@.len();
    }
    risk
}

fn total_tire_wear(strategy: &RaceStrategy, config: &OptimizationConfig) -> (r: i64)
    requires
        config.limits(),
        strategy.wf(),
    ensures
        r == spec_total_tire_wear(strategy.pit_stops@,
            config.degradation_factors.spec_total_multiplier() as int),
        0 <= r,
{
    proof {
        crate::optimizer::lemma_total_multiplier_cap(config.degradation_factors);
    }
    let mult: u64 = config.degradation_factors.total_multiplier();
    let mut total: i64 = 0;
    let mut i: usize = 0;
    while i < strategy.pit_stops.len()
        invariant
            config.limits(),
            strategy.wf(),
            mult == config.degradation_factors.spec_total_multiplier(),
            mult <= 100000000,
            0 <= i <= strategy.pit_stops@.len(),
            total == spec_total_tire_wear(strategy.pit_stops@.take(i as int), mult as int),
            0 <= total <= i * 150000000,
        decreases strategy.pit_stops@.len() - i,
    {
        proof {
            assert(strategy.pit_stops@.take(i + 1).drop_last()
                =~= strategy.pit_stops@.take(i as int));
            assert(strategy.pit_stops@.take(i + 1).last() == strategy.pit_stops@[i as int]);
            if i >= 1 {
                assert(strategy.pit_stops@.take(i + 1)[i - 1] == strategy.pit_stops@[i - 1]);
                assert(strategy.pit_stops@[i - 1].lap.0 < strategy.pit_stops@[i as int].lap.0);
            }
        }
        let ps = &strategy.pit_stops[i];
        let stint_length: u64 = if i == 0 {
            ps.lap.0 as u64
        } else {
            (ps.lap.0 - strategy.pit_stops[i - 1].lap.0) as u64
        };
        let chars = TireCharacteristics::for_compound(ps.compound);
        proof {
            assert(stint_length * chars.degradation_rate <= 65535 * 22) by (nonlinear_arith)
                requires stint_length <= 65535 && chars.degradation_rate <= 22;
            assert(stint_length * chars.degradation_rate >= 0) by (nonlinear_arith)
                requires stint_length >= 0 && chars.degradation_rate >= 0;
            assert(stint_length * chars.degradation_rate * mult <= 1441770 * 100000000)
                by (nonlinear_arith)
                requires 0 <= stint_length * chars.degradation_rate <= 1441770
                    && mult <= 100000000;
            assert(stint_length * chars.degradation_rate * mult >= 0) by (nonlinear_arith)
                requires stint_length * chars.degradation_rate >= 0 && mult >= 0;
            assert(stint_length * chars.degradation_rate * mult / 1000000 <= 150000000)
                by (nonlinear_arith)
                requires 0 <= stint_length * chars.degradation_rate * mult
                    <= 144177000000000;
            assert(i * 150000000 + 150000000 == (i + 1) * 150000000) by (nonlinear_arith);
            assert((i + 1) * 150000000 <= 65535 * 150000000) by (nonlinear_arith)
                requires i + 1 <= 65535;
        }
        let wear: u64 = stint_length * chars.degradation_rate as u64 * mult / 1000000;
        total = total + wear as i64;
        i = i + 1;
    }
    proof {
        assert(strategy.pit_stops@.take(i as int) =~= strategy.pit_stops@);
    }
    total
}

fn fuel_efficiency(config: &OptimizationConfig) -> (r: i64)
    requires
        config.limits(),
    ensures
        r == spec_fuel_efficiency(*config),
        0 <= r,
{
    proof {
        config.fuel_model.lemma_fuel_needed_bounds(config.total_laps as nat,
            config.starting_fuel as int);
    }
    let total_fuel_needed: u64 = config.fuel_model.fuel_needed_for_laps(
        config.total_laps, config.starting_fuel);
    if total_fuel_needed == 0 {
        0
    } else {
        proof {
            assert(config.total_laps * 1000000 <= 65535000000) by (nonlinear_arith)
                requires config.total_laps <= 65535;
            assert(config.total_laps * 1000000 >= 0) by (nonlinear_arith)
                requires config.total_laps >= 0;
            assert(config.total_laps * 1000000 / total_fuel_needed as int >= 0);
            assert(config.total_laps * 1000000 / total_fuel_needed as int <= 65535000000)
                by (nonlinear_arith)
                requires 0 <= config.total_laps * 1000000 <= 65535000000
                    && total_fuel_needed >= 1;
        }
        ((config.total_laps as u64 * 1000000) / total_fuel_needed) as i64
    }
}

fn count_overtaking_opportunities(strategy: &RaceStrategy, config: &OptimizationConfig) -> (r: i64)
    requires
        strategy.pit_stops@.len() <= 65535,
        config.competitors_ahead@.len() <= 65535,
    ensures
        r == spec_overtaking_opportunities(strategy.pit_stops@, config.competitors_ahead@),
        0 <= r,
{
    let stops = &strategy.pit_stops;
    let mut opportunities: i64 = 0;
    let mut i: usize = 0;
    while i < stops.len()
        invariant
            0 <= i <= stops@.len(),
            stops@.len() <= 65535,
            opportunities == spec_undercut_stop_count(stops@.take(i as int)),
            0 <= opportunities <= i,
        decreases stops@.len() - i,
    {
        proof {
            assert(stops@.take(i + 1).drop_last() =~= stops@.take(i as int));
            assert(stops@.take(i + 1).last() == stops@[i as int]);
        }
        if stops[i].reason == PitStopReason::Undercut {
            opportunities = opportunities + 1;
        }
        i = i + 1;
    }
    proof {
        assert(stops@.take(i as int) =~= stops@);
    }

    let mut c: usize = 0;
    while c < config.competitors_ahead.len()
        invariant
            0 <= c <= config.competitors_ahead@.len(),
            stops@.len() <= 65535,
            config.competitors_ahead@.len() <= 65535,
            opportunities == spec_overtaking_opportunities(stops@,
                config.competitors_ahead@.take(c as int)),
            0 <= opportunities <= stops@.len() + c * stops@.len(),
        decreases config.competitors_ahead@.len() - c,
    {
        proof {
            assert(config.competitors_ahead@.take(c + 1).drop_last()
                =~= config.competitors_ahead@.take(c as int));
            assert(config.competitors_ahead@.take(c + 1).last()
                == config.competitors_ahead@[c as int]);
            assert(c * stops@.len() + stops@.len() == (c + 1) * stops@.len())
                by (nonlinear_arith);
            assert((c + 1) * stops@.len() <= 65535 * 65535) by (nonlinear_arith)
                requires c + 1 <= 65535 && stops@.len() <= 65535;
        }
        match config.competitors_ahead[c].estimated_pit_lap {
            Some(comp_pit_lap) => {
                let mut k: usize = 0;
                let ghost pre = opportunities as int;
                proof {
                    assert(stops@.len() + c * stops@.len() <= 4295032800) by (nonlinear_arith)
                        requires stops@.len() <= 65535 && c <= 65535;
                }
                while k < stops.len()
                    invariant
                        0 <= k <= stops@.len(),
                        stops@.len() <= 65535,
                        opportunities == pre
                            + spec_tire_advantage_count(stops@.take(k as int), comp_pit_lap),
                        pre <= opportunities <= pre + k,
                        0 <= pre <= 4295032800,
                    decreases stops@.len() - k,
                {
                    proof {
                        assert(stops@.take(k + 1).drop_last() =~= stops@.take(k as int));
                        assert(stops@.take(k + 1).last() == stops@[k as int]);
                    }
                    if stops[k].lap.0 > comp_pit_lap && stops[k].lap.0 - comp_pit_lap < 10 {
                        opportunities = opportunities + 1;
                    }
                    k = k + 1;
                }
                proof {
                    assert(stops@.take(k as int) =~= stops@);
                }
            }
            None => {}
        }
        c = c + 1;
    }
    proof {
        assert(config.competitors_ahead@.take(c as int) =~= config.competitors_ahead@);
    }
    opportunities
}

/// Compare two race strategies: time delta, heuristic risk delta, and a
/// breakdown of tire-wear, fuel-efficiency, pit-loss, and overtaking
/// differences.
pub fn compare_strategies(
    strategy_a: &RaceStrategy,
    strategy_b: &RaceStrategy,
    config: &OptimizationConfig,
) -> (r: StrategyComparison)
    requires
        config.limits(),
        strategy_a.wf(),
        strategy_b.wf(),
        config.competitors_ahead@.len() <= 65535,
        -2000000000000000000 <= strategy_a.predicted_race_time <= 2000000000000000000,
        -2000000000000000000 <= strategy_b.predicted_race_time <= 2000000000000000000,
    ensures
        r.time_delta == strategy_a.predicted_race_time - strategy_b.predicted_race_time,
        r.risk_delta == spec_strategy_risk(strategy_a.pit_stops@, config.total_laps)
            - spec_strategy_risk(strategy_b.pit_stops@, config.total_laps),
        r.breakdown.tire_wear_difference
            == spec_total_tire_wear(strategy_a.pit_stops@,
                    config.degradation_factors.spec_total_multiplier() as int)
                - spec_total_tire_wear(strategy_b.pit_stops@,
                    config.degradation_factors.spec_total_multiplier() as int),
        r.breakdown.fuel_efficiency_difference == 0,
        r.breakdown.pit_loss_difference
            == crate::strategy::spec_total_pit_loss(strategy_a.pit_stops@)
                - crate::strategy::spec_total_pit_loss(strategy_b.pit_stops@),
        r.breakdown.track_position_risk == r.risk_delta,
        r.breakdown.overtaking_opportunities
            == spec_overtaking_opportunities(strategy_a.pit_stops@, config.competitors_ahead@)
                - spec_overtaking_opportunities(strategy_b.pit_stops@,
                    config.competitors_ahead@),
{
    let time_delta: i64 = strategy_a.predicted_race_time - strategy_b.predicted_race_time;

    let risk_a = strategy_risk(strategy_a, config);
    let risk_b = strategy_risk(strategy_b, config);
    proof {
        assert(strategy_a.pit_stops@.len() * 450 <= 65535 * 450) by (nonlinear_arith)
            requires strategy_a.pit_stops@.len() <= 65535;
        assert(strategy_b.pit_stops@.len() * 450 <= 65535 * 450) by (nonlinear_arith)
            requires strategy_b.pit_stops@.len() <= 65535;
    }
    let risk_delta: i64 = risk_a - risk_b;

    let tire_wear_a = total_tire_wear(strategy_a, config);
    let tire_wear_b = total_tire_wear(strategy_b, config);

    // Fuel efficiency depends only on the shared configuration, so the two
    // strategies never differ on it.
    let fuel_efficiency_a = fuel_efficiency(config);
    let fuel_efficiency_b = fuel_efficiency(config);

    let pit_loss_a = strategy_a.total_pit_loss();
    let pit_loss_b = strategy_b.total_pit_loss();
    proof {
        crate::optimizer::lemma_total_multiplier_cap(config.degradation_factors);
        lemma_total_pit_loss_bound(strategy_a.pit_stops@);
        lemma_total_pit_loss_bound(strategy_b.pit_stops@);
        lemma_tire_wear_bound(strategy_a.pit_stops@,
            config.degradation_factors.spec_total_multiplier() as int);
        lemma_tire_wear_bound(strategy_b.pit_stops@,
            config.degradation_factors.spec_total_multiplier() as int);
    }

    let overtaking_a = count_overtaking_opportunities(strategy_a, config);
    let overtaking_b = count_overtaking_opportunities(strategy_b, config);
    proof {
        lemma_overtaking_bound(strategy_a.pit_stops@, config.competitors_ahead@);
        lemma_overtaking_bound(strategy_b.pit_stops@, config.competitors_ahead@);
    }

    StrategyComparison {
        strategy_a: strategy_a.clone(),
        strategy_b: strategy_b.clone(),
        time_delta,
        risk_delta,
        breakdown: ComparisonBreakdown {
            tire_wear_difference: tire_wear_a - tire_wear_b,
            fuel_efficiency_difference: fuel_efficiency_a - fuel_efficiency_b,
            pit_loss_difference: pit_loss_a as i64 - pit_loss_b as i64,
            track_position_risk: risk_delta,
            overtaking_opportunities: overtaking_a - overtaking_b,
        },
    }
}

/// The total pit loss of a well-formed plan is bounded.
proof fn lemma_total_pit_loss_bound(stops: Seq<PitStop>)
    requires
        forall|i: int| 0 <= i < stops.len()
            ==> #[trigger] stops[i].pit_loss <= crate::strategy::PIT_LOSS_LIMIT,
        stops.len() <= 65535,
    ensures
        0 <= crate::strategy::spec_total_pit_loss(stops)
            <= stops.len() * crate::strategy::PIT_LOSS_LIMIT,
        crate::strategy::spec_total_pit_loss(stops) <= 655350000000,
    decreases stops.len(),
{
    if stops.len() == 0 {
        assert(stops.len() * crate::strategy::PIT_LOSS_LIMIT == 0);
    } else {
        assert(stops.last() == stops[stops.len() - 1]);
        lemma_total_pit_loss_bound(stops.drop_last());
        assert((stops.len() - 1) * crate::strategy::PIT_LOSS_LIMIT
            + crate::strategy::PIT_LOSS_LIMIT
            == stops.len() * crate::strategy::PIT_LOSS_LIMIT) by (nonlinear_arith)
            requires stops.len() >= 1;
        assert(stops.len() * crate::strategy::PIT_LOSS_LIMIT <= 655350000000)
            by (nonlinear_arith)
            requires stops.len() <= 65535;
    }
}

/// The total tire wear of a strategy is bounded.
proof fn lemma_tire_wear_bound(stops: Seq<PitStop>, mult: int)
    requires
        0 <= mult <= 100000000,
        stops.len() <= 65535,
        crate::strategy::stops_strictly_increasing(stops),
    ensures
        0 <= spec_total_tire_wear(stops, mult) <= stops.len() * 150000000,
        spec_total_tire_wear(stops, mult) <= 9830250000000,
    decreases stops.len(),
{
    if stops.len() == 0 {
        assert(stops.len() * 150000000 == 0);
    } else {
        assert(crate::strategy::stops_strictly_increasing(stops.drop_last()));
        lemma_tire_wear_bound(stops.drop_last(), mult);
        let ps = stops.last();
        assert(stops.last() == stops[stops.len() - 1]);
        let stint_length: int = if stops.len() == 1 {
            ps.lap.0 as int
        } else {
            ps.lap.0 - stops[stops.len() - 2].lap.0
        };
        if stops.len() >= 2 {
            assert(stops[stops.len() - 2].lap.0 < stops[stops.len() - 1].lap.0);
        }
        let rate = TireCharacteristics::spec_for_compound(ps.compound).degradation_rate as int;
        assert(5 <= rate <= 22);
        assert(0 <= stint_length <= 65535);
        assert(0 <= stint_length * rate <= 1441770) by (nonlinear_arith)
            requires 0 <= stint_length <= 65535 && 0 <= rate <= 22;
        assert(0 <= stint_length * rate * mult <= 144177000000000) by (nonlinear_arith)
            requires 0 <= stint_length * rate <= 1441770 && 0 <= mult <= 100000000;
        assert(0 <= stint_length * rate * mult / 1000000 <= 150000000) by (nonlinear_arith)
            requires 0 <= stint_length * rate * mult <= 144177000000000;
        assert((stops.len() - 1) * 150000000 + 150000000 == stops.len() * 150000000)
            by (nonlinear_arith)
            requires stops.len() >= 1;
        assert(stops.len() * 150000000 <= 9830250000000) by (nonlinear_arith)
            requires stops.len() <= 65535;
    }
}

/// The overtaking opportunity count is bounded.
proof fn lemma_overtaking_bound(
    stops: Seq<PitStop>,
    competitors: Seq<crate::optimizer::CompetitorState>,
)
    requires
        stops.len() <= 65535,
        competitors.len() <= 65535,
    ensures
        0 <= spec_overtaking_opportunities(stops, competitors) <= 4295098369,
    decreases competitors.len(),
{
    lemma_undercut_count_bound(stops);
    lemma_overtaking_bound_rec(stops, competitors);
    assert(stops.len() + competitors.len() * stops.len() <= 65535 + 65535 * 65535)
        by (nonlinear_arith)
        requires stops.len() <= 65535 && competitors.len() <= 65535;
}

proof fn lemma_undercut_count_bound(stops: Seq<PitStop>)
    ensures
        0 <= spec_undercut_stop_count(stops) <= stops.len(),
        forall|p: u16| 0 <= #[trigger] spec_tire_advantage_count(stops, p) <= stops.len(),
    decreases stops.len(),
{
    if stops.len() > 0 {
        lemma_undercut_count_bound(stops.drop_last());
        assert forall|p: u16| 0 <= #[trigger] spec_tire_advantage_count(stops, p)
            <= stops.len() by {
            assert(0 <= spec_tire_advantage_count(stops.drop_last(), p)
                <= stops.drop_last().len());
        }
    }
}

proof fn lemma_overtaking_bound_rec(
    stops: Seq<PitStop>,
    competitors: Seq<crate::optimizer::CompetitorState>,
)
    ensures
        0 <= spec_overtaking_opportunities(stops, competitors)
            <= stops.len() + competitors.len() * stops.len(),
    decreases competitors.len(),
{
    lemma_undercut_count_bound(stops);
    if competitors.len() == 0 {
        assert(competitors.len() * stops.len() == 0) by (nonlinear_arith)
            requires competitors.len() == 0;
    } else {
        lemma_overtaking_bound_rec(stops, competitors.drop_last());
        assert((competitors.len() - 1) * stops.len() + stops.len()
            == competitors.len() * stops.len()) by (nonlinear_arith)
            requires competitors.len() >= 1;
    }
}

/// Grip suitability score (thousandths): a piecewise-linear falloff from a
/// perfect match between the compound's grip and the track's demand.
pub open spec fn spec_grip_score(compound_grip_milli: int, track_demand_milli: int) -> int {
    let diff = if compound_grip_milli >= track_demand_milli {
        compound_grip_milli - track_demand_milli
    } else {
        track_demand_milli - compound_grip_milli
    };
    if diff < 50 {
        1000
    } else if diff < 150 {
        800 - (diff - 50) * 2
    } else if diff < 250 {
        600 - (diff - 150) * 2
    } else {
        300
    }
}

/// Degradation suitability score (thousandths): how the compound's
/// effective life, shortened by the degradation multiplier and the fuel
/// load, compares to the target stint length.
pub open spec fn spec_degradation_score(
    compound: TireCompound,
    target_stint_length: u16,
    factors: DegradationFactors,
    fuel_load: int,
) -> int {
    let base_life = TireCharacteristics::spec_for_compound(compound).typical_life as int;
    let mult = factors.spec_total_multiplier() as int;
    let fuel_impact = 1000 + fuel_load * 150 / 110000;
    let denom = mult * fuel_impact;
    let effective_life_milli = if denom == 0 { 65535000int } else { base_life * 1000000000 / denom };
    let target = target_stint_length as int;
    if effective_life_milli >= target * 1200 {
        1000
    } else if effective_life_milli >= target * 1000 {
        800
    } else if effective_life_milli >= target * 850 {
        500
    } else {
        200
    }
}

/// Thermal suitability score (thousandths): a piecewise-linear falloff
/// from the middle of the compound's optimal temperature window.
pub open spec fn spec_thermal_score(compound: TireCompound, track_temp: int) -> int {
    let chars = TireCharacteristics::spec_for_compound(compound);
    let optimal = (chars.optimal_temp_min + chars.optimal_temp_max) / 2;
    let diff = if track_temp >= optimal { track_temp - optimal } else { optimal - track_temp };
    if diff <= 5 {
        1000
    } else if diff <= 15 {
        1000 - (diff - 5) * 40
    } else if diff <= 30 {
        600 - (diff - 15) * 400 / 15
    } else {
        100
    }
}

/// Combined compound score (thousandths): grip match weighted 40%,
/// degradation fit 35%, thermal window 25%.
pub open spec fn spec_score_compound(
    compound: TireCompound,
    circuit: Circuit,
    track_temp: int,
    fuel_load: int,
    target_stint_length: u16,
    factors: DegradationFactors,
) -> int {
    let grip_milli = TireCharacteristics::spec_for_compound(compound).grip_level * 10;
    let severity = circuit.characteristics.tire_severity as int;
    let demand = (if severity <= 2000 { severity } else { 2000 }) / 2;
    let grip = spec_grip_score(grip_milli, demand);
    let degradation = spec_degradation_score(compound, target_stint_length, factors, fuel_load);
    let thermal = spec_thermal_score(compound, track_temp);
    (grip * 400 + degradation * 350 + thermal * 250) / 1000
}

/// Score a tire compound for the given conditions (thousandths, 0-1000).
#[verifier::rlimit(60)]
pub fn score_compound(
    compound: TireCompound,
    circuit: &Circuit,
    track_temp: i32,
    fuel_load: u64,
    target_stint_length: u16,
    degradation_factors: &DegradationFactors,
) -> (r: i64)
    requires
        circuit.wf(),
        degradation_factors.wf(),
        -1000000 <= track_temp <= 1000000,
        fuel_load <= crate::fuel::FUEL_LIMIT,
    ensures
        r == spec_score_compound(compound, *circuit, track_temp as int, fuel_load as int,
            target_stint_length, *degradation_factors),
        215 <= r <= 1000,
{
    let chars = TireCharacteristics::for_compound(compound);
    proof {
        assert(65 <= chars.grip_level <= 95);
        assert(15 <= chars.typical_life <= 40);
    }

    // Grip match.
    let grip_milli: i64 = chars.grip_level as i64 * 10;
    let severity: i64 = circuit.characteristics.tire_severity as i64;
    let demand: i64 = (if severity <= 2000 { severity } else { 2000 }) / 2;
    let diff: i64 = if grip_milli >= demand { grip_milli - demand } else { demand - grip_milli };
    let grip_score: i64 = if diff < 50 {
        1000
    } else if diff < 150 {
        800 - (diff - 50) * 2
    } else if diff < 250 {
        600 - (diff - 150) * 2
    } else {
        300
    };
    proof {
        assert(grip_score == spec_grip_score(grip_milli as int, demand as int));
        assert(300 <= grip_score <= 1000);
    }

    // Degradation fit.
    let mult: u64 = degradation_factors.total_multiplier();
    let fuel_impact: u64 = 1000 + fuel_load * 150 / 110000;
    proof {
        assert(fuel_load * 150 <= 15000000000) by (nonlinear_arith)
            requires fuel_load <= 100000000;
        assert(fuel_load * 150 >= 0) by (nonlinear_arith)
            requires fuel_load >= 0;
        assert(fuel_load * 150 / 110000 <= 136364) by (nonlinear_arith)
            requires 0 <= fuel_load * 150 <= 15000000000;
        assert(mult * fuel_impact <= 10000000000000 * 137364) by (nonlinear_arith)
            requires mult <= 10000000000000 && fuel_impact <= 137364;
        assert(mult * fuel_impact >= 0) by (nonlinear_arith)
            requires mult >= 0 && fuel_impact >= 0;
    }
    let denom: u64 = mult * fuel_impact;
    let effective_life_milli: u64 = if denom == 0 {
        65535000
    } else {
        proof {
            assert(chars.typical_life as int * 1000000000 / denom as int
                <= chars.typical_life as int * 1000000000) by (nonlinear_arith)
                requires denom >= 1 && chars.typical_life >= 0;
        }
        chars.typical_life as u64 * 1000000000 / denom
    };
    let target: u64 = target_stint_length as u64;
    proof {
        assert(target * 1200 <= 78642000) by (nonlinear_arith)
            requires target <= 65535;
    }
    let degradation_score: i64 = if effective_life_milli >= target * 1200 {
        1000
    } else if effective_life_milli >= target * 1000 {
        800
    } else if effective_life_milli >= target * 850 {
        500
    } else {
        200
    };
    proof {
        assert(degradation_score == spec_degradation_score(compound, target_stint_length,
            *degradation_factors, fuel_load as int));
        assert(200 <= degradation_score <= 1000);
    }

    // Thermal window.
    let optimal: i32 = (chars.optimal_temp_min + chars.optimal_temp_max) / 2;
    let tdiff: i64 = if track_temp as i64 >= optimal as i64 {
        track_temp as i64 - optimal as i64
    } else {
        optimal as i64 - track_temp as i64
    };
    let thermal_score: i64 = if tdiff <= 5 {
        1000
    } else if tdiff <= 15 {
        1000 - (tdiff - 5) * 40
    } else if tdiff <= 30 {
        600 - (tdiff - 15) * 400 / 15
    } else {
        100
    };
    proof {
        assert(thermal_score == spec_thermal_score(compound, track_temp as int));
        assert(100 <= thermal_score <= 1000) by {
            if 15 < tdiff && tdiff <= 30 {
                assert((tdiff - 15) * 400 / 15 <= 400);
                assert((tdiff - 15) * 400 / 15 >= 0);
            }
        }
    }

    (grip_score * 400 + degradation_score * 350 + thermal_score * 250) / 1000
}

/// Select the optimal tire compound for the given conditions: the first
/// highest-scoring compound of the available list, or C3 as a safe
/// fallback when the list is empty.
pub fn select_optimal_compound(
    circuit: &Circuit,
    available_compounds: &Vec<TireCompound>,
    track_temp: i32,
    fuel_load: u64,
    target_stint_length: u16,
    degradation_factors: &DegradationFactors,
) -> (r: TireCompound)
    requires
        circuit.wf(),
        degradation_factors.wf(),
        -1000000 <= track_temp <= 1000000,
        fuel_load <= crate::fuel::FUEL_LIMIT,
    ensures
        available_compounds@.len() == 0 ==> r == TireCompound::C3,
        available_compounds@.len() > 0 ==> exists|j: int| {
            &&& 0 <= j < available_compounds@.len()
            &&& available_compounds@[j] == r
            &&& forall|i: int| 0 <= i < available_compounds@.len()
                    ==> spec_score_compound(#[trigger] available_compounds@[i], *circuit,
                            track_temp as int, fuel_load as int, target_stint_length,
                            *degradation_factors)
                        <= spec_score_compound(r, *circuit, track_temp as int,
                            fuel_load as int, target_stint_length, *degradation_factors)
            &&& forall|i: int| 0 <= i < j
                    ==> spec_score_compound(#[trigger] available_compounds@[i], *circuit,
                            track_temp as int, fuel_load as int, target_stint_length,
                            *degradation_factors)
                        < spec_score_compound(r, *circuit, track_temp as int,
                            fuel_load as int, target_stint_length, *degradation_factors)
        },
{
    if available_compounds.len() == 0 {
        return TireCompound::C3;
    }

    let mut best_compound = available_compounds[0];
    let mut best_score: i64 = 0;
    let ghost mut best_at: int = -1;

    let mut i: usize = 0;
    while i < available_compounds.len()
        invariant
            circuit.wf(),
            degradation_factors.wf(),
            -1000000 <= track_temp <= 1000000,
            fuel_load <= crate::fuel::FUEL_LIMIT,
            0 <= i <= available_compounds@.len(),
            available_compounds@.len() > 0,
            i == 0 ==> best_score == 0 && best_at == -1
                && best_compound == available_compounds@[0],
            i > 0 ==> {
                &&& 0 <= best_at < i
                &&& available_compounds@[best_at] == best_compound
                &&& best_score == spec_score_compound(best_compound, *circuit,
                        track_temp as int, fuel_load as int, target_stint_length,
                        *degradation_factors)
                &&& forall|k: int| 0 <= k < i
                        ==> spec_score_compound(#[trigger] available_compounds@[k], *circuit,
                                track_temp as int, fuel_load as int, target_stint_length,
                                *degradation_factors) <= best_score
                &&& forall|k: int| 0 <= k < best_at
                        ==> spec_score_compound(#[trigger] available_compounds@[k], *circuit,
                                track_temp as int, fuel_load as int, target_stint_length,
                                *degradation_factors) < best_score
            },
        decreases available_compounds@.len() - i,
    {
        let compound = available_compounds[i];
        let score = score_compound(compound, circuit, track_temp, fuel_load,
            target_stint_length, degradation_factors);
        if score > best_score {
            best_score = score;
            best_compound = compound;
            proof {
                best_at = i as int;
            }
        }
        i = i + 1;
    }
    best_compound
}

} // verus!
