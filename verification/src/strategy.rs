//! Race strategy representation: pit stops, fuel plan, ERS plan, and the
//! validity rules a legal strategy must meet.
//!
//! Times are in milliseconds, fuel in grams, and confidence values in
//! thousandths (1000 = 1.0).

use vstd::prelude::*;
use crate::tire::TireCompound;
use crate::types::LapNumber;

verus! {

/// Largest pit loss a well-formed stop may carry (milliseconds).
pub const PIT_LOSS_LIMIT: u64 = 10000000;

/// Reason for a pit stop.
#[derive(Debug, Clone, Copy, PartialEq, Eq, Structural)]
pub enum PitStopReason {
    Mandatory,
    TireDegradation,
    TireDamage,
    WeatherChange,
    Undercut,
    Overcut,
    SafetyCar,
    VirtualSafetyCar,
    Opportunistic,
}

/// Planned pit stop.
#[derive(Debug, Clone, Copy, PartialEq, Eq, Structural)]
pub struct PitStop {
    /// Target lap for the stop (1-indexed).
    pub lap: LapNumber,
    /// Tire compound to fit.
    pub compound: TireCompound,
    /// Expected pit loss (milliseconds).
    pub pit_loss: u64,
    /// Reason for the stop.
    pub reason: PitStopReason,
    /// Confidence in this decision (thousandths).
    pub confidence: u32,
}

/// Stint number (0-indexed).
#[derive(Debug, Clone, Copy, PartialEq, Eq, PartialOrd, Ord, Hash, Structural)]
pub struct StintNumber(pub u8);

/// Fuel management strategy.
#[derive(Debug, Clone, PartialEq, Eq)]
pub struct FuelStrategy {
    /// Starting fuel load (grams).
    pub starting_fuel: u64,
    /// Target fuel saving per lap (grams).
    pub fuel_saving_per_lap: u64,
    /// Laps requiring fuel-saving mode.
    pub fuel_saving_laps: Vec<LapNumber>,
    /// Minimum fuel buffer (grams).
    pub minimum_buffer: u64,
}

/// ERS deployment modes.
#[derive(Debug, Clone, Copy, PartialEq, Eq, Structural)]
pub enum ErsMode {
    Off,
    Low,
    Medium,
    High,
    Hotlap,
    Overtake,
}

/// ERS deployment planning.
#[derive(Debug, Clone, PartialEq, Eq)]
pub struct ErsDeploymentPlan {
    /// Default ERS mode.
    pub default_mode: ErsMode,
    /// Lap-specific overrides, ordered by lap.
    pub lap_overrides: Vec<(LapNumber, ErsMode)>,
    /// Overtake opportunities (laps to use maximum deployment).
    pub overtake_laps: Vec<LapNumber>,
}

/// Strategy generation metadata.
#[derive(Debug, Clone, PartialEq, Eq)]
pub struct StrategyMetadata {
    /// Generation time as a Unix timestamp (seconds).
    pub generated_at: i64,
    /// Number of simulations run.
    pub num_simulations: u64,
    /// Agents that contributed to this strategy.
    pub contributing_agents: Vec<String>,
    /// Version hash, if tracked.
    pub version_hash: Option<String>,
    /// Parent strategy identifier, if this is a refinement.
    pub parent_strategy_id: Option<String>,
}

/// Complete race strategy with pit stop plan.
#[derive(Debug, Clone)]
pub struct RaceStrategy {
    /// Strategy unique identifier.
    pub id: String,
    /// Starting tire compound.
    pub starting_compound: TireCompound,
    /// Planned pit stops, in lap order.
    pub pit_stops: Vec<PitStop>,
    /// Fuel strategy.
    pub fuel_strategy: FuelStrategy,
    /// ERS deployment plan.
    pub ers_plan: ErsDeploymentPlan,
    /// Expected lap times per stint (milliseconds), indexed by stint number.
    pub expected_lap_times: Vec<Vec<i64>>,
    /// Total race time prediction (milliseconds).
    pub predicted_race_time: i64,
    /// Confidence score (thousandths).
    pub confidence: u32,
    /// Strategy generation metadata.
    pub metadata: StrategyMetadata,
}

/// Whether the pit stops are ordered by strictly increasing lap number.
pub open spec fn stops_strictly_increasing(stops: Seq<PitStop>) -> bool {
    forall|i: int, j: int| 0 <= i < j < stops.len()
        ==> #[trigger] stops[i].lap.0 < #[trigger] stops[j].lap.0
}

/// Sum of the expected pit losses of a stop sequence.
pub open spec fn spec_total_pit_loss(stops: Seq<PitStop>) -> int
    decreases stops.len(),
{
    if stops.len() == 0 {
        0
    } else {
        spec_total_pit_loss(stops.drop_last()) + stops.last().pit_loss
    }
}

/// Number of stops scheduled strictly before the given lap.
pub open spec fn spec_stops_before(stops: Seq<PitStop>, lap: u16) -> int
    decreases stops.len(),
{
    if stops.len() == 0 {
        0
    } else {
        spec_stops_before(stops.drop_last(), lap)
            + if stops.last().lap.0 < lap { 1int } else { 0int }
    }
}

/// The compound fitted at the most recent stop strictly before the given
/// lap, or the starting compound if there is none.
pub open spec fn spec_compound_for_lap(
    starting: TireCompound,
    stops: Seq<PitStop>,
    lap: u16,
) -> TireCompound
    decreases stops.len(),
{
    if stops.len() == 0 {
        starting
    } else if stops.last().lap.0 < lap {
        stops.last().compound
    } else {
        spec_compound_for_lap(starting, stops.drop_last(), lap)
    }
}

impl RaceStrategy {
    /// Well-formed strategy: stops in strictly increasing lap order with
    /// bounded pit losses.
    pub open spec fn wf(self) -> bool {
        &&& stops_strictly_increasing(self.pit_stops@)
        &&& forall|i: int| 0 <= i < self.pit_stops@.len()
                ==> #[trigger] self.pit_stops@[i].pit_loss <= PIT_LOSS_LIMIT
        &&& self.pit_stops@.len() <= 65535
    }

    /// Total number of planned pit stops.
    pub fn num_pit_stops(&self) -> (r: usize)
        ensures
            r == self.pit_stops@.len(),
    {
        self.pit_stops.len()
    }

    /// Whether this strategy uses the given compound, either from the start
    /// or at some stop.
    pub open spec fn spec_uses_compound(self, compound: TireCompound) -> bool {
        self.starting_compound == compound
            || exists|i: int| 0 <= i < self.pit_stops@.len()
                && #[trigger] self.pit_stops@[i].compound == compound
    }

    /// The dual-compound rule: at least two distinct compounds are used, or
    /// a wet-weather compound appears.
    pub open spec fn spec_compound_diversity(self) -> bool {
        ||| exists|i: int| 0 <= i < self.pit_stops@.len()
                && #[trigger] self.pit_stops@[i].compound != self.starting_compound
        ||| self.spec_uses_compound(TireCompound::Intermediate)
        ||| self.spec_uses_compound(TireCompound::Wet)
    }

    /// A strategy is valid for a race of `total_race_laps` laps when it has
    /// at least one stop, every stop lies within the race, and the
    /// dual-compound (or wet-tire) rule is met.
    pub open spec fn spec_is_valid(self, total_race_laps: u16) -> bool {
        &&& self.pit_stops@.len() >= 1
        &&& forall|i: int| 0 <= i < self.pit_stops@.len()
                ==> #[trigger] self.pit_stops@[i].lap.0 <= total_race_laps
        &&& self.spec_compound_diversity()
    }

    /// Check validity against the sporting regulations.
    pub fn is_valid(&self, total_race_laps: u16) -> (r: bool)
        ensures
            r == self.spec_is_valid(total_race_laps),
    {
        if self.pit_stops.len() == 0 {
            return false;
        }

        let mut i: usize = 0;
        let mut diverse = self.starting_compound.is_wet_weather();
        while i < self.pit_stops.len()
            invariant
                0 <= i <= self.pit_stops@.len(),
                forall|j: int| 0 <= j < i ==> #[trigger] self.pit_stops@[j].lap.0 <= total_race_laps,
                diverse == {
                    ||| exists|j: int| 0 <= j < i
                            && #[trigger] self.pit_stops@[j].compound != self.starting_compound
                    ||| self.starting_compound.is_wet_weather()
                    ||| exists|j: int| 0 <= j < i
                            && (#[trigger] self.pit_stops@[j].compound).is_wet_weather()
                },
            decreases self.pit_stops@.len() - i,
        {
            let ps = &self.pit_stops[i];
            if ps.lap.0 > total_race_laps {
                return false;
            }
            if ps.compound != self.starting_compound || ps.compound.is_wet_weather() {
                diverse = true;
            }
            i = i + 1;
        }
        proof {
            if diverse {
                assert(self.spec_compound_diversity());
            } else {
                assert(!self.spec_uses_compound(TireCompound::Intermediate));
                assert(!self.spec_uses_compound(TireCompound::Wet));
            }
        }
        diverse
    }

    /// The pit stop scheduled on the given lap, if any (the first such stop).
    pub fn pit_stop_on_lap(&self, lap: LapNumber) -> (r: Option<&PitStop>)
        ensures
            r is Some <==> exists|i: int| 0 <= i < self.pit_stops@.len()
                && #[trigger] self.pit_stops@[i].lap == lap,
            r is Some ==> exists|i: int| 0 <= i < self.pit_stops@.len()
                && #[trigger] self.pit_stops@[i] == *r->Some_0
                && self.pit_stops@[i].lap == lap
                && forall|j: int| 0 <= j < i ==> #[trigger] self.pit_stops@[j].lap != lap,
    {
        let mut i: usize = 0;
        while i < self.pit_stops.len()
            invariant
                0 <= i <= self.pit_stops@.len(),
                forall|j: int| 0 <= j < i ==> #[trigger] self.pit_stops@[j].lap != lap,
            decreases self.pit_stops@.len() - i,
        {
            if self.pit_stops[i].lap == lap {
                return Some(&self.pit_stops[i]);
            }
            i = i + 1;
        }
        None
    }

    /// Total expected pit loss over all stops (milliseconds).
    pub fn total_pit_loss(&self) -> (r: u64)
        requires
            self.wf(),
        ensures
            r == spec_total_pit_loss(self.pit_stops@),
    {
        let mut total: u64 = 0;
        let mut i: usize = 0;
        while i < self.pit_stops.len()
            invariant
                self.wf(),
                0 <= i <= self.pit_stops@.len(),
                total == spec_total_pit_loss(self.pit_stops@.take(i as int)),
                total <= i * PIT_LOSS_LIMIT,
            decreases self.pit_stops@.len() - i,
        {
            proof {
                assert(self.pit_stops@.take(i + 1).drop_last() =~= self.pit_stops@.take(i as int));
                assert(self.pit_stops@.take(i + 1).last() == self.pit_stops@[i as int]);
                assert(i * PIT_LOSS_LIMIT + PIT_LOSS_LIMIT == (i + 1) * PIT_LOSS_LIMIT)
                    by (nonlinear_arith);
                assert((i + 1) * PIT_LOSS_LIMIT <= 65535 * PIT_LOSS_LIMIT) by (nonlinear_arith)
                    requires i + 1 <= 65535;
            }
            total = total + self.pit_stops[i].pit_loss;
            i = i + 1;
        }
        proof {
            assert(self.pit_stops@.take(i as int) =~= self.pit_stops@);
        }
        total
    }

    /// Stint number for a given lap: the number of stops strictly before it.
    pub fn stint_for_lap(&self, lap: LapNumber) -> (r: StintNumber)
        requires
            self.pit_stops@.len() <= 255,
        ensures
            r.0 == spec_stops_before(self.pit_stops@, lap.0),
    {
        let mut count: u8 = 0;
        let mut i: usize = 0;
        while i < self.pit_stops.len()
            invariant
                0 <= i <= self.pit_stops@.len(),
                self.pit_stops@.len() <= 255,
                count == spec_stops_before(self.pit_stops@.take(i as int), lap.0),
                count <= i,
            decreases self.pit_stops@.len() - i,
        {
            proof {
                assert(self.pit_stops@.take(i + 1).drop_last() =~= self.pit_stops@.take(i as int));
                assert(self.pit_stops@.take(i + 1).last() == self.pit_stops@[i as int]);
            }
            if self.pit_stops[i].lap.0 < lap.0 {
                count = count + 1;
            }
            i = i + 1;
        }
        proof {
            assert(self.pit_stops@.take(i as int) =~= self.pit_stops@);
        }
        StintNumber(count)
    }

    /// Tire compound in use on a given lap: the compound of the most recent
    /// stop before it, or the starting compound.
    pub fn compound_for_lap(&self, lap: LapNumber) -> (r: TireCompound)
        ensures
            r == spec_compound_for_lap(self.starting_compound, self.pit_stops@, lap.0),
    {
        let mut i: usize = self.pit_stops.len();
        proof {
            assert(self.pit_stops@.take(i as int) =~= self.pit_stops@);
        }
        while i > 0
            invariant
                0 <= i <= self.pit_stops@.len(),
                spec_compound_for_lap(self.starting_compound, self.pit_stops@, lap.0)
                    == spec_compound_for_lap(self.starting_compound,
                        self.pit_stops@.take(i as int), lap.0),
            decreases i,
        {
            proof {
                assert(self.pit_stops@.take(i as int).drop_last()
                    =~= self.pit_stops@.take(i - 1));
                assert(self.pit_stops@.take(i as int).last() == self.pit_stops@[i - 1]);
            }
            if self.pit_stops[i - 1].lap.0 < lap.0 {
                return self.pit_stops[i - 1].compound;
            }
            i = i - 1;
        }
        proof {
            assert(self.pit_stops@.take(0) =~= Seq::<PitStop>::empty());
        }
        self.starting_compound
    }
}

/// Head-to-head comparison summary of two strategies by identifier.
#[derive(Debug, Clone, PartialEq, Eq)]
pub struct StrategyComparison {
    pub strategy_a_id: String,
    pub strategy_b_id: String,
    /// Time difference (milliseconds, positive = A is slower).
    pub time_delta: i64,
    /// Risk score difference in thousandths (positive = A is riskier).
    pub risk_delta: i64,
    pub recommendation: ComparisonRecommendation,
}

/// Strategy comparison recommendation.
#[derive(Debug, Clone, Copy, PartialEq, Eq, Structural)]
pub enum ComparisonRecommendation {
    PreferA,
    PreferB,
    Equivalent,
}

} // verus!
