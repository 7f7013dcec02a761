//! Race-strategy library: tire and fuel models, a dynamic-programming
//! pit-stop optimizer, and a lap-by-lap race simulator.
//!
//! All physical quantities are fixed-point integers: times in milliseconds,
//! fuel in grams, temperatures in whole degrees Celsius, and dimensionless
//! factors in thousandths (1000 = 1.0).

use vstd::prelude::*;

pub mod fuel;
pub mod mcp;
pub mod numeric;
pub mod openf1;
pub mod optimizer;
pub mod race;
pub mod regulations;
pub mod scoring;
pub mod simulator;
pub mod strategy;
pub mod stream;
pub mod telemetry;
pub mod tire;
pub mod track;
pub mod types;
pub mod weather;
pub mod weather_api;

pub use fuel::lemma_consumption_deterministic;
pub use fuel::EngineMode;
pub use fuel::FuelConsumptionModel;
pub use fuel::CONSUMPTION_LIMIT;
pub use fuel::FUEL_LIMIT;
pub use fuel::MAX_FUEL_CAPACITY;
pub use fuel::MIN_FUEL_BUFFER;
pub use fuel::TYPICAL_CONSUMPTION;
pub use optimizer::spec_adjusted_life;
pub use optimizer::spec_estimate_time_loss;
pub use optimizer::spec_last_stop_lap_before;
pub use optimizer::spec_pit_reason;
pub use optimizer::spec_position_penalty;
pub use optimizer::spec_tire_age;
pub use optimizer::spec_undercut_count;
pub use optimizer::spec_lap_time;
pub use optimizer::spec_pit_loss_at;
pub use optimizer::spec_plan_cost;
pub use optimizer::spec_plan_diversity;
pub use optimizer::expected_times_ok;
pub use optimizer::in_available;
pub use optimizer::optimize_result_ok;
pub use optimizer::stop_ok;
pub use optimizer::window_ok;
pub use optimizer::calculate_expected_lap_times;
pub use optimizer::calculate_lap_time;
pub use optimizer::calculate_pit_window;
pub use optimizer::is_valid_strategy;
pub use optimizer::lemma_lap_time_monotone_in_tire_age;
pub use optimizer::optimize_pit_strategy;
pub use optimizer::calculate_tire_age;
pub use optimizer::estimate_time_loss;
pub use optimizer::CompetitorState;
pub use optimizer::ConfigError;
pub use optimizer::OptimizationConfig;
pub use optimizer::OptimizationError;
pub use optimizer::PitWindow;
pub use optimizer::ESTIMATE_LIMIT;
pub use optimizer::LAP_TIME_LIMIT;
pub use mcp::McpConfig;
pub use mcp::McpTransport;
pub use numeric::isqrt;
pub use openf1::DriverInfo;
pub use openf1::OpenF1Driver;
pub use openf1::OpenF1Session;
pub use race::IncidentType;
pub use race::RaceIncident;
pub use race::RetirementReason;
pub use race::SafetyCarPeriod;
pub use regulations::FiaRegulations;
pub use regulations::SafetyCarTireRules;
pub use stream::ClientRequest;
pub use stream::StreamConfig;
pub use stream::StreamError;
pub use stream::SubscriptionFilter;
pub use telemetry::AnomalySeverity;
pub use telemetry::AnomalyType;
pub use telemetry::ProcessingStats;
pub use telemetry::Severity;
pub use telemetry::TelemetryError;
pub use weather_api::map_owm_condition;
pub use weather_api::spec_map_owm_condition;
pub use weather_api::OwmWeather;
pub use numeric::lemma_sqrt_floor_monotone;
pub use numeric::lemma_sqrt_floor_props;
pub use numeric::sqrt_floor;
pub use weather::spec_grip_sum;
pub use weather::spec_max_rain_intensity;
pub use weather::spec_rain_expected_in;
pub use weather::RecommendedTire;
pub use weather::SectorWeather;
pub use weather::WeatherForecast;
pub use weather::WeatherPrediction;
pub use scoring::spec_degradation_score;
pub use scoring::spec_fuel_efficiency;
pub use scoring::spec_grip_score;
pub use scoring::spec_overtaking_opportunities;
pub use scoring::spec_score_compound;
pub use scoring::spec_strategy_risk;
pub use scoring::spec_thermal_score;
pub use scoring::spec_tire_advantage_count;
pub use scoring::spec_total_tire_wear;
pub use scoring::spec_undercut_stop_count;
pub use scoring::compare_strategies;
pub use scoring::score_compound;
pub use scoring::select_optimal_compound;
pub use scoring::ComparisonBreakdown;
pub use scoring::StrategyComparison;
pub use simulator::create_simulator;
pub use simulator::lemma_fuel_trace_strictly_decreasing;
pub use simulator::lemma_sim_lap_time_bounds;
pub use simulator::lemma_sim_lap_time_monotone_in_tire_age;
pub use simulator::lemma_sim_state_bounds;
pub use simulator::spec_all_warnings;
pub use simulator::spec_average_lap_time;
pub use simulator::spec_condition_at;
pub use simulator::spec_fuel_trace;
pub use simulator::spec_has_stop_at;
pub use simulator::spec_lap_times;
pub use simulator::spec_pit_events;
pub use simulator::spec_sim_lap_time;
pub use simulator::spec_sim_state;
pub use simulator::spec_stop_at;
pub use simulator::spec_temperature_penalty;
pub use simulator::spec_time_max;
pub use simulator::spec_time_min;
pub use simulator::spec_time_sum;
pub use simulator::spec_tire_history;
pub use simulator::spec_track_temp_at;
pub use simulator::spec_warnings_upto;
pub use simulator::spec_weather_penalty;
pub use simulator::spec_wrong_tire_for_weather;
pub use simulator::PitStopEvent;
pub use simulator::RaceSimulator;
pub use simulator::SimState;
pub use simulator::SimulationResult;
pub use simulator::SimulationWarning;
pub use simulator::WeatherConditions;
pub use simulator::LOW_FUEL_THRESHOLD;
pub use simulator::SIM_LAP_TIME_LIMIT;
pub use simulator::SIM_LAP_TIME_MIN;
pub use strategy::stops_strictly_increasing;
pub use strategy::spec_compound_for_lap;
pub use strategy::spec_stops_before;
pub use strategy::spec_total_pit_loss;
pub use strategy::ComparisonRecommendation;
pub use strategy::ErsDeploymentPlan;
pub use strategy::ErsMode;
pub use strategy::FuelStrategy;
pub use strategy::PitStop;
pub use strategy::PitStopReason;
pub use strategy::RaceStrategy;
pub use strategy::StintNumber;
pub use strategy::StrategyMetadata;
pub use strategy::PIT_LOSS_LIMIT;
pub use tire::DegradationFactors;
pub use track::Circuit;
pub use track::Corner;
pub use track::CornerType;
pub use track::DrsZone;
pub use track::SectorInfo;
pub use track::SectorType;
pub use track::TrackCharacteristics;
pub use tire::TireCharacteristics;
pub use tire::TireCompound;
pub use tire::lemma_characteristics_deterministic;
pub use tire::CRITICAL_TIRE_TEMP;
pub use tire::DEGRADATION_RATE_BASE;
pub use tire::OPTIMAL_TIRE_TEMP_MAX;
pub use tire::OPTIMAL_TIRE_TEMP_MIN;
pub use types::CarId;
pub use types::FlagStatus;
pub use types::LapNumber;
pub use types::Milliseconds;
pub use types::Position;
pub use types::Sector;
pub use types::SessionType;
pub use types::TrackCondition;
pub use types::WeatherCondition;

verus! {

/// Library version.
pub const VERSION: &'static str = "0.1.0";

/// Maximum number of laps in a typical race.
pub const MAX_RACE_LAPS: u16 = 78;

/// Number of cars on the grid.
pub const GRID_SIZE: u8 = 20;

/// Mandatory pit stop count.
pub const MANDATORY_PIT_STOPS: u8 = 1;

/// Telemetry sampling rate (Hz).
pub const TELEMETRY_HZ: u32 = 1000;

} // verus!
