use f1_nexus::calculate_lap_time;
use f1_nexus::calculate_pit_window;
use f1_nexus::calculate_tire_age;
use f1_nexus::compare_strategies;
use f1_nexus::estimate_time_loss;
use f1_nexus::is_valid_strategy;
use f1_nexus::optimize_pit_strategy;
use f1_nexus::score_compound;
use f1_nexus::select_optimal_compound;
use f1_nexus::Circuit;
use f1_nexus::ConfigError;
use f1_nexus::DegradationFactors;
use f1_nexus::ErsDeploymentPlan;
use f1_nexus::ErsMode;
use f1_nexus::FuelConsumptionModel;
use f1_nexus::FuelStrategy;
use f1_nexus::LapNumber;
use f1_nexus::OptimizationConfig;
use f1_nexus::OptimizationError;
use f1_nexus::PitStop;
use f1_nexus::PitStopReason;
use f1_nexus::RaceStrategy;
use f1_nexus::StrategyMetadata;
use f1_nexus::TireCompound;
use f1_nexus::TrackCharacteristics;

fn create_test_config() -> OptimizationConfig {
    OptimizationConfig {
        total_laps: 50,
        circuit: Circuit::monaco(),
        available_compounds: vec![TireCompound::C3, TireCompound::C4, TireCompound::C5],
        pit_lane_time_loss: 18_000,
        tire_change_time: 2_500,
        current_position: 5,
        competitors_ahead: vec![],
        degradation_factors: DegradationFactors::default(),
        fuel_model: FuelConsumptionModel::default_model(),
        starting_fuel: 110_000,
        min_pit_stops: 1,
        max_pit_stops: 3,
    }
}

fn test_metadata() -> StrategyMetadata {
    StrategyMetadata {
        generated_at: 0,
        num_simulations: 1_000,
        contributing_agents: vec!["test".to_string()],
        version_hash: None,
        parent_strategy_id: None,
    }
}

#[test]
fn test_optimize_pit_strategy() {
    let config = create_test_config();
    let result = optimize_pit_strategy(&config);

    assert!(result.is_ok());
    let strategy = result.unwrap();

    // Should have at least 1 pit stop (mandatory).
    assert!(strategy.num_pit_stops() >= 1);

    // Should be valid.
    assert!(strategy.is_valid(config.total_laps));

    // Should have a reasonable race time.
    assert!(strategy.predicted_race_time > 0);
    assert!(strategy.predicted_race_time < 10_000_000);

    // The generated identifier has the canonical 36-character form.
    assert_eq!(strategy.id.len(), 36);
}

#[test]
fn test_calculate_pit_window() {
    let config = create_test_config();
    let window = calculate_pit_window(1, TireCompound::C3, &config);

    assert!(window.earliest_lap > 0);
    assert!(window.latest_lap <= config.total_laps);
    assert!(window.earliest_lap <= window.latest_lap);
    assert!(window.optimal_start >= window.earliest_lap);
    assert!(window.optimal_end <= window.latest_lap);
}

#[test]
fn test_estimate_time_loss() {
    let config = create_test_config();

    let early_loss = estimate_time_loss(&config, 10);
    let late_loss = estimate_time_loss(&config, 40);

    assert!(early_loss > 0);
    assert!(late_loss > 0);

    // Late in the race the car is lighter, so the loss cannot grow.
    assert!(late_loss <= early_loss);
}

#[test]
fn test_estimate_time_loss_exact_value() {
    let config = create_test_config();
    // Base loss 20500 ms, fuel factor 1.08 at lap 10 of 50, and a
    // position penalty of 1000 ms for fifth place.
    assert_eq!(estimate_time_loss(&config, 10), 20_500 * 1_080_000 / 1_000_000 + 1_000);
}

fn comparison_strategy(id: &str, lap: u16, compound: TireCompound, time: i64) -> RaceStrategy {
    RaceStrategy {
        id: id.to_string(),
        starting_compound: TireCompound::C3,
        pit_stops: vec![PitStop {
            lap: LapNumber(lap),
            compound,
            pit_loss: 20_500,
            reason: PitStopReason::Mandatory,
            confidence: 900,
        }],
        fuel_strategy: FuelStrategy {
            starting_fuel: 110_000,
            fuel_saving_per_lap: 0,
            fuel_saving_laps: vec![],
            minimum_buffer: 1_000,
        },
        ers_plan: ErsDeploymentPlan {
            default_mode: ErsMode::Medium,
            lap_overrides: vec![],
            overtake_laps: vec![],
        },
        expected_lap_times: vec![],
        predicted_race_time: time,
        confidence: 850,
        metadata: test_metadata(),
    }
}

#[test]
fn test_compare_strategies() {
    let config = create_test_config();

    let strategy_a = comparison_strategy("strategy-a", 20, TireCompound::C4, 5_400_000);
    let strategy_b = comparison_strategy("strategy-b", 25, TireCompound::C5, 5_410_000);

    let comparison = compare_strategies(&strategy_a, &strategy_b, &config);

    assert_eq!(comparison.time_delta, -10_000); // A is 10 s faster.
    assert_eq!(comparison.breakdown.pit_loss_difference, 0); // Same pit loss.
}

#[test]
fn test_tire_age_calculation() {
    let pit_stops = vec![PitStop {
        lap: LapNumber(20),
        compound: TireCompound::C4,
        pit_loss: 20_500,
        reason: PitStopReason::Mandatory,
        confidence: 900,
    }];

    assert_eq!(calculate_tire_age(10, &pit_stops), 10); // Before first pit.
    assert_eq!(calculate_tire_age(25, &pit_stops), 5); // 5 laps after pit on lap 20.
    assert_eq!(calculate_tire_age(50, &pit_stops), 30); // 30 laps after pit.
}

#[test]
fn test_strategy_validation() {
    let config = create_test_config();

    let valid_stops = vec![PitStop {
        lap: LapNumber(25),
        compound: TireCompound::C4,
        pit_loss: 20_500,
        reason: PitStopReason::Mandatory,
        confidence: 900,
    }];
    assert!(is_valid_strategy(&valid_stops, &config));

    let no_stops: Vec<PitStop> = vec![];
    assert!(!is_valid_strategy(&no_stops, &config));
}

#[test]
fn test_lap_time_calculation() {
    let config = create_test_config();

    // Fresh tires should be faster.
    let fresh_time = calculate_lap_time(TireCompound::C5, 0, &config, 10);
    let worn_time = calculate_lap_time(TireCompound::C5, 15, &config, 10);

    assert!(fresh_time < worn_time);

    // A grippier compound should be faster, all else equal.
    let c3_time = calculate_lap_time(TireCompound::C3, 5, &config, 10);
    let c5_time = calculate_lap_time(TireCompound::C5, 5, &config, 10);

    assert!(c5_time < c3_time);
}

#[test]
fn test_lap_time_monotone_in_age() {
    let config = create_test_config();
    // Tire wear never makes a lap faster: sample the whole first stint.
    for age in 0..30u16 {
        let earlier = calculate_lap_time(TireCompound::C3, age, &config, 10);
        let later = calculate_lap_time(TireCompound::C3, age + 1, &config, 10);
        assert!(earlier <= later);
    }
}

#[test]
fn test_select_optimal_compound_hot_track() {
    let circuit = Circuit::monaco();
    let compounds = vec![TireCompound::C3, TireCompound::C4, TireCompound::C5];
    let degradation = DegradationFactors {
        track_severity: 1_000,
        temperature_factor: 1_000,
        driving_style_factor: 1_000,
        fuel_load_factor: 1_000,
        downforce_factor: 1_000,
    };

    // A hot track favors harder compounds with higher working temperatures.
    let compound = select_optimal_compound(&circuit, &compounds, 40, 100_000, 20, &degradation);

    assert!(compound == TireCompound::C3 || compound == TireCompound::C4);
}

#[test]
fn test_select_optimal_compound_cold_track() {
    let circuit = Circuit::monaco();
    let compounds = vec![TireCompound::C3, TireCompound::C4, TireCompound::C5];
    let degradation = DegradationFactors {
        track_severity: 1_000,
        temperature_factor: 1_000,
        driving_style_factor: 1_000,
        fuel_load_factor: 1_000,
        downforce_factor: 1_000,
    };

    let compound = select_optimal_compound(&circuit, &compounds, 15, 50_000, 15, &degradation);

    // The algorithm balances grip, degradation, and thermal fit; it must
    // pick one of the available compounds.
    assert!(compounds.contains(&compound));
}

#[test]
fn test_select_optimal_compound_long_stint() {
    let circuit = Circuit::silverstone();
    let compounds = vec![TireCompound::C1, TireCompound::C2, TireCompound::C3];
    let degradation = DegradationFactors {
        track_severity: 1_200,
        temperature_factor: 1_000,
        driving_style_factor: 1_000,
        fuel_load_factor: 1_000,
        downforce_factor: 1_000,
    };

    // A long stint under high degradation needs a harder compound.
    let compound = select_optimal_compound(&circuit, &compounds, 25, 110_000, 30, &degradation);

    assert!(compound == TireCompound::C1 || compound == TireCompound::C2);
}

#[test]
fn test_select_optimal_compound_empty_list() {
    let circuit = Circuit::monaco();
    let compounds: Vec<TireCompound> = vec![];
    let degradation = DegradationFactors {
        track_severity: 1_000,
        temperature_factor: 1_000,
        driving_style_factor: 1_000,
        fuel_load_factor: 1_000,
        downforce_factor: 1_000,
    };

    let compound = select_optimal_compound(&circuit, &compounds, 25, 80_000, 20, &degradation);

    assert_eq!(compound, TireCompound::C3);
}

#[test]
fn test_compound_scoring_grip() {
    let circuit = Circuit {
        id: "test".to_string(),
        name: "Test High Severity".to_string(),
        country: "Test".to_string(),
        length: 5_000,
        num_turns: 15,
        lap_record: 80_000,
        characteristics: TrackCharacteristics {
            tire_severity: 1_800,
            fuel_consumption: 1_000,
            overtaking_difficulty: 500,
            downforce_level: 800,
            average_speed: 200,
            maximum_speed: 320,
            elevation_change: 100,
            weather_variability: 300,
        },
        sectors: vec![],
        drs_zones: vec![],
        typical_race_laps: 50,
    };

    let score_c5 = score_compound(
        TireCompound::C5,
        &circuit,
        25,
        80_000,
        15,
        &DegradationFactors::default(),
    );

    let score_c1 = score_compound(
        TireCompound::C1,
        &circuit,
        25,
        80_000,
        15,
        &DegradationFactors::default(),
    );

    // Both should return valid scores between 0 and 1 (in thousandths).
    assert!(score_c5 >= 0 && score_c5 <= 1_000);
    assert!(score_c1 >= 0 && score_c1 <= 1_000);
}

#[test]
fn test_optimize_rejects_zero_laps() {
    let mut config = create_test_config();
    config.total_laps = 0;
    let result = optimize_pit_strategy(&config);
    assert_eq!(
        result.unwrap_err(),
        OptimizationError::InvalidConfig(ConfigError::ZeroTotalLaps)
    );
    assert_eq!(
        OptimizationError::InvalidConfig(ConfigError::ZeroTotalLaps).message(),
        "Total laps must be greater than 0"
    );
}

#[test]
fn test_optimize_rejects_empty_compounds() {
    let mut config = create_test_config();
    config.available_compounds = vec![];
    let result = optimize_pit_strategy(&config);
    assert_eq!(
        result.unwrap_err(),
        OptimizationError::InvalidConfig(ConfigError::NoCompounds)
    );
    assert_eq!(
        OptimizationError::InvalidConfig(ConfigError::NoCompounds).message(),
        "Must have at least one available compound"
    );
}

#[test]
fn test_optimize_rejects_min_above_max() {
    let mut config = create_test_config();
    config.min_pit_stops = 3;
    config.max_pit_stops = 1;
    let result = optimize_pit_strategy(&config);
    assert_eq!(
        result.unwrap_err(),
        OptimizationError::InvalidConfig(ConfigError::MinStopsExceedMax)
    );
    assert_eq!(
        OptimizationError::InvalidConfig(ConfigError::MinStopsExceedMax).message(),
        "Min pit stops cannot exceed max pit stops"
    );
}

#[test]
fn test_optimize_infeasible_with_single_compound() {
    let mut config = create_test_config();
    // One compound only: the mandatory compound change is impossible.
    config.available_compounds = vec![TireCompound::C3];
    let result = optimize_pit_strategy(&config);
    assert_eq!(result.unwrap_err(), OptimizationError::Infeasible);
    assert_eq!(
        OptimizationError::Infeasible.message(),
        "No valid strategy found within constraints"
    );
}

#[test]
fn test_optimize_monaco_with_hard_compounds() {
    // Monaco, 78 laps, compounds C1/C2/C3, between one and three stops.
    let config = OptimizationConfig {
        total_laps: 78,
        circuit: Circuit::monaco(),
        available_compounds: vec![TireCompound::C1, TireCompound::C2, TireCompound::C3],
        pit_lane_time_loss: 18_000,
        tire_change_time: 2_500,
        current_position: 5,
        competitors_ahead: vec![],
        degradation_factors: DegradationFactors::default(),
        fuel_model: FuelConsumptionModel::default_model(),
        starting_fuel: 110_000,
        min_pit_stops: 1,
        max_pit_stops: 3,
    };
    let strategy = optimize_pit_strategy(&config).unwrap();
    assert!(strategy.num_pit_stops() >= 1);
    assert!(strategy.predicted_race_time > 5_000_000);
    assert!(strategy.predicted_race_time < 7_000_000);
    assert!(strategy.is_valid(78));
}

#[test]
fn test_optimize_uses_two_distinct_compounds() {
    // Any strategy the optimizer returns with at least one stop must use a
    // second compound, since a stop always fits a different compound.
    let config = create_test_config();
    let strategy = optimize_pit_strategy(&config).unwrap();
    assert!(strategy
        .pit_stops
        .iter()
        .any(|ps| ps.compound != strategy.starting_compound));
}

#[test]
fn test_pit_window_ordering_across_compounds() {
    let config = create_test_config();
    for compound in [
        TireCompound::C0,
        TireCompound::C1,
        TireCompound::C2,
        TireCompound::C3,
        TireCompound::C4,
        TireCompound::C5,
        TireCompound::Intermediate,
        TireCompound::Wet,
    ] {
        for lap in [1u16, 10, 25, 49] {
            let w = calculate_pit_window(lap, compound, &config);
            assert!(w.earliest_lap <= w.optimal_start);
            assert!(w.optimal_start <= w.optimal_end);
            assert!(w.optimal_end <= w.latest_lap);
            assert!(w.latest_lap <= config.total_laps);
        }
    }
}
