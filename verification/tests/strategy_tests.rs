use f1_nexus::ErsDeploymentPlan;
use f1_nexus::ErsMode;
use f1_nexus::FuelStrategy;
use f1_nexus::LapNumber;
use f1_nexus::PitStop;
use f1_nexus::PitStopReason;
use f1_nexus::RaceStrategy;
use f1_nexus::StrategyMetadata;
use f1_nexus::TireCompound;

fn test_metadata() -> StrategyMetadata {
    StrategyMetadata {
        generated_at: 0,
        num_simulations: 10_000,
        contributing_agents: vec!["strategy-agent".to_string()],
        version_hash: None,
        parent_strategy_id: None,
    }
}

#[test]
fn test_strategy_validity() {
    let mut strategy = RaceStrategy {
        id: "test-strat-1".to_string(),
        starting_compound: TireCompound::C3,
        pit_stops: vec![PitStop {
            lap: LapNumber(25),
            compound: TireCompound::C2,
            pit_loss: 22_500,
            reason: PitStopReason::Mandatory,
            confidence: 950,
        }],
        fuel_strategy: FuelStrategy {
            starting_fuel: 110_000,
            fuel_saving_per_lap: 0,
            fuel_saving_laps: vec![],
            minimum_buffer: 2_000,
        },
        ers_plan: ErsDeploymentPlan {
            default_mode: ErsMode::Medium,
            lap_overrides: vec![],
            overtake_laps: vec![],
        },
        expected_lap_times: vec![],
        predicted_race_time: 5_400_000,
        confidence: 850,
        metadata: test_metadata(),
    };

    assert!(strategy.is_valid(50));
    assert_eq!(strategy.num_pit_stops(), 1);
    assert_eq!(strategy.total_pit_loss(), 22_500);
    assert_eq!(strategy.compound_for_lap(LapNumber(20)), TireCompound::C3);
    assert_eq!(strategy.compound_for_lap(LapNumber(30)), TireCompound::C2);

    // Invalid: pit stop beyond race duration.
    strategy.pit_stops[0].lap = LapNumber(100);
    assert!(!strategy.is_valid(50));
}

#[test]
fn test_stint_for_lap() {
    let strategy = RaceStrategy {
        id: "test-strat-2".to_string(),
        starting_compound: TireCompound::C3,
        pit_stops: vec![
            PitStop {
                lap: LapNumber(20),
                compound: TireCompound::C4,
                pit_loss: 21_000,
                reason: PitStopReason::Mandatory,
                confidence: 900,
            },
            PitStop {
                lap: LapNumber(40),
                compound: TireCompound::C5,
                pit_loss: 21_000,
                reason: PitStopReason::TireDegradation,
                confidence: 900,
            },
        ],
        fuel_strategy: FuelStrategy {
            starting_fuel: 110_000,
            fuel_saving_per_lap: 0,
            fuel_saving_laps: vec![],
            minimum_buffer: 1_000,
        },
        ers_plan: ErsDeploymentPlan {
            default_mode: ErsMode::Medium,
            lap_overrides: vec![],
            overtake_laps: vec![],
        },
        expected_lap_times: vec![],
        predicted_race_time: 0,
        confidence: 850,
        metadata: test_metadata(),
    };

    assert_eq!(strategy.stint_for_lap(LapNumber(10)).0, 0);
    assert_eq!(strategy.stint_for_lap(LapNumber(21)).0, 1);
    assert_eq!(strategy.stint_for_lap(LapNumber(41)).0, 2);
    assert_eq!(strategy.compound_for_lap(LapNumber(41)), TireCompound::C5);
}

#[test]
fn test_zero_stop_strategy_is_invalid() {
    let strategy = RaceStrategy {
        id: "test-strat-3".to_string(),
        starting_compound: TireCompound::C3,
        pit_stops: vec![],
        fuel_strategy: FuelStrategy {
            starting_fuel: 110_000,
            fuel_saving_per_lap: 0,
            fuel_saving_laps: vec![],
            minimum_buffer: 1_000,
        },
        ers_plan: ErsDeploymentPlan {
            default_mode: ErsMode::Medium,
            lap_overrides: vec![],
            overtake_laps: vec![],
        },
        expected_lap_times: vec![],
        predicted_race_time: 0,
        confidence: 850,
        metadata: test_metadata(),
    };
    assert!(!strategy.is_valid(50));
}
