use f1_nexus::create_simulator;
use f1_nexus::Circuit;
use f1_nexus::DegradationFactors;
use f1_nexus::ErsDeploymentPlan;
use f1_nexus::ErsMode;
use f1_nexus::FuelConsumptionModel;
use f1_nexus::FuelStrategy;
use f1_nexus::LapNumber;
use f1_nexus::PitStop;
use f1_nexus::PitStopReason;
use f1_nexus::RaceSimulator;
use f1_nexus::RaceStrategy;
use f1_nexus::StrategyMetadata;
use f1_nexus::TireCompound;
use f1_nexus::WeatherCondition;
use f1_nexus::WeatherConditions;
use f1_nexus::WeatherForecast;

fn create_test_strategy() -> RaceStrategy {
    RaceStrategy {
        id: "test-strategy".to_string(),
        starting_compound: TireCompound::C3,
        pit_stops: vec![
            PitStop {
                lap: LapNumber(20),
                compound: TireCompound::C4,
                pit_loss: 22_000,
                reason: PitStopReason::Mandatory,
                confidence: 900,
            },
            PitStop {
                lap: LapNumber(40),
                compound: TireCompound::C5,
                pit_loss: 21_500,
                reason: PitStopReason::TireDegradation,
                confidence: 850,
            },
        ],
        fuel_strategy: FuelStrategy {
            starting_fuel: 110_000,
            fuel_saving_per_lap: 0,
            fuel_saving_laps: vec![],
            minimum_buffer: 1_500,
        },
        ers_plan: ErsDeploymentPlan {
            default_mode: ErsMode::Medium,
            lap_overrides: vec![],
            overtake_laps: vec![],
        },
        expected_lap_times: vec![],
        predicted_race_time: 0,
        confidence: 850,
        metadata: StrategyMetadata {
            generated_at: 0,
            num_simulations: 1,
            contributing_agents: vec!["test-simulator".to_string()],
            version_hash: None,
            parent_strategy_id: None,
        },
    }
}

#[test]
fn test_race_simulation_basic() {
    let circuit = Circuit::monaco();
    let strategy = create_test_strategy();
    let fuel_model = FuelConsumptionModel::default_model();
    let weather = WeatherConditions {
        initial_condition: WeatherCondition::Dry,
        track_temperature: 30,
        air_temperature: 25,
        changes: vec![],
    };

    let simulator = RaceSimulator::new(circuit, strategy, fuel_model, weather);
    let result = simulator.simulate_race();

    assert_eq!(result.lap_times.len(), 78); // Monaco has 78 laps.
    assert_eq!(result.pit_stops.len(), 2); // Two pit stops.
    assert_eq!(result.fuel_history.len(), 78);

    assert!(result.total_time > 0);

    // Between 1.5 and 2.5 hours.
    assert!(result.total_time > 5_400_000);
    assert!(result.total_time < 9_000_000);

    // Average lap time around the Monaco race pace.
    assert!(result.average_lap_time > 70_000);
    assert!(result.average_lap_time < 90_000);

    assert!(result.fastest_lap < result.slowest_lap);

    assert_eq!(result.tire_history.len(), 3); // Starting set + 2 stops.
    assert_eq!(result.tire_history[0].1, TireCompound::C3);
    assert_eq!(result.tire_history[1].1, TireCompound::C4);
    assert_eq!(result.tire_history[2].1, TireCompound::C5);

    // The fuel trace falls strictly, lap over lap.
    for i in 1..result.fuel_history.len() {
        assert!(result.fuel_history[i] < result.fuel_history[i - 1]);
    }

    // Lap 21, on fresh tires, is faster than lap 20 on the worn set.
    assert!(result.lap_times[20] < result.lap_times[19]);
}

#[test]
fn test_pit_stop_events() {
    let circuit = Circuit::monaco();
    let strategy = create_test_strategy();
    let simulator = create_simulator(circuit, strategy, DegradationFactors::default());

    let result = simulator.simulate_race();

    assert_eq!(result.pit_stops[0].lap.0, 20);
    assert_eq!(result.pit_stops[0].old_compound, TireCompound::C3);
    assert_eq!(result.pit_stops[0].new_compound, TireCompound::C4);
    assert_eq!(result.pit_stops[0].tire_age, 20); // 20 laps on the first stint.

    assert_eq!(result.pit_stops[1].lap.0, 40);
    assert_eq!(result.pit_stops[1].old_compound, TireCompound::C4);
    assert_eq!(result.pit_stops[1].new_compound, TireCompound::C5);
    assert_eq!(result.pit_stops[1].tire_age, 20); // 20 laps on the second stint.

    assert!(result.pit_stops[0].fuel_remaining > result.pit_stops[1].fuel_remaining);
}

#[test]
fn simulation_test_fuel_consumption() {
    let circuit = Circuit::silverstone();
    let strategy = create_test_strategy();
    let simulator = create_simulator(circuit, strategy, DegradationFactors::default());

    let result = simulator.simulate_race();

    // Fuel decreases strictly, lap over lap.
    for i in 1..result.fuel_history.len() {
        assert!(result.fuel_history[i] < result.fuel_history[i - 1]);
    }

    let final_fuel = *result.fuel_history.last().unwrap();
    if final_fuel < 0 {
        assert!(result
            .warnings
            .iter()
            .any(|w| w.message().contains("fuel")));
    }
}

#[test]
fn simulation_test_tire_degradation_effect() {
    let circuit = Circuit::monaco();
    let strategy = create_test_strategy();
    let simulator = create_simulator(circuit, strategy, DegradationFactors::default());

    let result = simulator.simulate_race();

    // Lap times in the first stint grow with tire wear.
    let lap_5_time = result.lap_times[4];
    let lap_19_time = result.lap_times[18];
    assert!(lap_19_time > lap_5_time);

    // After the stop on lap 20, fresh tires make lap 21 faster.
    let lap_20_time = result.lap_times[19];
    let lap_21_time = result.lap_times[20];
    assert!(lap_21_time < lap_20_time);
}

#[test]
fn test_weather_changes() {
    let circuit = Circuit::spa();
    let mut strategy = create_test_strategy();

    // Add a wet-tire stop for the weather change.
    strategy.pit_stops.push(PitStop {
        lap: LapNumber(15),
        compound: TireCompound::Intermediate,
        pit_loss: 24_000,
        reason: PitStopReason::WeatherChange,
        confidence: 950,
    });
    // Keep the stop order by lap.
    strategy.pit_stops.sort_by_key(|ps| ps.lap.0);

    let fuel_model = FuelConsumptionModel::default_model();
    let weather = WeatherConditions {
        initial_condition: WeatherCondition::Dry,
        track_temperature: 25,
        air_temperature: 20,
        changes: vec![
            (LapNumber(15), WeatherCondition::LightRain, 18),
            (LapNumber(30), WeatherCondition::Dry, 22),
        ],
    };

    let simulator = RaceSimulator::new(circuit, strategy, fuel_model, weather);
    let result = simulator.simulate_race();

    assert!(result.total_time > 0);
    assert!(result.pit_stops.len() >= 2);
}

#[test]
fn test_insufficient_fuel_warning() {
    let circuit = Circuit::monaco();
    let mut strategy = create_test_strategy();

    // Too little fuel for a 78-lap race.
    strategy.fuel_strategy.starting_fuel = 80_000;

    let simulator = create_simulator(circuit, strategy, DegradationFactors::default());
    let result = simulator.simulate_race();

    assert!(!result.warnings.is_empty());
    assert!(result
        .warnings
        .iter()
        .any(|w| w.message().contains("fuel") || w.message().contains("Fuel")));
}

#[test]
fn test_tire_age_warning() {
    let circuit = Circuit::silverstone();
    let mut strategy = create_test_strategy();

    // A single early stop onto a short-lived soft tire.
    strategy.pit_stops = vec![PitStop {
        lap: LapNumber(10),
        compound: TireCompound::C5,
        pit_loss: 22_000,
        reason: PitStopReason::Mandatory,
        confidence: 900,
    }];

    let simulator = create_simulator(circuit, strategy, DegradationFactors::default());
    let result = simulator.simulate_race();

    assert!(result
        .warnings
        .iter()
        .any(|w| w.message().contains("Tire age exceeded")));
}

#[test]
fn test_zero_pit_stop_warning() {
    let circuit = Circuit::monaco();
    let mut strategy = create_test_strategy();
    strategy.pit_stops = vec![];

    let simulator = create_simulator(circuit, strategy, DegradationFactors::default());
    let result = simulator.simulate_race();

    // The race completes; the regulation violation arrives as a warning.
    assert_eq!(result.lap_times.len(), 78);
    assert!(result
        .warnings
        .iter()
        .any(|w| w.message().contains("no pit stops executed")));
}

#[test]
fn test_temperature_effects() {
    let circuit = Circuit::monza();
    let strategy = create_test_strategy();
    let fuel_model = FuelConsumptionModel::default_model();

    let cold_weather = WeatherConditions {
        initial_condition: WeatherCondition::Cloudy,
        track_temperature: 15,
        air_temperature: 12,
        changes: vec![],
    };

    let cold_sim = RaceSimulator::new(
        circuit.clone(),
        strategy.clone(),
        fuel_model.clone(),
        cold_weather,
    );
    let cold_result = cold_sim.simulate_race();

    let hot_weather = WeatherConditions {
        initial_condition: WeatherCondition::Dry,
        track_temperature: 50,
        air_temperature: 35,
        changes: vec![],
    };

    let hot_sim = RaceSimulator::new(circuit, strategy, fuel_model, hot_weather);
    let hot_result = hot_sim.simulate_race();

    assert!(cold_result.total_time > 0);
    assert!(hot_result.total_time > 0);

    assert!(cold_result.average_lap_time != hot_result.average_lap_time);
}

#[test]
fn test_create_simulator_helper() {
    let circuit = Circuit::suzuka();
    let strategy = create_test_strategy();
    let degradation = DegradationFactors::default();

    let simulator = create_simulator(circuit, strategy, degradation);
    let result = simulator.simulate_race();

    assert!(result.total_time > 0);
    assert!(!result.lap_times.is_empty());
}

#[test]
fn test_weather_conditions_from_forecast() {
    let forecast = WeatherForecast {
        overall_condition: WeatherCondition::Dry,
        air_temperature: 22,
        track_temperature: 28,
        humidity: 600,
        wind_speed: 10,
        wind_direction: 180,
        rain_probability: 200,
        rainfall_intensity: 0,
        sector_conditions: vec![],
        predictions: vec![],
    };

    let weather = WeatherConditions::from_forecast(&forecast);

    assert_eq!(weather.initial_condition, WeatherCondition::Dry);
    assert_eq!(weather.track_temperature, 28);
    assert_eq!(weather.air_temperature, 22);
    assert!(weather.changes.is_empty());
}

#[test]
fn test_wrong_tire_warning_in_rain() {
    let circuit = Circuit::monaco();
    let strategy = create_test_strategy();
    let fuel_model = FuelConsumptionModel::default_model();
    let weather = WeatherConditions {
        initial_condition: WeatherCondition::HeavyRain,
        track_temperature: 18,
        air_temperature: 15,
        changes: vec![],
    };

    let simulator = RaceSimulator::new(circuit, strategy, fuel_model, weather);
    let result = simulator.simulate_race();

    assert!(result
        .warnings
        .iter()
        .any(|w| w.message().contains("Wrong tire compound")));
}

#[test]
fn test_out_of_fuel_verdict() {
    let circuit = Circuit::monaco();
    let mut strategy = create_test_strategy();
    strategy.fuel_strategy.starting_fuel = 10_000;

    let simulator = create_simulator(circuit, strategy, DegradationFactors::default());
    let result = simulator.simulate_race();

    assert!(*result.fuel_history.last().unwrap() < 0);
    assert!(result
        .warnings
        .iter()
        .any(|w| w.message().contains("ran out of fuel")));
}
