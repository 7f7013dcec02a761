use f1_nexus::DegradationFactors;
use f1_nexus::FuelConsumptionModel;
use f1_nexus::TireCharacteristics;
use f1_nexus::TireCompound;
use f1_nexus::MAX_FUEL_CAPACITY;

#[test]
fn test_tire_characteristics() {
    let c3 = TireCharacteristics::for_compound(TireCompound::C3);
    assert_eq!(c3.compound, TireCompound::C3);
    assert!(c3.grip_level > 80);
    assert!(c3.typical_life < 30);

    assert_eq!(c3.grip_multiplier_for_temp(100), 1000);
    assert!(c3.grip_multiplier_for_temp(70) < 1000);
    assert!(c3.grip_multiplier_for_temp(130) < 1000);
}

#[test]
fn test_degradation_factors() {
    let factors = DegradationFactors {
        track_severity: 1200,
        temperature_factor: 900,
        driving_style_factor: 1100,
        fuel_load_factor: 1000,
        downforce_factor: 1000,
    };

    let multiplier = factors.total_multiplier() as i64;
    assert!((multiplier - 1188).abs() < 10);
}

#[test]
fn test_remaining_life_prediction() {
    let c3 = TireCharacteristics::for_compound(TireCompound::C3);
    let remaining = c3.predict_remaining_life(500, 1000);

    // With 50% wear remaining and a 0.013 wear/lap rate, roughly 38 laps
    // (in thousandths of a lap) should remain.
    let laps = remaining.unwrap();
    assert!(laps > 35_000 && laps < 40_000);
}

#[test]
fn fuel_test_fuel_consumption() {
    let model = FuelConsumptionModel::default_model();

    let consumption = model.consumption_per_lap(100_000);
    assert!(consumption > 1_500 && consumption < 2_000);

    let laps = model.laps_remaining(50_000).unwrap();
    assert!(laps > 25_000 && laps < 35_000);

    let needed = model.fuel_needed_for_laps(50, 110_000);
    assert!(needed < MAX_FUEL_CAPACITY);
}

#[test]
fn test_fuel_saving() {
    let model = FuelConsumptionModel::default_model();

    // Scenario: 30 laps remaining, only 40 kg of fuel.
    let saving = model.fuel_saving_needed(40_000, 30);

    assert!(saving.is_some());
    assert!(saving.unwrap() > 0);
}

#[test]
fn test_pure_models_repeat_identically() {
    // The tire table and the fuel model are pure: repeated calls on the
    // same inputs return identical results.
    let a = TireCharacteristics::for_compound(TireCompound::C4);
    let b = TireCharacteristics::for_compound(TireCompound::C4);
    assert_eq!(a, b);

    let model = FuelConsumptionModel::default_model();
    assert_eq!(model.consumption_per_lap(87_654), model.consumption_per_lap(87_654));
    assert_eq!(
        model.fuel_needed_for_laps(40, 99_000),
        model.fuel_needed_for_laps(40, 99_000)
    );
}

#[test]
fn test_consumption_exact_value() {
    let model = FuelConsumptionModel::default_model();
    // 1600 g/lap, neutral track, 0.05% per kg: at 100 kg on board the burn
    // is 1600 * 1.05 = 1680 g.
    assert_eq!(model.consumption_per_lap(100_000), 1_680);
    assert_eq!(model.consumption_per_lap(0), 1_600);
}

#[test]
fn test_grip_multiplier_exact_values() {
    let c0 = TireCharacteristics::for_compound(TireCompound::C0);
    // Optimal window 85-105: in range, 10 degrees cold, far too cold
    // (floored), 10 degrees hot, far too hot (floored).
    assert_eq!(c0.grip_multiplier_for_temp(90), 1000);
    assert_eq!(c0.grip_multiplier_for_temp(75), 800);
    assert_eq!(c0.grip_multiplier_for_temp(-100), 500);
    assert_eq!(c0.grip_multiplier_for_temp(115), 700);
    assert_eq!(c0.grip_multiplier_for_temp(400), 300);
}

#[test]
fn test_remaining_life_unlimited_when_no_degradation() {
    let c3 = TireCharacteristics::for_compound(TireCompound::C3);
    // Zero track severity makes the adjusted wear rate zero: the model
    // reports no foreseeable limit, never an error.
    assert_eq!(c3.predict_remaining_life(500, 0), None);
}
