use f1_nexus::Circuit;
use f1_nexus::RecommendedTire;
use f1_nexus::Sector;
use f1_nexus::SectorWeather;
use f1_nexus::WeatherCondition;
use f1_nexus::WeatherForecast;
use f1_nexus::WeatherPrediction;

#[test]
fn test_circuit() {
    let monaco = Circuit::monaco();
    assert_eq!(monaco.id, "monaco");
    assert!(monaco.race_distance_km() > 250);
    assert!(monaco.characteristics.overtaking_difficulty > 900);
}

#[test]
fn test_famous_circuits() {
    let circuits = Circuit::famous_circuits();
    assert_eq!(circuits.len(), 5);
    assert!(circuits.iter().any(|c| c.id == "spa"));
}

#[test]
fn test_weather_forecast() {
    let forecast = WeatherForecast {
        overall_condition: WeatherCondition::LightRain,
        air_temperature: 18,
        track_temperature: 22,
        humidity: 850,
        wind_speed: 15,
        wind_direction: 270,
        rain_probability: 750,
        rainfall_intensity: 25,
        sector_conditions: vec![
            SectorWeather {
                sector: Sector::Sector1,
                condition: WeatherCondition::LightRain,
                rain_intensity: 20,
                track_temp: 22,
                grip_level: 650,
            },
            SectorWeather {
                sector: Sector::Sector2,
                condition: WeatherCondition::LightRain,
                rain_intensity: 30,
                track_temp: 21,
                grip_level: 600,
            },
            SectorWeather {
                sector: Sector::Sector3,
                condition: WeatherCondition::Dry,
                rain_intensity: 0,
                track_temp: 23,
                grip_level: 850,
            },
        ],
        predictions: vec![
            WeatherPrediction {
                minutes_ahead: 5,
                condition: WeatherCondition::LightRain,
                rain_probability: 800,
                confidence: 900,
            },
            WeatherPrediction {
                minutes_ahead: 15,
                condition: WeatherCondition::HeavyRain,
                rain_probability: 900,
                confidence: 750,
            },
        ],
    };

    assert!(forecast.has_rain_anywhere());
    assert_eq!(forecast.max_rain_intensity(), 30);
    assert!((forecast.average_grip_level() as i64 - 700).abs() < 10);
    assert!(forecast.rain_expected_in(10));
    assert_eq!(forecast.recommended_compound(), RecommendedTire::Intermediate);
}

#[test]
fn test_recommended_compound_heavy_rain() {
    let forecast = WeatherForecast {
        overall_condition: WeatherCondition::HeavyRain,
        air_temperature: 15,
        track_temperature: 17,
        humidity: 950,
        wind_speed: 20,
        wind_direction: 90,
        rain_probability: 1000,
        rainfall_intensity: 80,
        sector_conditions: vec![SectorWeather {
            sector: Sector::Sector1,
            condition: WeatherCondition::HeavyRain,
            rain_intensity: 80,
            track_temp: 17,
            grip_level: 400,
        }],
        predictions: vec![],
    };
    assert_eq!(forecast.recommended_compound(), RecommendedTire::Wet);
}
