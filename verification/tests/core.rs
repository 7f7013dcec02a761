use f1_nexus::AnomalySeverity;
use f1_nexus::CarId;
use f1_nexus::DriverInfo;
use f1_nexus::FiaRegulations;
use f1_nexus::OpenF1Driver;
use f1_nexus::OwmWeather;
use f1_nexus::WeatherCondition;
use f1_nexus::map_owm_condition;
use f1_nexus::VERSION;

#[test]
fn test_version() {
    assert!(!VERSION.is_empty());
}

#[test]
fn test_car_id_validation() {
    assert!(CarId::new(1).is_ok());
    assert!(CarId::new(20).is_ok());
    assert!(CarId::new(0).is_err());
    assert!(CarId::new(21).is_err());
}

#[test]
fn test_severity_ordering() {
    assert!(AnomalySeverity::Low < AnomalySeverity::Medium);
    assert!(AnomalySeverity::Medium < AnomalySeverity::High);
    assert!(AnomalySeverity::High > AnomalySeverity::Low);
}

#[test]
fn test_driver_info_conversion() {
    let driver = OpenF1Driver {
        session_key: 9158,
        driver_number: 1,
        broadcast_name: "M VERSTAPPEN".to_string(),
        full_name: "Max VERSTAPPEN".to_string(),
        name_acronym: "VER".to_string(),
        team_name: "Red Bull Racing".to_string(),
        team_colour: "3671C6".to_string(),
        headshot_url: Some("https://example.com/headshot.png".to_string()),
        country_code: "NED".to_string(),
    };

    let result = DriverInfo::try_from(driver);
    assert!(result.is_ok());

    let driver_info = result.unwrap();
    assert_eq!(driver_info.driver_number, 1);
    assert_eq!(driver_info.name, "Max VERSTAPPEN");
    assert_eq!(driver_info.acronym, "VER");
    assert_eq!(driver_info.team, "Red Bull Racing");
}

#[test]
fn test_map_owm_condition() {
    let weather = vec![OwmWeather {
        id: 800,
        main: "Clear".to_string(),
        description: "clear sky".to_string(),
    }];
    assert_eq!(map_owm_condition(&weather), WeatherCondition::Dry);

    let weather = vec![OwmWeather {
        id: 500,
        main: "Rain".to_string(),
        description: "light rain".to_string(),
    }];
    assert_eq!(map_owm_condition(&weather), WeatherCondition::LightRain);
}

#[test]
fn test_default_regulations() {
    let regs = FiaRegulations::default();
    assert_eq!(regs.max_fuel, 110_000);
    assert_eq!(regs.min_pit_stops, 1);
    assert_eq!(regs.pit_lane_speed_limit, 80);
}

#[test]
fn test_map_owm_condition_edge_codes() {
    let empty: Vec<OwmWeather> = vec![];
    assert_eq!(map_owm_condition(&empty), WeatherCondition::Dry);

    let mk = |id: u16| {
        vec![OwmWeather {
            id,
            main: String::new(),
            description: String::new(),
        }]
    };
    assert_eq!(map_owm_condition(&mk(200)), WeatherCondition::HeavyRain);
    assert_eq!(map_owm_condition(&mk(300)), WeatherCondition::LightRain);
    assert_eq!(map_owm_condition(&mk(520)), WeatherCondition::LightRain);
    assert_eq!(map_owm_condition(&mk(502)), WeatherCondition::HeavyRain);
    assert_eq!(map_owm_condition(&mk(600)), WeatherCondition::HeavyRain);
    assert_eq!(map_owm_condition(&mk(801)), WeatherCondition::PartlyCloudy);
    assert_eq!(map_owm_condition(&mk(804)), WeatherCondition::Cloudy);
    assert_eq!(map_owm_condition(&mk(712)), WeatherCondition::Dry);
}
