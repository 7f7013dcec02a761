//! Mapping from an open weather API's condition codes to the library's
//! weather conditions.

use vstd::prelude::*;
use crate::types::WeatherCondition;

verus! {

/// One weather entry of an open weather API response.
#[derive(Debug, Clone, PartialEq, Eq)]
pub struct OwmWeather {
    /// Numeric condition code.
    pub id: u16,
    /// Condition group name.
    pub main: String,
    /// Condition description.
    pub description: String,
}

/// The condition a weather code stands for: thunderstorms, downpours, and
/// snow count as heavy rain; drizzle and light rain as light rain; clear
/// skies as dry; cloud codes by their cover.
pub open spec fn spec_map_owm_condition(entries: Seq<OwmWeather>) -> WeatherCondition {
    if entries.len() == 0 {
        WeatherCondition::Dry
    } else {
        let code = entries[0].id;
        if 200 <= code <= 232 {
            WeatherCondition::HeavyRain
        } else if 300 <= code <= 321 {
            WeatherCondition::LightRain
        } else if (500 <= code <= 501) || code == 520 {
            WeatherCondition::LightRain
        } else if 502 <= code <= 531 {
            WeatherCondition::HeavyRain
        } else if 600 <= code <= 622 {
            WeatherCondition::HeavyRain
        } else if code == 800 {
            WeatherCondition::Dry
        } else if code == 801 {
            WeatherCondition::PartlyCloudy
        } else if 802 <= code <= 804 {
            WeatherCondition::Cloudy
        } else {
            WeatherCondition::Dry
        }
    }
}

/// Map open-weather condition codes to a weather condition; the first
/// entry decides, and an empty report counts as dry.
pub fn map_owm_condition(weather: &Vec<OwmWeather>) -> (r: WeatherCondition)
    ensures
        r == spec_map_owm_condition(weather@),
{
    if weather.len() == 0 {
        return WeatherCondition::Dry;
    }

    let code = weather[0].id;
    if 200 <= code && code <= 232 {
        WeatherCondition::HeavyRain
    } else if 300 <= code && code <= 321 {
        WeatherCondition::LightRain
    } else if (500 <= code && code <= 501) || code == 520 {
        WeatherCondition::LightRain
    } else if 502 <= code && code <= 531 {
        WeatherCondition::HeavyRain
    } else if 600 <= code && code <= 622 {
        WeatherCondition::HeavyRain
    } else if code == 800 {
        WeatherCondition::Dry
    } else if code == 801 {
        WeatherCondition::PartlyCloudy
    } else if 802 <= code && code <= 804 {
        WeatherCondition::Cloudy
    } else {
        WeatherCondition::Dry
    }
}

} // verus!
