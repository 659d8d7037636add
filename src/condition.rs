//! The shared weather vocabulary and the mapping of each vendor's codes into it.
use vstd::prelude::*;

verus! {

/// Weather conditions shared by every provider; `Unknown` stands for any
/// code that no vendor table lists.
#[derive(Clone, Copy, Debug, PartialEq, Eq, Structural)]
pub enum WeatherCondition {
    Clear,
    PartlyCloudy,
    Overcast,
    Foggy,
    Drizzle,
    Rainy,
    Snowy,
    SnowGrains,
    RainShowers,
    SnowShowers,
    Thunderstorms,
    Unknown,
}

/// Open-Meteo's WMO weather codes.
pub open spec fn open_meteo_condition(code: int) -> WeatherCondition {
    if code == 0 || code == 1 {
        WeatherCondition::Clear
    } else if code == 2 {
        WeatherCondition::PartlyCloudy
    } else if code == 3 {
        WeatherCondition::Overcast
    } else if code == 45 || code == 48 {
        WeatherCondition::Foggy
    } else if code == 51 || code == 53 || code == 55 || code == 56 || code == 57 {
        WeatherCondition::Drizzle
    } else if code == 61 || code == 63 || code == 65 || code == 66 || code == 67 {
        WeatherCondition::Rainy
    } else if code == 71 || code == 73 || code == 75 {
        WeatherCondition::Snowy
    } else if code == 77 {
        WeatherCondition::SnowGrains
    } else if 80 <= code <= 82 {
        WeatherCondition::RainShowers
    } else if code == 85 || code == 86 {
        WeatherCondition::SnowShowers
    } else if code == 95 || code == 96 || code == 99 {
        WeatherCondition::Thunderstorms
    } else {
        WeatherCondition::Unknown
    }
}

/// OpenWeatherMap's condition group ids.
pub open spec fn open_weather_map_id_condition(id: int) -> WeatherCondition {
    if 200 <= id <= 232 {
        WeatherCondition::Thunderstorms
    } else if 300 <= id <= 321 {
        WeatherCondition::Drizzle
    } else if 500 <= id <= 504 || id == 511 {
        WeatherCondition::Rainy
    } else if 520 <= id <= 531 {
        WeatherCondition::RainShowers
    } else if 600 <= id <= 602 || 611 <= id <= 616 {
        WeatherCondition::Snowy
    } else if 620 <= id <= 622 {
        WeatherCondition::SnowShowers
    } else if id == 741 {
        WeatherCondition::Foggy
    } else if id == 800 {
        WeatherCondition::Clear
    } else if 801 <= id <= 802 {
        WeatherCondition::PartlyCloudy
    } else if 803 <= id <= 804 {
        WeatherCondition::Overcast
    } else {
        WeatherCondition::Unknown
    }
}

/// OpenWeatherMap's list of condition ids: the first one decides, and an
/// empty list is `Unknown`.
pub open spec fn open_weather_map_condition(ids: Seq<i64>) -> WeatherCondition {
    if ids.len() == 0 {
        WeatherCondition::Unknown
    } else {
        open_weather_map_id_condition(ids[0] as int)
    }
}

impl WeatherCondition {
    pub open spec fn label_spec(self) -> Seq<char> {
        match self {
            WeatherCondition::Clear => "Clear"@,
            WeatherCondition::PartlyCloudy => "Partly Cloudy"@,
            WeatherCondition::Overcast => "Overcast"@,
            WeatherCondition::Foggy => "Foggy"@,
            WeatherCondition::Drizzle => "Drizzle"@,
            WeatherCondition::Rainy => "Rainy"@,
            WeatherCondition::Snowy => "Snowy"@,
            WeatherCondition::SnowGrains => "Snow Grains"@,
            WeatherCondition::RainShowers => "Showers"@,
            WeatherCondition::SnowShowers => "Showers"@,
            WeatherCondition::Thunderstorms => "Thunderstorm"@,
            WeatherCondition::Unknown => "Unknown"@,
        }
    }

    /// The text shown for the condition.
    pub fn label(&self) -> (r: String)
        ensures
            r@ == self.label_spec(),
    {
        let s = match self {
            WeatherCondition::Clear => "Clear",
            WeatherCondition::PartlyCloudy => "Partly Cloudy",
            WeatherCondition::Overcast => "Overcast",
            WeatherCondition::Foggy => "Foggy",
            WeatherCondition::Drizzle => "Drizzle",
            WeatherCondition::Rainy => "Rainy",
            WeatherCondition::Snowy => "Snowy",
            WeatherCondition::SnowGrains => "Snow Grains",
            WeatherCondition::RainShowers => "Showers",
            WeatherCondition::SnowShowers => "Showers",
            WeatherCondition::Thunderstorms => "Thunderstorm",
            WeatherCondition::Unknown => "Unknown",
        };
        String::from_str(s)
    }
}

/// Classifies an Open-Meteo weather code; total over every code.
pub fn classify_open_meteo(code: i32) -> (r: WeatherCondition)
    ensures
        r == open_meteo_condition(code as int),
{
    if code == 0 || code == 1 {
        WeatherCondition::Clear
    } else if code == 2 {
        WeatherCondition::PartlyCloudy
    } else if code == 3 {
        WeatherCondition::Overcast
    } else if code == 45 || code == 48 {
        WeatherCondition::Foggy
    } else if code == 51 || code == 53 || code == 55 || code == 56 || code == 57 {
        WeatherCondition::Drizzle
    } else if code == 61 || code == 63 || code == 65 || code == 66 || code == 67 {
        WeatherCondition::Rainy
    } else if code == 71 || code == 73 || code == 75 {
        WeatherCondition::Snowy
    } else if code == 77 {
        WeatherCondition::SnowGrains
    } else if 80 <= code && code <= 82 {
        WeatherCondition::RainShowers
    } else if code == 85 || code == 86 {
        WeatherCondition::SnowShowers
    } else if code == 95 || code == 96 || code == 99 {
        WeatherCondition::Thunderstorms
    } else {
        WeatherCondition::Unknown
    }
}

fn classify_open_weather_map_id(id: i64) -> (r: WeatherCondition)
    ensures
        r == open_weather_map_id_condition(id as int),
{
    if 200 <= id && id <= 232 {
        WeatherCondition::Thunderstorms
    } else if 300 <= id && id <= 321 {
        WeatherCondition::Drizzle
    } else if (500 <= id && id <= 504) || id == 511 {
        WeatherCondition::Rainy
    } else if 520 <= id && id <= 531 {
        WeatherCondition::RainShowers
    } else if (600 <= id && id <= 602) || (611 <= id && id <= 616) {
        WeatherCondition::Snowy
    } else if 620 <= id && id <= 622 {
        WeatherCondition::SnowShowers
    } else if id == 741 {
        WeatherCondition::Foggy
    } else if id == 800 {
        WeatherCondition::Clear
    } else if 801 <= id && id <= 802 {
        WeatherCondition::PartlyCloudy
    } else if 803 <= id && id <= 804 {
        WeatherCondition::Overcast
    } else {
        WeatherCondition::Unknown
    }
}

/// Classifies OpenWeatherMap's condition ids by the first of them; an empty
/// list is `Unknown`.
pub fn classify_open_weather_map(ids: &Vec<i64>) -> (r: WeatherCondition)
    ensures
        r == open_weather_map_condition(ids@),
{
    if ids.len() == 0 {
        WeatherCondition::Unknown
    } else {
        classify_open_weather_map_id(ids[0])
    }
}

/// Open-Meteo: codes 0 and 1 are clear, 45 and 48 foggy, and a code outside
/// every listed set is unknown.
pub proof fn lemma_open_meteo_classes(code: int)
    ensures
        (code == 0 || code == 1) ==> open_meteo_condition(code) == WeatherCondition::Clear,
        (code == 45 || code == 48) ==> open_meteo_condition(code) == WeatherCondition::Foggy,
        !(0 <= code <= 3 || code == 45 || code == 48 || code == 51 || code == 53 || code == 55
            || code == 56 || code == 57 || code == 61 || code == 63 || code == 65 || code == 66
            || code == 67 || code == 71 || code == 73 || code == 75 || code == 77 || 80 <= code
            <= 82 || code == 85 || code == 86 || code == 95 || code == 96 || code == 99)
            ==> open_meteo_condition(code) == WeatherCondition::Unknown,
{
}

/// OpenWeatherMap: a first id in 200..=232 is a thunderstorm, 800 is clear,
/// an id outside every listed range is unknown, and an empty list is unknown.
pub proof fn lemma_open_weather_map_classes(ids: Seq<i64>)
    ensures
        ids.len() == 0 ==> open_weather_map_condition(ids) == WeatherCondition::Unknown,
        ids.len() > 0 && 200 <= ids[0] <= 232 ==> open_weather_map_condition(ids)
            == WeatherCondition::Thunderstorms,
        ids.len() > 0 && ids[0] == 800 ==> open_weather_map_condition(ids)
            == WeatherCondition::Clear,
        ids.len() > 0 && !(200 <= ids[0] <= 232 || 300 <= ids[0] <= 321 || 500 <= ids[0] <= 504
            || ids[0] == 511 || 520 <= ids[0] <= 531 || 600 <= ids[0] <= 602 || 611 <= ids[0]
            <= 616 || 620 <= ids[0] <= 622 || ids[0] == 741 || 800 <= ids[0] <= 804)
            ==> open_weather_map_condition(ids) == WeatherCondition::Unknown,
{
}

} // verus!
