//! The configuration that the providers and the cache read.
use vstd::prelude::*;
use crate::duration::CacheDuration;
use crate::units::ConfigUnits;

verus! {

/// Which vendor answers the weather requests.
#[derive(Clone, Copy, Debug, PartialEq, Eq, Structural)]
pub enum ConfigWeatherProvider {
    OpenMeteo,
    OpenWeatherMap,
}

impl ConfigWeatherProvider {
    pub open spec fn homepage_spec(self) -> Seq<char> {
        match self {
            ConfigWeatherProvider::OpenMeteo => "https://open-meteo.com"@,
            ConfigWeatherProvider::OpenWeatherMap => "https://openweathermap.org"@,
        }
    }

    /// The vendor's home page, shown as the data's source.
    pub fn homepage(&self) -> (r: String)
        ensures
            r@ == self.homepage_spec(),
    {
        match self {
            ConfigWeatherProvider::OpenMeteo => String::from_str("https://open-meteo.com"),
            ConfigWeatherProvider::OpenWeatherMap => String::from_str(
                "https://openweathermap.org",
            ),
        }
    }
}

/// Where to look up the weather: a city with its country code, or a
/// latitude and longitude, each kept as the decimal text that names it.
#[derive(Clone, Debug, PartialEq, Eq)]
pub enum ConfigLocation {
    City(String, String),
    Coordinates(String, String),
}

/// How the time of day is shown.
#[derive(Clone, Copy, Debug, PartialEq, Eq, Structural)]
pub enum ConfigTimeFormat {
    TwentyFourHour,
    TwelveHour,
}

#[derive(Clone, Debug, PartialEq, Eq)]
pub struct Config {
    pub provider: ConfigWeatherProvider,
    pub api_key: Option<String>,
    pub location: Option<ConfigLocation>,
    pub units: ConfigUnits,
    pub time_format: ConfigTimeFormat,
    pub caching_duration: CacheDuration,
}

impl Default for Config {
    /// Open-Meteo, no key, no location, metric units, a 24-hour clock and an
    /// hour of caching.
    fn default() -> (r: Config)
        ensures
            r.provider == ConfigWeatherProvider::OpenMeteo,
            r.api_key is None,
            r.location is None,
            r.units == ConfigUnits::Metric,
            r.time_format == ConfigTimeFormat::TwentyFourHour,
            r.caching_duration == (CacheDuration { minutes: 60 }),
    {
        Config {
            provider: ConfigWeatherProvider::OpenMeteo,
            api_key: None,
            location: None,
            units: ConfigUnits::Metric,
            time_format: ConfigTimeFormat::TwentyFourHour,
            caching_duration: CacheDuration { minutes: 60 },
        }
    }
}

impl Config {
    /// Fills in a missing location with the given coordinates, found by a
    /// lookup of where the machine is; a configured location stays.
    pub fn resolve_location(&mut self, latitude: String, longitude: String)
        ensures
            old(self).location is Some ==> *final(self) == *old(self),
            old(self).location is None ==> *final(self) == (Config {
                location: Some(ConfigLocation::Coordinates(latitude, longitude)),
                ..*old(self)
            }),
    {
        if self.location.is_none() {
            self.location = Some(ConfigLocation::Coordinates(latitude, longitude));
        }
    }
}

} // verus!
