//! The unit system and the tokens derived from it.
use vstd::prelude::*;

verus! {

/// Metric or imperial display units.
#[derive(Clone, Copy, Debug, PartialEq, Eq, Structural)]
pub enum ConfigUnits {
    Metric,
    Imperial,
}

impl ConfigUnits {
    /// Temperature unit name as Open-Meteo's query takes it.
    pub open spec fn temperature_spec(self) -> Seq<char> {
        match self {
            ConfigUnits::Metric => "celsius"@,
            ConfigUnits::Imperial => "fahrenheit"@,
        }
    }

    /// Wind speed unit name as Open-Meteo's query takes it.
    pub open spec fn speed_spec(self) -> Seq<char> {
        match self {
            ConfigUnits::Metric => "kmh"@,
            ConfigUnits::Imperial => "mph"@,
        }
    }

    /// Unit system name as OpenWeatherMap's query takes it.
    pub open spec fn name_spec(self) -> Seq<char> {
        match self {
            ConfigUnits::Metric => "metric"@,
            ConfigUnits::Imperial => "imperial"@,
        }
    }

    /// Suffix of a displayed temperature.
    pub open spec fn temperature_symbol_spec(self) -> Seq<char> {
        match self {
            ConfigUnits::Metric => "°C"@,
            ConfigUnits::Imperial => "°F"@,
        }
    }

    /// Suffix of a displayed wind speed.
    pub open spec fn speed_symbol_spec(self) -> Seq<char> {
        match self {
            ConfigUnits::Metric => "km/h"@,
            ConfigUnits::Imperial => "mph"@,
        }
    }

    pub fn temperature(&self) -> (r: String)
        ensures
            r@ == self.temperature_spec(),
    {
        match self {
            ConfigUnits::Metric => String::from_str("celsius"),
            ConfigUnits::Imperial => String::from_str("fahrenheit"),
        }
    }

    pub fn speed(&self) -> (r: String)
        ensures
            r@ == self.speed_spec(),
    {
        match self {
            ConfigUnits::Metric => String::from_str("kmh"),
            ConfigUnits::Imperial => String::from_str("mph"),
        }
    }

    pub fn to_string(&self) -> (r: String)
        ensures
            r@ == self.name_spec(),
    {
        match self {
            ConfigUnits::Metric => String::from_str("metric"),
            ConfigUnits::Imperial => String::from_str("imperial"),
        }
    }

    pub fn temperature_symbol(&self) -> (r: &'static str)
        ensures
            r@ == self.temperature_symbol_spec(),
    {
        match self {
            ConfigUnits::Metric => "°C",
            ConfigUnits::Imperial => "°F",
        }
    }

    pub fn speed_symbol(&self) -> (r: &'static str)
        ensures
            r@ == self.speed_symbol_spec(),
    {
        match self {
            ConfigUnits::Metric => "km/h",
            ConfigUnits::Imperial => "mph",
        }
    }

    /// Decimal places shown for an OpenWeatherMap wind speed: the number is
    /// already in the display unit, one decimal under metric, none under imperial.
    pub fn wind_speed_decimals(&self) -> (r: usize)
        ensures
            r == (if *self == ConfigUnits::Metric { 1usize } else { 0usize }),
    {
        match self {
            ConfigUnits::Metric => 1,
            ConfigUnits::Imperial => 0,
        }
    }
}

} // verus!
