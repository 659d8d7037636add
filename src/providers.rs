//! The two weather vendors: the requests each one sends, and how its answer
//! becomes a `WeatherData`.
use vstd::prelude::*;
use crate::condition::{
    classify_open_meteo, classify_open_weather_map, open_meteo_condition,
    open_weather_map_condition, WeatherCondition,
};
use crate::config::{Config, ConfigLocation};
use crate::direction::{compass_point, degree_to_direction};
use crate::text::{int_text, push_int};
use crate::units::ConfigUnits;

verus! {

/// Current conditions, every value already formatted with its unit.
#[derive(Clone, Debug, PartialEq, Eq)]
pub struct WeatherData {
    pub temperature: String,
    pub feels_like: String,
    pub wind_speed: String,
    pub wind_direction: String,
    pub condition: WeatherCondition,
}

/// Why a lookup failed.
#[derive(Clone, Copy, Debug, PartialEq, Eq, Structural)]
pub enum FetchError {
    /// The request could not be sent or answered.
    Transport,
    /// The answer did not have the expected shape.
    Decode,
    /// Geocoding found no place of that name.
    NoLocationFound,
    /// The vendor needs an API key and none is configured.
    MissingCredential,
    /// No location is configured and none was resolved.
    MissingLocation,
}

/// The next HTTP GET to send, by its URL.
#[derive(Clone, Debug, PartialEq, Eq)]
pub enum Request {
    /// Look a city up; the answer is a list of places.
    Geocode(String),
    /// Ask for the current conditions.
    Current(String),
}

/// A place found by geocoding, its coordinates as decimal text.
#[derive(Clone, Debug, PartialEq, Eq)]
pub struct Place {
    pub latitude: String,
    pub longitude: String,
}

/// Open-Meteo's current conditions. Temperatures are truncated toward zero;
/// each unit is the one the vendor reported.
#[derive(Clone, Debug, PartialEq, Eq)]
pub struct MeteoCurrent {
    pub temperature: i32,
    pub temperature_unit: String,
    pub apparent_temperature: i32,
    pub apparent_temperature_unit: String,
    pub wind_speed: String,
    pub wind_speed_unit: String,
    pub wind_direction: i16,
    pub weather_code: i32,
}

/// OpenWeatherMap's current conditions. Temperatures are truncated toward
/// zero; the wind speed is written with `ConfigUnits::wind_speed_decimals`
/// places, in the display unit already.
#[derive(Clone, Debug, PartialEq, Eq)]
pub struct OwmCurrent {
    pub temperature: i32,
    pub feels_like: i32,
    pub wind_speed: String,
    pub wind_direction: i16,
    pub condition_ids: Vec<i64>,
}

/// The Open-Meteo vendor: geocoding of a city, then a forecast request.
pub struct OpenMeteo;

/// The OpenWeatherMap vendor: one request, with an API key.
pub struct OpenWeatherMap;

pub open spec fn geocode_url(name: Seq<char>, country: Seq<char>) -> Seq<char> {
    "https://geocoding-api.open-meteo.com/v1/search?name="@ + name
        + "&count=1&format=json&countryCode="@ + country
}

pub open spec fn forecast_url(latitude: Seq<char>, longitude: Seq<char>, units: ConfigUnits) -> Seq<
    char,
> {
    "https://api.open-meteo.com/v1/forecast?latitude="@ + latitude + "&longitude="@ + longitude
        + "&models=best_match&current=apparent_temperature,wind_speed_10m,wind_direction_10m,temperature_2m,weather_code&temperature_unit="@
        + units.temperature_spec() + "&wind_speed_unit="@ + units.speed_spec()
}

/// How OpenWeatherMap's query names a location.
pub open spec fn owm_location_query(location: ConfigLocation) -> Seq<char> {
    match location {
        ConfigLocation::Coordinates(lat, lon) => "lat="@ + lat@ + "&lon="@ + lon@,
        ConfigLocation::City(city, country) => "q="@ + city@ + ","@ + country@,
    }
}

pub open spec fn owm_url(location: ConfigLocation, key: Seq<char>, units: ConfigUnits) -> Seq<
    char,
> {
    "https://api.openweathermap.org/data/2.5/weather?"@ + owm_location_query(location) + "&appid="@
        + key + "&units="@ + units.name_spec()
}

fn forecast_request(latitude: &String, longitude: &String, units: ConfigUnits) -> (r: String)
    ensures
        r@ == forecast_url(latitude@, longitude@, units),
{
    let mut url = String::from_str("https://api.open-meteo.com/v1/forecast?latitude=");
    url.append(latitude.as_str());
    url.append("&longitude=");
    url.append(longitude.as_str());
    url.append(
        "&models=best_match&current=apparent_temperature,wind_speed_10m,wind_direction_10m,temperature_2m,weather_code&temperature_unit=",
    );
    let t = units.temperature();
    url.append(t.as_str());
    url.append("&wind_speed_unit=");
    let s = units.speed();
    url.append(s.as_str());
    url
}

/// A temperature with its unit after it.
fn with_unit(value: i32, unit: &str) -> (r: String)
    ensures
        r@ == int_text(value as int) + unit@,
{
    let mut out = String::new();
    push_int(&mut out, value as i64);
    out.append(unit);
    proof {
        assert(out@ =~= int_text(value as int) + unit@);
    }
    out
}

impl OpenMeteo {
    /// The first request for the configured location: geocoding for a city,
    /// the forecast itself for coordinates.
    pub fn first_request(&self, config: &Config) -> (r: Result<Request, FetchError>)
        ensures
            config.location is None ==> r == Err::<Request, FetchError>(
                FetchError::MissingLocation,
            ),
            config.location matches Some(ConfigLocation::City(name, country)) ==> r matches Ok(
                Request::Geocode(url),
            ) && url@ == geocode_url(name@, country@),
            config.location matches Some(ConfigLocation::Coordinates(lat, lon)) ==> r matches Ok(
                Request::Current(url),
            ) && url@ == forecast_url(lat@, lon@, config.units),
    {
        match &config.location {
            None => Err(FetchError::MissingLocation),
            Some(ConfigLocation::City(name, country)) => {
                let mut url = String::from_str(
                    "https://geocoding-api.open-meteo.com/v1/search?name=",
                );
                url.append(name.as_str());
                url.append("&count=1&format=json&countryCode=");
                url.append(country.as_str());
                Ok(Request::Geocode(url))
            },
            Some(ConfigLocation::Coordinates(lat, lon)) => Ok(
                Request::Current(forecast_request(lat, lon, config.units)),
            ),
        }
    }

    /// The forecast request for the first place that geocoding found; no
    /// place at all is `NoLocationFound`.
    pub fn after_geocode(&self, config: &Config, places: &Vec<Place>) -> (r: Result<
        Request,
        FetchError,
    >)
        ensures
            places@.len() == 0 ==> r == Err::<Request, FetchError>(FetchError::NoLocationFound),
            places@.len() > 0 ==> (r matches Ok(Request::Current(url)) && url@ == forecast_url(
                places@[0].latitude@,
                places@[0].longitude@,
                config.units,
            )),
    {
        if places.len() == 0 {
            Err(FetchError::NoLocationFound)
        } else {
            let place = &places[0];
            Ok(Request::Current(forecast_request(&place.latitude, &place.longitude, config.units)))
        }
    }

    /// The normalized conditions: temperatures with the vendor's unit, the
    /// wind speed as the vendor wrote it with its unit, the compass point of
    /// the wind and the classified weather code.
    pub fn normalize(&self, current: &MeteoCurrent) -> (r: WeatherData)
        ensures
            r.temperature@ == int_text(current.temperature as int) + current.temperature_unit@,
            r.feels_like@ == int_text(current.apparent_temperature as int)
                + current.apparent_temperature_unit@,
            r.wind_speed@ == current.wind_speed@ + current.wind_speed_unit@,
            r.wind_direction@ == compass_point(current.wind_direction as int),
            r.condition == open_meteo_condition(current.weather_code as int),
    {
        let mut wind_speed = current.wind_speed.clone();
        wind_speed.append(current.wind_speed_unit.as_str());
        WeatherData {
            temperature: with_unit(current.temperature, current.temperature_unit.as_str()),
            feels_like: with_unit(
                current.apparent_temperature,
                current.apparent_temperature_unit.as_str(),
            ),
            wind_speed,
            wind_direction: degree_to_direction(current.wind_direction),
            condition: classify_open_meteo(current.weather_code),
        }
    }
}

impl OpenWeatherMap {
    /// The one request for the configuration. A missing or empty API key is
    /// `MissingCredential`, found before anything else; then a missing
    /// location is `MissingLocation`.
    pub fn request(&self, config: &Config) -> (r: Result<Request, FetchError>)
        ensures
            (config.api_key is None || config.api_key->0@.len() == 0) ==> r == Err::<
                Request,
                FetchError,
            >(FetchError::MissingCredential),
            config.api_key is Some && config.api_key->0@.len() > 0 && config.location is None ==> r
                == Err::<Request, FetchError>(FetchError::MissingLocation),
            config.api_key is Some && config.api_key->0@.len() > 0 && config.location is Some ==> (r matches Ok(
                Request::Current(url),
            ) && url@ == owm_url(config.location->0, config.api_key->0@, config.units)),
    {
        let key = match &config.api_key {
            Some(key) => key,
            None => {
                return Err(FetchError::MissingCredential);
            },
        };
        if key.as_str().unicode_len() == 0 {
            return Err(FetchError::MissingCredential);
        }
        let location = match &config.location {
            Some(location) => location,
            None => {
                return Err(FetchError::MissingLocation);
            },
        };
        let mut url = String::from_str("https://api.openweathermap.org/data/2.5/weather?");
        match location {
            ConfigLocation::Coordinates(lat, lon) => {
                url.append("lat=");
                url.append(lat.as_str());
                url.append("&lon=");
                url.append(lon.as_str());
            },
            ConfigLocation::City(city, country) => {
                url.append("q=");
                url.append(city.as_str());
                url.append(",");
                url.append(country.as_str());
            },
        }
        url.append("&appid=");
        url.append(key.as_str());
        url.append("&units=");
        let name = config.units.to_string();
        url.append(name.as_str());
        proof {
            assert(url@ =~= owm_url(*location, key@, config.units));
        }
        Ok(Request::Current(url))
    }

    /// The normalized conditions: temperatures and wind speed with the
    /// configured units' symbols, the compass point of the wind and the
    /// classified first condition id.
    pub fn normalize(&self, units: ConfigUnits, current: &OwmCurrent) -> (r: WeatherData)
        ensures
            r.temperature@ == int_text(current.temperature as int) + units.temperature_symbol_spec(),
            r.feels_like@ == int_text(current.feels_like as int) + units.temperature_symbol_spec(),
            r.wind_speed@ == current.wind_speed@ + units.speed_symbol_spec(),
            r.wind_direction@ == compass_point(current.wind_direction as int),
            r.condition == open_weather_map_condition(current.condition_ids@),
    {
        let symbol = units.temperature_symbol();
        let mut wind_speed = current.wind_speed.clone();
        wind_speed.append(units.speed_symbol());
        WeatherData {
            temperature: with_unit(current.temperature, symbol),
            feels_like: with_unit(current.feels_like, symbol),
            wind_speed,
            wind_direction: degree_to_direction(current.wind_direction),
            condition: classify_open_weather_map(&current.condition_ids),
        }
    }
}

} // verus!
