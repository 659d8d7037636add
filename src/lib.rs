//! A command-line weather lookup: vendor code classification, response
//! normalization, the request plan of each provider and the single-slot cache.

mod cache;
mod condition;
mod config;
mod direction;
mod duration;
mod providers;
mod text;
mod units;

pub use cache::{
    fresh_at, is_fresh, lemma_snapshot_served, load, load_at, millis_from, millis_of, save, serve,
    served, stamp, CacheEntry, CacheError,
};
pub use condition::{
    classify_open_meteo, classify_open_weather_map, lemma_open_meteo_classes,
    lemma_open_weather_map_classes, open_meteo_condition, open_weather_map_condition,
    open_weather_map_id_condition, WeatherCondition,
};
pub use config::{Config, ConfigLocation, ConfigTimeFormat, ConfigWeatherProvider};
pub use direction::{compass_point, degree_to_direction};
pub use duration::{
    deserialize, duration_of, duration_text, lemma_duration_round_trip, parse_duration, serialize,
    CacheDuration, MAX_MINUTES,
};
pub use providers::{
    forecast_url, geocode_url, owm_location_query, owm_url, FetchError, MeteoCurrent, OpenMeteo,
    OpenWeatherMap, OwmCurrent, Place, Request, WeatherData,
};
pub use text::{digits_value, int_text, nat_text, push_int, push_nat};
pub use units::ConfigUnits;
