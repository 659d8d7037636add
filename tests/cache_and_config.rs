use weather_cli::{
    deserialize, is_fresh, load, load_at, millis_of, parse_duration, push_int, save, serialize,
    serve, stamp, CacheDuration, CacheEntry, CacheError, Config, ConfigLocation, ConfigUnits, ConfigWeatherProvider,
    WeatherCondition, WeatherData,
};

fn sample() -> WeatherData {
    WeatherData {
        temperature: "18°C".to_string(),
        feels_like: "17°C".to_string(),
        wind_speed: "12.3km/h".to_string(),
        wind_direction: "E".to_string(),
        condition: WeatherCondition::PartlyCloudy,
    }
}

#[test]
fn saved_snapshot_loads_back_within_an_hour() {
    let entry = save(sample()).unwrap();
    assert_eq!(entry.data, sample());
    let hour = CacheDuration::hours(1).unwrap();
    assert_eq!(load(Some(entry), hour), Some(sample()));
}

#[test]
fn stale_snapshot_is_a_miss() {
    let hour = CacheDuration::hours(1).unwrap();
    let entry = CacheEntry { timestamp_ms: 1_000_000, data: sample() };
    assert_eq!(serve(Some(entry.clone()), 1_000_000 + 3_599_999, hour), Some(sample()));
    assert_eq!(serve(Some(entry.clone()), 1_000_000 + 3_600_000, hour), None);
    assert_eq!(serve(Some(entry), 1_000_000 + 7_200_000, hour), None);
}

#[test]
fn unreadable_snapshot_is_a_miss() {
    let hour = CacheDuration::hours(1).unwrap();
    assert_eq!(load(None, hour), None);
    assert_eq!(serve(None, 0, hour), None);
}

#[test]
fn freshness_boundaries() {
    let half = CacheDuration::minutes(30).unwrap();
    assert!(is_fresh(0, 1_799_999, half));
    assert!(!is_fresh(0, 1_800_000, half));
    assert!(!is_fresh(0, 0, CacheDuration::minutes(0).unwrap()));
    assert!(is_fresh(i64::MAX, i64::MIN, half));
}

#[test]
fn duration_texts() {
    assert_eq!(parse_duration("1h"), Some(CacheDuration { minutes: 60 }));
    assert_eq!(parse_duration("30min"), Some(CacheDuration { minutes: 30 }));
    assert_eq!(parse_duration("0min"), Some(CacheDuration { minutes: 0 }));
    assert_eq!(parse_duration("h"), None);
    assert_eq!(parse_duration("min"), None);
    assert_eq!(parse_duration("-1h"), None);
    assert_eq!(parse_duration("1.5h"), None);
    assert_eq!(parse_duration("10s"), None);
    assert_eq!(parse_duration(""), None);
    assert_eq!(parse_duration("99999999999999999999h"), None);
}

#[test]
fn duration_limits() {
    assert_eq!(
        parse_duration("153722867280912min"),
        Some(CacheDuration { minutes: 153722867280912 })
    );
    assert_eq!(parse_duration("153722867280913min"), None);
    assert_eq!(
        parse_duration("2562047788015h"),
        Some(CacheDuration { minutes: 2562047788015 * 60 })
    );
    assert_eq!(parse_duration("2562047788016h"), None);
    assert_eq!(CacheDuration::hours(2562047788016), None);
}

#[test]
fn duration_serialize_round_trip() {
    assert_eq!(serialize(&CacheDuration { minutes: 120 }), "2h");
    assert_eq!(serialize(&CacheDuration { minutes: 90 }), "90min");
    assert_eq!(serialize(&CacheDuration { minutes: 0 }), "0min");
    for m in [0u64, 1, 59, 60, 61, 600, 1440] {
        let d = CacheDuration { minutes: m };
        assert_eq!(deserialize(&serialize(&d)), Ok(d));
    }
    assert_eq!(deserialize("soon"), Err("failed to parse duration".to_string()));
}

#[test]
fn integer_text() {
    let mut s = String::from("t=");
    push_int(&mut s, -42);
    assert_eq!(s, "t=-42");
    let mut m = String::new();
    push_int(&mut m, i64::MIN);
    assert_eq!(m, i64::MIN.to_string());
}

#[test]
fn default_config_and_location() {
    let mut config = Config::default();
    assert_eq!(config.provider, ConfigWeatherProvider::OpenMeteo);
    assert_eq!(config.units, ConfigUnits::Metric);
    assert_eq!(config.caching_duration, CacheDuration { minutes: 60 });
    config.resolve_location("1.5".to_string(), "2.5".to_string());
    assert_eq!(
        config.location,
        Some(ConfigLocation::Coordinates("1.5".to_string(), "2.5".to_string()))
    );
    config.resolve_location("9".to_string(), "9".to_string());
    assert_eq!(
        config.location,
        Some(ConfigLocation::Coordinates("1.5".to_string(), "2.5".to_string()))
    );
}

#[test]
fn unit_tokens() {
    assert_eq!(ConfigUnits::Metric.temperature(), "celsius");
    assert_eq!(ConfigUnits::Imperial.temperature(), "fahrenheit");
    assert_eq!(ConfigUnits::Metric.speed(), "kmh");
    assert_eq!(ConfigUnits::Imperial.speed(), "mph");
    assert_eq!(ConfigUnits::Metric.to_string(), "metric");
    assert_eq!(ConfigUnits::Imperial.to_string(), "imperial");
    assert_eq!(ConfigUnits::Metric.wind_speed_decimals(), 1);
    assert_eq!(ConfigUnits::Imperial.wind_speed_decimals(), 0);
    assert_eq!(ConfigWeatherProvider::OpenWeatherMap.homepage(), "https://openweathermap.org");
}

#[test]
fn stamp_records_the_reading() {
    assert_eq!(
        stamp(sample(), Some(1_700_000_000_123)),
        Ok(CacheEntry { timestamp_ms: 1_700_000_000_123, data: sample() })
    );
    assert_eq!(stamp(sample(), Some(0)).unwrap().timestamp_ms, 0);
    assert_eq!(stamp(sample(), None), Err(CacheError::ClockOutOfRange));
    assert_eq!(
        stamp(sample(), Some(i64::MAX as u128 + 1)),
        Err(CacheError::ClockOutOfRange)
    );
}

#[test]
fn clock_readings_as_stamps() {
    assert_eq!(millis_of(Some(42)), Some(42));
    assert_eq!(millis_of(Some(i64::MAX as u128)), Some(i64::MAX));
    assert_eq!(millis_of(Some(u128::MAX)), None);
    assert_eq!(millis_of(None), None);
}

#[test]
fn load_at_a_reading() {
    let hour = CacheDuration::hours(1).unwrap();
    let entry = stamp(sample(), Some(10_000)).unwrap();
    assert_eq!(load_at(Some(entry.clone()), Some(10_000), hour), Some(sample()));
    assert_eq!(load_at(Some(entry.clone()), Some(10_000 + 3_600_000), hour), None);
    assert_eq!(load_at(Some(entry), None, hour), None);
    assert_eq!(load_at(None, Some(10_000), hour), None);
}

#[test]
fn save_stamps_the_current_time() {
    let before = std::time::SystemTime::now()
        .duration_since(std::time::UNIX_EPOCH)
        .unwrap()
        .as_millis() as i64;
    let entry = save(sample()).unwrap();
    assert!(entry.timestamp_ms >= before);
    assert_eq!(entry.data, sample());
}
