use weather_cli::{
    classify_open_meteo, classify_open_weather_map, degree_to_direction, WeatherCondition,
};

#[test]
fn open_meteo_clear_codes() {
    assert_eq!(classify_open_meteo(0), WeatherCondition::Clear);
    assert_eq!(classify_open_meteo(1), WeatherCondition::Clear);
}

#[test]
fn open_meteo_foggy_codes() {
    assert_eq!(classify_open_meteo(45), WeatherCondition::Foggy);
    assert_eq!(classify_open_meteo(48), WeatherCondition::Foggy);
}

#[test]
fn open_meteo_unlisted_codes_are_unknown() {
    assert_eq!(classify_open_meteo(17), WeatherCondition::Unknown);
    assert_eq!(classify_open_meteo(100), WeatherCondition::Unknown);
    assert_eq!(classify_open_meteo(-1), WeatherCondition::Unknown);
    assert_eq!(classify_open_meteo(4), WeatherCondition::Unknown);
}

#[test]
fn open_meteo_every_group() {
    assert_eq!(classify_open_meteo(2), WeatherCondition::PartlyCloudy);
    assert_eq!(classify_open_meteo(3), WeatherCondition::Overcast);
    assert_eq!(classify_open_meteo(57), WeatherCondition::Drizzle);
    assert_eq!(classify_open_meteo(61), WeatherCondition::Rainy);
    assert_eq!(classify_open_meteo(75), WeatherCondition::Snowy);
    assert_eq!(classify_open_meteo(77), WeatherCondition::SnowGrains);
    assert_eq!(classify_open_meteo(80), WeatherCondition::RainShowers);
    assert_eq!(classify_open_meteo(82), WeatherCondition::RainShowers);
    assert_eq!(classify_open_meteo(83), WeatherCondition::Unknown);
    assert_eq!(classify_open_meteo(86), WeatherCondition::SnowShowers);
    assert_eq!(classify_open_meteo(99), WeatherCondition::Thunderstorms);
}

#[test]
fn open_weather_map_thunderstorm_range() {
    for id in 200..=232 {
        assert_eq!(classify_open_weather_map(&vec![id]), WeatherCondition::Thunderstorms);
    }
    assert_eq!(classify_open_weather_map(&vec![199]), WeatherCondition::Unknown);
    assert_eq!(classify_open_weather_map(&vec![233]), WeatherCondition::Unknown);
}

#[test]
fn open_weather_map_clear_and_unknown() {
    assert_eq!(classify_open_weather_map(&vec![800]), WeatherCondition::Clear);
    assert_eq!(classify_open_weather_map(&vec![805]), WeatherCondition::Unknown);
    assert_eq!(classify_open_weather_map(&vec![]), WeatherCondition::Unknown);
}

#[test]
fn open_weather_map_first_id_decides() {
    assert_eq!(classify_open_weather_map(&vec![741, 800]), WeatherCondition::Foggy);
    assert_eq!(classify_open_weather_map(&vec![511]), WeatherCondition::Rainy);
    assert_eq!(classify_open_weather_map(&vec![505]), WeatherCondition::Unknown);
    assert_eq!(classify_open_weather_map(&vec![616]), WeatherCondition::Snowy);
    assert_eq!(classify_open_weather_map(&vec![610]), WeatherCondition::Unknown);
    assert_eq!(classify_open_weather_map(&vec![802]), WeatherCondition::PartlyCloudy);
    assert_eq!(classify_open_weather_map(&vec![803]), WeatherCondition::Overcast);
}

#[test]
fn condition_labels() {
    assert_eq!(WeatherCondition::PartlyCloudy.label(), "Partly Cloudy");
    assert_eq!(WeatherCondition::SnowShowers.label(), "Showers");
    assert_eq!(WeatherCondition::Thunderstorms.label(), "Thunderstorm");
}

#[test]
fn wind_direction_points() {
    assert_eq!(degree_to_direction(0), "N");
    assert_eq!(degree_to_direction(45), "NE");
    assert_eq!(degree_to_direction(90), "E");
    assert_eq!(degree_to_direction(180), "S");
    assert_eq!(degree_to_direction(337), "NW");
    assert_eq!(degree_to_direction(338), "N");
    assert_eq!(degree_to_direction(359), "N");
}

#[test]
fn wind_direction_sector_edges() {
    assert_eq!(degree_to_direction(22), "N");
    assert_eq!(degree_to_direction(23), "NE");
    assert_eq!(degree_to_direction(157), "SE");
    assert_eq!(degree_to_direction(247), "SW");
    assert_eq!(degree_to_direction(292), "W");
    assert_eq!(degree_to_direction(-5), "N");
}
