use hitokage_core::weather::cached_forecast_is_fresh;
use hitokage_core::battery::{cached_battery_is_fresh, BatteryIcons};
use hitokage_core::weather::{weather_code_to_icon, weather_kind, WeatherIcons, WeatherKind, WeatherOptions};

#[test]
fn weather_kinds_of_codes() {
    assert_eq!(weather_kind(0), WeatherKind::Clear);
    assert_eq!(weather_kind(2), WeatherKind::Cloudy);
    assert_eq!(weather_kind(45), WeatherKind::Foggy);
    assert_eq!(weather_kind(53), WeatherKind::Drizzle);
    assert_eq!(weather_kind(57), WeatherKind::FreezingRain);
    assert_eq!(weather_kind(63), WeatherKind::Rain);
    assert_eq!(weather_kind(66), WeatherKind::FreezingRain);
    assert_eq!(weather_kind(75), WeatherKind::Snow);
    assert_eq!(weather_kind(81), WeatherKind::Showers);
    assert_eq!(weather_kind(86), WeatherKind::Snow);
    assert_eq!(weather_kind(95), WeatherKind::Thunderstorm);
    assert_eq!(weather_kind(99), WeatherKind::Hail);
    assert_eq!(weather_kind(4), WeatherKind::Unknown);
    assert_eq!(weather_kind(100), WeatherKind::Unknown);
}

#[test]
fn weather_icons_by_day_and_night() {
    let map = WeatherIcons::default();
    assert_eq!(weather_code_to_icon(true, 0, &map), "\u{E30D}");
    assert_eq!(weather_code_to_icon(false, 0, &map), "\u{E32B}");
    assert_eq!(weather_code_to_icon(true, 61, &map), "\u{E305}");
    assert_eq!(weather_code_to_icon(false, 97, &map), "\u{E367}");
    assert_eq!(weather_code_to_icon(true, 42, &map), "\u{F128}");
    assert_eq!(weather_code_to_icon(false, 42, &map), "\u{F128}");
}

#[test]
fn weather_icon_uses_the_given_map() {
    let mut map = WeatherIcons::default();
    map.night_snow = "snowy night".to_string();
    assert_eq!(weather_code_to_icon(false, 85, &map), "snowy night");
}

#[test]
fn weather_options_default() {
    let o = WeatherOptions::default();
    assert_eq!(o.windy_threshold, 15);
    assert_eq!(o.icons.unknown, "\u{F128}");
}

#[test]
fn battery_icons_default() {
    let b = BatteryIcons::default();
    assert_eq!(b.p0, "\u{F008E}");
    assert_eq!(b.p100, "\u{F0079}");
    assert_eq!(b.p50_charging, "\u{F089D}");
    assert_eq!(b.unknown, "\u{F0091}");
}

#[test]
fn battery_reading_is_reused_for_half_a_second() {
    assert!(cached_battery_is_fresh(Some(0)));
    assert!(cached_battery_is_fresh(Some(499)));
    assert!(!cached_battery_is_fresh(Some(500)));
    assert!(!cached_battery_is_fresh(Some(10_000)));
    assert!(!cached_battery_is_fresh(None));
}

#[test]
fn forecast_is_reused_for_55_seconds() {
    assert!(cached_forecast_is_fresh(Some(54_999)));
    assert!(!cached_forecast_is_fresh(Some(55_000)));
    assert!(!cached_forecast_is_fresh(None));
}
