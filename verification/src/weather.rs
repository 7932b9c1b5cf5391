//! Icons for the weather that a forecast reports.
use crate::text::string_of as icon;
use vstd::prelude::*;

verus! {

/// The icon shown for each kind of weather, by day and by night.
#[derive(Debug, Clone)]
pub struct WeatherIcons {
    pub day: String,
    pub day_cloudy: String,
    pub day_foggy: String,
    pub day_drizzle: String,
    pub day_rain: String,
    pub day_showers: String,
    pub day_freezing_rain: String,
    pub day_snow: String,
    pub day_thunderstorm: String,
    pub day_hail: String,
    pub night: String,
    pub night_cloudy: String,
    pub night_foggy: String,
    pub night_drizzle: String,
    pub night_rain: String,
    pub night_showers: String,
    pub night_freezing_rain: String,
    pub night_snow: String,
    pub night_thunderstorm: String,
    pub night_hail: String,
    pub unknown: String,
}

/// Options of the weather widget.
#[derive(Debug, Clone)]
pub struct WeatherOptions {
    pub icons: WeatherIcons,
    /// Wind speed in km/h from which the weather counts as windy.
    pub windy_threshold: u32,
}

/// The kinds of weather that WMO weather codes fall into.
#[derive(Debug, Clone, Copy, PartialEq, Eq, Structural)]
pub enum WeatherKind {
    Clear,
    Cloudy,
    Foggy,
    Drizzle,
    FreezingRain,
    Rain,
    Snow,
    Showers,
    Thunderstorm,
    Hail,
    Unknown,
}

/// The kind of weather of a WMO weather code: 0 clear; 1-3 cloudy; 45-48 fog; 51-55
/// drizzle; 56-57 and 66-67 freezing rain; 61-65 rain; 71-77 and 85-86 snow; 80-82
/// showers; 95 thunderstorm; 96-99 thunderstorm with hail; anything else unknown.
pub open spec fn weather_kind_of(code: u32) -> WeatherKind {
    if code == 0 {
        WeatherKind::Clear
    } else if 1 <= code <= 3 {
        WeatherKind::Cloudy
    } else if 45 <= code <= 48 {
        WeatherKind::Foggy
    } else if 51 <= code <= 55 {
        WeatherKind::Drizzle
    } else if 56 <= code <= 57 || 66 <= code <= 67 {
        WeatherKind::FreezingRain
    } else if 61 <= code <= 65 {
        WeatherKind::Rain
    } else if 71 <= code <= 77 || 85 <= code <= 86 {
        WeatherKind::Snow
    } else if 80 <= code <= 82 {
        WeatherKind::Showers
    } else if code == 95 {
        WeatherKind::Thunderstorm
    } else if 96 <= code <= 99 {
        WeatherKind::Hail
    } else {
        WeatherKind::Unknown
    }
}

/// The icon of `map` for a kind of weather by day or by night.
pub open spec fn icon_of(map: WeatherIcons, is_day: bool, kind: WeatherKind) -> String {
    match kind {
        WeatherKind::Clear => if is_day { map.day } else { map.night },
        WeatherKind::Cloudy => if is_day { map.day_cloudy } else { map.night_cloudy },
        WeatherKind::Foggy => if is_day { map.day_foggy } else { map.night_foggy },
        WeatherKind::Drizzle => if is_day { map.day_drizzle } else { map.night_drizzle },
        WeatherKind::FreezingRain => if is_day { map.day_freezing_rain } else { map.night_freezing_rain },
        WeatherKind::Rain => if is_day { map.day_rain } else { map.night_rain },
        WeatherKind::Snow => if is_day { map.day_snow } else { map.night_snow },
        WeatherKind::Showers => if is_day { map.day_showers } else { map.night_showers },
        WeatherKind::Thunderstorm => if is_day { map.day_thunderstorm } else { map.night_thunderstorm },
        WeatherKind::Hail => if is_day { map.day_hail } else { map.night_hail },
        WeatherKind::Unknown => map.unknown,
    }
}

/// The kind of weather of a WMO weather code.
pub fn weather_kind(code: u32) -> (k: WeatherKind)
    ensures
        k == weather_kind_of(code),
{
    match code {
        0 => WeatherKind::Clear,
        1..=3 => WeatherKind::Cloudy,
        45..=48 => WeatherKind::Foggy,
        51..=55 => WeatherKind::Drizzle,
        56..=57 => WeatherKind::FreezingRain,
        61..=65 => WeatherKind::Rain,
        66..=67 => WeatherKind::FreezingRain,
        71..=77 => WeatherKind::Snow,
        80..=82 => WeatherKind::Showers,
        85..=86 => WeatherKind::Snow,
        95 => WeatherKind::Thunderstorm,
        96..=99 => WeatherKind::Hail,
        _ => WeatherKind::Unknown,
    }
}

/// The icon of `map` for the weather of a WMO weather code, by day or by night.
pub fn weather_code_to_icon(is_day: bool, weather_code: u32, map: &WeatherIcons) -> (icon: String)
    ensures
        icon == icon_of(*map, is_day, weather_kind_of(weather_code)),
{
    let kind = weather_kind(weather_code);
    match kind {
        WeatherKind::Clear => if is_day { map.day.clone() } else { map.night.clone() },
        WeatherKind::Cloudy => if is_day { map.day_cloudy.clone() } else { map.night_cloudy.clone() },
        WeatherKind::Foggy => if is_day { map.day_foggy.clone() } else { map.night_foggy.clone() },
        WeatherKind::Drizzle => if is_day { map.day_drizzle.clone() } else { map.night_drizzle.clone() },
        WeatherKind::FreezingRain => if is_day {
            map.day_freezing_rain.clone()
        } else {
            map.night_freezing_rain.clone()
        },
        WeatherKind::Rain => if is_day { map.day_rain.clone() } else { map.night_rain.clone() },
        WeatherKind::Snow => if is_day { map.day_snow.clone() } else { map.night_snow.clone() },
        WeatherKind::Showers => if is_day { map.day_showers.clone() } else { map.night_showers.clone() },
        WeatherKind::Thunderstorm => if is_day {
            map.day_thunderstorm.clone()
        } else {
            map.night_thunderstorm.clone()
        },
        WeatherKind::Hail => if is_day { map.day_hail.clone() } else { map.night_hail.clone() },
        WeatherKind::Unknown => map.unknown.clone(),
    }
}

/// The Nerd Font weather icons.
pub open spec fn is_default_icons(m: WeatherIcons) -> bool {
    &&& m.day@ == "\u{E30D}"@
    &&& m.day_cloudy@ == "\u{E302}"@
    &&& m.day_foggy@ == "\u{E303}"@
    &&& m.day_drizzle@ == "\u{E30B}"@
    &&& m.day_rain@ == "\u{E305}"@
    &&& m.day_showers@ == "\u{E309}"@
    &&& m.day_freezing_rain@ == "\u{E306}"@
    &&& m.day_snow@ == "\u{E30A}"@
    &&& m.day_thunderstorm@ == "\u{E30F}"@
    &&& m.day_hail@ == "\u{E365}"@
    &&& m.night@ == "\u{E32B}"@
    &&& m.night_cloudy@ == "\u{E37E}"@
    &&& m.night_foggy@ == "\u{E346}"@
    &&& m.night_drizzle@ == "\u{E328}"@
    &&& m.night_rain@ == "\u{E325}"@
    &&& m.night_showers@ == "\u{E326}"@
    &&& m.night_freezing_rain@ == "\u{E323}"@
    &&& m.night_snow@ == "\u{E327}"@
    &&& m.night_thunderstorm@ == "\u{E32A}"@
    &&& m.night_hail@ == "\u{E367}"@
    &&& m.unknown@ == "\u{F128}"@
}

impl Default for WeatherIcons {
    /// The Nerd Font weather icons.
    fn default() -> (m: Self)
        ensures
            is_default_icons(m),
    {
        WeatherIcons {
            day: icon("\u{E30D}"),
            day_cloudy: icon("\u{E302}"),
            day_foggy: icon("\u{E303}"),
            day_drizzle: icon("\u{E30B}"),
            day_rain: icon("\u{E305}"),
            day_showers: icon("\u{E309}"),
            day_freezing_rain: icon("\u{E306}"),
            day_snow: icon("\u{E30A}"),
            day_thunderstorm: icon("\u{E30F}"),
            day_hail: icon("\u{E365}"),
            night: icon("\u{E32B}"),
            night_cloudy: icon("\u{E37E}"),
            night_foggy: icon("\u{E346}"),
            night_drizzle: icon("\u{E328}"),
            night_rain: icon("\u{E325}"),
            night_showers: icon("\u{E326}"),
            night_freezing_rain: icon("\u{E323}"),
            night_snow: icon("\u{E327}"),
            night_thunderstorm: icon("\u{E32A}"),
            night_hail: icon("\u{E367}"),
            unknown: icon("\u{F128}"),
        }
    }
}

impl Default for WeatherOptions {
    /// The default icons, windy from 15 km/h.
    fn default() -> (o: Self)
        ensures
            o.windy_threshold == 15,
            is_default_icons(o.icons),
    {
        WeatherOptions { icons: WeatherIcons::default(), windy_threshold: 15 }
    }
}

/// How long a forecast is reused before the weather service is asked again, in milliseconds.
pub const FORECAST_CACHE_MILLIS: u128 = 55_000;

/// Whether the last forecast, fetched `elapsed_millis` whole milliseconds ago (none fetched
/// yet: `None`), is reused instead of asking the weather service again.
pub fn cached_forecast_is_fresh(elapsed_millis: Option<u128>) -> (fresh: bool)
    ensures
        fresh == (match elapsed_millis {
            Some(e) => e < FORECAST_CACHE_MILLIS,
            None => false,
        }),
{
    match elapsed_millis {
        Some(e) => e < FORECAST_CACHE_MILLIS,
        None => false,
    }
}

/// The icon of each WMO code: 0 clear; 1 to 3 cloudy; 45 to 48 fog; 51 to 55 drizzle;
/// 56, 57, 66 and 67 freezing rain; 61 to 65 rain; 71 to 77, 85 and 86 snow; 80 to 82
/// showers; 95 thunderstorm; 96 to 99 hail; each by day or by night. Every other code has
/// the unknown icon, by day and by night.
pub proof fn law_weather_icons(m: WeatherIcons, is_day: bool, code: u32)
    ensures
        code == 0 ==> icon_of(m, is_day, weather_kind_of(code)) == (if is_day { m.day } else { m.night }),
        1 <= code <= 3 ==> icon_of(m, is_day, weather_kind_of(code)) == (if is_day {
            m.day_cloudy
        } else {
            m.night_cloudy
        }),
        45 <= code <= 48 ==> icon_of(m, is_day, weather_kind_of(code)) == (if is_day {
            m.day_foggy
        } else {
            m.night_foggy
        }),
        51 <= code <= 55 ==> icon_of(m, is_day, weather_kind_of(code)) == (if is_day {
            m.day_drizzle
        } else {
            m.night_drizzle
        }),
        (56 <= code <= 57 || 66 <= code <= 67) ==> icon_of(m, is_day, weather_kind_of(code)) == (if is_day {
            m.day_freezing_rain
        } else {
            m.night_freezing_rain
        }),
        61 <= code <= 65 ==> icon_of(m, is_day, weather_kind_of(code)) == (if is_day {
            m.day_rain
        } else {
            m.night_rain
        }),
        (71 <= code <= 77 || 85 <= code <= 86) ==> icon_of(m, is_day, weather_kind_of(code)) == (if is_day {
            m.day_snow
        } else {
            m.night_snow
        }),
        80 <= code <= 82 ==> icon_of(m, is_day, weather_kind_of(code)) == (if is_day {
            m.day_showers
        } else {
            m.night_showers
        }),
        code == 95 ==> icon_of(m, is_day, weather_kind_of(code)) == (if is_day {
            m.day_thunderstorm
        } else {
            m.night_thunderstorm
        }),
        96 <= code <= 99 ==> icon_of(m, is_day, weather_kind_of(code)) == (if is_day {
            m.day_hail
        } else {
            m.night_hail
        }),
        !(code == 0 || 1 <= code <= 3 || 45 <= code <= 48 || 51 <= code <= 57 || 61 <= code <= 67 || 71
            <= code <= 77 || 80 <= code <= 82 || 85 <= code <= 86 || 95 <= code <= 99) ==> icon_of(
            m,
            is_day,
            weather_kind_of(code),
        ) == m.unknown,
{
}

/// A forecast is reused for less than 55 seconds after it was fetched, and never when none
/// was fetched.
pub proof fn law_forecast_cache(elapsed: u128)
    ensures
        elapsed < 55_000 ==> (elapsed < FORECAST_CACHE_MILLIS),
        elapsed >= 55_000 ==> !(elapsed < FORECAST_CACHE_MILLIS),
{
}

/// The kind of weather of each WMO code range.
pub proof fn law_weather_kinds(code: u32)
    ensures
        code == 0 ==> weather_kind_of(code) == WeatherKind::Clear,
        1 <= code <= 3 ==> weather_kind_of(code) == WeatherKind::Cloudy,
        45 <= code <= 48 ==> weather_kind_of(code) == WeatherKind::Foggy,
        51 <= code <= 55 ==> weather_kind_of(code) == WeatherKind::Drizzle,
        (56 <= code <= 57 || 66 <= code <= 67) ==> weather_kind_of(code) == WeatherKind::FreezingRain,
        61 <= code <= 65 ==> weather_kind_of(code) == WeatherKind::Rain,
        (71 <= code <= 77 || 85 <= code <= 86) ==> weather_kind_of(code) == WeatherKind::Snow,
        80 <= code <= 82 ==> weather_kind_of(code) == WeatherKind::Showers,
        code == 95 ==> weather_kind_of(code) == WeatherKind::Thunderstorm,
        96 <= code <= 99 ==> weather_kind_of(code) == WeatherKind::Hail,
        !(code == 0 || 1 <= code <= 3 || 45 <= code <= 48 || 51 <= code <= 57 || 61 <= code <= 67 || 71
            <= code <= 77 || 80 <= code <= 82 || 85 <= code <= 86 || 95 <= code <= 99) ==> weather_kind_of(
            code,
        ) == WeatherKind::Unknown,
{
}

} // verus!

