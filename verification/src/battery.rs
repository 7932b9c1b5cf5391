//! Icons for the charge of a battery, and how long a battery reading is reused.
use crate::text::string_of as icon;
use vstd::prelude::*;

verus! {

/// The icon shown for each tenth of charge, discharging and charging, and for an unknown
/// charge.
#[derive(Debug, Clone)]
pub struct BatteryIcons {
    pub p0: String,
    pub p10: String,
    pub p20: String,
    pub p30: String,
    pub p40: String,
    pub p50: String,
    pub p60: String,
    pub p70: String,
    pub p80: String,
    pub p90: String,
    pub p100: String,
    pub p0_charging: String,
    pub p10_charging: String,
    pub p20_charging: String,
    pub p30_charging: String,
    pub p40_charging: String,
    pub p50_charging: String,
    pub p60_charging: String,
    pub p70_charging: String,
    pub p80_charging: String,
    pub p90_charging: String,
    pub p100_charging: String,
    pub unknown: String,
}

/// The Nerd Font battery icons.
pub open spec fn is_default_battery_icons(b: BatteryIcons) -> bool {
    &&& b.p0@ == "\u{F008E}"@
    &&& b.p10@ == "\u{F007A}"@
    &&& b.p20@ == "\u{F007B}"@
    &&& b.p30@ == "\u{F007C}"@
    &&& b.p40@ == "\u{F007D}"@
    &&& b.p50@ == "\u{F007E}"@
    &&& b.p60@ == "\u{F007F}"@
    &&& b.p70@ == "\u{F0080}"@
    &&& b.p80@ == "\u{F0081}"@
    &&& b.p90@ == "\u{F0082}"@
    &&& b.p100@ == "\u{F0079}"@
    &&& b.p0_charging@ == "\u{F089F}"@
    &&& b.p10_charging@ == "\u{F089C}"@
    &&& b.p20_charging@ == "\u{F0086}"@
    &&& b.p30_charging@ == "\u{F0087}"@
    &&& b.p40_charging@ == "\u{F0088}"@
    &&& b.p50_charging@ == "\u{F089D}"@
    &&& b.p60_charging@ == "\u{F0089}"@
    &&& b.p70_charging@ == "\u{F089E}"@
    &&& b.p80_charging@ == "\u{F008A}"@
    &&& b.p90_charging@ == "\u{F008B}"@
    &&& b.p100_charging@ == "\u{F0085}"@
    &&& b.unknown@ == "\u{F0091}"@
}

impl Default for BatteryIcons {
    /// The Nerd Font battery icons.
    fn default() -> (b: Self)
        ensures
            is_default_battery_icons(b),
    {
        BatteryIcons {
            p0: icon("\u{F008E}"),
            p10: icon("\u{F007A}"),
            p20: icon("\u{F007B}"),
            p30: icon("\u{F007C}"),
            p40: icon("\u{F007D}"),
            p50: icon("\u{F007E}"),
            p60: icon("\u{F007F}"),
            p70: icon("\u{F0080}"),
            p80: icon("\u{F0081}"),
            p90: icon("\u{F0082}"),
            p100: icon("\u{F0079}"),
            p0_charging: icon("\u{F089F}"),
            p10_charging: icon("\u{F089C}"),
            p20_charging: icon("\u{F0086}"),
            p30_charging: icon("\u{F0087}"),
            p40_charging: icon("\u{F0088}"),
            p50_charging: icon("\u{F089D}"),
            p60_charging: icon("\u{F0089}"),
            p70_charging: icon("\u{F089E}"),
            p80_charging: icon("\u{F008A}"),
            p90_charging: icon("\u{F008B}"),
            p100_charging: icon("\u{F0085}"),
            unknown: icon("\u{F0091}"),
        }
    }
}

/// How long a battery reading is reused before the system is asked again, in milliseconds.
pub const BATTERY_CACHE_MILLIS: u128 = 500;

/// Whether the last battery reading, taken `elapsed_millis` whole milliseconds ago (none
/// taken yet: `None`), is reused instead of asking the system again.
pub fn cached_battery_is_fresh(elapsed_millis: Option<u128>) -> (fresh: bool)
    ensures
        fresh == (match elapsed_millis {
            Some(e) => e < BATTERY_CACHE_MILLIS,
            None => false,
        }),
{
    match elapsed_millis {
        Some(e) => e < BATTERY_CACHE_MILLIS,
        None => false,
    }
}

} // verus!
