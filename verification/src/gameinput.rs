//! What GameInput's battery status codes mean.
use vstd::prelude::*;

use crate::controller::battery::charge::BatteryCharge;
use crate::controller::battery::kind::BatteryKind;
use crate::controller::battery::reading::BatteryReading;

verus! {

pub const GAMEINPUT_BATTERY_UNKNOWN: i32 = -1;
pub const GAMEINPUT_BATTERY_NOT_PRESENT: i32 = 0;
pub const GAMEINPUT_BATTERY_DISCHARGING: i32 = 1;
pub const GAMEINPUT_BATTERY_IDLE: i32 = 2;
pub const GAMEINPUT_BATTERY_CHARGING: i32 = 3;

/// A controller without a battery is wired; every other status says nothing about the
/// battery's kind.
pub open spec fn battery_kind_for_status_spec(status: i32) -> BatteryKind {
    if status == GAMEINPUT_BATTERY_NOT_PRESENT {
        BatteryKind::Wired
    } else {
        BatteryKind::Unknown
    }
}

pub fn battery_kind_for_status(status: i32) -> (kind: BatteryKind)
    ensures
        kind == battery_kind_for_status_spec(status),
{
    if status == GAMEINPUT_BATTERY_NOT_PRESENT {
        BatteryKind::Wired
    } else {
        BatteryKind::Unknown
    }
}

/// The reading for a battery status and the precise percentage computed from the
/// battery's capacities, if one could be.
pub fn battery_reading(status: i32, precise_percent: Option<u8>) -> (reading: BatteryReading)
    ensures
        reading.kind == battery_kind_for_status_spec(status),
        reading.charge == (match precise_percent {
            Some(percent) => BatteryCharge::Precise(percent),
            None => BatteryCharge::Unknown,
        }),
{
    let charge = match precise_percent {
        Some(percent) => BatteryCharge::Precise(percent),
        None => BatteryCharge::Unknown,
    };
    BatteryReading::new(battery_kind_for_status(status), charge)
}

pub open spec fn battery_status_text(status: i32) -> Seq<char> {
    if status == GAMEINPUT_BATTERY_UNKNOWN {
        "unknown"@
    } else if status == GAMEINPUT_BATTERY_NOT_PRESENT {
        "not-present"@
    } else if status == GAMEINPUT_BATTERY_DISCHARGING {
        "discharging"@
    } else if status == GAMEINPUT_BATTERY_IDLE {
        "idle"@
    } else if status == GAMEINPUT_BATTERY_CHARGING {
        "charging"@
    } else {
        "unrecognized"@
    }
}

/// A name for a battery status, for diagnostics.
pub fn battery_status_description(status: i32) -> (text: &'static str)
    ensures
        text@ == battery_status_text(status),
{
    if status == GAMEINPUT_BATTERY_UNKNOWN {
        "unknown"
    } else if status == GAMEINPUT_BATTERY_NOT_PRESENT {
        "not-present"
    } else if status == GAMEINPUT_BATTERY_DISCHARGING {
        "discharging"
    } else if status == GAMEINPUT_BATTERY_IDLE {
        "idle"
    } else if status == GAMEINPUT_BATTERY_CHARGING {
        "charging"
    } else {
        "unrecognized"
    }
}


/// Only a missing battery means a wired controller: every status that reports a
/// battery (discharging, idle, charging), and an unknown status, leave the kind unknown.
pub proof fn law_only_a_missing_battery_means_wired(status: i32, precise_percent: Option<u8>)
    ensures
        (battery_kind_for_status_spec(status) == BatteryKind::Wired) == (status == GAMEINPUT_BATTERY_NOT_PRESENT),
        status != GAMEINPUT_BATTERY_NOT_PRESENT ==> battery_kind_for_status_spec(status) == BatteryKind::Unknown,
        battery_kind_for_status_spec(GAMEINPUT_BATTERY_DISCHARGING) == BatteryKind::Unknown,
        battery_kind_for_status_spec(GAMEINPUT_BATTERY_IDLE) == BatteryKind::Unknown,
        battery_kind_for_status_spec(GAMEINPUT_BATTERY_CHARGING) == BatteryKind::Unknown,
        battery_kind_for_status_spec(GAMEINPUT_BATTERY_UNKNOWN) == BatteryKind::Unknown,
{
}

} // verus!
