//! Rumbling a controller when its battery warns: how many pulses a warning gets, how
//! strong they are, and which XInput slot a controller sits in.
use vstd::prelude::*;

use super::battery::level::BatteryLevel;
use super::battery::warning::BatteryWarning;
use super::event::{ControllerEvent, SourcedEventView};
use crate::text::{parse_u32, parse_u32_spec, same_text};

pub mod backend;
pub mod config;
pub mod diagnostic;
pub mod pattern;
pub mod rumble_step;
pub mod rumbler;
pub mod sequence;
pub mod target;

verus! {

/// Whether warnings rumble, the motor strength in percent (capped at 100), and how long
/// each pulse and each gap between pulses lasts, in milliseconds.
#[derive(Clone, Copy, Debug, PartialEq, Eq, Structural)]
pub struct ControllerRumbleConfig {
    pub enabled: bool,
    pub motor_strength_percent: u8,
    pub pulse_duration: u64,
    pub gap_duration: u64,
}

impl ControllerRumbleConfig {
    pub fn new(enabled: bool, motor_strength_percent: u8, pulse_duration: u64, gap_duration: u64) -> (config: Self)
        ensures
            config == (ControllerRumbleConfig { enabled, motor_strength_percent, pulse_duration, gap_duration }),
    {
        ControllerRumbleConfig { enabled, motor_strength_percent, pulse_duration, gap_duration }
    }
}

impl Default for ControllerRumbleConfig {
    /// Disabled, at 35% strength, with 120 ms pulses and 100 ms gaps.
    fn default() -> (config: Self)
        ensures
            config == (ControllerRumbleConfig {
                enabled: false,
                motor_strength_percent: 35,
                pulse_duration: 120,
                gap_duration: 100,
            }),
    {
        Self::new(false, 35, 120, 100)
    }
}

/// How many pulses a warning rumbles.
#[derive(Clone, Copy, Debug, PartialEq, Eq, Structural)]
pub struct RumblePattern {
    pub pulses: u8,
}

/// One pulse at or above 26%, two down to 11%, three at 10% or below; coarse levels
/// medium, low and empty give one, two and three, and full (or unknown) none.
pub open spec fn pulses_for(warning: BatteryWarning) -> u8 {
    match warning {
        BatteryWarning::Precise(percent) => if percent <= 10 {
            3
        } else if percent <= 25 {
            2
        } else {
            1
        },
        BatteryWarning::Coarse(level) => match level {
            BatteryLevel::Empty => 3,
            BatteryLevel::Low => 2,
            BatteryLevel::Medium => 1,
            _ => 0,
        },
    }
}

pub open spec fn pattern_for_event_spec(event: SourcedEventView) -> Option<RumblePattern> {
    match event {
        SourcedEventView::BatteryWarning { warning, .. } => Some(RumblePattern { pulses: pulses_for(warning) }),
        _ => None,
    }
}

/// The identity prefix of controllers read through XInput.
pub open spec fn xinput_prefix() -> Seq<char> {
    "xinput:"@
}

/// The XInput slot in an identity of the form `xinput:<slot>`.
pub open spec fn xinput_slot_of(id: Seq<char>) -> Option<u32> {
    if id.len() >= 7 && id.subrange(0, 7) == xinput_prefix() {
        parse_u32_spec(id.subrange(7, id.len() as int))
    } else {
        None
    }
}

/// The XInput motor speed for a strength in percent, capped at 100.
pub open spec fn motor_speed_spec(percent: u8) -> u16 {
    let capped: nat = if percent > 100 {
        100
    } else {
        percent as nat
    };
    (capped * 65535 / 100) as u16
}

impl RumblePattern {
    /// The pattern a battery warning rumbles; connections do not rumble.
    pub fn for_event(event: &ControllerEvent) -> (pattern: Option<Self>)
        ensures
            pattern == pattern_for_event_spec(event@),
    {
        match event {
            ControllerEvent::BatteryWarning { warning, .. } => Some(RumblePattern { pulses: pulses_for_warning(*warning) }),
            ControllerEvent::Connected(_) => None,
            ControllerEvent::Disconnected(_) => None,
        }
    }
}

pub fn pulses_for_warning(warning: BatteryWarning) -> (pulses: u8)
    ensures
        pulses == pulses_for(warning),
{
    match warning {
        BatteryWarning::Precise(percent) => if percent <= 10 {
            3
        } else if percent <= 25 {
            2
        } else {
            1
        },
        BatteryWarning::Coarse(BatteryLevel::Empty) => 3,
        BatteryWarning::Coarse(BatteryLevel::Low) => 2,
        BatteryWarning::Coarse(BatteryLevel::Medium) => 1,
        BatteryWarning::Coarse(_) => 0,
    }
}

/// The XInput slot of a controller identity such as `xinput:2`.
pub fn parse_xinput_slot(id: &str) -> (slot: Option<u32>)
    ensures
        slot == xinput_slot_of(id@),
{
    let len = id.unicode_len();
    if len < 7 {
        return None;
    }
    let prefix = "xinput:";
    proof {
        reveal_strlit("xinput:");
    }
    if !same_text(id.substring_char(0, 7), prefix) {
        return None;
    }
    parse_u32(id.substring_char(7, len))
}

/// The XInput motor speed for a strength in percent, capped at 100.
pub fn motor_speed(percent: u8) -> (speed: u16)
    ensures
        speed == motor_speed_spec(percent),
{
    let capped: u32 = if percent > 100 {
        100
    } else {
        percent as u32
    };
    (capped * 65535 / 100) as u16
}

/// Rumbles a controller when its battery warns, if enabled.
#[derive(Clone, Debug)]
pub struct ControllerRumbler {
    config: ControllerRumbleConfig,
}

impl View for ControllerRumbler {
    type V = ControllerRumbleConfig;

    closed spec fn view(&self) -> ControllerRumbleConfig {
        self.config
    }
}

impl ControllerRumbler {
    pub fn new(config: ControllerRumbleConfig) -> (rumbler: Self)
        ensures
            rumbler@ == config,
    {
        ControllerRumbler { config }
    }

    pub fn config(&self) -> (config: ControllerRumbleConfig)
        ensures
            config == self@,
    {
        self.config
    }

    /// The pattern to rumble for `event`: none when rumbling is disabled or the event is
    /// not a battery warning.
    pub fn pattern_for(&self, event: &ControllerEvent) -> (pattern: Option<RumblePattern>)
        ensures
            pattern == (if self@.enabled {
                pattern_for_event_spec(event@)
            } else {
                None
            }),
    {
        if !self.config.enabled {
            return None;
        }
        RumblePattern::for_event(event)
    }
}


/// A precise warning rumbles three pulses at or below 10%, two for every percentage
/// from 11% to 25%, and one above; the lower the percentage, the more pulses. Coarse
/// warnings give three for empty, two for low, one for medium and none for full.
pub proof fn law_lower_precise_warnings_rumble_more(percent: u8, other: u8)
    ensures
        percent <= 10 ==> pulses_for(BatteryWarning::Precise(percent)) == 3,
        10 < percent <= 25 ==> pulses_for(BatteryWarning::Precise(percent)) == 2,
        25 < percent ==> pulses_for(BatteryWarning::Precise(percent)) == 1,
        percent <= other ==> pulses_for(BatteryWarning::Precise(percent)) >= pulses_for(BatteryWarning::Precise(other)),
        pulses_for(BatteryWarning::Coarse(BatteryLevel::Empty)) == 3,
        pulses_for(BatteryWarning::Coarse(BatteryLevel::Low)) == 2,
        pulses_for(BatteryWarning::Coarse(BatteryLevel::Medium)) == 1,
        pulses_for(BatteryWarning::Coarse(BatteryLevel::Full)) == 0,
{
}


/// Motor speeds scale with the strength: none at 0%, full speed (65535) at 100% and
/// above, and a stronger setting never gives a slower motor.
pub proof fn law_motor_speed_grows_with_strength(percent: u8, other: u8)
    ensures
        motor_speed_spec(0) == 0,
        percent >= 100 ==> motor_speed_spec(percent) == 65535,
        percent <= other ==> motor_speed_spec(percent) <= motor_speed_spec(other),
{
    let a: nat = if percent > 100 { 100 } else { percent as nat };
    let b: nat = if other > 100 { 100 } else { other as nat };
    assert(a * 65535 / 100 <= 65535) by (nonlinear_arith)
        requires
            a <= 100,
    ;
    assert(b * 65535 / 100 <= 65535) by (nonlinear_arith)
        requires
            b <= 100,
    ;
    if percent <= other {
        assert(a * 65535 / 100 <= b * 65535 / 100) by (nonlinear_arith)
            requires
                a <= b,
        ;
    }
}

} // verus!
