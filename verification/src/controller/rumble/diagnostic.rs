//! The rumble diagnostics: the steps a test rumble plays, and how the backend's answer
//! becomes the diagnostic's outcome.
use vstd::prelude::*;

use super::config::{ControllerRumbleConfig, RumbleConfigView, pattern_steps, stage_pattern};
use super::pattern::{BatteryWarningStage, diagnostic_stage};
use super::rumble_step::RumbleStep;
use crate::controller::source::BackendKind;
use crate::text::{decimal, u64_decimal};

verus! {

/// The steps a diagnostic rumble of a warning level (0 to 3) plays.
pub open spec fn diagnostic_steps_spec(config: RumbleConfigView, warning_level: u8) -> Seq<RumbleStep> {
    pattern_steps(
        stage_pattern(config.patterns, diagnostic_stage(warning_level)),
        config.jolt_gap_duration,
        config.group_gap_duration,
    )
}

/// The steps to send to the backend for a diagnostic rumble of `warning_level`.
pub fn diagnostic_steps(config: &ControllerRumbleConfig, warning_level: u8) -> (steps: Vec<RumbleStep>)
    ensures
        steps@ == diagnostic_steps_spec(config@, warning_level),
{
    config.steps_for_stage(BatteryWarningStage::diagnostic(warning_level))
}

pub open spec fn single_gameinput_error() -> Seq<char> {
    "requires exactly one connected GameInput controller"@
}

pub open spec fn single_xinput_error() -> Seq<char> {
    "requires exactly one connected XInput controller"@
}

pub open spec fn slot_unavailable_error(slot: u32) -> Seq<char> {
    "XInput slot "@ + decimal((slot + 1) as nat) + " is not available"@
}

/// The outcome of a diagnostic rumble of the single GameInput controller: the backend's
/// error, or the backend that played it, or an error when no single controller took it.
pub fn rumble_single_controller(answer: Result<Option<BackendKind>, String>) -> (outcome: Result<BackendKind, String>)
    ensures
        match answer {
            Err(e) => outcome matches Err(o) && o@ == e@,
            Ok(Some(kind)) => outcome == Ok::<BackendKind, String>(kind),
            Ok(None) => outcome matches Err(o) && o@ == single_gameinput_error(),
        },
{
    match answer {
        Err(e) => Err(e),
        Ok(Some(kind)) => Ok(kind),
        Ok(None) => Err(String::from_str("requires exactly one connected GameInput controller")),
    }
}

/// The outcome of a diagnostic rumble of the single XInput controller: success only when
/// XInput played it.
pub fn rumble_single_xinput_controller(answer: Result<Option<BackendKind>, String>) -> (outcome: Result<(), String>)
    ensures
        match answer {
            Err(e) => outcome matches Err(o) && o@ == e@,
            Ok(Some(BackendKind::XInput)) => outcome is Ok,
            Ok(_) => outcome matches Err(o) && o@ == single_xinput_error(),
        },
{
    match answer {
        Err(e) => Err(e),
        Ok(Some(BackendKind::XInput)) => Ok(()),
        Ok(_) => Err(String::from_str("requires exactly one connected XInput controller")),
    }
}

/// The outcome of a diagnostic rumble of an XInput slot: success only when XInput played
/// it; slots are numbered from one in the error.
pub fn rumble_xinput_slot(slot: u32, answer: Result<Option<BackendKind>, String>) -> (outcome: Result<(), String>)
    requires
        slot < u32::MAX,
    ensures
        match answer {
            Err(e) => outcome matches Err(o) && o@ == e@,
            Ok(Some(BackendKind::XInput)) => outcome is Ok,
            Ok(_) => outcome matches Err(o) && o@ == slot_unavailable_error(slot),
        },
{
    match answer {
        Err(e) => Err(e),
        Ok(Some(BackendKind::XInput)) => Ok(()),
        Ok(_) => {
            let mut text = String::from_str("XInput slot ");
            text.append(u64_decimal((slot + 1) as u64).as_str());
            text.append(" is not available");
            Err(text)
        },
    }
}

} // verus!
