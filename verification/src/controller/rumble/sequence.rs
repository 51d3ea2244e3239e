use vstd::prelude::*;

use super::config::{ControllerRumbleConfig, RumblePattern, pattern_steps};
use super::rumble_step::RumbleStep;

verus! {

/// The timed steps that `pattern` rumbles with the gaps of `config`.
pub fn rumble_sequence(pattern: &RumblePattern, config: &ControllerRumbleConfig) -> (steps: Vec<RumbleStep>)
    ensures
        steps@ == pattern_steps(pattern@, config@.jolt_gap_duration, config@.group_gap_duration),
{
    config.steps_for_pattern(pattern)
}

} // verus!
