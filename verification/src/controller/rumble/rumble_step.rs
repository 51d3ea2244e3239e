use vstd::prelude::*;

verus! {

/// Full motor strength, in basis points.
pub const FULL_STRENGTH: u16 = 10000;

/// One step of a rumble sequence: the strength of the two handle motors and the two
/// trigger motors, in basis points of full strength, held for `duration` milliseconds.
/// A gap is a step with every motor off.
#[derive(Clone, Copy, Debug, PartialEq, Eq, Structural)]
pub struct RumbleStep {
    pub low_frequency: u16,
    pub high_frequency: u16,
    pub left_trigger: u16,
    pub right_trigger: u16,
    pub duration: u64,
}

pub open spec fn active_step(
    low_frequency: u16,
    high_frequency: u16,
    left_trigger: u16,
    right_trigger: u16,
    duration: u64,
) -> RumbleStep {
    RumbleStep { low_frequency, high_frequency, left_trigger, right_trigger, duration }
}

pub open spec fn gap_step(duration: u64) -> RumbleStep {
    RumbleStep { low_frequency: 0, high_frequency: 0, left_trigger: 0, right_trigger: 0, duration }
}

impl RumbleStep {
    pub fn active(
        low_frequency: u16,
        high_frequency: u16,
        left_trigger: u16,
        right_trigger: u16,
        duration: u64,
    ) -> (step: Self)
        ensures
            step == active_step(low_frequency, high_frequency, left_trigger, right_trigger, duration),
    {
        RumbleStep { low_frequency, high_frequency, left_trigger, right_trigger, duration }
    }

    pub fn gap(duration: u64) -> (step: Self)
        ensures
            step == gap_step(duration),
    {
        RumbleStep { low_frequency: 0, high_frequency: 0, left_trigger: 0, right_trigger: 0, duration }
    }
}

} // verus!
