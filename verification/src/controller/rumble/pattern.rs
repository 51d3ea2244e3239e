use vstd::prelude::*;

use crate::controller::battery::level::BatteryLevel;
use crate::controller::battery::warning::BatteryWarning;
use crate::controller::event::{ControllerEvent, SourcedEventView};

verus! {

/// How severe a battery warning is, which picks the rumble pattern.
#[derive(Clone, Copy, Debug, PartialEq, Eq, Structural)]
pub enum BatteryWarningStage {
    Medium,
    Low,
    Empty,
}

/// Precise warnings at or below 10% are empty, at or below 25% low, others medium;
/// coarse warnings map level to stage, and full (or unknown) has none.
pub open spec fn stage_for_warning(warning: BatteryWarning) -> Option<BatteryWarningStage> {
    match warning {
        BatteryWarning::Precise(percent) => if percent <= 10 {
            Some(BatteryWarningStage::Empty)
        } else if percent <= 25 {
            Some(BatteryWarningStage::Low)
        } else {
            Some(BatteryWarningStage::Medium)
        },
        BatteryWarning::Coarse(level) => match level {
            BatteryLevel::Empty => Some(BatteryWarningStage::Empty),
            BatteryLevel::Low => Some(BatteryWarningStage::Low),
            BatteryLevel::Medium => Some(BatteryWarningStage::Medium),
            _ => None,
        },
    }
}

pub open spec fn stage_for_event(event: SourcedEventView) -> Option<BatteryWarningStage> {
    match event {
        SourcedEventView::BatteryWarning { warning, .. } => stage_for_warning(warning),
        _ => None,
    }
}

/// The stage a diagnostic warning level (0 to 3) stands for.
pub open spec fn diagnostic_stage(warning_level: u8) -> BatteryWarningStage {
    if warning_level <= 1 {
        BatteryWarningStage::Medium
    } else if warning_level == 2 {
        BatteryWarningStage::Low
    } else {
        BatteryWarningStage::Empty
    }
}

impl BatteryWarningStage {
    pub fn for_event(event: &ControllerEvent) -> (stage: Option<Self>)
        ensures
            stage == stage_for_event(event@),
    {
        match event {
            ControllerEvent::BatteryWarning { warning, .. } => Self::for_warning(*warning),
            ControllerEvent::Connected(_) => None,
            ControllerEvent::Disconnected(_) => None,
        }
    }

    pub fn diagnostic(warning_level: u8) -> (stage: Self)
        ensures
            stage == diagnostic_stage(warning_level),
    {
        match warning_level {
            0 | 1 => BatteryWarningStage::Medium,
            2 => BatteryWarningStage::Low,
            _ => BatteryWarningStage::Empty,
        }
    }

    pub fn for_warning(warning: BatteryWarning) -> (stage: Option<Self>)
        ensures
            stage == stage_for_warning(warning),
    {
        match warning {
            BatteryWarning::Precise(percent) => if percent <= 10 {
                Some(BatteryWarningStage::Empty)
            } else if percent <= 25 {
                Some(BatteryWarningStage::Low)
            } else {
                Some(BatteryWarningStage::Medium)
            },
            BatteryWarning::Coarse(BatteryLevel::Empty) => Some(BatteryWarningStage::Empty),
            BatteryWarning::Coarse(BatteryLevel::Low) => Some(BatteryWarningStage::Low),
            BatteryWarning::Coarse(BatteryLevel::Medium) => Some(BatteryWarningStage::Medium),
            BatteryWarning::Coarse(_) => None,
        }
    }
}


/// A precise warning at or below 10% is at the empty stage, from 11% to 25% at the low
/// stage, and above at the medium stage, so a lower percentage is never at a milder
/// stage; coarse warnings keep their level's stage, and full has none. Diagnostic
/// warning levels 0 and 1 stand for medium, 2 for low, and 3 or more for empty.
pub proof fn law_lower_warnings_reach_severer_stages(percent: u8, warning_level: u8)
    ensures
        percent <= 10 ==> stage_for_warning(BatteryWarning::Precise(percent)) == Some(BatteryWarningStage::Empty),
        10 < percent <= 25 ==> stage_for_warning(BatteryWarning::Precise(percent)) == Some(BatteryWarningStage::Low),
        25 < percent ==> stage_for_warning(BatteryWarning::Precise(percent)) == Some(BatteryWarningStage::Medium),
        stage_for_warning(BatteryWarning::Coarse(BatteryLevel::Empty)) == Some(BatteryWarningStage::Empty),
        stage_for_warning(BatteryWarning::Coarse(BatteryLevel::Low)) == Some(BatteryWarningStage::Low),
        stage_for_warning(BatteryWarning::Coarse(BatteryLevel::Medium)) == Some(BatteryWarningStage::Medium),
        stage_for_warning(BatteryWarning::Coarse(BatteryLevel::Full)) is None,
        warning_level <= 1 ==> diagnostic_stage(warning_level) == BatteryWarningStage::Medium,
        warning_level == 2 ==> diagnostic_stage(warning_level) == BatteryWarningStage::Low,
        warning_level >= 3 ==> diagnostic_stage(warning_level) == BatteryWarningStage::Empty,
{
}

} // verus!
