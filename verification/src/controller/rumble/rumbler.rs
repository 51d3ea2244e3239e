//! Deciding how to rumble a controller when its battery warns.
use vstd::prelude::*;

use super::config::{ControllerRumbleConfig, RumbleConfigView, pattern_steps, stage_pattern};
use super::pattern::{BatteryWarningStage, stage_for_event};
use super::rumble_step::RumbleStep;
use super::target::{RumbleTarget, target_for};
use crate::controller::event::{ControllerEvent, SourcedEventView, event_controller};

verus! {

/// The rumble a warning event asks for under a configuration: none when rumbling is
/// disabled or the event is no battery warning with a stage; otherwise the steps of the
/// stage's pattern, sent to the controller the event is about.
pub open spec fn rumble_request_spec(config: RumbleConfigView, event: SourcedEventView) -> Option<
    (RumbleTarget, Seq<RumbleStep>),
> {
    if !config.enabled {
        None
    } else {
        match stage_for_event(event) {
            Some(stage) => Some(
                (
                    target_for(event_controller(event)),
                    pattern_steps(stage_pattern(config.patterns, stage), config.jolt_gap_duration, config.group_gap_duration),
                ),
            ),
            None => None,
        }
    }
}

/// Rumbles a controller when its battery warns, following a rumble configuration.
#[derive(Clone, Debug)]
pub struct BatteryWarningRumbler {
    config: ControllerRumbleConfig,
}

impl View for BatteryWarningRumbler {
    type V = RumbleConfigView;

    closed spec fn view(&self) -> RumbleConfigView {
        self.config@
    }
}

impl BatteryWarningRumbler {
    pub fn new(config: ControllerRumbleConfig) -> (rumbler: Self)
        ensures
            rumbler@ == config@,
    {
        BatteryWarningRumbler { config }
    }

    pub fn set_config(&mut self, config: ControllerRumbleConfig)
        ensures
            final(self)@ == config@,
    {
        self.config = config;
    }

    /// Where to rumble for `event`, and the steps to play there; the rumble itself is
    /// played by a backend, away from the caller.
    pub fn rumble_for_event(&self, event: &ControllerEvent) -> (request: Option<(RumbleTarget, Vec<RumbleStep>)>)
        ensures
            match request {
                Some((target, steps)) => rumble_request_spec(self@, event@) == Some((target, steps@)),
                None => rumble_request_spec(self@, event@) is None,
            },
    {
        if !self.config.enabled() {
            return None;
        }
        match BatteryWarningStage::for_event(event) {
            Some(stage) => {
                let target = RumbleTarget::for_controller(event.controller());
                Some((target, self.config.steps_for_stage(stage)))
            },
            None => None,
        }
    }
}

} // verus!
