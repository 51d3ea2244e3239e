use vstd::prelude::*;

use super::{parse_xinput_slot, xinput_slot_of};
use crate::controller::source::ControllerSource;
use crate::controller::sourced::{Controller, SourcedControllerView};

verus! {

/// Which controller a rumble goes to: an exact XInput slot, or the single connected
/// controller.
#[derive(Clone, Copy, Debug, PartialEq, Eq, Structural)]
pub enum RumbleTarget {
    SingleController,
    XInputSlot(u32),
}

/// An XInput controller whose identity names its slot is targeted exactly; any other
/// controller is targeted as the single connected one.
pub open spec fn target_for(controller: SourcedControllerView) -> RumbleTarget {
    if controller.source == ControllerSource::XInput && xinput_slot_of(controller.id) is Some {
        RumbleTarget::XInputSlot(xinput_slot_of(controller.id)->0)
    } else {
        RumbleTarget::SingleController
    }
}

impl RumbleTarget {
    pub fn for_controller(controller: &Controller) -> (target: Self)
        ensures
            target == target_for(controller@),
    {
        if controller.source() == ControllerSource::XInput {
            match parse_xinput_slot(controller.id()) {
                Some(slot) => return RumbleTarget::XInputSlot(slot),
                None => {},
            }
        }
        RumbleTarget::SingleController
    }

    pub fn xinput_slot(self) -> (slot: Option<u32>)
        ensures
            slot == (match self {
                RumbleTarget::XInputSlot(slot) => Some(slot),
                RumbleTarget::SingleController => None,
            }),
    {
        match self {
            RumbleTarget::XInputSlot(slot) => Some(slot),
            RumbleTarget::SingleController => None,
        }
    }
}

} // verus!
