//! Attaching battery readings from a battery API to controllers found by another API.
use vstd::prelude::*;

use super::battery::reading::BatteryReading;
use super::monitor::sourced_view;
use super::source::ControllerSource;
use super::sourced::{Controller, SourcedControllerView};

verus! {

/// The controllers with the readings attached, position by position, when the battery
/// API answered with exactly one reading per controller; otherwise the controllers as
/// they were.
pub open spec fn attached_readings(
    controllers: Seq<SourcedControllerView>,
    readings: Option<Seq<BatteryReading>>,
    source: ControllerSource,
) -> Seq<SourcedControllerView> {
    match readings {
        Some(readings) => if readings.len() == controllers.len() {
            Seq::new(
                controllers.len(),
                |i: int| SourcedControllerView { source, battery: readings[i], ..controllers[i] },
            )
        } else {
            controllers
        },
        None => controllers,
    }
}

pub open spec fn readings_view(readings: Result<Vec<BatteryReading>, String>) -> Option<Seq<BatteryReading>> {
    match readings {
        Ok(readings) => Some(readings@),
        Err(_) => None,
    }
}

/// Attaches the readings that the battery API at `source` returned to the controllers.
pub fn attach_battery_readings(
    controllers: Vec<Controller>,
    readings: Result<Vec<BatteryReading>, String>,
    source: ControllerSource,
) -> (attached: Vec<Controller>)
    ensures
        sourced_view(attached@) == attached_readings(sourced_view(controllers@), readings_view(readings), source),
{
    let readings = match readings {
        Ok(readings) => readings,
        Err(_) => return controllers,
    };
    if readings.len() != controllers.len() {
        return controllers;
    }
    let ghost all = sourced_view(controllers@);
    let mut attached: Vec<Controller> = Vec::new();
    let mut i: usize = 0;
    while i < controllers.len()
        invariant
            i <= controllers.len(),
            readings.len() == controllers.len(),
            all == sourced_view(controllers@),
            attached@.len() == i,
            forall|k: int|
                0 <= k < i ==> #[trigger] attached@[k]@ == (SourcedControllerView {
                    source,
                    battery: readings@[k],
                    ..all[k]
                }),
        decreases controllers.len() - i,
    {
        let controller = controllers[i].clone();
        attached.push(controller.with_battery(source, readings[i]));
        i = i + 1;
    }
    assert(sourced_view(attached@) =~= attached_readings(all, Some(readings@), source));
    attached
}

/// Attaches the reading to a single controller when the battery API returned exactly
/// one.
pub fn attach_single_battery_reading(
    controller: Controller,
    readings: Result<Vec<BatteryReading>, String>,
    source: ControllerSource,
) -> (attached: Controller)
    ensures
        attached@ == (match readings_view(readings) {
            Some(readings) => if readings.len() == 1 {
                SourcedControllerView { source, battery: readings[0], ..controller@ }
            } else {
                controller@
            },
            None => controller@,
        }),
{
    match readings {
        Ok(readings) => if readings.len() == 1 {
            controller.with_battery(source, readings[0])
        } else {
            controller
        },
        Err(_) => controller,
    }
}

} // verus!
