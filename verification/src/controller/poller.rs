//! Choosing which API's view of the connected controllers to trust.
use vstd::prelude::*;

use super::battery::reading::BatteryReading;
use super::monitor::sourced_view;
use super::sourced::{Controller, SourcedControllerView};

verus! {

/// GameInput's controllers when it found any; otherwise the Windows.Gaming.Input
/// controllers with precise readings when XInput found none or the same number, and
/// XInput's controllers in every other case.
pub open spec fn selected_controllers(
    gameinput: Seq<SourcedControllerView>,
    xinput: Seq<SourcedControllerView>,
    precise: Seq<SourcedControllerView>,
) -> Seq<SourcedControllerView> {
    if gameinput.len() > 0 {
        gameinput
    } else if precise.len() == 0 {
        xinput
    } else if xinput.len() == 0 || precise.len() == xinput.len() {
        precise
    } else {
        xinput
    }
}

/// The controllers a query found; a failed query found none.
pub open spec fn found_controllers(found: Result<Vec<Controller>, String>) -> Seq<SourcedControllerView> {
    match found {
        Ok(controllers) => sourced_view(controllers@),
        Err(_) => Seq::empty(),
    }
}

/// Picks the controllers a poll reports, from what GameInput, XInput and
/// Windows.Gaming.Input (its controllers with a precise charge) answered. A failed
/// GameInput or Windows.Gaming.Input query counts as finding nothing; a failed XInput
/// query fails the poll, unless GameInput found controllers.
pub fn select_polled_controllers(
    gameinput: Result<Vec<Controller>, String>,
    xinput: Result<Vec<Controller>, String>,
    precise: Result<Vec<Controller>, String>,
) -> (selected: Result<Vec<Controller>, String>)
    ensures
        (selected is Err) == (found_controllers(gameinput).len() == 0 && xinput is Err),
        selected matches Err(e) ==> (xinput matches Err(x) && x@ == e@),
        selected matches Ok(s) ==> sourced_view(s@) == selected_controllers(
            found_controllers(gameinput),
            found_controllers(xinput),
            found_controllers(precise),
        ),
{
    let gameinput = match gameinput {
        Ok(controllers) => controllers,
        Err(_) => Vec::new(),
    };
    if gameinput.len() > 0 {
        return Ok(gameinput);
    }
    let xinput = match xinput {
        Ok(controllers) => controllers,
        Err(error) => return Err(error),
    };
    let precise = match precise {
        Ok(controllers) => controllers,
        Err(_) => Vec::new(),
    };
    if precise.len() == 0 {
        Ok(xinput)
    } else if xinput.len() == 0 || precise.len() == xinput.len() {
        Ok(precise)
    } else {
        Ok(xinput)
    }
}

/// The battery of the only XInput controller, when exactly one is connected.
pub fn single_battery(batteries: &Vec<BatteryReading>) -> (battery: Option<BatteryReading>)
    ensures
        battery == (if batteries@.len() == 1 {
            Some(batteries@[0])
        } else {
            None
        }),
{
    if batteries.len() == 1 {
        Some(batteries[0])
    } else {
        None
    }
}


/// Which controllers a poll reports: GameInput's whenever it found any; otherwise the
/// precise Windows.Gaming.Input list when it is not empty and XInput found none or the
/// same number, whatever that number; otherwise XInput's list.
pub proof fn law_poll_prefers_gameinput_then_matching_precise_readings(
    gameinput: Seq<SourcedControllerView>,
    xinput: Seq<SourcedControllerView>,
    precise: Seq<SourcedControllerView>,
)
    ensures
        gameinput.len() > 0 ==> selected_controllers(gameinput, xinput, precise) == gameinput,
        gameinput.len() == 0 && precise.len() > 0 && precise.len() == xinput.len() ==> selected_controllers(
            gameinput,
            xinput,
            precise,
        ) == precise,
        gameinput.len() == 0 && precise.len() > 0 && xinput.len() == 0 ==> selected_controllers(
            gameinput,
            xinput,
            precise,
        ) == precise,
        gameinput.len() == 0 && precise.len() == 0 ==> selected_controllers(gameinput, xinput, precise) == xinput,
        gameinput.len() == 0 && xinput.len() > 0 && precise.len() != xinput.len() ==> selected_controllers(
            gameinput,
            xinput,
            precise,
        ) == xinput,
{
}

} // verus!
