//! The decisions of stopping the background monitor: whether there is anything to stop,
//! and when the wait for it to exit ends.
use vstd::prelude::*;

verus! {

/// How a request to stop the background monitor ended.
#[derive(Clone, Copy, Debug, PartialEq, Eq, Structural)]
pub enum MonitorStopResult {
    NotRunning,
    Stopped,
    TimedOut,
}

/// Before signalling: a monitor that is not running needs no stop.
pub fn monitor_stop_before_signal(monitor_running: bool) -> (result: Option<MonitorStopResult>)
    ensures
        result == (if monitor_running {
            None
        } else {
            Some(MonitorStopResult::NotRunning)
        }),
{
    if monitor_running {
        None
    } else {
        Some(MonitorStopResult::NotRunning)
    }
}

/// While waiting: an exited monitor has stopped; past the deadline the stop has timed
/// out; otherwise the wait goes on.
pub fn monitor_stop_while_waiting(monitor_exited: bool, now: u64, deadline: u64) -> (result: Option<
    MonitorStopResult,
>)
    ensures
        result == (if monitor_exited {
            Some(MonitorStopResult::Stopped)
        } else if now >= deadline {
            Some(MonitorStopResult::TimedOut)
        } else {
            None
        }),
{
    if monitor_exited {
        Some(MonitorStopResult::Stopped)
    } else if now >= deadline {
        Some(MonitorStopResult::TimedOut)
    } else {
        None
    }
}

} // verus!
