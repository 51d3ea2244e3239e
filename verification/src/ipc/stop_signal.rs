//! The decisions of a stop request: whether there is anything to stop, and when the
//! wait for the monitor to exit ends. Signalling and waiting happen outside the library.
use vstd::prelude::*;

use super::stop_result::StopResult;

verus! {

/// How often a stop request looks again whether the monitor has exited, in nanoseconds
/// (a tenth of a second).
pub const STOP_WAIT_SLICE: u64 = 100_000_000;

/// Before signalling: a monitor that is not running needs no stop.
pub fn stop_before_signal(monitor_running: bool) -> (result: Option<StopResult>)
    ensures
        result == (if monitor_running {
            None
        } else {
            Some(StopResult::NotRunning)
        }),
{
    if monitor_running {
        None
    } else {
        Some(StopResult::NotRunning)
    }
}

/// While waiting: an exited monitor has stopped; past the deadline the request has
/// timed out; otherwise the wait goes on.
pub open spec fn stop_while_waiting_spec(monitor_exited: bool, now: u64, deadline: u64) -> Option<StopResult> {
    if monitor_exited {
        Some(StopResult::Stopped)
    } else if now >= deadline {
        Some(StopResult::TimedOut)
    } else {
        None
    }
}

pub fn stop_while_waiting(monitor_exited: bool, now: u64, deadline: u64) -> (result: Option<StopResult>)
    ensures
        result == stop_while_waiting_spec(monitor_exited, now, deadline),
{
    if monitor_exited {
        Some(StopResult::Stopped)
    } else if now >= deadline {
        Some(StopResult::TimedOut)
    } else {
        None
    }
}

/// The deadline of a wait that starts at `now` and lasts `timeout` nanoseconds.
pub fn stop_deadline(now: u64, timeout: u64) -> (deadline: u64)
    ensures
        deadline == (if now + timeout > u64::MAX {
            u64::MAX
        } else {
            (now + timeout) as u64
        }),
{
    now.saturating_add(timeout)
}

/// A stop request that sees the monitor exit reports it stopped, whatever the time; it
/// reports a time-out only past the deadline, and keeps waiting only before it.
pub proof fn law_stop_wait_ends_at_exit_or_deadline(monitor_exited: bool, now: u64, deadline: u64)
    ensures
        monitor_exited ==> stop_while_waiting_spec(monitor_exited, now, deadline) == Some(StopResult::Stopped),
        stop_while_waiting_spec(monitor_exited, now, deadline) == Some(StopResult::TimedOut) ==> now >= deadline,
        stop_while_waiting_spec(monitor_exited, now, deadline) is None <==> (!monitor_exited && now < deadline),
{
}

} // verus!
