use vstd::prelude::*;

verus! {

/// How a request to stop the background monitor ended.
#[derive(Clone, Copy, Debug, PartialEq, Eq, Structural)]
pub enum StopResult {
    /// No monitor was running.
    NotRunning,
    /// The monitor exited.
    Stopped,
    /// The monitor was still running when the wait ran out.
    TimedOut,
}

} // verus!
