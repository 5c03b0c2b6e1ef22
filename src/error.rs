use vstd::prelude::*;

verus! {

/// Why a task's result is unavailable, or why a request on a handle was refused.
#[derive(Debug, PartialEq)]
pub enum Error {
    /// Reserved.
    Empty,
    /// The task was cancelled before its work began.
    Cancelled,
    /// Reserved: no operation waits with a time limit.
    Timeout,
    /// `wait` was called more than once on the same handle.
    MultipleWaits,
    /// The result channel closed with no message and no recorded cancellation.
    ChannelDisconnected,
    /// Cancellation was requested after the task's work had begun.
    CancelAfterRunning,
    /// Room for failures of other kinds.
    Other(String),
}

} // verus!
