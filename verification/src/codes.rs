//! The native engine's small-integer status codes, and their classification
//! into the tri-state work status that ends or continues the work loop.

use vstd::prelude::*;

verus! {

/// Native poll status: the engine reported a failure during the poll.
pub const WORKSTATUS_ERROR: i32 = -1;
/// Native poll status: the poll went through and tracing is still live.
pub const WORKSTATUS_OKAY: i32 = 0;
/// Native poll status: the engine signalled terminal completion.
pub const WORKSTATUS_DONE: i32 = 1;

/// The code a buffered-output callback answers to let the engine continue.
pub const HANDLE_OK: i32 = 0;

/// The outcome of one poll cycle. `Active` means keep polling; `Done` and
/// `Error` are terminal for the work loop.
#[derive(Debug, Clone, Copy, PartialEq, Eq, Structural)]
pub enum WorkStatus {
    Active,
    Done,
    Error,
}

/// The three poll status codes the engine is known to return. Any other code
/// means the engine and this binding have drifted out of sync — a fatal
/// invariant violation, not a recoverable error, so every function here
/// rules it out rather than interpreting it.
pub open spec fn known_status(status: i32) -> bool {
    status == WORKSTATUS_ERROR || status == WORKSTATUS_OKAY || status == WORKSTATUS_DONE
}

/// Classifies a known native poll status into the tri-state work status.
pub fn classify_status(status: i32) -> (r: WorkStatus)
    requires
        known_status(status),
    ensures
        r == WorkStatus::Error <==> status == WORKSTATUS_ERROR,
        r == WorkStatus::Active <==> status == WORKSTATUS_OKAY,
        r == WorkStatus::Done <==> status == WORKSTATUS_DONE,
{
    if status == WORKSTATUS_ERROR {
        WorkStatus::Error
    } else if status == WORKSTATUS_OKAY {
        WorkStatus::Active
    } else {
        WorkStatus::Done
    }
}

} // verus!
