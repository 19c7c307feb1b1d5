//! What the driver does when code around it faults.
//!
//! The functions of this library report every failure in their results and
//! never fault themselves. The policy here is for the code that embeds the
//! library in a host that cannot unwind.

use vstd::prelude::*;

verus! {

/// What becomes of a context that has faulted.
#[derive(Clone, Copy, Debug, PartialEq, Eq, Structural)]
pub enum FaultAction {
    /// The context is parked for good. It does not return into the host,
    /// does not unwind through it, and does not take it down.
    Halt,
}

/// Decides what becomes of a context that has faulted: it is parked,
/// whatever the fault was, so that the fault stays with the driver.
pub fn panic() -> (action: FaultAction)
    ensures
        action == FaultAction::Halt,
{
    FaultAction::Halt
}

} // verus!
