//! Setup-time error taxonomy. Creation calls return these to the caller;
//! once the kernel is running, the dispatch and context-switch paths have no
//! recoverable errors (an empty ready set at dispatch is surfaced as the
//! absence of a next task, see `TaskManager::get_next_tid`).
use vstd::prelude::*;

verus! {

/// Errors reported while the kernel is being set up.
#[derive(Clone, Copy, Debug, PartialEq, Eq, Structural)]
pub enum KernelError {
    /// The task or resource table is full: the id is outside the configured
    /// capacity, or every slot is taken.
    CapacityExceeded,
    /// A task id was reused.
    DuplicateId,
}

} // verus!
