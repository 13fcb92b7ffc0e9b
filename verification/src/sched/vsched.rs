//! What the executor tells a scheduler when it hands it a task.
use vstd::prelude::*;

verus! {

/// Why a task is scheduled again.
#[derive(Clone, Copy, Debug, PartialEq, Eq, Structural)]
pub struct ScheduleInfo {
    /// The task was woken while it was running, that is, it yielded.
    pub woken_while_running: bool,
}

/// Which queue of a two-queue scheduler is served first.
#[derive(Clone, Copy, Debug, PartialEq, Eq, Structural)]
pub enum ScheduleOrder {
    UrgentFirst,
    NormalFirst,
}

} // verus!
