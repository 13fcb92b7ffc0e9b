//! What the executor keeps of each spawned task.
use vstd::prelude::*;
use std::sync::atomic::{AtomicUsize, Ordering};
use crate::sched::sched_entity::SchedEntity;

verus! {

/// Scheduling information of a spawned task, with the core it should run on.
pub struct TaskScheduleInfo {
    pub sched_entity: SchedEntity,
    /// The core the task should run on, changed by other cores when they
    /// take the task over.
    pub hartid: AtomicUsize,
}

impl TaskScheduleInfo {
    /// Information of a task with scheduling state `sched_entity`, to run on core `hartid`.
    pub fn new(sched_entity: SchedEntity, hartid: usize) -> (r: TaskScheduleInfo)
        ensures
            r.sched_entity == sched_entity,
    {
        TaskScheduleInfo { sched_entity, hartid: AtomicUsize::new(hartid) }
    }

    /// Moves the task to core `hartid`.
    pub fn set_hartid(&self, hartid: usize) {
        self.hartid.store(hartid, Ordering::SeqCst);
    }

    /// The core the task should run on.
    pub fn hartid(&self) -> usize {
        self.hartid.load(Ordering::SeqCst)
    }
}

} // verus!
