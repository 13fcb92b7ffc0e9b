//! Scheduling information attached to a spawned task.
use vstd::prelude::*;
use crate::sched::sched_entity::SchedEntity;

verus! {

/// Scheduling information of a spawned task.
pub struct SchedInfo {
    pub sched_entity: SchedEntity,
}

impl SchedInfo {
    /// The information of a task with scheduling state `sched_entity`; the task itself is not kept.
    pub fn new<T>(sched_entity: SchedEntity, _task: Option<&T>) -> (r: SchedInfo)
        ensures
            r.sched_entity == sched_entity,
    {
        SchedInfo { sched_entity }
    }
}

} // verus!
