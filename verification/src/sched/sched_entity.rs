//! Scheduling state of a task.
use vstd::prelude::*;

verus! {

/// Scheduling priority class of a task.
#[derive(Debug, Clone, Copy, PartialEq, Eq, Structural)]
pub enum SchedPrio {
    /// Real-time, with a priority level.
    RealTime(usize),
    Normal,
    IdlePrio,
}

/// The part of a task's time accounting that scheduling reads: whether the
/// task has used up its current time slice.
#[derive(Debug, Clone, Copy, PartialEq, Eq, Structural)]
pub struct TimeInfo {
    pub slice_used_up: bool,
}

impl TimeInfo {
    /// Whether the current time slice is used up.
    pub fn is_timeup(&self) -> (r: bool)
        ensures
            r == self.slice_used_up,
    {
        self.slice_used_up
    }
}

impl Default for TimeInfo {
    fn default() -> (r: TimeInfo)
        ensures
            r == (TimeInfo { slice_used_up: false }),
    {
        TimeInfo { slice_used_up: false }
    }
}

/// The CPUs a task may run on, one bit per CPU.
#[derive(Debug, Clone, Copy, PartialEq, Eq, Structural)]
pub struct CpuMask {
    pub bits: usize,
}

impl Default for CpuMask {
    fn default() -> (r: CpuMask)
        ensures
            r == (CpuMask { bits: 0 }),
    {
        CpuMask { bits: 0 }
    }
}

/// Scheduling state of a task.
#[derive(Debug, Clone, Copy, PartialEq, Eq, Structural)]
pub struct SchedEntity {
    /// Scheduling priority.
    pub sched_prio: SchedPrio,
    /// Time accounting.
    pub time_stat: TimeInfo,
    /// CPUs the task may run on.
    pub cpu_mask: CpuMask,
    /// Whether the task was asked to yield.
    pub yield_req: bool,
}

impl Default for SchedEntity {
    fn default() -> (r: SchedEntity)
        ensures
            r.sched_prio == SchedPrio::Normal,
            r.time_stat == (TimeInfo { slice_used_up: false }),
            r.cpu_mask == (CpuMask { bits: 0 }),
            !r.yield_req,
    {
        SchedEntity {
            sched_prio: SchedPrio::Normal,
            time_stat: TimeInfo::default(),
            cpu_mask: CpuMask::default(),
            yield_req: false,
        }
    }
}

impl SchedEntity {
    /// Withdraws a request to yield.
    pub fn clear_pending_yield(&mut self)
        ensures
            *final(self) == (SchedEntity { yield_req: false, ..*old(self) }),
    {
        self.yield_req = false;
    }

    /// Asks the task to yield.
    pub fn set_pending_yield(&mut self)
        ensures
            *final(self) == (SchedEntity { yield_req: true, ..*old(self) }),
    {
        self.yield_req = true;
    }

    /// Whether the task should yield: its slice is used up or it was asked to.
    pub fn need_yield(&self) -> (r: bool)
        ensures
            r == (self.time_stat.slice_used_up || self.yield_req),
    {
        self.time_stat.is_timeup() || self.yield_req
    }
}

/// What a queued task carries for its scheduler: the scheduling state of
/// its task, if it has one (a kernel task has none), and its thread ID.
#[derive(Clone, Copy, Debug, PartialEq, Eq, Structural)]
pub struct SchedMetadata {
    pub entity: Option<SchedEntity>,
    pub tid: usize,
}

impl SchedMetadata {
    /// The metadata of the task with scheduling state `entity` and thread ID `tid`.
    pub fn from_task(entity: &SchedEntity, tid: usize) -> (r: SchedMetadata)
        ensures
            r == (SchedMetadata { entity: Some(*entity), tid }),
    {
        SchedMetadata { entity: Some(*entity), tid }
    }

    /// The scheduling state of the task, if it has one.
    pub fn sched_entity(&self) -> (r: Option<SchedEntity>)
        ensures
            r == self.entity,
    {
        self.entity
    }

    /// The priority class of the task, if it has scheduling state.
    pub fn sched_prio(&self) -> (r: Option<SchedPrio>)
        ensures
            r == match self.entity {
                Some(e) => Some(e.sched_prio),
                None => None,
            },
    {
        match self.entity {
            Some(e) => Some(e.sched_prio),
            None => None,
        }
    }

    /// The thread ID.
    pub fn tid(&self) -> (r: usize)
        ensures
            r == self.tid,
    {
        self.tid
    }
}

impl Default for SchedMetadata {
    fn default() -> (r: SchedMetadata)
        ensures
            r == (SchedMetadata { entity: None, tid: 0 }),
    {
        SchedMetadata { entity: None, tid: 0 }
    }
}

} // verus!
