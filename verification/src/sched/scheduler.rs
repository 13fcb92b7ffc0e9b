//! Run queues: first-in first-out, two-priority, expiring and multi-level.
use vstd::prelude::*;
use std::collections::VecDeque;
use crate::sched::sched_entity::SchedPrio;
use crate::sched::vsched::ScheduleInfo;

verus! {

/// A first-in first-out run queue.
pub struct FifoScheduler<T> {
    pub queue: VecDeque<T>,
}

impl<T> FifoScheduler<T> {
    /// The queued tasks, oldest first.
    pub open spec fn view(&self) -> Seq<T> {
        self.queue@
    }

    /// An empty queue.
    pub fn new() -> (r: FifoScheduler<T>)
        ensures
            r@ == Seq::<T>::empty(),
    {
        FifoScheduler { queue: VecDeque::new() }
    }

    /// Queues a task at the back.
    pub fn push(&mut self, runnable: T, _info: ScheduleInfo)
        ensures
            final(self)@ == old(self)@.push(runnable),
    {
        self.queue.push_back(runnable);
    }

    /// Takes the oldest task.
    pub fn pop(&mut self) -> (r: Option<T>)
        ensures
            old(self)@.len() == 0 ==> r.is_none() && final(self)@ == old(self)@,
            old(self)@.len() > 0 ==> r == Some(old(self)@[0]) && final(self)@ == old(self)@.drop_first(),
    {
        self.queue.pop_front()
    }
}

/// Two queues: tasks that yielded wait behind all others.
pub struct DualPrioScheduler<T> {
    pub normal: FifoScheduler<T>,
    pub idle: FifoScheduler<T>,
}

/// The tasks that a two-priority scheduler serves, in the order it serves them.
pub open spec fn dual_order<T>(normal: Seq<T>, idle: Seq<T>) -> Seq<T> {
    normal + idle
}

/// `after` is `before` with its next task taken: the oldest normal one, or
/// the oldest idle one when no normal task waits.
pub open spec fn dual_popped<T>(before: DualPrioScheduler<T>, after: DualPrioScheduler<T>) -> bool {
    &&& before.normal@.len() > 0 ==> after.normal@ == before.normal@.drop_first() && after.idle@ == before.idle@
    &&& before.normal@.len() == 0 ==> after.normal@ == before.normal@
        && (before.idle@.len() > 0 ==> after.idle@ == before.idle@.drop_first())
        && (before.idle@.len() == 0 ==> after.idle@ == before.idle@)
}

impl<T> DualPrioScheduler<T> {
    /// The queued tasks in the order they will be served.
    pub open spec fn view(&self) -> Seq<T> {
        dual_order(self.normal@, self.idle@)
    }

    /// Two empty queues.
    pub fn new() -> (r: DualPrioScheduler<T>)
        ensures
            r.normal@ == Seq::<T>::empty(),
            r.idle@ == Seq::<T>::empty(),
    {
        DualPrioScheduler { normal: FifoScheduler::new(), idle: FifoScheduler::new() }
    }

    /// Queues a task: a task that yielded goes to the idle queue, others to the normal one.
    pub fn push(&mut self, runnable: T, info: ScheduleInfo)
        ensures
            info.woken_while_running ==> final(self).idle@ == old(self).idle@.push(runnable)
                && final(self).normal@ == old(self).normal@,
            !info.woken_while_running ==> final(self).normal@ == old(self).normal@.push(runnable)
                && final(self).idle@ == old(self).idle@,
    {
        match info.woken_while_running {
            true => self.idle.push(runnable, info),
            false => self.normal.push(runnable, info),
        }
    }

    /// Takes the oldest normal task, or the oldest idle one if no normal task waits.
    pub fn pop(&mut self) -> (r: Option<T>)
        ensures
            old(self)@.len() == 0 ==> r.is_none(),
            old(self)@.len() > 0 ==> r == Some(old(self)@[0]) && final(self)@ == old(self)@.drop_first(),
            dual_popped(*old(self), *final(self)),
    {
        let ghost n = self.normal@;
        let ghost d = self.idle@;
        if let Some(runnable) = self.normal.pop() {
            proof {
                assert((n + d).drop_first() =~= n.drop_first() + d);
            }
            return Some(runnable);
        }
        proof {
            assert(n + d =~= d);
        }
        self.idle.pop()
    }
}

/// `after` is `before` with its next task taken: from the current
/// generation, or, when it is empty, from the expired one, which becomes
/// current as the emptied generation becomes the expired one.
pub open spec fn expired_popped<T>(before: ExpiredScheduler<T>, after: ExpiredScheduler<T>) -> bool {
    &&& before.current@.len() > 0 ==> dual_popped(before.current, after.current) && after.expire == before.expire
    &&& before.current@.len() == 0 ==> after.expire.normal@ == before.current.normal@
        && after.expire.idle@ == before.current.idle@
        && dual_popped(before.expire, after.current)
}

/// Two generations of queues: new tasks wait in the expired generation until
/// the current one runs dry; then the generations swap.
pub struct ExpiredScheduler<T> {
    pub current: DualPrioScheduler<T>,
    pub expire: DualPrioScheduler<T>,
}

impl<T> ExpiredScheduler<T> {
    /// The queued tasks in the order they will be served.
    pub open spec fn view(&self) -> Seq<T> {
        self.current@ + self.expire@
    }

    fn switch_expire(&mut self)
        ensures
            final(self).current == old(self).expire,
            final(self).expire == old(self).current,
    {
        core::mem::swap(&mut self.current, &mut self.expire);
    }

    /// Both generations empty.
    pub fn new() -> (r: ExpiredScheduler<T>)
        ensures
            r@ == Seq::<T>::empty(),
            r.current@ == Seq::<T>::empty(),
            r.expire@ == Seq::<T>::empty(),
    {
        let r = ExpiredScheduler { current: DualPrioScheduler::new(), expire: DualPrioScheduler::new() };
        proof {
            assert(r.current@ =~= Seq::<T>::empty());
            assert(r.expire@ =~= Seq::<T>::empty());
            assert(r@ =~= Seq::<T>::empty());
        }
        r
    }

    /// Queues a task in the expired generation.
    pub fn push(&mut self, runnable: T, info: ScheduleInfo)
        ensures
            final(self).current == old(self).current,
            info.woken_while_running ==> final(self).expire.idle@ == old(self).expire.idle@.push(runnable)
                && final(self).expire.normal@ == old(self).expire.normal@,
            !info.woken_while_running ==> final(self).expire.normal@ == old(self).expire.normal@.push(runnable)
                && final(self).expire.idle@ == old(self).expire.idle@,
    {
        self.expire.push(runnable, info);
    }

    /// Takes the next task of the current generation; when it is empty, the
    /// generations swap first.
    pub fn pop(&mut self) -> (r: Option<T>)
        ensures
            old(self)@.len() == 0 ==> r.is_none(),
            old(self)@.len() > 0 ==> r == Some(old(self)@[0]) && final(self)@ == old(self)@.drop_first(),
            expired_popped(*old(self), *final(self)),
    {
        let ghost c = self.current@;
        let ghost e = self.expire@;
        let res = self.current.pop();
        if res.is_none() {
            proof {
                assert(c =~= Seq::<T>::empty());
                assert(c + e =~= e);
            }
            self.switch_expire();
            self.current.pop()
        } else {
            res
        }
    }
}

/// Real-time tasks first, then the rest in expiring generations.
pub struct MultiLevelScheduler<T> {
    pub realtime: FifoScheduler<T>,
    pub normal: ExpiredScheduler<T>,
}

/// Whether a task with priority class `prio` goes to the real-time queue of a
/// two-level scheduler; a task without scheduling state does.
pub open spec fn goes_realtime(prio: Option<SchedPrio>) -> bool {
    match prio {
        Some(SchedPrio::RealTime(_)) => true,
        Some(_) => false,
        None => true,
    }
}

impl<T> MultiLevelScheduler<T> {
    /// The queued tasks in the order they will be served, if nothing is pushed meanwhile.
    pub open spec fn view(&self) -> Seq<T> {
        self.realtime@ + self.normal@
    }

    /// All queues empty.
    pub fn new() -> (r: MultiLevelScheduler<T>)
        ensures
            r@ == Seq::<T>::empty(),
            r.realtime@ == Seq::<T>::empty(),
            r.normal@ == Seq::<T>::empty(),
    {
        let r = MultiLevelScheduler { realtime: FifoScheduler::new(), normal: ExpiredScheduler::new() };
        proof {
            assert(r@ =~= Seq::<T>::empty());
        }
        r
    }

    /// Queues a task by the priority class `prio` of its scheduling state.
    pub fn push(&mut self, runnable: T, prio: Option<SchedPrio>, info: ScheduleInfo)
        ensures
            goes_realtime(prio) ==> final(self).realtime@ == old(self).realtime@.push(runnable)
                && final(self).normal == old(self).normal,
            !goes_realtime(prio) ==> final(self).realtime@ == old(self).realtime@
                && final(self).normal.current == old(self).normal.current
                && (info.woken_while_running ==> final(self).normal.expire.idle@ == old(self).normal.expire.idle@.push(runnable)
                    && final(self).normal.expire.normal@ == old(self).normal.expire.normal@)
                && (!info.woken_while_running ==> final(self).normal.expire.normal@ == old(self).normal.expire.normal@.push(runnable)
                    && final(self).normal.expire.idle@ == old(self).normal.expire.idle@),
    {
        match prio {
            Some(SchedPrio::RealTime(_)) => self.realtime.push(runnable, info),
            Some(_) => self.normal.push(runnable, info),
            None => self.realtime.push(runnable, info),
        }
    }

    /// Takes the oldest real-time task, or else the next task of the other levels.
    pub fn pop(&mut self) -> (r: Option<T>)
        ensures
            old(self)@.len() == 0 ==> r.is_none(),
            old(self)@.len() > 0 ==> r == Some(old(self)@[0]) && final(self)@ == old(self)@.drop_first(),
            old(self).realtime@.len() > 0 ==> final(self).realtime@ == old(self).realtime@.drop_first()
                && final(self).normal == old(self).normal,
            old(self).realtime@.len() == 0 ==> final(self).realtime@ == old(self).realtime@
                && expired_popped(old(self).normal, final(self).normal),
    {
        let ghost rt = self.realtime@;
        let ghost nm = self.normal@;
        if let Some(runnable) = self.realtime.pop() {
            return Some(runnable);
        }
        proof {
            assert(rt + nm =~= nm);
        }
        self.normal.pop()
    }
}

/// A queued real-time task is always served before any other task.
pub proof fn law_realtime_first<T>(s: MultiLevelScheduler<T>)
    requires
        s.realtime@.len() > 0,
    ensures
        s@[0] == s.realtime@[0],
{
}

} // verus!
