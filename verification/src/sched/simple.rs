//! A simpler family of run queues: urgent-first, and three levels over
//! expiring first-in first-out generations.
use vstd::prelude::*;
use std::collections::VecDeque;
use crate::sched::sched_entity::SchedPrio;
use crate::sched::scheduler::FifoScheduler;
use crate::sched::vsched::ScheduleInfo;

verus! {

/// Two queues: newly woken tasks are urgent; tasks that yielded are normal.
pub struct SimpleScheduler<T> {
    pub urgent: VecDeque<T>,
    pub normal: VecDeque<T>,
}

impl<T> SimpleScheduler<T> {
    /// The queued tasks in the order they will be served.
    pub open spec fn view(&self) -> Seq<T> {
        self.urgent@ + self.normal@
    }

    /// Both queues empty.
    pub fn new() -> (r: SimpleScheduler<T>)
        ensures
            r.urgent@ == Seq::<T>::empty(),
            r.normal@ == Seq::<T>::empty(),
    {
        SimpleScheduler { urgent: VecDeque::new(), normal: VecDeque::new() }
    }

    fn push_normal(&mut self, runnable: T)
        ensures
            final(self).normal@ == old(self).normal@.push(runnable),
            final(self).urgent@ == old(self).urgent@,
    {
        self.normal.push_back(runnable);
    }

    fn push_urgent(&mut self, runnable: T)
        ensures
            final(self).urgent@ == old(self).urgent@.push(runnable),
            final(self).normal@ == old(self).normal@,
    {
        self.urgent.push_back(runnable);
    }

    /// Queues a task: one that yielded is normal, others are urgent.
    pub fn push(&mut self, runnable: T, info: ScheduleInfo)
        ensures
            info.woken_while_running ==> final(self).normal@ == old(self).normal@.push(runnable)
                && final(self).urgent@ == old(self).urgent@,
            !info.woken_while_running ==> final(self).urgent@ == old(self).urgent@.push(runnable)
                && final(self).normal@ == old(self).normal@,
    {
        match info.woken_while_running {
            true => self.push_normal(runnable),
            false => self.push_urgent(runnable),
        }
    }

    /// Takes the oldest urgent task, or the oldest normal one.
    pub fn pop(&mut self) -> (r: Option<T>)
        ensures
            old(self)@.len() == 0 ==> r.is_none(),
            old(self)@.len() > 0 ==> r == Some(old(self)@[0]) && final(self)@ == old(self)@.drop_first(),
            old(self).urgent@.len() > 0 ==> r == Some(old(self).urgent@[0])
                && final(self).urgent@ == old(self).urgent@.drop_first() && final(self).normal@ == old(self).normal@,
            old(self).urgent@.len() == 0 ==> final(self).urgent@ == old(self).urgent@
                && (old(self).normal@.len() > 0 ==> r == Some(old(self).normal@[0])
                    && final(self).normal@ == old(self).normal@.drop_first())
                && (old(self).normal@.len() == 0 ==> r.is_none() && final(self).normal@ == old(self).normal@),
    {
        let ghost u = self.urgent@;
        let ghost n = self.normal@;
        if let Some(runnable) = self.urgent.pop_front() {
            proof {
                assert((u + n).drop_first() =~= u.drop_first() + n);
            }
            return Some(runnable);
        }
        proof {
            assert(u + n =~= n);
        }
        if let Some(runnable) = self.normal.pop_front() {
            proof {
                assert(self@ =~= n.drop_first());
            }
            return Some(runnable);
        }
        None
    }
}

/// `after` is `before` with its next task taken: from the current
/// generation, or, when it is empty, from the expired one, which becomes
/// current as the emptied generation becomes the expired one.
pub open spec fn generation_popped<T>(before: ExpiredScheduler<T>, after: ExpiredScheduler<T>) -> bool {
    &&& before.current@.len() > 0 ==> after.current@ == before.current@.drop_first() && after.expire == before.expire
    &&& before.current@.len() == 0 ==> after.expire@ == before.current@
        && (before.expire@.len() > 0 ==> after.current@ == before.expire@.drop_first())
        && (before.expire@.len() == 0 ==> after.current@ == before.expire@)
}

/// Two first-in first-out generations: new tasks wait in the expired one
/// until the current one runs dry; then they swap.
pub struct ExpiredScheduler<T> {
    pub current: FifoScheduler<T>,
    pub expire: FifoScheduler<T>,
}

impl<T> ExpiredScheduler<T> {
    /// The queued tasks in the order they will be served.
    pub open spec fn view(&self) -> Seq<T> {
        self.current@ + self.expire@
    }

    fn switch_expire(&mut self)
        ensures
            final(self).current == old(self).expire,
            final(self).expire == old(self).current,
    {
        core::mem::swap(&mut self.current, &mut self.expire);
    }

    /// Both generations empty.
    pub fn new() -> (r: ExpiredScheduler<T>)
        ensures
            r@ == Seq::<T>::empty(),
            r.current@ == Seq::<T>::empty(),
            r.expire@ == Seq::<T>::empty(),
    {
        let r = ExpiredScheduler { current: FifoScheduler::new(), expire: FifoScheduler::new() };
        proof {
            assert(r@ =~= Seq::<T>::empty());
        }
        r
    }

    /// Queues a task in the expired generation.
    pub fn push(&mut self, runnable: T, info: ScheduleInfo)
        ensures
            final(self).current == old(self).current,
            final(self).expire@ == old(self).expire@.push(runnable),
    {
        self.expire.push(runnable, info);
    }

    /// Takes the oldest task of the current generation; when it is empty, the
    /// generations swap first.
    pub fn pop(&mut self) -> (r: Option<T>)
        ensures
            old(self)@.len() == 0 ==> r.is_none(),
            old(self)@.len() > 0 ==> r == Some(old(self)@[0]) && final(self)@ == old(self)@.drop_first(),
            generation_popped(*old(self), *final(self)),
    {
        let ghost c = self.current@;
        let ghost e = self.expire@;
        let res = self.current.pop();
        if res.is_none() {
            proof {
                assert(c + e =~= e);
            }
            self.switch_expire();
            self.current.pop()
        } else {
            res
        }
    }
}

/// Three levels: real-time, normal and idle tasks.
pub struct MultiLevelScheduler<T> {
    pub realtime: FifoScheduler<T>,
    pub normal: ExpiredScheduler<T>,
    pub idle: ExpiredScheduler<T>,
}

impl<T> MultiLevelScheduler<T> {
    /// The queued tasks in the order they will be served, if nothing is pushed meanwhile.
    pub open spec fn view(&self) -> Seq<T> {
        self.realtime@ + self.normal@ + self.idle@
    }

    /// All levels empty.
    pub fn new() -> (r: MultiLevelScheduler<T>)
        ensures
            r@ == Seq::<T>::empty(),
    {
        let r = MultiLevelScheduler {
            realtime: FifoScheduler::new(),
            normal: ExpiredScheduler::new(),
            idle: ExpiredScheduler::new(),
        };
        proof {
            assert(r@ =~= Seq::<T>::empty());
        }
        r
    }

    /// Queues a task by the priority class `prio` of its scheduling state; a
    /// task without scheduling state is normal.
    pub fn push(&mut self, runnable: T, prio: Option<SchedPrio>, info: ScheduleInfo)
        ensures
            prio matches Some(SchedPrio::RealTime(_)) ==> final(self).realtime@ == old(self).realtime@.push(runnable)
                && final(self).normal == old(self).normal && final(self).idle == old(self).idle,
            (prio == Some(SchedPrio::Normal) || prio.is_none()) ==> final(self).normal.expire@ == old(self).normal.expire@.push(runnable)
                && final(self).normal.current == old(self).normal.current
                && final(self).realtime@ == old(self).realtime@ && final(self).idle == old(self).idle,
            prio == Some(SchedPrio::IdlePrio) ==> final(self).idle.expire@ == old(self).idle.expire@.push(runnable)
                && final(self).idle.current == old(self).idle.current
                && final(self).realtime@ == old(self).realtime@ && final(self).normal == old(self).normal,
    {
        match prio {
            Some(SchedPrio::RealTime(_)) => self.realtime.push(runnable, info),
            Some(SchedPrio::Normal) => self.normal.push(runnable, info),
            Some(SchedPrio::IdlePrio) => self.idle.push(runnable, info),
            None => self.normal.push(runnable, info),
        }
    }

    /// Takes a real-time task, else a normal one, else an idle one.
    pub fn pop(&mut self) -> (r: Option<T>)
        ensures
            old(self)@.len() == 0 ==> r.is_none(),
            old(self)@.len() > 0 ==> r == Some(old(self)@[0]) && final(self)@ == old(self)@.drop_first(),
            old(self).realtime@.len() > 0 ==> final(self).realtime@ == old(self).realtime@.drop_first()
                && final(self).normal == old(self).normal && final(self).idle == old(self).idle,
            old(self).realtime@.len() == 0 ==> final(self).realtime@ == old(self).realtime@
                && generation_popped(old(self).normal, final(self).normal),
            old(self).realtime@.len() == 0 && old(self).normal@.len() > 0 ==> final(self).idle == old(self).idle,
            old(self).realtime@.len() == 0 && old(self).normal@.len() == 0 ==> generation_popped(old(self).idle, final(self).idle),
    {
        let ghost rt = self.realtime@;
        let ghost nm = self.normal@;
        let ghost id = self.idle@;
        if let Some(runnable) = self.realtime.pop() {
            proof {
                assert((rt + nm + id)[0] == rt[0]);
            }
            return Some(runnable);
        }
        proof {
            assert(rt + nm + id =~= nm + id);
        }
        if let Some(runnable) = self.normal.pop() {
            return Some(runnable);
        }
        proof {
            assert(nm.len() == 0);
            assert(nm + id =~= id);
        }
        self.idle.pop()
    }
}

/// Idle tasks run only when no real-time or normal task waits.
pub proof fn law_idle_last<T>(s: MultiLevelScheduler<T>)
    requires
        s.realtime@.len() + s.normal@.len() > 0,
    ensures
        s.realtime@.len() > 0 ==> s@[0] == s.realtime@[0],
        s.realtime@.len() == 0 ==> s@[0] == s.normal@[0],
{
    assert((s.realtime@ + s.normal@ + s.idle@)[0] == (s.realtime@ + s.normal@)[0]);
}

} // verus!
