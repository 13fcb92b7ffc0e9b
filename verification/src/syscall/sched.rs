//! Scheduling system calls: policies and nice values.
use vstd::prelude::*;
use crate::errno::{Errno, SyscallResult};
use crate::syscall::syscall::Syscall;
use crate::task::{may_act_on, Task};

verus! {

/// The normal time-sharing scheduling policy.
pub const SCHED_OTHER: isize = 0;

/// `which` of `getpriority` for one process.
pub const PRIO_PROCESS: usize = 0;

/// `which` of `getpriority` for a process group.
pub const PRIO_PGRP: usize = 1;

/// `which` of `getpriority` for the processes of a user.
pub const PRIO_USER: usize = 2;

/// Whether `t` is among the tasks that `getpriority(which, who)` asks
/// `me` about, for a process group or a user.
pub open spec fn prio_target(which: usize, who: usize, me: Task, t: Task) -> bool {
    if which == PRIO_PGRP {
        t.pgid == if who == 0 { me.pgid } else { who }
    } else {
        t.user_id.uid == if who == 0 { me.user_id.uid } else { who as u32 }
    }
}

/// The least nice value among the tasks of `s` that `getpriority(which, who)`
/// asks `me` about; `i32::MAX` if there is none.
pub open spec fn least_nice(s: Seq<Task>, which: usize, who: usize, me: Task) -> i32
    decreases s.len(),
{
    if s.len() == 0 {
        i32::MAX
    } else {
        let m = least_nice(s.drop_last(), which, who, me);
        if prio_target(which, who, me, s.last()) && s.last().nice < m {
            s.last().nice
        } else {
            m
        }
    }
}

/// What `getpriority` answers for least nice value `m`: `ESRCH` when no task
/// was found, else the nice value moved to the range from 0 up.
pub open spec fn priority_answer(m: i32) -> SyscallResult {
    if m == i32::MAX {
        Err(Errno::ESRCH)
    } else {
        Ok((m + 20) as isize)
    }
}

impl Syscall {
    /// Sets the scheduling policy; accepted and changes nothing.
    pub fn sys_sched_setscheduler(&self, pid: usize, policy: isize, param: usize) -> (r: SyscallResult)
        ensures
            r == Ok::<isize, Errno>(0),
    {
        Ok(0)
    }

    /// The scheduling policy of a task: always `SCHED_OTHER`.
    pub fn sys_sched_getscheduler(&self, pid: usize) -> (r: SyscallResult)
        ensures
            r == Ok::<isize, Errno>(SCHED_OTHER),
    {
        Ok(SCHED_OTHER)
    }

    /// The least nice value, plus 20, of the calling task (`which` 0, `who`
    /// 0), of thread `who` (`which` 0), of the tasks of a process group
    /// (`which` 1) or of a user (`which` 2), `who` 0 meaning the caller's own.
    /// `EINVAL` for another `which`; `EPERM` if the caller may not act on
    /// one of those tasks; `ESRCH` if there is none.
    pub fn sys_getpriority(&self, which: usize, who: usize) -> (r: SyscallResult)
        requires
            self.wf(),
        ensures
            which > 2 ==> r == Err::<isize, Errno>(Errno::EINVAL),
            which == PRIO_PROCESS && who == 0 ==> r == if may_act_on(self.task().user_id, self.task().user_id) {
                priority_answer(self.task().nice)
            } else {
                Err(Errno::EPERM)
            },
            which == PRIO_PROCESS && who != 0 ==> {
                &&& (forall|j: int| 0 <= j < self.tasks@.len() ==> (#[trigger] self.tasks@[j]).tid != who)
                    ==> r == Err::<isize, Errno>(Errno::ESRCH)
                &&& forall|k: int| 0 <= k < self.tasks@.len() && (#[trigger] self.tasks@[k]).tid == who
                    && (forall|j: int| 0 <= j < k ==> (#[trigger] self.tasks@[j]).tid != who)
                    ==> r == if may_act_on(self.task().user_id, self.tasks@[k].user_id) {
                        priority_answer(self.tasks@[k].nice)
                    } else {
                        Err(Errno::EPERM)
                    }
            },
            which == PRIO_PGRP || which == PRIO_USER ==> {
                let me = self.task();
                let denied = exists|j: int| 0 <= j < self.tasks@.len() && prio_target(which, who, me, #[trigger] self.tasks@[j])
                    && !may_act_on(me.user_id, self.tasks@[j].user_id);
                &&& denied ==> r == Err::<isize, Errno>(Errno::EPERM)
                &&& !denied ==> r == priority_answer(least_nice(self.tasks@, which, who, me))
            },
    {
        if which > 2 {
            return Err(Errno::EINVAL);
        }
        let c = self.current;
        if which == PRIO_PROCESS {
            let k = if who == 0 {
                c
            } else {
                match self.find_task(who) {
                    Some(k) => k,
                    None => return Err(Errno::ESRCH),
                }
            };
            if !self.tasks[c].check_user_permission(&self.tasks[k]) {
                return Err(Errno::EPERM);
            }
            let nice = self.tasks[k].nice;
            if nice == i32::MAX {
                return Err(Errno::ESRCH);
            }
            return Ok((nice as i64 + 20) as isize);
        }
        let ghost me = self.task();
        let len = self.tasks.len();
        let mut res: i32 = i32::MAX;
        let mut i: usize = 0;
        while i < len
            invariant
                self.wf(),
                me == self.task(),
                c == self.current,
                which == PRIO_PGRP || which == PRIO_USER,
                len == self.tasks@.len(),
                i <= len,
                res == least_nice(self.tasks@.take(i as int), which, who, me),
                forall|j: int| 0 <= j < i && prio_target(which, who, me, #[trigger] self.tasks@[j])
                    ==> may_act_on(me.user_id, self.tasks@[j].user_id),
            decreases len - i,
        {
            let t = &self.tasks[i];
            let hit = if which == PRIO_PGRP {
                t.pgid == if who == 0 { self.tasks[c].pgid } else { who }
            } else {
                t.user_id.uid == if who == 0 { self.tasks[c].user_id.uid } else { who as u32 }
            };
            proof {
                assert(hit == prio_target(which, who, me, self.tasks@[i as int]));
                assert(self.tasks@.take(i as int + 1).drop_last() =~= self.tasks@.take(i as int));
                assert(self.tasks@.take(i as int + 1).last() == self.tasks@[i as int]);
            }
            if hit {
                if !self.tasks[c].check_user_permission(t) {
                    return Err(Errno::EPERM);
                }
                if t.nice < res {
                    res = t.nice;
                }
            }
            i = i + 1;
        }
        proof {
            assert(self.tasks@.take(len as int) =~= self.tasks@);
        }
        if res == i32::MAX {
            Err(Errno::ESRCH)
        } else {
            Ok((res as i64 + 20) as isize)
        }
    }
}

/// The nice value that `getpriority` reports for a process group or a user is
/// the least among the tasks it asks about: no such task has a smaller one,
/// one of them has exactly it, and with none of them it is `i32::MAX`.
pub proof fn law_least_nice_is_minimum(s: Seq<Task>, which: usize, who: usize, me: Task)
    ensures
        forall|j: int| 0 <= j < s.len() && prio_target(which, who, me, #[trigger] s[j])
            ==> least_nice(s, which, who, me) <= s[j].nice,
        (exists|j: int| 0 <= j < s.len() && prio_target(which, who, me, #[trigger] s[j]))
            ==> exists|j: int| 0 <= j < s.len() && prio_target(which, who, me, #[trigger] s[j])
                && s[j].nice == least_nice(s, which, who, me),
        !(exists|j: int| 0 <= j < s.len() && prio_target(which, who, me, #[trigger] s[j]))
            ==> least_nice(s, which, who, me) == i32::MAX,
    decreases s.len(),
{
    if s.len() > 0 {
        let t = s.drop_last();
        law_least_nice_is_minimum(t, which, who, me);
        assert forall|j: int| 0 <= j < s.len() && prio_target(which, who, me, #[trigger] s[j])
            implies least_nice(s, which, who, me) <= s[j].nice by {
            if j < s.len() - 1 {
                assert(t[j] == s[j]);
            }
        }
        if exists|j: int| 0 <= j < s.len() && prio_target(which, who, me, #[trigger] s[j]) {
            let m = least_nice(t, which, who, me);
            if prio_target(which, who, me, s.last()) && s.last().nice < m {
                assert(prio_target(which, who, me, s[s.len() - 1]));
            } else if exists|j: int| 0 <= j < t.len() && prio_target(which, who, me, #[trigger] t[j]) {
                let j = choose|j: int| 0 <= j < t.len() && prio_target(which, who, me, #[trigger] t[j]) && t[j].nice == m;
                assert(s[j] == t[j]);
            } else {
                assert(prio_target(which, who, me, s[s.len() - 1])) by {
                    let j = choose|j: int| 0 <= j < s.len() && prio_target(which, who, me, #[trigger] s[j]);
                    if j < s.len() - 1 {
                        assert(t[j] == s[j]);
                    }
                }
                assert(s.last().nice <= i32::MAX);
            }
        } else {
            assert forall|j: int| 0 <= j < t.len() implies !prio_target(which, who, me, #[trigger] t[j]) by {
                assert(t[j] == s[j]);
            }
            assert(!prio_target(which, who, me, s[s.len() - 1]));
        }
    }
}

/// What `getpriority` answers for a process group or a user, read as the
/// least nice value plus 20: `Ok(v)` only when some task it asks about has
/// nice value `v - 20` and none has less (for nice values whose sum with 20
/// fits in an `isize`); `ESRCH` when it asks about no task.
pub proof fn law_getpriority_answer(s: Seq<Task>, which: usize, who: usize, me: Task)
    ensures
        least_nice(s, which, who, me) + 20 <= isize::MAX ==> (priority_answer(least_nice(s, which, who, me)) matches Ok(v) ==> {
            &&& exists|j: int| 0 <= j < s.len() && prio_target(which, who, me, #[trigger] s[j]) && s[j].nice == v - 20
            &&& forall|j: int| 0 <= j < s.len() && prio_target(which, who, me, #[trigger] s[j]) ==> v - 20 <= s[j].nice
        }),
        !(exists|j: int| 0 <= j < s.len() && prio_target(which, who, me, #[trigger] s[j]))
            ==> priority_answer(least_nice(s, which, who, me)) == Err::<isize, Errno>(Errno::ESRCH),
{
    law_least_nice_is_minimum(s, which, who, me);
    let m = least_nice(s, which, who, me);
    if m != i32::MAX && m + 20 <= isize::MAX {
        assert(((m + 20) as isize) - 20 == m);
        if !(exists|j: int| 0 <= j < s.len() && prio_target(which, who, me, #[trigger] s[j])) {
            assert(m == i32::MAX);
        }
    }
}

} // verus!
