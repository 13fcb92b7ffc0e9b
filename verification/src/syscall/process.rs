//! Process system calls: exit, IDs, process groups, robust lists, thread
//! signals and credentials.
use vstd::prelude::*;
use crate::errno::{Errno, SyscallResult};
use crate::signal::sig_detail::{SigDetail, SigKillDetail};
use crate::signal::sig_info::{SigCode, SigInfo};
use crate::signal::signal::Signal;
use crate::syscall::signal::{first_where, lemma_first_where_unique, some_where, with_tid};
use crate::syscall::syscall::Syscall;
use crate::task::{RobustList, Task, UserId, ROBUST_LIST_HEAD_SIZE};

verus! {

/// The task with exit code `code` recorded.
pub open spec fn exited(t: Task, code: i32) -> Task {
    Task { exit_code: Some(code), ..t }
}

/// Task `t` after `setpgid` with group `pgid`: a group of its own, named
/// by its process ID, for zero.
pub open spec fn in_group(t: Task, pgid: usize) -> Task {
    Task { pgid: if pgid == 0 { t.tgid } else { pgid }, ..t }
}

/// What `getpgid(pid)` answers on the tasks of `s`: the group of the calling
/// task for zero, else that of the first task with thread ID `pid`, `ESRCH`
/// if there is none.
pub open spec fn getpgid_outcome(s: Syscall, pid: usize, r: SyscallResult) -> bool {
    &&& pid == 0 ==> r == Ok::<isize, Errno>(s.task().pgid as isize)
    &&& pid != 0 && !some_where(s.tasks@, with_tid(pid)) ==> r == Err::<isize, Errno>(Errno::ESRCH)
    &&& pid != 0 ==> forall|k: int| #[trigger] first_where(s.tasks@, with_tid(pid), k)
        ==> r == Ok::<isize, Errno>(s.tasks@[k].pgid as isize)
}

/// What `setpgid(pid, pgid)` answers and does to the tasks of `before`,
/// giving `after`: `EINVAL` for a negative group; else the calling task (for
/// zero) or the first task with thread ID `pid` moves to the group and the
/// call succeeds; `ESRCH` if there is no such task. Nothing changes on error.
pub open spec fn setpgid_outcome(before: Syscall, after: Syscall, pid: usize, pgid: usize, r: SyscallResult) -> bool {
    &&& after.current == before.current
    &&& (pgid as isize) < 0 ==> r == Err::<isize, Errno>(Errno::EINVAL) && after.tasks@ == before.tasks@
    &&& (pgid as isize) >= 0 && pid == 0 ==> r == Ok::<isize, Errno>(0)
        && after.tasks@ == before.tasks@.update(before.current as int, in_group(before.task(), pgid))
    &&& (pgid as isize) >= 0 && pid != 0 && !some_where(before.tasks@, with_tid(pid))
        ==> r == Err::<isize, Errno>(Errno::ESRCH) && after.tasks@ == before.tasks@
    &&& (pgid as isize) >= 0 && pid != 0 ==> forall|k: int| #[trigger] first_where(before.tasks@, with_tid(pid), k)
        ==> r == Ok::<isize, Errno>(0) && after.tasks@ == before.tasks@.update(k, in_group(before.tasks@[k], pgid))
}

impl Syscall {
    /// Ends the calling task with exit code `exit_code`.
    pub fn sys_exit(&mut self, exit_code: i32) -> (r: SyscallResult)
        requires
            old(self).wf(),
        ensures
            final(self).wf(),
            r == Ok::<isize, Errno>(0),
            final(self).current_becomes(*old(self), exited(old(self).task(), exit_code)),
    {
        let c = self.current;
        self.tasks[c].exit_code = Some(exit_code);
        proof {
            assert forall|i: int| 0 <= i < self.tasks@.len() implies (#[trigger] self.tasks@[i]).wf() by {
                if i != c {
                    assert(self.tasks@[i] == old(self).tasks@[i]);
                }
            }
        }
        Ok(0)
    }

    /// Ends every task of the calling task's thread group with exit code `exit_code`.
    pub fn sys_exit_group(&mut self, exit_code: i32) -> (r: SyscallResult)
        requires
            old(self).wf(),
        ensures
            final(self).wf(),
            r == Ok::<isize, Errno>(0),
            final(self).current == old(self).current,
            final(self).tasks@.len() == old(self).tasks@.len(),
            forall|j: int| 0 <= j < old(self).tasks@.len() ==> #[trigger] final(self).tasks@[j]
                == if old(self).tasks@[j].tgid == old(self).task().tgid { exited(old(self).tasks@[j], exit_code) } else { old(self).tasks@[j] },
    {
        let tgid = self.tasks[self.current].tgid;
        let len = self.tasks.len();
        let mut i: usize = 0;
        while i < len
            invariant
                i <= len,
                len == self.tasks@.len(),
                len == old(self).tasks@.len(),
                self.current == old(self).current,
                tgid == old(self).task().tgid,
                old(self).wf(),
                forall|j: int| 0 <= j < i ==> #[trigger] self.tasks@[j]
                    == if old(self).tasks@[j].tgid == tgid { exited(old(self).tasks@[j], exit_code) } else { old(self).tasks@[j] },
                forall|j: int| i <= j < len ==> #[trigger] self.tasks@[j] == old(self).tasks@[j],
            decreases len - i,
        {
            if self.tasks[i].tgid == tgid {
                self.tasks[i].exit_code = Some(exit_code);
            }
            i = i + 1;
        }
        proof {
            assert forall|j: int| 0 <= j < self.tasks@.len() implies (#[trigger] self.tasks@[j]).wf() by {
                assert(old(self).tasks@[j].wf());
            }
        }
        Ok(0)
    }

    /// The thread ID of the calling task.
    pub fn sys_gettid(&self) -> (r: SyscallResult)
        requires
            self.wf(),
        ensures
            r == Ok::<isize, Errno>(self.task().tid as isize),
    {
        Ok(self.tasks[self.current].tid as isize)
    }

    /// The process ID of the calling task, that of its thread group.
    pub fn sys_getpid(&self) -> (r: SyscallResult)
        requires
            self.wf(),
        ensures
            r == Ok::<isize, Errno>(self.task().tgid as isize),
    {
        Ok(self.tasks[self.current].tgid as isize)
    }

    /// The thread ID of the parent of the calling task; `ESRCH` if it has none.
    pub fn sys_getppid(&self) -> (r: SyscallResult)
        requires
            self.wf(),
        ensures
            self.task().parent matches Some(p) ==> r == Ok::<isize, Errno>(p as isize),
            self.task().parent.is_none() ==> r == Err::<isize, Errno>(Errno::ESRCH),
    {
        match self.tasks[self.current].parent {
            None => Err(Errno::ESRCH),
            Some(parent) => Ok(parent as isize),
        }
    }

    /// Records where to clear the thread ID when the task exits; returns the thread ID.
    pub fn sys_set_tid_address(&mut self, tidptr: usize) -> (r: SyscallResult)
        requires
            old(self).wf(),
        ensures
            final(self).wf(),
            r == Ok::<isize, Errno>(old(self).task().tid as isize),
            final(self).current_becomes(*old(self), Task { clear_child_tid: Some(tidptr), ..old(self).task() }),
    {
        let c = self.current;
        self.tasks[c].clear_child_tid = Some(tidptr);
        proof {
            assert forall|i: int| 0 <= i < self.tasks@.len() implies (#[trigger] self.tasks@[i]).wf() by {
                if i != c {
                    assert(self.tasks@[i] == old(self).tasks@[i]);
                }
            }
        }
        Ok(self.tasks[c].tid as isize)
    }

    /// The process group of task `pid`, or of the calling task if `pid` is zero;
    /// `ESRCH` if there is no such task.
    pub fn sys_getpgid(&self, pid: usize) -> (r: SyscallResult)
        requires
            self.wf(),
        ensures
            getpgid_outcome(*self, pid, r),
    {
        let target = if pid == 0 {
            self.current
        } else {
            match self.find_task(pid) {
                Some(i) => {
                    proof {
                        assert(first_where(self.tasks@, with_tid(pid), i as int));
                        assert forall|k: int| first_where(self.tasks@, with_tid(pid), k) implies k == i by {
                            lemma_first_where_unique(self.tasks@, with_tid(pid), k, i as int);
                        }
                    }
                    i
                },
                None => {
                    proof {
                        assert forall|j: int| 0 <= j < self.tasks@.len() implies !with_tid(pid)(#[trigger] self.tasks@[j]) by {}
                    }
                    return Err(Errno::ESRCH);
                },
            }
        };
        Ok(self.tasks[target].pgid as isize)
    }

    /// Moves task `pid` (the calling task if zero) to process group `pgid`, or
    /// to a new group of its own if `pgid` is zero. `EINVAL` for a negative
    /// group, `ESRCH` if there is no such task.
    pub fn sys_setpgid(&mut self, pid: usize, pgid: usize) -> (r: SyscallResult)
        requires
            old(self).wf(),
        ensures
            final(self).wf(),
            setpgid_outcome(*old(self), *final(self), pid, pgid, r),
    {
        if (pgid as isize) < 0 {
            return Err(Errno::EINVAL);
        }
        let target = if pid == 0 {
            self.current
        } else {
            match self.find_task(pid) {
                Some(i) => {
                    proof {
                        assert(first_where(self.tasks@, with_tid(pid), i as int));
                        assert forall|k: int| first_where(self.tasks@, with_tid(pid), k) implies k == i by {
                            lemma_first_where_unique(self.tasks@, with_tid(pid), k, i as int);
                        }
                    }
                    i
                },
                None => {
                    proof {
                        assert forall|j: int| 0 <= j < self.tasks@.len() implies !with_tid(pid)(#[trigger] self.tasks@[j]) by {}
                    }
                    return Err(Errno::ESRCH);
                },
            }
        };
        if pgid == 0 {
            let own = self.tasks[target].tgid;
            self.tasks[target].pgid = own;
        } else {
            self.tasks[target].pgid = pgid;
        }
        proof {
            assert(self.tasks@ =~= old(self).tasks@.update(target as int, in_group(old(self).tasks@[target as int], pgid)));
            assert forall|i: int| 0 <= i < self.tasks@.len() implies (#[trigger] self.tasks@[i]).wf() by {
                assert(old(self).tasks@[i].wf());
            }
        }
        Ok(0)
    }

    /// Records the robust futex list of the calling task; `EINVAL` if `len`
    /// is not the size of a list head.
    pub fn sys_set_robust_list(&mut self, head: usize, len: usize) -> (r: SyscallResult)
        requires
            old(self).wf(),
        ensures
            final(self).wf(),
            len != ROBUST_LIST_HEAD_SIZE ==> r == Err::<isize, Errno>(Errno::EINVAL) && final(self).tasks@ == old(self).tasks@
                && final(self).current == old(self).current,
            len == ROBUST_LIST_HEAD_SIZE ==> r == Ok::<isize, Errno>(0)
                && final(self).current_becomes(*old(self), Task { robust_list: RobustList { head, len }, ..old(self).task() }),
    {
        if len != ROBUST_LIST_HEAD_SIZE {
            return Err(Errno::EINVAL);
        }
        let c = self.current;
        self.tasks[c].robust_list = RobustList { head, len };
        proof {
            assert forall|i: int| 0 <= i < self.tasks@.len() implies (#[trigger] self.tasks@[i]).wf() by {
                assert(old(self).tasks@[i].wf());
            }
        }
        Ok(0)
    }

    /// Returns the process ID of the calling task; no new session is made.
    pub fn sys_setsid(&self) -> (r: SyscallResult)
        requires
            self.wf(),
        ensures
            r == Ok::<isize, Errno>(self.task().tgid as isize),
    {
        Ok(self.tasks[self.current].tgid as isize)
    }

    /// The real user ID of the calling task.
    pub fn sys_getuid(&self) -> (r: SyscallResult)
        requires
            self.wf(),
        ensures
            r == Ok::<isize, Errno>(self.task().user_id.uid as isize),
    {
        Ok(self.tasks[self.current].user_id.uid as isize)
    }

    /// The effective user ID of the calling task.
    pub fn sys_geteuid(&self) -> (r: SyscallResult)
        requires
            self.wf(),
        ensures
            r == Ok::<isize, Errno>(self.task().user_id.euid as isize),
    {
        Ok(self.tasks[self.current].user_id.euid as isize)
    }

    /// The real group ID of the calling task.
    pub fn sys_getgid(&self) -> (r: SyscallResult)
        requires
            self.wf(),
        ensures
            r == Ok::<isize, Errno>(self.task().user_id.gid as isize),
    {
        Ok(self.tasks[self.current].user_id.gid as isize)
    }

    /// The effective group ID of the calling task.
    pub fn sys_getegid(&self) -> (r: SyscallResult)
        requires
            self.wf(),
        ensures
            r == Ok::<isize, Errno>(self.task().user_id.egid as isize),
    {
        Ok(self.tasks[self.current].user_id.egid as isize)
    }
}

impl Syscall {
    /// The head and length of the robust futex list of thread `pid`, or of
    /// the calling task when `pid` is zero, which `get_robust_list` writes to
    /// user space; `ESRCH` if there is no such thread.
    pub fn sys_get_robust_list(&self, pid: usize) -> (r: Result<RobustList, Errno>)
        requires
            self.wf(),
        ensures
            pid == 0 ==> r == Ok::<RobustList, Errno>(self.task().robust_list),
            pid != 0 && (forall|j: int| 0 <= j < self.tasks@.len() ==> (#[trigger] self.tasks@[j]).tid != pid)
                ==> r == Err::<RobustList, Errno>(Errno::ESRCH),
            pid != 0 ==> forall|k: int| 0 <= k < self.tasks@.len() && (#[trigger] self.tasks@[k]).tid == pid
                && (forall|j: int| 0 <= j < k ==> (#[trigger] self.tasks@[j]).tid != pid)
                ==> r == Ok::<RobustList, Errno>(self.tasks@[k].robust_list),
    {
        if pid == 0 {
            return Ok(self.tasks[self.current].robust_list);
        }
        match self.find_task(pid) {
            Some(k) => Ok(self.tasks[k].robust_list),
            None => Err(Errno::ESRCH),
        }
    }
}

/// Which children `wait4` waits for.
#[derive(Clone, Copy, Debug, PartialEq, Eq, Structural)]
pub enum PidSel {
    /// A child with this thread ID, or any child.
    Task(Option<usize>),
    /// A child of this process group, or of the caller's own.
    Group(Option<usize>),
}

/// Which children `wait4(pid, ..)` waits for: -1 any child, 0 the caller's
/// group, a positive `pid` that child; any other negative `pid` is taken, as
/// a process group, by its bits read unsigned. `ESRCH` for the least `i32`.
pub fn wait_selection(pid: isize) -> (r: Result<PidSel, Errno>)
    ensures
        pid == i32::MIN ==> r == Err::<PidSel, Errno>(Errno::ESRCH),
        pid == -1 ==> r == Ok::<PidSel, Errno>(PidSel::Task(None)),
        pid == 0 ==> r == Ok::<PidSel, Errno>(PidSel::Group(None)),
        pid > 0 ==> r == Ok::<PidSel, Errno>(PidSel::Task(Some(pid as usize))),
        pid < -1 && pid != i32::MIN ==> r == Ok::<PidSel, Errno>(PidSel::Group(Some(pid as usize))),
{
    if pid == i32::MIN as isize {
        return Err(Errno::ESRCH);
    }
    if pid == -1 {
        Ok(PidSel::Task(None))
    } else if pid == 0 {
        Ok(PidSel::Group(None))
    } else if pid > 0 {
        Ok(PidSel::Task(Some(pid as usize)))
    } else {
        Ok(PidSel::Group(Some(pid as usize)))
    }
}

} // verus!
