//! The system call table: which call a number names, and which calls are
//! answered here, from the state of the tasks alone.
use vstd::prelude::*;
use crate::errno::{Errno, SyscallResult};
use crate::syscall::fs::{dup3_outcome, dup_outcome, lseek_outcome};
use crate::syscall::process::{exited, getpgid_outcome, setpgid_outcome};
use crate::syscall::signal::{kill_outcome, tgkill_outcome, tkill_outcome};
use crate::syscall::syscall::Syscall;
use crate::syscall::syscall_id::{syscall_number, SyscallID};
use crate::task::{RobustList, Task};

verus! {

/// How a system call was handled.
#[derive(Clone, Copy, Debug, PartialEq, Eq)]
pub enum SyscallOutcome {
    /// Answered here, with this result.
    Done(SyscallResult),
    /// The call reads or writes user memory, files, devices or the clock, or
    /// waits: it is carried out by the caller of the table.
    Elsewhere(SyscallID),
}

/// The value of a call that is accepted and does nothing.
pub open spec fn empty_result(id: SyscallID) -> Option<isize> {
    match id {
        SyscallID::SYS_UMASK => Some(0x777isize),
        SyscallID::SYS_FCHMODAT | SyscallID::SYS_SYNC | SyscallID::SYS_FSYNC | SyscallID::SYS_MSYNC
        | SyscallID::SYS_GETUID | SyscallID::SYS_GETEUID | SyscallID::SYS_GETGID | SyscallID::SYS_GETEGID
        | SyscallID::SYS_SIGTIMEDWAIT | SyscallID::SYS_MEMBARRIER | SyscallID::SYS_MADVISE
        | SyscallID::SYS_SYSINFO | SyscallID::SYS_GET_MEMPOLICY => Some(0isize),
        _ => None,
    }
}

/// Whether call `id` is answered here.
pub open spec fn answered_here(id: SyscallID) -> bool {
    ||| empty_result(id).is_some()
    ||| match id {
        SyscallID::SYS_CLOSE | SyscallID::SYS_DUP | SyscallID::SYS_DUP3 | SyscallID::SYS_LSEEK
        | SyscallID::SYS_EXIT | SyscallID::SYS_EXIT_GROUP | SyscallID::SYS_GETTID | SyscallID::SYS_GETPID
        | SyscallID::SYS_GETPPID | SyscallID::SYS_SET_TID_ADDRESS | SyscallID::SYS_GETPGID
        | SyscallID::SYS_SETPGID | SyscallID::SYS_SET_ROBUST_LIST | SyscallID::SYS_SETSID
        | SyscallID::SYS_KILL | SyscallID::SYS_TKILL | SyscallID::SYS_TGKILL
        | SyscallID::SYS_SCHEED_GETSCHEDULER | SyscallID::SYS_SCHED_SETSCHEDULER => true,
        _ => false,
    }
}

impl Syscall {
    /// Carries out call `id` with arguments `args` when it is answered here,
    /// else hands it back untouched. `NO_SYSCALL` is `ENOSYS`.
    pub fn syscall_inner(&mut self, id: SyscallID, args: [usize; 6]) -> (r: SyscallOutcome)
        requires
            old(self).wf(),
            id != SyscallID::SYS_COPY_FILE_RANGE,
            id == SyscallID::SYS_KILL ==> args[0] as isize != isize::MIN,
        ensures
            final(self).wf(),
            inner_outcome(*old(self), *final(self), id, args, r),
    {
        match id {
            SyscallID::NO_SYSCALL => SyscallOutcome::Done(Err(Errno::ENOSYS)),
            SyscallID::SYS_UMASK => SyscallOutcome::Done(Syscall::empty_syscall("umask", 0x777)),
            SyscallID::SYS_FCHMODAT => SyscallOutcome::Done(Syscall::empty_syscall("fchmodat", 0)),
            SyscallID::SYS_SYNC => SyscallOutcome::Done(Syscall::empty_syscall("sync", 0)),
            SyscallID::SYS_FSYNC => SyscallOutcome::Done(Syscall::empty_syscall("fsync", 0)),
            SyscallID::SYS_MSYNC => SyscallOutcome::Done(Syscall::empty_syscall("msync", 0)),
            SyscallID::SYS_GETUID => SyscallOutcome::Done(Syscall::empty_syscall("getuid", 0)),
            SyscallID::SYS_GETEUID => SyscallOutcome::Done(Syscall::empty_syscall("geteuid", 0)),
            SyscallID::SYS_GETGID => SyscallOutcome::Done(Syscall::empty_syscall("getgid", 0)),
            SyscallID::SYS_GETEGID => SyscallOutcome::Done(Syscall::empty_syscall("getegid", 0)),
            SyscallID::SYS_SIGTIMEDWAIT => SyscallOutcome::Done(Syscall::empty_syscall("sigtimedwait", 0)),
            SyscallID::SYS_MEMBARRIER => SyscallOutcome::Done(Syscall::empty_syscall("membarrier", 0)),
            SyscallID::SYS_MADVISE => SyscallOutcome::Done(Syscall::empty_syscall("madvise", 0)),
            SyscallID::SYS_SYSINFO => SyscallOutcome::Done(Syscall::empty_syscall("info", 0)),
            SyscallID::SYS_GET_MEMPOLICY => SyscallOutcome::Done(Syscall::empty_syscall("get_mempolicy", 0)),
            SyscallID::SYS_CLOSE => SyscallOutcome::Done(self.sys_close(args[0])),
            SyscallID::SYS_DUP => SyscallOutcome::Done(self.sys_dup(args[0])),
            SyscallID::SYS_DUP3 => SyscallOutcome::Done(self.sys_dup3(args[0], args[1], args[2] as i32)),
            SyscallID::SYS_LSEEK => SyscallOutcome::Done(self.sys_lseek(args[0], args[1] as isize, args[2])),
            SyscallID::SYS_EXIT => SyscallOutcome::Done(self.sys_exit(args[0] as i32)),
            SyscallID::SYS_EXIT_GROUP => SyscallOutcome::Done(self.sys_exit_group(args[0] as i32)),
            SyscallID::SYS_GETTID => SyscallOutcome::Done(self.sys_gettid()),
            SyscallID::SYS_GETPID => SyscallOutcome::Done(self.sys_getpid()),
            SyscallID::SYS_GETPPID => SyscallOutcome::Done(self.sys_getppid()),
            SyscallID::SYS_SET_TID_ADDRESS => SyscallOutcome::Done(self.sys_set_tid_address(args[0])),
            SyscallID::SYS_GETPGID => SyscallOutcome::Done(self.sys_getpgid(args[0])),
            SyscallID::SYS_SETPGID => SyscallOutcome::Done(self.sys_setpgid(args[0], args[1])),
            SyscallID::SYS_SET_ROBUST_LIST => SyscallOutcome::Done(self.sys_set_robust_list(args[0], args[1])),
            SyscallID::SYS_SETSID => SyscallOutcome::Done(self.sys_setsid()),
            SyscallID::SYS_KILL => SyscallOutcome::Done(self.sys_kill(args[0] as isize, args[1])),
            SyscallID::SYS_TKILL => SyscallOutcome::Done(self.sys_tkill(args[0], args[1])),
            SyscallID::SYS_TGKILL => SyscallOutcome::Done(self.sys_tgkill(args[0], args[1], args[2])),
            SyscallID::SYS_SCHEED_GETSCHEDULER => SyscallOutcome::Done(self.sys_sched_getscheduler(args[0])),
            SyscallID::SYS_SCHED_SETSCHEDULER => SyscallOutcome::Done(
                self.sys_sched_setscheduler(args[0], args[1] as isize, args[2])),
            _ => SyscallOutcome::Elsewhere(id),
        }
    }

    /// Handles system call number `id`: `ENOSYS` for a number the kernel does
    /// not know; else the calling task records the call, and it is carried out
    /// as `syscall_inner` does.
    pub fn syscall(&mut self, id: usize, args: [usize; 6]) -> (r: SyscallOutcome)
        requires
            old(self).wf(),
            id != 285,
            id == 129 ==> args[0] as isize != isize::MIN,
        ensures
            final(self).wf(),
            final(self).current == old(self).current,
            (forall|s: SyscallID| #[trigger] syscall_number(s) != Some(id)) ==> r == SyscallOutcome::Done(Err(Errno::ENOSYS))
                && final(self).tasks@ == old(self).tasks@,
            forall|s: SyscallID| #[trigger] syscall_number(s) == Some(id) && answered_here(s) ==> r is Done,
            forall|s: SyscallID| #[trigger] syscall_number(s) == Some(id) && !answered_here(s) ==> {
                &&& r == SyscallOutcome::Elsewhere(s)
                &&& final(self).current_becomes(*old(self), Task { current_syscall: s, ..old(self).task() })
            },
            forall|s: SyscallID| #[trigger] syscall_number(s) == Some(id) ==> exists|mid: Syscall| {
                &&& mid.current_becomes(*old(self), Task { current_syscall: s, ..old(self).task() })
                &&& #[trigger] inner_outcome(mid, *final(self), s, args, r)
            },
    {
        let sid = match SyscallID::from_repr(id) {
            Some(s) => s,
            None => return SyscallOutcome::Done(Err(Errno::ENOSYS)),
        };
        let c = self.current;
        self.tasks[c].current_syscall = sid;
        proof {
            self.lemma_current_change_keeps_wf(*old(self), Task { current_syscall: sid, ..old(self).task() });
            assert forall|s: SyscallID| #[trigger] syscall_number(s) == Some(id) implies s == sid by {
                lemma_syscall_number_injective(s, sid);
            }
        }
        let ghost mid = *self;
        let r = self.syscall_inner(sid, args);
        proof {
            assert(inner_outcome(mid, *self, sid, args, r));
        }
        r
    }
}

/// Different calls have different numbers.
pub proof fn lemma_syscall_number_injective(a: SyscallID, b: SyscallID)
    requires
        syscall_number(a).is_some(),
        syscall_number(a) == syscall_number(b),
    ensures
        a == b,
{
}


/// What call `id` with arguments `args` answers and does to the tasks of `before`, giving `after`, as
/// `syscall_inner` carries it out.
pub open spec fn inner_outcome(before: Syscall, after: Syscall, id: SyscallID, args: [usize; 6], r: SyscallOutcome) -> bool {
    &&& (after.current == before.current)
    &&& (id == SyscallID::NO_SYSCALL ==> r == SyscallOutcome::Done(Err(Errno::ENOSYS))
            && after.tasks@ == before.tasks@)
    &&& (id != SyscallID::NO_SYSCALL && !answered_here(id) ==> r == SyscallOutcome::Elsewhere(id)
            && after.tasks@ == before.tasks@)
    &&& (empty_result(id) matches Some(v) ==> r == SyscallOutcome::Done(Ok(v))
            && after.tasks@ == before.tasks@)
    &&& (answered_here(id) ==> r is Done)
    &&& (id == SyscallID::SYS_GETTID ==> r == SyscallOutcome::Done(Ok(before.task().tid as isize)))
    &&& (id == SyscallID::SYS_GETPID || id == SyscallID::SYS_SETSID
            ==> r == SyscallOutcome::Done(Ok(before.task().tgid as isize)))
    &&& (id == SyscallID::SYS_GETPPID ==> r == SyscallOutcome::Done(match before.task().parent {
            Some(p) => Ok(p as isize),
            None => Err(Errno::ESRCH),
        }))
    &&& (id == SyscallID::SYS_CLOSE ==> r == SyscallOutcome::Done(
            if before.task().fd_table.is_open(args[0] as int) { Ok(0) } else { Err(Errno::EBADF) }))
    &&& (id == SyscallID::SYS_EXIT || id == SyscallID::SYS_EXIT_GROUP ==> r == SyscallOutcome::Done(Ok(0))
            && after.task().exit_code == Some(args[0] as i32))
    &&& (id == SyscallID::SYS_SCHEED_GETSCHEDULER || id == SyscallID::SYS_SCHED_SETSCHEDULER
            ==> r == SyscallOutcome::Done(Ok(0)))
    &&& (id == SyscallID::SYS_DUP && !before.task().fd_table.is_open(args[0] as int)
            ==> r == SyscallOutcome::Done(Err(Errno::EBADF)))
    &&& (id == SyscallID::SYS_LSEEK && !before.task().fd_table.is_open(args[0] as int)
            ==> r == SyscallOutcome::Done(Err(Errno::EBADF)))
    &&& (id == SyscallID::SYS_LSEEK && before.task().fd_table.is_open(args[0] as int) && args[2] > 4
            ==> r == SyscallOutcome::Done(Err(Errno::EINVAL)))
    &&& (id == SyscallID::SYS_SET_TID_ADDRESS ==> r == SyscallOutcome::Done(Ok(before.task().tid as isize))
            && after.task().clear_child_tid == Some(args[0]))
    &&& (id == SyscallID::SYS_GETPGID && args[0] == 0 ==> r == SyscallOutcome::Done(Ok(before.task().pgid as isize)))
    &&& (id == SyscallID::SYS_SET_ROBUST_LIST ==> r == SyscallOutcome::Done(
            if args[1] == 24 { Ok(0) } else { Err(Errno::EINVAL) }))
    &&& ((id == SyscallID::SYS_KILL || id == SyscallID::SYS_TKILL) && args[1] > 64
            ==> r == SyscallOutcome::Done(Err(Errno::EINVAL)))
    &&& (id == SyscallID::SYS_TGKILL && args[2] > 64 ==> r == SyscallOutcome::Done(Err(Errno::EINVAL)))
    &&& (id == SyscallID::SYS_TKILL && args[1] == 0 ==> r == SyscallOutcome::Done(Ok(0)))
    &&& (id == SyscallID::SYS_TGKILL && args[2] == 0 ==> r == SyscallOutcome::Done(Ok(0)))
    &&& (id == SyscallID::SYS_CLOSE ==> after.current_becomes(before,
            Task { fd_table: after.task().fd_table, ..before.task() })
            && after.task().fd_table.limit == before.task().fd_table.limit
            && after.task().fd_table.slots@ == if before.task().fd_table.is_open(args[0] as int) {
                before.task().fd_table.slots@.update(args[0] as int, None)
            } else {
                before.task().fd_table.slots@
            })
    &&& (id == SyscallID::SYS_EXIT ==> after.current_becomes(before, exited(before.task(), args[0] as i32)))
    &&& (id == SyscallID::SYS_EXIT_GROUP ==> after.tasks@.len() == before.tasks@.len()
            && forall|j: int| 0 <= j < before.tasks@.len() ==> #[trigger] after.tasks@[j]
                == if before.tasks@[j].tgid == before.task().tgid {
                    exited(before.tasks@[j], args[0] as i32)
                } else {
                    before.tasks@[j]
                })
    &&& (id == SyscallID::SYS_SET_TID_ADDRESS ==> after.current_becomes(before,
            Task { clear_child_tid: Some(args[0]), ..before.task() }))
    &&& (id == SyscallID::SYS_SET_ROBUST_LIST ==> if args[1] == 24 {
            after.current_becomes(before,
                Task { robust_list: RobustList { head: args[0], len: args[1] }, ..before.task() })
        } else {
            after.tasks@ == before.tasks@
        })
    &&& (id == SyscallID::SYS_GETTID || id == SyscallID::SYS_GETPID || id == SyscallID::SYS_SETSID
            || id == SyscallID::SYS_GETPPID || id == SyscallID::SYS_SCHEED_GETSCHEDULER
            || id == SyscallID::SYS_SCHED_SETSCHEDULER ==> after.tasks@ == before.tasks@)
    &&& (id == SyscallID::SYS_DUP ==> (r matches SyscallOutcome::Done(res)
            && dup_outcome(before, after, args[0], res)))
    &&& (id == SyscallID::SYS_DUP3 ==> (r matches SyscallOutcome::Done(res)
            && dup3_outcome(before, after, args[0], args[1], args[2] as i32, res)))
    &&& (id == SyscallID::SYS_LSEEK ==> (r matches SyscallOutcome::Done(res)
            && lseek_outcome(before, after, args[0], args[1] as isize, args[2], res)))
    &&& (id == SyscallID::SYS_GETPGID ==> (r matches SyscallOutcome::Done(res)
            && getpgid_outcome(before, args[0], res) && after.tasks@ == before.tasks@))
    &&& (id == SyscallID::SYS_SETPGID ==> (r matches SyscallOutcome::Done(res)
            && setpgid_outcome(before, after, args[0], args[1], res)))
    &&& (id == SyscallID::SYS_KILL ==> (r matches SyscallOutcome::Done(res)
            && kill_outcome(before, after, args[0] as isize, args[1], res)))
    &&& (id == SyscallID::SYS_TKILL ==> (r matches SyscallOutcome::Done(res)
            && tkill_outcome(before, after, args[0], args[1], res)))
    &&& (id == SyscallID::SYS_TGKILL ==> (r matches SyscallOutcome::Done(res)
            && tgkill_outcome(before, after, args[0], args[1], args[2], res)))
}

} // verus!
