//! Signal system calls: sending signals, masks, actions and alternate stacks.
use vstd::prelude::*;
use crate::errno::{Errno, SysResult, SyscallResult};
use crate::signal::sig_action::{action_from_user, action_to_user, KSigAction, USigAction};
use crate::signal::sig_detail::{SigDetail, SigKillDetail};
use crate::signal::sig_info::{sig_code_value, RawSigInfo, SigCode, SigInfo};
use crate::signal::sig_pending::{accepts, first_accepted};
use crate::signal::sig_set::{SigMask, SigSet};
use crate::signal::sig_stack::SigAltStack;
use crate::signal::signal::Signal;
use crate::syscall::syscall::Syscall;
use crate::task::{may_act_on, task_received, Task, INIT_PROCESS_ID};

verus! {

/// `k` is the first index of `s` whose task satisfies `p`.
pub open spec fn first_where(s: Seq<Task>, p: spec_fn(Task) -> bool, k: int) -> bool {
    &&& 0 <= k < s.len()
    &&& p(s[k])
    &&& forall|j: int| 0 <= j < k ==> !p(#[trigger] s[j])
}

/// Only one index is the first to satisfy `p`.
pub proof fn lemma_first_where_unique(s: Seq<Task>, p: spec_fn(Task) -> bool, a: int, b: int)
    requires
        first_where(s, p, a),
        first_where(s, p, b),
    ensures
        a == b,
{
    if a < b {
        assert(!p(s[a]));
    } else if b < a {
        assert(!p(s[b]));
    }
}

/// Whether some task of `s` satisfies `p`.
pub open spec fn some_where(s: Seq<Task>, p: spec_fn(Task) -> bool) -> bool {
    exists|j: int| 0 <= j < s.len() && p(#[trigger] s[j])
}

/// Tasks with thread ID `tid`.
pub open spec fn with_tid(tid: usize) -> spec_fn(Task) -> bool {
    |t: Task| t.tid == tid
}

/// `new` is `old` with task `k` having received `info`.
pub open spec fn delivered(old: Seq<Task>, new: Seq<Task>, k: int, info: SigInfo) -> bool {
    &&& new.len() == old.len()
    &&& 0 <= k < old.len()
    &&& task_received(old[k], new[k], info)
    &&& forall|j: int| 0 <= j < old.len() && j != k ==> #[trigger] new[j] == old[j]
}

/// Signal information of a signal sent by `kill` and its kin from process `pid`.
pub open spec fn kill_info(signal: Signal, code: SigCode, pid: usize) -> SigInfo {
    SigInfo { signal, code, errno: 0, detail: SigDetail::Kill(SigKillDetail { pid }) }
}

/// Mask bits that `sigprocmask` never sets: `SIGKILL` and `SIGCONT`.
pub open spec fn unblockable(i: int) -> bool {
    i == 8 || i == 17
}

impl Syscall {
    /// Queues `info` for task `k`.
    fn deliver(&mut self, k: usize, info: SigInfo)
        requires
            old(self).wf(),
            k < old(self).tasks@.len(),
            info.signal.is_valid(),
        ensures
            final(self).wf(),
            final(self).current == old(self).current,
            delivered(old(self).tasks@, final(self).tasks@, k as int, info),
    {
        self.tasks[k].recv_siginfo(info);
        proof {
            assert forall|i: int| 0 <= i < self.tasks@.len() implies (#[trigger] self.tasks@[i]).wf() by {
                assert(old(self).tasks@[i].wf());
            }
        }
    }

    /// Sends `signal` to thread `tid`; `ESRCH` if there is no such thread.
    pub fn __sys_tkill(&mut self, tid: usize, signal: Signal) -> (r: SyscallResult)
        requires
            old(self).wf(),
            signal.is_valid(),
        ensures
            final(self).wf(),
            final(self).current == old(self).current,
            !some_where(old(self).tasks@, with_tid(tid)) ==> r == Err::<isize, Errno>(Errno::ESRCH)
                && final(self).tasks@ == old(self).tasks@,
            some_where(old(self).tasks@, with_tid(tid)) ==> r == Ok::<isize, Errno>(0) && exists|k: int|
                first_where(old(self).tasks@, with_tid(tid), k)
                && delivered(old(self).tasks@, final(self).tasks@, k, kill_info(signal, SigCode::TKill, old(self).tasks@[k].tgid)),
    {
        match self.find_task(tid) {
            None => {
                proof {
                    assert forall|j: int| 0 <= j < self.tasks@.len() implies !with_tid(tid)(#[trigger] self.tasks@[j]) by {}
                }
                Err(Errno::ESRCH)
            },
            Some(k) => {
                let pid = self.tasks[k].tgid;
                let info = SigInfo { signal, code: SigCode::TKill, errno: 0, detail: SigDetail::Kill(SigKillDetail { pid }) };
                self.deliver(k, info);
                proof {
                    assert(first_where(old(self).tasks@, with_tid(tid), k as int));
                }
                Ok(0)
            },
        }
    }

    /// Sends signal `signo` to thread `tid`; nothing for signal zero,
    /// `EINVAL` for a number that is no signal.
    pub fn sys_tkill(&mut self, tid: usize, signo: usize) -> (r: SyscallResult)
        requires
            old(self).wf(),
        ensures
            final(self).wf(),
            final(self).current == old(self).current,
            tkill_outcome(*old(self), *final(self), tid, signo, r),
    {
        if signo == 0 {
            return Ok(0);
        }
        let signal = match Signal::try_from(signo) {
            Ok(s) => s,
            Err(e) => { return Err(e); },
        };
        proof { signal.lemma_of_signo(); }
        self.__sys_tkill(tid, signal)
    }

    /// Sends signal `signo` to thread `tid` of process `tgid`; a `tgid` of -1
    /// accepts any process. `ESRCH` if the thread is missing or in another process.
    pub fn sys_tgkill(&mut self, tgid: usize, tid: usize, signo: usize) -> (r: SyscallResult)
        requires
            old(self).wf(),
        ensures
            final(self).wf(),
            final(self).current == old(self).current,
            tgkill_outcome(*old(self), *final(self), tgid, tid, signo, r),
    {
        if signo == 0 {
            return Ok(0);
        }
        let signal = match Signal::try_from(signo) {
            Ok(s) => s,
            Err(e) => { return Err(e); },
        };
        proof { signal.lemma_of_signo(); }
        if tgid as isize == -1 {
            return self.__sys_tkill(tid, signal);
        }
        match self.find_task(tid) {
            None => {
                proof {
                    assert forall|j: int| 0 <= j < self.tasks@.len() implies !with_tid(tid)(#[trigger] self.tasks@[j]) by {}
                }
                Err(Errno::ESRCH)
            },
            Some(k) => {
                proof {
                    assert(first_where(old(self).tasks@, with_tid(tid), k as int));
                }
                if self.tasks[k].tgid != tgid {
                    return Err(Errno::ESRCH);
                }
                let cur_pid = self.tasks[self.current].tgid;
                let info = SigInfo { signal, code: SigCode::TKill, errno: 0, detail: SigDetail::Kill(SigKillDetail { pid: cur_pid }) };
                self.deliver(k, info);
                Ok(0)
            },
        }
    }
}


/// The signal that `kill` sends for number `signo`, none for zero.
pub open spec fn kill_signal(signo: usize) -> Option<Signal> {
    if signo == 0 { None } else { Some(Signal::of_signo(signo)) }
}

/// Members of process group `pgid` that a task with IDs `sender` may signal.
pub open spec fn group_member_allowed(sender: Task, pgid: usize) -> spec_fn(Task) -> bool {
    |t: Task| t.pgid == pgid && may_act_on(sender.user_id, t.user_id)
}

/// Group leaders other than init that a task with IDs `sender` may signal.
pub open spec fn leader_allowed(sender: Task) -> spec_fn(Task) -> bool {
    |t: Task| t.tgid != INIT_PROCESS_ID && t.tid == t.tgid && may_act_on(sender.user_id, t.user_id)
}

/// Members of process group `pgid`.
pub open spec fn group_member(pgid: usize) -> spec_fn(Task) -> bool {
    |t: Task| t.pgid == pgid
}

/// Whether `kill` to process group `pgid` by `sender` reaches task `t`: `t`
/// is in the group and `sender` may signal it.
pub open spec fn group_hit(sender: Task, pgid: usize, t: Task) -> bool {
    t.pgid == pgid && may_act_on(sender.user_id, t.user_id)
}

/// The outcome of `kill` to a whole process group: every member that `sender`
/// may signal receives the signal, if any, with sender `pid`; no other task
/// changes.
pub open spec fn kill_group_hits(old: Seq<Task>, new: Seq<Task>, sender: Task, pgid: usize, sig: Option<Signal>, pid: usize) -> bool {
    &&& new.len() == old.len()
    &&& forall|j: int| 0 <= j < old.len() ==> {
        &&& (sig is Some && group_hit(sender, pgid, #[trigger] old[j])) ==> task_received(old[j], new[j], kill_info(sig->0, SigCode::User, pid))
        &&& !(sig is Some && group_hit(sender, pgid, old[j])) ==> new[j] == old[j]
    }
}

/// The outcome of `kill` on task `k`: the signal, if any, is delivered with
/// sender `pid`, and the call succeeds.
pub open spec fn kill_hits(old: Seq<Task>, new: Seq<Task>, k: int, sig: Option<Signal>, pid: usize) -> bool {
    &&& sig matches Some(s) ==> delivered(old, new, k, kill_info(s, SigCode::User, pid))
    &&& sig.is_none() ==> new == old
}

impl Syscall {
    /// Sends signal `signo` (none for zero, which only checks) to the
    /// process `pid`, to one permitted member of the caller's process group for
    /// zero, to one permitted process for -1, and for other negative values to
    /// every member of process group `-pid` that the caller may signal.
    /// `ESRCH` for an empty group, `EPERM` if the caller may signal none of it.
    pub fn sys_kill(&mut self, pid: isize, signo: usize) -> (r: SyscallResult)
        requires
            old(self).wf(),
            pid > isize::MIN,
        ensures
            final(self).wf(),
            final(self).current == old(self).current,
            kill_outcome(*old(self), *final(self), pid, signo, r),
    {
        let signal = match Signal::try_from_with_zero_as_none(signo) {
            Ok(s) => s,
            Err(e) => { return Err(e); },
        };
        proof {
            if let Some(s) = signal {
                s.lemma_of_signo();
            }
        }
        let cur = self.current;
        let pgid = self.tasks[cur].pgid;
        let len = self.tasks.len();
        let ghost old_tasks = self.tasks@;
        let ghost sender = old(self).task();
        if pid == 0 {
            let ghost p = group_member_allowed(sender, pgid);
            let mut i: usize = 0;
            while i < len
                invariant
                    i <= len,
                    len == self.tasks@.len(),
                    self.tasks@ == old_tasks,
                    *self == *old(self),
                    self.wf(),
                    cur == self.current,
                    cur < len,
                    sender == self.tasks@[cur as int],
                    signo <= 64,
                    signal == kill_signal(signo),
                    signal matches Some(sg) ==> sg.is_valid(),
                    pgid == sender.pgid,
                    pid == 0,
                    p == group_member_allowed(sender, pgid),
                    forall|j: int| 0 <= j < i ==> !p(#[trigger] old_tasks[j]),
                decreases len - i,
            {
                if self.tasks[i].pgid == pgid && self.tasks[cur].check_user_permission(&self.tasks[i]) {
                    proof {
                        assert(first_where(old_tasks, p, i as int));
                    }
                    if let Some(sig) = signal {
                        let info = SigInfo::new_detailed(sig, SigCode::User, 0, SigDetail::Kill(SigKillDetail { pid: pgid }));
                        self.deliver(i, info);
                    }
                    return Ok(0);
                }
                i = i + 1;
            }
            return Err(Errno::EPERM);
        } else if pid == -1 {
            let ghost p = leader_allowed(sender);
            let mut i: usize = 0;
            while i < len
                invariant
                    i <= len,
                    len == self.tasks@.len(),
                    self.tasks@ == old_tasks,
                    *self == *old(self),
                    self.wf(),
                    cur == self.current,
                    cur < len,
                    sender == self.tasks@[cur as int],
                    signo <= 64,
                    signal == kill_signal(signo),
                    signal matches Some(sg) ==> sg.is_valid(),
                    pgid == sender.pgid,
                    pid == -1,
                    p == leader_allowed(sender),
                    forall|j: int| 0 <= j < i ==> !p(#[trigger] old_tasks[j]),
                decreases len - i,
            {
                if self.tasks[i].tgid != INIT_PROCESS_ID && self.tasks[i].is_group_leader()
                    && self.tasks[cur].check_user_permission(&self.tasks[i]) {
                    proof {
                        assert(first_where(old_tasks, p, i as int));
                    }
                    if let Some(sig) = signal {
                        let target_pid = self.tasks[i].tgid;
                        let info = SigInfo::new_detailed(sig, SigCode::User, 0, SigDetail::Kill(SigKillDetail { pid: target_pid }));
                        self.deliver(i, info);
                    }
                    return Ok(0);
                }
                i = i + 1;
            }
            return Err(Errno::EPERM);
        } else if pid > 0 {
            match self.find_task(pid as usize) {
                None => {
                    proof {
                        assert forall|j: int| 0 <= j < old_tasks.len() implies !with_tid(pid as usize)(#[trigger] old_tasks[j]) by {}
                    }
                    return Err(Errno::ESRCH);
                },
                Some(k) => {
                    proof {
                        assert(first_where(old_tasks, with_tid(pid as usize), k as int));
                    }
                    if self.tasks[k].is_group_leader() {
                        if !self.tasks[cur].check_user_permission(&self.tasks[k]) {
                            return Err(Errno::EPERM);
                        }
                        if let Some(sig) = signal {
                            let target_pid = self.tasks[k].tgid;
                            let info = SigInfo::new_detailed(sig, SigCode::User, 0, SigDetail::Kill(SigKillDetail { pid: target_pid }));
                            self.deliver(k, info);
                        }
                        return Ok(0);
                    } else {
                        return Err(Errno::ESRCH);
                    }
                },
            }
        } else {
            let pg = (-pid) as usize;
            let info_opt: Option<SigInfo> = match signal {
                Some(sig) => Some(SigInfo::new_detailed(sig, SigCode::User, 0, SigDetail::Kill(SigKillDetail { pid: pgid }))),
                None => None,
            };
            let mut allowed = false;
            let mut member = false;
            let mut i: usize = 0;
            while i < len
                invariant
                    i <= len,
                    len == self.tasks@.len(),
                    len == old_tasks.len(),
                    old_tasks == old(self).tasks@,
                    self.wf(),
                    cur == self.current,
                    cur < len,
                    sender == old_tasks[cur as int],
                    self.tasks@[cur as int].user_id == sender.user_id,
                    signo <= 64,
                    signal == kill_signal(signo),
                    signal matches Some(sg) ==> sg.is_valid(),
                    pgid == sender.pgid,
                    pid < -1,
                    pg == (-pid) as usize,
                    info_opt.is_some() == signal.is_some(),
                    info_opt matches Some(inf) ==> inf == kill_info(signal->0, SigCode::User, pgid),
                    forall|j: int| 0 <= j < i ==> {
                        &&& (signal is Some && group_hit(sender, pg, #[trigger] old_tasks[j]))
                            ==> task_received(old_tasks[j], self.tasks@[j], kill_info(signal->0, SigCode::User, pgid))
                        &&& !(signal is Some && group_hit(sender, pg, old_tasks[j])) ==> self.tasks@[j] == old_tasks[j]
                    },
                    forall|j: int| i <= j < len ==> #[trigger] self.tasks@[j] == old_tasks[j],
                    allowed == exists|j: int| 0 <= j < i && group_hit(sender, pg, #[trigger] old_tasks[j]),
                    member == exists|j: int| 0 <= j < i && (#[trigger] old_tasks[j]).pgid == pg,
                decreases len - i,
            {
                let ghost before = self.tasks@;
                if self.tasks[i].pgid == pg {
                    member = true;
                    if self.tasks[cur].check_user_permission(&self.tasks[i]) {
                        allowed = true;
                        match info_opt {
                            Some(info) => {
                                self.deliver(i, info);
                                proof {
                                    assert(task_received(before[i as int], self.tasks@[i as int], info));
                                    if i == cur {
                                        assert(self.tasks@[cur as int].user_id == before[cur as int].user_id);
                                    } else {
                                        assert(self.tasks@[cur as int] == before[cur as int]);
                                    }
                                }
                            },
                            None => {},
                        }
                    }
                }
                proof {
                    assert forall|j: int| 0 <= j < i + 1 implies {
                        &&& (signal is Some && group_hit(sender, pg, #[trigger] old_tasks[j]))
                            ==> task_received(old_tasks[j], self.tasks@[j], kill_info(signal->0, SigCode::User, pgid))
                        &&& !(signal is Some && group_hit(sender, pg, old_tasks[j])) ==> self.tasks@[j] == old_tasks[j]
                    } by {
                        if j < i {
                            assert(self.tasks@[j] == before[j]);
                        } else {
                            assert(before[j] == old_tasks[j]);
                        }
                    }
                    assert forall|j: int| i + 1 <= j < len implies #[trigger] self.tasks@[j] == old_tasks[j] by {
                        assert(self.tasks@[j] == before[j]);
                    }
                    if allowed {
                        if !(exists|j: int| 0 <= j < i && group_hit(sender, pg, #[trigger] old_tasks[j])) {
                            assert(group_hit(sender, pg, old_tasks[i as int]));
                        }
                    }
                    if member {
                        if !(exists|j: int| 0 <= j < i && (#[trigger] old_tasks[j]).pgid == pg) {
                            assert(old_tasks[i as int].pgid == pg);
                        }
                    }
                }
                i = i + 1;
            }
            proof {
                if !allowed {
                    assert(self.tasks@ =~= old_tasks) by {
                        assert forall|j: int| 0 <= j < len implies self.tasks@[j] == old_tasks[j] by {
                            assert(!group_hit(sender, pg, old_tasks[j]));
                        }
                    }
                    assert forall|j: int| 0 <= j < len implies !group_member_allowed(sender, pg)(#[trigger] old_tasks[j]) by {
                        assert(!group_hit(sender, pg, old_tasks[j]));
                    }
                    if !member {
                        assert forall|j: int| 0 <= j < len implies !group_member(pg)(#[trigger] old_tasks[j]) by {
                            assert(old_tasks[j].pgid != pg);
                        }
                    } else {
                        let w = choose|j: int| 0 <= j < len && (#[trigger] old_tasks[j]).pgid == pg;
                        assert(group_member(pg)(old_tasks[w]));
                    }
                } else {
                    let w = choose|j: int| 0 <= j < len && group_hit(sender, pg, #[trigger] old_tasks[j]);
                    assert(group_member_allowed(sender, pg)(old_tasks[w]));
                    assert(group_member(pg)(old_tasks[w]));
                }
            }
            if allowed {
                Ok(0)
            } else if member {
                Err(Errno::EPERM)
            } else {
                Err(Errno::ESRCH)
            }
        }
    }
}


/// The mask that `sigprocmask` makes: `how` 0 blocks the signals of `set`,
/// 1 unblocks them, 2 sets the mask to them; `SIGKILL` and `SIGCONT` are never
/// taken from `set`.
pub open spec fn sigprocmask_bit(how: usize, old_mask: SigMask, set: SigSet, i: int) -> bool {
    let s = set.has(i) && !unblockable(i);
    if how == 0 {
        old_mask.has(i) || s
    } else if how == 1 {
        old_mask.has(i) && !s
    } else {
        s
    }
}

impl Syscall {
    /// Changes the signal mask of the calling task as `how` says when `set` is
    /// given, and returns the mask it had; `EINVAL` and no change for an
    /// unknown `how`.
    pub fn sys_sigprocmask(&mut self, how: usize, set: Option<SigSet>) -> (r: SysResult<SigMask>)
        requires
            old(self).wf(),
        ensures
            final(self).wf(),
            final(self).current == old(self).current,
            set.is_none() || how > 2 ==> final(self).tasks@ == old(self).tasks@,
            set.is_none() ==> r == Ok::<SigSet, Errno>(old(self).task().sig_mask),
            set.is_some() && how > 2 ==> r == Err::<SigSet, Errno>(Errno::EINVAL),
            set.is_some() && how <= 2 ==> {
                &&& r == Ok::<SigSet, Errno>(old(self).task().sig_mask)
                &&& final(self).current_becomes(*old(self), Task { sig_mask: final(self).task().sig_mask, ..old(self).task() })
                &&& forall|i: int| #[trigger] final(self).task().sig_mask.has(i) == sigprocmask_bit(how, old(self).task().sig_mask, set.unwrap(), i)
            },
    {
        let c = self.current;
        let old_sigmask = self.tasks[c].sig_mask;
        if let Some(st) = set {
            let mut masked = st;
            let kill = SigSet::from_raw_signo(8);
            let cont = SigSet::from_raw_signo(17);
            let never = kill.union(cont);
            masked.remove(never);
            let unmasked = masked.complement();
            let new_mask = if how == 0 {
                old_sigmask.union(masked)
            } else if how == 1 {
                old_sigmask.intersection(unmasked)
            } else if how == 2 {
                masked
            } else {
                return Err(Errno::EINVAL);
            };
            self.tasks[c].sig_mask = new_mask;
            proof {
                assert forall|i: int| #[trigger] new_mask.has(i) == sigprocmask_bit(how, old_sigmask, st, i) by {
                    assert(never.has(i) == (kill.has(i) || cont.has(i)));
                    assert(never.has(i) == unblockable(i));
                    assert(masked.has(i) == (st.has(i) && !unblockable(i)));
                    if how == 1 && 0 <= i < 64 {
                        assert(unmasked.has(i) == !masked.has(i));
                    }
                }
                self.lemma_current_change_keeps_wf(*old(self), Task { sig_mask: new_mask, ..old(self).task() });
            }
        }
        Ok(old_sigmask)
    }
}


impl Syscall {
    /// Registers `act`, when given, as the action of signal `signum` of the
    /// calling task, and returns the action it had, as user space reads it;
    /// `EINVAL` and no change for an unknown signal, `SIGKILL` or `SIGSTOP`.
    pub fn sys_sigaction(&mut self, signum: usize, act: Option<USigAction>) -> (r: SysResult<USigAction>)
        requires
            old(self).wf(),
            signum != 0,
        ensures
            final(self).wf(),
            final(self).current == old(self).current,
            (signum > 64 || signum == 9 || signum == 19) ==> {
                &&& r == Err::<USigAction, Errno>(Errno::EINVAL)
                &&& final(self).tasks@ == old(self).tasks@
            },
            !(signum > 64 || signum == 9 || signum == 19) ==> {
                &&& r == Ok::<USigAction, Errno>(action_to_user(old(self).task().sa_list.actions@[signum - 1]))
                &&& act.is_none() ==> final(self).tasks@ == old(self).tasks@
                &&& act matches Some(a) ==> {
                    &&& final(self).current_becomes(*old(self), Task { sa_list: final(self).task().sa_list, ..old(self).task() })
                    &&& final(self).task().sa_list.actions@ == old(self).task().sa_list.actions@.update(
                        (signum - 1) as int, action_from_user(a, Signal::of_signo(signum)))
                }
            },
    {
        let signal = match Signal::from_repr(signum) {
            Some(s) => s,
            None => return Err(Errno::EINVAL),
        };
        let signal = match signal.try_exclude_kill() {
            Ok(s) => s,
            Err(e) => return Err(e),
        };
        let c = self.current;
        let index = signal.into_sigaction_index();
        let old_sa = self.tasks[c].sa_list.actions[index].into_sa();
        if let Some(a) = act {
            let kaction = KSigAction::from_sa(a, signal);
            self.tasks[c].sa_list.actions[index] = kaction;
            proof {
                self.lemma_current_change_keeps_wf(*old(self), self.task());
            }
        }
        Ok(old_sa)
    }

    /// The signals pending for the calling task.
    pub fn sys_sigpending(&self) -> (r: SigSet)
        requires
            self.wf(),
        ensures
            r == self.task().signals.pending_set,
    {
        self.tasks[self.current].signals.pending_set
    }

    /// Sets the alternate signal stack of the calling task to `new`, or removes
    /// it when `new` is `None`, and returns the stack it had; with `None` it
    /// returns `None`, as the stack is removed before it is read.
    pub fn sys_sigaltstack(&mut self, new: Option<SigAltStack>) -> (r: Option<SigAltStack>)
        requires
            old(self).wf(),
        ensures
            final(self).wf(),
            final(self).current_becomes(*old(self), Task { sig_stack: new, ..old(self).task() }),
            new.is_none() ==> r.is_none(),
            new.is_some() ==> r == old(self).task().sig_stack,
    {
        let c = self.current;
        let old_stack = self.tasks[c].sig_stack;
        match new {
            None => {
                self.tasks[c].sig_stack = None;
                proof {
                    self.lemma_current_change_keeps_wf(*old(self), Task { sig_stack: new, ..old(self).task() });
                }
                None
            },
            Some(stack) => {
                self.tasks[c].sig_stack = Some(stack);
                proof {
                    self.lemma_current_change_keeps_wf(*old(self), Task { sig_stack: new, ..old(self).task() });
                }
                old_stack
            },
        }
    }
}

/// The mask under which `sigtimedwait` takes a signal of `set`: every signal
/// outside `set` is masked, but for `SIGKILL` and `SIGSTOP`.
pub open spec fn waited_mask(set: SigSet) -> SigSet {
    SigSet::from_spec_bits(!(set.spec_bits() | 0x40100u64))
}

impl Syscall {
    /// What `sigtimedwait` does once the wait is over: takes out of the calling
    /// task's pending signals the first one of `set` (or `SIGKILL`, `SIGSTOP`),
    /// and returns its number and the information user space reads;
    /// `EINTR` and no change if none is pending.
    pub fn sigtimedwait_take(&mut self, set: SigSet) -> (r: SysResult<(usize, RawSigInfo)>)
        requires
            old(self).wf(),
        ensures
            final(self).wf(),
            final(self).current_becomes(*old(self), Task { signals: final(self).task().signals, ..old(self).task() }),
            final(self).task().signals.sig_mask == old(self).task().signals.sig_mask,
            r.is_err() ==> {
                &&& r == Err::<(usize, RawSigInfo), Errno>(Errno::EINTR)
                &&& final(self).tasks@ == old(self).tasks@
            },
            r matches Ok((signo, raw)) ==> exists|k: int| {
                &&& first_accepted(old(self).task().signals.queue@, waited_mask(set), k)
                &&& signo == old(self).task().signals.queue@[k].signal.signo()
                &&& raw == (RawSigInfo { signo, code: sig_code_value(old(self).task().signals.queue@[k].code) })
                &&& final(self).task().signals.queue@ == old(self).task().signals.queue@.remove(k)
            },
            r.is_err() ==> forall|k: int| 0 <= k < old(self).task().signals.queue@.len()
                ==> !accepts(waited_mask(set), #[trigger] old(self).task().signals.queue@[k].signal),
    {
        let c = self.current;
        let wk = set.with_kill();
        let mask = wk.complement();
        let taken = self.tasks[c].signals.pop_with_mask(mask);
        proof {
            self.lemma_current_change_keeps_wf(*old(self), self.task());
        }
        match taken {
            Some(si) => {
                let raw = si.into_raw();
                Ok((si.signal.raw(), raw))
            },
            None => {
                Err(Errno::EINTR)
            },
        }
    }
}

/// Blocking a set of signals and then unblocking the same set leaves the mask
/// as it was, less the signals of the set (`SIGKILL` and `SIGCONT` are never
/// taken from a set, so they keep their bit).
pub proof fn law_block_then_unblock(m0: SigMask, m1: SigMask, m2: SigMask, set: SigSet, i: int)
    requires
        forall|k: int| #[trigger] m1.has(k) == sigprocmask_bit(0, m0, set, k),
        forall|k: int| #[trigger] m2.has(k) == sigprocmask_bit(1, m1, set, k),
    ensures
        m2.has(i) == (m0.has(i) && !(set.has(i) && !unblockable(i))),
{
    assert(m1.has(i) == sigprocmask_bit(0, m0, set, i));
    assert(m2.has(i) == sigprocmask_bit(1, m1, set, i));
}

/// `sigprocmask` never adds `SIGKILL` or `SIGCONT` to a mask: whatever `how`
/// and the set, their bits are set afterwards only if they were before.
pub proof fn law_sigprocmask_never_adds_kill_or_cont(how: usize, m0: SigMask, m1: SigMask, set: SigSet)
    requires
        forall|k: int| #[trigger] m1.has(k) == sigprocmask_bit(how, m0, set, k),
    ensures
        m1.has(8) ==> m0.has(8),
        m1.has(17) ==> m0.has(17),
{
    assert(m1.has(8) == sigprocmask_bit(how, m0, set, 8));
    assert(m1.has(17) == sigprocmask_bit(how, m0, set, 17));
}

/// What `tkill(tid, signo)` answers and does to the tasks of `before`, giving `after`.
pub open spec fn tkill_outcome(before: Syscall, after: Syscall, tid: usize, signo: usize, r: SyscallResult) -> bool {
    &&& (signo == 0 ==> r == Ok::<isize, Errno>(0) && after.tasks@ == before.tasks@)
    &&& (signo > 64 ==> r == Err::<isize, Errno>(Errno::EINVAL) && after.tasks@ == before.tasks@)
    &&& (0 < signo <= 64 && !some_where(before.tasks@, with_tid(tid)) ==> r == Err::<isize, Errno>(Errno::ESRCH)
            && after.tasks@ == before.tasks@)
    &&& (0 < signo <= 64 && some_where(before.tasks@, with_tid(tid)) ==> r == Ok::<isize, Errno>(0) && exists|k: int|
            first_where(before.tasks@, with_tid(tid), k)
            && delivered(before.tasks@, after.tasks@, k, kill_info(Signal::of_signo(signo), SigCode::TKill, before.tasks@[k].tgid)))
}

/// What `tgkill(tgid, tid, signo)` answers and does to the tasks of `before`, giving `after`.
pub open spec fn tgkill_outcome(before: Syscall, after: Syscall, tgid: usize, tid: usize, signo: usize, r: SyscallResult) -> bool {
    &&& (signo == 0 ==> r == Ok::<isize, Errno>(0) && after.tasks@ == before.tasks@)
    &&& (signo > 64 ==> r == Err::<isize, Errno>(Errno::EINVAL) && after.tasks@ == before.tasks@)
    &&& (0 < signo <= 64 && !some_where(before.tasks@, with_tid(tid)) ==> r == Err::<isize, Errno>(Errno::ESRCH)
            && after.tasks@ == before.tasks@)
    &&& (0 < signo <= 64 && some_where(before.tasks@, with_tid(tid)) ==> exists|k: int| {
            &&& first_where(before.tasks@, with_tid(tid), k)
            &&& (tgid as isize) == -1 ==> r == Ok::<isize, Errno>(0) && delivered(before.tasks@, after.tasks@, k,
                kill_info(Signal::of_signo(signo), SigCode::TKill, before.tasks@[k].tgid))
            &&& (tgid as isize) != -1 && before.tasks@[k].tgid != tgid ==> r == Err::<isize, Errno>(Errno::ESRCH)
                && after.tasks@ == before.tasks@
            &&& (tgid as isize) != -1 && before.tasks@[k].tgid == tgid ==> r == Ok::<isize, Errno>(0)
                && delivered(before.tasks@, after.tasks@, k,
                kill_info(Signal::of_signo(signo), SigCode::TKill, before.task().tgid))
        })
}

/// What `kill(pid, signo)` answers and does to the tasks of `before`, giving `after`.
pub open spec fn kill_outcome(before: Syscall, after: Syscall, pid: isize, signo: usize, r: SyscallResult) -> bool {
    &&& (signo > 64 ==> r == Err::<isize, Errno>(Errno::EINVAL) && after.tasks@ == before.tasks@)
    &&& (signo <= 64 && pid == 0 ==> {
            let p = group_member_allowed(before.task(), before.task().pgid);
            &&& !some_where(before.tasks@, p) ==> r == Err::<isize, Errno>(Errno::EPERM) && after.tasks@ == before.tasks@
            &&& some_where(before.tasks@, p) ==> r == Ok::<isize, Errno>(0) && exists|k: int| first_where(before.tasks@, p, k)
                && kill_hits(before.tasks@, after.tasks@, k, kill_signal(signo), before.task().pgid)
        })
    &&& (signo <= 64 && pid == -1 ==> {
            let p = leader_allowed(before.task());
            &&& !some_where(before.tasks@, p) ==> r == Err::<isize, Errno>(Errno::EPERM) && after.tasks@ == before.tasks@
            &&& some_where(before.tasks@, p) ==> r == Ok::<isize, Errno>(0) && exists|k: int| first_where(before.tasks@, p, k)
                && kill_hits(before.tasks@, after.tasks@, k, kill_signal(signo), before.tasks@[k].tgid)
        })
    &&& (signo <= 64 && pid > 0 ==> {
            let p = with_tid(pid as usize);
            &&& !some_where(before.tasks@, p) ==> r == Err::<isize, Errno>(Errno::ESRCH) && after.tasks@ == before.tasks@
            &&& some_where(before.tasks@, p) ==> exists|k: int| #![trigger first_where(before.tasks@, p, k)] {
                let t = before.tasks@[k];
                &&& first_where(before.tasks@, p, k)
                &&& t.tid != t.tgid ==> r == Err::<isize, Errno>(Errno::ESRCH) && after.tasks@ == before.tasks@
                &&& t.tid == t.tgid && !may_act_on(before.task().user_id, t.user_id)
                    ==> r == Err::<isize, Errno>(Errno::EPERM) && after.tasks@ == before.tasks@
                &&& t.tid == t.tgid && may_act_on(before.task().user_id, t.user_id)
                    ==> r == Ok::<isize, Errno>(0) && kill_hits(before.tasks@, after.tasks@, k, kill_signal(signo), t.tgid)
            }
        })
    &&& (signo <= 64 && pid < -1 ==> {
            let cur = before.task();
            let pg = (-pid) as usize;
            &&& !some_where(before.tasks@, group_member(pg)) ==> r == Err::<isize, Errno>(Errno::ESRCH)
                && after.tasks@ == before.tasks@
            &&& some_where(before.tasks@, group_member(pg)) && !some_where(before.tasks@, group_member_allowed(cur, pg))
                ==> r == Err::<isize, Errno>(Errno::EPERM) && after.tasks@ == before.tasks@
            &&& some_where(before.tasks@, group_member_allowed(cur, pg)) ==> r == Ok::<isize, Errno>(0)
                && kill_group_hits(before.tasks@, after.tasks@, cur, pg, kill_signal(signo), cur.pgid)
        })
}

/// `sigprocmask(SIG_SETMASK, set)` replaces the mask: afterwards a signal is
/// blocked exactly when `set` holds it and it is neither `SIGKILL` nor
/// `SIGCONT`, whatever was blocked before. Blocking (`SIG_BLOCK`) keeps every
/// blocked signal and adds those of `set`; unblocking (`SIG_UNBLOCK`) blocks
/// no signal that was not blocked and none of `set` but those two.
pub proof fn law_sigprocmask_masks(old_mask: SigMask, other_mask: SigMask, set: SigSet, i: int)
    ensures
        sigprocmask_bit(2, old_mask, set, i) == (set.has(i) && i != SigSet::offset(Signal::SIGKILL)
            && i != SigSet::offset(Signal::SIGCONT)),
        sigprocmask_bit(2, old_mask, set, i) == sigprocmask_bit(2, other_mask, set, i),
        old_mask.has(i) ==> sigprocmask_bit(0, old_mask, set, i),
        set.has(i) && i != SigSet::offset(Signal::SIGKILL) && i != SigSet::offset(Signal::SIGCONT)
            ==> sigprocmask_bit(0, old_mask, set, i) && !sigprocmask_bit(1, old_mask, set, i),
        !set.has(i) && !old_mask.has(i) ==> !sigprocmask_bit(0, old_mask, set, i),
        sigprocmask_bit(1, old_mask, set, i) ==> old_mask.has(i),
        old_mask.has(i) && !set.has(i) ==> sigprocmask_bit(1, old_mask, set, i),
{
}

/// `sigtimedwait(set)` takes a pending signal exactly when `set` holds it or
/// it is `SIGKILL` or `SIGSTOP`: the mask it waits with lets through those
/// signals and no other.
pub proof fn law_sigtimedwait_takes_set(set: SigSet, s: Signal)
    requires
        s.is_valid(),
    ensures
        accepts(waited_mask(set), s) == (set.has(SigSet::offset(s)) || s == Signal::SIGKILL || s == Signal::SIGSTOP),
{
    s.lemma_of_signo();
    let i = SigSet::offset(s);
    assert(0 <= i < 64);
    let iu = i as u64;
    crate::signal::sig_set::lemma_bit_not(set.bits | 0x40100u64, iu);
    crate::signal::sig_set::lemma_bit_or(set.bits, 0x40100u64, iu);
    assert(crate::signal::sig_set::bit_set(0x40100u64, iu) == (iu == 8 || iu == 18)) by (bit_vector)
        requires
            iu < 64;
}

} // verus!
