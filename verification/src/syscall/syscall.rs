//! The system call context and the conversion of results for user space.
use vstd::prelude::*;
use crate::errno::{errno_code, Errno, SyscallResult};
use crate::task::Task;

verus! {

/// A system call made by one task, with all tasks of the kernel at hand.
pub struct Syscall {
    /// All tasks, as the task manager holds them.
    pub tasks: Vec<Task>,
    /// Index in `tasks` of the calling task.
    pub current: usize,
}

impl Syscall {
    /// The calling task exists and every task is well formed.
    pub open spec fn wf(&self) -> bool {
        &&& self.current < self.tasks@.len()
        &&& forall|i: int| 0 <= i < self.tasks@.len() ==> (#[trigger] self.tasks@[i]).wf()
    }

    /// The calling task.
    pub open spec fn task(&self) -> Task {
        self.tasks@[self.current as int]
    }

    /// The call changed the calling task into `t` and left the others alone.
    pub open spec fn current_becomes(&self, old: Syscall, t: Task) -> bool {
        &&& self.current == old.current
        &&& self.tasks@ == old.tasks@.update(old.current as int, t)
    }

    /// Changing only the calling task, into a well-formed task, keeps the call well formed.
    pub proof fn lemma_current_change_keeps_wf(&self, old: Syscall, t: Task)
        requires
            old.wf(),
            t.wf(),
            self.current_becomes(old, t),
        ensures
            self.wf(),
    {
        assert forall|i: int| 0 <= i < self.tasks@.len() implies (#[trigger] self.tasks@[i]).wf() by {
            assert(old.tasks@[i].wf());
        }
    }

    /// Leaving every task as it is is a change of the calling task into itself.
    pub proof fn lemma_unchanged(&self)
        requires
            self.wf(),
        ensures
            self.current_becomes(*self, self.task()),
    {
        assert(self.tasks@.update(self.current as int, self.task()) =~= self.tasks@);
    }

    /// A call made by task `current` of `tasks`.
    pub fn new(tasks: Vec<Task>, current: usize) -> (r: Syscall)
        requires
            current < tasks@.len(),
        ensures
            r.tasks@ == tasks@,
            r.current == current,
    {
        Syscall { tasks, current }
    }

    /// A call that does nothing and returns `res`.
    pub fn empty_syscall(_name: &str, res: isize) -> (r: SyscallResult)
        ensures
            r == Ok::<isize, Errno>(res),
    {
        Ok(res)
    }

    /// Index of the first task with thread ID `tid`.
    pub fn find_task(&self, tid: usize) -> (r: Option<usize>)
        ensures
            r matches Some(i) ==> i < self.tasks@.len() && self.tasks@[i as int].tid == tid
                && forall|j: int| 0 <= j < i ==> (#[trigger] self.tasks@[j]).tid != tid,
            r.is_none() ==> forall|j: int| 0 <= j < self.tasks@.len() ==> (#[trigger] self.tasks@[j]).tid != tid,
    {
        let mut i: usize = 0;
        while i < self.tasks.len()
            invariant
                i <= self.tasks@.len(),
                forall|j: int| 0 <= j < i ==> (#[trigger] self.tasks@[j]).tid != tid,
            decreases self.tasks@.len() - i,
        {
            if self.tasks[i].tid == tid {
                return Some(i);
            }
            i = i + 1;
        }
        None
    }
}

/// The value a system call result hands to user space: the value, or the
/// negated error number.
pub open spec fn syscall_return_value(res: SyscallResult) -> isize {
    match res {
        Ok(v) => v,
        Err(e) => (-errno_code(e)) as isize,
    }
}

/// The value a system call result hands to user space.
pub fn get_syscall_result(res: SyscallResult) -> (r: isize)
    ensures
        r == syscall_return_value(res),
{
    match res {
        Ok(res) => res,
        Err(errno) => {
            let errno: isize = errno.code();
            match errno > 0 {
                true => -errno,
                false => errno,
            }
        },
    }
}

} // verus!
