//! Which system call a task is making.
use vstd::prelude::*;
use crate::syscall::syscall_id::SyscallID;
use crate::task::Task;

verus! {

/// The system call that `task`, the task running on this core, is making;
/// `NO_SYSCALL` when no task runs.
pub fn current_syscall(task: Option<&Task>) -> (r: SyscallID)
    ensures
        task matches Some(t) ==> r == t.current_syscall,
        task.is_none() ==> r == SyscallID::NO_SYSCALL,
{
    match task {
        Some(t) => t.current_syscall,
        None => SyscallID::NO_SYSCALL,
    }
}

/// Records that `task` is making system call `syscall_id`.
pub fn update_current_syscall(task: &mut Task, syscall_id: SyscallID)
    ensures
        *final(task) == (Task { current_syscall: syscall_id, ..*old(task) }),
{
    task.current_syscall = syscall_id;
}

/// Records that `task` makes no system call.
pub fn clear_current_syscall(task: &mut Task)
    ensures
        *final(task) == (Task { current_syscall: SyscallID::NO_SYSCALL, ..*old(task) }),
{
    task.current_syscall = SyscallID::NO_SYSCALL;
}

} // verus!
