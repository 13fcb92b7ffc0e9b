//! The future that runs a user task.
use vstd::prelude::*;

verus! {

/// A user task together with the future that runs it.
pub struct UserTaskFuture<T, F> {
    pub task: T,
    pub future: F,
}

impl<T, F> UserTaskFuture<T, F> {
    /// Pairs task `task` with its future `future`.
    pub fn new(task: T, future: F) -> (r: UserTaskFuture<T, F>)
        ensures
            r.task == task,
            r.future == future,
    {
        UserTaskFuture { task, future }
    }
}

} // verus!
