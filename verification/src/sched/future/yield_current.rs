//! A future that gives way once to the other tasks.
use vstd::prelude::*;

verus! {

/// What a poll of a yielding future does.
#[derive(Clone, Copy, Debug, PartialEq, Eq, Structural)]
pub enum YieldPoll {
    /// Done.
    Ready,
    /// Wake the task at once and report that it is not done yet.
    WakeAndPend,
}

/// A future that is pending once, waking itself, and ready the next time.
pub struct YieldFuture {
    pub visited: bool,
}

impl YieldFuture {
    /// A future that has not been polled.
    pub fn new() -> (r: YieldFuture)
        ensures
            !r.visited,
    {
        YieldFuture { visited: false }
    }

    /// One poll: the first pends and asks for a wake-up, later ones are ready.
    pub fn poll(&mut self) -> (r: YieldPoll)
        ensures
            final(self).visited,
            r == if old(self).visited { YieldPoll::Ready } else { YieldPoll::WakeAndPend },
    {
        if self.visited {
            YieldPoll::Ready
        } else {
            self.visited = true;
            YieldPoll::WakeAndPend
        }
    }
}

} // verus!
