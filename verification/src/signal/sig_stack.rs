//! Alternate signal stack.
use vstd::prelude::*;

verus! {

/// An alternate stack for signal handlers.
#[derive(Clone, Copy, Debug, PartialEq, Eq, Structural)]
pub struct SigAltStack {
    /// Base of the stack.
    pub ss_sp: usize,
    /// Stack flags.
    pub ss_flags: i32,
    /// Stack size in bytes.
    pub ss_size: usize,
}

impl SigAltStack {
    /// An empty stack at address zero.
    pub fn new_bare() -> (r: SigAltStack)
        ensures
            r == (SigAltStack { ss_sp: 0, ss_flags: 0, ss_size: 0 }),
    {
        SigAltStack { ss_sp: 0usize, ss_flags: 0, ss_size: 0 }
    }

    /// The top of the stack: its base plus its size.
    pub fn stack_top(&self) -> (r: usize)
        requires
            self.ss_sp + self.ss_size <= usize::MAX,
        ensures
            r == self.ss_sp + self.ss_size,
    {
        self.ss_sp + self.ss_size
    }
}

impl Default for SigAltStack {
    fn default() -> (r: SigAltStack)
        ensures
            r == (SigAltStack { ss_sp: 0, ss_flags: 0, ss_size: 0 }),
    {
        SigAltStack::new_bare()
    }
}

} // verus!
