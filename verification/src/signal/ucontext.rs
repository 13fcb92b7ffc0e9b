//! User context saved when a signal handler runs.
use vstd::prelude::*;
use crate::signal::sig_set::SigMask;

verus! {

/// An alternate stack for signal handlers, as the user context records it.
#[derive(Clone, Copy, Debug, PartialEq, Eq, Structural)]
pub struct SigAltStack {
    /// Base of the stack.
    pub ss_sp: usize,
    /// Stack flags.
    pub ss_flags: i32,
    /// Stack size in bytes.
    pub ss_size: usize,
}

impl SigAltStack {
    /// An empty stack at address zero.
    pub fn new_bare() -> (r: SigAltStack)
        ensures
            r == (SigAltStack { ss_sp: 0, ss_flags: 0, ss_size: 0 }),
    {
        SigAltStack { ss_sp: 0usize, ss_flags: 0, ss_size: 0 }
    }

    /// The top of the stack: its base plus its size.
    pub fn stack_top(&self) -> (r: usize)
        requires
            self.ss_sp + self.ss_size <= usize::MAX,
        ensures
            r == self.ss_sp + self.ss_size,
    {
        self.ss_sp + self.ss_size
    }
}

/// Machine context: the registers that a signal return restores.
#[derive(Clone, Copy, Debug)]
pub struct MContext {
    /// General registers of user mode.
    pub user_x: [usize; 32],
    /// Floating point state, unused.
    pub fpstate: [usize; 66],
}

/// User context, laid out as musl expects it.
#[derive(Clone, Copy, Debug)]
pub struct UContext {
    pub uc_flags: usize,
    /// The context restored when this one returns.
    pub uc_link: usize,
    /// The stack of this context.
    pub uc_stack: SigAltStack,
    /// Signals blocked while this context runs.
    pub uc_sigmask: SigMask,
    /// Room kept for a larger signal set.
    pub uc_sig: [usize; 16],
    /// Machine context.
    pub uc_mcontext: MContext,
}

} // verus!
