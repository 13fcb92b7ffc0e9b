//! The signal action list of a task, addressed by action index.
use vstd::prelude::*;
use crate::signal::sig_action::{default_action, init_default_actions, KSigAction};
use crate::signal::signal::{Signal, MAX_SIGNUM};

verus! {

/// Signal action list of a task: entry `i` is the action of signal `i + 1`.
pub struct SigActionList {
    pub actions: [KSigAction; MAX_SIGNUM],
}

impl SigActionList {
    /// The default action of every signal.
    pub fn new() -> (r: SigActionList)
        ensures
            forall|i: int| 0 <= i < MAX_SIGNUM ==> r.actions@[i] == default_action(Signal::of_signo((i + 1) as usize)),
    {
        SigActionList { actions: init_default_actions() }
    }

    /// Sets the action at index `signum`.
    pub fn set_sigaction(&mut self, signum: usize, action: KSigAction)
        requires
            signum < MAX_SIGNUM,
        ensures
            final(self).actions@ == old(self).actions@.update(signum as int, action),
    {
        self.actions[signum] = action;
    }

    /// The action at index `signum`, if there is one.
    pub fn get(&self, signum: usize) -> (r: Option<&KSigAction>)
        ensures
            signum < MAX_SIGNUM ==> r == Some(&self.actions@[signum as int]),
            signum >= MAX_SIGNUM ==> r.is_none(),
    {
        if signum < MAX_SIGNUM {
            Some(&self.actions[signum])
        } else {
            None
        }
    }
}

} // verus!
