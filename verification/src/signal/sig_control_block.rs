//! The signal state of a task in one place.
use vstd::prelude::*;
use crate::signal::sig_action::{default_action, SigActionList};
use crate::signal::sig_pending::SigPending;
use crate::signal::sig_set::{SigMask, SigSet};
use crate::signal::signal::{Signal, MAX_SIGNUM};

verus! {

/// Pending signals, signal actions and signal mask of a task.
pub struct SignalControlBlock {
    /// Signals not yet handled.
    pub pending_sigs: SigPending,
    /// Handlers of the signals; a thread starts with those of its creator.
    pub sa_list: SigActionList,
    /// Blocked signals.
    pub sig_mask: SigMask,
}

impl SignalControlBlock {
    /// Nothing pending, nothing blocked, and the actions of `sa_list` when
    /// given, else the default action of every signal.
    pub fn new(sa_list: Option<&SigActionList>) -> (r: SignalControlBlock)
        ensures
            r.pending_sigs.wf(),
            r.pending_sigs.queue@.len() == 0,
            r.sig_mask.spec_bits() == 0,
            sa_list matches Some(l) ==> r.sa_list == *l,
            sa_list.is_none() ==> forall|i: int| 0 <= i < MAX_SIGNUM
                ==> r.sa_list.actions@[i] == default_action(Signal::of_signo((i + 1) as usize)),
    {
        SignalControlBlock {
            pending_sigs: SigPending::new(),
            sa_list: match sa_list {
                Some(l) => *l,
                None => SigActionList::new(),
            },
            sig_mask: SigSet::empty(),
        }
    }
}

} // verus!
