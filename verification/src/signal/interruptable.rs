//! Masks of an interruptible wait: the mask a task waits with and the
//! signals that wake it.
use vstd::prelude::*;
use crate::signal::sig_set::{SigMask, SigSet};

verus! {

/// The mask and the wake set of an interruptible wait. The mask is `new_mask`
/// without `SIGKILL` and `SIGSTOP` if one is given, else `current`; a signal
/// wakes the task if it is neither masked nor ignored, or if it is in `wake_set`.
pub fn interruptable_masks(current: SigMask, new_mask: Option<SigMask>, ignored: SigSet, wake_set: Option<SigSet>) -> (r: (SigMask, SigSet))
    ensures
        new_mask.is_none() ==> r.0 == current,
        new_mask matches Some(m) ==> forall|i: int| r.0.has(i) == (m.has(i) && i != 8 && i != 18),
        forall|i: int| 0 <= i < 64 ==> r.1.has(i) == ((!r.0.has(i) && !ignored.has(i))
            || (wake_set matches Some(w) && w.has(i))),
{
    let mask = match new_mask {
        Some(m) => m.without_kill(),
        None => current,
    };
    let extra = match wake_set {
        Some(w) => w,
        None => SigSet::empty(),
    };
    let wake = mask.union(ignored).complement().union(extra);
    (mask, wake)
}

} // verus!
