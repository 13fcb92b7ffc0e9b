//! Pending signals of a task.
use vstd::prelude::*;
use std::collections::VecDeque;
use crate::signal::sig_info::SigInfo;
use crate::signal::sig_set::{SigMask, SigSet};
use crate::signal::signal::Signal;

verus! {

/// Whether a task with mask `mask` takes signal `s` now: a signal is taken
/// unless it is masked, and `SIGKILL` and `SIGSTOP` cannot be masked.
pub open spec fn accepts(mask: SigSet, s: Signal) -> bool {
    !(mask.has(SigSet::offset(s)) && SigSet::offset(s) != 8 && SigSet::offset(s) != 18)
}

/// Index of the first signal of `q`, from `from` on, that mask `mask` lets through.
pub open spec fn first_accepted(q: Seq<SigInfo>, mask: SigSet, k: int) -> bool {
    &&& 0 <= k < q.len()
    &&& accepts(mask, q[k].signal)
    &&& forall|j: int| 0 <= j < k ==> !accepts(mask, #[trigger] q[j].signal)
}

/// Pending signals of a task. A masked signal stays pending until it is unmasked.
/// A signal is queued at most once.
pub struct SigPending {
    /// Signal mask of the task.
    pub sig_mask: SigMask,
    /// Pending signals, in the order they came.
    pub queue: VecDeque<SigInfo>,
    /// The signals in the queue.
    pub pending_set: SigSet,
    /// Signals that should wake the task.
    pub should_wake: SigSet,
}

impl SigPending {
    /// The queue holds valid signals, none twice, and `pending_set` holds exactly them.
    pub open spec fn wf(&self) -> bool {
        &&& forall|i: int| 0 <= i < self.queue@.len() ==> (#[trigger] self.queue@[i]).signal.is_valid()
        &&& forall|i: int| 0 <= i < self.queue@.len() ==> self.pending_set.has(SigSet::offset(#[trigger] self.queue@[i].signal))
        &&& forall|k: int| #[trigger] self.pending_set.has(k) ==> exists|i: int| 0 <= i < self.queue@.len() && SigSet::offset(#[trigger] self.queue@[i].signal) == k
        &&& forall|i: int, j: int| 0 <= i < self.queue@.len() && 0 <= j < self.queue@.len() && i != j
            ==> (#[trigger] self.queue@[i]).signal != (#[trigger] self.queue@[j]).signal
    }

    /// No signal pending, no mask.
    pub fn new() -> (r: SigPending)
        ensures
            r.wf(),
            r.queue@.len() == 0,
            r.pending_set.spec_bits() == 0,
            r.sig_mask.spec_bits() == 0,
            r.should_wake.spec_bits() == 0,
    {
        SigPending {
            sig_mask: SigSet::empty(),
            queue: VecDeque::new(),
            pending_set: SigSet::empty(),
            should_wake: SigSet::empty(),
        }
    }

    /// Whether no signal is pending.
    pub fn is_empty(&self) -> (r: bool)
        ensures
            r == (self.queue@.len() == 0),
    {
        self.queue.len() == 0
    }

    /// Queues a signal, unless the same signal is already pending.
    pub fn push(&mut self, sig_info: SigInfo)
        requires
            old(self).wf(),
            sig_info.signal.is_valid(),
        ensures
            final(self).wf(),
            final(self).sig_mask == old(self).sig_mask,
            final(self).should_wake == old(self).should_wake,
            old(self).pending_set.has_signal(sig_info.signal) ==> {
                &&& final(self).queue@ == old(self).queue@
                &&& final(self).pending_set == old(self).pending_set
            },
            !old(self).pending_set.has_signal(sig_info.signal) ==> {
                &&& final(self).queue@ == old(self).queue@.push(sig_info)
                &&& forall|k: int| final(self).pending_set.has(k) == (old(self).pending_set.has(k) || k == SigSet::offset(sig_info.signal))
            },
    {
        let signal = sig_info.signal;
        if !self.pending_set.contains_signal(signal) {
            let ghost old_q = self.queue@;
            self.pending_set.enable(signal);
            self.queue.push_back(sig_info);
            proof {
                let q = self.queue@;
                assert(q[old_q.len() as int] == sig_info);
                assert forall|i: int, j: int| 0 <= i < q.len() && 0 <= j < q.len() && i != j
                    implies (#[trigger] q[i]).signal != (#[trigger] q[j]).signal by {
                    if i < old_q.len() && j < old_q.len() {
                        assert(old_q[i] == q[i] && old_q[j] == q[j]);
                    } else if i < old_q.len() {
                        assert(old_q[i] == q[i]);
                        assert(old(self).pending_set.has(SigSet::offset(old_q[i].signal)));
                    } else {
                        assert(old_q[j] == q[j]);
                        assert(old(self).pending_set.has(SigSet::offset(old_q[j].signal)));
                    }
                }
                assert forall|k: int| #[trigger] self.pending_set.has(k) implies exists|i: int| 0 <= i < q.len() && SigSet::offset(#[trigger] q[i].signal) == k by {
                    if k == SigSet::offset(signal) {
                        assert(SigSet::offset(q[old_q.len() as int].signal) == k);
                    } else {
                        assert(old(self).pending_set.has(k));
                        let i = choose|i: int| 0 <= i < old_q.len() && SigSet::offset(#[trigger] old_q[i].signal) == k;
                        assert(q[i] == old_q[i]);
                    }
                }
                assert forall|i: int| 0 <= i < q.len() implies self.pending_set.has(SigSet::offset(#[trigger] q[i].signal)) by {
                    if i < old_q.len() {
                        assert(q[i] == old_q[i]);
                    }
                }
                assert forall|i: int| 0 <= i < q.len() implies (#[trigger] q[i]).signal.is_valid() by {
                    if i < old_q.len() {
                        assert(q[i] == old_q[i]);
                    }
                }
            }
        }
    }

    /// Takes out the first pending signal that `mask` lets through
    /// (`SIGKILL` and `SIGSTOP` always go through); `None` if there is none.
    #[verifier::rlimit(40)]
    pub fn pop_with_mask(&mut self, mask: SigMask) -> (r: Option<SigInfo>)
        requires
            old(self).wf(),
        ensures
            final(self).wf(),
            final(self).sig_mask == old(self).sig_mask,
            final(self).should_wake == old(self).should_wake,
            r.is_none() ==> {
                &&& forall|i: int| 0 <= i < old(self).queue@.len() ==> !accepts(mask, #[trigger] old(self).queue@[i].signal)
                &&& *final(self) == *old(self)
                &&& final(self).queue@ == old(self).queue@
                &&& final(self).pending_set == old(self).pending_set
            },
            r matches Some(si) ==> exists|k: int| {
                &&& first_accepted(old(self).queue@, mask, k)
                &&& si == old(self).queue@[k]
                &&& final(self).queue@ == old(self).queue@.remove(k)
                &&& forall|b: int| final(self).pending_set.has(b) == (old(self).pending_set.has(b) && b != SigSet::offset(si.signal))
            },
    {
        let accept_set = self.pending_set.intersection(mask.without_kill().complement());
        proof {
            assert forall|i: int| 0 <= i < self.queue@.len() implies
                accept_set.has(SigSet::offset(#[trigger] self.queue@[i].signal)) == accepts(mask, self.queue@[i].signal) by {
                let s = self.queue@[i].signal;
                s.lemma_of_signo();
            }
        }
        if accept_set.is_empty() {
            return None;
        }
        let len = self.queue.len();
        let mut i: usize = 0;
        while i < len
            invariant
                self.wf(),
                self == old(self),
                len == self.queue@.len(),
                i <= len,
                forall|j: int| 0 <= j < self.queue@.len() ==>
                    accept_set.has(SigSet::offset(#[trigger] self.queue@[j].signal)) == accepts(mask, self.queue@[j].signal),
                forall|j: int| 0 <= j < i ==> !accepts(mask, #[trigger] self.queue@[j].signal),
            decreases len - i,
        {
            let signal = self.queue[i].signal;
            proof { signal.lemma_of_signo(); }
            if accept_set.contains_signal(signal) {
                let ghost old_q = self.queue@;
                let ghost k = i as int;
                let _ = self.pending_set.disable(signal);
                let r = self.queue.remove(i);
                proof {
                    let q = self.queue@;
                    assert(first_accepted(old_q, mask, k));
                    assert forall|a: int| 0 <= a < q.len() implies (#[trigger] q[a]).signal.is_valid()
                        && self.pending_set.has(SigSet::offset(q[a].signal)) by {
                        if a < k {
                            assert(q[a] == old_q[a]);
                        } else {
                            assert(q[a] == old_q[a + 1]);
                        }
                        let oa = if a < k { a } else { a + 1 };
                        assert(old_q[oa].signal != old_q[k].signal);
                        old_q[oa].signal.lemma_of_signo();
                        old_q[k].signal.lemma_of_signo();
                    }
                    assert forall|a: int| 0 <= a < q.len() implies self.pending_set.has(SigSet::offset(#[trigger] q[a].signal)) by {
                        assert(q[a].signal.is_valid() && self.pending_set.has(SigSet::offset(q[a].signal)));
                    }
                    assert forall|b: int| #[trigger] self.pending_set.has(b) implies exists|a: int| 0 <= a < q.len() && SigSet::offset(#[trigger] q[a].signal) == b by {
                        let a0 = choose|a: int| 0 <= a < old_q.len() && SigSet::offset(#[trigger] old_q[a].signal) == b;
                        assert(a0 != k);
                        if a0 < k {
                            assert(q[a0] == old_q[a0]);
                        } else {
                            assert(q[a0 - 1] == old_q[a0]);
                        }
                    }
                    assert forall|a: int, c: int| 0 <= a < q.len() && 0 <= c < q.len() && a != c
                        implies (#[trigger] q[a]).signal != (#[trigger] q[c]).signal by {
                        let oa = if a < k { a } else { a + 1 };
                        let oc = if c < k { c } else { c + 1 };
                        assert(q[a] == old_q[oa]);
                        assert(q[c] == old_q[oc]);
                    }
                }
                return r;
            }
            i = i + 1;
        }
        None
    }
}

/// A signal queued on a task with nothing pending is the next one it takes,
/// whatever its mask, when the mask lets it through.
pub proof fn law_push_then_pop(before: SigPending, after_push: SigPending, info: SigInfo, mask: SigSet)
    requires
        before.wf(),
        before.queue@.len() == 0,
        after_push.queue@ == before.queue@.push(info),
        accepts(mask, info.signal),
    ensures
        first_accepted(after_push.queue@, mask, 0),
        after_push.queue@[0] == info,
{
}

/// A pending signal that the mask blocks stays pending, unless it is
/// `SIGKILL` or `SIGSTOP`, which no mask blocks; a signal that the mask does
/// not hold is taken.
pub proof fn law_masked_signal_waits(mask: SigSet, s: Signal)
    requires
        s.is_valid(),
    ensures
        mask.has(SigSet::offset(s)) && s != Signal::SIGKILL && s != Signal::SIGSTOP ==> !accepts(mask, s),
        s == Signal::SIGKILL || s == Signal::SIGSTOP ==> accepts(mask, s),
        !mask.has(SigSet::offset(s)) ==> accepts(mask, s),
{
    s.lemma_of_signo();
}

} // verus!
