//! Signal sets and masks.
use vstd::prelude::*;
use crate::errno::{Errno, SysResult};
use crate::signal::signal::{Signal, NSIG};

verus! {

/// Whether bit `i` of `bits` is set.
pub open spec fn bit_set(bits: u64, i: u64) -> bool {
    (bits >> i) & 1u64 == 1u64
}

/// Number of set bits of `bits` among the positions below `n`.
pub open spec fn count_bits_below(bits: u64, n: nat) -> nat
    decreases n,
{
    if n == 0 {
        0
    } else {
        count_bits_below(bits, (n - 1) as nat) + if bit_set(bits, (n - 1) as u64) { 1nat } else { 0nat }
    }
}

/// Number of set bits of `bits`.
pub open spec fn count_ones(bits: u64) -> nat {
    count_bits_below(bits, 64)
}

pub proof fn lemma_bit_or(a: u64, b: u64, i: u64)
    requires
        i < 64,
    ensures
        bit_set(a | b, i) == (bit_set(a, i) || bit_set(b, i)),
{
    assert(((a | b) >> i) & 1u64 == 1u64 <==> ((a >> i) & 1u64 == 1u64 || (b >> i) & 1u64 == 1u64))
        by (bit_vector)
        requires
            i < 64,
    ;
}

pub proof fn lemma_bit_and(a: u64, b: u64, i: u64)
    requires
        i < 64,
    ensures
        bit_set(a & b, i) == (bit_set(a, i) && bit_set(b, i)),
{
    assert(((a & b) >> i) & 1u64 == 1u64 <==> ((a >> i) & 1u64 == 1u64 && (b >> i) & 1u64 == 1u64))
        by (bit_vector)
        requires
            i < 64,
    ;
}

pub proof fn lemma_bit_not(a: u64, i: u64)
    requires
        i < 64,
    ensures
        bit_set(!a, i) == !bit_set(a, i),
{
    assert(((!a) >> i) & 1u64 == 1u64 <==> !((a >> i) & 1u64 == 1u64)) by (bit_vector)
        requires
            i < 64,
    ;
}

pub proof fn lemma_bit_single(k: u64, i: u64)
    requires
        i < 64,
        k < 64,
    ensures
        bit_set(1u64 << k, i) == (i == k),
{
    assert((((1u64 << k) >> i) & 1u64 == 1u64) <==> (i == k)) by (bit_vector)
        requires
            i < 64,
            k < 64,
    ;
}

pub proof fn lemma_bit_zero(i: u64)
    ensures
        !bit_set(0u64, i),
{
    assert(!((0u64 >> i) & 1u64 == 1u64)) by (bit_vector);
}

/// A value with no set bit among the positions below `hi` is zero there.
proof fn lemma_nonzero_has_bit_below(a: u64, hi: u64) -> (i: u64)
    requires
        a != 0,
        hi <= 64,
        hi == 64 || a >> hi == 0,
    ensures
        i < hi,
        bit_set(a, i),
    decreases hi,
{
    if hi == 0 {
        assert(false) by (bit_vector)
            requires
                a != 0,
                a >> 0u64 == 0,
        ;
        0
    } else {
        let j = (hi - 1) as u64;
        if bit_set(a, j) {
            j
        } else {
            assert((a >> j) == 0) by (bit_vector)
                requires
                    j < 64,
                    (j + 1 == 64 || a >> ((j + 1) as u64) == 0),
                    !((a >> j) & 1u64 == 1u64),
            ;
            lemma_nonzero_has_bit_below(a, j)
        }
    }
}

/// A nonzero value has a set bit.
pub proof fn lemma_nonzero_has_bit(a: u64) -> (i: u64)
    requires
        a != 0,
    ensures
        i < 64,
        bit_set(a, i),
{
    lemma_nonzero_has_bit_below(a, 64)
}

/// A set of signals, one bit per signal: bit `n - 1` stands for signal `n`.
#[derive(PartialEq, Eq, Debug, Copy, Clone, Structural)]
pub struct SigSet {
    pub bits: u64,
}

/// A signal mask: the signals that are blocked.
pub type SigMask = SigSet;

/// What a short description of a signal set shows.
#[derive(PartialEq, Eq, Debug, Copy, Clone, Structural)]
pub enum SigSetSummary {
    /// No signal is in the set.
    Empty,
    /// Every signal is in the set.
    Full,
    /// The set, listed signal by signal.
    Listed(SigSet),
    /// The signals that are not in the set, listed signal by signal.
    Skip(SigSet),
}

impl SigSet {
    /// Whether the signal at bit offset `i` is in the set.
    pub open spec fn has(self, i: int) -> bool {
        0 <= i < 64 && bit_set(self.bits, i as u64)
    }

    /// The raw bits of the set.
    pub open spec fn spec_bits(&self) -> u64 {
        self.bits
    }

    /// The bit offset of signal `s` in a set.
    pub open spec fn offset(s: Signal) -> int {
        s.signo() - 1
    }

    /// Whether signal `s` is in the set.
    pub open spec fn has_signal(self, s: Signal) -> bool {
        s.is_valid() && self.has(SigSet::offset(s))
    }

    /// The set of signals whose bits are given; every bit stands for a signal.
    pub open spec fn from_spec_bits(bits: u64) -> SigSet {
        SigSet { bits }
    }

    /// The raw bits of the set.
    #[verifier::when_used_as_spec(spec_bits)]
    pub fn bits(&self) -> (r: u64)
        ensures
            r == self.spec_bits(),
    {
        self.bits
    }

    /// The empty set.
    pub fn empty() -> (r: SigSet)
        ensures
            r.spec_bits() == 0,
            forall|i: int| !r.has(i),
    {
        proof {
            assert forall|i: int| !(SigSet { bits: 0 }).has(i) by {
                if 0 <= i < 64 {
                    lemma_bit_zero(i as u64);
                }
            }
        }
        SigSet { bits: 0 }
    }

    /// The set of all signals.
    pub fn all() -> (r: SigSet)
        ensures
            r.spec_bits() == 0xffff_ffff_ffff_ffffu64,
            forall|i: int| 0 <= i < 64 ==> r.has(i),
    {
        proof {
            assert forall|i: int| 0 <= i < 64 implies (SigSet { bits: 0xffff_ffff_ffff_ffffu64 }).has(i) by {
                let j = i as u64;
                assert((0xffff_ffff_ffff_ffffu64 >> j) & 1u64 == 1u64) by (bit_vector)
                    requires
                        j < 64,
                ;
            }
        }
        SigSet { bits: 0xffff_ffff_ffff_ffffu64 }
    }

    /// The set whose bits are `bits`; every bit stands for a signal, so none is dropped.
    pub fn from_bits_truncate(bits: u64) -> (r: SigSet)
        ensures
            r.spec_bits() == bits,
    {
        SigSet { bits }
    }

    /// The set whose bits are `bits`.
    pub fn from_bits(bits: u64) -> (r: Option<SigSet>)
        ensures
            r == Some(SigSet::from_spec_bits(bits)),
    {
        Some(SigSet { bits })
    }

    /// The set holding only the signal at bit offset `index`.
    pub fn from_raw_signo(index: usize) -> (r: SigSet)
        requires
            index < NSIG,
        ensures
            r.spec_bits() == 1u64 << (index as u64),
            forall|i: int| r.has(i) <==> i == index,
    {
        let k = index as u64;
        let r = SigSet { bits: 1u64 << k };
        proof {
            assert forall|i: int| r.has(i) <==> i == index by {
                if 0 <= i < 64 {
                    lemma_bit_single(k, i as u64);
                }
            }
        }
        r
    }

    /// Whether the set is empty.
    pub fn is_empty(&self) -> (r: bool)
        ensures
            r == (self.spec_bits() == 0),
            r == (forall|i: int| !self.has(i)),
    {
        proof {
            if self.bits == 0 {
                assert forall|i: int| !self.has(i) by {
                    if 0 <= i < 64 {
                        lemma_bit_zero(i as u64);
                    }
                }
            } else {
                let i = lemma_nonzero_has_bit(self.bits);
                assert(self.has(i as int));
            }
        }
        self.bits == 0
    }

    /// The signals in either set.
    pub fn union(self, other: SigSet) -> (r: SigSet)
        ensures
            r.spec_bits() == self.spec_bits() | other.spec_bits(),
            forall|i: int| r.has(i) == (self.has(i) || other.has(i)),
    {
        let r = SigSet { bits: self.bits | other.bits };
        proof {
            assert forall|i: int| r.has(i) == (self.has(i) || other.has(i)) by {
                if 0 <= i < 64 {
                    lemma_bit_or(self.bits, other.bits, i as u64);
                }
            }
        }
        r
    }

    /// The signals in both sets.
    pub fn intersection(self, other: SigSet) -> (r: SigSet)
        ensures
            r.spec_bits() == self.spec_bits() & other.spec_bits(),
            forall|i: int| r.has(i) == (self.has(i) && other.has(i)),
    {
        let r = SigSet { bits: self.bits & other.bits };
        proof {
            assert forall|i: int| r.has(i) == (self.has(i) && other.has(i)) by {
                if 0 <= i < 64 {
                    lemma_bit_and(self.bits, other.bits, i as u64);
                }
            }
        }
        r
    }

    /// The signals that are not in the set.
    pub fn complement(self) -> (r: SigSet)
        ensures
            r.spec_bits() == !self.spec_bits(),
            forall|i: int| 0 <= i < 64 ==> r.has(i) == !self.has(i),
    {
        let r = SigSet { bits: !self.bits };
        proof {
            assert forall|i: int| 0 <= i < 64 implies r.has(i) == !self.has(i) by {
                lemma_bit_not(self.bits, i as u64);
            }
        }
        r
    }

    /// The signals of this set that are not in `other`.
    pub fn difference(self, other: SigSet) -> (r: SigSet)
        ensures
            r.spec_bits() == self.spec_bits() & !other.spec_bits(),
            forall|i: int| r.has(i) == (self.has(i) && !other.has(i)),
    {
        let r = SigSet { bits: self.bits & !other.bits };
        proof {
            assert forall|i: int| r.has(i) == (self.has(i) && !other.has(i)) by {
                if 0 <= i < 64 {
                    lemma_bit_and(self.bits, !other.bits, i as u64);
                    lemma_bit_not(other.bits, i as u64);
                }
            }
        }
        r
    }

    /// Whether every signal of `other` is in this set.
    pub fn contains(&self, other: SigSet) -> (r: bool)
        ensures
            r == (self.spec_bits() & other.spec_bits() == other.spec_bits()),
            r == (forall|i: int| other.has(i) ==> self.has(i)),
    {
        let a = self.bits;
        let b = other.bits;
        let r = a & b == b;
        proof {
            if r {
                assert forall|i: int| other.has(i) implies self.has(i) by {
                    lemma_bit_and(a, b, i as u64);
                }
            } else {
                assert((a & b) ^ b != 0) by (bit_vector)
                    requires
                        a & b != b,
                ;
                let i = lemma_nonzero_has_bit((a & b) ^ b);
                assert(bit_set(b, i) && !bit_set(a, i)) by (bit_vector)
                    requires
                        ((((a & b) ^ b) >> i) & 1u64 == 1u64),
                ;
                assert(other.has(i as int) && !self.has(i as int));
            }
        }
        r
    }

    /// Adds the signals of `other`.
    pub fn insert(&mut self, other: SigSet)
        ensures
            final(self).spec_bits() == old(self).spec_bits() | other.spec_bits(),
            forall|i: int| final(self).has(i) == (old(self).has(i) || other.has(i)),
    {
        let old_set = *self;
        *self = old_set.union(other);
    }

    /// Removes the signals of `other`.
    pub fn remove(&mut self, other: SigSet)
        ensures
            final(self).spec_bits() == old(self).spec_bits() & !other.spec_bits(),
            forall|i: int| final(self).has(i) == (old(self).has(i) && !other.has(i)),
    {
        let old_set = *self;
        *self = old_set.difference(other);
    }

    /// `SIGKILL` and `SIGSTOP`, which can be neither blocked nor caught.
    pub fn blocked() -> (r: SigSet)
        ensures
            r.spec_bits() == 0x40100u64,
            forall|i: int| r.has(i) <==> (i == 8 || i == 18),
    {
        let r = SigSet { bits: 0x40100u64 };
        proof {
            assert forall|i: int| r.has(i) <==> (i == 8 || i == 18) by {
                if 0 <= i < 64 {
                    let j = i as u64;
                    assert(((0x40100u64 >> j) & 1u64 == 1u64) <==> (j == 8 || j == 18)) by (bit_vector)
                        requires
                            j < 64,
                    ;
                }
            }
        }
        r
    }

    /// The set without `SIGKILL` and `SIGSTOP`.
    pub fn without_kill(self) -> (r: SigSet)
        ensures
            r.spec_bits() == self.spec_bits() & !0x40100u64,
            forall|i: int| r.has(i) == (self.has(i) && i != 8 && i != 18),
    {
        self.difference(SigSet::blocked())
    }

    /// The set with `SIGKILL` and `SIGSTOP` added.
    pub fn with_kill(self) -> (r: SigSet)
        ensures
            r.spec_bits() == self.spec_bits() | 0x40100u64,
            forall|i: int| r.has(i) == (self.has(i) || i == 8 || i == 18),
    {
        self.union(SigSet::blocked())
    }

    /// The set holding only `signal`; `EINVAL` for `SIGINVAL`, which has no bit.
    pub fn try_from_signal(signal: Signal) -> (r: SysResult<SigSet>)
        ensures
            !signal.is_valid() ==> r == Err::<SigSet, Errno>(Errno::EINVAL),
            signal.is_valid() ==> (r matches Ok(m) && forall|i: int| m.has(i) <==> i == SigSet::offset(signal)),
    {
        if signal.raw() == 0 {
            return Err(Errno::EINVAL);
        }
        let offset = signal.into_sigmask_offset();
        Ok(SigSet::from_raw_signo(offset))
    }

    /// Adds `signal`; `EINVAL` and no change for `SIGINVAL`.
    pub fn enable_checked(&mut self, signal: Signal) -> (r: SysResult<()>)
        ensures
            !signal.is_valid() ==> r == Err::<(), Errno>(Errno::EINVAL) && *final(self) == *old(self),
            signal.is_valid() ==> r == Ok::<(), Errno>(()),
            forall|i: int| final(self).has(i) == (old(self).has(i) || (signal.is_valid() && i == SigSet::offset(signal))),
    {
        match SigSet::try_from_signal(signal) {
            Ok(bit) => {
                let old_set = *self;
                *self = old_set.union(bit);
                Ok(())
            },
            Err(e) => Err(e),
        }
    }

    /// Adds `signal`; `SIGINVAL` leaves the set as it is.
    pub fn enable(&mut self, signal: Signal)
        ensures
            forall|i: int| final(self).has(i) == (old(self).has(i) || (signal.is_valid() && i == SigSet::offset(signal))),
    {
        let _ = self.enable_checked(signal);
    }

    /// Removes `signal`; `EINVAL` and no change for `SIGINVAL`.
    pub fn disable(&mut self, signal: Signal) -> (r: SysResult<()>)
        ensures
            !signal.is_valid() ==> r == Err::<(), Errno>(Errno::EINVAL) && *final(self) == *old(self),
            signal.is_valid() ==> r == Ok::<(), Errno>(()),
            forall|i: int| final(self).has(i) == (old(self).has(i) && !(signal.is_valid() && i == SigSet::offset(signal))),
    {
        match SigSet::try_from_signal(signal) {
            Ok(bit) => {
                let old_set = *self;
                *self = old_set.difference(bit);
                Ok(())
            },
            Err(e) => Err(e),
        }
    }

    /// Whether `signal` is in the set.
    pub fn contains_signal(&self, signal: Signal) -> (r: bool)
        requires
            signal.is_valid(),
        ensures
            r == self.has_signal(signal),
    {
        let offset = signal.into_sigmask_offset();
        self.contains(SigSet::from_raw_signo(offset))
    }

    /// The number of signals in the set.
    pub fn count(&self) -> (r: u32)
        ensures
            r == count_ones(self.spec_bits()),
    {
        let mut n: u32 = 0;
        let mut i: u64 = 0;
        while i < 64
            invariant
                i <= 64,
                n == count_bits_below(self.bits, i as nat),
                n <= i,
            decreases 64 - i,
        {
            if (self.bits >> i) & 1u64 == 1u64 {
                n = n + 1;
            }
            i = i + 1;
        }
        n
    }

    /// How a short description shows the set: empty, full, by its signals,
    /// or by the signals it lacks, whichever of the last two is shorter.
    pub fn debug_summary(&self) -> (r: SigSetSummary)
        ensures
            count_ones(self.spec_bits()) == 0 ==> r == SigSetSummary::Empty,
            count_ones(self.spec_bits()) != 0 && count_ones(!self.spec_bits()) == 0 ==> r == SigSetSummary::Full,
            count_ones(self.spec_bits()) != 0 && count_ones(!self.spec_bits()) != 0
                && count_ones(self.spec_bits()) < count_ones(!self.spec_bits()) ==> r == SigSetSummary::Listed(*self),
            count_ones(self.spec_bits()) != 0 && count_ones(!self.spec_bits()) != 0
                && count_ones(self.spec_bits()) >= count_ones(!self.spec_bits())
                ==> r == SigSetSummary::Skip(SigSet::from_spec_bits(!self.spec_bits())),
    {
        let mask_size = self.count();
        let rev = self.complement();
        let rev_size = rev.count();
        if mask_size == 0 {
            SigSetSummary::Empty
        } else if rev_size == 0 {
            SigSetSummary::Full
        } else if mask_size < rev_size {
            SigSetSummary::Listed(*self)
        } else {
            SigSetSummary::Skip(rev)
        }
    }
}

impl Signal {
    /// The mask holding only this signal; `EINVAL` for `SIGINVAL`.
    pub fn try_into(self) -> (r: SysResult<SigMask>)
        ensures
            !self.is_valid() ==> r == Err::<SigSet, Errno>(Errno::EINVAL),
            self.is_valid() ==> (r matches Ok(m) && forall|i: int| m.has(i) <==> i == SigSet::offset(self)),
    {
        SigSet::try_from_signal(self)
    }
}

} // verus!
