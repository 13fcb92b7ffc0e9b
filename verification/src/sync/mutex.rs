//! Interrupt bookkeeping of spin locks: the outermost lock of a core turns
//! interrupts off and its release turns them back on if they were on.
use vstd::prelude::*;

verus! {

/// Per-core record of held locks.
#[derive(Debug, Default, Clone, Copy, PartialEq, Eq, Structural)]
pub struct MutexTracer {
    /// Number of locks held.
    pub depth: i32,
    /// Whether interrupts were on before the outermost lock.
    pub int_record: bool,
}

impl MutexTracer {
    /// No lock held.
    pub fn new() -> (r: MutexTracer)
        ensures
            r == (MutexTracer { depth: 0, int_record: false }),
    {
        MutexTracer { depth: 0, int_record: false }
    }
}

/// The record after taking a lock while interrupts were `was_enabled`.
pub open spec fn lock_step(t: MutexTracer, was_enabled: bool) -> MutexTracer {
    MutexTracer {
        depth: (t.depth + 1) as i32,
        int_record: if t.depth == 0 { was_enabled } else { t.int_record },
    }
}

/// The record after releasing a lock.
pub open spec fn unlock_step(t: MutexTracer) -> MutexTracer {
    MutexTracer { depth: (t.depth - 1) as i32, ..t }
}

/// Whether releasing a lock from record `t` turns interrupts back on.
pub open spec fn unlock_enables(t: MutexTracer) -> bool {
    t.depth - 1 == 0 && t.int_record
}

/// Lock action that turns interrupts off while a lock is held.
pub struct NoIrqLockAction;

impl NoIrqLockAction {
    /// Records taking a lock; interrupts were `was_enabled` and are now off.
    pub fn before_lock(cpu: &mut MutexTracer, was_enabled: bool)
        requires
            old(cpu).depth < i32::MAX,
        ensures
            *final(cpu) == lock_step(*old(cpu), was_enabled),
    {
        if cpu.depth == 0 {
            cpu.int_record = was_enabled;
        }
        cpu.depth = cpu.depth + 1;
    }

    /// Records releasing a lock; returns whether interrupts are to be turned on.
    pub fn after_lock(cpu: &mut MutexTracer) -> (should_enable: bool)
        requires
            old(cpu).depth > i32::MIN,
        ensures
            *final(cpu) == unlock_step(*old(cpu)),
            should_enable == unlock_enables(*old(cpu)),
    {
        cpu.depth = cpu.depth - 1;
        cpu.depth == 0 && cpu.int_record
    }
}

/// Lock action for locks that are only taken with interrupts already off: it
/// checks that they are off before and after taking the lock.
pub struct IrqOffLockAction;

impl IrqOffLockAction {
    /// Checks, before the lock is taken, that interrupts are off (`enabled` is
    /// whether they are on).
    pub fn before_lock(enabled: bool)
        requires
            !enabled,
    {
    }

    /// Checks, once the lock is taken, that interrupts are still off.
    pub fn after_lock(enabled: bool)
        requires
            !enabled,
    {
    }
}

/// The record after taking locks while interrupts were as `es` says, in order.
pub open spec fn lock_all(t: MutexTracer, es: Seq<bool>) -> MutexTracer
    decreases es.len(),
{
    if es.len() == 0 {
        t
    } else {
        lock_step(lock_all(t, es.drop_last()), es.last())
    }
}

/// The record after releasing `k` locks.
pub open spec fn unlock_n(t: MutexTracer, k: nat) -> MutexTracer
    decreases k,
{
    if k == 0 {
        t
    } else {
        unlock_step(unlock_n(t, (k - 1) as nat))
    }
}

proof fn lemma_lock_all(t: MutexTracer, es: Seq<bool>)
    requires
        t.depth == 0,
        es.len() > 0,
        es.len() < i32::MAX,
    ensures
        lock_all(t, es).depth == es.len(),
        lock_all(t, es).int_record == es[0],
    decreases es.len(),
{
    if es.len() > 1 {
        lemma_lock_all(t, es.drop_last());
        assert(es.drop_last()[0] == es[0]);
    } else {
        assert(es.drop_last().len() == 0);
        assert(lock_all(t, es.drop_last()) == t);
    }
}

proof fn lemma_unlock_n(t: MutexTracer, k: nat)
    requires
        k <= t.depth,
        t.depth < i32::MAX,
    ensures
        unlock_n(t, k).depth == t.depth - k,
        unlock_n(t, k).int_record == t.int_record,
    decreases k,
{
    if k > 0 {
        lemma_unlock_n(t, (k - 1) as nat);
    }
}

/// Nested locks taken on a core with none held and released in turn: only
/// the last release turns interrupts on, and it does so exactly when they were
/// on before the first lock.
pub proof fn law_nested_locks_restore_interrupts(t: MutexTracer, es: Seq<bool>, k: nat)
    requires
        t.depth == 0,
        es.len() > 0,
        es.len() < i32::MAX,
        k < es.len(),
    ensures
        unlock_enables(unlock_n(lock_all(t, es), k)) == (k == es.len() - 1 && es[0]),
        unlock_n(lock_all(t, es), es.len()).depth == 0,
{
    lemma_lock_all(t, es);
    lemma_unlock_n(lock_all(t, es), k);
    lemma_unlock_n(lock_all(t, es), es.len());
}

} // verus!
