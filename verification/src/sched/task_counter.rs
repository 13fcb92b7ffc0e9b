//! Count of live tasks; the kernel is done when it falls to zero.
use vstd::prelude::*;

verus! {

/// Counts one more task.
pub fn task_count_inc(counter: &mut usize)
    requires
        *old(counter) < usize::MAX,
    ensures
        *final(counter) == *old(counter) + 1,
{
    *counter = *counter + 1;
}

/// Counts one task less, wrapping below zero as the atomic counter does;
/// returns whether that was the last task.
pub fn task_count_dec(counter: &mut usize) -> (last: bool)
    ensures
        *final(counter) == if *old(counter) == 0 { usize::MAX as int } else { *old(counter) - 1 },
        last == (*old(counter) == 1),
{
    let prev = *counter;
    *counter = prev.wrapping_sub(1);
    prev == 1
}

} // verus!
