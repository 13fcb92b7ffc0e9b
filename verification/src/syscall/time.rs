//! Times: the resolution that `clock_getres` reports and the timeout check
//! of `sigtimedwait`.
use vstd::prelude::*;
use crate::errno::{Errno, SysResult};

verus! {

/// A time as seconds and nanoseconds.
#[derive(Clone, Copy, Debug, PartialEq, Eq, Structural)]
pub struct TimeSpec {
    pub tv_sec: usize,
    pub tv_nsec: usize,
}

/// What `clock_getres(clockid, res)` writes to user space, `has_res` telling
/// whether `res` is a buffer: one nanosecond for any clock, nothing without a
/// buffer. `EINVAL` for a negative clock.
pub fn sys_clock_getres(clockid: isize, has_res: bool) -> (r: SysResult<Option<TimeSpec>>)
    ensures
        clockid < 0 ==> r == Err::<Option<TimeSpec>, Errno>(Errno::EINVAL),
        clockid >= 0 && !has_res ==> r == Ok::<Option<TimeSpec>, Errno>(None),
        clockid >= 0 && has_res ==> r == Ok::<Option<TimeSpec>, Errno>(Some(TimeSpec { tv_sec: 0, tv_nsec: 1 })),
{
    if clockid < 0 {
        return Err(Errno::EINVAL);
    }
    if !has_res {
        return Ok(None);
    }
    Ok(Some(TimeSpec { tv_sec: 0, tv_nsec: 1 }))
}

/// The check of `sigtimedwait` on its timeout before it waits: `EINVAL`
/// unless the nanoseconds, read as a signed number, lie in `0..1_000_000_000`.
pub fn sigtimedwait_timeout_check(timeout: TimeSpec) -> (r: SysResult<()>)
    ensures
        r == if timeout.tv_nsec > isize::MAX || timeout.tv_nsec >= 1_000_000_000 {
            Err::<(), Errno>(Errno::EINVAL)
        } else {
            Ok(())
        },
{
    if (timeout.tv_nsec as isize) < 0 || timeout.tv_nsec >= 1_000_000_000 {
        return Err(Errno::EINVAL);
    }
    Ok(())
}

} // verus!
