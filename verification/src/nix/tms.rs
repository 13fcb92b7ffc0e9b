//! Process times as `times` reports them.
use vstd::prelude::*;

verus! {

/// Processor times of a process and of its reaped children, in clock ticks.
#[derive(Clone, Copy, Debug, PartialEq, Eq, Structural)]
pub struct TMS {
    /// Time spent in user mode.
    pub tms_utime: isize,
    /// Time spent in kernel mode.
    pub tms_stime: isize,
    /// User time of the reaped children.
    pub tms_cutime: isize,
    /// Kernel time of the reaped children.
    pub tms_cstime: isize,
}

} // verus!
