//! Details that a signal may carry.
use vstd::prelude::*;

verus! {

/// Details of a signal.
#[derive(Copy, Clone, Debug, PartialEq, Eq, Structural)]
pub enum SigDetail {
    NoDetail,
    Child(SigChildDetail),
    Kill(SigKillDetail),
}

/// Details of a `SIGCHLD`.
#[derive(Copy, Clone, Debug, PartialEq, Eq, Structural)]
pub struct SigChildDetail {
    /// Sending process ID.
    pub pid: u32,
    /// Exit value or signal.
    pub status: Option<i32>,
    /// User time consumed.
    pub utime: Option<i32>,
    /// System time consumed.
    pub stime: Option<i32>,
}

/// Details of a signal sent by `kill` and its kin.
#[derive(Copy, Clone, Debug, PartialEq, Eq, Structural)]
pub struct SigKillDetail {
    /// Sending process ID.
    pub pid: usize,
}

} // verus!
