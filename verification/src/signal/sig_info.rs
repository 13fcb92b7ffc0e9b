//! Signal information: what a queued signal carries.
use vstd::prelude::*;
use crate::signal::sig_detail::SigDetail;
use crate::signal::signal::{SigErrno, Signal};

verus! {

/// Signal code; a value of zero or below means the signal was sent from user mode.
#[derive(Copy, Debug, Clone, PartialEq, Eq, Structural)]
pub enum SigCode {
    /// Sent by kill, sigsend, raise.
    User,
    /// Sent by the kernel.
    Kernel,
    /// Sent by sigqueue.
    Queue,
    /// Sent when a timer expired.
    Timer,
    /// Sent when a realtime message queue changed state.
    Mesgq,
    /// Sent when asynchronous I/O completed.
    AsyncIO,
    /// Sent by a queued SIGIO.
    SigIO,
    /// Sent by the tkill system call.
    TKill,
}

/// The numeric value of a signal code.
pub open spec fn sig_code_value(c: SigCode) -> i32 {
    match c {
        SigCode::User => 0i32,
        SigCode::Kernel => 0x80i32,
        SigCode::Queue => -1i32,
        SigCode::Timer => -2i32,
        SigCode::Mesgq => -3i32,
        SigCode::AsyncIO => -4i32,
        SigCode::SigIO => -5i32,
        SigCode::TKill => -6i32,
    }
}

impl SigCode {
    /// The numeric value of this code.
    pub fn value(self) -> (r: i32)
        ensures
            r == sig_code_value(self),
    {
        match self {
            SigCode::User => 0,
            SigCode::Kernel => 0x80,
            SigCode::Queue => -1,
            SigCode::Timer => -2,
            SigCode::Mesgq => -3,
            SigCode::AsyncIO => -4,
            SigCode::SigIO => -5,
            SigCode::TKill => -6,
        }
    }
}

/// Signal information in the form user space reads it.
#[derive(Copy, Clone, Debug, PartialEq, Eq, Structural)]
pub struct RawSigInfo {
    pub signo: usize,
    pub code: i32,
}

/// Information of a signal sent to a task.
#[derive(Clone, Copy, Debug, PartialEq, Eq, Structural)]
pub struct SigInfo {
    /// The signal.
    pub signal: Signal,
    /// The signal code.
    pub code: SigCode,
    /// The errno value.
    pub errno: SigErrno,
    /// Detailed information.
    pub detail: SigDetail,
}

impl SigInfo {
    /// Information with no errno and no detail.
    pub fn new_simple(signal: Signal, code: SigCode) -> (r: SigInfo)
        ensures
            r == (SigInfo { signal, code, errno: 0, detail: SigDetail::NoDetail }),
    {
        SigInfo { signal, code, errno: 0, detail: SigDetail::NoDetail }
    }

    /// Information with every field given.
    pub fn new_detailed(signal: Signal, code: SigCode, errno: SigErrno, detail: SigDetail) -> (r: SigInfo)
        ensures
            r == (SigInfo { signal, code, errno, detail }),
    {
        SigInfo { signal, code, errno, detail }
    }

    /// The user-space form: signal number and code value.
    pub fn into_raw(self) -> (r: RawSigInfo)
        ensures
            r == (RawSigInfo { signo: self.signal.signo(), code: sig_code_value(self.code) }),
    {
        RawSigInfo { signo: self.signal.raw(), code: self.code.value() }
    }
}

} // verus!
