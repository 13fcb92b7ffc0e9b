//! Signal numbers.
use vstd::prelude::*;
use crate::errno::{Errno, SysResult};

verus! {

/// Number of signals that a signal mask can hold.
pub const NSIG: usize = 64;

/// Highest signal number, and the number of entries of a signal action list.
pub const MAX_SIGNUM: usize = 64;

/// Handler address that asks for the default handling of a signal.
pub const SIG_DFL: usize = 0;

/// Handler address that asks for a signal to be ignored.
pub const SIG_IGN: usize = 1;

/// Error number carried by a signal.
pub type SigErrno = i32;

/// A signal. `SIGINVAL` (number 0) stands for no valid signal.
#[derive(PartialEq, Eq, Copy, Clone, Debug, Structural)]
#[allow(non_camel_case_types)]
pub enum Signal {
    SIGINVAL,
    SIGHUP,
    SIGINT,
    SIGQUIT,
    SIGILL,
    SIGTRAP,
    SIGABRT,
    SIGBUS,
    SIGFPE,
    SIGKILL,
    SIGUSR1,
    SIGSEGV,
    SIGUSR2,
    SIGPIPE,
    SIGALRM,
    SIGTERM,
    SIGSTKFLT,
    SIGCHLD,
    SIGCONT,
    SIGSTOP,
    SIGTSTP,
    SIGTTIN,
    SIGTTOU,
    SIGURG,
    SIGXCPU,
    SIGXFSZ,
    SIGVTALRM,
    SIGPROF,
    SIGWINCH,
    SIGIO,
    SIGPWR,
    SIGSYS,
    SIGTIMER,
    SIGCANCEL,
    SIGSYNCCALL,
    SIGRT_3,
    SIGRT_4,
    SIGRT_5,
    SIGRT_6,
    SIGRT_7,
    SIGRT_8,
    SIGRT_9,
    SIGRT_10,
    SIGRT_11,
    SIGRT_12,
    SIGRT_13,
    SIGRT_14,
    SIGRT_15,
    SIGRT_16,
    SIGRT_17,
    SIGRT_18,
    SIGRT_19,
    SIGRT_20,
    SIGRT_21,
    SIGRT_22,
    SIGRT_23,
    SIGRT_24,
    SIGRT_25,
    SIGRT_26,
    SIGRT_27,
    SIGRT_28,
    SIGRT_29,
    SIGRT_30,
    SIGRT_31,
    SIGRTMAX,
}

impl Signal {
    /// The signal number.
    pub open spec fn signo(self) -> usize {
        match self {
        Signal::SIGINVAL => 0,
        Signal::SIGHUP => 1,
        Signal::SIGINT => 2,
        Signal::SIGQUIT => 3,
        Signal::SIGILL => 4,
        Signal::SIGTRAP => 5,
        Signal::SIGABRT => 6,
        Signal::SIGBUS => 7,
        Signal::SIGFPE => 8,
        Signal::SIGKILL => 9,
        Signal::SIGUSR1 => 10,
        Signal::SIGSEGV => 11,
        Signal::SIGUSR2 => 12,
        Signal::SIGPIPE => 13,
        Signal::SIGALRM => 14,
        Signal::SIGTERM => 15,
        Signal::SIGSTKFLT => 16,
        Signal::SIGCHLD => 17,
        Signal::SIGCONT => 18,
        Signal::SIGSTOP => 19,
        Signal::SIGTSTP => 20,
        Signal::SIGTTIN => 21,
        Signal::SIGTTOU => 22,
        Signal::SIGURG => 23,
        Signal::SIGXCPU => 24,
        Signal::SIGXFSZ => 25,
        Signal::SIGVTALRM => 26,
        Signal::SIGPROF => 27,
        Signal::SIGWINCH => 28,
        Signal::SIGIO => 29,
        Signal::SIGPWR => 30,
        Signal::SIGSYS => 31,
        Signal::SIGTIMER => 32,
        Signal::SIGCANCEL => 33,
        Signal::SIGSYNCCALL => 34,
        Signal::SIGRT_3 => 35,
        Signal::SIGRT_4 => 36,
        Signal::SIGRT_5 => 37,
        Signal::SIGRT_6 => 38,
        Signal::SIGRT_7 => 39,
        Signal::SIGRT_8 => 40,
        Signal::SIGRT_9 => 41,
        Signal::SIGRT_10 => 42,
        Signal::SIGRT_11 => 43,
        Signal::SIGRT_12 => 44,
        Signal::SIGRT_13 => 45,
        Signal::SIGRT_14 => 46,
        Signal::SIGRT_15 => 47,
        Signal::SIGRT_16 => 48,
        Signal::SIGRT_17 => 49,
        Signal::SIGRT_18 => 50,
        Signal::SIGRT_19 => 51,
        Signal::SIGRT_20 => 52,
        Signal::SIGRT_21 => 53,
        Signal::SIGRT_22 => 54,
        Signal::SIGRT_23 => 55,
        Signal::SIGRT_24 => 56,
        Signal::SIGRT_25 => 57,
        Signal::SIGRT_26 => 58,
        Signal::SIGRT_27 => 59,
        Signal::SIGRT_28 => 60,
        Signal::SIGRT_29 => 61,
        Signal::SIGRT_30 => 62,
        Signal::SIGRT_31 => 63,
        Signal::SIGRTMAX => 64,
        }
    }

    /// Whether this is a signal that a mask or an action list has room for.
    pub open spec fn is_valid(self) -> bool {
        self != Signal::SIGINVAL
    }

    /// The signal whose number is `n`, for `n <= 64`.
    pub open spec fn of_signo(n: usize) -> Signal {
        match n {
        0 => Signal::SIGINVAL,
        1 => Signal::SIGHUP,
        2 => Signal::SIGINT,
        3 => Signal::SIGQUIT,
        4 => Signal::SIGILL,
        5 => Signal::SIGTRAP,
        6 => Signal::SIGABRT,
        7 => Signal::SIGBUS,
        8 => Signal::SIGFPE,
        9 => Signal::SIGKILL,
        10 => Signal::SIGUSR1,
        11 => Signal::SIGSEGV,
        12 => Signal::SIGUSR2,
        13 => Signal::SIGPIPE,
        14 => Signal::SIGALRM,
        15 => Signal::SIGTERM,
        16 => Signal::SIGSTKFLT,
        17 => Signal::SIGCHLD,
        18 => Signal::SIGCONT,
        19 => Signal::SIGSTOP,
        20 => Signal::SIGTSTP,
        21 => Signal::SIGTTIN,
        22 => Signal::SIGTTOU,
        23 => Signal::SIGURG,
        24 => Signal::SIGXCPU,
        25 => Signal::SIGXFSZ,
        26 => Signal::SIGVTALRM,
        27 => Signal::SIGPROF,
        28 => Signal::SIGWINCH,
        29 => Signal::SIGIO,
        30 => Signal::SIGPWR,
        31 => Signal::SIGSYS,
        32 => Signal::SIGTIMER,
        33 => Signal::SIGCANCEL,
        34 => Signal::SIGSYNCCALL,
        35 => Signal::SIGRT_3,
        36 => Signal::SIGRT_4,
        37 => Signal::SIGRT_5,
        38 => Signal::SIGRT_6,
        39 => Signal::SIGRT_7,
        40 => Signal::SIGRT_8,
        41 => Signal::SIGRT_9,
        42 => Signal::SIGRT_10,
        43 => Signal::SIGRT_11,
        44 => Signal::SIGRT_12,
        45 => Signal::SIGRT_13,
        46 => Signal::SIGRT_14,
        47 => Signal::SIGRT_15,
        48 => Signal::SIGRT_16,
        49 => Signal::SIGRT_17,
        50 => Signal::SIGRT_18,
        51 => Signal::SIGRT_19,
        52 => Signal::SIGRT_20,
        53 => Signal::SIGRT_21,
        54 => Signal::SIGRT_22,
        55 => Signal::SIGRT_23,
        56 => Signal::SIGRT_24,
        57 => Signal::SIGRT_25,
        58 => Signal::SIGRT_26,
        59 => Signal::SIGRT_27,
        60 => Signal::SIGRT_28,
        61 => Signal::SIGRT_29,
        62 => Signal::SIGRT_30,
        63 => Signal::SIGRT_31,
        64 => Signal::SIGRTMAX,
            _ => Signal::SIGINVAL,
        }
    }

    /// A signal is determined by its number.
    pub proof fn lemma_of_signo(self)
        ensures
            Signal::of_signo(self.signo()) == self,
            self.signo() <= 64,
            self.signo() == 0 <==> self == Signal::SIGINVAL,
    {
    }

    /// The signal whose number is `n`, if there is one.
    pub fn from_repr(n: usize) -> (r: Option<Signal>)
        ensures
            n <= 64 ==> r == Some(Signal::of_signo(n)),
            n > 64 ==> r.is_none(),
            r matches Some(s) ==> s.signo() == n,
    {
        match n {
            0 => Some(Signal::SIGINVAL),
            1 => Some(Signal::SIGHUP),
            2 => Some(Signal::SIGINT),
            3 => Some(Signal::SIGQUIT),
            4 => Some(Signal::SIGILL),
            5 => Some(Signal::SIGTRAP),
            6 => Some(Signal::SIGABRT),
            7 => Some(Signal::SIGBUS),
            8 => Some(Signal::SIGFPE),
            9 => Some(Signal::SIGKILL),
            10 => Some(Signal::SIGUSR1),
            11 => Some(Signal::SIGSEGV),
            12 => Some(Signal::SIGUSR2),
            13 => Some(Signal::SIGPIPE),
            14 => Some(Signal::SIGALRM),
            15 => Some(Signal::SIGTERM),
            16 => Some(Signal::SIGSTKFLT),
            17 => Some(Signal::SIGCHLD),
            18 => Some(Signal::SIGCONT),
            19 => Some(Signal::SIGSTOP),
            20 => Some(Signal::SIGTSTP),
            21 => Some(Signal::SIGTTIN),
            22 => Some(Signal::SIGTTOU),
            23 => Some(Signal::SIGURG),
            24 => Some(Signal::SIGXCPU),
            25 => Some(Signal::SIGXFSZ),
            26 => Some(Signal::SIGVTALRM),
            27 => Some(Signal::SIGPROF),
            28 => Some(Signal::SIGWINCH),
            29 => Some(Signal::SIGIO),
            30 => Some(Signal::SIGPWR),
            31 => Some(Signal::SIGSYS),
            32 => Some(Signal::SIGTIMER),
            33 => Some(Signal::SIGCANCEL),
            34 => Some(Signal::SIGSYNCCALL),
            35 => Some(Signal::SIGRT_3),
            36 => Some(Signal::SIGRT_4),
            37 => Some(Signal::SIGRT_5),
            38 => Some(Signal::SIGRT_6),
            39 => Some(Signal::SIGRT_7),
            40 => Some(Signal::SIGRT_8),
            41 => Some(Signal::SIGRT_9),
            42 => Some(Signal::SIGRT_10),
            43 => Some(Signal::SIGRT_11),
            44 => Some(Signal::SIGRT_12),
            45 => Some(Signal::SIGRT_13),
            46 => Some(Signal::SIGRT_14),
            47 => Some(Signal::SIGRT_15),
            48 => Some(Signal::SIGRT_16),
            49 => Some(Signal::SIGRT_17),
            50 => Some(Signal::SIGRT_18),
            51 => Some(Signal::SIGRT_19),
            52 => Some(Signal::SIGRT_20),
            53 => Some(Signal::SIGRT_21),
            54 => Some(Signal::SIGRT_22),
            55 => Some(Signal::SIGRT_23),
            56 => Some(Signal::SIGRT_24),
            57 => Some(Signal::SIGRT_25),
            58 => Some(Signal::SIGRT_26),
            59 => Some(Signal::SIGRT_27),
            60 => Some(Signal::SIGRT_28),
            61 => Some(Signal::SIGRT_29),
            62 => Some(Signal::SIGRT_30),
            63 => Some(Signal::SIGRT_31),
            64 => Some(Signal::SIGRTMAX),
            _ => None,
        }
    }

    /// The signal number.
    #[verifier::when_used_as_spec(signo)]
    pub fn raw(self) -> (r: usize)
        ensures
            r == self.signo(),
    {
        match self {
            Signal::SIGINVAL => 0,
            Signal::SIGHUP => 1,
            Signal::SIGINT => 2,
            Signal::SIGQUIT => 3,
            Signal::SIGILL => 4,
            Signal::SIGTRAP => 5,
            Signal::SIGABRT => 6,
            Signal::SIGBUS => 7,
            Signal::SIGFPE => 8,
            Signal::SIGKILL => 9,
            Signal::SIGUSR1 => 10,
            Signal::SIGSEGV => 11,
            Signal::SIGUSR2 => 12,
            Signal::SIGPIPE => 13,
            Signal::SIGALRM => 14,
            Signal::SIGTERM => 15,
            Signal::SIGSTKFLT => 16,
            Signal::SIGCHLD => 17,
            Signal::SIGCONT => 18,
            Signal::SIGSTOP => 19,
            Signal::SIGTSTP => 20,
            Signal::SIGTTIN => 21,
            Signal::SIGTTOU => 22,
            Signal::SIGURG => 23,
            Signal::SIGXCPU => 24,
            Signal::SIGXFSZ => 25,
            Signal::SIGVTALRM => 26,
            Signal::SIGPROF => 27,
            Signal::SIGWINCH => 28,
            Signal::SIGIO => 29,
            Signal::SIGPWR => 30,
            Signal::SIGSYS => 31,
            Signal::SIGTIMER => 32,
            Signal::SIGCANCEL => 33,
            Signal::SIGSYNCCALL => 34,
            Signal::SIGRT_3 => 35,
            Signal::SIGRT_4 => 36,
            Signal::SIGRT_5 => 37,
            Signal::SIGRT_6 => 38,
            Signal::SIGRT_7 => 39,
            Signal::SIGRT_8 => 40,
            Signal::SIGRT_9 => 41,
            Signal::SIGRT_10 => 42,
            Signal::SIGRT_11 => 43,
            Signal::SIGRT_12 => 44,
            Signal::SIGRT_13 => 45,
            Signal::SIGRT_14 => 46,
            Signal::SIGRT_15 => 47,
            Signal::SIGRT_16 => 48,
            Signal::SIGRT_17 => 49,
            Signal::SIGRT_18 => 50,
            Signal::SIGRT_19 => 51,
            Signal::SIGRT_20 => 52,
            Signal::SIGRT_21 => 53,
            Signal::SIGRT_22 => 54,
            Signal::SIGRT_23 => 55,
            Signal::SIGRT_24 => 56,
            Signal::SIGRT_25 => 57,
            Signal::SIGRT_26 => 58,
            Signal::SIGRT_27 => 59,
            Signal::SIGRT_28 => 60,
            Signal::SIGRT_29 => 61,
            Signal::SIGRT_30 => 62,
            Signal::SIGRT_31 => 63,
            Signal::SIGRTMAX => 64,
        }
    }
}

impl Signal {
    /// The signal whose action list index is `index`.
    pub fn from_raw_sa_index(index: usize) -> (r: Signal)
        requires
            index < MAX_SIGNUM,
        ensures
            r.signo() == index + 1,
            r.is_valid(),
    {
        match Signal::from_repr(index + 1) {
            Some(s) => s,
            None => Signal::SIGINVAL,
        }
    }

    /// The bit offset of this signal in a signal mask.
    pub fn into_sigmask_offset(self) -> (r: usize)
        requires
            self.is_valid(),
        ensures
            r == self.signo() - 1,
            r < NSIG,
    {
        proof { self.lemma_of_signo(); }
        self.raw() - 1
    }

    /// The index of this signal in a signal action list.
    pub fn into_sigaction_index(self) -> (r: usize)
        requires
            self.is_valid(),
        ensures
            r == self.signo() - 1,
            r < MAX_SIGNUM,
    {
        proof { self.lemma_of_signo(); }
        self.raw() - 1
    }

    /// Refuses `SIGKILL` and `SIGSTOP`, whose actions cannot be changed.
    pub fn try_exclude_kill(self) -> (r: SysResult<Signal>)
        ensures
            (self == Signal::SIGKILL || self == Signal::SIGSTOP) ==> r == Err::<Signal, Errno>(Errno::EINVAL),
            !(self == Signal::SIGKILL || self == Signal::SIGSTOP) ==> r == Ok::<Signal, Errno>(self),
    {
        match self {
            Signal::SIGKILL | Signal::SIGSTOP => Err(Errno::EINVAL),
            _ => Ok(self),
        }
    }

    /// The signal with number `signo`; `EINVAL` if there is none.
    pub fn try_from(signo: usize) -> (r: SysResult<Signal>)
        ensures
            signo <= 64 ==> r == Ok::<Signal, Errno>(Signal::of_signo(signo)),
            signo > 64 ==> r == Err::<Signal, Errno>(Errno::EINVAL),
            r matches Ok(s) ==> s.signo() == signo,
    {
        match Signal::from_repr(signo) {
            Some(signal) => Ok(signal),
            None => Err(Errno::EINVAL),
        }
    }

    /// `None` for number zero, the signal for a valid number, and `EINVAL` otherwise.
    pub fn try_from_with_zero_as_none(signo: usize) -> (r: SysResult<Option<Signal>>)
        ensures
            signo == 0 ==> r == Ok::<Option<Signal>, Errno>(None),
            0 < signo <= 64 ==> r == Ok::<Option<Signal>, Errno>(Some(Signal::of_signo(signo))),
            signo > 64 ==> r == Err::<Option<Signal>, Errno>(Errno::EINVAL),
            r matches Ok(Some(s)) ==> s.signo() == signo,
    {
        if signo == 0 {
            Ok(None)
        } else {
            match Signal::from_repr(signo) {
                Some(signal) => Ok(Some(signal)),
                None => Err(Errno::EINVAL),
            }
        }
    }
}

/// The numbers of the signals, as Linux assigns them: each signal has one
/// number, and the number gives the signal back.
pub proof fn law_signal_numbers(s: Signal, t: Signal)
    ensures
        Signal::SIGHUP.signo() == 1 && Signal::SIGINT.signo() == 2 && Signal::SIGQUIT.signo() == 3,
        Signal::SIGKILL.signo() == 9 && Signal::SIGUSR1.signo() == 10 && Signal::SIGSEGV.signo() == 11,
        Signal::SIGPIPE.signo() == 13 && Signal::SIGALRM.signo() == 14 && Signal::SIGTERM.signo() == 15,
        Signal::SIGCHLD.signo() == 17 && Signal::SIGCONT.signo() == 18 && Signal::SIGSTOP.signo() == 19,
        Signal::SIGTSTP.signo() == 20 && Signal::SIGTTIN.signo() == 21 && Signal::SIGTTOU.signo() == 22,
        Signal::SIGURG.signo() == 23 && Signal::SIGWINCH.signo() == 28 && Signal::SIGRTMAX.signo() == 64,
        Signal::of_signo(s.signo()) == s,
        s.signo() == t.signo() ==> s == t,
{
    s.lemma_of_signo();
    t.lemma_of_signo();
}

} // verus!
