//! System call numbers, as RISC-V and LoongArch Linux number them.
use vstd::prelude::*;

verus! {

/// A system call that the kernel knows, by name; `NO_SYSCALL` stands for none.
#[derive(Clone, Copy, Debug, PartialEq, Eq, Structural)]
#[allow(non_camel_case_types)]
pub enum SyscallID {
    NO_SYSCALL,
    SYS_GETCWD,
    SYS_DUP,
    SYS_DUP3,
    SYS_FCNTL,
    SYS_IOCTL,
    SYS_MKDIRAT,
    SYS_UNLINKAT,
    SYS_LINKAT,
    SYS_UMOUNT2,
    SYS_MOUNT,
    SYS_STATFS,
    SYS_FTRUNCATE64,
    SYS_FACCESSAT,
    SYS_CHDIR,
    SYS_FCHMODAT,
    SYS_OPENAT,
    SYS_CLOSE,
    SYS_PIPE2,
    SYS_GETDENTS64,
    SYS_LSEEK,
    SYS_READ,
    SYS_WRITE,
    SYS_READV,
    SYS_WRITEV,
    SYS_PREAD64,
    SYS_PWRITE64,
    SYS_SENDFILE,
    SYS_PSELECT,
    SYS_PPOLL,
    SYS_SPLICE,
    SYS_READLINKAT,
    SYS_NEWFSTATAT,
    SYS_FSTAT,
    SYS_SYNC,
    SYS_FSYNC,
    SYS_UTIMENSAT,
    SYS_EXIT,
    SYS_EXIT_GROUP,
    SYS_SET_TID_ADDRESS,
    SYS_FUTEX,
    SYS_SET_ROBUST_LIST,
    SYS_GET_ROBUST_LIST,
    SYS_NANOSLEEP,
    SYS_GETITIMER,
    SYS_SETITIMER,
    SYS_CLOCK_GETTIME,
    SYS_CLOCK_GETRES,
    SYS_CLOCK_NANOSLEEP,
    SYS_SYSLOG,
    SYS_SCHED_SETSCHEDULER,
    SYS_SCHEED_GETSCHEDULER,
    SYS_SCHED_GETPARAM,
    SYS_SCHED_SETAFFINITY,
    SYS_SCHED_GETAFFINITY,
    SYS_SCHED_YIELD,
    SYS_KILL,
    SYS_TKILL,
    SYS_TGKILL,
    SYS_SIGSUSPEND,
    SYS_SIGACTION,
    SYS_SIGPROCMASK,
    SYS_SIGTIMEDWAIT,
    SYS_SIGRETURN,
    SYS_TIMES,
    SYS_SETPGID,
    SYS_GETPGID,
    SYS_SETSID,
    SYS_UNAME,
    SYS_GETRUSAGE,
    SYS_UMASK,
    SYS_GETTIMEOFDAY,
    SYS_GETPID,
    SYS_GETPPID,
    SYS_GETUID,
    SYS_GETEUID,
    SYS_GETGID,
    SYS_GETEGID,
    SYS_GETTID,
    SYS_SYSINFO,
    SYS_SHMGET,
    SYS_SHMCTL,
    SYS_SHMAT,
    SYS_SHMDT,
    SYS_SOCKET,
    SYS_SOCKETPAIR,
    SYS_BIND,
    SYS_LISTEN,
    SYS_ACCEPT,
    SYS_CONNECT,
    SYS_GETSOCKNAME,
    SYS_GETPEERNAME,
    SYS_SENDTO,
    SYS_RECVFROM,
    SYS_SETSOCKOPT,
    SYS_GETSOCKOPT,
    SYS_SHUTDOWN,
    SYS_BRK,
    SYS_MUNMAP,
    SYS_CLONE,
    SYS_EXECVE,
    SYS_MMAP,
    SYS_MPROTECT,
    SYS_MSYNC,
    SYS_MADVISE,
    SYS_GET_MEMPOLICY,
    SYS_WAIT4,
    SYS_PRLIMIT64,
    SYS_RENAMEAT2,
    SYS_GETRANDOM,
    SYS_MEMBARRIER,
    SYS_COPY_FILE_RANGE,
    SYS_STATX,
    SYS_CLONE3,
}

/// The number of a system call; `NO_SYSCALL` has none.
pub open spec fn syscall_number(id: SyscallID) -> Option<usize> {
    match id {
        SyscallID::NO_SYSCALL => None,
        SyscallID::SYS_GETCWD => Some(17usize),
        SyscallID::SYS_DUP => Some(23usize),
        SyscallID::SYS_DUP3 => Some(24usize),
        SyscallID::SYS_FCNTL => Some(25usize),
        SyscallID::SYS_IOCTL => Some(29usize),
        SyscallID::SYS_MKDIRAT => Some(34usize),
        SyscallID::SYS_UNLINKAT => Some(35usize),
        SyscallID::SYS_LINKAT => Some(37usize),
        SyscallID::SYS_UMOUNT2 => Some(39usize),
        SyscallID::SYS_MOUNT => Some(40usize),
        SyscallID::SYS_STATFS => Some(43usize),
        SyscallID::SYS_FTRUNCATE64 => Some(46usize),
        SyscallID::SYS_FACCESSAT => Some(48usize),
        SyscallID::SYS_CHDIR => Some(49usize),
        SyscallID::SYS_FCHMODAT => Some(53usize),
        SyscallID::SYS_OPENAT => Some(56usize),
        SyscallID::SYS_CLOSE => Some(57usize),
        SyscallID::SYS_PIPE2 => Some(59usize),
        SyscallID::SYS_GETDENTS64 => Some(61usize),
        SyscallID::SYS_LSEEK => Some(62usize),
        SyscallID::SYS_READ => Some(63usize),
        SyscallID::SYS_WRITE => Some(64usize),
        SyscallID::SYS_READV => Some(65usize),
        SyscallID::SYS_WRITEV => Some(66usize),
        SyscallID::SYS_PREAD64 => Some(67usize),
        SyscallID::SYS_PWRITE64 => Some(68usize),
        SyscallID::SYS_SENDFILE => Some(71usize),
        SyscallID::SYS_PSELECT => Some(72usize),
        SyscallID::SYS_PPOLL => Some(73usize),
        SyscallID::SYS_SPLICE => Some(76usize),
        SyscallID::SYS_READLINKAT => Some(78usize),
        SyscallID::SYS_NEWFSTATAT => Some(79usize),
        SyscallID::SYS_FSTAT => Some(80usize),
        SyscallID::SYS_SYNC => Some(81usize),
        SyscallID::SYS_FSYNC => Some(82usize),
        SyscallID::SYS_UTIMENSAT => Some(88usize),
        SyscallID::SYS_EXIT => Some(93usize),
        SyscallID::SYS_EXIT_GROUP => Some(94usize),
        SyscallID::SYS_SET_TID_ADDRESS => Some(96usize),
        SyscallID::SYS_FUTEX => Some(98usize),
        SyscallID::SYS_SET_ROBUST_LIST => Some(99usize),
        SyscallID::SYS_GET_ROBUST_LIST => Some(100usize),
        SyscallID::SYS_NANOSLEEP => Some(101usize),
        SyscallID::SYS_GETITIMER => Some(102usize),
        SyscallID::SYS_SETITIMER => Some(103usize),
        SyscallID::SYS_CLOCK_GETTIME => Some(113usize),
        SyscallID::SYS_CLOCK_GETRES => Some(114usize),
        SyscallID::SYS_CLOCK_NANOSLEEP => Some(115usize),
        SyscallID::SYS_SYSLOG => Some(116usize),
        SyscallID::SYS_SCHED_SETSCHEDULER => Some(119usize),
        SyscallID::SYS_SCHEED_GETSCHEDULER => Some(120usize),
        SyscallID::SYS_SCHED_GETPARAM => Some(121usize),
        SyscallID::SYS_SCHED_SETAFFINITY => Some(122usize),
        SyscallID::SYS_SCHED_GETAFFINITY => Some(123usize),
        SyscallID::SYS_SCHED_YIELD => Some(124usize),
        SyscallID::SYS_KILL => Some(129usize),
        SyscallID::SYS_TKILL => Some(130usize),
        SyscallID::SYS_TGKILL => Some(131usize),
        SyscallID::SYS_SIGSUSPEND => Some(133usize),
        SyscallID::SYS_SIGACTION => Some(134usize),
        SyscallID::SYS_SIGPROCMASK => Some(135usize),
        SyscallID::SYS_SIGTIMEDWAIT => Some(137usize),
        SyscallID::SYS_SIGRETURN => Some(139usize),
        SyscallID::SYS_TIMES => Some(153usize),
        SyscallID::SYS_SETPGID => Some(154usize),
        SyscallID::SYS_GETPGID => Some(155usize),
        SyscallID::SYS_SETSID => Some(157usize),
        SyscallID::SYS_UNAME => Some(160usize),
        SyscallID::SYS_GETRUSAGE => Some(165usize),
        SyscallID::SYS_UMASK => Some(166usize),
        SyscallID::SYS_GETTIMEOFDAY => Some(169usize),
        SyscallID::SYS_GETPID => Some(172usize),
        SyscallID::SYS_GETPPID => Some(173usize),
        SyscallID::SYS_GETUID => Some(174usize),
        SyscallID::SYS_GETEUID => Some(175usize),
        SyscallID::SYS_GETGID => Some(176usize),
        SyscallID::SYS_GETEGID => Some(177usize),
        SyscallID::SYS_GETTID => Some(178usize),
        SyscallID::SYS_SYSINFO => Some(179usize),
        SyscallID::SYS_SHMGET => Some(194usize),
        SyscallID::SYS_SHMCTL => Some(195usize),
        SyscallID::SYS_SHMAT => Some(196usize),
        SyscallID::SYS_SHMDT => Some(197usize),
        SyscallID::SYS_SOCKET => Some(198usize),
        SyscallID::SYS_SOCKETPAIR => Some(199usize),
        SyscallID::SYS_BIND => Some(200usize),
        SyscallID::SYS_LISTEN => Some(201usize),
        SyscallID::SYS_ACCEPT => Some(202usize),
        SyscallID::SYS_CONNECT => Some(203usize),
        SyscallID::SYS_GETSOCKNAME => Some(204usize),
        SyscallID::SYS_GETPEERNAME => Some(205usize),
        SyscallID::SYS_SENDTO => Some(206usize),
        SyscallID::SYS_RECVFROM => Some(207usize),
        SyscallID::SYS_SETSOCKOPT => Some(208usize),
        SyscallID::SYS_GETSOCKOPT => Some(209usize),
        SyscallID::SYS_SHUTDOWN => Some(210usize),
        SyscallID::SYS_BRK => Some(214usize),
        SyscallID::SYS_MUNMAP => Some(215usize),
        SyscallID::SYS_CLONE => Some(220usize),
        SyscallID::SYS_EXECVE => Some(221usize),
        SyscallID::SYS_MMAP => Some(222usize),
        SyscallID::SYS_MPROTECT => Some(226usize),
        SyscallID::SYS_MSYNC => Some(227usize),
        SyscallID::SYS_MADVISE => Some(233usize),
        SyscallID::SYS_GET_MEMPOLICY => Some(236usize),
        SyscallID::SYS_WAIT4 => Some(260usize),
        SyscallID::SYS_PRLIMIT64 => Some(261usize),
        SyscallID::SYS_RENAMEAT2 => Some(276usize),
        SyscallID::SYS_GETRANDOM => Some(278usize),
        SyscallID::SYS_MEMBARRIER => Some(283usize),
        SyscallID::SYS_COPY_FILE_RANGE => Some(285usize),
        SyscallID::SYS_STATX => Some(291usize),
        SyscallID::SYS_CLONE3 => Some(435usize),
    }
}

impl SyscallID {
    /// The system call with number `n`, if the kernel knows one.
    pub fn from_repr(n: usize) -> (r: Option<SyscallID>)
        ensures
            r matches Some(id) ==> syscall_number(id) == Some(n),
            r.is_none() ==> forall|id: SyscallID| #[trigger] syscall_number(id) != Some(n),
    {
        match n {
            17 => Some(SyscallID::SYS_GETCWD),
            23 => Some(SyscallID::SYS_DUP),
            24 => Some(SyscallID::SYS_DUP3),
            25 => Some(SyscallID::SYS_FCNTL),
            29 => Some(SyscallID::SYS_IOCTL),
            34 => Some(SyscallID::SYS_MKDIRAT),
            35 => Some(SyscallID::SYS_UNLINKAT),
            37 => Some(SyscallID::SYS_LINKAT),
            39 => Some(SyscallID::SYS_UMOUNT2),
            40 => Some(SyscallID::SYS_MOUNT),
            43 => Some(SyscallID::SYS_STATFS),
            46 => Some(SyscallID::SYS_FTRUNCATE64),
            48 => Some(SyscallID::SYS_FACCESSAT),
            49 => Some(SyscallID::SYS_CHDIR),
            53 => Some(SyscallID::SYS_FCHMODAT),
            56 => Some(SyscallID::SYS_OPENAT),
            57 => Some(SyscallID::SYS_CLOSE),
            59 => Some(SyscallID::SYS_PIPE2),
            61 => Some(SyscallID::SYS_GETDENTS64),
            62 => Some(SyscallID::SYS_LSEEK),
            63 => Some(SyscallID::SYS_READ),
            64 => Some(SyscallID::SYS_WRITE),
            65 => Some(SyscallID::SYS_READV),
            66 => Some(SyscallID::SYS_WRITEV),
            67 => Some(SyscallID::SYS_PREAD64),
            68 => Some(SyscallID::SYS_PWRITE64),
            71 => Some(SyscallID::SYS_SENDFILE),
            72 => Some(SyscallID::SYS_PSELECT),
            73 => Some(SyscallID::SYS_PPOLL),
            76 => Some(SyscallID::SYS_SPLICE),
            78 => Some(SyscallID::SYS_READLINKAT),
            79 => Some(SyscallID::SYS_NEWFSTATAT),
            80 => Some(SyscallID::SYS_FSTAT),
            81 => Some(SyscallID::SYS_SYNC),
            82 => Some(SyscallID::SYS_FSYNC),
            88 => Some(SyscallID::SYS_UTIMENSAT),
            93 => Some(SyscallID::SYS_EXIT),
            94 => Some(SyscallID::SYS_EXIT_GROUP),
            96 => Some(SyscallID::SYS_SET_TID_ADDRESS),
            98 => Some(SyscallID::SYS_FUTEX),
            99 => Some(SyscallID::SYS_SET_ROBUST_LIST),
            100 => Some(SyscallID::SYS_GET_ROBUST_LIST),
            101 => Some(SyscallID::SYS_NANOSLEEP),
            102 => Some(SyscallID::SYS_GETITIMER),
            103 => Some(SyscallID::SYS_SETITIMER),
            113 => Some(SyscallID::SYS_CLOCK_GETTIME),
            114 => Some(SyscallID::SYS_CLOCK_GETRES),
            115 => Some(SyscallID::SYS_CLOCK_NANOSLEEP),
            116 => Some(SyscallID::SYS_SYSLOG),
            119 => Some(SyscallID::SYS_SCHED_SETSCHEDULER),
            120 => Some(SyscallID::SYS_SCHEED_GETSCHEDULER),
            121 => Some(SyscallID::SYS_SCHED_GETPARAM),
            122 => Some(SyscallID::SYS_SCHED_SETAFFINITY),
            123 => Some(SyscallID::SYS_SCHED_GETAFFINITY),
            124 => Some(SyscallID::SYS_SCHED_YIELD),
            129 => Some(SyscallID::SYS_KILL),
            130 => Some(SyscallID::SYS_TKILL),
            131 => Some(SyscallID::SYS_TGKILL),
            133 => Some(SyscallID::SYS_SIGSUSPEND),
            134 => Some(SyscallID::SYS_SIGACTION),
            135 => Some(SyscallID::SYS_SIGPROCMASK),
            137 => Some(SyscallID::SYS_SIGTIMEDWAIT),
            139 => Some(SyscallID::SYS_SIGRETURN),
            153 => Some(SyscallID::SYS_TIMES),
            154 => Some(SyscallID::SYS_SETPGID),
            155 => Some(SyscallID::SYS_GETPGID),
            157 => Some(SyscallID::SYS_SETSID),
            160 => Some(SyscallID::SYS_UNAME),
            165 => Some(SyscallID::SYS_GETRUSAGE),
            166 => Some(SyscallID::SYS_UMASK),
            169 => Some(SyscallID::SYS_GETTIMEOFDAY),
            172 => Some(SyscallID::SYS_GETPID),
            173 => Some(SyscallID::SYS_GETPPID),
            174 => Some(SyscallID::SYS_GETUID),
            175 => Some(SyscallID::SYS_GETEUID),
            176 => Some(SyscallID::SYS_GETGID),
            177 => Some(SyscallID::SYS_GETEGID),
            178 => Some(SyscallID::SYS_GETTID),
            179 => Some(SyscallID::SYS_SYSINFO),
            194 => Some(SyscallID::SYS_SHMGET),
            195 => Some(SyscallID::SYS_SHMCTL),
            196 => Some(SyscallID::SYS_SHMAT),
            197 => Some(SyscallID::SYS_SHMDT),
            198 => Some(SyscallID::SYS_SOCKET),
            199 => Some(SyscallID::SYS_SOCKETPAIR),
            200 => Some(SyscallID::SYS_BIND),
            201 => Some(SyscallID::SYS_LISTEN),
            202 => Some(SyscallID::SYS_ACCEPT),
            203 => Some(SyscallID::SYS_CONNECT),
            204 => Some(SyscallID::SYS_GETSOCKNAME),
            205 => Some(SyscallID::SYS_GETPEERNAME),
            206 => Some(SyscallID::SYS_SENDTO),
            207 => Some(SyscallID::SYS_RECVFROM),
            208 => Some(SyscallID::SYS_SETSOCKOPT),
            209 => Some(SyscallID::SYS_GETSOCKOPT),
            210 => Some(SyscallID::SYS_SHUTDOWN),
            214 => Some(SyscallID::SYS_BRK),
            215 => Some(SyscallID::SYS_MUNMAP),
            220 => Some(SyscallID::SYS_CLONE),
            221 => Some(SyscallID::SYS_EXECVE),
            222 => Some(SyscallID::SYS_MMAP),
            226 => Some(SyscallID::SYS_MPROTECT),
            227 => Some(SyscallID::SYS_MSYNC),
            233 => Some(SyscallID::SYS_MADVISE),
            236 => Some(SyscallID::SYS_GET_MEMPOLICY),
            260 => Some(SyscallID::SYS_WAIT4),
            261 => Some(SyscallID::SYS_PRLIMIT64),
            276 => Some(SyscallID::SYS_RENAMEAT2),
            278 => Some(SyscallID::SYS_GETRANDOM),
            283 => Some(SyscallID::SYS_MEMBARRIER),
            285 => Some(SyscallID::SYS_COPY_FILE_RANGE),
            291 => Some(SyscallID::SYS_STATX),
            435 => Some(SyscallID::SYS_CLONE3),
            _ => None,
        }
    }
}

} // verus!
