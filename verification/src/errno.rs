//! Error numbers returned by the kernel's system calls.
use vstd::prelude::*;

verus! {

/// The error numbers that the system calls of this library report.
#[derive(Clone, Copy, Debug, PartialEq, Eq, Structural)]
#[allow(non_camel_case_types)]
pub enum Errno {
    EPERM,
    ENOENT,
    ESRCH,
    EINTR,
    EBADF,
    EAGAIN,
    ENOMEM,
    EACCES,
    EFAULT,
    EEXIST,
    ENOTDIR,
    EISDIR,
    EINVAL,
    EMFILE,
    EFBIG,
    ESPIPE,
    ERANGE,
    ENOSYS,
    ENOTEMPTY,
    EOVERFLOW,
    ETIMEDOUT,
}

/// The numeric value of an error number, as Linux defines it.
pub open spec fn errno_code(e: Errno) -> isize {
    match e {
        Errno::EPERM => 1,
        Errno::ENOENT => 2,
        Errno::ESRCH => 3,
        Errno::EINTR => 4,
        Errno::EBADF => 9,
        Errno::EAGAIN => 11,
        Errno::ENOMEM => 12,
        Errno::EACCES => 13,
        Errno::EFAULT => 14,
        Errno::EEXIST => 17,
        Errno::ENOTDIR => 20,
        Errno::EISDIR => 21,
        Errno::EINVAL => 22,
        Errno::EMFILE => 24,
        Errno::EFBIG => 27,
        Errno::ESPIPE => 29,
        Errno::ERANGE => 34,
        Errno::ENOSYS => 38,
        Errno::ENOTEMPTY => 39,
        Errno::EOVERFLOW => 75,
        Errno::ETIMEDOUT => 110,
    }
}

impl Errno {
    /// The numeric value of this error number.
    pub fn code(self) -> (r: isize)
        ensures
            r == errno_code(self),
            r > 0,
    {
        match self {
            Errno::EPERM => 1,
            Errno::ENOENT => 2,
            Errno::ESRCH => 3,
            Errno::EINTR => 4,
            Errno::EBADF => 9,
            Errno::EAGAIN => 11,
            Errno::ENOMEM => 12,
            Errno::EACCES => 13,
            Errno::EFAULT => 14,
            Errno::EEXIST => 17,
            Errno::ENOTDIR => 20,
            Errno::EISDIR => 21,
            Errno::EINVAL => 22,
            Errno::EMFILE => 24,
            Errno::EFBIG => 27,
            Errno::ESPIPE => 29,
            Errno::ERANGE => 34,
            Errno::ENOSYS => 38,
            Errno::ENOTEMPTY => 39,
            Errno::EOVERFLOW => 75,
            Errno::ETIMEDOUT => 110,
        }
    }
}

/// Result of a kernel operation.
pub type SysResult<T> = Result<T, Errno>;

/// Result of a system call: the value handed back to user space, or an error.
pub type SyscallResult = Result<isize, Errno>;

} // verus!
