//! Socket system calls that need no network: creating the descriptor of a
//! socket, the answers of `getsockopt`, and host and domain names.
use vstd::prelude::*;
use crate::errno::{Errno, SysResult, SyscallResult};
use crate::syscall::syscall::Syscall;
use crate::task::{FdSlot, FileEntry, Task};

verus! {

/// Longest host or domain name.
pub const MAX_NAME_LEN: usize = 64;

/// What setting a name of `len` bytes at user address `name` answers to a
/// caller with effective IDs `euid` and `egid`.
pub open spec fn set_name_answer(name: usize, len: usize, euid: u32, egid: u32) -> SyscallResult {
    if len > MAX_NAME_LEN {
        Err(Errno::EINVAL)
    } else if name == 0 {
        Err(Errno::EFAULT)
    } else if egid != 0 || euid != 0 {
        Err(Errno::EPERM)
    } else {
        Ok(0)
    }
}

impl Syscall {
    /// The checks of setting a name, common to host and domain names.
    fn check_set_name(&self, name: usize, len: usize) -> (r: SyscallResult)
        requires
            self.wf(),
        ensures
            r == set_name_answer(name, len, self.task().user_id.euid, self.task().user_id.egid),
    {
        if len > MAX_NAME_LEN {
            return Err(Errno::EINVAL);
        }
        if name == 0 {
            return Err(Errno::EFAULT);
        }
        let ids = self.tasks[self.current].user_id;
        if ids.egid != 0 || ids.euid != 0 {
            return Err(Errno::EPERM);
        }
        Ok(0)
    }

    /// Sets the domain name from `len` bytes at `domainname`; the name is not
    /// kept. `EINVAL` past 64 bytes, `EFAULT` for a null address, `EPERM`
    /// unless the caller's effective user and group are root.
    pub fn sys_setdomainname(&self, domainname: usize, len: usize) -> (r: SyscallResult)
        requires
            self.wf(),
        ensures
            r == set_name_answer(domainname, len, self.task().user_id.euid, self.task().user_id.egid),
    {
        self.check_set_name(domainname, len)
    }

    /// Sets the host name from `len` bytes at `hostname`; the name is not
    /// kept. `EINVAL` past 64 bytes, `EFAULT` for a null address, `EPERM`
    /// unless the caller's effective user and group are root.
    pub fn sys_sethostname(&self, hostname: usize, len: usize) -> (r: SyscallResult)
        requires
            self.wf(),
        ensures
            r == set_name_answer(hostname, len, self.task().user_id.euid, self.task().user_id.egid),
    {
        self.check_set_name(hostname, len)
    }
}

/// Socket level of the socket itself.
pub const SOL_SOCKET: usize = 1;

/// Socket level of IP.
pub const IPPROTO_IP: usize = 0;

/// Socket level of TCP.
pub const IPPROTO_TCP: usize = 6;

/// Socket level of IPv6.
pub const IPPROTO_IPV6: usize = 41;

/// Pending error of the socket.
pub const SO_ERROR: usize = 4;

/// Size of the send buffer.
pub const SO_SNDBUF: usize = 7;

/// Size of the receive buffer.
pub const SO_RCVBUF: usize = 8;

/// Whether TCP sends small segments at once.
pub const TCP_NODELAY: usize = 1;

/// Largest TCP segment.
pub const TCP_MAXSEG: usize = 2;

/// TCP connection information.
pub const TCP_INFO: usize = 11;

/// TCP congestion control algorithm.
pub const TCP_CONGESTION: usize = 13;

/// Size of the send and of the receive buffer of a socket.
pub const SOCKET_BUFFER_SIZE: u32 = 0x10000u32;

/// Largest TCP segment that `getsockopt` reports.
pub const MAX_SEGMENT_SIZE: u32 = 1666u32;

/// Close the socket descriptor on exec.
pub const SOCK_CLOEXEC: usize = 0x80000;

/// Open the socket without blocking.
pub const SOCK_NONBLOCK: usize = 0x800;

/// What `getsockopt` writes back.
#[derive(Clone, Copy, Debug, PartialEq, Eq, Structural)]
pub enum SockOptAnswer {
    /// This value, with length 4.
    Value(u32),
    /// The name of the congestion control algorithm, `reno`, with its length.
    Congestion,
    /// Nothing; the call still succeeds.
    Nothing,
}

/// What `getsockopt(level, optname)` answers for a known level; `None` for a
/// level that sockets do not know.
pub open spec fn sockopt_answer(level: usize, optname: usize) -> Option<SockOptAnswer> {
    if level == SOL_SOCKET {
        Some(if optname == SO_RCVBUF || optname == SO_SNDBUF {
            SockOptAnswer::Value(SOCKET_BUFFER_SIZE)
        } else if optname == SO_ERROR {
            SockOptAnswer::Value(0)
        } else {
            SockOptAnswer::Nothing
        })
    } else if level == IPPROTO_IP || level == IPPROTO_TCP {
        Some(if optname == TCP_MAXSEG {
            SockOptAnswer::Value(MAX_SEGMENT_SIZE)
        } else if optname == TCP_NODELAY {
            SockOptAnswer::Value(0)
        } else if optname == TCP_CONGESTION {
            SockOptAnswer::Congestion
        } else {
            SockOptAnswer::Nothing
        })
    } else {
        None
    }
}

/// What `getsockopt` writes back for option `optname` of level `level`:
/// 64 KiB for the buffer sizes, no pending error, a segment size of 1666,
/// no delay off, `reno` for congestion control, and nothing for other
/// options; `None` for an unknown level.
pub fn getsockopt_answer(level: usize, optname: usize) -> (r: Option<SockOptAnswer>)
    requires
        level != IPPROTO_IPV6,
    ensures
        r == sockopt_answer(level, optname),
{
    if level == SOL_SOCKET {
        if optname == SO_RCVBUF || optname == SO_SNDBUF {
            Some(SockOptAnswer::Value(SOCKET_BUFFER_SIZE))
        } else if optname == SO_ERROR {
            Some(SockOptAnswer::Value(0))
        } else {
            Some(SockOptAnswer::Nothing)
        }
    } else if level == IPPROTO_IP || level == IPPROTO_TCP {
        if optname == TCP_MAXSEG {
            Some(SockOptAnswer::Value(MAX_SEGMENT_SIZE))
        } else if optname == TCP_NODELAY {
            Some(SockOptAnswer::Value(0))
        } else if optname == TCP_CONGESTION {
            Some(SockOptAnswer::Congestion)
        } else {
            Some(SockOptAnswer::Nothing)
        }
    } else {
        None
    }
}

impl Syscall {
    /// Opens a socket: `family` and `kind` are the outcomes of reading the
    /// address family and the type in the low four bits of `socket_type`,
    /// and `file` that of making the socket file for them; the first error
    /// among them is returned. Else the file gets the lowest free
    /// descriptor, close-on-exec when `socket_type` holds `SOCK_CLOEXEC`,
    /// and the call returns the descriptor and whether `SOCK_NONBLOCK` asks
    /// for a socket that does not block. `EMFILE` if no descriptor is free.
    /// The file is new: no descriptor refers to it yet. Nothing changes on
    /// error.
    pub fn sys_socket(&mut self, socket_type: usize, family: SysResult<()>, kind: SysResult<()>, file: SysResult<FileEntry>)
        -> (r: SysResult<(usize, bool)>)
        requires
            old(self).wf(),
            file matches Ok(f) ==> forall|j: int| old(self).task().fd_table.is_open(j)
                ==> old(self).task().fd_table.slot(j).file.id != f.id,
        ensures
            final(self).wf(),
            final(self).current_becomes(*old(self), Task { fd_table: final(self).task().fd_table, ..old(self).task() }),
            final(self).task().fd_table.limit == old(self).task().fd_table.limit,
            family is Err ==> r == Err::<(usize, bool), Errno>(family->Err_0),
            family is Ok && kind is Err ==> r == Err::<(usize, bool), Errno>(kind->Err_0),
            family is Ok && kind is Ok && file is Err ==> r == Err::<(usize, bool), Errno>(file->Err_0),
            family is Ok && kind is Ok && file is Ok
                && (forall|j: int| 0 <= j < old(self).task().fd_table.limit ==> old(self).task().fd_table.is_open(j))
                ==> r == Err::<(usize, bool), Errno>(Errno::EMFILE),
            family is Ok && kind is Ok && file is Ok
                && !(forall|j: int| 0 <= j < old(self).task().fd_table.limit ==> old(self).task().fd_table.is_open(j))
                ==> r is Ok,
            r is Err ==> final(self).task().fd_table.slots@ == old(self).task().fd_table.slots@,
            r matches Ok((fd, nonblock)) ==> {
                &&& file is Ok
                &&& nonblock == (socket_type & SOCK_NONBLOCK != 0)
                &&& !old(self).task().fd_table.is_open(fd as int)
                &&& forall|j: int| 0 <= j < fd ==> old(self).task().fd_table.is_open(j)
                &&& final(self).task().fd_table.slots@[fd as int]
                    == Some(FdSlot { file: file->Ok_0, cloexec: socket_type & SOCK_CLOEXEC != 0 })
                &&& forall|j: int| 0 <= j < old(self).task().fd_table.slots@.len() && j != fd
                    ==> final(self).task().fd_table.slots@[j] == old(self).task().fd_table.slots@[j]
            },
    {
        proof { self.lemma_unchanged(); }
        match family {
            Err(e) => return Err(e),
            Ok(()) => {},
        }
        match kind {
            Err(e) => return Err(e),
            Ok(()) => {},
        }
        let file = match file {
            Err(e) => return Err(e),
            Ok(f) => f,
        };
        let c = self.current;
        let fd = match self.tasks[c].fd_table.alloc_fd() {
            Ok(fd) => fd,
            Err(e) => {
                proof { self.lemma_current_change_keeps_wf(*old(self), self.task()); }
                return Err(e);
            },
        };
        let ghost mid = self.tasks@;
        proof {
            let t0 = old(self).task().fd_table;
            let t1 = self.task().fd_table;
            assert forall|j: int| t1.is_open(j) implies t1.slot(j).file.id != file.id by {
                assert(j != fd);
                assert(t1.slots@[j] == t0.slots@[j]);
                assert(t0.is_open(j));
            }
        }
        self.tasks[c].fd_table.install(fd, file, socket_type & SOCK_CLOEXEC != 0);
        proof {
            assert(self.tasks@ =~= mid.update(c as int, self.task()));
            assert(self.tasks@ =~= old(self).tasks@.update(c as int, self.task()));
            self.lemma_current_change_keeps_wf(*old(self), self.task());
        }
        Ok((fd, socket_type & SOCK_NONBLOCK != 0))
    }
}

} // verus!
