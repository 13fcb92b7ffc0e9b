//! The state of a task that the system calls read and change: identity,
//! credentials, open files, signal state and exit status.
use vstd::prelude::*;
use crate::errno::{Errno, SysResult, SyscallResult};
use crate::signal::sig_action::SigActionList;
use crate::signal::sig_info::SigInfo;
use crate::signal::sig_pending::SigPending;
use crate::signal::sig_set::{SigMask, SigSet};
use crate::signal::sig_stack::SigAltStack;
use crate::syscall::syscall_id::SyscallID;

verus! {

/// Process ID of the init process.
pub const INIT_PROCESS_ID: usize = 1;

/// Size of the head of a robust futex list.
pub const ROBUST_LIST_HEAD_SIZE: usize = 24;

/// User and group IDs of a task: real, effective, saved and file-system.
#[derive(Clone, Copy, Debug, PartialEq, Eq, Structural)]
pub struct UserId {
    pub uid: u32,
    pub euid: u32,
    pub suid: u32,
    pub fsuid: u32,
    pub gid: u32,
    pub egid: u32,
    pub sgid: u32,
    pub fsgid: u32,
}

impl UserId {
    /// All IDs of the root user.
    pub fn root() -> (r: UserId)
        ensures
            r == (UserId { uid: 0, euid: 0, suid: 0, fsuid: 0, gid: 0, egid: 0, sgid: 0, fsgid: 0 }),
    {
        UserId { uid: 0, euid: 0, suid: 0, fsuid: 0, gid: 0, egid: 0, sgid: 0, fsgid: 0 }
    }
}

/// Head of the robust futex list of a task.
#[derive(Clone, Copy, Debug, PartialEq, Eq, Structural)]
pub struct RobustList {
    pub head: usize,
    pub len: usize,
}

/// What the system calls read of an open file.
#[derive(Clone, Copy, Debug, PartialEq, Eq, Structural)]
pub struct FileEntry {
    /// Which open file this is; duplicated descriptors share it.
    pub id: usize,
    /// Which inode the file is open on.
    pub inode: usize,
    /// The directory entry through which the file was opened.
    pub dentry: usize,
    /// Whether the file is a directory.
    pub is_dir: bool,
    /// Whether the file is a pipe.
    pub is_fifo: bool,
    /// Whether the file was opened for reading.
    pub readable: bool,
    /// Whether the file was opened for writing.
    pub writable: bool,
    /// Whether the file was opened with `O_PATH`.
    pub o_path: bool,
    /// File offset.
    pub pos: u64,
    /// File size.
    pub size: u64,
    /// Permission bits of the file.
    pub mode: u32,
}

/// A file descriptor: the open file and the close-on-exec flag.
#[derive(Clone, Copy, Debug, PartialEq, Eq, Structural)]
pub struct FdSlot {
    pub file: FileEntry,
    pub cloexec: bool,
}

/// Directory entry of the root of the file system, where new tasks start.
pub const ROOT_DENTRY: usize = 0usize;

/// Slot `s` after the permission bits of inode `ino` became `mode`.
pub open spec fn slot_with_mode(s: Option<FdSlot>, ino: usize, mode: u32) -> Option<FdSlot> {
    match s {
        Some(x) => if x.file.inode == ino { Some(FdSlot { file: FileEntry { mode, ..x.file }, ..x }) } else { Some(x) },
        None => None,
    }
}

/// The file descriptor table of a task.
pub struct FdTable {
    /// Descriptor `fd` is slot `fd`; `None` is a free descriptor.
    pub slots: Vec<Option<FdSlot>>,
    /// Descriptors must be below this limit.
    pub limit: usize,
}

impl FdTable {
    /// No more slots than the limit allows, and descriptors of the same open
    /// file see the same file.
    pub open spec fn wf(&self) -> bool {
        &&& self.slots@.len() <= self.limit
        &&& self.limit <= isize::MAX
        &&& forall|i: int, j: int| #![trigger self.slots@[i], self.slots@[j]]
            self.is_open(i) && self.is_open(j) && self.slot(i).file.id == self.slot(j).file.id
                ==> self.slot(i).file == self.slot(j).file
    }

    /// Whether descriptor `fd` is open.
    pub open spec fn is_open(&self, fd: int) -> bool {
        0 <= fd < self.slots@.len() && self.slots@[fd].is_some()
    }

    /// The slot of descriptor `fd`.
    pub open spec fn slot(&self, fd: int) -> FdSlot {
        self.slots@[fd].unwrap()
    }

    /// An empty table with descriptors below `limit`.
    pub fn new(limit: usize) -> (r: FdTable)
        requires
            limit <= isize::MAX,
        ensures
            r.wf(),
            r.slots@.len() == 0,
            r.limit == limit,
    {
        FdTable { slots: Vec::new(), limit }
    }

    /// The open file of descriptor `fd`, if it is open.
    pub fn get(&self, fd: usize) -> (r: Option<FileEntry>)
        ensures
            self.is_open(fd as int) ==> r == Some(self.slot(fd as int).file),
            !self.is_open(fd as int) ==> r.is_none(),
    {
        if fd < self.slots.len() {
            match self.slots[fd] {
                Some(s) => Some(s.file),
                None => None,
            }
        } else {
            None
        }
    }

    /// Reserves the lowest free descriptor; `EMFILE` if none is below the limit.
    pub fn alloc_fd(&mut self) -> (r: SysResult<usize>)
        requires
            old(self).wf(),
        ensures
            final(self).wf(),
            final(self).limit == old(self).limit,
            r matches Ok(fd) ==> {
                &&& fd < final(self).slots@.len()
                &&& !final(self).is_open(fd as int)
                &&& !old(self).is_open(fd as int)
                &&& forall|j: int| 0 <= j < fd ==> old(self).is_open(j)
                &&& forall|j: int| 0 <= j < final(self).slots@.len() && j != fd ==> final(self).slots@[j] == old(self).slots@[j]
                &&& final(self).slots@.len() == if fd < old(self).slots@.len() { old(self).slots@.len() as int } else { fd + 1 }
            },
            r is Err ==> r == Err::<usize, Errno>(Errno::EMFILE) && final(self).slots@ == old(self).slots@
                && forall|j: int| 0 <= j < old(self).limit ==> old(self).is_open(j),
    {
        let len = self.slots.len();
        let mut i: usize = 0;
        while i < len
            invariant
                i <= len,
                len == self.slots@.len(),
                self.slots@ == old(self).slots@,
                self.limit == old(self).limit,
                self.wf(),
                forall|j: int| 0 <= j < i ==> old(self).is_open(j),
            decreases len - i,
        {
            if self.slots[i].is_none() {
                return Ok(i);
            }
            i = i + 1;
        }
        if len < self.limit {
            self.slots.push(None);
            Ok(len)
        } else {
            Err(Errno::EMFILE)
        }
    }

    /// Makes descriptor `new_fd` refer to the open file of `old_fd`, without
    /// close-on-exec; returns `new_fd`.
    pub fn copyfrom(&mut self, old_fd: usize, new_fd: usize) -> (r: SyscallResult)
        requires
            old(self).wf(),
            old(self).is_open(old_fd as int),
            new_fd < old(self).slots@.len(),
            new_fd <= isize::MAX,
        ensures
            final(self).wf(),
            r == Ok::<isize, Errno>(new_fd as isize),
            final(self).limit == old(self).limit,
            final(self).slots@ == old(self).slots@.update(new_fd as int,
                Some(FdSlot { file: old(self).slot(old_fd as int).file, cloexec: false })),
    {
        let file = match self.slots[old_fd] {
            Some(s) => s.file,
            None => { return Err(Errno::EBADF); },
        };
        self.slots.set(new_fd, Some(FdSlot { file, cloexec: false }));
        Ok(new_fd as isize)
    }

    /// Makes room for descriptor `fd`; `EBADF` if it is not below the limit.
    pub fn fill_to(&mut self, fd: usize) -> (r: SysResult<()>)
        requires
            old(self).wf(),
        ensures
            final(self).wf(),
            final(self).limit == old(self).limit,
            fd >= old(self).limit ==> r == Err::<(), Errno>(Errno::EBADF) && final(self).slots@ == old(self).slots@,
            fd < old(self).limit ==> r == Ok::<(), Errno>(()) && fd < final(self).slots@.len()
                && final(self).slots@.len() == if fd < old(self).slots@.len() { old(self).slots@.len() as int } else { fd + 1 }
                && forall|j: int| 0 <= j < final(self).slots@.len() ==> #[trigger] final(self).slots@[j]
                    == if j < old(self).slots@.len() { old(self).slots@[j] } else { None },
    {
        if fd >= self.limit {
            return Err(Errno::EBADF);
        }
        while self.slots.len() <= fd
            invariant
                fd < self.limit,
                self.limit == old(self).limit,
                old(self).slots@.len() <= old(self).limit,
                self.slots@.len() >= old(self).slots@.len(),
                self.slots@.len() == old(self).slots@.len() || self.slots@.len() <= fd + 1,
                forall|j: int| 0 <= j < self.slots@.len() ==> #[trigger] self.slots@[j]
                    == if j < old(self).slots@.len() { old(self).slots@[j] } else { None },
            decreases fd + 1 - self.slots@.len(),
        {
            self.slots.push(None);
        }
        Ok(())
    }

    /// Closes descriptor `fd`; `EBADF` if it is not open.
    pub fn close(&mut self, fd: usize) -> (r: SyscallResult)
        requires
            old(self).wf(),
        ensures
            final(self).wf(),
            final(self).limit == old(self).limit,
            !old(self).is_open(fd as int) ==> r == Err::<isize, Errno>(Errno::EBADF) && final(self).slots@ == old(self).slots@,
            old(self).is_open(fd as int) ==> r == Ok::<isize, Errno>(0) && final(self).slots@ == old(self).slots@.update(fd as int, None),
    {
        if fd < self.slots.len() && self.slots[fd].is_some() {
            self.slots.set(fd, None);
            Ok(0)
        } else {
            Err(Errno::EBADF)
        }
    }

    /// Sets close-on-exec on descriptor `fd`.
    pub fn set_cloexec(&mut self, fd: usize)
        requires
            old(self).wf(),
            old(self).is_open(fd as int),
        ensures
            final(self).wf(),
            final(self).limit == old(self).limit,
            final(self).slots@ == old(self).slots@.update(fd as int, Some(FdSlot { cloexec: true, ..old(self).slot(fd as int) })),
    {
        match self.slots[fd] {
            Some(s) => {
                self.slots.set(fd, Some(FdSlot { cloexec: true, ..s }));
            },
            None => {},
        }
    }

    /// Makes free descriptor `fd` refer to the newly opened file `file`.
    pub fn install(&mut self, fd: usize, file: FileEntry, cloexec: bool)
        requires
            old(self).wf(),
            fd < old(self).slots@.len(),
            forall|j: int| old(self).is_open(j) ==> old(self).slot(j).file.id != file.id,
        ensures
            final(self).wf(),
            final(self).limit == old(self).limit,
            final(self).slots@ == old(self).slots@.update(fd as int, Some(FdSlot { file, cloexec })),
    {
        self.slots.set(fd, Some(FdSlot { file, cloexec }));
        proof {
            assert forall|a: int, b: int| #![trigger self.slots@[a], self.slots@[b]]
                self.is_open(a) && self.is_open(b) && self.slot(a).file.id == self.slot(b).file.id
                    implies self.slot(a).file == self.slot(b).file by {
                if a != fd {
                    assert(old(self).is_open(a));
                    let _ = old(self).slots@[a];
                }
                if b != fd {
                    assert(old(self).is_open(b));
                    let _ = old(self).slots@[b];
                }
            }
        }
    }

    /// Replaces open file `file.id` by `file` under every descriptor that
    /// refers to it.
    pub fn update_file(&mut self, file: FileEntry)
        requires
            old(self).wf(),
        ensures
            final(self).wf(),
            final(self).limit == old(self).limit,
            final(self).slots@.len() == old(self).slots@.len(),
            forall|j: int| 0 <= j < old(self).slots@.len() ==> #[trigger] final(self).slots@[j] == match old(self).slots@[j] {
                Some(s) => if s.file.id == file.id { Some(FdSlot { file, ..s }) } else { Some(s) },
                None => None,
            },
    {
        let len = self.slots.len();
        let mut i: usize = 0;
        while i < len
            invariant
                i <= len,
                len == old(self).slots@.len(),
                self.limit == old(self).limit,
                self.slots@.len() == len,
                len <= self.limit,
                old(self).wf(),
                forall|j: int| 0 <= j < len ==> #[trigger] self.slots@[j] == if j < i {
                    match old(self).slots@[j] {
                        Some(s) => if s.file.id == file.id { Some(FdSlot { file, ..s }) } else { Some(s) },
                        None => None,
                    }
                } else {
                    old(self).slots@[j]
                },
            decreases len - i,
        {
            match self.slots[i] {
                Some(s) => {
                    if s.file.id == file.id {
                        self.slots.set(i, Some(FdSlot { file, ..s }));
                    }
                },
                None => {},
            }
            i = i + 1;
        }
        proof {
            assert forall|a: int, b: int| #![trigger self.slots@[a], self.slots@[b]]
                self.is_open(a) && self.is_open(b) && self.slot(a).file.id == self.slot(b).file.id
                    implies self.slot(a).file == self.slot(b).file by {
                assert(old(self).is_open(a) && old(self).is_open(b));
                let _ = old(self).slots@[a];
                let _ = old(self).slots@[b];
            }
        }
    }
}

impl FdTable {
    /// Gives every open file on inode `ino` the permission bits `mode`.
    pub fn set_inode_mode(&mut self, ino: usize, mode: u32)
        requires
            old(self).wf(),
        ensures
            final(self).wf(),
            final(self).limit == old(self).limit,
            final(self).slots@.len() == old(self).slots@.len(),
            forall|j: int| 0 <= j < old(self).slots@.len()
                ==> #[trigger] final(self).slots@[j] == slot_with_mode(old(self).slots@[j], ino, mode),
    {
        let len = self.slots.len();
        let mut i: usize = 0;
        while i < len
            invariant
                i <= len,
                len == old(self).slots@.len(),
                self.limit == old(self).limit,
                self.slots@.len() == len,
                len <= self.limit,
                old(self).wf(),
                forall|j: int| 0 <= j < len ==> #[trigger] self.slots@[j] == if j < i {
                    slot_with_mode(old(self).slots@[j], ino, mode)
                } else {
                    old(self).slots@[j]
                },
            decreases len - i,
        {
            match self.slots[i] {
                Some(s) => {
                    if s.file.inode == ino {
                        self.slots.set(i, Some(FdSlot { file: FileEntry { mode, ..s.file }, ..s }));
                    }
                },
                None => {},
            }
            i = i + 1;
        }
        proof {
            assert forall|a: int, b: int| #![trigger self.slots@[a], self.slots@[b]]
                self.is_open(a) && self.is_open(b) && self.slot(a).file.id == self.slot(b).file.id
                    implies self.slot(a).file == self.slot(b).file by {
                assert(old(self).is_open(a) && old(self).is_open(b));
                let _ = old(self).slots@[a];
                let _ = old(self).slots@[b];
            }
        }
    }
}

/// Whether a task with IDs `sender` may send a signal to, or change the
/// priority of, a task with IDs `target`: root may, and so may a task whose
/// real or effective user ID is the target's real or saved one.
pub open spec fn may_act_on(sender: UserId, target: UserId) -> bool {
    sender.euid == 0 || sender.uid == target.uid || sender.uid == target.suid
        || sender.euid == target.uid || sender.euid == target.suid
}

/// `new` is `old` after receiving signal information `info`: the signal is
/// queued unless it is already pending, and nothing else changes.
pub open spec fn task_received(old: Task, new: Task, info: SigInfo) -> bool {
    &&& new.signals.queue@ == if old.signals.pending_set.has_signal(info.signal) {
        old.signals.queue@
    } else {
        old.signals.queue@.push(info)
    }
    &&& forall|k: int| new.signals.pending_set.has(k) == (old.signals.pending_set.has(k) || k == SigSet::offset(info.signal))
    &&& new.signals.sig_mask == old.signals.sig_mask
    &&& new.signals.should_wake == old.signals.should_wake
    &&& new.tid == old.tid
    &&& new.tgid == old.tgid
    &&& new.pgid == old.pgid
    &&& new.parent == old.parent
    &&& new.user_id == old.user_id
    &&& new.sup_groups == old.sup_groups
    &&& new.fd_table == old.fd_table
    &&& new.clear_child_tid == old.clear_child_tid
    &&& new.robust_list == old.robust_list
    &&& new.sig_mask == old.sig_mask
    &&& new.sa_list == old.sa_list
    &&& new.sig_stack == old.sig_stack
    &&& new.exit_code == old.exit_code
    &&& new.nice == old.nice
    &&& new.current_syscall == old.current_syscall
    &&& new.root == old.root
    &&& new.cwd == old.cwd
}

/// A task.
pub struct Task {
    /// Thread ID.
    pub tid: usize,
    /// Thread group (process) ID.
    pub tgid: usize,
    /// Process group ID.
    pub pgid: usize,
    /// Thread ID of the parent, if it has one.
    pub parent: Option<usize>,
    /// User and group IDs.
    pub user_id: UserId,
    /// Supplementary group IDs.
    pub sup_groups: Vec<u32>,
    /// Open files.
    pub fd_table: FdTable,
    /// Where to clear the thread ID when the task exits.
    pub clear_child_tid: Option<usize>,
    /// Robust futex list.
    pub robust_list: RobustList,
    /// Blocked signals.
    pub sig_mask: SigMask,
    /// Signal actions.
    pub sa_list: SigActionList,
    /// Pending signals.
    pub signals: SigPending,
    /// Alternate signal stack.
    pub sig_stack: Option<SigAltStack>,
    /// Exit code, once the task was told to exit.
    pub exit_code: Option<i32>,
    /// Nice value.
    pub nice: i32,
    /// The system call the task is making, if any.
    pub current_syscall: SyscallID,
    /// Directory entry of the task's root directory.
    pub root: usize,
    /// Directory entry of the task's working directory.
    pub cwd: usize,
}

impl Task {
    /// Pending signals and open files are well formed.
    pub open spec fn wf(&self) -> bool {
        &&& self.signals.wf()
        &&& self.fd_table.wf()
    }

    /// Whether the task leads its thread group.
    pub open spec fn spec_is_group_leader(&self) -> bool {
        self.tid == self.tgid
    }

    /// A task with no open file below `fd_limit`, no pending signal, default
    /// signal actions and nice value zero.
    pub fn new(tid: usize, tgid: usize, pgid: usize, parent: Option<usize>, user_id: UserId, fd_limit: usize) -> (r: Task)
        requires
            fd_limit <= isize::MAX,
        ensures
            r.wf(),
            r.tid == tid,
            r.tgid == tgid,
            r.pgid == pgid,
            r.parent == parent,
            r.user_id == user_id,
            r.sup_groups@.len() == 0,
            r.fd_table.slots@.len() == 0,
            r.fd_table.limit == fd_limit,
            r.clear_child_tid.is_none(),
            r.robust_list == (RobustList { head: 0, len: 0 }),
            r.sig_mask.spec_bits() == 0,
            r.signals.queue@.len() == 0,
            r.sig_stack.is_none(),
            r.exit_code.is_none(),
            r.nice == 0,
            r.current_syscall == SyscallID::NO_SYSCALL,
            r.root == ROOT_DENTRY,
            r.cwd == ROOT_DENTRY,
    {
        Task {
            tid,
            tgid,
            pgid,
            parent,
            user_id,
            sup_groups: Vec::new(),
            fd_table: FdTable::new(fd_limit),
            clear_child_tid: None,
            robust_list: RobustList { head: 0, len: 0 },
            sig_mask: SigSet::empty(),
            sa_list: SigActionList::new(),
            signals: SigPending::new(),
            sig_stack: None,
            exit_code: None,
            nice: 0,
            current_syscall: SyscallID::NO_SYSCALL,
            root: ROOT_DENTRY,
            cwd: ROOT_DENTRY,
        }
    }

    /// Whether the task leads its thread group.
    #[verifier::when_used_as_spec(spec_is_group_leader)]
    pub fn is_group_leader(&self) -> (r: bool)
        ensures
            r == (self.tid == self.tgid),
    {
        self.tid == self.tgid
    }

    /// Whether the task may send a signal to `target`.
    pub fn check_user_permission(&self, target: &Task) -> (r: bool)
        ensures
            r == may_act_on(self.user_id, target.user_id),
    {
        let s = self.user_id;
        let t = target.user_id;
        s.euid == 0 || s.uid == t.uid || s.uid == t.suid || s.euid == t.uid || s.euid == t.suid
    }

    /// Queues a signal for the task.
    pub fn recv_siginfo(&mut self, info: SigInfo)
        requires
            old(self).wf(),
            info.signal.is_valid(),
        ensures
            final(self).wf(),
            task_received(*old(self), *final(self), info),
    {
        self.signals.push(info);
    }
}

/// Who may signal whom: a task whose effective user ID is root may act on
/// any task; any task may act on one whose real or saved user ID is its own
/// real or effective one; no other task may.
pub proof fn law_permission(sender: UserId, target: UserId)
    ensures
        sender.euid == 0 ==> may_act_on(sender, target),
        sender.uid == target.uid || sender.euid == target.uid ==> may_act_on(sender, target),
        sender.uid == target.suid || sender.euid == target.suid ==> may_act_on(sender, target),
        sender.euid != 0 && sender.uid != target.uid && sender.uid != target.suid
            && sender.euid != target.uid && sender.euid != target.suid ==> !may_act_on(sender, target),
{
}

} // verus!
