//! File system calls on the descriptor table: duplicating, closing, seeking,
//! and the argument checks of `fallocate` and `fadvise64`.
use vstd::prelude::*;
use crate::errno::{Errno, SysResult, SyscallResult};
use crate::syscall::syscall::Syscall;
use crate::task::{slot_with_mode, FdSlot, FdTable, FileEntry, Task};

verus! {

/// The checks of `getcwd` for a path of `path_len` bytes, its terminating
/// zero included, and a buffer of `size` bytes at `buf`: `ERANGE` if the path
/// does not fit, `EFAULT` for a null buffer; else the address of the buffer
/// is returned once the path is copied there.
pub fn getcwd_check(path_len: usize, buf: usize, size: usize) -> (r: SyscallResult)
    ensures
        path_len > size ==> r == Err::<isize, Errno>(Errno::ERANGE),
        path_len <= size && buf == 0 ==> r == Err::<isize, Errno>(Errno::EFAULT),
        path_len <= size && buf != 0 ==> r == Ok::<isize, Errno>(buf as isize),
{
    if path_len > size {
        return Err(Errno::ERANGE);
    }
    if buf == 0 {
        return Err(Errno::EFAULT);
    }
    Ok(buf as isize)
}

/// What a path lookup tells of the inode it reached.
#[derive(Clone, Copy, Debug, PartialEq, Eq, Structural)]
pub struct DirInfo {
    /// Whether the inode is a directory.
    pub is_dir: bool,
    /// Whether the caller may search it.
    pub searchable: bool,
    /// The directory entry the path reached.
    pub dentry: usize,
}

/// Flags that `faccessat` accepts.
pub const FACCESSAT_FLAGS: i32 = 0xffffi32;

/// The modes that `faccessat` checks: existence, reading, writing, running.
pub const ACCESS_MODES: i32 = 7i32;

/// `O_CLOEXEC`, the one flag that `dup3` takes.
pub const O_CLOEXEC: i32 = 0x80000i32;

/// Largest file size of the file system, 16 TiB.
pub const EXT4_MAX_FILE_SIZE: u64 = 0x1000_0000_0000u64;

/// All `FALLOC_FL_*` flags.
pub const FALLOC_FLAGS_ALL: i32 = 0x7fi32;

/// The table after the descriptors of open file `file.id` were made to see `file`.
pub open spec fn file_updated(old: FdTable, new: FdTable, file: FileEntry) -> bool {
    &&& new.limit == old.limit
    &&& new.slots@.len() == old.slots@.len()
    &&& forall|j: int| 0 <= j < old.slots@.len() ==> #[trigger] new.slots@[j] == match old.slots@[j] {
        Some(s) => if s.file.id == file.id { Some(FdSlot { file, ..s }) } else { Some(s) },
        None => None,
    }
}

/// Where `lseek` puts the offset of `f` for `offset` and `whence`
/// (`SEEK_SET`, `SEEK_CUR` or `SEEK_END`).
pub open spec fn seek_target(f: FileEntry, offset: isize, whence: usize) -> int {
    if whence == 0 {
        offset as int
    } else if whence == 1 {
        f.pos + offset
    } else {
        f.size + offset
    }
}

/// Task `after` is `before` with every open file on inode `ino` given
/// permission bits `mode`.
pub open spec fn task_mode_set(before: Task, after: Task, ino: usize, mode: u32) -> bool {
    &&& after == Task { fd_table: after.fd_table, ..before }
    &&& after.fd_table.limit == before.fd_table.limit
    &&& after.fd_table.slots@.len() == before.fd_table.slots@.len()
    &&& forall|j: int| 0 <= j < before.fd_table.slots@.len()
        ==> #[trigger] after.fd_table.slots@[j] == slot_with_mode(before.fd_table.slots@[j], ino, mode)
}

/// Every task of `after` is that of `before` with the open files on inode
/// `ino` given permission bits `mode`.
pub open spec fn inode_mode_set(before: Seq<Task>, after: Seq<Task>, ino: usize, mode: u32) -> bool {
    &&& after.len() == before.len()
    &&& forall|k: int| 0 <= k < before.len() ==> task_mode_set(before[k], #[trigger] after[k], ino, mode)
}

impl Syscall {
    /// The open file of descriptor `fd` of the calling task.
    pub open spec fn file_of(&self, fd: usize) -> FileEntry {
        self.task().fd_table.slot(fd as int).file
    }

    /// Whether descriptor `fd` of the calling task is open.
    pub open spec fn fd_open(&self, fd: usize) -> bool {
        self.task().fd_table.is_open(fd as int)
    }

    /// Makes the directory that the path reached (`lookup`, or the error of
    /// the lookup) the root of the calling task: `ENOTDIR` for another file,
    /// `EACCES` if the caller may not search it, `EPERM` unless the caller's
    /// file-system user is root. Nothing changes on error.
    pub fn sys_chroot(&mut self, lookup: SysResult<DirInfo>) -> (r: SyscallResult)
        requires
            old(self).wf(),
        ensures
            final(self).wf(),
            r == match lookup {
                Err(e) => Err(e),
                Ok(d) => if !d.is_dir {
                    Err(Errno::ENOTDIR)
                } else if !d.searchable {
                    Err(Errno::EACCES)
                } else if old(self).task().user_id.fsuid != 0 {
                    Err(Errno::EPERM)
                } else {
                    Ok(0isize)
                },
            },
            r is Err ==> final(self).current == old(self).current && final(self).tasks@ == old(self).tasks@,
            r is Ok ==> (lookup matches Ok(d)
                && final(self).current_becomes(*old(self), Task { root: d.dentry, ..old(self).task() })),
    {
        let d = match lookup {
            Err(e) => return Err(e),
            Ok(d) => d,
        };
        if !d.is_dir {
            return Err(Errno::ENOTDIR);
        }
        if !d.searchable {
            return Err(Errno::EACCES);
        }
        let c = self.current;
        if self.tasks[c].user_id.fsuid != 0 {
            return Err(Errno::EPERM);
        }
        self.tasks[c].root = d.dentry;
        proof {
            assert(self.tasks@ =~= old(self).tasks@.update(c as int, Task { root: d.dentry, ..old(self).task() }));
            self.lemma_current_change_keeps_wf(*old(self), self.task());
        }
        Ok(0)
    }

    /// Makes the directory that the path reached the working directory of
    /// the calling task once it can be entered (`arrive`): `ENOTDIR` for
    /// another file. Nothing changes on error.
    pub fn sys_chdir(&mut self, lookup: SysResult<DirInfo>, arrive: SysResult<()>) -> (r: SyscallResult)
        requires
            old(self).wf(),
        ensures
            final(self).wf(),
            r == match lookup {
                Err(e) => Err(e),
                Ok(d) => if !d.is_dir {
                    Err(Errno::ENOTDIR)
                } else {
                    match arrive {
                        Err(e) => Err(e),
                        Ok(()) => Ok(0isize),
                    }
                },
            },
            r is Err ==> final(self).current == old(self).current && final(self).tasks@ == old(self).tasks@,
            r is Ok ==> (lookup matches Ok(d)
                && final(self).current_becomes(*old(self), Task { cwd: d.dentry, ..old(self).task() })),
    {
        let d = match lookup {
            Err(e) => return Err(e),
            Ok(d) => d,
        };
        if !d.is_dir {
            return Err(Errno::ENOTDIR);
        }
        match arrive {
            Err(e) => return Err(e),
            Ok(()) => {},
        }
        let c = self.current;
        self.tasks[c].cwd = d.dentry;
        proof {
            assert(self.tasks@ =~= old(self).tasks@.update(c as int, Task { cwd: d.dentry, ..old(self).task() }));
            self.lemma_current_change_keeps_wf(*old(self), self.task());
        }
        Ok(0)
    }

    /// Makes the directory entry of the open file of `fd` the working
    /// directory of the calling task once the caller may search it
    /// (`access`, the answer of that check): `EBADF` if `fd` is not open.
    /// Nothing changes on error.
    pub fn sys_fchdir(&mut self, fd: usize, access: SysResult<()>) -> (r: SyscallResult)
        requires
            old(self).wf(),
        ensures
            final(self).wf(),
            !old(self).fd_open(fd) ==> r == Err::<isize, Errno>(Errno::EBADF),
            old(self).fd_open(fd) ==> r == match access {
                Err(e) => Err(e),
                Ok(()) => Ok(0isize),
            },
            r is Err ==> final(self).current == old(self).current && final(self).tasks@ == old(self).tasks@,
            r is Ok ==> final(self).current_becomes(*old(self), Task { cwd: old(self).file_of(fd).dentry, ..old(self).task() }),
    {
        let c = self.current;
        let file = match self.tasks[c].fd_table.get(fd) {
            Some(f) => f,
            None => return Err(Errno::EBADF),
        };
        match access {
            Err(e) => return Err(e),
            Ok(()) => {},
        }
        self.tasks[c].cwd = file.dentry;
        proof {
            assert(self.tasks@ =~= old(self).tasks@.update(c as int, Task { cwd: file.dentry, ..old(self).task() }));
            self.lemma_current_change_keeps_wf(*old(self), self.task());
        }
        Ok(0)
    }

    /// Gives every open file on inode `ino`, in every task, the permission
    /// bits `mode`.
    fn set_inode_mode(&mut self, ino: usize, mode: u32)
        requires
            old(self).wf(),
        ensures
            final(self).wf(),
            final(self).current == old(self).current,
            inode_mode_set(old(self).tasks@, final(self).tasks@, ino, mode),
    {
        let len = self.tasks.len();
        let mut k: usize = 0;
        while k < len
            invariant
                k <= len,
                len == old(self).tasks@.len(),
                self.tasks@.len() == len,
                self.current == old(self).current,
                old(self).wf(),
                self.current < len,
                forall|i: int| 0 <= i < len ==> (#[trigger] self.tasks@[i]).wf(),
                forall|i: int| k <= i < len ==> #[trigger] self.tasks@[i] == old(self).tasks@[i],
                forall|i: int| 0 <= i < k ==> task_mode_set(old(self).tasks@[i], #[trigger] self.tasks@[i], ino, mode),
            decreases len - k,
        {
            self.tasks[k].fd_table.set_inode_mode(ino, mode);
            k = k + 1;
        }
    }

    /// The checks of `faccessat`: the error of reading the path (`path`),
    /// then `EINVAL` for a flag above the low 16 bits, then the error of the
    /// path lookup, `EINVAL` for a mode other than existence, reading,
    /// writing and running, then the answer of the permission check
    /// (`access`), made with the effective IDs when `flags` holds `AT_EACCESS`.
    pub fn sys_faccessat(&self, path: SysResult<()>, flags: i32, mode: i32, lookup: SysResult<()>, access: SysResult<()>)
        -> (r: SyscallResult)
        ensures
            r == match path {
                Err(e) => Err::<isize, Errno>(e),
                Ok(()) => if flags & !FACCESSAT_FLAGS != 0 {
                    Err(Errno::EINVAL)
                } else {
                    match lookup {
                        Err(e) => Err(e),
                        Ok(()) => if mode & !ACCESS_MODES != 0 {
                            Err(Errno::EINVAL)
                        } else {
                            match access {
                                Err(e) => Err(e),
                                Ok(()) => Ok(0isize),
                            }
                        },
                    }
                },
            },
    {
        match path {
            Err(e) => return Err(e),
            Ok(()) => {},
        }
        if flags & !FACCESSAT_FLAGS != 0 {
            return Err(Errno::EINVAL);
        }
        match lookup {
            Err(e) => return Err(e),
            Ok(()) => {},
        }
        if mode & !ACCESS_MODES != 0 {
            return Err(Errno::EINVAL);
        }
        match access {
            Err(e) => Err(e),
            Ok(()) => Ok(0),
        }
    }

    /// Sets the permission bits of the inode that the path reached (`lookup`
    /// gives it, or the error of the lookup) to `mode`: `ENOENT` for an empty
    /// path. Nothing changes on error.
    pub fn sys_fchmodat(&mut self, path_is_empty: bool, lookup: SysResult<usize>, mode: usize) -> (r: SyscallResult)
        requires
            old(self).wf(),
        ensures
            final(self).wf(),
            final(self).current == old(self).current,
            r == if path_is_empty {
                Err::<isize, Errno>(Errno::ENOENT)
            } else {
                match lookup {
                    Err(e) => Err(e),
                    Ok(_) => Ok(0isize),
                }
            },
            r is Err ==> final(self).tasks@ == old(self).tasks@,
            r is Ok ==> (lookup matches Ok(ino) && inode_mode_set(old(self).tasks@, final(self).tasks@, ino, mode as u32)),
    {
        if path_is_empty {
            return Err(Errno::ENOENT);
        }
        let ino = match lookup {
            Err(e) => return Err(e),
            Ok(i) => i,
        };
        self.set_inode_mode(ino, mode as u32);
        Ok(0)
    }

    /// Duplicates descriptor `fd` to the lowest free descriptor, without
    /// close-on-exec, and returns it; `EBADF` if `fd` is not open, `EMFILE`
    /// if no descriptor is free.
    pub fn sys_dup(&mut self, fd: usize) -> (r: SyscallResult)
        requires
            old(self).wf(),
        ensures
            final(self).wf(),
            dup_outcome(*old(self), *final(self), fd, r),
    {
        proof { self.lemma_unchanged(); }
        let c = self.current;
        if self.tasks[c].fd_table.get(fd).is_none() {
            return Err(Errno::EBADF);
        }
        let new_fd = match self.tasks[c].fd_table.alloc_fd() {
            Ok(n) => n,
            Err(e) => {
                proof { self.lemma_current_change_keeps_wf(*old(self), self.task()); }
                return Err(e);
            },
        };
        let ghost mid = self.tasks@;
        let r = self.tasks[c].fd_table.copyfrom(fd, new_fd);
        proof {
            assert(self.tasks@ =~= mid.update(c as int, self.task()));
            assert(self.tasks@ =~= old(self).tasks@.update(c as int, self.task()));
            self.lemma_current_change_keeps_wf(*old(self), self.task());
        }
        r
    }

    /// Makes descriptor `new_fd` refer to the open file of `old_fd`, closing
    /// what it referred to, with close-on-exec when `flags` holds `O_CLOEXEC`,
    /// and returns `new_fd`. `EINVAL` for another flag or equal descriptors,
    /// `EBADF` if `old_fd` is not open or `new_fd` is not below the limit.
    pub fn sys_dup3(&mut self, old_fd: usize, new_fd: usize, flags: i32) -> (r: SyscallResult)
        requires
            old(self).wf(),
        ensures
            final(self).wf(),
            dup3_outcome(*old(self), *final(self), old_fd, new_fd, flags, r),
    {
        proof { self.lemma_unchanged(); }
        if flags & !O_CLOEXEC != 0 {
            return Err(Errno::EINVAL);
        }
        if new_fd == old_fd {
            return Err(Errno::EINVAL);
        }
        let c = self.current;
        if self.tasks[c].fd_table.get(old_fd).is_none() {
            return Err(Errno::EBADF);
        }
        match self.tasks[c].fd_table.fill_to(new_fd) {
            Ok(()) => {},
            Err(e) => {
                proof { self.lemma_current_change_keeps_wf(*old(self), self.task()); }
                return Err(e);
            },
        }
        let ghost mid = self.tasks@;
        let _ = self.tasks[c].fd_table.copyfrom(old_fd, new_fd);
        proof { assert(self.tasks@ =~= mid.update(c as int, self.task())); }
        if flags & O_CLOEXEC != 0 {
            let ghost mid2 = self.tasks@;
            self.tasks[c].fd_table.set_cloexec(new_fd);
            proof { assert(self.tasks@ =~= mid2.update(c as int, self.task())); }
        }
        proof {
            assert(self.tasks@ =~= old(self).tasks@.update(c as int, self.task()));
            self.lemma_current_change_keeps_wf(*old(self), self.task());
        }
        Ok(new_fd as isize)
    }

    /// Closes descriptor `fd`; `EBADF` if it is not open.
    pub fn sys_close(&mut self, fd: usize) -> (r: SyscallResult)
        requires
            old(self).wf(),
        ensures
            final(self).wf(),
            final(self).current_becomes(*old(self), Task { fd_table: final(self).task().fd_table, ..old(self).task() }),
            final(self).task().fd_table.limit == old(self).task().fd_table.limit,
            !old(self).fd_open(fd) ==> r == Err::<isize, Errno>(Errno::EBADF)
                && final(self).task().fd_table.slots@ == old(self).task().fd_table.slots@,
            old(self).fd_open(fd) ==> r == Ok::<isize, Errno>(0)
                && final(self).task().fd_table.slots@ == old(self).task().fd_table.slots@.update(fd as int, None),
    {
        proof { self.lemma_unchanged(); }
        let c = self.current;
        let r = self.tasks[c].fd_table.close(fd);
        proof { self.lemma_current_change_keeps_wf(*old(self), self.task()); }
        r
    }

    /// Moves the offset of the open file of `fd`: to `offset` (`SEEK_SET`,
    /// 0), by `offset` (`SEEK_CUR`, 1) or to the end plus `offset`
    /// (`SEEK_END`, 2), and returns the new offset; `SEEK_DATA` (3) and
    /// `SEEK_HOLE` (4) leave it and return it. `EBADF` if `fd` is not open,
    /// `EINVAL` for another `whence` or a negative offset, `EOVERFLOW` for an
    /// offset past `isize::MAX`.
    pub fn sys_lseek(&mut self, fd: usize, offset: isize, whence: usize) -> (r: SyscallResult)
        requires
            old(self).wf(),
        ensures
            final(self).wf(),
            lseek_outcome(*old(self), *final(self), fd, offset, whence, r),
    {
        proof { self.lemma_unchanged(); }
        let c = self.current;
        let file = match self.tasks[c].fd_table.get(fd) {
            Some(f) => f,
            None => return Err(Errno::EBADF),
        };
        if whence > 4 {
            return Err(Errno::EINVAL);
        }
        if whence == 3 || whence == 4 {
            return Ok(file.pos as isize);
        }
        let base: i128 = if whence == 0 {
            0
        } else if whence == 1 {
            file.pos as i128
        } else {
            file.size as i128
        };
        let target: i128 = base + offset as i128;
        if target < 0 {
            return Err(Errno::EINVAL);
        }
        if target > isize::MAX as i128 {
            return Err(Errno::EOVERFLOW);
        }
        let new_file = FileEntry { pos: target as u64, ..file };
        self.tasks[c].fd_table.update_file(new_file);
        proof { self.lemma_current_change_keeps_wf(*old(self), self.task()); }
        Ok(target as isize)
    }

    /// Sets the permission bits of the inode of the open file of `fd` to
    /// `mode`, as every open file on it then sees; `EBADF` if `fd` is not
    /// open, `EINVAL` for a file opened with `O_PATH`.
    pub fn sys_fchmod(&mut self, fd: usize, mode: usize) -> (r: SyscallResult)
        requires
            old(self).wf(),
        ensures
            final(self).wf(),
            final(self).current == old(self).current,
            r is Err ==> final(self).tasks@ == old(self).tasks@,
            !old(self).fd_open(fd) ==> r == Err::<isize, Errno>(Errno::EBADF),
            old(self).fd_open(fd) && old(self).file_of(fd).o_path ==> r == Err::<isize, Errno>(Errno::EINVAL),
            old(self).fd_open(fd) && !old(self).file_of(fd).o_path ==> r == Ok::<isize, Errno>(0)
                && inode_mode_set(old(self).tasks@, final(self).tasks@, old(self).file_of(fd).inode, mode as u32),
    {
        let c = self.current;
        let file = match self.tasks[c].fd_table.get(fd) {
            Some(f) => f,
            None => return Err(Errno::EBADF),
        };
        if file.o_path {
            return Err(Errno::EINVAL);
        }
        self.set_inode_mode(file.inode, mode as u32);
        Ok(0)
    }

    /// Checks the arguments of `fallocate`, which allocates nothing:
    /// `EINVAL` for a negative offset, an empty length or an unknown mode flag,
    /// `EFBIG` past the largest file size, `EBADF` if `fd` is not open or not
    /// writable, `EISDIR` for a directory.
    pub fn sys_fallocate(&self, fd: usize, mode: i32, offset: isize, len: isize) -> (r: SyscallResult)
        requires
            self.wf(),
        ensures
            offset < 0 || len <= 0 ==> r == Err::<isize, Errno>(Errno::EINVAL),
            offset >= 0 && len > 0 && offset + len > EXT4_MAX_FILE_SIZE ==> r == Err::<isize, Errno>(Errno::EFBIG),
            offset >= 0 && len > 0 && offset + len <= EXT4_MAX_FILE_SIZE ==> r == {
                if mode & !FALLOC_FLAGS_ALL != 0 {
                    Err::<isize, Errno>(Errno::EINVAL)
                } else if !self.fd_open(fd) {
                    Err(Errno::EBADF)
                } else if self.file_of(fd).is_dir {
                    Err(Errno::EISDIR)
                } else if !self.file_of(fd).writable {
                    Err(Errno::EBADF)
                } else {
                    Ok(0)
                }
            },
    {
        if offset < 0 || len <= 0 {
            return Err(Errno::EINVAL);
        }
        let end: u64 = offset as u64 + len as u64;
        if end > EXT4_MAX_FILE_SIZE {
            return Err(Errno::EFBIG);
        }
        if mode & !FALLOC_FLAGS_ALL != 0 {
            return Err(Errno::EINVAL);
        }
        let file = match self.tasks[self.current].fd_table.get(fd) {
            Some(f) => f,
            None => return Err(Errno::EBADF),
        };
        if file.is_dir {
            return Err(Errno::EISDIR);
        }
        if !file.writable {
            return Err(Errno::EBADF);
        }
        Ok(0)
    }

    /// Checks the arguments of `fadvise64`, which takes no advice: `EINVAL`
    /// for an advice above 5 or negative, `EBADF` if `fd` is not open.
    pub fn sys_fadvise64(&self, fd: usize, offset: usize, len: usize, advice: i32) -> (r: SyscallResult)
        requires
            self.wf(),
        ensures
            !(0 <= advice <= 5) ==> r == Err::<isize, Errno>(Errno::EINVAL),
            0 <= advice <= 5 && !self.fd_open(fd) ==> r == Err::<isize, Errno>(Errno::EBADF),
            0 <= advice <= 5 && self.fd_open(fd) ==> r == Ok::<isize, Errno>(0),
    {
        if !(0 <= advice && advice <= 5) {
            return Err(Errno::EINVAL);
        }
        match self.tasks[self.current].fd_table.get(fd) {
            Some(_) => Ok(0),
            None => Err(Errno::EBADF),
        }
    }

    /// Unmounting is accepted and does nothing.
    pub fn sys_umount2(&self, dir: &str, flags: usize) -> (r: SyscallResult)
        ensures
            r == Ok::<isize, Errno>(0),
    {
        Ok(0)
    }

    /// How many bytes `copy_file_range` copies from `fd_in` to `fd_out`: what
    /// is left of the input file after `off_in`, or after its own offset when
    /// `off_in` is `None`, but at most `len`. `EINVAL` for any flag, `EBADF`
    /// if a descriptor is not open or the input is not readable or the
    /// output not writable.
    pub fn copy_file_range_len(&self, fd_in: usize, off_in: Option<u32>, fd_out: usize, len: usize, flags: i32)
        -> (r: SysResult<usize>)
        requires
            self.wf(),
        ensures
            r == if flags != 0 {
                Err::<usize, Errno>(Errno::EINVAL)
            } else if !self.fd_open(fd_in) || !self.fd_open(fd_out) {
                Err(Errno::EBADF)
            } else if !self.file_of(fd_in).readable || !self.file_of(fd_out).writable {
                Err(Errno::EBADF)
            } else {
                let size = self.file_of(fd_in).size;
                let offset: int = match off_in {
                    Some(o) => o as int,
                    None => self.file_of(fd_in).pos as int,
                };
                if size <= offset {
                    Ok(0usize)
                } else if size - offset < len {
                    Ok((size - offset) as usize)
                } else {
                    Ok(len)
                }
            },
    {
        if flags != 0 {
            return Err(Errno::EINVAL);
        }
        let c = self.current;
        let in_file = match self.tasks[c].fd_table.get(fd_in) {
            Some(f) => f,
            None => return Err(Errno::EBADF),
        };
        let out_file = match self.tasks[c].fd_table.get(fd_out) {
            Some(f) => f,
            None => return Err(Errno::EBADF),
        };
        if !in_file.readable || !out_file.writable {
            return Err(Errno::EBADF);
        }
        let offset: u64 = match off_in {
            Some(o) => o as u64,
            None => in_file.pos,
        };
        if in_file.size <= offset {
            return Ok(0);
        }
        let left: u64 = in_file.size - offset;
        if left < len as u64 {
            Ok(left as usize)
        } else {
            Ok(len)
        }
    }

    /// The checks of `splice` before it moves data from `fd_in` to `fd_out`,
    /// `off_in_given` and `off_out_given` telling whether user space passed
    /// offsets. `EBADF` if a descriptor is not open, `ESPIPE` for an offset on
    /// a pipe, `EBADF` if the input is not readable or the output not
    /// writable, `EINVAL` for two ends on one inode.
    pub fn splice_check(&self, fd_in: usize, off_in_given: bool, fd_out: usize, off_out_given: bool) -> (r: SysResult<()>)
        requires
            self.wf(),
        ensures
            r == if !self.fd_open(fd_in) || !self.fd_open(fd_out) {
                Err::<(), Errno>(Errno::EBADF)
            } else if self.file_of(fd_in).is_fifo && off_in_given {
                Err(Errno::ESPIPE)
            } else if self.file_of(fd_out).is_fifo && off_out_given {
                Err(Errno::ESPIPE)
            } else if !self.file_of(fd_in).readable || !self.file_of(fd_out).writable {
                Err(Errno::EBADF)
            } else if self.file_of(fd_in).inode == self.file_of(fd_out).inode {
                Err(Errno::EINVAL)
            } else {
                Ok(())
            },
    {
        let c = self.current;
        let file_in = match self.tasks[c].fd_table.get(fd_in) {
            Some(f) => f,
            None => return Err(Errno::EBADF),
        };
        let file_out = match self.tasks[c].fd_table.get(fd_out) {
            Some(f) => f,
            None => return Err(Errno::EBADF),
        };
        if file_in.is_fifo && off_in_given {
            return Err(Errno::ESPIPE);
        }
        if file_out.is_fifo && off_out_given {
            return Err(Errno::ESPIPE);
        }
        if !file_in.readable || !file_out.writable {
            return Err(Errno::EBADF);
        }
        if file_in.inode == file_out.inode {
            return Err(Errno::EINVAL);
        }
        Ok(())
    }
}

/// `RENAME_NOREPLACE`: fail if the new path exists.
pub const RENAME_NOREPLACE: i32 = 1i32;

/// `RENAME_EXCHANGE`: swap the two paths.
pub const RENAME_EXCHANGE: i32 = 2i32;

/// `RENAME_WHITEOUT`: leave a whiteout at the old path.
pub const RENAME_WHITEOUT: i32 = 4i32;

/// What the path lookups of `renameat2` found.
#[derive(Clone, Copy, Debug, PartialEq, Eq, Structural)]
pub struct RenameLookup {
    /// Whether the old path names an existing file.
    pub old_exists: bool,
    /// Whether the old path names a directory.
    pub old_is_dir: bool,
    /// Whether the old path's entry has a parent directory.
    pub old_has_parent: bool,
    /// Whether the new path names an existing file.
    pub new_exists: bool,
    /// Whether the new path's entry is an ancestor of the old path's.
    pub new_is_ancestor: bool,
    /// Whether both paths are hard links of one inode.
    pub same_inode: bool,
}

/// What `renameat2` does once its checks pass.
#[derive(Clone, Copy, Debug, PartialEq, Eq, Structural)]
pub enum RenameAction {
    /// Both paths already name one inode: nothing to do.
    Keep,
    /// Link the old inode under the new name and remove the old name.
    Move,
}

/// The decision of `renameat2` for `flags`, the outcome of reading its two
/// paths (`paths`) and that of its path lookups: first the error of reading
/// the paths; then `EINVAL` for an unknown flag, or for `RENAME_NOREPLACE` or
/// `RENAME_WHITEOUT` with `RENAME_EXCHANGE`; then the error of the lookup;
/// `ENOENT` if the old path does not exist. When the new path exists:
/// `EINVAL` with `RENAME_NOREPLACE`, or with `RENAME_EXCHANGE` if it is an
/// ancestor of the old path; `ENOTEMPTY` if the old path is a directory;
/// nothing to do for two links of one inode. When it does not: `EINVAL` with
/// `RENAME_EXCHANGE`. Last, `ENOENT` if the old path has no parent to move from.
pub fn renameat2_check(paths: SysResult<()>, flags: i32, lookup: SysResult<RenameLookup>) -> (r: SysResult<RenameAction>)
    ensures
        r == if paths is Err {
            Err::<RenameAction, Errno>(paths->Err_0)
        } else if flags & !(RENAME_NOREPLACE | RENAME_EXCHANGE | RENAME_WHITEOUT) != 0 {
            Err::<RenameAction, Errno>(Errno::EINVAL)
        } else if flags & (RENAME_NOREPLACE | RENAME_WHITEOUT) != 0 && flags & RENAME_EXCHANGE != 0 {
            Err(Errno::EINVAL)
        } else {
            match lookup {
                Err(e) => Err(e),
                Ok(l) => if !l.old_exists {
                    Err(Errno::ENOENT)
                } else if l.new_exists && flags & RENAME_NOREPLACE != 0 {
                    Err(Errno::EINVAL)
                } else if l.new_exists && flags & RENAME_EXCHANGE != 0 && l.new_is_ancestor {
                    Err(Errno::EINVAL)
                } else if l.new_exists && l.old_is_dir {
                    Err(Errno::ENOTEMPTY)
                } else if l.new_exists && l.same_inode {
                    Ok(RenameAction::Keep)
                } else if !l.new_exists && flags & RENAME_EXCHANGE != 0 {
                    Err(Errno::EINVAL)
                } else if !l.old_has_parent {
                    Err(Errno::ENOENT)
                } else {
                    Ok(RenameAction::Move)
                },
            }
        },
{
    match paths {
        Err(e) => return Err(e),
        Ok(()) => {},
    }
    if flags & !(RENAME_NOREPLACE | RENAME_EXCHANGE | RENAME_WHITEOUT) != 0 {
        return Err(Errno::EINVAL);
    }
    if flags & (RENAME_NOREPLACE | RENAME_WHITEOUT) != 0 && flags & RENAME_EXCHANGE != 0 {
        return Err(Errno::EINVAL);
    }
    let l = match lookup {
        Err(e) => return Err(e),
        Ok(l) => l,
    };
    if !l.old_exists {
        return Err(Errno::ENOENT);
    }
    if l.new_exists {
        if flags & RENAME_NOREPLACE != 0 {
            return Err(Errno::EINVAL);
        }
        if flags & RENAME_EXCHANGE != 0 && l.new_is_ancestor {
            return Err(Errno::EINVAL);
        }
        if l.old_is_dir {
            return Err(Errno::ENOTEMPTY);
        }
        if l.same_inode {
            return Ok(RenameAction::Keep);
        }
    } else if flags & RENAME_EXCHANGE != 0 {
        return Err(Errno::EINVAL);
    }
    if !l.old_has_parent {
        return Err(Errno::ENOENT);
    }
    Ok(RenameAction::Move)
}

/// The kind of an `ioctl` request, as its number decodes.
#[derive(Clone, Copy, Debug, PartialEq, Eq, Structural)]
pub enum IoctlCmd {
    /// A terminal request.
    Tty,
    /// The real-time clock's read-time request.
    Rtc,
    /// A loop device request.
    Loop,
    /// A block device's get-size request.
    Block,
    /// The kernel's own switch into (0) or out of (1) a test case.
    Testcase,
    /// The kernel's own switch of its log, off (0) or on (1).
    Log,
}

/// What an `ioctl` request comes to.
#[derive(Clone, Copy, Debug, PartialEq, Eq, Structural)]
pub enum IoctlAction {
    /// The open file answers the request itself.
    Forward,
    /// Write this size, in bytes, to the user address in the argument.
    WriteSize(u64),
    /// Enter test-case mode.
    IntoTestcase,
    /// Leave test-case mode.
    OutOfTestcase,
    /// Turn the kernel log off.
    LogOff,
    /// Turn the kernel log on.
    LogOn,
}

/// Size that a block device reports.
pub const BLOCK_DEVICE_SIZE: u64 = 0x10000u64;

impl Syscall {
    /// The decision of `ioctl` on descriptor `fd` for request kind `cmd`
    /// (`None` for a number no kind knows) and argument `arg`: `EBADF` if
    /// `fd` is not open, `EINVAL` for an unknown request or for a switch
    /// argument other than 0 and 1.
    pub fn ioctl_action(&self, fd: usize, cmd: Option<IoctlCmd>, arg: usize) -> (r: SysResult<IoctlAction>)
        requires
            self.wf(),
        ensures
            r == if !self.fd_open(fd) {
                Err::<IoctlAction, Errno>(Errno::EBADF)
            } else {
                match cmd {
                    None => Err(Errno::EINVAL),
                    Some(IoctlCmd::Tty) | Some(IoctlCmd::Rtc) | Some(IoctlCmd::Loop) => Ok(IoctlAction::Forward),
                    Some(IoctlCmd::Block) => Ok(IoctlAction::WriteSize(BLOCK_DEVICE_SIZE)),
                    Some(IoctlCmd::Testcase) => if arg == 0 {
                        Ok(IoctlAction::IntoTestcase)
                    } else if arg == 1 {
                        Ok(IoctlAction::OutOfTestcase)
                    } else {
                        Err(Errno::EINVAL)
                    },
                    Some(IoctlCmd::Log) => if arg == 0 {
                        Ok(IoctlAction::LogOff)
                    } else if arg == 1 {
                        Ok(IoctlAction::LogOn)
                    } else {
                        Err(Errno::EINVAL)
                    },
                }
            },
    {
        if self.tasks[self.current].fd_table.get(fd).is_none() {
            return Err(Errno::EBADF);
        }
        let cmd = match cmd {
            None => return Err(Errno::EINVAL),
            Some(c) => c,
        };
        match cmd {
            IoctlCmd::Tty | IoctlCmd::Rtc | IoctlCmd::Loop => Ok(IoctlAction::Forward),
            IoctlCmd::Block => Ok(IoctlAction::WriteSize(BLOCK_DEVICE_SIZE)),
            IoctlCmd::Testcase => if arg == 0 {
                Ok(IoctlAction::IntoTestcase)
            } else if arg == 1 {
                Ok(IoctlAction::OutOfTestcase)
            } else {
                Err(Errno::EINVAL)
            },
            IoctlCmd::Log => if arg == 0 {
                Ok(IoctlAction::LogOff)
            } else if arg == 1 {
                Ok(IoctlAction::LogOn)
            } else {
                Err(Errno::EINVAL)
            },
        }
    }
}

/// Closing the descriptor that `dup` returned gives the table back as it
/// was, but for free slots that the duplicate added at its end.
pub proof fn law_close_undoes_dup(t0: FdTable, t1: FdTable, t2: FdTable, fd: int, n: int)
    requires
        t0.is_open(fd),
        0 <= n,
        !t0.is_open(n),
        forall|j: int| 0 <= j < n ==> t0.is_open(j),
        t1.slots@.len() == if n < t0.slots@.len() { t0.slots@.len() as int } else { n + 1 },
        t1.slots@[n] == Some(FdSlot { file: t0.slot(fd).file, cloexec: false }),
        forall|j: int| 0 <= j < t0.slots@.len() && j != n ==> t1.slots@[j] == t0.slots@[j],
        t2.slots@ == t1.slots@.update(n, None),
    ensures
        t2.slots@.len() >= t0.slots@.len(),
        forall|j: int| 0 <= j < t0.slots@.len() ==> #[trigger] t2.slots@[j] == t0.slots@[j],
        forall|j: int| t0.slots@.len() <= j < t2.slots@.len() ==> (#[trigger] t2.slots@[j]).is_none(),
{
    if n > t0.slots@.len() {
        assert(t0.is_open(t0.slots@.len() as int));
    }
    assert forall|j: int| 0 <= j < t0.slots@.len() implies #[trigger] t2.slots@[j] == t0.slots@[j] by {
        if j == n {
            assert(t0.slots@[j].is_none());
        }
    }
}

/// After `lseek` moved the offset of an open file to `p`, asking any
/// descriptor of that file for its offset (`SEEK_CUR` with offset 0) gives `p`.
pub proof fn law_seek_then_tell(t0: FdTable, t1: FdTable, f: FileEntry, p: u64, fd: int)
    requires
        file_updated(t0, t1, FileEntry { pos: p, ..f }),
        t0.is_open(fd),
        t0.slot(fd).file.id == f.id,
    ensures
        t1.is_open(fd),
        t1.slot(fd).file.pos == p,
        seek_target(t1.slot(fd).file, 0, 1) == p,
{
    assert(t1.slots@[fd] == Some(FdSlot { file: FileEntry { pos: p, ..f }, ..t0.slot(fd) }));
}

/// What `dup(fd)` answers and does to the calling task of `before`, giving `after`.
pub open spec fn dup_outcome(before: Syscall, after: Syscall, fd: usize, r: SyscallResult) -> bool {
    &&& (after.current_becomes(before, Task { fd_table: after.task().fd_table, ..before.task() }))
    &&& (after.task().fd_table.limit == before.task().fd_table.limit)
    &&& (!before.fd_open(fd) ==> r == Err::<isize, Errno>(Errno::EBADF) && after.tasks@ == before.tasks@)
    &&& (before.fd_open(fd) && (forall|j: int| 0 <= j < before.task().fd_table.limit ==> before.task().fd_table.is_open(j))
            ==> r == Err::<isize, Errno>(Errno::EMFILE) && after.task().fd_table.slots@ == before.task().fd_table.slots@)
    &&& (before.fd_open(fd) && !(forall|j: int| 0 <= j < before.task().fd_table.limit ==> before.task().fd_table.is_open(j))
            ==> r is Ok)
    &&& (r matches Ok(n) ==> {
            &&& before.fd_open(fd)
            &&& 0 <= n < before.task().fd_table.limit
            &&& !before.task().fd_table.is_open(n as int)
            &&& forall|j: int| 0 <= j < n ==> before.task().fd_table.is_open(j)
            &&& after.task().fd_table.slots@.len() == if n < before.task().fd_table.slots@.len() {
                before.task().fd_table.slots@.len() as int
            } else {
                n + 1
            }
            &&& after.task().fd_table.slots@[n as int] == Some(FdSlot { file: before.file_of(fd), cloexec: false })
            &&& forall|j: int| 0 <= j < before.task().fd_table.slots@.len() && j != n
                ==> after.task().fd_table.slots@[j] == before.task().fd_table.slots@[j]
        })
}

/// What `dup3(old_fd, new_fd, flags)` answers and does to the calling task of `before`, giving `after`.
pub open spec fn dup3_outcome(before: Syscall, after: Syscall, old_fd: usize, new_fd: usize, flags: i32, r: SyscallResult) -> bool {
    &&& (after.current_becomes(before, Task { fd_table: after.task().fd_table, ..before.task() }))
    &&& (after.task().fd_table.limit == before.task().fd_table.limit)
    &&& (r is Err ==> after.task().fd_table.slots@ == before.task().fd_table.slots@)
    &&& (flags & !O_CLOEXEC != 0 || new_fd == old_fd ==> r == Err::<isize, Errno>(Errno::EINVAL))
    &&& (flags & !O_CLOEXEC == 0 && new_fd != old_fd && !before.fd_open(old_fd)
            ==> r == Err::<isize, Errno>(Errno::EBADF))
    &&& (flags & !O_CLOEXEC == 0 && new_fd != old_fd && before.fd_open(old_fd) && new_fd >= before.task().fd_table.limit
            ==> r == Err::<isize, Errno>(Errno::EBADF))
    &&& (flags & !O_CLOEXEC == 0 && new_fd != old_fd && before.fd_open(old_fd) && new_fd < before.task().fd_table.limit ==> {
            &&& r == Ok::<isize, Errno>(new_fd as isize)
            &&& after.task().fd_table.slots@.len() == if new_fd < before.task().fd_table.slots@.len() {
                before.task().fd_table.slots@.len() as int
            } else {
                new_fd + 1
            }
            &&& after.task().fd_table.slots@[new_fd as int]
                == Some(FdSlot { file: before.file_of(old_fd), cloexec: flags & O_CLOEXEC != 0 })
            &&& forall|j: int| 0 <= j < after.task().fd_table.slots@.len() && j != new_fd
                ==> #[trigger] after.task().fd_table.slots@[j]
                    == if j < before.task().fd_table.slots@.len() { before.task().fd_table.slots@[j] } else { None }
        })
}

/// What `lseek(fd, offset, whence)` answers and does to the calling task of `before`, giving `after`.
pub open spec fn lseek_outcome(before: Syscall, after: Syscall, fd: usize, offset: isize, whence: usize, r: SyscallResult) -> bool {
    &&& (after.current_becomes(before, Task { fd_table: after.task().fd_table, ..before.task() }))
    &&& (r is Err || whence > 2 ==> after.tasks@ == before.tasks@)
    &&& (!before.fd_open(fd) ==> r == Err::<isize, Errno>(Errno::EBADF))
    &&& (before.fd_open(fd) && whence > 4 ==> r == Err::<isize, Errno>(Errno::EINVAL))
    &&& (before.fd_open(fd) && (whence == 3 || whence == 4)
            ==> r == Ok::<isize, Errno>(before.file_of(fd).pos as isize))
    &&& (before.fd_open(fd) && whence <= 2 ==> {
            let target = seek_target(before.file_of(fd), offset, whence);
            &&& target < 0 ==> r == Err::<isize, Errno>(Errno::EINVAL)
            &&& target > isize::MAX ==> r == Err::<isize, Errno>(Errno::EOVERFLOW)
            &&& 0 <= target <= isize::MAX ==> {
                &&& r == Ok::<isize, Errno>(target as isize)
                &&& file_updated(before.task().fd_table, after.task().fd_table,
                    FileEntry { pos: target as u64, ..before.file_of(fd) })
            }
        })
}

/// Where `lseek` moves the offset: to `offset` itself for `SEEK_SET` (0), by
/// `offset` from the current offset for `SEEK_CUR` (1), by `offset` from the
/// end of the file for `SEEK_END` (2).
pub proof fn law_seek_targets(f: FileEntry, offset: isize)
    ensures
        seek_target(f, offset, 0) == offset,
        seek_target(f, offset, 1) == f.pos + offset,
        seek_target(f, offset, 2) == f.size + offset,
        seek_target(f, 0, 1) == f.pos,
{
}

} // verus!
