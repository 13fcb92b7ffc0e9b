use noaxiom::errno::Errno;
use noaxiom::syscall::mm::mmap_check;
use noaxiom::syscall::io::{ppoll_fill, pselect_fill, FdSet, PollFd, POLLHUP, POLLIN, POLLOUT};
use noaxiom::syscall::syscall::Syscall;
use noaxiom::task::{FdSlot, FileEntry, Task, UserId};
use noaxiom::syscall::fs::{
    getcwd_check, renameat2_check, DirInfo, IoctlAction, IoctlCmd, RenameAction, RenameLookup, RENAME_EXCHANGE,
    RENAME_NOREPLACE, RENAME_WHITEOUT,
};
use noaxiom::task::ROOT_DENTRY;
use noaxiom::syscall::time::{sigtimedwait_timeout_check, sys_clock_getres, TimeSpec};

fn file(id: usize, size: u64) -> FileEntry {
    FileEntry {
        id,
        inode: id + 100,
        dentry: id + 200,
        is_dir: false,
        is_fifo: false,
        readable: true,
        writable: true,
        o_path: false,
        pos: 0,
        size,
        mode: 0o644,
    }
}

/// A caller with descriptors 0, 1 and 2 open on files 1, 2 and 3.
fn caller(limit: usize) -> Syscall {
    let mut t = Task::new(5, 5, 5, None, UserId::root(), limit);
    for id in 1..=3usize {
        t.fd_table.slots.push(Some(FdSlot { file: file(id, 1000 * id as u64), cloexec: false }));
    }
    Syscall::new(vec![t], 0)
}

fn slot(s: &Syscall, fd: usize) -> Option<FdSlot> {
    s.tasks[0].fd_table.slots.get(fd).copied().flatten()
}

#[test]
fn dup_takes_lowest_free_descriptor() {
    let mut s = caller(8);
    assert_eq!(s.sys_close(1), Ok(0));
    assert_eq!(s.sys_dup(2), Ok(1));
    assert_eq!(slot(&s, 1).unwrap().file, file(3, 3000));
    assert_eq!(s.sys_dup(0), Ok(3));
    assert_eq!(s.sys_dup(7), Err(Errno::EBADF));
}

#[test]
fn dup_fails_when_table_is_full() {
    let mut s = caller(3);
    assert_eq!(s.sys_dup(0), Err(Errno::EMFILE));
    assert_eq!(s.tasks[0].fd_table.slots.len(), 3);
}

#[test]
fn close_undoes_dup() {
    let mut s = caller(8);
    let before: Vec<Option<FdSlot>> = s.tasks[0].fd_table.slots.clone();
    let n = s.sys_dup(1).unwrap() as usize;
    assert_eq!(s.sys_close(n), Ok(0));
    let after = &s.tasks[0].fd_table.slots;
    assert_eq!(&after[..before.len()], &before[..]);
    assert!(after[before.len()..].iter().all(|x| x.is_none()));
    assert_eq!(s.sys_close(n), Err(Errno::EBADF));
}

#[test]
fn dup3_flags_and_errors() {
    let mut s = caller(8);
    assert_eq!(s.sys_dup3(0, 5, 0x80000), Ok(5));
    assert_eq!(slot(&s, 5), Some(FdSlot { file: file(1, 1000), cloexec: true }));
    assert_eq!(s.tasks[0].fd_table.slots.len(), 6);
    assert_eq!(slot(&s, 4), None);
    assert_eq!(s.sys_dup3(0, 2, 0), Ok(2));
    assert_eq!(slot(&s, 2), Some(FdSlot { file: file(1, 1000), cloexec: false }));
    assert_eq!(s.sys_dup3(0, 0, 0), Err(Errno::EINVAL));
    assert_eq!(s.sys_dup3(0, 3, 1), Err(Errno::EINVAL));
    assert_eq!(s.sys_dup3(6, 3, 0), Err(Errno::EBADF));
    assert_eq!(s.sys_dup3(0, 8, 0), Err(Errno::EBADF));
}

#[test]
fn lseek_whence() {
    let mut s = caller(8);
    assert_eq!(s.sys_lseek(1, 100, 0), Ok(100));
    assert_eq!(s.sys_lseek(1, 20, 1), Ok(120));
    assert_eq!(s.sys_lseek(1, -20, 2), Ok(1980));
    assert_eq!(s.sys_lseek(1, 0, 3), Ok(1980));
    assert_eq!(s.sys_lseek(1, -5000, 1), Err(Errno::EINVAL));
    assert_eq!(s.sys_lseek(1, 0, 5), Err(Errno::EINVAL));
    assert_eq!(s.sys_lseek(9, 0, 0), Err(Errno::EBADF));
    assert_eq!(s.sys_lseek(1, isize::MAX, 2), Err(Errno::EOVERFLOW));
    assert_eq!(slot(&s, 1).unwrap().file.pos, 1980);
}

#[test]
fn seek_then_tell_through_a_duplicate() {
    let mut s = caller(8);
    let n = s.sys_dup(0).unwrap() as usize;
    assert_eq!(s.sys_lseek(0, 640, 0), Ok(640));
    assert_eq!(s.sys_lseek(n, 0, 1), Ok(640));
    assert_eq!(slot(&s, 1).unwrap().file.pos, 0);
}

#[test]
fn fchmod_sets_mode() {
    let mut s = caller(8);
    assert_eq!(s.sys_fchmod(2, 0o600), Ok(0));
    assert_eq!(slot(&s, 2).unwrap().file.mode, 0o600);
    assert_eq!(s.sys_fchmod(7, 0o600), Err(Errno::EBADF));
    s.tasks[0].fd_table.slots[0] = Some(FdSlot { file: FileEntry { o_path: true, ..file(1, 0) }, cloexec: false });
    assert_eq!(s.sys_fchmod(0, 0o600), Err(Errno::EINVAL));
}

#[test]
fn fallocate_checks() {
    let mut s = caller(8);
    assert_eq!(s.sys_fallocate(0, 0, 0, 10), Ok(0));
    assert_eq!(s.sys_fallocate(0, 0, -1, 10), Err(Errno::EINVAL));
    assert_eq!(s.sys_fallocate(0, 0, 0, 0), Err(Errno::EINVAL));
    assert_eq!(s.sys_fallocate(0, 0, 0x1000_0000_0000, 1), Err(Errno::EFBIG));
    assert_eq!(s.sys_fallocate(0, 0, 0x0fff_ffff_ffff, 1), Ok(0));
    assert_eq!(s.sys_fallocate(0, 0x80, 0, 1), Err(Errno::EINVAL));
    assert_eq!(s.sys_fallocate(9, 0, 0, 1), Err(Errno::EBADF));
    s.tasks[0].fd_table.slots[1] = Some(FdSlot { file: FileEntry { is_dir: true, ..file(2, 0) }, cloexec: false });
    assert_eq!(s.sys_fallocate(1, 0, 0, 1), Err(Errno::EISDIR));
    s.tasks[0].fd_table.slots[2] = Some(FdSlot { file: FileEntry { writable: false, ..file(3, 0) }, cloexec: false });
    assert_eq!(s.sys_fallocate(2, 1, 0, 1), Err(Errno::EBADF));
}

#[test]
fn fadvise_checks() {
    let s = caller(8);
    assert_eq!(s.sys_fadvise64(0, 0, 0, 5), Ok(0));
    assert_eq!(s.sys_fadvise64(0, 0, 0, 6), Err(Errno::EINVAL));
    assert_eq!(s.sys_fadvise64(0, 0, 0, -1), Err(Errno::EINVAL));
    assert_eq!(s.sys_fadvise64(9, 0, 0, 0), Err(Errno::EBADF));
    assert_eq!(s.sys_umount2("/mnt", 0), Ok(0));
}

#[test]
fn copy_file_range_length() {
    let mut s = caller(8);
    assert_eq!(s.copy_file_range_len(0, None, 1, 4096, 0), Ok(1000));
    assert_eq!(s.copy_file_range_len(0, None, 1, 10, 0), Ok(10));
    assert_eq!(s.copy_file_range_len(0, Some(990), 1, 100, 0), Ok(10));
    assert_eq!(s.copy_file_range_len(0, Some(1000), 1, 100, 0), Ok(0));
    assert_eq!(s.copy_file_range_len(0, None, 1, 100, 1), Err(Errno::EINVAL));
    assert_eq!(s.copy_file_range_len(0, None, 9, 100, 0), Err(Errno::EBADF));
    s.sys_lseek(0, 400, 0).unwrap();
    assert_eq!(s.copy_file_range_len(0, None, 1, 4096, 0), Ok(600));
}

#[test]
fn splice_checks() {
    let mut s = caller(8);
    assert_eq!(s.splice_check(0, false, 1, false), Ok(()));
    assert_eq!(s.splice_check(0, false, 0, false), Err(Errno::EINVAL));
    assert_eq!(s.splice_check(0, false, 9, false), Err(Errno::EBADF));
    s.tasks[0].fd_table.slots[2] = Some(FdSlot { file: FileEntry { is_fifo: true, ..file(3, 0) }, cloexec: false });
    assert_eq!(s.splice_check(2, true, 1, false), Err(Errno::ESPIPE));
    assert_eq!(s.splice_check(0, true, 2, true), Err(Errno::ESPIPE));
    assert_eq!(s.splice_check(2, false, 1, true), Ok(()));
}

#[test]
fn fd_set_bits() {
    let mut set = FdSet::new_empty();
    assert!(!set.is_set(3));
    set.set(3);
    set.set(64);
    set.set(1023);
    set.set(1024);
    assert!(set.is_set(3) && set.is_set(64) && set.is_set(1023));
    assert!(!set.is_set(1024) && !set.is_set(4));
    assert_eq!(set.fds_bits[0], 1 << 3);
    assert_eq!(set.fds_bits[1], 1);
    set.clear();
    assert!(!set.is_set(3));
}

#[test]
fn pselect_items_and_fill() {
    let s = caller(8);
    let mut read = FdSet::new_empty();
    read.set(0);
    read.set(2);
    let mut write = FdSet::new_empty();
    write.set(2);
    let items = s.pselect_items(3, Some(read), Some(write)).unwrap();
    assert_eq!(items, vec![(0, POLLIN), (2, POLLIN + POLLOUT)]);
    assert_eq!(s.pselect_items(2, Some(read), Some(write)).unwrap(), vec![(0, POLLIN)]);
    let mut bad = FdSet::new_empty();
    bad.set(6);
    assert_eq!(s.pselect_items(7, Some(bad), None), Err(Errno::EBADF));
    assert_eq!(s.pselect_items(usize::MAX, None, None), Err(Errno::EINVAL));

    let mut r = Some(read);
    let mut w = Some(write);
    let mut e = Some(read);
    let n = pselect_fill(Some(vec![(0, POLLHUP), (2, POLLOUT)]), &mut r, &mut w, &mut e);
    assert_eq!(n, 2);
    let (r, w, e) = (r.unwrap(), w.unwrap(), e.unwrap());
    assert!(r.is_set(0) && !r.is_set(2));
    assert!(w.is_set(2) && !w.is_set(0));
    assert!(!e.is_set(0));
}

#[test]
fn pselect_timeout_empties_sets() {
    let mut read = FdSet::new_empty();
    read.set(1);
    let mut r = Some(read);
    let mut w = None;
    let mut e = None;
    assert_eq!(pselect_fill(None, &mut r, &mut w, &mut e), 0);
    assert!(!r.unwrap().is_set(1));
    assert!(w.is_none());
}

#[test]
fn fd_table_by_hand() {
    let mut t = noaxiom::task::FdTable::new(2);
    assert_eq!(t.alloc_fd(), Ok(0));
    assert_eq!(t.slots.len(), 1);
    assert_eq!(t.fill_to(1), Ok(()));
    assert_eq!(t.fill_to(2), Err(Errno::EBADF));
    assert!(t.get(0).is_none());
    assert_eq!(t.close(0), Err(Errno::EBADF));
}

#[test]
fn socket_descriptors() {
    let mut s = caller(5);
    let sock = FileEntry { id: 50, ..file(50, 0) };
    assert_eq!(s.sys_socket(1, Err(Errno::EINVAL), Ok(()), Ok(sock)), Err(Errno::EINVAL));
    assert_eq!(s.sys_socket(9, Ok(()), Err(Errno::EINVAL), Ok(sock)), Err(Errno::EINVAL));
    assert_eq!(s.sys_socket(1, Ok(()), Ok(()), Err(Errno::ENOMEM)), Err(Errno::ENOMEM));
    assert_eq!(s.tasks[0].fd_table.slots.len(), 3);
    assert_eq!(s.sys_socket(1 | 0x80000 | 0x800, Ok(()), Ok(()), Ok(sock)), Ok((3, true)));
    assert_eq!(slot(&s, 3), Some(FdSlot { file: sock, cloexec: true }));
    assert_eq!(s.sys_socket(1, Ok(()), Ok(()), Ok(FileEntry { id: 51, ..file(51, 0) })), Ok((4, false)));
    assert_eq!(s.sys_socket(1, Ok(()), Ok(()), Ok(FileEntry { id: 52, ..file(52, 0) })), Err(Errno::EMFILE));
}

#[test]
fn ppoll_items_and_fill() {
    let s = caller(8);
    let mut fds = vec![
        PollFd { fd: 0, events: POLLIN, revents: 0 },
        PollFd { fd: 2, events: POLLOUT, revents: 0x8 },
    ];
    assert_eq!(s.ppoll_items(&fds), Ok(vec![(0, POLLIN), (1, POLLOUT)]));
    let bad = vec![PollFd { fd: -1, events: POLLIN, revents: 0 }];
    assert_eq!(s.ppoll_items(&bad), Err(Errno::EBADF));
    let n = ppoll_fill(&mut fds, &vec![(1, POLLOUT), (1, POLLHUP)]);
    assert_eq!(n, 2);
    assert_eq!(fds[0].revents, 0);
    assert_eq!(fds[1].revents, 0x8 | POLLOUT | POLLHUP);
    assert_eq!(fds[1].fd, 2);
}

#[test]
fn getcwd_and_clock_resolution() {
    assert_eq!(getcwd_check(5, 0x1000, 4), Err(Errno::ERANGE));
    assert_eq!(getcwd_check(5, 0, 5), Err(Errno::EFAULT));
    assert_eq!(getcwd_check(5, 0x1000, 5), Ok(0x1000));
    assert_eq!(sys_clock_getres(-1, true), Err(Errno::EINVAL));
    assert_eq!(sys_clock_getres(0, false), Ok(None));
    assert_eq!(sys_clock_getres(1, true), Ok(Some(TimeSpec { tv_sec: 0, tv_nsec: 1 })));
}

#[test]
fn path_checks() {
    let mut s = caller(8);
    let dir = DirInfo { is_dir: true, searchable: true, dentry: 42 };
    assert_eq!(s.sys_chroot(Ok(DirInfo { is_dir: false, ..dir })), Err(Errno::ENOTDIR));
    assert_eq!(s.sys_chroot(Ok(DirInfo { searchable: false, ..dir })), Err(Errno::EACCES));
    assert_eq!(s.sys_chroot(Err(Errno::ENOENT)), Err(Errno::ENOENT));
    assert_eq!(s.tasks[0].root, ROOT_DENTRY);
    assert_eq!(s.sys_chroot(Ok(dir)), Ok(0));
    assert_eq!(s.tasks[0].root, 42);
    assert_eq!(s.tasks[0].cwd, ROOT_DENTRY);
    let mut user = caller(8);
    user.tasks[0].user_id.fsuid = 1000;
    assert_eq!(user.sys_chroot(Ok(dir)), Err(Errno::EPERM));
    assert_eq!(user.tasks[0].root, ROOT_DENTRY);
    assert_eq!(s.sys_chdir(Ok(DirInfo { is_dir: false, dentry: 7, ..dir }), Ok(())), Err(Errno::ENOTDIR));
    assert_eq!(s.sys_chdir(Ok(DirInfo { dentry: 7, ..dir }), Err(Errno::EACCES)), Err(Errno::EACCES));
    assert_eq!(s.tasks[0].cwd, ROOT_DENTRY);
    assert_eq!(s.sys_chdir(Ok(DirInfo { dentry: 7, ..dir }), Ok(())), Ok(0));
    assert_eq!(s.tasks[0].cwd, 7);
    assert_eq!(s.tasks[0].root, 42);
    assert_eq!(s.sys_faccessat(Ok(()), 0x200, 4, Ok(()), Ok(())), Ok(0));
    assert_eq!(s.sys_faccessat(Ok(()), 0x10000, 4, Ok(()), Ok(())), Err(Errno::EINVAL));
    assert_eq!(s.sys_faccessat(Err(Errno::EFAULT), 0x10000, 4, Ok(()), Ok(())), Err(Errno::EFAULT));
    assert_eq!(s.sys_faccessat(Ok(()), 0, 8, Ok(()), Ok(())), Err(Errno::EINVAL));
    assert_eq!(s.sys_faccessat(Ok(()), 0, 8, Err(Errno::ENOENT), Ok(())), Err(Errno::ENOENT));
    assert_eq!(s.sys_faccessat(Ok(()), 0, 2, Ok(()), Err(Errno::EACCES)), Err(Errno::EACCES));
}

#[test]
fn fchmodat_sets_mode_of_the_inode() {
    let mut s = caller(8);
    s.tasks[0].fd_table.slots.push(Some(FdSlot { file: FileEntry { id: 9, ..file(2, 2000) }, cloexec: false }));
    assert_eq!(s.sys_fchmodat(true, Ok(102), 0o600), Err(Errno::ENOENT));
    assert_eq!(s.sys_fchmodat(false, Err(Errno::ENOTDIR), 0o600), Err(Errno::ENOTDIR));
    assert_eq!(slot(&s, 1).unwrap().file.mode, 0o644);
    assert_eq!(s.sys_fchmodat(false, Ok(102), 0o600), Ok(0));
    assert_eq!(slot(&s, 1).unwrap().file.mode, 0o600);
    assert_eq!(slot(&s, 3).unwrap().file.mode, 0o600);
    assert_eq!(slot(&s, 0).unwrap().file.mode, 0o644);
    assert_eq!(slot(&s, 2).unwrap().file.mode, 0o644);
}

#[test]
fn fchmod_reaches_other_descriptors_of_the_inode() {
    let mut s = caller(8);
    s.tasks[0].fd_table.slots.push(Some(FdSlot { file: FileEntry { id: 9, ..file(3, 3000) }, cloexec: false }));
    assert_eq!(s.sys_fchmod(2, 0o400), Ok(0));
    assert_eq!(slot(&s, 3).unwrap().file.mode, 0o400);
    assert_eq!(slot(&s, 1).unwrap().file.mode, 0o644);
}

fn found() -> RenameLookup {
    RenameLookup {
        old_exists: true,
        old_is_dir: false,
        old_has_parent: true,
        new_exists: false,
        new_is_ancestor: false,
        same_inode: false,
    }
}

#[test]
fn renameat2_decisions() {
    let l = found();
    assert_eq!(renameat2_check(Ok(()), 0, Ok(l)), Ok(RenameAction::Move));
    assert_eq!(renameat2_check(Err(Errno::EFAULT), 8, Ok(l)), Err(Errno::EFAULT));
    assert_eq!(renameat2_check(Ok(()), 8, Ok(l)), Err(Errno::EINVAL));
    assert_eq!(renameat2_check(Ok(()), -1, Ok(l)), Err(Errno::EINVAL));
    assert_eq!(renameat2_check(Ok(()), RENAME_NOREPLACE | RENAME_EXCHANGE, Ok(l)), Err(Errno::EINVAL));
    assert_eq!(renameat2_check(Ok(()), RENAME_WHITEOUT | RENAME_EXCHANGE, Ok(l)), Err(Errno::EINVAL));
    assert_eq!(renameat2_check(Ok(()), 0, Err(Errno::ENOTDIR)), Err(Errno::ENOTDIR));
    assert_eq!(renameat2_check(Ok(()), 8, Err(Errno::ENOTDIR)), Err(Errno::EINVAL));
    assert_eq!(renameat2_check(Ok(()), 0, Ok(RenameLookup { old_exists: false, ..l })), Err(Errno::ENOENT));
    let both = RenameLookup { new_exists: true, ..l };
    assert_eq!(renameat2_check(Ok(()), RENAME_NOREPLACE, Ok(both)), Err(Errno::EINVAL));
    assert_eq!(renameat2_check(Ok(()), RENAME_EXCHANGE, Ok(RenameLookup { new_is_ancestor: true, ..both })), Err(Errno::EINVAL));
    assert_eq!(renameat2_check(Ok(()), 0, Ok(RenameLookup { new_is_ancestor: true, ..both })), Ok(RenameAction::Move));
    assert_eq!(renameat2_check(Ok(()), 0, Ok(RenameLookup { old_is_dir: true, ..both })), Err(Errno::ENOTEMPTY));
    assert_eq!(renameat2_check(Ok(()), 0, Ok(RenameLookup { same_inode: true, ..both })), Ok(RenameAction::Keep));
    assert_eq!(renameat2_check(Ok(()), RENAME_EXCHANGE, Ok(l)), Err(Errno::EINVAL));
    assert_eq!(renameat2_check(Ok(()), RENAME_EXCHANGE, Ok(both)), Ok(RenameAction::Move));
    assert_eq!(renameat2_check(Ok(()), RENAME_NOREPLACE, Ok(RenameLookup { old_has_parent: false, ..l })), Err(Errno::ENOENT));
}

#[test]
fn ioctl_decisions() {
    let s = caller(8);
    assert_eq!(s.ioctl_action(7, Some(IoctlCmd::Tty), 0), Err(Errno::EBADF));
    assert_eq!(s.ioctl_action(0, None, 0), Err(Errno::EINVAL));
    assert_eq!(s.ioctl_action(0, Some(IoctlCmd::Tty), 5), Ok(IoctlAction::Forward));
    assert_eq!(s.ioctl_action(0, Some(IoctlCmd::Rtc), 5), Ok(IoctlAction::Forward));
    assert_eq!(s.ioctl_action(0, Some(IoctlCmd::Loop), 5), Ok(IoctlAction::Forward));
    assert_eq!(s.ioctl_action(1, Some(IoctlCmd::Block), 0x2000), Ok(IoctlAction::WriteSize(0x10000)));
    assert_eq!(s.ioctl_action(2, Some(IoctlCmd::Testcase), 0), Ok(IoctlAction::IntoTestcase));
    assert_eq!(s.ioctl_action(2, Some(IoctlCmd::Testcase), 1), Ok(IoctlAction::OutOfTestcase));
    assert_eq!(s.ioctl_action(2, Some(IoctlCmd::Testcase), 2), Err(Errno::EINVAL));
    assert_eq!(s.ioctl_action(2, Some(IoctlCmd::Log), 0), Ok(IoctlAction::LogOff));
    assert_eq!(s.ioctl_action(2, Some(IoctlCmd::Log), 1), Ok(IoctlAction::LogOn));
    assert_eq!(s.ioctl_action(2, Some(IoctlCmd::Log), 3), Err(Errno::EINVAL));
}

#[test]
fn fchdir_moves_to_the_file_directory() {
    let mut s = caller(8);
    assert_eq!(s.sys_fchdir(7, Ok(())), Err(Errno::EBADF));
    assert_eq!(s.sys_fchdir(1, Err(Errno::EACCES)), Err(Errno::EACCES));
    assert_eq!(s.tasks[0].cwd, ROOT_DENTRY);
    assert_eq!(s.sys_fchdir(1, Ok(())), Ok(0));
    assert_eq!(s.tasks[0].cwd, 202);
    assert_eq!(s.tasks[0].root, ROOT_DENTRY);
}

#[test]
fn sigtimedwait_timeout_nanoseconds() {
    assert_eq!(sigtimedwait_timeout_check(TimeSpec { tv_sec: 3, tv_nsec: 999_999_999 }), Ok(()));
    assert_eq!(sigtimedwait_timeout_check(TimeSpec { tv_sec: 0, tv_nsec: 1_000_000_000 }), Err(Errno::EINVAL));
    assert_eq!(sigtimedwait_timeout_check(TimeSpec { tv_sec: 0, tv_nsec: usize::MAX }), Err(Errno::EINVAL));
}

#[test]
fn mmap_argument_checks() {
    assert_eq!(mmap_check(0x1000, 1, 4096), Ok(4096));
    assert_eq!(mmap_check(0x1000, 4096, 4096), Ok(4096));
    assert_eq!(mmap_check(0x1000, 4097, 4096), Ok(8192));
    assert_eq!(mmap_check(0, 0x3000, 4096), Ok(0x3000));
    assert_eq!(mmap_check(0x1001, 10, 4096), Err(Errno::EINVAL));
    assert_eq!(mmap_check(0x1000, 0, 4096), Err(Errno::EINVAL));
}
