//! Credential system calls: the rules by which a task may change its user
//! and group IDs.
use vstd::prelude::*;
use crate::errno::{Errno, SyscallResult};
use crate::syscall::syscall::Syscall;
use crate::task::{Task, UserId};

verus! {

/// IDs and result of `setuid(uid)`: root sets all four user IDs; others may
/// set effective and file-system IDs to their real or saved ID.
pub open spec fn setuid_rule(u: UserId, uid: u32) -> (UserId, SyscallResult) {
    if u.euid == 0 {
        (UserId { uid, euid: uid, suid: uid, fsuid: uid, ..u }, Ok(0))
    } else if uid != u.uid && uid != u.suid {
        (u, Err(Errno::EPERM))
    } else {
        (UserId { euid: uid, fsuid: uid, ..u }, Ok(0))
    }
}

/// IDs and result of `setgid(gid)`, as for `setuid`, root being judged by the effective user ID.
pub open spec fn setgid_rule(u: UserId, gid: u32) -> (UserId, SyscallResult) {
    if u.euid == 0 {
        (UserId { gid, egid: gid, sgid: gid, fsgid: gid, ..u }, Ok(0))
    } else if gid != u.gid && gid != u.sgid {
        (u, Err(Errno::EPERM))
    } else {
        (UserId { egid: gid, fsgid: gid, ..u }, Ok(0))
    }
}

/// IDs and result of `setreuid(ruid, euid)`; `-1` leaves an ID as it is.
/// A refusal of the effective ID comes after the real ID was set.
pub open spec fn setreuid_rule(u: UserId, ruid: i32, euid: i32) -> (UserId, SyscallResult) {
    let ou = u.uid as i32;
    let oe = u.euid as i32;
    let os = u.suid as i32;
    let u1 = if ruid != -1 { UserId { uid: ruid as u32, ..u } } else { u };
    let u2 = if euid != -1 { UserId { euid: euid as u32, fsuid: euid as u32, ..u1 } } else { u1 };
    let u3 = if ruid != -1 || (euid != -1 && euid != ou) { UserId { suid: u2.euid, ..u2 } } else { u2 };
    if u.euid == 0 {
        (u3, Ok(0))
    } else if ruid != -1 && ruid != ou && ruid != oe {
        (u, Err(Errno::EPERM))
    } else if euid != -1 && euid != ou && euid != oe && euid != os {
        (u1, Err(Errno::EPERM))
    } else {
        (u3, Ok(0))
    }
}

/// IDs and result of `setregid(rgid, egid)`; `-1` leaves an ID as it is.
pub open spec fn setregid_rule(u: UserId, rgid: i32, egid: i32) -> (UserId, SyscallResult) {
    let og = u.gid as i32;
    let os = u.sgid as i32;
    let u1 = if rgid != -1 { UserId { gid: rgid as u32, ..u } } else { u };
    let u2 = if egid != -1 { UserId { egid: egid as u32, fsgid: egid as u32, ..u1 } } else { u1 };
    let u3 = if rgid != -1 || (egid != -1 && egid != og) { UserId { sgid: u2.egid, ..u2 } } else { u2 };
    if u.euid == 0 {
        (u3, Ok(0))
    } else if rgid != -1 && rgid != os && rgid != og {
        (u, Err(Errno::EPERM))
    } else if egid != -1 && egid != og && egid != os {
        (u1, Err(Errno::EPERM))
    } else {
        (u3, Ok(0))
    }
}

/// IDs and result of `setresuid(ruid, euid, suid)`; `-1` leaves an ID as it
/// is; others may only pick among their current real, effective and saved IDs.
pub open spec fn setresuid_rule(u: UserId, ruid: i32, euid: i32, suid: i32) -> (UserId, SyscallResult) {
    let ou = u.uid as i32;
    let oe = u.euid as i32;
    let os = u.suid as i32;
    let u1 = if ruid != -1 { UserId { uid: ruid as u32, ..u } } else { u };
    let u2 = if euid != -1 { UserId { euid: euid as u32, fsuid: euid as u32, ..u1 } } else { u1 };
    let u3 = if suid != -1 { UserId { suid: suid as u32, ..u2 } } else { u2 };
    if u.euid == 0 {
        (u3, Ok(0))
    } else if ruid != -1 && ruid != ou && ruid != oe && ruid != os {
        (u, Err(Errno::EPERM))
    } else if euid != -1 && euid != ou && euid != oe && euid != os {
        (u1, Err(Errno::EPERM))
    } else if suid != -1 && suid != ou && suid != oe && suid != os {
        (u2, Err(Errno::EPERM))
    } else {
        (u3, Ok(0))
    }
}

/// IDs and result of `setresgid(rgid, egid, sgid)`, as for `setresuid`.
pub open spec fn setresgid_rule(u: UserId, rgid: i32, egid: i32, sgid: i32) -> (UserId, SyscallResult) {
    let og = u.gid as i32;
    let oe = u.egid as i32;
    let os = u.sgid as i32;
    let u1 = if rgid != -1 { UserId { gid: rgid as u32, ..u } } else { u };
    let u2 = if egid != -1 { UserId { egid: egid as u32, fsgid: egid as u32, ..u1 } } else { u1 };
    let u3 = if sgid != -1 { UserId { sgid: sgid as u32, ..u2 } } else { u2 };
    if u.euid == 0 {
        (u3, Ok(0))
    } else if rgid != -1 && rgid != og && rgid != oe && rgid != os {
        (u, Err(Errno::EPERM))
    } else if egid != -1 && egid != og && egid != oe && egid != os {
        (u1, Err(Errno::EPERM))
    } else if sgid != -1 && sgid != og && sgid != oe && sgid != os {
        (u2, Err(Errno::EPERM))
    } else {
        (u3, Ok(0))
    }
}

/// IDs and result of `setfsuid(fsuid)`: the old file-system user ID is
/// returned; a refused change is silently ignored.
pub open spec fn setfsuid_rule(u: UserId, fsuid: i32) -> (UserId, SyscallResult) {
    let old_fs = u.fsuid as i32;
    let allowed = u.euid == 0 || fsuid == u.uid as i32 || fsuid == u.euid as i32 || fsuid == u.suid as i32
        || fsuid == u.fsuid as i32;
    if allowed && fsuid != -1 {
        (UserId { fsuid: fsuid as u32, ..u }, Ok(old_fs as isize))
    } else {
        (u, Ok(old_fs as isize))
    }
}

/// IDs and result of `setfsgid(fsgid)`, as for `setfsuid`.
pub open spec fn setfsgid_rule(u: UserId, fsgid: i32) -> (UserId, SyscallResult) {
    let old_fs = u.fsgid as i32;
    let allowed = u.euid == 0 || fsgid == u.gid as i32 || fsgid == u.egid as i32 || fsgid == u.sgid as i32
        || fsgid == u.fsgid as i32;
    if allowed && fsgid != -1 {
        (UserId { fsgid: fsgid as u32, ..u }, Ok(old_fs as isize))
    } else {
        (u, Ok(old_fs as isize))
    }
}

/// The calling task with IDs `u`.
pub open spec fn with_user_id(t: Task, u: UserId) -> Task {
    Task { user_id: u, ..t }
}

impl Syscall {
    proof fn lemma_user_id_change_keeps_wf(&self, old: Syscall, u: UserId)
        requires
            old.wf(),
            self.current_becomes(old, with_user_id(old.task(), u)),
        ensures
            self.wf(),
    {
        assert forall|i: int| 0 <= i < self.tasks@.len() implies (#[trigger] self.tasks@[i]).wf() by {
            assert(old.tasks@[i].wf());
        }
    }

    fn store_user_id(&mut self, u: UserId)
        requires
            old(self).wf(),
        ensures
            final(self).wf(),
            final(self).current_becomes(*old(self), with_user_id(old(self).task(), u)),
    {
        let c = self.current;
        self.tasks[c].user_id = u;
        proof {
            self.lemma_user_id_change_keeps_wf(*old(self), u);
        }
    }

    /// Sets the user ID of the calling task.
    pub fn sys_setuid(&mut self, uid: u32) -> (r: SyscallResult)
        requires
            old(self).wf(),
        ensures
            final(self).wf(),
            r == setuid_rule(old(self).task().user_id, uid).1,
            final(self).current_becomes(*old(self), with_user_id(old(self).task(), setuid_rule(old(self).task().user_id, uid).0)),
    {
        let mut user_id = self.tasks[self.current].user_id;
        if user_id.euid == 0 {
            user_id.uid = uid;
            user_id.euid = uid;
            user_id.suid = uid;
            user_id.fsuid = uid;
        } else {
            if uid != user_id.uid && uid != user_id.suid {
                self.store_user_id(user_id);
                return Err(Errno::EPERM);
            } else {
                user_id.euid = uid;
                user_id.fsuid = uid;
            }
        }
        self.store_user_id(user_id);
        Ok(0)
    }

    /// Sets the group ID of the calling task.
    pub fn sys_setgid(&mut self, gid: u32) -> (r: SyscallResult)
        requires
            old(self).wf(),
        ensures
            final(self).wf(),
            r == setgid_rule(old(self).task().user_id, gid).1,
            final(self).current_becomes(*old(self), with_user_id(old(self).task(), setgid_rule(old(self).task().user_id, gid).0)),
    {
        let mut user_id = self.tasks[self.current].user_id;
        if user_id.euid == 0 {
            user_id.gid = gid;
            user_id.egid = gid;
            user_id.sgid = gid;
            user_id.fsgid = gid;
        } else {
            if gid != user_id.gid && gid != user_id.sgid {
                self.store_user_id(user_id);
                return Err(Errno::EPERM);
            } else {
                user_id.egid = gid;
                user_id.fsgid = gid;
            }
        }
        self.store_user_id(user_id);
        Ok(0)
    }

    /// Sets the real and effective user IDs of the calling task.
    pub fn sys_setreuid(&mut self, ruid: i32, euid: i32) -> (r: SyscallResult)
        requires
            old(self).wf(),
        ensures
            final(self).wf(),
            r == setreuid_rule(old(self).task().user_id, ruid, euid).1,
            final(self).current_becomes(*old(self), with_user_id(old(self).task(), setreuid_rule(old(self).task().user_id, ruid, euid).0)),
    {
        let mut user_id = self.tasks[self.current].user_id;
        let origin_uid = user_id.uid as i32;
        let origin_euid = user_id.euid as i32;
        let origin_suid = user_id.suid as i32;
        if user_id.euid == 0 {
            if ruid != -1 {
                user_id.uid = ruid as u32;
            }
            if euid != -1 {
                user_id.euid = euid as u32;
                user_id.fsuid = euid as u32;
            }
        } else {
            if ruid != -1 {
                if ruid != origin_uid && ruid != origin_euid {
                    self.store_user_id(user_id);
                    return Err(Errno::EPERM);
                }
                user_id.uid = ruid as u32;
            }
            if euid != -1 {
                if euid != origin_uid && euid != origin_euid && euid != origin_suid {
                    self.store_user_id(user_id);
                    return Err(Errno::EPERM);
                }
                user_id.euid = euid as u32;
                user_id.fsuid = euid as u32;
            }
        }
        if ruid != -1 || (euid != -1 && euid != origin_uid) {
            let tmp_euid = user_id.euid;
            user_id.suid = tmp_euid;
        }
        self.store_user_id(user_id);
        Ok(0)
    }

    /// Sets the real and effective group IDs of the calling task.
    pub fn sys_setregid(&mut self, rgid: i32, egid: i32) -> (r: SyscallResult)
        requires
            old(self).wf(),
        ensures
            final(self).wf(),
            r == setregid_rule(old(self).task().user_id, rgid, egid).1,
            final(self).current_becomes(*old(self), with_user_id(old(self).task(), setregid_rule(old(self).task().user_id, rgid, egid).0)),
    {
        let mut user_id = self.tasks[self.current].user_id;
        let origin_gid = user_id.gid as i32;
        let origin_sgid = user_id.sgid as i32;
        if user_id.euid == 0 {
            if rgid != -1 {
                user_id.gid = rgid as u32;
            }
            if egid != -1 {
                user_id.egid = egid as u32;
                user_id.fsgid = egid as u32;
            }
        } else {
            if rgid != -1 {
                if rgid != origin_sgid && rgid != origin_gid {
                    self.store_user_id(user_id);
                    return Err(Errno::EPERM);
                }
                user_id.gid = rgid as u32;
            }
            if egid != -1 {
                if egid != origin_gid && egid != origin_sgid {
                    self.store_user_id(user_id);
                    return Err(Errno::EPERM);
                }
                user_id.egid = egid as u32;
                user_id.fsgid = egid as u32;
            }
        }
        if rgid != -1 || (egid != -1 && egid != origin_gid) {
            let tmp_egid = user_id.egid;
            user_id.sgid = tmp_egid;
        }
        self.store_user_id(user_id);
        Ok(0)
    }

    /// Sets the real, effective and saved user IDs of the calling task.
    pub fn sys_setresuid(&mut self, ruid: i32, euid: i32, suid: i32) -> (r: SyscallResult)
        requires
            old(self).wf(),
        ensures
            final(self).wf(),
            r == setresuid_rule(old(self).task().user_id, ruid, euid, suid).1,
            final(self).current_becomes(*old(self), with_user_id(old(self).task(), setresuid_rule(old(self).task().user_id, ruid, euid, suid).0)),
    {
        let mut user_id = self.tasks[self.current].user_id;
        let origin_uid = user_id.uid as i32;
        let origin_euid = user_id.euid as i32;
        let origin_suid = user_id.suid as i32;
        if user_id.euid == 0 {
            if ruid != -1 {
                user_id.uid = ruid as u32;
            }
            if euid != -1 {
                user_id.euid = euid as u32;
                user_id.fsuid = euid as u32;
            }
            if suid != -1 {
                user_id.suid = suid as u32;
            }
        } else {
            if ruid != -1 {
                if ruid != origin_uid && ruid != origin_euid && ruid != origin_suid {
                    self.store_user_id(user_id);
                    return Err(Errno::EPERM);
                }
                user_id.uid = ruid as u32;
            }
            if euid != -1 {
                if euid != origin_uid && euid != origin_euid && euid != origin_suid {
                    self.store_user_id(user_id);
                    return Err(Errno::EPERM);
                }
                user_id.euid = euid as u32;
                user_id.fsuid = euid as u32;
            }
            if suid != -1 {
                if suid != origin_uid && suid != origin_euid && suid != origin_suid {
                    self.store_user_id(user_id);
                    return Err(Errno::EPERM);
                }
                user_id.suid = suid as u32;
            }
        }
        self.store_user_id(user_id);
        Ok(0)
    }

    /// Sets the real, effective and saved group IDs of the calling task.
    pub fn sys_setresgid(&mut self, rgid: i32, egid: i32, sgid: i32) -> (r: SyscallResult)
        requires
            old(self).wf(),
        ensures
            final(self).wf(),
            r == setresgid_rule(old(self).task().user_id, rgid, egid, sgid).1,
            final(self).current_becomes(*old(self), with_user_id(old(self).task(), setresgid_rule(old(self).task().user_id, rgid, egid, sgid).0)),
    {
        let mut user_id = self.tasks[self.current].user_id;
        let origin_gid = user_id.gid as i32;
        let origin_egid = user_id.egid as i32;
        let origin_sgid = user_id.sgid as i32;
        if user_id.euid == 0 {
            if rgid != -1 {
                user_id.gid = rgid as u32;
            }
            if egid != -1 {
                user_id.egid = egid as u32;
                user_id.fsgid = egid as u32;
            }
            if sgid != -1 {
                user_id.sgid = sgid as u32;
            }
        } else {
            if rgid != -1 {
                if rgid != origin_gid && rgid != origin_egid && rgid != origin_sgid {
                    self.store_user_id(user_id);
                    return Err(Errno::EPERM);
                }
                user_id.gid = rgid as u32;
            }
            if egid != -1 {
                if egid != origin_gid && egid != origin_egid && egid != origin_sgid {
                    self.store_user_id(user_id);
                    return Err(Errno::EPERM);
                }
                user_id.egid = egid as u32;
                user_id.fsgid = egid as u32;
            }
            if sgid != -1 {
                if sgid != origin_gid && sgid != origin_egid && sgid != origin_sgid {
                    self.store_user_id(user_id);
                    return Err(Errno::EPERM);
                }
                user_id.sgid = sgid as u32;
            }
        }
        self.store_user_id(user_id);
        Ok(0)
    }

    /// Sets the file-system user ID of the calling task; returns the old one.
    pub fn sys_setfsuid(&mut self, fsuid: i32) -> (r: SyscallResult)
        requires
            old(self).wf(),
        ensures
            final(self).wf(),
            r == setfsuid_rule(old(self).task().user_id, fsuid).1,
            final(self).current_becomes(*old(self), with_user_id(old(self).task(), setfsuid_rule(old(self).task().user_id, fsuid).0)),
    {
        let mut user_id = self.tasks[self.current].user_id;
        let origin_fsuid = user_id.fsuid as i32;
        if user_id.euid == 0 {
            if fsuid != -1 {
                user_id.fsuid = fsuid as u32;
            }
        } else {
            if fsuid != user_id.uid as i32 && fsuid != user_id.euid as i32 && fsuid != user_id.suid as i32
                && fsuid != user_id.fsuid as i32 {
                self.store_user_id(user_id);
                return Ok(origin_fsuid as isize);
            } else {
                if fsuid != -1 {
                    user_id.fsuid = fsuid as u32;
                }
            }
        }
        self.store_user_id(user_id);
        Ok(origin_fsuid as isize)
    }

    /// Sets the file-system group ID of the calling task; returns the old one.
    pub fn sys_setfsgid(&mut self, fsgid: i32) -> (r: SyscallResult)
        requires
            old(self).wf(),
        ensures
            final(self).wf(),
            r == setfsgid_rule(old(self).task().user_id, fsgid).1,
            final(self).current_becomes(*old(self), with_user_id(old(self).task(), setfsgid_rule(old(self).task().user_id, fsgid).0)),
    {
        let mut user_id = self.tasks[self.current].user_id;
        let origin_fsgid = user_id.fsgid as i32;
        if user_id.euid == 0 {
            if fsgid != -1 {
                user_id.fsgid = fsgid as u32;
            }
        } else {
            if fsgid != user_id.gid as i32 && fsgid != user_id.egid as i32 && fsgid != user_id.sgid as i32
                && fsgid != user_id.fsgid as i32 {
                self.store_user_id(user_id);
                return Ok(origin_fsgid as isize);
            } else {
                if fsgid != -1 {
                    user_id.fsgid = fsgid as u32;
                }
            }
        }
        self.store_user_id(user_id);
        Ok(origin_fsgid as isize)
    }
}

/// Most supplementary groups a task may have.
pub const NGROUPS_MAX: usize = 32;

impl Syscall {
    /// Adds `groups`, the `size` group IDs that user space passed (or the
    /// error of reading them), to the supplementary groups of the calling
    /// task; with `size` zero, removes them all. `EINVAL` past 32 groups,
    /// `EPERM` unless the caller's effective user is root, then the error of
    /// the read.
    pub fn sys_setgroups(&mut self, size: usize, groups: Result<Vec<u32>, Errno>) -> (r: SyscallResult)
        requires
            old(self).wf(),
            groups matches Ok(g) ==> g@.len() == size,
        ensures
            final(self).wf(),
            final(self).current_becomes(*old(self), Task { sup_groups: final(self).task().sup_groups, ..old(self).task() }),
            size > NGROUPS_MAX ==> r == Err::<isize, Errno>(Errno::EINVAL),
            size <= NGROUPS_MAX && old(self).task().user_id.euid != 0 ==> r == Err::<isize, Errno>(Errno::EPERM),
            size <= NGROUPS_MAX && old(self).task().user_id.euid == 0 ==> match groups {
                Err(e) => r == Err::<isize, Errno>(e),
                Ok(g) => r == Ok::<isize, Errno>(0) && final(self).task().sup_groups@
                    == if size == 0 { Seq::<u32>::empty() } else { old(self).task().sup_groups@ + g@ },
            },
            r is Err ==> final(self).tasks@ == old(self).tasks@,
    {
        proof { self.lemma_unchanged(); }
        if size > NGROUPS_MAX {
            return Err(Errno::EINVAL);
        }
        let c = self.current;
        if self.tasks[c].user_id.euid != 0 {
            return Err(Errno::EPERM);
        }
        let mut g = match groups {
            Ok(g) => g,
            Err(e) => return Err(e),
        };
        if size == 0 {
            self.tasks[c].sup_groups.clear();
        } else {
            self.tasks[c].sup_groups.append(&mut g);
        }
        proof { self.lemma_current_change_keeps_wf(*old(self), self.task()); }
        Ok(0)
    }

    /// The supplementary groups of the calling task, for a buffer of `size`
    /// entries: with `size` zero only their number, with no entry to copy.
    /// `EINVAL` past 32 entries or for a buffer too short.
    pub fn sys_getgroups(&self, size: usize) -> (r: Result<(isize, Vec<u32>), Errno>)
        requires
            self.wf(),
            self.task().sup_groups@.len() <= isize::MAX,
        ensures
            size > NGROUPS_MAX ==> r is Err && r == Err::<(isize, Vec<u32>), Errno>(Errno::EINVAL),
            size <= NGROUPS_MAX && size == 0 ==> (r matches Ok((n, v))
                && n == self.task().sup_groups@.len() && v@.len() == 0),
            size <= NGROUPS_MAX && size != 0 && size < self.task().sup_groups@.len()
                ==> r is Err && r == Err::<(isize, Vec<u32>), Errno>(Errno::EINVAL),
            size <= NGROUPS_MAX && size != 0 && size >= self.task().sup_groups@.len()
                ==> (r matches Ok((n, v)) && n == self.task().sup_groups@.len() && v@ == self.task().sup_groups@),
    {
        if size > NGROUPS_MAX {
            return Err(Errno::EINVAL);
        }
        let groups = &self.tasks[self.current].sup_groups;
        let len = groups.len();
        if size == 0 {
            return Ok((len as isize, Vec::new()));
        }
        if size < len {
            return Err(Errno::EINVAL);
        }
        Ok((len as isize, groups.clone()))
    }
}

impl Syscall {
    /// The real, effective and saved user IDs of the calling task, which
    /// `getresuid` writes to user space.
    pub fn sys_getresuid(&self) -> (r: (u32, u32, u32))
        requires
            self.wf(),
        ensures
            r == (self.task().user_id.uid, self.task().user_id.euid, self.task().user_id.suid),
    {
        let u = self.tasks[self.current].user_id;
        (u.uid, u.euid, u.suid)
    }

    /// The real, effective and saved group IDs of the calling task, which
    /// `getresgid` writes to user space.
    pub fn sys_getresgid(&self) -> (r: (u32, u32, u32))
        requires
            self.wf(),
        ensures
            r == (self.task().user_id.gid, self.task().user_id.egid, self.task().user_id.sgid),
    {
        let u = self.tasks[self.current].user_id;
        (u.gid, u.egid, u.sgid)
    }
}

/// A 32-bit ID read as signed and back is unchanged.
pub proof fn lemma_u32_i32_round_trip(a: u32)
    ensures
        (a as i32) as u32 == a,
{
    assert((a as i32) as u32 == a) by (bit_vector);
}

/// Only root changes its IDs freely: a task that is not root and calls
/// `setresuid` ends with real, effective and saved user IDs each taken from
/// its former three.
pub proof fn law_unprivileged_setresuid_keeps_ids(u: UserId, ruid: i32, euid: i32, suid: i32)
    requires
        u.euid != 0,
    ensures
        ({
            let n = setresuid_rule(u, ruid, euid, suid).0;
            &&& (n.uid == u.uid || n.uid == u.euid || n.uid == u.suid)
            &&& (n.euid == u.uid || n.euid == u.euid || n.euid == u.suid)
            &&& (n.suid == u.uid || n.suid == u.euid || n.suid == u.suid)
        }),
{
    lemma_u32_i32_round_trip(u.uid);
    lemma_u32_i32_round_trip(u.euid);
    lemma_u32_i32_round_trip(u.suid);
}

/// `setuid` by a task that is not root never changes its real or saved ID.
pub proof fn law_unprivileged_setuid_keeps_real_and_saved(u: UserId, uid: u32)
    requires
        u.euid != 0,
    ensures
        setuid_rule(u, uid).0.uid == u.uid,
        setuid_rule(u, uid).0.suid == u.suid,
        setuid_rule(u, uid).1 is Ok ==> (uid == u.uid || uid == u.suid),
{
}

/// `setgid` by a task whose effective user ID is root always succeeds and
/// sets the real, effective, saved and file-system group IDs to the given
/// one, leaving the user IDs and the other fields as they were.
pub proof fn law_root_setgid_sets_all(u: UserId, gid: u32)
    requires
        u.euid == 0,
    ensures
        setgid_rule(u, gid).1 == Ok::<isize, Errno>(0),
        setgid_rule(u, gid).0.gid == gid,
        setgid_rule(u, gid).0.egid == gid,
        setgid_rule(u, gid).0.sgid == gid,
        setgid_rule(u, gid).0.fsgid == gid,
        setgid_rule(u, gid).0.uid == u.uid,
        setgid_rule(u, gid).0.euid == u.euid,
        setgid_rule(u, gid).0.suid == u.suid,
        setgid_rule(u, gid).0.fsuid == u.fsuid,
{
}

/// `setgid` by a task that is not root never changes its real or saved
/// group ID, and succeeds only for one of those two.
pub proof fn law_unprivileged_setgid_keeps_real_and_saved(u: UserId, gid: u32)
    requires
        u.euid != 0,
    ensures
        setgid_rule(u, gid).0.gid == u.gid,
        setgid_rule(u, gid).0.sgid == u.sgid,
        setgid_rule(u, gid).1 is Ok <==> (gid == u.gid || gid == u.sgid),
        setgid_rule(u, gid).1 is Ok ==> setgid_rule(u, gid).0.egid == gid && setgid_rule(u, gid).0.fsgid == gid,
{
}

/// `setuid` by a task whose effective user ID is root always succeeds and
/// sets the real, effective, saved and file-system user IDs to the given one,
/// leaving the group IDs as they were.
pub proof fn law_root_setuid_sets_all(u: UserId, uid: u32)
    requires
        u.euid == 0,
    ensures
        setuid_rule(u, uid).1 == Ok::<isize, Errno>(0),
        setuid_rule(u, uid).0.uid == uid,
        setuid_rule(u, uid).0.euid == uid,
        setuid_rule(u, uid).0.suid == uid,
        setuid_rule(u, uid).0.fsuid == uid,
        setuid_rule(u, uid).0.gid == u.gid,
        setuid_rule(u, uid).0.egid == u.egid,
        setuid_rule(u, uid).0.sgid == u.sgid,
        setuid_rule(u, uid).0.fsgid == u.fsgid,
{
}

/// `setresuid` by root succeeds and sets each of the real, effective and
/// saved user IDs to the one given, `-1` keeping it; the file-system ID
/// follows the effective one; the group IDs do not change.
pub proof fn law_root_setresuid(u: UserId, ruid: i32, euid: i32, suid: i32)
    requires
        u.euid == 0,
    ensures
        ({
            let (n, r) = setresuid_rule(u, ruid, euid, suid);
            &&& r == Ok::<isize, Errno>(0)
            &&& n.uid == if ruid == -1 { u.uid } else { ruid as u32 }
            &&& n.euid == if euid == -1 { u.euid } else { euid as u32 }
            &&& n.suid == if suid == -1 { u.suid } else { suid as u32 }
            &&& n.fsuid == if euid == -1 { u.fsuid } else { euid as u32 }
            &&& n.gid == u.gid && n.egid == u.egid && n.sgid == u.sgid && n.fsgid == u.fsgid
        }),
{
}

/// `setresgid` by root succeeds and sets each of the real, effective and
/// saved group IDs to the one given, `-1` keeping it; the file-system ID
/// follows the effective one; the user IDs do not change.
pub proof fn law_root_setresgid(u: UserId, rgid: i32, egid: i32, sgid: i32)
    requires
        u.euid == 0,
    ensures
        ({
            let (n, r) = setresgid_rule(u, rgid, egid, sgid);
            &&& r == Ok::<isize, Errno>(0)
            &&& n.gid == if rgid == -1 { u.gid } else { rgid as u32 }
            &&& n.egid == if egid == -1 { u.egid } else { egid as u32 }
            &&& n.sgid == if sgid == -1 { u.sgid } else { sgid as u32 }
            &&& n.fsgid == if egid == -1 { u.fsgid } else { egid as u32 }
            &&& n.uid == u.uid && n.euid == u.euid && n.suid == u.suid && n.fsuid == u.fsuid
        }),
{
}

/// A task that is not root and calls `setresgid` ends with real, effective
/// and saved group IDs each taken from its former three, and its user IDs
/// unchanged.
pub proof fn law_unprivileged_setresgid_keeps_ids(u: UserId, rgid: i32, egid: i32, sgid: i32)
    requires
        u.euid != 0,
    ensures
        ({
            let n = setresgid_rule(u, rgid, egid, sgid).0;
            &&& (n.gid == u.gid || n.gid == u.egid || n.gid == u.sgid)
            &&& (n.egid == u.gid || n.egid == u.egid || n.egid == u.sgid)
            &&& (n.sgid == u.gid || n.sgid == u.egid || n.sgid == u.sgid)
            &&& n.uid == u.uid && n.euid == u.euid && n.suid == u.suid && n.fsuid == u.fsuid
        }),
{
    lemma_u32_i32_round_trip(u.gid);
    lemma_u32_i32_round_trip(u.egid);
    lemma_u32_i32_round_trip(u.sgid);
}

/// `setreuid` by root succeeds and sets the real and effective user IDs to
/// those given, `-1` keeping one; the saved ID becomes the new effective one
/// when the real ID is given or the effective one changes from the real one.
pub proof fn law_root_setreuid(u: UserId, ruid: i32, euid: i32)
    requires
        u.euid == 0,
    ensures
        ({
            let (n, r) = setreuid_rule(u, ruid, euid);
            &&& r == Ok::<isize, Errno>(0)
            &&& n.uid == if ruid == -1 { u.uid } else { ruid as u32 }
            &&& n.euid == if euid == -1 { u.euid } else { euid as u32 }
            &&& n.suid == if ruid != -1 || (euid != -1 && euid != u.uid as i32) { n.euid } else { u.suid }
            &&& n.gid == u.gid && n.egid == u.egid && n.sgid == u.sgid && n.fsgid == u.fsgid
        }),
{
}

/// `setfsuid` always answers the former file-system user ID; the ID becomes
/// the one given when the caller is root or the ID is one of its user IDs
/// (and is not `-1`), and stays otherwise; no other ID changes.
pub proof fn law_setfsuid(u: UserId, fsuid: i32)
    ensures
        setfsuid_rule(u, fsuid).1 == Ok::<isize, Errno>((u.fsuid as i32) as isize),
        setfsuid_rule(u, fsuid).0 == if fsuid != -1 && (u.euid == 0 || fsuid == u.uid as i32
            || fsuid == u.euid as i32 || fsuid == u.suid as i32 || fsuid == u.fsuid as i32) {
            UserId { fsuid: fsuid as u32, ..u }
        } else {
            u
        },
{
}

/// `setfsgid` always answers the former file-system group ID; the ID becomes
/// the one given when the caller is root or the ID is one of its group IDs
/// (and is not `-1`), and stays otherwise; no other ID changes.
pub proof fn law_setfsgid(u: UserId, fsgid: i32)
    ensures
        setfsgid_rule(u, fsgid).1 == Ok::<isize, Errno>((u.fsgid as i32) as isize),
        setfsgid_rule(u, fsgid).0 == if fsgid != -1 && (u.euid == 0 || fsgid == u.gid as i32
            || fsgid == u.egid as i32 || fsgid == u.sgid as i32 || fsgid == u.fsgid as i32) {
            UserId { fsgid: fsgid as u32, ..u }
        } else {
            u
        },
{
}

} // verus!
