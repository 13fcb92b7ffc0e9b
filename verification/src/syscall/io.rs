//! Descriptor sets of `pselect6`: which descriptors are waited on for what,
//! and how the sets are filled once the wait is over.
use vstd::prelude::*;
use crate::errno::{Errno, SysResult};
use crate::signal::sig_set::{bit_set, lemma_bit_or, lemma_bit_single, lemma_bit_zero};
use crate::syscall::syscall::Syscall;

verus! {

/// Number of descriptors that a descriptor set holds.
pub const FD_SETSIZE: usize = 1024;

/// Data may be read.
pub const POLLIN: u16 = 0x1u16;

/// Data may be written.
pub const POLLOUT: u16 = 0x4u16;

/// The other end hung up.
pub const POLLHUP: u16 = 0x10u16;

/// A set of descriptors, one bit each: bit `fd % 64` of word `fd / 64`.
#[derive(Clone, Copy)]
pub struct FdSet {
    pub fds_bits: [u64; 16],
}

impl FdSet {
    /// Whether descriptor `fd` is in the set.
    pub open spec fn has(&self, fd: int) -> bool {
        0 <= fd < FD_SETSIZE && bit_set(self.fds_bits@[fd / 64], (fd % 64) as u64)
    }

    /// The empty set.
    pub fn new_empty() -> (r: FdSet)
        ensures
            forall|fd: int| !r.has(fd),
    {
        let r = FdSet { fds_bits: [0u64; 16] };
        proof {
            assert forall|fd: int| !r.has(fd) by {
                if 0 <= fd < FD_SETSIZE {
                    assert(r.fds_bits@[fd / 64] == 0u64);
                    lemma_bit_zero((fd % 64) as u64);
                }
            }
        }
        r
    }

    /// Whether descriptor `fd` is in the set.
    pub fn is_set(&self, fd: usize) -> (r: bool)
        ensures
            r == self.has(fd as int),
    {
        if fd >= FD_SETSIZE {
            return false;
        }
        (self.fds_bits[fd / 64] >> ((fd % 64) as u64)) & 1u64 == 1u64
    }

    /// Adds descriptor `fd`, when it is below `FD_SETSIZE`.
    pub fn set(&mut self, fd: usize)
        ensures
            forall|i: int| #[trigger] final(self).has(i) == (old(self).has(i) || (i == fd && fd < FD_SETSIZE)),
    {
        if fd < FD_SETSIZE {
            let w = fd / 64;
            let b = (fd % 64) as u64;
            let old_word = self.fds_bits[w];
            self.fds_bits[w] = old_word | (1u64 << b);
            proof {
                assert forall|i: int| #[trigger] self.has(i) == (old(self).has(i) || (i == fd && fd < FD_SETSIZE)) by {
                    if 0 <= i < FD_SETSIZE {
                        let iw = i / 64;
                        let ib = (i % 64) as u64;
                        if iw == w {
                            lemma_bit_or(old_word, 1u64 << b, ib);
                            lemma_bit_single(b, ib);
                        } else {
                            assert(self.fds_bits@[iw] == old(self).fds_bits@[iw]);
                        }
                    }
                }
            }
        }
    }

    /// Removes every descriptor.
    pub fn clear(&mut self)
        ensures
            forall|fd: int| !final(self).has(fd),
    {
        *self = FdSet::new_empty();
    }
}

/// What `pselect6` waits for on descriptor `fd`: `POLLIN` when it is in
/// `read`, `POLLOUT` when it is in `write`, both, or nothing.
pub open spec fn select_events(read: Option<FdSet>, write: Option<FdSet>, fd: int) -> u16 {
    let r: u16 = if read matches Some(s) && s.has(fd) { POLLIN } else { 0u16 };
    let w: u16 = if write matches Some(s) && s.has(fd) { POLLOUT } else { 0u16 };
    (r + w) as u16
}

/// The descriptors below `n` that `pselect6` waits on, in order, with what
/// it waits for on each.
pub open spec fn select_items(read: Option<FdSet>, write: Option<FdSet>, n: nat) -> Seq<(usize, u16)>
    decreases n,
{
    if n == 0 {
        Seq::empty()
    } else {
        let rest = select_items(read, write, (n - 1) as nat);
        let e = select_events(read, write, n - 1);
        if e != 0 {
            rest.push(((n - 1) as usize, e))
        } else {
            rest
        }
    }
}

/// Whether a ready descriptor counts as readable: data to read, or a hang-up.
pub open spec fn ready_to_read(events: u16) -> bool {
    events & POLLIN != 0 || events & POLLHUP != 0
}

/// Whether a ready descriptor counts as writable.
pub open spec fn ready_to_write(events: u16) -> bool {
    events & POLLOUT != 0
}

/// The number that `pselect6` returns for the ready descriptors `res`: one for
/// each that is readable and one for each that is writable.
pub open spec fn ready_count(res: Seq<(usize, u16)>) -> int
    decreases res.len(),
{
    if res.len() == 0 {
        0
    } else {
        ready_count(res.drop_last())
            + (if ready_to_read(res.last().1) { 1int } else { 0int })
            + (if ready_to_write(res.last().1) { 1int } else { 0int })
    }
}

/// A set given back to user space holds exactly the descriptors of `res` that
/// are ready as `ready` says, below `FD_SETSIZE`.
pub open spec fn filled(set: FdSet, res: Seq<(usize, u16)>, ready: spec_fn(u16) -> bool) -> bool {
    forall|fd: int| #[trigger] set.has(fd) == (0 <= fd < FD_SETSIZE
        && exists|k: int| 0 <= k < res.len() && res[k].0 == fd && ready(#[trigger] res[k].1))
}

proof fn lemma_ready_count_step(res: Seq<(usize, u16)>, i: int)
    requires
        0 <= i < res.len(),
    ensures
        ready_count(res.take(i + 1)) == ready_count(res.take(i))
            + (if ready_to_read(res[i].1) { 1int } else { 0int })
            + (if ready_to_write(res[i].1) { 1int } else { 0int }),
{
    assert(res.take(i + 1).drop_last() =~= res.take(i));
}

proof fn lemma_ready_count_bound(res: Seq<(usize, u16)>)
    ensures
        0 <= ready_count(res) <= 2 * res.len(),
    decreases res.len(),
{
    if res.len() > 0 {
        lemma_ready_count_bound(res.drop_last());
    }
}

impl Syscall {
    /// What `pselect6` waits on before it waits: each descriptor below `nfds`
    /// in `read` or `write`, in order, with `POLLIN`, `POLLOUT` or both.
    /// `EINVAL` for a negative `nfds`; `EBADF` if one of them is not open.
    pub fn pselect_items(&self, nfds: usize, read: Option<FdSet>, write: Option<FdSet>) -> (r: SysResult<Vec<(usize, u16)>>)
        requires
            self.wf(),
        ensures
            nfds > isize::MAX ==> r == Err::<Vec<(usize, u16)>, Errno>(Errno::EINVAL),
            nfds <= isize::MAX && (exists|fd: int| 0 <= fd < nfds && select_events(read, write, fd) != 0
                && !self.task().fd_table.is_open(fd)) ==> r == Err::<Vec<(usize, u16)>, Errno>(Errno::EBADF),
            nfds <= isize::MAX && !(exists|fd: int| 0 <= fd < nfds && select_events(read, write, fd) != 0
                && !self.task().fd_table.is_open(fd)) ==> (r matches Ok(v) && v@ == select_items(read, write, nfds as nat)),
    {
        if nfds > isize::MAX as usize {
            return Err(Errno::EINVAL);
        }
        let c = self.current;
        let mut items: Vec<(usize, u16)> = Vec::new();
        let mut fd: usize = 0;
        while fd < nfds
            invariant
                self.wf(),
                c == self.current,
                nfds <= isize::MAX,
                fd <= nfds,
                items@ == select_items(read, write, fd as nat),
                forall|j: int| 0 <= j < fd && select_events(read, write, j) != 0 ==> self.task().fd_table.is_open(j),
            decreases nfds - fd,
        {
            let mut events: u16 = 0;
            match read {
                Some(s) => {
                    if s.is_set(fd) {
                        events = events + POLLIN;
                    }
                },
                None => {},
            }
            match write {
                Some(s) => {
                    if s.is_set(fd) {
                        events = events + POLLOUT;
                    }
                },
                None => {},
            }
            assert(events == select_events(read, write, fd as int));
            if events != 0 {
                if self.tasks[c].fd_table.get(fd).is_none() {
                    return Err(Errno::EBADF);
                }
                items.push((fd, events));
            }
            fd = fd + 1;
        }
        Ok(items)
    }
}

/// Fills the descriptor sets of `pselect6` once the wait is over: each given
/// set is emptied, then, for the ready descriptors `res` (`None` when the wait
/// timed out), `read` gets those readable and `write` those writable; returns
/// how many marks that makes, 0 on a timeout.
pub fn pselect_fill(
    res: Option<Vec<(usize, u16)>>,
    read: &mut Option<FdSet>,
    write: &mut Option<FdSet>,
    except: &mut Option<FdSet>,
) -> (r: isize)
    requires
        res matches Some(v) ==> v@.len() <= isize::MAX / 2,
    ensures
        final(read).is_some() == old(read).is_some(),
        final(write).is_some() == old(write).is_some(),
        final(except).is_some() == old(except).is_some(),
        *final(except) matches Some(s) ==> forall|fd: int| !s.has(fd),
        res.is_none() ==> {
            &&& r == 0
            &&& *final(read) matches Some(s) ==> forall|fd: int| !s.has(fd)
            &&& *final(write) matches Some(s) ==> forall|fd: int| !s.has(fd)
        },
        res matches Some(v) ==> {
            &&& r == ready_count(v@)
            &&& *final(read) matches Some(s) ==> filled(s, v@, |e: u16| ready_to_read(e))
            &&& *final(write) matches Some(s) ==> filled(s, v@, |e: u16| ready_to_write(e))
        },
{
    let mut rs = FdSet::new_empty();
    let mut ws = FdSet::new_empty();
    if except.is_some() {
        *except = Some(FdSet::new_empty());
    }
    match res {
        None => {
            if read.is_some() {
                *read = Some(rs);
            }
            if write.is_some() {
                *write = Some(ws);
            }
            0
        },
        Some(v) => {
            let mut ret: isize = 0;
            let mut i: usize = 0;
            proof { lemma_ready_count_bound(v@); }
            while i < v.len()
                invariant
                    i <= v@.len(),
                    v@.len() <= isize::MAX / 2,
                    ret == ready_count(v@.take(i as int)),
                    filled(rs, v@.take(i as int), |e: u16| ready_to_read(e)),
                    filled(ws, v@.take(i as int), |e: u16| ready_to_write(e)),
                decreases v@.len() - i,
            {
                let (fd, events) = v[i];
                proof {
                    lemma_ready_count_step(v@, i as int);
                    lemma_ready_count_bound(v@.take(i as int));
                }
                let ghost prev = v@.take(i as int);
                let ghost next = v@.take(i as int + 1);
                let ghost rs0 = rs;
                let ghost ws0 = ws;
                if events & POLLIN != 0 || events & POLLHUP != 0 {
                    rs.set(fd);
                    ret = ret + 1;
                }
                if events & POLLOUT != 0 {
                    ws.set(fd);
                    ret = ret + 1;
                }
                proof {
                    assert(next[i as int] == (fd, events));
                    assert forall|x: int| #[trigger] rs.has(x) == (0 <= x < FD_SETSIZE
                        && exists|k: int| 0 <= k < next.len() && next[k].0 == x && ready_to_read(#[trigger] next[k].1)) by {
                        if rs.has(x) && !(x == fd && ready_to_read(events)) {
                            assert(rs0.has(x));
                            let k = choose|k: int| 0 <= k < prev.len() && prev[k].0 == x && ready_to_read(#[trigger] prev[k].1);
                            assert(next[k] == prev[k]);
                        }
                        if 0 <= x < FD_SETSIZE && exists|k: int| 0 <= k < next.len() && next[k].0 == x && ready_to_read(#[trigger] next[k].1) {
                            let k = choose|k: int| 0 <= k < next.len() && next[k].0 == x && ready_to_read(#[trigger] next[k].1);
                            if k < i {
                                assert(prev[k] == next[k]);
                                assert(rs0.has(x));
                            }
                        }
                    }
                    assert forall|x: int| #[trigger] ws.has(x) == (0 <= x < FD_SETSIZE
                        && exists|k: int| 0 <= k < next.len() && next[k].0 == x && ready_to_write(#[trigger] next[k].1)) by {
                        if ws.has(x) && !(x == fd && ready_to_write(events)) {
                            assert(ws0.has(x));
                            let k = choose|k: int| 0 <= k < prev.len() && prev[k].0 == x && ready_to_write(#[trigger] prev[k].1);
                            assert(next[k] == prev[k]);
                        }
                        if 0 <= x < FD_SETSIZE && exists|k: int| 0 <= k < next.len() && next[k].0 == x && ready_to_write(#[trigger] next[k].1) {
                            let k = choose|k: int| 0 <= k < next.len() && next[k].0 == x && ready_to_write(#[trigger] next[k].1);
                            if k < i {
                                assert(prev[k] == next[k]);
                                assert(ws0.has(x));
                            }
                        }
                    }
                }
                i = i + 1;
            }
            proof {
                assert(v@.take(v@.len() as int) =~= v@);
            }
            if read.is_some() {
                *read = Some(rs);
            }
            if write.is_some() {
                *write = Some(ws);
            }
            ret
        },
    }
}

/// The events that the pairs of `res` report for place `i`, together.
pub open spec fn reported(res: Seq<(usize, u16)>, i: int) -> u16
    decreases res.len(),
{
    if res.len() == 0 {
        0u16
    } else if res.last().0 == i {
        reported(res.drop_last(), i) | res.last().1
    } else {
        reported(res.drop_last(), i)
    }
}

proof fn lemma_or_assoc(a: u16, b: u16, c: u16)
    ensures
        (a | b) | c == a | (b | c),
        a | 0u16 == a,
{
    assert((a | b) | c == a | (b | c)) by (bit_vector);
    assert(a | 0u16 == a) by (bit_vector);
}

/// One descriptor of `ppoll`: which one, what is waited for, what happened.
#[derive(Clone, Copy, Debug, PartialEq, Eq, Structural)]
pub struct PollFd {
    pub fd: i32,
    pub events: u16,
    pub revents: u16,
}

impl Syscall {
    /// What `ppoll` waits on: for each entry of `fds`, in order, its place and
    /// the events it asks for. `EBADF` if one of the descriptors is not open
    /// (a negative one is not).
    pub fn ppoll_items(&self, fds: &Vec<PollFd>) -> (r: SysResult<Vec<(usize, u16)>>)
        requires
            self.wf(),
        ensures
            (exists|i: int| 0 <= i < fds@.len() && !self.task().fd_table.is_open((#[trigger] fds@[i]).fd as usize as int))
                ==> r == Err::<Vec<(usize, u16)>, Errno>(Errno::EBADF),
            !(exists|i: int| 0 <= i < fds@.len() && !self.task().fd_table.is_open((#[trigger] fds@[i]).fd as usize as int))
                ==> (r matches Ok(v) && v@.len() == fds@.len()
                    && forall|i: int| 0 <= i < fds@.len() ==> #[trigger] v@[i] == (i as usize, fds@[i].events)),
    {
        let c = self.current;
        let mut items: Vec<(usize, u16)> = Vec::new();
        let mut i: usize = 0;
        while i < fds.len()
            invariant
                self.wf(),
                c == self.current,
                i <= fds@.len(),
                items@.len() == i,
                forall|j: int| 0 <= j < i ==> #[trigger] items@[j] == (j as usize, fds@[j].events),
                forall|j: int| 0 <= j < i ==> self.task().fd_table.is_open((#[trigger] fds@[j]).fd as usize as int),
            decreases fds@.len() - i,
        {
            let pfd = fds[i];
            if self.tasks[c].fd_table.get(pfd.fd as usize).is_none() {
                return Err(Errno::EBADF);
            }
            items.push((i, pfd.events));
            i = i + 1;
        }
        Ok(items)
    }
}

/// Marks the events that happened, `res` pairs of a place in `fds` and the
/// events found there, in the entries of `fds`; returns how many pairs there
/// were.
pub fn ppoll_fill(fds: &mut Vec<PollFd>, res: &Vec<(usize, u16)>) -> (r: isize)
    requires
        res@.len() <= isize::MAX,
        forall|k: int| 0 <= k < res@.len() ==> (#[trigger] res@[k]).0 < old(fds)@.len(),
    ensures
        r == res@.len(),
        final(fds)@.len() == old(fds)@.len(),
        forall|i: int| 0 <= i < old(fds)@.len() ==> #[trigger] final(fds)@[i] == (PollFd {
            revents: old(fds)@[i].revents | reported(res@, i),
            ..old(fds)@[i]
        }),
{
    let mut k: usize = 0;
    proof {
        assert forall|i: int| 0 <= i < fds@.len() implies #[trigger] fds@[i] == (PollFd {
            revents: old(fds)@[i].revents | reported(res@.take(0), i),
            ..old(fds)@[i]
        }) by {
            lemma_or_assoc(fds@[i].revents, 0, 0);
        }
    }
    while k < res.len()
        invariant
            k <= res@.len(),
            fds@.len() == old(fds)@.len(),
            forall|j: int| 0 <= j < res@.len() ==> (#[trigger] res@[j]).0 < old(fds)@.len(),
            forall|i: int| 0 <= i < old(fds)@.len() ==> #[trigger] fds@[i] == (PollFd {
                revents: old(fds)@[i].revents | reported(res@.take(k as int), i),
                ..old(fds)@[i]
            }),
        decreases res@.len() - k,
    {
        let (id, result) = res[k];
        let old_entry = fds[id];
        let prev: u16 = old_entry.revents;
        let ghost before = fds@;
        fds.set(id, PollFd { revents: prev | result, ..old_entry });
        proof {
            let t0 = res@.take(k as int);
            let t1 = res@.take(k as int + 1);
            assert(t1.drop_last() =~= t0);
            assert(t1.last() == res@[k as int]);
            assert forall|i: int| 0 <= i < old(fds)@.len() implies #[trigger] fds@[i] == (PollFd {
                revents: old(fds)@[i].revents | reported(t1, i),
                ..old(fds)@[i]
            }) by {
                if i == id {
                    lemma_or_assoc(old(fds)@[i].revents, reported(t0, i), result);
                } else {
                    assert(fds@[i] == before[i]);
                }
            }
        }
        k = k + 1;
    }
    proof {
        assert(res@.take(res@.len() as int) =~= res@);
    }
    res.len() as isize
}

/// The sets that `pselect6` gives back: a descriptor below `FD_SETSIZE` is
/// in the read set exactly when one of the ready entries for it reports data
/// to read (`POLLIN`) or a hang-up (`POLLHUP`), and in the write set exactly
/// when one reports room to write (`POLLOUT`).
pub proof fn law_pselect_sets(rs: FdSet, ws: FdSet, res: Seq<(usize, u16)>, fd: int)
    requires
        filled(rs, res, |e: u16| ready_to_read(e)),
        filled(ws, res, |e: u16| ready_to_write(e)),
    ensures
        rs.has(fd) == (0 <= fd < FD_SETSIZE && exists|k: int| 0 <= k < res.len() && res[k].0 == fd
            && (#[trigger] res[k].1 & POLLIN != 0 || res[k].1 & POLLHUP != 0)),
        ws.has(fd) == (0 <= fd < FD_SETSIZE && exists|k: int| 0 <= k < res.len() && res[k].0 == fd
            && #[trigger] res[k].1 & POLLOUT != 0),
{
    assert(rs.has(fd) == (0 <= fd < FD_SETSIZE && exists|k: int| 0 <= k < res.len() && res[k].0 == fd
        && ready_to_read(#[trigger] res[k].1)));
    assert(ws.has(fd) == (0 <= fd < FD_SETSIZE && exists|k: int| 0 <= k < res.len() && res[k].0 == fd
        && ready_to_write(#[trigger] res[k].1)));
}

/// The number `pselect6` returns grows, for one more ready entry, by one if
/// it reports data to read or a hang-up and by one more if it reports room to
/// write; no entries count nothing.
pub proof fn law_pselect_count(res: Seq<(usize, u16)>, fd: usize, e: u16)
    ensures
        ready_count(Seq::<(usize, u16)>::empty()) == 0,
        ready_count(res.push((fd, e))) == ready_count(res)
            + (if e & POLLIN != 0 || e & POLLHUP != 0 { 1int } else { 0int })
            + (if e & POLLOUT != 0 { 1int } else { 0int }),
{
    assert(res.push((fd, e)).drop_last() =~= res);
}

/// Whether `set` is given and holds `fd`.
pub open spec fn given_has(set: Option<FdSet>, fd: int) -> bool {
    set matches Some(s) && s.has(fd)
}

proof fn lemma_select_event_bits(read: Option<FdSet>, write: Option<FdSet>, fd: int)
    ensures
        (select_events(read, write, fd) & POLLIN != 0) == given_has(read, fd),
        (select_events(read, write, fd) & POLLOUT != 0) == given_has(write, fd),
        (select_events(read, write, fd) != 0) == (given_has(read, fd) || given_has(write, fd)),
{
    let e = select_events(read, write, fd);
    if given_has(read, fd) && given_has(write, fd) {
        assert(e == 5u16);
        assert(5u16 & 1u16 != 0 && 5u16 & 4u16 != 0) by (bit_vector);
    } else if given_has(read, fd) {
        assert(e == 1u16);
        assert(1u16 & 1u16 != 0 && 1u16 & 4u16 == 0) by (bit_vector);
    } else if given_has(write, fd) {
        assert(e == 4u16);
        assert(4u16 & 1u16 == 0 && 4u16 & 4u16 != 0) by (bit_vector);
    } else {
        assert(e == 0u16);
        assert(0u16 & 1u16 == 0 && 0u16 & 4u16 == 0) by (bit_vector);
    }
}

/// What `pselect6` waits on among the descriptors below `n`: a descriptor
/// is waited on exactly when the read or the write set holds it, for data to
/// read (`POLLIN`) exactly when the read set holds it and for room to write
/// (`POLLOUT`) exactly when the write set does; the descriptors come in
/// increasing order, each once.
pub proof fn law_select_items(read: Option<FdSet>, write: Option<FdSet>, n: nat)
    ensures
        forall|fd: int| 0 <= fd < n ==> ((exists|k: int| 0 <= k < select_items(read, write, n).len()
            && (#[trigger] select_items(read, write, n)[k]).0 == fd) == (given_has(read, fd) || given_has(write, fd))),
        forall|k: int| 0 <= k < select_items(read, write, n).len() ==> {
            let (fd, e) = #[trigger] select_items(read, write, n)[k];
            &&& fd < n
            &&& (e & POLLIN != 0) == given_has(read, fd as int)
            &&& (e & POLLOUT != 0) == given_has(write, fd as int)
        },
        forall|a: int, b: int| 0 <= a < b < select_items(read, write, n).len()
            ==> (#[trigger] select_items(read, write, n)[a]).0 < (#[trigger] select_items(read, write, n)[b]).0,
    decreases n,
{
    if n > 0 {
        let m = (n - 1) as nat;
        law_select_items(read, write, m);
        lemma_select_event_bits(read, write, m as int);
        let rest = select_items(read, write, m);
        let all = select_items(read, write, n);
        let e = select_events(read, write, m as int);
        if e != 0 {
            assert(all == rest.push((m as usize, e)));
        } else {
            assert(all == rest);
        }
        assert forall|fd: int| 0 <= fd < n implies ((exists|k: int| 0 <= k < all.len()
            && (#[trigger] all[k]).0 == fd) == (given_has(read, fd) || given_has(write, fd))) by {
            if fd < m {
                if exists|k: int| 0 <= k < all.len() && (#[trigger] all[k]).0 == fd {
                    let k = choose|k: int| 0 <= k < all.len() && (#[trigger] all[k]).0 == fd;
                    if k < rest.len() {
                        assert(rest[k] == all[k]);
                    }
                }
                if given_has(read, fd) || given_has(write, fd) {
                    let k = choose|k: int| 0 <= k < rest.len() && (#[trigger] rest[k]).0 == fd;
                    assert(all[k] == rest[k]);
                }
            } else {
                if exists|k: int| 0 <= k < all.len() && (#[trigger] all[k]).0 == fd {
                    let k = choose|k: int| 0 <= k < all.len() && (#[trigger] all[k]).0 == fd;
                    if k < rest.len() {
                        assert(rest[k] == all[k]);
                    }
                }
                if e != 0 {
                    assert(all[rest.len() as int].0 == fd);
                }
            }
        }
        assert forall|k: int| 0 <= k < all.len() implies {
            let (fd, ev) = #[trigger] all[k];
            &&& fd < n
            &&& (ev & POLLIN != 0) == given_has(read, fd as int)
            &&& (ev & POLLOUT != 0) == given_has(write, fd as int)
        } by {
            if k < rest.len() {
                assert(rest[k] == all[k]);
            }
        }
        assert forall|a: int, b: int| 0 <= a < b < all.len() implies (#[trigger] all[a]).0 < (#[trigger] all[b]).0 by {
            assert(all[a] == rest[a]);
            if b < rest.len() {
                assert(all[b] == rest[b]);
            }
        }
    }
}

} // verus!
