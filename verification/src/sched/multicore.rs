//! Load balancing between the fair schedulers of several cores.
use vstd::prelude::*;
use crate::sched::cfs::{CfsTreeNode, CFS, same_key, sorted_nodes, lemma_loads_sum_nonneg};
use crate::sched::vsched::ScheduleOrder;
use crate::sched::vsched::ScheduleInfo;

verus! {

/// Load weight of a task of nice value zero.
pub const NICE_0_LOAD: usize = 1024;

/// What load balancing reads of one core's scheduler.
#[derive(Clone, Copy, Debug, PartialEq, Eq, Structural)]
pub struct LoadInfo {
    pub hart: usize,
    pub load: usize,
    pub count: usize,
    pub is_running: bool,
}

/// Load of a core: its queued load, plus one task's worth if it runs one.
pub open spec fn core_load(load: usize, is_running: bool) -> int {
    load + if is_running { NICE_0_LOAD as int } else { 0int }
}

/// Whether a core has a task to give away: one waiting while it runs another,
/// or two waiting.
pub open spec fn can_give(count: usize, is_running: bool) -> bool {
    if is_running { count > 0 } else { count > 1 }
}

impl LoadInfo {
    /// The load of the core.
    pub fn calc_load(&self) -> (r: usize)
        requires
            self.load + NICE_0_LOAD <= usize::MAX,
        ensures
            r == core_load(self.load, self.is_running),
    {
        let addition = match self.is_running {
            true => NICE_0_LOAD,
            false => 0,
        };
        self.load + addition
    }

    /// Whether the core has a task to give away.
    pub fn is_valid(&self) -> (r: bool)
        ensures
            r == can_give(self.count, self.is_running),
    {
        match self.is_running {
            true => self.count > 0,
            false => self.count > 1,
        }
    }
}

/// All tasks of a scheduler, ordered queue first.
pub open spec fn all_nodes<R>(c: CFS<R>) -> Seq<CfsTreeNode<R>> {
    c.order@ + c.urgent@
}

/// No two tasks, wherever they wait, share virtual runtime and thread ID.
pub open spec fn pools_distinct<R>(p: Seq<Seq<CfsTreeNode<R>>>) -> bool {
    forall|a: int, i: int, b: int, j: int|
        0 <= a < p.len() && 0 <= b < p.len() && 0 <= i < p[a].len() && 0 <= j < p[b].len() && (a != b || i != j)
        ==> !same_key(#[trigger] p[a][i], #[trigger] p[b][j])
}

/// Whether `n` waits somewhere in `p`.
pub open spec fn in_pools<R>(p: Seq<Seq<CfsTreeNode<R>>>, n: CfsTreeNode<R>) -> bool {
    exists|a: int, i: int| 0 <= a < p.len() && 0 <= i < p[a].len() && p[a][i] == n
}

/// The tasks of two schedulers.
pub open spec fn pair_pools<R>(a: CFS<R>, b: CFS<R>) -> Seq<Seq<CfsTreeNode<R>>> {
    seq![all_nodes(a), all_nodes(b)]
}

/// The tasks of each scheduler.
pub open spec fn pools_of<R>(s: Seq<CFS<R>>) -> Seq<Seq<CfsTreeNode<R>>> {
    Seq::new(s.len(), |h: int| all_nodes(s[h]))
}

spec fn src_hart(lo: int, ol: int, pos: int, k: int, h: int, i: int) -> int {
    if h == lo && i == pos { ol } else { h }
}

spec fn src_index(lo: int, ol: int, pos: int, k: int, h: int, i: int) -> int {
    if h == lo {
        if i < pos { i } else if i == pos { k } else { i - 1 }
    } else if h == ol {
        if i < k { i } else { i + 1 }
    } else {
        i
    }
}

/// Moving one task from one pool to another keeps all tasks distinct.
proof fn lemma_move_distinct<R>(p: Seq<Seq<CfsTreeNode<R>>>, q: Seq<Seq<CfsTreeNode<R>>>, lo: int, ol: int, k: int, pos: int)
    requires
        pools_distinct(p),
        0 <= lo < p.len(),
        0 <= ol < p.len(),
        lo != ol,
        0 <= k < p[ol].len(),
        0 <= pos <= p[lo].len(),
        q.len() == p.len(),
        q[lo] == p[lo].insert(pos, p[ol][k]),
        q[ol] == p[ol].remove(k),
        forall|h: int| 0 <= h < p.len() && h != lo && h != ol ==> q[h] == p[h],
    ensures
        pools_distinct(q),
        forall|a: int, i: int| 0 <= a < q.len() && 0 <= i < q[a].len() ==> in_pools(p, #[trigger] q[a][i]),
{
    assert forall|a: int, i: int| 0 <= a < q.len() && 0 <= i < q[a].len() implies
        #[trigger] q[a][i] == p[src_hart(lo, ol, pos, k, a, i)][src_index(lo, ol, pos, k, a, i)]
        && 0 <= src_index(lo, ol, pos, k, a, i) < p[src_hart(lo, ol, pos, k, a, i)].len() by {
    }
    assert forall|a: int, i: int, b: int, j: int|
        0 <= a < q.len() && 0 <= b < q.len() && 0 <= i < q[a].len() && 0 <= j < q[b].len() && (a != b || i != j)
        implies !same_key(#[trigger] q[a][i], #[trigger] q[b][j]) by {
        let sa = src_hart(lo, ol, pos, k, a, i);
        let si = src_index(lo, ol, pos, k, a, i);
        let sb = src_hart(lo, ol, pos, k, b, j);
        let sj = src_index(lo, ol, pos, k, b, j);
        assert(q[a][i] == p[sa][si]);
        assert(q[b][j] == p[sb][sj]);
        assert(sa != sb || si != sj);
    }
    assert forall|a: int, i: int| 0 <= a < q.len() && 0 <= i < q[a].len() implies in_pools(p, #[trigger] q[a][i]) by {
        let sa = src_hart(lo, ol, pos, k, a, i);
        let si = src_index(lo, ol, pos, k, a, i);
        assert(q[a][i] == p[sa][si]);
    }
}

/// `local` became `l1` and `other` became `o1` by moving the first `n`
/// tasks of `other`, ordered queue first and each queue in its order, into
/// the ordered queue of `local`.
pub open spec fn pulled<R>(l0: CFS<R>, l1: CFS<R>, o0: CFS<R>, o1: CFS<R>, n: int) -> bool {
    &&& 0 <= n <= all_nodes(o0).len()
    &&& all_nodes(o1) == all_nodes(o0).skip(n)
    &&& n <= o0.order@.len() ==> o1.order@ == o0.order@.skip(n) && o1.urgent@ == o0.urgent@
    &&& n > o0.order@.len() ==> o1.order@.len() == 0 && o1.urgent@ == o0.urgent@.skip(n - o0.order@.len())
    &&& l1.urgent@ == l0.urgent@
    &&& l1.order@.len() == l0.order@.len() + n
    &&& forall|x: CfsTreeNode<R>| #[trigger] l1.order@.contains(x)
        <==> (l0.order@.contains(x) || all_nodes(o0).take(n).contains(x))
}

/// A task inserted into a sequence is in it, beside the tasks that were.
proof fn lemma_insert_contains<A>(s: Seq<A>, pos: int, x: A)
    requires
        0 <= pos <= s.len(),
    ensures
        forall|y: A| #[trigger] s.insert(pos, x).contains(y) <==> (s.contains(y) || y == x),
{
    let t = s.insert(pos, x);
    assert forall|y: A| #[trigger] t.contains(y) <==> (s.contains(y) || y == x) by {
        if t.contains(y) {
            let i = choose|i: int| 0 <= i < t.len() && t[i] == y;
            if i < pos {
                assert(s[i] == y);
            } else if i > pos {
                assert(s[i - 1] == y);
            }
        }
        if s.contains(y) {
            let i = choose|i: int| 0 <= i < s.len() && s[i] == y;
            if i < pos {
                assert(t[i] == y);
            } else {
                assert(t[i + 1] == y);
            }
        }
        if y == x {
            assert(t[pos] == y);
        }
    }
}

/// A prefix one longer holds the next item beside those it held.
proof fn lemma_take_one_more<A>(s: Seq<A>, n: int)
    requires
        0 <= n < s.len(),
    ensures
        forall|y: A| #[trigger] s.take(n + 1).contains(y) <==> (s.take(n).contains(y) || y == s[n]),
{
    assert(s.take(n + 1) =~= s.take(n).push(s[n]));
    lemma_insert_contains(s.take(n), n, s[n]);
    assert(s.take(n).insert(n, s[n]) =~= s.take(n).push(s[n]));
}

/// Moves tasks from `other` to `local` while `local` carries clearly less
/// load than `other` and `other` still has a task; returns how many moved.
pub fn migrate<R>(local: &mut CFS<R>, other: &mut CFS<R>) -> (moved: usize)
    requires
        old(local).wf(),
        old(other).wf(),
        old(local).load + old(other).load + NICE_0_LOAD <= usize::MAX,
        old(local).task_count + old(other).task_count <= usize::MAX,
        pools_distinct(pair_pools(*old(local), *old(other))),
    ensures
        final(local).wf(),
        final(other).wf(),
        final(local).load + final(other).load == old(local).load + old(other).load,
        final(local).task_count + final(other).task_count == old(local).task_count + old(other).task_count,
        final(local).task_count == old(local).task_count + moved,
        final(local).urgent@ == old(local).urgent@,
        pools_distinct(pair_pools(*final(local), *final(other))),
        forall|a: int, i: int| 0 <= a < 2 && 0 <= i < pair_pools(*final(local), *final(other))[a].len()
            ==> in_pools(pair_pools(*old(local), *old(other)),
                #[trigger] pair_pools(*final(local), *final(other))[a][i]),
        !(final(local).load + NICE_0_LOAD < core_load(final(other).load, final(other).is_running) && final(other).task_count > 0),
        final(local).last_time == old(local).last_time && final(local).time_limit == old(local).time_limit
            && final(local).is_running == old(local).is_running,
        final(other).last_time == old(other).last_time && final(other).time_limit == old(other).time_limit
            && final(other).is_running == old(other).is_running,
        pulled(*old(local), *final(local), *old(other), *final(other), moved as int),
{
    let ghost orig = pair_pools(*local, *other);
    proof {
        assert(all_nodes(*other).skip(0) =~= all_nodes(*other));
        assert(other.order@.skip(0) =~= other.order@);
        assert forall|x: CfsTreeNode<R>| #[trigger] local.order@.contains(x)
            <==> (local.order@.contains(x) || all_nodes(*other).take(0).contains(x)) by {
            assert(all_nodes(*other).take(0) =~= Seq::<CfsTreeNode<R>>::empty());
        }
    }
    let ghost total_load = local.load + other.load;
    let ghost total_count = local.task_count + other.task_count;
    let addition: usize = match other.is_running() {
        true => NICE_0_LOAD,
        false => 0,
    };
    let mut moved: usize = 0;
    loop
        invariant_except_break
            local.wf(),
            other.wf(),
            local.load + other.load == total_load,
            local.task_count + other.task_count == total_count,
            total_load + NICE_0_LOAD <= usize::MAX,
            total_count <= usize::MAX,
            local.task_count == old(local).task_count + moved,
            local.urgent@ == old(local).urgent@,
            addition == (if other.is_running { NICE_0_LOAD } else { 0 }),
            pools_distinct(pair_pools(*local, *other)),
            forall|a: int, i: int| 0 <= a < 2 && 0 <= i < pair_pools(*local, *other)[a].len()
                ==> in_pools(orig, #[trigger] pair_pools(*local, *other)[a][i]),
            local.last_time == old(local).last_time && local.time_limit == old(local).time_limit
                && local.is_running == old(local).is_running,
            other.last_time == old(other).last_time && other.time_limit == old(other).time_limit
                && other.is_running == old(other).is_running,
            orig == pair_pools(*old(local), *old(other)),
            pulled(*old(local), *local, *old(other), *other, moved as int),
        ensures
            local.wf(),
            other.wf(),
            local.load + other.load == total_load,
            local.task_count + other.task_count == total_count,
            local.task_count == old(local).task_count + moved,
            local.urgent@ == old(local).urgent@,
            pools_distinct(pair_pools(*local, *other)),
            forall|a: int, i: int| 0 <= a < 2 && 0 <= i < pair_pools(*local, *other)[a].len()
                ==> in_pools(orig, #[trigger] pair_pools(*local, *other)[a][i]),
            !(local.load + NICE_0_LOAD < core_load(other.load, other.is_running) && other.task_count > 0),
            local.last_time == old(local).last_time && local.time_limit == old(local).time_limit
                && local.is_running == old(local).is_running,
            other.last_time == old(other).last_time && other.time_limit == old(other).time_limit
                && other.is_running == old(other).is_running,
            pulled(*old(local), *local, *old(other), *other, moved as int),
        decreases other.task_count,
    {
        if !((local.load() as u128) + (NICE_0_LOAD as u128) < (other.load() as u128) + (addition as u128)
            && other.task_count() > 0) {
            break;
        }
        let ghost p = pair_pools(*local, *other);
        let ghost on = other.order@;
        let ghost ou = other.urgent@;
        let ghost lnorm = local.order@;
        let runnable = other.pop(ScheduleOrder::NormalFirst);
        match runnable {
            Some(runnable) => {
                let ghost k: int = if on.len() > 0 { 0 } else { on.len() as int };
                proof {
                    lemma_loads_sum_nonneg(other.order@);
                    lemma_loads_sum_nonneg(other.urgent@);
                    assert(p[1][k] == runnable);
                    if on.len() > 0 {
                        assert(all_nodes(*other) =~= p[1].remove(k));
                    } else {
                        assert(all_nodes(*other) =~= p[1].remove(k));
                    }
                    assert forall|i: int| 0 <= i < local.order@.len() implies !same_key(#[trigger] local.order@[i], runnable) by {
                        assert(p[0][i] == local.order@[i]);
                    }
                }
                let ghost m0 = moved as int;
                local.push_normal(runnable);
                moved = moved + 1;
                proof {
                    let pos = choose|pos: int| 0 <= pos <= lnorm.len() && local.order@ == lnorm.insert(pos, runnable);
                    let a0 = all_nodes(*old(other));
                    let o0 = old(other).order@;
                    let u0 = old(other).urgent@;
                    assert(p[1] == a0.skip(m0));
                    assert(m0 < a0.len());
                    assert(runnable == a0[m0]);
                    assert(all_nodes(*other) =~= a0.skip(m0 + 1));
                    if on.len() > 0 {
                        assert(m0 < o0.len());
                        assert(other.order@ =~= o0.skip(m0 + 1));
                    } else {
                        assert(m0 >= o0.len());
                        if m0 == o0.len() {
                            assert(ou =~= u0.skip(m0 - o0.len()));
                        }
                        assert(other.urgent@ =~= u0.skip(m0 + 1 - o0.len()));
                    }
                    lemma_insert_contains(lnorm, pos, runnable);
                    lemma_take_one_more(a0, m0);
                    assert(pulled(*old(local), *local, *old(other), *other, m0 + 1));
                    assert(all_nodes(*local) =~= p[0].insert(pos, runnable));
                    let q = pair_pools(*local, *other);
                    lemma_move_distinct(p, q, 0, 1, k, pos);
                    assert forall|a: int, i: int| 0 <= a < 2 && 0 <= i < q[a].len() implies in_pools(orig, #[trigger] q[a][i]) by {
                        assert(in_pools(p, q[a][i]));
                        let (b, j) = choose|b: int, j: int| 0 <= b < p.len() && 0 <= j < p[b].len() && p[b][j] == q[a][i];
                        assert(in_pools(orig, p[b][j]));
                    }
                }
            },
            None => {
                break;
            },
        }
    }
    moved
}

/// The schedulers of all cores, one per core.
pub struct NoAxiomRuntime<R> {
    pub scheduler: Vec<CFS<R>>,
}

impl<R> NoAxiomRuntime<R> {
    /// Every scheduler is well formed and no task waits twice.
    pub open spec fn wf(&self) -> bool {
        &&& forall|h: int| 0 <= h < self.scheduler@.len() ==> (#[trigger] self.scheduler@[h]).wf()
        &&& pools_distinct(pools_of(self.scheduler@))
    }

    /// One empty scheduler per core, each balancing load every `time_limit` ticks.
    pub fn new(cpu_num: usize, time_limit: usize) -> (r: NoAxiomRuntime<R>)
        ensures
            r.wf(),
            r.scheduler@.len() == cpu_num,
            forall|h: int| 0 <= h < cpu_num ==> (#[trigger] r.scheduler@[h]).task_count == 0,
    {
        let mut scheduler: Vec<CFS<R>> = Vec::new();
        let mut i: usize = 0;
        while i < cpu_num
            invariant
                i <= cpu_num,
                scheduler@.len() == i,
                forall|h: int| 0 <= h < i ==> (#[trigger] scheduler@[h]).wf() && scheduler@[h].task_count == 0
                    && scheduler@[h].order@.len() == 0 && scheduler@[h].urgent@.len() == 0,
            decreases cpu_num - i,
        {
            scheduler.push(CFS::default(time_limit));
            i = i + 1;
        }
        let r = NoAxiomRuntime { scheduler };
        proof {
            let p = pools_of(r.scheduler@);
            assert forall|h: int| 0 <= h < p.len() implies #[trigger] p[h].len() == 0 by {
                assert(p[h] =~= all_nodes(r.scheduler@[h]));
            }
        }
        r
    }

    /// Queues a task woken on core `hartid`.
    pub fn schedule(&mut self, hartid: usize, runnable: CfsTreeNode<R>, info: ScheduleInfo)
        requires
            old(self).wf(),
            hartid < old(self).scheduler@.len(),
            old(self).scheduler@[hartid as int].load + runnable.load <= usize::MAX,
            old(self).scheduler@[hartid as int].task_count < usize::MAX,
            !in_pools_key(pools_of(old(self).scheduler@), runnable),
        ensures
            final(self).wf(),
            final(self).scheduler@.len() == old(self).scheduler@.len(),
            final(self).scheduler@[hartid as int].task_count == old(self).scheduler@[hartid as int].task_count + 1,
            final(self).scheduler@[hartid as int].load == old(self).scheduler@[hartid as int].load + runnable.load,
            forall|h: int| 0 <= h < old(self).scheduler@.len() && h != hartid ==> #[trigger] final(self).scheduler@[h] == old(self).scheduler@[h],
    {
        let ghost p = pools_of(self.scheduler@);
        let ghost h0 = hartid as int;
        let mut local = CFS::default(0);
        self.scheduler.set_and_swap(hartid, &mut local);
        proof {
            assert(all_nodes(local) == p[h0]);
            assert forall|i: int| 0 <= i < local.order@.len() implies !same_key(#[trigger] local.order@[i], runnable) by {
                assert(p[h0][i] == local.order@[i]);
            }
        }
        let ghost before = local;
        local.push_with_info(runnable, info);
        let ghost pos: int = if info.woken_while_running {
            choose|pos: int| 0 <= pos <= before.order@.len() && local.order@ == before.order@.insert(pos, runnable)
        } else {
            all_nodes(before).len() as int
        };
        proof {
            assert(all_nodes(local) =~= all_nodes(before).insert(pos, runnable));
        }
        self.scheduler.set_and_swap(hartid, &mut local);
        proof {
            let q = pools_of(self.scheduler@);
            assert forall|h: int| 0 <= h < self.scheduler@.len() implies (#[trigger] self.scheduler@[h]).wf() by {
                if h != h0 {
                    assert(self.scheduler@[h] == old(self).scheduler@[h]);
                }
            }
            assert forall|h: int| 0 <= h < p.len() && h != h0 implies #[trigger] q[h] == p[h] by {
                assert(self.scheduler@[h] == old(self).scheduler@[h]);
            }
            assert(q[h0] == p[h0].insert(pos, runnable));
            lemma_insert_distinct(p, q, h0, pos, runnable);
        }
    }

    /// Picks the next task of core `hartid`, urgent tasks first, and records
    /// whether the core now runs a task.
    pub fn pick_next(&mut self, hartid: usize) -> (r: Option<CfsTreeNode<R>>)
        requires
            old(self).wf(),
            hartid < old(self).scheduler@.len(),
        ensures
            final(self).wf(),
            final(self).scheduler@.len() == old(self).scheduler@.len(),
            forall|h: int| 0 <= h < old(self).scheduler@.len() && h != hartid ==> #[trigger] final(self).scheduler@[h] == old(self).scheduler@[h],
            final(self).scheduler@[hartid as int].is_running == r.is_some(),
            old(self).scheduler@[hartid as int].urgent@.len() > 0 ==> r == Some(old(self).scheduler@[hartid as int].urgent@[0]),
            old(self).scheduler@[hartid as int].urgent@.len() == 0 && old(self).scheduler@[hartid as int].order@.len() > 0
                ==> r == Some(old(self).scheduler@[hartid as int].order@[0]),
            old(self).scheduler@[hartid as int].task_count == 0 ==> r.is_none(),
    {
        let ghost p = pools_of(self.scheduler@);
        let ghost h0 = hartid as int;
        let mut local = CFS::default(0);
        self.scheduler.set_and_swap(hartid, &mut local);
        let ghost before = local;
        local.set_running(false);
        let res = local.pop(ScheduleOrder::UrgentFirst);
        if res.is_some() {
            local.set_running(true);
        }
        let ghost k: int = if before.urgent@.len() > 0 { before.order@.len() as int } else { 0 };
        proof {
            if res.is_some() {
                assert(all_nodes(local) =~= all_nodes(before).remove(k));
            } else {
                assert(all_nodes(local) =~= all_nodes(before));
            }
        }
        self.scheduler.set_and_swap(hartid, &mut local);
        proof {
            let q = pools_of(self.scheduler@);
            assert forall|h: int| 0 <= h < self.scheduler@.len() implies (#[trigger] self.scheduler@[h]).wf() by {
                if h != h0 {
                    assert(self.scheduler@[h] == old(self).scheduler@[h]);
                }
            }
            assert forall|h: int| 0 <= h < p.len() && h != h0 implies #[trigger] q[h] == p[h] by {
                assert(self.scheduler@[h] == old(self).scheduler@[h]);
            }
            if res.is_some() {
                assert(q[h0] == p[h0].remove(k));
                lemma_remove_distinct(p, q, h0, k);
            } else {
                assert(q =~= p);
            }
        }
        res
    }
}

/// Whether `m` is the core of greatest load, the last one among equals.
pub open spec fn is_busiest<R>(s: Seq<CFS<R>>, m: int) -> bool {
    &&& 0 <= m < s.len()
    &&& forall|h: int| 0 <= h < s.len() ==> core_load((#[trigger] s[h]).load, s[h].is_running) <= core_load(s[m].load, s[m].is_running)
    &&& forall|h: int| m < h < s.len() ==> core_load((#[trigger] s[h]).load, s[h].is_running) < core_load(s[m].load, s[m].is_running)
}

impl<R> NoAxiomRuntime<R> {
    /// Pulls tasks to core `hartid` from the core of greatest load, while that
    /// core carries clearly more load and has a task to give. Returns whether
    /// a balance was attempted: not when `hartid` is itself the busiest core or
    /// the busiest core has no task to give.
    pub fn load_balance(&mut self, hartid: usize) -> (r: bool)
        requires
            old(self).wf(),
            hartid < old(self).scheduler@.len(),
            forall|h1: int, h2: int| 0 <= h1 < old(self).scheduler@.len() && 0 <= h2 < old(self).scheduler@.len() && h1 != h2
                ==> (#[trigger] old(self).scheduler@[h1]).load + (#[trigger] old(self).scheduler@[h2]).load + NICE_0_LOAD <= usize::MAX
                && old(self).scheduler@[h1].task_count + old(self).scheduler@[h2].task_count <= usize::MAX,
            forall|h: int| 0 <= h < old(self).scheduler@.len() ==> (#[trigger] old(self).scheduler@[h]).load + NICE_0_LOAD <= usize::MAX,
        ensures
            final(self).wf(),
            final(self).scheduler@.len() == old(self).scheduler@.len(),
            !r ==> final(self).scheduler@ == old(self).scheduler@,
            !r ==> exists|m: int| is_busiest(old(self).scheduler@, m)
                && (m == hartid || !can_give(old(self).scheduler@[m].task_count, old(self).scheduler@[m].is_running)),
            r ==> exists|m: int| {
                &&& is_busiest(old(self).scheduler@, m)
                &&& m != hartid
                &&& can_give(old(self).scheduler@[m].task_count, old(self).scheduler@[m].is_running)
                &&& forall|h: int| 0 <= h < old(self).scheduler@.len() && h != hartid && h != m
                    ==> #[trigger] final(self).scheduler@[h] == old(self).scheduler@[h]
                &&& final(self).scheduler@[hartid as int].load + final(self).scheduler@[m].load
                    == old(self).scheduler@[hartid as int].load + old(self).scheduler@[m].load
                &&& final(self).scheduler@[hartid as int].task_count + final(self).scheduler@[m].task_count
                    == old(self).scheduler@[hartid as int].task_count + old(self).scheduler@[m].task_count
                &&& final(self).scheduler@[hartid as int].task_count >= old(self).scheduler@[hartid as int].task_count
                &&& !(final(self).scheduler@[hartid as int].load + NICE_0_LOAD
                    < core_load(final(self).scheduler@[m].load, final(self).scheduler@[m].is_running)
                    && final(self).scheduler@[m].task_count > 0)
                &&& exists|n: int| pulled(old(self).scheduler@[hartid as int], #[trigger] final(self).scheduler@[hartid as int],
                    old(self).scheduler@[m], final(self).scheduler@[m], n)
            },
    {
        let n = self.scheduler.len();
        let mut load_info: Vec<LoadInfo> = Vec::new();
        let mut i: usize = 0;
        while i < n
            invariant
                i <= n,
                n == self.scheduler@.len(),
                load_info@.len() == i,
                forall|h: int| 0 <= h < i ==> (#[trigger] load_info@[h]) == (LoadInfo {
                    hart: h as usize,
                    load: self.scheduler@[h].load,
                    count: self.scheduler@[h].task_count,
                    is_running: self.scheduler@[h].is_running,
                }),
            decreases n - i,
        {
            let other = &self.scheduler[i];
            load_info.push(LoadInfo {
                hart: i,
                load: other.load(),
                count: other.task_count(),
                is_running: other.is_running(),
            });
            i = i + 1;
        }
        let mut best: usize = 0;
        let mut j: usize = 1;
        while j < n
            invariant
                1 <= j <= n,
                best < j,
                n == self.scheduler@.len(),
                load_info@.len() == n,
                forall|h: int| 0 <= h < n ==> (#[trigger] load_info@[h]) == (LoadInfo {
                    hart: h as usize,
                    load: self.scheduler@[h].load,
                    count: self.scheduler@[h].task_count,
                    is_running: self.scheduler@[h].is_running,
                }),
                forall|h: int| 0 <= h < self.scheduler@.len() ==> (#[trigger] self.scheduler@[h]).load + NICE_0_LOAD <= usize::MAX,
                forall|h: int| 0 <= h < j ==> core_load((#[trigger] self.scheduler@[h]).load, self.scheduler@[h].is_running)
                    <= core_load(self.scheduler@[best as int].load, self.scheduler@[best as int].is_running),
                forall|h: int| best < h < j ==> core_load((#[trigger] self.scheduler@[h]).load, self.scheduler@[h].is_running)
                    < core_load(self.scheduler@[best as int].load, self.scheduler@[best as int].is_running),
            decreases n - j,
        {
            assert(load_info@[j as int].load == self.scheduler@[j as int].load);
            assert(load_info@[best as int].load == self.scheduler@[best as int].load);
            if load_info[j].calc_load() >= load_info[best].calc_load() {
                best = j;
            }
            j = j + 1;
        }
        let max_info = load_info[best];
        assert(is_busiest(self.scheduler@, best as int));
        if max_info.hart == hartid || !max_info.is_valid() {
            return false;
        }
        let ghost p = pools_of(self.scheduler@);
        let ghost hl = hartid as int;
        let ghost ho = best as int;
        let mut local = CFS::default(0);
        self.scheduler.set_and_swap(hartid, &mut local);
        let mut other = CFS::default(0);
        self.scheduler.set_and_swap(best, &mut other);
        let ghost l0 = local;
        let ghost o0 = other;
        proof {
            assert(all_nodes(l0) == p[hl]);
            assert(all_nodes(o0) == p[ho]);
            let pp = pair_pools(l0, o0);
            assert forall|a: int, i: int, b: int, j: int|
                0 <= a < pp.len() && 0 <= b < pp.len() && 0 <= i < pp[a].len() && 0 <= j < pp[b].len() && (a != b || i != j)
                implies !same_key(#[trigger] pp[a][i], #[trigger] pp[b][j]) by {
                let ha = if a == 0 { hl } else { ho };
                let hb = if b == 0 { hl } else { ho };
                assert(pp[a][i] == p[ha][i]);
                assert(pp[b][j] == p[hb][j]);
            }
        }
        let _moved = migrate(&mut local, &mut other);
        let ghost l1 = local;
        let ghost o1 = other;
        self.scheduler.set_and_swap(hartid, &mut local);
        self.scheduler.set_and_swap(best, &mut other);
        proof {
            let q = pools_of(self.scheduler@);
            assert(self.scheduler@[hl] == l1);
            assert(self.scheduler@[ho] == o1);
            assert forall|h: int| 0 <= h < self.scheduler@.len() && h != hl && h != ho
                implies #[trigger] self.scheduler@[h] == old(self).scheduler@[h] by {
            }
            assert forall|h: int| 0 <= h < self.scheduler@.len() implies (#[trigger] self.scheduler@[h]).wf() by {
                if h != hl && h != ho {
                    assert(self.scheduler@[h] == old(self).scheduler@[h]);
                }
            }
            let pp = pair_pools(l0, o0);
            let qq = pair_pools(l1, o1);
            assert(q[hl] == qq[0]);
            assert(q[ho] == qq[1]);
            assert forall|a: int, i: int, b: int, j: int|
                0 <= a < q.len() && 0 <= b < q.len() && 0 <= i < q[a].len() && 0 <= j < q[b].len() && (a != b || i != j)
                implies !same_key(#[trigger] q[a][i], #[trigger] q[b][j]) by {
                let a_in = a == hl || a == ho;
                let b_in = b == hl || b == ho;
                let ai: int = if a == hl { 0 } else { 1 };
                let bi: int = if b == hl { 0 } else { 1 };
                if a_in && b_in {
                    assert(q[a][i] == qq[ai][i]);
                    assert(q[b][j] == qq[bi][j]);
                } else if a_in {
                    assert(q[a][i] == qq[ai][i]);
                    assert(in_pools(pp, qq[ai][i]));
                    let (c, k) = choose|c: int, k: int| 0 <= c < pp.len() && 0 <= k < pp[c].len() && pp[c][k] == qq[ai][i];
                    let hc = if c == 0 { hl } else { ho };
                    assert(pp[c][k] == p[hc][k]);
                    assert(q[b] == p[b]);
                    assert(q[b][j] == p[b][j]);
                } else if b_in {
                    assert(q[b][j] == qq[bi][j]);
                    assert(in_pools(pp, qq[bi][j]));
                    let (c, k) = choose|c: int, k: int| 0 <= c < pp.len() && 0 <= k < pp[c].len() && pp[c][k] == qq[bi][j];
                    let hc = if c == 0 { hl } else { ho };
                    assert(pp[c][k] == p[hc][k]);
                    assert(q[a] == p[a]);
                    assert(q[a][i] == p[a][i]);
                } else {
                    assert(q[a] == p[a]);
                    assert(q[b] == p[b]);
                }
            }
        }
        true
    }
}

/// Whether a task with the place of `n` waits somewhere in `p`.
pub open spec fn in_pools_key<R>(p: Seq<Seq<CfsTreeNode<R>>>, n: CfsTreeNode<R>) -> bool {
    exists|a: int, i: int| 0 <= a < p.len() && 0 <= i < p[a].len() && same_key(#[trigger] p[a][i], n)
}

/// Adding a task whose place is free keeps all tasks distinct.
proof fn lemma_insert_distinct<R>(p: Seq<Seq<CfsTreeNode<R>>>, q: Seq<Seq<CfsTreeNode<R>>>, h0: int, pos: int, x: CfsTreeNode<R>)
    requires
        pools_distinct(p),
        !in_pools_key(p, x),
        0 <= h0 < p.len(),
        0 <= pos <= p[h0].len(),
        q.len() == p.len(),
        q[h0] == p[h0].insert(pos, x),
        forall|h: int| 0 <= h < p.len() && h != h0 ==> #[trigger] q[h] == p[h],
    ensures
        pools_distinct(q),
{
    assert forall|a: int, i: int, b: int, j: int|
        0 <= a < q.len() && 0 <= b < q.len() && 0 <= i < q[a].len() && 0 <= j < q[b].len() && (a != b || i != j)
        implies !same_key(#[trigger] q[a][i], #[trigger] q[b][j]) by {
        let ia = if a == h0 && i > pos { i - 1 } else { i };
        let jb = if b == h0 && j > pos { j - 1 } else { j };
        let a_new = a == h0 && i == pos;
        let b_new = b == h0 && j == pos;
        if a_new && b_new {
        } else if a_new {
            assert(q[b][j] == p[b][jb]);
            if same_key(q[a][i], q[b][j]) {
                assert(same_key(p[b][jb], x));
            }
        } else if b_new {
            assert(q[a][i] == p[a][ia]);
            if same_key(q[a][i], q[b][j]) {
                assert(same_key(p[a][ia], x));
            }
        } else {
            assert(q[a][i] == p[a][ia]);
            assert(q[b][j] == p[b][jb]);
        }
    }
}

/// Taking a task out keeps all tasks distinct.
proof fn lemma_remove_distinct<R>(p: Seq<Seq<CfsTreeNode<R>>>, q: Seq<Seq<CfsTreeNode<R>>>, h0: int, k: int)
    requires
        pools_distinct(p),
        0 <= h0 < p.len(),
        0 <= k < p[h0].len(),
        q.len() == p.len(),
        q[h0] == p[h0].remove(k),
        forall|h: int| 0 <= h < p.len() && h != h0 ==> #[trigger] q[h] == p[h],
    ensures
        pools_distinct(q),
{
    assert forall|a: int, i: int, b: int, j: int|
        0 <= a < q.len() && 0 <= b < q.len() && 0 <= i < q[a].len() && 0 <= j < q[b].len() && (a != b || i != j)
        implies !same_key(#[trigger] q[a][i], #[trigger] q[b][j]) by {
        let ia = if a == h0 && i >= k { i + 1 } else { i };
        let jb = if b == h0 && j >= k { j + 1 } else { j };
        assert(q[a][i] == p[a][ia]);
        assert(q[b][j] == p[b][jb]);
    }
}

/// Number of tasks queued on all cores.
pub open spec fn total_tasks<R>(s: Seq<CFS<R>>) -> int
    decreases s.len(),
{
    if s.len() == 0 {
        0
    } else {
        total_tasks(s.drop_last()) + s.last().task_count
    }
}

/// Load queued on all cores.
pub open spec fn total_load<R>(s: Seq<CFS<R>>) -> int
    decreases s.len(),
{
    if s.len() == 0 {
        0
    } else {
        total_load(s.drop_last()) + s.last().load
    }
}

proof fn lemma_totals_two_changed<R>(a: Seq<CFS<R>>, b: Seq<CFS<R>>, x: int, y: int)
    requires
        a.len() == b.len(),
        0 <= x < a.len(),
        0 <= y < a.len(),
        x != y,
        forall|h: int| 0 <= h < a.len() && h != x && h != y ==> #[trigger] b[h] == a[h],
    ensures
        total_tasks(b) - total_tasks(a) == (b[x].task_count + b[y].task_count) - (a[x].task_count + a[y].task_count),
        total_load(b) - total_load(a) == (b[x].load + b[y].load) - (a[x].load + a[y].load),
    decreases a.len(),
{
    let n = a.len() - 1;
    let a0 = a.drop_last();
    let b0 = b.drop_last();
    assert forall|h: int| 0 <= h < a0.len() && h != x && h != y implies #[trigger] b0[h] == a0[h] by {
        assert(b[h] == a[h]);
    }
    if x == n {
        lemma_totals_one_changed(a0, b0, y);
    } else if y == n {
        lemma_totals_one_changed(a0, b0, x);
    } else {
        assert(b[n] == a[n]);
        lemma_totals_two_changed(a0, b0, x, y);
    }
}

proof fn lemma_totals_one_changed<R>(a: Seq<CFS<R>>, b: Seq<CFS<R>>, x: int)
    requires
        a.len() == b.len(),
        0 <= x < a.len(),
        forall|h: int| 0 <= h < a.len() && h != x ==> #[trigger] b[h] == a[h],
    ensures
        total_tasks(b) - total_tasks(a) == b[x].task_count - a[x].task_count,
        total_load(b) - total_load(a) == b[x].load - a[x].load,
    decreases a.len(),
{
    let n = a.len() - 1;
    let a0 = a.drop_last();
    let b0 = b.drop_last();
    assert forall|h: int| 0 <= h < a0.len() && h != x implies #[trigger] b0[h] == a0[h] by {
        assert(b[h] == a[h]);
    }
    if x == n {
        assert(a0 =~= b0) by {
            assert forall|h: int| 0 <= h < a0.len() implies a0[h] == b0[h] by {
                assert(b[h] == a[h]);
            }
        }
    } else {
        assert(b[n] == a[n]);
        lemma_totals_one_changed(a0, b0, x);
    }
}

/// Load balancing moves tasks between two cores and leaves the others as they
/// are: the number of tasks and the load queued on all cores together stay
/// the same.
pub proof fn law_balance_keeps_totals<R>(before: Seq<CFS<R>>, after: Seq<CFS<R>>, hart: int, m: int)
    requires
        after.len() == before.len(),
        0 <= hart < before.len(),
        0 <= m < before.len(),
        hart != m,
        forall|h: int| 0 <= h < before.len() && h != hart && h != m ==> #[trigger] after[h] == before[h],
        after[hart].load + after[m].load == before[hart].load + before[m].load,
        after[hart].task_count + after[m].task_count == before[hart].task_count + before[m].task_count,
    ensures
        total_tasks(after) == total_tasks(before),
        total_load(after) == total_load(before),
{
    lemma_totals_two_changed(before, after, hart, m);
}

} // verus!
