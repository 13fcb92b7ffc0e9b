//! Completely fair scheduler for one core: tasks wait ordered by virtual
//! runtime; newly woken tasks wait in an urgent queue.
use vstd::prelude::*;
use std::cmp::Ordering;
use std::collections::{BTreeMap, VecDeque};
use vstd::std_specs::iter::IteratorSpec;
use vstd::std_specs::cmp::OrdSpec;
use vstd::std_specs::btree::{increasing_seq, spec_keys_iter};
use vstd::laws_cmp::obeys_cmp;
use crate::sched::vsched::{ScheduleInfo, ScheduleOrder};

verus! {

broadcast use vstd::laws_cmp::group_laws_cmp;

/// A task in a fair scheduler, with what the scheduler reads of it.
#[derive(Debug)]
pub struct CfsTreeNode<R> {
    /// Virtual runtime of the task.
    pub vruntime: usize,
    /// Thread ID of the task.
    pub tid: usize,
    /// Load weight of the task.
    pub load: usize,
    /// The task.
    pub runnable: R,
}

/// Tasks are ordered by virtual runtime, then by thread ID.
pub open spec fn node_lt<R>(a: CfsTreeNode<R>, b: CfsTreeNode<R>) -> bool {
    a.vruntime < b.vruntime || (a.vruntime == b.vruntime && a.tid < b.tid)
}

/// Whether two tasks have the same place in the order.
pub open spec fn same_key<R>(a: CfsTreeNode<R>, b: CfsTreeNode<R>) -> bool {
    a.vruntime == b.vruntime && a.tid == b.tid
}

/// Strictly increasing order.
pub open spec fn sorted_nodes<R>(s: Seq<CfsTreeNode<R>>) -> bool {
    forall|i: int, j: int| 0 <= i < j < s.len() ==> node_lt(#[trigger] s[i], #[trigger] s[j])
}

/// Sum of the load weights of the tasks of `s`.
pub open spec fn loads_sum<R>(s: Seq<CfsTreeNode<R>>) -> int
    decreases s.len(),
{
    if s.len() == 0 {
        0
    } else {
        loads_sum(s.drop_last()) + s.last().load
    }
}

impl<R> CfsTreeNode<R> {
    /// Whether two nodes stand for the same task, by thread ID.
    pub fn eq(&self, other: &Self) -> (r: bool)
        ensures
            r == (self.tid == other.tid),
    {
        self.tid == other.tid
    }

    /// The order of the tree: by virtual runtime, then by thread ID.
    pub fn cmp(&self, other: &Self) -> (r: Ordering)
        ensures
            (r == Ordering::Less) == node_lt(*self, *other),
            (r == Ordering::Equal) == same_key(*self, *other),
            (r == Ordering::Greater) == node_lt(*other, *self),
    {
        if self.vruntime < other.vruntime {
            Ordering::Less
        } else if self.vruntime > other.vruntime {
            Ordering::Greater
        } else if self.tid < other.tid {
            Ordering::Less
        } else if self.tid > other.tid {
            Ordering::Greater
        } else {
            Ordering::Equal
        }
    }

    /// The order of the tree, which is total.
    pub fn partial_cmp(&self, other: &Self) -> (r: Option<Ordering>)
        ensures
            r is Some,
            (r == Some(Ordering::Less)) == node_lt(*self, *other),
            (r == Some(Ordering::Equal)) == same_key(*self, *other),
            (r == Some(Ordering::Greater)) == node_lt(*other, *self),
    {
        Some(self.cmp(other))
    }
}

pub proof fn lemma_loads_sum_nonneg<R>(s: Seq<CfsTreeNode<R>>)
    ensures
        loads_sum(s) >= 0,
    decreases s.len(),
{
    if s.len() > 0 {
        lemma_loads_sum_nonneg(s.drop_last());
    }
}

pub proof fn lemma_loads_sum_push<R>(s: Seq<CfsTreeNode<R>>, x: CfsTreeNode<R>)
    ensures
        loads_sum(s.push(x)) == loads_sum(s) + x.load,
{
    assert(s.push(x).drop_last() =~= s);
}

pub proof fn lemma_loads_sum_insert<R>(s: Seq<CfsTreeNode<R>>, i: int, x: CfsTreeNode<R>)
    requires
        0 <= i <= s.len(),
    ensures
        loads_sum(s.insert(i, x)) == loads_sum(s) + x.load,
    decreases s.len(),
{
    if i == s.len() {
        assert(s.insert(i, x) =~= s.push(x));
        lemma_loads_sum_push(s, x);
    } else {
        lemma_loads_sum_insert(s.drop_last(), i, x);
        assert(s.insert(i, x).drop_last() =~= s.drop_last().insert(i, x));
        assert(s.insert(i, x).last() == s.last());
    }
}

pub proof fn lemma_loads_sum_remove<R>(s: Seq<CfsTreeNode<R>>, i: int)
    requires
        0 <= i < s.len(),
    ensures
        loads_sum(s.remove(i)) == loads_sum(s) - s[i].load,
    decreases s.len(),
{
    if i == s.len() - 1 {
        assert(s.remove(i) =~= s.drop_last());
    } else {
        lemma_loads_sum_remove(s.drop_last(), i);
        assert(s.remove(i).drop_last() =~= s.drop_last().remove(i));
        assert(s.remove(i).last() == s.last());
    }
}

/// Places in the tree, ordered by virtual runtime, then thread ID.
pub open spec fn key_lt(a: (usize, usize), b: (usize, usize)) -> bool {
    a.0 < b.0 || (a.0 == b.0 && a.1 < b.1)
}

/// The place of a task in the tree.
pub open spec fn key_of<R>(n: CfsTreeNode<R>) -> (usize, usize) {
    (n.vruntime, n.tid)
}

/// Tree `m` holds each task of `s` under its place, and nothing else.
pub open spec fn tree_holds<R>(m: Map<(usize, usize), CfsTreeNode<R>>, s: Seq<CfsTreeNode<R>>) -> bool {
    &&& forall|i: int| 0 <= i < s.len() ==> m.contains_key(key_of(#[trigger] s[i])) && m[key_of(s[i])] == s[i]
    &&& forall|k: (usize, usize)| #[trigger] m.contains_key(k) ==> exists|i: int| 0 <= i < s.len() && key_of(#[trigger] s[i]) == k
}

/// Where `x` goes in the ordered `s`: after every task before it, before
/// every task after it.
pub proof fn lemma_insert_pos<R>(s: Seq<CfsTreeNode<R>>, x: CfsTreeNode<R>) -> (pos: int)
    requires
        sorted_nodes(s),
        forall|i: int| 0 <= i < s.len() ==> !same_key(#[trigger] s[i], x),
    ensures
        0 <= pos <= s.len(),
        forall|j: int| 0 <= j < pos ==> node_lt(#[trigger] s[j], x),
        forall|j: int| pos <= j < s.len() ==> node_lt(x, #[trigger] s[j]),
    decreases s.len(),
{
    if s.len() == 0 {
        0
    } else {
        let t = s.drop_last();
        assert forall|i: int| 0 <= i < t.len() implies !same_key(#[trigger] t[i], x) by {
            assert(t[i] == s[i]);
        }
        let p = lemma_insert_pos(t, x);
        let last = s.len() - 1;
        if node_lt(s[last], x) {
            assert forall|j: int| 0 <= j < s.len() implies node_lt(#[trigger] s[j], x) by {
                if j < last {
                    assert(node_lt(s[j], s[last]));
                }
            }
            s.len() as int
        } else {
            assert(!same_key(s[last], x));
            assert forall|j: int| 0 <= j < p implies node_lt(#[trigger] s[j], x) by {
                assert(t[j] == s[j]);
            }
            assert forall|j: int| p <= j < s.len() implies node_lt(x, #[trigger] s[j]) by {
                if j < last {
                    assert(t[j] == s[j]);
                }
            }
            p
        }
    }
}

/// Item `i` of `s` comes before item `j` in the order of its type.
pub open spec fn before_in<K: Ord>(s: Seq<K>, i: int, j: int) -> bool {
    s[i].cmp_spec(&s[j]) is Less
}

/// The least key of `m`, if it has any.
fn first_key<V>(m: &BTreeMap<(usize, usize), V>) -> (r: Option<(usize, usize)>)
    ensures
        r is None ==> m@.dom() =~= Set::empty(),
        r matches Some(k) ==> m@.dom().contains(k) && forall|k2: (usize, usize)| #[trigger] m@.dom().contains(k2) && k2 != k ==> key_lt(k, k2),
{
    let mut r: Option<(usize, usize)> = None;
    for k in it: m.keys()
        invariant_except_break
            r is None,
            it.index() == 0,
        invariant
            it.seq() == spec_keys_iter(m).remaining(),
        ensures
            r is None ==> spec_keys_iter(m).remaining().len() == 0,
            r matches Some(x) ==> spec_keys_iter(m).remaining().len() > 0 && x == *spec_keys_iter(m).remaining()[0],
    {
        r = Some(*k);
        break;
    }
    proof {
        let rem = spec_keys_iter(m).remaining();
        assert(obeys_cmp::<usize>());
        assert(obeys_cmp::<(usize, usize)>());
        assert(obeys_cmp::<&(usize, usize)>());
        assert(increasing_seq(rem));
        match r {
            Some(x) => {
                assert forall|k2: (usize, usize)| #[trigger] m@.dom().contains(k2) && k2 != x implies key_lt(x, k2) by {
                    assert(rem.unref().to_set().contains(k2));
                    let j = choose|j: int| 0 <= j < rem.unref().len() && rem.unref()[j] == k2;
                    assert(j != 0);
                    assert(0 < j < rem.len());
                    assert(*rem[j] == k2);
                    assert(before_in(rem, 0, j));
                }
                assert(rem.unref().to_set().contains(x)) by {
                    assert(rem.unref()[0] == x);
                }
            },
            None => {
                assert(rem.unref().to_set() =~= Set::empty());
            },
        }
    }
    r
}

/// Completely fair scheduler of one core.
pub struct CFS<R> {
    /// Tasks by virtual runtime, then thread ID.
    pub normal: BTreeMap<(usize, usize), CfsTreeNode<R>>,
    /// The tasks of `normal`, in its order.
    pub order: Ghost<Seq<CfsTreeNode<R>>>,
    /// Real-time and just-woken tasks, first in first out.
    pub urgent: VecDeque<CfsTreeNode<R>>,
    /// Sum of the load weights of the queued tasks.
    pub load: usize,
    /// Number of queued tasks.
    pub task_count: usize,
    /// Time of the last load balance, in ticks.
    pub last_time: usize,
    /// Time between load balances, in ticks.
    pub time_limit: usize,
    /// Whether the core is running a task.
    pub is_running: bool,
}

impl<R> CFS<R> {
    /// The tree holds, each under its place, exactly the tasks of `order`,
    /// which is ordered; load and count agree with the queues.
    pub open spec fn wf(&self) -> bool {
        &&& sorted_nodes(self.order@)
        &&& tree_holds(self.normal@, self.order@)
        &&& self.load == loads_sum(self.order@) + loads_sum(self.urgent@)
        &&& self.task_count == self.order@.len() + self.urgent@.len()
    }

    /// Whether a task with the place of `node` waits in the normal queue.
    pub open spec fn has_key(&self, node: CfsTreeNode<R>) -> bool {
        exists|i: int| 0 <= i < self.order@.len() && same_key(#[trigger] self.order@[i], node)
    }

    /// An empty scheduler that balances load every `time_limit` ticks.
    pub fn default(time_limit: usize) -> (r: CFS<R>)
        ensures
            r.wf(),
            r.order@.len() == 0,
            r.urgent@.len() == 0,
            r.load == 0,
            r.task_count == 0,
            r.last_time == 0,
            r.time_limit == time_limit,
            !r.is_running,
    {
        let r = CFS {
            normal: BTreeMap::new(),
            order: Ghost(Seq::empty()),
            urgent: VecDeque::new(),
            load: 0,
            task_count: 0,
            last_time: 0,
            time_limit,
            is_running: false,
        };
        r
    }

    /// Takes load `load` and one task off the core's account.
    pub fn sub_load(&mut self, load: usize)
        requires
            old(self).load >= load,
            old(self).task_count >= 1,
        ensures
            final(self).load == old(self).load - load,
            final(self).task_count == old(self).task_count - 1,
            final(self).normal == old(self).normal,
            final(self).order == old(self).order,
            final(self).urgent == old(self).urgent,
            final(self).last_time == old(self).last_time,
            final(self).time_limit == old(self).time_limit,
            final(self).is_running == old(self).is_running,
    {
        self.load = self.load - load;
        self.task_count = self.task_count - 1;
    }

    /// Puts load `load` and one task on the core's account.
    pub fn add_load(&mut self, load: usize)
        requires
            old(self).load + load <= usize::MAX,
            old(self).task_count < usize::MAX,
        ensures
            final(self).load == old(self).load + load,
            final(self).task_count == old(self).task_count + 1,
            final(self).normal == old(self).normal,
            final(self).order == old(self).order,
            final(self).urgent == old(self).urgent,
            final(self).last_time == old(self).last_time,
            final(self).time_limit == old(self).time_limit,
            final(self).is_running == old(self).is_running,
    {
        self.load = self.load + load;
        self.task_count = self.task_count + 1;
    }

    /// Sum of the load weights of the queued tasks.
    pub fn load(&self) -> (r: usize)
        ensures
            r == self.load,
    {
        self.load
    }

    /// Number of queued tasks.
    pub fn task_count(&self) -> (r: usize)
        ensures
            r == self.task_count,
    {
        self.task_count
    }

    /// Time of the last load balance.
    pub fn last_time(&self) -> (r: usize)
        ensures
            r == self.last_time,
    {
        self.last_time
    }

    /// Whether, at time `now`, more than the time limit has passed since the last load balance.
    pub fn is_timeup(&self, now: usize) -> (r: bool)
        requires
            now <= isize::MAX,
            self.last_time <= isize::MAX,
            self.time_limit <= isize::MAX,
        ensures
            r == (now - self.last_time > self.time_limit),
    {
        (now as i128) - (self.last_time as i128) > (self.time_limit as i128)
    }

    /// Records a load balance at time `now`, with time limit `limit` until the next.
    pub fn set_last_time(&mut self, now: usize, limit: usize)
        ensures
            *final(self) == (CFS { last_time: now, time_limit: limit, ..*old(self) }),
    {
        self.time_limit = limit;
        self.last_time = now;
    }

    /// Sets the time between load balances.
    pub fn set_time_limit(&mut self, limit: usize)
        ensures
            *final(self) == (CFS { time_limit: limit, ..*old(self) }),
    {
        self.time_limit = limit;
    }

    /// Whether the core runs a task.
    pub fn is_running(&self) -> (r: bool)
        ensures
            r == self.is_running,
    {
        self.is_running
    }

    /// Records whether the core runs a task.
    pub fn set_running(&mut self, is_running: bool)
        ensures
            *final(self) == (CFS { is_running, ..*old(self) }),
    {
        self.is_running = is_running;
    }

    /// Queues a task that was woken: one that yielded goes to the ordered
    /// queue, others to the urgent queue.
    pub fn push_with_info(&mut self, runnable: CfsTreeNode<R>, info: ScheduleInfo)
        requires
            old(self).wf(),
            old(self).load + runnable.load <= usize::MAX,
            old(self).task_count < usize::MAX,
            info.woken_while_running ==> !old(self).has_key(runnable),
        ensures
            final(self).wf(),
            final(self).load == old(self).load + runnable.load,
            info.woken_while_running ==> final(self).urgent@ == old(self).urgent@ && exists|pos: int|
                0 <= pos <= old(self).order@.len() && final(self).order@ == old(self).order@.insert(pos, runnable),
            !info.woken_while_running ==> final(self).order@ == old(self).order@
                && final(self).urgent@ == old(self).urgent@.push(runnable),
    {
        if info.woken_while_running {
            self.push_normal(runnable);
        } else {
            self.push_urgent(runnable);
        }
    }

    /// Puts a task in the ordered queue, at its place by virtual runtime and thread ID.
    pub fn push_normal(&mut self, runnable: CfsTreeNode<R>)
        requires
            old(self).wf(),
            old(self).load + runnable.load <= usize::MAX,
            old(self).task_count < usize::MAX,
            !old(self).has_key(runnable),
        ensures
            final(self).wf(),
            final(self).load == old(self).load + runnable.load,
            final(self).task_count == old(self).task_count + 1,
            final(self).urgent@ == old(self).urgent@,
            final(self).last_time == old(self).last_time,
            final(self).time_limit == old(self).time_limit,
            final(self).is_running == old(self).is_running,
            exists|pos: int| 0 <= pos <= old(self).order@.len() && final(self).order@ == old(self).order@.insert(pos, runnable),
    {
        self.add_load(runnable.load);
        let ghost s = self.order@;
        let ghost m = self.normal@;
        let ghost rn = runnable;
        let ghost mut pos: int = 0;
        proof {
            assert forall|i: int| 0 <= i < s.len() implies !same_key(#[trigger] s[i], rn) by {
                if same_key(s[i], rn) {
                    assert(old(self).has_key(rn));
                }
            }
            pos = lemma_insert_pos(s, rn);
            lemma_loads_sum_insert(s, pos, rn);
        }
        let key = (runnable.vruntime, runnable.tid);
        self.normal.insert(key, runnable);
        self.order = Ghost(s.insert(pos, rn));
        proof {
            let t = self.order@;
            let m2 = self.normal@;
            assert(m2 == m.insert(key_of(rn), rn));
            assert forall|a: int, b: int| 0 <= a < b < t.len() implies node_lt(#[trigger] t[a], #[trigger] t[b]) by {
                if b < pos {
                    assert(t[a] == s[a] && t[b] == s[b]);
                } else if b == pos {
                    assert(t[a] == s[a]);
                } else if a < pos {
                    assert(t[a] == s[a] && t[b] == s[b - 1]);
                } else if a == pos {
                    assert(t[b] == s[b - 1]);
                } else {
                    assert(t[a] == s[a - 1] && t[b] == s[b - 1]);
                }
            }
            assert forall|i: int| 0 <= i < t.len() implies m2.contains_key(key_of(#[trigger] t[i])) && m2[key_of(t[i])] == t[i] by {
                if i < pos {
                    assert(t[i] == s[i]);
                    assert(!same_key(s[i], rn));
                } else if i > pos {
                    assert(t[i] == s[i - 1]);
                    assert(!same_key(s[i - 1], rn));
                }
            }
            assert forall|k: (usize, usize)| #[trigger] m2.contains_key(k) implies exists|i: int| 0 <= i < t.len() && key_of(#[trigger] t[i]) == k by {
                if k == key_of(rn) {
                    assert(t[pos] == rn);
                } else {
                    assert(m.contains_key(k));
                    let i = choose|i: int| 0 <= i < s.len() && key_of(#[trigger] s[i]) == k;
                    if i < pos {
                        assert(t[i] == s[i]);
                    } else {
                        assert(t[i + 1] == s[i]);
                    }
                }
            }
        }
    }

    /// Puts a task at the back of the urgent queue.
    pub fn push_urgent(&mut self, runnable: CfsTreeNode<R>)
        requires
            old(self).wf(),
            old(self).load + runnable.load <= usize::MAX,
            old(self).task_count < usize::MAX,
        ensures
            final(self).wf(),
            final(self).load == old(self).load + runnable.load,
            final(self).order@ == old(self).order@,
            final(self).urgent@ == old(self).urgent@.push(runnable),
    {
        self.add_load(runnable.load);
        proof {
            lemma_loads_sum_push(self.urgent@, runnable);
        }
        self.urgent.push_back(runnable);
    }

    fn pop_urgent(&mut self) -> (r: Option<CfsTreeNode<R>>)
        requires
            old(self).wf(),
        ensures
            final(self).wf(),
            final(self).last_time == old(self).last_time,
            final(self).time_limit == old(self).time_limit,
            final(self).is_running == old(self).is_running,
            final(self).order@ == old(self).order@,
            old(self).urgent@.len() == 0 ==> r.is_none() && final(self).urgent@ == old(self).urgent@
                && final(self).load == old(self).load,
            old(self).urgent@.len() > 0 ==> r == Some(old(self).urgent@[0])
                && final(self).urgent@ == old(self).urgent@.drop_first()
                && final(self).load == old(self).load - old(self).urgent@[0].load,
    {
        let ghost u = self.urgent@;
        match self.urgent.pop_front() {
            Some(runnable) => {
                proof {
                    lemma_loads_sum_remove(u, 0);
                    assert(u.remove(0) =~= u.drop_first());
                    lemma_loads_sum_nonneg(self.order@);
                    lemma_loads_sum_nonneg(u.drop_first());
                }
                self.sub_load(runnable.load);
                Some(runnable)
            },
            None => None,
        }
    }

    fn pop_normal(&mut self) -> (r: Option<CfsTreeNode<R>>)
        requires
            old(self).wf(),
        ensures
            final(self).wf(),
            final(self).last_time == old(self).last_time,
            final(self).time_limit == old(self).time_limit,
            final(self).is_running == old(self).is_running,
            final(self).urgent@ == old(self).urgent@,
            old(self).order@.len() == 0 ==> r.is_none() && final(self).order@ == old(self).order@
                && final(self).load == old(self).load,
            old(self).order@.len() > 0 ==> r == Some(old(self).order@[0])
                && final(self).order@ == old(self).order@.drop_first()
                && final(self).load == old(self).load - old(self).order@[0].load,
    {
        let ghost s = self.order@;
        let ghost m = self.normal@;
        let k = match first_key(&self.normal) {
            None => {
                proof {
                    if s.len() > 0 {
                        assert(m.dom().contains(key_of(s[0])));
                    }
                }
                return None;
            },
            Some(k) => k,
        };
        proof {
            let i = choose|i: int| 0 <= i < s.len() && key_of(#[trigger] s[i]) == k;
            if i != 0 {
                assert(node_lt(s[0], s[i]));
                assert(m.dom().contains(key_of(s[0])));
            }
            assert(key_of(s[0]) == k);
        }
        let runnable = match self.normal.remove(&k) {
            Some(n) => n,
            None => { return None; },
        };
        self.order = Ghost(s.drop_first());
        proof {
            lemma_loads_sum_remove(s, 0);
            assert(s.remove(0) =~= s.drop_first());
            lemma_loads_sum_nonneg(self.urgent@);
            lemma_loads_sum_nonneg(s.drop_first());
            let t = self.order@;
            let m2 = self.normal@;
            assert(m2 == m.remove(k));
            assert forall|a: int, b: int| 0 <= a < b < t.len() implies node_lt(#[trigger] t[a], #[trigger] t[b]) by {
                assert(t[a] == s[a + 1] && t[b] == s[b + 1]);
            }
            assert forall|i: int| 0 <= i < t.len() implies m2.contains_key(key_of(#[trigger] t[i])) && m2[key_of(t[i])] == t[i] by {
                assert(t[i] == s[i + 1]);
                assert(node_lt(s[0], s[i + 1]));
            }
            assert forall|k2: (usize, usize)| #[trigger] m2.contains_key(k2) implies exists|i: int| 0 <= i < t.len() && key_of(#[trigger] t[i]) == k2 by {
                assert(m.contains_key(k2));
                let i = choose|i: int| 0 <= i < s.len() && key_of(#[trigger] s[i]) == k2;
                assert(i != 0);
                assert(t[i - 1] == s[i]);
            }
        }
        self.sub_load(runnable.load);
        Some(runnable)
    }

    /// Takes a task: the oldest urgent one or the one with the least virtual
    /// runtime, in the order `order` asks for.
    pub fn pop(&mut self, order: ScheduleOrder) -> (r: Option<CfsTreeNode<R>>)
        requires
            old(self).wf(),
        ensures
            final(self).wf(),
            final(self).last_time == old(self).last_time,
            final(self).time_limit == old(self).time_limit,
            final(self).is_running == old(self).is_running,
            old(self).order@.len() == 0 && old(self).urgent@.len() == 0 ==> r.is_none() && final(self).order@ == old(self).order@
                && final(self).urgent@ == old(self).urgent@,
            r matches Some(n) ==> final(self).load == old(self).load - n.load,
            (order == ScheduleOrder::UrgentFirst && old(self).urgent@.len() > 0) ==> r == Some(old(self).urgent@[0])
                && final(self).urgent@ == old(self).urgent@.drop_first() && final(self).order@ == old(self).order@,
            (order == ScheduleOrder::UrgentFirst && old(self).urgent@.len() == 0 && old(self).order@.len() > 0) ==> r == Some(old(self).order@[0])
                && final(self).order@ == old(self).order@.drop_first() && final(self).urgent@ == old(self).urgent@,
            (order == ScheduleOrder::NormalFirst && old(self).order@.len() > 0) ==> r == Some(old(self).order@[0])
                && final(self).order@ == old(self).order@.drop_first() && final(self).urgent@ == old(self).urgent@,
            (order == ScheduleOrder::NormalFirst && old(self).order@.len() == 0 && old(self).urgent@.len() > 0) ==> r == Some(old(self).urgent@[0])
                && final(self).urgent@ == old(self).urgent@.drop_first() && final(self).order@ == old(self).order@,
    {
        match order {
            ScheduleOrder::UrgentFirst => {
                if let Some(runnable) = self.pop_urgent() {
                    Some(runnable)
                } else if let Some(runnable) = self.pop_normal() {
                    Some(runnable)
                } else {
                    None
                }
            },
            ScheduleOrder::NormalFirst => {
                if let Some(runnable) = self.pop_normal() {
                    Some(runnable)
                } else if let Some(runnable) = self.pop_urgent() {
                    Some(runnable)
                } else {
                    None
                }
            },
        }
    }
}

/// The task that leaves the ordered queue first has the least virtual runtime
/// of all tasks there, ties going to the least thread ID.
pub proof fn law_fair_pick<R>(s: CFS<R>, i: int)
    requires
        s.wf(),
        0 < i < s.order@.len(),
    ensures
        node_lt(s.order@[0], s.order@[i]),
{
}

} // verus!
