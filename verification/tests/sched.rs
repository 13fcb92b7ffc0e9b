use std::cmp::Ordering;
use noaxiom::sched::mailbox::{can_respond, pick_sched_req, should_request};
use noaxiom::sched::cfs::{CfsTreeNode, CFS};
use noaxiom::sched::multicore::{LoadInfo, NoAxiomRuntime, NICE_0_LOAD};
use noaxiom::sched::scheduler::{DualPrioScheduler, FifoScheduler, MultiLevelScheduler};
use noaxiom::sched::sched_entity::{SchedEntity, SchedMetadata, SchedPrio};
use noaxiom::sched::vsched::{ScheduleInfo, ScheduleOrder};
use noaxiom::sync::mutex::{MutexTracer, NoIrqLockAction};

fn node(vruntime: usize, tid: usize) -> CfsTreeNode<usize> {
    CfsTreeNode { vruntime, tid, load: NICE_0_LOAD, runnable: tid }
}

const WOKEN: ScheduleInfo = ScheduleInfo { woken_while_running: false };
const YIELDED: ScheduleInfo = ScheduleInfo { woken_while_running: true };

#[test]
fn fifo_keeps_order() {
    let mut s = FifoScheduler::new();
    s.push(1, WOKEN);
    s.push(2, WOKEN);
    s.push(3, YIELDED);
    assert_eq!(s.pop(), Some(1));
    assert_eq!(s.pop(), Some(2));
    assert_eq!(s.pop(), Some(3));
    assert_eq!(s.pop(), None);
}

#[test]
fn dual_prio_serves_woken_tasks_first() {
    let mut s = DualPrioScheduler::new();
    s.push(1, YIELDED);
    s.push(2, WOKEN);
    assert_eq!(s.pop(), Some(2));
    assert_eq!(s.pop(), Some(1));
    assert_eq!(s.pop(), None);
}

#[test]
fn realtime_first() {
    let mut s = MultiLevelScheduler::new();
    s.push(10, Some(SchedPrio::Normal), WOKEN);
    s.push(20, Some(SchedPrio::IdlePrio), WOKEN);
    s.push(30, Some(SchedPrio::RealTime(5)), WOKEN);
    assert_eq!(s.pop(), Some(30));
    assert_eq!(s.pop(), Some(10));
    assert_eq!(s.pop(), Some(20));
    assert_eq!(s.pop(), None);
}

#[test]
fn idle_last_in_three_levels() {
    let mut s = noaxiom::sched::simple::MultiLevelScheduler::new();
    s.push(1, Some(SchedPrio::IdlePrio), WOKEN);
    s.push(2, Some(SchedPrio::Normal), WOKEN);
    assert_eq!(s.pop(), Some(2));
    assert_eq!(s.pop(), Some(1));
}

#[test]
fn fair_pick_takes_least_vruntime() {
    let mut c: CFS<usize> = CFS::default(10);
    c.push_normal(node(30, 1));
    c.push_normal(node(10, 2));
    c.push_normal(node(20, 3));
    c.push_normal(node(10, 1));
    assert_eq!(c.task_count(), 4);
    assert_eq!(c.load(), 4 * NICE_0_LOAD);
    let order: Vec<(usize, usize)> = (0..4)
        .map(|_| {
            let n = c.pop(ScheduleOrder::NormalFirst).unwrap();
            (n.vruntime, n.tid)
        })
        .collect();
    assert_eq!(order, vec![(10, 1), (10, 2), (20, 3), (30, 1)]);
    assert_eq!(c.load(), 0);
    assert!(c.pop(ScheduleOrder::UrgentFirst).is_none());
}

#[test]
fn cfs_urgent_queue_order() {
    let mut c: CFS<usize> = CFS::default(10);
    c.push_with_info(node(5, 1), YIELDED);
    c.push_with_info(node(50, 2), WOKEN);
    assert_eq!(c.pop(ScheduleOrder::UrgentFirst).unwrap().tid, 2);
    assert_eq!(c.pop(ScheduleOrder::UrgentFirst).unwrap().tid, 1);
}

#[test]
fn cfs_timer() {
    let mut c: CFS<usize> = CFS::default(10);
    c.set_last_time(100, 10);
    assert_eq!(c.last_time(), 100);
    assert!(!c.is_timeup(105));
    assert!(c.is_timeup(111));
    c.set_running(true);
    assert!(c.is_running());
}

#[test]
fn load_info() {
    let a = LoadInfo { hart: 0, load: 2048, count: 1, is_running: true };
    assert_eq!(a.calc_load(), 2048 + NICE_0_LOAD);
    assert!(a.is_valid());
    let b = LoadInfo { hart: 1, load: 0, count: 1, is_running: false };
    assert_eq!(b.calc_load(), 0);
    assert!(!b.is_valid());
}

#[test]
fn balance_pulls_from_busiest_and_keeps_totals() {
    let mut rt: NoAxiomRuntime<usize> = NoAxiomRuntime::new(2, 10);
    for t in 0..4usize {
        rt.schedule(1, node(t * 10, t + 1), YIELDED);
    }
    let total_before: usize = rt.scheduler.iter().map(|c| c.task_count()).sum();
    let load_before: usize = rt.scheduler.iter().map(|c| c.load()).sum();
    assert!(rt.load_balance(0));
    let total_after: usize = rt.scheduler.iter().map(|c| c.task_count()).sum();
    let load_after: usize = rt.scheduler.iter().map(|c| c.load()).sum();
    assert_eq!(total_before, total_after);
    assert_eq!(load_before, load_after);
    assert!(rt.scheduler[0].task_count() > 0);
    assert!(rt.scheduler[0].load() + NICE_0_LOAD >= rt.scheduler[1].load());
}

#[test]
fn balance_from_busiest_core_does_nothing() {
    let mut rt: NoAxiomRuntime<usize> = NoAxiomRuntime::new(2, 10);
    rt.schedule(0, node(1, 1), YIELDED);
    rt.schedule(0, node(2, 2), YIELDED);
    assert!(!rt.load_balance(0));
    assert_eq!(rt.scheduler[0].task_count(), 2);
}

#[test]
fn pick_next_on_empty_core() {
    let mut rt: NoAxiomRuntime<usize> = NoAxiomRuntime::new(1, 10);
    assert!(rt.pick_next(0).is_none());
    rt.schedule(0, node(3, 7), WOKEN);
    assert_eq!(rt.pick_next(0).unwrap().tid, 7);
}

#[test]
fn nested_locks_restore_interrupts() {
    let mut t = MutexTracer::new();
    NoIrqLockAction::before_lock(&mut t, true);
    NoIrqLockAction::before_lock(&mut t, false);
    NoIrqLockAction::before_lock(&mut t, false);
    assert_eq!(t.depth, 3);
    assert!(!NoIrqLockAction::after_lock(&mut t));
    assert!(!NoIrqLockAction::after_lock(&mut t));
    assert!(NoIrqLockAction::after_lock(&mut t));
    assert_eq!(t.depth, 0);
}

#[test]
fn locks_taken_with_interrupts_off_keep_them_off() {
    let mut t = MutexTracer::new();
    NoIrqLockAction::before_lock(&mut t, false);
    assert!(!NoIrqLockAction::after_lock(&mut t));
    noaxiom::sync::mutex::IrqOffLockAction::before_lock(false);
    noaxiom::sync::mutex::IrqOffLockAction::after_lock(false);
}

#[test]
fn sched_entity_yield_flag() {
    let mut e = SchedEntity::default();
    assert!(!e.need_yield());
    e.set_pending_yield();
    assert!(e.need_yield());
    e.clear_pending_yield();
    assert!(!e.need_yield());
    let m = SchedMetadata::from_task(&e, 42);
    assert_eq!(m.tid(), 42);
    assert_eq!(m.sched_entity(), Some(e));
    assert_eq!(m.sched_prio(), Some(SchedPrio::Normal));
    assert_eq!(SchedMetadata::default().sched_prio(), None);
}

#[test]
fn cfs_node_order() {
    let a = node(5, 2);
    let b = node(5, 3);
    let c = node(4, 9);
    assert_eq!(a.cmp(&b), Ordering::Less);
    assert_eq!(b.cmp(&a), Ordering::Greater);
    assert_eq!(c.cmp(&a), Ordering::Less);
    assert_eq!(a.cmp(&node(5, 2)), Ordering::Equal);
    assert_eq!(a.partial_cmp(&c), Some(Ordering::Greater));
    assert!(a.eq(&node(99, 2)));
    assert!(!a.eq(&b));
}

#[test]
fn balance_moves_the_least_vruntime_tasks_first() {
    let mut rt: NoAxiomRuntime<usize> = NoAxiomRuntime::new(2, 10);
    for t in 0..4usize {
        rt.schedule(1, node(t * 10, t + 1), YIELDED);
    }
    assert!(rt.load_balance(0));
    assert_eq!(rt.scheduler[0].task_count(), 2);
    assert_eq!(rt.scheduler[0].pop(ScheduleOrder::NormalFirst).map(|n| n.tid), Some(1));
    assert_eq!(rt.scheduler[0].pop(ScheduleOrder::NormalFirst).map(|n| n.tid), Some(2));
    assert_eq!(rt.scheduler[1].pop(ScheduleOrder::NormalFirst).map(|n| n.tid), Some(3));
}

#[test]
fn simple_scheduler_queues_stay_apart() {
    let mut s = noaxiom::sched::simple::SimpleScheduler::new();
    s.push(1, YIELDED);
    s.push(2, WOKEN);
    s.push(3, YIELDED);
    assert_eq!(s.pop(), Some(2));
    assert_eq!(s.urgent.len(), 0);
    assert_eq!(s.normal.len(), 2);
    assert_eq!(s.pop(), Some(1));
    assert_eq!(s.normal.len(), 1);
}

#[test]
fn mailbox_requests() {
    assert_eq!(pick_sched_req(0, 0, 4), (None, 0));
    assert_eq!(pick_sched_req(0b1010, 1, 4), (Some(3), 0b0010));
    assert_eq!(pick_sched_req(0b0110, 0, 4), (Some(1), 0b0100));
    assert_eq!(pick_sched_req(0b0001, 0, 4), (None, 0b0001));
    assert_eq!(pick_sched_req(0b10000, 0, 4), (None, 0b10000));
    assert!(should_request(100, 10, 50, true));
    assert!(!should_request(100, 60, 50, true));
    assert!(!should_request(100, 10, 50, false));
    assert!(can_respond(100, 10, 50, true));
    assert!(!can_respond(60, 10, 50, true));
}
