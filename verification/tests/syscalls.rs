use noaxiom::errno::Errno;
use noaxiom::signal::sig_action::{SAFlags, SAHandlerType, USigAction};
use noaxiom::signal::sig_info::{SigCode, SigInfo};
use noaxiom::signal::sig_set::SigSet;
use noaxiom::signal::sig_stack::SigAltStack;
use noaxiom::signal::signal::Signal;
use noaxiom::syscall::futex::{futex_command, FutexCommand, FUTEX_BITSET_MATCH_ANY};
use noaxiom::syscall::syscall::{get_syscall_result, Syscall};
use noaxiom::task::{Task, UserId};
use noaxiom::syscall::syscall_id::SyscallID;
use noaxiom::syscall::dispatch::SyscallOutcome;
use noaxiom::syscall::utils::{clear_current_syscall, current_syscall, update_current_syscall};
use noaxiom::syscall::process::{wait_selection, PidSel};
use noaxiom::signal::sig_action::{KSigAction, SigActionList};
use noaxiom::signal::sig_control_block::SignalControlBlock;
use noaxiom::sched::task_counter::{task_count_dec, task_count_inc};
use noaxiom::syscall::net::{getsockopt_answer, SockOptAnswer};
use noaxiom::syscall::others::add_key_payload;

fn user(uid: u32) -> UserId {
    UserId { uid, euid: uid, suid: uid, fsuid: uid, gid: uid, egid: uid, sgid: uid, fsgid: uid }
}

/// Tasks: 0 is tid 1 (init, root), 1 is tid 10 (process 10, group 10, user 1000),
/// 2 is tid 11 (thread of process 10), 3 is tid 20 (process 20, group 10, user 2000).
fn system(current: usize) -> Syscall {
    let tasks = vec![
        Task::new(1, 1, 1, None, UserId::root(), 16),
        Task::new(10, 10, 10, Some(1), user(1000), 16),
        Task::new(11, 10, 10, Some(1), user(1000), 16),
        Task::new(20, 20, 10, Some(10), user(2000), 16),
    ];
    Syscall::new(tasks, current)
}

fn queued(s: &Syscall, k: usize) -> Vec<SigInfo> {
    s.tasks[k].signals.queue.iter().copied().collect()
}

#[test]
fn syscall_results_for_user_space() {
    assert_eq!(get_syscall_result(Ok(7)), 7);
    assert_eq!(get_syscall_result(Err(Errno::EINVAL)), -22);
    assert_eq!(get_syscall_result(Err(Errno::ESRCH)), -3);
    assert_eq!(Errno::EOVERFLOW.code(), 75);
    assert_eq!(Syscall::empty_syscall("umask", 0x777), Ok(0x777));
}

#[test]
fn ids_of_the_caller() {
    let s = system(2);
    assert_eq!(s.sys_gettid(), Ok(11));
    assert_eq!(s.sys_getpid(), Ok(10));
    assert_eq!(s.sys_getppid(), Ok(1));
    assert_eq!(s.sys_getuid(), Ok(1000));
    assert_eq!(s.sys_setsid(), Ok(10));
    assert_eq!(system(0).sys_getppid(), Err(Errno::ESRCH));
}

#[test]
fn process_groups() {
    let mut s = system(1);
    assert_eq!(s.sys_getpgid(0), Ok(10));
    assert_eq!(s.sys_getpgid(20), Ok(10));
    assert_eq!(s.sys_getpgid(99), Err(Errno::ESRCH));
    assert_eq!(s.sys_setpgid(20, 0), Ok(0));
    assert_eq!(s.tasks[3].pgid, 20);
    assert_eq!(s.sys_setpgid(0, 5), Ok(0));
    assert_eq!(s.tasks[1].pgid, 5);
    assert_eq!(s.sys_setpgid(99, 5), Err(Errno::ESRCH));
    assert_eq!(s.sys_setpgid(0, usize::MAX), Err(Errno::EINVAL));
}

#[test]
fn exit_marks_the_task_or_its_group() {
    let mut s = system(1);
    assert_eq!(s.sys_exit(3), Ok(0));
    assert_eq!(s.tasks[1].exit_code, Some(3));
    assert_eq!(s.tasks[2].exit_code, None);
    assert_eq!(s.sys_exit_group(4), Ok(0));
    assert_eq!(s.tasks[1].exit_code, Some(4));
    assert_eq!(s.tasks[2].exit_code, Some(4));
    assert_eq!(s.tasks[3].exit_code, None);
}

#[test]
fn tid_address_and_robust_list() {
    let mut s = system(1);
    assert_eq!(s.sys_set_tid_address(0x1234), Ok(10));
    assert_eq!(s.tasks[1].clear_child_tid, Some(0x1234));
    assert_eq!(s.sys_set_robust_list(0x5000, 23), Err(Errno::EINVAL));
    assert_eq!(s.sys_set_robust_list(0x5000, 24), Ok(0));
    assert_eq!(s.tasks[1].robust_list.head, 0x5000);
}

#[test]
fn tkill_delivers_to_the_thread() {
    let mut s = system(1);
    assert_eq!(s.sys_tkill(11, 10), Ok(0));
    let q = queued(&s, 2);
    assert_eq!(q.len(), 1);
    assert_eq!(q[0].signal, Signal::SIGUSR1);
    assert_eq!(q[0].code, SigCode::TKill);
    assert_eq!(s.sys_tkill(99, 10), Err(Errno::ESRCH));
    assert_eq!(s.sys_tkill(11, 65), Err(Errno::EINVAL));
    assert_eq!(s.sys_tkill(11, 0), Ok(0));
}

#[test]
fn tgkill_checks_the_process() {
    let mut s = system(1);
    assert_eq!(s.sys_tgkill(20, 11, 10), Err(Errno::ESRCH));
    assert!(queued(&s, 2).is_empty());
    assert_eq!(s.sys_tgkill(10, 11, 10), Ok(0));
    assert_eq!(queued(&s, 2).len(), 1);
    assert_eq!(s.sys_tgkill(usize::MAX, 20, 15), Ok(0));
    assert_eq!(queued(&s, 3)[0].signal, Signal::SIGTERM);
}

#[test]
fn kill_needs_permission() {
    let mut s = system(1);
    assert_eq!(s.sys_kill(20, 15), Err(Errno::EPERM));
    assert_eq!(s.sys_kill(11, 15), Err(Errno::ESRCH));
    assert_eq!(s.sys_kill(99, 15), Err(Errno::ESRCH));
    assert_eq!(s.sys_kill(10, 15), Ok(0));
    assert_eq!(queued(&s, 1)[0].signal, Signal::SIGTERM);
    assert_eq!(s.sys_kill(10, 65), Err(Errno::EINVAL));
    let mut root = system(0);
    assert_eq!(root.sys_kill(20, 2), Ok(0));
    assert_eq!(queued(&root, 3)[0].signal, Signal::SIGINT);
}

#[test]
fn kill_reaches_every_permitted_member_of_a_group() {
    let mut s = system(1);
    assert_eq!(s.sys_kill(-10, 15), Ok(0));
    assert_eq!(queued(&s, 1).len(), 1);
    assert_eq!(queued(&s, 1)[0].signal, Signal::SIGTERM);
    assert_eq!(queued(&s, 2).len(), 1);
    assert_eq!(queued(&s, 3).len(), 0);
    assert_eq!(queued(&s, 0).len(), 0);
    let mut root = system(0);
    assert_eq!(root.sys_kill(-10, 15), Ok(0));
    assert_eq!(queued(&root, 1).len(), 1);
    assert_eq!(queued(&root, 2).len(), 1);
    assert_eq!(queued(&root, 3).len(), 1);
    assert_eq!(root.sys_kill(-5, 15), Err(Errno::ESRCH));
    let mut other = system(3);
    other.tasks[0].pgid = 7;
    assert_eq!(other.sys_kill(-7, 15), Err(Errno::EPERM));
    assert_eq!(queued(&other, 0).len(), 0);
    let mut probe = system(3);
    assert_eq!(probe.sys_kill(-10, 0), Ok(0));
    assert_eq!(queued(&probe, 3).len(), 0);
}

#[test]
fn getpgid_and_setpgid_find_the_first_thread() {
    let mut s = system(1);
    assert_eq!(s.sys_setpgid(11, 30), Ok(0));
    assert_eq!(s.tasks[2].pgid, 30);
    assert_eq!(s.sys_getpgid(11), Ok(30));
    assert_eq!(s.tasks[1].pgid, 10);
    assert_eq!(s.sys_setpgid(11, 0), Ok(0));
    assert_eq!(s.sys_getpgid(11), Ok(10));
}

#[test]
fn kill_zero_checks_only() {
    let mut s = system(1);
    assert_eq!(s.sys_kill(10, 0), Ok(0));
    assert!(queued(&s, 1).is_empty());
}

#[test]
fn kill_all_skips_init() {
    let mut s = system(0);
    assert_eq!(s.sys_kill(-1, 9), Ok(0));
    assert!(queued(&s, 0).is_empty());
    assert_eq!(queued(&s, 1)[0].signal, Signal::SIGKILL);
}

#[test]
fn sigprocmask_block_unblock_set() {
    let mut s = system(1);
    let set = SigSet::from_raw_signo(1).union(SigSet::from_raw_signo(8)).union(SigSet::from_raw_signo(17));
    assert_eq!(s.sys_sigprocmask(0, Some(set)), Ok(SigSet::empty()));
    assert_eq!(s.tasks[1].sig_mask, SigSet::from_raw_signo(1));
    assert_eq!(s.sys_sigprocmask(1, Some(set)), Ok(SigSet::from_raw_signo(1)));
    assert_eq!(s.tasks[1].sig_mask, SigSet::empty());
    assert_eq!(s.sys_sigprocmask(2, Some(SigSet::all())), Ok(SigSet::empty()));
    assert_eq!(s.tasks[1].sig_mask.bits(), !((1u64 << 8) | (1u64 << 17)));
    assert_eq!(s.sys_sigprocmask(3, Some(set)), Err(Errno::EINVAL));
    assert_eq!(s.sys_sigprocmask(3, None), Ok(s.tasks[1].sig_mask));
}

#[test]
fn block_then_unblock_restores_mask() {
    let mut s = system(1);
    let m0 = SigSet::from_raw_signo(3).union(SigSet::from_raw_signo(5));
    s.sys_sigprocmask(2, Some(m0)).unwrap();
    let set = SigSet::from_raw_signo(5).union(SigSet::from_raw_signo(6));
    s.sys_sigprocmask(0, Some(set)).unwrap();
    s.sys_sigprocmask(1, Some(set)).unwrap();
    assert_eq!(s.tasks[1].sig_mask, SigSet::from_raw_signo(3));
}

#[test]
fn sigaction_registers_and_returns_old() {
    let mut s = system(1);
    let act = USigAction { handler: 0x4000, flags: SAFlags::empty(), restorer: 0, mask: SigSet::empty() };
    let old = s.sys_sigaction(10, Some(act)).unwrap();
    assert_eq!(old.handler, 0);
    assert_eq!(s.tasks[1].sa_list.actions[9].handler, SAHandlerType::User { handler: 0x4000 });
    assert_eq!(s.sys_sigaction(10, None).unwrap().handler, 0x4000);
    assert_eq!(s.sys_sigaction(9, Some(act)), Err(Errno::EINVAL));
    assert_eq!(s.sys_sigaction(19, None), Err(Errno::EINVAL));
    assert_eq!(s.sys_sigaction(65, None), Err(Errno::EINVAL));
    assert_eq!(s.sys_sigaction(17, None).unwrap().handler, 1);
}

#[test]
fn sigpending_and_sigtimedwait() {
    let mut s = system(1);
    s.tasks[1].recv_siginfo(SigInfo::new_simple(Signal::SIGUSR1, SigCode::User));
    s.tasks[1].recv_siginfo(SigInfo::new_simple(Signal::SIGUSR2, SigCode::Kernel));
    assert_eq!(s.sys_sigpending(), SigSet::from_raw_signo(9).union(SigSet::from_raw_signo(11)));
    let (signo, raw) = s.sigtimedwait_take(SigSet::from_raw_signo(11)).unwrap();
    assert_eq!(signo, 12);
    assert_eq!(raw.code, 0x80);
    assert_eq!(s.sigtimedwait_take(SigSet::from_raw_signo(11)), Err(Errno::EINTR));
    assert_eq!(s.sys_sigpending(), SigSet::from_raw_signo(9));
}

#[test]
fn sigaltstack_swaps() {
    let mut s = system(1);
    let a = SigAltStack { ss_sp: 0x8000, ss_flags: 0, ss_size: 0x1000 };
    let b = SigAltStack { ss_sp: 0x9000, ss_flags: 0, ss_size: 0x1000 };
    assert_eq!(s.sys_sigaltstack(Some(a)), None);
    assert_eq!(s.sys_sigaltstack(Some(b)), Some(a));
    assert_eq!(s.sys_sigaltstack(None), None);
    assert_eq!(s.tasks[1].sig_stack, None);
    assert_eq!(a.stack_top(), 0x9000);
}

#[test]
fn credentials_of_unprivileged_users() {
    let mut s = system(1);
    assert_eq!(s.sys_setuid(2000), Err(Errno::EPERM));
    assert_eq!(s.tasks[1].user_id.uid, 1000);
    assert_eq!(s.sys_setresuid(-1, 1000, -1), Ok(0));
    assert_eq!(s.sys_setresuid(5, -1, -1), Err(Errno::EPERM));
    let mut root = system(0);
    assert_eq!(root.sys_setuid(3000), Ok(0));
    assert_eq!(root.tasks[0].user_id.uid, 3000);
    assert_eq!(root.tasks[0].user_id.suid, 3000);
}

#[test]
fn scheduling_policy_and_priority() {
    let mut s = system(1);
    assert_eq!(s.sys_sched_getscheduler(0), Ok(0));
    assert_eq!(s.sys_sched_setscheduler(0, 1, 0), Ok(0));
    assert_eq!(s.sys_getpriority(0, 0), Ok(20));
    assert_eq!(s.sys_getpriority(3, 0), Err(Errno::EINVAL));
    assert_eq!(s.sys_getpriority(0, 20), Err(Errno::EPERM));
    assert_eq!(s.sys_getpriority(0, 99), Err(Errno::ESRCH));
    s.tasks[2].nice = -5;
    assert_eq!(s.sys_getpriority(2, 1000), Ok(15));
    assert_eq!(s.sys_getpriority(1, 0), Err(Errno::EPERM));
    assert_eq!(s.sys_getpriority(2, 4242), Err(Errno::ESRCH));
    let root = system(0);
    assert_eq!(root.sys_getpriority(1, 10), Ok(20));
}

#[test]
fn host_and_domain_names() {
    let s = system(1);
    assert_eq!(s.sys_sethostname(0x1000, 8), Err(Errno::EPERM));
    let root = system(0);
    assert_eq!(root.sys_sethostname(0x1000, 8), Ok(0));
    assert_eq!(root.sys_sethostname(0x1000, 65), Err(Errno::EINVAL));
    assert_eq!(root.sys_setdomainname(0, 8), Err(Errno::EFAULT));
    assert_eq!(root.sys_setdomainname(0x1000, 64), Ok(0));
}

#[test]
fn futex_commands() {
    assert_eq!(futex_command(0, 7), Ok(FutexCommand::Wait { bitset: FUTEX_BITSET_MATCH_ANY, private: false }));
    assert_eq!(futex_command(128 | 9, 7), Ok(FutexCommand::Wait { bitset: 7, private: true }));
    assert_eq!(futex_command(1, 0), Ok(FutexCommand::Wake { bitset: FUTEX_BITSET_MATCH_ANY, private: false }));
    assert_eq!(futex_command(10, 0), Err(Errno::EINVAL));
    assert_eq!(futex_command(10, 3), Ok(FutexCommand::Wake { bitset: 3, private: false }));
    assert_eq!(futex_command(256 | 1, 0), Err(Errno::EPERM));
    assert_eq!(futex_command(256, 0), Ok(FutexCommand::Wait { bitset: FUTEX_BITSET_MATCH_ANY, private: false }));
    assert_eq!(futex_command(128 | 3, 0), Ok(FutexCommand::Requeue { private: true }));
    assert_eq!(futex_command(5, 0), Err(Errno::EINVAL));
}

#[test]
fn syscall_numbers() {
    assert_eq!(SyscallID::from_repr(57), Some(SyscallID::SYS_CLOSE));
    assert_eq!(SyscallID::from_repr(93), Some(SyscallID::SYS_EXIT));
    assert_eq!(SyscallID::from_repr(435), Some(SyscallID::SYS_CLONE3));
    assert_eq!(SyscallID::from_repr(1), None);
}

#[test]
fn syscall_table() {
    let mut s = system(1);
    let args = [0usize; 6];
    assert_eq!(s.syscall(178, args), SyscallOutcome::Done(Ok(10)));
    assert_eq!(s.tasks[1].current_syscall, SyscallID::SYS_GETTID);
    assert_eq!(s.syscall(172, args), SyscallOutcome::Done(Ok(10)));
    assert_eq!(s.syscall(166, args), SyscallOutcome::Done(Ok(0x777)));
    assert_eq!(s.syscall(174, args), SyscallOutcome::Done(Ok(0)));
    assert_eq!(s.syscall(57, [3, 0, 0, 0, 0, 0]), SyscallOutcome::Done(Err(Errno::EBADF)));
    assert_eq!(s.syscall(63, args), SyscallOutcome::Elsewhere(SyscallID::SYS_READ));
    assert_eq!(s.tasks[1].current_syscall, SyscallID::SYS_READ);
    assert_eq!(s.syscall(9999, args), SyscallOutcome::Done(Err(Errno::ENOSYS)));
    assert_eq!(s.syscall(129, [10, 15, 0, 0, 0, 0]), SyscallOutcome::Done(Ok(0)));
    assert_eq!(queued(&s, 1)[0].signal, Signal::SIGTERM);
    assert_eq!(s.syscall(93, [7, 0, 0, 0, 0, 0]), SyscallOutcome::Done(Ok(0)));
    assert_eq!(s.tasks[1].exit_code, Some(7));
    assert_eq!(s.syscall_inner(SyscallID::NO_SYSCALL, args), SyscallOutcome::Done(Err(Errno::ENOSYS)));
}

#[test]
fn current_syscall_records() {
    let mut t = Task::new(3, 3, 3, None, UserId::root(), 4);
    assert_eq!(current_syscall(None), SyscallID::NO_SYSCALL);
    assert_eq!(current_syscall(Some(&t)), SyscallID::NO_SYSCALL);
    update_current_syscall(&mut t, SyscallID::SYS_WAIT4);
    assert_eq!(current_syscall(Some(&t)), SyscallID::SYS_WAIT4);
    clear_current_syscall(&mut t);
    assert_eq!(t.current_syscall, SyscallID::NO_SYSCALL);
}

#[test]
fn supplementary_groups() {
    let mut s = system(1);
    assert_eq!(s.sys_setgroups(2, Ok(vec![5, 6])), Err(Errno::EPERM));
    assert_eq!(s.sys_setgroups(33, Ok(vec![0; 33])), Err(Errno::EINVAL));
    let mut root = system(0);
    assert_eq!(root.sys_setgroups(2, Ok(vec![5, 6])), Ok(0));
    assert_eq!(root.sys_setgroups(1, Ok(vec![7])), Ok(0));
    assert_eq!(root.tasks[0].sup_groups, vec![5, 6, 7]);
    assert_eq!(root.sys_getgroups(0), Ok((3, vec![])));
    assert_eq!(root.sys_getgroups(2), Err(Errno::EINVAL));
    assert_eq!(root.sys_getgroups(8), Ok((3, vec![5, 6, 7])));
    assert_eq!(root.sys_getgroups(33), Err(Errno::EINVAL));
    assert_eq!(root.sys_setgroups(1, Err(Errno::EFAULT)), Err(Errno::EFAULT));
    assert_eq!(root.sys_setgroups(0, Ok(vec![])), Ok(0));
    assert!(root.tasks[0].sup_groups.is_empty());
}

#[test]
fn wait4_selection() {
    assert_eq!(wait_selection(-1), Ok(PidSel::Task(None)));
    assert_eq!(wait_selection(0), Ok(PidSel::Group(None)));
    assert_eq!(wait_selection(42), Ok(PidSel::Task(Some(42))));
    assert_eq!(wait_selection(-5), Ok(PidSel::Group(Some((-5isize) as usize))));
    assert_eq!(wait_selection(i32::MIN as isize), Err(Errno::ESRCH));
}

#[test]
fn signal_control_block() {
    let fresh = SignalControlBlock::new(None);
    assert!(fresh.pending_sigs.is_empty());
    assert!(fresh.sig_mask.is_empty());
    assert_eq!(fresh.sa_list.get(Signal::SIGCHLD).unwrap().handler, SAHandlerType::Ignore);
    let mut shared = SigActionList::new();
    let act = USigAction { handler: 0x77, flags: SAFlags::empty(), restorer: 0, mask: SigSet::empty() };
    shared.set_sigaction(1, KSigAction::from_sa(act, Signal::SIGINT));
    let thread = SignalControlBlock::new(Some(&shared));
    assert_eq!(thread.sa_list.get(Signal::SIGINT).unwrap().handler, SAHandlerType::User { handler: 0x77 });
}

#[test]
fn task_counter_reaches_zero() {
    let mut n = 0usize;
    task_count_inc(&mut n);
    task_count_inc(&mut n);
    assert!(!task_count_dec(&mut n));
    assert!(task_count_dec(&mut n));
    assert_eq!(n, 0);
    assert!(!task_count_dec(&mut n));
    assert_eq!(n, usize::MAX);
}

#[test]
fn getsockopt_answers() {
    assert_eq!(getsockopt_answer(1, 8), Some(SockOptAnswer::Value(65536)));
    assert_eq!(getsockopt_answer(1, 7), Some(SockOptAnswer::Value(65536)));
    assert_eq!(getsockopt_answer(1, 4), Some(SockOptAnswer::Value(0)));
    assert_eq!(getsockopt_answer(1, 99), Some(SockOptAnswer::Nothing));
    assert_eq!(getsockopt_answer(6, 2), Some(SockOptAnswer::Value(1666)));
    assert_eq!(getsockopt_answer(0, 1), Some(SockOptAnswer::Value(0)));
    assert_eq!(getsockopt_answer(6, 13), Some(SockOptAnswer::Congestion));
    assert_eq!(getsockopt_answer(6, 11), Some(SockOptAnswer::Nothing));
    assert_eq!(getsockopt_answer(17, 1), None);
}

#[test]
fn add_key_types() {
    assert_eq!(add_key_payload(&String::from("keyring"), 0), Ok(false));
    assert_eq!(add_key_payload(&String::from("keyring"), 1), Err(Errno::EINVAL));
    assert_eq!(add_key_payload(&String::from("user"), 32767), Ok(true));
    assert_eq!(add_key_payload(&String::from("logon"), 32768), Err(Errno::EINVAL));
    assert_eq!(add_key_payload(&String::from("big_key"), (1 << 20) - 1), Ok(true));
    assert_eq!(add_key_payload(&String::from("big_key"), 1 << 20), Err(Errno::EINVAL));
    assert_eq!(add_key_payload(&String::from("rxrpc_s"), usize::MAX), Ok(true));
    assert_eq!(add_key_payload(&String::from("dns_resolver"), 0), Err(Errno::EINVAL));
}

#[test]
fn resuid_and_robust_list() {
    let mut s = system(3);
    assert_eq!(s.sys_getresuid(), (2000, 2000, 2000));
    assert_eq!(s.sys_getresgid(), (2000, 2000, 2000));
    assert_eq!(s.sys_set_robust_list(0x7000, 24), Ok(0));
    assert_eq!(s.sys_get_robust_list(0).unwrap().head, 0x7000);
    assert_eq!(s.sys_get_robust_list(20).unwrap().len, 24);
    assert_eq!(s.sys_get_robust_list(10).unwrap().head, 0);
    assert_eq!(s.sys_get_robust_list(77), Err(Errno::ESRCH));
}
