use noaxiom::errno::Errno;
use noaxiom::signal::sig_action::{KSigAction, SAFlags, SAHandlerType, SigActionList, USigAction};
use noaxiom::signal::sig_info::{SigCode, SigInfo};
use noaxiom::signal::sig_pending::SigPending;
use noaxiom::signal::sig_set::{SigSet, SigSetSummary};
use noaxiom::signal::signal::Signal;

fn user_action(handler: usize) -> USigAction {
    USigAction { handler, flags: SAFlags::from_bits_truncate(4), restorer: 0x99, mask: SigSet::from_raw_signo(3) }
}

#[test]
fn signal_numbers_round_trip() {
    for n in 0..=64usize {
        let s = Signal::from_repr(n).unwrap();
        assert_eq!(s.raw(), n);
    }
    assert!(Signal::from_repr(65).is_none());
    assert_eq!(Signal::from_repr(9), Some(Signal::SIGKILL));
    assert_eq!(Signal::from_repr(17), Some(Signal::SIGCHLD));
    assert_eq!(Signal::from_raw_sa_index(0), Signal::SIGHUP);
    assert_eq!(Signal::SIGTERM.into_sigaction_index(), 14);
    assert_eq!(Signal::SIGTERM.into_sigmask_offset(), 14);
}

#[test]
fn kill_and_stop_cannot_be_handled() {
    assert_eq!(Signal::SIGKILL.try_exclude_kill(), Err(Errno::EINVAL));
    assert_eq!(Signal::SIGSTOP.try_exclude_kill(), Err(Errno::EINVAL));
    assert_eq!(Signal::SIGUSR1.try_exclude_kill(), Ok(Signal::SIGUSR1));
}

#[test]
fn signal_try_from_edges() {
    assert_eq!(Signal::try_from(64), Ok(Signal::SIGRTMAX));
    assert_eq!(Signal::try_from(65), Err(Errno::EINVAL));
    assert_eq!(Signal::try_from_with_zero_as_none(0), Ok(None));
    assert_eq!(Signal::try_from_with_zero_as_none(2), Ok(Some(Signal::SIGINT)));
    assert_eq!(Signal::try_from_with_zero_as_none(100), Err(Errno::EINVAL));
}

#[test]
fn sigset_operations() {
    let a = SigSet::from_raw_signo(1).union(SigSet::from_raw_signo(5));
    assert_eq!(a.bits(), 0b100010);
    let b = SigSet::from_raw_signo(5);
    assert_eq!(a.intersection(b).bits(), 0b100000);
    assert_eq!(a.difference(b).bits(), 0b10);
    assert!(a.contains(b));
    assert!(!b.contains(a));
    assert_eq!(a.complement().bits(), !0b100010u64);
    assert_eq!(a.count(), 2);
    assert!(SigSet::empty().is_empty());
    assert_eq!(SigSet::all().count(), 64);
    let mut c = SigSet::empty();
    c.insert(a);
    c.remove(b);
    assert_eq!(c.bits(), 0b10);
}

#[test]
fn sigset_blocked_holds_kill_and_stop() {
    assert_eq!(SigSet::blocked().bits(), 0x40100);
    let s = SigSet::all().without_kill();
    assert!(!s.contains_signal(Signal::SIGKILL));
    assert!(!s.contains_signal(Signal::SIGSTOP));
    assert!(s.contains_signal(Signal::SIGTERM));
    assert_eq!(SigSet::empty().with_kill().bits(), 0x40100);
}

#[test]
fn sigset_signal_membership() {
    let mut s = SigSet::empty();
    s.enable(Signal::SIGTERM);
    assert!(s.contains_signal(Signal::SIGTERM));
    assert_eq!(s.bits(), 1 << 14);
    assert_eq!(s.disable(Signal::SIGTERM), Ok(()));
    assert!(s.is_empty());
    assert_eq!(s.enable_checked(Signal::SIGINVAL), Err(Errno::EINVAL));
    assert_eq!(SigSet::try_from_signal(Signal::SIGINVAL), Err(Errno::EINVAL));
    assert_eq!(SigSet::try_from_signal(Signal::SIGHUP), Ok(SigSet::from_raw_signo(0)));
    assert_eq!(Signal::SIGHUP.try_into(), Ok(SigSet::from_raw_signo(0)));
}

#[test]
fn sigset_summary() {
    assert_eq!(SigSet::empty().debug_summary(), SigSetSummary::Empty);
    assert_eq!(SigSet::all().debug_summary(), SigSetSummary::Full);
    let few = SigSet::from_raw_signo(2);
    assert_eq!(few.debug_summary(), SigSetSummary::Listed(few));
    let many = few.complement();
    assert_eq!(many.debug_summary(), SigSetSummary::Skip(few));
}

#[test]
fn default_actions_come_from_the_signal() {
    let list = SigActionList::new();
    assert_eq!(list.get(Signal::SIGCHLD).unwrap().handler, SAHandlerType::Ignore);
    assert_eq!(list.get(Signal::SIGSTOP).unwrap().handler, SAHandlerType::Stop);
    assert_eq!(list.get(Signal::SIGCONT).unwrap().handler, SAHandlerType::Continue);
    assert_eq!(list.get(Signal::SIGTERM).unwrap().handler, SAHandlerType::Kill);
    assert_eq!(list.get(Signal::SIGHUP).unwrap().handler, SAHandlerType::Kill);
    assert!(list.get(Signal::SIGINVAL).is_none());
    assert_eq!(KSigAction::default_at(16), KSigAction::new_default(Signal::SIGCHLD));
    assert_eq!(list.get_user_bitmap(), SigSet::empty());
    let ignored = list.get_ignored_bitmap();
    assert!(ignored.contains_signal(Signal::SIGCHLD));
    assert!(ignored.contains_signal(Signal::SIGURG));
    assert!(ignored.contains_signal(Signal::SIGWINCH));
    assert_eq!(ignored.count(), 3);
}

#[test]
fn action_round_trip() {
    let sa = user_action(0x1000);
    let k = KSigAction::from_sa(sa, Signal::SIGUSR1);
    assert_eq!(k.handler, SAHandlerType::User { handler: 0x1000 });
    let back = k.into_sa();
    assert_eq!(back.handler, 0x1000);
    assert_eq!(back.flags, sa.flags);
    assert_eq!(back.mask, sa.mask);
    assert_eq!(back.restorer, 0);
    let ign = KSigAction::from_sa(user_action(1), Signal::SIGUSR1);
    assert_eq!(ign.handler, SAHandlerType::Ignore);
    assert_eq!(ign.into_sa().handler, 1);
    let dfl = KSigAction::from_sa(user_action(0), Signal::SIGCHLD);
    assert_eq!(dfl, KSigAction::new_default(Signal::SIGCHLD));
    assert_eq!(dfl.into_sa().handler, 1);
}

#[test]
fn action_stable() {
    let k = KSigAction::from_sa(user_action(0x2000), Signal::SIGINT);
    let again = KSigAction::from_sa(k.into_sa(), Signal::SIGINT);
    assert_eq!(again, KSigAction { restorer: 0, ..k });
}

#[test]
fn user_and_ignored_bitmaps_and_reset() {
    let mut list = SigActionList::new();
    list.set_sigaction(Signal::SIGUSR1.into_sigaction_index(), KSigAction::from_sa(user_action(0x3000), Signal::SIGUSR1));
    list.set_sigaction(Signal::SIGTERM.into_sigaction_index(), KSigAction::from_sa(user_action(1), Signal::SIGTERM));
    let user = list.get_user_bitmap();
    let ignored = list.get_ignored_bitmap();
    assert!(user.contains_signal(Signal::SIGUSR1));
    assert!(ignored.contains_signal(Signal::SIGTERM));
    assert!(user.intersection(ignored).is_empty());
    list.reset();
    assert!(list.get_user_bitmap().is_empty());
    assert_eq!(list.get(Signal::SIGUSR1).unwrap().handler, SAHandlerType::Kill);
    assert_eq!(list.get(Signal::SIGTERM).unwrap().handler, SAHandlerType::Ignore);
}

#[test]
fn second_action_list_by_index() {
    let mut list = noaxiom::signal::sa_list::SigActionList::new();
    assert_eq!(list.get(16).unwrap().handler, SAHandlerType::Ignore);
    assert!(list.get(64).is_none());
    list.set_sigaction(16, KSigAction::from_sa(user_action(0x10), Signal::SIGCHLD));
    assert_eq!(list.get(16).unwrap().handler, SAHandlerType::User { handler: 0x10 });
}

#[test]
fn push_then_pop() {
    let mut p = SigPending::new();
    assert!(p.is_empty());
    let info = SigInfo::new_simple(Signal::SIGUSR2, SigCode::User);
    p.push(info);
    assert_eq!(p.pop_with_mask(SigSet::empty()), Some(info));
    assert!(p.is_empty());
    assert!(p.pending_set.is_empty());
}

#[test]
fn pending_signal_is_queued_once() {
    let mut p = SigPending::new();
    p.push(SigInfo::new_simple(Signal::SIGINT, SigCode::User));
    p.push(SigInfo::new_simple(Signal::SIGINT, SigCode::Kernel));
    assert_eq!(p.queue.len(), 1);
    assert_eq!(p.queue[0].code, SigCode::User);
}

#[test]
fn masked_signals_wait_but_kill_passes() {
    let mut p = SigPending::new();
    let term = SigInfo::new_simple(Signal::SIGTERM, SigCode::User);
    let kill = SigInfo::new_simple(Signal::SIGKILL, SigCode::User);
    p.push(term);
    p.push(kill);
    let mask = SigSet::all();
    assert_eq!(p.pop_with_mask(mask), Some(kill));
    assert_eq!(p.pop_with_mask(mask), None);
    assert_eq!(p.queue.len(), 1);
    assert_eq!(p.pop_with_mask(SigSet::empty()), Some(term));
}

#[test]
fn raw_siginfo() {
    let info = SigInfo::new_simple(Signal::SIGSEGV, SigCode::Kernel);
    let raw = info.into_raw();
    assert_eq!(raw.signo, 11);
    assert_eq!(raw.code, 0x80);
    assert_eq!(SigCode::TKill.value(), -6);
}

#[test]
fn interruptable_masks_keep_kill() {
    let (mask, wake) = noaxiom::signal::interruptable::interruptable_masks(
        SigSet::empty(), Some(SigSet::all()), SigSet::empty(), None);
    assert!(!mask.contains_signal(Signal::SIGKILL));
    assert!(!mask.contains_signal(Signal::SIGSTOP));
    let _ = wake;
}
