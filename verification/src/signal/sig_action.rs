//! Signal actions: what a task does when a signal arrives.
use vstd::prelude::*;
use crate::signal::sig_set::{SigMask, SigSet};
use crate::signal::signal::{Signal, MAX_SIGNUM, SIG_DFL, SIG_IGN};

verus! {

/// How a signal is handled.
#[derive(Clone, Copy, PartialEq, Eq, Debug, Structural)]
pub enum SAHandlerType {
    Ignore,
    Kill,
    Stop,
    Continue,
    /// A handler in user space, at the given address.
    User { handler: usize },
}

/// The default handling of signal `sig`.
pub open spec fn default_handler(sig: Signal) -> SAHandlerType {
    match sig {
        Signal::SIGCHLD | Signal::SIGURG | Signal::SIGWINCH => SAHandlerType::Ignore,
        Signal::SIGSTOP | Signal::SIGTSTP | Signal::SIGTTIN | Signal::SIGTTOU => SAHandlerType::Stop,
        Signal::SIGCONT => SAHandlerType::Continue,
        _ => SAHandlerType::Kill,
    }
}

impl SAHandlerType {
    /// The default handling of signal `sig`.
    pub fn new_default(sig: Signal) -> (r: SAHandlerType)
        ensures
            r == default_handler(sig),
    {
        match sig {
            Signal::SIGCHLD | Signal::SIGURG | Signal::SIGWINCH => SAHandlerType::Ignore,
            Signal::SIGSTOP | Signal::SIGTSTP | Signal::SIGTTIN | Signal::SIGTTOU => SAHandlerType::Stop,
            Signal::SIGCONT => SAHandlerType::Continue,
            _ => SAHandlerType::Kill,
        }
    }

    /// Whether this is a user-space handler.
    pub open spec fn is_user(self) -> bool {
        self matches SAHandlerType::User { .. }
    }
}

/// All flags that a signal action may carry.
pub const SA_ALL_BITS: u32 = 0xdc00_0007u32;

/// Flags of a signal action (`SA_*`).
#[derive(Copy, Clone, Debug, PartialEq, Eq, Structural)]
pub struct SAFlags {
    pub bits: u32,
}

impl SAFlags {
    /// No flag.
    pub fn empty() -> (r: SAFlags)
        ensures
            r.bits == 0,
    {
        SAFlags { bits: 0 }
    }

    /// The flags of `bits` that a signal action knows; others are dropped.
    pub fn from_bits_truncate(bits: u32) -> (r: SAFlags)
        ensures
            r.bits == bits & SA_ALL_BITS,
    {
        SAFlags { bits: bits & SA_ALL_BITS }
    }

    /// The raw bits.
    pub fn bits(&self) -> (r: u32)
        ensures
            r == self.bits,
    {
        self.bits
    }
}

/// A signal action as user space writes and reads it.
#[derive(Clone, Copy, Debug, PartialEq, Eq, Structural)]
pub struct USigAction {
    pub handler: usize,
    pub flags: SAFlags,
    pub restorer: usize,
    pub mask: SigMask,
}

/// A signal action as the kernel keeps it.
#[derive(Clone, Copy, Debug, PartialEq, Eq, Structural)]
pub struct KSigAction {
    pub handler: SAHandlerType,
    pub mask: SigMask,
    pub flags: SAFlags,
    pub restorer: usize,
}

/// The default action of signal `sig`.
pub open spec fn default_action(sig: Signal) -> KSigAction {
    KSigAction {
        handler: default_handler(sig),
        mask: SigSet::from_spec_bits(0),
        flags: SAFlags { bits: 0 },
        restorer: 0,
    }
}

/// The action that `from_sa` makes of `sa` for signal `sig`.
pub open spec fn action_from_user(sa: USigAction, sig: Signal) -> KSigAction {
    if sa.handler == SIG_DFL {
        default_action(sig)
    } else if sa.handler == SIG_IGN {
        KSigAction { handler: SAHandlerType::Ignore, flags: sa.flags, mask: sa.mask, restorer: sa.restorer }
    } else {
        KSigAction {
            handler: SAHandlerType::User { handler: sa.handler },
            flags: sa.flags,
            mask: sa.mask,
            restorer: sa.restorer,
        }
    }
}

/// The handler address that user space reads back for `h`.
pub open spec fn handler_address(h: SAHandlerType) -> usize {
    match h {
        SAHandlerType::Ignore => SIG_IGN,
        SAHandlerType::Kill => SIG_DFL,
        SAHandlerType::Stop => SIG_DFL,
        SAHandlerType::Continue => SIG_DFL,
        SAHandlerType::User { handler } => handler,
    }
}

/// The action that `into_sa` hands to user space for `k`.
pub open spec fn action_to_user(k: KSigAction) -> USigAction {
    USigAction { handler: handler_address(k.handler), flags: k.flags, mask: k.mask, restorer: 0 }
}

impl KSigAction {
    /// The default action of signal `sig`.
    pub fn new_default(sig: Signal) -> (r: KSigAction)
        ensures
            r == default_action(sig),
    {
        KSigAction {
            handler: SAHandlerType::new_default(sig),
            mask: SigSet::empty(),
            flags: SAFlags::empty(),
            restorer: 0,
        }
    }

    /// The kernel's form of the action `sa` that user space gave for `signum`.
    pub fn from_sa(sa: USigAction, signum: Signal) -> (r: KSigAction)
        ensures
            r == action_from_user(sa, signum),
    {
        match sa.handler {
            SIG_DFL => KSigAction::new_default(signum),
            SIG_IGN => KSigAction {
                handler: SAHandlerType::Ignore,
                flags: sa.flags,
                mask: sa.mask,
                restorer: sa.restorer,
            },
            handler => KSigAction {
                handler: SAHandlerType::User { handler },
                flags: sa.flags,
                mask: sa.mask,
                restorer: sa.restorer,
            },
        }
    }

    /// The user-space form of this action.
    pub fn into_sa(&self) -> (r: USigAction)
        ensures
            r == action_to_user(*self),
    {
        USigAction {
            handler: match self.handler {
                SAHandlerType::Ignore => SIG_IGN,
                SAHandlerType::Kill => SIG_DFL,
                SAHandlerType::Stop => SIG_DFL,
                SAHandlerType::Continue => SIG_DFL,
                SAHandlerType::User { handler } => handler,
            },
            flags: self.flags,
            mask: self.mask,
            restorer: 0,
        }
    }

    /// The default action of the signal whose action list index is `index`.
    pub fn default_at(index: usize) -> (r: KSigAction)
        requires
            index < MAX_SIGNUM,
        ensures
            r == default_action(Signal::of_signo((index + 1) as usize)),
    {
        let sig = Signal::from_raw_sa_index(index);
        proof { sig.lemma_of_signo(); }
        KSigAction::new_default(sig)
    }
}

/// An action that user space registers for a signal is read back with the same
/// handler address, flags and mask, unless it asked for the default handling of
/// a signal that is ignored by default, which is read back as `SIG_IGN`.
pub proof fn law_action_round_trip(sa: USigAction, sig: Signal)
    requires
        !(sa.handler == SIG_DFL && default_handler(sig) == SAHandlerType::Ignore),
    ensures
        action_to_user(action_from_user(sa, sig)).handler == sa.handler,
        sa.handler != SIG_DFL ==> action_to_user(action_from_user(sa, sig)).flags == sa.flags,
        sa.handler != SIG_DFL ==> action_to_user(action_from_user(sa, sig)).mask == sa.mask,
{
}

/// The kernel's actions read out and registered again are the same actions,
/// but for the restorer, which is not read out.
pub proof fn law_action_stable(k: KSigAction, sig: Signal)
    requires
        k.handler is User ==> k.handler->handler != SIG_DFL && k.handler->handler != SIG_IGN,
        k.handler is Ignore || k.handler is User,
    ensures
        action_from_user(action_to_user(k), sig) == (KSigAction { restorer: 0, ..k }),
{
}

/// The default actions of all signals, index `i` for signal `i + 1`, built by
/// `array_init::array_init`, which fills entry `i` with what the closure gives
/// for `i`, for each `i` below the length. The contract claims exactly that of
/// the call, with `KSigAction::default_at` as the closure.
#[verifier::external_body]
pub(crate) fn init_default_actions() -> (r: [KSigAction; MAX_SIGNUM])
    ensures
        forall|i: int| 0 <= i < MAX_SIGNUM ==> r@[i] == default_action(Signal::of_signo((i + 1) as usize)),
{
    array_init::array_init(|i: usize| KSigAction::default_at(i))
}

/// What `reset` makes of action `a` at index `i`.
pub open spec fn reset_action(a: KSigAction, i: int) -> KSigAction {
    if a.handler.is_user() {
        KSigAction { handler: default_handler(Signal::of_signo((i + 1) as usize)), ..a }
    } else {
        a
    }
}

/// The signal actions of a task: entry `i` is the action of signal `i + 1`.
#[derive(Clone, Copy)]
pub struct SigActionList {
    pub actions: [KSigAction; MAX_SIGNUM],
}

impl SigActionList {
    /// The default action of every signal.
    pub fn new() -> (r: SigActionList)
        ensures
            forall|i: int| 0 <= i < MAX_SIGNUM ==> r.actions@[i] == default_action(Signal::of_signo((i + 1) as usize)),
    {
        SigActionList { actions: init_default_actions() }
    }

    /// Sets the action of the signal whose index is `signum`.
    pub fn set_sigaction(&mut self, signum: usize, action: KSigAction)
        requires
            signum < MAX_SIGNUM,
        ensures
            final(self).actions@ == old(self).actions@.update(signum as int, action),
    {
        self.actions[signum] = action;
    }

    /// The action of `signum`; `None` for `SIGINVAL`, which has none.
    pub fn get(&self, signum: Signal) -> (r: Option<&KSigAction>)
        ensures
            signum.is_valid() ==> r == Some(&self.actions@[signum.signo() - 1]),
            !signum.is_valid() ==> r.is_none(),
    {
        if signum.raw() == 0 {
            None
        } else {
            let index = signum.into_sigaction_index();
            Some(&self.actions[index])
        }
    }

    /// The signals that have a handler in user space.
    pub fn get_user_bitmap(&self) -> (r: SigSet)
        ensures
            forall|i: int| r.has(i) <==> (0 <= i < MAX_SIGNUM && self.actions@[i].handler.is_user()),
    {
        let mut res = SigSet::empty();
        let mut i: usize = 0;
        while i < MAX_SIGNUM
            invariant
                i <= MAX_SIGNUM,
                forall|j: int| res.has(j) <==> (0 <= j < i && self.actions@[j].handler.is_user()),
            decreases MAX_SIGNUM - i,
        {
            if let SAHandlerType::User { handler: _ } = self.actions[i].handler {
                res = res.union(SigSet::from_raw_signo(i));
            }
            i = i + 1;
        }
        res
    }

    /// The signals that are ignored.
    pub fn get_ignored_bitmap(&self) -> (r: SigSet)
        ensures
            forall|i: int| r.has(i) <==> (0 <= i < MAX_SIGNUM && self.actions@[i].handler == SAHandlerType::Ignore),
    {
        let mut res = SigSet::empty();
        let mut i: usize = 0;
        while i < MAX_SIGNUM
            invariant
                i <= MAX_SIGNUM,
                forall|j: int| res.has(j) <==> (0 <= j < i && self.actions@[j].handler == SAHandlerType::Ignore),
            decreases MAX_SIGNUM - i,
        {
            if let SAHandlerType::Ignore = self.actions[i].handler {
                res = res.union(SigSet::from_raw_signo(i));
            }
            i = i + 1;
        }
        res
    }

    /// Puts every signal that has a user handler back to its default handling,
    /// as `execve` does; mask, flags and restorer stay.
    pub fn reset(&mut self)
        ensures
            forall|i: int| 0 <= i < MAX_SIGNUM ==> #[trigger] final(self).actions@[i] == reset_action(old(self).actions@[i], i),
    {
        let mut num: usize = 0;
        while num < MAX_SIGNUM
            invariant
                num <= MAX_SIGNUM,
                forall|i: int| 0 <= i < num ==> #[trigger] self.actions@[i] == reset_action(old(self).actions@[i], i),
                forall|i: int| num <= i < MAX_SIGNUM ==> self.actions@[i] == old(self).actions@[i],
            decreases MAX_SIGNUM - num,
        {
            let action = self.actions[num];
            match action.handler {
                SAHandlerType::User { .. } => {
                    let sig = Signal::from_raw_sa_index(num);
                    proof { sig.lemma_of_signo(); }
                    self.actions[num] = KSigAction { handler: SAHandlerType::new_default(sig), ..action };
                },
                _ => {},
            }
            num = num + 1;
        }
    }
}

/// No signal is both ignored and handled in user space.
pub proof fn law_user_and_ignored_disjoint(list: SigActionList, user: SigSet, ignored: SigSet, i: int)
    requires
        forall|j: int| user.has(j) <==> (0 <= j < MAX_SIGNUM && list.actions@[j].handler.is_user()),
        forall|j: int| ignored.has(j) <==> (0 <= j < MAX_SIGNUM && list.actions@[j].handler == SAHandlerType::Ignore),
    ensures
        !(user.has(i) && ignored.has(i)),
{
}

/// After a reset no signal has a user handler.
pub proof fn law_reset_clears_user_handlers(before: SigActionList, after: SigActionList, i: int)
    requires
        forall|j: int| 0 <= j < MAX_SIGNUM ==> #[trigger] after.actions@[j] == reset_action(before.actions@[j], j),
        0 <= i < MAX_SIGNUM,
    ensures
        !after.actions@[i].handler.is_user(),
{
}

/// What a signal does when no handler is installed, by its number: the
/// job-control stop signals (19 `SIGSTOP`, 20 `SIGTSTP`, 21 `SIGTTIN`,
/// 22 `SIGTTOU`) stop the process, 18 `SIGCONT` continues it, 17 `SIGCHLD`,
/// 23 `SIGURG` and 28 `SIGWINCH` are ignored, and every other signal from 1
/// to 64 kills it.
pub proof fn law_default_handling(n: usize)
    requires
        1 <= n <= 64,
    ensures
        19 <= n <= 22 ==> default_handler(Signal::of_signo(n)) == SAHandlerType::Stop,
        n == 18 ==> default_handler(Signal::of_signo(n)) == SAHandlerType::Continue,
        n == 17 || n == 23 || n == 28 ==> default_handler(Signal::of_signo(n)) == SAHandlerType::Ignore,
        !(17 <= n <= 23 || n == 28) ==> default_handler(Signal::of_signo(n)) == SAHandlerType::Kill,
{
}

} // verus!
