//! Decoding of the `futex` operation word: which command, on which queue,
//! with which bitset.
use vstd::prelude::*;
use crate::errno::{Errno, SysResult};

verus! {

/// The futex is private to the process.
pub const FUTEX_PRIVATE_FLAG: usize = 128;

/// Timeouts are measured on the real-time clock.
pub const FUTEX_CLOCK_REALTIME: usize = 256;

/// The bits of the operation word that name the command.
pub const FUTEX_CMD_MASK: usize = !(FUTEX_PRIVATE_FLAG | FUTEX_CLOCK_REALTIME);

/// Wait while the futex holds the expected value.
pub const FUTEX_WAIT: usize = 0;

/// Wake waiters.
pub const FUTEX_WAKE: usize = 1;

/// Move waiters to another futex.
pub const FUTEX_REQUEUE: usize = 3;

/// Wait, with a bitset that wakers must match.
pub const FUTEX_WAIT_BITSET: usize = 9;

/// Wake waiters whose bitset matches.
pub const FUTEX_WAKE_BITSET: usize = 10;

/// A bitset that every bitset matches.
pub const FUTEX_BITSET_MATCH_ANY: u32 = 0xffff_ffffu32;

/// What a `futex` call is to do.
#[derive(Clone, Copy, Debug, PartialEq, Eq, Structural)]
pub enum FutexCommand {
    /// Wait on the futex with the given bitset.
    Wait { bitset: u32, private: bool },
    /// Wake waiters whose bitset meets the given one.
    Wake { bitset: u32, private: bool },
    /// Move waiters to the second futex.
    Requeue { private: bool },
}

/// The command bits of operation word `op`.
pub open spec fn futex_cmd(op: usize) -> usize {
    op & FUTEX_CMD_MASK
}

/// Decodes the operation word `op` of a `futex` call, with `val3` the bitset
/// of the bitset commands. `EPERM` for a wake on the real-time clock,
/// `EINVAL` for a wake with an empty bitset or for any other command.
pub fn futex_command(op: usize, val3: u32) -> (r: SysResult<FutexCommand>)
    ensures
        ({
            let cmd = futex_cmd(op);
            let private = op & FUTEX_PRIVATE_FLAG != 0;
            let realtime = op & FUTEX_CLOCK_REALTIME != 0;
            &&& (cmd == FUTEX_WAKE || cmd == FUTEX_WAKE_BITSET) && realtime ==> r == Err::<FutexCommand, Errno>(Errno::EPERM)
            &&& cmd == FUTEX_WAIT ==> r == Ok::<FutexCommand, Errno>(FutexCommand::Wait { bitset: FUTEX_BITSET_MATCH_ANY, private })
            &&& cmd == FUTEX_WAIT_BITSET ==> r == Ok::<FutexCommand, Errno>(FutexCommand::Wait { bitset: val3, private })
            &&& cmd == FUTEX_WAKE && !realtime ==> r == Ok::<FutexCommand, Errno>(FutexCommand::Wake { bitset: FUTEX_BITSET_MATCH_ANY, private })
            &&& cmd == FUTEX_WAKE_BITSET && !realtime ==> r == if val3 == 0 {
                Err::<FutexCommand, Errno>(Errno::EINVAL)
            } else {
                Ok(FutexCommand::Wake { bitset: val3, private })
            }
            &&& cmd == FUTEX_REQUEUE ==> r == Ok::<FutexCommand, Errno>(FutexCommand::Requeue { private })
            &&& !(cmd == FUTEX_WAIT || cmd == FUTEX_WAIT_BITSET || cmd == FUTEX_WAKE || cmd == FUTEX_WAKE_BITSET
                || cmd == FUTEX_REQUEUE) ==> r == Err::<FutexCommand, Errno>(Errno::EINVAL)
        }),
{
    let cmd = op & FUTEX_CMD_MASK;
    let private = op & FUTEX_PRIVATE_FLAG != 0;
    let realtime = op & FUTEX_CLOCK_REALTIME != 0;
    if realtime && (cmd == FUTEX_WAKE || cmd == FUTEX_WAKE_BITSET) {
        return Err(Errno::EPERM);
    }
    if cmd == FUTEX_WAIT {
        Ok(FutexCommand::Wait { bitset: FUTEX_BITSET_MATCH_ANY, private })
    } else if cmd == FUTEX_WAIT_BITSET {
        Ok(FutexCommand::Wait { bitset: val3, private })
    } else if cmd == FUTEX_WAKE {
        Ok(FutexCommand::Wake { bitset: FUTEX_BITSET_MATCH_ANY, private })
    } else if cmd == FUTEX_WAKE_BITSET {
        if val3 == 0 {
            Err(Errno::EINVAL)
        } else {
            Ok(FutexCommand::Wake { bitset: val3, private })
        }
    } else if cmd == FUTEX_REQUEUE {
        Ok(FutexCommand::Requeue { private })
    } else {
        Err(Errno::EINVAL)
    }
}

/// The command of a futex operation word is its bits other than the private
/// and real-time-clock flags: setting either flag never changes it, and a word
/// with neither flag is its own command.
pub proof fn law_futex_cmd_ignores_flags(op: usize)
    ensures
        futex_cmd(op | FUTEX_PRIVATE_FLAG) == futex_cmd(op),
        futex_cmd(op | FUTEX_CLOCK_REALTIME) == futex_cmd(op),
        op & FUTEX_PRIVATE_FLAG == 0 && op & FUTEX_CLOCK_REALTIME == 0 ==> futex_cmd(op) == op,
{
    assert((op | 128usize) & !(128usize | 256usize) == op & !(128usize | 256usize)) by (bit_vector);
    assert((op | 256usize) & !(128usize | 256usize) == op & !(128usize | 256usize)) by (bit_vector);
    assert(op & 128usize == 0 && op & 256usize == 0 ==> op & !(128usize | 256usize) == op) by (bit_vector);
}

} // verus!
