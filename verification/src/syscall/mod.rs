//! System calls: the checks and state changes of each call on the state of
//! the calling task and of the other tasks.
pub mod syscall;
pub mod process;
pub mod credentials;
pub mod signal;
pub mod fs;
pub mod mm;
pub mod sched;
pub mod net;
pub mod sys_args;
pub mod io;
pub mod futex;
pub mod syscall_id;
pub mod utils;
pub mod dispatch;
pub mod others;
pub mod time;
