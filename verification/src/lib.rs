//! Verified core of the NoAxiom kernel: signals, task scheduling queues,
//! lock bookkeeping and the logic of its system calls.
pub mod errno;
pub mod signal;
pub mod sched;
pub mod sync;
pub mod task;
pub mod syscall;
pub mod nix;
