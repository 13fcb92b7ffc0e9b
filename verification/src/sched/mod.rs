//! Task scheduling: scheduling state, run queues and load balancing.
pub mod sched_entity;
pub mod sched_info;
pub mod vsched;
pub mod scheduler;
pub mod simple;
pub mod cfs;
pub mod multicore;
pub mod executor;
pub mod mailbox;
pub mod future;
pub mod task;
pub mod utask;
pub mod task_counter;
