//! Types that user space shares with the kernel.
pub mod tms;
