//! Signals: numbers, masks, actions, pending queues and alternate stacks.
pub mod signal;
pub mod sig_set;
pub mod sig_action;
pub mod sa_list;
pub mod sig_detail;
pub mod sig_info;
pub mod sig_pending;
pub mod sig_stack;
pub mod ucontext;
pub mod interruptable;
pub mod sig_control_block;
