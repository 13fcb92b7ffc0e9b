//! Synchronisation helpers.
pub mod cell;
pub mod mutex;
