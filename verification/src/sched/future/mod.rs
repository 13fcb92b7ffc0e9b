pub mod yield_current;
