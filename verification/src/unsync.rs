//! A run-once value for one thread of execution that carries its own state,
//! without a backend to choose.

pub mod once_cell;
