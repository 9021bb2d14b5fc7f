//! Initialise-once and lazily-initialised values built on a *fuse*: a lock
//! that starts out exclusive and mutable and can be turned, once and for
//! all, into a shared read-only value.
//!
//! * [`api::raw`] is the protocol of a fuse: four states, the transitions
//!   between them, and what each acquisition answers in each state.
//! * [`fused`] is the fuse itself, a payload behind a backend. [`once`] is
//!   the run-once value and [`api::lazy`] the lazy value, both built on it.
//!   They are used through exclusive borrows, so that the writer's handle is
//!   the lock: nobody can reach a payload that is being written.
//! * [`cell`] is the backend for one thread of execution, with the
//!   primitives over it; [`unsync`] is a run-once cell that carries its own
//!   state.
//! * [`sync`] is the backend for threads that share a lock: the state word,
//!   the decisions taken on it, one round of an acquisition on the atomic
//!   cell that holds it, and what these guarantee when threads race.
//!
//! An acquisition that would have to wait for the caller itself is reported
//! as an error instead of hanging, and a critical section that fails leaves
//! the fuse poisoned, so that a half-written payload is never handed out.

pub mod api;
pub mod cell;
pub mod error;
pub mod fused;
pub mod once;
pub mod raw;
pub mod sync;
pub mod unsync;
