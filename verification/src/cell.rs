//! The single-thread backend, and the primitives built on it. Nothing here
//! waits: a fuse that is found held is held by the caller.

pub mod once_cell;
pub mod raw_fused_cell;

use crate::api::lazy::Lazy;
use crate::cell::raw_fused_cell::RawFusedCell;
use crate::fused::Fused;
use crate::once::Once;
use vstd::prelude::*;

verus! {

/// A run-once value for one thread.
pub type OnceCell<T> = Once<RawFusedCell, T>;

/// A lazy value for one thread.
pub type LazyCell<T, F> = Lazy<RawFusedCell, T, F>;

/// A fuse for one thread.
pub type FusedCell<T> = Fused<RawFusedCell, T>;

} // verus!
