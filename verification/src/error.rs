//! The failures that an acquisition can report.

use vstd::prelude::*;
use vstd::std_specs::convert::FromSpecImpl;

verus! {

/// The fuse was poisoned: a writer gave up in the middle of its critical
/// section, and the payload will never be handed out.
#[derive(Clone, Copy, Debug, PartialEq, Eq, Structural)]
pub struct PoisonError;

/// Why a checked acquisition did not produce an entry.
#[derive(Clone, Copy, Debug, PartialEq, Eq, Structural)]
pub enum TryLockError {
    /// The fuse is poisoned.
    Poisoned(PoisonError),
    /// The fuse is held for writing and waiting for it cannot succeed: the
    /// caller itself is the holder.
    WouldBlock,
}

impl From<PoisonError> for TryLockError {
    /// The acquisition error that stands for a poison failure.
    fn from(e: PoisonError) -> (r: TryLockError) {
        TryLockError::Poisoned(e)
    }
}

impl FromSpecImpl<PoisonError> for TryLockError {
    open spec fn obeys_from_spec() -> bool {
        true
    }

    open spec fn from_spec(e: PoisonError) -> TryLockError {
        TryLockError::Poisoned(e)
    }
}

} // verus!
