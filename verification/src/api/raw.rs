//! The protocol that every backend of a fuse follows.
//!
//! A fuse is in one of four states. It starts `Unlocked`; an acquisition
//! moves it to `Writing`; the writer releases it back to `Unlocked`, or to
//! one of the two states that it never leaves again: `Fused`, in which
//! everybody may read the payload, and `Poisoned`, in which nobody may.

use crate::error::PoisonError;
use crate::error::TryLockError;
use vstd::prelude::*;

verus! {

/// What a caller that was let in may do with the payload.
#[derive(Clone, Copy, Debug, PartialEq, Eq, Structural)]
pub enum RawFusedState {
    /// The payload is still mutable, and the caller is its only writer.
    Write,
    /// The payload is immutable and shared.
    Read,
}

/// Where a fuse stands.
#[derive(Clone, Copy, Debug, PartialEq, Eq, Structural)]
pub enum FuseState {
    /// Nobody holds the fuse, and it is still mutable.
    Unlocked,
    /// One writer holds the fuse.
    Writing,
    /// The fuse is read-only for good.
    Fused,
    /// The fuse has failed for good.
    Poisoned,
}

impl FuseState {
    /// The state never changes again.
    pub open spec fn is_terminal(self) -> bool {
        self == FuseState::Fused || self == FuseState::Poisoned
    }

    /// What an acquisition for writing returns when it cannot wait for the
    /// holder, because the holder is the caller.
    pub open spec fn acquired(self) -> Result<RawFusedState, TryLockError> {
        match self {
            FuseState::Unlocked => Ok(RawFusedState::Write),
            FuseState::Writing => Err(TryLockError::WouldBlock),
            FuseState::Fused => Ok(RawFusedState::Read),
            FuseState::Poisoned => Err(TryLockError::Poisoned(PoisonError)),
        }
    }

    /// What an acquisition for writing returns when it must not wait:
    /// `Ok(None)` says that the fuse is held.
    pub open spec fn try_acquired(self) -> Result<Option<RawFusedState>, PoisonError> {
        match self {
            FuseState::Unlocked => Ok(Some(RawFusedState::Write)),
            FuseState::Writing => Ok(None),
            FuseState::Fused => Ok(Some(RawFusedState::Read)),
            FuseState::Poisoned => Err(PoisonError),
        }
    }

    /// What a look at the fuse returns: `Read` once it is fused, `Write`
    /// while it is not yet readable.
    pub open spec fn peeked(self) -> Result<RawFusedState, PoisonError> {
        match self {
            FuseState::Unlocked => Ok(RawFusedState::Write),
            FuseState::Writing => Ok(RawFusedState::Write),
            FuseState::Fused => Ok(RawFusedState::Read),
            FuseState::Poisoned => Err(PoisonError),
        }
    }

    /// The state that an acquisition for writing leaves behind: a free fuse
    /// is now held, every other state stays.
    pub open spec fn after_acquire(self) -> FuseState {
        match self {
            FuseState::Unlocked => FuseState::Writing,
            s => s,
        }
    }
}

/// One writer at a time, and no waiting for oneself: the acquisition that
/// lets a writer in leaves the fuse held, and while it is held a second
/// acquisition is refused, with `WouldBlock` where waiting is allowed and
/// with `Ok(None)` where it is not.
pub proof fn lemma_writer_is_alone(state: FuseState)
    requires
        state.acquired() == Ok::<RawFusedState, TryLockError>(RawFusedState::Write),
    ensures
        state == FuseState::Unlocked,
        state.after_acquire() == FuseState::Writing,
        state.after_acquire().acquired() == Err::<RawFusedState, TryLockError>(
            TryLockError::WouldBlock,
        ),
        state.after_acquire().try_acquired() == Ok::<Option<RawFusedState>, PoisonError>(None),
        state.after_acquire().peeked() == Ok::<RawFusedState, PoisonError>(RawFusedState::Write),
{
}

/// A fused and a poisoned fuse never change again: no acquisition moves
/// them, and no release is allowed on them, since a release takes a fuse
/// that is held.
pub proof fn lemma_terminal_states_stay(state: FuseState)
    requires
        state.is_terminal(),
    ensures
        state.after_acquire() == state,
        state != FuseState::Writing,
{
}

/// Every access to a poisoned fuse reports the poison, and none is let in to
/// read or to write.
pub proof fn lemma_poison_is_told(state: FuseState)
    ensures
        state == FuseState::Poisoned <==> state.acquired() == Err::<RawFusedState, TryLockError>(
            TryLockError::Poisoned(PoisonError),
        ),
        state == FuseState::Poisoned <==> state.try_acquired() is Err,
        state == FuseState::Poisoned <==> state.peeked() is Err,
        state == FuseState::Poisoned ==> state.after_acquire() == FuseState::Poisoned,
{
}

/// The payload is readable exactly when the fuse is fused.
pub proof fn lemma_read_means_fused(state: FuseState)
    ensures
        state == FuseState::Fused <==> state.acquired() == Ok::<RawFusedState, TryLockError>(
            RawFusedState::Read,
        ),
        state == FuseState::Fused <==> state.try_acquired() == Ok::<
            Option<RawFusedState>,
            PoisonError,
        >(Some(RawFusedState::Read)),
        state == FuseState::Fused <==> state.peeked() == Ok::<RawFusedState, PoisonError>(
            RawFusedState::Read,
        ),
{
}

/// A backend: the state of one fuse and its transitions. The payload that
/// the fuse guards lives with the caller.
pub trait RawFused: Sized {
    /// Where the fuse stands.
    spec fn state(&self) -> FuseState;

    /// A fuse that nobody holds.
    fn unlocked() -> (r: Self)
        ensures
            r.state() == FuseState::Unlocked,
    ;

    /// A fuse that is already read-only.
    fn read() -> (r: Self)
        ensures
            r.state() == FuseState::Fused,
    ;

    /// A fuse that is already poisoned.
    fn poison() -> (r: Self)
        ensures
            r.state() == FuseState::Poisoned,
    ;

    /// Acquires the fuse for writing. A free fuse becomes held and the
    /// caller its writer; a fused one lets the caller read; a poisoned one
    /// reports the poison; one that is held reports `WouldBlock`.
    fn write_checked(&mut self) -> (r: Result<RawFusedState, TryLockError>)
        ensures
            r == old(self).state().acquired(),
            final(self).state() == old(self).state().after_acquire(),
    ;

    /// Acquires the fuse for writing without ever waiting: on a held fuse
    /// the answer is `Ok(None)`.
    fn try_write_checked(&mut self) -> (r: Result<Option<RawFusedState>, PoisonError>)
        ensures
            r == old(self).state().try_acquired(),
            final(self).state() == old(self).state().after_acquire(),
    ;

    /// Looks at the fuse and changes nothing.
    fn try_read_checked(&self) -> (r: Result<RawFusedState, PoisonError>)
        ensures
            r == self.state().peeked(),
    ;

    /// The writer gives the fuse back, still mutable.
    fn unlock(&mut self)
        requires
            old(self).state() == FuseState::Writing,
        ensures
            final(self).state() == FuseState::Unlocked,
    ;

    /// The writer gives up: the fuse is poisoned.
    fn unlock_poison(&mut self)
        requires
            old(self).state() == FuseState::Writing,
        ensures
            final(self).state() == FuseState::Poisoned,
    ;

    /// The writer is done: the fuse is read-only from now on.
    fn unlock_fuse(&mut self)
        requires
            old(self).state() == FuseState::Writing,
        ensures
            final(self).state() == FuseState::Fused,
    ;

    /// Looks at a fuse that the caller owns alone.
    fn try_get_mut(&mut self) -> (r: Result<RawFusedState, PoisonError>)
        ensures
            r == old(self).state().peeked(),
            final(self).state() == old(self).state(),
    ;
}

} // verus!
