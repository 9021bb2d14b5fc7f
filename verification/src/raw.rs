//! The protocol of a backend, as a run-once value sees it: a slot that is
//! vacant until the one caller that was let in has filled it.

use crate::api::raw::FuseState;
use crate::api::raw::RawFusedState;
use crate::error::PoisonError;
use crate::error::TryLockError;
use vstd::prelude::*;

verus! {

/// What a caller that was let in finds.
#[derive(Clone, Copy, Debug, PartialEq, Eq, Structural)]
pub enum RawOnceState {
    /// Initialisation is neither complete nor in progress: the caller may
    /// initialise.
    Vacant,
    /// Initialisation is complete.
    Occupied,
}

impl RawOnceState {
    /// A slot that may be written is vacant, one that may be read is
    /// occupied.
    pub open spec fn of(access: RawFusedState) -> RawOnceState {
        match access {
            RawFusedState::Write => RawOnceState::Vacant,
            RawFusedState::Read => RawOnceState::Occupied,
        }
    }

    /// What locking returns on a slot in `state`.
    pub open spec fn locked(state: FuseState) -> Result<RawOnceState, TryLockError> {
        match state.acquired() {
            Ok(access) => Ok(RawOnceState::of(access)),
            Err(e) => Err(e),
        }
    }

    /// What locking without waiting returns on a slot in `state`.
    pub open spec fn try_locked(state: FuseState) -> Result<Option<RawOnceState>, PoisonError> {
        match state.try_acquired() {
            Ok(Some(access)) => Ok(Some(RawOnceState::of(access))),
            Ok(None) => Ok(None),
            Err(e) => Err(e),
        }
    }

    /// What a look returns on a slot in `state`.
    pub open spec fn got(state: FuseState) -> Result<RawOnceState, PoisonError> {
        match state.peeked() {
            Ok(access) => Ok(RawOnceState::of(access)),
            Err(e) => Err(e),
        }
    }
}

/// A backend that tracks the state of a slot which lives with the caller,
/// and guards the one initialisation of it. The slot is uninitialised
/// (`Unlocked`), locked by the caller that may initialise it (`Writing`),
/// initialised (`Fused`), or never to be initialised (`Poisoned`).
pub trait RawOnce: Sized {
    /// Where the slot stands.
    spec fn state(&self) -> FuseState;

    /// A backend for a slot that is not initialised.
    fn uninit() -> (r: Self)
        ensures
            r.state() == FuseState::Unlocked,
    ;

    /// A backend for a slot that is initialised.
    fn init() -> (r: Self)
        ensures
            r.state() == FuseState::Fused,
    ;

    /// A backend for a slot that never will be initialised.
    fn poison() -> (r: Self)
        ensures
            r.state() == FuseState::Poisoned,
    ;

    /// Locks the slot. An uninitialised slot is locked and found vacant; an
    /// initialised one is found occupied; a poisoned one reports the
    /// poison; a locked one reports `WouldBlock`.
    fn lock_checked(&mut self) -> (r: Result<RawOnceState, TryLockError>)
        ensures
            r == RawOnceState::locked(old(self).state()),
            final(self).state() == old(self).state().after_acquire(),
    ;

    /// Locks the slot without ever waiting: a locked slot gives `Ok(None)`.
    fn try_lock_checked(&mut self) -> (r: Result<Option<RawOnceState>, PoisonError>)
        ensures
            r == RawOnceState::try_locked(old(self).state()),
            final(self).state() == old(self).state().after_acquire(),
    ;

    /// Looks at the slot and changes nothing. A slot that is locked is not
    /// yet initialised, and found vacant.
    fn get_checked(&self) -> (r: Result<RawOnceState, TryLockError>)
        ensures
            r == (match RawOnceState::got(self.state()) {
                Ok(found) => Ok::<RawOnceState, TryLockError>(found),
                Err(e) => Err(TryLockError::Poisoned(e)),
            }),
    ;

    /// Looks at the slot and changes nothing.
    fn try_get_checked(&self) -> (r: Result<RawOnceState, PoisonError>)
        ensures
            r == RawOnceState::got(self.state()),
    ;

    /// The caller that locked the slot gives it back uninitialised.
    fn unlock_nopoison(&mut self)
        requires
            old(self).state() == FuseState::Writing,
        ensures
            final(self).state() == FuseState::Unlocked,
    ;

    /// The caller that locked the slot gives up.
    fn unlock_poison(&mut self)
        requires
            old(self).state() == FuseState::Writing,
        ensures
            final(self).state() == FuseState::Poisoned,
    ;

    /// The caller that locked the slot has initialised it.
    fn unlock_init(&mut self)
        requires
            old(self).state() == FuseState::Writing,
        ensures
            final(self).state() == FuseState::Fused,
    ;
}

} // verus!
