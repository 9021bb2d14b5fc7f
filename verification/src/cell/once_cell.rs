//! The backend of a run-once slot that one thread of execution keeps to
//! itself.

use crate::api::raw::FuseState;
use crate::cell::raw_fused_cell::State;
use crate::error::PoisonError;
use crate::error::TryLockError;
use crate::raw::RawOnce;
use crate::raw::RawOnceState;
use vstd::prelude::*;

verus! {

/// The state of one slot, without atomics and without waiting. Whoever
/// finds the slot locked has entered it a second time.
#[derive(Debug)]
pub struct RawOnceCell(pub State);

impl RawOnce for RawOnceCell {
    open spec fn state(&self) -> FuseState {
        match self.0 {
            State::Uninit => FuseState::Unlocked,
            State::Initializing => FuseState::Writing,
            State::Initialized => FuseState::Fused,
            State::Poison => FuseState::Poisoned,
        }
    }

    fn uninit() -> (r: Self) {
        RawOnceCell(State::Uninit)
    }

    fn init() -> (r: Self) {
        RawOnceCell(State::Initialized)
    }

    fn poison() -> (r: Self) {
        RawOnceCell(State::Poison)
    }

    fn lock_checked(&mut self) -> (r: Result<RawOnceState, TryLockError>) {
        match self.try_lock_checked() {
            Ok(Some(found)) => Ok(found),
            Ok(None) => Err(TryLockError::WouldBlock),
            Err(e) => Err(TryLockError::Poisoned(e)),
        }
    }

    fn try_lock_checked(&mut self) -> (r: Result<Option<RawOnceState>, PoisonError>) {
        match self.0 {
            State::Uninit => {
                self.0 = State::Initializing;
                Ok(Some(RawOnceState::Vacant))
            },
            State::Initializing => Ok(None),
            State::Initialized => Ok(Some(RawOnceState::Occupied)),
            State::Poison => Err(PoisonError),
        }
    }

    fn get_checked(&self) -> (r: Result<RawOnceState, TryLockError>) {
        match self.try_get_checked() {
            Ok(found) => Ok(found),
            Err(e) => Err(TryLockError::Poisoned(e)),
        }
    }

    fn try_get_checked(&self) -> (r: Result<RawOnceState, PoisonError>) {
        match self.0 {
            State::Uninit => Ok(RawOnceState::Vacant),
            State::Initializing => Ok(RawOnceState::Vacant),
            State::Initialized => Ok(RawOnceState::Occupied),
            State::Poison => Err(PoisonError),
        }
    }

    fn unlock_nopoison(&mut self) {
        self.0 = State::Uninit;
    }

    fn unlock_init(&mut self) {
        self.0 = State::Initialized;
    }

    fn unlock_poison(&mut self) {
        self.0 = State::Poison;
    }
}

} // verus!
