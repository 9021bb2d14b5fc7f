//! The backend for values that one thread of execution keeps to itself.

use crate::api::raw::FuseState;
use crate::api::raw::RawFused;
use crate::api::raw::RawFusedState;
use crate::error::PoisonError;
use crate::error::TryLockError;
use vstd::prelude::*;

verus! {

/// The four states of the cell.
#[derive(Copy, Clone, Debug, PartialEq, Eq, Structural)]
pub enum State {
    Uninit,
    Initializing,
    Initialized,
    Poison,
}

/// A fuse without atomics and without waiting. Whoever finds it held has
/// entered it a second time, so a held cell is reported as `WouldBlock`
/// where waiting is allowed and as `Ok(None)` where it is not.
#[derive(Debug)]
pub struct RawFusedCell(pub State);

impl RawFused for RawFusedCell {
    open spec fn state(&self) -> FuseState {
        match self.0 {
            State::Uninit => FuseState::Unlocked,
            State::Initializing => FuseState::Writing,
            State::Initialized => FuseState::Fused,
            State::Poison => FuseState::Poisoned,
        }
    }

    fn unlocked() -> (r: Self) {
        RawFusedCell(State::Uninit)
    }

    fn read() -> (r: Self) {
        RawFusedCell(State::Initialized)
    }

    fn poison() -> (r: Self) {
        RawFusedCell(State::Poison)
    }

    fn write_checked(&mut self) -> (r: Result<RawFusedState, TryLockError>) {
        match self.try_write_checked() {
            Ok(Some(entry)) => Ok(entry),
            Ok(None) => Err(TryLockError::WouldBlock),
            Err(e) => Err(TryLockError::Poisoned(e)),
        }
    }

    fn try_write_checked(&mut self) -> (r: Result<Option<RawFusedState>, PoisonError>) {
        match self.0 {
            State::Uninit => {
                self.0 = State::Initializing;
                Ok(Some(RawFusedState::Write))
            },
            State::Initializing => Ok(None),
            State::Initialized => Ok(Some(RawFusedState::Read)),
            State::Poison => Err(PoisonError),
        }
    }

    fn try_read_checked(&self) -> (r: Result<RawFusedState, PoisonError>) {
        match self.0 {
            State::Uninit => Ok(RawFusedState::Write),
            State::Initializing => Ok(RawFusedState::Write),
            State::Initialized => Ok(RawFusedState::Read),
            State::Poison => Err(PoisonError),
        }
    }

    fn unlock(&mut self) {
        self.0 = State::Uninit;
    }

    fn unlock_poison(&mut self) {
        self.0 = State::Poison;
    }

    fn unlock_fuse(&mut self) {
        self.0 = State::Initialized;
    }

    fn try_get_mut(&mut self) -> (r: Result<RawFusedState, PoisonError>) {
        match self.0 {
            State::Uninit => Ok(RawFusedState::Write),
            State::Initializing => Ok(RawFusedState::Write),
            State::Initialized => Ok(RawFusedState::Read),
            State::Poison => Err(PoisonError),
        }
    }
}

} // verus!
