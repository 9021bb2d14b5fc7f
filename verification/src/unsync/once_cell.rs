//! The run-once cell.

use crate::api::raw::FuseState;
use crate::api::raw::RawFusedState;
use crate::cell::raw_fused_cell::State;
use crate::error::PoisonError;
use crate::error::TryLockError;
use crate::fused::owned;
use crate::once::deref;
use crate::once::OnceView;
use vstd::prelude::*;
use vstd::std_specs::convert::FromSpecImpl;

verus! {

/// Where a cell in `state` stands.
pub open spec fn phase(state: State) -> FuseState {
    match state {
        State::Uninit => FuseState::Unlocked,
        State::Initializing => FuseState::Writing,
        State::Initialized => FuseState::Fused,
        State::Poison => FuseState::Poisoned,
    }
}

/// A cell that is written at most once: a state and the slot for the value.
pub struct OnceCell<T> {
    state: State,
    value: Option<T>,
}

/// The writer's handle on a cell. `init` stores the value and `poison`
/// marks the cell as failed; a handle that is merely dropped leaves the
/// cell held, and every later attempt to lock it reports `WouldBlock`.
pub struct OnceCellGuard<'a, T> {
    once: &'a mut OnceCell<T>,
}

/// What locking a cell hands out.
pub enum OnceCellEntry<'a, T> {
    /// The value is there, and this is it.
    Occupied(&'a T),
    /// The value is not there yet, and the caller is the one to write it.
    Vacant(OnceCellGuard<'a, T>),
}

impl<T> View for OnceCell<T> {
    type V = OnceView<T>;

    closed spec fn view(&self) -> OnceView<T> {
        match (self.state, self.value) {
            (State::Initialized, Some(value)) => OnceView::written(value),
            (State::Initialized, None) => OnceView::poisoned(),
            (state, _) => OnceView { state: phase(state), value: None },
        }
    }
}

impl<'a, T> OnceCellEntry<'a, T> {
    /// What the entry lets its holder do.
    pub open spec fn kind(self) -> RawFusedState {
        match self {
            OnceCellEntry::Occupied(_) => RawFusedState::Read,
            OnceCellEntry::Vacant(_) => RawFusedState::Write,
        }
    }
}

/// What locking let the caller do, without the entry itself.
pub open spec fn granted<'a, T>(r: Result<OnceCellEntry<'a, T>, TryLockError>) -> Result<
    RawFusedState,
    TryLockError,
> {
    match r {
        Ok(entry) => Ok(entry.kind()),
        Err(e) => Err(e),
    }
}

impl<'a, T> OnceCellGuard<'a, T> {
    #[verifier::type_invariant]
    spec fn held(self) -> bool {
        self.once.state == State::Initializing
    }

    /// The borrow of the cell that the handle holds.
    pub closed spec fn target(self) -> &'a mut OnceCell<T> {
        self.once
    }

    /// A handle that is never used again leaves the cell as it is now:
    /// held.
    pub proof fn lemma_abandoned(self)
        requires
            has_resolved(self),
        ensures
            *final(self.target()) == *self.target(),
    {
    }

    /// Stores `x` and makes it readable for good.
    pub fn init(self, x: T) -> (r: &'a T)
        ensures
            *r == x,
            final(self.target())@ == OnceView::written(x),
    {
        let OnceCellGuard { once } = self;
        once.value = Some(x);
        once.state = State::Initialized;
        match &once.value {
            Some(stored) => stored,
            None => vstd::pervasive::unreached(),
        }
    }

    /// Marks the cell as failed: no caller will ever read or write it.
    pub fn poison(self)
        ensures
            final(self.target())@ == OnceView::<T>::poisoned(),
    {
        let OnceCellGuard { once } = self;
        once.state = State::Poison;
    }
}

impl<T> OnceCell<T> {
    /// What an entry that was handed out on `self` carries, and how the cell
    /// is left. The writer's handle borrows the cell, now held: the cell
    /// will be what the handle makes of it. The value that is handed out is
    /// the one that was written, and the cell stays as it is.
    pub open spec fn hands_out(self, entry: OnceCellEntry<'_, T>, after: Self) -> bool {
        match entry {
            OnceCellEntry::Vacant(guard) => guard.target()@.state == FuseState::Writing,
            OnceCellEntry::Occupied(x) => Some(*x) == self@.value && after@ == self@,
        }
    }

    /// A cell that is not written yet.
    pub fn new() -> (r: Self)
        ensures
            r@ == OnceView::<T>::vacant(),
    {
        OnceCell { state: State::Uninit, value: None }
    }

    /// A cell that is poisoned from the start.
    pub fn poisoned() -> (r: Self)
        ensures
            r@ == OnceView::<T>::poisoned(),
    {
        OnceCell { state: State::Poison, value: None }
    }

    /// The value if it is written; `Ok(None)` if it is not. Changes nothing
    /// and never runs an initialiser.
    pub fn get_checked(&self) -> (r: Result<Option<&T>, PoisonError>)
        ensures
            match self@.state.peeked() {
                Ok(_) => r matches Ok(x) && deref(x) == self@.value,
                Err(e) => r matches Err(f) && f == e,
            },
    {
        match self.state {
            State::Initialized => match &self.value {
                Some(x) => Ok(Some(x)),
                None => Err(PoisonError),
            },
            State::Poison => Err(PoisonError),
            _ => Ok(None),
        }
    }

    /// Locks the cell for writing. An unwritten cell hands out the writer's
    /// handle and is held from then on; a written one hands out the value;
    /// a poisoned one reports the poison; one that is held reports
    /// `WouldBlock`, since the holder can only be the caller.
    pub fn lock_checked(&mut self) -> (r: Result<OnceCellEntry<'_, T>, TryLockError>)
        ensures
            granted(r) == old(self)@.state.acquired(),
            match r {
                Ok(OnceCellEntry::Vacant(guard)) => old(self).hands_out(
                    OnceCellEntry::Vacant(guard),
                    *final(self),
                ) && *final(self) == *final(guard.target()),
                Ok(entry) => old(self).hands_out(entry, *final(self)),
                Err(_) => final(self)@ == old(self)@,
            },
    {
        match self.state {
            State::Uninit => {
                self.state = State::Initializing;
                Ok(OnceCellEntry::Vacant(OnceCellGuard { once: self }))
            },
            State::Initializing => Err(TryLockError::WouldBlock),
            State::Initialized => match &self.value {
                Some(x) => Ok(OnceCellEntry::Occupied(x)),
                None => Err(TryLockError::Poisoned(PoisonError)),
            },
            State::Poison => Err(TryLockError::Poisoned(PoisonError)),
        }
    }

    /// The value, written now if it was not written before. On an unwritten
    /// cell `init` is run, once, and what it returns is stored and returned.
    /// On a written cell `init` is not run, and the value that is there is
    /// returned. A poisoned cell reports the poison and a held one
    /// `WouldBlock`; both stay as they are. The cell is marked as poisoned
    /// while `init` runs: if `init` never comes back, so it stays.
    pub fn get_or_init_checked<F: FnOnce() -> T>(&mut self, init: F) -> (r: Result<
        &T,
        TryLockError,
    >)
        requires
            old(self)@.state == FuseState::Unlocked ==> call_requires(init, ()),
        ensures
            old(self)@.get_or_init(|x: T| call_ensures(init, (), x), owned(r), final(self)@),
    {
        match self.lock_checked() {
            Ok(OnceCellEntry::Vacant(guard)) => {
                let OnceCellGuard { once } = guard;
                once.state = State::Poison;
                once.value = Some(init());
                once.state = State::Initialized;
                match &once.value {
                    Some(stored) => Ok(stored),
                    None => vstd::pervasive::unreached(),
                }
            },
            Ok(OnceCellEntry::Occupied(x)) => Ok(x),
            Err(e) => Err(e),
        }
    }

    /// Takes the value out: the value if it was written, nothing if it was
    /// not; a poisoned cell reports the poison.
    pub fn into_inner_checked(self) -> (r: Result<Option<T>, PoisonError>)
        ensures
            match self@.state.peeked() {
                Ok(_) => r == Ok::<Option<T>, PoisonError>(self@.value),
                Err(e) => r == Err::<Option<T>, PoisonError>(e),
            },
    {
        match self.state {
            State::Uninit => Ok(None),
            State::Initializing => Ok(None),
            State::Initialized => match self.value {
                Some(x) => Ok(Some(x)),
                None => Err(PoisonError),
            },
            State::Poison => Err(PoisonError),
        }
    }

    /// The value if it is written, where the caller knows that the cell is
    /// not poisoned.
    pub fn get(&self) -> (r: Option<&T>)
        requires
            self@.state.peeked() is Ok,
        ensures
            deref(r) == self@.value,
    {
        match self.get_checked() {
            Ok(x) => x,
            Err(_) => vstd::pervasive::unreached(),
        }
    }

    /// Locks the cell for writing, where the caller knows that it is
    /// neither poisoned nor held.
    pub fn lock(&mut self) -> (r: OnceCellEntry<'_, T>)
        requires
            old(self)@.state.acquired() is Ok,
        ensures
            Ok::<RawFusedState, TryLockError>(r.kind()) == old(self)@.state.acquired(),
            match r {
                OnceCellEntry::Vacant(guard) => old(self).hands_out(
                    OnceCellEntry::Vacant(guard),
                    *final(self),
                ) && *final(self) == *final(guard.target()),
                entry => old(self).hands_out(entry, *final(self)),
            },
    {
        match self.lock_checked() {
            Ok(entry) => entry,
            Err(_) => vstd::pervasive::unreached(),
        }
    }

    /// The value, written now if it was not written before, where the
    /// caller knows that the cell is neither poisoned nor held.
    pub fn get_or_init<F: FnOnce() -> T>(&mut self, init: F) -> (r: &T)
        requires
            old(self)@.state.acquired() is Ok,
            old(self)@.state == FuseState::Unlocked ==> call_requires(init, ()),
        ensures
            old(self)@.get_or_init(|x: T| call_ensures(init, (), x), Ok(*r), final(self)@),
    {
        match self.get_or_init_checked(init) {
            Ok(x) => x,
            Err(_) => vstd::pervasive::unreached(),
        }
    }

    /// Takes the value out, where the caller knows that the cell is not
    /// poisoned.
    pub fn into_inner(self) -> (r: Option<T>)
        requires
            self@.state.peeked() is Ok,
        ensures
            r == self@.value,
    {
        match self.into_inner_checked() {
            Ok(x) => x,
            Err(_) => vstd::pervasive::unreached(),
        }
    }
}

impl<T> From<T> for OnceCell<T> {
    /// A cell that is written from the start, with `x`.
    fn from(x: T) -> (r: Self)
        ensures
            r@ == OnceView::written(x),
    {
        OnceCell { state: State::Initialized, value: Some(x) }
    }
}

impl<T> FromSpecImpl<T> for OnceCell<T> {
    open spec fn obeys_from_spec() -> bool {
        false
    }

    open spec fn from_spec(v: T) -> Self {
        arbitrary()
    }
}

impl<T: Clone> Clone for OnceCell<T> {
    /// A cell of its own: written, with a clone of the value, if this one
    /// is written; poisoned if this one is poisoned; unwritten otherwise,
    /// also where this one is held by its writer.
    fn clone(&self) -> (r: Self)
        ensures
            r@.state == (match self@.state {
                FuseState::Fused => FuseState::Fused,
                FuseState::Poisoned => FuseState::Poisoned,
                _ => FuseState::Unlocked,
            }),
            match self@.value {
                Some(x) => r@.value matches Some(y) && call_ensures(T::clone, (&x,), y),
                None => r@.value is None,
            },
    {
        match self.get_checked() {
            Ok(Some(x)) => OnceCell::from(x.clone()),
            Ok(None) => OnceCell::new(),
            Err(_) => OnceCell::poisoned(),
        }
    }
}

impl<T> Default for OnceCell<T> {
    /// A cell that is not written yet.
    fn default() -> (r: Self)
        ensures
            r@ == OnceView::<T>::vacant(),
    {
        OnceCell::new()
    }
}

} // verus!
