//! The run-once value: a slot that starts out empty, is filled by one
//! writer, and holds that value for ever after.

use crate::api::raw::FuseState;
use crate::api::raw::RawFused;
use crate::api::raw::RawFusedState;
use crate::error::PoisonError;
use crate::error::TryLockError;
use crate::fused::Fused;
use crate::fused::FusedEntry;
use crate::fused::FusedGuard;
use crate::fused::FusedView;
use crate::fused::owned;
use vstd::prelude::*;
use vstd::std_specs::convert::FromSpecImpl;

verus! {

/// What the fuse of a run-once value guards.
pub enum Slot<T> {
    /// Nothing yet.
    Empty,
    /// The value that was written.
    Value(T),
    /// Nothing, and for good: an initialiser was started on the slot and
    /// has not filled it.
    Poisoned,
}

/// What a run-once value is: where it stands, and the value that can be
/// read from it.
pub struct OnceView<T> {
    pub state: FuseState,
    pub value: Option<T>,
}

impl<T> OnceView<T> {
    /// A run-once value that is not written yet.
    pub open spec fn vacant() -> Self {
        OnceView { state: FuseState::Unlocked, value: None }
    }

    /// A run-once value that holds `value`.
    pub open spec fn written(value: T) -> Self {
        OnceView { state: FuseState::Fused, value: Some(value) }
    }

    /// A run-once value that is poisoned.
    pub open spec fn poisoned() -> Self {
        OnceView { state: FuseState::Poisoned, value: None }
    }

    /// The run-once value that lives in a fuse `fuse` over a slot. The fuse
    /// is free exactly while the slot is empty, and fused exactly when the
    /// value is in it; a fuse and a slot that disagree on that can never
    /// yield a value, and count as poisoned. So does a slot on which an
    /// initialiser was started that never came back.
    pub open spec fn of(fuse: FusedView<Slot<T>>) -> Self {
        match (fuse.state, fuse.value) {
            (FuseState::Unlocked, Slot::Empty) => OnceView::vacant(),
            (FuseState::Fused, Slot::Value(value)) => OnceView::written(value),
            _ => OnceView::poisoned(),
        }
    }

    /// What getting the value, after writing it if need be, does to a
    /// run-once value that was `self`: it returns `result` and leaves the
    /// run-once value as `after`. `init_returns(x)` says that the
    /// initialiser may return `x`. Only an unwritten value is written, with
    /// what the initialiser returns; a written one hands out the value it
    /// has; one that lets nobody in reports why, and stays as it is.
    pub open spec fn get_or_init(
        self,
        init_returns: spec_fn(T) -> bool,
        result: Result<T, TryLockError>,
        after: Self,
    ) -> bool {
        match self.state.acquired() {
            Ok(RawFusedState::Write) => result matches Ok(x) && init_returns(x) && after
                == OnceView::written(x),
            Ok(RawFusedState::Read) => result matches Ok(x) && self.value == Some(x) && after
                == self,
            Err(e) => result == Err::<T, TryLockError>(e) && after == self,
        }
    }
}

/// Of two calls that get the value, the second returns what the first
/// returned and runs no initialiser: whatever the second initialiser would
/// return, the value and the state are those that the first call left.
pub proof fn lemma_get_or_init_idempotent<T>(
    fresh: OnceView<T>,
    first_returns: spec_fn(T) -> bool,
    first: Result<T, TryLockError>,
    written: OnceView<T>,
    second_returns: spec_fn(T) -> bool,
    second: Result<T, TryLockError>,
    last: OnceView<T>,
)
    requires
        fresh.get_or_init(first_returns, first, written),
        first is Ok,
        written.get_or_init(second_returns, second, last),
    ensures
        written.state == FuseState::Fused,
        second == first,
        last == written,
{
}

/// A poisoned run-once value stays poisoned: getting its value reports the
/// poison, runs no initialiser and hands out no value.
pub proof fn lemma_get_or_init_poisoned<T>(
    poisoned: OnceView<T>,
    init_returns: spec_fn(T) -> bool,
    result: Result<T, TryLockError>,
    after: OnceView<T>,
)
    requires
        poisoned.state == FuseState::Poisoned,
        poisoned.get_or_init(init_returns, result, after),
    ensures
        result == Err::<T, TryLockError>(TryLockError::Poisoned(PoisonError)),
        after == poisoned,
{
}

/// A value that is written at most once. It is a fuse over a slot that is
/// empty until the one writer fills it and fuses it in the same step.
pub struct Once<R: RawFused, T> {
    fused: Fused<R, Slot<T>>,
}

/// What locking a run-once value hands out.
pub enum OnceEntry<'a, R: RawFused, T> {
    /// The value is there, and this is it.
    Occupied(&'a T),
    /// The value is not there yet, and the caller is the one to write it.
    Vacant(OnceGuard<'a, R, T>),
}

/// The writer's handle on a run-once value. `init` stores the value and
/// `poison` marks the run-once value as failed; a handle that is dropped, or
/// given back with `unlock`, leaves the value unwritten for a later writer.
pub struct OnceGuard<'a, R: RawFused, T>(FusedGuard<'a, R, Slot<T>>);

impl<R: RawFused, T> View for Once<R, T> {
    type V = OnceView<T>;

    closed spec fn view(&self) -> OnceView<T> {
        OnceView::of(self.fused@)
    }
}

impl<'a, R: RawFused, T> OnceEntry<'a, R, T> {
    /// What the entry lets its holder do.
    pub open spec fn kind(self) -> RawFusedState {
        match self {
            OnceEntry::Occupied(_) => RawFusedState::Read,
            OnceEntry::Vacant(_) => RawFusedState::Write,
        }
    }
}

/// What locking let the caller do, without the entry itself.
pub open spec fn granted<'a, R: RawFused, T>(
    r: Result<OnceEntry<'a, R, T>, TryLockError>,
) -> Result<RawFusedState, TryLockError> {
    match r {
        Ok(entry) => Ok(entry.kind()),
        Err(e) => Err(e),
    }
}

/// What locking without waiting let the caller do, without the entry
/// itself.
pub open spec fn try_granted<'a, R: RawFused, T>(
    r: Result<Option<OnceEntry<'a, R, T>>, TryLockError>,
) -> Result<Option<RawFusedState>, PoisonError> {
    match r {
        Ok(Some(entry)) => Ok(Some(entry.kind())),
        Ok(None) => Ok(None),
        Err(_) => Err(PoisonError),
    }
}

impl<'a, R: RawFused, T> OnceGuard<'a, R, T> {
    /// The borrow of the fuse that the handle holds.
    pub closed spec fn target(self) -> &'a mut Fused<R, Slot<T>> {
        self.0.target()
    }

    /// A handle that is dropped leaves the fuse as it is seen through the
    /// handle: free, and the value unwritten.
    pub proof fn lemma_abandoned(self)
        requires
            has_resolved(self),
        ensures
            *final(self.target()) == *self.target(),
    {
        self.0.lemma_abandoned();
    }

    /// Stores `value` and makes it readable for good.
    pub fn init(self, value: T) -> (r: &'a T)
        ensures
            *r == value,
            final(self.target())@ == FusedView::new(FuseState::Fused, Slot::Value(value)),
    {
        let OnceGuard(guard) = self;
        let mut guard = guard;
        *guard = Slot::Value(value);
        match guard.fuse() {
            Slot::Value(stored) => stored,
            _ => vstd::pervasive::unreached(),
        }
    }

    /// Marks the slot before an initialiser is started on it. If the
    /// initialiser never comes back, the mark stays, and the run-once value
    /// is poisoned.
    fn arm(&mut self)
        ensures
            final(self).target()@ == FusedView::new(FuseState::Unlocked, Slot::<T>::Poisoned),
            *final(final(self).target()) == *final(old(self).target()),
    {
        *self.0 = Slot::Poisoned;
    }

    /// Gives the value back unwritten, as dropping the handle does: a later
    /// caller may write it.
    pub fn unlock(self)
        ensures
            final(self.target())@ == FusedView::new(FuseState::Unlocked, self.target().value()),
    {
        let OnceGuard(guard) = self;
        guard.unlock();
    }

    /// Marks the value as failed: no caller will ever read or write it.
    pub fn poison(self)
        ensures
            final(self.target())@ == FusedView::new(FuseState::Poisoned, self.target().value()),
    {
        let OnceGuard(guard) = self;
        guard.poison();
    }
}

impl<'a, R: RawFused, T> OnceEntry<'a, R, T> {
    /// The value. If the entry is the writer's handle, `value` is run, once,
    /// and what it returns is stored; if the value is there already, `value`
    /// is not run. The slot is marked while `value` runs: if `value` never
    /// comes back the run-once value is poisoned.
    pub fn or_init<F: FnOnce() -> T>(self, value: F) -> (r: &'a T)
        requires
            self is Vacant ==> call_requires(value, ()),
        ensures
            match self {
                OnceEntry::Occupied(x) => r == x,
                OnceEntry::Vacant(guard) => call_ensures(value, (), *r) && final(guard.target())@
                    == FusedView::new(FuseState::Fused, Slot::Value(*r)),
            },
    {
        match self {
            OnceEntry::Occupied(x) => x,
            OnceEntry::Vacant(guard) => {
                let mut guard = guard;
                guard.arm();
                let produced = value();
                guard.init(produced)
            },
        }
    }
}

impl<R: RawFused, T> Once<R, T> {
    /// Where the value stands: `Unlocked` while it is unwritten, `Fused` once
    /// it is written, `Poisoned` when it never will be.
    pub open spec fn state(&self) -> FuseState {
        self@.state
    }

    /// The value, once it is written.
    pub open spec fn value(&self) -> Option<T> {
        self@.value
    }

    /// The run-once value is the one that lives in the fuse `fuse`.
    pub open spec fn lives_in(self, fuse: Fused<R, Slot<T>>) -> bool {
        self@ == OnceView::of(fuse@)
    }

    /// What an entry that was handed out on `self` carries, and how the
    /// run-once value is left. The writer's handle borrows the fuse of the
    /// run-once value as it was: the run-once value will be what the handle
    /// makes of it. The value that is handed out is the one that was
    /// written, and the run-once value stays as it is.
    pub open spec fn hands_out(self, entry: OnceEntry<'_, R, T>, after: Self) -> bool {
        match entry {
            OnceEntry::Vacant(guard) => self.lives_in(*guard.target()),
            OnceEntry::Occupied(x) => Some(*x) == self.value() && after@ == self@,
        }
    }

    /// A run-once value that can be looked at is never held.
    pub proof fn lemma_never_held(self)
        ensures
            self.state() != FuseState::Writing,
            self.state().acquired() is Err ==> self.state() == FuseState::Poisoned,
            self.state().try_acquired() matches Ok(access) ==> access is Some,
    {
        self.fused.lemma_never_held();
    }

    /// A value can be read exactly when the state is `Fused`.
    pub proof fn lemma_value_iff_fused(self)
        ensures
            self.value() is Some <==> self.state() == FuseState::Fused,
    {
    }

    /// The entry for the writer whose handle on the fuse is `guard`: the
    /// handle on the run-once value if the slot is empty. A slot that is not
    /// was left by an initialiser that never came back: the fuse is
    /// poisoned, for every later caller to see.
    fn vacant<'a>(guard: FusedGuard<'a, R, Slot<T>>) -> (r: Result<
        OnceEntry<'a, R, T>,
        TryLockError,
    >)
        requires
            guard.target()@.state == FuseState::Unlocked,
        ensures
            match r {
                Ok(OnceEntry::Vacant(handle)) => guard.target()@.value is Empty
                    && handle.target() == guard.target(),
                Ok(_) => false,
                Err(e) => !(guard.target()@.value is Empty) && e == TryLockError::Poisoned(
                    PoisonError,
                ) && final(guard.target())@.state == FuseState::Poisoned,
            },
    {
        match &*guard {
            Slot::Empty => Ok(OnceEntry::Vacant(OnceGuard(guard))),
            _ => {
                guard.poison();
                Err(TryLockError::Poisoned(PoisonError))
            },
        }
    }

    /// A run-once value that is not written yet.
    pub fn new() -> (r: Self)
        ensures
            r@ == OnceView::<T>::vacant(),
    {
        Once { fused: Fused::new(Slot::Empty) }
    }

    /// A run-once value that is poisoned from the start.
    pub fn poisoned() -> (r: Self)
        ensures
            r@ == OnceView::<T>::poisoned(),
    {
        Once { fused: Fused::poisoned(Slot::Empty) }
    }

    /// Locks the value for writing. An unwritten value hands out the
    /// writer's handle; a written one hands out the value; a poisoned one
    /// reports the poison. The caller never waits and is never refused for
    /// contention: it has the run-once value to itself.
    pub fn lock_checked(&mut self) -> (r: Result<OnceEntry<'_, R, T>, TryLockError>)
        ensures
            granted(r) == old(self).state().acquired(),
            match r {
                Ok(OnceEntry::Vacant(guard)) => old(self).hands_out(
                    OnceEntry::Vacant(guard),
                    *final(self),
                ) && final(self).lives_in(*final(guard.target())),
                Ok(entry) => old(self).hands_out(entry, *final(self)),
                Err(_) => final(self)@ == old(self)@,
            },
    {
        proof {
            self.fused.lemma_never_held();
        }
        match self.fused.write_checked() {
            Ok(FusedEntry::Write(guard)) => Self::vacant(guard),
            Ok(FusedEntry::Read(Slot::Value(x))) => Ok(OnceEntry::Occupied(x)),
            Ok(FusedEntry::Read(_)) => Err(TryLockError::Poisoned(PoisonError)),
            Err(e) => Err(e),
        }
    }

    /// Locks the value for writing, where the caller knows that it is not
    /// poisoned.
    pub fn lock(&mut self) -> (r: OnceEntry<'_, R, T>)
        requires
            old(self).state().acquired() is Ok,
        ensures
            Ok::<RawFusedState, TryLockError>(r.kind()) == old(self).state().acquired(),
            match r {
                OnceEntry::Vacant(guard) => old(self).hands_out(
                    OnceEntry::Vacant(guard),
                    *final(self),
                ) && final(self).lives_in(*final(guard.target())),
                entry => old(self).hands_out(entry, *final(self)),
            },
    {
        match self.lock_checked() {
            Ok(entry) => entry,
            Err(_) => vstd::pervasive::unreached(),
        }
    }

    /// Locks the value for writing without ever waiting. `Ok(None)` would
    /// say that the value is held by another; the caller has it to itself,
    /// and is always handed an entry.
    pub fn try_lock_checked(&mut self) -> (r: Result<Option<OnceEntry<'_, R, T>>, TryLockError>)
        ensures
            try_granted(r) == old(self).state().try_acquired(),
            match r {
                Ok(Some(OnceEntry::Vacant(guard))) => old(self).hands_out(
                    OnceEntry::Vacant(guard),
                    *final(self),
                ) && final(self).lives_in(*final(guard.target())),
                Ok(Some(entry)) => old(self).hands_out(entry, *final(self)),
                Ok(None) => final(self)@ == old(self)@,
                Err(e) => e == TryLockError::Poisoned(PoisonError) && final(self)@ == old(self)@,
            },
    {
        match self.lock_checked() {
            Ok(entry) => Ok(Some(entry)),
            Err(e) => Err(e),
        }
    }

    /// Locks the value for writing without ever waiting, where the caller
    /// knows that it is not poisoned.
    pub fn try_lock(&mut self) -> (r: Option<OnceEntry<'_, R, T>>)
        requires
            old(self).state().try_acquired() is Ok,
        ensures
            try_granted(Ok(r)) == old(self).state().try_acquired(),
            match r {
                Some(OnceEntry::Vacant(guard)) => old(self).hands_out(
                    OnceEntry::Vacant(guard),
                    *final(self),
                ) && final(self).lives_in(*final(guard.target())),
                Some(entry) => old(self).hands_out(entry, *final(self)),
                None => final(self)@ == old(self)@,
            },
    {
        match self.try_lock_checked() {
            Ok(entry) => entry,
            Err(_) => vstd::pervasive::unreached(),
        }
    }

    /// The value, written now if it was not written before. On an unwritten
    /// value `init` is run, once, and what it returns is stored and
    /// returned. On a written value `init` is not run, and the value that is
    /// there is returned. A poisoned value reports the poison, and stays as
    /// it is. If `init` never comes back the run-once value is poisoned.
    pub fn get_or_init_checked<F: FnOnce() -> T>(&mut self, init: F) -> (r: Result<
        &T,
        TryLockError,
    >)
        requires
            old(self).state() == FuseState::Unlocked ==> call_requires(init, ()),
        ensures
            old(self)@.get_or_init(|x: T| call_ensures(init, (), x), owned(r), final(self)@),
    {
        match self.lock_checked() {
            Ok(entry) => Ok(entry.or_init(init)),
            Err(e) => Err(e),
        }
    }

    /// The value, written now if it was not written before, where the
    /// caller knows that the run-once value is not poisoned.
    pub fn get_or_init<F: FnOnce() -> T>(&mut self, init: F) -> (r: &T)
        requires
            old(self).state().acquired() is Ok,
            old(self).state() == FuseState::Unlocked ==> call_requires(init, ()),
        ensures
            old(self)@.get_or_init(|x: T| call_ensures(init, (), x), Ok(*r), final(self)@),
    {
        self.lock().or_init(init)
    }

    /// The value if it is written; `Ok(None)` if it is not. Changes
    /// nothing, never waits and never runs an initialiser.
    pub fn try_get_checked(&self) -> (r: Result<Option<&T>, PoisonError>)
        ensures
            match self.state().peeked() {
                Ok(_) => r matches Ok(x) && deref(x) == self.value(),
                Err(e) => r matches Err(f) && f == e,
            },
    {
        proof {
            self.fused.lemma_never_held();
        }
        match self.fused.try_read_checked() {
            Ok(Some(Slot::Value(x))) => Ok(Some(x)),
            Ok(Some(_)) => Err(PoisonError),
            Ok(None) => match self.fused.payload() {
                Slot::Empty => Ok(None),
                _ => Err(PoisonError),
            },
            Err(e) => Err(e),
        }
    }

    /// The value if it is written; `Ok(None)` if it is not. Never waits.
    pub fn get_checked(&self) -> (r: Result<Option<&T>, TryLockError>)
        ensures
            match self.state().peeked() {
                Ok(_) => r matches Ok(x) && deref(x) == self.value(),
                Err(e) => r matches Err(f) && f == TryLockError::Poisoned(e),
            },
    {
        match self.try_get_checked() {
            Ok(x) => Ok(x),
            Err(e) => Err(TryLockError::Poisoned(e)),
        }
    }

    /// The value if it is written, where the caller knows that it is not
    /// poisoned.
    pub fn try_get(&self) -> (r: Option<&T>)
        requires
            self.state().peeked() is Ok,
        ensures
            deref(r) == self.value(),
    {
        match self.try_get_checked() {
            Ok(x) => x,
            Err(_) => vstd::pervasive::unreached(),
        }
    }

    /// The value if it is written, where the caller knows that it is not
    /// poisoned.
    pub fn get(&self) -> (r: Option<&T>)
        requires
            self.state().peeked() is Ok,
        ensures
            deref(r) == self.value(),
    {
        match self.get_checked() {
            Ok(x) => x,
            Err(_) => vstd::pervasive::unreached(),
        }
    }

    /// Takes the value out: the value if it was written, nothing if it was
    /// not or if the run-once value was poisoned.
    pub fn into_inner(self) -> (r: Option<T>)
        ensures
            r == self.value(),
    {
        match self.fused.into_inner() {
            (Ok(RawFusedState::Read), Slot::Value(value)) => Some(value),
            _ => None,
        }
    }
}

/// An option that borrows its value, as an option that holds it.
pub open spec fn deref<T>(x: Option<&T>) -> Option<T> {
    match x {
        Some(v) => Some(*v),
        None => None,
    }
}

impl<R: RawFused, T> From<T> for Once<R, T> {
    /// A run-once value that is written from the start, with `value`.
    fn from(value: T) -> (r: Self)
        ensures
            r@ == OnceView::written(value),
    {
        Once { fused: Fused::new_read(Slot::Value(value)) }
    }
}

impl<R: RawFused, T> FromSpecImpl<T> for Once<R, T> {
    open spec fn obeys_from_spec() -> bool {
        false
    }

    open spec fn from_spec(v: T) -> Self {
        arbitrary()
    }
}

impl<R: RawFused, T: Clone> Clone for Once<R, T> {
    /// A run-once value of its own: written, with a clone of the value, if
    /// this one is written; poisoned if this one is poisoned; unwritten
    /// otherwise.
    fn clone(&self) -> (r: Self)
        ensures
            r.state() == self.state(),
            match self.value() {
                Some(x) => r.value() matches Some(y) && call_ensures(T::clone, (&x,), y),
                None => r.value() is None,
            },
    {
        proof {
            self.lemma_value_iff_fused();
            self.lemma_never_held();
        }
        match self.try_get_checked() {
            Ok(Some(x)) => Once::from(x.clone()),
            Ok(None) => Once::new(),
            Err(_) => Once::poisoned(),
        }
    }
}

impl<R: RawFused, T> Default for Once<R, T> {
    /// A run-once value that is not written yet.
    fn default() -> (r: Self)
        ensures
            r@ == OnceView::<T>::vacant(),
    {
        Once::new()
    }
}

} // verus!
