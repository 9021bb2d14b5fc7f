//! The lazy value: a value that is computed on first access by an
//! initialiser that was fixed when the value was made.

use crate::api::raw::FuseState;
use crate::api::raw::RawFused;
use crate::api::raw::RawFusedState;
use crate::error::PoisonError;
use crate::error::TryLockError;
use crate::fused::Fused;
use crate::fused::FusedEntry;
use crate::fused::FusedView;
use crate::fused::owned;
use crate::once::deref;
use vstd::prelude::*;

verus! {

/// What the fuse of a lazy value guards.
pub enum Slot<T, F> {
    /// The initialiser, not yet run.
    Callback(F),
    /// The value that the initialiser returned.
    Value(T),
    /// Nothing: the initialiser was taken out and no value was put in.
    Poisoned,
}

/// What a lazy value is: where it stands, the initialiser while it has not
/// run, and the value once it has.
pub struct LazyView<T, F> {
    pub state: FuseState,
    pub initializer: Option<F>,
    pub value: Option<T>,
}

impl<T, F: FnOnce() -> T> LazyView<T, F> {
    /// A lazy value that `init` will compute.
    pub open spec fn pending(init: F) -> Self {
        LazyView { state: FuseState::Unlocked, initializer: Some(init), value: None }
    }

    /// A lazy value that has been computed, as `value`.
    pub open spec fn computed(value: T) -> Self {
        LazyView { state: FuseState::Fused, initializer: None, value: Some(value) }
    }

    /// The lazy value that lives in a fuse `fuse` over a slot. The fuse is
    /// free exactly while the initialiser waits in the slot, and fused
    /// exactly when the value is in it; a fuse and a slot that disagree on
    /// that can never yield a value, and count as poisoned.
    pub open spec fn of(fuse: FusedView<Slot<T, F>>) -> Self {
        match (fuse.state, fuse.value) {
            (FuseState::Unlocked, Slot::Callback(init)) => LazyView::pending(init),
            (FuseState::Fused, Slot::Value(value)) => LazyView::computed(value),
            _ => LazyView { state: FuseState::Poisoned, initializer: None, value: None },
        }
    }

    /// What forcing does to a lazy value that was `self`: it returns
    /// `result` and leaves the lazy value as `after`. Only a pending value
    /// is computed, by its own initialiser; a computed one hands out the
    /// value it has; one that lets nobody in reports why, and stays as it
    /// is.
    pub open spec fn force(self, result: Result<T, TryLockError>, after: Self) -> bool {
        match self.state.acquired() {
            Ok(RawFusedState::Write) => result matches Ok(x) && self.initializer matches Some(init)
                && call_ensures(init, (), x) && after == LazyView::<T, F>::computed(x),
            Ok(RawFusedState::Read) => result matches Ok(x) && self.value == Some(x) && after
                == self,
            Err(e) => result == Err::<T, TryLockError>(e) && after == self,
        }
    }
}

/// Of two accesses that force a lazy value, the second returns what the
/// first returned and computes nothing: after the first the value is there
/// for good, and the initialiser is gone.
pub proof fn lemma_force_idempotent<T, F: FnOnce() -> T>(
    fresh: LazyView<T, F>,
    first: Result<T, TryLockError>,
    forced: LazyView<T, F>,
    second: Result<T, TryLockError>,
    last: LazyView<T, F>,
)
    requires
        fresh.force(first, forced),
        first is Ok,
        forced.force(second, last),
    ensures
        forced.state == FuseState::Fused,
        second == first,
        last == forced,
{
}

/// A poisoned lazy value stays poisoned: forcing it reports the poison and
/// computes nothing.
pub proof fn lemma_force_poisoned<T, F: FnOnce() -> T>(
    poisoned: LazyView<T, F>,
    result: Result<T, TryLockError>,
    after: LazyView<T, F>,
)
    requires
        poisoned.state == FuseState::Poisoned,
        poisoned.force(result, after),
    ensures
        result == Err::<T, TryLockError>(TryLockError::Poisoned(PoisonError)),
        after == poisoned,
{
}

/// A value that its first access computes. The initialiser is run at most
/// once; every later access reads what it returned.
pub struct Lazy<R: RawFused, T, F> {
    once: Fused<R, Slot<T, F>>,
}

impl<R: RawFused, T, F: FnOnce() -> T> View for Lazy<R, T, F> {
    type V = LazyView<T, F>;

    closed spec fn view(&self) -> LazyView<T, F> {
        LazyView::of(self.once@)
    }
}

impl<R: RawFused, T, F: FnOnce() -> T> Lazy<R, T, F> {
    /// The value is there exactly when the state is `Fused`, and the
    /// initialiser exactly when it is `Unlocked`; the only other state is
    /// `Poisoned`.
    pub proof fn lemma_slot_follows_state(self)
        ensures
            self@.value is Some <==> self@.state == FuseState::Fused,
            self@.initializer is Some <==> self@.state == FuseState::Unlocked,
            self@.state != FuseState::Writing,
    {
    }

    /// A lazy value that `init` will compute.
    pub fn new(init: F) -> (r: Self)
        ensures
            r@ == LazyView::<T, F>::pending(init),
    {
        Lazy { once: Fused::new(Slot::Callback(init)) }
    }

    /// The value, computed now if it was not computed before. The first
    /// access takes the initialiser out of the slot, runs it, stores what it
    /// returns and fuses; every later access reads the stored value and
    /// runs nothing. A poisoned value reports the poison, and stays as it
    /// is.
    pub fn force_checked(&mut self) -> (r: Result<&T, TryLockError>)
        requires
            old(self)@.initializer matches Some(init) ==> call_requires(init, ()),
        ensures
            old(self)@.force(owned(r), final(self)@),
    {
        proof {
            self.once.lemma_never_held();
        }
        match self.once.write_checked() {
            Ok(FusedEntry::Read(Slot::Value(x))) => Ok(x),
            Ok(FusedEntry::Read(_)) => Err(TryLockError::Poisoned(PoisonError)),
            Ok(FusedEntry::Write(guard)) => {
                let mut guard = guard;
                let mut taken = Slot::Poisoned;
                core::mem::swap(&mut *guard, &mut taken);
                match taken {
                    Slot::Callback(init) => {
                        *guard = Slot::Value(init());
                        match guard.fuse() {
                            Slot::Value(x) => Ok(x),
                            _ => vstd::pervasive::unreached(),
                        }
                    },
                    _ => {
                        guard.poison();
                        Err(TryLockError::Poisoned(PoisonError))
                    },
                }
            },
            Err(e) => Err(e),
        }
    }

    /// The value, computed now if it was not computed before, where the
    /// caller knows that the lazy value is not poisoned.
    pub fn force(&mut self) -> (r: &T)
        requires
            old(self)@.state.acquired() is Ok,
            old(self)@.initializer matches Some(init) ==> call_requires(init, ()),
        ensures
            old(self)@.force(Ok(*r), final(self)@),
    {
        match self.force_checked() {
            Ok(x) => x,
            Err(_) => vstd::pervasive::unreached(),
        }
    }

    /// The value if it is computed. Changes nothing and runs nothing.
    pub fn get(&self) -> (r: Option<&T>)
        ensures
            deref(r) == self@.value,
    {
        match self.once.read_checked() {
            Ok(Some(Slot::Value(x))) => Some(x),
            _ => None,
        }
    }
}

} // verus!
