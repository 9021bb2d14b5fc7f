//! The fuse: a payload behind a lock that can be made read-only for good.

use crate::api::raw::FuseState;
use crate::api::raw::RawFused;
use crate::api::raw::RawFusedState;
use crate::error::PoisonError;
use crate::error::TryLockError;
use core::ops::Deref;
use core::ops::DerefMut;
use vstd::prelude::*;

verus! {

/// What a fuse is: where it stands and what it guards.
pub struct FusedView<T> {
    pub state: FuseState,
    pub value: T,
}

/// A payload and the backend that guards it. While the fuse is not fused the
/// payload can be changed, by one writer at a time; once it is fused the
/// payload can only be read.
///
/// The writer is whoever holds the handle, and the handle borrows the fuse
/// for itself alone. So a fuse that can be looked at is never held: its
/// backend may still say so, when the last handle was dropped without being
/// given back, and the next acquisition then takes the fuse over.
///
/// The fuse is marked while a modification runs on the payload on its
/// behalf. A modification that never comes back leaves the mark behind, and
/// a fuse that bears it is poisoned.
pub struct Fused<R: RawFused, T> {
    raw: R,
    data: T,
    armed: bool,
}

/// What an acquisition for writing hands out.
pub enum FusedEntry<'a, R: RawFused, T> {
    /// The fuse is read-only, and this is its payload.
    Read(&'a T),
    /// The fuse is held by the caller, and this is the handle to write
    /// through.
    Write(FusedGuard<'a, R, T>),
}

/// The writer's handle on a fuse. While it is alive it borrows the fuse,
/// so that nobody else can reach the payload. `fuse` makes the fuse
/// read-only and `poison` marks it as failed; a handle that is dropped, or
/// given back with `unlock`, leaves the fuse free and mutable, with the
/// payload as the writer left it. A writer whose critical section fails
/// gives the handle back with `poison`.
pub struct FusedGuard<'a, R: RawFused, T> {
    fused: &'a mut Fused<R, T>,
}

impl<R: RawFused, T> View for Fused<R, T> {
    type V = FusedView<T>;

    open spec fn view(&self) -> FusedView<T> {
        FusedView { state: self.state(), value: self.value() }
    }
}

impl<'a, R: RawFused, T> FusedEntry<'a, R, T> {
    /// What the entry lets its holder do.
    pub open spec fn kind(self) -> RawFusedState {
        match self {
            FusedEntry::Read(_) => RawFusedState::Read,
            FusedEntry::Write(_) => RawFusedState::Write,
        }
    }
}

/// What an acquisition let the caller do, without the entry itself.
pub open spec fn granted<'a, R: RawFused, T>(
    r: Result<FusedEntry<'a, R, T>, TryLockError>,
) -> Result<RawFusedState, TryLockError> {
    match r {
        Ok(entry) => Ok(entry.kind()),
        Err(e) => Err(e),
    }
}

/// What an acquisition that must not wait let the caller do, without the
/// entry itself.
pub open spec fn try_granted<'a, R: RawFused, T>(
    r: Result<Option<FusedEntry<'a, R, T>>, TryLockError>,
) -> Result<Option<RawFusedState>, PoisonError> {
    match r {
        Ok(Some(entry)) => Ok(Some(entry.kind())),
        Ok(None) => Ok(None),
        Err(_) => Err(PoisonError),
    }
}

/// A result that borrows its value, as a result that holds it.
pub open spec fn owned<T, E>(r: Result<&T, E>) -> Result<T, E> {
    match r {
        Ok(x) => Ok(*x),
        Err(e) => Err(e),
    }
}

/// `modify` may be run on a payload that holds `before`.
pub open spec fn may_modify<T, M: FnOnce(&mut T)>(modify: M, before: T) -> bool {
    forall|p: &mut T| *p == before ==> call_requires(modify, (p,))
}

impl<T> FusedView<T> {
    /// A fuse that stands in `state` over `value`.
    pub open spec fn new(state: FuseState, value: T) -> Self {
        FusedView { state, value }
    }

    /// What reading a fuse, after fusing it if need be, does to a fuse that
    /// was `self`: it returns `result` and leaves the fuse as `after`.
    /// `modifies(a, b)` says that the modification, run on the payload `a`,
    /// may leave it as `b`. Only a free fuse is modified; a fused one hands
    /// out the payload it has; one that lets nobody in reports why, and
    /// stays as it is.
    pub open spec fn read_or_fuse(
        self,
        modifies: spec_fn(T, T) -> bool,
        result: Result<T, TryLockError>,
        after: Self,
    ) -> bool {
        match self.state.acquired() {
            Ok(RawFusedState::Write) => result matches Ok(x) && modifies(self.value, x) && after
                == FusedView::new(FuseState::Fused, x),
            Ok(RawFusedState::Read) => result == Ok::<T, TryLockError>(self.value) && after
                == self,
            Err(e) => result == Err::<T, TryLockError>(e) && after == self,
        }
    }
}

/// Once a fuse is fused, reading it again runs no modification and returns
/// the payload that was fused, unchanged: whatever the second modification
/// would do, the second read returns what the fuse held after the first,
/// and leaves the fuse as it was.
pub proof fn lemma_read_or_fuse_idempotent<T>(
    fresh: FusedView<T>,
    first_modifies: spec_fn(T, T) -> bool,
    first: Result<T, TryLockError>,
    fused: FusedView<T>,
    second_modifies: spec_fn(T, T) -> bool,
    second: Result<T, TryLockError>,
    last: FusedView<T>,
)
    requires
        fresh.read_or_fuse(first_modifies, first, fused),
        first is Ok,
        fused.read_or_fuse(second_modifies, second, last),
    ensures
        fused.state == FuseState::Fused,
        second == first,
        second == Ok::<T, TryLockError>(fused.value),
        last == fused,
{
}

/// A poisoned fuse stays poisoned: reading it reports the poison, runs no
/// modification and hands out no payload.
pub proof fn lemma_read_or_fuse_poisoned<T>(
    poisoned: FusedView<T>,
    modifies: spec_fn(T, T) -> bool,
    result: Result<T, TryLockError>,
    after: FusedView<T>,
)
    requires
        poisoned.state == FuseState::Poisoned,
        poisoned.read_or_fuse(modifies, result, after),
    ensures
        result == Err::<T, TryLockError>(TryLockError::Poisoned(PoisonError)),
        after == poisoned,
{
}

impl<'a, R: RawFused, T> FusedGuard<'a, R, T> {
    #[verifier::type_invariant]
    spec fn held(self) -> bool {
        self.fused.raw.state() == FuseState::Writing && !self.fused.armed
    }

    /// The borrow of the fuse that the handle holds.
    pub closed spec fn target(self) -> &'a mut Fused<R, T> {
        self.fused
    }

    /// A handle that is dropped leaves the fuse as it is seen through the
    /// handle: free, with the payload as the writer left it.
    pub proof fn lemma_abandoned(self)
        requires
            has_resolved(self),
        ensures
            *final(self.target()) == *self.target(),
    {
    }

    /// Makes the fuse read-only, with the payload as it is now.
    pub fn fuse(self) -> (r: &'a T)
        ensures
            final(self.target())@ == FusedView::new(FuseState::Fused, self.target().value()),
            *r == self.target().value(),
    {
        proof {
            use_type_invariant(&self);
        }
        let FusedGuard { fused } = self;
        fused.raw.unlock_fuse();
        &fused.data
    }

    /// Gives the fuse back, free and still mutable, as dropping the handle
    /// does.
    pub fn unlock(self)
        ensures
            final(self.target())@ == FusedView::new(FuseState::Unlocked, self.target().value()),
    {
        proof {
            use_type_invariant(&self);
        }
        let FusedGuard { fused } = self;
        fused.raw.unlock();
    }

    /// Marks the fuse as failed: the payload is never handed out again.
    pub fn poison(self)
        ensures
            final(self.target())@ == FusedView::new(FuseState::Poisoned, self.target().value()),
    {
        proof {
            use_type_invariant(&self);
        }
        let FusedGuard { fused } = self;
        fused.raw.unlock_poison();
    }
}

impl<'a, R: RawFused, T> Deref for FusedGuard<'a, R, T> {
    type Target = T;

    /// The payload, to read.
    fn deref(&self) -> (r: &T)
        ensures
            *r == self.target().value(),
    {
        &self.fused.data
    }
}

impl<'a, R: RawFused, T> DerefMut for FusedGuard<'a, R, T> {
    /// The payload, to change. The fuse stays held.
    fn deref_mut(&mut self) -> (r: &mut T)
        ensures
            *r == old(self).target().value(),
            final(self).target()@ == FusedView::new(FuseState::Unlocked, *final(r)),
            *final(final(self).target()) == *final(old(self).target()),
    {
        proof {
            use_type_invariant(&*self);
        }
        self.fused.payload_mut()
    }
}

impl<'a, R: RawFused, T> FusedEntry<'a, R, T> {
    /// The payload of the fuse, read-only. If the entry is the writer's
    /// handle, `modify` runs on the payload first, once, and the fuse is
    /// fused; if the fuse was read-only already, `modify` is not run. The
    /// fuse is marked while `modify` runs: if `modify` never comes back the
    /// fuse is poisoned.
    pub fn or_fuse<M: FnOnce(&mut T)>(self, modify: M) -> (r: &'a T)
        requires
            self matches FusedEntry::Write(guard) ==> may_modify(modify, guard.target().value()),
        ensures
            match self {
                FusedEntry::Read(x) => r == x,
                FusedEntry::Write(guard) => (exists|p: &mut T|
                    *p == guard.target().value() && *final(p) == *r && call_ensures(
                        modify,
                        (p,),
                        (),
                    )) && final(guard.target())@ == FusedView::new(FuseState::Fused, *r),
            },
    {
        match self {
            FusedEntry::Read(x) => x,
            FusedEntry::Write(guard) => {
                proof {
                    use_type_invariant(&guard);
                }
                let FusedGuard { fused } = guard;
                fused.armed = true;
                modify(&mut fused.data);
                fused.armed = false;
                fused.raw.unlock_fuse();
                &fused.data
            },
        }
    }
}

impl<R: RawFused, T> Fused<R, T> {
    /// Where the fuse stands for those who can look at it: free, fused or
    /// poisoned. A fuse whose backend is held has been left by a handle
    /// that was dropped, and is free; a fuse that bears the mark of a
    /// modification has been left by one that never came back, and is
    /// poisoned.
    pub closed spec fn state(&self) -> FuseState {
        if self.armed {
            FuseState::Poisoned
        } else {
            match self.raw.state() {
                FuseState::Writing => FuseState::Unlocked,
                state => state,
            }
        }
    }

    /// A fuse that can be looked at is never held.
    pub proof fn lemma_never_held(self)
        ensures
            self.state() != FuseState::Writing,
            self.state().acquired() is Err ==> self.state() == FuseState::Poisoned,
            self.state().try_acquired() matches Ok(access) ==> access is Some,
    {
    }

    /// The payload.
    pub closed spec fn value(&self) -> T {
        self.data
    }

    /// What an entry that was handed out on `self` carries, and how the
    /// fuse is left. The writer's handle borrows the fuse as it was: the
    /// fuse will be what the handle makes of it. The payload that is handed
    /// out to read is the one of the fuse, which stays as it is.
    pub open spec fn hands_out(self, entry: FusedEntry<'_, R, T>, after: Self) -> bool {
        match entry {
            FusedEntry::Write(guard) => guard.target()@ == self@,
            FusedEntry::Read(x) => *x == self.value() && after@ == self@,
        }
    }

    /// The payload, whatever the state, for the primitives that are built
    /// on the fuse and keep their own mark in it.
    pub(crate) fn payload(&self) -> (r: &T)
        ensures
            *r == self.value(),
    {
        &self.data
    }

    /// The payload, to change, whatever the state.
    fn payload_mut(&mut self) -> (r: &mut T)
        ensures
            *r == old(self).value(),
            final(self).value() == *final(r),
            final(self).raw == old(self).raw,
            final(self).armed == old(self).armed,
        no_unwind
    {
        &mut self.data
    }

    /// A fuse that is free and mutable, with `x` as its payload.
    pub fn new(x: T) -> (r: Self)
        ensures
            r@ == FusedView::new(FuseState::Unlocked, x),
    {
        Fused { raw: R::unlocked(), data: x, armed: false }
    }

    /// A fuse that is read-only from the start, with `x` as its payload.
    pub fn new_read(x: T) -> (r: Self)
        ensures
            r@ == FusedView::new(FuseState::Fused, x),
    {
        Fused { raw: R::read(), data: x, armed: false }
    }

    /// A fuse that is poisoned from the start.
    pub fn poisoned(x: T) -> (r: Self)
        ensures
            r@ == FusedView::new(FuseState::Poisoned, x),
    {
        Fused { raw: R::poison(), data: x, armed: false }
    }

    /// Acquires the fuse for writing. A free fuse hands out the writer's
    /// handle; a fused one hands out its payload; a poisoned one reports the
    /// poison. The caller never waits and is never refused for contention:
    /// it has the fuse to itself.
    pub fn write_checked(&mut self) -> (r: Result<FusedEntry<'_, R, T>, TryLockError>)
        ensures
            granted(r) == old(self).state().acquired(),
            match r {
                Ok(FusedEntry::Write(guard)) => old(self).hands_out(
                    FusedEntry::Write(guard),
                    *final(self),
                ) && *final(self) == *final(guard.target()),
                Ok(entry) => old(self).hands_out(entry, *final(self)),
                Err(_) => final(self)@ == old(self)@,
            },
    {
        if self.armed {
            return Err(TryLockError::Poisoned(PoisonError));
        }
        let access = match self.raw.write_checked() {
            Err(TryLockError::WouldBlock) => {
                self.raw.unlock();
                self.raw.write_checked()
            },
            access => access,
        };
        match access {
            Ok(RawFusedState::Write) => Ok(FusedEntry::Write(FusedGuard { fused: self })),
            Ok(RawFusedState::Read) => Ok(FusedEntry::Read(&self.data)),
            Err(e) => Err(e),
        }
    }

    /// Acquires the fuse for writing, where the caller knows that it is not
    /// poisoned.
    pub fn write(&mut self) -> (r: FusedEntry<'_, R, T>)
        requires
            old(self).state().acquired() is Ok,
        ensures
            Ok::<RawFusedState, TryLockError>(r.kind()) == old(self).state().acquired(),
            match r {
                FusedEntry::Write(guard) => old(self).hands_out(
                    FusedEntry::Write(guard),
                    *final(self),
                ) && *final(self) == *final(guard.target()),
                entry => old(self).hands_out(entry, *final(self)),
            },
    {
        match self.write_checked() {
            Ok(entry) => entry,
            Err(_) => vstd::pervasive::unreached(),
        }
    }

    /// Acquires the fuse for writing without ever waiting. `Ok(None)` would
    /// say that the fuse is held by another; the caller has it to itself,
    /// and is always handed an entry.
    pub fn try_write_checked(&mut self) -> (r: Result<Option<FusedEntry<'_, R, T>>, TryLockError>)
        ensures
            try_granted(r) == old(self).state().try_acquired(),
            match r {
                Ok(Some(FusedEntry::Write(guard))) => old(self).hands_out(
                    FusedEntry::Write(guard),
                    *final(self),
                ) && *final(self) == *final(guard.target()),
                Ok(Some(entry)) => old(self).hands_out(entry, *final(self)),
                Ok(None) => final(self)@ == old(self)@,
                Err(e) => e == TryLockError::Poisoned(PoisonError) && final(self)@ == old(self)@,
            },
    {
        if self.armed {
            return Err(TryLockError::Poisoned(PoisonError));
        }
        let access = match self.raw.try_write_checked() {
            Ok(None) => {
                self.raw.unlock();
                self.raw.try_write_checked()
            },
            access => access,
        };
        match access {
            Ok(Some(RawFusedState::Write)) => Ok(
                Some(FusedEntry::Write(FusedGuard { fused: self })),
            ),
            Ok(Some(RawFusedState::Read)) => Ok(Some(FusedEntry::Read(&self.data))),
            Ok(None) => Ok(None),
            Err(e) => Err(TryLockError::Poisoned(e)),
        }
    }

    /// Acquires the fuse for writing without ever waiting, where the caller
    /// knows that it is not poisoned.
    pub fn try_write(&mut self) -> (r: Option<FusedEntry<'_, R, T>>)
        requires
            old(self).state().try_acquired() is Ok,
        ensures
            try_granted(Ok(r)) == old(self).state().try_acquired(),
            match r {
                Some(FusedEntry::Write(guard)) => old(self).hands_out(
                    FusedEntry::Write(guard),
                    *final(self),
                ) && *final(self) == *final(guard.target()),
                Some(entry) => old(self).hands_out(entry, *final(self)),
                None => final(self)@ == old(self)@,
            },
    {
        match self.try_write_checked() {
            Ok(entry) => entry,
            Err(_) => vstd::pervasive::unreached(),
        }
    }

    /// The payload, read-only, after making sure that the fuse is fused. On
    /// a free fuse `modify` runs on the payload, once, and the fuse is
    /// fused. On a fuse that is fused already `modify` is not run and the
    /// payload is what it was. A poisoned fuse reports the poison, and stays
    /// as it is.
    pub fn read_or_fuse_checked<M: FnOnce(&mut T)>(&mut self, modify: M) -> (r: Result<
        &T,
        TryLockError,
    >)
        requires
            old(self).state() == FuseState::Unlocked ==> may_modify(modify, old(self).value()),
        ensures
            old(self)@.read_or_fuse(
                |a: T, b: T|
                    exists|p: &mut T| *p == a && *final(p) == b && call_ensures(modify, (p,), ()),
                owned(r),
                final(self)@,
            ),
    {
        match self.write_checked() {
            Ok(entry) => Ok(entry.or_fuse(modify)),
            Err(e) => Err(e),
        }
    }

    /// The payload, read-only, after making sure that the fuse is fused,
    /// where the caller knows that the fuse is not poisoned.
    pub fn read_or_fuse<M: FnOnce(&mut T)>(&mut self, modify: M) -> (r: &T)
        requires
            old(self).state().acquired() is Ok,
            old(self).state() == FuseState::Unlocked ==> may_modify(modify, old(self).value()),
        ensures
            old(self)@.read_or_fuse(
                |a: T, b: T|
                    exists|p: &mut T| *p == a && *final(p) == b && call_ensures(modify, (p,), ()),
                Ok(*r),
                final(self)@,
            ),
    {
        self.write().or_fuse(modify)
    }

    /// The payload of a fused fuse; `Ok(None)` while the fuse is not fused.
    /// Changes nothing and never waits.
    pub fn try_read_checked(&self) -> (r: Result<Option<&T>, PoisonError>)
        ensures
            match self.state().peeked() {
                Ok(RawFusedState::Read) => r matches Ok(Some(x)) && *x == self.value(),
                Ok(RawFusedState::Write) => r matches Ok(None),
                Err(e) => r matches Err(f) && f == e,
            },
    {
        if self.armed {
            return Err(PoisonError);
        }
        match self.raw.try_read_checked() {
            Ok(RawFusedState::Read) => Ok(Some(&self.data)),
            Ok(RawFusedState::Write) => Ok(None),
            Err(e) => Err(e),
        }
    }

    /// The payload of a fused fuse, where the caller knows that the fuse is
    /// not poisoned.
    pub fn try_read(&self) -> (r: Option<&T>)
        requires
            self.state().peeked() is Ok,
        ensures
            match self.state().peeked() {
                Ok(RawFusedState::Read) => r matches Some(x) && *x == self.value(),
                _ => r is None,
            },
    {
        match self.try_read_checked() {
            Ok(x) => x,
            Err(_) => vstd::pervasive::unreached(),
        }
    }

    /// The payload of a fused fuse; `Ok(None)` while the fuse is not fused.
    /// Never waits.
    pub fn read_checked(&self) -> (r: Result<Option<&T>, TryLockError>)
        ensures
            match self.state().peeked() {
                Ok(RawFusedState::Read) => r matches Ok(Some(x)) && *x == self.value(),
                Ok(RawFusedState::Write) => r matches Ok(None),
                Err(e) => r matches Err(f) && f == TryLockError::Poisoned(e),
            },
    {
        match self.try_read_checked() {
            Ok(x) => Ok(x),
            Err(e) => Err(TryLockError::Poisoned(e)),
        }
    }

    /// The payload of a fused fuse, where the caller knows that the fuse is
    /// not poisoned.
    pub fn read(&self) -> (r: Option<&T>)
        requires
            self.state().peeked() is Ok,
        ensures
            match self.state().peeked() {
                Ok(RawFusedState::Read) => r matches Some(x) && *x == self.value(),
                _ => r is None,
            },
    {
        match self.read_checked() {
            Ok(x) => x,
            Err(_) => vstd::pervasive::unreached(),
        }
    }

    /// The state and the payload of a fuse that the caller owns alone.
    pub fn get_mut(&mut self) -> (r: (Result<RawFusedState, PoisonError>, &mut T))
        ensures
            r.0 == old(self).state().peeked(),
            *r.1 == old(self).value(),
            final(self)@ == FusedView::new(old(self).state(), *final(r.1)),
    {
        let state = if self.armed {
            Err(PoisonError)
        } else {
            self.raw.try_get_mut()
        };
        (state, &mut self.data)
    }

    /// Takes the fuse apart into its state and its payload.
    pub fn into_inner(self) -> (r: (Result<RawFusedState, PoisonError>, T))
        ensures
            r.0 == self.state().peeked(),
            r.1 == self.value(),
    {
        let mut this = self;
        let state = if this.armed {
            Err(PoisonError)
        } else {
            this.raw.try_get_mut()
        };
        (state, this.data)
    }
}

impl<R: RawFused, T: Default> Default for Fused<R, T> {
    /// A fuse that is free and mutable, with the default payload.
    fn default() -> (r: Self)
        ensures
            r.state() == FuseState::Unlocked,
            call_ensures(T::default, (), r.value()),
    {
        Fused::new(T::default())
    }
}

} // verus!
