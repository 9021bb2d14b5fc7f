//! The thread-shared backend.
//!
//! Threads agree on the lock through one atomic word. A thread that wants
//! the lock reads the word, decides what to do, and tries to put its
//! decision into the word with a compare-and-swap; if another thread was
//! faster it decides again on the word it finds. A thread that finds the
//! lock held by another announces itself in the word and parks; a thread
//! that finds it held by itself reports `WouldBlock` at once, which is what
//! turns a cycle of initialisers into an error instead of a deadlock.
//!
//! The decisions are functions of the word that was read and of the caller's
//! identity, and they are stated and proved here. Waiting is not: one round
//! of an acquisition ends by saying whether the caller is done, has to
//! decide again, or has to park, and the caller's loop does the rest.

use crate::api::raw::FuseState;
use crate::api::raw::RawFusedState;
use crate::error::PoisonError;
use crate::error::TryLockError;
use crate::sync::state::Fields;
use crate::sync::state::State;
use crate::sync::state::INIT;
use crate::sync::state::LOCKED;
use crate::sync::state::PARKED;
use crate::sync::state::POISON;
use crate::sync::state::lemma_fields_determine_word;
use crate::sync::thread_id::ThreadId;
use atomic::Atomic;
use std::sync::atomic::Ordering;
use vstd::prelude::*;

verus! {

/// The atomic cell of the `atomic` crate. Nothing is said of what it holds:
/// other threads may change that at any moment.
#[verifier::external_type_specification]
#[verifier::external_body]
#[verifier::reject_recursive_types(T)]
pub struct ExAtomic<T>(Atomic<T>);

/// The word that a cell was made with. It is the one thing about a cell
/// that no thread can change; the word that the cell holds now has no name.
pub uninterp spec fn made_with(cell: Atomic<usize>) -> usize;

/// `Atomic::new`: a cell that starts out holding `word`.
#[verifier::external_body]
fn atomic_new(word: usize) -> (cell: Atomic<usize>)
    ensures
        made_with(cell) == word,
{
    Atomic::new(word)
}

/// `Atomic::load` with acquire ordering: the word that the cell holds at
/// some moment during the call.
#[verifier::external_body]
fn atomic_load(cell: &Atomic<usize>) -> usize {
    cell.load(Ordering::Acquire)
}

/// `Atomic::swap` with release ordering: stores `word` and returns the word
/// that it replaced.
#[verifier::external_body]
fn atomic_swap(cell: &Atomic<usize>, word: usize) -> usize {
    cell.swap(word, Ordering::Release)
}

/// `Atomic::compare_exchange_weak` with acquire ordering: stores `new` if
/// the cell holds `current`, and may fail even then. `Ok` says that `new`
/// was stored and carries the word it replaced, which is `current`; `Err`
/// says that nothing was stored and carries the word that was found.
#[verifier::external_body]
fn atomic_compare_exchange_weak(cell: &Atomic<usize>, current: usize, new: usize) -> (r: Result<
    usize,
    usize,
>)
    ensures
        r matches Ok(previous) ==> previous == current,
{
    cell.compare_exchange_weak(current, new, Ordering::Acquire, Ordering::Acquire)
}

/// `Atomic::get_mut`, read through: the word of a cell that the caller owns
/// alone. Nothing is written, so the cell is left as it was.
#[verifier::external_body]
fn atomic_get_mut(cell: &mut Atomic<usize>) -> (word: usize)
    ensures
        *final(cell) == *old(cell),
{
    *cell.get_mut()
}

/// The word of a lock that `tid` holds and on which nobody waits.
pub open spec fn held_by(tid: ThreadId) -> State {
    State(tid.0 | LOCKED)
}

/// The word `state` with the announcement of a waiter added.
pub open spec fn with_waiter(state: State) -> State {
    State(state.0 | PARKED)
}

/// The word that a release to `to` stores.
pub open spec fn released(to: FuseState) -> State {
    match to {
        FuseState::Fused => State(INIT),
        FuseState::Poisoned => State(POISON),
        _ => State(0),
    }
}

/// What a thread that wants to write, and is ready to wait, does on a word
/// that it has read.
#[derive(Clone, Copy, Debug, PartialEq, Eq)]
pub enum LockPlan {
    /// The acquisition is over, with this result.
    Done(Result<RawFusedState, TryLockError>),
    /// Try to replace the word that was read by this one. If that succeeds
    /// the caller is the writer.
    Claim(State),
    /// Try to replace the word that was read by this one, which announces a
    /// waiter. If that succeeds the caller parks.
    Announce(State),
    /// A waiter is announced already: park.
    Park,
}

/// What a thread that wants to write, but must not wait, does on a word that
/// it has read.
#[derive(Clone, Copy, Debug, PartialEq, Eq)]
pub enum TryLockPlan {
    /// The acquisition is over, with this result.
    Done(Result<Option<RawFusedState>, PoisonError>),
    /// Try to replace the word that was read by this one. If that succeeds
    /// the caller is the writer.
    Claim(State),
}

/// How one round of an acquisition that may wait has ended.
#[derive(Clone, Copy, Debug, PartialEq, Eq)]
pub enum LockStep {
    /// The acquisition is over, with this result.
    Done(Result<RawFusedState, TryLockError>),
    /// Another thread changed the word, or the exchange failed for no
    /// reason: decide again on this word.
    Retry(State),
    /// The lock is held by another thread and a waiter is announced: park
    /// until woken, read the word and decide again.
    Park,
}

/// How one round of an acquisition that must not wait has ended.
#[derive(Clone, Copy, Debug, PartialEq, Eq)]
pub enum TryLockStep {
    /// The acquisition is over, with this result.
    Done(Result<Option<RawFusedState>, PoisonError>),
    /// Another thread changed the word, or the exchange failed for no
    /// reason: decide again on this word.
    Retry(State),
}

/// The decision of a thread `tid` that has read `state` and is ready to
/// wait. A fused lock is read and a poisoned one reported, whatever else the
/// word says. A free lock is claimed. A lock that `tid` holds itself is a
/// cycle and reported as `WouldBlock`; nothing is ever waited for then. A
/// lock that another thread holds is waited for, after an announcement if
/// there is none yet.
pub open spec fn lock_plan_of(state: State, tid: ThreadId) -> LockPlan {
    match state.phase() {
        FuseState::Fused => LockPlan::Done(Ok(RawFusedState::Read)),
        FuseState::Poisoned => LockPlan::Done(Err(TryLockError::Poisoned(PoisonError))),
        FuseState::Unlocked => LockPlan::Claim(held_by(tid)),
        FuseState::Writing => if state@.thread_id == tid {
            LockPlan::Done(Err(TryLockError::WouldBlock))
        } else if !state@.parked {
            LockPlan::Announce(with_waiter(state))
        } else {
            LockPlan::Park
        },
    }
}

/// The decision of a thread `tid` that has read `state` and must not wait:
/// as above, but that a held lock ends the acquisition with `Ok(None)`,
/// whoever holds it.
pub open spec fn try_lock_plan_of(state: State, tid: ThreadId) -> TryLockPlan {
    match state.phase() {
        FuseState::Fused => TryLockPlan::Done(Ok(Some(RawFusedState::Read))),
        FuseState::Poisoned => TryLockPlan::Done(Err(PoisonError)),
        FuseState::Unlocked => TryLockPlan::Claim(held_by(tid)),
        FuseState::Writing => TryLockPlan::Done(Ok(None)),
    }
}

/// A word that stands for a free lock holds no owner and no flag.
pub open spec fn free_means_blank(state: State) -> bool {
    state.phase() == FuseState::Unlocked ==> state == State(0)
}

/// Whether a decision can be taken on `state`: a word that stands for a
/// free lock must hold nothing else.
pub fn is_decidable(state: State) -> (ok: bool)
    ensures
        ok == free_means_blank(state),
{
    state.init() || state.poison() || state.locked() || state.bits() == 0
}

/// Decides what to do on `state` for a caller that is ready to wait.
pub fn lock_plan(state: State, tid: ThreadId) -> (plan: LockPlan)
    requires
        tid.is_valid(),
        free_means_blank(state),
    ensures
        plan == lock_plan_of(state, tid),
{
    if state.init() {
        return LockPlan::Done(Ok(RawFusedState::Read));
    }
    if state.poison() {
        return LockPlan::Done(Err(TryLockError::Poisoned(PoisonError)));
    }
    if !state.locked() {
        let claimed = State::new().with_thread_id(tid).with_locked(true);
        proof {
            lemma_held_by(tid);
            lemma_fields_determine_word(claimed, held_by(tid));
        }
        return LockPlan::Claim(claimed);
    }
    if state.thread_id() == tid {
        return LockPlan::Done(Err(TryLockError::WouldBlock));
    }
    if !state.parked() {
        let announced = state.with_parked(true);
        proof {
            lemma_with_waiter(state);
            lemma_fields_determine_word(announced, with_waiter(state));
        }
        return LockPlan::Announce(announced);
    }
    LockPlan::Park
}

/// Decides what to do on `state` for a caller that must not wait.
pub fn try_lock_plan(state: State, tid: ThreadId) -> (plan: TryLockPlan)
    requires
        tid.is_valid(),
        free_means_blank(state),
    ensures
        plan == try_lock_plan_of(state, tid),
{
    if state.init() {
        return TryLockPlan::Done(Ok(Some(RawFusedState::Read)));
    }
    if state.poison() {
        return TryLockPlan::Done(Err(PoisonError));
    }
    if !state.locked() {
        let claimed = State::new().with_thread_id(tid).with_locked(true);
        proof {
            lemma_held_by(tid);
            lemma_fields_determine_word(claimed, held_by(tid));
        }
        return TryLockPlan::Claim(claimed);
    }
    TryLockPlan::Done(Ok(None))
}

/// What a claim has come to: the writer's access if the exchange stored the
/// claim, another round on the word that was found if it did not.
pub fn claimed(exchange: Result<State, State>) -> (step: LockStep)
    ensures
        step == (match exchange {
            Ok(_) => LockStep::Done(Ok(RawFusedState::Write)),
            Err(found) => LockStep::Retry(found),
        }),
{
    match exchange {
        Ok(_) => LockStep::Done(Ok(RawFusedState::Write)),
        Err(found) => LockStep::Retry(found),
    }
}

/// What an announcement has come to: parking if the exchange stored it,
/// another round on the word that was found if it did not.
pub fn announced(exchange: Result<State, State>) -> (step: LockStep)
    ensures
        step == (match exchange {
            Ok(_) => LockStep::Park,
            Err(found) => LockStep::Retry(found),
        }),
{
    match exchange {
        Ok(_) => LockStep::Park,
        Err(found) => LockStep::Retry(found),
    }
}

/// What a claim that must not wait has come to.
pub fn try_claimed(exchange: Result<State, State>) -> (step: TryLockStep)
    ensures
        step == (match exchange {
            Ok(_) => TryLockStep::Done(Ok(Some(RawFusedState::Write))),
            Err(found) => TryLockStep::Retry(found),
        }),
{
    match exchange {
        Ok(_) => TryLockStep::Done(Ok(Some(RawFusedState::Write))),
        Err(found) => TryLockStep::Retry(found),
    }
}

/// What a look at `state` returns: `Read` once the lock is fused, the
/// poison if it is poisoned, `Write` while it is not yet readable.
pub fn peek(state: State) -> (r: Result<RawFusedState, PoisonError>)
    ensures
        r == state.phase().peeked(),
{
    if state.init() {
        return Ok(RawFusedState::Read);
    }
    if state.poison() {
        return Err(PoisonError);
    }
    Ok(RawFusedState::Write)
}

/// Whether a thread that is about to park on `state` still has a reason to:
/// the lock is held and a waiter is announced. A thread that parked on any
/// other word could miss the wake-up of the release that wrote it.
pub fn must_wait(state: State) -> (wait: bool)
    ensures
        wait == (state@.locked && state@.parked),
{
    state.locked() && state.parked()
}

/// The word that a release to `to` stores: blank for `Unlocked`, the fused
/// flag alone for `Fused`, the poison flag alone for `Poisoned`.
pub fn release_word(to: FuseState) -> (word: State)
    requires
        to != FuseState::Writing,
    ensures
        word == released(to),
        word.phase() == to,
        word.is_proper(),
{
    proof {
        lemma_released_words();
    }
    match to {
        FuseState::Fused => {
            let word = State::new().with_init(true);
            proof {
                lemma_fields_determine_word(word, State(INIT));
            }
            word
        },
        FuseState::Poisoned => {
            let word = State::new().with_poison(true);
            proof {
                lemma_fields_determine_word(word, State(POISON));
            }
            word
        },
        _ => State::new(),
    }
}

/// The fields of the word of a held lock.
pub proof fn lemma_held_by(tid: ThreadId)
    requires
        tid.0 & 0b1111 == 0,
    ensures
        held_by(tid)@ == (Fields {
            thread_id: tid,
            locked: true,
            parked: false,
            init: false,
            poison: false,
        }),
{
    let t = tid.0;
    let y = t | 1usize;
    assert(y & !0b1111usize == t && y & 1 != 0 && y & 2 == 0 && y & 4 == 0 && y & 8 == 0)
        by (bit_vector)
        requires
            t & 0b1111usize == 0,
            y == t | 1usize,
    ;
}

/// The fields of a word to which a waiter's announcement was added.
pub proof fn lemma_with_waiter(state: State)
    ensures
        with_waiter(state)@ == (Fields { parked: true, ..state@ }),
{
    let x = state.0;
    let y = x | 2usize;
    assert(y & !0b1111usize == x & !0b1111usize && (y & 1 != 0) == (x & 1 != 0) && y & 2 != 0 && (y
        & 4 != 0) == (x & 4 != 0) && (y & 8 != 0) == (x & 8 != 0)) by (bit_vector)
        requires
            y == x | 2usize,
    ;
}

/// The fields of the three words that a release stores: no owner, no
/// waiter, and the one flag that tells the state.
pub proof fn lemma_released_words()
    ensures
        released(FuseState::Unlocked)@ == (Fields {
            thread_id: ThreadId(0),
            locked: false,
            parked: false,
            init: false,
            poison: false,
        }),
        released(FuseState::Fused)@ == (Fields {
            thread_id: ThreadId(0),
            locked: false,
            parked: false,
            init: true,
            poison: false,
        }),
        released(FuseState::Poisoned)@ == (Fields {
            thread_id: ThreadId(0),
            locked: false,
            parked: false,
            init: false,
            poison: true,
        }),
{
    assert(0usize & !0b1111usize == 0 && 0usize & 1 == 0 && 0usize & 2 == 0 && 0usize & 4 == 0
        && 0usize & 8 == 0) by (bit_vector);
    assert(4usize & !0b1111usize == 0 && 4usize & 1 == 0 && 4usize & 2 == 0 && 4usize & 4 != 0
        && 4usize & 8 == 0) by (bit_vector);
    assert(8usize & !0b1111usize == 0 && 8usize & 1 == 0 && 8usize & 2 == 0 && 8usize & 4 == 0
        && 8usize & 8 != 0) by (bit_vector);
}

/// What a round that may wait can end in, given the word it was started
/// on. Where the decision needs no exchange the round's end is fixed; where
/// it needs one, the round ends as the exchange went.
pub open spec fn lock_round_allows(state: State, tid: ThreadId, step: LockStep) -> bool {
    match lock_plan_of(state, tid) {
        LockPlan::Done(r) => step == LockStep::Done(r),
        LockPlan::Claim(_) => step == LockStep::Done(Ok(RawFusedState::Write))
            || step is Retry,
        LockPlan::Announce(_) => step == LockStep::Park || step is Retry,
        LockPlan::Park => step == LockStep::Park,
    }
}

/// What a round that must not wait can end in, given the word it was
/// started on.
pub open spec fn try_lock_round_allows(state: State, tid: ThreadId, step: TryLockStep) -> bool {
    match try_lock_plan_of(state, tid) {
        TryLockPlan::Done(r) => step == TryLockStep::Done(r),
        TryLockPlan::Claim(_) => step == TryLockStep::Done(Ok(Some(RawFusedState::Write)))
            || step is Retry,
    }
}

/// The lock of the thread-shared backend: the state word in an atomic cell.
pub struct RawFusedLock {
    pub state: Atomic<usize>,
}

impl RawFusedLock {
    /// The word that the lock was made with: where the history of the lock
    /// begins. What the lock holds now is another matter, and is only ever
    /// found out by reading it.
    pub open spec fn made_as(&self) -> State {
        State(made_with(self.state))
    }

    /// A lock that nobody holds: it is made with the blank word.
    pub fn unlocked() -> (r: RawFusedLock)
        ensures
            r.made_as() == released(FuseState::Unlocked),
            r.made_as().phase() == FuseState::Unlocked,
    {
        RawFusedLock { state: atomic_new(release_word(FuseState::Unlocked).bits()) }
    }

    /// A lock that is already fused: it is made with the word of a fused
    /// lock.
    pub fn read() -> (r: RawFusedLock)
        ensures
            r.made_as() == released(FuseState::Fused),
            r.made_as().phase() == FuseState::Fused,
    {
        RawFusedLock { state: atomic_new(release_word(FuseState::Fused).bits()) }
    }

    /// A lock that is already poisoned: it is made with the word of a
    /// poisoned lock.
    pub fn poison() -> (r: RawFusedLock)
        ensures
            r.made_as() == released(FuseState::Poisoned),
            r.made_as().phase() == FuseState::Poisoned,
    {
        RawFusedLock { state: atomic_new(release_word(FuseState::Poisoned).bits()) }
    }

    /// Reads the state word: the word that the cell holds at some moment
    /// during the call. Which word that is depends on what the other
    /// threads have done.
    pub fn load(&self) -> State {
        State::from_bits(atomic_load(&self.state))
    }

    /// Tries to replace the word `current` by `new`. The exchange may fail
    /// on any word, also on `current`; where it succeeds, the word that it
    /// replaced is `current`.
    fn exchange(&self, current: State, new: State) -> (r: Result<State, State>)
        ensures
            r matches Ok(previous) ==> previous == current,
    {
        match atomic_compare_exchange_weak(&self.state, current.bits(), new.bits()) {
            Ok(previous) => Ok(State::from_bits(previous)),
            Err(found) => Err(State::from_bits(found)),
        }
    }

    /// One round of an acquisition that may wait, for the thread `tid` that
    /// has read `state`: decides, and makes the exchange that the decision
    /// asks for. The caller goes on as the step says, and is done only when
    /// it says `Done`.
    pub fn lock_round(&self, state: State, tid: ThreadId) -> (step: LockStep)
        requires
            tid.is_valid(),
            free_means_blank(state),
        ensures
            lock_round_allows(state, tid, step),
    {
        match lock_plan(state, tid) {
            LockPlan::Done(r) => LockStep::Done(r),
            LockPlan::Claim(new) => claimed(self.exchange(state, new)),
            LockPlan::Announce(new) => announced(self.exchange(state, new)),
            LockPlan::Park => LockStep::Park,
        }
    }

    /// One round of an acquisition that must not wait. It never ends in a
    /// request to park.
    pub fn try_lock_round(&self, state: State, tid: ThreadId) -> (step: TryLockStep)
        requires
            tid.is_valid(),
            free_means_blank(state),
        ensures
            try_lock_round_allows(state, tid, step),
    {
        match try_lock_plan(state, tid) {
            TryLockPlan::Done(r) => TryLockStep::Done(r),
            TryLockPlan::Claim(new) => try_claimed(self.exchange(state, new)),
        }
    }

    /// Whether a thread that is about to park still has a reason to, on the
    /// word as it is now: the answer of `must_wait` on the word that `load`
    /// finds.
    pub fn should_park(&self) -> bool {
        must_wait(self.load())
    }

    /// Looks at the lock and changes nothing: the answer of `peek` on the
    /// word that `load` finds.
    pub fn try_read_checked(&self) -> Result<RawFusedState, PoisonError> {
        peek(self.load())
    }

    /// Looks at a lock that the caller owns alone, and leaves it as it was.
    /// The answer is that of `peek` on the word that the lock holds.
    pub fn try_get_mut(&mut self) -> (r: Result<RawFusedState, PoisonError>)
        ensures
            *final(self) == *old(self),
    {
        peek(State::from_bits(atomic_get_mut(&mut self.state)))
    }

    /// Stores `new_state` and says whether waiters must be woken: they must
    /// if the word that was replaced announced one.
    pub fn unlock_impl(&self, new_state: State) -> bool {
        let old_state = State::from_bits(atomic_swap(&self.state, new_state.bits()));
        old_state.parked()
    }

    /// The writer gives the lock back, still mutable. Says whether waiters
    /// must be woken.
    pub fn unlock(&self) -> bool {
        self.unlock_impl(release_word(FuseState::Unlocked))
    }

    /// The writer is done: the lock is read-only from now on. Says whether
    /// waiters must be woken.
    pub fn unlock_fuse(&self) -> bool {
        self.unlock_impl(release_word(FuseState::Fused))
    }

    /// The writer gives up: the lock is poisoned. Says whether waiters must
    /// be woken.
    pub fn unlock_poison(&self) -> bool {
        self.unlock_impl(release_word(FuseState::Poisoned))
    }
}

} // verus!
