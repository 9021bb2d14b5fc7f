//! What the thread-shared backend guarantees when threads race.
//!
//! Threads change the state word in three ways only: a claim that was
//! stored, an announcement that was stored, and a release by the holder.
//! Each of them is one atomic exchange, so whatever the threads do, the word
//! goes through a sequence of such events, every one of them allowed on the
//! word that it found. The laws below hold of every such sequence.

use crate::api::raw::FuseState;
use crate::api::raw::RawFusedState;
use crate::error::TryLockError;
use crate::sync::raw_fused_lock::held_by;
use crate::sync::raw_fused_lock::lemma_held_by;
use crate::sync::raw_fused_lock::lemma_released_words;
use crate::sync::raw_fused_lock::lemma_with_waiter;
use crate::sync::raw_fused_lock::lock_plan_of;
use crate::sync::raw_fused_lock::lock_round_allows;
use crate::sync::raw_fused_lock::released;
use crate::sync::raw_fused_lock::try_lock_plan_of;
use crate::sync::raw_fused_lock::try_lock_round_allows;
use crate::sync::raw_fused_lock::with_waiter;
use crate::sync::raw_fused_lock::free_means_blank;
use crate::sync::raw_fused_lock::LockPlan;
use crate::sync::raw_fused_lock::LockStep;
use crate::sync::raw_fused_lock::TryLockPlan;
use crate::sync::raw_fused_lock::TryLockStep;
use crate::sync::state::State;
use crate::sync::thread_id::ThreadId;
use vstd::prelude::*;

verus! {

/// One change of the state word.
pub enum Event {
    /// The claim of this thread was stored: it is the writer now.
    Claim(ThreadId),
    /// The announcement of this thread was stored: it is going to park.
    Announce(ThreadId),
    /// This thread, the writer, released the lock to this state.
    Release(ThreadId, FuseState),
}

impl Event {
    /// The thread whose exchange the event is.
    pub open spec fn thread(self) -> ThreadId {
        match self {
            Event::Claim(tid) => tid,
            Event::Announce(tid) => tid,
            Event::Release(tid, _) => tid,
        }
    }
}

/// The event can happen on `word`. A claim or an announcement is stored only
/// where the decision of its thread on `word` asks for it, since the
/// exchange that stores it succeeds only on the word that the thread decided
/// on. A release is made only by the thread that holds the lock.
pub open spec fn enabled(word: State, event: Event) -> bool {
    match event {
        Event::Claim(tid) => tid.is_valid() && lock_plan_of(word, tid) is Claim,
        Event::Announce(tid) => tid.is_valid() && lock_plan_of(word, tid) is Announce,
        Event::Release(tid, to) => word.phase() == FuseState::Writing && word@.thread_id == tid
            && to != FuseState::Writing,
    }
}

/// The word that the event leaves.
pub open spec fn step(word: State, event: Event) -> State {
    match event {
        Event::Claim(tid) => held_by(tid),
        Event::Announce(_) => with_waiter(word),
        Event::Release(_, to) => released(to),
    }
}

/// The word after `events` have happened, one after the other, on `word`.
pub open spec fn run(word: State, events: Seq<Event>) -> State
    decreases events.len(),
{
    if events.len() == 0 {
        word
    } else {
        step(run(word, events.drop_last()), events.last())
    }
}

/// Each of `events` can happen on the word that those before it left.
pub open spec fn valid(word: State, events: Seq<Event>) -> bool
    decreases events.len(),
{
    events.len() == 0 || (valid(word, events.drop_last()) && enabled(
        run(word, events.drop_last()),
        events.last(),
    ))
}

/// How many times the lock was won: the number of claims among `events`.
pub open spec fn wins(events: Seq<Event>) -> nat
    decreases events.len(),
{
    if events.len() == 0 {
        0
    } else {
        wins(events.drop_last()) + if events.last() is Claim {
            1nat
        } else {
            0nat
        }
    }
}

/// No writer gives the lock back unfinished: every release among `events`
/// fuses or poisons. This is how the writers of a run-once or a lazy value
/// behave.
pub open spec fn writers_finish(events: Seq<Event>) -> bool {
    forall|i: int|
        0 <= i < events.len() ==> (#[trigger] events[i] matches Event::Release(_, to)
            ==> to.is_terminal())
}

/// No release is among `events`.
pub open spec fn nobody_releases(events: Seq<Event>) -> bool {
    forall|i: int| 0 <= i < events.len() ==> !(#[trigger] events[i] is Release)
}

/// None of `events` is an exchange of the thread `tid`.
pub open spec fn others_only(events: Seq<Event>, tid: ThreadId) -> bool {
    forall|i: int| 0 <= i < events.len() ==> (#[trigger] events[i]).thread() != tid
}

/// How many times the locks were won, over the histories of several locks.
pub open spec fn total_wins(histories: Seq<Seq<Event>>) -> nat
    decreases histories.len(),
{
    if histories.len() == 0 {
        0
    } else {
        total_wins(histories.drop_last()) + wins(histories.last())
    }
}

/// A proper word meets what a decision asks of the word it is taken on.
pub proof fn lemma_proper_words_can_be_decided_on(word: State)
    requires
        word.is_proper(),
    ensures
        free_means_blank(word),
{
}

/// An event that can happen on a proper word leaves a proper word.
pub proof fn lemma_step_keeps_proper(word: State, event: Event)
    requires
        word.is_proper(),
        enabled(word, event),
    ensures
        step(word, event).is_proper(),
{
    match event {
        Event::Claim(tid) => {
            lemma_held_by(tid);
        },
        Event::Announce(_) => {
            lemma_with_waiter(word);
        },
        Event::Release(_, to) => {
            lemma_released_words();
        },
    }
}

/// Whatever the threads do, the word stays proper.
pub proof fn lemma_run_keeps_proper(word: State, events: Seq<Event>)
    requires
        word.is_proper(),
        valid(word, events),
    ensures
        run(word, events).is_proper(),
    decreases events.len(),
{
    if events.len() > 0 {
        lemma_run_keeps_proper(word, events.drop_last());
        lemma_step_keeps_proper(run(word, events.drop_last()), events.last());
    }
}

/// The states are passed in one direction only. A free lock can only be
/// claimed; a held lock stays held, by the same thread, until that thread
/// releases it; and nothing can happen to a fused or a poisoned lock.
pub proof fn lemma_step_is_monotonic(word: State, event: Event)
    requires
        enabled(word, event),
    ensures
        match word.phase() {
            FuseState::Unlocked => event is Claim && step(word, event).phase()
                == FuseState::Writing,
            FuseState::Writing => match event {
                Event::Claim(_) => false,
                Event::Announce(_) => step(word, event).phase() == FuseState::Writing && step(
                    word,
                    event,
                )@.thread_id == word@.thread_id && step(word, event)@.parked,
                Event::Release(tid, to) => tid == word@.thread_id && step(word, event).phase()
                    == to,
            },
            FuseState::Fused => false,
            FuseState::Poisoned => false,
        },
{
    match event {
        Event::Claim(tid) => {
            lemma_held_by(tid);
        },
        Event::Announce(_) => {
            lemma_with_waiter(word);
        },
        Event::Release(_, to) => {
            lemma_released_words();
        },
    }
}

/// Once a lock is fused or poisoned its word never changes again.
pub proof fn lemma_terminal_is_final(word: State, events: Seq<Event>)
    requires
        word.phase().is_terminal(),
        valid(word, events),
    ensures
        events.len() == 0,
        run(word, events) == word,
    decreases events.len(),
{
    if events.len() > 0 {
        lemma_terminal_is_final(word, events.drop_last());
        lemma_step_is_monotonic(word, events.last());
    }
}

/// The payload is handed out to read only once the lock is fused, and to
/// write only on a lock that was free: a decision lets a reader in exactly
/// on a fused word, and claims exactly on a free one.
pub proof fn lemma_access_follows_the_state(word: State, tid: ThreadId)
    ensures
        lock_plan_of(word, tid) == LockPlan::Done(Ok(RawFusedState::Read)) <==> word.phase()
            == FuseState::Fused,
        try_lock_plan_of(word, tid) == TryLockPlan::Done(Ok(Some(RawFusedState::Read)))
            <==> word.phase() == FuseState::Fused,
        lock_plan_of(word, tid) is Claim <==> word.phase() == FuseState::Unlocked,
        try_lock_plan_of(word, tid) is Claim <==> word.phase() == FuseState::Unlocked,
        !(lock_plan_of(word, tid) == LockPlan::Done(Ok(RawFusedState::Write))),
        !(try_lock_plan_of(word, tid) == TryLockPlan::Done(Ok(Some(RawFusedState::Write)))),
{
}

/// Once the lock is fused every thread reads, whatever happens later and
/// whichever thread asks: all of them are handed the one payload that the
/// writer fused.
pub proof fn lemma_fused_is_read_by_all(word: State, events: Seq<Event>, tid: ThreadId)
    requires
        word.phase() == FuseState::Fused,
        valid(word, events),
    ensures
        lock_plan_of(run(word, events), tid) == LockPlan::Done(Ok(RawFusedState::Read)),
        try_lock_plan_of(run(word, events), tid) == TryLockPlan::Done(
            Ok(Some(RawFusedState::Read)),
        ),
{
    lemma_terminal_is_final(word, events);
}

/// The decisions on the word follow the contract that every backend
/// follows. Where the contract lets the caller in, to read or to write, or
/// reports the poison, the decision does the same: it ends the acquisition
/// with that answer, or claims the lock, which gives the writer's access
/// when the claim is stored. Where the contract refuses a caller because the
/// lock is held, the decision refuses the holder itself in the same way,
/// and waits for another holder if the caller is ready to wait.
pub proof fn lemma_plans_follow_the_contract(word: State, tid: ThreadId)
    ensures
        match word.phase() {
            FuseState::Unlocked => word.phase().acquired() == Ok::<RawFusedState, TryLockError>(
                RawFusedState::Write,
            ) && lock_plan_of(word, tid) == LockPlan::Claim(held_by(tid)) && try_lock_plan_of(
                word,
                tid,
            ) == TryLockPlan::Claim(held_by(tid)),
            FuseState::Writing => try_lock_plan_of(word, tid) == TryLockPlan::Done(
                word.phase().try_acquired(),
            ) && if word@.thread_id == tid {
                lock_plan_of(word, tid) == LockPlan::Done(word.phase().acquired())
            } else {
                lock_plan_of(word, tid) is Announce || lock_plan_of(word, tid) is Park
            },
            _ => lock_plan_of(word, tid) == LockPlan::Done(word.phase().acquired())
                && try_lock_plan_of(word, tid) == TryLockPlan::Done(word.phase().try_acquired()),
        },
{
}

/// One writer at a time: a lock that is held stays held, by the same
/// thread, until that thread releases it. No other thread's claim can be
/// stored in the meantime.
pub proof fn lemma_holder_keeps_lock(word: State, events: Seq<Event>)
    requires
        word.phase() == FuseState::Writing,
        valid(word, events),
        nobody_releases(events),
    ensures
        run(word, events).phase() == FuseState::Writing,
        run(word, events)@.thread_id == word@.thread_id,
        wins(events) == 0,
        forall|other: ThreadId| !enabled(run(word, events), Event::Claim(other)),
    decreases events.len(),
{
    if events.len() > 0 {
        let before = run(word, events.drop_last());
        assert(nobody_releases(events.drop_last())) by {
            assert forall|i: int| 0 <= i < events.drop_last().len() implies !(
            #[trigger] events.drop_last()[i] is Release) by {
                assert(events.drop_last()[i] == events[i]);
            }
        }
        lemma_holder_keeps_lock(word, events.drop_last());
        assert(!(events[events.len() - 1] is Release));
        lemma_step_is_monotonic(before, events.last());
    }
}

/// A thread that wants a lock which it holds itself is told `WouldBlock` at
/// once: its round ends there, with no exchange and no parking, whatever
/// other threads have announced in the meantime.
pub proof fn lemma_holder_is_told_of_cycle(
    word: State,
    events: Seq<Event>,
    tid: ThreadId,
    step: LockStep,
)
    requires
        word.phase() == FuseState::Writing,
        word@.thread_id == tid,
        valid(word, events),
        nobody_releases(events),
        lock_round_allows(run(word, events), tid, step),
    ensures
        step == LockStep::Done(Err(TryLockError::WouldBlock)),
{
    lemma_holder_keeps_lock(word, events);
}

/// The answer of an acquisition that may wait is never out of date. An
/// acquisition ends without an exchange only on a word that tells its thread
/// something no other thread can change: that the lock is fused, that it is
/// poisoned, or that the thread holds it itself. Whatever the other threads
/// do after the word was read, the same decision would be taken on the word
/// as it is when the answer is given.
pub proof fn lemma_answers_stay_true(
    word: State,
    events: Seq<Event>,
    tid: ThreadId,
    answer: Result<RawFusedState, TryLockError>,
)
    requires
        lock_plan_of(word, tid) == LockPlan::Done(answer),
        valid(word, events),
        others_only(events, tid),
    ensures
        lock_plan_of(run(word, events), tid) == LockPlan::Done(answer),
    decreases events.len(),
{
    if events.len() > 0 {
        let before = run(word, events.drop_last());
        assert(others_only(events.drop_last(), tid)) by {
            assert forall|i: int| 0 <= i < events.drop_last().len() implies (
            #[trigger] events.drop_last()[i]).thread() != tid by {
                assert(events.drop_last()[i] == events[i]);
            }
        }
        lemma_answers_stay_true(word, events.drop_last(), tid, answer);
        assert(events[events.len() - 1].thread() != tid);
        lemma_step_is_monotonic(before, events.last());
    }
}

/// A caller that must not wait is never asked to: on a lock that is held,
/// by whomever, its round ends with `Ok(None)` and without an exchange.
pub proof fn lemma_try_never_waits(word: State, tid: ThreadId, step: TryLockStep)
    requires
        word.phase() == FuseState::Writing,
        try_lock_round_allows(word, tid, step),
    ensures
        step == TryLockStep::Done(Ok(None)),
{
}

/// The announcement of a waiter stays in the word until the release: the
/// release finds it there, and so knows that it has to wake the waiters.
pub proof fn lemma_waiter_is_seen_by_release(word: State, events: Seq<Event>)
    requires
        word.phase() == FuseState::Writing,
        word@.parked,
        valid(word, events),
        nobody_releases(events),
    ensures
        run(word, events).phase() == FuseState::Writing,
        run(word, events)@.parked,
    decreases events.len(),
{
    if events.len() > 0 {
        let before = run(word, events.drop_last());
        assert(nobody_releases(events.drop_last())) by {
            assert forall|i: int| 0 <= i < events.drop_last().len() implies !(
            #[trigger] events.drop_last()[i] is Release) by {
                assert(events.drop_last()[i] == events[i]);
            }
        }
        lemma_waiter_is_seen_by_release(word, events.drop_last());
        assert(!(events[events.len() - 1] is Release));
        lemma_step_is_monotonic(before, events.last());
    }
}

/// No wake-up is missed. A thread parks only on a word that says that the
/// lock is held and a waiter announced; no release stores such a word, so a
/// thread that looks at the word after the release does not park, and one
/// that parked before it is woken by it.
pub proof fn lemma_release_ends_the_wait(word: State, tid: ThreadId, to: FuseState)
    requires
        enabled(word, Event::Release(tid, to)),
    ensures
        !(step(word, Event::Release(tid, to))@.locked && step(
            word,
            Event::Release(tid, to),
        )@.parked),
        step(word, Event::Release(tid, to)).phase() == to,
        !(lock_plan_of(step(word, Event::Release(tid, to)), tid) is Park),
{
    lemma_released_words();
}

/// The lock is won once while no writer gives it back unfinished. Where
/// every writer fuses or poisons, a lock that started free was won at most
/// once, and exactly once if it is held, fused or poisoned now.
pub proof fn lemma_won_once(events: Seq<Event>)
    requires
        valid(State(0), events),
        writers_finish(events),
    ensures
        wins(events) == (if run(State(0), events).phase() == FuseState::Unlocked {
            0nat
        } else {
            1nat
        }),
    decreases events.len(),
{
    lemma_released_words();
    if events.len() > 0 {
        let before = run(State(0), events.drop_last());
        assert(writers_finish(events.drop_last())) by {
            assert forall|i: int| 0 <= i < events.drop_last().len() implies (
            #[trigger] events.drop_last()[i] matches Event::Release(_, to)
                ==> to.is_terminal()) by {
                assert(events.drop_last()[i] == events[i]);
            }
        }
        lemma_won_once(events.drop_last());
        assert(events[events.len() - 1] == events.last());
        lemma_step_is_monotonic(before, events.last());
    }
}

/// Exactly one of the threads that race for a fresh run-once value runs its
/// initialiser: where the value is written in the end, and no writer gave
/// the lock back unfinished, the lock was won exactly once.
pub proof fn lemma_exactly_one_initializer(events: Seq<Event>)
    requires
        valid(State(0), events),
        writers_finish(events),
        run(State(0), events).phase() == FuseState::Fused,
    ensures
        wins(events) == 1,
{
    lemma_won_once(events);
}

/// Over any number of fresh run-once values that threads race for, the wins
/// add up to the number of values: each value that is written in the end
/// was won exactly once.
pub proof fn lemma_wins_add_up(histories: Seq<Seq<Event>>)
    requires
        forall|k: int|
            0 <= k < histories.len() ==> valid(State(0), #[trigger] histories[k])
                && writers_finish(histories[k]) && run(State(0), histories[k]).phase()
                == FuseState::Fused,
    ensures
        total_wins(histories) == histories.len(),
    decreases histories.len(),
{
    if histories.len() > 0 {
        assert forall|k: int| 0 <= k < histories.drop_last().len() implies valid(
            State(0),
            #[trigger] histories.drop_last()[k],
        ) && writers_finish(histories.drop_last()[k]) && run(
            State(0),
            histories.drop_last()[k],
        ).phase() == FuseState::Fused by {
            assert(histories.drop_last()[k] == histories[k]);
        }
        lemma_wins_add_up(histories.drop_last());
        assert(histories[histories.len() - 1] == histories.last());
        lemma_exactly_one_initializer(histories.last());
    }
}

/// A round that ends with the writer's access has stored a claim: the lock
/// was free on the word that the round was started on.
pub proof fn lemma_write_access_is_a_claim(word: State, tid: ThreadId, step: LockStep)
    requires
        tid.is_valid(),
        lock_round_allows(word, tid, step),
        step == LockStep::Done(Ok(RawFusedState::Write)),
    ensures
        enabled(word, Event::Claim(tid)),
        word.phase() == FuseState::Unlocked,
{
}

} // verus!
