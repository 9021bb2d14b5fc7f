use safe_once::api::raw::FuseState;
use safe_once::api::raw::RawFusedState;
use safe_once::error::PoisonError;
use safe_once::error::TryLockError;
use safe_once::sync::raw_fused_lock::announced;
use safe_once::sync::raw_fused_lock::claimed;
use safe_once::sync::raw_fused_lock::lock_plan;
use safe_once::sync::raw_fused_lock::must_wait;
use safe_once::sync::raw_fused_lock::peek;
use safe_once::sync::raw_fused_lock::release_word;
use safe_once::sync::raw_fused_lock::try_claimed;
use safe_once::sync::raw_fused_lock::try_lock_plan;
use safe_once::sync::raw_fused_lock::LockPlan;
use safe_once::sync::raw_fused_lock::LockStep;
use safe_once::sync::raw_fused_lock::TryLockPlan;
use safe_once::sync::raw_fused_lock::TryLockStep;
use safe_once::sync::state::State;
use safe_once::sync::state::INIT;
use safe_once::sync::state::LOCKED;
use safe_once::sync::state::PARKED;
use safe_once::sync::state::POISON;
use safe_once::sync::thread_id::ThreadId;
use safe_once::sync::thread_id::FLAG_MASK;

#[test]
fn the_flags_are_the_four_low_bits() {
    assert_eq!(LOCKED, 1);
    assert_eq!(PARKED, 2);
    assert_eq!(INIT, 4);
    assert_eq!(POISON, 8);
    assert_eq!(FLAG_MASK, 15);
    assert_eq!(State::new().bits(), 0);
    assert_eq!(State::new().with_locked(true).bits(), 1);
    assert_eq!(State::new().with_parked(true).bits(), 2);
    assert_eq!(State::new().with_init(true).bits(), 4);
    assert_eq!(State::new().with_poison(true).bits(), 8);
    assert_eq!(State::from_bits(15).with_locked(false).bits(), 14);
    assert_eq!(State::from_bits(15).with_parked(false).bits(), 13);
    assert_eq!(State::from_bits(15).with_init(false).bits(), 11);
    assert_eq!(State::from_bits(15).with_poison(false).bits(), 7);
}

#[test]
fn the_identity_shares_the_word_with_the_flags() {
    let tid = ThreadId::new(0x7f40);
    assert_eq!(tid.get(), 0x7f40);
    let word = State::new().with_thread_id(tid).with_locked(true);
    assert_eq!(word.bits(), 0x7f41);
    assert_eq!(word.thread_id(), tid);
    assert!(word.locked());
    assert!(!word.parked());
    assert!(!word.init());
    assert!(!word.poison());
    let waited = word.with_parked(true);
    assert_eq!(waited.bits(), 0x7f43);
    assert_eq!(waited.thread_id(), tid);
    assert!(waited.parked());
    let other = waited.with_thread_id(ThreadId::new(0x10));
    assert_eq!(other.bits(), 0x13);
    assert_eq!(State::from_bits(0x7f4f).thread_id(), ThreadId(0x7f40));
    assert_eq!(State::new().thread_id(), ThreadId(0));
}

#[test]
fn an_identity_is_not_zero_and_leaves_the_flags_clear() {
    assert!(ThreadId::fits(16));
    assert!(ThreadId::fits(0x7fff_fff0));
    assert!(!ThreadId::fits(0));
    assert!(!ThreadId::fits(1));
    assert!(!ThreadId::fits(24));
    assert!(!ThreadId::fits(0x7f41));
}

#[test]
fn a_free_lock_is_claimed() {
    let tid = ThreadId::new(0x40);
    assert_eq!(lock_plan(State::new(), tid), LockPlan::Claim(State::from_bits(0x41)));
    assert_eq!(try_lock_plan(State::new(), tid), TryLockPlan::Claim(State::from_bits(0x41)));
}

#[test]
fn a_fused_lock_is_read() {
    let tid = ThreadId::new(0x40);
    let fused = State::from_bits(INIT);
    assert_eq!(lock_plan(fused, tid), LockPlan::Done(Ok(RawFusedState::Read)));
    assert_eq!(try_lock_plan(fused, tid), TryLockPlan::Done(Ok(Some(RawFusedState::Read))));
    assert_eq!(peek(fused), Ok(RawFusedState::Read));
}

#[test]
fn a_poisoned_lock_is_reported() {
    let tid = ThreadId::new(0x40);
    let poisoned = State::from_bits(POISON);
    assert_eq!(
        lock_plan(poisoned, tid),
        LockPlan::Done(Err(TryLockError::Poisoned(PoisonError)))
    );
    assert_eq!(try_lock_plan(poisoned, tid), TryLockPlan::Done(Err(PoisonError)));
    assert_eq!(peek(poisoned), Err(PoisonError));
}

#[test]
fn a_lock_held_by_the_caller_is_a_cycle() {
    let tid = ThreadId::new(0x40);
    assert_eq!(
        lock_plan(State::from_bits(0x41), tid),
        LockPlan::Done(Err(TryLockError::WouldBlock))
    );
    assert_eq!(
        lock_plan(State::from_bits(0x43), tid),
        LockPlan::Done(Err(TryLockError::WouldBlock))
    );
}

#[test]
fn a_lock_held_by_another_is_waited_for() {
    let tid = ThreadId::new(0x40);
    assert_eq!(
        lock_plan(State::from_bits(0x81), tid),
        LockPlan::Announce(State::from_bits(0x83))
    );
    assert_eq!(lock_plan(State::from_bits(0x83), tid), LockPlan::Park);
}

#[test]
fn a_held_lock_is_never_waited_for_by_try() {
    let tid = ThreadId::new(0x40);
    assert_eq!(try_lock_plan(State::from_bits(0x41), tid), TryLockPlan::Done(Ok(None)));
    assert_eq!(try_lock_plan(State::from_bits(0x81), tid), TryLockPlan::Done(Ok(None)));
    assert_eq!(try_lock_plan(State::from_bits(0x83), tid), TryLockPlan::Done(Ok(None)));
    assert_eq!(peek(State::from_bits(0x83)), Ok(RawFusedState::Write));
    assert_eq!(peek(State::new()), Ok(RawFusedState::Write));
}

#[test]
fn an_exchange_that_failed_asks_for_another_round() {
    let found = State::from_bits(0x81);
    assert_eq!(claimed(Ok(State::new())), LockStep::Done(Ok(RawFusedState::Write)));
    assert_eq!(claimed(Err(found)), LockStep::Retry(found));
    assert_eq!(announced(Ok(found)), LockStep::Park);
    assert_eq!(announced(Err(State::from_bits(INIT))), LockStep::Retry(State::from_bits(INIT)));
    assert_eq!(
        try_claimed(Ok(State::new())),
        TryLockStep::Done(Ok(Some(RawFusedState::Write)))
    );
    assert_eq!(try_claimed(Err(found)), TryLockStep::Retry(found));
}

#[test]
fn a_thread_parks_only_on_a_held_lock_with_a_waiter() {
    assert!(must_wait(State::from_bits(0x83)));
    assert!(!must_wait(State::from_bits(0x81)));
    assert!(!must_wait(State::new()));
    assert!(!must_wait(State::from_bits(INIT)));
    assert!(!must_wait(State::from_bits(POISON)));
}

#[test]
fn a_release_stores_one_of_three_words() {
    assert_eq!(release_word(FuseState::Unlocked), State::from_bits(0));
    assert_eq!(release_word(FuseState::Fused), State::from_bits(4));
    assert_eq!(release_word(FuseState::Poisoned), State::from_bits(8));
}
