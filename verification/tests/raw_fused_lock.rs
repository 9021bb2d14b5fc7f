use safe_once::api::raw::RawFusedState;
use safe_once::error::PoisonError;
use safe_once::error::TryLockError;
use safe_once::sync::raw_fused_lock::LockStep;
use safe_once::sync::raw_fused_lock::RawFusedLock;
use safe_once::sync::raw_fused_lock::TryLockStep;
use safe_once::sync::state::State;
use safe_once::sync::thread_id::ThreadId;

#[derive(Debug, PartialEq, Eq)]
enum Outcome {
    Got(Result<RawFusedState, TryLockError>),
    Parked,
}

fn acquire(lock: &RawFusedLock, tid: ThreadId) -> Outcome {
    let mut state = lock.load();
    loop {
        match lock.lock_round(state, tid) {
            LockStep::Done(r) => return Outcome::Got(r),
            LockStep::Retry(found) => state = found,
            LockStep::Park => return Outcome::Parked,
        }
    }
}

fn try_acquire(lock: &RawFusedLock, tid: ThreadId) -> Result<Option<RawFusedState>, PoisonError> {
    let mut state = lock.load();
    loop {
        match lock.try_lock_round(state, tid) {
            TryLockStep::Done(r) => return r,
            TryLockStep::Retry(found) => state = found,
        }
    }
}

#[test]
fn the_constructors_store_their_word() {
    assert_eq!(RawFusedLock::unlocked().load(), State::from_bits(0));
    assert_eq!(RawFusedLock::read().load(), State::from_bits(4));
    assert_eq!(RawFusedLock::poison().load(), State::from_bits(8));
    assert_eq!(RawFusedLock::unlocked().try_read_checked(), Ok(RawFusedState::Write));
    assert_eq!(RawFusedLock::read().try_read_checked(), Ok(RawFusedState::Read));
    assert_eq!(RawFusedLock::poison().try_read_checked(), Err(PoisonError));
    assert_eq!(RawFusedLock::unlocked().try_get_mut(), Ok(RawFusedState::Write));
    assert_eq!(RawFusedLock::read().try_get_mut(), Ok(RawFusedState::Read));
    assert_eq!(RawFusedLock::poison().try_get_mut(), Err(PoisonError));
}

#[test]
fn an_exclusive_look_leaves_the_lock_as_it_was() {
    let mut held = RawFusedLock::unlocked();
    assert_eq!(acquire(&held, ThreadId::new(0x40)), Outcome::Got(Ok(RawFusedState::Write)));
    assert_eq!(held.try_get_mut(), Ok(RawFusedState::Write));
    assert_eq!(held.load(), State::from_bits(0x41));
    let mut fused = RawFusedLock::read();
    assert_eq!(fused.try_get_mut(), Ok(RawFusedState::Read));
    assert_eq!(fused.try_get_mut(), Ok(RawFusedState::Read));
    assert_eq!(fused.load(), State::from_bits(4));
}

#[test]
fn a_claim_is_stored_in_the_word() {
    let lock = RawFusedLock::unlocked();
    let tid = ThreadId::new(0x40);
    assert_eq!(acquire(&lock, tid), Outcome::Got(Ok(RawFusedState::Write)));
    assert_eq!(lock.load(), State::from_bits(0x41));
    assert_eq!(lock.try_read_checked(), Ok(RawFusedState::Write));
}

#[test]
fn a_round_on_a_stale_word_stores_nothing() {
    let lock = RawFusedLock::unlocked();
    let first = ThreadId::new(0x40);
    let second = ThreadId::new(0x80);
    let stale = lock.load();
    assert_eq!(acquire(&lock, first), Outcome::Got(Ok(RawFusedState::Write)));
    assert_eq!(lock.lock_round(stale, second), LockStep::Retry(State::from_bits(0x41)));
    assert_eq!(lock.try_lock_round(stale, second), TryLockStep::Retry(State::from_bits(0x41)));
    assert_eq!(lock.load(), State::from_bits(0x41));
}

#[test]
fn the_holder_is_told_of_the_cycle() {
    let lock = RawFusedLock::unlocked();
    let tid = ThreadId::new(0x40);
    assert_eq!(acquire(&lock, tid), Outcome::Got(Ok(RawFusedState::Write)));
    assert_eq!(acquire(&lock, tid), Outcome::Got(Err(TryLockError::WouldBlock)));
    assert_eq!(lock.load(), State::from_bits(0x41));
    assert!(!lock.should_park());
}

#[test]
fn a_waiter_announces_itself_and_is_woken_by_the_release() {
    let lock = RawFusedLock::unlocked();
    let holder = ThreadId::new(0x40);
    let waiter = ThreadId::new(0x80);
    assert_eq!(acquire(&lock, holder), Outcome::Got(Ok(RawFusedState::Write)));
    assert_eq!(acquire(&lock, waiter), Outcome::Parked);
    assert_eq!(lock.load(), State::from_bits(0x43));
    assert!(lock.should_park());
    assert_eq!(acquire(&lock, waiter), Outcome::Parked);
    assert_eq!(acquire(&lock, holder), Outcome::Got(Err(TryLockError::WouldBlock)));
    assert!(lock.unlock_fuse());
    assert!(!lock.should_park());
    assert_eq!(lock.load(), State::from_bits(4));
    assert_eq!(acquire(&lock, waiter), Outcome::Got(Ok(RawFusedState::Read)));
    assert_eq!(acquire(&lock, holder), Outcome::Got(Ok(RawFusedState::Read)));
}

#[test]
fn a_release_without_waiters_wakes_nobody() {
    let lock = RawFusedLock::unlocked();
    let tid = ThreadId::new(0x40);
    assert_eq!(acquire(&lock, tid), Outcome::Got(Ok(RawFusedState::Write)));
    assert!(!lock.unlock());
    assert_eq!(lock.load(), State::from_bits(0));
    assert_eq!(acquire(&lock, tid), Outcome::Got(Ok(RawFusedState::Write)));
    assert!(!lock.unlock_poison());
    assert_eq!(lock.load(), State::from_bits(8));
    assert_eq!(
        acquire(&lock, tid),
        Outcome::Got(Err(TryLockError::Poisoned(PoisonError)))
    );
    assert_eq!(try_acquire(&lock, tid), Err(PoisonError));
    assert!(!lock.unlock_impl(State::from_bits(0x43)));
    assert!(lock.unlock_impl(State::from_bits(4)));
}

#[test]
fn try_never_parks_on_a_contended_lock() {
    let lock = RawFusedLock::unlocked();
    let holder = ThreadId::new(0x40);
    let other = ThreadId::new(0x80);
    assert_eq!(try_acquire(&lock, holder), Ok(Some(RawFusedState::Write)));
    assert_eq!(try_acquire(&lock, other), Ok(None));
    assert_eq!(try_acquire(&lock, holder), Ok(None));
    assert_eq!(lock.load(), State::from_bits(0x41));
    assert!(!lock.unlock_fuse());
    assert_eq!(try_acquire(&lock, other), Ok(Some(RawFusedState::Read)));
}

#[test]
fn test_stress() {
    for threads in 1..=8usize {
        let locks: Vec<RawFusedLock> = (0..1000).map(|_| RawFusedLock::unlocked()).collect();
        let mut wins = vec![0usize; threads];
        for (k, lock) in locks.iter().enumerate() {
            let seen: Vec<State> = (0..threads).map(|_| lock.load()).collect();
            let mut parked = vec![];
            for turn in 0..threads {
                let t = (k + turn) % threads;
                let tid = ThreadId::new((t + 1) * 16);
                let mut state = seen[t];
                loop {
                    match lock.lock_round(state, tid) {
                        LockStep::Done(Ok(RawFusedState::Write)) => {
                            wins[t] += 1;
                            break;
                        }
                        LockStep::Done(r) => panic!("{:?}", r),
                        LockStep::Retry(found) => state = found,
                        LockStep::Park => {
                            parked.push(tid);
                            break;
                        }
                    }
                }
            }
            assert_eq!(parked.len(), threads - 1);
            assert_eq!(lock.unlock_fuse(), threads > 1);
            for tid in parked {
                assert_eq!(acquire(lock, tid), Outcome::Got(Ok(RawFusedState::Read)));
            }
        }
        assert_eq!(wins.iter().sum::<usize>(), locks.len());
    }
}
