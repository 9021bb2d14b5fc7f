use safe_once::api::raw::RawFused;
use safe_once::api::raw::RawFusedState;
use safe_once::cell::once_cell::RawOnceCell;
use safe_once::cell::raw_fused_cell::RawFusedCell;
use safe_once::cell::raw_fused_cell::State;
use safe_once::error::PoisonError;
use safe_once::error::TryLockError;
use safe_once::raw::RawOnce;
use safe_once::raw::RawOnceState;
use safe_once::unsync::once_cell::OnceCell;
use safe_once::unsync::once_cell::OnceCellEntry;

#[test]
fn a_cell_passes_through_its_states() {
    let mut raw = RawFusedCell::unlocked();
    assert_eq!(raw.try_read_checked(), Ok(RawFusedState::Write));
    assert_eq!(raw.write_checked(), Ok(RawFusedState::Write));
    assert_eq!(raw.0, State::Initializing);
    assert_eq!(raw.write_checked(), Err(TryLockError::WouldBlock));
    assert_eq!(raw.try_write_checked(), Ok(None));
    assert_eq!(raw.try_read_checked(), Ok(RawFusedState::Write));
    assert_eq!(raw.try_get_mut(), Ok(RawFusedState::Write));
    raw.unlock();
    assert_eq!(raw.0, State::Uninit);
    assert_eq!(raw.try_write_checked(), Ok(Some(RawFusedState::Write)));
    raw.unlock_fuse();
    assert_eq!(raw.0, State::Initialized);
    assert_eq!(raw.write_checked(), Ok(RawFusedState::Read));
    assert_eq!(raw.try_write_checked(), Ok(Some(RawFusedState::Read)));
    assert_eq!(raw.try_read_checked(), Ok(RawFusedState::Read));
    assert_eq!(raw.try_get_mut(), Ok(RawFusedState::Read));
}

#[test]
fn a_poisoned_cell_stays_poisoned() {
    let mut raw = RawFusedCell::unlocked();
    assert_eq!(raw.write_checked(), Ok(RawFusedState::Write));
    raw.unlock_poison();
    assert_eq!(raw.0, State::Poison);
    assert_eq!(raw.write_checked(), Err(TryLockError::Poisoned(PoisonError)));
    assert_eq!(raw.try_write_checked(), Err(PoisonError));
    assert_eq!(raw.try_read_checked(), Err(PoisonError));
    assert_eq!(raw.try_get_mut(), Err(PoisonError));
    assert_eq!(raw.0, State::Poison);
    assert_eq!(RawFusedCell::poison().0, State::Poison);
    assert_eq!(RawFusedCell::read().0, State::Initialized);
}

#[test]
fn a_slot_is_vacant_until_it_is_initialized() {
    let mut raw = RawOnceCell::uninit();
    assert_eq!(raw.try_get_checked(), Ok(RawOnceState::Vacant));
    assert_eq!(raw.get_checked(), Ok(RawOnceState::Vacant));
    assert_eq!(raw.lock_checked(), Ok(RawOnceState::Vacant));
    assert_eq!(raw.lock_checked(), Err(TryLockError::WouldBlock));
    assert_eq!(raw.try_lock_checked(), Ok(None));
    assert_eq!(raw.get_checked(), Ok(RawOnceState::Vacant));
    raw.unlock_nopoison();
    assert_eq!(raw.try_lock_checked(), Ok(Some(RawOnceState::Vacant)));
    raw.unlock_init();
    assert_eq!(raw.lock_checked(), Ok(RawOnceState::Occupied));
    assert_eq!(raw.try_lock_checked(), Ok(Some(RawOnceState::Occupied)));
    assert_eq!(raw.get_checked(), Ok(RawOnceState::Occupied));
    assert_eq!(raw.try_get_checked(), Ok(RawOnceState::Occupied));
    assert_eq!(RawOnceCell::init().0, State::Initialized);
}

#[test]
fn a_poisoned_slot_stays_poisoned() {
    let mut raw = RawOnceCell::uninit();
    assert_eq!(raw.lock_checked(), Ok(RawOnceState::Vacant));
    raw.unlock_poison();
    assert_eq!(raw.lock_checked(), Err(TryLockError::Poisoned(PoisonError)));
    assert_eq!(raw.try_lock_checked(), Err(PoisonError));
    assert_eq!(raw.get_checked(), Err(TryLockError::Poisoned(PoisonError)));
    assert_eq!(raw.try_get_checked(), Err(PoisonError));
    assert_eq!(RawOnceCell::poison().0, State::Poison);
}

#[test]
fn a_run_once_cell_is_written_once() {
    let mut foo = OnceCell::<String>::new();
    assert_eq!(foo.get(), None);
    let foo_ref = foo.get_or_init(|| format!("1+1={}", 1 + 1));
    assert_eq!(foo_ref, "1+1=2");
    assert_eq!(foo.get_or_init(|| unreachable!()), "1+1=2");
    assert_eq!(foo.get_or_init_checked(|| unreachable!()).unwrap(), "1+1=2");
    assert_eq!(foo.get_checked().unwrap().map(|s| s.as_str()), Some("1+1=2"));
    match foo.lock() {
        OnceCellEntry::Occupied(x) => assert_eq!(x, "1+1=2"),
        OnceCellEntry::Vacant(_) => unreachable!(),
    }
    assert_eq!(foo.clone().into_inner(), Some(String::from("1+1=2")));
    assert_eq!(foo.into_inner_checked(), Ok(Some(String::from("1+1=2"))));
}

#[test]
fn a_run_once_cell_that_is_held_reports_the_cycle() {
    let mut cell = OnceCell::<u8>::default();
    match cell.lock_checked().unwrap() {
        OnceCellEntry::Occupied(_) => unreachable!(),
        OnceCellEntry::Vacant(_) => {}
    }
    assert!(matches!(cell.lock_checked(), Err(TryLockError::WouldBlock)));
    assert_eq!(
        cell.get_or_init_checked(|| unreachable!()).unwrap_err(),
        TryLockError::WouldBlock
    );
    assert_eq!(cell.get(), None);
    assert_eq!(cell.clone().into_inner(), None);
    assert_eq!(cell.into_inner(), None);
}

#[test]
fn a_run_once_cell_that_is_poisoned_reports_the_poison() {
    let mut cell = OnceCell::<u8>::new();
    match cell.lock() {
        OnceCellEntry::Occupied(_) => unreachable!(),
        OnceCellEntry::Vacant(guard) => guard.poison(),
    }
    assert_eq!(cell.get_checked(), Err(PoisonError));
    assert!(matches!(cell.lock_checked(), Err(TryLockError::Poisoned(PoisonError))));
    assert_eq!(
        cell.get_or_init_checked(|| unreachable!()).unwrap_err(),
        TryLockError::Poisoned(PoisonError)
    );
    assert_eq!(cell.clone().get_checked(), Err(PoisonError));
    assert_eq!(cell.into_inner_checked(), Err(PoisonError));
    assert_eq!(OnceCell::<u8>::poisoned().into_inner_checked(), Err(PoisonError));
}

#[test]
fn a_run_once_cell_yields_what_it_was_made_of() {
    assert_eq!(OnceCell::<u8>::new().into_inner(), None);
    assert_eq!(OnceCell::from(3u8).into_inner(), Some(3));
    assert_eq!(OnceCell::<u8>::new().into_inner_checked(), Ok(None));
    let mut cell = OnceCell::<u8>::new();
    match cell.lock() {
        OnceCellEntry::Occupied(_) => unreachable!(),
        OnceCellEntry::Vacant(guard) => assert_eq!(*guard.init(4), 4),
    }
    assert_eq!(cell.get(), Some(&4));
}

#[test]
fn a_poison_failure_is_an_acquisition_failure() {
    assert_eq!(TryLockError::from(PoisonError), TryLockError::Poisoned(PoisonError));
    let widened: Result<u8, TryLockError> = Err(PoisonError).map_err(TryLockError::from);
    assert_eq!(widened, Err(TryLockError::Poisoned(PoisonError)));
    assert_ne!(TryLockError::WouldBlock, TryLockError::Poisoned(PoisonError));
}
