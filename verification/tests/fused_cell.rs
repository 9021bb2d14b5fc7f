use safe_once::api::raw::RawFusedState;
use safe_once::cell::FusedCell;
use safe_once::error::PoisonError;
use safe_once::error::TryLockError;
use safe_once::fused::FusedEntry;

#[test]
fn several_writes_then_fuse() {
    let mut fused = FusedCell::new(vec![]);
    for i in 0..10 {
        match fused.write() {
            FusedEntry::Read(_) => unreachable!(),
            FusedEntry::Write(mut vec) => vec.push(i),
        }
    }
    fused.write().or_fuse(|vec| {
        vec.reverse();
    });
    assert_eq!(fused.read().unwrap(), &[9, 8, 7, 6, 5, 4, 3, 2, 1, 0]);
}

#[test]
fn read_or_fuse_modifies_once() {
    let mut fused = FusedCell::new(1u32);
    assert_eq!(*fused.read_or_fuse(|x| *x += 10), 11);
    assert_eq!(*fused.read_or_fuse(|_| unreachable!()), 11);
    assert_eq!(*fused.read_or_fuse_checked(|_| unreachable!()).unwrap(), 11);
    assert_eq!(fused.try_read(), Some(&11));
}

#[test]
fn a_fuse_is_not_readable_before_it_is_fused() {
    let mut fused = FusedCell::new(1u32);
    assert_eq!(fused.try_read(), None);
    assert_eq!(fused.read(), None);
    assert_eq!(fused.try_read_checked().unwrap(), None);
    assert_eq!(fused.read_checked().unwrap(), None);
    match fused.write_checked().unwrap() {
        FusedEntry::Read(_) => unreachable!(),
        FusedEntry::Write(guard) => {
            assert_eq!(*guard, 1);
        }
    }
    assert_eq!(fused.try_read(), None);
    assert_eq!(fused.get_mut().0, Ok(RawFusedState::Write));
}

#[test]
fn a_handle_that_is_dropped_frees_the_fuse() {
    let mut fused = FusedCell::new(1u32);
    match fused.write() {
        FusedEntry::Read(_) => unreachable!(),
        FusedEntry::Write(mut guard) => *guard += 1,
    }
    match fused.write_checked() {
        Ok(FusedEntry::Write(mut guard)) => {
            *guard += 1;
            guard.unlock();
        }
        _ => unreachable!(),
    }
    match fused.try_write_checked() {
        Ok(Some(FusedEntry::Write(mut guard))) => *guard += 1,
        _ => unreachable!(),
    }
    match fused.try_write() {
        Some(FusedEntry::Write(mut guard)) => *guard += 1,
        _ => unreachable!(),
    }
    assert_eq!(fused.try_read(), None);
    assert_eq!(*fused.read_or_fuse_checked(|x| *x += 1).unwrap(), 6);
    assert_eq!(fused.into_inner(), (Ok(RawFusedState::Read), 6));
}

#[test]
fn a_poisoned_fuse_reports_poison() {
    let mut fused = FusedCell::new(1u32);
    match fused.write() {
        FusedEntry::Read(_) => unreachable!(),
        FusedEntry::Write(mut guard) => {
            *guard = 2;
            guard.poison();
        }
    }
    assert!(matches!(fused.write_checked(), Err(TryLockError::Poisoned(PoisonError))));
    assert!(matches!(fused.try_write_checked(), Err(TryLockError::Poisoned(PoisonError))));
    assert_eq!(fused.try_read_checked().unwrap_err(), PoisonError);
    assert_eq!(fused.read_checked().unwrap_err(), TryLockError::Poisoned(PoisonError));
    assert_eq!(
        fused.read_or_fuse_checked(|_| unreachable!()).unwrap_err(),
        TryLockError::Poisoned(PoisonError)
    );
    assert_eq!(fused.into_inner(), (Err(PoisonError), 2));
}

#[test]
fn constructors_set_the_state() {
    let mut fresh = FusedCell::new(5u8);
    assert_eq!(fresh.get_mut().0, Ok(RawFusedState::Write));
    assert_eq!(fresh.into_inner(), (Ok(RawFusedState::Write), 5));
    let mut read = FusedCell::new_read(6u8);
    assert_eq!(read.try_read(), Some(&6));
    match read.write() {
        FusedEntry::Read(x) => assert_eq!(*x, 6),
        FusedEntry::Write(_) => unreachable!(),
    }
    match read.try_write() {
        Some(FusedEntry::Read(x)) => assert_eq!(*x, 6),
        _ => unreachable!(),
    }
    assert_eq!(read.into_inner(), (Ok(RawFusedState::Read), 6));
    let poisoned = FusedCell::poisoned(7u8);
    assert_eq!(poisoned.into_inner(), (Err(PoisonError), 7));
    let mut default = FusedCell::<u8>::default();
    let (state, payload) = default.get_mut();
    assert_eq!(state, Ok(RawFusedState::Write));
    *payload = 9;
    assert_eq!(default.into_inner().1, 9);
}

#[test]
fn fuse_hands_out_the_payload() {
    let mut fused = FusedCell::new(String::from("a"));
    match fused.try_write_checked().unwrap() {
        Some(FusedEntry::Write(mut guard)) => {
            guard.push('b');
            assert_eq!(guard.fuse(), "ab");
        }
        _ => unreachable!(),
    }
    assert_eq!(fused.read().unwrap(), "ab");
}
