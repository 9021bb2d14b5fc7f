use safe_once::cell::OnceCell;
use safe_once::error::PoisonError;
use safe_once::error::TryLockError;
use safe_once::once::OnceEntry;

#[test]
fn test_once() {
    let mut lock = OnceCell::<Box<usize>>::new();
    match lock.lock_checked().unwrap() {
        OnceEntry::Occupied(_) => unreachable!(),
        OnceEntry::Vacant(x) => {
            x.init(Box::new(1));
        }
    }
    match lock.lock_checked().unwrap() {
        OnceEntry::Occupied(x) => assert_eq!(**x, 1),
        OnceEntry::Vacant(_) => unreachable!(),
    };
}

#[test]
fn test_direct() {
    assert!(OnceCell::<Box<isize>>::new().into_inner().is_none());
    assert_eq!(*OnceCell::from(Box::new(1)).into_inner().unwrap(), 1);
}

#[test]
fn test_relock() {
    let mut once = OnceCell::<Box<isize>>::new();
    match once.lock() {
        OnceEntry::Occupied(_) => unreachable!(),
        OnceEntry::Vacant(_) => {}
    }
    match once.lock() {
        OnceEntry::Occupied(_) => unreachable!(),
        OnceEntry::Vacant(x) => {
            x.init(Box::new(5));
        }
    }
    assert_eq!(**once.try_get().unwrap(), 5);
}

#[test]
fn test_recurrent() {
    let mut once = safe_once::unsync::once_cell::OnceCell::<Box<isize>>::new();
    match once.lock() {
        safe_once::unsync::once_cell::OnceCellEntry::Occupied(_) => unreachable!(),
        safe_once::unsync::once_cell::OnceCellEntry::Vacant(_) => {}
    }
    match once.get_or_init_checked(|| unreachable!()).unwrap_err() {
        TryLockError::WouldBlock => {}
        _ => panic!(),
    };
    assert!(once.get().is_none());
}

#[test]
fn a_handle_that_is_given_back_leaves_the_value_unwritten() {
    let mut once = OnceCell::<u32>::new();
    match once.lock_checked().unwrap() {
        OnceEntry::Occupied(_) => unreachable!(),
        OnceEntry::Vacant(guard) => guard.unlock(),
    }
    assert_eq!(once.try_get(), None);
    match once.try_lock_checked().unwrap() {
        Some(OnceEntry::Vacant(_)) => {}
        _ => unreachable!(),
    }
    match once.try_lock() {
        Some(OnceEntry::Vacant(_)) => {}
        _ => unreachable!(),
    }
    assert_eq!(*once.get_or_init(|| 8), 8);
}

#[test]
fn get_or_init_runs_the_first_initializer_only() {
    let mut once = OnceCell::<String>::new();
    let mut calls = 0;
    assert_eq!(
        once.get_or_init(|| {
            calls += 1;
            format!("1+1={}", 1 + 1)
        }),
        "1+1=2"
    );
    assert_eq!(
        once.get_or_init(|| {
            calls += 1;
            String::from("other")
        }),
        "1+1=2"
    );
    assert_eq!(once.get_or_init_checked(|| unreachable!()).unwrap(), "1+1=2");
    assert_eq!(calls, 1);
    assert_eq!(once.get().map(|s| s.as_str()), Some("1+1=2"));
    assert_eq!(once.into_inner(), Some(String::from("1+1=2")));
}

#[test]
fn poison_is_reported_by_every_access() {
    let mut once = OnceCell::<u32>::new();
    match once.lock() {
        OnceEntry::Occupied(_) => unreachable!(),
        OnceEntry::Vacant(guard) => guard.poison(),
    }
    assert_eq!(
        once.get_or_init_checked(|| unreachable!()).unwrap_err(),
        TryLockError::Poisoned(PoisonError)
    );
    assert!(matches!(once.lock_checked(), Err(TryLockError::Poisoned(PoisonError))));
    assert!(matches!(once.try_lock_checked(), Err(TryLockError::Poisoned(PoisonError))));
    assert_eq!(once.try_get_checked().unwrap_err(), PoisonError);
    assert_eq!(once.get_checked().unwrap_err(), TryLockError::Poisoned(PoisonError));
    assert_eq!(once.into_inner(), None);
}

#[test]
fn poisoned_from_the_start() {
    let mut once = OnceCell::<u32>::poisoned();
    assert_eq!(once.try_get_checked().unwrap_err(), PoisonError);
    assert_eq!(
        once.get_or_init_checked(|| 3).unwrap_err(),
        TryLockError::Poisoned(PoisonError)
    );
    assert_eq!(once.into_inner(), None);
}

#[test]
fn get_never_initializes() {
    let once = OnceCell::<u32>::new();
    assert_eq!(once.get(), None);
    assert_eq!(once.try_get(), None);
    assert_eq!(once.get_checked().unwrap(), None);
    assert_eq!(once.try_get_checked().unwrap(), None);
    let written = OnceCell::from(7u32);
    assert_eq!(written.get(), Some(&7));
    assert_eq!(written.try_get(), Some(&7));
    assert_eq!(written.get_checked().unwrap(), Some(&7));
    assert_eq!(written.try_get_checked().unwrap(), Some(&7));
}

#[test]
fn try_lock_hands_out_the_value_or_the_handle() {
    let mut once = OnceCell::<u32>::default();
    match once.try_lock() {
        Some(OnceEntry::Vacant(guard)) => assert_eq!(*guard.init(11), 11),
        _ => panic!(),
    }
    match once.try_lock() {
        Some(OnceEntry::Occupied(x)) => assert_eq!(*x, 11),
        _ => panic!(),
    }
    match once.try_lock_checked().unwrap() {
        Some(OnceEntry::Occupied(x)) => assert_eq!(*x, 11),
        _ => panic!(),
    }
}

#[test]
fn or_init_runs_only_on_a_vacant_entry() {
    let mut once = OnceCell::<u32>::new();
    assert_eq!(*once.lock().or_init(|| 4), 4);
    assert_eq!(*once.lock().or_init(|| unreachable!()), 4);
}

#[test]
fn clone_follows_the_state() {
    let written = OnceCell::from(String::from("v"));
    assert_eq!(written.clone().into_inner(), Some(String::from("v")));
    let vacant = OnceCell::<String>::new();
    assert_eq!(vacant.clone().try_get_checked().unwrap(), None);
    let poisoned = OnceCell::<String>::poisoned();
    assert_eq!(poisoned.clone().try_get_checked().unwrap_err(), PoisonError);
    let mut dropped = OnceCell::<String>::new();
    match dropped.lock() {
        OnceEntry::Occupied(_) => unreachable!(),
        OnceEntry::Vacant(_) => {}
    }
    let mut copy = dropped.clone();
    assert_eq!(copy.get_or_init(|| String::from("w")), "w");
    assert_eq!(dropped.try_get(), None);
}
