use safe_once::api::lazy::Lazy;
use safe_once::cell::raw_fused_cell::RawFusedCell;
use safe_once::cell::LazyCell;

#[test]
fn force_computes_on_first_access() {
    let mut lazy: LazyCell<String, _> = Lazy::new(|| "hello".to_string());
    assert_eq!(lazy.get(), None);
    assert_eq!(lazy.force(), "hello");
    assert_eq!(lazy.get().map(|s| s.as_str()), Some("hello"));
}

#[test]
fn force_runs_the_initializer_once() {
    let mut calls = 0;
    {
        let mut lazy = Lazy::<RawFusedCell, u32, _>::new(|| {
            calls += 1;
            41 + 1
        });
        assert_eq!(*lazy.force(), 42);
        assert_eq!(*lazy.force(), 42);
        assert_eq!(*lazy.force_checked().unwrap(), 42);
    }
    assert_eq!(calls, 1);
}

#[test]
fn an_unforced_lazy_value_never_runs_its_initializer() {
    let mut calls = 0;
    {
        let lazy = Lazy::<RawFusedCell, u32, _>::new(|| {
            calls += 1;
            1
        });
        assert_eq!(lazy.get(), None);
    }
    assert_eq!(calls, 0);
}
