//! The one-time initialization guard: the native routine runs on the first
//! call only, the state is visible through `has_initialized`, and it never
//! reverts to uninitialized.

use graphicsmagick::InitGuard;

#[test]
fn test_guard_starts_uninitialized() {
    let guard = InitGuard::new();
    assert!(!guard.has_initialized());
}

#[test]
fn test_initialize_runs_native_once() {
    let mut guard = InitGuard::new();
    assert!(!guard.has_initialized());
    let ran_first = guard.initialize();
    assert!(ran_first);
    assert!(guard.has_initialized());
    let ran_second = guard.initialize();
    assert!(!ran_second);
    assert!(guard.has_initialized());
}

#[test]
fn test_initialized_state_never_reverts() {
    let mut guard = InitGuard::new();
    guard.initialize();
    for _ in 0..16 {
        let ran = guard.initialize();
        assert!(!ran);
        assert!(guard.has_initialized());
    }
    guard.assert_initialized();
}
