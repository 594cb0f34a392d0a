use privacy_lock::backend::Backend;
use privacy_lock::backend::BackendError;
use privacy_lock::backend::CountingBackend;
use privacy_lock::backend::BACKEND_REFUSED;
use privacy_lock::lock::apply_enable_result;
use privacy_lock::lock::LockError;
use privacy_lock::lock::PrivacyModeImpl;
use privacy_lock::lock::INVALID_PRIVACY_MODE_CONN_ID;
use privacy_lock::lock::PRIVACY_MODE_IMPL;

fn fresh() -> PrivacyModeImpl<CountingBackend> {
    PrivacyModeImpl::new(PRIVACY_MODE_IMPL, CountingBackend::new())
}

#[test]
fn new_lock_is_unheld() {
    let lock = fresh();
    assert_eq!(lock.pre_conn_id(), INVALID_PRIVACY_MODE_CONN_ID);
    assert_eq!(lock.get_impl_key(), PRIVACY_MODE_IMPL);
    assert!(!lock.is_async_privacy_mode());
    assert_eq!(lock.init(), Ok(()));
    assert_eq!(lock.backend.enable_calls, 0);
    assert_eq!(lock.backend.disable_calls, 0);
}

#[test]
fn acquire_from_idle_succeeds() {
    let mut lock = fresh();
    assert_eq!(lock.turn_on_privacy(5), Ok(true));
    assert_eq!(lock.pre_conn_id(), 5);
    assert_eq!(lock.backend.enable_calls, 1);
}

#[test]
fn reacquire_same_id_enables_once() {
    let mut lock = fresh();
    assert_eq!(lock.turn_on_privacy(5), Ok(true));
    assert_eq!(lock.backend.enable_calls, 1);
    assert_eq!(lock.turn_on_privacy(5), Ok(true));
    assert_eq!(lock.pre_conn_id(), 5);
    assert_eq!(lock.backend.enable_calls, 1);
}

#[test]
fn acquire_while_held_is_denied() {
    let mut lock = fresh();
    assert_eq!(lock.turn_on_privacy(5), Ok(true));
    assert_eq!(lock.turn_on_privacy(7), Err(LockError::AlreadyHeld));
    assert_eq!(lock.pre_conn_id(), 5);
    assert_eq!(lock.backend.enable_calls, 1);
}

#[test]
fn release_by_other_is_ignored() {
    let mut lock = fresh();
    assert_eq!(lock.turn_on_privacy(5), Ok(true));
    lock.turn_off_privacy(7);
    assert_eq!(lock.pre_conn_id(), 5);
    assert_eq!(lock.backend.disable_calls, 0);
}

#[test]
fn release_by_owner_clears_and_disables_once() {
    let mut lock = fresh();
    assert_eq!(lock.turn_on_privacy(5), Ok(true));
    lock.turn_off_privacy(5);
    assert_eq!(lock.pre_conn_id(), INVALID_PRIVACY_MODE_CONN_ID);
    assert_eq!(lock.backend.disable_calls, 1);
}

#[test]
fn release_clears_even_when_disable_fails() {
    let mut lock = fresh();
    assert_eq!(lock.turn_on_privacy(5), Ok(true));
    lock.backend.fail_disable = true;
    lock.turn_off_privacy(5);
    assert_eq!(lock.pre_conn_id(), INVALID_PRIVACY_MODE_CONN_ID);
    assert_eq!(lock.backend.disable_calls, 1);
}

#[test]
fn forced_release_clears_any_holder() {
    let mut lock = fresh();
    assert_eq!(lock.turn_on_privacy(5), Ok(true));
    lock.turn_off_privacy(INVALID_PRIVACY_MODE_CONN_ID);
    assert_eq!(lock.pre_conn_id(), INVALID_PRIVACY_MODE_CONN_ID);
    assert_eq!(lock.backend.disable_calls, 1);
}

#[test]
fn release_from_idle_is_noop() {
    let mut lock = fresh();
    lock.turn_off_privacy(5);
    lock.turn_off_privacy(INVALID_PRIVACY_MODE_CONN_ID);
    assert_eq!(lock.pre_conn_id(), INVALID_PRIVACY_MODE_CONN_ID);
    assert_eq!(lock.backend.disable_calls, 0);
}

#[test]
fn acquire_fails_when_backend_refuses() {
    let mut lock = fresh();
    lock.backend.fail_enable = true;
    assert_eq!(lock.turn_on_privacy(5), Err(LockError::BackendUnavailable));
    assert_eq!(lock.pre_conn_id(), INVALID_PRIVACY_MODE_CONN_ID);
    assert_eq!(lock.backend.enable_calls, 1);
}

#[test]
fn acquire_can_be_retried_after_backend_failure() {
    let mut lock = fresh();
    lock.backend.fail_enable = true;
    assert_eq!(lock.turn_on_privacy(5), Err(LockError::BackendUnavailable));
    lock.backend.fail_enable = false;
    assert_eq!(lock.turn_on_privacy(5), Ok(true));
    assert_eq!(lock.pre_conn_id(), 5);
    assert_eq!(lock.backend.enable_calls, 2);
}

#[test]
fn contention_first_wins_either_order() {
    let a: i32 = 5;
    let b: i32 = 7;
    let mut lock = fresh();
    assert_eq!(lock.turn_on_privacy(a), Ok(true));
    assert_eq!(lock.turn_on_privacy(b), Err(LockError::AlreadyHeld));
    assert_eq!(lock.pre_conn_id(), a);

    let mut lock = fresh();
    assert_eq!(lock.turn_on_privacy(b), Ok(true));
    assert_eq!(lock.turn_on_privacy(a), Err(LockError::AlreadyHeld));
    assert_eq!(lock.pre_conn_id(), b);
}

#[test]
fn clear_releases_and_disables() {
    let mut lock = fresh();
    assert_eq!(lock.turn_on_privacy(5), Ok(true));
    lock.clear();
    assert_eq!(lock.pre_conn_id(), INVALID_PRIVACY_MODE_CONN_ID);
    assert_eq!(lock.backend.disable_calls, 1);
    lock.clear();
    assert_eq!(lock.backend.disable_calls, 1);
}

#[test]
fn apply_enable_result_is_exact() {
    assert_eq!(apply_enable_result(5, Ok(())), (5, Ok(true)));
    assert_eq!(
        apply_enable_result(5, Err(BackendError { code: BACKEND_REFUSED })),
        (
            INVALID_PRIVACY_MODE_CONN_ID,
            Err(LockError::BackendUnavailable)
        )
    );
}

#[test]
fn counting_backend_reports_refusals() {
    let mut backend = CountingBackend::new();
    assert_eq!(backend.enable(), Ok(()));
    backend.fail_enable = true;
    assert_eq!(
        backend.enable(),
        Err(BackendError {
            code: BACKEND_REFUSED
        })
    );
    assert_eq!(backend.enable_calls, 2);
    assert_eq!(backend.disable(), Ok(()));
    assert_eq!(backend.disable_calls, 1);
    assert!(!backend.is_async());
}
