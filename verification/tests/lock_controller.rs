use securelock::clock::MAX_DURATION_NANOS;
use securelock::lock_controller::{
    end_lock, get_pin_hash, get_status, start_lock, start_lock_at, status_at, AllowedApp, LockPhase, LockState,
};

fn make_test_app() -> AllowedApp {
    AllowedApp {
        hwnd: 12345,
        title: "Test App".to_string(),
        process_name: "test.exe".to_string(),
    }
}

#[test]
fn test_initial_state() {
    let state = LockState::default();
    let status = get_status(&state);
    assert_eq!(status.status, LockPhase::Idle);
    assert!(status.allowed_apps.is_empty());
}

#[test]
fn test_lock_unlock_cycle() {
    let mut state = LockState::default();
    start_lock(&mut state, vec![make_test_app()], "hash123".to_string()).unwrap();

    let status = get_status(&state);
    assert_eq!(status.status, LockPhase::Locked);
    assert_eq!(status.allowed_apps.first().map(|a| a.title.clone()), Some("Test App".to_string()));

    end_lock(&mut state).unwrap();
    let status = get_status(&state);
    assert_eq!(status.status, LockPhase::Idle);
}

#[test]
fn test_double_lock_fails() {
    let mut state = LockState::default();
    start_lock(&mut state, vec![make_test_app()], "hash123".to_string()).unwrap();
    let result = start_lock(&mut state, vec![make_test_app()], "hash456".to_string());
    assert!(result.is_err());
}

#[test]
fn test_unlock_when_idle_fails() {
    let mut state = LockState::default();
    let result = end_lock(&mut state);
    assert!(result.is_err());
}

#[test]
fn refusals_name_the_phase_and_keep_the_state() {
    let mut state = LockState::default();
    assert_eq!(end_lock(&mut state), Err("Cannot unlock: current phase is Idle".to_string()));
    assert_eq!(state.status, LockPhase::Idle);

    start_lock_at(&mut state, vec![make_test_app()], "hash123".to_string(), 7).unwrap();
    let second = start_lock_at(&mut state, vec![], "hash456".to_string(), 9);
    assert_eq!(second, Err("Cannot start lock: current phase is Locked".to_string()));
    assert_eq!(state.expected_pin_hash, Some("hash123".to_string()));
    assert_eq!(state.session_start, Some(7));
    assert_eq!(state.allowed_apps.len(), 1);
}

#[test]
fn pin_hash_follows_the_session() {
    let mut state = LockState::default();
    assert_eq!(get_pin_hash(&state), None);
    start_lock(&mut state, vec![make_test_app()], "hash123".to_string()).unwrap();
    assert_eq!(get_pin_hash(&state), Some("hash123".to_string()));
    end_lock(&mut state).unwrap();
    assert_eq!(get_pin_hash(&state), None);
    assert!(state.allowed_apps.is_empty());
    assert_eq!(state.session_start, None);
}

#[test]
fn status_counts_whole_seconds_of_the_session() {
    let mut state = LockState::default();
    assert_eq!(status_at(&state, 5_000_000_000).locked_duration_secs, None);
    start_lock_at(&mut state, vec![make_test_app()], "h".to_string(), 1_000_000_000).unwrap();
    assert_eq!(status_at(&state, 1_000_000_000).locked_duration_secs, Some(0));
    assert_eq!(status_at(&state, 3_999_999_999).locked_duration_secs, Some(2));
    assert_eq!(status_at(&state, 4_000_000_000).locked_duration_secs, Some(3));
    assert_eq!(status_at(&state, 10).locked_duration_secs, Some(0));
    assert_eq!(
        status_at(&state, MAX_DURATION_NANOS).locked_duration_secs,
        Some(((MAX_DURATION_NANOS - 1_000_000_000) / 1_000_000_000) as u64)
    );
    assert!(get_status(&state).locked_duration_secs.is_some());
}
