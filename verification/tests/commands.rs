use securelock::commands::{attempt_unlock, attempt_unlock_at, start_lock};
use securelock::lock_controller::{AllowedApp, LockPhase, LockState};
use securelock::security_module::RateLimiter;
use securelock::text::{decimal_string, encode_wide, text_contains, text_eq};

fn app(hwnd: isize, title: &str) -> AllowedApp {
    AllowedApp {
        hwnd,
        title: title.to_string(),
        process_name: "app.exe".to_string(),
    }
}

#[test]
fn pin_and_apps_are_validated_first() {
    let mut state = LockState::default();
    let e = start_lock(&mut state, vec![app(1, "A")], "123").unwrap_err();
    assert_eq!(e, "PIN must be between 4 and 8 characters");
    let e = start_lock(&mut state, vec![app(1, "A")], "123456789").unwrap_err();
    assert_eq!(e, "PIN must be between 4 and 8 characters");
    // Length counts bytes: four two-byte characters are 8 bytes, five are 10.
    let e = start_lock(&mut state, vec![app(1, "A")], "ééééé").unwrap_err();
    assert_eq!(e, "PIN must be between 4 and 8 characters");
    let e = start_lock(&mut state, vec![], "1234").unwrap_err();
    assert_eq!(e, "Must select at least one application");
    assert_eq!(state.status, LockPhase::Idle);
}

#[test]
fn session_title_and_unlock_cycle() {
    let mut state = LockState::default();
    let mut limiter = RateLimiter::default();
    let session = start_lock(&mut state, vec![app(11, "Editor"), app(12, "Browser")], "2580").unwrap();
    assert_eq!(session.hwnds, vec![11, 12]);
    assert_eq!(session.title, "2 Applications");
    assert_eq!(session.confirmation(), "Locked to: 2 Applications");
    assert_eq!(state.status, LockPhase::Locked);

    let again = start_lock(&mut state, vec![app(13, "Other")], "1111").unwrap_err();
    assert_eq!(again, "Cannot start lock: current phase is Locked");

    assert_eq!(attempt_unlock(&mut state, &mut limiter, "0000"), Ok(false));
    assert_eq!(state.status, LockPhase::Locked);
    assert_eq!(limiter.failed_attempts, 1);
    assert_eq!(attempt_unlock(&mut state, &mut limiter, "2580"), Ok(true));
    assert_eq!(state.status, LockPhase::Idle);
    assert_eq!(limiter.failed_attempts, 0);
    assert_eq!(
        attempt_unlock(&mut state, &mut limiter, "2580"),
        Err("No active lock session".to_string())
    );
}

#[test]
fn single_app_session_is_named_after_it() {
    let mut state = LockState::default();
    let session = start_lock(&mut state, vec![app(5, "Test App")], "abcd").unwrap();
    assert_eq!(session.title, "Test App");
    assert_eq!(session.confirmation(), "Locked to: Test App");
}

#[test]
fn unlock_during_cooldown_is_refused() {
    let mut state = LockState::default();
    start_lock(&mut state, vec![app(5, "Test App")], "4321").unwrap();
    let mut limiter = RateLimiter::default();
    limiter.locked_until = Some(10_000_000_000);
    let r = attempt_unlock_at(&mut state, &mut limiter, "4321", 4_500_000_000, 4_500_000_000);
    assert_eq!(r, Err("Too many failed attempts. Try again in 6 seconds.".to_string()));
    assert_eq!(state.status, LockPhase::Locked);
    let r = attempt_unlock_at(&mut state, &mut limiter, "4321", 10_000_000_000, 10_000_000_000);
    assert_eq!(r, Ok(true));
    assert_eq!(state.status, LockPhase::Idle);
}

#[test]
fn text_helpers() {
    assert_eq!(decimal_string(0), "0");
    assert_eq!(decimal_string(7), "7");
    assert_eq!(decimal_string(1234567890), "1234567890");
    assert_eq!(decimal_string(u128::MAX), u128::MAX.to_string());
    assert!(text_contains("Locked by SecureLock now", "SecureLock"));
    assert!(text_contains("abc", ""));
    assert!(!text_contains("Secure Lock", "SecureLock"));
    assert!(!text_contains("ab", "abc"));
    assert!(text_eq("é", "é"));
    assert!(!text_eq("e", "é"));
}

#[test]
fn wide_strings_match_std_utf16() {
    for s in ["", "Progman", "SHELLDLL_DefView", "é€", "a😀b"] {
        let mut expected: Vec<u16> = s.encode_utf16().collect();
        expected.push(0);
        assert_eq!(encode_wide(s), expected);
    }
    assert_eq!(encode_wide("😀"), vec![0xD83D, 0xDE00, 0]);
}
