use securelock::security_module::{
    attempt_unlock, attempt_unlock_at, get_cooldown_remaining, get_cooldown_remaining_at, get_failed_attempts, hash_pin,
    hash_pin_with_salt, verify_pin, RateLimiter,
};

const SEC: u128 = 1_000_000_000;

#[test]
fn test_hash_and_verify() {
    let pin = "1234";
    let hash = hash_pin(pin).unwrap();
    assert!(verify_pin(pin, &hash).unwrap());
    assert!(!verify_pin("9999", &hash).unwrap());
}

#[test]
fn test_rate_limiting() {
    let pin = "1234";
    let hash = hash_pin(pin).unwrap();
    let mut limiter = RateLimiter::default();

    // 5 wrong attempts
    for _ in 0..5 {
        let result = attempt_unlock("wrong", &hash, &mut limiter);
        assert!(result.is_ok());
        assert!(!result.unwrap());
    }

    // 6th attempt should be rate limited
    let result = attempt_unlock("wrong", &hash, &mut limiter);
    assert!(result.is_err());
    assert!(result.unwrap_err().contains("Too many failed attempts"));
}

#[test]
fn test_successful_unlock_resets_counter() {
    let pin = "5678";
    let hash = hash_pin(pin).unwrap();
    let mut limiter = RateLimiter::default();

    // 3 wrong attempts
    for _ in 0..3 {
        attempt_unlock("wrong", &hash, &mut limiter).unwrap();
    }
    assert_eq!(get_failed_attempts(&limiter), 3);

    // Correct PIN resets
    let result = attempt_unlock(pin, &hash, &mut limiter).unwrap();
    assert!(result);
    assert_eq!(get_failed_attempts(&limiter), 0);
}

#[test]
fn hash_is_a_phc_string_and_salted() {
    let a = hash_pin("2468").unwrap();
    let b = hash_pin("2468").unwrap();
    assert!(a.starts_with("$argon2id$"));
    assert_ne!(a, "2468");
    assert_ne!(a, b);
    assert!(verify_pin("2468", &b).unwrap());
}

#[test]
fn malformed_hash_is_an_error() {
    let err = verify_pin("1234", "not a phc string").unwrap_err();
    assert!(err.starts_with("Invalid hash format: "));
    let err = verify_pin("1234", "").unwrap_err();
    assert!(err.starts_with("Invalid hash format: "));
}

#[test]
fn lockout_message_counts_seconds_left() {
    let hash = hash_pin("1357").unwrap();
    let mut limiter = RateLimiter::default();
    limiter.max_attempts = 2;
    limiter.cooldown_secs = 30;
    assert_eq!(attempt_unlock_at("0000", &hash, &mut limiter, 0, 1 * SEC), Ok(false));
    assert_eq!(limiter.locked_until, None);
    assert_eq!(attempt_unlock_at("0000", &hash, &mut limiter, 2 * SEC, 3 * SEC), Ok(false));
    assert_eq!(limiter.failed_attempts, 2);
    assert_eq!(limiter.locked_until, Some(33 * SEC));

    // Refused, even with the right PIN, and nothing changes.
    let r = attempt_unlock_at("1357", &hash, &mut limiter, 3 * SEC + 1, 3 * SEC + 1);
    assert_eq!(r, Err("Too many failed attempts. Try again in 30 seconds.".to_string()));
    let r = attempt_unlock_at("1357", &hash, &mut limiter, 3 * SEC, 3 * SEC);
    assert_eq!(r, Err("Too many failed attempts. Try again in 31 seconds.".to_string()));
    let r = attempt_unlock_at("1357", &hash, &mut limiter, 33 * SEC - 1, 33 * SEC - 1);
    assert_eq!(r, Err("Too many failed attempts. Try again in 1 seconds.".to_string()));
    assert_eq!(limiter.failed_attempts, 2);
    assert_eq!(limiter.locked_until, Some(33 * SEC));

    assert_eq!(get_cooldown_remaining_at(&limiter, 3 * SEC + 1), 30);
    assert_eq!(get_cooldown_remaining_at(&limiter, 33 * SEC), 0);
}

#[test]
fn expired_cooldown_starts_counting_afresh() {
    let hash = hash_pin("1357").unwrap();
    let mut limiter = RateLimiter::default();
    limiter.max_attempts = 1;
    limiter.cooldown_secs = 10;
    assert_eq!(attempt_unlock_at("0000", &hash, &mut limiter, 0, 0), Ok(false));
    assert_eq!(limiter.locked_until, Some(10 * SEC));
    // At the end of the cooldown a wrong PIN is checked and counted from zero.
    assert_eq!(attempt_unlock_at("0000", &hash, &mut limiter, 10 * SEC, 11 * SEC), Ok(false));
    assert_eq!(limiter.failed_attempts, 1);
    assert_eq!(limiter.locked_until, Some(21 * SEC));
    // After the next one ends, the right PIN unlocks and clears everything.
    assert_eq!(attempt_unlock_at("1357", &hash, &mut limiter, 21 * SEC, 21 * SEC), Ok(true));
    assert_eq!(limiter.failed_attempts, 0);
    assert_eq!(limiter.locked_until, None);
}

#[test]
fn malformed_hash_after_expired_cooldown_still_resets() {
    let mut limiter = RateLimiter::default();
    limiter.failed_attempts = 5;
    limiter.locked_until = Some(5 * SEC);
    let r = attempt_unlock_at("1234", "garbage", &mut limiter, 6 * SEC, 6 * SEC);
    assert!(r.unwrap_err().starts_with("Invalid hash format: "));
    assert_eq!(limiter.failed_attempts, 0);
    assert_eq!(limiter.locked_until, None);
}

#[test]
fn cooldown_remaining_without_lockout_is_zero() {
    let limiter = RateLimiter::default();
    assert_eq!(get_cooldown_remaining(&limiter), 0);
    assert_eq!(get_cooldown_remaining_at(&limiter, 0), 0);
    let mut limiter = RateLimiter::default();
    limiter.locked_until = Some(u128::MAX);
    assert_eq!(get_cooldown_remaining_at(&limiter, 0), u64::MAX);
    assert_eq!(limiter.max_attempts, 5);
    assert_eq!(limiter.cooldown_secs, 30);
}

#[test]
fn hashing_with_a_given_salt() {
    let salt = [7u8; 16];
    let a = hash_pin_with_salt("8642", &salt).unwrap();
    let b = hash_pin_with_salt("8642", &salt).unwrap();
    assert!(a.starts_with("$argon2id$"));
    assert_eq!(a, b);
    let c = hash_pin_with_salt("8642", &[8u8; 16]).unwrap();
    assert_ne!(a, c);
    assert!(verify_pin("8642", &c).unwrap());
    assert!(verify_pin("8642", &a).unwrap());
    assert!(!verify_pin("8643", &a).unwrap());
    assert!(hash_pin_with_salt("8642", &[1u8; 8]).is_ok());
    assert!(hash_pin_with_salt("8642", &[1u8; 48]).is_ok());
    let err = hash_pin_with_salt("8642", &[1u8; 4]).unwrap_err();
    assert_eq!(err, "Failed to hash PIN: the salt must be 8 to 48 bytes long");
    assert!(hash_pin_with_salt("1234", &[]).is_err());
    assert!(hash_pin_with_salt("1234", &[1u8; 2]).is_err());
    assert!(hash_pin_with_salt("1234", &[1u8; 7]).is_err());
    assert!(hash_pin_with_salt("1234", &[1u8; 49]).is_err());
}

#[test]
fn full_counter_answers_a_wrong_pin_with_an_error() {
    let hash = hash_pin_with_salt("1357", &[3u8; 16]).unwrap();
    let mut limiter = RateLimiter::default();
    limiter.failed_attempts = u32::MAX;
    limiter.max_attempts = u32::MAX;
    let r = attempt_unlock_at("0000", &hash, &mut limiter, 0, 0);
    assert_eq!(r, Err("Too many failed attempts.".to_string()));
    assert_eq!(limiter.failed_attempts, u32::MAX);
    assert_eq!(limiter.locked_until, None);
    // The right PIN still unlocks and resets the count.
    assert_eq!(attempt_unlock_at("1357", &hash, &mut limiter, 0, 0), Ok(true));
    assert_eq!(limiter.failed_attempts, 0);
}
