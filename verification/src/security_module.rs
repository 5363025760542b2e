//! PIN hashing and verification with Argon2, and the rate limiter that
//! refuses further attempts for a while after too many wrong PINs.

use crate::clock::{MonotonicClock, MAX_DURATION_NANOS, NANOS_PER_SEC};
use crate::text::{decimal, decimal_string, join2, lemma_starts_with_concat, starts_with};
use argon2::password_hash::{Error, PasswordHash, PasswordHasher, PasswordVerifier, SaltString};
use rand_core::RngCore;
use argon2::Argon2;
use rand_core::OsRng;
use vstd::prelude::*;
use vstd::string::StringSliceAdditionalSpecFns;

verus! {

#[verifier::external_type_specification]
#[verifier::external_body]
pub struct ExPasswordHashError(Error);

/// Whether `PasswordHash::new` accepts `phc` as a PHC string.
pub uninterp spec fn phc_string_parses(phc: Seq<char>) -> bool;

/// Whether `Argon2::default().verify_password(password, &PasswordHash::new(phc)?)`
/// succeeds, i.e. whether hashing `password` with the algorithm, version,
/// parameters and salt recorded in `phc` gives the output recorded there.
pub uninterp spec fn argon2_accepts(password: Seq<u8>, phc: Seq<char>) -> bool;

/// The PHC string that `Argon2::default().hash_password` gives for
/// `password` under the salt string `SaltString::encode_b64(salt)`.
pub uninterp spec fn argon2_phc(password: Seq<u8>, salt: Seq<u8>) -> Seq<char>;

/// Bytes of salt drawn for each PIN hash (the length the PHC format
/// recommends).
pub const SALT_LEN: usize = 16;

/// The shortest salt admitted for hashing, in bytes (Argon2's minimum).
pub const MIN_SALT_LEN: usize = 8;

/// The longest salt admitted for hashing, in bytes (what a salt string of at
/// most 64 B64 characters holds).
pub const MAX_SALT_LEN: usize = 48;

/// The longest password Argon2 hashes, in bytes.
pub const MAX_PASSWORD_LEN: usize = 0xFFFF_FFFF;

/// The message when the operating system could not supply the salt.
pub open spec fn no_randomness_message() -> Seq<char> {
    "Failed to hash PIN: the operating system supplied no randomness"@
}

/// `OsRng.try_fill_bytes(dest)`: fills `dest` with random bytes from the
/// operating system and tells whether it could. Claimed: the length of
/// `dest` is kept; nothing is stated of the bytes (they depend on chance),
/// nor of whether the operating system could supply them.
#[verifier::external_body]
fn fill_from_os(dest: &mut [u8]) -> (filled: bool)
    ensures
        final(dest)@.len() == old(dest)@.len(),
{
    OsRng.try_fill_bytes(dest).is_ok()
}

/// `SaltString::encode_b64(salt)` and then
/// `Argon2::default().hash_password(password, &salt_string)`, rendered with
/// `to_string` as a PHC string. Only salts of 8 to 48 bytes are admitted
/// (Argon2's minimum, and the most a salt string of 64 B64 characters
/// holds); shorter salt strings than 4 characters make the crate panic.
/// Claimed:
/// - it succeeds for every password of at most `MAX_PASSWORD_LEN` bytes;
/// - the PHC string it gives names the Argon2id algorithm, parses again with
///   `PasswordHash::new`, and `verify_password` accepts `password` against it
///   (the round trip shown in the crate's documentation).
/// Nothing is claimed of the error when one comes.
#[verifier::external_body]
fn argon2_hash_password(password: &[u8], salt: &[u8]) -> (r: Result<String, Error>)
    requires
        MIN_SALT_LEN <= salt@.len() <= MAX_SALT_LEN,
    ensures
        password@.len() <= MAX_PASSWORD_LEN ==> r is Ok,
        r matches Ok(phc) ==> {
            &&& phc@ == argon2_phc(password@, salt@)
            &&& starts_with(phc@, "$argon2id$"@)
            &&& phc_string_parses(phc@)
            &&& argon2_accepts(password@, phc@)
        },
{
    let salt_string = match SaltString::encode_b64(salt) {
        Ok(s) => s,
        Err(e) => return Err(e),
    };
    match Argon2::default().hash_password(password, &salt_string) {
        Ok(hash) => Ok(hash.to_string()),
        Err(e) => Err(e),
    }
}

/// `PasswordHash::new(phc)` followed, when it parses, by
/// `Argon2::default().verify_password(password, &parsed).is_ok()`.
/// Claimed: the result is `Ok` exactly when the PHC string parses, and then
/// tells whether Argon2 accepts the password against it.
#[verifier::external_body]
fn argon2_verify_password(password: &[u8], phc: &str) -> (r: Result<bool, Error>)
    ensures
        r is Ok <==> phc_string_parses(phc@),
        r matches Ok(accepted) ==> accepted == argon2_accepts(password@, phc@),
{
    match PasswordHash::new(phc) {
        Ok(parsed) => Ok(Argon2::default().verify_password(password, &parsed).is_ok()),
        Err(e) => Err(e),
    }
}

/// `ToString::to_string` on the crate's error (its `Display` text). Nothing
/// is stated of the text.
#[verifier::external_body]
fn describe_error(e: &Error) -> String {
    e.to_string()
}

/// The message refusing a salt of the wrong length.
pub open spec fn salt_length_message() -> Seq<char> {
    "Failed to hash PIN: the salt must be 8 to 48 bytes long"@
}

/// Hashes a PIN with Argon2id under the given salt, giving a PHC string
/// that `verify_pin` accepts for the same PIN. A salt of other than 8 to 48
/// bytes is refused; otherwise it succeeds for every PIN of at most
/// `MAX_PASSWORD_LEN` bytes.
pub fn hash_pin_with_salt(pin: &str, salt: &[u8]) -> (r: Result<String, String>)
    ensures
        !(MIN_SALT_LEN <= salt@.len() <= MAX_SALT_LEN) ==> (r matches Err(m) && m@ == salt_length_message()),
        pin.spec_bytes().len() <= MAX_PASSWORD_LEN && MIN_SALT_LEN <= salt@.len() <= MAX_SALT_LEN ==> r is Ok,
        r matches Ok(phc) ==> {
            &&& phc@ == argon2_phc(pin.spec_bytes(), salt@)
            &&& starts_with(phc@, "$argon2id$"@)
            &&& phc_string_parses(phc@)
            &&& argon2_accepts(pin.spec_bytes(), phc@)
        },
        r matches Err(m) ==> starts_with(m@, "Failed to hash PIN: "@),
{
    if salt.len() < MIN_SALT_LEN || salt.len() > MAX_SALT_LEN {
        proof {
            reveal_strlit("Failed to hash PIN: the salt must be 8 to 48 bytes long");
            reveal_strlit("Failed to hash PIN: ");
        }
        let m = String::from_str("Failed to hash PIN: the salt must be 8 to 48 bytes long");
        assert(m@.subrange(0, 20) =~= "Failed to hash PIN: "@);
        return Err(m);
    }
    match argon2_hash_password(pin.as_bytes(), salt) {
        Ok(phc) => Ok(phc),
        Err(e) => {
            let text = describe_error(&e);
            let m = join2("Failed to hash PIN: ", text.as_str());
            proof { lemma_starts_with_concat("Failed to hash PIN: "@, text@); }
            Err(m)
        },
    }
}

/// `phc` is the Argon2 hash of `password` under some salt of `SALT_LEN`
/// bytes.
pub open spec fn hashed_with_some_salt(password: Seq<u8>, phc: Seq<char>) -> bool {
    exists|salt: Seq<u8>| salt.len() == SALT_LEN && phc == #[trigger] argon2_phc(password, salt)
}

/// Hashes a PIN with Argon2id under a fresh random salt of `SALT_LEN`
/// bytes, giving a PHC string that `verify_pin` accepts for the same PIN.
/// It fails only when the operating system supplies no randomness (or the
/// PIN is longer than Argon2 allows).
pub fn hash_pin(pin: &str) -> (r: Result<String, String>)
    ensures
        pin.spec_bytes().len() <= MAX_PASSWORD_LEN ==> (r is Ok || (r matches Err(m) && m@ == no_randomness_message())),
        r matches Ok(phc) ==> {
            &&& hashed_with_some_salt(pin.spec_bytes(), phc@)
            &&& starts_with(phc@, "$argon2id$"@)
            &&& phc_string_parses(phc@)
            &&& argon2_accepts(pin.spec_bytes(), phc@)
        },
        r matches Err(m) ==> starts_with(m@, "Failed to hash PIN: "@),
{
    let mut salt: Vec<u8> = vec![0u8; SALT_LEN];
    if !fill_from_os(salt.as_mut_slice()) {
        proof {
            reveal_strlit("Failed to hash PIN: the operating system supplied no randomness");
            reveal_strlit("Failed to hash PIN: ");
        }
        let m = String::from_str("Failed to hash PIN: the operating system supplied no randomness");
        assert(m@.subrange(0, 20) =~= "Failed to hash PIN: "@);
        return Err(m);
    }
    hash_pin_with_salt(pin, salt.as_slice())
}

/// Checks a PIN against a stored PHC string: `Err` when the string is not a
/// PHC string, otherwise whether Argon2 accepts the PIN.
pub fn verify_pin(pin: &str, stored_hash: &str) -> (r: Result<bool, String>)
    ensures
        r is Ok <==> phc_string_parses(stored_hash@),
        r matches Ok(accepted) ==> accepted == argon2_accepts(pin.spec_bytes(), stored_hash@),
        r matches Err(m) ==> starts_with(m@, "Invalid hash format: "@),
{
    match argon2_verify_password(pin.as_bytes(), stored_hash) {
        Ok(accepted) => Ok(accepted),
        Err(e) => {
            let text = describe_error(&e);
            let m = join2("Invalid hash format: ", text.as_str());
            proof { lemma_starts_with_concat("Invalid hash format: "@, text@); }
            Err(m)
        },
    }
}

/// Rate limiter: counts wrong PINs and, once `max_attempts` is reached,
/// refuses attempts until `locked_until` (a reading of `clock`, in
/// nanoseconds) has passed.
#[derive(Debug)]
pub struct RateLimiter {
    pub failed_attempts: u32,
    pub max_attempts: u32,
    pub cooldown_secs: u64,
    pub locked_until: Option<u128>,
    /// The clock that `locked_until` is read against.
    pub clock: MonotonicClock,
}

impl Default for RateLimiter {
    fn default() -> (l: Self)
        ensures
            l.failed_attempts == 0,
            l.max_attempts == 5,
            l.cooldown_secs == 30,
            l.locked_until is None,
    {
        RateLimiter {
            failed_attempts: 0,
            max_attempts: 5,
            cooldown_secs: 30,
            locked_until: None,
            clock: MonotonicClock::start(),
        }
    }
}

/// Attempts are refused at clock reading `now` while a cooldown runs.
pub open spec fn in_cooldown(locked_until: Option<u128>, now: u128) -> bool {
    locked_until matches Some(until) && now < until
}

/// Whole seconds left from `now` until `until` (`Duration::as_secs`).
pub open spec fn seconds_left(until: u128, now: u128) -> nat {
    ((until - now) / (NANOS_PER_SEC as int)) as nat
}

/// The message refusing an attempt made at `now` during a cooldown that
/// ends at `until`.
pub open spec fn cooldown_message(until: u128, now: u128) -> Seq<char> {
    "Too many failed attempts. Try again in "@ + decimal(seconds_left(until, now) + 1) + " seconds."@
}

/// The clock reading at which a cooldown started at `now` ends.
pub open spec fn cooldown_end(now: u128, cooldown_secs: u64) -> int {
    now + cooldown_secs * NANOS_PER_SEC
}

/// The limiter once the cooldown check has let an attempt through: an
/// expired cooldown is forgotten together with the count of wrong PINs.
pub open spec fn cleared(l: RateLimiter) -> RateLimiter {
    if l.locked_until is Some {
        RateLimiter { failed_attempts: 0, locked_until: None, ..l }
    } else {
        l
    }
}

/// The limiter after a PIN judged `valid` at clock reading `now`: a right
/// PIN resets the count, a wrong one adds one and, on reaching
/// `max_attempts`, starts a cooldown of `cooldown_secs`.
pub open spec fn recorded(l: RateLimiter, valid: bool, now: u128) -> RateLimiter {
    if valid {
        RateLimiter { failed_attempts: 0, locked_until: None, ..l }
    } else if l.failed_attempts + 1 >= l.max_attempts {
        RateLimiter {
            failed_attempts: (l.failed_attempts + 1) as u32,
            locked_until: Some(cooldown_end(now, l.cooldown_secs) as u128),
            ..l
        }
    } else {
        RateLimiter { failed_attempts: (l.failed_attempts + 1) as u32, ..l }
    }
}

/// How an unlock attempt ends.
pub enum UnlockVerdict {
    /// Refused: a cooldown ending at `until` runs at `now`.
    CoolingDown { until: u128, now: u128 },
    /// The stored hash is not a PHC string.
    InvalidHash,
    /// The PIN was checked; whether Argon2 accepted it.
    Checked(bool),
    /// A wrong PIN that the count of wrong PINs has no room left for.
    CounterFull,
}

/// An unlock attempt with PIN bytes `pin` against the stored PHC string
/// `phc`: the cooldown is checked at clock reading `t_check`, and the
/// outcome is recorded at `t_record`. Gives the verdict and the limiter
/// afterwards.
pub open spec fn unlock_attempt(l: RateLimiter, pin: Seq<u8>, phc: Seq<char>, t_check: u128, t_record: u128) -> (UnlockVerdict, RateLimiter) {
    if in_cooldown(l.locked_until, t_check) {
        (UnlockVerdict::CoolingDown { until: l.locked_until->0, now: t_check }, l)
    } else if !phc_string_parses(phc) {
        (UnlockVerdict::InvalidHash, cleared(l))
    } else {
        let accepted = argon2_accepts(pin, phc);
        if !accepted && cleared(l).failed_attempts == u32::MAX {
            (UnlockVerdict::CounterFull, cleared(l))
        } else {
            (UnlockVerdict::Checked(accepted), recorded(cleared(l), accepted, t_record))
        }
    }
}

/// The limiter after an attempt read against its own clock: what
/// `unlock_attempt` leaves, with `t_record` recorded as the clock's latest
/// reading.
pub open spec fn after_clocked_attempt(l: RateLimiter, pin: Seq<u8>, phc: Seq<char>, t_check: u128, t_record: u128) -> RateLimiter {
    RateLimiter { clock: l.clock.advanced_to(t_record), ..unlock_attempt(l, pin, phc, t_check, t_record).1 }
}

/// A pending cooldown ends no later than `cooldown_secs` after the latest
/// reading recorded on the limiter's clock.
pub open spec fn cooldown_on_clock(l: RateLimiter) -> bool {
    l.locked_until matches Some(until) ==> until <= cooldown_end(l.clock.last_reading(), l.cooldown_secs)
}

/// The result that `attempt_unlock` returns for a verdict.
pub open spec fn verdict_result(v: UnlockVerdict, r: Result<bool, String>) -> bool {
    match v {
        UnlockVerdict::CoolingDown { until, now } => r matches Err(m) && m@ == cooldown_message(until, now),
        UnlockVerdict::InvalidHash => r matches Err(m) && starts_with(m@, "Invalid hash format: "@),
        UnlockVerdict::Checked(accepted) => r matches Ok(b) && b == accepted,
        UnlockVerdict::CounterFull => r matches Err(m) && m@ == "Too many failed attempts."@,
    }
}

/// Adding one to the count of wrong PINs cannot overflow: a count at its
/// maximum always comes with a cooldown, which resets it before it grows.
pub open spec fn counter_has_room(l: &RateLimiter) -> bool {
    l.locked_until is None ==> l.failed_attempts < u32::MAX
}

/// The rate limiter's own invariant: with no cooldown pending, fewer wrong
/// PINs than the limit have been seen (or none at all).
pub open spec fn limiter_wf(l: &RateLimiter) -> bool {
    l.locked_until is None ==> (l.failed_attempts < l.max_attempts || l.failed_attempts == 0)
}

fn cooldown_message_text(until: u128, now: u128) -> (m: String)
    requires
        now < until,
    ensures
        m@ == cooldown_message(until, now),
{
    let secs = (until - now) / NANOS_PER_SEC;
    let digits = decimal_string(secs + 1);
    let mut m = join2("Too many failed attempts. Try again in ", digits.as_str());
    m.append(" seconds.");
    m
}

/// The cooldown check at `now`: refuses while a cooldown runs, and forgets
/// an expired one together with the count of wrong PINs.
fn check_cooldown(limiter: &mut RateLimiter, now: u128) -> (r: Result<(), String>)
    ensures
        in_cooldown(old(limiter).locked_until, now) ==> {
            &&& r matches Err(m) && m@ == cooldown_message(old(limiter).locked_until->0, now)
            &&& *final(limiter) == *old(limiter)
        },
        !in_cooldown(old(limiter).locked_until, now) ==> r is Ok && *final(limiter) == cleared(*old(limiter)),
{
    match limiter.locked_until {
        Some(until) => {
            if now < until {
                return Err(cooldown_message_text(until, now));
            }
            limiter.locked_until = None;
            limiter.failed_attempts = 0;
            Ok(())
        },
        None => Ok(()),
    }
}

/// Records the outcome of a checked PIN at clock reading `now`.
fn record_attempt(limiter: &mut RateLimiter, valid: bool, now: u128) -> (b: bool)
    requires
        now <= MAX_DURATION_NANOS,
        valid || old(limiter).failed_attempts < u32::MAX,
    ensures
        b == valid,
        *final(limiter) == recorded(*old(limiter), valid, now),
{
    if valid {
        limiter.failed_attempts = 0;
        limiter.locked_until = None;
        true
    } else {
        limiter.failed_attempts = limiter.failed_attempts + 1;
        if limiter.failed_attempts >= limiter.max_attempts {
            let span = (limiter.cooldown_secs as u128) * NANOS_PER_SEC;
            limiter.locked_until = Some(now + span);
        }
        false
    }
}

/// An unlock attempt at known clock readings: the cooldown is checked at
/// `t_check` and the outcome recorded at `t_record`.
pub fn attempt_unlock_at(pin: &str, stored_hash: &str, limiter: &mut RateLimiter, t_check: u128, t_record: u128) -> (r: Result<bool, String>)
    requires
        t_check <= MAX_DURATION_NANOS,
        t_record <= MAX_DURATION_NANOS,
    ensures
        ({
            let (verdict, after) = unlock_attempt(*old(limiter), pin.spec_bytes(), stored_hash@, t_check, t_record);
            verdict_result(verdict, r) && *final(limiter) == after
        }),
{
    check_cooldown(limiter, t_check)?;
    let valid = verify_pin(pin, stored_hash)?;
    if !valid && limiter.failed_attempts == u32::MAX {
        return Err(String::from_str("Too many failed attempts."));
    }
    Ok(record_attempt(limiter, valid, t_record))
}

/// An unlock attempt with rate limiting, read against the limiter's clock:
/// refused while a cooldown runs; otherwise the PIN is checked against the
/// stored PHC string and the outcome recorded. The cooldown is checked at a
/// fresh reading of the clock, never earlier than any reading the limiter
/// recorded before (the one that started its cooldown among them), and the
/// clock keeps the latest reading taken.
pub fn attempt_unlock(pin: &str, stored_hash: &str, limiter: &mut RateLimiter) -> (r: Result<bool, String>)
    ensures
        exists|t_check: u128, t_record: u128|
            old(limiter).clock.last_reading() <= t_check && t_check <= t_record && t_record <= MAX_DURATION_NANOS && {
                let (verdict, after) = #[trigger] unlock_attempt(*old(limiter), pin.spec_bytes(), stored_hash@, t_check, t_record);
                &&& verdict_result(verdict, r)
                &&& *final(limiter) == after_clocked_attempt(*old(limiter), pin.spec_bytes(), stored_hash@, t_check, t_record)
            },
{
    let ghost before = *limiter;
    let t_check = limiter.clock.tick();
    proof { before.clock.lemma_advanced_to(t_check, t_check); }
    match check_cooldown(limiter, t_check) {
        Err(m) => {
            let r = Err(m);
            assert(verdict_result(unlock_attempt(before, pin.spec_bytes(), stored_hash@, t_check, t_check).0, r));
            return r;
        },
        Ok(()) => {},
    }
    match verify_pin(pin, stored_hash) {
        Err(m) => {
            let r = Err(m);
            assert(verdict_result(unlock_attempt(before, pin.spec_bytes(), stored_hash@, t_check, t_check).0, r));
            return r;
        },
        Ok(valid) => {
            if !valid && limiter.failed_attempts == u32::MAX {
                let r = Err(String::from_str("Too many failed attempts."));
                assert(verdict_result(unlock_attempt(before, pin.spec_bytes(), stored_hash@, t_check, t_check).0, r));
                return r;
            }
            let t_record = limiter.clock.tick();
            proof { before.clock.lemma_advanced_to(t_check, t_record); }
            let b = record_attempt(limiter, valid, t_record);
            let r = Ok(b);
            assert(verdict_result(unlock_attempt(before, pin.spec_bytes(), stored_hash@, t_check, t_record).0, r));
            r
        },
    }
}

/// Whole seconds of cooldown left at `now`, counted as the message counts
/// them (whole seconds plus one), and 0 when no cooldown runs. The count
/// stops at `u64::MAX`.
pub open spec fn cooldown_remaining_at(locked_until: Option<u128>, now: u128) -> u64 {
    if in_cooldown(locked_until, now) {
        let s = seconds_left(locked_until->0, now) + 1;
        if s <= u64::MAX { s as u64 } else { u64::MAX }
    } else {
        0
    }
}

/// Seconds of cooldown left at clock reading `now`.
pub fn get_cooldown_remaining_at(limiter: &RateLimiter, now: u128) -> (s: u64)
    ensures
        s == cooldown_remaining_at(limiter.locked_until, now),
{
    match limiter.locked_until {
        Some(until) => {
            if now < until {
                let secs = (until - now) / NANOS_PER_SEC + 1;
                if secs <= u64::MAX as u128 {
                    secs as u64
                } else {
                    u64::MAX
                }
            } else {
                0
            }
        },
        None => 0,
    }
}

/// Seconds of cooldown left now (0 when no cooldown runs).
pub fn get_cooldown_remaining(limiter: &RateLimiter) -> (s: u64)
    ensures
        exists|now: u128| now <= MAX_DURATION_NANOS && s == #[trigger] cooldown_remaining_at(limiter.locked_until, now),
        exists|now: u128| limiter.clock.last_reading() <= now && now <= MAX_DURATION_NANOS
            && s == #[trigger] cooldown_remaining_at(limiter.locked_until, now),
        limiter.locked_until is None ==> s == 0,
{
    let now = limiter.clock.now_nanos();
    get_cooldown_remaining_at(limiter, now)
}

/// The number of wrong PINs counted so far.
pub fn get_failed_attempts(limiter: &RateLimiter) -> (n: u32)
    ensures
        n == limiter.failed_attempts,
{
    limiter.failed_attempts
}

/// The limiter after a series of attempts with the same wrong PIN, the
/// attempts made at the clock readings `times`, in order.
pub open spec fn after_wrong_pins(l: RateLimiter, pin: Seq<u8>, phc: Seq<char>, times: Seq<u128>) -> RateLimiter
    decreases times.len(),
{
    if times.len() == 0 {
        l
    } else {
        let before = after_wrong_pins(l, pin, phc, times.drop_last());
        unlock_attempt(before, pin, phc, times.last(), times.last()).1
    }
}

/// Outside a cooldown, a PIN that Argon2 accepts against a well-formed PHC
/// string unlocks, and the count of wrong PINs starts again from zero.
pub proof fn law_right_pin_unlocks(l: RateLimiter, pin: Seq<u8>, phc: Seq<char>, t_check: u128, t_record: u128)
    requires
        !in_cooldown(l.locked_until, t_check),
        phc_string_parses(phc),
        argon2_accepts(pin, phc),
    ensures
        unlock_attempt(l, pin, phc, t_check, t_record).0 == UnlockVerdict::Checked(true),
        unlock_attempt(l, pin, phc, t_check, t_record).1.failed_attempts == 0,
        unlock_attempt(l, pin, phc, t_check, t_record).1.locked_until is None,
{
}

/// Outside a cooldown, a wrong PIN is reported as such and counted once.
pub proof fn law_wrong_pin_counts_once(l: RateLimiter, pin: Seq<u8>, phc: Seq<char>, t_check: u128, t_record: u128)
    requires
        !in_cooldown(l.locked_until, t_check),
        counter_has_room(&l),
        phc_string_parses(phc),
        !argon2_accepts(pin, phc),
    ensures
        unlock_attempt(l, pin, phc, t_check, t_record).0 == UnlockVerdict::Checked(false),
        unlock_attempt(l, pin, phc, t_check, t_record).1.failed_attempts == cleared(l).failed_attempts + 1,
{
}

/// During a cooldown every attempt is refused, whatever the PIN, and the
/// limiter does not change.
pub proof fn law_refused_during_cooldown(l: RateLimiter, pin: Seq<u8>, phc: Seq<char>, t_check: u128, t_record: u128)
    requires
        in_cooldown(l.locked_until, t_check),
    ensures
        unlock_attempt(l, pin, phc, t_check, t_record).0 == (UnlockVerdict::CoolingDown { until: l.locked_until->0, now: t_check }),
        unlock_attempt(l, pin, phc, t_check, t_record).1 == l,
{
}

/// Starting from a fresh limiter, wrong PINs are counted one by one; no
/// cooldown starts before the `max_attempts`-th, and that one starts a
/// cooldown of `cooldown_secs` from the moment it was recorded.
pub proof fn law_lockout_after_max_failures(l: RateLimiter, pin: Seq<u8>, phc: Seq<char>, times: Seq<u128>)
    requires
        l.failed_attempts == 0,
        l.locked_until is None,
        1 <= l.max_attempts,
        times.len() <= l.max_attempts,
        phc_string_parses(phc),
        !argon2_accepts(pin, phc),
        forall|i: int| 0 <= i < times.len() ==> #[trigger] times[i] <= MAX_DURATION_NANOS,
    ensures
        after_wrong_pins(l, pin, phc, times).failed_attempts == times.len(),
        times.len() < l.max_attempts ==> after_wrong_pins(l, pin, phc, times).locked_until is None,
        times.len() == l.max_attempts ==> after_wrong_pins(l, pin, phc, times).locked_until
            == Some(cooldown_end(times.last(), l.cooldown_secs) as u128),
        after_wrong_pins(l, pin, phc, times).max_attempts == l.max_attempts,
        after_wrong_pins(l, pin, phc, times).cooldown_secs == l.cooldown_secs,
    decreases times.len(),
{
    if times.len() > 0 {
        let prefix = times.drop_last();
        assert forall|i: int| 0 <= i < prefix.len() implies #[trigger] prefix[i] <= MAX_DURATION_NANOS by {
            assert(prefix[i] == times[i]);
        }
        law_lockout_after_max_failures(l, pin, phc, prefix);
    }
}

/// A cooldown started at clock reading `t` refuses every attempt made before
/// `cooldown_secs` have passed, and the wait it reports never exceeds
/// `cooldown_secs + 1` seconds; from then on attempts are checked again,
/// with the count of wrong PINs started afresh.
pub proof fn law_cooldown_span(l: RateLimiter, t: u128, later: u128)
    requires
        t <= MAX_DURATION_NANOS,
        t <= later,
        l.locked_until == Some(cooldown_end(t, l.cooldown_secs) as u128),
    ensures
        later < cooldown_end(t, l.cooldown_secs) ==> in_cooldown(l.locked_until, later),
        cooldown_remaining_at(l.locked_until, later) <= l.cooldown_secs + 1,
        later >= cooldown_end(t, l.cooldown_secs) ==> {
            &&& !in_cooldown(l.locked_until, later)
            &&& cleared(l).failed_attempts == 0
            &&& cleared(l).locked_until is None
        },
{
    let end = cooldown_end(t, l.cooldown_secs);
    if later < end {
        let d = (end - later) as int;
        assert(d <= l.cooldown_secs * 1_000_000_000);
        assert(d / 1_000_000_000 <= l.cooldown_secs) by (nonlinear_arith)
            requires d <= l.cooldown_secs * 1_000_000_000, 0 <= d;
    }
}

/// The limiter's invariant holds of a fresh limiter (no wrong PIN counted,
/// no cooldown, as `default` makes it), is kept by every attempt, whatever
/// the clock readings and the outcome of the check, and leaves room for
/// counting another wrong PIN.
pub proof fn law_limiter_wf_preserved(l: RateLimiter, pin: Seq<u8>, phc: Seq<char>, t_check: u128, t_record: u128)
    ensures
        l.failed_attempts == 0 && l.locked_until is None ==> limiter_wf(&l),
        limiter_wf(&l) ==> counter_has_room(&l),
        limiter_wf(&l) && t_record <= MAX_DURATION_NANOS ==> limiter_wf(&unlock_attempt(l, pin, phc, t_check, t_record).1),
{
}

/// Attempts read against the limiter's clock keep every cooldown within
/// `cooldown_secs` of the clock's latest reading: a cooldown an attempt
/// starts is counted from the very reading it records, and the clock never
/// goes back, so the next attempt's check comes no earlier than that.
pub proof fn law_cooldown_follows_clock(l: RateLimiter, pin: Seq<u8>, phc: Seq<char>, t_check: u128, t_record: u128)
    requires
        l.clock.last_reading() <= t_check,
        t_check <= t_record,
    ensures
        after_clocked_attempt(l, pin, phc, t_check, t_record).clock.last_reading() == t_record,
        l.clock.last_reading() <= after_clocked_attempt(l, pin, phc, t_check, t_record).clock.last_reading(),
        cooldown_on_clock(l) ==> cooldown_on_clock(after_clocked_attempt(l, pin, phc, t_check, t_record)),
        after_clocked_attempt(l, pin, phc, t_check, t_record).locked_until is Some
            && l.locked_until != after_clocked_attempt(l, pin, phc, t_check, t_record).locked_until
            ==> after_clocked_attempt(l, pin, phc, t_check, t_record).locked_until
                == Some(cooldown_end(t_record, l.cooldown_secs) as u128),
{
    l.clock.lemma_advanced_to(t_record, t_record);
}

/// The cooldown is judged against the reading at which an attempt is
/// checked: from the reading at which the cooldown ends on, attempts are no
/// longer refused, and the right PIN unlocks with the count of wrong PINs
/// reset; before it, every attempt is refused.
pub proof fn law_cooldown_expires(l: RateLimiter, pin: Seq<u8>, phc: Seq<char>, until: u128, t_check: u128, t_record: u128)
    requires
        l.locked_until == Some(until),
    ensures
        t_check < until ==> unlock_attempt(l, pin, phc, t_check, t_record).0 == (UnlockVerdict::CoolingDown { until, now: t_check }),
        until <= t_check ==> !(unlock_attempt(l, pin, phc, t_check, t_record).0 is CoolingDown),
        until <= t_check && phc_string_parses(phc) && argon2_accepts(pin, phc) ==> {
            &&& unlock_attempt(l, pin, phc, t_check, t_record).0 == UnlockVerdict::Checked(true)
            &&& unlock_attempt(l, pin, phc, t_check, t_record).1.failed_attempts == 0
            &&& unlock_attempt(l, pin, phc, t_check, t_record).1.locked_until is None
        },
{
}

/// From a fresh limiter, `max_attempts` wrong PINs start a cooldown at the
/// reading the last one is recorded at; a right PIN is then refused until
/// `cooldown_secs` have passed on the clock, and unlocks from then on.
pub proof fn law_right_pin_after_lockout(
    l: RateLimiter,
    wrong: Seq<u8>,
    right: Seq<u8>,
    phc: Seq<char>,
    times: Seq<u128>,
    t_check: u128,
    t_record: u128,
)
    requires
        l.failed_attempts == 0,
        l.locked_until is None,
        1 <= l.max_attempts,
        times.len() == l.max_attempts,
        phc_string_parses(phc),
        !argon2_accepts(wrong, phc),
        argon2_accepts(right, phc),
        forall|i: int| 0 <= i < times.len() ==> #[trigger] times[i] <= MAX_DURATION_NANOS,
    ensures
        ({
            let locked = after_wrong_pins(l, wrong, phc, times);
            let end = cooldown_end(times.last(), l.cooldown_secs);
            &&& locked.locked_until == Some(end as u128)
            &&& t_check < end ==> unlock_attempt(locked, right, phc, t_check, t_record).0 is CoolingDown
            &&& end <= t_check ==> unlock_attempt(locked, right, phc, t_check, t_record).0 == UnlockVerdict::Checked(true)
        }),
{
    law_lockout_after_max_failures(l, wrong, phc, times);
    let locked = after_wrong_pins(l, wrong, phc, times);
    law_cooldown_expires(locked, right, phc, cooldown_end(times.last(), l.cooldown_secs) as u128, t_check, t_record);
}

} // verus!
