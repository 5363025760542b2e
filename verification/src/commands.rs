//! The front end's requests: starting a lock session from a chosen set of
//! applications and a PIN, and unlocking it again with the PIN. The
//! window, keyboard and overlay work that accompanies them happens outside
//! the library, with what these requests return.

use crate::clock::MAX_DURATION_NANOS;
use crate::lock_controller::{
    after_end, after_start, cannot_start_message, cannot_unlock_message, end_lock, get_pin_hash, idle_snapshot,
    snapshot_wf, start_lock as begin_session, AllowedApp, LockPhase, LockSnapshot, LockState,
};
use crate::security_module::{
    argon2_accepts, attempt_unlock as attempt_with_limit, attempt_unlock_at as attempt_with_limit_at,
    after_clocked_attempt, in_cooldown, phc_string_parses, unlock_attempt, verdict_result, hash_pin, hashed_with_some_salt, no_randomness_message, RateLimiter,
    UnlockVerdict,
};
use crate::text::{decimal, decimal_string, join2, starts_with};
use vstd::prelude::*;
use vstd::string::StringSliceAdditionalSpecFns;

verus! {

/// What a started session hands to the window and keyboard guards: the
/// handles of the allowed applications and the session's title.
#[derive(Debug)]
pub struct LockSession {
    pub hwnds: Vec<isize>,
    pub title: String,
}

/// A PIN is accepted when it is 4 to 8 bytes long.
pub open spec fn pin_length_ok(pin: &str) -> bool {
    4 <= pin.spec_bytes().len() <= 8
}

/// The session's title: the one application's title, or how many
/// applications are allowed.
pub open spec fn session_title(apps: Seq<AllowedApp>) -> Seq<char> {
    if apps.len() == 1 {
        apps[0].title@
    } else {
        decimal(apps.len()) + " Applications"@
    }
}

/// The handles of the allowed applications, in order.
pub open spec fn app_handles(apps: Seq<AllowedApp>) -> Seq<isize> {
    apps.map_values(|a: AllowedApp| a.hwnd)
}

/// The message confirming a session locked to `title`.
pub open spec fn confirmation_message(title: Seq<char>) -> Seq<char> {
    "Locked to: "@ + title
}

impl LockSession {
    /// The message confirming the session.
    pub fn confirmation(&self) -> (m: String)
        ensures
            m@ == confirmation_message(self.title@),
    {
        join2("Locked to: ", self.title.as_str())
    }
}

fn session_title_text(apps: &Vec<AllowedApp>) -> (t: String)
    ensures
        t@ == session_title(apps@),
{
    if apps.len() == 1 {
        apps[0].title.clone()
    } else {
        let count = decimal_string(apps.len() as u128);
        join2(count.as_str(), " Applications")
    }
}

fn handles_of(apps: &Vec<AllowedApp>) -> (hs: Vec<isize>)
    ensures
        hs@ == app_handles(apps@),
{
    let mut hs: Vec<isize> = Vec::new();
    let mut i: usize = 0;
    while i < apps.len()
        invariant
            i <= apps@.len(),
            hs@ == app_handles(apps@.take(i as int)),
        decreases apps@.len() - i,
    {
        hs.push(apps[i].hwnd);
        assert(app_handles(apps@.take(i + 1)) =~= app_handles(apps@.take(i as int)).push(apps@[i as int].hwnd));
        i = i + 1;
    }
    assert(apps@.take(apps@.len() as int) =~= apps@);
    hs
}

/// Starts a lock session: checks the PIN's length and that some
/// application was chosen, hashes the PIN, and moves the lock state from
/// idle to locked. Refusals leave the lock state as it was.
pub fn start_lock(lock_state: &mut LockState, apps: Vec<AllowedApp>, pin: &str) -> (r: Result<LockSession, String>)
    ensures
        !pin_length_ok(pin) ==> (r matches Err(m) && m@ == "PIN must be between 4 and 8 characters"@),
        pin_length_ok(pin) && apps@.len() == 0 ==> (r matches Err(m) && m@ == "Must select at least one application"@),
        r is Err ==> *final(lock_state) == *old(lock_state),
        pin_length_ok(pin) && apps@.len() > 0 && old(lock_state).status == LockPhase::Idle ==> (
            r is Ok || (r matches Err(m) && m@ == no_randomness_message())),
        pin_length_ok(pin) && apps@.len() > 0 && old(lock_state).status != LockPhase::Idle ==> (r matches Err(m) && (
            m@ == cannot_start_message(old(lock_state).status) || m@ == no_randomness_message())),
        r matches Ok(session) ==> {
            &&& pin_length_ok(pin)
            &&& apps@.len() > 0
            &&& old(lock_state).status == LockPhase::Idle
            &&& session.hwnds@ == app_handles(apps@)
            &&& session.title@ == session_title(apps@)
            &&& final(lock_state).status == LockPhase::Locked
            &&& final(lock_state).allowed_apps@ == apps@
            &&& final(lock_state)@.session_start is Some
            &&& final(lock_state)@.pin_hash matches Some(h) && phc_string_parses(h) && argon2_accepts(pin.spec_bytes(), h)
                && starts_with(h, "$argon2id$"@) && hashed_with_some_salt(pin.spec_bytes(), h)
        },
{
    let n = pin.as_bytes().len();
    if n < 4 || n > 8 {
        return Err(String::from_str("PIN must be between 4 and 8 characters"));
    }
    if apps.len() == 0 {
        return Err(String::from_str("Must select at least one application"));
    }
    let pin_hash = hash_pin(pin)?;
    let hwnds = handles_of(&apps);
    let title = session_title_text(&apps);
    begin_session(lock_state, apps, pin_hash)?;
    Ok(LockSession { hwnds, title })
}

/// How an unlock request ends.
pub enum SessionVerdict {
    /// No session runs, so there is no PIN to check against.
    NoSession,
    /// What the rate-limited PIN check gave.
    Checked(UnlockVerdict),
}

/// An unlock request with PIN bytes `pin` on lock state `s` and rate
/// limiter `l`, the cooldown checked at `t_check` and the outcome recorded
/// at `t_record`: the verdict, and the lock state and limiter afterwards.
/// An accepted PIN ends the session.
pub open spec fn session_unlock(s: LockSnapshot, l: RateLimiter, pin: Seq<u8>, t_check: u128, t_record: u128) -> (SessionVerdict, LockSnapshot, RateLimiter) {
    match s.pin_hash {
        None => (SessionVerdict::NoSession, s, l),
        Some(h) => {
            let (v, l2) = unlock_attempt(l, pin, h, t_check, t_record);
            let s2 = if v == UnlockVerdict::Checked(true) { after_end(s) } else { s };
            (SessionVerdict::Checked(v), s2, l2)
        },
    }
}

/// The result that an unlock request returns for a verdict on lock state `s`.
pub open spec fn session_result(s: LockSnapshot, v: SessionVerdict, r: Result<bool, String>) -> bool {
    match v {
        SessionVerdict::NoSession => r matches Err(m) && m@ == "No active lock session"@,
        SessionVerdict::Checked(UnlockVerdict::Checked(true)) => if s.status == LockPhase::Locked {
            r matches Ok(b) && b
        } else {
            r matches Err(m) && m@ == cannot_unlock_message(s.status)
        },
        SessionVerdict::Checked(u) => verdict_result(u, r),
    }
}

/// An unlock request at known clock readings: the PIN is checked, with rate
/// limiting, against the running session's hash; an accepted PIN ends the
/// session.
pub fn attempt_unlock_at(lock_state: &mut LockState, limiter: &mut RateLimiter, pin: &str, t_check: u128, t_record: u128) -> (r: Result<bool, String>)
    requires
        t_check <= MAX_DURATION_NANOS,
        t_record <= MAX_DURATION_NANOS,
    ensures
        ({
            let (v, s2, l2) = session_unlock(old(lock_state)@, *old(limiter), pin.spec_bytes(), t_check, t_record);
            &&& session_result(old(lock_state)@, v, r)
            &&& final(lock_state)@ == s2
            &&& *final(limiter) == l2
        }),
{
    let stored = match get_pin_hash(lock_state) {
        Some(h) => h,
        None => return Err(String::from_str("No active lock session")),
    };
    let valid = attempt_with_limit_at(pin, stored.as_str(), limiter, t_check, t_record)?;
    if valid {
        end_lock(lock_state)?;
        Ok(true)
    } else {
        Ok(false)
    }
}

/// An unlock request: the PIN is checked, with rate limiting read against
/// the limiter's clock, against the running session's hash; an accepted PIN
/// ends the session. The cooldown is checked at a reading no earlier than
/// any the limiter's clock recorded before, and the clock keeps the latest
/// reading taken.
pub fn attempt_unlock(lock_state: &mut LockState, limiter: &mut RateLimiter, pin: &str) -> (r: Result<bool, String>)
    ensures
        exists|t_check: u128, t_record: u128|
            old(limiter).clock.last_reading() <= t_check && t_check <= t_record && t_record <= MAX_DURATION_NANOS && {
                let (v, s2, l2) = #[trigger] session_unlock(old(lock_state)@, *old(limiter), pin.spec_bytes(), t_check, t_record);
                &&& session_result(old(lock_state)@, v, r)
                &&& final(lock_state)@ == s2
                &&& *final(limiter) == (RateLimiter { clock: old(limiter).clock.advanced_to(t_record), ..l2 })
            },
{
    let ghost s0 = lock_state@;
    let ghost l0 = *limiter;
    let stored = match get_pin_hash(lock_state) {
        Some(h) => h,
        None => {
            let r = Err(String::from_str("No active lock session"));
            proof {
                use_type_invariant(&limiter.clock);
                l0.clock.lemma_reading_in_range();
                l0.clock.lemma_advanced_to(l0.clock.last_reading(), l0.clock.last_reading());
                let t = l0.clock.last_reading();
                assert(session_result(s0, session_unlock(s0, l0, pin.spec_bytes(), t, t).0, r));
            }
            return r;
        },
    };
    let r = attempt_with_limit(pin, stored.as_str(), limiter);
    let ghost (t_check, t_record) = choose|t_check: u128, t_record: u128|
        l0.clock.last_reading() <= t_check && t_check <= t_record && t_record <= MAX_DURATION_NANOS && {
            let (verdict, after) = #[trigger] unlock_attempt(l0, pin.spec_bytes(), stored@, t_check, t_record);
            verdict_result(verdict, r) && *limiter == after_clocked_attempt(l0, pin.spec_bytes(), stored@, t_check, t_record)
        };
    match r {
        Err(m) => {
            let r = Err(m);
            assert(session_result(s0, session_unlock(s0, l0, pin.spec_bytes(), t_check, t_record).0, r));
            r
        },
        Ok(valid) => {
            if valid {
                match end_lock(lock_state) {
                    Err(m) => {
                        let r = Err(m);
                        assert(session_result(s0, session_unlock(s0, l0, pin.spec_bytes(), t_check, t_record).0, r));
                        r
                    },
                    Ok(()) => {
                        let r = Ok(true);
                        assert(session_result(s0, session_unlock(s0, l0, pin.spec_bytes(), t_check, t_record).0, r));
                        r
                    },
                }
            } else {
                let r = Ok(false);
                assert(session_result(s0, session_unlock(s0, l0, pin.spec_bytes(), t_check, t_record).0, r));
                r
            }
        },
    }
}

/// A session started with a PIN hash that Argon2 accepts for `pin` (as the
/// hashes that `start_lock` stores are) is ended by an unlock request with
/// that PIN outside a cooldown: the request succeeds, the lock state is
/// idle with nothing remembered, and the count of wrong PINs is reset.
pub proof fn law_right_pin_ends_session(
    s0: LockSnapshot,
    apps: Seq<AllowedApp>,
    hash: Seq<char>,
    t_start: u128,
    l: RateLimiter,
    pin: Seq<u8>,
    t_check: u128,
    t_record: u128,
)
    requires
        snapshot_wf(s0),
        s0.status == LockPhase::Idle,
        phc_string_parses(hash),
        argon2_accepts(pin, hash),
        !in_cooldown(l.locked_until, t_check),
    ensures
        ({
            let s1 = after_start(s0, apps, hash, t_start);
            let (v, s2, l2) = session_unlock(s1, l, pin, t_check, t_record);
            &&& v == SessionVerdict::Checked(UnlockVerdict::Checked(true))
            &&& s1.status == LockPhase::Locked
            &&& s2 == idle_snapshot()
            &&& l2.failed_attempts == 0
            &&& l2.locked_until is None
        }),
{
}

/// A wrong PIN, or any PIN during a cooldown, leaves the session as it was.
pub proof fn law_rejected_pin_keeps_session(s: LockSnapshot, l: RateLimiter, pin: Seq<u8>, t_check: u128, t_record: u128)
    requires
        s.pin_hash matches Some(h) && (in_cooldown(l.locked_until, t_check) || !argon2_accepts(pin, h)),
    ensures
        session_unlock(s, l, pin, t_check, t_record).1 == s,
{
}

} // verus!
