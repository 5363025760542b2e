//! The lock session's life cycle: a state machine that moves between
//! `Idle` and `Locked`, remembering which applications stay usable and the
//! PIN hash that ends the session.

use crate::clock::{MonotonicClock, MAX_DURATION_NANOS, NANOS_PER_SEC};
use crate::text::join2;
use vstd::prelude::*;

verus! {

/// Phases of a lock session.
#[derive(Debug, Clone, Copy, PartialEq, Eq, Structural)]
pub enum LockPhase {
    Idle,
    Locking,
    Locked,
    Unlocking,
}

/// How a phase is named in messages (its variant name).
pub open spec fn phase_label(p: LockPhase) -> Seq<char> {
    match p {
        LockPhase::Idle => "Idle"@,
        LockPhase::Locking => "Locking"@,
        LockPhase::Locked => "Locked"@,
        LockPhase::Unlocking => "Unlocking"@,
    }
}

impl LockPhase {
    /// The phase's name, as it appears in messages.
    pub fn label(&self) -> (s: &'static str)
        ensures
            s@ == phase_label(*self),
    {
        match self {
            LockPhase::Idle => "Idle",
            LockPhase::Locking => "Locking",
            LockPhase::Locked => "Locked",
            LockPhase::Unlocking => "Unlocking",
        }
    }
}

/// An application that stays usable while the session is locked.
#[derive(Debug)]
pub struct AllowedApp {
    pub hwnd: isize,
    pub title: String,
    pub process_name: String,
}

impl Clone for AllowedApp {
    fn clone(&self) -> (r: Self)
        ensures
            r == *self,
    {
        AllowedApp {
            hwnd: self.hwnd,
            title: self.title.clone(),
            process_name: self.process_name.clone(),
        }
    }
}

/// What one session is made of: the pinned application, the PIN hash and
/// the clock reading (nanoseconds) at which the session was locked.
#[derive(Debug)]
pub struct SessionData {
    pub allowed_app: AllowedApp,
    pub pin_hash: String,
    pub locked_at: u128,
}

/// The full lock state.
#[derive(Debug)]
pub struct LockState {
    pub status: LockPhase,
    pub allowed_apps: Vec<AllowedApp>,
    pub expected_pin_hash: Option<String>,
    /// Clock reading (nanoseconds on `clock`) at which the session began.
    pub session_start: Option<u128>,
    /// The clock that session times are read from.
    pub clock: MonotonicClock,
}

/// The lock status reported to the front end.
#[derive(Debug)]
pub struct LockStatus {
    pub status: LockPhase,
    pub allowed_apps: Vec<AllowedApp>,
    pub locked_duration_secs: Option<u64>,
}

/// What a lock state holds, apart from the clock it reads time from.
pub struct LockSnapshot {
    pub status: LockPhase,
    pub apps: Seq<AllowedApp>,
    pub pin_hash: Option<Seq<char>>,
    pub session_start: Option<u128>,
}

impl View for LockState {
    type V = LockSnapshot;

    open spec fn view(&self) -> LockSnapshot {
        LockSnapshot {
            status: self.status,
            apps: self.allowed_apps@,
            pin_hash: match self.expected_pin_hash {
                Some(h) => Some(h@),
                None => None,
            },
            session_start: self.session_start,
        }
    }
}

/// Idle, with nothing remembered.
pub open spec fn idle_snapshot() -> LockSnapshot {
    LockSnapshot { status: LockPhase::Idle, apps: Seq::empty(), pin_hash: None, session_start: None }
}

/// Locked to `apps` with PIN hash `hash`, since clock reading `now`.
pub open spec fn locked_snapshot(apps: Seq<AllowedApp>, hash: Seq<char>, now: u128) -> LockSnapshot {
    LockSnapshot { status: LockPhase::Locked, apps: apps, pin_hash: Some(hash), session_start: Some(now) }
}

/// The states a lock session can rest in: idle with nothing remembered,
/// or locked with a PIN hash and a start time.
pub open spec fn snapshot_wf(s: LockSnapshot) -> bool {
    match s.status {
        LockPhase::Idle => s == idle_snapshot(),
        LockPhase::Locked => s.pin_hash is Some && s.session_start is Some,
        _ => false,
    }
}

/// The state after a request to start a session at `now`: only an idle
/// state moves, to locked.
pub open spec fn after_start(s: LockSnapshot, apps: Seq<AllowedApp>, hash: Seq<char>, now: u128) -> LockSnapshot {
    if s.status == LockPhase::Idle {
        locked_snapshot(apps, hash, now)
    } else {
        s
    }
}

/// The state after a request to end the session: only a locked state
/// moves, to idle with nothing remembered.
pub open spec fn after_end(s: LockSnapshot) -> LockSnapshot {
    if s.status == LockPhase::Locked {
        idle_snapshot()
    } else {
        s
    }
}

/// Message refusing to start a session from phase `p`.
pub open spec fn cannot_start_message(p: LockPhase) -> Seq<char> {
    "Cannot start lock: current phase is "@ + phase_label(p)
}

/// Message refusing to end a session from phase `p`.
pub open spec fn cannot_unlock_message(p: LockPhase) -> Seq<char> {
    "Cannot unlock: current phase is "@ + phase_label(p)
}

/// Whole seconds from clock reading `start` to clock reading `now`
/// (zero when `now` is earlier).
pub open spec fn whole_seconds_between(start: u128, now: u128) -> nat {
    if now >= start {
        ((now - start) / (NANOS_PER_SEC as int)) as nat
    } else {
        0
    }
}

/// A running session began at a reading the state's clock has recorded:
/// its start is no later than the clock's latest reading.
pub open spec fn session_on_clock(state: &LockState) -> bool {
    state.session_start matches Some(start) ==> start <= state.clock.last_reading()
}

impl Default for LockState {
    fn default() -> (s: Self)
        ensures
            s@ == idle_snapshot(),
            session_on_clock(&s),
    {
        let s = LockState {
            status: LockPhase::Idle,
            allowed_apps: Vec::new(),
            expected_pin_hash: None,
            session_start: None,
            clock: MonotonicClock::start(),
        };
        assert(s@ =~= idle_snapshot());
        s
    }
}

/// Starts a session at clock reading `now`: an idle state becomes locked to
/// `apps` with `pin_hash`; any other phase is refused and the state is left
/// as it was.
pub fn start_lock_at(state: &mut LockState, apps: Vec<AllowedApp>, pin_hash: String, now: u128) -> (r: Result<(), String>)
    ensures
        r is Ok <==> old(state).status == LockPhase::Idle,
        final(state)@ == after_start(old(state)@, apps@, pin_hash@, now),
        r is Ok ==> final(state).expected_pin_hash == Some(pin_hash),
        r matches Err(e) ==> e@ == cannot_start_message(old(state).status) && *final(state) == *old(state),
        final(state).clock == old(state).clock,
{
    if state.status != LockPhase::Idle {
        return Err(join2("Cannot start lock: current phase is ", state.status.label()));
    }
    state.status = LockPhase::Locked;
    state.allowed_apps = apps;
    state.expected_pin_hash = Some(pin_hash);
    state.session_start = Some(now);
    Ok(())
}

/// Starts a session now: an idle state becomes locked to `apps` with
/// `pin_hash`, the start time a fresh reading of the state's clock (no
/// earlier than any it recorded before), which the clock records as its
/// latest; any other phase is refused and the state is left as it was.
pub fn start_lock(state: &mut LockState, apps: Vec<AllowedApp>, pin_hash: String) -> (r: Result<(), String>)
    ensures
        r is Ok <==> old(state).status == LockPhase::Idle,
        exists|now: u128| now <= MAX_DURATION_NANOS
            && final(state)@ == #[trigger] after_start(old(state)@, apps@, pin_hash@, now),
        r is Ok ==> final(state).expected_pin_hash == Some(pin_hash),
        r matches Err(e) ==> e@ == cannot_start_message(old(state).status) && *final(state) == *old(state),
        r is Ok ==> {
            &&& old(state).clock.last_reading() <= final(state).clock.last_reading()
            &&& final(state).clock == old(state).clock.advanced_to(final(state).clock.last_reading())
            &&& final(state)@ == after_start(old(state)@, apps@, pin_hash@, final(state).clock.last_reading())
            &&& final(state).session_start == Some(final(state).clock.last_reading())
        },
        session_on_clock(&*old(state)) ==> session_on_clock(&*final(state)),
{
    if state.status != LockPhase::Idle {
        assert(state@ == after_start(state@, apps@, pin_hash@, 0));
        return Err(join2("Cannot start lock: current phase is ", state.status.label()));
    }
    let ghost before = state.clock;
    let now = state.clock.tick();
    proof { before.lemma_advanced_to(now, now); }
    start_lock_at(state, apps, pin_hash, now)
}

/// Ends the session: a locked state becomes idle, forgetting the allowed
/// applications, the PIN hash and the start time; any other phase is
/// refused and the state is left as it was.
pub fn end_lock(state: &mut LockState) -> (r: Result<(), String>)
    ensures
        r is Ok <==> old(state).status == LockPhase::Locked,
        final(state)@ == after_end(old(state)@),
        r matches Err(e) ==> e@ == cannot_unlock_message(old(state).status) && *final(state) == *old(state),
        final(state).clock == old(state).clock,
        session_on_clock(&*old(state)) ==> session_on_clock(&*final(state)),
{
    if state.status != LockPhase::Locked {
        return Err(join2("Cannot unlock: current phase is ", state.status.label()));
    }
    state.status = LockPhase::Idle;
    state.allowed_apps.clear();
    state.expected_pin_hash = None;
    state.session_start = None;
    assert(state@ =~= idle_snapshot());
    Ok(())
}

/// The status of `state` as seen at clock reading `now`: its phase, its
/// allowed applications and, while a session runs, the whole seconds it
/// has lasted.
pub fn status_at(state: &LockState, now: u128) -> (s: LockStatus)
    requires
        now <= MAX_DURATION_NANOS,
    ensures
        s.status == state.status,
        s.allowed_apps@ == state.allowed_apps@,
        match state.session_start {
            Some(start) => s.locked_duration_secs == Some(whole_seconds_between(start, now) as u64),
            None => s.locked_duration_secs is None,
        },
{
    let duration = match state.session_start {
        Some(start) => {
            if now >= start {
                let secs = (now - start) / NANOS_PER_SEC;
                assert(secs <= u64::MAX) by {
                    assert((now - start) / 1_000_000_000 <= MAX_DURATION_NANOS / 1_000_000_000) by (nonlinear_arith)
                        requires now - start <= MAX_DURATION_NANOS;
                }
                Some(secs as u64)
            } else {
                Some(0u64)
            }
        },
        None => None,
    };
    LockStatus { status: state.status, allowed_apps: state.allowed_apps.clone(), locked_duration_secs: duration }
}

/// The current status of `state`, read against its clock: the duration is
/// measured at a fresh reading, no earlier than any the clock recorded
/// before (the session's start among them).
pub fn get_status(state: &LockState) -> (s: LockStatus)
    ensures
        s.status == state.status,
        s.allowed_apps@ == state.allowed_apps@,
        match state.session_start {
            Some(start) => exists|now: u128| now <= MAX_DURATION_NANOS
                && s.locked_duration_secs == Some(#[trigger] whole_seconds_between(start, now) as u64),
            None => s.locked_duration_secs is None,
        },
        exists|now: u128| state.clock.last_reading() <= now && now <= MAX_DURATION_NANOS
            && (state.session_start is Some ==> s.locked_duration_secs
                == Some(#[trigger] whole_seconds_between(state.session_start->0, now) as u64)),
{
    let now = state.clock.now_nanos();
    let s = status_at(state, now);
    let ghost secs = whole_seconds_between(state.session_start->0, now);
    assert(state.session_start is Some ==> s.locked_duration_secs == Some(secs as u64));
    s
}

/// The PIN hash that ends the running session, if one runs.
pub fn get_pin_hash(state: &LockState) -> (h: Option<String>)
    ensures
        h == state.expected_pin_hash,
{
    match &state.expected_pin_hash {
        Some(hash) => Some(hash.clone()),
        None => None,
    }
}

/// Starting a session from an idle state and then ending it gives back the
/// idle state with nothing remembered.
pub proof fn law_lock_round_trip(s: LockSnapshot, apps: Seq<AllowedApp>, hash: Seq<char>, now: u128)
    requires
        snapshot_wf(s),
        s.status == LockPhase::Idle,
    ensures
        after_start(s, apps, hash, now).status == LockPhase::Locked,
        after_end(after_start(s, apps, hash, now)) == s,
{
}

/// A running session cannot be started again, and an idle one cannot be
/// ended: both requests leave the state as it was.
pub proof fn law_refused_transitions_keep_state(s: LockSnapshot, apps: Seq<AllowedApp>, hash: Seq<char>, now: u128)
    ensures
        s.status != LockPhase::Idle ==> after_start(s, apps, hash, now) == s,
        s.status != LockPhase::Locked ==> after_end(s) == s,
{
}

/// Every request keeps a lock state among the states a session can rest
/// in, and a successful start always reaches one.
pub proof fn law_transitions_keep_wf(s: LockSnapshot, apps: Seq<AllowedApp>, hash: Seq<char>, now: u128)
    ensures
        snapshot_wf(s) ==> snapshot_wf(after_start(s, apps, hash, now)),
        snapshot_wf(s) ==> snapshot_wf(after_end(s)),
        s.status == LockPhase::Idle ==> snapshot_wf(after_start(s, apps, hash, now)),
{
}

/// While a session runs, the PIN hash it was started with is the one
/// reported; an idle state reports none.
pub proof fn law_pin_hash_follows_session(s: LockSnapshot, apps: Seq<AllowedApp>, hash: Seq<char>, now: u128)
    requires
        snapshot_wf(s),
    ensures
        s.status == LockPhase::Idle ==> after_start(s, apps, hash, now).pin_hash == Some(hash),
        after_end(after_start(s, apps, hash, now)).status == LockPhase::Idle ==> after_end(after_start(s, apps, hash, now)).pin_hash is None,
        s.status == LockPhase::Idle ==> s.pin_hash is None,
{
}

/// A session's reported duration is its whole seconds, counted down from
/// the reading at which it started: a status read `k` whole seconds (and
/// less than `k + 1`) after the start reports exactly `k`, and a later
/// reading never reports less than an earlier one.
pub proof fn law_duration_counts_whole_seconds(start: u128, now: u128, later: u128, k: nat)
    ensures
        start + k * 1_000_000_000 <= now < start + (k + 1) * 1_000_000_000 ==> whole_seconds_between(start, now) == k,
        now <= later ==> whole_seconds_between(start, now) <= whole_seconds_between(start, later),
{
    if start + k * 1_000_000_000 <= now && now < start + (k + 1) * 1_000_000_000 {
        let d = now - start;
        assert(d / 1_000_000_000 == k) by (nonlinear_arith)
            requires k * 1_000_000_000 <= d < (k + 1) * 1_000_000_000;
    }
    if now <= later && start <= now {
        let d1 = now - start;
        let d2 = later - start;
        assert(d1 / 1_000_000_000 <= d2 / 1_000_000_000) by (nonlinear_arith)
            requires 0 <= d1 <= d2;
    }
}

/// Sessions are timed on the state's clock: a fresh state and every request
/// keep a running session's start no later than the clock's latest reading,
/// so a status read afterwards measures from no earlier than the start and
/// reports at least the whole seconds between the start and the clock's
/// latest reading.
pub proof fn law_status_measured_after_start(state: LockState, now: u128)
    requires
        session_on_clock(&state),
        state.session_start is Some,
        state.clock.last_reading() <= now,
    ensures
        state.session_start->0 <= now,
        whole_seconds_between(state.session_start->0, state.clock.last_reading())
            <= whole_seconds_between(state.session_start->0, now),
{
    law_duration_counts_whole_seconds(state.session_start->0, state.clock.last_reading(), now, 0);
}

} // verus!
