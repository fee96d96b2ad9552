//! The wake protocol of one task.
//!
//! A task's wake word is a `u64` that holds one of three things: `NOT_WOKEN`
//! (polled, nobody woke it since), `WOKEN` (a wake arrived), or the token of
//! an alert, a callback that the executor registered after the task returned
//! `Pending` and that must run once the task is woken. Tokens are below
//! `INVALID_BOX`, so they never collide with the two markers.
use std::sync::atomic::AtomicU64;
use std::sync::atomic::Ordering;
use vstd::prelude::*;

verus! {

/// The marker of a task that has not been woken since it was last reset.
pub const NOT_WOKEN: u64 = 0xffff_ffff_ffff_ffffu64;

/// The marker of a task that has been woken.
pub const WOKEN: u64 = 0xffff_ffff_ffff_fffeu64;

/// The least value that cannot be an alert token.
pub const INVALID_BOX: u64 = 0xffff_ffff_ffff_fffeu64;

/// What a wake word holds.
#[derive(Debug, PartialEq, Eq, Clone, Copy)]
pub enum WakeState {
    /// No wake since the last reset, and no alert registered.
    NotWoken,
    /// A wake arrived.
    Woken,
    /// An alert is registered and waits for a wake.
    Alert(u64),
}

/// What a registration of an alert came to.
#[derive(Debug, PartialEq, Eq, Clone, Copy)]
pub enum CheckWake {
    /// The alert is stored and runs at the next wake.
    Stored,
    /// A wake came first: the caller runs the alert now.
    RunInline,
    /// Another alert is already stored: the caller drops this one unrun.
    Discard,
}

/// The state that a raw wake word holds.
pub open spec fn decode_spec(raw: u64) -> WakeState {
    if raw == NOT_WOKEN {
        WakeState::NotWoken
    } else if raw == WOKEN {
        WakeState::Woken
    } else {
        WakeState::Alert(raw)
    }
}

/// The raw wake word of a state.
pub open spec fn encode_spec(state: WakeState) -> u64 {
    match state {
        WakeState::NotWoken => NOT_WOKEN,
        WakeState::Woken => WOKEN,
        WakeState::Alert(token) => token,
    }
}

/// A state that a wake word can hold: an alert token is below `INVALID_BOX`.
pub open spec fn valid_state(state: WakeState) -> bool {
    match state {
        WakeState::Alert(token) => token < INVALID_BOX,
        _ => true,
    }
}

/// A wake: the word becomes `Woken`, and a registered alert is handed out to
/// be run.
pub open spec fn wake_transition(state: WakeState) -> (WakeState, Option<u64>) {
    match state {
        WakeState::Alert(token) => (WakeState::Woken, Some(token)),
        _ => (WakeState::Woken, None),
    }
}

/// A registration of the alert `token`.
pub open spec fn register_transition(state: WakeState, token: u64) -> (WakeState, CheckWake) {
    match state {
        WakeState::NotWoken => (WakeState::Alert(token), CheckWake::Stored),
        WakeState::Woken => (WakeState::Woken, CheckWake::RunInline),
        WakeState::Alert(other) => (WakeState::Alert(other), CheckWake::Discard),
    }
}

/// The state that a raw wake word holds.
pub fn decode(raw: u64) -> (state: WakeState)
    ensures
        state == decode_spec(raw),
        valid_state(state),
{
    if raw == NOT_WOKEN {
        WakeState::NotWoken
    } else if raw == WOKEN {
        WakeState::Woken
    } else {
        WakeState::Alert(raw)
    }
}

/// The raw wake word of a state.
pub fn encode(state: WakeState) -> (raw: u64)
    ensures
        raw == encode_spec(state),
{
    match state {
        WakeState::NotWoken => NOT_WOKEN,
        WakeState::Woken => WOKEN,
        WakeState::Alert(token) => token,
    }
}

/// The alert that a wake hands out, given the word that the wake replaced.
pub fn alert_after_wake(previous: u64) -> (alert: Option<u64>)
    ensures
        alert == wake_transition(decode_spec(previous)).1,
        alert matches Some(token) ==> token < INVALID_BOX,
{
    match decode(previous) {
        WakeState::Alert(token) => Some(token),
        _ => None,
    }
}

/// The word that a compare-exchange found, whether it succeeded or not.
pub open spec fn observed(exchanged: Result<u64, u64>) -> u64 {
    match exchanged {
        Ok(v) => v,
        Err(v) => v,
    }
}

/// What the registration of `token` came to, given the result of the
/// compare-exchange from `NOT_WOKEN` to `token`.
pub fn check_wake_outcome(exchanged: Result<u64, u64>, token: u64) -> (outcome: CheckWake)
    requires
        exchanged matches Ok(v) ==> v == NOT_WOKEN,
        exchanged matches Err(v) ==> v != NOT_WOKEN,
    ensures
        outcome == register_transition(decode_spec(observed(exchanged)), token).1,
{
    match exchanged {
        Ok(_) => CheckWake::Stored,
        Err(found) => match decode(found) {
            WakeState::Woken => CheckWake::RunInline,
            _ => CheckWake::Discard,
        },
    }
}

/// Decoding a raw word and encoding the state again gives the word back, and
/// every state that a word can hold survives encoding and decoding.
pub proof fn lemma_wake_word_roundtrip(raw: u64, state: WakeState)
    requires
        valid_state(state),
    ensures
        encode_spec(decode_spec(raw)) == raw,
        decode_spec(encode_spec(state)) == state,
{
}

/// An alert registered on a task runs exactly once, whether the wake comes
/// after the registration (the wake hands it out) or before it (the
/// registration runs it inline), and either way the task ends up woken.
pub proof fn lemma_alert_runs_once(token: u64)
    requires
        token < INVALID_BOX,
    ensures
        ({
            let (registered, outcome) = register_transition(WakeState::NotWoken, token);
            let (woken, alert) = wake_transition(registered);
            outcome == CheckWake::Stored && alert == Some(token) && woken == WakeState::Woken
        }),
        ({
            let (woken, alert) = wake_transition(WakeState::NotWoken);
            let (after, outcome) = register_transition(woken, token);
            alert is None && outcome == CheckWake::RunInline && after == WakeState::Woken
        }),
{
}

/// After any wake the task is woken, whatever the word held: so any number
/// of wakes in a row, followed by a registration, runs the alert inline, and
/// a registration after a wake never stores the alert.
pub proof fn lemma_wake_leaves_woken(state: WakeState, token: u64)
    ensures
        wake_transition(state).0 == WakeState::Woken,
        register_transition(wake_transition(state).0, token) == (WakeState::Woken, CheckWake::RunInline),
        register_transition(wake_transition(wake_transition(state).0).0, token) == (
            WakeState::Woken,
            CheckWake::RunInline,
        ),
{
}

/// A second wake changes nothing and hands out nothing.
pub proof fn lemma_wake_idempotent(state: WakeState)
    ensures
        wake_transition(wake_transition(state).0) == (WakeState::Woken, None::<u64>),
{
}

/// While an alert is stored, a second registration is discarded and the
/// first alert stays.
pub proof fn lemma_second_alert_discarded(first: u64, second: u64)
    ensures
        register_transition(register_transition(WakeState::NotWoken, first).0, second)
            == (WakeState::Alert(first), CheckWake::Discard),
{
}

/// A state that a word can hold goes to a state that a word can hold, under a
/// wake and under a registration of a token below `INVALID_BOX`.
pub proof fn lemma_transitions_keep_valid(state: WakeState, token: u64)
    requires
        valid_state(state),
        token < INVALID_BOX,
    ensures
        valid_state(wake_transition(state).0),
        valid_state(register_transition(state, token).0),
        wake_transition(state).1 matches Some(t) ==> t < INVALID_BOX,
{
}

/// Calls `AtomicU64::compare_exchange` with relaxed orderings. As std documents
/// it, the result is `Ok` holding the previous value, which equals `current`,
/// when `new` was stored, and `Err` holding the value found, which differs
/// from `current`, when nothing was stored. Which of the two comes back
/// depends on other threads and is left open.
#[verifier::external_body]
fn compare_exchange_word(word: &AtomicU64, current: u64, new: u64) -> (r: Result<u64, u64>)
    ensures
        r matches Ok(v) ==> v == current,
        r matches Err(v) ==> v != current,
{
    word.compare_exchange(current, new, Ordering::Relaxed, Ordering::Relaxed)
}

/// The wake word of one task, shared between the executor and the task's wakers.
#[derive(Debug)]
pub struct WakeInternal {
    inline_wake: AtomicU64,
}

impl WakeInternal {
    /// A word that holds `NOT_WOKEN` (not covered by a contract: the content
    /// of an atomic cannot be stated).
    pub fn new() -> (w: Self) {
        WakeInternal { inline_wake: AtomicU64::new(NOT_WOKEN) }
    }

    /// Wakes the task: the word becomes `WOKEN`, and an alert that was
    /// registered is handed out to the caller, who must run it. Returns the
    /// state that the wake replaced, which other threads decide, and the
    /// alert that the wake transition gives from it. The write of `WOKEN` is
    /// not covered by the contract, which cannot speak of the atomic's
    /// content.
    pub fn wake_by_ref(&self) -> (result: (WakeState, Option<u64>))
        ensures
            valid_state(result.0),
            result.1 == wake_transition(result.0).1,
            result.1 matches Some(token) ==> token < INVALID_BOX,
    {
        let previous: u64 = self.inline_wake.swap(WOKEN, Ordering::Relaxed);
        (decode(previous), alert_after_wake(previous))
    }

    /// Marks the task as not woken, before it is polled again (a write to the
    /// atomic, which the contract cannot speak of).
    pub fn reset(&self) {
        self.inline_wake.store(NOT_WOKEN, Ordering::Relaxed);
    }

    /// Registers the alert `token`, to be run at the next wake. Returns the
    /// state that the registration found, which other threads decide, and
    /// what the registration transition makes of it. The write of `token`
    /// when the word held `NOT_WOKEN` is not covered by the contract, which
    /// cannot speak of the atomic's content.
    pub fn check_wake(&self, token: u64) -> (result: (WakeState, CheckWake))
        requires
            token < INVALID_BOX,
        ensures
            valid_state(result.0),
            result.1 == register_transition(result.0, token).1,
    {
        let exchanged = compare_exchange_word(&self.inline_wake, NOT_WOKEN, token);
        let found: u64 = match exchanged {
            Ok(v) => v,
            Err(v) => v,
        };
        (decode(found), check_wake_outcome(exchanged, token))
    }

    /// The alert that is still registered, which its owner must release
    /// without running it when the word goes away. Returns the state that was
    /// read, which other threads decide, and the alert that this state holds:
    /// the token of `Alert(token)`, nothing for `NotWoken` and `Woken`.
    pub fn registered_alert(&self) -> (result: (WakeState, Option<u64>))
        ensures
            valid_state(result.0),
            result.1 == wake_transition(result.0).1,
            result.1 matches Some(token) ==> token < INVALID_BOX,
    {
        let raw: u64 = self.inline_wake.load(Ordering::Relaxed);
        (decode(raw), alert_after_wake(raw))
    }
}

} // verus!
