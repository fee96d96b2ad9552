use some_global_executor::waker::{
    alert_after_wake, check_wake_outcome, decode, encode, CheckWake, WakeInternal, WakeState,
    INVALID_BOX, NOT_WOKEN, WOKEN,
};

#[test]
fn markers_decode_to_their_states() {
    assert_eq!(decode(NOT_WOKEN), WakeState::NotWoken);
    assert_eq!(decode(WOKEN), WakeState::Woken);
    assert_eq!(decode(42), WakeState::Alert(42));
    assert_eq!(decode(INVALID_BOX - 1), WakeState::Alert(INVALID_BOX - 1));
    assert_eq!(INVALID_BOX, WOKEN);
}

#[test]
fn encode_undoes_decode() {
    for raw in [0u64, 1, 42, INVALID_BOX - 1, WOKEN, NOT_WOKEN] {
        assert_eq!(encode(decode(raw)), raw);
    }
    assert_eq!(encode(WakeState::Alert(7)), 7);
}

#[test]
fn wake_hands_out_a_registered_alert() {
    assert_eq!(alert_after_wake(NOT_WOKEN), None);
    assert_eq!(alert_after_wake(WOKEN), None);
    assert_eq!(alert_after_wake(1234), Some(1234));
}

#[test]
fn registration_outcomes() {
    assert_eq!(check_wake_outcome(Ok(NOT_WOKEN), 9), CheckWake::Stored);
    assert_eq!(check_wake_outcome(Err(WOKEN), 9), CheckWake::RunInline);
    assert_eq!(check_wake_outcome(Err(3), 9), CheckWake::Discard);
}

#[test]
fn alert_registered_before_the_wake_runs_at_the_wake() {
    let w = WakeInternal::new();
    assert_eq!(w.registered_alert(), (WakeState::NotWoken, None));
    assert_eq!(w.check_wake(5), (WakeState::NotWoken, CheckWake::Stored));
    assert_eq!(w.registered_alert(), (WakeState::Alert(5), Some(5)));
    assert_eq!(w.wake_by_ref(), (WakeState::Alert(5), Some(5)));
    assert_eq!(w.registered_alert(), (WakeState::Woken, None));
    assert_eq!(w.wake_by_ref(), (WakeState::Woken, None));
}

#[test]
fn alert_registered_after_the_wake_runs_inline() {
    let w = WakeInternal::new();
    assert_eq!(w.wake_by_ref(), (WakeState::NotWoken, None));
    assert_eq!(w.check_wake(5), (WakeState::Woken, CheckWake::RunInline));
    assert_eq!(w.registered_alert(), (WakeState::Woken, None));
}

#[test]
fn second_alert_is_discarded() {
    let w = WakeInternal::new();
    assert_eq!(w.check_wake(5), (WakeState::NotWoken, CheckWake::Stored));
    assert_eq!(w.check_wake(6), (WakeState::Alert(5), CheckWake::Discard));
    assert_eq!(w.registered_alert(), (WakeState::Alert(5), Some(5)));
    assert_eq!(w.wake_by_ref(), (WakeState::Alert(5), Some(5)));
}

#[test]
fn reset_forgets_a_wake() {
    let w = WakeInternal::new();
    assert_eq!(w.wake_by_ref(), (WakeState::NotWoken, None));
    w.reset();
    assert_eq!(w.check_wake(8), (WakeState::NotWoken, CheckWake::Stored));
    assert_eq!(w.wake_by_ref(), (WakeState::Alert(8), Some(8)));
}
