use pin_vault::session::{
    device_bound_text, device_unlocked_text, incorrect_pin_text, invalid_command_text,
    session_step, Action, Event, SessionState,
};

/// Feed a sequence of transport bytes, collecting the action of each step.
fn feed(mut state: SessionState, bytes: &[u8]) -> (SessionState, Vec<Action>) {
    let mut actions = Vec::new();
    for &b in bytes {
        let (next, act) = session_step(state, Event::Byte(b));
        state = next;
        actions.push(act);
    }
    (state, actions)
}

#[test]
fn reply_texts_are_bit_exact() {
    assert_eq!(invalid_command_text(), "Invalid Command");
    assert_eq!(device_bound_text(), "Device Bound");
    assert_eq!(device_unlocked_text(), "Device unlocked");
    assert_eq!(incorrect_pin_text(), "Incorrect pin\r\n");
}

#[test]
fn full_session_round_trip() {
    // Bind: send x\r\n, expect the pin request after the full frame.
    let state = SessionState::init();
    let (state, actions) = feed(state, b"x\r\n");
    assert_eq!(actions, vec![Action::Continue, Action::Continue, Action::NeedPin]);

    // The generated pin is displayed as two pulse trains of in-range length.
    let (state, act) = session_step(state, Event::Pin(2, 2));
    match act {
        Action::AnnounceBound(d1, d2) => {
            assert_eq!((d1, d2), (2, 2));
            assert!((1..=4).contains(&d1) && (1..=4).contains(&d2));
        }
        other => panic!("expected the bound announcement, got {:?}", other),
    }

    // Unlock with the actual pin.
    let (state, actions) = feed(state, b"g22\r\n");
    assert_eq!(actions.last(), Some(&Action::WriteUnlocked));
    assert!(actions[..4].iter().all(|a| *a == Action::Continue));

    // Query the secret.
    let (state, actions) = feed(state, b"q\r\n");
    assert_eq!(actions.last(), Some(&Action::WriteSecret("Aww man you found my secret!")));

    // Release; the session restarts at the bind phase.
    let (state, actions) = feed(state, b"u\r\n");
    assert_eq!(actions, vec![Action::Continue, Action::Continue, Action::Continue]);
    assert!(matches!(state, SessionState::WaitBind { .. }));

    // A fresh bind succeeds again, with an independently drawn pin.
    let (state, actions) = feed(state, b"x\r\n");
    assert_eq!(actions.last(), Some(&Action::NeedPin));
    let (_, act) = session_step(state, Event::Pin(1, 3));
    assert_eq!(act, Action::AnnounceBound(1, 3));
}

#[test]
fn out_of_range_digits_reject_without_counting() {
    let state = SessionState::init();
    let (state, _) = feed(state, b"x\r\n");
    let (state, _) = session_step(state, Event::Pin(2, 2));

    // g99\r\n: the first out-of-range digit is rejected at once, and the
    // left-over bytes of the frame are each rejected in turn.
    let (state, actions) = feed(state, b"g99\r\n");
    assert_eq!(
        actions,
        vec![
            Action::Continue,
            Action::WriteInvalid,
            Action::WriteInvalid,
            Action::WriteInvalid,
            Action::WriteInvalid,
        ]
    );

    // The vault is still locked and no failed attempt was counted.
    match &state {
        SessionState::WaitUnlock { vault, .. } => assert_eq!(vault.failed_attempts, 0),
        other => panic!("expected the unlock phase, got {:?}", phase_name(other)),
    }

    // The true pin still unlocks with a clean counter.
    let (state, actions) = feed(state, b"g22\r\n");
    assert_eq!(actions.last(), Some(&Action::WriteUnlocked));
    match state {
        SessionState::Open { vault, .. } => assert_eq!(vault.failed_attempts, 0),
        _ => panic!("expected the open phase"),
    }
}

#[test]
fn wrong_pin_is_counted_then_correct_pin_unlocks() {
    let state = SessionState::init();
    let (state, _) = feed(state, b"x\r\n");
    let (state, _) = session_step(state, Event::Pin(2, 4));

    let (state, actions) = feed(state, b"g11\r\n");
    assert_eq!(actions.last(), Some(&Action::WriteIncorrect));
    match &state {
        SessionState::WaitUnlock { vault, .. } => {
            assert_eq!(vault.failed_attempts, 1);
            assert_eq!(vault.pin, [2, 4]);
        }
        _ => panic!("expected the unlock phase"),
    }

    let (state, actions) = feed(state, b"g24\r\n");
    assert_eq!(actions.last(), Some(&Action::WriteUnlocked));
    match state {
        SessionState::Open { vault, .. } => assert_eq!(vault.failed_attempts, 1),
        _ => panic!("expected the open phase"),
    }
}

#[test]
fn bad_bind_bytes_are_rejected_one_by_one() {
    let state = SessionState::init();
    let (state, actions) = feed(state, b"y");
    assert_eq!(actions, vec![Action::WriteInvalid]);
    let (state, actions) = feed(state, b"x\rx");
    assert_eq!(actions, vec![Action::Continue, Action::Continue, Action::WriteInvalid]);
    // After a rejection the phase is re-entered and a clean frame works.
    let (_, actions) = feed(state, b"x\r\n");
    assert_eq!(actions.last(), Some(&Action::NeedPin));
}

#[test]
fn read_failure_is_an_invalid_command_not_a_crash() {
    let state = SessionState::init();
    let (state, act) = session_step(state, Event::ReadFailed);
    assert_eq!(act, Action::WriteInvalid);
    let (state, _) = feed(state, b"x\r\n");
    let (state, _) = session_step(state, Event::Pin(3, 3));
    let (state, act) = session_step(state, Event::ReadFailed);
    assert_eq!(act, Action::WriteInvalid);
    match &state {
        SessionState::WaitUnlock { vault, .. } => {
            assert_eq!(vault.failed_attempts, 0);
            assert_eq!(vault.pin, [3, 3]);
        }
        _ => panic!("expected the unlock phase"),
    }
}

#[test]
fn unknown_post_unlock_command_is_invalid() {
    let state = SessionState::init();
    let (state, _) = feed(state, b"x\r\n");
    let (state, _) = session_step(state, Event::Pin(1, 1));
    let (state, _) = feed(state, b"g11\r\n");
    let (state, actions) = feed(state, b"z\r\n");
    assert_eq!(
        actions,
        vec![Action::WriteInvalid, Action::WriteInvalid, Action::WriteInvalid]
    );
    // The session stays open and a query still answers with the secret.
    let (_, actions) = feed(state, b"q\r\n");
    assert_eq!(actions.last(), Some(&Action::WriteSecret("Aww man you found my secret!")));
}

#[test]
fn secret_is_only_written_in_the_open_phase() {
    // Drive every byte value through the bind and unlock phases and check
    // that no step before a successful unlock ever writes the secret.
    let mut state = SessionState::init();
    for b in 0..=255u8 {
        let (next, act) = session_step(state, Event::Byte(b));
        assert!(!matches!(act, Action::WriteSecret(_)));
        state = next;
        if matches!(state, SessionState::AwaitPin) {
            let (next, act) = session_step(state, Event::Pin(4, 4));
            assert!(!matches!(act, Action::WriteSecret(_)));
            state = next;
        }
        if matches!(state, SessionState::Open { .. }) {
            // Only reachable through a correct unlock frame, which the byte
            // sweep never produces in order.
            unreachable!();
        }
    }
}

fn phase_name(state: &SessionState) -> &'static str {
    match state {
        SessionState::WaitBind { .. } => "waiting for bind",
        SessionState::AwaitPin => "awaiting pin",
        SessionState::WaitUnlock { .. } => "waiting for unlock",
        SessionState::Open { .. } => "open",
    }
}
