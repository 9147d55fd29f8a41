use std::time::Duration;

use pookie_paste::paste_backend::{PasteCapability, PasteError};
use pookie_paste::portal_eis_paste_backend::{
    cleanup_frames, ctrl_v_frames, health_capability, next_retry_index, parse_restore_token,
    paste_gate, paste_needs_reconnect, portal_supports_keyboard, reconnect_delay_secs,
    reconnect_delays, restore_token_action, restore_token_path, EisEmulation, EventOutcome,
    KeyFrame, PortalEisHealth, RestoreTokenAction, KEY_LEFTCTRL, KEY_V, RESTORE_TOKEN_FILE,
};
use pookie_paste::portal_eis_paste_backend::{
    after_run, run_step, RunInput, RunStep, SessionRunOutcome,
};
use pookie_paste::portal_eis_paste_backend::{
    discovery_receive_error, discovery_step, discovery_stream_ended, discovery_timeout,
    started_with_keyboard, DiscoveryNext, DiscoveryStage, SetupEvent,
};

#[test]
fn ready_health_is_direct() {
    assert_eq!(
        health_capability(PortalEisHealth::Ready),
        PasteCapability::Direct,
    );
}

#[test]
fn paused_health_is_clipboard_only() {
    assert_eq!(
        health_capability(PortalEisHealth::Paused),
        PasteCapability::ClipboardOnly,
    );
}

#[test]
fn recovering_health_is_clipboard_only() {
    assert_eq!(
        health_capability(PortalEisHealth::Recovering),
        PasteCapability::ClipboardOnly,
    );
}

#[test]
fn reconnect_backoff_is_bounded() {
    assert_eq!(
        reconnect_delays().map(Duration::from_secs),
        [
            Duration::from_secs(1),
            Duration::from_secs(2),
            Duration::from_secs(5),
            Duration::from_secs(10),
        ],
    );
}

#[test]
fn failed_health_is_clipboard_only() {
    assert_eq!(
        health_capability(PortalEisHealth::Failed),
        PasteCapability::ClipboardOnly,
    );
}

#[test]
fn restore_token_file_name_is_stable() {
    assert_eq!(RESTORE_TOKEN_FILE, "remote-desktop.restore-token",);
}

#[test]
fn linux_keycodes_are_stable() {
    assert_eq!(KEY_LEFTCTRL, 29);
    assert_eq!(KEY_V, 47);
}

#[test]
fn health_survives_storage() {
    for h in [
        PortalEisHealth::Ready,
        PortalEisHealth::Paused,
        PortalEisHealth::Recovering,
        PortalEisHealth::Failed,
    ] {
        assert_eq!(PortalEisHealth::from_atomic(h.to_atomic()), h);
    }
    assert_eq!(PortalEisHealth::from_atomic(0), PortalEisHealth::Failed);
    assert_eq!(PortalEisHealth::from_atomic(200), PortalEisHealth::Failed);
}

#[test]
fn reconnect_delay_repeats_the_last_step() {
    assert_eq!(reconnect_delay_secs(0), 1);
    assert_eq!(reconnect_delay_secs(2), 5);
    assert_eq!(reconnect_delay_secs(3), 10);
    assert_eq!(reconnect_delay_secs(1000), 10);
    assert_eq!(next_retry_index(4), 5);
    assert_eq!(next_retry_index(usize::MAX), usize::MAX);
}

#[test]
fn only_direct_capability_pastes() {
    assert!(paste_gate(PasteCapability::Direct).is_ok());
    assert!(matches!(paste_gate(PasteCapability::ClipboardOnly), Err(PasteError::Unavailable)));
    assert!(paste_needs_reconnect(&Err(PasteError::Failed("x".to_string()))));
    assert!(!paste_needs_reconnect(&Err(PasteError::Unavailable)));
    assert!(!paste_needs_reconnect(&Ok(())));
}

#[test]
fn emulation_sequences_skip_zero() {
    let mut e = EisEmulation { resumed: true, emulating: true, next_sequence: u32::MAX };
    assert_eq!(e.take_next_sequence(), u32::MAX);
    assert_eq!(e.next_sequence, 1);
    assert_eq!(e.take_next_sequence(), 1);
    assert_eq!(e.next_sequence, 2);
}

#[test]
fn keyboard_events_drive_health() {
    let mut e = EisEmulation::started();
    assert_eq!(e.on_keyboard_paused(), (EventOutcome::Continue, PortalEisHealth::Paused));
    assert!(!e.can_paste(true));
    let seq = e.on_keyboard_resumed();
    assert_eq!(seq, 2);
    assert_eq!(e.on_emulation_restarted(true), (EventOutcome::Continue, PortalEisHealth::Ready));
    assert!(e.can_paste(true));
    assert!(!e.can_paste(false));
    assert_eq!(e.on_emulation_restarted(false), (EventOutcome::Reconnect, PortalEisHealth::Recovering));
    assert_eq!(e.on_keyboard_lost(), (EventOutcome::Reconnect, PortalEisHealth::Recovering));
    assert!(!e.stop_emulating(true));
}

#[test]
fn stop_is_sent_only_while_emulating() {
    let mut e = EisEmulation::started();
    assert!(e.stop_emulating(true));
    assert!(!e.emulating);
    assert!(!e.stop_emulating(true));
}

#[test]
fn ctrl_v_presses_and_releases_in_order() {
    assert_eq!(
        ctrl_v_frames(),
        vec![
            KeyFrame { key: 29, pressed: true },
            KeyFrame { key: 47, pressed: true },
            KeyFrame { key: 47, pressed: false },
            KeyFrame { key: 29, pressed: false },
        ]
    );
}

#[test]
fn interrupted_paste_releases_held_keys() {
    assert_eq!(cleanup_frames(0), vec![]);
    assert_eq!(cleanup_frames(1), vec![KeyFrame { key: 29, pressed: false }]);
    assert_eq!(
        cleanup_frames(2),
        vec![KeyFrame { key: 47, pressed: false }, KeyFrame { key: 29, pressed: false }]
    );
    assert_eq!(cleanup_frames(3), vec![KeyFrame { key: 29, pressed: false }]);
    assert_eq!(cleanup_frames(4), vec![]);
}

#[test]
fn restore_token_location() {
    assert_eq!(
        restore_token_path(Some("/state"), Some("/home/u")).as_deref(),
        Some("/state/pookie-paste/remote-desktop.restore-token")
    );
    assert_eq!(
        restore_token_path(Some(""), Some("/home/u")).as_deref(),
        Some("/home/u/.local/state/pookie-paste/remote-desktop.restore-token")
    );
    assert_eq!(restore_token_path(None, Some("")), None);
    assert_eq!(restore_token_path(None, None), None);
}

#[test]
fn restore_token_is_trimmed_and_never_empty() {
    assert_eq!(parse_restore_token("  abc\n").as_deref(), Some("abc"));
    assert_eq!(parse_restore_token(" \n\t"), None);
    assert!(matches!(restore_token_action(Some("t1")), RestoreTokenAction::Save(s) if s == "t1"));
    assert!(matches!(restore_token_action(None), RestoreTokenAction::Clear));
}

#[test]
fn portal_needs_version_two_and_keyboard() {
    assert!(portal_supports_keyboard(2, true).is_ok());
    assert!(matches!(portal_supports_keyboard(1, true), Err(PasteError::Unavailable)));
    assert!(matches!(portal_supports_keyboard(3, false), Err(PasteError::Unavailable)));
}

#[test]
fn eis_setup_discovers_seat_keyboard_and_resume() {
    assert!(matches!(discovery_step(DiscoveryStage::Seat, 0, SetupEvent::Other), DiscoveryNext::Wait));
    assert!(matches!(discovery_step(DiscoveryStage::Seat, 0, SetupEvent::SeatAdded), DiscoveryNext::SeatFound));
    assert!(matches!(
        discovery_step(DiscoveryStage::Keyboard, 0, SetupEvent::DeviceAdded { device: 3, keyboard: false }),
        DiscoveryNext::Wait
    ));
    assert!(matches!(
        discovery_step(DiscoveryStage::Keyboard, 0, SetupEvent::DeviceAdded { device: 4, keyboard: true }),
        DiscoveryNext::KeyboardFound { device: 4 }
    ));
    assert!(matches!(
        discovery_step(DiscoveryStage::Resume, 4, SetupEvent::DeviceResumed { device: 3, serial: 9 }),
        DiscoveryNext::Wait
    ));
    assert!(matches!(
        discovery_step(DiscoveryStage::Resume, 4, SetupEvent::DeviceResumed { device: 4, serial: 9 }),
        DiscoveryNext::Resumed { serial: 9 }
    ));
    assert!(matches!(
        discovery_step(DiscoveryStage::Resume, 4, SetupEvent::DeviceRemoved { device: 4 }),
        DiscoveryNext::Fail(PasteError::Unavailable)
    ));
    match discovery_step(DiscoveryStage::Keyboard, 0, SetupEvent::Disconnected("Gone".to_string())) {
        DiscoveryNext::Fail(PasteError::Failed(m)) => {
            assert_eq!(m, "EIS disconnected during keyboard discovery: Gone")
        },
        other => panic!("unexpected {other:?}"),
    }
    match discovery_stream_ended(DiscoveryStage::Seat) {
        PasteError::Failed(m) => assert_eq!(m, "EI event stream ended before seat discovery"),
        other => panic!("unexpected {other:?}"),
    }
    match discovery_receive_error(DiscoveryStage::Resume, "eof") {
        PasteError::Failed(m) => {
            assert_eq!(m, "failed receiving EI event while waiting for keyboard resume: eof")
        },
        other => panic!("unexpected {other:?}"),
    }
    match discovery_timeout(DiscoveryStage::Keyboard) {
        PasteError::Failed(m) => assert_eq!(m, "timed out waiting for EI keyboard device"),
        other => panic!("unexpected {other:?}"),
    }
    assert!(started_with_keyboard(true).is_ok());
    assert!(matches!(started_with_keyboard(false), Err(PasteError::Unavailable)));
}

#[test]
fn session_run_steps() {
    assert_eq!(run_step(&RunInput::Pasted(Ok(()))), RunStep::Continue);
    assert_eq!(run_step(&RunInput::Pasted(Err(PasteError::Unavailable))), RunStep::Continue);
    assert_eq!(
        run_step(&RunInput::Pasted(Err(PasteError::Failed("broken pipe".to_string())))),
        RunStep::Stop { outcome: SessionRunOutcome::Reconnect, health: Some(PortalEisHealth::Recovering) }
    );
    assert_eq!(
        run_step(&RunInput::CommandsClosed),
        RunStep::Stop { outcome: SessionRunOutcome::BackendDropped, health: None }
    );
    assert_eq!(run_step(&RunInput::Event(EventOutcome::Continue)), RunStep::Continue);
    assert_eq!(
        run_step(&RunInput::Event(EventOutcome::Reconnect)),
        RunStep::Stop { outcome: SessionRunOutcome::Reconnect, health: None }
    );
    assert_eq!(
        run_step(&RunInput::EventStreamFailed),
        RunStep::Stop { outcome: SessionRunOutcome::Reconnect, health: Some(PortalEisHealth::Recovering) }
    );
    assert_eq!(
        run_step(&RunInput::EventStreamEnded),
        RunStep::Stop { outcome: SessionRunOutcome::Reconnect, health: Some(PortalEisHealth::Recovering) }
    );
    assert_eq!(after_run(SessionRunOutcome::BackendDropped), (PortalEisHealth::Failed, false));
    assert_eq!(after_run(SessionRunOutcome::Reconnect), (PortalEisHealth::Recovering, true));
}
