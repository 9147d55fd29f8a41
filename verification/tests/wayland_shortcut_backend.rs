use pookie_paste::shortcut_backend::{NamedKey, Shortcut, ShortcutError, ShortcutKey, ShortcutModifiers};
use pookie_paste::wayland_shortcut_backend::{
    check_portal_response, clipboard_history_shortcut, expected_request_path,
    is_portal_method_unavailable, map_portal_method_error, next_token, portal_trigger,
    request_sender_component, v4_uuid_bits, POOKIE_APPLICATION_ID, POOKIE_DESKTOP_FILE_ID,
};
use pookie_paste::wayland_shortcut_backend::{
    already_registered_error, is_clipboard_history_bound, is_own_signal,
    response_wait_error, reuses_prepared_subscription, BoundShortcut, ResponseWaitFailure,
};

#[test]
fn uses_stable_application_identity() {
    assert_eq!(POOKIE_APPLICATION_ID, "io.github.riyanj220.PookiePaste",);

    assert_eq!(
        POOKIE_DESKTOP_FILE_ID,
        "io.github.riyanj220.PookiePaste.desktop",
    );

    assert_eq!(
        POOKIE_DESKTOP_FILE_ID
            .strip_suffix(".desktop")
            .expect("desktop file id should end in .desktop"),
        POOKIE_APPLICATION_ID,
    );
}

#[test]
fn converts_super_v_to_portal_trigger() {
    let trigger = portal_trigger(Shortcut::super_v()).unwrap();

    assert_eq!(trigger, "<Super>v");
}

#[test]
fn converts_ctrl_alt_v_to_portal_trigger() {
    let trigger = portal_trigger(Shortcut::new(
        ShortcutKey::Character('v'),
        ShortcutModifiers {
            control: true,
            alt: true,
            ..ShortcutModifiers::default()
        },
    ))
    .unwrap();

    assert_eq!(trigger, "<Ctrl><Alt>v");
}

#[test]
fn converts_dbus_unique_name_to_request_sender() {
    assert_eq!(request_sender_component(":1.823").unwrap(), "1_823",);
}

#[test]
fn rejects_non_unique_dbus_name_for_request_sender() {
    assert!(matches!(
        request_sender_component("1.823"),
        Err(ShortcutError::Failed(_)),
    ));
}

#[test]
fn portal_tokens_are_object_path_safe() {
    let token = next_token("pookie_request").expect("random bytes");

    assert!(token.starts_with("pookie_request_"));

    assert!(!token.contains('-'));

    assert!(
        token
            .chars()
            .all(|character| character.is_ascii_alphanumeric() || character == '_')
    );
}

#[test]
fn portal_tokens_are_unique() {
    assert_ne!(
        next_token("pookie_request").expect("random bytes"),
        next_token("pookie_request").expect("random bytes"),
    );
}

#[test]
fn successful_portal_response_is_accepted() {
    assert!(check_portal_response("test", 0).is_ok());
}

#[test]
fn cancelled_portal_response_is_cancelled() {
    assert!(matches!(
        check_portal_response("test", 1),
        Err(ShortcutError::Cancelled),
    ));
}

#[test]
fn failed_portal_response_is_failure() {
    assert!(matches!(
        check_portal_response("test", 2),
        Err(ShortcutError::Failed(_)),
    ));
}

#[test]
fn unknown_portal_response_is_failure() {
    assert!(matches!(
        check_portal_response("test", 99),
        Err(ShortcutError::Failed(_)),
    ));
}

#[test]
fn portal_response_messages() {
    match check_portal_response("BindShortcuts", 2) {
        Err(ShortcutError::Failed(m)) => assert_eq!(m, "BindShortcuts failed in the portal"),
        other => panic!("unexpected {other:?}"),
    }
    match check_portal_response("CreateSession", 99) {
        Err(ShortcutError::Failed(m)) => {
            assert_eq!(m, "CreateSession returned unknown response code 99")
        }
        other => panic!("unexpected {other:?}"),
    }
}

#[test]
fn named_keys_and_non_ascii_in_portal_triggers() {
    let s = Shortcut::new(
        ShortcutKey::Named(NamedKey::F(5)),
        ShortcutModifiers { shift: true, super_key: true, ..ShortcutModifiers::default() },
    );
    assert_eq!(portal_trigger(s).unwrap(), "<Shift><Super>F5");
    let s = Shortcut::new(ShortcutKey::Character('V'), ShortcutModifiers::default());
    assert_eq!(portal_trigger(s).unwrap(), "v");
    let s = Shortcut::new(ShortcutKey::Character('é'), ShortcutModifiers::default());
    assert!(matches!(portal_trigger(s), Err(ShortcutError::Unavailable)));
    let s = Shortcut::new(ShortcutKey::Named(NamedKey::F(20)), ShortcutModifiers::default());
    assert!(matches!(portal_trigger(s), Err(ShortcutError::Unavailable)));
}

#[test]
fn request_path_is_predictable() {
    assert_eq!(
        expected_request_path(":1.42", "pookie_request_ab").unwrap(),
        "/org/freedesktop/portal/desktop/request/1_42/pookie_request_ab"
    );
    assert!(expected_request_path("1.42", "t").is_err());
}

#[test]
fn missing_portal_methods_mean_unavailable() {
    assert!(is_portal_method_unavailable("org.freedesktop.DBus.Error.UnknownMethod: nope"));
    assert!(!is_portal_method_unavailable("timeout"));
    assert!(matches!(map_portal_method_error("Bind", "No such interface x"), ShortcutError::Unavailable));
    match map_portal_method_error("Bind", "boom") {
        ShortcutError::Failed(m) => assert_eq!(m, "Bind failed: boom"),
        other => panic!("unexpected {other:?}"),
    }
}

#[test]
fn clipboard_history_shortcut_properties() {
    let (id, description, trigger) = clipboard_history_shortcut("<Super>v");
    assert_eq!(id, "clipboard-history");
    assert_eq!(description, "Open clipboard history");
    assert_eq!(trigger, "<Super>v");
}

#[test]
fn portal_registration_decisions() {
    let bound = vec![
        BoundShortcut { id: "other".to_string(), trigger_description: None },
        BoundShortcut { id: "clipboard-history".to_string(), trigger_description: Some("Super+V".to_string()) },
    ];
    assert!(is_clipboard_history_bound(&bound));
    assert!(!is_clipboard_history_bound(&bound[..1].to_vec()));
    assert!(!is_clipboard_history_bound(&Vec::new()));
    match already_registered_error() {
        ShortcutError::Failed(m) => assert_eq!(m, "Wayland shortcut backend is already registered"),
        other => panic!("unexpected {other:?}"),
    }
    let session = "/org/freedesktop/portal/desktop/session/1_2/pookie_session_0";
    assert!(is_own_signal(session, session, "clipboard-history"));
    assert!(!is_own_signal(session, "/other", "clipboard-history"));
    assert!(!is_own_signal(session, session, "something-else"));
    assert!(reuses_prepared_subscription("/a/b", "/a/b"));
    assert!(!reuses_prepared_subscription("/a/c", "/a/b"));
}

#[test]
fn portal_response_wait_errors() {
    let op = "GlobalShortcuts BindShortcuts";
    match response_wait_error(op, ResponseWaitFailure::TimedOut, 30) {
        ShortcutError::TimedOut(m) => {
            assert_eq!(m, "GlobalShortcuts BindShortcuts did not complete within 30 seconds")
        },
        other => panic!("unexpected {other:?}"),
    }
    match response_wait_error(op, ResponseWaitFailure::StreamEnded, 30) {
        ShortcutError::Failed(m) => {
            assert_eq!(m, "GlobalShortcuts BindShortcuts response stream ended unexpectedly")
        },
        other => panic!("unexpected {other:?}"),
    }
    match response_wait_error(op, ResponseWaitFailure::StreamFailed("io".to_string()), 30) {
        ShortcutError::Failed(m) => assert_eq!(m, "GlobalShortcuts BindShortcuts response stream failed: io"),
        other => panic!("unexpected {other:?}"),
    }
    match response_wait_error(op, ResponseWaitFailure::Undecodable("sig".to_string()), 30) {
        ShortcutError::Failed(m) => {
            assert_eq!(m, "failed to decode GlobalShortcuts BindShortcuts portal response: sig")
        },
        other => panic!("unexpected {other:?}"),
    }
}

#[test]
fn random_bits_become_a_version_four_uuid() {
    assert_eq!(v4_uuid_bits(0), 0x0000_0000_0000_4000_8000_0000_0000_0000);
    assert_eq!(v4_uuid_bits(u128::MAX), 0xFFFF_FFFF_FFFF_4FFF_BFFF_FFFF_FFFF_FFFF);
    let bits = v4_uuid_bits(0x0123_4567_89AB_CDEF_0123_4567_89AB_CDEF);
    assert_eq!(bits, 0x0123_4567_89AB_4DEF_8123_4567_89AB_CDEF);
    assert_eq!((bits >> 76) & 0xF, 4);
    assert_eq!((bits >> 62) & 0x3, 2);
}
