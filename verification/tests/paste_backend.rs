use pookie_paste::paste_backend::{
    choose_paste_backend, classify_session_type, PasteBackend, PasteBackendChoice,
    PasteBackendKind, PasteCapability, PasteError, WaylandPasteBackend,
};

#[test]
fn identifies_wayland_session() {
    assert_eq!(classify_session_type("wayland"), PasteBackendKind::Wayland);
}

#[test]
fn identifies_x11_session() {
    assert_eq!(classify_session_type("x11"), PasteBackendKind::X11);
}

#[test]
fn unknown_session_uses_fallback_classification() {
    assert_eq!(classify_session_type("unknown"), PasteBackendKind::Unknown);
}

#[test]
fn paste_backend_classification_is_case_insensitive() {
    assert_eq!(classify_session_type("X11"), PasteBackendKind::X11);
    assert_eq!(classify_session_type("WAYLAND"), PasteBackendKind::Wayland);
}

#[test]
fn paste_backend_classification_ignores_whitespace() {
    assert_eq!(classify_session_type("  x11  "), PasteBackendKind::X11);
    assert_eq!(
        classify_session_type("\nwayland\t"),
        PasteBackendKind::Wayland,
    );
}

#[test]
fn wayland_without_focus_restore_stays_clipboard_only() {
    let choice = choose_paste_backend(classify_session_type("wayland"), false, true);

    assert_eq!(choice, PasteBackendChoice::WaylandFallback);
}

#[test]
fn fallback_backend_remains_clipboard_only() {
    let backend = WaylandPasteBackend::new();

    assert_eq!(backend.capability(), PasteCapability::ClipboardOnly);
}

#[test]
fn paste_backend_choice_follows_session() {
    assert_eq!(choose_paste_backend(PasteBackendKind::X11, false, false), PasteBackendChoice::X11);
    assert_eq!(
        choose_paste_backend(PasteBackendKind::Wayland, true, true),
        PasteBackendChoice::WaylandDirect
    );
    assert_eq!(
        choose_paste_backend(PasteBackendKind::Wayland, true, false),
        PasteBackendChoice::WaylandFallback
    );
    assert_eq!(
        choose_paste_backend(PasteBackendKind::Unknown, true, true),
        PasteBackendChoice::WaylandFallback
    );
}

#[test]
fn fallback_backend_refuses_to_paste() {
    let backend = WaylandPasteBackend::new();
    assert!(matches!(backend.paste(), Err(PasteError::Unavailable)));
    assert!(matches!(PasteBackend::paste(&backend), Err(PasteError::Unavailable)));
    assert_eq!(PasteBackend::capability(&backend), PasteCapability::ClipboardOnly);
}
