use pookie_paste::platform_shortcut_backend::{classify_session_type, SessionType};

#[test]
fn identifies_x11() {
    assert_eq!(classify_session_type("x11"), SessionType::X11,);
}

#[test]
fn identifies_wayland() {
    assert_eq!(classify_session_type("wayland"), SessionType::Wayland,);
}

#[test]
fn unknown_session_is_other() {
    assert_eq!(classify_session_type("tty"), SessionType::Other,);
}

#[test]
fn platform_shortcut_backend_classification_is_case_insensitive() {
    assert_eq!(classify_session_type("X11"), SessionType::X11,);

    assert_eq!(classify_session_type("WAYLAND"), SessionType::Wayland,);
}

#[test]
fn platform_shortcut_backend_classification_ignores_whitespace() {
    assert_eq!(classify_session_type("  x11  "), SessionType::X11,);
}
