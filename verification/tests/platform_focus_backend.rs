use pookie_paste::platform_focus_backend::{classify_environment, FocusBackendKind};

#[test]
fn x11_selects_x11_backend() {
    assert_eq!(classify_environment("x11", "KDE",), FocusBackendKind::X11,);
}

#[test]
fn kde_wayland_selects_kde_backend() {
    assert_eq!(
        classify_environment("wayland", "KDE",),
        FocusBackendKind::Kde,
    );
}

#[test]
fn kde_desktop_matching_is_case_insensitive() {
    assert_eq!(
        classify_environment("WAYLAND", "kde",),
        FocusBackendKind::Kde,
    );
}

#[test]
fn composite_kde_desktop_is_detected() {
    assert_eq!(
        classify_environment("wayland", "KDE:Plasma",),
        FocusBackendKind::Kde,
    );
}

#[test]
fn non_kde_wayland_uses_fallback() {
    assert_eq!(
        classify_environment("wayland", "GNOME",),
        FocusBackendKind::Unavailable,
    );
}

#[test]
fn unknown_session_uses_fallback() {
    assert_eq!(
        classify_environment("unknown", "KDE",),
        FocusBackendKind::Unavailable,
    );
}

#[test]
fn unavailable_backend_cannot_restore_focus() {
    assert_eq!(
        classify_environment("wayland", "GNOME"),
        FocusBackendKind::Unavailable
    );
}

#[test]
fn x11_backend_kind_supports_focus_restoration() {
    assert_eq!(classify_environment("x11", "KDE",), FocusBackendKind::X11,);
}

#[test]
fn kde_entry_may_be_padded_in_a_semicolon_list() {
    assert_eq!(classify_environment(" wayland ", "GNOME; kde "), FocusBackendKind::Kde);
}
