use pookie_paste::environment::{DesktopKind, EnvironmentAudit, SessionKind};

#[test]
fn detects_x11_sessions() {
    let audit = EnvironmentAudit::from_env("x11", "GNOME");
    assert_eq!(audit.session, SessionKind::X11);
    assert_eq!(audit.desktop, DesktopKind::Gnome);

    let audit_kde = EnvironmentAudit::from_env("X11", "KDE");
    assert_eq!(audit_kde.session, SessionKind::X11);
    assert_eq!(audit_kde.desktop, DesktopKind::Kde);
}

#[test]
fn detects_kde_wayland_sessions() {
    let audit = EnvironmentAudit::from_env("wayland", "KDE");
    assert_eq!(audit.session, SessionKind::Wayland);
    assert_eq!(audit.desktop, DesktopKind::Kde);

    let audit_multi = EnvironmentAudit::from_env("wayland", "plasma:kde");
    assert_eq!(audit_multi.session, SessionKind::Wayland);
    assert_eq!(audit_multi.desktop, DesktopKind::Kde);
}

#[test]
fn detects_wlroots_compositors() {
    let audit_sway = EnvironmentAudit::from_env("wayland", "sway");
    assert_eq!(audit_sway.session, SessionKind::Wayland);
    assert_eq!(audit_sway.desktop, DesktopKind::Wlroots);

    let audit_hyprland = EnvironmentAudit::from_env("wayland", "Hyprland");
    assert_eq!(audit_hyprland.session, SessionKind::Wayland);
    assert_eq!(audit_hyprland.desktop, DesktopKind::Wlroots);
}

#[test]
fn handles_unknown_sessions() {
    let audit = EnvironmentAudit::from_env("tty", "none");
    assert_eq!(audit.session, SessionKind::Unknown);
    assert_eq!(audit.desktop, DesktopKind::Other);
}

#[test]
fn audit_keeps_raw_values() {
    let audit = EnvironmentAudit::from_env(" Wayland ", "KDE;plasma");
    assert_eq!(audit.raw_session, " Wayland ");
    assert_eq!(audit.raw_desktop, "KDE;plasma");
    assert_eq!(audit.session, SessionKind::Wayland);
    assert_eq!(audit.desktop, DesktopKind::Kde);
}
