use pookie_paste::focus_backend::{
    focus_wait_step, FocusBackend, FocusError, FocusTarget, FocusWaitStep,
    UnavailableFocusBackend, FOCUS_POLL_INTERVAL_MS, FOCUS_TIMEOUT_MS,
};
use uuid::Uuid;

#[test]
fn legacy_new_constructor_creates_x11_target() {
    let target = FocusTarget::new(42);

    assert_eq!(target, FocusTarget::X11(42));
    assert_eq!(target.x11_id(), Some(42));
    assert_eq!(target.kde_id(), None);
}

#[test]
fn creates_explicit_x11_target() {
    let target = FocusTarget::x11(12345);

    assert_eq!(target.x11_id(), Some(12345));
    assert_eq!(target.kde_id(), None);
}

#[test]
fn creates_kde_target() {
    let id = Uuid::new_v4();

    let target = FocusTarget::kde(id.as_u128());

    assert_eq!(target.kde_id(), Some(id.as_u128()));
    assert_eq!(target.x11_id(), None);
}

#[test]
fn target_display_includes_platform() {
    let x11 = FocusTarget::x11(99);

    assert_eq!(x11.to_string(), "x11:99");

    let kde_id = Uuid::parse_str("12345678-1234-5678-1234-567812345678").expect("valid UUID");

    let kde = FocusTarget::kde(kde_id.as_u128());

    assert_eq!(kde.to_string(), "kde:12345678-1234-5678-1234-567812345678",);
}

#[test]
fn sway_and_hyprland_targets_display() {
    assert_eq!(FocusTarget::sway(-7).to_string(), "sway:-7");
    assert_eq!(FocusTarget::sway(i64::MIN).to_string(), "sway:-9223372036854775808");
    assert_eq!(FocusTarget::x11(u64::MAX).to_string(), "x11:18446744073709551615");
    assert_eq!(
        FocusTarget::hyprland("0x55a7".to_string()).to_string(),
        "hyprland:0x55a7"
    );
    assert_eq!(FocusTarget::kde(0).to_string(), "kde:00000000-0000-0000-0000-000000000000");
}

#[test]
fn unavailable_backend_refuses_everything() {
    let b = UnavailableFocusBackend;
    assert!(matches!(b.active_target(), Err(FocusError::Unavailable)));
    assert!(matches!(b.restore(FocusTarget::x11(1)), Err(FocusError::Unavailable)));
    assert!(matches!(b.is_active(FocusTarget::x11(1)), Err(FocusError::Unavailable)));
}

#[test]
fn focus_wait_times_out() {
    let t = FocusTarget::x11(5);
    assert!(matches!(focus_wait_step(&t, true, 999, FOCUS_TIMEOUT_MS), FocusWaitStep::Restored));
    assert!(matches!(focus_wait_step(&t, false, FOCUS_POLL_INTERVAL_MS, FOCUS_TIMEOUT_MS), FocusWaitStep::Poll));
    match focus_wait_step(&t, false, 250, FOCUS_TIMEOUT_MS) {
        FocusWaitStep::TimedOut(FocusError::Failed(m)) => {
            assert_eq!(m, "focus restoration timed out for target x11:5")
        }
        other => panic!("unexpected {other:?}"),
    }
}
