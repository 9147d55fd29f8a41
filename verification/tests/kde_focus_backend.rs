use pookie_paste::focus_backend::{FocusError, FocusTarget};
use pookie_paste::kde_focus_backend::{
    active_step, capture_step, kde_target, restore_step, HelperResponse, ACTION_ACTIVE,
    ACTION_CAPTURE, ACTION_RESTORE, POOKIE_FOCUS_PATH, POOKIE_SERVICE,
};
use uuid::Uuid;

#[test]
fn final_action_ids_are_stable() {
    assert_eq!(ACTION_CAPTURE, "PookiePasteFocusCapture",);

    assert_eq!(ACTION_RESTORE, "PookiePasteFocusRestore",);

    assert_eq!(ACTION_ACTIVE, "PookiePasteFocusActive",);
}

#[test]
fn final_dbus_contract_is_stable() {
    assert_eq!(POOKIE_SERVICE, "io.github.riyanj220.PookiePaste",);

    assert_eq!(POOKIE_FOCUS_PATH, "/io/github/riyanj220/PookiePaste/Focus",);
}

#[test]
fn rejects_x11_target_for_kde_backend() {
    let result = kde_target(&FocusTarget::x11(42));

    match result {
        Err(FocusError::Failed(message)) => {
            assert!(message.contains("non-KDE focus target",),);
        }

        _ => {
            panic!("expected KDE target mismatch failure");
        }
    }
}

#[test]
fn extracts_kde_target_uuid() {
    let id = Uuid::parse_str("12345678-1234-5678-1234-567812345678").expect("valid UUID");

    let result = kde_target(&FocusTarget::kde(id.as_u128())).expect("KDE target should be accepted");

    assert_eq!(result, id.as_u128());
}

#[test]
fn capture_reads_the_captured_window() {
    let id = Uuid::parse_str("12345678-1234-5678-1234-567812345678").unwrap();
    let r = capture_step(&HelperResponse::Captured(id.to_string()));
    assert_eq!(r.unwrap().unwrap(), id.as_u128());
    assert!(matches!(
        capture_step(&HelperResponse::CaptureUnavailable),
        Some(Err(FocusError::Unavailable))
    ));
    assert!(matches!(
        capture_step(&HelperResponse::Captured("not-a-uuid".to_string())),
        Some(Err(FocusError::Failed(m))) if m.starts_with("invalid KWin window UUID returned by helper: ")
    ));
    assert!(capture_step(&HelperResponse::ActiveNone).is_none());
}

#[test]
fn restore_requires_the_expected_window() {
    let id = Uuid::parse_str("12345678-1234-5678-1234-567812345678").unwrap();
    let other = Uuid::parse_str("87654321-4321-8765-4321-876543218765").unwrap();
    assert!(matches!(
        restore_step(&HelperResponse::RestoreRequested(id.to_string()), id.as_u128()),
        Some(Ok(()))
    ));
    match restore_step(&HelperResponse::RestoreRequested(other.to_string()), id.as_u128()) {
        Some(Err(FocusError::Failed(m))) => assert_eq!(
            m,
            "KWin helper restored unexpected target: expected kde:12345678-1234-5678-1234-567812345678, got kde:87654321-4321-8765-4321-876543218765"
        ),
        other => panic!("unexpected {other:?}"),
    }
    assert!(matches!(
        restore_step(&HelperResponse::RestoreNoTarget, id.as_u128()),
        Some(Err(FocusError::Unavailable))
    ));
    match restore_step(&HelperResponse::RestoreNotFound("w1".to_string()), id.as_u128()) {
        Some(Err(FocusError::Failed(m))) => assert_eq!(m, "KWin focus target no longer exists: w1"),
        other => panic!("unexpected {other:?}"),
    }
    assert!(restore_step(&HelperResponse::CaptureUnavailable, id.as_u128()).is_none());
}

#[test]
fn active_compares_with_the_expected_window() {
    let id = Uuid::parse_str("12345678-1234-5678-1234-567812345678").unwrap();
    let other = Uuid::parse_str("87654321-4321-8765-4321-876543218765").unwrap();
    assert!(matches!(
        active_step(&HelperResponse::Active(id.to_string()), id.as_u128()),
        Some(Ok(true))
    ));
    assert!(matches!(
        active_step(&HelperResponse::Active(other.to_string()), id.as_u128()),
        Some(Ok(false))
    ));
    assert!(matches!(active_step(&HelperResponse::ActiveNone, id.as_u128()), Some(Ok(false))));
}
