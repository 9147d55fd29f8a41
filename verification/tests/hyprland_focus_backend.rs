use pookie_paste::focus_backend::{FocusError, FocusTarget};
use pookie_paste::hyprland_focus_backend::{parse_active_window_address, HyprlandFocusBackend};

#[test]
fn parses_valid_active_window_address() {
    let json_resp = r#"{
        "address": "0x55a72ab3c4d0",
        "mapped": true,
        "hidden": false,
        "class": "kitty",
        "title": "Terminal"
    }"#;

    assert_eq!(
        parse_active_window_address(json_resp),
        Some("0x55a72ab3c4d0".to_string())
    );
}

#[test]
fn parse_returns_none_for_empty_workspace() {
    assert_eq!(parse_active_window_address("{}"), None);
    assert_eq!(parse_active_window_address(""), None);
    assert_eq!(parse_active_window_address("   "), None);
}

#[test]
fn parse_returns_none_for_malformed_json() {
    assert_eq!(parse_active_window_address("{ invalid json"), None);
    assert_eq!(parse_active_window_address("null"), None);
}

#[test]
fn parse_returns_none_for_blank_or_zero_address() {
    assert_eq!(parse_active_window_address(r#"{"address": ""}"#), None);
    assert_eq!(parse_active_window_address(r#"{"address": "   "}"#), None);
    assert_eq!(parse_active_window_address(r#"{"address": "0x"}"#), None);
    assert_eq!(parse_active_window_address(r#"{"address": "0x0"}"#), None);
}

#[test]
fn restore_rejects_non_hyprland_target() {
    let backend = HyprlandFocusBackend::from_path("/tmp/nonexistent-hypr.sock".to_string());
    let x11_target = FocusTarget::x11(12345);
    let result = backend.restore_command(&x11_target);
    assert!(result.is_err());
    match result {
        Err(FocusError::Failed(msg)) => {
            assert!(msg.contains("expected Hyprland focus target"))
        }
        other => panic!("expected FocusError::Failed, got {other:?}"),
    }
}

#[test]
fn is_active_rejects_non_hyprland_target() {
    let backend = HyprlandFocusBackend::from_path("/tmp/nonexistent-hypr.sock".to_string());
    let sway_target = FocusTarget::sway(42);
    let result = backend.is_active_in(&sway_target, "{}");
    assert!(result.is_err());
    match result {
        Err(FocusError::Failed(msg)) => {
            assert!(msg.contains("expected Hyprland focus target"))
        }
        other => panic!("expected FocusError::Failed, got {other:?}"),
    }
}

#[test]
fn hyprland_restore_command_and_reply() {
    let backend = HyprlandFocusBackend::from_path("/run/hypr.sock".to_string());
    assert_eq!(backend.socket_path(), "/run/hypr.sock");
    assert_eq!(backend.name(), "Hyprland focus");
    let t = FocusTarget::hyprland("0xabc".to_string());
    assert_eq!(
        backend.restore_command(&t).unwrap(),
        "dispatch hl.dsp.focus({ window = \"address:0xabc\" })"
    );
    assert!(backend.restore_result(" OK\n").is_ok());
    match backend.restore_result("") {
        Err(FocusError::Failed(m)) => assert_eq!(m, "Hyprland focus command failed: unknown error"),
        other => panic!("unexpected {other:?}"),
    }
    match backend.restore_result(" no window ") {
        Err(FocusError::Failed(m)) => assert_eq!(m, "Hyprland focus command failed: no window"),
        other => panic!("unexpected {other:?}"),
    }
}

#[test]
fn active_check_ignores_address_case() {
    let backend = HyprlandFocusBackend::from_path("/run/hypr.sock".to_string());
    let t = FocusTarget::hyprland("0xABC".to_string());
    assert!(backend.is_active_in(&t, r#"{"address": " 0xabc "}"#).unwrap());
    assert!(!backend.is_active_in(&t, r#"{"address": "0xdef"}"#).unwrap());
    assert!(!backend.is_active_in(&t, "").unwrap());
}
