use pookie_paste::focus_backend::FocusTarget;
use pookie_paste::ipc_mapper::{
    from_ipc_focus_target, to_history_item, to_ipc_focus_target, IpcFocusTarget,
    StoredClipboardItem,
};

#[test]
fn maps_text_storage_item_without_file_reference() {
    let item = StoredClipboardItem {
        id: "text-1".to_string(),
        content_type: "text".to_string(),
        text_content: Some("hello".to_string()),
        file_path: Some("images/should-not-leak.png".to_string()),
        content_hash: "hash".to_string(),
        created_at: "2026-09-17T10:00:00Z".to_string(),
        pinned_at: None,
    };
    let mapped = to_history_item(item);
    assert_eq!(mapped.file_path, None);
    assert_eq!(mapped.content_type, "text");
    assert_eq!(mapped.text_content.as_deref(), Some("hello"));
}

#[test]
fn maps_image_storage_item_as_reference_only() {
    let item = StoredClipboardItem {
        id: "550e8400-e29b-41d4-a716-446655440000".to_string(),
        content_type: "image".to_string(),
        text_content: Some("must not leak".to_string()),
        file_path: Some("images/550e8400-e29b-41d4-a716-446655440000.png".to_string()),
        content_hash: "image-hash".to_string(),
        created_at: "2026-09-17T10:00:00Z".to_string(),
        pinned_at: None,
    };
    let mapped = to_history_item(item);
    assert_eq!(mapped.text_content, None);
    assert_eq!(mapped.content_type, "image");
    assert_eq!(
        mapped.file_path.as_deref(),
        Some("images/550e8400-e29b-41d4-a716-446655440000.png")
    );
}

#[test]
fn maps_unknown_content_type_unchanged() {
    let item = StoredClipboardItem {
        id: "x".to_string(),
        content_type: "rtf".to_string(),
        text_content: Some("t".to_string()),
        file_path: Some("f".to_string()),
        content_hash: "h".to_string(),
        created_at: "2026-09-17T10:00:00Z".to_string(),
        pinned_at: None,
    };
    let mapped = to_history_item(item);
    assert_eq!(mapped.content_type, "rtf");
    assert_eq!(mapped.text_content.as_deref(), Some("t"));
    assert_eq!(mapped.file_path.as_deref(), Some("f"));
    assert_eq!(mapped.id, "x");
}

#[test]
fn maps_x11_focus_target_to_ipc() {
    assert_eq!(to_ipc_focus_target(FocusTarget::x11(42)), IpcFocusTarget::X11(42));
}

#[test]
fn maps_kde_focus_target_to_ipc() {
    let id = uuid::Uuid::parse_str("12345678-1234-5678-1234-567812345678").expect("valid UUID");
    assert_eq!(
        to_ipc_focus_target(FocusTarget::kde(id.as_u128())),
        IpcFocusTarget::Kde(id.to_string())
    );
}

#[test]
fn maps_x11_ipc_target_to_focus_target() {
    let target = from_ipc_focus_target(IpcFocusTarget::X11(42)).expect("mapping should succeed");
    assert_eq!(target, FocusTarget::x11(42));
}

#[test]
fn maps_kde_ipc_target_to_focus_target() {
    let id = uuid::Uuid::parse_str("12345678-1234-5678-1234-567812345678").expect("valid UUID");
    let target = from_ipc_focus_target(IpcFocusTarget::Kde(id.to_string()))
        .expect("mapping should succeed");
    assert_eq!(target, FocusTarget::kde(id.as_u128()));
}

#[test]
fn rejects_invalid_kde_uuid() {
    let result = from_ipc_focus_target(IpcFocusTarget::Kde("not-a-uuid".to_string()));
    assert!(result.is_err());
    assert!(result.unwrap_err().starts_with("invalid KDE focus target UUID not-a-uuid: "));
}

#[test]
fn maps_sway_focus_target_bidirectionally() {
    let target = FocusTarget::sway(42);
    let ipc_target = to_ipc_focus_target(target.clone());
    assert_eq!(ipc_target, IpcFocusTarget::Sway(42));
    let round_tripped = from_ipc_focus_target(ipc_target).expect("mapping should succeed");
    assert_eq!(round_tripped, target);
}

#[test]
fn maps_hyprland_focus_target_bidirectionally() {
    let target = FocusTarget::hyprland("0x55a72f1b8a90".to_string());
    let ipc_target = to_ipc_focus_target(target.clone());
    assert_eq!(ipc_target, IpcFocusTarget::Hyprland("0x55a72f1b8a90".to_string()));
    let round_tripped = from_ipc_focus_target(ipc_target).expect("mapping should succeed");
    assert_eq!(round_tripped, target);
}

#[test]
fn maps_pinned_at_timestamp_to_ipc_history_item() {
    let item = StoredClipboardItem {
        id: "text-pinned".to_string(),
        content_type: "text".to_string(),
        text_content: Some("pinned content".to_string()),
        file_path: None,
        content_hash: "hash-pinned".to_string(),
        created_at: "2026-09-17T10:00:00Z".to_string(),
        pinned_at: Some("2026-09-20T12:00:00Z".to_string()),
    };
    let mapped = to_history_item(item);
    assert_eq!(mapped.pinned_at.as_deref(), Some("2026-09-20T12:00:00Z"));
    assert!(mapped.is_pinned());
}

#[test]
fn kde_target_round_trips_through_ipc() {
    let target = FocusTarget::kde(0x1234_5678_9abc_def0_1234_5678_9abc_def0);
    let back = from_ipc_focus_target(to_ipc_focus_target(target.clone())).expect("valid UUID");
    assert_eq!(back, target);
}
