use pookie_paste::activation_service::ActivationResult;
use pookie_paste::focus_backend::{FocusError, FocusTarget};
use pookie_paste::ipc_mapper::StoredClipboardItem;
use pookie_paste::request_handler::{
    activation_response, capture_response, clear_response, delete_response, history_response,
    plan_request, ActivationOutcome, IpcRequest, IpcResponse, RequestWork,
};

fn stored(id: &str, content_type: &str, text: Option<&str>, file: Option<&str>) -> StoredClipboardItem {
    StoredClipboardItem {
        id: id.to_string(),
        content_type: content_type.to_string(),
        text_content: text.map(|t| t.to_string()),
        file_path: file.map(|f| f.to_string()),
        content_hash: "hash".to_string(),
        created_at: "2026-09-17T10:00:00Z".to_string(),
        pinned_at: None,
    }
}

#[test]
fn requests_name_their_work() {
    assert!(matches!(plan_request(IpcRequest::Ping), RequestWork::Reply(IpcResponse::Pong)));
    assert!(matches!(plan_request(IpcRequest::GetHistory), RequestWork::LoadHistory));
    match plan_request(IpcRequest::ActivateItem { id: "a".to_string(), target_id: Some(12345) }) {
        RequestWork::Activate { id, target } => {
            assert_eq!(id, "a");
            assert_eq!(target, Some(FocusTarget::X11(12345)));
        },
        other => panic!("unexpected {other:?}"),
    }
    match plan_request(IpcRequest::ActivateItem { id: "b".to_string(), target_id: None }) {
        RequestWork::Activate { target, .. } => assert_eq!(target, None),
        other => panic!("unexpected {other:?}"),
    }
    assert!(matches!(plan_request(IpcRequest::DeleteItem { id: "c".to_string() }), RequestWork::Delete { .. }));
    assert!(matches!(plan_request(IpcRequest::ClearHistory), RequestWork::Clear));
    assert!(matches!(plan_request(IpcRequest::CaptureFocusTarget), RequestWork::CaptureFocus));
}

#[test]
fn history_answers_map_every_item() {
    let items = vec![
        stored("1", "text", Some("hello"), Some("images/leak.png")),
        stored("2", "image", Some("leak"), Some("images/2.png")),
    ];
    match history_response(Ok(items)) {
        IpcResponse::History { items } => {
            assert_eq!(items.len(), 2);
            assert_eq!(items[0].id, "1");
            assert_eq!(items[0].file_path, None);
            assert_eq!(items[1].text_content, None);
            assert_eq!(items[1].file_path.as_deref(), Some("images/2.png"));
        },
        other => panic!("unexpected {other:?}"),
    }
    assert_eq!(
        history_response(Err("disk full".to_string())),
        IpcResponse::Error { message: "failed to load clipboard history: disk full".to_string() }
    );
}

#[test]
fn activation_delete_clear_and_capture_answers() {
    assert_eq!(
        activation_response(Ok(ActivationResult::NotFound)),
        IpcResponse::Activated { outcome: ActivationOutcome::NotFound }
    );
    assert_eq!(
        activation_response(Ok(ActivationResult::Pasted)),
        IpcResponse::Activated { outcome: ActivationOutcome::Pasted }
    );
    assert_eq!(
        activation_response(Err("db locked".to_string())),
        IpcResponse::Error { message: "clipboard activation failed".to_string() }
    );
    assert_eq!(delete_response(Ok(false)), IpcResponse::Deleted { deleted: false });
    assert_eq!(
        delete_response(Err("x".to_string())),
        IpcResponse::Error { message: "failed to delete clipboard history item: x".to_string() }
    );
    assert_eq!(clear_response(Ok(3)), IpcResponse::Cleared { count: 3 });
    assert_eq!(clear_response(Ok(0)), IpcResponse::Cleared { count: 0 });
    assert_eq!(
        clear_response(Err("y".to_string())),
        IpcResponse::Error { message: "failed to clear clipboard history: y".to_string() }
    );
    assert_eq!(capture_response(Ok(FocusTarget::X11(42))), IpcResponse::FocusTarget { target_id: Some(42) });
    assert_eq!(capture_response(Err(FocusError::Unavailable)), IpcResponse::FocusTarget { target_id: None });
    assert_eq!(
        capture_response(Err(FocusError::Failed("boom".to_string()))),
        IpcResponse::Error { message: "failed to capture focus target".to_string() }
    );
}
