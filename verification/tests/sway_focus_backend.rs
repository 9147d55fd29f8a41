use pookie_paste::focus_backend::{FocusError, FocusTarget};
use pookie_paste::sway_focus_backend::{
    parse_focused_container, SwayCommandResult, SwayFocusBackend, SwayNode,
};
use uuid::Uuid;

fn node(id: i64, focused: bool, nodes: Vec<SwayNode>) -> SwayNode {
    SwayNode { id: Some(id), focused, nodes, floating_nodes: Vec::new() }
}

#[test]
fn parses_focused_container_from_nested_tree() {
    let tree = node(
        1,
        false,
        vec![node(2, false, vec![node(42, true, vec![])]), node(3, false, vec![])],
    );

    assert_eq!(parse_focused_container(&tree), Some(42));
}

#[test]
fn parses_focused_container_from_floating_nodes() {
    let tree = SwayNode {
        id: Some(1),
        focused: false,
        nodes: vec![],
        floating_nodes: vec![node(99, true, vec![])],
    };

    assert_eq!(parse_focused_container(&tree), Some(99));
}

#[test]
fn returns_none_when_no_node_is_focused() {
    let tree = node(1, false, vec![node(2, false, vec![])]);

    assert_eq!(parse_focused_container(&tree), None);
}

#[test]
fn restore_rejects_non_sway_target() {
    let backend = SwayFocusBackend::from_path("/tmp/nonexistent-sway.sock".to_string());
    let x11_target = FocusTarget::x11(12345);
    let result = backend.restore_command(&x11_target);
    assert!(result.is_err());
    match result {
        Err(FocusError::Failed(msg)) => assert!(msg.contains("expected Sway focus target")),
        other => panic!("expected FocusError::Failed, got {other:?}"),
    }
}

#[test]
fn is_active_rejects_non_sway_target() {
    let backend = SwayFocusBackend::from_path("/tmp/nonexistent-sway.sock".to_string());
    let kde_target = FocusTarget::kde(Uuid::new_v4().as_u128());
    let result = backend.is_active_in(&kde_target, &node(1, true, vec![]));
    assert!(result.is_err());
    match result {
        Err(FocusError::Failed(msg)) => assert!(msg.contains("expected Sway focus target")),
        other => panic!("expected FocusError::Failed, got {other:?}"),
    }
}

#[test]
fn focused_node_without_integer_id_is_skipped() {
    let tree = SwayNode {
        id: None,
        focused: true,
        nodes: vec![node(5, true, vec![])],
        floating_nodes: vec![],
    };
    assert_eq!(parse_focused_container(&tree), Some(5));
}

#[test]
fn sway_restore_command_and_reply() {
    let backend = SwayFocusBackend::from_path("/run/sway.sock".to_string());
    assert_eq!(backend.name(), "Sway focus");
    assert_eq!(backend.socket_path(), "/run/sway.sock");
    assert_eq!(
        backend.restore_command(&FocusTarget::sway(17)).unwrap(),
        "[con_id=17] focus"
    );
    let ok = vec![SwayCommandResult { success: Some(true), error: None }];
    assert!(backend.restore_result(&ok).is_ok());
    let failed = vec![SwayCommandResult { success: Some(false), error: Some("no container".to_string()) }];
    match backend.restore_result(&failed) {
        Err(FocusError::Failed(m)) => assert_eq!(m, "Sway focus command failed: no container"),
        other => panic!("unexpected {other:?}"),
    }
    match backend.restore_result(&vec![]) {
        Err(FocusError::Failed(m)) => assert_eq!(m, "Sway focus command failed: unknown error"),
        other => panic!("unexpected {other:?}"),
    }
    let tree = node(1, false, vec![node(17, true, vec![])]);
    assert!(backend.is_active_in(&FocusTarget::sway(17), &tree).unwrap());
    assert!(!backend.is_active_in(&FocusTarget::sway(18), &tree).unwrap());
}
