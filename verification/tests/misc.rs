use pookie_paste::app::App;
use pookie_paste::config::Config;
use pookie_paste::status::{IpcShortcutState, ShortcutStatusInfo};
use pookie_paste::ui_launcher::{check_ui_binary, resolve_ui_binary, spawn_error, ui_binary_name, UiLaunchError};

#[test]
fn default_history_size() {
    assert_eq!(Config::default().max_history_items, 100);
}

#[test]
fn app_messages() {
    let app = App::new();
    assert_eq!(app.start_message(), "Pookie daemon is running");
    assert_eq!(app.heartbeat_message(), "Daemon heartbeat");
    assert_eq!(app.heartbeat_secs(), 10);
}

#[test]
fn ui_binary_sits_next_to_the_daemon() {
    assert_eq!(ui_binary_name(), "ui");
    assert_eq!(resolve_ui_binary(Some("/usr/bin")).unwrap(), "/usr/bin/ui");
    assert!(matches!(
        resolve_ui_binary(None),
        Err(UiLaunchError::CurrentExecutable(m)) if m == "daemon executable has no parent directory"
    ));
    assert!(matches!(check_ui_binary("/x/ui".to_string(), false), Err(UiLaunchError::MissingUiBinary(p)) if p == "/x/ui"));
    assert_eq!(check_ui_binary("/x/ui".to_string(), true).unwrap(), "/x/ui");
    assert!(matches!(spawn_error("/x/ui", "denied"), UiLaunchError::Spawn(m) if m == "failed to launch /x/ui: denied"));
}

#[test]
fn status_copies_keep_text() {
    let s = ShortcutStatusInfo {
        configured_shortcut: "Super+V".to_string(),
        backend_name: Some("b".to_string()),
        capability: None,
        effective_shortcut: None,
        state: IpcShortcutState::Conflict { details: "d".to_string() },
    };
    let c = s.duplicate();
    assert_eq!(format!("{c:?}"), format!("{s:?}"));
}
