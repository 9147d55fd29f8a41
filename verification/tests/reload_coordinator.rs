use pookie_paste::reload_coordinator::{
    reload_outcome, reload_target, ReloadError, SetShortcutAction, SetShortcutEvent, SetShortcutFlow,
};
use pookie_paste::shortcut_backend::ShortcutBackendCapability;
use pookie_paste::shortcut_config::{KeyBindingConfig, ModifiersConfig, ShortcutConfig, ShortcutSection};
use pookie_paste::shortcut_listener::initial_status;
use pookie_paste::shortcut_backend::{Shortcut, ShortcutError, ShortcutKey, ShortcutModifiers};
use pookie_paste::shortcut_config::ShortcutConfigError;
use pookie_paste::status::IpcShortcutCapability;

fn ctrl_x() -> Shortcut {
    Shortcut::new(ShortcutKey::Character('x'), ShortcutModifiers { control: true, ..Default::default() })
}

#[test]
fn native_change_rebinds_before_committing() {
    let mut f = SetShortcutFlow::new(ctrl_x());
    assert!(matches!(f.step(SetShortcutEvent::Started(Some(IpcShortcutCapability::Native))), SetShortcutAction::Prepare));
    assert!(matches!(f.step(SetShortcutEvent::Prepared(Ok(()))), SetShortcutAction::Rebind(s) if s == ctrl_x()));
    assert!(matches!(f.step(SetShortcutEvent::Rebound(Ok(()))), SetShortcutAction::Commit));
    assert!(matches!(f.step(SetShortcutEvent::Committed(Ok(()))), SetShortcutAction::Succeed));
    assert!(f.is_done());
}

#[test]
fn native_rebind_failure_discards_the_prepared_file() {
    let mut f = SetShortcutFlow::new(ctrl_x());
    f.step(SetShortcutEvent::Started(Some(IpcShortcutCapability::Native)));
    f.step(SetShortcutEvent::Prepared(Ok(())));
    let a = f.step(SetShortcutEvent::Rebound(Err(ShortcutError::Conflict("busy".to_string()))));
    assert!(matches!(a, SetShortcutAction::DiscardAndFail(ReloadError::Shortcut(ShortcutError::Conflict(m))) if m == "busy"));
    assert!(f.is_done());
}

#[test]
fn native_commit_failure_rolls_back() {
    let mut f = SetShortcutFlow::new(ctrl_x());
    f.step(SetShortcutEvent::Started(Some(IpcShortcutCapability::Native)));
    f.step(SetShortcutEvent::Prepared(Ok(())));
    f.step(SetShortcutEvent::Rebound(Ok(())));
    let a = f.step(SetShortcutEvent::Committed(Err(ShortcutConfigError::Io("disk full".to_string()))));
    assert!(matches!(a, SetShortcutAction::DiscardAndLoadPrevious));
    let a = f.step(SetShortcutEvent::PreviousLoaded(None));
    assert!(matches!(a, SetShortcutAction::Rebind(s) if s == Shortcut::super_v()));
    let a = f.step(SetShortcutEvent::Rebound(Ok(())));
    assert!(matches!(a, SetShortcutAction::Fail(ReloadError::Config(ShortcutConfigError::Io(m))) if m == "disk full"));
}

#[test]
fn double_failure_explains_both() {
    let mut f = SetShortcutFlow::new(ctrl_x());
    f.step(SetShortcutEvent::Started(Some(IpcShortcutCapability::Native)));
    f.step(SetShortcutEvent::Prepared(Ok(())));
    f.step(SetShortcutEvent::Rebound(Ok(())));
    f.step(SetShortcutEvent::Committed(Err(ShortcutConfigError::Io("disk full".to_string()))));
    f.step(SetShortcutEvent::PreviousLoaded(Some(Shortcut::super_v())));
    match f.step(SetShortcutEvent::Rebound(Err(ShortcutError::Failed("grab lost".to_string())))) {
        SetShortcutAction::Fail(ReloadError::Shortcut(ShortcutError::Failed(m))) => assert_eq!(
            m,
            "failed to commit configuration: failed reading configuration file: disk full; rollback to previous runtime shortcut also failed: grab lost; current runtime shortcut may differ from persisted configuration"
        ),
        other => panic!("unexpected {other:?}"),
    }
}

#[test]
fn compositor_change_commits_then_reprobes() {
    let mut f = SetShortcutFlow::new(ctrl_x());
    assert!(matches!(f.step(SetShortcutEvent::Started(Some(IpcShortcutCapability::CompositorManaged))), SetShortcutAction::Prepare));
    assert!(matches!(f.step(SetShortcutEvent::Prepared(Ok(()))), SetShortcutAction::Commit));
    assert!(matches!(f.step(SetShortcutEvent::Committed(Ok(()))), SetShortcutAction::Rebind(_)));
    assert!(matches!(f.step(SetShortcutEvent::Rebound(Ok(()))), SetShortcutAction::Succeed));
}

#[test]
fn portal_unknown_and_unsupported_are_refused() {
    let mut f = SetShortcutFlow::new(ctrl_x());
    assert!(matches!(
        f.step(SetShortcutEvent::Started(Some(IpcShortcutCapability::Portal))),
        SetShortcutAction::Fail(ReloadError::Shortcut(ShortcutError::Failed(m)))
            if m == "Shortcut is managed by the desktop portal; use ConfigurePortalShortcut"
    ));
    let mut f = SetShortcutFlow::new(ctrl_x());
    assert!(matches!(
        f.step(SetShortcutEvent::Started(Some(IpcShortcutCapability::Unsupported))),
        SetShortcutAction::Fail(ReloadError::Shortcut(ShortcutError::Unavailable))
    ));
    let mut f = SetShortcutFlow::new(ctrl_x());
    assert!(matches!(
        f.step(SetShortcutEvent::Started(None)),
        SetShortcutAction::Fail(ReloadError::Config(ShortcutConfigError::Parse(m))) if m == "shortcut capability is unknown"
    ));
    assert!(matches!(f.step(SetShortcutEvent::Prepared(Ok(()))), SetShortcutAction::Ignore));
}

#[test]
fn reload_error_texts() {
    assert_eq!(
        ReloadError::Config(ShortcutConfigError::Parse("x".to_string())).message(),
        "configuration error: failed to parse configuration TOML: x"
    );
    assert_eq!(
        ReloadError::Shortcut(ShortcutError::Unavailable).message(),
        "shortcut reload failed: global shortcuts are unavailable on this session"
    );
}

fn config_with(mods: &[&str], key: &str) -> ShortcutConfig {
    ShortcutConfig {
        shortcut: ShortcutSection {
            primary: Some(KeyBindingConfig {
                modifiers: ModifiersConfig::Multiple(mods.iter().map(|m| m.to_string()).collect()),
                key: key.to_string(),
            }),
            modifiers: None,
            key: None,
        },
    }
}

#[test]
fn reload_rebinds_only_a_valid_configuration() {
    assert_eq!(reload_target(Ok(config_with(&["CTRL"], "x"))).unwrap(), ctrl_x());
    assert_eq!(reload_target(Ok(ShortcutConfig::default())).unwrap(), Shortcut::super_v());
    assert!(matches!(
        reload_target(Ok(config_with(&[], "x"))),
        Err(ReloadError::Config(ShortcutConfigError::ModifierRequired(_)))
    ));
    assert!(matches!(
        reload_target(Err(ShortcutConfigError::Parse("bad".to_string()))),
        Err(ReloadError::Config(ShortcutConfigError::Parse(_)))
    ));
    let status = initial_status(ctrl_x(), "X11 global shortcut", ShortcutBackendCapability::Native);
    let answered = reload_outcome(Ok(status)).unwrap();
    assert_eq!(answered.configured_shortcut, "Ctrl+X");
    assert_eq!(answered.backend_name.as_deref(), Some("X11 global shortcut"));
    assert!(matches!(
        reload_outcome(Err(ShortcutError::Unavailable)),
        Err(ReloadError::Shortcut(ShortcutError::Unavailable))
    ));
}
