use pookie_paste::shortcut_backend::{
    NamedKey, Shortcut, ShortcutBackendCapability, ShortcutError, ShortcutKey, ShortcutModifiers,
    ShortcutRegistrationOutcome,
};
use pookie_paste::sway_shortcut_backend::{
    diagnose_sway_config, format_sway_binding, is_pookie_command, sway_config_candidates,
    SwayBindingDiagnosis, SwayShortcutBackend,
};

fn ctrl_alt(key: ShortcutKey) -> Shortcut {
    Shortcut::new(
        key,
        ShortcutModifiers { control: true, alt: true, ..ShortcutModifiers::default() },
    )
}

#[test]
fn formats_bindsym_directive() {
    assert_eq!(
        format_sway_binding(Shortcut::super_v()),
        "bindsym Mod4+v exec pookie-paste --toggle"
    );
    assert_eq!(
        format_sway_binding(ctrl_alt(ShortcutKey::Named(NamedKey::F(3)))),
        "bindsym Ctrl+Mod1+F3 exec pookie-paste --toggle"
    );
    assert_eq!(
        format_sway_binding(ctrl_alt(ShortcutKey::Named(NamedKey::Enter))),
        "bindsym Ctrl+Mod1+Return exec pookie-paste --toggle"
    );
}

#[test]
fn recognises_pookie_commands() {
    assert!(is_pookie_command("exec pookie-paste --toggle"));
    assert!(is_pookie_command("exec --no-startup-id /usr/bin/pookie-paste -t"));
    assert!(is_pookie_command("pookie-paste-ui"));
    assert!(!is_pookie_command("exec pookie-paste"));
    assert!(!is_pookie_command("exec sh -c 'pookie-paste --toggle'"));
    assert!(!is_pookie_command(""));
}

#[test]
fn generated_directive_is_recognised() {
    let text = format_sway_binding(Shortcut::super_v());
    assert_eq!(diagnose_sway_config(&text, Shortcut::super_v()), SwayBindingDiagnosis::MatchedPookie);
}

#[test]
fn variables_flags_and_comments_are_understood() {
    let config = "set $mod Mod4\n# bindsym $mod+v exec firefox\nbindsym --to-code $mod+V exec pookie-paste --toggle # clipboard\n";
    assert_eq!(diagnose_sway_config(config, Shortcut::super_v()), SwayBindingDiagnosis::MatchedPookie);
}

#[test]
fn other_command_on_the_key_is_a_conflict() {
    let config = "bindsym Mod4+v exec firefox --new-window\nbindsym Mod4+v exec pookie-paste --toggle\n";
    assert_eq!(
        diagnose_sway_config(config, Shortcut::super_v()),
        SwayBindingDiagnosis::Conflict { command: "exec firefox --new-window".to_string() }
    );
}

#[test]
fn modifiers_must_match_exactly() {
    let config = "bindsym Mod4+Shift+v exec pookie-paste --toggle\nbindsym Mod1+v exec x\n";
    assert_eq!(diagnose_sway_config(config, Shortcut::super_v()), SwayBindingDiagnosis::NotFound);
}

#[test]
fn offline_registration_never_claims_verification() {
    let mut backend = SwayShortcutBackend::from_offline_config(Some(
        "bindsym Mod4+v exec pookie-paste --toggle",
    ));
    let outcome = backend.register_with(Shortcut::super_v(), Some("ignored".to_string()), None).unwrap();
    assert_eq!(
        outcome,
        ShortcutRegistrationOutcome::CompositorManaged {
            binding_snippet: "bindsym Mod4+v exec pookie-paste --toggle".to_string(),
            verified: false,
            conflict: None,
            diagnostic: None,
        }
    );
    assert_eq!(backend.registered_shortcut(), Some(Shortcut::super_v()));
}

#[test]
fn live_configuration_is_authoritative() {
    let mut backend = SwayShortcutBackend::from_socket(Some("/run/sway.sock".to_string()))
        .with_fallback_config(Some("bindsym Mod4+v exec firefox"));
    let outcome = backend
        .register_with(
            Shortcut::super_v(),
            Some("bindsym Mod4+v exec pookie-paste --toggle".to_string()),
            None,
        )
        .unwrap();
    assert!(matches!(outcome, ShortcutRegistrationOutcome::CompositorManaged { verified: true, .. }));
    let conflict = backend
        .register_with(Shortcut::super_v(), Some("bindsym Mod4+v exec foot".to_string()), None)
        .unwrap();
    assert_eq!(
        conflict,
        ShortcutRegistrationOutcome::CompositorManaged {
            binding_snippet: "bindsym Mod4+v exec pookie-paste --toggle".to_string(),
            verified: false,
            conflict: Some("Key is bound to 'exec foot' in active Sway configuration".to_string()),
            diagnostic: None,
        }
    );
}

#[test]
fn fallback_conflict_mentions_missing_ipc() {
    let mut backend = SwayShortcutBackend::from_socket(Some("/run/sway.sock".to_string()));
    let outcome = backend
        .register_with(Shortcut::super_v(), None, Some("bindsym Mod4+v exec foot".to_string()))
        .unwrap();
    assert!(matches!(
        outcome,
        ShortcutRegistrationOutcome::CompositorManaged { conflict: Some(c), verified: false, .. }
            if c == "Key is bound to 'exec foot' in configuration file (Sway IPC unavailable)"
    ));
}

#[test]
fn backend_basics() {
    let mut backend = SwayShortcutBackend::new(Some("/run/sway.sock".to_string())).unwrap();
    assert_eq!(backend.socket_path(), Some("/run/sway.sock"));
    assert!(backend.uses_host_config());
    assert_eq!(backend.name(), "Sway compositor-managed shortcut");
    assert_eq!(backend.capability(), ShortcutBackendCapability::CompositorManaged);
    assert!(matches!(backend.wait_for_activation(), Err(ShortcutError::Unavailable)));
    assert!(backend.unregister().is_ok());
    assert_eq!(backend.registered_shortcut(), None);
}

#[test]
fn host_config_candidates() {
    assert_eq!(
        sway_config_candidates(Some("/cfg"), Some("/home/u")),
        vec!["/cfg/sway/config", "/home/u/.config/sway/config", "/etc/sway/config"]
    );
    assert_eq!(sway_config_candidates(None, None), vec!["/etc/sway/config"]);
}
