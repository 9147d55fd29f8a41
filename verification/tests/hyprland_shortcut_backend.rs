use pookie_paste::hyprland_shortcut_backend::{
    diagnose_hyprland_config_text, diagnose_hyprland_ipc_binds, format_hyprland_binding,
    format_hyprland_hyprlang_binding, format_hyprland_lua_binding, hyprland_config_candidates,
    hyprland_socket_candidates, matches_hyprland_key, shortcut_to_hyprland_modmask,
    HyprlandBindingDiagnosis, HyprlandIpcBind, HyprlandShortcutBackend, HYPR_MOD_ALT,
    HYPR_MOD_CTRL, HYPR_MOD_SHIFT, HYPR_MOD_SUPER,
};
use pookie_paste::shortcut_backend::{
    NamedKey, Shortcut, ShortcutKey, ShortcutModifiers, ShortcutRegistrationOutcome,
};

fn bind(modmask: u32, key: &str, dispatcher: &str, arg: &str) -> HyprlandIpcBind {
    HyprlandIpcBind {
        modmask,
        key: key.to_string(),
        dispatcher: dispatcher.to_string(),
        arg: arg.to_string(),
        submap: String::new(),
    }
}

#[test]
fn formats_lua_and_hyprlang_directives() {
    assert_eq!(
        format_hyprland_lua_binding(Shortcut::super_v()),
        "hl.bind(\"SUPER + V\", hl.dsp.exec_cmd(\"pookie-paste --toggle\"))"
    );
    assert_eq!(format_hyprland_binding(Shortcut::super_v()), format_hyprland_lua_binding(Shortcut::super_v()));
    assert_eq!(
        format_hyprland_hyprlang_binding(Shortcut::super_v()),
        "bind = SUPER, V, exec, pookie-paste --toggle"
    );
    let bare_space = Shortcut::new(ShortcutKey::Named(NamedKey::Space), ShortcutModifiers::default());
    assert_eq!(
        format_hyprland_hyprlang_binding(bare_space),
        "bind = , space, exec, pookie-paste --toggle"
    );
    assert_eq!(
        format_hyprland_lua_binding(bare_space),
        "hl.bind(\"Space\", hl.dsp.exec_cmd(\"pookie-paste --toggle\"))"
    );
}

#[test]
fn modmask_bits() {
    let all = ShortcutModifiers { super_key: true, control: true, alt: true, shift: true };
    assert_eq!(
        shortcut_to_hyprland_modmask(Shortcut::new(ShortcutKey::Character('v'), all)),
        HYPR_MOD_SHIFT | HYPR_MOD_CTRL | HYPR_MOD_ALT | HYPR_MOD_SUPER
    );
    assert_eq!(shortcut_to_hyprland_modmask(Shortcut::super_v()), 64);
}

#[test]
fn key_names_match_loosely() {
    assert!(matches_hyprland_key(" V ", ShortcutKey::Character('v')));
    assert!(matches_hyprland_key("esc", ShortcutKey::Named(NamedKey::Escape)));
    assert!(matches_hyprland_key("F11", ShortcutKey::Named(NamedKey::F(11))));
    assert!(!matches_hyprland_key("vv", ShortcutKey::Character('v')));
}

#[test]
fn ipc_precedence_conflict_then_pookie_then_lua() {
    let s = Shortcut::super_v();
    let binds = vec![
        bind(64, "V", "__lua", "7"),
        bind(64, "v", "exec", "pookie-paste --toggle"),
        bind(64, "V", "killactive", ""),
    ];
    assert_eq!(
        diagnose_hyprland_ipc_binds(&binds, s),
        HyprlandBindingDiagnosis::Conflict { command: "killactive".to_string() }
    );
    let binds = vec![bind(64, "V", "__lua", "7"), bind(64, "v", "exec", "pookie-paste --toggle")];
    assert_eq!(diagnose_hyprland_ipc_binds(&binds, s), HyprlandBindingDiagnosis::VerifiedPookie);
    let binds = vec![bind(64, "V", "__lua", "7")];
    assert_eq!(
        diagnose_hyprland_ipc_binds(&binds, s),
        HyprlandBindingDiagnosis::OccupiedOpaque { callback_id: "7".to_string() }
    );
    let binds = vec![bind(64, "V", "exec", "firefox")];
    assert_eq!(
        diagnose_hyprland_ipc_binds(&binds, s),
        HyprlandBindingDiagnosis::Conflict { command: "exec firefox".to_string() }
    );
    let mut other_submap = bind(64, "V", "exec", "firefox");
    other_submap.submap = "resize".to_string();
    assert_eq!(diagnose_hyprland_ipc_binds(&vec![other_submap, bind(65, "V", "exec", "x")], s), HyprlandBindingDiagnosis::NotFound);
}

#[test]
fn static_config_diagnosis() {
    let s = Shortcut::super_v();
    assert_eq!(
        diagnose_hyprland_config_text(&format_hyprland_lua_binding(s), s),
        HyprlandBindingDiagnosis::VerifiedPookie
    );
    assert_eq!(
        diagnose_hyprland_config_text(&format_hyprland_hyprlang_binding(s), s),
        HyprlandBindingDiagnosis::VerifiedPookie
    );
    assert_eq!(
        diagnose_hyprland_config_text("$mainMod = SUPER\nbind = $mainMod, V, exec, kitty # terminal\n", s),
        HyprlandBindingDiagnosis::Conflict { command: "exec kitty".to_string() }
    );
    assert_eq!(diagnose_hyprland_config_text("", s), HyprlandBindingDiagnosis::NotFound);
}

#[test]
fn mock_ipc_registration_reports_verified() {
    let mut backend = HyprlandShortcutBackend::with_mock_ipc("[]");
    assert_eq!(backend.mock_response(), Some("[]"));
    let outcome = backend
        .register_with(
            Shortcut::super_v(),
            Some(Some(vec![bind(64, "V", "exec", "pookie-paste --toggle")])),
            None,
        )
        .unwrap();
    assert_eq!(
        outcome,
        ShortcutRegistrationOutcome::CompositorManaged {
            binding_snippet: format_hyprland_binding(Shortcut::super_v()),
            verified: true,
            conflict: None,
            diagnostic: Some("Verified active in running Hyprland compositor (direct exec)".to_string()),
        }
    );
}

#[test]
fn opaque_lua_binding_mentions_static_literal() {
    let s = Shortcut::super_v();
    let mut backend = HyprlandShortcutBackend::with_mock_ipc("[]")
        .with_fallback_config(Some("hl.bind(\"SUPER + V\", hl.dsp.exec_cmd(\"pookie-paste --toggle\"))"));
    let outcome = backend.register_with(s, Some(Some(vec![bind(64, "V", "__lua", "99")])), None).unwrap();
    match outcome {
        ShortcutRegistrationOutcome::CompositorManaged { verified, conflict, diagnostic, .. } => {
            assert!(!verified);
            assert!(conflict.is_none());
            assert_eq!(diagnostic.unwrap(), "Key is actively bound to a Lua callback (__lua, id: 99) in Hyprland. Static config contains a literal Pookie binding for this shortcut, but runtime target cannot be verified over IPC");
        }
        other => panic!("unexpected {other:?}"),
    }
    let mut plain = HyprlandShortcutBackend::with_mock_ipc("[]");
    match plain.register_with(s, Some(Some(vec![bind(64, "V", "__lua", "99")])), None).unwrap() {
        ShortcutRegistrationOutcome::CompositorManaged { diagnostic, .. } => assert_eq!(
            diagnostic.unwrap(),
            "Key is actively bound to a Lua callback (__lua, id: 99) in Hyprland; runtime command target cannot be verified over IPC"
        ),
        other => panic!("unexpected {other:?}"),
    }
}

#[test]
fn unparseable_reply_binds_nothing() {
    let mut backend = HyprlandShortcutBackend::with_mock_ipc("not json")
        .with_fallback_config(Some("bind = SUPER, V, exec, kitty"));
    let outcome = backend.register_with(Shortcut::super_v(), Some(None), None).unwrap();
    assert!(matches!(
        outcome,
        ShortcutRegistrationOutcome::CompositorManaged { verified: false, conflict: None, diagnostic: None, .. }
    ));
}

#[test]
fn offline_fallback_is_never_verified() {
    let s = Shortcut::super_v();
    let mut backend = HyprlandShortcutBackend::from_offline_config(Some("bind = SUPER, V, exec, pookie-paste --toggle"));
    assert_eq!(backend.socket_path(), None);
    let outcome = backend.register_with(s, Some(Some(vec![])), None).unwrap();
    match outcome {
        ShortcutRegistrationOutcome::CompositorManaged { verified, diagnostic, .. } => {
            assert!(!verified);
            assert_eq!(
                diagnostic.unwrap(),
                "Found matching Pookie binding in static configuration file (Hyprland IPC unavailable)"
            );
        }
        other => panic!("unexpected {other:?}"),
    }
    let mut conflict = HyprlandShortcutBackend::from_offline_config(Some("bind = SUPER, V, exec, kitty"));
    match conflict.register_with(s, None, None).unwrap() {
        ShortcutRegistrationOutcome::CompositorManaged { conflict, diagnostic, .. } => {
            assert_eq!(conflict.unwrap(), "Key is bound to 'exec kitty' in configuration file (Hyprland IPC unavailable)");
            assert_eq!(diagnostic.unwrap(), "Conflicting binding in static configuration");
        }
        other => panic!("unexpected {other:?}"),
    }
}

#[test]
fn host_candidates() {
    assert_eq!(
        hyprland_socket_candidates("abc", Some("/run/user/1000")),
        vec!["/run/user/1000/hypr/abc/.socket.sock", "/tmp/hypr/abc/.socket.sock"]
    );
    assert_eq!(hyprland_socket_candidates("abc", None), vec!["/tmp/hypr/abc/.socket.sock"]);
    assert_eq!(
        hyprland_config_candidates(None, Some("/home/u")),
        vec![
            "/home/u/.config/hypr/hyprland.lua",
            "/home/u/.config/hypr/hyprland.conf",
            "/etc/hypr/hyprland.conf"
        ]
    );
}

#[test]
fn written_hyprlang_lines_read_back_as_pookie() {
    let all = ShortcutModifiers { super_key: true, control: true, alt: true, shift: true };
    let shortcuts = vec![
        Shortcut::super_v(),
        Shortcut::new(ShortcutKey::Named(NamedKey::Tab), ShortcutModifiers::default()),
        Shortcut::new(ShortcutKey::Named(NamedKey::F(12)), all),
        Shortcut::new(ShortcutKey::Character('h'), all),
        Shortcut::new(ShortcutKey::Named(NamedKey::Space), ShortcutModifiers::default()),
    ];
    for s in shortcuts {
        assert_eq!(
            diagnose_hyprland_config_text(&format_hyprland_hyprlang_binding(s), s),
            HyprlandBindingDiagnosis::VerifiedPookie
        );
    }
}

#[test]
fn written_lua_lines_read_back_as_pookie() {
    let all = ShortcutModifiers { super_key: true, control: true, alt: true, shift: true };
    let shortcuts = vec![
        Shortcut::super_v(),
        Shortcut::new(ShortcutKey::Named(NamedKey::Space), ShortcutModifiers::default()),
        Shortcut::new(ShortcutKey::Named(NamedKey::F(5)), all),
        Shortcut::new(ShortcutKey::Character('-'), all),
        Shortcut::new(ShortcutKey::Character('\''), ShortcutModifiers::default()),
        Shortcut::new(ShortcutKey::Character('a'), ShortcutModifiers { alt: true, ..ShortcutModifiers::default() }),
    ];
    for s in shortcuts {
        assert_eq!(
            diagnose_hyprland_config_text(&format_hyprland_lua_binding(s), s),
            HyprlandBindingDiagnosis::VerifiedPookie
        );
    }
}
