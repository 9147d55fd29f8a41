use pookie_paste::cli::{
    format_reload_status, format_shortcut_status, format_shortcut_status_with_header,
    parse_args_from, CliAction,
};
use pookie_paste::status::{
    IpcCompositorBindingStatus, IpcShortcutCapability, IpcShortcutState, ShortcutStatusInfo,
};

fn args(list: &[&str]) -> Vec<String> {
    list.iter().map(|a| a.to_string()).collect()
}

#[test]
fn parses_empty_args_as_run_daemon() {
    assert_eq!(parse_args_from(&args(&[])), Ok(CliAction::RunDaemon));
}

#[test]
fn parses_toggle_flag() {
    assert_eq!(parse_args_from(&args(&["--toggle"])), Ok(CliAction::ToggleUi));
    assert_eq!(parse_args_from(&args(&["-t"])), Ok(CliAction::ToggleUi));
}

#[test]
fn parses_help_flag() {
    assert_eq!(parse_args_from(&args(&["--help"])), Ok(CliAction::Help));
    assert_eq!(parse_args_from(&args(&["-h"])), Ok(CliAction::Help));
}

#[test]
fn parses_version_flag() {
    assert_eq!(parse_args_from(&args(&["--version"])), Ok(CliAction::Version));
    assert_eq!(parse_args_from(&args(&["-V"])), Ok(CliAction::Version));
}

#[test]
fn parses_shortcut_status_flag() {
    assert_eq!(
        parse_args_from(&args(&["--shortcut-status"])),
        Ok(CliAction::ShortcutStatus)
    );
}

#[test]
fn parses_reload_flag() {
    assert_eq!(parse_args_from(&args(&["--reload"])), Ok(CliAction::ReloadConfig));
    assert_eq!(parse_args_from(&args(&["-r"])), Ok(CliAction::ReloadConfig));
}

#[test]
fn unknown_first_argument_is_returned() {
    assert_eq!(parse_args_from(&args(&["--bogus", "-t"])), Err("--bogus".to_string()));
    assert_eq!(parse_args_from(&args(&["-t", "--bogus"])), Ok(CliAction::ToggleUi));
}

#[test]
fn formats_reload_status_header() {
    let status = ShortcutStatusInfo {
        configured_shortcut: "Super+V".to_string(),
        backend_name: Some("X11 global shortcut".to_string()),
        capability: Some(IpcShortcutCapability::Native),
        effective_shortcut: Some("Super+V".to_string()),
        state: IpcShortcutState::Active {
            description: "X11 root window grab for Super+V".to_string(),
        },
    };
    let formatted = format_reload_status(&status);
    assert!(formatted.contains("Pookie Paste Configuration Reloaded"));
    assert!(formatted.contains("-----------------------------------"));
    assert!(formatted.contains("Configured Shortcut : Super+V"));
}

#[test]
fn formats_initializing_shortcut_status() {
    let status = ShortcutStatusInfo {
        configured_shortcut: "Super+V".to_string(),
        backend_name: None,
        capability: None,
        effective_shortcut: None,
        state: IpcShortcutState::Initializing,
    };
    let formatted = format_shortcut_status(&status);
    assert!(formatted.contains("Configured Shortcut : Super+V"));
    assert!(
        formatted.contains("Status              : Initializing (registration in progress)")
    );
}

#[test]
fn formats_kde_portal_with_differing_effective_trigger() {
    let status = ShortcutStatusInfo {
        configured_shortcut: "Ctrl+Shift+P".to_string(),
        backend_name: Some(
            "KDE Plasma GlobalShortcuts Portal (XDG Desktop Portal v2)".to_string(),
        ),
        capability: Some(IpcShortcutCapability::Portal),
        effective_shortcut: Some("Meta+V".to_string()),
        state: IpcShortcutState::Active {
            description:
                "Portal shortcut active (registered via org.freedesktop.portal.GlobalShortcuts)"
                    .to_string(),
        },
    };
    let formatted = format_shortcut_status(&status);
    assert!(formatted.contains("Configured Shortcut : Ctrl+Shift+P"));
    assert!(formatted.contains("Effective Shortcut  : Meta+V"));
    assert!(formatted.contains("Backend             : KDE Plasma GlobalShortcuts Portal"));
    assert!(
        formatted.contains(
            "Capability          : Desktop portal global shortcuts (e.g. KDE Plasma)"
        )
    );
}

#[test]
fn formats_compositor_managed_status() {
    let status = ShortcutStatusInfo {
        configured_shortcut: "Super+V".to_string(),
        backend_name: Some("Sway IPC Backend".to_string()),
        capability: Some(IpcShortcutCapability::CompositorManaged),
        effective_shortcut: None,
        state: IpcShortcutState::CompositorManaged {
            binding_status: IpcCompositorBindingStatus::Conflict,
            snippet: "bindsym $mod+v exec pookie-paste --toggle".to_string(),
            conflict: Some("Existing binding found for $mod+v".to_string()),
            diagnostic: Some("Found 1 conflict in ~/.config/sway/config".to_string()),
        },
    };
    let formatted = format_shortcut_status(&status);
    assert!(formatted.contains("Status              : Conflict"));
    assert!(
        formatted.contains("Binding Directive   : bindsym $mod+v exec pookie-paste --toggle")
    );
    assert!(formatted.contains("Conflict Detected   : Existing binding found for $mod+v"));
    assert!(
        formatted.contains("Diagnostic          : Found 1 conflict in ~/.config/sway/config")
    );
    assert!(formatted.contains("Action Required     : Resolve the conflicting shortcut"));
}

#[test]
fn formats_compositor_managed_bound_unverified_status() {
    let status = ShortcutStatusInfo {
        configured_shortcut: "Super+V".to_string(),
        backend_name: Some("Hyprland compositor-managed shortcut".to_string()),
        capability: Some(IpcShortcutCapability::CompositorManaged),
        effective_shortcut: None,
        state: IpcShortcutState::CompositorManaged {
            binding_status: IpcCompositorBindingStatus::BoundUnverified,
            snippet: "hl.bind(\"SUPER + V\", hl.dsp.exec_cmd(\"pookie-paste --toggle\"))"
                .to_string(),
            conflict: None,
            diagnostic: Some(
                "Key is actively bound to a Lua callback (__lua, id: 99) in Hyprland; runtime command target cannot be verified over IPC".to_string(),
            ),
        },
    };
    let formatted = format_shortcut_status(&status);
    assert!(formatted.contains("Status              : Bound / Unverified"));
    assert!(formatted.contains("Binding Directive   : hl.bind(\"SUPER + V\""));
    assert!(formatted.contains(
        "Diagnostic          : Key is actively bound to a Lua callback (__lua, id: 99)"
    ));
    assert!(formatted.contains(
        "Guidance            : Ensure the active binding executes 'pookie-paste --toggle'"
    ));
    assert!(!formatted.contains("Action Required"));
}

#[test]
fn full_status_text_is_exact() {
    let status = ShortcutStatusInfo {
        configured_shortcut: "Super+V".to_string(),
        backend_name: None,
        capability: Some(IpcShortcutCapability::Unsupported),
        effective_shortcut: None,
        state: IpcShortcutState::Unavailable { reason: "no backend".to_string() },
    };
    assert_eq!(
        format_shortcut_status_with_header("Héad", &status),
        "Héad\n-----\nConfigured Shortcut : Super+V\nCapability          : Unsupported on active session\nStatus              : Unavailable\nReason              : no backend\n"
    );
}

#[test]
fn unconfigured_binding_asks_for_the_directive() {
    let status = ShortcutStatusInfo {
        configured_shortcut: "Super+V".to_string(),
        backend_name: None,
        capability: None,
        effective_shortcut: None,
        state: IpcShortcutState::CompositorManaged {
            binding_status: IpcCompositorBindingStatus::Unconfigured,
            snippet: "bindsym Mod4+v exec pookie-paste --toggle".to_string(),
            conflict: None,
            diagnostic: None,
        },
    };
    let text = format_shortcut_status(&status);
    assert!(text.contains("Status              : Unconfigured / Missing\n"));
    assert!(text.contains(
        "Action Required     : Add the binding directive above to your compositor configuration.\n"
    ));
    let failed = ShortcutStatusInfo {
        state: IpcShortcutState::Failed { error: "boom".to_string() },
        ..status
    };
    assert!(format_shortcut_status(&failed).ends_with("Status              : Failed\nError               : boom\n"));
}
