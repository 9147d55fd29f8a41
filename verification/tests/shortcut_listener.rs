use pookie_paste::shortcut_backend::{
    Shortcut, ShortcutBackendCapability, ShortcutError, ShortcutRegistrationOutcome,
};
use pookie_paste::shortcut_listener::{
    apply_activation_error, apply_error_to_status, apply_outcome_to_status, apply_rebind_result,
    backend_unavailable_status, binding_status_of, capability_to_ipc, initial_status, WorkerNext,
};
use pookie_paste::status::{IpcCompositorBindingStatus, IpcShortcutCapability, IpcShortcutState};

#[test]
fn starts_initializing_with_backend_identity() {
    let s = initial_status(Shortcut::super_v(), "Sway compositor-managed shortcut", ShortcutBackendCapability::CompositorManaged);
    assert_eq!(s.configured_shortcut, "Super+V");
    assert_eq!(s.backend_name.as_deref(), Some("Sway compositor-managed shortcut"));
    assert_eq!(s.capability, Some(IpcShortcutCapability::CompositorManaged));
    assert!(matches!(s.state, IpcShortcutState::Initializing));
    assert_eq!(capability_to_ipc(ShortcutBackendCapability::Portal), IpcShortcutCapability::Portal);
}

#[test]
fn missing_backend_is_reported_unavailable() {
    let s = backend_unavailable_status(Shortcut::super_v(), &ShortcutError::Failed("no display".to_string()));
    assert_eq!(s.capability, Some(IpcShortcutCapability::Unsupported));
    assert!(s.backend_name.is_none());
    assert!(matches!(s.state, IpcShortcutState::Unavailable { reason } if reason == "global shortcut backend unavailable: no display"));
}

#[test]
fn native_grab_reports_the_shortcut_as_effective() {
    let mut s = initial_status(Shortcut::super_v(), "X11", ShortcutBackendCapability::Native);
    let outcome = ShortcutRegistrationOutcome::Active { description: "grabbed".to_string() };
    apply_outcome_to_status(&mut s, Shortcut::super_v(), &outcome, None, ShortcutBackendCapability::Native);
    assert_eq!(s.effective_shortcut.as_deref(), Some("Super+V"));
    assert!(matches!(&s.state, IpcShortcutState::Active { description } if description == "grabbed"));
    let mut p = initial_status(Shortcut::super_v(), "Portal", ShortcutBackendCapability::Portal);
    apply_outcome_to_status(&mut p, Shortcut::super_v(), &outcome, None, ShortcutBackendCapability::Portal);
    assert_eq!(p.effective_shortcut, None);
    apply_outcome_to_status(&mut p, Shortcut::super_v(), &outcome, Some("Meta+V".to_string()), ShortcutBackendCapability::Portal);
    assert_eq!(p.effective_shortcut.as_deref(), Some("Meta+V"));
    assert_eq!(p.backend_name.as_deref(), Some("Portal"));
}

#[test]
fn compositor_binding_status_is_derived() {
    assert_eq!(binding_status_of(true, &None, &Some("d".to_string())), IpcCompositorBindingStatus::Verified);
    assert_eq!(binding_status_of(false, &Some("c".to_string()), &None), IpcCompositorBindingStatus::Conflict);
    assert_eq!(binding_status_of(false, &None, &Some("d".to_string())), IpcCompositorBindingStatus::BoundUnverified);
    assert_eq!(binding_status_of(false, &None, &None), IpcCompositorBindingStatus::Unconfigured);
    let mut s = initial_status(Shortcut::super_v(), "Hyprland", ShortcutBackendCapability::CompositorManaged);
    let outcome = ShortcutRegistrationOutcome::CompositorManaged {
        binding_snippet: "snippet".to_string(),
        verified: false,
        conflict: Some("c".to_string()),
        diagnostic: None,
    };
    apply_outcome_to_status(&mut s, Shortcut::super_v(), &outcome, None, ShortcutBackendCapability::CompositorManaged);
    assert!(matches!(&s.state, IpcShortcutState::CompositorManaged { binding_status: IpcCompositorBindingStatus::Conflict, snippet, .. } if snippet == "snippet"));
}

#[test]
fn registration_errors_map_to_states() {
    let mut s = initial_status(Shortcut::super_v(), "X11", ShortcutBackendCapability::Native);
    apply_error_to_status(&mut s, Shortcut::super_v(), &ShortcutError::Cancelled);
    assert!(matches!(&s.state, IpcShortcutState::Failed { error } if error == "shortcut registration was cancelled by user"));
    apply_error_to_status(&mut s, Shortcut::super_v(), &ShortcutError::TimedOut("15s".to_string()));
    assert!(matches!(&s.state, IpcShortcutState::Failed { error } if error == "registration timed out: 15s"));
    apply_error_to_status(&mut s, Shortcut::super_v(), &ShortcutError::Conflict("taken".to_string()));
    assert!(matches!(&s.state, IpcShortcutState::Conflict { details } if details == "taken"));
    apply_error_to_status(&mut s, Shortcut::super_v(), &ShortcutError::Unavailable);
    assert!(matches!(&s.state, IpcShortcutState::Unavailable { reason } if reason == "global shortcuts are unavailable on this session"));
    assert_eq!(s.effective_shortcut, None);
}

#[test]
fn activation_failures_decide_the_worker() {
    let mut s = initial_status(Shortcut::super_v(), "X11", ShortcutBackendCapability::Native);
    assert_eq!(apply_activation_error(&mut s, &ShortcutError::Unavailable), WorkerNext::AwaitRebind);
    assert!(matches!(&s.state, IpcShortcutState::Unavailable { reason } if reason == "global shortcuts became unavailable"));
    assert_eq!(apply_activation_error(&mut s, &ShortcutError::Cancelled), WorkerNext::Stop);
    assert!(matches!(&s.state, IpcShortcutState::Unavailable { reason } if reason == "global shortcut operation was cancelled"));
    assert_eq!(apply_activation_error(&mut s, &ShortcutError::Failed("x".to_string())), WorkerNext::AwaitRebind);
    assert!(matches!(&s.state, IpcShortcutState::Failed { error } if error == "x"));
}

#[test]
fn failed_rebind_preserves_status() {
    let mut s = initial_status(Shortcut::super_v(), "X11", ShortcutBackendCapability::Native);
    let outcome = ShortcutRegistrationOutcome::Active { description: "grabbed".to_string() };
    apply_outcome_to_status(&mut s, Shortcut::super_v(), &outcome, None, ShortcutBackendCapability::Native);
    let before = format!("{s:?}");
    let other = Shortcut::new(
        pookie_paste::shortcut_backend::ShortcutKey::Character('x'),
        pookie_paste::shortcut_backend::ShortcutModifiers { control: true, ..Default::default() },
    );
    let r = apply_rebind_result(&mut s, other, Err(ShortcutError::Conflict("busy".to_string())), None, ShortcutBackendCapability::Native);
    assert!(matches!(r, Err(ShortcutError::Conflict(m)) if m == "busy"));
    assert_eq!(format!("{s:?}"), before);
    let r = apply_rebind_result(&mut s, other, Ok(outcome), None, ShortcutBackendCapability::Native).unwrap();
    assert_eq!(r.configured_shortcut, "Ctrl+X");
    assert_eq!(s.configured_shortcut, "Ctrl+X");
}
