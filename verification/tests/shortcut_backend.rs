use pookie_paste::shortcut_backend::{
    NamedKey, Shortcut, ShortcutActivation, ShortcutBackend, ShortcutBackendCapability,
    ShortcutError, ShortcutKey, ShortcutModifiers, ShortcutRegistrationOutcome,
    UnavailableShortcutBackend,
};

#[test]
fn super_v_has_expected_definition() {
    let shortcut = Shortcut::super_v();

    assert_eq!(shortcut.key, ShortcutKey::Character('v'));
    assert!(shortcut.modifiers.super_key);
    assert!(!shortcut.modifiers.control);
    assert!(!shortcut.modifiers.alt);
    assert!(!shortcut.modifiers.shift);
    assert_eq!(shortcut.to_string(), "Super+V");
}

#[test]
fn shortcut_formatting_works_for_various_combinations() {
    let sc1 = Shortcut::new(
        ShortcutKey::Character('p'),
        ShortcutModifiers {
            super_key: true,
            shift: true,
            ..ShortcutModifiers::default()
        },
    );
    assert_eq!(sc1.to_string(), "Super+Shift+P");

    let sc2 = Shortcut::new(
        ShortcutKey::Named(NamedKey::Space),
        ShortcutModifiers {
            control: true,
            alt: true,
            ..ShortcutModifiers::default()
        },
    );
    assert_eq!(sc2.to_string(), "Ctrl+Alt+Space");

    let sc3 = Shortcut::new(
        ShortcutKey::Named(NamedKey::F(12)),
        ShortcutModifiers {
            super_key: true,
            ..ShortcutModifiers::default()
        },
    );
    assert_eq!(sc3.to_string(), "Super+F12");
}

#[test]
fn named_key_keysyms_and_portal_names() {
    assert_eq!(NamedKey::Space.keysym(), 0x0020);
    assert_eq!(NamedKey::Space.portal_name(), "space");
    assert_eq!(NamedKey::Escape.keysym(), 0xff1b);
    assert_eq!(NamedKey::Escape.portal_name(), "Escape");
    assert_eq!(NamedKey::F(1).keysym(), 0xffbe);
    assert_eq!(NamedKey::F(1).portal_name(), "F1");
    assert_eq!(NamedKey::F(12).keysym(), 0xffc9);
    assert_eq!(NamedKey::F(12).portal_name(), "F12");
}

#[test]
fn empty_activation_has_no_token() {
    let activation = ShortcutActivation::none();
    assert!(activation.activation_token.is_none());
}

#[test]
fn activation_can_store_wayland_token() {
    let activation = ShortcutActivation::with_activation_token("test-token".to_string());
    assert_eq!(activation.activation_token.as_deref(), Some("test-token"));
}

#[test]
fn capability_descriptions_are_meaningful() {
    assert!(
        ShortcutBackendCapability::Native
            .description()
            .contains("X11")
    );
    assert!(
        ShortcutBackendCapability::Portal
            .description()
            .contains("portal")
    );
    assert!(
        ShortcutBackendCapability::CompositorManaged
            .description()
            .contains("Compositor")
    );
}

#[test]
fn outcome_description_returns_payload() {
    let outcome = ShortcutRegistrationOutcome::Active {
        description: "Registered successfully".to_string(),
    };
    assert_eq!(outcome.description(), "Registered successfully");
}

#[test]
fn out_of_range_function_keys() {
    assert_eq!(NamedKey::F(13).keysym(), 0);
    assert_eq!(NamedKey::F(0).portal_name(), "unknown");
    assert_eq!(NamedKey::F(10).portal_name(), "F10");
}

#[test]
fn modifier_text_and_presence() {
    assert!(!ShortcutModifiers::none().has_any());
    let m = ShortcutModifiers { control: true, shift: true, ..ShortcutModifiers::default() };
    assert!(m.has_any());
    assert_eq!(m.to_string(), "Ctrl+Shift");
    assert_eq!(ShortcutKey::Character('q').to_string(), "Q");
    assert_eq!(NamedKey::Enter.to_string(), "Enter");
}

#[test]
fn error_messages() {
    assert_eq!(ShortcutError::TimedOut("x".to_string()).message(), "registration timed out: x");
    assert_eq!(
        ShortcutError::Unavailable.message(),
        "global shortcuts are unavailable on this session"
    );
    assert_eq!(ShortcutError::Failed("boom".to_string()).message(), "boom");
}

#[test]
fn unavailable_backend_registers_nothing() {
    let mut backend = UnavailableShortcutBackend;
    assert_eq!(backend.name(), "unavailable");
    assert_eq!(backend.capability(), ShortcutBackendCapability::Unsupported);
    assert!(matches!(backend.register(Shortcut::super_v()), Err(ShortcutError::Unavailable)));
    assert!(matches!(backend.wait_for_activation(), Err(ShortcutError::Unavailable)));
    assert!(backend.unregister().is_ok());
}
