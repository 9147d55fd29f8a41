use pookie_paste::environment::EnvironmentAudit;
use pookie_paste::focus_backend::{FocusError, FocusTarget};
use pookie_paste::resolvers::{
    focus_fallback_on_error, paste_fallback_on_error, resolve_clipboard_backend,
    resolve_compositor_shortcut_backend, resolve_focus_backend, resolve_paste_backend,
    resolve_shortcut_backend, ClipboardBackendPlan, CompositorShortcutPlan, FocusBackendPlan, PasteBackendPlan, ShortcutBackendPlan,
};
use pookie_paste::paste_backend::{PasteCapability, PasteError};
use pookie_paste::shortcut_backend::{
    NamedKey, Shortcut, ShortcutError, ShortcutKey, ShortcutModifiers, ShortcutRegistrationOutcome,
};
use pookie_paste::x11_focus_backend::{x11_active_target, x11_is_active, x11_target_window};
use pookie_paste::x11_paste_backend::{paste_keycode_for_keysym, xtest_event_type, X11PasteBackend};
use pookie_paste::x11_shortcut_backend::{
    classify_x11_error, find_modifier_mask, hex_u32, keycode_for_keysym, resolve_keycode,
    shortcut_keysym, x11_modifier_mask, X11GrabAttempt, X11KeyEvent, X11RegisterStep,
    X11ReplyError, X11ShortcutBackend, X11_MOD_LOCK,
};

fn text(v: Vec<char>) -> String {
    v.into_iter().collect()
}

#[test]
fn keysyms_of_keys() {
    assert_eq!(shortcut_keysym(ShortcutKey::Character('V')).unwrap(), 0x76);
    assert_eq!(shortcut_keysym(ShortcutKey::Character('7')).unwrap(), 0x37);
    assert!(matches!(shortcut_keysym(ShortcutKey::Character('-')), Err(ShortcutError::Unavailable)));
    assert_eq!(shortcut_keysym(ShortcutKey::Named(NamedKey::F(1))).unwrap(), 0xffbe);
    assert_eq!(shortcut_keysym(ShortcutKey::Named(NamedKey::Space)).unwrap(), 0x20);
}

#[test]
fn modifier_masks() {
    assert_eq!(x11_modifier_mask(ShortcutModifiers::default()), 0);
    let all = ShortcutModifiers { super_key: true, control: true, alt: true, shift: true };
    assert_eq!(x11_modifier_mask(all), 64 | 4 | 8 | 1);
    let backend = X11ShortcutBackend::new(None);
    let super_only = Shortcut::super_v().modifiers;
    assert_eq!(backend.compute_modifier_masks(super_only), vec![64, 64 | X11_MOD_LOCK]);
    let backend = X11ShortcutBackend::new(Some(16));
    assert_eq!(backend.compute_modifier_masks(super_only), vec![64, 66, 80, 82]);
}

#[test]
fn keyboard_mapping_lookup() {
    // Two keysyms per keycode, starting at keycode 8.
    let keysyms = vec![0x61, 0x41, 0x76, 0x56, 0xffe3, 0];
    assert_eq!(keycode_for_keysym(8, &keysyms, 2, 0x76), Some(9));
    assert_eq!(keycode_for_keysym(8, &keysyms, 2, 0x56), Some(9));
    assert_eq!(keycode_for_keysym(8, &keysyms, 2, 0xffe3), Some(10));
    assert_eq!(keycode_for_keysym(8, &keysyms, 2, 0x62), None);
    match resolve_keycode(8, &keysyms, 2, 0xff7f) {
        Err(ShortcutError::Failed(m)) => {
            assert_eq!(m, "could not resolve keysym 0xff7f on active keyboard layout")
        },
        other => panic!("unexpected {other:?}"),
    }
    assert_eq!(text(hex_u32(0)), "0");
    assert_eq!(text(hex_u32(0xffe3)), "ffe3");
}

#[test]
fn modifier_mapping_lookup() {
    // Two keycodes per modifier: Shift, Lock, Control, Mod1, Mod2, ...
    let keycodes = vec![50, 62, 66, 0, 37, 105, 64, 108, 77, 0];
    assert_eq!(find_modifier_mask(&keycodes, 2, 77), Some(16));
    assert_eq!(find_modifier_mask(&keycodes, 2, 37), Some(4));
    assert_eq!(find_modifier_mask(&keycodes, 2, 99), None);
    let long = vec![0u8; 18].into_iter().chain(vec![9u8]).collect::<Vec<u8>>();
    assert_eq!(find_modifier_mask(&long, 2, 9), None);
}

#[test]
fn grab_errors_are_classified() {
    let s = Shortcut::super_v();
    match classify_x11_error(
        X11ReplyError::X11 { access_kind: false, error_code: 10, description: "x".to_string() },
        s,
    ) {
        ShortcutError::Conflict(m) => {
            assert_eq!(m, "shortcut 'Super+V' conflicts with an existing X11 grab (BadAccess)")
        },
        other => panic!("unexpected {other:?}"),
    }
    match classify_x11_error(
        X11ReplyError::X11 { access_kind: false, error_code: 2, description: "BadValue".to_string() },
        s,
    ) {
        ShortcutError::Failed(m) => assert_eq!(m, "X11 error registering shortcut 'Super+V': BadValue"),
        other => panic!("unexpected {other:?}"),
    }
    match classify_x11_error(X11ReplyError::Connection("broken pipe".to_string()), s) {
        ShortcutError::Failed(m) => {
            assert_eq!(m, "X11 connection error registering shortcut 'Super+V': broken pipe")
        },
        other => panic!("unexpected {other:?}"),
    }
}

#[test]
fn refused_grab_rolls_back_what_it_acquired() {
    let mut attempt = X11GrabAttempt::new(vec![64, 66, 80, 82]);
    assert_eq!(attempt.next_mask(), Some(64));
    attempt.granted();
    assert_eq!(attempt.next_mask(), Some(66));
    attempt.granted();
    assert_eq!(attempt.next_mask(), Some(80));
    let (rollback, error) = attempt.refused(
        X11ReplyError::X11 { access_kind: true, error_code: 10, description: String::new() },
        Shortcut::super_v(),
    );
    assert_eq!(rollback, vec![64, 66]);
    assert!(matches!(error, ShortcutError::Conflict(_)));
    assert_eq!(attempt.next_mask(), None);
    assert!(!attempt.is_complete());
}

#[test]
fn complete_grab_replaces_previous_one() {
    let mut backend = X11ShortcutBackend::new(None);
    let s = Shortcut::super_v();
    let masks = match backend.plan_register(s) {
        Ok(X11RegisterStep::Grab { keysym, masks }) => {
            assert_eq!(keysym, 0x76);
            masks
        },
        _ => panic!("expected a grab"),
    };
    let mut attempt = X11GrabAttempt::new(masks);
    while attempt.next_mask().is_some() {
        attempt.granted();
    }
    assert!(attempt.is_complete());
    let granted = attempt.into_granted();
    assert_eq!(granted, vec![64, 66]);
    let (previous, outcome) = backend.commit_grab(s, 55, granted);
    assert!(previous.is_none());
    assert_eq!(
        outcome,
        ShortcutRegistrationOutcome::Active { description: "X11 root window grab for Super+V".to_string() }
    );
    assert_eq!(backend.registered_shortcut(), Some(s));
    assert!(matches!(backend.plan_register(s), Ok(X11RegisterStep::AlreadyActive(_))));
    let other = Shortcut::new(ShortcutKey::Character('p'), ShortcutModifiers::default());
    let (previous, _) = backend.commit_grab(other, 33, vec![0, 2]);
    let previous = previous.unwrap();
    assert_eq!(previous.keycode, 55);
    assert_eq!(previous.masks, vec![64, 66]);
    let released = backend.release_grab().unwrap();
    assert_eq!(released.shortcut, other);
    assert!(backend.registered_shortcut().is_none());
    match backend.activation_keycode() {
        Err(ShortcutError::Failed(m)) => assert_eq!(m, "shortcut backend has not been registered"),
        other => panic!("unexpected {other:?}"),
    }
    assert!(matches!(
        backend.plan_register(Shortcut::new(ShortcutKey::Character('#'), ShortcutModifiers::default())),
        Err(ShortcutError::Unavailable)
    ));
}

#[test]
fn held_key_activates_once() {
    let mut backend = X11ShortcutBackend::new(None);
    let _ = backend.commit_grab(Shortcut::super_v(), 55, vec![64]);
    assert_eq!(backend.activation_keycode().unwrap(), 55);
    assert!(!backend.on_key_press(54));
    assert!(backend.on_key_press(55));
    assert!(!backend.on_key_press(55));
    // Auto-repeat: a release followed by a press at the same time.
    assert!(backend.release_needs_lookahead(55));
    assert!(!backend.release_needs_lookahead(54));
    assert!(!backend.on_key_release(1000, Some(X11KeyEvent::KeyPress { detail: 55, time: 1000 })));
    assert!(!backend.on_key_press(55));
    // A real release re-arms the key; the following event is kept.
    assert!(backend.on_key_release(2000, Some(X11KeyEvent::Other)));
    assert!(backend.on_key_press(55));
    assert!(!backend.on_key_release(3000, None));
    assert!(backend.on_key_press(55));
}

#[test]
fn x11_paste_events() {
    let backend = X11PasteBackend;
    assert_eq!(backend.capability(), PasteCapability::Direct);
    let keysyms = vec![0x61, 0x41, 0x76, 0x56, 0xffe3, 0];
    assert_eq!(
        backend.paste_events(8, &keysyms, 2).unwrap(),
        vec![(10, true), (9, true), (9, false), (10, false)]
    );
    match backend.paste_events(8, &vec![0x76, 0x56], 2) {
        Err(PasteError::Failed(m)) => assert_eq!(m, "no keycode found for keysym 0xffe3"),
        _ => panic!("expected an error"),
    }
    match paste_keycode_for_keysym(8, &vec![0xffe3], 1, 0x76) {
        Err(PasteError::Failed(m)) => assert_eq!(m, "no keycode found for keysym 0x76"),
        _ => panic!("expected an error"),
    }
    assert_eq!(xtest_event_type(true), 2);
    assert_eq!(xtest_event_type(false), 3);
}

#[test]
fn x11_focus_decisions() {
    assert!(matches!(x11_active_target(None), Err(FocusError::Unavailable)));
    assert!(matches!(x11_active_target(Some(vec![])), Err(FocusError::Unavailable)));
    assert!(matches!(x11_active_target(Some(vec![0])), Err(FocusError::Unavailable)));
    assert_eq!(x11_active_target(Some(vec![0x1c00007, 5])).unwrap(), FocusTarget::X11(0x1c00007));
    assert_eq!(x11_target_window(&FocusTarget::X11(42)).unwrap(), 42);
    match x11_target_window(&FocusTarget::X11(1u64 << 33)) {
        Err(FocusError::Failed(m)) => assert_eq!(m, "invalid X11 window ID: 8589934592"),
        _ => panic!("expected an error"),
    }
    match x11_target_window(&FocusTarget::Sway(7)) {
        Err(FocusError::Failed(m)) => assert_eq!(m, "expected X11 focus target, got sway:7"),
        _ => panic!("expected an error"),
    }
    let t = FocusTarget::X11(9);
    assert!(x11_is_active(Ok(FocusTarget::X11(9)), &t).unwrap());
    assert!(!x11_is_active(Ok(FocusTarget::X11(8)), &t).unwrap());
    assert!(!x11_is_active(Err(FocusError::Unavailable), &t).unwrap());
    assert!(x11_is_active(Err(FocusError::Failed("x".to_string())), &t).is_err());
}

#[test]
fn backend_plans_follow_the_session() {
    let x11 = EnvironmentAudit::from_env("x11", "XFCE");
    let kde = EnvironmentAudit::from_env("wayland", "KDE");
    let sway = EnvironmentAudit::from_env("wayland", "sway");
    let gnome = EnvironmentAudit::from_env("wayland", "GNOME");
    let tty = EnvironmentAudit::from_env("tty", "");
    assert_eq!(resolve_clipboard_backend(&kde), ClipboardBackendPlan::Wayland);
    assert_eq!(resolve_clipboard_backend(&tty), ClipboardBackendPlan::X11);
    assert_eq!(ClipboardBackendPlan::X11.name(), "X11");
    assert_eq!(resolve_clipboard_backend(&kde).name(), "Wayland");
    assert_eq!(resolve_focus_backend(&x11, true, true), FocusBackendPlan::X11);
    assert_eq!(resolve_focus_backend(&kde, true, false), FocusBackendPlan::Kde);
    assert_eq!(resolve_focus_backend(&sway, true, true), FocusBackendPlan::Sway);
    assert_eq!(resolve_focus_backend(&sway, false, true), FocusBackendPlan::Hyprland);
    assert_eq!(resolve_focus_backend(&gnome, false, false), FocusBackendPlan::Unavailable);
    assert!(!FocusBackendPlan::Unavailable.can_restore_focus());
    assert!(FocusBackendPlan::Sway.can_restore_focus());
    assert!(!focus_fallback_on_error(FocusBackendPlan::X11));
    assert!(focus_fallback_on_error(FocusBackendPlan::Kde));
    assert_eq!(resolve_paste_backend(&x11, false, false, false), PasteBackendPlan::X11);
    assert_eq!(resolve_paste_backend(&kde, true, false, false), PasteBackendPlan::WaylandDirect);
    assert_eq!(resolve_paste_backend(&kde, false, false, false), PasteBackendPlan::WaylandFallback);
    assert_eq!(resolve_paste_backend(&sway, true, true, false), PasteBackendPlan::WaylandWlroots);
    assert_eq!(resolve_paste_backend(&gnome, true, false, false), PasteBackendPlan::WaylandFallback);
    assert_eq!(resolve_paste_backend(&tty, true, true, true), PasteBackendPlan::WaylandFallback);
    assert!(!paste_fallback_on_error(PasteBackendPlan::X11));
    assert!(paste_fallback_on_error(PasteBackendPlan::WaylandWlroots));
    assert_eq!(resolve_shortcut_backend(&x11), ShortcutBackendPlan::X11);
    assert_eq!(resolve_shortcut_backend(&gnome), ShortcutBackendPlan::Wayland);
    assert_eq!(resolve_shortcut_backend(&tty), ShortcutBackendPlan::Unavailable);
}

#[test]
fn unsent_grab_keeps_acquired_masks_and_failed_flush_rolls_back() {
    let mut attempt = X11GrabAttempt::new(vec![4, 6]);
    attempt.granted();
    match attempt.send_failed(Shortcut::super_v(), "connection reset") {
        ShortcutError::Failed(m) => {
            assert_eq!(m, "failed to send X11 grab request for 'Super+V': connection reset")
        },
        other => panic!("unexpected {other:?}"),
    }
    assert_eq!(attempt.next_mask(), None);

    let mut attempt = X11GrabAttempt::new(vec![4, 6]);
    attempt.granted();
    attempt.granted();
    assert!(attempt.is_complete());
    let (rollback, error) = attempt.flush_failed("broken pipe");
    assert_eq!(rollback, vec![4, 6]);
    match error {
        ShortcutError::Failed(m) => assert_eq!(m, "failed to flush X11 grab registration: broken pipe"),
        other => panic!("unexpected {other:?}"),
    }
    assert!(!attempt.is_complete());
}

#[test]
fn compositor_shortcut_backend_follows_the_session_markers() {
    let wayland = EnvironmentAudit::from_env("wayland", "sway");
    let x11 = EnvironmentAudit::from_env("x11", "sway");
    assert_eq!(resolve_compositor_shortcut_backend(&wayland, true, true), Some(CompositorShortcutPlan::Sway));
    assert_eq!(resolve_compositor_shortcut_backend(&wayland, true, false), Some(CompositorShortcutPlan::Sway));
    assert_eq!(
        resolve_compositor_shortcut_backend(&wayland, false, true),
        Some(CompositorShortcutPlan::Hyprland)
    );
    assert_eq!(resolve_compositor_shortcut_backend(&wayland, false, false), None);
    assert_eq!(resolve_compositor_shortcut_backend(&x11, true, true), None);
}
