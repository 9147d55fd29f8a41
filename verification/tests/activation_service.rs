use pookie_paste::activation_service::{
    ActivationAction, ActivationEvent, ActivationFlow, ActivationPhase, ActivationResult,
};
use pookie_paste::focus_backend::FocusTarget;
use pookie_paste::paste_backend::PasteCapability;

fn text_item(t: &str) -> ActivationEvent {
    ActivationEvent::Found(Some(("text".to_string(), Some(t.to_string()))))
}

#[test]
fn focused_activation_restores_then_pastes() {
    let mut f = ActivationFlow::new(Some(FocusTarget::x11(7)), PasteCapability::Direct);
    assert!(matches!(f.step(text_item("hello")), ActivationAction::WriteClipboard(t) if t == "hello"));
    assert!(matches!(f.step(ActivationEvent::ClipboardWritten), ActivationAction::Promote));
    assert!(matches!(f.step(ActivationEvent::Promoted(true)), ActivationAction::RestoreFocus(FocusTarget::X11(7))));
    assert!(matches!(f.step(ActivationEvent::FocusRestored(true)), ActivationAction::Paste));
    assert!(matches!(f.step(ActivationEvent::Pasted(true)), ActivationAction::Finish(ActivationResult::Pasted)));
    assert_eq!(f.phase, ActivationPhase::Done);
}

#[test]
fn missing_or_unsupported_items_do_nothing() {
    let mut f = ActivationFlow::new(None, PasteCapability::Direct);
    assert!(matches!(f.step(ActivationEvent::Found(None)), ActivationAction::Finish(ActivationResult::NotFound)));
    let mut f = ActivationFlow::new(None, PasteCapability::Direct);
    assert!(matches!(
        f.step(ActivationEvent::Found(Some(("image".to_string(), None)))),
        ActivationAction::Finish(ActivationResult::UnsupportedContent)
    ));
    let mut f = ActivationFlow::new(None, PasteCapability::Direct);
    assert!(matches!(
        f.step(ActivationEvent::Found(Some(("text".to_string(), None)))),
        ActivationAction::Finish(ActivationResult::UnsupportedContent)
    ));
}

#[test]
fn clipboard_only_session_stops_after_promotion() {
    let mut f = ActivationFlow::new(None, PasteCapability::ClipboardOnly);
    f.step(text_item("x"));
    f.step(ActivationEvent::ClipboardWritten);
    assert!(matches!(f.step(ActivationEvent::Promoted(true)), ActivationAction::Finish(ActivationResult::ClipboardUpdated)));
}

#[test]
fn failures_end_without_pasting() {
    let mut f = ActivationFlow::new(Some(FocusTarget::x11(1)), PasteCapability::Direct);
    f.step(text_item("x"));
    f.step(ActivationEvent::ClipboardWritten);
    f.step(ActivationEvent::Promoted(true));
    assert!(matches!(f.step(ActivationEvent::FocusRestored(false)), ActivationAction::Finish(ActivationResult::PasteFailed)));
    let mut f = ActivationFlow::new(None, PasteCapability::Direct);
    f.step(text_item("x"));
    f.step(ActivationEvent::ClipboardWritten);
    assert!(matches!(f.step(ActivationEvent::Promoted(false)), ActivationAction::Finish(ActivationResult::NotFound)));
    let mut f = ActivationFlow::new(None, PasteCapability::Direct);
    f.step(text_item("x"));
    f.step(ActivationEvent::ClipboardWritten);
    assert!(matches!(f.step(ActivationEvent::Promoted(true)), ActivationAction::Paste));
    assert!(matches!(f.step(ActivationEvent::Pasted(false)), ActivationAction::Finish(ActivationResult::PasteFailed)));
}
