//! Activating a history item: put it on the clipboard, move it to the top of
//! the history, give focus back to the window the popup was opened over, and
//! paste when the session can.
//!
//! The steps wait on storage, the clipboard and the window system, so the
//! activation is a state machine: the caller performs each action and reports
//! its result as the next event. Failures of storage or of the clipboard are
//! errors the caller returns at once.
use vstd::prelude::*;

use crate::focus_backend::{FocusTarget, TargetView};
use crate::paste_backend::PasteCapability;
use crate::text::eq_str;

verus! {

/// How an activation ended.
#[derive(Debug, Clone, Copy, PartialEq, Eq, Structural)]
pub enum ActivationResult {
    Pasted,
    ClipboardUpdated,
    PasteFailed,
    NotFound,
    UnsupportedContent,
}

/// Where an activation stands.
#[derive(Debug, Clone, Copy, PartialEq, Eq, Structural)]
pub enum ActivationPhase {
    LookingUp,
    WritingClipboard,
    Promoting,
    RestoringFocus,
    Pasting,
    Done,
}

/// What the caller reports back.
#[derive(Debug)]
pub enum ActivationEvent {
    /// The history item: its content type and text, or `None` if it is gone.
    Found(Option<(String, Option<String>)>),
    /// The clipboard now holds the text.
    ClipboardWritten,
    /// Whether the item was moved to the top of the history.
    Promoted(bool),
    /// Whether the window got focus back in time.
    FocusRestored(bool),
    /// Whether the paste went through.
    Pasted(bool),
}

pub enum ActivationEventView {
    Found(Option<(Seq<char>, Option<Seq<char>>)>),
    ClipboardWritten,
    Promoted(bool),
    FocusRestored(bool),
    Pasted(bool),
}

impl View for ActivationEvent {
    type V = ActivationEventView;

    open spec fn view(&self) -> ActivationEventView {
        match self {
            ActivationEvent::Found(None) => ActivationEventView::Found(None),
            ActivationEvent::Found(Some((t, text))) => ActivationEventView::Found(
                Some(
                    (
                        t@,
                        match text {
                            Some(s) => Some(s@),
                            None => None,
                        },
                    ),
                ),
            ),
            ActivationEvent::ClipboardWritten => ActivationEventView::ClipboardWritten,
            ActivationEvent::Promoted(b) => ActivationEventView::Promoted(*b),
            ActivationEvent::FocusRestored(b) => ActivationEventView::FocusRestored(*b),
            ActivationEvent::Pasted(b) => ActivationEventView::Pasted(*b),
        }
    }
}

/// What the caller does next.
#[derive(Debug)]
pub enum ActivationAction {
    /// Put this text on the clipboard.
    WriteClipboard(String),
    /// Move the item to the top of the history.
    Promote,
    /// Give focus back to this window and wait until it is active.
    RestoreFocus(FocusTarget),
    /// Paste into the focused window.
    Paste,
    /// The activation ended.
    Finish(ActivationResult),
    /// The event does not belong to this phase.
    Ignore,
}

pub enum ActionView {
    WriteClipboard(Seq<char>),
    Promote,
    RestoreFocus(TargetView),
    Paste,
    Finish(ActivationResult),
    Ignore,
}

impl View for ActivationAction {
    type V = ActionView;

    open spec fn view(&self) -> ActionView {
        match self {
            ActivationAction::WriteClipboard(s) => ActionView::WriteClipboard(s@),
            ActivationAction::Promote => ActionView::Promote,
            ActivationAction::RestoreFocus(t) => ActionView::RestoreFocus(t@),
            ActivationAction::Paste => ActionView::Paste,
            ActivationAction::Finish(r) => ActionView::Finish(*r),
            ActivationAction::Ignore => ActionView::Ignore,
        }
    }
}

/// After the item was promoted: restore focus first if there is a target,
/// then paste if the session pastes directly.
pub open spec fn after_promotion(target: Option<TargetView>, capability: PasteCapability) -> (
    ActivationPhase,
    ActionView,
) {
    match target {
        Some(t) => (ActivationPhase::RestoringFocus, ActionView::RestoreFocus(t)),
        None => paste_or_finish(capability),
    }
}

pub open spec fn paste_or_finish(capability: PasteCapability) -> (ActivationPhase, ActionView) {
    match capability {
        PasteCapability::Direct => (ActivationPhase::Pasting, ActionView::Paste),
        PasteCapability::ClipboardOnly => (
            ActivationPhase::Done,
            ActionView::Finish(ActivationResult::ClipboardUpdated),
        ),
    }
}

/// One step of an activation.
pub open spec fn activation_step(
    p: ActivationPhase,
    target: Option<TargetView>,
    capability: PasteCapability,
    e: ActivationEventView,
) -> (ActivationPhase, ActionView) {
    match (p, e) {
        (ActivationPhase::LookingUp, ActivationEventView::Found(item)) => match item {
            None => (ActivationPhase::Done, ActionView::Finish(ActivationResult::NotFound)),
            Some((content_type, text)) => if content_type != "text"@ || text is None {
                (ActivationPhase::Done, ActionView::Finish(ActivationResult::UnsupportedContent))
            } else {
                (ActivationPhase::WritingClipboard, ActionView::WriteClipboard(text->0))
            },
        },
        (ActivationPhase::WritingClipboard, ActivationEventView::ClipboardWritten) => (
            ActivationPhase::Promoting,
            ActionView::Promote,
        ),
        (ActivationPhase::Promoting, ActivationEventView::Promoted(promoted)) => if !promoted {
            (ActivationPhase::Done, ActionView::Finish(ActivationResult::NotFound))
        } else {
            after_promotion(target, capability)
        },
        (ActivationPhase::RestoringFocus, ActivationEventView::FocusRestored(ok)) => if !ok {
            (ActivationPhase::Done, ActionView::Finish(ActivationResult::PasteFailed))
        } else {
            paste_or_finish(capability)
        },
        (ActivationPhase::Pasting, ActivationEventView::Pasted(ok)) => (
            ActivationPhase::Done,
            ActionView::Finish(
                if ok {
                    ActivationResult::Pasted
                } else {
                    ActivationResult::PasteFailed
                },
            ),
        ),
        _ => (p, ActionView::Ignore),
    }
}

/// One activation of a history item.
pub struct ActivationFlow {
    pub target: Option<FocusTarget>,
    pub capability: PasteCapability,
    pub phase: ActivationPhase,
}

pub open spec fn target_view(t: Option<FocusTarget>) -> Option<TargetView> {
    match t {
        Some(x) => Some(x@),
        None => None,
    }
}

impl ActivationFlow {
    /// Starts an activation; the caller looks the item up first.
    pub fn new(target: Option<FocusTarget>, capability: PasteCapability) -> (r: Self)
        ensures
            r.phase == ActivationPhase::LookingUp,
            target_view(r.target) == target_view(target),
            r.capability == capability,
    {
        ActivationFlow { target, capability, phase: ActivationPhase::LookingUp }
    }

    fn restore_or_paste(&self) -> (r: (ActivationPhase, ActivationAction))
        ensures
            (r.0, r.1@) == after_promotion(target_view(self.target), self.capability),
    {
        match &self.target {
            Some(t) => (ActivationPhase::RestoringFocus, ActivationAction::RestoreFocus(t.duplicate())),
            None => self.paste_or_finish(),
        }
    }

    fn paste_or_finish(&self) -> (r: (ActivationPhase, ActivationAction))
        ensures
            (r.0, r.1@) == paste_or_finish(self.capability),
    {
        match self.capability {
            PasteCapability::Direct => (ActivationPhase::Pasting, ActivationAction::Paste),
            PasteCapability::ClipboardOnly => (
                ActivationPhase::Done,
                ActivationAction::Finish(ActivationResult::ClipboardUpdated),
            ),
        }
    }

    /// Advances the activation by the result of the last action.
    pub fn step(&mut self, event: ActivationEvent) -> (r: ActivationAction)
        ensures
            target_view(final(self).target) == target_view(old(self).target),
            final(self).capability == old(self).capability,
            (final(self).phase, r@) == activation_step(
                old(self).phase,
                target_view(old(self).target),
                old(self).capability,
                event@,
            ),
    {
        let (next, action) = match (self.phase, event) {
            (ActivationPhase::LookingUp, ActivationEvent::Found(item)) => match item {
                None => (ActivationPhase::Done, ActivationAction::Finish(ActivationResult::NotFound)),
                Some((content_type, text)) => {
                    let ct = crate::text::str_chars(content_type.as_str());
                    if !eq_str(&ct, "text") {
                        (
                            ActivationPhase::Done,
                            ActivationAction::Finish(ActivationResult::UnsupportedContent),
                        )
                    } else {
                        match text {
                            None => (
                                ActivationPhase::Done,
                                ActivationAction::Finish(ActivationResult::UnsupportedContent),
                            ),
                            Some(t) => (
                                ActivationPhase::WritingClipboard,
                                ActivationAction::WriteClipboard(t),
                            ),
                        }
                    }
                },
            },
            (ActivationPhase::WritingClipboard, ActivationEvent::ClipboardWritten) => (
                ActivationPhase::Promoting,
                ActivationAction::Promote,
            ),
            (ActivationPhase::Promoting, ActivationEvent::Promoted(promoted)) => {
                if !promoted {
                    (ActivationPhase::Done, ActivationAction::Finish(ActivationResult::NotFound))
                } else {
                    self.restore_or_paste()
                }
            },
            (ActivationPhase::RestoringFocus, ActivationEvent::FocusRestored(ok)) => {
                if !ok {
                    (ActivationPhase::Done, ActivationAction::Finish(ActivationResult::PasteFailed))
                } else {
                    self.paste_or_finish()
                }
            },
            (ActivationPhase::Pasting, ActivationEvent::Pasted(ok)) => (
                ActivationPhase::Done,
                ActivationAction::Finish(
                    if ok {
                        ActivationResult::Pasted
                    } else {
                        ActivationResult::PasteFailed
                    },
                ),
            ),
            (p, _) => (p, ActivationAction::Ignore),
        };
        self.phase = next;
        action
    }
}

/// A clipboard-only session never pastes: whatever happens, no step of an
/// activation asks for a paste.
pub proof fn lemma_clipboard_only_never_pastes(
    p: ActivationPhase,
    target: Option<TargetView>,
    e: ActivationEventView,
)
    requires
        p != ActivationPhase::Pasting,
    ensures
        !(activation_step(p, target, PasteCapability::ClipboardOnly, e).1 is Paste),
        activation_step(p, target, PasteCapability::ClipboardOnly, e).0 != ActivationPhase::Pasting,
{
}

/// A missing or non-text item never touches the clipboard.
pub proof fn lemma_unusable_item_leaves_clipboard(
    target: Option<TargetView>,
    capability: PasteCapability,
    item: Option<(Seq<char>, Option<Seq<char>>)>,
)
    requires
        match item {
            None => true,
            Some((t, text)) => t != "text"@ || text is None,
        },
    ensures
        !(activation_step(
            ActivationPhase::LookingUp,
            target,
            capability,
            ActivationEventView::Found(item),
        ).1 is WriteClipboard),
{
}

/// With a target, pasting only happens after focus came back: a failed
/// restoration ends the activation as a failed paste, without pasting.
pub proof fn lemma_failed_focus_never_pastes(target: Option<TargetView>, capability: PasteCapability)
    ensures
        activation_step(
            ActivationPhase::RestoringFocus,
            target,
            capability,
            ActivationEventView::FocusRestored(false),
        ) == (ActivationPhase::Done, ActionView::Finish(ActivationResult::PasteFailed)),
        target is Some ==> after_promotion(target, capability).1 is RestoreFocus,
{
}

} // verus!
