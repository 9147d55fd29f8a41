//! Runtime changes of the shortcut. Setting a new shortcut is a transaction
//! whose steps depend on who owns the binding: a native grab is rebound
//! before the configuration is committed (and rolled back if the commit
//! fails), a compositor-managed binding is committed and then re-probed, and
//! portal or unsupported shortcuts are refused.
//!
//! The transaction is a state machine: the caller performs each action
//! (writing files, rebinding over the listener) and reports its result as the
//! next event.
use vstd::prelude::*;

use crate::shortcut_backend::{
    error_text, super_v_spec, Shortcut, ShortcutError, ShortcutErrorView,
};
use crate::shortcut_config::{
    config_error_text, config_shortcut, ConfigErrorView, ShortcutConfig, ShortcutConfigError,
};
use crate::status::{IpcShortcutCapability, ShortcutStatusInfo};
use crate::text::{push_str, str_chars, chars_to_string};

verus! {

#[derive(Debug)]
pub enum ReloadError {
    Config(ShortcutConfigError),
    Shortcut(ShortcutError),
}

pub enum ReloadErrorView {
    Config(ConfigErrorView),
    Shortcut(ShortcutErrorView),
}

impl View for ReloadError {
    type V = ReloadErrorView;

    open spec fn view(&self) -> ReloadErrorView {
        match self {
            ReloadError::Config(e) => ReloadErrorView::Config(e@),
            ReloadError::Shortcut(e) => ReloadErrorView::Shortcut(e@),
        }
    }
}

pub open spec fn reload_error_text(e: ReloadErrorView) -> Seq<char> {
    match e {
        ReloadErrorView::Config(c) => "configuration error: "@ + config_error_text(c),
        ReloadErrorView::Shortcut(s) => "shortcut reload failed: "@ + error_text(s),
    }
}

impl ReloadError {
    pub fn message(&self) -> (r: String)
        ensures
            r@ == reload_error_text(self@),
    {
        let mut s = String::new();
        match self {
            ReloadError::Config(e) => {
                push_str(&mut s, "configuration error: ");
                let m = e.message();
                push_str(&mut s, m.as_str());
            },
            ReloadError::Shortcut(e) => {
                push_str(&mut s, "shortcut reload failed: ");
                let m = e.message();
                push_str(&mut s, m.as_str());
            },
        }
        s
    }
}

/// The shortcut a reload rebinds: the one the strictly loaded configuration
/// designates. A load that failed, or a shortcut that does not convert, is the
/// reload's error, and then nothing is rebound: the running shortcut stays.
pub fn reload_target(loaded: Result<ShortcutConfig, ShortcutConfigError>) -> (r: Result<
    Shortcut,
    ReloadError,
>)
    ensures
        match loaded {
            Err(e) => r matches Err(ReloadError::Config(f)) && f@ == e@,
            Ok(c) => match config_shortcut(c) {
                Ok(s) => r matches Ok(t) && t == s,
                Err(e) => r matches Err(ReloadError::Config(f)) && f@ == e,
            },
        },
{
    match loaded {
        Err(e) => Err(ReloadError::Config(e)),
        Ok(c) => match c.primary_shortcut() {
            Ok(s) => Ok(s),
            Err(e) => Err(ReloadError::Config(e)),
        },
    }
}

/// The answer to a reload once the listener rebound (or failed to rebind)
/// the shortcut: its status, or the rebind's error.
pub fn reload_outcome(rebound: Result<ShortcutStatusInfo, ShortcutError>) -> (r: Result<
    ShortcutStatusInfo,
    ReloadError,
>)
    ensures
        match rebound {
            Ok(s) => r matches Ok(t) && t@ == s@,
            Err(e) => r matches Err(ReloadError::Shortcut(f)) && f@ == e@,
        },
{
    match rebound {
        Ok(s) => Ok(s),
        Err(e) => Err(ReloadError::Shortcut(e)),
    }
}

/// Where a shortcut change stands.
#[derive(Debug)]
pub enum SetShortcutPhase {
    /// Nothing done yet.
    Begin,
    /// Native grab: the new configuration is being written aside.
    NativePreparing,
    /// Native grab: the new shortcut is being bound.
    NativeRebinding,
    /// Native grab: the new configuration is being committed.
    NativeCommitting,
    /// Native grab: the commit failed; the persisted configuration is being read.
    NativeLoadingPrevious(ShortcutConfigError),
    /// Native grab: the commit failed; the previous shortcut is being bound again.
    NativeRollingBack(ShortcutConfigError),
    /// Compositor-managed: the new configuration is being written aside.
    CompositorPreparing,
    /// Compositor-managed: the new configuration is being committed.
    CompositorCommitting,
    /// Compositor-managed: the compositor is being probed for the new shortcut.
    CompositorRebinding,
    /// The change is over.
    Done,
}

/// What the caller reports back.
#[derive(Debug)]
pub enum SetShortcutEvent {
    /// The capability of the running shortcut, if known.
    Started(Option<IpcShortcutCapability>),
    /// Writing the new configuration aside.
    Prepared(Result<(), ShortcutConfigError>),
    /// Binding a shortcut in the listener.
    Rebound(Result<(), ShortcutError>),
    /// Moving the prepared configuration into place.
    Committed(Result<(), ShortcutConfigError>),
    /// The shortcut of the persisted configuration, if it could be read and resolved.
    PreviousLoaded(Option<Shortcut>),
}

/// What the caller does next.
#[derive(Debug)]
pub enum SetShortcutAction {
    /// Write the configuration for the target shortcut aside.
    Prepare,
    /// Bind this shortcut in the listener.
    Rebind(Shortcut),
    /// Move the prepared configuration into place.
    Commit,
    /// Remove the prepared configuration, then read the persisted one.
    DiscardAndLoadPrevious,
    /// Remove the prepared configuration, then fail with the error.
    DiscardAndFail(ReloadError),
    /// Fail with the error.
    Fail(ReloadError),
    /// Report the listener's current status.
    Succeed,
    /// The event does not belong to this phase: nothing to do.
    Ignore,
}

pub enum PhaseView {
    Begin,
    NativePreparing,
    NativeRebinding,
    NativeCommitting,
    NativeLoadingPrevious(ConfigErrorView),
    NativeRollingBack(ConfigErrorView),
    CompositorPreparing,
    CompositorCommitting,
    CompositorRebinding,
    Done,
}

impl View for SetShortcutPhase {
    type V = PhaseView;

    open spec fn view(&self) -> PhaseView {
        match self {
            SetShortcutPhase::Begin => PhaseView::Begin,
            SetShortcutPhase::NativePreparing => PhaseView::NativePreparing,
            SetShortcutPhase::NativeRebinding => PhaseView::NativeRebinding,
            SetShortcutPhase::NativeCommitting => PhaseView::NativeCommitting,
            SetShortcutPhase::NativeLoadingPrevious(e) => PhaseView::NativeLoadingPrevious(e@),
            SetShortcutPhase::NativeRollingBack(e) => PhaseView::NativeRollingBack(e@),
            SetShortcutPhase::CompositorPreparing => PhaseView::CompositorPreparing,
            SetShortcutPhase::CompositorCommitting => PhaseView::CompositorCommitting,
            SetShortcutPhase::CompositorRebinding => PhaseView::CompositorRebinding,
            SetShortcutPhase::Done => PhaseView::Done,
        }
    }
}

pub enum EventView {
    Started(Option<IpcShortcutCapability>),
    Prepared(Option<ConfigErrorView>),
    Rebound(Option<ShortcutErrorView>),
    Committed(Option<ConfigErrorView>),
    PreviousLoaded(Option<Shortcut>),
}

impl View for SetShortcutEvent {
    type V = EventView;

    open spec fn view(&self) -> EventView {
        match self {
            SetShortcutEvent::Started(c) => EventView::Started(*c),
            SetShortcutEvent::Prepared(r) => EventView::Prepared(
                match r {
                    Ok(_) => None,
                    Err(e) => Some(e@),
                },
            ),
            SetShortcutEvent::Rebound(r) => EventView::Rebound(
                match r {
                    Ok(_) => None,
                    Err(e) => Some(e@),
                },
            ),
            SetShortcutEvent::Committed(r) => EventView::Committed(
                match r {
                    Ok(_) => None,
                    Err(e) => Some(e@),
                },
            ),
            SetShortcutEvent::PreviousLoaded(s) => EventView::PreviousLoaded(*s),
        }
    }
}

pub enum ActionView {
    Prepare,
    Rebind(Shortcut),
    Commit,
    DiscardAndLoadPrevious,
    DiscardAndFail(ReloadErrorView),
    Fail(ReloadErrorView),
    Succeed,
    Ignore,
}

impl View for SetShortcutAction {
    type V = ActionView;

    open spec fn view(&self) -> ActionView {
        match self {
            SetShortcutAction::Prepare => ActionView::Prepare,
            SetShortcutAction::Rebind(s) => ActionView::Rebind(*s),
            SetShortcutAction::Commit => ActionView::Commit,
            SetShortcutAction::DiscardAndLoadPrevious => ActionView::DiscardAndLoadPrevious,
            SetShortcutAction::DiscardAndFail(e) => ActionView::DiscardAndFail(e@),
            SetShortcutAction::Fail(e) => ActionView::Fail(e@),
            SetShortcutAction::Succeed => ActionView::Succeed,
            SetShortcutAction::Ignore => ActionView::Ignore,
        }
    }
}

/// The error of a commit that failed and whose rollback failed too.
pub open spec fn double_failure_text(commit: ConfigErrorView, rollback: ShortcutErrorView) -> Seq<
    char,
> {
    "failed to commit configuration: "@ + config_error_text(commit)
        + "; rollback to previous runtime shortcut also failed: "@ + error_text(rollback)
        + "; current runtime shortcut may differ from persisted configuration"@
}

/// One step of the transaction that sets `target`: the next phase and action.
pub open spec fn set_shortcut_step(p: PhaseView, target: Shortcut, e: EventView) -> (
    PhaseView,
    ActionView,
) {
    match (p, e) {
        (PhaseView::Begin, EventView::Started(c)) => match c {
            None => (
                PhaseView::Done,
                ActionView::Fail(
                    ReloadErrorView::Config(
                        ConfigErrorView::Parse("shortcut capability is unknown"@),
                    ),
                ),
            ),
            Some(IpcShortcutCapability::Portal) => (
                PhaseView::Done,
                ActionView::Fail(
                    ReloadErrorView::Shortcut(
                        ShortcutErrorView::Failed(
                            "Shortcut is managed by the desktop portal; use ConfigurePortalShortcut"@,
                        ),
                    ),
                ),
            ),
            Some(IpcShortcutCapability::Unsupported) => (
                PhaseView::Done,
                ActionView::Fail(ReloadErrorView::Shortcut(ShortcutErrorView::Unavailable)),
            ),
            Some(IpcShortcutCapability::Native) => (PhaseView::NativePreparing, ActionView::Prepare),
            Some(IpcShortcutCapability::CompositorManaged) => (
                PhaseView::CompositorPreparing,
                ActionView::Prepare,
            ),
        },
        (PhaseView::NativePreparing, EventView::Prepared(r)) => match r {
            Some(err) => (PhaseView::Done, ActionView::Fail(ReloadErrorView::Config(err))),
            None => (PhaseView::NativeRebinding, ActionView::Rebind(target)),
        },
        (PhaseView::NativeRebinding, EventView::Rebound(r)) => match r {
            Some(err) => (PhaseView::Done, ActionView::DiscardAndFail(ReloadErrorView::Shortcut(err))),
            None => (PhaseView::NativeCommitting, ActionView::Commit),
        },
        (PhaseView::NativeCommitting, EventView::Committed(r)) => match r {
            Some(err) => (PhaseView::NativeLoadingPrevious(err), ActionView::DiscardAndLoadPrevious),
            None => (PhaseView::Done, ActionView::Succeed),
        },
        (PhaseView::NativeLoadingPrevious(err), EventView::PreviousLoaded(prev)) => (
            PhaseView::NativeRollingBack(err),
            ActionView::Rebind(
                match prev {
                    Some(s) => s,
                    None => super_v_spec(),
                },
            ),
        ),
        (PhaseView::NativeRollingBack(err), EventView::Rebound(r)) => match r {
            None => (PhaseView::Done, ActionView::Fail(ReloadErrorView::Config(err))),
            Some(rb) => (
                PhaseView::Done,
                ActionView::Fail(
                    ReloadErrorView::Shortcut(ShortcutErrorView::Failed(double_failure_text(err, rb))),
                ),
            ),
        },
        (PhaseView::CompositorPreparing, EventView::Prepared(r)) => match r {
            Some(err) => (PhaseView::Done, ActionView::Fail(ReloadErrorView::Config(err))),
            None => (PhaseView::CompositorCommitting, ActionView::Commit),
        },
        (PhaseView::CompositorCommitting, EventView::Committed(r)) => match r {
            Some(err) => (PhaseView::Done, ActionView::Fail(ReloadErrorView::Config(err))),
            None => (PhaseView::CompositorRebinding, ActionView::Rebind(target)),
        },
        (PhaseView::CompositorRebinding, EventView::Rebound(r)) => match r {
            Some(err) => (PhaseView::Done, ActionView::Fail(ReloadErrorView::Shortcut(err))),
            None => (PhaseView::Done, ActionView::Succeed),
        },
        _ => (p, ActionView::Ignore),
    }
}

fn failed_message(lit: &str) -> (r: ShortcutError)
    ensures
        r@ == ShortcutErrorView::Failed(lit@),
{
    let v = str_chars(lit);
    ShortcutError::Failed(chars_to_string(&v))
}

/// The transaction that sets a new shortcut.
pub struct SetShortcutFlow {
    pub target: Shortcut,
    pub phase: SetShortcutPhase,
}

impl SetShortcutFlow {
    pub fn new(target: Shortcut) -> (r: Self)
        ensures
            r.target == target,
            r.phase@ == PhaseView::Begin,
    {
        SetShortcutFlow { target, phase: SetShortcutPhase::Begin }
    }

    /// Whether the transaction is over.
    pub fn is_done(&self) -> (r: bool)
        ensures
            r == (self.phase@ is Done),
    {
        match self.phase {
            SetShortcutPhase::Done => true,
            _ => false,
        }
    }

    /// Advances the transaction by the result of the last action.
    pub fn step(&mut self, event: SetShortcutEvent) -> (r: SetShortcutAction)
        ensures
            final(self).target == old(self).target,
            (final(self).phase@, r@) == set_shortcut_step(old(self).phase@, old(self).target, event@),
    {
        let target = self.target;
        let mut phase = SetShortcutPhase::Done;
        std::mem::swap(&mut phase, &mut self.phase);
        let (next, action) = match (phase, event) {
            (SetShortcutPhase::Begin, SetShortcutEvent::Started(c)) => match c {
                None => {
                    let v = str_chars("shortcut capability is unknown");
                    (
                        SetShortcutPhase::Done,
                        SetShortcutAction::Fail(
                            ReloadError::Config(ShortcutConfigError::Parse(chars_to_string(&v))),
                        ),
                    )
                },
                Some(IpcShortcutCapability::Portal) => (
                    SetShortcutPhase::Done,
                    SetShortcutAction::Fail(
                        ReloadError::Shortcut(
                            failed_message(
                                "Shortcut is managed by the desktop portal; use ConfigurePortalShortcut",
                            ),
                        ),
                    ),
                ),
                Some(IpcShortcutCapability::Unsupported) => (
                    SetShortcutPhase::Done,
                    SetShortcutAction::Fail(ReloadError::Shortcut(ShortcutError::Unavailable)),
                ),
                Some(IpcShortcutCapability::Native) => (
                    SetShortcutPhase::NativePreparing,
                    SetShortcutAction::Prepare,
                ),
                Some(IpcShortcutCapability::CompositorManaged) => (
                    SetShortcutPhase::CompositorPreparing,
                    SetShortcutAction::Prepare,
                ),
            },
            (SetShortcutPhase::NativePreparing, SetShortcutEvent::Prepared(r)) => match r {
                Err(err) => (SetShortcutPhase::Done, SetShortcutAction::Fail(ReloadError::Config(err))),
                Ok(()) => (SetShortcutPhase::NativeRebinding, SetShortcutAction::Rebind(target)),
            },
            (SetShortcutPhase::NativeRebinding, SetShortcutEvent::Rebound(r)) => match r {
                Err(err) => (
                    SetShortcutPhase::Done,
                    SetShortcutAction::DiscardAndFail(ReloadError::Shortcut(err)),
                ),
                Ok(()) => (SetShortcutPhase::NativeCommitting, SetShortcutAction::Commit),
            },
            (SetShortcutPhase::NativeCommitting, SetShortcutEvent::Committed(r)) => match r {
                Err(err) => (
                    SetShortcutPhase::NativeLoadingPrevious(err),
                    SetShortcutAction::DiscardAndLoadPrevious,
                ),
                Ok(()) => (SetShortcutPhase::Done, SetShortcutAction::Succeed),
            },
            (
                SetShortcutPhase::NativeLoadingPrevious(err),
                SetShortcutEvent::PreviousLoaded(prev),
            ) => {
                let previous = match prev {
                    Some(s) => s,
                    None => Shortcut::super_v(),
                };
                (SetShortcutPhase::NativeRollingBack(err), SetShortcutAction::Rebind(previous))
            },
            (SetShortcutPhase::NativeRollingBack(err), SetShortcutEvent::Rebound(r)) => match r {
                Ok(()) => (SetShortcutPhase::Done, SetShortcutAction::Fail(ReloadError::Config(err))),
                Err(rb) => {
                    let mut msg = String::new();
                    push_str(&mut msg, "failed to commit configuration: ");
                    let cm = err.message();
                    push_str(&mut msg, cm.as_str());
                    push_str(&mut msg, "; rollback to previous runtime shortcut also failed: ");
                    let rm = rb.message();
                    push_str(&mut msg, rm.as_str());
                    push_str(
                        &mut msg,
                        "; current runtime shortcut may differ from persisted configuration",
                    );
                    (
                        SetShortcutPhase::Done,
                        SetShortcutAction::Fail(ReloadError::Shortcut(ShortcutError::Failed(msg))),
                    )
                },
            },
            (SetShortcutPhase::CompositorPreparing, SetShortcutEvent::Prepared(r)) => match r {
                Err(err) => (SetShortcutPhase::Done, SetShortcutAction::Fail(ReloadError::Config(err))),
                Ok(()) => (SetShortcutPhase::CompositorCommitting, SetShortcutAction::Commit),
            },
            (SetShortcutPhase::CompositorCommitting, SetShortcutEvent::Committed(r)) => match r {
                Err(err) => (SetShortcutPhase::Done, SetShortcutAction::Fail(ReloadError::Config(err))),
                Ok(()) => (SetShortcutPhase::CompositorRebinding, SetShortcutAction::Rebind(target)),
            },
            (SetShortcutPhase::CompositorRebinding, SetShortcutEvent::Rebound(r)) => match r {
                Err(err) => (SetShortcutPhase::Done, SetShortcutAction::Fail(ReloadError::Shortcut(err))),
                Ok(()) => (SetShortcutPhase::Done, SetShortcutAction::Succeed),
            },
            (p, _) => (p, SetShortcutAction::Ignore),
        };
        self.phase = next;
        action
    }
}

/// The new configuration is only ever committed after the step that must
/// precede it succeeded: for a native grab, binding the new shortcut; for a
/// compositor-managed binding, writing the new file aside.
pub proof fn lemma_commit_only_after_success(p: PhaseView, target: Shortcut, e: EventView)
    ensures
        set_shortcut_step(p, target, e).1 is Commit ==> (p is NativeRebinding && e
            == EventView::Rebound(None)) || (p is CompositorPreparing && e == EventView::Prepared(
            None,
        )),
{
}

/// A native grab whose new binding failed never touches the configuration:
/// the prepared file is discarded and the change fails with that error.
pub proof fn lemma_failed_native_rebind_discards(target: Shortcut, err: ShortcutErrorView)
    ensures
        set_shortcut_step(PhaseView::NativeRebinding, target, EventView::Rebound(Some(err)))
            == (PhaseView::Done, ActionView::DiscardAndFail(ReloadErrorView::Shortcut(err))),
{
}

/// After a failed commit the previous shortcut is bound again: the persisted
/// one, or Super+V when it cannot be read; then the change fails.
pub proof fn lemma_failed_commit_rolls_back(
    target: Shortcut,
    commit: ConfigErrorView,
    previous: Option<Shortcut>,
    rollback: Option<ShortcutErrorView>,
)
    ensures
        set_shortcut_step(PhaseView::NativeCommitting, target, EventView::Committed(Some(commit)))
            == (PhaseView::NativeLoadingPrevious(commit), ActionView::DiscardAndLoadPrevious),
        set_shortcut_step(
            PhaseView::NativeLoadingPrevious(commit),
            target,
            EventView::PreviousLoaded(previous),
        ) == (
            PhaseView::NativeRollingBack(commit),
            ActionView::Rebind(
                match previous {
                    Some(s) => s,
                    None => super_v_spec(),
                },
            ),
        ),
        set_shortcut_step(PhaseView::NativeRollingBack(commit), target, EventView::Rebound(rollback)).1 is Fail,
        set_shortcut_step(PhaseView::NativeRollingBack(commit), target, EventView::Rebound(rollback)).0 is Done,
{
}

/// A finished change stays finished: no event starts it again.
pub proof fn lemma_done_is_final(target: Shortcut, e: EventView)
    ensures
        set_shortcut_step(PhaseView::Done, target, e).0 is Done,
        set_shortcut_step(PhaseView::Done, target, e).1 is Ignore,
{
}

} // verus!
