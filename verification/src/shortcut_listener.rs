//! The decisions of the shortcut listener: the status it starts with, how a
//! registration outcome or error updates it, and what the worker does when
//! waiting for an activation fails.
use vstd::prelude::*;

use crate::shortcut_backend::{
    error_text, opt_view, shortcut_text, OutcomeView, Shortcut, ShortcutBackendCapability,
    ShortcutError, ShortcutErrorView, ShortcutRegistrationOutcome,
};
use crate::status::{
    copy_opt_string, copy_string, IpcCompositorBindingStatus, IpcShortcutCapability,
    IpcShortcutState, ShortcutStatusInfo, StateView, StatusView,
};
use crate::text::{chars_to_string, push_str, str_chars};

verus! {

pub open spec fn ipc_capability(c: ShortcutBackendCapability) -> IpcShortcutCapability {
    match c {
        ShortcutBackendCapability::Native => IpcShortcutCapability::Native,
        ShortcutBackendCapability::Portal => IpcShortcutCapability::Portal,
        ShortcutBackendCapability::CompositorManaged => IpcShortcutCapability::CompositorManaged,
        ShortcutBackendCapability::Unsupported => IpcShortcutCapability::Unsupported,
    }
}

/// The reported capability of a backend capability.
pub fn capability_to_ipc(c: ShortcutBackendCapability) -> (r: IpcShortcutCapability)
    ensures
        r == ipc_capability(c),
{
    match c {
        ShortcutBackendCapability::Native => IpcShortcutCapability::Native,
        ShortcutBackendCapability::Portal => IpcShortcutCapability::Portal,
        ShortcutBackendCapability::CompositorManaged => IpcShortcutCapability::CompositorManaged,
        ShortcutBackendCapability::Unsupported => IpcShortcutCapability::Unsupported,
    }
}

/// How far a compositor binding was confirmed: verified; else a conflict if
/// one was found; else bound but unverified if the backend explained what it
/// saw; else unconfigured.
pub open spec fn binding_status_spec(
    verified: bool,
    conflict: Option<Seq<char>>,
    diagnostic: Option<Seq<char>>,
) -> IpcCompositorBindingStatus {
    if verified {
        IpcCompositorBindingStatus::Verified
    } else if conflict is Some {
        IpcCompositorBindingStatus::Conflict
    } else if diagnostic is Some {
        IpcCompositorBindingStatus::BoundUnverified
    } else {
        IpcCompositorBindingStatus::Unconfigured
    }
}

pub fn binding_status_of(verified: bool, conflict: &Option<String>, diagnostic: &Option<String>) -> (r:
    IpcCompositorBindingStatus)
    ensures
        r == binding_status_spec(verified, opt_view(*conflict), opt_view(*diagnostic)),
{
    if verified {
        IpcCompositorBindingStatus::Verified
    } else if conflict.is_some() {
        IpcCompositorBindingStatus::Conflict
    } else if diagnostic.is_some() {
        IpcCompositorBindingStatus::BoundUnverified
    } else {
        IpcCompositorBindingStatus::Unconfigured
    }
}

/// The status while the first registration is in progress.
pub open spec fn initial_status_spec(
    s: Shortcut,
    backend_name: Seq<char>,
    c: ShortcutBackendCapability,
) -> StatusView {
    StatusView {
        configured: shortcut_text(s),
        backend: Some(backend_name),
        capability: Some(ipc_capability(c)),
        effective: None,
        state: StateView::Initializing,
    }
}

/// The status a listener starts with, before its backend registers.
pub fn initial_status(shortcut: Shortcut, backend_name: &str, capability: ShortcutBackendCapability) -> (r:
    ShortcutStatusInfo)
    ensures
        r@ == initial_status_spec(shortcut, backend_name@, capability),
{
    let name = str_chars(backend_name);
    ShortcutStatusInfo {
        configured_shortcut: shortcut.to_string(),
        backend_name: Some(chars_to_string(&name)),
        capability: Some(capability_to_ipc(capability)),
        effective_shortcut: None,
        state: IpcShortcutState::Initializing,
    }
}

/// The status when no shortcut backend could be created.
pub open spec fn backend_unavailable_spec(s: Shortcut, e: ShortcutErrorView) -> StatusView {
    StatusView {
        configured: shortcut_text(s),
        backend: None,
        capability: Some(IpcShortcutCapability::Unsupported),
        effective: None,
        state: StateView::Unavailable("global shortcut backend unavailable: "@ + error_text(e)),
    }
}

pub fn backend_unavailable_status(shortcut: Shortcut, error: &ShortcutError) -> (r:
    ShortcutStatusInfo)
    ensures
        r@ == backend_unavailable_spec(shortcut, error@),
{
    let mut reason = String::new();
    push_str(&mut reason, "global shortcut backend unavailable: ");
    let m = error.message();
    push_str(&mut reason, m.as_str());
    ShortcutStatusInfo {
        configured_shortcut: shortcut.to_string(),
        backend_name: None,
        capability: Some(IpcShortcutCapability::Unsupported),
        effective_shortcut: None,
        state: IpcShortcutState::Unavailable { reason },
    }
}

/// The effective trigger and state that a registration outcome reports.
/// For an active registration the effective trigger is what the backend
/// reports, or, for a native grab, the shortcut itself.
pub open spec fn outcome_report(
    s: Shortcut,
    o: OutcomeView,
    effective_trigger: Option<Seq<char>>,
    c: ShortcutBackendCapability,
) -> (Option<Seq<char>>, StateView) {
    match o {
        OutcomeView::Active(d) => (
            match effective_trigger {
                Some(t) => Some(t),
                None => if c == ShortcutBackendCapability::Native {
                    Some(shortcut_text(s))
                } else {
                    None
                },
            },
            StateView::Active(d),
        ),
        OutcomeView::CompositorManaged(snippet, verified, conflict, diagnostic) => (
            None,
            StateView::CompositorManaged(
                binding_status_spec(verified, conflict, diagnostic),
                snippet,
                conflict,
                diagnostic,
            ),
        ),
        OutcomeView::Conflict(d) => (None, StateView::Conflict(d)),
    }
}

/// The status after a successful registration: the shortcut, the effective
/// trigger and the state change; the backend and capability stay.
pub open spec fn status_after_outcome(
    old_status: StatusView,
    s: Shortcut,
    o: OutcomeView,
    effective_trigger: Option<Seq<char>>,
    c: ShortcutBackendCapability,
) -> StatusView {
    let (effective, state) = outcome_report(s, o, effective_trigger, c);
    StatusView {
        configured: shortcut_text(s),
        backend: old_status.backend,
        capability: old_status.capability,
        effective,
        state,
    }
}

/// Records a registration outcome in the status. `effective_trigger` is the
/// trigger the backend reports as effective, `capability` the backend's.
pub fn apply_outcome_to_status(
    status: &mut ShortcutStatusInfo,
    shortcut: Shortcut,
    outcome: &ShortcutRegistrationOutcome,
    effective_trigger: Option<String>,
    capability: ShortcutBackendCapability,
)
    ensures
        final(status)@ == status_after_outcome(
            old(status)@,
            shortcut,
            outcome@,
            opt_view(effective_trigger),
            capability,
        ),
{
    let (effective, state) = match outcome {
        ShortcutRegistrationOutcome::Active { description } => {
            let effective = match effective_trigger {
                Some(t) => Some(t),
                None => {
                    if capability == ShortcutBackendCapability::Native {
                        Some(shortcut.to_string())
                    } else {
                        None
                    }
                },
            };
            (effective, IpcShortcutState::Active { description: copy_string(description) })
        },
        ShortcutRegistrationOutcome::CompositorManaged {
            binding_snippet,
            verified,
            conflict,
            diagnostic,
        } => {
            let binding_status = binding_status_of(*verified, conflict, diagnostic);
            (
                None,
                IpcShortcutState::CompositorManaged {
                    binding_status,
                    snippet: copy_string(binding_snippet),
                    conflict: copy_opt_string(conflict),
                    diagnostic: copy_opt_string(diagnostic),
                },
            )
        },
        ShortcutRegistrationOutcome::Conflict { details } => (
            None,
            IpcShortcutState::Conflict { details: copy_string(details) },
        ),
    };
    status.configured_shortcut = shortcut.to_string();
    status.effective_shortcut = effective;
    status.state = state;
}

/// The state a failed registration reports.
pub open spec fn error_state(e: ShortcutErrorView) -> StateView {
    match e {
        ShortcutErrorView::Conflict(m) => StateView::Conflict(m),
        ShortcutErrorView::Unavailable => StateView::Unavailable(
            "global shortcuts are unavailable on this session"@,
        ),
        ShortcutErrorView::Cancelled => StateView::Failed(
            "shortcut registration was cancelled by user"@,
        ),
        ShortcutErrorView::TimedOut(m) => StateView::Failed("registration timed out: "@ + m),
        ShortcutErrorView::Failed(m) => StateView::Failed(m),
    }
}

/// The status after a failed registration.
pub open spec fn status_after_error(old_status: StatusView, s: Shortcut, e: ShortcutErrorView) -> StatusView {
    StatusView {
        configured: shortcut_text(s),
        backend: old_status.backend,
        capability: old_status.capability,
        effective: None,
        state: error_state(e),
    }
}

/// Records a registration error in the status.
pub fn apply_error_to_status(status: &mut ShortcutStatusInfo, shortcut: Shortcut, error: &ShortcutError)
    ensures
        final(status)@ == status_after_error(old(status)@, shortcut, error@),
{
    let state = match error {
        ShortcutError::Conflict(message) => IpcShortcutState::Conflict {
            details: copy_string(message),
        },
        ShortcutError::Unavailable => {
            let v = str_chars("global shortcuts are unavailable on this session");
            IpcShortcutState::Unavailable { reason: chars_to_string(&v) }
        },
        ShortcutError::Cancelled => {
            let v = str_chars("shortcut registration was cancelled by user");
            IpcShortcutState::Failed { error: chars_to_string(&v) }
        },
        ShortcutError::TimedOut(message) => {
            let mut e = String::new();
            push_str(&mut e, "registration timed out: ");
            push_str(&mut e, message.as_str());
            IpcShortcutState::Failed { error: e }
        },
        ShortcutError::Failed(message) => IpcShortcutState::Failed { error: copy_string(message) },
    };
    status.configured_shortcut = shortcut.to_string();
    status.effective_shortcut = None;
    status.state = state;
}

/// What the listener's worker does next.
#[derive(Debug, Clone, Copy, PartialEq, Eq, Structural)]
pub enum WorkerNext {
    /// Stop listening.
    Stop,
    /// Wait for a rebind (or shutdown) before listening again.
    AwaitRebind,
}

/// The state and next step after waiting for an activation failed.
pub open spec fn activation_failure(e: ShortcutErrorView) -> (StateView, WorkerNext) {
    match e {
        ShortcutErrorView::Unavailable => (
            StateView::Unavailable("global shortcuts became unavailable"@),
            WorkerNext::AwaitRebind,
        ),
        ShortcutErrorView::Cancelled => (
            StateView::Unavailable("global shortcut operation was cancelled"@),
            WorkerNext::Stop,
        ),
        _ => (StateView::Failed(error_text(e)), WorkerNext::AwaitRebind),
    }
}

/// Records that waiting for an activation failed and says what the worker
/// does next. Only the state changes.
pub fn apply_activation_error(status: &mut ShortcutStatusInfo, error: &ShortcutError) -> (r:
    WorkerNext)
    ensures
        (final(status)@.state, r) == activation_failure(error@),
        final(status)@.configured == old(status)@.configured,
        final(status)@.backend == old(status)@.backend,
        final(status)@.capability == old(status)@.capability,
        final(status)@.effective == old(status)@.effective,
{
    match error {
        ShortcutError::Unavailable => {
            let v = str_chars("global shortcuts became unavailable");
            status.state = IpcShortcutState::Unavailable { reason: chars_to_string(&v) };
            WorkerNext::AwaitRebind
        },
        ShortcutError::Cancelled => {
            let v = str_chars("global shortcut operation was cancelled");
            status.state = IpcShortcutState::Unavailable { reason: chars_to_string(&v) };
            WorkerNext::Stop
        },
        _ => {
            status.state = IpcShortcutState::Failed { error: error.message() };
            WorkerNext::AwaitRebind
        },
    }
}

/// Applies the result of a rebind: a new outcome updates the status, which is
/// returned; a failure leaves the running shortcut's status as it was.
pub fn apply_rebind_result(
    status: &mut ShortcutStatusInfo,
    shortcut: Shortcut,
    result: Result<ShortcutRegistrationOutcome, ShortcutError>,
    effective_trigger: Option<String>,
    capability: ShortcutBackendCapability,
) -> (r: Result<ShortcutStatusInfo, ShortcutError>)
    ensures
        match result {
            Ok(o) => {
                &&& final(status)@ == status_after_outcome(
                    old(status)@,
                    shortcut,
                    o@,
                    opt_view(effective_trigger),
                    capability,
                )
                &&& r matches Ok(s) && s@ == final(status)@
            },
            Err(e) => {
                &&& final(status)@ == old(status)@
                &&& r matches Err(e2) && e2@ == e@
            },
        },
{
    match result {
        Ok(outcome) => {
            apply_outcome_to_status(status, shortcut, &outcome, effective_trigger, capability);
            Ok(status.duplicate())
        },
        Err(e) => Err(e),
    }
}

} // verus!
