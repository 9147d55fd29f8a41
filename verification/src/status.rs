//! The shortcut status that the daemon reports to its clients.
use vstd::prelude::*;

use crate::shortcut_backend::opt_view;

verus! {

/// The mechanism behind the global shortcut, as reported to clients.
#[derive(Debug, Clone, Copy, PartialEq, Eq, Structural)]
pub enum IpcShortcutCapability {
    Native,
    Portal,
    CompositorManaged,
    Unsupported,
}

/// How far a compositor-managed binding could be confirmed.
#[derive(Debug, Clone, Copy, PartialEq, Eq, Structural)]
pub enum IpcCompositorBindingStatus {
    /// Bound in the running compositor to `pookie-paste --toggle`.
    Verified,
    /// Bound, but what it runs could not be confirmed.
    BoundUnverified,
    /// No binding found.
    Unconfigured,
    /// Bound to something else.
    Conflict,
}

/// The runtime state of the global shortcut.
#[derive(Debug, Clone)]
pub enum IpcShortcutState {
    Initializing,
    Active { description: String },
    CompositorManaged {
        binding_status: IpcCompositorBindingStatus,
        snippet: String,
        conflict: Option<String>,
        diagnostic: Option<String>,
    },
    Conflict { details: String },
    Unavailable { reason: String },
    Failed { error: String },
}

/// The full shortcut status.
#[derive(Debug, Clone)]
pub struct ShortcutStatusInfo {
    pub configured_shortcut: String,
    pub backend_name: Option<String>,
    pub capability: Option<IpcShortcutCapability>,
    pub effective_shortcut: Option<String>,
    pub state: IpcShortcutState,
}

/// A shortcut state by its text.
pub enum StateView {
    Initializing,
    Active(Seq<char>),
    CompositorManaged(IpcCompositorBindingStatus, Seq<char>, Option<Seq<char>>, Option<Seq<char>>),
    Conflict(Seq<char>),
    Unavailable(Seq<char>),
    Failed(Seq<char>),
}

impl View for IpcShortcutState {
    type V = StateView;

    open spec fn view(&self) -> StateView {
        match self {
            IpcShortcutState::Initializing => StateView::Initializing,
            IpcShortcutState::Active { description } => StateView::Active(description@),
            IpcShortcutState::CompositorManaged { binding_status, snippet, conflict, diagnostic } =>
                StateView::CompositorManaged(
                *binding_status,
                snippet@,
                opt_view(*conflict),
                opt_view(*diagnostic),
            ),
            IpcShortcutState::Conflict { details } => StateView::Conflict(details@),
            IpcShortcutState::Unavailable { reason } => StateView::Unavailable(reason@),
            IpcShortcutState::Failed { error } => StateView::Failed(error@),
        }
    }
}

/// A status by its text.
pub struct StatusView {
    pub configured: Seq<char>,
    pub backend: Option<Seq<char>>,
    pub capability: Option<IpcShortcutCapability>,
    pub effective: Option<Seq<char>>,
    pub state: StateView,
}

impl View for ShortcutStatusInfo {
    type V = StatusView;

    open spec fn view(&self) -> StatusView {
        StatusView {
            configured: self.configured_shortcut@,
            backend: opt_view(self.backend_name),
            capability: self.capability,
            effective: opt_view(self.effective_shortcut),
            state: self.state@,
        }
    }
}

pub fn copy_string(s: &String) -> (r: String)
    ensures
        r@ == s@,
{
    s.clone()
}

pub fn copy_opt_string(o: &Option<String>) -> (r: Option<String>)
    ensures
        opt_view(r) == opt_view(*o),
{
    match o {
        Some(s) => Some(s.clone()),
        None => None,
    }
}

impl IpcShortcutState {
    /// A copy with the same text.
    pub fn duplicate(&self) -> (r: Self)
        ensures
            r@ == self@,
    {
        match self {
            IpcShortcutState::Initializing => IpcShortcutState::Initializing,
            IpcShortcutState::Active { description } => IpcShortcutState::Active {
                description: copy_string(description),
            },
            IpcShortcutState::CompositorManaged { binding_status, snippet, conflict, diagnostic } =>
                IpcShortcutState::CompositorManaged {
                binding_status: *binding_status,
                snippet: copy_string(snippet),
                conflict: copy_opt_string(conflict),
                diagnostic: copy_opt_string(diagnostic),
            },
            IpcShortcutState::Conflict { details } => IpcShortcutState::Conflict {
                details: copy_string(details),
            },
            IpcShortcutState::Unavailable { reason } => IpcShortcutState::Unavailable {
                reason: copy_string(reason),
            },
            IpcShortcutState::Failed { error } => IpcShortcutState::Failed {
                error: copy_string(error),
            },
        }
    }
}

impl ShortcutStatusInfo {
    /// A copy with the same text.
    pub fn duplicate(&self) -> (r: Self)
        ensures
            r@ == self@,
    {
        ShortcutStatusInfo {
            configured_shortcut: copy_string(&self.configured_shortcut),
            backend_name: copy_opt_string(&self.backend_name),
            capability: self.capability,
            effective_shortcut: copy_opt_string(&self.effective_shortcut),
            state: self.state.duplicate(),
        }
    }
}

} // verus!
