//! Paste capabilities and the choice of paste backend for a session.
use vstd::prelude::*;

use crate::environment::normalized;
use crate::environment::normalize;
use crate::text::eq_str;

verus! {

#[derive(Debug, Clone, Copy, PartialEq, Eq, Structural)]
pub enum PasteCapability {
    Direct,
    ClipboardOnly,
}

#[derive(Debug)]
pub enum PasteError {
    Unavailable,
    Failed(String),
}

/// A way of pasting into the focused window.
pub trait PasteBackend {
    fn capability(&self) -> PasteCapability;

    fn paste(&self) -> Result<(), PasteError>;

    /// Releases what the backend holds; most backends hold nothing.
    fn shutdown(&self) {
    }
}

#[derive(Debug, Clone, Copy, PartialEq, Eq, Structural)]
pub enum PasteBackendKind {
    X11,
    Wayland,
    Unknown,
}

pub open spec fn paste_kind_of(session_type: Seq<char>) -> PasteBackendKind {
    let l = normalized(session_type);
    if l == "x11"@ {
        PasteBackendKind::X11
    } else if l == "wayland"@ {
        PasteBackendKind::Wayland
    } else {
        PasteBackendKind::Unknown
    }
}

/// Classifies `XDG_SESSION_TYPE` for paste, ignoring case and surrounding whitespace.
pub fn classify_session_type(session_type: &str) -> (r: PasteBackendKind)
    ensures
        r == paste_kind_of(session_type@),
{
    let l = normalize(session_type);
    if eq_str(&l, "x11") {
        PasteBackendKind::X11
    } else if eq_str(&l, "wayland") {
        PasteBackendKind::Wayland
    } else {
        PasteBackendKind::Unknown
    }
}

/// Which paste backend a session gets.
#[derive(Debug, Clone, Copy, PartialEq, Eq, Structural)]
pub enum PasteBackendChoice {
    /// Direct paste through the X server.
    X11,
    /// Direct paste through the remote-desktop portal and libei.
    WaylandDirect,
    /// Clipboard update only; the user pastes.
    WaylandFallback,
}

/// The paste backend for a session kind: X11 pastes directly; Wayland pastes
/// directly only when focus can be restored and the portal session could be
/// set up; every other session is clipboard-only.
pub open spec fn paste_choice_spec(
    kind: PasteBackendKind,
    allow_wayland_direct: bool,
    portal_available: bool,
) -> PasteBackendChoice {
    match kind {
        PasteBackendKind::X11 => PasteBackendChoice::X11,
        PasteBackendKind::Wayland => if allow_wayland_direct && portal_available {
            PasteBackendChoice::WaylandDirect
        } else {
            PasteBackendChoice::WaylandFallback
        },
        PasteBackendKind::Unknown => PasteBackendChoice::WaylandFallback,
    }
}

/// Chooses the paste backend; `portal_available` is whether the portal/EIS
/// session could be started (only consulted for Wayland with direct paste allowed).
pub fn choose_paste_backend(
    kind: PasteBackendKind,
    allow_wayland_direct: bool,
    portal_available: bool,
) -> (r: PasteBackendChoice)
    ensures
        r == paste_choice_spec(kind, allow_wayland_direct, portal_available),
{
    match kind {
        PasteBackendKind::X11 => PasteBackendChoice::X11,
        PasteBackendKind::Wayland => {
            if !allow_wayland_direct {
                PasteBackendChoice::WaylandFallback
            } else if portal_available {
                PasteBackendChoice::WaylandDirect
            } else {
                PasteBackendChoice::WaylandFallback
            }
        },
        PasteBackendKind::Unknown => PasteBackendChoice::WaylandFallback,
    }
}

/// Clipboard-only paste backend: the clipboard is updated and the user pastes.
#[derive(Debug, Default)]
pub struct WaylandPasteBackend;

impl WaylandPasteBackend {
    pub fn new() -> (r: Self) {
        WaylandPasteBackend
    }

    pub fn capability(&self) -> (r: PasteCapability)
        ensures
            r == PasteCapability::ClipboardOnly,
    {
        PasteCapability::ClipboardOnly
    }

    pub fn paste(&self) -> (r: Result<(), PasteError>)
        ensures
            r matches Err(PasteError::Unavailable),
    {
        Err(PasteError::Unavailable)
    }
}

impl PasteBackend for WaylandPasteBackend {
    fn capability(&self) -> (r: PasteCapability)
        ensures
            r == PasteCapability::ClipboardOnly,
    {
        PasteCapability::ClipboardOnly
    }

    fn paste(&self) -> (r: Result<(), PasteError>)
        ensures
            r matches Err(PasteError::Unavailable),
    {
        Err(PasteError::Unavailable)
    }
}

} // verus!
