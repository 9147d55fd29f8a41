//! The choice of platform backends from the environment audit. Each resolver
//! names the backend to set up; setting it up (connecting to the X server,
//! the compositor or a portal) is the caller's, and so is falling back when
//! that fails, as `*_fallback_on_error` says.
use vstd::prelude::*;

use crate::environment::{DesktopKind, EnvironmentAudit, SessionKind};

verus! {

/// The clipboard provider of a session.
#[derive(Debug, Clone, Copy, PartialEq, Eq, Structural)]
pub enum ClipboardBackendPlan {
    Wayland,
    X11,
}

impl ClipboardBackendPlan {
    /// The clipboard provider's name.
    pub fn name(&self) -> (r: &'static str)
        ensures
            r@ == match *self {
                ClipboardBackendPlan::X11 => "X11"@,
                ClipboardBackendPlan::Wayland => "Wayland"@,
            },
    {
        match self {
            ClipboardBackendPlan::X11 => "X11",
            ClipboardBackendPlan::Wayland => "Wayland",
        }
    }
}

/// Wayland sessions use the Wayland clipboard; every other session X11's.
pub fn resolve_clipboard_backend(audit: &EnvironmentAudit) -> (r: ClipboardBackendPlan)
    ensures
        r == (if audit.session == SessionKind::Wayland {
            ClipboardBackendPlan::Wayland
        } else {
            ClipboardBackendPlan::X11
        }),
{
    match audit.session {
        SessionKind::Wayland => ClipboardBackendPlan::Wayland,
        _ => ClipboardBackendPlan::X11,
    }
}

/// The focus backend of a session.
#[derive(Debug, Clone, Copy, PartialEq, Eq, Structural)]
pub enum FocusBackendPlan {
    X11,
    Kde,
    Sway,
    Hyprland,
    Unavailable,
}

impl FocusBackendPlan {
    /// Whether the backend restores focus (every backend but the unavailable
    /// one); direct paste on Wayland needs it.
    pub fn can_restore_focus(&self) -> (r: bool)
        ensures
            r == (*self != FocusBackendPlan::Unavailable),
    {
        match self {
            FocusBackendPlan::Unavailable => false,
            _ => true,
        }
    }
}

/// X11 sessions restore focus through the X server; on Wayland, KDE through
/// KWin, otherwise Sway when `SWAYSOCK` is set, else Hyprland when
/// `HYPRLAND_INSTANCE_SIGNATURE` is set; anything else has no focus
/// restoration.
pub open spec fn focus_plan_spec(audit: EnvironmentAudit, swaysock_set: bool, hyprland_set: bool) -> FocusBackendPlan {
    match audit.session {
        SessionKind::X11 => FocusBackendPlan::X11,
        SessionKind::Wayland => if audit.desktop == DesktopKind::Kde {
            FocusBackendPlan::Kde
        } else if swaysock_set {
            FocusBackendPlan::Sway
        } else if hyprland_set {
            FocusBackendPlan::Hyprland
        } else {
            FocusBackendPlan::Unavailable
        },
        SessionKind::Unknown => FocusBackendPlan::Unavailable,
    }
}

pub fn resolve_focus_backend(audit: &EnvironmentAudit, swaysock_set: bool, hyprland_set: bool) -> (r:
    FocusBackendPlan)
    ensures
        r == focus_plan_spec(*audit, swaysock_set, hyprland_set),
{
    match audit.session {
        SessionKind::X11 => FocusBackendPlan::X11,
        SessionKind::Wayland => {
            if audit.desktop == DesktopKind::Kde {
                FocusBackendPlan::Kde
            } else if swaysock_set {
                FocusBackendPlan::Sway
            } else if hyprland_set {
                FocusBackendPlan::Hyprland
            } else {
                FocusBackendPlan::Unavailable
            }
        },
        SessionKind::Unknown => FocusBackendPlan::Unavailable,
    }
}

/// Whether a focus backend that cannot be set up gives way to the backend
/// without focus restoration (the X11 backend's error is passed on instead).
pub fn focus_fallback_on_error(plan: FocusBackendPlan) -> (r: bool)
    ensures
        r == (plan != FocusBackendPlan::X11),
{
    match plan {
        FocusBackendPlan::X11 => false,
        _ => true,
    }
}

/// The paste backend of a session.
#[derive(Debug, Clone, Copy, PartialEq, Eq, Structural)]
pub enum PasteBackendPlan {
    /// XTEST through the X server.
    X11,
    /// The remote-desktop portal and libei (KDE).
    WaylandDirect,
    /// A wlroots virtual keyboard (Sway, Hyprland).
    WaylandWlroots,
    /// Clipboard update only; the user pastes.
    WaylandFallback,
}

/// X11 pastes through XTEST. On Wayland, direct paste needs focus restoration
/// (`allow_wayland_direct`); KDE then pastes through the portal, Sway and
/// Hyprland through a virtual keyboard, and other compositors only update the
/// clipboard. Unknown sessions only update the clipboard.
pub open spec fn paste_plan_spec(
    audit: EnvironmentAudit,
    allow_wayland_direct: bool,
    is_sway: bool,
    is_hyprland: bool,
) -> PasteBackendPlan {
    match audit.session {
        SessionKind::X11 => PasteBackendPlan::X11,
        SessionKind::Wayland => if !allow_wayland_direct {
            PasteBackendPlan::WaylandFallback
        } else if audit.desktop == DesktopKind::Kde {
            PasteBackendPlan::WaylandDirect
        } else if is_sway || is_hyprland {
            PasteBackendPlan::WaylandWlroots
        } else {
            PasteBackendPlan::WaylandFallback
        },
        SessionKind::Unknown => PasteBackendPlan::WaylandFallback,
    }
}

pub fn resolve_paste_backend(
    audit: &EnvironmentAudit,
    allow_wayland_direct: bool,
    is_sway: bool,
    is_hyprland: bool,
) -> (r: PasteBackendPlan)
    ensures
        r == paste_plan_spec(*audit, allow_wayland_direct, is_sway, is_hyprland),
{
    match audit.session {
        SessionKind::X11 => PasteBackendPlan::X11,
        SessionKind::Wayland => {
            if !allow_wayland_direct {
                return PasteBackendPlan::WaylandFallback;
            }
            if audit.desktop == DesktopKind::Kde {
                PasteBackendPlan::WaylandDirect
            } else if is_sway || is_hyprland {
                PasteBackendPlan::WaylandWlroots
            } else {
                PasteBackendPlan::WaylandFallback
            }
        },
        SessionKind::Unknown => PasteBackendPlan::WaylandFallback,
    }
}

/// Whether a paste backend that cannot be set up gives way to the
/// clipboard-only backend (the X11 backend's error is passed on instead).
pub fn paste_fallback_on_error(plan: PasteBackendPlan) -> (r: bool)
    ensures
        r == (plan != PasteBackendPlan::X11),
{
    match plan {
        PasteBackendPlan::X11 => false,
        _ => true,
    }
}

/// The global shortcut backend of a session.
#[derive(Debug, Clone, Copy, PartialEq, Eq, Structural)]
pub enum ShortcutBackendPlan {
    X11,
    Wayland,
    Unavailable,
}

/// X11 grabs on the root window, Wayland goes through the portal, and other
/// sessions have no global shortcut; setting up a backend that fails is an
/// error.
pub fn resolve_shortcut_backend(audit: &EnvironmentAudit) -> (r: ShortcutBackendPlan)
    ensures
        r == match audit.session {
            SessionKind::X11 => ShortcutBackendPlan::X11,
            SessionKind::Wayland => ShortcutBackendPlan::Wayland,
            SessionKind::Unknown => ShortcutBackendPlan::Unavailable,
        },
{
    match audit.session {
        SessionKind::X11 => ShortcutBackendPlan::X11,
        SessionKind::Wayland => ShortcutBackendPlan::Wayland,
        SessionKind::Unknown => ShortcutBackendPlan::Unavailable,
    }
}

/// A compositor that manages the shortcut through its own configuration.
#[derive(Debug, Clone, Copy, PartialEq, Eq, Structural)]
pub enum CompositorShortcutPlan {
    Sway,
    Hyprland,
}

/// The compositor that manages the shortcut, as the focus backend picks it:
/// on Wayland, Sway when `SWAYSOCK` is set, else Hyprland when
/// `HYPRLAND_INSTANCE_SIGNATURE` is set; none elsewhere.
pub fn resolve_compositor_shortcut_backend(
    audit: &EnvironmentAudit,
    swaysock_set: bool,
    hyprland_set: bool,
) -> (r: Option<CompositorShortcutPlan>)
    ensures
        r == (if audit.session != SessionKind::Wayland {
            None
        } else if swaysock_set {
            Some(CompositorShortcutPlan::Sway)
        } else if hyprland_set {
            Some(CompositorShortcutPlan::Hyprland)
        } else {
            None
        }),
{
    match audit.session {
        SessionKind::Wayland => {
            if swaysock_set {
                Some(CompositorShortcutPlan::Sway)
            } else if hyprland_set {
                Some(CompositorShortcutPlan::Hyprland)
            } else {
                None
            }
        },
        _ => None,
    }
}

/// Without focus restoration a Wayland session never pastes directly: it only
/// updates the clipboard, whatever its compositor.
pub proof fn lemma_no_direct_paste_without_focus(audit: EnvironmentAudit, is_sway: bool, is_hyprland: bool)
    requires
        audit.session == SessionKind::Wayland,
    ensures
        paste_plan_spec(audit, false, is_sway, is_hyprland) == PasteBackendPlan::WaylandFallback,
{
}


/// With focus restoration, a Wayland session outside KDE pastes through the
/// virtual keyboard whenever Sway or Hyprland is running, and only updates the
/// clipboard under any other compositor.
pub proof fn lemma_wlroots_compositors_paste_directly(
    audit: EnvironmentAudit,
    is_sway: bool,
    is_hyprland: bool,
)
    requires
        audit.session == SessionKind::Wayland,
        audit.desktop != DesktopKind::Kde,
    ensures
        (paste_plan_spec(audit, true, is_sway, is_hyprland) == PasteBackendPlan::WaylandWlroots)
            == (is_sway || is_hyprland),
        !(is_sway || is_hyprland) ==> paste_plan_spec(audit, true, is_sway, is_hyprland)
            == PasteBackendPlan::WaylandFallback,
{
}

/// Sway and Hyprland are treated alike: in every session, with or without
/// focus restoration, a running Hyprland selects the same paste method as a
/// running Sway.
pub proof fn lemma_sway_and_hyprland_paste_alike(audit: EnvironmentAudit, allow_wayland_direct: bool)
    ensures
        paste_plan_spec(audit, allow_wayland_direct, false, true) == paste_plan_spec(
            audit,
            allow_wayland_direct,
            true,
            false,
        ),
{
}

} // verus!
