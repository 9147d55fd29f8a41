//! The choice of focus backend for a session.
use vstd::prelude::*;

use crate::environment::{desktop_entry_chars, desktop_lists, entries_contain, normalize, normalized};
use crate::text::eq_str;

verus! {

#[derive(Debug, Clone, Copy, PartialEq, Eq, Structural)]
pub enum FocusBackendKind {
    X11,
    Kde,
    Unavailable,
}

/// X11 sessions restore focus through the X server; Wayland sessions only on
/// KDE (through KWin); everything else has no focus restoration.
pub open spec fn focus_kind_of(session_type: Seq<char>, current_desktop: Seq<char>) -> FocusBackendKind {
    let session = normalized(session_type);
    if session == "x11"@ {
        FocusBackendKind::X11
    } else if session != "wayland"@ {
        FocusBackendKind::Unavailable
    } else if desktop_lists(current_desktop, "kde"@) {
        FocusBackendKind::Kde
    } else {
        FocusBackendKind::Unavailable
    }
}

pub fn classify_environment(session_type: &str, current_desktop: &str) -> (r: FocusBackendKind)
    ensures
        r == focus_kind_of(session_type@, current_desktop@),
{
    let session = normalize(session_type);
    if eq_str(&session, "x11") {
        return FocusBackendKind::X11;
    }
    if !eq_str(&session, "wayland") {
        return FocusBackendKind::Unavailable;
    }
    let entries = desktop_entry_chars(current_desktop);
    if entries_contain(&entries, "kde") {
        FocusBackendKind::Kde
    } else {
        FocusBackendKind::Unavailable
    }
}

} // verus!
