//! Desktop session and environment capability auditing.
use vstd::prelude::*;

use crate::text::{
    chars_to_string, eq_str, lower, one_of, split_on, split_when, str_chars, to_ascii_lowercase,
    trim, trim_chars, views,
};

verus! {

#[derive(Debug, Clone, Copy, PartialEq, Eq, Structural)]
pub enum SessionKind {
    X11,
    Wayland,
    Unknown,
}

#[derive(Debug, Clone, Copy, PartialEq, Eq, Structural)]
pub enum DesktopKind {
    Kde,
    Gnome,
    Wlroots,
    Other,
}

#[derive(Debug, Clone, PartialEq, Eq)]
pub struct EnvironmentAudit {
    pub session: SessionKind,
    pub desktop: DesktopKind,
    pub raw_session: String,
    pub raw_desktop: String,
}

/// The normalised (trimmed, ASCII lower-cased) form of an environment value.
pub open spec fn normalized(s: Seq<char>) -> Seq<char> {
    lower(trim(s))
}

/// The session kind that `XDG_SESSION_TYPE` names.
pub open spec fn session_kind_of(raw: Seq<char>) -> SessionKind {
    let l = normalized(raw);
    if l == "x11"@ {
        SessionKind::X11
    } else if l == "wayland"@ {
        SessionKind::Wayland
    } else {
        SessionKind::Unknown
    }
}

/// The entries of a desktop list such as `XDG_CURRENT_DESKTOP`: the normalised
/// value split at `:` and `;`.
pub open spec fn desktop_entries(raw: Seq<char>) -> Seq<Seq<char>> {
    split_when(normalized(raw), one_of(seq![':', ';']))
}

/// Some entry of the desktop list, trimmed, is `name`.
pub open spec fn desktop_lists(raw: Seq<char>, name: Seq<char>) -> bool {
    exists|i: int| 0 <= i < desktop_entries(raw).len() && trim(#[trigger] desktop_entries(raw)[i]) == name
}

/// The desktop family that `XDG_CURRENT_DESKTOP` names, KDE first, then GNOME,
/// then the wlroots-style compositors.
pub open spec fn desktop_kind_of(raw: Seq<char>) -> DesktopKind {
    if desktop_lists(raw, "kde"@) {
        DesktopKind::Kde
    } else if desktop_lists(raw, "gnome"@) {
        DesktopKind::Gnome
    } else if desktop_lists(raw, "sway"@) || desktop_lists(raw, "wlroots"@) || desktop_lists(
        raw,
        "hyprland"@,
    ) || desktop_lists(raw, "river"@) {
        DesktopKind::Wlroots
    } else {
        DesktopKind::Other
    }
}

/// KDE is recognised first and GNOME second; otherwise a desktop list naming
/// any of the wlroots-style compositors (Sway, wlroots, Hyprland, river) is the
/// wlroots family, and the wlroots family is recognised only from such a name.
pub proof fn lemma_wlroots_compositors_detected(raw: Seq<char>)
    ensures
        desktop_lists(raw, "kde"@) ==> desktop_kind_of(raw) == DesktopKind::Kde,
        !desktop_lists(raw, "kde"@) && desktop_lists(raw, "gnome"@) ==> desktop_kind_of(raw)
            == DesktopKind::Gnome,
        !desktop_lists(raw, "kde"@) && !desktop_lists(raw, "gnome"@) ==> {
            &&& desktop_lists(raw, "sway"@) ==> desktop_kind_of(raw) == DesktopKind::Wlroots
            &&& desktop_lists(raw, "wlroots"@) ==> desktop_kind_of(raw) == DesktopKind::Wlroots
            &&& desktop_lists(raw, "hyprland"@) ==> desktop_kind_of(raw) == DesktopKind::Wlroots
            &&& desktop_lists(raw, "river"@) ==> desktop_kind_of(raw) == DesktopKind::Wlroots
        },
        desktop_kind_of(raw) == DesktopKind::Wlroots ==> desktop_lists(raw, "sway"@)
            || desktop_lists(raw, "wlroots"@) || desktop_lists(raw, "hyprland"@) || desktop_lists(
            raw,
            "river"@,
        ),
{
}

/// The normalised value of an environment variable.
pub fn normalize(raw: &str) -> (r: Vec<char>)
    ensures
        r@ == normalized(raw@),
{
    let chars = str_chars(raw);
    let t = trim_chars(&chars);
    to_ascii_lowercase(&t)
}

/// The entries of a desktop list.
pub fn desktop_entry_chars(raw: &str) -> (r: Vec<Vec<char>>)
    ensures
        views(r@) == desktop_entries(raw@),
{
    let n = normalize(raw);
    let seps = vec![':', ';'];
    assert(seps@ == seq![':', ';']);
    split_on(&n, &seps)
}

/// Whether some entry, trimmed, is `name`.
pub fn entries_contain(entries: &Vec<Vec<char>>, name: &str) -> (r: bool)
    ensures
        r == exists|i: int| 0 <= i < entries@.len() && trim(#[trigger] views(entries@)[i]) == name@,
{
    for i in 0..entries.len()
        invariant
            forall|j: int| 0 <= j < i ==> trim(#[trigger] views(entries@)[j]) != name@,
    {
        let t = trim_chars(&entries[i]);
        if eq_str(&t, name) {
            assert(trim(views(entries@)[i as int]) == name@);
            return true;
        }
    }
    false
}

/// Classifies `XDG_SESSION_TYPE`.
pub fn session_kind(raw_session: &str) -> (r: SessionKind)
    ensures
        r == session_kind_of(raw_session@),
{
    let l = normalize(raw_session);
    if eq_str(&l, "x11") {
        SessionKind::X11
    } else if eq_str(&l, "wayland") {
        SessionKind::Wayland
    } else {
        SessionKind::Unknown
    }
}

/// Classifies `XDG_CURRENT_DESKTOP`.
pub fn desktop_kind(raw_desktop: &str) -> (r: DesktopKind)
    ensures
        r == desktop_kind_of(raw_desktop@),
{
    let entries = desktop_entry_chars(raw_desktop);
    if entries_contain(&entries, "kde") {
        DesktopKind::Kde
    } else if entries_contain(&entries, "gnome") {
        DesktopKind::Gnome
    } else if entries_contain(&entries, "sway") || entries_contain(&entries, "wlroots")
        || entries_contain(&entries, "hyprland") || entries_contain(&entries, "river") {
        DesktopKind::Wlroots
    } else {
        DesktopKind::Other
    }
}

impl EnvironmentAudit {
    /// Audits the session from the values of `XDG_SESSION_TYPE` and
    /// `XDG_CURRENT_DESKTOP`.
    pub fn from_env(raw_session: &str, raw_desktop: &str) -> (r: Self)
        ensures
            r.session == session_kind_of(raw_session@),
            r.desktop == desktop_kind_of(raw_desktop@),
            r.raw_session@ == raw_session@,
            r.raw_desktop@ == raw_desktop@,
    {
        let session = session_kind(raw_session);
        let desktop = desktop_kind(raw_desktop);
        let rs = str_chars(raw_session);
        let rd = str_chars(raw_desktop);
        EnvironmentAudit {
            session,
            desktop,
            raw_session: chars_to_string(&rs),
            raw_desktop: chars_to_string(&rd),
        }
    }
}

} // verus!
