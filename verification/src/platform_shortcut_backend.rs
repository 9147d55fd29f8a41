//! Session classification for the shortcut backend.
use vstd::prelude::*;

use crate::environment::{normalize, normalized};
use crate::text::eq_str;

verus! {

#[derive(Debug, Clone, Copy, PartialEq, Eq, Structural)]
pub enum SessionType {
    X11,
    Wayland,
    Other,
}

pub open spec fn session_type_of(value: Seq<char>) -> SessionType {
    let l = normalized(value);
    if l == "x11"@ {
        SessionType::X11
    } else if l == "wayland"@ {
        SessionType::Wayland
    } else {
        SessionType::Other
    }
}

pub fn classify_session_type(value: &str) -> (r: SessionType)
    ensures
        r == session_type_of(value@),
{
    let l = normalize(value);
    if eq_str(&l, "x11") {
        SessionType::X11
    } else if eq_str(&l, "wayland") {
        SessionType::Wayland
    } else {
        SessionType::Other
    }
}

} // verus!
