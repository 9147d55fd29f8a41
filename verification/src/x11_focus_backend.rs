//! Focus on X11: the active window from `_NET_ACTIVE_WINDOW` on the root
//! window, and the window a focus target names.
use vstd::prelude::*;

use crate::focus_backend::{
    target_text, wrong_target_error, FocusError, FocusErrorView, FocusTarget, TargetView,
};
use crate::text::{append_chars, chars_to_string, chars_eq, decimal, str_chars};
use crate::focus_backend::decimal_u64;

verus! {

/// The active window read from the root window's `_NET_ACTIVE_WINDOW`
/// property, given its 32-bit values (none when the property has another
/// format): the first value, unless there is none or it is 0 (no window).
pub fn x11_active_target(values: Option<Vec<u32>>) -> (r: Result<FocusTarget, FocusError>)
    ensures
        match values {
            Some(v) => if v@.len() > 0 && v@[0] != 0 {
                r matches Ok(t) && t@ == TargetView::X11(v@[0] as u64)
            } else {
                r matches Err(FocusError::Unavailable)
            },
            None => r matches Err(FocusError::Unavailable),
        },
{
    match values {
        None => Err(FocusError::Unavailable),
        Some(v) => {
            if v.len() == 0 {
                return Err(FocusError::Unavailable);
            }
            let window = v[0];
            if window == 0 {
                return Err(FocusError::Unavailable);
            }
            Ok(FocusTarget::X11(window as u64))
        },
    }
}

/// The X11 window a target names: its id, which must fit in 32 bits.
pub fn x11_target_window(target: &FocusTarget) -> (r: Result<u32, FocusError>)
    ensures
        match target@ {
            TargetView::X11(id) => if id <= u32::MAX {
                r == Ok::<u32, FocusError>(id as u32)
            } else {
                r matches Err(e) && e@ == FocusErrorView::Failed(
                    "invalid X11 window ID: "@ + decimal(id as nat),
                )
            },
            _ => r matches Err(e) && e@ == FocusErrorView::Failed(
                "expected X11 focus target, got "@ + target_text(target@),
            ),
        },
{
    match target {
        FocusTarget::X11(id) => {
            if *id <= 0xffff_ffffu64 {
                Ok(*id as u32)
            } else {
                let mut m = str_chars("invalid X11 window ID: ");
                let d = decimal_u64(*id);
                append_chars(&mut m, &d);
                Err(FocusError::Failed(chars_to_string(&m)))
            }
        },
        _ => Err(wrong_target_error("expected X11 focus target, got ", target)),
    }
}

/// Whether two focus targets are the same window.
pub fn same_target(a: &FocusTarget, b: &FocusTarget) -> (r: bool)
    ensures
        r == (a@ == b@),
{
    match (a, b) {
        (FocusTarget::X11(x), FocusTarget::X11(y)) => *x == *y,
        (FocusTarget::Kde(x), FocusTarget::Kde(y)) => *x == *y,
        (FocusTarget::Sway(x), FocusTarget::Sway(y)) => *x == *y,
        (FocusTarget::Hyprland(x), FocusTarget::Hyprland(y)) => {
            let xs = str_chars(x.as_str());
            let ys = str_chars(y.as_str());
            chars_eq(&xs, &ys)
        },
        _ => false,
    }
}

/// Whether the target is active, from reading the active window: no active
/// window means it is not; another error is passed on.
pub fn x11_is_active(active: Result<FocusTarget, FocusError>, target: &FocusTarget) -> (r: Result<
    bool,
    FocusError,
>)
    ensures
        match active {
            Ok(a) => r == Ok::<bool, FocusError>(a@ == target@),
            Err(FocusError::Unavailable) => r == Ok::<bool, FocusError>(false),
            Err(e) => r matches Err(e2) && e2@ == e@,
        },
{
    match active {
        Ok(a) => Ok(same_target(&a, target)),
        Err(FocusError::Unavailable) => Ok(false),
        Err(e) => Err(e),
    }
}

} // verus!
