//! Focus on Hyprland: the active window's address from `j/activewindow`, and
//! the dispatcher command that focuses a window again.
use vstd::prelude::*;

use crate::focus_backend::{
    target_text, wrong_target_error, FocusError, FocusErrorView, FocusTarget, TargetView,
};
use crate::shortcut_backend::opt_view;
use crate::text::{append_str, chars_to_string, eq_ic, eq_ignore_case, eq_ignore_case_str, eq_str, str_chars, trim, trim_chars};

verus! {

/// What `serde_json` reads from a text: the string value of the top-level
/// object's field, if the text is JSON and the field holds a string.
pub uninterp spec fn json_string_field(text: Seq<char>, field: Seq<char>) -> Option<Seq<char>>;

/// `serde_json::from_str::<serde_json::Value>`, then `get(field)` and
/// `as_str()`: the field's string value, or nothing when the text is not JSON,
/// lacks the field or the field is not a string.
#[verifier::external_body]
fn json_str_field(text: &str, field: &str) -> (r: Option<String>)
    ensures
        opt_view(r) == json_string_field(text@, field@),
{
    match serde_json::from_str::<serde_json::Value>(text) {
        Ok(v) => match v.get(field) {
            Some(x) => match x.as_str() {
                Some(s) => Some(s.to_string()),
                None => None,
            },
            None => None,
        },
        Err(_) => None,
    }
}

/// The active window's address in a `j/activewindow` reply: none for an
/// empty reply, a reply without an address, or a blank or null address.
pub open spec fn active_address(response: Seq<char>) -> Option<Seq<char>> {
    let t = trim(response);
    if t.len() == 0 {
        None
    } else {
        match json_string_field(t, "address"@) {
            Some(a) => {
                let a = trim(a);
                if a.len() == 0 || a == "0x"@ || a == "0x0"@ {
                    None
                } else {
                    Some(a)
                }
            },
            None => None,
        }
    }
}

/// Parses the active window address from Hyprland's `j/activewindow` reply.
pub fn parse_active_window_address(response: &str) -> (r: Option<String>)
    ensures
        opt_view(r) == active_address(response@),
{
    let c = str_chars(response);
    let t = trim_chars(&c);
    if t.len() == 0 {
        return None;
    }
    let ts = chars_to_string(&t);
    match json_str_field(ts.as_str(), "address") {
        Some(a) => {
            let ac = str_chars(a.as_str());
            let a = trim_chars(&ac);
            if a.len() == 0 || eq_str(&a, "0x") || eq_str(&a, "0x0") {
                None
            } else {
                Some(chars_to_string(&a))
            }
        },
        None => None,
    }
}

/// The dispatcher command that focuses a window.
pub open spec fn focus_dispatch_text(address: Seq<char>) -> Seq<char> {
    "dispatch hl.dsp.focus({ window = \"address:"@ + address + "\" })"@
}

/// Whether the focus command succeeded: Hyprland answers `ok`.
pub open spec fn dispatch_outcome(response: Seq<char>) -> Result<(), Seq<char>> {
    let t = trim(response);
    if eq_ic(t, "ok"@) {
        Ok(())
    } else {
        Err(
            "Hyprland focus command failed: "@ + if t.len() == 0 {
                "unknown error"@
            } else {
                t
            },
        )
    }
}

#[derive(Debug, Clone)]
pub struct HyprlandFocusBackend {
    socket_path: String,
}

impl HyprlandFocusBackend {
    pub closed spec fn socket_path_spec(&self) -> Seq<char> {
        self.socket_path@
    }

    /// A backend talking to the given command socket.
    pub fn from_path(socket_path: String) -> (r: Self)
        ensures
            r.socket_path_spec() == socket_path@,
    {
        HyprlandFocusBackend { socket_path }
    }

    pub fn socket_path(&self) -> (r: &str)
        ensures
            r@ == self.socket_path_spec(),
    {
        self.socket_path.as_str()
    }

    pub fn name(&self) -> (r: &'static str)
        ensures
            r@ == "Hyprland focus"@,
    {
        "Hyprland focus"
    }

    /// The address of a Hyprland target; any other target is refused.
    pub fn target_address(&self, target: &FocusTarget) -> (r: Result<String, FocusError>)
        ensures
            match target@ {
                TargetView::Hyprland(a) => r matches Ok(s) && s@ == a,
                _ => r matches Err(e) && e@ == FocusErrorView::Failed(
                    "expected Hyprland focus target, got "@ + target_text(target@),
                ),
            },
    {
        match target {
            FocusTarget::Hyprland(a) => Ok(a.clone()),
            _ => Err(wrong_target_error("expected Hyprland focus target, got ", target)),
        }
    }

    /// The command that gives focus back to a target.
    pub fn restore_command(&self, target: &FocusTarget) -> (r: Result<String, FocusError>)
        ensures
            match target@ {
                TargetView::Hyprland(a) => r matches Ok(c) && c@ == focus_dispatch_text(a),
                _ => r matches Err(e) && e@ == FocusErrorView::Failed(
                    "expected Hyprland focus target, got "@ + target_text(target@),
                ),
            },
    {
        let address = self.target_address(target)?;
        let mut c = str_chars("dispatch hl.dsp.focus({ window = \"address:");
        append_str(&mut c, address.as_str());
        append_str(&mut c, "\" })");
        Ok(chars_to_string(&c))
    }

    /// Reads Hyprland's answer to the focus command.
    pub fn restore_result(&self, response: &str) -> (r: Result<(), FocusError>)
        ensures
            match dispatch_outcome(response@) {
                Ok(()) => r is Ok,
                Err(m) => r matches Err(e) && e@ == FocusErrorView::Failed(m),
            },
    {
        let c = str_chars(response);
        let t = trim_chars(&c);
        if eq_ignore_case_str(&t, "ok") {
            return Ok(());
        }
        let mut m = str_chars("Hyprland focus command failed: ");
        if t.len() == 0 {
            append_str(&mut m, "unknown error");
        } else {
            let ts = chars_to_string(&t);
            append_str(&mut m, ts.as_str());
        }
        Err(FocusError::Failed(chars_to_string(&m)))
    }

    /// Whether the target is the active window of a `j/activewindow` reply
    /// (addresses compare without regard to ASCII case).
    pub fn is_active_in(&self, target: &FocusTarget, response: &str) -> (r: Result<bool, FocusError>)
        ensures
            match target@ {
                TargetView::Hyprland(a) => r == Ok::<bool, FocusError>(
                    match active_address(response@) {
                        Some(active) => eq_ic(active, a),
                        None => false,
                    },
                ),
                _ => r matches Err(e) && e@ == FocusErrorView::Failed(
                    "expected Hyprland focus target, got "@ + target_text(target@),
                ),
            },
    {
        let address = self.target_address(target)?;
        match parse_active_window_address(response) {
            Some(active) => {
                let a = str_chars(active.as_str());
                let b = str_chars(address.as_str());
                Ok(eq_ignore_case(&a, &b))
            },
            None => Ok(false),
        }
    }
}

} // verus!
