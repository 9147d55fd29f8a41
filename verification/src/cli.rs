//! Command-line actions and the text that the client prints for a status.
use vstd::prelude::*;

use crate::status::{
    IpcCompositorBindingStatus, IpcShortcutCapability, IpcShortcutState, ShortcutStatusInfo,
    StateView, StatusView,
};
use crate::text::{append_chars, append_str, chars_to_string, eq_str, str_chars};

verus! {

#[derive(Debug, Clone, Copy, PartialEq, Eq, Structural)]
pub enum CliAction {
    RunDaemon,
    ToggleUi,
    ShortcutStatus,
    ReloadConfig,
    Help,
    Version,
}

/// The action that a first argument selects, if it is a known flag.
pub open spec fn action_of(arg: Seq<char>) -> Option<CliAction> {
    if arg == "--toggle"@ || arg == "-t"@ {
        Some(CliAction::ToggleUi)
    } else if arg == "--shortcut-status"@ {
        Some(CliAction::ShortcutStatus)
    } else if arg == "--reload"@ || arg == "-r"@ {
        Some(CliAction::ReloadConfig)
    } else if arg == "--help"@ || arg == "-h"@ {
        Some(CliAction::Help)
    } else if arg == "--version"@ || arg == "-V"@ {
        Some(CliAction::Version)
    } else {
        None
    }
}

/// Selects the action from the arguments (without the program name). Only the
/// first argument counts; without one the daemon runs. An unknown first
/// argument is returned as the error.
pub fn parse_args_from(args: &Vec<String>) -> (r: Result<CliAction, String>)
    ensures
        args.len() == 0 ==> r == Ok::<CliAction, String>(CliAction::RunDaemon),
        args.len() > 0 ==> match action_of(args@[0]@) {
            Some(a) => r == Ok::<CliAction, String>(a),
            None => r matches Err(e) && e@ == args@[0]@,
        },
{
    if args.len() == 0 {
        return Ok(CliAction::RunDaemon);
    }
    let first = str_chars(args[0].as_str());
    if eq_str(&first, "--toggle") || eq_str(&first, "-t") {
        Ok(CliAction::ToggleUi)
    } else if eq_str(&first, "--shortcut-status") {
        Ok(CliAction::ShortcutStatus)
    } else if eq_str(&first, "--reload") || eq_str(&first, "-r") {
        Ok(CliAction::ReloadConfig)
    } else if eq_str(&first, "--help") || eq_str(&first, "-h") {
        Ok(CliAction::Help)
    } else if eq_str(&first, "--version") || eq_str(&first, "-V") {
        Ok(CliAction::Version)
    } else {
        Err(args[0].clone())
    }
}

/// The header of `--shortcut-status`.
pub open spec fn status_header() -> Seq<char> {
    "Pookie Paste Global Shortcut Status"@
}

/// The header printed after a reload.
pub open spec fn reload_header() -> Seq<char> {
    "Pookie Paste Configuration Reloaded"@
}

/// `n` dashes.
pub open spec fn dashes(n: nat) -> Seq<char> {
    Seq::new(n, |i: int| '-')
}

/// A labelled line.
pub open spec fn line(label: Seq<char>, value: Seq<char>) -> Seq<char> {
    label + value + "\n"@
}

/// A labelled line when there is a value.
pub open spec fn opt_line(label: Seq<char>, value: Option<Seq<char>>) -> Seq<char> {
    match value {
        Some(v) => line(label, v),
        None => Seq::empty(),
    }
}

pub open spec fn capability_text(c: IpcShortcutCapability) -> Seq<char> {
    match c {
        IpcShortcutCapability::Native => "Native window system key grab (e.g. X11)"@,
        IpcShortcutCapability::Portal => "Desktop portal global shortcuts (e.g. KDE Plasma)"@,
        IpcShortcutCapability::CompositorManaged =>
            "Compositor-managed keybinding (e.g. Sway, Hyprland)"@,
        IpcShortcutCapability::Unsupported => "Unsupported on active session"@,
    }
}

pub open spec fn binding_status_text(b: IpcCompositorBindingStatus) -> Seq<char> {
    match b {
        IpcCompositorBindingStatus::Verified => "Verified"@,
        IpcCompositorBindingStatus::BoundUnverified => "Bound / Unverified"@,
        IpcCompositorBindingStatus::Unconfigured => "Unconfigured / Missing"@,
        IpcCompositorBindingStatus::Conflict => "Conflict"@,
    }
}

/// What the user is told to do about a compositor binding.
pub open spec fn binding_advice(b: IpcCompositorBindingStatus) -> Seq<char> {
    match b {
        IpcCompositorBindingStatus::Unconfigured =>
            "Action Required     : Add the binding directive above to your compositor configuration.\n"@,
        IpcCompositorBindingStatus::Conflict =>
            "Action Required     : Resolve the conflicting shortcut in your compositor configuration.\n"@,
        IpcCompositorBindingStatus::BoundUnverified =>
            "Guidance            : Ensure the active binding executes 'pookie-paste --toggle'.\n"@,
        IpcCompositorBindingStatus::Verified => Seq::empty(),
    }
}

/// The lines describing the runtime state.
pub open spec fn state_text(state: StateView, effective: Option<Seq<char>>) -> Seq<char> {
    match state {
        StateView::Initializing => "Status              : Initializing (registration in progress)\n"@,
        StateView::Active(d) => "Status              : Active\n"@ + opt_line(
            "Effective Shortcut  : "@,
            effective,
        ) + line("Details             : "@, d),
        StateView::CompositorManaged(b, snippet, conflict, diagnostic) => line(
            "Status              : "@,
            binding_status_text(b),
        ) + line("Binding Directive   : "@, snippet) + opt_line("Conflict Detected   : "@, conflict)
            + opt_line("Diagnostic          : "@, diagnostic) + binding_advice(b),
        StateView::Conflict(d) => "Status              : Conflict\n"@ + line(
            "Details             : "@,
            d,
        ),
        StateView::Unavailable(r) => "Status              : Unavailable\n"@ + line(
            "Reason              : "@,
            r,
        ),
        StateView::Failed(e) => "Status              : Failed\n"@ + line(
            "Error               : "@,
            e,
        ),
    }
}

/// The full status text under `header`: the header, a rule of `rule_len`
/// dashes, the configured shortcut, the backend and capability when known,
/// then the state.
pub open spec fn status_text(header: Seq<char>, rule_len: nat, s: StatusView) -> Seq<char> {
    header + "\n"@ + dashes(rule_len) + "\n"@ + line(
        "Configured Shortcut : "@,
        s.configured,
    ) + opt_line("Backend             : "@, s.backend) + match s.capability {
        Some(c) => line("Capability          : "@, capability_text(c)),
        None => Seq::empty(),
    } + state_text(s.state, s.effective)
}

fn append_line(out: &mut Vec<char>, label: &str, value: &str)
    ensures
        final(out)@ == old(out)@ + line(label@, value@),
{
    append_str(out, label);
    append_str(out, value);
    append_str(out, "\n");
}

fn append_opt_line(out: &mut Vec<char>, label: &str, value: &Option<String>)
    ensures
        final(out)@ == old(out)@ + opt_line(label@, crate::shortcut_backend::opt_view(*value)),
{
    match value {
        Some(v) => append_line(out, label, v.as_str()),
        None => {
            assert(old(out)@ + Seq::<char>::empty() == old(out)@);
        },
    }
}

fn capability_str(c: IpcShortcutCapability) -> (r: &'static str)
    ensures
        r@ == capability_text(c),
{
    match c {
        IpcShortcutCapability::Native => "Native window system key grab (e.g. X11)",
        IpcShortcutCapability::Portal => "Desktop portal global shortcuts (e.g. KDE Plasma)",
        IpcShortcutCapability::CompositorManaged =>
            "Compositor-managed keybinding (e.g. Sway, Hyprland)",
        IpcShortcutCapability::Unsupported => "Unsupported on active session",
    }
}

fn binding_status_str(b: IpcCompositorBindingStatus) -> (r: &'static str)
    ensures
        r@ == binding_status_text(b),
{
    match b {
        IpcCompositorBindingStatus::Verified => "Verified",
        IpcCompositorBindingStatus::BoundUnverified => "Bound / Unverified",
        IpcCompositorBindingStatus::Unconfigured => "Unconfigured / Missing",
        IpcCompositorBindingStatus::Conflict => "Conflict",
    }
}

fn append_advice(out: &mut Vec<char>, b: IpcCompositorBindingStatus)
    ensures
        final(out)@ == old(out)@ + binding_advice(b),
{
    match b {
        IpcCompositorBindingStatus::Unconfigured => append_str(
            out,
            "Action Required     : Add the binding directive above to your compositor configuration.\n",
        ),
        IpcCompositorBindingStatus::Conflict => append_str(
            out,
            "Action Required     : Resolve the conflicting shortcut in your compositor configuration.\n",
        ),
        IpcCompositorBindingStatus::BoundUnverified => append_str(
            out,
            "Guidance            : Ensure the active binding executes 'pookie-paste --toggle'.\n",
        ),
        IpcCompositorBindingStatus::Verified => {
            assert(old(out)@ + Seq::<char>::empty() == old(out)@);
        },
    }
}

fn append_state(out: &mut Vec<char>, status: &ShortcutStatusInfo)
    ensures
        final(out)@ == old(out)@ + state_text(status.state@, status@.effective),
{
    let ghost start = out@;
    match &status.state {
        IpcShortcutState::Initializing => {
            append_str(out, "Status              : Initializing (registration in progress)\n");
        },
        IpcShortcutState::Active { description } => {
            append_str(out, "Status              : Active\n");
            append_opt_line(out, "Effective Shortcut  : ", &status.effective_shortcut);
            append_line(out, "Details             : ", description.as_str());
            assert(out@ == start + state_text(status.state@, status@.effective));
        },
        IpcShortcutState::CompositorManaged { binding_status, snippet, conflict, diagnostic } => {
            append_line(out, "Status              : ", binding_status_str(*binding_status));
            append_line(out, "Binding Directive   : ", snippet.as_str());
            append_opt_line(out, "Conflict Detected   : ", conflict);
            append_opt_line(out, "Diagnostic          : ", diagnostic);
            append_advice(out, *binding_status);
            assert(out@ == start + state_text(status.state@, status@.effective));
        },
        IpcShortcutState::Conflict { details } => {
            append_str(out, "Status              : Conflict\n");
            append_line(out, "Details             : ", details.as_str());
            assert(out@ == start + state_text(status.state@, status@.effective));
        },
        IpcShortcutState::Unavailable { reason } => {
            append_str(out, "Status              : Unavailable\n");
            append_line(out, "Reason              : ", reason.as_str());
            assert(out@ == start + state_text(status.state@, status@.effective));
        },
        IpcShortcutState::Failed { error } => {
            append_str(out, "Status              : Failed\n");
            append_line(out, "Error               : ", error.as_str());
            assert(out@ == start + state_text(status.state@, status@.effective));
        },
    }
}

fn append_dashes(out: &mut Vec<char>, n: usize)
    ensures
        final(out)@ == old(out)@ + dashes(n as nat),
{
    let ghost start = out@;
    let mut i: usize = 0;
    while i < n
        invariant
            i <= n,
            out@ == start + dashes(i as nat),
        decreases n - i,
    {
        out.push('-');
        i = i + 1;
        assert(dashes(i as nat) == dashes((i - 1) as nat).push('-'));
    }
}

/// The status text under an arbitrary header, ruled with one dash per byte of
/// the header.
pub fn format_shortcut_status_with_header(header: &str, status: &ShortcutStatusInfo) -> (r:
    String)
    ensures
        r@ == status_text(header@, header.len() as nat, status@),
{
    let mut out = str_chars(header);
    append_str(&mut out, "\n");
    append_dashes(&mut out, header.len());
    append_str(&mut out, "\n");
    append_line(&mut out, "Configured Shortcut : ", status.configured_shortcut.as_str());
    append_opt_line(&mut out, "Backend             : ", &status.backend_name);
    let ghost mid = out@;
    match status.capability {
        Some(c) => append_line(&mut out, "Capability          : ", capability_str(c)),
        None => {
            assert(out@ + Seq::<char>::empty() == out@);
        },
    }
    append_state(&mut out, status);
    chars_to_string(&out)
}

/// The text that `--shortcut-status` prints.
pub fn format_shortcut_status(status: &ShortcutStatusInfo) -> (r: String)
    ensures
        r@ == status_text(status_header(), status_header().len(), status@),
{
    proof {
        reveal_strlit("Pookie Paste Global Shortcut Status");
        vstd::string::is_ascii_spec_bytes("Pookie Paste Global Shortcut Status");
    }
    assert("Pookie Paste Global Shortcut Status".is_ascii());
    format_shortcut_status_with_header("Pookie Paste Global Shortcut Status", status)
}

/// The text that `--reload` prints.
pub fn format_reload_status(status: &ShortcutStatusInfo) -> (r: String)
    ensures
        r@ == status_text(reload_header(), reload_header().len(), status@),
{
    proof {
        reveal_strlit("Pookie Paste Configuration Reloaded");
        vstd::string::is_ascii_spec_bytes("Pookie Paste Configuration Reloaded");
    }
    assert("Pookie Paste Configuration Reloaded".is_ascii());
    format_shortcut_status_with_header("Pookie Paste Configuration Reloaded", status)
}

} // verus!
