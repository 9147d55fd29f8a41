//! Focus on KDE Plasma through a KWin script: the D-Bus names of the contract
//! with the script, and how each request reads the script's callbacks.
use vstd::prelude::*;

use crate::focus_backend::{
    parse_uuid, target_text, uuid_parse, FocusError, FocusErrorView, FocusTarget, TargetView,
};
use crate::text::{append_str, chars_to_string, str_chars};

verus! {

/// The D-Bus service the daemon owns for the script's callbacks.
pub const POOKIE_SERVICE: &'static str = "io.github.riyanj220.PookiePaste";

/// The object path of the callback interface.
pub const POOKIE_FOCUS_PATH: &'static str = "/io/github/riyanj220/PookiePaste/Focus";

pub const KGLOBALACCEL_SERVICE: &'static str = "org.kde.kglobalaccel";

pub const KGLOBALACCEL_PATH: &'static str = "/component/kwin";

pub const KGLOBALACCEL_INTERFACE: &'static str = "org.kde.kglobalaccel.Component";

/// The KWin script actions the daemon invokes.
pub const ACTION_CAPTURE: &'static str = "PookiePasteFocusCapture";

pub const ACTION_RESTORE: &'static str = "PookiePasteFocusRestore";

pub const ACTION_ACTIVE: &'static str = "PookiePasteFocusActive";

/// A callback of the KWin script.
#[derive(Debug)]
pub enum HelperResponse {
    Captured(String),
    CaptureUnavailable,
    RestoreRequested(String),
    RestoreNoTarget,
    RestoreNotFound(String),
    Active(String),
    ActiveNone,
}

/// The KWin window of a KDE target; any other target is refused.
pub fn kde_target(target: &FocusTarget) -> (r: Result<u128, FocusError>)
    ensures
        match target@ {
            TargetView::Kde(id) => r == Ok::<u128, FocusError>(id),
            _ => r matches Err(e) && e@ == FocusErrorView::Failed(
                "non-KDE focus target passed to KDE focus backend: "@ + target_text(target@),
            ),
        },
{
    match target {
        FocusTarget::Kde(id) => Ok(*id),
        _ => {
            let mut m = str_chars("non-KDE focus target passed to KDE focus backend: ");
            let t = target.to_string();
            append_str(&mut m, t.as_str());
            Err(FocusError::Failed(chars_to_string(&m)))
        },
    }
}

fn failed_with(prefix: &str, detail: &str) -> (r: FocusError)
    ensures
        r@ == FocusErrorView::Failed(prefix@ + detail@),
{
    let mut m = str_chars(prefix);
    append_str(&mut m, detail);
    FocusError::Failed(chars_to_string(&m))
}

/// Reading a callback while capturing: `None` means the callback belongs to
/// another request and the capture keeps waiting.
pub fn capture_step(response: &HelperResponse) -> (r: Option<Result<u128, FocusError>>)
    ensures
        match response {
            HelperResponse::Captured(v) => match uuid_parse(v@) {
                Ok(id) => r == Some(Ok::<u128, FocusError>(id)),
                Err(e) => r matches Some(Err(f)) && f@ == FocusErrorView::Failed(
                    "invalid KWin window UUID returned by helper: "@ + e,
                ),
            },
            HelperResponse::CaptureUnavailable => r matches Some(Err(FocusError::Unavailable)),
            _ => r is None,
        },
{
    match response {
        HelperResponse::Captured(v) => match parse_uuid(v.as_str()) {
            Ok(id) => Some(Ok(id)),
            Err(e) => Some(
                Err(failed_with("invalid KWin window UUID returned by helper: ", e.as_str())),
            ),
        },
        HelperResponse::CaptureUnavailable => Some(Err(FocusError::Unavailable)),
        _ => None,
    }
}

/// Reading a callback while restoring `expected`: the script must report
/// that it restored exactly that window.
pub fn restore_step(response: &HelperResponse, expected: u128) -> (r: Option<Result<(), FocusError>>)
    ensures
        match response {
            HelperResponse::RestoreRequested(v) => match uuid_parse(v@) {
                Ok(id) => if id == expected {
                    r matches Some(Ok(()))
                } else {
                    r matches Some(Err(FocusError::Failed(_)))
                },
                Err(e) => r matches Some(Err(f)) && f@ == FocusErrorView::Failed(
                    "invalid restored KWin window UUID: "@ + e,
                ),
            },
            HelperResponse::RestoreNoTarget => r matches Some(Err(FocusError::Unavailable)),
            HelperResponse::RestoreNotFound(v) => r matches Some(Err(f)) && f@
                == FocusErrorView::Failed("KWin focus target no longer exists: "@ + v@),
            _ => r is None,
        },
{
    match response {
        HelperResponse::RestoreRequested(v) => match parse_uuid(v.as_str()) {
            Ok(id) => {
                if id == expected {
                    Some(Ok(()))
                } else {
                    let mut m = str_chars("KWin helper restored unexpected target: expected ");
                    let e = FocusTarget::Kde(expected).to_string();
                    append_str(&mut m, e.as_str());
                    append_str(&mut m, ", got ");
                    let g = FocusTarget::Kde(id).to_string();
                    append_str(&mut m, g.as_str());
                    Some(Err(FocusError::Failed(chars_to_string(&m))))
                }
            },
            Err(e) => Some(Err(failed_with("invalid restored KWin window UUID: ", e.as_str()))),
        },
        HelperResponse::RestoreNoTarget => Some(Err(FocusError::Unavailable)),
        HelperResponse::RestoreNotFound(v) => Some(
            Err(failed_with("KWin focus target no longer exists: ", v.as_str())),
        ),
        _ => None,
    }
}

/// Reading a callback while checking whether `expected` is active.
pub fn active_step(response: &HelperResponse, expected: u128) -> (r: Option<Result<bool, FocusError>>)
    ensures
        match response {
            HelperResponse::Active(v) => match uuid_parse(v@) {
                Ok(id) => r == Some(Ok::<bool, FocusError>(id == expected)),
                Err(e) => r matches Some(Err(f)) && f@ == FocusErrorView::Failed(
                    "invalid active KWin window UUID: "@ + e,
                ),
            },
            HelperResponse::ActiveNone => r == Some(Ok::<bool, FocusError>(false)),
            _ => r is None,
        },
{
    match response {
        HelperResponse::Active(v) => match parse_uuid(v.as_str()) {
            Ok(id) => Some(Ok(id == expected)),
            Err(e) => Some(Err(failed_with("invalid active KWin window UUID: ", e.as_str()))),
        },
        HelperResponse::ActiveNone => Some(Ok(false)),
        _ => None,
    }
}

} // verus!
