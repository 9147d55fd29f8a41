//! The daemon's answers to IPC requests. A request names the work to do on
//! the history or the activation service; the answer is decided from that
//! work's result. Doing the work (the database, the clipboard, the
//! compositor) is the caller's.
use vstd::prelude::*;

use crate::activation_service::ActivationResult;
use crate::focus_backend::{FocusError, FocusTarget, TargetView};
use crate::ipc_mapper::{history_entry_of, to_history_item, HistoryItem, StoredClipboardItem};
use crate::text::{append_str, chars_to_string, str_chars};

verus! {

/// A request from a client.
#[derive(Debug, Clone, PartialEq, Eq)]
pub enum IpcRequest {
    Ping,
    GetHistory,
    ActivateItem { id: String, target_id: Option<u64> },
    DeleteItem { id: String },
    ClearHistory,
    CaptureFocusTarget,
}

/// How an activation ended, as the IPC protocol reports it.
#[derive(Debug, Clone, Copy, PartialEq, Eq, Structural)]
pub enum ActivationOutcome {
    Pasted,
    ClipboardUpdated,
    PasteFailed,
    NotFound,
    UnsupportedContent,
}

/// The daemon's answer.
#[derive(Debug, Clone, PartialEq, Eq)]
pub enum IpcResponse {
    Pong,
    History { items: Vec<HistoryItem> },
    Activated { outcome: ActivationOutcome },
    Deleted { deleted: bool },
    Cleared { count: u64 },
    FocusTarget { target_id: Option<u64> },
    Error { message: String },
}

/// The work a request needs.
#[derive(Debug)]
pub enum RequestWork {
    /// None: the answer is ready.
    Reply(IpcResponse),
    /// Load the whole history.
    LoadHistory,
    /// Activate an item, giving focus back to the target first when there is one.
    Activate { id: String, target: Option<FocusTarget> },
    /// Delete an item.
    Delete { id: String },
    /// Clear the history.
    Clear,
    /// Read the focused window.
    CaptureFocus,
}

/// The work a request needs; a ping is answered at once, and an activation's
/// target id names an X11 window.
pub fn plan_request(request: IpcRequest) -> (r: RequestWork)
    ensures
        request is Ping ==> r matches RequestWork::Reply(IpcResponse::Pong),
        request is GetHistory ==> r is LoadHistory,
        request matches IpcRequest::ActivateItem { id, target_id } ==> (r matches RequestWork::Activate {
            id: i,
            target: t,
        } && i@ == id@ && match target_id {
            Some(w) => t matches Some(tt) && tt@ == TargetView::X11(w),
            None => t is None,
        }),
        request matches IpcRequest::DeleteItem { id } ==> (r matches RequestWork::Delete { id: i }
            && i@ == id@),
        request is ClearHistory ==> r is Clear,
        request is CaptureFocusTarget ==> r is CaptureFocus,
{
    match request {
        IpcRequest::Ping => RequestWork::Reply(IpcResponse::Pong),
        IpcRequest::GetHistory => RequestWork::LoadHistory,
        IpcRequest::ActivateItem { id, target_id } => {
            let target = match target_id {
                Some(w) => Some(FocusTarget::new(w)),
                None => None,
            };
            RequestWork::Activate { id, target }
        },
        IpcRequest::DeleteItem { id } => RequestWork::Delete { id },
        IpcRequest::ClearHistory => RequestWork::Clear,
        IpcRequest::CaptureFocusTarget => RequestWork::CaptureFocus,
    }
}

fn error_response(prefix: &str, error: &str) -> (r: IpcResponse)
    ensures
        r matches IpcResponse::Error { message } && message@ == prefix@ + error@,
{
    let mut m = str_chars(prefix);
    append_str(&mut m, error);
    IpcResponse::Error { message: chars_to_string(&m) }
}

/// The answer to a history request: every stored item as a history entry,
/// in order, or the error.
pub fn history_response(result: Result<Vec<StoredClipboardItem>, String>) -> (r: IpcResponse)
    ensures
        match result {
            Ok(stored) => r matches IpcResponse::History { items } && items@.len() == stored@.len()
                && forall|i: int| 0 <= i < stored@.len() ==> history_entry_of(
                #[trigger] stored@[i],
                items@[i],
            ),
            Err(e) => r matches IpcResponse::Error { message } && message@
                == "failed to load clipboard history: "@ + e@,
        },
{
    match result {
        Ok(stored) => {
            let mut items: Vec<HistoryItem> = Vec::new();
            for i in 0..stored.len()
                invariant
                    items@.len() == i,
                    forall|j: int| 0 <= j < i ==> history_entry_of(#[trigger] stored@[j], items@[j]),
            {
                let h = to_history_item(stored[i].duplicate());
                items.push(h);
            }
            IpcResponse::History { items }
        },
        Err(e) => error_response("failed to load clipboard history: ", e.as_str()),
    }
}

/// The protocol's name for how an activation ended.
pub open spec fn outcome_of(r: ActivationResult) -> ActivationOutcome {
    match r {
        ActivationResult::Pasted => ActivationOutcome::Pasted,
        ActivationResult::ClipboardUpdated => ActivationOutcome::ClipboardUpdated,
        ActivationResult::PasteFailed => ActivationOutcome::PasteFailed,
        ActivationResult::NotFound => ActivationOutcome::NotFound,
        ActivationResult::UnsupportedContent => ActivationOutcome::UnsupportedContent,
    }
}

/// The answer to an activation: how it ended, or, when it failed, a fixed
/// message (the details stay in the daemon's log).
pub fn activation_response(result: Result<ActivationResult, String>) -> (r: IpcResponse)
    ensures
        match result {
            Ok(a) => r == IpcResponse::Activated { outcome: outcome_of(a) },
            Err(_) => r matches IpcResponse::Error { message } && message@
                == "clipboard activation failed"@,
        },
{
    match result {
        Ok(a) => {
            let outcome = match a {
                ActivationResult::Pasted => ActivationOutcome::Pasted,
                ActivationResult::ClipboardUpdated => ActivationOutcome::ClipboardUpdated,
                ActivationResult::PasteFailed => ActivationOutcome::PasteFailed,
                ActivationResult::NotFound => ActivationOutcome::NotFound,
                ActivationResult::UnsupportedContent => ActivationOutcome::UnsupportedContent,
            };
            IpcResponse::Activated { outcome }
        },
        Err(_) => {
            let v = str_chars("clipboard activation failed");
            IpcResponse::Error { message: chars_to_string(&v) }
        },
    }
}

/// The answer to a deletion: whether an item was deleted, or the error.
pub fn delete_response(result: Result<bool, String>) -> (r: IpcResponse)
    ensures
        match result {
            Ok(d) => r == IpcResponse::Deleted { deleted: d },
            Err(e) => r matches IpcResponse::Error { message } && message@
                == "failed to delete clipboard history item: "@ + e@,
        },
{
    match result {
        Ok(deleted) => IpcResponse::Deleted { deleted },
        Err(e) => error_response("failed to delete clipboard history item: ", e.as_str()),
    }
}

/// The answer to clearing: how many items were removed, or the error.
pub fn clear_response(result: Result<u64, String>) -> (r: IpcResponse)
    ensures
        match result {
            Ok(n) => r == IpcResponse::Cleared { count: n },
            Err(e) => r matches IpcResponse::Error { message } && message@
                == "failed to clear clipboard history: "@ + e@,
        },
{
    match result {
        Ok(count) => IpcResponse::Cleared { count },
        Err(e) => error_response("failed to clear clipboard history: ", e.as_str()),
    }
}

/// The answer to capturing the focused window: its X11 window id (a target
/// of another platform has none to report), none when no window can be
/// captured, or a fixed message for another error.
pub fn capture_response(result: Result<FocusTarget, FocusError>) -> (r: IpcResponse)
    ensures
        match result {
            Ok(t) => r == IpcResponse::FocusTarget {
                target_id: match t@ {
                    TargetView::X11(id) => Some(id),
                    _ => None,
                },
            },
            Err(FocusError::Unavailable) => r == IpcResponse::FocusTarget { target_id: None },
            Err(FocusError::Failed(_)) => r matches IpcResponse::Error { message } && message@
                == "failed to capture focus target"@,
        },
{
    match result {
        Ok(t) => IpcResponse::FocusTarget { target_id: t.x11_id() },
        Err(FocusError::Unavailable) => IpcResponse::FocusTarget { target_id: None },
        Err(FocusError::Failed(_)) => {
            let v = str_chars("failed to capture focus target");
            IpcResponse::Error { message: chars_to_string(&v) }
        },
    }
}

} // verus!
