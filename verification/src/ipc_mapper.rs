//! Mapping between the daemon's records and what goes over IPC: stored
//! clipboard items become history items (a text item never exposes a file
//! reference, an image item never carries text), and focus targets travel as
//! IPC focus targets (a KWin UUID as its hyphenated text).
use vstd::prelude::*;

use crate::focus_backend::{
    format_uuid_hyphenated, parse_uuid, uuid_hyphenated_text, uuid_parse, FocusTarget, TargetView,
};
use crate::shortcut_backend::opt_view;
use crate::text::{append_str, chars_to_string, eq_str, str_chars};

verus! {

/// A clipboard item as the history store keeps it.
#[derive(Debug, Clone, PartialEq, Eq)]
pub struct StoredClipboardItem {
    pub id: String,
    pub content_type: String,
    pub text_content: Option<String>,
    pub file_path: Option<String>,
    pub content_hash: String,
    pub created_at: String,
    pub pinned_at: Option<String>,
}

impl StoredClipboardItem {
    /// A copy of the item, field by field.
    pub fn duplicate(&self) -> (r: Self)
        ensures
            r.id@ == self.id@,
            r.content_type@ == self.content_type@,
            opt_view(r.text_content) == opt_view(self.text_content),
            opt_view(r.file_path) == opt_view(self.file_path),
            r.content_hash@ == self.content_hash@,
            r.created_at@ == self.created_at@,
            opt_view(r.pinned_at) == opt_view(self.pinned_at),
    {
        StoredClipboardItem {
            id: self.id.clone(),
            content_type: self.content_type.clone(),
            text_content: copy_opt(&self.text_content),
            file_path: copy_opt(&self.file_path),
            content_hash: self.content_hash.clone(),
            created_at: self.created_at.clone(),
            pinned_at: copy_opt(&self.pinned_at),
        }
    }
}

/// A clipboard history entry as the IPC protocol carries it.
#[derive(Debug, Clone, PartialEq, Eq)]
pub struct HistoryItem {
    pub id: String,
    pub content_type: String,
    pub text_content: Option<String>,
    pub file_path: Option<String>,
    pub created_at: String,
    pub pinned_at: Option<String>,
}

impl HistoryItem {
    /// Whether the entry is pinned.
    pub fn is_pinned(&self) -> (r: bool)
        ensures
            r == self.pinned_at is Some,
    {
        self.pinned_at.is_some()
    }
}

fn copy_opt(o: &Option<String>) -> (r: Option<String>)
    ensures
        opt_view(r) == opt_view(*o),
{
    match o {
        Some(s) => Some(s.clone()),
        None => None,
    }
}

/// `h` is the history entry of the stored item: its id, timestamps and
/// content type are the item's; a text item keeps its text and drops any file
/// reference, an image item keeps its file reference and drops any text, and
/// an item of another type keeps both.
pub open spec fn history_entry_of(item: StoredClipboardItem, h: HistoryItem) -> bool {
    &&& h.id@ == item.id@
    &&& h.content_type@ == item.content_type@
    &&& h.created_at@ == item.created_at@
    &&& opt_view(h.pinned_at) == opt_view(item.pinned_at)
    &&& item.content_type@ == "text"@ ==> opt_view(h.text_content) == opt_view(item.text_content)
        && h.file_path is None
    &&& item.content_type@ == "image"@ ==> h.text_content is None && opt_view(h.file_path)
        == opt_view(item.file_path)
    &&& item.content_type@ != "text"@ && item.content_type@ != "image"@ ==> opt_view(h.text_content)
        == opt_view(item.text_content) && opt_view(h.file_path) == opt_view(item.file_path)
}

/// The history entry of a stored item.
pub fn to_history_item(item: StoredClipboardItem) -> (r: HistoryItem)
    ensures
        history_entry_of(item, r),
{
    proof {
        reveal_strlit("text");
        reveal_strlit("image");
        assert("text"@.len() != "image"@.len());
    }
    let ty = str_chars(item.content_type.as_str());
    let is_text = eq_str(&ty, "text");
    let is_image = eq_str(&ty, "image");
    let text_content = if is_text || !is_image {
        copy_opt(&item.text_content)
    } else {
        None
    };
    let file_path = if is_text {
        None
    } else {
        copy_opt(&item.file_path)
    };
    HistoryItem {
        id: item.id.clone(),
        content_type: item.content_type.clone(),
        text_content,
        file_path,
        created_at: item.created_at.clone(),
        pinned_at: copy_opt(&item.pinned_at),
    }
}

/// A focus target as the IPC protocol carries it.
#[derive(Debug, Clone, PartialEq, Eq)]
pub enum IpcFocusTarget {
    X11(u64),
    Kde(String),
    Sway(i64),
    Hyprland(String),
}

pub enum IpcTargetView {
    X11(u64),
    Kde(Seq<char>),
    Sway(i64),
    Hyprland(Seq<char>),
}

impl View for IpcFocusTarget {
    type V = IpcTargetView;

    open spec fn view(&self) -> IpcTargetView {
        match self {
            IpcFocusTarget::X11(id) => IpcTargetView::X11(*id),
            IpcFocusTarget::Kde(s) => IpcTargetView::Kde(s@),
            IpcFocusTarget::Sway(id) => IpcTargetView::Sway(*id),
            IpcFocusTarget::Hyprland(a) => IpcTargetView::Hyprland(a@),
        }
    }
}

/// The IPC form of a focus target.
pub open spec fn ipc_target_of(t: TargetView) -> IpcTargetView {
    match t {
        TargetView::X11(id) => IpcTargetView::X11(id),
        TargetView::Kde(id) => IpcTargetView::Kde(uuid_hyphenated_text(id)),
        TargetView::Sway(id) => IpcTargetView::Sway(id),
        TargetView::Hyprland(a) => IpcTargetView::Hyprland(a),
    }
}

/// The focus target of an IPC focus target: a KWin target must hold a UUID.
pub open spec fn focus_target_of(t: IpcTargetView) -> Result<TargetView, Seq<char>> {
    match t {
        IpcTargetView::X11(id) => Ok(TargetView::X11(id)),
        IpcTargetView::Kde(v) => match uuid_parse(v) {
            Ok(u) => Ok(TargetView::Kde(u)),
            Err(e) => Err("invalid KDE focus target UUID "@ + v + ": "@ + e),
        },
        IpcTargetView::Sway(id) => Ok(TargetView::Sway(id)),
        IpcTargetView::Hyprland(a) => Ok(TargetView::Hyprland(a)),
    }
}

/// The result of mapping an IPC focus target, by its view.
pub open spec fn mapped_view(r: Result<FocusTarget, String>) -> Result<TargetView, Seq<char>> {
    match r {
        Ok(t) => Ok(t@),
        Err(e) => Err(e@),
    }
}

/// The IPC form of a focus target. An X11, Sway or Hyprland target maps back
/// to itself; a KWin target maps back through `uuid::Uuid::parse_str` of its
/// hyphenated text.
pub fn to_ipc_focus_target(target: FocusTarget) -> (r: IpcFocusTarget)
    ensures
        r@ == ipc_target_of(target@),
        !(target@ is Kde) ==> focus_target_of(r@) == Ok::<TargetView, Seq<char>>(target@),
{
    match target {
        FocusTarget::X11(id) => IpcFocusTarget::X11(id),
        FocusTarget::Kde(id) => IpcFocusTarget::Kde(format_uuid_hyphenated(id)),
        FocusTarget::Sway(id) => IpcFocusTarget::Sway(id),
        FocusTarget::Hyprland(address) => IpcFocusTarget::Hyprland(address),
    }
}

/// The focus target an IPC focus target names; a KWin target that is no
/// UUID is an error naming the text.
pub fn from_ipc_focus_target(target: IpcFocusTarget) -> (r: Result<FocusTarget, String>)
    ensures
        mapped_view(r) == focus_target_of(target@),
{
    match target {
        IpcFocusTarget::X11(id) => Ok(FocusTarget::x11(id)),
        IpcFocusTarget::Kde(value) => match parse_uuid(value.as_str()) {
            Ok(id) => Ok(FocusTarget::kde(id)),
            Err(error) => {
                let mut m = str_chars("invalid KDE focus target UUID ");
                append_str(&mut m, value.as_str());
                append_str(&mut m, ": ");
                append_str(&mut m, error.as_str());
                Err(chars_to_string(&m))
            },
        },
        IpcFocusTarget::Sway(id) => Ok(FocusTarget::sway(id)),
        IpcFocusTarget::Hyprland(address) => Ok(FocusTarget::hyprland(address)),
    }
}

} // verus!
