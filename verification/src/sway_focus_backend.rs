//! Focus on Sway: which container is focused in the layout tree, and the
//! command that focuses a container again.
use vstd::prelude::*;

use crate::focus_backend::{
    decimal_i64, signed_decimal, wrong_target_error, FocusError, FocusErrorView, FocusTarget,
    TargetView, target_text,
};
use crate::text::{append_chars, append_str, chars_to_string, str_chars};

verus! {

/// A node of Sway's layout tree (`GET_TREE`), with what focus needs of it.
#[derive(Debug)]
pub struct SwayNode {
    /// The container id, when it is an integer.
    pub id: Option<i64>,
    pub focused: bool,
    pub nodes: Vec<SwayNode>,
    pub floating_nodes: Vec<SwayNode>,
}

/// The first focused container in depth-first order: the node itself, then
/// its tiled children, then its floating children.
pub open spec fn focused_in(node: SwayNode) -> Option<i64>
    decreases node, 1nat,
{
    if node.focused && node.id is Some {
        node.id
    } else {
        match focused_in_list(node.nodes@, 0) {
            Some(id) => Some(id),
            None => focused_in_list(node.floating_nodes@, 0),
        }
    }
}

pub open spec fn focused_in_list(nodes: Seq<SwayNode>, i: int) -> Option<i64>
    decreases nodes, 0nat, nodes.len() - i,
    when 0 <= i <= nodes.len()
{
    if i >= nodes.len() {
        None
    } else {
        match focused_in(nodes[i]) {
            Some(id) => Some(id),
            None => focused_in_list(nodes, i + 1),
        }
    }
}

/// Finds the focused container of a layout tree.
pub fn parse_focused_container(node: &SwayNode) -> (r: Option<i64>)
    ensures
        r == focused_in(*node),
    decreases node, 1nat,
{
    if node.focused && node.id.is_some() {
        return node.id;
    }
    match focused_in_nodes(&node.nodes) {
        Some(id) => Some(id),
        None => focused_in_nodes(&node.floating_nodes),
    }
}

fn focused_in_nodes(nodes: &Vec<SwayNode>) -> (r: Option<i64>)
    ensures
        r == focused_in_list(nodes@, 0),
    decreases nodes, 0nat,
{
    let mut i: usize = 0;
    while i < nodes.len()
        invariant
            i <= nodes.len(),
            focused_in_list(nodes@, 0) == focused_in_list(nodes@, i as int),
        decreases nodes.len() - i,
    {
        assert(decreases_to!(nodes => nodes@[i as int]));
        let found = parse_focused_container(&nodes[i]);
        if found.is_some() {
            return found;
        }
        i = i + 1;
    }
    None
}

/// One entry of the reply to a `RUN_COMMAND`.
#[derive(Debug, Clone)]
pub struct SwayCommandResult {
    pub success: Option<bool>,
    pub error: Option<String>,
}

/// The command that focuses a container.
pub open spec fn focus_command_text(id: i64) -> Seq<char> {
    "[con_id="@ + signed_decimal(id as int) + "] focus"@
}

/// Whether a focus command succeeded: the first result must report success;
/// otherwise its error (or "unknown error") is reported.
pub open spec fn command_outcome(results: Seq<SwayCommandResult>) -> Result<(), Seq<char>> {
    if results.len() > 0 && results[0].success == Some(true) {
        Ok(())
    } else {
        Err(
            "Sway focus command failed: "@ + if results.len() > 0 && results[0].error is Some {
                results[0].error->0@
            } else {
                "unknown error"@
            },
        )
    }
}

#[derive(Debug, Clone)]
pub struct SwayFocusBackend {
    socket_path: String,
}

impl SwayFocusBackend {
    pub closed spec fn socket_path_spec(&self) -> Seq<char> {
        self.socket_path@
    }

    /// A backend talking to the given IPC socket.
    pub fn from_path(socket_path: String) -> (r: Self)
        ensures
            r.socket_path_spec() == socket_path@,
    {
        SwayFocusBackend { socket_path }
    }

    pub fn socket_path(&self) -> (r: &str)
        ensures
            r@ == self.socket_path_spec(),
    {
        self.socket_path.as_str()
    }

    pub fn name(&self) -> (r: &'static str)
        ensures
            r@ == "Sway focus"@,
    {
        "Sway focus"
    }

    /// The container of a Sway target; any other target is refused.
    pub fn target_id(&self, target: &FocusTarget) -> (r: Result<i64, FocusError>)
        ensures
            match target@ {
                TargetView::Sway(id) => r == Ok::<i64, FocusError>(id),
                _ => r matches Err(e) && e@ == FocusErrorView::Failed(
                    "expected Sway focus target, got "@ + target_text(target@),
                ),
            },
    {
        match target {
            FocusTarget::Sway(id) => Ok(*id),
            _ => Err(wrong_target_error("expected Sway focus target, got ", target)),
        }
    }

    /// The command that gives focus back to a target.
    pub fn restore_command(&self, target: &FocusTarget) -> (r: Result<String, FocusError>)
        ensures
            match target@ {
                TargetView::Sway(id) => r matches Ok(c) && c@ == focus_command_text(id),
                _ => r matches Err(e) && e@ == FocusErrorView::Failed(
                    "expected Sway focus target, got "@ + target_text(target@),
                ),
            },
    {
        let id = self.target_id(target)?;
        let mut c = str_chars("[con_id=");
        let d = decimal_i64(id);
        append_chars(&mut c, &d);
        append_str(&mut c, "] focus");
        Ok(chars_to_string(&c))
    }

    /// Reads the reply to the focus command.
    pub fn restore_result(&self, results: &Vec<SwayCommandResult>) -> (r: Result<(), FocusError>)
        ensures
            match command_outcome(results@) {
                Ok(()) => r is Ok,
                Err(m) => r matches Err(e) && e@ == FocusErrorView::Failed(m),
            },
    {
        if results.len() > 0 {
            if let Some(true) = results[0].success {
                return Ok(());
            }
        }
        let mut m = str_chars("Sway focus command failed: ");
        if results.len() > 0 {
            if let Some(e) = &results[0].error {
                append_str(&mut m, e.as_str());
                return Err(FocusError::Failed(chars_to_string(&m)));
            }
        }
        append_str(&mut m, "unknown error");
        Err(FocusError::Failed(chars_to_string(&m)))
    }

    /// Whether the target is the focused container of the tree.
    pub fn is_active_in(&self, target: &FocusTarget, tree: &SwayNode) -> (r: Result<bool, FocusError>)
        ensures
            match target@ {
                TargetView::Sway(id) => r == Ok::<bool, FocusError>(focused_in(*tree) == Some(id)),
                _ => r matches Err(e) && e@ == FocusErrorView::Failed(
                    "expected Sway focus target, got "@ + target_text(target@),
                ),
            },
    {
        let id = self.target_id(target)?;
        let focused = parse_focused_container(tree);
        match focused {
            Some(f) => Ok(f == id),
            None => Ok(false),
        }
    }
}

} // verus!
