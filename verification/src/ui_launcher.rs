//! Locating the popup UI binary next to the daemon's executable.
use vstd::prelude::*;

use crate::text::{append_str, chars_to_string, path_join, path_push, str_chars};

verus! {

#[derive(Debug)]
pub enum UiLaunchError {
    CurrentExecutable(String),
    /// The UI binary is not where it is expected.
    MissingUiBinary(String),
    Spawn(String),
}

pub enum UiLaunchErrorView {
    CurrentExecutable(Seq<char>),
    MissingUiBinary(Seq<char>),
    Spawn(Seq<char>),
}

impl View for UiLaunchError {
    type V = UiLaunchErrorView;

    open spec fn view(&self) -> UiLaunchErrorView {
        match self {
            UiLaunchError::CurrentExecutable(m) => UiLaunchErrorView::CurrentExecutable(m@),
            UiLaunchError::MissingUiBinary(p) => UiLaunchErrorView::MissingUiBinary(p@),
            UiLaunchError::Spawn(m) => UiLaunchErrorView::Spawn(m@),
        }
    }
}

/// The file name of the UI binary on Linux.
pub fn ui_binary_name() -> (r: &'static str)
    ensures
        r@ == "ui"@,
{
    "ui"
}

/// The UI binary: `ui` in the directory of the daemon's executable. Without
/// that directory (`None`) the executable's location is unusable.
pub fn resolve_ui_binary(binary_directory: Option<&str>) -> (r: Result<String, UiLaunchError>)
    ensures
        match binary_directory {
            Some(d) => r matches Ok(p) && p@ == path_join(d@, "ui"@),
            None => r matches Err(e) && e@ == UiLaunchErrorView::CurrentExecutable(
                "daemon executable has no parent directory"@,
            ),
        },
{
    match binary_directory {
        Some(d) => {
            let mut p = str_chars(d);
            path_push(&mut p, ui_binary_name());
            Ok(chars_to_string(&p))
        },
        None => {
            let v = str_chars("daemon executable has no parent directory");
            Err(UiLaunchError::CurrentExecutable(chars_to_string(&v)))
        },
    }
}

/// The UI is only launched when its binary exists.
pub fn check_ui_binary(path: String, exists: bool) -> (r: Result<String, UiLaunchError>)
    ensures
        exists ==> (r matches Ok(p) && p@ == path@),
        !exists ==> (r matches Err(e) && e@ == UiLaunchErrorView::MissingUiBinary(path@)),
{
    if exists {
        Ok(path)
    } else {
        Err(UiLaunchError::MissingUiBinary(path))
    }
}

/// The error when the UI process could not be started.
pub fn spawn_error(path: &str, cause: &str) -> (r: UiLaunchError)
    ensures
        r@ == UiLaunchErrorView::Spawn("failed to launch "@ + path@ + ": "@ + cause@),
{
    let mut m = str_chars("failed to launch ");
    append_str(&mut m, path);
    append_str(&mut m, ": ");
    append_str(&mut m, cause);
    UiLaunchError::Spawn(chars_to_string(&m))
}

} // verus!
