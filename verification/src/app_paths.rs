//! Where the daemon keeps its data and configuration, following the XDG base
//! directory conventions. The environment values are handed in.
use vstd::prelude::*;

use crate::text::{chars_to_string, path_join, path_push, str_chars};

verus! {

pub const APP_DIRECTORY: &'static str = "pookie-paste";

pub const DATABASE_FILE: &'static str = "pookie-paste.db";

pub const CONFIG_FILE: &'static str = "config.toml";

/// No base directory could be found.
#[derive(Debug, Clone, PartialEq, Eq)]
pub enum AppPathError {
    NotFound(String),
}

/// A variable's value, if it is set.
pub open spec fn opt_str(o: Option<&str>) -> Option<Seq<char>> {
    match o {
        Some(s) => Some(s@),
        None => None,
    }
}

/// `$XDG_DATA_HOME/pookie-paste` when that is set and not empty, else
/// `$HOME/.local/share/pookie-paste`; without a usable `HOME` the error says why.
pub open spec fn data_directory_spec(xdg: Option<Seq<char>>, home: Option<Seq<char>>) -> Result<
    Seq<char>,
    Seq<char>,
> {
    match xdg {
        Some(x) if x.len() > 0 => Ok(path_join(x, APP_DIRECTORY@)),
        _ => match home {
            None => Err("neither XDG_DATA_HOME nor HOME is available"@),
            Some(h) => if h.len() == 0 {
                Err("HOME is empty"@)
            } else {
                Ok(path_join(path_join(path_join(h, ".local"@), "share"@), APP_DIRECTORY@))
            },
        },
    }
}

/// `$XDG_CONFIG_HOME/pookie-paste` when that is set and not empty, else
/// `$HOME/.config/pookie-paste`.
pub open spec fn config_directory_spec(xdg: Option<Seq<char>>, home: Option<Seq<char>>) -> Result<
    Seq<char>,
    Seq<char>,
> {
    match xdg {
        Some(x) if x.len() > 0 => Ok(path_join(x, APP_DIRECTORY@)),
        _ => match home {
            None => Err("neither XDG_CONFIG_HOME nor HOME is available"@),
            Some(h) => if h.len() == 0 {
                Err("HOME is empty"@)
            } else {
                Ok(path_join(path_join(h, ".config"@), APP_DIRECTORY@))
            },
        },
    }
}

pub open spec fn path_result(r: Result<String, AppPathError>) -> Result<Seq<char>, Seq<char>> {
    match r {
        Ok(p) => Ok(p@),
        Err(AppPathError::NotFound(m)) => Err(m@),
    }
}

fn not_found(m: &str) -> (r: AppPathError)
    ensures
        r == AppPathError::NotFound(r->NotFound_0),
        r->NotFound_0@ == m@,
{
    let v = str_chars(m);
    AppPathError::NotFound(chars_to_string(&v))
}

pub fn data_directory(xdg_data_home: Option<&str>, home: Option<&str>) -> (r: Result<
    String,
    AppPathError,
>)
    ensures
        path_result(r) == data_directory_spec(opt_str(xdg_data_home), opt_str(home)),
{
    if let Some(x) = xdg_data_home {
        let mut p = str_chars(x);
        if p.len() > 0 {
            path_push(&mut p, APP_DIRECTORY);
            return Ok(chars_to_string(&p));
        }
    }
    match home {
        None => Err(not_found("neither XDG_DATA_HOME nor HOME is available")),
        Some(h) => {
            let mut p = str_chars(h);
            if p.len() == 0 {
                return Err(not_found("HOME is empty"));
            }
            path_push(&mut p, ".local");
            path_push(&mut p, "share");
            path_push(&mut p, APP_DIRECTORY);
            Ok(chars_to_string(&p))
        },
    }
}

/// The history database: `pookie-paste.db` in the data directory.
pub fn database_path(xdg_data_home: Option<&str>, home: Option<&str>) -> (r: Result<
    String,
    AppPathError,
>)
    ensures
        path_result(r) == match data_directory_spec(opt_str(xdg_data_home), opt_str(home)) {
            Ok(d) => Ok(path_join(d, DATABASE_FILE@)),
            Err(e) => Err(e),
        },
{
    let d = data_directory(xdg_data_home, home)?;
    let mut p = str_chars(d.as_str());
    path_push(&mut p, DATABASE_FILE);
    Ok(chars_to_string(&p))
}

pub fn config_directory(xdg_config_home: Option<&str>, home: Option<&str>) -> (r: Result<
    String,
    AppPathError,
>)
    ensures
        path_result(r) == config_directory_spec(opt_str(xdg_config_home), opt_str(home)),
{
    if let Some(x) = xdg_config_home {
        let mut p = str_chars(x);
        if p.len() > 0 {
            path_push(&mut p, APP_DIRECTORY);
            return Ok(chars_to_string(&p));
        }
    }
    match home {
        None => Err(not_found("neither XDG_CONFIG_HOME nor HOME is available")),
        Some(h) => {
            let mut p = str_chars(h);
            if p.len() == 0 {
                return Err(not_found("HOME is empty"));
            }
            path_push(&mut p, ".config");
            path_push(&mut p, APP_DIRECTORY);
            Ok(chars_to_string(&p))
        },
    }
}

/// The legacy location `.../pookie/config.toml`, looked for when the
/// canonical file does not exist.
pub open spec fn legacy_config_spec(xdg: Option<Seq<char>>, home: Option<Seq<char>>) -> Option<
    Seq<char>,
> {
    match xdg {
        Some(x) if x.len() > 0 => Some(path_join(path_join(x, "pookie"@), CONFIG_FILE@)),
        _ => match home {
            Some(h) if h.len() > 0 => Some(
                path_join(path_join(path_join(h, ".config"@), "pookie"@), CONFIG_FILE@),
            ),
            _ => None,
        },
    }
}

/// The canonical configuration file and the legacy one to try after it.
pub fn config_path_candidates(xdg_config_home: Option<&str>, home: Option<&str>) -> (r: Result<
    (String, Option<String>),
    AppPathError,
>)
    ensures
        match config_directory_spec(opt_str(xdg_config_home), opt_str(home)) {
            Ok(d) => r matches Ok(p) && p.0@ == path_join(d, CONFIG_FILE@) && match p.1 {
                Some(l) => legacy_config_spec(opt_str(xdg_config_home), opt_str(home)) == Some(l@),
                None => legacy_config_spec(opt_str(xdg_config_home), opt_str(home)) is None,
            },
            Err(e) => r matches Err(AppPathError::NotFound(m)) && m@ == e,
        },
{
    let d = config_directory(xdg_config_home, home)?;
    let mut p = str_chars(d.as_str());
    path_push(&mut p, CONFIG_FILE);
    let default_path = chars_to_string(&p);
    if let Some(x) = xdg_config_home {
        let mut l = str_chars(x);
        if l.len() > 0 {
            path_push(&mut l, "pookie");
            path_push(&mut l, CONFIG_FILE);
            return Ok((default_path, Some(chars_to_string(&l))));
        }
    }
    if let Some(h) = home {
        let mut l = str_chars(h);
        if l.len() > 0 {
            path_push(&mut l, ".config");
            path_push(&mut l, "pookie");
            path_push(&mut l, CONFIG_FILE);
            return Ok((default_path, Some(chars_to_string(&l))));
        }
    }
    Ok((default_path, None))
}

/// The configuration file to use: the canonical one if it exists, else the
/// legacy one if that exists, else the canonical one (to be created).
pub fn choose_config_path(
    default_path: String,
    legacy_path: Option<String>,
    default_exists: bool,
    legacy_exists: bool,
) -> (r: String)
    ensures
        r@ == if !default_exists && legacy_exists && legacy_path is Some {
            legacy_path->0@
        } else {
            default_path@
        },
{
    if default_exists {
        return default_path;
    }
    match legacy_path {
        Some(l) => if legacy_exists {
            l
        } else {
            default_path
        },
        None => default_path,
    }
}

} // verus!
