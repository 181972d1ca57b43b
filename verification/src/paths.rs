//! The pure half of path validation.
//!
//! Whether a path names a repository is decided in two stages: this module
//! rejects absent or blank paths outright and names the marker directory to
//! look for; the caller answers the remaining filesystem questions.

use vstd::prelude::*;
use vstd::string::*;
use crate::trim::trimmed;
use crate::trim::trim_str;

verus! {

/// Decides whether a repository check needs to look at the filesystem at
/// all. An absent or blank path is never a repository, so the check
/// answers false without touching the filesystem; any other path is handed
/// back for inspection.
pub fn repo_probe(path: Option<&str>) -> (r: Option<String>)
    ensures
        match path {
            None => r is None,
            Some(p) => if trimmed(p@).len() == 0 {
                r is None
            } else {
                r matches Some(q) && q@ == p@
            },
        },
{
    match path {
        None => None,
        Some(p) => {
            let t = trim_str(p);
            if t.as_str().is_empty() {
                None
            } else {
                Some(p.to_owned())
            }
        },
    }
}

/// The path of the repository marker subdirectory under a directory.
pub fn git_marker_path(dir: &str) -> (r: String)
    ensures
        r@ == dir@ + "/.git"@,
{
    dir.to_owned().concat("/.git")
}

} // verus!
