//! Requests accepted by the orchestration core.

use vstd::prelude::*;

verus! {

/// The version-control operations the core knows how to orchestrate.
#[derive(Clone, Copy, Debug, PartialEq, Eq, Structural)]
pub enum Operation {
    Clone,
    Pull,
    Commit,
    Push,
}

/// A structured request for one operation.
///
/// `target_dir` names the repository directory the operation acts on.
/// `commit_message` is consulted only by the commit operation, where its
/// absence is a validation error. `files`, when present, lists the paths to
/// stage one by one; when absent it means "stage everything in the tree".
#[derive(Debug, PartialEq, Eq)]
pub struct GitOptions {
    pub branch: String,
    pub repo_url: String,
    pub target_dir: String,
    pub commit_message: Option<String>,
    pub files: Option<Vec<String>>,
}

} // verus!
