//! Pure construction of the argument lists handed to the external binary.
//!
//! Each builder returns the exact ordered argument vector for one
//! subprocess invocation; the spec functions state those vectors as
//! sequences of character sequences.

use vstd::prelude::*;
use vstd::string::*;

verus! {

/// Arguments for cloning: `clone <repo_url> <target_dir>`, with an explicit
/// branch selector appended only for a branch that is neither empty nor one
/// of the two conventional default branch names.
pub open spec fn spec_clone_args(
    repo_url: Seq<char>,
    target_dir: Seq<char>,
    branch: Seq<char>,
) -> Seq<Seq<char>> {
    let base = seq!["clone"@, repo_url, target_dir];
    if branch.len() > 0 && branch != "main"@ && branch != "master"@ {
        base + seq!["--branch"@, branch]
    } else {
        base
    }
}

/// Arguments for pulling: `pull`, qualified with `origin <branch>` only
/// when a branch was named.
pub open spec fn spec_pull_args(branch: Seq<char>) -> Seq<Seq<char>> {
    if branch.len() > 0 {
        seq!["pull"@, "origin"@, branch]
    } else {
        seq!["pull"@]
    }
}

/// Arguments for staging one named file.
pub open spec fn spec_stage_file_args(file: Seq<char>) -> Seq<Seq<char>> {
    seq!["add"@, file]
}

/// Arguments for staging every change in the tree.
pub open spec fn spec_stage_all_args() -> Seq<Seq<char>> {
    seq!["add"@, "."@]
}

/// Arguments for recording the staged changes under a message.
pub open spec fn spec_commit_args(message: Seq<char>) -> Seq<Seq<char>> {
    seq!["commit"@, "-m"@, message]
}

/// Arguments for pushing: `push origin <branch>` when a branch name is at
/// hand, and an unqualified `push` otherwise, leaving remote and branch to
/// the external binary's own defaults.
pub open spec fn spec_push_args(branch: Seq<char>) -> Seq<Seq<char>> {
    if branch.len() > 0 {
        seq!["push"@, "origin"@, branch]
    } else {
        seq!["push"@]
    }
}

/// Arguments of the read-only query for the currently checked-out branch.
pub open spec fn spec_branch_query_args() -> Seq<Seq<char>> {
    seq!["branch"@, "--show-current"@]
}

pub fn build_clone_args(repo_url: &String, target_dir: &String, branch: &String) -> (args: Vec<
    String,
>)
    ensures
        args.deep_view() == spec_clone_args(repo_url@, target_dir@, branch@),
{
    let mut args: Vec<String> = Vec::new();
    args.push("clone".to_owned());
    args.push(repo_url.clone());
    args.push(target_dir.clone());
    let named_branch = !branch.as_str().is_empty() && !(*branch == "main".to_owned()) && !(*branch
        == "master".to_owned());
    if named_branch {
        args.push("--branch".to_owned());
        args.push(branch.clone());
    }
    proof {
        assert(args.deep_view() =~= spec_clone_args(repo_url@, target_dir@, branch@));
    }
    args
}

pub fn build_pull_args(branch: &String) -> (args: Vec<String>)
    ensures
        args.deep_view() == spec_pull_args(branch@),
{
    let mut args: Vec<String> = Vec::new();
    args.push("pull".to_owned());
    if !branch.as_str().is_empty() {
        args.push("origin".to_owned());
        args.push(branch.clone());
    }
    proof {
        assert(args.deep_view() =~= spec_pull_args(branch@));
    }
    args
}

pub fn build_stage_file_args(file: &String) -> (args: Vec<String>)
    ensures
        args.deep_view() == spec_stage_file_args(file@),
{
    let mut args: Vec<String> = Vec::new();
    args.push("add".to_owned());
    args.push(file.clone());
    proof {
        assert(args.deep_view() =~= spec_stage_file_args(file@));
    }
    args
}

pub fn build_stage_all_args() -> (args: Vec<String>)
    ensures
        args.deep_view() == spec_stage_all_args(),
{
    let mut args: Vec<String> = Vec::new();
    args.push("add".to_owned());
    args.push(".".to_owned());
    proof {
        assert(args.deep_view() =~= spec_stage_all_args());
    }
    args
}

pub fn build_commit_args(message: &String) -> (args: Vec<String>)
    ensures
        args.deep_view() == spec_commit_args(message@),
{
    let mut args: Vec<String> = Vec::new();
    args.push("commit".to_owned());
    args.push("-m".to_owned());
    args.push(message.clone());
    proof {
        assert(args.deep_view() =~= spec_commit_args(message@));
    }
    args
}

pub fn build_push_args(branch: &String) -> (args: Vec<String>)
    ensures
        args.deep_view() == spec_push_args(branch@),
{
    let mut args: Vec<String> = Vec::new();
    args.push("push".to_owned());
    if !branch.as_str().is_empty() {
        args.push("origin".to_owned());
        args.push(branch.clone());
    }
    proof {
        assert(args.deep_view() =~= spec_push_args(branch@));
    }
    args
}

pub fn build_branch_query_args() -> (args: Vec<String>)
    ensures
        args.deep_view() == spec_branch_query_args(),
{
    let mut args: Vec<String> = Vec::new();
    args.push("branch".to_owned());
    args.push("--show-current".to_owned());
    proof {
        assert(args.deep_view() =~= spec_branch_query_args());
    }
    args
}

} // verus!
