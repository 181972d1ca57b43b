//! The per-operation orchestration state machine.
//!
//! A [`Session`] drives one operation from validation to its final result.
//! It owns no input or output: whenever the machine needs the filesystem,
//! the working-directory resource or a subprocess, it hands the caller an
//! [`Action`]; the caller performs it and feeds the corresponding [`Event`]
//! back through [`Session::advance`]. The contracts pin every transition,
//! so the laws at the end of this module — validation failures skip the
//! subprocess, staging is all-or-nothing, a relocated working context is
//! always restored — are proved, not promised.

use vstd::prelude::*;
use vstd::string::*;
use vstd::pervasive::unreached;
use crate::command::build_branch_query_args;
use crate::command::build_clone_args;
use crate::command::build_commit_args;
use crate::command::build_pull_args;
use crate::command::build_push_args;
use crate::command::build_stage_all_args;
use crate::command::build_stage_file_args;
use crate::command::spec_branch_query_args;
use crate::command::spec_clone_args;
use crate::command::spec_commit_args;
use crate::command::spec_pull_args;
use crate::command::spec_push_args;
use crate::command::spec_stage_all_args;
use crate::command::spec_stage_file_args;
use crate::outcome::OperationResult;
use crate::outcome::ProcessOutcome;
use crate::request::GitOptions;
use crate::request::Operation;
use crate::trim::trim_str;
use crate::trim::trimmed;

verus! {

/// One unit of outside work the caller must perform for the machine.
#[derive(Debug, PartialEq, Eq)]
pub enum Action {
    /// Report whether this path exists.
    CheckDirectory(String),
    /// Create this directory and its missing parents.
    CreateDirectory(String),
    /// Report the process's current working directory.
    ReadWorkingDirectory,
    /// Make this path the process's working directory.
    ChangeDirectory(String),
    /// Run the external binary with these arguments and report its outcome.
    RunGit(Vec<String>),
}

/// The caller's answer to the action of the same shape.
#[derive(Debug, PartialEq, Eq)]
pub enum Event {
    DirectoryChecked(bool),
    DirectoryCreated(Result<(), String>),
    WorkingDirectoryRead(Result<String, String>),
    DirectoryChanged(Result<(), String>),
    GitFinished(Result<ProcessOutcome, String>),
}

/// What the machine asks for next: another action, or the final result.
#[derive(Debug, PartialEq, Eq)]
pub enum Step {
    Do(Action),
    Done(OperationResult),
}

/// Where the machine stands within one operation.
#[derive(Debug, PartialEq, Eq)]
pub enum State {
    /// Awaiting the existence check of the target directory.
    CheckingTarget,
    /// Clone only: awaiting creation of the missing target directory.
    CloneCreating,
    /// Awaiting the outcome of the clone subprocess.
    CloneRunning,
    /// Awaiting the current working directory, to be restored later.
    ReadingContext,
    /// Awaiting confirmation that the working directory moved to the target.
    Relocating { original: String },
    /// Awaiting the outcome of staging every change in the tree.
    StagingAll { original: String },
    /// Awaiting the outcome of staging `current`; `rest` still to stage.
    StagingFile { original: String, current: String, rest: Vec<String> },
    /// Awaiting the outcome of the commit subprocess.
    Committing { original: String },
    /// Awaiting the outcome of the current-branch query.
    QueryingBranch { original: String },
    /// Awaiting the outcome of the pull subprocess.
    PullRunning { original: String },
    /// Awaiting the outcome of the push subprocess.
    PushRunning { original: String },
    /// Awaiting confirmation that the original working directory is back.
    Restoring { pending: OperationResult },
    /// The operation has yielded its result.
    Finished,
}

/// One orchestrated operation in flight.
#[derive(Debug, PartialEq, Eq)]
pub struct Session {
    pub op: Operation,
    pub options: GitOptions,
    pub state: State,
}

impl Session {
    /// Internal consistency: a commit that got past validation carries a
    /// message, the staging and committing states belong to the commit
    /// operation, and a clone never relocates the working directory.
    pub open spec fn wf(self) -> bool {
        &&& (self.op is Commit && !(self.state is Finished)
            ==> self.options.commit_message is Some)
        &&& (self.state is StagingAll || self.state is StagingFile || self.state is Committing
            ==> self.op is Commit)
        &&& (self.state is ReadingContext || self.state is Relocating ==> !(self.op is Clone))
    }

    /// Which kind of event answers the action the machine last requested.
    pub open spec fn expects(self, e: Event) -> bool {
        match self.state {
            State::CheckingTarget => e is DirectoryChecked,
            State::CloneCreating => e is DirectoryCreated,
            State::CloneRunning => e is GitFinished,
            State::ReadingContext => e is WorkingDirectoryRead,
            State::Relocating { .. } => e is DirectoryChanged,
            State::StagingAll { .. } => e is GitFinished,
            State::StagingFile { .. } => e is GitFinished,
            State::Committing { .. } => e is GitFinished,
            State::QueryingBranch { .. } => e is GitFinished,
            State::PullRunning { .. } => e is GitFinished,
            State::PushRunning { .. } => e is GitFinished,
            State::Restoring { .. } => e is DirectoryChanged,
            State::Finished => false,
        }
    }

    /// The working directory has been moved to the target and not yet
    /// restored: the machine is inside its critical section.
    pub open spec fn relocated(self) -> bool {
        match self.state {
            State::StagingAll { .. } => true,
            State::StagingFile { .. } => true,
            State::Committing { .. } => true,
            State::QueryingBranch { .. } => true,
            State::PullRunning { .. } => true,
            State::PushRunning { .. } => true,
            _ => false,
        }
    }

    /// The working directory to restore once the critical section ends.
    pub open spec fn saved_context(self) -> Seq<char> {
        match self.state {
            State::StagingAll { original } => original@,
            State::StagingFile { original, .. } => original@,
            State::Committing { original } => original@,
            State::QueryingBranch { original } => original@,
            State::PullRunning { original } => original@,
            State::PushRunning { original } => original@,
            _ => Seq::<char>::empty(),
        }
    }
}

/// The session finishes at once with this failure message.
pub open spec fn finishes_failure(post: Session, step: Step, msg: Seq<char>) -> bool {
    &&& post.state is Finished
    &&& step matches Step::Done(OperationResult::Failure(m)) && m@ == msg
}

/// The session finishes at once with this success message.
pub open spec fn finishes_success(post: Session, step: Step, msg: Seq<char>) -> bool {
    &&& post.state is Finished
    &&& step matches Step::Done(OperationResult::Success(m)) && m@ == msg
}

/// The session asks for the original working directory back and holds a
/// failure with this message for delivery after the restoration.
pub open spec fn restores_with_failure(
    post: Session,
    step: Step,
    original: String,
    msg: Seq<char>,
) -> bool {
    &&& post.state matches State::Restoring { pending } && pending matches
        OperationResult::Failure(m) && m@ == msg
    &&& step matches Step::Do(Action::ChangeDirectory(d)) && d == original
}

/// The session asks for the original working directory back and holds a
/// success with this message for delivery after the restoration.
pub open spec fn restores_with_success(
    post: Session,
    step: Step,
    original: String,
    msg: Seq<char>,
) -> bool {
    &&& post.state matches State::Restoring { pending } && pending matches
        OperationResult::Success(m) && m@ == msg
    &&& step matches Step::Do(Action::ChangeDirectory(d)) && d == original
}

/// What starting an operation yields: a commit without a message fails
/// validation before anything else happens; every other request first has
/// the target directory checked.
pub open spec fn start_post(op: Operation, options: GitOptions, s: Session, step: Step) -> bool {
    &&& s.op == op
    &&& s.options == options
    &&& if op is Commit && options.commit_message is None {
        &&& s.state is Finished
        &&& step matches Step::Done(OperationResult::Failure(m)) && m@
            == "Commit message is required"@
    } else {
        &&& s.state is CheckingTarget
        &&& step matches Step::Do(Action::CheckDirectory(d)) && d == options.target_dir
    }
}

/// The full transition relation of [`Session::advance`]: for each state and
/// answering event, the successor state and the step handed to the caller.
pub open spec fn advance_post(pre: Session, e: Event, post: Session, step: Step) -> bool {
    &&& post.op == pre.op
    &&& post.options == pre.options
    &&& match pre.state {
        State::CheckingTarget => e matches Event::DirectoryChecked(found) ==> if pre.op
            is Clone {
            if found {
                &&& post.state is CloneRunning
                &&& step matches Step::Do(Action::RunGit(args)) && args.deep_view()
                    == spec_clone_args(
                    pre.options.repo_url@,
                    pre.options.target_dir@,
                    pre.options.branch@,
                )
            } else {
                &&& post.state is CloneCreating
                &&& step matches Step::Do(Action::CreateDirectory(d)) && d
                    == pre.options.target_dir
            }
        } else {
            if found {
                &&& post.state is ReadingContext
                &&& step matches Step::Do(Action::ReadWorkingDirectory)
            } else {
                finishes_failure(
                    post,
                    step,
                    "Directory does not exist: "@ + pre.options.target_dir@,
                )
            }
        },
        State::CloneCreating => e matches Event::DirectoryCreated(res) ==> match res {
            Ok(_) => {
                &&& post.state is CloneRunning
                &&& step matches Step::Do(Action::RunGit(args)) && args.deep_view()
                    == spec_clone_args(
                    pre.options.repo_url@,
                    pre.options.target_dir@,
                    pre.options.branch@,
                )
            },
            Err(err) => finishes_failure(post, step, "Failed to create directory: "@ + err@),
        },
        State::CloneRunning => e matches Event::GitFinished(res) ==> match res {
            Err(err) => finishes_failure(post, step, "Failed to execute git clone: "@ + err@),
            Ok(out) => if out.exit_success {
                finishes_success(
                    post,
                    step,
                    "Repository cloned successfully to "@ + pre.options.target_dir@,
                )
            } else {
                finishes_failure(post, step, "Git clone failed: "@ + out.stderr@)
            },
        },
        State::ReadingContext => e matches Event::WorkingDirectoryRead(res) ==> match res {
            Err(err) => finishes_failure(
                post,
                step,
                "Failed to get current directory: "@ + err@,
            ),
            Ok(original) => {
                &&& post.state matches State::Relocating { original: o } && o == original
                &&& step matches Step::Do(Action::ChangeDirectory(d)) && d
                    == pre.options.target_dir
            },
        },
        State::Relocating { original } => e matches Event::DirectoryChanged(res) ==> match res {
            Err(err) => finishes_failure(post, step, "Failed to change directory: "@ + err@),
            Ok(_) => match pre.op {
                Operation::Pull => {
                    &&& post.state matches State::PullRunning { original: o } && o == original
                    &&& step matches Step::Do(Action::RunGit(args)) && args.deep_view()
                        == spec_pull_args(pre.options.branch@)
                },
                Operation::Push => if pre.options.branch@.len() == 0 {
                    &&& post.state matches State::QueryingBranch { original: o } && o == original
                    &&& step matches Step::Do(Action::RunGit(args)) && args.deep_view()
                        == spec_branch_query_args()
                } else {
                    &&& post.state matches State::PushRunning { original: o } && o == original
                    &&& step matches Step::Do(Action::RunGit(args)) && args.deep_view()
                        == spec_push_args(pre.options.branch@)
                },
                Operation::Commit => match pre.options.files {
                    None => {
                        &&& post.state matches State::StagingAll { original: o } && o == original
                        &&& step matches Step::Do(Action::RunGit(args)) && args.deep_view()
                            == spec_stage_all_args()
                    },
                    Some(fs) => if fs@.len() == 0 {
                        &&& post.state matches State::Committing { original: o } && o == original
                        &&& step matches Step::Do(Action::RunGit(args)) && args.deep_view()
                            == spec_commit_args((pre.options.commit_message->Some_0)@)
                    } else {
                        &&& post.state matches State::StagingFile { original: o, current, rest }
                            && o == original && current == fs@[0] && rest@ == fs@.subrange(
                            1,
                            fs@.len() as int,
                        )
                        &&& step matches Step::Do(Action::RunGit(args)) && args.deep_view()
                            == spec_stage_file_args(fs@[0]@)
                    },
                },
                Operation::Clone => false,
            },
        },
        State::StagingAll { original } => e matches Event::GitFinished(res) ==> match res {
            Err(err) => restores_with_failure(
                post,
                step,
                original,
                "Failed to add files: "@ + err@,
            ),
            Ok(out) => if !out.exit_success {
                restores_with_failure(post, step, original, "Failed to add files: "@ + out.stderr@)
            } else {
                &&& post.state matches State::Committing { original: o } && o == original
                &&& step matches Step::Do(Action::RunGit(args)) && args.deep_view()
                    == spec_commit_args((pre.options.commit_message->Some_0)@)
            },
        },
        State::StagingFile { original, current, rest } => e matches Event::GitFinished(res)
            ==> match res {
            Err(err) => restores_with_failure(
                post,
                step,
                original,
                "Failed to add file "@ + current@ + ": "@ + err@,
            ),
            Ok(out) => if !out.exit_success {
                restores_with_failure(
                    post,
                    step,
                    original,
                    "Failed to add file "@ + current@ + ": "@ + out.stderr@,
                )
            } else if rest@.len() > 0 {
                &&& post.state matches State::StagingFile { original: o, current: c, rest: r } && o
                    == original && c == rest@[0] && r@ == rest@.subrange(1, rest@.len() as int)
                &&& step matches Step::Do(Action::RunGit(args)) && args.deep_view()
                    == spec_stage_file_args(rest@[0]@)
            } else {
                &&& post.state matches State::Committing { original: o } && o == original
                &&& step matches Step::Do(Action::RunGit(args)) && args.deep_view()
                    == spec_commit_args((pre.options.commit_message->Some_0)@)
            },
        },
        State::Committing { original } => e matches Event::GitFinished(res) ==> match res {
            Err(err) => restores_with_failure(
                post,
                step,
                original,
                "Failed to execute git commit: "@ + err@,
            ),
            Ok(out) => if out.exit_success {
                restores_with_success(post, step, original, "Commit successful: "@ + out.stdout@)
            } else {
                restores_with_failure(post, step, original, "Commit failed: "@ + out.stderr@)
            },
        },
        State::QueryingBranch { original } => e matches Event::GitFinished(res) ==> {
            let resolved = match res {
                Err(_) => Seq::<char>::empty(),
                Ok(out) => if out.exit_success {
                    trimmed(out.stdout@)
                } else {
                    Seq::<char>::empty()
                },
            };
            &&& post.state matches State::PushRunning { original: o } && o == original
            &&& step matches Step::Do(Action::RunGit(args)) && args.deep_view() == spec_push_args(
                resolved,
            )
        },
        State::PullRunning { original } => e matches Event::GitFinished(res) ==> match res {
            Err(err) => restores_with_failure(
                post,
                step,
                original,
                "Failed to execute git pull: "@ + err@,
            ),
            Ok(out) => if out.exit_success {
                restores_with_success(post, step, original, "Git pull successful: "@ + out.stdout@)
            } else {
                restores_with_failure(post, step, original, "Git pull failed: "@ + out.stderr@)
            },
        },
        State::PushRunning { original } => e matches Event::GitFinished(res) ==> match res {
            Err(err) => restores_with_failure(
                post,
                step,
                original,
                "Failed to execute git push: "@ + err@,
            ),
            Ok(out) => if out.exit_success {
                restores_with_success(post, step, original, "Git push successful: "@ + out.stdout@)
            } else {
                restores_with_failure(post, step, original, "Git push failed: "@ + out.stderr@)
            },
        },
        State::Restoring { pending } => e matches Event::DirectoryChanged(res) ==> match res {
            Ok(_) => {
                &&& post.state is Finished
                &&& step matches Step::Done(r) && r == pending
            },
            Err(err) => finishes_failure(post, step, "Failed to restore directory: "@ + err@),
        },
        State::Finished => false,
    }
}

/// The commit message of a request that passed commit validation.
fn take_message(options: &GitOptions) -> (m: String)
    requires
        options.commit_message is Some,
    ensures
        m == options.commit_message->Some_0,
{
    match &options.commit_message {
        Some(msg) => msg.clone(),
        None => unreached(),
    }
}

impl Session {
    /// Begins an operation. Validation that needs no filesystem access
    /// happens here: a commit without a message fails at once, before any
    /// relocation or subprocess; every other request is answered with the
    /// existence check of its target directory.
    pub fn start(op: Operation, options: GitOptions) -> (r: (Session, Step))
        ensures
            start_post(op, options, r.0, r.1),
            r.0.wf(),
    {
        let needs_message = match op {
            Operation::Commit => true,
            _ => false,
        };
        if needs_message && options.commit_message.is_none() {
            (
                Session { op, options, state: State::Finished },
                Step::Done(OperationResult::Failure("Commit message is required".to_owned())),
            )
        } else {
            let dir = options.target_dir.clone();
            (
                Session { op, options, state: State::CheckingTarget },
                Step::Do(Action::CheckDirectory(dir)),
            )
        }
    }

    /// Feeds the machine the answer to its pending action and yields what
    /// to do next. The transition relation [`advance_post`] pins the
    /// successor exactly.
    pub fn advance(self, e: Event) -> (r: (Session, Step))
        requires
            self.wf(),
            self.expects(e),
        ensures
            advance_post(self, e, r.0, r.1),
            r.0.wf(),
    {
        let Session { op, options, state } = self;
        match state {
            State::CheckingTarget => match e {
                Event::DirectoryChecked(found) => match op {
                    Operation::Clone => if found {
                        let args = build_clone_args(
                            &options.repo_url,
                            &options.target_dir,
                            &options.branch,
                        );
                        (
                            Session { op, options, state: State::CloneRunning },
                            Step::Do(Action::RunGit(args)),
                        )
                    } else {
                        let dir = options.target_dir.clone();
                        (
                            Session { op, options, state: State::CloneCreating },
                            Step::Do(Action::CreateDirectory(dir)),
                        )
                    },
                    _ => if found {
                        (
                            Session { op, options, state: State::ReadingContext },
                            Step::Do(Action::ReadWorkingDirectory),
                        )
                    } else {
                        let msg = "Directory does not exist: ".to_owned().concat(
                            options.target_dir.as_str(),
                        );
                        (
                            Session { op, options, state: State::Finished },
                            Step::Done(OperationResult::Failure(msg)),
                        )
                    },
                },
                _ => unreached(),
            },
            State::CloneCreating => match e {
                Event::DirectoryCreated(res) => match res {
                    Ok(_) => {
                        let args = build_clone_args(
                            &options.repo_url,
                            &options.target_dir,
                            &options.branch,
                        );
                        (
                            Session { op, options, state: State::CloneRunning },
                            Step::Do(Action::RunGit(args)),
                        )
                    },
                    Err(err) => {
                        let msg = "Failed to create directory: ".to_owned().concat(err.as_str());
                        (
                            Session { op, options, state: State::Finished },
                            Step::Done(OperationResult::Failure(msg)),
                        )
                    },
                },
                _ => unreached(),
            },
            State::CloneRunning => match e {
                Event::GitFinished(res) => {
                    let result = match res {
                        Err(err) => OperationResult::Failure(
                            "Failed to execute git clone: ".to_owned().concat(err.as_str()),
                        ),
                        Ok(out) => if out.exit_success {
                            OperationResult::Success(
                                "Repository cloned successfully to ".to_owned().concat(
                                    options.target_dir.as_str(),
                                ),
                            )
                        } else {
                            OperationResult::Failure(
                                "Git clone failed: ".to_owned().concat(out.stderr.as_str()),
                            )
                        },
                    };
                    (Session { op, options, state: State::Finished }, Step::Done(result))
                },
                _ => unreached(),
            },
            State::ReadingContext => match e {
                Event::WorkingDirectoryRead(res) => match res {
                    Err(err) => {
                        let msg = "Failed to get current directory: ".to_owned().concat(
                            err.as_str(),
                        );
                        (
                            Session { op, options, state: State::Finished },
                            Step::Done(OperationResult::Failure(msg)),
                        )
                    },
                    Ok(original) => {
                        let dir = options.target_dir.clone();
                        (
                            Session { op, options, state: State::Relocating { original } },
                            Step::Do(Action::ChangeDirectory(dir)),
                        )
                    },
                },
                _ => unreached(),
            },
            State::Relocating { original } => match e {
                Event::DirectoryChanged(res) => match res {
                    Err(err) => {
                        let msg = "Failed to change directory: ".to_owned().concat(err.as_str());
                        (
                            Session { op, options, state: State::Finished },
                            Step::Done(OperationResult::Failure(msg)),
                        )
                    },
                    Ok(_) => match op {
                        Operation::Pull => {
                            let args = build_pull_args(&options.branch);
                            (
                                Session { op, options, state: State::PullRunning { original } },
                                Step::Do(Action::RunGit(args)),
                            )
                        },
                        Operation::Push => if options.branch.as_str().is_empty() {
                            let args = build_branch_query_args();
                            (
                                Session { op, options, state: State::QueryingBranch { original } },
                                Step::Do(Action::RunGit(args)),
                            )
                        } else {
                            let args = build_push_args(&options.branch);
                            (
                                Session { op, options, state: State::PushRunning { original } },
                                Step::Do(Action::RunGit(args)),
                            )
                        },
                        Operation::Commit => match &options.files {
                            None => {
                                let args = build_stage_all_args();
                                (
                                    Session { op, options, state: State::StagingAll { original } },
                                    Step::Do(Action::RunGit(args)),
                                )
                            },
                            Some(fs) => if fs.len() == 0 {
                                let message = take_message(&options);
                                let args = build_commit_args(&message);
                                (
                                    Session { op, options, state: State::Committing { original } },
                                    Step::Do(Action::RunGit(args)),
                                )
                            } else {
                                let current = fs[0].clone();
                                let mut rest: Vec<String> = Vec::new();
                                let n: usize = fs.len();
                                let mut i: usize = 1;
                                while i < n
                                    invariant
                                        1 <= i <= n,
                                        n == fs@.len(),
                                        rest@ == fs@.subrange(1, i as int),
                                    decreases n - i,
                                {
                                    rest.push(fs[i].clone());
                                    proof {
                                        assert(rest@ =~= fs@.subrange(1, i as int + 1));
                                    }
                                    i = i + 1;
                                }
                                let args = build_stage_file_args(&current);
                                (
                                    Session {
                                        op,
                                        options,
                                        state: State::StagingFile { original, current, rest },
                                    },
                                    Step::Do(Action::RunGit(args)),
                                )
                            },
                        },
                        Operation::Clone => unreached(),
                    },
                },
                _ => unreached(),
            },
            State::StagingAll { original } => match e {
                Event::GitFinished(res) => match res {
                    Err(err) => {
                        let msg = "Failed to add files: ".to_owned().concat(err.as_str());
                        (
                            Session {
                                op,
                                options,
                                state: State::Restoring {
                                    pending: OperationResult::Failure(msg),
                                },
                            },
                            Step::Do(Action::ChangeDirectory(original)),
                        )
                    },
                    Ok(out) => if !out.exit_success {
                        let msg = "Failed to add files: ".to_owned().concat(out.stderr.as_str());
                        (
                            Session {
                                op,
                                options,
                                state: State::Restoring {
                                    pending: OperationResult::Failure(msg),
                                },
                            },
                            Step::Do(Action::ChangeDirectory(original)),
                        )
                    } else {
                        let message = take_message(&options);
                        let args = build_commit_args(&message);
                        (
                            Session { op, options, state: State::Committing { original } },
                            Step::Do(Action::RunGit(args)),
                        )
                    },
                },
                _ => unreached(),
            },
            State::StagingFile { original, current, rest } => match e {
                Event::GitFinished(res) => match res {
                    Err(err) => {
                        let msg = "Failed to add file ".to_owned().concat(current.as_str()).concat(
                            ": ",
                        ).concat(err.as_str());
                        (
                            Session {
                                op,
                                options,
                                state: State::Restoring {
                                    pending: OperationResult::Failure(msg),
                                },
                            },
                            Step::Do(Action::ChangeDirectory(original)),
                        )
                    },
                    Ok(out) => if !out.exit_success {
                        let msg = "Failed to add file ".to_owned().concat(current.as_str()).concat(
                            ": ",
                        ).concat(out.stderr.as_str());
                        (
                            Session {
                                op,
                                options,
                                state: State::Restoring {
                                    pending: OperationResult::Failure(msg),
                                },
                            },
                            Step::Do(Action::ChangeDirectory(original)),
                        )
                    } else if rest.len() > 0 {
                        let mut remaining = rest;
                        let next = remaining.remove(0);
                        proof {
                            assert(remaining@ =~= rest@.subrange(1, rest@.len() as int));
                        }
                        let args = build_stage_file_args(&next);
                        (
                            Session {
                                op,
                                options,
                                state: State::StagingFile {
                                    original,
                                    current: next,
                                    rest: remaining,
                                },
                            },
                            Step::Do(Action::RunGit(args)),
                        )
                    } else {
                        let message = take_message(&options);
                        let args = build_commit_args(&message);
                        (
                            Session { op, options, state: State::Committing { original } },
                            Step::Do(Action::RunGit(args)),
                        )
                    },
                },
                _ => unreached(),
            },
            State::Committing { original } => match e {
                Event::GitFinished(res) => {
                    let pending = match res {
                        Err(err) => OperationResult::Failure(
                            "Failed to execute git commit: ".to_owned().concat(err.as_str()),
                        ),
                        Ok(out) => if out.exit_success {
                            OperationResult::Success(
                                "Commit successful: ".to_owned().concat(out.stdout.as_str()),
                            )
                        } else {
                            OperationResult::Failure(
                                "Commit failed: ".to_owned().concat(out.stderr.as_str()),
                            )
                        },
                    };
                    (
                        Session { op, options, state: State::Restoring { pending } },
                        Step::Do(Action::ChangeDirectory(original)),
                    )
                },
                _ => unreached(),
            },
            State::QueryingBranch { original } => match e {
                Event::GitFinished(res) => {
                    let resolved = match res {
                        Err(_) => String::new(),
                        Ok(out) => if out.exit_success {
                            trim_str(out.stdout.as_str())
                        } else {
                            String::new()
                        },
                    };
                    let args = build_push_args(&resolved);
                    (
                        Session { op, options, state: State::PushRunning { original } },
                        Step::Do(Action::RunGit(args)),
                    )
                },
                _ => unreached(),
            },
            State::PullRunning { original } => match e {
                Event::GitFinished(res) => {
                    let pending = match res {
                        Err(err) => OperationResult::Failure(
                            "Failed to execute git pull: ".to_owned().concat(err.as_str()),
                        ),
                        Ok(out) => if out.exit_success {
                            OperationResult::Success(
                                "Git pull successful: ".to_owned().concat(out.stdout.as_str()),
                            )
                        } else {
                            OperationResult::Failure(
                                "Git pull failed: ".to_owned().concat(out.stderr.as_str()),
                            )
                        },
                    };
                    (
                        Session { op, options, state: State::Restoring { pending } },
                        Step::Do(Action::ChangeDirectory(original)),
                    )
                },
                _ => unreached(),
            },
            State::PushRunning { original } => match e {
                Event::GitFinished(res) => {
                    let pending = match res {
                        Err(err) => OperationResult::Failure(
                            "Failed to execute git push: ".to_owned().concat(err.as_str()),
                        ),
                        Ok(out) => if out.exit_success {
                            OperationResult::Success(
                                "Git push successful: ".to_owned().concat(out.stdout.as_str()),
                            )
                        } else {
                            OperationResult::Failure(
                                "Git push failed: ".to_owned().concat(out.stderr.as_str()),
                            )
                        },
                    };
                    (
                        Session { op, options, state: State::Restoring { pending } },
                        Step::Do(Action::ChangeDirectory(original)),
                    )
                },
                _ => unreached(),
            },
            State::Restoring { pending } => match e {
                Event::DirectoryChanged(res) => match res {
                    Ok(_) => (
                        Session { op, options, state: State::Finished },
                        Step::Done(pending),
                    ),
                    Err(err) => {
                        let msg = "Failed to restore directory: ".to_owned().concat(err.as_str());
                        (
                            Session { op, options, state: State::Finished },
                            Step::Done(OperationResult::Failure(msg)),
                        )
                    },
                },
                _ => unreached(),
            },
            State::Finished => unreached(),
        }
    }
}

/// A pull, commit or push whose target directory does not exist fails at
/// validation: the session finishes with a failure naming the missing
/// directory, and no subprocess run is ever requested — the step is a
/// final result, not an action, and a finished session answers no further
/// event.
pub proof fn lemma_missing_target_rejected(pre: Session, post: Session, step: Step)
    requires
        pre.state is CheckingTarget,
        !(pre.op is Clone),
        advance_post(pre, Event::DirectoryChecked(false), post, step),
    ensures
        post.state is Finished,
        step matches Step::Done(OperationResult::Failure(m)) && m@ == "Directory does not exist: "@
            + pre.options.target_dir@,
        forall|e: Event| !post.expects(e),
{
}

/// A clone whose target directory does not exist first has the directory
/// created: the step answering the failed existence check is the creation
/// of the target, not a subprocess run.
pub proof fn lemma_clone_creates_directory(pre: Session, post: Session, step: Step)
    requires
        pre.state is CheckingTarget,
        pre.op is Clone,
        advance_post(pre, Event::DirectoryChecked(false), post, step),
    ensures
        post.state is CloneCreating,
        step matches Step::Do(Action::CreateDirectory(d)) && d == pre.options.target_dir,
{
}

/// Only once the missing target directory has been created does the clone
/// subprocess run, with the exact planned argument list.
pub proof fn lemma_clone_runs_after_creation(pre: Session, post: Session, step: Step)
    requires
        pre.state is CloneCreating,
        advance_post(pre, Event::DirectoryCreated(Ok(())), post, step),
    ensures
        post.state is CloneRunning,
        step matches Step::Do(Action::RunGit(args)) && args.deep_view() == spec_clone_args(
            pre.options.repo_url@,
            pre.options.target_dir@,
            pre.options.branch@,
        ),
{
}

/// Once the working directory has been relocated, no transition loses the
/// saved context: every step either stays inside the critical section with
/// the same saved context, or is the request to change back to exactly
/// that context. In particular the session never finishes, and never asks
/// for anything else, while the relocation is still in effect.
pub proof fn lemma_context_restored(pre: Session, e: Event, post: Session, step: Step)
    requires
        pre.relocated(),
        pre.expects(e),
        advance_post(pre, e, post, step),
    ensures
        ({
            ||| post.relocated() && post.saved_context() == pre.saved_context()
            ||| post.state is Restoring && (step matches Step::Do(Action::ChangeDirectory(d)) && d@
                == pre.saved_context())
        }),
{
}

/// The answer to the restoration request finishes the session: a restored
/// context delivers the held result unchanged, and a failed restoration is
/// reported as a failure even when the held result was a success.
pub proof fn lemma_restoration_reported(pre: Session, e: Event, post: Session, step: Step)
    requires
        pre.state is Restoring,
        pre.expects(e),
        advance_post(pre, e, post, step),
    ensures
        post.state is Finished,
        e matches Event::DirectoryChanged(res) ==> match res {
            Ok(_) => step matches Step::Done(r) && r == pre.state->Restoring_pending,
            Err(err) => step matches Step::Done(OperationResult::Failure(m)) && m@
                == "Failed to restore directory: "@ + err@,
        },
{
}

/// A commit request without a message fails its validation outright: the
/// session is born finished, so no directory is checked, no relocation
/// happens and no subprocess is ever requested.
pub proof fn lemma_commit_message_required(options: GitOptions, s: Session, step: Step)
    requires
        options.commit_message is None,
        start_post(Operation::Commit, options, s, step),
    ensures
        s.state is Finished,
        step matches Step::Done(OperationResult::Failure(m)) && m@
            == "Commit message is required"@,
        forall|e: Event| !s.expects(e),
{
}

/// Staging is all-or-nothing: the first staging failure sends the session
/// straight to restoration, holding a failure that names the rejected file
/// verbatim — the remaining files are never staged and the commit
/// subprocess never runs.
pub proof fn lemma_staging_short_circuit(pre: Session, out: ProcessOutcome, post: Session, step: Step)
    requires
        pre.state is StagingFile,
        !out.exit_success,
        advance_post(pre, Event::GitFinished(Ok(out)), post, step),
    ensures
        post.state is Restoring,
        post.state->Restoring_pending matches OperationResult::Failure(m) && m@
            == "Failed to add file "@ + (pre.state->StagingFile_current)@ + ": "@ + out.stderr@,
        step matches Step::Do(Action::ChangeDirectory(d)) && d == pre.state->StagingFile_original,
{
}

/// When no branch was named and the branch-resolution query cannot even be
/// launched, the push degrades to an unqualified `push` instead of failing.
pub proof fn lemma_push_fallback_on_query_error(pre: Session, err: String, post: Session, step: Step)
    requires
        pre.state is QueryingBranch,
        advance_post(pre, Event::GitFinished(Err(err)), post, step),
    ensures
        post.state is PushRunning,
        step matches Step::Do(Action::RunGit(args)) && args.deep_view() == seq!["push"@],
{
}

/// A clone never holds the working-directory resource: from any state a
/// well-formed clone session can be in outside the critical section, no
/// transition relocates the working directory or asks for a restoration.
/// Concurrent clones therefore need no mutual exclusion against the
/// relocating operations.
pub proof fn lemma_clone_never_relocates(pre: Session, e: Event, post: Session, step: Step)
    requires
        pre.wf(),
        pre.expects(e),
        pre.op is Clone,
        !pre.relocated(),
        !(pre.state is Restoring),
        advance_post(pre, e, post, step),
    ensures
        !post.relocated(),
        !(post.state is Restoring),
{
}

/// When no branch was named and the branch-resolution query ran but
/// reported failure, the push likewise degrades to an unqualified `push`.
pub proof fn lemma_push_fallback_on_query_failure(
    pre: Session,
    out: ProcessOutcome,
    post: Session,
    step: Step,
)
    requires
        pre.state is QueryingBranch,
        !out.exit_success,
        advance_post(pre, Event::GitFinished(Ok(out)), post, step),
    ensures
        post.state is PushRunning,
        step matches Step::Do(Action::RunGit(args)) && args.deep_view() == seq!["push"@],
{
}

} // verus!
