use git_ops::outcome::OperationResult;
use git_ops::outcome::ProcessOutcome;
use git_ops::request::GitOptions;
use git_ops::request::Operation;
use git_ops::session::Action;
use git_ops::session::Event;
use git_ops::session::Session;
use git_ops::session::Step;

fn s(v: &str) -> String {
    v.to_string()
}

fn options(branch: &str, repo_url: &str, target_dir: &str) -> GitOptions {
    GitOptions {
        branch: s(branch),
        repo_url: s(repo_url),
        target_dir: s(target_dir),
        commit_message: None,
        files: None,
    }
}

fn ran(exit_success: bool, stdout: &str, stderr: &str) -> Event {
    Event::GitFinished(Ok(ProcessOutcome {
        exit_success,
        stdout: s(stdout),
        stderr: s(stderr),
    }))
}

/// Unwraps the action of a step, failing the test on a final result.
fn action_of(step: Step) -> Action {
    match step {
        Step::Do(a) => a,
        Step::Done(r) => panic!("expected another action, got result {:?}", r),
    }
}

fn result_of(step: Step) -> OperationResult {
    match step {
        Step::Done(r) => r,
        Step::Do(a) => panic!("expected the final result, got action {:?}", a),
    }
}

#[test]
fn pull_missing_target_fails_without_subprocess() {
    let (session, step) = Session::start(Operation::Pull, options("", "", "/nope"));
    assert_eq!(action_of(step), Action::CheckDirectory(s("/nope")));
    let (_, step) = session.advance(Event::DirectoryChecked(false));
    assert_eq!(
        result_of(step),
        OperationResult::Failure(s("Directory does not exist: /nope"))
    );
}

#[test]
fn push_missing_target_fails_without_subprocess() {
    let (session, step) = Session::start(Operation::Push, options("dev", "", "/gone"));
    assert_eq!(action_of(step), Action::CheckDirectory(s("/gone")));
    let (_, step) = session.advance(Event::DirectoryChecked(false));
    assert_eq!(
        result_of(step),
        OperationResult::Failure(s("Directory does not exist: /gone"))
    );
}

#[test]
fn commit_without_message_fails_before_anything_runs() {
    let mut opts = options("", "", "/repo");
    opts.files = Some(vec![s("a.txt")]);
    let (_, step) = Session::start(Operation::Commit, opts);
    assert_eq!(
        result_of(step),
        OperationResult::Failure(s("Commit message is required"))
    );
}

#[test]
fn clone_creates_missing_directory_before_running() {
    let (session, step) = Session::start(
        Operation::Clone,
        options("main", "https://example/repo.git", "/tmp/x"),
    );
    assert_eq!(action_of(step), Action::CheckDirectory(s("/tmp/x")));
    let (session, step) = session.advance(Event::DirectoryChecked(false));
    assert_eq!(action_of(step), Action::CreateDirectory(s("/tmp/x")));
    let (_, step) = session.advance(Event::DirectoryCreated(Ok(())));
    assert_eq!(
        action_of(step),
        Action::RunGit(vec![s("clone"), s("https://example/repo.git"), s("/tmp/x")])
    );
}

#[test]
fn clone_failed_directory_creation_is_reported() {
    let (session, step) = Session::start(Operation::Clone, options("", "u", "/tmp/x"));
    assert_eq!(action_of(step), Action::CheckDirectory(s("/tmp/x")));
    let (session, _) = session.advance(Event::DirectoryChecked(false));
    let (_, step) = session.advance(Event::DirectoryCreated(Err(s("permission denied"))));
    assert_eq!(
        result_of(step),
        OperationResult::Failure(s("Failed to create directory: permission denied"))
    );
}

#[test]
fn clone_success_and_failure_messages() {
    let (session, _) = Session::start(
        Operation::Clone,
        options("feature/x", "https://example/repo.git", "/tmp/x"),
    );
    let (session, step) = session.advance(Event::DirectoryChecked(true));
    assert_eq!(
        action_of(step),
        Action::RunGit(vec![
            s("clone"),
            s("https://example/repo.git"),
            s("/tmp/x"),
            s("--branch"),
            s("feature/x"),
        ])
    );
    let (_, step) = session.advance(ran(true, "", ""));
    assert_eq!(
        result_of(step),
        OperationResult::Success(s("Repository cloned successfully to /tmp/x"))
    );

    let (session, _) = Session::start(Operation::Clone, options("", "u", "/tmp/x"));
    let (session, _) = session.advance(Event::DirectoryChecked(true));
    let (_, step) = session.advance(ran(false, "", "remote hung up"));
    assert_eq!(
        result_of(step),
        OperationResult::Failure(s("Git clone failed: remote hung up"))
    );
}

#[test]
fn clone_spawn_failure_is_distinguished() {
    let (session, _) = Session::start(Operation::Clone, options("", "u", "/tmp/x"));
    let (session, _) = session.advance(Event::DirectoryChecked(true));
    let (_, step) = session.advance(Event::GitFinished(Err(s("binary missing"))));
    assert_eq!(
        result_of(step),
        OperationResult::Failure(s("Failed to execute git clone: binary missing"))
    );
}

#[test]
fn pull_relocates_runs_and_restores() {
    let (session, step) = Session::start(Operation::Pull, options("dev", "", "/repo"));
    assert_eq!(action_of(step), Action::CheckDirectory(s("/repo")));
    let (session, step) = session.advance(Event::DirectoryChecked(true));
    assert_eq!(action_of(step), Action::ReadWorkingDirectory);
    let (session, step) = session.advance(Event::WorkingDirectoryRead(Ok(s("/orig"))));
    assert_eq!(action_of(step), Action::ChangeDirectory(s("/repo")));
    let (session, step) = session.advance(Event::DirectoryChanged(Ok(())));
    assert_eq!(action_of(step), Action::RunGit(vec![s("pull"), s("origin"), s("dev")]));
    let (session, step) = session.advance(ran(true, "Already up to date.\n", ""));
    assert_eq!(action_of(step), Action::ChangeDirectory(s("/orig")));
    let (_, step) = session.advance(Event::DirectoryChanged(Ok(())));
    assert_eq!(
        result_of(step),
        OperationResult::Success(s("Git pull successful: Already up to date.\n"))
    );
}

#[test]
fn pull_restores_even_after_subprocess_failure() {
    let (session, _) = Session::start(Operation::Pull, options("", "", "/repo"));
    let (session, _) = session.advance(Event::DirectoryChecked(true));
    let (session, _) = session.advance(Event::WorkingDirectoryRead(Ok(s("/orig"))));
    let (session, step) = session.advance(Event::DirectoryChanged(Ok(())));
    assert_eq!(action_of(step), Action::RunGit(vec![s("pull")]));
    let (session, step) = session.advance(ran(false, "", "merge conflict"));
    assert_eq!(action_of(step), Action::ChangeDirectory(s("/orig")));
    let (_, step) = session.advance(Event::DirectoryChanged(Ok(())));
    assert_eq!(
        result_of(step),
        OperationResult::Failure(s("Git pull failed: merge conflict"))
    );
}

#[test]
fn pull_restores_even_when_subprocess_cannot_start() {
    let (session, _) = Session::start(Operation::Pull, options("", "", "/repo"));
    let (session, _) = session.advance(Event::DirectoryChecked(true));
    let (session, _) = session.advance(Event::WorkingDirectoryRead(Ok(s("/orig"))));
    let (session, _) = session.advance(Event::DirectoryChanged(Ok(())));
    let (session, step) = session.advance(Event::GitFinished(Err(s("not found"))));
    assert_eq!(action_of(step), Action::ChangeDirectory(s("/orig")));
    let (_, step) = session.advance(Event::DirectoryChanged(Ok(())));
    assert_eq!(
        result_of(step),
        OperationResult::Failure(s("Failed to execute git pull: not found"))
    );
}

#[test]
fn restore_failure_overrides_success() {
    let (session, _) = Session::start(Operation::Pull, options("", "", "/repo"));
    let (session, _) = session.advance(Event::DirectoryChecked(true));
    let (session, _) = session.advance(Event::WorkingDirectoryRead(Ok(s("/orig"))));
    let (session, _) = session.advance(Event::DirectoryChanged(Ok(())));
    let (session, _) = session.advance(ran(true, "ok\n", ""));
    let (_, step) = session.advance(Event::DirectoryChanged(Err(s("orig is gone"))));
    assert_eq!(
        result_of(step),
        OperationResult::Failure(s("Failed to restore directory: orig is gone"))
    );
}

#[test]
fn failed_relocation_aborts_without_restore() {
    let (session, _) = Session::start(Operation::Pull, options("", "", "/repo"));
    let (session, _) = session.advance(Event::DirectoryChecked(true));
    let (session, _) = session.advance(Event::WorkingDirectoryRead(Ok(s("/orig"))));
    let (_, step) = session.advance(Event::DirectoryChanged(Err(s("denied"))));
    assert_eq!(
        result_of(step),
        OperationResult::Failure(s("Failed to change directory: denied"))
    );
}

#[test]
fn unreadable_working_directory_aborts() {
    let (session, _) = Session::start(Operation::Pull, options("", "", "/repo"));
    let (session, _) = session.advance(Event::DirectoryChecked(true));
    let (_, step) = session.advance(Event::WorkingDirectoryRead(Err(s("no cwd"))));
    assert_eq!(
        result_of(step),
        OperationResult::Failure(s("Failed to get current directory: no cwd"))
    );
}

#[test]
fn commit_stages_each_file_then_commits() {
    let mut opts = options("", "", "/repo");
    opts.commit_message = Some(s("msg"));
    opts.files = Some(vec![s("a.txt"), s("b.txt")]);
    let (session, _) = Session::start(Operation::Commit, opts);
    let (session, _) = session.advance(Event::DirectoryChecked(true));
    let (session, _) = session.advance(Event::WorkingDirectoryRead(Ok(s("/orig"))));
    let (session, step) = session.advance(Event::DirectoryChanged(Ok(())));
    assert_eq!(action_of(step), Action::RunGit(vec![s("add"), s("a.txt")]));
    let (session, step) = session.advance(ran(true, "", ""));
    assert_eq!(action_of(step), Action::RunGit(vec![s("add"), s("b.txt")]));
    let (session, step) = session.advance(ran(true, "", ""));
    assert_eq!(action_of(step), Action::RunGit(vec![s("commit"), s("-m"), s("msg")]));
    let (session, step) = session.advance(ran(true, "1 file changed\n", ""));
    assert_eq!(action_of(step), Action::ChangeDirectory(s("/orig")));
    let (_, step) = session.advance(Event::DirectoryChanged(Ok(())));
    assert_eq!(
        result_of(step),
        OperationResult::Success(s("Commit successful: 1 file changed\n"))
    );
}

#[test]
fn first_staging_failure_aborts_remaining_files_and_commit() {
    let mut opts = options("", "", "/repo");
    opts.commit_message = Some(s("msg"));
    opts.files = Some(vec![s("a.txt"), s("b.txt")]);
    let (session, _) = Session::start(Operation::Commit, opts);
    let (session, _) = session.advance(Event::DirectoryChecked(true));
    let (session, _) = session.advance(Event::WorkingDirectoryRead(Ok(s("/orig"))));
    let (session, step) = session.advance(Event::DirectoryChanged(Ok(())));
    assert_eq!(action_of(step), Action::RunGit(vec![s("add"), s("a.txt")]));
    let (session, step) = session.advance(ran(false, "", "bad object"));
    assert_eq!(action_of(step), Action::ChangeDirectory(s("/orig")));
    let (_, step) = session.advance(Event::DirectoryChanged(Ok(())));
    assert_eq!(
        result_of(step),
        OperationResult::Failure(s("Failed to add file a.txt: bad object"))
    );
}

#[test]
fn commit_without_file_list_stages_everything() {
    let mut opts = options("", "", "/repo");
    opts.commit_message = Some(s("msg"));
    let (session, _) = Session::start(Operation::Commit, opts);
    let (session, _) = session.advance(Event::DirectoryChecked(true));
    let (session, _) = session.advance(Event::WorkingDirectoryRead(Ok(s("/orig"))));
    let (session, step) = session.advance(Event::DirectoryChanged(Ok(())));
    assert_eq!(action_of(step), Action::RunGit(vec![s("add"), s(".")]));
    let (session, step) = session.advance(ran(false, "", "index locked"));
    assert_eq!(action_of(step), Action::ChangeDirectory(s("/orig")));
    let (_, step) = session.advance(Event::DirectoryChanged(Ok(())));
    assert_eq!(
        result_of(step),
        OperationResult::Failure(s("Failed to add files: index locked"))
    );
}

#[test]
fn commit_with_empty_file_list_commits_at_once() {
    let mut opts = options("", "", "/repo");
    opts.commit_message = Some(s("msg"));
    opts.files = Some(vec![]);
    let (session, _) = Session::start(Operation::Commit, opts);
    let (session, _) = session.advance(Event::DirectoryChecked(true));
    let (session, _) = session.advance(Event::WorkingDirectoryRead(Ok(s("/orig"))));
    let (session, step) = session.advance(Event::DirectoryChanged(Ok(())));
    assert_eq!(action_of(step), Action::RunGit(vec![s("commit"), s("-m"), s("msg")]));
    let (session, step) = session.advance(ran(false, "", "nothing to commit"));
    assert_eq!(action_of(step), Action::ChangeDirectory(s("/orig")));
    let (_, step) = session.advance(Event::DirectoryChanged(Ok(())));
    assert_eq!(
        result_of(step),
        OperationResult::Failure(s("Commit failed: nothing to commit"))
    );
}

#[test]
fn staging_spawn_failure_names_the_file() {
    let mut opts = options("", "", "/repo");
    opts.commit_message = Some(s("msg"));
    opts.files = Some(vec![s("a.txt"), s("b.txt")]);
    let (session, _) = Session::start(Operation::Commit, opts);
    let (session, _) = session.advance(Event::DirectoryChecked(true));
    let (session, _) = session.advance(Event::WorkingDirectoryRead(Ok(s("/orig"))));
    let (session, _) = session.advance(Event::DirectoryChanged(Ok(())));
    let (session, step) = session.advance(Event::GitFinished(Err(s("binary missing"))));
    assert_eq!(action_of(step), Action::ChangeDirectory(s("/orig")));
    let (_, step) = session.advance(Event::DirectoryChanged(Ok(())));
    assert_eq!(
        result_of(step),
        OperationResult::Failure(s("Failed to add file a.txt: binary missing"))
    );
}

#[test]
fn stage_all_spawn_failure_is_reported() {
    let mut opts = options("", "", "/repo");
    opts.commit_message = Some(s("msg"));
    let (session, _) = Session::start(Operation::Commit, opts);
    let (session, _) = session.advance(Event::DirectoryChecked(true));
    let (session, _) = session.advance(Event::WorkingDirectoryRead(Ok(s("/orig"))));
    let (session, _) = session.advance(Event::DirectoryChanged(Ok(())));
    let (session, step) = session.advance(Event::GitFinished(Err(s("binary missing"))));
    assert_eq!(action_of(step), Action::ChangeDirectory(s("/orig")));
    let (_, step) = session.advance(Event::DirectoryChanged(Ok(())));
    assert_eq!(
        result_of(step),
        OperationResult::Failure(s("Failed to add files: binary missing"))
    );
}

#[test]
fn commit_spawn_failure_is_reported() {
    let mut opts = options("", "", "/repo");
    opts.commit_message = Some(s("msg"));
    opts.files = Some(vec![]);
    let (session, _) = Session::start(Operation::Commit, opts);
    let (session, _) = session.advance(Event::DirectoryChecked(true));
    let (session, _) = session.advance(Event::WorkingDirectoryRead(Ok(s("/orig"))));
    let (session, _) = session.advance(Event::DirectoryChanged(Ok(())));
    let (session, step) = session.advance(Event::GitFinished(Err(s("binary missing"))));
    assert_eq!(action_of(step), Action::ChangeDirectory(s("/orig")));
    let (_, step) = session.advance(Event::DirectoryChanged(Ok(())));
    assert_eq!(
        result_of(step),
        OperationResult::Failure(s("Failed to execute git commit: binary missing"))
    );
}

#[test]
fn push_spawn_failure_is_reported() {
    let (session, _) = Session::start(Operation::Push, options("dev", "", "/repo"));
    let (session, _) = session.advance(Event::DirectoryChecked(true));
    let (session, _) = session.advance(Event::WorkingDirectoryRead(Ok(s("/orig"))));
    let (session, _) = session.advance(Event::DirectoryChanged(Ok(())));
    let (session, step) = session.advance(Event::GitFinished(Err(s("binary missing"))));
    assert_eq!(action_of(step), Action::ChangeDirectory(s("/orig")));
    let (_, step) = session.advance(Event::DirectoryChanged(Ok(())));
    assert_eq!(
        result_of(step),
        OperationResult::Failure(s("Failed to execute git push: binary missing"))
    );
}

#[test]
fn push_with_branch_pushes_to_origin() {
    let (session, _) = Session::start(Operation::Push, options("dev", "", "/repo"));
    let (session, _) = session.advance(Event::DirectoryChecked(true));
    let (session, _) = session.advance(Event::WorkingDirectoryRead(Ok(s("/orig"))));
    let (session, step) = session.advance(Event::DirectoryChanged(Ok(())));
    assert_eq!(action_of(step), Action::RunGit(vec![s("push"), s("origin"), s("dev")]));
    let (session, step) = session.advance(ran(true, "pushed\n", ""));
    assert_eq!(action_of(step), Action::ChangeDirectory(s("/orig")));
    let (_, step) = session.advance(Event::DirectoryChanged(Ok(())));
    assert_eq!(
        result_of(step),
        OperationResult::Success(s("Git push successful: pushed\n"))
    );
}

#[test]
fn push_empty_branch_with_failing_query_falls_back_to_plain_push() {
    let (session, _) = Session::start(Operation::Push, options("", "", "/repo"));
    let (session, _) = session.advance(Event::DirectoryChecked(true));
    let (session, _) = session.advance(Event::WorkingDirectoryRead(Ok(s("/orig"))));
    let (session, step) = session.advance(Event::DirectoryChanged(Ok(())));
    assert_eq!(action_of(step), Action::RunGit(vec![s("branch"), s("--show-current")]));
    let (session, step) = session.advance(ran(false, "", "not a repository"));
    assert_eq!(action_of(step), Action::RunGit(vec![s("push")]));
    let (session, step) = session.advance(ran(false, "", "no upstream"));
    assert_eq!(action_of(step), Action::ChangeDirectory(s("/orig")));
    let (_, step) = session.advance(Event::DirectoryChanged(Ok(())));
    assert_eq!(
        result_of(step),
        OperationResult::Failure(s("Git push failed: no upstream"))
    );
}

#[test]
fn push_query_spawn_failure_also_falls_back() {
    let (session, _) = Session::start(Operation::Push, options("", "", "/repo"));
    let (session, _) = session.advance(Event::DirectoryChecked(true));
    let (session, _) = session.advance(Event::WorkingDirectoryRead(Ok(s("/orig"))));
    let (session, _) = session.advance(Event::DirectoryChanged(Ok(())));
    let (_, step) = session.advance(Event::GitFinished(Err(s("binary missing"))));
    assert_eq!(action_of(step), Action::RunGit(vec![s("push")]));
}

#[test]
fn push_query_result_is_trimmed_and_used() {
    let (session, _) = Session::start(Operation::Push, options("", "", "/repo"));
    let (session, _) = session.advance(Event::DirectoryChecked(true));
    let (session, _) = session.advance(Event::WorkingDirectoryRead(Ok(s("/orig"))));
    let (session, _) = session.advance(Event::DirectoryChanged(Ok(())));
    let (_, step) = session.advance(ran(true, "main\n", ""));
    assert_eq!(action_of(step), Action::RunGit(vec![s("push"), s("origin"), s("main")]));
}

#[test]
fn push_query_blank_result_falls_back() {
    let (session, _) = Session::start(Operation::Push, options("", "", "/repo"));
    let (session, _) = session.advance(Event::DirectoryChecked(true));
    let (session, _) = session.advance(Event::WorkingDirectoryRead(Ok(s("/orig"))));
    let (session, _) = session.advance(Event::DirectoryChanged(Ok(())));
    let (_, step) = session.advance(ran(true, "\n", ""));
    assert_eq!(action_of(step), Action::RunGit(vec![s("push")]));
}
