use rustrto::cmd::backup::{
    first_command, next_after, remark_after, remark_before_push, shown, words_of, BackupCommand,
    BackupFlow,
};
use rustrto::ui::app::Tone;
use rustrto::ui::backup::{
    backup_after, backup_command, first_backup_step, reads_output, BackupNext, BackupStep,
    CommandReport,
};

fn report(started: bool, success: bool, stdout: &str, stderr: &str, error: &str) -> CommandReport {
    CommandReport {
        started,
        success,
        stdout: stdout.to_string(),
        stderr: stderr.to_string(),
        error: error.to_string(),
    }
}

fn ok() -> CommandReport {
    report(true, true, "", "", "")
}

fn failed() -> CommandReport {
    report(true, false, "", "", "")
}

#[test]
fn screen_backup_commands() {
    assert_eq!(first_backup_step(), BackupStep::CheckRepo);
    assert_eq!(
        backup_command(BackupStep::CheckRepo, "/data", "now"),
        vec!["-C", "/data", "rev-parse", "--is-inside-work-tree"]
    );
    assert_eq!(backup_command(BackupStep::Stage, "/data", "now"), vec!["-C", "/data", "add", "."]);
    assert_eq!(
        backup_command(BackupStep::Commit, "/data", "2025-01-06-10-00-00-123"),
        vec!["-C", "/data", "commit", "-m", "backup 2025-01-06-10-00-00-123"]
    );
    assert_eq!(
        backup_command(BackupStep::CheckRemote, "/data", "now"),
        vec!["-C", "/data", "remote", "get-url", "origin"]
    );
    assert_eq!(backup_command(BackupStep::Push, "/data", "now"), vec!["-C", "/data", "push"]);
}

#[test]
fn screen_backup_reads_only_the_commit() {
    assert!(reads_output(BackupStep::Commit));
    assert!(!reads_output(BackupStep::CheckRepo));
    assert!(!reads_output(BackupStep::Stage));
    assert!(!reads_output(BackupStep::CheckRemote));
    assert!(!reads_output(BackupStep::Push));
}

#[test]
fn screen_backup_goes_step_by_step() {
    assert_eq!(
        backup_after(BackupStep::CheckRepo, &ok(), "/data", "t"),
        BackupNext::Run(BackupStep::Stage)
    );
    assert_eq!(
        backup_after(BackupStep::Stage, &ok(), "/data", "t"),
        BackupNext::Run(BackupStep::Commit)
    );
    assert_eq!(
        backup_after(BackupStep::Commit, &report(true, true, "1 file changed", "", ""), "/data", "t"),
        BackupNext::Run(BackupStep::CheckRemote)
    );
    assert_eq!(
        backup_after(BackupStep::CheckRemote, &ok(), "/data", "t"),
        BackupNext::Run(BackupStep::Push)
    );
    assert_eq!(
        backup_after(BackupStep::Push, &ok(), "/data", "t"),
        BackupNext::Done("Backed up & pushed — t".to_string(), Tone::Green)
    );
}

#[test]
fn screen_backup_ends_early() {
    assert_eq!(
        backup_after(BackupStep::CheckRepo, &failed(), "/data", "t"),
        BackupNext::Done("'/data' is not a git repo — backup skipped".to_string(), Tone::DarkGray)
    );
    assert_eq!(
        backup_after(BackupStep::CheckRepo, &report(false, true, "", "", "no git"), "/data", "t"),
        BackupNext::Done("'/data' is not a git repo — backup skipped".to_string(), Tone::DarkGray)
    );
    assert_eq!(
        backup_after(BackupStep::Stage, &failed(), "/data", "t"),
        BackupNext::Done("git add failed".to_string(), Tone::Red)
    );
    assert_eq!(
        backup_after(BackupStep::Commit, &report(false, false, "", "", "not found"), "/data", "t"),
        BackupNext::Done("git commit error: not found".to_string(), Tone::Red)
    );
    for (stdout, stderr) in [
        ("On branch main\nnothing to commit, working tree clean", ""),
        ("", "nothing to commit"),
        ("nothing added to commit", ""),
    ] {
        assert_eq!(
            backup_after(
                BackupStep::Commit,
                &report(true, false, stdout, stderr, ""),
                "/data",
                "t"
            ),
            BackupNext::Done("Nothing to commit — already up to date".to_string(), Tone::Yellow)
        );
    }
    assert_eq!(
        backup_after(
            BackupStep::Commit,
            &report(true, false, "  no identity\n", "nothing added", ""),
            "/data",
            "t"
        ),
        BackupNext::Done("git commit failed: no identity".to_string(), Tone::Red)
    );
    assert_eq!(
        backup_after(BackupStep::CheckRemote, &failed(), "/data", "t"),
        BackupNext::Done("Backed up locally — t".to_string(), Tone::Cyan)
    );
    assert_eq!(
        backup_after(BackupStep::Push, &failed(), "/data", "t"),
        BackupNext::Done("Committed locally (push failed) — t".to_string(), Tone::Yellow)
    );
}

#[test]
fn command_backup_words() {
    assert_eq!(first_command(), BackupCommand::CheckRepo);
    assert_eq!(words_of(BackupCommand::CheckRepo, ""), vec!["rev-parse", "--is-inside-work-tree"]);
    assert_eq!(words_of(BackupCommand::Init, ""), vec!["init"]);
    assert_eq!(words_of(BackupCommand::RenameBranch, ""), vec!["branch", "-M", "main"]);
    assert_eq!(words_of(BackupCommand::CheckRemote, "u"), vec!["remote", "get-url", "origin"]);
    assert_eq!(words_of(BackupCommand::SetRemote, "u"), vec!["remote", "set-url", "origin", "u"]);
    assert_eq!(words_of(BackupCommand::AddRemote, "u"), vec!["remote", "add", "origin", "u"]);
    assert_eq!(words_of(BackupCommand::Stage, ""), vec!["add", "."]);
    assert_eq!(
        words_of(BackupCommand::Commit, ""),
        vec!["commit", "-m", "Backup: updated data files"]
    );
    assert_eq!(words_of(BackupCommand::Push, "u"), vec!["push", "-u", "origin", "main"]);
    assert!(shown(BackupCommand::Stage) && shown(BackupCommand::Commit) && shown(BackupCommand::Push));
    assert!(!shown(BackupCommand::CheckRepo) && !shown(BackupCommand::Init));
    assert!(!shown(BackupCommand::SetRemote) && !shown(BackupCommand::AddRemote));
}

fn run_all(answers: &dyn Fn(BackupCommand) -> bool, has_remote: bool) -> (Vec<BackupCommand>, BackupFlow) {
    let mut ran = Vec::new();
    let mut command = first_command();
    loop {
        ran.push(command);
        match next_after(command, answers(command), has_remote) {
            BackupFlow::Run(next) => command = next,
            end => return (ran, end),
        }
    }
}

#[test]
fn command_backup_of_a_fresh_directory_without_remote() {
    let (ran, end) = run_all(&|c| c != BackupCommand::CheckRepo, false);
    assert_eq!(
        ran,
        vec![
            BackupCommand::CheckRepo,
            BackupCommand::Init,
            BackupCommand::RenameBranch,
            BackupCommand::Stage,
            BackupCommand::Commit
        ]
    );
    assert_eq!(end, BackupFlow::Finished);
}

#[test]
fn command_backup_of_a_repository_with_remote() {
    let (ran, end) = run_all(&|_| true, true);
    assert_eq!(
        ran,
        vec![
            BackupCommand::CheckRepo,
            BackupCommand::CheckRemote,
            BackupCommand::SetRemote,
            BackupCommand::Stage,
            BackupCommand::Commit,
            BackupCommand::Push
        ]
    );
    assert_eq!(end, BackupFlow::Finished);
    let (ran, _) = run_all(&|c| c != BackupCommand::CheckRemote, true);
    assert!(ran.contains(&BackupCommand::AddRemote));
    assert!(!ran.contains(&BackupCommand::SetRemote));
}

#[test]
fn command_backup_passes_over_a_failed_commit_and_rename() {
    let (ran, end) = run_all(
        &|c| c != BackupCommand::Commit && c != BackupCommand::RenameBranch && c != BackupCommand::CheckRepo,
        true,
    );
    assert_eq!(*ran.last().unwrap(), BackupCommand::Push);
    assert_eq!(end, BackupFlow::Finished);
}

#[test]
fn command_backup_failures() {
    let fails = |bad: BackupCommand, has_remote: bool| {
        run_all(&move |c| c != bad && c != BackupCommand::CheckRepo && c != BackupCommand::CheckRemote, has_remote).1
    };
    assert_eq!(fails(BackupCommand::Init, false), BackupFlow::Failed("git init failed".to_string()));
    assert_eq!(fails(BackupCommand::AddRemote, true), BackupFlow::Failed("git remote add failed".to_string()));
    assert_eq!(fails(BackupCommand::Stage, false), BackupFlow::Failed("git add failed".to_string()));
    assert_eq!(fails(BackupCommand::Push, true), BackupFlow::Failed("git push failed".to_string()));
    assert_eq!(
        next_after(BackupCommand::SetRemote, false, true),
        BackupFlow::Failed("git remote set-url failed".to_string())
    );
}

#[test]
fn command_backup_remarks() {
    assert_eq!(
        remark_after(BackupCommand::CheckRepo, false, false),
        Some("Repository not found. Initializing...".to_string())
    );
    assert_eq!(remark_after(BackupCommand::CheckRepo, true, false), None);
    assert_eq!(
        remark_after(BackupCommand::Commit, false, true),
        Some("Nothing to commit or commit failed (proceeding to push anyway)...".to_string())
    );
    assert_eq!(remark_after(BackupCommand::Commit, true, true), None);
    assert_eq!(remark_after(BackupCommand::Stage, false, true), None);
    assert_eq!(remark_before_push(true), "Pushing to remote...");
    assert_eq!(remark_before_push(false), "No remote specified. Skipping push.");
}
