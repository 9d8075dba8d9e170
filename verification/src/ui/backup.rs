//! The backup of the data directory into its git repository, step by
//! step.
//!
//! The backup runs up to five git commands. Which command comes next, and
//! what the outcome is called, is decided here from how the last command
//! went; the commands themselves are run by the caller.

use crate::text::{is_subtext, str_contains, str_trim, trimmed};
use crate::ui::app::Tone;
use vstd::prelude::*;

verus! {

/// The commands of a backup, in their order.
#[derive(Debug, Clone, Copy, PartialEq, Eq)]
pub enum BackupStep {
    /// Is the directory inside a work tree?
    CheckRepo,
    /// Stage everything.
    Stage,
    /// Commit, with the time in the message.
    Commit,
    /// Is there a remote named "origin"?
    CheckRemote,
    /// Push.
    Push,
}

/// How a command went. A command that could not be started has not
/// succeeded; `error` says why it could not be started.
#[derive(Debug, Clone)]
pub struct CommandReport {
    pub started: bool,
    pub success: bool,
    pub stdout: String,
    pub stderr: String,
    pub error: String,
}

/// What comes after a command: the next command, or the end of the backup
/// with a message and its colour.
#[derive(Debug, Clone, PartialEq, Eq)]
pub enum BackupNext {
    Run(BackupStep),
    Done(String, Tone),
}

/// [`BackupNext`] with the message as its characters.
pub enum BackupNextView {
    Run(BackupStep),
    Done(Seq<char>, Tone),
}

impl View for BackupNext {
    type V = BackupNextView;

    open spec fn view(&self) -> BackupNextView {
        match self {
            BackupNext::Run(step) => BackupNextView::Run(*step),
            BackupNext::Done(message, tone) => BackupNextView::Done(message@, *tone),
        }
    }
}

/// The words that follow `git` for a step, in directory `dir`, at the time
/// written `timestamp`.
pub open spec fn backup_words(step: BackupStep, dir: Seq<char>, timestamp: Seq<char>) -> Seq<
    Seq<char>,
> {
    match step {
        BackupStep::CheckRepo => seq!["-C"@, dir, "rev-parse"@, "--is-inside-work-tree"@],
        BackupStep::Stage => seq!["-C"@, dir, "add"@, "."@],
        BackupStep::Commit => seq!["-C"@, dir, "commit"@, "-m"@, "backup "@ + timestamp],
        BackupStep::CheckRemote => seq!["-C"@, dir, "remote"@, "get-url"@, "origin"@],
        BackupStep::Push => seq!["-C"@, dir, "push"@],
    }
}

/// Whether git said that there was nothing to commit.
pub open spec fn says_nothing_to_commit(stdout: Seq<char>, stderr: Seq<char>) -> bool {
    is_subtext(stdout, "nothing to commit"@) || is_subtext(stderr, "nothing to commit"@)
        || is_subtext(stdout, "nothing added"@)
}

/// What comes after step `step`, by how it went.
///
/// A directory that is no repository ends the backup, and so does a
/// failure to stage or to commit. A commit with nothing to commit ends it
/// too. After a commit, the backup is pushed if there is a remote, and
/// ends either way.
pub open spec fn backup_decision(
    step: BackupStep,
    report: CommandReport,
    dir: Seq<char>,
    timestamp: Seq<char>,
) -> BackupNextView {
    let ok = report.started && report.success;
    match step {
        BackupStep::CheckRepo => if ok {
            BackupNextView::Run(BackupStep::Stage)
        } else {
            BackupNextView::Done(
                "'"@ + dir + "' is not a git repo — backup skipped"@,
                Tone::DarkGray,
            )
        },
        BackupStep::Stage => if ok {
            BackupNextView::Run(BackupStep::Commit)
        } else {
            BackupNextView::Done("git add failed"@, Tone::Red)
        },
        BackupStep::Commit => if !report.started {
            BackupNextView::Done("git commit error: "@ + report.error@, Tone::Red)
        } else if says_nothing_to_commit(report.stdout@, report.stderr@) {
            BackupNextView::Done("Nothing to commit — already up to date"@, Tone::Yellow)
        } else if !report.success {
            BackupNextView::Done("git commit failed: "@ + trimmed(report.stdout@), Tone::Red)
        } else {
            BackupNextView::Run(BackupStep::CheckRemote)
        },
        BackupStep::CheckRemote => if ok {
            BackupNextView::Run(BackupStep::Push)
        } else {
            BackupNextView::Done("Backed up locally — "@ + timestamp, Tone::Cyan)
        },
        BackupStep::Push => if ok {
            BackupNextView::Done("Backed up & pushed — "@ + timestamp, Tone::Green)
        } else {
            BackupNextView::Done("Committed locally (push failed) — "@ + timestamp, Tone::Yellow)
        },
    }
}

fn joined(head: &str, tail: &str) -> (r: String)
    ensures
        r@ == head@ + tail@,
{
    let mut text = head.to_owned();
    text.append(tail);
    text
}

/// Whether what a step prints is needed to decide what comes after it:
/// only the commit is read.
pub fn reads_output(step: BackupStep) -> (r: bool)
    ensures
        r == (step is Commit),
{
    match step {
        BackupStep::Commit => true,
        _ => false,
    }
}

/// The first command of a backup.
pub fn first_backup_step() -> (r: BackupStep)
    ensures
        r == BackupStep::CheckRepo,
{
    BackupStep::CheckRepo
}

/// The words that follow `git` for a step.
pub fn backup_command(step: BackupStep, dir: &str, timestamp: &str) -> (r: Vec<String>)
    ensures
        r@.len() == backup_words(step, dir@, timestamp@).len(),
        forall|i: int| 0 <= i < r@.len() ==> (#[trigger] r@[i])@ == backup_words(
            step,
            dir@,
            timestamp@,
        )[i],
{
    let mut words: Vec<String> = Vec::new();
    words.push("-C".to_owned());
    words.push(dir.to_owned());
    match step {
        BackupStep::CheckRepo => {
            words.push("rev-parse".to_owned());
            words.push("--is-inside-work-tree".to_owned());
        },
        BackupStep::Stage => {
            words.push("add".to_owned());
            words.push(".".to_owned());
        },
        BackupStep::Commit => {
            words.push("commit".to_owned());
            words.push("-m".to_owned());
            words.push(joined("backup ", timestamp));
        },
        BackupStep::CheckRemote => {
            words.push("remote".to_owned());
            words.push("get-url".to_owned());
            words.push("origin".to_owned());
        },
        BackupStep::Push => {
            words.push("push".to_owned());
        },
    }
    words
}

/// What comes after step `step`, by how it went.
pub fn backup_after(step: BackupStep, report: &CommandReport, dir: &str, timestamp: &str) -> (r:
    BackupNext)
    ensures
        r@ == backup_decision(step, *report, dir@, timestamp@),
{
    let ok = report.started && report.success;
    match step {
        BackupStep::CheckRepo => {
            if ok {
                BackupNext::Run(BackupStep::Stage)
            } else {
                let mut message = joined("'", dir);
                message.append("' is not a git repo — backup skipped");
                BackupNext::Done(message, Tone::DarkGray)
            }
        },
        BackupStep::Stage => {
            if ok {
                BackupNext::Run(BackupStep::Commit)
            } else {
                BackupNext::Done("git add failed".to_owned(), Tone::Red)
            }
        },
        BackupStep::Commit => {
            if !report.started {
                BackupNext::Done(joined("git commit error: ", report.error.as_str()), Tone::Red)
            } else if str_contains(report.stdout.as_str(), "nothing to commit") || str_contains(
                report.stderr.as_str(),
                "nothing to commit",
            ) || str_contains(report.stdout.as_str(), "nothing added") {
                BackupNext::Done(
                    "Nothing to commit — already up to date".to_owned(),
                    Tone::Yellow,
                )
            } else if !report.success {
                BackupNext::Done(
                    joined("git commit failed: ", str_trim(report.stdout.as_str())),
                    Tone::Red,
                )
            } else {
                BackupNext::Run(BackupStep::CheckRemote)
            }
        },
        BackupStep::CheckRemote => {
            if ok {
                BackupNext::Run(BackupStep::Push)
            } else {
                BackupNext::Done(joined("Backed up locally — ", timestamp), Tone::Cyan)
            }
        },
        BackupStep::Push => {
            if ok {
                BackupNext::Done(joined("Backed up & pushed — ", timestamp), Tone::Green)
            } else {
                BackupNext::Done(
                    joined("Committed locally (push failed) — ", timestamp),
                    Tone::Yellow,
                )
            }
        },
    }
}

} // verus!
