//! The backup command, step by step.
//!
//! The command makes the target directory a git repository if it is none,
//! points the remote "origin" at the given address if one is given,
//! commits everything, and pushes if a remote is given. Which git command
//! comes next is decided here from how the last one went; the commands
//! themselves are run by the caller.

use vstd::prelude::*;

verus! {

/// The git commands of the backup command.
#[derive(Debug, Clone, Copy, PartialEq, Eq)]
pub enum BackupCommand {
    /// Is the directory inside a work tree?
    CheckRepo,
    /// Make it a repository.
    Init,
    /// Name the branch "main".
    RenameBranch,
    /// Is there a remote named "origin"?
    CheckRemote,
    /// Point the remote at the address.
    SetRemote,
    /// Add the remote.
    AddRemote,
    /// Stage everything.
    Stage,
    /// Commit.
    Commit,
    /// Push to the remote.
    Push,
}

/// What comes after a git command: the next command, the end of the
/// backup, or its failure, with what failed.
#[derive(Debug, Clone, PartialEq, Eq)]
pub enum BackupFlow {
    Run(BackupCommand),
    Finished,
    Failed(String),
}

/// [`BackupFlow`] with the failure as its characters.
pub enum BackupFlowView {
    Run(BackupCommand),
    Finished,
    Failed(Seq<char>),
}

impl View for BackupFlow {
    type V = BackupFlowView;

    open spec fn view(&self) -> BackupFlowView {
        match self {
            BackupFlow::Run(command) => BackupFlowView::Run(*command),
            BackupFlow::Finished => BackupFlowView::Finished,
            BackupFlow::Failed(what) => BackupFlowView::Failed(what@),
        }
    }
}

/// What comes after `command`, by whether it succeeded and whether a
/// remote is given. A failure to rename the branch or to commit is passed
/// over; any other failure of a command that changes something ends the
/// backup.
pub open spec fn backup_flow(command: BackupCommand, ok: bool, has_remote: bool) -> BackupFlowView {
    let after_repo = if has_remote {
        BackupFlowView::Run(BackupCommand::CheckRemote)
    } else {
        BackupFlowView::Run(BackupCommand::Stage)
    };
    match command {
        BackupCommand::CheckRepo => if ok {
            after_repo
        } else {
            BackupFlowView::Run(BackupCommand::Init)
        },
        BackupCommand::Init => if ok {
            BackupFlowView::Run(BackupCommand::RenameBranch)
        } else {
            BackupFlowView::Failed("git init failed"@)
        },
        BackupCommand::RenameBranch => after_repo,
        BackupCommand::CheckRemote => if ok {
            BackupFlowView::Run(BackupCommand::SetRemote)
        } else {
            BackupFlowView::Run(BackupCommand::AddRemote)
        },
        BackupCommand::SetRemote => if ok {
            BackupFlowView::Run(BackupCommand::Stage)
        } else {
            BackupFlowView::Failed("git remote set-url failed"@)
        },
        BackupCommand::AddRemote => if ok {
            BackupFlowView::Run(BackupCommand::Stage)
        } else {
            BackupFlowView::Failed("git remote add failed"@)
        },
        BackupCommand::Stage => if ok {
            BackupFlowView::Run(BackupCommand::Commit)
        } else {
            BackupFlowView::Failed("git add failed"@)
        },
        BackupCommand::Commit => if has_remote {
            BackupFlowView::Run(BackupCommand::Push)
        } else {
            BackupFlowView::Finished
        },
        BackupCommand::Push => if ok {
            BackupFlowView::Finished
        } else {
            BackupFlowView::Failed("git push failed"@)
        },
    }
}

/// What is said after `command`, if anything.
pub open spec fn backup_remark(command: BackupCommand, ok: bool, has_remote: bool) -> Option<
    Seq<char>,
> {
    match command {
        BackupCommand::CheckRepo => if ok {
            None
        } else {
            Some("Repository not found. Initializing..."@)
        },
        BackupCommand::Commit => if !ok {
            Some("Nothing to commit or commit failed (proceeding to push anyway)..."@)
        } else {
            None
        },
        _ => None,
    }
}

/// What is said before the end of the backup or before the push.
pub open spec fn push_remark(has_remote: bool) -> Seq<char> {
    if has_remote {
        "Pushing to remote..."@
    } else {
        "No remote specified. Skipping push."@
    }
}

/// The words that follow `git` for a command; `remote` is the address of
/// the remote.
pub open spec fn command_words(command: BackupCommand, remote: Seq<char>) -> Seq<Seq<char>> {
    match command {
        BackupCommand::CheckRepo => seq!["rev-parse"@, "--is-inside-work-tree"@],
        BackupCommand::Init => seq!["init"@],
        BackupCommand::RenameBranch => seq!["branch"@, "-M"@, "main"@],
        BackupCommand::CheckRemote => seq!["remote"@, "get-url"@, "origin"@],
        BackupCommand::SetRemote => seq!["remote"@, "set-url"@, "origin"@, remote],
        BackupCommand::AddRemote => seq!["remote"@, "add"@, "origin"@, remote],
        BackupCommand::Stage => seq!["add"@, "."@],
        BackupCommand::Commit => seq!["commit"@, "-m"@, "Backup: updated data files"@],
        BackupCommand::Push => seq!["push"@, "-u"@, "origin"@, "main"@],
    }
}

/// Whether a command is shown as it runs: staging, the commit and the push
/// are.
pub open spec fn is_shown(command: BackupCommand) -> bool {
    command is Stage || command is Commit || command is Push
}

/// The first command of the backup.
pub fn first_command() -> (r: BackupCommand)
    ensures
        r == BackupCommand::CheckRepo,
{
    BackupCommand::CheckRepo
}

/// Whether a command is shown as it runs.
pub fn shown(command: BackupCommand) -> (r: bool)
    ensures
        r == is_shown(command),
{
    match command {
        BackupCommand::Stage | BackupCommand::Commit | BackupCommand::Push => true,
        _ => false,
    }
}

/// The words that follow `git` for a command.
pub fn words_of(command: BackupCommand, remote: &str) -> (r: Vec<String>)
    ensures
        r@.len() == command_words(command, remote@).len(),
        forall|i: int| 0 <= i < r@.len() ==> (#[trigger] r@[i])@ == command_words(
            command,
            remote@,
        )[i],
{
    let mut words: Vec<String> = Vec::new();
    match command {
        BackupCommand::CheckRepo => {
            words.push("rev-parse".to_owned());
            words.push("--is-inside-work-tree".to_owned());
        },
        BackupCommand::Init => {
            words.push("init".to_owned());
        },
        BackupCommand::RenameBranch => {
            words.push("branch".to_owned());
            words.push("-M".to_owned());
            words.push("main".to_owned());
        },
        BackupCommand::CheckRemote => {
            words.push("remote".to_owned());
            words.push("get-url".to_owned());
            words.push("origin".to_owned());
        },
        BackupCommand::SetRemote => {
            words.push("remote".to_owned());
            words.push("set-url".to_owned());
            words.push("origin".to_owned());
            words.push(remote.to_owned());
        },
        BackupCommand::AddRemote => {
            words.push("remote".to_owned());
            words.push("add".to_owned());
            words.push("origin".to_owned());
            words.push(remote.to_owned());
        },
        BackupCommand::Stage => {
            words.push("add".to_owned());
            words.push(".".to_owned());
        },
        BackupCommand::Commit => {
            words.push("commit".to_owned());
            words.push("-m".to_owned());
            words.push("Backup: updated data files".to_owned());
        },
        BackupCommand::Push => {
            words.push("push".to_owned());
            words.push("-u".to_owned());
            words.push("origin".to_owned());
            words.push("main".to_owned());
        },
    }
    words
}

/// What comes after `command`.
pub fn next_after(command: BackupCommand, ok: bool, has_remote: bool) -> (r: BackupFlow)
    ensures
        r@ == backup_flow(command, ok, has_remote),
{
    let after_repo = if has_remote {
        BackupFlow::Run(BackupCommand::CheckRemote)
    } else {
        BackupFlow::Run(BackupCommand::Stage)
    };
    match command {
        BackupCommand::CheckRepo => if ok {
            after_repo
        } else {
            BackupFlow::Run(BackupCommand::Init)
        },
        BackupCommand::Init => if ok {
            BackupFlow::Run(BackupCommand::RenameBranch)
        } else {
            BackupFlow::Failed("git init failed".to_owned())
        },
        BackupCommand::RenameBranch => after_repo,
        BackupCommand::CheckRemote => if ok {
            BackupFlow::Run(BackupCommand::SetRemote)
        } else {
            BackupFlow::Run(BackupCommand::AddRemote)
        },
        BackupCommand::SetRemote => if ok {
            BackupFlow::Run(BackupCommand::Stage)
        } else {
            BackupFlow::Failed("git remote set-url failed".to_owned())
        },
        BackupCommand::AddRemote => if ok {
            BackupFlow::Run(BackupCommand::Stage)
        } else {
            BackupFlow::Failed("git remote add failed".to_owned())
        },
        BackupCommand::Stage => if ok {
            BackupFlow::Run(BackupCommand::Commit)
        } else {
            BackupFlow::Failed("git add failed".to_owned())
        },
        BackupCommand::Commit => if has_remote {
            BackupFlow::Run(BackupCommand::Push)
        } else {
            BackupFlow::Finished
        },
        BackupCommand::Push => if ok {
            BackupFlow::Finished
        } else {
            BackupFlow::Failed("git push failed".to_owned())
        },
    }
}

/// What is said after `command`, if anything.
pub fn remark_after(command: BackupCommand, ok: bool, has_remote: bool) -> (r: Option<String>)
    ensures
        match backup_remark(command, ok, has_remote) {
            Some(text) => r matches Some(said) && said@ == text,
            None => r is None,
        },
{
    match command {
        BackupCommand::CheckRepo => if ok {
            None
        } else {
            Some("Repository not found. Initializing...".to_owned())
        },
        BackupCommand::Commit => if !ok {
            Some("Nothing to commit or commit failed (proceeding to push anyway)...".to_owned())
        } else {
            None
        },
        _ => None,
    }
}

/// What is said once the commit is done: that the push comes, or that
/// there is none.
pub fn remark_before_push(has_remote: bool) -> (r: String)
    ensures
        r@ == push_remark(has_remote),
{
    if has_remote {
        "Pushing to remote...".to_owned()
    } else {
        "No remote specified. Skipping push.".to_owned()
    }
}

} // verus!
