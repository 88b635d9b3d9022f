//! What passes between the cycle and whoever performs the git operations:
//! the operation asked for, its outcome, and the log entry an outcome leaves.

use crate::status::{status_of_bits, FileStatus, FileStatusView};
use crate::text::{quoted, quoted_text};
use vstd::prelude::*;
use vstd::string::*;

verus! {

/// The git operation the cycle asks for next.
#[derive(Debug, PartialEq, Eq)]
pub enum Action {
    /// Open the working tree at `path` as a repository.
    Open { path: String },
    /// Read the name of the branch that the working tree at `path` is on.
    ReadBranch { path: String },
    /// Query the state of `file` in the working tree at `path`.
    Status { path: String, file: String },
    /// Stage and commit `file` alone, under `message`, in the working tree at `path`.
    Commit { path: String, file: String, message: String },
    /// Push `branch` of the working tree at `path` to `remote`, setting its upstream.
    Push { path: String, remote: String, branch: String },
    /// Nothing is left to do: the cycle is over.
    Done,
}

/// Mathematical view of an [`Action`].
pub enum ActionView {
    Open { path: Seq<char> },
    ReadBranch { path: Seq<char> },
    Status { path: Seq<char>, file: Seq<char> },
    Commit { path: Seq<char>, file: Seq<char>, message: Seq<char> },
    Push { path: Seq<char>, remote: Seq<char>, branch: Seq<char> },
    Done,
}

impl View for Action {
    type V = ActionView;

    open spec fn view(&self) -> ActionView {
        match self {
            Action::Open { path } => ActionView::Open { path: path@ },
            Action::ReadBranch { path } => ActionView::ReadBranch { path: path@ },
            Action::Status { path, file } => ActionView::Status { path: path@, file: file@ },
            Action::Commit { path, file, message } => ActionView::Commit {
                path: path@,
                file: file@,
                message: message@,
            },
            Action::Push { path, remote, branch } => ActionView::Push {
                path: path@,
                remote: remote@,
                branch: branch@,
            },
            Action::Done => ActionView::Done,
        }
    }
}

/// The stream of a git command that holds its outcome.
#[derive(Clone, Copy, Debug, PartialEq, Eq, Structural)]
pub enum Stream {
    Stdout,
    Stderr,
}

/// A run of the `git` program.
#[derive(Debug, PartialEq, Eq)]
pub struct GitCommand {
    /// The arguments, in order.
    pub arguments: Vec<String>,
    /// The stream that holds the outcome.
    pub answer: Stream,
}

/// Mathematical view of a [`GitCommand`].
pub struct GitCommandView {
    pub arguments: Seq<Seq<char>>,
    pub answer: Stream,
}

impl View for GitCommand {
    type V = GitCommandView;

    open spec fn view(&self) -> GitCommandView {
        GitCommandView { arguments: self.arguments.deep_view(), answer: self.answer }
    }
}

impl DeepView for GitCommand {
    type V = GitCommandView;

    open spec fn deep_view(&self) -> GitCommandView {
        self@
    }
}

impl ActionView {
    /// The run of `git` that performs the operation, for the operations that
    /// one performs: the branch read, the commit and the push. Each works in
    /// the working tree at `path`. The branch read prints the short name of
    /// `HEAD`; the commit names the file and gives the message; the push
    /// names the remote and the branch and sets the upstream. A push reports
    /// on its standard error, the others on their standard output.
    pub open spec fn command(self) -> Option<GitCommandView> {
        match self {
            ActionView::ReadBranch { path } => Some(
                GitCommandView {
                    arguments: seq!["-C"@, path, "rev-parse"@, "--abbrev-ref"@, "HEAD"@],
                    answer: Stream::Stdout,
                },
            ),
            ActionView::Commit { path, file, message } => Some(
                GitCommandView {
                    arguments: seq!["-C"@, path, "commit"@, "-m"@, message, file],
                    answer: Stream::Stdout,
                },
            ),
            ActionView::Push { path, remote, branch } => Some(
                GitCommandView {
                    arguments: seq!["-C"@, path, "push"@, "--set-upstream"@, remote, branch],
                    answer: Stream::Stderr,
                },
            ),
            _ => None,
        }
    }

    /// The outcome of the operation where its run of `git` left `output` on
    /// the stream that holds the outcome.
    pub open spec fn outcome(self, output: Seq<char>) -> Option<EventView> {
        match self {
            ActionView::ReadBranch { .. } => Some(EventView::Branch(output)),
            ActionView::Commit { .. } => Some(EventView::Committed(output)),
            ActionView::Push { .. } => Some(EventView::Pushed(output)),
            _ => None,
        }
    }
}

impl Action {
    /// The run of `git` that performs the operation; none for the
    /// operations that no run of `git` performs.
    pub fn command(&self) -> (command: Option<GitCommand>)
        ensures
            command.deep_view() == self@.command(),
    {
        match self {
            Action::ReadBranch { path } => {
                let mut arguments: Vec<String> = Vec::new();
                arguments.push(String::from_str("-C"));
                arguments.push(path.clone());
                arguments.push(String::from_str("rev-parse"));
                arguments.push(String::from_str("--abbrev-ref"));
                arguments.push(String::from_str("HEAD"));
                assert(arguments.deep_view() =~= seq![
                    "-C"@,
                    path@,
                    "rev-parse"@,
                    "--abbrev-ref"@,
                    "HEAD"@,
                ]);
                Some(GitCommand { arguments, answer: Stream::Stdout })
            },
            Action::Commit { path, file, message } => {
                let mut arguments: Vec<String> = Vec::new();
                arguments.push(String::from_str("-C"));
                arguments.push(path.clone());
                arguments.push(String::from_str("commit"));
                arguments.push(String::from_str("-m"));
                arguments.push(message.clone());
                arguments.push(file.clone());
                assert(arguments.deep_view() =~= seq![
                    "-C"@,
                    path@,
                    "commit"@,
                    "-m"@,
                    message@,
                    file@,
                ]);
                Some(GitCommand { arguments, answer: Stream::Stdout })
            },
            Action::Push { path, remote, branch } => {
                let mut arguments: Vec<String> = Vec::new();
                arguments.push(String::from_str("-C"));
                arguments.push(path.clone());
                arguments.push(String::from_str("push"));
                arguments.push(String::from_str("--set-upstream"));
                arguments.push(remote.clone());
                arguments.push(branch.clone());
                assert(arguments.deep_view() =~= seq![
                    "-C"@,
                    path@,
                    "push"@,
                    "--set-upstream"@,
                    remote@,
                    branch@,
                ]);
                Some(GitCommand { arguments, answer: Stream::Stderr })
            },
            _ => None,
        }
    }

    /// The outcome of the operation where its run of `git` left `output` on
    /// the stream that holds the outcome; none for the operations that no
    /// run of `git` performs.
    pub fn outcome(&self, output: String) -> (event: Option<Event>)
        ensures
            event.deep_view() == self@.outcome(output@),
    {
        match self {
            Action::ReadBranch { .. } => Some(Event::Branch(output)),
            Action::Commit { .. } => Some(Event::Committed(output)),
            Action::Push { .. } => Some(Event::Pushed(output)),
            _ => None,
        }
    }
}

/// The outcome of the operation that was asked for.
#[derive(Debug, PartialEq, Eq)]
pub enum Event {
    /// The working tree was opened.
    Opened,
    /// The working tree could not be opened; the cause.
    OpenFailed(String),
    /// The branch query's output, as git printed it.
    Branch(String),
    /// The state of the file.
    Status(FileStatus),
    /// The commit command's standard output.
    Committed(String),
    /// The push command's standard error.
    Pushed(String),
}

/// Mathematical view of an [`Event`].
pub enum EventView {
    Opened,
    OpenFailed(Seq<char>),
    Branch(Seq<char>),
    Status(FileStatusView),
    Committed(Seq<char>),
    Pushed(Seq<char>),
}

impl View for Event {
    type V = EventView;

    open spec fn view(&self) -> EventView {
        match self {
            Event::Opened => EventView::Opened,
            Event::OpenFailed(detail) => EventView::OpenFailed(detail@),
            Event::Branch(output) => EventView::Branch(output@),
            Event::Status(status) => EventView::Status(status@),
            Event::Committed(output) => EventView::Committed(output@),
            Event::Pushed(output) => EventView::Pushed(output@),
        }
    }
}

impl Clone for Event {
    fn clone(&self) -> (out: Self)
        ensures
            out@ == self@,
    {
        match self {
            Event::Opened => Event::Opened,
            Event::OpenFailed(detail) => Event::OpenFailed(detail.clone()),
            Event::Branch(output) => Event::Branch(output.clone()),
            Event::Status(status) => Event::Status(status.clone()),
            Event::Committed(output) => Event::Committed(output.clone()),
            Event::Pushed(output) => Event::Pushed(output.clone()),
        }
    }
}

impl EventView {
    /// Whether the event is the outcome of an operation that the git library
    /// performs: the opening of a working tree, or a status query.
    pub open spec fn from_library(self) -> bool {
        self is Opened || self is OpenFailed || self is Status
    }
}

impl ActionView {
    /// Whether the operation is one that the git library performs: the
    /// opening of a working tree, or a status query.
    pub open spec fn for_library(self) -> bool {
        self is Open || self is Status
    }
}

impl Event {
    /// The outcome of a status query: the state that the flags stand for, or
    /// the failure, with the cause.
    pub fn of_status_query(answer: Result<u32, String>) -> (event: Event)
        ensures
            answer matches Ok(bits) ==> event@ == EventView::Status(status_of_bits(bits)),
            answer matches Err(detail) ==> event@ == EventView::Status(
                FileStatusView::Error(detail@),
            ),
    {
        Event::Status(FileStatus::from_query(answer))
    }
}

impl DeepView for Event {
    type V = EventView;

    open spec fn deep_view(&self) -> EventView {
        self@
    }
}

/// How serious a log entry is.
#[derive(Clone, Copy, Debug, PartialEq, Eq, Structural)]
pub enum Level {
    Error,
    Warn,
    Info,
}

/// What the cycle leaves in the log for one outcome.
#[derive(Debug, PartialEq, Eq)]
pub enum LogEntry {
    /// The repository was skipped: its working tree could not be opened.
    OpenFailed { repo: String, detail: String },
    /// The repository was skipped: its working tree is on `current`, not on `expected`.
    BranchMismatch { repo: String, current: String, expected: String },
    /// The file was skipped: its state could not be determined.
    StatusFailed { repo: String, file: String, detail: String },
    /// The file was committed; what the command printed, trailing white space cut.
    Committed { repo: String, file: String, output: String },
    /// The push was attempted; what the command reported, trailing white space cut.
    Pushed { repo: String, output: String },
}

/// Mathematical view of a [`LogEntry`].
pub enum LogEntryView {
    OpenFailed { repo: Seq<char>, detail: Seq<char> },
    BranchMismatch { repo: Seq<char>, current: Seq<char>, expected: Seq<char> },
    StatusFailed { repo: Seq<char>, file: Seq<char>, detail: Seq<char> },
    Committed { repo: Seq<char>, file: Seq<char>, output: Seq<char> },
    Pushed { repo: Seq<char>, output: Seq<char> },
}

impl LogEntryView {
    /// Errors for what could not be read, a warning for a branch mismatch,
    /// information for what a command reported.
    pub open spec fn level(self) -> Level {
        match self {
            LogEntryView::OpenFailed { .. } => Level::Error,
            LogEntryView::BranchMismatch { .. } => Level::Warn,
            LogEntryView::StatusFailed { .. } => Level::Error,
            LogEntryView::Committed { .. } => Level::Info,
            LogEntryView::Pushed { .. } => Level::Info,
        }
    }

    /// The line that goes to the log.
    pub open spec fn message(self) -> Seq<char> {
        match self {
            LogEntryView::OpenFailed { detail, .. } => "failed to open: "@ + detail,
            LogEntryView::BranchMismatch { repo, current, expected } => "Repo: "@ + repo
                + " skips repo because current branch: \""@ + current
                + "\" is not the defined one: \""@ + expected + "\"."@,
            LogEntryView::StatusFailed { detail, .. } => "failed to get file status: "@ + detail,
            LogEntryView::Committed { output, .. } => quoted_text(output),
            LogEntryView::Pushed { output, .. } => quoted_text(output),
        }
    }
}

impl View for LogEntry {
    type V = LogEntryView;

    open spec fn view(&self) -> LogEntryView {
        match self {
            LogEntry::OpenFailed { repo, detail } => LogEntryView::OpenFailed {
                repo: repo@,
                detail: detail@,
            },
            LogEntry::BranchMismatch { repo, current, expected } => LogEntryView::BranchMismatch {
                repo: repo@,
                current: current@,
                expected: expected@,
            },
            LogEntry::StatusFailed { repo, file, detail } => LogEntryView::StatusFailed {
                repo: repo@,
                file: file@,
                detail: detail@,
            },
            LogEntry::Committed { repo, file, output } => LogEntryView::Committed {
                repo: repo@,
                file: file@,
                output: output@,
            },
            LogEntry::Pushed { repo, output } => LogEntryView::Pushed {
                repo: repo@,
                output: output@,
            },
        }
    }
}

impl DeepView for LogEntry {
    type V = LogEntryView;

    open spec fn deep_view(&self) -> LogEntryView {
        self@
    }
}

impl LogEntry {
    /// How serious the entry is.
    pub fn level(&self) -> (level: Level)
        ensures
            level == self@.level(),
    {
        match self {
            LogEntry::OpenFailed { .. } => Level::Error,
            LogEntry::BranchMismatch { .. } => Level::Warn,
            LogEntry::StatusFailed { .. } => Level::Error,
            LogEntry::Committed { .. } => Level::Info,
            LogEntry::Pushed { .. } => Level::Info,
        }
    }

    /// The line that goes to the log.
    pub fn message(&self) -> (line: String)
        ensures
            line@ == self@.message(),
    {
        match self {
            LogEntry::OpenFailed { detail, .. } => {
                String::from_str("failed to open: ").concat(detail.as_str())
            },
            LogEntry::BranchMismatch { repo, current, expected } => {
                let mut line = String::from_str("Repo: ");
                line.append(repo.as_str());
                line.append(" skips repo because current branch: \"");
                line.append(current.as_str());
                line.append("\" is not the defined one: \"");
                line.append(expected.as_str());
                line.append("\".");
                line
            },
            LogEntry::StatusFailed { detail, .. } => {
                String::from_str("failed to get file status: ").concat(detail.as_str())
            },
            LogEntry::Committed { output, .. } => quoted(output.as_str()),
            LogEntry::Pushed { output, .. } => quoted(output.as_str()),
        }
    }
}

} // verus!
