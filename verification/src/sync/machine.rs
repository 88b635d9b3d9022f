//! The cycle as it runs: it holds a snapshot of the repositories and a
//! position, names the operation to perform, and moves on its outcome. The
//! operations that the git library performs it can perform itself.

use crate::config::{clone_repositories, Config, GitRepository};
use crate::status::{FileStatus, FileStatusView};
use crate::sync::laws::{law_outcome_brings_end_nearer, lemma_step_wf, outcomes_left};
use crate::sync::model::{lemma_next_active, next_active, CycleView, Phase};
use crate::sync::protocol::{Action, ActionView, Event, EventView, LogEntry, LogEntryView};
use crate::sync::worktree::{error_text, open_repository, status_bits};
use crate::text::{trim_end, trimmed};
use vstd::prelude::*;
use vstd::string::*;

verus! {

/// An event that was no outcome of the operation asked for, handed back.
#[derive(Debug, PartialEq, Eq)]
pub struct Rejected(pub Event);

/// Where a cycle stands among its repositories.
#[derive(Clone, Copy)]
struct Cursor {
    repo: usize,
    file: usize,
    phase: Phase,
}

/// One synchronization cycle over a snapshot of the configured repositories.
pub struct SyncCycle {
    repositories: Vec<GitRepository>,
    cursor: Cursor,
    /// The working tree of the repository the cycle is at, where the cycle
    /// itself has opened it.
    tree: Option<git2::Repository>,
}

/// What the cycle did on its own: the outcomes it took, and the log
/// entries they left.
#[derive(Debug, PartialEq, Eq)]
pub struct Progress {
    pub events: Vec<Event>,
    pub log: Vec<LogEntry>,
}

/// The position that `cursor` marks among `repos`.
spec fn position(repos: &Vec<GitRepository>, cursor: Cursor) -> CycleView {
    CycleView {
        repositories: repos.deep_view(),
        repo: cursor.repo as nat,
        file: cursor.file as nat,
        phase: cursor.phase,
    }
}

impl View for SyncCycle {
    type V = CycleView;

    closed spec fn view(&self) -> CycleView {
        position(&self.repositories, self.cursor)
    }
}

/// Index of the first active repository from `from` on, or the number of repositories.
fn first_active(repos: &Vec<GitRepository>, from: usize) -> (index: usize)
    requires
        from <= repos.len(),
    ensures
        index == next_active(repos.deep_view(), from as nat),
        from <= index <= repos.len(),
{
    let mut index: usize = from;
    while index < repos.len() && !repos[index].active
        invariant
            from <= index <= repos.len(),
            next_active(repos.deep_view(), index as nat) == next_active(
                repos.deep_view(),
                from as nat,
            ),
        decreases repos.len() - index,
    {
        index = index + 1;
    }
    index
}

/// The cursor at the first active repository from `from` on.
fn cursor_at_repository(repos: &Vec<GitRepository>, from: usize) -> (cursor: Cursor)
    requires
        from <= repos.len(),
    ensures
        position(repos, cursor) == CycleView::at_repository(repos.deep_view(), from as nat),
        position(repos, cursor).wf(),
{
    let repo = first_active(repos, from);
    proof {
        lemma_next_active(repos.deep_view(), from as nat);
    }
    if repo < repos.len() {
        Cursor { repo, file: 0, phase: Phase::Opening }
    } else {
        Cursor { repo, file: 0, phase: Phase::Finished }
    }
}

/// A repository's file list is no longer than a vector can be.
proof fn lemma_file_list_fits(repo: &GitRepository)
    ensures
        repo@.file_list().len() <= usize::MAX,
{
    match repo.files {
        Some(files) => {
            assert(files.deep_view().len() == files.len());
        },
        None => {},
    }
}

/// Number of files of a repository.
fn file_count(repo: &GitRepository) -> (count: usize)
    ensures
        count == repo@.file_list().len(),
{
    match &repo.files {
        Some(files) => files.len(),
        None => 0,
    }
}

/// The cursor at file `file` of the repository that `cursor` is at.
fn cursor_at_file(repos: &Vec<GitRepository>, cursor: Cursor, file: usize) -> (next: Cursor)
    requires
        cursor.repo < repos.len(),
        repos[cursor.repo as int].active,
    ensures
        position(repos, next) == position(repos, cursor).at_file(file as nat),
        position(repos, next).wf(),
{
    let repo = &repos[cursor.repo];
    if file < file_count(repo) {
        Cursor { repo: cursor.repo, file, phase: Phase::QueryingStatus }
    } else if repo.auto_push {
        Cursor { repo: cursor.repo, file: 0, phase: Phase::Pushing }
    } else {
        cursor_at_repository(repos, cursor.repo + 1)
    }
}

/// Copy of file `file` of `repo`.
fn file_name(repo: &GitRepository, file: usize) -> (name: String)
    requires
        file < repo@.file_list().len(),
    ensures
        name@ == repo@.file_list()[file as int],
{
    match &repo.files {
        Some(files) => files[file].clone(),
        None => String::new(),
    }
}

/// The branch guard. `output` is what the branch query printed. Where it
/// names the branch that `repo` is configured for, once trailing white space
/// is cut, there is nothing to report and the cycle may go on; where it does
/// not, the result is the warning to log, and the repository is skipped.
pub fn check_branch(repo: &GitRepository, output: &str) -> (warning: Option<LogEntry>)
    ensures
        warning is None <==> trimmed(output@) == repo@.branch,
        warning matches Some(entry) ==> entry@ == (LogEntryView::BranchMismatch {
            repo: repo@.name,
            current: trimmed(output@),
            expected: repo@.branch,
        }),
{
    let current = trim_end(output);
    if current == repo.branch {
        None
    } else {
        Some(
            LogEntry::BranchMismatch {
                repo: repo.name.clone(),
                current,
                expected: repo.branch.clone(),
            },
        )
    }
}

/// The commit of one file of `repo`: that file alone, under its own path as
/// the message.
pub fn commit(repo: &GitRepository, file: &str) -> (action: Action)
    ensures
        action@ == (ActionView::Commit { path: repo@.path, file: file@, message: file@ }),
{
    Action::Commit {
        path: repo.path.clone(),
        file: String::from_str(file),
        message: String::from_str(file),
    }
}

/// The push of `repo`: its configured branch, to `origin`.
pub fn push(repo: &GitRepository) -> (action: Action)
    ensures
        action@ == (ActionView::Push {
            path: repo@.path,
            remote: "origin"@,
            branch: repo@.branch,
        }),
{
    Action::Push {
        path: repo.path.clone(),
        remote: String::from_str("origin"),
        branch: repo.branch.clone(),
    }
}

impl SyncCycle {
    #[verifier::type_invariant]
    spec fn inv(self) -> bool {
        self@.wf()
    }

    /// A cycle over a snapshot of `config`, at its first active repository.
    pub fn new(config: &Config) -> (cycle: SyncCycle)
        ensures
            cycle@ == CycleView::start(config@.repos()),
            cycle@.wf(),
    {
        let repositories = match &config.repositories {
            Some(list) => clone_repositories(list),
            None => Vec::new(),
        };
        assert(repositories.deep_view() =~= config@.repos());
        let cursor = cursor_at_repository(&repositories, 0);
        SyncCycle { repositories, cursor, tree: None }
    }

    /// Whether every repository has been dealt with.
    pub fn is_finished(&self) -> (over: bool)
        ensures
            over == (self@.phase is Finished),
            over == (self@.pending() is Done),
            self@.wf(),
    {
        proof {
            use_type_invariant(self);
        }
        match self.cursor.phase {
            Phase::Finished => true,
            _ => false,
        }
    }

    /// The operation to perform next.
    pub fn pending(&self) -> (action: Action)
        ensures
            action@ == self@.pending(),
            self@.wf(),
    {
        proof {
            use_type_invariant(self);
        }
        match self.cursor.phase {
            Phase::Finished => Action::Done,
            Phase::Opening => Action::Open { path: self.repositories[self.cursor.repo].path.clone() },
            Phase::CheckingBranch => Action::ReadBranch {
                path: self.repositories[self.cursor.repo].path.clone(),
            },
            Phase::QueryingStatus => {
                let repo = &self.repositories[self.cursor.repo];
                Action::Status { path: repo.path.clone(), file: file_name(repo, self.cursor.file) }
            },
            Phase::Committing => {
                let repo = &self.repositories[self.cursor.repo];
                commit(repo, file_name(repo, self.cursor.file).as_str())
            },
            Phase::Pushing => push(&self.repositories[self.cursor.repo]),
        }
    }

    /// Opens the working tree at `path`, and keeps it for the status queries
    /// to come.
    fn open_tree(&mut self, path: &str) -> (event: Event)
        ensures
            final(self)@ == old(self)@,
            event@ is Opened || event@ is OpenFailed,
            event@ is Opened <==> final(self).tree is Some,
    {
        proof {
            use_type_invariant(&*self);
        }
        match open_repository(path) {
            Ok(tree) => {
                self.tree = Some(tree);
                Event::Opened
            },
            Err(error) => {
                self.tree = None;
                Event::OpenFailed(error_text(&error))
            },
        }
    }

    /// Asks the working tree that the cycle has opened for the state of `file`.
    fn query_tree(&self, file: &str) -> (event: Event)
        ensures
            event@ is Status,
            self.tree is None ==> event@ == EventView::Status(
                FileStatusView::Error(Self::tree_not_open()),
            ),
    {
        let answer = match &self.tree {
            Some(tree) => match status_bits(tree, file) {
                Ok(bits) => Ok(bits),
                Err(error) => Err(error_text(&error)),
            },
            None => Err(String::from_str("the working tree was not opened by this cycle")),
        };
        Event::of_status_query(answer)
    }

    /// The cause that a status query gives where the cycle holds no open
    /// working tree to ask.
    pub open spec fn tree_not_open() -> Seq<char> {
        "the working tree was not opened by this cycle"@
    }

    /// Performs, through the git library, every operation that needs no run
    /// of `git`: for as long as the pending operation is the opening of a
    /// working tree or a status query, it opens the path, or queries the file,
    /// that the operation names, and takes the outcome as `step` does. What
    /// is pending afterwards is a run of `git`, or nothing.
    /// The result tells which outcomes were taken and what they left in the
    /// log. A working tree that the cycle was told is open, and did not open
    /// itself, it cannot query: the state of its files is taken as unknown.
    pub fn advance(&mut self) -> (progress: Progress)
        ensures
            old(self)@.runs(progress.events.deep_view()),
            final(self)@ == old(self)@.run(progress.events.deep_view()),
            progress.log.deep_view() == old(self)@.log(progress.events.deep_view()),
            forall|k: int|
                0 <= k < progress.events.len() ==> (#[trigger] progress.events[k])@.from_library(),
            !final(self)@.pending().for_library(),
            final(self)@.wf(),
    {
        let mut events: Vec<Event> = Vec::new();
        let mut log: Vec<LogEntry> = Vec::new();
        proof {
            use_type_invariant(&*self);
        }
        loop
            invariant
                self@.wf(),
                old(self)@.runs(events.deep_view()),
                self@ == old(self)@.run(events.deep_view()),
                log.deep_view() == old(self)@.log(events.deep_view()),
                forall|k: int| 0 <= k < events.len() ==> (#[trigger] events[k])@.from_library(),
            ensures
                !self@.pending().for_library(),
            decreases outcomes_left(self@),
        {
            let event = match self.pending() {
                Action::Open { path } => self.open_tree(path.as_str()),
                Action::Status { file, .. } => self.query_tree(file.as_str()),
                _ => { break ; },
            };
            let ghost before = events.deep_view();
            let ghost logged = log.deep_view();
            let taken = event.clone();
            match self.step(event) {
                Ok(entry) => {
                    events.push(taken);
                    proof {
                        assert(events.deep_view().drop_last() =~= before);
                        assert(events.deep_view().last() == taken@);
                    }
                    match entry {
                        Some(entry) => {
                            log.push(entry);
                            assert(log.deep_view() =~= logged.push(entry@));
                        },
                        None => {},
                    }
                },
                // no way here: the event answers the pending operation
                Err(_) => { break ; },
            }
        }
        Progress { events, log }
    }

    /// Takes the outcome of the pending operation and moves on. The entry, if
    /// any, is what the outcome leaves in the log. An event that is no
    /// outcome of the pending operation is handed back and changes nothing.
    /// Every outcome that is taken brings the cycle nearer to its end.
    pub fn step(&mut self, event: Event) -> (result: Result<Option<LogEntry>, Rejected>)
        ensures
            result is Ok <==> old(self)@.accepts(event@),
            final(self)@ == old(self)@.step(event@),
            result matches Ok(entry) ==> entry.deep_view() == old(self)@.entry(event@),
            result matches Err(rejected) ==> rejected.0@ == event@,
            old(self)@.wf() && final(self)@.wf(),
            result is Ok ==> outcomes_left(final(self)@) < outcomes_left(old(self)@),
    {
        proof {
            use_type_invariant(&*self);
            lemma_step_wf(self@, event@);
            if self@.accepts(event@) {
                law_outcome_brings_end_nearer(self@, event@);
            }
        }
        let repo = self.cursor.repo;
        let result = self.take(event);
        if self.cursor.repo != repo {
            self.tree = None;
        }
        result
    }

    /// The step itself, without a thought for the working tree.
    fn take(&mut self, event: Event) -> (result: Result<Option<LogEntry>, Rejected>)
        ensures
            result is Ok <==> old(self)@.accepts(event@),
            final(self)@ == old(self)@.step(event@),
            result matches Ok(entry) ==> entry.deep_view() == old(self)@.entry(event@),
            result matches Err(rejected) ==> rejected.0@ == event@,
    {
        proof {
            use_type_invariant(&*self);
        }
        let cursor = self.cursor;
        assert(cursor.phase !is Finished ==> cursor.repo < self.repositories.len());
        proof {
            if cursor.phase !is Finished {
                lemma_file_list_fits(&self.repositories[cursor.repo as int]);
            }
        }
        match cursor.phase {
            Phase::Finished => Err(Rejected(event)),
            Phase::Opening => match event {
                Event::Opened => {
                    self.cursor = Cursor { repo: cursor.repo, file: 0, phase: Phase::CheckingBranch };
                    Ok(None)
                },
                Event::OpenFailed(detail) => {
                    let repo = self.repositories[cursor.repo].name.clone();
                    self.cursor = cursor_at_repository(&self.repositories, cursor.repo + 1);
                    Ok(Some(LogEntry::OpenFailed { repo, detail }))
                },
                other => Err(Rejected(other)),
            },
            Phase::CheckingBranch => match event {
                Event::Branch(output) => {
                    match check_branch(&self.repositories[cursor.repo], output.as_str()) {
                        None => {
                            self.cursor = cursor_at_file(&self.repositories, cursor, 0);
                            Ok(None)
                        },
                        Some(warning) => {
                            self.cursor = cursor_at_repository(&self.repositories, cursor.repo + 1);
                            Ok(Some(warning))
                        },
                    }
                },
                other => Err(Rejected(other)),
            },
            Phase::QueryingStatus => match event {
                Event::Status(status) => {
                    if status.needs_commit() {
                        self.cursor = Cursor {
                            repo: cursor.repo,
                            file: cursor.file,
                            phase: Phase::Committing,
                        };
                        Ok(None)
                    } else {
                        let entry = match status {
                            FileStatus::Error(detail) => {
                                let repo = self.repositories[cursor.repo].name.clone();
                                let file = file_name(&self.repositories[cursor.repo], cursor.file);
                                Some(LogEntry::StatusFailed { repo, file, detail })
                            },
                            _ => None,
                        };
                        self.cursor = cursor_at_file(&self.repositories, cursor, cursor.file + 1);
                        Ok(entry)
                    }
                },
                other => Err(Rejected(other)),
            },
            Phase::Committing => match event {
                Event::Committed(output) => {
                    let repo = self.repositories[cursor.repo].name.clone();
                    let file = file_name(&self.repositories[cursor.repo], cursor.file);
                    let output = trim_end(output.as_str());
                    self.cursor = cursor_at_file(&self.repositories, cursor, cursor.file + 1);
                    Ok(Some(LogEntry::Committed { repo, file, output }))
                },
                other => Err(Rejected(other)),
            },
            Phase::Pushing => match event {
                Event::Pushed(output) => {
                    let repo = self.repositories[cursor.repo].name.clone();
                    let output = trim_end(output.as_str());
                    self.cursor = cursor_at_repository(&self.repositories, cursor.repo + 1);
                    Ok(Some(LogEntry::Pushed { repo, output }))
                },
                other => Err(Rejected(other)),
            },
        }
    }
}

} // verus!
