//! The cycle as a transition system over mathematical values: where it can
//! stand, which operation it asks for there, and where each outcome leads.

use crate::config::RepositoryView;
use crate::sync::protocol::{ActionView, EventView, LogEntryView};
use crate::status::FileStatusView;
use crate::text::trimmed;
use vstd::prelude::*;

verus! {

/// What the cycle is waiting for at its current repository.
#[derive(Clone, Copy, Debug, PartialEq, Eq, Structural)]
pub enum Phase {
    /// For the working tree to be opened.
    Opening,
    /// For the name of the branch the working tree is on.
    CheckingBranch,
    /// For the state of the current file.
    QueryingStatus,
    /// For the commit of the current file.
    Committing,
    /// For the push.
    Pushing,
    /// For nothing: every repository has been dealt with.
    Finished,
}

/// The remote every push goes to.
pub open spec fn remote_name() -> Seq<char> {
    "origin"@
}

/// Least index from `from` on whose repository is active; the number of
/// repositories where there is none.
pub open spec fn next_active(repos: Seq<RepositoryView>, from: nat) -> nat
    decreases repos.len() - from,
{
    if from >= repos.len() {
        repos.len()
    } else if repos[from as int].active {
        from
    } else {
        next_active(repos, from + 1)
    }
}

/// A position of the cycle: the snapshot of the repositories it runs over,
/// the repository it is at, the file it is at, and what it is waiting for.
pub struct CycleView {
    pub repositories: Seq<RepositoryView>,
    pub repo: nat,
    pub file: nat,
    pub phase: Phase,
}

impl CycleView {
    /// The repository the cycle is at.
    pub open spec fn current(self) -> RepositoryView {
        self.repositories[self.repo as int]
    }

    /// The positions a cycle can be in: at an active repository unless it is
    /// over, and at one of that repository's files while it queries or commits.
    pub open spec fn wf(self) -> bool {
        &&& self.repo <= self.repositories.len()
        &&& self.phase is Finished <==> self.repo == self.repositories.len()
        &&& self.phase !is Finished ==> self.current().active
        &&& if self.phase is QueryingStatus || self.phase is Committing {
            self.file < self.current().file_list().len()
        } else {
            self.file == 0
        }
    }

    /// The position at the first active repository from index `from` on:
    /// waiting for it to be opened, or over where there is none.
    pub open spec fn at_repository(repos: Seq<RepositoryView>, from: nat) -> CycleView {
        let repo = next_active(repos, from);
        CycleView {
            repositories: repos,
            repo,
            file: 0,
            phase: if repo < repos.len() {
                Phase::Opening
            } else {
                Phase::Finished
            },
        }
    }

    /// Where a cycle over `repos` begins.
    pub open spec fn start(repos: Seq<RepositoryView>) -> CycleView {
        Self::at_repository(repos, 0)
    }

    /// The position once the current repository is done with, for whatever reason.
    pub open spec fn leave(self) -> CycleView {
        Self::at_repository(self.repositories, self.repo + 1)
    }

    /// The position at file `file` of the current repository's commit stage.
    /// Behind the last file comes the push, where the repository asks for one,
    /// and the next repository where it does not.
    pub open spec fn at_file(self, file: nat) -> CycleView {
        if file < self.current().file_list().len() {
            CycleView { file, phase: Phase::QueryingStatus, ..self }
        } else if self.current().auto_push {
            CycleView { file: 0, phase: Phase::Pushing, ..self }
        } else {
            self.leave()
        }
    }

    /// The branch guard: whether the branch query's output, trailing white
    /// space cut, is the configured branch, character for character.
    pub open spec fn on_branch(self, output: Seq<char>) -> bool {
        trimmed(output) == self.current().branch
    }

    /// The operation the cycle asks for at this position.
    pub open spec fn pending(self) -> ActionView {
        match self.phase {
            Phase::Opening => ActionView::Open { path: self.current().path },
            Phase::CheckingBranch => ActionView::ReadBranch { path: self.current().path },
            Phase::QueryingStatus => ActionView::Status {
                path: self.current().path,
                file: self.current().file_list()[self.file as int],
            },
            Phase::Committing => ActionView::Commit {
                path: self.current().path,
                file: self.current().file_list()[self.file as int],
                message: self.current().file_list()[self.file as int],
            },
            Phase::Pushing => ActionView::Push {
                path: self.current().path,
                remote: remote_name(),
                branch: self.current().branch,
            },
            Phase::Finished => ActionView::Done,
        }
    }

    /// Whether `event` is an outcome of the operation asked for.
    pub open spec fn accepts(self, event: EventView) -> bool {
        match self.phase {
            Phase::Opening => event is Opened || event is OpenFailed,
            Phase::CheckingBranch => event is Branch,
            Phase::QueryingStatus => event is Status,
            Phase::Committing => event is Committed,
            Phase::Pushing => event is Pushed,
            Phase::Finished => false,
        }
    }

    /// The position after `event`. An event that is no outcome of the
    /// operation asked for changes nothing.
    pub open spec fn step(self, event: EventView) -> CycleView {
        if !self.accepts(event) {
            self
        } else {
            match event {
                EventView::Opened => CycleView { phase: Phase::CheckingBranch, ..self },
                EventView::OpenFailed(_) => self.leave(),
                EventView::Branch(output) => if self.on_branch(output) {
                    self.at_file(0)
                } else {
                    self.leave()
                },
                EventView::Status(status) => if status.needs_commit() {
                    CycleView { phase: Phase::Committing, ..self }
                } else {
                    self.at_file(self.file + 1)
                },
                EventView::Committed(_) => self.at_file(self.file + 1),
                EventView::Pushed(_) => self.leave(),
            }
        }
    }

    /// The log entry that `event` leaves at this position, if any.
    pub open spec fn entry(self, event: EventView) -> Option<LogEntryView> {
        if !self.accepts(event) {
            None
        } else {
            match event {
                EventView::Opened => None,
                EventView::OpenFailed(detail) => Some(
                    LogEntryView::OpenFailed { repo: self.current().name, detail },
                ),
                EventView::Branch(output) => if self.on_branch(output) {
                    None
                } else {
                    Some(
                        LogEntryView::BranchMismatch {
                            repo: self.current().name,
                            current: trimmed(output),
                            expected: self.current().branch,
                        },
                    )
                },
                EventView::Status(status) => match status {
                    FileStatusView::Error(detail) => Some(
                        LogEntryView::StatusFailed {
                            repo: self.current().name,
                            file: self.current().file_list()[self.file as int],
                            detail,
                        },
                    ),
                    _ => None,
                },
                EventView::Committed(output) => Some(
                    LogEntryView::Committed {
                        repo: self.current().name,
                        file: self.current().file_list()[self.file as int],
                        output: trimmed(output),
                    },
                ),
                EventView::Pushed(output) => Some(
                    LogEntryView::Pushed { repo: self.current().name, output: trimmed(output) },
                ),
            }
        }
    }

    /// Whether every event of `events`, fed in order from this position, is
    /// an outcome of the operation asked for at the position it meets.
    pub open spec fn runs(self, events: Seq<EventView>) -> bool
        decreases events.len(),
    {
        events.len() == 0 || (self.runs(events.drop_last()) && self.run(
            events.drop_last(),
        ).accepts(events.last()))
    }

    /// The position after `events`, fed in order from this position.
    pub open spec fn run(self, events: Seq<EventView>) -> CycleView
        decreases events.len(),
    {
        if events.len() == 0 {
            self
        } else {
            self.run(events.drop_last()).step(events.last())
        }
    }

    /// The log entries that `events` leave, in order, fed from this position.
    pub open spec fn log(self, events: Seq<EventView>) -> Seq<LogEntryView>
        decreases events.len(),
    {
        if events.len() == 0 {
            Seq::empty()
        } else {
            let before = self.log(events.drop_last());
            match self.run(events.drop_last()).entry(events.last()) {
                Some(entry) => before.push(entry),
                None => before,
            }
        }
    }

    /// The position after the first `k` of `events`.
    pub open spec fn after(self, events: Seq<EventView>, k: int) -> CycleView {
        self.run(events.take(k))
    }

    /// Strict order of the positions of one cycle: by repository, then by
    /// stage, then by file, a file's query before its commit.
    pub open spec fn precedes(self, other: CycleView) -> bool {
        ||| self.repo < other.repo
        ||| self.repo == other.repo && self.stage() < other.stage()
        ||| self.repo == other.repo && self.stage() == other.stage() && self.file < other.file
        ||| self.repo == other.repo && self.stage() == other.stage() && self.file == other.file
            && self.phase is QueryingStatus && other.phase is Committing
    }

    /// The stages of a repository, in order: open, branch guard, commits, push.
    pub open spec fn stage(self) -> nat {
        match self.phase {
            Phase::Opening => 0,
            Phase::CheckingBranch => 1,
            Phase::QueryingStatus => 2,
            Phase::Committing => 2,
            Phase::Pushing => 3,
            Phase::Finished => 4,
        }
    }
}

/// `next_active` lands on an active repository or behind the last, and skips
/// only inactive ones.
pub proof fn lemma_next_active(repos: Seq<RepositoryView>, from: nat)
    ensures
        next_active(repos, from) <= repos.len(),
        from <= repos.len() ==> from <= next_active(repos, from),
        from > repos.len() ==> next_active(repos, from) == repos.len(),
        next_active(repos, from) < repos.len() ==> repos[next_active(repos, from) as int].active,
        forall|i: int| from <= i < next_active(repos, from) ==> !(#[trigger] repos[i]).active,
    decreases repos.len() - from,
{
    if from < repos.len() && !repos[from as int].active {
        lemma_next_active(repos, from + 1);
    }
}

} // verus!
