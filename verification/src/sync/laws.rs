//! What holds of every cycle, whatever the repositories and whatever the
//! outcomes of the git operations.

use crate::config::RepositoryView;
use crate::sync::model::{lemma_next_active, next_active, CycleView, Phase};
use crate::sync::protocol::{ActionView, EventView, LogEntryView};
use crate::text::trimmed;
use vstd::prelude::*;

verus! {

/// Whether `event` reports a file that the commit stage commits.
pub open spec fn reports_change(event: EventView) -> bool {
    event matches EventView::Status(status) && status.needs_commit()
}

/// Number of events of `events` that report a file to commit.
pub open spec fn changes_reported(events: Seq<EventView>) -> nat
    decreases events.len(),
{
    if events.len() == 0 {
        0
    } else {
        changes_reported(events.drop_last()) + if reports_change(events.last()) {
            1nat
        } else {
            0nat
        }
    }
}

/// Number of commits that a cycle asks for while it takes `events` from `from`.
pub open spec fn commits_asked(from: CycleView, events: Seq<EventView>) -> nat
    decreases events.len(),
{
    if events.len() == 0 {
        0
    } else {
        commits_asked(from, events.drop_last()) + if from.run(events).pending() is Commit {
            1nat
        } else {
            0nat
        }
    }
}

/// A cycle begins at a position it can be in.
pub proof fn lemma_start_wf(repos: Seq<RepositoryView>)
    ensures
        CycleView::start(repos).wf(),
{
    lemma_next_active(repos, 0);
}

/// A step leads from a position a cycle can be in to another such position,
/// over the same repositories.
pub proof fn lemma_step_wf(s: CycleView, event: EventView)
    requires
        s.wf(),
    ensures
        s.step(event).wf(),
        s.step(event).repositories == s.repositories,
{
    lemma_next_active(s.repositories, s.repo + 1);
}

/// A run leads from a position a cycle can be in to another such position,
/// over the same repositories.
pub proof fn lemma_run_wf(s: CycleView, events: Seq<EventView>)
    requires
        s.wf(),
    ensures
        s.run(events).wf(),
        s.run(events).repositories == s.repositories,
    decreases events.len(),
{
    if events.len() > 0 {
        lemma_run_wf(s, events.drop_last());
        lemma_step_wf(s.run(events.drop_last()), events.last());
    }
}

/// Every outcome moves the cycle forward.
pub proof fn lemma_step_advances(s: CycleView, event: EventView)
    requires
        s.wf(),
        s.accepts(event),
    ensures
        s.precedes(s.step(event)),
{
    lemma_next_active(s.repositories, s.repo + 1);
}

/// The position after `k + 1` events is one step from the position after `k`.
pub proof fn lemma_after_next(s: CycleView, events: Seq<EventView>, k: int)
    requires
        0 <= k < events.len(),
    ensures
        s.after(events, k + 1) == s.after(events, k).step(events[k]),
        s.after(events, 0) == s,
        s.after(events, events.len() as int) == s.run(events),
        s.runs(events) ==> s.runs(events.take(k)) && s.after(events, k).accepts(events[k]),
{
    assert(events.take(k + 1).drop_last() =~= events.take(k));
    assert(events.take(events.len() as int) =~= events);
    assert(events.take(0).len() == 0);
    if s.runs(events) {
        lemma_runs_prefix(s, events, k + 1);
    }
}

/// Where a cycle accepts all of `events`, it accepts every prefix of them.
pub proof fn lemma_runs_prefix(s: CycleView, events: Seq<EventView>, k: int)
    requires
        s.runs(events),
        0 <= k <= events.len(),
    ensures
        s.runs(events.take(k)),
    decreases events.len(),
{
    if k == events.len() {
        assert(events.take(k) =~= events);
    } else {
        lemma_runs_prefix(s, events.drop_last(), k);
        assert(events.drop_last().take(k) =~= events.take(k));
    }
}

/// Along an accepted run a later position lies strictly behind an earlier one.
pub proof fn lemma_run_advances(s: CycleView, events: Seq<EventView>, j: int, k: int)
    requires
        s.wf(),
        s.runs(events),
        0 <= j < k <= events.len(),
    ensures
        s.after(events, j).precedes(s.after(events, k)),
    decreases k - j,
{
    lemma_after_next(s, events, k - 1);
    lemma_run_wf(s, events.take(k - 1));
    lemma_step_advances(s.after(events, k - 1), events[k - 1]);
    if j < k - 1 {
        lemma_run_advances(s, events, j, k - 1);
    }
}

/// Order: along an accepted run the cycle never goes back to a repository
/// that stands before the one it is at.
pub proof fn law_repositories_in_stored_order(
    repos: Seq<RepositoryView>,
    events: Seq<EventView>,
    j: int,
    k: int,
)
    requires
        CycleView::start(repos).runs(events),
        0 <= j <= k <= events.len(),
    ensures
        CycleView::start(repos).after(events, j).repo <= CycleView::start(repos).after(
            events,
            k,
        ).repo,
{
    lemma_start_wf(repos);
    if j < k {
        lemma_run_advances(CycleView::start(repos), events, j, k);
    }
}

/// Inactive repositories are skipped: whatever the outcomes, a cycle is never
/// at a repository that is not active, so it asks for no operation on one.
pub proof fn law_inactive_repositories_are_skipped(
    repos: Seq<RepositoryView>,
    events: Seq<EventView>,
    i: int,
)
    requires
        0 <= i < repos.len(),
        !repos[i].active,
    ensures
        CycleView::start(repos).run(events).repo != i,
{
    lemma_start_wf(repos);
    lemma_run_wf(CycleView::start(repos), events);
}

/// Push gating, first half: whatever the outcomes, a cycle asks for a push
/// only at a repository whose `auto_push` is set.
pub proof fn law_no_push_without_auto_push(repos: Seq<RepositoryView>, events: Seq<EventView>)
    ensures
        ({
            let s = CycleView::start(repos).run(events);
            s.pending() is Push ==> s.repo < repos.len() && repos[s.repo as int].auto_push
        }),
    decreases events.len(),
{
    let start = CycleView::start(repos);
    lemma_start_wf(repos);
    if events.len() > 0 {
        lemma_run_wf(start, events.drop_last());
        law_no_push_without_auto_push(repos, events.drop_last());
        lemma_next_active(repos, start.run(events.drop_last()).repo + 1);
    }
}

/// Push gating, second half: the outcome that ends a repository's commit
/// stage (the branch read where there is no file, the state of the last file
/// where it needs no commit, or the commit of the last file) is followed by
/// the push of the configured branch to `origin` where `auto_push` is set,
/// and by the next repository where it is not.
pub proof fn law_push_follows_commit_stage(s: CycleView, event: EventView)
    requires
        s.wf(),
        s.accepts(event),
        match event {
            EventView::Branch(output) => s.on_branch(output) && s.current().file_list().len() == 0,
            EventView::Status(status) => !status.needs_commit() && s.file + 1
                == s.current().file_list().len(),
            EventView::Committed(_) => s.file + 1 == s.current().file_list().len(),
            _ => false,
        },
    ensures
        s.current().auto_push ==> s.step(event).repo == s.repo && s.step(event).pending()
            == (ActionView::Push {
            path: s.current().path,
            remote: "origin"@,
            branch: s.current().branch,
        }),
        !s.current().auto_push ==> s.step(event) == s.leave() && !(s.step(event).pending() is Push
            && s.step(event).repo == s.repo),
{
    lemma_next_active(s.repositories, s.repo + 1);
}

/// Commit granularity, one step: a commit is asked for exactly when a file
/// is reported modified or newly staged, and then for that file alone, under
/// its own path as the message.
pub proof fn law_commit_follows_change(s: CycleView, event: EventView)
    requires
        s.wf(),
        s.accepts(event),
    ensures
        s.step(event).pending() is Commit <==> reports_change(event),
        reports_change(event) ==> s.pending() is Status && s.step(event).pending()
            == (ActionView::Commit {
            path: s.current().path,
            file: s.pending()->Status_file,
            message: s.pending()->Status_file,
        }),
{
    lemma_next_active(s.repositories, s.repo + 1);
}

/// Commit granularity, a whole run: a cycle asks for as many commits as
/// files were reported modified or newly staged.
pub proof fn law_one_commit_per_change(repos: Seq<RepositoryView>, events: Seq<EventView>)
    requires
        CycleView::start(repos).runs(events),
    ensures
        commits_asked(CycleView::start(repos), events) == changes_reported(events),
    decreases events.len(),
{
    let start = CycleView::start(repos);
    lemma_start_wf(repos);
    if events.len() > 0 {
        law_one_commit_per_change(repos, events.drop_last());
        lemma_run_wf(start, events.drop_last());
        law_commit_follows_change(start.run(events.drop_last()), events.last());
    }
}

/// Commit granularity, order: within a repository the commits come in the
/// order in which the files are listed, and no file is committed twice.
pub proof fn law_commits_in_listed_order(
    repos: Seq<RepositoryView>,
    events: Seq<EventView>,
    j: int,
    k: int,
)
    requires
        CycleView::start(repos).runs(events),
        0 <= j < k <= events.len(),
        CycleView::start(repos).after(events, j).pending() is Commit,
        CycleView::start(repos).after(events, k).pending() is Commit,
        CycleView::start(repos).after(events, j).repo == CycleView::start(repos).after(
            events,
            k,
        ).repo,
    ensures
        CycleView::start(repos).after(events, j).file < CycleView::start(repos).after(
            events,
            k,
        ).file,
{
    lemma_start_wf(repos);
    lemma_run_advances(CycleView::start(repos), events, j, k);
}

/// Idempotence: where every file is reported unmodified, a cycle asks for no
/// commit at all.
pub proof fn law_no_commit_without_change(repos: Seq<RepositoryView>, events: Seq<EventView>)
    requires
        forall|k: int|
            0 <= k < events.len() ==> ((#[trigger] events[k]) matches EventView::Status(status)
                ==> status is Unmodified),
    ensures
        !(CycleView::start(repos).run(events).pending() is Commit),
    decreases events.len(),
{
    let start = CycleView::start(repos);
    lemma_start_wf(repos);
    if events.len() > 0 {
        let before = events.drop_last();
        assert forall|k: int| 0 <= k < before.len() implies ((#[trigger] before[k]) matches EventView::Status(
            status,
        ) ==> status is Unmodified) by {
            assert(before[k] == events[k]);
        }
        law_no_commit_without_change(repos, before);
        lemma_run_wf(start, before);
        lemma_next_active(repos, start.run(before).repo + 1);
        assert(events.last() == events[events.len() - 1]);
    }
}

/// Branch guard: where the working tree of a repository is found on another
/// branch than the configured one, the cycle asks for no state, no commit
/// and no push at that repository, before or after, and leaves exactly one
/// mismatch warning for it, which names the repository and both branches.
pub proof fn law_branch_guard(repos: Seq<RepositoryView>, events: Seq<EventView>, k: int)
    requires
        CycleView::start(repos).runs(events),
        0 <= k < events.len(),
        events[k] matches EventView::Branch(output) && !CycleView::start(repos).after(
            events,
            k,
        ).on_branch(output),
    ensures
        ({
            let start = CycleView::start(repos);
            let at = start.after(events, k);
            &&& at.repo < repos.len()
            &&& forall|j: int|
                0 <= j <= events.len() && (#[trigger] start.after(events, j)).repo == at.repo ==> {
                    ||| start.after(events, j).pending() is Open
                    ||| start.after(events, j).pending() is ReadBranch
                }
            &&& at.entry(events[k]) == Some(
                LogEntryView::BranchMismatch {
                    repo: repos[at.repo as int].name,
                    current: trimmed(events[k]->Branch_0),
                    expected: repos[at.repo as int].branch,
                },
            )
            &&& forall|j: int|
                0 <= j < events.len() && j != k && (#[trigger] start.after(events, j)).repo
                    == at.repo ==> !(start.after(events, j).entry(events[j]) matches Some(entry)
                    && entry is BranchMismatch)
        }),
{
    let start = CycleView::start(repos);
    let at = start.after(events, k);
    lemma_start_wf(repos);
    lemma_after_next(start, events, k);
    lemma_run_wf(start, events.take(k));
    lemma_next_active(repos, at.repo + 1);
    let next = start.after(events, k + 1);
    assert(next == at.leave());
    assert(at.repo < next.repo);
    assert forall|j: int|
        0 <= j <= events.len() && (#[trigger] start.after(events, j)).repo == at.repo implies {
        ||| start.after(events, j).pending() is Open
        ||| start.after(events, j).pending() is ReadBranch
    } by {
        lemma_run_wf(start, events.take(j));
        if j < k {
            lemma_run_advances(start, events, j, k);
        } else if j > k {
            if j > k + 1 {
                lemma_run_advances(start, events, k + 1, j);
            }
        }
    }
    assert forall|j: int|
        0 <= j < events.len() && j != k && (#[trigger] start.after(events, j)).repo
            == at.repo implies !(start.after(events, j).entry(events[j]) matches Some(entry)
        && entry is BranchMismatch) by {
        lemma_run_wf(start, events.take(j));
        lemma_after_next(start, events, j);
        if j < k {
            lemma_run_advances(start, events, j, k);
        } else {
            if j > k + 1 {
                lemma_run_advances(start, events, k + 1, j);
            }
        }
    }
}

/// Whether a cycle from `start` was, within its first `k` events, at the
/// point of opening repository `i`.
pub open spec fn opened_by(start: CycleView, events: Seq<EventView>, k: int, i: int) -> bool {
    exists|j: int|
        0 <= j <= k && (#[trigger] start.after(events, j)).repo == i && start.after(
            events,
            j,
        ).pending() is Open
}

/// Along an accepted run, the cycle has been at the point of opening every
/// active repository before the one it is at, and that one too.
proof fn lemma_visits(repos: Seq<RepositoryView>, events: Seq<EventView>, k: int, i: int)
    requires
        CycleView::start(repos).runs(events),
        0 <= k <= events.len(),
        0 <= i < repos.len(),
        repos[i].active,
        i <= CycleView::start(repos).after(events, k).repo,
    ensures
        opened_by(CycleView::start(repos), events, k, i),
    decreases k,
{
    let start = CycleView::start(repos);
    lemma_start_wf(repos);
    lemma_next_active(repos, 0);
    if k == 0 {
        assert(events.take(0).len() == 0);
        assert(start.after(events, 0) == start);
        assert(start.repo == i);
    } else {
        lemma_after_next(start, events, k - 1);
        let before = start.after(events, k - 1);
        let now = start.after(events, k);
        lemma_run_wf(start, events.take(k - 1));
        lemma_next_active(repos, before.repo + 1);
        if i <= before.repo {
            lemma_visits(repos, events, k - 1, i);
            let j = choose|j: int|
                0 <= j <= k - 1 && (#[trigger] start.after(events, j)).repo == i && start.after(
                    events,
                    j,
                ).pending() is Open;
            assert(0 <= j <= k && start.after(events, j).repo == i);
        } else {
            assert(now.repo == i);
            assert(now.pending() is Open);
        }
    }
}

/// Isolation, the whole cycle: a cycle that has run to its end has been at
/// the point of opening every active repository, whatever failed before it.
pub proof fn law_every_active_repository_is_visited(
    repos: Seq<RepositoryView>,
    events: Seq<EventView>,
    i: int,
)
    requires
        CycleView::start(repos).runs(events),
        CycleView::start(repos).run(events).pending() is Done,
        0 <= i < repos.len(),
        repos[i].active,
    ensures
        opened_by(CycleView::start(repos), events, events.len() as int, i),
{
    let start = CycleView::start(repos);
    lemma_start_wf(repos);
    lemma_run_wf(start, events);
    assert(events.take(events.len() as int) =~= events);
    lemma_visits(repos, events, events.len() as int, i);
}

/// Isolation, one step: an outcome that ends the work on a repository, a
/// failure as much as a success, leads to the opening of the next active
/// repository, or to the end of the cycle where there is none; what it leads
/// to depends on nothing but the repositories behind the one that was left.
pub proof fn law_failure_stays_within_repository(s: CycleView, event: EventView)
    requires
        s.wf(),
        s.accepts(event),
    ensures
        (event is OpenFailed || event is Pushed || (event matches EventView::Branch(output)
            && !s.on_branch(output))) ==> s.step(event) == CycleView::at_repository(
            s.repositories,
            s.repo + 1,
        ),
        s.step(event).repo != s.repo ==> s.step(event) == CycleView::at_repository(
            s.repositories,
            s.repo + 1,
        ),
        s.step(event).repo != s.repo ==> s.step(event).repo == next_active(
            s.repositories,
            s.repo + 1,
        ) && (s.step(event).pending() is Open || s.step(event).pending() is Done),
{
    lemma_next_active(s.repositories, s.repo + 1);
}

/// Most outcomes that the repositories from index `from` on can take between
/// them: for each its opening, its branch read, a state and a commit for
/// every file, and its push.
pub open spec fn outcomes_behind(repos: Seq<RepositoryView>, from: nat) -> nat
    decreases repos.len() - from,
{
    if from >= repos.len() {
        0
    } else {
        3 + 2 * repos[from as int].file_list().len() + outcomes_behind(repos, from + 1)
    }
}

/// Most outcomes that a cycle can still take from position `s`.
pub open spec fn outcomes_left(s: CycleView) -> nat {
    if s.phase is Finished {
        0
    } else {
        let files = s.current().file_list().len();
        outcomes_behind(s.repositories, s.repo + 1) + match s.phase {
            Phase::Opening => 3 + 2 * files,
            Phase::CheckingBranch => 2 + 2 * files,
            Phase::QueryingStatus => (1 + 2 * (files - s.file)) as nat,
            Phase::Committing => (2 * (files - s.file)) as nat,
            Phase::Pushing => 1,
            Phase::Finished => 0,
        }
    }
}

/// Skipping to the next active repository leaves no more outcomes than
/// there were.
proof fn lemma_outcomes_behind(repos: Seq<RepositoryView>, from: nat)
    ensures
        outcomes_left(CycleView::at_repository(repos, from)) <= outcomes_behind(repos, from),
    decreases repos.len() - from,
{
    lemma_next_active(repos, from);
    if from < repos.len() && !repos[from as int].active {
        lemma_outcomes_behind(repos, from + 1);
    }
}

/// Termination, one step: every outcome brings the cycle nearer to its end.
pub proof fn law_outcome_brings_end_nearer(s: CycleView, event: EventView)
    requires
        s.wf(),
        s.accepts(event),
    ensures
        outcomes_left(s.step(event)) < outcomes_left(s),
{
    lemma_next_active(s.repositories, s.repo + 1);
    lemma_outcomes_behind(s.repositories, s.repo + 1);
}

/// Termination, a whole run: a cycle takes no more outcomes than its
/// repositories and their files allow, so it comes to its end.
pub proof fn law_cycle_comes_to_an_end(repos: Seq<RepositoryView>, events: Seq<EventView>)
    requires
        CycleView::start(repos).runs(events),
    ensures
        events.len() + outcomes_left(CycleView::start(repos).run(events)) <= outcomes_behind(
            repos,
            0,
        ),
    decreases events.len(),
{
    let start = CycleView::start(repos);
    lemma_start_wf(repos);
    if events.len() == 0 {
        lemma_outcomes_behind(repos, 0);
    } else {
        law_cycle_comes_to_an_end(repos, events.drop_last());
        lemma_run_wf(start, events.drop_last());
        law_outcome_brings_end_nearer(start.run(events.drop_last()), events.last());
    }
}

/// Whether two cycles stand at the same point of equal repositories.
pub open spec fn same_place(s: CycleView, t: CycleView) -> bool {
    s.phase !is Finished && s.phase == t.phase && s.file == t.file && s.current() == t.current()
}

/// Isolation, between stores: what a cycle asks for at a repository, what
/// it logs there and when it leaves depend on that repository's record and
/// on the outcomes at it, and on nothing else. Two cycles at the same point
/// of equal repositories, whatever else their stores hold and whatever
/// happened before, ask for the same operation, log the same entry for the
/// same outcome, and stay together for as long as they stay.
pub proof fn law_repositories_are_independent(s: CycleView, t: CycleView, event: EventView)
    requires
        s.wf(),
        t.wf(),
        same_place(s, t),
    ensures
        s.pending() == t.pending(),
        s.accepts(event) == t.accepts(event),
        s.entry(event) == t.entry(event),
        (s.step(event).repo == s.repo) == (t.step(event).repo == t.repo),
        s.step(event).repo == s.repo ==> same_place(s.step(event), t.step(event)),
{
    lemma_next_active(s.repositories, s.repo + 1);
    lemma_next_active(t.repositories, t.repo + 1);
}

} // verus!
