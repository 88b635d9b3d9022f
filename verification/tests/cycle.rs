use gitwatch::{
    check_branch, commit, push, Action, Commands, Config, Event, FileStatus, GitRepository, Level,
    LogEntry, Rejected, SyncCycle,
};
use std::collections::{HashMap, HashSet};

/// A stand-in for the working trees on disk: what each query answers, and
/// what was asked of it.
struct World {
    unopenable: HashSet<String>,
    branches: HashMap<String, String>,
    states: HashMap<(String, String), FileStatus>,
    commits: Vec<(String, String, String)>,
    pushes: Vec<(String, String, String)>,
    queries: Vec<(String, String)>,
}

fn world() -> World {
    World {
        unopenable: HashSet::new(),
        branches: HashMap::new(),
        states: HashMap::new(),
        commits: Vec::new(),
        pushes: Vec::new(),
        queries: Vec::new(),
    }
}

fn answer(world: &mut World, action: Action) -> Event {
    match action {
        Action::Open { path } => {
            if world.unopenable.contains(&path) {
                Event::OpenFailed(format!("could not find repository at '{}'", path))
            } else {
                Event::Opened
            }
        }
        Action::ReadBranch { path } => {
            Event::Branch(format!("{}\n", world.branches.get(&path).cloned().unwrap_or_default()))
        }
        Action::Status { path, file } => {
            world.queries.push((path.clone(), file.clone()));
            let state =
                world.states.get(&(path, file)).cloned().unwrap_or(FileStatus::Unmodified);
            Event::Status(state)
        }
        Action::Commit { path, file, message } => {
            world.states.insert((path.clone(), file.clone()), FileStatus::Unmodified);
            world.commits.push((path, file.clone(), message));
            Event::Committed(format!("[main 0000000] {}\n 1 file changed\n", file))
        }
        Action::Push { path, remote, branch } => {
            world.pushes.push((path, remote, branch));
            Event::Pushed("Everything up-to-date\n".to_owned())
        }
        Action::Done => unreachable!(),
    }
}

fn run(config: &Config, world: &mut World) -> Vec<LogEntry> {
    let mut cycle = config.run_gitwatch();
    let mut log = Vec::new();
    let mut steps = 0;
    while !cycle.is_finished() {
        let event = answer(world, cycle.pending());
        if let Some(entry) = cycle.step(event).unwrap() {
            log.push(entry);
        }
        steps += 1;
        assert!(steps < 10_000);
    }
    assert_eq!(cycle.pending(), Action::Done);
    log
}

fn repo(name: &str, path: &str, branch: &str, files: &[&str]) -> GitRepository {
    GitRepository {
        name: name.to_owned(),
        branch: branch.to_owned(),
        path: path.to_owned(),
        files: Some(files.iter().map(|file| file.to_string()).collect()),
        auto_push: true,
        active: true,
    }
}

fn store(repositories: Vec<GitRepository>) -> Config {
    Config { repositories: Some(repositories), logging_path: None }
}

fn owned(a: &str, b: &str, c: &str) -> (String, String, String) {
    (a.to_owned(), b.to_owned(), c.to_owned())
}

#[test]
fn empty_store_is_a_no_op() {
    let cycle = SyncCycle::new(&Config::default());
    assert!(cycle.is_finished());
    assert_eq!(cycle.pending(), Action::Done);
    let mut world = world();
    assert!(run(&store(vec![]), &mut world).is_empty());
    assert!(world.commits.is_empty() && world.pushes.is_empty() && world.queries.is_empty());
}

#[test]
fn one_modified_file_is_committed_and_pushed() {
    let config = store(vec![repo("docs", "/repo", "main", &["a.md", "b.md"])]);
    let mut world = world();
    world.branches.insert("/repo".to_owned(), "main".to_owned());
    world.states.insert(("/repo".to_owned(), "a.md".to_owned()), FileStatus::Modified);

    let log = run(&config, &mut world);

    assert_eq!(world.commits, vec![owned("/repo", "a.md", "a.md")]);
    assert_eq!(world.pushes, vec![owned("/repo", "origin", "main")]);
    assert_eq!(
        world.queries,
        vec![
            ("/repo".to_owned(), "a.md".to_owned()),
            ("/repo".to_owned(), "b.md".to_owned())
        ]
    );
    assert_eq!(log.len(), 2);
    assert!(matches!(&log[0], LogEntry::Committed { file, .. } if file == "a.md"));
    assert!(matches!(&log[1], LogEntry::Pushed { repo, .. } if repo == "docs"));
}

#[test]
fn one_repository_step_by_step() {
    let config = store(vec![repo("docs", "/repo", "main", &["a.md", "b.md"])]);
    let mut cycle = config.run_gitwatch();
    assert_eq!(cycle.pending(), Action::Open { path: "/repo".to_owned() });
    assert_eq!(cycle.step(Event::Opened), Ok(None));
    assert_eq!(cycle.pending(), Action::ReadBranch { path: "/repo".to_owned() });
    assert_eq!(cycle.step(Event::Branch("main\n".to_owned())), Ok(None));
    assert_eq!(
        cycle.pending(),
        Action::Status { path: "/repo".to_owned(), file: "a.md".to_owned() }
    );
    assert_eq!(cycle.step(Event::Status(FileStatus::Modified)), Ok(None));
    assert_eq!(
        cycle.pending(),
        Action::Commit {
            path: "/repo".to_owned(),
            file: "a.md".to_owned(),
            message: "a.md".to_owned()
        }
    );
    assert_eq!(
        cycle.step(Event::Committed("done \n".to_owned())),
        Ok(Some(LogEntry::Committed {
            repo: "docs".to_owned(),
            file: "a.md".to_owned(),
            output: "done".to_owned()
        }))
    );
    assert_eq!(
        cycle.pending(),
        Action::Status { path: "/repo".to_owned(), file: "b.md".to_owned() }
    );
    assert_eq!(cycle.step(Event::Status(FileStatus::Unmodified)), Ok(None));
    assert_eq!(
        cycle.pending(),
        Action::Push {
            path: "/repo".to_owned(),
            remote: "origin".to_owned(),
            branch: "main".to_owned()
        }
    );
    assert!(!cycle.is_finished());
    assert_eq!(
        cycle.step(Event::Pushed("rejected\n".to_owned())),
        Ok(Some(LogEntry::Pushed { repo: "docs".to_owned(), output: "rejected".to_owned() }))
    );
    assert!(cycle.is_finished());
    assert_eq!(cycle.pending(), Action::Done);
}

#[test]
fn second_cycle_without_edits_commits_nothing() {
    let config = store(vec![
        repo("docs", "/repo", "main", &["a.md", "b.md"]),
        repo("notes", "/notes", "main", &["n.txt"]),
    ]);
    let mut world = world();
    world.branches.insert("/repo".to_owned(), "main".to_owned());
    world.branches.insert("/notes".to_owned(), "main".to_owned());
    world.states.insert(("/repo".to_owned(), "a.md".to_owned()), FileStatus::Modified);
    world.states.insert(("/repo".to_owned(), "b.md".to_owned()), FileStatus::NewlyStaged);
    world.states.insert(("/notes".to_owned(), "n.txt".to_owned()), FileStatus::Modified);

    run(&config, &mut world);
    assert_eq!(world.commits.len(), 3);
    world.commits.clear();

    run(&config, &mut world);
    assert!(world.commits.is_empty());
}

#[test]
fn open_failure_does_not_stop_the_cycle() {
    let config = store(vec![
        repo("broken", "/nowhere", "main", &["x"]),
        repo("good", "/good", "main", &["y"]),
    ]);
    let mut world = world();
    world.unopenable.insert("/nowhere".to_owned());
    world.branches.insert("/good".to_owned(), "main".to_owned());
    world.states.insert(("/good".to_owned(), "y".to_owned()), FileStatus::Modified);
    world.states.insert(("/nowhere".to_owned(), "x".to_owned()), FileStatus::Modified);

    let log = run(&config, &mut world);

    assert_eq!(world.commits, vec![owned("/good", "y", "y")]);
    assert_eq!(world.pushes, vec![owned("/good", "origin", "main")]);
    assert_eq!(
        log[0],
        LogEntry::OpenFailed {
            repo: "broken".to_owned(),
            detail: "could not find repository at '/nowhere'".to_owned()
        }
    );
    assert_eq!(log[0].message(), "failed to open: could not find repository at '/nowhere'");
    assert_eq!(log[0].level(), Level::Error);
}

#[test]
fn branch_mismatch_skips_the_repository_with_one_warning() {
    let config = store(vec![repo("docs", "/repo", "main", &["a.md"])]);
    let mut world = world();
    world.branches.insert("/repo".to_owned(), "dev".to_owned());
    world.states.insert(("/repo".to_owned(), "a.md".to_owned()), FileStatus::Modified);

    let log = run(&config, &mut world);

    assert!(world.commits.is_empty());
    assert!(world.pushes.is_empty());
    assert!(world.queries.is_empty());
    assert_eq!(
        log,
        vec![LogEntry::BranchMismatch {
            repo: "docs".to_owned(),
            current: "dev".to_owned(),
            expected: "main".to_owned()
        }]
    );
    assert_eq!(
        log[0].message(),
        "Repo: docs skips repo because current branch: \"dev\" is not the defined one: \"main\"."
    );
    assert_eq!(log[0].level(), Level::Warn);
}

#[test]
fn branch_mismatch_leaves_the_next_repository_alone() {
    let config = store(vec![
        repo("docs", "/repo", "main", &["a.md"]),
        repo("good", "/good", "trunk", &["y"]),
    ]);
    let mut world = world();
    world.branches.insert("/repo".to_owned(), "dev".to_owned());
    world.branches.insert("/good".to_owned(), "trunk".to_owned());
    world.states.insert(("/good".to_owned(), "y".to_owned()), FileStatus::NewlyStaged);

    run(&config, &mut world);

    assert_eq!(world.commits, vec![owned("/good", "y", "y")]);
    assert_eq!(world.pushes, vec![owned("/good", "origin", "trunk")]);
}

#[test]
fn branch_names_are_compared_case_sensitively() {
    let docs = repo("docs", "/repo", "main", &[]);
    assert_eq!(check_branch(&docs, "main\n"), None);
    assert_eq!(check_branch(&docs, "main"), None);
    assert_eq!(check_branch(&docs, "main \r\n"), None);
    assert_eq!(
        check_branch(&docs, "Main\n"),
        Some(LogEntry::BranchMismatch {
            repo: "docs".to_owned(),
            current: "Main".to_owned(),
            expected: "main".to_owned()
        })
    );
    assert!(check_branch(&docs, " main\n").is_some());
    assert!(check_branch(&docs, "").is_some());
}

#[test]
fn inactive_repository_is_skipped() {
    let mut idle = repo("idle", "/idle", "main", &["a"]);
    idle.active = false;
    let config = store(vec![idle]);
    let mut world = world();
    world.branches.insert("/idle".to_owned(), "main".to_owned());
    world.states.insert(("/idle".to_owned(), "a".to_owned()), FileStatus::Modified);

    let cycle = config.run_gitwatch();
    assert!(cycle.is_finished());
    let log = run(&config, &mut world);
    assert!(log.is_empty());
    assert!(world.commits.is_empty() && world.pushes.is_empty() && world.queries.is_empty());
}

#[test]
fn inactive_repository_does_not_end_the_cycle() {
    let mut idle = repo("idle", "/idle", "main", &["a"]);
    idle.active = false;
    let config = store(vec![idle, repo("good", "/good", "main", &["y"])]);
    let mut world = world();
    world.branches.insert("/good".to_owned(), "main".to_owned());
    world.states.insert(("/good".to_owned(), "y".to_owned()), FileStatus::Modified);

    run(&config, &mut world);

    assert_eq!(world.commits, vec![owned("/good", "y", "y")]);
}

#[test]
fn two_of_three_files_give_two_commits_in_order() {
    let config = store(vec![repo("docs", "/repo", "main", &["a", "b", "c"])]);
    let mut world = world();
    world.branches.insert("/repo".to_owned(), "main".to_owned());
    world.states.insert(("/repo".to_owned(), "c".to_owned()), FileStatus::Modified);
    world.states.insert(("/repo".to_owned(), "a".to_owned()), FileStatus::NewlyStaged);

    run(&config, &mut world);

    assert_eq!(world.commits, vec![owned("/repo", "a", "a"), owned("/repo", "c", "c")]);
}

#[test]
fn no_push_without_auto_push() {
    let mut quiet = repo("quiet", "/quiet", "main", &["a"]);
    quiet.auto_push = false;
    let config = store(vec![quiet]);
    let mut world = world();
    world.branches.insert("/quiet".to_owned(), "main".to_owned());
    world.states.insert(("/quiet".to_owned(), "a".to_owned()), FileStatus::Modified);

    run(&config, &mut world);

    assert_eq!(world.commits.len(), 1);
    assert!(world.pushes.is_empty());
}

#[test]
fn push_with_auto_push() {
    let config = store(vec![repo("loud", "/loud", "main", &["a"])]);
    let mut world = world();
    world.branches.insert("/loud".to_owned(), "main".to_owned());
    world.states.insert(("/loud".to_owned(), "a".to_owned()), FileStatus::Modified);

    run(&config, &mut world);

    assert_eq!(world.commits.len(), 1);
    assert_eq!(world.pushes, vec![owned("/loud", "origin", "main")]);
}

#[test]
fn push_even_where_nothing_was_committed() {
    let mut bare = repo("bare", "/bare", "main", &[]);
    bare.files = None;
    let config = store(vec![bare]);
    let mut world = world();
    world.branches.insert("/bare".to_owned(), "main".to_owned());

    run(&config, &mut world);

    assert!(world.commits.is_empty());
    assert_eq!(world.pushes, vec![owned("/bare", "origin", "main")]);
}

#[test]
fn status_failure_skips_only_that_file() {
    let config = store(vec![repo("docs", "/repo", "main", &["a", "b"])]);
    let mut world = world();
    world.branches.insert("/repo".to_owned(), "main".to_owned());
    world
        .states
        .insert(("/repo".to_owned(), "a".to_owned()), FileStatus::Error("ambiguous".to_owned()));
    world.states.insert(("/repo".to_owned(), "b".to_owned()), FileStatus::Modified);

    let log = run(&config, &mut world);

    assert_eq!(world.commits, vec![owned("/repo", "b", "b")]);
    assert_eq!(
        log[0],
        LogEntry::StatusFailed {
            repo: "docs".to_owned(),
            file: "a".to_owned(),
            detail: "ambiguous".to_owned()
        }
    );
    assert_eq!(log[0].message(), "failed to get file status: ambiguous");
    assert_eq!(log[0].level(), Level::Error);
}

#[test]
fn a_file_listed_twice_is_queried_twice() {
    let config = store(vec![repo("docs", "/repo", "main", &["a", "a"])]);
    let mut world = world();
    world.branches.insert("/repo".to_owned(), "main".to_owned());
    world.states.insert(("/repo".to_owned(), "a".to_owned()), FileStatus::Modified);

    run(&config, &mut world);

    assert_eq!(world.queries.len(), 2);
    assert_eq!(world.commits, vec![owned("/repo", "a", "a")]);
}

#[test]
fn a_path_that_leaves_the_tree_is_passed_on_as_it_is() {
    let config = store(vec![repo("docs", "/repo", "main", &["../outside"])]);
    let mut world = world();
    world.branches.insert("/repo".to_owned(), "main".to_owned());
    world.states.insert(("/repo".to_owned(), "../outside".to_owned()), FileStatus::Modified);

    run(&config, &mut world);

    assert_eq!(world.commits, vec![owned("/repo", "../outside", "../outside")]);
}

#[test]
fn an_event_out_of_turn_is_handed_back() {
    let config = store(vec![repo("docs", "/repo", "main", &["a"])]);
    let mut cycle = config.run_gitwatch();
    assert_eq!(
        cycle.step(Event::Branch("main".to_owned())),
        Err(Rejected(Event::Branch("main".to_owned())))
    );
    assert_eq!(cycle.step(Event::Pushed(String::new())), Err(Rejected(Event::Pushed(String::new()))));
    assert_eq!(cycle.pending(), Action::Open { path: "/repo".to_owned() });
    assert_eq!(cycle.step(Event::Opened), Ok(None));
    assert_eq!(cycle.step(Event::Opened), Err(Rejected(Event::Opened)));
    assert_eq!(cycle.pending(), Action::ReadBranch { path: "/repo".to_owned() });

    let mut over = SyncCycle::new(&Config::default());
    assert_eq!(over.step(Event::Opened), Err(Rejected(Event::Opened)));
    assert!(over.is_finished());
}

#[test]
fn the_cycle_runs_over_a_snapshot() {
    let mut config = store(vec![repo("docs", "/repo", "main", &["a"])]);
    let cycle = config.run_gitwatch();
    config.remove_repo("docs").unwrap();
    assert_eq!(cycle.pending(), Action::Open { path: "/repo".to_owned() });
}

#[test]
fn commit_names_the_file_alone() {
    let docs = repo("docs", "/repo", "main", &["a.md"]);
    assert_eq!(
        commit(&docs, "dir/a.md"),
        Action::Commit {
            path: "/repo".to_owned(),
            file: "dir/a.md".to_owned(),
            message: "dir/a.md".to_owned()
        }
    );
}

#[test]
fn push_goes_to_origin() {
    let docs = repo("docs", "/repo", "release", &[]);
    assert_eq!(
        push(&docs),
        Action::Push {
            path: "/repo".to_owned(),
            remote: "origin".to_owned(),
            branch: "release".to_owned()
        }
    );
}

#[test]
fn cycle_takes_no_more_outcomes_than_the_store_allows() {
    let mut idle = repo("idle", "/idle", "main", &["q", "r", "s"]);
    idle.active = false;
    let config = store(vec![
        repo("a", "/a", "main", &["x", "y"]),
        idle,
        repo("b", "/b", "main", &[]),
        repo("c", "/c", "main", &["z"]),
    ]);
    let mut world = world();
    for path in ["/a", "/b", "/c"] {
        world.branches.insert(path.to_owned(), "main".to_owned());
    }
    for (path, file) in [("/a", "x"), ("/a", "y"), ("/c", "z")] {
        world.states.insert((path.to_owned(), file.to_owned()), FileStatus::Modified);
    }

    let mut cycle = config.run_gitwatch();
    let mut outcomes = 0;
    while !cycle.is_finished() {
        let event = answer(&mut world, cycle.pending());
        cycle.step(event).unwrap();
        outcomes += 1;
    }

    // every active repository: opening, branch read, push; every file: state and commit
    assert_eq!(outcomes, (3 + 2 * 2) + 3 + (3 + 2));
    assert!(outcomes <= (3 + 2 * 2) + (3 + 2 * 3) + 3 + (3 + 2));
}

#[test]
fn repositories_are_visited_in_stored_order() {
    let config = store(vec![
        repo("c", "/c", "main", &[]),
        repo("a", "/a", "main", &[]),
        repo("b", "/b", "main", &[]),
    ]);
    let mut world = world();
    for path in ["/a", "/b", "/c"] {
        world.branches.insert(path.to_owned(), "main".to_owned());
    }

    run(&config, &mut world);

    let order: Vec<&str> = world.pushes.iter().map(|push| push.0.as_str()).collect();
    assert_eq!(order, vec!["/c", "/a", "/b"]);
}

#[test]
fn a_repository_fares_the_same_in_any_company() {
    let docs = || repo("docs", "/repo", "main", &["a.md", "b.md"]);
    let alone = store(vec![docs()]);
    let crowded = store(vec![
        repo("broken", "/nowhere", "main", &["x"]),
        repo("astray", "/astray", "main", &["y"]),
        docs(),
        repo("late", "/late", "main", &["z"]),
    ]);
    let prepare = |world: &mut World| {
        world.unopenable.insert("/nowhere".to_owned());
        world.branches.insert("/astray".to_owned(), "dev".to_owned());
        world.branches.insert("/repo".to_owned(), "main".to_owned());
        world.branches.insert("/late".to_owned(), "main".to_owned());
        world.states.insert(("/repo".to_owned(), "b.md".to_owned()), FileStatus::Modified);
    };
    let mut first = world();
    prepare(&mut first);
    let mut second = world();
    prepare(&mut second);

    let log_alone = run(&alone, &mut first);
    let log_crowded = run(&crowded, &mut second);

    let at_docs = |list: &Vec<(String, String, String)>| -> Vec<(String, String, String)> {
        list.iter().filter(|entry| entry.0 == "/repo").cloned().collect()
    };
    assert_eq!(at_docs(&first.commits), at_docs(&second.commits));
    assert_eq!(at_docs(&first.pushes), at_docs(&second.pushes));
    assert_eq!(first.commits, vec![owned("/repo", "b.md", "b.md")]);
    let about_docs = |log: &Vec<LogEntry>| -> Vec<String> {
        log.iter()
            .filter(|entry| {
                matches!(entry,
                    LogEntry::Committed { repo, .. } | LogEntry::Pushed { repo, .. } if repo == "docs")
            })
            .map(|entry| entry.message())
            .collect()
    };
    assert_eq!(about_docs(&log_alone), about_docs(&log_crowded));
    assert_eq!(about_docs(&log_alone).len(), 2);
}
