//! The operations on the store: adding and removing repositories and files,
//! flipping a repository's flags, and starting a synchronization cycle.

use crate::config::{first_named, Config, ConfigView, GitRepository, RepositoryView};
use crate::sync::machine::SyncCycle;
use crate::sync::model::CycleView;
use crate::text::bool_text;
use vstd::prelude::*;
use vstd::string::*;

verus! {

/// Why an operation on the store was refused.
#[derive(Clone, Copy, Debug, PartialEq, Eq, Structural)]
pub enum CommandError {
    /// A repository of that name is configured already.
    DuplicateName,
    /// The store has no repository list to remove from.
    NoRepositories,
    /// No repository of that name is configured.
    RepositoryNotFound,
    /// The repository has no file list to remove from.
    NoFiles,
}

/// The two kinds of refusal.
#[derive(Clone, Copy, Debug, PartialEq, Eq, Structural)]
pub enum ErrorKind {
    /// What the operation refers to is not in the store.
    NotFound,
    /// What the operation would add is in the store already.
    AlreadyExists,
}

impl CommandError {
    /// The kind of the refusal.
    pub open spec fn spec_kind(self) -> ErrorKind {
        match self {
            CommandError::DuplicateName => ErrorKind::AlreadyExists,
            _ => ErrorKind::NotFound,
        }
    }

    /// What the user is told.
    pub open spec fn spec_message(self) -> Seq<char> {
        match self {
            CommandError::DuplicateName => "You can't use the same name twice"@,
            CommandError::NoRepositories => "There are no repositories to remove!"@,
            CommandError::RepositoryNotFound => "No repo found with given name."@,
            CommandError::NoFiles => "There are no files to remove!"@,
        }
    }

    /// The kind of the refusal.
    pub fn kind(&self) -> (kind: ErrorKind)
        ensures
            kind == self.spec_kind(),
    {
        match self {
            CommandError::DuplicateName => ErrorKind::AlreadyExists,
            _ => ErrorKind::NotFound,
        }
    }

    /// What the user is told.
    pub fn message(&self) -> (text: String)
        ensures
            text@ == self.spec_message(),
    {
        match self {
            CommandError::DuplicateName => String::from_str("You can't use the same name twice"),
            CommandError::NoRepositories => String::from_str(
                "There are no repositories to remove!",
            ),
            CommandError::RepositoryNotFound => String::from_str("No repo found with given name."),
            CommandError::NoFiles => String::from_str("There are no files to remove!"),
        }
    }
}

/// What `change_auto_push` reports once the flag stands at `value`.
pub open spec fn auto_push_notice(value: bool) -> Seq<char> {
    "Auto push was set to: "@ + bool_text(value)
}

/// What `change_active` reports once the flag stands at `value`.
pub open spec fn active_notice(value: bool) -> Seq<char> {
    if value {
        "The repo is now active and the programm will commit all new changes."@
    } else {
        "The repo is now inactive and no commits or pushes are happening."@
    }
}

/// What `set_branch` reports where no branch is given.
pub open spec fn missing_branch_notice() -> Seq<char> {
    "No branch given. Specify with \"--branch <name>\" or \"-b <name>\""@
}

impl ConfigView {
    /// The store with repository `index` replaced by `repo`.
    pub open spec fn with_repo(self, index: int, repo: RepositoryView) -> ConfigView {
        ConfigView { repositories: Some(self.repos().update(index, repo)), ..self }
    }

    /// The store after `init_repo`.
    pub open spec fn with_new_repo(
        self,
        name: Seq<char>,
        path: Seq<char>,
        branch: Seq<char>,
    ) -> ConfigView {
        ConfigView {
            repositories: Some(self.repos().push(RepositoryView::fresh(name, path, branch))),
            ..self
        }
    }

    /// The store without the repositories named `name`.
    pub open spec fn without_repo(self, name: Seq<char>) -> ConfigView {
        ConfigView {
            repositories: Some(self.repos().filter(|repo: RepositoryView| repo.name != name)),
            ..self
        }
    }

    /// The store with `file` behind the files of the first repository named `name`.
    pub open spec fn with_file(self, name: Seq<char>, file: Seq<char>) -> ConfigView {
        let index = self.index_of(name);
        let repo = self.repos()[index];
        self.with_repo(index, RepositoryView { files: Some(repo.file_list().push(file)), ..repo })
    }

    /// Whether a repository named `name` has no file list.
    pub open spec fn lacks_files(self, name: Seq<char>) -> bool {
        exists|i: int|
            0 <= i < self.repos().len() && (#[trigger] self.repos()[i]).name == name
                && self.repos()[i].files is None
    }

    /// The store with every entry `file` taken out of the files of the
    /// repositories named `name`.
    pub open spec fn without_file(self, name: Seq<char>, file: Seq<char>) -> ConfigView {
        ConfigView {
            repositories: Some(
                self.repos().map_values(
                    |repo: RepositoryView|
                        if repo.name == name {
                            RepositoryView {
                                files: Some(
                                    repo.file_list().filter(|entry: Seq<char>| entry != file),
                                ),
                                ..repo
                            }
                        } else {
                            repo
                        },
                ),
            ),
            ..self
        }
    }

    /// The store with `auto_push` of the first repository named `name` flipped.
    pub open spec fn with_auto_push_flipped(self, name: Seq<char>) -> ConfigView {
        let index = self.index_of(name);
        let repo = self.repos()[index];
        self.with_repo(index, RepositoryView { auto_push: !repo.auto_push, ..repo })
    }

    /// The store with `active` of the first repository named `name` flipped.
    pub open spec fn with_active_flipped(self, name: Seq<char>) -> ConfigView {
        let index = self.index_of(name);
        let repo = self.repos()[index];
        self.with_repo(index, RepositoryView { active: !repo.active, ..repo })
    }

    /// The store with `branch` as the branch of the first repository named `name`.
    pub open spec fn with_branch(self, name: Seq<char>, branch: Seq<char>) -> ConfigView {
        let index = self.index_of(name);
        let repo = self.repos()[index];
        self.with_repo(index, RepositoryView { branch, ..repo })
    }
}

/// The operations on the store.
pub trait Commands {
    /// Starts a synchronization cycle over a snapshot of the store.
    fn run_gitwatch(&self) -> SyncCycle;

    /// Records a new repository.
    fn init_repo(&mut self, name: String, path: String, branch: String) -> Result<
        (),
        CommandError,
    >;

    /// Removes a repository.
    fn remove_repo(&mut self, repo_name: &str) -> Result<(), CommandError>;

    /// Puts a file under management.
    fn add_file_to_repo(&mut self, repo_name: String, relativ_file_path: String) -> Result<
        (),
        CommandError,
    >;

    /// Takes a file out of management.
    fn remove_file_from_repo(&mut self, repo_name: &str, relativ_file_path: &str) -> Result<
        (),
        CommandError,
    >;

    /// Flips a repository's `auto_push`; the result is what to tell the user.
    fn change_auto_push(&mut self, repo_name: &str) -> Result<String, CommandError>;

    /// Flips a repository's `active`; the result is what to tell the user.
    fn change_active(&mut self, repo_name: &str) -> Result<String, CommandError>;

    /// Sets a repository's branch; the result is what to tell the user, if anything.
    fn set_branch(&mut self, repo_name: &str, branch: Option<String>) -> Result<
        Option<String>,
        CommandError,
    >;

    /// Looks a repository up by its name.
    fn get_repo_not_mut(&self, repo_name: &str) -> Result<&GitRepository, CommandError>;
}

/// Index of the first repository of `config` named `repo_name`, if there is one.
pub fn get_repo(repo_name: &str, config: &Config) -> (found: Option<usize>)
    ensures
        found is Some <==> config@.has(repo_name@),
        found matches Some(index) ==> index == config@.index_of(repo_name@) && index
            < config@.repos().len(),
{
    proof {
        config@.lemma_index_of(repo_name@);
    }
    let wanted = String::from_str(repo_name);
    match &config.repositories {
        None => None,
        Some(repos) => {
            let mut index: usize = 0;
            while index < repos.len() && repos[index].name != wanted
                invariant
                    index <= repos.len(),
                    wanted@ == repo_name@,
                    repos.deep_view() == config@.repos(),
                    first_named(config@.repos(), repo_name@, index as nat)
                        == config@.index_of(repo_name@),
                decreases repos.len() - index,
            {
                index = index + 1;
            }
            if index < repos.len() {
                Some(index)
            } else {
                None
            }
        },
    }
}

/// Copy of `files` without the entries equal to `file`.
fn files_without(files: &Vec<String>, file: &str) -> (kept: Vec<String>)
    ensures
        kept.deep_view() == files.deep_view().filter(|entry: Seq<char>| entry != file@),
{
    let ghost pred = |entry: Seq<char>| entry != file@;
    let unwanted = String::from_str(file);
    let mut kept: Vec<String> = Vec::new();
    let mut i: usize = 0;
    proof {
        reveal(Seq::filter);
        assert(files.deep_view().take(0).filter(pred) =~= kept.deep_view());
    }
    while i < files.len()
        invariant
            i <= files.len(),
            unwanted@ == file@,
            pred == |entry: Seq<char>| entry != file@,
            kept.deep_view() == files.deep_view().take(i as int).filter(pred),
        decreases files.len() - i,
    {
        let ghost before = kept.deep_view();
        proof {
            reveal(Seq::filter);
            assert(files.deep_view().take(i + 1).drop_last() =~= files.deep_view().take(i as int));
        }
        if files[i] != unwanted {
            kept.push(files[i].clone());
            assert(kept.deep_view() =~= before.push(files[i as int]@));
        }
        i = i + 1;
    }
    assert(files.deep_view().take(files.len() as int) =~= files.deep_view());
    kept
}

impl Commands for Config {
    /// The cycle starts at the first active repository of the store as it
    /// stands now; later changes to the store do not reach it.
    fn run_gitwatch(&self) -> (cycle: SyncCycle)
        ensures
            cycle@ == CycleView::start(self@.repos()),
    {
        SyncCycle::new(self)
    }

    /// Refused where a repository of that name is configured. Otherwise the
    /// repository goes behind the others, with no file, pushing and active.
    fn init_repo(&mut self, name: String, path: String, branch: String) -> (result: Result<
        (),
        CommandError,
    >)
        ensures
            old(self)@.has(name@) ==> result == Err::<(), CommandError>(
                CommandError::DuplicateName,
            ) && final(self)@ == old(self)@,
            !old(self)@.has(name@) ==> result is Ok && final(self)@ == old(self)@.with_new_repo(
                name@,
                path@,
                branch@,
            ),
            old(self)@.wf() ==> final(self)@.wf(),
    {
        if get_repo(name.as_str(), self).is_some() {
            return Err(CommandError::DuplicateName);
        }
        let repo = GitRepository { name, branch, path, files: None, auto_push: true, active: true };
        match &mut self.repositories {
            Some(repos) => {
                repos.push(repo);
                assert(repos.deep_view() =~= old(self)@.repos().push(repo@));
            },
            None => {
                let mut repos: Vec<GitRepository> = Vec::new();
                repos.push(repo);
                assert(repos.deep_view() =~= old(self)@.repos().push(repo@));
                self.repositories = Some(repos);
            },
        }
        Ok(())
    }

    /// Refused where the store has no repository list, and where no
    /// repository of that name is configured. Otherwise every repository of
    /// that name leaves the store; the others keep their order.
    fn remove_repo(&mut self, repo_name: &str) -> (result: Result<(), CommandError>)
        ensures
            old(self)@.repositories is None ==> result == Err::<(), CommandError>(
                CommandError::NoRepositories,
            ),
            old(self)@.repositories is Some && !old(self)@.has(repo_name@) ==> result == Err::<
                (),
                CommandError,
            >(CommandError::RepositoryNotFound),
            result is Err ==> final(self)@ == old(self)@,
            old(self)@.has(repo_name@) ==> result is Ok && final(self)@ == old(self)@.without_repo(
                repo_name@,
            ) && !final(self)@.has(repo_name@),
            old(self)@.wf() ==> final(self)@.wf(),
    {
        if self.repositories.is_none() {
            return Err(CommandError::NoRepositories);
        }
        if get_repo(repo_name, self).is_none() {
            return Err(CommandError::RepositoryNotFound);
        }
        let ghost pred = |repo: RepositoryView| repo.name != repo_name@;
        let ghost before = self@.repos();
        let unwanted = String::from_str(repo_name);
        let mut kept: Vec<GitRepository> = Vec::new();
        match &self.repositories {
            Some(repos) => {
                let mut i: usize = 0;
                proof {
                    reveal(Seq::filter);
                    assert(before.take(0).filter(pred) =~= kept.deep_view());
                }
                while i < repos.len()
                    invariant
                        i <= repos.len(),
                        unwanted@ == repo_name@,
                        repos.deep_view() == before,
                        pred == |repo: RepositoryView| repo.name != repo_name@,
                        kept.deep_view() == before.take(i as int).filter(pred),
                    decreases repos.len() - i,
                {
                    let ghost so_far = kept.deep_view();
                    proof {
                        reveal(Seq::filter);
                        assert(before.take(i + 1).drop_last() =~= before.take(i as int));
                    }
                    if repos[i].name != unwanted {
                        kept.push(repos[i].clone());
                        assert(kept.deep_view() =~= so_far.push(repos[i as int]@));
                    }
                    i = i + 1;
                }
                assert(before.take(repos.len() as int) =~= before);
            },
            None => {},
        }
        proof {
            lemma_filter_keeps_order(before, pred);
        }
        self.repositories = Some(kept);
        Ok(())
    }

    /// Refused where no repository of that name is configured. Otherwise the
    /// file goes behind the files of the first repository of that name,
    /// whether or not it is listed there already.
    fn add_file_to_repo(&mut self, repo_name: String, relativ_file_path: String) -> (result:
        Result<(), CommandError>)
        ensures
            !old(self)@.has(repo_name@) ==> result == Err::<(), CommandError>(
                CommandError::RepositoryNotFound,
            ) && final(self)@ == old(self)@,
            old(self)@.has(repo_name@) ==> result is Ok && final(self)@ == old(self)@.with_file(
                repo_name@,
                relativ_file_path@,
            ),
            old(self)@.wf() ==> final(self)@.wf(),
    {
        let index = match get_repo(repo_name.as_str(), self) {
            Some(index) => index,
            None => { return Err(CommandError::RepositoryNotFound); },
        };
        match &mut self.repositories {
            Some(repos) => {
                let ghost before = repos[index as int]@;
                match &mut repos[index].files {
                    Some(files) => {
                        files.push(relativ_file_path);
                        assert(files.deep_view() =~= before.file_list().push(relativ_file_path@));
                    },
                    None => {
                        let mut files: Vec<String> = Vec::new();
                        files.push(relativ_file_path);
                        assert(files.deep_view() =~= before.file_list().push(relativ_file_path@));
                        repos[index].files = Some(files);
                    },
                }
                assert(repos.deep_view() =~= old(self)@.repos().update(
                    index as int,
                    RepositoryView {
                        files: Some(before.file_list().push(relativ_file_path@)),
                        ..before
                    },
                ));
            },
            None => {},
        }
        Ok(())
    }

    /// Refused where no repository of that name is configured, and where one
    /// of that name has no file list. Otherwise every entry equal to the file
    /// leaves the list of every repository of that name; a file that is not
    /// listed leaves the store as it is.
    fn remove_file_from_repo(&mut self, repo_name: &str, relativ_file_path: &str) -> (result:
        Result<(), CommandError>)
        ensures
            !old(self)@.has(repo_name@) ==> result == Err::<(), CommandError>(
                CommandError::RepositoryNotFound,
            ),
            old(self)@.has(repo_name@) && old(self)@.lacks_files(repo_name@) ==> result == Err::<
                (),
                CommandError,
            >(CommandError::NoFiles),
            result is Err ==> final(self)@ == old(self)@,
            old(self)@.has(repo_name@) && !old(self)@.lacks_files(repo_name@) ==> result is Ok
                && final(self)@ == old(self)@.without_file(repo_name@, relativ_file_path@),
            old(self)@.wf() ==> final(self)@.wf(),
    {
        if get_repo(repo_name, self).is_none() {
            return Err(CommandError::RepositoryNotFound);
        }
        let ghost before = self@.repos();
        let ghost change = |repo: RepositoryView|
            if repo.name == repo_name@ {
                RepositoryView {
                    files: Some(
                        repo.file_list().filter(|entry: Seq<char>| entry != relativ_file_path@),
                    ),
                    ..repo
                }
            } else {
                repo
            };
        let wanted = String::from_str(repo_name);
        let mut changed: Vec<GitRepository> = Vec::new();
        match &self.repositories {
            Some(repos) => {
                let mut i: usize = 0;
                while i < repos.len()
                    invariant
                        i <= repos.len(),
                        wanted@ == repo_name@,
                        repos.deep_view() == before,
                        before == self@.repos(),
                        self@ == old(self)@,
                        self@.has(repo_name@),
                        changed.len() == i,
                        forall|k: int|
                            0 <= k < i ==> !((#[trigger] before[k]).name == repo_name@
                                && before[k].files is None),
                        forall|k: int| 0 <= k < i ==> (#[trigger] changed[k])@ == change(before[k]),
                        change == |repo: RepositoryView|
                            if repo.name == repo_name@ {
                                RepositoryView {
                                    files: Some(
                                        repo.file_list().filter(
                                            |entry: Seq<char>| entry != relativ_file_path@,
                                        ),
                                    ),
                                    ..repo
                                }
                            } else {
                                repo
                            },
                    decreases repos.len() - i,
                {
                    let repo = &repos[i];
                    if repo.name == wanted {
                        match &repo.files {
                            None => {
                                assert(before[i as int].name == repo_name@
                                    && before[i as int].files is None);
                                return Err(CommandError::NoFiles);
                            },
                            Some(files) => {
                                changed.push(
                                    GitRepository {
                                        name: repo.name.clone(),
                                        branch: repo.branch.clone(),
                                        path: repo.path.clone(),
                                        files: Some(files_without(files, relativ_file_path)),
                                        auto_push: repo.auto_push,
                                        active: repo.active,
                                    },
                                );
                            },
                        }
                    } else {
                        changed.push(repo.clone());
                    }
                    i = i + 1;
                }
                assert(changed.deep_view() =~= before.map_values(change));
            },
            None => {},
        }
        self.repositories = Some(changed);
        Ok(())
    }

    /// Refused where no repository of that name is configured. Otherwise
    /// `auto_push` of the first repository of that name is flipped.
    fn change_auto_push(&mut self, repo_name: &str) -> (result: Result<String, CommandError>)
        ensures
            !old(self)@.has(repo_name@) ==> result == Err::<String, CommandError>(
                CommandError::RepositoryNotFound,
            ) && final(self)@ == old(self)@,
            old(self)@.has(repo_name@) ==> final(self)@ == old(self)@.with_auto_push_flipped(
                repo_name@,
            ) && (result matches Ok(notice) && notice@ == auto_push_notice(
                final(self)@.repos()[old(self)@.index_of(repo_name@)].auto_push,
            )),
            old(self)@.wf() ==> final(self)@.wf(),
    {
        let index = match get_repo(repo_name, self) {
            Some(index) => index,
            None => { return Err(CommandError::RepositoryNotFound); },
        };
        let mut value = false;
        match &mut self.repositories {
            Some(repos) => {
                value = !repos[index].auto_push;
                repos[index].auto_push = value;
                assert(repos.deep_view() =~= old(self)@.repos().update(
                    index as int,
                    RepositoryView { auto_push: value, ..old(self)@.repos()[index as int] },
                ));
            },
            None => {},
        }
        let mut notice = String::from_str("Auto push was set to: ");
        notice.append(if value { "true" } else { "false" });
        Ok(notice)
    }

    /// Refused where no repository of that name is configured. Otherwise
    /// `active` of the first repository of that name is flipped.
    fn change_active(&mut self, repo_name: &str) -> (result: Result<String, CommandError>)
        ensures
            !old(self)@.has(repo_name@) ==> result == Err::<String, CommandError>(
                CommandError::RepositoryNotFound,
            ) && final(self)@ == old(self)@,
            old(self)@.has(repo_name@) ==> final(self)@ == old(self)@.with_active_flipped(
                repo_name@,
            ) && (result matches Ok(notice) && notice@ == active_notice(
                final(self)@.repos()[old(self)@.index_of(repo_name@)].active,
            )),
            old(self)@.wf() ==> final(self)@.wf(),
    {
        let index = match get_repo(repo_name, self) {
            Some(index) => index,
            None => { return Err(CommandError::RepositoryNotFound); },
        };
        let mut value = false;
        match &mut self.repositories {
            Some(repos) => {
                value = !repos[index].active;
                repos[index].active = value;
                assert(repos.deep_view() =~= old(self)@.repos().update(
                    index as int,
                    RepositoryView { active: value, ..old(self)@.repos()[index as int] },
                ));
            },
            None => {},
        }
        if value {
            Ok(
                String::from_str(
                    "The repo is now active and the programm will commit all new changes.",
                ),
            )
        } else {
            Ok(String::from_str("The repo is now inactive and no commits or pushes are happening."))
        }
    }

    /// Without a branch nothing changes, whatever the name, and the result
    /// says how to give one. With a branch it is refused where no repository
    /// of that name is configured; otherwise the branch of the first
    /// repository of that name is set, and there is nothing to tell.
    fn set_branch(&mut self, repo_name: &str, branch: Option<String>) -> (result: Result<
        Option<String>,
        CommandError,
    >)
        ensures
            branch is None ==> final(self)@ == old(self)@ && (result matches Ok(Some(notice))
                && notice@ == missing_branch_notice()),
            branch is Some && !old(self)@.has(repo_name@) ==> result == Err::<
                Option<String>,
                CommandError,
            >(CommandError::RepositoryNotFound) && final(self)@ == old(self)@,
            branch is Some && old(self)@.has(repo_name@) ==> (result matches Ok(None))
                && final(self)@ == old(self)@.with_branch(repo_name@, (branch->0)@),
            old(self)@.wf() ==> final(self)@.wf(),
    {
        let branch = match branch {
            Some(branch) => branch,
            None => {
                return Ok(
                    Some(
                        String::from_str(
                            "No branch given. Specify with \"--branch <name>\" or \"-b <name>\"",
                        ),
                    ),
                );
            },
        };
        let index = match get_repo(repo_name, self) {
            Some(index) => index,
            None => { return Err(CommandError::RepositoryNotFound); },
        };
        match &mut self.repositories {
            Some(repos) => {
                repos[index].branch = branch;
                assert(repos.deep_view() =~= old(self)@.repos().update(
                    index as int,
                    RepositoryView { branch: branch@, ..old(self)@.repos()[index as int] },
                ));
            },
            None => {},
        }
        Ok(None)
    }

    /// The first repository of that name; refused where none is configured.
    fn get_repo_not_mut(&self, repo_name: &str) -> (result: Result<&GitRepository, CommandError>)
        ensures
            !self@.has(repo_name@) ==> result == Err::<&GitRepository, CommandError>(
                CommandError::RepositoryNotFound,
            ),
            self@.has(repo_name@) ==> (result matches Ok(repo) && repo@
                == self@.repos()[self@.index_of(repo_name@)] && repo@.name == repo_name@),
    {
        proof {
            self@.lemma_index_of(repo_name@);
        }
        match get_repo(repo_name, self) {
            Some(index) => match &self.repositories {
                Some(repos) => Ok(&repos[index]),
                None => Err(CommandError::RepositoryNotFound),
            },
            None => Err(CommandError::RepositoryNotFound),
        }
    }
}

/// Whether `first` stands before `second` somewhere in `repos`.
pub open spec fn in_order(repos: Seq<RepositoryView>, first: RepositoryView, second: RepositoryView) -> bool {
    exists|a: int, b: int|
        0 <= a < b < repos.len() && #[trigger] repos[a] == first && #[trigger] repos[b] == second
}

/// Filtering keeps what passes in its order: of two entries that are kept,
/// the one that stands first stood first before.
pub proof fn lemma_filter_keeps_order(
    repos: Seq<RepositoryView>,
    pred: spec_fn(RepositoryView) -> bool,
)
    ensures
        forall|i: int, j: int|
            0 <= i < j < repos.filter(pred).len() ==> in_order(
                repos,
                #[trigger] repos.filter(pred)[i],
                #[trigger] repos.filter(pred)[j],
            ),
    decreases repos.len(),
{
    reveal(Seq::filter);
    if repos.len() > 0 {
        let rest = repos.drop_last();
        lemma_filter_keeps_order(rest, pred);
        let kept = repos.filter(pred);
        assert forall|i: int, j: int| 0 <= i < j < kept.len() implies in_order(
            repos,
            #[trigger] kept[i],
            #[trigger] kept[j],
        ) by {
            if j < rest.filter(pred).len() {
                assert(in_order(rest, rest.filter(pred)[i], rest.filter(pred)[j]));
                let (a, b) = choose|a: int, b: int|
                    0 <= a < b < rest.len() && #[trigger] rest[a] == rest.filter(pred)[i]
                        && #[trigger] rest[b] == rest.filter(pred)[j];
                assert(repos[a] == kept[i] && repos[b] == kept[j]);
            } else {
                assert(rest.filter(pred).contains(rest.filter(pred)[i]));
                rest.lemma_filter_contains_rev(pred, rest.filter(pred)[i]);
                let a = choose|a: int| 0 <= a < rest.len() && rest[a] == rest.filter(pred)[i];
                let b = repos.len() - 1;
                assert(repos[a] == kept[i] && repos[b] == kept[j]);
            }
        }
    }
}

} // verus!
