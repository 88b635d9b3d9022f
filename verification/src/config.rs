//! The configuration store: the repositories under watch and the global
//! settings, together with their mathematical views.

use vstd::prelude::*;
use vstd::string::*;

verus! {

/// One git working tree under watch.
#[derive(Debug, PartialEq, Eq)]
pub struct GitRepository {
    /// Identifier, unique among the configured repositories.
    pub name: String,
    /// Branch the working tree is expected to be on, and that is pushed.
    pub branch: String,
    /// Absolute path of the working tree.
    pub path: String,
    /// Files under management, relative to `path`, in the order they are committed.
    pub files: Option<Vec<String>>,
    /// Whether the commit stage is followed by a push.
    pub auto_push: bool,
    /// Whether a cycle visits the repository at all.
    pub active: bool,
}

/// Mathematical view of a [`GitRepository`].
pub struct RepositoryView {
    pub name: Seq<char>,
    pub branch: Seq<char>,
    pub path: Seq<char>,
    pub files: Option<Seq<Seq<char>>>,
    pub auto_push: bool,
    pub active: bool,
}

/// Index of the first repository from `from` on that is named `name`; the
/// number of repositories where there is none.
pub open spec fn first_named(repos: Seq<RepositoryView>, name: Seq<char>, from: nat) -> nat
    decreases repos.len() - from,
{
    if from >= repos.len() {
        repos.len()
    } else if repos[from as int].name == name {
        from
    } else {
        first_named(repos, name, from + 1)
    }
}

/// `first_named` lands on a repository of that name or behind the last, and
/// passes over none of that name.
pub proof fn lemma_first_named(repos: Seq<RepositoryView>, name: Seq<char>, from: nat)
    ensures
        first_named(repos, name, from) <= repos.len(),
        from <= repos.len() ==> from <= first_named(repos, name, from),
        first_named(repos, name, from) < repos.len() ==> repos[first_named(
            repos,
            name,
            from,
        ) as int].name == name,
        forall|i: int|
            from <= i < first_named(repos, name, from) ==> (#[trigger] repos[i]).name != name,
    decreases repos.len() - from,
{
    if from < repos.len() && repos[from as int].name != name {
        lemma_first_named(repos, name, from + 1);
    }
}

impl RepositoryView {
    /// A repository as `init` records it: no file yet, pushing and active.
    pub open spec fn fresh(name: Seq<char>, path: Seq<char>, branch: Seq<char>) -> RepositoryView {
        RepositoryView { name, branch, path, files: None, auto_push: true, active: true }
    }

    /// The tracked files; none where the list is absent.
    pub open spec fn file_list(self) -> Seq<Seq<char>> {
        match self.files {
            Some(files) => files,
            None => Seq::empty(),
        }
    }
}

impl View for GitRepository {
    type V = RepositoryView;

    open spec fn view(&self) -> RepositoryView {
        RepositoryView {
            name: self.name@,
            branch: self.branch@,
            path: self.path@,
            files: self.files.deep_view(),
            auto_push: self.auto_push,
            active: self.active,
        }
    }
}

impl DeepView for GitRepository {
    type V = RepositoryView;

    open spec fn deep_view(&self) -> RepositoryView {
        self@
    }
}

/// Copy of a list of strings.
pub(crate) fn clone_strings(list: &Vec<String>) -> (out: Vec<String>)
    ensures
        out.deep_view() == list.deep_view(),
{
    let mut out: Vec<String> = Vec::new();
    let mut i: usize = 0;
    while i < list.len()
        invariant
            i <= list.len(),
            out.len() == i,
            forall|k: int| 0 <= k < i ==> out[k]@ == list[k]@,
        decreases list.len() - i,
    {
        out.push(list[i].clone());
        i = i + 1;
    }
    assert(out.deep_view() =~= list.deep_view());
    out
}

impl Clone for GitRepository {
    fn clone(&self) -> (out: Self)
        ensures
            out@ == self@,
    {
        let files = match &self.files {
            Some(list) => Some(clone_strings(list)),
            None => None,
        };
        GitRepository {
            name: self.name.clone(),
            branch: self.branch.clone(),
            path: self.path.clone(),
            files,
            auto_push: self.auto_push,
            active: self.active,
        }
    }
}

/// Copy of a list of repositories.
pub(crate) fn clone_repositories(list: &Vec<GitRepository>) -> (out: Vec<GitRepository>)
    ensures
        out.deep_view() == list.deep_view(),
{
    let mut out: Vec<GitRepository> = Vec::new();
    let mut i: usize = 0;
    while i < list.len()
        invariant
            i <= list.len(),
            out.len() == i,
            forall|k: int| 0 <= k < i ==> out[k]@ == list[k]@,
        decreases list.len() - i,
    {
        out.push(list[i].clone());
        i = i + 1;
    }
    assert(out.deep_view() =~= list.deep_view());
    out
}

/// The whole store: every repository record and the global settings.
#[derive(Debug, PartialEq, Eq)]
pub struct Config {
    /// The repositories, in insertion order.
    pub repositories: Option<Vec<GitRepository>>,
    /// Where the log is written, if anywhere.
    pub logging_path: Option<String>,
}

/// Mathematical view of a [`Config`].
pub struct ConfigView {
    pub repositories: Option<Seq<RepositoryView>>,
    pub logging_path: Option<Seq<char>>,
}

impl ConfigView {
    /// The repository records; none where the list is absent.
    pub open spec fn repos(self) -> Seq<RepositoryView> {
        match self.repositories {
            Some(repos) => repos,
            None => Seq::empty(),
        }
    }

    /// Whether a repository of that name is configured.
    pub open spec fn has(self, name: Seq<char>) -> bool {
        exists|i: int| 0 <= i < self.repos().len() && (#[trigger] self.repos()[i]).name == name
    }

    /// Index of the first repository of that name; the number of
    /// repositories where there is none.
    pub open spec fn index_of(self, name: Seq<char>) -> int {
        first_named(self.repos(), name, 0) as int
    }

    /// A repository of that name is configured exactly where `index_of`
    /// lands on one.
    pub proof fn lemma_index_of(self, name: Seq<char>)
        ensures
            0 <= self.index_of(name) <= self.repos().len(),
            self.has(name) <==> self.index_of(name) < self.repos().len(),
            self.has(name) ==> self.repos()[self.index_of(name)].name == name,
            forall|i: int| 0 <= i < self.index_of(name) ==> (#[trigger] self.repos()[i]).name != name,
    {
        lemma_first_named(self.repos(), name, 0);
    }

    /// The invariant of the store: no two repositories share a name.
    pub open spec fn wf(self) -> bool {
        forall|i: int, j: int|
            0 <= i < j < self.repos().len() ==> (#[trigger] self.repos()[i]).name != (
            #[trigger] self.repos()[j]).name
    }
}

impl View for Config {
    type V = ConfigView;

    open spec fn view(&self) -> ConfigView {
        ConfigView {
            repositories: self.repositories.deep_view(),
            logging_path: self.logging_path.deep_view(),
        }
    }
}

impl Clone for Config {
    fn clone(&self) -> (out: Self)
        ensures
            out@ == self@,
    {
        let repositories = match &self.repositories {
            Some(list) => Some(clone_repositories(list)),
            None => None,
        };
        let logging_path = match &self.logging_path {
            Some(path) => Some(path.clone()),
            None => None,
        };
        Config { repositories, logging_path }
    }
}

impl Default for Config {
    /// The empty store: no repository list and no logging path.
    fn default() -> (out: Self)
        ensures
            out@.repositories is None,
            out@.logging_path is None,
            out@.wf(),
    {
        Config { repositories: None, logging_path: None }
    }
}

/// Why the store could not be located, created or read.
#[derive(Debug, PartialEq, Eq)]
pub enum ConfigError {
    /// The user's home directory cannot be determined.
    NoHomeDir,
    /// The store's file exists and was not to be overwritten.
    AlreadyExists,
    /// The store's file could not be read.
    Unreadable,
    /// The store's file does not hold a store; the parser's words.
    Invalid(String),
}

/// Mathematical view of a [`ConfigError`].
pub enum ConfigErrorView {
    NoHomeDir,
    AlreadyExists,
    Unreadable,
    Invalid(Seq<char>),
}

impl ConfigErrorView {
    /// What the user is told.
    pub open spec fn message(self) -> Seq<char> {
        match self {
            ConfigErrorView::NoHomeDir => "Impossible to get your home dir!"@,
            ConfigErrorView::AlreadyExists => "File already exists. Please call command with --overwrite if you want to replace it"@,
            ConfigErrorView::Unreadable => "Failed to read config file. Please run 'gitwatch init-config' or create the following path: $USER/.config/gitwatch-rs/gitwatch.yaml and add the values from https://github.com/crabstars/gitwatch/config-example.yaml"@,
            ConfigErrorView::Invalid(detail) => "Could not read config: "@ + detail,
        }
    }
}

impl View for ConfigError {
    type V = ConfigErrorView;

    open spec fn view(&self) -> ConfigErrorView {
        match self {
            ConfigError::NoHomeDir => ConfigErrorView::NoHomeDir,
            ConfigError::AlreadyExists => ConfigErrorView::AlreadyExists,
            ConfigError::Unreadable => ConfigErrorView::Unreadable,
            ConfigError::Invalid(detail) => ConfigErrorView::Invalid(detail@),
        }
    }
}

impl ConfigError {
    /// What the user is told.
    pub fn message(&self) -> (text: String)
        ensures
            text@ == self@.message(),
    {
        match self {
            ConfigError::NoHomeDir => String::from_str("Impossible to get your home dir!"),
            ConfigError::AlreadyExists => String::from_str(
                "File already exists. Please call command with --overwrite if you want to replace it",
            ),
            ConfigError::Unreadable => String::from_str(
                "Failed to read config file. Please run 'gitwatch init-config' or create the following path: $USER/.config/gitwatch-rs/gitwatch.yaml and add the values from https://github.com/crabstars/gitwatch/config-example.yaml",
            ),
            ConfigError::Invalid(detail) => String::from_str("Could not read config: ").concat(
                detail.as_str(),
            ),
        }
    }
}

/// Where the store lies below the home directory.
pub open spec fn store_suffix() -> Seq<char> {
    ".config/gitwatch-rs/config.yaml"@
}

/// Where a new store sends the log.
pub open spec fn default_logging_path() -> Seq<char> {
    "/tmp/gitwatch-log/output.log"@
}

/// The store's path for the home directory `home`: the suffix joined to it,
/// with a separator between the two unless `home` is empty or ends in one.
pub open spec fn store_path(home: Seq<char>) -> Seq<char> {
    if home.len() == 0 || home.last() == '/' {
        home + store_suffix()
    } else {
        home + "/"@ + store_suffix()
    }
}

/// `home::home_dir`: the current user's home directory, taken from the
/// environment or from the system's user database, as text. Nothing is
/// claimed of it: it differs from one process to the next. A directory whose
/// name is not valid Unicode counts as none.
#[verifier::external_body]
fn home_dir() -> (home: Option<String>) {
    home::home_dir().and_then(|path| path.into_os_string().into_string().ok())
}

/// The store's path, given what the environment says of the home directory.
pub fn locate(home: Option<String>) -> (result: Result<String, ConfigError>)
    ensures
        home is None ==> (result matches Err(error) && error is NoHomeDir),
        home matches Some(dir) ==> (result matches Ok(path) && path@ == store_path(dir@)),
{
    match home {
        None => Err(ConfigError::NoHomeDir),
        Some(dir) => {
            let n = dir.as_str().unicode_len();
            let mut path = dir;
            if n > 0 && path.as_str().get_char(n - 1) != '/' {
                path.append("/");
            }
            path.append(".config/gitwatch-rs/config.yaml");
            Ok(path)
        },
    }
}

/// Locating, creating and reading the store.
pub trait OperationsFacade {
    /// Resets the store to what a new file holds.
    fn create_default(&mut self, overwrite: bool, exists: bool) -> Result<(), ConfigError>;

    /// Takes over the store that was read from its file.
    fn load(&mut self, loaded: Result<Config, ConfigError>) -> Result<(), ConfigError>;

    /// The path of the store's file.
    fn get_dir(&self) -> Result<String, ConfigError>;
}

impl OperationsFacade for Config {
    /// `exists` says whether the store's file is there already. Refused where
    /// it is and `overwrite` is not set. Otherwise the store is emptied and
    /// its log goes to the default place.
    fn create_default(&mut self, overwrite: bool, exists: bool) -> (result: Result<
        (),
        ConfigError,
    >)
        ensures
            exists && !overwrite ==> (result matches Err(error) && error is AlreadyExists)
                && final(self)@ == old(self)@,
            !(exists && !overwrite) ==> result is Ok && final(self)@ == (ConfigView {
                repositories: None,
                logging_path: Some(default_logging_path()),
            }),
            old(self)@.wf() ==> final(self)@.wf(),
    {
        if exists && !overwrite {
            return Err(ConfigError::AlreadyExists);
        }
        self.repositories = None;
        self.logging_path = Some(String::from_str("/tmp/gitwatch-log/output.log"));
        Ok(())
    }

    /// A store that was read replaces this one; a failure to read it is
    /// handed on and leaves this one as it is.
    fn load(&mut self, loaded: Result<Config, ConfigError>) -> (result: Result<(), ConfigError>)
        ensures
            loaded matches Ok(config) ==> result is Ok && final(self)@ == config@,
            loaded matches Err(error) ==> (result matches Err(same) && same@ == error@)
                && final(self)@ == old(self)@,
    {
        match loaded {
            Ok(config) => {
                *self = config;
                Ok(())
            },
            Err(error) => Err(error),
        }
    }

    /// The store's path below the home directory that the environment gives
    /// at this moment; refused where it gives none.
    fn get_dir(&self) -> (result: Result<String, ConfigError>)
        ensures
            result matches Ok(path) ==> exists|home: Seq<char>| path@ == store_path(home),
            result matches Err(error) ==> error is NoHomeDir,
    {
        locate(home_dir())
    }
}

} // verus!
