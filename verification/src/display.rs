//! What the listing commands show of the store.

use crate::commands::{get_repo, CommandError};
use crate::config::{
    store_path, Config, ConfigError, ConfigView, GitRepository, OperationsFacade, RepositoryView,
};
use crate::text::{bool_text, decimal, decimal_text, flag_text};
use vstd::prelude::*;
use vstd::string::*;

verus! {

/// The lines for the repository at position `index`, counted from zero.
pub open spec fn repository_entry(index: nat, repo: RepositoryView) -> Seq<char> {
    decimal(index + 1) + ".\n name: "@ + repo.name + "\n path: "@ + repo.path
        + "\n auto_push: "@ + bool_text(repo.auto_push) + "\n active: "@ + bool_text(repo.active)
        + "\n"@
}

/// The lines for the first `count` of `repos`.
pub open spec fn repository_entries(repos: Seq<RepositoryView>, count: nat) -> Seq<char>
    decreases count,
{
    if count == 0 {
        Seq::empty()
    } else {
        repository_entries(repos, (count - 1) as nat) + repository_entry(
            (count - 1) as nat,
            repos[count - 1],
        )
    }
}

/// What `repositories` shows.
pub open spec fn repositories_text(config: ConfigView) -> Seq<char> {
    match config.repositories {
        Some(repos) => repository_entries(repos, repos.len()),
        None => "No repositories added yet.\n"@,
    }
}

/// The line for the file at position `index`, counted from zero.
pub open spec fn file_entry(index: nat, file: Seq<char>) -> Seq<char> {
    decimal(index + 1) + ". relativ path: "@ + file + "\n"@
}

/// The lines for the first `count` of `files`.
pub open spec fn file_entries(files: Seq<Seq<char>>, count: nat) -> Seq<char>
    decreases count,
{
    if count == 0 {
        Seq::empty()
    } else {
        file_entries(files, (count - 1) as nat) + file_entry((count - 1) as nat, files[count - 1])
    }
}

/// What `repository_files` shows of a repository.
pub open spec fn repository_files_text(repo: RepositoryView) -> Seq<char> {
    "Repository path: "@ + repo.path + "\n"@ + match repo.files {
        Some(files) => file_entries(files, files.len()),
        None => "No files added yet.\n"@,
    }
}

/// What stands for the logging path where none is set.
pub open spec fn logging_unset() -> Seq<char> {
    "Logging not set!"@
}

/// What `info` shows of a store whose file lies at `path`.
pub open spec fn info_text(config: ConfigView, path: Seq<char>) -> Seq<char> {
    "Setting information:\n config path: "@ + path + "\n logging path: "@ + match config.logging_path {
        Some(logging_path) => logging_path,
        None => logging_unset(),
    } + "\n repository count: "@ + decimal(config.repos().len()) + "\n"@
}

/// The listings of the store. Each result is the text to show, every line
/// with its line end.
pub trait Displayer {
    /// Every repository with its path and flags.
    fn repositories(&self) -> String;

    /// The files of one repository.
    fn repository_files(&self, repo_name: &str) -> Result<String, CommandError>;

    /// Where the store and the log lie, and how many repositories there are.
    fn info(&self) -> Result<String, ConfigError>;
}

/// The lines for `repo` at position `index`, counted from zero.
fn repository_lines(index: usize, repo: &GitRepository) -> (lines: String)
    requires
        index < usize::MAX,
    ensures
        lines@ == repository_entry(index as nat, repo@),
{
    let mut lines = decimal_text(index + 1);
    lines.append(".\n name: ");
    lines.append(repo.name.as_str());
    lines.append("\n path: ");
    lines.append(repo.path.as_str());
    lines.append("\n auto_push: ");
    lines.append(flag_text(repo.auto_push));
    lines.append("\n active: ");
    lines.append(flag_text(repo.active));
    lines.append("\n");
    lines
}

/// The line for `file` at position `index`, counted from zero.
fn file_line(index: usize, file: &str) -> (line: String)
    requires
        index < usize::MAX,
    ensures
        line@ == file_entry(index as nat, file@),
{
    let mut line = decimal_text(index + 1);
    line.append(". relativ path: ");
    line.append(file);
    line.append("\n");
    line
}

impl Config {
    /// What `info` shows where the store's file lies at `path`.
    pub fn info_at(&self, path: &str) -> (text: String)
        ensures
            text@ == info_text(self@, path@),
    {
        let count = match &self.repositories {
            Some(repos) => repos.len(),
            None => 0,
        };
        let mut text = String::from_str("Setting information:\n config path: ");
        text.append(path);
        text.append("\n logging path: ");
        match &self.logging_path {
            Some(logging_path) => text.append(logging_path.as_str()),
            None => text.append("Logging not set!"),
        }
        text.append("\n repository count: ");
        text.append(decimal_text(count).as_str());
        text.append("\n");
        text
    }
}

impl Displayer for Config {
    /// The repositories in their order, numbered from one; a line that says
    /// so where the store has no repository list.
    fn repositories(&self) -> (text: String)
        ensures
            text@ == repositories_text(self@),
    {
        match &self.repositories {
            None => String::from_str("No repositories added yet.\n"),
            Some(repos) => {
                let mut text = String::new();
                let mut i: usize = 0;
                while i < repos.len()
                    invariant
                        i <= repos.len(),
                        text@ == repository_entries(repos.deep_view(), i as nat),
                    decreases repos.len() - i,
                {
                    text.append(repository_lines(i, &repos[i]).as_str());
                    i = i + 1;
                }
                text
            },
        }
    }

    /// The path of the first repository of that name and its files in their
    /// order, numbered from one; a line that says so where it has no file
    /// list. Refused where no repository of that name is configured.
    fn repository_files(&self, repo_name: &str) -> (result: Result<String, CommandError>)
        ensures
            !self@.has(repo_name@) ==> result == Err::<String, CommandError>(
                CommandError::RepositoryNotFound,
            ),
            self@.has(repo_name@) ==> (result matches Ok(text) && text@ == repository_files_text(
                self@.repos()[self@.index_of(repo_name@)],
            )),
    {
        let index = match get_repo(repo_name, self) {
            Some(index) => index,
            None => { return Err(CommandError::RepositoryNotFound); },
        };
        match &self.repositories {
            None => Err(CommandError::RepositoryNotFound),
            Some(repos) => {
                let repo = &repos[index];
                let mut text = String::from_str("Repository path: ");
                text.append(repo.path.as_str());
                text.append("\n");
                let ghost head = text@;
                match &repo.files {
                    None => {
                        text.append("No files added yet.\n");
                    },
                    Some(files) => {
                        let mut i: usize = 0;
                        while i < files.len()
                            invariant
                                i <= files.len(),
                                text@ == head + file_entries(files.deep_view(), i as nat),
                            decreases files.len() - i,
                        {
                            text.append(file_line(i, files[i].as_str()).as_str());
                            assert(text@ =~= head + file_entries(
                                files.deep_view(),
                                (i + 1) as nat,
                            ));
                            i = i + 1;
                        }
                    },
                }
                Ok(text)
            },
        }
    }

    /// The listing for the store's path as `get_dir` gives it at this moment;
    /// refused where the home directory cannot be determined.
    fn info(&self) -> (result: Result<String, ConfigError>)
        ensures
            result matches Ok(text) ==> exists|home: Seq<char>|
                text@ == info_text(self@, store_path(home)),
            result matches Err(error) ==> error is NoHomeDir,
    {
        match self.get_dir() {
            Ok(path) => {
                let text = self.info_at(path.as_str());
                proof {
                    let home = choose|home: Seq<char>| path@ == store_path(home);
                    assert(text@ == info_text(self@, store_path(home)));
                }
                Ok(text)
            },
            Err(error) => Err(error),
        }
    }
}

} // verus!
