//! The commands of the command line, as plain values, and what each of them
//! does to the store.

use crate::commands::{
    active_notice, auto_push_notice, missing_branch_notice, CommandError, Commands,
};
use crate::config::Config;
use crate::display::{repositories_text, repository_files_text, Displayer};
use vstd::prelude::*;
use vstd::string::*;

verus! {

/// One invocation of the program.
#[derive(Debug)]
pub struct Command {
    pub subcmd: SubCommand,
}

/// What the invocation asks for.
#[derive(Debug)]
pub enum SubCommand {
    /// Make a new store file.
    New(New),
    /// Remove a repository, or a file of one.
    Rm(Remove),
    /// Record a repository.
    Init(Init),
    /// Change a property of a repository.
    SetProperty(SetProperty),
    /// Put a file under management.
    Add(Add),
    /// List the repositories, or the files of one.
    List(List),
    /// Run one synchronization cycle.
    Watch(NoArgs),
    /// Show where the store and the log lie.
    Info(NoArgs),
}

/// A command without options.
#[derive(Debug)]
pub struct NoArgs {}

/// Options of `new`.
#[derive(Debug)]
pub struct New {
    /// Whether an existing store file is replaced.
    pub overwrite: bool,
}

/// Options of `init`.
#[derive(Debug)]
pub struct Init {
    /// Name of the repository, unique in the store.
    pub name: String,
    /// Branch the repository is expected to be on.
    pub branch: String,
    /// Absolute path of the working tree.
    pub path: String,
}

/// Options of `rm`.
#[derive(Debug)]
pub struct Remove {
    /// Whether a file or a repository is removed.
    pub kind: Type,
    /// Name of the repository.
    pub name: String,
    /// The file, relative to the working tree.
    pub file: Option<String>,
}

/// Options of `add`.
#[derive(Debug)]
pub struct Add {
    /// Name of the repository.
    pub name: String,
    /// The file, relative to the working tree.
    pub file: String,
}

/// Options of `list`.
#[derive(Debug)]
pub struct List {
    /// Whether files or repositories are listed.
    pub kind: TypePlural,
    /// Name of the repository whose files are listed.
    pub name: Option<String>,
}

/// Options of `set`.
#[derive(Debug)]
pub struct SetProperty {
    /// Name of the repository.
    pub name: String,
    /// The property to change.
    pub property: Property,
    /// The new branch, where the property is the branch.
    pub branch: Option<String>,
}

/// A property of a repository that `set` changes.
#[derive(Clone, Copy, Debug, PartialEq, Eq, Structural)]
pub enum Property {
    Push,
    Active,
    Branch,
}

/// What `rm` removes.
#[derive(Clone, Copy, Debug, PartialEq, Eq, Structural)]
pub enum Type {
    File,
    Repo,
}

/// What `list` lists.
#[derive(Clone, Copy, Debug, PartialEq, Eq, Structural)]
pub enum TypePlural {
    Files,
    Repos,
}

/// What is left to do once a command has had its effect on the store.
#[derive(Debug, PartialEq, Eq)]
pub enum Reply {
    /// The store changed and is to be written back; the line, if any, is for the user.
    Changed(Option<String>),
    /// The store is as it was; the line is for the user.
    Notice(String),
    /// The store is as it was; the text, with its line ends, is for the user.
    Listing(String),
    /// A new store file is to be made.
    CreateDefault { overwrite: bool },
    /// A synchronization cycle is to be run.
    Watch,
    /// The place of the store and of the log is to be shown.
    Info,
}

/// What `rm` says where it is to remove a file and is given none.
pub open spec fn missing_file_notice() -> Seq<char> {
    "No relativ file path was specified. Please add to the command a file with \"-f <relativ_file_path_from_repo>\""@
}

/// What `list` says where it is to list files and is given no repository.
pub open spec fn missing_name_notice() -> Seq<char> {
    "No repository name was specified. Please add to the command a name with \"-n <repo_name>\""@
}

impl SubCommand {
    /// Whether the command lacks an option that it needs: the file of an
    /// `rm` of a file, or the repository of a `list` of files.
    pub open spec fn lacks_option(self) -> bool {
        match self {
            SubCommand::Rm(args) => args.kind == Type::File && args.file is None,
            SubCommand::List(args) => args.kind == TypePlural::Files && args.name is None,
            _ => false,
        }
    }

    /// Whether the command works on the store as its file holds it.
    pub open spec fn spec_reads_store(self) -> bool {
        !(self is New) && !self.lacks_option()
    }

    /// Whether the store is to be read from its file before the command has
    /// its effect: for every command but `new` and those that lack an option.
    pub fn reads_store(&self) -> (reads: bool)
        ensures
            reads == self.spec_reads_store(),
    {
        match self {
            SubCommand::New(_) => false,
            SubCommand::Rm(args) => match args.kind {
                Type::File => args.file.is_some(),
                Type::Repo => true,
            },
            SubCommand::List(args) => match args.kind {
                TypePlural::Files => args.name.is_some(),
                TypePlural::Repos => true,
            },
            _ => true,
        }
    }
}

impl Config {
    /// The effect of a command on the store, and what is left to do. A
    /// command that changes the store does so as the operation of the same
    /// purpose does, and is refused where that one is; a listing is the one
    /// that `Displayer` gives; `new`, `watch` and `info` leave the store as
    /// it is and are handed on.
    pub fn execute(&mut self, command: SubCommand) -> (result: Result<Reply, CommandError>)
        ensures
            command.lacks_option() || command is New || command is List || command is Watch
                || command is Info || result is Err ==> final(self)@ == old(self)@,
            command matches SubCommand::New(args) ==> (result matches Ok(
                Reply::CreateDefault { overwrite },
            ) && overwrite == args.overwrite),
            command is Watch ==> result matches Ok(Reply::Watch),
            command is Info ==> result matches Ok(Reply::Info),
            command matches SubCommand::Rm(args) ==> match args.kind {
                Type::Repo => if old(self)@.repositories is None {
                    result == Err::<Reply, CommandError>(CommandError::NoRepositories)
                } else if !old(self)@.has(args.name@) {
                    result == Err::<Reply, CommandError>(CommandError::RepositoryNotFound)
                } else {
                    (result matches Ok(Reply::Changed(None))) && final(self)@
                        == old(self)@.without_repo(args.name@)
                },
                Type::File => match args.file {
                    None => result matches Ok(Reply::Notice(line)) && line@
                        == missing_file_notice(),
                    Some(file) => if !old(self)@.has(args.name@) {
                        result == Err::<Reply, CommandError>(CommandError::RepositoryNotFound)
                    } else if old(self)@.lacks_files(args.name@) {
                        result == Err::<Reply, CommandError>(CommandError::NoFiles)
                    } else {
                        (result matches Ok(Reply::Changed(None))) && final(self)@
                            == old(self)@.without_file(args.name@, file@)
                    },
                },
            },
            command matches SubCommand::Init(args) ==> if old(self)@.has(args.name@) {
                result == Err::<Reply, CommandError>(CommandError::DuplicateName)
            } else {
                (result matches Ok(Reply::Changed(None))) && final(self)@
                    == old(self)@.with_new_repo(args.name@, args.path@, args.branch@)
            },
            command matches SubCommand::Add(args) ==> if !old(self)@.has(args.name@) {
                result == Err::<Reply, CommandError>(CommandError::RepositoryNotFound)
            } else {
                (result matches Ok(Reply::Changed(None))) && final(self)@ == old(self)@.with_file(
                    args.name@,
                    args.file@,
                )
            },
            command matches SubCommand::SetProperty(args) ==> match args.property {
                Property::Push => if !old(self)@.has(args.name@) {
                    result == Err::<Reply, CommandError>(CommandError::RepositoryNotFound)
                } else {
                    final(self)@ == old(self)@.with_auto_push_flipped(args.name@) && (
                    result matches Ok(Reply::Changed(Some(line))) && line@ == auto_push_notice(
                        final(self)@.repos()[old(self)@.index_of(args.name@)].auto_push,
                    ))
                },
                Property::Active => if !old(self)@.has(args.name@) {
                    result == Err::<Reply, CommandError>(CommandError::RepositoryNotFound)
                } else {
                    final(self)@ == old(self)@.with_active_flipped(args.name@) && (
                    result matches Ok(Reply::Changed(Some(line))) && line@ == active_notice(
                        final(self)@.repos()[old(self)@.index_of(args.name@)].active,
                    ))
                },
                Property::Branch => match args.branch {
                    None => final(self)@ == old(self)@ && (result matches Ok(Reply::Notice(line))
                        && line@ == missing_branch_notice()),
                    Some(branch) => if !old(self)@.has(args.name@) {
                        result == Err::<Reply, CommandError>(CommandError::RepositoryNotFound)
                    } else {
                        (result matches Ok(Reply::Changed(None))) && final(self)@
                            == old(self)@.with_branch(args.name@, branch@)
                    },
                },
            },
            command matches SubCommand::List(args) ==> match args.kind {
                TypePlural::Repos => result matches Ok(Reply::Listing(text)) && text@
                    == repositories_text(old(self)@),
                TypePlural::Files => match args.name {
                    None => result matches Ok(Reply::Notice(line)) && line@
                        == missing_name_notice(),
                    Some(name) => if !old(self)@.has(name@) {
                        result == Err::<Reply, CommandError>(CommandError::RepositoryNotFound)
                    } else {
                        result matches Ok(Reply::Listing(text)) && text@ == repository_files_text(
                            old(self)@.repos()[old(self)@.index_of(name@)],
                        )
                    },
                },
            },
    {
        match command {
            SubCommand::New(args) => Ok(Reply::CreateDefault { overwrite: args.overwrite }),
            SubCommand::Watch(_) => Ok(Reply::Watch),
            SubCommand::Info(_) => Ok(Reply::Info),
            SubCommand::Rm(args) => match args.kind {
                Type::Repo => match self.remove_repo(args.name.as_str()) {
                    Ok(()) => Ok(Reply::Changed(None)),
                    Err(error) => Err(error),
                },
                Type::File => match args.file {
                    None => Ok(
                        Reply::Notice(
                            String::from_str(
                                "No relativ file path was specified. Please add to the command a file with \"-f <relativ_file_path_from_repo>\"",
                            ),
                        ),
                    ),
                    Some(file) => match self.remove_file_from_repo(
                        args.name.as_str(),
                        file.as_str(),
                    ) {
                        Ok(()) => Ok(Reply::Changed(None)),
                        Err(error) => Err(error),
                    },
                },
            },
            SubCommand::Init(args) => match self.init_repo(args.name, args.path, args.branch) {
                Ok(()) => Ok(Reply::Changed(None)),
                Err(error) => Err(error),
            },
            SubCommand::Add(args) => match self.add_file_to_repo(args.name, args.file) {
                Ok(()) => Ok(Reply::Changed(None)),
                Err(error) => Err(error),
            },
            SubCommand::SetProperty(args) => match args.property {
                Property::Push => match self.change_auto_push(args.name.as_str()) {
                    Ok(line) => Ok(Reply::Changed(Some(line))),
                    Err(error) => Err(error),
                },
                Property::Active => match self.change_active(args.name.as_str()) {
                    Ok(line) => Ok(Reply::Changed(Some(line))),
                    Err(error) => Err(error),
                },
                Property::Branch => match self.set_branch(args.name.as_str(), args.branch) {
                    Ok(Some(line)) => Ok(Reply::Notice(line)),
                    Ok(None) => Ok(Reply::Changed(None)),
                    Err(error) => Err(error),
                },
            },
            SubCommand::List(args) => match args.kind {
                TypePlural::Repos => Ok(Reply::Listing(self.repositories())),
                TypePlural::Files => match args.name {
                    None => Ok(
                        Reply::Notice(
                            String::from_str(
                                "No repository name was specified. Please add to the command a name with \"-n <repo_name>\"",
                            ),
                        ),
                    ),
                    Some(name) => match self.repository_files(name.as_str()) {
                        Ok(text) => Ok(Reply::Listing(text)),
                        Err(error) => Err(error),
                    },
                },
            },
        }
    }
}

} // verus!
