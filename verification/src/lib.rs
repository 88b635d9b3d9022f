//! Keeps chosen files of chosen git working trees committed and pushed.
//!
//! The store ([`Config`]) lists the repositories and, for each, the files
//! under management. A synchronization cycle ([`SyncCycle`]) walks the active
//! repositories in order: it checks that the working tree is on the
//! configured branch, commits every managed file that changed, one commit a
//! file, and pushes where the repository asks for it.
//!
//! A cycle is a machine: it names the next git operation and is told its
//! outcome, so that every decision of a cycle is a value that can be
//! reasoned about. It can open the working trees and query the states of
//! files on its own, through the git library; the branch read, the commits
//! and the push are runs of the `git` program, which are left to the caller.

pub mod cli;
pub mod commands;
pub mod config;
pub mod display;
pub mod status;
pub mod sync;
pub mod text;

pub use cli::{
    Add, Command, Init, List, New, NoArgs, Property, Remove, Reply, SetProperty, SubCommand, Type,
    TypePlural,
};
pub use commands::{CommandError, Commands, ErrorKind};
pub use config::{Config, ConfigError, GitRepository, OperationsFacade};
pub use display::Displayer;
pub use status::FileStatus;
pub use sync::machine::{check_branch, commit, push, Progress, Rejected, SyncCycle};
pub use sync::model::Phase;
pub use sync::protocol::{Action, Event, GitCommand, Level, LogEntry, Stream};
