//! The working tree as the git library sees it: opening it, and asking for
//! the state of one of its files.

use vstd::prelude::*;

verus! {

/// `git2::Repository`: a handle on an opened repository.
#[verifier::external_type_specification]
#[verifier::external_body]
pub struct ExRepository(git2::Repository);

/// `git2::Error`: why a call into the git library failed.
#[verifier::external_type_specification]
#[verifier::external_body]
pub struct ExGitError(git2::Error);

/// `git2::Repository::open`: opens the repository at `path`, or says why it
/// cannot. Nothing is claimed of the result: it depends on what lies at
/// `path` at this moment. The call panics only where the git library itself
/// cannot be initialised in this process.
#[verifier::external_body]
pub(crate) fn open_repository(path: &str) -> (result: Result<git2::Repository, git2::Error>) {
    git2::Repository::open(path)
}

/// `git2::Repository::status_file`: the status flags of the one file `file`,
/// a path relative to the working tree, or why they cannot be had. Nothing
/// is claimed of the result: it depends on the working tree, the index and
/// the last commit as they are at this moment.
#[verifier::external_body]
pub(crate) fn status_bits(repository: &git2::Repository, file: &str) -> (result: Result<
    u32,
    git2::Error,
>) {
    repository.status_file(std::path::Path::new(file)).map(|status| status.bits())
}

/// `git2::Error` as `Display` shows it: the message of the git library,
/// followed by the error's class and code where it has them.
#[verifier::external_body]
pub(crate) fn error_text(error: &git2::Error) -> (text: String) {
    error.to_string()
}

} // verus!
