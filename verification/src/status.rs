//! The status oracle's answers: what git reports of one file of a working
//! tree, reduced to what the commit stage acts on.

use vstd::prelude::*;

verus! {

/// State of one file of a working tree.
#[derive(Debug, PartialEq, Eq)]
pub enum FileStatus {
    /// Nothing to commit for the file.
    Unmodified,
    /// The working-tree copy differs from the index.
    Modified,
    /// The file is new in the index.
    NewlyStaged,
    /// The state could not be determined.
    Error(String),
}

/// Mathematical view of a [`FileStatus`].
pub enum FileStatusView {
    Unmodified,
    Modified,
    NewlyStaged,
    Error(Seq<char>),
}

impl FileStatusView {
    /// Whether the commit stage commits a file in this state.
    pub open spec fn needs_commit(self) -> bool {
        self is Modified || self is NewlyStaged
    }
}

impl View for FileStatus {
    type V = FileStatusView;

    open spec fn view(&self) -> FileStatusView {
        match self {
            FileStatus::Unmodified => FileStatusView::Unmodified,
            FileStatus::Modified => FileStatusView::Modified,
            FileStatus::NewlyStaged => FileStatusView::NewlyStaged,
            FileStatus::Error(detail) => FileStatusView::Error(detail@),
        }
    }
}

impl Clone for FileStatus {
    fn clone(&self) -> (out: Self)
        ensures
            out@ == self@,
    {
        match self {
            FileStatus::Unmodified => FileStatus::Unmodified,
            FileStatus::Modified => FileStatus::Modified,
            FileStatus::NewlyStaged => FileStatus::NewlyStaged,
            FileStatus::Error(detail) => FileStatus::Error(detail.clone()),
        }
    }
}

/// The status flag set that git gives a file whose working-tree copy is
/// modified and that has no other flag.
pub open spec fn wt_modified() -> u32 {
    0x100
}

/// The status flag set that git gives a file that is new in the index and
/// has no other flag.
pub open spec fn index_new() -> u32 {
    0x1
}

/// What a set of git status flags means to the commit stage: exactly the
/// working-tree-modified flag is `Modified`, exactly the new-in-index flag
/// is `NewlyStaged`, and every other set leaves nothing to commit.
pub open spec fn status_of_bits(bits: u32) -> FileStatusView {
    if bits == wt_modified() {
        FileStatusView::Modified
    } else if bits == index_new() {
        FileStatusView::NewlyStaged
    } else {
        FileStatusView::Unmodified
    }
}

/// `git2::Status::WT_MODIFIED`, as bits. The crate defines the flag as
/// libgit2's `GIT_STATUS_WT_MODIFIED`, which is `1 << 8`.
#[verifier::external_body]
fn wt_modified_bits() -> (bits: u32)
    ensures
        bits == wt_modified(),
{
    git2::Status::WT_MODIFIED.bits()
}

/// `git2::Status::INDEX_NEW`, as bits. The crate defines the flag as
/// libgit2's `GIT_STATUS_INDEX_NEW`, which is `1 << 0`.
#[verifier::external_body]
fn index_new_bits() -> (bits: u32)
    ensures
        bits == index_new(),
{
    git2::Status::INDEX_NEW.bits()
}

impl FileStatus {
    /// Reads a set of git status flags.
    pub fn from_bits(bits: u32) -> (status: FileStatus)
        ensures
            status@ == status_of_bits(bits),
    {
        if bits == wt_modified_bits() {
            FileStatus::Modified
        } else if bits == index_new_bits() {
            FileStatus::NewlyStaged
        } else {
            FileStatus::Unmodified
        }
    }

    /// Reads the answer to a status query: the flags where there are any,
    /// the cause where the query failed.
    pub fn from_query(answer: Result<u32, String>) -> (status: FileStatus)
        ensures
            answer matches Ok(bits) ==> status@ == status_of_bits(bits),
            answer matches Err(detail) ==> status@ == FileStatusView::Error(detail@),
    {
        match answer {
            Ok(bits) => FileStatus::from_bits(bits),
            Err(detail) => FileStatus::Error(detail),
        }
    }

    /// Whether the commit stage commits a file in this state.
    pub fn needs_commit(&self) -> (needed: bool)
        ensures
            needed == self@.needs_commit(),
    {
        match self {
            FileStatus::Modified => true,
            FileStatus::NewlyStaged => true,
            _ => false,
        }
    }
}

} // verus!
