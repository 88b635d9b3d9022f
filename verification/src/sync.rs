//! The synchronization cycle: one pass over the configured repositories,
//! as a machine that names the next git operation and takes its outcome.
//!
//! `model` holds the machine as mathematics, `laws` what follows from it,
//! `protocol` the operations and outcomes, `machine` the machine as it
//! runs, and `worktree` its calls into the git library.

pub mod laws;
pub mod machine;
pub mod model;
pub mod protocol;
pub mod worktree;
