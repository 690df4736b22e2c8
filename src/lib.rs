//! Introspection of a local git repository: the decisions and aggregations
//! behind branch, commit, diff, status, worktree and storage-size queries.
//! Reading the repository and the filesystem is left to the caller, which
//! hands the values it read to the functions here.
pub mod size;
pub mod status;
pub mod types;
pub mod diff;
pub mod history;
pub mod refs;
pub mod worktree;
pub mod lfs;
pub mod info;
